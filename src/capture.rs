use vstd::prelude::*;
use crate::sample_buffer::SampleBuffer;
use crate::window::{AudioWindow, WindowAssembler, completed_window, window_length_spec};

verus! {

/// The sample format that an input device reports.
#[derive(Clone, Copy, Debug, PartialEq, Eq, Structural)]
pub enum SampleFormat {
    F32,
    I16,
    U16,
    /// Any format other than the three above.
    Other,
}

/// The preferred configuration of the default input device.
#[derive(Clone, Copy, Debug, PartialEq, Eq, Structural)]
pub struct DeviceConfig {
    pub sample_rate: u32,
    pub channels: u16,
    pub sample_format: SampleFormat,
}

/// Why capture could not start, or why it ended.
#[derive(Clone, Copy, Debug, PartialEq, Eq, Structural)]
pub enum CaptureError {
    /// No input device exists.
    DeviceUnavailable,
    /// The device reports a sample format outside F32, I16 and U16.
    UnsupportedFormat,
    /// The stream could not be set up with the device's configuration.
    StreamInitError,
    /// The running stream failed; no further windows are produced.
    StreamFailed,
}

/// The lifecycle of a capture session.
#[derive(Clone, Copy, Debug, PartialEq, Eq, Structural)]
pub enum CaptureState {
    Idle,
    Starting,
    Capturing,
    Stopped,
    Failed,
}

/// What the host must do after a start request.
#[derive(Clone, Copy, Debug, PartialEq, Eq, Structural)]
pub enum StartDecision {
    /// Open the default input device and hand its configuration to
    /// `CaptureSession::configure`.
    OpenDevice,
    /// A stream is already starting or running; open nothing.
    AlreadyCapturing,
}

/// The abstract state of a session.
pub struct SessionView {
    pub state: CaptureState,
    /// The samples of the latest completed window.
    pub window: Seq<u32>,
    pub rate: u32,
    /// Samples drained since the latest completed window.
    pub pending: Seq<u32>,
}

/// A stream is starting or running.
pub open spec fn is_active(s: CaptureState) -> bool {
    s == CaptureState::Starting || s == CaptureState::Capturing
}

/// The decision on a start request in state `v`.
pub open spec fn start_decision(v: SessionView) -> StartDecision {
    if is_active(v.state) {
        StartDecision::AlreadyCapturing
    } else {
        StartDecision::OpenDevice
    }
}

/// The state after a start request in state `v`.
pub open spec fn after_start_request(v: SessionView) -> SessionView {
    if is_active(v.state) {
        v
    } else {
        SessionView { state: CaptureState::Starting, ..v }
    }
}

/// The state after a stop in state `v`: an active session stops, any other
/// is left as it is.
pub open spec fn after_stop(v: SessionView) -> SessionView {
    if is_active(v.state) {
        SessionView { state: CaptureState::Stopped, ..v }
    } else {
        v
    }
}

/// The state after a drain step in state `v` that finds `incoming` in the
/// buffer: only a capturing session takes samples or replaces its window.
pub open spec fn after_drain(v: SessionView, incoming: Seq<u32>) -> SessionView {
    if v.state == CaptureState::Capturing {
        let all = v.pending + incoming;
        match completed_window(all, window_length_spec(v.rate)) {
            Some(w) => SessionView { window: w, pending: Seq::empty(), ..v },
            None => SessionView { pending: all, ..v },
        }
    } else {
        v
    }
}

/// The state after the stream reports a failure in state `v`.
pub open spec fn after_failure(v: SessionView) -> SessionView {
    if is_active(v.state) {
        SessionView { state: CaptureState::Failed, ..v }
    } else {
        v
    }
}

/// The decisions of one capture session: its lifecycle, the drain loop's
/// pending samples and the latest completed window. The host performs the
/// device and thread work that each decision calls for.
pub struct CaptureSession {
    state: CaptureState,
    window: AudioWindow,
    assembler: WindowAssembler,
}

impl View for CaptureSession {
    type V = SessionView;

    closed spec fn view(&self) -> SessionView {
        SessionView {
            state: self.state,
            window: self.window@,
            rate: self.assembler.rate(),
            pending: self.assembler.pending(),
        }
    }
}

impl CaptureSession {
    /// Well-formed: the window and the assembler share one sample rate.
    pub closed spec fn wf(&self) -> bool {
        self.window.rate() == self.assembler.rate()
    }

    /// An idle session with an empty window.
    pub fn new() -> (s: CaptureSession)
        ensures
            s.wf(),
            s@.state == CaptureState::Idle,
            s@.window == Seq::<u32>::empty(),
            s@.pending == Seq::<u32>::empty(),
    {
        CaptureSession {
            state: CaptureState::Idle,
            window: AudioWindow::empty(0),
            assembler: WindowAssembler::new(0),
        }
    }

    /// The current lifecycle state.
    pub fn state(&self) -> (s: CaptureState)
        ensures
            s == self@.state,
    {
        self.state
    }

    /// A start request. While a stream is starting or running this changes
    /// nothing and asks for no second stream.
    pub fn request_start(&mut self) -> (d: StartDecision)
        requires
            old(self).wf(),
        ensures
            final(self).wf(),
            d == start_decision(old(self)@),
            final(self)@ == after_start_request(old(self)@),
    {
        match self.state {
            CaptureState::Starting | CaptureState::Capturing => StartDecision::AlreadyCapturing,
            _ => {
                self.state = CaptureState::Starting;
                StartDecision::OpenDevice
            },
        }
    }

    /// Takes the default input device's configuration (`None` when there is
    /// no input device), validates it and, when it is usable, returns an empty
    /// sample buffer that holds one second of audio. On an error the session
    /// has failed.
    pub fn configure(&mut self, device: Option<DeviceConfig>) -> (r: Result<
        SampleBuffer,
        CaptureError,
    >)
        requires
            old(self).wf(),
            old(self)@.state == CaptureState::Starting,
        ensures
            final(self).wf(),
            ({
                let failed = SessionView { state: CaptureState::Failed, ..old(self)@ };
                match device {
                    None => r == Err::<SampleBuffer, CaptureError>(CaptureError::DeviceUnavailable)
                        && final(self)@ == failed,
                    Some(c) => if c.sample_format == SampleFormat::Other {
                        r == Err::<SampleBuffer, CaptureError>(CaptureError::UnsupportedFormat)
                            && final(self)@ == failed
                    } else if c.sample_rate == 0 || c.sample_rate == u32::MAX {
                        r == Err::<SampleBuffer, CaptureError>(CaptureError::StreamInitError)
                            && final(self)@ == failed
                    } else {
                        &&& r is Ok
                        &&& r->Ok_0.wf()
                        &&& r->Ok_0@ == Seq::<u32>::empty()
                        &&& r->Ok_0.capacity_spec() == c.sample_rate
                        &&& final(self)@ == (SessionView {
                            state: CaptureState::Starting,
                            window: Seq::empty(),
                            rate: c.sample_rate,
                            pending: Seq::empty(),
                        })
                    },
                }
            }),
    {
        match device {
            None => {
                self.state = CaptureState::Failed;
                Err(CaptureError::DeviceUnavailable)
            },
            Some(c) => {
                if c.sample_format == SampleFormat::Other {
                    self.state = CaptureState::Failed;
                    Err(CaptureError::UnsupportedFormat)
                } else if c.sample_rate == 0 || c.sample_rate == u32::MAX {
                    self.state = CaptureState::Failed;
                    Err(CaptureError::StreamInitError)
                } else {
                    self.window = AudioWindow::empty(c.sample_rate);
                    self.assembler = WindowAssembler::new(c.sample_rate);
                    Ok(SampleBuffer::for_sample_rate(c.sample_rate))
                }
            },
        }
    }

    /// Records whether the driver accepted and started the stream.
    pub fn stream_started(&mut self, started: bool) -> (r: Result<(), CaptureError>)
        requires
            old(self).wf(),
            old(self)@.state == CaptureState::Starting,
        ensures
            final(self).wf(),
            started ==> r is Ok && final(self)@ == (SessionView {
                state: CaptureState::Capturing,
                ..old(self)@
            }),
            !started ==> r == Err::<(), CaptureError>(CaptureError::StreamInitError)
                && final(self)@ == (SessionView { state: CaptureState::Failed, ..old(self)@ }),
    {
        if started {
            self.state = CaptureState::Capturing;
            Ok(())
        } else {
            self.state = CaptureState::Failed;
            Err(CaptureError::StreamInitError)
        }
    }

    /// Records that the running stream failed.
    pub fn stream_failed(&mut self)
        requires
            old(self).wf(),
        ensures
            final(self).wf(),
            final(self)@ == after_failure(old(self)@),
    {
        if self.state == CaptureState::Starting || self.state == CaptureState::Capturing {
            self.state = CaptureState::Failed;
        }
    }

    /// Stops an active session; on any other session this is a no-op.
    pub fn stop(&mut self)
        requires
            old(self).wf(),
        ensures
            final(self).wf(),
            final(self)@ == after_stop(old(self)@),
    {
        if self.state == CaptureState::Starting || self.state == CaptureState::Capturing {
            self.state = CaptureState::Stopped;
        }
    }

    /// One step of the drain loop. A capturing session empties `buffer`,
    /// replaces its window once a full one has gathered, and returns `true`;
    /// any other session touches nothing and returns `false`, so the loop ends.
    pub fn drain_step(&mut self, buffer: &mut SampleBuffer) -> (go_on: bool)
        requires
            old(self).wf(),
            old(buffer).wf(),
        ensures
            final(self).wf(),
            final(buffer).wf(),
            final(buffer).capacity_spec() == old(buffer).capacity_spec(),
            go_on == (old(self)@.state == CaptureState::Capturing),
            final(self)@ == after_drain(old(self)@, old(buffer)@),
            go_on ==> final(buffer)@ == Seq::<u32>::empty(),
            !go_on ==> final(buffer)@ == old(buffer)@,
    {
        if self.state == CaptureState::Capturing {
            match self.assembler.absorb(buffer) {
                Some(w) => {
                    self.window = w;
                },
                None => {},
            }
            true
        } else {
            false
        }
    }

    /// A copy of the latest completed window (empty until one has
    /// gathered); fails once the stream has failed.
    pub fn snapshot(&self) -> (r: Result<AudioWindow, CaptureError>)
        requires
            self.wf(),
        ensures
            self@.state == CaptureState::Failed ==> r == Err::<AudioWindow, CaptureError>(
                CaptureError::StreamFailed,
            ),
            self@.state != CaptureState::Failed ==> r is Ok && r->Ok_0@ == self@.window
                && r->Ok_0.rate() == self@.rate,
    {
        if self.state == CaptureState::Failed {
            Err(CaptureError::StreamFailed)
        } else {
            Ok(self.window.copy())
        }
    }

    /// The samples of the latest completed window (empty until one has
    /// gathered); fails once the stream has failed.
    pub fn get_audio_data(&self) -> (r: Result<Vec<u32>, CaptureError>)
        requires
            self.wf(),
        ensures
            self@.state == CaptureState::Failed ==> r == Err::<Vec<u32>, CaptureError>(
                CaptureError::StreamFailed,
            ),
            self@.state != CaptureState::Failed ==> r is Ok && r->Ok_0@ == self@.window,
            r is Ok ==> r->Ok_0@.len() == 0 || r->Ok_0@.len() == window_length_spec(self@.rate),
    {
        if self.state == CaptureState::Failed {
            Err(CaptureError::StreamFailed)
        } else {
            Ok(self.window.samples())
        }
    }
}

/// A second start request, with no stop in between, never opens a second
/// stream and leaves the session as the first request left it.
pub proof fn lemma_second_start_opens_nothing(v: SessionView)
    ensures
        start_decision(after_start_request(v)) == StartDecision::AlreadyCapturing,
        after_start_request(after_start_request(v)) == after_start_request(v),
{
}

/// The state after drain steps that find each of `batches` in turn.
pub open spec fn after_drains(v: SessionView, batches: Seq<Seq<u32>>) -> SessionView
    decreases batches.len(),
{
    if batches.len() == 0 {
        v
    } else {
        after_drain(after_drains(v, batches.drop_last()), batches.last())
    }
}

/// After a stop, however many drain steps follow and whatever they find, the
/// session is as the stop left it: a session that had not failed still
/// reports the window it held when stopped.
pub proof fn lemma_no_window_writes_after_stop(v: SessionView, batches: Seq<Seq<u32>>)
    ensures
        after_drains(after_stop(v), batches) == after_stop(v),
        after_drains(after_stop(v), batches).window == v.window,
        v.state != CaptureState::Failed ==> after_drains(after_stop(v), batches).state
            != CaptureState::Failed,
    decreases batches.len(),
{
    if batches.len() > 0 {
        lemma_no_window_writes_after_stop(v, batches.drop_last());
    }
}

/// After a stop, drain steps change nothing: the window that is read back is
/// the last one captured before the stop.
pub proof fn lemma_window_frozen_after_stop(v: SessionView, incoming: Seq<u32>)
    ensures
        after_drain(after_stop(v), incoming) == after_stop(v),
        after_stop(v).window == v.window,
        after_stop(after_stop(v)) == after_stop(v),
{
}

} // verus!
