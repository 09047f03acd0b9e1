use vstd::prelude::*;
use crate::sample_buffer::SampleBuffer;

verus! {

/// A window covers 1/20 of a second (50 ms) of audio.
pub const WINDOWS_PER_SECOND: u32 = 20;

/// The number of samples in a full window at `sample_rate`.
pub open spec fn window_length_spec(sample_rate: u32) -> nat {
    (sample_rate / WINDOWS_PER_SECOND) as nat
}

/// The number of samples in a full window at `sample_rate`.
pub fn window_length(sample_rate: u32) -> (n: usize)
    ensures
        n == window_length_spec(sample_rate),
{
    (sample_rate / WINDOWS_PER_SECOND) as usize
}

/// The latest ready-to-analyze snapshot of audio: either empty (not yet
/// filled) or exactly one full window of samples, as bit patterns.
pub struct AudioWindow {
    samples: Vec<u32>,
    sample_rate: u32,
}

impl View for AudioWindow {
    type V = Seq<u32>;

    /// The samples, oldest first.
    closed spec fn view(&self) -> Seq<u32> {
        self.samples@
    }
}

impl AudioWindow {
    #[verifier::type_invariant]
    spec fn inv(&self) -> bool {
        self.samples@.len() == 0 || self.samples@.len() == window_length_spec(self.sample_rate)
    }

    /// The sample rate the window was captured at.
    pub closed spec fn rate(&self) -> u32 {
        self.sample_rate
    }

    /// An empty window for audio at `sample_rate`.
    pub fn empty(sample_rate: u32) -> (w: AudioWindow)
        ensures
            w@ == Seq::<u32>::empty(),
            w.rate() == sample_rate,
    {
        AudioWindow { samples: Vec::new(), sample_rate }
    }

    /// A window holding `samples`, which must be empty or exactly one full
    /// window long; `None` for any other length.
    pub fn from_samples(samples: Vec<u32>, sample_rate: u32) -> (r: Option<AudioWindow>)
        ensures
            r is Some <==> (samples@.len() == 0 || samples@.len() == window_length_spec(
                sample_rate,
            )),
            r is Some ==> r->Some_0@ == samples@ && r->Some_0.rate() == sample_rate,
    {
        if samples.len() == 0 || samples.len() == window_length(sample_rate) {
            Some(AudioWindow { samples, sample_rate })
        } else {
            None
        }
    }

    /// A copy of the samples; never a partly filled window.
    pub fn samples(&self) -> (r: Vec<u32>)
        ensures
            r@ == self@,
            r@.len() == 0 || r@.len() == window_length_spec(self.rate()),
    {
        proof {
            use_type_invariant(self);
        }
        let mut r: Vec<u32> = Vec::new();
        let mut i: usize = 0;
        while i < self.samples.len()
            invariant
                i <= self.samples@.len(),
                r@ == self.samples@.subrange(0, i as int),
            decreases self.samples@.len() - i,
        {
            r.push(self.samples[i]);
            i = i + 1;
            assert(r@ =~= self.samples@.subrange(0, i as int));
        }
        assert(r@ =~= self.samples@);
        r
    }

    /// A copy of the window.
    pub fn copy(&self) -> (r: AudioWindow)
        ensures
            r@ == self@,
            r.rate() == self.rate(),
    {
        proof {
            use_type_invariant(self);
        }
        AudioWindow { samples: self.samples(), sample_rate: self.sample_rate }
    }

    /// The sample rate the window was captured at.
    pub fn sample_rate(&self) -> (r: u32)
        ensures
            r == self.rate(),
    {
        self.sample_rate
    }

    /// The number of samples: 0, or exactly one full window.
    pub fn len(&self) -> (n: usize)
        ensures
            n == self@.len(),
            n == 0 || n == window_length_spec(self.rate()),
    {
        proof {
            use_type_invariant(self);
        }
        self.samples.len()
    }

    /// Whether the window holds no samples yet.
    pub fn is_empty(&self) -> (b: bool)
        ensures
            b == (self@.len() == 0),
    {
        self.samples.len() == 0
    }
}

/// The drain loop's state: samples taken from the buffer that do not yet
/// make up a full window.
pub struct WindowAssembler {
    scratch: Vec<u32>,
    sample_rate: u32,
}

/// What one drain step yields from the pending samples `all`: the most recent
/// full window, once there are enough of them.
pub open spec fn completed_window(all: Seq<u32>, n: nat) -> Option<Seq<u32>> {
    if all.len() >= n {
        Some(all.subrange(all.len() - n, all.len() as int))
    } else {
        None
    }
}

impl WindowAssembler {
    /// The samples gathered since the last completed window.
    pub closed spec fn pending(&self) -> Seq<u32> {
        self.scratch@
    }

    /// The sample rate of the audio being assembled.
    pub closed spec fn rate(&self) -> u32 {
        self.sample_rate
    }

    /// An assembler with nothing gathered yet.
    pub fn new(sample_rate: u32) -> (a: WindowAssembler)
        ensures
            a.pending() == Seq::<u32>::empty(),
            a.rate() == sample_rate,
    {
        WindowAssembler { scratch: Vec::new(), sample_rate }
    }

    /// One drain step: moves every sample of `buffer` into the pending
    /// samples; once they make up a full window, returns the most recent
    /// full window and starts over with nothing pending.
    pub fn absorb(&mut self, buffer: &mut SampleBuffer) -> (r: Option<AudioWindow>)
        requires
            old(buffer).wf(),
        ensures
            final(buffer).wf(),
            final(buffer).capacity_spec() == old(buffer).capacity_spec(),
            final(buffer)@ == Seq::<u32>::empty(),
            final(self).rate() == old(self).rate(),
            ({
                let all = old(self).pending() + old(buffer)@;
                let n = window_length_spec(old(self).rate());
                match completed_window(all, n) {
                    Some(s) => r is Some && r->Some_0@ == s && r->Some_0.rate() == old(self).rate()
                        && final(self).pending() == Seq::<u32>::empty(),
                    None => r is None && final(self).pending() == all,
                }
            }),
    {
        buffer.drain_into(&mut self.scratch);
        let n = window_length(self.sample_rate);
        let total = self.scratch.len();
        if total >= n {
            let mut out: Vec<u32> = Vec::new();
            let mut i: usize = total - n;
            while i < total
                invariant
                    total == self.scratch@.len(),
                    n <= total,
                    n == window_length_spec(self.sample_rate),
                    total - n <= i <= total,
                    out@ == self.scratch@.subrange(total - n, i as int),
                decreases total - i,
            {
                out.push(self.scratch[i]);
                i = i + 1;
                assert(out@ =~= self.scratch@.subrange(total - n, i as int));
            }
            self.scratch.clear();
            Some(AudioWindow { samples: out, sample_rate: self.sample_rate })
        } else {
            None
        }
    }
}

} // verus!
