use audiruby::capture::{
    CaptureError, CaptureSession, CaptureState, DeviceConfig, SampleFormat, StartDecision,
};
use audiruby::effects::{process, Distortion, Effect};
use audiruby::sample_buffer::SampleBuffer;
use audiruby::window::{window_length, AudioWindow, WindowAssembler};

fn config(rate: u32, format: SampleFormat) -> DeviceConfig {
    DeviceConfig { sample_rate: rate, channels: 1, sample_format: format }
}

fn running(rate: u32) -> (CaptureSession, SampleBuffer) {
    let mut s = CaptureSession::new();
    assert_eq!(s.request_start(), StartDecision::OpenDevice);
    let buf = s.configure(Some(config(rate, SampleFormat::F32))).expect("usable");
    assert_eq!(s.stream_started(true), Ok(()));
    (s, buf)
}

#[test]
fn buffer_keeps_order_and_drains() {
    let mut b = SampleBuffer::new(4);
    b.push(1);
    b.push(2);
    b.push(3);
    assert_eq!(b.len(), 3);
    let mut sink = vec![9];
    assert_eq!(b.drain_into(&mut sink), 3);
    assert_eq!(sink, vec![9, 1, 2, 3]);
    assert_eq!(b.len(), 0);
    assert_eq!(b.drain_into(&mut sink), 0);
}

#[test]
fn buffer_overflow_drops_oldest() {
    let mut b = SampleBuffer::new(3);
    for x in 1..=5u32 {
        b.push(x);
    }
    assert_eq!(b.len(), 3);
    assert_eq!(b.capacity(), 3);
    let mut sink = Vec::new();
    b.drain_into(&mut sink);
    assert_eq!(sink, vec![3, 4, 5]);
}

#[test]
fn buffer_holds_one_second() {
    let b = SampleBuffer::for_sample_rate(44100);
    assert_eq!(b.capacity(), 44100);
    assert_eq!(b.len(), 0);
}

#[test]
fn window_length_is_fifty_ms() {
    assert_eq!(window_length(44100), 2205);
    assert_eq!(window_length(48000), 2400);
    assert_eq!(window_length(19), 0);
}

#[test]
fn window_is_empty_or_full() {
    assert!(AudioWindow::from_samples(vec![1, 2, 3], 100).is_none());
    assert!(AudioWindow::from_samples(vec![], 100).is_some());
    let w = AudioWindow::from_samples(vec![1, 2, 3, 4, 5], 100).expect("full");
    assert_eq!(w.len(), 5);
    assert_eq!(w.samples(), vec![1, 2, 3, 4, 5]);
    assert_eq!(w.sample_rate(), 100);
    assert!(!w.is_empty());
    assert!(AudioWindow::empty(100).is_empty());
}

#[test]
fn assembler_publishes_most_recent_full_window() {
    let mut a = WindowAssembler::new(100);
    let mut b = SampleBuffer::new(100);
    for x in 1..=3u32 {
        b.push(x);
    }
    assert!(a.absorb(&mut b).is_none());
    assert_eq!(b.len(), 0);
    for x in 4..=7u32 {
        b.push(x);
    }
    let w = a.absorb(&mut b).expect("a full window");
    assert_eq!(w.samples(), vec![3, 4, 5, 6, 7]);
    assert!(a.absorb(&mut b).is_none());
}

#[test]
fn session_captures_windows() {
    let (mut s, mut buf) = running(100);
    assert_eq!(s.state(), CaptureState::Capturing);
    assert_eq!(s.get_audio_data(), Ok(vec![]));
    for x in 1..=6u32 {
        buf.push(x);
    }
    assert!(s.drain_step(&mut buf));
    assert_eq!(s.get_audio_data(), Ok(vec![2, 3, 4, 5, 6]));
    assert_eq!(s.snapshot().expect("window").samples(), vec![2, 3, 4, 5, 6]);
}

#[test]
fn stop_freezes_window() {
    let (mut s, mut buf) = running(100);
    for x in 1..=5u32 {
        buf.push(x);
    }
    s.drain_step(&mut buf);
    s.stop();
    assert_eq!(s.state(), CaptureState::Stopped);
    for x in 10..=20u32 {
        buf.push(x);
    }
    assert!(!s.drain_step(&mut buf));
    assert_eq!(s.get_audio_data(), Ok(vec![1, 2, 3, 4, 5]));
    s.stop();
    assert_eq!(s.state(), CaptureState::Stopped);
}

#[test]
fn second_start_opens_no_stream() {
    let (mut s, _buf) = running(100);
    assert_eq!(s.request_start(), StartDecision::AlreadyCapturing);
    assert_eq!(s.state(), CaptureState::Capturing);
    let mut t = CaptureSession::new();
    assert_eq!(t.request_start(), StartDecision::OpenDevice);
    assert_eq!(t.request_start(), StartDecision::AlreadyCapturing);
    assert_eq!(t.state(), CaptureState::Starting);
}

#[test]
fn restart_after_stop_opens_device() {
    let (mut s, _buf) = running(100);
    s.stop();
    assert_eq!(s.request_start(), StartDecision::OpenDevice);
}

#[test]
fn missing_device_is_unavailable() {
    let mut s = CaptureSession::new();
    s.request_start();
    assert!(matches!(s.configure(None), Err(CaptureError::DeviceUnavailable)));
    assert_eq!(s.state(), CaptureState::Failed);
}

#[test]
fn other_format_is_unsupported() {
    let mut s = CaptureSession::new();
    s.request_start();
    let r = s.configure(Some(config(44100, SampleFormat::Other)));
    assert!(matches!(r, Err(CaptureError::UnsupportedFormat)));
    assert_eq!(s.state(), CaptureState::Failed);
}

#[test]
fn supported_formats_are_accepted() {
    for f in [SampleFormat::F32, SampleFormat::I16, SampleFormat::U16] {
        let mut s = CaptureSession::new();
        s.request_start();
        let buf = s.configure(Some(config(48000, f))).expect("usable");
        assert_eq!(buf.capacity(), 48000);
        assert_eq!(s.state(), CaptureState::Starting);
    }
}

#[test]
fn zero_rate_or_rejected_stream_is_init_error() {
    let mut s = CaptureSession::new();
    s.request_start();
    assert!(matches!(
        s.configure(Some(config(0, SampleFormat::F32))),
        Err(CaptureError::StreamInitError)
    ));
    let mut t = CaptureSession::new();
    t.request_start();
    t.configure(Some(config(44100, SampleFormat::I16))).expect("usable");
    assert_eq!(t.stream_started(false), Err(CaptureError::StreamInitError));
    assert_eq!(t.state(), CaptureState::Failed);
}

#[test]
fn stream_failure_is_observed() {
    let (mut s, mut buf) = running(100);
    s.stream_failed();
    assert_eq!(s.state(), CaptureState::Failed);
    assert_eq!(s.get_audio_data(), Err(CaptureError::StreamFailed));
    assert!(matches!(s.snapshot(), Err(CaptureError::StreamFailed)));
    buf.push(1);
    assert!(!s.drain_step(&mut buf));
}

#[test]
fn distortion_marks_input() {
    assert_eq!(Distortion.process("riff"), "Distorted: riff");
    assert_eq!(Distortion.distort(""), "Distorted: ");
}

#[test]
fn distortion_of_guitar() {
    assert_eq!(Distortion.process("guitar"), "Distorted: guitar");
}

#[test]
fn stop_then_many_drains_keeps_window() {
    let (mut s, mut buf) = running(100);
    for x in 1..=5u32 {
        buf.push(x);
    }
    s.drain_step(&mut buf);
    s.stop();
    for round in 0..3u32 {
        for x in 0..7u32 {
            buf.push(100 * round + x);
        }
        assert!(!s.drain_step(&mut buf));
        assert_eq!(s.get_audio_data(), Ok(vec![1, 2, 3, 4, 5]));
    }
}

#[test]
fn process_echoes_text() {
    assert_eq!(process("hello"), "hello");
    assert_eq!(process(""), "");
}
