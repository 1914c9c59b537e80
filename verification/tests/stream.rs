use aviutl_rs::output::sys;
use aviutl_rs::output::{Error, Event, Frames, OutputInfo, Phase, Step, Timestamp};

fn descriptor(w: i32, h: i32, n: i32, rate: i32, scale: i32) -> sys::OutputInfo {
    sys::OutputInfo {
        flag: 1,
        w,
        h,
        rate,
        scale,
        n,
        size: w * h * 3,
        audio_rate: 0,
        audio_ch: 0,
        audio_n: 0,
        audio_size: 0,
        savefile: b"out.webp".to_vec(),
    }
}

/// A host that takes `millis` for each frame and asks for an abort at the
/// checkpoint with the number `abort_at`, if any.
struct Host {
    clock: u64,
    millis: u64,
    frame_len: usize,
    abort_at: Option<usize>,
    preview_fails: bool,
    rest_time_fails: bool,
    checkpoints: usize,
    previews: usize,
    rest_times: Vec<(i32, i32)>,
    fetched: Vec<i32>,
    failures: Vec<Error>,
}

fn host(millis: u64, frame_len: usize) -> Host {
    Host {
        clock: 0,
        millis,
        frame_len,
        abort_at: None,
        preview_fails: false,
        rest_time_fails: false,
        checkpoints: 0,
        previews: 0,
        rest_times: Vec::new(),
        fetched: Vec::new(),
        failures: Vec::new(),
    }
}

/// Asks the stream for one frame, as an iterator would.
fn pull(frames: &mut Frames, host: &mut Host) -> Option<(Vec<u8>, (u32, u32), Timestamp)> {
    let mut event = Event::Poll { now: host.clock };
    loop {
        event = match frames.next(event) {
            Step::End => return None,
            Step::Frame(img, time) => {
                let size = img.dimensions();
                return Some((img.into_raw(), size, time));
            }
            Step::Failed(e) => {
                host.failures.push(e);
                if e == Error::PreviewUpdateFailed || e == Error::RestTimeDisplayFailed {
                    Event::Poll { now: host.clock }
                } else {
                    return None;
                }
            }
            Step::IsAbort => {
                host.checkpoints += 1;
                Event::IsAbort(if host.abort_at == Some(host.checkpoints) { 1 } else { 0 })
            }
            Step::UpdatePreview => {
                host.previews += 1;
                Event::UpdatePreview(if host.preview_fails { 0 } else { 1 })
            }
            Step::RestTimeDisp { now, total } => {
                host.rest_times.push((now, total));
                Event::RestTimeDisp(if host.rest_time_fails { 0 } else { 1 })
            }
            Step::GetVideo { frame } => {
                host.fetched.push(frame);
                host.clock += host.millis;
                Event::GetVideo(vec![frame as u8; host.frame_len])
            }
        };
    }
}

fn drain(frames: &mut Frames, host: &mut Host) -> Vec<(Vec<u8>, (u32, u32), Timestamp)> {
    let mut all = Vec::new();
    while let Some(item) = pull(frames, host) {
        all.push(item);
    }
    all
}

#[test]
fn three_frames_at_thirty_per_second() {
    let raw = descriptor(4, 2, 3, 30, 1);
    let info = OutputInfo::from(&raw).unwrap();
    let mut host = host(10, 24);
    let mut frames = info.frames(host.clock);
    let all = drain(&mut frames, &mut host);
    assert_eq!(all.len(), 3);
    let seconds: Vec<f64> = all.iter().map(|f| f.2.numer as f64 / f.2.denom as f64).collect();
    assert_eq!(seconds, vec![1.0 / 30.0, 2.0 / 30.0, 3.0 / 30.0]);
    for (k, (samples, size, _)) in all.iter().enumerate() {
        assert_eq!(*size, (4, 2));
        assert_eq!(*samples, vec![k as u8; 24]);
    }
    assert_eq!(host.fetched, vec![0, 1, 2]);
    assert_eq!(host.checkpoints, 0);
    assert!(host.failures.is_empty());
}

#[test]
fn drained_stream_yields_every_frame() {
    for n in [0, 1, 2, 7, 100] {
        let raw = descriptor(1, 1, n, 24, 1);
        let info = OutputInfo::from(&raw).unwrap();
        let mut host = host(300, 3);
        let mut frames = info.frames(host.clock);
        let all = drain(&mut frames, &mut host);
        assert_eq!(all.len(), n as usize);
        for (k, (_, _, time)) in all.iter().enumerate() {
            let k = k as i64 + 1;
            assert_eq!(time.numer * 24, k * time.denom);
            assert!(time.denom > 0);
        }
        for pair in all.windows(2) {
            assert!(pair[0].2.numer * pair[1].2.denom < pair[1].2.numer * pair[0].2.denom);
        }
        assert_eq!(host.fetched, (0..n).collect::<Vec<i32>>());
    }
}

#[test]
fn stream_of_a_negative_count_is_empty() {
    let raw = descriptor(1, 1, -3, 24, 1);
    let info = OutputInfo::from(&raw).unwrap();
    let mut host = host(300, 3);
    let mut frames = info.frames(host.clock);
    assert!(drain(&mut frames, &mut host).is_empty());
    assert!(host.fetched.is_empty());
}

#[test]
fn checkpoint_comes_once_a_second() {
    let raw = descriptor(1, 1, 10, 30, 1);
    let info = OutputInfo::from(&raw).unwrap();
    // 400 ms a frame: the third, the sixth and the ninth request for a frame
    // come 1200 ms after the last checkpoint.
    let mut host = host(400, 3);
    let mut frames = info.frames(host.clock);
    let all = drain(&mut frames, &mut host);
    assert_eq!(all.len(), 10);
    assert_eq!(host.checkpoints, 3);
    assert_eq!(host.previews, 3);
    assert_eq!(host.rest_times, vec![(3, 10), (6, 10), (9, 10)]);
}

#[test]
fn no_checkpoint_before_a_second_has_passed() {
    let raw = descriptor(1, 1, 1, 30, 1);
    let info = OutputInfo::from(&raw).unwrap();
    let mut frames = info.frames(5000);
    assert!(matches!(frames.next(Event::Poll { now: 5999 }), Step::GetVideo { frame: 0 }));
}

#[test]
fn checkpoint_when_exactly_a_second_has_passed() {
    let raw = descriptor(1, 1, 1, 30, 1);
    let info = OutputInfo::from(&raw).unwrap();
    let mut frames = info.frames(5000);
    assert!(matches!(frames.next(Event::Poll { now: 6000 }), Step::IsAbort));
}

#[test]
fn no_checkpoint_when_the_clock_runs_backwards() {
    let raw = descriptor(1, 1, 1, 30, 1);
    let info = OutputInfo::from(&raw).unwrap();
    let mut frames = info.frames(5000);
    assert!(matches!(frames.next(Event::Poll { now: 0 }), Step::GetVideo { frame: 0 }));
}

#[test]
fn no_checkpoint_once_the_frames_are_out() {
    let raw = descriptor(1, 1, 0, 30, 1);
    let info = OutputInfo::from(&raw).unwrap();
    let mut frames = info.frames(0);
    assert!(matches!(frames.next(Event::Poll { now: 9000 }), Step::End));
}

#[test]
fn abort_ends_the_stream() {
    let raw = descriptor(1, 1, 10, 30, 1);
    let info = OutputInfo::from(&raw).unwrap();
    let mut host = host(400, 3);
    host.abort_at = Some(2);
    let mut frames = info.frames(host.clock);
    let all = drain(&mut frames, &mut host);
    // The second checkpoint comes before the seventh frame.
    assert_eq!(all.len(), 6);
    assert!(all.len() < 10);
    assert_eq!(host.previews, 1);
    assert_eq!(host.rest_times, vec![(3, 10)]);
    // Nothing comes after the end, however long the caller goes on asking.
    host.abort_at = None;
    for _ in 0..5 {
        host.clock += 5000;
        assert!(pull(&mut frames, &mut host).is_none());
    }
    assert_eq!(host.fetched, vec![0, 1, 2, 3, 4, 5]);
    assert_eq!(host.checkpoints, 2);
}

#[test]
fn abort_at_the_first_checkpoint_yields_nothing() {
    let raw = descriptor(1, 1, 4, 30, 1);
    let info = OutputInfo::from(&raw).unwrap();
    let mut frames = info.frames(0);
    assert!(matches!(frames.next(Event::Poll { now: 1000 }), Step::IsAbort));
    assert!(matches!(frames.next(Event::IsAbort(1)), Step::End));
    assert!(matches!(frames.next(Event::Poll { now: 1001 }), Step::End));
    assert!(matches!(frames.next(Event::Poll { now: 9001 }), Step::End));
}

#[test]
fn checkpoint_runs_in_order() {
    let raw = descriptor(1, 1, 4, 30, 1);
    let info = OutputInfo::from(&raw).unwrap();
    let mut frames = info.frames(0);
    assert!(matches!(frames.next(Event::Poll { now: 1500 }), Step::IsAbort));
    assert!(matches!(frames.next(Event::IsAbort(0)), Step::UpdatePreview));
    assert!(matches!(frames.next(Event::UpdatePreview(1)), Step::RestTimeDisp { now: 0, total: 4 }));
    assert!(matches!(frames.next(Event::RestTimeDisp(1)), Step::GetVideo { frame: 0 }));
    match frames.next(Event::GetVideo(vec![10, 20, 30])) {
        Step::Frame(img, time) => {
            assert_eq!(img.into_raw(), vec![30, 20, 10]);
            assert_eq!(time, Timestamp { numer: 1, denom: 30 });
        }
        _ => panic!("no frame"),
    }
    // The clock of the checkpoint counts, not that of the start.
    assert!(matches!(frames.next(Event::Poll { now: 2499 }), Step::GetVideo { frame: 1 }));
}

#[test]
fn failed_preview_does_not_end_the_stream() {
    let raw = descriptor(1, 1, 10, 30, 1);
    let info = OutputInfo::from(&raw).unwrap();
    let mut host = host(400, 3);
    host.preview_fails = true;
    let mut frames = info.frames(host.clock);
    let all = drain(&mut frames, &mut host);
    assert_eq!(all.len(), 10);
    assert_eq!(host.failures, vec![Error::PreviewUpdateFailed; 3]);
    assert!(host.rest_times.is_empty());
}

#[test]
fn failed_rest_time_does_not_end_the_stream() {
    let raw = descriptor(1, 1, 10, 30, 1);
    let info = OutputInfo::from(&raw).unwrap();
    let mut host = host(400, 3);
    host.rest_time_fails = true;
    let mut frames = info.frames(host.clock);
    let all = drain(&mut frames, &mut host);
    assert_eq!(all.len(), 10);
    assert_eq!(host.failures, vec![Error::RestTimeDisplayFailed; 3]);
    assert_eq!(host.previews, 3);
}

#[test]
fn short_frame_ends_the_stream() {
    let raw = descriptor(2, 2, 5, 30, 1);
    let info = OutputInfo::from(&raw).unwrap();
    let mut host = host(10, 11);
    let mut frames = info.frames(host.clock);
    assert!(drain(&mut frames, &mut host).is_empty());
    assert_eq!(host.failures, vec![Error::FrameTooShort]);
    host.frame_len = 12;
    assert!(pull(&mut frames, &mut host).is_none());
    assert_eq!(host.fetched, vec![0]);
}

#[test]
fn zero_rate_ends_the_stream() {
    let raw = descriptor(1, 1, 5, 0, 1);
    let info = OutputInfo::from(&raw).unwrap();
    let mut host = host(10, 3);
    let mut frames = info.frames(host.clock);
    assert!(drain(&mut frames, &mut host).is_empty());
    assert_eq!(host.failures, vec![Error::ZeroFrameRate]);
    assert!(pull(&mut frames, &mut host).is_none());
}

#[test]
fn answer_that_was_not_asked_for_is_refused() {
    let raw = descriptor(1, 1, 2, 30, 1);
    let info = OutputInfo::from(&raw).unwrap();
    let mut frames = Frames::new(&info, 0);
    assert!(matches!(frames.next(Event::IsAbort(1)), Step::Failed(Error::UnexpectedEvent)));
    assert!(matches!(frames.next(Event::GetVideo(vec![1, 2, 3])), Step::Failed(Error::UnexpectedEvent)));
    assert!(matches!(frames.next(Event::Poll { now: 0 }), Step::GetVideo { frame: 0 }));
    assert!(matches!(frames.next(Event::Poll { now: 0 }), Step::Failed(Error::UnexpectedEvent)));
    assert!(matches!(frames.next(Event::UpdatePreview(1)), Step::Failed(Error::UnexpectedEvent)));
    assert!(matches!(frames.next(Event::RestTimeDisp(1)), Step::Failed(Error::UnexpectedEvent)));
    // The stream still waits for the frame it asked for.
    assert!(matches!(frames.next(Event::GetVideo(vec![1, 2, 3])), Step::Frame(_, _)));
}

#[test]
fn taking_a_few_frames_leaves_the_rest() {
    let raw = descriptor(1, 1, 10, 30, 1);
    let info = OutputInfo::from(&raw).unwrap();
    let mut host = host(10, 3);
    let mut frames = info.frames(host.clock);
    for k in 1..=2 {
        let (_, _, time) = pull(&mut frames, &mut host).unwrap();
        assert_eq!(time.numer * 30, k * time.denom);
    }
    assert_eq!(host.fetched, vec![0, 1]);
    assert_eq!(host.checkpoints, 0);
}

#[test]
fn stream_tells_how_far_it_is() {
    let raw = descriptor(1, 1, 2, 30, 1);
    let info = OutputInfo::from(&raw).unwrap();
    let mut frames = info.frames(0);
    assert_eq!(frames.phase(), Phase::Ready);
    assert_eq!(frames.frame(), 0);
    assert!(matches!(frames.next(Event::Poll { now: 2000 }), Step::IsAbort));
    assert_eq!(frames.phase(), Phase::AskedAbort);
    assert!(matches!(frames.next(Event::IsAbort(0)), Step::UpdatePreview));
    assert_eq!(frames.phase(), Phase::AskedPreview);
    assert!(matches!(frames.next(Event::UpdatePreview(0)), Step::Failed(Error::PreviewUpdateFailed)));
    assert_eq!(frames.phase(), Phase::Ready);
    assert!(matches!(frames.next(Event::Poll { now: 2000 }), Step::GetVideo { frame: 0 }));
    assert_eq!(frames.phase(), Phase::AskedVideo);
    assert!(matches!(frames.next(Event::GetVideo(vec![0; 3])), Step::Frame(_, _)));
    assert_eq!(frames.frame(), 1);
    assert!(matches!(frames.next(Event::Poll { now: 3000 }), Step::IsAbort));
    assert!(matches!(frames.next(Event::IsAbort(0)), Step::UpdatePreview));
    assert!(matches!(frames.next(Event::UpdatePreview(1)), Step::RestTimeDisp { now: 1, total: 2 }));
    assert_eq!(frames.phase(), Phase::AskedRestTime);
    assert!(matches!(frames.next(Event::RestTimeDisp(1)), Step::GetVideo { frame: 1 }));
    assert!(matches!(frames.next(Event::GetVideo(vec![0; 2])), Step::Failed(Error::FrameTooShort)));
    assert_eq!(frames.phase(), Phase::Finished);
    assert_eq!(frames.frame(), 1);
}
