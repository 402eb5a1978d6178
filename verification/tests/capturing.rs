use room_sense::capture::{
    capture_anchor, capturing_text, countdown_text, prompt_text, Capture, CaptureEvent, CaptureStep,
};

fn started(duration_s: u64) -> Capture<u8> {
    let mut c = capture_anchor(duration_s);
    for _ in 0..3 {
        c.advance(CaptureEvent::Slept);
    }
    c
}

#[test]
fn countdown_runs_from_three() {
    let mut c: Capture<u8> = capture_anchor(20);
    let mut seen = vec![];
    while let CaptureStep::Countdown { left } = c.step() {
        seen.push(countdown_text(left));
        c.advance(CaptureEvent::Slept);
    }
    assert_eq!(
        seen,
        vec![
            "[enroll]   starting in 3…",
            "[enroll]   starting in 2…",
            "[enroll]   starting in 1…"
        ]
    );
    assert_eq!(c.step(), CaptureStep::StartClock);
}

#[test]
fn samples_are_kept_in_order_until_the_time_is_over() {
    let mut c = started(2);
    for (seconds, sample) in [(0, Some(5)), (0, None), (1, Some(7)), (1, Some(5))] {
        c.advance(CaptureEvent::Clock { seconds });
        assert_eq!(c.step(), CaptureStep::Receive);
        c.advance(CaptureEvent::Packet { sample });
        assert_eq!(c.step(), CaptureStep::ReadClock);
    }
    c.advance(CaptureEvent::Clock { seconds: 2 });
    assert_eq!(c.step(), CaptureStep::Finalize);
    c.advance(CaptureEvent::Packet { sample: Some(9) });
    assert_eq!(c.step(), CaptureStep::Finalize);
    assert_eq!(c.finish(true), Some(vec![5, 7, 5]));
}

#[test]
fn capture_without_time_receives_nothing() {
    let mut c = started(0);
    c.advance(CaptureEvent::Clock { seconds: 0 });
    assert_eq!(c.step(), CaptureStep::Finalize);
    assert_eq!(c.finish(true), Some(vec![]));
}

#[test]
fn rejected_capture_hands_over_nothing() {
    let mut c = started(1);
    c.advance(CaptureEvent::Clock { seconds: 0 });
    c.advance(CaptureEvent::Packet { sample: Some(1) });
    assert_eq!(c.finish(false), None);
}

#[test]
fn unasked_events_change_nothing() {
    let mut c: Capture<u8> = capture_anchor(1);
    c.advance(CaptureEvent::Packet { sample: Some(1) });
    c.advance(CaptureEvent::Clock { seconds: 9 });
    assert_eq!(c.step(), CaptureStep::Countdown { left: 3 });
    assert_eq!(c.finish(true), Some(vec![]));
}

#[test]
fn capture_lines() {
    assert_eq!(prompt_text("sit", "Sit down."), "\n[enroll] sit — Sit down.");
    assert_eq!(capturing_text(20), "[enroll]   capturing 20 s…");
}
