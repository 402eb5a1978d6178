use room_sense::args::EnrollArgs;
use room_sense::enroll::{
    closing_text, enroll, enrollment_data, opening_lines, Captured, Enrollment, Quality,
    SessionRecord,
};

fn labels() -> Vec<String> {
    vec!["empty".to_string(), "stand".to_string(), "sit".to_string()]
}

fn quality(accepted: bool) -> Quality {
    Quality {
        accepted,
        presence_z: "3.14".to_string(),
        motion_percent: "12".to_string(),
        frames: 450,
    }
}

fn good(feature: u32) -> Captured<u32> {
    Captured {
        feature: Some(feature),
        quality: quality(true),
        reason: None,
    }
}

fn bad(reason: Option<&str>) -> Captured<u32> {
    Captured {
        feature: None,
        quality: quality(false),
        reason: reason.map(|r| r.to_string()),
    }
}

struct Run {
    requests: Vec<(usize, u32)>,
    records: Vec<String>,
    lines: Vec<String>,
    features: Vec<u32>,
}

fn drive(attempts: u32, outcome: fn(usize, u32) -> Captured<u32>) -> Run {
    let (mut e, mut lines): (Enrollment<u32>, Vec<String>) = enroll(labels(), attempts);
    let mut requests = vec![];
    let mut records = vec![];
    while let Some((anchor, attempt)) = e.request() {
        requests.push((anchor, attempt));
        let p = e.settle(outcome(anchor, attempt));
        records.push(match p.record {
            SessionRecord::Accepted { anchor } => format!("+{anchor}"),
            SessionRecord::Rejected { anchor, reason } => format!("-{anchor} {reason}"),
            SessionRecord::Completed => "done".to_string(),
        });
        lines.extend(p.lines);
    }
    let (features, last) = e.close(false);
    assert!(last.is_none());
    Run {
        requests,
        records,
        lines,
        features,
    }
}

#[test]
fn every_anchor_accepted_at_once() {
    let run = drive(2, |anchor, _| good(anchor as u32 * 10));
    assert_eq!(run.requests, vec![(0, 1), (1, 1), (2, 1)]);
    assert_eq!(run.features, vec![0, 10, 20]);
    assert_eq!(run.records, vec!["+0", "+1", "+2"]);
    assert_eq!(
        run.lines[0],
        "[enroll]   ✓ accepted (presence_z=3.14 motion=12% frames=450)"
    );
    assert_eq!(run.lines.len(), 3);
}

#[test]
fn first_accepted_attempt_ends_an_anchor() {
    let run = drive(3, |anchor, attempt| {
        if anchor == 1 && attempt < 3 {
            bad(Some("moved"))
        } else {
            good(anchor as u32 * 10 + attempt)
        }
    });
    assert_eq!(run.requests, vec![(0, 1), (1, 1), (1, 2), (1, 3), (2, 1)]);
    assert_eq!(run.features, vec![1, 13, 21]);
    assert_eq!(run.records, vec!["+0", "-1 moved", "-1 moved", "+1", "+2"]);
    assert_eq!(run.lines[1], "[enroll]   ✗ rejected: moved");
    assert_eq!(run.lines[2], "[enroll]   retrying (2/3)…");
    assert_eq!(run.lines[4], "[enroll]   retrying (3/3)…");
}

#[test]
fn used_up_attempts_move_on() {
    let run = drive(2, |anchor, _| if anchor == 1 { bad(None) } else { good(anchor as u32) });
    assert_eq!(run.requests, vec![(0, 1), (1, 1), (1, 2), (2, 1)]);
    assert_eq!(run.features, vec![0, 2]);
    assert_eq!(run.records, vec!["+0", "-1 ", "-1 ", "+2"]);
    assert_eq!(
        run.lines[1..5].to_vec(),
        vec![
            "[enroll]   ✗ rejected: ",
            "[enroll]   retrying (2/2)…",
            "[enroll]   ✗ rejected: ",
            "[enroll]   moving on without 'stand'",
        ]
    );
}

#[test]
fn captures_are_at_most_anchors_times_attempts() {
    let run = drive(4, |_, _| bad(Some("dark")));
    assert_eq!(run.requests.len(), 12);
    assert_eq!(run.records.len(), 12);
    assert!(run.features.is_empty());
}

#[test]
fn no_attempts_pass_over_every_anchor() {
    let run = drive(0, |_, _| good(1));
    assert!(run.requests.is_empty());
    assert!(run.records.is_empty());
    assert!(run.features.is_empty());
    assert_eq!(
        run.lines,
        vec![
            "[enroll]   moving on without 'empty'",
            "[enroll]   moving on without 'stand'",
            "[enroll]   moving on without 'sit'",
        ]
    );
}

#[test]
fn accepted_capture_without_a_feature_adds_none() {
    let run = drive(1, |anchor, _| Captured {
        feature: if anchor == 0 { None } else { Some(7) },
        quality: quality(true),
        reason: None,
    });
    assert_eq!(run.features, vec![7, 7]);
    assert_eq!(run.records, vec!["+0", "+1", "+2"]);
}

#[test]
fn as_many_features_as_acceptances() {
    let run = drive(2, |anchor, attempt| {
        if anchor as u32 + attempt == 2 {
            good(5)
        } else {
            bad(None)
        }
    });
    let accepted = run.records.iter().filter(|r| r.starts_with('+')).count();
    assert_eq!(run.features.len(), accepted);
    assert_eq!(accepted, 2);
}

#[test]
fn complete_session_gets_a_last_entry() {
    let (e, _): (Enrollment<u32>, Vec<String>) = enroll(vec![], 2);
    assert!(e.request().is_none());
    let (features, last) = e.close(true);
    assert!(features.is_empty());
    assert!(matches!(last, Some(SessionRecord::Completed)));
}

#[test]
fn data_is_put_together_from_the_arguments() {
    let mut args = EnrollArgs::with_rate(15.0f32);
    args.room_id = "attic".to_string();
    let data = enrollment_data(&args, "id".to_string(), vec![1u8, 2], "log");
    assert_eq!(data.room_id, "attic");
    assert_eq!(data.baseline_id, "id");
    assert_eq!(data.fs_hz, 15.0);
    assert_eq!(data.anchors, vec![1, 2]);
    assert_eq!(data.session, "log");
}

#[test]
fn opening_and_closing_lines() {
    let args = EnrollArgs::with_rate(15.0f32);
    assert_eq!(
        opening_lines(&args, "0123456789abcdef"),
        vec![
            "[enroll] room='default' baseline=01234567 on udp://0.0.0.0:5005",
            "[enroll] follow each prompt; bad captures are re-prompted.",
        ]
    );
    assert_eq!(opening_lines(&args, "ééééé").len(), 2);
    assert_eq!(
        opening_lines(&args, "ééééé")[0],
        "[enroll] room='default' baseline=éééé on udp://0.0.0.0:5005"
    );
    assert_eq!(
        closing_text(&args, 7, 8),
        "\n[enroll] done: 7/8 anchors accepted → ./enrollment.json (next: `train-room`)"
    );
}
