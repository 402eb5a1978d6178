use room_sense::args::{
    socket_addr_text, EnrollArgs, RoomStatusArgs, RoomWatchArgs, TrainRoomArgs,
};
use room_sense::clock::{now_unix, unix_seconds};
use room_sense::enroll::EnrollmentData;
use room_sense::room::{
    inference_baseline, load_bank, load_baseline, room_status, train_room, training_input,
    training_report, BankSummary, Loaded, RoomError,
};
use room_sense::text::{decimal_text, joined_text, padded_text, signed_text};

fn message<T>(r: Result<T, RoomError>) -> String {
    match r {
        Ok(_) => panic!("failure expected"),
        Err(e) => e.message(),
    }
}

fn bank() -> BankSummary {
    BankSummary {
        room_id: "attic".to_string(),
        baseline_id: "b-1".to_string(),
        trained_at_unix_s: -7,
        anchor_count: 8,
        trained_kinds: vec!["Presence".to_string(), "Posture".to_string()],
    }
}

fn data(anchors: Vec<u8>) -> EnrollmentData<f32, u8, ()> {
    EnrollmentData {
        room_id: "attic".to_string(),
        baseline_id: "b-1".to_string(),
        fs_hz: 15.0,
        anchors,
        session: (),
    }
}

#[test]
fn defaults_and_their_chain() {
    let e = EnrollArgs::with_rate(15.0f32);
    assert_eq!((e.udp_port, e.attempts), (5005, 2));
    assert_eq!((e.bind.as_str(), e.baseline.as_str()), ("0.0.0.0", "./baseline.bin"));
    assert_eq!((e.tier.as_str(), e.room_id.as_str()), ("ht20", "default"));
    assert_eq!(e.output, "./enrollment.json");
    let t = TrainRoomArgs::default();
    assert_eq!(t.enrollment, e.output);
    assert_eq!(t.output, "./room-bank.json");
    assert_eq!(RoomStatusArgs::default().bank, t.output);
    let w = RoomWatchArgs::with_rate(15.0f32);
    assert_eq!(w.bank, t.output);
    assert_eq!((w.udp_port, w.window, w.seconds), (5005, 200, 0));
    assert_eq!((w.bind.as_str(), w.tier.as_str()), ("0.0.0.0", "ht20"));
}

#[test]
fn clock_shows_a_time_after_the_epoch() {
    let first = now_unix();
    let second = now_unix();
    assert!(first > 1_600_000_000);
    assert!(second >= first);
    assert!(second - first < 60);
}

#[test]
fn clock_agrees_with_whole_seconds_of_the_system() {
    let since = || {
        let t = std::time::SystemTime::now();
        t.duration_since(std::time::UNIX_EPOCH).unwrap().as_nanos()
    };
    let before = since();
    let now = now_unix() as u128;
    let after = since();
    assert!(before / 1_000_000_000 <= now && now <= after / 1_000_000_000);
}

#[test]
fn unix_seconds_of_readings() {
    assert_eq!(unix_seconds(Some(1_700_000_000)), 1_700_000_000);
    assert_eq!(unix_seconds(None), 0);
    assert_eq!(unix_seconds(Some(i64::MAX as u64)), i64::MAX);
    assert_eq!(unix_seconds(Some(i64::MAX as u64 + 1)), i64::MIN);
    assert_eq!(unix_seconds(Some(u64::MAX)), -1);
}

#[test]
fn numbers_in_decimal() {
    assert_eq!(decimal_text(0), "0");
    assert_eq!(decimal_text(1_234_567_890), "1234567890");
    assert_eq!(decimal_text(u64::MAX), u64::MAX.to_string());
    assert_eq!(signed_text(42), "42");
    assert_eq!(signed_text(i64::MIN), i64::MIN.to_string());
    for n in [9, 10, 11, 99, 100, 101] {
        assert_eq!(decimal_text(n).parse::<u64>(), Ok(n));
    }
}

#[test]
fn padding_and_joining() {
    assert_eq!(padded_text("ab", 4), "ab  ");
    assert_eq!(padded_text("abcde", 4), "abcde");
    assert_eq!(padded_text("é", 2), "é ");
    assert_eq!(joined_text(&vec![], ", "), "");
    assert_eq!(joined_text(&vec!["a".to_string()], ", "), "a");
    assert_eq!(
        joined_text(&vec!["a".to_string(), "b".to_string(), "c".to_string()], ", "),
        "a, b, c"
    );
}

#[test]
fn addresses() {
    assert_eq!(socket_addr_text("127.0.0.1", 80), "127.0.0.1:80");
}

#[test]
fn baseline_loading() {
    assert_eq!(load_baseline("b.bin", Loaded::Value(5)).unwrap(), 5);
    assert_eq!(
        message(load_baseline::<u8>("b.bin", Loaded::Unreadable("gone".to_string()))),
        "cannot read baseline b.bin: gone — run `calibrate` first"
    );
    assert_eq!(
        message(load_baseline::<u8>("b.bin", Loaded::Invalid("short".to_string()))),
        "invalid baseline b.bin: short"
    );
}

#[test]
fn bank_loading() {
    assert_eq!(load_bank("r.json", Loaded::Value(5)).unwrap(), 5);
    assert_eq!(
        message(load_bank::<u8>("r.json", Loaded::Unreadable("gone".to_string()))),
        "cannot read r.json: gone"
    );
    assert_eq!(
        message(load_bank::<u8>("r.json", Loaded::Invalid("odd".to_string()))),
        "odd"
    );
}

#[test]
fn training_needs_accepted_anchors() {
    let args = TrainRoomArgs::default();
    assert_eq!(train_room(&args, Loaded::Value(data(vec![1, 2]))).unwrap().anchors, vec![1, 2]);
    assert_eq!(
        message(train_room(&args, Loaded::Value(data(vec![])))),
        "no accepted anchors in ./enrollment.json — re-run enroll"
    );
    let unread: Loaded<EnrollmentData<f32, u8, ()>> = Loaded::Unreadable("gone".to_string());
    assert_eq!(
        message(train_room(&args, unread)),
        "cannot read ./enrollment.json: gone — run `enroll` first"
    );
    let odd: Loaded<EnrollmentData<f32, u8, ()>> = Loaded::Invalid("odd".to_string());
    assert_eq!(message(train_room(&args, odd)), "invalid enrollment: odd");
}

#[test]
fn other_failures() {
    let cause = || "why".to_string();
    assert_eq!(
        RoomError::CannotBind { addr: "a:1".to_string(), cause: cause() }.message(),
        "cannot bind a:1: why"
    );
    assert_eq!(RoomError::TrainingFailed { cause: cause() }.message(), "training failed: why");
    assert_eq!(RoomError::NotSerialized { cause: cause() }.message(), "serialize: why");
    assert_eq!(
        RoomError::CannotWrite { path: "p".to_string(), cause: cause() }.message(),
        "cannot write p: why"
    );
}

#[test]
fn training_goes_by_room_baseline_and_anchors() {
    let input = training_input(data(vec![4, 5]));
    assert_eq!(input.room_id, "attic");
    assert_eq!(input.baseline_id, "b-1");
    assert_eq!(input.anchors, vec![4, 5]);
}

#[test]
fn inference_goes_by_the_baseline_of_the_bank() {
    assert_eq!(inference_baseline(&bank()), "b-1");
}

#[test]
fn training_is_reported() {
    assert_eq!(
        training_report(&TrainRoomArgs::default(), &bank()),
        vec![
            "[train-room] room='attic' trained 2 specialists from 8 anchors → ./room-bank.json",
            "[train-room]   • Presence",
            "[train-room]   • Posture",
        ]
    );
}

#[test]
fn status_is_reported() {
    assert_eq!(
        room_status(&bank()),
        vec![
            "room:        attic",
            "baseline:    b-1",
            "trained_at:  -7",
            "anchors:     8",
            "specialists: [Presence, Posture]",
        ]
    );
    let mut none = bank();
    none.trained_kinds = vec![];
    assert_eq!(room_status(&none)[4], "specialists: []");
}
