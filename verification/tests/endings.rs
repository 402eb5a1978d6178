use room_sense::args::{EnrollArgs, RoomWatchArgs, TrainRoomArgs};
use room_sense::ending::{
    bound, enroll_result, open_watch, saved_bank, saved_enrollment, training_result, Saved,
};
use room_sense::room::{Loaded, RoomError};

fn message<T>(r: Result<T, RoomError>) -> String {
    match r {
        Ok(_) => panic!("failure expected"),
        Err(e) => e.message(),
    }
}

fn why() -> String {
    "why".to_string()
}

#[test]
fn binding() {
    assert_eq!(bound("a:1", Ok(7)).unwrap(), 7);
    assert_eq!(message(bound::<u8>("a:1", Err(why()))), "cannot bind a:1: why");
}

#[test]
fn saving() {
    assert!(saved_enrollment("p", Saved::Done).is_ok());
    assert_eq!(message(saved_enrollment("p", Saved::Unencoded(why()))), "serialize: why");
    assert_eq!(message(saved_enrollment("p", Saved::Unwritten(why()))), "cannot write p: why");
    assert!(saved_bank("p", Saved::Done).is_ok());
    assert_eq!(message(saved_bank("p", Saved::Unencoded(why()))), "why");
    assert_eq!(message(saved_bank("p", Saved::Unwritten(why()))), "cannot write p: why");
}

#[test]
fn ends_of_enroll() {
    let args = EnrollArgs::with_rate(15.0f32);
    assert!(enroll_result(&args, Loaded::Value(Ok(Saved::Done))).is_ok());
    let failures = vec![
        (
            Loaded::Unreadable(why()),
            "cannot read baseline ./baseline.bin: why — run `calibrate` first",
        ),
        (Loaded::Invalid(why()), "invalid baseline ./baseline.bin: why"),
        (Loaded::Value(Err(why())), "cannot bind 0.0.0.0:5005: why"),
        (Loaded::Value(Ok(Saved::Unencoded(why()))), "serialize: why"),
        (
            Loaded::Value(Ok(Saved::Unwritten(why()))),
            "cannot write ./enrollment.json: why",
        ),
    ];
    for (how, expected) in failures {
        assert_eq!(message(enroll_result(&args, how)), expected);
    }
}

#[test]
fn ends_of_training() {
    let args = TrainRoomArgs::default();
    assert!(training_result(&args, Ok(Saved::Done)).is_ok());
    assert_eq!(message(training_result(&args, Err(why()))), "training failed: why");
    assert_eq!(message(training_result(&args, Ok(Saved::Unencoded(why())))), "why");
    assert_eq!(
        message(training_result(&args, Ok(Saved::Unwritten(why())))),
        "cannot write ./room-bank.json: why"
    );
}

#[test]
fn openings_of_watch() {
    let args = RoomWatchArgs::with_rate(15.0f32);
    let opened = open_watch(&args, Loaded::Value(("bank", Ok("socket"))));
    assert_eq!(opened.unwrap(), ("bank", "socket"));
    let failures: Vec<(Loaded<(u8, Result<u8, String>)>, &str)> = vec![
        (Loaded::Unreadable(why()), "cannot read ./room-bank.json: why"),
        (Loaded::Invalid(why()), "why"),
        (Loaded::Value((1, Err(why()))), "cannot bind 0.0.0.0:5005: why"),
    ];
    for (how, expected) in failures {
        assert_eq!(message(open_watch(&args, how)), expected);
    }
}
