use room_sense::args::RoomWatchArgs;
use room_sense::watch::{
    readout_text, room_watch, watching_text, RoomState, Watch, WatchEvent, WatchStep,
};
use room_sense::window::RollingWindow;

fn watch(window: usize, seconds: u32) -> Watch<u32> {
    let mut args = RoomWatchArgs::with_rate(15.0f32);
    args.window = window;
    args.seconds = seconds;
    room_watch(&args)
}

fn round(w: &mut Watch<u32>, run: u64, sample: Option<u32>, since: u64) -> WatchStep {
    w.advance(WatchEvent::Clock { seconds: run });
    if w.step() == WatchStep::Stop {
        return WatchStep::Stop;
    }
    assert_eq!(w.step(), WatchStep::Receive);
    w.advance(WatchEvent::Packet { sample });
    assert_eq!(w.step(), WatchStep::ReadReportClock);
    w.advance(WatchEvent::Clock { seconds: since });
    w.step()
}

#[test]
fn window_holds_the_newest() {
    let mut w = RollingWindow::new(3);
    for x in 1..=5u8 {
        w.push(x);
    }
    assert_eq!(w.len(), 3);
    assert_eq!(w.to_series(), vec![3, 4, 5]);
    let mut none = RollingWindow::new(0);
    none.push(1u8);
    assert_eq!(none.len(), 0);
    assert!(none.to_series().is_empty());
}

#[test]
fn report_needs_a_second_and_enough_samples() {
    let mut w = watch(200, 0);
    for i in 0..31 {
        assert_eq!(round(&mut w, 100, Some(i), 5), WatchStep::ReadRunClock);
    }
    assert_eq!(round(&mut w, 100, None, 5), WatchStep::ReadRunClock);
    assert_eq!(round(&mut w, 100, Some(31), 0), WatchStep::ReadRunClock);
    assert_eq!(round(&mut w, 100, None, 1), WatchStep::Report);
    assert_eq!(w.series(), (0..32).collect::<Vec<u32>>());
    w.advance(WatchEvent::Reported);
    assert_eq!(w.step(), WatchStep::ReadRunClock);
    assert_eq!(w.series().len(), 32);
}

#[test]
fn reports_are_a_second_apart() {
    let mut w = watch(200, 0);
    for i in 0..32 {
        round(&mut w, 0, Some(i), 0);
    }
    // A frame every 300 ms; the report clock starts anew with each readout.
    let (mut last, mut times): (u64, Vec<u64>) = (0, vec![]);
    for step in 1..=20u64 {
        let now = step * 300;
        if round(&mut w, now / 1000, Some(0), (now - last) / 1000) == WatchStep::Report {
            times.push(now);
            last = now;
            w.advance(WatchEvent::Reported);
        }
    }
    assert_eq!(times, vec![1200, 2400, 3600, 4800, 6000]);
}

#[test]
fn watch_looks_back_on_the_newest() {
    let mut w = watch(40, 0);
    for i in 0..100 {
        round(&mut w, 0, Some(i), 0);
    }
    assert_eq!(w.series(), (60..100).collect::<Vec<u32>>());
}

#[test]
fn small_window_never_reports() {
    let mut w = watch(31, 0);
    for i in 0..100 {
        assert_eq!(round(&mut w, 0, Some(i), 60), WatchStep::ReadRunClock);
    }
}

#[test]
fn watch_stops_when_its_time_is_over() {
    let mut w = watch(40, 3);
    assert_eq!(round(&mut w, 2, None, 0), WatchStep::ReadRunClock);
    assert_eq!(round(&mut w, 3, None, 0), WatchStep::Stop);
    w.advance(WatchEvent::Clock { seconds: 0 });
    w.advance(WatchEvent::Packet { sample: Some(1) });
    w.advance(WatchEvent::Reported);
    assert_eq!(w.step(), WatchStep::Stop);
    assert!(w.series().is_empty());
}

#[test]
fn endless_watch_never_stops() {
    let mut w = watch(40, 0);
    assert_eq!(round(&mut w, u64::MAX, None, 0), WatchStep::ReadRunClock);
}

#[test]
fn watching_line_names_address_and_window() {
    let args = RoomWatchArgs::with_rate(15.0f32);
    assert_eq!(
        watching_text(&args),
        "[room-watch] inferring on udp://0.0.0.0:5005 (window=200 frames)"
    );
}

fn text(s: &str) -> Option<String> {
    Some(s.to_string())
}

#[test]
fn full_readout() {
    let state = RoomState {
        presence: Some(text("present")),
        posture: Some(text("sitting")),
        breathing: text("14.5"),
        heartbeat: text("62"),
        restlessness: text("0.25"),
        vetoed: true,
        stale: true,
    };
    let line = readout_text(&state);
    assert_eq!(
        line,
        "presence=present posture=sitting  breathing=14.5bpm  heart=62bpm   restless=0.25 VETO STALE"
    );
    assert_eq!(line.find(" restless="), Some(66));
    assert_eq!(
        line,
        format!(
            "presence={:<7} posture={:<8} breathing={:<8} heart={:<7} restless={}{}",
            "present", "sitting", "14.5bpm", "62bpm", "0.25", " VETO STALE"
        )
    );
}

#[test]
fn empty_readout_shows_dashes() {
    let state = RoomState {
        presence: None,
        posture: None,
        breathing: None,
        heartbeat: None,
        restlessness: None,
        vetoed: false,
        stale: false,
    };
    assert_eq!(
        readout_text(&state),
        "presence=-       posture=-        breathing=-        heart=-       restless=-"
    );
}

#[test]
fn missing_labels_show_differently() {
    let state = RoomState {
        presence: Some(None),
        posture: Some(None),
        breathing: None,
        heartbeat: None,
        restlessness: None,
        vetoed: false,
        stale: true,
    };
    assert_eq!(
        readout_text(&state),
        "presence=        posture=-        breathing=-        heart=-       restless=- STALE"
    );
}

#[test]
fn wide_fields_are_not_cut() {
    let state = RoomState {
        presence: Some(text("übervoll!")),
        posture: None,
        breathing: None,
        heartbeat: None,
        restlessness: None,
        vetoed: true,
        stale: false,
    };
    assert_eq!(
        readout_text(&state),
        "presence=übervoll! posture=-        breathing=-        heart=-       restless=- VETO"
    );
}
