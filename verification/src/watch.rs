//! The live readout of a room.
//!
//! Clocks, packets and inference are seen to elsewhere. A [`Watch`] says which of these comes next
//! and is told what came of it.
use vstd::prelude::*;
use vstd::string::*;

use crate::args::{socket_addr_text, RoomWatchArgs};
use crate::text::{decimal_text, padded_text};
use crate::window::RollingWindow;

verus! {

/// Samples that an inference needs at least.
pub const MIN_SAMPLES: usize = 32;

/// Whole seconds between two reports at least.
pub const REPORT_SECONDS: u64 = 1;

/// What to do next.
#[derive(Debug, Clone, Copy, PartialEq, Eq, Structural)]
pub enum WatchStep {
    /// Read how long the watch has run.
    ReadRunClock,
    /// Wait a moment for a packet.
    Receive,
    /// Read how long ago the last report was.
    ReadReportClock,
    /// Infer from the window, print the readout, and start the report clock anew.
    Report,
    /// The time is over.
    Stop,
}

/// What happened.
#[derive(Debug)]
pub enum WatchEvent<S> {
    /// A clock that was asked for shows so many whole seconds.
    Clock { seconds: u64 },
    /// The wait for a packet is over; it brought a frame with this sample, or none.
    Packet { sample: Option<S> },
    /// The readout is printed.
    Reported,
}

/// A watch under way.
pub struct Watch<S> {
    step: WatchStep,
    seconds: u32,
    window: RollingWindow<S>,
}

/// A watch, by what it holds.
pub struct WatchView<S> {
    pub step: WatchStep,
    /// Seconds to run; 0 means without end.
    pub seconds: u32,
    /// The samples in the window, oldest first.
    pub window: Seq<S>,
    /// How many samples the window keeps.
    pub limit: nat,
}

impl<S> View for Watch<S> {
    type V = WatchView<S>;

    closed spec fn view(&self) -> WatchView<S> {
        WatchView {
            step: self.step,
            seconds: self.seconds,
            window: self.window@,
            limit: self.window.limit(),
        }
    }
}

impl<S> WatchView<S> {
    /// The window keeps its limit, and nothing is reported on too few samples.
    pub open spec fn wf(self) -> bool {
        &&& self.window.len() <= self.limit
        &&& self.step == WatchStep::Report ==> self.window.len() >= MIN_SAMPLES
    }

    /// The time of the watch is over once it has run for so many seconds.
    pub open spec fn is_over(self, seconds: u64) -> bool {
        self.seconds > 0 && seconds >= self.seconds
    }

    /// A report is due so many seconds after the last.
    pub open spec fn is_due(self, seconds: u64) -> bool {
        seconds >= REPORT_SECONDS && self.window.len() >= MIN_SAMPLES
    }

    /// The watch after an event. An event that answers to no request changes nothing.
    pub open spec fn after(self, event: WatchEvent<S>) -> WatchView<S> {
        match (self.step, event) {
            (WatchStep::ReadRunClock, WatchEvent::Clock { seconds }) => WatchView {
                step: if self.is_over(seconds) {
                    WatchStep::Stop
                } else {
                    WatchStep::Receive
                },
                ..self
            },
            (WatchStep::Receive, WatchEvent::Packet { sample }) => WatchView {
                step: WatchStep::ReadReportClock,
                window: match sample {
                    Some(s) => crate::window::last_n(self.window.push(s), self.limit),
                    None => self.window,
                },
                ..self
            },
            (WatchStep::ReadReportClock, WatchEvent::Clock { seconds }) => WatchView {
                step: if self.is_due(seconds) {
                    WatchStep::Report
                } else {
                    WatchStep::ReadRunClock
                },
                ..self
            },
            (WatchStep::Report, WatchEvent::Reported) => WatchView {
                step: WatchStep::ReadRunClock,
                ..self
            },
            _ => self,
        }
    }

    /// The watch after several events.
    pub open spec fn after_all(self, events: Seq<WatchEvent<S>>) -> WatchView<S>
        decreases events.len(),
    {
        if events.len() == 0 {
            self
        } else {
            self.after_all(events.drop_last()).after(events.last())
        }
    }
}

/// Begins a watch.
pub fn room_watch<R, S>(args: &RoomWatchArgs<R>) -> (r: Watch<S>)
    ensures
        r@.wf(),
        r@ == (WatchView {
            step: WatchStep::ReadRunClock,
            seconds: args.seconds,
            window: Seq::<S>::empty(),
            limit: args.window as nat,
        }),
{
    Watch {
        step: WatchStep::ReadRunClock,
        seconds: args.seconds,
        window: RollingWindow::new(args.window),
    }
}

impl<S> Watch<S> {
    /// What to do next.
    pub fn step(&self) -> (r: WatchStep)
        ensures
            r == self@.step,
    {
        self.step
    }

    /// Takes in what happened.
    pub fn advance(&mut self, event: WatchEvent<S>)
        requires
            old(self)@.wf(),
        ensures
            final(self)@.wf(),
            final(self)@ == old(self)@.after(event),
    {
        match (self.step, event) {
            (WatchStep::ReadRunClock, WatchEvent::Clock { seconds }) => {
                if self.seconds > 0 && seconds >= self.seconds as u64 {
                    self.step = WatchStep::Stop;
                } else {
                    self.step = WatchStep::Receive;
                }
            },
            (WatchStep::Receive, WatchEvent::Packet { sample }) => {
                if let Some(s) = sample {
                    self.window.push(s);
                }
                self.step = WatchStep::ReadReportClock;
            },
            (WatchStep::ReadReportClock, WatchEvent::Clock { seconds }) => {
                if seconds >= REPORT_SECONDS && self.window.len() >= MIN_SAMPLES {
                    self.step = WatchStep::Report;
                } else {
                    self.step = WatchStep::ReadRunClock;
                }
            },
            (WatchStep::Report, WatchEvent::Reported) => {
                self.step = WatchStep::ReadRunClock;
            },
            _ => {},
        }
    }
}

impl<S: Copy> Watch<S> {
    /// The samples to infer from, oldest first.
    pub fn series(&self) -> (r: Vec<S>)
        ensures
            r@ == self@.window,
    {
        self.window.to_series()
    }
}

/// The line with which a watch begins.
pub open spec fn watching_line(bind: Seq<char>, port: u16, window: usize) -> Seq<char> {
    "[room-watch] inferring on udp://"@ + crate::args::socket_addr(bind, port) + " (window="@
        + crate::text::decimal(window as nat) + " frames)"@
}

/// Writes the line with which a watch begins.
pub fn watching_text<R>(args: &RoomWatchArgs<R>) -> (r: String)
    ensures
        r@ == watching_line(args.bind@, args.udp_port, args.window),
{
    let mut s = "[room-watch] inferring on udp://".to_owned();
    let addr = socket_addr_text(args.bind.as_str(), args.udp_port);
    s.append(addr.as_str());
    s.append(" (window=");
    let n = decimal_text(args.window as u64);
    s.append(n.as_str());
    s.append(" frames)");
    s
}

/// The state of a room, as inferred. A specialist that is not there or abstained is `None`; the
/// measured values are already written out.
#[derive(Debug)]
pub struct RoomState {
    /// The reading of the presence specialist, with its label.
    pub presence: Option<Option<String>>,
    /// The reading of the posture specialist, with its label.
    pub posture: Option<Option<String>>,
    /// Breaths per minute.
    pub breathing: Option<String>,
    /// Heart beats per minute.
    pub heartbeat: Option<String>,
    pub restlessness: Option<String>,
    /// The readings were vetoed.
    pub vetoed: bool,
    /// The bank no longer fits the room.
    pub stale: bool,
}

/// The presence field: a reading without a label leaves it empty, no reading shows as a dash.
pub open spec fn presence_field(p: Option<Option<String>>) -> Seq<char> {
    match p {
        Some(Some(label)) => label@,
        Some(None) => Seq::empty(),
        None => "-"@,
    }
}

/// The posture field: without a label or without a reading it shows a dash.
pub open spec fn posture_field(p: Option<Option<String>>) -> Seq<char> {
    match p {
        Some(Some(label)) => label@,
        _ => "-"@,
    }
}

/// A measured value with its unit; no reading shows as a dash.
pub open spec fn value_field(value: Option<String>, unit: Seq<char>) -> Seq<char> {
    match value {
        Some(v) => v@ + unit,
        None => "-"@,
    }
}

/// The flags at the end of a readout.
pub open spec fn flags_field(vetoed: bool, stale: bool) -> Seq<char> {
    (if vetoed {
        " VETO"@
    } else {
        Seq::empty()
    }) + (if stale {
        " STALE"@
    } else {
        Seq::empty()
    })
}

/// The line that shows the state of a room.
pub open spec fn readout_line(state: RoomState) -> Seq<char> {
    "presence="@ + crate::text::padded(presence_field(state.presence), 7) + " posture="@
        + crate::text::padded(posture_field(state.posture), 8) + " breathing="@
        + crate::text::padded(value_field(state.breathing, "bpm"@), 8) + " heart="@
        + crate::text::padded(value_field(state.heartbeat, "bpm"@), 7) + " restless="@
        + value_field(state.restlessness, Seq::empty()) + flags_field(state.vetoed, state.stale)
}

fn value_text(value: &Option<String>, unit: &str) -> (r: String)
    ensures
        r@ == value_field(*value, unit@),
{
    match value {
        Some(v) => {
            let mut s = v.clone();
            s.append(unit);
            s
        },
        None => "-".to_owned(),
    }
}

/// Writes the state of a room on one line.
pub fn readout_text(state: &RoomState) -> (r: String)
    ensures
        r@ == readout_line(*state),
{
    let presence = match &state.presence {
        Some(Some(label)) => label.clone(),
        Some(None) => String::new(),
        None => "-".to_owned(),
    };
    let posture = match &state.posture {
        Some(Some(label)) => label.clone(),
        _ => "-".to_owned(),
    };
    let breathing = value_text(&state.breathing, "bpm");
    let heart = value_text(&state.heartbeat, "bpm");
    let restless = value_text(&state.restlessness, "");
    proof {
        reveal_strlit("");
        assert(""@ =~= Seq::<char>::empty());
    }
    let mut flags = String::new();
    if state.vetoed {
        flags.append(" VETO");
        assert(flags@ =~= " VETO"@);
    }
    let ghost veto = flags@;
    if state.stale {
        flags.append(" STALE");
    } else {
        assert(flags@ =~= veto + Seq::<char>::empty());
    }
    let mut s = "presence=".to_owned();
    let presence = padded_text(presence.as_str(), 7);
    s.append(presence.as_str());
    s.append(" posture=");
    let posture = padded_text(posture.as_str(), 8);
    s.append(posture.as_str());
    s.append(" breathing=");
    let breathing = padded_text(breathing.as_str(), 8);
    s.append(breathing.as_str());
    s.append(" heart=");
    let heart = padded_text(heart.as_str(), 7);
    s.append(heart.as_str());
    s.append(" restless=");
    s.append(restless.as_str());
    s.append(flags.as_str());
    s
}

/// A watch stays well-formed through whatever happens, and its settings stay what they were.
pub proof fn law_watch_stays_well_formed<S>(w: WatchView<S>, events: Seq<WatchEvent<S>>)
    requires
        w.wf(),
    ensures
        w.after_all(events).wf(),
        w.after_all(events).seconds == w.seconds,
        w.after_all(events).limit == w.limit,
    decreases events.len(),
{
    if events.len() > 0 {
        law_watch_stays_well_formed(w, events.drop_last());
    }
}

/// A watch without a time limit never stops by itself.
pub proof fn law_endless_watch_never_stops<S>(w: WatchView<S>, events: Seq<WatchEvent<S>>)
    requires
        w.seconds == 0,
        w.step != WatchStep::Stop,
    ensures
        w.after_all(events).step != WatchStep::Stop,
        w.after_all(events).seconds == 0,
    decreases events.len(),
{
    if events.len() > 0 {
        law_endless_watch_never_stops(w, events.drop_last());
    }
}

/// Where the window keeps fewer samples than an inference needs, nothing is ever reported.
pub proof fn law_small_window_never_reports<S>(w: WatchView<S>, events: Seq<WatchEvent<S>>)
    requires
        w.wf(),
        w.limit < MIN_SAMPLES,
    ensures
        w.after_all(events).step != WatchStep::Report,
{
    law_watch_stays_well_formed(w, events);
}

/// A watch that stopped stays stopped.
pub proof fn law_stopped_watch_stays<S>(w: WatchView<S>, event: WatchEvent<S>)
    requires
        w.step == WatchStep::Stop,
    ensures
        w.after(event) == w,
{
}

/// The samples that a watch took in, in the order in which they came.
pub open spec fn taken<S>(w: WatchView<S>, events: Seq<WatchEvent<S>>) -> Seq<S>
    decreases events.len(),
{
    if events.len() == 0 {
        Seq::empty()
    } else {
        let before = taken(w, events.drop_last());
        match (w.after_all(events.drop_last()).step, events.last()) {
            (WatchStep::Receive, WatchEvent::Packet { sample: Some(s) }) => before.push(s),
            _ => before,
        }
    }
}

/// The window of a watch holds the newest of all the samples that it took in, as many as it keeps.
pub proof fn law_watch_looks_back_on_the_newest<S>(w: WatchView<S>, events: Seq<WatchEvent<S>>)
    requires
        w.window == Seq::<S>::empty(),
    ensures
        w.after_all(events).window == crate::window::last_n(taken(w, events), w.limit),
        w.after_all(events).limit == w.limit,
    decreases events.len(),
{
    if events.len() > 0 {
        law_watch_looks_back_on_the_newest(w, events.drop_last());
        assert(w.after_all(events).window =~= crate::window::last_n(taken(w, events), w.limit));
    }
}

/// One round of a watch whose time is not over: a packet is awaited and its sample, if there is
/// one, taken in; then, on the window as it now is, a report is made if it is due; then the next
/// round begins.
pub proof fn law_round_of_a_watch<S>(w: WatchView<S>, run: u64, sample: Option<S>, since: u64)
    requires
        w.step == WatchStep::ReadRunClock,
        !w.is_over(run),
    ensures
        w.after(WatchEvent::Clock { seconds: run }).step == WatchStep::Receive,
        ({
            let heard = w.after(WatchEvent::Clock { seconds: run }).after(
                WatchEvent::Packet { sample },
            );
            let timed = heard.after(WatchEvent::Clock { seconds: since });
            &&& heard.window == match sample {
                Some(s) => crate::window::last_n(w.window.push(s), w.limit),
                None => w.window,
            }
            &&& timed.window == heard.window
            &&& heard.is_due(since) ==> {
                &&& timed.step == WatchStep::Report
                &&& timed.after(WatchEvent::Reported) == (WatchView {
                    step: WatchStep::ReadRunClock,
                    ..heard
                })
            }
            &&& !heard.is_due(since) ==> timed == (WatchView {
                step: WatchStep::ReadRunClock,
                ..heard
            })
        }),
{
}

/// The fields of a readout stand in columns: where none is wider than its column, what follows
/// stands at the same place on every line.
pub proof fn law_readout_stands_in_columns(state: RoomState)
    requires
        presence_field(state.presence).len() <= 7,
        posture_field(state.posture).len() <= 8,
        value_field(state.breathing, "bpm"@).len() <= 8,
        value_field(state.heartbeat, "bpm"@).len() <= 7,
    ensures
        readout_line(state).subrange(0, 9) == "presence="@,
        readout_line(state).subrange(16, 25) == " posture="@,
        readout_line(state).subrange(33, 44) == " breathing="@,
        readout_line(state).subrange(52, 59) == " heart="@,
        readout_line(state).subrange(66, 76) == " restless="@,
{
    reveal_strlit("presence=");
    reveal_strlit(" posture=");
    reveal_strlit(" breathing=");
    reveal_strlit(" heart=");
    reveal_strlit(" restless=");
    let line = readout_line(state);
    assert(line.subrange(0, 9) =~= "presence="@);
    assert(line.subrange(16, 25) =~= " posture="@);
    assert(line.subrange(33, 44) =~= " breathing="@);
    assert(line.subrange(52, 59) =~= " heart="@);
    assert(line.subrange(66, 76) =~= " restless="@);
}

/// A stretch of a watch with the times, in milliseconds since its start, at which its events
/// happened.
pub type TimedTrace<S> = Seq<(int, WatchEvent<S>)>;

/// The events of a trace.
pub open spec fn trace_events<S>(trace: TimedTrace<S>) -> Seq<WatchEvent<S>> {
    trace.map_values(|e: (int, WatchEvent<S>)| e.1)
}

/// The time at the end of a trace.
pub open spec fn trace_time<S>(trace: TimedTrace<S>) -> int {
    if trace.len() == 0 {
        0
    } else {
        trace.last().0
    }
}

/// When the report clock was last started: with the watch, and anew with each readout.
pub open spec fn last_report<S>(w: WatchView<S>, trace: TimedTrace<S>) -> int
    decreases trace.len(),
{
    if trace.len() == 0 {
        0
    } else {
        let before = trace.drop_last();
        match (w.after_all(trace_events(before)).step, trace.last().1) {
            (WatchStep::Report, WatchEvent::Reported) => trace.last().0,
            _ => last_report(w, before),
        }
    }
}

/// Time never runs back, and the report clock shows the whole seconds since it was last started.
pub open spec fn is_timed<S>(w: WatchView<S>, trace: TimedTrace<S>) -> bool
    decreases trace.len(),
{
    trace.len() > 0 ==> {
        let before = trace.drop_last();
        &&& is_timed(w, before)
        &&& trace_time(before) <= trace_time(trace)
        &&& match (w.after_all(trace_events(before)).step, trace.last().1) {
            (WatchStep::ReadReportClock, WatchEvent::Clock { seconds }) => seconds == (trace_time(
                trace,
            ) - last_report(w, before)) / 1000,
            _ => true,
        }
    }
}

/// Two readouts are at least a second apart, and the first comes no sooner than a second after the
/// start: whenever a report is called for, the report clock was started a second ago or more.
pub proof fn law_reports_are_a_second_apart<S>(w: WatchView<S>, trace: TimedTrace<S>)
    requires
        w.step == WatchStep::ReadRunClock,
        is_timed(w, trace),
    ensures
        w.after_all(trace_events(trace)).step == WatchStep::Report ==> last_report(w, trace) + 1000
            <= trace_time(trace),
    decreases trace.len(),
{
    if trace.len() > 0 {
        let before = trace.drop_last();
        law_reports_are_a_second_apart(w, before);
        assert(trace_events(trace).drop_last() =~= trace_events(before));
        assert(trace_events(trace).last() == trace.last().1);
    }
}

/// A watch begins with an empty window of the size asked for, the time limit asked for, and a look
/// at the clock.
pub proof fn law_watch_begins_empty<R, S>(args: RoomWatchArgs<R>, w: Watch<S>)
    requires
        call_ensures(room_watch::<R, S>, (&args,), w),
    ensures
        w@.step == WatchStep::ReadRunClock,
        w@.window.len() == 0,
        w@.limit == args.window,
        w@.seconds == args.seconds,
{
}

/// At the start of a round a watch with a time limit stops for every reading that reaches the
/// limit and goes on for every other; one without a limit goes on for every reading.
pub proof fn law_watch_stops_at_its_limit<S>(w: WatchView<S>, seconds: u64)
    requires
        w.step == WatchStep::ReadRunClock,
    ensures
        w.seconds == 0 ==> w.after(WatchEvent::Clock { seconds }).step == WatchStep::Receive,
        w.seconds > 0 && seconds >= w.seconds ==> w.after(WatchEvent::Clock { seconds }).step
            == WatchStep::Stop,
        w.seconds > 0 && seconds < w.seconds ==> w.after(WatchEvent::Clock { seconds }).step
            == WatchStep::Receive,
        w.after(WatchEvent::Clock { seconds }).window == w.window,
{
}

/// With 32 samples or more a report is made for every reading of the report clock of one second or
/// more; with fewer samples, or within the second, none is made and the next round begins.
pub proof fn law_report_is_made_when_due<S>(w: WatchView<S>, seconds: u64)
    requires
        w.step == WatchStep::ReadReportClock,
    ensures
        w.window.len() >= 32 && seconds >= 1 ==> w.after(WatchEvent::Clock { seconds }).step
            == WatchStep::Report,
        w.window.len() < 32 || seconds == 0 ==> w.after(WatchEvent::Clock { seconds }).step
            == WatchStep::ReadRunClock,
        w.after(WatchEvent::Clock { seconds }).window == w.window,
{
}

/// A packet that was awaited puts its sample at the end of the window, which keeps its older
/// samples in their order and lets the oldest go only for want of room; a packet without a sample
/// leaves the window as it is. The report clock is looked at next in either case.
pub proof fn law_packet_enters_the_window<S>(w: WatchView<S>, sample: S)
    requires
        w.step == WatchStep::Receive,
        w.window.len() <= w.limit,
    ensures
        ({
            let after = w.after(WatchEvent::Packet { sample: Some(sample) });
            &&& after.step == WatchStep::ReadReportClock
            &&& w.limit == 0 ==> after.window.len() == 0
            &&& w.limit > 0 ==> after.window.len() > 0 && after.window.last() == sample
            &&& w.window.len() < w.limit ==> after.window.drop_last() == w.window
            &&& w.limit > 0 && w.window.len() == w.limit ==> after.window.drop_last()
                == w.window.skip(1)
        }),
        w.after(WatchEvent::Packet { sample: None }).step == WatchStep::ReadReportClock,
        w.after(WatchEvent::Packet { sample: None }).window == w.window,
{
    crate::window::law_new_sample_replaces_the_oldest(w.window, w.limit, sample);
    crate::window::law_last_items_count_from_the_end(w.window.push(sample), w.limit);
}

/// After a readout the next round begins with the same window, and a readout that was not called
/// for changes nothing. Packets and clock readings that nobody asked for change nothing either.
pub proof fn law_unasked_watch_events_change_nothing<S>(
    w: WatchView<S>,
    seconds: u64,
    sample: Option<S>,
)
    ensures
        w.step == WatchStep::Report ==> w.after(WatchEvent::Reported).step
            == WatchStep::ReadRunClock,
        w.after(WatchEvent::Reported).window == w.window,
        w.step != WatchStep::Report ==> w.after(WatchEvent::Reported) == w,
        w.step != WatchStep::Receive ==> w.after(WatchEvent::Packet { sample }) == w,
        w.step != WatchStep::ReadRunClock && w.step != WatchStep::ReadReportClock ==> w.after(
            WatchEvent::Clock { seconds },
        ) == w,
{
}

/// Nothing that happens changes how long a watch runs or how far it looks back.
pub proof fn law_watch_keeps_its_settings<S>(w: WatchView<S>, event: WatchEvent<S>)
    ensures
        w.after(event).seconds == w.seconds,
        w.after(event).limit == w.limit,
{
}

/// A readout is its names and its readings one after another. A reading narrower than its column is
/// filled up with blanks, and a wider one is not cut.
pub proof fn law_readings_are_never_cut(
    state: RoomState,
    r: String,
    presence: Seq<char>,
    posture: Seq<char>,
    breathing: Seq<char>,
    heart: Seq<char>,
    restless: Seq<char>,
    flags: Seq<char>,
)
    requires
        call_ensures(readout_text, (&state,), r),
        state.presence matches Some(Some(label)) ==> presence == label@,
        state.presence matches Some(None) ==> presence.len() == 0,
        state.presence is None ==> presence == "-"@,
        state.posture matches Some(Some(label)) ==> posture == label@,
        state.posture matches Some(None) ==> posture == "-"@,
        state.posture is None ==> posture == "-"@,
        state.breathing matches Some(value) ==> breathing == value@ + "bpm"@,
        state.breathing is None ==> breathing == "-"@,
        state.heartbeat matches Some(value) ==> heart == value@ + "bpm"@,
        state.heartbeat is None ==> heart == "-"@,
        state.restlessness matches Some(value) ==> restless == value@,
        state.restlessness is None ==> restless == "-"@,
        !state.vetoed && !state.stale ==> flags.len() == 0,
        state.vetoed && !state.stale ==> flags == " VETO"@,
        !state.vetoed && state.stale ==> flags == " STALE"@,
        state.vetoed && state.stale ==> flags == " VETO"@ + " STALE"@,
    ensures
        r@ == "presence="@ + crate::text::padded(presence, 7) + " posture="@ + crate::text::padded(
            posture,
            8,
        ) + " breathing="@ + crate::text::padded(breathing, 8) + " heart="@ + crate::text::padded(
            heart,
            7,
        ) + " restless="@ + restless + flags,
{
    assert(presence =~= presence_field(state.presence));
    assert(restless =~= value_field(state.restlessness, Seq::empty()));
    assert(flags =~= flags_field(state.vetoed, state.stale));
}

/// Each column of a readout shows its own reading, whatever the flags, and only the end of the
/// line depends on them.
pub proof fn law_each_column_shows_its_reading(
    state: RoomState,
    r: String,
    presence: Seq<char>,
    posture: Seq<char>,
    breathing: Seq<char>,
    heart: Seq<char>,
    restless: Seq<char>,
)
    requires
        call_ensures(readout_text, (&state,), r),
        state.presence matches Some(Some(label)) ==> presence == label@,
        state.presence matches Some(None) ==> presence.len() == 0,
        state.presence is None ==> presence == "-"@,
        state.posture matches Some(Some(label)) ==> posture == label@,
        state.posture matches Some(None) ==> posture == "-"@,
        state.posture is None ==> posture == "-"@,
        state.breathing matches Some(value) ==> breathing == value@ + "bpm"@,
        state.breathing is None ==> breathing == "-"@,
        state.heartbeat matches Some(value) ==> heart == value@ + "bpm"@,
        state.heartbeat is None ==> heart == "-"@,
        state.restlessness matches Some(value) ==> restless == value@,
        state.restlessness is None ==> restless == "-"@,
        presence.len() <= 7,
        posture.len() <= 8,
        breathing.len() <= 8,
        heart.len() <= 7,
    ensures
        r@.len() >= 76 + restless.len(),
        r@.subrange(0, 9) == "presence="@,
        r@.subrange(9, 9int + presence.len()) == presence,
        forall|i: int| 9 + presence.len() <= i < 16 ==> #[trigger] r@[i] == ' ',
        r@.subrange(16, 25) == " posture="@,
        r@.subrange(25, 25int + posture.len()) == posture,
        forall|i: int| 25 + posture.len() <= i < 33 ==> #[trigger] r@[i] == ' ',
        r@.subrange(33, 44) == " breathing="@,
        r@.subrange(44, 44int + breathing.len()) == breathing,
        forall|i: int| 44 + breathing.len() <= i < 52 ==> #[trigger] r@[i] == ' ',
        r@.subrange(52, 59) == " heart="@,
        r@.subrange(59, 59int + heart.len()) == heart,
        forall|i: int| 59 + heart.len() <= i < 66 ==> #[trigger] r@[i] == ' ',
        r@.subrange(66, 76) == " restless="@,
        r@.subrange(76, 76int + restless.len()) == restless,
        !state.vetoed && !state.stale ==> r@.len() == 76 + restless.len(),
        state.vetoed && !state.stale ==> r@.skip(76int + restless.len()) == " VETO"@,
        !state.vetoed && state.stale ==> r@.skip(76int + restless.len()) == " STALE"@,
        state.vetoed && state.stale ==> r@.skip(76int + restless.len()) == " VETO"@ + " STALE"@,
{
    let flags = flags_field(state.vetoed, state.stale);
    assert(" VETO"@ + Seq::<char>::empty() =~= " VETO"@);
    assert(Seq::<char>::empty() + " STALE"@ =~= " STALE"@);
    law_readings_are_never_cut(
        state,
        r,
        presence,
        posture,
        breathing,
        heart,
        restless,
        flags,
    );
    lemma_columns(r@, presence, posture, breathing, heart, restless, flags);
}

/// What a prefix ends with stands in the sequence where it stands in the prefix.
proof fn lemma_prefix_ends_with(front: Seq<char>, end: Seq<char>, line: Seq<char>)
    requires
        (front + end).is_prefix_of(line),
    ensures
        front.is_prefix_of(line),
        line.len() >= front.len() + end.len(),
        line.subrange(front.len() as int, (front.len() + end.len()) as int) == end,
{
    let whole = front + end;
    assert forall|i: int| 0 <= i < whole.len() implies line[i] == whole[i] by {
        assert(line.subrange(0, whole.len() as int)[i] == whole[i]);
    }
    assert(line.subrange(0, front.len() as int) =~= front);
    assert(line.subrange(front.len() as int, (front.len() + end.len()) as int) =~= end);
}

/// A padded field is its text, followed by blanks.
proof fn lemma_padded_field(line: Seq<char>, field: Seq<char>, from: int, width: nat)
    requires
        0 <= from,
        from + width <= line.len(),
        field.len() <= width,
        line.subrange(from, from + width) == crate::text::padded(field, width),
    ensures
        line.subrange(from, from + field.len()) == field,
        forall|i: int| from + field.len() <= i < from + width ==> #[trigger] line[i] == ' ',
{
    let piece = line.subrange(from, from + width);
    assert forall|i: int| from <= i < from + width implies #[trigger] line[i] == piece[i - from] by {
    }
    assert(line.subrange(from, from + field.len()) =~= field);
}

proof fn lemma_columns(
    line: Seq<char>,
    presence: Seq<char>,
    posture: Seq<char>,
    breathing: Seq<char>,
    heart: Seq<char>,
    restless: Seq<char>,
    flags: Seq<char>,
)
    requires
        line == "presence="@ + crate::text::padded(presence, 7) + " posture="@
            + crate::text::padded(posture, 8) + " breathing="@ + crate::text::padded(breathing, 8)
            + " heart="@ + crate::text::padded(heart, 7) + " restless="@ + restless + flags,
        presence.len() <= 7,
        posture.len() <= 8,
        breathing.len() <= 8,
        heart.len() <= 7,
    ensures
        line.len() == 76 + restless.len() + flags.len(),
        line.subrange(0, 9) == "presence="@,
        line.subrange(9, 9int + presence.len()) == presence,
        forall|i: int| 9 + presence.len() <= i < 16 ==> #[trigger] line[i] == ' ',
        line.subrange(16, 25) == " posture="@,
        line.subrange(25, 25int + posture.len()) == posture,
        forall|i: int| 25 + posture.len() <= i < 33 ==> #[trigger] line[i] == ' ',
        line.subrange(33, 44) == " breathing="@,
        line.subrange(44, 44int + breathing.len()) == breathing,
        forall|i: int| 44 + breathing.len() <= i < 52 ==> #[trigger] line[i] == ' ',
        line.subrange(52, 59) == " heart="@,
        line.subrange(59, 59int + heart.len()) == heart,
        forall|i: int| 59 + heart.len() <= i < 66 ==> #[trigger] line[i] == ' ',
        line.subrange(66, 76) == " restless="@,
        line.subrange(76, 76int + restless.len()) == restless,
        line.skip(76int + restless.len()) == flags,
{
    reveal_strlit("presence=");
    reveal_strlit(" posture=");
    reveal_strlit(" breathing=");
    reveal_strlit(" heart=");
    reveal_strlit(" restless=");
    let s0 = "presence="@;
    let s1 = s0 + crate::text::padded(presence, 7);
    let s2 = s1 + " posture="@;
    let s3 = s2 + crate::text::padded(posture, 8);
    let s4 = s3 + " breathing="@;
    let s5 = s4 + crate::text::padded(breathing, 8);
    let s6 = s5 + " heart="@;
    let s7 = s6 + crate::text::padded(heart, 7);
    let s8 = s7 + " restless="@;
    let s9 = s8 + restless;
    assert(s9.len() == 76 + restless.len());
    assert(line.subrange(0, line.len() as int) =~= line);
    lemma_prefix_ends_with(s9, flags, line);
    assert(line.skip(s9.len() as int) =~= line.subrange(
        s9.len() as int,
        (s9.len() + flags.len()) as int,
    ));
    lemma_prefix_ends_with(s8, restless, line);
    lemma_prefix_ends_with(s7, " restless="@, line);
    lemma_prefix_ends_with(s6, crate::text::padded(heart, 7), line);
    lemma_prefix_ends_with(s5, " heart="@, line);
    lemma_prefix_ends_with(s4, crate::text::padded(breathing, 8), line);
    lemma_prefix_ends_with(s3, " breathing="@, line);
    lemma_prefix_ends_with(s2, crate::text::padded(posture, 8), line);
    lemma_prefix_ends_with(s1, " posture="@, line);
    lemma_prefix_ends_with(s0, crate::text::padded(presence, 7), line);
    lemma_padded_field(line, presence, 9, 7);
    lemma_padded_field(line, posture, 25, 8);
    lemma_padded_field(line, breathing, 44, 8);
    lemma_padded_field(line, heart, 59, 7);
}

/// The line with which a watch begins holds its address and its window.
pub proof fn law_watching_line<R>(args: RoomWatchArgs<R>, r: String)
    requires
        call_ensures(watching_text::<R>, (&args,), r),
    ensures
        r@ == "[room-watch] inferring on udp://"@ + (args.bind@ + ":"@ + crate::text::decimal(
            args.udp_port as nat,
        )) + " (window="@ + crate::text::decimal(args.window as nat) + " frames)"@,
{
}

} // verus!
