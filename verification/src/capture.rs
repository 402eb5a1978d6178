//! The capture of one anchor: a countdown, then samples until the time is over.
//!
//! Sleeping, reading the clock and receiving packets is done elsewhere. A [`Capture`] says which
//! of these comes next and is told what came of it.
use vstd::prelude::*;
use vstd::string::*;

use crate::text::decimal_text;

verus! {

/// Seconds that are counted down before a capture.
pub const COUNTDOWN: u32 = 3;

/// How far a capture has come.
#[derive(Debug, Clone, Copy, PartialEq, Eq, Structural)]
pub enum CaptureStep {
    /// Say that so many seconds are left, and sleep for one.
    Countdown { left: u32 },
    /// Say that the capture begins, start the clock and read it.
    StartClock,
    /// Read the clock.
    ReadClock,
    /// Wait a moment for a packet.
    Receive,
    /// The time is over: judge the capture.
    Finalize,
}

/// What happened.
#[derive(Debug)]
pub enum CaptureEvent<S> {
    /// A second went by.
    Slept,
    /// The clock shows so many whole seconds since the start.
    Clock { seconds: u64 },
    /// The wait for a packet is over; it brought a frame with this sample, or none.
    Packet { sample: Option<S> },
}

/// A capture under way.
pub struct Capture<S> {
    step: CaptureStep,
    duration_s: u64,
    series: Vec<S>,
}

/// A capture, by what it holds.
pub struct CaptureView<S> {
    pub step: CaptureStep,
    pub duration_s: u64,
    /// The samples so far, oldest first.
    pub series: Seq<S>,
}

impl<S> View for Capture<S> {
    type V = CaptureView<S>;

    closed spec fn view(&self) -> CaptureView<S> {
        CaptureView { step: self.step, duration_s: self.duration_s, series: self.series@ }
    }
}

/// The samples of a packet.
pub open spec fn heard<S>(sample: Option<S>) -> Seq<S> {
    match sample {
        Some(s) => seq![s],
        None => Seq::empty(),
    }
}

impl<S> CaptureView<S> {
    /// A capture that has not begun to count down.
    pub open spec fn fresh(duration_s: u64) -> CaptureView<S> {
        CaptureView {
            step: CaptureStep::Countdown { left: COUNTDOWN },
            duration_s,
            series: Seq::empty(),
        }
    }

    /// The capture after an event. An event that answers to no request changes nothing.
    pub open spec fn after(self, event: CaptureEvent<S>) -> CaptureView<S> {
        match (self.step, event) {
            (CaptureStep::Countdown { left }, CaptureEvent::Slept) => CaptureView {
                step: if left > 1 {
                    CaptureStep::Countdown { left: (left - 1) as u32 }
                } else {
                    CaptureStep::StartClock
                },
                ..self
            },
            (CaptureStep::StartClock, CaptureEvent::Clock { seconds }) => self.at(seconds),
            (CaptureStep::ReadClock, CaptureEvent::Clock { seconds }) => self.at(seconds),
            (CaptureStep::Receive, CaptureEvent::Packet { sample }) => CaptureView {
                step: CaptureStep::ReadClock,
                series: self.series + heard(sample),
                ..self
            },
            _ => self,
        }
    }

    /// The capture after the clock showed `seconds`: it goes on while its time is not over.
    pub open spec fn at(self, seconds: u64) -> CaptureView<S> {
        CaptureView {
            step: if seconds < self.duration_s {
                CaptureStep::Receive
            } else {
                CaptureStep::Finalize
            },
            ..self
        }
    }

    /// The capture after several events.
    pub open spec fn after_all(self, events: Seq<CaptureEvent<S>>) -> CaptureView<S>
        decreases events.len(),
    {
        if events.len() == 0 {
            self
        } else {
            self.after_all(events.drop_last()).after(events.last())
        }
    }
}

/// Begins the capture of an anchor that takes `duration_s` seconds.
pub fn capture_anchor<S>(duration_s: u64) -> (r: Capture<S>)
    ensures
        r@ == CaptureView::<S>::fresh(duration_s),
{
    Capture { step: CaptureStep::Countdown { left: COUNTDOWN }, duration_s, series: Vec::new() }
}

impl<S> Capture<S> {
    /// What to do next.
    pub fn step(&self) -> (r: CaptureStep)
        ensures
            r == self@.step,
    {
        self.step
    }

    /// Takes in what happened.
    pub fn advance(&mut self, event: CaptureEvent<S>)
        ensures
            final(self)@ == old(self)@.after(event),
    {
        match (self.step, event) {
            (CaptureStep::Countdown { left }, CaptureEvent::Slept) => {
                if left > 1 {
                    self.step = CaptureStep::Countdown { left: left - 1 };
                } else {
                    self.step = CaptureStep::StartClock;
                }
            },
            (CaptureStep::StartClock, CaptureEvent::Clock { seconds }) => {
                self.time(seconds);
            },
            (CaptureStep::ReadClock, CaptureEvent::Clock { seconds }) => {
                self.time(seconds);
            },
            (CaptureStep::Receive, CaptureEvent::Packet { sample }) => {
                match sample {
                    Some(s) => {
                        self.series.push(s);
                        assert(self.series@ =~= old(self)@.series + seq![s]);
                    },
                    None => {
                        assert(self.series@ =~= old(self)@.series + Seq::<S>::empty());
                    },
                }
                self.step = CaptureStep::ReadClock;
            },
            _ => {},
        }
    }

    fn time(&mut self, seconds: u64)
        ensures
            final(self)@ == old(self)@.at(seconds),
    {
        if seconds < self.duration_s {
            self.step = CaptureStep::Receive;
        } else {
            self.step = CaptureStep::Finalize;
        }
    }

    /// Ends the capture: an accepted one hands over its samples for a feature to be drawn from, a
    /// rejected one hands over nothing.
    pub fn finish(self, accepted: bool) -> (r: Option<Vec<S>>)
        ensures
            r is Some <==> accepted,
            r matches Some(series) ==> series@ == self@.series,
    {
        if accepted {
            Some(self.series)
        } else {
            None
        }
    }
}

/// The line that asks for an anchor.
pub open spec fn prompt_line(label: Seq<char>, prompt: Seq<char>) -> Seq<char> {
    "\n[enroll] "@ + label + " — "@ + prompt
}

/// Writes the line that asks for an anchor.
pub fn prompt_text(label: &str, prompt: &str) -> (r: String)
    ensures
        r@ == prompt_line(label@, prompt@),
{
    let mut s = "\n[enroll] ".to_owned();
    s.append(label);
    s.append(" — ");
    s.append(prompt);
    s
}

/// The line for a second of the countdown.
pub open spec fn countdown_line(left: u32) -> Seq<char> {
    "[enroll]   starting in "@ + crate::text::decimal(left as nat) + "…"@
}

/// Writes the line for a second of the countdown.
pub fn countdown_text(left: u32) -> (r: String)
    ensures
        r@ == countdown_line(left),
{
    let mut s = "[enroll]   starting in ".to_owned();
    let n = decimal_text(left as u64);
    s.append(n.as_str());
    s.append("…");
    s
}

/// The line with which a capture begins.
pub open spec fn capturing_line(duration_s: u64) -> Seq<char> {
    "[enroll]   capturing "@ + crate::text::decimal(duration_s as nat) + " s…"@
}

/// Writes the line with which a capture begins.
pub fn capturing_text(duration_s: u64) -> (r: String)
    ensures
        r@ == capturing_line(duration_s),
{
    let mut s = "[enroll]   capturing ".to_owned();
    let n = decimal_text(duration_s);
    s.append(n.as_str());
    s.append(" s…");
    s
}

/// The events of the countdown.
pub open spec fn countdown_events<S>() -> Seq<CaptureEvent<S>> {
    Seq::new(COUNTDOWN as nat, |i: int| CaptureEvent::Slept)
}

/// The events of the rounds of a capture: in each the clock is read, then a packet awaited.
pub open spec fn round_events<S>(rounds: Seq<(u64, Option<S>)>) -> Seq<CaptureEvent<S>>
    decreases rounds.len(),
{
    if rounds.len() == 0 {
        Seq::empty()
    } else {
        round_events(rounds.drop_last()).push(CaptureEvent::Clock { seconds: rounds.last().0 }).push(
            CaptureEvent::Packet { sample: rounds.last().1 },
        )
    }
}

/// The samples of the rounds of a capture.
pub open spec fn round_samples<S>(rounds: Seq<(u64, Option<S>)>) -> Seq<S>
    decreases rounds.len(),
{
    if rounds.len() == 0 {
        Seq::empty()
    } else {
        round_samples(rounds.drop_last()) + heard(rounds.last().1)
    }
}

/// A capture counts down three seconds, one at a time, and only then starts the clock.
pub proof fn law_countdown_comes_first<S>(duration_s: u64, slept: nat)
    requires
        slept <= COUNTDOWN,
    ensures
        CaptureView::<S>::fresh(duration_s).after_all(
            Seq::new(slept, |i: int| CaptureEvent::Slept),
        ) == (CaptureView::<S> {
            step: if slept < COUNTDOWN {
                CaptureStep::Countdown { left: (COUNTDOWN - slept) as u32 }
            } else {
                CaptureStep::StartClock
            },
            duration_s,
            series: Seq::empty(),
        }),
    decreases slept,
{
    if slept > 0 {
        let before = (slept - 1) as nat;
        law_countdown_comes_first::<S>(duration_s, before);
        let events = Seq::new(slept, |i: int| CaptureEvent::<S>::Slept);
        assert(events.drop_last() =~= Seq::new(before, |i: int| CaptureEvent::<S>::Slept));
    }
}

/// A capture keeps every sample that came before its time was over, in the order in which they
/// came, and ends with the first look at the clock after that.
pub proof fn law_capture_keeps_every_sample<S>(
    duration_s: u64,
    rounds: Seq<(u64, Option<S>)>,
    end: u64,
)
    requires
        forall|i: int| 0 <= i < rounds.len() ==> (#[trigger] rounds[i]).0 < duration_s,
        end >= duration_s,
    ensures
        CaptureView::<S>::fresh(duration_s).after_all(
            (countdown_events::<S>() + round_events(rounds)).push(
                CaptureEvent::Clock { seconds: end },
            ),
        ) == (CaptureView::<S> {
            step: CaptureStep::Finalize,
            duration_s,
            series: round_samples(rounds),
        }),
{
    lemma_rounds(duration_s, rounds);
    let events = countdown_events::<S>() + round_events(rounds);
    assert(events.push(CaptureEvent::Clock { seconds: end }).drop_last() =~= events);
}

proof fn lemma_rounds<S>(duration_s: u64, rounds: Seq<(u64, Option<S>)>)
    requires
        forall|i: int| 0 <= i < rounds.len() ==> (#[trigger] rounds[i]).0 < duration_s,
    ensures
        CaptureView::<S>::fresh(duration_s).after_all(
            countdown_events::<S>() + round_events(rounds),
        ) == (CaptureView::<S> {
            step: if rounds.len() == 0 {
                CaptureStep::StartClock
            } else {
                CaptureStep::ReadClock
            },
            duration_s,
            series: round_samples(rounds),
        }),
    decreases rounds.len(),
{
    if rounds.len() == 0 {
        law_countdown_comes_first::<S>(duration_s, COUNTDOWN as nat);
        assert(countdown_events::<S>() + round_events(rounds) =~= Seq::new(
            COUNTDOWN as nat,
            |i: int| CaptureEvent::<S>::Slept,
        ));
    } else {
        let rest = rounds.drop_last();
        lemma_rounds(duration_s, rest);
        assert(rounds[rounds.len() - 1].0 < duration_s);
        let before = countdown_events::<S>() + round_events(rest);
        let clock = before.push(CaptureEvent::Clock { seconds: rounds.last().0 });
        let packet = clock.push(CaptureEvent::Packet { sample: rounds.last().1 });
        assert(countdown_events::<S>() + round_events(rounds) =~= packet);
        assert(packet.drop_last() =~= clock);
        assert(clock.drop_last() =~= before);
        let fresh = CaptureView::<S>::fresh(duration_s);
        assert(fresh.after_all(clock) == fresh.after_all(before).after(clock.last()));
        assert(fresh.after_all(packet) == fresh.after_all(clock).after(packet.last()));
    }
}

/// Once its time is over a capture takes nothing more in.
pub proof fn law_finished_capture_stays<S>(c: CaptureView<S>, event: CaptureEvent<S>)
    requires
        c.step == CaptureStep::Finalize,
    ensures
        c.after(event) == c,
{
}

/// A capture begins with three seconds to count down, no samples, and its own time to take.
pub proof fn law_capture_begins_with_the_countdown<S>(duration_s: u64, c: Capture<S>)
    requires
        call_ensures(capture_anchor::<S>, (duration_s,), c),
    ensures
        c@.step == (CaptureStep::Countdown { left: 3 }),
        c@.duration_s == duration_s,
        c@.series.len() == 0,
{
}

/// A second of the countdown leaves one second less, and after the last the clock is started;
/// nothing is captured meanwhile.
pub proof fn law_countdown_loses_a_second<S>(c: CaptureView<S>, left: u32)
    requires
        c.step == (CaptureStep::Countdown { left }),
    ensures
        left >= 2 ==> c.after(CaptureEvent::Slept).step == (CaptureStep::Countdown {
            left: (left - 1) as u32,
        }),
        left == 1 ==> c.after(CaptureEvent::Slept).step == CaptureStep::StartClock,
        c.after(CaptureEvent::Slept).series == c.series,
        c.after(CaptureEvent::Slept).duration_s == c.duration_s,
{
}

/// However often the clock is read, a capture goes on for every reading short of its time and ends
/// for every other, and reading the clock changes no sample.
pub proof fn law_clock_decides_by_the_duration<S>(c: CaptureView<S>, seconds: u64)
    requires
        c.step == CaptureStep::StartClock || c.step == CaptureStep::ReadClock,
    ensures
        c.after(CaptureEvent::Clock { seconds }).step == CaptureStep::Receive <==> seconds
            < c.duration_s,
        c.after(CaptureEvent::Clock { seconds }).step == CaptureStep::Finalize <==> seconds
            >= c.duration_s,
        c.after(CaptureEvent::Clock { seconds }).series == c.series,
        c.after(CaptureEvent::Clock { seconds }).duration_s == c.duration_s,
{
}

/// A packet that was awaited adds its sample at the end, and one without a sample adds nothing;
/// then the clock is read.
pub proof fn law_packet_adds_its_sample<S>(c: CaptureView<S>, sample: S)
    requires
        c.step == CaptureStep::Receive,
    ensures
        c.after(CaptureEvent::Packet { sample: Some(sample) }).series == c.series.push(sample),
        c.after(CaptureEvent::Packet { sample: None }).series == c.series,
        c.after(CaptureEvent::Packet { sample: Some(sample) }).step == CaptureStep::ReadClock,
        c.after(CaptureEvent::Packet { sample: None }).step == CaptureStep::ReadClock,
        c.after(CaptureEvent::Packet { sample: Some(sample) }).duration_s == c.duration_s,
        c.after(CaptureEvent::Packet { sample: None }).duration_s == c.duration_s,
{
    assert(c.after(CaptureEvent::Packet { sample: Some(sample) }).series =~= c.series.push(sample));
    assert(c.after(CaptureEvent::Packet { sample: None }).series =~= c.series);
}

/// What was not asked for changes nothing: sleep outside the countdown, clock readings before the
/// start and during the wait for a packet, packets that nobody waits for.
pub proof fn law_unasked_events_change_nothing<S>(
    c: CaptureView<S>,
    seconds: u64,
    sample: Option<S>,
)
    ensures
        !(c.step is Countdown) ==> c.after(CaptureEvent::Slept) == c,
        c.step is Countdown || c.step == CaptureStep::Receive || c.step == CaptureStep::Finalize
            ==> c.after(CaptureEvent::Clock { seconds }) == c,
        c.step != CaptureStep::Receive ==> c.after(CaptureEvent::Packet { sample }) == c,
{
}

/// Samples that were taken are never lost, changed or moved: whatever happens next, they stay at
/// the front.
pub proof fn law_samples_stay<S>(c: CaptureView<S>, event: CaptureEvent<S>)
    ensures
        c.series.len() <= c.after(event).series.len() <= c.series.len() + 1,
        forall|i: int| 0 <= i < c.series.len() ==> #[trigger] c.after(event).series[i] == c.series[i],
        c.after(event).duration_s == c.duration_s,
{
}

/// The lines of a capture hold the label, the prompt and the numbers that they are about.
pub proof fn law_capture_lines(
    label: &str,
    prompt: &str,
    left: u32,
    duration_s: u64,
    asked: String,
    counted: String,
    begun: String,
)
    requires
        call_ensures(prompt_text, (label, prompt), asked),
        call_ensures(countdown_text, (left,), counted),
        call_ensures(capturing_text, (duration_s,), begun),
    ensures
        asked@ == "\n[enroll] "@ + label@ + " — "@ + prompt@,
        counted@ == "[enroll]   starting in "@ + crate::text::decimal(left as nat) + "…"@,
        begun@ == "[enroll]   capturing "@ + crate::text::decimal(duration_s as nat) + " s…"@,
{
}

} // verus!
