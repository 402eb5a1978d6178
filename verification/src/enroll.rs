//! Guided enrollment: one anchor after another is captured, and a bad capture is asked for again.
//!
//! The capture itself is done elsewhere. An [`Enrollment`] says which anchor to capture next, is
//! told what came of it, and says what to put on record and what to print.
use vstd::prelude::*;
use vstd::string::*;
use vstd::utf8::*;

use crate::args::{socket_addr_text, EnrollArgs};
use crate::text::decimal_text;

verus! {

/// How good a capture was. The two measurements are already written out, with two decimals and
/// as whole percents.
#[derive(Debug)]
pub struct Quality {
    pub accepted: bool,
    pub presence_z: String,
    pub motion_percent: String,
    pub frames: u64,
}

/// What came of one capture.
#[derive(Debug)]
pub struct Captured<F> {
    /// What was learned from it.
    pub feature: Option<F>,
    pub quality: Quality,
    /// Why it was rejected.
    pub reason: Option<String>,
}

/// An entry for the log of the session. Anchors go by their place in the sequence.
#[derive(Debug)]
pub enum SessionRecord {
    Accepted { anchor: usize },
    Rejected { anchor: usize, reason: String },
    Completed,
}

/// What to do after a capture: one entry for the log, and lines to print.
#[derive(Debug)]
pub struct Progress {
    pub record: SessionRecord,
    pub lines: Vec<String>,
}

/// An enrollment under way.
pub struct Enrollment<F> {
    labels: Vec<String>,
    attempts: u32,
    anchor: usize,
    attempt: u32,
    features: Vec<F>,
}

/// A log entry, by what it says.
pub enum RecordView {
    Accepted { anchor: nat },
    Rejected { anchor: nat, reason: Seq<char> },
    Completed,
}

/// An enrollment, by what it holds.
pub struct EnrollmentView<F> {
    /// The anchors, in the order in which they are captured.
    pub labels: Seq<Seq<char>>,
    /// How often an anchor is tried.
    pub attempts: nat,
    /// The anchor that is captured next.
    pub anchor: nat,
    /// Which attempt at it that is, counted from 1.
    pub attempt: nat,
    /// What was learned so far.
    pub features: Seq<F>,
}

impl View for SessionRecord {
    type V = RecordView;

    open spec fn view(&self) -> RecordView {
        match self {
            SessionRecord::Accepted { anchor } => RecordView::Accepted { anchor: *anchor as nat },
            SessionRecord::Rejected { anchor, reason } => RecordView::Rejected {
                anchor: *anchor as nat,
                reason: reason@,
            },
            SessionRecord::Completed => RecordView::Completed,
        }
    }
}

impl<F> View for Enrollment<F> {
    type V = EnrollmentView<F>;

    closed spec fn view(&self) -> EnrollmentView<F> {
        EnrollmentView {
            labels: crate::text::texts(self.labels@),
            attempts: self.attempts as nat,
            anchor: self.anchor as nat,
            attempt: self.attempt as nat,
            features: self.features@,
        }
    }
}

/// The reason that goes on record; a rejection without one leaves it empty.
pub open spec fn reason_text<F>(c: Captured<F>) -> Seq<char> {
    match c.reason {
        Some(why) => why@,
        None => Seq::empty(),
    }
}

/// The features that an accepted capture adds.
pub open spec fn gained<F>(c: Captured<F>) -> Seq<F> {
    match c.feature {
        Some(f) => seq![f],
        None => Seq::empty(),
    }
}

/// The line for an accepted capture.
pub open spec fn accepted_line(q: Quality) -> Seq<char> {
    "[enroll]   ✓ accepted (presence_z="@ + q.presence_z@ + " motion="@ + q.motion_percent@
        + "% frames="@ + crate::text::decimal(q.frames as nat) + ")"@
}

/// The line for a rejected capture.
pub open spec fn rejected_line(why: Seq<char>) -> Seq<char> {
    "[enroll]   ✗ rejected: "@ + why
}

/// The line that announces another attempt.
pub open spec fn retrying_line(attempt: nat, attempts: nat) -> Seq<char> {
    "[enroll]   retrying ("@ + crate::text::decimal(attempt) + "/"@ + crate::text::decimal(attempts)
        + ")…"@
}

/// The line for an anchor that is given up.
pub open spec fn moving_on_line(label: Seq<char>) -> Seq<char> {
    "[enroll]   moving on without '"@ + label + "'"@
}

impl<F> EnrollmentView<F> {
    /// A capture is asked for.
    pub open spec fn is_pending(self) -> bool {
        self.anchor < self.labels.len()
    }

    /// The attempts at an anchor stay within their number, and none is asked for once every
    /// anchor is done.
    pub open spec fn wf(self) -> bool {
        &&& self.anchor <= self.labels.len()
        &&& self.is_pending() ==> 1 <= self.attempt <= self.attempts
        &&& self.attempts <= u32::MAX
    }

    /// The enrollment after a capture.
    pub open spec fn settled(self, c: Captured<F>) -> EnrollmentView<F> {
        if c.quality.accepted {
            EnrollmentView {
                anchor: self.anchor + 1,
                attempt: 1,
                features: self.features + gained(c),
                ..self
            }
        } else if self.attempt < self.attempts {
            EnrollmentView { attempt: self.attempt + 1, ..self }
        } else {
            EnrollmentView { anchor: self.anchor + 1, attempt: 1, ..self }
        }
    }

    /// The log entry for a capture.
    pub open spec fn record(self, c: Captured<F>) -> RecordView {
        if c.quality.accepted {
            RecordView::Accepted { anchor: self.anchor }
        } else {
            RecordView::Rejected { anchor: self.anchor, reason: reason_text(c) }
        }
    }

    /// The lines for a capture.
    pub open spec fn lines(self, c: Captured<F>) -> Seq<Seq<char>> {
        if c.quality.accepted {
            seq![accepted_line(c.quality)]
        } else if self.attempt < self.attempts {
            seq![
                rejected_line(reason_text(c)),
                retrying_line(self.attempt + 1, self.attempts),
            ]
        } else {
            seq![
                rejected_line(reason_text(c)),
                moving_on_line(self.labels[self.anchor as int]),
            ]
        }
    }
}

fn accepted_text(q: &Quality) -> (r: String)
    ensures
        r@ == accepted_line(*q),
{
    let mut s = "[enroll]   ✓ accepted (presence_z=".to_owned();
    s.append(q.presence_z.as_str());
    s.append(" motion=");
    s.append(q.motion_percent.as_str());
    s.append("% frames=");
    let frames = decimal_text(q.frames);
    s.append(frames.as_str());
    s.append(")");
    s
}

fn rejected_text(why: &str) -> (r: String)
    ensures
        r@ == rejected_line(why@),
{
    let mut s = "[enroll]   ✗ rejected: ".to_owned();
    s.append(why);
    s
}

fn retrying_text(attempt: u32, attempts: u32) -> (r: String)
    ensures
        r@ == retrying_line(attempt as nat, attempts as nat),
{
    let mut s = "[enroll]   retrying (".to_owned();
    let a = decimal_text(attempt as u64);
    s.append(a.as_str());
    s.append("/");
    let b = decimal_text(attempts as u64);
    s.append(b.as_str());
    s.append(")…");
    s
}

fn moving_on_text(label: &str) -> (r: String)
    ensures
        r@ == moving_on_line(label@),
{
    let mut s = "[enroll]   moving on without '".to_owned();
    s.append(label);
    s.append("'");
    s
}

/// Begins an enrollment of the anchors `labels`, each tried up to `attempts` times. Without any
/// attempt every anchor is passed over at once.
pub fn enroll<F>(labels: Vec<String>, attempts: u32) -> (r: (Enrollment<F>, Vec<String>))
    ensures
        r.0@.wf(),
        r.0@ == (EnrollmentView {
            labels: crate::text::texts(labels@),
            attempts: attempts as nat,
            anchor: (if attempts == 0 { labels@.len() } else { 0 }),
            attempt: 1,
            features: Seq::<F>::empty(),
        }),
        crate::text::texts(r.1@) == if attempts == 0 {
            crate::text::texts(labels@).map_values(|label: Seq<char>| moving_on_line(label))
        } else {
            Seq::empty()
        },
{
    let mut lines: Vec<String> = Vec::new();
    let mut anchor: usize = 0;
    if attempts == 0 {
        while anchor < labels.len()
            invariant
                anchor <= labels.len(),
                lines@.len() == anchor,
                forall|i: int|
                    0 <= i < anchor ==> (#[trigger] lines@[i])@ == moving_on_line(labels@[i]@),
            decreases labels.len() - anchor,
        {
            lines.push(moving_on_text(labels[anchor].as_str()));
            anchor = anchor + 1;
        }
    }
    assert(crate::text::texts(lines@) =~= if attempts == 0 {
        crate::text::texts(labels@).map_values(|label: Seq<char>| moving_on_line(label))
    } else {
        Seq::empty()
    });
    (Enrollment { labels, attempts, anchor, attempt: 1, features: Vec::new() }, lines)
}

impl<F> Enrollment<F> {
    /// The capture to make next: the place of the anchor in the sequence, and which attempt at it
    /// this is.
    pub fn request(&self) -> (r: Option<(usize, u32)>)
        ensures
            r is Some <==> self@.is_pending(),
            r matches Some((anchor, attempt)) ==> anchor == self@.anchor && attempt
                == self@.attempt,
    {
        if self.anchor < self.labels.len() {
            Some((self.anchor, self.attempt))
        } else {
            None
        }
    }

    /// Takes in what came of a capture.
    pub fn settle(&mut self, captured: Captured<F>) -> (r: Progress)
        requires
            old(self)@.wf(),
            old(self)@.is_pending(),
        ensures
            final(self)@ == old(self)@.settled(captured),
            final(self)@.wf(),
            r.record@ == old(self)@.record(captured),
            crate::text::texts(r.lines@) == old(self)@.lines(captured),
    {
        let anchor: usize = self.anchor;
        assert(anchor < self.labels.len());
        let mut lines: Vec<String> = Vec::new();
        if captured.quality.accepted {
            lines.push(accepted_text(&captured.quality));
            match captured.feature {
                Some(f) => {
                    self.features.push(f);
                    assert(self@.features =~= old(self)@.features + seq![f]);
                },
                None => {
                    assert(self@.features =~= old(self)@.features + Seq::<F>::empty());
                },
            }
            self.anchor = self.anchor + 1;
            self.attempt = 1;
            assert(crate::text::texts(lines@) =~= old(self)@.lines(captured));
            Progress { record: SessionRecord::Accepted { anchor }, lines }
        } else {
            let why = match captured.reason {
                Some(why) => why,
                None => String::new(),
            };
            lines.push(rejected_text(why.as_str()));
            if self.attempt < self.attempts {
                self.attempt = self.attempt + 1;
                lines.push(retrying_text(self.attempt, self.attempts));
            } else {
                lines.push(moving_on_text(self.labels[anchor].as_str()));
                self.anchor = self.anchor + 1;
                self.attempt = 1;
            }
            assert(crate::text::texts(lines@) =~= old(self)@.lines(captured));
            Progress { record: SessionRecord::Rejected { anchor, reason: why }, lines }
        }
    }

    /// Ends the enrollment: hands over what was learned, and the last log entry where the session
    /// finds itself complete.
    pub fn close(self, complete: bool) -> (r: (Vec<F>, Option<SessionRecord>))
        ensures
            r.0@ == self@.features,
            r.1 == if complete {
                Some(SessionRecord::Completed)
            } else {
                None
            },
    {
        let last = if complete {
            Some(SessionRecord::Completed)
        } else {
            None
        };
        (self.features, last)
    }
}

/// What `enroll` leaves behind: labelled features and the log of the session.
#[derive(Debug)]
pub struct EnrollmentData<R, F, S> {
    pub room_id: String,
    pub baseline_id: String,
    pub fs_hz: R,
    pub anchors: Vec<F>,
    pub session: S,
}

/// Puts the outcome of an enrollment together.
pub fn enrollment_data<R: Copy, F, S>(
    args: &EnrollArgs<R>,
    baseline_id: String,
    anchors: Vec<F>,
    session: S,
) -> (r: EnrollmentData<R, F, S>)
    ensures
        r.room_id@ == args.room_id@,
        r.baseline_id == baseline_id,
        r.fs_hz == args.fs_hz,
        r.anchors == anchors,
        r.session == session,
{
    EnrollmentData {
        room_id: args.room_id.clone(),
        baseline_id,
        fs_hz: args.fs_hz,
        anchors,
        session,
    }
}

/// The first eight bytes of an identifier.
pub open spec fn short_id(id: Seq<char>) -> Seq<char> {
    decode_utf8(encode_utf8(id).subrange(0, 8))
}

/// The first line of an enrollment.
pub open spec fn opening_line(
    room_id: Seq<char>,
    baseline_id: Seq<char>,
    bind: Seq<char>,
    port: u16,
) -> Seq<char> {
    "[enroll] room='"@ + room_id + "' baseline="@ + short_id(baseline_id) + " on udp://"@
        + crate::args::socket_addr(bind, port)
}

/// The lines with which an enrollment opens. The identifier of the baseline is cut after eight
/// bytes, so a character has to end there.
pub fn opening_lines<R>(args: &EnrollArgs<R>, baseline_id: &str) -> (r: Vec<String>)
    requires
        is_char_boundary(encode_utf8(baseline_id@), 8),
    ensures
        crate::text::texts(r@) == seq![
            opening_line(args.room_id@, baseline_id@, args.bind@, args.udp_port),
            "[enroll] follow each prompt; bad captures are re-prompted."@,
        ],
{
    let (short, _) = baseline_id.split_at(8);
    proof {
        encode_utf8_decode_utf8(short@);
    }
    let mut s = "[enroll] room='".to_owned();
    s.append(args.room_id.as_str());
    s.append("' baseline=");
    s.append(short);
    s.append(" on udp://");
    let addr = socket_addr_text(args.bind.as_str(), args.udp_port);
    s.append(addr.as_str());
    let mut lines: Vec<String> = Vec::new();
    lines.push(s);
    lines.push("[enroll] follow each prompt; bad captures are re-prompted.".to_owned());
    assert(crate::text::texts(lines@) =~= seq![
        opening_line(args.room_id@, baseline_id@, args.bind@, args.udp_port),
        "[enroll] follow each prompt; bad captures are re-prompted."@,
    ]);
    lines
}

/// The last line of an enrollment.
pub open spec fn closing_line(got: u64, total: u64, output: Seq<char>) -> Seq<char> {
    "\n[enroll] done: "@ + crate::text::decimal(got as nat) + "/"@ + crate::text::decimal(
        total as nat,
    ) + " anchors accepted → "@ + output + " (next: `train-room`)"@
}

/// The line with which an enrollment ends.
pub fn closing_text<R>(args: &EnrollArgs<R>, got: u64, total: u64) -> (r: String)
    ensures
        r@ == closing_line(got, total, args.output@),
{
    let mut s = "\n[enroll] done: ".to_owned();
    let a = decimal_text(got);
    s.append(a.as_str());
    s.append("/");
    let b = decimal_text(total);
    s.append(b.as_str());
    s.append(" anchors accepted → ");
    s.append(args.output.as_str());
    s.append(" (next: `train-room`)");
    s
}

} // verus!
