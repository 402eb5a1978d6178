//! Files of a room: what is loaded and checked, what is reported, and what can go wrong.
//!
//! Reading, writing and decoding files is done elsewhere; here is what follows from how it went.
//! The causes of failures come as text.
use vstd::prelude::*;
use vstd::string::*;

use crate::args::TrainRoomArgs;
use crate::enroll::EnrollmentData;
use crate::text::{decimal_text, joined_text, signed_text};

verus! {

/// Why a command ends.
#[derive(Debug)]
pub enum RoomError {
    BaselineUnreadable { path: String, cause: String },
    BaselineInvalid { path: String, cause: String },
    CannotBind { addr: String, cause: String },
    EnrollmentUnreadable { path: String, cause: String },
    EnrollmentInvalid { cause: String },
    NoAcceptedAnchors { path: String },
    TrainingFailed { cause: String },
    BankUnreadable { path: String, cause: String },
    BankInvalid { cause: String },
    NotSerialized { cause: String },
    CannotWrite { path: String, cause: String },
}

/// A failure, by what it says.
pub enum RoomErrorView {
    BaselineUnreadable { path: Seq<char>, cause: Seq<char> },
    BaselineInvalid { path: Seq<char>, cause: Seq<char> },
    CannotBind { addr: Seq<char>, cause: Seq<char> },
    EnrollmentUnreadable { path: Seq<char>, cause: Seq<char> },
    EnrollmentInvalid { cause: Seq<char> },
    NoAcceptedAnchors { path: Seq<char> },
    TrainingFailed { cause: Seq<char> },
    BankUnreadable { path: Seq<char>, cause: Seq<char> },
    BankInvalid { cause: Seq<char> },
    NotSerialized { cause: Seq<char> },
    CannotWrite { path: Seq<char>, cause: Seq<char> },
}

impl View for RoomError {
    type V = RoomErrorView;

    open spec fn view(&self) -> RoomErrorView {
        match self {
            RoomError::BaselineUnreadable { path, cause } => RoomErrorView::BaselineUnreadable {
                path: path@,
                cause: cause@,
            },
            RoomError::BaselineInvalid { path, cause } => RoomErrorView::BaselineInvalid {
                path: path@,
                cause: cause@,
            },
            RoomError::CannotBind { addr, cause } => RoomErrorView::CannotBind {
                addr: addr@,
                cause: cause@,
            },
            RoomError::EnrollmentUnreadable { path, cause } => RoomErrorView::EnrollmentUnreadable {
                path: path@,
                cause: cause@,
            },
            RoomError::EnrollmentInvalid { cause } => RoomErrorView::EnrollmentInvalid {
                cause: cause@,
            },
            RoomError::NoAcceptedAnchors { path } => RoomErrorView::NoAcceptedAnchors {
                path: path@,
            },
            RoomError::TrainingFailed { cause } => RoomErrorView::TrainingFailed { cause: cause@ },
            RoomError::BankUnreadable { path, cause } => RoomErrorView::BankUnreadable {
                path: path@,
                cause: cause@,
            },
            RoomError::BankInvalid { cause } => RoomErrorView::BankInvalid { cause: cause@ },
            RoomError::NotSerialized { cause } => RoomErrorView::NotSerialized { cause: cause@ },
            RoomError::CannotWrite { path, cause } => RoomErrorView::CannotWrite {
                path: path@,
                cause: cause@,
            },
        }
    }
}

impl RoomErrorView {
    /// The text of the failure.
    pub open spec fn text(self) -> Seq<char> {
        match self {
            RoomErrorView::BaselineUnreadable { path, cause } => "cannot read baseline "@ + path
                + ": "@ + cause + " — run `calibrate` first"@,
            RoomErrorView::BaselineInvalid { path, cause } => "invalid baseline "@ + path + ": "@
                + cause,
            RoomErrorView::CannotBind { addr, cause } => "cannot bind "@ + addr + ": "@ + cause,
            RoomErrorView::EnrollmentUnreadable { path, cause } => "cannot read "@ + path + ": "@
                + cause + " — run `enroll` first"@,
            RoomErrorView::EnrollmentInvalid { cause } => "invalid enrollment: "@ + cause,
            RoomErrorView::NoAcceptedAnchors { path } => "no accepted anchors in "@ + path
                + " — re-run enroll"@,
            RoomErrorView::TrainingFailed { cause } => "training failed: "@ + cause,
            RoomErrorView::BankUnreadable { path, cause } => "cannot read "@ + path + ": "@ + cause,
            RoomErrorView::BankInvalid { cause } => cause,
            RoomErrorView::NotSerialized { cause } => "serialize: "@ + cause,
            RoomErrorView::CannotWrite { path, cause } => "cannot write "@ + path + ": "@ + cause,
        }
    }
}

/// What a failure at `subject` is called: `what`, the subject, a colon and the cause.
fn failure_text(what: &str, subject: &str, cause: &str) -> (r: String)
    ensures
        r@ == what@ + subject@ + ": "@ + cause@,
{
    let mut s = what.to_owned();
    s.append(subject);
    s.append(": ");
    s.append(cause);
    s
}

/// `what`, followed by the cause.
fn cause_text(what: &str, cause: &str) -> (r: String)
    ensures
        r@ == what@ + cause@,
{
    let mut s = what.to_owned();
    s.append(cause);
    s
}

impl RoomError {
    /// Writes the failure out.
    pub fn message(&self) -> (r: String)
        ensures
            r@ == self@.text(),
    {
        match self {
            RoomError::BaselineUnreadable { path, cause } => {
                let mut s = failure_text("cannot read baseline ", path.as_str(), cause.as_str());
                s.append(" — run `calibrate` first");
                s
            },
            RoomError::BaselineInvalid { path, cause } => failure_text(
                "invalid baseline ",
                path.as_str(),
                cause.as_str(),
            ),
            RoomError::CannotBind { addr, cause } => failure_text(
                "cannot bind ",
                addr.as_str(),
                cause.as_str(),
            ),
            RoomError::EnrollmentUnreadable { path, cause } => {
                let mut s = failure_text("cannot read ", path.as_str(), cause.as_str());
                s.append(" — run `enroll` first");
                s
            },
            RoomError::EnrollmentInvalid { cause } => cause_text(
                "invalid enrollment: ",
                cause.as_str(),
            ),
            RoomError::NoAcceptedAnchors { path } => {
                let mut s = cause_text("no accepted anchors in ", path.as_str());
                s.append(" — re-run enroll");
                s
            },
            RoomError::TrainingFailed { cause } => cause_text("training failed: ", cause.as_str()),
            RoomError::BankUnreadable { path, cause } => failure_text(
                "cannot read ",
                path.as_str(),
                cause.as_str(),
            ),
            RoomError::BankInvalid { cause } => cause.clone(),
            RoomError::NotSerialized { cause } => cause_text("serialize: ", cause.as_str()),
            RoomError::CannotWrite { path, cause } => failure_text(
                "cannot write ",
                path.as_str(),
                cause.as_str(),
            ),
        }
    }
}

/// How loading a file went: it could not be read, it was read but made no sense, or it gave a
/// value.
#[derive(Debug)]
pub enum Loaded<T> {
    Unreadable(String),
    Invalid(String),
    Value(T),
}

/// Takes the baseline that was loaded from `path`.
pub fn load_baseline<B>(path: &str, loaded: Loaded<B>) -> (r: Result<B, RoomError>)
    ensures
        match loaded {
            Loaded::Unreadable(e) => r is Err && r->Err_0@ == (RoomErrorView::BaselineUnreadable {
                path: path@,
                cause: e@,
            }),
            Loaded::Invalid(e) => r is Err && r->Err_0@ == (RoomErrorView::BaselineInvalid {
                path: path@,
                cause: e@,
            }),
            Loaded::Value(b) => r == Ok::<B, RoomError>(b),
        },
{
    match loaded {
        Loaded::Unreadable(cause) => Err(
            RoomError::BaselineUnreadable { path: path.to_owned(), cause },
        ),
        Loaded::Invalid(cause) => Err(RoomError::BaselineInvalid { path: path.to_owned(), cause }),
        Loaded::Value(b) => Ok(b),
    }
}

/// Takes the specialist bank that was loaded from `path`.
pub fn load_bank<B>(path: &str, loaded: Loaded<B>) -> (r: Result<B, RoomError>)
    ensures
        match loaded {
            Loaded::Unreadable(e) => r is Err && r->Err_0@ == (RoomErrorView::BankUnreadable {
                path: path@,
                cause: e@,
            }),
            Loaded::Invalid(e) => r is Err && r->Err_0@ == (RoomErrorView::BankInvalid {
                cause: e@,
            }),
            Loaded::Value(b) => r == Ok::<B, RoomError>(b),
        },
{
    match loaded {
        Loaded::Unreadable(cause) => Err(
            RoomError::BankUnreadable { path: path.to_owned(), cause },
        ),
        Loaded::Invalid(cause) => Err(RoomError::BankInvalid { cause }),
        Loaded::Value(b) => Ok(b),
    }
}

/// Takes the enrollment that `train-room` was given, and refuses one in which no anchor was
/// accepted: there is nothing to train on.
pub fn train_room<R, F, S>(
    args: &TrainRoomArgs,
    loaded: Loaded<EnrollmentData<R, F, S>>,
) -> (r: Result<EnrollmentData<R, F, S>, RoomError>)
    ensures
        match loaded {
            Loaded::Unreadable(e) => r is Err && r->Err_0@ == (
            RoomErrorView::EnrollmentUnreadable { path: args.enrollment@, cause: e@ }),
            Loaded::Invalid(e) => r is Err && r->Err_0@ == (RoomErrorView::EnrollmentInvalid {
                cause: e@,
            }),
            Loaded::Value(data) => if data.anchors@.len() == 0 {
                r is Err && r->Err_0@ == (RoomErrorView::NoAcceptedAnchors {
                    path: args.enrollment@,
                })
            } else {
                r == Ok::<EnrollmentData<R, F, S>, RoomError>(data)
            },
        },
{
    match loaded {
        Loaded::Unreadable(cause) => Err(
            RoomError::EnrollmentUnreadable { path: args.enrollment.clone(), cause },
        ),
        Loaded::Invalid(cause) => Err(RoomError::EnrollmentInvalid { cause }),
        Loaded::Value(data) => {
            if data.anchors.len() == 0 {
                Err(RoomError::NoAcceptedAnchors { path: args.enrollment.clone() })
            } else {
                Ok(data)
            }
        },
    }
}

/// What training goes by.
#[derive(Debug)]
pub struct TrainingInput<F> {
    pub room_id: String,
    pub baseline_id: String,
    pub anchors: Vec<F>,
}

/// Picks what training goes by out of an enrollment; its sample rate and the log of its session
/// play no part.
pub fn training_input<R, F, S>(data: EnrollmentData<R, F, S>) -> (r: TrainingInput<F>)
    ensures
        r.room_id == data.room_id,
        r.baseline_id == data.baseline_id,
        r.anchors == data.anchors,
{
    TrainingInput {
        room_id: data.room_id,
        baseline_id: data.baseline_id,
        anchors: data.anchors,
    }
}

/// What is told about a specialist bank.
#[derive(Debug)]
pub struct BankSummary {
    pub room_id: String,
    pub baseline_id: String,
    pub trained_at_unix_s: i64,
    pub anchor_count: u64,
    /// The kinds of specialists that were trained, by name.
    pub trained_kinds: Vec<String>,
}

/// The baseline that the readings of a bank are judged against: the one it was trained on.
pub fn inference_baseline(bank: &BankSummary) -> (r: String)
    ensures
        r@ == bank.baseline_id@,
{
    bank.baseline_id.clone()
}

/// The line that tells what was trained.
pub open spec fn trained_line(bank: BankSummary, output: Seq<char>) -> Seq<char> {
    "[train-room] room='"@ + bank.room_id@ + "' trained "@ + crate::text::decimal(
        bank.trained_kinds@.len(),
    ) + " specialists from "@ + crate::text::decimal(bank.anchor_count as nat) + " anchors → "@
        + output
}

/// The line for one kind of specialist.
pub open spec fn kind_line(kind: Seq<char>) -> Seq<char> {
    "[train-room]   • "@ + kind
}

/// The lines that tell what was trained: one on the bank, then one for each kind of specialist.
pub fn training_report(args: &TrainRoomArgs, bank: &BankSummary) -> (r: Vec<String>)
    ensures
        crate::text::texts(r@) == seq![trained_line(*bank, args.output@)] + crate::text::texts(
            bank.trained_kinds@,
        ).map_values(|kind: Seq<char>| kind_line(kind)),
{
    let mut s = "[train-room] room='".to_owned();
    s.append(bank.room_id.as_str());
    s.append("' trained ");
    let kinds = decimal_text(bank.trained_kinds.len() as u64);
    s.append(kinds.as_str());
    s.append(" specialists from ");
    let anchors = decimal_text(bank.anchor_count);
    s.append(anchors.as_str());
    s.append(" anchors → ");
    s.append(args.output.as_str());
    let mut lines: Vec<String> = Vec::new();
    lines.push(s);
    let mut i: usize = 0;
    while i < bank.trained_kinds.len()
        invariant
            i <= bank.trained_kinds.len(),
            lines@.len() == i + 1,
            lines@[0]@ == trained_line(*bank, args.output@),
            forall|j: int|
                0 <= j < i ==> (#[trigger] lines@[j + 1])@ == kind_line(bank.trained_kinds@[j]@),
        decreases bank.trained_kinds.len() - i,
    {
        let ghost before = lines@;
        lines.push(cause_text("[train-room]   • ", bank.trained_kinds[i].as_str()));
        assert(forall|j: int| 0 <= j < i ==> #[trigger] lines@[j + 1] == before[j + 1]);
        i = i + 1;
    }
    let ghost expected = seq![trained_line(*bank, args.output@)] + crate::text::texts(
        bank.trained_kinds@,
    ).map_values(|kind: Seq<char>| kind_line(kind));
    assert forall|j: int| 0 <= j < lines@.len() implies (#[trigger] lines@[j])@
        == expected[j] by {
        if j > 0 {
            assert(lines@[(j - 1) + 1]@ == kind_line(bank.trained_kinds@[j - 1]@));
        }
    }
    assert(crate::text::texts(lines@) =~= expected);
    lines
}

/// A list of names the way Rust's `{:?}` prints one.
pub open spec fn listed(names: Seq<Seq<char>>) -> Seq<char> {
    "["@ + crate::text::joined(names, ", "@) + "]"@
}

/// The lines of a status report.
pub open spec fn status_lines(bank: BankSummary) -> Seq<Seq<char>> {
    seq![
        "room:        "@ + bank.room_id@,
        "baseline:    "@ + bank.baseline_id@,
        "trained_at:  "@ + crate::text::signed_decimal(bank.trained_at_unix_s as int),
        "anchors:     "@ + crate::text::decimal(bank.anchor_count as nat),
        "specialists: "@ + listed(crate::text::texts(bank.trained_kinds@)),
    ]
}

/// The lines that tell how a specialist bank stands.
pub fn room_status(bank: &BankSummary) -> (r: Vec<String>)
    ensures
        crate::text::texts(r@) == status_lines(*bank),
{
    let mut lines: Vec<String> = Vec::new();
    lines.push(cause_text("room:        ", bank.room_id.as_str()));
    lines.push(cause_text("baseline:    ", bank.baseline_id.as_str()));
    let at = signed_text(bank.trained_at_unix_s);
    lines.push(cause_text("trained_at:  ", at.as_str()));
    let anchors = decimal_text(bank.anchor_count);
    lines.push(cause_text("anchors:     ", anchors.as_str()));
    let mut list = "[".to_owned();
    let names = joined_text(&bank.trained_kinds, ", ");
    list.append(names.as_str());
    list.append("]");
    lines.push(cause_text("specialists: ", list.as_str()));
    assert(crate::text::texts(lines@) =~= status_lines(*bank));
    lines
}

} // verus!
