//! What the commands say, in the words that reach the reader.
use vstd::prelude::*;
use vstd::utf8::*;

use crate::args::{EnrollArgs, RoomWatchArgs, TrainRoomArgs};
use crate::ending::{
    bound, enroll_result, open_watch, saved_bank, saved_enrollment, training_result, Saved,
};
use crate::enroll::{closing_text, opening_lines, EnrollmentData};
use crate::room::{
    load_bank, load_baseline, room_status, train_room, training_report, BankSummary, Loaded,
    RoomError,
};
use crate::text::{decimal, joined_text, signed_number, signed_text};

verus! {

/// Every failure names what failed, on what, and why; a bank that makes no sense speaks for itself.
pub proof fn law_failures_in_words(e: RoomError, r: String)
    requires
        call_ensures(RoomError::message, (&e,), r),
    ensures
        e matches RoomError::BaselineUnreadable { path, cause } ==> r@ == "cannot read baseline "@
            + path@ + ": "@ + cause@ + " — run `calibrate` first"@,
        e matches RoomError::BaselineInvalid { path, cause } ==> r@ == "invalid baseline "@ + path@
            + ": "@ + cause@,
        e matches RoomError::CannotBind { addr, cause } ==> r@ == "cannot bind "@ + addr@ + ": "@
            + cause@,
        e matches RoomError::EnrollmentUnreadable { path, cause } ==> r@ == "cannot read "@ + path@
            + ": "@ + cause@ + " — run `enroll` first"@,
        e matches RoomError::EnrollmentInvalid { cause } ==> r@ == "invalid enrollment: "@ + cause@,
        e matches RoomError::NoAcceptedAnchors { path } ==> r@ == "no accepted anchors in "@ + path@
            + " — re-run enroll"@,
        e matches RoomError::TrainingFailed { cause } ==> r@ == "training failed: "@ + cause@,
        e matches RoomError::BankUnreadable { path, cause } ==> r@ == "cannot read "@ + path@
            + ": "@ + cause@,
        e matches RoomError::BankInvalid { cause } ==> r@ == cause@,
        e matches RoomError::NotSerialized { cause } ==> r@ == "serialize: "@ + cause@,
        e matches RoomError::CannotWrite { path, cause } ==> r@ == "cannot write "@ + path@ + ": "@
            + cause@,
{
}

/// A baseline that loaded is handed on; else the failure names the file and the cause, and the
/// command to run where the file is missing.
pub proof fn law_baseline_or_its_failure<B>(
    path: &str,
    loaded: Loaded<B>,
    r: Result<B, RoomError>,
    said: String,
)
    requires
        call_ensures(load_baseline::<B>, (path, loaded), r),
        r matches Err(e) ==> call_ensures(RoomError::message, (&e,), said),
    ensures
        loaded matches Loaded::Value(b) ==> (r matches Ok(given) && given == b),
        loaded matches Loaded::Unreadable(cause) ==> r is Err && said@ == "cannot read baseline "@
            + path@ + ": "@ + cause@ + " — run `calibrate` first"@,
        loaded matches Loaded::Invalid(cause) ==> r is Err && said@ == "invalid baseline "@ + path@
            + ": "@ + cause@,
{
}

/// A bank that loaded is handed on; else the failure names the file and the cause, or is the cause
/// alone where the file was read.
pub proof fn law_bank_or_its_failure<B>(
    path: &str,
    loaded: Loaded<B>,
    r: Result<B, RoomError>,
    said: String,
)
    requires
        call_ensures(load_bank::<B>, (path, loaded), r),
        r matches Err(e) ==> call_ensures(RoomError::message, (&e,), said),
    ensures
        loaded matches Loaded::Value(b) ==> (r matches Ok(given) && given == b),
        loaded matches Loaded::Unreadable(cause) ==> r is Err && said@ == "cannot read "@ + path@
            + ": "@ + cause@,
        loaded matches Loaded::Invalid(cause) ==> r is Err && said@ == cause@,
{
}

/// An enrollment is trained on exactly if it loaded and holds an anchor; else the failure says what
/// is missing.
pub proof fn law_enrollment_or_its_failure<R, F, S>(
    args: TrainRoomArgs,
    loaded: Loaded<EnrollmentData<R, F, S>>,
    r: Result<EnrollmentData<R, F, S>, RoomError>,
    said: String,
)
    requires
        call_ensures(train_room::<R, F, S>, (&args, loaded), r),
        r matches Err(e) ==> call_ensures(RoomError::message, (&e,), said),
    ensures
        loaded matches Loaded::Value(data) && data.anchors@.len() > 0 ==> (r matches Ok(given)
            && given == loaded->Value_0),
        loaded matches Loaded::Value(data) && data.anchors@.len() == 0 ==> r is Err && said@
            == "no accepted anchors in "@ + args.enrollment@ + " — re-run enroll"@,
        loaded matches Loaded::Unreadable(cause) ==> r is Err && said@ == "cannot read "@
            + args.enrollment@ + ": "@ + cause@ + " — run `enroll` first"@,
        loaded matches Loaded::Invalid(cause) ==> r is Err && said@ == "invalid enrollment: "@
            + cause@,
{
}

/// A socket that was bound is handed on; else the failure names the address and the cause.
pub proof fn law_socket_or_its_failure<K>(
    addr: &str,
    bind: Result<K, String>,
    r: Result<K, RoomError>,
    said: String,
)
    requires
        call_ensures(bound::<K>, (addr, bind), r),
        r matches Err(e) ==> call_ensures(RoomError::message, (&e,), said),
    ensures
        bind matches Ok(socket) ==> (r matches Ok(given) && given == socket),
        bind matches Err(cause) ==> r is Err && said@ == "cannot bind "@ + addr@ + ": "@ + cause@,
{
}

/// Saving succeeds where the file was written; a file that was not written is named with the cause,
/// and a value that could not be put into text gives its cause.
pub proof fn law_saved_or_its_failure(
    path: &str,
    saved: Saved,
    enrollment: Result<(), RoomError>,
    bank: Result<(), RoomError>,
    enrollment_said: String,
    bank_said: String,
)
    requires
        call_ensures(saved_enrollment, (path, saved), enrollment),
        call_ensures(saved_bank, (path, saved), bank),
        enrollment matches Err(e) ==> call_ensures(RoomError::message, (&e,), enrollment_said),
        bank matches Err(e) ==> call_ensures(RoomError::message, (&e,), bank_said),
    ensures
        saved is Done ==> enrollment is Ok && bank is Ok,
        saved matches Saved::Unwritten(cause) ==> {
            &&& enrollment is Err && enrollment_said@ == "cannot write "@ + path@ + ": "@ + cause@
            &&& bank is Err && bank_said@ == "cannot write "@ + path@ + ": "@ + cause@
        },
        saved matches Saved::Unencoded(cause) ==> {
            &&& enrollment is Err && enrollment_said@ == "serialize: "@ + cause@
            &&& bank is Err && bank_said@ == cause@
        },
{
}

/// `enroll` succeeds exactly if the baseline loaded, the socket was bound and the file was written;
/// else it says what came first of what went wrong.
pub proof fn law_enroll_says_what_went_wrong<R>(
    args: EnrollArgs<R>,
    how: Loaded<Result<Saved, String>>,
    r: Result<(), RoomError>,
    said: String,
)
    requires
        call_ensures(enroll_result::<R>, (&args, how), r),
        r matches Err(e) ==> call_ensures(RoomError::message, (&e,), said),
    ensures
        r is Ok <==> (how matches Loaded::Value(Ok(Saved::Done))),
        how matches Loaded::Unreadable(cause) ==> said@ == "cannot read baseline "@ + args.baseline@
            + ": "@ + cause@ + " — run `calibrate` first"@,
        how matches Loaded::Invalid(cause) ==> said@ == "invalid baseline "@ + args.baseline@ + ": "@
            + cause@,
        how matches Loaded::Value(Err(cause)) ==> said@ == "cannot bind "@ + (args.bind@ + ":"@
            + decimal(args.udp_port as nat)) + ": "@ + cause@,
        how matches Loaded::Value(Ok(Saved::Unencoded(cause))) ==> said@ == "serialize: "@ + cause@,
        how matches Loaded::Value(Ok(Saved::Unwritten(cause))) ==> said@ == "cannot write "@
            + args.output@ + ": "@ + cause@,
{
}

/// `train-room` succeeds exactly if training did and the bank was written; else it says what went
/// wrong.
pub proof fn law_training_says_what_went_wrong(
    args: TrainRoomArgs,
    how: Result<Saved, String>,
    r: Result<(), RoomError>,
    said: String,
)
    requires
        call_ensures(training_result, (&args, how), r),
        r matches Err(e) ==> call_ensures(RoomError::message, (&e,), said),
    ensures
        r is Ok <==> (how matches Ok(Saved::Done)),
        how matches Err(cause) ==> said@ == "training failed: "@ + cause@,
        how matches Ok(Saved::Unencoded(cause)) ==> said@ == cause@,
        how matches Ok(Saved::Unwritten(cause)) ==> said@ == "cannot write "@ + args.output@ + ": "@
            + cause@,
{
}

/// `room-watch` opens exactly if the bank loaded and the socket was bound, with that bank and that
/// socket; else it says what came first of what went wrong.
pub proof fn law_watch_says_what_went_wrong<R, B, K>(
    args: RoomWatchArgs<R>,
    how: Loaded<(B, Result<K, String>)>,
    r: Result<(B, K), RoomError>,
    said: String,
)
    requires
        call_ensures(open_watch::<R, B, K>, (&args, how), r),
        r matches Err(e) ==> call_ensures(RoomError::message, (&e,), said),
    ensures
        how matches Loaded::Value((bank, Ok(socket))) ==> (r matches Ok(opened) && opened == (
            bank,
            socket,
        )),
        how matches Loaded::Unreadable(cause) ==> r is Err && said@ == "cannot read "@ + args.bank@
            + ": "@ + cause@,
        how matches Loaded::Invalid(cause) ==> r is Err && said@ == cause@,
        how matches Loaded::Value((bank, Err(cause))) ==> r is Err && said@ == "cannot bind "@ + (
        args.bind@ + ":"@ + decimal(args.udp_port as nat)) + ": "@ + cause@,
{
}

/// A status report has five lines: the room, its baseline, when it was trained, how many anchors it
/// was trained on, and the kinds of specialists between brackets.
pub proof fn law_status_tells_the_bank(
    bank: BankSummary,
    r: Vec<String>,
    at: String,
    sep: &str,
    kinds: String,
)
    requires
        call_ensures(room_status, (&bank,), r),
        call_ensures(signed_text, (bank.trained_at_unix_s,), at),
        call_ensures(joined_text, (&bank.trained_kinds, sep), kinds),
        sep@ == ", "@,
    ensures
        r@.len() == 5,
        r@[0]@ == "room:        "@ + bank.room_id@,
        r@[1]@ == "baseline:    "@ + bank.baseline_id@,
        r@[2]@ == "trained_at:  "@ + at@,
        r@[3]@ == "anchors:     "@ + decimal(bank.anchor_count as nat),
        r@[4]@ == "specialists: "@ + ("["@ + kinds@ + "]"@),
{
    crate::text::law_texts_are_the_lines(r@);
    assert(crate::text::texts(r@).len() == 5);
    assert(crate::text::texts(r@)[0] == r@[0]@);
    assert(crate::text::texts(r@)[1] == r@[1]@);
    assert(crate::text::texts(r@)[2] == r@[2]@);
    assert(crate::text::texts(r@)[3] == r@[3]@);
    assert(crate::text::texts(r@)[4] == r@[4]@);
}

/// The third line of a status report reads back as the time of training, and the fourth as the
/// number of anchors.
pub proof fn law_status_numbers_read_back(bank: BankSummary, r: Vec<String>)
    requires
        call_ensures(room_status, (&bank,), r),
    ensures
        r@.len() == 5,
        r@[2]@.subrange(0, 13) == "trained_at:  "@,
        signed_number(r@[2]@.skip(13)) == bank.trained_at_unix_s,
        r@[3]@.subrange(0, 13) == "anchors:     "@,
        crate::text::number(r@[3]@.skip(13)) == bank.anchor_count,
{
    crate::text::law_texts_are_the_lines(r@);
    assert(crate::text::texts(r@).len() == 5);
    reveal_strlit("trained_at:  ");
    reveal_strlit("anchors:     ");
    let at = crate::text::signed_decimal(bank.trained_at_unix_s as int);
    let count = decimal(bank.anchor_count as nat);
    assert(crate::text::texts(r@)[2] == r@[2]@);
    assert(crate::text::texts(r@)[3] == r@[3]@);
    assert(r@[2]@.subrange(0, 13) =~= "trained_at:  "@);
    assert(r@[3]@.subrange(0, 13) =~= "anchors:     "@);
    assert(r@[2]@.skip(13) =~= at);
    assert(r@[3]@.skip(13) =~= count);
    crate::text::lemma_signed_reads_back(bank.trained_at_unix_s as int);
    crate::text::law_decimal_reads_back(bank.anchor_count as nat);
}

/// Banks that were trained at different times, or on different numbers of anchors, have different
/// reports.
pub proof fn law_different_banks_report_differently(
    a: BankSummary,
    b: BankSummary,
    r: Vec<String>,
    s: Vec<String>,
)
    requires
        call_ensures(room_status, (&a,), r),
        call_ensures(room_status, (&b,), s),
    ensures
        a.trained_at_unix_s != b.trained_at_unix_s ==> r@[2]@ != s@[2]@,
        a.anchor_count != b.anchor_count ==> r@[3]@ != s@[3]@,
        a.room_id@ != b.room_id@ ==> r@[0]@ != s@[0]@,
        a.baseline_id@ != b.baseline_id@ ==> r@[1]@ != s@[1]@,
{
    law_status_numbers_read_back(a, r);
    law_status_numbers_read_back(b, s);
    assert(crate::text::texts(r@)[0] == r@[0]@);
    assert(crate::text::texts(r@)[1] == r@[1]@);
    assert(crate::text::texts(s@)[0] == s@[0]@);
    assert(crate::text::texts(s@)[1] == s@[1]@);
    reveal_strlit("room:        ");
    reveal_strlit("baseline:    ");
    assert(r@[0]@.skip(13) =~= a.room_id@);
    assert(s@[0]@.skip(13) =~= b.room_id@);
    assert(r@[1]@.skip(13) =~= a.baseline_id@);
    assert(s@[1]@.skip(13) =~= b.baseline_id@);
}

/// A training report tells the room, how many specialists were trained from how many anchors and
/// where the bank went, and then names each specialist, one to a line and in order.
pub proof fn law_training_is_told(args: TrainRoomArgs, bank: BankSummary, r: Vec<String>)
    requires
        call_ensures(training_report, (&args, &bank), r),
    ensures
        r@.len() == bank.trained_kinds@.len() + 1,
        r@[0]@ == "[train-room] room='"@ + bank.room_id@ + "' trained "@ + decimal(
            bank.trained_kinds@.len(),
        ) + " specialists from "@ + decimal(bank.anchor_count as nat) + " anchors → "@
            + args.output@,
        forall|i: int|
            0 <= i < bank.trained_kinds@.len() ==> (#[trigger] r@[i + 1])@ == "[train-room]   • "@
                + bank.trained_kinds@[i]@,
{
    let all = crate::text::texts(r@);
    assert(all.len() == r@.len());
    assert(all[0] == r@[0]@);
    assert forall|i: int| 0 <= i < bank.trained_kinds@.len() implies (#[trigger] r@[i + 1])@
        == "[train-room]   • "@ + bank.trained_kinds@[i]@ by {
        assert(all[i + 1] == r@[i + 1]@);
    }
}

/// An enrollment opens with its room, the first eight bytes of the identifier of its baseline and
/// its address, and then says what is about to happen.
pub proof fn law_enrollment_opens_with_room_and_baseline<R>(
    args: EnrollArgs<R>,
    baseline_id: &str,
    short: Seq<char>,
    r: Vec<String>,
)
    requires
        call_ensures(opening_lines::<R>, (&args, baseline_id), r),
        encode_utf8(short) == encode_utf8(baseline_id@).subrange(0, 8),
    ensures
        r@.len() == 2,
        r@[0]@ == "[enroll] room='"@ + args.room_id@ + "' baseline="@ + short + " on udp://"@ + (
        args.bind@ + ":"@ + decimal(args.udp_port as nat)),
        r@[1]@ == "[enroll] follow each prompt; bad captures are re-prompted."@,
{
    encode_utf8_decode_utf8(short);
    let all = crate::text::texts(r@);
    assert(all.len() == 2);
    assert(all[0] == r@[0]@);
    assert(all[1] == r@[1]@);
}

/// An enrollment ends with how many anchors were accepted of how many, and where the file went.
pub proof fn law_enrollment_ends_with_its_count<R>(
    args: EnrollArgs<R>,
    got: u64,
    total: u64,
    r: String,
)
    requires
        call_ensures(closing_text::<R>, (&args, got, total), r),
    ensures
        r@ == "\n[enroll] done: "@ + decimal(got as nat) + "/"@ + decimal(total as nat)
            + " anchors accepted → "@ + args.output@ + " (next: `train-room`)"@,
{
}

} // verus!
