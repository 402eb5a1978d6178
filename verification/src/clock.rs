//! Unix time.
use vstd::prelude::*;

verus! {

/// `std::time::SystemTime`, a reading of the clock.
#[verifier::external_type_specification]
#[verifier::external_body]
pub struct ExSystemTime(std::time::SystemTime);

/// `std::time::SystemTimeError`, for a reading that lies before another.
#[verifier::external_type_specification]
#[verifier::external_body]
pub struct ExSystemTimeError(std::time::SystemTimeError);

/// Where a reading of the clock lies, in nanoseconds from the Unix epoch; before it, the number is
/// negative.
pub uninterp spec fn epoch_nanos(t: std::time::SystemTime) -> int;

/// The length of a span of time in nanoseconds.
pub uninterp spec fn span_nanos(d: std::time::Duration) -> nat;

/// `std::time::SystemTime::now`: some reading of the clock. Which one is left unsaid.
#[verifier::external_body]
fn read_clock() -> (t: std::time::SystemTime) {
    std::time::SystemTime::now()
}

/// `std::time::SystemTime::duration_since` with the Unix epoch: the time from the epoch to `t`, and
/// an error exactly where `t` lies before it.
#[verifier::external_body]
fn since_epoch(t: std::time::SystemTime) -> (r: Result<
    std::time::Duration,
    std::time::SystemTimeError,
>)
    ensures
        r is Ok <==> epoch_nanos(t) >= 0,
        r matches Ok(d) ==> span_nanos(d) == epoch_nanos(t),
{
    t.duration_since(std::time::UNIX_EPOCH)
}

/// `std::time::Duration::as_secs`: the whole seconds of a span, without the fraction.
#[verifier::external_body]
fn as_seconds(d: std::time::Duration) -> (r: u64)
    ensures
        r == span_nanos(d) / 1_000_000_000,
{
    d.as_secs()
}

/// A count of seconds as a signed 64-bit number: the residue of `secs` modulo 2^64 that lies in
/// the range of an `i64`.
pub open spec fn signed_seconds(secs: u64) -> int {
    if secs <= i64::MAX {
        secs as int
    } else {
        secs - 0x1_0000_0000_0000_0000
    }
}

/// The Unix time for a clock reading that lies `elapsed` seconds past the epoch, or before it.
pub open spec fn unix_time(elapsed: Option<u64>) -> int {
    match elapsed {
        Some(secs) => signed_seconds(secs),
        None => 0,
    }
}

/// Turns what the clock showed into a Unix time; a clock before the epoch counts as the epoch.
pub fn unix_seconds(elapsed: Option<u64>) -> (r: i64)
    ensures
        r == unix_time(elapsed),
{
    match elapsed {
        Some(secs) => {
            proof {
                assert(secs > 0x7fff_ffff_ffff_ffff ==> (secs as i64) == secs
                    - 0x1_0000_0000_0000_0000) by (bit_vector);
            }
            secs as i64
        },
        None => 0,
    }
}

/// The Unix time for a clock reading `nanos` nanoseconds past the epoch: fractions of a second are
/// dropped, and a reading before the epoch counts as the epoch.
pub open spec fn reading_time(nanos: int) -> int {
    if nanos < 0 {
        unix_time(None)
    } else {
        unix_time(Some((nanos / 1_000_000_000) as u64))
    }
}

/// The present Unix time in seconds: that of some reading of the clock.
pub fn now_unix() -> (r: i64)
    ensures
        exists|t: std::time::SystemTime| r == reading_time(#[trigger] epoch_nanos(t)),
{
    let t = read_clock();
    let r: i64 = match since_epoch(t) {
        Ok(d) => unix_seconds(Some(as_seconds(d))),
        Err(_) => unix_seconds(None),
    };
    assert(r == reading_time(epoch_nanos(t)));
    r
}

/// A Unix time is never negative, and a later reading never gives a smaller one, as long as the
/// seconds fit a signed 64-bit number.
pub proof fn law_later_reading_is_no_smaller(earlier: int, later: int)
    requires
        earlier <= later,
        later / 1_000_000_000 <= i64::MAX,
    ensures
        0 <= reading_time(earlier) <= reading_time(later),
{
}

/// Readings that differ only in the fraction of a second give one Unix time.
pub proof fn law_fractions_are_dropped(seconds: u64, fraction: int)
    requires
        0 <= fraction < 1_000_000_000,
    ensures
        reading_time(seconds * 1_000_000_000 + fraction) == signed_seconds(seconds),
{
}

/// A count of seconds keeps its value modulo 2^64, and no count stands for the epoch.
pub proof fn law_seconds_keep_their_value(elapsed: Option<u64>, r: i64)
    requires
        call_ensures(unix_seconds, (elapsed,), r),
    ensures
        elapsed matches Some(secs) ==> (r - secs) % 0x1_0000_0000_0000_0000 == 0,
        elapsed matches Some(secs) && secs <= i64::MAX ==> r == elapsed->Some_0,
        elapsed is None ==> r == 0,
{
}

/// The present time is that of a reading of the clock: 0 where it lies before the epoch, else the
/// whole seconds since then.
pub proof fn law_now_is_the_whole_seconds_of_a_reading(r: i64)
    requires
        call_ensures(now_unix, (), r),
    ensures
        exists|t: std::time::SystemTime|
            {
                &&& (#[trigger] epoch_nanos(t)) < 0 ==> r == 0
                &&& 0 <= epoch_nanos(t) < 1_000_000_000 * 0x8000_0000_0000_0000 ==> r * 1_000_000_000
                    <= epoch_nanos(t) < (r + 1) * 1_000_000_000
            },
{
    let t = choose|t: std::time::SystemTime| r == reading_time(#[trigger] epoch_nanos(t));
    assert(epoch_nanos(t) < 0 ==> r == 0);
}

} // verus!
