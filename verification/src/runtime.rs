//! Runtimes: sums of track durations, shown as minutes and seconds.

use crate::error::Error;
use crate::model::SimplifiedTrack;
use crate::text::{decimal_text, padded_text, push_decimal, push_padded};
use chrono::Duration;
use vstd::prelude::*;

verus! {

/// The millisecond counts that a `chrono::Duration` can hold.
pub open spec fn in_range(millis: int) -> bool {
    -i64::MAX <= millis <= i64::MAX
}

/// `a / b` rounded toward zero, for a positive `b`.
pub open spec fn toward_zero(a: int, b: int) -> int {
    if a >= 0 {
        a / b
    } else {
        -((-a) / b)
    }
}

/// The whole seconds in `millis` milliseconds.
pub open spec fn whole_seconds(millis: int) -> int {
    toward_zero(millis, 1000)
}

/// The whole minutes in `millis` milliseconds.
pub open spec fn whole_minutes(millis: int) -> int {
    toward_zero(whole_seconds(millis), 60)
}

/// The seconds that are left over the whole minutes.
pub open spec fn odd_seconds(millis: int) -> int {
    whole_seconds(millis) - whole_minutes(millis) * 60
}

/// A runtime as it is shown: minutes, a colon, and the left-over seconds on two places.
pub open spec fn runtime_text(millis: int) -> Seq<char> {
    decimal_text(whole_minutes(millis)) + seq![':'] + padded_text(odd_seconds(millis))
}

/// Of a duration that is not negative, the seconds shown are the whole seconds modulo
/// sixty, and the minutes are not cut off at the hour.
pub proof fn lemma_seconds_modulo_sixty(millis: int)
    requires
        millis >= 0,
    ensures
        odd_seconds(millis) == (millis / 1000) % 60,
        whole_minutes(millis) == millis / 60_000,
        0 <= odd_seconds(millis) < 60,
{
}

/// The durations of `tracks`, added up.
pub open spec fn total_millis(tracks: Seq<SimplifiedTrack>) -> int
    decreases tracks.len(),
{
    if tracks.len() == 0 {
        0
    } else {
        total_millis(tracks.drop_last()) + tracks.last().duration_ms
    }
}

/// Every duration of `tracks`, and every sum met while adding them up in order, is in range.
pub open spec fn summable(tracks: Seq<SimplifiedTrack>) -> bool {
    forall|k: int|
        0 <= k < tracks.len() ==> in_range((#[trigger] tracks[k]).duration_ms as int)
            && in_range(total_millis(tracks.take(k + 1)))
}

/// `chrono::Duration::checked_add` on two durations given in milliseconds, made by
/// `Duration::try_milliseconds` and read back by `num_milliseconds`: the sum, or `None`
/// where one of the three is not a millisecond count that a `Duration` holds.
#[verifier::external_body]
fn checked_add_millis(a: i64, b: i64) -> (sum: Option<i64>)
    ensures
        sum == (if in_range(a as int) && in_range(b as int) && in_range(a + b) {
            Some((a + b) as i64)
        } else {
            None
        }),
{
    let left = Duration::try_milliseconds(a)?;
    let right = Duration::try_milliseconds(b)?;
    Some(left.checked_add(&right)?.num_milliseconds())
}

/// `chrono::Duration::num_minutes` of a duration of `millis` milliseconds: the whole
/// minutes, rounded toward zero.
#[verifier::external_body]
fn num_minutes(millis: i64) -> (minutes: i64)
    requires
        in_range(millis as int),
    ensures
        minutes == whole_minutes(millis as int),
{
    Duration::milliseconds(millis).num_minutes()
}

/// `chrono::Duration::num_seconds` of a duration of `millis` milliseconds: the whole
/// seconds, rounded toward zero.
#[verifier::external_body]
fn num_seconds(millis: i64) -> (seconds: i64)
    requires
        in_range(millis as int),
    ensures
        seconds == whole_seconds(millis as int),
{
    Duration::milliseconds(millis).num_seconds()
}

/// Appends the runtime `millis` to `out`, as minutes and seconds.
pub(crate) fn push_runtime(out: &mut String, millis: i64)
    requires
        in_range(millis as int),
    ensures
        final(out)@ == old(out)@ + runtime_text(millis as int),
{
    let minutes: i64 = num_minutes(millis);
    let seconds: i64 = num_seconds(millis);
    let rest: i64 = seconds - minutes * 60;
    proof {
        reveal_strlit(":");
    }
    push_decimal(out, minutes);
    out.append(":");
    push_padded(out, rest);
    assert(out@ =~= old(out)@ + runtime_text(millis as int));
}

/// Writes the runtime `millis` as minutes and seconds.
///
/// Fails with `Error::RuntimeOutOfRange` exactly when `millis` is no duration.
pub fn runtime_str(millis: i64) -> (shown: Result<String, Error>)
    ensures
        shown is Ok <==> in_range(millis as int),
        shown matches Ok(out) ==> out@ == runtime_text(millis as int),
        shown matches Err(e) ==> e == Error::RuntimeOutOfRange,
{
    if millis == i64::MIN {
        return Err(Error::RuntimeOutOfRange);
    }
    let mut out = String::new();
    push_runtime(&mut out, millis);
    Ok(out)
}

/// The total runtime of `tracks` in milliseconds.
///
/// Fails with `Error::RuntimeOutOfRange` exactly when the durations cannot be added up
/// in order without leaving the range of a duration.
pub fn total_runtime(tracks: &Vec<SimplifiedTrack>) -> (total: Result<i64, Error>)
    ensures
        total == (if summable(tracks@) {
            Ok::<i64, Error>(total_millis(tracks@) as i64)
        } else {
            Err::<i64, Error>(Error::RuntimeOutOfRange)
        }),
        summable(tracks@) ==> in_range(total_millis(tracks@)),
{
    let mut sum: i64 = 0;
    let mut i: usize = 0;
    while i < tracks.len()
        invariant
            0 <= i <= tracks.len(),
            sum == total_millis(tracks@.take(i as int)),
            in_range(sum as int),
            forall|k: int|
                0 <= k < i ==> in_range((#[trigger] tracks@[k]).duration_ms as int)
                    && in_range(total_millis(tracks@.take(k + 1))),
        decreases tracks.len() - i,
    {
        proof {
            assert(tracks@.take(i + 1).drop_last() =~= tracks@.take(i as int));
        }
        match checked_add_millis(sum, tracks[i].duration_ms) {
            Some(next) => {
                sum = next;
            },
            None => {
                return Err(Error::RuntimeOutOfRange);
            },
        }
        i = i + 1;
    }
    proof {
        assert(tracks@.take(i as int) =~= tracks@);
    }
    Ok(sum)
}

} // verus!
