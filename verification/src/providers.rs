//! Random value providers: single randomized values (integers in a range,
//! biased booleans, person names, short sentences, recent timestamps) that
//! the feature and strategy generators combine into records.

use vstd::prelude::*;

use fake::Fake;
use rand::Rng;

verus! {

/// Seconds in one day.
pub const SECONDS_PER_DAY: i64 = 86400;

/// Seconds in the 365-day window that creation timestamps fall in.
pub const SECONDS_PER_YEAR: i64 = 365 * 86400;

/// Relies on rand's `Rng::gen_range` on the thread-local generator: it
/// returns a uniformly random value in `[lo, hi)` and panics when the range
/// is empty, so an empty range is excluded here.
#[verifier::external_body]
pub(crate) fn random_in_range(lo: usize, hi: usize) -> (r: usize)
    requires
        lo < hi,
    ensures
        lo <= r < hi,
{
    rand::thread_rng().gen_range(lo..hi)
}

/// Relies on fake's `FirstName` faker: it draws a name from the locale's
/// fixed list, every entry of which is a non-empty string.
#[verifier::external_body]
pub(crate) fn random_person_name() -> (r: String)
    ensures
        r@.len() >= 1,
{
    fake::faker::name::en::FirstName().fake()
}

/// Relies on fake's `Sentence` faker: it joins a random number of words,
/// drawn from `[min_words, max_words)`, and appends a period, so the result
/// is never empty. The word-count range must be non-empty, since the faker
/// draws from it with `Rng::gen_range`, which panics on an empty range.
#[verifier::external_body]
pub(crate) fn random_sentence(min_words: usize, max_words: usize) -> (r: String)
    requires
        min_words < max_words,
    ensures
        r@.len() >= 1,
{
    fake::faker::lorem::en::Sentence(min_words..max_words).fake()
}

/// Relies on chrono's `Utc::now` and `DateTime::timestamp`: the number of
/// non-leap seconds since the Unix epoch at the moment of the call. Nothing
/// about the value is promised; it depends on the system clock.
#[verifier::external_body]
pub(crate) fn now_seconds() -> i64 {
    chrono::Utc::now().timestamp()
}

/// A boolean that is true with probability `percent_true` per cent.
pub fn biased_bool(percent_true: usize) -> (r: bool)
    requires
        percent_true <= 100,
    ensures
        percent_true == 0 ==> !r,
        percent_true == 100 ==> r,
{
    random_in_range(0, 100) < percent_true
}

/// The instant `days` whole days before `now`, both in seconds since the
/// Unix epoch. Where the subtraction would fall below `i64::MIN` — only
/// possible for a clock reading near the far end of the representable
/// range — `now` itself is returned, which still lies in the window.
pub fn timestamp_days_back(now: i64, days: usize) -> (r: i64)
    requires
        days < 365,
    ensures
        now - SECONDS_PER_YEAR <= r <= now,
        now >= i64::MIN + SECONDS_PER_YEAR ==> r == now - (days as int) * SECONDS_PER_DAY,
        now < i64::MIN + SECONDS_PER_YEAR ==> r == now,
{
    if now >= i64::MIN + SECONDS_PER_YEAR {
        now - (days as i64) * SECONDS_PER_DAY
    } else {
        now
    }
}

/// A timestamp a uniformly random whole number of days in `[0, 365)` before
/// `now`; never later than `now` and never more than 365 days before it.
pub fn random_recent_timestamp(now: i64) -> (r: i64)
    ensures
        now - SECONDS_PER_YEAR <= r <= now,
        exists|d: int| 0 <= d < 365 && r == now - #[trigger] (d * SECONDS_PER_DAY),
{
    let days = random_in_range(0, 365);
    let r = timestamp_days_back(now, days);
    proof {
        if r != now - (days as int) * SECONDS_PER_DAY {
            assert(r == now - 0int * SECONDS_PER_DAY);
        }
    }
    r
}

} // verus!
