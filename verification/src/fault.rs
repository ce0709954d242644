//! The fault injector: with it switched on, a request in twenty fails, and
//! every other request is held back for a while before it is served.

use vstd::prelude::*;
use vstd::set_lib::{lemma_int_range, set_int_range};

use crate::random::draw;

verus! {

/// The number of values a draw for the injector can take: 0 up to 99.
pub const DRAW_COUNT: u64 = 100;

/// The draws below this number fail the request.
pub const FAILING_DRAWS: u64 = 5;

/// The draws below this number, 60 in all, pick the short delay.
pub const SHORT_DRAWS: u64 = 60;

/// The draws from `SHORT_DRAWS` up to below this number, 10 in all, pick the
/// long delay; the 30 draws from here on pick a delay drawn at random.
pub const LONG_DRAWS: u64 = 70;

/// The short delay, in milliseconds.
pub const SHORT_DELAY_MS: u64 = 100;

/// The long delay, in milliseconds.
pub const LONG_DELAY_MS: u64 = 5000;

/// A delay drawn at random is at least this many milliseconds.
pub const SPREAD_LOW_MS: u64 = 100;

/// A delay drawn at random is less than this many milliseconds.
pub const SPREAD_HIGH_MS: u64 = 1000;

/// The three ways a delay is chosen.
#[derive(Clone, Copy, Debug, PartialEq, Eq, Structural)]
pub enum DelayBucket {
    /// The short delay.
    Short,
    /// The long delay.
    Long,
    /// A delay drawn at random.
    Spread,
}

/// What becomes of a request before its handler runs.
#[derive(Clone, Copy, Debug, PartialEq, Eq, Structural)]
pub enum Admission {
    /// The request is answered with a server error; its handler does not run.
    Reject,
    /// The handler runs after a wait of so many milliseconds.
    Serve { delay_ms: u64 },
}

/// Whether the first draw fails the request.
pub open spec fn is_failing(first: int) -> bool {
    first < FAILING_DRAWS
}

/// The delay bucket that the second draw picks.
pub open spec fn bucket_of(second: int) -> DelayBucket {
    if second < SHORT_DRAWS {
        DelayBucket::Short
    } else if second < LONG_DRAWS {
        DelayBucket::Long
    } else {
        DelayBucket::Spread
    }
}

/// The delay in milliseconds for a bucket, `spread` being the delay drawn at
/// random.
pub open spec fn delay_of(bucket: DelayBucket, spread: u64) -> u64 {
    match bucket {
        DelayBucket::Short => SHORT_DELAY_MS,
        DelayBucket::Long => LONG_DELAY_MS,
        DelayBucket::Spread => spread,
    }
}

/// What the injector makes of three draws: the first decides whether the
/// request fails, the second picks the delay bucket, the third is the delay
/// of the bucket that draws one.
pub open spec fn admission_of(first: u64, second: u64, spread: u64) -> Admission {
    if is_failing(first as int) {
        Admission::Reject
    } else {
        Admission::Serve { delay_ms: delay_of(bucket_of(second as int), spread) }
    }
}

/// Whether the injector can come to `a`: some draws within their ranges
/// lead to it.
pub open spec fn is_injected(a: Admission) -> bool {
    exists|first: u64, second: u64, spread: u64|
        first < DRAW_COUNT && second < DRAW_COUNT && SPREAD_LOW_MS <= spread < SPREAD_HIGH_MS && a
            == #[trigger] admission_of(first, second, spread)
}

/// The draws, out of the hundred that are equally likely, that `pick` holds
/// of.
pub open spec fn draws_where(pick: spec_fn(int) -> bool) -> Set<int> {
    Set::new(|d: int| 0 <= d < DRAW_COUNT && pick(d))
}

/// Whether the first draw fails the request.
pub fn fails(first: u64) -> (r: bool)
    ensures
        r == is_failing(first as int),
{
    first < FAILING_DRAWS
}

/// The delay bucket that the second draw picks.
pub fn delay_bucket(second: u64) -> (r: DelayBucket)
    ensures
        r == bucket_of(second as int),
{
    if second < SHORT_DRAWS {
        DelayBucket::Short
    } else if second < LONG_DRAWS {
        DelayBucket::Long
    } else {
        DelayBucket::Spread
    }
}

/// What the injector makes of three draws.
pub fn admission_from(first: u64, second: u64, spread: u64) -> (r: Admission)
    ensures
        r == admission_of(first, second, spread),
{
    if fails(first) {
        Admission::Reject
    } else {
        let delay_ms = match delay_bucket(second) {
            DelayBucket::Short => SHORT_DELAY_MS,
            DelayBucket::Long => LONG_DELAY_MS,
            DelayBucket::Spread => spread,
        };
        Admission::Serve { delay_ms }
    }
}

/// Draws what becomes of one request under fault injection. The delay is
/// drawn only where the bucket asks for one.
pub fn make_sloppy() -> (r: Admission)
    ensures
        is_injected(r),
{
    let first = draw(0, DRAW_COUNT);
    if fails(first) {
        assert(Admission::Reject == admission_of(first, 0, SPREAD_LOW_MS));
        return Admission::Reject;
    }
    let second = draw(0, DRAW_COUNT);
    let spread = match delay_bucket(second) {
        DelayBucket::Spread => draw(SPREAD_LOW_MS, SPREAD_HIGH_MS),
        _ => SPREAD_LOW_MS,
    };
    admission_from(first, second, spread)
}

/// What becomes of one request: with fault injection off it is served at
/// once; with it on, the injector decides.
pub fn admission(sloppy_mode: bool) -> (r: Admission)
    ensures
        !sloppy_mode ==> r == (Admission::Serve { delay_ms: 0 }),
        sloppy_mode ==> is_injected(r),
{
    if sloppy_mode {
        make_sloppy()
    } else {
        Admission::Serve { delay_ms: 0 }
    }
}

/// The injector comes to a failure, to the short or the long delay, or to a
/// delay within the range of the random ones, and to nothing else.
pub proof fn lemma_injected_outcomes(a: Admission)
    ensures
        is_injected(a) <==> (a matches Admission::Serve { delay_ms } ==> delay_ms == LONG_DELAY_MS
            || SPREAD_LOW_MS <= delay_ms < SPREAD_HIGH_MS),
{
    match a {
        Admission::Reject => {
            assert(a == admission_of(0, 0, SPREAD_LOW_MS));
        },
        Admission::Serve { delay_ms } => {
            if delay_ms == LONG_DELAY_MS {
                assert(a == admission_of(FAILING_DRAWS, SHORT_DRAWS, SPREAD_LOW_MS));
            } else if SPREAD_LOW_MS <= delay_ms < SPREAD_HIGH_MS {
                assert(a == admission_of(FAILING_DRAWS, LONG_DRAWS, delay_ms));
            }
        },
    }
}

/// Of the hundred first draws five fail the request; of the hundred second
/// draws sixty pick the short delay, ten the long one and thirty a random
/// one.
pub proof fn lemma_shares()
    ensures
        draws_where(|d: int| is_failing(d)).len() == 5,
        draws_where(|d: int| bucket_of(d) == DelayBucket::Short).len() == 60,
        draws_where(|d: int| bucket_of(d) == DelayBucket::Long).len() == 10,
        draws_where(|d: int| bucket_of(d) == DelayBucket::Spread).len() == 30,
{
    lemma_int_range(0, 5);
    lemma_int_range(0, 60);
    lemma_int_range(60, 70);
    lemma_int_range(70, 100);
    assert(draws_where(|d: int| is_failing(d)) =~= set_int_range(0, 5));
    assert(draws_where(|d: int| bucket_of(d) == DelayBucket::Short) =~= set_int_range(0, 60));
    assert(draws_where(|d: int| bucket_of(d) == DelayBucket::Long) =~= set_int_range(60, 70));
    assert(draws_where(|d: int| bucket_of(d) == DelayBucket::Spread) =~= set_int_range(70, 100));
}

} // verus!
