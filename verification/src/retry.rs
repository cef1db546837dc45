//! Repeated attempts at a download that may fail for a while.

use vstd::prelude::*;

use crate::duration::Duration;
use crate::error::{CacheEntry, CacheError};

verus! {

/// The most attempts that are made at anything.
pub const MAX_TRIES: u32 = 3;

/// The time between two attempts, in milliseconds.
pub const RETRY_DELAY_MILLIS: u64 = 20;

/// What to do after an attempt.
#[derive(Debug)]
pub enum RetryStep<T> {
    /// Make no further attempt: this is the result.
    Return(CacheEntry<T>),
    /// Wait for the given time and then make another attempt, the number of attempts so far being
    /// `tries`.
    Again { tries: u32, delay: Duration },
}

/// Whether another attempt is unlikely to have a different result: success, a file that does not
/// exist and a file that may not be accessed all stay that way.
pub open spec fn is_settled<T>(result: CacheEntry<T>) -> bool {
    result matches Ok(_) || result == Err::<T, CacheError>(CacheError::NotFound)
        || result matches Err(CacheError::PermissionDenied(_))
}

/// What to do after an attempt had the given result, `tries` attempts having been made before it.
pub open spec fn retry_step<T>(tries: u32, result: CacheEntry<T>) -> RetryStep<T> {
    if is_settled(result) || tries + 1 >= MAX_TRIES {
        RetryStep::Return(result)
    } else {
        RetryStep::Again {
            tries: (tries + 1) as u32,
            delay: Duration::of_millis(RETRY_DELAY_MILLIS),
        }
    }
}

/// Decides what to do after an attempt, so that up to 3 attempts are made with 20 millisecond
/// delays on failure.
///
/// `tries` is the number of attempts that were made before this one.
pub fn retry<T>(tries: u32, result: CacheEntry<T>) -> (step: RetryStep<T>)
    ensures
        step == retry_step(tries, result),
{
    // its highly unlikely we get a different result when retrying these
    let should_not_retry = match &result {
        Ok(_) => true,
        Err(CacheError::NotFound) => true,
        Err(CacheError::PermissionDenied(_)) => true,
        Err(_) => false,
    };
    if should_not_retry || tries >= MAX_TRIES - 1 {
        RetryStep::Return(result)
    } else {
        RetryStep::Again { tries: tries + 1, delay: Duration::from_millis(RETRY_DELAY_MILLIS) }
    }
}

/// The result that is returned, and the number of attempts made until then, if the attempts that
/// follow the first `tries` have the given results one after the other. There is none if the
/// results end before the attempts do.
pub open spec fn retry_outcome<T>(tries: u32, results: Seq<CacheEntry<T>>) -> Option<
    (CacheEntry<T>, int),
>
    decreases results.len(),
{
    if results.len() == 0 {
        None
    } else {
        match retry_step(tries, results.first()) {
            RetryStep::Return(result) => Some((result, tries + 1)),
            RetryStep::Again { tries: more, delay: _ } => retry_outcome(more, results.drop_first()),
        }
    }
}

/// Attempts end after the first result that is settled, and after three results in any case. The
/// result of the last attempt is returned.
pub proof fn law_retry_ends_with_the_first_settled_result<T>(results: Seq<CacheEntry<T>>)
    requires
        results.len() >= MAX_TRIES,
    ensures
        retry_outcome(0, results) matches Some((result, attempts)) && {
            &&& 1 <= attempts <= MAX_TRIES
            &&& result == results[attempts - 1]
            &&& is_settled(result) || attempts == MAX_TRIES
            &&& forall|i: int| 0 <= i < attempts - 1 ==> !is_settled(#[trigger] results[i])
        },
{
    let second = results.drop_first();
    let third = second.drop_first();
    reveal_with_fuel(retry_outcome, 4);
    assert(results.first() == results[0]);
    assert(second.first() == results[1]);
    assert(third.first() == results[2]);
}

/// What is returned depends on the attempts that were made and on no others.
pub proof fn law_retry_makes_no_attempt_too_many<T>(
    results: Seq<CacheEntry<T>>,
    others: Seq<CacheEntry<T>>,
    tries: u32,
)
    requires
        retry_outcome(tries, results) is Some,
    ensures
        retry_outcome(tries, results + others) == retry_outcome(tries, results),
    decreases results.len(),
{
    assert((results + others).first() == results.first());
    match retry_step(tries, results.first()) {
        RetryStep::Return(_) => {},
        RetryStep::Again { tries: more, delay: _ } => {
            law_retry_makes_no_attempt_too_many(results.drop_first(), others, more);
            assert((results + others).drop_first() == results.drop_first() + others);
        },
    }
}

/// Something that succeeds, or fails for good, at once is attempted only once.
pub proof fn law_settled_results_are_returned_at_once<T>(result: CacheEntry<T>)
    requires
        is_settled(result),
    ensures
        retry_outcome(0, seq![result]) == Some((result, 1int)),
{
    assert(seq![result].first() == result);
}

/// Between attempts there are 20 milliseconds, and a wait only ever follows a failure.
pub proof fn law_waits_follow_failures<T>(tries: u32, result: CacheEntry<T>)
    ensures
        retry_step(tries, result) matches RetryStep::Again { tries: more, delay } ==> {
            &&& result is Err
            &&& delay == Duration::of_millis(20)
            &&& more == tries + 1
            &&& more < MAX_TRIES
        },
{
}

/// An answer that reports a client error settles the matter, while any other answer that is no
/// success is worth another attempt.
pub proof fn law_client_errors_are_not_retried<T>(status: u16, text: Seq<char>, error: CacheError)
    requires
        crate::response::status_error(status, text) == Some(error@),
    ensures
        is_settled(Err::<T, CacheError>(error)) <==> 400 <= status <= 499,
{
}

/// A result is settled exactly if it is a success, a missing file or a refused access. A timeout is
/// never settled, however long it was, nor is any other failure, whatever its text.
pub proof fn law_only_three_results_are_settled<T>(
    value: T,
    reason: String,
    limit: Duration,
    cause: String,
)
    ensures
        is_settled(Ok::<T, CacheError>(value)),
        is_settled(Err::<T, CacheError>(CacheError::NotFound)),
        is_settled(Err::<T, CacheError>(CacheError::PermissionDenied(reason))),
        !is_settled(Err::<T, CacheError>(CacheError::Timeout(limit))),
        !is_settled(Err::<T, CacheError>(CacheError::DownloadError(cause))),
        !is_settled(Err::<T, CacheError>(CacheError::InternalError)),
{
}

/// The first two attempts are followed by another one, 20 milliseconds later, if and only if they
/// timed out, could not fetch the file or failed inside the service. What is returned otherwise is
/// the result of the attempt as it is.
pub proof fn law_failures_that_may_pass_are_retried<T>(
    tries: u32,
    result: CacheEntry<T>,
    step: RetryStep<T>,
)
    requires
        call_ensures(retry::<T>, (tries, result), step),
    ensures
        step is Again <==> tries < 2 && (match result {
            Err(CacheError::Timeout(_)) => true,
            Err(CacheError::DownloadError(_)) => true,
            Err(CacheError::InternalError) => true,
            _ => false,
        }),
        step matches RetryStep::Again { tries: more, delay } ==> more == tries + 1 && delay.nanos
            == 20_000_000,
        step matches RetryStep::Return(returned) ==> returned == result,
{
}

/// How much time was allowed makes no difference to whether a timeout is retried.
pub proof fn law_limits_do_not_decide_retries<T>(
    tries: u32,
    limit: Duration,
    other: Duration,
    step: RetryStep<T>,
    other_step: RetryStep<T>,
)
    requires
        call_ensures(retry::<T>, (tries, Err(CacheError::Timeout(limit))), step),
        call_ensures(retry::<T>, (tries, Err(CacheError::Timeout(other))), other_step),
    ensures
        step is Again <==> other_step is Again,
        step is Again <==> tries < 2,
{
}

/// What caused a failure makes no difference to whether it is retried.
pub proof fn law_causes_do_not_decide_retries<T>(
    tries: u32,
    cause: String,
    other: String,
    step: RetryStep<T>,
    other_step: RetryStep<T>,
)
    requires
        call_ensures(retry::<T>, (tries, Err(CacheError::DownloadError(cause))), step),
        call_ensures(retry::<T>, (tries, Err(CacheError::DownloadError(other))), other_step),
    ensures
        step is Again <==> other_step is Again,
        step is Again <==> tries < 2,
{
}

/// Something that keeps failing in ways that may pass is attempted three times, and the last
/// failure is what is returned.
pub proof fn law_passing_failures_use_up_all_attempts<T>(results: Seq<CacheEntry<T>>)
    requires
        results.len() == 3,
        forall|i: int|
            0 <= i < 3 ==> (match #[trigger] results[i] {
                Err(CacheError::Timeout(_)) => true,
                Err(CacheError::DownloadError(_)) => true,
                Err(CacheError::InternalError) => true,
                _ => false,
            }),
    ensures
        retry_outcome(0, results.take(2)) is None,
        retry_outcome(0, results) == Some((results[2], 3int)),
{
    let second = results.drop_first();
    let third = second.drop_first();
    reveal_with_fuel(retry_outcome, 4);
    assert(results.first() == results[0]);
    assert(second.first() == results[1]);
    assert(third.first() == results[2]);
    let fewer = results.take(2);
    assert(fewer.first() == results[0]);
    assert(fewer.drop_first().first() == results[1]);
    assert(fewer.drop_first().drop_first().len() == 0);
}

} // verus!
