//! The duration-discovery policy.
//!
//! After a clip is loaded the external framework may take a moment before it
//! can report the clip's duration, so the GUI shell queries it repeatedly: up
//! to [`MAX_DURATION_ATTEMPTS`] queries spaced [`DURATION_POLL_INTERVAL_MS`]
//! milliseconds apart. The policy here decides what each query outcome means
//! and what the whole poll resolves to. Exhausting the attempts is a reported
//! [`EditorError::DurationUnavailable`], never a silent default duration.

use vstd::prelude::*;
use crate::errors::EditorError;

verus! {

/// Number of duration queries attempted before the poll gives up.
pub const MAX_DURATION_ATTEMPTS: u64 = 100;

/// Milliseconds the GUI shell waits between two duration queries.
pub const DURATION_POLL_INTERVAL_MS: u64 = 10;

/// What the poll loop does after one more query.
#[derive(Debug, Clone, Copy, PartialEq, Eq, Structural)]
pub enum PollVerdict {
    /// The framework reported this duration, in nanoseconds; stop polling.
    Found(u64),
    /// Nothing yet and attempts remain; wait one interval and query again.
    TryAgain,
    /// Nothing yet and the attempts are used up; the load fails with
    /// `DurationUnavailable`.
    Exhausted,
}

/// What a whole transcript of query outcomes resolves to: the first reported
/// duration, or `DurationUnavailable` when no query reported one.
pub open spec fn resolve_duration_spec(samples: Seq<Option<u64>>) -> Result<u64, EditorError>
    decreases samples.len(),
{
    if samples.len() == 0 {
        Err(EditorError::DurationUnavailable)
    } else if samples[0] is Some {
        Ok(samples[0]->Some_0)
    } else {
        resolve_duration_spec(samples.drop_first())
    }
}

/// Decides the poll's next step from the attempt number (counted from zero)
/// and the outcome of that attempt's query.
pub fn duration_poll_verdict(attempt: u64, sample: Option<u64>) -> (v: PollVerdict)
    requires
        attempt < MAX_DURATION_ATTEMPTS,
    ensures
        sample is Some ==> v == PollVerdict::Found(sample->Some_0),
        sample is None && attempt + 1 < MAX_DURATION_ATTEMPTS ==> v == PollVerdict::TryAgain,
        sample is None && attempt + 1 == MAX_DURATION_ATTEMPTS ==> v == PollVerdict::Exhausted,
{
    match sample {
        Some(d) => PollVerdict::Found(d),
        None => {
            if attempt + 1 < MAX_DURATION_ATTEMPTS {
                PollVerdict::TryAgain
            } else {
                PollVerdict::Exhausted
            }
        },
    }
}

/// Resolves a full transcript of query outcomes to the first reported
/// duration (a `u64`, hence never negative), or to `DurationUnavailable` when
/// every query came back empty.
pub fn resolve_duration(samples: &Vec<Option<u64>>) -> (r: Result<u64, EditorError>)
    ensures
        r == resolve_duration_spec(samples@),
{
    let mut i: usize = 0;
    while i < samples.len()
        invariant
            i <= samples.len(),
            forall|j: int| 0 <= j < i ==> samples@[j] is None,
        decreases samples.len() - i,
    {
        if let Some(d) = samples[i] {
            proof {
                lemma_resolve_skips_empty_prefix(samples@, i as int);
            }
            return Ok(d);
        }
        i += 1;
    }
    proof {
        lemma_resolve_skips_empty_prefix(samples@, samples@.len() as int);
        assert(samples@.skip(samples@.len() as int) =~= Seq::<Option<u64>>::empty());
    }
    Err(EditorError::DurationUnavailable)
}

/// Queries that came back empty do not affect the resolution: the poll
/// resolves as if it had started at the first informative query.
proof fn lemma_resolve_skips_empty_prefix(samples: Seq<Option<u64>>, i: int)
    requires
        0 <= i <= samples.len(),
        forall|j: int| 0 <= j < i ==> samples[j] is None,
    ensures
        resolve_duration_spec(samples) == resolve_duration_spec(samples.skip(i)),
    decreases i,
{
    if i == 0 {
        assert(samples.skip(0) =~= samples);
    } else {
        lemma_resolve_skips_empty_prefix(samples, i - 1);
        assert(samples.skip(i - 1)[0] == samples[i - 1]);
        assert(samples.skip(i - 1).drop_first() =~= samples.skip(i));
    }
}

/// Law: duration discovery never substitutes a silent default. The poll
/// resolves to a duration exactly when some query reported one (and then to
/// the first duration reported); when none did, it resolves to the
/// `DurationUnavailable` error and to nothing else.
pub proof fn lemma_duration_never_silently_defaulted(samples: Seq<Option<u64>>)
    ensures
        resolve_duration_spec(samples) is Ok <==> exists|j: int|
            0 <= j < samples.len() && samples[j] is Some,
        resolve_duration_spec(samples) is Err ==> resolve_duration_spec(samples) == Err::<
            u64,
            EditorError,
        >(EditorError::DurationUnavailable),
    decreases samples.len(),
{
    if samples.len() == 0 {
    } else if samples[0] is Some {
        assert(0 <= 0 < samples.len() && samples[0] is Some);
    } else {
        lemma_duration_never_silently_defaulted(samples.drop_first());
        let rest = samples.drop_first();
        if resolve_duration_spec(samples) is Ok {
            let j = choose|j: int| 0 <= j < rest.len() && rest[j] is Some;
            assert(samples[j + 1] == rest[j]);
        }
        if exists|j: int| 0 <= j < samples.len() && samples[j] is Some {
            let j = choose|j: int| 0 <= j < samples.len() && samples[j] is Some;
            assert(j != 0);
            assert(rest[j - 1] == samples[j]);
        }
    }
}

} // verus!
