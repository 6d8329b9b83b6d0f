//! Properties of the reconcile decision that hold for every resource.

use vstd::prelude::*;

use crate::reconcile::{
    completion, decision, lookup, next_visit_after, seconds, ReconcileError, StepModel,
    FIXED_SLACK_SECS, POLL_INTERVAL_SECS, ERROR_RETRY_SECS, RELEASE_NAME_ANNOTATION,
    RELEASE_NAMESPACE_ANNOTATION,
};
use crate::time::{
    digit_count, duration_of_text, extended, instant_of_rfc3339, not_after, rfc3339_of_instant, shifted, Span,
    Timestamp, MAX_DURATION_DIGITS,
};

verus! {

/// The instant that a stored expiration text names, where it names one.
pub open spec fn stored_instant(stored: Seq<char>) -> Timestamp {
    let parsed = instant_of_rfc3339(stored)->0;
    Timestamp { secs: parsed.0, nanos: parsed.1 }
}

/// The TTL that a duration text names, where it names one.
pub open spec fn ttl_span(ttl: Seq<char>) -> Span {
    let parsed = duration_of_text(ttl)->0;
    Span { secs: parsed.0, nanos: parsed.1 }
}

/// A resource without a recorded expiration is, on its first pass at `first`,
/// either refused with a configuration error or given exactly the expiration
/// `first + ttl` (with a revisit `ttl` plus the slack later); no pass on a
/// resource that has an expiration, at any time `later`, writes one again.
pub proof fn expiration_is_written_once(
    ttl: Seq<char>,
    annotations: Seq<(String, String)>,
    first: Timestamp,
    stored: Seq<char>,
    later: Timestamp,
)
    ensures
        decision(ttl, None, annotations, first) is Err ==> decision(ttl, None, annotations, first)
            == Err::<StepModel, ReconcileError>(ReconcileError::ConfigError),
        decision(ttl, None, annotations, first) is Ok ==> {
            let expiration = shifted(first, ttl_span(ttl))->0;
            &&& digit_count(ttl) <= MAX_DURATION_DIGITS
            &&& duration_of_text(ttl) is Some
            &&& shifted(first, ttl_span(ttl)) is Some
            &&& decision(ttl, None, annotations, first) == Ok::<StepModel, ReconcileError>(
                StepModel::PersistExpiration {
                    expiration: rfc3339_of_instant(expiration.secs, expiration.nanos)->0,
                    requeue: extended(ttl_span(ttl), FIXED_SLACK_SECS)->0,
                },
            )
        },
        !(decision(ttl, Some(stored), annotations, later) matches Ok(
            StepModel::PersistExpiration { .. },
        )),
{
}

/// Before its expiration a resource is only revisited after the poll
/// interval: no removal, no write.
pub proof fn pending_expiration_waits(
    ttl: Seq<char>,
    stored: Seq<char>,
    annotations: Seq<(String, String)>,
    now: Timestamp,
    performed: Result<(), String>,
)
    requires
        instant_of_rfc3339(stored) is Some,
        !not_after(stored_instant(stored), now),
    ensures
        decision(ttl, Some(stored), annotations, now) == Ok::<StepModel, ReconcileError>(
            StepModel::Wait { requeue: seconds(POLL_INTERVAL_SECS) },
        ),
        completion(StepModel::Wait { requeue: seconds(POLL_INTERVAL_SECS) }, performed) == Ok::<
            Span,
            ReconcileError,
        >(seconds(POLL_INTERVAL_SECS)),
{
}

/// Once expired, a resource whose release is identified by both annotations
/// asks for exactly one removal, of that release in that namespace.
pub proof fn expired_release_is_removed(
    ttl: Seq<char>,
    stored: Seq<char>,
    annotations: Seq<(String, String)>,
    now: Timestamp,
)
    requires
        instant_of_rfc3339(stored) is Some,
        not_after(stored_instant(stored), now),
        lookup(annotations, RELEASE_NAME_ANNOTATION@) is Some,
        lookup(annotations, RELEASE_NAMESPACE_ANNOTATION@) is Some,
    ensures
        decision(ttl, Some(stored), annotations, now) == Ok::<StepModel, ReconcileError>(
            StepModel::Uninstall {
                release_name: lookup(annotations, RELEASE_NAME_ANNOTATION@)->0,
                release_namespace: lookup(annotations, RELEASE_NAMESPACE_ANNOTATION@)->0,
            },
        ),
{
}

/// Once expired, a resource missing either release annotation asks for no
/// removal, raises no error, and is revisited after the poll interval.
pub proof fn unidentified_release_is_kept(
    ttl: Seq<char>,
    stored: Seq<char>,
    annotations: Seq<(String, String)>,
    now: Timestamp,
    performed: Result<(), String>,
)
    requires
        instant_of_rfc3339(stored) is Some,
        not_after(stored_instant(stored), now),
        lookup(annotations, RELEASE_NAME_ANNOTATION@) is None || lookup(
            annotations,
            RELEASE_NAMESPACE_ANNOTATION@,
        ) is None,
    ensures
        decision(ttl, Some(stored), annotations, now) == Ok::<StepModel, ReconcileError>(
            StepModel::MissingMetadata { requeue: seconds(POLL_INTERVAL_SECS) },
        ),
        completion(StepModel::MissingMetadata { requeue: seconds(POLL_INTERVAL_SECS) }, performed)
            == Ok::<Span, ReconcileError>(seconds(POLL_INTERVAL_SECS)),
{
}

/// Two passes in succession on an initialised resource that has not expired
/// decide the same thing, write nothing, and ask for the same revisit delay.
pub proof fn waiting_is_idempotent(
    ttl: Seq<char>,
    stored: Seq<char>,
    annotations: Seq<(String, String)>,
    first: Timestamp,
    second: Timestamp,
    performed_first: Result<(), String>,
    performed_second: Result<(), String>,
)
    requires
        instant_of_rfc3339(stored) is Some,
        !not_after(stored_instant(stored), first),
        !not_after(stored_instant(stored), second),
    ensures
        decision(ttl, Some(stored), annotations, first) == decision(
            ttl,
            Some(stored),
            annotations,
            second,
        ),
        decision(ttl, Some(stored), annotations, first) matches Ok(StepModel::Wait { .. }),
        completion(decision(ttl, Some(stored), annotations, first)->Ok_0, performed_first)
            == completion(decision(ttl, Some(stored), annotations, second)->Ok_0, performed_second),
{
}

/// A TTL that does not parse, or holds more digits than a duration may,
/// fails the first pass with a configuration error,
/// asks for no write, and leaves the resource to be tried again after the
/// error delay.
pub proof fn unparsable_ttl_stays_retryable(
    ttl: Seq<char>,
    annotations: Seq<(String, String)>,
    now: Timestamp,
)
    requires
        duration_of_text(ttl) is None || digit_count(ttl) > MAX_DURATION_DIGITS,
    ensures
        decision(ttl, None, annotations, now) == Err::<StepModel, ReconcileError>(
            ReconcileError::ConfigError,
        ),
        next_visit_after(Err::<Span, ReconcileError>(decision(ttl, None, annotations, now)->Err_0))
            == seconds(ERROR_RETRY_SECS),
{
}

} // verus!
