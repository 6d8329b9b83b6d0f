use vstd::prelude::*;

use crate::crd::{HelmNukeSpec, HelmNukeStatus};
use crate::time::{
    checked_extend, checked_shift, count_digits, digit_count, duration_of_text, extended, format_rfc3339,
    instant_of_rfc3339, is_not_after, not_after, parse_duration_text, parse_rfc3339,
    rfc3339_of_instant, shifted, Span, Timestamp, MAX_DURATION_DIGITS,
};

verus! {

/// Seconds added to the TTL for the first revisit, so that it lands just
/// after the expiration.
pub const FIXED_SLACK_SECS: u64 = 10;

/// Seconds between two visits of an initialised resource.
pub const POLL_INTERVAL_SECS: u64 = 180;

/// Seconds before a failed reconcile is tried again.
pub const ERROR_RETRY_SECS: u64 = 30;

/// The annotation that names the release.
pub const RELEASE_NAME_ANNOTATION: &'static str = "meta.helm.sh/release-name";

/// The annotation that names the release's namespace.
pub const RELEASE_NAMESPACE_ANNOTATION: &'static str = "meta.helm.sh/release-namespace";

/// Why a reconcile pass failed.
#[derive(Clone, Debug, PartialEq, Eq)]
pub enum ReconcileError {
    /// The TTL cannot be parsed, or the expiration it gives cannot be held.
    ConfigError,
    /// The stored expiration is not an RFC 3339 instant.
    TimestampError,
    /// The resource store could not be reached; the text says why.
    TransientIoError(String),
    /// The release remover failed; the text is its diagnostic output.
    UninstallError(String),
}

/// What one reconcile pass asks of the world outside.
#[derive(Clone, Debug, PartialEq, Eq)]
pub enum Step {
    /// Merge `status` into the status subresource, then come back after `requeue`.
    PersistExpiration { status: HelmNukeStatus, requeue: Span },
    /// Nothing to do before the expiration: come back after `requeue`.
    Wait { requeue: Span },
    /// Expired, but the release is not identified: warn, come back after `requeue`.
    MissingMetadata { requeue: Span },
    /// Expired: remove the release, then come back after the poll interval.
    Uninstall { release_name: String, release_namespace: String },
}

/// The mathematical value of a [`Step`].
pub enum StepModel {
    PersistExpiration { expiration: Seq<char>, requeue: Span },
    Wait { requeue: Span },
    MissingMetadata { requeue: Span },
    Uninstall { release_name: Seq<char>, release_namespace: Seq<char> },
}

impl View for Step {
    type V = StepModel;

    open spec fn view(&self) -> StepModel {
        match self {
            Step::PersistExpiration { status, requeue } => StepModel::PersistExpiration {
                expiration: match status.expiration_timestamp {
                    Some(t) => t@,
                    None => Seq::empty(),
                },
                requeue: *requeue,
            },
            Step::Wait { requeue } => StepModel::Wait { requeue: *requeue },
            Step::MissingMetadata { requeue } => StepModel::MissingMetadata { requeue: *requeue },
            Step::Uninstall { release_name, release_namespace } => StepModel::Uninstall {
                release_name: release_name@,
                release_namespace: release_namespace@,
            },
        }
    }
}

/// A step is well formed when a status it persists carries an expiration.
pub open spec fn step_wf(s: Step) -> bool {
    match s {
        Step::PersistExpiration { status, .. } => status.expiration_timestamp is Some,
        _ => true,
    }
}

/// The model of a reconcile decision.
pub open spec fn result_model(r: Result<Step, ReconcileError>) -> Result<StepModel, ReconcileError> {
    match r {
        Ok(s) => Ok(s@),
        Err(e) => Err(e),
    }
}

/// The value of the annotation `key`: the last entry that carries it.
pub open spec fn lookup(entries: Seq<(String, String)>, key: Seq<char>) -> Option<Seq<char>>
    decreases entries.len(),
{
    if entries.len() == 0 {
        None
    } else if entries.last().0@ == key {
        Some(entries.last().1@)
    } else {
        lookup(entries.drop_last(), key)
    }
}

/// Looks up the annotation `key` among `entries`.
pub fn find_annotation(entries: &Vec<(String, String)>, key: &str) -> (r: Option<String>)
    ensures
        match r {
            Some(v) => lookup(entries@, key@) == Some(v@),
            None => lookup(entries@, key@) is None,
        },
{
    let wanted: String = key.to_owned();
    let mut found: Option<String> = None;
    let mut i: usize = 0;
    while i < entries.len()
        invariant
            i <= entries@.len(),
            wanted@ == key@,
            match found {
                Some(v) => lookup(entries@.subrange(0, i as int), key@) == Some(v@),
                None => lookup(entries@.subrange(0, i as int), key@) is None,
            },
        decreases entries@.len() - i,
    {
        assert(entries@.subrange(0, i + 1).drop_last() =~= entries@.subrange(0, i as int));
        if entries[i].0 == wanted {
            found = Some(entries[i].1.clone());
        }
        i = i + 1;
    }
    assert(entries@.subrange(0, entries@.len() as int) =~= entries@);
    found
}

/// The stored expiration text, if any: a status without one counts as no status.
pub open spec fn stored_expiration(status: Option<HelmNukeStatus>) -> Option<Seq<char>> {
    match status {
        Some(s) => match s.expiration_timestamp {
            Some(t) => Some(t@),
            None => None,
        },
        None => None,
    }
}

/// A span of whole seconds.
pub open spec fn seconds(secs: u64) -> Span {
    Span { secs, nanos: 0 }
}

/// What the first pass asks for: the expiration `ttl` after `now`, revisited
/// `ttl` plus the slack later. A TTL text with more decimal digits than a
/// duration may hold is refused like one that does not parse.
pub open spec fn initialization(ttl: Seq<char>, now: Timestamp) -> Result<StepModel, ReconcileError> {
    if digit_count(ttl) > MAX_DURATION_DIGITS {
        Err(ReconcileError::ConfigError)
    } else {
        parsed_initialization(ttl, now)
    }
}

/// What the first pass asks for once the TTL text is within the digit bound.
pub open spec fn parsed_initialization(ttl: Seq<char>, now: Timestamp) -> Result<StepModel, ReconcileError> {
    match duration_of_text(ttl) {
        None => Err(ReconcileError::ConfigError),
        Some(parsed) => {
            let d = Span { secs: parsed.0, nanos: parsed.1 };
            match (shifted(now, d), extended(d, FIXED_SLACK_SECS)) {
                (Some(expiration), Some(requeue)) => match rfc3339_of_instant(
                    expiration.secs,
                    expiration.nanos,
                ) {
                    Some(text) => Ok(StepModel::PersistExpiration { expiration: text, requeue }),
                    None => Err(ReconcileError::ConfigError),
                },
                _ => Err(ReconcileError::ConfigError),
            }
        },
    }
}

/// What a pass asks for once an expiration `stored` is recorded.
pub open spec fn expiry_check(
    stored: Seq<char>,
    release_name: Option<Seq<char>>,
    release_namespace: Option<Seq<char>>,
    now: Timestamp,
) -> Result<StepModel, ReconcileError> {
    match instant_of_rfc3339(stored) {
        None => Err(ReconcileError::TimestampError),
        Some(parsed) => Ok(
            expiry_outcome(
                Timestamp { secs: parsed.0, nanos: parsed.1 },
                release_name,
                release_namespace,
                now,
            ),
        ),
    }
}

/// What a pass asks for at `now` when the recorded expiration is `expiration`.
pub open spec fn expiry_outcome(
    expiration: Timestamp,
    release_name: Option<Seq<char>>,
    release_namespace: Option<Seq<char>>,
    now: Timestamp,
) -> StepModel {
    if !not_after(expiration, now) {
        StepModel::Wait { requeue: seconds(POLL_INTERVAL_SECS) }
    } else {
        match (release_name, release_namespace) {
            (Some(name), Some(namespace)) => StepModel::Uninstall {
                release_name: name,
                release_namespace: namespace,
            },
            _ => StepModel::MissingMetadata { requeue: seconds(POLL_INTERVAL_SECS) },
        }
    }
}

/// The decision of one reconcile pass at `now`.
pub open spec fn decision(
    ttl: Seq<char>,
    stored: Option<Seq<char>>,
    annotations: Seq<(String, String)>,
    now: Timestamp,
) -> Result<StepModel, ReconcileError> {
    match stored {
        None => initialization(ttl, now),
        Some(text) => expiry_check(
            text,
            lookup(annotations, RELEASE_NAME_ANNOTATION@),
            lookup(annotations, RELEASE_NAMESPACE_ANNOTATION@),
            now,
        ),
    }
}

fn initialize(spec: &HelmNukeSpec, now: Timestamp) -> (r: Result<Step, ReconcileError>)
    ensures
        result_model(r) == initialization(spec.ttl@, now),
        r matches Ok(s) ==> step_wf(s),
{
    if count_digits(spec.ttl.as_str()) > MAX_DURATION_DIGITS {
        return Err(ReconcileError::ConfigError);
    }
    let ttl = match parse_duration_text(spec.ttl.as_str()) {
        Ok(d) => d,
        Err(_) => return Err(ReconcileError::ConfigError),
    };
    let expiration = match checked_shift(now, ttl) {
        Some(t) => t,
        None => return Err(ReconcileError::ConfigError),
    };
    let requeue = match checked_extend(ttl, FIXED_SLACK_SECS) {
        Some(d) => d,
        None => return Err(ReconcileError::ConfigError),
    };
    match format_rfc3339(expiration) {
        Some(text) => Ok(
            Step::PersistExpiration {
                status: HelmNukeStatus { expiration_timestamp: Some(text) },
                requeue,
            },
        ),
        None => Err(ReconcileError::ConfigError),
    }
}

fn check_expiry(stored: &String, annotations: &Vec<(String, String)>, now: Timestamp) -> (r:
    Result<Step, ReconcileError>)
    ensures
        result_model(r) == expiry_check(
            stored@,
            lookup(annotations@, RELEASE_NAME_ANNOTATION@),
            lookup(annotations@, RELEASE_NAMESPACE_ANNOTATION@),
            now,
        ),
        r matches Ok(s) ==> step_wf(s),
{
    match parse_rfc3339(stored.as_str()) {
        Ok(expiration) => Ok(expiry_step(expiration, annotations, now)),
        Err(_) => Err(ReconcileError::TimestampError),
    }
}

/// Decides a pass at `now` on a resource whose recorded expiration is `expiration`.
pub fn expiry_step(expiration: Timestamp, annotations: &Vec<(String, String)>, now: Timestamp) -> (r:
    Step)
    ensures
        r@ == expiry_outcome(
            expiration,
            lookup(annotations@, RELEASE_NAME_ANNOTATION@),
            lookup(annotations@, RELEASE_NAMESPACE_ANNOTATION@),
            now,
        ),
        step_wf(r),
{
    if !is_not_after(expiration, now) {
        return Step::Wait { requeue: Span::from_secs(POLL_INTERVAL_SECS) };
    }
    let name = find_annotation(annotations, RELEASE_NAME_ANNOTATION);
    let namespace = find_annotation(annotations, RELEASE_NAMESPACE_ANNOTATION);
    match (name, namespace) {
        (Some(release_name), Some(release_namespace)) => Step::Uninstall {
            release_name,
            release_namespace,
        },
        _ => Step::MissingMetadata { requeue: Span::from_secs(POLL_INTERVAL_SECS) },
    }
}

/// Decides one reconcile pass of a resource at `now`, from its spec, its
/// status and its annotations.
pub fn decide(
    spec: &HelmNukeSpec,
    status: &Option<HelmNukeStatus>,
    annotations: &Vec<(String, String)>,
    now: Timestamp,
) -> (r: Result<Step, ReconcileError>)
    ensures
        result_model(r) == decision(spec.ttl@, stored_expiration(*status), annotations@, now),
        r matches Ok(s) ==> step_wf(s),
{
    match status {
        Some(HelmNukeStatus { expiration_timestamp: Some(stored) }) => check_expiry(
            stored,
            annotations,
            now,
        ),
        _ => initialize(spec, now),
    }
}

/// The outcome of a pass once the work its step asked for is done:
/// `performed` is what the store or the remover reported (`Err` carries its
/// diagnostic text). Steps that ask for no work ignore it.
pub open spec fn completion(step: StepModel, performed: Result<(), String>) -> Result<Span, ReconcileError> {
    match step {
        StepModel::PersistExpiration { requeue, .. } => match performed {
            Ok(()) => Ok(requeue),
            Err(m) => Err(ReconcileError::TransientIoError(m)),
        },
        StepModel::Wait { requeue } => Ok(requeue),
        StepModel::MissingMetadata { requeue } => Ok(requeue),
        StepModel::Uninstall { .. } => match performed {
            Ok(()) => Ok(seconds(POLL_INTERVAL_SECS)),
            Err(m) => Err(ReconcileError::UninstallError(m)),
        },
    }
}

/// Ends a reconcile pass: the requeue delay, or the error to report.
pub fn complete(step: &Step, performed: Result<(), String>) -> (r: Result<Span, ReconcileError>)
    ensures
        r == completion(step@, performed),
{
    match step {
        Step::PersistExpiration { requeue, .. } => match performed {
            Ok(()) => Ok(*requeue),
            Err(m) => Err(ReconcileError::TransientIoError(m)),
        },
        Step::Wait { requeue } => Ok(*requeue),
        Step::MissingMetadata { requeue } => Ok(*requeue),
        Step::Uninstall { .. } => match performed {
            Ok(()) => Ok(Span::from_secs(POLL_INTERVAL_SECS)),
            Err(m) => Err(ReconcileError::UninstallError(m)),
        },
    }
}

/// The delay before a failed resource is tried again, whatever the error.
pub fn error_policy(error: &ReconcileError) -> (r: Span)
    ensures
        r == seconds(ERROR_RETRY_SECS),
{
    Span::from_secs(ERROR_RETRY_SECS)
}

/// When the dispatcher visits a resource again after a pass that ended in `outcome`.
pub open spec fn next_visit_after(outcome: Result<Span, ReconcileError>) -> Span {
    match outcome {
        Ok(d) => d,
        Err(_) => seconds(ERROR_RETRY_SECS),
    }
}

/// The delay before the next pass: the one the pass asked for, or the error
/// policy's where it failed.
pub fn next_visit(outcome: &Result<Span, ReconcileError>) -> (r: Span)
    ensures
        r == next_visit_after(*outcome),
{
    match outcome {
        Ok(d) => *d,
        Err(e) => error_policy(e),
    }
}

} // verus!
