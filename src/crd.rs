use vstd::prelude::*;

verus! {

/// What the user declares on a tracked resource.
#[derive(Clone, Debug, PartialEq, Eq)]
pub struct HelmNukeSpec {
    /// A human-readable duration such as `24h` or `30m`.
    pub ttl: String,
}

/// What the controller records on a tracked resource.
#[derive(Clone, Debug, PartialEq, Eq)]
pub struct HelmNukeStatus {
    /// The RFC 3339 instant after which the release is removed.
    pub expiration_timestamp: Option<String>,
}

} // verus!
