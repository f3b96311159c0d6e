use vstd::prelude::*;
use crate::login::{LockoutInfo, StepData};

verus! {

/// Why an authentication call failed or must be continued out-of-band.
/// Every variant is surfaced verbatim; none is retried internally.
#[derive(Debug, Clone)]
pub enum AuthError {
    /// The requested region code is absent from the resolved endpoint map.
    UnknownRegion,
    /// Authentication revisited a region already attempted in this call.
    RedirectLoop,
    /// The server demands an additional verification step; the caller must
    /// act on it out-of-band.
    StepRequired(StepData),
    /// The account is rate limited; the raw counters are carried for
    /// caller-driven backoff.
    Locked(LockoutInfo),
    /// A response matched none of the expected shapes.
    MalformedResponse,
    /// The transport collaborator failed; not retried at this layer.
    Transport,
}

/// Why one reading could not be normalized; isolated per item, it never
/// fails the batch.
#[derive(Debug, Clone, Copy, PartialEq, Eq, Structural)]
pub enum NormalizationError {
    /// The factory timestamp did not parse.
    InvalidTimestamp,
}

/// Why a graph fetch failed.
#[derive(Debug, Clone)]
pub enum FetchError {
    /// The token was rejected twice in a row; fatal, no further automatic
    /// retry.
    AuthenticationRejected,
    /// Re-authentication during the fetch failed.
    Auth(AuthError),
    /// The graph response matched none of the expected shapes.
    MalformedResponse,
    /// The transport collaborator failed.
    Transport,
}

} // verus!
