//! BubbleHearth errors that can occur at any point during the request cycle
//! to Blizzard: authentication, request dispatch, mappings, and builders.

use vstd::prelude::*;

verus! {

/// Wrapped result type useful for marshalling between library and dependency errors.
pub type BubbleHearthResult<T> = Result<T, BubbleHearthError>;

/// Errors that can occur within the client, including outcomes mapped from the
/// HTTP transport by the caller driving the request loop.
#[derive(Debug, Clone, PartialEq, Eq)]
pub enum BubbleHearthError {
    /// A region must be provided when building a client instance.
    RegionRequired,
    /// A client instance was unable to be constructed.
    ClientInstanceRequired,
    /// Client options were missing entirely when constructing a client.
    InvalidClientOptions,
    /// A required client option field was missing when constructing a client.
    InvalidClientOptionField,
    /// No available access token was found in the cache.
    AccessTokenNotFound,
    /// No expiration was found associated to the current authentication context.
    ExpirationNotFound,
    /// An internal lock failed while determining the authentication context.
    AuthenticationLockFailed(String),
    /// The token exchange failed: rejected credentials, a non-success status,
    /// a malformed response body, or a transport-level failure.
    AuthFailure,
    /// A resource call returned a non-success status that is not treated as an
    /// expected absence, or failed at the transport level (status 0).
    RequestFailure(u16),
    /// A response body or field did not match the expected shape; carries the
    /// offending field or key for diagnosis.
    DecodeFailure(String),
    /// A locale-ambiguous field held a JSON kind that is neither a string nor
    /// an object.
    UnexpectedLocaleShape,
    /// A locale code was not one of the supported locale codes.
    LocaleUnknown(String),
}

} // verus!
