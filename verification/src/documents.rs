//! General data types for document derived data from the Game Data, Profile,
//! and Community APIs.

use vstd::prelude::*;

verus! {

/// A document key associated to all model responses from the Game Data APIs.
#[derive(Debug, Clone, PartialEq)]
pub struct DocumentKey {
    /// URL of the associated document.
    pub href: String,
}

/// Self reference link for retrieving individual realm data. Not particularly
/// useful, one should favor using the individual self ref for each realm
/// instead.
#[derive(Debug, Clone, PartialEq)]
pub struct Links {
    /// Self reference link.
    pub self_ref: DocumentKey,
}

} // verus!
