//! Unix-based timezones for search queries.

use vstd::prelude::*;

use crate::errors::BubbleHearthError;
use crate::json::{shape_of, shape_of_value, JsonShape};
use crate::strutil::str_eq;

verus! {

/// Timezones for various endpoints, primarily used for searching.
#[derive(Debug, Copy, Clone, Eq, PartialEq, Structural)]
pub enum Timezone {
    /// Represents the America/Los_Angeles western timezone.
    AmericaLosAngeles,
    /// Represents the America/New_York eastern timezone.
    AmericaNewYork,
    /// Represents an unknown timezone, used when a provided name has no match.
    Unknown,
}

/// The wire name of each timezone.
pub open spec fn spec_timezone_name(timezone: Timezone) -> Seq<char> {
    match timezone {
        Timezone::AmericaLosAngeles => "America/Los_Angeles"@,
        Timezone::AmericaNewYork => "America/New_York"@,
        Timezone::Unknown => "Unknown"@,
    }
}

/// The timezone a wire name maps to, with unmatched names mapping to
/// [`Timezone::Unknown`].
pub open spec fn spec_timezone_of_name(s: Seq<char>) -> Timezone {
    if s == "America/Los_Angeles"@ {
        Timezone::AmericaLosAngeles
    } else if s == "America/New_York"@ {
        Timezone::AmericaNewYork
    } else {
        Timezone::Unknown
    }
}

impl Timezone {
    /// The timezone's wire name, as appended to search query parameters.
    pub fn zone_name(&self) -> (name: &'static str)
        ensures
            name@ == spec_timezone_name(*self),
    {
        match self {
            Timezone::AmericaLosAngeles => "America/Los_Angeles",
            Timezone::AmericaNewYork => "America/New_York",
            Timezone::Unknown => "Unknown",
        }
    }

    /// Maps a wire name to its timezone, detecting [`Timezone::Unknown`] when
    /// the provided name is not able to be matched.
    pub fn from_name(s: &str) -> (timezone: Timezone)
        ensures
            timezone == spec_timezone_of_name(s@),
    {
        if str_eq(s, "America/Los_Angeles") {
            Timezone::AmericaLosAngeles
        } else if str_eq(s, "America/New_York") {
            Timezone::AmericaNewYork
        } else {
            Timezone::Unknown
        }
    }

    /// Decodes a timezone from its JSON shape: a string decodes to the
    /// timezone its text names, any other kind fails.
    pub fn decode_shape(shape: &JsonShape) -> (r: Result<Timezone, BubbleHearthError>)
        ensures
            match *shape {
                JsonShape::Text(s) => r == Ok::<Timezone, BubbleHearthError>(
                    spec_timezone_of_name(s@),
                ),
                _ => (r matches Err(e) && e matches BubbleHearthError::DecodeFailure(k) && k@
                    == "timezone"@),
            },
    {
        match shape {
            JsonShape::Text(s) => Ok(Timezone::from_name(s.as_str())),
            _ => Err(BubbleHearthError::DecodeFailure("timezone".to_owned())),
        }
    }

    /// Decodes a timezone from a JSON value, inspecting the wire value's
    /// JSON kind only.
    pub fn decode_value(value: &serde_json::Value) -> (r: Result<Timezone, BubbleHearthError>)
        ensures
            match shape_of(*value) {
                JsonShape::Text(s) => r == Ok::<Timezone, BubbleHearthError>(
                    spec_timezone_of_name(s@),
                ),
                _ => (r matches Err(e) && e matches BubbleHearthError::DecodeFailure(k) && k@
                    == "timezone"@),
            },
    {
        let shape = shape_of_value(value);
        Timezone::decode_shape(&shape)
    }
}

} // verus!
