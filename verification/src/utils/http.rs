//! What is known of content fetched over HTTP.

use vstd::prelude::*;
use crate::utils::text::{contains, has_substring};

verus! {

/// The formats a configuration document comes in.
#[derive(Debug, Clone, Copy, PartialEq, Eq, Structural)]
#[allow(non_camel_case_types)]
pub enum HttpContentKind {
    JSON,
    YAML,
}

/// The format that a content type announces: JSON where it says so or
/// where there is none, YAML otherwise.
pub open spec fn kind_of_content_type(content_type: Option<Seq<char>>) -> HttpContentKind {
    match content_type {
        Some(t) => if has_substring(t, "json"@) {
            HttpContentKind::JSON
        } else {
            HttpContentKind::YAML
        },
        None => HttpContentKind::JSON,
    }
}

impl HttpContentKind {
    /// The format of a response with this content type.
    pub fn from_content_type(content_type: Option<&str>) -> (res: HttpContentKind)
        ensures
            res == kind_of_content_type(content_type.deep_view()),
    {
        match content_type {
            Some(t) => if contains(t, "json") {
                HttpContentKind::JSON
            } else {
                HttpContentKind::YAML
            },
            None => HttpContentKind::JSON,
        }
    }
}

} // verus!
