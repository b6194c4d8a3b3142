//! The closed failure taxonomy of the parse pipeline. Every failure names
//! its kind and the offending selector, label or job set, so a caller can
//! branch on the failure class.

use vstd::prelude::*;
use crate::job::Job;

verus! {

/// Why a parse failed. Every variant aborts the whole profile build: a
/// profile is all-or-nothing.
#[derive(Clone, Debug, PartialEq, Eq)]
pub enum ParseError {
    /// A required selector matched nothing. For a field routed by a profile
    /// block label, the selector names that label instead.
    MissingField { selector: String },
    /// A selector matched, but the text found violates the expected shape
    /// or arity.
    MalformedField { selector: String, raw: String },
    /// A profile info block whose preceding label is not a recognized
    /// routing label; a block with no preceding label carries an empty one.
    UnknownBlock { label: String },
    /// A job entry whose name matches no canonical label and no alias.
    UnknownJobLabel { label: String },
    /// The job entries do not cover the whole taxonomy: every missing job,
    /// in canonical taxonomy order.
    IncompleteJobSet { missing: Vec<Job> },
}

/// The mathematical shape of a `ParseError`.
#[verifier::ext_equal]
pub enum ParseErrorModel {
    MissingField { selector: Seq<char> },
    MalformedField { selector: Seq<char>, raw: Seq<char> },
    UnknownBlock { label: Seq<char> },
    UnknownJobLabel { label: Seq<char> },
    IncompleteJobSet { missing: Seq<Job> },
}

impl View for ParseError {
    type V = ParseErrorModel;

    open spec fn view(&self) -> ParseErrorModel {
        match self {
            ParseError::MissingField { selector } => ParseErrorModel::MissingField {
                selector: selector@,
            },
            ParseError::MalformedField { selector, raw } => ParseErrorModel::MalformedField {
                selector: selector@,
                raw: raw@,
            },
            ParseError::UnknownBlock { label } => ParseErrorModel::UnknownBlock { label: label@ },
            ParseError::UnknownJobLabel { label } => ParseErrorModel::UnknownJobLabel {
                label: label@,
            },
            ParseError::IncompleteJobSet { missing } => ParseErrorModel::IncompleteJobSet {
                missing: missing@,
            },
        }
    }
}

} // verus!
