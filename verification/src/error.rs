//! Why a request is rejected.

use vstd::prelude::*;
use vstd::string::StringExecFns;

verus! {

/// The reasons for which a request is rejected. A request is rejected as a
/// whole: there is no partial result.
#[derive(Clone, Debug, PartialEq, Eq)]
pub enum DumpError {
    /// The token names no identifier of the set it was looked up in.
    NoSuchField(String),
    /// The token names no common field, no group and no leaf field of the
    /// domain.
    UnrecognizedField(String),
    /// The filter is not a regular expression. Holds what the pattern error
    /// says.
    InvalidFilter(String),
    /// An explicit selection and a saved pattern were given together.
    FieldsWithPattern,
    /// The text names no output format.
    UnknownOutputFormat(String),
}

impl DumpError {
    /// What the user is told.
    pub open spec fn spec_message(self) -> Seq<char> {
        match self {
            DumpError::NoSuchField(token) => "no such field: "@ + token@,
            DumpError::UnrecognizedField(token) => "unrecognized field: "@ + token@,
            DumpError::InvalidFilter(reason) => reason@,
            DumpError::FieldsWithPattern => "--fields cannot be used with --pattern"@,
            DumpError::UnknownOutputFormat(text) => "Fail to parse "@ + text@,
        }
    }

    pub fn message(&self) -> (r: String)
        ensures
            r@ == self.spec_message(),
    {
        match self {
            DumpError::NoSuchField(token) => {
                let mut text = "no such field: ".to_owned();
                text.append(token.as_str());
                text
            },
            DumpError::UnrecognizedField(token) => {
                let mut text = "unrecognized field: ".to_owned();
                text.append(token.as_str());
                text
            },
            DumpError::InvalidFilter(reason) => reason.clone(),
            DumpError::FieldsWithPattern => "--fields cannot be used with --pattern".to_owned(),
            DumpError::UnknownOutputFormat(text) => {
                let mut message = "Fail to parse ".to_owned();
                message.append(text.as_str());
                message
            },
        }
    }
}

} // verus!
