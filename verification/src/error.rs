//! The errors that the library reports.

use vstd::prelude::*;

verus! {

/// What can go wrong outside verification proper. A verification that fails
/// is no error: it is reported as a status.
#[derive(Debug)]
pub enum PlexiError {
    /// The named parameter is present and unusable.
    BadParameter(String),
    /// The named parameter is absent.
    MissingParameter(String),
    /// The message has no canonical encoding.
    Serialization,
    /// A namespace that is still initialising shows a second, different root.
    InvalidRoot,
}

/// An error with the parameter's name as a sequence of characters.
pub enum ErrorView {
    BadParameter(Seq<char>),
    MissingParameter(Seq<char>),
    Serialization,
    InvalidRoot,
}

impl View for PlexiError {
    type V = ErrorView;

    open spec fn view(&self) -> ErrorView {
        match self {
            PlexiError::BadParameter(name) => ErrorView::BadParameter(name@),
            PlexiError::MissingParameter(name) => ErrorView::MissingParameter(name@),
            PlexiError::Serialization => ErrorView::Serialization,
            PlexiError::InvalidRoot => ErrorView::InvalidRoot,
        }
    }
}

impl PlexiError {
    /// The text of the error, as shown to a user.
    pub open spec fn spec_message(self) -> Seq<char> {
        match self {
            PlexiError::BadParameter(name) => "invalid parameter `"@ + name@ + "`"@,
            PlexiError::MissingParameter(name) => "missing parameter `"@ + name@ + "`"@,
            PlexiError::Serialization => "cannot serialize message"@,
            PlexiError::InvalidRoot => "Root is not valid"@,
        }
    }

    /// The error for an unusable parameter of the given name.
    pub fn bad_parameter(name: &str) -> (e: PlexiError)
        ensures
            e@ == ErrorView::BadParameter(name@),
    {
        PlexiError::BadParameter(String::from_str(name))
    }

    /// The error for an absent parameter of the given name.
    pub fn missing_parameter(name: &str) -> (e: PlexiError)
        ensures
            e@ == ErrorView::MissingParameter(name@),
    {
        PlexiError::MissingParameter(String::from_str(name))
    }

    /// The text of the error, as shown to a user.
    pub fn to_string(&self) -> (s: String)
        ensures
            s@ == self.spec_message(),
    {
        match self {
            PlexiError::BadParameter(name) => String::from_str("invalid parameter `").concat(
                name.as_str(),
            ).concat("`"),
            PlexiError::MissingParameter(name) => String::from_str("missing parameter `").concat(
                name.as_str(),
            ).concat("`"),
            PlexiError::Serialization => String::from_str("cannot serialize message"),
            PlexiError::InvalidRoot => String::from_str("Root is not valid"),
        }
    }
}

} // verus!
