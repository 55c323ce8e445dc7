//! The ways a conversion can fail.

use vstd::prelude::*;
use vstd::string::StringExecFns;

verus! {

/// The result of a fallible operation of this crate.
pub type Result<T> = std::result::Result<T, AnsiImageError>;

/// What went wrong, with a description for the user.
#[derive(Debug)]
pub enum AnsiImageError {
    /// The image could not be decoded.
    Image(String),
    /// The image could not be read.
    Io(String),
    /// The settings cannot be used for a conversion.
    InvalidSettings(String),
    /// A step of the conversion was handed data of the wrong shape.
    Processing(String),
}

impl AnsiImageError {
    /// The description that the error carries.
    pub open spec fn detail(&self) -> Seq<char> {
        match self {
            AnsiImageError::Image(m) => m@,
            AnsiImageError::Io(m) => m@,
            AnsiImageError::InvalidSettings(m) => m@,
            AnsiImageError::Processing(m) => m@,
        }
    }

    /// The words that introduce the description of each kind of error.
    pub open spec fn heading(&self) -> Seq<char> {
        match self {
            AnsiImageError::Image(_) => "Image error: "@,
            AnsiImageError::Io(_) => "I/O error: "@,
            AnsiImageError::InvalidSettings(_) => "Invalid settings: "@,
            AnsiImageError::Processing(_) => "Image processing failed: "@,
        }
    }

    /// The error as one line of text: the heading of its kind, then its
    /// description.
    pub fn message(&self) -> (text: String)
        ensures
            text@ == self.heading() + self.detail(),
    {
        match self {
            AnsiImageError::Image(m) => String::from_str("Image error: ").concat(m.as_str()),
            AnsiImageError::Io(m) => String::from_str("I/O error: ").concat(m.as_str()),
            AnsiImageError::InvalidSettings(m) => String::from_str("Invalid settings: ").concat(
                m.as_str(),
            ),
            AnsiImageError::Processing(m) => String::from_str("Image processing failed: ").concat(
                m.as_str(),
            ),
        }
    }
}

} // verus!
