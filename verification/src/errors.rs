//! Errors raised when raw override text fails to convert to its typed form.

use vstd::prelude::*;

verus! {

/// A raw override value did not convert to its typed form, reported at the
/// point of conversion with the offending input.
#[derive(Debug, Clone, PartialEq, Eq)]
pub enum ValueParseError {
    /// The text is not one of the recognized sex codes.
    InvalidSex { text: String },
    /// The text is not a valid `yyyy-mm-dd` calendar date.
    InvalidDate { text: String },
    /// The text is not a valid `yyyy-mm-dd hh:mm:ss +hh:mm` date-time.
    InvalidDateTime { text: String },
    /// The text is not a valid hyphenated hex-pair field address.
    InvalidTag { text: String },
}

impl ValueParseError {
    /// A human-readable description naming the offending input.
    pub fn message(&self) -> (r: String)
        ensures
            self matches ValueParseError::InvalidSex { text } ==> r@
                == "Only one of the values M,F,O are allowed (not case sensitive): "@ + text@,
            self matches ValueParseError::InvalidDate { text } ==> r@
                == "Must be in yyyy-mm-dd or yyyy-m-d format: "@ + text@,
            self matches ValueParseError::InvalidDateTime { text } ==> r@
                == "Must be in yyyy-mm-dd hh:mm:ss +hh:mm format: "@ + text@,
            self matches ValueParseError::InvalidTag { text } ==> r@
                == "Must be in 0xGGGG-0xEEEE format: "@ + text@,
    {
        match self {
            ValueParseError::InvalidSex { text } => String::from_str(
                "Only one of the values M,F,O are allowed (not case sensitive): ",
            ).concat(text.as_str()),
            ValueParseError::InvalidDate { text } => String::from_str(
                "Must be in yyyy-mm-dd or yyyy-m-d format: ",
            ).concat(text.as_str()),
            ValueParseError::InvalidDateTime { text } => String::from_str(
                "Must be in yyyy-mm-dd hh:mm:ss +hh:mm format: ",
            ).concat(text.as_str()),
            ValueParseError::InvalidTag { text } => String::from_str(
                "Must be in 0xGGGG-0xEEEE format: ",
            ).concat(text.as_str()),
        }
    }
}

} // verus!
