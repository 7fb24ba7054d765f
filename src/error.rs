use vstd::prelude::*;

verus! {

/// The ways in which a conversion or formatting call can fail.
#[derive(Debug, Clone, Copy, PartialEq, Eq, Structural)]
pub enum Error {
    /// Error occurred while parsing or converting time
    TimeError,
    /// Error occurred with timestamp value (e.g., timestamp out of range)
    InvalidTimestamp,
    /// Error occurred while formatting time
    FormatError,
    /// Error with format string (e.g., invalid format specifier)
    InvalidFormatString,
    /// Error with UTF-8 conversion from C string
    Utf8Error,
    /// Error with null bytes in input strings
    NullByteError,
}

impl Error {
    /// The human-readable description of the error.
    pub fn message(&self) -> (r: &'static str)
        ensures
            r@ == self.spec_message(),
    {
        match self {
            Error::TimeError => "Time processing error",
            Error::InvalidTimestamp => "Invalid timestamp value",
            Error::FormatError => "Time formatting error",
            Error::InvalidFormatString => "Invalid format string",
            Error::Utf8Error => "UTF-8 conversion error",
            Error::NullByteError => "String contains null bytes",
        }
    }

    pub open spec fn spec_message(&self) -> Seq<char> {
        match self {
            Error::TimeError => "Time processing error"@,
            Error::InvalidTimestamp => "Invalid timestamp value"@,
            Error::FormatError => "Time formatting error"@,
            Error::InvalidFormatString => "Invalid format string"@,
            Error::Utf8Error => "UTF-8 conversion error"@,
            Error::NullByteError => "String contains null bytes"@,
        }
    }
}

} // verus!
