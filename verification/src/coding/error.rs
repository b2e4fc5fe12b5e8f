//! Errors of the wire encoding.

use vstd::prelude::*;

verus! {

/// Why a value could not be written.
#[derive(Clone, Copy, Debug, PartialEq, Eq, Structural)]
pub enum EncodeError {
    /// The buffer cannot grow by this many of the bytes it was asked to take.
    More(usize),
    /// An integer does not fit the variable-length encoding.
    BoundsExceeded,
    /// A message body does not fit its length field.
    MsgBoundsExceeded,
    /// A field is longer than the protocol allows.
    FieldBoundsExceeded,
    /// A parameter holds the wrong kind of value for its type.
    InvalidValue,
    /// A field that the value's own type demands is absent.
    MissingField,
}

/// Why bytes could not be read as a value.
#[derive(Clone, Copy, Debug, PartialEq, Eq, Structural)]
pub enum DecodeError {
    /// This many more bytes are needed.
    More(usize),
    /// A field is longer than the protocol allows.
    FieldBoundsExceeded,
    /// A field holds a value outside its range.
    InvalidValue,
    /// A text field is not UTF-8.
    InvalidString,
    /// Bytes are left over behind a value that should fill its field.
    TrailingBytes,
}

impl EncodeError {
    /// A sentence that describes the error.
    pub fn message(&self) -> (text: String)
        ensures
            text@ == self.spec_message(),
    {
        match self {
            EncodeError::More(_) => "buffer is full".to_string(),
            EncodeError::BoundsExceeded => "integer out of range".to_string(),
            EncodeError::MsgBoundsExceeded => "message too long".to_string(),
            EncodeError::FieldBoundsExceeded => "field too long".to_string(),
            EncodeError::InvalidValue => "invalid value".to_string(),
            EncodeError::MissingField => "missing field".to_string(),
        }
    }

    pub open spec fn spec_message(&self) -> Seq<char> {
        match self {
            EncodeError::More(_) => "buffer is full"@,
            EncodeError::BoundsExceeded => "integer out of range"@,
            EncodeError::MsgBoundsExceeded => "message too long"@,
            EncodeError::FieldBoundsExceeded => "field too long"@,
            EncodeError::InvalidValue => "invalid value"@,
            EncodeError::MissingField => "missing field"@,
        }
    }
}

impl DecodeError {
    /// A sentence that describes the error.
    pub fn message(&self) -> (text: String)
        ensures
            text@ == self.spec_message(),
    {
        match self {
            DecodeError::More(_) => "more bytes needed".to_string(),
            DecodeError::FieldBoundsExceeded => "field too long".to_string(),
            DecodeError::InvalidValue => "invalid value".to_string(),
            DecodeError::InvalidString => "invalid string".to_string(),
            DecodeError::TrailingBytes => "trailing bytes".to_string(),
        }
    }

    pub open spec fn spec_message(&self) -> Seq<char> {
        match self {
            DecodeError::More(_) => "more bytes needed"@,
            DecodeError::FieldBoundsExceeded => "field too long"@,
            DecodeError::InvalidValue => "invalid value"@,
            DecodeError::InvalidString => "invalid string"@,
            DecodeError::TrailingBytes => "trailing bytes"@,
        }
    }
}

} // verus!
