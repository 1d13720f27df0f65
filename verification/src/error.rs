use vstd::prelude::*;

verus! {

/// Why a request to the decoder was turned down.
#[derive(Clone, Copy, Debug, PartialEq, Eq, Structural)]
pub enum FpscrError {
    /// No register value was supplied.
    MissingValue,
    /// The register value is not a hexadecimal number of at most 64 bits.
    MalformedValue,
    /// A bit index lies outside 0..=63.
    BitOutOfRange,
}

impl FpscrError {
    /// What to tell the user about the error.
    pub open spec fn message_text(self) -> Seq<char> {
        match self {
            FpscrError::MissingValue => "A register value is required"@,
            FpscrError::MalformedValue => "Register value is not a hexadecimal number of at most 64 bits"@,
            FpscrError::BitOutOfRange => "Bit range between [0, 63]"@,
        }
    }

    /// The diagnostic message of the error.
    pub fn message(self) -> (text: &'static str)
        ensures
            text@ == self.message_text(),
    {
        match self {
            FpscrError::MissingValue => "A register value is required",
            FpscrError::MalformedValue => "Register value is not a hexadecimal number of at most 64 bits",
            FpscrError::BitOutOfRange => "Bit range between [0, 63]",
        }
    }
}

} // verus!
