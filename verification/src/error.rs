//! Why a fragment is refused, or why no payload can be produced.

use vstd::prelude::*;

verus! {

/// The ways in which folding a fragment or materializing a payload can fail.
#[derive(Clone, Copy, Debug, PartialEq, Eq, Structural)]
pub enum FlashblocksError {
    /// The first fragment of a job (index 0) came without the block's base fields.
    MissingBasePayload,
    /// A later fragment (index above 0) carried base fields.
    UnexpectedBasePayload,
    /// A payload was requested although no delta has been accumulated.
    MissingDelta,
    /// The fragment's index is not the next one expected.
    InvalidIndex,
    /// A payload was requested although no base has been captured.
    MissingPayload,
}

impl FlashblocksError {
    /// The text of the message for each error.
    pub open spec fn message(self) -> Seq<char> {
        match self {
            FlashblocksError::MissingBasePayload => "Missing base payload for initial flashblock"@,
            FlashblocksError::UnexpectedBasePayload => "Unexpected base payload for non-initial flashblock"@,
            FlashblocksError::MissingDelta => "Missing delta for flashblock"@,
            FlashblocksError::InvalidIndex => "Invalid index for flashblock"@,
            FlashblocksError::MissingPayload => "Missing payload"@,
        }
    }

    /// Renders the error as its message.
    pub fn to_string(&self) -> (text: String)
        ensures
            text@ == self.message(),
    {
        match self {
            FlashblocksError::MissingBasePayload => "Missing base payload for initial flashblock".to_owned(),
            FlashblocksError::UnexpectedBasePayload => "Unexpected base payload for non-initial flashblock".to_owned(),
            FlashblocksError::MissingDelta => "Missing delta for flashblock".to_owned(),
            FlashblocksError::InvalidIndex => "Invalid index for flashblock".to_owned(),
            FlashblocksError::MissingPayload => "Missing payload".to_owned(),
        }
    }
}

} // verus!
