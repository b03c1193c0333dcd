//! The error taxonomy shared by every component.

use vstd::prelude::*;

verus! {

/// Everything that can end a run early.
#[derive(Clone, Copy, Debug, PartialEq, Eq, Structural)]
pub enum ClientError {
    /// A malformed address constant or key file.
    ConfigError,
    /// No bump seed gives a valid derived address.
    DerivationExhausted,
    /// The address received does not match the one recomputed from its seeds.
    PdaVerificationFailed,
    /// No account exists at the address that was read.
    NotFound,
    /// An account payload does not have the fixed layout.
    CorruptAccount,
    /// The unlock account is in neither of the two known states.
    InvalidUnlockState,
    /// The network could not be reached.
    TransportError,
    /// The network or the remote program rejected a transaction.
    SubmissionError,
    /// A submitted transaction was not confirmed in time.
    ConfirmationTimeout,
}

impl ClientError {
    /// A short description for the person who runs the program.
    pub fn message(&self) -> (r: &'static str)
        ensures
            r@ == self.message_text(),
    {
        match self {
            ClientError::ConfigError => "malformed address or key file",
            ClientError::DerivationExhausted => "no valid derived address found",
            ClientError::PdaVerificationFailed => "derived address does not match",
            ClientError::NotFound => "account not found",
            ClientError::CorruptAccount => "account data is malformed",
            ClientError::InvalidUnlockState => "unlock account is in an unknown state",
            ClientError::TransportError => "the network could not be reached",
            ClientError::SubmissionError => "the transaction was rejected",
            ClientError::ConfirmationTimeout => "the transaction was not confirmed in time",
        }
    }

    /// The text of each error.
    pub open spec fn message_text(&self) -> Seq<char> {
        match self {
            ClientError::ConfigError => "malformed address or key file"@,
            ClientError::DerivationExhausted => "no valid derived address found"@,
            ClientError::PdaVerificationFailed => "derived address does not match"@,
            ClientError::NotFound => "account not found"@,
            ClientError::CorruptAccount => "account data is malformed"@,
            ClientError::InvalidUnlockState => "unlock account is in an unknown state"@,
            ClientError::TransportError => "the network could not be reached"@,
            ClientError::SubmissionError => "the transaction was rejected"@,
            ClientError::ConfirmationTimeout => "the transaction was not confirmed in time"@,
        }
    }
}

} // verus!
