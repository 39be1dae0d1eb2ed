//! The errors the vault reports.

use vstd::prelude::*;

verus! {

/// The vault's own error codes, in declaration order.
#[derive(Clone, Copy, Debug, PartialEq, Eq, Structural)]
pub enum ErrorCode {
    InsufficientRewardMintBalance,
    Overflow,
    Underflow,
    ClaimCooldownNotFinished,
    WrongStakeMint,
    InvalidMintAccountSpace,
    CantInitializeMetadataPointer,
}

impl ErrorCode {
    /// The human-readable message attached to each code.
    pub fn message(&self) -> (m: &'static str)
        ensures
            m@ == self.message_spec(),
    {
        match self {
            ErrorCode::InsufficientRewardMintBalance =>
                "The staker does not have enough reward mint tokens to burn.",
            ErrorCode::Overflow => "Overflow.",
            ErrorCode::Underflow => "Underflow.",
            ErrorCode::ClaimCooldownNotFinished =>
                "The claim cooldown period has not been completed. Please wait until 24 hours have passed since your last claim.",
            ErrorCode::WrongStakeMint => "Wrong stake mint.",
            ErrorCode::InvalidMintAccountSpace => "Invalid Mint account space",
            ErrorCode::CantInitializeMetadataPointer => "Cant initialize metadata_pointer",
        }
    }

    pub open spec fn message_spec(&self) -> Seq<char> {
        match self {
            ErrorCode::InsufficientRewardMintBalance =>
                "The staker does not have enough reward mint tokens to burn."@,
            ErrorCode::Overflow => "Overflow."@,
            ErrorCode::Underflow => "Underflow."@,
            ErrorCode::ClaimCooldownNotFinished =>
                "The claim cooldown period has not been completed. Please wait until 24 hours have passed since your last claim."@,
            ErrorCode::WrongStakeMint => "Wrong stake mint."@,
            ErrorCode::InvalidMintAccountSpace => "Invalid Mint account space"@,
            ErrorCode::CantInitializeMetadataPointer => "Cant initialize metadata_pointer"@,
        }
    }
}

/// Why an instruction was refused.  A refused instruction changes no account.
#[derive(Clone, Copy, Debug, PartialEq, Eq, Structural)]
pub enum VaultError {
    /// One of the vault's own codes.
    Vault(ErrorCode),
    /// The signer is not the vault's owner.
    IllegalOwner,
    /// A signed amount could not be converted to an unsigned one.
    InvalidNumericConversion,
}

} // verus!
