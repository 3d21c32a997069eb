use vstd::prelude::*;

verus! {

/// Why the token contract refuses a request; every refusal reverts with a
/// user error code.
#[derive(Clone, Copy, Debug, PartialEq, Eq, Structural)]
pub enum TokenError {
    /// `approve`: the caller does not own the token.
    NotTokenOwner,
    /// `add_minter`: the caller is not a minter.
    NotMinter,
    /// `transfer_from`: the caller is not the owner, not the account approved
    /// for the token, and the owner has not approved the recipient for all tokens.
    NotApproved,
    /// `mint`: the token already has an owner, or the caller is not a minter.
    MintRefused,
    /// A transfer whose sender does not own the token.
    NotOwnerOfToken,
}

/// The user error codes of the contract.
#[derive(Clone, Copy, Debug, PartialEq, Eq, Structural)]
pub enum FailureCode {
    Zero,
    One,
    Two,
}

impl FailureCode {
    /// The number carried by the user error.
    pub fn code(&self) -> (code: u16)
        ensures
            code == match self {
                FailureCode::Zero => 0u16,
                FailureCode::One => 1u16,
                FailureCode::Two => 2u16,
            },
    {
        match self {
            FailureCode::Zero => 0,
            FailureCode::One => 1,
            FailureCode::Two => 2,
        }
    }
}

impl TokenError {
    /// The user error a refusal reverts with: code 2 when a transfer's sender
    /// does not own the token, code 1 for every other refusal.
    pub open spec fn spec_failure_code(self) -> FailureCode {
        match self {
            TokenError::NotOwnerOfToken => FailureCode::Two,
            _ => FailureCode::One,
        }
    }

    pub fn failure_code(&self) -> (code: FailureCode)
        ensures
            code == self.spec_failure_code(),
    {
        match self {
            TokenError::NotOwnerOfToken => FailureCode::Two,
            _ => FailureCode::One,
        }
    }
}

} // verus!
