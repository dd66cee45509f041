//! Accounts as the program sees them: plain records, handed over in a fixed
//! order.

use crate::address::Address;
use crate::error::OneSolError;
use crate::host::{token_account, unpack_account};
use vstd::prelude::*;

verus! {

/// One account of the list that comes with an instruction.
#[derive(Clone, Debug, PartialEq, Eq)]
pub struct AccountRecord {
    /// The account's address.
    pub key: Address,
    /// The program that owns the account.
    pub owner: Address,
    /// What the account stores.
    pub data: Vec<u8>,
}

/// What this program reads of a token account.
#[derive(Clone, Copy, Debug, PartialEq, Eq)]
pub struct TokenAccount {
    /// The mint of the tokens in the account.
    pub mint: Address,
    /// Who owns the account.
    pub owner: Address,
    /// How many tokens the account holds.
    pub amount: u64,
    /// Who may spend from the account besides its owner, if anybody.
    pub delegate: Option<Address>,
}

/// A token account that `token_program` vouches for: the account must be
/// owned by that program (else `IncorrectTokenProgramId`) and its data must
/// have decoded (else `ExpectedAccount`).
pub open spec fn spec_token_account_from(
    owner: Seq<u8>,
    token_program: Seq<u8>,
    decoded: Result<TokenAccount, u64>,
) -> Result<TokenAccount, OneSolError> {
    if owner != token_program {
        Err(OneSolError::IncorrectTokenProgramId)
    } else {
        match decoded {
            Ok(token) => Ok(token),
            Err(_) => Err(OneSolError::ExpectedAccount),
        }
    }
}

/// Decides whether an account owned by `owner`, whose data decoded to
/// `decoded`, is a token account of `token_program`.
pub fn token_account_from(
    owner: &Address,
    token_program: &Address,
    decoded: Result<TokenAccount, u64>,
) -> (r: Result<TokenAccount, OneSolError>)
    ensures
        r == spec_token_account_from(owner@, token_program@, decoded),
{
    if !owner.same_as(token_program) {
        Err(OneSolError::IncorrectTokenProgramId)
    } else {
        match decoded {
            Ok(token) => Ok(token),
            Err(_) => Err(OneSolError::ExpectedAccount),
        }
    }
}

/// Reads `account` as a token account of `token_program`.
pub fn unpack_token_account(account: &AccountRecord, token_program: &Address) -> (r: Result<
    TokenAccount,
    OneSolError,
>)
    ensures
        r == spec_token_account_from(account.owner@, token_program@, token_account(account.data@)),
{
    let decoded = unpack_account(account.data.as_slice());
    token_account_from(&account.owner, token_program, decoded)
}

} // verus!
