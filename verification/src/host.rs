//! What the host and the token program compute for this program.
//!
//! Nothing in this file is proved: each function calls into the host's
//! libraries, and its contract only gives the result a name. The names stand
//! for functions of the arguments, which the rest of the crate reasons about
//! without knowing their values.

use crate::account::TokenAccount;
use crate::address::Address;
use crate::invocation::{AccountRole, Invocation, InvocationView};
use solana_program::program_option::COption;
use solana_program::program_pack::Pack;
use solana_program::pubkey::Pubkey;
use vstd::prelude::*;

verus! {

/// The address that the host derives for `program_id` from the two seeds
/// `seed` and `[nonce]`, where there is one.
pub uninterp spec fn program_address(seed: Seq<u8>, nonce: u8, program_id: Seq<u8>) -> Option<
    Address,
>;

/// The token account that the token program reads from `data`, or the code
/// of the error with which it refuses to.
pub uninterp spec fn token_account(data: Seq<u8>) -> Result<TokenAccount, u64>;

/// The token program's instruction that moves `amount` tokens from `source`
/// to `destination` on the word of `authority` alone, or the code of the
/// error with which the token program's library refuses to build it.
pub uninterp spec fn transfer_instruction(
    token_program: Seq<u8>,
    source: Seq<u8>,
    destination: Seq<u8>,
    authority: Seq<u8>,
    amount: u64,
) -> Result<InvocationView, u64>;

/// Calls `Pubkey::create_program_address` with the seeds `seed` and
/// `[nonce]`. The contract claims only that the outcome is a function of the
/// three arguments; an error of the host is `None`.
#[verifier::external_body]
pub(crate) fn create_program_address(seed: &Address, nonce: u8, program_id: &Address) -> (r:
    Option<Address>)
    ensures
        r == program_address(seed@, nonce, program_id@),
{
    let program = Pubkey::from(program_id.bytes);
    match Pubkey::create_program_address(&[&seed.bytes[..], &[nonce]], &program) {
        Ok(key) => Some(Address { bytes: key.to_bytes() }),
        Err(_) => None,
    }
}

/// Calls `spl_token::state::Account::unpack` and keeps the mint, the owner,
/// the amount and the delegate of what it returns. The contract claims only
/// that the outcome is a function of `data`; an error comes back as the
/// number that the host's `u64::from` gives it.
#[verifier::external_body]
pub(crate) fn unpack_account(data: &[u8]) -> (r: Result<TokenAccount, u64>)
    ensures
        r == token_account(data@),
{
    match spl_token::state::Account::unpack(data) {
        Ok(a) => Ok(TokenAccount {
            mint: Address { bytes: a.mint.to_bytes() },
            owner: Address { bytes: a.owner.to_bytes() },
            amount: a.amount,
            delegate: match a.delegate {
                COption::Some(d) => Some(Address { bytes: d.to_bytes() }),
                COption::None => None,
            },
        }),
        Err(e) => Err(u64::from(e)),
    }
}

/// Calls `spl_token::instruction::transfer` without multisignature signers.
/// The contract claims only that the outcome is a function of the five
/// arguments; an error comes back as the number that the host's `u64::from`
/// gives it.
#[verifier::external_body]
pub(crate) fn build_transfer(
    token_program: &Address,
    source: &Address,
    destination: &Address,
    authority: &Address,
    amount: u64,
) -> (r: Result<Invocation, u64>)
    ensures
        match r {
            Ok(ix) => transfer_instruction(
                token_program@,
                source@,
                destination@,
                authority@,
                amount,
            ) == Ok::<InvocationView, u64>(ix@),
            Err(code) => transfer_instruction(
                token_program@,
                source@,
                destination@,
                authority@,
                amount,
            ) == Err::<InvocationView, u64>(code),
        },
{
    let (program, from) = (Pubkey::from(token_program.bytes), Pubkey::from(source.bytes));
    let (to, signer) = (Pubkey::from(destination.bytes), Pubkey::from(authority.bytes));
    match spl_token::instruction::transfer(&program, &from, &to, &signer, &[], amount) {
        Ok(ix) => Ok(Invocation {
            program_id: Address { bytes: ix.program_id.to_bytes() },
            accounts: ix.accounts.iter().map(|m| AccountRole {
                key: Address { bytes: m.pubkey.to_bytes() },
                is_signer: m.is_signer,
                is_writable: m.is_writable,
            }).collect(),
            data: ix.data,
        }),
        Err(e) => Err(u64::from(e)),
    }
}

} // verus!
