//! Instructions for other programs, as plain values.

use crate::address::Address;
use vstd::prelude::*;

verus! {

/// An account as an instruction refers to it.
#[derive(Clone, Copy, Debug, PartialEq, Eq)]
pub struct AccountRole {
    /// The account's address.
    pub key: Address,
    /// Whether the instruction needs the account's signature.
    pub is_signer: bool,
    /// Whether the instruction may change the account.
    pub is_writable: bool,
}

/// An instruction for another program.
#[derive(Clone, Debug, PartialEq, Eq)]
pub struct Invocation {
    /// The program to run.
    pub program_id: Address,
    /// The accounts that the program is given, in order.
    pub accounts: Vec<AccountRole>,
    /// The payload, which only the program interprets.
    pub data: Vec<u8>,
}

/// An [`Invocation`] with its lists as mathematical sequences.
pub struct InvocationView {
    pub program_id: Address,
    pub accounts: Seq<AccountRole>,
    pub data: Seq<u8>,
}

impl View for Invocation {
    type V = InvocationView;

    open spec fn view(&self) -> InvocationView {
        InvocationView { program_id: self.program_id, accounts: self.accounts@, data: self.data@ }
    }
}

/// The outcome of building an instruction, with the view of the instruction.
pub open spec fn built_view(built: Result<Invocation, u64>) -> Result<InvocationView, u64> {
    match built {
        Ok(instruction) => Ok(instruction@),
        Err(code) => Err(code),
    }
}

} // verus!
