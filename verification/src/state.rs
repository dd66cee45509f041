//! The pool's state record: a fixed layout of 98 bytes, without padding or
//! length prefix.
//!
//! | offset | length | field                       |
//! |--------|--------|-----------------------------|
//! | 0      | 1      | version                     |
//! | 1      | 1      | nonce                       |
//! | 2      | 32     | token program               |
//! | 34     | 32     | the pool's token account    |
//! | 66     | 32     | mint of that token account  |

use crate::address::Address;
use crate::error::ProgramFailure;
use vstd::prelude::*;

verus! {

/// The length of a packed state record.
pub const STATE_LEN: usize = 98;

/// What a pool account stores.
#[derive(Clone, Copy, Debug, PartialEq, Eq)]
pub struct OneSolState {
    /// Version of the record; 1 once the pool is set up.
    pub version: u8,
    /// Nonce from which the pool's authority address is derived.
    pub nonce: u8,
    /// The token program that owns the pool's token account.
    pub token_program_id: Address,
    /// The pool's own token account.
    pub token: Address,
    /// The mint of the pool's token account.
    pub token_mint: Address,
}

/// A state record with its addresses as byte sequences.
pub struct StateView {
    pub version: u8,
    pub nonce: u8,
    pub token_program_id: Seq<u8>,
    pub token: Seq<u8>,
    pub token_mint: Seq<u8>,
}

impl StateView {
    /// Every address of the record has 32 bytes.
    pub open spec fn wf(self) -> bool {
        &&& self.token_program_id.len() == 32
        &&& self.token.len() == 32
        &&& self.token_mint.len() == 32
    }
}

impl View for OneSolState {
    type V = StateView;

    open spec fn view(&self) -> StateView {
        StateView {
            version: self.version,
            nonce: self.nonce,
            token_program_id: self.token_program_id@,
            token: self.token@,
            token_mint: self.token_mint@,
        }
    }
}

/// The bytes of a record: its fields one after the other.
pub open spec fn spec_pack_state(s: StateView) -> Seq<u8> {
    seq![s.version, s.nonce] + s.token_program_id + s.token + s.token_mint
}

/// The record that 98 bytes spell; a buffer of any other size spells none.
pub open spec fn spec_unpack_state(input: Seq<u8>) -> Result<StateView, ProgramFailure> {
    if input.len() != STATE_LEN {
        Err(ProgramFailure::InvalidAccountData)
    } else {
        Ok(
            StateView {
                version: input[0],
                nonce: input[1],
                token_program_id: input.subrange(2, 34),
                token: input.subrange(34, 66),
                token_mint: input.subrange(66, 98),
            },
        )
    }
}

impl OneSolState {
    /// The 98 bytes of the record.
    pub fn pack(&self) -> (r: Vec<u8>)
        ensures
            r@ == spec_pack_state(self@),
            r@.len() == STATE_LEN,
    {
        let mut out: Vec<u8> = Vec::new();
        out.push(self.version);
        out.push(self.nonce);
        assert(out@ =~= seq![self.version, self.nonce]);
        self.token_program_id.write(&mut out);
        self.token.write(&mut out);
        self.token_mint.write(&mut out);
        out
    }

    /// Reads a record from a buffer of exactly 98 bytes; a buffer of any
    /// other size is `InvalidAccountData`.
    pub fn unpack(input: &[u8]) -> (r: Result<OneSolState, ProgramFailure>)
        ensures
            match r {
                Ok(s) => spec_unpack_state(input@) == Ok::<StateView, ProgramFailure>(s@),
                Err(e) => spec_unpack_state(input@) == Err::<StateView, ProgramFailure>(e),
            },
    {
        if input.len() != STATE_LEN {
            return Err(ProgramFailure::InvalidAccountData);
        }
        Ok(
            OneSolState {
                version: input[0],
                nonce: input[1],
                token_program_id: Address::read(input, 2),
                token: Address::read(input, 34),
                token_mint: Address::read(input, 66),
            },
        )
    }
}

/// Unpacking inverts packing.
pub proof fn unpack_inverts_pack_state(s: StateView)
    requires
        s.wf(),
    ensures
        spec_pack_state(s).len() == STATE_LEN,
        spec_unpack_state(spec_pack_state(s)) == Ok::<StateView, ProgramFailure>(s),
{
    let b = spec_pack_state(s);
    assert(b.subrange(2, 34) =~= s.token_program_id);
    assert(b.subrange(34, 66) =~= s.token);
    assert(b.subrange(66, 98) =~= s.token_mint);
}

/// Packing inverts unpacking: a buffer that spells a record is that
/// record's bytes.
pub proof fn pack_inverts_unpack_state(input: Seq<u8>)
    requires
        spec_unpack_state(input) is Ok,
    ensures
        spec_unpack_state(input)->Ok_0.wf(),
        spec_pack_state(spec_unpack_state(input)->Ok_0) == input,
{
    assert(spec_pack_state(spec_unpack_state(input)->Ok_0) =~= input);
}

} // verus!
