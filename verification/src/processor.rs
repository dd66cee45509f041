//! The program's entry: decodes an instruction and runs it against the
//! accounts that came with it.
//!
//! The accounts are positional. Initialize expects the pool, its authority,
//! the pool's token account and the token program. Swap expects the pool,
//! its authority, the user's transfer authority, the pool's token account,
//! the source, the destination and the token program, then the accounts of
//! each exchange record.
//!
//! Nothing here writes to an account or invokes another program: an
//! initialize returns the bytes that the pool account is to store, a swap
//! returns the [`SwapRoute`] that the caller drives, and
//! [`Processor::token_transfer`] returns the signed invocation to send.

use crate::account::{spec_token_account_from, unpack_token_account, AccountRecord, TokenAccount};
use crate::address::Address;
use crate::error::{OneSolError, ProgramFailure};
use crate::host::{
    build_transfer, create_program_address, program_address, token_account, transfer_instruction,
};
use crate::invocation::{built_view, Invocation, InvocationView};
use crate::instruction::{spec_unpack, DexConfig, InstructionView, OneSolInstruction};
use crate::router::{build_legs, legs_of_prefix, spec_legs, Payout, RouteView, SwapRoute};
use crate::state::{spec_pack_state, spec_unpack_state, OneSolState, StateView, STATE_LEN};
use vstd::prelude::*;

verus! {

/// Program state handler.
pub struct Processor {}

/// What an instruction came to.
#[derive(Debug, PartialEq, Eq)]
pub enum Processed {
    /// The pool is set up: its account is to store these bytes.
    Initialized(Vec<u8>),
    /// The swap is valid and planned: the route is to be driven.
    Swap(SwapRoute),
}

/// A [`Processed`] with the views of what it holds.
pub enum ProcessedView {
    Initialized(Seq<u8>),
    Swap(RouteView),
}

impl View for Processed {
    type V = ProcessedView;

    open spec fn view(&self) -> ProcessedView {
        match self {
            Processed::Initialized(bytes) => ProcessedView::Initialized(bytes@),
            Processed::Swap(route) => ProcessedView::Swap(route@),
        }
    }
}

/// An invocation of the token program that the pool's derived authority
/// signs: the host takes the two seeds as proof that the authority is the
/// program's own.
#[derive(Clone, Debug, PartialEq, Eq)]
pub struct SignedInvocation {
    /// The instruction to send.
    pub instruction: Invocation,
    /// The accounts to hand over with it: source, destination, authority,
    /// token program.
    pub accounts: [Address; 4],
    /// First seed of the signing authority: the pool's address.
    pub seed: Address,
    /// Second seed of the signing authority: the pool's nonce.
    pub nonce: u8,
}

/// A [`SignedInvocation`] with the view of its instruction.
pub struct SignedInvocationView {
    pub instruction: InvocationView,
    pub accounts: Seq<Address>,
    pub seed: Address,
    pub nonce: u8,
}

impl View for SignedInvocation {
    type V = SignedInvocationView;

    open spec fn view(&self) -> SignedInvocationView {
        SignedInvocationView {
            instruction: self.instruction@,
            accounts: self.accounts@,
            seed: self.seed,
            nonce: self.nonce,
        }
    }
}

/// The pool's authority, where the host derived an address.
pub open spec fn spec_authority_from(derived: Option<Address>) -> Result<Address, OneSolError> {
    match derived {
        Some(authority) => Ok(authority),
        None => Err(OneSolError::InvalidProgramAddress),
    }
}

/// The authority of the pool at `my_info` with the given nonce: the address
/// that the host derives for the program from the pool's address and the
/// nonce.
pub open spec fn spec_authority_id(program_id: Seq<u8>, my_info: Seq<u8>, nonce: u8) -> Result<
    Address,
    OneSolError,
> {
    spec_authority_from(program_address(my_info, nonce, program_id))
}

/// What an initialize comes to, given the pool's authority and the token
/// account as they were found: the packed state record for the pool account.
///
/// In this order: four accounts are needed; the supplied authority must be
/// the pool's; the token account must have been read; its delegate, or
/// without a delegate its owner, must be the authority; the pool account must
/// have the size of a state record.
pub open spec fn spec_initialize(
    nonce: u8,
    accounts: Seq<AccountRecord>,
    authority: Result<Address, OneSolError>,
    token: Result<TokenAccount, OneSolError>,
) -> Result<Seq<u8>, ProgramFailure> {
    if accounts.len() < 4 {
        Err(ProgramFailure::NotEnoughAccountKeys)
    } else {
        match authority {
            Err(e) => Err(ProgramFailure::Protocol(e)),
            Ok(authority) => if accounts[1].key@ != authority@ {
                Err(ProgramFailure::Protocol(OneSolError::InvalidProgramAddress))
            } else {
                match token {
                    Err(e) => Err(ProgramFailure::Protocol(e)),
                    Ok(token) => if token.delegate matches Some(delegate) && delegate@
                        != accounts[1].key@ {
                        Err(ProgramFailure::Protocol(OneSolError::InvalidDelegate))
                    } else if token.delegate is None && accounts[1].key@ != token.owner@ {
                        Err(ProgramFailure::Protocol(OneSolError::InvalidOwner))
                    } else if accounts[0].data@.len() != STATE_LEN {
                        Err(ProgramFailure::InvalidAccountData)
                    } else {
                        Ok(
                            spec_pack_state(
                                StateView {
                                    version: 1,
                                    nonce,
                                    token_program_id: accounts[3].key@,
                                    token: accounts[2].key@,
                                    token_mint: token.mint@,
                                },
                            ),
                        )
                    },
                }
            },
        }
    }
}

/// What an initialize comes to.
pub open spec fn spec_process_initialize(
    program_id: Seq<u8>,
    nonce: u8,
    accounts: Seq<AccountRecord>,
) -> Result<Seq<u8>, ProgramFailure> {
    spec_initialize(
        nonce,
        accounts,
        spec_authority_id(program_id, accounts[0].key@, nonce),
        spec_token_account_from(accounts[2].owner@, accounts[3].key@, token_account(accounts[2].data@)),
    )
}

/// The first gates of a swap, which lead to the pool's state record: the
/// amount in is at least 1 (else `InvalidInput`); the seven fixed accounts
/// are there; the pool account is owned by this program (else
/// `IncorrectProgramId`); the pool account holds a state record.
pub open spec fn spec_pool_state(program_id: Seq<u8>, amount_in: u64, accounts: Seq<AccountRecord>)
    -> Result<StateView, ProgramFailure> {
    if amount_in < 1 {
        Err(ProgramFailure::Protocol(OneSolError::InvalidInput))
    } else if accounts.len() < 7 {
        Err(ProgramFailure::NotEnoughAccountKeys)
    } else if accounts[0].owner@ != program_id {
        Err(ProgramFailure::IncorrectProgramId)
    } else {
        spec_unpack_state(accounts[0].data@)
    }
}

/// The gates of a swap behind the pool's state record, given the pool's
/// authority and the two token accounts as they were found, and the route
/// that a valid swap starts.
///
/// In this order: the supplied authority must be the pool's (else
/// `InvalidProgramAddress`); neither destination nor source may be the
/// pool's recorded token account (else `IncorrectSwapAccount`); source and
/// destination must differ (else `InvalidInput`); the pool's token account
/// and the destination must have been read and must share their mint (else
/// `InvalidInput`); every exchange record that has an adapter must find its
/// accounts behind the seven fixed ones.
pub open spec fn spec_route(
    amount_in: u64,
    minimum_amount_out: u64,
    dex_configs: Seq<DexConfig>,
    accounts: Seq<AccountRecord>,
    state: StateView,
    authority: Result<Address, OneSolError>,
    pool_token: Result<TokenAccount, OneSolError>,
    destination_token: Result<TokenAccount, OneSolError>,
) -> Result<RouteView, ProgramFailure> {
    if accounts.len() < 7 {
        Err(ProgramFailure::NotEnoughAccountKeys)
    } else {
        match authority {
            Err(e) => Err(ProgramFailure::Protocol(e)),
            Ok(authority) => if accounts[1].key@ != authority@ {
                Err(ProgramFailure::Protocol(OneSolError::InvalidProgramAddress))
            } else if accounts[5].key@ == state.token || accounts[4].key@ == state.token {
                Err(ProgramFailure::Protocol(OneSolError::IncorrectSwapAccount))
            } else if accounts[4].key@ == accounts[5].key@ {
                Err(ProgramFailure::Protocol(OneSolError::InvalidInput))
            } else {
                match pool_token {
                    Err(e) => Err(ProgramFailure::Protocol(e)),
                    Ok(pool_token) => match destination_token {
                        Err(e) => Err(ProgramFailure::Protocol(e)),
                        Ok(destination_token) => if pool_token.mint@ != destination_token.mint@ {
                            Err(ProgramFailure::Protocol(OneSolError::InvalidInput))
                        } else {
                            match spec_legs(dex_configs, 7, accounts.len() - 7) {
                                Err(e) => Err(e),
                                Ok(legs) => Ok(
                                    RouteView {
                                        amount_in,
                                        minimum_amount_out,
                                        legs,
                                        cursor: 0,
                                        balance_before: pool_token.amount,
                                        payout: Payout {
                                            swap: accounts[0].key,
                                            token_program: accounts[6].key,
                                            source: accounts[3].key,
                                            destination: accounts[5].key,
                                            authority: accounts[1].key,
                                            nonce: state.nonce,
                                        },
                                    },
                                ),
                            }
                        },
                    },
                }
            },
        }
    }
}

/// What a swap comes to before any adapter is invoked.
pub open spec fn spec_process_swap(
    program_id: Seq<u8>,
    amount_in: u64,
    minimum_amount_out: u64,
    dex_configs: Seq<DexConfig>,
    accounts: Seq<AccountRecord>,
) -> Result<RouteView, ProgramFailure> {
    match spec_pool_state(program_id, amount_in, accounts) {
        Err(e) => Err(e),
        Ok(state) => spec_route(
            amount_in,
            minimum_amount_out,
            dex_configs,
            accounts,
            state,
            spec_authority_id(program_id, accounts[0].key@, state.nonce),
            spec_token_account_from(
                accounts[3].owner@,
                accounts[6].key@,
                token_account(accounts[3].data@),
            ),
            spec_token_account_from(
                accounts[5].owner@,
                accounts[6].key@,
                token_account(accounts[5].data@),
            ),
        ),
    }
}

/// What an instruction comes to: a payload that does not decode fails with
/// the decoder's error, any other as the instruction that it spells.
pub open spec fn spec_process(program_id: Seq<u8>, accounts: Seq<AccountRecord>, input: Seq<u8>)
    -> Result<ProcessedView, ProgramFailure> {
    match spec_unpack(input) {
        Err(e) => Err(ProgramFailure::Protocol(e)),
        Ok(InstructionView::Initialize { nonce }) => match spec_process_initialize(
            program_id,
            nonce,
            accounts,
        ) {
            Ok(bytes) => Ok(ProcessedView::Initialized(bytes)),
            Err(e) => Err(e),
        },
        Ok(
            InstructionView::Swap { amount_in, minimum_amount_out, dex_configs },
        ) => match spec_process_swap(
            program_id,
            amount_in,
            minimum_amount_out,
            dex_configs,
            accounts,
        ) {
            Ok(route) => Ok(ProcessedView::Swap(route)),
            Err(e) => Err(e),
        },
    }
}

/// The signed invocation around a transfer instruction as it was built: the
/// accounts in the order source, destination, authority, token program, and
/// the pool's address and nonce as the signer's seeds.
pub open spec fn spec_signed_transfer(
    swap: Address,
    token_program: Address,
    source: Address,
    destination: Address,
    authority: Address,
    nonce: u8,
    built: Result<InvocationView, u64>,
) -> Result<SignedInvocationView, ProgramFailure> {
    match built {
        Err(code) => Err(ProgramFailure::Collaborator(code)),
        Ok(instruction) => Ok(
            SignedInvocationView {
                instruction,
                accounts: seq![source, destination, authority, token_program],
                seed: swap,
                nonce,
            },
        ),
    }
}

impl Processor {
    /// Processes an instruction: decodes `input` and runs the instruction
    /// that it spells against `accounts`.
    pub fn process(program_id: &Address, accounts: &[AccountRecord], input: &[u8]) -> (r: Result<
        Processed,
        ProgramFailure,
    >)
        ensures
            match r {
                Ok(done) => spec_process(program_id@, accounts@, input@) == Ok::<
                    ProcessedView,
                    ProgramFailure,
                >(done@),
                Err(e) => spec_process(program_id@, accounts@, input@) == Err::<
                    ProcessedView,
                    ProgramFailure,
                >(e),
            },
    {
        match OneSolInstruction::unpack(input) {
            Err(e) => Err(ProgramFailure::Protocol(e)),
            Ok(OneSolInstruction::Initialize(init)) => {
                match Self::process_initialize(program_id, init.nonce, accounts) {
                    Ok(bytes) => Ok(Processed::Initialized(bytes)),
                    Err(e) => Err(e),
                }
            },
            Ok(OneSolInstruction::Swap(swap)) => {
                match Self::process_swap(
                    program_id,
                    swap.amount_in,
                    swap.minimum_amount_out,
                    swap.dex_configs.as_slice(),
                    accounts,
                ) {
                    Ok(route) => Ok(Processed::Swap(route)),
                    Err(e) => Err(e),
                }
            },
        }
    }

    /// Processes an initialize: checks the accounts and returns the state
    /// record, packed, that the pool account is to store.
    pub fn process_initialize(program_id: &Address, nonce: u8, accounts: &[AccountRecord]) -> (r:
        Result<Vec<u8>, ProgramFailure>)
        ensures
            match r {
                Ok(bytes) => spec_process_initialize(program_id@, nonce, accounts@) == Ok::<
                    Seq<u8>,
                    ProgramFailure,
                >(bytes@),
                Err(e) => spec_process_initialize(program_id@, nonce, accounts@) == Err::<
                    Seq<u8>,
                    ProgramFailure,
                >(e),
            },
    {
        if accounts.len() < 4 {
            return Err(ProgramFailure::NotEnoughAccountKeys);
        }
        let authority = Self::authority_id(program_id, &accounts[0].key, nonce);
        let token = unpack_token_account(&accounts[2], &accounts[3].key);
        Self::initialize_with(nonce, accounts, authority, token)
    }

    /// Decides an initialize, given the pool's authority and the token
    /// account as they were found.
    pub fn initialize_with(
        nonce: u8,
        accounts: &[AccountRecord],
        authority: Result<Address, OneSolError>,
        token: Result<TokenAccount, OneSolError>,
    ) -> (r: Result<Vec<u8>, ProgramFailure>)
        ensures
            match r {
                Ok(bytes) => spec_initialize(nonce, accounts@, authority, token) == Ok::<
                    Seq<u8>,
                    ProgramFailure,
                >(bytes@),
                Err(e) => spec_initialize(nonce, accounts@, authority, token) == Err::<
                    Seq<u8>,
                    ProgramFailure,
                >(e),
            },
    {
        if accounts.len() < 4 {
            return Err(ProgramFailure::NotEnoughAccountKeys);
        }
        let authority = match authority {
            Ok(a) => a,
            Err(e) => {
                return Err(ProgramFailure::Protocol(e));
            },
        };
        if !accounts[1].key.same_as(&authority) {
            return Err(ProgramFailure::Protocol(OneSolError::InvalidProgramAddress));
        }
        let token = match token {
            Ok(t) => t,
            Err(e) => {
                return Err(ProgramFailure::Protocol(e));
            },
        };
        match token.delegate {
            Some(delegate) => {
                if !delegate.same_as(&accounts[1].key) {
                    return Err(ProgramFailure::Protocol(OneSolError::InvalidDelegate));
                }
            },
            None => {
                if !accounts[1].key.same_as(&token.owner) {
                    return Err(ProgramFailure::Protocol(OneSolError::InvalidOwner));
                }
            },
        }
        if accounts[0].data.len() != STATE_LEN {
            return Err(ProgramFailure::InvalidAccountData);
        }
        let state = OneSolState {
            version: 1,
            nonce,
            token_program_id: accounts[3].key,
            token: accounts[2].key,
            token_mint: token.mint,
        };
        Ok(state.pack())
    }

    /// Processes a swap up to the first invocation: checks the amounts and
    /// the accounts, builds the adapters and returns the route, which the
    /// caller starts and drives with [`SwapRoute::resume`].
    ///
    /// An amount in of 0 is `InvalidInput`, whatever else is supplied.
    pub fn process_swap(
        program_id: &Address,
        amount_in: u64,
        minimum_amount_out: u64,
        dex_configs: &[DexConfig],
        accounts: &[AccountRecord],
    ) -> (r: Result<SwapRoute, ProgramFailure>)
        ensures
            match r {
                Ok(route) => spec_process_swap(
                    program_id@,
                    amount_in,
                    minimum_amount_out,
                    dex_configs@,
                    accounts@,
                ) == Ok::<RouteView, ProgramFailure>(route@),
                Err(e) => spec_process_swap(
                    program_id@,
                    amount_in,
                    minimum_amount_out,
                    dex_configs@,
                    accounts@,
                ) == Err::<RouteView, ProgramFailure>(e),
            },
            amount_in == 0 ==> (r matches Err(e) && e == ProgramFailure::Protocol(
                OneSolError::InvalidInput,
            )),
    {
        let state = match Self::pool_state(program_id, amount_in, accounts) {
            Ok(state) => state,
            Err(e) => {
                return Err(e);
            },
        };
        let authority = Self::authority_id(program_id, &accounts[0].key, state.nonce);
        let pool_token = unpack_token_account(&accounts[3], &accounts[6].key);
        let destination_token = unpack_token_account(&accounts[5], &accounts[6].key);
        Self::route_with(
            amount_in,
            minimum_amount_out,
            dex_configs,
            accounts,
            &state,
            authority,
            pool_token,
            destination_token,
        )
    }

    /// Passes the first gates of a swap and reads the pool's state record.
    pub fn pool_state(program_id: &Address, amount_in: u64, accounts: &[AccountRecord]) -> (r:
        Result<OneSolState, ProgramFailure>)
        ensures
            match r {
                Ok(state) => spec_pool_state(program_id@, amount_in, accounts@) == Ok::<
                    StateView,
                    ProgramFailure,
                >(state@),
                Err(e) => spec_pool_state(program_id@, amount_in, accounts@) == Err::<
                    StateView,
                    ProgramFailure,
                >(e),
            },
            r is Ok ==> amount_in >= 1 && accounts@.len() >= 7,
    {
        if amount_in < 1 {
            return Err(ProgramFailure::Protocol(OneSolError::InvalidInput));
        }
        if accounts.len() < 7 {
            return Err(ProgramFailure::NotEnoughAccountKeys);
        }
        if !accounts[0].owner.same_as(program_id) {
            return Err(ProgramFailure::IncorrectProgramId);
        }
        OneSolState::unpack(accounts[0].data.as_slice())
    }

    /// Decides the gates of a swap behind the pool's state record, given the
    /// pool's authority and the two token accounts as they were found, and
    /// plans the route.
    pub fn route_with(
        amount_in: u64,
        minimum_amount_out: u64,
        dex_configs: &[DexConfig],
        accounts: &[AccountRecord],
        state: &OneSolState,
        authority: Result<Address, OneSolError>,
        pool_token: Result<TokenAccount, OneSolError>,
        destination_token: Result<TokenAccount, OneSolError>,
    ) -> (r: Result<SwapRoute, ProgramFailure>)
        ensures
            match r {
                Ok(route) => spec_route(
                    amount_in,
                    minimum_amount_out,
                    dex_configs@,
                    accounts@,
                    state@,
                    authority,
                    pool_token,
                    destination_token,
                ) == Ok::<RouteView, ProgramFailure>(route@),
                Err(e) => spec_route(
                    amount_in,
                    minimum_amount_out,
                    dex_configs@,
                    accounts@,
                    state@,
                    authority,
                    pool_token,
                    destination_token,
                ) == Err::<RouteView, ProgramFailure>(e),
            },
            r matches Ok(route) ==> forall|k: int|
                0 <= k < route.legs@.len() ==> 7 <= (#[trigger] route.legs@[k]).adapter.first_account
                    && route.legs@[k].adapter.first_account + route.legs@[k].adapter.account_count
                    <= accounts@.len(),
    {
        if accounts.len() < 7 {
            return Err(ProgramFailure::NotEnoughAccountKeys);
        }
        let authority = match authority {
            Ok(a) => a,
            Err(e) => {
                return Err(ProgramFailure::Protocol(e));
            },
        };
        if !accounts[1].key.same_as(&authority) {
            return Err(ProgramFailure::Protocol(OneSolError::InvalidProgramAddress));
        }
        if accounts[5].key.same_as(&state.token) || accounts[4].key.same_as(&state.token) {
            return Err(ProgramFailure::Protocol(OneSolError::IncorrectSwapAccount));
        }
        if accounts[4].key.same_as(&accounts[5].key) {
            return Err(ProgramFailure::Protocol(OneSolError::InvalidInput));
        }
        let pool_token = match pool_token {
            Ok(t) => t,
            Err(e) => {
                return Err(ProgramFailure::Protocol(e));
            },
        };
        let destination_token = match destination_token {
            Ok(t) => t,
            Err(e) => {
                return Err(ProgramFailure::Protocol(e));
            },
        };
        if !pool_token.mint.same_as(&destination_token.mint) {
            return Err(ProgramFailure::Protocol(OneSolError::InvalidInput));
        }
        let legs = match build_legs(dex_configs, 7, accounts.len() - 7) {
            Ok(legs) => legs,
            Err(e) => {
                return Err(e);
            },
        };
        let payout = Payout {
            swap: accounts[0].key,
            token_program: accounts[6].key,
            source: accounts[3].key,
            destination: accounts[5].key,
            authority: accounts[1].key,
            nonce: state.nonce,
        };
        Ok(SwapRoute::new(amount_in, minimum_amount_out, legs, pool_token.amount, payout))
    }

    /// Calculates the authority of the pool at `my_info`: the address that
    /// the host derives for the program from the pool's address and `nonce`.
    /// `InvalidProgramAddress` where the host derives none.
    pub fn authority_id(program_id: &Address, my_info: &Address, nonce: u8) -> (r: Result<
        Address,
        OneSolError,
    >)
        ensures
            r == spec_authority_id(program_id@, my_info@, nonce),
    {
        Self::authority_from(create_program_address(my_info, nonce, program_id))
    }

    /// The pool's authority, given what the host derived.
    pub fn authority_from(derived: Option<Address>) -> (r: Result<Address, OneSolError>)
        ensures
            r == spec_authority_from(derived),
    {
        match derived {
            Some(authority) => Ok(authority),
            None => Err(OneSolError::InvalidProgramAddress),
        }
    }

    /// Prepares the token program's transfer of `amount` tokens from
    /// `source` to `destination`, signed by the pool's derived authority
    /// with the seeds `swap` and `nonce`. Where the token program's library
    /// refuses to build the instruction, its error comes back unchanged.
    pub fn token_transfer(
        swap: &Address,
        token_program: &Address,
        source: &Address,
        destination: &Address,
        authority: &Address,
        nonce: u8,
        amount: u64,
    ) -> (r: Result<SignedInvocation, ProgramFailure>)
        ensures
            match r {
                Ok(signed) => spec_signed_transfer(
                    *swap,
                    *token_program,
                    *source,
                    *destination,
                    *authority,
                    nonce,
                    transfer_instruction(
                        token_program@,
                        source@,
                        destination@,
                        authority@,
                        amount,
                    ),
                ) == Ok::<SignedInvocationView, ProgramFailure>(signed@),
                Err(e) => spec_signed_transfer(
                    *swap,
                    *token_program,
                    *source,
                    *destination,
                    *authority,
                    nonce,
                    transfer_instruction(
                        token_program@,
                        source@,
                        destination@,
                        authority@,
                        amount,
                    ),
                ) == Err::<SignedInvocationView, ProgramFailure>(e),
            },
    {
        let built = build_transfer(token_program, source, destination, authority, amount);
        Self::signed_transfer(swap, token_program, source, destination, authority, nonce, built)
    }

    /// Wraps a transfer instruction, as it was built, into the invocation
    /// that the pool's derived authority signs.
    pub fn signed_transfer(
        swap: &Address,
        token_program: &Address,
        source: &Address,
        destination: &Address,
        authority: &Address,
        nonce: u8,
        built: Result<Invocation, u64>,
    ) -> (r: Result<SignedInvocation, ProgramFailure>)
        ensures
            match r {
                Ok(signed) => spec_signed_transfer(
                    *swap,
                    *token_program,
                    *source,
                    *destination,
                    *authority,
                    nonce,
                    built_view(built),
                ) == Ok::<SignedInvocationView, ProgramFailure>(signed@),
                Err(e) => spec_signed_transfer(
                    *swap,
                    *token_program,
                    *source,
                    *destination,
                    *authority,
                    nonce,
                    built_view(built),
                ) == Err::<SignedInvocationView, ProgramFailure>(e),
            },
    {
        match built {
            Err(code) => Err(ProgramFailure::Collaborator(code)),
            Ok(instruction) => {
                let accounts: [Address; 4] = [*source, *destination, *authority, *token_program];
                assert(accounts@ =~= seq![*source, *destination, *authority, *token_program]);
                Ok(SignedInvocation { instruction, accounts, seed: *swap, nonce })
            },
        }
    }
}

/// A swap between the pool's own token account and anything, or from an
/// account to itself, is refused: once the pool's state has been read and
/// the supplied authority is the pool's, a source or destination that is the
/// pool's recorded token account is `IncorrectSwapAccount`, and otherwise a
/// source that is the destination is `InvalidInput`.
pub proof fn swap_refuses_pool_and_same_account(
    program_id: Seq<u8>,
    amount_in: u64,
    minimum_amount_out: u64,
    dex_configs: Seq<DexConfig>,
    accounts: Seq<AccountRecord>,
)
    requires
        spec_pool_state(program_id, amount_in, accounts) is Ok,
        spec_authority_id(
            program_id,
            accounts[0].key@,
            spec_pool_state(program_id, amount_in, accounts)->Ok_0.nonce,
        ) matches Ok(authority) && authority@ == accounts[1].key@,
    ensures
        ({
            let state = spec_pool_state(program_id, amount_in, accounts)->Ok_0;
            let r = spec_process_swap(program_id, amount_in, minimum_amount_out, dex_configs, accounts);
            let source = accounts[4].key@;
            let destination = accounts[5].key@;
            &&& source == state.token || destination == state.token ==> r == Err::<
                RouteView,
                ProgramFailure,
            >(ProgramFailure::Protocol(OneSolError::IncorrectSwapAccount))
            &&& source != state.token && destination != state.token && source == destination ==> r
                == Err::<RouteView, ProgramFailure>(
                ProgramFailure::Protocol(OneSolError::InvalidInput),
            )
        }),
{
}

/// Without something to trade nothing is looked at: an amount in of 0 is
/// `InvalidInput`, whatever the program, the minimum, the exchange records
/// and the accounts are.
pub proof fn swap_refuses_zero_amount(
    program_id: Seq<u8>,
    minimum_amount_out: u64,
    dex_configs: Seq<DexConfig>,
    accounts: Seq<AccountRecord>,
)
    ensures
        spec_process_swap(program_id, 0, minimum_amount_out, dex_configs, accounts) == Err::<
            RouteView,
            ProgramFailure,
        >(ProgramFailure::Protocol(OneSolError::InvalidInput)),
{
}

/// The route of a valid swap pays out on the word of the authority that the
/// swap was checked against: the payout's seeds are the pool's address and
/// its recorded nonce, and the host derives the payout's authority from
/// them. The route starts before its first leg, with the amounts of the
/// instruction.
pub proof fn route_pays_out_as_checked(
    program_id: Seq<u8>,
    amount_in: u64,
    minimum_amount_out: u64,
    dex_configs: Seq<DexConfig>,
    accounts: Seq<AccountRecord>,
)
    requires
        spec_process_swap(program_id, amount_in, minimum_amount_out, dex_configs, accounts) is Ok,
    ensures
        ({
            let route = spec_process_swap(
                program_id,
                amount_in,
                minimum_amount_out,
                dex_configs,
                accounts,
            )->Ok_0;
            &&& route.amount_in == amount_in && amount_in >= 1
            &&& route.minimum_amount_out == minimum_amount_out
            &&& route.cursor == 0
            &&& route.legs.len() <= dex_configs.len()
            &&& program_address(route.payout.swap@, route.payout.nonce, program_id) matches Some(
                authority,
            ) && authority@ == route.payout.authority@
            &&& route.payout.destination == accounts[5].key
            &&& route.payout.source == accounts[3].key
        }),
{
    lemma_legs_are_few(dex_configs, dex_configs.len(), 7, accounts.len() - 7);
}

/// There are at most as many legs as exchange records.
pub proof fn lemma_legs_are_few(configs: Seq<DexConfig>, n: nat, first: int, available: int)
    ensures
        legs_of_prefix(configs, n, first, available) matches Some((legs, used)) ==> (legs.len()
            <= n && 0 <= used),
    decreases n,
{
    if n > 0 {
        lemma_legs_are_few(configs, (n - 1) as nat, first, available);
    }
}

} // verus!
