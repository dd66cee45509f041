use onesol_protocol::account::{AccountRecord, TokenAccount};
use onesol_protocol::address::Address;
use onesol_protocol::error::{OneSolError, ProgramFailure};
use onesol_protocol::instruction::DexConfig;
use onesol_protocol::processor::{Processed, Processor};
use onesol_protocol::router::{
    build_legs, Adapter, AdapterCall, Leg, Payout, SwapRoute, SwapStep, TransferOrder,
};
use onesol_protocol::state::OneSolState;
use solana_program::program_error::ProgramError;
use solana_program::program_option::COption;
use solana_program::program_pack::Pack;
use solana_program::pubkey::Pubkey;
use spl_token::state::{Account, AccountState};

fn address(key: &Pubkey) -> Address {
    Address::new(key.to_bytes())
}

fn token_data(mint: &Pubkey, owner: &Pubkey, amount: u64) -> Vec<u8> {
    let account = Account {
        mint: *mint,
        owner: *owner,
        amount,
        delegate: COption::None,
        state: AccountState::Initialized,
        is_native: COption::None,
        delegated_amount: 0,
        close_authority: COption::None,
    };
    let mut data = vec![0u8; Account::LEN];
    Account::pack(account, &mut data).unwrap();
    data
}

struct World {
    program_id: Pubkey,
    mint: Pubkey,
    authority: Pubkey,
    accounts: Vec<AccountRecord>,
}

const POOL_BALANCE: u64 = 1_000;

/// A pool with its seven fixed accounts and `extra` accounts for adapters.
fn world(extra: usize) -> World {
    let program_id = Pubkey::new_unique();
    let pool = Pubkey::new_unique();
    let (authority, nonce) = Pubkey::find_program_address(&[&pool.to_bytes()[..32]], &program_id);
    let token_program = spl_token::id();
    let mint = Pubkey::new_unique();
    let other_mint = Pubkey::new_unique();
    let pool_token = Pubkey::new_unique();
    let user = Pubkey::new_unique();
    let source = Pubkey::new_unique();
    let destination = Pubkey::new_unique();
    let state = OneSolState {
        version: 1,
        nonce,
        token_program_id: address(&token_program),
        token: address(&pool_token),
        token_mint: address(&mint),
    };
    let record = |key: &Pubkey, owner: &Pubkey, data: Vec<u8>| AccountRecord {
        key: address(key),
        owner: address(owner),
        data,
    };
    let system = Pubkey::default();
    let mut accounts = vec![
        record(&pool, &program_id, state.pack()),
        record(&authority, &system, vec![]),
        record(&user, &system, vec![]),
        record(&pool_token, &token_program, token_data(&mint, &authority, POOL_BALANCE)),
        record(&source, &token_program, token_data(&other_mint, &user, 500)),
        record(&destination, &token_program, token_data(&mint, &user, 0)),
        record(&token_program, &system, vec![]),
    ];
    for _ in 0..extra {
        accounts.push(record(&Pubkey::new_unique(), &system, vec![]));
    }
    World { program_id, mint, authority, accounts }
}

fn swap(
    w: &World,
    amount_in: u64,
    minimum_amount_out: u64,
    configs: &[DexConfig],
) -> Result<SwapRoute, ProgramFailure> {
    Processor::process_swap(
        &address(&w.program_id),
        amount_in,
        minimum_amount_out,
        configs,
        &w.accounts,
    )
}

fn protocol(e: OneSolError) -> ProgramFailure {
    ProgramFailure::Protocol(e)
}

fn pool_data(w: &World, amount: u64) -> Vec<u8> {
    token_data(&w.mint, &w.authority, amount)
}

fn one_exchange() -> Vec<DexConfig> {
    vec![DexConfig::new_dex_config(0, 2, 1)]
}

#[test]
fn swap_of_nothing_is_invalid_input() {
    let w = world(2);
    assert_eq!(swap(&w, 0, 0, &one_exchange()), Err(protocol(OneSolError::InvalidInput)));
    let empty = World { accounts: vec![], ..world(0) };
    assert_eq!(swap(&empty, 0, 5, &[]), Err(protocol(OneSolError::InvalidInput)));
    let mut foreign = world(2);
    foreign.accounts[0].owner = address(&Pubkey::new_unique());
    assert_eq!(swap(&foreign, 0, 5, &one_exchange()), Err(protocol(OneSolError::InvalidInput)));
}

#[test]
fn swap_needs_its_seven_accounts() {
    let mut w = world(0);
    w.accounts.pop();
    assert_eq!(swap(&w, 1, 0, &one_exchange()), Err(ProgramFailure::NotEnoughAccountKeys));
}

#[test]
fn swap_needs_a_pool_of_this_program() {
    let mut w = world(2);
    w.accounts[0].owner = address(&Pubkey::new_unique());
    assert_eq!(swap(&w, 1, 0, &one_exchange()), Err(ProgramFailure::IncorrectProgramId));
}

#[test]
fn swap_needs_a_state_record_of_the_right_size() {
    let mut w = world(2);
    w.accounts[0].data.push(0);
    assert_eq!(swap(&w, 1, 0, &one_exchange()), Err(ProgramFailure::InvalidAccountData));
    w.accounts[0].data.truncate(97);
    assert_eq!(swap(&w, 1, 0, &one_exchange()), Err(ProgramFailure::InvalidAccountData));
}

#[test]
fn swap_needs_the_derived_authority() {
    let mut w = world(2);
    w.accounts[1].key = address(&Pubkey::new_unique());
    assert_eq!(swap(&w, 1, 0, &one_exchange()), Err(protocol(OneSolError::InvalidProgramAddress)));
    w.accounts[1].key = w.accounts[0].key;
    assert_eq!(swap(&w, 1, 0, &one_exchange()), Err(protocol(OneSolError::InvalidProgramAddress)));
    let mut other_nonce = world(2);
    other_nonce.accounts[0].data[1] = other_nonce.accounts[0].data[1].wrapping_sub(1);
    assert_eq!(
        swap(&other_nonce, 1, 0, &one_exchange()),
        Err(protocol(OneSolError::InvalidProgramAddress))
    );
}

#[test]
fn swap_from_an_account_to_itself_is_invalid_input() {
    let mut w = world(2);
    w.accounts[4] = w.accounts[5].clone();
    assert_eq!(swap(&w, 1, 0, &one_exchange()), Err(protocol(OneSolError::InvalidInput)));
}

#[test]
fn swap_with_the_pool_token_account_is_incorrect() {
    let mut as_source = world(2);
    as_source.accounts[4] = as_source.accounts[3].clone();
    assert_eq!(
        swap(&as_source, 1, 0, &one_exchange()),
        Err(protocol(OneSolError::IncorrectSwapAccount))
    );
    let mut as_destination = world(2);
    as_destination.accounts[5] = as_destination.accounts[3].clone();
    assert_eq!(
        swap(&as_destination, 1, 0, &one_exchange()),
        Err(protocol(OneSolError::IncorrectSwapAccount))
    );
    let mut both = world(2);
    both.accounts[4] = both.accounts[3].clone();
    both.accounts[5] = both.accounts[3].clone();
    assert_eq!(swap(&both, 1, 0, &one_exchange()), Err(protocol(OneSolError::IncorrectSwapAccount)));
}

#[test]
fn swap_needs_token_accounts_of_the_token_program() {
    let mut w = world(2);
    w.accounts[3].owner = address(&Pubkey::new_unique());
    assert_eq!(swap(&w, 1, 0, &one_exchange()), Err(protocol(OneSolError::IncorrectTokenProgramId)));
    let mut w = world(2);
    w.accounts[5].owner = address(&Pubkey::new_unique());
    assert_eq!(swap(&w, 1, 0, &one_exchange()), Err(protocol(OneSolError::IncorrectTokenProgramId)));
}

#[test]
fn swap_needs_readable_token_accounts() {
    let mut w = world(2);
    w.accounts[3].data = vec![0u8; Account::LEN];
    assert_eq!(swap(&w, 1, 0, &one_exchange()), Err(protocol(OneSolError::ExpectedAccount)));
    let mut w = world(2);
    w.accounts[5].data.pop();
    assert_eq!(swap(&w, 1, 0, &one_exchange()), Err(protocol(OneSolError::ExpectedAccount)));
}

#[test]
fn swap_needs_matching_mints() {
    let mut w = world(2);
    let user = Pubkey::new_unique();
    w.accounts[5].data = token_data(&Pubkey::new_unique(), &user, 0);
    assert_eq!(swap(&w, 1, 0, &one_exchange()), Err(protocol(OneSolError::InvalidInput)));
}

#[test]
fn swap_needs_the_accounts_of_every_exchange() {
    let w = world(3);
    let configs = vec![DexConfig::new_dex_config(0, 2, 1), DexConfig::new_dex_config(0, 2, 1)];
    assert_eq!(swap(&w, 1, 0, &configs), Err(ProgramFailure::NotEnoughAccountKeys));
    let w = world(4);
    let route = swap(&w, 1, 0, &configs).unwrap();
    assert_eq!(
        route.legs,
        vec![
            Leg { adapter: Adapter { first_account: 7, account_count: 2 }, ratio: 1 },
            Leg { adapter: Adapter { first_account: 9, account_count: 2 }, ratio: 1 },
        ]
    );
}

#[test]
fn valid_swap_plans_its_route() {
    let w = world(2);
    let route = swap(&w, 100, 90, &one_exchange()).unwrap();
    assert_eq!(
        route,
        SwapRoute {
            amount_in: 100,
            minimum_amount_out: 90,
            legs: vec![Leg { adapter: Adapter { first_account: 7, account_count: 2 }, ratio: 1 }],
            cursor: 0,
            balance_before: POOL_BALANCE,
            payout: Payout {
                swap: w.accounts[0].key,
                token_program: w.accounts[6].key,
                source: w.accounts[3].key,
                destination: w.accounts[5].key,
                authority: w.accounts[1].key,
                nonce: w.accounts[0].data[1],
            },
        }
    );
}

#[test]
fn single_exchange_yielding_the_amount_in_succeeds() {
    let w = world(2);
    let amount_in = 100;
    let route = swap(&w, amount_in, amount_in, &one_exchange()).unwrap();
    let payout = route.payout;
    assert!(route.next_fits());
    let step = route.resume(Ok(()), &w.accounts[3].data).unwrap();
    let route = match step {
        SwapStep::Invoke(route, call) => {
            assert_eq!(
                call,
                AdapterCall {
                    leg: 0,
                    adapter: Adapter { first_account: 7, account_count: 2 },
                    amount_in: 100,
                    minimum_amount_out: 100,
                }
            );
            route
        }
        other => panic!("unexpected {:?}", other),
    };
    let after = pool_data(&w, POOL_BALANCE + amount_in);
    assert!(route.next_fits());
    assert_eq!(
        route.resume(Ok(()), &after),
        Ok(SwapStep::Transfer(TransferOrder { payout, amount: amount_in }))
    );
    assert_eq!(payout.destination, w.accounts[5].key);
    assert_eq!(payout.source, w.accounts[3].key);
}

#[test]
fn ratios_are_plain_multipliers() {
    let w = world(4);
    let configs = vec![DexConfig::new_dex_config(0, 2, 1), DexConfig::new_dex_config(0, 2, 2)];
    let route = swap(&w, 10, 3, &configs).unwrap();
    let before = w.accounts[3].data.clone();
    let (route, first) = match route.resume(Ok(()), &before) {
        Ok(SwapStep::Invoke(route, call)) => (route, call),
        other => panic!("unexpected {:?}", other),
    };
    assert_eq!((first.leg, first.amount_in, first.minimum_amount_out), (0, 10, 3));
    assert_eq!(first.adapter, Adapter { first_account: 7, account_count: 2 });
    let (route, second) = match route.resume(Ok(()), &pool_data(&w, POOL_BALANCE + 10)) {
        Ok(SwapStep::Invoke(route, call)) => (route, call),
        other => panic!("unexpected {:?}", other),
    };
    assert_eq!((second.leg, second.amount_in, second.minimum_amount_out), (1, 20, 6));
    assert_eq!(second.adapter, Adapter { first_account: 9, account_count: 2 });
    let payout = route.payout;
    assert_eq!(
        route.resume(Ok(()), &pool_data(&w, POOL_BALANCE + 30)),
        Ok(SwapStep::Transfer(TransferOrder { payout, amount: 30 }))
    );
}

fn finished_route(minimum_amount_out: u64, balance_before: u64) -> SwapRoute {
    let key = Address::new([7u8; 32]);
    SwapRoute {
        amount_in: 5,
        minimum_amount_out,
        legs: vec![Leg { adapter: Adapter { first_account: 7, account_count: 1 }, ratio: 1 }],
        cursor: 1,
        balance_before,
        payout: Payout {
            swap: key,
            token_program: key,
            source: key,
            destination: key,
            authority: key,
            nonce: 3,
        },
    }
}

fn holding(amount: u64) -> TokenAccount {
    let key = Address::new([9u8; 32]);
    TokenAccount { mint: key, owner: key, amount, delegate: None }
}

#[test]
fn output_at_the_minimum_is_paid_out() {
    let route = finished_route(40, 1_000);
    let payout = route.payout;
    assert_eq!(
        route.resume_with(Ok(()), Ok(holding(1_040))),
        Ok(SwapStep::Transfer(TransferOrder { payout, amount: 40 }))
    );
    let route = finished_route(40, 1_000);
    assert_eq!(
        route.resume_with(Ok(()), Ok(holding(1_041))),
        Ok(SwapStep::Transfer(TransferOrder { payout, amount: 41 }))
    );
}

#[test]
fn output_one_below_the_minimum_exceeds_slippage() {
    let route = finished_route(40, 1_000);
    assert_eq!(
        route.resume_with(Ok(()), Ok(holding(1_039))),
        Err(protocol(OneSolError::ExceededSlippage))
    );
    assert_eq!(
        finished_route(40, 1_000).settle(Ok(holding(1_039))),
        Err(protocol(OneSolError::ExceededSlippage))
    );
    assert_eq!(
        finished_route(1, 1_000).settle(Ok(holding(999))),
        Err(protocol(OneSolError::ExceededSlippage))
    );
    assert_eq!(
        finished_route(0, 1_000).settle(Ok(holding(999))),
        Err(protocol(OneSolError::ExceededSlippage))
    );
}

#[test]
fn slippage_is_judged_through_the_whole_swap() {
    let w = world(2);
    let run = |after: u64| {
        let route = swap(&w, 50, 45, &one_exchange()).unwrap();
        let route = match route.resume(Ok(()), &w.accounts[3].data) {
            Ok(SwapStep::Invoke(route, _)) => route,
            other => panic!("unexpected {:?}", other),
        };
        route.resume(Ok(()), &pool_data(&w, after))
    };
    match run(POOL_BALANCE + 45) {
        Ok(SwapStep::Transfer(order)) => assert_eq!(order.amount, 45),
        other => panic!("unexpected {:?}", other),
    }
    assert_eq!(run(POOL_BALANCE + 44), Err(protocol(OneSolError::ExceededSlippage)));
}

#[test]
fn zero_ratio_contributes_nothing() {
    let w = world(4);
    let configs = vec![DexConfig::new_dex_config(0, 2, 0), DexConfig::new_dex_config(0, 2, 3)];
    let route = swap(&w, 10, 0, &configs).unwrap();
    assert_eq!(route.next_leg(), 1);
    match route.resume(Ok(()), &w.accounts[3].data) {
        Ok(SwapStep::Invoke(route, call)) => {
            assert_eq!((call.leg, call.amount_in, call.minimum_amount_out), (1, 30, 0));
            assert_eq!(route.cursor, 2);
        }
        other => panic!("unexpected {:?}", other),
    }
    let only_zero = vec![DexConfig::new_dex_config(0, 2, 0)];
    let route = swap(&w, 10, 0, &only_zero).unwrap();
    let payout = route.payout;
    assert_eq!(
        route.resume(Ok(()), &w.accounts[3].data),
        Ok(SwapStep::Transfer(TransferOrder { payout, amount: 0 }))
    );
    let route = swap(&w, 10, 1, &only_zero).unwrap();
    assert_eq!(
        route.resume(Ok(()), &w.accounts[3].data),
        Err(protocol(OneSolError::ExceededSlippage))
    );
}

#[test]
fn exchanges_of_unknown_kind_are_passed_over() {
    let w = world(2);
    let configs = vec![DexConfig::new_dex_config(1, 50, 9), DexConfig::new_dex_config(0, 2, 4)];
    let route = swap(&w, 10, 1, &configs).unwrap();
    assert_eq!(
        route.legs,
        vec![Leg { adapter: Adapter { first_account: 7, account_count: 2 }, ratio: 9 }]
    );
    match route.resume(Ok(()), &w.accounts[3].data) {
        Ok(SwapStep::Invoke(_, call)) => {
            assert_eq!((call.amount_in, call.minimum_amount_out), (90, 9))
        }
        other => panic!("unexpected {:?}", other),
    }
    assert_eq!(Adapter::build(0, 7, 2), Some(Adapter { first_account: 7, account_count: 2 }));
    assert_eq!(Adapter::build(1, 7, 2), None);
    assert_eq!(build_legs(&[DexConfig::new_dex_config(2, 1, 1)], 7, 0), Ok(vec![]));
    assert_eq!(
        build_legs(&[DexConfig::new_dex_config(0, 1, 1)], 7, 0),
        Err(ProgramFailure::NotEnoughAccountKeys)
    );
}

#[test]
fn failure_of_an_adapter_ends_the_swap_with_its_error() {
    let w = world(4);
    let configs = vec![DexConfig::new_dex_config(0, 2, 1), DexConfig::new_dex_config(0, 2, 2)];
    let route = swap(&w, 10, 3, &configs).unwrap();
    let route = match route.resume(Ok(()), &w.accounts[3].data) {
        Ok(SwapStep::Invoke(route, _)) => route,
        other => panic!("unexpected {:?}", other),
    };
    let code = u64::from(ProgramError::Custom(17));
    assert_eq!(
        route.resume(Err(code), &pool_data(&w, POOL_BALANCE + 10)),
        Err(ProgramFailure::Collaborator(17))
    );
}

#[test]
fn unreadable_pool_token_account_ends_the_swap() {
    let w = world(2);
    let route = swap(&w, 10, 3, &one_exchange()).unwrap();
    let route = match route.resume(Ok(()), &w.accounts[3].data) {
        Ok(SwapStep::Invoke(route, _)) => route,
        other => panic!("unexpected {:?}", other),
    };
    assert_eq!(
        route.clone().resume(Ok(()), &[1, 2, 3]),
        Err(ProgramFailure::Collaborator(u64::from(ProgramError::InvalidAccountData)))
    );
    assert_eq!(
        route.resume(Ok(()), &vec![0u8; Account::LEN]),
        Err(ProgramFailure::Collaborator(u64::from(ProgramError::UninitializedAccount)))
    );
}

#[test]
fn amounts_that_do_not_fit_are_told_apart() {
    let w = world(4);
    let configs = vec![DexConfig::new_dex_config(0, 2, 1), DexConfig::new_dex_config(0, 2, 2)];
    let route = swap(&w, u64::MAX, 0, &configs).unwrap();
    assert!(route.next_fits());
    let route = match route.resume(Ok(()), &w.accounts[3].data) {
        Ok(SwapStep::Invoke(route, call)) => {
            assert_eq!(call.amount_in, u64::MAX);
            route
        }
        other => panic!("unexpected {:?}", other),
    };
    assert!(!route.next_fits());
    let route = swap(&w, 1, u64::MAX / 2 + 1, &configs).unwrap();
    assert!(route.next_fits());
    let route = SwapRoute { cursor: 1, ..route };
    assert!(!route.next_fits());
    let route = SwapRoute { cursor: 2, ..route };
    assert!(route.next_fits());
}

#[test]
fn process_decodes_and_dispatches_a_swap() {
    let w = world(2);
    let mut input = vec![1u8];
    input.extend_from_slice(&100u64.to_le_bytes());
    input.extend_from_slice(&90u64.to_le_bytes());
    input.extend_from_slice(&[1, 0, 2, 1]);
    let expected = swap(&w, 100, 90, &one_exchange()).unwrap();
    assert_eq!(
        Processor::process(&address(&w.program_id), &w.accounts, &input),
        Ok(Processed::Swap(expected))
    );
    assert_eq!(
        Processor::process(&address(&w.program_id), &w.accounts, &[]),
        Err(protocol(OneSolError::InvalidInput))
    );
    assert_eq!(
        Processor::process(&address(&w.program_id), &w.accounts, &[9]),
        Err(protocol(OneSolError::InvalidInstruction))
    );
    input[1..9].copy_from_slice(&0u64.to_le_bytes());
    assert_eq!(
        Processor::process(&address(&w.program_id), &w.accounts, &input),
        Err(protocol(OneSolError::InvalidInput))
    );
}

#[test]
fn authority_is_the_derived_address() {
    let program_id = Pubkey::new_unique();
    let pool = Pubkey::new_unique();
    let (authority, nonce) = Pubkey::find_program_address(&[&pool.to_bytes()[..32]], &program_id);
    assert_eq!(
        Processor::authority_id(&address(&program_id), &address(&pool), nonce),
        Ok(address(&authority))
    );
    assert_eq!(Processor::authority_from(None), Err(OneSolError::InvalidProgramAddress));
    assert_eq!(Processor::authority_from(Some(address(&pool))), Ok(address(&pool)));
    let mut refused = 0;
    for n in 0..=255u8 {
        let ours = Processor::authority_id(&address(&program_id), &address(&pool), n);
        match Pubkey::create_program_address(&[&pool.to_bytes()[..32], &[n]], &program_id) {
            Ok(key) => assert_eq!(ours, Ok(address(&key))),
            Err(_) => {
                refused += 1;
                assert_eq!(ours, Err(OneSolError::InvalidProgramAddress));
            }
        }
    }
    assert!(refused > 0);
}

#[test]
fn token_transfer_is_signed_with_the_pool_seeds() {
    let w = world(0);
    let order = TransferOrder {
        payout: Payout {
            swap: w.accounts[0].key,
            token_program: w.accounts[6].key,
            source: w.accounts[3].key,
            destination: w.accounts[5].key,
            authority: w.accounts[1].key,
            nonce: 250,
        },
        amount: 0x0102_0304_0506_0708,
    };
    let p = order.payout;
    let signed = Processor::token_transfer(
        &p.swap,
        &p.token_program,
        &p.source,
        &p.destination,
        &p.authority,
        p.nonce,
        order.amount,
    )
    .unwrap();
    assert_eq!(signed.seed, p.swap);
    assert_eq!(signed.nonce, 250);
    assert_eq!(signed.accounts, [p.source, p.destination, p.authority, p.token_program]);
    assert_eq!(signed.instruction.program_id, address(&spl_token::id()));
    assert_eq!(signed.instruction.data, vec![3, 8, 7, 6, 5, 4, 3, 2, 1]);
    let roles: Vec<(Address, bool, bool)> = signed
        .instruction
        .accounts
        .iter()
        .map(|role| (role.key, role.is_signer, role.is_writable))
        .collect();
    assert_eq!(
        roles,
        vec![(p.source, false, true), (p.destination, false, true), (p.authority, true, false)]
    );
}

#[test]
fn token_transfer_hands_on_the_builder_error() {
    let key = Address::new([1u8; 32]);
    assert_eq!(
        Processor::token_transfer(&key, &key, &key, &key, &key, 1, 1),
        Err(ProgramFailure::Collaborator(u64::from(ProgramError::IncorrectProgramId)))
    );
    assert_eq!(
        Processor::signed_transfer(&key, &key, &key, &key, &key, 1, Err(77)),
        Err(ProgramFailure::Collaborator(77))
    );
}
