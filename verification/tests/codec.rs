use onesol_protocol::error::OneSolError;
use onesol_protocol::instruction::{DexConfig, Initialize, OneSolInstruction, Swap};

#[test]
fn test_unpack_dexes_configs() {
    let r = OneSolInstruction::unpack_dexes_configs(&[0]);
    assert_eq!(r.is_err(), true);
    let r = OneSolInstruction::unpack_dexes_configs(&[1]);
    assert_eq!(r.is_err(), true);
    let r = OneSolInstruction::unpack_dexes_configs(&[1, 0]);
    assert_eq!(r.is_err(), true);
    let r = OneSolInstruction::unpack_dexes_configs(&[1, 1, 1]);
    assert_eq!(r.is_err(), true);
    let r = OneSolInstruction::unpack_dexes_configs(&[1, 1, 1, 1]);
    assert_eq!(r.is_ok(), true);
    let (v, rest) = r.unwrap();
    assert_eq!(v, vec![DexConfig::new_dex_config(1, 1, 1)]);
    assert_ne!(v, vec![DexConfig::new_dex_config(1, 1, 2)]);
    assert_eq!(rest.len(), 0);
}

fn swap_payload(amount_in: u64, minimum_amount_out: u64, records: &[u8]) -> Vec<u8> {
    let mut bytes = vec![1u8];
    bytes.extend_from_slice(&amount_in.to_le_bytes());
    bytes.extend_from_slice(&minimum_amount_out.to_le_bytes());
    bytes.extend_from_slice(records);
    bytes
}

#[test]
fn unpack_swap_with_one_exchange() {
    let bytes = swap_payload(100, 90, &[1, 0, 1, 1]);
    assert_eq!(
        OneSolInstruction::unpack(&bytes),
        Ok(OneSolInstruction::Swap(Swap {
            amount_in: 100,
            minimum_amount_out: 90,
            dex_configs: vec![DexConfig { dex_type: 0, account_size: 1, ratio: 1 }],
        }))
    );
}

#[test]
fn unpack_initialize() {
    assert_eq!(
        OneSolInstruction::unpack(&[0, 5]),
        Ok(OneSolInstruction::Initialize(Initialize { nonce: 5 }))
    );
}

#[test]
fn unpack_rejects_empty_payload() {
    assert_eq!(OneSolInstruction::unpack(&[]), Err(OneSolError::InvalidInput));
}

#[test]
fn unpack_rejects_unknown_tag() {
    assert_eq!(OneSolInstruction::unpack(&[2, 0, 0]), Err(OneSolError::InvalidInstruction));
    assert_eq!(OneSolInstruction::unpack(&[255]), Err(OneSolError::InvalidInstruction));
}

#[test]
fn unpack_rejects_swap_without_exchanges() {
    let bytes = swap_payload(100, 90, &[0]);
    assert_eq!(OneSolInstruction::unpack(&bytes), Err(OneSolError::InvalidInput));
}

#[test]
fn unpack_rejects_initialize_without_nonce() {
    assert_eq!(OneSolInstruction::unpack(&[0]), Err(OneSolError::InvalidInput));
}

#[test]
fn unpack_rejects_short_amounts() {
    assert_eq!(OneSolInstruction::unpack(&[1]), Err(OneSolError::InvalidInstruction));
    assert_eq!(
        OneSolInstruction::unpack(&[1, 1, 2, 3, 4, 5, 6, 7]),
        Err(OneSolError::InvalidInstruction)
    );
    let mut bytes = swap_payload(1, 1, &[]);
    bytes.pop();
    assert_eq!(OneSolInstruction::unpack(&bytes), Err(OneSolError::InvalidInstruction));
}

#[test]
fn unpack_rejects_missing_count_and_short_records() {
    assert_eq!(
        OneSolInstruction::unpack(&swap_payload(1, 1, &[])),
        Err(OneSolError::InvalidInput)
    );
    assert_eq!(
        OneSolInstruction::unpack(&swap_payload(1, 1, &[2, 0, 1, 1, 0, 1])),
        Err(OneSolError::InvalidInput)
    );
}

#[test]
fn unpack_reads_amounts_least_significant_byte_first() {
    let mut bytes = vec![1u8, 1, 2, 3, 4, 5, 6, 7, 8, 0xff, 0xff, 0xff, 0xff, 0xff, 0xff, 0xff, 0xff];
    bytes.extend_from_slice(&[1, 0, 7, 3]);
    assert_eq!(
        OneSolInstruction::unpack(&bytes),
        Ok(OneSolInstruction::Swap(Swap {
            amount_in: 0x0807_0605_0403_0201,
            minimum_amount_out: u64::MAX,
            dex_configs: vec![DexConfig { dex_type: 0, account_size: 7, ratio: 3 }],
        }))
    );
}

#[test]
fn unpack_ignores_trailing_bytes() {
    let bytes = swap_payload(10, 1, &[2, 0, 7, 1, 9, 200, 2, 42, 43]);
    assert_eq!(
        OneSolInstruction::unpack(&bytes),
        Ok(OneSolInstruction::Swap(Swap {
            amount_in: 10,
            minimum_amount_out: 1,
            dex_configs: vec![
                DexConfig { dex_type: 0, account_size: 7, ratio: 1 },
                DexConfig { dex_type: 9, account_size: 200, ratio: 2 },
            ],
        }))
    );
    assert_eq!(
        OneSolInstruction::unpack(&[0, 5, 6, 7]),
        Ok(OneSolInstruction::Initialize(Initialize { nonce: 5 }))
    );
}

#[test]
fn unpack_takes_the_largest_count() {
    let mut records = vec![255u8];
    for i in 0..255u32 {
        records.extend_from_slice(&[0, (i % 256) as u8, 1]);
    }
    let parsed = OneSolInstruction::unpack(&swap_payload(1, 0, &records));
    match parsed {
        Ok(OneSolInstruction::Swap(swap)) => {
            assert_eq!(swap.dex_configs.len(), 255);
            assert_eq!(swap.dex_configs[254], DexConfig { dex_type: 0, account_size: 254, ratio: 1 });
        }
        other => panic!("unexpected {:?}", other),
    }
    records.pop();
    assert_eq!(
        OneSolInstruction::unpack(&swap_payload(1, 0, &records)),
        Err(OneSolError::InvalidInput)
    );
}

#[test]
fn unpack_u64_splits_the_input() {
    let r = OneSolInstruction::unpack_u64(&[1, 0, 0, 0, 0, 0, 0, 0, 9, 8]);
    assert_eq!(r, Ok((1u64, &[9u8, 8][..])));
    assert_eq!(
        OneSolInstruction::unpack_u64(&[1, 0, 0, 0, 0, 0, 0]),
        Err(OneSolError::InvalidInstruction)
    );
}

#[test]
fn pack_then_unpack_gives_the_instruction_back() {
    let swap = OneSolInstruction::Swap(Swap {
        amount_in: 123_456_789_012,
        minimum_amount_out: 42,
        dex_configs: vec![
            DexConfig::new_dex_config(0, 7, 1),
            DexConfig::new_dex_config(3, 255, 0),
        ],
    });
    let bytes = swap.pack().unwrap();
    assert_eq!(bytes.len(), 1 + 8 + 8 + 1 + 6);
    assert_eq!(OneSolInstruction::unpack(&bytes), Ok(swap));
    let init = OneSolInstruction::Initialize(Initialize { nonce: 254 });
    assert_eq!(init.pack(), Some(vec![0, 254]));
    assert_eq!(OneSolInstruction::unpack(&init.pack().unwrap()), Ok(init));
}

#[test]
fn unpack_then_pack_gives_the_bytes_back() {
    let bytes = swap_payload(100, 90, &[1, 0, 1, 1]);
    let parsed = OneSolInstruction::unpack(&bytes).unwrap();
    assert_eq!(parsed.pack(), Some(bytes));
}

#[test]
fn pack_refuses_what_the_format_cannot_hold() {
    let empty = OneSolInstruction::Swap(Swap {
        amount_in: 1,
        minimum_amount_out: 1,
        dex_configs: vec![],
    });
    assert_eq!(empty.pack(), None);
    let wide = OneSolInstruction::Swap(Swap {
        amount_in: 1,
        minimum_amount_out: 1,
        dex_configs: vec![DexConfig::new_dex_config(0, 256, 1)],
    });
    assert_eq!(wide.pack(), None);
    let long = OneSolInstruction::Swap(Swap {
        amount_in: 1,
        minimum_amount_out: 1,
        dex_configs: vec![DexConfig::new_dex_config(0, 1, 1); 256],
    });
    assert_eq!(long.pack(), None);
}

#[test]
fn every_error_kind_has_its_label() {
    assert_eq!(OneSolError::Unknown.label(), "Error: Unknown");
    assert_eq!(OneSolError::ExceededSlippage.label(), "Error: ExceededSlippage");
    assert_eq!(OneSolError::IncorrectSwapAccount.label(), "Error: IncorrectSwapAccount");
    assert_eq!(OneSolError::InvalidDelegate.label(), "Error: InvalidDelegate");
    assert_eq!(OneSolError::InvalidInstruction.label(), "Error: InvalidInstruction");
    assert_eq!(OneSolError::InvalidInput.label(), "Error: InvalidInput");
    assert_eq!(OneSolError::InvalidOwner.label(), "Error: InvalidOwner");
    assert_eq!(OneSolError::InvalidProgramAddress.label(), "Error: InvildProgramAddress");
    assert_eq!(OneSolError::ExpectedAccount.label(), "Error: ExpectedAccount");
    assert_eq!(OneSolError::IncorrectTokenProgramId.label(), "Error: IncorrectTokenProgramId");
    assert_eq!(OneSolError::ConversionFailure.label(), "Error: ConversionFailure");
    assert_eq!(OneSolError::ZeroTradingTokens.label(), "Error: ZeroTradingTokens");
    assert_eq!(OneSolError::InternalError.label(), "Error: InternalError");
}
