//! The instruction codec: a compact, strictly positional, little-endian
//! wire format and the typed instructions that it carries.
//!
//! | offset | length | field                                   |
//! |--------|--------|-----------------------------------------|
//! | 0      | 1      | tag: 0 = initialize, 1 = swap           |
//! | 1      | 1      | initialize: nonce                       |
//! | 1      | 8      | swap: amount in                         |
//! | 9      | 8      | swap: minimum amount out                |
//! | 17     | 1      | swap: number `n` of exchange records    |
//! | 18     | 3 * n  | swap: `n` records (kind, accounts, ratio) |
//!
//! Bytes behind the fields are not looked at.

use crate::error::OneSolError;
use vstd::prelude::*;

verus! {

/// Initialize instruction data.
#[derive(Clone, Debug, PartialEq)]
pub struct Initialize {
    /// Nonce used to derive the pool's authority address.
    pub nonce: u8,
}

/// Swap instruction data.
#[derive(Clone, Debug, PartialEq)]
pub struct Swap {
    /// Source amount to trade; every exchange gets a multiple of it.
    pub amount_in: u64,
    /// Least amount of the destination token that the caller accepts.
    pub minimum_amount_out: u64,
    /// The exchanges to route through, in order.
    pub dex_configs: Vec<DexConfig>,
}

/// One exchange to route through.
#[derive(Clone, Copy, Debug, PartialEq)]
pub struct DexConfig {
    /// Kind of exchange adapter; 0 is the standard pool adapter.
    pub dex_type: u8,
    /// How many accounts of the account list belong to this exchange.
    pub account_size: usize,
    /// Multiplier applied to the amounts handed to this exchange.
    pub ratio: u8,
}

/// Instructions supported by the program.
#[derive(Debug, PartialEq)]
pub enum OneSolInstruction {
    /// Sets up a new pool.
    ///
    /// Accounts: the pool, its derived authority, the pool's token account,
    /// the token program.
    Initialize(Initialize),
    /// Routes a trade through the configured exchanges.
    ///
    /// Accounts: the pool, its derived authority, the user's transfer
    /// authority, the pool's token account, the source token account, the
    /// destination token account, the token program, then for every exchange
    /// record the accounts that it asks for.
    Swap(Swap),
}

/// What an instruction says, with its list as a mathematical sequence.
pub enum InstructionView {
    Initialize { nonce: u8 },
    Swap { amount_in: u64, minimum_amount_out: u64, dex_configs: Seq<DexConfig> },
}

impl View for OneSolInstruction {
    type V = InstructionView;

    open spec fn view(&self) -> InstructionView {
        match self {
            OneSolInstruction::Initialize(i) => InstructionView::Initialize { nonce: i.nonce },
            OneSolInstruction::Swap(s) => InstructionView::Swap {
                amount_in: s.amount_in,
                minimum_amount_out: s.minimum_amount_out,
                dex_configs: s.dex_configs@,
            },
        }
    }
}

/// The number that eight bytes spell, least significant byte first.
pub open spec fn le_u64(b: Seq<u8>) -> int
    recommends
        b.len() == 8,
{
    b[0] + 0x100 * b[1] + 0x1_0000 * b[2] + 0x100_0000 * b[3] + 0x1_0000_0000 * b[4]
        + 0x100_0000_0000 * b[5] + 0x1_0000_0000_0000 * b[6] + 0x100_0000_0000_0000 * b[7]
}

/// The eight bytes that spell `x`, least significant byte first.
pub open spec fn le_bytes(x: u64) -> Seq<u8> {
    seq![
        (x % 0x100) as u8,
        (x / 0x100 % 0x100) as u8,
        (x / 0x1_0000 % 0x100) as u8,
        (x / 0x100_0000 % 0x100) as u8,
        (x / 0x1_0000_0000 % 0x100) as u8,
        (x / 0x100_0000_0000 % 0x100) as u8,
        (x / 0x1_0000_0000_0000 % 0x100) as u8,
        (x / 0x100_0000_0000_0000 % 0x100) as u8,
    ]
}

/// The `i`-th three-byte exchange record of `records`.
pub open spec fn record_at(records: Seq<u8>, i: int) -> DexConfig {
    DexConfig {
        dex_type: records[3 * i],
        account_size: records[3 * i + 1] as usize,
        ratio: records[3 * i + 2],
    }
}

/// The `n` exchange records that `records` starts with.
pub open spec fn records_of(records: Seq<u8>, n: nat) -> Seq<DexConfig> {
    Seq::new(n, |i: int| record_at(records, i))
}

/// The bytes of a list of exchange records, three for each.
pub open spec fn record_bytes(configs: Seq<DexConfig>) -> Seq<u8> {
    Seq::new(
        3 * configs.len(),
        |j: int|
            if j % 3 == 0 {
                configs[j / 3].dex_type
            } else if j % 3 == 1 {
                configs[j / 3].account_size as u8
            } else {
                configs[j / 3].ratio
            },
    )
}

/// A number field: the first eight bytes as a number, and the bytes behind
/// them. Fewer than eight bytes are no number.
pub open spec fn spec_unpack_u64(input: Seq<u8>) -> Result<(u64, Seq<u8>), OneSolError> {
    if input.len() >= 8 {
        Ok((le_u64(input.subrange(0, 8)) as u64, input.subrange(8, input.len() as int)))
    } else {
        Err(OneSolError::InvalidInstruction)
    }
}

/// A list of exchange records: a count byte `n`, which is not 0, then `n`
/// records of three bytes; and the bytes behind them.
pub open spec fn spec_unpack_dexes_configs(input: Seq<u8>) -> Result<
    (Seq<DexConfig>, Seq<u8>),
    OneSolError,
> {
    if input.len() < 1 || input[0] == 0 || input.len() - 1 < 3 * input[0] {
        Err(OneSolError::InvalidInput)
    } else {
        let n = input[0] as int;
        Ok(
            (
                records_of(input.subrange(1, 1 + 3 * n), n as nat),
                input.subrange(1 + 3 * n, input.len() as int),
            ),
        )
    }
}

/// What a payload means: the instruction that it spells, or the reason why
/// it spells none.
pub open spec fn spec_unpack(input: Seq<u8>) -> Result<InstructionView, OneSolError> {
    if input.len() < 1 {
        Err(OneSolError::InvalidInput)
    } else if input[0] == 0 {
        if input.len() < 2 {
            Err(OneSolError::InvalidInput)
        } else {
            Ok(InstructionView::Initialize { nonce: input[1] })
        }
    } else if input[0] == 1 {
        if input.len() < 17 {
            Err(OneSolError::InvalidInstruction)
        } else if input.len() < 18 || input[17] == 0 || input.len() - 18 < 3 * input[17] {
            Err(OneSolError::InvalidInput)
        } else {
            Ok(
                InstructionView::Swap {
                    amount_in: le_u64(input.subrange(1, 9)) as u64,
                    minimum_amount_out: le_u64(input.subrange(9, 17)) as u64,
                    dex_configs: records_of(
                        input.subrange(18, 18 + 3 * input[17]),
                        input[17] as nat,
                    ),
                },
            )
        }
    } else {
        Err(OneSolError::InvalidInstruction)
    }
}

/// Whether the wire format has room for an instruction: a swap carries
/// between 1 and 255 exchange records, and each record's account count fits
/// one byte.
pub open spec fn encodable(i: InstructionView) -> bool {
    match i {
        InstructionView::Initialize { .. } => true,
        InstructionView::Swap { dex_configs, .. } => {
            &&& 1 <= dex_configs.len() <= 255
            &&& forall|k: int|
                0 <= k < dex_configs.len() ==> (#[trigger] dex_configs[k]).account_size <= 255
        },
    }
}

/// The payload that spells an instruction.
pub open spec fn spec_pack(i: InstructionView) -> Seq<u8> {
    match i {
        InstructionView::Initialize { nonce } => seq![0u8, nonce],
        InstructionView::Swap { amount_in, minimum_amount_out, dex_configs } => seq![1u8]
            + le_bytes(amount_in) + le_bytes(minimum_amount_out) + seq![dex_configs.len() as u8]
            + record_bytes(dex_configs),
    }
}

/// Reads eight bytes as a number, least significant byte first.
fn read_le_u64(b: &[u8]) -> (x: u64)
    requires
        b@.len() == 8,
    ensures
        x == le_u64(b@),
{
    let b0: u64 = b[0] as u64;
    let b1: u64 = b[1] as u64;
    let b2: u64 = b[2] as u64;
    let b3: u64 = b[3] as u64;
    let b4: u64 = b[4] as u64;
    let b5: u64 = b[5] as u64;
    let b6: u64 = b[6] as u64;
    let b7: u64 = b[7] as u64;
    b0 + 0x100 * b1 + 0x1_0000 * b2 + 0x100_0000 * b3 + 0x1_0000_0000 * b4 + 0x100_0000_0000 * b5
        + 0x1_0000_0000_0000 * b6 + 0x100_0000_0000_0000 * b7
}

/// Appends the eight bytes of `x` to `out`, least significant byte first.
fn write_le_u64(out: &mut Vec<u8>, x: u64)
    ensures
        final(out)@ == old(out)@ + le_bytes(x),
{
    out.push((x % 0x100) as u8);
    out.push((x / 0x100 % 0x100) as u8);
    out.push((x / 0x1_0000 % 0x100) as u8);
    out.push((x / 0x100_0000 % 0x100) as u8);
    out.push((x / 0x1_0000_0000 % 0x100) as u8);
    out.push((x / 0x100_0000_0000 % 0x100) as u8);
    out.push((x / 0x1_0000_0000_0000 % 0x100) as u8);
    out.push((x / 0x100_0000_0000_0000 % 0x100) as u8);
    assert(out@ =~= old(out)@ + le_bytes(x));
}

impl OneSolInstruction {
    /// Unpacks a byte buffer into an instruction.
    ///
    /// An empty buffer and an initialize payload without its nonce are
    /// `InvalidInput`; an unknown tag and a swap payload that ends inside its
    /// two amounts are `InvalidInstruction`; a swap payload without a count,
    /// with a count of 0 or with fewer than three bytes for each record is
    /// `InvalidInput`.
    pub fn unpack(input: &[u8]) -> (r: Result<OneSolInstruction, OneSolError>)
        ensures
            match r {
                Ok(i) => spec_unpack(input@) == Ok::<InstructionView, OneSolError>(i@),
                Err(e) => spec_unpack(input@) == Err::<InstructionView, OneSolError>(e),
            },
            r matches Ok(OneSolInstruction::Swap(s)) ==> s.dex_configs@.len() >= 1,
    {
        if input.len() < 1 {
            return Err(OneSolError::InvalidInput);
        }
        let tag = input[0];
        let (_, rest) = input.split_at(1);
        if tag == 0 {
            if rest.len() < 1 {
                return Err(OneSolError::InvalidInput);
            }
            Ok(OneSolInstruction::Initialize(Initialize { nonce: rest[0] }))
        } else if tag == 1 {
            let (amount_in, rest) = match Self::unpack_u64(rest) {
                Ok(p) => p,
                Err(e) => {
                    return Err(e);
                },
            };
            let (minimum_amount_out, rest) = match Self::unpack_u64(rest) {
                Ok(p) => p,
                Err(e) => {
                    return Err(e);
                },
            };
            let (dex_configs, _rest) = match Self::unpack_dexes_configs(rest) {
                Ok(p) => p,
                Err(e) => {
                    return Err(e);
                },
            };
            proof {
                let n = input@[17] as int;
                assert(input@.subrange(1, input@.len() as int).subrange(0, 8) =~= input@.subrange(
                    1,
                    9,
                ));
                assert(input@.subrange(1, input@.len() as int).subrange(8, input@.len() - 1)
                    =~= input@.subrange(9, input@.len() as int));
                assert(input@.subrange(9, input@.len() as int).subrange(0, 8) =~= input@.subrange(
                    9,
                    17,
                ));
                assert(input@.subrange(9, input@.len() as int).subrange(8, input@.len() - 9)
                    =~= input@.subrange(17, input@.len() as int));
                assert(input@.subrange(17, input@.len() as int).subrange(1, 1 + 3 * n)
                    =~= input@.subrange(18, 18 + 3 * n));
            }
            Ok(OneSolInstruction::Swap(Swap { amount_in, minimum_amount_out, dex_configs }))
        } else {
            Err(OneSolError::InvalidInstruction)
        }
    }

    /// Reads one number field from the front of `input` and returns it with
    /// the bytes behind it; `InvalidInstruction` where `input` has fewer than
    /// eight bytes.
    pub fn unpack_u64(input: &[u8]) -> (r: Result<(u64, &[u8]), OneSolError>)
        ensures
            match r {
                Ok((amount, rest)) => spec_unpack_u64(input@) == Ok::<
                    (u64, Seq<u8>),
                    OneSolError,
                >((amount, rest@)),
                Err(e) => spec_unpack_u64(input@) == Err::<(u64, Seq<u8>), OneSolError>(e),
            },
    {
        if input.len() >= 8 {
            let (amount, rest) = input.split_at(8);
            Ok((read_le_u64(amount), rest))
        } else {
            Err(OneSolError::InvalidInstruction)
        }
    }

    /// Reads a list of exchange records from the front of `input` and
    /// returns it with the bytes behind it.
    ///
    /// The list is a count byte, then for each record its kind, the number
    /// of accounts that belong to it, and its ratio. `InvalidInput` where the
    /// count is missing or 0, or where `input` holds fewer records than it
    /// announces.
    pub fn unpack_dexes_configs(input: &[u8]) -> (r: Result<(Vec<DexConfig>, &[u8]), OneSolError>)
        ensures
            match r {
                Ok((configs, rest)) => spec_unpack_dexes_configs(input@) == Ok::<
                    (Seq<DexConfig>, Seq<u8>),
                    OneSolError,
                >((configs@, rest@)),
                Err(e) => spec_unpack_dexes_configs(input@) == Err::<
                    (Seq<DexConfig>, Seq<u8>),
                    OneSolError,
                >(e),
            },
            r matches Ok((configs, _)) ==> configs@.len() >= 1,
    {
        if input.len() < 1 {
            return Err(OneSolError::InvalidInput);
        }
        let count: usize = input[0] as usize;
        if count < 1 {
            return Err(OneSolError::InvalidInput);
        }
        let (_, after_count) = input.split_at(1);
        let records_len: usize = count * 3;
        if after_count.len() < records_len {
            return Err(OneSolError::InvalidInput);
        }
        let (records, rest) = after_count.split_at(records_len);
        let mut result: Vec<DexConfig> = Vec::new();
        let mut i: usize = 0;
        while i < count
            invariant
                i <= count <= 255,
                records@.len() == 3 * count,
                result@ =~= records_of(records@, i as nat),
            decreases count - i,
        {
            result.push(
                DexConfig {
                    dex_type: records[3 * i],
                    account_size: records[3 * i + 1] as usize,
                    ratio: records[3 * i + 2],
                },
            );
            i += 1;
        }
        proof {
            assert(records@ =~= input@.subrange(1, 1 + 3 * count));
            assert(rest@ =~= input@.subrange(1 + 3 * count, input@.len() as int));
        }
        Ok((result, rest))
    }

    /// Packs the instruction into the payload that [`Self::unpack`] reads
    /// back; `None` where the wire format has no room for it.
    pub fn pack(&self) -> (r: Option<Vec<u8>>)
        ensures
            match r {
                Some(bytes) => encodable(self@) && bytes@ == spec_pack(self@),
                None => !encodable(self@),
            },
    {
        match self {
            OneSolInstruction::Initialize(init) => {
                let mut out: Vec<u8> = Vec::new();
                out.push(0u8);
                out.push(init.nonce);
                assert(out@ =~= spec_pack(self@));
                Some(out)
            },
            OneSolInstruction::Swap(swap) => {
                let n: usize = swap.dex_configs.len();
                if n < 1 || n > 255 {
                    return None;
                }
                let mut out: Vec<u8> = Vec::new();
                out.push(1u8);
                write_le_u64(&mut out, swap.amount_in);
                write_le_u64(&mut out, swap.minimum_amount_out);
                out.push(n as u8);
                let ghost head = out@;
                let mut i: usize = 0;
                while i < n
                    invariant
                        *self == OneSolInstruction::Swap(*swap),
                        i <= n == swap.dex_configs@.len() <= 255,
                        forall|k: int|
                            0 <= k < i ==> (#[trigger] swap.dex_configs@[k]).account_size <= 255,
                        out@ =~= head + record_bytes(swap.dex_configs@.subrange(0, i as int)),
                    decreases n - i,
                {
                    let config = &swap.dex_configs[i];
                    if config.account_size > 255 {
                        assert(swap.dex_configs@[i as int].account_size > 255);
                        return None;
                    }
                    out.push(config.dex_type);
                    out.push(config.account_size as u8);
                    out.push(config.ratio);
                    i += 1;
                }
                assert(swap.dex_configs@.subrange(0, n as int) =~= swap.dex_configs@);
                assert(out@ =~= spec_pack(self@));
                Some(out)
            },
        }
    }
}

impl DexConfig {
    /// A record of the exchange of kind `dex_type` that takes `account_size`
    /// accounts and trades `ratio` times the instruction's amounts.
    pub fn new_dex_config(dex_type: u8, account_size: usize, ratio: u8) -> (r: DexConfig)
        ensures
            r == (DexConfig { dex_type, account_size, ratio }),
    {
        DexConfig { dex_type, account_size, ratio }
    }
}

/// Eight bytes spell a number that fits 64 bits, and that number's bytes
/// are the same eight.
pub proof fn le_bytes_of_le_u64(b: Seq<u8>)
    requires
        b.len() == 8,
    ensures
        0 <= le_u64(b) <= u64::MAX,
        le_bytes(le_u64(b) as u64) == b,
{
    let v7: int = b[7] as int;
    let v6: int = b[6] + 0x100 * v7;
    let v5: int = b[5] + 0x100 * v6;
    let v4: int = b[4] + 0x100 * v5;
    let v3: int = b[3] + 0x100 * v4;
    let v2: int = b[2] + 0x100 * v3;
    let v1: int = b[1] + 0x100 * v2;
    let v0: int = b[0] + 0x100 * v1;
    assert(v0 == le_u64(b));
    assert(v0 / 0x100 == v1 && v0 % 0x100 == b[0]);
    assert(v1 / 0x100 == v2 && v1 % 0x100 == b[1]);
    assert(v2 / 0x100 == v3 && v2 % 0x100 == b[2]);
    assert(v3 / 0x100 == v4 && v3 % 0x100 == b[3]);
    assert(v4 / 0x100 == v5 && v4 % 0x100 == b[4]);
    assert(v5 / 0x100 == v6 && v5 % 0x100 == b[5]);
    assert(v6 / 0x100 == v7 && v6 % 0x100 == b[6]);
    assert(v7 % 0x100 == b[7]);
    assert(v0 / 0x1_0000 == v2);
    assert(v0 / 0x100_0000 == v3);
    assert(v0 / 0x1_0000_0000 == v4);
    assert(v0 / 0x100_0000_0000 == v5);
    assert(v0 / 0x1_0000_0000_0000 == v6);
    assert(v0 / 0x100_0000_0000_0000 == v7);
    assert(le_bytes(v0 as u64) =~= b);
}

/// The bytes of a number spell that number.
pub proof fn le_u64_of_le_bytes(x: u64)
    ensures
        le_bytes(x).len() == 8,
        le_u64(le_bytes(x)) == x,
{
    let q0: int = x as int;
    let q1: int = q0 / 0x100;
    let q2: int = q1 / 0x100;
    let q3: int = q2 / 0x100;
    let q4: int = q3 / 0x100;
    let q5: int = q4 / 0x100;
    let q6: int = q5 / 0x100;
    let q7: int = q6 / 0x100;
    assert(q0 / 0x1_0000 == q2);
    assert(q0 / 0x100_0000 == q3);
    assert(q0 / 0x1_0000_0000 == q4);
    assert(q0 / 0x100_0000_0000 == q5);
    assert(q0 / 0x1_0000_0000_0000 == q6);
    assert(q0 / 0x100_0000_0000_0000 == q7);
    assert(q7 < 0x100);
    let b = le_bytes(x);
    assert(b[0] == q0 % 0x100 && b[1] == q1 % 0x100 && b[2] == q2 % 0x100 && b[3] == q3 % 0x100);
    assert(b[4] == q4 % 0x100 && b[5] == q5 % 0x100 && b[6] == q6 % 0x100 && b[7] == q7);
    assert(q6 == b[6] + 0x100 * b[7]);
    assert(q5 == b[5] + 0x100 * q6);
    assert(q4 == b[4] + 0x100 * q5);
    assert(q3 == b[3] + 0x100 * q4);
    assert(q2 == b[2] + 0x100 * q3);
    assert(q1 == b[1] + 0x100 * q2);
    assert(q0 == b[0] + 0x100 * q1);
}

/// Reading back the bytes of a list of records gives the list.
pub proof fn records_of_record_bytes(configs: Seq<DexConfig>)
    requires
        forall|k: int| 0 <= k < configs.len() ==> (#[trigger] configs[k]).account_size <= 255,
    ensures
        record_bytes(configs).len() == 3 * configs.len(),
        records_of(record_bytes(configs), configs.len()) == configs,
{
    assert forall|k: int| 0 <= k < configs.len() implies #[trigger] records_of(
        record_bytes(configs),
        configs.len(),
    )[k] == configs[k] by {
        assert((3 * k) % 3 == 0 && (3 * k) / 3 == k);
        assert((3 * k + 1) % 3 == 1 && (3 * k + 1) / 3 == k);
        assert((3 * k + 2) % 3 == 2 && (3 * k + 2) / 3 == k);
    }
    assert(records_of(record_bytes(configs), configs.len()) =~= configs);
}

/// Writing out the records read from some bytes gives those bytes.
pub proof fn record_bytes_of_records(records: Seq<u8>, n: nat)
    requires
        records.len() == 3 * n,
    ensures
        record_bytes(records_of(records, n)) == records,
{
    let configs = records_of(records, n);
    assert forall|j: int| 0 <= j < 3 * n implies #[trigger] record_bytes(configs)[j]
        == records[j] by {
        let k = j / 3;
        assert(0 <= k < n && j == 3 * k + j % 3);
    }
    assert(record_bytes(configs) =~= records);
}

/// Decoding inverts encoding: the payload of an instruction that the wire
/// format has room for decodes to that instruction, whatever bytes follow
/// it.
pub proof fn unpack_inverts_pack(i: InstructionView, tail: Seq<u8>)
    requires
        encodable(i),
    ensures
        spec_unpack(spec_pack(i) + tail) == Ok::<InstructionView, OneSolError>(i),
{
    let input = spec_pack(i) + tail;
    match i {
        InstructionView::Initialize { nonce } => {},
        InstructionView::Swap { amount_in, minimum_amount_out, dex_configs } => {
            let n = dex_configs.len();
            le_u64_of_le_bytes(amount_in);
            le_u64_of_le_bytes(minimum_amount_out);
            records_of_record_bytes(dex_configs);
            assert(input.len() == 18 + 3 * n + tail.len());
            assert(input[0] == 1u8);
            assert(input[17] == n);
            assert(input.subrange(1, 9) =~= le_bytes(amount_in));
            assert(input.subrange(9, 17) =~= le_bytes(minimum_amount_out));
            assert(input.subrange(18, 18 + 3 * n as int) =~= record_bytes(dex_configs));
        },
    }
}

/// Encoding inverts decoding: a payload that decodes starts with the
/// encoding of the instruction that it decodes to, and every valid decode is
/// of an instruction that the wire format has room for.
pub proof fn pack_inverts_unpack(input: Seq<u8>)
    requires
        spec_unpack(input) is Ok,
    ensures
        encodable(spec_unpack(input)->Ok_0),
        spec_pack(spec_unpack(input)->Ok_0).len() <= input.len(),
        spec_pack(spec_unpack(input)->Ok_0) == input.subrange(
            0,
            spec_pack(spec_unpack(input)->Ok_0).len() as int,
        ),
{
    let i = spec_unpack(input)->Ok_0;
    match i {
        InstructionView::Initialize { nonce } => {
            assert(spec_pack(i) =~= input.subrange(0, 2));
        },
        InstructionView::Swap { amount_in, minimum_amount_out, dex_configs } => {
            let n = input[17] as nat;
            let records = input.subrange(18, 18 + 3 * n as int);
            le_bytes_of_le_u64(input.subrange(1, 9));
            le_bytes_of_le_u64(input.subrange(9, 17));
            record_bytes_of_records(records, n);
            assert(dex_configs.len() == n);
            assert(spec_pack(i) =~= input.subrange(0, 18 + 3 * n as int));
        },
    }
}

/// Every payload that decodes to a swap names at least one exchange.
pub proof fn decoded_swap_has_exchange(input: Seq<u8>)
    ensures
        spec_unpack(input) matches Ok(InstructionView::Swap { dex_configs, .. })
            ==> dex_configs.len() >= 1,
{
}

} // verus!
