//! The swap route: which exchange adapter is invoked next, with which
//! amounts, and what becomes of the output once every adapter has run.
//!
//! Invoking an adapter is the caller's work. The route only decides: it is
//! resumed with what the last invocation returned and with the pool's token
//! account as it reads now, and answers with the next adapter call, with the
//! final transfer, or with the failure that ends the instruction.

use crate::account::TokenAccount;
use crate::address::Address;
use crate::error::{OneSolError, ProgramFailure};
use crate::host::{token_account, unpack_account};
use crate::instruction::DexConfig;
use vstd::prelude::*;

verus! {

/// A standard pool adapter, bound to the accounts that it trades with: a run
/// of the instruction's account list.
#[derive(Clone, Copy, Debug, PartialEq, Eq)]
pub struct Adapter {
    /// Index of the adapter's first account in the instruction's list.
    pub first_account: usize,
    /// How many accounts the adapter takes.
    pub account_count: usize,
}

/// An adapter with the ratio at which it trades.
#[derive(Clone, Copy, Debug, PartialEq, Eq)]
pub struct Leg {
    pub adapter: Adapter,
    /// Multiplier of the instruction's two amounts; not a normalised weight.
    pub ratio: u8,
}

/// One invocation of an adapter.
#[derive(Clone, Copy, Debug, PartialEq, Eq)]
pub struct AdapterCall {
    /// Position of the adapter among the adapters of the route.
    pub leg: usize,
    /// The adapter to invoke.
    pub adapter: Adapter,
    /// The amount to trade in this invocation.
    pub amount_in: u64,
    /// The least output that this invocation may give.
    pub minimum_amount_out: u64,
}

/// Where the output of a route goes, and on whose word.
#[derive(Clone, Copy, Debug, PartialEq, Eq)]
pub struct Payout {
    /// The pool account; its address is the first seed of the authority.
    pub swap: Address,
    /// The token program that moves the tokens.
    pub token_program: Address,
    /// The pool's token account, which collects the adapters' output.
    pub source: Address,
    /// The caller's destination token account.
    pub destination: Address,
    /// The pool's derived authority.
    pub authority: Address,
    /// The nonce of the pool; the second seed of the authority.
    pub nonce: u8,
}

/// The transfer that ends a successful route.
#[derive(Clone, Copy, Debug, PartialEq, Eq)]
pub struct TransferOrder {
    pub payout: Payout,
    /// The routed output: what the pool's token account gained.
    pub amount: u64,
}

/// A swap in progress.
#[derive(Clone, Debug, PartialEq, Eq)]
pub struct SwapRoute {
    /// The instruction's amount in.
    pub amount_in: u64,
    /// The instruction's minimum amount out.
    pub minimum_amount_out: u64,
    /// The adapters, in the order in which they are invoked.
    pub legs: Vec<Leg>,
    /// The legs before this index have been invoked or passed over.
    pub cursor: usize,
    /// What the pool's token account held before any adapter ran.
    pub balance_before: u64,
    /// Where the output goes.
    pub payout: Payout,
}

/// A [`SwapRoute`] with its legs as a mathematical sequence.
pub struct RouteView {
    pub amount_in: u64,
    pub minimum_amount_out: u64,
    pub legs: Seq<Leg>,
    pub cursor: usize,
    pub balance_before: u64,
    pub payout: Payout,
}

impl View for SwapRoute {
    type V = RouteView;

    open spec fn view(&self) -> RouteView {
        RouteView {
            amount_in: self.amount_in,
            minimum_amount_out: self.minimum_amount_out,
            legs: self.legs@,
            cursor: self.cursor,
            balance_before: self.balance_before,
            payout: self.payout,
        }
    }
}

/// What the caller does next.
#[derive(Debug, PartialEq, Eq)]
pub enum SwapStep {
    /// Invoke the adapter as the call says, then resume the route with what
    /// the adapter returned.
    Invoke(SwapRoute, AdapterCall),
    /// Every adapter has run and the output suffices: make this transfer.
    Transfer(TransferOrder),
}

/// A [`SwapStep`] with the view of its route.
pub enum StepView {
    Invoke(RouteView, AdapterCall),
    Transfer(TransferOrder),
}

impl View for SwapStep {
    type V = StepView;

    open spec fn view(&self) -> StepView {
        match self {
            SwapStep::Invoke(route, call) => StepView::Invoke(route@, *call),
            SwapStep::Transfer(order) => StepView::Transfer(*order),
        }
    }
}

/// The outcome of a step, with the view of the step.
pub open spec fn outcome_view(r: Result<SwapStep, ProgramFailure>) -> Result<
    StepView,
    ProgramFailure,
> {
    match r {
        Ok(step) => Ok(step@),
        Err(e) => Err(e),
    }
}

/// The adapter for exchanges of type `dex_type` on the given accounts. Type
/// 0 has the standard pool adapter; no other type has an adapter.
pub open spec fn spec_build(dex_type: u8, first_account: usize, account_count: usize) -> Option<
    Adapter,
> {
    if dex_type == 0 {
        Some(Adapter { first_account, account_count })
    } else {
        None
    }
}

/// The legs built from the first `n` exchange records, and the number of
/// accounts that they took; `None` where the accounts ran out.
///
/// A record of a type without adapter is passed over and takes no account.
/// Every other record takes its accounts from where the record before it
/// stopped. The `i`-th adapter trades at the ratio of the `i`-th record,
/// whichever record it was built from.
pub open spec fn legs_of_prefix(configs: Seq<DexConfig>, n: nat, first: int, available: int)
    -> Option<(Seq<Leg>, int)>
    decreases n,
{
    if n == 0 {
        Some((Seq::<Leg>::empty(), 0int))
    } else {
        match legs_of_prefix(configs, (n - 1) as nat, first, available) {
            None => None,
            Some((legs, used)) => {
                let config = configs[n - 1];
                match spec_build(config.dex_type, (first + used) as usize, config.account_size) {
                    None => Some((legs, used)),
                    Some(adapter) => if available - used < config.account_size {
                        None
                    } else {
                        Some(
                            (
                                legs.push(Leg { adapter, ratio: configs[legs.len() as int].ratio }),
                                used + config.account_size,
                            ),
                        )
                    },
                }
            },
        }
    }
}

/// The legs of a list of exchange records whose accounts start at index
/// `first` of an account list that has `available` accounts from there on.
pub open spec fn spec_legs(configs: Seq<DexConfig>, first: int, available: int) -> Result<
    Seq<Leg>,
    ProgramFailure,
> {
    match legs_of_prefix(configs, configs.len(), first, available) {
        Some((legs, _)) => Ok(legs),
        None => Err(ProgramFailure::NotEnoughAccountKeys),
    }
}

impl RouteView {
    /// The first leg at or behind `from` that has something to trade, or the
    /// number of legs where there is none. A leg whose amount in would be 0
    /// is passed over.
    pub open spec fn next_leg(self, from: int) -> int
        decreases self.legs.len() - from,
    {
        if from < 0 || from >= self.legs.len() {
            self.legs.len() as int
        } else if self.amount_in * self.legs[from].ratio != 0 {
            from
        } else {
            self.next_leg(from + 1)
        }
    }

    /// The calls that a route which never fails still makes from leg
    /// `from` on: one for each leg that has something to trade, in order.
    pub open spec fn pending_calls(self, from: int) -> Seq<AdapterCall>
        decreases self.legs.len() - from,
    {
        if from < 0 || from >= self.legs.len() {
            Seq::<AdapterCall>::empty()
        } else if self.amount_in * self.legs[from].ratio != 0 {
            seq![self.call_at(from)] + self.pending_calls(from + 1)
        } else {
            self.pending_calls(from + 1)
        }
    }

    /// The call of leg `i`: both amounts of the instruction, times the
    /// leg's ratio.
    pub open spec fn call_at(self, i: int) -> AdapterCall {
        AdapterCall {
            leg: i as usize,
            adapter: self.legs[i].adapter,
            amount_in: (self.amount_in * self.legs[i].ratio) as u64,
            minimum_amount_out: (self.minimum_amount_out * self.legs[i].ratio) as u64,
        }
    }

    /// Whether the amounts of the next call, if there is one, fit 64 bits.
    pub open spec fn next_fits(self) -> bool {
        let i = self.next_leg(self.cursor as int);
        i < self.legs.len() ==> {
            &&& self.amount_in * self.legs[i].ratio <= u64::MAX
            &&& self.minimum_amount_out * self.legs[i].ratio <= u64::MAX
        }
    }

    /// What becomes of the output once every adapter has run: the gain of
    /// the pool's token account is paid out, unless it is below the minimum.
    pub open spec fn settle(self, pool_token: Result<TokenAccount, u64>) -> Result<
        TransferOrder,
        ProgramFailure,
    > {
        match pool_token {
            Err(code) => Err(ProgramFailure::Collaborator(code)),
            Ok(token) => if token.amount - self.balance_before < self.minimum_amount_out {
                Err(ProgramFailure::Protocol(OneSolError::ExceededSlippage))
            } else {
                Ok(
                    TransferOrder {
                        payout: self.payout,
                        amount: (token.amount - self.balance_before) as u64,
                    },
                )
            },
        }
    }

    /// The next step of a route whose last invocation, if there was one,
    /// succeeded: the call of the next leg that has something to trade, or,
    /// behind the last leg, the settlement.
    pub open spec fn advance(self, pool_token: Result<TokenAccount, u64>) -> Result<
        StepView,
        ProgramFailure,
    > {
        let i = self.next_leg(self.cursor as int);
        if i < self.legs.len() {
            Ok(StepView::Invoke(RouteView { cursor: (i + 1) as usize, ..self }, self.call_at(i)))
        } else {
            match self.settle(pool_token) {
                Ok(order) => Ok(StepView::Transfer(order)),
                Err(e) => Err(e),
            }
        }
    }

    /// The next step of a route after an invocation: the failure of an
    /// adapter ends the route with the adapter's own error.
    pub open spec fn resume(self, outcome: Result<(), u64>, pool_token: Result<TokenAccount, u64>)
        -> Result<StepView, ProgramFailure> {
        match outcome {
            Err(code) => Err(ProgramFailure::Collaborator(code)),
            Ok(_) => self.advance(pool_token),
        }
    }
}

impl Adapter {
    /// Builds the adapter for exchanges of type `dex_type` on
    /// `account_count` accounts from `first_account` on; `None` for a type
    /// without adapter.
    pub fn build(dex_type: u8, first_account: usize, account_count: usize) -> (r: Option<Adapter>)
        ensures
            r == spec_build(dex_type, first_account, account_count),
    {
        if dex_type == 0 {
            Some(Adapter { first_account, account_count })
        } else {
            None
        }
    }
}

/// Builds the legs of a swap: one adapter for each exchange record that has
/// one, each on the next `account_size` accounts of the list.
/// `NotEnoughAccountKeys` where the list ends before a record has its
/// accounts.
pub fn build_legs(dex_configs: &[DexConfig], first: usize, available: usize) -> (r: Result<
    Vec<Leg>,
    ProgramFailure,
>)
    requires
        first + available <= usize::MAX,
    ensures
        match r {
            Ok(legs) => spec_legs(dex_configs@, first as int, available as int) == Ok::<
                Seq<Leg>,
                ProgramFailure,
            >(legs@),
            Err(e) => spec_legs(dex_configs@, first as int, available as int) == Err::<
                Seq<Leg>,
                ProgramFailure,
            >(e),
        },
        r matches Ok(legs) ==> forall|k: int|
            0 <= k < legs@.len() ==> (#[trigger] legs@[k]).adapter.first_account >= first
                && legs@[k].adapter.first_account + legs@[k].adapter.account_count <= first
                + available,
{
    let mut legs: Vec<Leg> = Vec::new();
    let mut used: usize = 0;
    let mut i: usize = 0;
    while i < dex_configs.len()
        invariant
            i <= dex_configs@.len(),
            first + available <= usize::MAX,
            used <= available,
            legs@.len() <= i,
            legs_of_prefix(dex_configs@, i as nat, first as int, available as int) == Some(
                (legs@, used as int),
            ),
            forall|k: int|
                0 <= k < legs@.len() ==> (#[trigger] legs@[k]).adapter.first_account >= first
                    && legs@[k].adapter.first_account + legs@[k].adapter.account_count <= first
                    + used,
        decreases dex_configs@.len() - i,
    {
        let config = &dex_configs[i];
        match Adapter::build(config.dex_type, first + used, config.account_size) {
            None => {},
            Some(adapter) => {
                if available - used < config.account_size {
                    proof {
                        lemma_legs_stay_none(
                            dex_configs@,
                            (i + 1) as nat,
                            dex_configs@.len(),
                            first as int,
                            available as int,
                        );
                    }
                    return Err(ProgramFailure::NotEnoughAccountKeys);
                }
                let ratio = dex_configs[legs.len()].ratio;
                legs.push(Leg { adapter, ratio });
                used = used + config.account_size;
            },
        }
        i += 1;
    }
    Ok(legs)
}

/// Once the accounts have run out, they stay run out.
proof fn lemma_legs_stay_none(configs: Seq<DexConfig>, n: nat, m: nat, first: int, available: int)
    requires
        n <= m,
        legs_of_prefix(configs, n, first, available) is None,
    ensures
        legs_of_prefix(configs, m, first, available) is None,
    decreases m,
{
    if n < m {
        lemma_legs_stay_none(configs, n, (m - 1) as nat, first, available);
    }
}

impl SwapRoute {
    /// The route of a swap that has not invoked any adapter yet.
    pub fn new(
        amount_in: u64,
        minimum_amount_out: u64,
        legs: Vec<Leg>,
        balance_before: u64,
        payout: Payout,
    ) -> (r: SwapRoute)
        ensures
            r@ == (RouteView {
                amount_in,
                minimum_amount_out,
                legs: legs@,
                cursor: 0,
                balance_before,
                payout,
            }),
    {
        SwapRoute { amount_in, minimum_amount_out, legs, cursor: 0, balance_before, payout }
    }

    /// The index of the next leg that has something to trade, or the number
    /// of legs.
    pub fn next_leg(&self) -> (i: usize)
        ensures
            i == self@.next_leg(self.cursor as int),
            i <= self.legs@.len(),
    {
        let mut i: usize = self.cursor;
        while i < self.legs.len() && (self.amount_in == 0 || self.legs[i].ratio == 0)
            invariant
                self@.next_leg(self.cursor as int) == self@.next_leg(i as int),
            decreases self.legs@.len() - i,
        {
            assert(self.amount_in * self.legs@[i as int].ratio == 0) by (nonlinear_arith)
                requires
                    self.amount_in == 0 || self.legs@[i as int].ratio == 0,
            ;
            i += 1;
        }
        if i < self.legs.len() {
            assert(self.amount_in * self.legs@[i as int].ratio != 0) by (nonlinear_arith)
                requires
                    self.amount_in != 0 && self.legs@[i as int].ratio != 0,
            ;
            i
        } else {
            self.legs.len()
        }
    }

    /// Whether the amounts of the next call, if there is one, fit 64 bits.
    pub fn next_fits(&self) -> (r: bool)
        ensures
            r == self@.next_fits(),
    {
        let i = self.next_leg();
        if i < self.legs.len() {
            let ratio: u64 = self.legs[i].ratio as u64;
            self.amount_in.checked_mul(ratio).is_some() && self.minimum_amount_out.checked_mul(
                ratio,
            ).is_some()
        } else {
            true
        }
    }

    /// Settles a route whose adapters have all run: pays out what the
    /// pool's token account gained, or fails with `ExceededSlippage` where
    /// that is less than the minimum, or with the token program's error
    /// where the account no longer reads as a token account.
    pub fn settle(&self, pool_token: Result<TokenAccount, u64>) -> (r: Result<
        TransferOrder,
        ProgramFailure,
    >)
        ensures
            r == self@.settle(pool_token),
    {
        match pool_token {
            Err(code) => Err(ProgramFailure::Collaborator(code)),
            Ok(token) => {
                if token.amount < self.balance_before || token.amount - self.balance_before
                    < self.minimum_amount_out {
                    Err(ProgramFailure::Protocol(OneSolError::ExceededSlippage))
                } else {
                    Ok(
                        TransferOrder {
                            payout: self.payout,
                            amount: token.amount - self.balance_before,
                        },
                    )
                }
            },
        }
    }

    /// Takes the next step of a route whose last invocation, if there was
    /// one, succeeded, given the pool's token account as it decodes now.
    pub fn advance(self, pool_token: Result<TokenAccount, u64>) -> (r: Result<
        SwapStep,
        ProgramFailure,
    >)
        requires
            self@.next_fits(),
        ensures
            outcome_view(r) == self@.advance(pool_token),
    {
        let i = self.next_leg();
        if i < self.legs.len() {
            let leg = self.legs[i];
            let ratio: u64 = leg.ratio as u64;
            let call = AdapterCall {
                leg: i,
                adapter: leg.adapter,
                amount_in: self.amount_in * ratio,
                minimum_amount_out: self.minimum_amount_out * ratio,
            };
            let mut route = self;
            route.cursor = i + 1;
            Ok(SwapStep::Invoke(route, call))
        } else {
            match self.settle(pool_token) {
                Ok(order) => Ok(SwapStep::Transfer(order)),
                Err(e) => Err(e),
            }
        }
    }

    /// Takes the next step of a route after an invocation that returned
    /// `outcome`, given the pool's token account as it decodes now.
    pub fn resume_with(self, outcome: Result<(), u64>, pool_token: Result<TokenAccount, u64>) -> (r:
        Result<SwapStep, ProgramFailure>)
        requires
            outcome is Ok ==> self@.next_fits(),
        ensures
            outcome_view(r) == self@.resume(outcome, pool_token),
    {
        match outcome {
            Err(code) => Err(ProgramFailure::Collaborator(code)),
            Ok(_) => self.advance(pool_token),
        }
    }

    /// Takes the next step of a route: `outcome` is what the adapter that
    /// was invoked last returned, as the host's numeric code where it
    /// failed, and `pool_token_data` is what the pool's token account stores
    /// now. A route that has not invoked anything yet is started with
    /// `Ok(())`.
    pub fn resume(self, outcome: Result<(), u64>, pool_token_data: &[u8]) -> (r: Result<
        SwapStep,
        ProgramFailure,
    >)
        requires
            outcome is Ok ==> self@.next_fits(),
        ensures
            outcome_view(r) == self@.resume(outcome, token_account(pool_token_data@)),
    {
        let pool_token = unpack_account(pool_token_data);
        self.resume_with(outcome, pool_token)
    }
}

/// At the slippage boundary: a route whose adapters have all run pays out
/// an output that equals the minimum exactly, and fails with
/// `ExceededSlippage`, ordering no transfer, where the output is one unit
/// less.
pub proof fn slippage_boundary(route: RouteView, pool_token: TokenAccount)
    requires
        route.next_leg(route.cursor as int) >= route.legs.len(),
    ensures
        pool_token.amount - route.balance_before == route.minimum_amount_out ==> route.advance(
            Ok(pool_token),
        ) == Ok::<StepView, ProgramFailure>(
            StepView::Transfer(
                TransferOrder { payout: route.payout, amount: route.minimum_amount_out },
            ),
        ),
        pool_token.amount - route.balance_before == route.minimum_amount_out - 1 ==> route.advance(
            Ok(pool_token),
        ) == Err::<StepView, ProgramFailure>(
            ProgramFailure::Protocol(OneSolError::ExceededSlippage),
        ),
{
}

/// A route orders a transfer exactly where the output reaches the minimum,
/// and then of the whole output.
pub proof fn settles_iff_output_suffices(route: RouteView, pool_token: TokenAccount)
    ensures
        route.settle(Ok(pool_token)) is Ok <==> pool_token.amount - route.balance_before
            >= route.minimum_amount_out,
        route.settle(Ok(pool_token)) matches Ok(order) ==> order.amount == pool_token.amount
            - route.balance_before && order.amount >= route.minimum_amount_out,
{
}

/// A ratio is a plain multiplier: each call carries the instruction's two
/// amounts times the ratio of its leg, whatever the other ratios are, and a
/// leg of ratio 0 is never called.
pub proof fn calls_scale_by_ratio(route: RouteView, pool_token: Result<TokenAccount, u64>)
    requires
        route.legs.len() <= usize::MAX,
        route.next_fits(),
    ensures
        route.advance(pool_token) matches Ok(StepView::Invoke(next, call)) ==> {
            &&& route.cursor <= call.leg < route.legs.len()
            &&& next.cursor == call.leg + 1
            &&& route.legs[call.leg as int].ratio != 0
            &&& call.amount_in == route.amount_in * route.legs[call.leg as int].ratio
            &&& call.minimum_amount_out == route.minimum_amount_out * route.legs[call.leg as int].ratio
        },
{
    lemma_next_leg(route, route.cursor as int);
}

/// Every leg that has something to trade is called once, in order: a step
/// that invokes an adapter makes the first of the pending calls and leaves
/// the others pending, and a step that settles finds none pending.
pub proof fn advance_makes_the_first_pending_call(
    route: RouteView,
    pool_token: Result<TokenAccount, u64>,
)
    requires
        route.legs.len() <= usize::MAX,
    ensures
        match route.advance(pool_token) {
            Ok(StepView::Invoke(next, call)) => route.pending_calls(route.cursor as int) == seq![
                call,
            ] + next.pending_calls(next.cursor as int),
            _ => route.pending_calls(route.cursor as int).len() == 0,
        },
{
    lemma_pending_from_next_leg(route, route.cursor as int);
    let i = route.next_leg(route.cursor as int);
    lemma_next_leg(route, route.cursor as int);
    if i < route.legs.len() {
        let next = RouteView { cursor: (i + 1) as usize, ..route };
        lemma_pending_ignores_cursor(route, next, i + 1);
    }
}

/// The pending calls start at the next leg that has something to trade.
proof fn lemma_pending_from_next_leg(route: RouteView, from: int)
    requires
        0 <= from,
    ensures
        route.pending_calls(from) == route.pending_calls(route.next_leg(from)),
        route.next_leg(from) < route.legs.len() ==> route.pending_calls(route.next_leg(from))
            == seq![route.call_at(route.next_leg(from))] + route.pending_calls(
            route.next_leg(from) + 1,
        ),
    decreases route.legs.len() - from,
{
    if from < route.legs.len() && route.amount_in * route.legs[from].ratio == 0 {
        lemma_pending_from_next_leg(route, from + 1);
    }
}

/// The pending calls do not depend on where the cursor stands.
proof fn lemma_pending_ignores_cursor(a: RouteView, b: RouteView, from: int)
    requires
        a.amount_in == b.amount_in,
        a.minimum_amount_out == b.minimum_amount_out,
        a.legs == b.legs,
    ensures
        a.pending_calls(from) == b.pending_calls(from),
    decreases a.legs.len() - from,
{
    if 0 <= from < a.legs.len() {
        lemma_pending_ignores_cursor(a, b, from + 1);
    }
}

/// Where `next_leg` points.
pub proof fn lemma_next_leg(route: RouteView, from: int)
    requires
        0 <= from,
    ensures
        from <= route.next_leg(from) || route.next_leg(from) == route.legs.len(),
        route.next_leg(from) <= route.legs.len(),
        route.next_leg(from) < route.legs.len() ==> route.amount_in * route.legs[route.next_leg(
            from,
        )].ratio != 0,
        forall|k: int|
            from <= k < route.next_leg(from) ==> route.amount_in * (#[trigger] route.legs[k]).ratio
                == 0,
    decreases route.legs.len() - from,
{
    if from < route.legs.len() && route.amount_in * route.legs[from].ratio == 0 {
        lemma_next_leg(route, from + 1);
    }
}

} // verus!
