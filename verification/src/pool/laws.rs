//! What the pool promises its providers, its policyholders and its admin.

use vstd::prelude::*;
use vstd::arithmetic::div_mod::lemma_fundamental_div_mod;

use crate::address::Address;
use crate::math;
use crate::pool::history;
use crate::pool::history::PoolCall;
use crate::pool::model;
use crate::pool::model::{PoolState, BPS};
use crate::pool::pricing;
use crate::pool::types::{
    Policy, PolicyParams, PolicyStatus, PoolConfig, PoolEffect, PoolError, PoolEvent,
};
use crate::sums;

verus! {

// ── Capital providers ──────────────────────────────────────────────────────────

/// Nobody ever holds more shares than there are, and nobody holds a negative number of them.
pub proof fn nobody_holds_more_than_all_shares(s: PoolState, user: Address)
    requires
        s.valid(),
    ensures
        0 <= s.shares_of(user) <= s.total_shares,
{
    sums::lemma_sum_bounds(s.shares);
}

/// Nobody's shares change but by their own deposits and withdrawals.
pub proof fn only_the_provider_moves_their_shares(s: PoolState, call: PoolCall, user: Address)
    requires
        s.accepts(call),
        s.after(call).shares_of(user) != s.shares_of(user),
    ensures
        match call {
            PoolCall::ProvideCapital { provider, .. } => provider == user,
            PoolCall::WithdrawCapital { provider, .. } => provider == user,
            _ => false,
        },
{
}

/// Shares that a provider has are never too many for the pool: what refuses their withdrawal is
/// the lockup or the cap.
pub proof fn own_shares_are_never_too_many(s: PoolState, provider: Address, shares: int, now: u64)
    requires
        s.valid(),
        s.settings is Some,
        0 < shares <= s.shares_of(provider),
    ensures
        s.withdrawal(provider, shares, now) matches Err(e) ==> e == PoolError::LockupActive || e
            == PoolError::CapitalLocked,
{
    nobody_holds_more_than_all_shares(s, provider);
}

/// The preview of a withdrawal is what the withdrawal pays, wherever the provider has the shares
/// and they are not locked.
pub proof fn withdrawal_pays_the_quote(s: PoolState, provider: Address, shares: int, now: u64)
    requires
        s.settings is Some,
        shares <= s.shares_of(provider),
        !s.locked(provider, now),
    ensures
        s.withdrawal(provider, shares, now) == s.withdrawal_quote(shares),
{
}

/// A withdrawal of shares that the provider has fails on the lockup exactly until the time that
/// the lockup is said to end.
pub proof fn lockup_ends_when_announced(s: PoolState, provider: Address, shares: int, now: u64)
    requires
        s.settings is Some,
        0 < shares <= s.shares_of(provider),
    ensures
        s.withdrawal(provider, shares, now) == Err::<int, PoolError>(PoolError::LockupActive)
            <==> (s.lockup_end(provider) matches Some(end) && now < end),
{
}

/// Every deposit, a top-up too, restarts the lockup of the provider's whole position.
pub proof fn deposit_restarts_the_lockup(s: PoolState, provider: Address, amount: int, now: u64)
    requires
        s.share_quote(amount) is Ok,
    ensures
        s.provided(provider, amount, now).lockup_end(provider) == Some(
            now + s.config().lockup_days * model::SECONDS_PER_DAY,
        ),
{
}

/// A withdrawal that leaves capital behind leaves utilization at or below its cap.
pub proof fn withdrawal_respects_the_utilization_cap(
    s: PoolState,
    provider: Address,
    shares: int,
    now: u64,
)
    requires
        s.withdrawal(provider, shares, now) is Ok,
    ensures
        ({
            let next = s.withdrawn(provider, shares, s.withdrawal(provider, shares, now)->Ok_0);
            next.total_capital > 0 ==> next.utilization() <= s.config().max_utilization_bps
        }),
{
}

/// Premiums accrue to the providers: a sale adds its premium to the capital and leaves every
/// provider's shares as they were.
pub proof fn premiums_accrue_to_providers(
    s: PoolState,
    holder: Address,
    params: PolicyParams,
    now: u64,
)
    requires
        s.accepts(PoolCall::BuyPolicy { holder, params, now }),
    ensures
        s.bought(holder, params, now).total_capital == s.total_capital + s.premium_quote(
            params,
        )->Ok_0,
        params.coverage_amount >= 0 ==> s.bought(holder, params, now).total_capital
            >= s.total_capital,
        s.bought(holder, params, now).shares == s.shares,
        s.bought(holder, params, now).total_shares == s.total_shares,
{
    if params.coverage_amount >= 0 {
        pricing::premium_is_never_negative(s.config(), params);
    }
}

// ── Money ──────────────────────────────────────────────────────────────────────

/// What an effect moves into the pool's token balance. What it moves out counts as negative.
pub open spec fn flow_of(effect: PoolEffect) -> int {
    match effect {
        PoolEffect::Collect { amount, .. } => amount as int,
        PoolEffect::Pay { amount, .. } => -amount,
        _ => 0,
    }
}

/// What effects move into the pool's token balance.
pub open spec fn flow(effects: Seq<PoolEffect>) -> int
    decreases effects.len(),
{
    if effects.len() == 0 {
        0
    } else {
        flow(effects.drop_last()) + flow_of(effects.last())
    }
}

/// What a call that goes through asks of the host.
pub open spec fn effects_of(s: PoolState, call: PoolCall) -> Seq<PoolEffect> {
    match call {
        PoolCall::Initialize { admin, .. } => seq![
            PoolEffect::RequireAuth { address: admin },
            PoolEffect::Publish { event: PoolEvent::Initialized { admin } },
        ],
        PoolCall::ProvideCapital { provider, amount, .. } => s.provide_effects(provider, amount),
        PoolCall::WithdrawCapital { provider, shares, now } => s.withdraw_effects(
            provider,
            shares,
            s.withdrawal(provider, shares as int, now)->Ok_0 as i128,
        ),
        PoolCall::BuyPolicy { holder, params, now } => s.buy_effects(holder, params, now),
        PoolCall::ProcessClaim { policy_id, now } => s.claim_effects(policy_id, now),
        PoolCall::ExpirePolicy { policy_id, now } => s.expire_effects(policy_id, now),
        PoolCall::SetPolicyRegistry { caller, policy_registry } => seq![
            PoolEffect::RequireAuth { address: caller },
            PoolEffect::Publish { event: PoolEvent::RegistrySet { caller, policy_registry } },
        ],
        PoolCall::SetAdmin { caller, new_admin } => seq![
            PoolEffect::RequireAuth { address: caller },
            PoolEffect::Publish { event: PoolEvent::AdminSet { new_admin } },
        ],
        PoolCall::SetPoolConfig { caller, .. } => seq![
            PoolEffect::RequireAuth { address: caller },
            PoolEffect::Publish { event: PoolEvent::ConfigSet },
        ],
        PoolCall::UpdateOracle { caller, coverage_type, value, .. } => seq![
            PoolEffect::RequireAuth { address: caller },
            PoolEffect::Publish { event: PoolEvent::OracleUpdated { coverage_type, value } },
        ],
    }
}

/// The capital moves with the token: a call changes it by exactly what it collects less what it
/// pays. The one exception is a claim that is larger than the capital.
pub proof fn capital_follows_the_token(s: PoolState, call: PoolCall)
    requires
        s.ids_in_order(),
        s.accepts(call),
        call matches PoolCall::ProcessClaim { policy_id, .. }
            ==> s.policies[policy_id].coverage_amount <= s.total_capital,
    ensures
        s.after(call).total_capital == s.total_capital + flow(effects_of(s, call)),
{
    reveal_with_fuel(flow, 5);
    let effects = effects_of(s, call);
    match call {
        PoolCall::BuyPolicy { holder, params, now } => {
            assert(effects.drop_last() =~= seq![effects[0], effects[1], effects[2]]);
            assert(effects.drop_last().drop_last() =~= seq![effects[0], effects[1]]);
            assert(effects.drop_last().drop_last().drop_last() =~= seq![effects[0]]);
        },
        PoolCall::ProvideCapital { .. } => {
            assert(effects.drop_last() =~= seq![effects[0], effects[1]]);
            assert(effects.drop_last().drop_last() =~= seq![effects[0]]);
        },
        PoolCall::WithdrawCapital { .. } => {
            assert(effects.drop_last() =~= seq![effects[0], effects[1]]);
            assert(effects.drop_last().drop_last() =~= seq![effects[0]]);
        },
        PoolCall::ProcessClaim { .. } => {
            assert(effects.drop_last() =~= seq![effects[0], effects[1]]);
            assert(effects.drop_last().drop_last() =~= seq![effects[0]]);
        },
        _ => {
            assert(effects.drop_last() =~= seq![effects[0]] || effects.drop_last() =~= seq![]);
        },
    }
}

/// What a sequence of calls moves into the pool's token balance.
pub open spec fn total_flow(s: PoolState, calls: Seq<PoolCall>) -> int
    decreases calls.len(),
{
    if calls.len() == 0 {
        0
    } else {
        let earlier = calls.drop_last();
        total_flow(s, earlier) + flow(effects_of(history::run(s, earlier), calls.last()))
    }
}

// ── Solvency ───────────────────────────────────────────────────────────────────

/// Whether the capital covers every open policy at once.
pub open spec fn solvent(s: PoolState) -> bool {
    s.total_coverage <= s.total_capital
}

/// Whether a call is one after which the pool may owe more than it has: a sale or a withdrawal
/// under a cap that lets coverage reach beyond the capital, or a withdrawal of all shares while
/// policies are open.
pub open spec fn may_overcommit(s: PoolState, call: PoolCall) -> bool {
    match call {
        PoolCall::BuyPolicy { .. } => s.config().max_utilization_bps > BPS,
        PoolCall::WithdrawCapital { shares, .. } => {
            ||| s.config().max_utilization_bps >= BPS
            ||| shares == s.total_shares && s.total_coverage > 0
        },
        _ => false,
    }
}

/// A solvent pool stays solvent, but for the calls that may overcommit it.
pub proof fn every_other_call_keeps_the_pool_solvent(s: PoolState, call: PoolCall)
    requires
        s.valid(),
        solvent(s),
        s.accepts(call),
        !may_overcommit(s, call),
    ensures
        solvent(s.after(call)),
{
    match call {
        PoolCall::BuyPolicy { holder, params, now } => {
            lemma_cap_is_at_most_capital(s.total_capital, s.config().max_utilization_bps as int);
            pricing::premium_is_never_negative(s.config(), params);
        },
        PoolCall::WithdrawCapital { provider, shares, now } => {
            nobody_holds_more_than_all_shares(s, provider);
            let out = s.withdrawal(provider, shares as int, now)->Ok_0;
            pricing::withdrawal_pays_at_most_its_part(
                s.total_capital,
                s.total_shares,
                shares as int,
            );
            let left = s.total_capital - out;
            history::lemma_coverage_is_not_negative(s);
            if left > 0 {
                lemma_below_full_utilization(
                    s.total_coverage,
                    left,
                    s.config().max_utilization_bps as int,
                );
            } else if shares < s.total_shares && s.total_coverage > 0 {
                lemma_part_leaves_something(s.total_capital, s.total_shares, shares as int);
            }
        },
        PoolCall::ProcessClaim { policy_id, now } => {
            history::every_call_keeps_the_pool_valid(s, call);
            history::lemma_coverage_is_not_negative(s);
            history::lemma_coverage_is_not_negative(s.after(call));
        },
        PoolCall::ExpirePolicy { policy_id, now } => {
            history::lemma_coverage_is_not_negative(s);
        },
        _ => {},
    }
}

/// A solvent pool can pay any claim out of its capital, and does.
pub proof fn a_solvent_pool_pays_claims_in_full(s: PoolState, policy_id: u64, now: u64)
    requires
        s.valid(),
        solvent(s),
        s.claim(policy_id, now) is Ok,
    ensures
        s.policies[policy_id].coverage_amount <= s.total_capital,
        s.claimed(policy_id, now).total_capital == s.total_capital
            - s.policies[policy_id].coverage_amount,
        s.claim(policy_id, now) == Ok::<int, PoolError>(
            s.policies[policy_id].coverage_amount as int,
        ),
{
    history::lemma_coverage_is_not_negative(s);
}

/// Whether no call of a sequence is one that may overcommit the pool.
pub open spec fn never_overcommits(s: PoolState, calls: Seq<PoolCall>) -> bool
    decreases calls.len(),
{
    calls.len() == 0 || {
        &&& never_overcommits(s, calls.drop_last())
        &&& !may_overcommit(history::run(s, calls.drop_last()), calls.last())
    }
}

/// A pool that was never overcommitted can pay all open policies at once, and its capital is
/// exactly what it has collected less what it has paid.
pub proof fn a_pool_never_overcommitted_is_solvent(calls: Seq<PoolCall>)
    requires
        history::all_accepted(model::new_pool(), calls),
        forall|i: int| 0 <= i < calls.len() ==> history::sensible(#[trigger] calls[i]),
        never_overcommits(model::new_pool(), calls),
    ensures
        solvent(history::run(model::new_pool(), calls)),
        history::run(model::new_pool(), calls).total_capital == total_flow(
            model::new_pool(),
            calls,
        ),
    decreases calls.len(),
{
    if calls.len() != 0 {
        let earlier = calls.drop_last();
        assert forall|i: int| 0 <= i < earlier.len() implies history::sensible(
            #[trigger] earlier[i],
        ) by {
            assert(earlier[i] == calls[i]);
        }
        a_pool_never_overcommitted_is_solvent(earlier);
        history::every_reachable_pool_is_valid(earlier);
        let s = history::run(model::new_pool(), earlier);
        let call = calls.last();
        every_other_call_keeps_the_pool_solvent(s, call);
        if let PoolCall::ProcessClaim { policy_id, now } = call {
            a_solvent_pool_pays_claims_in_full(s, policy_id, now);
        }
        capital_follows_the_token(s, call);
    }
}

proof fn lemma_cap_is_at_most_capital(capital: int, bps: int)
    requires
        0 <= capital,
        0 <= bps <= BPS,
    ensures
        math::quot(capital * bps, BPS as int) <= capital,
{
    assert(0 <= capital * bps <= capital * BPS) by (nonlinear_arith)
        requires
            0 <= capital,
            0 <= bps <= BPS,
    ;
}

/// Coverage whose ratio to `left` rounds down to less than a whole is less than `left`.
proof fn lemma_below_full_utilization(coverage: int, left: int, bps: int)
    requires
        0 <= coverage,
        0 < left,
        math::quot(coverage * BPS, left) <= bps < BPS,
    ensures
        coverage <= left,
{
    lemma_fundamental_div_mod(coverage * BPS, left);
    let q = coverage * BPS / left;
    assert(coverage * BPS < left * BPS) by (nonlinear_arith)
        requires
            coverage * BPS < left * q + left,
            q + 1 <= BPS,
            0 < left,
    ;
}

/// Less than all shares are worth less than all capital.
proof fn lemma_part_leaves_something(capital: int, total_shares: int, shares: int)
    requires
        0 < capital,
        0 <= shares < total_shares,
    ensures
        model::redeemed(capital, total_shares, shares) < capital,
{
    pricing::withdrawal_pays_at_most_its_part(capital, total_shares, shares);
    let out = model::redeemed(capital, total_shares, shares);
    assert(out < capital) by (nonlinear_arith)
        requires
            out * total_shares <= shares * capital,
            0 <= shares < total_shares,
            0 < capital,
    ;
}

// ── Policyholders ──────────────────────────────────────────────────────────────

/// A purchase goes through wherever its preview quotes a premium, and the holder pays exactly
/// that: it is what is collected from them, and what their policy says.
pub proof fn purchase_charges_the_quote(
    s: PoolState,
    holder: Address,
    params: PolicyParams,
    now: u64,
)
    requires
        s.accepts(PoolCall::BuyPolicy { holder, params, now }),
    ensures
        ({
            let id = s.next_policy_id;
            let policy = s.bought(holder, params, now).policies[id];
            &&& s.premium_quote(params) == Ok::<int, PoolError>(policy.premium_paid as int)
            &&& s.buy_effects(holder, params, now)[1] == PoolEffect::Collect {
                token: s.settings->0.usdc_token,
                from: holder,
                amount: policy.premium_paid,
            }
            &&& policy.holder == holder
            &&& policy.coverage_amount == params.coverage_amount
            &&& policy.coverage_type == params.coverage_type
            &&& policy.trigger_threshold == params.trigger_threshold
            &&& policy.status == PolicyStatus::Active
            &&& s.bought(holder, params, now).policies_of(holder).last() == id
        }),
{
}

/// A policy of a size that the pool sells is refused exactly when it is larger than the capacity
/// that the pool reports.
pub proof fn reported_capacity_is_what_can_be_bought(s: PoolState, params: PolicyParams)
    requires
        s.settings is Some,
        0 < params.coverage_amount,
        s.config().min_coverage <= params.coverage_amount <= s.config().max_coverage,
    ensures
        s.premium_quote(params) is Ok <==> params.coverage_amount <= s.available_capacity(),
        s.premium_quote(params) is Err ==> s.premium_quote(params) == Err::<int, PoolError>(
            PoolError::InsufficientCapacity,
        ),
{
}

/// A sale leaves the outstanding coverage within the part of the capital that may be
/// underwritten.
pub proof fn sale_respects_the_utilization_cap(
    s: PoolState,
    holder: Address,
    params: PolicyParams,
    now: u64,
)
    requires
        s.premium_quote(params) is Ok,
    ensures
        s.bought(holder, params, now).total_coverage <= model::coverage_cap(
            s.config(),
            s.total_capital,
        ),
{
}

/// A policy stays on record, and its terms never change. Once it is settled, nothing about it
/// changes any more.
pub proof fn a_policy_only_ever_settles(s: PoolState, call: PoolCall, id: u64)
    requires
        s.ids_in_order(),
        s.accepts(call),
        s.policies.contains_key(id),
    ensures
        s.after(call).policies.contains_key(id),
        ({
            let before = s.policies[id];
            let after = s.after(call).policies[id];
            &&& after == (Policy { status: after.status, payout_at: after.payout_at, ..before })
            &&& before.status != PolicyStatus::Active ==> after == before
        }),
{
}

/// Over any number of calls, a settled policy stays exactly as it is.
pub proof fn a_settled_policy_stays_as_it_is(s: PoolState, calls: Seq<PoolCall>, id: u64)
    requires
        s.ids_in_order(),
        history::all_accepted(s, calls),
        s.policies.contains_key(id),
        s.policies[id].status != PolicyStatus::Active,
    ensures
        history::run(s, calls).ids_in_order(),
        history::run(s, calls).policies.contains_key(id),
        history::run(s, calls).policies[id] == s.policies[id],
    decreases calls.len(),
{
    if calls.len() != 0 {
        let earlier = calls.drop_last();
        a_settled_policy_stays_as_it_is(s, earlier, id);
        history::every_call_keeps_the_ids_in_order(history::run(s, earlier), calls.last());
        a_policy_only_ever_settles(history::run(s, earlier), calls.last(), id);
    }
}

/// A settled policy can be neither claimed nor swept.
pub proof fn a_settled_policy_is_final(s: PoolState, id: u64, now: u64)
    requires
        s.policies.contains_key(id),
        s.policies[id].status != PolicyStatus::Active,
    ensures
        s.claim(id, now) == Err::<int, PoolError>(PoolError::AlreadyClaimed),
        s.expiry(id, now) == Err::<(), PoolError>(PoolError::AlreadyClaimed),
{
}

/// A claim and a sweep each settle the policy, so that neither can follow.
pub proof fn a_policy_is_settled_once(s: PoolState, id: u64, now: u64, later: u64)
    ensures
        s.claim(id, now) is Ok ==> {
            &&& s.claimed(id, now).claim(id, later) == Err::<int, PoolError>(
                PoolError::AlreadyClaimed,
            )
            &&& s.claimed(id, now).expiry(id, later) == Err::<(), PoolError>(
                PoolError::AlreadyClaimed,
            )
        },
        s.expiry(id, now) is Ok ==> {
            &&& s.expired(id).claim(id, later) == Err::<int, PoolError>(PoolError::AlreadyClaimed)
            &&& s.expired(id).expiry(id, later) == Err::<(), PoolError>(PoolError::AlreadyClaimed)
        },
{
}

/// A policy can be claimed until its end and swept after it, never both.
pub proof fn claims_end_where_sweeps_begin(s: PoolState, id: u64, now: u64)
    ensures
        !(s.claim(id, now) is Ok && s.expiry(id, now) is Ok),
        s.policies.contains_key(id) && s.policies[id].status == PolicyStatus::Active ==> (s.expiry(
            id,
            now,
        ) is Ok <==> s.claim(id, now) == Err::<int, PoolError>(PoolError::PolicyExpired)),
{
}

/// Without a reading, or with one that is 30 minutes old or older, no claim is paid.
pub proof fn only_fresh_readings_settle_claims(s: PoolState, id: u64, now: u64)
    requires
        s.policies.contains_key(id),
        s.oracle_data.contains_key(s.policies[id].coverage_type) ==> now
            - s.oracle_data[s.policies[id].coverage_type].updated_at >= 1_800,
    ensures
        s.claim(id, now) is Err,
{
}

/// A sweep frees the coverage that the policy held. Capital and shares stay as they are.
pub proof fn sweep_frees_coverage_and_leaves_capital(s: PoolState, id: u64, now: u64)
    requires
        s.valid(),
        s.expiry(id, now) is Ok,
    ensures
        s.expired(id).total_coverage == s.total_coverage - s.policies[id].coverage_amount,
        s.expired(id).total_capital == s.total_capital,
        s.expired(id).total_shares == s.total_shares,
        s.expired(id).shares == s.shares,
        s.expired(id).available_capacity() >= s.available_capacity(),
{
    history::lemma_coverage_is_not_negative(s);
    assert(history::sound_policy(s.policies[id]));
}

/// Every id in a holder's list names a policy of that holder, so that looking the whole list up
/// skips nothing.
pub proof fn a_holders_list_resolves(s: PoolState, user: Address)
    requires
        s.index_in_order(),
    ensures
        ({
            let ids = s.policies_of(user);
            let found = s.policies_with(ids);
            &&& found.len() == ids.len()
            &&& forall|i: int|
                0 <= i < ids.len() ==> #[trigger] found[i] == s.policies[ids[i]] && found[i].id
                    == ids[i] && found[i].holder == user
        }),
{
    let ids = s.policies_of(user);
    assert forall|i: int| 0 <= i < ids.len() implies s.policies.contains_key(#[trigger] ids[i])
        && s.policies[ids[i]].holder == user && s.policies[ids[i]].id == ids[i] by {
        assert(s.user_policies[user][i] == ids[i]);
    }
    lemma_known_ids_are_all_found(s, ids);
}

/// Looking up ids that all name policies gives one policy for each.
proof fn lemma_known_ids_are_all_found(s: PoolState, ids: Seq<u64>)
    requires
        forall|i: int| 0 <= i < ids.len() ==> s.policies.contains_key(#[trigger] ids[i]),
    ensures
        s.policies_with(ids).len() == ids.len(),
        forall|i: int|
            0 <= i < ids.len() ==> #[trigger] s.policies_with(ids)[i] == s.policies[ids[i]],
    decreases ids.len(),
{
    if ids.len() > 0 {
        let rest = ids.drop_last();
        assert forall|i: int| 0 <= i < rest.len() implies s.policies.contains_key(
            #[trigger] rest[i],
        ) by {
            assert(rest[i] == ids[i]);
        }
        lemma_known_ids_are_all_found(s, rest);
        assert(ids.last() == ids[ids.len() - 1]);
        assert forall|i: int| 0 <= i < ids.len() implies #[trigger] s.policies_with(ids)[i]
            == s.policies[ids[i]] by {
            if i < rest.len() {
                assert(s.policies_with(rest)[i] == s.policies[rest[i]]);
            }
        }
    }
}

/// Whoever deposits, withdraws or buys is asked for their authorization before anything else.
pub proof fn whoever_pays_or_is_paid_back_authorizes(
    s: PoolState,
    who: Address,
    amount: i128,
    out: i128,
    params: PolicyParams,
    now: u64,
)
    ensures
        s.provide_effects(who, amount)[0] == (PoolEffect::RequireAuth { address: who }),
        s.withdraw_effects(who, amount, out)[0] == (PoolEffect::RequireAuth { address: who }),
        s.buy_effects(who, params, now)[0] == (PoolEffect::RequireAuth { address: who }),
{
}

/// Anyone may settle a policy: claims and sweeps ask for nobody's authorization.
pub proof fn anyone_may_settle(s: PoolState, id: u64, now: u64)
    ensures
        forall|i: int|
            0 <= i < s.claim_effects(id, now).len() ==> #[trigger] s.claim_effects(id, now)[i]
                !is RequireAuth,
        forall|i: int|
            0 <= i < s.expire_effects(id, now).len() ==> #[trigger] s.expire_effects(id, now)[i]
                !is RequireAuth,
{
}

// ── Limits ─────────────────────────────────────────────────────────────────────

/// A hundred billion USDC. The laws below say of which calls, and under which conditions, amounts
/// up to it do not overflow.
pub const AMOUNT_LIMIT: i128 = 1_000_000_000_000_000_000;

/// Whether the pool's totals are no larger than the limit.
pub open spec fn within_limits(s: PoolState) -> bool {
    &&& 0 <= s.total_capital <= AMOUNT_LIMIT
    &&& 0 <= s.total_coverage <= AMOUNT_LIMIT
    &&& 0 <= s.total_shares <= AMOUNT_LIMIT
}

/// Deposits up to the limit do not overflow.
pub proof fn deposits_within_limits_fit(s: PoolState, provider: Address, amount: int)
    requires
        s.valid(),
        within_limits(s),
        amount <= AMOUNT_LIMIT,
    ensures
        s.share_quote_fits(amount),
        s.provide_fits(provider, amount),
{
    nobody_holds_more_than_all_shares(s, provider);
    if amount > 0 && s.total_capital > 0 && s.total_shares > 0 {
        pricing::minting_creates_no_value(s.total_capital, s.total_shares, amount);
        let m = model::minted(s.total_capital, s.total_shares, amount);
        assert(amount * s.total_shares <= AMOUNT_LIMIT * AMOUNT_LIMIT) by (nonlinear_arith)
            requires
                0 < amount <= AMOUNT_LIMIT,
                0 < s.total_shares <= AMOUNT_LIMIT,
        ;
        assert(m <= m * s.total_capital) by (nonlinear_arith)
            requires
                0 <= m,
                1 <= s.total_capital,
        ;
        assert(AMOUNT_LIMIT * AMOUNT_LIMIT == 1_000_000_000_000_000_000_000_000_000_000_000_000);
    }
}

/// Withdrawals do not overflow.
pub proof fn withdrawals_within_limits_fit(s: PoolState, provider: Address, shares: int, now: u64)
    requires
        within_limits(s),
        s.lockup_end_fits(provider),
    ensures
        s.withdrawal_quote_fits(shares),
        s.withdraw_fits(provider, shares, now),
{
    if 0 < shares <= s.total_shares {
        pricing::withdrawal_pays_at_most_its_part(s.total_capital, s.total_shares, shares);
        assert(0 <= shares * s.total_capital <= AMOUNT_LIMIT * AMOUNT_LIMIT) by (nonlinear_arith)
            requires
                0 < shares <= AMOUNT_LIMIT,
                0 <= s.total_capital <= AMOUNT_LIMIT,
        ;
        assert(AMOUNT_LIMIT * AMOUNT_LIMIT == 1_000_000_000_000_000_000_000_000_000_000_000_000);
    }
}

/// A premium of coverage up to the limit can be computed, and is far from what an `i128` holds.
proof fn lemma_premium_within_limits(config: PoolConfig, params: PolicyParams)
    requires
        0 <= params.coverage_amount <= AMOUNT_LIMIT,
    ensures
        model::premium_fits(config, params),
        0 <= model::premium(config, params) <= 20_000_000_000_000_000_000_000_000_000_000,
{
    let rate = config.base_premium_rate_bps as int;
    let yearly = params.coverage_amount * rate;
    assert(0 <= yearly <= AMOUNT_LIMIT * 0xffff_ffff) by (nonlinear_arith)
        requires
            yearly == params.coverage_amount * rate,
            0 <= params.coverage_amount <= AMOUNT_LIMIT,
            0 <= rate <= 0xffff_ffff,
    ;
    let base = model::annual_base(config, params);
    assert(0 <= base <= 430_000_000_000_000_000_000_000);
    let time = model::duration_factor(params.duration_days);
    assert(0 <= time <= 118_000_000_000_000);
    assert(0 <= base * time <= 430_000_000_000_000_000_000_000 * 118_000_000_000_000)
        by (nonlinear_arith)
        requires
            0 <= base <= 430_000_000_000_000_000_000_000,
            0 <= time <= 118_000_000_000_000,
    ;
    let part = model::duration_base(config, params);
    assert(0 <= part <= 5_100_000_000_000_000_000_000_000_000_000);
}

/// The premium of coverage up to the limit does not overflow, whatever the rate and however long
/// the policy.
pub proof fn premiums_within_limits_fit(s: PoolState, params: PolicyParams)
    requires
        within_limits(s),
        0 <= params.coverage_amount <= AMOUNT_LIMIT,
    ensures
        s.premium_quote_fits(params),
{
    if s.settings is Some {
        lemma_premium_within_limits(s.config(), params);
        let bps = s.config().max_utilization_bps as int;
        assert(0 <= s.total_capital * bps <= AMOUNT_LIMIT * 0xffff_ffff) by (nonlinear_arith)
            requires
                0 <= s.total_capital <= AMOUNT_LIMIT,
                0 <= bps <= 0xffff_ffff,
        ;
    }
}

/// A purchase of coverage up to the limit does not overflow, as long as the premiums so far are
/// within it too, there is an id left and room in the holder's list, and the policy's end is a
/// time.
pub proof fn purchases_within_limits_fit(
    s: PoolState,
    holder: Address,
    params: PolicyParams,
    now: u64,
)
    requires
        within_limits(s),
        0 <= s.total_premiums <= AMOUNT_LIMIT,
        0 <= params.coverage_amount <= AMOUNT_LIMIT,
        s.next_policy_id < u64::MAX,
        s.policies_of(holder).len() < u32::MAX,
        model::policy_end(now, params.duration_days) <= u64::MAX,
    ensures
        s.buy_fits(holder, params, now),
{
    premiums_within_limits_fit(s, params);
    if s.settings is Some {
        lemma_premium_within_limits(s.config(), params);
    }
}

/// The summary of a solvent pool with a base rate of no more than 100% does not overflow.
pub proof fn summary_within_limits_fits(s: PoolState)
    requires
        solvent(s),
        within_limits(s),
        s.stats_config().base_premium_rate_bps <= BPS,
    ensures
        s.stats_fit(),
        0 <= s.utilization() <= BPS,
        s.reported_utilization() == s.utilization(),
{
    let bps = s.stats_config().max_utilization_bps as int;
    assert(0 <= s.total_capital * bps <= AMOUNT_LIMIT * 0xffff_ffff) by (nonlinear_arith)
        requires
            0 <= s.total_capital <= AMOUNT_LIMIT,
            0 <= bps <= 0xffff_ffff,
    ;
    if s.total_capital > 0 {
        lemma_fundamental_div_mod(s.total_coverage * BPS, s.total_capital);
        let q = s.total_coverage * BPS / s.total_capital;
        assert(0 <= q <= BPS) by (nonlinear_arith)
            requires
                s.total_capital * q <= s.total_coverage * BPS < s.total_capital * q
                    + s.total_capital,
                0 <= s.total_coverage <= s.total_capital,
                0 < s.total_capital,
        ;
    }
    let used = s.utilization();
    let rate = s.stats_config().base_premium_rate_bps as int;
    assert(0 <= rate * used <= BPS * BPS) by (nonlinear_arith)
        requires
            0 <= rate <= BPS,
            0 <= used <= BPS,
    ;
    if s.total_shares > 0 {
        lemma_fundamental_div_mod(s.total_capital * model::PRECISION, s.total_shares);
        let price = s.total_capital * model::PRECISION / s.total_shares;
        assert(0 <= price <= s.total_capital * model::PRECISION) by (nonlinear_arith)
            requires
                s.total_shares * price <= s.total_capital * model::PRECISION < s.total_shares
                    * price + s.total_shares,
                0 <= s.total_capital,
                1 <= s.total_shares,
        ;
    }
}

/// The claim of a policy whose threshold is no larger than the limit does not overflow, once the
/// ledger has reached the time of the reading.
pub proof fn claims_within_limits_fit(s: PoolState, policy_id: u64, now: u64)
    requires
        s.valid(),
        within_limits(s),
        s.policies.contains_key(policy_id),
        -AMOUNT_LIMIT <= s.policies[policy_id].trigger_threshold <= AMOUNT_LIMIT,
        s.oracle_data.contains_key(s.policies[policy_id].coverage_type)
            ==> s.oracle_data[s.policies[policy_id].coverage_type].updated_at <= now,
    ensures
        s.claim_fits(policy_id, now),
        s.expire_fits(policy_id, now),
{
    history::lemma_coverage_is_not_negative(s);
    assert(s.settings is Some);
}

// ── Administration ─────────────────────────────────────────────────────────────

/// A pool is initialized once.
pub proof fn a_pool_is_initialized_once(s: PoolState, call: PoolCall)
    requires
        s.settings is Some,
        s.accepts(call),
    ensures
        call !is Initialize,
        s.after(call).settings is Some,
{
}

/// Only the admin changes what the pool is wired to, its configuration or its readings.
pub proof fn only_the_admin_administers(s: PoolState, call: PoolCall)
    requires
        s.settings is Some,
        s.accepts(call),
        s.after(call).settings != s.settings || s.after(call).oracle_data != s.oracle_data,
    ensures
        match call {
            PoolCall::SetPolicyRegistry { caller, .. } => caller == s.settings->0.admin,
            PoolCall::SetAdmin { caller, .. } => caller == s.settings->0.admin,
            PoolCall::SetPoolConfig { caller, .. } => caller == s.settings->0.admin,
            PoolCall::UpdateOracle { caller, .. } => caller == s.settings->0.admin,
            _ => false,
        },
{
}

/// Once the admin role is handed over, the former admin is refused and the new one is not.
pub proof fn handing_over_moves_the_admin_role(s: PoolState, old_admin: Address, new_admin: Address)
    requires
        s.admin_check(old_admin) is Ok,
    ensures
        s.with_admin(new_admin).admin_check(new_admin) is Ok,
        old_admin != new_admin ==> s.with_admin(new_admin).admin_check(old_admin) == Err::<
            (),
            PoolError,
        >(PoolError::Unauthorized),
{
}

} // verus!
