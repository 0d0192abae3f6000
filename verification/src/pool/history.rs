//! The pool over time: the calls that change it, and what every one of them keeps.

use vstd::prelude::*;

use crate::address::Address;
use crate::pool::model;
use crate::pool::model::PoolState;
use crate::pool::pricing;
use crate::pool::types::{CoverageType, Policy, PolicyParams, PolicyStatus, PoolConfig};
use crate::sums;
use crate::table;

verus! {

/// A call that may change the pool, with the ledger's time where it matters.
pub enum PoolCall {
    Initialize { admin: Address, usdc_token: Address, policy_registry: Address },
    ProvideCapital { provider: Address, amount: i128, now: u64 },
    WithdrawCapital { provider: Address, shares: i128, now: u64 },
    BuyPolicy { holder: Address, params: PolicyParams, now: u64 },
    ProcessClaim { policy_id: u64, now: u64 },
    ExpirePolicy { policy_id: u64, now: u64 },
    SetPolicyRegistry { caller: Address, policy_registry: Address },
    SetAdmin { caller: Address, new_admin: Address },
    SetPoolConfig { caller: Address, config: PoolConfig },
    UpdateOracle { caller: Address, coverage_type: CoverageType, value: i128, now: u64 },
}

/// What a policy adds to the pool's outstanding coverage.
pub open spec fn open_coverage(policy: Policy) -> int {
    if policy.status == PolicyStatus::Active {
        policy.coverage_amount as int
    } else {
        0
    }
}

/// The outstanding coverage of each policy.
pub open spec fn open_coverages(policies: Map<u64, Policy>) -> Map<u64, int> {
    policies.map_values(|p: Policy| open_coverage(p))
}

/// The premium of each policy.
pub open spec fn premiums(policies: Map<u64, Policy>) -> Map<u64, int> {
    policies.map_values(|p: Policy| p.premium_paid as int)
}

/// Whether a policy is one that a pool without negative coverage can have sold.
pub open spec fn sound_policy(policy: Policy) -> bool {
    &&& 0 <= policy.coverage_amount
    &&& 0 <= policy.premium_paid
    &&& policy.start_time <= policy.end_time
    &&& policy.status == PolicyStatus::Claimed <==> policy.payout_at is Some
    &&& policy.payout_at matches Some(at) ==> at <= policy.end_time
}

/// Whether the shares add up to their total, and stand for all of the capital.
pub open spec fn shares_add_up(
    shares: Map<Address, int>,
    last_deposits: Map<Address, u64>,
    total_shares: int,
    total_capital: int,
) -> bool {
    &&& shares.dom().finite()
    &&& forall|user: Address| shares.contains_key(user) ==> 0 <= #[trigger] shares[user]
    &&& total_shares == sums::sum_values(shares)
    &&& 0 <= total_capital
    &&& total_shares == 0 ==> total_capital == 0
    &&& last_deposits.dom() == shares.dom()
}

/// Whether the outstanding coverage and the premiums are those of the policies sold.
pub open spec fn policies_add_up(
    policies: Map<u64, Policy>,
    total_coverage: int,
    total_premiums: int,
) -> bool {
    &&& policies.dom().finite()
    &&& forall|id: u64| #[trigger]
        policies.contains_key(id) ==> sound_policy(policies[id])
    &&& total_coverage == sums::sum_values(open_coverages(policies))
    &&& total_premiums == sums::sum_values(premiums(policies))
}

/// Whether each holder's list names exactly the holder's policies, oldest first.
pub open spec fn index_resolves(
    index: Map<Address, Seq<u64>>,
    policies: Map<u64, Policy>,
) -> bool {
    &&& forall|user: Address, i: int|
        index.contains_key(user) && 0 <= i < index[user].len() ==> policies.contains_key(
            #[trigger] index[user][i],
        ) && policies[index[user][i]].holder == user
    &&& forall|user: Address, i: int, j: int|
        index.contains_key(user) && 0 <= i < j < index[user].len() ==> #[trigger] index[user][i]
            < #[trigger] index[user][j]
    &&& forall|id: u64| #[trigger]
        policies.contains_key(id) ==> index.contains_key(policies[id].holder)
            && index[policies[id].holder].contains(id)
}

impl PoolState {
    /// Whether a call goes through. (One that overflows does not.)
    pub open spec fn accepts(self, call: PoolCall) -> bool {
        match call {
            PoolCall::Initialize { .. } => self.settings is None,
            PoolCall::ProvideCapital { provider, amount, now } => {
                &&& self.share_quote(amount as int) is Ok
                &&& self.provide_fits(provider, amount as int)
            },
            PoolCall::WithdrawCapital { provider, shares, now } => {
                &&& self.withdrawal(provider, shares as int, now) is Ok
                &&& self.withdraw_fits(provider, shares as int, now)
            },
            PoolCall::BuyPolicy { holder, params, now } => {
                &&& self.premium_quote(params) is Ok
                &&& self.buy_fits(holder, params, now)
            },
            PoolCall::ProcessClaim { policy_id, now } => {
                &&& self.claim(policy_id, now) is Ok
                &&& self.claim_fits(policy_id, now)
            },
            PoolCall::ExpirePolicy { policy_id, now } => {
                &&& self.expiry(policy_id, now) is Ok
                &&& self.expire_fits(policy_id, now)
            },
            PoolCall::SetPolicyRegistry { caller, .. } => self.admin_check(caller) is Ok,
            PoolCall::SetAdmin { caller, .. } => self.admin_check(caller) is Ok,
            PoolCall::SetPoolConfig { caller, .. } => self.admin_check(caller) is Ok,
            PoolCall::UpdateOracle { caller, .. } => self.admin_check(caller) is Ok,
        }
    }

    /// The state that a call leaves, where it goes through.
    pub open spec fn after(self, call: PoolCall) -> PoolState {
        match call {
            PoolCall::Initialize { admin, usdc_token, policy_registry } => self.initialized(
                admin,
                usdc_token,
                policy_registry,
            ),
            PoolCall::ProvideCapital { provider, amount, now } => self.provided(
                provider,
                amount as int,
                now,
            ),
            PoolCall::WithdrawCapital { provider, shares, now } => self.withdrawn(
                provider,
                shares as int,
                self.withdrawal(provider, shares as int, now)->Ok_0,
            ),
            PoolCall::BuyPolicy { holder, params, now } => self.bought(holder, params, now),
            PoolCall::ProcessClaim { policy_id, now } => self.claimed(policy_id, now),
            PoolCall::ExpirePolicy { policy_id, now } => self.expired(policy_id),
            PoolCall::SetPolicyRegistry { policy_registry, .. } => self.with_registry(
                policy_registry,
            ),
            PoolCall::SetAdmin { new_admin, .. } => self.with_admin(new_admin),
            PoolCall::SetPoolConfig { config, .. } => self.with_config(config),
            PoolCall::UpdateOracle { coverage_type, value, now, .. } => self.with_reading(
                coverage_type,
                value,
                now,
            ),
        }
    }

    /// Whether the pool has sold nothing before it was initialized, and every policy on record
    /// has an id that was given out already.
    pub open spec fn ids_in_order(self) -> bool {
        &&& self.settings is None ==> self == model::new_pool()
        &&& forall|id: u64| #[trigger]
            self.policies.contains_key(id) ==> id < self.next_policy_id
    }

    /// Whether every policy is on record under its own id and in its holder's list.
    pub open spec fn index_in_order(self) -> bool {
        &&& forall|id: u64| #[trigger]
            self.policies.contains_key(id) ==> self.policies[id].id == id
        &&& index_resolves(self.user_policies, self.policies)
    }

    /// What holds of every pool whose admin asks for no negative coverage.
    pub open spec fn valid(self) -> bool {
        &&& self.ids_in_order()
        &&& self.index_in_order()
        &&& self.settings matches Some(settings) ==> settings.config.min_coverage >= 0
        &&& shares_add_up(
            self.shares,
            self.last_deposits,
            self.total_shares,
            self.total_capital,
        )
        &&& policies_add_up(self.policies, self.total_coverage, self.total_premiums)
    }
}

/// Whether a call does not set a configuration under which a policy could cover a negative
/// amount.
pub open spec fn sensible(call: PoolCall) -> bool {
    call matches PoolCall::SetPoolConfig { config, .. } ==> config.min_coverage >= 0
}

/// A pool that nobody has initialized is valid.
pub proof fn a_new_pool_is_valid()
    ensures
        model::new_pool().valid(),
{
    let pool = model::new_pool();
    assert(open_coverages(pool.policies) =~= Map::empty());
    assert(premiums(pool.policies) =~= Map::empty());
    assert(pool.last_deposits.dom() =~= pool.shares.dom());
}

proof fn lemma_provide_keeps_valid(s: PoolState, provider: Address, amount: i128, now: u64)
    requires
        s.valid(),
        s.share_quote(amount as int) is Ok,
    ensures
        s.provided(provider, amount as int, now).valid(),
{
    let next = s.provided(provider, amount as int, now);
    let m = model::minted(s.total_capital, s.total_shares, amount as int);
    sums::lemma_sum_bounds(s.shares);
    if s.total_capital > 0 && s.total_shares > 0 {
        pricing::minting_creates_no_value(s.total_capital, s.total_shares, amount as int);
    }
    assert(m >= 0);
    sums::lemma_sum_insert(s.shares, provider, s.shares_of(provider) + m);
    assert(next.last_deposits.dom() =~= next.shares.dom());
}

proof fn lemma_withdraw_keeps_valid(s: PoolState, provider: Address, shares: i128, now: u64)
    requires
        s.valid(),
        s.withdrawal(provider, shares as int, now) is Ok,
    ensures
        s.withdrawn(
            provider,
            shares as int,
            s.withdrawal(provider, shares as int, now)->Ok_0,
        ).valid(),
{
    let out = s.withdrawal(provider, shares as int, now)->Ok_0;
    let next = s.withdrawn(provider, shares as int, out);
    sums::lemma_sum_bounds(s.shares);
    assert(s.shares.contains_key(provider));
    assert(s.total_shares >= s.shares[provider] >= shares > 0);
    pricing::withdrawal_pays_at_most_its_part(s.total_capital, s.total_shares, shares as int);
    if shares == s.total_shares {
        pricing::last_withdrawal_takes_everything(s.total_capital, s.total_shares);
    }
    sums::lemma_sum_insert(s.shares, provider, s.shares_of(provider) - shares);
    assert(next.last_deposits.dom() =~= next.shares.dom());
}

/// What a price that can be computed is: an `i128`, and not negative for coverage that is not.
proof fn lemma_price_fits(config: PoolConfig, params: PolicyParams)
    requires
        params.coverage_amount >= 0,
        model::premium_fits(config, params),
    ensures
        0 <= model::premium(config, params) <= i128::MAX,
{
    pricing::premium_is_never_negative(config, params);
}

proof fn lemma_buy_keeps_valid(s: PoolState, holder: Address, params: PolicyParams, now: u64)
    requires
        s.valid(),
        s.premium_quote(params) is Ok,
        s.buy_fits(holder, params, now),
    ensures
        s.bought(holder, params, now).valid(),
        s.bought(holder, params, now).policies[s.next_policy_id].premium_paid == model::premium(
            s.config(),
            params,
        ),
{
    let next = s.bought(holder, params, now);
    let id = s.next_policy_id;
    let policy = s.new_policy(holder, params, now);
    let price = model::premium(s.config(), params);
    lemma_price_fits(s.config(), params);
    assert(!s.policies.contains_key(id));
    assert(0 <= params.duration_days * model::SECONDS_PER_DAY) by (nonlinear_arith);
    let coverage = |p: Policy| open_coverage(p);
    let paid = |p: Policy| p.premium_paid as int;
    table::lemma_map_values_insert(s.policies, coverage, id, policy);
    table::lemma_map_values_insert(s.policies, paid, id, policy);
    assert(open_coverages(s.policies).dom() =~= s.policies.dom());
    assert(premiums(s.policies).dom() =~= s.policies.dom());
    sums::lemma_sum_insert(open_coverages(s.policies), id, open_coverage(policy));
    sums::lemma_sum_insert(premiums(s.policies), id, price);
    assert forall|k: u64| #[trigger] next.policies.contains_key(k) implies k < next.next_policy_id
        && sound_policy(next.policies[k]) by {
        if k != id {
            assert(s.policies.contains_key(k));
        }
    }
    // Without shares there is no capital, so there is no room for coverage, and no premium.
    if s.total_shares == 0 {
        a_pool_without_capital_sells_nothing(s, params);
    }
    lemma_index_grows(s.user_policies, s.policies, policy, s.next_policy_id);
}

/// A pool without capital sells only policies that cover and cost nothing.
pub proof fn a_pool_without_capital_sells_nothing(s: PoolState, params: PolicyParams)
    requires
        s.valid(),
        s.total_capital == 0,
        s.premium_quote(params) is Ok,
    ensures
        params.coverage_amount == 0,
        model::premium(s.config(), params) == 0,
{
    lemma_coverage_is_not_negative(s);
    assert(s.total_capital * s.config().max_utilization_bps == 0);
    pricing::premium_is_zero_when_coverage_or_duration_is_zero(s.config(), params);
}

/// The outstanding coverage is not negative, and no policy holds more than all of it.
pub proof fn lemma_coverage_is_not_negative(s: PoolState)
    requires
        s.valid(),
    ensures
        0 <= s.total_coverage,
        forall|id: u64|
            #[trigger] s.policies.contains_key(id) && s.policies[id].status == PolicyStatus::Active
                ==> 0 <= s.policies[id].coverage_amount <= s.total_coverage,
{
    let open = open_coverages(s.policies);
    assert(open.dom() =~= s.policies.dom());
    assert forall|id: u64| open.contains_key(id) implies 0 <= #[trigger] open[id] by {
        assert(sound_policy(s.policies[id]));
    }
    sums::lemma_sum_bounds(open);
    assert forall|id: u64| #[trigger]
        s.policies.contains_key(id) && s.policies[id].status
            == PolicyStatus::Active implies 0 <= s.policies[id].coverage_amount
        <= s.total_coverage by {
        assert(open.contains_key(id));
        assert(open[id] == s.policies[id].coverage_amount);
    }
}

/// A new policy, put at the end of its holder's list, leaves the index as it should be.
proof fn lemma_index_grows(
    index: Map<Address, Seq<u64>>,
    policies: Map<u64, Policy>,
    policy: Policy,
    id: u64,
)
    requires
        index_resolves(index, policies),
        forall|k: u64| #[trigger] policies.contains_key(k) ==> k < id,
    ensures
        ({
            let listed = if index.contains_key(policy.holder) {
                index[policy.holder]
            } else {
                Seq::empty()
            };
            index_resolves(
                index.insert(policy.holder, listed.push(id)),
                policies.insert(id, policy),
            )
        }),
{
    let holder = policy.holder;
    let listed = if index.contains_key(holder) {
        index[holder]
    } else {
        Seq::empty()
    };
    let index2 = index.insert(holder, listed.push(id));
    let policies2 = policies.insert(id, policy);
    assert forall|user: Address, i: int|
        index2.contains_key(user) && 0 <= i < index2[user].len() implies policies2.contains_key(
        #[trigger] index2[user][i],
    ) && policies2[index2[user][i]].holder == user by {
        if user != holder || i < listed.len() {
            assert(index2[user][i] == index[user][i]);
        }
    }
    assert forall|user: Address, i: int, j: int|
        index2.contains_key(user) && 0 <= i < j
            < index2[user].len() implies #[trigger] index2[user][i]
        < #[trigger] index2[user][j] by {
        assert(index2[user][i] == index[user][i]);
        assert(policies.contains_key(index[user][i]));
        if user != holder || j < listed.len() {
            assert(index2[user][j] == index[user][j]);
        }
    }
    assert forall|k: u64| #[trigger] policies2.contains_key(k) implies index2.contains_key(
        policies2[k].holder,
    ) && index2[policies2[k].holder].contains(k) by {
        if k == id {
            assert(index2[holder][listed.len() as int] == id);
        } else {
            assert(policies.contains_key(k));
            let owner = policies[k].holder;
            let i = choose|i: int| 0 <= i < index[owner].len() && index[owner][i] == k;
            assert(index2[owner][i] == k);
        }
    }
}

/// Settling a policy moves it out of the outstanding coverage and changes nothing else that the
/// totals or the index rest on.
proof fn lemma_settling_keeps_policies(s: PoolState, id: u64, settled: Policy)
    requires
        s.valid(),
        s.policies.contains_key(id),
        s.policies[id].status == PolicyStatus::Active,
        settled.status != PolicyStatus::Active,
        settled.holder == s.policies[id].holder,
        settled.premium_paid == s.policies[id].premium_paid,
        sound_policy(settled),
    ensures
        s.policies[id].coverage_amount <= s.total_coverage,
        policies_add_up(
            s.policies.insert(id, settled),
            s.total_coverage - s.policies[id].coverage_amount,
            s.total_premiums,
        ),
        index_resolves(s.user_policies, s.policies.insert(id, settled)),
{
    lemma_coverage_is_not_negative(s);
    let coverage = |p: Policy| open_coverage(p);
    let paid = |p: Policy| p.premium_paid as int;
    table::lemma_map_values_insert(s.policies, coverage, id, settled);
    table::lemma_map_values_insert(s.policies, paid, id, settled);
    assert(open_coverages(s.policies).dom() =~= s.policies.dom());
    assert(premiums(s.policies).dom() =~= s.policies.dom());
    sums::lemma_sum_insert(open_coverages(s.policies), id, 0);
    sums::lemma_sum_insert(premiums(s.policies), id, settled.premium_paid as int);
    let after = s.policies.insert(id, settled);
    assert forall|k: u64| #[trigger] after.contains_key(k) implies k < s.next_policy_id
        && sound_policy(after[k]) && s.user_policies.contains_key(after[k].holder)
        && s.user_policies[after[k].holder].contains(k) by {
        assert(s.policies.contains_key(k));
    }
}

proof fn lemma_claim_keeps_valid(s: PoolState, policy_id: u64, now: u64)
    requires
        s.valid(),
        s.claim(policy_id, now) is Ok,
    ensures
        s.claimed(policy_id, now).valid(),
        s.claimed(policy_id, now).total_coverage == s.total_coverage
            - s.policies[policy_id].coverage_amount,
{
    let policy = s.policies[policy_id];
    assert(sound_policy(policy));
    let settled = Policy { status: PolicyStatus::Claimed, payout_at: Some(now), ..policy };
    lemma_settling_keeps_policies(s, policy_id, settled);
}

proof fn lemma_expiry_keeps_valid(s: PoolState, policy_id: u64, now: u64)
    requires
        s.valid(),
        s.expiry(policy_id, now) is Ok,
    ensures
        s.expired(policy_id).valid(),
        s.expired(policy_id).total_coverage == s.total_coverage
            - s.policies[policy_id].coverage_amount,
{
    let policy = s.policies[policy_id];
    assert(sound_policy(policy));
    let settled = Policy { status: PolicyStatus::Expired, ..policy };
    lemma_settling_keeps_policies(s, policy_id, settled);
}

/// Every call that goes through keeps the pool valid, unless it sets a configuration for negative
/// coverage.
pub proof fn every_call_keeps_the_pool_valid(s: PoolState, call: PoolCall)
    requires
        s.valid(),
        s.accepts(call),
        sensible(call),
    ensures
        s.after(call).valid(),
{
    match call {
        PoolCall::Initialize { .. } => {
            a_new_pool_is_valid();
        },
        PoolCall::ProvideCapital { provider, amount, now } => {
            lemma_provide_keeps_valid(s, provider, amount, now);
        },
        PoolCall::WithdrawCapital { provider, shares, now } => {
            lemma_withdraw_keeps_valid(s, provider, shares, now);
        },
        PoolCall::BuyPolicy { holder, params, now } => {
            lemma_buy_keeps_valid(s, holder, params, now);
        },
        PoolCall::ProcessClaim { policy_id, now } => {
            lemma_claim_keeps_valid(s, policy_id, now);
        },
        PoolCall::ExpirePolicy { policy_id, now } => {
            lemma_expiry_keeps_valid(s, policy_id, now);
        },
        _ => {},
    }
}

/// Whether each call goes through, one after the other.
pub open spec fn all_accepted(s: PoolState, calls: Seq<PoolCall>) -> bool
    decreases calls.len(),
{
    calls.len() == 0 || {
        &&& all_accepted(s, calls.drop_last())
        &&& run(s, calls.drop_last()).accepts(calls.last())
    }
}

/// The state that calls leave, one after the other.
pub open spec fn run(s: PoolState, calls: Seq<PoolCall>) -> PoolState
    decreases calls.len(),
{
    if calls.len() == 0 {
        s
    } else {
        run(s, calls.drop_last()).after(calls.last())
    }
}

/// Every call that goes through keeps the ids in order, whatever the configuration.
pub proof fn every_call_keeps_the_ids_in_order(s: PoolState, call: PoolCall)
    requires
        s.ids_in_order(),
        s.accepts(call),
    ensures
        s.after(call).ids_in_order(),
{
    let next = s.after(call);
    assert forall|k: u64| #[trigger] next.policies.contains_key(k) implies k
        < next.next_policy_id by {
        if k != s.next_policy_id {
            assert(s.policies.contains_key(k));
        }
    }
}

/// Every call that goes through keeps the index in order, whatever the configuration.
pub proof fn every_call_keeps_the_index_in_order(s: PoolState, call: PoolCall)
    requires
        s.ids_in_order(),
        s.index_in_order(),
        s.accepts(call),
    ensures
        s.after(call).index_in_order(),
{
    let next = s.after(call);
    match call {
        PoolCall::BuyPolicy { holder, params, now } => {
            lemma_index_grows(
                s.user_policies,
                s.policies,
                s.new_policy(holder, params, now),
                s.next_policy_id,
            );
            assert forall|k: u64| #[trigger] next.policies.contains_key(
                k,
            ) implies next.policies[k].id == k by {
                if k != s.next_policy_id {
                    assert(s.policies.contains_key(k));
                }
            }
        },
        _ => {
            assert forall|k: u64| #[trigger] next.policies.contains_key(
                k,
            ) implies next.policies[k].id == k && s.user_policies.contains_key(
                next.policies[k].holder,
            ) && s.user_policies[next.policies[k].holder].contains(k) by {
                assert(s.policies.contains_key(k));
            }
        },
    }
}

/// In every state that a pool can come to, the ids and the index are in order, whatever the
/// configurations on the way.
pub proof fn every_reachable_pool_is_in_order(calls: Seq<PoolCall>)
    requires
        all_accepted(model::new_pool(), calls),
    ensures
        run(model::new_pool(), calls).ids_in_order(),
        run(model::new_pool(), calls).index_in_order(),
    decreases calls.len(),
{
    if calls.len() != 0 {
        let earlier = calls.drop_last();
        every_reachable_pool_is_in_order(earlier);
        every_call_keeps_the_ids_in_order(run(model::new_pool(), earlier), calls.last());
        every_call_keeps_the_index_in_order(run(model::new_pool(), earlier), calls.last());
    }
}

/// Every state that a pool can come to without a configuration for negative coverage is valid.
pub proof fn every_reachable_pool_is_valid(calls: Seq<PoolCall>)
    requires
        all_accepted(model::new_pool(), calls),
        forall|i: int| 0 <= i < calls.len() ==> sensible(#[trigger] calls[i]),
    ensures
        run(model::new_pool(), calls).valid(),
    decreases calls.len(),
{
    if calls.len() == 0 {
        a_new_pool_is_valid();
    } else {
        let earlier = calls.drop_last();
        assert forall|i: int| 0 <= i < earlier.len() implies sensible(#[trigger] earlier[i]) by {
            assert(earlier[i] == calls[i]);
        }
        every_reachable_pool_is_valid(earlier);
        assert(sensible(calls[calls.len() - 1]));
        every_call_keeps_the_pool_valid(run(model::new_pool(), earlier), calls.last());
    }
}

} // verus!
