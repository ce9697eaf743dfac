//! The abstract state of the contract and what each entry point does to it.
use vstd::prelude::*;

use crate::outcome::{Event, HostCall};
use crate::types::{
    migrated, plan_expiry, Address, ContractError, LegacyMeter, Meter, PaymentPlan, StoredMeter,
    Symbol, MAX_BATCH_SIZE,
};

verus! {

/// One line of a batch usage report: meter, units consumed, cost charged.
pub type UsageReport = (Symbol, u64, i128);

/// Everything the contract keeps in its store.
#[verifier::ext_equal]
pub struct GridView {
    pub admin: Option<Address>,
    pub token: Option<Address>,
    pub oracle: Option<Address>,
    /// Accounts that may own meters, in the order they were added.
    pub allowlist: Seq<Address>,
    /// Every meter id registered, in registration order.
    pub meter_list: Seq<Symbol>,
    /// Meter records by meter id.
    pub meters: Map<Seq<char>, StoredMeter>,
    /// Meter ids registered to each owner, in registration order.
    pub owner_meters: Map<Seq<char>, Seq<Symbol>>,
    /// Prepaid credit by meter id.
    pub balances: Map<Seq<char>, i128>,
    /// Revenue accrued to each provider and not yet withdrawn.
    pub revenue: Map<Seq<char>, i128>,
}

/// A meter's credit after `cost` is charged against `balance`: never below zero.
pub open spec fn settle(balance: int, cost: int) -> int {
    if balance - cost < 0 {
        0
    } else {
        balance - cost
    }
}

/// The record of a meter just registered for `owner` at time `now`.
pub open spec fn fresh_meter(owner: Address, now: u64) -> Meter {
    Meter {
        version: 1,
        owner,
        active: false,
        units_used: 0,
        plan: PaymentPlan::Daily,
        last_payment: now,
        expires_at: now,
    }
}

/// `list` with every entry whose strkey is `a` left out, order kept.
pub open spec fn without(list: Seq<Address>, a: Seq<char>) -> Seq<Address>
    decreases list.len(),
{
    if list.len() == 0 {
        Seq::empty()
    } else {
        let rest = without(list.drop_last(), a);
        if list.last()@ == a {
            rest
        } else {
            rest.push(list.last())
        }
    }
}

/// The current-layout records of the meters named in `ids`, in that order; ids with no
/// record, or an old-layout one, contribute nothing.
pub open spec fn listed_meters(ids: Seq<Symbol>, meters: Map<Seq<char>, StoredMeter>) -> Seq<Meter>
    decreases ids.len(),
{
    if ids.len() == 0 {
        Seq::empty()
    } else {
        let prev = listed_meters(ids.drop_last(), meters);
        let k = ids.last()@;
        if meters.contains_key(k) && meters[k] is Current {
            prev.push(meters[k]->Current_0)
        } else {
            prev
        }
    }
}

/// Whether some report in `ups` carries a negative cost.
pub open spec fn has_negative_cost(ups: Seq<UsageReport>) -> bool {
    exists|i: int| 0 <= i < ups.len() && #[trigger] ups[i].2 < 0
}

impl GridView {
    // ── Reading the store ────────────────────────────────────────────────────

    pub open spec fn initialized(self) -> bool {
        self.admin is Some
    }

    /// Credit held for a meter; zero when none was ever recorded.
    pub open spec fn balance(self, id: Seq<char>) -> int {
        if self.balances.contains_key(id) {
            self.balances[id] as int
        } else {
            0
        }
    }

    /// Revenue held for a provider; zero when none was ever recorded.
    pub open spec fn revenue_of(self, provider: Seq<char>) -> int {
        if self.revenue.contains_key(provider) {
            self.revenue[provider] as int
        } else {
            0
        }
    }

    pub open spec fn owner_list(self, owner: Seq<char>) -> Seq<Symbol> {
        if self.owner_meters.contains_key(owner) {
            self.owner_meters[owner]
        } else {
            Seq::empty()
        }
    }

    pub open spec fn allowlisted(self, a: Seq<char>) -> bool {
        exists|i: int| 0 <= i < self.allowlist.len() && #[trigger] self.allowlist[i]@ == a
    }

    pub open spec fn has_meter(self, id: Seq<char>) -> bool {
        self.meters.contains_key(id)
    }

    /// The meter slot does not hold an old-layout record (reading one as current aborts).
    pub open spec fn readable(self, id: Seq<char>) -> bool {
        self.has_meter(id) ==> self.meters[id] is Current
    }

    /// The current record of a meter (meaningful when it has one).
    pub open spec fn meter(self, id: Seq<char>) -> Meter {
        self.meters[id]->Current_0
    }

    /// Whether the meter currently has energy access at time `now`.
    pub open spec fn access(self, id: Seq<char>, now: u64) -> bool {
        &&& self.meter(id).active
        &&& self.balance(id) > 0
        &&& now < self.meter(id).expires_at
    }

    /// Authorization asked of the admin, when there is one.
    pub open spec fn admin_auth(self) -> Seq<HostCall> {
        match self.admin {
            Some(a) => seq![HostCall::RequireAuth(a)],
            None => Seq::empty(),
        }
    }

    pub open spec fn oracle_error(self) -> Option<ContractError> {
        if self.admin is None {
            Some(ContractError::NotInitialized)
        } else if self.oracle is None {
            Some(ContractError::OracleNotSet)
        } else {
            None
        }
    }

    /// Authorization asked of the oracle, when the contract is initialized and has one.
    pub open spec fn oracle_auth(self) -> Seq<HostCall> {
        match (self.admin, self.oracle) {
            (Some(_), Some(o)) => seq![HostCall::RequireAuth(o)],
            _ => Seq::empty(),
        }
    }

    pub open spec fn not_initialized_error(self) -> Option<ContractError> {
        if self.admin is None {
            Some(ContractError::NotInitialized)
        } else {
            None
        }
    }

    // ── initialize ───────────────────────────────────────────────────────────

    pub open spec fn initialize_error(self) -> Option<ContractError> {
        if self.admin is Some {
            Some(ContractError::AlreadyInitialized)
        } else {
            None
        }
    }

    pub open spec fn initialized_with(self, admin: Address, token: Address) -> GridView {
        GridView { admin: Some(admin), token: Some(token), ..self }
    }

    // ── register_meter ───────────────────────────────────────────────────────

    pub open spec fn register_error(self, id: Symbol, owner: Address) -> Option<ContractError> {
        if self.admin is None {
            Some(ContractError::NotInitialized)
        } else if !self.allowlisted(owner@) {
            Some(ContractError::OwnerNotAllowlisted)
        } else if self.has_meter(id@) {
            Some(ContractError::MeterAlreadyExists)
        } else {
            None
        }
    }

    /// Registration asks for the admin's authorization and the owner's co-signature.
    pub open spec fn register_calls(self, owner: Address) -> Seq<HostCall> {
        match self.admin {
            Some(a) => seq![HostCall::RequireAuth(a), HostCall::RequireAuth(owner)],
            None => Seq::empty(),
        }
    }

    pub open spec fn registered(self, id: Symbol, owner: Address, now: u64) -> GridView {
        GridView {
            meters: self.meters.insert(id@, StoredMeter::Current(fresh_meter(owner, now))),
            owner_meters: self.owner_meters.insert(owner@, self.owner_list(owner@).push(id)),
            meter_list: self.meter_list.push(id),
            ..self
        }
    }

    // ── allowlist ────────────────────────────────────────────────────────────

    pub open spec fn allowlist_added(self, owner: Address) -> GridView {
        if self.allowlisted(owner@) {
            self
        } else {
            GridView { allowlist: self.allowlist.push(owner), ..self }
        }
    }

    pub open spec fn allowlist_removed(self, owner: Address) -> GridView {
        GridView { allowlist: without(self.allowlist, owner@), ..self }
    }

    // ── oracle ───────────────────────────────────────────────────────────────

    pub open spec fn oracle_set(self, oracle: Address) -> GridView {
        GridView { oracle: Some(oracle), ..self }
    }

    // ── make_payment ─────────────────────────────────────────────────────────

    pub open spec fn payment_error(self, id: Symbol, amount: i128) -> Option<ContractError> {
        if self.admin is None {
            Some(ContractError::NotInitialized)
        } else if amount <= 0 {
            Some(ContractError::InvalidAmount)
        } else if self.token is None {
            Some(ContractError::NotInitialized)
        } else if !self.has_meter(id@) {
            Some(ContractError::MeterNotFound)
        } else {
            None
        }
    }

    /// The payer is asked to authorize once the contract is initialized; the deposit is
    /// asked for only when the payment goes through.
    pub open spec fn payment_calls(self, id: Symbol, payer: Address, amount: i128) -> Seq<HostCall> {
        if self.admin is None {
            Seq::empty()
        } else if self.payment_error(id, amount) is Some {
            seq![HostCall::RequireAuth(payer)]
        } else {
            seq![
                HostCall::RequireAuth(payer),
                HostCall::Deposit { token: self.token->0, from: payer, amount },
            ]
        }
    }

    /// The sums a successful payment records stay within the range of `i128`.
    pub open spec fn payment_fits(self, id: Symbol, amount: i128) -> bool {
        self.payment_error(id, amount) is None ==> {
            &&& self.balance(id@) + amount <= i128::MAX
            &&& self.revenue_of(self.admin->0@) + amount <= i128::MAX
        }
    }

    pub open spec fn paid(self, id: Symbol, amount: i128, plan: PaymentPlan, now: u64) -> GridView {
        let m = self.meter(id@);
        let provider = self.admin->0@;
        GridView {
            balances: self.balances.insert(id@, (self.balance(id@) + amount) as i128),
            meters: self.meters.insert(
                id@,
                StoredMeter::Current(
                    Meter {
                        active: true,
                        plan,
                        last_payment: now,
                        expires_at: plan_expiry(plan, now),
                        ..m
                    },
                ),
            ),
            revenue: self.revenue.insert(provider, (self.revenue_of(provider) + amount) as i128),
            ..self
        }
    }

    pub open spec fn payment_events(
        self,
        id: Symbol,
        payer: Address,
        amount: i128,
        plan: PaymentPlan,
    ) -> Seq<Event> {
        seq![
            Event::PaymentReceived { meter_id: id, payer, amount, plan },
            Event::MeterActivated { meter_id: id },
        ]
    }

    // ── withdraw_revenue ─────────────────────────────────────────────────────

    pub open spec fn withdraw_error(self, provider: Address, amount: i128) -> Option<
        ContractError,
    > {
        if amount <= 0 {
            Some(ContractError::InvalidAmount)
        } else if self.admin is None {
            Some(ContractError::NotInitialized)
        } else if provider@ != self.admin->0@ {
            Some(ContractError::Unauthorized)
        } else if self.revenue_of(provider@) < amount {
            Some(ContractError::InsufficientProviderRevenue)
        } else if self.token is None {
            Some(ContractError::NotInitialized)
        } else {
            None
        }
    }

    pub open spec fn withdraw_calls(self, provider: Address, amount: i128) -> Seq<HostCall> {
        if amount <= 0 || self.admin is None || provider@ != self.admin->0@ {
            Seq::empty()
        } else if self.revenue_of(provider@) < amount || self.token is None {
            seq![HostCall::RequireAuth(provider)]
        } else {
            seq![
                HostCall::RequireAuth(provider),
                HostCall::Payout { token: self.token->0, to: provider, amount },
            ]
        }
    }

    pub open spec fn withdrawn(self, provider: Address, amount: i128) -> GridView {
        GridView {
            revenue: self.revenue.insert(provider@, (self.revenue_of(provider@) - amount) as i128),
            ..self
        }
    }

    // ── usage reports ────────────────────────────────────────────────────────

    pub open spec fn usage_error(self, id: Symbol, cost: i128) -> Option<ContractError> {
        if self.oracle_error() is Some {
            self.oracle_error()
        } else if cost < 0 {
            Some(ContractError::InvalidAmount)
        } else if !self.has_meter(id@) {
            Some(ContractError::MeterNotFound)
        } else {
            None
        }
    }

    /// Consumption can be added to the meter's counter without leaving `u64`.
    pub open spec fn usage_fits(self, id: Seq<char>, units: u64) -> bool {
        self.has_meter(id) ==> {
            &&& self.meters[id] is Current
            &&& self.meter(id).units_used + units <= u64::MAX
        }
    }

    /// The meter's credit once `cost` is charged.
    pub open spec fn settled(self, id: Seq<char>, cost: i128) -> int {
        settle(self.balance(id), cost as int)
    }

    /// Usage is recorded, the cost charged, and the meter switched off once its credit is gone.
    pub open spec fn usage_applied(self, id: Symbol, units: u64, cost: i128) -> GridView {
        let m = self.meter(id@);
        let left = self.settled(id@, cost);
        GridView {
            balances: self.balances.insert(id@, left as i128),
            meters: self.meters.insert(
                id@,
                StoredMeter::Current(
                    Meter {
                        units_used: (m.units_used + units) as u64,
                        active: if left == 0 {
                            false
                        } else {
                            m.active
                        },
                        ..m
                    },
                ),
            ),
            ..self
        }
    }

    pub open spec fn usage_events(self, id: Symbol, units: u64, cost: i128) -> Seq<Event> {
        let updated = seq![Event::UsageUpdated { meter_id: id, units, cost }];
        if self.settled(id@, cost) == 0 {
            updated.push(Event::MeterDeactivated { meter_id: id })
        } else {
            updated
        }
    }

    /// One report of a batch: applied to a known meter, skipped otherwise.
    pub open spec fn batch_step(self, u: UsageReport) -> GridView {
        if self.has_meter(u.0@) {
            self.usage_applied(u.0, u.1, u.2)
        } else {
            self
        }
    }

    pub open spec fn step_events(self, u: UsageReport) -> Seq<Event> {
        if self.has_meter(u.0@) {
            self.usage_events(u.0, u.1, u.2)
        } else {
            seq![Event::BatchSkip { meter_id: u.0 }]
        }
    }

    /// The store after the reports of `ups` are applied one after the other.
    pub open spec fn batch_state(self, ups: Seq<UsageReport>) -> GridView
        decreases ups.len(),
    {
        if ups.len() == 0 {
            self
        } else {
            self.batch_step(ups[0]).batch_state(ups.drop_first())
        }
    }

    pub open spec fn batch_events(self, ups: Seq<UsageReport>) -> Seq<Event>
        decreases ups.len(),
    {
        if ups.len() == 0 {
            Seq::empty()
        } else {
            self.step_events(ups[0]) + self.batch_step(ups[0]).batch_events(ups.drop_first())
        }
    }

    /// Every report up to the first one with a negative cost can be applied without
    /// reading an old-layout record or overflowing a usage counter.
    pub open spec fn batch_fits(self, ups: Seq<UsageReport>) -> bool
        decreases ups.len(),
    {
        ups.len() == 0 || ups[0].2 < 0 || (self.usage_fits(ups[0].0@, ups[0].1)
            && self.batch_step(ups[0]).batch_fits(ups.drop_first()))
    }

    pub open spec fn batch_error(self, ups: Seq<UsageReport>) -> Option<ContractError> {
        if self.oracle_error() is Some {
            self.oracle_error()
        } else if ups.len() > MAX_BATCH_SIZE {
            Some(ContractError::BatchTooLarge)
        } else if has_negative_cost(ups) {
            Some(ContractError::InvalidAmount)
        } else {
            None
        }
    }

    // ── set_active / migrate_meter ───────────────────────────────────────────

    pub open spec fn set_active_error(self, id: Symbol, active: bool) -> Option<ContractError> {
        if self.admin is None {
            Some(ContractError::NotInitialized)
        } else if !self.has_meter(id@) {
            Some(ContractError::MeterNotFound)
        } else if active && self.balance(id@) == 0 {
            Some(ContractError::CannotActivateWithoutBalance)
        } else {
            None
        }
    }

    pub open spec fn activity_set(self, id: Symbol, active: bool) -> GridView {
        GridView {
            meters: self.meters.insert(
                id@,
                StoredMeter::Current(Meter { active, ..self.meter(id@) }),
            ),
            ..self
        }
    }

    pub open spec fn migrate_error(self, id: Symbol) -> Option<ContractError> {
        if self.admin is None {
            Some(ContractError::NotInitialized)
        } else if !self.has_meter(id@) {
            Some(ContractError::MeterNotFound)
        } else {
            None
        }
    }

    /// The credit a meter holds once an old-layout record's inline credit is moved into
    /// the tracked credit (a credit below zero counts as none; the sum stops at the
    /// largest `i128`).
    pub open spec fn carried_credit(self, id: Seq<char>, l: LegacyMeter) -> int {
        let c = self.balance(id) + if l.balance > 0 {
            l.balance as int
        } else {
            0
        };
        if c > i128::MAX {
            i128::MAX as int
        } else {
            c
        }
    }

    /// An old-layout record is rewritten in the current layout, its inline credit moved
    /// into the tracked credit, and it stays switched on only if it has credit; a current
    /// record is left alone.
    pub open spec fn migrated_at(self, id: Symbol) -> GridView {
        match self.meters[id@] {
            StoredMeter::Legacy(l) => {
                let credit = self.carried_credit(id@, l);
                GridView {
                    meters: self.meters.insert(
                        id@,
                        StoredMeter::Current(Meter { active: l.active && credit > 0, ..migrated(l) }),
                    ),
                    balances: self.balances.insert(id@, credit as i128),
                    ..self
                }
            },
            StoredMeter::Current(_) => self,
        }
    }

    // ── Properties of a store ────────────────────────────────────────────────

    /// No meter with zero credit is active.
    pub open spec fn payg(self) -> bool {
        forall|id: Seq<char>|
            #[trigger] self.meters.contains_key(id) && self.meters[id] is Current
                && self.meters[id]->Current_0.active ==> self.balance(id) > 0
    }

    /// Credit and revenue are never negative.
    pub open spec fn nonnegative(self) -> bool {
        &&& forall|id: Seq<char>| #[trigger] self.balances.contains_key(id) ==> self.balances[id] >= 0
        &&& forall|p: Seq<char>| #[trigger] self.revenue.contains_key(p) ==> self.revenue[p] >= 0
    }

    /// The bookkeeping every entry point keeps intact.
    pub open spec fn consistent(self) -> bool {
        &&& self.nonnegative()
        &&& (self.admin is Some) == (self.token is Some)
        &&& forall|i: int|
            0 <= i < self.meter_list.len() ==> self.meters.contains_key(
                #[trigger] self.meter_list[i]@,
            )
        &&& forall|i: int, j: int|
            0 <= i < j < self.meter_list.len() ==> #[trigger] self.meter_list[i]@
                != #[trigger] self.meter_list[j]@
        &&& forall|id: Seq<char>| #[trigger]
            self.balances.contains_key(id) ==> self.meters.contains_key(id)
        &&& forall|o: Seq<char>, i: int|
            #![trigger self.owner_meters[o][i]]
            self.owner_meters.contains_key(o) && 0 <= i < self.owner_meters[o].len()
                ==> self.meters.contains_key(self.owner_meters[o][i]@)
        &&& forall|i: int, j: int|
            0 <= i < j < self.allowlist.len() ==> #[trigger] self.allowlist[i]@
                != #[trigger] self.allowlist[j]@
    }

    /// The full invariant: bookkeeping plus pay-as-you-go (no active meter without credit).
    pub open spec fn invariants_hold(self) -> bool {
        self.consistent() && self.payg()
    }
}

} // verus!
