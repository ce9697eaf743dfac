//! The contract's entry points, each a verified step of the store described in `model`.
use vstd::prelude::*;

use crate::model::{
    has_negative_cost, listed_meters, without, GridView, UsageReport,
};
use crate::outcome::{answer, Event, HostCall, Invocation};
use crate::table::Table;
use crate::types::{
    expiry_for, migrate_meter_v0, Address, ContractError, Meter, PaymentPlan, StoredMeter,
    Symbol, MAX_BATCH_SIZE,
};

verus! {

/// The contract's store. A host loads the entries an entry point reads, runs the entry
/// point, carries out the host calls it asks for, and writes the entries back.
pub struct SolarGridContract {
    pub admin: Option<Address>,
    pub token: Option<Address>,
    pub oracle: Option<Address>,
    pub allowlist: Vec<Address>,
    pub meter_list: Vec<Symbol>,
    pub meters: Table<StoredMeter>,
    pub owner_meters: Table<Vec<Symbol>>,
    pub balances: Table<i128>,
    pub revenue: Table<i128>,
}

impl View for SolarGridContract {
    type V = GridView;

    open spec fn view(&self) -> GridView {
        GridView {
            admin: self.admin,
            token: self.token,
            oracle: self.oracle,
            allowlist: self.allowlist@,
            meter_list: self.meter_list@,
            meters: self.meters@,
            owner_meters: self.owner_meters@,
            balances: self.balances@,
            revenue: self.revenue@,
        }
    }
}

/// A copy of a list of meter ids.
fn copy_symbols(v: &Vec<Symbol>) -> (r: Vec<Symbol>)
    ensures
        r@ == v@,
{
    let mut r: Vec<Symbol> = Vec::new();
    let mut i: usize = 0;
    while i < v.len()
        invariant
            i <= v.len(),
            r@ == v@.take(i as int),
        decreases v.len() - i,
    {
        r.push(v[i].duplicate());
        i = i + 1;
        assert(r@ =~= v@.take(i as int));
    }
    assert(v@.take(v.len() as int) =~= v@);
    r
}

/// A copy of a list of addresses.
fn copy_addresses(v: &Vec<Address>) -> (r: Vec<Address>)
    ensures
        r@ == v@,
{
    let mut r: Vec<Address> = Vec::new();
    let mut i: usize = 0;
    while i < v.len()
        invariant
            i <= v.len(),
            r@ == v@.take(i as int),
        decreases v.len() - i,
    {
        r.push(v[i].duplicate());
        i = i + 1;
        assert(r@ =~= v@.take(i as int));
    }
    assert(v@.take(v.len() as int) =~= v@);
    r
}

fn copy_address_opt(a: &Option<Address>) -> (r: Option<Address>)
    ensures
        r == *a,
{
    match a {
        Some(x) => Some(x.duplicate()),
        None => None,
    }
}

/// Whether some report carries a negative cost.
fn any_negative_cost(updates: &Vec<UsageReport>) -> (r: bool)
    ensures
        r == has_negative_cost(updates@),
{
    let mut k: usize = 0;
    while k < updates.len()
        invariant
            k <= updates.len(),
            forall|j: int| 0 <= j < k ==> updates@[j].2 >= 0,
        decreases updates.len() - k,
    {
        if updates[k].2 < 0 {
            assert(updates@[k as int].2 < 0);
            return true;
        }
        k = k + 1;
    }
    false
}

impl<T> Invocation<T> {
    /// An invocation that stops with `err` after the host work in `calls`.
    fn failed(calls: Vec<HostCall>, err: ContractError) -> (r: Invocation<T>)
        ensures
            r.calls == calls,
            r.events@ == Seq::<Event>::empty(),
            r.result == Err::<T, ContractError>(err),
    {
        Invocation { calls, events: Vec::new(), result: Err(err) }
    }
}

impl SolarGridContract {
    /// All tables are internally consistent.
    pub open spec fn wf(&self) -> bool {
        &&& self.meters.wf()
        &&& self.owner_meters.wf()
        &&& self.balances.wf()
        &&& self.revenue.wf()
    }

    /// The store of a contract that was just deployed.
    pub fn new() -> (c: SolarGridContract)
        ensures
            c.wf(),
            c@.invariants_hold(),
            c@.admin is None,
            c@.token is None,
            c@.oracle is None,
            c@.allowlist == Seq::<Address>::empty(),
            c@.meter_list == Seq::<Symbol>::empty(),
            c@.meters == Map::<Seq<char>, StoredMeter>::empty(),
            c@.owner_meters == Map::<Seq<char>, Seq<Symbol>>::empty(),
            c@.balances == Map::<Seq<char>, i128>::empty(),
            c@.revenue == Map::<Seq<char>, i128>::empty(),
    {
        SolarGridContract {
            admin: None,
            token: None,
            oracle: None,
            allowlist: Vec::new(),
            meter_list: Vec::new(),
            meters: Table::new(),
            owner_meters: Table::new(),
            balances: Table::new(),
            revenue: Table::new(),
        }
    }

    // ── Internal helpers ──────────────────────────────────────────────────────

    fn require_initialized(&self) -> (r: Result<(), ContractError>)
        ensures
            r == answer(self@.not_initialized_error(), ()),
    {
        if self.admin.is_none() {
            return Err(ContractError::NotInitialized);
        }
        Ok(())
    }

    fn get_admin(&self) -> (r: Result<Address, ContractError>)
        ensures
            match self.admin {
                Some(a) => r == Ok::<Address, ContractError>(a),
                None => r == Err::<Address, ContractError>(ContractError::NotInitialized),
            },
    {
        match &self.admin {
            Some(a) => Ok(a.duplicate()),
            None => Err(ContractError::NotInitialized),
        }
    }

    /// Fails unless initialized; asks for the admin's authorization.
    fn require_admin(&self, calls: &mut Vec<HostCall>) -> (r: Result<(), ContractError>)
        ensures
            r == answer(self@.not_initialized_error(), ()),
            final(calls)@ == old(calls)@ + self@.admin_auth(),
    {
        let admin = self.get_admin()?;
        calls.push(HostCall::RequireAuth(admin));
        Ok(())
    }

    /// Fails unless initialized with an oracle; asks for the oracle's authorization.
    fn require_oracle(&self, calls: &mut Vec<HostCall>) -> (r: Result<(), ContractError>)
        ensures
            r == answer(self@.oracle_error(), ()),
            final(calls)@ == old(calls)@ + self@.oracle_auth(),
    {
        self.require_initialized()?;
        match &self.oracle {
            Some(o) => {
                calls.push(HostCall::RequireAuth(o.duplicate()));
                Ok(())
            },
            None => Err(ContractError::OracleNotSet),
        }
    }

    fn get_token_address(&self) -> (r: Result<Address, ContractError>)
        ensures
            match (self.admin, self.token) {
                (Some(_), Some(t)) => r == Ok::<Address, ContractError>(t),
                _ => r == Err::<Address, ContractError>(ContractError::NotInitialized),
            },
    {
        self.require_initialized()?;
        match &self.token {
            Some(t) => Ok(t.duplicate()),
            None => Err(ContractError::NotInitialized),
        }
    }

    fn get_meter_by_id(&self, meter_id: &Symbol) -> (r: Result<Meter, ContractError>)
        requires
            self.wf(),
            self@.readable(meter_id@),
        ensures
            self@.has_meter(meter_id@) ==> r == Ok::<Meter, ContractError>(self@.meter(meter_id@)),
            !self@.has_meter(meter_id@) ==> r == Err::<Meter, ContractError>(
                ContractError::MeterNotFound,
            ),
    {
        match self.meters.get(&meter_id.name) {
            Some(StoredMeter::Current(m)) => Ok(m.duplicate()),
            _ => Err(ContractError::MeterNotFound),
        }
    }

    fn balance_of(&self, meter_id: &Symbol) -> (r: i128)
        requires
            self.wf(),
        ensures
            r == self@.balance(meter_id@),
    {
        match self.balances.get(&meter_id.name) {
            Some(b) => *b,
            None => 0,
        }
    }

    fn revenue_held(&self, provider: &Address) -> (r: i128)
        requires
            self.wf(),
        ensures
            r == self@.revenue_of(provider@),
    {
        match self.revenue.get(&provider.id) {
            Some(b) => *b,
            None => 0,
        }
    }

    fn meters_of(&self, owner: &Address) -> (r: Vec<Symbol>)
        requires
            self.wf(),
        ensures
            r@ == self@.owner_list(owner@),
    {
        match self.owner_meters.get(&owner.id) {
            Some(list) => copy_symbols(list),
            None => Vec::new(),
        }
    }

    fn is_allowlisted(&self, owner: &Address) -> (r: bool)
        ensures
            r == self@.allowlisted(owner@),
    {
        let mut i: usize = 0;
        while i < self.allowlist.len()
            invariant
                i <= self.allowlist.len(),
                forall|j: int| 0 <= j < i ==> self.allowlist@[j]@ != owner@,
            decreases self.allowlist.len() - i,
        {
            if self.allowlist[i].same_as(owner) {
                assert(self@.allowlist[i as int]@ == owner@);
                return true;
            }
            i = i + 1;
        }
        false
    }

    // ── Entry points ──────────────────────────────────────────────────────────

    /// Records the admin and the token that payments are made in. Only once.
    pub fn initialize(&mut self, admin: Address, token_address: Address) -> (r: Invocation<()>)
        requires
            old(self).wf(),
        ensures
            final(self).wf(),
            r.calls@ == seq![HostCall::RequireAuth(admin)],
            r.result == answer(old(self)@.initialize_error(), ()),
            r.result is Ok ==> final(self)@ == old(self)@.initialized_with(admin, token_address),
            r.result is Err ==> final(self)@ == old(self)@,
            r.events@ == Seq::<Event>::empty(),
    {
        let mut calls: Vec<HostCall> = Vec::new();
        calls.push(HostCall::RequireAuth(admin.duplicate()));
        if self.admin.is_some() {
            return Invocation::failed(calls, ContractError::AlreadyInitialized);
        }
        self.admin = Some(admin);
        self.token = Some(token_address);
        Invocation { calls, events: Vec::new(), result: Ok(()) }
    }

    /// Registers a new meter for an allowlisted owner. Admin only.
    pub fn register_meter(&mut self, meter_id: Symbol, owner: Address, now: u64) -> (r: Invocation<
        (),
    >)
        requires
            old(self).wf(),
        ensures
            final(self).wf(),
            r.calls@ == old(self)@.register_calls(owner),
            r.result == answer(old(self)@.register_error(meter_id, owner), ()),
            r.result is Ok ==> final(self)@ == old(self)@.registered(meter_id, owner, now)
                && r.events@ == seq![Event::MeterRegistered { meter_id, owner }],
            r.result is Err ==> final(self)@ == old(self)@ && r.events@ == Seq::<Event>::empty(),
    {
        let mut calls: Vec<HostCall> = Vec::new();
        if let Err(e) = self.require_admin(&mut calls) {
            return Invocation::failed(calls, e);
        }
        calls.push(HostCall::RequireAuth(owner.duplicate()));
        if !self.is_allowlisted(&owner) {
            return Invocation::failed(calls, ContractError::OwnerNotAllowlisted);
        }
        if self.meters.contains_key(&meter_id.name) {
            return Invocation::failed(calls, ContractError::MeterAlreadyExists);
        }
        let meter = Meter {
            version: 1,
            owner: owner.duplicate(),
            active: false,
            units_used: 0,
            plan: PaymentPlan::Daily,
            last_payment: now,
            expires_at: now,
        };
        self.meters.insert(meter_id.name.clone(), StoredMeter::Current(meter));
        let mut list = self.meters_of(&owner);
        list.push(meter_id.duplicate());
        self.owner_meters.insert(owner.id.clone(), list);
        self.meter_list.push(meter_id.duplicate());
        let mut events: Vec<Event> = Vec::new();
        events.push(Event::MeterRegistered { meter_id, owner });
        Invocation { calls, events, result: Ok(()) }
    }

    /// The ids of the meters registered to `owner`, in registration order.
    pub fn get_meters_by_owner(&self, owner: &Address) -> (r: Result<Vec<Symbol>, ContractError>)
        requires
            self.wf(),
        ensures
            r matches Ok(list) && list@ == self@.owner_list(owner@),
    {
        Ok(self.meters_of(owner))
    }

    /// Every registered meter, in registration order. Admin only.
    pub fn get_all_meters(&self) -> (r: Invocation<Vec<Meter>>)
        requires
            self.wf(),
            forall|i: int|
                0 <= i < self@.meter_list.len() ==> self@.readable(#[trigger] self@.meter_list[i]@),
        ensures
            r.calls@ == self@.admin_auth(),
            r.result is Err ==> r.result == Err::<Vec<Meter>, ContractError>(
                ContractError::NotInitialized,
            ),
            r.result is Err <==> self@.not_initialized_error() is Some,
            r.result matches Ok(list) ==> list@ == listed_meters(self@.meter_list, self@.meters),
            r.events@ == Seq::<Event>::empty(),
    {
        let mut calls: Vec<HostCall> = Vec::new();
        if let Err(e) = self.require_admin(&mut calls) {
            return Invocation::failed(calls, e);
        }
        let mut out: Vec<Meter> = Vec::new();
        let mut i: usize = 0;
        while i < self.meter_list.len()
            invariant
                self.wf(),
                forall|j: int|
                    0 <= j < self@.meter_list.len() ==> self@.readable(
                        #[trigger] self@.meter_list[j]@,
                    ),
                i <= self.meter_list.len(),
                out@ == listed_meters(self@.meter_list.take(i as int), self@.meters),
            decreases self.meter_list.len() - i,
        {
            let id = &self.meter_list[i];
            assert(self@.meter_list.take(i + 1).drop_last() =~= self@.meter_list.take(i as int));
            assert(self@.readable(self@.meter_list[i as int]@));
            match self.meters.get(&id.name) {
                Some(StoredMeter::Current(m)) => {
                    out.push(m.duplicate());
                },
                _ => {},
            }
            i = i + 1;
        }
        assert(self@.meter_list.take(self.meter_list.len() as int) =~= self@.meter_list);
        Invocation { calls, events: Vec::new(), result: Ok(out) }
    }

    /// Adds `owner` to the accounts that may own meters, unless already there. Admin only.
    pub fn allowlist_add(&mut self, owner: Address) -> (r: Invocation<()>)
        requires
            old(self).wf(),
        ensures
            final(self).wf(),
            r.calls@ == old(self)@.admin_auth(),
            r.result == answer(old(self)@.not_initialized_error(), ()),
            r.result is Ok ==> final(self)@ == old(self)@.allowlist_added(owner),
            r.result is Err ==> final(self)@ == old(self)@,
            r.events@ == Seq::<Event>::empty(),
    {
        let mut calls: Vec<HostCall> = Vec::new();
        if let Err(e) = self.require_admin(&mut calls) {
            return Invocation::failed(calls, e);
        }
        if !self.is_allowlisted(&owner) {
            self.allowlist.push(owner);
        }
        Invocation { calls, events: Vec::new(), result: Ok(()) }
    }

    /// Removes every occurrence of `owner` from the allowlist. Admin only.
    pub fn allowlist_remove(&mut self, owner: Address) -> (r: Invocation<()>)
        requires
            old(self).wf(),
        ensures
            final(self).wf(),
            r.calls@ == old(self)@.admin_auth(),
            r.result == answer(old(self)@.not_initialized_error(), ()),
            r.result is Ok ==> final(self)@ == old(self)@.allowlist_removed(owner),
            r.result is Err ==> final(self)@ == old(self)@,
            r.events@ == Seq::<Event>::empty(),
    {
        let mut calls: Vec<HostCall> = Vec::new();
        if let Err(e) = self.require_admin(&mut calls) {
            return Invocation::failed(calls, e);
        }
        let mut kept: Vec<Address> = Vec::new();
        let mut i: usize = 0;
        while i < self.allowlist.len()
            invariant
                i <= self.allowlist.len(),
                kept@ == without(self.allowlist@.take(i as int), owner@),
            decreases self.allowlist.len() - i,
        {
            assert(self.allowlist@.take(i + 1).drop_last() =~= self.allowlist@.take(i as int));
            if !self.allowlist[i].same_as(&owner) {
                kept.push(self.allowlist[i].duplicate());
            }
            i = i + 1;
        }
        assert(self.allowlist@.take(self.allowlist.len() as int) =~= self.allowlist@);
        self.allowlist = kept;
        Invocation { calls, events: Vec::new(), result: Ok(()) }
    }

    /// The current allowlist, in the order entries were added.
    pub fn get_allowlist(&self) -> (r: Result<Vec<Address>, ContractError>)
        ensures
            r matches Ok(list) && list@ == self@.allowlist,
    {
        Ok(copy_addresses(&self.allowlist))
    }

    /// Records the account allowed to report usage. Admin only.
    pub fn set_oracle(&mut self, oracle: Address) -> (r: Invocation<()>)
        requires
            old(self).wf(),
        ensures
            final(self).wf(),
            r.calls@ == old(self)@.admin_auth(),
            r.result == answer(old(self)@.not_initialized_error(), ()),
            r.result is Ok ==> final(self)@ == old(self)@.oracle_set(oracle),
            r.result is Err ==> final(self)@ == old(self)@,
            r.events@ == Seq::<Event>::empty(),
    {
        let mut calls: Vec<HostCall> = Vec::new();
        if let Err(e) = self.require_admin(&mut calls) {
            return Invocation::failed(calls, e);
        }
        self.oracle = Some(oracle);
        Invocation { calls, events: Vec::new(), result: Ok(()) }
    }

    /// The usage-reporting account, if one was recorded.
    pub fn get_oracle(&self) -> (r: Result<Option<Address>, ContractError>)
        ensures
            r == answer(self@.not_initialized_error(), self@.oracle),
    {
        self.require_initialized()?;
        Ok(copy_address_opt(&self.oracle))
    }

    /// Tops up a meter's credit with `amount` of the payment token and activates it under
    /// `plan`, starting at `now`. The payer must authorize and pays into the contract; the
    /// amount accrues to the admin as provider revenue.
    pub fn make_payment(
        &mut self,
        meter_id: Symbol,
        payer: Address,
        amount: i128,
        plan: PaymentPlan,
        now: u64,
    ) -> (r: Invocation<()>)
        requires
            old(self).wf(),
            old(self)@.payment_error(meter_id, amount) is None ==> old(self)@.meters[meter_id@] is Current,
            old(self)@.payment_fits(meter_id, amount),
        ensures
            final(self).wf(),
            r.calls@ == old(self)@.payment_calls(meter_id, payer, amount),
            r.result == answer(old(self)@.payment_error(meter_id, amount), ()),
            r.result is Ok ==> final(self)@ == old(self)@.paid(meter_id, amount, plan, now)
                && r.events@ == old(self)@.payment_events(meter_id, payer, amount, plan),
            r.result is Err ==> final(self)@ == old(self)@ && r.events@ == Seq::<Event>::empty(),
    {
        let mut calls: Vec<HostCall> = Vec::new();
        let admin = match self.get_admin() {
            Ok(a) => a,
            Err(e) => return Invocation::failed(calls, e),
        };
        calls.push(HostCall::RequireAuth(payer.duplicate()));
        if amount <= 0 {
            return Invocation::failed(calls, ContractError::InvalidAmount);
        }
        let token = match self.get_token_address() {
            Ok(t) => t,
            Err(e) => return Invocation::failed(calls, e),
        };
        let mut meter = match self.get_meter_by_id(&meter_id) {
            Ok(m) => m,
            Err(e) => return Invocation::failed(calls, e),
        };
        calls.push(HostCall::Deposit { token: token.duplicate(), from: payer.duplicate(), amount });
        let expires_at = expiry_for(plan, now);
        let prev_balance = self.balance_of(&meter_id);
        self.balances.insert(meter_id.name.clone(), prev_balance + amount);
        meter.active = true;
        meter.plan = plan;
        meter.last_payment = now;
        meter.expires_at = expires_at;
        self.meters.insert(meter_id.name.clone(), StoredMeter::Current(meter));
        let provider_revenue = self.revenue_held(&admin);
        self.revenue.insert(admin.id.clone(), provider_revenue + amount);
        let mut events: Vec<Event> = Vec::new();
        events.push(
            Event::PaymentReceived { meter_id: meter_id.duplicate(), payer, amount, plan },
        );
        events.push(Event::MeterActivated { meter_id });
        Invocation { calls, events, result: Ok(()) }
    }

    /// Pays `amount` of accrued revenue out of the contract to the provider, who must be
    /// the admin and must authorize.
    pub fn withdraw_revenue(&mut self, provider: Address, amount: i128) -> (r: Invocation<()>)
        requires
            old(self).wf(),
        ensures
            final(self).wf(),
            r.calls@ == old(self)@.withdraw_calls(provider, amount),
            r.result == answer(old(self)@.withdraw_error(provider, amount), ()),
            r.result is Ok ==> final(self)@ == old(self)@.withdrawn(provider, amount)
                && r.events@ == seq![
                Event::RevenueWithdrawn { provider, token: old(self)@.token->0, amount },
            ],
            r.result is Err ==> final(self)@ == old(self)@ && r.events@ == Seq::<Event>::empty(),
    {
        let mut calls: Vec<HostCall> = Vec::new();
        if amount <= 0 {
            return Invocation::failed(calls, ContractError::InvalidAmount);
        }
        let admin = match self.get_admin() {
            Ok(a) => a,
            Err(e) => return Invocation::failed(calls, e),
        };
        if !provider.same_as(&admin) {
            return Invocation::failed(calls, ContractError::Unauthorized);
        }
        calls.push(HostCall::RequireAuth(provider.duplicate()));
        let held = self.revenue_held(&provider);
        if held < amount {
            return Invocation::failed(calls, ContractError::InsufficientProviderRevenue);
        }
        let token = match self.get_token_address() {
            Ok(t) => t,
            Err(e) => return Invocation::failed(calls, e),
        };
        self.revenue.insert(provider.id.clone(), held - amount);
        calls.push(HostCall::Payout { token: token.duplicate(), to: provider.duplicate(), amount });
        let mut events: Vec<Event> = Vec::new();
        events.push(Event::RevenueWithdrawn { provider, token, amount });
        Invocation { calls, events, result: Ok(()) }
    }

    /// Revenue accrued to `provider` and not yet withdrawn.
    pub fn get_provider_revenue(&self, provider: &Address) -> (r: Result<i128, ContractError>)
        requires
            self.wf(),
        ensures
            r == answer(self@.not_initialized_error(), self@.revenue_of(provider@) as i128),
    {
        self.require_initialized()?;
        Ok(self.revenue_held(provider))
    }

    /// Whether the meter has energy access at time `now`: it is active, has credit left,
    /// and its paid period has not ended.
    pub fn check_access(&self, meter_id: &Symbol, now: u64) -> (r: Result<bool, ContractError>)
        requires
            self.wf(),
            self@.readable(meter_id@),
        ensures
            self@.has_meter(meter_id@) ==> r == Ok::<bool, ContractError>(
                self@.access(meter_id@, now),
            ),
            !self@.has_meter(meter_id@) ==> r == Err::<bool, ContractError>(
                ContractError::MeterNotFound,
            ),
    {
        let meter = self.get_meter_by_id(meter_id)?;
        let balance = self.balance_of(meter_id);
        Ok(meter.active && balance > 0 && now < meter.expires_at)
    }

    /// Charges one usage report to a meter known to hold a current record.
    fn apply_usage(&mut self, meter_id: &Symbol, units: u64, cost: i128) -> (drained: bool)
        requires
            old(self).wf(),
            old(self)@.has_meter(meter_id@),
            old(self)@.usage_fits(meter_id@, units),
            cost >= 0,
        ensures
            final(self).wf(),
            final(self)@ == old(self)@.usage_applied(*meter_id, units, cost),
            drained == (old(self)@.settled(meter_id@, cost) == 0),
    {
        let mut meter = match self.get_meter_by_id(meter_id) {
            Ok(m) => m,
            Err(_) => return false,
        };
        let balance = self.balance_of(meter_id);
        let left: i128 = match balance.checked_sub(cost) {
            Some(v) => if v < 0 {
                0
            } else {
                v
            },
            None => 0,
        };
        self.balances.insert(meter_id.name.clone(), left);
        meter.units_used = meter.units_used + units;
        let drained = left == 0;
        if drained {
            meter.active = false;
        }
        self.meters.insert(meter_id.name.clone(), StoredMeter::Current(meter));
        drained
    }

    /// Records `units` of consumption reported by the oracle and charges `cost` against the
    /// meter's credit; a meter whose credit runs out is switched off.
    pub fn update_usage(&mut self, meter_id: Symbol, units: u64, cost: i128) -> (r: Invocation<
        (),
    >)
        requires
            old(self).wf(),
            old(self)@.usage_error(meter_id, cost) is None ==> old(self)@.usage_fits(
                meter_id@,
                units,
            ),
        ensures
            final(self).wf(),
            r.calls@ == old(self)@.oracle_auth(),
            r.result == answer(old(self)@.usage_error(meter_id, cost), ()),
            r.result is Ok ==> final(self)@ == old(self)@.usage_applied(meter_id, units, cost)
                && r.events@ == old(self)@.usage_events(meter_id, units, cost),
            r.result is Err ==> final(self)@ == old(self)@ && r.events@ == Seq::<Event>::empty(),
    {
        let mut calls: Vec<HostCall> = Vec::new();
        if let Err(e) = self.require_oracle(&mut calls) {
            return Invocation::failed(calls, e);
        }
        if cost < 0 {
            return Invocation::failed(calls, ContractError::InvalidAmount);
        }
        if !self.meters.contains_key(&meter_id.name) {
            return Invocation::failed(calls, ContractError::MeterNotFound);
        }
        let drained = self.apply_usage(&meter_id, units, cost);
        let mut events: Vec<Event> = Vec::new();
        events.push(Event::UsageUpdated { meter_id: meter_id.duplicate(), units, cost });
        if drained {
            events.push(Event::MeterDeactivated { meter_id });
        }
        Invocation { calls, events, result: Ok(()) }
    }

    /// Applies up to fifty usage reports in order; reports naming an unknown meter are
    /// skipped with a `btch_skip` event. A negative cost anywhere rejects the whole batch.
    pub fn batch_update_usage(&mut self, updates: Vec<UsageReport>) -> (r: Invocation<()>)
        requires
            old(self).wf(),
            old(self)@.oracle_error() is None && updates.len() <= MAX_BATCH_SIZE ==> old(
                self,
            )@.batch_fits(updates@),
        ensures
            final(self).wf(),
            r.calls@ == old(self)@.oracle_auth(),
            r.result == answer(old(self)@.batch_error(updates@), ()),
            r.result is Ok ==> final(self)@ == old(self)@.batch_state(updates@) && r.events@
                == old(self)@.batch_events(updates@),
            r.result is Err ==> final(self)@ == old(self)@ && r.events@ == Seq::<Event>::empty(),
    {
        let mut calls: Vec<HostCall> = Vec::new();
        if let Err(e) = self.require_oracle(&mut calls) {
            return Invocation::failed(calls, e);
        }
        if updates.len() > MAX_BATCH_SIZE {
            return Invocation::failed(calls, ContractError::BatchTooLarge);
        }
        if any_negative_cost(&updates) {
            return Invocation::failed(calls, ContractError::InvalidAmount);
        }
        let ghost start = self@;
        let mut events: Vec<Event> = Vec::new();
        let mut i: usize = 0;
        assert(updates@.skip(0) =~= updates@);
        while i < updates.len()
            invariant
                self.wf(),
                i <= updates.len(),
                forall|j: int| 0 <= j < updates.len() ==> updates@[j].2 >= 0,
                self@.batch_fits(updates@.skip(i as int)),
                self@.batch_state(updates@.skip(i as int)) == start.batch_state(updates@),
                events@ + self@.batch_events(updates@.skip(i as int)) == start.batch_events(
                    updates@,
                ),
            decreases updates.len() - i,
        {
            let u = &updates[i];
            let ghost rest = updates@.skip(i as int);
            let ghost before = self@;
            let ghost old_events = events@;
            assert(rest[0] == updates@[i as int]);
            assert(rest.drop_first() =~= updates@.skip(i + 1));
            if self.meters.contains_key(&u.0.name) {
                let drained = self.apply_usage(&u.0, u.1, u.2);
                events.push(Event::UsageUpdated { meter_id: u.0.duplicate(), units: u.1, cost: u.2 });
                if drained {
                    events.push(Event::MeterDeactivated { meter_id: u.0.duplicate() });
                }
            } else {
                events.push(Event::BatchSkip { meter_id: u.0.duplicate() });
            }
            assert(events@ =~= old_events + before.step_events(rest[0]));
            assert(old_events + before.batch_events(rest) =~= events@ + self@.batch_events(
                rest.drop_first(),
            ));
            i = i + 1;
        }
        assert(updates@.skip(updates.len() as int) =~= Seq::<UsageReport>::empty());
        assert(events@ =~= events@ + Seq::<Event>::empty());
        Invocation { calls, events, result: Ok(()) }
    }

    /// The credit held for a meter; any record, of either layout, counts as present.
    pub fn get_meter_balance(&self, meter_id: &Symbol) -> (r: Result<i128, ContractError>)
        requires
            self.wf(),
        ensures
            self@.has_meter(meter_id@) ==> r == Ok::<i128, ContractError>(
                self@.balance(meter_id@) as i128,
            ),
            !self@.has_meter(meter_id@) ==> r == Err::<i128, ContractError>(
                ContractError::MeterNotFound,
            ),
    {
        if !self.meters.contains_key(&meter_id.name) {
            return Err(ContractError::MeterNotFound);
        }
        Ok(self.balance_of(meter_id))
    }

    /// The record of a meter.
    pub fn get_meter(&self, meter_id: &Symbol) -> (r: Result<Meter, ContractError>)
        requires
            self.wf(),
            self@.readable(meter_id@),
        ensures
            self@.has_meter(meter_id@) ==> r == Ok::<Meter, ContractError>(self@.meter(meter_id@)),
            !self@.has_meter(meter_id@) ==> r == Err::<Meter, ContractError>(
                ContractError::MeterNotFound,
            ),
    {
        self.get_meter_by_id(meter_id)
    }

    /// Switches a meter on or off by hand (e.g. for maintenance). Admin only. A meter with
    /// no credit cannot be switched on.
    pub fn set_active(&mut self, meter_id: Symbol, active: bool) -> (r: Invocation<()>)
        requires
            old(self).wf(),
            old(self)@.initialized() ==> old(self)@.readable(meter_id@),
        ensures
            final(self).wf(),
            r.calls@ == old(self)@.admin_auth(),
            r.result == answer(old(self)@.set_active_error(meter_id, active), ()),
            r.result is Ok ==> final(self)@ == old(self)@.activity_set(meter_id, active)
                && r.events@ == (if active {
                seq![Event::MeterActivated { meter_id }]
            } else {
                seq![Event::MeterDeactivated { meter_id }]
            }),
            r.result is Err ==> final(self)@ == old(self)@ && r.events@ == Seq::<Event>::empty(),
    {
        let mut calls: Vec<HostCall> = Vec::new();
        if let Err(e) = self.require_admin(&mut calls) {
            return Invocation::failed(calls, e);
        }
        let mut meter = match self.get_meter_by_id(&meter_id) {
            Ok(m) => m,
            Err(e) => return Invocation::failed(calls, e),
        };
        if active {
            let balance = self.balance_of(&meter_id);
            if balance == 0 {
                return Invocation::failed(calls, ContractError::CannotActivateWithoutBalance);
            }
        }
        meter.active = active;
        self.meters.insert(meter_id.name.clone(), StoredMeter::Current(meter));
        let mut events: Vec<Event> = Vec::new();
        if active {
            events.push(Event::MeterActivated { meter_id });
        } else {
            events.push(Event::MeterDeactivated { meter_id });
        }
        Invocation { calls, events, result: Ok(()) }
    }

    /// Rewrites a meter record kept in the old layout into the current one, moving its
    /// inline credit into the tracked credit; a meter left without credit is switched off.
    /// Admin only. A record already in the current layout is left as it is, so repeating
    /// is harmless.
    pub fn migrate_meter(&mut self, meter_id: Symbol) -> (r: Invocation<()>)
        requires
            old(self).wf(),
        ensures
            final(self).wf(),
            r.calls@ == old(self)@.admin_auth(),
            r.result == answer(old(self)@.migrate_error(meter_id), ()),
            r.result is Ok ==> final(self)@ == old(self)@.migrated_at(meter_id),
            r.result is Err ==> final(self)@ == old(self)@,
            r.events@ == Seq::<Event>::empty(),
    {
        let mut calls: Vec<HostCall> = Vec::new();
        if let Err(e) = self.require_admin(&mut calls) {
            return Invocation::failed(calls, e);
        }
        let legacy = match self.meters.get(&meter_id.name) {
            Some(StoredMeter::Legacy(l)) => Some(l.duplicate()),
            Some(StoredMeter::Current(_)) => None,
            None => return Invocation::failed(calls, ContractError::MeterNotFound),
        };
        if let Some(l) = legacy {
            let held = self.balance_of(&meter_id);
            let inline: i128 = if l.balance > 0 {
                l.balance
            } else {
                0
            };
            let credit: i128 = match held.checked_add(inline) {
                Some(c) => c,
                None => i128::MAX,
            };
            let mut migrated = migrate_meter_v0(l);
            migrated.active = migrated.active && credit > 0;
            self.balances.insert(meter_id.name.clone(), credit);
            self.meters.insert(meter_id.name.clone(), StoredMeter::Current(migrated));
        }
        Invocation { calls, events: Vec::new(), result: Ok(()) }
    }
}

} // verus!
