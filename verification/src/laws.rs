//! Properties of the contract that span entry points, proved over the model that the
//! entry points' own contracts are stated in.
use vstd::prelude::*;

use crate::model::{fresh_meter, has_negative_cost, listed_meters, without, GridView, UsageReport};
use crate::outcome::{Event, HostCall};
use crate::types::{
    migrated, Address, ContractError, Meter, PaymentPlan, StoredMeter, Symbol,
    SECONDS_PER_DAY, SECONDS_PER_WEEK,
};

verus! {

// ── Helper facts about removing entries from a list ───────────────────────────

proof fn lemma_without_members(list: Seq<Address>, a: Seq<char>)
    ensures
        forall|k: int|
            0 <= k < without(list, a).len() ==> (#[trigger] without(list, a)[k])@ != a && exists|
                i: int,
            | 0 <= i < list.len() && list[i] == without(list, a)[k],
    decreases list.len(),
{
    if list.len() > 0 {
        let rest = list.drop_last();
        lemma_without_members(rest, a);
        assert forall|k: int| 0 <= k < without(list, a).len() implies (#[trigger] without(
            list,
            a,
        )[k])@ != a && exists|i: int| 0 <= i < list.len() && list[i] == without(list, a)[k] by {
            if k < without(rest, a).len() {
                let i = choose|i: int| 0 <= i < rest.len() && rest[i] == without(rest, a)[k];
                assert(list[i] == without(list, a)[k]);
            } else {
                assert(list[list.len() - 1] == without(list, a)[k]);
            }
        }
    }
}

proof fn lemma_without_distinct(list: Seq<Address>, a: Seq<char>)
    requires
        forall|i: int, j: int| 0 <= i < j < list.len() ==> #[trigger] list[i]@ != #[trigger] list[j]@,
    ensures
        forall|i: int, j: int|
            0 <= i < j < without(list, a).len() ==> #[trigger] without(list, a)[i]@
                != #[trigger] without(list, a)[j]@,
    decreases list.len(),
{
    if list.len() > 0 {
        let rest = list.drop_last();
        lemma_without_distinct(rest, a);
        lemma_without_members(rest, a);
        let w = without(list, a);
        assert forall|i: int, j: int| 0 <= i < j < w.len() implies #[trigger] w[i]@
            != #[trigger] w[j]@ by {
            if j == without(rest, a).len() {
                let k = choose|k: int| 0 <= k < rest.len() && rest[k] == without(rest, a)[i];
                assert(list[k]@ != list[list.len() - 1]@);
            }
        }
    }
}

proof fn lemma_without_absent(list: Seq<Address>, a: Seq<char>)
    requires
        forall|i: int| 0 <= i < list.len() ==> (#[trigger] list[i])@ != a,
    ensures
        without(list, a) == list,
    decreases list.len(),
{
    if list.len() > 0 {
        lemma_without_absent(list.drop_last(), a);
        assert(list.drop_last().push(list.last()) =~= list);
    }
}

// ── The invariant is kept by every entry point ────────────────────────────────

/// Initialization keeps the invariant.
pub proof fn law_initialize_keeps_invariants(s: GridView, admin: Address, token: Address)
    requires
        s.invariants_hold(),
        s.initialize_error() is None,
    ensures
        s.initialized_with(admin, token).invariants_hold(),
{
}

/// Registering a meter keeps the invariant.
pub proof fn law_register_keeps_invariants(s: GridView, id: Symbol, owner: Address, now: u64)
    requires
        s.invariants_hold(),
        s.register_error(id, owner) is None,
    ensures
        s.registered(id, owner, now).invariants_hold(),
{
    let t = s.registered(id, owner, now);
    assert forall|i: int| 0 <= i < t.meter_list.len() implies t.meters.contains_key(
        #[trigger] t.meter_list[i]@,
    ) by {
        if i < s.meter_list.len() {
            assert(s.meters.contains_key(s.meter_list[i]@));
        }
    }
    assert forall|i: int, j: int| 0 <= i < j < t.meter_list.len() implies #[trigger] t.meter_list[i]@
        != #[trigger] t.meter_list[j]@ by {
        if j == s.meter_list.len() {
            assert(s.meters.contains_key(s.meter_list[i]@));
        }
    }
}

/// Changing the allowlist keeps the invariant.
pub proof fn law_allowlist_changes_keep_invariant(s: GridView, a: Address)
    requires
        s.invariants_hold(),
    ensures
        s.allowlist_added(a).invariants_hold(),
        s.allowlist_removed(a).invariants_hold(),
{
    lemma_without_distinct(s.allowlist, a@);
    let t = s.allowlist_added(a);
    if !s.allowlisted(a@) {
        assert forall|i: int, j: int| 0 <= i < j < t.allowlist.len() implies #[trigger] t.allowlist[i]@
            != #[trigger] t.allowlist[j]@ by {
            if j == s.allowlist.len() {
                assert(s.allowlist[i]@ != a@);
            }
        }
    }
}

/// Recording the oracle keeps the invariant.
pub proof fn law_set_oracle_keeps_invariants(s: GridView, oracle: Address)
    requires
        s.invariants_hold(),
    ensures
        s.oracle_set(oracle).invariants_hold(),
{
}

/// A successful payment keeps the invariant.
pub proof fn law_payment_keeps_invariants(
    s: GridView,
    id: Symbol,
    amount: i128,
    plan: PaymentPlan,
    now: u64,
)
    requires
        s.invariants_hold(),
        s.payment_error(id, amount) is None,
        s.payment_fits(id, amount),
        s.readable(id@),
    ensures
        s.paid(id, amount, plan, now).invariants_hold(),
{
    let t = s.paid(id, amount, plan, now);
    assert forall|k: Seq<char>| #[trigger] t.balances.contains_key(k) implies t.balances[k] >= 0 by {
        if k != id@ {
            assert(s.balances.contains_key(k));
        }
    }
    assert forall|p: Seq<char>| #[trigger] t.revenue.contains_key(p) implies t.revenue[p] >= 0 by {
        if p != s.admin->0@ {
            assert(s.revenue.contains_key(p));
        }
    }
    assert forall|k: Seq<char>|
        #[trigger] t.meters.contains_key(k) && t.meters[k] is Current
            && t.meters[k]->Current_0.active implies t.balance(k) > 0 by {
        if k != id@ {
            assert(s.meters.contains_key(k));
        }
    }
}

/// A successful withdrawal keeps the invariant.
pub proof fn law_withdraw_keeps_invariants(s: GridView, provider: Address, amount: i128)
    requires
        s.invariants_hold(),
        s.withdraw_error(provider, amount) is None,
    ensures
        s.withdrawn(provider, amount).invariants_hold(),
{
    let t = s.withdrawn(provider, amount);
    assert forall|p: Seq<char>| #[trigger] t.revenue.contains_key(p) implies t.revenue[p] >= 0 by {
        if p != provider@ {
            assert(s.revenue.contains_key(p));
        }
    }
}

/// Charging a usage report keeps the invariant.
pub proof fn law_usage_keeps_invariants(s: GridView, id: Symbol, units: u64, cost: i128)
    requires
        s.invariants_hold(),
        s.has_meter(id@),
        s.usage_fits(id@, units),
        cost >= 0,
    ensures
        s.usage_applied(id, units, cost).invariants_hold(),
{
    let t = s.usage_applied(id, units, cost);
    assert forall|k: Seq<char>| #[trigger] t.balances.contains_key(k) implies t.balances[k] >= 0 by {
        if k != id@ {
            assert(s.balances.contains_key(k));
        }
    }
    assert forall|k: Seq<char>|
        #[trigger] t.meters.contains_key(k) && t.meters[k] is Current
            && t.meters[k]->Current_0.active implies t.balance(k) > 0 by {
        if k != id@ {
            assert(s.meters.contains_key(k));
        }
    }
}

/// A batch of usage reports keeps the invariant.
pub proof fn law_batch_keeps_invariants(s: GridView, ups: Seq<UsageReport>)
    requires
        s.invariants_hold(),
        s.batch_fits(ups),
        !has_negative_cost(ups),
    ensures
        s.batch_state(ups).invariants_hold(),
    decreases ups.len(),
{
    if ups.len() > 0 {
        assert(ups[0].2 >= 0);
        if s.has_meter(ups[0].0@) {
            law_usage_keeps_invariants(s, ups[0].0, ups[0].1, ups[0].2);
        }
        assert forall|i: int| 0 <= i < ups.drop_first().len() implies #[trigger] ups.drop_first()[i].2
            >= 0 by {
            assert(ups[i + 1].2 >= 0);
        }
        law_batch_keeps_invariants(s.batch_step(ups[0]), ups.drop_first());
    }
}

/// Switching a meter on or off by hand keeps the invariant.
pub proof fn law_set_active_keeps_invariants(s: GridView, id: Symbol, active: bool)
    requires
        s.invariants_hold(),
        s.set_active_error(id, active) is None,
        s.readable(id@),
    ensures
        s.activity_set(id, active).invariants_hold(),
{
    let t = s.activity_set(id, active);
    assert forall|k: Seq<char>|
        #[trigger] t.meters.contains_key(k) && t.meters[k] is Current
            && t.meters[k]->Current_0.active implies t.balance(k) > 0 by {
        if k != id@ {
            assert(s.meters.contains_key(k));
        } else {
            assert(active);
        }
    }
}

/// Migration keeps the invariants, pay-as-you-go included.
pub proof fn law_migrate_keeps_invariants(s: GridView, id: Symbol)
    requires
        s.invariants_hold(),
        s.migrate_error(id) is None,
    ensures
        s.migrated_at(id).invariants_hold(),
{
    let t = s.migrated_at(id);
    assert forall|i: int| 0 <= i < t.meter_list.len() implies t.meters.contains_key(
        #[trigger] t.meter_list[i]@,
    ) by {
        assert(s.meters.contains_key(s.meter_list[i]@));
    }
    assert forall|o: Seq<char>, i: int|
        t.owner_meters.contains_key(o) && 0 <= i < t.owner_meters[o].len() implies t.meters.contains_key(
        #[trigger] t.owner_meters[o][i]@) by {
        assert(s.meters.contains_key(s.owner_meters[o][i]@));
    }
    if s.meters[id@] is Legacy {
        if s.balances.contains_key(id@) {
            assert(s.balances[id@] >= 0);
        }
        assert forall|k: Seq<char>| #[trigger] t.balances.contains_key(k) implies t.balances[k]
            >= 0 by {
            if k != id@ {
                assert(s.balances.contains_key(k));
            }
        }
        assert forall|k: Seq<char>|
            #[trigger] t.meters.contains_key(k) && t.meters[k] is Current
                && t.meters[k]->Current_0.active implies t.balance(k) > 0 by {
            if k != id@ {
                assert(s.meters.contains_key(k));
            }
        }
    }
}

// ── Access ────────────────────────────────────────────────────────────────────

/// A successful payment gives the meter access at the moment of payment (unless that
/// moment is the very last one a ledger clock can show).
pub proof fn law_payment_grants_access(
    s: GridView,
    id: Symbol,
    amount: i128,
    plan: PaymentPlan,
    now: u64,
)
    requires
        s.invariants_hold(),
        s.payment_error(id, amount) is None,
        s.payment_fits(id, amount),
        now < u64::MAX,
    ensures
        s.paid(id, amount, plan, now).access(id@, now),
{
    if s.balances.contains_key(id@) {
        assert(s.balances[id@] >= 0);
    }
}

/// A payment under a plan buys exactly the plan's period: one day, one week, or — for a
/// usage-based plan — no time limit at all. Periods are cut short only at the end of the
/// clock's range.
pub proof fn law_plan_periods(s: GridView, id: Symbol, amount: i128, plan: PaymentPlan, now: u64)
    requires
        s.payment_error(id, amount) is None,
    ensures
        ({
            let m = s.paid(id, amount, plan, now).meter(id@);
            &&& m.last_payment == now
            &&& m.plan == plan
            &&& m.active
            &&& plan == PaymentPlan::Daily && now + SECONDS_PER_DAY <= u64::MAX ==> m.expires_at
                - m.last_payment == SECONDS_PER_DAY
            &&& plan == PaymentPlan::Weekly && now + SECONDS_PER_WEEK <= u64::MAX ==> m.expires_at
                - m.last_payment == SECONDS_PER_WEEK
            &&& plan == PaymentPlan::UsageBased ==> m.expires_at == u64::MAX
        }),
{
}

/// No meter has access at or after the end of its paid period.
pub proof fn law_access_lapses_at_expiry(s: GridView, id: Seq<char>, t: u64)
    requires
        t >= s.meter(id).expires_at,
    ensures
        !s.access(id, t),
{
}

/// A meter paid under the usage-based plan keeps access at every later moment, as long as
/// nothing else changes.
pub proof fn law_usage_based_never_lapses(
    s: GridView,
    id: Symbol,
    amount: i128,
    now: u64,
    t: u64,
)
    requires
        s.invariants_hold(),
        s.payment_error(id, amount) is None,
        s.payment_fits(id, amount),
        t < u64::MAX,
    ensures
        s.paid(id, amount, PaymentPlan::UsageBased, now).access(id@, t),
{
    if s.balances.contains_key(id@) {
        assert(s.balances[id@] >= 0);
    }
}

/// Paying again once access has lapsed moves the end of the paid period later.
pub proof fn law_renewal_extends_expiry(
    s: GridView,
    id: Symbol,
    amount: i128,
    plan: PaymentPlan,
    now: u64,
)
    requires
        s.payment_error(id, amount) is None,
        s.meter(id@).expires_at <= now < u64::MAX,
    ensures
        s.paid(id, amount, plan, now).meter(id@).expires_at > s.meter(id@).expires_at,
{
}

/// Usage that costs at least the meter's credit leaves it with none, switched off and
/// without access.
pub proof fn law_draining_revokes_access(
    s: GridView,
    id: Symbol,
    units: u64,
    cost: i128,
    t: u64,
)
    requires
        s.has_meter(id@),
        cost >= 0,
        cost >= s.balance(id@),
    ensures
        s.usage_applied(id, units, cost).balance(id@) == 0,
        !s.usage_applied(id, units, cost).meter(id@).active,
        !s.usage_applied(id, units, cost).access(id@, t),
        s.usage_events(id, units, cost).contains(Event::MeterDeactivated { meter_id: id }),
{
    let ev = s.usage_events(id, units, cost);
    assert(ev[1] == Event::MeterDeactivated { meter_id: id });
}

/// Usage that costs less than the meter's credit leaves the difference and does not
/// change whether the meter is switched on.
pub proof fn law_partial_usage_keeps_state(s: GridView, id: Symbol, units: u64, cost: i128)
    requires
        s.has_meter(id@),
        0 <= cost < s.balance(id@),
    ensures
        s.usage_applied(id, units, cost).balance(id@) == s.balance(id@) - cost,
        s.usage_applied(id, units, cost).meter(id@).active == s.meter(id@).active,
        s.usage_applied(id, units, cost).meter(id@).units_used == (s.meter(id@).units_used
            + units) as u64,
{
}

// ── Initialization, registration, allowlist ─────────────────────────────────

/// The contract can be initialized only once.
pub proof fn law_initialize_only_once(s: GridView, admin: Address, token: Address)
    requires
        s.initialize_error() is None,
    ensures
        s.initialized_with(admin, token).initialize_error() == Some(
            ContractError::AlreadyInitialized,
        ),
{
}

/// A newly registered meter is recorded for its owner and in the registry, starts idle
/// with no credit, has no access, and cannot be registered again.
pub proof fn law_registration(s: GridView, id: Symbol, owner: Address, now: u64, t: u64)
    requires
        s.invariants_hold(),
        s.register_error(id, owner) is None,
    ensures
        ({
            let r = s.registered(id, owner, now);
            &&& r.has_meter(id@)
            &&& r.meter(id@) == fresh_meter(owner, now)
            &&& r.owner_list(owner@) == s.owner_list(owner@).push(id)
            &&& r.meter_list == s.meter_list.push(id)
            &&& r.balance(id@) == 0
            &&& !r.access(id@, t)
            &&& r.register_error(id, owner) == Some(ContractError::MeterAlreadyExists)
        }),
{
    let r = s.registered(id, owner, now);
    assert(!s.balances.contains_key(id@));
    let i = choose|i: int| 0 <= i < s.allowlist.len() && #[trigger] s.allowlist[i]@ == owner@;
    assert(r.allowlist[i]@ == owner@);
}

/// After an address is added it is on the allowlist, and adding it again changes nothing.
pub proof fn law_allowlist_add(s: GridView, a: Address)
    ensures
        s.allowlist_added(a).allowlisted(a@),
        s.allowlist_added(a).allowlist_added(a) == s.allowlist_added(a),
{
    let t = s.allowlist_added(a);
    if !s.allowlisted(a@) {
        assert(t.allowlist[s.allowlist.len() as int]@ == a@);
    }
}

/// After an address is removed it is not on the allowlist; removing one that is not
/// there changes nothing.
pub proof fn law_allowlist_remove(s: GridView, a: Address)
    ensures
        !s.allowlist_removed(a).allowlisted(a@),
        !s.allowlisted(a@) ==> s.allowlist_removed(a) == s,
{
    lemma_without_members(s.allowlist, a@);
    if !s.allowlisted(a@) {
        assert forall|i: int| 0 <= i < s.allowlist.len() implies (#[trigger] s.allowlist[i])@ != a@ by {
            assert(!(s.allowlist[i]@ == a@));
        }
        lemma_without_absent(s.allowlist, a@);
    }
}

// ── Usage batches, migration, revenue ─────────────────────────────────────────

/// A batch holding one report for a known meter does exactly what a single usage
/// update does.
pub proof fn law_single_report_batch(s: GridView, id: Symbol, units: u64, cost: i128)
    requires
        s.has_meter(id@),
    ensures
        s.batch_state(seq![(id, units, cost)]) == s.usage_applied(id, units, cost),
        s.batch_events(seq![(id, units, cost)]) == s.usage_events(id, units, cost),
        cost >= 0 ==> s.batch_error(seq![(id, units, cost)]) == s.usage_error(id, cost),
{
    let ups: Seq<UsageReport> = seq![(id, units, cost)];
    let none = Seq::<UsageReport>::empty();
    assert(ups.drop_first() =~= none);
    assert(ups[0] == (id, units, cost));
    let t = s.batch_step(ups[0]);
    assert(t.batch_state(none) == t);
    assert(t.batch_events(none) == Seq::<Event>::empty());
    assert(s.batch_events(ups) =~= s.usage_events(id, units, cost) + Seq::<Event>::empty());
    if cost >= 0 {
        assert(!has_negative_cost(ups));
    }
}

/// A batch report for an unknown meter is skipped: nothing changes but a skip event.
pub proof fn law_batch_skips_unknown_meter(s: GridView, id: Symbol, units: u64, cost: i128)
    requires
        !s.has_meter(id@),
    ensures
        s.batch_state(seq![(id, units, cost)]) == s,
        s.batch_events(seq![(id, units, cost)]) == seq![Event::BatchSkip { meter_id: id }],
{
    let ups: Seq<UsageReport> = seq![(id, units, cost)];
    let none = Seq::<UsageReport>::empty();
    assert(ups.drop_first() =~= none);
    assert(ups[0] == (id, units, cost));
    assert(s.batch_state(none) == s);
    assert(s.batch_events(none) == Seq::<Event>::empty());
    assert(s.batch_events(ups) =~= seq![Event::BatchSkip { meter_id: id }] + Seq::<
        Event,
    >::empty());
}

/// Migrating a meter leaves it in the current layout with every field of an old record
/// but its inline credit, which is added to the tracked credit (so credit is never lost
/// short of the largest `i128`); it stays switched on only with credit; migrating again
/// changes nothing.
pub proof fn law_migration(s: GridView, id: Symbol)
    requires
        s.has_meter(id@),
    ensures
        s.migrated_at(id).meters[id@] is Current,
        s.meters[id@] matches StoredMeter::Legacy(l) ==> {
            let t = s.migrated_at(id);
            &&& t.meter(id@) == Meter { active: l.active && t.balance(id@) > 0, ..migrated(l) }
            &&& t.balance(id@) == s.carried_credit(id@, l)
            &&& (s.balance(id@) + l.balance <= i128::MAX && l.balance > 0 ==> t.balance(id@)
                == s.balance(id@) + l.balance)
        },
        s.meters[id@] is Current ==> s.migrated_at(id) == s,
        s.migrated_at(id).migrated_at(id) == s.migrated_at(id),
{
}

/// A payment that fails asks for no token deposit: nobody is charged.
pub proof fn law_failed_payment_charges_nobody(s: GridView, id: Symbol, payer: Address, amount: i128)
    requires
        s.payment_error(id, amount) is Some,
    ensures
        forall|i: int|
            0 <= i < s.payment_calls(id, payer, amount).len() ==> !(#[trigger] s.payment_calls(
                id,
                payer,
                amount,
            )[i] is Deposit),
{
}

/// Revenue accrued by a payment can be withdrawn in full by the admin, after which the
/// provider's tracked revenue is what it was before the payment.
pub proof fn law_payment_then_withdrawal(
    s: GridView,
    id: Symbol,
    amount: i128,
    plan: PaymentPlan,
    now: u64,
    provider: Address,
)
    requires
        s.invariants_hold(),
        s.payment_error(id, amount) is None,
        s.payment_fits(id, amount),
        provider@ == s.admin->0@,
    ensures
        s.paid(id, amount, plan, now).withdraw_error(provider, amount) is None,
        s.paid(id, amount, plan, now).withdrawn(provider, amount).revenue_of(provider@)
            == s.revenue_of(provider@),
{
    if s.revenue.contains_key(provider@) {
        assert(s.revenue[provider@] >= 0);
    }
}

/// When every registered id has a current record, the full listing holds one record per
/// registered meter, in registration order.
pub proof fn law_all_meters_listed(ids: Seq<Symbol>, meters: Map<Seq<char>, StoredMeter>)
    requires
        forall|i: int|
            0 <= i < ids.len() ==> meters.contains_key(#[trigger] ids[i]@) && meters[ids[i]@] is Current,
    ensures
        listed_meters(ids, meters).len() == ids.len(),
        forall|i: int|
            0 <= i < ids.len() ==> #[trigger] listed_meters(ids, meters)[i] == meters[ids[i]@]->Current_0,
    decreases ids.len(),
{
    if ids.len() > 0 {
        let rest = ids.drop_last();
        assert forall|i: int| 0 <= i < rest.len() implies meters.contains_key(#[trigger] rest[i]@)
            && meters[rest[i]@] is Current by {
            assert(rest[i] == ids[i]);
        }
        law_all_meters_listed(rest, meters);
        assert(meters.contains_key(ids[ids.len() - 1]@));
        assert forall|i: int| 0 <= i < ids.len() implies #[trigger] listed_meters(ids, meters)[i]
            == meters[ids[i]@]->Current_0 by {
            if i < rest.len() {
                assert(rest[i] == ids[i]);
            }
        }
    }
}

// ── What each step does to the value it is about ──────────────────────────────

/// A payment adds to the credit the meter already holds; two payments in a row add up.
pub proof fn law_payment_adds_to_credit(
    s: GridView,
    id: Symbol,
    amount: i128,
    plan: PaymentPlan,
    now: u64,
    amount2: i128,
    plan2: PaymentPlan,
    now2: u64,
)
    requires
        s.payment_error(id, amount) is None,
        s.payment_fits(id, amount),
    ensures
        s.paid(id, amount, plan, now).balance(id@) == s.balance(id@) + amount,
        ({
            let t = s.paid(id, amount, plan, now);
            t.payment_error(id, amount2) is None && t.payment_fits(id, amount2) ==> t.paid(
                id,
                amount2,
                plan2,
                now2,
            ).balance(id@) == s.balance(id@) + amount + amount2
        }),
{
}

/// A meter that is switched off has no access at any time, whatever its credit; in
/// particular a meter the admin switches off loses access at once.
pub proof fn law_inactive_meter_has_no_access(s: GridView, id: Seq<char>, t: u64, m: Symbol)
    ensures
        !s.meter(id).active ==> !s.access(id, t),
        s.access(id, t) ==> s.meter(id).active && s.balance(id) > 0,
        !s.activity_set(m, false).access(m@, t),
{
}

/// Every accepted usage report adds all its units to the meter's counter, whatever the
/// meter's credit, and charges at most the cost.
pub proof fn law_usage_counts_every_unit(s: GridView, id: Symbol, units: u64, cost: i128)
    requires
        s.has_meter(id@),
        s.usage_fits(id@, units),
        cost >= 0,
    ensures
        s.usage_applied(id, units, cost).meter(id@).units_used == s.meter(id@).units_used + units,
        s.usage_applied(id, units, cost).balance(id@) == if s.balance(id@) >= cost {
            s.balance(id@) - cost
        } else {
            0
        },
{
}

/// Recording an oracle replaces whatever oracle was recorded before; from then on usage
/// reports ask that oracle, and only it, to authorize.
pub proof fn law_set_oracle_replaces(s: GridView, o: Address)
    ensures
        s.oracle_set(o).oracle == Some(o),
        s.initialized() ==> s.oracle_set(o).oracle_auth() == seq![HostCall::RequireAuth(o)],
        s.initialized() ==> s.oracle_set(o).oracle_error() is None,
{
}

} // verus!
