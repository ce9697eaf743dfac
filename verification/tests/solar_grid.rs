use solar_grid::outcome::event_namespace;
use solar_grid::types::{migrate_meter_v0, SECONDS_PER_DAY, SECONDS_PER_WEEK};
use solar_grid::{
    Address, ContractError, Event, HostCall, Invocation, LegacyMeter, Meter, PaymentPlan,
    SolarGridContract, StoredMeter, Symbol,
};
use std::collections::HashMap;

const SELF_ACCOUNT: &str = "CSOLARGRIDCONTRACT";

/// A stand-in for the ledger around the contract: it authorizes, moves tokens, keeps the
/// clock and collects published events, the way the chain host does for the deployed
/// contract.
struct Ledger {
    grid: SolarGridContract,
    tokens: HashMap<(String, String), i128>,
    timestamp: u64,
    mock_auths: bool,
    events: Vec<Event>,
    next_id: u32,
}

impl Ledger {
    fn new() -> Ledger {
        Ledger {
            grid: SolarGridContract::new(),
            tokens: HashMap::new(),
            timestamp: 0,
            mock_auths: true,
            events: Vec::new(),
            next_id: 0,
        }
    }

    fn generate(&mut self) -> Address {
        self.next_id += 1;
        Address::new(format!("G{:055}", self.next_id))
    }

    fn contract_address(&self) -> Address {
        Address::new(SELF_ACCOUNT.to_string())
    }

    fn mint(&mut self, token: &Address, to: &Address, amount: i128) {
        *self.tokens.entry((token.id.clone(), to.id.clone())).or_insert(0) += amount;
    }

    fn balance(&self, token: &Address, who: &Address) -> i128 {
        *self.tokens.get(&(token.id.clone(), who.id.clone())).unwrap_or(&0)
    }

    fn transfer(&mut self, token: &str, from: &str, to: &str, amount: i128) {
        let from_key = (token.to_string(), from.to_string());
        let have = *self.tokens.get(&from_key).unwrap_or(&0);
        if have < amount {
            panic!("balance is not sufficient to spend");
        }
        self.tokens.insert(from_key, have - amount);
        *self.tokens.entry((token.to_string(), to.to_string())).or_insert(0) += amount;
    }

    /// Carries out the host work an entry point asks for and settles its result.
    fn settle<T>(&mut self, inv: Invocation<T>) -> Result<T, ContractError> {
        let before = self.tokens.clone();
        for call in inv.calls {
            match call {
                HostCall::RequireAuth(a) => {
                    if !self.mock_auths {
                        panic!("not authorized: {}", a.id);
                    }
                },
                HostCall::Deposit { token, from, amount } => {
                    self.transfer(&token.id, &from.id, SELF_ACCOUNT, amount)
                },
                HostCall::Payout { token, to, amount } => {
                    self.transfer(&token.id, SELF_ACCOUNT, &to.id, amount)
                },
            }
        }
        match inv.result {
            Ok(v) => {
                self.events.extend(inv.events);
                Ok(v)
            },
            Err(e) => {
                self.tokens = before;
                Err(e)
            },
        }
    }

    fn try_initialize(&mut self, admin: &Address, token: &Address) -> Result<(), ContractError> {
        let inv = self.grid.initialize(admin.clone(), token.clone());
        self.settle(inv)
    }

    fn initialize(&mut self, admin: &Address, token: &Address) {
        self.try_initialize(admin, token).unwrap()
    }

    fn try_register_meter(&mut self, id: &Symbol, owner: &Address) -> Result<(), ContractError> {
        let now = self.timestamp;
        let inv = self.grid.register_meter(id.clone(), owner.clone(), now);
        self.settle(inv)
    }

    fn register_meter(&mut self, id: &Symbol, owner: &Address) {
        self.try_register_meter(id, owner).unwrap()
    }

    fn allowlist_add(&mut self, owner: &Address) {
        let inv = self.grid.allowlist_add(owner.clone());
        self.settle(inv).unwrap()
    }

    fn allowlist_remove(&mut self, owner: &Address) {
        let inv = self.grid.allowlist_remove(owner.clone());
        self.settle(inv).unwrap()
    }

    fn get_allowlist(&self) -> Vec<Address> {
        self.grid.get_allowlist().unwrap()
    }

    fn set_oracle(&mut self, oracle: &Address) {
        let inv = self.grid.set_oracle(oracle.clone());
        self.settle(inv).unwrap()
    }

    fn get_oracle(&self) -> Option<Address> {
        self.grid.get_oracle().unwrap()
    }

    fn try_make_payment(
        &mut self,
        id: &Symbol,
        payer: &Address,
        amount: i128,
        plan: PaymentPlan,
    ) -> Result<(), ContractError> {
        let now = self.timestamp;
        let inv = self.grid.make_payment(id.clone(), payer.clone(), amount, plan, now);
        self.settle(inv)
    }

    fn make_payment(&mut self, id: &Symbol, payer: &Address, amount: i128, plan: PaymentPlan) {
        self.try_make_payment(id, payer, amount, plan).unwrap()
    }

    fn try_withdraw_revenue(&mut self, provider: &Address, amount: i128) -> Result<(), ContractError> {
        let inv = self.grid.withdraw_revenue(provider.clone(), amount);
        self.settle(inv)
    }

    fn withdraw_revenue(&mut self, provider: &Address, amount: i128) {
        self.try_withdraw_revenue(provider, amount).unwrap()
    }

    fn get_provider_revenue(&self, provider: &Address) -> i128 {
        self.grid.get_provider_revenue(provider).unwrap()
    }

    fn check_access(&self, id: &Symbol) -> bool {
        self.grid.check_access(id, self.timestamp).unwrap()
    }

    fn try_update_usage(&mut self, id: &Symbol, units: u64, cost: i128) -> Result<(), ContractError> {
        let inv = self.grid.update_usage(id.clone(), units, cost);
        self.settle(inv)
    }

    fn update_usage(&mut self, id: &Symbol, units: u64, cost: i128) {
        self.try_update_usage(id, units, cost).unwrap()
    }

    fn try_batch_update_usage(&mut self, updates: Vec<(Symbol, u64, i128)>) -> Result<(), ContractError> {
        let inv = self.grid.batch_update_usage(updates);
        self.settle(inv)
    }

    fn batch_update_usage(&mut self, updates: Vec<(Symbol, u64, i128)>) {
        self.try_batch_update_usage(updates).unwrap()
    }

    fn get_meter_balance(&self, id: &Symbol) -> i128 {
        self.grid.get_meter_balance(id).unwrap()
    }

    fn try_get_meter(&self, id: &Symbol) -> Result<Meter, ContractError> {
        self.grid.get_meter(id)
    }

    fn get_meter(&self, id: &Symbol) -> Meter {
        self.try_get_meter(id).unwrap()
    }

    fn get_meters_by_owner(&self, owner: &Address) -> Vec<Symbol> {
        self.grid.get_meters_by_owner(owner).unwrap()
    }

    fn get_all_meters(&mut self) -> Vec<Meter> {
        let inv = self.grid.get_all_meters();
        self.settle(inv).unwrap()
    }

    fn try_set_active(&mut self, id: &Symbol, active: bool) -> Result<(), ContractError> {
        let inv = self.grid.set_active(id.clone(), active);
        self.settle(inv)
    }

    fn set_active(&mut self, id: &Symbol, active: bool) {
        self.try_set_active(id, active).unwrap()
    }

    fn try_migrate_meter(&mut self, id: &Symbol) -> Result<(), ContractError> {
        let inv = self.grid.migrate_meter(id.clone());
        self.settle(inv)
    }

    fn migrate_meter(&mut self, id: &Symbol) {
        self.try_migrate_meter(id).unwrap()
    }

    fn emitted(&self, topic: &str) -> bool {
        self.events.iter().any(|e| e.topic() == topic)
    }
}

fn sym(s: &str) -> Symbol {
    Symbol::new(s.to_string())
}

/// A ledger with an initialized contract; returns the admin and the payment token.
fn setup_with_token() -> (Ledger, Address, Address) {
    let mut env = Ledger::new();
    let admin = env.generate();
    let token = env.generate();
    env.initialize(&admin, &token);
    (env, admin, token)
}

fn setup() -> (Ledger, Address) {
    let (env, admin, _token) = setup_with_token();
    (env, admin)
}

fn allowlist_and_register(env: &mut Ledger, meter_id: &Symbol, user: &Address) {
    env.allowlist_add(user);
    env.register_meter(meter_id, user);
}

fn setup_oracle(env: &mut Ledger) -> Address {
    let oracle = env.generate();
    env.set_oracle(&oracle);
    oracle
}

fn register_and_fund(env: &mut Ledger, token: &Address, meter_id: &Symbol, amount: i128) {
    let user = env.generate();
    allowlist_and_register(env, meter_id, &user);
    env.mint(token, &user, amount);
    env.make_payment(meter_id, &user, amount, PaymentPlan::UsageBased);
}

// ── Scenarios of the contract's own test suite ───────────────────────────────

#[test]
fn test_register_and_pay() {
    let (mut env, _admin, token) = setup_with_token();
    setup_oracle(&mut env);
    let user = env.generate();
    let meter_id = sym("METER1");

    allowlist_and_register(&mut env, &meter_id, &user);
    assert!(!env.check_access(&meter_id));

    env.mint(&token, &user, 5_000_000_i128);
    env.make_payment(&meter_id, &user, 5_000_000_i128, PaymentPlan::Daily);
    assert!(env.check_access(&meter_id));
    assert_eq!(env.balance(&token, &user), 0);

    env.update_usage(&meter_id, 100_u64, 5_000_000_i128);
    assert!(!env.check_access(&meter_id));
}

#[test]
fn test_register_meter_duplicate_returns_typed_error() {
    let (mut env, _admin) = setup();
    let user = env.generate();
    let meter_id = sym("METER2");
    allowlist_and_register(&mut env, &meter_id, &user);
    let result = env.try_register_meter(&meter_id, &user);
    assert_eq!(result, Err(ContractError::MeterAlreadyExists));
}

#[test]
fn test_make_payment_zero_amount_returns_invalid_amount() {
    let (mut env, _admin) = setup();
    let user = env.generate();
    let meter_id = sym("METER3");
    allowlist_and_register(&mut env, &meter_id, &user);
    let result = env.try_make_payment(&meter_id, &user, 0_i128, PaymentPlan::Daily);
    assert_eq!(result, Err(ContractError::InvalidAmount));
}

#[test]
fn test_make_payment_negative_amount_returns_invalid_amount() {
    let (mut env, _admin) = setup();
    let user = env.generate();
    let meter_id = sym("METER4");
    allowlist_and_register(&mut env, &meter_id, &user);
    let result = env.try_make_payment(&meter_id, &user, -1_i128, PaymentPlan::Daily);
    assert_eq!(result, Err(ContractError::InvalidAmount));
}

#[test]
fn test_update_usage_balance_drains_correctly() {
    let (mut env, _admin, token) = setup_with_token();
    setup_oracle(&mut env);
    let user = env.generate();
    let meter_id = sym("METER5");

    allowlist_and_register(&mut env, &meter_id, &user);
    env.mint(&token, &user, 10_000_000_i128);
    env.make_payment(&meter_id, &user, 10_000_000_i128, PaymentPlan::UsageBased);

    env.update_usage(&meter_id, 50_u64, 4_000_000_i128);
    assert_eq!(env.get_meter_balance(&meter_id), 6_000_000);
    let meter = env.get_meter(&meter_id);
    assert_eq!(meter.units_used, 50);
    assert!(meter.active);

    env.update_usage(&meter_id, 60_u64, 6_000_000_i128);
    assert_eq!(env.get_meter_balance(&meter_id), 0);
    let meter = env.get_meter(&meter_id);
    assert_eq!(meter.units_used, 110);
    assert!(!meter.active);
}

#[test]
fn test_update_usage_huge_cost_clamps_to_zero() {
    let (mut env, _admin, token) = setup_with_token();
    setup_oracle(&mut env);
    let user = env.generate();
    let meter_id = sym("METER9");

    allowlist_and_register(&mut env, &meter_id, &user);
    env.mint(&token, &user, 100_i128);
    env.make_payment(&meter_id, &user, 100_i128, PaymentPlan::UsageBased);

    env.update_usage(&meter_id, 1_u64, i128::MAX);
    assert_eq!(env.get_meter_balance(&meter_id), 0);
    let meter = env.get_meter(&meter_id);
    assert_eq!(meter.units_used, 1);
    assert!(!meter.active);
}

#[test]
fn test_check_access_false_when_balance_zero() {
    let (mut env, _admin, token) = setup_with_token();
    setup_oracle(&mut env);
    let user = env.generate();
    let meter_id = sym("METER7");

    allowlist_and_register(&mut env, &meter_id, &user);
    assert!(!env.check_access(&meter_id));

    env.mint(&token, &user, 2_000_000_i128);
    env.make_payment(&meter_id, &user, 2_000_000_i128, PaymentPlan::Weekly);
    assert!(env.check_access(&meter_id));

    env.update_usage(&meter_id, 10_u64, 2_000_000_i128);
    assert!(!env.check_access(&meter_id));

    assert_eq!(env.get_meter_balance(&meter_id), 0);
    assert!(!env.get_meter(&meter_id).active);
}

#[test]
fn test_check_access_false_when_plan_expired() {
    let (mut env, _admin, token) = setup_with_token();
    let user = env.generate();
    let meter_id = sym("METER9");

    allowlist_and_register(&mut env, &meter_id, &user);
    env.mint(&token, &user, 2_000_000_i128);
    env.make_payment(&meter_id, &user, 2_000_000_i128, PaymentPlan::Daily);
    assert!(env.check_access(&meter_id));

    let meter = env.get_meter(&meter_id);
    env.timestamp = meter.expires_at;
    assert!(!env.check_access(&meter_id));
}

#[test]
fn test_check_access_false_when_weekly_plan_expired() {
    let (mut env, _admin, token) = setup_with_token();
    let user = env.generate();
    let meter_id = sym("WK_EXP");

    allowlist_and_register(&mut env, &meter_id, &user);
    env.mint(&token, &user, 5_000_000_i128);
    env.make_payment(&meter_id, &user, 5_000_000_i128, PaymentPlan::Weekly);
    assert!(env.check_access(&meter_id));

    let meter = env.get_meter(&meter_id);
    assert_eq!(meter.expires_at - meter.last_payment, SECONDS_PER_WEEK);

    env.timestamp = meter.expires_at;
    assert!(!env.check_access(&meter_id));
}

#[test]
fn test_usage_based_plan_never_expires_by_time() {
    let (mut env, _admin, token) = setup_with_token();
    let user = env.generate();
    let meter_id = sym("UB_EXP");

    allowlist_and_register(&mut env, &meter_id, &user);
    env.mint(&token, &user, 1_000_i128);
    env.make_payment(&meter_id, &user, 1_000_i128, PaymentPlan::UsageBased);

    let meter = env.get_meter(&meter_id);
    assert_eq!(meter.expires_at, u64::MAX);

    env.timestamp = u64::MAX - 1;
    assert!(env.check_access(&meter_id));
}

#[test]
fn test_renewal_resets_expiry_and_restores_access() {
    let (mut env, _admin, token) = setup_with_token();
    let user = env.generate();
    let meter_id = sym("RENEW");

    allowlist_and_register(&mut env, &meter_id, &user);
    env.mint(&token, &user, 4_000_000_i128);
    env.make_payment(&meter_id, &user, 2_000_000_i128, PaymentPlan::Daily);

    let meter = env.get_meter(&meter_id);
    env.timestamp = meter.expires_at;
    assert!(!env.check_access(&meter_id));

    env.make_payment(&meter_id, &user, 2_000_000_i128, PaymentPlan::Daily);
    assert!(env.check_access(&meter_id));

    let renewed = env.get_meter(&meter_id);
    assert!(renewed.expires_at > meter.expires_at);
}

#[test]
fn test_register_meter_owner_not_allowlisted_returns_typed_error() {
    let (mut env, _admin) = setup();
    let user = env.generate();
    let meter_id = sym("METER8");
    let result = env.try_register_meter(&meter_id, &user);
    assert_eq!(result, Err(ContractError::OwnerNotAllowlisted));
}

#[test]
fn test_allowlist_add_remove() {
    let (mut env, _admin) = setup();
    let user = env.generate();

    assert!(!env.get_allowlist().contains(&user));

    env.allowlist_add(&user);
    assert!(env.get_allowlist().contains(&user));

    env.allowlist_remove(&user);
    assert!(!env.get_allowlist().contains(&user));
}

#[test]
fn test_allowlist_no_duplicates() {
    let (mut env, _admin) = setup();
    let user = env.generate();

    env.allowlist_add(&user);
    env.allowlist_add(&user);

    let list = env.get_allowlist();
    let count = list.iter().filter(|a| **a == user).count();
    assert_eq!(count, 1);
}

#[test]
fn test_allowlist_remove_nonexistent_is_noop() {
    let (mut env, _admin) = setup();
    let user = env.generate();
    env.allowlist_remove(&user);
    assert!(!env.get_allowlist().contains(&user));
}

#[test]
fn test_withdraw_revenue_tracks_and_withdraws_provider_balance() {
    let (mut env, admin, token) = setup_with_token();
    let user = env.generate();
    let meter_id = sym("METER9");
    allowlist_and_register(&mut env, &meter_id, &user);

    env.mint(&token, &user, 5_000_000_i128);
    env.make_payment(&meter_id, &user, 5_000_000_i128, PaymentPlan::Daily);

    let contract = env.contract_address();
    assert_eq!(env.get_provider_revenue(&admin), 5_000_000_i128);
    assert_eq!(env.balance(&token, &contract), 5_000_000_i128);

    env.withdraw_revenue(&admin, 2_000_000_i128);
    assert_eq!(env.get_provider_revenue(&admin), 3_000_000_i128);
    assert_eq!(env.balance(&token, &contract), 3_000_000_i128);
    assert_eq!(env.balance(&token, &admin), 2_000_000_i128);
}

#[test]
fn test_withdraw_revenue_returns_insufficient_provider_revenue() {
    let (mut env, admin) = setup();
    let user = env.generate();
    let meter_id = sym("METR10");
    allowlist_and_register(&mut env, &meter_id, &user);
    let result = env.try_withdraw_revenue(&admin, 1_i128);
    assert_eq!(result, Err(ContractError::InsufficientProviderRevenue));
}

#[test]
fn test_update_usage_exact_balance_deactivates_meter() {
    let (mut env, _admin, token) = setup_with_token();
    setup_oracle(&mut env);
    let user = env.generate();
    let meter_id = sym("EXACT");

    allowlist_and_register(&mut env, &meter_id, &user);
    env.mint(&token, &user, 5_000_000_i128);
    env.make_payment(&meter_id, &user, 5_000_000_i128, PaymentPlan::UsageBased);

    env.update_usage(&meter_id, 1_u64, 5_000_000_i128);
    assert_eq!(env.get_meter_balance(&meter_id), 0, "balance should be 0");
    assert!(
        !env.get_meter(&meter_id).active,
        "meter should be deactivated when balance hits 0"
    );
}

#[test]
fn test_set_active_true_returns_cannot_activate_without_balance() {
    let (mut env, _admin) = setup();
    let user = env.generate();
    let meter_id = sym("ZERO_BAL");
    allowlist_and_register(&mut env, &meter_id, &user);
    let result = env.try_set_active(&meter_id, true);
    assert_eq!(result, Err(ContractError::CannotActivateWithoutBalance));
}

#[test]
fn test_set_active_true_succeeds_with_positive_balance() {
    let (mut env, _admin, token) = setup_with_token();
    let user = env.generate();
    let meter_id = sym("POS_BAL");
    allowlist_and_register(&mut env, &meter_id, &user);
    env.mint(&token, &user, 1_000_i128);
    env.make_payment(&meter_id, &user, 1_000_i128, PaymentPlan::Daily);
    env.set_active(&meter_id, false);
    assert!(!env.get_meter(&meter_id).active);
    env.set_active(&meter_id, true);
    assert!(env.get_meter(&meter_id).active);
}

#[test]
fn test_event_meter_registered() {
    let (mut env, _admin) = setup();
    let user = env.generate();
    let meter_id = sym("EV_REG");

    env.allowlist_add(&user);
    env.register_meter(&meter_id, &user);

    let found = env.emitted("mtr_reg") && event_namespace() == "solargrid";
    assert!(found, "mtr_reg event not emitted");
}

#[test]
fn test_event_payment_received_and_meter_activated() {
    let (mut env, _admin, token) = setup_with_token();
    let user = env.generate();
    let meter_id = sym("EV_PMT");

    allowlist_and_register(&mut env, &meter_id, &user);
    env.mint(&token, &user, 1_000_000_i128);
    env.make_payment(&meter_id, &user, 1_000_000_i128, PaymentPlan::Daily);

    assert!(env.emitted("pmt_rcvd"), "pmt_rcvd event not emitted");
    assert!(env.emitted("mtr_actv"), "mtr_actv event not emitted");
}

#[test]
fn test_event_usage_updated_and_meter_deactivated() {
    let (mut env, _admin, token) = setup_with_token();
    setup_oracle(&mut env);
    let user = env.generate();
    let meter_id = sym("EV_USG");

    allowlist_and_register(&mut env, &meter_id, &user);
    env.mint(&token, &user, 500_i128);
    env.make_payment(&meter_id, &user, 500_i128, PaymentPlan::UsageBased);

    env.update_usage(&meter_id, 10_u64, 500_i128);

    assert!(env.emitted("usg_upd"), "usg_upd event not emitted");
    assert!(env.emitted("mtr_deact"), "mtr_deact event not emitted on balance drain");
}

#[test]
fn test_event_meter_deactivated_via_set_active() {
    let (mut env, _admin, token) = setup_with_token();
    let user = env.generate();
    let meter_id = sym("EV_SET");

    allowlist_and_register(&mut env, &meter_id, &user);
    env.mint(&token, &user, 1_000_i128);
    env.make_payment(&meter_id, &user, 1_000_i128, PaymentPlan::Daily);

    env.set_active(&meter_id, false);

    assert!(env.emitted("mtr_deact"), "mtr_deact event not emitted by set_active(false)");
}

#[test]
fn test_get_meters_by_owner_returns_all() {
    let (mut env, _admin) = setup();
    let user = env.generate();
    let ids = [sym("OWN_A"), sym("OWN_B"), sym("OWN_C")];

    env.allowlist_add(&user);
    for id in &ids {
        env.register_meter(id, &user);
    }

    let meters = env.get_meters_by_owner(&user);
    assert_eq!(meters.len(), 3);
    for id in &ids {
        assert!(meters.contains(id));
    }
}

#[test]
fn test_get_all_meters_returns_all_registered() {
    let (mut env, _admin) = setup();
    let user1 = env.generate();
    let user2 = env.generate();
    let ids = [
        sym("ALL_1"), sym("ALL_2"), sym("ALL_3"), sym("ALL_4"), sym("ALL_5"), sym("ALL_6"),
        sym("ALL_7"), sym("ALL_8"), sym("ALL_9"), sym("ALL_A"), sym("ALL_B"),
    ];

    env.allowlist_add(&user1);
    env.allowlist_add(&user2);
    for (i, id) in ids.iter().enumerate() {
        let owner = if i < 6 { user1.clone() } else { user2.clone() };
        env.register_meter(id, &owner);
    }

    let all_meters = env.get_all_meters();
    assert_eq!(all_meters.len(), 11);
    for meter in all_meters.iter() {
        assert!(!meter.active);
        assert_eq!(meter.units_used, 0);
    }
}

#[test]
#[should_panic(expected = "not authorized")]
fn test_get_all_meters_requires_admin() {
    let mut env = Ledger::new();
    env.mock_auths = false;
    let admin = env.generate();
    let token = env.generate();
    env.initialize(&admin, &token);
    env.mock_auths = true;
    env.get_all_meters();
}

#[test]
fn test_event_meter_activated_via_set_active() {
    let (mut env, _admin, token) = setup_with_token();
    let user = env.generate();
    let meter_id = sym("EV_ON");

    allowlist_and_register(&mut env, &meter_id, &user);
    env.mint(&token, &user, 1_000_i128);
    env.make_payment(&meter_id, &user, 1_000_i128, PaymentPlan::Daily);
    env.set_active(&meter_id, false);

    env.set_active(&meter_id, true);

    let has_actv = env.emitted("mtr_actv") && event_namespace() == "solargrid";
    assert!(has_actv, "mtr_actv event not emitted by set_active(true)");
}

#[test]
fn test_batch_update_usage_single() {
    let (mut env, _admin, token) = setup_with_token();
    setup_oracle(&mut env);
    let m1 = sym("B1_M1");
    register_and_fund(&mut env, &token, &m1, 10_000_i128);

    env.batch_update_usage(vec![(m1.clone(), 10_u64, 3_000_i128)]);

    assert_eq!(env.get_meter_balance(&m1), 7_000);
    assert_eq!(env.get_meter(&m1).units_used, 10);
    assert!(env.get_meter(&m1).active);
}

#[test]
fn test_batch_update_usage_five_meters() {
    let (mut env, _admin, token) = setup_with_token();
    setup_oracle(&mut env);
    let ids = [sym("B5_M1"), sym("B5_M2"), sym("B5_M3"), sym("B5_M4"), sym("B5_M5")];
    for id in ids.iter() {
        register_and_fund(&mut env, &token, id, 10_000_i128);
    }

    let mut updates: Vec<(Symbol, u64, i128)> = Vec::new();
    for id in ids.iter() {
        updates.push((id.clone(), 5_u64, 1_000_i128));
    }
    env.batch_update_usage(updates);

    for id in ids.iter() {
        assert_eq!(env.get_meter_balance(id), 9_000);
        assert_eq!(env.get_meter(id).units_used, 5);
    }
}

#[test]
fn test_batch_update_usage_twenty_meters() {
    let (mut env, _admin, token) = setup_with_token();
    setup_oracle(&mut env);
    let names = [
        "B20M1", "B20M2", "B20M3", "B20M4", "B20M5", "B20M6", "B20M7", "B20M8", "B20M9", "B20MA",
        "B20MB", "B20MC", "B20MD", "B20ME", "B20MF", "B20MG", "B20MH", "B20MI", "B20MJ", "B20MK",
    ];
    let ids: Vec<Symbol> = names.iter().map(|n| sym(n)).collect();
    for id in ids.iter() {
        register_and_fund(&mut env, &token, id, 5_000_i128);
    }

    let mut updates: Vec<(Symbol, u64, i128)> = Vec::new();
    for id in ids.iter() {
        updates.push((id.clone(), 2_u64, 500_i128));
    }
    env.batch_update_usage(updates);

    for id in ids.iter() {
        assert_eq!(env.get_meter_balance(id), 4_500);
        assert_eq!(env.get_meter(id).units_used, 2);
    }
}

#[test]
fn test_batch_update_usage_drains_and_deactivates() {
    let (mut env, _admin, token) = setup_with_token();
    setup_oracle(&mut env);
    let m1 = sym("BD_M1");
    let m2 = sym("BD_M2");
    register_and_fund(&mut env, &token, &m1, 1_000_i128);
    register_and_fund(&mut env, &token, &m2, 5_000_i128);

    env.batch_update_usage(vec![(m1.clone(), 1_u64, 1_000_i128), (m2.clone(), 1_u64, 500_i128)]);

    assert_eq!(env.get_meter_balance(&m1), 0);
    assert!(!env.get_meter(&m1).active);
    assert_eq!(env.get_meter_balance(&m2), 4_500);
    assert!(env.get_meter(&m2).active);
}

#[test]
fn test_batch_update_usage_skips_invalid_meter() {
    let (mut env, _admin, token) = setup_with_token();
    setup_oracle(&mut env);
    let valid = sym("BS_V1");
    let invalid = sym("BS_BAD");
    register_and_fund(&mut env, &token, &valid, 5_000_i128);

    env.batch_update_usage(vec![(invalid.clone(), 1_u64, 100_i128), (valid.clone(), 2_u64, 200_i128)]);

    assert_eq!(env.get_meter_balance(&valid), 4_800);
    assert_eq!(env.get_meter(&valid).units_used, 2);

    assert!(env.emitted("btch_skip"), "batch_skip event not emitted for invalid meter");
}

#[test]
fn test_set_and_get_oracle() {
    let (mut env, _admin) = setup();
    assert_eq!(env.get_oracle(), None);
    let oracle = env.generate();
    env.set_oracle(&oracle);
    assert_eq!(env.get_oracle(), Some(oracle));
}

#[test]
fn test_update_usage_panics_when_oracle_not_set() {
    let (mut env, _admin, token) = setup_with_token();
    let user = env.generate();
    let meter_id = sym("ORC_NS");
    allowlist_and_register(&mut env, &meter_id, &user);
    env.mint(&token, &user, 1_000_i128);
    env.make_payment(&meter_id, &user, 1_000_i128, PaymentPlan::UsageBased);

    let result = env.try_update_usage(&meter_id, 10_u64, 100_i128);
    assert_eq!(result, Err(ContractError::OracleNotSet));
}

#[test]
fn test_update_usage_succeeds_with_registered_oracle() {
    let (mut env, _admin, token) = setup_with_token();
    setup_oracle(&mut env);
    let user = env.generate();
    let meter_id = sym("ORC_OK");
    allowlist_and_register(&mut env, &meter_id, &user);
    env.mint(&token, &user, 1_000_i128);
    env.make_payment(&meter_id, &user, 1_000_i128, PaymentPlan::UsageBased);

    env.update_usage(&meter_id, 5_u64, 200_i128);
    assert_eq!(env.get_meter_balance(&meter_id), 800);
    assert_eq!(env.get_meter(&meter_id).units_used, 5);
}

#[test]
fn test_batch_update_usage_panics_when_oracle_not_set() {
    let (mut env, _admin, token) = setup_with_token();
    let meter_id = sym("BON_NS");
    register_and_fund(&mut env, &token, &meter_id, 1_000_i128);

    let result = env.try_batch_update_usage(vec![(meter_id.clone(), 1_u64, 100_i128)]);
    assert_eq!(result, Err(ContractError::OracleNotSet));
}

#[test]
fn test_admin_fn_on_uninitialized_contract_returns_not_initialized() {
    let mut env = Ledger::new();
    let result = env.try_set_active(&sym("UNINIT"), true);
    assert_eq!(result, Err(ContractError::NotInitialized));
}

#[test]
fn test_initialize_returns_already_initialized_on_second_call() {
    let mut env = Ledger::new();
    let admin = env.generate();
    let token = env.generate();

    env.initialize(&admin, &token);

    let result = env.try_initialize(&admin, &token);
    assert_eq!(result, Err(ContractError::AlreadyInitialized));
}

#[test]
fn test_get_meter_returns_meter_not_found_for_unknown_meter() {
    let (env, _admin) = setup();
    let result = env.try_get_meter(&sym("MISS_MTR"));
    assert!(matches!(result, Err(ContractError::MeterNotFound)));
}

#[test]
fn test_withdraw_revenue_returns_unauthorized_for_non_admin() {
    let (mut env, _admin) = setup();
    let provider = env.generate();
    let result = env.try_withdraw_revenue(&provider, 1_i128);
    assert_eq!(result, Err(ContractError::Unauthorized));
}

#[test]
fn test_migrate_meter_upgrades_legacy_entry() {
    let (mut env, _admin) = setup();
    let meter_id = sym("MIG_V0");
    let owner = env.generate();

    let legacy = LegacyMeter {
        owner: owner.clone(),
        active: true,
        balance: 5_000_i128,
        units_used: 42,
        plan: PaymentPlan::UsageBased,
        last_payment: 1_000,
        expires_at: u64::MAX,
    };
    env.grid.meters.insert(meter_id.name.clone(), StoredMeter::Legacy(legacy));

    env.migrate_meter(&meter_id);

    let meter = env.get_meter(&meter_id);
    assert_eq!(meter.version, 1);
    assert_eq!(meter.owner, owner);
    assert!(meter.active);
    assert_eq!(meter.units_used, 42);
    assert_eq!(meter.plan, PaymentPlan::UsageBased);
    assert_eq!(meter.last_payment, 1_000);
    assert_eq!(meter.expires_at, u64::MAX);
}

// ── Further scenarios: laws on concrete values, edge cases, every error ──────

#[test]
fn payment_grants_access_at_time_of_payment() {
    let (mut env, admin, token) = setup_with_token();
    let user = env.generate();
    let meter_id = sym("LAW_PAY");
    allowlist_and_register(&mut env, &meter_id, &user);
    env.timestamp = 1_000;
    env.mint(&token, &user, 10);
    env.make_payment(&meter_id, &user, 10, PaymentPlan::Daily);
    assert!(env.check_access(&meter_id));
    let meter = env.get_meter(&meter_id);
    assert_eq!(meter.last_payment, 1_000);
    assert_eq!(meter.expires_at, 1_000 + SECONDS_PER_DAY);
    assert_eq!(env.get_meter_balance(&meter_id), 10);
    assert_eq!(env.get_provider_revenue(&admin), 10);
    env.timestamp = 1_000 + SECONDS_PER_DAY - 1;
    assert!(env.check_access(&meter_id));
    env.timestamp = 1_000 + SECONDS_PER_DAY;
    assert!(!env.check_access(&meter_id));
}

#[test]
fn daily_expiry_saturates_at_end_of_clock() {
    let (mut env, _admin, token) = setup_with_token();
    let user = env.generate();
    let meter_id = sym("SAT");
    allowlist_and_register(&mut env, &meter_id, &user);
    env.timestamp = u64::MAX - 10;
    env.mint(&token, &user, 5);
    env.make_payment(&meter_id, &user, 5, PaymentPlan::Weekly);
    assert_eq!(env.get_meter(&meter_id).expires_at, u64::MAX);
}

#[test]
fn partial_usage_leaves_difference_and_keeps_meter_on() {
    let (mut env, _admin, token) = setup_with_token();
    setup_oracle(&mut env);
    let meter_id = sym("PART");
    register_and_fund(&mut env, &token, &meter_id, 300);
    env.update_usage(&meter_id, 7, 299);
    assert_eq!(env.get_meter_balance(&meter_id), 1);
    assert!(env.get_meter(&meter_id).active);
    assert!(!env.emitted("mtr_deact"));
}

#[test]
fn registered_meter_starts_idle_without_credit() {
    let (mut env, _admin) = setup();
    let user = env.generate();
    let meter_id = sym("FRESH");
    env.timestamp = 77;
    allowlist_and_register(&mut env, &meter_id, &user);
    let meter = env.get_meter(&meter_id);
    assert_eq!(meter.version, 1);
    assert_eq!(meter.owner, user);
    assert!(!meter.active);
    assert_eq!(meter.plan, PaymentPlan::Daily);
    assert_eq!(meter.last_payment, 77);
    assert_eq!(meter.expires_at, 77);
    assert_eq!(env.get_meter_balance(&meter_id), 0);
    assert!(!env.check_access(&meter_id));
    assert_eq!(env.get_meters_by_owner(&user), vec![meter_id.clone()]);
}

#[test]
fn unknown_meter_errors() {
    let (mut env, _admin, token) = setup_with_token();
    setup_oracle(&mut env);
    let user = env.generate();
    let missing = sym("NOPE");
    env.mint(&token, &user, 10);
    assert_eq!(
        env.try_make_payment(&missing, &user, 10, PaymentPlan::Daily),
        Err(ContractError::MeterNotFound)
    );
    // the failed payment moved no tokens
    assert_eq!(env.balance(&token, &user), 10);
    assert_eq!(env.try_update_usage(&missing, 1, 1), Err(ContractError::MeterNotFound));
    assert_eq!(env.grid.get_meter_balance(&missing), Err(ContractError::MeterNotFound));
    assert_eq!(env.grid.check_access(&missing, 0), Err(ContractError::MeterNotFound));
    assert_eq!(env.try_set_active(&missing, false), Err(ContractError::MeterNotFound));
    assert_eq!(env.try_migrate_meter(&missing), Err(ContractError::MeterNotFound));
}

#[test]
fn uninitialized_contract_errors() {
    let mut env = Ledger::new();
    let a = env.generate();
    let m = sym("M");
    assert_eq!(env.try_register_meter(&m, &a), Err(ContractError::NotInitialized));
    assert_eq!(env.try_make_payment(&m, &a, 1, PaymentPlan::Daily), Err(ContractError::NotInitialized));
    assert_eq!(env.try_withdraw_revenue(&a, 1), Err(ContractError::NotInitialized));
    assert_eq!(env.try_update_usage(&m, 1, 1), Err(ContractError::NotInitialized));
    assert_eq!(env.grid.get_oracle(), Err(ContractError::NotInitialized));
    assert_eq!(env.grid.get_provider_revenue(&a), Err(ContractError::NotInitialized));
    assert_eq!(env.try_migrate_meter(&m), Err(ContractError::NotInitialized));
    // the listing is admin only: without an admin there is none
    let listing = env.grid.get_all_meters();
    assert!(listing.calls.is_empty());
    assert_eq!(listing.result, Err(ContractError::NotInitialized));
}

#[test]
fn negative_cost_is_invalid_amount() {
    let (mut env, _admin, token) = setup_with_token();
    setup_oracle(&mut env);
    let meter_id = sym("NEG");
    register_and_fund(&mut env, &token, &meter_id, 100);
    assert_eq!(env.try_update_usage(&meter_id, 1, -1), Err(ContractError::InvalidAmount));
    // a negative cost anywhere rejects the whole batch, earlier lines included
    let result = env.try_batch_update_usage(vec![(meter_id.clone(), 1, 10), (meter_id.clone(), 1, -5)]);
    assert_eq!(result, Err(ContractError::InvalidAmount));
    assert_eq!(env.get_meter_balance(&meter_id), 100);
    assert_eq!(env.get_meter(&meter_id).units_used, 0);
    let stranger = env.generate();
    assert_eq!(env.try_withdraw_revenue(&stranger, 0), Err(ContractError::InvalidAmount));
}

#[test]
fn batch_rejects_more_than_fifty_reports() {
    let (mut env, _admin, token) = setup_with_token();
    setup_oracle(&mut env);
    let meter_id = sym("OVER");
    register_and_fund(&mut env, &token, &meter_id, 1_000_000_i128);
    let mut updates: Vec<(Symbol, u64, i128)> = Vec::new();
    for i in 0..51 {
        updates.push((sym(&format!("M{}", i)), 1_u64, 100_i128));
    }
    assert_eq!(env.try_batch_update_usage(updates), Err(ContractError::BatchTooLarge));
    let mut fifty: Vec<(Symbol, u64, i128)> = Vec::new();
    for _ in 0..50 {
        fifty.push((meter_id.clone(), 1_u64, 100_i128));
    }
    env.batch_update_usage(fifty);
    assert_eq!(env.get_meter_balance(&meter_id), 1_000_000 - 5_000);
    assert_eq!(env.get_meter(&meter_id).units_used, 50);
}

#[test]
fn single_report_batch_matches_update_usage() {
    let (mut a, _admin, token_a) = setup_with_token();
    setup_oracle(&mut a);
    let (mut b, _admin_b, token_b) = setup_with_token();
    setup_oracle(&mut b);
    let id = sym("SAME");
    register_and_fund(&mut a, &token_a, &id, 900);
    register_and_fund(&mut b, &token_b, &id, 900);
    a.events.clear();
    b.events.clear();
    a.update_usage(&id, 4, 900);
    b.batch_update_usage(vec![(id.clone(), 4, 900)]);
    assert_eq!(a.get_meter(&id), b.get_meter(&id));
    assert_eq!(a.get_meter_balance(&id), b.get_meter_balance(&id));
    assert_eq!(a.events, b.events);
}

#[test]
fn set_active_requires_credit_and_emits_events() {
    let (mut env, _admin, token) = setup_with_token();
    let user = env.generate();
    let meter_id = sym("TOGGLE");
    allowlist_and_register(&mut env, &meter_id, &user);
    assert_eq!(env.try_set_active(&meter_id, true), Err(ContractError::CannotActivateWithoutBalance));
    env.set_active(&meter_id, false);
    assert_eq!(env.events.last(), Some(&Event::MeterDeactivated { meter_id: meter_id.clone() }));
    env.mint(&token, &user, 3);
    env.make_payment(&meter_id, &user, 3, PaymentPlan::Daily);
    env.set_active(&meter_id, true);
    assert_eq!(env.events.last(), Some(&Event::MeterActivated { meter_id: meter_id.clone() }));
}

#[test]
fn migration_is_idempotent_and_current_records_are_kept() {
    let (mut env, _admin) = setup();
    let user = env.generate();
    let meter_id = sym("MIG2");
    allowlist_and_register(&mut env, &meter_id, &user);
    let before = env.get_meter(&meter_id);
    env.migrate_meter(&meter_id);
    assert_eq!(env.get_meter(&meter_id), before);
    let legacy = LegacyMeter {
        owner: user.clone(),
        active: false,
        balance: 9,
        units_used: 3,
        plan: PaymentPlan::Weekly,
        last_payment: 5,
        expires_at: 6,
    };
    let expected = migrate_meter_v0(legacy.clone());
    env.grid.meters.insert(meter_id.name.clone(), StoredMeter::Legacy(legacy));
    env.migrate_meter(&meter_id);
    env.migrate_meter(&meter_id);
    assert_eq!(env.get_meter(&meter_id), expected);
    assert_eq!(env.get_meter_balance(&meter_id), 9);
}

#[test]
fn migration_moves_inline_credit_and_switches_off_meters_without_credit() {
    let (mut env, _admin) = setup();
    let owner = env.generate();
    let funded = sym("MIG_OK");
    let empty = sym("MIG_NIL");
    let legacy = |balance: i128| LegacyMeter {
        owner: owner.clone(),
        active: true,
        balance,
        units_used: 1,
        plan: PaymentPlan::Daily,
        last_payment: 0,
        expires_at: 100,
    };
    env.grid.meters.insert(funded.name.clone(), StoredMeter::Legacy(legacy(5_000)));
    env.grid.meters.insert(empty.name.clone(), StoredMeter::Legacy(legacy(0)));
    env.migrate_meter(&funded);
    env.migrate_meter(&empty);
    assert_eq!(env.get_meter_balance(&funded), 5_000);
    assert!(env.get_meter(&funded).active);
    assert!(env.check_access(&funded));
    assert_eq!(env.get_meter_balance(&empty), 0);
    assert!(!env.get_meter(&empty).active);
}

#[test]
fn registration_needs_admin_and_owner_signatures() {
    let (mut env, admin) = setup();
    let owner = env.generate();
    env.allowlist_add(&owner);
    let inv = env.grid.register_meter(sym("SIGNED"), owner.clone(), 0);
    assert_eq!(
        inv.calls,
        vec![HostCall::RequireAuth(admin.clone()), HostCall::RequireAuth(owner.clone())]
    );
    assert_eq!(inv.result, Ok(()));
}

#[test]
fn listing_all_meters_asks_admin_authorization() {
    let (mut env, admin) = setup();
    let owner = env.generate();
    allowlist_and_register(&mut env, &sym("L1"), &owner);
    let inv = env.grid.get_all_meters();
    assert_eq!(inv.calls, vec![HostCall::RequireAuth(admin.clone())]);
    assert_eq!(inv.result.map(|m| m.len()), Ok(1));
}

#[test]
fn failed_payment_asks_for_no_deposit() {
    let (mut env, _admin) = setup();
    let payer = env.generate();
    let inv = env.grid.make_payment(sym("GHOST"), payer.clone(), 50, PaymentPlan::Daily, 0);
    assert_eq!(inv.calls, vec![HostCall::RequireAuth(payer.clone())]);
    assert_eq!(inv.result, Err(ContractError::MeterNotFound));
}

#[test]
fn revenue_round_trip_and_overdraw() {
    let (mut env, admin, token) = setup_with_token();
    let user = env.generate();
    let meter_id = sym("REV");
    allowlist_and_register(&mut env, &meter_id, &user);
    env.mint(&token, &user, 40);
    env.make_payment(&meter_id, &user, 40, PaymentPlan::UsageBased);
    assert_eq!(
        env.try_withdraw_revenue(&admin, 41),
        Err(ContractError::InsufficientProviderRevenue)
    );
    env.withdraw_revenue(&admin, 40);
    assert_eq!(env.get_provider_revenue(&admin), 0);
    assert_eq!(env.balance(&token, &admin), 40);
    assert!(env.emitted("rev_wdrl"));
}

#[test]
fn allowlist_remove_drops_only_that_address_and_keeps_order() {
    let (mut env, _admin) = setup();
    let a = env.generate();
    let b = env.generate();
    let c = env.generate();
    env.allowlist_add(&a);
    env.allowlist_add(&b);
    env.allowlist_add(&c);
    env.allowlist_remove(&b);
    assert_eq!(env.get_allowlist(), vec![a.clone(), c.clone()]);
}

#[test]
fn payment_asks_payer_authorization_and_deposit() {
    let (mut env, _admin, token) = setup_with_token();
    let user = env.generate();
    let meter_id = sym("CALLS");
    allowlist_and_register(&mut env, &meter_id, &user);
    let inv = env.grid.make_payment(meter_id.clone(), user.clone(), 12, PaymentPlan::Daily, 0);
    assert_eq!(
        inv.calls,
        vec![
            HostCall::RequireAuth(user.clone()),
            HostCall::Deposit { token: token.clone(), from: user.clone(), amount: 12 },
        ]
    );
    assert_eq!(inv.events.len(), 2);
    assert_eq!(inv.events[0].topic(), "pmt_rcvd");
}

#[test]
fn error_codes_match_the_published_table() {
    assert_eq!(ContractError::NotInitialized.code(), 1);
    assert_eq!(ContractError::AlreadyInitialized.code(), 2);
    assert_eq!(ContractError::MeterNotFound.code(), 3);
    assert_eq!(ContractError::MeterAlreadyExists.code(), 4);
    assert_eq!(ContractError::Unauthorized.code(), 5);
    assert_eq!(ContractError::InvalidAmount.code(), 6);
    assert_eq!(ContractError::OwnerNotAllowlisted.code(), 7);
    assert_eq!(ContractError::OracleNotSet.code(), 8);
    assert_eq!(ContractError::InsufficientProviderRevenue.code(), 9);
    assert_eq!(ContractError::BatchTooLarge.code(), 10);
    assert_eq!(ContractError::CannotActivateWithoutBalance.code(), 11);
}
