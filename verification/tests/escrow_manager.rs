use stellovault::address::Address;
use stellovault::collateral::CollateralRegistry;
use stellovault::confirmation::ConfirmationData;
use stellovault::escrow::{
    escrow_key, ContractError, Effect, EscrowConfig, EscrowManager, EscrowStatus,
};

fn addr(tag: u8) -> Address {
    Address::from_bytes([tag; 32])
}

fn must<T>(outcome: Result<T, ContractError>) -> T {
    match outcome {
        Ok(value) => value,
        Err(error) => panic!("HostError: Error(Contract, #{})", error.code()),
    }
}

/// A ledger around the manager: token balances, collateral locks, the
/// clock, and what the oracle adapter would answer.
struct TestEnv {
    manager: EscrowManager,
    now: u64,
    balances: Vec<(Address, Address, i128)>,
    registry: CollateralRegistry,
    registry_calls: usize,
    answers: Vec<(Vec<u8>, Vec<ConfirmationData>)>,
    escrow_id_addr: Address,
    coll_reg_addr: Address,
    token_addr: Address,
    treasury_addr: Address,
    buyer: Address,
    seller: Address,
    lender: Address,
}

impl TestEnv {
    fn balance(&self, token: &Address, holder: &Address) -> i128 {
        self.balances
            .iter()
            .filter(|(t, h, _)| t == token && h == holder)
            .map(|(_, _, amount)| *amount)
            .sum()
    }

    fn credit(&mut self, token: Address, holder: Address, amount: i128) {
        self.balances.push((token, holder, amount));
    }

    fn locked(&self, collateral_id: u64) -> Option<bool> {
        if self.registry_calls == 0 {
            None
        } else {
            Some(self.registry.is_locked(collateral_id))
        }
    }

    fn apply(&mut self, effects: &[Effect]) {
        self.registry.apply(&effects.to_vec());
        for effect in effects {
            match *effect {
                Effect::LockCollateral { registry, .. }
                | Effect::UnlockCollateral { registry, .. } => {
                    assert_eq!(registry, self.coll_reg_addr);
                    self.registry_calls += 1;
                }
                Effect::TransferIn { asset, from, amount } => {
                    assert!(self.balance(&asset, &from) >= amount);
                    self.credit(asset, from, -amount);
                    let custody = self.escrow_id_addr;
                    self.credit(asset, custody, amount);
                }
                Effect::TransferOut { asset, to, amount } => {
                    let custody = self.escrow_id_addr;
                    assert!(self.balance(&asset, &custody) >= amount);
                    self.credit(asset, custody, -amount);
                    self.credit(asset, to, amount);
                }
                _ => {}
            }
        }
    }

    fn answer(&self, escrow_id: u64) -> Option<Vec<ConfirmationData>> {
        let key = escrow_key(escrow_id);
        self.answers.iter().rev().find(|(k, _)| *k == key).map(|(_, confs)| {
            confs.iter().map(|c| c.duplicate()).collect()
        })
    }

    fn create_escrow(&mut self, config: EscrowConfig) -> u64 {
        let lender = config.lender;
        let (id, effects) = must(self.manager.create_escrow(&lender, config, self.now));
        self.apply(&effects);
        id
    }

    fn release(&mut self, escrow_id: u64) -> Vec<Effect> {
        let answer = self.answer(escrow_id);
        let effects = must(self.manager.release_funds_on_confirmation(escrow_id, &answer, 0));
        self.apply(&effects);
        effects
    }

    fn refund(&mut self, escrow_id: u64) {
        let effects = must(self.manager.refund_escrow(escrow_id, self.now));
        self.apply(&effects);
    }
}

fn setup() -> TestEnv {
    let admin = addr(1);
    let mut t = TestEnv {
        manager: EscrowManager::new(),
        now: 1_000,
        balances: Vec::new(),
        registry: CollateralRegistry::new(),
        registry_calls: 0,
        answers: Vec::new(),
        escrow_id_addr: addr(10),
        coll_reg_addr: addr(11),
        token_addr: addr(12),
        treasury_addr: addr(13),
        buyer: addr(2),
        seller: addr(3),
        lender: addr(4),
    };
    let (token, lender) = (t.token_addr, t.lender);
    t.credit(token, lender, 1_000_000);
    must(t.manager.initialize(admin, t.coll_reg_addr, addr(14), addr(15), t.treasury_addr));
    t
}

fn config(t: &TestEnv, amount: i128, destination: Address, floor: i128) -> EscrowConfig {
    EscrowConfig {
        buyer: t.buyer,
        seller: t.seller,
        lender: t.lender,
        collateral_id: 1u64,
        amount,
        asset: t.token_addr,
        required_confirmation: 2u32,
        expiry_ts: t.now + 3600,
        destination_asset: destination,
        min_destination_amount: floor,
        required_confirmations: 0u32,
        oracle_set: Vec::new(),
    }
}

fn create_test_escrow(t: &mut TestEnv) -> u64 {
    let cfg = config(t, 5000i128, t.token_addr, 5000i128);
    t.create_escrow(cfg)
}

fn set_oracle_confirmation(t: &mut TestEnv, escrow_id: u64, event_type: u32, verified: bool) {
    let conf = ConfirmationData {
        escrow_id: escrow_key(escrow_id),
        event_type,
        result: b"confirmed".to_vec(),
        oracle: addr(77),
        timestamp: t.now,
        verified,
    };
    t.answers.push((escrow_key(escrow_id), vec![conf]));
}

#[test]
fn test_initialize() {
    let t = setup();
    assert!(t.manager.admin.is_some());
    assert_eq!(t.manager.collateral_registry, Some(t.coll_reg_addr));
    assert_eq!(t.manager.get_treasury(), Some(t.treasury_addr));
}

#[test]
#[should_panic(expected = "HostError: Error(Contract, #2)")]
fn test_initialize_already_initialized() {
    let mut t = setup();
    let admin = addr(20);
    let dummy = addr(21);
    must(t.manager.initialize(admin, dummy, dummy, dummy, dummy));
}

#[test]
fn test_create_escrow_success() {
    let mut t = setup();
    let escrow_id = create_test_escrow(&mut t);
    assert_eq!(escrow_id, 1);

    let escrow = t.manager.get_escrow(escrow_id).unwrap();
    assert_eq!(escrow.buyer, t.buyer);
    assert_eq!(escrow.seller, t.seller);
    assert_eq!(escrow.lender, t.lender);
    assert_eq!(escrow.collateral_id, 1);
    assert_eq!(escrow.amount, 5000);
    assert_eq!(escrow.required_confirmation, 2);
    assert_eq!(escrow.status, EscrowStatus::Active);
    assert_eq!(escrow.created_at, 1_000);

    assert_eq!(t.locked(1), Some(true));
    assert_eq!(t.balance(&t.token_addr, &t.escrow_id_addr), 5000);
    assert_eq!(t.balance(&t.token_addr, &t.lender), 1_000_000 - 5000);
}

#[test]
fn test_create_multiple_escrows() {
    let mut t = setup();
    let id1 = create_test_escrow(&mut t);
    let id2 = create_test_escrow(&mut t);
    assert_eq!(id1, 1);
    assert_eq!(id2, 2);
    assert!(t.manager.get_escrow(id1).is_some());
    assert!(t.manager.get_escrow(id2).is_some());
}

#[test]
#[should_panic(expected = "HostError: Error(Contract, #5)")]
fn test_create_escrow_invalid_amount() {
    let mut t = setup();
    let cfg = config(&t, 0i128, t.token_addr, 5000i128);
    t.create_escrow(cfg);
}

#[test]
fn test_release_funds_on_confirmation() {
    let mut t = setup();
    let escrow_id = create_test_escrow(&mut t);
    set_oracle_confirmation(&mut t, escrow_id, 2, true);
    t.release(escrow_id);

    let escrow = t.manager.get_escrow(escrow_id).unwrap();
    assert_eq!(escrow.status, EscrowStatus::Released);
    assert_eq!(t.balance(&t.token_addr, &t.seller), 5000);
    assert_eq!(t.balance(&t.token_addr, &t.escrow_id_addr), 0);
    assert_eq!(t.locked(1), Some(false));
}

#[test]
#[should_panic(expected = "HostError: Error(Contract, #6)")]
fn test_release_without_confirmation() {
    let mut t = setup();
    let escrow_id = create_test_escrow(&mut t);
    t.release(escrow_id);
}

#[test]
#[should_panic(expected = "HostError: Error(Contract, #6)")]
fn test_release_wrong_event_type() {
    let mut t = setup();
    let escrow_id = create_test_escrow(&mut t);
    set_oracle_confirmation(&mut t, escrow_id, 1, false);
    t.release(escrow_id);
}

#[test]
#[should_panic(expected = "HostError: Error(Contract, #6)")]
fn test_release_unverified_confirmation() {
    let mut t = setup();
    let escrow_id = create_test_escrow(&mut t);
    set_oracle_confirmation(&mut t, escrow_id, 2, false);
    t.release(escrow_id);
}

#[test]
#[should_panic(expected = "HostError: Error(Contract, #4)")]
fn test_release_already_released() {
    let mut t = setup();
    let escrow_id = create_test_escrow(&mut t);
    set_oracle_confirmation(&mut t, escrow_id, 2, true);
    t.release(escrow_id);
    t.release(escrow_id);
}

#[test]
fn test_refund_escrow_success() {
    let mut t = setup();
    let escrow_id = create_test_escrow(&mut t);
    let lender_balance_before = t.balance(&t.token_addr, &t.lender);
    t.now += 3601;
    t.refund(escrow_id);

    let escrow = t.manager.get_escrow(escrow_id).unwrap();
    assert_eq!(escrow.status, EscrowStatus::Refunded);
    assert_eq!(t.balance(&t.token_addr, &t.lender), lender_balance_before + 5000);
    assert_eq!(t.balance(&t.token_addr, &t.escrow_id_addr), 0);
    assert_eq!(t.locked(1), Some(false));
}

#[test]
#[should_panic(expected = "HostError: Error(Contract, #7)")]
fn test_refund_before_expiry() {
    let mut t = setup();
    let escrow_id = create_test_escrow(&mut t);
    t.refund(escrow_id);
}

#[test]
#[should_panic(expected = "HostError: Error(Contract, #4)")]
fn test_refund_already_refunded() {
    let mut t = setup();
    let escrow_id = create_test_escrow(&mut t);
    t.now += 3601;
    t.refund(escrow_id);
    t.refund(escrow_id);
}

#[test]
#[should_panic(expected = "HostError: Error(Contract, #4)")]
fn test_refund_after_release() {
    let mut t = setup();
    let escrow_id = create_test_escrow(&mut t);
    set_oracle_confirmation(&mut t, escrow_id, 2, true);
    t.release(escrow_id);
    t.now += 3601;
    t.refund(escrow_id);
}

#[test]
#[should_panic(expected = "HostError: Error(Contract, #3)")]
fn test_release_nonexistent_escrow() {
    let mut t = setup();
    t.release(999u64);
}

#[test]
#[should_panic(expected = "HostError: Error(Contract, #3)")]
fn test_refund_nonexistent_escrow() {
    let mut t = setup();
    t.refund(999u64);
}

#[test]
fn test_get_escrow_not_found() {
    let t = setup();
    assert!(t.manager.get_escrow(999u64).is_none());
}

#[test]
fn test_path_payment_same_asset() {
    let mut t = setup();
    let escrow_id = create_test_escrow(&mut t);
    set_oracle_confirmation(&mut t, escrow_id, 2, true);
    let effects = t.release(escrow_id);

    let escrow = t.manager.get_escrow(escrow_id).unwrap();
    assert_eq!(escrow.status, EscrowStatus::Released);
    assert_eq!(t.balance(&t.token_addr, &t.seller), 5000);
    assert!(!effects.iter().any(|e| matches!(e, Effect::PathPayment { .. })));
}

#[test]
fn test_path_payment_different_asset() {
    let mut t = setup();
    let dest_token_addr = addr(30);
    let custody = t.escrow_id_addr;
    t.credit(dest_token_addr, custody, 10_000);

    let cfg = config(&t, 5000i128, dest_token_addr, 4500i128);
    let escrow_id = t.create_escrow(cfg);
    t.manager.set_test_exchange_rate(950_000i128);
    set_oracle_confirmation(&mut t, escrow_id, 2, true);
    let effects = t.release(escrow_id);

    let escrow = t.manager.get_escrow(escrow_id).unwrap();
    assert_eq!(escrow.status, EscrowStatus::Released);
    assert!(effects.contains(&Effect::PathPayment {
        escrow_id,
        source_amount: 5000,
        estimated_destination: 4750,
    }));
    // The seller is paid the source amount in the source asset.
    assert_eq!(t.balance(&t.token_addr, &t.seller), 5000);
}

#[test]
#[should_panic(expected = "HostError: Error(Contract, #9)")]
fn test_path_payment_slippage_exceeded() {
    let mut t = setup();
    let dest_token_addr = addr(30);
    let cfg = config(&t, 5000i128, dest_token_addr, 4800i128);
    let escrow_id = t.create_escrow(cfg);
    t.manager.set_test_exchange_rate(900_000i128);
    set_oracle_confirmation(&mut t, escrow_id, 2, true);
    t.release(escrow_id);
}

#[test]
fn test_create_escrow_with_path_payment_params() {
    let mut t = setup();
    let dest_token_addr = addr(30);
    let cfg = config(&t, 5000i128, dest_token_addr, 4500i128);
    let escrow_id = t.create_escrow(cfg);

    let escrow = t.manager.get_escrow(escrow_id).unwrap();
    assert_eq!(escrow.destination_asset, dest_token_addr);
    assert_eq!(escrow.min_destination_amount, 4500);
    assert_eq!(escrow.status, EscrowStatus::Active);
}

#[test]
fn slippage_floor_is_inclusive() {
    let mut t = setup();
    let cfg = config(&t, 5000i128, addr(30), 4500i128);
    let escrow_id = t.create_escrow(cfg);
    t.manager.set_test_exchange_rate(900_000i128);
    assert_eq!(t.manager.estimate_path_payment(5000), Ok(4500));
    set_oracle_confirmation(&mut t, escrow_id, 2, true);
    t.release(escrow_id);
    assert_eq!(t.manager.get_escrow(escrow_id).unwrap().status, EscrowStatus::Released);
}

#[test]
fn estimate_defaults_to_one_to_one_and_truncates() {
    let mut m = EscrowManager::new();
    assert_eq!(m.estimate_path_payment(5000), Ok(5000));
    m.set_test_exchange_rate(333_333);
    assert_eq!(m.estimate_path_payment(10), Ok(3));
    m.set_test_exchange_rate(-333_333);
    assert_eq!(m.estimate_path_payment(10), Ok(-3));
    m.set_test_exchange_rate(i128::MAX);
    assert_eq!(m.estimate_path_payment(2), Err(ContractError::PathPaymentFailed));
}

#[test]
fn failed_release_leaves_escrow_active_and_first_exit_wins() {
    let mut t = setup();
    let escrow_id = create_test_escrow(&mut t);
    let none: Option<Vec<ConfirmationData>> = None;
    assert_eq!(
        t.manager.release_funds_on_confirmation(escrow_id, &none, 0),
        Err(ContractError::ConfirmationNotMet)
    );
    assert_eq!(t.manager.get_escrow(escrow_id).unwrap().status, EscrowStatus::Active);
    assert_eq!(t.manager.refund_escrow(escrow_id, t.now + 3600), Err(ContractError::EscrowNotExpired));
    t.now += 3601;
    t.refund(escrow_id);
    set_oracle_confirmation(&mut t, escrow_id, 2, true);
    let answer = t.answer(escrow_id);
    assert_eq!(
        t.manager.release_funds_on_confirmation(escrow_id, &answer, 0),
        Err(ContractError::EscrowNotActive)
    );
    assert_eq!(t.manager.refund_escrow(escrow_id, t.now), Err(ContractError::EscrowNotActive));
}

#[test]
fn fee_is_reported_and_not_withheld() {
    let mut t = setup();
    let escrow_id = create_test_escrow(&mut t);
    set_oracle_confirmation(&mut t, escrow_id, 2, true);
    let answer = t.answer(escrow_id);
    let effects = must(t.manager.release_funds_on_confirmation(escrow_id, &answer, 250));
    assert_eq!(
        effects,
        vec![
            Effect::TransferOut { asset: t.token_addr, to: t.seller, amount: 5000 },
            Effect::DepositFee { treasury: t.treasury_addr, asset: t.token_addr, amount: 125 },
            Effect::FeeCollected { escrow_id, fee: 125, asset: t.token_addr },
            Effect::UnlockCollateral { registry: t.coll_reg_addr, collateral_id: 1 },
            Effect::EscrowReleased { escrow_id },
        ]
    );
}

#[test]
fn zero_fee_is_not_reported() {
    let mut t = setup();
    let cfg = config(&t, 39i128, t.token_addr, 1i128);
    let escrow_id = t.create_escrow(cfg);
    set_oracle_confirmation(&mut t, escrow_id, 2, true);
    let answer = t.answer(escrow_id);
    let effects = must(t.manager.release_funds_on_confirmation(escrow_id, &answer, 250));
    assert_eq!(effects.len(), 3);
}

#[test]
fn creation_needs_the_lender_and_an_initialised_manager() {
    let mut t = setup();
    let cfg = config(&t, 5000, t.token_addr, 5000);
    let stranger = addr(99);
    assert_eq!(
        t.manager.create_escrow(&stranger, cfg, t.now).map(|(id, _)| id),
        Err(ContractError::Unauthorized)
    );
    let cfg = config(&t, 5000, t.token_addr, 0);
    let lender = t.lender;
    assert_eq!(
        t.manager.create_escrow(&lender, cfg, t.now).map(|(id, _)| id),
        Err(ContractError::InvalidAmount)
    );
    // A refused creation mints no id.
    assert_eq!(create_test_escrow(&mut t), 1);

    let mut fresh = EscrowManager::new();
    let cfg = config(&t, 5000, t.token_addr, 5000);
    assert_eq!(
        fresh.create_escrow(&lender, cfg, t.now).map(|(id, _)| id),
        Err(ContractError::Unauthorized)
    );
}

#[test]
fn creation_effects_are_lock_then_transfer_then_event() {
    let mut t = setup();
    let cfg = config(&t, 5000, t.token_addr, 5000);
    let lender = t.lender;
    let (id, effects) = must(t.manager.create_escrow(&lender, cfg, t.now));
    assert_eq!(
        effects,
        vec![
            Effect::LockCollateral { registry: t.coll_reg_addr, collateral_id: 1 },
            Effect::TransferIn { asset: t.token_addr, from: t.lender, amount: 5000 },
            Effect::EscrowCreated {
                escrow_id: id,
                buyer: t.buyer,
                seller: t.seller,
                lender: t.lender,
                amount: 5000,
            },
        ]
    );
}

#[test]
fn treasury_is_set_by_the_admin_only() {
    let mut t = setup();
    let stranger = addr(99);
    assert_eq!(t.manager.set_treasury(&stranger, addr(50)), Err(ContractError::Unauthorized));
    assert_eq!(t.manager.get_treasury(), Some(t.treasury_addr));
    let admin = addr(1);
    assert_eq!(
        t.manager.set_treasury(&admin, addr(50)),
        Ok(vec![Effect::TreasurySet { treasury: addr(50) }])
    );
    assert_eq!(t.manager.get_treasury(), Some(addr(50)));
    let mut fresh = EscrowManager::new();
    assert_eq!(fresh.set_treasury(&admin, addr(50)), Err(ContractError::Unauthorized));
    assert_eq!(fresh.get_treasury(), None);
}

#[test]
fn escrow_key_is_big_endian() {
    assert_eq!(escrow_key(1), vec![0, 0, 0, 0, 0, 0, 0, 1]);
    assert_eq!(escrow_key(0x0102030405060708), vec![1, 2, 3, 4, 5, 6, 7, 8]);
    assert_eq!(escrow_key(u64::MAX), vec![255; 8]);
}

#[test]
fn escrow_error_codes() {
    assert_eq!(ContractError::Unauthorized.code(), 1);
    assert_eq!(ContractError::PathPaymentFailed.code(), 8);
    assert_eq!(ContractError::InvalidOracleSet.code(), 10);
    assert_eq!(ContractError::InvalidThreshold.code(), 11);
}

#[test]
fn overflowing_estimate_or_fee_fails_the_release() {
    let mut t = setup();
    let lender = t.lender;
    let cfg = config(&t, i128::MAX / 2, addr(30), 1);
    let (converted, _) = must(t.manager.create_escrow(&lender, cfg, t.now));
    let cfg = config(&t, i128::MAX / 2, t.token_addr, 1);
    let (direct, _) = must(t.manager.create_escrow(&lender, cfg, t.now));
    set_oracle_confirmation(&mut t, converted, 2, true);
    set_oracle_confirmation(&mut t, direct, 2, true);

    t.manager.set_test_exchange_rate(3);
    let answer = t.answer(converted);
    assert_eq!(
        t.manager.release_funds_on_confirmation(converted, &answer, 0),
        Err(ContractError::PathPaymentFailed)
    );
    let answer = t.answer(direct);
    assert_eq!(
        t.manager.release_funds_on_confirmation(direct, &answer, 3),
        Err(ContractError::PathPaymentFailed)
    );
    assert_eq!(t.manager.get_escrow(direct).unwrap().status, EscrowStatus::Active);
    // With a fee of 2 basis points the product still fits.
    let effects = must(t.manager.release_funds_on_confirmation(direct, &answer, 2));
    assert!(effects.contains(&Effect::FeeCollected {
        escrow_id: direct,
        fee: (i128::MAX / 2) * 2 / 10000,
        asset: t.token_addr,
    }));
}
