//! The escrow manager: funds held against locked collateral, released to the
//! seller once an oracle confirms the required event, or refunded to the
//! lender after expiry.
//!
//! An escrow starts `Active` and ends either `Released` or `Refunded`; both
//! are final. Transitions return the effects to carry out, in order. A
//! transition that returns an error leaves the manager untouched and returns
//! no effect. Whoever carries the effects out has to carry out all of them or
//! none: where one fails, the new state must be dropped with it.
//!
//! Release asks for one verified confirmation of the required event type.
//! The number of confirmations and the set of oracles that an escrow names
//! are recorded and not consulted.

use vstd::prelude::*;
use crate::address::Address;
use crate::arith::{estimate_destination, fits_i128, protocol_fee, spec_estimate, spec_fee};
use crate::confirmation::{answer_confirms, spec_answer_confirms, ConfirmationData};

verus! {

/// Where an escrow stands in its life.
#[derive(Clone, Copy, Debug, PartialEq, Eq, Structural)]
pub enum EscrowStatus {
    Active,
    Released,
    Refunded,
}

/// Why an operation of the escrow manager was refused.
#[derive(Clone, Copy, Debug, PartialEq, Eq, Structural)]
pub enum ContractError {
    Unauthorized,
    AlreadyInitialized,
    EscrowNotFound,
    EscrowNotActive,
    InvalidAmount,
    ConfirmationNotMet,
    EscrowNotExpired,
    PathPaymentFailed,
    SlippageExceeded,
    InvalidOracleSet,
    InvalidThreshold,
}

impl ContractError {
    /// The number under which the error crosses the contract boundary.
    pub open spec fn spec_code(self) -> u32 {
        match self {
            ContractError::Unauthorized => 1,
            ContractError::AlreadyInitialized => 2,
            ContractError::EscrowNotFound => 3,
            ContractError::EscrowNotActive => 4,
            ContractError::InvalidAmount => 5,
            ContractError::ConfirmationNotMet => 6,
            ContractError::EscrowNotExpired => 7,
            ContractError::PathPaymentFailed => 8,
            ContractError::SlippageExceeded => 9,
            ContractError::InvalidOracleSet => 10,
            ContractError::InvalidThreshold => 11,
        }
    }

    /// The number under which the error crosses the contract boundary.
    pub fn code(&self) -> (res: u32)
        ensures
            res == self.spec_code(),
    {
        match self {
            ContractError::Unauthorized => 1,
            ContractError::AlreadyInitialized => 2,
            ContractError::EscrowNotFound => 3,
            ContractError::EscrowNotActive => 4,
            ContractError::InvalidAmount => 5,
            ContractError::ConfirmationNotMet => 6,
            ContractError::EscrowNotExpired => 7,
            ContractError::PathPaymentFailed => 8,
            ContractError::SlippageExceeded => 9,
            ContractError::InvalidOracleSet => 10,
            ContractError::InvalidThreshold => 11,
        }
    }
}

/// What a lender asks for when creating an escrow.
#[derive(Debug)]
pub struct EscrowConfig {
    pub buyer: Address,
    pub seller: Address,
    pub lender: Address,
    pub collateral_id: u64,
    pub amount: i128,
    pub asset: Address,
    /// The event type an oracle must confirm before release.
    pub required_confirmation: u32,
    pub expiry_ts: u64,
    /// The asset the seller is paid in.
    pub destination_asset: Address,
    /// The least the seller must receive in the destination asset.
    pub min_destination_amount: i128,
    /// Recorded for multi-oracle consensus; release asks for one matching
    /// verified confirmation whatever this says.
    pub required_confirmations: u32,
    /// Recorded for multi-oracle consensus; not consulted on release.
    pub oracle_set: Vec<Address>,
}

/// One entry of the escrow ledger.
#[derive(Debug)]
pub struct Escrow {
    pub id: u64,
    pub buyer: Address,
    pub seller: Address,
    pub lender: Address,
    pub collateral_id: u64,
    pub amount: i128,
    pub asset: Address,
    pub required_confirmation: u32,
    pub status: EscrowStatus,
    pub expiry_ts: u64,
    pub created_at: u64,
    pub destination_asset: Address,
    pub min_destination_amount: i128,
    pub required_confirmations: u32,
    pub oracle_set: Vec<Address>,
}

impl Escrow {
    /// The same escrow in another status.
    pub open spec fn with_status(self, status: EscrowStatus) -> Escrow {
        Escrow { status, ..self }
    }

    /// Whether the seller is paid in another asset than the one escrowed.
    pub open spec fn converts(self) -> bool {
        self.asset != self.destination_asset
    }
}

/// Something the ledger has to carry out, or record, for a transition that
/// succeeded.
#[derive(Clone, Copy, Debug, PartialEq, Eq)]
pub enum Effect {
    /// Call `lock_collateral` on the collateral registry.
    LockCollateral { registry: Address, collateral_id: u64 },
    /// Call `unlock_collateral` on the collateral registry.
    UnlockCollateral { registry: Address, collateral_id: u64 },
    /// Move tokens from an account into the manager's custody.
    TransferIn { asset: Address, from: Address, amount: i128 },
    /// Move tokens out of the manager's custody.
    TransferOut { asset: Address, to: Address, amount: i128 },
    /// Report a fee to the treasury. The fee is reported, not withheld from
    /// the payment.
    DepositFee { treasury: Address, asset: Address, amount: i128 },
    /// Event: the manager was initialised.
    Initialized { admin: Address },
    /// Event: the treasury was replaced.
    TreasurySet { treasury: Address },
    /// Event: an escrow was created.
    EscrowCreated { escrow_id: u64, buyer: Address, seller: Address, lender: Address, amount: i128 },
    /// Event: a cross-asset payment was made.
    PathPayment { escrow_id: u64, source_amount: i128, estimated_destination: i128 },
    /// Event: a fee was collected.
    FeeCollected { escrow_id: u64, fee: i128, asset: Address },
    /// Event: an escrow was released.
    EscrowReleased { escrow_id: u64 },
    /// Event: an escrow was refunded.
    EscrowRefunded { escrow_id: u64 },
}

/// The escrow ledger with its configuration.
#[derive(Debug)]
pub struct EscrowManager {
    pub admin: Option<Address>,
    pub collateral_registry: Option<Address>,
    pub oracle_adapter: Option<Address>,
    pub loan_management: Option<Address>,
    pub treasury: Option<Address>,
    /// The exchange rate for cross-asset estimates, with six decimals.
    pub exchange_rate: Option<i128>,
    /// Every escrow ever created, in order of creation.
    pub escrows: Vec<Escrow>,
}

/// The exchange rate that applies when none was set: one to one.
pub const DEFAULT_EXCHANGE_RATE: i128 = 1000000;

impl EscrowManager {
    /// The manager's invariant: escrows exist only once it is initialised,
    /// the escrow created n-th has id n, and every amount is positive.
    pub open spec fn wf(self) -> bool {
        &&& self.escrows@.len() <= u64::MAX
        &&& self.admin is None ==> {
            &&& self.collateral_registry is None
            &&& self.oracle_adapter is None
            &&& self.loan_management is None
            &&& self.treasury is None
        }
        &&& self.admin is Some ==> {
            &&& self.collateral_registry is Some
            &&& self.oracle_adapter is Some
            &&& self.loan_management is Some
            &&& self.treasury is Some
        }
        &&& self.collateral_registry is None ==> self.escrows@.len() == 0
        &&& forall|i: int|
            0 <= i < self.escrows@.len() ==> {
                &&& (#[trigger] self.escrows@[i]).id == i + 1
                &&& self.escrows@[i].amount > 0
                &&& self.escrows@[i].min_destination_amount > 0
            }
    }

    /// The id the next escrow will get.
    pub open spec fn next_id(self) -> nat {
        self.escrows@.len() + 1
    }

    /// Whether an escrow with this id was ever created.
    pub open spec fn has_escrow(self, escrow_id: u64) -> bool {
        1 <= escrow_id <= self.escrows@.len()
    }

    /// The escrow with this id.
    pub open spec fn escrow(self, escrow_id: u64) -> Escrow
        recommends
            self.has_escrow(escrow_id),
    {
        self.escrows@[escrow_id - 1]
    }

    /// Whether the escrow exists and has reached a final status.
    pub open spec fn settled(self, escrow_id: u64) -> bool {
        self.has_escrow(escrow_id) && self.escrow(escrow_id).status != EscrowStatus::Active
    }

    /// The exchange rate in force.
    pub open spec fn rate(self) -> i128 {
        match self.exchange_rate {
            Some(r) => r,
            None => DEFAULT_EXCHANGE_RATE,
        }
    }

    /// Whether the configuration of `other` is that of `self`.
    pub open spec fn same_settings(self, other: EscrowManager) -> bool {
        &&& self.admin == other.admin
        &&& self.collateral_registry == other.collateral_registry
        &&& self.oracle_adapter == other.oracle_adapter
        &&& self.loan_management == other.loan_management
        &&& self.treasury == other.treasury
        &&& self.exchange_rate == other.exchange_rate
    }

    /// Whether `later` can follow `self`: no escrow has disappeared, none has
    /// changed but in its status, and no final status has changed at all.
    pub open spec fn precedes(self, later: EscrowManager) -> bool {
        &&& self.escrows@.len() <= later.escrows@.len()
        &&& forall|i: int|
            0 <= i < self.escrows@.len() ==> {
                ||| (#[trigger] later.escrows@[i]) == self.escrows@[i]
                ||| (self.escrows@[i].status == EscrowStatus::Active && later.escrows@[i]
                    == self.escrows@[i].with_status(later.escrows@[i].status))
            }
    }

    /// Why creating an escrow is refused, if it is.
    pub open spec fn create_error(self, caller: Address, config: EscrowConfig) -> Option<
        ContractError,
    > {
        if caller != config.lender {
            Some(ContractError::Unauthorized)
        } else if config.amount <= 0 || config.min_destination_amount <= 0 {
            Some(ContractError::InvalidAmount)
        } else if self.collateral_registry is None {
            Some(ContractError::Unauthorized)
        } else {
            None
        }
    }

    /// The escrow that a configuration gives rise to.
    pub open spec fn created(config: EscrowConfig, escrow_id: u64, now: u64) -> Escrow {
        Escrow {
            id: escrow_id,
            buyer: config.buyer,
            seller: config.seller,
            lender: config.lender,
            collateral_id: config.collateral_id,
            amount: config.amount,
            asset: config.asset,
            required_confirmation: config.required_confirmation,
            status: EscrowStatus::Active,
            expiry_ts: config.expiry_ts,
            created_at: now,
            destination_asset: config.destination_asset,
            min_destination_amount: config.min_destination_amount,
            required_confirmations: config.required_confirmations,
            oracle_set: config.oracle_set,
        }
    }

    /// What creating an escrow sets off: the collateral is locked, the funds
    /// are pulled from the lender, the creation is announced.
    pub open spec fn creation_effects(registry: Address, escrow: Escrow) -> Seq<Effect> {
        seq![
            Effect::LockCollateral { registry, collateral_id: escrow.collateral_id },
            Effect::TransferIn { asset: escrow.asset, from: escrow.lender, amount: escrow.amount },
            Effect::EscrowCreated {
                escrow_id: escrow.id,
                buyer: escrow.buyer,
                seller: escrow.seller,
                lender: escrow.lender,
                amount: escrow.amount,
            },
        ]
    }

    /// Why releasing an escrow is refused, if it is. `answer` is what the
    /// oracle adapter holds for the escrow, `fee_bps` the treasury's fee.
    pub open spec fn release_error(
        self,
        escrow_id: u64,
        answer: Option<Vec<ConfirmationData>>,
        fee_bps: u32,
    ) -> Option<ContractError> {
        if !self.has_escrow(escrow_id) {
            Some(ContractError::EscrowNotFound)
        } else {
            let e = self.escrow(escrow_id);
            let estimate = spec_estimate(e.amount as int, self.rate() as int);
            if e.status != EscrowStatus::Active {
                Some(ContractError::EscrowNotActive)
            } else if self.oracle_adapter is None {
                Some(ContractError::Unauthorized)
            } else if !spec_answer_confirms(answer, e.required_confirmation) {
                Some(ContractError::ConfirmationNotMet)
            } else if e.converts() && estimate is None {
                Some(ContractError::PathPaymentFailed)
            } else if e.converts() && estimate->Some_0 < e.min_destination_amount {
                Some(ContractError::SlippageExceeded)
            } else if self.treasury is Some && spec_fee(e.amount as int, fee_bps as int) is None {
                Some(ContractError::PathPaymentFailed)
            } else if self.collateral_registry is None {
                Some(ContractError::Unauthorized)
            } else {
                None
            }
        }
    }

    /// What releasing an escrow sets off, in order: the seller is paid the
    /// full source amount; a cross-asset payment is announced with its
    /// estimate; a positive fee is reported to the treasury and announced;
    /// the collateral is unlocked; the release is announced.
    pub open spec fn release_effects(self, escrow_id: u64, fee_bps: u32) -> Seq<Effect> {
        let e = self.escrow(escrow_id);
        let estimate = spec_estimate(e.amount as int, self.rate() as int)->Some_0;
        let fee = spec_fee(e.amount as int, fee_bps as int)->Some_0;
        let paid = seq![Effect::TransferOut { asset: e.asset, to: e.seller, amount: e.amount }];
        let announced = if e.converts() {
            paid.push(
                Effect::PathPayment {
                    escrow_id,
                    source_amount: e.amount,
                    estimated_destination: estimate as i128,
                },
            )
        } else {
            paid
        };
        let charged = if self.treasury is Some && fee > 0 {
            announced.push(
                Effect::DepositFee {
                    treasury: self.treasury->Some_0,
                    asset: e.asset,
                    amount: fee as i128,
                },
            ).push(Effect::FeeCollected { escrow_id, fee: fee as i128, asset: e.asset })
        } else {
            announced
        };
        charged.push(
            Effect::UnlockCollateral {
                registry: self.collateral_registry->Some_0,
                collateral_id: e.collateral_id,
            },
        ).push(Effect::EscrowReleased { escrow_id })
    }

    /// Why refunding an escrow is refused, if it is.
    pub open spec fn refund_error(self, escrow_id: u64, now: u64) -> Option<ContractError> {
        if !self.has_escrow(escrow_id) {
            Some(ContractError::EscrowNotFound)
        } else {
            let e = self.escrow(escrow_id);
            if e.status != EscrowStatus::Active {
                Some(ContractError::EscrowNotActive)
            } else if now <= e.expiry_ts {
                Some(ContractError::EscrowNotExpired)
            } else if self.collateral_registry is None {
                Some(ContractError::Unauthorized)
            } else {
                None
            }
        }
    }

    /// What refunding an escrow sets off: the lender gets the full amount
    /// back, the collateral is unlocked, the refund is announced.
    pub open spec fn refund_effects(self, escrow_id: u64) -> Seq<Effect> {
        let e = self.escrow(escrow_id);
        seq![
            Effect::TransferOut { asset: e.asset, to: e.lender, amount: e.amount },
            Effect::UnlockCollateral {
                registry: self.collateral_registry->Some_0,
                collateral_id: e.collateral_id,
            },
            Effect::EscrowRefunded { escrow_id },
        ]
    }

    /// A manager that was not initialised yet and holds no escrow.
    pub fn new() -> (res: EscrowManager)
        ensures
            res.wf(),
            res.admin is None,
            res.exchange_rate is None,
            res.escrows@.len() == 0,
            res.next_id() == 1,
    {
        EscrowManager {
            admin: None,
            collateral_registry: None,
            oracle_adapter: None,
            loan_management: None,
            treasury: None,
            exchange_rate: None,
            escrows: Vec::new(),
        }
    }

    /// Sets the admin and the addresses of the collaborating contracts.
    /// Works once: a second call fails with `AlreadyInitialized`.
    pub fn initialize(
        &mut self,
        admin: Address,
        collateral_registry: Address,
        oracle_adapter: Address,
        loan_management: Address,
        treasury: Address,
    ) -> (res: Result<Vec<Effect>, ContractError>)
        requires
            old(self).wf(),
        ensures
            final(self).wf(),
            old(self).precedes(*final(self)),
            final(self).escrows == old(self).escrows,
            final(self).exchange_rate == old(self).exchange_rate,
            old(self).admin is Some ==> res == Err::<Vec<Effect>, ContractError>(
                ContractError::AlreadyInitialized,
            ) && *final(self) == *old(self),
            old(self).admin is None ==> {
                &&& res is Ok
                &&& res->Ok_0@ == seq![Effect::Initialized { admin }]
                &&& final(self).admin == Some(admin)
                &&& final(self).collateral_registry == Some(collateral_registry)
                &&& final(self).oracle_adapter == Some(oracle_adapter)
                &&& final(self).loan_management == Some(loan_management)
                &&& final(self).treasury == Some(treasury)
            },
    {
        if self.admin.is_some() {
            return Err(ContractError::AlreadyInitialized);
        }
        self.admin = Some(admin);
        self.collateral_registry = Some(collateral_registry);
        self.oracle_adapter = Some(oracle_adapter);
        self.loan_management = Some(loan_management);
        self.treasury = Some(treasury);
        let mut effects: Vec<Effect> = Vec::new();
        effects.push(Effect::Initialized { admin });
        Ok(effects)
    }

    /// Replaces the treasury. Only the admin may: any other caller, and any
    /// caller of a manager without admin, gets `Unauthorized`.
    pub fn set_treasury(&mut self, caller: &Address, treasury: Address) -> (res: Result<
        Vec<Effect>,
        ContractError,
    >)
        requires
            old(self).wf(),
        ensures
            final(self).wf(),
            old(self).precedes(*final(self)),
            final(self).escrows == old(self).escrows,
            old(self).admin != Some(*caller) ==> res == Err::<Vec<Effect>, ContractError>(
                ContractError::Unauthorized,
            ) && *final(self) == *old(self),
            old(self).admin == Some(*caller) ==> {
                &&& res is Ok
                &&& res->Ok_0@ == seq![Effect::TreasurySet { treasury }]
                &&& final(self).treasury == Some(treasury)
                &&& final(self).admin == old(self).admin
                &&& final(self).collateral_registry == old(self).collateral_registry
                &&& final(self).oracle_adapter == old(self).oracle_adapter
                &&& final(self).loan_management == old(self).loan_management
                &&& final(self).exchange_rate == old(self).exchange_rate
            },
    {
        match self.admin {
            None => Err(ContractError::Unauthorized),
            Some(admin) => {
                if !admin.same(caller) {
                    return Err(ContractError::Unauthorized);
                }
                self.treasury = Some(treasury);
                let mut effects: Vec<Effect> = Vec::new();
                effects.push(Effect::TreasurySet { treasury });
                Ok(effects)
            },
        }
    }

    /// The treasury, if one is configured.
    pub fn get_treasury(&self) -> (res: Option<Address>)
        ensures
            res == self.treasury,
    {
        self.treasury
    }

    /// Sets the exchange rate used to estimate cross-asset payments, as a
    /// fixed-point number with six decimals: 1_000_000 is one to one.
    pub fn set_test_exchange_rate(&mut self, rate: i128)
        requires
            old(self).wf(),
        ensures
            final(self).wf(),
            old(self).precedes(*final(self)),
            final(self).exchange_rate == Some(rate),
            final(self).escrows == old(self).escrows,
            final(self).admin == old(self).admin,
            final(self).collateral_registry == old(self).collateral_registry,
            final(self).oracle_adapter == old(self).oracle_adapter,
            final(self).loan_management == old(self).loan_management,
            final(self).treasury == old(self).treasury,
    {
        self.exchange_rate = Some(rate);
    }

    /// The escrow with this id, if it was ever created.
    pub fn get_escrow(&self, escrow_id: u64) -> (res: Option<&Escrow>)
        ensures
            self.has_escrow(escrow_id) ==> res == Some(&self.escrow(escrow_id)),
            !self.has_escrow(escrow_id) ==> res is None,
    {
        if escrow_id == 0 || escrow_id > self.escrows.len() as u64 {
            None
        } else {
            Some(&self.escrows[(escrow_id - 1) as usize])
        }
    }

    /// Estimates what `source_amount` converts to at the rate in force:
    /// `source_amount * rate / 1_000_000`, truncated toward zero. Fails with
    /// `PathPaymentFailed` when the product overflows.
    pub fn estimate_path_payment(&self, source_amount: i128) -> (res: Result<i128, ContractError>)
        ensures
            match spec_estimate(source_amount as int, self.rate() as int) {
                Some(v) => res == Ok::<i128, ContractError>(v as i128) && fits_i128(v),
                None => res == Err::<i128, ContractError>(ContractError::PathPaymentFailed),
            },
    {
        let rate: i128 = match self.exchange_rate {
            Some(r) => r,
            None => DEFAULT_EXCHANGE_RATE,
        };
        match estimate_destination(source_amount, rate) {
            Some(v) => Ok(v),
            None => Err(ContractError::PathPaymentFailed),
        }
    }

    /// Creates an escrow for the lender who authorised the call and returns
    /// its id with the effects to carry out.
    ///
    /// Refused with `Unauthorized` unless the caller is the lender, with
    /// `InvalidAmount` unless both amounts are positive, and with
    /// `Unauthorized` on a manager that was never initialised. The ids are
    /// 1, 2, 3, ... in order of creation; a refused call mints none.
    pub fn create_escrow(&mut self, caller: &Address, config: EscrowConfig, now: u64) -> (res:
        Result<(u64, Vec<Effect>), ContractError>)
        requires
            old(self).wf(),
            old(self).escrows@.len() < u64::MAX,
        ensures
            final(self).wf(),
            old(self).precedes(*final(self)),
            old(self).same_settings(*final(self)),
            match old(self).create_error(*caller, config) {
                Some(e) => res == Err::<(u64, Vec<Effect>), ContractError>(e) && *final(self)
                    == *old(self),
                None => {
                    &&& res is Ok
                    &&& res->Ok_0.0 == old(self).next_id()
                    &&& final(self).next_id() == old(self).next_id() + 1
                    &&& final(self).escrows@ == old(self).escrows@.push(
                        Self::created(config, res->Ok_0.0, now),
                    )
                    &&& res->Ok_0.1@ == Self::creation_effects(
                        old(self).collateral_registry->Some_0,
                        Self::created(config, res->Ok_0.0, now),
                    )
                },
            },
    {
        if !caller.same(&config.lender) {
            return Err(ContractError::Unauthorized);
        }
        if config.amount <= 0 || config.min_destination_amount <= 0 {
            return Err(ContractError::InvalidAmount);
        }
        let registry: Address = match self.collateral_registry {
            Some(r) => r,
            None => {
                return Err(ContractError::Unauthorized);
            },
        };
        let escrow_id: u64 = self.escrows.len() as u64 + 1;
        let escrow = Escrow {
            id: escrow_id,
            buyer: config.buyer,
            seller: config.seller,
            lender: config.lender,
            collateral_id: config.collateral_id,
            amount: config.amount,
            asset: config.asset,
            required_confirmation: config.required_confirmation,
            status: EscrowStatus::Active,
            expiry_ts: config.expiry_ts,
            created_at: now,
            destination_asset: config.destination_asset,
            min_destination_amount: config.min_destination_amount,
            required_confirmations: config.required_confirmations,
            oracle_set: config.oracle_set,
        };
        let mut effects: Vec<Effect> = Vec::new();
        effects.push(Effect::LockCollateral { registry, collateral_id: escrow.collateral_id });
        effects.push(
            Effect::TransferIn { asset: escrow.asset, from: escrow.lender, amount: escrow.amount },
        );
        effects.push(
            Effect::EscrowCreated {
                escrow_id,
                buyer: escrow.buyer,
                seller: escrow.seller,
                lender: escrow.lender,
                amount: escrow.amount,
            },
        );
        proof {
            assert(effects@ =~= Self::creation_effects(registry, escrow));
        }
        self.escrows.push(escrow);
        Ok((escrow_id, effects))
    }

    /// Pays an active escrow out to the seller once an oracle has confirmed
    /// the required event. `answer` is what the oracle adapter holds for the
    /// escrow; `fee_bps` is the fee the treasury asks, in basis points.
    ///
    /// The errors, in the order in which they are checked: `EscrowNotFound`;
    /// `EscrowNotActive`; `ConfirmationNotMet` unless the answer holds a
    /// verified confirmation of the required event type; for a cross-asset
    /// payment `PathPaymentFailed` when the estimate overflows and
    /// `SlippageExceeded` when it is below the seller's floor;
    /// `PathPaymentFailed` when the fee overflows. Otherwise the escrow
    /// becomes `Released`, for good.
    pub fn release_funds_on_confirmation(
        &mut self,
        escrow_id: u64,
        answer: &Option<Vec<ConfirmationData>>,
        fee_bps: u32,
    ) -> (res: Result<Vec<Effect>, ContractError>)
        requires
            old(self).wf(),
        ensures
            final(self).wf(),
            old(self).precedes(*final(self)),
            old(self).same_settings(*final(self)),
            match old(self).release_error(escrow_id, *answer, fee_bps) {
                Some(e) => res == Err::<Vec<Effect>, ContractError>(e) && *final(self) == *old(
                    self,
                ),
                None => {
                    &&& res is Ok
                    &&& res->Ok_0@ == old(self).release_effects(escrow_id, fee_bps)
                    &&& final(self).escrows@ == old(self).escrows@.update(
                        escrow_id - 1,
                        old(self).escrow(escrow_id).with_status(EscrowStatus::Released),
                    )
                    &&& final(self).settled(escrow_id)
                },
            },
    {
        if escrow_id == 0 || escrow_id > self.escrows.len() as u64 {
            return Err(ContractError::EscrowNotFound);
        }
        let idx: usize = (escrow_id - 1) as usize;
        let mut effects: Vec<Effect> = Vec::new();
        {
            let e = &self.escrows[idx];
            if e.status != EscrowStatus::Active {
                return Err(ContractError::EscrowNotActive);
            }
            if self.oracle_adapter.is_none() {
                return Err(ContractError::Unauthorized);
            }
            if !answer_confirms(answer, e.required_confirmation) {
                return Err(ContractError::ConfirmationNotMet);
            }
            effects.push(Effect::TransferOut { asset: e.asset, to: e.seller, amount: e.amount });
            if !e.asset.same(&e.destination_asset) {
                let estimate: i128 = match self.estimate_path_payment(e.amount) {
                    Ok(v) => v,
                    Err(err) => {
                        return Err(err);
                    },
                };
                if estimate < e.min_destination_amount {
                    return Err(ContractError::SlippageExceeded);
                }
                effects.push(
                    Effect::PathPayment {
                        escrow_id,
                        source_amount: e.amount,
                        estimated_destination: estimate,
                    },
                );
            }
            match self.treasury {
                None => {},
                Some(treasury) => {
                    let fee: i128 = match protocol_fee(e.amount, fee_bps) {
                        Some(f) => f,
                        None => {
                            return Err(ContractError::PathPaymentFailed);
                        },
                    };
                    if fee > 0 {
                        effects.push(Effect::DepositFee { treasury, asset: e.asset, amount: fee });
                        effects.push(Effect::FeeCollected { escrow_id, fee, asset: e.asset });
                    }
                },
            }
            let registry: Address = match self.collateral_registry {
                Some(r) => r,
                None => {
                    return Err(ContractError::Unauthorized);
                },
            };
            effects.push(Effect::UnlockCollateral { registry, collateral_id: e.collateral_id });
            effects.push(Effect::EscrowReleased { escrow_id });
        }
        self.escrows[idx].status = EscrowStatus::Released;
        Ok(effects)
    }

    /// Returns the funds of an active escrow to the lender once it has
    /// expired. Anyone may call it.
    ///
    /// The errors, in the order in which they are checked: `EscrowNotFound`;
    /// `EscrowNotActive`; `EscrowNotExpired` while `now <= expiry_ts`.
    /// Otherwise the escrow becomes `Refunded`, for good.
    pub fn refund_escrow(&mut self, escrow_id: u64, now: u64) -> (res: Result<
        Vec<Effect>,
        ContractError,
    >)
        requires
            old(self).wf(),
        ensures
            final(self).wf(),
            old(self).precedes(*final(self)),
            old(self).same_settings(*final(self)),
            match old(self).refund_error(escrow_id, now) {
                Some(e) => res == Err::<Vec<Effect>, ContractError>(e) && *final(self) == *old(
                    self,
                ),
                None => {
                    &&& res is Ok
                    &&& res->Ok_0@ == old(self).refund_effects(escrow_id)
                    &&& final(self).escrows@ == old(self).escrows@.update(
                        escrow_id - 1,
                        old(self).escrow(escrow_id).with_status(EscrowStatus::Refunded),
                    )
                    &&& final(self).settled(escrow_id)
                },
            },
    {
        if escrow_id == 0 || escrow_id > self.escrows.len() as u64 {
            return Err(ContractError::EscrowNotFound);
        }
        let idx: usize = (escrow_id - 1) as usize;
        let mut effects: Vec<Effect> = Vec::new();
        {
            let e = &self.escrows[idx];
            if e.status != EscrowStatus::Active {
                return Err(ContractError::EscrowNotActive);
            }
            if now <= e.expiry_ts {
                return Err(ContractError::EscrowNotExpired);
            }
            let registry: Address = match self.collateral_registry {
                Some(r) => r,
                None => {
                    return Err(ContractError::Unauthorized);
                },
            };
            effects.push(Effect::TransferOut { asset: e.asset, to: e.lender, amount: e.amount });
            effects.push(Effect::UnlockCollateral { registry, collateral_id: e.collateral_id });
            effects.push(Effect::EscrowRefunded { escrow_id });
        }
        proof {
            assert(effects@ =~= self.refund_effects(escrow_id));
        }
        self.escrows[idx].status = EscrowStatus::Refunded;
        Ok(effects)
    }
}

/// The eight bytes of an escrow id, most significant first. This is the key
/// under which the oracle adapter files the confirmations for the escrow.
pub open spec fn spec_escrow_key(escrow_id: u64) -> Seq<u8> {
    seq![
        (escrow_id / 0x100_0000_0000_0000) as u8,
        ((escrow_id / 0x1_0000_0000_0000) % 0x100) as u8,
        ((escrow_id / 0x100_0000_0000) % 0x100) as u8,
        ((escrow_id / 0x1_0000_0000) % 0x100) as u8,
        ((escrow_id / 0x100_0000) % 0x100) as u8,
        ((escrow_id / 0x1_0000) % 0x100) as u8,
        ((escrow_id / 0x100) % 0x100) as u8,
        (escrow_id % 0x100) as u8,
    ]
}

/// The key under which to ask the oracle adapter for the confirmations of an
/// escrow: the id as eight big-endian bytes.
pub fn escrow_key(escrow_id: u64) -> (res: Vec<u8>)
    ensures
        res@ == spec_escrow_key(escrow_id),
{
    let mut key: Vec<u8> = Vec::new();
    key.push((escrow_id / 0x100_0000_0000_0000) as u8);
    key.push(((escrow_id / 0x1_0000_0000_0000) % 0x100) as u8);
    key.push(((escrow_id / 0x100_0000_0000) % 0x100) as u8);
    key.push(((escrow_id / 0x1_0000_0000) % 0x100) as u8);
    key.push(((escrow_id / 0x100_0000) % 0x100) as u8);
    key.push(((escrow_id / 0x1_0000) % 0x100) as u8);
    key.push(((escrow_id / 0x100) % 0x100) as u8);
    key.push((escrow_id % 0x100) as u8);
    proof {
        assert(key@ =~= spec_escrow_key(escrow_id));
    }
    key
}

/// Every manager can follow itself.
pub proof fn precedes_is_reflexive(m: EscrowManager)
    ensures
        m.precedes(m),
{
}

/// What can follow a manager that can follow another can follow the other.
pub proof fn precedes_is_transitive(a: EscrowManager, b: EscrowManager, c: EscrowManager)
    requires
        a.precedes(b),
        b.precedes(c),
    ensures
        a.precedes(c),
{
    assert forall|i: int| 0 <= i < a.escrows@.len() implies {
        ||| (#[trigger] c.escrows@[i]) == a.escrows@[i]
        ||| (a.escrows@[i].status == EscrowStatus::Active && c.escrows@[i]
            == a.escrows@[i].with_status(c.escrows@[i].status))
    } by {
        let x = a.escrows@[i];
        let y = b.escrows@[i];
        let z = c.escrows@[i];
        assert(y == x || (x.status == EscrowStatus::Active && y == x.with_status(y.status)));
        assert(z == y || (y.status == EscrowStatus::Active && z == y.with_status(z.status)));
    }
}

/// An escrow that was released or refunded stays as it is in every later
/// state of the manager, and every later attempt to release or refund it is
/// refused with `EscrowNotActive`: of the two ways out of `Active`, at most
/// one is ever taken, and it is taken once.
pub proof fn settled_escrow_stays_settled(
    before: EscrowManager,
    later: EscrowManager,
    escrow_id: u64,
    answer: Option<Vec<ConfirmationData>>,
    fee_bps: u32,
    now: u64,
)
    requires
        before.precedes(later),
        before.settled(escrow_id),
    ensures
        later.settled(escrow_id),
        later.escrow(escrow_id) == before.escrow(escrow_id),
        later.release_error(escrow_id, answer, fee_bps) == Some(ContractError::EscrowNotActive),
        later.refund_error(escrow_id, now) == Some(ContractError::EscrowNotActive),
{
    let i = escrow_id - 1;
    assert(later.escrows@[i] == before.escrows@[i] || (before.escrows@[i].status
        == EscrowStatus::Active && later.escrows@[i] == before.escrows@[i].with_status(
        later.escrows@[i].status,
    )));
}

/// Of release and refund only one goes through for an escrow: in the state
/// that a release or a refund leaves behind, both are refused with
/// `EscrowNotActive`, whatever the oracles say and whatever the time.
pub proof fn release_and_refund_exclude_each_other(
    before: EscrowManager,
    after: EscrowManager,
    escrow_id: u64,
    status: EscrowStatus,
    answer: Option<Vec<ConfirmationData>>,
    fee_bps: u32,
    now: u64,
)
    requires
        before.has_escrow(escrow_id),
        status != EscrowStatus::Active,
        after.escrows@ == before.escrows@.update(
            escrow_id - 1,
            before.escrow(escrow_id).with_status(status),
        ),
    ensures
        after.release_error(escrow_id, answer, fee_bps) == Some(ContractError::EscrowNotActive),
        after.refund_error(escrow_id, now) == Some(ContractError::EscrowNotActive),
{
}

/// An active escrow can be refunded exactly when its expiry lies in the
/// past: up to and including `expiry_ts` the refund is refused with
/// `EscrowNotExpired`, after it the refund goes through.
pub proof fn refund_waits_for_expiry(m: EscrowManager, escrow_id: u64, now: u64)
    requires
        m.wf(),
        m.has_escrow(escrow_id),
        m.escrow(escrow_id).status == EscrowStatus::Active,
    ensures
        now <= m.escrow(escrow_id).expiry_ts ==> m.refund_error(escrow_id, now) == Some(
            ContractError::EscrowNotExpired,
        ),
        now > m.escrow(escrow_id).expiry_ts ==> m.refund_error(escrow_id, now) is None,
{
}

/// An active escrow is not released without a verified confirmation of the
/// event type it asks for, and a same-asset escrow whose fee can be computed
/// is released with one.
pub proof fn release_waits_for_confirmation(
    m: EscrowManager,
    escrow_id: u64,
    answer: Option<Vec<ConfirmationData>>,
    fee_bps: u32,
)
    requires
        m.wf(),
        m.has_escrow(escrow_id),
        m.escrow(escrow_id).status == EscrowStatus::Active,
    ensures
        !spec_answer_confirms(answer, m.escrow(escrow_id).required_confirmation)
            ==> m.release_error(escrow_id, answer, fee_bps) == Some(
            ContractError::ConfirmationNotMet,
        ),
        spec_answer_confirms(answer, m.escrow(escrow_id).required_confirmation) && !m.escrow(
            escrow_id,
        ).converts() && spec_fee(m.escrow(escrow_id).amount as int, fee_bps as int) is Some
            ==> m.release_error(escrow_id, answer, fee_bps) is None,
{
}

/// A confirmed cross-asset release is refused with `SlippageExceeded` when
/// the estimated destination amount is below the seller's floor, and goes
/// through at or above it when the fee can be computed.
pub proof fn release_respects_slippage_floor(
    m: EscrowManager,
    escrow_id: u64,
    answer: Option<Vec<ConfirmationData>>,
    fee_bps: u32,
)
    requires
        m.wf(),
        m.has_escrow(escrow_id),
        m.escrow(escrow_id).status == EscrowStatus::Active,
        m.escrow(escrow_id).converts(),
        spec_answer_confirms(answer, m.escrow(escrow_id).required_confirmation),
        spec_estimate(m.escrow(escrow_id).amount as int, m.rate() as int) is Some,
    ensures
        spec_estimate(m.escrow(escrow_id).amount as int, m.rate() as int)->Some_0 < m.escrow(
            escrow_id,
        ).min_destination_amount ==> m.release_error(escrow_id, answer, fee_bps) == Some(
            ContractError::SlippageExceeded,
        ),
        spec_estimate(m.escrow(escrow_id).amount as int, m.rate() as int)->Some_0 >= m.escrow(
            escrow_id,
        ).min_destination_amount && spec_fee(m.escrow(escrow_id).amount as int, fee_bps as int)
            is Some ==> m.release_error(escrow_id, answer, fee_bps) is None,
{
}

/// The ids in the ledger are 1, 2, 3, ... without gap or repetition, and
/// the id to be minted next never goes down.
pub proof fn ids_are_dense_and_increasing(before: EscrowManager, later: EscrowManager)
    requires
        before.wf(),
        later.wf(),
        before.precedes(later),
    ensures
        forall|id: u64| #[trigger] later.has_escrow(id) ==> later.escrow(id).id == id,
        forall|id: u64| #[trigger] later.has_escrow(id) <==> 1 <= id < later.next_id(),
        before.next_id() <= later.next_id(),
        forall|id: u64| #[trigger]
            before.has_escrow(id) ==> later.has_escrow(id) && later.escrow(id).id
                == before.escrow(id).id,
{
    assert forall|id: u64| #[trigger] before.has_escrow(id) implies later.has_escrow(id)
        && later.escrow(id).id == before.escrow(id).id by {
        let i = id - 1;
        assert(later.escrows@[i].id == i + 1);
        assert(before.escrows@[i].id == i + 1);
    }
}

} // verus!
