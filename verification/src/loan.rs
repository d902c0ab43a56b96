//! Loan management: one loan per escrow, repaid with interest before its
//! deadline, or marked as defaulted or liquidated.
//!
//! A loan starts `Active` and ends `Repaid`, `Defaulted` or `Liquidated`;
//! each of the three is final. A transition that returns an error leaves the
//! book untouched.

use vstd::prelude::*;
use crate::address::Address;
use crate::arith::{checked_total_due, fits_i128, spec_total_due};

verus! {

/// Where a loan stands in its life.
#[derive(Clone, Copy, Debug, PartialEq, Eq, Structural)]
pub enum LoanStatus {
    Active,
    Repaid,
    Defaulted,
    Liquidated,
}

/// Why an operation of the loan book was refused.
#[derive(Clone, Copy, Debug, PartialEq, Eq, Structural)]
pub enum ContractError {
    Unauthorized,
    AlreadyInitialized,
    LoanNotFound,
    LoanAlreadyIssued,
    LoanNotActive,
    DeadlineNotPassed,
    DeadlinePassed,
    InsufficientAmount,
    MathOverflow,
}

impl ContractError {
    /// The number under which the error crosses the contract boundary.
    pub open spec fn spec_code(self) -> u32 {
        match self {
            ContractError::Unauthorized => 1,
            ContractError::AlreadyInitialized => 2,
            ContractError::LoanNotFound => 3,
            ContractError::LoanAlreadyIssued => 4,
            ContractError::LoanNotActive => 5,
            ContractError::DeadlineNotPassed => 6,
            ContractError::DeadlinePassed => 7,
            ContractError::InsufficientAmount => 8,
            ContractError::MathOverflow => 9,
        }
    }

    /// The number under which the error crosses the contract boundary.
    pub fn code(&self) -> (res: u32)
        ensures
            res == self.spec_code(),
    {
        match self {
            ContractError::Unauthorized => 1,
            ContractError::AlreadyInitialized => 2,
            ContractError::LoanNotFound => 3,
            ContractError::LoanAlreadyIssued => 4,
            ContractError::LoanNotActive => 5,
            ContractError::DeadlineNotPassed => 6,
            ContractError::DeadlinePassed => 7,
            ContractError::InsufficientAmount => 8,
            ContractError::MathOverflow => 9,
        }
    }
}

/// One entry of the loan book.
#[derive(Clone, Copy, Debug, PartialEq, Eq)]
pub struct Loan {
    pub id: u64,
    pub escrow_id: u64,
    pub borrower: Address,
    pub lender: Address,
    pub amount: i128,
    /// The interest rate in basis points: 500 is five percent.
    pub interest_rate: u32,
    /// The time up to which the loan can be repaid.
    pub deadline: u64,
    pub status: LoanStatus,
}

impl Loan {
    /// The same loan in another status.
    pub open spec fn with_status(self, status: LoanStatus) -> Loan {
        Loan { status, ..self }
    }

    /// What the borrower owes: the amount plus `amount * interest_rate /
    /// 10000`, the quotient truncated toward zero.
    pub open spec fn total_due(self) -> int {
        spec_total_due(self.amount as int, self.interest_rate as int)
    }

    /// Whether what the borrower owes cannot be computed in 128 bits: the
    /// product `amount * interest_rate` or the total leaves the signed
    /// range.
    pub open spec fn overflows(self) -> bool {
        !fits_i128(self.amount * self.interest_rate) || !fits_i128(self.total_due())
    }
}

/// What the loan book announces when a transition succeeds.
#[derive(Clone, Copy, Debug, PartialEq, Eq)]
pub enum LoanEvent {
    LoanIssued {
        loan_id: u64,
        escrow_id: u64,
        borrower: Address,
        lender: Address,
        amount: i128,
        deadline: u64,
    },
    LoanRepaid { loan_id: u64, amount: i128 },
    LoanDefaulted { loan_id: u64 },
    LoanLiquidated { loan_id: u64, liquidator: Address },
    RiskEngineSet { risk_engine: Address },
}

/// The loan book with its configuration.
#[derive(Debug)]
pub struct LoanManagement {
    pub admin: Option<Address>,
    /// The only party that may mark a loan as liquidated.
    pub risk_engine: Option<Address>,
    /// Every loan ever issued, in order of issue.
    pub loans: Vec<Loan>,
}

impl LoanManagement {
    /// The book's invariant: the loan issued n-th has id n, and no two
    /// loans are backed by the same escrow.
    pub open spec fn wf(self) -> bool {
        &&& self.loans@.len() <= u64::MAX
        &&& forall|i: int| 0 <= i < self.loans@.len() ==> (#[trigger] self.loans@[i]).id == i + 1
        &&& forall|i: int, j: int|
            0 <= i < j < self.loans@.len() ==> (#[trigger] self.loans@[i]).escrow_id != (
            #[trigger] self.loans@[j]).escrow_id
    }

    /// The id the next loan will get.
    pub open spec fn next_id(self) -> nat {
        self.loans@.len() + 1
    }

    /// Whether a loan with this id was ever issued.
    pub open spec fn has_loan(self, loan_id: u64) -> bool {
        1 <= loan_id <= self.loans@.len()
    }

    /// The loan with this id.
    pub open spec fn loan(self, loan_id: u64) -> Loan
        recommends
            self.has_loan(loan_id),
    {
        self.loans@[loan_id - 1]
    }

    /// Whether some loan is backed by this escrow.
    pub open spec fn escrow_has_loan(self, escrow_id: u64) -> bool {
        exists|i: int| 0 <= i < self.loans@.len() && (#[trigger] self.loans@[i]).escrow_id == escrow_id
    }

    /// Whether `later` can follow `self`: no loan has disappeared, none has
    /// changed but in its status, and no final status has changed at all.
    pub open spec fn precedes(self, later: LoanManagement) -> bool {
        &&& self.loans@.len() <= later.loans@.len()
        &&& forall|i: int|
            0 <= i < self.loans@.len() ==> {
                ||| (#[trigger] later.loans@[i]) == self.loans@[i]
                ||| (self.loans@[i].status == LoanStatus::Active && later.loans@[i]
                    == self.loans@[i].with_status(later.loans@[i].status))
            }
    }

    /// Why issuing a loan is refused, if it is.
    pub open spec fn issue_error(
        self,
        caller: Address,
        escrow_id: u64,
        lender: Address,
        duration: u64,
        now: u64,
    ) -> Option<ContractError> {
        if caller != lender {
            Some(ContractError::Unauthorized)
        } else if self.escrow_has_loan(escrow_id) {
            Some(ContractError::LoanAlreadyIssued)
        } else if now + duration > u64::MAX {
            Some(ContractError::LoanNotActive)
        } else if self.next_id() > u64::MAX {
            Some(ContractError::MathOverflow)
        } else {
            None
        }
    }

    /// Why a repayment is refused, if it is.
    pub open spec fn repay_error(self, caller: Address, loan_id: u64, amount: i128, now: u64)
        -> Option<ContractError> {
        if !self.has_loan(loan_id) {
            Some(ContractError::LoanNotFound)
        } else {
            let loan = self.loan(loan_id);
            if caller != loan.borrower {
                Some(ContractError::Unauthorized)
            } else if loan.status != LoanStatus::Active {
                Some(ContractError::LoanNotActive)
            } else if now > loan.deadline {
                Some(ContractError::DeadlinePassed)
            } else if loan.overflows() {
                Some(ContractError::MathOverflow)
            } else if amount < loan.total_due() {
                Some(ContractError::InsufficientAmount)
            } else {
                None
            }
        }
    }

    /// Why marking a loan as defaulted is refused, if it is.
    pub open spec fn default_error(self, loan_id: u64, now: u64) -> Option<ContractError> {
        if !self.has_loan(loan_id) {
            Some(ContractError::LoanNotFound)
        } else if self.loan(loan_id).status != LoanStatus::Active {
            Some(ContractError::LoanNotActive)
        } else if now <= self.loan(loan_id).deadline {
            Some(ContractError::DeadlineNotPassed)
        } else {
            None
        }
    }

    /// Why marking a loan as liquidated is refused, if it is.
    pub open spec fn liquidate_error(self, caller: Address, loan_id: u64) -> Option<
        ContractError,
    > {
        if self.risk_engine != Some(caller) {
            Some(ContractError::Unauthorized)
        } else if !self.has_loan(loan_id) {
            Some(ContractError::LoanNotFound)
        } else if self.loan(loan_id).status != LoanStatus::Active {
            Some(ContractError::LoanNotActive)
        } else {
            None
        }
    }

    /// A book without admin, risk engine or loans.
    pub fn new() -> (res: LoanManagement)
        ensures
            res.wf(),
            res.admin is None,
            res.risk_engine is None,
            res.loans@.len() == 0,
            res.next_id() == 1,
    {
        LoanManagement { admin: None, risk_engine: None, loans: Vec::new() }
    }

    /// Sets the admin. Works once: a second call fails with
    /// `AlreadyInitialized`.
    pub fn initialize(&mut self, admin: Address) -> (res: Result<(), ContractError>)
        requires
            old(self).wf(),
        ensures
            final(self).wf(),
            final(self).loans == old(self).loans,
            final(self).risk_engine == old(self).risk_engine,
            old(self).admin is Some ==> res == Err::<(), ContractError>(
                ContractError::AlreadyInitialized,
            ) && final(self).admin == old(self).admin,
            old(self).admin is None ==> res == Ok::<(), ContractError>(()) && final(self).admin
                == Some(admin),
    {
        if self.admin.is_some() {
            return Err(ContractError::AlreadyInitialized);
        }
        self.admin = Some(admin);
        Ok(())
    }

    /// The index of the loan backed by `escrow_id`, if there is one.
    fn find_by_escrow(&self, escrow_id: u64) -> (res: Option<usize>)
        ensures
            match res {
                Some(i) => i < self.loans@.len() && self.loans@[i as int].escrow_id == escrow_id,
                None => !self.escrow_has_loan(escrow_id),
            },
    {
        let mut i: usize = 0;
        while i < self.loans.len()
            invariant
                i <= self.loans@.len(),
                forall|j: int| 0 <= j < i ==> (#[trigger] self.loans@[j]).escrow_id != escrow_id,
            decreases self.loans@.len() - i,
        {
            if self.loans[i].escrow_id == escrow_id {
                return Some(i);
            }
            i += 1;
        }
        None
    }

    /// Issues a loan against an escrow for the lender who authorised the
    /// call, and returns its id with the event to publish.
    ///
    /// Refused with `Unauthorized` unless the caller is the lender, with
    /// `LoanAlreadyIssued` when the escrow already backs a loan, whatever has
    /// become of that loan, with `LoanNotActive` when `now + duration` does
    /// not fit in 64 bits, and with `MathOverflow` when the ids are used up.
    /// The deadline is `now + duration`.
    pub fn issue_loan(
        &mut self,
        caller: &Address,
        escrow_id: u64,
        borrower: Address,
        lender: Address,
        amount: i128,
        interest_rate: u32,
        duration: u64,
        now: u64,
    ) -> (res: Result<(u64, LoanEvent), ContractError>)
        requires
            old(self).wf(),
        ensures
            final(self).wf(),
            old(self).precedes(*final(self)),
            final(self).admin == old(self).admin,
            final(self).risk_engine == old(self).risk_engine,
            match old(self).issue_error(*caller, escrow_id, lender, duration, now) {
                Some(e) => res == Err::<(u64, LoanEvent), ContractError>(e) && *final(self)
                    == *old(self),
                None => {
                    &&& res is Ok
                    &&& res->Ok_0.0 == old(self).next_id()
                    &&& final(self).loans@ == old(self).loans@.push(
                        Loan {
                            id: res->Ok_0.0,
                            escrow_id,
                            borrower,
                            lender,
                            amount,
                            interest_rate,
                            deadline: (now + duration) as u64,
                            status: LoanStatus::Active,
                        },
                    )
                    &&& res->Ok_0.1 == (LoanEvent::LoanIssued {
                        loan_id: res->Ok_0.0,
                        escrow_id,
                        borrower,
                        lender,
                        amount,
                        deadline: (now + duration) as u64,
                    })
                    &&& final(self).escrow_has_loan(escrow_id)
                },
            },
    {
        if !caller.same(&lender) {
            return Err(ContractError::Unauthorized);
        }
        if self.find_by_escrow(escrow_id).is_some() {
            return Err(ContractError::LoanAlreadyIssued);
        }
        let deadline: u64 = match now.checked_add(duration) {
            Some(d) => d,
            None => {
                return Err(ContractError::LoanNotActive);
            },
        };
        if self.loans.len() as u64 == u64::MAX {
            return Err(ContractError::MathOverflow);
        }
        let loan_id: u64 = self.loans.len() as u64 + 1;
        let loan = Loan {
            id: loan_id,
            escrow_id,
            borrower,
            lender,
            amount,
            interest_rate,
            deadline,
            status: LoanStatus::Active,
        };
        self.loans.push(loan);
        proof {
            assert(self.loans@[loan_id - 1].escrow_id == escrow_id);
        }
        Ok((loan_id, LoanEvent::LoanIssued { loan_id, escrow_id, borrower, lender, amount, deadline }))
    }

    /// Settles an active loan for the borrower who authorised the call.
    ///
    /// The errors, in the order in which they are checked: `LoanNotFound`;
    /// `Unauthorized` unless the caller is the borrower; `LoanNotActive`;
    /// `DeadlinePassed` when `now > deadline`; `MathOverflow` when the
    /// product `amount * interest_rate` or the total of principal and
    /// interest does not fit in 128 bits; `InsufficientAmount` when `amount`
    /// is less than that total. Otherwise the loan becomes `Repaid`, for
    /// good.
    pub fn repay_loan(&mut self, caller: &Address, loan_id: u64, amount: i128, now: u64) -> (res:
        Result<LoanEvent, ContractError>)
        requires
            old(self).wf(),
        ensures
            final(self).wf(),
            old(self).precedes(*final(self)),
            final(self).admin == old(self).admin,
            final(self).risk_engine == old(self).risk_engine,
            match old(self).repay_error(*caller, loan_id, amount, now) {
                Some(e) => res == Err::<LoanEvent, ContractError>(e) && *final(self) == *old(self),
                None => {
                    &&& res == Ok::<LoanEvent, ContractError>(
                        LoanEvent::LoanRepaid { loan_id, amount },
                    )
                    &&& final(self).loans@ == old(self).loans@.update(
                        loan_id - 1,
                        old(self).loan(loan_id).with_status(LoanStatus::Repaid),
                    )
                },
            },
    {
        if loan_id == 0 || loan_id > self.loans.len() as u64 {
            return Err(ContractError::LoanNotFound);
        }
        let idx: usize = (loan_id - 1) as usize;
        let loan: Loan = self.loans[idx];
        if !caller.same(&loan.borrower) {
            return Err(ContractError::Unauthorized);
        }
        if loan.status != LoanStatus::Active {
            return Err(ContractError::LoanNotActive);
        }
        if now > loan.deadline {
            return Err(ContractError::DeadlinePassed);
        }
        let total_due: i128 = match checked_total_due(loan.amount, loan.interest_rate) {
            Some(total) => total,
            None => {
                return Err(ContractError::MathOverflow);
            },
        };
        if amount < total_due {
            return Err(ContractError::InsufficientAmount);
        }
        self.loans[idx].status = LoanStatus::Repaid;
        Ok(LoanEvent::LoanRepaid { loan_id, amount })
    }

    /// Marks an active loan as defaulted once its deadline has passed.
    /// Anyone may call it; no funds move.
    ///
    /// The errors, in the order in which they are checked: `LoanNotFound`;
    /// `LoanNotActive`; `DeadlineNotPassed` while `now <= deadline`.
    pub fn mark_default(&mut self, loan_id: u64, now: u64) -> (res: Result<
        LoanEvent,
        ContractError,
    >)
        requires
            old(self).wf(),
        ensures
            final(self).wf(),
            old(self).precedes(*final(self)),
            final(self).admin == old(self).admin,
            final(self).risk_engine == old(self).risk_engine,
            match old(self).default_error(loan_id, now) {
                Some(e) => res == Err::<LoanEvent, ContractError>(e) && *final(self) == *old(self),
                None => {
                    &&& res == Ok::<LoanEvent, ContractError>(LoanEvent::LoanDefaulted { loan_id })
                    &&& final(self).loans@ == old(self).loans@.update(
                        loan_id - 1,
                        old(self).loan(loan_id).with_status(LoanStatus::Defaulted),
                    )
                },
            },
    {
        if loan_id == 0 || loan_id > self.loans.len() as u64 {
            return Err(ContractError::LoanNotFound);
        }
        let idx: usize = (loan_id - 1) as usize;
        let loan: Loan = self.loans[idx];
        if loan.status != LoanStatus::Active {
            return Err(ContractError::LoanNotActive);
        }
        if now <= loan.deadline {
            return Err(ContractError::DeadlineNotPassed);
        }
        self.loans[idx].status = LoanStatus::Defaulted;
        Ok(LoanEvent::LoanDefaulted { loan_id })
    }

    /// Marks an active loan as liquidated. Only the registered risk engine
    /// may: with none registered, or another caller, the call fails with
    /// `Unauthorized`. Then `LoanNotFound` and `LoanNotActive` are checked.
    /// The event names the liquidator.
    pub fn mark_liquidated(&mut self, caller: &Address, loan_id: u64, liquidator: Address) -> (res:
        Result<LoanEvent, ContractError>)
        requires
            old(self).wf(),
        ensures
            final(self).wf(),
            old(self).precedes(*final(self)),
            final(self).admin == old(self).admin,
            final(self).risk_engine == old(self).risk_engine,
            match old(self).liquidate_error(*caller, loan_id) {
                Some(e) => res == Err::<LoanEvent, ContractError>(e) && *final(self) == *old(self),
                None => {
                    &&& res == Ok::<LoanEvent, ContractError>(
                        LoanEvent::LoanLiquidated { loan_id, liquidator },
                    )
                    &&& final(self).loans@ == old(self).loans@.update(
                        loan_id - 1,
                        old(self).loan(loan_id).with_status(LoanStatus::Liquidated),
                    )
                },
            },
    {
        match self.risk_engine {
            None => {
                return Err(ContractError::Unauthorized);
            },
            Some(engine) => {
                if !engine.same(caller) {
                    return Err(ContractError::Unauthorized);
                }
            },
        }
        if loan_id == 0 || loan_id > self.loans.len() as u64 {
            return Err(ContractError::LoanNotFound);
        }
        let idx: usize = (loan_id - 1) as usize;
        if self.loans[idx].status != LoanStatus::Active {
            return Err(ContractError::LoanNotActive);
        }
        self.loans[idx].status = LoanStatus::Liquidated;
        Ok(LoanEvent::LoanLiquidated { loan_id, liquidator })
    }

    /// Registers the risk engine. Only the admin may: any other caller, and
    /// any caller of a book without admin, gets `Unauthorized`.
    pub fn set_risk_engine(&mut self, caller: &Address, risk_engine: Address) -> (res: Result<
        LoanEvent,
        ContractError,
    >)
        requires
            old(self).wf(),
        ensures
            final(self).wf(),
            final(self).loans == old(self).loans,
            final(self).admin == old(self).admin,
            old(self).admin != Some(*caller) ==> res == Err::<LoanEvent, ContractError>(
                ContractError::Unauthorized,
            ) && final(self).risk_engine == old(self).risk_engine,
            old(self).admin == Some(*caller) ==> res == Ok::<LoanEvent, ContractError>(
                LoanEvent::RiskEngineSet { risk_engine },
            ) && final(self).risk_engine == Some(risk_engine),
    {
        match self.admin {
            None => Err(ContractError::Unauthorized),
            Some(admin) => {
                if !admin.same(caller) {
                    return Err(ContractError::Unauthorized);
                }
                self.risk_engine = Some(risk_engine);
                Ok(LoanEvent::RiskEngineSet { risk_engine })
            },
        }
    }

    /// The registered risk engine, if there is one.
    pub fn get_risk_engine(&self) -> (res: Option<Address>)
        ensures
            res == self.risk_engine,
    {
        self.risk_engine
    }

    /// The loan with this id, if it was ever issued.
    pub fn get_loan(&self, loan_id: u64) -> (res: Option<Loan>)
        ensures
            self.has_loan(loan_id) ==> res == Some(self.loan(loan_id)),
            !self.has_loan(loan_id) ==> res is None,
    {
        if loan_id == 0 || loan_id > self.loans.len() as u64 {
            None
        } else {
            Some(self.loans[(loan_id - 1) as usize])
        }
    }

    /// The id of the loan that the escrow backs, if it backs one.
    pub fn get_loan_id_by_escrow(&self, escrow_id: u64) -> (res: Option<u64>)
        requires
            self.wf(),
        ensures
            match res {
                Some(id) => self.has_loan(id) && self.loan(id).escrow_id == escrow_id,
                None => !self.escrow_has_loan(escrow_id),
            },
    {
        match self.find_by_escrow(escrow_id) {
            Some(i) => Some(self.loans[i].id),
            None => None,
        }
    }
}

/// What can follow a book that can follow another can follow the other.
pub proof fn book_precedes_is_transitive(a: LoanManagement, b: LoanManagement, c: LoanManagement)
    requires
        a.precedes(b),
        b.precedes(c),
    ensures
        a.precedes(c),
{
    assert forall|i: int| 0 <= i < a.loans@.len() implies {
        ||| (#[trigger] c.loans@[i]) == a.loans@[i]
        ||| (a.loans@[i].status == LoanStatus::Active && c.loans@[i] == a.loans@[i].with_status(
            c.loans@[i].status,
        ))
    } by {
        let x = a.loans@[i];
        let y = b.loans@[i];
        let z = c.loans@[i];
        assert(y == x || (x.status == LoanStatus::Active && y == x.with_status(y.status)));
        assert(z == y || (y.status == LoanStatus::Active && z == y.with_status(z.status)));
    }
}

/// An escrow backs at most one loan: once a loan was issued against it,
/// every further issue against it is refused with `LoanAlreadyIssued`,
/// whoever lends and whatever the terms, in every later state of the book.
pub proof fn one_loan_per_escrow(
    before: LoanManagement,
    later: LoanManagement,
    escrow_id: u64,
    lender: Address,
    duration: u64,
    now: u64,
)
    requires
        before.precedes(later),
        before.escrow_has_loan(escrow_id),
    ensures
        later.escrow_has_loan(escrow_id),
        later.issue_error(lender, escrow_id, lender, duration, now) == Some(
            ContractError::LoanAlreadyIssued,
        ),
{
    let i = choose|i: int| 0 <= i < before.loans@.len() && (#[trigger] before.loans@[i]).escrow_id == escrow_id;
    assert(later.loans@[i] == before.loans@[i] || later.loans@[i] == before.loans@[i].with_status(
        later.loans@[i].status,
    ));
    assert(later.loans@[i].escrow_id == escrow_id);
}

/// A loan that was repaid, defaulted or liquidated stays as it is in every
/// later state of the book, and every later repayment, default or
/// liquidation of it is refused with `LoanNotActive` when the caller is the
/// one entitled to ask.
pub proof fn closed_loan_stays_closed(
    before: LoanManagement,
    later: LoanManagement,
    loan_id: u64,
    amount: i128,
    now: u64,
)
    requires
        before.precedes(later),
        before.has_loan(loan_id),
        before.loan(loan_id).status != LoanStatus::Active,
    ensures
        later.has_loan(loan_id),
        later.loan(loan_id) == before.loan(loan_id),
        later.repay_error(later.loan(loan_id).borrower, loan_id, amount, now) == Some(
            ContractError::LoanNotActive,
        ),
        later.default_error(loan_id, now) == Some(ContractError::LoanNotActive),
        later.risk_engine is Some ==> later.liquidate_error(later.risk_engine->Some_0, loan_id)
            == Some(ContractError::LoanNotActive),
{
    let i = loan_id - 1;
    assert(later.loans@[i] == before.loans@[i] || (before.loans@[i].status == LoanStatus::Active
        && later.loans@[i] == before.loans@[i].with_status(later.loans@[i].status)));
}

/// A repayment in time by the borrower of an active loan fails with
/// `MathOverflow`, whatever is paid, where what is owed cannot be computed
/// in 128 bits.
pub proof fn repayment_fails_on_overflow(
    book: LoanManagement,
    loan_id: u64,
    amount: i128,
    now: u64,
)
    requires
        book.has_loan(loan_id),
        book.loan(loan_id).status == LoanStatus::Active,
        now <= book.loan(loan_id).deadline,
        book.loan(loan_id).overflows(),
    ensures
        book.repay_error(book.loan(loan_id).borrower, loan_id, amount, now) == Some(
            ContractError::MathOverflow,
        ),
{
}

/// A repayment in time by the borrower of an active loan whose total can be
/// computed goes through exactly when it reaches the principal plus
/// interest; below that it is refused with `InsufficientAmount`.
pub proof fn repayment_needs_total_due(
    book: LoanManagement,
    loan_id: u64,
    amount: i128,
    now: u64,
)
    requires
        book.has_loan(loan_id),
        book.loan(loan_id).status == LoanStatus::Active,
        now <= book.loan(loan_id).deadline,
        !book.loan(loan_id).overflows(),
    ensures
        amount >= book.loan(loan_id).total_due() ==> book.repay_error(
            book.loan(loan_id).borrower,
            loan_id,
            amount,
            now,
        ) is None,
        amount < book.loan(loan_id).total_due() ==> book.repay_error(
            book.loan(loan_id).borrower,
            loan_id,
            amount,
            now,
        ) == Some(ContractError::InsufficientAmount),
{
}

} // verus!
