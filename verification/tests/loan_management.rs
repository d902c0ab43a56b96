use stellovault::address::Address;
use stellovault::arith::checked_total_due;
use stellovault::loan::{ContractError, Loan, LoanEvent, LoanManagement, LoanStatus};

fn addr(tag: u8) -> Address {
    Address::from_bytes([tag; 32])
}

fn must<T>(outcome: Result<T, ContractError>) -> T {
    match outcome {
        Ok(value) => value,
        Err(error) => panic!("HostError: Error(Contract, #{})", error.code()),
    }
}

const NOW: u64 = 1_000;

struct Book {
    client: LoanManagement,
    admin: Address,
    borrower: Address,
    lender: Address,
    risk_engine: Address,
    liquidator: Address,
}

fn setup() -> Book {
    let mut book = Book {
        client: LoanManagement::new(),
        admin: addr(1),
        borrower: addr(2),
        lender: addr(3),
        risk_engine: addr(4),
        liquidator: addr(5),
    };
    must(book.client.initialize(book.admin));
    book
}

fn issue(b: &mut Book, escrow_id: u64, amount: i128, rate: u32, duration: u64) -> u64 {
    let (lender, borrower) = (b.lender, b.borrower);
    must(b.client.issue_loan(&lender, escrow_id, borrower, lender, amount, rate, duration, NOW)).0
}

fn repay(b: &mut Book, loan_id: u64, amount: i128, now: u64) {
    let borrower = b.borrower;
    must(b.client.repay_loan(&borrower, loan_id, amount, now));
}

#[test]
fn lib_test_initialize() {
    let b = setup();
    assert_eq!(b.client.admin, Some(b.admin));
}

#[test]
fn test_issue_loan_success() {
    let mut b = setup();
    let loan_id = issue(&mut b, 1, 1000, 500, 3600);
    assert_eq!(loan_id, 1);
    let loan = b.client.get_loan(loan_id).unwrap();
    assert_eq!(loan.borrower, b.borrower);
    assert_eq!(loan.lender, b.lender);
    assert_eq!(loan.amount, 1000);
    assert_eq!(loan.status, LoanStatus::Active);
    assert_eq!(loan.deadline, NOW + 3600);
    assert_eq!(b.client.get_loan_id_by_escrow(1), Some(1));
}

#[test]
#[should_panic(expected = "HostError: Error(Contract, #4)")]
fn test_issue_loan_duplicate_escrow() {
    let mut b = setup();
    issue(&mut b, 1, 1000, 500, 3600);
    issue(&mut b, 1, 1000, 500, 3600);
}

#[test]
fn test_repay_loan_success() {
    let mut b = setup();
    let loan_id = issue(&mut b, 1, 1000, 500, 3600);
    repay(&mut b, loan_id, 1050, NOW);
    assert_eq!(b.client.get_loan(loan_id).unwrap().status, LoanStatus::Repaid);
}

#[test]
fn test_mark_default_success() {
    let mut b = setup();
    let duration = 3600u64;
    let loan_id = issue(&mut b, 1, 1000, 500, duration);
    must(b.client.mark_default(loan_id, NOW + duration + 1));
    assert_eq!(b.client.get_loan(loan_id).unwrap().status, LoanStatus::Defaulted);
}

#[test]
#[should_panic(expected = "HostError: Error(Contract, #6)")]
fn test_mark_default_too_early() {
    let mut b = setup();
    let loan_id = issue(&mut b, 1, 1000, 500, 3600);
    must(b.client.mark_default(loan_id, NOW));
}

#[test]
#[should_panic(expected = "HostError: Error(Contract, #8)")]
fn test_repay_loan_insufficient_amount() {
    let mut b = setup();
    let loan_id = issue(&mut b, 1, 1000, 500, 3600);
    repay(&mut b, loan_id, 1000, NOW);
}

#[test]
#[should_panic(expected = "HostError: Error(Contract, #7)")]
fn test_repay_loan_after_deadline() {
    let mut b = setup();
    let duration = 3600u64;
    let loan_id = issue(&mut b, 1, 1000, 500, duration);
    repay(&mut b, loan_id, 1050, NOW + duration + 1);
}

#[test]
#[should_panic(expected = "HostError: Error(Contract, #5)")]
fn test_repay_loan_already_repaid() {
    let mut b = setup();
    let loan_id = issue(&mut b, 1, 1000, 500, 3600);
    repay(&mut b, loan_id, 1050, NOW);
    repay(&mut b, loan_id, 1050, NOW);
}

#[test]
#[should_panic(expected = "HostError: Error(Contract, #5)")]
fn test_mark_default_already_repaid() {
    let mut b = setup();
    let duration = 3600u64;
    let loan_id = issue(&mut b, 1, 1000, 500, duration);
    repay(&mut b, loan_id, 1050, NOW);
    must(b.client.mark_default(loan_id, NOW + duration + 1));
}

#[test]
fn test_get_loan_not_found() {
    let client = LoanManagement::new();
    assert!(client.get_loan(999).is_none());
}

#[test]
fn test_get_loan_id_by_escrow_not_found() {
    let client = LoanManagement::new();
    assert!(client.get_loan_id_by_escrow(999).is_none());
}

#[test]
#[should_panic(expected = "HostError: Error(Contract, #2)")]
fn lib_test_initialize_already_initialized() {
    let mut b = setup();
    let admin = b.admin;
    must(b.client.initialize(admin));
}

#[test]
fn test_set_risk_engine() {
    let mut b = setup();
    let (admin, engine) = (b.admin, b.risk_engine);
    must(b.client.set_risk_engine(&admin, engine));
    assert_eq!(b.client.get_risk_engine(), Some(engine));
}

#[test]
fn test_mark_liquidated_success() {
    let mut b = setup();
    let (admin, engine, liquidator) = (b.admin, b.risk_engine, b.liquidator);
    must(b.client.set_risk_engine(&admin, engine));
    let loan_id = issue(&mut b, 1, 1000, 500, 3600);
    let event = must(b.client.mark_liquidated(&engine, loan_id, liquidator));
    assert_eq!(event, LoanEvent::LoanLiquidated { loan_id, liquidator });
    assert_eq!(b.client.get_loan(loan_id).unwrap().status, LoanStatus::Liquidated);
}

#[test]
#[should_panic(expected = "HostError: Error(Contract, #1)")]
fn test_mark_liquidated_no_risk_engine() {
    let mut b = setup();
    let (engine, liquidator) = (b.risk_engine, b.liquidator);
    let loan_id = issue(&mut b, 1, 1000, 500, 3600);
    must(b.client.mark_liquidated(&engine, loan_id, liquidator));
}

#[test]
#[should_panic(expected = "HostError: Error(Contract, #5)")]
fn test_mark_liquidated_not_active() {
    let mut b = setup();
    let (admin, engine, liquidator) = (b.admin, b.risk_engine, b.liquidator);
    must(b.client.set_risk_engine(&admin, engine));
    let loan_id = issue(&mut b, 1, 1000, 500, 3600);
    repay(&mut b, loan_id, 1050, NOW);
    must(b.client.mark_liquidated(&engine, loan_id, liquidator));
}

#[test]
fn interest_is_exact() {
    let mut b = setup();
    let loan_id = issue(&mut b, 1, 1000, 500, 3600);
    let borrower = b.borrower;
    assert_eq!(
        b.client.repay_loan(&borrower, loan_id, 1049, NOW),
        Err(ContractError::InsufficientAmount)
    );
    assert_eq!(b.client.get_loan(loan_id).unwrap().status, LoanStatus::Active);
    assert_eq!(
        b.client.repay_loan(&borrower, loan_id, 1050, NOW + 3600),
        Ok(LoanEvent::LoanRepaid { loan_id, amount: 1050 })
    );
}

#[test]
fn total_due_truncates_toward_zero_and_is_checked() {
    // 999 * 333 / 10000 = 33.2667 -> 33
    assert_eq!(checked_total_due(999, 333), Some(1032));
    // -999 * 333 / 10000 = -33.2667 -> -33 (toward zero)
    assert_eq!(checked_total_due(-999, 333), Some(-1032));
    assert_eq!(checked_total_due(1000, 500), Some(1050));
    assert_eq!(checked_total_due(0, u32::MAX), Some(0));
    assert_eq!(checked_total_due(i128::MAX, 0), Some(i128::MAX));
    assert_eq!(checked_total_due(i128::MIN, 0), Some(i128::MIN));
    // The product leaves the range.
    assert_eq!(checked_total_due(i128::MAX, 500), None);
    assert_eq!(checked_total_due(i128::MIN, 500), None);
    assert_eq!(checked_total_due(1 << 100, 4_000_000_000), None);
    // The product fits, the sum does not.
    assert_eq!(checked_total_due(i128::MAX, 1), None);
    assert_eq!(checked_total_due(i128::MIN, 1), None);
    let most = i128::MAX / 10001 * 10000;
    assert_eq!(checked_total_due(most, 1), Some(most + most / 10000));
}

#[test]
fn repayment_fails_where_the_total_overflows() {
    let mut b = setup();
    let borrower = b.borrower;
    let huge = issue(&mut b, 1, i128::MAX, 500, 3600);
    let negative = issue(&mut b, 2, i128::MIN, 500, 3600);
    let sum = issue(&mut b, 3, i128::MAX, 1, 3600);
    for (loan_id, paid) in [(huge, i128::MAX), (negative, 0), (negative, i128::MAX), (sum, i128::MAX)] {
        assert_eq!(
            b.client.repay_loan(&borrower, loan_id, paid, NOW),
            Err(ContractError::MathOverflow)
        );
        assert_eq!(b.client.get_loan(loan_id).unwrap().status, LoanStatus::Active);
    }
    // The deadline is looked at first.
    assert_eq!(
        b.client.repay_loan(&borrower, huge, i128::MAX, NOW + 3601),
        Err(ContractError::DeadlinePassed)
    );
    assert_eq!(ContractError::MathOverflow.code(), 9);
    // Such a loan can still default.
    assert!(b.client.mark_default(huge, NOW + 3601).is_ok());
}

#[test]
fn second_loan_on_an_escrow_is_refused_whoever_lends() {
    let mut b = setup();
    issue(&mut b, 7, 1000, 500, 3600);
    let other = addr(9);
    assert_eq!(
        b.client.issue_loan(&other, 7, addr(8), other, 5, 1, 1, NOW).map(|(id, _)| id),
        Err(ContractError::LoanAlreadyIssued)
    );
    assert_eq!(issue(&mut b, 8, 1000, 500, 3600), 2);
    assert_eq!(b.client.get_loan_id_by_escrow(8), Some(2));
    assert_eq!(b.client.get_loan_id_by_escrow(7), Some(1));
}

#[test]
fn issue_checks_caller_and_deadline() {
    let mut b = setup();
    let (lender, borrower) = (b.lender, b.borrower);
    assert_eq!(
        b.client.issue_loan(&borrower, 1, borrower, lender, 1000, 500, 3600, NOW).map(|(id, _)| id),
        Err(ContractError::Unauthorized)
    );
    assert_eq!(
        b.client.issue_loan(&lender, 1, borrower, lender, 1000, 500, u64::MAX, NOW).map(|(id, _)| id),
        Err(ContractError::LoanNotActive)
    );
    let (id, event) =
        must(b.client.issue_loan(&lender, 1, borrower, lender, 1000, 500, 3600, NOW));
    assert_eq!(
        event,
        LoanEvent::LoanIssued {
            loan_id: id,
            escrow_id: 1,
            borrower,
            lender,
            amount: 1000,
            deadline: NOW + 3600
        }
    );
    assert_eq!(
        b.client.get_loan(id),
        Some(Loan {
            id: 1,
            escrow_id: 1,
            borrower,
            lender,
            amount: 1000,
            interest_rate: 500,
            deadline: NOW + 3600,
            status: LoanStatus::Active
        })
    );
}

#[test]
fn loan_errors_for_missing_loans_and_strangers() {
    let mut b = setup();
    let (borrower, lender, admin, engine) = (b.borrower, b.lender, b.admin, b.risk_engine);
    assert_eq!(b.client.repay_loan(&borrower, 1, 1, NOW), Err(ContractError::LoanNotFound));
    assert_eq!(b.client.mark_default(0, NOW), Err(ContractError::LoanNotFound));
    must(b.client.set_risk_engine(&admin, engine));
    assert_eq!(b.client.mark_liquidated(&engine, 1, lender), Err(ContractError::LoanNotFound));
    assert_eq!(b.client.mark_liquidated(&lender, 1, lender), Err(ContractError::Unauthorized));
    assert_eq!(b.client.set_risk_engine(&lender, lender), Err(ContractError::Unauthorized));
    let id = issue(&mut b, 1, 1000, 500, 3600);
    assert_eq!(b.client.repay_loan(&lender, id, 1050, NOW), Err(ContractError::Unauthorized));
    assert_eq!(b.client.mark_default(id, NOW + 3600), Err(ContractError::DeadlineNotPassed));
    assert_eq!(ContractError::DeadlinePassed.code(), 7);
}
