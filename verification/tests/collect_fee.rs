use fee_collector::errors::ExecutionError;
use fee_collector::events::{EventLog, FeeCollected};
use fee_collector::handler::collect_fee;
use fee_collector::state::{AccountRef, Address, CollectFee, SystemAuthority};

fn addr(tag: u64) -> Address {
    Address { w0: tag, w1: tag + 1, w2: tag + 2, w3: tag + 3 }
}

fn ctx(from_balance: u64, to_balance: u64, signed: bool) -> CollectFee {
    CollectFee {
        from: AccountRef {
            address: addr(10),
            balance: from_balance,
            is_signer: signed,
            is_writable: true,
        },
        to: AccountRef {
            address: addr(20),
            balance: to_balance,
            is_signer: false,
            is_writable: true,
        },
        system_program: SystemAuthority { genuine: true },
    }
}

#[test]
fn signed_and_funded_transfer_completes() {
    let mut c = ctx(1000, 500, true);
    let mut log = EventLog::new();
    let r = collect_fee(&mut c, 300, &mut log);
    assert_eq!(r, Ok(()));
    assert_eq!(c.from.balance, 700);
    assert_eq!(c.to.balance, 800);
    assert_eq!(log.len(), 1);
    assert_eq!(
        *log.entry(0),
        FeeCollected { from: addr(10), to: addr(20), amount: 300 }
    );
}

#[test]
fn insufficient_balance_fails_and_changes_nothing() {
    let mut c = ctx(100, 500, true);
    let mut log = EventLog::new();
    let r = collect_fee(&mut c, 300, &mut log);
    assert_eq!(r, Err(ExecutionError::TransferFailed));
    assert_eq!(c.from.balance, 100);
    assert_eq!(c.to.balance, 500);
    assert_eq!(log.len(), 0);
}

#[test]
fn missing_signature_fails_and_changes_nothing() {
    let mut c = ctx(1000, 500, false);
    let mut log = EventLog::new();
    let r = collect_fee(&mut c, 300, &mut log);
    assert_eq!(r, Err(ExecutionError::Unauthorized));
    assert_eq!(c.from.balance, 1000);
    assert_eq!(c.to.balance, 500);
    assert_eq!(log.len(), 0);
}

#[test]
fn zero_amount_succeeds_with_one_event() {
    let mut c = ctx(1000, 500, true);
    let mut log = EventLog::new();
    let r = collect_fee(&mut c, 0, &mut log);
    assert_eq!(r, Ok(()));
    assert_eq!(c.from.balance, 1000);
    assert_eq!(c.to.balance, 500);
    assert_eq!(log.len(), 1);
    assert_eq!(log.entry(0).amount, 0);
}

#[test]
fn unwritable_source_is_malformed() {
    let mut c = ctx(1000, 500, true);
    c.from.is_writable = false;
    let mut log = EventLog::new();
    let r = collect_fee(&mut c, 300, &mut log);
    assert_eq!(r, Err(ExecutionError::MalformedAccounts));
    assert_eq!(c.from.balance, 1000);
    assert_eq!(c.to.balance, 500);
    assert_eq!(log.len(), 0);
}

#[test]
fn unwritable_destination_is_malformed() {
    let mut c = ctx(1000, 500, true);
    c.to.is_writable = false;
    let mut log = EventLog::new();
    let r = collect_fee(&mut c, 300, &mut log);
    assert_eq!(r, Err(ExecutionError::MalformedAccounts));
    assert_eq!(log.len(), 0);
}

#[test]
fn substitute_transfer_facility_is_malformed() {
    let mut c = ctx(1000, 500, true);
    c.system_program.genuine = false;
    let mut log = EventLog::new();
    let r = collect_fee(&mut c, 300, &mut log);
    assert_eq!(r, Err(ExecutionError::MalformedAccounts));
    assert_eq!(log.len(), 0);
}

#[test]
fn shape_validation_precedes_authorization() {
    let mut c = ctx(1000, 500, false);
    c.from.is_writable = false;
    let mut log = EventLog::new();
    let r = collect_fee(&mut c, 300, &mut log);
    assert_eq!(r, Err(ExecutionError::MalformedAccounts));
}

#[test]
fn authorization_precedes_balance_check() {
    let mut c = ctx(100, 500, false);
    let mut log = EventLog::new();
    let r = collect_fee(&mut c, 300, &mut log);
    assert_eq!(r, Err(ExecutionError::Unauthorized));
}

#[test]
fn destination_overflow_fails_and_changes_nothing() {
    let mut c = ctx(1000, u64::MAX, true);
    let mut log = EventLog::new();
    let r = collect_fee(&mut c, 1, &mut log);
    assert_eq!(r, Err(ExecutionError::TransferFailed));
    assert_eq!(c.from.balance, 1000);
    assert_eq!(c.to.balance, u64::MAX);
    assert_eq!(log.len(), 0);
}

#[test]
fn exact_balance_transfers_everything() {
    let mut c = ctx(300, 0, true);
    let mut log = EventLog::new();
    let r = collect_fee(&mut c, 300, &mut log);
    assert_eq!(r, Ok(()));
    assert_eq!(c.from.balance, 0);
    assert_eq!(c.to.balance, 300);
    assert_eq!(log.len(), 1);
}

#[test]
fn successive_invocations_append_in_order() {
    let mut c = ctx(1000, 500, true);
    let mut log = EventLog::new();
    assert_eq!(collect_fee(&mut c, 300, &mut log), Ok(()));
    assert_eq!(collect_fee(&mut c, 200, &mut log), Ok(()));
    assert_eq!(c.from.balance, 500);
    assert_eq!(c.to.balance, 1000);
    assert_eq!(log.len(), 2);
    assert_eq!(log.entry(0).amount, 300);
    assert_eq!(log.entry(1).amount, 200);
}
