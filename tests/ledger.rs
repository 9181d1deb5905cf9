use xrecovery::{Error, Ledger};

#[test]
fn ledger_reserve_and_unreserve() {
    let mut l = Ledger::new();
    l.set_free_balance(1, 50);
    assert_eq!(l.reserve(1, 60), Err(Error::InsufficientBalance));
    assert_eq!(l.reserve(1, 20), Ok(()));
    assert_eq!(l.free_balance(1), 30);
    assert_eq!(l.reserved_balance(1), 20);
    assert_eq!(l.unreserve(1, 25), 5);
    assert_eq!(l.free_balance(1), 50);
    assert_eq!(l.reserved_balance(1), 0);
}

#[test]
fn ledger_reserve_overflow() {
    let mut l = Ledger::new();
    l.set_free_balance(1, u64::MAX);
    assert_eq!(l.reserve(1, u64::MAX), Ok(()));
    l.set_free_balance(1, 1);
    assert_eq!(l.reserve(1, 1), Err(Error::Overflow));
}

#[test]
fn ledger_repatriate() {
    let mut l = Ledger::new();
    l.set_free_balance(1, 50);
    assert_eq!(l.reserve(1, 20), Ok(()));
    assert_eq!(l.repatriate_reserved(1, 2, 30), Ok(10));
    assert_eq!(l.reserved_balance(1), 0);
    assert_eq!(l.free_balance(2), 20);
    l.set_free_balance(3, u64::MAX);
    l.set_free_balance(1, 5);
    assert_eq!(l.reserve(1, 5), Ok(()));
    assert_eq!(l.repatriate_reserved(1, 3, 5), Err(Error::Overflow));
    assert_eq!(l.reserved_balance(1), 5);
    assert_eq!(l.repatriate_reserved(1, 1, 5), Ok(0));
    assert_eq!(l.free_balance(1), 5);
}
