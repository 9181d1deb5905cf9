use xrecovery::{Config, Error, Event, Pallet};

const A: u64 = 2;
const B: u64 = 3;
const C: u64 = 4;
const LOST: u64 = 5;
const R: u64 = 1;
const R2: u64 = 6;

fn setup() -> Pallet {
    let mut p = Pallet::new(Config {
        config_deposit_base: 10,
        friend_deposit_factor: 1,
        max_friends: 3,
        recovery_deposit: 10,
    });
    for who in 1..=6u64 {
        p.set_free_balance(who, 100);
    }
    p
}

fn configured() -> Pallet {
    let mut p = setup();
    assert_eq!(p.create_recovery(LOST, vec![A, B, C], 2, 10), Ok(Event::RecoveryConfigured(LOST)));
    p
}

#[test]
fn create_reserves_base_plus_friend_factor() {
    let p = configured();
    assert_eq!(p.reserved_balance(LOST), 13);
    assert_eq!(p.free_balance(LOST), 87);
    let c = p.recovery_config(LOST).unwrap();
    assert_eq!(c.friends, vec![A, B, C]);
    assert_eq!(c.threshold, 2);
    assert_eq!(c.delay_period, 10);
    assert_eq!(c.deposit, 13);
}

#[test]
fn create_errors() {
    let mut p = configured();
    assert_eq!(p.create_recovery(LOST, vec![A], 1, 0), Err(Error::AlreadyConfigured));
    assert_eq!(p.create_recovery(R, vec![A], 0, 0), Err(Error::ZeroThreshold));
    assert_eq!(p.create_recovery(R, vec![], 1, 0), Err(Error::NotEnoughFriends));
    assert_eq!(p.create_recovery(R, vec![A, B], 3, 0), Err(Error::NotEnoughFriends));
    assert_eq!(p.create_recovery(R, vec![A, B, C, LOST], 2, 0), Err(Error::TooManyFriends));
    assert_eq!(p.create_recovery(R, vec![B, A], 1, 0), Err(Error::NotSorted));
    assert_eq!(p.create_recovery(R, vec![A, A], 1, 0), Err(Error::NotSorted));
    assert!(p.recovery_config(R).is_none());
    assert_eq!(p.reserved_balance(R), 0);
}

#[test]
fn create_insufficient_balance() {
    let mut p = setup();
    p.set_free_balance(R, 12);
    assert_eq!(p.create_recovery(R, vec![A, B, C], 1, 0), Err(Error::InsufficientBalance));
    assert!(p.recovery_config(R).is_none());
    assert_eq!(p.free_balance(R), 12);
}

#[test]
fn create_deposit_overflow() {
    let mut p = Pallet::new(Config {
        config_deposit_base: 1,
        friend_deposit_factor: u64::MAX,
        max_friends: 3,
        recovery_deposit: 10,
    });
    p.set_free_balance(R, u64::MAX);
    assert_eq!(p.create_recovery(R, vec![A, B], 1, 0), Err(Error::Overflow));
    assert_eq!(p.create_recovery(R, vec![A], 1, 0), Err(Error::Overflow));
    let mut q = Pallet::new(Config {
        config_deposit_base: 0,
        friend_deposit_factor: u64::MAX,
        max_friends: 3,
        recovery_deposit: 10,
    });
    q.set_free_balance(R, u64::MAX);
    assert_eq!(q.create_recovery(R, vec![A], 1, 0), Ok(Event::RecoveryConfigured(R)));
    assert_eq!(q.reserved_balance(R), u64::MAX);
}

#[test]
fn create_then_remove_returns_deposit() {
    let mut p = setup();
    assert_eq!(p.create_recovery(LOST, vec![A, B, C], 2, 10), Ok(Event::RecoveryConfigured(LOST)));
    assert_eq!(p.remove_recovery(LOST), Ok(Event::RecoveryRemoved(LOST)));
    assert_eq!(p.reserved_balance(LOST), 0);
    assert_eq!(p.free_balance(LOST), 100);
    assert!(p.recovery_config(LOST).is_none());
}

#[test]
fn remove_without_config() {
    let mut p = setup();
    assert_eq!(p.remove_recovery(LOST), Err(Error::NotRecoverable));
}

#[test]
fn initiate_errors_and_deposit() {
    let mut p = configured();
    assert_eq!(p.initiate_recovery(R, A, 0), Err(Error::NotRecoverable));
    assert_eq!(p.initiate_recovery(R, LOST, 0), Ok(Event::RecoveryInitiated(LOST, R)));
    assert_eq!(p.reserved_balance(R), 10);
    assert_eq!(p.free_balance(R), 90);
    assert_eq!(p.initiate_recovery(R, LOST, 1), Err(Error::AlreadyStarted));
    p.set_free_balance(R2, 9);
    assert_eq!(p.initiate_recovery(R2, LOST, 0), Err(Error::InsufficientBalance));
    assert!(p.active_recovery(LOST, R2).is_none());
    let a = p.active_recovery(LOST, R).unwrap();
    assert_eq!(a.created, 0);
    assert_eq!(a.deposit, 10);
    assert!(a.friends.is_empty());
}

#[test]
fn initiate_then_close_forfeits_deposit() {
    let mut p = configured();
    assert_eq!(p.initiate_recovery(R, LOST, 0), Ok(Event::RecoveryInitiated(LOST, R)));
    assert_eq!(p.close_recovery(LOST, R), Ok(Event::RecoveryClosed(LOST, R)));
    assert_eq!(p.reserved_balance(R), 0);
    assert_eq!(p.free_balance(R), 90);
    assert_eq!(p.free_balance(LOST), 97);
    assert!(p.active_recovery(LOST, R).is_none());
    assert_eq!(p.close_recovery(LOST, R), Err(Error::NotStarted));
}

#[test]
fn vouch_rules() {
    let mut p = configured();
    assert_eq!(p.vouch_recovery(A, R, R), Err(Error::NotRecoverable));
    assert_eq!(p.vouch_recovery(A, LOST, R), Err(Error::NotStarted));
    assert_eq!(p.initiate_recovery(R, LOST, 0), Ok(Event::RecoveryInitiated(LOST, R)));
    assert_eq!(p.vouch_recovery(R2, LOST, R), Err(Error::NotFriend));
    assert_eq!(p.vouch_recovery(C, LOST, R), Ok(Event::RecoveryVouched(LOST, R, C)));
    assert_eq!(p.vouch_recovery(C, LOST, R), Err(Error::AlreadyVouched));
    assert_eq!(p.vouch_recovery(A, LOST, R), Ok(Event::RecoveryVouched(LOST, R, A)));
    assert_eq!(p.active_recovery(LOST, R).unwrap().friends, vec![A, C]);
    assert_eq!(p.vouch_recovery(B, LOST, R), Ok(Event::RecoveryVouched(LOST, R, B)));
    assert_eq!(p.active_recovery(LOST, R).unwrap().friends, vec![A, B, C]);
}

#[test]
fn claim_scenario_threshold_then_delay() {
    let mut p = configured();
    assert_eq!(p.initiate_recovery(R, LOST, 0), Ok(Event::RecoveryInitiated(LOST, R)));
    assert_eq!(p.vouch_recovery(A, LOST, R), Ok(Event::RecoveryVouched(LOST, R, A)));
    assert_eq!(p.active_recovery(LOST, R).unwrap().friends, vec![A]);
    assert_eq!(p.claim_recovery(R, LOST, 1), Err(Error::DelayPeriod));
    assert_eq!(p.claim_recovery(R, LOST, 10), Err(Error::InsufficientVouches));
    assert_eq!(p.vouch_recovery(B, LOST, R), Ok(Event::RecoveryVouched(LOST, R, B)));
    assert_eq!(p.active_recovery(LOST, R).unwrap().friends, vec![A, B]);
    assert_eq!(p.claim_recovery(R, LOST, 5), Err(Error::DelayPeriod));
    assert_eq!(p.claim_recovery(R, LOST, 10), Ok(Event::AccountRecovered(LOST, R)));
    assert_eq!(p.proxy(R), Some(LOST));
    assert_eq!(p.consumers(R), 1);
    assert_eq!(p.as_recovered(R, LOST), Ok(LOST));
    assert!(p.active_recovery(LOST, R).is_some());
    assert_eq!(p.reserved_balance(R), 10);
}

#[test]
fn claim_fails_insufficient_vouches_after_delay() {
    let mut p = configured();
    assert_eq!(p.initiate_recovery(R, LOST, 0), Ok(Event::RecoveryInitiated(LOST, R)));
    assert_eq!(p.vouch_recovery(A, LOST, R), Ok(Event::RecoveryVouched(LOST, R, A)));
    assert_eq!(p.claim_recovery(R, LOST, 1), Err(Error::DelayPeriod));
    assert_eq!(p.claim_recovery(R, LOST, 11), Err(Error::InsufficientVouches));
    assert_eq!(p.proxy(R), None);
}

#[test]
fn claim_errors() {
    let mut p = configured();
    assert_eq!(p.claim_recovery(R, A, 100), Err(Error::NotRecoverable));
    assert_eq!(p.claim_recovery(R, LOST, 100), Err(Error::NotStarted));
    assert_eq!(p.initiate_recovery(R, LOST, 0), Ok(Event::RecoveryInitiated(LOST, R)));
    assert_eq!(p.set_recovered(A, R), Ok(Event::AccountRecovered(A, R)));
    assert_eq!(p.claim_recovery(R, LOST, 100), Err(Error::AlreadyProxy));
}

#[test]
fn claim_delay_overflow() {
    let mut p = setup();
    assert_eq!(p.create_recovery(LOST, vec![A], 1, u64::MAX), Ok(Event::RecoveryConfigured(LOST)));
    assert_eq!(p.initiate_recovery(R, LOST, 1), Ok(Event::RecoveryInitiated(LOST, R)));
    assert_eq!(p.vouch_recovery(A, LOST, R), Ok(Event::RecoveryVouched(LOST, R, A)));
    assert_eq!(p.claim_recovery(R, LOST, u64::MAX), Err(Error::Overflow));
}

#[test]
fn two_rescuers_tracked_independently() {
    let mut p = configured();
    assert_eq!(p.initiate_recovery(R, LOST, 0), Ok(Event::RecoveryInitiated(LOST, R)));
    assert_eq!(p.initiate_recovery(R2, LOST, 3), Ok(Event::RecoveryInitiated(LOST, R2)));
    assert_eq!(p.vouch_recovery(A, LOST, R), Ok(Event::RecoveryVouched(LOST, R, A)));
    assert_eq!(p.vouch_recovery(B, LOST, R2), Ok(Event::RecoveryVouched(LOST, R2, B)));
    assert_eq!(p.active_recovery(LOST, R).unwrap().friends, vec![A]);
    assert_eq!(p.active_recovery(LOST, R2).unwrap().friends, vec![B]);
    assert_eq!(p.active_recovery(LOST, R2).unwrap().created, 3);
    assert_eq!(p.close_recovery(LOST, R2), Ok(Event::RecoveryClosed(LOST, R2)));
    assert!(p.active_recovery(LOST, R2).is_none());
    assert_eq!(p.active_recovery(LOST, R).unwrap().friends, vec![A]);
    assert_eq!(p.reserved_balance(R), 10);
}

#[test]
fn close_with_no_vouches() {
    let mut p = configured();
    assert_eq!(p.initiate_recovery(R, LOST, 0), Ok(Event::RecoveryInitiated(LOST, R)));
    assert_eq!(p.close_recovery(LOST, R), Ok(Event::RecoveryClosed(LOST, R)));
    assert_eq!(p.free_balance(LOST), 97);
    assert_eq!(p.reserved_balance(R), 0);
    assert!(p.active_recovery(LOST, R).is_none());
}

#[test]
fn remove_blocked_while_attempt_open() {
    let mut p = configured();
    assert_eq!(p.initiate_recovery(R, LOST, 0), Ok(Event::RecoveryInitiated(LOST, R)));
    assert_eq!(p.remove_recovery(LOST), Err(Error::StillActive));
    assert_eq!(p.vouch_recovery(A, LOST, R), Ok(Event::RecoveryVouched(LOST, R, A)));
    assert_eq!(p.vouch_recovery(B, LOST, R), Ok(Event::RecoveryVouched(LOST, R, B)));
    assert_eq!(p.claim_recovery(R, LOST, 10), Ok(Event::AccountRecovered(LOST, R)));
    assert_eq!(p.remove_recovery(LOST), Err(Error::StillActive));
    assert_eq!(p.close_recovery(LOST, R), Ok(Event::RecoveryClosed(LOST, R)));
    assert_eq!(p.remove_recovery(LOST), Ok(Event::RecoveryRemoved(LOST)));
    assert_eq!(p.free_balance(LOST), 110);
}

#[test]
fn set_recovered_and_cancel() {
    let mut p = setup();
    assert_eq!(p.as_recovered(R, LOST), Err(Error::NotAllowed));
    assert_eq!(p.set_recovered(LOST, R), Ok(Event::AccountRecovered(LOST, R)));
    assert_eq!(p.as_recovered(R, LOST), Ok(LOST));
    assert_eq!(p.as_recovered(R, A), Err(Error::NotAllowed));
    assert_eq!(p.set_recovered(A, R), Err(Error::AlreadyProxy));
    assert_eq!(p.consumers(R), 1);
    assert_eq!(p.cancel_recovered(R, A), Err(Error::NotAllowed));
    assert_eq!(p.cancel_recovered(R, LOST), Ok(()));
    assert_eq!(p.proxy(R), None);
    assert_eq!(p.consumers(R), 0);
    assert_eq!(p.cancel_recovered(R, LOST), Err(Error::NotAllowed));
}
