use vstd::prelude::*;

verus! {

/// The failures that an operation of the engine or of the ledger reports.
/// An operation that fails leaves every store as it found it.
#[derive(Clone, Copy, Debug, PartialEq, Eq, Structural)]
pub enum Error {
    /// The caller holds no proxy grant to the named account.
    NotAllowed,
    /// The threshold must be at least one.
    ZeroThreshold,
    /// The friend list is empty, or shorter than the threshold.
    NotEnoughFriends,
    /// The friend list is longer than the configured maximum.
    TooManyFriends,
    /// The friend list is not strictly increasing.
    NotSorted,
    /// The account has no recovery configuration.
    NotRecoverable,
    /// The account already has a recovery configuration.
    AlreadyConfigured,
    /// The rescuer already has an attempt open on this account.
    AlreadyStarted,
    /// No attempt is open for this account and rescuer.
    NotStarted,
    /// The caller is not one of the account's friends.
    NotFriend,
    /// The delay period has not passed yet.
    DelayPeriod,
    /// The friend already vouched for this attempt.
    AlreadyVouched,
    /// Fewer friends vouched than the threshold asks for.
    InsufficientVouches,
    /// Attempts on the account are still open.
    StillActive,
    /// An amount or a block number does not fit its type.
    Overflow,
    /// The caller already acts for some account.
    AlreadyProxy,
    /// The free balance does not cover the amount to reserve.
    InsufficientBalance,
    /// A step that the protocol's checks should make safe failed.
    InvariantViolation,
}

/// What a successful operation reports, with the accounts it concerns.
#[derive(Clone, Copy, Debug, PartialEq, Eq, Structural)]
pub enum Event {
    /// The account made a recovery configuration.
    RecoveryConfigured(u64),
    /// A rescuer (second) opened an attempt on an account (first).
    RecoveryInitiated(u64, u64),
    /// A friend (third) vouched for the attempt of a rescuer (second) on an account (first).
    RecoveryVouched(u64, u64, u64),
    /// The account (first) closed the attempt of a rescuer (second).
    RecoveryClosed(u64, u64),
    /// The rescuer (second) may now act for the account (first).
    AccountRecovered(u64, u64),
    /// The account removed its recovery configuration.
    RecoveryRemoved(u64),
}

/// The constants that the host supplies to the engine.
#[derive(Clone, Copy, Debug, PartialEq, Eq, Structural)]
pub struct Config {
    /// The base of the deposit for a recovery configuration.
    pub config_deposit_base: u64,
    /// What each friend adds to the deposit for a recovery configuration.
    pub friend_deposit_factor: u64,
    /// The largest number of friends a configuration may name.
    pub max_friends: u16,
    /// The deposit that a rescuer reserves to open an attempt.
    pub recovery_deposit: u64,
}

/// The recovery configuration of an account.
#[derive(Clone, Debug)]
pub struct RecoveryConfig {
    /// Blocks that must pass between opening an attempt and claiming it.
    pub delay_period: u64,
    /// What was reserved from the account when the configuration was made.
    pub deposit: u64,
    /// The friends, strictly increasing.
    pub friends: Vec<u64>,
    /// How many friends must vouch for an attempt.
    pub threshold: u16,
}

/// The model of a recovery configuration.
pub struct RecoveryConfigView {
    pub delay_period: u64,
    pub deposit: u64,
    pub friends: Seq<u64>,
    pub threshold: u16,
}

impl View for RecoveryConfig {
    type V = RecoveryConfigView;

    open spec fn view(&self) -> RecoveryConfigView {
        RecoveryConfigView {
            delay_period: self.delay_period,
            deposit: self.deposit,
            friends: self.friends@,
            threshold: self.threshold,
        }
    }
}

/// An open recovery attempt of one rescuer on one account.
#[derive(Clone, Debug)]
pub struct ActiveRecovery {
    /// The block at which the attempt was opened.
    pub created: u64,
    /// What was reserved from the rescuer when the attempt was opened.
    pub deposit: u64,
    /// The friends who vouched so far, strictly increasing.
    pub friends: Vec<u64>,
}

/// The model of an open recovery attempt.
pub struct ActiveRecoveryView {
    pub created: u64,
    pub deposit: u64,
    pub friends: Seq<u64>,
}

impl View for ActiveRecovery {
    type V = ActiveRecoveryView;

    open spec fn view(&self) -> ActiveRecoveryView {
        ActiveRecoveryView { created: self.created, deposit: self.deposit, friends: self.friends@ }
    }
}

} // verus!
