use vstd::prelude::*;
use vstd::hash_map::HashMapWithView;
use crate::ledger::{Ledger, LedgerView, reserve_spec, unreserve_spec, repatriate_spec};
use crate::sorted::{
    strictly_increasing,
    insert_sorted,
    is_sorted_and_unique,
    contains_sorted,
    insert_sorted_vec,
    lemma_insert_sorted,
};
use crate::types::{
    ActiveRecovery,
    ActiveRecoveryView,
    Config,
    Error,
    Event,
    RecoveryConfig,
    RecoveryConfigView,
};

verus! {

broadcast use vstd::std_specs::hash::group_hash_axioms;

/// The model of the engine: the host's constants, the three stores, the
/// consumer counts that proxy grants hold, and the ledger.
#[verifier::ext_equal]
pub struct PalletView {
    pub config: Config,
    /// Recovery configurations, by protected account.
    pub configs: Map<u64, RecoveryConfigView>,
    /// Open attempts, by (protected account, rescuer).
    pub attempts: Map<(u64, u64), ActiveRecoveryView>,
    /// Proxy grants: the account that each rescuer may act for.
    pub proxies: Map<u64, u64>,
    /// For each account, how many proxy grants it holds a reference for.
    pub consumers: Map<u64, u32>,
    pub ledger: LedgerView,
}

impl PalletView {
    /// Whether some attempt on `lost` is open.
    pub open spec fn has_attempts(self, lost: u64) -> bool {
        exists|r: u64| self.attempts.contains_key((lost, r))
    }

    pub open spec fn consumers_of(self, who: u64) -> u32 {
        if self.consumers.contains_key(who) {
            self.consumers[who]
        } else {
            0
        }
    }

    /// What holds of every state the engine reaches: each configuration's friends
    /// are strictly increasing and agree with its threshold, each attempt belongs
    /// to a configured account, and its vouchers are strictly increasing friends
    /// of that account.
    pub open spec fn wf(self) -> bool {
        &&& forall|lost: u64| #[trigger]
            self.configs.contains_key(lost) ==> config_wf(self.configs[lost], self.config)
        &&& forall|k: (u64, u64)| #[trigger]
            self.attempts.contains_key(k) ==> self.configs.contains_key(k.0) && attempt_wf(
                self.attempts[k],
                self.configs[k.0],
            )
    }
}

/// A configuration's friends are strictly increasing, at most the maximum in
/// number, and at least the threshold, which is at least one.
pub open spec fn config_wf(c: RecoveryConfigView, k: Config) -> bool {
    &&& strictly_increasing(c.friends)
    &&& 1 <= c.threshold <= c.friends.len()
    &&& c.friends.len() <= k.max_friends
}

/// An attempt's vouchers are strictly increasing and each is a friend.
pub open spec fn attempt_wf(a: ActiveRecoveryView, c: RecoveryConfigView) -> bool {
    &&& strictly_increasing(a.friends)
    &&& forall|x: u64| #[trigger] a.friends.contains(x) ==> c.friends.contains(x)
}

/// The deposit for a configuration with `n` friends, when it fits.
pub open spec fn config_deposit(k: Config, n: nat) -> int {
    k.config_deposit_base + k.friend_deposit_factor * n
}

/// `create_recovery`: `who` makes a configuration with these friends, threshold and delay.
pub open spec fn create_spec(
    p: PalletView,
    who: u64,
    friends: Seq<u64>,
    threshold: u16,
    delay_period: u64,
) -> (PalletView, Result<Event, Error>) {
    if p.configs.contains_key(who) {
        (p, Err(Error::AlreadyConfigured))
    } else if threshold < 1 {
        (p, Err(Error::ZeroThreshold))
    } else if friends.len() == 0 || threshold > friends.len() {
        (p, Err(Error::NotEnoughFriends))
    } else if friends.len() > p.config.max_friends {
        (p, Err(Error::TooManyFriends))
    } else if !strictly_increasing(friends) {
        (p, Err(Error::NotSorted))
    } else if p.config.friend_deposit_factor * friends.len() > u64::MAX || config_deposit(
        p.config,
        friends.len(),
    ) > u64::MAX {
        (p, Err(Error::Overflow))
    } else {
        let deposit = config_deposit(p.config, friends.len()) as u64;
        let (ledger, r) = reserve_spec(p.ledger, who, deposit);
        match r {
            Err(e) => (p, Err(e)),
            Ok(_) => (
                PalletView {
                    configs: p.configs.insert(
                        who,
                        RecoveryConfigView { delay_period, deposit, friends, threshold },
                    ),
                    ledger,
                    ..p
                },
                Ok(Event::RecoveryConfigured(who)),
            ),
        }
    }
}

/// `initiate_recovery`: `who` opens an attempt on `lost` at block `now`.
pub open spec fn initiate_spec(p: PalletView, who: u64, lost: u64, now: u64) -> (
    PalletView,
    Result<Event, Error>,
) {
    if !p.configs.contains_key(lost) {
        (p, Err(Error::NotRecoverable))
    } else if p.attempts.contains_key((lost, who)) {
        (p, Err(Error::AlreadyStarted))
    } else {
        let deposit = p.config.recovery_deposit;
        let (ledger, r) = reserve_spec(p.ledger, who, deposit);
        match r {
            Err(e) => (p, Err(e)),
            Ok(_) => (
                PalletView {
                    attempts: p.attempts.insert(
                        (lost, who),
                        ActiveRecoveryView { created: now, deposit, friends: Seq::empty() },
                    ),
                    ledger,
                    ..p
                },
                Ok(Event::RecoveryInitiated(lost, who)),
            ),
        }
    }
}

/// `vouch_recovery`: the friend `who` vouches for the attempt of `rescuer` on `lost`.
pub open spec fn vouch_spec(p: PalletView, who: u64, lost: u64, rescuer: u64) -> (
    PalletView,
    Result<Event, Error>,
) {
    if !p.configs.contains_key(lost) {
        (p, Err(Error::NotRecoverable))
    } else if !p.attempts.contains_key((lost, rescuer)) {
        (p, Err(Error::NotStarted))
    } else if !p.configs[lost].friends.contains(who) {
        (p, Err(Error::NotFriend))
    } else if p.attempts[(lost, rescuer)].friends.contains(who) {
        (p, Err(Error::AlreadyVouched))
    } else {
        let a = p.attempts[(lost, rescuer)];
        (
            PalletView {
                attempts: p.attempts.insert(
                    (lost, rescuer),
                    ActiveRecoveryView { friends: insert_sorted(a.friends, who), ..a },
                ),
                ..p
            },
            Ok(Event::RecoveryVouched(lost, rescuer, who)),
        )
    }
}

/// Gives `rescuer` the right to act for `lost`, and counts one more consumer
/// reference on `rescuer`. Fails when `rescuer` holds a grant already, or when
/// its count cannot grow.
pub open spec fn grant_spec(p: PalletView, rescuer: u64, lost: u64) -> (
    PalletView,
    Result<Event, Error>,
) {
    if p.proxies.contains_key(rescuer) {
        (p, Err(Error::AlreadyProxy))
    } else if p.consumers_of(rescuer) == u32::MAX {
        (p, Err(Error::InvariantViolation))
    } else {
        (
            PalletView {
                proxies: p.proxies.insert(rescuer, lost),
                consumers: p.consumers.insert(rescuer, (p.consumers_of(rescuer) + 1) as u32),
                ..p
            },
            Ok(Event::AccountRecovered(lost, rescuer)),
        )
    }
}

/// Whether the attempt of `who` on `lost` is old enough at block `now`, when its
/// end fits in a block number.
pub open spec fn delay_passed(p: PalletView, who: u64, lost: u64, now: u64) -> bool {
    p.attempts[(lost, who)].created + p.configs[lost].delay_period <= now
}

/// Whether enough friends vouched for the attempt of `who` on `lost`.
pub open spec fn threshold_met(p: PalletView, who: u64, lost: u64) -> bool {
    p.configs[lost].threshold <= p.attempts[(lost, who)].friends.len()
}

/// `claim_recovery`: `who` claims its attempt on `lost` at block `now`.
pub open spec fn claim_spec(p: PalletView, who: u64, lost: u64, now: u64) -> (
    PalletView,
    Result<Event, Error>,
) {
    if !p.configs.contains_key(lost) {
        (p, Err(Error::NotRecoverable))
    } else if !p.attempts.contains_key((lost, who)) {
        (p, Err(Error::NotStarted))
    } else if p.proxies.contains_key(who) {
        (p, Err(Error::AlreadyProxy))
    } else if p.attempts[(lost, who)].created + p.configs[lost].delay_period > u64::MAX {
        (p, Err(Error::Overflow))
    } else if !delay_passed(p, who, lost, now) {
        (p, Err(Error::DelayPeriod))
    } else if !threshold_met(p, who, lost) {
        (p, Err(Error::InsufficientVouches))
    } else {
        grant_spec(p, who, lost)
    }
}

/// `close_recovery`: `who` closes the attempt of `rescuer` on itself; the
/// attempt's deposit goes from the rescuer's reserved balance to the free
/// balance of `who`. A transfer that the ledger refuses leaves the balances
/// as they were, and the attempt is closed all the same.
pub open spec fn close_spec(p: PalletView, who: u64, rescuer: u64) -> (
    PalletView,
    Result<Event, Error>,
) {
    if !p.attempts.contains_key((who, rescuer)) {
        (p, Err(Error::NotStarted))
    } else {
        let deposit = p.attempts[(who, rescuer)].deposit;
        (
            PalletView {
                attempts: p.attempts.remove((who, rescuer)),
                ledger: repatriate_spec(p.ledger, rescuer, who, deposit).0,
                ..p
            },
            Ok(Event::RecoveryClosed(who, rescuer)),
        )
    }
}

/// `remove_recovery`: `who` removes its configuration and gets its deposit back.
pub open spec fn remove_spec(p: PalletView, who: u64) -> (PalletView, Result<Event, Error>) {
    if p.has_attempts(who) {
        (p, Err(Error::StillActive))
    } else if !p.configs.contains_key(who) {
        (p, Err(Error::NotRecoverable))
    } else {
        (
            PalletView {
                configs: p.configs.remove(who),
                ledger: unreserve_spec(p.ledger, who, p.configs[who].deposit).0,
                ..p
            },
            Ok(Event::RecoveryRemoved(who)),
        )
    }
}

/// `cancel_recovered`: `who` gives up its grant to act for `lost`; its consumer
/// count goes down by one where it is above zero.
pub open spec fn cancel_spec(p: PalletView, who: u64, lost: u64) -> (PalletView, Result<(), Error>) {
    if !(p.proxies.contains_key(who) && p.proxies[who] == lost) {
        (p, Err(Error::NotAllowed))
    } else {
        (
            PalletView {
                proxies: p.proxies.remove(who),
                consumers: if p.consumers_of(who) > 0 {
                    p.consumers.insert(who, (p.consumers_of(who) - 1) as u32)
                } else {
                    p.consumers
                },
                ..p
            },
            Ok(()),
        )
    }
}

/// The recovery engine: configurations, open attempts and proxy grants, with
/// the ledger that holds the deposits.
pub struct Pallet {
    config: Config,
    configs: HashMapWithView<u64, RecoveryConfig>,
    attempts: HashMapWithView<u64, HashMapWithView<u64, ActiveRecovery>>,
    proxies: HashMapWithView<u64, u64>,
    consumers: HashMapWithView<u64, u32>,
    ledger: Ledger,
}

impl View for Pallet {
    type V = PalletView;

    closed spec fn view(&self) -> PalletView {
        PalletView {
            config: self.config,
            configs: self.configs@.map_values(|c: RecoveryConfig| c@),
            attempts: Map::new(
                |k: (u64, u64)|
                    self.attempts@.contains_key(k.0) && self.attempts@[k.0]@.contains_key(k.1),
                |k: (u64, u64)| self.attempts@[k.0]@[k.1]@,
            ),
            proxies: self.proxies@,
            consumers: self.consumers@,
            ledger: self.ledger@,
        }
    }
}

impl Pallet {
    /// An engine with no configuration, attempt or grant, and an empty ledger.
    pub fn new(config: Config) -> (r: Pallet)
        ensures
            r@.config == config,
            r@.configs.is_empty(),
            r@.attempts.is_empty(),
            r@.proxies.is_empty(),
            r@.consumers.is_empty(),
            forall|who: u64| r@.ledger.free_of(who) == 0 && r@.ledger.reserved_of(who) == 0,
            r@.wf(),
    {
        let r = Pallet {
            config,
            configs: HashMapWithView::new(),
            attempts: HashMapWithView::new(),
            proxies: HashMapWithView::new(),
            consumers: HashMapWithView::new(),
            ledger: Ledger::new(),
        };
        assert(r@.configs =~= Map::empty());
        assert(r@.attempts =~= Map::empty());
        r
    }

    fn attempt_exists(&self, lost: u64, rescuer: u64) -> (r: bool)
        ensures
            r == self@.attempts.contains_key((lost, rescuer)),
    {
        match self.attempts.get(&lost) {
            Some(m) => m.contains_key(&rescuer),
            None => false,
        }
    }

    /// `who` makes a recovery configuration for itself: `threshold` of `friends`
    /// must vouch, and `delay_period` blocks must pass, before a rescuer may act
    /// for it. The deposit, `config_deposit_base + friend_deposit_factor * friends.len()`,
    /// is reserved from `who`.
    pub fn create_recovery(
        &mut self,
        who: u64,
        friends: Vec<u64>,
        threshold: u16,
        delay_period: u64,
    ) -> (r: Result<Event, Error>)
        requires
            old(self)@.wf(),
        ensures
            (final(self)@, r) == create_spec(old(self)@, who, friends@, threshold, delay_period),
            final(self)@.wf(),
    {
        if self.configs.contains_key(&who) {
            return Err(Error::AlreadyConfigured);
        }
        if threshold < 1 {
            return Err(Error::ZeroThreshold);
        }
        if friends.len() == 0 || threshold as usize > friends.len() {
            return Err(Error::NotEnoughFriends);
        }
        if friends.len() > self.config.max_friends as usize {
            return Err(Error::TooManyFriends);
        }
        if !is_sorted_and_unique(&friends) {
            return Err(Error::NotSorted);
        }
        let friend_deposit = match self.config.friend_deposit_factor.checked_mul(friends.len() as u64) {
            Some(d) => d,
            None => {
                return Err(Error::Overflow);
            },
        };
        let deposit = match self.config.config_deposit_base.checked_add(friend_deposit) {
            Some(d) => d,
            None => {
                return Err(Error::Overflow);
            },
        };
        match self.ledger.reserve(who, deposit) {
            Err(e) => {
                return Err(e);
            },
            Ok(()) => {},
        }
        let config = RecoveryConfig { delay_period, deposit, friends, threshold };
        self.configs.insert(who, config);
        assert(self@ =~= create_spec(old(self)@, who, friends@, threshold, delay_period).0);
        Ok(Event::RecoveryConfigured(who))
    }

    /// `who` opens a recovery attempt on `lost` at block `now`, reserving the
    /// recovery deposit from itself.
    pub fn initiate_recovery(&mut self, who: u64, lost: u64, now: u64) -> (r: Result<Event, Error>)
        requires
            old(self)@.wf(),
        ensures
            (final(self)@, r) == initiate_spec(old(self)@, who, lost, now),
            final(self)@.wf(),
    {
        if !self.configs.contains_key(&lost) {
            return Err(Error::NotRecoverable);
        }
        if self.attempt_exists(lost, who) {
            return Err(Error::AlreadyStarted);
        }
        let deposit = self.config.recovery_deposit;
        match self.ledger.reserve(who, deposit) {
            Err(e) => {
                return Err(e);
            },
            Ok(()) => {},
        }
        let mut inner = match self.attempts.remove(&lost) {
            Some(m) => m,
            None => HashMapWithView::new(),
        };
        inner.insert(who, ActiveRecovery { created: now, deposit, friends: Vec::new() });
        self.attempts.insert(lost, inner);
        proof {
            let post = initiate_spec(old(self)@, who, lost, now).0;
            assert(self@.attempts =~= post.attempts);
            assert(self@.configs =~= post.configs);
            assert(self@ =~= post);
        }
        Ok(Event::RecoveryInitiated(lost, who))
    }

    /// The friend `who` vouches for the attempt of `rescuer` on `lost`.
    pub fn vouch_recovery(&mut self, who: u64, lost: u64, rescuer: u64) -> (r: Result<Event, Error>)
        requires
            old(self)@.wf(),
        ensures
            (final(self)@, r) == vouch_spec(old(self)@, who, lost, rescuer),
            final(self)@.wf(),
    {
        let config = match self.configs.get(&lost) {
            Some(c) => c,
            None => {
                return Err(Error::NotRecoverable);
            },
        };
        if !self.attempt_exists(lost, rescuer) {
            return Err(Error::NotStarted);
        }
        assert(config_wf(config@, self.config));
        if !contains_sorted(&config.friends, who) {
            return Err(Error::NotFriend);
        }
        let mut inner = match self.attempts.remove(&lost) {
            Some(m) => m,
            None => {
                return Err(Error::NotStarted);
            },
        };
        let mut attempt = match inner.remove(&rescuer) {
            Some(a) => a,
            None => {
                return Err(Error::NotStarted);
            },
        };
        assert(attempt_wf(attempt@, old(self)@.configs[lost]));
        let fresh = insert_sorted_vec(&mut attempt.friends, who);
        if !fresh {
            inner.insert(rescuer, attempt);
            self.attempts.insert(lost, inner);
            proof {
                assert(self@.attempts =~= old(self)@.attempts);
                assert(self@ =~= old(self)@);
            }
            return Err(Error::AlreadyVouched);
        }
        proof {
            lemma_insert_sorted(old(self)@.attempts[(lost, rescuer)].friends, who);
        }
        inner.insert(rescuer, attempt);
        self.attempts.insert(lost, inner);
        proof {
            let post = vouch_spec(old(self)@, who, lost, rescuer).0;
            assert(self@.attempts =~= post.attempts);
            assert(self@ =~= post);
            let c = post.configs[lost];
            let na = post.attempts[(lost, rescuer)];
            assert forall|x: u64| #[trigger] na.friends.contains(x) implies c.friends.contains(x) by {
                if x != who {
                    assert(old(self)@.attempts[(lost, rescuer)].friends.contains(x));
                }
            }
            assert(attempt_wf(na, c));
        }
        Ok(Event::RecoveryVouched(lost, rescuer, who))
    }

    fn consumers_of(&self, who: u64) -> (r: u32)
        ensures
            r == self@.consumers_of(who),
    {
        match self.consumers.get(&who) {
            Some(c) => *c,
            None => 0,
        }
    }

    /// Gives `rescuer` the right to act for `lost`: the one place where a grant is made.
    fn grant(&mut self, rescuer: u64, lost: u64) -> (r: Result<Event, Error>)
        requires
            old(self)@.wf(),
        ensures
            (final(self)@, r) == grant_spec(old(self)@, rescuer, lost),
    {
        if self.proxies.contains_key(&rescuer) {
            return Err(Error::AlreadyProxy);
        }
        let count = self.consumers_of(rescuer);
        if count == u32::MAX {
            return Err(Error::InvariantViolation);
        }
        self.consumers.insert(rescuer, count + 1);
        self.proxies.insert(rescuer, lost);
        proof {
            assert(self@ =~= grant_spec(old(self)@, rescuer, lost).0);
        }
        Ok(Event::AccountRecovered(lost, rescuer))
    }

    /// `who` claims its attempt on `lost` at block `now`: once enough friends
    /// vouched and the delay passed, `who` may act for `lost`. The attempt stays
    /// open, with its deposit, until `lost` closes it.
    pub fn claim_recovery(&mut self, who: u64, lost: u64, now: u64) -> (r: Result<Event, Error>)
        requires
            old(self)@.wf(),
        ensures
            (final(self)@, r) == claim_spec(old(self)@, who, lost, now),
            final(self)@.wf(),
    {
        let config = match self.configs.get(&lost) {
            Some(c) => c,
            None => {
                return Err(Error::NotRecoverable);
            },
        };
        let attempt = match self.attempts.get(&lost) {
            Some(m) => match m.get(&who) {
                Some(a) => a,
                None => {
                    return Err(Error::NotStarted);
                },
            },
            None => {
                return Err(Error::NotStarted);
            },
        };
        if self.proxies.contains_key(&who) {
            return Err(Error::AlreadyProxy);
        }
        let recoverable = match attempt.created.checked_add(config.delay_period) {
            Some(b) => b,
            None => {
                return Err(Error::Overflow);
            },
        };
        if recoverable > now {
            return Err(Error::DelayPeriod);
        }
        if (config.threshold as usize) > attempt.friends.len() {
            return Err(Error::InsufficientVouches);
        }
        let r = self.grant(who, lost);
        proof {
            assert(self@.configs =~= old(self)@.configs);
            assert(self@.attempts =~= old(self)@.attempts);
        }
        r
    }

    /// The root authority lets `rescuer` act for `lost` without any attempt.
    pub fn set_recovered(&mut self, lost: u64, rescuer: u64) -> (r: Result<Event, Error>)
        requires
            old(self)@.wf(),
        ensures
            (final(self)@, r) == grant_spec(old(self)@, rescuer, lost),
            final(self)@.wf(),
    {
        let r = self.grant(rescuer, lost);
        proof {
            assert(self@.configs =~= old(self)@.configs);
            assert(self@.attempts =~= old(self)@.attempts);
        }
        r
    }

    /// `who`, the protected account, closes the attempt of `rescuer` on it: the
    /// attempt's deposit moves from the rescuer's reserved balance to the free
    /// balance of `who`.
    pub fn close_recovery(&mut self, who: u64, rescuer: u64) -> (r: Result<Event, Error>)
        requires
            old(self)@.wf(),
        ensures
            (final(self)@, r) == close_spec(old(self)@, who, rescuer),
            final(self)@.wf(),
    {
        let mut inner = match self.attempts.remove(&who) {
            Some(m) => m,
            None => {
                return Err(Error::NotStarted);
            },
        };
        let attempt = match inner.remove(&rescuer) {
            Some(a) => a,
            None => {
                self.attempts.insert(who, inner);
                proof {
                    assert(self@.attempts =~= old(self)@.attempts);
                    assert(self@ =~= old(self)@);
                }
                return Err(Error::NotStarted);
            },
        };
        self.attempts.insert(who, inner);
        let _ = self.ledger.repatriate_reserved(rescuer, who, attempt.deposit);
        proof {
            let post = close_spec(old(self)@, who, rescuer).0;
            assert(self@.attempts =~= post.attempts);
            assert(self@ =~= post);
        }
        Ok(Event::RecoveryClosed(who, rescuer))
    }

    /// `who` removes its recovery configuration, once no attempt on it is open,
    /// and gets the configuration's deposit back.
    pub fn remove_recovery(&mut self, who: u64) -> (r: Result<Event, Error>)
        requires
            old(self)@.wf(),
        ensures
            (final(self)@, r) == remove_spec(old(self)@, who),
            final(self)@.wf(),
    {
        let active = match self.attempts.get(&who) {
            Some(m) => !m.is_empty(),
            None => false,
        };
        if active {
            proof {
                let k = choose|k: u64| self.attempts@[who]@.contains_key(k);
                assert(self@.attempts.contains_key((who, k)));
            }
            return Err(Error::StillActive);
        }
        proof {
            assert forall|k: u64| !self@.attempts.contains_key((who, k)) by {
                if self.attempts@.contains_key(who) {
                    assert(!self.attempts@[who]@.dom().contains(k));
                }
            }
        }
        let config = match self.configs.remove(&who) {
            Some(c) => c,
            None => {
                return Err(Error::NotRecoverable);
            },
        };
        self.ledger.unreserve(who, config.deposit);
        proof {
            let post = remove_spec(old(self)@, who).0;
            assert(self@.configs =~= post.configs);
            assert(self@ =~= post);
        }
        Ok(Event::RecoveryRemoved(who))
    }

    /// `who` gives up its grant to act for `lost`.
    pub fn cancel_recovered(&mut self, who: u64, lost: u64) -> (r: Result<(), Error>)
        requires
            old(self)@.wf(),
        ensures
            (final(self)@, r) == cancel_spec(old(self)@, who, lost),
            final(self)@.wf(),
    {
        match self.proxies.get(&who) {
            Some(target) => {
                if *target != lost {
                    return Err(Error::NotAllowed);
                }
            },
            None => {
                return Err(Error::NotAllowed);
            },
        }
        self.proxies.remove(&who);
        let count = self.consumers_of(who);
        if count > 0 {
            self.consumers.insert(who, count - 1);
        }
        proof {
            assert(self@ =~= cancel_spec(old(self)@, who, lost).0);
        }
        Ok(())
    }

    /// Checks that `who` may act for `account`, and returns the account under
    /// whose identity the action is then to be dispatched.
    pub fn as_recovered(&self, who: u64, account: u64) -> (r: Result<u64, Error>)
        ensures
            r == (if self@.proxies.contains_key(who) && self@.proxies[who] == account {
                Ok::<u64, Error>(account)
            } else {
                Err::<u64, Error>(Error::NotAllowed)
            }),
    {
        match self.proxies.get(&who) {
            Some(target) => {
                if *target == account {
                    Ok(account)
                } else {
                    Err(Error::NotAllowed)
                }
            },
            None => Err(Error::NotAllowed),
        }
    }

    /// The constants the engine was made with.
    pub fn config(&self) -> (r: Config)
        ensures
            r == self@.config,
    {
        self.config
    }

    /// The recovery configuration of `who`, if it has one.
    pub fn recovery_config(&self, who: u64) -> (r: Option<&RecoveryConfig>)
        ensures
            match r {
                Some(c) => self@.configs.contains_key(who) && c@ == self@.configs[who],
                None => !self@.configs.contains_key(who),
            },
    {
        self.configs.get(&who)
    }

    /// The open attempt of `rescuer` on `lost`, if there is one.
    pub fn active_recovery(&self, lost: u64, rescuer: u64) -> (r: Option<&ActiveRecovery>)
        ensures
            match r {
                Some(a) => self@.attempts.contains_key((lost, rescuer)) && a@ == self@.attempts[(
                lost,
                rescuer,
                )],
                None => !self@.attempts.contains_key((lost, rescuer)),
            },
    {
        match self.attempts.get(&lost) {
            Some(m) => m.get(&rescuer),
            None => None,
        }
    }

    /// The account that `who` may act for, if any.
    pub fn proxy(&self, who: u64) -> (r: Option<u64>)
        ensures
            r == (if self@.proxies.contains_key(who) {
                Some(self@.proxies[who])
            } else {
                None::<u64>
            }),
    {
        match self.proxies.get(&who) {
            Some(t) => Some(*t),
            None => None,
        }
    }

    /// How many proxy grants hold a consumer reference on `who`.
    pub fn consumers(&self, who: u64) -> (r: u32)
        ensures
            r == self@.consumers_of(who),
    {
        self.consumers_of(who)
    }

    /// The free balance of `who` in the engine's ledger.
    pub fn free_balance(&self, who: u64) -> (r: u64)
        ensures
            r == self@.ledger.free_of(who),
    {
        self.ledger.free_balance(who)
    }

    /// The reserved balance of `who` in the engine's ledger.
    pub fn reserved_balance(&self, who: u64) -> (r: u64)
        ensures
            r == self@.ledger.reserved_of(who),
    {
        self.ledger.reserved_balance(who)
    }

    /// Sets the free balance of `who`, as the host does when it credits an account.
    pub fn set_free_balance(&mut self, who: u64, amount: u64)
        requires
            old(self)@.wf(),
        ensures
            final(self)@ == (PalletView { ledger: old(self)@.ledger.with_free(who, amount), ..old(self)@ }),
            final(self)@.wf(),
    {
        self.ledger.set_free_balance(who, amount);
        proof {
            assert(self@.configs =~= old(self)@.configs);
            assert(self@.attempts =~= old(self)@.attempts);
        }
    }
}

} // verus!
