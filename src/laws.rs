use vstd::prelude::*;
use crate::pallet::{
    PalletView,
    config_deposit,
    create_spec,
    initiate_spec,
    vouch_spec,
    claim_spec,
    close_spec,
    remove_spec,
};
use crate::sorted::{strictly_increasing, lemma_insert_sorted};
use crate::types::{Error, Event};

verus! {

/// In every well-formed state, and so in every state the engine reaches, each
/// configuration's friends are strictly increasing.
pub proof fn lemma_friends_strictly_increasing(p: PalletView, lost: u64)
    requires
        p.wf(),
        p.configs.contains_key(lost),
    ensures
        strictly_increasing(p.configs[lost].friends),
{
}

/// In every well-formed state, and so in every state the engine reaches, each
/// attempt's vouchers are strictly increasing and are friends of the account.
pub proof fn lemma_vouchers_are_sorted_friends(p: PalletView, lost: u64, rescuer: u64, x: u64)
    requires
        p.wf(),
        p.attempts.contains_key((lost, rescuer)),
    ensures
        p.configs.contains_key(lost),
        strictly_increasing(p.attempts[(lost, rescuer)].friends),
        p.attempts[(lost, rescuer)].friends.contains(x) ==> p.configs[lost].friends.contains(x),
{
}

/// Making a configuration and then removing it gives every account back the free
/// and reserved balance it had, and leaves the configurations as they were.
pub proof fn lemma_create_remove_round_trip(
    p: PalletView,
    who: u64,
    friends: Seq<u64>,
    threshold: u16,
    delay_period: u64,
)
    requires
        p.wf(),
        create_spec(p, who, friends, threshold, delay_period).1 is Ok,
    ensures
        ({
            let p1 = create_spec(p, who, friends, threshold, delay_period).0;
            let (p2, r) = remove_spec(p1, who);
            &&& r == Ok::<Event, Error>(Event::RecoveryRemoved(who))
            &&& p2.configs == p.configs
            &&& p2.attempts == p.attempts
            &&& forall|a: u64|
                p2.ledger.free_of(a) == p.ledger.free_of(a) && p2.ledger.reserved_of(a)
                    == p.ledger.reserved_of(a)
        }),
{
    let p1 = create_spec(p, who, friends, threshold, delay_period).0;
    let deposit = config_deposit(p.config, friends.len()) as u64;
    assert(!p.has_attempts(who)) by {
        if p.has_attempts(who) {
            let r = choose|r: u64| p.attempts.contains_key((who, r));
            assert(p.configs.contains_key(who));
        }
    }
    assert(!p1.has_attempts(who));
    assert(p1.configs[who].deposit == deposit);
    assert(remove_spec(p1, who).0.configs =~= p.configs);
}

/// Opening an attempt and having the account close it moves exactly the recovery
/// deposit from the rescuer's free balance to the account's free balance: the
/// rescuer's reserved balance ends where it began, and no other balance moves.
/// An account that opens an attempt on itself ends where it began.
pub proof fn lemma_initiate_close_forfeits_deposit(p: PalletView, rescuer: u64, lost: u64, now: u64)
    requires
        p.wf(),
        initiate_spec(p, rescuer, lost, now).1 is Ok,
        rescuer != lost ==> p.ledger.free_of(lost) + p.config.recovery_deposit <= u64::MAX,
    ensures
        ({
            let p1 = initiate_spec(p, rescuer, lost, now).0;
            let (p2, r) = close_spec(p1, lost, rescuer);
            let d = p.config.recovery_deposit;
            &&& r == Ok::<Event, Error>(Event::RecoveryClosed(lost, rescuer))
            &&& p2.attempts == p.attempts
            &&& p2.ledger.reserved_of(rescuer) == p.ledger.reserved_of(rescuer)
            &&& rescuer != lost ==> p2.ledger.free_of(rescuer) == p.ledger.free_of(rescuer) - d
                && p2.ledger.free_of(lost) == p.ledger.free_of(lost) + d
            &&& rescuer == lost ==> p2.ledger.free_of(lost) == p.ledger.free_of(lost)
            &&& forall|a: u64|
                a != rescuer && a != lost ==> p2.ledger.free_of(a) == p.ledger.free_of(a)
                    && p2.ledger.reserved_of(a) == p.ledger.reserved_of(a)
        }),
{
    let p1 = initiate_spec(p, rescuer, lost, now).0;
    assert(close_spec(p1, lost, rescuer).0.attempts =~= p.attempts);
}

/// With a configuration and an attempt in place, no grant held by the rescuer,
/// an end of the delay that fits in a block number, and room in the rescuer's
/// consumer count, a claim succeeds exactly when enough friends vouched and the
/// delay passed. A claim that misses only the delay fails with `DelayPeriod`; one
/// that misses only the vouches fails with `InsufficientVouches`.
pub proof fn lemma_claim_succeeds_iff_ready(p: PalletView, who: u64, lost: u64, now: u64)
    requires
        p.wf(),
        p.configs.contains_key(lost),
        p.attempts.contains_key((lost, who)),
        !p.proxies.contains_key(who),
        p.attempts[(lost, who)].created + p.configs[lost].delay_period <= u64::MAX,
        p.consumers_of(who) < u32::MAX,
    ensures
        ({
            let a = p.attempts[(lost, who)];
            let c = p.configs[lost];
            let delay_ok = a.created + c.delay_period <= now;
            let vouches_ok = c.threshold <= a.friends.len();
            let r = claim_spec(p, who, lost, now).1;
            &&& r is Ok <==> (delay_ok && vouches_ok)
            &&& !delay_ok && vouches_ok ==> r == Err::<Event, Error>(Error::DelayPeriod)
            &&& delay_ok && !vouches_ok ==> r == Err::<Event, Error>(Error::InsufficientVouches)
            &&& r is Ok ==> claim_spec(p, who, lost, now).0.proxies == p.proxies.insert(who, lost)
        }),
{
}

/// A friend that vouched for an attempt cannot vouch for it again, and an account
/// that is not a friend cannot vouch at all.
pub proof fn lemma_vouch_once_and_only_friends(p: PalletView, who: u64, lost: u64, rescuer: u64)
    requires
        p.wf(),
        p.configs.contains_key(lost),
        p.attempts.contains_key((lost, rescuer)),
    ensures
        !p.configs[lost].friends.contains(who) ==> vouch_spec(p, who, lost, rescuer) == (
            p,
            Err::<Event, Error>(Error::NotFriend),
        ),
        vouch_spec(p, who, lost, rescuer).1 is Ok ==> ({
            let p1 = vouch_spec(p, who, lost, rescuer).0;
            vouch_spec(p1, who, lost, rescuer) == (p1, Err::<Event, Error>(Error::AlreadyVouched))
        }),
{
    if vouch_spec(p, who, lost, rescuer).1 is Ok {
        lemma_insert_sorted(p.attempts[(lost, rescuer)].friends, who);
    }
}

/// While some attempt on an account is open, whatever its age and whether or not
/// it was claimed, the account cannot remove its configuration.
pub proof fn lemma_remove_blocked_by_attempts(p: PalletView, who: u64)
    requires
        p.has_attempts(who),
    ensures
        remove_spec(p, who) == (p, Err::<Event, Error>(Error::StillActive)),
{
}

} // verus!
