use vstd::prelude::*;
use vstd::hash_map::HashMapWithView;
use crate::types::Error;

verus! {

broadcast use vstd::std_specs::hash::group_hash_axioms;

/// The amount that `m` holds for `who`; an account it does not name holds nothing.
pub open spec fn amount_of(m: Map<u64, u64>, who: u64) -> u64 {
    if m.contains_key(who) {
        m[who]
    } else {
        0
    }
}

/// The model of the ledger: each account's free and reserved balance.
pub struct LedgerView {
    pub free: Map<u64, u64>,
    pub reserved: Map<u64, u64>,
}

impl LedgerView {
    pub open spec fn free_of(self, who: u64) -> u64 {
        amount_of(self.free, who)
    }

    pub open spec fn reserved_of(self, who: u64) -> u64 {
        amount_of(self.reserved, who)
    }

    pub open spec fn with_free(self, who: u64, v: u64) -> LedgerView {
        LedgerView { free: self.free.insert(who, v), ..self }
    }

    pub open spec fn with_reserved(self, who: u64, v: u64) -> LedgerView {
        LedgerView { reserved: self.reserved.insert(who, v), ..self }
    }
}

/// Moves `amount` of `who`'s free balance to its reserved balance.
/// Fails with `InsufficientBalance` when the free balance is smaller, and with
/// `Overflow` when the reserved balance would not fit.
pub open spec fn reserve_spec(l: LedgerView, who: u64, amount: u64) -> (LedgerView, Result<(), Error>) {
    if l.free_of(who) < amount {
        (l, Err(Error::InsufficientBalance))
    } else if l.reserved_of(who) + amount > u64::MAX {
        (l, Err(Error::Overflow))
    } else {
        (
            l.with_free(who, (l.free_of(who) - amount) as u64).with_reserved(
                who,
                (l.reserved_of(who) + amount) as u64,
            ),
            Ok(()),
        )
    }
}

/// The smaller of two amounts.
pub open spec fn min_amount(a: u64, b: u64) -> u64 {
    if a <= b {
        a
    } else {
        b
    }
}

/// Moves as much of `amount` as is reserved for `who` back to its free balance,
/// which saturates at the largest amount; the result is what could not be moved.
pub open spec fn unreserve_spec(l: LedgerView, who: u64, amount: u64) -> (LedgerView, u64) {
    let actual = min_amount(amount, l.reserved_of(who));
    let free = if l.free_of(who) + actual > u64::MAX {
        u64::MAX
    } else {
        (l.free_of(who) + actual) as u64
    };
    (
        l.with_reserved(who, (l.reserved_of(who) - actual) as u64).with_free(who, free),
        (amount - actual) as u64,
    )
}

/// Moves as much of `amount` as is reserved for `from` to the free balance of `to`;
/// the result is what could not be moved. When `from` and `to` are one account this
/// is `unreserve_spec`. Fails with `Overflow`, changing nothing, when the free balance
/// of `to` would not fit.
pub open spec fn repatriate_spec(l: LedgerView, from: u64, to: u64, amount: u64) -> (
    LedgerView,
    Result<u64, Error>,
) {
    if from == to {
        let (l2, rest) = unreserve_spec(l, from, amount);
        (l2, Ok(rest))
    } else {
        let actual = min_amount(amount, l.reserved_of(from));
        if l.free_of(to) + actual > u64::MAX {
            (l, Err(Error::Overflow))
        } else {
            (
                l.with_reserved(from, (l.reserved_of(from) - actual) as u64).with_free(
                    to,
                    (l.free_of(to) + actual) as u64,
                ),
                Ok((amount - actual) as u64),
            )
        }
    }
}

/// Free and reserved balances of accounts.
pub struct Ledger {
    free: HashMapWithView<u64, u64>,
    reserved: HashMapWithView<u64, u64>,
}

impl View for Ledger {
    type V = LedgerView;

    closed spec fn view(&self) -> LedgerView {
        LedgerView { free: self.free@, reserved: self.reserved@ }
    }
}

impl Ledger {
    /// A ledger in which every account holds nothing.
    pub fn new() -> (r: Ledger)
        ensures
            forall|who: u64| r@.free_of(who) == 0 && r@.reserved_of(who) == 0,
    {
        Ledger { free: HashMapWithView::new(), reserved: HashMapWithView::new() }
    }

    fn get_amount(m: &HashMapWithView<u64, u64>, who: u64) -> (r: u64)
        ensures
            r == amount_of(m@, who),
    {
        match m.get(&who) {
            Some(v) => *v,
            None => 0,
        }
    }

    /// The free balance of `who`.
    pub fn free_balance(&self, who: u64) -> (r: u64)
        ensures
            r == self@.free_of(who),
    {
        Self::get_amount(&self.free, who)
    }

    /// The reserved balance of `who`.
    pub fn reserved_balance(&self, who: u64) -> (r: u64)
        ensures
            r == self@.reserved_of(who),
    {
        Self::get_amount(&self.reserved, who)
    }

    /// Sets the free balance of `who`, as a host does when it credits an account.
    pub fn set_free_balance(&mut self, who: u64, amount: u64)
        ensures
            final(self)@ == old(self)@.with_free(who, amount),
    {
        self.free.insert(who, amount);
        proof {
            assert(self@ =~= old(self)@.with_free(who, amount));
        }
    }

    /// Reserves `amount` of the free balance of `who`.
    pub fn reserve(&mut self, who: u64, amount: u64) -> (r: Result<(), Error>)
        ensures
            (final(self)@, r) == reserve_spec(old(self)@, who, amount),
    {
        let free = self.free_balance(who);
        let reserved = self.reserved_balance(who);
        if free < amount {
            return Err(Error::InsufficientBalance);
        }
        match reserved.checked_add(amount) {
            None => Err(Error::Overflow),
            Some(total) => {
                self.free.insert(who, free - amount);
                self.reserved.insert(who, total);
                proof {
                    assert(self@ =~= reserve_spec(old(self)@, who, amount).0);
                }
                Ok(())
            },
        }
    }

    /// Returns up to `amount` of the reserved balance of `who` to its free balance;
    /// the result is the part of `amount` that was not reserved.
    pub fn unreserve(&mut self, who: u64, amount: u64) -> (r: u64)
        ensures
            (final(self)@, r) == unreserve_spec(old(self)@, who, amount),
    {
        let free = self.free_balance(who);
        let reserved = self.reserved_balance(who);
        let actual = if amount <= reserved {
            amount
        } else {
            reserved
        };
        self.reserved.insert(who, reserved - actual);
        self.free.insert(who, free.saturating_add(actual));
        proof {
            assert(self@ =~= unreserve_spec(old(self)@, who, amount).0);
        }
        amount - actual
    }

    /// Moves up to `amount` of the reserved balance of `from` to the free balance of
    /// `to`; the result is the part of `amount` that was not reserved.
    pub fn repatriate_reserved(&mut self, from: u64, to: u64, amount: u64) -> (r: Result<u64, Error>)
        ensures
            (final(self)@, r) == repatriate_spec(old(self)@, from, to, amount),
    {
        if from == to {
            return Ok(self.unreserve(from, amount));
        }
        let reserved = self.reserved_balance(from);
        let to_free = self.free_balance(to);
        let actual = if amount <= reserved {
            amount
        } else {
            reserved
        };
        match to_free.checked_add(actual) {
            None => Err(Error::Overflow),
            Some(total) => {
                self.reserved.insert(from, reserved - actual);
                self.free.insert(to, total);
                proof {
                    assert(self@ =~= repatriate_spec(old(self)@, from, to, amount).0);
                }
                Ok(amount - actual)
            },
        }
    }
}

} // verus!
