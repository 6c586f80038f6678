use vstd::prelude::*;
use crate::{bytes32_eq, Bytes32};

verus! {

/// Everything that can go wrong in the escrow ledger.
#[derive(Clone, Copy, Debug, PartialEq, Eq, Structural)]
pub enum Error {
    Unauthorized,
    ConfigNotSet,
    InsufficientBalance,
    InvalidAmount,
}

/// The escrow ledger: how much each participant has locked. The token
/// transfers themselves are the host's business; this account book decides
/// whether they may happen and keeps the per-participant balances.
pub struct PaymentController {
    entries: Vec<(Bytes32, i128)>,
}

/// The balance the entry list assigns to `player`: the value at its first
/// (and, with unique keys, only) entry, or zero.
pub closed spec fn find_balance(entries: Seq<(Bytes32, i128)>, player: Seq<u8>) -> int
    decreases entries.len(),
{
    if entries.len() == 0 {
        0
    } else if entries[0].0@ == player {
        entries[0].1 as int
    } else {
        find_balance(entries.drop_first(), player)
    }
}

/// Unique keys in the entry list.
pub closed spec fn unique_keys(entries: Seq<(Bytes32, i128)>) -> bool {
    forall|i: int, j: int|
        0 <= i < j < entries.len() ==> entries[i].0@ != entries[j].0@
}

/// With unique keys, the balance of the key at position `i` is its value.
proof fn lemma_find_balance_at(entries: Seq<(Bytes32, i128)>, player: Seq<u8>, i: int)
    requires
        unique_keys(entries),
        0 <= i < entries.len(),
        entries[i].0@ == player,
    ensures
        find_balance(entries, player) == entries[i].1,
    decreases entries.len(),
{
    if entries[0].0@ == player {
        assert(i == 0);
    } else {
        assert(unique_keys(entries.drop_first()));
        lemma_find_balance_at(entries.drop_first(), player, i - 1);
    }
}

/// A key that appears nowhere has balance zero.
proof fn lemma_find_balance_absent(entries: Seq<(Bytes32, i128)>, player: Seq<u8>)
    requires
        forall|j: int| 0 <= j < entries.len() ==> entries[j].0@ != player,
    ensures
        find_balance(entries, player) == 0,
    decreases entries.len(),
{
    if entries.len() > 0 {
        lemma_find_balance_absent(entries.drop_first(), player);
    }
}

/// Replacing the value at one entry changes that key's balance and no other.
proof fn lemma_find_balance_update(
    entries: Seq<(Bytes32, i128)>,
    i: int,
    v: i128,
    player: Seq<u8>,
)
    requires
        unique_keys(entries),
        0 <= i < entries.len(),
        entries[i].0@ == player,
    ensures
        find_balance(entries.update(i, (entries[i].0, v)), player) == v,
        forall|q: Seq<u8>|
            q != player ==> find_balance(entries.update(i, (entries[i].0, v)), q) == find_balance(
                entries,
                q,
            ),
        unique_keys(entries.update(i, (entries[i].0, v))),
    decreases entries.len(),
{
    let updated = entries.update(i, (entries[i].0, v));
    assert(unique_keys(updated));
    if i == 0 {
        assert(updated.drop_first() =~= entries.drop_first());
    } else {
        assert(updated[0] == entries[0]);
        assert(updated.drop_first() =~= entries.drop_first().update(i - 1, (entries[i].0, v)));
        assert(unique_keys(entries.drop_first()));
        assert(entries.drop_first()[i - 1] == entries[i]);
        lemma_find_balance_update(entries.drop_first(), i - 1, v, player);
        assert forall|q: Seq<u8>| q != player implies find_balance(updated, q) == find_balance(
            entries,
            q,
        ) by {
            if entries[0].0@ != q {
                assert(find_balance(updated, q) == find_balance(updated.drop_first(), q));
                assert(find_balance(entries, q) == find_balance(entries.drop_first(), q));
            }
        }
    }
}

/// Appending an entry with a fresh key gives that key its value as balance
/// and leaves every other key's balance alone.
proof fn lemma_find_balance_push(entries: Seq<(Bytes32, i128)>, entry: (Bytes32, i128))
    requires
        forall|j: int| 0 <= j < entries.len() ==> entries[j].0@ != entry.0@,
    ensures
        find_balance(entries.push(entry), entry.0@) == entry.1,
        forall|q: Seq<u8>|
            q != entry.0@ ==> find_balance(entries.push(entry), q) == find_balance(entries, q),
    decreases entries.len(),
{
    if entries.len() == 0 {
        assert(entries.push(entry).drop_first() =~= Seq::<(Bytes32, i128)>::empty());
        assert forall|q: Seq<u8>| q != entry.0@ implies find_balance(entries.push(entry), q)
            == find_balance(entries, q) by {
            lemma_find_balance_absent(entries.push(entry).drop_first(), q);
        }
    } else {
        assert(entries.push(entry).drop_first() =~= entries.drop_first().push(entry));
        lemma_find_balance_push(entries.drop_first(), entry);
        assert(entries.push(entry)[0] == entries[0]);
        assert forall|q: Seq<u8>| q != entry.0@ implies find_balance(entries.push(entry), q)
            == find_balance(entries, q) by {
            if entries[0].0@ != q {
                assert(find_balance(entries.push(entry), q) == find_balance(
                    entries.push(entry).drop_first(),
                    q,
                ));
                assert(find_balance(entries.drop_first().push(entry), q) == find_balance(
                    entries.drop_first(),
                    q,
                ));
            }
        }
    }
}

impl PaymentController {
    /// What each participant has locked in escrow.
    pub closed spec fn balance_of(self, player: Seq<u8>) -> int {
        find_balance(self.entries@, player)
    }

    /// The ledger's invariant: no negative balance, one entry per key.
    pub closed spec fn wf(self) -> bool {
        &&& forall|i: int| 0 <= i < self.entries@.len() ==> self.entries@[i].1 >= 0
        &&& unique_keys(self.entries@)
    }

    /// An empty ledger: nothing locked for anyone.
    pub fn new() -> (r: PaymentController)
        ensures
            r.wf(),
            forall|q: Seq<u8>| r.balance_of(q) == 0,
    {
        let r = PaymentController { entries: Vec::new() };
        proof {
            assert forall|q: Seq<u8>| r.balance_of(q) == 0 by {
                lemma_find_balance_absent(r.entries@, q);
            }
        }
        r
    }

    /// The position of `player`'s entry, if one exists.
    fn find_index(&self, player: &Bytes32) -> (r: Option<usize>)
        ensures
            (match r {
                Some(i) => i < self.entries@.len() && self.entries@[i as int].0@ == player@,
                None => forall|j: int|
                    0 <= j < self.entries@.len() ==> self.entries@[j].0@ != player@,
            }),
    {
        let mut i: usize = 0;
        while i < self.entries.len()
            invariant
                i <= self.entries@.len(),
                forall|j: int| 0 <= j < i ==> self.entries@[j].0@ != player@,
            decreases self.entries@.len() - i,
        {
            if bytes32_eq(&self.entries[i].0, player) {
                return Some(i);
            }
            i += 1;
        }
        None
    }

    /// Locks `amount` for `player`: a non-positive amount is rejected,
    /// otherwise the participant's balance grows by exactly `amount` and no
    /// other balance moves.
    pub fn lock_funds(&mut self, player: &Bytes32, amount: i128) -> (r: Result<(), Error>)
        requires
            old(self).wf(),
            old(self).balance_of(player@) + amount <= i128::MAX,
        ensures
            final(self).wf(),
            amount <= 0 ==> r == Err::<(), Error>(Error::InvalidAmount)
                && *final(self) == *old(self),
            amount > 0 ==> r is Ok
                && final(self).balance_of(player@) == old(self).balance_of(player@) + amount,
            forall|q: Seq<u8>|
                q != player@ ==> final(self).balance_of(q) == old(self).balance_of(q),
    {
        if amount <= 0 {
            return Err(Error::InvalidAmount);
        }
        let ghost pre = self.entries@;
        match self.find_index(player) {
            Some(i) => {
                let key = self.entries[i].0;
                let balance = self.entries[i].1;
                proof {
                    lemma_find_balance_at(pre, player@, i as int);
                }
                let updated = balance + amount;
                self.entries[i] = (key, updated);
                proof {
                    lemma_find_balance_update(pre, i as int, updated, player@);
                    assert(self.entries@ == pre.update(i as int, (pre[i as int].0, updated)));
                }
            },
            None => {
                self.entries.push((*player, amount));
                proof {
                    lemma_find_balance_absent(pre, player@);
                    lemma_find_balance_push(pre, (*player, amount));
                    assert(self.entries@ == pre.push((*player, amount)));
                    assert(unique_keys(self.entries@));
                }
            },
        }
        Ok(())
    }

    /// Approves a payout: the amounts must not be negative. The ledger does
    /// not track the pot itself, so nothing else is checked or changed.
    pub fn payout_winner(&self, winner: &Bytes32, payout: i128, rake: i128) -> (r: Result<
        (),
        Error,
    >)
        ensures
            r is Ok <==> payout >= 0 && rake >= 0,
            r is Err ==> r == Err::<(), Error>(Error::InvalidAmount),
    {
        if payout < 0 || rake < 0 {
            return Err(Error::InvalidAmount);
        }
        Ok(())
    }

    /// Refunds `amount` to `player`: a non-positive amount is rejected, a
    /// balance below `amount` is insufficient, and otherwise the balance
    /// shrinks by exactly `amount` while every other balance stays.
    pub fn refund_on_timeout(&mut self, player: &Bytes32, amount: i128) -> (r: Result<(), Error>)
        requires
            old(self).wf(),
        ensures
            final(self).wf(),
            amount <= 0 ==> r == Err::<(), Error>(Error::InvalidAmount)
                && *final(self) == *old(self),
            amount > 0 && old(self).balance_of(player@) < amount ==> r == Err::<(), Error>(
                Error::InsufficientBalance,
            ) && *final(self) == *old(self),
            amount > 0 && old(self).balance_of(player@) >= amount ==> r is Ok
                && final(self).balance_of(player@) == old(self).balance_of(player@) - amount,
            forall|q: Seq<u8>|
                q != player@ ==> final(self).balance_of(q) == old(self).balance_of(q),
    {
        if amount <= 0 {
            return Err(Error::InvalidAmount);
        }
        let balance = self.get_escrow_balance(player);
        if balance < amount {
            return Err(Error::InsufficientBalance);
        }
        let ghost pre = self.entries@;
        match self.find_index(player) {
            Some(i) => {
                let key = self.entries[i].0;
                let stored = self.entries[i].1;
                proof {
                    lemma_find_balance_at(pre, player@, i as int);
                }
                let updated = stored - amount;
                self.entries[i] = (key, updated);
                proof {
                    lemma_find_balance_update(pre, i as int, updated, player@);
                    assert(self.entries@ == pre.update(i as int, (pre[i as int].0, updated)));
                }
            },
            None => {
                proof {
                    lemma_find_balance_absent(pre, player@);
                }
                return Err(Error::InsufficientBalance);
            },
        }
        Ok(())
    }

    /// What `player` currently has locked.
    pub fn get_escrow_balance(&self, player: &Bytes32) -> (r: i128)
        requires
            self.wf(),
        ensures
            r == self.balance_of(player@),
            r >= 0,
    {
        match self.find_index(player) {
            Some(i) => {
                proof {
                    lemma_find_balance_at(self.entries@, player@, i as int);
                }
                self.entries[i].1
            },
            None => {
                proof {
                    lemma_find_balance_absent(self.entries@, player@);
                }
                0
            },
        }
    }
}

} // verus!
