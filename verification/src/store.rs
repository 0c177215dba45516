//! The account store: the persistent mapping from identity to token balance
//! and the single source of truth.
//!
//! The store is held behind an exclusive reference by every operation, so a
//! read-compute-write sequence inside one operation is a single serialized
//! critical section: no two mutations of the same identity can interleave. A
//! backend with genuine concurrency must preserve exactly this discipline,
//! with an atomic update or a per-identity lock.

use vstd::prelude::*;
use vstd::pervasive::VecAdditionalExecFns;

verus! {

/// Failure of a single store operation against one identity key.
#[derive(Clone, Copy, Debug, PartialEq, Eq, Structural)]
pub enum StoreError {
    /// The identity already had a row when a new one was to be inserted.
    Conflict,
    /// The identity had no row when one was to be overwritten.
    NotFound,
}

/// One persisted account row: an immutable identity and its token balance.
pub struct Account {
    pub identity: String,
    pub balance: i32,
}

/// No two rows name the same identity.
pub open spec fn identities_distinct(rows: Seq<Account>) -> bool {
    forall|i: int, j: int|
        0 <= i < j < rows.len() ==> (#[trigger] rows[i].identity@) != (#[trigger] rows[j].identity@)
}

/// Every row's balance is non-negative.
pub open spec fn balances_nonnegative(rows: Seq<Account>) -> bool {
    forall|i: int| 0 <= i < rows.len() ==> (#[trigger] rows[i]).balance >= 0
}

/// The mapping that a sequence of rows denotes.
pub open spec fn seq_contents(rows: Seq<Account>) -> Map<Seq<char>, int>
    decreases rows.len(),
{
    if rows.len() == 0 {
        Map::empty()
    } else {
        seq_contents(rows.drop_last()).insert(
            rows.last().identity@,
            rows.last().balance as int,
        )
    }
}

/// A key is in the denoted mapping exactly when some row names it.
proof fn lemma_contents_key(rows: Seq<Account>, key: Seq<char>)
    ensures
        seq_contents(rows).contains_key(key) <==> exists|i: int|
            0 <= i < rows.len() && (#[trigger] rows[i].identity@) == key,
    decreases rows.len(),
{
    if rows.len() > 0 {
        lemma_contents_key(rows.drop_last(), key);
        if rows.last().identity@ == key {
            assert(rows[rows.len() - 1].identity@ == key);
        } else if seq_contents(rows.drop_last()).contains_key(key) {
            let i = choose|i: int|
                0 <= i < rows.drop_last().len() && (#[trigger] rows.drop_last()[i].identity@)
                    == key;
            assert(rows[i].identity@ == key);
        } else if exists|i: int| 0 <= i < rows.len() && (#[trigger] rows[i].identity@) == key {
            let i = choose|i: int| 0 <= i < rows.len() && (#[trigger] rows[i].identity@) == key;
            assert(i < rows.len() - 1);
            assert(rows.drop_last()[i].identity@ == key);
        }
    }
}

/// With distinct identities, the denoted mapping agrees with each row.
proof fn lemma_contents_at(rows: Seq<Account>, i: int)
    requires
        identities_distinct(rows),
        0 <= i < rows.len(),
    ensures
        seq_contents(rows).contains_key(rows[i].identity@),
        seq_contents(rows)[rows[i].identity@] == rows[i].balance as int,
    decreases rows.len(),
{
    if i == rows.len() - 1 {
    } else {
        assert(identities_distinct(rows.drop_last())) by {
            assert(forall|p: int, q: int|
                0 <= p < q < rows.drop_last().len() ==> rows.drop_last()[p] == rows[p]
                    && rows.drop_last()[q] == rows[q]);
        }
        assert(rows.drop_last()[i] == rows[i]);
        lemma_contents_at(rows.drop_last(), i);
        assert(rows[i].identity@ != rows.last().identity@);
    }
}

/// Overwriting one row's balance inserts its key into the denoted mapping.
proof fn lemma_contents_update(rows: Seq<Account>, i: int, a: Account)
    requires
        identities_distinct(rows),
        0 <= i < rows.len(),
        a.identity@ == rows[i].identity@,
    ensures
        seq_contents(rows.update(i, a)) =~= seq_contents(rows).insert(
            a.identity@,
            a.balance as int,
        ),
    decreases rows.len(),
{
    let rows2 = rows.update(i, a);
    if i == rows.len() - 1 {
        assert(rows2.drop_last() =~= rows.drop_last());
        assert(rows2.last() == a);
        assert(seq_contents(rows2) =~= seq_contents(rows).insert(a.identity@, a.balance as int));
    } else {
        assert(identities_distinct(rows.drop_last())) by {
            assert(forall|p: int, q: int|
                0 <= p < q < rows.drop_last().len() ==> rows.drop_last()[p] == rows[p]
                    && rows.drop_last()[q] == rows[q]);
        }
        assert(rows.drop_last()[i] == rows[i]);
        lemma_contents_update(rows.drop_last(), i, a);
        assert(rows2.drop_last() =~= rows.drop_last().update(i, a));
        assert(rows2.last() == rows.last());
        assert(rows[i].identity@ != rows.last().identity@);
        assert(seq_contents(rows2) =~= seq_contents(rows).insert(a.identity@, a.balance as int));
    }
}

/// In-memory account store. Rows are unique per identity and balances are
/// never negative; the abstract state is the mapping [`AccountStore::contents`].
pub struct AccountStore {
    accounts: Vec<Account>,
}

impl AccountStore {
    /// Structural invariant: one row per identity, no negative balance.
    pub closed spec fn wf(self) -> bool {
        identities_distinct(self.accounts@) && balances_nonnegative(self.accounts@)
    }

    /// The mapping from identity to balance that the store holds.
    pub closed spec fn contents(self) -> Map<Seq<char>, int> {
        seq_contents(self.accounts@)
    }

    /// An empty store.
    pub fn new() -> (s: Self)
        ensures
            s.wf(),
            s.contents() == Map::<Seq<char>, int>::empty(),
    {
        AccountStore { accounts: Vec::new() }
    }

    /// The index of the row naming `identity`, if any.
    fn find_index(&self, identity: &String) -> (r: Option<usize>)
        ensures
            match r {
                Some(i) => i < self.accounts@.len() && self.accounts@[i as int].identity@
                    == identity@,
                None => forall|i: int|
                    0 <= i < self.accounts@.len() ==> (#[trigger] self.accounts@[i].identity@)
                        != identity@,
            },
    {
        let n = self.accounts.len();
        let mut i: usize = 0;
        while i < n
            invariant
                n == self.accounts@.len(),
                i <= n,
                forall|j: int|
                    0 <= j < i ==> (#[trigger] self.accounts@[j].identity@) != identity@,
            decreases n - i,
        {
            if self.accounts[i].identity == *identity {
                return Some(i);
            }
            i += 1;
        }
        None
    }

    /// Reads the balance recorded for `identity`, or reports that no account
    /// exists for it.
    pub fn get_balance(&self, identity: &String) -> (r: Option<i32>)
        requires
            self.wf(),
        ensures
            match r {
                Some(b) => self.contents().contains_key(identity@) && self.contents()[identity@]
                    == b as int && b >= 0,
                None => !self.contents().contains_key(identity@),
            },
    {
        match self.find_index(identity) {
            Some(i) => {
                proof {
                    lemma_contents_at(self.accounts@, i as int);
                }
                Some(self.accounts[i].balance)
            },
            None => {
                proof {
                    lemma_contents_key(self.accounts@, identity@);
                }
                None
            },
        }
    }

    /// Inserts a new account row, or reports a conflict if the identity
    /// already has one. Of two concurrent creations for one identity at most
    /// one wins; the loser observes the conflict.
    pub fn create(&mut self, identity: &String, initial_balance: i32) -> (r: Result<
        i32,
        StoreError,
    >)
        requires
            old(self).wf(),
            initial_balance >= 0,
        ensures
            final(self).wf(),
            if old(self).contents().contains_key(identity@) {
                r == Err::<i32, StoreError>(StoreError::Conflict) && *final(self) == *old(self)
            } else {
                r == Ok::<i32, StoreError>(initial_balance) && final(self).contents()
                    == old(self).contents().insert(identity@, initial_balance as int)
            },
    {
        proof {
            lemma_contents_key(self.accounts@, identity@);
        }
        match self.find_index(identity) {
            Some(_) => Err(StoreError::Conflict),
            None => {
                let ghost rows0 = self.accounts@;
                let row = Account { identity: identity.clone(), balance: initial_balance };
                self.accounts.push(row);
                proof {
                    assert(self.accounts@.drop_last() =~= rows0);
                    assert(self.accounts@.last().identity@ == identity@);
                    assert(seq_contents(self.accounts@) =~= seq_contents(rows0).insert(
                        identity@,
                        initial_balance as int,
                    ));
                    assert(identities_distinct(self.accounts@)) by {
                        assert(forall|p: int|
                            0 <= p < rows0.len() ==> self.accounts@[p] == rows0[p]);
                    }
                    assert(seq_contents(self.accounts@) == seq_contents(rows0).insert(
                        identity@,
                        initial_balance as int,
                    ));
                }
                Ok(initial_balance)
            },
        }
    }

    /// Overwrites the balance recorded for `identity`, or reports that no
    /// account exists for it.
    pub fn set_balance(&mut self, identity: &String, new_balance: i32) -> (r: Result<
        (),
        StoreError,
    >)
        requires
            old(self).wf(),
            new_balance >= 0,
        ensures
            final(self).wf(),
            if old(self).contents().contains_key(identity@) {
                r == Ok::<(), StoreError>(()) && final(self).contents()
                    == old(self).contents().insert(identity@, new_balance as int)
            } else {
                r == Err::<(), StoreError>(StoreError::NotFound) && *final(self) == *old(self)
            },
    {
        proof {
            lemma_contents_key(self.accounts@, identity@);
        }
        match self.find_index(identity) {
            Some(i) => {
                let ghost rows0 = self.accounts@;
                let row = Account { identity: identity.clone(), balance: new_balance };
                proof {
                    lemma_contents_update(rows0, i as int, row);
                }
                self.accounts.set(i, row);
                proof {
                    assert(identities_distinct(self.accounts@)) by {
                        assert(forall|p: int|
                            0 <= p < rows0.len() && p != i ==> self.accounts@[p] == rows0[p]);
                        assert(self.accounts@[i as int].identity@ == rows0[i as int].identity@);
                    }
                    assert(seq_contents(self.accounts@) == seq_contents(rows0).insert(
                        identity@,
                        new_balance as int,
                    ));
                }
                Ok(())
            },
            None => Err(StoreError::NotFound),
        }
    }
}

} // verus!
