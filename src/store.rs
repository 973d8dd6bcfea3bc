use vstd::prelude::*;

verus! {

/// An account bound to one of its identity keys.
#[derive(Debug)]
pub struct Association {
    pub account: String,
    pub identity_key: String,
}

impl View for Association {
    type V = (Seq<char>, Seq<char>);

    open spec fn view(&self) -> (Seq<char>, Seq<char>) {
        (self.account@, self.identity_key@)
    }
}

proof fn lemma_push_to_set<A>(s: Seq<A>, x: A)
    ensures
        s.push(x).to_set() == s.to_set().insert(x),
{
    assert forall|y: A| s.push(x).contains(y) <==> s.to_set().insert(x).contains(y) by {
        if s.push(x).contains(y) {
            let k = choose|k: int| 0 <= k < s.push(x).len() && s.push(x)[k] == y;
            if k < s.len() {
                assert(s[k] == y);
            }
        }
        if s.contains(y) {
            let k = choose|k: int| 0 <= k < s.len() && s[k] == y;
            assert(s.push(x)[k] == y);
        }
        if y == x {
            assert(s.push(x)[s.len() as int] == x);
        }
    }
    assert(s.push(x).to_set() =~= s.to_set().insert(x));
}

/// The association table: account records and their identity keys.
///
/// Each account appears once, each `(account, identity key)` pair appears once,
/// and every pair belongs to a recorded account.
pub struct IdentityStore {
    accounts: Vec<String>,
    associations: Vec<Association>,
}

/// `new` is `old` with pair `p` stored, its account recorded, and nothing else changed.
pub open spec fn added(old: IdentityStore, new: IdentityStore, p: (Seq<char>, Seq<char>)) -> bool {
    &&& new.wf()
    &&& new.accounts() == old.accounts().insert(p.0)
    &&& new.pairs() == old.pairs().insert(p)
    &&& new.pair_count() == if old.pairs().contains(p) {
        old.pair_count()
    } else {
        old.pair_count() + 1
    }
}

/// `new` is `old` without pair `p`, its accounts kept.
pub open spec fn removed(old: IdentityStore, new: IdentityStore, p: (Seq<char>, Seq<char>)) -> bool {
    &&& new.wf()
    &&& new.accounts() == old.accounts()
    &&& new.pairs() == old.pairs().remove(p)
}

impl IdentityStore {
    pub closed spec fn account_seq(&self) -> Seq<Seq<char>> {
        self.accounts@.map_values(|a: String| a@)
    }

    pub closed spec fn pair_seq(&self) -> Seq<(Seq<char>, Seq<char>)> {
        self.associations@.map_values(|a: Association| a@)
    }

    pub open spec fn wf(&self) -> bool {
        &&& self.account_seq().no_duplicates()
        &&& self.pair_seq().no_duplicates()
        &&& forall|i: int|
            0 <= i < self.pair_seq().len() ==> self.account_seq().contains(
                #[trigger] self.pair_seq()[i].0,
            )
    }

    /// The recorded accounts.
    pub open spec fn accounts(&self) -> Set<Seq<char>> {
        self.account_seq().to_set()
    }

    /// The stored `(account, identity key)` pairs.
    pub open spec fn pairs(&self) -> Set<(Seq<char>, Seq<char>)> {
        self.pair_seq().to_set()
    }

    /// The number of stored pairs; with `wf` each pair is counted once.
    pub open spec fn pair_count(&self) -> nat {
        self.pair_seq().len()
    }

    /// In a well-formed store each pair is held once: the count of stored
    /// entries is the number of distinct pairs.
    pub proof fn lemma_pairs_unique(&self)
        requires
            self.wf(),
        ensures
            self.pair_count() == self.pairs().len(),
    {
        self.pair_seq().unique_seq_to_set();
    }

    /// An empty store.
    pub fn new() -> (r: Self)
        ensures
            r.wf(),
            r.accounts() == Set::<Seq<char>>::empty(),
            r.pairs() == Set::<(Seq<char>, Seq<char>)>::empty(),
            r.pair_count() == 0,
    {
        let r = IdentityStore { accounts: Vec::new(), associations: Vec::new() };
        assert(r.account_seq() =~= Seq::empty());
        assert(r.pair_seq() =~= Seq::empty());
        r
    }

    fn account_index(&self, account: &String) -> (r: Option<usize>)
        ensures
            match r {
                Some(i) => i < self.account_seq().len() && self.account_seq()[i as int]
                    == account@,
                None => !self.account_seq().contains(account@),
            },
    {
        let mut i: usize = 0;
        while i < self.accounts.len()
            invariant
                i <= self.accounts@.len(),
                self.account_seq().len() == self.accounts@.len(),
                forall|k: int| 0 <= k < i ==> self.account_seq()[k] != account@,
            decreases self.accounts.len() - i,
        {
            if self.accounts[i] == *account {
                return Some(i);
            }
            i = i + 1;
        }
        None
    }

    fn pair_index(&self, account: &String, identity_key: &String) -> (r: Option<usize>)
        ensures
            match r {
                Some(i) => i < self.pair_seq().len() && self.pair_seq()[i as int] == (
                    account@,
                    identity_key@,
                ),
                None => !self.pair_seq().contains((account@, identity_key@)),
            },
    {
        let mut i: usize = 0;
        while i < self.associations.len()
            invariant
                i <= self.associations@.len(),
                self.pair_seq().len() == self.associations@.len(),
                forall|k: int| 0 <= k < i ==> self.pair_seq()[k] != (account@, identity_key@),
            decreases self.associations.len() - i,
        {
            if self.associations[i].account == *account && self.associations[i].identity_key
                == *identity_key {
                return Some(i);
            }
            i = i + 1;
        }
        None
    }

    /// Whether `account` is recorded.
    pub fn has_account(&self, account: &String) -> (r: bool)
        ensures
            r == self.accounts().contains(account@),
    {
        self.account_index(account).is_some()
    }

    /// Whether `identity_key` is bound to `account`.
    pub fn has_identity_key(&self, account: &String, identity_key: &String) -> (r: bool)
        ensures
            r == self.pairs().contains((account@, identity_key@)),
    {
        self.pair_index(account, identity_key).is_some()
    }

    /// The number of stored pairs.
    pub fn len(&self) -> (r: usize)
        ensures
            r == self.pair_count(),
    {
        self.associations.len()
    }

    /// Records `account` if it is new and binds `identity_key` to it if that pair
    /// is new; calling it again with the same values changes nothing.
    pub fn create_account_if_not_exists_and_add_identity_key(
        &mut self,
        account: &String,
        identity_key: &String,
    )
        requires
            old(self).wf(),
        ensures
            added(*old(self), *final(self), (account@, identity_key@)),
            old(self).pairs().contains((account@, identity_key@)) ==> *final(self) == *old(self),
    {
        let ghost old_accounts = self.account_seq();
        let ghost old_pairs = self.pair_seq();
        let has_acc = self.account_index(account).is_some();
        if !has_acc {
            self.accounts.push(account.clone());
            assert(self.account_seq() =~= old_accounts.push(account@));
            assert(self.account_seq().no_duplicates());
            proof { lemma_push_to_set(old_accounts, account@); }
        }
        assert(self.account_seq().contains(account@)) by {
            if has_acc {
                assert(self.account_seq() == old_accounts);
            } else {
                assert(self.account_seq()[old_accounts.len() as int] == account@);
            }
        };
        assert(self.account_seq().to_set() =~= old_accounts.to_set().insert(account@)) by {
            if has_acc {
                assert(old_accounts.to_set().contains(account@));
            }
        };
        assert forall|i: int| 0 <= i < old_pairs.len() implies self.account_seq().contains(
            #[trigger] old_pairs[i].0,
        ) by {
            let w = choose|k: int| 0 <= k < old_accounts.len() && old_accounts[k] == old_pairs[i].0;
            assert(self.account_seq()[w] == old_pairs[i].0);
        }
        let found = self.pair_index(account, identity_key);
        if found.is_none() {
            self.associations.push(
                Association { account: account.clone(), identity_key: identity_key.clone() },
            );
            assert(self.pair_seq() =~= old_pairs.push((account@, identity_key@)));
            proof { lemma_push_to_set(old_pairs, (account@, identity_key@)); }
            assert(self.pair_seq().to_set() =~= old_pairs.to_set().insert(
                (account@, identity_key@),
            ));
        } else {
            let pi = found.unwrap();
            assert(old_pairs[pi as int].0 == account@);
            assert(old_accounts.contains(account@));
            assert(has_acc);
            assert(old_pairs.to_set() =~= old_pairs.to_set().insert((account@, identity_key@)));
            assert(old_accounts.to_set() =~= old_accounts.to_set().insert(account@));
            assert(self.accounts@ =~= old(self).accounts@);
        }
    }

    /// Unbinds `identity_key` from `account`; a pair that is not stored is left
    /// alone without error. Account records stay.
    pub fn remove_identity_key(&mut self, account: &String, identity_key: &String)
        requires
            old(self).wf(),
        ensures
            removed(*old(self), *final(self), (account@, identity_key@)),
            final(self).pair_count() == if old(self).pairs().contains(
                (account@, identity_key@),
            ) {
                (old(self).pair_count() - 1) as nat
            } else {
                old(self).pair_count()
            },
            !old(self).pairs().contains((account@, identity_key@)) ==> *final(self) == *old(
                self,
            ),
    {
        let ghost old_pairs = self.pair_seq();
        let ghost target = (account@, identity_key@);
        match self.pair_index(account, identity_key) {
            None => {
                assert(old_pairs.to_set() =~= old_pairs.to_set().remove(target));
            },
            Some(i) => {
                self.associations.remove(i);
                let ghost new_pairs = self.pair_seq();
                assert(new_pairs =~= old_pairs.remove(i as int));
                assert forall|a: int, b: int|
                    0 <= a < b < new_pairs.len() implies new_pairs[a] != new_pairs[b] by {
                    if a < i && b >= i {
                        assert(old_pairs[a] != old_pairs[b + 1]);
                    } else if a >= i {
                        assert(old_pairs[a + 1] != old_pairs[b + 1]);
                    }
                }
                assert forall|k: int| 0 <= k < new_pairs.len() implies self.account_seq().contains(
                    #[trigger] new_pairs[k].0,
                ) by {
                    if k < i {
                        assert(old_pairs[k] == new_pairs[k]);
                    } else {
                        assert(old_pairs[k + 1] == new_pairs[k]);
                    }
                }
                assert forall|p: (Seq<char>, Seq<char>)|
                    new_pairs.to_set().contains(p) <==> old_pairs.to_set().remove(
                        target,
                    ).contains(p) by {
                    if new_pairs.contains(p) {
                        let k = choose|k: int| 0 <= k < new_pairs.len() && new_pairs[k] == p;
                        if k < i {
                            assert(old_pairs[k] == p);
                            assert(k != i);
                        } else {
                            assert(old_pairs[k + 1] == p);
                        }
                    }
                    if old_pairs.contains(p) && p != target {
                        let k = choose|k: int| 0 <= k < old_pairs.len() && old_pairs[k] == p;
                        if k < i {
                            assert(new_pairs[k] == p);
                        } else {
                            assert(new_pairs[k - 1] == p);
                        }
                    }
                }
                assert(new_pairs.to_set() =~= old_pairs.to_set().remove(target));
                assert(old_pairs.contains(target));
            },
        }
    }
}

} // verus!
