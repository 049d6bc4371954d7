use vstd::prelude::*;

use crate::address::Address;

verus! {

/// A record together with its address and bump.
pub struct Account<T> {
    pub address: Address,
    pub bump: u8,
    pub data: T,
}

pub struct AccountView<V> {
    pub address: Seq<u8>,
    pub bump: u8,
    pub data: V,
}

impl<T: View> View for Account<T> {
    type V = AccountView<T::V>;

    open spec fn view(&self) -> AccountView<T::V> {
        AccountView { address: self.address@, bump: self.bump, data: self.data@ }
    }
}

/// The map that a list of keys and a list of values of the same length give,
/// a later key overriding an earlier one.
pub open spec fn store_map<V>(keys: Seq<Seq<u8>>, vals: Seq<V>) -> Map<Seq<u8>, V>
    decreases keys.len(),
{
    if keys.len() == 0 {
        Map::empty()
    } else {
        store_map(keys.drop_last(), vals.drop_last()).insert(keys.last(), vals.last())
    }
}

pub open spec fn keys_unique(keys: Seq<Seq<u8>>) -> bool {
    forall|i: int, j: int| 0 <= i < keys.len() && 0 <= j < keys.len() && i != j ==> keys[i] != keys[j]
}

proof fn lemma_store_map_domain<V>(keys: Seq<Seq<u8>>, vals: Seq<V>, k: Seq<u8>)
    requires
        keys.len() == vals.len(),
    ensures
        store_map(keys, vals).contains_key(k) <==> exists|i: int| 0 <= i < keys.len() && keys[i] == k,
    decreases keys.len(),
{
    if keys.len() > 0 {
        lemma_store_map_domain(keys.drop_last(), vals.drop_last(), k);
        if store_map(keys, vals).contains_key(k) && k != keys.last() {
            let i = choose|i: int| 0 <= i < keys.len() - 1 && keys.drop_last()[i] == k;
            assert(keys[i] == k);
        }
        if exists|i: int| 0 <= i < keys.len() && keys[i] == k {
            let i = choose|i: int| 0 <= i < keys.len() && keys[i] == k;
            if i < keys.len() - 1 {
                assert(keys.drop_last()[i] == k);
            }
        }
    }
}

proof fn lemma_store_map_index<V>(keys: Seq<Seq<u8>>, vals: Seq<V>, i: int)
    requires
        keys.len() == vals.len(),
        keys_unique(keys),
        0 <= i < keys.len(),
    ensures
        store_map(keys, vals).contains_key(keys[i]),
        store_map(keys, vals)[keys[i]] == vals[i],
    decreases keys.len(),
{
    if i < keys.len() - 1 {
        assert(keys_unique(keys.drop_last()));
        lemma_store_map_index(keys.drop_last(), vals.drop_last(), i);
    }
}

proof fn lemma_store_map_update<V>(keys: Seq<Seq<u8>>, vals: Seq<V>, i: int, v: V)
    requires
        keys.len() == vals.len(),
        keys_unique(keys),
        0 <= i < keys.len(),
    ensures
        store_map(keys, vals.update(i, v)) == store_map(keys, vals).insert(keys[i], v),
    decreases keys.len(),
{
    let m = store_map(keys, vals);
    let m2 = store_map(keys, vals.update(i, v));
    if i == keys.len() - 1 {
        assert(vals.update(i, v).drop_last() =~= vals.drop_last());
        assert(m2 =~= m.insert(keys[i], v));
    } else {
        assert(keys_unique(keys.drop_last()));
        assert(vals.update(i, v).drop_last() =~= vals.drop_last().update(i, v));
        lemma_store_map_update(keys.drop_last(), vals.drop_last(), i, v);
        assert(keys[i] != keys.last());
        assert(m2 =~= m.insert(keys[i], v));
    }
}

/// Whether two byte strings are equal.
pub fn bytes_equal(a: &Vec<u8>, b: &Vec<u8>) -> (r: bool)
    ensures
        r == (a@ == b@),
{
    if a.len() != b.len() {
        return false;
    }
    let mut i: usize = 0;
    while i < a.len()
        invariant
            i <= a@.len(),
            a@.len() == b@.len(),
            forall|j: int| 0 <= j < i ==> a@[j] == b@[j],
        decreases a@.len() - i,
    {
        if a[i] != b[i] {
            return false;
        }
        i = i + 1;
    }
    assert(a@ =~= b@);
    true
}

/// Records of one kind, each under a unique key (its seed bytes).
pub struct AccountStore<T> {
    keys: Vec<Vec<u8>>,
    accounts: Vec<Account<T>>,
}

impl<T: View> View for AccountStore<T> {
    type V = Map<Seq<u8>, AccountView<T::V>>;

    closed spec fn view(&self) -> Map<Seq<u8>, AccountView<T::V>> {
        store_map(self.key_seq(), self.account_seq())
    }
}

impl<T: View> AccountStore<T> {
    closed spec fn key_seq(&self) -> Seq<Seq<u8>> {
        self.keys@.map_values(|k: Vec<u8>| k@)
    }

    closed spec fn account_seq(&self) -> Seq<AccountView<T::V>> {
        self.accounts@.map_values(|a: Account<T>| a@)
    }

    /// The store's internal invariant: one account per key.
    pub closed spec fn wf(&self) -> bool {
        &&& self.keys@.len() == self.accounts@.len()
        &&& keys_unique(self.key_seq())
    }

    /// An empty store.
    pub fn new() -> (r: AccountStore<T>)
        ensures
            r.wf(),
            r@ == Map::<Seq<u8>, AccountView<T::V>>::empty(),
    {
        let r = AccountStore { keys: Vec::new(), accounts: Vec::new() };
        assert(r.key_seq().len() == 0);
        r
    }

    fn position(&self, key: &Vec<u8>) -> (r: Option<usize>)
        requires
            self.wf(),
        ensures
            match r {
                Some(i) => i < self.keys@.len() && self.key_seq()[i as int] == key@,
                None => !self@.contains_key(key@),
            },
    {
        let mut i: usize = 0;
        while i < self.keys.len()
            invariant
                self.wf(),
                i <= self.keys@.len(),
                forall|j: int| 0 <= j < i ==> self.key_seq()[j] != key@,
            decreases self.keys@.len() - i,
        {
            if bytes_equal(&self.keys[i], key) {
                return Some(i);
            }
            i = i + 1;
        }
        proof {
            lemma_store_map_domain(self.key_seq(), self.account_seq(), key@);
        }
        None
    }

    /// The account under a key, if there is one.
    pub fn get(&self, key: &Vec<u8>) -> (r: Option<&Account<T>>)
        requires
            self.wf(),
        ensures
            match r {
                Some(a) => self@.contains_key(key@) && self@[key@] == a@,
                None => !self@.contains_key(key@),
            },
    {
        match self.position(key) {
            Some(i) => {
                proof {
                    lemma_store_map_index(self.key_seq(), self.account_seq(), i as int);
                }
                Some(&self.accounts[i])
            },
            None => None,
        }
    }

    /// Adds an account under a key that is not in use.
    pub fn insert(&mut self, key: Vec<u8>, account: Account<T>)
        requires
            old(self).wf(),
            !old(self)@.contains_key(key@),
        ensures
            final(self).wf(),
            final(self)@ == old(self)@.insert(key@, account@),
    {
        proof {
            lemma_store_map_domain(self.key_seq(), self.account_seq(), key@);
        }
        let ghost old_keys = self.key_seq();
        let ghost old_accounts = self.account_seq();
        let ghost k = key@;
        let ghost a = account@;
        self.keys.push(key);
        self.accounts.push(account);
        assert(self.key_seq() =~= old_keys.push(k));
        assert(self.account_seq() =~= old_accounts.push(a));
        assert(self.key_seq().drop_last() =~= old_keys);
        assert(self.account_seq().drop_last() =~= old_accounts);
    }

    /// Replaces the record of the account under a key that is in use; its
    /// address and bump stay.
    pub fn set_data(&mut self, key: &Vec<u8>, data: T)
        requires
            old(self).wf(),
            old(self)@.contains_key(key@),
        ensures
            final(self).wf(),
            final(self)@ == old(self)@.insert(
                key@,
                AccountView { address: old(self)@[key@].address, bump: old(self)@[key@].bump, data: data@ },
            ),
    {
        match self.position(key) {
            Some(i) => {
                proof {
                    lemma_store_map_index(self.key_seq(), self.account_seq(), i as int);
                }
                let address = self.accounts[i].address;
                let bump = self.accounts[i].bump;
                let account = Account { address, bump, data };
                let ghost old_accounts = self.account_seq();
                let ghost a = account@;
                self.accounts.set(i, account);
                assert(self.account_seq() =~= old_accounts.update(i as int, a));
                proof {
                    lemma_store_map_update(self.key_seq(), old_accounts, i as int, a);
                }
            },
            None => {},
        }
    }
}

} // verus!
