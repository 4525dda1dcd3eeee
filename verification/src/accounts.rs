//! Account records and the table of accounts, kept in key order.

use crate::keys::{
    bytes_less, lemma_bytes_less_irreflexive, lemma_bytes_less_total, lemma_bytes_less_transitive,
    Pubkey,
};
use vstd::prelude::*;

verus! {

/// One account of the initial state.
#[derive(Debug)]
pub struct Account {
    /// Balance, in lamports.
    pub lamports: u64,
    /// The raw data that the account holds.
    pub data: Vec<u8>,
    /// The program that owns the account.
    pub owner: Pubkey,
    /// Whether the data is a loaded program.
    pub executable: bool,
    /// The epoch at which the account next owes rent.
    pub rent_epoch: u64,
}

/// An account as a mathematical value.
pub struct AccountView {
    pub lamports: u64,
    pub data: Seq<u8>,
    pub owner: Seq<u8>,
    pub executable: bool,
    pub rent_epoch: u64,
}

impl View for Account {
    type V = AccountView;

    open spec fn view(&self) -> AccountView {
        AccountView {
            lamports: self.lamports,
            data: self.data@,
            owner: self.owner@,
            executable: self.executable,
            rent_epoch: self.rent_epoch,
        }
    }
}

/// A sequence of `n` zero bytes.
pub open spec fn zeros(n: nat) -> Seq<u8> {
    Seq::new(n, |i: int| 0u8)
}

/// The account that `Account::new` makes.
pub open spec fn fresh_account(lamports: u64, space: nat, owner: Seq<u8>) -> AccountView {
    AccountView { lamports, data: zeros(space), owner, executable: false, rent_epoch: 0 }
}

impl Account {
    /// An account with the given balance and owner whose data is `space`
    /// zero bytes; it holds no program and its rent epoch is 0.
    pub fn new(lamports: u64, space: usize, owner: &Pubkey) -> (r: Account)
        ensures
            r@ == fresh_account(lamports, space as nat, owner@),
    {
        let mut data: Vec<u8> = Vec::new();
        let mut i: usize = 0;
        while i < space
            invariant
                i <= space,
                data@ == zeros(i as nat),
            decreases space - i,
        {
            data.push(0u8);
            i = i + 1;
            assert(data@ =~= zeros(i as nat));
        }
        Account { lamports, data, owner: *owner, executable: false, rent_epoch: 0 }
    }

    /// An account made of its five parts.
    pub fn from_parts(
        lamports: u64,
        data: Vec<u8>,
        owner: Pubkey,
        executable: bool,
        rent_epoch: u64,
    ) -> (r: Account)
        ensures
            r@ == (AccountView { lamports, data: data@, owner: owner@, executable, rent_epoch }),
    {
        Account { lamports, data, owner, executable, rent_epoch }
    }

    /// A copy of the account.
    pub fn duplicate(&self) -> (r: Account)
        ensures
            r@ == self@,
    {
        let mut data: Vec<u8> = Vec::new();
        let mut i: usize = 0;
        while i < self.data.len()
            invariant
                i <= self.data@.len(),
                data@ == self.data@.take(i as int),
            decreases self.data@.len() - i,
        {
            data.push(self.data[i]);
            i = i + 1;
            assert(data@ =~= self.data@.take(i as int));
        }
        assert(self.data@.take(self.data@.len() as int) =~= self.data@);
        Account {
            lamports: self.lamports,
            data,
            owner: self.owner,
            executable: self.executable,
            rent_epoch: self.rent_epoch,
        }
    }
}

/// A key with its account, as mathematical values.
pub type EntryView = (Seq<u8>, AccountView);

pub open spec fn key_at(s: Seq<EntryView>, i: int) -> Seq<u8> {
    s[i].0
}

/// Keys rise strictly from each entry to the next.
pub open spec fn ascending(s: Seq<EntryView>) -> bool {
    forall|i: int, j: int|
        0 <= i < j < s.len() ==> bytes_less(#[trigger] key_at(s, i), #[trigger] key_at(s, j))
}

pub open spec fn has_key(s: Seq<EntryView>, key: Seq<u8>) -> bool {
    exists|i: int| 0 <= i < s.len() && #[trigger] key_at(s, i) == key
}

pub open spec fn index_of(s: Seq<EntryView>, key: Seq<u8>) -> int {
    choose|i: int| 0 <= i < s.len() && #[trigger] key_at(s, i) == key
}

/// The mapping that a sequence of entries stands for.
pub open spec fn entries_map(s: Seq<EntryView>) -> Map<Seq<u8>, AccountView> {
    Map::new(|key: Seq<u8>| has_key(s, key), |key: Seq<u8>| s[index_of(s, key)].1)
}

/// A list of keys with their accounts, as mathematical values.
pub open spec fn entry_views(entries: Seq<(Pubkey, Account)>) -> Seq<EntryView> {
    Seq::new(entries.len(), |i: int| (entries[i].0@, entries[i].1@))
}

/// The mapping after each entry of a list, from the first to the last, has
/// been put into it; a later entry replaces an earlier one with its key.
pub open spec fn insert_entries(
    m: Map<Seq<u8>, AccountView>,
    entries: Seq<EntryView>,
) -> Map<Seq<u8>, AccountView>
    decreases entries.len(),
{
    if entries.len() == 0 {
        m
    } else {
        insert_entries(m, entries.drop_last()).insert(entries.last().0, entries.last().1)
    }
}

/// The sum of the balances of a sequence of entries.
pub open spec fn total_lamports(s: Seq<EntryView>) -> nat
    decreases s.len(),
{
    if s.len() == 0 {
        0
    } else {
        total_lamports(s.drop_last()) + s.last().1.lamports as nat
    }
}

/// In an ascending sequence no key occurs twice.
pub proof fn lemma_ascending_keys_unique(s: Seq<EntryView>, i: int, j: int)
    requires
        ascending(s),
        0 <= i < s.len(),
        0 <= j < s.len(),
        key_at(s, i) == key_at(s, j),
    ensures
        i == j,
{
    if i < j {
        assert(bytes_less(key_at(s, i), key_at(s, j)));
        lemma_bytes_less_irreflexive(key_at(s, i));
    }
    if j < i {
        assert(bytes_less(key_at(s, j), key_at(s, i)));
        lemma_bytes_less_irreflexive(key_at(s, i));
    }
}

/// In an ascending sequence, the entry at a place is the one found by its key.
pub proof fn lemma_index_of(s: Seq<EntryView>, i: int)
    requires
        ascending(s),
        0 <= i < s.len(),
    ensures
        has_key(s, key_at(s, i)),
        index_of(s, key_at(s, i)) == i,
        entries_map(s)[key_at(s, i)] == s[i].1,
{
    let key = key_at(s, i);
    assert(key_at(s, i) == key);
    let found = index_of(s, key);
    lemma_ascending_keys_unique(s, i, found);
}

/// The sum of a prefix is no more than the sum of the whole.
pub proof fn lemma_total_lamports_prefix(s: Seq<EntryView>, k: int)
    requires
        0 <= k <= s.len(),
    ensures
        total_lamports(s.take(k)) <= total_lamports(s),
    decreases s.len() - k,
{
    if k < s.len() {
        assert(s.take(k + 1).drop_last() =~= s.take(k));
        lemma_total_lamports_prefix(s, k + 1);
    } else {
        assert(s.take(k) =~= s);
    }
}

/// A key is in the mapping after a list of entries was put into it exactly
/// where it was there before or the list has it.
pub proof fn lemma_insert_entries_domain(
    m: Map<Seq<u8>, AccountView>,
    entries: Seq<EntryView>,
    key: Seq<u8>,
)
    ensures
        insert_entries(m, entries).contains_key(key) == (m.contains_key(key) || has_key(
            entries,
            key,
        )),
    decreases entries.len(),
{
    if entries.len() > 0 {
        let front = entries.drop_last();
        lemma_insert_entries_domain(m, front, key);
        if has_key(front, key) {
            let i = index_of(front, key);
            assert(key_at(entries, i) == key);
        }
        if has_key(entries, key) {
            let i = index_of(entries, key);
            if i < front.len() {
                assert(key_at(front, i) == key);
            }
        }
        if entries.last().0 == key {
            assert(key_at(entries, entries.len() - 1) == key);
        }
    }
}

/// A key that a list of entries does not have keeps its account when the
/// list is put into the mapping.
pub proof fn lemma_insert_entries_skips(
    m: Map<Seq<u8>, AccountView>,
    entries: Seq<EntryView>,
    key: Seq<u8>,
)
    requires
        !has_key(entries, key),
    ensures
        insert_entries(m, entries).contains_key(key) == m.contains_key(key),
        insert_entries(m, entries)[key] == m[key],
    decreases entries.len(),
{
    if entries.len() > 0 {
        let front = entries.drop_last();
        assert(key_at(entries, entries.len() - 1) != key);
        if has_key(front, key) {
            let i = index_of(front, key);
            assert(key_at(entries, i) == key);
        }
        lemma_insert_entries_skips(m, front, key);
    }
}

/// The entry at a place of a list decides the account under its key, where
/// no later entry of the list has that key.
pub proof fn lemma_insert_entries_value(
    m: Map<Seq<u8>, AccountView>,
    entries: Seq<EntryView>,
    i: int,
)
    requires
        0 <= i < entries.len(),
        forall|j: int| i < j < entries.len() ==> #[trigger] key_at(entries, j) != key_at(entries, i),
    ensures
        insert_entries(m, entries).contains_key(key_at(entries, i)),
        insert_entries(m, entries)[key_at(entries, i)] == entries[i].1,
    decreases entries.len(),
{
    let front = entries.drop_last();
    if i < entries.len() - 1 {
        assert(key_at(entries, entries.len() - 1) != key_at(entries, i));
        assert forall|j: int| i < j < front.len() implies #[trigger] key_at(front, j) != key_at(
            front,
            i,
        ) by {
            assert(key_at(entries, j) != key_at(entries, i));
        }
        lemma_insert_entries_value(m, front, i);
    }
}

/// The accounts of a genesis configuration: a mapping from key to account,
/// held in ascending key order.
#[derive(Debug)]
pub struct AccountMap {
    entries: Vec<(Pubkey, Account)>,
}

impl AccountMap {
    /// The entries in the order in which they are held.
    pub closed spec fn entries(&self) -> Seq<EntryView> {
        Seq::new(self.entries@.len(), |i: int| (self.entries@[i].0@, self.entries@[i].1@))
    }

    /// The entries are in ascending key order, so no key occurs twice.
    pub open spec fn wf(&self) -> bool {
        ascending(self.entries())
    }

    pub fn new() -> (r: AccountMap)
        ensures
            r.wf(),
            r.entries() == Seq::<EntryView>::empty(),
            r@ == Map::<Seq<u8>, AccountView>::empty(),
    {
        let r = AccountMap { entries: Vec::new() };
        assert(r.entries() =~= Seq::<EntryView>::empty());
        assert(r@ =~= Map::<Seq<u8>, AccountView>::empty());
        r
    }

    /// The number of accounts.
    pub fn len(&self) -> (r: usize)
        ensures
            r == self.entries().len(),
    {
        self.entries.len()
    }

    /// The place of the first entry whose key is not before `key`.
    fn position(&self, key: &Pubkey) -> (r: usize)
        requires
            self.wf(),
        ensures
            r <= self.entries().len(),
            forall|i: int| 0 <= i < r ==> bytes_less(#[trigger] key_at(self.entries(), i), key@),
            r < self.entries().len() ==> !bytes_less(key_at(self.entries(), r as int), key@),
    {
        let mut i: usize = 0;
        while i < self.entries.len()
            invariant
                i <= self.entries@.len(),
                self.entries().len() == self.entries@.len(),
                forall|j: int|
                    0 <= j < i ==> bytes_less(#[trigger] key_at(self.entries(), j), key@),
            decreases self.entries@.len() - i,
        {
            if !self.entries[i].0.less(key) {
                return i;
            }
            i = i + 1;
        }
        i
    }

    /// The account under a key, if there is one.
    pub fn get(&self, key: &Pubkey) -> (r: Option<&Account>)
        requires
            self.wf(),
        ensures
            match r {
                Some(account) => self@.contains_key(key@) && self@[key@] == account@,
                None => !self@.contains_key(key@),
            },
    {
        let at: usize = self.position(key);
        let ghost s = self.entries();
        if at < self.entries.len() && self.entries[at].0.same(key) {
            proof {
                lemma_index_of(s, at as int);
            }
            Some(&self.entries[at].1)
        } else {
            proof {
                if has_key(s, key@) {
                    let i = index_of(s, key@);
                    self.entries@[i].0.lemma_len();
                    if i < at {
                        lemma_bytes_less_irreflexive(key@);
                    } else if i > at {
                        lemma_bytes_less_total(key_at(s, at as int), key@);
                        assert(bytes_less(key_at(s, at as int), key_at(s, i)));
                        lemma_bytes_less_irreflexive(key@);
                        if bytes_less(key@, key_at(s, at as int)) {
                            lemma_bytes_less_transitive(key@, key_at(s, at as int), key_at(s, i));
                        }
                    }
                }
            }
            None
        }
    }

    /// Puts an account under a key; an account that was under the key is
    /// replaced.
    pub fn insert(&mut self, key: Pubkey, account: Account)
        requires
            old(self).wf(),
        ensures
            final(self).wf(),
            final(self)@ == old(self)@.insert(key@, account@),
            final(self).entries().len() == old(self).entries().len() + (if old(
                self,
            )@.contains_key(key@) {
                0int
            } else {
                1int
            }),
    {
        let at: usize = self.position(&key);
        let ghost before = self.entries();
        let ghost k = key@;
        let ghost v = account@;
        if at < self.entries.len() && self.entries[at].0.same(&key) {
            self.entries[at] = (key, account);
            proof {
                let after = self.entries();
                assert(after =~= before.update(at as int, (k, v)));
                lemma_update_keeps_order(before, at as int, v);
                lemma_update_is_insert(before, at as int, v);
                lemma_index_of(before, at as int);
            }
        } else {
            self.entries.insert(at, (key, account));
            proof {
                let after = self.entries();
                assert(after =~= before.insert(at as int, (k, v)));
                key.lemma_len();
                if at < before.len() {
                    old(self).entries@[at as int].0.lemma_len();
                    lemma_bytes_less_total(key_at(before, at as int), k);
                }
                lemma_insert_keeps_order(before, at as int, k, v);
                lemma_insert_is_insert(before, at as int, k, v);
            }
        }
    }

    /// Puts each entry of a list into the table, from the first to the last.
    pub fn insert_all(&mut self, entries: &Vec<(Pubkey, Account)>)
        requires
            old(self).wf(),
        ensures
            final(self).wf(),
            final(self)@ == insert_entries(old(self)@, entry_views(entries@)),
    {
        let ghost views = entry_views(entries@);
        let ghost start = self@;
        let mut i: usize = 0;
        assert(views.take(0) =~= Seq::<EntryView>::empty());
        while i < entries.len()
            invariant
                i <= entries@.len(),
                views == entry_views(entries@),
                self.wf(),
                self@ == insert_entries(start, views.take(i as int)),
            decreases entries@.len() - i,
        {
            proof {
                assert(views.take(i + 1).drop_last() =~= views.take(i as int));
                assert(views.take(i + 1).last() == views[i as int]);
            }
            self.insert(entries[i].0, entries[i].1.duplicate());
            i = i + 1;
        }
        assert(views.take(entries@.len() as int) =~= views);
    }

    /// The sum of all balances, or `None` where it does not fit in 64 bits.
    pub fn issued_lamports(&self) -> (r: Option<u64>)
        ensures
            match r {
                Some(sum) => sum == total_lamports(self.entries()),
                None => total_lamports(self.entries()) > u64::MAX,
            },
    {
        let ghost s = self.entries();
        let mut sum: u64 = 0;
        let mut i: usize = 0;
        assert(s.take(0) =~= Seq::<EntryView>::empty());
        while i < self.entries.len()
            invariant
                i <= self.entries@.len(),
                s == self.entries(),
                s.len() == self.entries@.len(),
                sum == total_lamports(s.take(i as int)),
            decreases self.entries@.len() - i,
        {
            proof {
                assert(s.take(i + 1).drop_last() =~= s.take(i as int));
                assert(s.take(i + 1).last() == s[i as int]);
                lemma_total_lamports_prefix(s, i + 1);
            }
            match sum.checked_add(self.entries[i].1.lamports) {
                Some(next) => {
                    sum = next;
                },
                None => {
                    return None;
                },
            }
            i = i + 1;
        }
        assert(s.take(s.len() as int) =~= s);
        Some(sum)
    }

    /// The entry at a place, in ascending key order.
    pub fn entry(&self, i: usize) -> (r: (&Pubkey, &Account))
        requires
            i < self.entries().len(),
        ensures
            (r.0@, r.1@) == self.entries()[i as int],
    {
        (&self.entries[i].0, &self.entries[i].1)
    }
}

impl View for AccountMap {
    type V = Map<Seq<u8>, AccountView>;

    open spec fn view(&self) -> Map<Seq<u8>, AccountView> {
        entries_map(self.entries())
    }
}

/// Replacing the account of an entry leaves the order of keys as it was.
proof fn lemma_update_keeps_order(s: Seq<EntryView>, at: int, account: AccountView)
    requires
        ascending(s),
        0 <= at < s.len(),
    ensures
        ascending(s.update(at, (key_at(s, at), account))),
{
    let t = s.update(at, (key_at(s, at), account));
    assert forall|i: int, j: int| 0 <= i < j < t.len() implies bytes_less(
        #[trigger] key_at(t, i),
        #[trigger] key_at(t, j),
    ) by {
        assert(key_at(t, i) == key_at(s, i));
        assert(key_at(t, j) == key_at(s, j));
    }
}

/// Replacing the account of an entry puts the account under that key.
proof fn lemma_update_is_insert(s: Seq<EntryView>, at: int, account: AccountView)
    requires
        ascending(s),
        0 <= at < s.len(),
    ensures
        entries_map(s.update(at, (key_at(s, at), account))) == entries_map(s).insert(
            key_at(s, at),
            account,
        ),
{
    let key = key_at(s, at);
    let t = s.update(at, (key, account));
    lemma_update_keeps_order(s, at, account);
    assert forall|x: Seq<u8>| has_key(t, x) == (has_key(s, x) || x == key) by {
        if has_key(t, x) {
            let i = index_of(t, x);
            assert(key_at(s, i) == x);
        }
        if has_key(s, x) {
            let i = index_of(s, x);
            assert(key_at(t, i) == x);
        }
        if x == key {
            assert(key_at(t, at) == x);
        }
    }
    assert forall|x: Seq<u8>| has_key(t, x) implies #[trigger] entries_map(t)[x] == entries_map(
        s,
    ).insert(key, account)[x] by {
        let i = index_of(t, x);
        lemma_index_of(t, i);
        if x != key {
            assert(key_at(s, i) == x);
            lemma_index_of(s, i);
        } else {
            assert(key_at(t, at) == x);
            lemma_ascending_keys_unique(t, i, at);
        }
    }
    assert(entries_map(t) =~= entries_map(s).insert(key, account));
}

/// A new key put at its place leaves the keys in ascending order.
proof fn lemma_insert_keeps_order(s: Seq<EntryView>, at: int, key: Seq<u8>, account: AccountView)
    requires
        ascending(s),
        0 <= at <= s.len(),
        forall|i: int| 0 <= i < at ==> bytes_less(#[trigger] key_at(s, i), key),
        at < s.len() ==> bytes_less(key, key_at(s, at)),
    ensures
        ascending(s.insert(at, (key, account))),
{
    let t = s.insert(at, (key, account));
    assert forall|i: int, j: int| 0 <= i < j < t.len() implies bytes_less(
        #[trigger] key_at(t, i),
        #[trigger] key_at(t, j),
    ) by {
        if j < at {
            assert(key_at(t, i) == key_at(s, i));
            assert(key_at(t, j) == key_at(s, j));
        } else if j == at {
            assert(key_at(t, i) == key_at(s, i));
        } else if i < at {
            assert(key_at(t, i) == key_at(s, i));
            assert(key_at(t, j) == key_at(s, j - 1));
            if j - 1 > at {
                assert(bytes_less(key_at(s, i), key_at(s, j - 1)));
            } else {
                assert(bytes_less(key_at(s, i), key_at(s, at)));
            }
        } else if i == at {
            assert(key_at(t, j) == key_at(s, j - 1));
            if j - 1 > at {
                assert(bytes_less(key_at(s, at), key_at(s, j - 1)));
                lemma_bytes_less_transitive(key, key_at(s, at), key_at(s, j - 1));
            }
        } else {
            assert(key_at(t, i) == key_at(s, i - 1));
            assert(key_at(t, j) == key_at(s, j - 1));
        }
    }
}

/// A new key put at its place adds the key with its account to the mapping.
proof fn lemma_insert_is_insert(s: Seq<EntryView>, at: int, key: Seq<u8>, account: AccountView)
    requires
        ascending(s),
        0 <= at <= s.len(),
        forall|i: int| 0 <= i < at ==> bytes_less(#[trigger] key_at(s, i), key),
        at < s.len() ==> bytes_less(key, key_at(s, at)),
    ensures
        !has_key(s, key),
        entries_map(s.insert(at, (key, account))) == entries_map(s).insert(key, account),
{
    let t = s.insert(at, (key, account));
    lemma_insert_keeps_order(s, at, key, account);
    if has_key(s, key) {
        let i = index_of(s, key);
        lemma_bytes_less_irreflexive(key);
        if i >= at {
            if i > at {
                assert(bytes_less(key_at(s, at), key_at(s, i)));
                lemma_bytes_less_transitive(key, key_at(s, at), key_at(s, i));
            }
        }
        assert(false);
    }
    assert forall|x: Seq<u8>| has_key(t, x) == (has_key(s, x) || x == key) by {
        if has_key(t, x) {
            let i = index_of(t, x);
            if i < at {
                assert(key_at(s, i) == x);
            } else if i > at {
                assert(key_at(s, i - 1) == x);
            }
        }
        if has_key(s, x) {
            let i = index_of(s, x);
            if i < at {
                assert(key_at(t, i) == x);
            } else {
                assert(key_at(t, i + 1) == x);
            }
        }
        if x == key {
            assert(key_at(t, at) == x);
        }
    }
    assert forall|x: Seq<u8>| has_key(t, x) implies #[trigger] entries_map(t)[x] == entries_map(
        s,
    ).insert(key, account)[x] by {
        let i = index_of(t, x);
        lemma_index_of(t, i);
        if i < at {
            assert(key_at(s, i) == x);
            lemma_index_of(s, i);
        } else if i > at {
            assert(key_at(s, i - 1) == x);
            lemma_index_of(s, i - 1);
        }
    }
    assert(entries_map(t) =~= entries_map(s).insert(key, account));
}

} // verus!
