use vstd::prelude::*;
use crate::bytes::text_equal;
use crate::object::Object;
use crate::value::opt_v;

verus! {

/// Types whose values can be keys of a `HashTable`: a key is found again by
/// its view, given in the borrowed form `Borrowed`.
pub trait HashTableKey: View + Sized {
    /// The form of a key given to lookups.
    type Borrowed: View<V = <Self as View>::V> + ?Sized;

    /// Whether `self` is the key `key`.
    fn key_matches(&self, key: &Self::Borrowed) -> (r: bool)
        ensures
            r == (self@ == key@),
    ;

    /// A copy of the key.
    fn clone_key(&self) -> (r: Self)
        ensures
            r@ == self@,
    ;

    /// The key in its borrowed form.
    fn as_borrowed(&self) -> (r: &Self::Borrowed)
        ensures
            r@ == self@,
    ;
}

/// Types whose values can be stored in a `HashTable`. A value that is stored
/// as a null pointer (zero, for integers) is reported as missing by lookups.
pub trait HashTableValue: View + Sized {
    /// Whether the value is stored as a null pointer.
    spec fn spec_is_null(v: Self::V) -> bool;

    /// Whether the value is stored as a null pointer.
    fn is_null(&self) -> (r: bool)
        ensures
            r == Self::spec_is_null(self@),
    ;

    /// A copy of the value.
    fn clone_value(&self) -> (r: Self)
        ensures
            r@ == self@,
    ;
}

impl HashTableKey for String {
    type Borrowed = str;

    fn key_matches(&self, key: &str) -> (r: bool) {
        text_equal(self.as_str(), key)
    }

    fn clone_key(&self) -> (r: String) {
        self.clone()
    }

    fn as_borrowed(&self) -> (r: &str) {
        self.as_str()
    }
}

impl HashTableValue for String {
    open spec fn spec_is_null(v: Seq<char>) -> bool {
        false
    }

    fn is_null(&self) -> (r: bool) {
        false
    }

    fn clone_value(&self) -> (r: String) {
        self.clone()
    }
}

impl HashTableKey for Object {
    type Borrowed = Object;

    /// Objects are the same key when they are the same instance.
    fn key_matches(&self, key: &Object) -> (r: bool) {
        *self == *key
    }

    fn clone_key(&self) -> (r: Object) {
        self.clone()
    }

    fn as_borrowed(&self) -> (r: &Object) {
        self
    }
}

impl HashTableValue for Object {
    open spec fn spec_is_null(v: usize) -> bool {
        false
    }

    fn is_null(&self) -> (r: bool) {
        false
    }

    fn clone_value(&self) -> (r: Object) {
        self.clone()
    }
}

impl HashTableKey for i8 {
    type Borrowed = i8;

    fn key_matches(&self, key: &i8) -> (r: bool) {
        *self == *key
    }

    fn clone_key(&self) -> (r: i8) {
        *self
    }

    fn as_borrowed(&self) -> (r: &i8) {
        self
    }
}

impl HashTableValue for i8 {
    open spec fn spec_is_null(v: i8) -> bool {
        v == 0
    }

    fn is_null(&self) -> (r: bool) {
        *self == 0
    }

    fn clone_value(&self) -> (r: i8) {
        *self
    }
}

impl HashTableKey for u8 {
    type Borrowed = u8;

    fn key_matches(&self, key: &u8) -> (r: bool) {
        *self == *key
    }

    fn clone_key(&self) -> (r: u8) {
        *self
    }

    fn as_borrowed(&self) -> (r: &u8) {
        self
    }
}

impl HashTableValue for u8 {
    open spec fn spec_is_null(v: u8) -> bool {
        v == 0
    }

    fn is_null(&self) -> (r: bool) {
        *self == 0
    }

    fn clone_value(&self) -> (r: u8) {
        *self
    }
}

impl HashTableKey for i16 {
    type Borrowed = i16;

    fn key_matches(&self, key: &i16) -> (r: bool) {
        *self == *key
    }

    fn clone_key(&self) -> (r: i16) {
        *self
    }

    fn as_borrowed(&self) -> (r: &i16) {
        self
    }
}

impl HashTableValue for i16 {
    open spec fn spec_is_null(v: i16) -> bool {
        v == 0
    }

    fn is_null(&self) -> (r: bool) {
        *self == 0
    }

    fn clone_value(&self) -> (r: i16) {
        *self
    }
}

impl HashTableKey for u16 {
    type Borrowed = u16;

    fn key_matches(&self, key: &u16) -> (r: bool) {
        *self == *key
    }

    fn clone_key(&self) -> (r: u16) {
        *self
    }

    fn as_borrowed(&self) -> (r: &u16) {
        self
    }
}

impl HashTableValue for u16 {
    open spec fn spec_is_null(v: u16) -> bool {
        v == 0
    }

    fn is_null(&self) -> (r: bool) {
        *self == 0
    }

    fn clone_value(&self) -> (r: u16) {
        *self
    }
}

impl HashTableKey for i32 {
    type Borrowed = i32;

    fn key_matches(&self, key: &i32) -> (r: bool) {
        *self == *key
    }

    fn clone_key(&self) -> (r: i32) {
        *self
    }

    fn as_borrowed(&self) -> (r: &i32) {
        self
    }
}

impl HashTableValue for i32 {
    open spec fn spec_is_null(v: i32) -> bool {
        v == 0
    }

    fn is_null(&self) -> (r: bool) {
        *self == 0
    }

    fn clone_value(&self) -> (r: i32) {
        *self
    }
}

impl HashTableKey for u32 {
    type Borrowed = u32;

    fn key_matches(&self, key: &u32) -> (r: bool) {
        *self == *key
    }

    fn clone_key(&self) -> (r: u32) {
        *self
    }

    fn as_borrowed(&self) -> (r: &u32) {
        self
    }
}

impl HashTableValue for u32 {
    open spec fn spec_is_null(v: u32) -> bool {
        v == 0
    }

    fn is_null(&self) -> (r: bool) {
        *self == 0
    }

    fn clone_value(&self) -> (r: u32) {
        *self
    }
}

impl HashTableKey for i64 {
    type Borrowed = i64;

    fn key_matches(&self, key: &i64) -> (r: bool) {
        *self == *key
    }

    fn clone_key(&self) -> (r: i64) {
        *self
    }

    fn as_borrowed(&self) -> (r: &i64) {
        self
    }
}

impl HashTableValue for i64 {
    open spec fn spec_is_null(v: i64) -> bool {
        v == 0
    }

    fn is_null(&self) -> (r: bool) {
        *self == 0
    }

    fn clone_value(&self) -> (r: i64) {
        *self
    }
}

impl HashTableKey for u64 {
    type Borrowed = u64;

    fn key_matches(&self, key: &u64) -> (r: bool) {
        *self == *key
    }

    fn clone_key(&self) -> (r: u64) {
        *self
    }

    fn as_borrowed(&self) -> (r: &u64) {
        self
    }
}

impl HashTableValue for u64 {
    open spec fn spec_is_null(v: u64) -> bool {
        v == 0
    }

    fn is_null(&self) -> (r: bool) {
        *self == 0
    }

    fn clone_value(&self) -> (r: u64) {
        *self
    }
}

/// The views of the entries of a table, in table order.
pub open spec fn entry_views<K: View, V: View>(entries: Seq<(K, V)>) -> Seq<(K::V, V::V)> {
    entries.map_values(|e: (K, V)| (e.0@, e.1@))
}

/// The values, in order, of the entries whose value is not stored as null.
pub open spec fn non_null_values<K, V: HashTableValue>(entries: Seq<(K, V::V)>) -> Seq<V::V>
    decreases entries.len(),
{
    if entries.len() == 0 {
        Seq::empty()
    } else {
        let rest = non_null_values::<K, V>(entries.drop_last());
        if V::spec_is_null(entries.last().1) {
            rest
        } else {
            rest.push(entries.last().1)
        }
    }
}

/// The entries, in order, whose value is not stored as null.
pub open spec fn non_null_entries<K, V: HashTableValue>(entries: Seq<(K, V::V)>) -> Seq<(K, V::V)>
    decreases entries.len(),
{
    if entries.len() == 0 {
        Seq::empty()
    } else {
        let rest = non_null_entries::<K, V>(entries.drop_last());
        if V::spec_is_null(entries.last().1) {
            rest
        } else {
            rest.push(entries.last())
        }
    }
}

/// What a lookup of `k` reports: the value stored under `k`, unless there is
/// none or it is stored as null.
pub open spec fn spec_lookup<K, V: HashTableValue>(m: Map<K, V::V>, k: K) -> Option<V::V> {
    if m.contains_key(k) && !V::spec_is_null(m[k]) {
        Some(m[k])
    } else {
        None
    }
}

/// `m` after storing the pairs `pairs` one after the other.
pub open spec fn insert_all<KV, VV>(m: Map<KV, VV>, pairs: Seq<(KV, VV)>) -> Map<KV, VV>
    decreases pairs.len(),
{
    if pairs.len() == 0 {
        m
    } else {
        insert_all(m, pairs.drop_last()).insert(pairs.last().0, pairs.last().1)
    }
}

/// A lookup right after storing `v` under `k` gives `v`, unless `v` is
/// stored as null.
pub proof fn law_get_after_insert<K, V: HashTableValue>(m: Map<K, V::V>, k: K, v: V::V)
    ensures
        spec_lookup::<K, V>(m.insert(k, v), k) == (if V::spec_is_null(v) { None } else { Some(v) }),
{
}

/// Storing under one key leaves the lookups of the other keys unchanged.
pub proof fn law_insert_keeps_other_keys<K, V: HashTableValue>(m: Map<K, V::V>, k: K, v: V::V, other: K)
    requires
        other != k,
    ensures
        spec_lookup::<K, V>(m.insert(k, v), other) == spec_lookup::<K, V>(m, other),
{
}

/// After a removal the key is gone, and the other keys are unchanged.
pub proof fn law_remove<K, V: HashTableValue>(m: Map<K, V::V>, k: K, other: K)
    ensures
        !m.remove(k).contains_key(k),
        spec_lookup::<K, V>(m.remove(k), k) is None,
        other != k ==> spec_lookup::<K, V>(m.remove(k), other) == spec_lookup::<K, V>(m, other),
{
}

/// Storing under a new key adds one to the size; under a present key it
/// leaves the size unchanged.
pub proof fn law_insert_len<K, VV>(m: Map<K, VV>, k: K, v: VV)
    requires
        m.dom().finite(),
    ensures
        m.insert(k, v).len() == (if m.contains_key(k) { m.len() } else { m.len() + 1 }),
{
    if m.contains_key(k) {
        assert(m.insert(k, v).dom() =~= m.dom());
    }
}

/// Of the integer values, only zero is stored as null; every other value is
/// kept as itself.
pub proof fn law_integer_null_is_zero(a: i8, b: u8, c: i16, d: u16, e: i32, f: u32, g: i64, h: u64)
    ensures
        <i8 as HashTableValue>::spec_is_null(a) <==> a == 0,
        <u8 as HashTableValue>::spec_is_null(b) <==> b == 0,
        <i16 as HashTableValue>::spec_is_null(c) <==> c == 0,
        <u16 as HashTableValue>::spec_is_null(d) <==> d == 0,
        <i32 as HashTableValue>::spec_is_null(e) <==> e == 0,
        <u32 as HashTableValue>::spec_is_null(f) <==> f == 0,
        <i64 as HashTableValue>::spec_is_null(g) <==> g == 0,
        <u64 as HashTableValue>::spec_is_null(h) <==> h == 0,
{
}

/// A lookup right after storing a nonzero integer under a key gives that
/// integer back, negative or positive.
pub proof fn law_nonzero_integers_read_back<K>(m32: Map<K, i32>, m64: Map<K, i64>, k: K, v: i32, w: i64)
    requires
        v != 0,
        w != 0,
    ensures
        spec_lookup::<K, i32>(m32.insert(k, v), k) == Some(v),
        spec_lookup::<K, i64>(m64.insert(k, w), k) == Some(w),
{
}

/// Whether the entries `es` hold each key of `m` once, with its value, and
/// nothing else.
pub open spec fn entries_describe<KV, VV>(es: Seq<(KV, VV)>, m: Map<KV, VV>) -> bool {
    &&& forall|i: int, j: int| 0 <= i < j < es.len() ==> (#[trigger] es[i]).0 != (#[trigger] es[j]).0
    &&& forall|i: int| 0 <= i < es.len() ==> m.contains_key((#[trigger] es[i]).0) && m[es[i].0] == es[i].1
    &&& forall|k: KV| #[trigger] m.contains_key(k) ==> exists|i: int| 0 <= i < es.len() && (#[trigger] es[i]).0 == k
    &&& m.dom().finite()
    &&& m.dom().len() == es.len()
}

/// A hash table of key-value pairs. Its view maps the view of each key to
/// the view of its value.
pub struct HashTable<K: HashTableKey, V: HashTableValue> {
    entries: Vec<(K, V)>,
    map: Ghost<Map<K::V, V::V>>,
}

impl<K: HashTableKey, V: HashTableValue> View for HashTable<K, V> {
    type V = Map<K::V, V::V>;

    closed spec fn view(&self) -> Map<K::V, V::V> {
        self.map@
    }
}

impl<K: HashTableKey, V: HashTableValue> HashTable<K, V> {
    #[verifier::type_invariant]
    spec fn entries_match_map(self) -> bool {
        entries_describe(entry_views(self.entries@), self.map@)
    }

    /// The views of the entries, in table order.
    pub closed spec fn spec_entries(&self) -> Seq<(K::V, V::V)> {
        entry_views(self.entries@)
    }

    /// An empty table.
    pub fn new() -> (r: HashTable<K, V>)
        ensures
            r@ == Map::<K::V, V::V>::empty(),
    {
        let r = HashTable { entries: Vec::new(), map: Ghost(Map::empty()) };
        assert(entry_views(r.entries@) =~= Seq::<(K::V, V::V)>::empty());
        r
    }

    /// The position of the entry of `key`, if any.
    fn find(&self, key: &K::Borrowed) -> (r: Option<usize>)
        ensures
            match r {
                Some(i) => i < self.spec_entries().len() && self.spec_entries()[i as int].0 == key@,
                None => !self@.contains_key(key@),
            },
    {
        proof {
            use_type_invariant(self);
        }
        let mut i: usize = 0;
        while i < self.entries.len()
            invariant
                i <= self.entries@.len(),
                forall|j: int| 0 <= j < i ==> (#[trigger] entry_views(self.entries@)[j]).0 != key@,
            decreases self.entries@.len() - i,
        {
            if self.entries[i].0.key_matches(key) {
                assert(entry_views(self.entries@)[i as int].0 == self.entries@[i as int].0@);
                return Some(i);
            }
            assert(entry_views(self.entries@)[i as int].0 == self.entries@[i as int].0@);
            i = i + 1;
        }
        None
    }

    /// The value of `key`; none when the key is missing or its value is
    /// stored as null.
    pub fn get(&self, key: &K::Borrowed) -> (r: Option<V>)
        ensures
            opt_v(r) == spec_lookup::<K::V, V>(self@, key@),
    {
        proof {
            use_type_invariant(self);
        }
        match self.find(key) {
            Some(i) => {
                let v = &self.entries[i].1;
                assert(entry_views(self.entries@)[i as int].1 == self.entries@[i as int].1@);
                if v.is_null() {
                    None
                } else {
                    Some(v.clone_value())
                }
            },
            None => None,
        }
    }

    /// Whether the table holds `key`.
    pub fn contains_key(&self, key: &K::Borrowed) -> (r: bool)
        ensures
            r == self@.contains_key(key@),
    {
        proof {
            use_type_invariant(self);
        }
        match self.find(key) {
            Some(i) => true,
            None => false,
        }
    }

    /// The number of keys.
    pub fn len(&self) -> (r: usize)
        ensures
            r == self@.len(),
            self@.dom().finite(),
    {
        proof {
            use_type_invariant(self);
        }
        self.entries.len()
    }

    /// Whether the table holds no key.
    pub fn is_empty(&self) -> (r: bool)
        ensures
            r == (self@.len() == 0),
    {
        self.len() == 0
    }

    /// Stores `value` under `key` and reports whether `key` was new. When
    /// `replace_key` holds, an existing key is replaced by `key`; otherwise
    /// the existing key stays.
    fn store(&mut self, key: K, value: V, replace_key: bool) -> (r: bool)
        ensures
            r == !old(self)@.contains_key(key@),
            final(self)@ == old(self)@.insert(key@, value@),
            final(self)@.dom().finite(),
            final(self)@.len() == old(self)@.len() + (if r { 1int } else { 0int }),
            final(self)@.len() > 0,
    {
        proof {
            use_type_invariant(&*self);
        }
        let mut t = HashTable::new();
        std::mem::swap(self, &mut t);
        proof {
            use_type_invariant(&t);
        }
        let ghost m0 = t.map@;
        let ghost es0 = entry_views(t.entries@);
        let ghost kv = key@;
        let ghost vv = value@;
        let found = t.find(key.as_borrowed());
        let HashTable { mut entries, map } = t;
        let ghost m1 = m0.insert(kv, vv);
        match found {
            Some(i) => {
                let (old_key, _old_value) = entries.remove(i);
                if replace_key {
                    entries.insert(i, (key, value));
                } else {
                    entries.insert(i, (old_key, value));
                }
                proof {
                    let es1 = entry_views(entries@);
                    assert(es1 =~= es0.update(i as int, (kv, vv)));
                    assert(m0.contains_key(kv));
                    assert(m1.dom() =~= m0.dom());
                    assert forall|k: K::V| #[trigger] m1.contains_key(k) implies exists|j: int|
                        0 <= j < es1.len() && (#[trigger] es1[j]).0 == k by {
                        if k != kv {
                            let j = choose|j: int| 0 <= j < es0.len() && (#[trigger] es0[j]).0 == k;
                            assert(es1[j].0 == k);
                        } else {
                            assert(es1[i as int].0 == k);
                        }
                    };
                }
                *self = HashTable { entries, map: Ghost(m1) };
                proof {
                    use_type_invariant(&*self);
                }
                false
            },
            None => {
                entries.push((key, value));
                proof {
                    let es1 = entry_views(entries@);
                    assert(es1 =~= es0.push((kv, vv)));
                    assert(!m0.dom().contains(kv));
                    assert(m1.dom() =~= m0.dom().insert(kv));
                    assert forall|k: K::V| #[trigger] m1.contains_key(k) implies exists|j: int|
                        0 <= j < es1.len() && (#[trigger] es1[j]).0 == k by {
                        if k != kv {
                            let j = choose|j: int| 0 <= j < es0.len() && (#[trigger] es0[j]).0 == k;
                            assert(es1[j].0 == k);
                        } else {
                            assert(es1[es0.len() as int].0 == k);
                        }
                    };
                }
                *self = HashTable { entries, map: Ghost(m1) };
                proof {
                    use_type_invariant(&*self);
                }
                true
            },
        }
    }

    /// Stores `value` under `key`; an existing key keeps its value's place
    /// and its own key object, and gets the new value.
    pub fn insert(&mut self, key: K, value: V)
        ensures
            final(self)@ == old(self)@.insert(key@, value@),
            final(self)@.dom().finite(),
            final(self)@.len() == old(self)@.len() + (if old(self)@.contains_key(key@) { 0int } else { 1int }),
            final(self)@.len() > 0,
    {
        self.store(key, value, false);
    }

    /// Stores `value` under `key`, replacing an existing key too, and reports
    /// whether `key` was new.
    pub fn replace(&mut self, key: K, value: V) -> (r: bool)
        ensures
            r == !old(self)@.contains_key(key@),
            final(self)@ == old(self)@.insert(key@, value@),
            final(self)@.dom().finite(),
            final(self)@.len() == old(self)@.len() + (if r { 1int } else { 0int }),
            final(self)@.len() > 0,
    {
        self.store(key, value, true)
    }

    /// Removes `key` and its value; reports whether it was there.
    pub fn remove(&mut self, key: &K::Borrowed) -> (r: bool)
        ensures
            r == old(self)@.contains_key(key@),
            final(self)@ == old(self)@.remove(key@),
            final(self)@.dom().finite(),
            final(self)@.len() == old(self)@.len() - (if r { 1int } else { 0int }),
    {
        proof {
            use_type_invariant(&*self);
        }
        let mut t = HashTable::new();
        std::mem::swap(self, &mut t);
        proof {
            use_type_invariant(&t);
        }
        let ghost m0 = t.map@;
        let ghost es0 = entry_views(t.entries@);
        let found = t.find(key);
        let HashTable { mut entries, map } = t;
        let ghost m1 = m0.remove(key@);
        match found {
            Some(i) => {
                let _removed = entries.remove(i);
                proof {
                    let es1 = entry_views(entries@);
                    assert(es1 =~= es0.remove(i as int));
                    assert(m0.contains_key(key@));
                    assert(m1.dom() =~= m0.dom().remove(key@));
                    assert forall|a: int, b: int| 0 <= a < b < es1.len() implies (#[trigger] es1[a]).0 != (#[trigger] es1[b]).0 by {
                        let a0 = if a < i { a } else { a + 1 };
                        let b0 = if b < i { b } else { b + 1 };
                        assert(es1[a] == es0[a0]);
                        assert(es1[b] == es0[b0]);
                    };
                    assert forall|j: int| 0 <= j < es1.len() implies m1.contains_key((#[trigger] es1[j]).0) && m1[es1[j].0] == es1[j].1 by {
                        let j0 = if j < i { j } else { j + 1 };
                        assert(es1[j] == es0[j0]);
                        assert(es0[j0].0 != es0[i as int].0);
                    };
                    assert forall|k: K::V| #[trigger] m1.contains_key(k) implies exists|j: int|
                        0 <= j < es1.len() && (#[trigger] es1[j]).0 == k by {
                        let j0 = choose|j: int| 0 <= j < es0.len() && (#[trigger] es0[j]).0 == k;
                        assert(j0 != i);
                        let j = if j0 < i { j0 } else { j0 - 1 };
                        assert(es1[j] == es0[j0]);
                    };
                }
                *self = HashTable { entries, map: Ghost(m1) };
                proof {
                    use_type_invariant(&*self);
                }
                true
            },
            None => {
                proof {
                    assert(m1 =~= m0);
                }
                *self = HashTable { entries, map: Ghost(m1) };
                proof {
                    use_type_invariant(&*self);
                }
                false
            },
        }
    }

    /// Removes every key.
    pub fn remove_all(&mut self)
        ensures
            final(self)@ == Map::<K::V, V::V>::empty(),
    {
        *self = HashTable::new();
    }

    /// Copies of the keys, in table order.
    pub fn keys(&self) -> (r: Vec<K>)
        ensures
            entries_describe(self.spec_entries(), self@),
            r@.len() == self.spec_entries().len(),
            forall|i: int| 0 <= i < r@.len() ==> (#[trigger] r@[i])@ == self.spec_entries()[i].0,
    {
        proof {
            use_type_invariant(self);
        }
        let mut r: Vec<K> = Vec::new();
        let mut i: usize = 0;
        while i < self.entries.len()
            invariant
                i <= self.entries@.len(),
                r@.len() == i,
                forall|j: int| 0 <= j < i ==> (#[trigger] r@[j])@ == entry_views(self.entries@)[j].0,
            decreases self.entries@.len() - i,
        {
            let k = self.entries[i].0.clone_key();
            r.push(k);
            i = i + 1;
        }
        r
    }

    /// Copies of the values that are not stored as null, in table order.
    pub fn values(&self) -> (r: Vec<V>)
        ensures
            entries_describe(self.spec_entries(), self@),
            r@.map_values(|v: V| v@) == non_null_values::<K::V, V>(self.spec_entries()),
    {
        proof {
            use_type_invariant(self);
        }
        let mut r: Vec<V> = Vec::new();
        let mut i: usize = 0;
        while i < self.entries.len()
            invariant
                i <= self.entries@.len(),
                r@.map_values(|v: V| v@) == non_null_values::<K::V, V>(entry_views(self.entries@).take(i as int)),
            decreases self.entries@.len() - i,
        {
            let ghost es = entry_views(self.entries@);
            assert(es.take(i + 1).drop_last() =~= es.take(i as int));
            assert(es.take(i + 1).last() == es[i as int]);
            let v = &self.entries[i].1;
            if !v.is_null() {
                let c = v.clone_value();
                let ghost prev = r@;
                r.push(c);
                assert(r@.map_values(|v: V| v@) =~= prev.map_values(|v: V| v@).push(c@));
            }
            i = i + 1;
        }
        assert(entry_views(self.entries@).take(self.entries@.len() as int) =~= entry_views(self.entries@));
        r
    }

    /// Copies of the key-value pairs whose value is not stored as null, in
    /// table order.
    pub fn iter(&self) -> (r: Vec<(K, V)>)
        ensures
            entries_describe(self.spec_entries(), self@),
            entry_views(r@) == non_null_entries::<K::V, V>(self.spec_entries()),
    {
        proof {
            use_type_invariant(self);
        }
        let mut r: Vec<(K, V)> = Vec::new();
        let mut i: usize = 0;
        while i < self.entries.len()
            invariant
                i <= self.entries@.len(),
                entry_views(r@) == non_null_entries::<K::V, V>(entry_views(self.entries@).take(i as int)),
            decreases self.entries@.len() - i,
        {
            let ghost es = entry_views(self.entries@);
            assert(es.take(i + 1).drop_last() =~= es.take(i as int));
            assert(es.take(i + 1).last() == es[i as int]);
            let v = &self.entries[i].1;
            if !v.is_null() {
                let k = self.entries[i].0.clone_key();
                let c = v.clone_value();
                let ghost prev = r@;
                r.push((k, c));
                assert(entry_views(r@) =~= entry_views(prev).push(es[i as int]));
            }
            i = i + 1;
        }
        assert(entry_views(self.entries@).take(self.entries@.len() as int) =~= entry_views(self.entries@));
        r
    }
}

impl<K: HashTableKey, V: HashTableValue> HashTable<K, V> {
    /// Stores the pairs `pairs` one after the other.
    pub fn extend(&mut self, pairs: Vec<(K, V)>)
        ensures
            final(self)@ == insert_all(old(self)@, entry_views(pairs@)),
    {
        let ghost all = entry_views(pairs@);
        let mut rest = pairs;
        let mut i: usize = 0;
        let ghost n = all.len();
        assert(n == rest.len());
        assert(all.take(0) =~= Seq::<(K::V, V::V)>::empty());
        assert(all.skip(0) =~= all);
        while rest.len() > 0
            invariant
                i <= n,
                n == all.len(),
                n <= usize::MAX,
                entry_views(rest@) == all.skip(i as int),
                self@ == insert_all(old(self)@, all.take(i as int)),
            decreases rest@.len(),
        {
            assert(entry_views(rest@).len() == rest@.len());
            assert(i < n);
            let ghost before = rest@;
            let (k, v) = rest.remove(0);
            proof {
                assert(entry_views(before)[0] == (k@, v@));
                assert(all.skip(i as int)[0] == (k@, v@));
                assert(all.take(i + 1).drop_last() =~= all.take(i as int));
                assert(all.take(i + 1).last() == (k@, v@));
                assert forall|j: int| 0 <= j < rest@.len() implies #[trigger] entry_views(rest@)[j] == all.skip(i + 1)[j] by {
                    assert(rest@[j] == before[j + 1]);
                    assert(entry_views(before)[j + 1] == all.skip(i as int)[j + 1]);
                };
                assert(entry_views(rest@) =~= all.skip(i + 1));
            }
            self.insert(k, v);
            i = i + 1;
        }
        assert(all.take(i as int) =~= all);
    }

    /// A table holding the pairs `pairs`, stored one after the other.
    pub fn from_pairs(pairs: Vec<(K, V)>) -> (r: HashTable<K, V>)
        ensures
            r@ == insert_all(Map::<K::V, V::V>::empty(), entry_views(pairs@)),
    {
        let mut t = HashTable::new();
        t.extend(pairs);
        t
    }
}

impl<K: HashTableKey, V: HashTableValue> Default for HashTable<K, V> {
    fn default() -> (r: HashTable<K, V>)
        ensures
            r@ == Map::<K::V, V::V>::empty(),
    {
        HashTable::new()
    }
}

} // verus!
