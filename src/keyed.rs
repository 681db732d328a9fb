use vstd::prelude::*;

verus! {

/// A record that is filed under a string key.
pub trait Keyed: Sized {
    spec fn key(&self) -> Seq<char>;

    fn key_ref(&self) -> (r: &String)
        ensures
            r@ == self.key(),
    ;
}

/// No two records share a key.
pub open spec fn keys_unique<T: Keyed>(s: Seq<T>) -> bool {
    forall|i: int, j: int|
        0 <= i < s.len() && 0 <= j < s.len() && i != j ==> s[i].key() != s[j].key()
}

/// The records of `s` filed by key.
pub open spec fn by_key<T: Keyed>(s: Seq<T>) -> Map<Seq<char>, T> {
    Map::new(
        |k: Seq<char>| exists|i: int| 0 <= i < s.len() && s[i].key() == k,
        |k: Seq<char>| s[choose|i: int| 0 <= i < s.len() && s[i].key() == k],
    )
}

pub proof fn lemma_lookup<T: Keyed>(s: Seq<T>, i: int)
    requires
        keys_unique(s),
        0 <= i < s.len(),
    ensures
        by_key(s).contains_key(s[i].key()),
        by_key(s)[s[i].key()] == s[i],
{
    let k = s[i].key();
    assert(exists|j: int| 0 <= j < s.len() && s[j].key() == k);
    let j = choose|j: int| 0 <= j < s.len() && s[j].key() == k;
    assert(j == i);
}

pub proof fn lemma_single<T: Keyed>(d: T)
    ensures
        keys_unique(seq![d]),
        by_key(seq![d]) == Map::<Seq<char>, T>::empty().insert(d.key(), d),
{
    let s = seq![d];
    lemma_lookup(s, 0);
    let a = by_key(s);
    let b = Map::<Seq<char>, T>::empty().insert(d.key(), d);
    assert forall|k: Seq<char>| #[trigger] a.contains_key(k) == b.contains_key(k) by {
        if a.contains_key(k) {
            let j = choose|j: int| 0 <= j < s.len() && s[j].key() == k;
            assert(j == 0);
        }
    }
    assert(a =~= b);
}

proof fn lemma_replace<T: Keyed>(s: Seq<T>, i: int, d: T)
    requires
        keys_unique(s),
        0 <= i < s.len(),
        s[i].key() == d.key(),
    ensures
        keys_unique(s.update(i, d)),
        by_key(s.update(i, d)) == by_key(s).insert(d.key(), d),
{
    let t = s.update(i, d);
    assert(keys_unique(t));
    let a = by_key(t);
    let b = by_key(s).insert(d.key(), d);
    assert forall|k: Seq<char>| #[trigger] a.contains_key(k) == b.contains_key(k) by {
        if a.contains_key(k) {
            let j = choose|j: int| 0 <= j < t.len() && t[j].key() == k;
            if j != i {
                assert(s[j].key() == k);
            }
        }
        if b.contains_key(k) && k != d.key() {
            let j = choose|j: int| 0 <= j < s.len() && s[j].key() == k;
            assert(t[j].key() == k);
        }
        if k == d.key() {
            assert(t[i].key() == k);
        }
    }
    assert forall|k: Seq<char>| #[trigger] a.contains_key(k) implies a[k] == b[k] by {
        let j = choose|j: int| 0 <= j < t.len() && t[j].key() == k;
        lemma_lookup(t, j);
        if j != i {
            lemma_lookup(s, j);
        }
    }
    assert(a =~= b);
}

proof fn lemma_append<T: Keyed>(s: Seq<T>, d: T)
    requires
        keys_unique(s),
        !by_key(s).contains_key(d.key()),
    ensures
        keys_unique(s.push(d)),
        by_key(s.push(d)) == by_key(s).insert(d.key(), d),
{
    let t = s.push(d);
    assert forall|i: int, j: int|
        0 <= i < t.len() && 0 <= j < t.len() && i != j implies t[i].key() != t[j].key() by {
        if i == s.len() {
            assert(t[j] == s[j]);
        } else if j == s.len() {
            assert(t[i] == s[i]);
        } else {
            assert(t[i] == s[i] && t[j] == s[j]);
        }
    }
    let a = by_key(t);
    let b = by_key(s).insert(d.key(), d);
    assert forall|k: Seq<char>| #[trigger] a.contains_key(k) == b.contains_key(k) by {
        if a.contains_key(k) && k != d.key() {
            let j = choose|j: int| 0 <= j < t.len() && t[j].key() == k;
            assert(s[j].key() == k);
        }
        if b.contains_key(k) && k != d.key() {
            let j = choose|j: int| 0 <= j < s.len() && s[j].key() == k;
            assert(t[j].key() == k);
        }
        if k == d.key() {
            assert(t[s.len() as int].key() == k);
        }
    }
    assert forall|k: Seq<char>| #[trigger] a.contains_key(k) implies a[k] == b[k] by {
        let j = choose|j: int| 0 <= j < t.len() && t[j].key() == k;
        lemma_lookup(t, j);
        if j != s.len() {
            assert(t[j] == s[j]);
            lemma_lookup(s, j);
        }
    }
    assert(a =~= b);
}

/// Where the record filed under `key` sits, if there is one.
pub fn find_position<T: Keyed>(v: &Vec<T>, key: &String) -> (r: Option<usize>)
    requires
        keys_unique(v@),
    ensures
        r is Some <==> by_key(v@).contains_key(key@),
        r is Some ==> r.unwrap() < v@.len() && v@[r.unwrap() as int].key() == key@,
{
    let mut i: usize = 0;
    while i < v.len()
        invariant
            i <= v@.len(),
            forall|j: int| 0 <= j < i ==> #[trigger] v@[j].key() != key@,
        decreases v@.len() - i,
    {
        if *v[i].key_ref() == *key {
            return Some(i);
        }
        i = i + 1;
    }
    proof {
        if by_key(v@).contains_key(key@) {
            let j = choose|j: int| 0 <= j < v@.len() && v@[j].key() == key@;
            assert(v@[j].key() != key@);
        }
    }
    None
}

/// Files `item` under its key, replacing any record filed there.
pub fn upsert<T: Keyed>(v: &mut Vec<T>, item: T)
    requires
        keys_unique(old(v)@),
    ensures
        keys_unique(final(v)@),
        by_key(final(v)@) == by_key(old(v)@).insert(item.key(), item),
{
    match find_position(v, item.key_ref()) {
        Some(i) => {
            proof {
                lemma_replace(v@, i as int, item);
            }
            v.set(i, item);
        },
        None => {
            proof {
                lemma_append(v@, item);
            }
            v.push(item);
        },
    }
}

} // verus!
