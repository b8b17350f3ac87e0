//! A map from attribute names to values, each name at most once.
use vstd::prelude::*;

use crate::node::hash::{hash_kv, xor_pair_hashes};
use crate::text::names_equal;

verus! {

/// The value `entries` give the name `key`: that of the first entry with
/// that name.
pub open spec fn lookup(entries: Seq<(Seq<char>, Seq<char>)>, key: Seq<char>) -> Option<Seq<char>>
    decreases entries.len(),
{
    if entries.len() == 0 {
        None
    } else if entries[0].0 == key {
        Some(entries[0].1)
    } else {
        lookup(entries.drop_first(), key)
    }
}

/// No name occurs twice.
pub open spec fn distinct_keys(entries: Seq<(Seq<char>, Seq<char>)>) -> bool {
    forall|i: int, j: int| 0 <= i < j < entries.len() ==> entries[i].0 != entries[j].0
}

/// How one attribute is written in a start tag: a space, the name, `=` and
/// the value in double quotes.
pub open spec fn attribute_text(name: Seq<char>, value: Seq<char>) -> Seq<char> {
    seq![' '] + name + seq!['=', '"'] + value + seq!['"']
}

/// The attributes of `entries` written one after another, each name behind
/// `prefix`.
pub open spec fn entries_text(entries: Seq<(Seq<char>, Seq<char>)>, prefix: Seq<char>) -> Seq<char>
    decreases entries.len(),
{
    if entries.len() == 0 {
        Seq::empty()
    } else {
        entries_text(entries.drop_last(), prefix) + attribute_text(
            prefix + entries.last().0,
            entries.last().1,
        )
    }
}

/// A map from attribute names to values, in insertion order.
#[derive(Debug)]
pub struct AttrMap {
    entries: Vec<(String, String)>,
}

/// The names and values of `entries` as character sequences.
pub open spec fn entry_views(entries: Seq<(String, String)>) -> Seq<(Seq<char>, Seq<char>)> {
    entries.map_values(|e: (String, String)| (e.0@, e.1@))
}

impl View for AttrMap {
    type V = Seq<(Seq<char>, Seq<char>)>;

    /// The names and values, in insertion order.
    closed spec fn view(&self) -> Seq<(Seq<char>, Seq<char>)> {
        entry_views(self.entries@)
    }
}

proof fn lemma_lookup_found(s: Seq<(Seq<char>, Seq<char>)>, i: int)
    requires
        0 <= i < s.len(),
        distinct_keys(s),
    ensures
        lookup(s, s[i].0) == Some(s[i].1),
    decreases s.len(),
{
    if i > 0 {
        lemma_lookup_found(s.drop_first(), i - 1);
    }
}

proof fn lemma_lookup_absent(s: Seq<(Seq<char>, Seq<char>)>, key: Seq<char>)
    requires
        forall|i: int| 0 <= i < s.len() ==> s[i].0 != key,
    ensures
        lookup(s, key) is None,
    decreases s.len(),
{
    if s.len() > 0 {
        lemma_lookup_absent(s.drop_first(), key);
    }
}

proof fn lemma_lookup_in(s: Seq<(Seq<char>, Seq<char>)>, key: Seq<char>)
    ensures
        lookup(s, key) is Some <==> exists|i: int| 0 <= i < s.len() && s[i].0 == key,
    decreases s.len(),
{
    if s.len() > 0 {
        lemma_lookup_in(s.drop_first(), key);
        if exists|i: int| 0 <= i < s.len() && s[i].0 == key {
            let i = choose|i: int| 0 <= i < s.len() && s[i].0 == key;
            if i > 0 {
                assert(s.drop_first()[i - 1].0 == key);
            }
        }
        if exists|i: int| 0 <= i < s.drop_first().len() && s.drop_first()[i].0 == key {
            let i = choose|i: int| 0 <= i < s.drop_first().len() && s.drop_first()[i].0 == key;
            assert(s[i + 1].0 == key);
        }
    }
}

proof fn lemma_lookup_update(s: Seq<(Seq<char>, Seq<char>)>, i: int, v: Seq<char>, other: Seq<char>)
    requires
        0 <= i < s.len(),
        distinct_keys(s),
    ensures
        distinct_keys(s.update(i, (s[i].0, v))),
        lookup(s.update(i, (s[i].0, v)), s[i].0) == Some(v),
        other != s[i].0 ==> lookup(s.update(i, (s[i].0, v)), other) == lookup(s, other),
    decreases s.len(),
{
    let t = s.update(i, (s[i].0, v));
    lemma_lookup_found(t, i);
    if i > 0 {
        lemma_lookup_update(s.drop_first(), i - 1, v, other);
        assert(t.drop_first() =~= s.drop_first().update(i - 1, (s[i].0, v)));
    } else {
        assert(t.drop_first() =~= s.drop_first());
    }
}

proof fn lemma_lookup_push(s: Seq<(Seq<char>, Seq<char>)>, k: Seq<char>, v: Seq<char>, other: Seq<char>)
    requires
        distinct_keys(s),
        lookup(s, k) is None,
    ensures
        distinct_keys(s.push((k, v))),
        lookup(s.push((k, v)), k) == Some(v),
        other != k ==> lookup(s.push((k, v)), other) == lookup(s, other),
    decreases s.len(),
{
    lemma_lookup_in(s, k);
    let t = s.push((k, v));
    assert(t[s.len() as int] == (k, v));
    lemma_lookup_found(t, s.len() as int);
    if s.len() > 0 {
        assert(t.drop_first() =~= s.drop_first().push((k, v)));
        lemma_lookup_push(s.drop_first(), k, v, other);
    } else {
        assert(t.drop_first() =~= s);
    }
}

proof fn lemma_lookup_remove(s: Seq<(Seq<char>, Seq<char>)>, i: int, other: Seq<char>)
    requires
        0 <= i < s.len(),
        distinct_keys(s),
    ensures
        distinct_keys(s.remove(i)),
        lookup(s.remove(i), s[i].0) is None,
        other != s[i].0 ==> lookup(s.remove(i), other) == lookup(s, other),
    decreases s.len(),
{
    let t = s.remove(i);
    assert forall|j: int| 0 <= j < t.len() implies t[j].0 != s[i].0 by {
        if j < i {
            assert(t[j] == s[j]);
        } else {
            assert(t[j] == s[j + 1]);
        }
    }
    lemma_lookup_absent(t, s[i].0);
    if i > 0 {
        assert(t.drop_first() =~= s.drop_first().remove(i - 1));
        lemma_lookup_remove(s.drop_first(), i - 1, other);
    } else {
        assert(t =~= s.drop_first());
    }
}

impl AttrMap {
    /// Names are not repeated.
    #[verifier::type_invariant]
    spec fn keys_distinct(&self) -> bool {
        distinct_keys(self@)
    }

    /// The value of the attribute named `key`, if there is one.
    pub open spec fn spec_get(&self, key: Seq<char>) -> Option<Seq<char>> {
        lookup(self@, key)
    }

    /// No attribute.
    pub fn new() -> (r: Self)
        ensures
            r@ == Seq::<(Seq<char>, Seq<char>)>::empty(),
    {
        let r = AttrMap { entries: Vec::new() };
        assert(r@ =~= Seq::<(Seq<char>, Seq<char>)>::empty());
        r
    }

    /// How many attributes there are.
    pub fn len(&self) -> (r: usize)
        ensures
            r == self@.len(),
    {
        self.entries.len()
    }

    /// Where the attribute named `key` stands, if there is one.
    fn position(&self, key: &str) -> (r: Option<usize>)
        ensures
            match r {
                Some(i) => i < self@.len() && self@[i as int].0 == key@,
                None => forall|i: int| 0 <= i < self@.len() ==> self@[i].0 != key@,
            },
    {
        let n = self.entries.len();
        let mut i: usize = 0;
        while i < n
            invariant
                n == self@.len(),
                n == self.entries@.len(),
                i <= n,
                forall|j: int| 0 <= j < i ==> self@[j].0 != key@,
            decreases n - i,
        {
            if names_equal(self.entries[i].0.as_str(), key) {
                return Some(i);
            }
            i = i + 1;
        }
        None
    }

    /// The value of the attribute named `key`, if there is one.
    pub fn get(&self, key: &str) -> (r: Option<&String>)
        ensures
            match r {
                Some(v) => self.spec_get(key@) == Some(v@),
                None => self.spec_get(key@) is None,
            },
    {
        proof {
            use_type_invariant(self);
        }
        match self.position(key) {
            Some(i) => {
                proof {
                    lemma_lookup_found(self@, i as int);
                }
                Some(&self.entries[i].1)
            },
            None => {
                proof {
                    lemma_lookup_absent(self@, key@);
                }
                None
            },
        }
    }

    /// Sets the attribute named `key` to `value`; an attribute with that name
    /// keeps its place, a new one goes last.
    pub fn insert(&mut self, key: &str, value: &str)
        ensures
            distinct_keys(final(self)@),
            final(self).spec_get(key@) == Some(value@),
            forall|other: Seq<char>| other != key@ ==> final(self).spec_get(other) == old(self).spec_get(other),
            old(self).spec_get(key@) is Some ==> exists|i: int|
                0 <= i < old(self)@.len() && old(self)@[i].0 == key@ && final(self)@ == old(self)@.update(
                    i,
                    (key@, value@),
                ),
            old(self).spec_get(key@) is None ==> final(self)@ == old(self)@.push((key@, value@)),
    {
        proof {
            use_type_invariant(&*self);
        }
        match self.position(key) {
            Some(i) => {
                proof {
                    assert forall|other: Seq<char>| other != key@ implies lookup(old(self)@.update(i as int, (key@, value@)), other) == lookup(old(self)@, other) by {
                        lemma_lookup_update(old(self)@, i as int, value@, other);
                    }
                    lemma_lookup_update(old(self)@, i as int, value@, key@);
                    lemma_lookup_found(old(self)@, i as int);
                }
                let mut entries: Vec<(String, String)> = Vec::new();
                std::mem::swap(&mut entries, &mut self.entries);
                entries.set(i, (String::from_str(key), String::from_str(value)));
                assert(entry_views(entries@) =~= old(self)@.update(i as int, (key@, value@)));
                self.entries = entries;
            },
            None => {
                proof {
                    lemma_lookup_absent(old(self)@, key@);
                    assert forall|other: Seq<char>| other != key@ implies lookup(old(self)@.push((key@, value@)), other) == lookup(old(self)@, other) by {
                        lemma_lookup_push(old(self)@, key@, value@, other);
                    }
                    lemma_lookup_push(old(self)@, key@, value@, key@);
                }
                let mut entries: Vec<(String, String)> = Vec::new();
                std::mem::swap(&mut entries, &mut self.entries);
                entries.push((String::from_str(key), String::from_str(value)));
                assert(entry_views(entries@) =~= old(self)@.push((key@, value@)));
                self.entries = entries;
            },
        }
    }

    /// Removes the attribute named `key`; returns its value if there was one.
    /// The other attributes keep their order.
    pub fn remove(&mut self, key: &str) -> (r: Option<String>)
        ensures
            distinct_keys(final(self)@),
            match r {
                Some(v) => old(self).spec_get(key@) == Some(v@),
                None => old(self).spec_get(key@) is None,
            },
            final(self).spec_get(key@) is None,
            forall|other: Seq<char>| other != key@ ==> final(self).spec_get(other) == old(self).spec_get(other),
            r is Some ==> exists|i: int|
                0 <= i < old(self)@.len() && old(self)@[i].0 == key@ && final(self)@ == old(self)@.remove(i),
            r is None ==> final(self)@ == old(self)@,
    {
        proof {
            use_type_invariant(&*self);
        }
        match self.position(key) {
            Some(i) => {
                proof {
                    lemma_lookup_found(old(self)@, i as int);
                    assert forall|other: Seq<char>| other != key@ implies lookup(old(self)@.remove(i as int), other) == lookup(old(self)@, other) by {
                        lemma_lookup_remove(old(self)@, i as int, other);
                    }
                    lemma_lookup_remove(old(self)@, i as int, key@);
                }
                let mut entries: Vec<(String, String)> = Vec::new();
                std::mem::swap(&mut entries, &mut self.entries);
                let (_, v) = entries.remove(i);
                assert(entry_views(entries@) =~= old(self)@.remove(i as int));
                self.entries = entries;
                Some(v)
            },
            None => {
                proof {
                    lemma_lookup_absent(old(self)@, key@);
                }
                None
            },
        }
    }

    /// Appends the attributes to `out` in insertion order, each written as
    /// ` name="value"` with `prefix` before the name.
    pub fn write_entries(&self, prefix: &str, out: &mut String)
        ensures
            final(out)@ == old(out)@ + entries_text(self@, prefix@),
    {
        let n = self.entries.len();
        let mut i: usize = 0;
        while i < n
            invariant
                n == self.entries@.len(),
                n == self@.len(),
                i <= n,
                out@ == old(out)@ + entries_text(self@.take(i as int), prefix@),
            decreases n - i,
        {
            let entry = &self.entries[i];
            out.append(" ");
            out.append(prefix);
            out.append(entry.0.as_str());
            out.append("=\"");
            out.append(entry.1.as_str());
            out.append("\"");
            proof {
                reveal_strlit(" ");
                reveal_strlit("=\"");
                reveal_strlit("\"");
                let t = self@.take(i + 1);
                assert(t.drop_last() =~= self@.take(i as int));
                assert(t.last() == (entry.0@, entry.1@));
                assert(out@ =~= old(out)@ + entries_text(t, prefix@));
            }
            i = i + 1;
        }
        assert(self@.take(n as int) =~= self@);
    }

    /// The hashes of the name/value pairs (as `hash_kv` gives them) combined
    /// by XOR, so that the result does not depend on the order of the pairs.
    pub fn xor_hashes(&self) -> (r: u64)
        ensures
            r == xor_pair_hashes(self@),
    {
        let n = self.entries.len();
        let mut acc: u64 = 0;
        let mut i: usize = 0;
        while i < n
            invariant
                n == self.entries@.len(),
                n == self@.len(),
                i <= n,
                acc == xor_pair_hashes(self@.take(i as int)),
            decreases n - i,
        {
            let e = &self.entries[i];
            let h = hash_kv(e.0.as_str(), e.1.as_str());
            proof {
                let t = self@.take(i + 1);
                assert(t.drop_last() =~= self@.take(i as int));
                assert(t.last() == self@[i as int]);
            }
            acc = acc ^ h;
            i = i + 1;
        }
        assert(self@.take(n as int) =~= self@);
        acc
    }

    /// The names and values, in insertion order.
    pub fn as_slice(&self) -> (r: &[(String, String)])
        ensures
            entry_views(r@) == self@,
    {
        self.entries.as_slice()
    }
}

impl Clone for AttrMap {
    fn clone(&self) -> (r: Self)
        ensures
            r@ == self@,
    {
        proof {
            use_type_invariant(self);
        }
        let n = self.entries.len();
        let mut entries: Vec<(String, String)> = Vec::new();
        let mut i: usize = 0;
        while i < n
            invariant
                n == self.entries@.len(),
                n == self@.len(),
                i <= n,
                distinct_keys(self@),
                entry_views(entries@) =~= self@.take(i as int),
            decreases n - i,
        {
            let e = &self.entries[i];
            let k = e.0.clone();
            let v = e.1.clone();
            assert(self@[i as int] == (k@, v@));
            let ghost prev = entries@;
            entries.push((k, v));
            assert(entry_views(entries@) =~= entry_views(prev).push(self@[i as int]));
            assert(self@.take(i + 1) =~= self@.take(i as int).push(self@[i as int]));
            i = i + 1;
        }
        assert(self@.take(n as int) =~= self@);
        AttrMap { entries }
    }
}

impl Default for AttrMap {
    fn default() -> (r: Self)
        ensures
            r@ == Seq::<(Seq<char>, Seq<char>)>::empty(),
    {
        AttrMap::new()
    }
}

/// Setting a value and reading it back gives that value; other names are
/// unaffected; removing then reading gives nothing.
pub proof fn lemma_set_get(s: Seq<(Seq<char>, Seq<char>)>, i: int, v: Seq<char>)
    requires
        0 <= i < s.len(),
        distinct_keys(s),
    ensures
        lookup(s.update(i, (s[i].0, v)), s[i].0) == Some(v),
        lookup(s.remove(i), s[i].0) is None,
{
    lemma_lookup_update(s, i, v, s[i].0);
    lemma_lookup_remove(s, i, s[i].0);
}

} // verus!
