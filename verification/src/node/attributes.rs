//! The attributes of an element: its id, its class list, and three maps for
//! the plain, `data-` and `aria-` attributes. Reading, writing and removing an
//! attribute by its full name goes to the right one of these.
use vstd::prelude::*;

use crate::node::attr_map::{attribute_text, entries_text, AttrMap};
use crate::node::class_list::ClassList;
use crate::node::hash::{lemma_xor_pair_hashes_order_free, xor_pair_hashes};
use crate::text::{ascii_words, names_equal, string_views, strip_name_prefix};

verus! {

/// The name of the id attribute.
pub open spec fn id_name() -> Seq<char> {
    seq!['i', 'd']
}

/// The name of the class attribute.
pub open spec fn class_name() -> Seq<char> {
    seq!['c', 'l', 'a', 's', 's']
}

/// The prefix of the data attributes.
pub open spec fn data_prefix() -> Seq<char> {
    seq!['d', 'a', 't', 'a', '-']
}

/// The prefix of the ARIA attributes.
pub open spec fn aria_prefix() -> Seq<char> {
    seq!['a', 'r', 'i', 'a', '-']
}

/// `name` without `prefix` when it begins with it, else the empty name.
pub open spec fn after_prefix(name: Seq<char>, prefix: Seq<char>) -> Seq<char> {
    if prefix.is_prefix_of(name) {
        name.skip(prefix.len() as int)
    } else {
        Seq::empty()
    }
}

/// The characters of an optional string.
pub open spec fn opt_view(o: Option<String>) -> Option<Seq<char>> {
    match o {
        Some(s) => Some(s@),
        None => None,
    }
}

/// The words joined by single spaces.
pub open spec fn joined(words: Seq<Seq<char>>) -> Seq<char>
    decreases words.len(),
{
    if words.len() == 0 {
        Seq::empty()
    } else if words.len() == 1 {
        words[0]
    } else {
        joined(words.drop_last()) + seq![' '] + words.last()
    }
}

/// The attribute state of an element.
#[derive(Debug, Clone)]
pub struct NodeAttributes {
    pub id: Option<String>,
    pub class_list: ClassList,
    pub attrs: AttrMap,
    pub data_attrs: AttrMap,
    pub aria_attrs: AttrMap,
    /// The attribute part of the node's hash, as `recompute_hash` last set
    /// it; writing or removing an attribute recomputes it.
    pub attrs_hash: u64,
}

impl NodeAttributes {
    /// The value that reading the attribute `name` gives: the id for `id`,
    /// nothing for `class`; otherwise the plain attribute of that name, then
    /// the data attribute named by what follows `data-`, then the ARIA
    /// attribute named by what follows `aria-` (the empty name where the
    /// prefix is missing).
    pub open spec fn spec_attr(&self, name: Seq<char>) -> Option<Seq<char>> {
        if name == id_name() {
            opt_view(self.id)
        } else if name == class_name() {
            None
        } else if self.attrs.spec_get(name) is Some {
            self.attrs.spec_get(name)
        } else if self.data_attrs.spec_get(after_prefix(name, data_prefix())) is Some {
            self.data_attrs.spec_get(after_prefix(name, data_prefix()))
        } else {
            self.aria_attrs.spec_get(after_prefix(name, aria_prefix()))
        }
    }

    /// Reading `name` reaches the entry that writing `name` fills: no map
    /// that reading consults first holds an entry under the key it is
    /// consulted with.
    pub open spec fn write_reaches_read(&self, name: Seq<char>) -> bool {
        if name == id_name() || name == class_name() {
            true
        } else if data_prefix().is_prefix_of(name) {
            self.attrs.spec_get(name) is None
        } else if aria_prefix().is_prefix_of(name) {
            &&& self.attrs.spec_get(name) is None
            &&& self.data_attrs.spec_get(Seq::empty()) is None
        } else {
            true
        }
    }

    /// Once `name` is removed, reading it finds nothing: no map that reading
    /// consults holds an entry under the key it is consulted with, but for
    /// the one that removing `name` empties.
    pub open spec fn removal_clears_read(&self, name: Seq<char>) -> bool {
        if name == id_name() || name == class_name() {
            true
        } else if data_prefix().is_prefix_of(name) {
            &&& self.attrs.spec_get(name) is None
            &&& self.aria_attrs.spec_get(Seq::empty()) is None
        } else if aria_prefix().is_prefix_of(name) {
            &&& self.attrs.spec_get(name) is None
            &&& self.data_attrs.spec_get(Seq::empty()) is None
        } else {
            &&& self.data_attrs.spec_get(Seq::empty()) is None
            &&& self.aria_attrs.spec_get(Seq::empty()) is None
        }
    }

    /// How the attributes are written in a start tag: the id, then the class
    /// names when there is one, then the plain, `data-` and `aria-`
    /// attributes, each map in its own order.
    pub open spec fn spec_text(&self) -> Seq<char> {
        let id_part = match self.id {
            Some(s) => attribute_text(id_name(), s@),
            None => Seq::empty(),
        };
        let class_part = if self.class_list@.len() > 0 {
            attribute_text(class_name(), joined(self.class_list@))
        } else {
            Seq::empty()
        };
        id_part + class_part + entries_text(self.attrs@, Seq::empty()) + entries_text(
            self.data_attrs@,
            data_prefix(),
        ) + entries_text(self.aria_attrs@, aria_prefix())
    }

    /// The attribute part of the node's hash: the pair hashes of the plain,
    /// `data-` and `aria-` maps (keys without their prefix) combined by XOR.
    pub open spec fn spec_attrs_hash(&self) -> u64 {
        xor_pair_hashes(self.attrs@) ^ xor_pair_hashes(self.data_attrs@) ^ xor_pair_hashes(self.aria_attrs@)
    }

    /// No id, no class and no attribute.
    pub fn new() -> (r: Self)
        ensures
            r.id is None,
            r.class_list@ == Seq::<Seq<char>>::empty(),
            !r.class_list.spec_dirty(),
            r.attrs@.len() == 0,
            r.data_attrs@.len() == 0,
            r.aria_attrs@.len() == 0,
            r.attrs_hash == r.spec_attrs_hash(),
    {
        let r = NodeAttributes {
            id: None,
            class_list: ClassList::new(),
            attrs: AttrMap::new(),
            data_attrs: AttrMap::new(),
            aria_attrs: AttrMap::new(),
            attrs_hash: 0,
        };
        proof {
            assert(xor_pair_hashes(r.attrs@) == 0);
            assert(xor_pair_hashes(r.data_attrs@) == 0);
            assert(xor_pair_hashes(r.aria_attrs@) == 0);
            assert(0u64 ^ 0u64 ^ 0u64 == 0u64) by (bit_vector);
        }
        r
    }

    /// Reads the attribute `name` (see `spec_attr`).
    pub fn attr(&self, name: &str) -> (r: Option<&String>)
        ensures
            opt_view(
                match r {
                    Some(v) => Some(*v),
                    None => None,
                },
            ) == self.spec_attr(name@),
    {
        proof {
            reveal_strlit("id");
            reveal_strlit("class");
            reveal_strlit("data-");
            reveal_strlit("aria-");
            assert("id"@ =~= id_name());
            assert("class"@ =~= class_name());
            assert("data-"@ =~= data_prefix());
            assert("aria-"@ =~= aria_prefix());
        }
        if names_equal(name, "id") {
            return self.id.as_ref();
        }
        if names_equal(name, "class") {
            return None;
        }
        if let Some(v) = self.attrs.get(name) {
            return Some(v);
        }
        let data_key = match strip_name_prefix(name, "data-") {
            Some(rest) => rest,
            None => "",
        };
        proof {
            reveal_strlit("");
            assert(""@ =~= Seq::<char>::empty());
        }
        if let Some(v) = self.data_attrs.get(data_key) {
            return Some(v);
        }
        let aria_key = match strip_name_prefix(name, "aria-") {
            Some(rest) => rest,
            None => "",
        };
        self.aria_attrs.get(aria_key)
    }

    /// Writes the attribute `name`: `id` sets the id, `class` replaces the
    /// class list with the words of `value`, a `data-` or `aria-` name sets
    /// the entry named by the rest in the data or ARIA map, and any other name
    /// sets the plain attribute. Nothing else changes.
    pub fn set_attribute(&mut self, name: &str, value: &str)
        ensures
            name@ == id_name() ==> {
                &&& opt_view(final(self).id) == Some(value@)
                &&& final(self).class_list == old(self).class_list
                &&& final(self).attrs == old(self).attrs
                &&& final(self).data_attrs == old(self).data_attrs
                &&& final(self).aria_attrs == old(self).aria_attrs
            },
            name@ == class_name() ==> {
                &&& final(self).id == old(self).id
                &&& final(self).class_list@ == ascii_words(value@)
                &&& final(self).class_list.spec_dirty()
                &&& final(self).attrs == old(self).attrs
                &&& final(self).data_attrs == old(self).data_attrs
                &&& final(self).aria_attrs == old(self).aria_attrs
            },
            name@ != id_name() && name@ != class_name() && data_prefix().is_prefix_of(name@) ==> {
                let key = name@.skip(5);
                &&& final(self).id == old(self).id
                &&& final(self).class_list == old(self).class_list
                &&& final(self).attrs == old(self).attrs
                &&& final(self).data_attrs.spec_get(key) == Some(value@)
                &&& forall|k: Seq<char>|
                    k != key ==> #[trigger] final(self).data_attrs.spec_get(k)
                        == old(self).data_attrs.spec_get(k)
                &&& final(self).aria_attrs == old(self).aria_attrs
            },
            name@ != id_name() && name@ != class_name() && !data_prefix().is_prefix_of(name@)
                && aria_prefix().is_prefix_of(name@) ==> {
                let key = name@.skip(5);
                &&& final(self).id == old(self).id
                &&& final(self).class_list == old(self).class_list
                &&& final(self).attrs == old(self).attrs
                &&& final(self).data_attrs == old(self).data_attrs
                &&& final(self).aria_attrs.spec_get(key) == Some(value@)
                &&& forall|k: Seq<char>|
                    k != key ==> #[trigger] final(self).aria_attrs.spec_get(k)
                        == old(self).aria_attrs.spec_get(k)
            },
            name@ != id_name() && name@ != class_name() && !data_prefix().is_prefix_of(name@)
                && !aria_prefix().is_prefix_of(name@) ==> {
                &&& final(self).id == old(self).id
                &&& final(self).class_list == old(self).class_list
                &&& final(self).attrs.spec_get(name@) == Some(value@)
                &&& forall|k: Seq<char>|
                    k != name@ ==> #[trigger] final(self).attrs.spec_get(k)
                        == old(self).attrs.spec_get(k)
                &&& final(self).data_attrs == old(self).data_attrs
                &&& final(self).aria_attrs == old(self).aria_attrs
            },
            name@ != class_name() && old(self).write_reaches_read(name@) ==> final(self).spec_attr(
                name@,
            ) == Some(value@),
            final(self).attrs_hash == final(self).spec_attrs_hash(),
    {
        proof {
            reveal_strlit("id");
            reveal_strlit("class");
            reveal_strlit("data-");
            reveal_strlit("aria-");
            assert("id"@ =~= id_name());
            assert("class"@ =~= class_name());
            assert("data-"@ =~= data_prefix());
            assert("aria-"@ =~= aria_prefix());
        }
        if names_equal(name, "id") {
            self.id = Some(String::from_str(value));
        } else if names_equal(name, "class") {
            self.class_list.set(value);
        } else if let Some(rest) = strip_name_prefix(name, "data-") {
            self.data_attrs.insert(rest, value);
        } else if let Some(rest) = strip_name_prefix(name, "aria-") {
            self.aria_attrs.insert(rest, value);
        } else {
            self.attrs.insert(name, value);
        }
        self.recompute_hash();
    }

    /// Removes the attribute `name`, routed as in `set_attribute`: `id` drops
    /// the id and `class` empties the class list. Returns whether there was
    /// something to remove. Nothing else changes.
    pub fn remove_attribute(&mut self, name: &str) -> (r: bool)
        ensures
            name@ == id_name() ==> {
                &&& r == (old(self).id is Some)
                &&& final(self).id is None
                &&& final(self).class_list == old(self).class_list
                &&& final(self).attrs == old(self).attrs
                &&& final(self).data_attrs == old(self).data_attrs
                &&& final(self).aria_attrs == old(self).aria_attrs
            },
            name@ == class_name() ==> {
                &&& r == (old(self).class_list@.len() > 0)
                &&& final(self).id == old(self).id
                &&& final(self).class_list@ == Seq::<Seq<char>>::empty()
                &&& final(self).class_list.spec_dirty() == (old(self).class_list.spec_dirty() || r)
                &&& final(self).attrs == old(self).attrs
                &&& final(self).data_attrs == old(self).data_attrs
                &&& final(self).aria_attrs == old(self).aria_attrs
            },
            name@ != id_name() && name@ != class_name() && data_prefix().is_prefix_of(name@) ==> {
                let key = name@.skip(5);
                &&& r == (old(self).data_attrs.spec_get(key) is Some)
                &&& final(self).id == old(self).id
                &&& final(self).class_list == old(self).class_list
                &&& final(self).attrs == old(self).attrs
                &&& final(self).data_attrs.spec_get(key) is None
                &&& forall|k: Seq<char>|
                    k != key ==> #[trigger] final(self).data_attrs.spec_get(k)
                        == old(self).data_attrs.spec_get(k)
                &&& final(self).aria_attrs == old(self).aria_attrs
            },
            name@ != id_name() && name@ != class_name() && !data_prefix().is_prefix_of(name@)
                && aria_prefix().is_prefix_of(name@) ==> {
                let key = name@.skip(5);
                &&& r == (old(self).aria_attrs.spec_get(key) is Some)
                &&& final(self).id == old(self).id
                &&& final(self).class_list == old(self).class_list
                &&& final(self).attrs == old(self).attrs
                &&& final(self).data_attrs == old(self).data_attrs
                &&& final(self).aria_attrs.spec_get(key) is None
                &&& forall|k: Seq<char>|
                    k != key ==> #[trigger] final(self).aria_attrs.spec_get(k)
                        == old(self).aria_attrs.spec_get(k)
            },
            name@ != id_name() && name@ != class_name() && !data_prefix().is_prefix_of(name@)
                && !aria_prefix().is_prefix_of(name@) ==> {
                &&& r == (old(self).attrs.spec_get(name@) is Some)
                &&& final(self).id == old(self).id
                &&& final(self).class_list == old(self).class_list
                &&& final(self).attrs.spec_get(name@) is None
                &&& forall|k: Seq<char>|
                    k != name@ ==> #[trigger] final(self).attrs.spec_get(k)
                        == old(self).attrs.spec_get(k)
                &&& final(self).data_attrs == old(self).data_attrs
                &&& final(self).aria_attrs == old(self).aria_attrs
            },
            old(self).removal_clears_read(name@) ==> final(self).spec_attr(name@) is None,
            r ==> final(self).attrs_hash == final(self).spec_attrs_hash(),
            !r ==> final(self).attrs_hash == old(self).attrs_hash,
    {
        proof {
            reveal_strlit("id");
            reveal_strlit("class");
            reveal_strlit("data-");
            reveal_strlit("aria-");
            assert("id"@ =~= id_name());
            assert("class"@ =~= class_name());
            assert("data-"@ =~= data_prefix());
            assert("aria-"@ =~= aria_prefix());
        }
        let removed = if names_equal(name, "id") {
            let had = self.id.is_some();
            self.id = None;
            had
        } else if names_equal(name, "class") {
            let had = !self.class_list.is_empty();
            self.class_list.clear();
            had
        } else if let Some(rest) = strip_name_prefix(name, "data-") {
            self.data_attrs.remove(rest).is_some()
        } else if let Some(rest) = strip_name_prefix(name, "aria-") {
            self.aria_attrs.remove(rest).is_some()
        } else {
            self.attrs.remove(name).is_some()
        };
        if removed {
            self.recompute_hash();
        }
        removed
    }
}

/// Appends the class names of `classes`, joined by single spaces, to `out`.
fn write_joined(classes: &[String], out: &mut String)
    ensures
        final(out)@ == old(out)@ + joined(string_views(classes@)),
{
    let n = classes.len();
    let mut i: usize = 0;
    while i < n
        invariant
            n == classes@.len(),
            i <= n,
            out@ == old(out)@ + joined(string_views(classes@.take(i as int))),
        decreases n - i,
    {
        proof {
            reveal_strlit(" ");
        }
        if i > 0 {
            out.append(" ");
        }
        out.append(classes[i].as_str());
        proof {
            let w = string_views(classes@.take(i + 1));
            assert(w.drop_last() =~= string_views(classes@.take(i as int)));
            assert(w.last() == classes@[i as int]@);
            if i == 0 {
                assert(joined(string_views(classes@.take(0))) =~= Seq::<char>::empty());
            }
            assert(out@ =~= old(out)@ + joined(w));
        }
        i = i + 1;
    }
    assert(classes@.take(n as int) =~= classes@);
}

impl NodeAttributes {
    /// Appends the attributes to `out` as a start tag holds them (see
    /// `spec_text`).
    pub fn write_attributes(&self, out: &mut String)
        ensures
            final(out)@ == old(out)@ + self.spec_text(),
    {
        proof {
            reveal_strlit("id");
            reveal_strlit("class");
            reveal_strlit("data-");
            reveal_strlit("aria-");
            reveal_strlit("");
            reveal_strlit(" ");
            reveal_strlit("=\"");
            reveal_strlit("\"");
            assert("id"@ =~= id_name());
            assert("class"@ =~= class_name());
            assert("data-"@ =~= data_prefix());
            assert("aria-"@ =~= aria_prefix());
            assert(""@ =~= Seq::<char>::empty());
        }
        let ghost start = out@;
        if let Some(id) = &self.id {
            out.append(" id=\"");
            out.append(id.as_str());
            out.append("\"");
            proof {
                reveal_strlit(" id=\"");
                assert(out@ =~= start + attribute_text(id_name(), id@));
            }
        }
        let ghost after_id = out@;
        if !self.class_list.is_empty() {
            out.append(" class=\"");
            write_joined(self.class_list.as_slice(), out);
            out.append("\"");
            proof {
                reveal_strlit(" class=\"");
                assert(out@ =~= after_id + attribute_text(class_name(), joined(self.class_list@)));
            }
        }
        self.attrs.write_entries("", out);
        self.data_attrs.write_entries("data-", out);
        self.aria_attrs.write_entries("aria-", out);
        assert(out@ =~= old(out)@ + self.spec_text());
    }
}

impl NodeAttributes {
    /// The attribute part of a node's hash: the pair hashes of the plain,
    /// `data-` and `aria-` maps (keys without their prefix) combined by XOR,
    /// so that it does not depend on the order of any map.
    pub fn attributes_hash_xor(&self) -> (r: u64)
        ensures
            r == self.spec_attrs_hash(),
    {
        self.attrs.xor_hashes() ^ self.data_attrs.xor_hashes() ^ self.aria_attrs.xor_hashes()
    }

    /// Sets `attrs_hash` to the attribute part of the node's hash.
    pub fn recompute_hash(&mut self)
        ensures
            final(self).attrs_hash == final(self).spec_attrs_hash(),
            final(self).id == old(self).id,
            final(self).class_list == old(self).class_list,
            final(self).attrs == old(self).attrs,
            final(self).data_attrs == old(self).data_attrs,
            final(self).aria_attrs == old(self).aria_attrs,
    {
        self.attrs_hash = self.attributes_hash_xor();
    }
}

impl Default for NodeAttributes {
    fn default() -> (r: Self)
        ensures
            r.id is None,
            r.class_list@ == Seq::<Seq<char>>::empty(),
            r.attrs@.len() == 0,
            r.data_attrs@.len() == 0,
            r.aria_attrs@.len() == 0,
            r.attrs_hash == r.spec_attrs_hash(),
    {
        NodeAttributes::new()
    }
}

/// The attribute part of the node hash does not depend on the order of the
/// maps: maps holding the same pairs, in any order, give the same value.
pub proof fn lemma_attributes_hash_order_free(
    attrs: Seq<(Seq<char>, Seq<char>)>,
    data: Seq<(Seq<char>, Seq<char>)>,
    aria: Seq<(Seq<char>, Seq<char>)>,
    attrs2: Seq<(Seq<char>, Seq<char>)>,
    data2: Seq<(Seq<char>, Seq<char>)>,
    aria2: Seq<(Seq<char>, Seq<char>)>,
)
    requires
        attrs.to_multiset() == attrs2.to_multiset(),
        data.to_multiset() == data2.to_multiset(),
        aria.to_multiset() == aria2.to_multiset(),
    ensures
        xor_pair_hashes(attrs) ^ xor_pair_hashes(data) ^ xor_pair_hashes(aria) == xor_pair_hashes(attrs2)
            ^ xor_pair_hashes(data2) ^ xor_pair_hashes(aria2),
{
    lemma_xor_pair_hashes_order_free(attrs, attrs2);
    lemma_xor_pair_hashes_order_free(data, data2);
    lemma_xor_pair_hashes_order_free(aria, aria2);
}

} // verus!
