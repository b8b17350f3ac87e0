//! The class list of an element: its class names in order, with a flag that
//! records whether they changed since the flag was last cleared.
use vstd::prelude::*;

use vstd::std_specs::iter::IteratorSpec;

use crate::text::{ascii_words, names_equal, split_ascii_words, string_views};

verus! {

/// The class names of an element, with a dirty flag.
#[derive(Debug, Clone)]
pub struct ClassList {
    classes: Vec<String>,
    dirty: bool,
}

impl View for ClassList {
    type V = Seq<Seq<char>>;

    /// The class names, in order.
    closed spec fn view(&self) -> Seq<Seq<char>> {
        string_views(self.classes@)
    }
}

/// Holds of the class names other than `class`.
pub open spec fn other_than(class: Seq<char>) -> spec_fn(Seq<char>) -> bool {
    |c: Seq<char>| c != class
}

/// `classes` without the entries equal to `class`, order kept.
pub open spec fn without(classes: Seq<Seq<char>>, class: Seq<char>) -> Seq<Seq<char>> {
    classes.filter(other_than(class))
}

/// `classes` with `class` appended unless it is already there.
pub open spec fn with_class(classes: Seq<Seq<char>>, class: Seq<char>) -> Seq<Seq<char>> {
    if classes.contains(class) {
        classes
    } else {
        classes.push(class)
    }
}

/// `classes` with `class` removed when it is there and added otherwise.
pub open spec fn toggled(classes: Seq<Seq<char>>, class: Seq<char>) -> Seq<Seq<char>> {
    if classes.contains(class) {
        without(classes, class)
    } else {
        classes.push(class)
    }
}

impl ClassList {
    /// Whether the class names changed since the flag was last cleared.
    pub closed spec fn spec_dirty(&self) -> bool {
        self.dirty
    }

    /// An empty, clean class list.
    pub fn new() -> (r: Self)
        ensures
            r@ == Seq::<Seq<char>>::empty(),
            !r.spec_dirty(),
    {
        let r = Self { classes: Vec::new(), dirty: false };
        assert(r@ =~= Seq::<Seq<char>>::empty());
        r
    }

    /// Whether `class` is one of the class names.
    pub fn contains(&self, class: &str) -> (r: bool)
        ensures
            r == self@.contains(class@),
    {
        let n = self.classes.len();
        let mut i: usize = 0;
        while i < n
            invariant
                n == self.classes@.len(),
                i <= n,
                forall|j: int| 0 <= j < i ==> self.classes@[j]@ != class@,
            decreases n - i,
        {
            if names_equal(self.classes[i].as_str(), class) {
                assert(self@[i as int] == class@);
                return true;
            }
            i = i + 1;
        }
        proof {
            if self@.contains(class@) {
                let k = choose|k: int| 0 <= k < self@.len() && self@[k] == class@;
                assert(self.classes@[k]@ == class@);
            }
        }
        false
    }

    /// Appends `class` unless it is already there; marks the list dirty when
    /// it appends.
    pub fn add(&mut self, class: &str)
        ensures
            final(self)@ == with_class(old(self)@, class@),
            final(self).spec_dirty() == (old(self).spec_dirty() || !old(self)@.contains(class@)),
    {
        if !self.contains(class) {
            self.classes.push(String::from_str(class));
            self.dirty = true;
            assert(self@ =~= old(self)@.push(class@));
        }
    }

    /// Removes every occurrence of `class`; returns whether there was one.
    /// Marks the list dirty when it removes.
    pub fn remove(&mut self, class: &str) -> (r: bool)
        ensures
            r == old(self)@.contains(class@),
            final(self)@ == without(old(self)@, class@),
            final(self).spec_dirty() == (old(self).spec_dirty() || r),
    {
        let ghost before = self@;
        let n = self.classes.len();
        let mut kept: Vec<String> = Vec::new();
        let mut i: usize = 0;
        while i < n
            invariant
                n == self.classes@.len(),
                before == self@,
                i <= n,
                string_views(kept@) =~= without(before.take(i as int), class@),
            decreases n - i,
        {
            proof {
                assert(before.take(i + 1) =~= before.take(i as int).push(before[i as int]));
                before.take(i as int).lemma_filter_push(before[i as int], other_than(class@));
            }
            if !names_equal(self.classes[i].as_str(), class) {
                kept.push(self.classes[i].clone());
                assert(string_views(kept@) =~= without(before.take(i + 1), class@));
            } else {
                assert(string_views(kept@) =~= without(before.take(i + 1), class@));
            }
            i = i + 1;
        }
        assert(before.take(n as int) =~= before);
        let removed = kept.len() < n;
        proof {
            lemma_without_len(before, class@);
        }
        self.classes = kept;
        if removed {
            self.dirty = true;
        }
        removed
    }

    /// Removes `class` when it is there and returns `false`; adds it otherwise
    /// and returns `true`. The result says whether `class` is there afterwards.
    pub fn toggle(&mut self, class: &str) -> (r: bool)
        ensures
            r == !old(self)@.contains(class@),
            final(self)@ == toggled(old(self)@, class@),
            final(self)@.contains(class@) == r,
            final(self).spec_dirty(),
    {
        if self.contains(class) {
            self.remove(class);
            proof {
                lemma_without_absent(old(self)@, class@);
            }
            false
        } else {
            self.add(class);
            assert(self@[self@.len() - 1] == class@);
            true
        }
    }

    /// Replaces the class names with the ASCII-whitespace-separated words of
    /// `class_string`, and marks the list dirty.
    pub fn set(&mut self, class_string: &str)
        ensures
            final(self)@ == ascii_words(class_string@),
            final(self).spec_dirty(),
    {
        self.classes = split_ascii_words(class_string);
        self.dirty = true;
    }

    /// Removes every class name; marks the list dirty when there was one.
    pub fn clear(&mut self)
        ensures
            final(self)@ == Seq::<Seq<char>>::empty(),
            final(self).spec_dirty() == (old(self).spec_dirty() || old(self)@.len() > 0),
    {
        if !self.classes.is_empty() {
            self.classes.clear();
            self.dirty = true;
        }
        assert(self@ =~= Seq::<Seq<char>>::empty());
    }

    /// The class names, in order.
    pub fn iter(&self) -> (r: std::slice::Iter<'_, String>)
        ensures
            r.remaining().len() == self@.len(),
            forall|i: int| 0 <= i < self@.len() ==> (#[trigger] r.remaining()[i])@ == self@[i],
    {
        let s = self.classes.as_slice();
        let it = s.iter();
        proof {
            broadcast use vstd::std_specs::slice::axiom_spec_slice_iter;
        }
        it
    }

    /// How many class names there are.
    pub fn len(&self) -> (r: usize)
        ensures
            r == self@.len(),
    {
        self.classes.len()
    }

    /// Whether there is no class name.
    pub fn is_empty(&self) -> (r: bool)
        ensures
            r == (self@.len() == 0),
    {
        self.classes.is_empty()
    }

    /// Whether the class names changed since the flag was last cleared.
    pub fn is_dirty(&self) -> (r: bool)
        ensures
            r == self.spec_dirty(),
    {
        self.dirty
    }

    /// Clears the dirty flag.
    pub fn clear_dirty(&mut self)
        ensures
            final(self)@ == old(self)@,
            !final(self).spec_dirty(),
    {
        self.dirty = false;
    }

    /// The class names, in order.
    pub fn as_slice(&self) -> (r: &[String])
        ensures
            string_views(r@) == self@,
    {
        self.classes.as_slice()
    }
}

impl Default for ClassList {
    fn default() -> (r: Self)
        ensures
            r@ == Seq::<Seq<char>>::empty(),
            !r.spec_dirty(),
    {
        Self::new()
    }
}

impl PartialEq for ClassList {
    fn eq(&self, other: &Self) -> (r: bool) {
        let n = self.classes.len();
        if n != other.classes.len() {
            assert(self@.len() != other@.len());
            return false;
        }
        let mut i: usize = 0;
        while i < n
            invariant
                n == self.classes@.len(),
                n == other.classes@.len(),
                i <= n,
                forall|j: int| 0 <= j < i ==> self.classes@[j]@ == other.classes@[j]@,
            decreases n - i,
        {
            if self.classes[i] != other.classes[i] {
                assert(self@[i as int] != other@[i as int]);
                return false;
            }
            i = i + 1;
        }
        assert(self@ =~= other@);
        true
    }
}

impl vstd::std_specs::cmp::PartialEqSpecImpl for ClassList {
    open spec fn obeys_eq_spec() -> bool {
        true
    }

    /// Two class lists are equal when their class names are, whatever their flags.
    open spec fn eq_spec(&self, other: &ClassList) -> bool {
        self@ == other@
    }
}

proof fn lemma_without_len(s: Seq<Seq<char>>, class: Seq<char>)
    ensures
        without(s, class).len() <= s.len(),
        without(s, class).len() < s.len() <==> s.contains(class),
    decreases s.len(),
{
    if s.len() == 0 {
        reveal(Seq::filter);
    } else {
        let rest = s.drop_last();
        lemma_without_len(rest, class);
        assert(s =~= rest.push(s.last()));
        rest.lemma_filter_push(s.last(), other_than(class));
        if rest.contains(class) {
            let k = choose|k: int| 0 <= k < rest.len() && rest[k] == class;
            assert(s[k] == class);
        }
        if s.contains(class) && s.last() != class {
            let k = choose|k: int| 0 <= k < s.len() && s[k] == class;
            assert(rest[k] == class);
        }
        if s.last() == class {
            assert(s[s.len() - 1] == class);
        }
    }
}

/// Once a class is removed, the class names no longer hold it.
pub proof fn lemma_without_absent(s: Seq<Seq<char>>, class: Seq<char>)
    ensures
        !without(s, class).contains(class),
{
    if without(s, class).contains(class) {
        let k = choose|k: int| 0 <= k < without(s, class).len() && without(s, class)[k] == class;
        s.lemma_filter_pred(other_than(class), k);
    }
}

/// After adding a class, the list holds it.
pub proof fn lemma_add_then_contains(s: Seq<Seq<char>>, class: Seq<char>)
    ensures
        with_class(s, class).contains(class),
{
    if !s.contains(class) {
        assert(s.push(class)[s.len() as int] == class);
    }
}

/// Adding a class twice is adding it once.
pub proof fn lemma_add_idempotent(s: Seq<Seq<char>>, class: Seq<char>)
    ensures
        with_class(with_class(s, class), class) == with_class(s, class),
{
    lemma_add_then_contains(s, class);
}

/// Removing a class twice is removing it once.
pub proof fn lemma_remove_idempotent(s: Seq<Seq<char>>, class: Seq<char>)
    ensures
        without(without(s, class), class) == without(s, class),
{
    lemma_without_absent(s, class);
    lemma_without_unchanged(without(s, class), class);
}

/// Removing a class that the list does not hold changes nothing.
pub proof fn lemma_without_unchanged(s: Seq<Seq<char>>, class: Seq<char>)
    requires
        !s.contains(class),
    ensures
        without(s, class) == s,
    decreases s.len(),
{
    if s.len() == 0 {
        reveal(Seq::filter);
        assert(without(s, class) =~= s);
    } else {
        let rest = s.drop_last();
        assert(s =~= rest.push(s.last()));
        if rest.contains(class) {
            let k = choose|k: int| 0 <= k < rest.len() && rest[k] == class;
            assert(s[k] == class);
        }
        assert(s[s.len() - 1] == s.last());
        lemma_without_unchanged(rest, class);
        rest.lemma_filter_push(s.last(), other_than(class));
    }
}

/// Adding a class the list did not hold and then removing it gives the list
/// back as it was.
pub proof fn lemma_add_then_remove(s: Seq<Seq<char>>, class: Seq<char>)
    requires
        !s.contains(class),
    ensures
        without(with_class(s, class), class) == s,
{
    s.lemma_filter_push(class, other_than(class));
    lemma_without_unchanged(s, class);
}

/// Toggling a class twice leaves its membership as it was.
pub proof fn lemma_toggle_twice(s: Seq<Seq<char>>, class: Seq<char>)
    ensures
        toggled(toggled(s, class), class).contains(class) == s.contains(class),
        !s.contains(class) ==> toggled(toggled(s, class), class) == s,
{
    if s.contains(class) {
        lemma_without_absent(s, class);
        assert(without(s, class).push(class)[without(s, class).len() as int] == class);
    } else {
        assert(s.push(class)[s.len() as int] == class);
        lemma_add_then_remove(s, class);
        lemma_without_absent(s.push(class), class);
    }
}

} // verus!
