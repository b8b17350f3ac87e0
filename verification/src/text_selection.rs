//! Text cursors (a node path plus a character index) and selections between
//! two cursors.
use vstd::prelude::*;

verus! {

/// A position in the text of a document: the path of child indices from the
/// root to a text node, and a character index within it.
#[derive(Debug, Clone, PartialEq, Eq)]
pub struct TextCursor {
    pub path: Vec<usize>,
    pub char_index: usize,
}

/// A selection from `anchor` (where it started) to `focus` (where it ends).
#[derive(Debug, Clone, PartialEq, Eq)]
pub struct TextSelection {
    pub anchor: TextCursor,
    pub focus: TextCursor,
}

/// `a` orders before `b` when compared from position `i` on: the first
/// differing index decides, a proper prefix ordering first.
pub open spec fn path_less_from(a: Seq<usize>, b: Seq<usize>, i: int) -> bool
    decreases a.len() - i,
{
    if i < 0 || i >= a.len() {
        i == a.len() && i < b.len()
    } else if i >= b.len() {
        false
    } else if a[i] < b[i] {
        true
    } else if a[i] == b[i] {
        path_less_from(a, b, i + 1)
    } else {
        false
    }
}

/// Lexicographic order of node paths (the order of `Vec<usize>`'s `Ord`).
pub open spec fn path_less(a: Seq<usize>, b: Seq<usize>) -> bool {
    path_less_from(a, b, 0)
}

/// Two cursors are at the same place.
pub open spec fn same_place(a: TextCursor, b: TextCursor) -> bool {
    a.path@ == b.path@ && a.char_index == b.char_index
}

/// Document order of cursors: by path, then by character index.
pub open spec fn spec_cursor_less(a: TextCursor, b: TextCursor) -> bool {
    path_less(a.path@, b.path@) || (a.path@ == b.path@ && a.char_index < b.char_index)
}

impl TextSelection {
    /// Whether the selection is empty: anchor and focus are at the same place.
    pub fn is_collapsed(&self) -> (r: bool)
        ensures
            r == same_place(self.anchor, self.focus),
    {
        self.anchor.char_index == self.focus.char_index && paths_equal(
            &self.anchor.path,
            &self.focus.path,
        )
    }

    /// The two ends of the selection in document order: start, then end.
    pub fn ordered(&self) -> (r: (&TextCursor, &TextCursor))
        ensures
            r == (if spec_cursor_less(self.anchor, self.focus) {
                (&self.anchor, &self.focus)
            } else {
                (&self.focus, &self.anchor)
            }),
    {
        if cursor_less(&self.anchor, &self.focus) {
            (&self.anchor, &self.focus)
        } else {
            (&self.focus, &self.anchor)
        }
    }
}

fn paths_equal(a: &Vec<usize>, b: &Vec<usize>) -> (r: bool)
    ensures
        r == (a@ == b@),
{
    let n = a.len();
    if n != b.len() {
        return false;
    }
    let mut i: usize = 0;
    while i < n
        invariant
            n == a@.len(),
            n == b@.len(),
            i <= n,
            forall|j: int| 0 <= j < i ==> a@[j] == b@[j],
        decreases n - i,
    {
        if a[i] != b[i] {
            return false;
        }
        i = i + 1;
    }
    assert(a@ =~= b@);
    true
}

/// Whether `a` comes before `b` in document order.
pub fn cursor_less(a: &TextCursor, b: &TextCursor) -> (r: bool)
    ensures
        r == spec_cursor_less(*a, *b),
{
    let n = a.path.len();
    let m = b.path.len();
    let mut i: usize = 0;
    while i < n && i < m && a.path[i] == b.path[i]
        invariant
            n == a.path@.len(),
            m == b.path@.len(),
            i <= n,
            i <= m,
            forall|j: int| 0 <= j < i ==> a.path@[j] == b.path@[j],
            path_less(a.path@, b.path@) == path_less_from(a.path@, b.path@, i as int),
        decreases n - i,
    {
        i = i + 1;
    }
    if i == n && i == m {
        assert(a.path@ =~= b.path@);
        proof {
            lemma_path_less_irreflexive(a.path@, 0);
        }
        a.char_index < b.char_index
    } else if i == n {
        true
    } else if i == m {
        assert(a.path@.len() != b.path@.len());
        false
    } else if a.path[i] < b.path[i] {
        true
    } else {
        assert(a.path@[i as int] != b.path@[i as int]);
        false
    }
}

proof fn lemma_path_less_irreflexive(a: Seq<usize>, i: int)
    requires
        0 <= i <= a.len(),
    ensures
        !path_less_from(a, a, i),
    decreases a.len() - i,
{
    if i < a.len() {
        lemma_path_less_irreflexive(a, i + 1);
    }
}

proof fn lemma_path_less_asymmetric(a: Seq<usize>, b: Seq<usize>, i: int)
    requires
        0 <= i,
        path_less_from(a, b, i),
    ensures
        !path_less_from(b, a, i),
    decreases a.len() - i,
{
    if i < a.len() && i < b.len() && a[i] == b[i] {
        lemma_path_less_asymmetric(a, b, i + 1);
    }
}

proof fn lemma_path_less_transitive(a: Seq<usize>, b: Seq<usize>, c: Seq<usize>, i: int)
    requires
        0 <= i,
        path_less_from(a, b, i),
        path_less_from(b, c, i),
    ensures
        path_less_from(a, c, i),
    decreases a.len() - i,
{
    if i < a.len() && i < b.len() && i < c.len() && a[i] == b[i] && b[i] == c[i] {
        lemma_path_less_transitive(a, b, c, i + 1);
    }
}

proof fn lemma_path_less_total(a: Seq<usize>, b: Seq<usize>, i: int)
    requires
        0 <= i <= a.len(),
        i <= b.len(),
        a.take(i) =~= b.take(i),
        a != b,
    ensures
        path_less_from(a, b, i) || path_less_from(b, a, i),
    decreases a.len() - i,
{
    if i == a.len() && i == b.len() {
        assert(a =~= a.take(i));
        assert(b =~= b.take(i));
    } else if i < a.len() && i < b.len() && a[i] == b[i] {
        assert(a.take(i + 1) =~= a.take(i).push(a[i]));
        assert(b.take(i + 1) =~= b.take(i).push(b[i]));
        lemma_path_less_total(a, b, i + 1);
    }
}

/// No cursor comes before itself.
pub proof fn lemma_cursor_less_irreflexive(a: TextCursor)
    ensures
        !spec_cursor_less(a, a),
{
    lemma_path_less_irreflexive(a.path@, 0);
}

/// Document order is transitive.
pub proof fn lemma_cursor_less_transitive(a: TextCursor, b: TextCursor, c: TextCursor)
    requires
        spec_cursor_less(a, b),
        spec_cursor_less(b, c),
    ensures
        spec_cursor_less(a, c),
{
    if path_less(a.path@, b.path@) && path_less(b.path@, c.path@) {
        lemma_path_less_transitive(a.path@, b.path@, c.path@, 0);
    }
}

/// Of two cursors at different places, exactly one comes first.
pub proof fn lemma_cursor_less_total(a: TextCursor, b: TextCursor)
    ensures
        !same_place(a, b) ==> (spec_cursor_less(a, b) || spec_cursor_less(b, a)),
        !(spec_cursor_less(a, b) && spec_cursor_less(b, a)),
{
    if a.path@ != b.path@ {
        lemma_path_less_total(a.path@, b.path@, 0);
    }
    if path_less(a.path@, b.path@) {
        lemma_path_less_asymmetric(a.path@, b.path@, 0);
        lemma_path_less_irreflexive(a.path@, 0);
    }
    if path_less(b.path@, a.path@) {
        lemma_path_less_irreflexive(b.path@, 0);
    }
}

/// The ends that `ordered` gives are the anchor and the focus, the end after
/// the start; a collapsed selection starts at its anchor's place.
pub proof fn lemma_ordered_ends(sel: TextSelection)
    ensures
        ({
            let (start, end) = if spec_cursor_less(sel.anchor, sel.focus) {
                (sel.anchor, sel.focus)
            } else {
                (sel.focus, sel.anchor)
            };
            &&& !spec_cursor_less(end, start)
            &&& (same_place(start, sel.anchor) && same_place(end, sel.focus)) || (same_place(
                start,
                sel.focus,
            ) && same_place(end, sel.anchor))
        }),
{
    lemma_cursor_less_total(sel.anchor, sel.focus);
}

proof fn lemma_path_less_diverge(a: Seq<usize>, b: Seq<usize>, i: int, k: int)
    requires
        0 <= i <= k,
        k < a.len(),
        k < b.len(),
        forall|j: int| i <= j < k ==> a[j] == b[j],
        a[k] < b[k],
    ensures
        path_less_from(a, b, i),
    decreases k - i,
{
    if i < k {
        lemma_path_less_diverge(a, b, i + 1, k);
    }
}

proof fn lemma_path_less_prefix(a: Seq<usize>, b: Seq<usize>, i: int)
    requires
        0 <= i <= a.len(),
        a.len() < b.len(),
        forall|j: int| i <= j < a.len() ==> a[j] == b[j],
    ensures
        path_less_from(a, b, i),
    decreases a.len() - i,
{
    if i < a.len() {
        lemma_path_less_prefix(a, b, i + 1);
    }
}

/// Cursors whose paths first differ at position `k` are in the order of
/// their child indices there, whatever the lengths of the paths and the
/// character indices: the cursor in an earlier child comes first.
pub proof fn lemma_cursor_order_first_difference(a: TextCursor, b: TextCursor, k: int)
    requires
        0 <= k < a.path@.len(),
        k < b.path@.len(),
        forall|j: int| 0 <= j < k ==> a.path@[j] == b.path@[j],
        a.path@[k] < b.path@[k],
    ensures
        spec_cursor_less(a, b),
        !spec_cursor_less(b, a),
{
    lemma_path_less_diverge(a.path@, b.path@, 0, k);
    lemma_cursor_less_total(a, b);
}

/// A cursor whose path is a proper prefix of the other's comes first,
/// whatever the character indices.
pub proof fn lemma_cursor_order_prefix(a: TextCursor, b: TextCursor)
    requires
        a.path@.len() < b.path@.len(),
        forall|j: int| 0 <= j < a.path@.len() ==> a.path@[j] == b.path@[j],
    ensures
        spec_cursor_less(a, b),
        !spec_cursor_less(b, a),
{
    lemma_path_less_prefix(a.path@, b.path@, 0);
    lemma_cursor_less_total(a, b);
}

/// Cursors in the same node are in the order of their character indices.
pub proof fn lemma_cursor_order_same_node(a: TextCursor, b: TextCursor)
    requires
        a.path@ == b.path@,
    ensures
        spec_cursor_less(a, b) == (a.char_index < b.char_index),
{
    lemma_path_less_irreflexive(a.path@, 0);
}

/// Two cursors are at the same place exactly when neither comes before the
/// other.
pub proof fn lemma_same_place_iff_unordered(a: TextCursor, b: TextCursor)
    ensures
        same_place(a, b) == (!spec_cursor_less(a, b) && !spec_cursor_less(b, a)),
{
    lemma_cursor_less_total(a, b);
    if a.path@ == b.path@ {
        lemma_cursor_order_same_node(a, b);
        lemma_cursor_order_same_node(b, a);
    }
}

} // verus!
