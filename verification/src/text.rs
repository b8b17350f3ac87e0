//! Character-level helpers shared by the keyword tables and the class list:
//! equality and ordering of names, and splitting on ASCII whitespace.
use vstd::prelude::*;
use vstd::string::*;

verus! {

/// The result of comparing two names.
#[derive(Clone, Copy, Debug, PartialEq, Eq, Structural)]
pub enum NameOrder {
    Less,
    Equal,
    Greater,
}

/// `a` orders before `b` when compared from position `i` on, character by
/// character by code point, a proper prefix ordering first.
pub open spec fn seq_less_from(a: Seq<char>, b: Seq<char>, i: int) -> bool
    decreases a.len() - i,
{
    if i < 0 || i >= a.len() {
        i == a.len() && i < b.len()
    } else if i >= b.len() {
        false
    } else if (a[i] as u32) < (b[i] as u32) {
        true
    } else if a[i] == b[i] {
        seq_less_from(a, b, i + 1)
    } else {
        false
    }
}

/// Lexicographic order of names (the order of `str`'s `Ord` on these names).
pub open spec fn name_less(a: Seq<char>, b: Seq<char>) -> bool {
    seq_less_from(a, b, 0)
}

proof fn lemma_less_from_irreflexive(a: Seq<char>, i: int)
    requires
        0 <= i <= a.len(),
    ensures
        !seq_less_from(a, a, i),
    decreases a.len() - i,
{
    if i < a.len() {
        lemma_less_from_irreflexive(a, i + 1);
    }
}

proof fn lemma_less_from_asymmetric(a: Seq<char>, b: Seq<char>, i: int)
    requires
        0 <= i,
        seq_less_from(a, b, i),
    ensures
        !seq_less_from(b, a, i),
    decreases a.len() - i,
{
    if i < a.len() && i < b.len() && a[i] == b[i] {
        lemma_less_from_asymmetric(a, b, i + 1);
    }
}

proof fn lemma_less_from_total(a: Seq<char>, b: Seq<char>, i: int)
    requires
        0 <= i <= a.len(),
        i <= b.len(),
        a.take(i) =~= b.take(i),
        a != b,
    ensures
        seq_less_from(a, b, i) || seq_less_from(b, a, i),
    decreases a.len() - i,
{
    if i == a.len() && i == b.len() {
        assert(a =~= a.take(i));
        assert(b =~= b.take(i));
    } else if i < a.len() && i < b.len() && a[i] == b[i] {
        assert(a.take(i + 1) =~= a.take(i).push(a[i]));
        assert(b.take(i + 1) =~= b.take(i).push(b[i]));
        lemma_less_from_total(a, b, i + 1);
    } else if i < a.len() && i < b.len() {
        assert((a[i] as u32) != (b[i] as u32)) by {
            vstd::utf8::char_u32_cast(a[i], a[i] as u32);
            vstd::utf8::char_u32_cast(b[i], b[i] as u32);
        }
    }
}

proof fn lemma_less_from_transitive(a: Seq<char>, b: Seq<char>, c: Seq<char>, i: int)
    requires
        0 <= i,
        seq_less_from(a, b, i),
        seq_less_from(b, c, i),
    ensures
        seq_less_from(a, c, i),
    decreases a.len() - i,
{
    if i < a.len() && i < b.len() && i < c.len() && a[i] == b[i] && b[i] == c[i] {
        lemma_less_from_transitive(a, b, c, i + 1);
    }
}

/// No name orders before itself.
pub proof fn lemma_name_less_irreflexive(a: Seq<char>)
    ensures
        !name_less(a, a),
{
    lemma_less_from_irreflexive(a, 0);
}

/// Two names never order before each other.
pub proof fn lemma_name_less_asymmetric(a: Seq<char>, b: Seq<char>)
    requires
        name_less(a, b),
    ensures
        !name_less(b, a),
        a != b,
{
    lemma_less_from_asymmetric(a, b, 0);
    lemma_less_from_irreflexive(a, 0);
}

/// Of two different names, one orders before the other.
pub proof fn lemma_name_less_total(a: Seq<char>, b: Seq<char>)
    requires
        a != b,
    ensures
        name_less(a, b) || name_less(b, a),
{
    lemma_less_from_total(a, b, 0);
}

/// The order of names is transitive.
pub proof fn lemma_name_less_transitive(a: Seq<char>, b: Seq<char>, c: Seq<char>)
    requires
        name_less(a, b),
        name_less(b, c),
    ensures
        name_less(a, c),
{
    lemma_less_from_transitive(a, b, c, 0);
}

/// A name that some name orders before is not empty.
pub proof fn lemma_name_less_nonempty(a: Seq<char>, b: Seq<char>)
    requires
        name_less(a, b),
    ensures
        b.len() > 0,
{
}

/// The characters of `s`, in order.
pub fn chars_of(s: &str) -> (r: Vec<char>)
    ensures
        r@ == s@,
{
    let n = s.unicode_len();
    let mut out: Vec<char> = Vec::new();
    let mut i: usize = 0;
    while i < n
        invariant
            n == s@.len(),
            i <= n,
            out@ =~= s@.take(i as int),
        decreases n - i,
    {
        let c = s.get_char(i);
        out.push(c);
        i = i + 1;
        assert(out@ =~= s@.take(i as int));
    }
    assert(s@.take(n as int) =~= s@);
    out
}

/// Compares two character sequences in name order.
pub fn compare_char_seqs(a: &[char], b: &[char]) -> (r: NameOrder)
    ensures
        (r == NameOrder::Less) <==> name_less(a@, b@),
        (r == NameOrder::Equal) <==> a@ == b@,
        (r == NameOrder::Greater) <==> name_less(b@, a@),
{
    let n = a.len();
    let m = b.len();
    let mut i: usize = 0;
    while i < n && i < m && a[i] == b[i]
        invariant
            n == a@.len(),
            m == b@.len(),
            i <= n,
            i <= m,
            a@.take(i as int) =~= b@.take(i as int),
            name_less(a@, b@) == seq_less_from(a@, b@, i as int),
            name_less(b@, a@) == seq_less_from(b@, a@, i as int),
        decreases n - i,
    {
        assert(a@.take(i + 1) =~= a@.take(i as int).push(a@[i as int]));
        assert(b@.take(i + 1) =~= b@.take(i as int).push(b@[i as int]));
        i = i + 1;
    }
    proof {
        if a@ == b@ {
            lemma_name_less_irreflexive(a@);
        } else {
            lemma_name_less_total(a@, b@);
        }
    }
    if i == n && i == m {
        proof {
            assert(a@ =~= a@.take(i as int));
            assert(b@ =~= b@.take(i as int));
        }
        NameOrder::Equal
    } else if i == n {
        proof {
            lemma_name_less_asymmetric(a@, b@);
        }
        NameOrder::Less
    } else if i == m {
        proof {
            lemma_name_less_asymmetric(b@, a@);
        }
        NameOrder::Greater
    } else {
        let x = a[i] as u32;
        let y = b[i] as u32;
        if x < y {
            proof {
                lemma_name_less_asymmetric(a@, b@);
            }
            NameOrder::Less
        } else {
            proof {
                vstd::utf8::char_u32_cast(a@[i as int], x);
                vstd::utf8::char_u32_cast(b@[i as int], y);
                lemma_name_less_asymmetric(b@, a@);
            }
            NameOrder::Greater
        }
    }
}

/// Compares two strings in name order.
pub fn compare_names(a: &str, b: &str) -> (r: NameOrder)
    ensures
        (r == NameOrder::Less) <==> name_less(a@, b@),
        (r == NameOrder::Equal) <==> a@ == b@,
        (r == NameOrder::Greater) <==> name_less(b@, a@),
{
    let x = chars_of(a);
    let y = chars_of(b);
    compare_char_seqs(x.as_slice(), y.as_slice())
}

/// Whether two strings hold the same characters.
pub fn names_equal(a: &str, b: &str) -> (r: bool)
    ensures
        r == (a@ == b@),
{
    let x = chars_of(a);
    let y = chars_of(b);
    let n = x.len();
    if n != y.len() {
        return false;
    }
    let mut i: usize = 0;
    while i < n
        invariant
            n == x@.len(),
            n == y@.len(),
            x@ == a@,
            y@ == b@,
            i <= n,
            x@.take(i as int) =~= y@.take(i as int),
        decreases n - i,
    {
        let cx = x[i];
        let cy = y[i];
        if cx != cy {
            assert(x@[i as int] != y@[i as int]);
            assert(x@ != y@);
            return false;
        }
        assert(x@.take(i + 1) =~= x@.take(i as int).push(x@[i as int]));
        assert(y@.take(i + 1) =~= y@.take(i as int).push(y@[i as int]));
        i = i + 1;
    }
    assert(x@ =~= x@.take(n as int));
    assert(y@ =~= y@.take(n as int));
    true
}

/// What follows `prefix` in `name`, when `name` begins with `prefix`.
pub fn strip_name_prefix<'a>(name: &'a str, prefix: &str) -> (r: Option<&'a str>)
    ensures
        match r {
            Some(rest) => prefix@.is_prefix_of(name@) && rest@ == name@.skip(prefix@.len() as int),
            None => !prefix@.is_prefix_of(name@),
        },
{
    let x = chars_of(name);
    let p = chars_of(prefix);
    let n = x.len();
    let m = p.len();
    if m > n {
        return None;
    }
    let mut i: usize = 0;
    while i < m
        invariant
            n == x@.len(),
            m == p@.len(),
            m <= n,
            x@ == name@,
            p@ == prefix@,
            i <= m,
            x@.take(i as int) =~= p@.take(i as int),
        decreases m - i,
    {
        if x[i] != p[i] {
            assert(x@.subrange(0, m as int)[i as int] != p@[i as int]);
            return None;
        }
        assert(x@.take(i + 1) =~= x@.take(i as int).push(x@[i as int]));
        assert(p@.take(i + 1) =~= p@.take(i as int).push(p@[i as int]));
        i = i + 1;
    }
    assert(p@ =~= p@.take(m as int));
    assert(x@.subrange(0, m as int) =~= x@.take(m as int));
    let rest = name.substring_char(m, n);
    assert(rest@ =~= name@.skip(m as int));
    Some(rest)
}

/// The characters of a property name: lower-case ASCII letters, digits and `-`.
pub open spec fn is_property_name_char(c: char) -> bool {
    ('a' as u32 <= c as u32 && c as u32 <= 'z' as u32) || ('0' as u32 <= c as u32 && c as u32 <= '9' as u32)
        || c == '-'
}

/// Every character of `s` from position `i` on is a property-name character.
pub open spec fn name_chars_from(s: Seq<char>, i: int) -> bool
    decreases s.len() - i,
{
    if i < 0 || i >= s.len() {
        true
    } else {
        is_property_name_char(s[i]) && name_chars_from(s, i + 1)
    }
}

/// `name_chars_from` read as a statement about each character.
pub proof fn lemma_name_chars_from(s: Seq<char>, i: int)
    requires
        0 <= i,
        name_chars_from(s, i),
    ensures
        forall|k: int| i <= k < s.len() ==> is_property_name_char(#[trigger] s[k]),
    decreases s.len() - i,
{
    if i < s.len() {
        lemma_name_chars_from(s, i + 1);
    }
}

/// The ASCII whitespace characters: space, tab, line feed, form feed and
/// carriage return.
pub open spec fn is_ascii_ws(c: char) -> bool {
    c == ' ' || c == '\t' || c == '\n' || c == '\x0C' || c == '\r'
}

/// Words collected so far and the word being read, after reading `s`.
pub open spec fn split_state(s: Seq<char>) -> (Seq<Seq<char>>, Seq<char>)
    decreases s.len(),
{
    if s.len() == 0 {
        (Seq::empty(), Seq::empty())
    } else {
        let prev = split_state(s.drop_last());
        let c = s.last();
        if is_ascii_ws(c) {
            if prev.1.len() > 0 {
                (prev.0.push(prev.1), Seq::empty())
            } else {
                (prev.0, Seq::empty())
            }
        } else {
            (prev.0, prev.1.push(c))
        }
    }
}

/// The maximal runs of characters of `s` that are not ASCII whitespace, in order.
pub open spec fn ascii_words(s: Seq<char>) -> Seq<Seq<char>> {
    let st = split_state(s);
    if st.1.len() > 0 {
        st.0.push(st.1)
    } else {
        st.0
    }
}

proof fn lemma_split_state_no_space(s: Seq<char>)
    requires
        forall|i: int|
            0 <= i < s.len() ==> s[i] != ' ' && s[i] != '\t' && s[i] != '\n' && s[i] != '\x0C' && s[i] != '\r',
    ensures
        split_state(s) == (Seq::<Seq<char>>::empty(), s),
    decreases s.len(),
{
    if s.len() > 0 {
        lemma_split_state_no_space(s.drop_last());
        assert(s.drop_last().push(s.last()) =~= s);
    }
}

/// A non-empty text with no space, tab, line feed, form feed or carriage
/// return is one word: itself.
pub proof fn lemma_ascii_words_single(s: Seq<char>)
    requires
        s.len() > 0,
        forall|i: int|
            0 <= i < s.len() ==> s[i] != ' ' && s[i] != '\t' && s[i] != '\n' && s[i] != '\x0C' && s[i] != '\r',
    ensures
        ascii_words(s) == seq![s],
{
    lemma_split_state_no_space(s);
    assert(Seq::<Seq<char>>::empty().push(s) =~= seq![s]);
}

proof fn lemma_split_state_append(p: Seq<char>, b: Seq<char>)
    requires
        split_state(p).1.len() == 0,
    ensures
        split_state(p + b) == (split_state(p).0 + split_state(b).0, split_state(b).1),
    decreases b.len(),
{
    if b.len() == 0 {
        assert(p + b =~= p);
        assert(split_state(p).0 + split_state(b).0 =~= split_state(p).0);
        assert(split_state(p).1 =~= Seq::<char>::empty());
    } else {
        let b1 = b.drop_last();
        lemma_split_state_append(p, b1);
        assert((p + b).drop_last() =~= p + b1);
        assert((p + b).last() == b.last());
        let x = split_state(p).0;
        let y = split_state(b1).0;
        assert((x + y).push(split_state(b1).1) =~= x + y.push(split_state(b1).1));
    }
}

/// A space, tab, line feed, form feed or carriage return separates words:
/// the words of `a`, that character and `b` are those of `a` then those of
/// `b`.
pub proof fn lemma_ascii_words_split(a: Seq<char>, c: char, b: Seq<char>)
    requires
        c == ' ' || c == '\t' || c == '\n' || c == '\x0C' || c == '\r',
    ensures
        ascii_words(a + seq![c] + b) == ascii_words(a) + ascii_words(b),
{
    let p = a + seq![c];
    assert(p.drop_last() =~= a);
    assert(p.last() == c);
    assert(split_state(p).1.len() == 0);
    lemma_split_state_append(p, b);
    assert(a + seq![c] + b =~= p + b);
    let sa = split_state(a);
    let sb = split_state(b);
    if sa.1.len() > 0 {
        assert(split_state(p).0 == sa.0.push(sa.1));
    } else {
        assert(split_state(p).0 == sa.0);
    }
    if sb.1.len() > 0 {
        assert((split_state(p).0 + sb.0).push(sb.1) =~= split_state(p).0 + sb.0.push(sb.1));
    }
    assert(ascii_words(a + seq![c] + b) =~= ascii_words(a) + ascii_words(b));
}

proof fn lemma_split_state_words(s: Seq<char>)
    ensures
        forall|k: int|
            0 <= k < split_state(s).0.len() ==> (#[trigger] split_state(s).0[k]).len() > 0 && forall|i: int|
                0 <= i < split_state(s).0[k].len() ==> !is_ascii_ws(split_state(s).0[k][i]),
        forall|i: int| 0 <= i < split_state(s).1.len() ==> !is_ascii_ws(split_state(s).1[i]),
    decreases s.len(),
{
    if s.len() > 0 {
        lemma_split_state_words(s.drop_last());
        let prev = split_state(s.drop_last());
        let cur = split_state(s);
        let c = s.last();
        if is_ascii_ws(c) {
            assert forall|k: int| 0 <= k < cur.0.len() implies (#[trigger] cur.0[k]).len() > 0 && forall|i: int|
                0 <= i < cur.0[k].len() ==> !is_ascii_ws(cur.0[k][i]) by {
                if k < prev.0.len() {
                    assert(cur.0[k] == prev.0[k]);
                } else {
                    assert(cur.0[k] == prev.1);
                }
            }
        } else {
            assert(cur.0 == prev.0);
            assert forall|i: int| 0 <= i < cur.1.len() implies !is_ascii_ws(cur.1[i]) by {
                if i < prev.1.len() {
                    assert(cur.1[i] == prev.1[i]);
                } else {
                    assert(cur.1[i] == c);
                }
            }
        }
    }
}

/// Every word is non-empty and holds no space, tab, line feed, form feed or
/// carriage return.
pub proof fn lemma_ascii_words_are_words(s: Seq<char>)
    ensures
        forall|k: int|
            0 <= k < ascii_words(s).len() ==> (#[trigger] ascii_words(s)[k]).len() > 0 && forall|i: int|
                0 <= i < ascii_words(s)[k].len() ==> #[trigger] ascii_words(s)[k][i] != ' ' && ascii_words(s)[k][i]
                    != '\t' && ascii_words(s)[k][i] != '\n' && ascii_words(s)[k][i] != '\x0C' && ascii_words(s)[k][i]
                    != '\r',
{
    lemma_split_state_words(s);
    assert forall|k: int| 0 <= k < ascii_words(s).len() implies (#[trigger] ascii_words(s)[k]).len() > 0
        && forall|i: int|
        0 <= i < ascii_words(s)[k].len() ==> #[trigger] ascii_words(s)[k][i] != ' ' && ascii_words(s)[k][i]
            != '\t' && ascii_words(s)[k][i] != '\n' && ascii_words(s)[k][i] != '\x0C' && ascii_words(s)[k][i]
            != '\r' by {
        let st = split_state(s);
        if k < st.0.len() {
            assert(ascii_words(s)[k] == st.0[k]);
            assert forall|i: int| 0 <= i < st.0[k].len() implies !is_ascii_ws(st.0[k][i]) by {}
        } else {
            assert(ascii_words(s)[k] == st.1);
        }
    }
}

/// The views of a list of strings.
pub open spec fn string_views(v: Seq<String>) -> Seq<Seq<char>> {
    v.map_values(|x: String| x@)
}

fn is_ascii_ws_char(c: char) -> (r: bool)
    ensures
        r == is_ascii_ws(c),
{
    c == ' ' || c == '\t' || c == '\n' || c == '\x0C' || c == '\r'
}

proof fn lemma_split_state_step(s: Seq<char>, i: int)
    requires
        0 <= i < s.len(),
    ensures
        split_state(s.take(i + 1)) == ({
            let prev = split_state(s.take(i));
            if is_ascii_ws(s[i]) {
                if prev.1.len() > 0 {
                    (prev.0.push(prev.1), Seq::<char>::empty())
                } else {
                    (prev.0, Seq::<char>::empty())
                }
            } else {
                (prev.0, prev.1.push(s[i]))
            }
        }),
{
    assert(s.take(i + 1).drop_last() =~= s.take(i));
}

/// Splits `s` on ASCII whitespace, as `str::split_ascii_whitespace` does.
pub fn split_ascii_words(s: &str) -> (r: Vec<String>)
    ensures
        string_views(r@) == ascii_words(s@),
{
    let chars = chars_of(s);
    let n = chars.len();
    let mut out: Vec<String> = Vec::new();
    let mut start: usize = 0;
    let mut i: usize = 0;
    assert(s@.take(0) =~= Seq::<char>::empty());
    assert(s@.subrange(0, 0) =~= Seq::<char>::empty());
    while i < n
        invariant
            n == s@.len(),
            chars@ == s@,
            start <= i <= n,
            string_views(out@) =~= split_state(s@.take(i as int)).0,
            split_state(s@.take(i as int)).1 =~= s@.subrange(start as int, i as int),
        decreases n - i,
    {
        proof {
            lemma_split_state_step(s@, i as int);
        }
        let c = chars[i];
        if is_ascii_ws_char(c) {
            if start < i {
                let word = s.substring_char(start, i);
                let w = String::from_str(word);
                out.push(w);
                assert(string_views(out@) =~= split_state(s@.take(i + 1)).0);
            }
            start = i + 1;
            assert(s@.subrange(start as int, (i + 1) as int) =~= Seq::<char>::empty());
        } else {
            assert(s@.subrange(start as int, (i + 1) as int) =~= s@.subrange(
                start as int,
                i as int,
            ).push(c));
        }
        i = i + 1;
    }
    assert(s@.take(n as int) =~= s@);
    if start < n {
        let word = s.substring_char(start, n);
        let w = String::from_str(word);
        out.push(w);
        assert(string_views(out@) =~= ascii_words(s@));
    }
    out
}

} // verus!
