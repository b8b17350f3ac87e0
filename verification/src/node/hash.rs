//! Hashes of tag names and of attribute key/value pairs, as nodes use them to
//! tell cheaply whether they changed.
use std::hash::{DefaultHasher, Hasher};
use vstd::prelude::*;
use vstd::std_specs::hash::DefaultHasherAdditionalSpecFns;
use vstd::string::StringSliceAdditionalSpecFns;
use vstd::utf8::encode_utf8;

verus! {

/// The chunks that hashing the text `s` feeds a hasher: its UTF-8 bytes,
/// then the byte `0xff`, which no UTF-8 text holds, so that the strings of a
/// sequence are told apart.
pub open spec fn str_chunks(s: Seq<char>) -> Seq<Seq<u8>> {
    seq![encode_utf8(s), seq![0xffu8]]
}

/// The hash of an attribute's key and value.
pub open spec fn pair_hash(k: Seq<char>, v: Seq<char>) -> u64 {
    DefaultHasher::spec_finish(str_chunks(k) + str_chunks(v))
}

/// The hashes of the key/value pairs of `entries` combined by XOR.
pub open spec fn xor_pair_hashes(entries: Seq<(Seq<char>, Seq<char>)>) -> u64
    decreases entries.len(),
{
    if entries.len() == 0 {
        0
    } else {
        xor_pair_hashes(entries.drop_last()) ^ pair_hash(entries.last().0, entries.last().1)
    }
}

proof fn lemma_xor_swap(a: u64, b: u64, c: u64)
    ensures
        (a ^ b) ^ c == (a ^ c) ^ b,
{
    assert((a ^ b) ^ c == (a ^ c) ^ b) by (bit_vector);
}

/// Taking the entry at `j` out of the combination.
proof fn lemma_xor_remove(t: Seq<(Seq<char>, Seq<char>)>, j: int)
    requires
        0 <= j < t.len(),
    ensures
        xor_pair_hashes(t) == xor_pair_hashes(t.remove(j)) ^ pair_hash(t[j].0, t[j].1),
    decreases t.len(),
{
    if j == t.len() - 1 {
        assert(t.remove(j) =~= t.drop_last());
    } else {
        let r = t.remove(j);
        assert(t.drop_last().remove(j) =~= r.drop_last());
        assert(r.last() == t.last());
        lemma_xor_remove(t.drop_last(), j);
        lemma_xor_swap(
            xor_pair_hashes(r.drop_last()),
            pair_hash(t[j].0, t[j].1),
            pair_hash(t.last().0, t.last().1),
        );
    }
}

/// The XOR of the pair hashes does not depend on the order of the pairs:
/// two sequences holding the same pairs, as many times each, give the same
/// value.
pub proof fn lemma_xor_pair_hashes_order_free(s: Seq<(Seq<char>, Seq<char>)>, t: Seq<(Seq<char>, Seq<char>)>)
    requires
        s.to_multiset() == t.to_multiset(),
    ensures
        xor_pair_hashes(s) == xor_pair_hashes(t),
    decreases s.len(),
{
    broadcast use vstd::seq_lib::group_to_multiset_ensures;

    assert(s.to_multiset().len() == s.len());
    assert(t.to_multiset().len() == t.len());
    if s.len() == 0 {
        assert(t.len() == 0);
    } else {
        let x = s.last();
        let s1 = s.drop_last();
        assert(s =~= s1.push(x));
        assert(s.to_multiset().count(x) > 0);
        assert(t.contains(x));
        let j = choose|j: int| 0 <= j < t.len() && t[j] == x;
        let t1 = t.remove(j);
        assert(t1.to_multiset() =~= s1.to_multiset());
        lemma_xor_pair_hashes_order_free(s1, t1);
        lemma_xor_remove(t, j);
    }
}

/// Feeds `s` into `h` as `str`'s `Hash` impl does.
fn write_str(h: &mut DefaultHasher, s: &str)
    ensures
        final(h)@ == old(h)@ + str_chunks(s@),
{
    h.write(s.as_bytes());
    let end: [u8; 1] = [0xffu8];
    assert(end@ =~= seq![0xffu8]);
    h.write(end.as_slice());
    assert(h@ =~= old(h)@ + str_chunks(s@));
}

/// The hash of a tag name.
pub fn hash_tag(tag: &str) -> (r: u64)
    ensures
        r == DefaultHasher::spec_finish(str_chunks(tag@)),
{
    let mut h = DefaultHasher::new();
    write_str(&mut h, tag);
    assert(h@ =~= str_chunks(tag@));
    h.finish()
}

/// The hash of an attribute's key and value.
pub fn hash_kv(k: &str, v: &str) -> (r: u64)
    ensures
        r == pair_hash(k@, v@),
{
    let mut h = DefaultHasher::new();
    write_str(&mut h, k);
    write_str(&mut h, v);
    assert(h@ =~= str_chunks(k@) + str_chunks(v@));
    h.finish()
}

} // verus!
