//! The names that `CssAtRule::from_name` searches, in the order it searches them,
//! and the proof that this order is strictly increasing.
use vstd::prelude::*;

use crate::text::{lemma_name_less_transitive, name_less, seq_less_from};

verus! {

/// How many names `from_name` looks up.
pub const LOOKUP_LEN: usize = 56;

/// The `i`-th name of the lookup table.
pub open spec fn lookup_name(i: usize) -> Seq<char> {
    match i {
        0 => "@-webkit-keyframes"@,
        1 => "@annotation"@,
        2 => "@apply"@,
        3 => "@bottom-center"@,
        4 => "@bottom-left"@,
        5 => "@bottom-left-corner"@,
        6 => "@bottom-right"@,
        7 => "@bottom-right-corner"@,
        8 => "@character-variant"@,
        9 => "@charset"@,
        10 => "@color-profile"@,
        11 => "@container"@,
        12 => "@contents"@,
        13 => "@counter-style"@,
        14 => "@custom-media"@,
        15 => "@custom-selector"@,
        16 => "@else"@,
        17 => "@font-face"@,
        18 => "@font-feature-values"@,
        19 => "@font-palette-values"@,
        20 => "@function"@,
        21 => "@historical-forms"@,
        22 => "@import"@,
        23 => "@keyframes"@,
        24 => "@layer"@,
        25 => "@left-bottom"@,
        26 => "@left-middle"@,
        27 => "@left-top"@,
        28 => "@macro"@,
        29 => "@media"@,
        30 => "@mixin"@,
        31 => "@namespace"@,
        32 => "@navigation"@,
        33 => "@ornaments"@,
        34 => "@page"@,
        35 => "@position-try"@,
        36 => "@property"@,
        37 => "@result"@,
        38 => "@right-bottom"@,
        39 => "@right-middle"@,
        40 => "@right-top"@,
        41 => "@route"@,
        42 => "@scope"@,
        43 => "@starting-style"@,
        44 => "@styleset"@,
        45 => "@stylistic"@,
        46 => "@supports"@,
        47 => "@supports-condition"@,
        48 => "@swash"@,
        49 => "@top-center"@,
        50 => "@top-left"@,
        51 => "@top-left-corner"@,
        52 => "@top-right"@,
        53 => "@top-right-corner"@,
        54 => "@view-transition"@,
        55 => "@when"@,
        _ => Seq::empty(),
    }
}

/// The `i`-th name of the lookup table.
pub fn lookup_name_at(i: usize) -> (r: &'static str)
    requires
        0 <= i < LOOKUP_LEN,
    ensures
        r@ == lookup_name(i),
{
    match i {
        0 => "@-webkit-keyframes",
        1 => "@annotation",
        2 => "@apply",
        3 => "@bottom-center",
        4 => "@bottom-left",
        5 => "@bottom-left-corner",
        6 => "@bottom-right",
        7 => "@bottom-right-corner",
        8 => "@character-variant",
        9 => "@charset",
        10 => "@color-profile",
        11 => "@container",
        12 => "@contents",
        13 => "@counter-style",
        14 => "@custom-media",
        15 => "@custom-selector",
        16 => "@else",
        17 => "@font-face",
        18 => "@font-feature-values",
        19 => "@font-palette-values",
        20 => "@function",
        21 => "@historical-forms",
        22 => "@import",
        23 => "@keyframes",
        24 => "@layer",
        25 => "@left-bottom",
        26 => "@left-middle",
        27 => "@left-top",
        28 => "@macro",
        29 => "@media",
        30 => "@mixin",
        31 => "@namespace",
        32 => "@navigation",
        33 => "@ornaments",
        34 => "@page",
        35 => "@position-try",
        36 => "@property",
        37 => "@result",
        38 => "@right-bottom",
        39 => "@right-middle",
        40 => "@right-top",
        41 => "@route",
        42 => "@scope",
        43 => "@starting-style",
        44 => "@styleset",
        45 => "@stylistic",
        46 => "@supports",
        47 => "@supports-condition",
        48 => "@swash",
        49 => "@top-center",
        50 => "@top-left",
        51 => "@top-left-corner",
        52 => "@top-right",
        53 => "@top-right-corner",
        54 => "@view-transition",
        _ => "@when",
    }
}

/// The names of the lookup table up to `n` are in strictly increasing name order.
pub open spec fn lookup_sorted_upto(n: usize) -> bool
    decreases n,
{
    if n <= 1 {
        true
    } else {
        lookup_sorted_upto((n - 1) as usize) && name_less(lookup_name((n - 2) as usize), lookup_name((n - 1) as usize))
    }
}

proof fn lemma_lookup_adjacent_0()
    ensures
        name_less(lookup_name(0), lookup_name(1)),
{
    reveal_strlit("@-webkit-keyframes");
    reveal_strlit("@annotation");
    reveal_with_fuel(seq_less_from, 3);
}

proof fn lemma_lookup_adjacent_1()
    ensures
        name_less(lookup_name(1), lookup_name(2)),
{
    reveal_strlit("@annotation");
    reveal_strlit("@apply");
    reveal_with_fuel(seq_less_from, 4);
}

proof fn lemma_lookup_adjacent_2()
    ensures
        name_less(lookup_name(2), lookup_name(3)),
{
    reveal_strlit("@apply");
    reveal_strlit("@bottom-center");
    reveal_with_fuel(seq_less_from, 3);
}

proof fn lemma_lookup_adjacent_3()
    ensures
        name_less(lookup_name(3), lookup_name(4)),
{
    reveal_strlit("@bottom-center");
    reveal_strlit("@bottom-left");
    reveal_with_fuel(seq_less_from, 10);
}

proof fn lemma_lookup_adjacent_4()
    ensures
        name_less(lookup_name(4), lookup_name(5)),
{
    reveal_strlit("@bottom-left");
    reveal_strlit("@bottom-left-corner");
    reveal_with_fuel(seq_less_from, 14);
}

proof fn lemma_lookup_adjacent_5()
    ensures
        name_less(lookup_name(5), lookup_name(6)),
{
    reveal_strlit("@bottom-left-corner");
    reveal_strlit("@bottom-right");
    reveal_with_fuel(seq_less_from, 10);
}

proof fn lemma_lookup_adjacent_6()
    ensures
        name_less(lookup_name(6), lookup_name(7)),
{
    reveal_strlit("@bottom-right");
    reveal_strlit("@bottom-right-corner");
    reveal_with_fuel(seq_less_from, 15);
}

proof fn lemma_lookup_adjacent_7()
    ensures
        name_less(lookup_name(7), lookup_name(8)),
{
    reveal_strlit("@bottom-right-corner");
    reveal_strlit("@character-variant");
    reveal_with_fuel(seq_less_from, 3);
}

proof fn lemma_lookup_adjacent_8()
    ensures
        name_less(lookup_name(8), lookup_name(9)),
{
    reveal_strlit("@character-variant");
    reveal_strlit("@charset");
    reveal_with_fuel(seq_less_from, 7);
}

proof fn lemma_lookup_adjacent_9()
    ensures
        name_less(lookup_name(9), lookup_name(10)),
{
    reveal_strlit("@charset");
    reveal_strlit("@color-profile");
    reveal_with_fuel(seq_less_from, 4);
}

proof fn lemma_lookup_adjacent_10()
    ensures
        name_less(lookup_name(10), lookup_name(11)),
{
    reveal_strlit("@color-profile");
    reveal_strlit("@container");
    reveal_with_fuel(seq_less_from, 5);
}

proof fn lemma_lookup_adjacent_11()
    ensures
        name_less(lookup_name(11), lookup_name(12)),
{
    reveal_strlit("@container");
    reveal_strlit("@contents");
    reveal_with_fuel(seq_less_from, 7);
}

proof fn lemma_lookup_adjacent_12()
    ensures
        name_less(lookup_name(12), lookup_name(13)),
{
    reveal_strlit("@contents");
    reveal_strlit("@counter-style");
    reveal_with_fuel(seq_less_from, 5);
}

proof fn lemma_lookup_adjacent_13()
    ensures
        name_less(lookup_name(13), lookup_name(14)),
{
    reveal_strlit("@counter-style");
    reveal_strlit("@custom-media");
    reveal_with_fuel(seq_less_from, 4);
}

proof fn lemma_lookup_adjacent_14()
    ensures
        name_less(lookup_name(14), lookup_name(15)),
{
    reveal_strlit("@custom-media");
    reveal_strlit("@custom-selector");
    reveal_with_fuel(seq_less_from, 10);
}

proof fn lemma_lookup_adjacent_15()
    ensures
        name_less(lookup_name(15), lookup_name(16)),
{
    reveal_strlit("@custom-selector");
    reveal_strlit("@else");
    reveal_with_fuel(seq_less_from, 3);
}

proof fn lemma_lookup_adjacent_16()
    ensures
        name_less(lookup_name(16), lookup_name(17)),
{
    reveal_strlit("@else");
    reveal_strlit("@font-face");
    reveal_with_fuel(seq_less_from, 3);
}

proof fn lemma_lookup_adjacent_17()
    ensures
        name_less(lookup_name(17), lookup_name(18)),
{
    reveal_strlit("@font-face");
    reveal_strlit("@font-feature-values");
    reveal_with_fuel(seq_less_from, 9);
}

proof fn lemma_lookup_adjacent_18()
    ensures
        name_less(lookup_name(18), lookup_name(19)),
{
    reveal_strlit("@font-feature-values");
    reveal_strlit("@font-palette-values");
    reveal_with_fuel(seq_less_from, 8);
}

proof fn lemma_lookup_adjacent_19()
    ensures
        name_less(lookup_name(19), lookup_name(20)),
{
    reveal_strlit("@font-palette-values");
    reveal_strlit("@function");
    reveal_with_fuel(seq_less_from, 4);
}

proof fn lemma_lookup_adjacent_20()
    ensures
        name_less(lookup_name(20), lookup_name(21)),
{
    reveal_strlit("@function");
    reveal_strlit("@historical-forms");
    reveal_with_fuel(seq_less_from, 3);
}

proof fn lemma_lookup_adjacent_21()
    ensures
        name_less(lookup_name(21), lookup_name(22)),
{
    reveal_strlit("@historical-forms");
    reveal_strlit("@import");
    reveal_with_fuel(seq_less_from, 3);
}

proof fn lemma_lookup_adjacent_22()
    ensures
        name_less(lookup_name(22), lookup_name(23)),
{
    reveal_strlit("@import");
    reveal_strlit("@keyframes");
    reveal_with_fuel(seq_less_from, 3);
}

proof fn lemma_lookup_adjacent_23()
    ensures
        name_less(lookup_name(23), lookup_name(24)),
{
    reveal_strlit("@keyframes");
    reveal_strlit("@layer");
    reveal_with_fuel(seq_less_from, 3);
}

proof fn lemma_lookup_adjacent_24()
    ensures
        name_less(lookup_name(24), lookup_name(25)),
{
    reveal_strlit("@layer");
    reveal_strlit("@left-bottom");
    reveal_with_fuel(seq_less_from, 4);
}

proof fn lemma_lookup_adjacent_25()
    ensures
        name_less(lookup_name(25), lookup_name(26)),
{
    reveal_strlit("@left-bottom");
    reveal_strlit("@left-middle");
    reveal_with_fuel(seq_less_from, 8);
}

proof fn lemma_lookup_adjacent_26()
    ensures
        name_less(lookup_name(26), lookup_name(27)),
{
    reveal_strlit("@left-middle");
    reveal_strlit("@left-top");
    reveal_with_fuel(seq_less_from, 8);
}

proof fn lemma_lookup_adjacent_27()
    ensures
        name_less(lookup_name(27), lookup_name(28)),
{
    reveal_strlit("@left-top");
    reveal_strlit("@macro");
    reveal_with_fuel(seq_less_from, 3);
}

proof fn lemma_lookup_adjacent_28()
    ensures
        name_less(lookup_name(28), lookup_name(29)),
{
    reveal_strlit("@macro");
    reveal_strlit("@media");
    reveal_with_fuel(seq_less_from, 4);
}

proof fn lemma_lookup_adjacent_29()
    ensures
        name_less(lookup_name(29), lookup_name(30)),
{
    reveal_strlit("@media");
    reveal_strlit("@mixin");
    reveal_with_fuel(seq_less_from, 4);
}

proof fn lemma_lookup_adjacent_30()
    ensures
        name_less(lookup_name(30), lookup_name(31)),
{
    reveal_strlit("@mixin");
    reveal_strlit("@namespace");
    reveal_with_fuel(seq_less_from, 3);
}

proof fn lemma_lookup_adjacent_31()
    ensures
        name_less(lookup_name(31), lookup_name(32)),
{
    reveal_strlit("@namespace");
    reveal_strlit("@navigation");
    reveal_with_fuel(seq_less_from, 5);
}

proof fn lemma_lookup_adjacent_32()
    ensures
        name_less(lookup_name(32), lookup_name(33)),
{
    reveal_strlit("@navigation");
    reveal_strlit("@ornaments");
    reveal_with_fuel(seq_less_from, 3);
}

proof fn lemma_lookup_adjacent_33()
    ensures
        name_less(lookup_name(33), lookup_name(34)),
{
    reveal_strlit("@ornaments");
    reveal_strlit("@page");
    reveal_with_fuel(seq_less_from, 3);
}

proof fn lemma_lookup_adjacent_34()
    ensures
        name_less(lookup_name(34), lookup_name(35)),
{
    reveal_strlit("@page");
    reveal_strlit("@position-try");
    reveal_with_fuel(seq_less_from, 4);
}

proof fn lemma_lookup_adjacent_35()
    ensures
        name_less(lookup_name(35), lookup_name(36)),
{
    reveal_strlit("@position-try");
    reveal_strlit("@property");
    reveal_with_fuel(seq_less_from, 4);
}

proof fn lemma_lookup_adjacent_36()
    ensures
        name_less(lookup_name(36), lookup_name(37)),
{
    reveal_strlit("@property");
    reveal_strlit("@result");
    reveal_with_fuel(seq_less_from, 3);
}

proof fn lemma_lookup_adjacent_37()
    ensures
        name_less(lookup_name(37), lookup_name(38)),
{
    reveal_strlit("@result");
    reveal_strlit("@right-bottom");
    reveal_with_fuel(seq_less_from, 4);
}

proof fn lemma_lookup_adjacent_38()
    ensures
        name_less(lookup_name(38), lookup_name(39)),
{
    reveal_strlit("@right-bottom");
    reveal_strlit("@right-middle");
    reveal_with_fuel(seq_less_from, 9);
}

proof fn lemma_lookup_adjacent_39()
    ensures
        name_less(lookup_name(39), lookup_name(40)),
{
    reveal_strlit("@right-middle");
    reveal_strlit("@right-top");
    reveal_with_fuel(seq_less_from, 9);
}

proof fn lemma_lookup_adjacent_40()
    ensures
        name_less(lookup_name(40), lookup_name(41)),
{
    reveal_strlit("@right-top");
    reveal_strlit("@route");
    reveal_with_fuel(seq_less_from, 4);
}

proof fn lemma_lookup_adjacent_41()
    ensures
        name_less(lookup_name(41), lookup_name(42)),
{
    reveal_strlit("@route");
    reveal_strlit("@scope");
    reveal_with_fuel(seq_less_from, 3);
}

proof fn lemma_lookup_adjacent_42()
    ensures
        name_less(lookup_name(42), lookup_name(43)),
{
    reveal_strlit("@scope");
    reveal_strlit("@starting-style");
    reveal_with_fuel(seq_less_from, 4);
}

proof fn lemma_lookup_adjacent_43()
    ensures
        name_less(lookup_name(43), lookup_name(44)),
{
    reveal_strlit("@starting-style");
    reveal_strlit("@styleset");
    reveal_with_fuel(seq_less_from, 5);
}

proof fn lemma_lookup_adjacent_44()
    ensures
        name_less(lookup_name(44), lookup_name(45)),
{
    reveal_strlit("@styleset");
    reveal_strlit("@stylistic");
    reveal_with_fuel(seq_less_from, 7);
}

proof fn lemma_lookup_adjacent_45()
    ensures
        name_less(lookup_name(45), lookup_name(46)),
{
    reveal_strlit("@stylistic");
    reveal_strlit("@supports");
    reveal_with_fuel(seq_less_from, 4);
}

proof fn lemma_lookup_adjacent_46()
    ensures
        name_less(lookup_name(46), lookup_name(47)),
{
    reveal_strlit("@supports");
    reveal_strlit("@supports-condition");
    reveal_with_fuel(seq_less_from, 11);
}

proof fn lemma_lookup_adjacent_47()
    ensures
        name_less(lookup_name(47), lookup_name(48)),
{
    reveal_strlit("@supports-condition");
    reveal_strlit("@swash");
    reveal_with_fuel(seq_less_from, 4);
}

proof fn lemma_lookup_adjacent_48()
    ensures
        name_less(lookup_name(48), lookup_name(49)),
{
    reveal_strlit("@swash");
    reveal_strlit("@top-center");
    reveal_with_fuel(seq_less_from, 3);
}

proof fn lemma_lookup_adjacent_49()
    ensures
        name_less(lookup_name(49), lookup_name(50)),
{
    reveal_strlit("@top-center");
    reveal_strlit("@top-left");
    reveal_with_fuel(seq_less_from, 7);
}

proof fn lemma_lookup_adjacent_50()
    ensures
        name_less(lookup_name(50), lookup_name(51)),
{
    reveal_strlit("@top-left");
    reveal_strlit("@top-left-corner");
    reveal_with_fuel(seq_less_from, 11);
}

proof fn lemma_lookup_adjacent_51()
    ensures
        name_less(lookup_name(51), lookup_name(52)),
{
    reveal_strlit("@top-left-corner");
    reveal_strlit("@top-right");
    reveal_with_fuel(seq_less_from, 7);
}

proof fn lemma_lookup_adjacent_52()
    ensures
        name_less(lookup_name(52), lookup_name(53)),
{
    reveal_strlit("@top-right");
    reveal_strlit("@top-right-corner");
    reveal_with_fuel(seq_less_from, 12);
}

proof fn lemma_lookup_adjacent_53()
    ensures
        name_less(lookup_name(53), lookup_name(54)),
{
    reveal_strlit("@top-right-corner");
    reveal_strlit("@view-transition");
    reveal_with_fuel(seq_less_from, 3);
}

proof fn lemma_lookup_adjacent_54()
    ensures
        name_less(lookup_name(54), lookup_name(55)),
{
    reveal_strlit("@view-transition");
    reveal_strlit("@when");
    reveal_with_fuel(seq_less_from, 3);
}

proof fn lemma_lookup_sorted_upto_51()
    ensures
        lookup_sorted_upto(51),
{
    assert(lookup_sorted_upto(1));
    lemma_lookup_adjacent_0();
    assert(lookup_sorted_upto(2));
    lemma_lookup_adjacent_1();
    assert(lookup_sorted_upto(3));
    lemma_lookup_adjacent_2();
    assert(lookup_sorted_upto(4));
    lemma_lookup_adjacent_3();
    assert(lookup_sorted_upto(5));
    lemma_lookup_adjacent_4();
    assert(lookup_sorted_upto(6));
    lemma_lookup_adjacent_5();
    assert(lookup_sorted_upto(7));
    lemma_lookup_adjacent_6();
    assert(lookup_sorted_upto(8));
    lemma_lookup_adjacent_7();
    assert(lookup_sorted_upto(9));
    lemma_lookup_adjacent_8();
    assert(lookup_sorted_upto(10));
    lemma_lookup_adjacent_9();
    assert(lookup_sorted_upto(11));
    lemma_lookup_adjacent_10();
    assert(lookup_sorted_upto(12));
    lemma_lookup_adjacent_11();
    assert(lookup_sorted_upto(13));
    lemma_lookup_adjacent_12();
    assert(lookup_sorted_upto(14));
    lemma_lookup_adjacent_13();
    assert(lookup_sorted_upto(15));
    lemma_lookup_adjacent_14();
    assert(lookup_sorted_upto(16));
    lemma_lookup_adjacent_15();
    assert(lookup_sorted_upto(17));
    lemma_lookup_adjacent_16();
    assert(lookup_sorted_upto(18));
    lemma_lookup_adjacent_17();
    assert(lookup_sorted_upto(19));
    lemma_lookup_adjacent_18();
    assert(lookup_sorted_upto(20));
    lemma_lookup_adjacent_19();
    assert(lookup_sorted_upto(21));
    lemma_lookup_adjacent_20();
    assert(lookup_sorted_upto(22));
    lemma_lookup_adjacent_21();
    assert(lookup_sorted_upto(23));
    lemma_lookup_adjacent_22();
    assert(lookup_sorted_upto(24));
    lemma_lookup_adjacent_23();
    assert(lookup_sorted_upto(25));
    lemma_lookup_adjacent_24();
    assert(lookup_sorted_upto(26));
    lemma_lookup_adjacent_25();
    assert(lookup_sorted_upto(27));
    lemma_lookup_adjacent_26();
    assert(lookup_sorted_upto(28));
    lemma_lookup_adjacent_27();
    assert(lookup_sorted_upto(29));
    lemma_lookup_adjacent_28();
    assert(lookup_sorted_upto(30));
    lemma_lookup_adjacent_29();
    assert(lookup_sorted_upto(31));
    lemma_lookup_adjacent_30();
    assert(lookup_sorted_upto(32));
    lemma_lookup_adjacent_31();
    assert(lookup_sorted_upto(33));
    lemma_lookup_adjacent_32();
    assert(lookup_sorted_upto(34));
    lemma_lookup_adjacent_33();
    assert(lookup_sorted_upto(35));
    lemma_lookup_adjacent_34();
    assert(lookup_sorted_upto(36));
    lemma_lookup_adjacent_35();
    assert(lookup_sorted_upto(37));
    lemma_lookup_adjacent_36();
    assert(lookup_sorted_upto(38));
    lemma_lookup_adjacent_37();
    assert(lookup_sorted_upto(39));
    lemma_lookup_adjacent_38();
    assert(lookup_sorted_upto(40));
    lemma_lookup_adjacent_39();
    assert(lookup_sorted_upto(41));
    lemma_lookup_adjacent_40();
    assert(lookup_sorted_upto(42));
    lemma_lookup_adjacent_41();
    assert(lookup_sorted_upto(43));
    lemma_lookup_adjacent_42();
    assert(lookup_sorted_upto(44));
    lemma_lookup_adjacent_43();
    assert(lookup_sorted_upto(45));
    lemma_lookup_adjacent_44();
    assert(lookup_sorted_upto(46));
    lemma_lookup_adjacent_45();
    assert(lookup_sorted_upto(47));
    lemma_lookup_adjacent_46();
    assert(lookup_sorted_upto(48));
    lemma_lookup_adjacent_47();
    assert(lookup_sorted_upto(49));
    lemma_lookup_adjacent_48();
    assert(lookup_sorted_upto(50));
    lemma_lookup_adjacent_49();
    assert(lookup_sorted_upto(51));
}

proof fn lemma_lookup_sorted_upto_56()
    ensures
        lookup_sorted_upto(56),
{
    lemma_lookup_sorted_upto_51();
    lemma_lookup_adjacent_50();
    assert(lookup_sorted_upto(52));
    lemma_lookup_adjacent_51();
    assert(lookup_sorted_upto(53));
    lemma_lookup_adjacent_52();
    assert(lookup_sorted_upto(54));
    lemma_lookup_adjacent_53();
    assert(lookup_sorted_upto(55));
    lemma_lookup_adjacent_54();
    assert(lookup_sorted_upto(56));
}

proof fn lemma_sorted_pairs(n: usize)
    requires
        lookup_sorted_upto(n),
    ensures
        forall|i: usize, j: usize| i < j < n ==> name_less(#[trigger] lookup_name(i), #[trigger] lookup_name(j)),
    decreases n,
{
    if n > 1 {
        let m = (n - 1) as usize;
        lemma_sorted_pairs(m);
        assert forall|i: usize, j: usize| i < j < n implies name_less(#[trigger] lookup_name(i), #[trigger] lookup_name(j)) by {
            if j == m && i + 1 < m {
                lemma_name_less_transitive(lookup_name(i), lookup_name((m - 1) as usize), lookup_name(m));
            }
        }
    }
}

/// The lookup table is in strictly increasing name order.
pub proof fn lemma_lookup_sorted()
    ensures
        forall|i: usize, j: usize| i < j < LOOKUP_LEN ==> name_less(#[trigger] lookup_name(i), #[trigger] lookup_name(j)),
{
    lemma_lookup_sorted_upto_56();
    lemma_sorted_pairs(LOOKUP_LEN);
}

} // verus!
