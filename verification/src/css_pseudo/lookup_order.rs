//! The names that `CssPseudo::from_name` searches, in the order it searches them,
//! and the proof that this order is strictly increasing.
use vstd::prelude::*;

use crate::text::{lemma_name_less_transitive, name_less, seq_less_from};

verus! {

/// How many names `from_name` looks up.
pub const LOOKUP_LEN: usize = 153;

/// The `i`-th name of the lookup table.
pub open spec fn lookup_name(i: usize) -> Seq<char> {
    match i {
        0 => "&"@,
        1 => "::after"@,
        2 => "::backdrop"@,
        3 => "::before"@,
        4 => "::checkmark"@,
        5 => "::clear-icon"@,
        6 => "::color-swatch"@,
        7 => "::column"@,
        8 => "::cue"@,
        9 => "::cue()"@,
        10 => "::cue-region"@,
        11 => "::cue-region()"@,
        12 => "::details-content"@,
        13 => "::field-component"@,
        14 => "::field-separator"@,
        15 => "::field-text"@,
        16 => "::file-selector-button"@,
        17 => "::first-letter"@,
        18 => "::first-line"@,
        19 => "::grammar-error"@,
        20 => "::highlight()"@,
        21 => "::marker"@,
        22 => "::nth-fragment()"@,
        23 => "::part()"@,
        24 => "::picker()"@,
        25 => "::picker-icon"@,
        26 => "::placeholder"@,
        27 => "::reveal-icon"@,
        28 => "::scroll-button()"@,
        29 => "::scroll-marker"@,
        30 => "::scroll-marker-group"@,
        31 => "::search-text"@,
        32 => "::selection"@,
        33 => "::slider-fill"@,
        34 => "::slider-thumb"@,
        35 => "::slider-track"@,
        36 => "::slotted()"@,
        37 => "::spelling-error"@,
        38 => "::step-control"@,
        39 => "::step-down"@,
        40 => "::step-up"@,
        41 => "::target-text"@,
        42 => "::view-transition"@,
        43 => "::view-transition-group()"@,
        44 => "::view-transition-group-children()"@,
        45 => "::view-transition-image-pair()"@,
        46 => "::view-transition-new()"@,
        47 => "::view-transition-old()"@,
        48 => ":active"@,
        49 => ":active-view-transition"@,
        50 => ":active-view-transition-type()"@,
        51 => ":after"@,
        52 => ":animated-image"@,
        53 => ":any-link"@,
        54 => ":autofill"@,
        55 => ":before"@,
        56 => ":blank"@,
        57 => ":buffering"@,
        58 => ":checked"@,
        59 => ":current"@,
        60 => ":current()"@,
        61 => ":default"@,
        62 => ":defined"@,
        63 => ":dir()"@,
        64 => ":disabled"@,
        65 => ":empty"@,
        66 => ":enabled"@,
        67 => ":first"@,
        68 => ":first-child"@,
        69 => ":first-letter"@,
        70 => ":first-line"@,
        71 => ":first-of-page"@,
        72 => ":first-of-type"@,
        73 => ":focus"@,
        74 => ":focus-visible"@,
        75 => ":focus-within"@,
        76 => ":fullscreen"@,
        77 => ":future"@,
        78 => ":has()"@,
        79 => ":has-slotted"@,
        80 => ":heading"@,
        81 => ":heading()"@,
        82 => ":high-value"@,
        83 => ":host"@,
        84 => ":host()"@,
        85 => ":host-context()"@,
        86 => ":hover"@,
        87 => ":in-range"@,
        88 => ":indeterminate"@,
        89 => ":interest-source"@,
        90 => ":interest-target"@,
        91 => ":invalid"@,
        92 => ":is()"@,
        93 => ":lang()"@,
        94 => ":last-child"@,
        95 => ":last-of-page"@,
        96 => ":last-of-type"@,
        97 => ":left"@,
        98 => ":link"@,
        99 => ":link-to()"@,
        _ => lookup_name_from_100(i),
    }
}

/// `lookup_name` from index 100 on.
pub open spec fn lookup_name_from_100(i: usize) -> Seq<char> {
    match i {
        100 => ":local-link"@,
        101 => ":low-value"@,
        102 => ":matches()"@,
        103 => ":modal"@,
        104 => ":muted"@,
        105 => ":not()"@,
        106 => ":nth()"@,
        107 => ":nth-child()"@,
        108 => ":nth-col()"@,
        109 => ":nth-last-child()"@,
        110 => ":nth-last-col()"@,
        111 => ":nth-last-of-type()"@,
        112 => ":nth-of-page()"@,
        113 => ":nth-of-type()"@,
        114 => ":only-child"@,
        115 => ":only-of-type"@,
        116 => ":open"@,
        117 => ":optimal-value"@,
        118 => ":optional"@,
        119 => ":out-of-range"@,
        120 => ":past"@,
        121 => ":paused"@,
        122 => ":picture-in-picture"@,
        123 => ":placeholder-shown"@,
        124 => ":playing"@,
        125 => ":popover-open"@,
        126 => ":read-only"@,
        127 => ":read-write"@,
        128 => ":required"@,
        129 => ":right"@,
        130 => ":root"@,
        131 => ":scope"@,
        132 => ":seeking"@,
        133 => ":snapped"@,
        134 => ":snapped-block"@,
        135 => ":snapped-inline"@,
        136 => ":snapped-x"@,
        137 => ":snapped-y"@,
        138 => ":stalled"@,
        139 => ":start-of-page"@,
        140 => ":state()"@,
        141 => ":target"@,
        142 => ":target-after"@,
        143 => ":target-before"@,
        144 => ":target-current"@,
        145 => ":unchecked"@,
        146 => ":user-invalid"@,
        147 => ":user-valid"@,
        148 => ":valid"@,
        149 => ":visited"@,
        150 => ":volume-locked"@,
        151 => ":where()"@,
        152 => ":xr-overlay"@,
        _ => Seq::empty(),
    }
}

/// The `i`-th name of the lookup table.
pub fn lookup_name_at(i: usize) -> (r: &'static str)
    requires
        0 <= i < LOOKUP_LEN,
    ensures
        r@ == lookup_name(i),
{
    match i {
        0 => "&",
        1 => "::after",
        2 => "::backdrop",
        3 => "::before",
        4 => "::checkmark",
        5 => "::clear-icon",
        6 => "::color-swatch",
        7 => "::column",
        8 => "::cue",
        9 => "::cue()",
        10 => "::cue-region",
        11 => "::cue-region()",
        12 => "::details-content",
        13 => "::field-component",
        14 => "::field-separator",
        15 => "::field-text",
        16 => "::file-selector-button",
        17 => "::first-letter",
        18 => "::first-line",
        19 => "::grammar-error",
        20 => "::highlight()",
        21 => "::marker",
        22 => "::nth-fragment()",
        23 => "::part()",
        24 => "::picker()",
        25 => "::picker-icon",
        26 => "::placeholder",
        27 => "::reveal-icon",
        28 => "::scroll-button()",
        29 => "::scroll-marker",
        30 => "::scroll-marker-group",
        31 => "::search-text",
        32 => "::selection",
        33 => "::slider-fill",
        34 => "::slider-thumb",
        35 => "::slider-track",
        36 => "::slotted()",
        37 => "::spelling-error",
        38 => "::step-control",
        39 => "::step-down",
        40 => "::step-up",
        41 => "::target-text",
        42 => "::view-transition",
        43 => "::view-transition-group()",
        44 => "::view-transition-group-children()",
        45 => "::view-transition-image-pair()",
        46 => "::view-transition-new()",
        47 => "::view-transition-old()",
        48 => ":active",
        49 => ":active-view-transition",
        50 => ":active-view-transition-type()",
        51 => ":after",
        52 => ":animated-image",
        53 => ":any-link",
        54 => ":autofill",
        55 => ":before",
        56 => ":blank",
        57 => ":buffering",
        58 => ":checked",
        59 => ":current",
        60 => ":current()",
        61 => ":default",
        62 => ":defined",
        63 => ":dir()",
        64 => ":disabled",
        65 => ":empty",
        66 => ":enabled",
        67 => ":first",
        68 => ":first-child",
        69 => ":first-letter",
        70 => ":first-line",
        71 => ":first-of-page",
        72 => ":first-of-type",
        73 => ":focus",
        74 => ":focus-visible",
        75 => ":focus-within",
        76 => ":fullscreen",
        77 => ":future",
        78 => ":has()",
        79 => ":has-slotted",
        80 => ":heading",
        81 => ":heading()",
        82 => ":high-value",
        83 => ":host",
        84 => ":host()",
        85 => ":host-context()",
        86 => ":hover",
        87 => ":in-range",
        88 => ":indeterminate",
        89 => ":interest-source",
        90 => ":interest-target",
        91 => ":invalid",
        92 => ":is()",
        93 => ":lang()",
        94 => ":last-child",
        95 => ":last-of-page",
        96 => ":last-of-type",
        97 => ":left",
        98 => ":link",
        99 => ":link-to()",
        _ => lookup_name_at_from_100(i),
    }
}

/// `lookup_name_at` from index 100 on.
fn lookup_name_at_from_100(i: usize) -> (r: &'static str)
    requires
        100 <= i < LOOKUP_LEN,
    ensures
        r@ == lookup_name_from_100(i),
{
    match i {
        100 => ":local-link",
        101 => ":low-value",
        102 => ":matches()",
        103 => ":modal",
        104 => ":muted",
        105 => ":not()",
        106 => ":nth()",
        107 => ":nth-child()",
        108 => ":nth-col()",
        109 => ":nth-last-child()",
        110 => ":nth-last-col()",
        111 => ":nth-last-of-type()",
        112 => ":nth-of-page()",
        113 => ":nth-of-type()",
        114 => ":only-child",
        115 => ":only-of-type",
        116 => ":open",
        117 => ":optimal-value",
        118 => ":optional",
        119 => ":out-of-range",
        120 => ":past",
        121 => ":paused",
        122 => ":picture-in-picture",
        123 => ":placeholder-shown",
        124 => ":playing",
        125 => ":popover-open",
        126 => ":read-only",
        127 => ":read-write",
        128 => ":required",
        129 => ":right",
        130 => ":root",
        131 => ":scope",
        132 => ":seeking",
        133 => ":snapped",
        134 => ":snapped-block",
        135 => ":snapped-inline",
        136 => ":snapped-x",
        137 => ":snapped-y",
        138 => ":stalled",
        139 => ":start-of-page",
        140 => ":state()",
        141 => ":target",
        142 => ":target-after",
        143 => ":target-before",
        144 => ":target-current",
        145 => ":unchecked",
        146 => ":user-invalid",
        147 => ":user-valid",
        148 => ":valid",
        149 => ":visited",
        150 => ":volume-locked",
        151 => ":where()",
        _ => ":xr-overlay",
    }
}

/// The names of the lookup table up to `n` are in strictly increasing name order.
pub open spec fn lookup_sorted_upto(n: usize) -> bool
    decreases n,
{
    if n <= 1 {
        true
    } else {
        lookup_sorted_upto((n - 1) as usize) && name_less(lookup_name((n - 2) as usize), lookup_name((n - 1) as usize))
    }
}

proof fn lemma_lookup_adjacent_0()
    ensures
        name_less(lookup_name(0), lookup_name(1)),
{
    reveal_strlit("&");
    reveal_strlit("::after");
    reveal_with_fuel(seq_less_from, 2);
}

proof fn lemma_lookup_adjacent_1()
    ensures
        name_less(lookup_name(1), lookup_name(2)),
{
    reveal_strlit("::after");
    reveal_strlit("::backdrop");
    reveal_with_fuel(seq_less_from, 4);
}

proof fn lemma_lookup_adjacent_2()
    ensures
        name_less(lookup_name(2), lookup_name(3)),
{
    reveal_strlit("::backdrop");
    reveal_strlit("::before");
    reveal_with_fuel(seq_less_from, 5);
}

proof fn lemma_lookup_adjacent_3()
    ensures
        name_less(lookup_name(3), lookup_name(4)),
{
    reveal_strlit("::before");
    reveal_strlit("::checkmark");
    reveal_with_fuel(seq_less_from, 4);
}

proof fn lemma_lookup_adjacent_4()
    ensures
        name_less(lookup_name(4), lookup_name(5)),
{
    reveal_strlit("::checkmark");
    reveal_strlit("::clear-icon");
    reveal_with_fuel(seq_less_from, 5);
}

proof fn lemma_lookup_adjacent_5()
    ensures
        name_less(lookup_name(5), lookup_name(6)),
{
    reveal_strlit("::clear-icon");
    reveal_strlit("::color-swatch");
    reveal_with_fuel(seq_less_from, 5);
}

proof fn lemma_lookup_adjacent_6()
    ensures
        name_less(lookup_name(6), lookup_name(7)),
{
    reveal_strlit("::color-swatch");
    reveal_strlit("::column");
    reveal_with_fuel(seq_less_from, 7);
}

proof fn lemma_lookup_adjacent_7()
    ensures
        name_less(lookup_name(7), lookup_name(8)),
{
    reveal_strlit("::column");
    reveal_strlit("::cue");
    reveal_with_fuel(seq_less_from, 5);
}

proof fn lemma_lookup_adjacent_8()
    ensures
        name_less(lookup_name(8), lookup_name(9)),
{
    reveal_strlit("::cue");
    reveal_strlit("::cue()");
    reveal_with_fuel(seq_less_from, 7);
}

proof fn lemma_lookup_adjacent_9()
    ensures
        name_less(lookup_name(9), lookup_name(10)),
{
    reveal_strlit("::cue()");
    reveal_strlit("::cue-region");
    reveal_with_fuel(seq_less_from, 7);
}

proof fn lemma_lookup_adjacent_10()
    ensures
        name_less(lookup_name(10), lookup_name(11)),
{
    reveal_strlit("::cue-region");
    reveal_strlit("::cue-region()");
    reveal_with_fuel(seq_less_from, 14);
}

proof fn lemma_lookup_adjacent_11()
    ensures
        name_less(lookup_name(11), lookup_name(12)),
{
    reveal_strlit("::cue-region()");
    reveal_strlit("::details-content");
    reveal_with_fuel(seq_less_from, 4);
}

proof fn lemma_lookup_adjacent_12()
    ensures
        name_less(lookup_name(12), lookup_name(13)),
{
    reveal_strlit("::details-content");
    reveal_strlit("::field-component");
    reveal_with_fuel(seq_less_from, 4);
}

proof fn lemma_lookup_adjacent_13()
    ensures
        name_less(lookup_name(13), lookup_name(14)),
{
    reveal_strlit("::field-component");
    reveal_strlit("::field-separator");
    reveal_with_fuel(seq_less_from, 10);
}

proof fn lemma_lookup_adjacent_14()
    ensures
        name_less(lookup_name(14), lookup_name(15)),
{
    reveal_strlit("::field-separator");
    reveal_strlit("::field-text");
    reveal_with_fuel(seq_less_from, 10);
}

proof fn lemma_lookup_adjacent_15()
    ensures
        name_less(lookup_name(15), lookup_name(16)),
{
    reveal_strlit("::field-text");
    reveal_strlit("::file-selector-button");
    reveal_with_fuel(seq_less_from, 6);
}

proof fn lemma_lookup_adjacent_16()
    ensures
        name_less(lookup_name(16), lookup_name(17)),
{
    reveal_strlit("::file-selector-button");
    reveal_strlit("::first-letter");
    reveal_with_fuel(seq_less_from, 6);
}

proof fn lemma_lookup_adjacent_17()
    ensures
        name_less(lookup_name(17), lookup_name(18)),
{
    reveal_strlit("::first-letter");
    reveal_strlit("::first-line");
    reveal_with_fuel(seq_less_from, 11);
}

proof fn lemma_lookup_adjacent_18()
    ensures
        name_less(lookup_name(18), lookup_name(19)),
{
    reveal_strlit("::first-line");
    reveal_strlit("::grammar-error");
    reveal_with_fuel(seq_less_from, 4);
}

proof fn lemma_lookup_adjacent_19()
    ensures
        name_less(lookup_name(19), lookup_name(20)),
{
    reveal_strlit("::grammar-error");
    reveal_strlit("::highlight()");
    reveal_with_fuel(seq_less_from, 4);
}

proof fn lemma_lookup_adjacent_20()
    ensures
        name_less(lookup_name(20), lookup_name(21)),
{
    reveal_strlit("::highlight()");
    reveal_strlit("::marker");
    reveal_with_fuel(seq_less_from, 4);
}

proof fn lemma_lookup_adjacent_21()
    ensures
        name_less(lookup_name(21), lookup_name(22)),
{
    reveal_strlit("::marker");
    reveal_strlit("::nth-fragment()");
    reveal_with_fuel(seq_less_from, 4);
}

proof fn lemma_lookup_adjacent_22()
    ensures
        name_less(lookup_name(22), lookup_name(23)),
{
    reveal_strlit("::nth-fragment()");
    reveal_strlit("::part()");
    reveal_with_fuel(seq_less_from, 4);
}

proof fn lemma_lookup_adjacent_23()
    ensures
        name_less(lookup_name(23), lookup_name(24)),
{
    reveal_strlit("::part()");
    reveal_strlit("::picker()");
    reveal_with_fuel(seq_less_from, 5);
}

proof fn lemma_lookup_adjacent_24()
    ensures
        name_less(lookup_name(24), lookup_name(25)),
{
    reveal_strlit("::picker()");
    reveal_strlit("::picker-icon");
    reveal_with_fuel(seq_less_from, 10);
}

proof fn lemma_lookup_adjacent_25()
    ensures
        name_less(lookup_name(25), lookup_name(26)),
{
    reveal_strlit("::picker-icon");
    reveal_strlit("::placeholder");
    reveal_with_fuel(seq_less_from, 5);
}

proof fn lemma_lookup_adjacent_26()
    ensures
        name_less(lookup_name(26), lookup_name(27)),
{
    reveal_strlit("::placeholder");
    reveal_strlit("::reveal-icon");
    reveal_with_fuel(seq_less_from, 4);
}

proof fn lemma_lookup_adjacent_27()
    ensures
        name_less(lookup_name(27), lookup_name(28)),
{
    reveal_strlit("::reveal-icon");
    reveal_strlit("::scroll-button()");
    reveal_with_fuel(seq_less_from, 4);
}

proof fn lemma_lookup_adjacent_28()
    ensures
        name_less(lookup_name(28), lookup_name(29)),
{
    reveal_strlit("::scroll-button()");
    reveal_strlit("::scroll-marker");
    reveal_with_fuel(seq_less_from, 11);
}

proof fn lemma_lookup_adjacent_29()
    ensures
        name_less(lookup_name(29), lookup_name(30)),
{
    reveal_strlit("::scroll-marker");
    reveal_strlit("::scroll-marker-group");
    reveal_with_fuel(seq_less_from, 17);
}

proof fn lemma_lookup_adjacent_30()
    ensures
        name_less(lookup_name(30), lookup_name(31)),
{
    reveal_strlit("::scroll-marker-group");
    reveal_strlit("::search-text");
    reveal_with_fuel(seq_less_from, 5);
}

proof fn lemma_lookup_adjacent_31()
    ensures
        name_less(lookup_name(31), lookup_name(32)),
{
    reveal_strlit("::search-text");
    reveal_strlit("::selection");
    reveal_with_fuel(seq_less_from, 6);
}

proof fn lemma_lookup_adjacent_32()
    ensures
        name_less(lookup_name(32), lookup_name(33)),
{
    reveal_strlit("::selection");
    reveal_strlit("::slider-fill");
    reveal_with_fuel(seq_less_from, 5);
}

proof fn lemma_lookup_adjacent_33()
    ensures
        name_less(lookup_name(33), lookup_name(34)),
{
    reveal_strlit("::slider-fill");
    reveal_strlit("::slider-thumb");
    reveal_with_fuel(seq_less_from, 11);
}

proof fn lemma_lookup_adjacent_34()
    ensures
        name_less(lookup_name(34), lookup_name(35)),
{
    reveal_strlit("::slider-thumb");
    reveal_strlit("::slider-track");
    reveal_with_fuel(seq_less_from, 12);
}

proof fn lemma_lookup_adjacent_35()
    ensures
        name_less(lookup_name(35), lookup_name(36)),
{
    reveal_strlit("::slider-track");
    reveal_strlit("::slotted()");
    reveal_with_fuel(seq_less_from, 6);
}

proof fn lemma_lookup_adjacent_36()
    ensures
        name_less(lookup_name(36), lookup_name(37)),
{
    reveal_strlit("::slotted()");
    reveal_strlit("::spelling-error");
    reveal_with_fuel(seq_less_from, 5);
}

proof fn lemma_lookup_adjacent_37()
    ensures
        name_less(lookup_name(37), lookup_name(38)),
{
    reveal_strlit("::spelling-error");
    reveal_strlit("::step-control");
    reveal_with_fuel(seq_less_from, 5);
}

proof fn lemma_lookup_adjacent_38()
    ensures
        name_less(lookup_name(38), lookup_name(39)),
{
    reveal_strlit("::step-control");
    reveal_strlit("::step-down");
    reveal_with_fuel(seq_less_from, 9);
}

proof fn lemma_lookup_adjacent_39()
    ensures
        name_less(lookup_name(39), lookup_name(40)),
{
    reveal_strlit("::step-down");
    reveal_strlit("::step-up");
    reveal_with_fuel(seq_less_from, 9);
}

proof fn lemma_lookup_adjacent_40()
    ensures
        name_less(lookup_name(40), lookup_name(41)),
{
    reveal_strlit("::step-up");
    reveal_strlit("::target-text");
    reveal_with_fuel(seq_less_from, 4);
}

proof fn lemma_lookup_adjacent_41()
    ensures
        name_less(lookup_name(41), lookup_name(42)),
{
    reveal_strlit("::target-text");
    reveal_strlit("::view-transition");
    reveal_with_fuel(seq_less_from, 4);
}

proof fn lemma_lookup_adjacent_42()
    ensures
        name_less(lookup_name(42), lookup_name(43)),
{
    reveal_strlit("::view-transition");
    reveal_strlit("::view-transition-group()");
    reveal_with_fuel(seq_less_from, 19);
}

proof fn lemma_lookup_adjacent_43()
    ensures
        name_less(lookup_name(43), lookup_name(44)),
{
    reveal_strlit("::view-transition-group()");
    reveal_strlit("::view-transition-group-children()");
    reveal_with_fuel(seq_less_from, 25);
}

proof fn lemma_lookup_adjacent_44()
    ensures
        name_less(lookup_name(44), lookup_name(45)),
{
    reveal_strlit("::view-transition-group-children()");
    reveal_strlit("::view-transition-image-pair()");
    reveal_with_fuel(seq_less_from, 20);
}

proof fn lemma_lookup_adjacent_45()
    ensures
        name_less(lookup_name(45), lookup_name(46)),
{
    reveal_strlit("::view-transition-image-pair()");
    reveal_strlit("::view-transition-new()");
    reveal_with_fuel(seq_less_from, 20);
}

proof fn lemma_lookup_adjacent_46()
    ensures
        name_less(lookup_name(46), lookup_name(47)),
{
    reveal_strlit("::view-transition-new()");
    reveal_strlit("::view-transition-old()");
    reveal_with_fuel(seq_less_from, 20);
}

proof fn lemma_lookup_adjacent_47()
    ensures
        name_less(lookup_name(47), lookup_name(48)),
{
    reveal_strlit("::view-transition-old()");
    reveal_strlit(":active");
    reveal_with_fuel(seq_less_from, 3);
}

proof fn lemma_lookup_adjacent_48()
    ensures
        name_less(lookup_name(48), lookup_name(49)),
{
    reveal_strlit(":active");
    reveal_strlit(":active-view-transition");
    reveal_with_fuel(seq_less_from, 9);
}

proof fn lemma_lookup_adjacent_49()
    ensures
        name_less(lookup_name(49), lookup_name(50)),
{
    reveal_strlit(":active-view-transition");
    reveal_strlit(":active-view-transition-type()");
    reveal_with_fuel(seq_less_from, 25);
}

proof fn lemma_lookup_adjacent_50()
    ensures
        name_less(lookup_name(50), lookup_name(51)),
{
    reveal_strlit(":active-view-transition-type()");
    reveal_strlit(":after");
    reveal_with_fuel(seq_less_from, 4);
}

proof fn lemma_lookup_adjacent_51()
    ensures
        name_less(lookup_name(51), lookup_name(52)),
{
    reveal_strlit(":after");
    reveal_strlit(":animated-image");
    reveal_with_fuel(seq_less_from, 4);
}

proof fn lemma_lookup_adjacent_52()
    ensures
        name_less(lookup_name(52), lookup_name(53)),
{
    reveal_strlit(":animated-image");
    reveal_strlit(":any-link");
    reveal_with_fuel(seq_less_from, 5);
}

proof fn lemma_lookup_adjacent_53()
    ensures
        name_less(lookup_name(53), lookup_name(54)),
{
    reveal_strlit(":any-link");
    reveal_strlit(":autofill");
    reveal_with_fuel(seq_less_from, 4);
}

proof fn lemma_lookup_adjacent_54()
    ensures
        name_less(lookup_name(54), lookup_name(55)),
{
    reveal_strlit(":autofill");
    reveal_strlit(":before");
    reveal_with_fuel(seq_less_from, 3);
}

proof fn lemma_lookup_adjacent_55()
    ensures
        name_less(lookup_name(55), lookup_name(56)),
{
    reveal_strlit(":before");
    reveal_strlit(":blank");
    reveal_with_fuel(seq_less_from, 4);
}

proof fn lemma_lookup_adjacent_56()
    ensures
        name_less(lookup_name(56), lookup_name(57)),
{
    reveal_strlit(":blank");
    reveal_strlit(":buffering");
    reveal_with_fuel(seq_less_from, 4);
}

proof fn lemma_lookup_adjacent_57()
    ensures
        name_less(lookup_name(57), lookup_name(58)),
{
    reveal_strlit(":buffering");
    reveal_strlit(":checked");
    reveal_with_fuel(seq_less_from, 3);
}

proof fn lemma_lookup_adjacent_58()
    ensures
        name_less(lookup_name(58), lookup_name(59)),
{
    reveal_strlit(":checked");
    reveal_strlit(":current");
    reveal_with_fuel(seq_less_from, 4);
}

proof fn lemma_lookup_adjacent_59()
    ensures
        name_less(lookup_name(59), lookup_name(60)),
{
    reveal_strlit(":current");
    reveal_strlit(":current()");
    reveal_with_fuel(seq_less_from, 10);
}

proof fn lemma_lookup_adjacent_60()
    ensures
        name_less(lookup_name(60), lookup_name(61)),
{
    reveal_strlit(":current()");
    reveal_strlit(":default");
    reveal_with_fuel(seq_less_from, 3);
}

proof fn lemma_lookup_adjacent_61()
    ensures
        name_less(lookup_name(61), lookup_name(62)),
{
    reveal_strlit(":default");
    reveal_strlit(":defined");
    reveal_with_fuel(seq_less_from, 6);
}

proof fn lemma_lookup_adjacent_62()
    ensures
        name_less(lookup_name(62), lookup_name(63)),
{
    reveal_strlit(":defined");
    reveal_strlit(":dir()");
    reveal_with_fuel(seq_less_from, 4);
}

proof fn lemma_lookup_adjacent_63()
    ensures
        name_less(lookup_name(63), lookup_name(64)),
{
    reveal_strlit(":dir()");
    reveal_strlit(":disabled");
    reveal_with_fuel(seq_less_from, 5);
}

proof fn lemma_lookup_adjacent_64()
    ensures
        name_less(lookup_name(64), lookup_name(65)),
{
    reveal_strlit(":disabled");
    reveal_strlit(":empty");
    reveal_with_fuel(seq_less_from, 3);
}

proof fn lemma_lookup_adjacent_65()
    ensures
        name_less(lookup_name(65), lookup_name(66)),
{
    reveal_strlit(":empty");
    reveal_strlit(":enabled");
    reveal_with_fuel(seq_less_from, 4);
}

proof fn lemma_lookup_adjacent_66()
    ensures
        name_less(lookup_name(66), lookup_name(67)),
{
    reveal_strlit(":enabled");
    reveal_strlit(":first");
    reveal_with_fuel(seq_less_from, 3);
}

proof fn lemma_lookup_adjacent_67()
    ensures
        name_less(lookup_name(67), lookup_name(68)),
{
    reveal_strlit(":first");
    reveal_strlit(":first-child");
    reveal_with_fuel(seq_less_from, 8);
}

proof fn lemma_lookup_adjacent_68()
    ensures
        name_less(lookup_name(68), lookup_name(69)),
{
    reveal_strlit(":first-child");
    reveal_strlit(":first-letter");
    reveal_with_fuel(seq_less_from, 9);
}

proof fn lemma_lookup_adjacent_69()
    ensures
        name_less(lookup_name(69), lookup_name(70)),
{
    reveal_strlit(":first-letter");
    reveal_strlit(":first-line");
    reveal_with_fuel(seq_less_from, 10);
}

proof fn lemma_lookup_adjacent_70()
    ensures
        name_less(lookup_name(70), lookup_name(71)),
{
    reveal_strlit(":first-line");
    reveal_strlit(":first-of-page");
    reveal_with_fuel(seq_less_from, 9);
}

proof fn lemma_lookup_adjacent_71()
    ensures
        name_less(lookup_name(71), lookup_name(72)),
{
    reveal_strlit(":first-of-page");
    reveal_strlit(":first-of-type");
    reveal_with_fuel(seq_less_from, 12);
}

proof fn lemma_lookup_adjacent_72()
    ensures
        name_less(lookup_name(72), lookup_name(73)),
{
    reveal_strlit(":first-of-type");
    reveal_strlit(":focus");
    reveal_with_fuel(seq_less_from, 4);
}

proof fn lemma_lookup_adjacent_73()
    ensures
        name_less(lookup_name(73), lookup_name(74)),
{
    reveal_strlit(":focus");
    reveal_strlit(":focus-visible");
    reveal_with_fuel(seq_less_from, 8);
}

proof fn lemma_lookup_adjacent_74()
    ensures
        name_less(lookup_name(74), lookup_name(75)),
{
    reveal_strlit(":focus-visible");
    reveal_strlit(":focus-within");
    reveal_with_fuel(seq_less_from, 9);
}

proof fn lemma_lookup_adjacent_75()
    ensures
        name_less(lookup_name(75), lookup_name(76)),
{
    reveal_strlit(":focus-within");
    reveal_strlit(":fullscreen");
    reveal_with_fuel(seq_less_from, 4);
}

proof fn lemma_lookup_adjacent_76()
    ensures
        name_less(lookup_name(76), lookup_name(77)),
{
    reveal_strlit(":fullscreen");
    reveal_strlit(":future");
    reveal_with_fuel(seq_less_from, 5);
}

proof fn lemma_lookup_adjacent_77()
    ensures
        name_less(lookup_name(77), lookup_name(78)),
{
    reveal_strlit(":future");
    reveal_strlit(":has()");
    reveal_with_fuel(seq_less_from, 3);
}

proof fn lemma_lookup_adjacent_78()
    ensures
        name_less(lookup_name(78), lookup_name(79)),
{
    reveal_strlit(":has()");
    reveal_strlit(":has-slotted");
    reveal_with_fuel(seq_less_from, 6);
}

proof fn lemma_lookup_adjacent_79()
    ensures
        name_less(lookup_name(79), lookup_name(80)),
{
    reveal_strlit(":has-slotted");
    reveal_strlit(":heading");
    reveal_with_fuel(seq_less_from, 4);
}

proof fn lemma_lookup_adjacent_80()
    ensures
        name_less(lookup_name(80), lookup_name(81)),
{
    reveal_strlit(":heading");
    reveal_strlit(":heading()");
    reveal_with_fuel(seq_less_from, 10);
}

proof fn lemma_lookup_adjacent_81()
    ensures
        name_less(lookup_name(81), lookup_name(82)),
{
    reveal_strlit(":heading()");
    reveal_strlit(":high-value");
    reveal_with_fuel(seq_less_from, 4);
}

proof fn lemma_lookup_adjacent_82()
    ensures
        name_less(lookup_name(82), lookup_name(83)),
{
    reveal_strlit(":high-value");
    reveal_strlit(":host");
    reveal_with_fuel(seq_less_from, 4);
}

proof fn lemma_lookup_adjacent_83()
    ensures
        name_less(lookup_name(83), lookup_name(84)),
{
    reveal_strlit(":host");
    reveal_strlit(":host()");
    reveal_with_fuel(seq_less_from, 7);
}

proof fn lemma_lookup_adjacent_84()
    ensures
        name_less(lookup_name(84), lookup_name(85)),
{
    reveal_strlit(":host()");
    reveal_strlit(":host-context()");
    reveal_with_fuel(seq_less_from, 7);
}

proof fn lemma_lookup_adjacent_85()
    ensures
        name_less(lookup_name(85), lookup_name(86)),
{
    reveal_strlit(":host-context()");
    reveal_strlit(":hover");
    reveal_with_fuel(seq_less_from, 5);
}

proof fn lemma_lookup_adjacent_86()
    ensures
        name_less(lookup_name(86), lookup_name(87)),
{
    reveal_strlit(":hover");
    reveal_strlit(":in-range");
    reveal_with_fuel(seq_less_from, 3);
}

proof fn lemma_lookup_adjacent_87()
    ensures
        name_less(lookup_name(87), lookup_name(88)),
{
    reveal_strlit(":in-range");
    reveal_strlit(":indeterminate");
    reveal_with_fuel(seq_less_from, 5);
}

proof fn lemma_lookup_adjacent_88()
    ensures
        name_less(lookup_name(88), lookup_name(89)),
{
    reveal_strlit(":indeterminate");
    reveal_strlit(":interest-source");
    reveal_with_fuel(seq_less_from, 5);
}

proof fn lemma_lookup_adjacent_89()
    ensures
        name_less(lookup_name(89), lookup_name(90)),
{
    reveal_strlit(":interest-source");
    reveal_strlit(":interest-target");
    reveal_with_fuel(seq_less_from, 12);
}

proof fn lemma_lookup_adjacent_90()
    ensures
        name_less(lookup_name(90), lookup_name(91)),
{
    reveal_strlit(":interest-target");
    reveal_strlit(":invalid");
    reveal_with_fuel(seq_less_from, 5);
}

proof fn lemma_lookup_adjacent_91()
    ensures
        name_less(lookup_name(91), lookup_name(92)),
{
    reveal_strlit(":invalid");
    reveal_strlit(":is()");
    reveal_with_fuel(seq_less_from, 4);
}

proof fn lemma_lookup_adjacent_92()
    ensures
        name_less(lookup_name(92), lookup_name(93)),
{
    reveal_strlit(":is()");
    reveal_strlit(":lang()");
    reveal_with_fuel(seq_less_from, 3);
}

proof fn lemma_lookup_adjacent_93()
    ensures
        name_less(lookup_name(93), lookup_name(94)),
{
    reveal_strlit(":lang()");
    reveal_strlit(":last-child");
    reveal_with_fuel(seq_less_from, 5);
}

proof fn lemma_lookup_adjacent_94()
    ensures
        name_less(lookup_name(94), lookup_name(95)),
{
    reveal_strlit(":last-child");
    reveal_strlit(":last-of-page");
    reveal_with_fuel(seq_less_from, 8);
}

proof fn lemma_lookup_adjacent_95()
    ensures
        name_less(lookup_name(95), lookup_name(96)),
{
    reveal_strlit(":last-of-page");
    reveal_strlit(":last-of-type");
    reveal_with_fuel(seq_less_from, 11);
}

proof fn lemma_lookup_adjacent_96()
    ensures
        name_less(lookup_name(96), lookup_name(97)),
{
    reveal_strlit(":last-of-type");
    reveal_strlit(":left");
    reveal_with_fuel(seq_less_from, 4);
}

proof fn lemma_lookup_adjacent_97()
    ensures
        name_less(lookup_name(97), lookup_name(98)),
{
    reveal_strlit(":left");
    reveal_strlit(":link");
    reveal_with_fuel(seq_less_from, 4);
}

proof fn lemma_lookup_adjacent_98()
    ensures
        name_less(lookup_name(98), lookup_name(99)),
{
    reveal_strlit(":link");
    reveal_strlit(":link-to()");
    reveal_with_fuel(seq_less_from, 7);
}

proof fn lemma_lookup_adjacent_99()
    ensures
        name_less(lookup_name(99), lookup_name(100)),
{
    reveal_strlit(":link-to()");
    reveal_strlit(":local-link");
    reveal_with_fuel(seq_less_from, 4);
}

proof fn lemma_lookup_adjacent_100()
    ensures
        name_less(lookup_name(100), lookup_name(101)),
{
    reveal_strlit(":local-link");
    reveal_strlit(":low-value");
    reveal_with_fuel(seq_less_from, 5);
}

proof fn lemma_lookup_adjacent_101()
    ensures
        name_less(lookup_name(101), lookup_name(102)),
{
    reveal_strlit(":low-value");
    reveal_strlit(":matches()");
    reveal_with_fuel(seq_less_from, 3);
}

proof fn lemma_lookup_adjacent_102()
    ensures
        name_less(lookup_name(102), lookup_name(103)),
{
    reveal_strlit(":matches()");
    reveal_strlit(":modal");
    reveal_with_fuel(seq_less_from, 4);
}

proof fn lemma_lookup_adjacent_103()
    ensures
        name_less(lookup_name(103), lookup_name(104)),
{
    reveal_strlit(":modal");
    reveal_strlit(":muted");
    reveal_with_fuel(seq_less_from, 4);
}

proof fn lemma_lookup_adjacent_104()
    ensures
        name_less(lookup_name(104), lookup_name(105)),
{
    reveal_strlit(":muted");
    reveal_strlit(":not()");
    reveal_with_fuel(seq_less_from, 3);
}

proof fn lemma_lookup_adjacent_105()
    ensures
        name_less(lookup_name(105), lookup_name(106)),
{
    reveal_strlit(":not()");
    reveal_strlit(":nth()");
    reveal_with_fuel(seq_less_from, 4);
}

proof fn lemma_lookup_adjacent_106()
    ensures
        name_less(lookup_name(106), lookup_name(107)),
{
    reveal_strlit(":nth()");
    reveal_strlit(":nth-child()");
    reveal_with_fuel(seq_less_from, 6);
}

proof fn lemma_lookup_adjacent_107()
    ensures
        name_less(lookup_name(107), lookup_name(108)),
{
    reveal_strlit(":nth-child()");
    reveal_strlit(":nth-col()");
    reveal_with_fuel(seq_less_from, 8);
}

proof fn lemma_lookup_adjacent_108()
    ensures
        name_less(lookup_name(108), lookup_name(109)),
{
    reveal_strlit(":nth-col()");
    reveal_strlit(":nth-last-child()");
    reveal_with_fuel(seq_less_from, 7);
}

proof fn lemma_lookup_adjacent_109()
    ensures
        name_less(lookup_name(109), lookup_name(110)),
{
    reveal_strlit(":nth-last-child()");
    reveal_strlit(":nth-last-col()");
    reveal_with_fuel(seq_less_from, 13);
}

proof fn lemma_lookup_adjacent_110()
    ensures
        name_less(lookup_name(110), lookup_name(111)),
{
    reveal_strlit(":nth-last-col()");
    reveal_strlit(":nth-last-of-type()");
    reveal_with_fuel(seq_less_from, 12);
}

proof fn lemma_lookup_adjacent_111()
    ensures
        name_less(lookup_name(111), lookup_name(112)),
{
    reveal_strlit(":nth-last-of-type()");
    reveal_strlit(":nth-of-page()");
    reveal_with_fuel(seq_less_from, 7);
}

proof fn lemma_lookup_adjacent_112()
    ensures
        name_less(lookup_name(112), lookup_name(113)),
{
    reveal_strlit(":nth-of-page()");
    reveal_strlit(":nth-of-type()");
    reveal_with_fuel(seq_less_from, 10);
}

proof fn lemma_lookup_adjacent_113()
    ensures
        name_less(lookup_name(113), lookup_name(114)),
{
    reveal_strlit(":nth-of-type()");
    reveal_strlit(":only-child");
    reveal_with_fuel(seq_less_from, 3);
}

proof fn lemma_lookup_adjacent_114()
    ensures
        name_less(lookup_name(114), lookup_name(115)),
{
    reveal_strlit(":only-child");
    reveal_strlit(":only-of-type");
    reveal_with_fuel(seq_less_from, 8);
}

proof fn lemma_lookup_adjacent_115()
    ensures
        name_less(lookup_name(115), lookup_name(116)),
{
    reveal_strlit(":only-of-type");
    reveal_strlit(":open");
    reveal_with_fuel(seq_less_from, 4);
}

proof fn lemma_lookup_adjacent_116()
    ensures
        name_less(lookup_name(116), lookup_name(117)),
{
    reveal_strlit(":open");
    reveal_strlit(":optimal-value");
    reveal_with_fuel(seq_less_from, 5);
}

proof fn lemma_lookup_adjacent_117()
    ensures
        name_less(lookup_name(117), lookup_name(118)),
{
    reveal_strlit(":optimal-value");
    reveal_strlit(":optional");
    reveal_with_fuel(seq_less_from, 7);
}

proof fn lemma_lookup_adjacent_118()
    ensures
        name_less(lookup_name(118), lookup_name(119)),
{
    reveal_strlit(":optional");
    reveal_strlit(":out-of-range");
    reveal_with_fuel(seq_less_from, 4);
}

proof fn lemma_lookup_adjacent_119()
    ensures
        name_less(lookup_name(119), lookup_name(120)),
{
    reveal_strlit(":out-of-range");
    reveal_strlit(":past");
    reveal_with_fuel(seq_less_from, 3);
}

proof fn lemma_lookup_adjacent_120()
    ensures
        name_less(lookup_name(120), lookup_name(121)),
{
    reveal_strlit(":past");
    reveal_strlit(":paused");
    reveal_with_fuel(seq_less_from, 5);
}

proof fn lemma_lookup_adjacent_121()
    ensures
        name_less(lookup_name(121), lookup_name(122)),
{
    reveal_strlit(":paused");
    reveal_strlit(":picture-in-picture");
    reveal_with_fuel(seq_less_from, 4);
}

proof fn lemma_lookup_adjacent_122()
    ensures
        name_less(lookup_name(122), lookup_name(123)),
{
    reveal_strlit(":picture-in-picture");
    reveal_strlit(":placeholder-shown");
    reveal_with_fuel(seq_less_from, 4);
}

proof fn lemma_lookup_adjacent_123()
    ensures
        name_less(lookup_name(123), lookup_name(124)),
{
    reveal_strlit(":placeholder-shown");
    reveal_strlit(":playing");
    reveal_with_fuel(seq_less_from, 6);
}

proof fn lemma_lookup_adjacent_124()
    ensures
        name_less(lookup_name(124), lookup_name(125)),
{
    reveal_strlit(":playing");
    reveal_strlit(":popover-open");
    reveal_with_fuel(seq_less_from, 4);
}

proof fn lemma_lookup_adjacent_125()
    ensures
        name_less(lookup_name(125), lookup_name(126)),
{
    reveal_strlit(":popover-open");
    reveal_strlit(":read-only");
    reveal_with_fuel(seq_less_from, 3);
}

proof fn lemma_lookup_adjacent_126()
    ensures
        name_less(lookup_name(126), lookup_name(127)),
{
    reveal_strlit(":read-only");
    reveal_strlit(":read-write");
    reveal_with_fuel(seq_less_from, 8);
}

proof fn lemma_lookup_adjacent_127()
    ensures
        name_less(lookup_name(127), lookup_name(128)),
{
    reveal_strlit(":read-write");
    reveal_strlit(":required");
    reveal_with_fuel(seq_less_from, 5);
}

proof fn lemma_lookup_adjacent_128()
    ensures
        name_less(lookup_name(128), lookup_name(129)),
{
    reveal_strlit(":required");
    reveal_strlit(":right");
    reveal_with_fuel(seq_less_from, 4);
}

proof fn lemma_lookup_adjacent_129()
    ensures
        name_less(lookup_name(129), lookup_name(130)),
{
    reveal_strlit(":right");
    reveal_strlit(":root");
    reveal_with_fuel(seq_less_from, 4);
}

proof fn lemma_lookup_adjacent_130()
    ensures
        name_less(lookup_name(130), lookup_name(131)),
{
    reveal_strlit(":root");
    reveal_strlit(":scope");
    reveal_with_fuel(seq_less_from, 3);
}

proof fn lemma_lookup_adjacent_131()
    ensures
        name_less(lookup_name(131), lookup_name(132)),
{
    reveal_strlit(":scope");
    reveal_strlit(":seeking");
    reveal_with_fuel(seq_less_from, 4);
}

proof fn lemma_lookup_adjacent_132()
    ensures
        name_less(lookup_name(132), lookup_name(133)),
{
    reveal_strlit(":seeking");
    reveal_strlit(":snapped");
    reveal_with_fuel(seq_less_from, 4);
}

proof fn lemma_lookup_adjacent_133()
    ensures
        name_less(lookup_name(133), lookup_name(134)),
{
    reveal_strlit(":snapped");
    reveal_strlit(":snapped-block");
    reveal_with_fuel(seq_less_from, 10);
}

proof fn lemma_lookup_adjacent_134()
    ensures
        name_less(lookup_name(134), lookup_name(135)),
{
    reveal_strlit(":snapped-block");
    reveal_strlit(":snapped-inline");
    reveal_with_fuel(seq_less_from, 11);
}

proof fn lemma_lookup_adjacent_135()
    ensures
        name_less(lookup_name(135), lookup_name(136)),
{
    reveal_strlit(":snapped-inline");
    reveal_strlit(":snapped-x");
    reveal_with_fuel(seq_less_from, 11);
}

proof fn lemma_lookup_adjacent_136()
    ensures
        name_less(lookup_name(136), lookup_name(137)),
{
    reveal_strlit(":snapped-x");
    reveal_strlit(":snapped-y");
    reveal_with_fuel(seq_less_from, 11);
}

proof fn lemma_lookup_adjacent_137()
    ensures
        name_less(lookup_name(137), lookup_name(138)),
{
    reveal_strlit(":snapped-y");
    reveal_strlit(":stalled");
    reveal_with_fuel(seq_less_from, 4);
}

proof fn lemma_lookup_adjacent_138()
    ensures
        name_less(lookup_name(138), lookup_name(139)),
{
    reveal_strlit(":stalled");
    reveal_strlit(":start-of-page");
    reveal_with_fuel(seq_less_from, 6);
}

proof fn lemma_lookup_adjacent_139()
    ensures
        name_less(lookup_name(139), lookup_name(140)),
{
    reveal_strlit(":start-of-page");
    reveal_strlit(":state()");
    reveal_with_fuel(seq_less_from, 6);
}

proof fn lemma_lookup_adjacent_140()
    ensures
        name_less(lookup_name(140), lookup_name(141)),
{
    reveal_strlit(":state()");
    reveal_strlit(":target");
    reveal_with_fuel(seq_less_from, 3);
}

proof fn lemma_lookup_adjacent_141()
    ensures
        name_less(lookup_name(141), lookup_name(142)),
{
    reveal_strlit(":target");
    reveal_strlit(":target-after");
    reveal_with_fuel(seq_less_from, 9);
}

proof fn lemma_lookup_adjacent_142()
    ensures
        name_less(lookup_name(142), lookup_name(143)),
{
    reveal_strlit(":target-after");
    reveal_strlit(":target-before");
    reveal_with_fuel(seq_less_from, 10);
}

proof fn lemma_lookup_adjacent_143()
    ensures
        name_less(lookup_name(143), lookup_name(144)),
{
    reveal_strlit(":target-before");
    reveal_strlit(":target-current");
    reveal_with_fuel(seq_less_from, 10);
}

proof fn lemma_lookup_adjacent_144()
    ensures
        name_less(lookup_name(144), lookup_name(145)),
{
    reveal_strlit(":target-current");
    reveal_strlit(":unchecked");
    reveal_with_fuel(seq_less_from, 3);
}

proof fn lemma_lookup_adjacent_145()
    ensures
        name_less(lookup_name(145), lookup_name(146)),
{
    reveal_strlit(":unchecked");
    reveal_strlit(":user-invalid");
    reveal_with_fuel(seq_less_from, 4);
}

proof fn lemma_lookup_adjacent_146()
    ensures
        name_less(lookup_name(146), lookup_name(147)),
{
    reveal_strlit(":user-invalid");
    reveal_strlit(":user-valid");
    reveal_with_fuel(seq_less_from, 8);
}

proof fn lemma_lookup_adjacent_147()
    ensures
        name_less(lookup_name(147), lookup_name(148)),
{
    reveal_strlit(":user-valid");
    reveal_strlit(":valid");
    reveal_with_fuel(seq_less_from, 3);
}

proof fn lemma_lookup_adjacent_148()
    ensures
        name_less(lookup_name(148), lookup_name(149)),
{
    reveal_strlit(":valid");
    reveal_strlit(":visited");
    reveal_with_fuel(seq_less_from, 4);
}

proof fn lemma_lookup_adjacent_149()
    ensures
        name_less(lookup_name(149), lookup_name(150)),
{
    reveal_strlit(":visited");
    reveal_strlit(":volume-locked");
    reveal_with_fuel(seq_less_from, 4);
}

proof fn lemma_lookup_adjacent_150()
    ensures
        name_less(lookup_name(150), lookup_name(151)),
{
    reveal_strlit(":volume-locked");
    reveal_strlit(":where()");
    reveal_with_fuel(seq_less_from, 3);
}

proof fn lemma_lookup_adjacent_151()
    ensures
        name_less(lookup_name(151), lookup_name(152)),
{
    reveal_strlit(":where()");
    reveal_strlit(":xr-overlay");
    reveal_with_fuel(seq_less_from, 3);
}

proof fn lemma_lookup_sorted_upto_51()
    ensures
        lookup_sorted_upto(51),
{
    assert(lookup_sorted_upto(1));
    lemma_lookup_adjacent_0();
    assert(lookup_sorted_upto(2));
    lemma_lookup_adjacent_1();
    assert(lookup_sorted_upto(3));
    lemma_lookup_adjacent_2();
    assert(lookup_sorted_upto(4));
    lemma_lookup_adjacent_3();
    assert(lookup_sorted_upto(5));
    lemma_lookup_adjacent_4();
    assert(lookup_sorted_upto(6));
    lemma_lookup_adjacent_5();
    assert(lookup_sorted_upto(7));
    lemma_lookup_adjacent_6();
    assert(lookup_sorted_upto(8));
    lemma_lookup_adjacent_7();
    assert(lookup_sorted_upto(9));
    lemma_lookup_adjacent_8();
    assert(lookup_sorted_upto(10));
    lemma_lookup_adjacent_9();
    assert(lookup_sorted_upto(11));
    lemma_lookup_adjacent_10();
    assert(lookup_sorted_upto(12));
    lemma_lookup_adjacent_11();
    assert(lookup_sorted_upto(13));
    lemma_lookup_adjacent_12();
    assert(lookup_sorted_upto(14));
    lemma_lookup_adjacent_13();
    assert(lookup_sorted_upto(15));
    lemma_lookup_adjacent_14();
    assert(lookup_sorted_upto(16));
    lemma_lookup_adjacent_15();
    assert(lookup_sorted_upto(17));
    lemma_lookup_adjacent_16();
    assert(lookup_sorted_upto(18));
    lemma_lookup_adjacent_17();
    assert(lookup_sorted_upto(19));
    lemma_lookup_adjacent_18();
    assert(lookup_sorted_upto(20));
    lemma_lookup_adjacent_19();
    assert(lookup_sorted_upto(21));
    lemma_lookup_adjacent_20();
    assert(lookup_sorted_upto(22));
    lemma_lookup_adjacent_21();
    assert(lookup_sorted_upto(23));
    lemma_lookup_adjacent_22();
    assert(lookup_sorted_upto(24));
    lemma_lookup_adjacent_23();
    assert(lookup_sorted_upto(25));
    lemma_lookup_adjacent_24();
    assert(lookup_sorted_upto(26));
    lemma_lookup_adjacent_25();
    assert(lookup_sorted_upto(27));
    lemma_lookup_adjacent_26();
    assert(lookup_sorted_upto(28));
    lemma_lookup_adjacent_27();
    assert(lookup_sorted_upto(29));
    lemma_lookup_adjacent_28();
    assert(lookup_sorted_upto(30));
    lemma_lookup_adjacent_29();
    assert(lookup_sorted_upto(31));
    lemma_lookup_adjacent_30();
    assert(lookup_sorted_upto(32));
    lemma_lookup_adjacent_31();
    assert(lookup_sorted_upto(33));
    lemma_lookup_adjacent_32();
    assert(lookup_sorted_upto(34));
    lemma_lookup_adjacent_33();
    assert(lookup_sorted_upto(35));
    lemma_lookup_adjacent_34();
    assert(lookup_sorted_upto(36));
    lemma_lookup_adjacent_35();
    assert(lookup_sorted_upto(37));
    lemma_lookup_adjacent_36();
    assert(lookup_sorted_upto(38));
    lemma_lookup_adjacent_37();
    assert(lookup_sorted_upto(39));
    lemma_lookup_adjacent_38();
    assert(lookup_sorted_upto(40));
    lemma_lookup_adjacent_39();
    assert(lookup_sorted_upto(41));
    lemma_lookup_adjacent_40();
    assert(lookup_sorted_upto(42));
    lemma_lookup_adjacent_41();
    assert(lookup_sorted_upto(43));
    lemma_lookup_adjacent_42();
    assert(lookup_sorted_upto(44));
    lemma_lookup_adjacent_43();
    assert(lookup_sorted_upto(45));
    lemma_lookup_adjacent_44();
    assert(lookup_sorted_upto(46));
    lemma_lookup_adjacent_45();
    assert(lookup_sorted_upto(47));
    lemma_lookup_adjacent_46();
    assert(lookup_sorted_upto(48));
    lemma_lookup_adjacent_47();
    assert(lookup_sorted_upto(49));
    lemma_lookup_adjacent_48();
    assert(lookup_sorted_upto(50));
    lemma_lookup_adjacent_49();
    assert(lookup_sorted_upto(51));
}

proof fn lemma_lookup_sorted_upto_101()
    ensures
        lookup_sorted_upto(101),
{
    lemma_lookup_sorted_upto_51();
    lemma_lookup_adjacent_50();
    assert(lookup_sorted_upto(52));
    lemma_lookup_adjacent_51();
    assert(lookup_sorted_upto(53));
    lemma_lookup_adjacent_52();
    assert(lookup_sorted_upto(54));
    lemma_lookup_adjacent_53();
    assert(lookup_sorted_upto(55));
    lemma_lookup_adjacent_54();
    assert(lookup_sorted_upto(56));
    lemma_lookup_adjacent_55();
    assert(lookup_sorted_upto(57));
    lemma_lookup_adjacent_56();
    assert(lookup_sorted_upto(58));
    lemma_lookup_adjacent_57();
    assert(lookup_sorted_upto(59));
    lemma_lookup_adjacent_58();
    assert(lookup_sorted_upto(60));
    lemma_lookup_adjacent_59();
    assert(lookup_sorted_upto(61));
    lemma_lookup_adjacent_60();
    assert(lookup_sorted_upto(62));
    lemma_lookup_adjacent_61();
    assert(lookup_sorted_upto(63));
    lemma_lookup_adjacent_62();
    assert(lookup_sorted_upto(64));
    lemma_lookup_adjacent_63();
    assert(lookup_sorted_upto(65));
    lemma_lookup_adjacent_64();
    assert(lookup_sorted_upto(66));
    lemma_lookup_adjacent_65();
    assert(lookup_sorted_upto(67));
    lemma_lookup_adjacent_66();
    assert(lookup_sorted_upto(68));
    lemma_lookup_adjacent_67();
    assert(lookup_sorted_upto(69));
    lemma_lookup_adjacent_68();
    assert(lookup_sorted_upto(70));
    lemma_lookup_adjacent_69();
    assert(lookup_sorted_upto(71));
    lemma_lookup_adjacent_70();
    assert(lookup_sorted_upto(72));
    lemma_lookup_adjacent_71();
    assert(lookup_sorted_upto(73));
    lemma_lookup_adjacent_72();
    assert(lookup_sorted_upto(74));
    lemma_lookup_adjacent_73();
    assert(lookup_sorted_upto(75));
    lemma_lookup_adjacent_74();
    assert(lookup_sorted_upto(76));
    lemma_lookup_adjacent_75();
    assert(lookup_sorted_upto(77));
    lemma_lookup_adjacent_76();
    assert(lookup_sorted_upto(78));
    lemma_lookup_adjacent_77();
    assert(lookup_sorted_upto(79));
    lemma_lookup_adjacent_78();
    assert(lookup_sorted_upto(80));
    lemma_lookup_adjacent_79();
    assert(lookup_sorted_upto(81));
    lemma_lookup_adjacent_80();
    assert(lookup_sorted_upto(82));
    lemma_lookup_adjacent_81();
    assert(lookup_sorted_upto(83));
    lemma_lookup_adjacent_82();
    assert(lookup_sorted_upto(84));
    lemma_lookup_adjacent_83();
    assert(lookup_sorted_upto(85));
    lemma_lookup_adjacent_84();
    assert(lookup_sorted_upto(86));
    lemma_lookup_adjacent_85();
    assert(lookup_sorted_upto(87));
    lemma_lookup_adjacent_86();
    assert(lookup_sorted_upto(88));
    lemma_lookup_adjacent_87();
    assert(lookup_sorted_upto(89));
    lemma_lookup_adjacent_88();
    assert(lookup_sorted_upto(90));
    lemma_lookup_adjacent_89();
    assert(lookup_sorted_upto(91));
    lemma_lookup_adjacent_90();
    assert(lookup_sorted_upto(92));
    lemma_lookup_adjacent_91();
    assert(lookup_sorted_upto(93));
    lemma_lookup_adjacent_92();
    assert(lookup_sorted_upto(94));
    lemma_lookup_adjacent_93();
    assert(lookup_sorted_upto(95));
    lemma_lookup_adjacent_94();
    assert(lookup_sorted_upto(96));
    lemma_lookup_adjacent_95();
    assert(lookup_sorted_upto(97));
    lemma_lookup_adjacent_96();
    assert(lookup_sorted_upto(98));
    lemma_lookup_adjacent_97();
    assert(lookup_sorted_upto(99));
    lemma_lookup_adjacent_98();
    assert(lookup_sorted_upto(100));
    lemma_lookup_adjacent_99();
    assert(lookup_sorted_upto(101));
}

proof fn lemma_lookup_sorted_upto_151()
    ensures
        lookup_sorted_upto(151),
{
    lemma_lookup_sorted_upto_101();
    lemma_lookup_adjacent_100();
    assert(lookup_sorted_upto(102));
    lemma_lookup_adjacent_101();
    assert(lookup_sorted_upto(103));
    lemma_lookup_adjacent_102();
    assert(lookup_sorted_upto(104));
    lemma_lookup_adjacent_103();
    assert(lookup_sorted_upto(105));
    lemma_lookup_adjacent_104();
    assert(lookup_sorted_upto(106));
    lemma_lookup_adjacent_105();
    assert(lookup_sorted_upto(107));
    lemma_lookup_adjacent_106();
    assert(lookup_sorted_upto(108));
    lemma_lookup_adjacent_107();
    assert(lookup_sorted_upto(109));
    lemma_lookup_adjacent_108();
    assert(lookup_sorted_upto(110));
    lemma_lookup_adjacent_109();
    assert(lookup_sorted_upto(111));
    lemma_lookup_adjacent_110();
    assert(lookup_sorted_upto(112));
    lemma_lookup_adjacent_111();
    assert(lookup_sorted_upto(113));
    lemma_lookup_adjacent_112();
    assert(lookup_sorted_upto(114));
    lemma_lookup_adjacent_113();
    assert(lookup_sorted_upto(115));
    lemma_lookup_adjacent_114();
    assert(lookup_sorted_upto(116));
    lemma_lookup_adjacent_115();
    assert(lookup_sorted_upto(117));
    lemma_lookup_adjacent_116();
    assert(lookup_sorted_upto(118));
    lemma_lookup_adjacent_117();
    assert(lookup_sorted_upto(119));
    lemma_lookup_adjacent_118();
    assert(lookup_sorted_upto(120));
    lemma_lookup_adjacent_119();
    assert(lookup_sorted_upto(121));
    lemma_lookup_adjacent_120();
    assert(lookup_sorted_upto(122));
    lemma_lookup_adjacent_121();
    assert(lookup_sorted_upto(123));
    lemma_lookup_adjacent_122();
    assert(lookup_sorted_upto(124));
    lemma_lookup_adjacent_123();
    assert(lookup_sorted_upto(125));
    lemma_lookup_adjacent_124();
    assert(lookup_sorted_upto(126));
    lemma_lookup_adjacent_125();
    assert(lookup_sorted_upto(127));
    lemma_lookup_adjacent_126();
    assert(lookup_sorted_upto(128));
    lemma_lookup_adjacent_127();
    assert(lookup_sorted_upto(129));
    lemma_lookup_adjacent_128();
    assert(lookup_sorted_upto(130));
    lemma_lookup_adjacent_129();
    assert(lookup_sorted_upto(131));
    lemma_lookup_adjacent_130();
    assert(lookup_sorted_upto(132));
    lemma_lookup_adjacent_131();
    assert(lookup_sorted_upto(133));
    lemma_lookup_adjacent_132();
    assert(lookup_sorted_upto(134));
    lemma_lookup_adjacent_133();
    assert(lookup_sorted_upto(135));
    lemma_lookup_adjacent_134();
    assert(lookup_sorted_upto(136));
    lemma_lookup_adjacent_135();
    assert(lookup_sorted_upto(137));
    lemma_lookup_adjacent_136();
    assert(lookup_sorted_upto(138));
    lemma_lookup_adjacent_137();
    assert(lookup_sorted_upto(139));
    lemma_lookup_adjacent_138();
    assert(lookup_sorted_upto(140));
    lemma_lookup_adjacent_139();
    assert(lookup_sorted_upto(141));
    lemma_lookup_adjacent_140();
    assert(lookup_sorted_upto(142));
    lemma_lookup_adjacent_141();
    assert(lookup_sorted_upto(143));
    lemma_lookup_adjacent_142();
    assert(lookup_sorted_upto(144));
    lemma_lookup_adjacent_143();
    assert(lookup_sorted_upto(145));
    lemma_lookup_adjacent_144();
    assert(lookup_sorted_upto(146));
    lemma_lookup_adjacent_145();
    assert(lookup_sorted_upto(147));
    lemma_lookup_adjacent_146();
    assert(lookup_sorted_upto(148));
    lemma_lookup_adjacent_147();
    assert(lookup_sorted_upto(149));
    lemma_lookup_adjacent_148();
    assert(lookup_sorted_upto(150));
    lemma_lookup_adjacent_149();
    assert(lookup_sorted_upto(151));
}

proof fn lemma_lookup_sorted_upto_153()
    ensures
        lookup_sorted_upto(153),
{
    lemma_lookup_sorted_upto_151();
    lemma_lookup_adjacent_150();
    assert(lookup_sorted_upto(152));
    lemma_lookup_adjacent_151();
    assert(lookup_sorted_upto(153));
}

proof fn lemma_sorted_pairs(n: usize)
    requires
        lookup_sorted_upto(n),
    ensures
        forall|i: usize, j: usize| i < j < n ==> name_less(#[trigger] lookup_name(i), #[trigger] lookup_name(j)),
    decreases n,
{
    if n > 1 {
        let m = (n - 1) as usize;
        lemma_sorted_pairs(m);
        assert forall|i: usize, j: usize| i < j < n implies name_less(#[trigger] lookup_name(i), #[trigger] lookup_name(j)) by {
            if j == m && i + 1 < m {
                lemma_name_less_transitive(lookup_name(i), lookup_name((m - 1) as usize), lookup_name(m));
            }
        }
    }
}

/// The lookup table is in strictly increasing name order.
pub proof fn lemma_lookup_sorted()
    ensures
        forall|i: usize, j: usize| i < j < LOOKUP_LEN ==> name_less(#[trigger] lookup_name(i), #[trigger] lookup_name(j)),
{
    lemma_lookup_sorted_upto_153();
    lemma_sorted_pairs(LOOKUP_LEN);
}

} // verus!
