//! The names that `CssProperty::from_name` searches, in the order it searches them,
//! and the proof that this order is strictly increasing.
use vstd::prelude::*;

use crate::text::{lemma_name_less_transitive, name_chars_from, name_less, seq_less_from};

verus! {

/// How many names `from_name` looks up.
pub const LOOKUP_LEN: usize = 816;

/// The `i`-th name of the lookup table.
pub open spec fn lookup_name(i: usize) -> Seq<char> {
    match i {
        0 => "-webkit-align-content"@,
        1 => "-webkit-align-items"@,
        2 => "-webkit-align-self"@,
        3 => "-webkit-animation"@,
        4 => "-webkit-animation-delay"@,
        5 => "-webkit-animation-direction"@,
        6 => "-webkit-animation-duration"@,
        7 => "-webkit-animation-fill-mode"@,
        8 => "-webkit-animation-iteration-count"@,
        9 => "-webkit-animation-name"@,
        10 => "-webkit-animation-play-state"@,
        11 => "-webkit-animation-timing-function"@,
        12 => "-webkit-appearance"@,
        13 => "-webkit-backface-visibility"@,
        14 => "-webkit-background-clip"@,
        15 => "-webkit-background-origin"@,
        16 => "-webkit-background-size"@,
        17 => "-webkit-border-bottom-left-radius"@,
        18 => "-webkit-border-bottom-right-radius"@,
        19 => "-webkit-border-radius"@,
        20 => "-webkit-border-top-left-radius"@,
        21 => "-webkit-border-top-right-radius"@,
        22 => "-webkit-box-align"@,
        23 => "-webkit-box-flex"@,
        24 => "-webkit-box-ordinal-group"@,
        25 => "-webkit-box-orient"@,
        26 => "-webkit-box-pack"@,
        27 => "-webkit-box-shadow"@,
        28 => "-webkit-box-sizing"@,
        29 => "-webkit-filter"@,
        30 => "-webkit-flex"@,
        31 => "-webkit-flex-basis"@,
        32 => "-webkit-flex-direction"@,
        33 => "-webkit-flex-flow"@,
        34 => "-webkit-flex-grow"@,
        35 => "-webkit-flex-shrink"@,
        36 => "-webkit-flex-wrap"@,
        37 => "-webkit-justify-content"@,
        38 => "-webkit-line-clamp"@,
        39 => "-webkit-mask"@,
        40 => "-webkit-mask-box-image"@,
        41 => "-webkit-mask-box-image-outset"@,
        42 => "-webkit-mask-box-image-repeat"@,
        43 => "-webkit-mask-box-image-slice"@,
        44 => "-webkit-mask-box-image-source"@,
        45 => "-webkit-mask-box-image-width"@,
        46 => "-webkit-mask-clip"@,
        47 => "-webkit-mask-composite"@,
        48 => "-webkit-mask-image"@,
        49 => "-webkit-mask-origin"@,
        50 => "-webkit-mask-position"@,
        51 => "-webkit-mask-repeat"@,
        52 => "-webkit-mask-size"@,
        53 => "-webkit-order"@,
        54 => "-webkit-perspective"@,
        55 => "-webkit-perspective-origin"@,
        56 => "-webkit-text-fill-color"@,
        57 => "-webkit-text-size-adjust"@,
        58 => "-webkit-text-stroke"@,
        59 => "-webkit-text-stroke-color"@,
        60 => "-webkit-text-stroke-width"@,
        61 => "-webkit-transform"@,
        62 => "-webkit-transform-origin"@,
        63 => "-webkit-transform-style"@,
        64 => "-webkit-transition"@,
        65 => "-webkit-transition-delay"@,
        66 => "-webkit-transition-duration"@,
        67 => "-webkit-transition-property"@,
        68 => "-webkit-transition-timing-function"@,
        69 => "-webkit-user-select"@,
        70 => "accent-color"@,
        71 => "align-content"@,
        72 => "align-items"@,
        73 => "align-self"@,
        74 => "alignment-baseline"@,
        75 => "all"@,
        76 => "anchor-name"@,
        77 => "anchor-scope"@,
        78 => "animation"@,
        79 => "animation-composition"@,
        80 => "animation-delay"@,
        81 => "animation-direction"@,
        82 => "animation-duration"@,
        83 => "animation-fill-mode"@,
        84 => "animation-iteration-count"@,
        85 => "animation-name"@,
        86 => "animation-play-state"@,
        87 => "animation-range"@,
        88 => "animation-range-center"@,
        89 => "animation-range-end"@,
        90 => "animation-range-start"@,
        91 => "animation-timeline"@,
        92 => "animation-timing-function"@,
        93 => "animation-trigger"@,
        94 => "appearance"@,
        95 => "aspect-ratio"@,
        96 => "backdrop-filter"@,
        97 => "backface-visibility"@,
        98 => "background"@,
        99 => "background-attachment"@,
        _ => lookup_name_from_100(i),
    }
}

/// `lookup_name` from index 100 on.
pub open spec fn lookup_name_from_100(i: usize) -> Seq<char> {
    match i {
        100 => "background-blend-mode"@,
        101 => "background-clip"@,
        102 => "background-color"@,
        103 => "background-image"@,
        104 => "background-origin"@,
        105 => "background-position"@,
        106 => "background-position-block"@,
        107 => "background-position-inline"@,
        108 => "background-position-x"@,
        109 => "background-position-y"@,
        110 => "background-repeat"@,
        111 => "background-repeat-block"@,
        112 => "background-repeat-inline"@,
        113 => "background-repeat-x"@,
        114 => "background-repeat-y"@,
        115 => "background-size"@,
        116 => "background-tbd"@,
        117 => "baseline-shift"@,
        118 => "baseline-source"@,
        119 => "block-ellipsis"@,
        120 => "block-size"@,
        121 => "block-step"@,
        122 => "block-step-align"@,
        123 => "block-step-insert"@,
        124 => "block-step-round"@,
        125 => "block-step-size"@,
        126 => "bookmark-label"@,
        127 => "bookmark-level"@,
        128 => "bookmark-state"@,
        129 => "border"@,
        130 => "border-block"@,
        131 => "border-block-clip"@,
        132 => "border-block-color"@,
        133 => "border-block-end"@,
        134 => "border-block-end-clip"@,
        135 => "border-block-end-color"@,
        136 => "border-block-end-radius"@,
        137 => "border-block-end-style"@,
        138 => "border-block-end-width"@,
        139 => "border-block-start"@,
        140 => "border-block-start-clip"@,
        141 => "border-block-start-color"@,
        142 => "border-block-start-radius"@,
        143 => "border-block-start-style"@,
        144 => "border-block-start-width"@,
        145 => "border-block-style"@,
        146 => "border-block-width"@,
        147 => "border-bottom"@,
        148 => "border-bottom-clip"@,
        149 => "border-bottom-color"@,
        150 => "border-bottom-left-radius"@,
        151 => "border-bottom-radius"@,
        152 => "border-bottom-right-radius"@,
        153 => "border-bottom-style"@,
        154 => "border-bottom-width"@,
        155 => "border-boundary"@,
        156 => "border-clip"@,
        157 => "border-collapse"@,
        158 => "border-color"@,
        159 => "border-end-end-radius"@,
        160 => "border-end-start-radius"@,
        161 => "border-image"@,
        162 => "border-image-outset"@,
        163 => "border-image-repeat"@,
        164 => "border-image-slice"@,
        165 => "border-image-source"@,
        166 => "border-image-width"@,
        167 => "border-inline"@,
        168 => "border-inline-clip"@,
        169 => "border-inline-color"@,
        170 => "border-inline-end"@,
        171 => "border-inline-end-clip"@,
        172 => "border-inline-end-color"@,
        173 => "border-inline-end-radius"@,
        174 => "border-inline-end-style"@,
        175 => "border-inline-end-width"@,
        176 => "border-inline-start"@,
        177 => "border-inline-start-clip"@,
        178 => "border-inline-start-color"@,
        179 => "border-inline-start-radius"@,
        180 => "border-inline-start-style"@,
        181 => "border-inline-start-width"@,
        182 => "border-inline-style"@,
        183 => "border-inline-width"@,
        184 => "border-left"@,
        185 => "border-left-clip"@,
        186 => "border-left-color"@,
        187 => "border-left-radius"@,
        188 => "border-left-style"@,
        189 => "border-left-width"@,
        190 => "border-limit"@,
        191 => "border-radius"@,
        192 => "border-right"@,
        193 => "border-right-clip"@,
        194 => "border-right-color"@,
        195 => "border-right-radius"@,
        196 => "border-right-style"@,
        197 => "border-right-width"@,
        198 => "border-shape"@,
        199 => "border-spacing"@,
        _ => lookup_name_from_200(i),
    }
}

/// `lookup_name` from index 200 on.
pub open spec fn lookup_name_from_200(i: usize) -> Seq<char> {
    match i {
        200 => "border-start-end-radius"@,
        201 => "border-start-start-radius"@,
        202 => "border-style"@,
        203 => "border-top"@,
        204 => "border-top-clip"@,
        205 => "border-top-color"@,
        206 => "border-top-left-radius"@,
        207 => "border-top-radius"@,
        208 => "border-top-right-radius"@,
        209 => "border-top-style"@,
        210 => "border-top-width"@,
        211 => "border-width"@,
        212 => "bottom"@,
        213 => "box-decoration-break"@,
        214 => "box-shadow"@,
        215 => "box-shadow-blur"@,
        216 => "box-shadow-color"@,
        217 => "box-shadow-offset"@,
        218 => "box-shadow-position"@,
        219 => "box-shadow-spread"@,
        220 => "box-sizing"@,
        221 => "box-snap"@,
        222 => "break-after"@,
        223 => "break-before"@,
        224 => "break-inside"@,
        225 => "caption-side"@,
        226 => "caret"@,
        227 => "caret-animation"@,
        228 => "caret-color"@,
        229 => "caret-shape"@,
        230 => "clear"@,
        231 => "clip"@,
        232 => "clip-path"@,
        233 => "clip-rule"@,
        234 => "color"@,
        235 => "color-adjust"@,
        236 => "color-interpolation"@,
        237 => "color-interpolation-filters"@,
        238 => "color-scheme"@,
        239 => "column-count"@,
        240 => "column-fill"@,
        241 => "column-gap"@,
        242 => "column-height"@,
        243 => "column-rule"@,
        244 => "column-rule-break"@,
        245 => "column-rule-color"@,
        246 => "column-rule-inset"@,
        247 => "column-rule-inset-cap"@,
        248 => "column-rule-inset-cap-end"@,
        249 => "column-rule-inset-cap-start"@,
        250 => "column-rule-inset-end"@,
        251 => "column-rule-inset-junction"@,
        252 => "column-rule-inset-junction-end"@,
        253 => "column-rule-inset-junction-start"@,
        254 => "column-rule-inset-start"@,
        255 => "column-rule-style"@,
        256 => "column-rule-visibility-items"@,
        257 => "column-rule-width"@,
        258 => "column-span"@,
        259 => "column-width"@,
        260 => "column-wrap"@,
        261 => "columns"@,
        262 => "contain"@,
        263 => "contain-intrinsic-block-size"@,
        264 => "contain-intrinsic-height"@,
        265 => "contain-intrinsic-inline-size"@,
        266 => "contain-intrinsic-size"@,
        267 => "contain-intrinsic-width"@,
        268 => "container"@,
        269 => "container-name"@,
        270 => "container-type"@,
        271 => "content"@,
        272 => "content-visibility"@,
        273 => "continue"@,
        274 => "copy-into"@,
        275 => "corner"@,
        276 => "corner-block-end"@,
        277 => "corner-block-end-shape"@,
        278 => "corner-block-start"@,
        279 => "corner-block-start-shape"@,
        280 => "corner-bottom"@,
        281 => "corner-bottom-left"@,
        282 => "corner-bottom-left-shape"@,
        283 => "corner-bottom-right"@,
        284 => "corner-bottom-right-shape"@,
        285 => "corner-bottom-shape"@,
        286 => "corner-end-end"@,
        287 => "corner-end-end-shape"@,
        288 => "corner-end-start"@,
        289 => "corner-end-start-shape"@,
        290 => "corner-inline-end"@,
        291 => "corner-inline-end-shape"@,
        292 => "corner-inline-start"@,
        293 => "corner-inline-start-shape"@,
        294 => "corner-left"@,
        295 => "corner-left-shape"@,
        296 => "corner-right"@,
        297 => "corner-right-shape"@,
        298 => "corner-shape"@,
        299 => "corner-start-end"@,
        _ => lookup_name_from_300(i),
    }
}

/// `lookup_name` from index 300 on.
pub open spec fn lookup_name_from_300(i: usize) -> Seq<char> {
    match i {
        300 => "corner-start-end-shape"@,
        301 => "corner-start-start"@,
        302 => "corner-start-start-shape"@,
        303 => "corner-top"@,
        304 => "corner-top-left"@,
        305 => "corner-top-left-shape"@,
        306 => "corner-top-right"@,
        307 => "corner-top-right-shape"@,
        308 => "corner-top-shape"@,
        309 => "counter-increment"@,
        310 => "counter-reset"@,
        311 => "counter-set"@,
        312 => "cue"@,
        313 => "cue-after"@,
        314 => "cue-before"@,
        315 => "cursor"@,
        316 => "cx"@,
        317 => "cy"@,
        318 => "d"@,
        319 => "direction"@,
        320 => "display"@,
        321 => "dominant-baseline"@,
        322 => "dynamic-range-limit"@,
        323 => "empty-cells"@,
        324 => "event-trigger"@,
        325 => "event-trigger-name"@,
        326 => "event-trigger-source"@,
        327 => "field-sizing"@,
        328 => "fill"@,
        329 => "fill-break"@,
        330 => "fill-color"@,
        331 => "fill-image"@,
        332 => "fill-opacity"@,
        333 => "fill-origin"@,
        334 => "fill-position"@,
        335 => "fill-repeat"@,
        336 => "fill-rule"@,
        337 => "fill-size"@,
        338 => "filter"@,
        339 => "flex"@,
        340 => "flex-basis"@,
        341 => "flex-direction"@,
        342 => "flex-flow"@,
        343 => "flex-grow"@,
        344 => "flex-shrink"@,
        345 => "flex-wrap"@,
        346 => "float"@,
        347 => "float-defer"@,
        348 => "float-offset"@,
        349 => "float-reference"@,
        350 => "flood-color"@,
        351 => "flood-opacity"@,
        352 => "flow-from"@,
        353 => "flow-into"@,
        354 => "flow-tolerance"@,
        355 => "font"@,
        356 => "font-family"@,
        357 => "font-feature-settings"@,
        358 => "font-kerning"@,
        359 => "font-language-override"@,
        360 => "font-optical-sizing"@,
        361 => "font-palette"@,
        362 => "font-size"@,
        363 => "font-size-adjust"@,
        364 => "font-stretch"@,
        365 => "font-style"@,
        366 => "font-synthesis"@,
        367 => "font-synthesis-position"@,
        368 => "font-synthesis-small-caps"@,
        369 => "font-synthesis-style"@,
        370 => "font-synthesis-weight"@,
        371 => "font-variant"@,
        372 => "font-variant-alternates"@,
        373 => "font-variant-caps"@,
        374 => "font-variant-east-asian"@,
        375 => "font-variant-emoji"@,
        376 => "font-variant-ligatures"@,
        377 => "font-variant-numeric"@,
        378 => "font-variant-position"@,
        379 => "font-variation-settings"@,
        380 => "font-weight"@,
        381 => "font-width"@,
        382 => "footnote-display"@,
        383 => "footnote-policy"@,
        384 => "forced-color-adjust"@,
        385 => "frame-sizing"@,
        386 => "gap"@,
        387 => "glyph-orientation-vertical"@,
        388 => "grid"@,
        389 => "grid-area"@,
        390 => "grid-auto-columns"@,
        391 => "grid-auto-flow"@,
        392 => "grid-auto-rows"@,
        393 => "grid-column"@,
        394 => "grid-column-end"@,
        395 => "grid-column-gap"@,
        396 => "grid-column-start"@,
        397 => "grid-gap"@,
        398 => "grid-row"@,
        399 => "grid-row-end"@,
        _ => lookup_name_from_400(i),
    }
}

/// `lookup_name` from index 400 on.
pub open spec fn lookup_name_from_400(i: usize) -> Seq<char> {
    match i {
        400 => "grid-row-gap"@,
        401 => "grid-row-start"@,
        402 => "grid-template"@,
        403 => "grid-template-areas"@,
        404 => "grid-template-columns"@,
        405 => "grid-template-rows"@,
        406 => "hanging-punctuation"@,
        407 => "height"@,
        408 => "hyphenate-character"@,
        409 => "hyphenate-limit-chars"@,
        410 => "hyphenate-limit-last"@,
        411 => "hyphenate-limit-lines"@,
        412 => "hyphenate-limit-zone"@,
        413 => "hyphens"@,
        414 => "image-animation"@,
        415 => "image-orientation"@,
        416 => "image-rendering"@,
        417 => "image-resolution"@,
        418 => "initial-letter"@,
        419 => "initial-letter-align"@,
        420 => "initial-letter-wrap"@,
        421 => "inline-size"@,
        422 => "inline-sizing"@,
        423 => "input-security"@,
        424 => "inset"@,
        425 => "inset-block"@,
        426 => "inset-block-end"@,
        427 => "inset-block-start"@,
        428 => "inset-inline"@,
        429 => "inset-inline-end"@,
        430 => "inset-inline-start"@,
        431 => "interactivity"@,
        432 => "interest-delay"@,
        433 => "interest-delay-end"@,
        434 => "interest-delay-start"@,
        435 => "interpolate-size"@,
        436 => "isolation"@,
        437 => "justify-content"@,
        438 => "justify-items"@,
        439 => "justify-self"@,
        440 => "left"@,
        441 => "letter-spacing"@,
        442 => "lighting-color"@,
        443 => "line-break"@,
        444 => "line-clamp"@,
        445 => "line-fit-edge"@,
        446 => "line-grid"@,
        447 => "line-height"@,
        448 => "line-height-step"@,
        449 => "line-padding"@,
        450 => "line-snap"@,
        451 => "link-parameters"@,
        452 => "list-style"@,
        453 => "list-style-image"@,
        454 => "list-style-position"@,
        455 => "list-style-type"@,
        456 => "margin"@,
        457 => "margin-block"@,
        458 => "margin-block-end"@,
        459 => "margin-block-start"@,
        460 => "margin-bottom"@,
        461 => "margin-break"@,
        462 => "margin-inline"@,
        463 => "margin-inline-end"@,
        464 => "margin-inline-start"@,
        465 => "margin-left"@,
        466 => "margin-right"@,
        467 => "margin-top"@,
        468 => "margin-trim"@,
        469 => "marker"@,
        470 => "marker-end"@,
        471 => "marker-mid"@,
        472 => "marker-side"@,
        473 => "marker-start"@,
        474 => "mask"@,
        475 => "mask-border"@,
        476 => "mask-border-mode"@,
        477 => "mask-border-outset"@,
        478 => "mask-border-repeat"@,
        479 => "mask-border-slice"@,
        480 => "mask-border-source"@,
        481 => "mask-border-width"@,
        482 => "mask-clip"@,
        483 => "mask-composite"@,
        484 => "mask-image"@,
        485 => "mask-mode"@,
        486 => "mask-origin"@,
        487 => "mask-position"@,
        488 => "mask-repeat"@,
        489 => "mask-size"@,
        490 => "mask-type"@,
        491 => "math-depth"@,
        492 => "math-shift"@,
        493 => "math-style"@,
        494 => "max-block-size"@,
        495 => "max-height"@,
        496 => "max-inline-size"@,
        497 => "max-lines"@,
        498 => "max-width"@,
        499 => "min-block-size"@,
        _ => lookup_name_from_500(i),
    }
}

/// `lookup_name` from index 500 on.
pub open spec fn lookup_name_from_500(i: usize) -> Seq<char> {
    match i {
        500 => "min-height"@,
        501 => "min-inline-size"@,
        502 => "min-intrinsic-sizing"@,
        503 => "min-width"@,
        504 => "mix-blend-mode"@,
        505 => "nav-down"@,
        506 => "nav-left"@,
        507 => "nav-right"@,
        508 => "nav-up"@,
        509 => "object-fit"@,
        510 => "object-position"@,
        511 => "object-view-box"@,
        512 => "offset"@,
        513 => "offset-anchor"@,
        514 => "offset-distance"@,
        515 => "offset-path"@,
        516 => "offset-position"@,
        517 => "offset-rotate"@,
        518 => "opacity"@,
        519 => "order"@,
        520 => "orphans"@,
        521 => "outline"@,
        522 => "outline-color"@,
        523 => "outline-offset"@,
        524 => "outline-style"@,
        525 => "outline-width"@,
        526 => "overflow"@,
        527 => "overflow-anchor"@,
        528 => "overflow-block"@,
        529 => "overflow-clip-margin"@,
        530 => "overflow-clip-margin-block"@,
        531 => "overflow-clip-margin-block-end"@,
        532 => "overflow-clip-margin-block-start"@,
        533 => "overflow-clip-margin-bottom"@,
        534 => "overflow-clip-margin-inline"@,
        535 => "overflow-clip-margin-inline-end"@,
        536 => "overflow-clip-margin-inline-start"@,
        537 => "overflow-clip-margin-left"@,
        538 => "overflow-clip-margin-right"@,
        539 => "overflow-clip-margin-top"@,
        540 => "overflow-inline"@,
        541 => "overflow-wrap"@,
        542 => "overflow-x"@,
        543 => "overflow-y"@,
        544 => "overlay"@,
        545 => "overscroll-behavior"@,
        546 => "overscroll-behavior-block"@,
        547 => "overscroll-behavior-inline"@,
        548 => "overscroll-behavior-x"@,
        549 => "overscroll-behavior-y"@,
        550 => "padding"@,
        551 => "padding-block"@,
        552 => "padding-block-end"@,
        553 => "padding-block-start"@,
        554 => "padding-bottom"@,
        555 => "padding-inline"@,
        556 => "padding-inline-end"@,
        557 => "padding-inline-start"@,
        558 => "padding-left"@,
        559 => "padding-right"@,
        560 => "padding-top"@,
        561 => "page"@,
        562 => "page-break-after"@,
        563 => "page-break-before"@,
        564 => "page-break-inside"@,
        565 => "paint-order"@,
        566 => "path-length"@,
        567 => "pause"@,
        568 => "pause-after"@,
        569 => "pause-before"@,
        570 => "perspective"@,
        571 => "perspective-origin"@,
        572 => "place-content"@,
        573 => "place-items"@,
        574 => "place-self"@,
        575 => "pointer-events"@,
        576 => "pointer-timeline"@,
        577 => "pointer-timeline-axis"@,
        578 => "pointer-timeline-name"@,
        579 => "position"@,
        580 => "position-anchor"@,
        581 => "position-area"@,
        582 => "position-try"@,
        583 => "position-try-fallbacks"@,
        584 => "position-try-order"@,
        585 => "position-visibility"@,
        586 => "print-color-adjust"@,
        587 => "quotes"@,
        588 => "r"@,
        589 => "reading-flow"@,
        590 => "reading-order"@,
        591 => "region-fragment"@,
        592 => "resize"@,
        593 => "rest"@,
        594 => "rest-after"@,
        595 => "rest-before"@,
        596 => "right"@,
        597 => "rotate"@,
        598 => "row-gap"@,
        599 => "row-rule"@,
        _ => lookup_name_from_600(i),
    }
}

/// `lookup_name` from index 600 on.
pub open spec fn lookup_name_from_600(i: usize) -> Seq<char> {
    match i {
        600 => "row-rule-break"@,
        601 => "row-rule-color"@,
        602 => "row-rule-inset"@,
        603 => "row-rule-inset-cap"@,
        604 => "row-rule-inset-cap-end"@,
        605 => "row-rule-inset-cap-start"@,
        606 => "row-rule-inset-end"@,
        607 => "row-rule-inset-junction"@,
        608 => "row-rule-inset-junction-end"@,
        609 => "row-rule-inset-junction-start"@,
        610 => "row-rule-inset-start"@,
        611 => "row-rule-style"@,
        612 => "row-rule-visibility-items"@,
        613 => "row-rule-width"@,
        614 => "ruby-align"@,
        615 => "ruby-merge"@,
        616 => "ruby-overhang"@,
        617 => "ruby-position"@,
        618 => "rule"@,
        619 => "rule-break"@,
        620 => "rule-color"@,
        621 => "rule-inset"@,
        622 => "rule-inset-cap"@,
        623 => "rule-inset-end"@,
        624 => "rule-inset-junction"@,
        625 => "rule-inset-start"@,
        626 => "rule-overlap"@,
        627 => "rule-style"@,
        628 => "rule-visibility-items"@,
        629 => "rule-width"@,
        630 => "rx"@,
        631 => "ry"@,
        632 => "scale"@,
        633 => "scroll-behavior"@,
        634 => "scroll-initial-target"@,
        635 => "scroll-margin"@,
        636 => "scroll-margin-block"@,
        637 => "scroll-margin-block-end"@,
        638 => "scroll-margin-block-start"@,
        639 => "scroll-margin-bottom"@,
        640 => "scroll-margin-inline"@,
        641 => "scroll-margin-inline-end"@,
        642 => "scroll-margin-inline-start"@,
        643 => "scroll-margin-left"@,
        644 => "scroll-margin-right"@,
        645 => "scroll-margin-top"@,
        646 => "scroll-marker-group"@,
        647 => "scroll-padding"@,
        648 => "scroll-padding-block"@,
        649 => "scroll-padding-block-end"@,
        650 => "scroll-padding-block-start"@,
        651 => "scroll-padding-bottom"@,
        652 => "scroll-padding-inline"@,
        653 => "scroll-padding-inline-end"@,
        654 => "scroll-padding-inline-start"@,
        655 => "scroll-padding-left"@,
        656 => "scroll-padding-right"@,
        657 => "scroll-padding-top"@,
        658 => "scroll-snap-align"@,
        659 => "scroll-snap-stop"@,
        660 => "scroll-snap-type"@,
        661 => "scroll-target-group"@,
        662 => "scroll-timeline"@,
        663 => "scroll-timeline-axis"@,
        664 => "scroll-timeline-name"@,
        665 => "scrollbar-color"@,
        666 => "scrollbar-gutter"@,
        667 => "scrollbar-inset"@,
        668 => "scrollbar-min-thumb-size"@,
        669 => "scrollbar-mode"@,
        670 => "scrollbar-width"@,
        671 => "shape-image-threshold"@,
        672 => "shape-inside"@,
        673 => "shape-margin"@,
        674 => "shape-outside"@,
        675 => "shape-padding"@,
        676 => "shape-rendering"@,
        677 => "slider-orientation"@,
        678 => "spatial-navigation-action"@,
        679 => "spatial-navigation-contain"@,
        680 => "spatial-navigation-function"@,
        681 => "speak"@,
        682 => "speak-as"@,
        683 => "stop-color"@,
        684 => "stop-opacity"@,
        685 => "string-set"@,
        686 => "stroke"@,
        687 => "stroke-align"@,
        688 => "stroke-alignment"@,
        689 => "stroke-break"@,
        690 => "stroke-color"@,
        691 => "stroke-dash-corner"@,
        692 => "stroke-dash-justify"@,
        693 => "stroke-dashadjust"@,
        694 => "stroke-dasharray"@,
        695 => "stroke-dashcorner"@,
        696 => "stroke-dashoffset"@,
        697 => "stroke-image"@,
        698 => "stroke-linecap"@,
        699 => "stroke-linejoin"@,
        _ => lookup_name_from_700(i),
    }
}

/// `lookup_name` from index 700 on.
pub open spec fn lookup_name_from_700(i: usize) -> Seq<char> {
    match i {
        700 => "stroke-miterlimit"@,
        701 => "stroke-opacity"@,
        702 => "stroke-origin"@,
        703 => "stroke-position"@,
        704 => "stroke-repeat"@,
        705 => "stroke-size"@,
        706 => "stroke-width"@,
        707 => "tab-size"@,
        708 => "table-layout"@,
        709 => "text-align"@,
        710 => "text-align-all"@,
        711 => "text-align-last"@,
        712 => "text-anchor"@,
        713 => "text-autospace"@,
        714 => "text-box"@,
        715 => "text-box-edge"@,
        716 => "text-box-trim"@,
        717 => "text-combine-upright"@,
        718 => "text-decoration"@,
        719 => "text-decoration-color"@,
        720 => "text-decoration-inset"@,
        721 => "text-decoration-line"@,
        722 => "text-decoration-skip"@,
        723 => "text-decoration-skip-box"@,
        724 => "text-decoration-skip-ink"@,
        725 => "text-decoration-skip-self"@,
        726 => "text-decoration-skip-spaces"@,
        727 => "text-decoration-style"@,
        728 => "text-decoration-thickness"@,
        729 => "text-emphasis"@,
        730 => "text-emphasis-color"@,
        731 => "text-emphasis-position"@,
        732 => "text-emphasis-skip"@,
        733 => "text-emphasis-style"@,
        734 => "text-fit"@,
        735 => "text-group-align"@,
        736 => "text-indent"@,
        737 => "text-justify"@,
        738 => "text-orientation"@,
        739 => "text-overflow"@,
        740 => "text-rendering"@,
        741 => "text-shadow"@,
        742 => "text-size-adjust"@,
        743 => "text-spacing"@,
        744 => "text-spacing-trim"@,
        745 => "text-transform"@,
        746 => "text-underline-offset"@,
        747 => "text-underline-position"@,
        748 => "text-wrap"@,
        749 => "text-wrap-mode"@,
        750 => "text-wrap-style"@,
        751 => "timeline-scope"@,
        752 => "timeline-trigger"@,
        753 => "timeline-trigger-activation-range"@,
        754 => "timeline-trigger-activation-range-end"@,
        755 => "timeline-trigger-activation-range-start"@,
        756 => "timeline-trigger-active-range"@,
        757 => "timeline-trigger-active-range-end"@,
        758 => "timeline-trigger-active-range-start"@,
        759 => "timeline-trigger-name"@,
        760 => "timeline-trigger-source"@,
        761 => "top"@,
        762 => "touch-action"@,
        763 => "transform"@,
        764 => "transform-box"@,
        765 => "transform-origin"@,
        766 => "transform-style"@,
        767 => "transition"@,
        768 => "transition-behavior"@,
        769 => "transition-delay"@,
        770 => "transition-duration"@,
        771 => "transition-property"@,
        772 => "transition-timing-function"@,
        773 => "translate"@,
        774 => "trigger-scope"@,
        775 => "unicode-bidi"@,
        776 => "user-select"@,
        777 => "vector-effect"@,
        778 => "vertical-align"@,
        779 => "view-timeline"@,
        780 => "view-timeline-axis"@,
        781 => "view-timeline-inset"@,
        782 => "view-timeline-name"@,
        783 => "view-transition-class"@,
        784 => "view-transition-group"@,
        785 => "view-transition-name"@,
        786 => "view-transition-scope"@,
        787 => "visibility"@,
        788 => "voice-balance"@,
        789 => "voice-duration"@,
        790 => "voice-family"@,
        791 => "voice-pitch"@,
        792 => "voice-range"@,
        793 => "voice-rate"@,
        794 => "voice-stress"@,
        795 => "voice-volume"@,
        796 => "white-space"@,
        797 => "white-space-collapse"@,
        798 => "white-space-trim"@,
        799 => "widows"@,
        _ => lookup_name_from_800(i),
    }
}

/// `lookup_name` from index 800 on.
pub open spec fn lookup_name_from_800(i: usize) -> Seq<char> {
    match i {
        800 => "width"@,
        801 => "will-change"@,
        802 => "word-break"@,
        803 => "word-space-transform"@,
        804 => "word-spacing"@,
        805 => "word-wrap"@,
        806 => "wrap-after"@,
        807 => "wrap-before"@,
        808 => "wrap-flow"@,
        809 => "wrap-inside"@,
        810 => "wrap-through"@,
        811 => "writing-mode"@,
        812 => "x"@,
        813 => "y"@,
        814 => "z-index"@,
        815 => "zoom"@,
        _ => Seq::empty(),
    }
}

/// The `i`-th name of the lookup table.
pub fn lookup_name_at(i: usize) -> (r: &'static str)
    requires
        0 <= i < LOOKUP_LEN,
    ensures
        r@ == lookup_name(i),
{
    match i {
        0 => "-webkit-align-content",
        1 => "-webkit-align-items",
        2 => "-webkit-align-self",
        3 => "-webkit-animation",
        4 => "-webkit-animation-delay",
        5 => "-webkit-animation-direction",
        6 => "-webkit-animation-duration",
        7 => "-webkit-animation-fill-mode",
        8 => "-webkit-animation-iteration-count",
        9 => "-webkit-animation-name",
        10 => "-webkit-animation-play-state",
        11 => "-webkit-animation-timing-function",
        12 => "-webkit-appearance",
        13 => "-webkit-backface-visibility",
        14 => "-webkit-background-clip",
        15 => "-webkit-background-origin",
        16 => "-webkit-background-size",
        17 => "-webkit-border-bottom-left-radius",
        18 => "-webkit-border-bottom-right-radius",
        19 => "-webkit-border-radius",
        20 => "-webkit-border-top-left-radius",
        21 => "-webkit-border-top-right-radius",
        22 => "-webkit-box-align",
        23 => "-webkit-box-flex",
        24 => "-webkit-box-ordinal-group",
        25 => "-webkit-box-orient",
        26 => "-webkit-box-pack",
        27 => "-webkit-box-shadow",
        28 => "-webkit-box-sizing",
        29 => "-webkit-filter",
        30 => "-webkit-flex",
        31 => "-webkit-flex-basis",
        32 => "-webkit-flex-direction",
        33 => "-webkit-flex-flow",
        34 => "-webkit-flex-grow",
        35 => "-webkit-flex-shrink",
        36 => "-webkit-flex-wrap",
        37 => "-webkit-justify-content",
        38 => "-webkit-line-clamp",
        39 => "-webkit-mask",
        40 => "-webkit-mask-box-image",
        41 => "-webkit-mask-box-image-outset",
        42 => "-webkit-mask-box-image-repeat",
        43 => "-webkit-mask-box-image-slice",
        44 => "-webkit-mask-box-image-source",
        45 => "-webkit-mask-box-image-width",
        46 => "-webkit-mask-clip",
        47 => "-webkit-mask-composite",
        48 => "-webkit-mask-image",
        49 => "-webkit-mask-origin",
        50 => "-webkit-mask-position",
        51 => "-webkit-mask-repeat",
        52 => "-webkit-mask-size",
        53 => "-webkit-order",
        54 => "-webkit-perspective",
        55 => "-webkit-perspective-origin",
        56 => "-webkit-text-fill-color",
        57 => "-webkit-text-size-adjust",
        58 => "-webkit-text-stroke",
        59 => "-webkit-text-stroke-color",
        60 => "-webkit-text-stroke-width",
        61 => "-webkit-transform",
        62 => "-webkit-transform-origin",
        63 => "-webkit-transform-style",
        64 => "-webkit-transition",
        65 => "-webkit-transition-delay",
        66 => "-webkit-transition-duration",
        67 => "-webkit-transition-property",
        68 => "-webkit-transition-timing-function",
        69 => "-webkit-user-select",
        70 => "accent-color",
        71 => "align-content",
        72 => "align-items",
        73 => "align-self",
        74 => "alignment-baseline",
        75 => "all",
        76 => "anchor-name",
        77 => "anchor-scope",
        78 => "animation",
        79 => "animation-composition",
        80 => "animation-delay",
        81 => "animation-direction",
        82 => "animation-duration",
        83 => "animation-fill-mode",
        84 => "animation-iteration-count",
        85 => "animation-name",
        86 => "animation-play-state",
        87 => "animation-range",
        88 => "animation-range-center",
        89 => "animation-range-end",
        90 => "animation-range-start",
        91 => "animation-timeline",
        92 => "animation-timing-function",
        93 => "animation-trigger",
        94 => "appearance",
        95 => "aspect-ratio",
        96 => "backdrop-filter",
        97 => "backface-visibility",
        98 => "background",
        99 => "background-attachment",
        _ => lookup_name_at_from_100(i),
    }
}

/// `lookup_name_at` from index 100 on.
fn lookup_name_at_from_100(i: usize) -> (r: &'static str)
    requires
        100 <= i < LOOKUP_LEN,
    ensures
        r@ == lookup_name_from_100(i),
{
    match i {
        100 => "background-blend-mode",
        101 => "background-clip",
        102 => "background-color",
        103 => "background-image",
        104 => "background-origin",
        105 => "background-position",
        106 => "background-position-block",
        107 => "background-position-inline",
        108 => "background-position-x",
        109 => "background-position-y",
        110 => "background-repeat",
        111 => "background-repeat-block",
        112 => "background-repeat-inline",
        113 => "background-repeat-x",
        114 => "background-repeat-y",
        115 => "background-size",
        116 => "background-tbd",
        117 => "baseline-shift",
        118 => "baseline-source",
        119 => "block-ellipsis",
        120 => "block-size",
        121 => "block-step",
        122 => "block-step-align",
        123 => "block-step-insert",
        124 => "block-step-round",
        125 => "block-step-size",
        126 => "bookmark-label",
        127 => "bookmark-level",
        128 => "bookmark-state",
        129 => "border",
        130 => "border-block",
        131 => "border-block-clip",
        132 => "border-block-color",
        133 => "border-block-end",
        134 => "border-block-end-clip",
        135 => "border-block-end-color",
        136 => "border-block-end-radius",
        137 => "border-block-end-style",
        138 => "border-block-end-width",
        139 => "border-block-start",
        140 => "border-block-start-clip",
        141 => "border-block-start-color",
        142 => "border-block-start-radius",
        143 => "border-block-start-style",
        144 => "border-block-start-width",
        145 => "border-block-style",
        146 => "border-block-width",
        147 => "border-bottom",
        148 => "border-bottom-clip",
        149 => "border-bottom-color",
        150 => "border-bottom-left-radius",
        151 => "border-bottom-radius",
        152 => "border-bottom-right-radius",
        153 => "border-bottom-style",
        154 => "border-bottom-width",
        155 => "border-boundary",
        156 => "border-clip",
        157 => "border-collapse",
        158 => "border-color",
        159 => "border-end-end-radius",
        160 => "border-end-start-radius",
        161 => "border-image",
        162 => "border-image-outset",
        163 => "border-image-repeat",
        164 => "border-image-slice",
        165 => "border-image-source",
        166 => "border-image-width",
        167 => "border-inline",
        168 => "border-inline-clip",
        169 => "border-inline-color",
        170 => "border-inline-end",
        171 => "border-inline-end-clip",
        172 => "border-inline-end-color",
        173 => "border-inline-end-radius",
        174 => "border-inline-end-style",
        175 => "border-inline-end-width",
        176 => "border-inline-start",
        177 => "border-inline-start-clip",
        178 => "border-inline-start-color",
        179 => "border-inline-start-radius",
        180 => "border-inline-start-style",
        181 => "border-inline-start-width",
        182 => "border-inline-style",
        183 => "border-inline-width",
        184 => "border-left",
        185 => "border-left-clip",
        186 => "border-left-color",
        187 => "border-left-radius",
        188 => "border-left-style",
        189 => "border-left-width",
        190 => "border-limit",
        191 => "border-radius",
        192 => "border-right",
        193 => "border-right-clip",
        194 => "border-right-color",
        195 => "border-right-radius",
        196 => "border-right-style",
        197 => "border-right-width",
        198 => "border-shape",
        199 => "border-spacing",
        _ => lookup_name_at_from_200(i),
    }
}

/// `lookup_name_at` from index 200 on.
fn lookup_name_at_from_200(i: usize) -> (r: &'static str)
    requires
        200 <= i < LOOKUP_LEN,
    ensures
        r@ == lookup_name_from_200(i),
{
    match i {
        200 => "border-start-end-radius",
        201 => "border-start-start-radius",
        202 => "border-style",
        203 => "border-top",
        204 => "border-top-clip",
        205 => "border-top-color",
        206 => "border-top-left-radius",
        207 => "border-top-radius",
        208 => "border-top-right-radius",
        209 => "border-top-style",
        210 => "border-top-width",
        211 => "border-width",
        212 => "bottom",
        213 => "box-decoration-break",
        214 => "box-shadow",
        215 => "box-shadow-blur",
        216 => "box-shadow-color",
        217 => "box-shadow-offset",
        218 => "box-shadow-position",
        219 => "box-shadow-spread",
        220 => "box-sizing",
        221 => "box-snap",
        222 => "break-after",
        223 => "break-before",
        224 => "break-inside",
        225 => "caption-side",
        226 => "caret",
        227 => "caret-animation",
        228 => "caret-color",
        229 => "caret-shape",
        230 => "clear",
        231 => "clip",
        232 => "clip-path",
        233 => "clip-rule",
        234 => "color",
        235 => "color-adjust",
        236 => "color-interpolation",
        237 => "color-interpolation-filters",
        238 => "color-scheme",
        239 => "column-count",
        240 => "column-fill",
        241 => "column-gap",
        242 => "column-height",
        243 => "column-rule",
        244 => "column-rule-break",
        245 => "column-rule-color",
        246 => "column-rule-inset",
        247 => "column-rule-inset-cap",
        248 => "column-rule-inset-cap-end",
        249 => "column-rule-inset-cap-start",
        250 => "column-rule-inset-end",
        251 => "column-rule-inset-junction",
        252 => "column-rule-inset-junction-end",
        253 => "column-rule-inset-junction-start",
        254 => "column-rule-inset-start",
        255 => "column-rule-style",
        256 => "column-rule-visibility-items",
        257 => "column-rule-width",
        258 => "column-span",
        259 => "column-width",
        260 => "column-wrap",
        261 => "columns",
        262 => "contain",
        263 => "contain-intrinsic-block-size",
        264 => "contain-intrinsic-height",
        265 => "contain-intrinsic-inline-size",
        266 => "contain-intrinsic-size",
        267 => "contain-intrinsic-width",
        268 => "container",
        269 => "container-name",
        270 => "container-type",
        271 => "content",
        272 => "content-visibility",
        273 => "continue",
        274 => "copy-into",
        275 => "corner",
        276 => "corner-block-end",
        277 => "corner-block-end-shape",
        278 => "corner-block-start",
        279 => "corner-block-start-shape",
        280 => "corner-bottom",
        281 => "corner-bottom-left",
        282 => "corner-bottom-left-shape",
        283 => "corner-bottom-right",
        284 => "corner-bottom-right-shape",
        285 => "corner-bottom-shape",
        286 => "corner-end-end",
        287 => "corner-end-end-shape",
        288 => "corner-end-start",
        289 => "corner-end-start-shape",
        290 => "corner-inline-end",
        291 => "corner-inline-end-shape",
        292 => "corner-inline-start",
        293 => "corner-inline-start-shape",
        294 => "corner-left",
        295 => "corner-left-shape",
        296 => "corner-right",
        297 => "corner-right-shape",
        298 => "corner-shape",
        299 => "corner-start-end",
        _ => lookup_name_at_from_300(i),
    }
}

/// `lookup_name_at` from index 300 on.
fn lookup_name_at_from_300(i: usize) -> (r: &'static str)
    requires
        300 <= i < LOOKUP_LEN,
    ensures
        r@ == lookup_name_from_300(i),
{
    match i {
        300 => "corner-start-end-shape",
        301 => "corner-start-start",
        302 => "corner-start-start-shape",
        303 => "corner-top",
        304 => "corner-top-left",
        305 => "corner-top-left-shape",
        306 => "corner-top-right",
        307 => "corner-top-right-shape",
        308 => "corner-top-shape",
        309 => "counter-increment",
        310 => "counter-reset",
        311 => "counter-set",
        312 => "cue",
        313 => "cue-after",
        314 => "cue-before",
        315 => "cursor",
        316 => "cx",
        317 => "cy",
        318 => "d",
        319 => "direction",
        320 => "display",
        321 => "dominant-baseline",
        322 => "dynamic-range-limit",
        323 => "empty-cells",
        324 => "event-trigger",
        325 => "event-trigger-name",
        326 => "event-trigger-source",
        327 => "field-sizing",
        328 => "fill",
        329 => "fill-break",
        330 => "fill-color",
        331 => "fill-image",
        332 => "fill-opacity",
        333 => "fill-origin",
        334 => "fill-position",
        335 => "fill-repeat",
        336 => "fill-rule",
        337 => "fill-size",
        338 => "filter",
        339 => "flex",
        340 => "flex-basis",
        341 => "flex-direction",
        342 => "flex-flow",
        343 => "flex-grow",
        344 => "flex-shrink",
        345 => "flex-wrap",
        346 => "float",
        347 => "float-defer",
        348 => "float-offset",
        349 => "float-reference",
        350 => "flood-color",
        351 => "flood-opacity",
        352 => "flow-from",
        353 => "flow-into",
        354 => "flow-tolerance",
        355 => "font",
        356 => "font-family",
        357 => "font-feature-settings",
        358 => "font-kerning",
        359 => "font-language-override",
        360 => "font-optical-sizing",
        361 => "font-palette",
        362 => "font-size",
        363 => "font-size-adjust",
        364 => "font-stretch",
        365 => "font-style",
        366 => "font-synthesis",
        367 => "font-synthesis-position",
        368 => "font-synthesis-small-caps",
        369 => "font-synthesis-style",
        370 => "font-synthesis-weight",
        371 => "font-variant",
        372 => "font-variant-alternates",
        373 => "font-variant-caps",
        374 => "font-variant-east-asian",
        375 => "font-variant-emoji",
        376 => "font-variant-ligatures",
        377 => "font-variant-numeric",
        378 => "font-variant-position",
        379 => "font-variation-settings",
        380 => "font-weight",
        381 => "font-width",
        382 => "footnote-display",
        383 => "footnote-policy",
        384 => "forced-color-adjust",
        385 => "frame-sizing",
        386 => "gap",
        387 => "glyph-orientation-vertical",
        388 => "grid",
        389 => "grid-area",
        390 => "grid-auto-columns",
        391 => "grid-auto-flow",
        392 => "grid-auto-rows",
        393 => "grid-column",
        394 => "grid-column-end",
        395 => "grid-column-gap",
        396 => "grid-column-start",
        397 => "grid-gap",
        398 => "grid-row",
        399 => "grid-row-end",
        _ => lookup_name_at_from_400(i),
    }
}

/// `lookup_name_at` from index 400 on.
fn lookup_name_at_from_400(i: usize) -> (r: &'static str)
    requires
        400 <= i < LOOKUP_LEN,
    ensures
        r@ == lookup_name_from_400(i),
{
    match i {
        400 => "grid-row-gap",
        401 => "grid-row-start",
        402 => "grid-template",
        403 => "grid-template-areas",
        404 => "grid-template-columns",
        405 => "grid-template-rows",
        406 => "hanging-punctuation",
        407 => "height",
        408 => "hyphenate-character",
        409 => "hyphenate-limit-chars",
        410 => "hyphenate-limit-last",
        411 => "hyphenate-limit-lines",
        412 => "hyphenate-limit-zone",
        413 => "hyphens",
        414 => "image-animation",
        415 => "image-orientation",
        416 => "image-rendering",
        417 => "image-resolution",
        418 => "initial-letter",
        419 => "initial-letter-align",
        420 => "initial-letter-wrap",
        421 => "inline-size",
        422 => "inline-sizing",
        423 => "input-security",
        424 => "inset",
        425 => "inset-block",
        426 => "inset-block-end",
        427 => "inset-block-start",
        428 => "inset-inline",
        429 => "inset-inline-end",
        430 => "inset-inline-start",
        431 => "interactivity",
        432 => "interest-delay",
        433 => "interest-delay-end",
        434 => "interest-delay-start",
        435 => "interpolate-size",
        436 => "isolation",
        437 => "justify-content",
        438 => "justify-items",
        439 => "justify-self",
        440 => "left",
        441 => "letter-spacing",
        442 => "lighting-color",
        443 => "line-break",
        444 => "line-clamp",
        445 => "line-fit-edge",
        446 => "line-grid",
        447 => "line-height",
        448 => "line-height-step",
        449 => "line-padding",
        450 => "line-snap",
        451 => "link-parameters",
        452 => "list-style",
        453 => "list-style-image",
        454 => "list-style-position",
        455 => "list-style-type",
        456 => "margin",
        457 => "margin-block",
        458 => "margin-block-end",
        459 => "margin-block-start",
        460 => "margin-bottom",
        461 => "margin-break",
        462 => "margin-inline",
        463 => "margin-inline-end",
        464 => "margin-inline-start",
        465 => "margin-left",
        466 => "margin-right",
        467 => "margin-top",
        468 => "margin-trim",
        469 => "marker",
        470 => "marker-end",
        471 => "marker-mid",
        472 => "marker-side",
        473 => "marker-start",
        474 => "mask",
        475 => "mask-border",
        476 => "mask-border-mode",
        477 => "mask-border-outset",
        478 => "mask-border-repeat",
        479 => "mask-border-slice",
        480 => "mask-border-source",
        481 => "mask-border-width",
        482 => "mask-clip",
        483 => "mask-composite",
        484 => "mask-image",
        485 => "mask-mode",
        486 => "mask-origin",
        487 => "mask-position",
        488 => "mask-repeat",
        489 => "mask-size",
        490 => "mask-type",
        491 => "math-depth",
        492 => "math-shift",
        493 => "math-style",
        494 => "max-block-size",
        495 => "max-height",
        496 => "max-inline-size",
        497 => "max-lines",
        498 => "max-width",
        499 => "min-block-size",
        _ => lookup_name_at_from_500(i),
    }
}

/// `lookup_name_at` from index 500 on.
fn lookup_name_at_from_500(i: usize) -> (r: &'static str)
    requires
        500 <= i < LOOKUP_LEN,
    ensures
        r@ == lookup_name_from_500(i),
{
    match i {
        500 => "min-height",
        501 => "min-inline-size",
        502 => "min-intrinsic-sizing",
        503 => "min-width",
        504 => "mix-blend-mode",
        505 => "nav-down",
        506 => "nav-left",
        507 => "nav-right",
        508 => "nav-up",
        509 => "object-fit",
        510 => "object-position",
        511 => "object-view-box",
        512 => "offset",
        513 => "offset-anchor",
        514 => "offset-distance",
        515 => "offset-path",
        516 => "offset-position",
        517 => "offset-rotate",
        518 => "opacity",
        519 => "order",
        520 => "orphans",
        521 => "outline",
        522 => "outline-color",
        523 => "outline-offset",
        524 => "outline-style",
        525 => "outline-width",
        526 => "overflow",
        527 => "overflow-anchor",
        528 => "overflow-block",
        529 => "overflow-clip-margin",
        530 => "overflow-clip-margin-block",
        531 => "overflow-clip-margin-block-end",
        532 => "overflow-clip-margin-block-start",
        533 => "overflow-clip-margin-bottom",
        534 => "overflow-clip-margin-inline",
        535 => "overflow-clip-margin-inline-end",
        536 => "overflow-clip-margin-inline-start",
        537 => "overflow-clip-margin-left",
        538 => "overflow-clip-margin-right",
        539 => "overflow-clip-margin-top",
        540 => "overflow-inline",
        541 => "overflow-wrap",
        542 => "overflow-x",
        543 => "overflow-y",
        544 => "overlay",
        545 => "overscroll-behavior",
        546 => "overscroll-behavior-block",
        547 => "overscroll-behavior-inline",
        548 => "overscroll-behavior-x",
        549 => "overscroll-behavior-y",
        550 => "padding",
        551 => "padding-block",
        552 => "padding-block-end",
        553 => "padding-block-start",
        554 => "padding-bottom",
        555 => "padding-inline",
        556 => "padding-inline-end",
        557 => "padding-inline-start",
        558 => "padding-left",
        559 => "padding-right",
        560 => "padding-top",
        561 => "page",
        562 => "page-break-after",
        563 => "page-break-before",
        564 => "page-break-inside",
        565 => "paint-order",
        566 => "path-length",
        567 => "pause",
        568 => "pause-after",
        569 => "pause-before",
        570 => "perspective",
        571 => "perspective-origin",
        572 => "place-content",
        573 => "place-items",
        574 => "place-self",
        575 => "pointer-events",
        576 => "pointer-timeline",
        577 => "pointer-timeline-axis",
        578 => "pointer-timeline-name",
        579 => "position",
        580 => "position-anchor",
        581 => "position-area",
        582 => "position-try",
        583 => "position-try-fallbacks",
        584 => "position-try-order",
        585 => "position-visibility",
        586 => "print-color-adjust",
        587 => "quotes",
        588 => "r",
        589 => "reading-flow",
        590 => "reading-order",
        591 => "region-fragment",
        592 => "resize",
        593 => "rest",
        594 => "rest-after",
        595 => "rest-before",
        596 => "right",
        597 => "rotate",
        598 => "row-gap",
        599 => "row-rule",
        _ => lookup_name_at_from_600(i),
    }
}

/// `lookup_name_at` from index 600 on.
fn lookup_name_at_from_600(i: usize) -> (r: &'static str)
    requires
        600 <= i < LOOKUP_LEN,
    ensures
        r@ == lookup_name_from_600(i),
{
    match i {
        600 => "row-rule-break",
        601 => "row-rule-color",
        602 => "row-rule-inset",
        603 => "row-rule-inset-cap",
        604 => "row-rule-inset-cap-end",
        605 => "row-rule-inset-cap-start",
        606 => "row-rule-inset-end",
        607 => "row-rule-inset-junction",
        608 => "row-rule-inset-junction-end",
        609 => "row-rule-inset-junction-start",
        610 => "row-rule-inset-start",
        611 => "row-rule-style",
        612 => "row-rule-visibility-items",
        613 => "row-rule-width",
        614 => "ruby-align",
        615 => "ruby-merge",
        616 => "ruby-overhang",
        617 => "ruby-position",
        618 => "rule",
        619 => "rule-break",
        620 => "rule-color",
        621 => "rule-inset",
        622 => "rule-inset-cap",
        623 => "rule-inset-end",
        624 => "rule-inset-junction",
        625 => "rule-inset-start",
        626 => "rule-overlap",
        627 => "rule-style",
        628 => "rule-visibility-items",
        629 => "rule-width",
        630 => "rx",
        631 => "ry",
        632 => "scale",
        633 => "scroll-behavior",
        634 => "scroll-initial-target",
        635 => "scroll-margin",
        636 => "scroll-margin-block",
        637 => "scroll-margin-block-end",
        638 => "scroll-margin-block-start",
        639 => "scroll-margin-bottom",
        640 => "scroll-margin-inline",
        641 => "scroll-margin-inline-end",
        642 => "scroll-margin-inline-start",
        643 => "scroll-margin-left",
        644 => "scroll-margin-right",
        645 => "scroll-margin-top",
        646 => "scroll-marker-group",
        647 => "scroll-padding",
        648 => "scroll-padding-block",
        649 => "scroll-padding-block-end",
        650 => "scroll-padding-block-start",
        651 => "scroll-padding-bottom",
        652 => "scroll-padding-inline",
        653 => "scroll-padding-inline-end",
        654 => "scroll-padding-inline-start",
        655 => "scroll-padding-left",
        656 => "scroll-padding-right",
        657 => "scroll-padding-top",
        658 => "scroll-snap-align",
        659 => "scroll-snap-stop",
        660 => "scroll-snap-type",
        661 => "scroll-target-group",
        662 => "scroll-timeline",
        663 => "scroll-timeline-axis",
        664 => "scroll-timeline-name",
        665 => "scrollbar-color",
        666 => "scrollbar-gutter",
        667 => "scrollbar-inset",
        668 => "scrollbar-min-thumb-size",
        669 => "scrollbar-mode",
        670 => "scrollbar-width",
        671 => "shape-image-threshold",
        672 => "shape-inside",
        673 => "shape-margin",
        674 => "shape-outside",
        675 => "shape-padding",
        676 => "shape-rendering",
        677 => "slider-orientation",
        678 => "spatial-navigation-action",
        679 => "spatial-navigation-contain",
        680 => "spatial-navigation-function",
        681 => "speak",
        682 => "speak-as",
        683 => "stop-color",
        684 => "stop-opacity",
        685 => "string-set",
        686 => "stroke",
        687 => "stroke-align",
        688 => "stroke-alignment",
        689 => "stroke-break",
        690 => "stroke-color",
        691 => "stroke-dash-corner",
        692 => "stroke-dash-justify",
        693 => "stroke-dashadjust",
        694 => "stroke-dasharray",
        695 => "stroke-dashcorner",
        696 => "stroke-dashoffset",
        697 => "stroke-image",
        698 => "stroke-linecap",
        699 => "stroke-linejoin",
        _ => lookup_name_at_from_700(i),
    }
}

/// `lookup_name_at` from index 700 on.
fn lookup_name_at_from_700(i: usize) -> (r: &'static str)
    requires
        700 <= i < LOOKUP_LEN,
    ensures
        r@ == lookup_name_from_700(i),
{
    match i {
        700 => "stroke-miterlimit",
        701 => "stroke-opacity",
        702 => "stroke-origin",
        703 => "stroke-position",
        704 => "stroke-repeat",
        705 => "stroke-size",
        706 => "stroke-width",
        707 => "tab-size",
        708 => "table-layout",
        709 => "text-align",
        710 => "text-align-all",
        711 => "text-align-last",
        712 => "text-anchor",
        713 => "text-autospace",
        714 => "text-box",
        715 => "text-box-edge",
        716 => "text-box-trim",
        717 => "text-combine-upright",
        718 => "text-decoration",
        719 => "text-decoration-color",
        720 => "text-decoration-inset",
        721 => "text-decoration-line",
        722 => "text-decoration-skip",
        723 => "text-decoration-skip-box",
        724 => "text-decoration-skip-ink",
        725 => "text-decoration-skip-self",
        726 => "text-decoration-skip-spaces",
        727 => "text-decoration-style",
        728 => "text-decoration-thickness",
        729 => "text-emphasis",
        730 => "text-emphasis-color",
        731 => "text-emphasis-position",
        732 => "text-emphasis-skip",
        733 => "text-emphasis-style",
        734 => "text-fit",
        735 => "text-group-align",
        736 => "text-indent",
        737 => "text-justify",
        738 => "text-orientation",
        739 => "text-overflow",
        740 => "text-rendering",
        741 => "text-shadow",
        742 => "text-size-adjust",
        743 => "text-spacing",
        744 => "text-spacing-trim",
        745 => "text-transform",
        746 => "text-underline-offset",
        747 => "text-underline-position",
        748 => "text-wrap",
        749 => "text-wrap-mode",
        750 => "text-wrap-style",
        751 => "timeline-scope",
        752 => "timeline-trigger",
        753 => "timeline-trigger-activation-range",
        754 => "timeline-trigger-activation-range-end",
        755 => "timeline-trigger-activation-range-start",
        756 => "timeline-trigger-active-range",
        757 => "timeline-trigger-active-range-end",
        758 => "timeline-trigger-active-range-start",
        759 => "timeline-trigger-name",
        760 => "timeline-trigger-source",
        761 => "top",
        762 => "touch-action",
        763 => "transform",
        764 => "transform-box",
        765 => "transform-origin",
        766 => "transform-style",
        767 => "transition",
        768 => "transition-behavior",
        769 => "transition-delay",
        770 => "transition-duration",
        771 => "transition-property",
        772 => "transition-timing-function",
        773 => "translate",
        774 => "trigger-scope",
        775 => "unicode-bidi",
        776 => "user-select",
        777 => "vector-effect",
        778 => "vertical-align",
        779 => "view-timeline",
        780 => "view-timeline-axis",
        781 => "view-timeline-inset",
        782 => "view-timeline-name",
        783 => "view-transition-class",
        784 => "view-transition-group",
        785 => "view-transition-name",
        786 => "view-transition-scope",
        787 => "visibility",
        788 => "voice-balance",
        789 => "voice-duration",
        790 => "voice-family",
        791 => "voice-pitch",
        792 => "voice-range",
        793 => "voice-rate",
        794 => "voice-stress",
        795 => "voice-volume",
        796 => "white-space",
        797 => "white-space-collapse",
        798 => "white-space-trim",
        799 => "widows",
        _ => lookup_name_at_from_800(i),
    }
}

/// `lookup_name_at` from index 800 on.
fn lookup_name_at_from_800(i: usize) -> (r: &'static str)
    requires
        800 <= i < LOOKUP_LEN,
    ensures
        r@ == lookup_name_from_800(i),
{
    match i {
        800 => "width",
        801 => "will-change",
        802 => "word-break",
        803 => "word-space-transform",
        804 => "word-spacing",
        805 => "word-wrap",
        806 => "wrap-after",
        807 => "wrap-before",
        808 => "wrap-flow",
        809 => "wrap-inside",
        810 => "wrap-through",
        811 => "writing-mode",
        812 => "x",
        813 => "y",
        814 => "z-index",
        _ => "zoom",
    }
}

/// The names of the lookup table up to `n` are in strictly increasing name order.
pub open spec fn lookup_sorted_upto(n: usize) -> bool
    decreases n,
{
    if n <= 1 {
        true
    } else {
        lookup_sorted_upto((n - 1) as usize) && name_less(lookup_name((n - 2) as usize), lookup_name((n - 1) as usize))
    }
}

proof fn lemma_lookup_adjacent_0()
    ensures
        name_less(lookup_name(0), lookup_name(1)),
{
    reveal_strlit("-webkit-align-content");
    reveal_strlit("-webkit-align-items");
    reveal_with_fuel(seq_less_from, 16);
}

proof fn lemma_lookup_adjacent_1()
    ensures
        name_less(lookup_name(1), lookup_name(2)),
{
    reveal_strlit("-webkit-align-items");
    reveal_strlit("-webkit-align-self");
    reveal_with_fuel(seq_less_from, 16);
}

proof fn lemma_lookup_adjacent_2()
    ensures
        name_less(lookup_name(2), lookup_name(3)),
{
    reveal_strlit("-webkit-align-self");
    reveal_strlit("-webkit-animation");
    reveal_with_fuel(seq_less_from, 11);
}

proof fn lemma_lookup_adjacent_3()
    ensures
        name_less(lookup_name(3), lookup_name(4)),
{
    reveal_strlit("-webkit-animation");
    reveal_strlit("-webkit-animation-delay");
    reveal_with_fuel(seq_less_from, 19);
}

proof fn lemma_lookup_adjacent_4()
    ensures
        name_less(lookup_name(4), lookup_name(5)),
{
    reveal_strlit("-webkit-animation-delay");
    reveal_strlit("-webkit-animation-direction");
    reveal_with_fuel(seq_less_from, 21);
}

proof fn lemma_lookup_adjacent_5()
    ensures
        name_less(lookup_name(5), lookup_name(6)),
{
    reveal_strlit("-webkit-animation-direction");
    reveal_strlit("-webkit-animation-duration");
    reveal_with_fuel(seq_less_from, 21);
}

proof fn lemma_lookup_adjacent_6()
    ensures
        name_less(lookup_name(6), lookup_name(7)),
{
    reveal_strlit("-webkit-animation-duration");
    reveal_strlit("-webkit-animation-fill-mode");
    reveal_with_fuel(seq_less_from, 20);
}

proof fn lemma_lookup_adjacent_7()
    ensures
        name_less(lookup_name(7), lookup_name(8)),
{
    reveal_strlit("-webkit-animation-fill-mode");
    reveal_strlit("-webkit-animation-iteration-count");
    reveal_with_fuel(seq_less_from, 20);
}

proof fn lemma_lookup_adjacent_8()
    ensures
        name_less(lookup_name(8), lookup_name(9)),
{
    reveal_strlit("-webkit-animation-iteration-count");
    reveal_strlit("-webkit-animation-name");
    reveal_with_fuel(seq_less_from, 20);
}

proof fn lemma_lookup_adjacent_9()
    ensures
        name_less(lookup_name(9), lookup_name(10)),
{
    reveal_strlit("-webkit-animation-name");
    reveal_strlit("-webkit-animation-play-state");
    reveal_with_fuel(seq_less_from, 20);
}

proof fn lemma_lookup_adjacent_10()
    ensures
        name_less(lookup_name(10), lookup_name(11)),
{
    reveal_strlit("-webkit-animation-play-state");
    reveal_strlit("-webkit-animation-timing-function");
    reveal_with_fuel(seq_less_from, 20);
}

proof fn lemma_lookup_adjacent_11()
    ensures
        name_less(lookup_name(11), lookup_name(12)),
{
    reveal_strlit("-webkit-animation-timing-function");
    reveal_strlit("-webkit-appearance");
    reveal_with_fuel(seq_less_from, 11);
}

proof fn lemma_lookup_adjacent_12()
    ensures
        name_less(lookup_name(12), lookup_name(13)),
{
    reveal_strlit("-webkit-appearance");
    reveal_strlit("-webkit-backface-visibility");
    reveal_with_fuel(seq_less_from, 10);
}

proof fn lemma_lookup_adjacent_13()
    ensures
        name_less(lookup_name(13), lookup_name(14)),
{
    reveal_strlit("-webkit-backface-visibility");
    reveal_strlit("-webkit-background-clip");
    reveal_with_fuel(seq_less_from, 14);
}

proof fn lemma_lookup_adjacent_14()
    ensures
        name_less(lookup_name(14), lookup_name(15)),
{
    reveal_strlit("-webkit-background-clip");
    reveal_strlit("-webkit-background-origin");
    reveal_with_fuel(seq_less_from, 21);
}

proof fn lemma_lookup_adjacent_15()
    ensures
        name_less(lookup_name(15), lookup_name(16)),
{
    reveal_strlit("-webkit-background-origin");
    reveal_strlit("-webkit-background-size");
    reveal_with_fuel(seq_less_from, 21);
}

proof fn lemma_lookup_adjacent_16()
    ensures
        name_less(lookup_name(16), lookup_name(17)),
{
    reveal_strlit("-webkit-background-size");
    reveal_strlit("-webkit-border-bottom-left-radius");
    reveal_with_fuel(seq_less_from, 11);
}

proof fn lemma_lookup_adjacent_17()
    ensures
        name_less(lookup_name(17), lookup_name(18)),
{
    reveal_strlit("-webkit-border-bottom-left-radius");
    reveal_strlit("-webkit-border-bottom-right-radius");
    reveal_with_fuel(seq_less_from, 24);
}

proof fn lemma_lookup_adjacent_18()
    ensures
        name_less(lookup_name(18), lookup_name(19)),
{
    reveal_strlit("-webkit-border-bottom-right-radius");
    reveal_strlit("-webkit-border-radius");
    reveal_with_fuel(seq_less_from, 17);
}

proof fn lemma_lookup_adjacent_19()
    ensures
        name_less(lookup_name(19), lookup_name(20)),
{
    reveal_strlit("-webkit-border-radius");
    reveal_strlit("-webkit-border-top-left-radius");
    reveal_with_fuel(seq_less_from, 17);
}

proof fn lemma_lookup_adjacent_20()
    ensures
        name_less(lookup_name(20), lookup_name(21)),
{
    reveal_strlit("-webkit-border-top-left-radius");
    reveal_strlit("-webkit-border-top-right-radius");
    reveal_with_fuel(seq_less_from, 21);
}

proof fn lemma_lookup_adjacent_21()
    ensures
        name_less(lookup_name(21), lookup_name(22)),
{
    reveal_strlit("-webkit-border-top-right-radius");
    reveal_strlit("-webkit-box-align");
    reveal_with_fuel(seq_less_from, 12);
}

proof fn lemma_lookup_adjacent_22()
    ensures
        name_less(lookup_name(22), lookup_name(23)),
{
    reveal_strlit("-webkit-box-align");
    reveal_strlit("-webkit-box-flex");
    reveal_with_fuel(seq_less_from, 14);
}

proof fn lemma_lookup_adjacent_23()
    ensures
        name_less(lookup_name(23), lookup_name(24)),
{
    reveal_strlit("-webkit-box-flex");
    reveal_strlit("-webkit-box-ordinal-group");
    reveal_with_fuel(seq_less_from, 14);
}

proof fn lemma_lookup_adjacent_24()
    ensures
        name_less(lookup_name(24), lookup_name(25)),
{
    reveal_strlit("-webkit-box-ordinal-group");
    reveal_strlit("-webkit-box-orient");
    reveal_with_fuel(seq_less_from, 16);
}

proof fn lemma_lookup_adjacent_25()
    ensures
        name_less(lookup_name(25), lookup_name(26)),
{
    reveal_strlit("-webkit-box-orient");
    reveal_strlit("-webkit-box-pack");
    reveal_with_fuel(seq_less_from, 14);
}

proof fn lemma_lookup_adjacent_26()
    ensures
        name_less(lookup_name(26), lookup_name(27)),
{
    reveal_strlit("-webkit-box-pack");
    reveal_strlit("-webkit-box-shadow");
    reveal_with_fuel(seq_less_from, 14);
}

proof fn lemma_lookup_adjacent_27()
    ensures
        name_less(lookup_name(27), lookup_name(28)),
{
    reveal_strlit("-webkit-box-shadow");
    reveal_strlit("-webkit-box-sizing");
    reveal_with_fuel(seq_less_from, 15);
}

proof fn lemma_lookup_adjacent_28()
    ensures
        name_less(lookup_name(28), lookup_name(29)),
{
    reveal_strlit("-webkit-box-sizing");
    reveal_strlit("-webkit-filter");
    reveal_with_fuel(seq_less_from, 10);
}

proof fn lemma_lookup_adjacent_29()
    ensures
        name_less(lookup_name(29), lookup_name(30)),
{
    reveal_strlit("-webkit-filter");
    reveal_strlit("-webkit-flex");
    reveal_with_fuel(seq_less_from, 11);
}

proof fn lemma_lookup_adjacent_30()
    ensures
        name_less(lookup_name(30), lookup_name(31)),
{
    reveal_strlit("-webkit-flex");
    reveal_strlit("-webkit-flex-basis");
    reveal_with_fuel(seq_less_from, 14);
}

proof fn lemma_lookup_adjacent_31()
    ensures
        name_less(lookup_name(31), lookup_name(32)),
{
    reveal_strlit("-webkit-flex-basis");
    reveal_strlit("-webkit-flex-direction");
    reveal_with_fuel(seq_less_from, 15);
}

proof fn lemma_lookup_adjacent_32()
    ensures
        name_less(lookup_name(32), lookup_name(33)),
{
    reveal_strlit("-webkit-flex-direction");
    reveal_strlit("-webkit-flex-flow");
    reveal_with_fuel(seq_less_from, 15);
}

proof fn lemma_lookup_adjacent_33()
    ensures
        name_less(lookup_name(33), lookup_name(34)),
{
    reveal_strlit("-webkit-flex-flow");
    reveal_strlit("-webkit-flex-grow");
    reveal_with_fuel(seq_less_from, 15);
}

proof fn lemma_lookup_adjacent_34()
    ensures
        name_less(lookup_name(34), lookup_name(35)),
{
    reveal_strlit("-webkit-flex-grow");
    reveal_strlit("-webkit-flex-shrink");
    reveal_with_fuel(seq_less_from, 15);
}

proof fn lemma_lookup_adjacent_35()
    ensures
        name_less(lookup_name(35), lookup_name(36)),
{
    reveal_strlit("-webkit-flex-shrink");
    reveal_strlit("-webkit-flex-wrap");
    reveal_with_fuel(seq_less_from, 15);
}

proof fn lemma_lookup_adjacent_36()
    ensures
        name_less(lookup_name(36), lookup_name(37)),
{
    reveal_strlit("-webkit-flex-wrap");
    reveal_strlit("-webkit-justify-content");
    reveal_with_fuel(seq_less_from, 10);
}

proof fn lemma_lookup_adjacent_37()
    ensures
        name_less(lookup_name(37), lookup_name(38)),
{
    reveal_strlit("-webkit-justify-content");
    reveal_strlit("-webkit-line-clamp");
    reveal_with_fuel(seq_less_from, 10);
}

proof fn lemma_lookup_adjacent_38()
    ensures
        name_less(lookup_name(38), lookup_name(39)),
{
    reveal_strlit("-webkit-line-clamp");
    reveal_strlit("-webkit-mask");
    reveal_with_fuel(seq_less_from, 10);
}

proof fn lemma_lookup_adjacent_39()
    ensures
        name_less(lookup_name(39), lookup_name(40)),
{
    reveal_strlit("-webkit-mask");
    reveal_strlit("-webkit-mask-box-image");
    reveal_with_fuel(seq_less_from, 14);
}

proof fn lemma_lookup_adjacent_40()
    ensures
        name_less(lookup_name(40), lookup_name(41)),
{
    reveal_strlit("-webkit-mask-box-image");
    reveal_strlit("-webkit-mask-box-image-outset");
    reveal_with_fuel(seq_less_from, 24);
}

proof fn lemma_lookup_adjacent_41()
    ensures
        name_less(lookup_name(41), lookup_name(42)),
{
    reveal_strlit("-webkit-mask-box-image-outset");
    reveal_strlit("-webkit-mask-box-image-repeat");
    reveal_with_fuel(seq_less_from, 25);
}

proof fn lemma_lookup_adjacent_42()
    ensures
        name_less(lookup_name(42), lookup_name(43)),
{
    reveal_strlit("-webkit-mask-box-image-repeat");
    reveal_strlit("-webkit-mask-box-image-slice");
    reveal_with_fuel(seq_less_from, 25);
}

proof fn lemma_lookup_adjacent_43()
    ensures
        name_less(lookup_name(43), lookup_name(44)),
{
    reveal_strlit("-webkit-mask-box-image-slice");
    reveal_strlit("-webkit-mask-box-image-source");
    reveal_with_fuel(seq_less_from, 26);
}

proof fn lemma_lookup_adjacent_44()
    ensures
        name_less(lookup_name(44), lookup_name(45)),
{
    reveal_strlit("-webkit-mask-box-image-source");
    reveal_strlit("-webkit-mask-box-image-width");
    reveal_with_fuel(seq_less_from, 25);
}

proof fn lemma_lookup_adjacent_45()
    ensures
        name_less(lookup_name(45), lookup_name(46)),
{
    reveal_strlit("-webkit-mask-box-image-width");
    reveal_strlit("-webkit-mask-clip");
    reveal_with_fuel(seq_less_from, 15);
}

proof fn lemma_lookup_adjacent_46()
    ensures
        name_less(lookup_name(46), lookup_name(47)),
{
    reveal_strlit("-webkit-mask-clip");
    reveal_strlit("-webkit-mask-composite");
    reveal_with_fuel(seq_less_from, 16);
}

proof fn lemma_lookup_adjacent_47()
    ensures
        name_less(lookup_name(47), lookup_name(48)),
{
    reveal_strlit("-webkit-mask-composite");
    reveal_strlit("-webkit-mask-image");
    reveal_with_fuel(seq_less_from, 15);
}

proof fn lemma_lookup_adjacent_48()
    ensures
        name_less(lookup_name(48), lookup_name(49)),
{
    reveal_strlit("-webkit-mask-image");
    reveal_strlit("-webkit-mask-origin");
    reveal_with_fuel(seq_less_from, 15);
}

proof fn lemma_lookup_adjacent_49()
    ensures
        name_less(lookup_name(49), lookup_name(50)),
{
    reveal_strlit("-webkit-mask-origin");
    reveal_strlit("-webkit-mask-position");
    reveal_with_fuel(seq_less_from, 15);
}

proof fn lemma_lookup_adjacent_50()
    ensures
        name_less(lookup_name(50), lookup_name(51)),
{
    reveal_strlit("-webkit-mask-position");
    reveal_strlit("-webkit-mask-repeat");
    reveal_with_fuel(seq_less_from, 15);
}

proof fn lemma_lookup_adjacent_51()
    ensures
        name_less(lookup_name(51), lookup_name(52)),
{
    reveal_strlit("-webkit-mask-repeat");
    reveal_strlit("-webkit-mask-size");
    reveal_with_fuel(seq_less_from, 15);
}

proof fn lemma_lookup_adjacent_52()
    ensures
        name_less(lookup_name(52), lookup_name(53)),
{
    reveal_strlit("-webkit-mask-size");
    reveal_strlit("-webkit-order");
    reveal_with_fuel(seq_less_from, 10);
}

proof fn lemma_lookup_adjacent_53()
    ensures
        name_less(lookup_name(53), lookup_name(54)),
{
    reveal_strlit("-webkit-order");
    reveal_strlit("-webkit-perspective");
    reveal_with_fuel(seq_less_from, 10);
}

proof fn lemma_lookup_adjacent_54()
    ensures
        name_less(lookup_name(54), lookup_name(55)),
{
    reveal_strlit("-webkit-perspective");
    reveal_strlit("-webkit-perspective-origin");
    reveal_with_fuel(seq_less_from, 21);
}

proof fn lemma_lookup_adjacent_55()
    ensures
        name_less(lookup_name(55), lookup_name(56)),
{
    reveal_strlit("-webkit-perspective-origin");
    reveal_strlit("-webkit-text-fill-color");
    reveal_with_fuel(seq_less_from, 10);
}

proof fn lemma_lookup_adjacent_56()
    ensures
        name_less(lookup_name(56), lookup_name(57)),
{
    reveal_strlit("-webkit-text-fill-color");
    reveal_strlit("-webkit-text-size-adjust");
    reveal_with_fuel(seq_less_from, 15);
}

proof fn lemma_lookup_adjacent_57()
    ensures
        name_less(lookup_name(57), lookup_name(58)),
{
    reveal_strlit("-webkit-text-size-adjust");
    reveal_strlit("-webkit-text-stroke");
    reveal_with_fuel(seq_less_from, 16);
}

proof fn lemma_lookup_adjacent_58()
    ensures
        name_less(lookup_name(58), lookup_name(59)),
{
    reveal_strlit("-webkit-text-stroke");
    reveal_strlit("-webkit-text-stroke-color");
    reveal_with_fuel(seq_less_from, 21);
}

proof fn lemma_lookup_adjacent_59()
    ensures
        name_less(lookup_name(59), lookup_name(60)),
{
    reveal_strlit("-webkit-text-stroke-color");
    reveal_strlit("-webkit-text-stroke-width");
    reveal_with_fuel(seq_less_from, 22);
}

proof fn lemma_lookup_adjacent_60()
    ensures
        name_less(lookup_name(60), lookup_name(61)),
{
    reveal_strlit("-webkit-text-stroke-width");
    reveal_strlit("-webkit-transform");
    reveal_with_fuel(seq_less_from, 11);
}

proof fn lemma_lookup_adjacent_61()
    ensures
        name_less(lookup_name(61), lookup_name(62)),
{
    reveal_strlit("-webkit-transform");
    reveal_strlit("-webkit-transform-origin");
    reveal_with_fuel(seq_less_from, 19);
}

proof fn lemma_lookup_adjacent_62()
    ensures
        name_less(lookup_name(62), lookup_name(63)),
{
    reveal_strlit("-webkit-transform-origin");
    reveal_strlit("-webkit-transform-style");
    reveal_with_fuel(seq_less_from, 20);
}

proof fn lemma_lookup_adjacent_63()
    ensures
        name_less(lookup_name(63), lookup_name(64)),
{
    reveal_strlit("-webkit-transform-style");
    reveal_strlit("-webkit-transition");
    reveal_with_fuel(seq_less_from, 15);
}

proof fn lemma_lookup_adjacent_64()
    ensures
        name_less(lookup_name(64), lookup_name(65)),
{
    reveal_strlit("-webkit-transition");
    reveal_strlit("-webkit-transition-delay");
    reveal_with_fuel(seq_less_from, 20);
}

proof fn lemma_lookup_adjacent_65()
    ensures
        name_less(lookup_name(65), lookup_name(66)),
{
    reveal_strlit("-webkit-transition-delay");
    reveal_strlit("-webkit-transition-duration");
    reveal_with_fuel(seq_less_from, 22);
}

proof fn lemma_lookup_adjacent_66()
    ensures
        name_less(lookup_name(66), lookup_name(67)),
{
    reveal_strlit("-webkit-transition-duration");
    reveal_strlit("-webkit-transition-property");
    reveal_with_fuel(seq_less_from, 21);
}

proof fn lemma_lookup_adjacent_67()
    ensures
        name_less(lookup_name(67), lookup_name(68)),
{
    reveal_strlit("-webkit-transition-property");
    reveal_strlit("-webkit-transition-timing-function");
    reveal_with_fuel(seq_less_from, 21);
}

proof fn lemma_lookup_adjacent_68()
    ensures
        name_less(lookup_name(68), lookup_name(69)),
{
    reveal_strlit("-webkit-transition-timing-function");
    reveal_strlit("-webkit-user-select");
    reveal_with_fuel(seq_less_from, 10);
}

proof fn lemma_lookup_adjacent_69()
    ensures
        name_less(lookup_name(69), lookup_name(70)),
{
    reveal_strlit("-webkit-user-select");
    reveal_strlit("accent-color");
    reveal_with_fuel(seq_less_from, 2);
}

proof fn lemma_lookup_adjacent_70()
    ensures
        name_less(lookup_name(70), lookup_name(71)),
{
    reveal_strlit("accent-color");
    reveal_strlit("align-content");
    reveal_with_fuel(seq_less_from, 3);
}

proof fn lemma_lookup_adjacent_71()
    ensures
        name_less(lookup_name(71), lookup_name(72)),
{
    reveal_strlit("align-content");
    reveal_strlit("align-items");
    reveal_with_fuel(seq_less_from, 8);
}

proof fn lemma_lookup_adjacent_72()
    ensures
        name_less(lookup_name(72), lookup_name(73)),
{
    reveal_strlit("align-items");
    reveal_strlit("align-self");
    reveal_with_fuel(seq_less_from, 8);
}

proof fn lemma_lookup_adjacent_73()
    ensures
        name_less(lookup_name(73), lookup_name(74)),
{
    reveal_strlit("align-self");
    reveal_strlit("alignment-baseline");
    reveal_with_fuel(seq_less_from, 7);
}

proof fn lemma_lookup_adjacent_74()
    ensures
        name_less(lookup_name(74), lookup_name(75)),
{
    reveal_strlit("alignment-baseline");
    reveal_strlit("all");
    reveal_with_fuel(seq_less_from, 4);
}

proof fn lemma_lookup_adjacent_75()
    ensures
        name_less(lookup_name(75), lookup_name(76)),
{
    reveal_strlit("all");
    reveal_strlit("anchor-name");
    reveal_with_fuel(seq_less_from, 3);
}

proof fn lemma_lookup_adjacent_76()
    ensures
        name_less(lookup_name(76), lookup_name(77)),
{
    reveal_strlit("anchor-name");
    reveal_strlit("anchor-scope");
    reveal_with_fuel(seq_less_from, 9);
}

proof fn lemma_lookup_adjacent_77()
    ensures
        name_less(lookup_name(77), lookup_name(78)),
{
    reveal_strlit("anchor-scope");
    reveal_strlit("animation");
    reveal_with_fuel(seq_less_from, 4);
}

proof fn lemma_lookup_adjacent_78()
    ensures
        name_less(lookup_name(78), lookup_name(79)),
{
    reveal_strlit("animation");
    reveal_strlit("animation-composition");
    reveal_with_fuel(seq_less_from, 11);
}

proof fn lemma_lookup_adjacent_79()
    ensures
        name_less(lookup_name(79), lookup_name(80)),
{
    reveal_strlit("animation-composition");
    reveal_strlit("animation-delay");
    reveal_with_fuel(seq_less_from, 12);
}

proof fn lemma_lookup_adjacent_80()
    ensures
        name_less(lookup_name(80), lookup_name(81)),
{
    reveal_strlit("animation-delay");
    reveal_strlit("animation-direction");
    reveal_with_fuel(seq_less_from, 13);
}

proof fn lemma_lookup_adjacent_81()
    ensures
        name_less(lookup_name(81), lookup_name(82)),
{
    reveal_strlit("animation-direction");
    reveal_strlit("animation-duration");
    reveal_with_fuel(seq_less_from, 13);
}

proof fn lemma_lookup_adjacent_82()
    ensures
        name_less(lookup_name(82), lookup_name(83)),
{
    reveal_strlit("animation-duration");
    reveal_strlit("animation-fill-mode");
    reveal_with_fuel(seq_less_from, 12);
}

proof fn lemma_lookup_adjacent_83()
    ensures
        name_less(lookup_name(83), lookup_name(84)),
{
    reveal_strlit("animation-fill-mode");
    reveal_strlit("animation-iteration-count");
    reveal_with_fuel(seq_less_from, 12);
}

proof fn lemma_lookup_adjacent_84()
    ensures
        name_less(lookup_name(84), lookup_name(85)),
{
    reveal_strlit("animation-iteration-count");
    reveal_strlit("animation-name");
    reveal_with_fuel(seq_less_from, 12);
}

proof fn lemma_lookup_adjacent_85()
    ensures
        name_less(lookup_name(85), lookup_name(86)),
{
    reveal_strlit("animation-name");
    reveal_strlit("animation-play-state");
    reveal_with_fuel(seq_less_from, 12);
}

proof fn lemma_lookup_adjacent_86()
    ensures
        name_less(lookup_name(86), lookup_name(87)),
{
    reveal_strlit("animation-play-state");
    reveal_strlit("animation-range");
    reveal_with_fuel(seq_less_from, 12);
}

proof fn lemma_lookup_adjacent_87()
    ensures
        name_less(lookup_name(87), lookup_name(88)),
{
    reveal_strlit("animation-range");
    reveal_strlit("animation-range-center");
    reveal_with_fuel(seq_less_from, 17);
}

proof fn lemma_lookup_adjacent_88()
    ensures
        name_less(lookup_name(88), lookup_name(89)),
{
    reveal_strlit("animation-range-center");
    reveal_strlit("animation-range-end");
    reveal_with_fuel(seq_less_from, 18);
}

proof fn lemma_lookup_adjacent_89()
    ensures
        name_less(lookup_name(89), lookup_name(90)),
{
    reveal_strlit("animation-range-end");
    reveal_strlit("animation-range-start");
    reveal_with_fuel(seq_less_from, 18);
}

proof fn lemma_lookup_adjacent_90()
    ensures
        name_less(lookup_name(90), lookup_name(91)),
{
    reveal_strlit("animation-range-start");
    reveal_strlit("animation-timeline");
    reveal_with_fuel(seq_less_from, 12);
}

proof fn lemma_lookup_adjacent_91()
    ensures
        name_less(lookup_name(91), lookup_name(92)),
{
    reveal_strlit("animation-timeline");
    reveal_strlit("animation-timing-function");
    reveal_with_fuel(seq_less_from, 15);
}

proof fn lemma_lookup_adjacent_92()
    ensures
        name_less(lookup_name(92), lookup_name(93)),
{
    reveal_strlit("animation-timing-function");
    reveal_strlit("animation-trigger");
    reveal_with_fuel(seq_less_from, 13);
}

proof fn lemma_lookup_adjacent_93()
    ensures
        name_less(lookup_name(93), lookup_name(94)),
{
    reveal_strlit("animation-trigger");
    reveal_strlit("appearance");
    reveal_with_fuel(seq_less_from, 3);
}

proof fn lemma_lookup_adjacent_94()
    ensures
        name_less(lookup_name(94), lookup_name(95)),
{
    reveal_strlit("appearance");
    reveal_strlit("aspect-ratio");
    reveal_with_fuel(seq_less_from, 3);
}

proof fn lemma_lookup_adjacent_95()
    ensures
        name_less(lookup_name(95), lookup_name(96)),
{
    reveal_strlit("aspect-ratio");
    reveal_strlit("backdrop-filter");
    reveal_with_fuel(seq_less_from, 2);
}

proof fn lemma_lookup_adjacent_96()
    ensures
        name_less(lookup_name(96), lookup_name(97)),
{
    reveal_strlit("backdrop-filter");
    reveal_strlit("backface-visibility");
    reveal_with_fuel(seq_less_from, 6);
}

proof fn lemma_lookup_adjacent_97()
    ensures
        name_less(lookup_name(97), lookup_name(98)),
{
    reveal_strlit("backface-visibility");
    reveal_strlit("background");
    reveal_with_fuel(seq_less_from, 6);
}

proof fn lemma_lookup_adjacent_98()
    ensures
        name_less(lookup_name(98), lookup_name(99)),
{
    reveal_strlit("background");
    reveal_strlit("background-attachment");
    reveal_with_fuel(seq_less_from, 12);
}

proof fn lemma_lookup_adjacent_99()
    ensures
        name_less(lookup_name(99), lookup_name(100)),
{
    reveal_strlit("background-attachment");
    reveal_strlit("background-blend-mode");
    reveal_with_fuel(seq_less_from, 13);
}

proof fn lemma_lookup_adjacent_100()
    ensures
        name_less(lookup_name(100), lookup_name(101)),
{
    reveal_strlit("background-blend-mode");
    reveal_strlit("background-clip");
    reveal_with_fuel(seq_less_from, 13);
}

proof fn lemma_lookup_adjacent_101()
    ensures
        name_less(lookup_name(101), lookup_name(102)),
{
    reveal_strlit("background-clip");
    reveal_strlit("background-color");
    reveal_with_fuel(seq_less_from, 14);
}

proof fn lemma_lookup_adjacent_102()
    ensures
        name_less(lookup_name(102), lookup_name(103)),
{
    reveal_strlit("background-color");
    reveal_strlit("background-image");
    reveal_with_fuel(seq_less_from, 13);
}

proof fn lemma_lookup_adjacent_103()
    ensures
        name_less(lookup_name(103), lookup_name(104)),
{
    reveal_strlit("background-image");
    reveal_strlit("background-origin");
    reveal_with_fuel(seq_less_from, 13);
}

proof fn lemma_lookup_adjacent_104()
    ensures
        name_less(lookup_name(104), lookup_name(105)),
{
    reveal_strlit("background-origin");
    reveal_strlit("background-position");
    reveal_with_fuel(seq_less_from, 13);
}

proof fn lemma_lookup_adjacent_105()
    ensures
        name_less(lookup_name(105), lookup_name(106)),
{
    reveal_strlit("background-position");
    reveal_strlit("background-position-block");
    reveal_with_fuel(seq_less_from, 21);
}

proof fn lemma_lookup_adjacent_106()
    ensures
        name_less(lookup_name(106), lookup_name(107)),
{
    reveal_strlit("background-position-block");
    reveal_strlit("background-position-inline");
    reveal_with_fuel(seq_less_from, 22);
}

proof fn lemma_lookup_adjacent_107()
    ensures
        name_less(lookup_name(107), lookup_name(108)),
{
    reveal_strlit("background-position-inline");
    reveal_strlit("background-position-x");
    reveal_with_fuel(seq_less_from, 22);
}

proof fn lemma_lookup_adjacent_108()
    ensures
        name_less(lookup_name(108), lookup_name(109)),
{
    reveal_strlit("background-position-x");
    reveal_strlit("background-position-y");
    reveal_with_fuel(seq_less_from, 22);
}

proof fn lemma_lookup_adjacent_109()
    ensures
        name_less(lookup_name(109), lookup_name(110)),
{
    reveal_strlit("background-position-y");
    reveal_strlit("background-repeat");
    reveal_with_fuel(seq_less_from, 13);
}

proof fn lemma_lookup_adjacent_110()
    ensures
        name_less(lookup_name(110), lookup_name(111)),
{
    reveal_strlit("background-repeat");
    reveal_strlit("background-repeat-block");
    reveal_with_fuel(seq_less_from, 19);
}

proof fn lemma_lookup_adjacent_111()
    ensures
        name_less(lookup_name(111), lookup_name(112)),
{
    reveal_strlit("background-repeat-block");
    reveal_strlit("background-repeat-inline");
    reveal_with_fuel(seq_less_from, 20);
}

proof fn lemma_lookup_adjacent_112()
    ensures
        name_less(lookup_name(112), lookup_name(113)),
{
    reveal_strlit("background-repeat-inline");
    reveal_strlit("background-repeat-x");
    reveal_with_fuel(seq_less_from, 20);
}

proof fn lemma_lookup_adjacent_113()
    ensures
        name_less(lookup_name(113), lookup_name(114)),
{
    reveal_strlit("background-repeat-x");
    reveal_strlit("background-repeat-y");
    reveal_with_fuel(seq_less_from, 20);
}

proof fn lemma_lookup_adjacent_114()
    ensures
        name_less(lookup_name(114), lookup_name(115)),
{
    reveal_strlit("background-repeat-y");
    reveal_strlit("background-size");
    reveal_with_fuel(seq_less_from, 13);
}

proof fn lemma_lookup_adjacent_115()
    ensures
        name_less(lookup_name(115), lookup_name(116)),
{
    reveal_strlit("background-size");
    reveal_strlit("background-tbd");
    reveal_with_fuel(seq_less_from, 13);
}

proof fn lemma_lookup_adjacent_116()
    ensures
        name_less(lookup_name(116), lookup_name(117)),
{
    reveal_strlit("background-tbd");
    reveal_strlit("baseline-shift");
    reveal_with_fuel(seq_less_from, 4);
}

proof fn lemma_lookup_adjacent_117()
    ensures
        name_less(lookup_name(117), lookup_name(118)),
{
    reveal_strlit("baseline-shift");
    reveal_strlit("baseline-source");
    reveal_with_fuel(seq_less_from, 12);
}

proof fn lemma_lookup_adjacent_118()
    ensures
        name_less(lookup_name(118), lookup_name(119)),
{
    reveal_strlit("baseline-source");
    reveal_strlit("block-ellipsis");
    reveal_with_fuel(seq_less_from, 3);
}

proof fn lemma_lookup_adjacent_119()
    ensures
        name_less(lookup_name(119), lookup_name(120)),
{
    reveal_strlit("block-ellipsis");
    reveal_strlit("block-size");
    reveal_with_fuel(seq_less_from, 8);
}

proof fn lemma_lookup_adjacent_120()
    ensures
        name_less(lookup_name(120), lookup_name(121)),
{
    reveal_strlit("block-size");
    reveal_strlit("block-step");
    reveal_with_fuel(seq_less_from, 9);
}

proof fn lemma_lookup_adjacent_121()
    ensures
        name_less(lookup_name(121), lookup_name(122)),
{
    reveal_strlit("block-step");
    reveal_strlit("block-step-align");
    reveal_with_fuel(seq_less_from, 12);
}

proof fn lemma_lookup_adjacent_122()
    ensures
        name_less(lookup_name(122), lookup_name(123)),
{
    reveal_strlit("block-step-align");
    reveal_strlit("block-step-insert");
    reveal_with_fuel(seq_less_from, 13);
}

proof fn lemma_lookup_adjacent_123()
    ensures
        name_less(lookup_name(123), lookup_name(124)),
{
    reveal_strlit("block-step-insert");
    reveal_strlit("block-step-round");
    reveal_with_fuel(seq_less_from, 13);
}

proof fn lemma_lookup_adjacent_124()
    ensures
        name_less(lookup_name(124), lookup_name(125)),
{
    reveal_strlit("block-step-round");
    reveal_strlit("block-step-size");
    reveal_with_fuel(seq_less_from, 13);
}

proof fn lemma_lookup_adjacent_125()
    ensures
        name_less(lookup_name(125), lookup_name(126)),
{
    reveal_strlit("block-step-size");
    reveal_strlit("bookmark-label");
    reveal_with_fuel(seq_less_from, 3);
}

proof fn lemma_lookup_adjacent_126()
    ensures
        name_less(lookup_name(126), lookup_name(127)),
{
    reveal_strlit("bookmark-label");
    reveal_strlit("bookmark-level");
    reveal_with_fuel(seq_less_from, 12);
}

proof fn lemma_lookup_adjacent_127()
    ensures
        name_less(lookup_name(127), lookup_name(128)),
{
    reveal_strlit("bookmark-level");
    reveal_strlit("bookmark-state");
    reveal_with_fuel(seq_less_from, 11);
}

proof fn lemma_lookup_adjacent_128()
    ensures
        name_less(lookup_name(128), lookup_name(129)),
{
    reveal_strlit("bookmark-state");
    reveal_strlit("border");
    reveal_with_fuel(seq_less_from, 4);
}

proof fn lemma_lookup_adjacent_129()
    ensures
        name_less(lookup_name(129), lookup_name(130)),
{
    reveal_strlit("border");
    reveal_strlit("border-block");
    reveal_with_fuel(seq_less_from, 8);
}

proof fn lemma_lookup_adjacent_130()
    ensures
        name_less(lookup_name(130), lookup_name(131)),
{
    reveal_strlit("border-block");
    reveal_strlit("border-block-clip");
    reveal_with_fuel(seq_less_from, 14);
}

proof fn lemma_lookup_adjacent_131()
    ensures
        name_less(lookup_name(131), lookup_name(132)),
{
    reveal_strlit("border-block-clip");
    reveal_strlit("border-block-color");
    reveal_with_fuel(seq_less_from, 16);
}

proof fn lemma_lookup_adjacent_132()
    ensures
        name_less(lookup_name(132), lookup_name(133)),
{
    reveal_strlit("border-block-color");
    reveal_strlit("border-block-end");
    reveal_with_fuel(seq_less_from, 15);
}

proof fn lemma_lookup_adjacent_133()
    ensures
        name_less(lookup_name(133), lookup_name(134)),
{
    reveal_strlit("border-block-end");
    reveal_strlit("border-block-end-clip");
    reveal_with_fuel(seq_less_from, 18);
}

proof fn lemma_lookup_adjacent_134()
    ensures
        name_less(lookup_name(134), lookup_name(135)),
{
    reveal_strlit("border-block-end-clip");
    reveal_strlit("border-block-end-color");
    reveal_with_fuel(seq_less_from, 20);
}

proof fn lemma_lookup_adjacent_135()
    ensures
        name_less(lookup_name(135), lookup_name(136)),
{
    reveal_strlit("border-block-end-color");
    reveal_strlit("border-block-end-radius");
    reveal_with_fuel(seq_less_from, 19);
}

proof fn lemma_lookup_adjacent_136()
    ensures
        name_less(lookup_name(136), lookup_name(137)),
{
    reveal_strlit("border-block-end-radius");
    reveal_strlit("border-block-end-style");
    reveal_with_fuel(seq_less_from, 19);
}

proof fn lemma_lookup_adjacent_137()
    ensures
        name_less(lookup_name(137), lookup_name(138)),
{
    reveal_strlit("border-block-end-style");
    reveal_strlit("border-block-end-width");
    reveal_with_fuel(seq_less_from, 19);
}

proof fn lemma_lookup_adjacent_138()
    ensures
        name_less(lookup_name(138), lookup_name(139)),
{
    reveal_strlit("border-block-end-width");
    reveal_strlit("border-block-start");
    reveal_with_fuel(seq_less_from, 15);
}

proof fn lemma_lookup_adjacent_139()
    ensures
        name_less(lookup_name(139), lookup_name(140)),
{
    reveal_strlit("border-block-start");
    reveal_strlit("border-block-start-clip");
    reveal_with_fuel(seq_less_from, 20);
}

proof fn lemma_lookup_adjacent_140()
    ensures
        name_less(lookup_name(140), lookup_name(141)),
{
    reveal_strlit("border-block-start-clip");
    reveal_strlit("border-block-start-color");
    reveal_with_fuel(seq_less_from, 22);
}

proof fn lemma_lookup_adjacent_141()
    ensures
        name_less(lookup_name(141), lookup_name(142)),
{
    reveal_strlit("border-block-start-color");
    reveal_strlit("border-block-start-radius");
    reveal_with_fuel(seq_less_from, 21);
}

proof fn lemma_lookup_adjacent_142()
    ensures
        name_less(lookup_name(142), lookup_name(143)),
{
    reveal_strlit("border-block-start-radius");
    reveal_strlit("border-block-start-style");
    reveal_with_fuel(seq_less_from, 21);
}

proof fn lemma_lookup_adjacent_143()
    ensures
        name_less(lookup_name(143), lookup_name(144)),
{
    reveal_strlit("border-block-start-style");
    reveal_strlit("border-block-start-width");
    reveal_with_fuel(seq_less_from, 21);
}

proof fn lemma_lookup_adjacent_144()
    ensures
        name_less(lookup_name(144), lookup_name(145)),
{
    reveal_strlit("border-block-start-width");
    reveal_strlit("border-block-style");
    reveal_with_fuel(seq_less_from, 17);
}

proof fn lemma_lookup_adjacent_145()
    ensures
        name_less(lookup_name(145), lookup_name(146)),
{
    reveal_strlit("border-block-style");
    reveal_strlit("border-block-width");
    reveal_with_fuel(seq_less_from, 15);
}

proof fn lemma_lookup_adjacent_146()
    ensures
        name_less(lookup_name(146), lookup_name(147)),
{
    reveal_strlit("border-block-width");
    reveal_strlit("border-bottom");
    reveal_with_fuel(seq_less_from, 10);
}

proof fn lemma_lookup_adjacent_147()
    ensures
        name_less(lookup_name(147), lookup_name(148)),
{
    reveal_strlit("border-bottom");
    reveal_strlit("border-bottom-clip");
    reveal_with_fuel(seq_less_from, 15);
}

proof fn lemma_lookup_adjacent_148()
    ensures
        name_less(lookup_name(148), lookup_name(149)),
{
    reveal_strlit("border-bottom-clip");
    reveal_strlit("border-bottom-color");
    reveal_with_fuel(seq_less_from, 17);
}

proof fn lemma_lookup_adjacent_149()
    ensures
        name_less(lookup_name(149), lookup_name(150)),
{
    reveal_strlit("border-bottom-color");
    reveal_strlit("border-bottom-left-radius");
    reveal_with_fuel(seq_less_from, 16);
}

proof fn lemma_lookup_adjacent_150()
    ensures
        name_less(lookup_name(150), lookup_name(151)),
{
    reveal_strlit("border-bottom-left-radius");
    reveal_strlit("border-bottom-radius");
    reveal_with_fuel(seq_less_from, 16);
}

proof fn lemma_lookup_adjacent_151()
    ensures
        name_less(lookup_name(151), lookup_name(152)),
{
    reveal_strlit("border-bottom-radius");
    reveal_strlit("border-bottom-right-radius");
    reveal_with_fuel(seq_less_from, 17);
}

proof fn lemma_lookup_adjacent_152()
    ensures
        name_less(lookup_name(152), lookup_name(153)),
{
    reveal_strlit("border-bottom-right-radius");
    reveal_strlit("border-bottom-style");
    reveal_with_fuel(seq_less_from, 16);
}

proof fn lemma_lookup_adjacent_153()
    ensures
        name_less(lookup_name(153), lookup_name(154)),
{
    reveal_strlit("border-bottom-style");
    reveal_strlit("border-bottom-width");
    reveal_with_fuel(seq_less_from, 16);
}

proof fn lemma_lookup_adjacent_154()
    ensures
        name_less(lookup_name(154), lookup_name(155)),
{
    reveal_strlit("border-bottom-width");
    reveal_strlit("border-boundary");
    reveal_with_fuel(seq_less_from, 11);
}

proof fn lemma_lookup_adjacent_155()
    ensures
        name_less(lookup_name(155), lookup_name(156)),
{
    reveal_strlit("border-boundary");
    reveal_strlit("border-clip");
    reveal_with_fuel(seq_less_from, 9);
}

proof fn lemma_lookup_adjacent_156()
    ensures
        name_less(lookup_name(156), lookup_name(157)),
{
    reveal_strlit("border-clip");
    reveal_strlit("border-collapse");
    reveal_with_fuel(seq_less_from, 10);
}

proof fn lemma_lookup_adjacent_157()
    ensures
        name_less(lookup_name(157), lookup_name(158)),
{
    reveal_strlit("border-collapse");
    reveal_strlit("border-color");
    reveal_with_fuel(seq_less_from, 12);
}

proof fn lemma_lookup_adjacent_158()
    ensures
        name_less(lookup_name(158), lookup_name(159)),
{
    reveal_strlit("border-color");
    reveal_strlit("border-end-end-radius");
    reveal_with_fuel(seq_less_from, 9);
}

proof fn lemma_lookup_adjacent_159()
    ensures
        name_less(lookup_name(159), lookup_name(160)),
{
    reveal_strlit("border-end-end-radius");
    reveal_strlit("border-end-start-radius");
    reveal_with_fuel(seq_less_from, 13);
}

proof fn lemma_lookup_adjacent_160()
    ensures
        name_less(lookup_name(160), lookup_name(161)),
{
    reveal_strlit("border-end-start-radius");
    reveal_strlit("border-image");
    reveal_with_fuel(seq_less_from, 9);
}

proof fn lemma_lookup_adjacent_161()
    ensures
        name_less(lookup_name(161), lookup_name(162)),
{
    reveal_strlit("border-image");
    reveal_strlit("border-image-outset");
    reveal_with_fuel(seq_less_from, 14);
}

proof fn lemma_lookup_adjacent_162()
    ensures
        name_less(lookup_name(162), lookup_name(163)),
{
    reveal_strlit("border-image-outset");
    reveal_strlit("border-image-repeat");
    reveal_with_fuel(seq_less_from, 15);
}

proof fn lemma_lookup_adjacent_163()
    ensures
        name_less(lookup_name(163), lookup_name(164)),
{
    reveal_strlit("border-image-repeat");
    reveal_strlit("border-image-slice");
    reveal_with_fuel(seq_less_from, 15);
}

proof fn lemma_lookup_adjacent_164()
    ensures
        name_less(lookup_name(164), lookup_name(165)),
{
    reveal_strlit("border-image-slice");
    reveal_strlit("border-image-source");
    reveal_with_fuel(seq_less_from, 16);
}

proof fn lemma_lookup_adjacent_165()
    ensures
        name_less(lookup_name(165), lookup_name(166)),
{
    reveal_strlit("border-image-source");
    reveal_strlit("border-image-width");
    reveal_with_fuel(seq_less_from, 15);
}

proof fn lemma_lookup_adjacent_166()
    ensures
        name_less(lookup_name(166), lookup_name(167)),
{
    reveal_strlit("border-image-width");
    reveal_strlit("border-inline");
    reveal_with_fuel(seq_less_from, 10);
}

proof fn lemma_lookup_adjacent_167()
    ensures
        name_less(lookup_name(167), lookup_name(168)),
{
    reveal_strlit("border-inline");
    reveal_strlit("border-inline-clip");
    reveal_with_fuel(seq_less_from, 15);
}

proof fn lemma_lookup_adjacent_168()
    ensures
        name_less(lookup_name(168), lookup_name(169)),
{
    reveal_strlit("border-inline-clip");
    reveal_strlit("border-inline-color");
    reveal_with_fuel(seq_less_from, 17);
}

proof fn lemma_lookup_adjacent_169()
    ensures
        name_less(lookup_name(169), lookup_name(170)),
{
    reveal_strlit("border-inline-color");
    reveal_strlit("border-inline-end");
    reveal_with_fuel(seq_less_from, 16);
}

proof fn lemma_lookup_adjacent_170()
    ensures
        name_less(lookup_name(170), lookup_name(171)),
{
    reveal_strlit("border-inline-end");
    reveal_strlit("border-inline-end-clip");
    reveal_with_fuel(seq_less_from, 19);
}

proof fn lemma_lookup_adjacent_171()
    ensures
        name_less(lookup_name(171), lookup_name(172)),
{
    reveal_strlit("border-inline-end-clip");
    reveal_strlit("border-inline-end-color");
    reveal_with_fuel(seq_less_from, 21);
}

proof fn lemma_lookup_adjacent_172()
    ensures
        name_less(lookup_name(172), lookup_name(173)),
{
    reveal_strlit("border-inline-end-color");
    reveal_strlit("border-inline-end-radius");
    reveal_with_fuel(seq_less_from, 20);
}

proof fn lemma_lookup_adjacent_173()
    ensures
        name_less(lookup_name(173), lookup_name(174)),
{
    reveal_strlit("border-inline-end-radius");
    reveal_strlit("border-inline-end-style");
    reveal_with_fuel(seq_less_from, 20);
}

proof fn lemma_lookup_adjacent_174()
    ensures
        name_less(lookup_name(174), lookup_name(175)),
{
    reveal_strlit("border-inline-end-style");
    reveal_strlit("border-inline-end-width");
    reveal_with_fuel(seq_less_from, 20);
}

proof fn lemma_lookup_adjacent_175()
    ensures
        name_less(lookup_name(175), lookup_name(176)),
{
    reveal_strlit("border-inline-end-width");
    reveal_strlit("border-inline-start");
    reveal_with_fuel(seq_less_from, 16);
}

proof fn lemma_lookup_adjacent_176()
    ensures
        name_less(lookup_name(176), lookup_name(177)),
{
    reveal_strlit("border-inline-start");
    reveal_strlit("border-inline-start-clip");
    reveal_with_fuel(seq_less_from, 21);
}

proof fn lemma_lookup_adjacent_177()
    ensures
        name_less(lookup_name(177), lookup_name(178)),
{
    reveal_strlit("border-inline-start-clip");
    reveal_strlit("border-inline-start-color");
    reveal_with_fuel(seq_less_from, 23);
}

proof fn lemma_lookup_adjacent_178()
    ensures
        name_less(lookup_name(178), lookup_name(179)),
{
    reveal_strlit("border-inline-start-color");
    reveal_strlit("border-inline-start-radius");
    reveal_with_fuel(seq_less_from, 22);
}

proof fn lemma_lookup_adjacent_179()
    ensures
        name_less(lookup_name(179), lookup_name(180)),
{
    reveal_strlit("border-inline-start-radius");
    reveal_strlit("border-inline-start-style");
    reveal_with_fuel(seq_less_from, 22);
}

proof fn lemma_lookup_adjacent_180()
    ensures
        name_less(lookup_name(180), lookup_name(181)),
{
    reveal_strlit("border-inline-start-style");
    reveal_strlit("border-inline-start-width");
    reveal_with_fuel(seq_less_from, 22);
}

proof fn lemma_lookup_adjacent_181()
    ensures
        name_less(lookup_name(181), lookup_name(182)),
{
    reveal_strlit("border-inline-start-width");
    reveal_strlit("border-inline-style");
    reveal_with_fuel(seq_less_from, 18);
}

proof fn lemma_lookup_adjacent_182()
    ensures
        name_less(lookup_name(182), lookup_name(183)),
{
    reveal_strlit("border-inline-style");
    reveal_strlit("border-inline-width");
    reveal_with_fuel(seq_less_from, 16);
}

proof fn lemma_lookup_adjacent_183()
    ensures
        name_less(lookup_name(183), lookup_name(184)),
{
    reveal_strlit("border-inline-width");
    reveal_strlit("border-left");
    reveal_with_fuel(seq_less_from, 9);
}

proof fn lemma_lookup_adjacent_184()
    ensures
        name_less(lookup_name(184), lookup_name(185)),
{
    reveal_strlit("border-left");
    reveal_strlit("border-left-clip");
    reveal_with_fuel(seq_less_from, 13);
}

proof fn lemma_lookup_adjacent_185()
    ensures
        name_less(lookup_name(185), lookup_name(186)),
{
    reveal_strlit("border-left-clip");
    reveal_strlit("border-left-color");
    reveal_with_fuel(seq_less_from, 15);
}

proof fn lemma_lookup_adjacent_186()
    ensures
        name_less(lookup_name(186), lookup_name(187)),
{
    reveal_strlit("border-left-color");
    reveal_strlit("border-left-radius");
    reveal_with_fuel(seq_less_from, 14);
}

proof fn lemma_lookup_adjacent_187()
    ensures
        name_less(lookup_name(187), lookup_name(188)),
{
    reveal_strlit("border-left-radius");
    reveal_strlit("border-left-style");
    reveal_with_fuel(seq_less_from, 14);
}

proof fn lemma_lookup_adjacent_188()
    ensures
        name_less(lookup_name(188), lookup_name(189)),
{
    reveal_strlit("border-left-style");
    reveal_strlit("border-left-width");
    reveal_with_fuel(seq_less_from, 14);
}

proof fn lemma_lookup_adjacent_189()
    ensures
        name_less(lookup_name(189), lookup_name(190)),
{
    reveal_strlit("border-left-width");
    reveal_strlit("border-limit");
    reveal_with_fuel(seq_less_from, 10);
}

proof fn lemma_lookup_adjacent_190()
    ensures
        name_less(lookup_name(190), lookup_name(191)),
{
    reveal_strlit("border-limit");
    reveal_strlit("border-radius");
    reveal_with_fuel(seq_less_from, 9);
}

proof fn lemma_lookup_adjacent_191()
    ensures
        name_less(lookup_name(191), lookup_name(192)),
{
    reveal_strlit("border-radius");
    reveal_strlit("border-right");
    reveal_with_fuel(seq_less_from, 10);
}

proof fn lemma_lookup_adjacent_192()
    ensures
        name_less(lookup_name(192), lookup_name(193)),
{
    reveal_strlit("border-right");
    reveal_strlit("border-right-clip");
    reveal_with_fuel(seq_less_from, 14);
}

proof fn lemma_lookup_adjacent_193()
    ensures
        name_less(lookup_name(193), lookup_name(194)),
{
    reveal_strlit("border-right-clip");
    reveal_strlit("border-right-color");
    reveal_with_fuel(seq_less_from, 16);
}

proof fn lemma_lookup_adjacent_194()
    ensures
        name_less(lookup_name(194), lookup_name(195)),
{
    reveal_strlit("border-right-color");
    reveal_strlit("border-right-radius");
    reveal_with_fuel(seq_less_from, 15);
}

proof fn lemma_lookup_adjacent_195()
    ensures
        name_less(lookup_name(195), lookup_name(196)),
{
    reveal_strlit("border-right-radius");
    reveal_strlit("border-right-style");
    reveal_with_fuel(seq_less_from, 15);
}

proof fn lemma_lookup_adjacent_196()
    ensures
        name_less(lookup_name(196), lookup_name(197)),
{
    reveal_strlit("border-right-style");
    reveal_strlit("border-right-width");
    reveal_with_fuel(seq_less_from, 15);
}

proof fn lemma_lookup_adjacent_197()
    ensures
        name_less(lookup_name(197), lookup_name(198)),
{
    reveal_strlit("border-right-width");
    reveal_strlit("border-shape");
    reveal_with_fuel(seq_less_from, 9);
}

proof fn lemma_lookup_adjacent_198()
    ensures
        name_less(lookup_name(198), lookup_name(199)),
{
    reveal_strlit("border-shape");
    reveal_strlit("border-spacing");
    reveal_with_fuel(seq_less_from, 10);
}

proof fn lemma_lookup_adjacent_199()
    ensures
        name_less(lookup_name(199), lookup_name(200)),
{
    reveal_strlit("border-spacing");
    reveal_strlit("border-start-end-radius");
    reveal_with_fuel(seq_less_from, 10);
}

proof fn lemma_lookup_adjacent_200()
    ensures
        name_less(lookup_name(200), lookup_name(201)),
{
    reveal_strlit("border-start-end-radius");
    reveal_strlit("border-start-start-radius");
    reveal_with_fuel(seq_less_from, 15);
}

proof fn lemma_lookup_adjacent_201()
    ensures
        name_less(lookup_name(201), lookup_name(202)),
{
    reveal_strlit("border-start-start-radius");
    reveal_strlit("border-style");
    reveal_with_fuel(seq_less_from, 11);
}

proof fn lemma_lookup_adjacent_202()
    ensures
        name_less(lookup_name(202), lookup_name(203)),
{
    reveal_strlit("border-style");
    reveal_strlit("border-top");
    reveal_with_fuel(seq_less_from, 9);
}

proof fn lemma_lookup_adjacent_203()
    ensures
        name_less(lookup_name(203), lookup_name(204)),
{
    reveal_strlit("border-top");
    reveal_strlit("border-top-clip");
    reveal_with_fuel(seq_less_from, 12);
}

proof fn lemma_lookup_adjacent_204()
    ensures
        name_less(lookup_name(204), lookup_name(205)),
{
    reveal_strlit("border-top-clip");
    reveal_strlit("border-top-color");
    reveal_with_fuel(seq_less_from, 14);
}

proof fn lemma_lookup_adjacent_205()
    ensures
        name_less(lookup_name(205), lookup_name(206)),
{
    reveal_strlit("border-top-color");
    reveal_strlit("border-top-left-radius");
    reveal_with_fuel(seq_less_from, 13);
}

proof fn lemma_lookup_adjacent_206()
    ensures
        name_less(lookup_name(206), lookup_name(207)),
{
    reveal_strlit("border-top-left-radius");
    reveal_strlit("border-top-radius");
    reveal_with_fuel(seq_less_from, 13);
}

proof fn lemma_lookup_adjacent_207()
    ensures
        name_less(lookup_name(207), lookup_name(208)),
{
    reveal_strlit("border-top-radius");
    reveal_strlit("border-top-right-radius");
    reveal_with_fuel(seq_less_from, 14);
}

proof fn lemma_lookup_adjacent_208()
    ensures
        name_less(lookup_name(208), lookup_name(209)),
{
    reveal_strlit("border-top-right-radius");
    reveal_strlit("border-top-style");
    reveal_with_fuel(seq_less_from, 13);
}

proof fn lemma_lookup_adjacent_209()
    ensures
        name_less(lookup_name(209), lookup_name(210)),
{
    reveal_strlit("border-top-style");
    reveal_strlit("border-top-width");
    reveal_with_fuel(seq_less_from, 13);
}

proof fn lemma_lookup_adjacent_210()
    ensures
        name_less(lookup_name(210), lookup_name(211)),
{
    reveal_strlit("border-top-width");
    reveal_strlit("border-width");
    reveal_with_fuel(seq_less_from, 9);
}

proof fn lemma_lookup_adjacent_211()
    ensures
        name_less(lookup_name(211), lookup_name(212)),
{
    reveal_strlit("border-width");
    reveal_strlit("bottom");
    reveal_with_fuel(seq_less_from, 4);
}

proof fn lemma_lookup_adjacent_212()
    ensures
        name_less(lookup_name(212), lookup_name(213)),
{
    reveal_strlit("bottom");
    reveal_strlit("box-decoration-break");
    reveal_with_fuel(seq_less_from, 4);
}

proof fn lemma_lookup_adjacent_213()
    ensures
        name_less(lookup_name(213), lookup_name(214)),
{
    reveal_strlit("box-decoration-break");
    reveal_strlit("box-shadow");
    reveal_with_fuel(seq_less_from, 6);
}

proof fn lemma_lookup_adjacent_214()
    ensures
        name_less(lookup_name(214), lookup_name(215)),
{
    reveal_strlit("box-shadow");
    reveal_strlit("box-shadow-blur");
    reveal_with_fuel(seq_less_from, 12);
}

proof fn lemma_lookup_adjacent_215()
    ensures
        name_less(lookup_name(215), lookup_name(216)),
{
    reveal_strlit("box-shadow-blur");
    reveal_strlit("box-shadow-color");
    reveal_with_fuel(seq_less_from, 13);
}

proof fn lemma_lookup_adjacent_216()
    ensures
        name_less(lookup_name(216), lookup_name(217)),
{
    reveal_strlit("box-shadow-color");
    reveal_strlit("box-shadow-offset");
    reveal_with_fuel(seq_less_from, 13);
}

proof fn lemma_lookup_adjacent_217()
    ensures
        name_less(lookup_name(217), lookup_name(218)),
{
    reveal_strlit("box-shadow-offset");
    reveal_strlit("box-shadow-position");
    reveal_with_fuel(seq_less_from, 13);
}

proof fn lemma_lookup_adjacent_218()
    ensures
        name_less(lookup_name(218), lookup_name(219)),
{
    reveal_strlit("box-shadow-position");
    reveal_strlit("box-shadow-spread");
    reveal_with_fuel(seq_less_from, 13);
}

proof fn lemma_lookup_adjacent_219()
    ensures
        name_less(lookup_name(219), lookup_name(220)),
{
    reveal_strlit("box-shadow-spread");
    reveal_strlit("box-sizing");
    reveal_with_fuel(seq_less_from, 7);
}

proof fn lemma_lookup_adjacent_220()
    ensures
        name_less(lookup_name(220), lookup_name(221)),
{
    reveal_strlit("box-sizing");
    reveal_strlit("box-snap");
    reveal_with_fuel(seq_less_from, 7);
}

proof fn lemma_lookup_adjacent_221()
    ensures
        name_less(lookup_name(221), lookup_name(222)),
{
    reveal_strlit("box-snap");
    reveal_strlit("break-after");
    reveal_with_fuel(seq_less_from, 3);
}

proof fn lemma_lookup_adjacent_222()
    ensures
        name_less(lookup_name(222), lookup_name(223)),
{
    reveal_strlit("break-after");
    reveal_strlit("break-before");
    reveal_with_fuel(seq_less_from, 8);
}

proof fn lemma_lookup_adjacent_223()
    ensures
        name_less(lookup_name(223), lookup_name(224)),
{
    reveal_strlit("break-before");
    reveal_strlit("break-inside");
    reveal_with_fuel(seq_less_from, 8);
}

proof fn lemma_lookup_adjacent_224()
    ensures
        name_less(lookup_name(224), lookup_name(225)),
{
    reveal_strlit("break-inside");
    reveal_strlit("caption-side");
    reveal_with_fuel(seq_less_from, 2);
}

proof fn lemma_lookup_adjacent_225()
    ensures
        name_less(lookup_name(225), lookup_name(226)),
{
    reveal_strlit("caption-side");
    reveal_strlit("caret");
    reveal_with_fuel(seq_less_from, 4);
}

proof fn lemma_lookup_adjacent_226()
    ensures
        name_less(lookup_name(226), lookup_name(227)),
{
    reveal_strlit("caret");
    reveal_strlit("caret-animation");
    reveal_with_fuel(seq_less_from, 7);
}

proof fn lemma_lookup_adjacent_227()
    ensures
        name_less(lookup_name(227), lookup_name(228)),
{
    reveal_strlit("caret-animation");
    reveal_strlit("caret-color");
    reveal_with_fuel(seq_less_from, 8);
}

proof fn lemma_lookup_adjacent_228()
    ensures
        name_less(lookup_name(228), lookup_name(229)),
{
    reveal_strlit("caret-color");
    reveal_strlit("caret-shape");
    reveal_with_fuel(seq_less_from, 8);
}

proof fn lemma_lookup_adjacent_229()
    ensures
        name_less(lookup_name(229), lookup_name(230)),
{
    reveal_strlit("caret-shape");
    reveal_strlit("clear");
    reveal_with_fuel(seq_less_from, 3);
}

proof fn lemma_lookup_adjacent_230()
    ensures
        name_less(lookup_name(230), lookup_name(231)),
{
    reveal_strlit("clear");
    reveal_strlit("clip");
    reveal_with_fuel(seq_less_from, 4);
}

proof fn lemma_lookup_adjacent_231()
    ensures
        name_less(lookup_name(231), lookup_name(232)),
{
    reveal_strlit("clip");
    reveal_strlit("clip-path");
    reveal_with_fuel(seq_less_from, 6);
}

proof fn lemma_lookup_adjacent_232()
    ensures
        name_less(lookup_name(232), lookup_name(233)),
{
    reveal_strlit("clip-path");
    reveal_strlit("clip-rule");
    reveal_with_fuel(seq_less_from, 7);
}

proof fn lemma_lookup_adjacent_233()
    ensures
        name_less(lookup_name(233), lookup_name(234)),
{
    reveal_strlit("clip-rule");
    reveal_strlit("color");
    reveal_with_fuel(seq_less_from, 3);
}

proof fn lemma_lookup_adjacent_234()
    ensures
        name_less(lookup_name(234), lookup_name(235)),
{
    reveal_strlit("color");
    reveal_strlit("color-adjust");
    reveal_with_fuel(seq_less_from, 7);
}

proof fn lemma_lookup_adjacent_235()
    ensures
        name_less(lookup_name(235), lookup_name(236)),
{
    reveal_strlit("color-adjust");
    reveal_strlit("color-interpolation");
    reveal_with_fuel(seq_less_from, 8);
}

proof fn lemma_lookup_adjacent_236()
    ensures
        name_less(lookup_name(236), lookup_name(237)),
{
    reveal_strlit("color-interpolation");
    reveal_strlit("color-interpolation-filters");
    reveal_with_fuel(seq_less_from, 21);
}

proof fn lemma_lookup_adjacent_237()
    ensures
        name_less(lookup_name(237), lookup_name(238)),
{
    reveal_strlit("color-interpolation-filters");
    reveal_strlit("color-scheme");
    reveal_with_fuel(seq_less_from, 8);
}

proof fn lemma_lookup_adjacent_238()
    ensures
        name_less(lookup_name(238), lookup_name(239)),
{
    reveal_strlit("color-scheme");
    reveal_strlit("column-count");
    reveal_with_fuel(seq_less_from, 5);
}

proof fn lemma_lookup_adjacent_239()
    ensures
        name_less(lookup_name(239), lookup_name(240)),
{
    reveal_strlit("column-count");
    reveal_strlit("column-fill");
    reveal_with_fuel(seq_less_from, 9);
}

proof fn lemma_lookup_adjacent_240()
    ensures
        name_less(lookup_name(240), lookup_name(241)),
{
    reveal_strlit("column-fill");
    reveal_strlit("column-gap");
    reveal_with_fuel(seq_less_from, 9);
}

proof fn lemma_lookup_adjacent_241()
    ensures
        name_less(lookup_name(241), lookup_name(242)),
{
    reveal_strlit("column-gap");
    reveal_strlit("column-height");
    reveal_with_fuel(seq_less_from, 9);
}

proof fn lemma_lookup_adjacent_242()
    ensures
        name_less(lookup_name(242), lookup_name(243)),
{
    reveal_strlit("column-height");
    reveal_strlit("column-rule");
    reveal_with_fuel(seq_less_from, 9);
}

proof fn lemma_lookup_adjacent_243()
    ensures
        name_less(lookup_name(243), lookup_name(244)),
{
    reveal_strlit("column-rule");
    reveal_strlit("column-rule-break");
    reveal_with_fuel(seq_less_from, 13);
}

proof fn lemma_lookup_adjacent_244()
    ensures
        name_less(lookup_name(244), lookup_name(245)),
{
    reveal_strlit("column-rule-break");
    reveal_strlit("column-rule-color");
    reveal_with_fuel(seq_less_from, 14);
}

proof fn lemma_lookup_adjacent_245()
    ensures
        name_less(lookup_name(245), lookup_name(246)),
{
    reveal_strlit("column-rule-color");
    reveal_strlit("column-rule-inset");
    reveal_with_fuel(seq_less_from, 14);
}

proof fn lemma_lookup_adjacent_246()
    ensures
        name_less(lookup_name(246), lookup_name(247)),
{
    reveal_strlit("column-rule-inset");
    reveal_strlit("column-rule-inset-cap");
    reveal_with_fuel(seq_less_from, 19);
}

proof fn lemma_lookup_adjacent_247()
    ensures
        name_less(lookup_name(247), lookup_name(248)),
{
    reveal_strlit("column-rule-inset-cap");
    reveal_strlit("column-rule-inset-cap-end");
    reveal_with_fuel(seq_less_from, 23);
}

proof fn lemma_lookup_adjacent_248()
    ensures
        name_less(lookup_name(248), lookup_name(249)),
{
    reveal_strlit("column-rule-inset-cap-end");
    reveal_strlit("column-rule-inset-cap-start");
    reveal_with_fuel(seq_less_from, 24);
}

proof fn lemma_lookup_adjacent_249()
    ensures
        name_less(lookup_name(249), lookup_name(250)),
{
    reveal_strlit("column-rule-inset-cap-start");
    reveal_strlit("column-rule-inset-end");
    reveal_with_fuel(seq_less_from, 20);
}

proof fn lemma_lookup_adjacent_250()
    ensures
        name_less(lookup_name(250), lookup_name(251)),
{
    reveal_strlit("column-rule-inset-end");
    reveal_strlit("column-rule-inset-junction");
    reveal_with_fuel(seq_less_from, 20);
}

proof fn lemma_lookup_adjacent_251()
    ensures
        name_less(lookup_name(251), lookup_name(252)),
{
    reveal_strlit("column-rule-inset-junction");
    reveal_strlit("column-rule-inset-junction-end");
    reveal_with_fuel(seq_less_from, 28);
}

proof fn lemma_lookup_adjacent_252()
    ensures
        name_less(lookup_name(252), lookup_name(253)),
{
    reveal_strlit("column-rule-inset-junction-end");
    reveal_strlit("column-rule-inset-junction-start");
    reveal_with_fuel(seq_less_from, 29);
}

proof fn lemma_lookup_adjacent_253()
    ensures
        name_less(lookup_name(253), lookup_name(254)),
{
    reveal_strlit("column-rule-inset-junction-start");
    reveal_strlit("column-rule-inset-start");
    reveal_with_fuel(seq_less_from, 20);
}

proof fn lemma_lookup_adjacent_254()
    ensures
        name_less(lookup_name(254), lookup_name(255)),
{
    reveal_strlit("column-rule-inset-start");
    reveal_strlit("column-rule-style");
    reveal_with_fuel(seq_less_from, 14);
}

proof fn lemma_lookup_adjacent_255()
    ensures
        name_less(lookup_name(255), lookup_name(256)),
{
    reveal_strlit("column-rule-style");
    reveal_strlit("column-rule-visibility-items");
    reveal_with_fuel(seq_less_from, 14);
}

proof fn lemma_lookup_adjacent_256()
    ensures
        name_less(lookup_name(256), lookup_name(257)),
{
    reveal_strlit("column-rule-visibility-items");
    reveal_strlit("column-rule-width");
    reveal_with_fuel(seq_less_from, 14);
}

proof fn lemma_lookup_adjacent_257()
    ensures
        name_less(lookup_name(257), lookup_name(258)),
{
    reveal_strlit("column-rule-width");
    reveal_strlit("column-span");
    reveal_with_fuel(seq_less_from, 9);
}

proof fn lemma_lookup_adjacent_258()
    ensures
        name_less(lookup_name(258), lookup_name(259)),
{
    reveal_strlit("column-span");
    reveal_strlit("column-width");
    reveal_with_fuel(seq_less_from, 9);
}

proof fn lemma_lookup_adjacent_259()
    ensures
        name_less(lookup_name(259), lookup_name(260)),
{
    reveal_strlit("column-width");
    reveal_strlit("column-wrap");
    reveal_with_fuel(seq_less_from, 10);
}

proof fn lemma_lookup_adjacent_260()
    ensures
        name_less(lookup_name(260), lookup_name(261)),
{
    reveal_strlit("column-wrap");
    reveal_strlit("columns");
    reveal_with_fuel(seq_less_from, 8);
}

proof fn lemma_lookup_adjacent_261()
    ensures
        name_less(lookup_name(261), lookup_name(262)),
{
    reveal_strlit("columns");
    reveal_strlit("contain");
    reveal_with_fuel(seq_less_from, 4);
}

proof fn lemma_lookup_adjacent_262()
    ensures
        name_less(lookup_name(262), lookup_name(263)),
{
    reveal_strlit("contain");
    reveal_strlit("contain-intrinsic-block-size");
    reveal_with_fuel(seq_less_from, 9);
}

proof fn lemma_lookup_adjacent_263()
    ensures
        name_less(lookup_name(263), lookup_name(264)),
{
    reveal_strlit("contain-intrinsic-block-size");
    reveal_strlit("contain-intrinsic-height");
    reveal_with_fuel(seq_less_from, 20);
}

proof fn lemma_lookup_adjacent_264()
    ensures
        name_less(lookup_name(264), lookup_name(265)),
{
    reveal_strlit("contain-intrinsic-height");
    reveal_strlit("contain-intrinsic-inline-size");
    reveal_with_fuel(seq_less_from, 20);
}

proof fn lemma_lookup_adjacent_265()
    ensures
        name_less(lookup_name(265), lookup_name(266)),
{
    reveal_strlit("contain-intrinsic-inline-size");
    reveal_strlit("contain-intrinsic-size");
    reveal_with_fuel(seq_less_from, 20);
}

proof fn lemma_lookup_adjacent_266()
    ensures
        name_less(lookup_name(266), lookup_name(267)),
{
    reveal_strlit("contain-intrinsic-size");
    reveal_strlit("contain-intrinsic-width");
    reveal_with_fuel(seq_less_from, 20);
}

proof fn lemma_lookup_adjacent_267()
    ensures
        name_less(lookup_name(267), lookup_name(268)),
{
    reveal_strlit("contain-intrinsic-width");
    reveal_strlit("container");
    reveal_with_fuel(seq_less_from, 9);
}

proof fn lemma_lookup_adjacent_268()
    ensures
        name_less(lookup_name(268), lookup_name(269)),
{
    reveal_strlit("container");
    reveal_strlit("container-name");
    reveal_with_fuel(seq_less_from, 11);
}

proof fn lemma_lookup_adjacent_269()
    ensures
        name_less(lookup_name(269), lookup_name(270)),
{
    reveal_strlit("container-name");
    reveal_strlit("container-type");
    reveal_with_fuel(seq_less_from, 12);
}

proof fn lemma_lookup_adjacent_270()
    ensures
        name_less(lookup_name(270), lookup_name(271)),
{
    reveal_strlit("container-type");
    reveal_strlit("content");
    reveal_with_fuel(seq_less_from, 6);
}

proof fn lemma_lookup_adjacent_271()
    ensures
        name_less(lookup_name(271), lookup_name(272)),
{
    reveal_strlit("content");
    reveal_strlit("content-visibility");
    reveal_with_fuel(seq_less_from, 9);
}

proof fn lemma_lookup_adjacent_272()
    ensures
        name_less(lookup_name(272), lookup_name(273)),
{
    reveal_strlit("content-visibility");
    reveal_strlit("continue");
    reveal_with_fuel(seq_less_from, 6);
}

proof fn lemma_lookup_adjacent_273()
    ensures
        name_less(lookup_name(273), lookup_name(274)),
{
    reveal_strlit("continue");
    reveal_strlit("copy-into");
    reveal_with_fuel(seq_less_from, 4);
}

proof fn lemma_lookup_adjacent_274()
    ensures
        name_less(lookup_name(274), lookup_name(275)),
{
    reveal_strlit("copy-into");
    reveal_strlit("corner");
    reveal_with_fuel(seq_less_from, 4);
}

proof fn lemma_lookup_adjacent_275()
    ensures
        name_less(lookup_name(275), lookup_name(276)),
{
    reveal_strlit("corner");
    reveal_strlit("corner-block-end");
    reveal_with_fuel(seq_less_from, 8);
}

proof fn lemma_lookup_adjacent_276()
    ensures
        name_less(lookup_name(276), lookup_name(277)),
{
    reveal_strlit("corner-block-end");
    reveal_strlit("corner-block-end-shape");
    reveal_with_fuel(seq_less_from, 18);
}

proof fn lemma_lookup_adjacent_277()
    ensures
        name_less(lookup_name(277), lookup_name(278)),
{
    reveal_strlit("corner-block-end-shape");
    reveal_strlit("corner-block-start");
    reveal_with_fuel(seq_less_from, 15);
}

proof fn lemma_lookup_adjacent_278()
    ensures
        name_less(lookup_name(278), lookup_name(279)),
{
    reveal_strlit("corner-block-start");
    reveal_strlit("corner-block-start-shape");
    reveal_with_fuel(seq_less_from, 20);
}

proof fn lemma_lookup_adjacent_279()
    ensures
        name_less(lookup_name(279), lookup_name(280)),
{
    reveal_strlit("corner-block-start-shape");
    reveal_strlit("corner-bottom");
    reveal_with_fuel(seq_less_from, 10);
}

proof fn lemma_lookup_adjacent_280()
    ensures
        name_less(lookup_name(280), lookup_name(281)),
{
    reveal_strlit("corner-bottom");
    reveal_strlit("corner-bottom-left");
    reveal_with_fuel(seq_less_from, 15);
}

proof fn lemma_lookup_adjacent_281()
    ensures
        name_less(lookup_name(281), lookup_name(282)),
{
    reveal_strlit("corner-bottom-left");
    reveal_strlit("corner-bottom-left-shape");
    reveal_with_fuel(seq_less_from, 20);
}

proof fn lemma_lookup_adjacent_282()
    ensures
        name_less(lookup_name(282), lookup_name(283)),
{
    reveal_strlit("corner-bottom-left-shape");
    reveal_strlit("corner-bottom-right");
    reveal_with_fuel(seq_less_from, 16);
}

proof fn lemma_lookup_adjacent_283()
    ensures
        name_less(lookup_name(283), lookup_name(284)),
{
    reveal_strlit("corner-bottom-right");
    reveal_strlit("corner-bottom-right-shape");
    reveal_with_fuel(seq_less_from, 21);
}

proof fn lemma_lookup_adjacent_284()
    ensures
        name_less(lookup_name(284), lookup_name(285)),
{
    reveal_strlit("corner-bottom-right-shape");
    reveal_strlit("corner-bottom-shape");
    reveal_with_fuel(seq_less_from, 16);
}

proof fn lemma_lookup_adjacent_285()
    ensures
        name_less(lookup_name(285), lookup_name(286)),
{
    reveal_strlit("corner-bottom-shape");
    reveal_strlit("corner-end-end");
    reveal_with_fuel(seq_less_from, 9);
}

proof fn lemma_lookup_adjacent_286()
    ensures
        name_less(lookup_name(286), lookup_name(287)),
{
    reveal_strlit("corner-end-end");
    reveal_strlit("corner-end-end-shape");
    reveal_with_fuel(seq_less_from, 16);
}

proof fn lemma_lookup_adjacent_287()
    ensures
        name_less(lookup_name(287), lookup_name(288)),
{
    reveal_strlit("corner-end-end-shape");
    reveal_strlit("corner-end-start");
    reveal_with_fuel(seq_less_from, 13);
}

proof fn lemma_lookup_adjacent_288()
    ensures
        name_less(lookup_name(288), lookup_name(289)),
{
    reveal_strlit("corner-end-start");
    reveal_strlit("corner-end-start-shape");
    reveal_with_fuel(seq_less_from, 18);
}

proof fn lemma_lookup_adjacent_289()
    ensures
        name_less(lookup_name(289), lookup_name(290)),
{
    reveal_strlit("corner-end-start-shape");
    reveal_strlit("corner-inline-end");
    reveal_with_fuel(seq_less_from, 9);
}

proof fn lemma_lookup_adjacent_290()
    ensures
        name_less(lookup_name(290), lookup_name(291)),
{
    reveal_strlit("corner-inline-end");
    reveal_strlit("corner-inline-end-shape");
    reveal_with_fuel(seq_less_from, 19);
}

proof fn lemma_lookup_adjacent_291()
    ensures
        name_less(lookup_name(291), lookup_name(292)),
{
    reveal_strlit("corner-inline-end-shape");
    reveal_strlit("corner-inline-start");
    reveal_with_fuel(seq_less_from, 16);
}

proof fn lemma_lookup_adjacent_292()
    ensures
        name_less(lookup_name(292), lookup_name(293)),
{
    reveal_strlit("corner-inline-start");
    reveal_strlit("corner-inline-start-shape");
    reveal_with_fuel(seq_less_from, 21);
}

proof fn lemma_lookup_adjacent_293()
    ensures
        name_less(lookup_name(293), lookup_name(294)),
{
    reveal_strlit("corner-inline-start-shape");
    reveal_strlit("corner-left");
    reveal_with_fuel(seq_less_from, 9);
}

proof fn lemma_lookup_adjacent_294()
    ensures
        name_less(lookup_name(294), lookup_name(295)),
{
    reveal_strlit("corner-left");
    reveal_strlit("corner-left-shape");
    reveal_with_fuel(seq_less_from, 13);
}

proof fn lemma_lookup_adjacent_295()
    ensures
        name_less(lookup_name(295), lookup_name(296)),
{
    reveal_strlit("corner-left-shape");
    reveal_strlit("corner-right");
    reveal_with_fuel(seq_less_from, 9);
}

proof fn lemma_lookup_adjacent_296()
    ensures
        name_less(lookup_name(296), lookup_name(297)),
{
    reveal_strlit("corner-right");
    reveal_strlit("corner-right-shape");
    reveal_with_fuel(seq_less_from, 14);
}

proof fn lemma_lookup_adjacent_297()
    ensures
        name_less(lookup_name(297), lookup_name(298)),
{
    reveal_strlit("corner-right-shape");
    reveal_strlit("corner-shape");
    reveal_with_fuel(seq_less_from, 9);
}

proof fn lemma_lookup_adjacent_298()
    ensures
        name_less(lookup_name(298), lookup_name(299)),
{
    reveal_strlit("corner-shape");
    reveal_strlit("corner-start-end");
    reveal_with_fuel(seq_less_from, 10);
}

proof fn lemma_lookup_adjacent_299()
    ensures
        name_less(lookup_name(299), lookup_name(300)),
{
    reveal_strlit("corner-start-end");
    reveal_strlit("corner-start-end-shape");
    reveal_with_fuel(seq_less_from, 18);
}

proof fn lemma_lookup_adjacent_300()
    ensures
        name_less(lookup_name(300), lookup_name(301)),
{
    reveal_strlit("corner-start-end-shape");
    reveal_strlit("corner-start-start");
    reveal_with_fuel(seq_less_from, 15);
}

proof fn lemma_lookup_adjacent_301()
    ensures
        name_less(lookup_name(301), lookup_name(302)),
{
    reveal_strlit("corner-start-start");
    reveal_strlit("corner-start-start-shape");
    reveal_with_fuel(seq_less_from, 20);
}

proof fn lemma_lookup_adjacent_302()
    ensures
        name_less(lookup_name(302), lookup_name(303)),
{
    reveal_strlit("corner-start-start-shape");
    reveal_strlit("corner-top");
    reveal_with_fuel(seq_less_from, 9);
}

proof fn lemma_lookup_adjacent_303()
    ensures
        name_less(lookup_name(303), lookup_name(304)),
{
    reveal_strlit("corner-top");
    reveal_strlit("corner-top-left");
    reveal_with_fuel(seq_less_from, 12);
}

proof fn lemma_lookup_adjacent_304()
    ensures
        name_less(lookup_name(304), lookup_name(305)),
{
    reveal_strlit("corner-top-left");
    reveal_strlit("corner-top-left-shape");
    reveal_with_fuel(seq_less_from, 17);
}

proof fn lemma_lookup_adjacent_305()
    ensures
        name_less(lookup_name(305), lookup_name(306)),
{
    reveal_strlit("corner-top-left-shape");
    reveal_strlit("corner-top-right");
    reveal_with_fuel(seq_less_from, 13);
}

proof fn lemma_lookup_adjacent_306()
    ensures
        name_less(lookup_name(306), lookup_name(307)),
{
    reveal_strlit("corner-top-right");
    reveal_strlit("corner-top-right-shape");
    reveal_with_fuel(seq_less_from, 18);
}

proof fn lemma_lookup_adjacent_307()
    ensures
        name_less(lookup_name(307), lookup_name(308)),
{
    reveal_strlit("corner-top-right-shape");
    reveal_strlit("corner-top-shape");
    reveal_with_fuel(seq_less_from, 13);
}

proof fn lemma_lookup_adjacent_308()
    ensures
        name_less(lookup_name(308), lookup_name(309)),
{
    reveal_strlit("corner-top-shape");
    reveal_strlit("counter-increment");
    reveal_with_fuel(seq_less_from, 4);
}

proof fn lemma_lookup_adjacent_309()
    ensures
        name_less(lookup_name(309), lookup_name(310)),
{
    reveal_strlit("counter-increment");
    reveal_strlit("counter-reset");
    reveal_with_fuel(seq_less_from, 10);
}

proof fn lemma_lookup_adjacent_310()
    ensures
        name_less(lookup_name(310), lookup_name(311)),
{
    reveal_strlit("counter-reset");
    reveal_strlit("counter-set");
    reveal_with_fuel(seq_less_from, 10);
}

proof fn lemma_lookup_adjacent_311()
    ensures
        name_less(lookup_name(311), lookup_name(312)),
{
    reveal_strlit("counter-set");
    reveal_strlit("cue");
    reveal_with_fuel(seq_less_from, 3);
}

proof fn lemma_lookup_adjacent_312()
    ensures
        name_less(lookup_name(312), lookup_name(313)),
{
    reveal_strlit("cue");
    reveal_strlit("cue-after");
    reveal_with_fuel(seq_less_from, 5);
}

proof fn lemma_lookup_adjacent_313()
    ensures
        name_less(lookup_name(313), lookup_name(314)),
{
    reveal_strlit("cue-after");
    reveal_strlit("cue-before");
    reveal_with_fuel(seq_less_from, 6);
}

proof fn lemma_lookup_adjacent_314()
    ensures
        name_less(lookup_name(314), lookup_name(315)),
{
    reveal_strlit("cue-before");
    reveal_strlit("cursor");
    reveal_with_fuel(seq_less_from, 4);
}

proof fn lemma_lookup_adjacent_315()
    ensures
        name_less(lookup_name(315), lookup_name(316)),
{
    reveal_strlit("cursor");
    reveal_strlit("cx");
    reveal_with_fuel(seq_less_from, 3);
}

proof fn lemma_lookup_adjacent_316()
    ensures
        name_less(lookup_name(316), lookup_name(317)),
{
    reveal_strlit("cx");
    reveal_strlit("cy");
    reveal_with_fuel(seq_less_from, 3);
}

proof fn lemma_lookup_adjacent_317()
    ensures
        name_less(lookup_name(317), lookup_name(318)),
{
    reveal_strlit("cy");
    reveal_strlit("d");
    reveal_with_fuel(seq_less_from, 2);
}

proof fn lemma_lookup_adjacent_318()
    ensures
        name_less(lookup_name(318), lookup_name(319)),
{
    reveal_strlit("d");
    reveal_strlit("direction");
    reveal_with_fuel(seq_less_from, 3);
}

proof fn lemma_lookup_adjacent_319()
    ensures
        name_less(lookup_name(319), lookup_name(320)),
{
    reveal_strlit("direction");
    reveal_strlit("display");
    reveal_with_fuel(seq_less_from, 4);
}

proof fn lemma_lookup_adjacent_320()
    ensures
        name_less(lookup_name(320), lookup_name(321)),
{
    reveal_strlit("display");
    reveal_strlit("dominant-baseline");
    reveal_with_fuel(seq_less_from, 3);
}

proof fn lemma_lookup_adjacent_321()
    ensures
        name_less(lookup_name(321), lookup_name(322)),
{
    reveal_strlit("dominant-baseline");
    reveal_strlit("dynamic-range-limit");
    reveal_with_fuel(seq_less_from, 3);
}

proof fn lemma_lookup_adjacent_322()
    ensures
        name_less(lookup_name(322), lookup_name(323)),
{
    reveal_strlit("dynamic-range-limit");
    reveal_strlit("empty-cells");
    reveal_with_fuel(seq_less_from, 2);
}

proof fn lemma_lookup_adjacent_323()
    ensures
        name_less(lookup_name(323), lookup_name(324)),
{
    reveal_strlit("empty-cells");
    reveal_strlit("event-trigger");
    reveal_with_fuel(seq_less_from, 3);
}

proof fn lemma_lookup_adjacent_324()
    ensures
        name_less(lookup_name(324), lookup_name(325)),
{
    reveal_strlit("event-trigger");
    reveal_strlit("event-trigger-name");
    reveal_with_fuel(seq_less_from, 15);
}

proof fn lemma_lookup_adjacent_325()
    ensures
        name_less(lookup_name(325), lookup_name(326)),
{
    reveal_strlit("event-trigger-name");
    reveal_strlit("event-trigger-source");
    reveal_with_fuel(seq_less_from, 16);
}

proof fn lemma_lookup_adjacent_326()
    ensures
        name_less(lookup_name(326), lookup_name(327)),
{
    reveal_strlit("event-trigger-source");
    reveal_strlit("field-sizing");
    reveal_with_fuel(seq_less_from, 2);
}

proof fn lemma_lookup_adjacent_327()
    ensures
        name_less(lookup_name(327), lookup_name(328)),
{
    reveal_strlit("field-sizing");
    reveal_strlit("fill");
    reveal_with_fuel(seq_less_from, 4);
}

proof fn lemma_lookup_adjacent_328()
    ensures
        name_less(lookup_name(328), lookup_name(329)),
{
    reveal_strlit("fill");
    reveal_strlit("fill-break");
    reveal_with_fuel(seq_less_from, 6);
}

proof fn lemma_lookup_adjacent_329()
    ensures
        name_less(lookup_name(329), lookup_name(330)),
{
    reveal_strlit("fill-break");
    reveal_strlit("fill-color");
    reveal_with_fuel(seq_less_from, 7);
}

proof fn lemma_lookup_adjacent_330()
    ensures
        name_less(lookup_name(330), lookup_name(331)),
{
    reveal_strlit("fill-color");
    reveal_strlit("fill-image");
    reveal_with_fuel(seq_less_from, 7);
}

proof fn lemma_lookup_adjacent_331()
    ensures
        name_less(lookup_name(331), lookup_name(332)),
{
    reveal_strlit("fill-image");
    reveal_strlit("fill-opacity");
    reveal_with_fuel(seq_less_from, 7);
}

proof fn lemma_lookup_adjacent_332()
    ensures
        name_less(lookup_name(332), lookup_name(333)),
{
    reveal_strlit("fill-opacity");
    reveal_strlit("fill-origin");
    reveal_with_fuel(seq_less_from, 8);
}

proof fn lemma_lookup_adjacent_333()
    ensures
        name_less(lookup_name(333), lookup_name(334)),
{
    reveal_strlit("fill-origin");
    reveal_strlit("fill-position");
    reveal_with_fuel(seq_less_from, 7);
}

proof fn lemma_lookup_adjacent_334()
    ensures
        name_less(lookup_name(334), lookup_name(335)),
{
    reveal_strlit("fill-position");
    reveal_strlit("fill-repeat");
    reveal_with_fuel(seq_less_from, 7);
}

proof fn lemma_lookup_adjacent_335()
    ensures
        name_less(lookup_name(335), lookup_name(336)),
{
    reveal_strlit("fill-repeat");
    reveal_strlit("fill-rule");
    reveal_with_fuel(seq_less_from, 8);
}

proof fn lemma_lookup_adjacent_336()
    ensures
        name_less(lookup_name(336), lookup_name(337)),
{
    reveal_strlit("fill-rule");
    reveal_strlit("fill-size");
    reveal_with_fuel(seq_less_from, 7);
}

proof fn lemma_lookup_adjacent_337()
    ensures
        name_less(lookup_name(337), lookup_name(338)),
{
    reveal_strlit("fill-size");
    reveal_strlit("filter");
    reveal_with_fuel(seq_less_from, 5);
}

proof fn lemma_lookup_adjacent_338()
    ensures
        name_less(lookup_name(338), lookup_name(339)),
{
    reveal_strlit("filter");
    reveal_strlit("flex");
    reveal_with_fuel(seq_less_from, 3);
}

proof fn lemma_lookup_adjacent_339()
    ensures
        name_less(lookup_name(339), lookup_name(340)),
{
    reveal_strlit("flex");
    reveal_strlit("flex-basis");
    reveal_with_fuel(seq_less_from, 6);
}

proof fn lemma_lookup_adjacent_340()
    ensures
        name_less(lookup_name(340), lookup_name(341)),
{
    reveal_strlit("flex-basis");
    reveal_strlit("flex-direction");
    reveal_with_fuel(seq_less_from, 7);
}

proof fn lemma_lookup_adjacent_341()
    ensures
        name_less(lookup_name(341), lookup_name(342)),
{
    reveal_strlit("flex-direction");
    reveal_strlit("flex-flow");
    reveal_with_fuel(seq_less_from, 7);
}

proof fn lemma_lookup_adjacent_342()
    ensures
        name_less(lookup_name(342), lookup_name(343)),
{
    reveal_strlit("flex-flow");
    reveal_strlit("flex-grow");
    reveal_with_fuel(seq_less_from, 7);
}

proof fn lemma_lookup_adjacent_343()
    ensures
        name_less(lookup_name(343), lookup_name(344)),
{
    reveal_strlit("flex-grow");
    reveal_strlit("flex-shrink");
    reveal_with_fuel(seq_less_from, 7);
}

proof fn lemma_lookup_adjacent_344()
    ensures
        name_less(lookup_name(344), lookup_name(345)),
{
    reveal_strlit("flex-shrink");
    reveal_strlit("flex-wrap");
    reveal_with_fuel(seq_less_from, 7);
}

proof fn lemma_lookup_adjacent_345()
    ensures
        name_less(lookup_name(345), lookup_name(346)),
{
    reveal_strlit("flex-wrap");
    reveal_strlit("float");
    reveal_with_fuel(seq_less_from, 4);
}

proof fn lemma_lookup_adjacent_346()
    ensures
        name_less(lookup_name(346), lookup_name(347)),
{
    reveal_strlit("float");
    reveal_strlit("float-defer");
    reveal_with_fuel(seq_less_from, 7);
}

proof fn lemma_lookup_adjacent_347()
    ensures
        name_less(lookup_name(347), lookup_name(348)),
{
    reveal_strlit("float-defer");
    reveal_strlit("float-offset");
    reveal_with_fuel(seq_less_from, 8);
}

proof fn lemma_lookup_adjacent_348()
    ensures
        name_less(lookup_name(348), lookup_name(349)),
{
    reveal_strlit("float-offset");
    reveal_strlit("float-reference");
    reveal_with_fuel(seq_less_from, 8);
}

proof fn lemma_lookup_adjacent_349()
    ensures
        name_less(lookup_name(349), lookup_name(350)),
{
    reveal_strlit("float-reference");
    reveal_strlit("flood-color");
    reveal_with_fuel(seq_less_from, 5);
}

proof fn lemma_lookup_adjacent_350()
    ensures
        name_less(lookup_name(350), lookup_name(351)),
{
    reveal_strlit("flood-color");
    reveal_strlit("flood-opacity");
    reveal_with_fuel(seq_less_from, 8);
}

proof fn lemma_lookup_adjacent_351()
    ensures
        name_less(lookup_name(351), lookup_name(352)),
{
    reveal_strlit("flood-opacity");
    reveal_strlit("flow-from");
    reveal_with_fuel(seq_less_from, 5);
}

proof fn lemma_lookup_adjacent_352()
    ensures
        name_less(lookup_name(352), lookup_name(353)),
{
    reveal_strlit("flow-from");
    reveal_strlit("flow-into");
    reveal_with_fuel(seq_less_from, 7);
}

proof fn lemma_lookup_adjacent_353()
    ensures
        name_less(lookup_name(353), lookup_name(354)),
{
    reveal_strlit("flow-into");
    reveal_strlit("flow-tolerance");
    reveal_with_fuel(seq_less_from, 7);
}

proof fn lemma_lookup_adjacent_354()
    ensures
        name_less(lookup_name(354), lookup_name(355)),
{
    reveal_strlit("flow-tolerance");
    reveal_strlit("font");
    reveal_with_fuel(seq_less_from, 3);
}

proof fn lemma_lookup_adjacent_355()
    ensures
        name_less(lookup_name(355), lookup_name(356)),
{
    reveal_strlit("font");
    reveal_strlit("font-family");
    reveal_with_fuel(seq_less_from, 6);
}

proof fn lemma_lookup_adjacent_356()
    ensures
        name_less(lookup_name(356), lookup_name(357)),
{
    reveal_strlit("font-family");
    reveal_strlit("font-feature-settings");
    reveal_with_fuel(seq_less_from, 8);
}

proof fn lemma_lookup_adjacent_357()
    ensures
        name_less(lookup_name(357), lookup_name(358)),
{
    reveal_strlit("font-feature-settings");
    reveal_strlit("font-kerning");
    reveal_with_fuel(seq_less_from, 7);
}

proof fn lemma_lookup_adjacent_358()
    ensures
        name_less(lookup_name(358), lookup_name(359)),
{
    reveal_strlit("font-kerning");
    reveal_strlit("font-language-override");
    reveal_with_fuel(seq_less_from, 7);
}

proof fn lemma_lookup_adjacent_359()
    ensures
        name_less(lookup_name(359), lookup_name(360)),
{
    reveal_strlit("font-language-override");
    reveal_strlit("font-optical-sizing");
    reveal_with_fuel(seq_less_from, 7);
}

proof fn lemma_lookup_adjacent_360()
    ensures
        name_less(lookup_name(360), lookup_name(361)),
{
    reveal_strlit("font-optical-sizing");
    reveal_strlit("font-palette");
    reveal_with_fuel(seq_less_from, 7);
}

proof fn lemma_lookup_adjacent_361()
    ensures
        name_less(lookup_name(361), lookup_name(362)),
{
    reveal_strlit("font-palette");
    reveal_strlit("font-size");
    reveal_with_fuel(seq_less_from, 7);
}

proof fn lemma_lookup_adjacent_362()
    ensures
        name_less(lookup_name(362), lookup_name(363)),
{
    reveal_strlit("font-size");
    reveal_strlit("font-size-adjust");
    reveal_with_fuel(seq_less_from, 11);
}

proof fn lemma_lookup_adjacent_363()
    ensures
        name_less(lookup_name(363), lookup_name(364)),
{
    reveal_strlit("font-size-adjust");
    reveal_strlit("font-stretch");
    reveal_with_fuel(seq_less_from, 8);
}

proof fn lemma_lookup_adjacent_364()
    ensures
        name_less(lookup_name(364), lookup_name(365)),
{
    reveal_strlit("font-stretch");
    reveal_strlit("font-style");
    reveal_with_fuel(seq_less_from, 9);
}

proof fn lemma_lookup_adjacent_365()
    ensures
        name_less(lookup_name(365), lookup_name(366)),
{
    reveal_strlit("font-style");
    reveal_strlit("font-synthesis");
    reveal_with_fuel(seq_less_from, 8);
}

proof fn lemma_lookup_adjacent_366()
    ensures
        name_less(lookup_name(366), lookup_name(367)),
{
    reveal_strlit("font-synthesis");
    reveal_strlit("font-synthesis-position");
    reveal_with_fuel(seq_less_from, 16);
}

proof fn lemma_lookup_adjacent_367()
    ensures
        name_less(lookup_name(367), lookup_name(368)),
{
    reveal_strlit("font-synthesis-position");
    reveal_strlit("font-synthesis-small-caps");
    reveal_with_fuel(seq_less_from, 17);
}

proof fn lemma_lookup_adjacent_368()
    ensures
        name_less(lookup_name(368), lookup_name(369)),
{
    reveal_strlit("font-synthesis-small-caps");
    reveal_strlit("font-synthesis-style");
    reveal_with_fuel(seq_less_from, 18);
}

proof fn lemma_lookup_adjacent_369()
    ensures
        name_less(lookup_name(369), lookup_name(370)),
{
    reveal_strlit("font-synthesis-style");
    reveal_strlit("font-synthesis-weight");
    reveal_with_fuel(seq_less_from, 17);
}

proof fn lemma_lookup_adjacent_370()
    ensures
        name_less(lookup_name(370), lookup_name(371)),
{
    reveal_strlit("font-synthesis-weight");
    reveal_strlit("font-variant");
    reveal_with_fuel(seq_less_from, 7);
}

proof fn lemma_lookup_adjacent_371()
    ensures
        name_less(lookup_name(371), lookup_name(372)),
{
    reveal_strlit("font-variant");
    reveal_strlit("font-variant-alternates");
    reveal_with_fuel(seq_less_from, 14);
}

proof fn lemma_lookup_adjacent_372()
    ensures
        name_less(lookup_name(372), lookup_name(373)),
{
    reveal_strlit("font-variant-alternates");
    reveal_strlit("font-variant-caps");
    reveal_with_fuel(seq_less_from, 15);
}

proof fn lemma_lookup_adjacent_373()
    ensures
        name_less(lookup_name(373), lookup_name(374)),
{
    reveal_strlit("font-variant-caps");
    reveal_strlit("font-variant-east-asian");
    reveal_with_fuel(seq_less_from, 15);
}

proof fn lemma_lookup_adjacent_374()
    ensures
        name_less(lookup_name(374), lookup_name(375)),
{
    reveal_strlit("font-variant-east-asian");
    reveal_strlit("font-variant-emoji");
    reveal_with_fuel(seq_less_from, 16);
}

proof fn lemma_lookup_adjacent_375()
    ensures
        name_less(lookup_name(375), lookup_name(376)),
{
    reveal_strlit("font-variant-emoji");
    reveal_strlit("font-variant-ligatures");
    reveal_with_fuel(seq_less_from, 15);
}

proof fn lemma_lookup_adjacent_376()
    ensures
        name_less(lookup_name(376), lookup_name(377)),
{
    reveal_strlit("font-variant-ligatures");
    reveal_strlit("font-variant-numeric");
    reveal_with_fuel(seq_less_from, 15);
}

proof fn lemma_lookup_adjacent_377()
    ensures
        name_less(lookup_name(377), lookup_name(378)),
{
    reveal_strlit("font-variant-numeric");
    reveal_strlit("font-variant-position");
    reveal_with_fuel(seq_less_from, 15);
}

proof fn lemma_lookup_adjacent_378()
    ensures
        name_less(lookup_name(378), lookup_name(379)),
{
    reveal_strlit("font-variant-position");
    reveal_strlit("font-variation-settings");
    reveal_with_fuel(seq_less_from, 12);
}

proof fn lemma_lookup_adjacent_379()
    ensures
        name_less(lookup_name(379), lookup_name(380)),
{
    reveal_strlit("font-variation-settings");
    reveal_strlit("font-weight");
    reveal_with_fuel(seq_less_from, 7);
}

proof fn lemma_lookup_adjacent_380()
    ensures
        name_less(lookup_name(380), lookup_name(381)),
{
    reveal_strlit("font-weight");
    reveal_strlit("font-width");
    reveal_with_fuel(seq_less_from, 8);
}

proof fn lemma_lookup_adjacent_381()
    ensures
        name_less(lookup_name(381), lookup_name(382)),
{
    reveal_strlit("font-width");
    reveal_strlit("footnote-display");
    reveal_with_fuel(seq_less_from, 4);
}

proof fn lemma_lookup_adjacent_382()
    ensures
        name_less(lookup_name(382), lookup_name(383)),
{
    reveal_strlit("footnote-display");
    reveal_strlit("footnote-policy");
    reveal_with_fuel(seq_less_from, 11);
}

proof fn lemma_lookup_adjacent_383()
    ensures
        name_less(lookup_name(383), lookup_name(384)),
{
    reveal_strlit("footnote-policy");
    reveal_strlit("forced-color-adjust");
    reveal_with_fuel(seq_less_from, 4);
}

proof fn lemma_lookup_adjacent_384()
    ensures
        name_less(lookup_name(384), lookup_name(385)),
{
    reveal_strlit("forced-color-adjust");
    reveal_strlit("frame-sizing");
    reveal_with_fuel(seq_less_from, 3);
}

proof fn lemma_lookup_adjacent_385()
    ensures
        name_less(lookup_name(385), lookup_name(386)),
{
    reveal_strlit("frame-sizing");
    reveal_strlit("gap");
    reveal_with_fuel(seq_less_from, 2);
}

proof fn lemma_lookup_adjacent_386()
    ensures
        name_less(lookup_name(386), lookup_name(387)),
{
    reveal_strlit("gap");
    reveal_strlit("glyph-orientation-vertical");
    reveal_with_fuel(seq_less_from, 3);
}

proof fn lemma_lookup_adjacent_387()
    ensures
        name_less(lookup_name(387), lookup_name(388)),
{
    reveal_strlit("glyph-orientation-vertical");
    reveal_strlit("grid");
    reveal_with_fuel(seq_less_from, 3);
}

proof fn lemma_lookup_adjacent_388()
    ensures
        name_less(lookup_name(388), lookup_name(389)),
{
    reveal_strlit("grid");
    reveal_strlit("grid-area");
    reveal_with_fuel(seq_less_from, 6);
}

proof fn lemma_lookup_adjacent_389()
    ensures
        name_less(lookup_name(389), lookup_name(390)),
{
    reveal_strlit("grid-area");
    reveal_strlit("grid-auto-columns");
    reveal_with_fuel(seq_less_from, 8);
}

proof fn lemma_lookup_adjacent_390()
    ensures
        name_less(lookup_name(390), lookup_name(391)),
{
    reveal_strlit("grid-auto-columns");
    reveal_strlit("grid-auto-flow");
    reveal_with_fuel(seq_less_from, 12);
}

proof fn lemma_lookup_adjacent_391()
    ensures
        name_less(lookup_name(391), lookup_name(392)),
{
    reveal_strlit("grid-auto-flow");
    reveal_strlit("grid-auto-rows");
    reveal_with_fuel(seq_less_from, 12);
}

proof fn lemma_lookup_adjacent_392()
    ensures
        name_less(lookup_name(392), lookup_name(393)),
{
    reveal_strlit("grid-auto-rows");
    reveal_strlit("grid-column");
    reveal_with_fuel(seq_less_from, 7);
}

proof fn lemma_lookup_adjacent_393()
    ensures
        name_less(lookup_name(393), lookup_name(394)),
{
    reveal_strlit("grid-column");
    reveal_strlit("grid-column-end");
    reveal_with_fuel(seq_less_from, 13);
}

proof fn lemma_lookup_adjacent_394()
    ensures
        name_less(lookup_name(394), lookup_name(395)),
{
    reveal_strlit("grid-column-end");
    reveal_strlit("grid-column-gap");
    reveal_with_fuel(seq_less_from, 14);
}

proof fn lemma_lookup_adjacent_395()
    ensures
        name_less(lookup_name(395), lookup_name(396)),
{
    reveal_strlit("grid-column-gap");
    reveal_strlit("grid-column-start");
    reveal_with_fuel(seq_less_from, 14);
}

proof fn lemma_lookup_adjacent_396()
    ensures
        name_less(lookup_name(396), lookup_name(397)),
{
    reveal_strlit("grid-column-start");
    reveal_strlit("grid-gap");
    reveal_with_fuel(seq_less_from, 7);
}

proof fn lemma_lookup_adjacent_397()
    ensures
        name_less(lookup_name(397), lookup_name(398)),
{
    reveal_strlit("grid-gap");
    reveal_strlit("grid-row");
    reveal_with_fuel(seq_less_from, 7);
}

proof fn lemma_lookup_adjacent_398()
    ensures
        name_less(lookup_name(398), lookup_name(399)),
{
    reveal_strlit("grid-row");
    reveal_strlit("grid-row-end");
    reveal_with_fuel(seq_less_from, 10);
}

proof fn lemma_lookup_adjacent_399()
    ensures
        name_less(lookup_name(399), lookup_name(400)),
{
    reveal_strlit("grid-row-end");
    reveal_strlit("grid-row-gap");
    reveal_with_fuel(seq_less_from, 11);
}

proof fn lemma_lookup_adjacent_400()
    ensures
        name_less(lookup_name(400), lookup_name(401)),
{
    reveal_strlit("grid-row-gap");
    reveal_strlit("grid-row-start");
    reveal_with_fuel(seq_less_from, 11);
}

proof fn lemma_lookup_adjacent_401()
    ensures
        name_less(lookup_name(401), lookup_name(402)),
{
    reveal_strlit("grid-row-start");
    reveal_strlit("grid-template");
    reveal_with_fuel(seq_less_from, 7);
}

proof fn lemma_lookup_adjacent_402()
    ensures
        name_less(lookup_name(402), lookup_name(403)),
{
    reveal_strlit("grid-template");
    reveal_strlit("grid-template-areas");
    reveal_with_fuel(seq_less_from, 15);
}

proof fn lemma_lookup_adjacent_403()
    ensures
        name_less(lookup_name(403), lookup_name(404)),
{
    reveal_strlit("grid-template-areas");
    reveal_strlit("grid-template-columns");
    reveal_with_fuel(seq_less_from, 16);
}

proof fn lemma_lookup_adjacent_404()
    ensures
        name_less(lookup_name(404), lookup_name(405)),
{
    reveal_strlit("grid-template-columns");
    reveal_strlit("grid-template-rows");
    reveal_with_fuel(seq_less_from, 16);
}

proof fn lemma_lookup_adjacent_405()
    ensures
        name_less(lookup_name(405), lookup_name(406)),
{
    reveal_strlit("grid-template-rows");
    reveal_strlit("hanging-punctuation");
    reveal_with_fuel(seq_less_from, 2);
}

proof fn lemma_lookup_adjacent_406()
    ensures
        name_less(lookup_name(406), lookup_name(407)),
{
    reveal_strlit("hanging-punctuation");
    reveal_strlit("height");
    reveal_with_fuel(seq_less_from, 3);
}

proof fn lemma_lookup_adjacent_407()
    ensures
        name_less(lookup_name(407), lookup_name(408)),
{
    reveal_strlit("height");
    reveal_strlit("hyphenate-character");
    reveal_with_fuel(seq_less_from, 3);
}

proof fn lemma_lookup_adjacent_408()
    ensures
        name_less(lookup_name(408), lookup_name(409)),
{
    reveal_strlit("hyphenate-character");
    reveal_strlit("hyphenate-limit-chars");
    reveal_with_fuel(seq_less_from, 12);
}

proof fn lemma_lookup_adjacent_409()
    ensures
        name_less(lookup_name(409), lookup_name(410)),
{
    reveal_strlit("hyphenate-limit-chars");
    reveal_strlit("hyphenate-limit-last");
    reveal_with_fuel(seq_less_from, 18);
}

proof fn lemma_lookup_adjacent_410()
    ensures
        name_less(lookup_name(410), lookup_name(411)),
{
    reveal_strlit("hyphenate-limit-last");
    reveal_strlit("hyphenate-limit-lines");
    reveal_with_fuel(seq_less_from, 19);
}

proof fn lemma_lookup_adjacent_411()
    ensures
        name_less(lookup_name(411), lookup_name(412)),
{
    reveal_strlit("hyphenate-limit-lines");
    reveal_strlit("hyphenate-limit-zone");
    reveal_with_fuel(seq_less_from, 18);
}

proof fn lemma_lookup_adjacent_412()
    ensures
        name_less(lookup_name(412), lookup_name(413)),
{
    reveal_strlit("hyphenate-limit-zone");
    reveal_strlit("hyphens");
    reveal_with_fuel(seq_less_from, 8);
}

proof fn lemma_lookup_adjacent_413()
    ensures
        name_less(lookup_name(413), lookup_name(414)),
{
    reveal_strlit("hyphens");
    reveal_strlit("image-animation");
    reveal_with_fuel(seq_less_from, 2);
}

proof fn lemma_lookup_adjacent_414()
    ensures
        name_less(lookup_name(414), lookup_name(415)),
{
    reveal_strlit("image-animation");
    reveal_strlit("image-orientation");
    reveal_with_fuel(seq_less_from, 8);
}

proof fn lemma_lookup_adjacent_415()
    ensures
        name_less(lookup_name(415), lookup_name(416)),
{
    reveal_strlit("image-orientation");
    reveal_strlit("image-rendering");
    reveal_with_fuel(seq_less_from, 8);
}

proof fn lemma_lookup_adjacent_416()
    ensures
        name_less(lookup_name(416), lookup_name(417)),
{
    reveal_strlit("image-rendering");
    reveal_strlit("image-resolution");
    reveal_with_fuel(seq_less_from, 10);
}

proof fn lemma_lookup_adjacent_417()
    ensures
        name_less(lookup_name(417), lookup_name(418)),
{
    reveal_strlit("image-resolution");
    reveal_strlit("initial-letter");
    reveal_with_fuel(seq_less_from, 3);
}

proof fn lemma_lookup_adjacent_418()
    ensures
        name_less(lookup_name(418), lookup_name(419)),
{
    reveal_strlit("initial-letter");
    reveal_strlit("initial-letter-align");
    reveal_with_fuel(seq_less_from, 16);
}

proof fn lemma_lookup_adjacent_419()
    ensures
        name_less(lookup_name(419), lookup_name(420)),
{
    reveal_strlit("initial-letter-align");
    reveal_strlit("initial-letter-wrap");
    reveal_with_fuel(seq_less_from, 17);
}

proof fn lemma_lookup_adjacent_420()
    ensures
        name_less(lookup_name(420), lookup_name(421)),
{
    reveal_strlit("initial-letter-wrap");
    reveal_strlit("inline-size");
    reveal_with_fuel(seq_less_from, 4);
}

proof fn lemma_lookup_adjacent_421()
    ensures
        name_less(lookup_name(421), lookup_name(422)),
{
    reveal_strlit("inline-size");
    reveal_strlit("inline-sizing");
    reveal_with_fuel(seq_less_from, 12);
}

proof fn lemma_lookup_adjacent_422()
    ensures
        name_less(lookup_name(422), lookup_name(423)),
{
    reveal_strlit("inline-sizing");
    reveal_strlit("input-security");
    reveal_with_fuel(seq_less_from, 4);
}

proof fn lemma_lookup_adjacent_423()
    ensures
        name_less(lookup_name(423), lookup_name(424)),
{
    reveal_strlit("input-security");
    reveal_strlit("inset");
    reveal_with_fuel(seq_less_from, 4);
}

proof fn lemma_lookup_adjacent_424()
    ensures
        name_less(lookup_name(424), lookup_name(425)),
{
    reveal_strlit("inset");
    reveal_strlit("inset-block");
    reveal_with_fuel(seq_less_from, 7);
}

proof fn lemma_lookup_adjacent_425()
    ensures
        name_less(lookup_name(425), lookup_name(426)),
{
    reveal_strlit("inset-block");
    reveal_strlit("inset-block-end");
    reveal_with_fuel(seq_less_from, 13);
}

proof fn lemma_lookup_adjacent_426()
    ensures
        name_less(lookup_name(426), lookup_name(427)),
{
    reveal_strlit("inset-block-end");
    reveal_strlit("inset-block-start");
    reveal_with_fuel(seq_less_from, 14);
}

proof fn lemma_lookup_adjacent_427()
    ensures
        name_less(lookup_name(427), lookup_name(428)),
{
    reveal_strlit("inset-block-start");
    reveal_strlit("inset-inline");
    reveal_with_fuel(seq_less_from, 8);
}

proof fn lemma_lookup_adjacent_428()
    ensures
        name_less(lookup_name(428), lookup_name(429)),
{
    reveal_strlit("inset-inline");
    reveal_strlit("inset-inline-end");
    reveal_with_fuel(seq_less_from, 14);
}

proof fn lemma_lookup_adjacent_429()
    ensures
        name_less(lookup_name(429), lookup_name(430)),
{
    reveal_strlit("inset-inline-end");
    reveal_strlit("inset-inline-start");
    reveal_with_fuel(seq_less_from, 15);
}

proof fn lemma_lookup_adjacent_430()
    ensures
        name_less(lookup_name(430), lookup_name(431)),
{
    reveal_strlit("inset-inline-start");
    reveal_strlit("interactivity");
    reveal_with_fuel(seq_less_from, 4);
}

proof fn lemma_lookup_adjacent_431()
    ensures
        name_less(lookup_name(431), lookup_name(432)),
{
    reveal_strlit("interactivity");
    reveal_strlit("interest-delay");
    reveal_with_fuel(seq_less_from, 7);
}

proof fn lemma_lookup_adjacent_432()
    ensures
        name_less(lookup_name(432), lookup_name(433)),
{
    reveal_strlit("interest-delay");
    reveal_strlit("interest-delay-end");
    reveal_with_fuel(seq_less_from, 16);
}

proof fn lemma_lookup_adjacent_433()
    ensures
        name_less(lookup_name(433), lookup_name(434)),
{
    reveal_strlit("interest-delay-end");
    reveal_strlit("interest-delay-start");
    reveal_with_fuel(seq_less_from, 17);
}

proof fn lemma_lookup_adjacent_434()
    ensures
        name_less(lookup_name(434), lookup_name(435)),
{
    reveal_strlit("interest-delay-start");
    reveal_strlit("interpolate-size");
    reveal_with_fuel(seq_less_from, 7);
}

proof fn lemma_lookup_adjacent_435()
    ensures
        name_less(lookup_name(435), lookup_name(436)),
{
    reveal_strlit("interpolate-size");
    reveal_strlit("isolation");
    reveal_with_fuel(seq_less_from, 3);
}

proof fn lemma_lookup_adjacent_436()
    ensures
        name_less(lookup_name(436), lookup_name(437)),
{
    reveal_strlit("isolation");
    reveal_strlit("justify-content");
    reveal_with_fuel(seq_less_from, 2);
}

proof fn lemma_lookup_adjacent_437()
    ensures
        name_less(lookup_name(437), lookup_name(438)),
{
    reveal_strlit("justify-content");
    reveal_strlit("justify-items");
    reveal_with_fuel(seq_less_from, 10);
}

proof fn lemma_lookup_adjacent_438()
    ensures
        name_less(lookup_name(438), lookup_name(439)),
{
    reveal_strlit("justify-items");
    reveal_strlit("justify-self");
    reveal_with_fuel(seq_less_from, 10);
}

proof fn lemma_lookup_adjacent_439()
    ensures
        name_less(lookup_name(439), lookup_name(440)),
{
    reveal_strlit("justify-self");
    reveal_strlit("left");
    reveal_with_fuel(seq_less_from, 2);
}

proof fn lemma_lookup_adjacent_440()
    ensures
        name_less(lookup_name(440), lookup_name(441)),
{
    reveal_strlit("left");
    reveal_strlit("letter-spacing");
    reveal_with_fuel(seq_less_from, 4);
}

proof fn lemma_lookup_adjacent_441()
    ensures
        name_less(lookup_name(441), lookup_name(442)),
{
    reveal_strlit("letter-spacing");
    reveal_strlit("lighting-color");
    reveal_with_fuel(seq_less_from, 3);
}

proof fn lemma_lookup_adjacent_442()
    ensures
        name_less(lookup_name(442), lookup_name(443)),
{
    reveal_strlit("lighting-color");
    reveal_strlit("line-break");
    reveal_with_fuel(seq_less_from, 4);
}

proof fn lemma_lookup_adjacent_443()
    ensures
        name_less(lookup_name(443), lookup_name(444)),
{
    reveal_strlit("line-break");
    reveal_strlit("line-clamp");
    reveal_with_fuel(seq_less_from, 7);
}

proof fn lemma_lookup_adjacent_444()
    ensures
        name_less(lookup_name(444), lookup_name(445)),
{
    reveal_strlit("line-clamp");
    reveal_strlit("line-fit-edge");
    reveal_with_fuel(seq_less_from, 7);
}

proof fn lemma_lookup_adjacent_445()
    ensures
        name_less(lookup_name(445), lookup_name(446)),
{
    reveal_strlit("line-fit-edge");
    reveal_strlit("line-grid");
    reveal_with_fuel(seq_less_from, 7);
}

proof fn lemma_lookup_adjacent_446()
    ensures
        name_less(lookup_name(446), lookup_name(447)),
{
    reveal_strlit("line-grid");
    reveal_strlit("line-height");
    reveal_with_fuel(seq_less_from, 7);
}

proof fn lemma_lookup_adjacent_447()
    ensures
        name_less(lookup_name(447), lookup_name(448)),
{
    reveal_strlit("line-height");
    reveal_strlit("line-height-step");
    reveal_with_fuel(seq_less_from, 13);
}

proof fn lemma_lookup_adjacent_448()
    ensures
        name_less(lookup_name(448), lookup_name(449)),
{
    reveal_strlit("line-height-step");
    reveal_strlit("line-padding");
    reveal_with_fuel(seq_less_from, 7);
}

proof fn lemma_lookup_adjacent_449()
    ensures
        name_less(lookup_name(449), lookup_name(450)),
{
    reveal_strlit("line-padding");
    reveal_strlit("line-snap");
    reveal_with_fuel(seq_less_from, 7);
}

proof fn lemma_lookup_adjacent_450()
    ensures
        name_less(lookup_name(450), lookup_name(451)),
{
    reveal_strlit("line-snap");
    reveal_strlit("link-parameters");
    reveal_with_fuel(seq_less_from, 5);
}

proof fn lemma_lookup_adjacent_451()
    ensures
        name_less(lookup_name(451), lookup_name(452)),
{
    reveal_strlit("link-parameters");
    reveal_strlit("list-style");
    reveal_with_fuel(seq_less_from, 4);
}

proof fn lemma_lookup_adjacent_452()
    ensures
        name_less(lookup_name(452), lookup_name(453)),
{
    reveal_strlit("list-style");
    reveal_strlit("list-style-image");
    reveal_with_fuel(seq_less_from, 12);
}

proof fn lemma_lookup_adjacent_453()
    ensures
        name_less(lookup_name(453), lookup_name(454)),
{
    reveal_strlit("list-style-image");
    reveal_strlit("list-style-position");
    reveal_with_fuel(seq_less_from, 13);
}

proof fn lemma_lookup_adjacent_454()
    ensures
        name_less(lookup_name(454), lookup_name(455)),
{
    reveal_strlit("list-style-position");
    reveal_strlit("list-style-type");
    reveal_with_fuel(seq_less_from, 13);
}

proof fn lemma_lookup_adjacent_455()
    ensures
        name_less(lookup_name(455), lookup_name(456)),
{
    reveal_strlit("list-style-type");
    reveal_strlit("margin");
    reveal_with_fuel(seq_less_from, 2);
}

proof fn lemma_lookup_adjacent_456()
    ensures
        name_less(lookup_name(456), lookup_name(457)),
{
    reveal_strlit("margin");
    reveal_strlit("margin-block");
    reveal_with_fuel(seq_less_from, 8);
}

proof fn lemma_lookup_adjacent_457()
    ensures
        name_less(lookup_name(457), lookup_name(458)),
{
    reveal_strlit("margin-block");
    reveal_strlit("margin-block-end");
    reveal_with_fuel(seq_less_from, 14);
}

proof fn lemma_lookup_adjacent_458()
    ensures
        name_less(lookup_name(458), lookup_name(459)),
{
    reveal_strlit("margin-block-end");
    reveal_strlit("margin-block-start");
    reveal_with_fuel(seq_less_from, 15);
}

proof fn lemma_lookup_adjacent_459()
    ensures
        name_less(lookup_name(459), lookup_name(460)),
{
    reveal_strlit("margin-block-start");
    reveal_strlit("margin-bottom");
    reveal_with_fuel(seq_less_from, 10);
}

proof fn lemma_lookup_adjacent_460()
    ensures
        name_less(lookup_name(460), lookup_name(461)),
{
    reveal_strlit("margin-bottom");
    reveal_strlit("margin-break");
    reveal_with_fuel(seq_less_from, 10);
}

proof fn lemma_lookup_adjacent_461()
    ensures
        name_less(lookup_name(461), lookup_name(462)),
{
    reveal_strlit("margin-break");
    reveal_strlit("margin-inline");
    reveal_with_fuel(seq_less_from, 9);
}

proof fn lemma_lookup_adjacent_462()
    ensures
        name_less(lookup_name(462), lookup_name(463)),
{
    reveal_strlit("margin-inline");
    reveal_strlit("margin-inline-end");
    reveal_with_fuel(seq_less_from, 15);
}

proof fn lemma_lookup_adjacent_463()
    ensures
        name_less(lookup_name(463), lookup_name(464)),
{
    reveal_strlit("margin-inline-end");
    reveal_strlit("margin-inline-start");
    reveal_with_fuel(seq_less_from, 16);
}

proof fn lemma_lookup_adjacent_464()
    ensures
        name_less(lookup_name(464), lookup_name(465)),
{
    reveal_strlit("margin-inline-start");
    reveal_strlit("margin-left");
    reveal_with_fuel(seq_less_from, 9);
}

proof fn lemma_lookup_adjacent_465()
    ensures
        name_less(lookup_name(465), lookup_name(466)),
{
    reveal_strlit("margin-left");
    reveal_strlit("margin-right");
    reveal_with_fuel(seq_less_from, 9);
}

proof fn lemma_lookup_adjacent_466()
    ensures
        name_less(lookup_name(466), lookup_name(467)),
{
    reveal_strlit("margin-right");
    reveal_strlit("margin-top");
    reveal_with_fuel(seq_less_from, 9);
}

proof fn lemma_lookup_adjacent_467()
    ensures
        name_less(lookup_name(467), lookup_name(468)),
{
    reveal_strlit("margin-top");
    reveal_strlit("margin-trim");
    reveal_with_fuel(seq_less_from, 10);
}

proof fn lemma_lookup_adjacent_468()
    ensures
        name_less(lookup_name(468), lookup_name(469)),
{
    reveal_strlit("margin-trim");
    reveal_strlit("marker");
    reveal_with_fuel(seq_less_from, 5);
}

proof fn lemma_lookup_adjacent_469()
    ensures
        name_less(lookup_name(469), lookup_name(470)),
{
    reveal_strlit("marker");
    reveal_strlit("marker-end");
    reveal_with_fuel(seq_less_from, 8);
}

proof fn lemma_lookup_adjacent_470()
    ensures
        name_less(lookup_name(470), lookup_name(471)),
{
    reveal_strlit("marker-end");
    reveal_strlit("marker-mid");
    reveal_with_fuel(seq_less_from, 9);
}

proof fn lemma_lookup_adjacent_471()
    ensures
        name_less(lookup_name(471), lookup_name(472)),
{
    reveal_strlit("marker-mid");
    reveal_strlit("marker-side");
    reveal_with_fuel(seq_less_from, 9);
}

proof fn lemma_lookup_adjacent_472()
    ensures
        name_less(lookup_name(472), lookup_name(473)),
{
    reveal_strlit("marker-side");
    reveal_strlit("marker-start");
    reveal_with_fuel(seq_less_from, 10);
}

proof fn lemma_lookup_adjacent_473()
    ensures
        name_less(lookup_name(473), lookup_name(474)),
{
    reveal_strlit("marker-start");
    reveal_strlit("mask");
    reveal_with_fuel(seq_less_from, 4);
}

proof fn lemma_lookup_adjacent_474()
    ensures
        name_less(lookup_name(474), lookup_name(475)),
{
    reveal_strlit("mask");
    reveal_strlit("mask-border");
    reveal_with_fuel(seq_less_from, 6);
}

proof fn lemma_lookup_adjacent_475()
    ensures
        name_less(lookup_name(475), lookup_name(476)),
{
    reveal_strlit("mask-border");
    reveal_strlit("mask-border-mode");
    reveal_with_fuel(seq_less_from, 13);
}

proof fn lemma_lookup_adjacent_476()
    ensures
        name_less(lookup_name(476), lookup_name(477)),
{
    reveal_strlit("mask-border-mode");
    reveal_strlit("mask-border-outset");
    reveal_with_fuel(seq_less_from, 14);
}

proof fn lemma_lookup_adjacent_477()
    ensures
        name_less(lookup_name(477), lookup_name(478)),
{
    reveal_strlit("mask-border-outset");
    reveal_strlit("mask-border-repeat");
    reveal_with_fuel(seq_less_from, 14);
}

proof fn lemma_lookup_adjacent_478()
    ensures
        name_less(lookup_name(478), lookup_name(479)),
{
    reveal_strlit("mask-border-repeat");
    reveal_strlit("mask-border-slice");
    reveal_with_fuel(seq_less_from, 14);
}

proof fn lemma_lookup_adjacent_479()
    ensures
        name_less(lookup_name(479), lookup_name(480)),
{
    reveal_strlit("mask-border-slice");
    reveal_strlit("mask-border-source");
    reveal_with_fuel(seq_less_from, 15);
}

proof fn lemma_lookup_adjacent_480()
    ensures
        name_less(lookup_name(480), lookup_name(481)),
{
    reveal_strlit("mask-border-source");
    reveal_strlit("mask-border-width");
    reveal_with_fuel(seq_less_from, 14);
}

proof fn lemma_lookup_adjacent_481()
    ensures
        name_less(lookup_name(481), lookup_name(482)),
{
    reveal_strlit("mask-border-width");
    reveal_strlit("mask-clip");
    reveal_with_fuel(seq_less_from, 7);
}

proof fn lemma_lookup_adjacent_482()
    ensures
        name_less(lookup_name(482), lookup_name(483)),
{
    reveal_strlit("mask-clip");
    reveal_strlit("mask-composite");
    reveal_with_fuel(seq_less_from, 8);
}

proof fn lemma_lookup_adjacent_483()
    ensures
        name_less(lookup_name(483), lookup_name(484)),
{
    reveal_strlit("mask-composite");
    reveal_strlit("mask-image");
    reveal_with_fuel(seq_less_from, 7);
}

proof fn lemma_lookup_adjacent_484()
    ensures
        name_less(lookup_name(484), lookup_name(485)),
{
    reveal_strlit("mask-image");
    reveal_strlit("mask-mode");
    reveal_with_fuel(seq_less_from, 7);
}

proof fn lemma_lookup_adjacent_485()
    ensures
        name_less(lookup_name(485), lookup_name(486)),
{
    reveal_strlit("mask-mode");
    reveal_strlit("mask-origin");
    reveal_with_fuel(seq_less_from, 7);
}

proof fn lemma_lookup_adjacent_486()
    ensures
        name_less(lookup_name(486), lookup_name(487)),
{
    reveal_strlit("mask-origin");
    reveal_strlit("mask-position");
    reveal_with_fuel(seq_less_from, 7);
}

proof fn lemma_lookup_adjacent_487()
    ensures
        name_less(lookup_name(487), lookup_name(488)),
{
    reveal_strlit("mask-position");
    reveal_strlit("mask-repeat");
    reveal_with_fuel(seq_less_from, 7);
}

proof fn lemma_lookup_adjacent_488()
    ensures
        name_less(lookup_name(488), lookup_name(489)),
{
    reveal_strlit("mask-repeat");
    reveal_strlit("mask-size");
    reveal_with_fuel(seq_less_from, 7);
}

proof fn lemma_lookup_adjacent_489()
    ensures
        name_less(lookup_name(489), lookup_name(490)),
{
    reveal_strlit("mask-size");
    reveal_strlit("mask-type");
    reveal_with_fuel(seq_less_from, 7);
}

proof fn lemma_lookup_adjacent_490()
    ensures
        name_less(lookup_name(490), lookup_name(491)),
{
    reveal_strlit("mask-type");
    reveal_strlit("math-depth");
    reveal_with_fuel(seq_less_from, 4);
}

proof fn lemma_lookup_adjacent_491()
    ensures
        name_less(lookup_name(491), lookup_name(492)),
{
    reveal_strlit("math-depth");
    reveal_strlit("math-shift");
    reveal_with_fuel(seq_less_from, 7);
}

proof fn lemma_lookup_adjacent_492()
    ensures
        name_less(lookup_name(492), lookup_name(493)),
{
    reveal_strlit("math-shift");
    reveal_strlit("math-style");
    reveal_with_fuel(seq_less_from, 8);
}

proof fn lemma_lookup_adjacent_493()
    ensures
        name_less(lookup_name(493), lookup_name(494)),
{
    reveal_strlit("math-style");
    reveal_strlit("max-block-size");
    reveal_with_fuel(seq_less_from, 4);
}

proof fn lemma_lookup_adjacent_494()
    ensures
        name_less(lookup_name(494), lookup_name(495)),
{
    reveal_strlit("max-block-size");
    reveal_strlit("max-height");
    reveal_with_fuel(seq_less_from, 6);
}

proof fn lemma_lookup_adjacent_495()
    ensures
        name_less(lookup_name(495), lookup_name(496)),
{
    reveal_strlit("max-height");
    reveal_strlit("max-inline-size");
    reveal_with_fuel(seq_less_from, 6);
}

proof fn lemma_lookup_adjacent_496()
    ensures
        name_less(lookup_name(496), lookup_name(497)),
{
    reveal_strlit("max-inline-size");
    reveal_strlit("max-lines");
    reveal_with_fuel(seq_less_from, 6);
}

proof fn lemma_lookup_adjacent_497()
    ensures
        name_less(lookup_name(497), lookup_name(498)),
{
    reveal_strlit("max-lines");
    reveal_strlit("max-width");
    reveal_with_fuel(seq_less_from, 6);
}

proof fn lemma_lookup_adjacent_498()
    ensures
        name_less(lookup_name(498), lookup_name(499)),
{
    reveal_strlit("max-width");
    reveal_strlit("min-block-size");
    reveal_with_fuel(seq_less_from, 3);
}

proof fn lemma_lookup_adjacent_499()
    ensures
        name_less(lookup_name(499), lookup_name(500)),
{
    reveal_strlit("min-block-size");
    reveal_strlit("min-height");
    reveal_with_fuel(seq_less_from, 6);
}

proof fn lemma_lookup_adjacent_500()
    ensures
        name_less(lookup_name(500), lookup_name(501)),
{
    reveal_strlit("min-height");
    reveal_strlit("min-inline-size");
    reveal_with_fuel(seq_less_from, 6);
}

proof fn lemma_lookup_adjacent_501()
    ensures
        name_less(lookup_name(501), lookup_name(502)),
{
    reveal_strlit("min-inline-size");
    reveal_strlit("min-intrinsic-sizing");
    reveal_with_fuel(seq_less_from, 8);
}

proof fn lemma_lookup_adjacent_502()
    ensures
        name_less(lookup_name(502), lookup_name(503)),
{
    reveal_strlit("min-intrinsic-sizing");
    reveal_strlit("min-width");
    reveal_with_fuel(seq_less_from, 6);
}

proof fn lemma_lookup_adjacent_503()
    ensures
        name_less(lookup_name(503), lookup_name(504)),
{
    reveal_strlit("min-width");
    reveal_strlit("mix-blend-mode");
    reveal_with_fuel(seq_less_from, 4);
}

proof fn lemma_lookup_adjacent_504()
    ensures
        name_less(lookup_name(504), lookup_name(505)),
{
    reveal_strlit("mix-blend-mode");
    reveal_strlit("nav-down");
    reveal_with_fuel(seq_less_from, 2);
}

proof fn lemma_lookup_adjacent_505()
    ensures
        name_less(lookup_name(505), lookup_name(506)),
{
    reveal_strlit("nav-down");
    reveal_strlit("nav-left");
    reveal_with_fuel(seq_less_from, 6);
}

proof fn lemma_lookup_adjacent_506()
    ensures
        name_less(lookup_name(506), lookup_name(507)),
{
    reveal_strlit("nav-left");
    reveal_strlit("nav-right");
    reveal_with_fuel(seq_less_from, 6);
}

proof fn lemma_lookup_adjacent_507()
    ensures
        name_less(lookup_name(507), lookup_name(508)),
{
    reveal_strlit("nav-right");
    reveal_strlit("nav-up");
    reveal_with_fuel(seq_less_from, 6);
}

proof fn lemma_lookup_adjacent_508()
    ensures
        name_less(lookup_name(508), lookup_name(509)),
{
    reveal_strlit("nav-up");
    reveal_strlit("object-fit");
    reveal_with_fuel(seq_less_from, 2);
}

proof fn lemma_lookup_adjacent_509()
    ensures
        name_less(lookup_name(509), lookup_name(510)),
{
    reveal_strlit("object-fit");
    reveal_strlit("object-position");
    reveal_with_fuel(seq_less_from, 9);
}

proof fn lemma_lookup_adjacent_510()
    ensures
        name_less(lookup_name(510), lookup_name(511)),
{
    reveal_strlit("object-position");
    reveal_strlit("object-view-box");
    reveal_with_fuel(seq_less_from, 9);
}

proof fn lemma_lookup_adjacent_511()
    ensures
        name_less(lookup_name(511), lookup_name(512)),
{
    reveal_strlit("object-view-box");
    reveal_strlit("offset");
    reveal_with_fuel(seq_less_from, 3);
}

proof fn lemma_lookup_adjacent_512()
    ensures
        name_less(lookup_name(512), lookup_name(513)),
{
    reveal_strlit("offset");
    reveal_strlit("offset-anchor");
    reveal_with_fuel(seq_less_from, 8);
}

proof fn lemma_lookup_adjacent_513()
    ensures
        name_less(lookup_name(513), lookup_name(514)),
{
    reveal_strlit("offset-anchor");
    reveal_strlit("offset-distance");
    reveal_with_fuel(seq_less_from, 9);
}

proof fn lemma_lookup_adjacent_514()
    ensures
        name_less(lookup_name(514), lookup_name(515)),
{
    reveal_strlit("offset-distance");
    reveal_strlit("offset-path");
    reveal_with_fuel(seq_less_from, 9);
}

proof fn lemma_lookup_adjacent_515()
    ensures
        name_less(lookup_name(515), lookup_name(516)),
{
    reveal_strlit("offset-path");
    reveal_strlit("offset-position");
    reveal_with_fuel(seq_less_from, 10);
}

proof fn lemma_lookup_adjacent_516()
    ensures
        name_less(lookup_name(516), lookup_name(517)),
{
    reveal_strlit("offset-position");
    reveal_strlit("offset-rotate");
    reveal_with_fuel(seq_less_from, 9);
}

proof fn lemma_lookup_adjacent_517()
    ensures
        name_less(lookup_name(517), lookup_name(518)),
{
    reveal_strlit("offset-rotate");
    reveal_strlit("opacity");
    reveal_with_fuel(seq_less_from, 3);
}

proof fn lemma_lookup_adjacent_518()
    ensures
        name_less(lookup_name(518), lookup_name(519)),
{
    reveal_strlit("opacity");
    reveal_strlit("order");
    reveal_with_fuel(seq_less_from, 3);
}

proof fn lemma_lookup_adjacent_519()
    ensures
        name_less(lookup_name(519), lookup_name(520)),
{
    reveal_strlit("order");
    reveal_strlit("orphans");
    reveal_with_fuel(seq_less_from, 4);
}

proof fn lemma_lookup_adjacent_520()
    ensures
        name_less(lookup_name(520), lookup_name(521)),
{
    reveal_strlit("orphans");
    reveal_strlit("outline");
    reveal_with_fuel(seq_less_from, 3);
}

proof fn lemma_lookup_adjacent_521()
    ensures
        name_less(lookup_name(521), lookup_name(522)),
{
    reveal_strlit("outline");
    reveal_strlit("outline-color");
    reveal_with_fuel(seq_less_from, 9);
}

proof fn lemma_lookup_adjacent_522()
    ensures
        name_less(lookup_name(522), lookup_name(523)),
{
    reveal_strlit("outline-color");
    reveal_strlit("outline-offset");
    reveal_with_fuel(seq_less_from, 10);
}

proof fn lemma_lookup_adjacent_523()
    ensures
        name_less(lookup_name(523), lookup_name(524)),
{
    reveal_strlit("outline-offset");
    reveal_strlit("outline-style");
    reveal_with_fuel(seq_less_from, 10);
}

proof fn lemma_lookup_adjacent_524()
    ensures
        name_less(lookup_name(524), lookup_name(525)),
{
    reveal_strlit("outline-style");
    reveal_strlit("outline-width");
    reveal_with_fuel(seq_less_from, 10);
}

proof fn lemma_lookup_adjacent_525()
    ensures
        name_less(lookup_name(525), lookup_name(526)),
{
    reveal_strlit("outline-width");
    reveal_strlit("overflow");
    reveal_with_fuel(seq_less_from, 3);
}

proof fn lemma_lookup_adjacent_526()
    ensures
        name_less(lookup_name(526), lookup_name(527)),
{
    reveal_strlit("overflow");
    reveal_strlit("overflow-anchor");
    reveal_with_fuel(seq_less_from, 10);
}

proof fn lemma_lookup_adjacent_527()
    ensures
        name_less(lookup_name(527), lookup_name(528)),
{
    reveal_strlit("overflow-anchor");
    reveal_strlit("overflow-block");
    reveal_with_fuel(seq_less_from, 11);
}

proof fn lemma_lookup_adjacent_528()
    ensures
        name_less(lookup_name(528), lookup_name(529)),
{
    reveal_strlit("overflow-block");
    reveal_strlit("overflow-clip-margin");
    reveal_with_fuel(seq_less_from, 11);
}

proof fn lemma_lookup_adjacent_529()
    ensures
        name_less(lookup_name(529), lookup_name(530)),
{
    reveal_strlit("overflow-clip-margin");
    reveal_strlit("overflow-clip-margin-block");
    reveal_with_fuel(seq_less_from, 22);
}

proof fn lemma_lookup_adjacent_530()
    ensures
        name_less(lookup_name(530), lookup_name(531)),
{
    reveal_strlit("overflow-clip-margin-block");
    reveal_strlit("overflow-clip-margin-block-end");
    reveal_with_fuel(seq_less_from, 28);
}

proof fn lemma_lookup_adjacent_531()
    ensures
        name_less(lookup_name(531), lookup_name(532)),
{
    reveal_strlit("overflow-clip-margin-block-end");
    reveal_strlit("overflow-clip-margin-block-start");
    reveal_with_fuel(seq_less_from, 29);
}

proof fn lemma_lookup_adjacent_532()
    ensures
        name_less(lookup_name(532), lookup_name(533)),
{
    reveal_strlit("overflow-clip-margin-block-start");
    reveal_strlit("overflow-clip-margin-bottom");
    reveal_with_fuel(seq_less_from, 24);
}

proof fn lemma_lookup_adjacent_533()
    ensures
        name_less(lookup_name(533), lookup_name(534)),
{
    reveal_strlit("overflow-clip-margin-bottom");
    reveal_strlit("overflow-clip-margin-inline");
    reveal_with_fuel(seq_less_from, 23);
}

proof fn lemma_lookup_adjacent_534()
    ensures
        name_less(lookup_name(534), lookup_name(535)),
{
    reveal_strlit("overflow-clip-margin-inline");
    reveal_strlit("overflow-clip-margin-inline-end");
    reveal_with_fuel(seq_less_from, 29);
}

proof fn lemma_lookup_adjacent_535()
    ensures
        name_less(lookup_name(535), lookup_name(536)),
{
    reveal_strlit("overflow-clip-margin-inline-end");
    reveal_strlit("overflow-clip-margin-inline-start");
    reveal_with_fuel(seq_less_from, 30);
}

proof fn lemma_lookup_adjacent_536()
    ensures
        name_less(lookup_name(536), lookup_name(537)),
{
    reveal_strlit("overflow-clip-margin-inline-start");
    reveal_strlit("overflow-clip-margin-left");
    reveal_with_fuel(seq_less_from, 23);
}

proof fn lemma_lookup_adjacent_537()
    ensures
        name_less(lookup_name(537), lookup_name(538)),
{
    reveal_strlit("overflow-clip-margin-left");
    reveal_strlit("overflow-clip-margin-right");
    reveal_with_fuel(seq_less_from, 23);
}

proof fn lemma_lookup_adjacent_538()
    ensures
        name_less(lookup_name(538), lookup_name(539)),
{
    reveal_strlit("overflow-clip-margin-right");
    reveal_strlit("overflow-clip-margin-top");
    reveal_with_fuel(seq_less_from, 23);
}

proof fn lemma_lookup_adjacent_539()
    ensures
        name_less(lookup_name(539), lookup_name(540)),
{
    reveal_strlit("overflow-clip-margin-top");
    reveal_strlit("overflow-inline");
    reveal_with_fuel(seq_less_from, 11);
}

proof fn lemma_lookup_adjacent_540()
    ensures
        name_less(lookup_name(540), lookup_name(541)),
{
    reveal_strlit("overflow-inline");
    reveal_strlit("overflow-wrap");
    reveal_with_fuel(seq_less_from, 11);
}

proof fn lemma_lookup_adjacent_541()
    ensures
        name_less(lookup_name(541), lookup_name(542)),
{
    reveal_strlit("overflow-wrap");
    reveal_strlit("overflow-x");
    reveal_with_fuel(seq_less_from, 11);
}

proof fn lemma_lookup_adjacent_542()
    ensures
        name_less(lookup_name(542), lookup_name(543)),
{
    reveal_strlit("overflow-x");
    reveal_strlit("overflow-y");
    reveal_with_fuel(seq_less_from, 11);
}

proof fn lemma_lookup_adjacent_543()
    ensures
        name_less(lookup_name(543), lookup_name(544)),
{
    reveal_strlit("overflow-y");
    reveal_strlit("overlay");
    reveal_with_fuel(seq_less_from, 6);
}

proof fn lemma_lookup_adjacent_544()
    ensures
        name_less(lookup_name(544), lookup_name(545)),
{
    reveal_strlit("overlay");
    reveal_strlit("overscroll-behavior");
    reveal_with_fuel(seq_less_from, 6);
}

proof fn lemma_lookup_adjacent_545()
    ensures
        name_less(lookup_name(545), lookup_name(546)),
{
    reveal_strlit("overscroll-behavior");
    reveal_strlit("overscroll-behavior-block");
    reveal_with_fuel(seq_less_from, 21);
}

proof fn lemma_lookup_adjacent_546()
    ensures
        name_less(lookup_name(546), lookup_name(547)),
{
    reveal_strlit("overscroll-behavior-block");
    reveal_strlit("overscroll-behavior-inline");
    reveal_with_fuel(seq_less_from, 22);
}

proof fn lemma_lookup_adjacent_547()
    ensures
        name_less(lookup_name(547), lookup_name(548)),
{
    reveal_strlit("overscroll-behavior-inline");
    reveal_strlit("overscroll-behavior-x");
    reveal_with_fuel(seq_less_from, 22);
}

proof fn lemma_lookup_adjacent_548()
    ensures
        name_less(lookup_name(548), lookup_name(549)),
{
    reveal_strlit("overscroll-behavior-x");
    reveal_strlit("overscroll-behavior-y");
    reveal_with_fuel(seq_less_from, 22);
}

proof fn lemma_lookup_adjacent_549()
    ensures
        name_less(lookup_name(549), lookup_name(550)),
{
    reveal_strlit("overscroll-behavior-y");
    reveal_strlit("padding");
    reveal_with_fuel(seq_less_from, 2);
}

proof fn lemma_lookup_adjacent_550()
    ensures
        name_less(lookup_name(550), lookup_name(551)),
{
    reveal_strlit("padding");
    reveal_strlit("padding-block");
    reveal_with_fuel(seq_less_from, 9);
}

proof fn lemma_lookup_adjacent_551()
    ensures
        name_less(lookup_name(551), lookup_name(552)),
{
    reveal_strlit("padding-block");
    reveal_strlit("padding-block-end");
    reveal_with_fuel(seq_less_from, 15);
}

proof fn lemma_lookup_adjacent_552()
    ensures
        name_less(lookup_name(552), lookup_name(553)),
{
    reveal_strlit("padding-block-end");
    reveal_strlit("padding-block-start");
    reveal_with_fuel(seq_less_from, 16);
}

proof fn lemma_lookup_adjacent_553()
    ensures
        name_less(lookup_name(553), lookup_name(554)),
{
    reveal_strlit("padding-block-start");
    reveal_strlit("padding-bottom");
    reveal_with_fuel(seq_less_from, 11);
}

proof fn lemma_lookup_adjacent_554()
    ensures
        name_less(lookup_name(554), lookup_name(555)),
{
    reveal_strlit("padding-bottom");
    reveal_strlit("padding-inline");
    reveal_with_fuel(seq_less_from, 10);
}

proof fn lemma_lookup_adjacent_555()
    ensures
        name_less(lookup_name(555), lookup_name(556)),
{
    reveal_strlit("padding-inline");
    reveal_strlit("padding-inline-end");
    reveal_with_fuel(seq_less_from, 16);
}

proof fn lemma_lookup_adjacent_556()
    ensures
        name_less(lookup_name(556), lookup_name(557)),
{
    reveal_strlit("padding-inline-end");
    reveal_strlit("padding-inline-start");
    reveal_with_fuel(seq_less_from, 17);
}

proof fn lemma_lookup_adjacent_557()
    ensures
        name_less(lookup_name(557), lookup_name(558)),
{
    reveal_strlit("padding-inline-start");
    reveal_strlit("padding-left");
    reveal_with_fuel(seq_less_from, 10);
}

proof fn lemma_lookup_adjacent_558()
    ensures
        name_less(lookup_name(558), lookup_name(559)),
{
    reveal_strlit("padding-left");
    reveal_strlit("padding-right");
    reveal_with_fuel(seq_less_from, 10);
}

proof fn lemma_lookup_adjacent_559()
    ensures
        name_less(lookup_name(559), lookup_name(560)),
{
    reveal_strlit("padding-right");
    reveal_strlit("padding-top");
    reveal_with_fuel(seq_less_from, 10);
}

proof fn lemma_lookup_adjacent_560()
    ensures
        name_less(lookup_name(560), lookup_name(561)),
{
    reveal_strlit("padding-top");
    reveal_strlit("page");
    reveal_with_fuel(seq_less_from, 4);
}

proof fn lemma_lookup_adjacent_561()
    ensures
        name_less(lookup_name(561), lookup_name(562)),
{
    reveal_strlit("page");
    reveal_strlit("page-break-after");
    reveal_with_fuel(seq_less_from, 6);
}

proof fn lemma_lookup_adjacent_562()
    ensures
        name_less(lookup_name(562), lookup_name(563)),
{
    reveal_strlit("page-break-after");
    reveal_strlit("page-break-before");
    reveal_with_fuel(seq_less_from, 13);
}

proof fn lemma_lookup_adjacent_563()
    ensures
        name_less(lookup_name(563), lookup_name(564)),
{
    reveal_strlit("page-break-before");
    reveal_strlit("page-break-inside");
    reveal_with_fuel(seq_less_from, 13);
}

proof fn lemma_lookup_adjacent_564()
    ensures
        name_less(lookup_name(564), lookup_name(565)),
{
    reveal_strlit("page-break-inside");
    reveal_strlit("paint-order");
    reveal_with_fuel(seq_less_from, 4);
}

proof fn lemma_lookup_adjacent_565()
    ensures
        name_less(lookup_name(565), lookup_name(566)),
{
    reveal_strlit("paint-order");
    reveal_strlit("path-length");
    reveal_with_fuel(seq_less_from, 4);
}

proof fn lemma_lookup_adjacent_566()
    ensures
        name_less(lookup_name(566), lookup_name(567)),
{
    reveal_strlit("path-length");
    reveal_strlit("pause");
    reveal_with_fuel(seq_less_from, 4);
}

proof fn lemma_lookup_adjacent_567()
    ensures
        name_less(lookup_name(567), lookup_name(568)),
{
    reveal_strlit("pause");
    reveal_strlit("pause-after");
    reveal_with_fuel(seq_less_from, 7);
}

proof fn lemma_lookup_adjacent_568()
    ensures
        name_less(lookup_name(568), lookup_name(569)),
{
    reveal_strlit("pause-after");
    reveal_strlit("pause-before");
    reveal_with_fuel(seq_less_from, 8);
}

proof fn lemma_lookup_adjacent_569()
    ensures
        name_less(lookup_name(569), lookup_name(570)),
{
    reveal_strlit("pause-before");
    reveal_strlit("perspective");
    reveal_with_fuel(seq_less_from, 3);
}

proof fn lemma_lookup_adjacent_570()
    ensures
        name_less(lookup_name(570), lookup_name(571)),
{
    reveal_strlit("perspective");
    reveal_strlit("perspective-origin");
    reveal_with_fuel(seq_less_from, 13);
}

proof fn lemma_lookup_adjacent_571()
    ensures
        name_less(lookup_name(571), lookup_name(572)),
{
    reveal_strlit("perspective-origin");
    reveal_strlit("place-content");
    reveal_with_fuel(seq_less_from, 3);
}

proof fn lemma_lookup_adjacent_572()
    ensures
        name_less(lookup_name(572), lookup_name(573)),
{
    reveal_strlit("place-content");
    reveal_strlit("place-items");
    reveal_with_fuel(seq_less_from, 8);
}

proof fn lemma_lookup_adjacent_573()
    ensures
        name_less(lookup_name(573), lookup_name(574)),
{
    reveal_strlit("place-items");
    reveal_strlit("place-self");
    reveal_with_fuel(seq_less_from, 8);
}

proof fn lemma_lookup_adjacent_574()
    ensures
        name_less(lookup_name(574), lookup_name(575)),
{
    reveal_strlit("place-self");
    reveal_strlit("pointer-events");
    reveal_with_fuel(seq_less_from, 3);
}

proof fn lemma_lookup_adjacent_575()
    ensures
        name_less(lookup_name(575), lookup_name(576)),
{
    reveal_strlit("pointer-events");
    reveal_strlit("pointer-timeline");
    reveal_with_fuel(seq_less_from, 10);
}

proof fn lemma_lookup_adjacent_576()
    ensures
        name_less(lookup_name(576), lookup_name(577)),
{
    reveal_strlit("pointer-timeline");
    reveal_strlit("pointer-timeline-axis");
    reveal_with_fuel(seq_less_from, 18);
}

proof fn lemma_lookup_adjacent_577()
    ensures
        name_less(lookup_name(577), lookup_name(578)),
{
    reveal_strlit("pointer-timeline-axis");
    reveal_strlit("pointer-timeline-name");
    reveal_with_fuel(seq_less_from, 19);
}

proof fn lemma_lookup_adjacent_578()
    ensures
        name_less(lookup_name(578), lookup_name(579)),
{
    reveal_strlit("pointer-timeline-name");
    reveal_strlit("position");
    reveal_with_fuel(seq_less_from, 4);
}

proof fn lemma_lookup_adjacent_579()
    ensures
        name_less(lookup_name(579), lookup_name(580)),
{
    reveal_strlit("position");
    reveal_strlit("position-anchor");
    reveal_with_fuel(seq_less_from, 10);
}

proof fn lemma_lookup_adjacent_580()
    ensures
        name_less(lookup_name(580), lookup_name(581)),
{
    reveal_strlit("position-anchor");
    reveal_strlit("position-area");
    reveal_with_fuel(seq_less_from, 12);
}

proof fn lemma_lookup_adjacent_581()
    ensures
        name_less(lookup_name(581), lookup_name(582)),
{
    reveal_strlit("position-area");
    reveal_strlit("position-try");
    reveal_with_fuel(seq_less_from, 11);
}

proof fn lemma_lookup_adjacent_582()
    ensures
        name_less(lookup_name(582), lookup_name(583)),
{
    reveal_strlit("position-try");
    reveal_strlit("position-try-fallbacks");
    reveal_with_fuel(seq_less_from, 14);
}

proof fn lemma_lookup_adjacent_583()
    ensures
        name_less(lookup_name(583), lookup_name(584)),
{
    reveal_strlit("position-try-fallbacks");
    reveal_strlit("position-try-order");
    reveal_with_fuel(seq_less_from, 15);
}

proof fn lemma_lookup_adjacent_584()
    ensures
        name_less(lookup_name(584), lookup_name(585)),
{
    reveal_strlit("position-try-order");
    reveal_strlit("position-visibility");
    reveal_with_fuel(seq_less_from, 11);
}

proof fn lemma_lookup_adjacent_585()
    ensures
        name_less(lookup_name(585), lookup_name(586)),
{
    reveal_strlit("position-visibility");
    reveal_strlit("print-color-adjust");
    reveal_with_fuel(seq_less_from, 3);
}

proof fn lemma_lookup_adjacent_586()
    ensures
        name_less(lookup_name(586), lookup_name(587)),
{
    reveal_strlit("print-color-adjust");
    reveal_strlit("quotes");
    reveal_with_fuel(seq_less_from, 2);
}

proof fn lemma_lookup_adjacent_587()
    ensures
        name_less(lookup_name(587), lookup_name(588)),
{
    reveal_strlit("quotes");
    reveal_strlit("r");
    reveal_with_fuel(seq_less_from, 2);
}

proof fn lemma_lookup_adjacent_588()
    ensures
        name_less(lookup_name(588), lookup_name(589)),
{
    reveal_strlit("r");
    reveal_strlit("reading-flow");
    reveal_with_fuel(seq_less_from, 3);
}

proof fn lemma_lookup_adjacent_589()
    ensures
        name_less(lookup_name(589), lookup_name(590)),
{
    reveal_strlit("reading-flow");
    reveal_strlit("reading-order");
    reveal_with_fuel(seq_less_from, 10);
}

proof fn lemma_lookup_adjacent_590()
    ensures
        name_less(lookup_name(590), lookup_name(591)),
{
    reveal_strlit("reading-order");
    reveal_strlit("region-fragment");
    reveal_with_fuel(seq_less_from, 4);
}

proof fn lemma_lookup_adjacent_591()
    ensures
        name_less(lookup_name(591), lookup_name(592)),
{
    reveal_strlit("region-fragment");
    reveal_strlit("resize");
    reveal_with_fuel(seq_less_from, 4);
}

proof fn lemma_lookup_adjacent_592()
    ensures
        name_less(lookup_name(592), lookup_name(593)),
{
    reveal_strlit("resize");
    reveal_strlit("rest");
    reveal_with_fuel(seq_less_from, 5);
}

proof fn lemma_lookup_adjacent_593()
    ensures
        name_less(lookup_name(593), lookup_name(594)),
{
    reveal_strlit("rest");
    reveal_strlit("rest-after");
    reveal_with_fuel(seq_less_from, 6);
}

proof fn lemma_lookup_adjacent_594()
    ensures
        name_less(lookup_name(594), lookup_name(595)),
{
    reveal_strlit("rest-after");
    reveal_strlit("rest-before");
    reveal_with_fuel(seq_less_from, 7);
}

proof fn lemma_lookup_adjacent_595()
    ensures
        name_less(lookup_name(595), lookup_name(596)),
{
    reveal_strlit("rest-before");
    reveal_strlit("right");
    reveal_with_fuel(seq_less_from, 3);
}

proof fn lemma_lookup_adjacent_596()
    ensures
        name_less(lookup_name(596), lookup_name(597)),
{
    reveal_strlit("right");
    reveal_strlit("rotate");
    reveal_with_fuel(seq_less_from, 3);
}

proof fn lemma_lookup_adjacent_597()
    ensures
        name_less(lookup_name(597), lookup_name(598)),
{
    reveal_strlit("rotate");
    reveal_strlit("row-gap");
    reveal_with_fuel(seq_less_from, 4);
}

proof fn lemma_lookup_adjacent_598()
    ensures
        name_less(lookup_name(598), lookup_name(599)),
{
    reveal_strlit("row-gap");
    reveal_strlit("row-rule");
    reveal_with_fuel(seq_less_from, 6);
}

proof fn lemma_lookup_adjacent_599()
    ensures
        name_less(lookup_name(599), lookup_name(600)),
{
    reveal_strlit("row-rule");
    reveal_strlit("row-rule-break");
    reveal_with_fuel(seq_less_from, 10);
}

proof fn lemma_lookup_adjacent_600()
    ensures
        name_less(lookup_name(600), lookup_name(601)),
{
    reveal_strlit("row-rule-break");
    reveal_strlit("row-rule-color");
    reveal_with_fuel(seq_less_from, 11);
}

proof fn lemma_lookup_adjacent_601()
    ensures
        name_less(lookup_name(601), lookup_name(602)),
{
    reveal_strlit("row-rule-color");
    reveal_strlit("row-rule-inset");
    reveal_with_fuel(seq_less_from, 11);
}

proof fn lemma_lookup_adjacent_602()
    ensures
        name_less(lookup_name(602), lookup_name(603)),
{
    reveal_strlit("row-rule-inset");
    reveal_strlit("row-rule-inset-cap");
    reveal_with_fuel(seq_less_from, 16);
}

proof fn lemma_lookup_adjacent_603()
    ensures
        name_less(lookup_name(603), lookup_name(604)),
{
    reveal_strlit("row-rule-inset-cap");
    reveal_strlit("row-rule-inset-cap-end");
    reveal_with_fuel(seq_less_from, 20);
}

proof fn lemma_lookup_adjacent_604()
    ensures
        name_less(lookup_name(604), lookup_name(605)),
{
    reveal_strlit("row-rule-inset-cap-end");
    reveal_strlit("row-rule-inset-cap-start");
    reveal_with_fuel(seq_less_from, 21);
}

proof fn lemma_lookup_adjacent_605()
    ensures
        name_less(lookup_name(605), lookup_name(606)),
{
    reveal_strlit("row-rule-inset-cap-start");
    reveal_strlit("row-rule-inset-end");
    reveal_with_fuel(seq_less_from, 17);
}

proof fn lemma_lookup_adjacent_606()
    ensures
        name_less(lookup_name(606), lookup_name(607)),
{
    reveal_strlit("row-rule-inset-end");
    reveal_strlit("row-rule-inset-junction");
    reveal_with_fuel(seq_less_from, 17);
}

proof fn lemma_lookup_adjacent_607()
    ensures
        name_less(lookup_name(607), lookup_name(608)),
{
    reveal_strlit("row-rule-inset-junction");
    reveal_strlit("row-rule-inset-junction-end");
    reveal_with_fuel(seq_less_from, 25);
}

proof fn lemma_lookup_adjacent_608()
    ensures
        name_less(lookup_name(608), lookup_name(609)),
{
    reveal_strlit("row-rule-inset-junction-end");
    reveal_strlit("row-rule-inset-junction-start");
    reveal_with_fuel(seq_less_from, 26);
}

proof fn lemma_lookup_adjacent_609()
    ensures
        name_less(lookup_name(609), lookup_name(610)),
{
    reveal_strlit("row-rule-inset-junction-start");
    reveal_strlit("row-rule-inset-start");
    reveal_with_fuel(seq_less_from, 17);
}

proof fn lemma_lookup_adjacent_610()
    ensures
        name_less(lookup_name(610), lookup_name(611)),
{
    reveal_strlit("row-rule-inset-start");
    reveal_strlit("row-rule-style");
    reveal_with_fuel(seq_less_from, 11);
}

proof fn lemma_lookup_adjacent_611()
    ensures
        name_less(lookup_name(611), lookup_name(612)),
{
    reveal_strlit("row-rule-style");
    reveal_strlit("row-rule-visibility-items");
    reveal_with_fuel(seq_less_from, 11);
}

proof fn lemma_lookup_adjacent_612()
    ensures
        name_less(lookup_name(612), lookup_name(613)),
{
    reveal_strlit("row-rule-visibility-items");
    reveal_strlit("row-rule-width");
    reveal_with_fuel(seq_less_from, 11);
}

proof fn lemma_lookup_adjacent_613()
    ensures
        name_less(lookup_name(613), lookup_name(614)),
{
    reveal_strlit("row-rule-width");
    reveal_strlit("ruby-align");
    reveal_with_fuel(seq_less_from, 3);
}

proof fn lemma_lookup_adjacent_614()
    ensures
        name_less(lookup_name(614), lookup_name(615)),
{
    reveal_strlit("ruby-align");
    reveal_strlit("ruby-merge");
    reveal_with_fuel(seq_less_from, 7);
}

proof fn lemma_lookup_adjacent_615()
    ensures
        name_less(lookup_name(615), lookup_name(616)),
{
    reveal_strlit("ruby-merge");
    reveal_strlit("ruby-overhang");
    reveal_with_fuel(seq_less_from, 7);
}

proof fn lemma_lookup_adjacent_616()
    ensures
        name_less(lookup_name(616), lookup_name(617)),
{
    reveal_strlit("ruby-overhang");
    reveal_strlit("ruby-position");
    reveal_with_fuel(seq_less_from, 7);
}

proof fn lemma_lookup_adjacent_617()
    ensures
        name_less(lookup_name(617), lookup_name(618)),
{
    reveal_strlit("ruby-position");
    reveal_strlit("rule");
    reveal_with_fuel(seq_less_from, 4);
}

proof fn lemma_lookup_adjacent_618()
    ensures
        name_less(lookup_name(618), lookup_name(619)),
{
    reveal_strlit("rule");
    reveal_strlit("rule-break");
    reveal_with_fuel(seq_less_from, 6);
}

proof fn lemma_lookup_adjacent_619()
    ensures
        name_less(lookup_name(619), lookup_name(620)),
{
    reveal_strlit("rule-break");
    reveal_strlit("rule-color");
    reveal_with_fuel(seq_less_from, 7);
}

proof fn lemma_lookup_adjacent_620()
    ensures
        name_less(lookup_name(620), lookup_name(621)),
{
    reveal_strlit("rule-color");
    reveal_strlit("rule-inset");
    reveal_with_fuel(seq_less_from, 7);
}

proof fn lemma_lookup_adjacent_621()
    ensures
        name_less(lookup_name(621), lookup_name(622)),
{
    reveal_strlit("rule-inset");
    reveal_strlit("rule-inset-cap");
    reveal_with_fuel(seq_less_from, 12);
}

proof fn lemma_lookup_adjacent_622()
    ensures
        name_less(lookup_name(622), lookup_name(623)),
{
    reveal_strlit("rule-inset-cap");
    reveal_strlit("rule-inset-end");
    reveal_with_fuel(seq_less_from, 13);
}

proof fn lemma_lookup_adjacent_623()
    ensures
        name_less(lookup_name(623), lookup_name(624)),
{
    reveal_strlit("rule-inset-end");
    reveal_strlit("rule-inset-junction");
    reveal_with_fuel(seq_less_from, 13);
}

proof fn lemma_lookup_adjacent_624()
    ensures
        name_less(lookup_name(624), lookup_name(625)),
{
    reveal_strlit("rule-inset-junction");
    reveal_strlit("rule-inset-start");
    reveal_with_fuel(seq_less_from, 13);
}

proof fn lemma_lookup_adjacent_625()
    ensures
        name_less(lookup_name(625), lookup_name(626)),
{
    reveal_strlit("rule-inset-start");
    reveal_strlit("rule-overlap");
    reveal_with_fuel(seq_less_from, 7);
}

proof fn lemma_lookup_adjacent_626()
    ensures
        name_less(lookup_name(626), lookup_name(627)),
{
    reveal_strlit("rule-overlap");
    reveal_strlit("rule-style");
    reveal_with_fuel(seq_less_from, 7);
}

proof fn lemma_lookup_adjacent_627()
    ensures
        name_less(lookup_name(627), lookup_name(628)),
{
    reveal_strlit("rule-style");
    reveal_strlit("rule-visibility-items");
    reveal_with_fuel(seq_less_from, 7);
}

proof fn lemma_lookup_adjacent_628()
    ensures
        name_less(lookup_name(628), lookup_name(629)),
{
    reveal_strlit("rule-visibility-items");
    reveal_strlit("rule-width");
    reveal_with_fuel(seq_less_from, 7);
}

proof fn lemma_lookup_adjacent_629()
    ensures
        name_less(lookup_name(629), lookup_name(630)),
{
    reveal_strlit("rule-width");
    reveal_strlit("rx");
    reveal_with_fuel(seq_less_from, 3);
}

proof fn lemma_lookup_adjacent_630()
    ensures
        name_less(lookup_name(630), lookup_name(631)),
{
    reveal_strlit("rx");
    reveal_strlit("ry");
    reveal_with_fuel(seq_less_from, 3);
}

proof fn lemma_lookup_adjacent_631()
    ensures
        name_less(lookup_name(631), lookup_name(632)),
{
    reveal_strlit("ry");
    reveal_strlit("scale");
    reveal_with_fuel(seq_less_from, 2);
}

proof fn lemma_lookup_adjacent_632()
    ensures
        name_less(lookup_name(632), lookup_name(633)),
{
    reveal_strlit("scale");
    reveal_strlit("scroll-behavior");
    reveal_with_fuel(seq_less_from, 4);
}

proof fn lemma_lookup_adjacent_633()
    ensures
        name_less(lookup_name(633), lookup_name(634)),
{
    reveal_strlit("scroll-behavior");
    reveal_strlit("scroll-initial-target");
    reveal_with_fuel(seq_less_from, 9);
}

proof fn lemma_lookup_adjacent_634()
    ensures
        name_less(lookup_name(634), lookup_name(635)),
{
    reveal_strlit("scroll-initial-target");
    reveal_strlit("scroll-margin");
    reveal_with_fuel(seq_less_from, 9);
}

proof fn lemma_lookup_adjacent_635()
    ensures
        name_less(lookup_name(635), lookup_name(636)),
{
    reveal_strlit("scroll-margin");
    reveal_strlit("scroll-margin-block");
    reveal_with_fuel(seq_less_from, 15);
}

proof fn lemma_lookup_adjacent_636()
    ensures
        name_less(lookup_name(636), lookup_name(637)),
{
    reveal_strlit("scroll-margin-block");
    reveal_strlit("scroll-margin-block-end");
    reveal_with_fuel(seq_less_from, 21);
}

proof fn lemma_lookup_adjacent_637()
    ensures
        name_less(lookup_name(637), lookup_name(638)),
{
    reveal_strlit("scroll-margin-block-end");
    reveal_strlit("scroll-margin-block-start");
    reveal_with_fuel(seq_less_from, 22);
}

proof fn lemma_lookup_adjacent_638()
    ensures
        name_less(lookup_name(638), lookup_name(639)),
{
    reveal_strlit("scroll-margin-block-start");
    reveal_strlit("scroll-margin-bottom");
    reveal_with_fuel(seq_less_from, 17);
}

proof fn lemma_lookup_adjacent_639()
    ensures
        name_less(lookup_name(639), lookup_name(640)),
{
    reveal_strlit("scroll-margin-bottom");
    reveal_strlit("scroll-margin-inline");
    reveal_with_fuel(seq_less_from, 16);
}

proof fn lemma_lookup_adjacent_640()
    ensures
        name_less(lookup_name(640), lookup_name(641)),
{
    reveal_strlit("scroll-margin-inline");
    reveal_strlit("scroll-margin-inline-end");
    reveal_with_fuel(seq_less_from, 22);
}

proof fn lemma_lookup_adjacent_641()
    ensures
        name_less(lookup_name(641), lookup_name(642)),
{
    reveal_strlit("scroll-margin-inline-end");
    reveal_strlit("scroll-margin-inline-start");
    reveal_with_fuel(seq_less_from, 23);
}

proof fn lemma_lookup_adjacent_642()
    ensures
        name_less(lookup_name(642), lookup_name(643)),
{
    reveal_strlit("scroll-margin-inline-start");
    reveal_strlit("scroll-margin-left");
    reveal_with_fuel(seq_less_from, 16);
}

proof fn lemma_lookup_adjacent_643()
    ensures
        name_less(lookup_name(643), lookup_name(644)),
{
    reveal_strlit("scroll-margin-left");
    reveal_strlit("scroll-margin-right");
    reveal_with_fuel(seq_less_from, 16);
}

proof fn lemma_lookup_adjacent_644()
    ensures
        name_less(lookup_name(644), lookup_name(645)),
{
    reveal_strlit("scroll-margin-right");
    reveal_strlit("scroll-margin-top");
    reveal_with_fuel(seq_less_from, 16);
}

proof fn lemma_lookup_adjacent_645()
    ensures
        name_less(lookup_name(645), lookup_name(646)),
{
    reveal_strlit("scroll-margin-top");
    reveal_strlit("scroll-marker-group");
    reveal_with_fuel(seq_less_from, 12);
}

proof fn lemma_lookup_adjacent_646()
    ensures
        name_less(lookup_name(646), lookup_name(647)),
{
    reveal_strlit("scroll-marker-group");
    reveal_strlit("scroll-padding");
    reveal_with_fuel(seq_less_from, 9);
}

proof fn lemma_lookup_adjacent_647()
    ensures
        name_less(lookup_name(647), lookup_name(648)),
{
    reveal_strlit("scroll-padding");
    reveal_strlit("scroll-padding-block");
    reveal_with_fuel(seq_less_from, 16);
}

proof fn lemma_lookup_adjacent_648()
    ensures
        name_less(lookup_name(648), lookup_name(649)),
{
    reveal_strlit("scroll-padding-block");
    reveal_strlit("scroll-padding-block-end");
    reveal_with_fuel(seq_less_from, 22);
}

proof fn lemma_lookup_adjacent_649()
    ensures
        name_less(lookup_name(649), lookup_name(650)),
{
    reveal_strlit("scroll-padding-block-end");
    reveal_strlit("scroll-padding-block-start");
    reveal_with_fuel(seq_less_from, 23);
}

proof fn lemma_lookup_adjacent_650()
    ensures
        name_less(lookup_name(650), lookup_name(651)),
{
    reveal_strlit("scroll-padding-block-start");
    reveal_strlit("scroll-padding-bottom");
    reveal_with_fuel(seq_less_from, 18);
}

proof fn lemma_lookup_adjacent_651()
    ensures
        name_less(lookup_name(651), lookup_name(652)),
{
    reveal_strlit("scroll-padding-bottom");
    reveal_strlit("scroll-padding-inline");
    reveal_with_fuel(seq_less_from, 17);
}

proof fn lemma_lookup_adjacent_652()
    ensures
        name_less(lookup_name(652), lookup_name(653)),
{
    reveal_strlit("scroll-padding-inline");
    reveal_strlit("scroll-padding-inline-end");
    reveal_with_fuel(seq_less_from, 23);
}

proof fn lemma_lookup_adjacent_653()
    ensures
        name_less(lookup_name(653), lookup_name(654)),
{
    reveal_strlit("scroll-padding-inline-end");
    reveal_strlit("scroll-padding-inline-start");
    reveal_with_fuel(seq_less_from, 24);
}

proof fn lemma_lookup_adjacent_654()
    ensures
        name_less(lookup_name(654), lookup_name(655)),
{
    reveal_strlit("scroll-padding-inline-start");
    reveal_strlit("scroll-padding-left");
    reveal_with_fuel(seq_less_from, 17);
}

proof fn lemma_lookup_adjacent_655()
    ensures
        name_less(lookup_name(655), lookup_name(656)),
{
    reveal_strlit("scroll-padding-left");
    reveal_strlit("scroll-padding-right");
    reveal_with_fuel(seq_less_from, 17);
}

proof fn lemma_lookup_adjacent_656()
    ensures
        name_less(lookup_name(656), lookup_name(657)),
{
    reveal_strlit("scroll-padding-right");
    reveal_strlit("scroll-padding-top");
    reveal_with_fuel(seq_less_from, 17);
}

proof fn lemma_lookup_adjacent_657()
    ensures
        name_less(lookup_name(657), lookup_name(658)),
{
    reveal_strlit("scroll-padding-top");
    reveal_strlit("scroll-snap-align");
    reveal_with_fuel(seq_less_from, 9);
}

proof fn lemma_lookup_adjacent_658()
    ensures
        name_less(lookup_name(658), lookup_name(659)),
{
    reveal_strlit("scroll-snap-align");
    reveal_strlit("scroll-snap-stop");
    reveal_with_fuel(seq_less_from, 14);
}

proof fn lemma_lookup_adjacent_659()
    ensures
        name_less(lookup_name(659), lookup_name(660)),
{
    reveal_strlit("scroll-snap-stop");
    reveal_strlit("scroll-snap-type");
    reveal_with_fuel(seq_less_from, 14);
}

proof fn lemma_lookup_adjacent_660()
    ensures
        name_less(lookup_name(660), lookup_name(661)),
{
    reveal_strlit("scroll-snap-type");
    reveal_strlit("scroll-target-group");
    reveal_with_fuel(seq_less_from, 9);
}

proof fn lemma_lookup_adjacent_661()
    ensures
        name_less(lookup_name(661), lookup_name(662)),
{
    reveal_strlit("scroll-target-group");
    reveal_strlit("scroll-timeline");
    reveal_with_fuel(seq_less_from, 10);
}

proof fn lemma_lookup_adjacent_662()
    ensures
        name_less(lookup_name(662), lookup_name(663)),
{
    reveal_strlit("scroll-timeline");
    reveal_strlit("scroll-timeline-axis");
    reveal_with_fuel(seq_less_from, 17);
}

proof fn lemma_lookup_adjacent_663()
    ensures
        name_less(lookup_name(663), lookup_name(664)),
{
    reveal_strlit("scroll-timeline-axis");
    reveal_strlit("scroll-timeline-name");
    reveal_with_fuel(seq_less_from, 18);
}

proof fn lemma_lookup_adjacent_664()
    ensures
        name_less(lookup_name(664), lookup_name(665)),
{
    reveal_strlit("scroll-timeline-name");
    reveal_strlit("scrollbar-color");
    reveal_with_fuel(seq_less_from, 8);
}

proof fn lemma_lookup_adjacent_665()
    ensures
        name_less(lookup_name(665), lookup_name(666)),
{
    reveal_strlit("scrollbar-color");
    reveal_strlit("scrollbar-gutter");
    reveal_with_fuel(seq_less_from, 12);
}

proof fn lemma_lookup_adjacent_666()
    ensures
        name_less(lookup_name(666), lookup_name(667)),
{
    reveal_strlit("scrollbar-gutter");
    reveal_strlit("scrollbar-inset");
    reveal_with_fuel(seq_less_from, 12);
}

proof fn lemma_lookup_adjacent_667()
    ensures
        name_less(lookup_name(667), lookup_name(668)),
{
    reveal_strlit("scrollbar-inset");
    reveal_strlit("scrollbar-min-thumb-size");
    reveal_with_fuel(seq_less_from, 12);
}

proof fn lemma_lookup_adjacent_668()
    ensures
        name_less(lookup_name(668), lookup_name(669)),
{
    reveal_strlit("scrollbar-min-thumb-size");
    reveal_strlit("scrollbar-mode");
    reveal_with_fuel(seq_less_from, 13);
}

proof fn lemma_lookup_adjacent_669()
    ensures
        name_less(lookup_name(669), lookup_name(670)),
{
    reveal_strlit("scrollbar-mode");
    reveal_strlit("scrollbar-width");
    reveal_with_fuel(seq_less_from, 12);
}

proof fn lemma_lookup_adjacent_670()
    ensures
        name_less(lookup_name(670), lookup_name(671)),
{
    reveal_strlit("scrollbar-width");
    reveal_strlit("shape-image-threshold");
    reveal_with_fuel(seq_less_from, 3);
}

proof fn lemma_lookup_adjacent_671()
    ensures
        name_less(lookup_name(671), lookup_name(672)),
{
    reveal_strlit("shape-image-threshold");
    reveal_strlit("shape-inside");
    reveal_with_fuel(seq_less_from, 9);
}

proof fn lemma_lookup_adjacent_672()
    ensures
        name_less(lookup_name(672), lookup_name(673)),
{
    reveal_strlit("shape-inside");
    reveal_strlit("shape-margin");
    reveal_with_fuel(seq_less_from, 8);
}

proof fn lemma_lookup_adjacent_673()
    ensures
        name_less(lookup_name(673), lookup_name(674)),
{
    reveal_strlit("shape-margin");
    reveal_strlit("shape-outside");
    reveal_with_fuel(seq_less_from, 8);
}

proof fn lemma_lookup_adjacent_674()
    ensures
        name_less(lookup_name(674), lookup_name(675)),
{
    reveal_strlit("shape-outside");
    reveal_strlit("shape-padding");
    reveal_with_fuel(seq_less_from, 8);
}

proof fn lemma_lookup_adjacent_675()
    ensures
        name_less(lookup_name(675), lookup_name(676)),
{
    reveal_strlit("shape-padding");
    reveal_strlit("shape-rendering");
    reveal_with_fuel(seq_less_from, 8);
}

proof fn lemma_lookup_adjacent_676()
    ensures
        name_less(lookup_name(676), lookup_name(677)),
{
    reveal_strlit("shape-rendering");
    reveal_strlit("slider-orientation");
    reveal_with_fuel(seq_less_from, 3);
}

proof fn lemma_lookup_adjacent_677()
    ensures
        name_less(lookup_name(677), lookup_name(678)),
{
    reveal_strlit("slider-orientation");
    reveal_strlit("spatial-navigation-action");
    reveal_with_fuel(seq_less_from, 3);
}

proof fn lemma_lookup_adjacent_678()
    ensures
        name_less(lookup_name(678), lookup_name(679)),
{
    reveal_strlit("spatial-navigation-action");
    reveal_strlit("spatial-navigation-contain");
    reveal_with_fuel(seq_less_from, 21);
}

proof fn lemma_lookup_adjacent_679()
    ensures
        name_less(lookup_name(679), lookup_name(680)),
{
    reveal_strlit("spatial-navigation-contain");
    reveal_strlit("spatial-navigation-function");
    reveal_with_fuel(seq_less_from, 21);
}

proof fn lemma_lookup_adjacent_680()
    ensures
        name_less(lookup_name(680), lookup_name(681)),
{
    reveal_strlit("spatial-navigation-function");
    reveal_strlit("speak");
    reveal_with_fuel(seq_less_from, 4);
}

proof fn lemma_lookup_adjacent_681()
    ensures
        name_less(lookup_name(681), lookup_name(682)),
{
    reveal_strlit("speak");
    reveal_strlit("speak-as");
    reveal_with_fuel(seq_less_from, 7);
}

proof fn lemma_lookup_adjacent_682()
    ensures
        name_less(lookup_name(682), lookup_name(683)),
{
    reveal_strlit("speak-as");
    reveal_strlit("stop-color");
    reveal_with_fuel(seq_less_from, 3);
}

proof fn lemma_lookup_adjacent_683()
    ensures
        name_less(lookup_name(683), lookup_name(684)),
{
    reveal_strlit("stop-color");
    reveal_strlit("stop-opacity");
    reveal_with_fuel(seq_less_from, 7);
}

proof fn lemma_lookup_adjacent_684()
    ensures
        name_less(lookup_name(684), lookup_name(685)),
{
    reveal_strlit("stop-opacity");
    reveal_strlit("string-set");
    reveal_with_fuel(seq_less_from, 4);
}

proof fn lemma_lookup_adjacent_685()
    ensures
        name_less(lookup_name(685), lookup_name(686)),
{
    reveal_strlit("string-set");
    reveal_strlit("stroke");
    reveal_with_fuel(seq_less_from, 5);
}

proof fn lemma_lookup_adjacent_686()
    ensures
        name_less(lookup_name(686), lookup_name(687)),
{
    reveal_strlit("stroke");
    reveal_strlit("stroke-align");
    reveal_with_fuel(seq_less_from, 8);
}

proof fn lemma_lookup_adjacent_687()
    ensures
        name_less(lookup_name(687), lookup_name(688)),
{
    reveal_strlit("stroke-align");
    reveal_strlit("stroke-alignment");
    reveal_with_fuel(seq_less_from, 14);
}

proof fn lemma_lookup_adjacent_688()
    ensures
        name_less(lookup_name(688), lookup_name(689)),
{
    reveal_strlit("stroke-alignment");
    reveal_strlit("stroke-break");
    reveal_with_fuel(seq_less_from, 9);
}

proof fn lemma_lookup_adjacent_689()
    ensures
        name_less(lookup_name(689), lookup_name(690)),
{
    reveal_strlit("stroke-break");
    reveal_strlit("stroke-color");
    reveal_with_fuel(seq_less_from, 9);
}

proof fn lemma_lookup_adjacent_690()
    ensures
        name_less(lookup_name(690), lookup_name(691)),
{
    reveal_strlit("stroke-color");
    reveal_strlit("stroke-dash-corner");
    reveal_with_fuel(seq_less_from, 9);
}

proof fn lemma_lookup_adjacent_691()
    ensures
        name_less(lookup_name(691), lookup_name(692)),
{
    reveal_strlit("stroke-dash-corner");
    reveal_strlit("stroke-dash-justify");
    reveal_with_fuel(seq_less_from, 14);
}

proof fn lemma_lookup_adjacent_692()
    ensures
        name_less(lookup_name(692), lookup_name(693)),
{
    reveal_strlit("stroke-dash-justify");
    reveal_strlit("stroke-dashadjust");
    reveal_with_fuel(seq_less_from, 13);
}

proof fn lemma_lookup_adjacent_693()
    ensures
        name_less(lookup_name(693), lookup_name(694)),
{
    reveal_strlit("stroke-dashadjust");
    reveal_strlit("stroke-dasharray");
    reveal_with_fuel(seq_less_from, 14);
}

proof fn lemma_lookup_adjacent_694()
    ensures
        name_less(lookup_name(694), lookup_name(695)),
{
    reveal_strlit("stroke-dasharray");
    reveal_strlit("stroke-dashcorner");
    reveal_with_fuel(seq_less_from, 13);
}

proof fn lemma_lookup_adjacent_695()
    ensures
        name_less(lookup_name(695), lookup_name(696)),
{
    reveal_strlit("stroke-dashcorner");
    reveal_strlit("stroke-dashoffset");
    reveal_with_fuel(seq_less_from, 13);
}

proof fn lemma_lookup_adjacent_696()
    ensures
        name_less(lookup_name(696), lookup_name(697)),
{
    reveal_strlit("stroke-dashoffset");
    reveal_strlit("stroke-image");
    reveal_with_fuel(seq_less_from, 9);
}

proof fn lemma_lookup_adjacent_697()
    ensures
        name_less(lookup_name(697), lookup_name(698)),
{
    reveal_strlit("stroke-image");
    reveal_strlit("stroke-linecap");
    reveal_with_fuel(seq_less_from, 9);
}

proof fn lemma_lookup_adjacent_698()
    ensures
        name_less(lookup_name(698), lookup_name(699)),
{
    reveal_strlit("stroke-linecap");
    reveal_strlit("stroke-linejoin");
    reveal_with_fuel(seq_less_from, 13);
}

proof fn lemma_lookup_adjacent_699()
    ensures
        name_less(lookup_name(699), lookup_name(700)),
{
    reveal_strlit("stroke-linejoin");
    reveal_strlit("stroke-miterlimit");
    reveal_with_fuel(seq_less_from, 9);
}

proof fn lemma_lookup_adjacent_700()
    ensures
        name_less(lookup_name(700), lookup_name(701)),
{
    reveal_strlit("stroke-miterlimit");
    reveal_strlit("stroke-opacity");
    reveal_with_fuel(seq_less_from, 9);
}

proof fn lemma_lookup_adjacent_701()
    ensures
        name_less(lookup_name(701), lookup_name(702)),
{
    reveal_strlit("stroke-opacity");
    reveal_strlit("stroke-origin");
    reveal_with_fuel(seq_less_from, 10);
}

proof fn lemma_lookup_adjacent_702()
    ensures
        name_less(lookup_name(702), lookup_name(703)),
{
    reveal_strlit("stroke-origin");
    reveal_strlit("stroke-position");
    reveal_with_fuel(seq_less_from, 9);
}

proof fn lemma_lookup_adjacent_703()
    ensures
        name_less(lookup_name(703), lookup_name(704)),
{
    reveal_strlit("stroke-position");
    reveal_strlit("stroke-repeat");
    reveal_with_fuel(seq_less_from, 9);
}

proof fn lemma_lookup_adjacent_704()
    ensures
        name_less(lookup_name(704), lookup_name(705)),
{
    reveal_strlit("stroke-repeat");
    reveal_strlit("stroke-size");
    reveal_with_fuel(seq_less_from, 9);
}

proof fn lemma_lookup_adjacent_705()
    ensures
        name_less(lookup_name(705), lookup_name(706)),
{
    reveal_strlit("stroke-size");
    reveal_strlit("stroke-width");
    reveal_with_fuel(seq_less_from, 9);
}

proof fn lemma_lookup_adjacent_706()
    ensures
        name_less(lookup_name(706), lookup_name(707)),
{
    reveal_strlit("stroke-width");
    reveal_strlit("tab-size");
    reveal_with_fuel(seq_less_from, 2);
}

proof fn lemma_lookup_adjacent_707()
    ensures
        name_less(lookup_name(707), lookup_name(708)),
{
    reveal_strlit("tab-size");
    reveal_strlit("table-layout");
    reveal_with_fuel(seq_less_from, 5);
}

proof fn lemma_lookup_adjacent_708()
    ensures
        name_less(lookup_name(708), lookup_name(709)),
{
    reveal_strlit("table-layout");
    reveal_strlit("text-align");
    reveal_with_fuel(seq_less_from, 3);
}

proof fn lemma_lookup_adjacent_709()
    ensures
        name_less(lookup_name(709), lookup_name(710)),
{
    reveal_strlit("text-align");
    reveal_strlit("text-align-all");
    reveal_with_fuel(seq_less_from, 12);
}

proof fn lemma_lookup_adjacent_710()
    ensures
        name_less(lookup_name(710), lookup_name(711)),
{
    reveal_strlit("text-align-all");
    reveal_strlit("text-align-last");
    reveal_with_fuel(seq_less_from, 13);
}

proof fn lemma_lookup_adjacent_711()
    ensures
        name_less(lookup_name(711), lookup_name(712)),
{
    reveal_strlit("text-align-last");
    reveal_strlit("text-anchor");
    reveal_with_fuel(seq_less_from, 8);
}

proof fn lemma_lookup_adjacent_712()
    ensures
        name_less(lookup_name(712), lookup_name(713)),
{
    reveal_strlit("text-anchor");
    reveal_strlit("text-autospace");
    reveal_with_fuel(seq_less_from, 8);
}

proof fn lemma_lookup_adjacent_713()
    ensures
        name_less(lookup_name(713), lookup_name(714)),
{
    reveal_strlit("text-autospace");
    reveal_strlit("text-box");
    reveal_with_fuel(seq_less_from, 7);
}

proof fn lemma_lookup_adjacent_714()
    ensures
        name_less(lookup_name(714), lookup_name(715)),
{
    reveal_strlit("text-box");
    reveal_strlit("text-box-edge");
    reveal_with_fuel(seq_less_from, 10);
}

proof fn lemma_lookup_adjacent_715()
    ensures
        name_less(lookup_name(715), lookup_name(716)),
{
    reveal_strlit("text-box-edge");
    reveal_strlit("text-box-trim");
    reveal_with_fuel(seq_less_from, 11);
}

proof fn lemma_lookup_adjacent_716()
    ensures
        name_less(lookup_name(716), lookup_name(717)),
{
    reveal_strlit("text-box-trim");
    reveal_strlit("text-combine-upright");
    reveal_with_fuel(seq_less_from, 7);
}

proof fn lemma_lookup_adjacent_717()
    ensures
        name_less(lookup_name(717), lookup_name(718)),
{
    reveal_strlit("text-combine-upright");
    reveal_strlit("text-decoration");
    reveal_with_fuel(seq_less_from, 7);
}

proof fn lemma_lookup_adjacent_718()
    ensures
        name_less(lookup_name(718), lookup_name(719)),
{
    reveal_strlit("text-decoration");
    reveal_strlit("text-decoration-color");
    reveal_with_fuel(seq_less_from, 17);
}

proof fn lemma_lookup_adjacent_719()
    ensures
        name_less(lookup_name(719), lookup_name(720)),
{
    reveal_strlit("text-decoration-color");
    reveal_strlit("text-decoration-inset");
    reveal_with_fuel(seq_less_from, 18);
}

proof fn lemma_lookup_adjacent_720()
    ensures
        name_less(lookup_name(720), lookup_name(721)),
{
    reveal_strlit("text-decoration-inset");
    reveal_strlit("text-decoration-line");
    reveal_with_fuel(seq_less_from, 18);
}

proof fn lemma_lookup_adjacent_721()
    ensures
        name_less(lookup_name(721), lookup_name(722)),
{
    reveal_strlit("text-decoration-line");
    reveal_strlit("text-decoration-skip");
    reveal_with_fuel(seq_less_from, 18);
}

proof fn lemma_lookup_adjacent_722()
    ensures
        name_less(lookup_name(722), lookup_name(723)),
{
    reveal_strlit("text-decoration-skip");
    reveal_strlit("text-decoration-skip-box");
    reveal_with_fuel(seq_less_from, 22);
}

proof fn lemma_lookup_adjacent_723()
    ensures
        name_less(lookup_name(723), lookup_name(724)),
{
    reveal_strlit("text-decoration-skip-box");
    reveal_strlit("text-decoration-skip-ink");
    reveal_with_fuel(seq_less_from, 23);
}

proof fn lemma_lookup_adjacent_724()
    ensures
        name_less(lookup_name(724), lookup_name(725)),
{
    reveal_strlit("text-decoration-skip-ink");
    reveal_strlit("text-decoration-skip-self");
    reveal_with_fuel(seq_less_from, 23);
}

proof fn lemma_lookup_adjacent_725()
    ensures
        name_less(lookup_name(725), lookup_name(726)),
{
    reveal_strlit("text-decoration-skip-self");
    reveal_strlit("text-decoration-skip-spaces");
    reveal_with_fuel(seq_less_from, 24);
}

proof fn lemma_lookup_adjacent_726()
    ensures
        name_less(lookup_name(726), lookup_name(727)),
{
    reveal_strlit("text-decoration-skip-spaces");
    reveal_strlit("text-decoration-style");
    reveal_with_fuel(seq_less_from, 19);
}

proof fn lemma_lookup_adjacent_727()
    ensures
        name_less(lookup_name(727), lookup_name(728)),
{
    reveal_strlit("text-decoration-style");
    reveal_strlit("text-decoration-thickness");
    reveal_with_fuel(seq_less_from, 18);
}

proof fn lemma_lookup_adjacent_728()
    ensures
        name_less(lookup_name(728), lookup_name(729)),
{
    reveal_strlit("text-decoration-thickness");
    reveal_strlit("text-emphasis");
    reveal_with_fuel(seq_less_from, 7);
}

proof fn lemma_lookup_adjacent_729()
    ensures
        name_less(lookup_name(729), lookup_name(730)),
{
    reveal_strlit("text-emphasis");
    reveal_strlit("text-emphasis-color");
    reveal_with_fuel(seq_less_from, 15);
}

proof fn lemma_lookup_adjacent_730()
    ensures
        name_less(lookup_name(730), lookup_name(731)),
{
    reveal_strlit("text-emphasis-color");
    reveal_strlit("text-emphasis-position");
    reveal_with_fuel(seq_less_from, 16);
}

proof fn lemma_lookup_adjacent_731()
    ensures
        name_less(lookup_name(731), lookup_name(732)),
{
    reveal_strlit("text-emphasis-position");
    reveal_strlit("text-emphasis-skip");
    reveal_with_fuel(seq_less_from, 16);
}

proof fn lemma_lookup_adjacent_732()
    ensures
        name_less(lookup_name(732), lookup_name(733)),
{
    reveal_strlit("text-emphasis-skip");
    reveal_strlit("text-emphasis-style");
    reveal_with_fuel(seq_less_from, 17);
}

proof fn lemma_lookup_adjacent_733()
    ensures
        name_less(lookup_name(733), lookup_name(734)),
{
    reveal_strlit("text-emphasis-style");
    reveal_strlit("text-fit");
    reveal_with_fuel(seq_less_from, 7);
}

proof fn lemma_lookup_adjacent_734()
    ensures
        name_less(lookup_name(734), lookup_name(735)),
{
    reveal_strlit("text-fit");
    reveal_strlit("text-group-align");
    reveal_with_fuel(seq_less_from, 7);
}

proof fn lemma_lookup_adjacent_735()
    ensures
        name_less(lookup_name(735), lookup_name(736)),
{
    reveal_strlit("text-group-align");
    reveal_strlit("text-indent");
    reveal_with_fuel(seq_less_from, 7);
}

proof fn lemma_lookup_adjacent_736()
    ensures
        name_less(lookup_name(736), lookup_name(737)),
{
    reveal_strlit("text-indent");
    reveal_strlit("text-justify");
    reveal_with_fuel(seq_less_from, 7);
}

proof fn lemma_lookup_adjacent_737()
    ensures
        name_less(lookup_name(737), lookup_name(738)),
{
    reveal_strlit("text-justify");
    reveal_strlit("text-orientation");
    reveal_with_fuel(seq_less_from, 7);
}

proof fn lemma_lookup_adjacent_738()
    ensures
        name_less(lookup_name(738), lookup_name(739)),
{
    reveal_strlit("text-orientation");
    reveal_strlit("text-overflow");
    reveal_with_fuel(seq_less_from, 8);
}

proof fn lemma_lookup_adjacent_739()
    ensures
        name_less(lookup_name(739), lookup_name(740)),
{
    reveal_strlit("text-overflow");
    reveal_strlit("text-rendering");
    reveal_with_fuel(seq_less_from, 7);
}

proof fn lemma_lookup_adjacent_740()
    ensures
        name_less(lookup_name(740), lookup_name(741)),
{
    reveal_strlit("text-rendering");
    reveal_strlit("text-shadow");
    reveal_with_fuel(seq_less_from, 7);
}

proof fn lemma_lookup_adjacent_741()
    ensures
        name_less(lookup_name(741), lookup_name(742)),
{
    reveal_strlit("text-shadow");
    reveal_strlit("text-size-adjust");
    reveal_with_fuel(seq_less_from, 8);
}

proof fn lemma_lookup_adjacent_742()
    ensures
        name_less(lookup_name(742), lookup_name(743)),
{
    reveal_strlit("text-size-adjust");
    reveal_strlit("text-spacing");
    reveal_with_fuel(seq_less_from, 8);
}

proof fn lemma_lookup_adjacent_743()
    ensures
        name_less(lookup_name(743), lookup_name(744)),
{
    reveal_strlit("text-spacing");
    reveal_strlit("text-spacing-trim");
    reveal_with_fuel(seq_less_from, 14);
}

proof fn lemma_lookup_adjacent_744()
    ensures
        name_less(lookup_name(744), lookup_name(745)),
{
    reveal_strlit("text-spacing-trim");
    reveal_strlit("text-transform");
    reveal_with_fuel(seq_less_from, 7);
}

proof fn lemma_lookup_adjacent_745()
    ensures
        name_less(lookup_name(745), lookup_name(746)),
{
    reveal_strlit("text-transform");
    reveal_strlit("text-underline-offset");
    reveal_with_fuel(seq_less_from, 7);
}

proof fn lemma_lookup_adjacent_746()
    ensures
        name_less(lookup_name(746), lookup_name(747)),
{
    reveal_strlit("text-underline-offset");
    reveal_strlit("text-underline-position");
    reveal_with_fuel(seq_less_from, 17);
}

proof fn lemma_lookup_adjacent_747()
    ensures
        name_less(lookup_name(747), lookup_name(748)),
{
    reveal_strlit("text-underline-position");
    reveal_strlit("text-wrap");
    reveal_with_fuel(seq_less_from, 7);
}

proof fn lemma_lookup_adjacent_748()
    ensures
        name_less(lookup_name(748), lookup_name(749)),
{
    reveal_strlit("text-wrap");
    reveal_strlit("text-wrap-mode");
    reveal_with_fuel(seq_less_from, 11);
}

proof fn lemma_lookup_adjacent_749()
    ensures
        name_less(lookup_name(749), lookup_name(750)),
{
    reveal_strlit("text-wrap-mode");
    reveal_strlit("text-wrap-style");
    reveal_with_fuel(seq_less_from, 12);
}

proof fn lemma_lookup_adjacent_750()
    ensures
        name_less(lookup_name(750), lookup_name(751)),
{
    reveal_strlit("text-wrap-style");
    reveal_strlit("timeline-scope");
    reveal_with_fuel(seq_less_from, 3);
}

proof fn lemma_lookup_adjacent_751()
    ensures
        name_less(lookup_name(751), lookup_name(752)),
{
    reveal_strlit("timeline-scope");
    reveal_strlit("timeline-trigger");
    reveal_with_fuel(seq_less_from, 11);
}

proof fn lemma_lookup_adjacent_752()
    ensures
        name_less(lookup_name(752), lookup_name(753)),
{
    reveal_strlit("timeline-trigger");
    reveal_strlit("timeline-trigger-activation-range");
    reveal_with_fuel(seq_less_from, 18);
}

proof fn lemma_lookup_adjacent_753()
    ensures
        name_less(lookup_name(753), lookup_name(754)),
{
    reveal_strlit("timeline-trigger-activation-range");
    reveal_strlit("timeline-trigger-activation-range-end");
    reveal_with_fuel(seq_less_from, 35);
}

proof fn lemma_lookup_adjacent_754()
    ensures
        name_less(lookup_name(754), lookup_name(755)),
{
    reveal_strlit("timeline-trigger-activation-range-end");
    reveal_strlit("timeline-trigger-activation-range-start");
    reveal_with_fuel(seq_less_from, 36);
}

proof fn lemma_lookup_adjacent_755()
    ensures
        name_less(lookup_name(755), lookup_name(756)),
{
    reveal_strlit("timeline-trigger-activation-range-start");
    reveal_strlit("timeline-trigger-active-range");
    reveal_with_fuel(seq_less_from, 24);
}

proof fn lemma_lookup_adjacent_756()
    ensures
        name_less(lookup_name(756), lookup_name(757)),
{
    reveal_strlit("timeline-trigger-active-range");
    reveal_strlit("timeline-trigger-active-range-end");
    reveal_with_fuel(seq_less_from, 31);
}

proof fn lemma_lookup_adjacent_757()
    ensures
        name_less(lookup_name(757), lookup_name(758)),
{
    reveal_strlit("timeline-trigger-active-range-end");
    reveal_strlit("timeline-trigger-active-range-start");
    reveal_with_fuel(seq_less_from, 32);
}

proof fn lemma_lookup_adjacent_758()
    ensures
        name_less(lookup_name(758), lookup_name(759)),
{
    reveal_strlit("timeline-trigger-active-range-start");
    reveal_strlit("timeline-trigger-name");
    reveal_with_fuel(seq_less_from, 19);
}

proof fn lemma_lookup_adjacent_759()
    ensures
        name_less(lookup_name(759), lookup_name(760)),
{
    reveal_strlit("timeline-trigger-name");
    reveal_strlit("timeline-trigger-source");
    reveal_with_fuel(seq_less_from, 19);
}

proof fn lemma_lookup_adjacent_760()
    ensures
        name_less(lookup_name(760), lookup_name(761)),
{
    reveal_strlit("timeline-trigger-source");
    reveal_strlit("top");
    reveal_with_fuel(seq_less_from, 3);
}

proof fn lemma_lookup_adjacent_761()
    ensures
        name_less(lookup_name(761), lookup_name(762)),
{
    reveal_strlit("top");
    reveal_strlit("touch-action");
    reveal_with_fuel(seq_less_from, 4);
}

proof fn lemma_lookup_adjacent_762()
    ensures
        name_less(lookup_name(762), lookup_name(763)),
{
    reveal_strlit("touch-action");
    reveal_strlit("transform");
    reveal_with_fuel(seq_less_from, 3);
}

proof fn lemma_lookup_adjacent_763()
    ensures
        name_less(lookup_name(763), lookup_name(764)),
{
    reveal_strlit("transform");
    reveal_strlit("transform-box");
    reveal_with_fuel(seq_less_from, 11);
}

proof fn lemma_lookup_adjacent_764()
    ensures
        name_less(lookup_name(764), lookup_name(765)),
{
    reveal_strlit("transform-box");
    reveal_strlit("transform-origin");
    reveal_with_fuel(seq_less_from, 12);
}

proof fn lemma_lookup_adjacent_765()
    ensures
        name_less(lookup_name(765), lookup_name(766)),
{
    reveal_strlit("transform-origin");
    reveal_strlit("transform-style");
    reveal_with_fuel(seq_less_from, 12);
}

proof fn lemma_lookup_adjacent_766()
    ensures
        name_less(lookup_name(766), lookup_name(767)),
{
    reveal_strlit("transform-style");
    reveal_strlit("transition");
    reveal_with_fuel(seq_less_from, 7);
}

proof fn lemma_lookup_adjacent_767()
    ensures
        name_less(lookup_name(767), lookup_name(768)),
{
    reveal_strlit("transition");
    reveal_strlit("transition-behavior");
    reveal_with_fuel(seq_less_from, 12);
}

proof fn lemma_lookup_adjacent_768()
    ensures
        name_less(lookup_name(768), lookup_name(769)),
{
    reveal_strlit("transition-behavior");
    reveal_strlit("transition-delay");
    reveal_with_fuel(seq_less_from, 13);
}

proof fn lemma_lookup_adjacent_769()
    ensures
        name_less(lookup_name(769), lookup_name(770)),
{
    reveal_strlit("transition-delay");
    reveal_strlit("transition-duration");
    reveal_with_fuel(seq_less_from, 14);
}

proof fn lemma_lookup_adjacent_770()
    ensures
        name_less(lookup_name(770), lookup_name(771)),
{
    reveal_strlit("transition-duration");
    reveal_strlit("transition-property");
    reveal_with_fuel(seq_less_from, 13);
}

proof fn lemma_lookup_adjacent_771()
    ensures
        name_less(lookup_name(771), lookup_name(772)),
{
    reveal_strlit("transition-property");
    reveal_strlit("transition-timing-function");
    reveal_with_fuel(seq_less_from, 13);
}

proof fn lemma_lookup_adjacent_772()
    ensures
        name_less(lookup_name(772), lookup_name(773)),
{
    reveal_strlit("transition-timing-function");
    reveal_strlit("translate");
    reveal_with_fuel(seq_less_from, 7);
}

proof fn lemma_lookup_adjacent_773()
    ensures
        name_less(lookup_name(773), lookup_name(774)),
{
    reveal_strlit("translate");
    reveal_strlit("trigger-scope");
    reveal_with_fuel(seq_less_from, 4);
}

proof fn lemma_lookup_adjacent_774()
    ensures
        name_less(lookup_name(774), lookup_name(775)),
{
    reveal_strlit("trigger-scope");
    reveal_strlit("unicode-bidi");
    reveal_with_fuel(seq_less_from, 2);
}

proof fn lemma_lookup_adjacent_775()
    ensures
        name_less(lookup_name(775), lookup_name(776)),
{
    reveal_strlit("unicode-bidi");
    reveal_strlit("user-select");
    reveal_with_fuel(seq_less_from, 3);
}

proof fn lemma_lookup_adjacent_776()
    ensures
        name_less(lookup_name(776), lookup_name(777)),
{
    reveal_strlit("user-select");
    reveal_strlit("vector-effect");
    reveal_with_fuel(seq_less_from, 2);
}

proof fn lemma_lookup_adjacent_777()
    ensures
        name_less(lookup_name(777), lookup_name(778)),
{
    reveal_strlit("vector-effect");
    reveal_strlit("vertical-align");
    reveal_with_fuel(seq_less_from, 4);
}

proof fn lemma_lookup_adjacent_778()
    ensures
        name_less(lookup_name(778), lookup_name(779)),
{
    reveal_strlit("vertical-align");
    reveal_strlit("view-timeline");
    reveal_with_fuel(seq_less_from, 3);
}

proof fn lemma_lookup_adjacent_779()
    ensures
        name_less(lookup_name(779), lookup_name(780)),
{
    reveal_strlit("view-timeline");
    reveal_strlit("view-timeline-axis");
    reveal_with_fuel(seq_less_from, 15);
}

proof fn lemma_lookup_adjacent_780()
    ensures
        name_less(lookup_name(780), lookup_name(781)),
{
    reveal_strlit("view-timeline-axis");
    reveal_strlit("view-timeline-inset");
    reveal_with_fuel(seq_less_from, 16);
}

proof fn lemma_lookup_adjacent_781()
    ensures
        name_less(lookup_name(781), lookup_name(782)),
{
    reveal_strlit("view-timeline-inset");
    reveal_strlit("view-timeline-name");
    reveal_with_fuel(seq_less_from, 16);
}

proof fn lemma_lookup_adjacent_782()
    ensures
        name_less(lookup_name(782), lookup_name(783)),
{
    reveal_strlit("view-timeline-name");
    reveal_strlit("view-transition-class");
    reveal_with_fuel(seq_less_from, 8);
}

proof fn lemma_lookup_adjacent_783()
    ensures
        name_less(lookup_name(783), lookup_name(784)),
{
    reveal_strlit("view-transition-class");
    reveal_strlit("view-transition-group");
    reveal_with_fuel(seq_less_from, 18);
}

proof fn lemma_lookup_adjacent_784()
    ensures
        name_less(lookup_name(784), lookup_name(785)),
{
    reveal_strlit("view-transition-group");
    reveal_strlit("view-transition-name");
    reveal_with_fuel(seq_less_from, 18);
}

proof fn lemma_lookup_adjacent_785()
    ensures
        name_less(lookup_name(785), lookup_name(786)),
{
    reveal_strlit("view-transition-name");
    reveal_strlit("view-transition-scope");
    reveal_with_fuel(seq_less_from, 18);
}

proof fn lemma_lookup_adjacent_786()
    ensures
        name_less(lookup_name(786), lookup_name(787)),
{
    reveal_strlit("view-transition-scope");
    reveal_strlit("visibility");
    reveal_with_fuel(seq_less_from, 4);
}

proof fn lemma_lookup_adjacent_787()
    ensures
        name_less(lookup_name(787), lookup_name(788)),
{
    reveal_strlit("visibility");
    reveal_strlit("voice-balance");
    reveal_with_fuel(seq_less_from, 3);
}

proof fn lemma_lookup_adjacent_788()
    ensures
        name_less(lookup_name(788), lookup_name(789)),
{
    reveal_strlit("voice-balance");
    reveal_strlit("voice-duration");
    reveal_with_fuel(seq_less_from, 8);
}

proof fn lemma_lookup_adjacent_789()
    ensures
        name_less(lookup_name(789), lookup_name(790)),
{
    reveal_strlit("voice-duration");
    reveal_strlit("voice-family");
    reveal_with_fuel(seq_less_from, 8);
}

proof fn lemma_lookup_adjacent_790()
    ensures
        name_less(lookup_name(790), lookup_name(791)),
{
    reveal_strlit("voice-family");
    reveal_strlit("voice-pitch");
    reveal_with_fuel(seq_less_from, 8);
}

proof fn lemma_lookup_adjacent_791()
    ensures
        name_less(lookup_name(791), lookup_name(792)),
{
    reveal_strlit("voice-pitch");
    reveal_strlit("voice-range");
    reveal_with_fuel(seq_less_from, 8);
}

proof fn lemma_lookup_adjacent_792()
    ensures
        name_less(lookup_name(792), lookup_name(793)),
{
    reveal_strlit("voice-range");
    reveal_strlit("voice-rate");
    reveal_with_fuel(seq_less_from, 10);
}

proof fn lemma_lookup_adjacent_793()
    ensures
        name_less(lookup_name(793), lookup_name(794)),
{
    reveal_strlit("voice-rate");
    reveal_strlit("voice-stress");
    reveal_with_fuel(seq_less_from, 8);
}

proof fn lemma_lookup_adjacent_794()
    ensures
        name_less(lookup_name(794), lookup_name(795)),
{
    reveal_strlit("voice-stress");
    reveal_strlit("voice-volume");
    reveal_with_fuel(seq_less_from, 8);
}

proof fn lemma_lookup_adjacent_795()
    ensures
        name_less(lookup_name(795), lookup_name(796)),
{
    reveal_strlit("voice-volume");
    reveal_strlit("white-space");
    reveal_with_fuel(seq_less_from, 2);
}

proof fn lemma_lookup_adjacent_796()
    ensures
        name_less(lookup_name(796), lookup_name(797)),
{
    reveal_strlit("white-space");
    reveal_strlit("white-space-collapse");
    reveal_with_fuel(seq_less_from, 13);
}

proof fn lemma_lookup_adjacent_797()
    ensures
        name_less(lookup_name(797), lookup_name(798)),
{
    reveal_strlit("white-space-collapse");
    reveal_strlit("white-space-trim");
    reveal_with_fuel(seq_less_from, 14);
}

proof fn lemma_lookup_adjacent_798()
    ensures
        name_less(lookup_name(798), lookup_name(799)),
{
    reveal_strlit("white-space-trim");
    reveal_strlit("widows");
    reveal_with_fuel(seq_less_from, 3);
}

proof fn lemma_lookup_adjacent_799()
    ensures
        name_less(lookup_name(799), lookup_name(800)),
{
    reveal_strlit("widows");
    reveal_strlit("width");
    reveal_with_fuel(seq_less_from, 5);
}

proof fn lemma_lookup_adjacent_800()
    ensures
        name_less(lookup_name(800), lookup_name(801)),
{
    reveal_strlit("width");
    reveal_strlit("will-change");
    reveal_with_fuel(seq_less_from, 4);
}

proof fn lemma_lookup_adjacent_801()
    ensures
        name_less(lookup_name(801), lookup_name(802)),
{
    reveal_strlit("will-change");
    reveal_strlit("word-break");
    reveal_with_fuel(seq_less_from, 3);
}

proof fn lemma_lookup_adjacent_802()
    ensures
        name_less(lookup_name(802), lookup_name(803)),
{
    reveal_strlit("word-break");
    reveal_strlit("word-space-transform");
    reveal_with_fuel(seq_less_from, 7);
}

proof fn lemma_lookup_adjacent_803()
    ensures
        name_less(lookup_name(803), lookup_name(804)),
{
    reveal_strlit("word-space-transform");
    reveal_strlit("word-spacing");
    reveal_with_fuel(seq_less_from, 11);
}

proof fn lemma_lookup_adjacent_804()
    ensures
        name_less(lookup_name(804), lookup_name(805)),
{
    reveal_strlit("word-spacing");
    reveal_strlit("word-wrap");
    reveal_with_fuel(seq_less_from, 7);
}

proof fn lemma_lookup_adjacent_805()
    ensures
        name_less(lookup_name(805), lookup_name(806)),
{
    reveal_strlit("word-wrap");
    reveal_strlit("wrap-after");
    reveal_with_fuel(seq_less_from, 3);
}

proof fn lemma_lookup_adjacent_806()
    ensures
        name_less(lookup_name(806), lookup_name(807)),
{
    reveal_strlit("wrap-after");
    reveal_strlit("wrap-before");
    reveal_with_fuel(seq_less_from, 7);
}

proof fn lemma_lookup_adjacent_807()
    ensures
        name_less(lookup_name(807), lookup_name(808)),
{
    reveal_strlit("wrap-before");
    reveal_strlit("wrap-flow");
    reveal_with_fuel(seq_less_from, 7);
}

proof fn lemma_lookup_adjacent_808()
    ensures
        name_less(lookup_name(808), lookup_name(809)),
{
    reveal_strlit("wrap-flow");
    reveal_strlit("wrap-inside");
    reveal_with_fuel(seq_less_from, 7);
}

proof fn lemma_lookup_adjacent_809()
    ensures
        name_less(lookup_name(809), lookup_name(810)),
{
    reveal_strlit("wrap-inside");
    reveal_strlit("wrap-through");
    reveal_with_fuel(seq_less_from, 7);
}

proof fn lemma_lookup_adjacent_810()
    ensures
        name_less(lookup_name(810), lookup_name(811)),
{
    reveal_strlit("wrap-through");
    reveal_strlit("writing-mode");
    reveal_with_fuel(seq_less_from, 4);
}

proof fn lemma_lookup_adjacent_811()
    ensures
        name_less(lookup_name(811), lookup_name(812)),
{
    reveal_strlit("writing-mode");
    reveal_strlit("x");
    reveal_with_fuel(seq_less_from, 2);
}

proof fn lemma_lookup_adjacent_812()
    ensures
        name_less(lookup_name(812), lookup_name(813)),
{
    reveal_strlit("x");
    reveal_strlit("y");
    reveal_with_fuel(seq_less_from, 2);
}

proof fn lemma_lookup_adjacent_813()
    ensures
        name_less(lookup_name(813), lookup_name(814)),
{
    reveal_strlit("y");
    reveal_strlit("z-index");
    reveal_with_fuel(seq_less_from, 2);
}

proof fn lemma_lookup_adjacent_814()
    ensures
        name_less(lookup_name(814), lookup_name(815)),
{
    reveal_strlit("z-index");
    reveal_strlit("zoom");
    reveal_with_fuel(seq_less_from, 3);
}

proof fn lemma_lookup_sorted_upto_51()
    ensures
        lookup_sorted_upto(51),
{
    assert(lookup_sorted_upto(1));
    lemma_lookup_adjacent_0();
    assert(lookup_sorted_upto(2));
    lemma_lookup_adjacent_1();
    assert(lookup_sorted_upto(3));
    lemma_lookup_adjacent_2();
    assert(lookup_sorted_upto(4));
    lemma_lookup_adjacent_3();
    assert(lookup_sorted_upto(5));
    lemma_lookup_adjacent_4();
    assert(lookup_sorted_upto(6));
    lemma_lookup_adjacent_5();
    assert(lookup_sorted_upto(7));
    lemma_lookup_adjacent_6();
    assert(lookup_sorted_upto(8));
    lemma_lookup_adjacent_7();
    assert(lookup_sorted_upto(9));
    lemma_lookup_adjacent_8();
    assert(lookup_sorted_upto(10));
    lemma_lookup_adjacent_9();
    assert(lookup_sorted_upto(11));
    lemma_lookup_adjacent_10();
    assert(lookup_sorted_upto(12));
    lemma_lookup_adjacent_11();
    assert(lookup_sorted_upto(13));
    lemma_lookup_adjacent_12();
    assert(lookup_sorted_upto(14));
    lemma_lookup_adjacent_13();
    assert(lookup_sorted_upto(15));
    lemma_lookup_adjacent_14();
    assert(lookup_sorted_upto(16));
    lemma_lookup_adjacent_15();
    assert(lookup_sorted_upto(17));
    lemma_lookup_adjacent_16();
    assert(lookup_sorted_upto(18));
    lemma_lookup_adjacent_17();
    assert(lookup_sorted_upto(19));
    lemma_lookup_adjacent_18();
    assert(lookup_sorted_upto(20));
    lemma_lookup_adjacent_19();
    assert(lookup_sorted_upto(21));
    lemma_lookup_adjacent_20();
    assert(lookup_sorted_upto(22));
    lemma_lookup_adjacent_21();
    assert(lookup_sorted_upto(23));
    lemma_lookup_adjacent_22();
    assert(lookup_sorted_upto(24));
    lemma_lookup_adjacent_23();
    assert(lookup_sorted_upto(25));
    lemma_lookup_adjacent_24();
    assert(lookup_sorted_upto(26));
    lemma_lookup_adjacent_25();
    assert(lookup_sorted_upto(27));
    lemma_lookup_adjacent_26();
    assert(lookup_sorted_upto(28));
    lemma_lookup_adjacent_27();
    assert(lookup_sorted_upto(29));
    lemma_lookup_adjacent_28();
    assert(lookup_sorted_upto(30));
    lemma_lookup_adjacent_29();
    assert(lookup_sorted_upto(31));
    lemma_lookup_adjacent_30();
    assert(lookup_sorted_upto(32));
    lemma_lookup_adjacent_31();
    assert(lookup_sorted_upto(33));
    lemma_lookup_adjacent_32();
    assert(lookup_sorted_upto(34));
    lemma_lookup_adjacent_33();
    assert(lookup_sorted_upto(35));
    lemma_lookup_adjacent_34();
    assert(lookup_sorted_upto(36));
    lemma_lookup_adjacent_35();
    assert(lookup_sorted_upto(37));
    lemma_lookup_adjacent_36();
    assert(lookup_sorted_upto(38));
    lemma_lookup_adjacent_37();
    assert(lookup_sorted_upto(39));
    lemma_lookup_adjacent_38();
    assert(lookup_sorted_upto(40));
    lemma_lookup_adjacent_39();
    assert(lookup_sorted_upto(41));
    lemma_lookup_adjacent_40();
    assert(lookup_sorted_upto(42));
    lemma_lookup_adjacent_41();
    assert(lookup_sorted_upto(43));
    lemma_lookup_adjacent_42();
    assert(lookup_sorted_upto(44));
    lemma_lookup_adjacent_43();
    assert(lookup_sorted_upto(45));
    lemma_lookup_adjacent_44();
    assert(lookup_sorted_upto(46));
    lemma_lookup_adjacent_45();
    assert(lookup_sorted_upto(47));
    lemma_lookup_adjacent_46();
    assert(lookup_sorted_upto(48));
    lemma_lookup_adjacent_47();
    assert(lookup_sorted_upto(49));
    lemma_lookup_adjacent_48();
    assert(lookup_sorted_upto(50));
    lemma_lookup_adjacent_49();
    assert(lookup_sorted_upto(51));
}

proof fn lemma_lookup_sorted_upto_101()
    ensures
        lookup_sorted_upto(101),
{
    lemma_lookup_sorted_upto_51();
    lemma_lookup_adjacent_50();
    assert(lookup_sorted_upto(52));
    lemma_lookup_adjacent_51();
    assert(lookup_sorted_upto(53));
    lemma_lookup_adjacent_52();
    assert(lookup_sorted_upto(54));
    lemma_lookup_adjacent_53();
    assert(lookup_sorted_upto(55));
    lemma_lookup_adjacent_54();
    assert(lookup_sorted_upto(56));
    lemma_lookup_adjacent_55();
    assert(lookup_sorted_upto(57));
    lemma_lookup_adjacent_56();
    assert(lookup_sorted_upto(58));
    lemma_lookup_adjacent_57();
    assert(lookup_sorted_upto(59));
    lemma_lookup_adjacent_58();
    assert(lookup_sorted_upto(60));
    lemma_lookup_adjacent_59();
    assert(lookup_sorted_upto(61));
    lemma_lookup_adjacent_60();
    assert(lookup_sorted_upto(62));
    lemma_lookup_adjacent_61();
    assert(lookup_sorted_upto(63));
    lemma_lookup_adjacent_62();
    assert(lookup_sorted_upto(64));
    lemma_lookup_adjacent_63();
    assert(lookup_sorted_upto(65));
    lemma_lookup_adjacent_64();
    assert(lookup_sorted_upto(66));
    lemma_lookup_adjacent_65();
    assert(lookup_sorted_upto(67));
    lemma_lookup_adjacent_66();
    assert(lookup_sorted_upto(68));
    lemma_lookup_adjacent_67();
    assert(lookup_sorted_upto(69));
    lemma_lookup_adjacent_68();
    assert(lookup_sorted_upto(70));
    lemma_lookup_adjacent_69();
    assert(lookup_sorted_upto(71));
    lemma_lookup_adjacent_70();
    assert(lookup_sorted_upto(72));
    lemma_lookup_adjacent_71();
    assert(lookup_sorted_upto(73));
    lemma_lookup_adjacent_72();
    assert(lookup_sorted_upto(74));
    lemma_lookup_adjacent_73();
    assert(lookup_sorted_upto(75));
    lemma_lookup_adjacent_74();
    assert(lookup_sorted_upto(76));
    lemma_lookup_adjacent_75();
    assert(lookup_sorted_upto(77));
    lemma_lookup_adjacent_76();
    assert(lookup_sorted_upto(78));
    lemma_lookup_adjacent_77();
    assert(lookup_sorted_upto(79));
    lemma_lookup_adjacent_78();
    assert(lookup_sorted_upto(80));
    lemma_lookup_adjacent_79();
    assert(lookup_sorted_upto(81));
    lemma_lookup_adjacent_80();
    assert(lookup_sorted_upto(82));
    lemma_lookup_adjacent_81();
    assert(lookup_sorted_upto(83));
    lemma_lookup_adjacent_82();
    assert(lookup_sorted_upto(84));
    lemma_lookup_adjacent_83();
    assert(lookup_sorted_upto(85));
    lemma_lookup_adjacent_84();
    assert(lookup_sorted_upto(86));
    lemma_lookup_adjacent_85();
    assert(lookup_sorted_upto(87));
    lemma_lookup_adjacent_86();
    assert(lookup_sorted_upto(88));
    lemma_lookup_adjacent_87();
    assert(lookup_sorted_upto(89));
    lemma_lookup_adjacent_88();
    assert(lookup_sorted_upto(90));
    lemma_lookup_adjacent_89();
    assert(lookup_sorted_upto(91));
    lemma_lookup_adjacent_90();
    assert(lookup_sorted_upto(92));
    lemma_lookup_adjacent_91();
    assert(lookup_sorted_upto(93));
    lemma_lookup_adjacent_92();
    assert(lookup_sorted_upto(94));
    lemma_lookup_adjacent_93();
    assert(lookup_sorted_upto(95));
    lemma_lookup_adjacent_94();
    assert(lookup_sorted_upto(96));
    lemma_lookup_adjacent_95();
    assert(lookup_sorted_upto(97));
    lemma_lookup_adjacent_96();
    assert(lookup_sorted_upto(98));
    lemma_lookup_adjacent_97();
    assert(lookup_sorted_upto(99));
    lemma_lookup_adjacent_98();
    assert(lookup_sorted_upto(100));
    lemma_lookup_adjacent_99();
    assert(lookup_sorted_upto(101));
}

proof fn lemma_lookup_sorted_upto_151()
    ensures
        lookup_sorted_upto(151),
{
    lemma_lookup_sorted_upto_101();
    lemma_lookup_adjacent_100();
    assert(lookup_sorted_upto(102));
    lemma_lookup_adjacent_101();
    assert(lookup_sorted_upto(103));
    lemma_lookup_adjacent_102();
    assert(lookup_sorted_upto(104));
    lemma_lookup_adjacent_103();
    assert(lookup_sorted_upto(105));
    lemma_lookup_adjacent_104();
    assert(lookup_sorted_upto(106));
    lemma_lookup_adjacent_105();
    assert(lookup_sorted_upto(107));
    lemma_lookup_adjacent_106();
    assert(lookup_sorted_upto(108));
    lemma_lookup_adjacent_107();
    assert(lookup_sorted_upto(109));
    lemma_lookup_adjacent_108();
    assert(lookup_sorted_upto(110));
    lemma_lookup_adjacent_109();
    assert(lookup_sorted_upto(111));
    lemma_lookup_adjacent_110();
    assert(lookup_sorted_upto(112));
    lemma_lookup_adjacent_111();
    assert(lookup_sorted_upto(113));
    lemma_lookup_adjacent_112();
    assert(lookup_sorted_upto(114));
    lemma_lookup_adjacent_113();
    assert(lookup_sorted_upto(115));
    lemma_lookup_adjacent_114();
    assert(lookup_sorted_upto(116));
    lemma_lookup_adjacent_115();
    assert(lookup_sorted_upto(117));
    lemma_lookup_adjacent_116();
    assert(lookup_sorted_upto(118));
    lemma_lookup_adjacent_117();
    assert(lookup_sorted_upto(119));
    lemma_lookup_adjacent_118();
    assert(lookup_sorted_upto(120));
    lemma_lookup_adjacent_119();
    assert(lookup_sorted_upto(121));
    lemma_lookup_adjacent_120();
    assert(lookup_sorted_upto(122));
    lemma_lookup_adjacent_121();
    assert(lookup_sorted_upto(123));
    lemma_lookup_adjacent_122();
    assert(lookup_sorted_upto(124));
    lemma_lookup_adjacent_123();
    assert(lookup_sorted_upto(125));
    lemma_lookup_adjacent_124();
    assert(lookup_sorted_upto(126));
    lemma_lookup_adjacent_125();
    assert(lookup_sorted_upto(127));
    lemma_lookup_adjacent_126();
    assert(lookup_sorted_upto(128));
    lemma_lookup_adjacent_127();
    assert(lookup_sorted_upto(129));
    lemma_lookup_adjacent_128();
    assert(lookup_sorted_upto(130));
    lemma_lookup_adjacent_129();
    assert(lookup_sorted_upto(131));
    lemma_lookup_adjacent_130();
    assert(lookup_sorted_upto(132));
    lemma_lookup_adjacent_131();
    assert(lookup_sorted_upto(133));
    lemma_lookup_adjacent_132();
    assert(lookup_sorted_upto(134));
    lemma_lookup_adjacent_133();
    assert(lookup_sorted_upto(135));
    lemma_lookup_adjacent_134();
    assert(lookup_sorted_upto(136));
    lemma_lookup_adjacent_135();
    assert(lookup_sorted_upto(137));
    lemma_lookup_adjacent_136();
    assert(lookup_sorted_upto(138));
    lemma_lookup_adjacent_137();
    assert(lookup_sorted_upto(139));
    lemma_lookup_adjacent_138();
    assert(lookup_sorted_upto(140));
    lemma_lookup_adjacent_139();
    assert(lookup_sorted_upto(141));
    lemma_lookup_adjacent_140();
    assert(lookup_sorted_upto(142));
    lemma_lookup_adjacent_141();
    assert(lookup_sorted_upto(143));
    lemma_lookup_adjacent_142();
    assert(lookup_sorted_upto(144));
    lemma_lookup_adjacent_143();
    assert(lookup_sorted_upto(145));
    lemma_lookup_adjacent_144();
    assert(lookup_sorted_upto(146));
    lemma_lookup_adjacent_145();
    assert(lookup_sorted_upto(147));
    lemma_lookup_adjacent_146();
    assert(lookup_sorted_upto(148));
    lemma_lookup_adjacent_147();
    assert(lookup_sorted_upto(149));
    lemma_lookup_adjacent_148();
    assert(lookup_sorted_upto(150));
    lemma_lookup_adjacent_149();
    assert(lookup_sorted_upto(151));
}

proof fn lemma_lookup_sorted_upto_201()
    ensures
        lookup_sorted_upto(201),
{
    lemma_lookup_sorted_upto_151();
    lemma_lookup_adjacent_150();
    assert(lookup_sorted_upto(152));
    lemma_lookup_adjacent_151();
    assert(lookup_sorted_upto(153));
    lemma_lookup_adjacent_152();
    assert(lookup_sorted_upto(154));
    lemma_lookup_adjacent_153();
    assert(lookup_sorted_upto(155));
    lemma_lookup_adjacent_154();
    assert(lookup_sorted_upto(156));
    lemma_lookup_adjacent_155();
    assert(lookup_sorted_upto(157));
    lemma_lookup_adjacent_156();
    assert(lookup_sorted_upto(158));
    lemma_lookup_adjacent_157();
    assert(lookup_sorted_upto(159));
    lemma_lookup_adjacent_158();
    assert(lookup_sorted_upto(160));
    lemma_lookup_adjacent_159();
    assert(lookup_sorted_upto(161));
    lemma_lookup_adjacent_160();
    assert(lookup_sorted_upto(162));
    lemma_lookup_adjacent_161();
    assert(lookup_sorted_upto(163));
    lemma_lookup_adjacent_162();
    assert(lookup_sorted_upto(164));
    lemma_lookup_adjacent_163();
    assert(lookup_sorted_upto(165));
    lemma_lookup_adjacent_164();
    assert(lookup_sorted_upto(166));
    lemma_lookup_adjacent_165();
    assert(lookup_sorted_upto(167));
    lemma_lookup_adjacent_166();
    assert(lookup_sorted_upto(168));
    lemma_lookup_adjacent_167();
    assert(lookup_sorted_upto(169));
    lemma_lookup_adjacent_168();
    assert(lookup_sorted_upto(170));
    lemma_lookup_adjacent_169();
    assert(lookup_sorted_upto(171));
    lemma_lookup_adjacent_170();
    assert(lookup_sorted_upto(172));
    lemma_lookup_adjacent_171();
    assert(lookup_sorted_upto(173));
    lemma_lookup_adjacent_172();
    assert(lookup_sorted_upto(174));
    lemma_lookup_adjacent_173();
    assert(lookup_sorted_upto(175));
    lemma_lookup_adjacent_174();
    assert(lookup_sorted_upto(176));
    lemma_lookup_adjacent_175();
    assert(lookup_sorted_upto(177));
    lemma_lookup_adjacent_176();
    assert(lookup_sorted_upto(178));
    lemma_lookup_adjacent_177();
    assert(lookup_sorted_upto(179));
    lemma_lookup_adjacent_178();
    assert(lookup_sorted_upto(180));
    lemma_lookup_adjacent_179();
    assert(lookup_sorted_upto(181));
    lemma_lookup_adjacent_180();
    assert(lookup_sorted_upto(182));
    lemma_lookup_adjacent_181();
    assert(lookup_sorted_upto(183));
    lemma_lookup_adjacent_182();
    assert(lookup_sorted_upto(184));
    lemma_lookup_adjacent_183();
    assert(lookup_sorted_upto(185));
    lemma_lookup_adjacent_184();
    assert(lookup_sorted_upto(186));
    lemma_lookup_adjacent_185();
    assert(lookup_sorted_upto(187));
    lemma_lookup_adjacent_186();
    assert(lookup_sorted_upto(188));
    lemma_lookup_adjacent_187();
    assert(lookup_sorted_upto(189));
    lemma_lookup_adjacent_188();
    assert(lookup_sorted_upto(190));
    lemma_lookup_adjacent_189();
    assert(lookup_sorted_upto(191));
    lemma_lookup_adjacent_190();
    assert(lookup_sorted_upto(192));
    lemma_lookup_adjacent_191();
    assert(lookup_sorted_upto(193));
    lemma_lookup_adjacent_192();
    assert(lookup_sorted_upto(194));
    lemma_lookup_adjacent_193();
    assert(lookup_sorted_upto(195));
    lemma_lookup_adjacent_194();
    assert(lookup_sorted_upto(196));
    lemma_lookup_adjacent_195();
    assert(lookup_sorted_upto(197));
    lemma_lookup_adjacent_196();
    assert(lookup_sorted_upto(198));
    lemma_lookup_adjacent_197();
    assert(lookup_sorted_upto(199));
    lemma_lookup_adjacent_198();
    assert(lookup_sorted_upto(200));
    lemma_lookup_adjacent_199();
    assert(lookup_sorted_upto(201));
}

proof fn lemma_lookup_sorted_upto_251()
    ensures
        lookup_sorted_upto(251),
{
    lemma_lookup_sorted_upto_201();
    lemma_lookup_adjacent_200();
    assert(lookup_sorted_upto(202));
    lemma_lookup_adjacent_201();
    assert(lookup_sorted_upto(203));
    lemma_lookup_adjacent_202();
    assert(lookup_sorted_upto(204));
    lemma_lookup_adjacent_203();
    assert(lookup_sorted_upto(205));
    lemma_lookup_adjacent_204();
    assert(lookup_sorted_upto(206));
    lemma_lookup_adjacent_205();
    assert(lookup_sorted_upto(207));
    lemma_lookup_adjacent_206();
    assert(lookup_sorted_upto(208));
    lemma_lookup_adjacent_207();
    assert(lookup_sorted_upto(209));
    lemma_lookup_adjacent_208();
    assert(lookup_sorted_upto(210));
    lemma_lookup_adjacent_209();
    assert(lookup_sorted_upto(211));
    lemma_lookup_adjacent_210();
    assert(lookup_sorted_upto(212));
    lemma_lookup_adjacent_211();
    assert(lookup_sorted_upto(213));
    lemma_lookup_adjacent_212();
    assert(lookup_sorted_upto(214));
    lemma_lookup_adjacent_213();
    assert(lookup_sorted_upto(215));
    lemma_lookup_adjacent_214();
    assert(lookup_sorted_upto(216));
    lemma_lookup_adjacent_215();
    assert(lookup_sorted_upto(217));
    lemma_lookup_adjacent_216();
    assert(lookup_sorted_upto(218));
    lemma_lookup_adjacent_217();
    assert(lookup_sorted_upto(219));
    lemma_lookup_adjacent_218();
    assert(lookup_sorted_upto(220));
    lemma_lookup_adjacent_219();
    assert(lookup_sorted_upto(221));
    lemma_lookup_adjacent_220();
    assert(lookup_sorted_upto(222));
    lemma_lookup_adjacent_221();
    assert(lookup_sorted_upto(223));
    lemma_lookup_adjacent_222();
    assert(lookup_sorted_upto(224));
    lemma_lookup_adjacent_223();
    assert(lookup_sorted_upto(225));
    lemma_lookup_adjacent_224();
    assert(lookup_sorted_upto(226));
    lemma_lookup_adjacent_225();
    assert(lookup_sorted_upto(227));
    lemma_lookup_adjacent_226();
    assert(lookup_sorted_upto(228));
    lemma_lookup_adjacent_227();
    assert(lookup_sorted_upto(229));
    lemma_lookup_adjacent_228();
    assert(lookup_sorted_upto(230));
    lemma_lookup_adjacent_229();
    assert(lookup_sorted_upto(231));
    lemma_lookup_adjacent_230();
    assert(lookup_sorted_upto(232));
    lemma_lookup_adjacent_231();
    assert(lookup_sorted_upto(233));
    lemma_lookup_adjacent_232();
    assert(lookup_sorted_upto(234));
    lemma_lookup_adjacent_233();
    assert(lookup_sorted_upto(235));
    lemma_lookup_adjacent_234();
    assert(lookup_sorted_upto(236));
    lemma_lookup_adjacent_235();
    assert(lookup_sorted_upto(237));
    lemma_lookup_adjacent_236();
    assert(lookup_sorted_upto(238));
    lemma_lookup_adjacent_237();
    assert(lookup_sorted_upto(239));
    lemma_lookup_adjacent_238();
    assert(lookup_sorted_upto(240));
    lemma_lookup_adjacent_239();
    assert(lookup_sorted_upto(241));
    lemma_lookup_adjacent_240();
    assert(lookup_sorted_upto(242));
    lemma_lookup_adjacent_241();
    assert(lookup_sorted_upto(243));
    lemma_lookup_adjacent_242();
    assert(lookup_sorted_upto(244));
    lemma_lookup_adjacent_243();
    assert(lookup_sorted_upto(245));
    lemma_lookup_adjacent_244();
    assert(lookup_sorted_upto(246));
    lemma_lookup_adjacent_245();
    assert(lookup_sorted_upto(247));
    lemma_lookup_adjacent_246();
    assert(lookup_sorted_upto(248));
    lemma_lookup_adjacent_247();
    assert(lookup_sorted_upto(249));
    lemma_lookup_adjacent_248();
    assert(lookup_sorted_upto(250));
    lemma_lookup_adjacent_249();
    assert(lookup_sorted_upto(251));
}

proof fn lemma_lookup_sorted_upto_301()
    ensures
        lookup_sorted_upto(301),
{
    lemma_lookup_sorted_upto_251();
    lemma_lookup_adjacent_250();
    assert(lookup_sorted_upto(252));
    lemma_lookup_adjacent_251();
    assert(lookup_sorted_upto(253));
    lemma_lookup_adjacent_252();
    assert(lookup_sorted_upto(254));
    lemma_lookup_adjacent_253();
    assert(lookup_sorted_upto(255));
    lemma_lookup_adjacent_254();
    assert(lookup_sorted_upto(256));
    lemma_lookup_adjacent_255();
    assert(lookup_sorted_upto(257));
    lemma_lookup_adjacent_256();
    assert(lookup_sorted_upto(258));
    lemma_lookup_adjacent_257();
    assert(lookup_sorted_upto(259));
    lemma_lookup_adjacent_258();
    assert(lookup_sorted_upto(260));
    lemma_lookup_adjacent_259();
    assert(lookup_sorted_upto(261));
    lemma_lookup_adjacent_260();
    assert(lookup_sorted_upto(262));
    lemma_lookup_adjacent_261();
    assert(lookup_sorted_upto(263));
    lemma_lookup_adjacent_262();
    assert(lookup_sorted_upto(264));
    lemma_lookup_adjacent_263();
    assert(lookup_sorted_upto(265));
    lemma_lookup_adjacent_264();
    assert(lookup_sorted_upto(266));
    lemma_lookup_adjacent_265();
    assert(lookup_sorted_upto(267));
    lemma_lookup_adjacent_266();
    assert(lookup_sorted_upto(268));
    lemma_lookup_adjacent_267();
    assert(lookup_sorted_upto(269));
    lemma_lookup_adjacent_268();
    assert(lookup_sorted_upto(270));
    lemma_lookup_adjacent_269();
    assert(lookup_sorted_upto(271));
    lemma_lookup_adjacent_270();
    assert(lookup_sorted_upto(272));
    lemma_lookup_adjacent_271();
    assert(lookup_sorted_upto(273));
    lemma_lookup_adjacent_272();
    assert(lookup_sorted_upto(274));
    lemma_lookup_adjacent_273();
    assert(lookup_sorted_upto(275));
    lemma_lookup_adjacent_274();
    assert(lookup_sorted_upto(276));
    lemma_lookup_adjacent_275();
    assert(lookup_sorted_upto(277));
    lemma_lookup_adjacent_276();
    assert(lookup_sorted_upto(278));
    lemma_lookup_adjacent_277();
    assert(lookup_sorted_upto(279));
    lemma_lookup_adjacent_278();
    assert(lookup_sorted_upto(280));
    lemma_lookup_adjacent_279();
    assert(lookup_sorted_upto(281));
    lemma_lookup_adjacent_280();
    assert(lookup_sorted_upto(282));
    lemma_lookup_adjacent_281();
    assert(lookup_sorted_upto(283));
    lemma_lookup_adjacent_282();
    assert(lookup_sorted_upto(284));
    lemma_lookup_adjacent_283();
    assert(lookup_sorted_upto(285));
    lemma_lookup_adjacent_284();
    assert(lookup_sorted_upto(286));
    lemma_lookup_adjacent_285();
    assert(lookup_sorted_upto(287));
    lemma_lookup_adjacent_286();
    assert(lookup_sorted_upto(288));
    lemma_lookup_adjacent_287();
    assert(lookup_sorted_upto(289));
    lemma_lookup_adjacent_288();
    assert(lookup_sorted_upto(290));
    lemma_lookup_adjacent_289();
    assert(lookup_sorted_upto(291));
    lemma_lookup_adjacent_290();
    assert(lookup_sorted_upto(292));
    lemma_lookup_adjacent_291();
    assert(lookup_sorted_upto(293));
    lemma_lookup_adjacent_292();
    assert(lookup_sorted_upto(294));
    lemma_lookup_adjacent_293();
    assert(lookup_sorted_upto(295));
    lemma_lookup_adjacent_294();
    assert(lookup_sorted_upto(296));
    lemma_lookup_adjacent_295();
    assert(lookup_sorted_upto(297));
    lemma_lookup_adjacent_296();
    assert(lookup_sorted_upto(298));
    lemma_lookup_adjacent_297();
    assert(lookup_sorted_upto(299));
    lemma_lookup_adjacent_298();
    assert(lookup_sorted_upto(300));
    lemma_lookup_adjacent_299();
    assert(lookup_sorted_upto(301));
}

proof fn lemma_lookup_sorted_upto_351()
    ensures
        lookup_sorted_upto(351),
{
    lemma_lookup_sorted_upto_301();
    lemma_lookup_adjacent_300();
    assert(lookup_sorted_upto(302));
    lemma_lookup_adjacent_301();
    assert(lookup_sorted_upto(303));
    lemma_lookup_adjacent_302();
    assert(lookup_sorted_upto(304));
    lemma_lookup_adjacent_303();
    assert(lookup_sorted_upto(305));
    lemma_lookup_adjacent_304();
    assert(lookup_sorted_upto(306));
    lemma_lookup_adjacent_305();
    assert(lookup_sorted_upto(307));
    lemma_lookup_adjacent_306();
    assert(lookup_sorted_upto(308));
    lemma_lookup_adjacent_307();
    assert(lookup_sorted_upto(309));
    lemma_lookup_adjacent_308();
    assert(lookup_sorted_upto(310));
    lemma_lookup_adjacent_309();
    assert(lookup_sorted_upto(311));
    lemma_lookup_adjacent_310();
    assert(lookup_sorted_upto(312));
    lemma_lookup_adjacent_311();
    assert(lookup_sorted_upto(313));
    lemma_lookup_adjacent_312();
    assert(lookup_sorted_upto(314));
    lemma_lookup_adjacent_313();
    assert(lookup_sorted_upto(315));
    lemma_lookup_adjacent_314();
    assert(lookup_sorted_upto(316));
    lemma_lookup_adjacent_315();
    assert(lookup_sorted_upto(317));
    lemma_lookup_adjacent_316();
    assert(lookup_sorted_upto(318));
    lemma_lookup_adjacent_317();
    assert(lookup_sorted_upto(319));
    lemma_lookup_adjacent_318();
    assert(lookup_sorted_upto(320));
    lemma_lookup_adjacent_319();
    assert(lookup_sorted_upto(321));
    lemma_lookup_adjacent_320();
    assert(lookup_sorted_upto(322));
    lemma_lookup_adjacent_321();
    assert(lookup_sorted_upto(323));
    lemma_lookup_adjacent_322();
    assert(lookup_sorted_upto(324));
    lemma_lookup_adjacent_323();
    assert(lookup_sorted_upto(325));
    lemma_lookup_adjacent_324();
    assert(lookup_sorted_upto(326));
    lemma_lookup_adjacent_325();
    assert(lookup_sorted_upto(327));
    lemma_lookup_adjacent_326();
    assert(lookup_sorted_upto(328));
    lemma_lookup_adjacent_327();
    assert(lookup_sorted_upto(329));
    lemma_lookup_adjacent_328();
    assert(lookup_sorted_upto(330));
    lemma_lookup_adjacent_329();
    assert(lookup_sorted_upto(331));
    lemma_lookup_adjacent_330();
    assert(lookup_sorted_upto(332));
    lemma_lookup_adjacent_331();
    assert(lookup_sorted_upto(333));
    lemma_lookup_adjacent_332();
    assert(lookup_sorted_upto(334));
    lemma_lookup_adjacent_333();
    assert(lookup_sorted_upto(335));
    lemma_lookup_adjacent_334();
    assert(lookup_sorted_upto(336));
    lemma_lookup_adjacent_335();
    assert(lookup_sorted_upto(337));
    lemma_lookup_adjacent_336();
    assert(lookup_sorted_upto(338));
    lemma_lookup_adjacent_337();
    assert(lookup_sorted_upto(339));
    lemma_lookup_adjacent_338();
    assert(lookup_sorted_upto(340));
    lemma_lookup_adjacent_339();
    assert(lookup_sorted_upto(341));
    lemma_lookup_adjacent_340();
    assert(lookup_sorted_upto(342));
    lemma_lookup_adjacent_341();
    assert(lookup_sorted_upto(343));
    lemma_lookup_adjacent_342();
    assert(lookup_sorted_upto(344));
    lemma_lookup_adjacent_343();
    assert(lookup_sorted_upto(345));
    lemma_lookup_adjacent_344();
    assert(lookup_sorted_upto(346));
    lemma_lookup_adjacent_345();
    assert(lookup_sorted_upto(347));
    lemma_lookup_adjacent_346();
    assert(lookup_sorted_upto(348));
    lemma_lookup_adjacent_347();
    assert(lookup_sorted_upto(349));
    lemma_lookup_adjacent_348();
    assert(lookup_sorted_upto(350));
    lemma_lookup_adjacent_349();
    assert(lookup_sorted_upto(351));
}

proof fn lemma_lookup_sorted_upto_401()
    ensures
        lookup_sorted_upto(401),
{
    lemma_lookup_sorted_upto_351();
    lemma_lookup_adjacent_350();
    assert(lookup_sorted_upto(352));
    lemma_lookup_adjacent_351();
    assert(lookup_sorted_upto(353));
    lemma_lookup_adjacent_352();
    assert(lookup_sorted_upto(354));
    lemma_lookup_adjacent_353();
    assert(lookup_sorted_upto(355));
    lemma_lookup_adjacent_354();
    assert(lookup_sorted_upto(356));
    lemma_lookup_adjacent_355();
    assert(lookup_sorted_upto(357));
    lemma_lookup_adjacent_356();
    assert(lookup_sorted_upto(358));
    lemma_lookup_adjacent_357();
    assert(lookup_sorted_upto(359));
    lemma_lookup_adjacent_358();
    assert(lookup_sorted_upto(360));
    lemma_lookup_adjacent_359();
    assert(lookup_sorted_upto(361));
    lemma_lookup_adjacent_360();
    assert(lookup_sorted_upto(362));
    lemma_lookup_adjacent_361();
    assert(lookup_sorted_upto(363));
    lemma_lookup_adjacent_362();
    assert(lookup_sorted_upto(364));
    lemma_lookup_adjacent_363();
    assert(lookup_sorted_upto(365));
    lemma_lookup_adjacent_364();
    assert(lookup_sorted_upto(366));
    lemma_lookup_adjacent_365();
    assert(lookup_sorted_upto(367));
    lemma_lookup_adjacent_366();
    assert(lookup_sorted_upto(368));
    lemma_lookup_adjacent_367();
    assert(lookup_sorted_upto(369));
    lemma_lookup_adjacent_368();
    assert(lookup_sorted_upto(370));
    lemma_lookup_adjacent_369();
    assert(lookup_sorted_upto(371));
    lemma_lookup_adjacent_370();
    assert(lookup_sorted_upto(372));
    lemma_lookup_adjacent_371();
    assert(lookup_sorted_upto(373));
    lemma_lookup_adjacent_372();
    assert(lookup_sorted_upto(374));
    lemma_lookup_adjacent_373();
    assert(lookup_sorted_upto(375));
    lemma_lookup_adjacent_374();
    assert(lookup_sorted_upto(376));
    lemma_lookup_adjacent_375();
    assert(lookup_sorted_upto(377));
    lemma_lookup_adjacent_376();
    assert(lookup_sorted_upto(378));
    lemma_lookup_adjacent_377();
    assert(lookup_sorted_upto(379));
    lemma_lookup_adjacent_378();
    assert(lookup_sorted_upto(380));
    lemma_lookup_adjacent_379();
    assert(lookup_sorted_upto(381));
    lemma_lookup_adjacent_380();
    assert(lookup_sorted_upto(382));
    lemma_lookup_adjacent_381();
    assert(lookup_sorted_upto(383));
    lemma_lookup_adjacent_382();
    assert(lookup_sorted_upto(384));
    lemma_lookup_adjacent_383();
    assert(lookup_sorted_upto(385));
    lemma_lookup_adjacent_384();
    assert(lookup_sorted_upto(386));
    lemma_lookup_adjacent_385();
    assert(lookup_sorted_upto(387));
    lemma_lookup_adjacent_386();
    assert(lookup_sorted_upto(388));
    lemma_lookup_adjacent_387();
    assert(lookup_sorted_upto(389));
    lemma_lookup_adjacent_388();
    assert(lookup_sorted_upto(390));
    lemma_lookup_adjacent_389();
    assert(lookup_sorted_upto(391));
    lemma_lookup_adjacent_390();
    assert(lookup_sorted_upto(392));
    lemma_lookup_adjacent_391();
    assert(lookup_sorted_upto(393));
    lemma_lookup_adjacent_392();
    assert(lookup_sorted_upto(394));
    lemma_lookup_adjacent_393();
    assert(lookup_sorted_upto(395));
    lemma_lookup_adjacent_394();
    assert(lookup_sorted_upto(396));
    lemma_lookup_adjacent_395();
    assert(lookup_sorted_upto(397));
    lemma_lookup_adjacent_396();
    assert(lookup_sorted_upto(398));
    lemma_lookup_adjacent_397();
    assert(lookup_sorted_upto(399));
    lemma_lookup_adjacent_398();
    assert(lookup_sorted_upto(400));
    lemma_lookup_adjacent_399();
    assert(lookup_sorted_upto(401));
}

proof fn lemma_lookup_sorted_upto_451()
    ensures
        lookup_sorted_upto(451),
{
    lemma_lookup_sorted_upto_401();
    lemma_lookup_adjacent_400();
    assert(lookup_sorted_upto(402));
    lemma_lookup_adjacent_401();
    assert(lookup_sorted_upto(403));
    lemma_lookup_adjacent_402();
    assert(lookup_sorted_upto(404));
    lemma_lookup_adjacent_403();
    assert(lookup_sorted_upto(405));
    lemma_lookup_adjacent_404();
    assert(lookup_sorted_upto(406));
    lemma_lookup_adjacent_405();
    assert(lookup_sorted_upto(407));
    lemma_lookup_adjacent_406();
    assert(lookup_sorted_upto(408));
    lemma_lookup_adjacent_407();
    assert(lookup_sorted_upto(409));
    lemma_lookup_adjacent_408();
    assert(lookup_sorted_upto(410));
    lemma_lookup_adjacent_409();
    assert(lookup_sorted_upto(411));
    lemma_lookup_adjacent_410();
    assert(lookup_sorted_upto(412));
    lemma_lookup_adjacent_411();
    assert(lookup_sorted_upto(413));
    lemma_lookup_adjacent_412();
    assert(lookup_sorted_upto(414));
    lemma_lookup_adjacent_413();
    assert(lookup_sorted_upto(415));
    lemma_lookup_adjacent_414();
    assert(lookup_sorted_upto(416));
    lemma_lookup_adjacent_415();
    assert(lookup_sorted_upto(417));
    lemma_lookup_adjacent_416();
    assert(lookup_sorted_upto(418));
    lemma_lookup_adjacent_417();
    assert(lookup_sorted_upto(419));
    lemma_lookup_adjacent_418();
    assert(lookup_sorted_upto(420));
    lemma_lookup_adjacent_419();
    assert(lookup_sorted_upto(421));
    lemma_lookup_adjacent_420();
    assert(lookup_sorted_upto(422));
    lemma_lookup_adjacent_421();
    assert(lookup_sorted_upto(423));
    lemma_lookup_adjacent_422();
    assert(lookup_sorted_upto(424));
    lemma_lookup_adjacent_423();
    assert(lookup_sorted_upto(425));
    lemma_lookup_adjacent_424();
    assert(lookup_sorted_upto(426));
    lemma_lookup_adjacent_425();
    assert(lookup_sorted_upto(427));
    lemma_lookup_adjacent_426();
    assert(lookup_sorted_upto(428));
    lemma_lookup_adjacent_427();
    assert(lookup_sorted_upto(429));
    lemma_lookup_adjacent_428();
    assert(lookup_sorted_upto(430));
    lemma_lookup_adjacent_429();
    assert(lookup_sorted_upto(431));
    lemma_lookup_adjacent_430();
    assert(lookup_sorted_upto(432));
    lemma_lookup_adjacent_431();
    assert(lookup_sorted_upto(433));
    lemma_lookup_adjacent_432();
    assert(lookup_sorted_upto(434));
    lemma_lookup_adjacent_433();
    assert(lookup_sorted_upto(435));
    lemma_lookup_adjacent_434();
    assert(lookup_sorted_upto(436));
    lemma_lookup_adjacent_435();
    assert(lookup_sorted_upto(437));
    lemma_lookup_adjacent_436();
    assert(lookup_sorted_upto(438));
    lemma_lookup_adjacent_437();
    assert(lookup_sorted_upto(439));
    lemma_lookup_adjacent_438();
    assert(lookup_sorted_upto(440));
    lemma_lookup_adjacent_439();
    assert(lookup_sorted_upto(441));
    lemma_lookup_adjacent_440();
    assert(lookup_sorted_upto(442));
    lemma_lookup_adjacent_441();
    assert(lookup_sorted_upto(443));
    lemma_lookup_adjacent_442();
    assert(lookup_sorted_upto(444));
    lemma_lookup_adjacent_443();
    assert(lookup_sorted_upto(445));
    lemma_lookup_adjacent_444();
    assert(lookup_sorted_upto(446));
    lemma_lookup_adjacent_445();
    assert(lookup_sorted_upto(447));
    lemma_lookup_adjacent_446();
    assert(lookup_sorted_upto(448));
    lemma_lookup_adjacent_447();
    assert(lookup_sorted_upto(449));
    lemma_lookup_adjacent_448();
    assert(lookup_sorted_upto(450));
    lemma_lookup_adjacent_449();
    assert(lookup_sorted_upto(451));
}

proof fn lemma_lookup_sorted_upto_501()
    ensures
        lookup_sorted_upto(501),
{
    lemma_lookup_sorted_upto_451();
    lemma_lookup_adjacent_450();
    assert(lookup_sorted_upto(452));
    lemma_lookup_adjacent_451();
    assert(lookup_sorted_upto(453));
    lemma_lookup_adjacent_452();
    assert(lookup_sorted_upto(454));
    lemma_lookup_adjacent_453();
    assert(lookup_sorted_upto(455));
    lemma_lookup_adjacent_454();
    assert(lookup_sorted_upto(456));
    lemma_lookup_adjacent_455();
    assert(lookup_sorted_upto(457));
    lemma_lookup_adjacent_456();
    assert(lookup_sorted_upto(458));
    lemma_lookup_adjacent_457();
    assert(lookup_sorted_upto(459));
    lemma_lookup_adjacent_458();
    assert(lookup_sorted_upto(460));
    lemma_lookup_adjacent_459();
    assert(lookup_sorted_upto(461));
    lemma_lookup_adjacent_460();
    assert(lookup_sorted_upto(462));
    lemma_lookup_adjacent_461();
    assert(lookup_sorted_upto(463));
    lemma_lookup_adjacent_462();
    assert(lookup_sorted_upto(464));
    lemma_lookup_adjacent_463();
    assert(lookup_sorted_upto(465));
    lemma_lookup_adjacent_464();
    assert(lookup_sorted_upto(466));
    lemma_lookup_adjacent_465();
    assert(lookup_sorted_upto(467));
    lemma_lookup_adjacent_466();
    assert(lookup_sorted_upto(468));
    lemma_lookup_adjacent_467();
    assert(lookup_sorted_upto(469));
    lemma_lookup_adjacent_468();
    assert(lookup_sorted_upto(470));
    lemma_lookup_adjacent_469();
    assert(lookup_sorted_upto(471));
    lemma_lookup_adjacent_470();
    assert(lookup_sorted_upto(472));
    lemma_lookup_adjacent_471();
    assert(lookup_sorted_upto(473));
    lemma_lookup_adjacent_472();
    assert(lookup_sorted_upto(474));
    lemma_lookup_adjacent_473();
    assert(lookup_sorted_upto(475));
    lemma_lookup_adjacent_474();
    assert(lookup_sorted_upto(476));
    lemma_lookup_adjacent_475();
    assert(lookup_sorted_upto(477));
    lemma_lookup_adjacent_476();
    assert(lookup_sorted_upto(478));
    lemma_lookup_adjacent_477();
    assert(lookup_sorted_upto(479));
    lemma_lookup_adjacent_478();
    assert(lookup_sorted_upto(480));
    lemma_lookup_adjacent_479();
    assert(lookup_sorted_upto(481));
    lemma_lookup_adjacent_480();
    assert(lookup_sorted_upto(482));
    lemma_lookup_adjacent_481();
    assert(lookup_sorted_upto(483));
    lemma_lookup_adjacent_482();
    assert(lookup_sorted_upto(484));
    lemma_lookup_adjacent_483();
    assert(lookup_sorted_upto(485));
    lemma_lookup_adjacent_484();
    assert(lookup_sorted_upto(486));
    lemma_lookup_adjacent_485();
    assert(lookup_sorted_upto(487));
    lemma_lookup_adjacent_486();
    assert(lookup_sorted_upto(488));
    lemma_lookup_adjacent_487();
    assert(lookup_sorted_upto(489));
    lemma_lookup_adjacent_488();
    assert(lookup_sorted_upto(490));
    lemma_lookup_adjacent_489();
    assert(lookup_sorted_upto(491));
    lemma_lookup_adjacent_490();
    assert(lookup_sorted_upto(492));
    lemma_lookup_adjacent_491();
    assert(lookup_sorted_upto(493));
    lemma_lookup_adjacent_492();
    assert(lookup_sorted_upto(494));
    lemma_lookup_adjacent_493();
    assert(lookup_sorted_upto(495));
    lemma_lookup_adjacent_494();
    assert(lookup_sorted_upto(496));
    lemma_lookup_adjacent_495();
    assert(lookup_sorted_upto(497));
    lemma_lookup_adjacent_496();
    assert(lookup_sorted_upto(498));
    lemma_lookup_adjacent_497();
    assert(lookup_sorted_upto(499));
    lemma_lookup_adjacent_498();
    assert(lookup_sorted_upto(500));
    lemma_lookup_adjacent_499();
    assert(lookup_sorted_upto(501));
}

proof fn lemma_lookup_sorted_upto_551()
    ensures
        lookup_sorted_upto(551),
{
    lemma_lookup_sorted_upto_501();
    lemma_lookup_adjacent_500();
    assert(lookup_sorted_upto(502));
    lemma_lookup_adjacent_501();
    assert(lookup_sorted_upto(503));
    lemma_lookup_adjacent_502();
    assert(lookup_sorted_upto(504));
    lemma_lookup_adjacent_503();
    assert(lookup_sorted_upto(505));
    lemma_lookup_adjacent_504();
    assert(lookup_sorted_upto(506));
    lemma_lookup_adjacent_505();
    assert(lookup_sorted_upto(507));
    lemma_lookup_adjacent_506();
    assert(lookup_sorted_upto(508));
    lemma_lookup_adjacent_507();
    assert(lookup_sorted_upto(509));
    lemma_lookup_adjacent_508();
    assert(lookup_sorted_upto(510));
    lemma_lookup_adjacent_509();
    assert(lookup_sorted_upto(511));
    lemma_lookup_adjacent_510();
    assert(lookup_sorted_upto(512));
    lemma_lookup_adjacent_511();
    assert(lookup_sorted_upto(513));
    lemma_lookup_adjacent_512();
    assert(lookup_sorted_upto(514));
    lemma_lookup_adjacent_513();
    assert(lookup_sorted_upto(515));
    lemma_lookup_adjacent_514();
    assert(lookup_sorted_upto(516));
    lemma_lookup_adjacent_515();
    assert(lookup_sorted_upto(517));
    lemma_lookup_adjacent_516();
    assert(lookup_sorted_upto(518));
    lemma_lookup_adjacent_517();
    assert(lookup_sorted_upto(519));
    lemma_lookup_adjacent_518();
    assert(lookup_sorted_upto(520));
    lemma_lookup_adjacent_519();
    assert(lookup_sorted_upto(521));
    lemma_lookup_adjacent_520();
    assert(lookup_sorted_upto(522));
    lemma_lookup_adjacent_521();
    assert(lookup_sorted_upto(523));
    lemma_lookup_adjacent_522();
    assert(lookup_sorted_upto(524));
    lemma_lookup_adjacent_523();
    assert(lookup_sorted_upto(525));
    lemma_lookup_adjacent_524();
    assert(lookup_sorted_upto(526));
    lemma_lookup_adjacent_525();
    assert(lookup_sorted_upto(527));
    lemma_lookup_adjacent_526();
    assert(lookup_sorted_upto(528));
    lemma_lookup_adjacent_527();
    assert(lookup_sorted_upto(529));
    lemma_lookup_adjacent_528();
    assert(lookup_sorted_upto(530));
    lemma_lookup_adjacent_529();
    assert(lookup_sorted_upto(531));
    lemma_lookup_adjacent_530();
    assert(lookup_sorted_upto(532));
    lemma_lookup_adjacent_531();
    assert(lookup_sorted_upto(533));
    lemma_lookup_adjacent_532();
    assert(lookup_sorted_upto(534));
    lemma_lookup_adjacent_533();
    assert(lookup_sorted_upto(535));
    lemma_lookup_adjacent_534();
    assert(lookup_sorted_upto(536));
    lemma_lookup_adjacent_535();
    assert(lookup_sorted_upto(537));
    lemma_lookup_adjacent_536();
    assert(lookup_sorted_upto(538));
    lemma_lookup_adjacent_537();
    assert(lookup_sorted_upto(539));
    lemma_lookup_adjacent_538();
    assert(lookup_sorted_upto(540));
    lemma_lookup_adjacent_539();
    assert(lookup_sorted_upto(541));
    lemma_lookup_adjacent_540();
    assert(lookup_sorted_upto(542));
    lemma_lookup_adjacent_541();
    assert(lookup_sorted_upto(543));
    lemma_lookup_adjacent_542();
    assert(lookup_sorted_upto(544));
    lemma_lookup_adjacent_543();
    assert(lookup_sorted_upto(545));
    lemma_lookup_adjacent_544();
    assert(lookup_sorted_upto(546));
    lemma_lookup_adjacent_545();
    assert(lookup_sorted_upto(547));
    lemma_lookup_adjacent_546();
    assert(lookup_sorted_upto(548));
    lemma_lookup_adjacent_547();
    assert(lookup_sorted_upto(549));
    lemma_lookup_adjacent_548();
    assert(lookup_sorted_upto(550));
    lemma_lookup_adjacent_549();
    assert(lookup_sorted_upto(551));
}

proof fn lemma_lookup_sorted_upto_601()
    ensures
        lookup_sorted_upto(601),
{
    lemma_lookup_sorted_upto_551();
    lemma_lookup_adjacent_550();
    assert(lookup_sorted_upto(552));
    lemma_lookup_adjacent_551();
    assert(lookup_sorted_upto(553));
    lemma_lookup_adjacent_552();
    assert(lookup_sorted_upto(554));
    lemma_lookup_adjacent_553();
    assert(lookup_sorted_upto(555));
    lemma_lookup_adjacent_554();
    assert(lookup_sorted_upto(556));
    lemma_lookup_adjacent_555();
    assert(lookup_sorted_upto(557));
    lemma_lookup_adjacent_556();
    assert(lookup_sorted_upto(558));
    lemma_lookup_adjacent_557();
    assert(lookup_sorted_upto(559));
    lemma_lookup_adjacent_558();
    assert(lookup_sorted_upto(560));
    lemma_lookup_adjacent_559();
    assert(lookup_sorted_upto(561));
    lemma_lookup_adjacent_560();
    assert(lookup_sorted_upto(562));
    lemma_lookup_adjacent_561();
    assert(lookup_sorted_upto(563));
    lemma_lookup_adjacent_562();
    assert(lookup_sorted_upto(564));
    lemma_lookup_adjacent_563();
    assert(lookup_sorted_upto(565));
    lemma_lookup_adjacent_564();
    assert(lookup_sorted_upto(566));
    lemma_lookup_adjacent_565();
    assert(lookup_sorted_upto(567));
    lemma_lookup_adjacent_566();
    assert(lookup_sorted_upto(568));
    lemma_lookup_adjacent_567();
    assert(lookup_sorted_upto(569));
    lemma_lookup_adjacent_568();
    assert(lookup_sorted_upto(570));
    lemma_lookup_adjacent_569();
    assert(lookup_sorted_upto(571));
    lemma_lookup_adjacent_570();
    assert(lookup_sorted_upto(572));
    lemma_lookup_adjacent_571();
    assert(lookup_sorted_upto(573));
    lemma_lookup_adjacent_572();
    assert(lookup_sorted_upto(574));
    lemma_lookup_adjacent_573();
    assert(lookup_sorted_upto(575));
    lemma_lookup_adjacent_574();
    assert(lookup_sorted_upto(576));
    lemma_lookup_adjacent_575();
    assert(lookup_sorted_upto(577));
    lemma_lookup_adjacent_576();
    assert(lookup_sorted_upto(578));
    lemma_lookup_adjacent_577();
    assert(lookup_sorted_upto(579));
    lemma_lookup_adjacent_578();
    assert(lookup_sorted_upto(580));
    lemma_lookup_adjacent_579();
    assert(lookup_sorted_upto(581));
    lemma_lookup_adjacent_580();
    assert(lookup_sorted_upto(582));
    lemma_lookup_adjacent_581();
    assert(lookup_sorted_upto(583));
    lemma_lookup_adjacent_582();
    assert(lookup_sorted_upto(584));
    lemma_lookup_adjacent_583();
    assert(lookup_sorted_upto(585));
    lemma_lookup_adjacent_584();
    assert(lookup_sorted_upto(586));
    lemma_lookup_adjacent_585();
    assert(lookup_sorted_upto(587));
    lemma_lookup_adjacent_586();
    assert(lookup_sorted_upto(588));
    lemma_lookup_adjacent_587();
    assert(lookup_sorted_upto(589));
    lemma_lookup_adjacent_588();
    assert(lookup_sorted_upto(590));
    lemma_lookup_adjacent_589();
    assert(lookup_sorted_upto(591));
    lemma_lookup_adjacent_590();
    assert(lookup_sorted_upto(592));
    lemma_lookup_adjacent_591();
    assert(lookup_sorted_upto(593));
    lemma_lookup_adjacent_592();
    assert(lookup_sorted_upto(594));
    lemma_lookup_adjacent_593();
    assert(lookup_sorted_upto(595));
    lemma_lookup_adjacent_594();
    assert(lookup_sorted_upto(596));
    lemma_lookup_adjacent_595();
    assert(lookup_sorted_upto(597));
    lemma_lookup_adjacent_596();
    assert(lookup_sorted_upto(598));
    lemma_lookup_adjacent_597();
    assert(lookup_sorted_upto(599));
    lemma_lookup_adjacent_598();
    assert(lookup_sorted_upto(600));
    lemma_lookup_adjacent_599();
    assert(lookup_sorted_upto(601));
}

proof fn lemma_lookup_sorted_upto_651()
    ensures
        lookup_sorted_upto(651),
{
    lemma_lookup_sorted_upto_601();
    lemma_lookup_adjacent_600();
    assert(lookup_sorted_upto(602));
    lemma_lookup_adjacent_601();
    assert(lookup_sorted_upto(603));
    lemma_lookup_adjacent_602();
    assert(lookup_sorted_upto(604));
    lemma_lookup_adjacent_603();
    assert(lookup_sorted_upto(605));
    lemma_lookup_adjacent_604();
    assert(lookup_sorted_upto(606));
    lemma_lookup_adjacent_605();
    assert(lookup_sorted_upto(607));
    lemma_lookup_adjacent_606();
    assert(lookup_sorted_upto(608));
    lemma_lookup_adjacent_607();
    assert(lookup_sorted_upto(609));
    lemma_lookup_adjacent_608();
    assert(lookup_sorted_upto(610));
    lemma_lookup_adjacent_609();
    assert(lookup_sorted_upto(611));
    lemma_lookup_adjacent_610();
    assert(lookup_sorted_upto(612));
    lemma_lookup_adjacent_611();
    assert(lookup_sorted_upto(613));
    lemma_lookup_adjacent_612();
    assert(lookup_sorted_upto(614));
    lemma_lookup_adjacent_613();
    assert(lookup_sorted_upto(615));
    lemma_lookup_adjacent_614();
    assert(lookup_sorted_upto(616));
    lemma_lookup_adjacent_615();
    assert(lookup_sorted_upto(617));
    lemma_lookup_adjacent_616();
    assert(lookup_sorted_upto(618));
    lemma_lookup_adjacent_617();
    assert(lookup_sorted_upto(619));
    lemma_lookup_adjacent_618();
    assert(lookup_sorted_upto(620));
    lemma_lookup_adjacent_619();
    assert(lookup_sorted_upto(621));
    lemma_lookup_adjacent_620();
    assert(lookup_sorted_upto(622));
    lemma_lookup_adjacent_621();
    assert(lookup_sorted_upto(623));
    lemma_lookup_adjacent_622();
    assert(lookup_sorted_upto(624));
    lemma_lookup_adjacent_623();
    assert(lookup_sorted_upto(625));
    lemma_lookup_adjacent_624();
    assert(lookup_sorted_upto(626));
    lemma_lookup_adjacent_625();
    assert(lookup_sorted_upto(627));
    lemma_lookup_adjacent_626();
    assert(lookup_sorted_upto(628));
    lemma_lookup_adjacent_627();
    assert(lookup_sorted_upto(629));
    lemma_lookup_adjacent_628();
    assert(lookup_sorted_upto(630));
    lemma_lookup_adjacent_629();
    assert(lookup_sorted_upto(631));
    lemma_lookup_adjacent_630();
    assert(lookup_sorted_upto(632));
    lemma_lookup_adjacent_631();
    assert(lookup_sorted_upto(633));
    lemma_lookup_adjacent_632();
    assert(lookup_sorted_upto(634));
    lemma_lookup_adjacent_633();
    assert(lookup_sorted_upto(635));
    lemma_lookup_adjacent_634();
    assert(lookup_sorted_upto(636));
    lemma_lookup_adjacent_635();
    assert(lookup_sorted_upto(637));
    lemma_lookup_adjacent_636();
    assert(lookup_sorted_upto(638));
    lemma_lookup_adjacent_637();
    assert(lookup_sorted_upto(639));
    lemma_lookup_adjacent_638();
    assert(lookup_sorted_upto(640));
    lemma_lookup_adjacent_639();
    assert(lookup_sorted_upto(641));
    lemma_lookup_adjacent_640();
    assert(lookup_sorted_upto(642));
    lemma_lookup_adjacent_641();
    assert(lookup_sorted_upto(643));
    lemma_lookup_adjacent_642();
    assert(lookup_sorted_upto(644));
    lemma_lookup_adjacent_643();
    assert(lookup_sorted_upto(645));
    lemma_lookup_adjacent_644();
    assert(lookup_sorted_upto(646));
    lemma_lookup_adjacent_645();
    assert(lookup_sorted_upto(647));
    lemma_lookup_adjacent_646();
    assert(lookup_sorted_upto(648));
    lemma_lookup_adjacent_647();
    assert(lookup_sorted_upto(649));
    lemma_lookup_adjacent_648();
    assert(lookup_sorted_upto(650));
    lemma_lookup_adjacent_649();
    assert(lookup_sorted_upto(651));
}

proof fn lemma_lookup_sorted_upto_701()
    ensures
        lookup_sorted_upto(701),
{
    lemma_lookup_sorted_upto_651();
    lemma_lookup_adjacent_650();
    assert(lookup_sorted_upto(652));
    lemma_lookup_adjacent_651();
    assert(lookup_sorted_upto(653));
    lemma_lookup_adjacent_652();
    assert(lookup_sorted_upto(654));
    lemma_lookup_adjacent_653();
    assert(lookup_sorted_upto(655));
    lemma_lookup_adjacent_654();
    assert(lookup_sorted_upto(656));
    lemma_lookup_adjacent_655();
    assert(lookup_sorted_upto(657));
    lemma_lookup_adjacent_656();
    assert(lookup_sorted_upto(658));
    lemma_lookup_adjacent_657();
    assert(lookup_sorted_upto(659));
    lemma_lookup_adjacent_658();
    assert(lookup_sorted_upto(660));
    lemma_lookup_adjacent_659();
    assert(lookup_sorted_upto(661));
    lemma_lookup_adjacent_660();
    assert(lookup_sorted_upto(662));
    lemma_lookup_adjacent_661();
    assert(lookup_sorted_upto(663));
    lemma_lookup_adjacent_662();
    assert(lookup_sorted_upto(664));
    lemma_lookup_adjacent_663();
    assert(lookup_sorted_upto(665));
    lemma_lookup_adjacent_664();
    assert(lookup_sorted_upto(666));
    lemma_lookup_adjacent_665();
    assert(lookup_sorted_upto(667));
    lemma_lookup_adjacent_666();
    assert(lookup_sorted_upto(668));
    lemma_lookup_adjacent_667();
    assert(lookup_sorted_upto(669));
    lemma_lookup_adjacent_668();
    assert(lookup_sorted_upto(670));
    lemma_lookup_adjacent_669();
    assert(lookup_sorted_upto(671));
    lemma_lookup_adjacent_670();
    assert(lookup_sorted_upto(672));
    lemma_lookup_adjacent_671();
    assert(lookup_sorted_upto(673));
    lemma_lookup_adjacent_672();
    assert(lookup_sorted_upto(674));
    lemma_lookup_adjacent_673();
    assert(lookup_sorted_upto(675));
    lemma_lookup_adjacent_674();
    assert(lookup_sorted_upto(676));
    lemma_lookup_adjacent_675();
    assert(lookup_sorted_upto(677));
    lemma_lookup_adjacent_676();
    assert(lookup_sorted_upto(678));
    lemma_lookup_adjacent_677();
    assert(lookup_sorted_upto(679));
    lemma_lookup_adjacent_678();
    assert(lookup_sorted_upto(680));
    lemma_lookup_adjacent_679();
    assert(lookup_sorted_upto(681));
    lemma_lookup_adjacent_680();
    assert(lookup_sorted_upto(682));
    lemma_lookup_adjacent_681();
    assert(lookup_sorted_upto(683));
    lemma_lookup_adjacent_682();
    assert(lookup_sorted_upto(684));
    lemma_lookup_adjacent_683();
    assert(lookup_sorted_upto(685));
    lemma_lookup_adjacent_684();
    assert(lookup_sorted_upto(686));
    lemma_lookup_adjacent_685();
    assert(lookup_sorted_upto(687));
    lemma_lookup_adjacent_686();
    assert(lookup_sorted_upto(688));
    lemma_lookup_adjacent_687();
    assert(lookup_sorted_upto(689));
    lemma_lookup_adjacent_688();
    assert(lookup_sorted_upto(690));
    lemma_lookup_adjacent_689();
    assert(lookup_sorted_upto(691));
    lemma_lookup_adjacent_690();
    assert(lookup_sorted_upto(692));
    lemma_lookup_adjacent_691();
    assert(lookup_sorted_upto(693));
    lemma_lookup_adjacent_692();
    assert(lookup_sorted_upto(694));
    lemma_lookup_adjacent_693();
    assert(lookup_sorted_upto(695));
    lemma_lookup_adjacent_694();
    assert(lookup_sorted_upto(696));
    lemma_lookup_adjacent_695();
    assert(lookup_sorted_upto(697));
    lemma_lookup_adjacent_696();
    assert(lookup_sorted_upto(698));
    lemma_lookup_adjacent_697();
    assert(lookup_sorted_upto(699));
    lemma_lookup_adjacent_698();
    assert(lookup_sorted_upto(700));
    lemma_lookup_adjacent_699();
    assert(lookup_sorted_upto(701));
}

proof fn lemma_lookup_sorted_upto_751()
    ensures
        lookup_sorted_upto(751),
{
    lemma_lookup_sorted_upto_701();
    lemma_lookup_adjacent_700();
    assert(lookup_sorted_upto(702));
    lemma_lookup_adjacent_701();
    assert(lookup_sorted_upto(703));
    lemma_lookup_adjacent_702();
    assert(lookup_sorted_upto(704));
    lemma_lookup_adjacent_703();
    assert(lookup_sorted_upto(705));
    lemma_lookup_adjacent_704();
    assert(lookup_sorted_upto(706));
    lemma_lookup_adjacent_705();
    assert(lookup_sorted_upto(707));
    lemma_lookup_adjacent_706();
    assert(lookup_sorted_upto(708));
    lemma_lookup_adjacent_707();
    assert(lookup_sorted_upto(709));
    lemma_lookup_adjacent_708();
    assert(lookup_sorted_upto(710));
    lemma_lookup_adjacent_709();
    assert(lookup_sorted_upto(711));
    lemma_lookup_adjacent_710();
    assert(lookup_sorted_upto(712));
    lemma_lookup_adjacent_711();
    assert(lookup_sorted_upto(713));
    lemma_lookup_adjacent_712();
    assert(lookup_sorted_upto(714));
    lemma_lookup_adjacent_713();
    assert(lookup_sorted_upto(715));
    lemma_lookup_adjacent_714();
    assert(lookup_sorted_upto(716));
    lemma_lookup_adjacent_715();
    assert(lookup_sorted_upto(717));
    lemma_lookup_adjacent_716();
    assert(lookup_sorted_upto(718));
    lemma_lookup_adjacent_717();
    assert(lookup_sorted_upto(719));
    lemma_lookup_adjacent_718();
    assert(lookup_sorted_upto(720));
    lemma_lookup_adjacent_719();
    assert(lookup_sorted_upto(721));
    lemma_lookup_adjacent_720();
    assert(lookup_sorted_upto(722));
    lemma_lookup_adjacent_721();
    assert(lookup_sorted_upto(723));
    lemma_lookup_adjacent_722();
    assert(lookup_sorted_upto(724));
    lemma_lookup_adjacent_723();
    assert(lookup_sorted_upto(725));
    lemma_lookup_adjacent_724();
    assert(lookup_sorted_upto(726));
    lemma_lookup_adjacent_725();
    assert(lookup_sorted_upto(727));
    lemma_lookup_adjacent_726();
    assert(lookup_sorted_upto(728));
    lemma_lookup_adjacent_727();
    assert(lookup_sorted_upto(729));
    lemma_lookup_adjacent_728();
    assert(lookup_sorted_upto(730));
    lemma_lookup_adjacent_729();
    assert(lookup_sorted_upto(731));
    lemma_lookup_adjacent_730();
    assert(lookup_sorted_upto(732));
    lemma_lookup_adjacent_731();
    assert(lookup_sorted_upto(733));
    lemma_lookup_adjacent_732();
    assert(lookup_sorted_upto(734));
    lemma_lookup_adjacent_733();
    assert(lookup_sorted_upto(735));
    lemma_lookup_adjacent_734();
    assert(lookup_sorted_upto(736));
    lemma_lookup_adjacent_735();
    assert(lookup_sorted_upto(737));
    lemma_lookup_adjacent_736();
    assert(lookup_sorted_upto(738));
    lemma_lookup_adjacent_737();
    assert(lookup_sorted_upto(739));
    lemma_lookup_adjacent_738();
    assert(lookup_sorted_upto(740));
    lemma_lookup_adjacent_739();
    assert(lookup_sorted_upto(741));
    lemma_lookup_adjacent_740();
    assert(lookup_sorted_upto(742));
    lemma_lookup_adjacent_741();
    assert(lookup_sorted_upto(743));
    lemma_lookup_adjacent_742();
    assert(lookup_sorted_upto(744));
    lemma_lookup_adjacent_743();
    assert(lookup_sorted_upto(745));
    lemma_lookup_adjacent_744();
    assert(lookup_sorted_upto(746));
    lemma_lookup_adjacent_745();
    assert(lookup_sorted_upto(747));
    lemma_lookup_adjacent_746();
    assert(lookup_sorted_upto(748));
    lemma_lookup_adjacent_747();
    assert(lookup_sorted_upto(749));
    lemma_lookup_adjacent_748();
    assert(lookup_sorted_upto(750));
    lemma_lookup_adjacent_749();
    assert(lookup_sorted_upto(751));
}

proof fn lemma_lookup_sorted_upto_801()
    ensures
        lookup_sorted_upto(801),
{
    lemma_lookup_sorted_upto_751();
    lemma_lookup_adjacent_750();
    assert(lookup_sorted_upto(752));
    lemma_lookup_adjacent_751();
    assert(lookup_sorted_upto(753));
    lemma_lookup_adjacent_752();
    assert(lookup_sorted_upto(754));
    lemma_lookup_adjacent_753();
    assert(lookup_sorted_upto(755));
    lemma_lookup_adjacent_754();
    assert(lookup_sorted_upto(756));
    lemma_lookup_adjacent_755();
    assert(lookup_sorted_upto(757));
    lemma_lookup_adjacent_756();
    assert(lookup_sorted_upto(758));
    lemma_lookup_adjacent_757();
    assert(lookup_sorted_upto(759));
    lemma_lookup_adjacent_758();
    assert(lookup_sorted_upto(760));
    lemma_lookup_adjacent_759();
    assert(lookup_sorted_upto(761));
    lemma_lookup_adjacent_760();
    assert(lookup_sorted_upto(762));
    lemma_lookup_adjacent_761();
    assert(lookup_sorted_upto(763));
    lemma_lookup_adjacent_762();
    assert(lookup_sorted_upto(764));
    lemma_lookup_adjacent_763();
    assert(lookup_sorted_upto(765));
    lemma_lookup_adjacent_764();
    assert(lookup_sorted_upto(766));
    lemma_lookup_adjacent_765();
    assert(lookup_sorted_upto(767));
    lemma_lookup_adjacent_766();
    assert(lookup_sorted_upto(768));
    lemma_lookup_adjacent_767();
    assert(lookup_sorted_upto(769));
    lemma_lookup_adjacent_768();
    assert(lookup_sorted_upto(770));
    lemma_lookup_adjacent_769();
    assert(lookup_sorted_upto(771));
    lemma_lookup_adjacent_770();
    assert(lookup_sorted_upto(772));
    lemma_lookup_adjacent_771();
    assert(lookup_sorted_upto(773));
    lemma_lookup_adjacent_772();
    assert(lookup_sorted_upto(774));
    lemma_lookup_adjacent_773();
    assert(lookup_sorted_upto(775));
    lemma_lookup_adjacent_774();
    assert(lookup_sorted_upto(776));
    lemma_lookup_adjacent_775();
    assert(lookup_sorted_upto(777));
    lemma_lookup_adjacent_776();
    assert(lookup_sorted_upto(778));
    lemma_lookup_adjacent_777();
    assert(lookup_sorted_upto(779));
    lemma_lookup_adjacent_778();
    assert(lookup_sorted_upto(780));
    lemma_lookup_adjacent_779();
    assert(lookup_sorted_upto(781));
    lemma_lookup_adjacent_780();
    assert(lookup_sorted_upto(782));
    lemma_lookup_adjacent_781();
    assert(lookup_sorted_upto(783));
    lemma_lookup_adjacent_782();
    assert(lookup_sorted_upto(784));
    lemma_lookup_adjacent_783();
    assert(lookup_sorted_upto(785));
    lemma_lookup_adjacent_784();
    assert(lookup_sorted_upto(786));
    lemma_lookup_adjacent_785();
    assert(lookup_sorted_upto(787));
    lemma_lookup_adjacent_786();
    assert(lookup_sorted_upto(788));
    lemma_lookup_adjacent_787();
    assert(lookup_sorted_upto(789));
    lemma_lookup_adjacent_788();
    assert(lookup_sorted_upto(790));
    lemma_lookup_adjacent_789();
    assert(lookup_sorted_upto(791));
    lemma_lookup_adjacent_790();
    assert(lookup_sorted_upto(792));
    lemma_lookup_adjacent_791();
    assert(lookup_sorted_upto(793));
    lemma_lookup_adjacent_792();
    assert(lookup_sorted_upto(794));
    lemma_lookup_adjacent_793();
    assert(lookup_sorted_upto(795));
    lemma_lookup_adjacent_794();
    assert(lookup_sorted_upto(796));
    lemma_lookup_adjacent_795();
    assert(lookup_sorted_upto(797));
    lemma_lookup_adjacent_796();
    assert(lookup_sorted_upto(798));
    lemma_lookup_adjacent_797();
    assert(lookup_sorted_upto(799));
    lemma_lookup_adjacent_798();
    assert(lookup_sorted_upto(800));
    lemma_lookup_adjacent_799();
    assert(lookup_sorted_upto(801));
}

proof fn lemma_lookup_sorted_upto_816()
    ensures
        lookup_sorted_upto(816),
{
    lemma_lookup_sorted_upto_801();
    lemma_lookup_adjacent_800();
    assert(lookup_sorted_upto(802));
    lemma_lookup_adjacent_801();
    assert(lookup_sorted_upto(803));
    lemma_lookup_adjacent_802();
    assert(lookup_sorted_upto(804));
    lemma_lookup_adjacent_803();
    assert(lookup_sorted_upto(805));
    lemma_lookup_adjacent_804();
    assert(lookup_sorted_upto(806));
    lemma_lookup_adjacent_805();
    assert(lookup_sorted_upto(807));
    lemma_lookup_adjacent_806();
    assert(lookup_sorted_upto(808));
    lemma_lookup_adjacent_807();
    assert(lookup_sorted_upto(809));
    lemma_lookup_adjacent_808();
    assert(lookup_sorted_upto(810));
    lemma_lookup_adjacent_809();
    assert(lookup_sorted_upto(811));
    lemma_lookup_adjacent_810();
    assert(lookup_sorted_upto(812));
    lemma_lookup_adjacent_811();
    assert(lookup_sorted_upto(813));
    lemma_lookup_adjacent_812();
    assert(lookup_sorted_upto(814));
    lemma_lookup_adjacent_813();
    assert(lookup_sorted_upto(815));
    lemma_lookup_adjacent_814();
    assert(lookup_sorted_upto(816));
}

proof fn lemma_sorted_pairs(n: usize)
    requires
        lookup_sorted_upto(n),
    ensures
        forall|i: usize, j: usize| i < j < n ==> name_less(#[trigger] lookup_name(i), #[trigger] lookup_name(j)),
    decreases n,
{
    if n > 1 {
        let m = (n - 1) as usize;
        lemma_sorted_pairs(m);
        assert forall|i: usize, j: usize| i < j < n implies name_less(#[trigger] lookup_name(i), #[trigger] lookup_name(j)) by {
            if j == m && i + 1 < m {
                lemma_name_less_transitive(lookup_name(i), lookup_name((m - 1) as usize), lookup_name(m));
            }
        }
    }
}

/// The names of the lookup table before `n` are made of property-name characters.
pub open spec fn lookup_chars_upto(n: usize) -> bool
    decreases n,
{
    if n == 0 {
        true
    } else {
        lookup_chars_upto((n - 1) as usize) && name_chars_from(lookup_name((n - 1) as usize), 0)
    }
}

proof fn lemma_lookup_chars_0()
    ensures
        name_chars_from(lookup_name(0), 0),
{
    reveal_strlit("-webkit-align-content");
    reveal_with_fuel(name_chars_from, 23);
}

proof fn lemma_lookup_chars_1()
    ensures
        name_chars_from(lookup_name(1), 0),
{
    reveal_strlit("-webkit-align-items");
    reveal_with_fuel(name_chars_from, 21);
}

proof fn lemma_lookup_chars_2()
    ensures
        name_chars_from(lookup_name(2), 0),
{
    reveal_strlit("-webkit-align-self");
    reveal_with_fuel(name_chars_from, 20);
}

proof fn lemma_lookup_chars_3()
    ensures
        name_chars_from(lookup_name(3), 0),
{
    reveal_strlit("-webkit-animation");
    reveal_with_fuel(name_chars_from, 19);
}

proof fn lemma_lookup_chars_4()
    ensures
        name_chars_from(lookup_name(4), 0),
{
    reveal_strlit("-webkit-animation-delay");
    reveal_with_fuel(name_chars_from, 25);
}

proof fn lemma_lookup_chars_5()
    ensures
        name_chars_from(lookup_name(5), 0),
{
    reveal_strlit("-webkit-animation-direction");
    reveal_with_fuel(name_chars_from, 29);
}

proof fn lemma_lookup_chars_6()
    ensures
        name_chars_from(lookup_name(6), 0),
{
    reveal_strlit("-webkit-animation-duration");
    reveal_with_fuel(name_chars_from, 28);
}

proof fn lemma_lookup_chars_7()
    ensures
        name_chars_from(lookup_name(7), 0),
{
    reveal_strlit("-webkit-animation-fill-mode");
    reveal_with_fuel(name_chars_from, 29);
}

proof fn lemma_lookup_chars_8()
    ensures
        name_chars_from(lookup_name(8), 0),
{
    reveal_strlit("-webkit-animation-iteration-count");
    reveal_with_fuel(name_chars_from, 35);
}

proof fn lemma_lookup_chars_9()
    ensures
        name_chars_from(lookup_name(9), 0),
{
    reveal_strlit("-webkit-animation-name");
    reveal_with_fuel(name_chars_from, 24);
}

proof fn lemma_lookup_chars_10()
    ensures
        name_chars_from(lookup_name(10), 0),
{
    reveal_strlit("-webkit-animation-play-state");
    reveal_with_fuel(name_chars_from, 30);
}

proof fn lemma_lookup_chars_11()
    ensures
        name_chars_from(lookup_name(11), 0),
{
    reveal_strlit("-webkit-animation-timing-function");
    reveal_with_fuel(name_chars_from, 35);
}

proof fn lemma_lookup_chars_12()
    ensures
        name_chars_from(lookup_name(12), 0),
{
    reveal_strlit("-webkit-appearance");
    reveal_with_fuel(name_chars_from, 20);
}

proof fn lemma_lookup_chars_13()
    ensures
        name_chars_from(lookup_name(13), 0),
{
    reveal_strlit("-webkit-backface-visibility");
    reveal_with_fuel(name_chars_from, 29);
}

proof fn lemma_lookup_chars_14()
    ensures
        name_chars_from(lookup_name(14), 0),
{
    reveal_strlit("-webkit-background-clip");
    reveal_with_fuel(name_chars_from, 25);
}

proof fn lemma_lookup_chars_15()
    ensures
        name_chars_from(lookup_name(15), 0),
{
    reveal_strlit("-webkit-background-origin");
    reveal_with_fuel(name_chars_from, 27);
}

proof fn lemma_lookup_chars_16()
    ensures
        name_chars_from(lookup_name(16), 0),
{
    reveal_strlit("-webkit-background-size");
    reveal_with_fuel(name_chars_from, 25);
}

proof fn lemma_lookup_chars_17()
    ensures
        name_chars_from(lookup_name(17), 0),
{
    reveal_strlit("-webkit-border-bottom-left-radius");
    reveal_with_fuel(name_chars_from, 35);
}

proof fn lemma_lookup_chars_18()
    ensures
        name_chars_from(lookup_name(18), 0),
{
    reveal_strlit("-webkit-border-bottom-right-radius");
    reveal_with_fuel(name_chars_from, 36);
}

proof fn lemma_lookup_chars_19()
    ensures
        name_chars_from(lookup_name(19), 0),
{
    reveal_strlit("-webkit-border-radius");
    reveal_with_fuel(name_chars_from, 23);
}

proof fn lemma_lookup_chars_20()
    ensures
        name_chars_from(lookup_name(20), 0),
{
    reveal_strlit("-webkit-border-top-left-radius");
    reveal_with_fuel(name_chars_from, 32);
}

proof fn lemma_lookup_chars_21()
    ensures
        name_chars_from(lookup_name(21), 0),
{
    reveal_strlit("-webkit-border-top-right-radius");
    reveal_with_fuel(name_chars_from, 33);
}

proof fn lemma_lookup_chars_22()
    ensures
        name_chars_from(lookup_name(22), 0),
{
    reveal_strlit("-webkit-box-align");
    reveal_with_fuel(name_chars_from, 19);
}

proof fn lemma_lookup_chars_23()
    ensures
        name_chars_from(lookup_name(23), 0),
{
    reveal_strlit("-webkit-box-flex");
    reveal_with_fuel(name_chars_from, 18);
}

proof fn lemma_lookup_chars_24()
    ensures
        name_chars_from(lookup_name(24), 0),
{
    reveal_strlit("-webkit-box-ordinal-group");
    reveal_with_fuel(name_chars_from, 27);
}

proof fn lemma_lookup_chars_25()
    ensures
        name_chars_from(lookup_name(25), 0),
{
    reveal_strlit("-webkit-box-orient");
    reveal_with_fuel(name_chars_from, 20);
}

proof fn lemma_lookup_chars_26()
    ensures
        name_chars_from(lookup_name(26), 0),
{
    reveal_strlit("-webkit-box-pack");
    reveal_with_fuel(name_chars_from, 18);
}

proof fn lemma_lookup_chars_27()
    ensures
        name_chars_from(lookup_name(27), 0),
{
    reveal_strlit("-webkit-box-shadow");
    reveal_with_fuel(name_chars_from, 20);
}

proof fn lemma_lookup_chars_28()
    ensures
        name_chars_from(lookup_name(28), 0),
{
    reveal_strlit("-webkit-box-sizing");
    reveal_with_fuel(name_chars_from, 20);
}

proof fn lemma_lookup_chars_29()
    ensures
        name_chars_from(lookup_name(29), 0),
{
    reveal_strlit("-webkit-filter");
    reveal_with_fuel(name_chars_from, 16);
}

proof fn lemma_lookup_chars_30()
    ensures
        name_chars_from(lookup_name(30), 0),
{
    reveal_strlit("-webkit-flex");
    reveal_with_fuel(name_chars_from, 14);
}

proof fn lemma_lookup_chars_31()
    ensures
        name_chars_from(lookup_name(31), 0),
{
    reveal_strlit("-webkit-flex-basis");
    reveal_with_fuel(name_chars_from, 20);
}

proof fn lemma_lookup_chars_32()
    ensures
        name_chars_from(lookup_name(32), 0),
{
    reveal_strlit("-webkit-flex-direction");
    reveal_with_fuel(name_chars_from, 24);
}

proof fn lemma_lookup_chars_33()
    ensures
        name_chars_from(lookup_name(33), 0),
{
    reveal_strlit("-webkit-flex-flow");
    reveal_with_fuel(name_chars_from, 19);
}

proof fn lemma_lookup_chars_34()
    ensures
        name_chars_from(lookup_name(34), 0),
{
    reveal_strlit("-webkit-flex-grow");
    reveal_with_fuel(name_chars_from, 19);
}

proof fn lemma_lookup_chars_35()
    ensures
        name_chars_from(lookup_name(35), 0),
{
    reveal_strlit("-webkit-flex-shrink");
    reveal_with_fuel(name_chars_from, 21);
}

proof fn lemma_lookup_chars_36()
    ensures
        name_chars_from(lookup_name(36), 0),
{
    reveal_strlit("-webkit-flex-wrap");
    reveal_with_fuel(name_chars_from, 19);
}

proof fn lemma_lookup_chars_37()
    ensures
        name_chars_from(lookup_name(37), 0),
{
    reveal_strlit("-webkit-justify-content");
    reveal_with_fuel(name_chars_from, 25);
}

proof fn lemma_lookup_chars_38()
    ensures
        name_chars_from(lookup_name(38), 0),
{
    reveal_strlit("-webkit-line-clamp");
    reveal_with_fuel(name_chars_from, 20);
}

proof fn lemma_lookup_chars_39()
    ensures
        name_chars_from(lookup_name(39), 0),
{
    reveal_strlit("-webkit-mask");
    reveal_with_fuel(name_chars_from, 14);
}

proof fn lemma_lookup_chars_40()
    ensures
        name_chars_from(lookup_name(40), 0),
{
    reveal_strlit("-webkit-mask-box-image");
    reveal_with_fuel(name_chars_from, 24);
}

proof fn lemma_lookup_chars_41()
    ensures
        name_chars_from(lookup_name(41), 0),
{
    reveal_strlit("-webkit-mask-box-image-outset");
    reveal_with_fuel(name_chars_from, 31);
}

proof fn lemma_lookup_chars_42()
    ensures
        name_chars_from(lookup_name(42), 0),
{
    reveal_strlit("-webkit-mask-box-image-repeat");
    reveal_with_fuel(name_chars_from, 31);
}

proof fn lemma_lookup_chars_43()
    ensures
        name_chars_from(lookup_name(43), 0),
{
    reveal_strlit("-webkit-mask-box-image-slice");
    reveal_with_fuel(name_chars_from, 30);
}

proof fn lemma_lookup_chars_44()
    ensures
        name_chars_from(lookup_name(44), 0),
{
    reveal_strlit("-webkit-mask-box-image-source");
    reveal_with_fuel(name_chars_from, 31);
}

proof fn lemma_lookup_chars_45()
    ensures
        name_chars_from(lookup_name(45), 0),
{
    reveal_strlit("-webkit-mask-box-image-width");
    reveal_with_fuel(name_chars_from, 30);
}

proof fn lemma_lookup_chars_46()
    ensures
        name_chars_from(lookup_name(46), 0),
{
    reveal_strlit("-webkit-mask-clip");
    reveal_with_fuel(name_chars_from, 19);
}

proof fn lemma_lookup_chars_47()
    ensures
        name_chars_from(lookup_name(47), 0),
{
    reveal_strlit("-webkit-mask-composite");
    reveal_with_fuel(name_chars_from, 24);
}

proof fn lemma_lookup_chars_48()
    ensures
        name_chars_from(lookup_name(48), 0),
{
    reveal_strlit("-webkit-mask-image");
    reveal_with_fuel(name_chars_from, 20);
}

proof fn lemma_lookup_chars_49()
    ensures
        name_chars_from(lookup_name(49), 0),
{
    reveal_strlit("-webkit-mask-origin");
    reveal_with_fuel(name_chars_from, 21);
}

proof fn lemma_lookup_chars_50()
    ensures
        name_chars_from(lookup_name(50), 0),
{
    reveal_strlit("-webkit-mask-position");
    reveal_with_fuel(name_chars_from, 23);
}

proof fn lemma_lookup_chars_51()
    ensures
        name_chars_from(lookup_name(51), 0),
{
    reveal_strlit("-webkit-mask-repeat");
    reveal_with_fuel(name_chars_from, 21);
}

proof fn lemma_lookup_chars_52()
    ensures
        name_chars_from(lookup_name(52), 0),
{
    reveal_strlit("-webkit-mask-size");
    reveal_with_fuel(name_chars_from, 19);
}

proof fn lemma_lookup_chars_53()
    ensures
        name_chars_from(lookup_name(53), 0),
{
    reveal_strlit("-webkit-order");
    reveal_with_fuel(name_chars_from, 15);
}

proof fn lemma_lookup_chars_54()
    ensures
        name_chars_from(lookup_name(54), 0),
{
    reveal_strlit("-webkit-perspective");
    reveal_with_fuel(name_chars_from, 21);
}

proof fn lemma_lookup_chars_55()
    ensures
        name_chars_from(lookup_name(55), 0),
{
    reveal_strlit("-webkit-perspective-origin");
    reveal_with_fuel(name_chars_from, 28);
}

proof fn lemma_lookup_chars_56()
    ensures
        name_chars_from(lookup_name(56), 0),
{
    reveal_strlit("-webkit-text-fill-color");
    reveal_with_fuel(name_chars_from, 25);
}

proof fn lemma_lookup_chars_57()
    ensures
        name_chars_from(lookup_name(57), 0),
{
    reveal_strlit("-webkit-text-size-adjust");
    reveal_with_fuel(name_chars_from, 26);
}

proof fn lemma_lookup_chars_58()
    ensures
        name_chars_from(lookup_name(58), 0),
{
    reveal_strlit("-webkit-text-stroke");
    reveal_with_fuel(name_chars_from, 21);
}

proof fn lemma_lookup_chars_59()
    ensures
        name_chars_from(lookup_name(59), 0),
{
    reveal_strlit("-webkit-text-stroke-color");
    reveal_with_fuel(name_chars_from, 27);
}

proof fn lemma_lookup_chars_60()
    ensures
        name_chars_from(lookup_name(60), 0),
{
    reveal_strlit("-webkit-text-stroke-width");
    reveal_with_fuel(name_chars_from, 27);
}

proof fn lemma_lookup_chars_61()
    ensures
        name_chars_from(lookup_name(61), 0),
{
    reveal_strlit("-webkit-transform");
    reveal_with_fuel(name_chars_from, 19);
}

proof fn lemma_lookup_chars_62()
    ensures
        name_chars_from(lookup_name(62), 0),
{
    reveal_strlit("-webkit-transform-origin");
    reveal_with_fuel(name_chars_from, 26);
}

proof fn lemma_lookup_chars_63()
    ensures
        name_chars_from(lookup_name(63), 0),
{
    reveal_strlit("-webkit-transform-style");
    reveal_with_fuel(name_chars_from, 25);
}

proof fn lemma_lookup_chars_64()
    ensures
        name_chars_from(lookup_name(64), 0),
{
    reveal_strlit("-webkit-transition");
    reveal_with_fuel(name_chars_from, 20);
}

proof fn lemma_lookup_chars_65()
    ensures
        name_chars_from(lookup_name(65), 0),
{
    reveal_strlit("-webkit-transition-delay");
    reveal_with_fuel(name_chars_from, 26);
}

proof fn lemma_lookup_chars_66()
    ensures
        name_chars_from(lookup_name(66), 0),
{
    reveal_strlit("-webkit-transition-duration");
    reveal_with_fuel(name_chars_from, 29);
}

proof fn lemma_lookup_chars_67()
    ensures
        name_chars_from(lookup_name(67), 0),
{
    reveal_strlit("-webkit-transition-property");
    reveal_with_fuel(name_chars_from, 29);
}

proof fn lemma_lookup_chars_68()
    ensures
        name_chars_from(lookup_name(68), 0),
{
    reveal_strlit("-webkit-transition-timing-function");
    reveal_with_fuel(name_chars_from, 36);
}

proof fn lemma_lookup_chars_69()
    ensures
        name_chars_from(lookup_name(69), 0),
{
    reveal_strlit("-webkit-user-select");
    reveal_with_fuel(name_chars_from, 21);
}

proof fn lemma_lookup_chars_70()
    ensures
        name_chars_from(lookup_name(70), 0),
{
    reveal_strlit("accent-color");
    reveal_with_fuel(name_chars_from, 14);
}

proof fn lemma_lookup_chars_71()
    ensures
        name_chars_from(lookup_name(71), 0),
{
    reveal_strlit("align-content");
    reveal_with_fuel(name_chars_from, 15);
}

proof fn lemma_lookup_chars_72()
    ensures
        name_chars_from(lookup_name(72), 0),
{
    reveal_strlit("align-items");
    reveal_with_fuel(name_chars_from, 13);
}

proof fn lemma_lookup_chars_73()
    ensures
        name_chars_from(lookup_name(73), 0),
{
    reveal_strlit("align-self");
    reveal_with_fuel(name_chars_from, 12);
}

proof fn lemma_lookup_chars_74()
    ensures
        name_chars_from(lookup_name(74), 0),
{
    reveal_strlit("alignment-baseline");
    reveal_with_fuel(name_chars_from, 20);
}

proof fn lemma_lookup_chars_75()
    ensures
        name_chars_from(lookup_name(75), 0),
{
    reveal_strlit("all");
    reveal_with_fuel(name_chars_from, 5);
}

proof fn lemma_lookup_chars_76()
    ensures
        name_chars_from(lookup_name(76), 0),
{
    reveal_strlit("anchor-name");
    reveal_with_fuel(name_chars_from, 13);
}

proof fn lemma_lookup_chars_77()
    ensures
        name_chars_from(lookup_name(77), 0),
{
    reveal_strlit("anchor-scope");
    reveal_with_fuel(name_chars_from, 14);
}

proof fn lemma_lookup_chars_78()
    ensures
        name_chars_from(lookup_name(78), 0),
{
    reveal_strlit("animation");
    reveal_with_fuel(name_chars_from, 11);
}

proof fn lemma_lookup_chars_79()
    ensures
        name_chars_from(lookup_name(79), 0),
{
    reveal_strlit("animation-composition");
    reveal_with_fuel(name_chars_from, 23);
}

proof fn lemma_lookup_chars_80()
    ensures
        name_chars_from(lookup_name(80), 0),
{
    reveal_strlit("animation-delay");
    reveal_with_fuel(name_chars_from, 17);
}

proof fn lemma_lookup_chars_81()
    ensures
        name_chars_from(lookup_name(81), 0),
{
    reveal_strlit("animation-direction");
    reveal_with_fuel(name_chars_from, 21);
}

proof fn lemma_lookup_chars_82()
    ensures
        name_chars_from(lookup_name(82), 0),
{
    reveal_strlit("animation-duration");
    reveal_with_fuel(name_chars_from, 20);
}

proof fn lemma_lookup_chars_83()
    ensures
        name_chars_from(lookup_name(83), 0),
{
    reveal_strlit("animation-fill-mode");
    reveal_with_fuel(name_chars_from, 21);
}

proof fn lemma_lookup_chars_84()
    ensures
        name_chars_from(lookup_name(84), 0),
{
    reveal_strlit("animation-iteration-count");
    reveal_with_fuel(name_chars_from, 27);
}

proof fn lemma_lookup_chars_85()
    ensures
        name_chars_from(lookup_name(85), 0),
{
    reveal_strlit("animation-name");
    reveal_with_fuel(name_chars_from, 16);
}

proof fn lemma_lookup_chars_86()
    ensures
        name_chars_from(lookup_name(86), 0),
{
    reveal_strlit("animation-play-state");
    reveal_with_fuel(name_chars_from, 22);
}

proof fn lemma_lookup_chars_87()
    ensures
        name_chars_from(lookup_name(87), 0),
{
    reveal_strlit("animation-range");
    reveal_with_fuel(name_chars_from, 17);
}

proof fn lemma_lookup_chars_88()
    ensures
        name_chars_from(lookup_name(88), 0),
{
    reveal_strlit("animation-range-center");
    reveal_with_fuel(name_chars_from, 24);
}

proof fn lemma_lookup_chars_89()
    ensures
        name_chars_from(lookup_name(89), 0),
{
    reveal_strlit("animation-range-end");
    reveal_with_fuel(name_chars_from, 21);
}

proof fn lemma_lookup_chars_90()
    ensures
        name_chars_from(lookup_name(90), 0),
{
    reveal_strlit("animation-range-start");
    reveal_with_fuel(name_chars_from, 23);
}

proof fn lemma_lookup_chars_91()
    ensures
        name_chars_from(lookup_name(91), 0),
{
    reveal_strlit("animation-timeline");
    reveal_with_fuel(name_chars_from, 20);
}

proof fn lemma_lookup_chars_92()
    ensures
        name_chars_from(lookup_name(92), 0),
{
    reveal_strlit("animation-timing-function");
    reveal_with_fuel(name_chars_from, 27);
}

proof fn lemma_lookup_chars_93()
    ensures
        name_chars_from(lookup_name(93), 0),
{
    reveal_strlit("animation-trigger");
    reveal_with_fuel(name_chars_from, 19);
}

proof fn lemma_lookup_chars_94()
    ensures
        name_chars_from(lookup_name(94), 0),
{
    reveal_strlit("appearance");
    reveal_with_fuel(name_chars_from, 12);
}

proof fn lemma_lookup_chars_95()
    ensures
        name_chars_from(lookup_name(95), 0),
{
    reveal_strlit("aspect-ratio");
    reveal_with_fuel(name_chars_from, 14);
}

proof fn lemma_lookup_chars_96()
    ensures
        name_chars_from(lookup_name(96), 0),
{
    reveal_strlit("backdrop-filter");
    reveal_with_fuel(name_chars_from, 17);
}

proof fn lemma_lookup_chars_97()
    ensures
        name_chars_from(lookup_name(97), 0),
{
    reveal_strlit("backface-visibility");
    reveal_with_fuel(name_chars_from, 21);
}

proof fn lemma_lookup_chars_98()
    ensures
        name_chars_from(lookup_name(98), 0),
{
    reveal_strlit("background");
    reveal_with_fuel(name_chars_from, 12);
}

proof fn lemma_lookup_chars_99()
    ensures
        name_chars_from(lookup_name(99), 0),
{
    reveal_strlit("background-attachment");
    reveal_with_fuel(name_chars_from, 23);
}

proof fn lemma_lookup_chars_100()
    ensures
        name_chars_from(lookup_name(100), 0),
{
    reveal_strlit("background-blend-mode");
    reveal_with_fuel(name_chars_from, 23);
}

proof fn lemma_lookup_chars_101()
    ensures
        name_chars_from(lookup_name(101), 0),
{
    reveal_strlit("background-clip");
    reveal_with_fuel(name_chars_from, 17);
}

proof fn lemma_lookup_chars_102()
    ensures
        name_chars_from(lookup_name(102), 0),
{
    reveal_strlit("background-color");
    reveal_with_fuel(name_chars_from, 18);
}

proof fn lemma_lookup_chars_103()
    ensures
        name_chars_from(lookup_name(103), 0),
{
    reveal_strlit("background-image");
    reveal_with_fuel(name_chars_from, 18);
}

proof fn lemma_lookup_chars_104()
    ensures
        name_chars_from(lookup_name(104), 0),
{
    reveal_strlit("background-origin");
    reveal_with_fuel(name_chars_from, 19);
}

proof fn lemma_lookup_chars_105()
    ensures
        name_chars_from(lookup_name(105), 0),
{
    reveal_strlit("background-position");
    reveal_with_fuel(name_chars_from, 21);
}

proof fn lemma_lookup_chars_106()
    ensures
        name_chars_from(lookup_name(106), 0),
{
    reveal_strlit("background-position-block");
    reveal_with_fuel(name_chars_from, 27);
}

proof fn lemma_lookup_chars_107()
    ensures
        name_chars_from(lookup_name(107), 0),
{
    reveal_strlit("background-position-inline");
    reveal_with_fuel(name_chars_from, 28);
}

proof fn lemma_lookup_chars_108()
    ensures
        name_chars_from(lookup_name(108), 0),
{
    reveal_strlit("background-position-x");
    reveal_with_fuel(name_chars_from, 23);
}

proof fn lemma_lookup_chars_109()
    ensures
        name_chars_from(lookup_name(109), 0),
{
    reveal_strlit("background-position-y");
    reveal_with_fuel(name_chars_from, 23);
}

proof fn lemma_lookup_chars_110()
    ensures
        name_chars_from(lookup_name(110), 0),
{
    reveal_strlit("background-repeat");
    reveal_with_fuel(name_chars_from, 19);
}

proof fn lemma_lookup_chars_111()
    ensures
        name_chars_from(lookup_name(111), 0),
{
    reveal_strlit("background-repeat-block");
    reveal_with_fuel(name_chars_from, 25);
}

proof fn lemma_lookup_chars_112()
    ensures
        name_chars_from(lookup_name(112), 0),
{
    reveal_strlit("background-repeat-inline");
    reveal_with_fuel(name_chars_from, 26);
}

proof fn lemma_lookup_chars_113()
    ensures
        name_chars_from(lookup_name(113), 0),
{
    reveal_strlit("background-repeat-x");
    reveal_with_fuel(name_chars_from, 21);
}

proof fn lemma_lookup_chars_114()
    ensures
        name_chars_from(lookup_name(114), 0),
{
    reveal_strlit("background-repeat-y");
    reveal_with_fuel(name_chars_from, 21);
}

proof fn lemma_lookup_chars_115()
    ensures
        name_chars_from(lookup_name(115), 0),
{
    reveal_strlit("background-size");
    reveal_with_fuel(name_chars_from, 17);
}

proof fn lemma_lookup_chars_116()
    ensures
        name_chars_from(lookup_name(116), 0),
{
    reveal_strlit("background-tbd");
    reveal_with_fuel(name_chars_from, 16);
}

proof fn lemma_lookup_chars_117()
    ensures
        name_chars_from(lookup_name(117), 0),
{
    reveal_strlit("baseline-shift");
    reveal_with_fuel(name_chars_from, 16);
}

proof fn lemma_lookup_chars_118()
    ensures
        name_chars_from(lookup_name(118), 0),
{
    reveal_strlit("baseline-source");
    reveal_with_fuel(name_chars_from, 17);
}

proof fn lemma_lookup_chars_119()
    ensures
        name_chars_from(lookup_name(119), 0),
{
    reveal_strlit("block-ellipsis");
    reveal_with_fuel(name_chars_from, 16);
}

proof fn lemma_lookup_chars_120()
    ensures
        name_chars_from(lookup_name(120), 0),
{
    reveal_strlit("block-size");
    reveal_with_fuel(name_chars_from, 12);
}

proof fn lemma_lookup_chars_121()
    ensures
        name_chars_from(lookup_name(121), 0),
{
    reveal_strlit("block-step");
    reveal_with_fuel(name_chars_from, 12);
}

proof fn lemma_lookup_chars_122()
    ensures
        name_chars_from(lookup_name(122), 0),
{
    reveal_strlit("block-step-align");
    reveal_with_fuel(name_chars_from, 18);
}

proof fn lemma_lookup_chars_123()
    ensures
        name_chars_from(lookup_name(123), 0),
{
    reveal_strlit("block-step-insert");
    reveal_with_fuel(name_chars_from, 19);
}

proof fn lemma_lookup_chars_124()
    ensures
        name_chars_from(lookup_name(124), 0),
{
    reveal_strlit("block-step-round");
    reveal_with_fuel(name_chars_from, 18);
}

proof fn lemma_lookup_chars_125()
    ensures
        name_chars_from(lookup_name(125), 0),
{
    reveal_strlit("block-step-size");
    reveal_with_fuel(name_chars_from, 17);
}

proof fn lemma_lookup_chars_126()
    ensures
        name_chars_from(lookup_name(126), 0),
{
    reveal_strlit("bookmark-label");
    reveal_with_fuel(name_chars_from, 16);
}

proof fn lemma_lookup_chars_127()
    ensures
        name_chars_from(lookup_name(127), 0),
{
    reveal_strlit("bookmark-level");
    reveal_with_fuel(name_chars_from, 16);
}

proof fn lemma_lookup_chars_128()
    ensures
        name_chars_from(lookup_name(128), 0),
{
    reveal_strlit("bookmark-state");
    reveal_with_fuel(name_chars_from, 16);
}

proof fn lemma_lookup_chars_129()
    ensures
        name_chars_from(lookup_name(129), 0),
{
    reveal_strlit("border");
    reveal_with_fuel(name_chars_from, 8);
}

proof fn lemma_lookup_chars_130()
    ensures
        name_chars_from(lookup_name(130), 0),
{
    reveal_strlit("border-block");
    reveal_with_fuel(name_chars_from, 14);
}

proof fn lemma_lookup_chars_131()
    ensures
        name_chars_from(lookup_name(131), 0),
{
    reveal_strlit("border-block-clip");
    reveal_with_fuel(name_chars_from, 19);
}

proof fn lemma_lookup_chars_132()
    ensures
        name_chars_from(lookup_name(132), 0),
{
    reveal_strlit("border-block-color");
    reveal_with_fuel(name_chars_from, 20);
}

proof fn lemma_lookup_chars_133()
    ensures
        name_chars_from(lookup_name(133), 0),
{
    reveal_strlit("border-block-end");
    reveal_with_fuel(name_chars_from, 18);
}

proof fn lemma_lookup_chars_134()
    ensures
        name_chars_from(lookup_name(134), 0),
{
    reveal_strlit("border-block-end-clip");
    reveal_with_fuel(name_chars_from, 23);
}

proof fn lemma_lookup_chars_135()
    ensures
        name_chars_from(lookup_name(135), 0),
{
    reveal_strlit("border-block-end-color");
    reveal_with_fuel(name_chars_from, 24);
}

proof fn lemma_lookup_chars_136()
    ensures
        name_chars_from(lookup_name(136), 0),
{
    reveal_strlit("border-block-end-radius");
    reveal_with_fuel(name_chars_from, 25);
}

proof fn lemma_lookup_chars_137()
    ensures
        name_chars_from(lookup_name(137), 0),
{
    reveal_strlit("border-block-end-style");
    reveal_with_fuel(name_chars_from, 24);
}

proof fn lemma_lookup_chars_138()
    ensures
        name_chars_from(lookup_name(138), 0),
{
    reveal_strlit("border-block-end-width");
    reveal_with_fuel(name_chars_from, 24);
}

proof fn lemma_lookup_chars_139()
    ensures
        name_chars_from(lookup_name(139), 0),
{
    reveal_strlit("border-block-start");
    reveal_with_fuel(name_chars_from, 20);
}

proof fn lemma_lookup_chars_140()
    ensures
        name_chars_from(lookup_name(140), 0),
{
    reveal_strlit("border-block-start-clip");
    reveal_with_fuel(name_chars_from, 25);
}

proof fn lemma_lookup_chars_141()
    ensures
        name_chars_from(lookup_name(141), 0),
{
    reveal_strlit("border-block-start-color");
    reveal_with_fuel(name_chars_from, 26);
}

proof fn lemma_lookup_chars_142()
    ensures
        name_chars_from(lookup_name(142), 0),
{
    reveal_strlit("border-block-start-radius");
    reveal_with_fuel(name_chars_from, 27);
}

proof fn lemma_lookup_chars_143()
    ensures
        name_chars_from(lookup_name(143), 0),
{
    reveal_strlit("border-block-start-style");
    reveal_with_fuel(name_chars_from, 26);
}

proof fn lemma_lookup_chars_144()
    ensures
        name_chars_from(lookup_name(144), 0),
{
    reveal_strlit("border-block-start-width");
    reveal_with_fuel(name_chars_from, 26);
}

proof fn lemma_lookup_chars_145()
    ensures
        name_chars_from(lookup_name(145), 0),
{
    reveal_strlit("border-block-style");
    reveal_with_fuel(name_chars_from, 20);
}

proof fn lemma_lookup_chars_146()
    ensures
        name_chars_from(lookup_name(146), 0),
{
    reveal_strlit("border-block-width");
    reveal_with_fuel(name_chars_from, 20);
}

proof fn lemma_lookup_chars_147()
    ensures
        name_chars_from(lookup_name(147), 0),
{
    reveal_strlit("border-bottom");
    reveal_with_fuel(name_chars_from, 15);
}

proof fn lemma_lookup_chars_148()
    ensures
        name_chars_from(lookup_name(148), 0),
{
    reveal_strlit("border-bottom-clip");
    reveal_with_fuel(name_chars_from, 20);
}

proof fn lemma_lookup_chars_149()
    ensures
        name_chars_from(lookup_name(149), 0),
{
    reveal_strlit("border-bottom-color");
    reveal_with_fuel(name_chars_from, 21);
}

proof fn lemma_lookup_chars_150()
    ensures
        name_chars_from(lookup_name(150), 0),
{
    reveal_strlit("border-bottom-left-radius");
    reveal_with_fuel(name_chars_from, 27);
}

proof fn lemma_lookup_chars_151()
    ensures
        name_chars_from(lookup_name(151), 0),
{
    reveal_strlit("border-bottom-radius");
    reveal_with_fuel(name_chars_from, 22);
}

proof fn lemma_lookup_chars_152()
    ensures
        name_chars_from(lookup_name(152), 0),
{
    reveal_strlit("border-bottom-right-radius");
    reveal_with_fuel(name_chars_from, 28);
}

proof fn lemma_lookup_chars_153()
    ensures
        name_chars_from(lookup_name(153), 0),
{
    reveal_strlit("border-bottom-style");
    reveal_with_fuel(name_chars_from, 21);
}

proof fn lemma_lookup_chars_154()
    ensures
        name_chars_from(lookup_name(154), 0),
{
    reveal_strlit("border-bottom-width");
    reveal_with_fuel(name_chars_from, 21);
}

proof fn lemma_lookup_chars_155()
    ensures
        name_chars_from(lookup_name(155), 0),
{
    reveal_strlit("border-boundary");
    reveal_with_fuel(name_chars_from, 17);
}

proof fn lemma_lookup_chars_156()
    ensures
        name_chars_from(lookup_name(156), 0),
{
    reveal_strlit("border-clip");
    reveal_with_fuel(name_chars_from, 13);
}

proof fn lemma_lookup_chars_157()
    ensures
        name_chars_from(lookup_name(157), 0),
{
    reveal_strlit("border-collapse");
    reveal_with_fuel(name_chars_from, 17);
}

proof fn lemma_lookup_chars_158()
    ensures
        name_chars_from(lookup_name(158), 0),
{
    reveal_strlit("border-color");
    reveal_with_fuel(name_chars_from, 14);
}

proof fn lemma_lookup_chars_159()
    ensures
        name_chars_from(lookup_name(159), 0),
{
    reveal_strlit("border-end-end-radius");
    reveal_with_fuel(name_chars_from, 23);
}

proof fn lemma_lookup_chars_160()
    ensures
        name_chars_from(lookup_name(160), 0),
{
    reveal_strlit("border-end-start-radius");
    reveal_with_fuel(name_chars_from, 25);
}

proof fn lemma_lookup_chars_161()
    ensures
        name_chars_from(lookup_name(161), 0),
{
    reveal_strlit("border-image");
    reveal_with_fuel(name_chars_from, 14);
}

proof fn lemma_lookup_chars_162()
    ensures
        name_chars_from(lookup_name(162), 0),
{
    reveal_strlit("border-image-outset");
    reveal_with_fuel(name_chars_from, 21);
}

proof fn lemma_lookup_chars_163()
    ensures
        name_chars_from(lookup_name(163), 0),
{
    reveal_strlit("border-image-repeat");
    reveal_with_fuel(name_chars_from, 21);
}

proof fn lemma_lookup_chars_164()
    ensures
        name_chars_from(lookup_name(164), 0),
{
    reveal_strlit("border-image-slice");
    reveal_with_fuel(name_chars_from, 20);
}

proof fn lemma_lookup_chars_165()
    ensures
        name_chars_from(lookup_name(165), 0),
{
    reveal_strlit("border-image-source");
    reveal_with_fuel(name_chars_from, 21);
}

proof fn lemma_lookup_chars_166()
    ensures
        name_chars_from(lookup_name(166), 0),
{
    reveal_strlit("border-image-width");
    reveal_with_fuel(name_chars_from, 20);
}

proof fn lemma_lookup_chars_167()
    ensures
        name_chars_from(lookup_name(167), 0),
{
    reveal_strlit("border-inline");
    reveal_with_fuel(name_chars_from, 15);
}

proof fn lemma_lookup_chars_168()
    ensures
        name_chars_from(lookup_name(168), 0),
{
    reveal_strlit("border-inline-clip");
    reveal_with_fuel(name_chars_from, 20);
}

proof fn lemma_lookup_chars_169()
    ensures
        name_chars_from(lookup_name(169), 0),
{
    reveal_strlit("border-inline-color");
    reveal_with_fuel(name_chars_from, 21);
}

proof fn lemma_lookup_chars_170()
    ensures
        name_chars_from(lookup_name(170), 0),
{
    reveal_strlit("border-inline-end");
    reveal_with_fuel(name_chars_from, 19);
}

proof fn lemma_lookup_chars_171()
    ensures
        name_chars_from(lookup_name(171), 0),
{
    reveal_strlit("border-inline-end-clip");
    reveal_with_fuel(name_chars_from, 24);
}

proof fn lemma_lookup_chars_172()
    ensures
        name_chars_from(lookup_name(172), 0),
{
    reveal_strlit("border-inline-end-color");
    reveal_with_fuel(name_chars_from, 25);
}

proof fn lemma_lookup_chars_173()
    ensures
        name_chars_from(lookup_name(173), 0),
{
    reveal_strlit("border-inline-end-radius");
    reveal_with_fuel(name_chars_from, 26);
}

proof fn lemma_lookup_chars_174()
    ensures
        name_chars_from(lookup_name(174), 0),
{
    reveal_strlit("border-inline-end-style");
    reveal_with_fuel(name_chars_from, 25);
}

proof fn lemma_lookup_chars_175()
    ensures
        name_chars_from(lookup_name(175), 0),
{
    reveal_strlit("border-inline-end-width");
    reveal_with_fuel(name_chars_from, 25);
}

proof fn lemma_lookup_chars_176()
    ensures
        name_chars_from(lookup_name(176), 0),
{
    reveal_strlit("border-inline-start");
    reveal_with_fuel(name_chars_from, 21);
}

proof fn lemma_lookup_chars_177()
    ensures
        name_chars_from(lookup_name(177), 0),
{
    reveal_strlit("border-inline-start-clip");
    reveal_with_fuel(name_chars_from, 26);
}

proof fn lemma_lookup_chars_178()
    ensures
        name_chars_from(lookup_name(178), 0),
{
    reveal_strlit("border-inline-start-color");
    reveal_with_fuel(name_chars_from, 27);
}

proof fn lemma_lookup_chars_179()
    ensures
        name_chars_from(lookup_name(179), 0),
{
    reveal_strlit("border-inline-start-radius");
    reveal_with_fuel(name_chars_from, 28);
}

proof fn lemma_lookup_chars_180()
    ensures
        name_chars_from(lookup_name(180), 0),
{
    reveal_strlit("border-inline-start-style");
    reveal_with_fuel(name_chars_from, 27);
}

proof fn lemma_lookup_chars_181()
    ensures
        name_chars_from(lookup_name(181), 0),
{
    reveal_strlit("border-inline-start-width");
    reveal_with_fuel(name_chars_from, 27);
}

proof fn lemma_lookup_chars_182()
    ensures
        name_chars_from(lookup_name(182), 0),
{
    reveal_strlit("border-inline-style");
    reveal_with_fuel(name_chars_from, 21);
}

proof fn lemma_lookup_chars_183()
    ensures
        name_chars_from(lookup_name(183), 0),
{
    reveal_strlit("border-inline-width");
    reveal_with_fuel(name_chars_from, 21);
}

proof fn lemma_lookup_chars_184()
    ensures
        name_chars_from(lookup_name(184), 0),
{
    reveal_strlit("border-left");
    reveal_with_fuel(name_chars_from, 13);
}

proof fn lemma_lookup_chars_185()
    ensures
        name_chars_from(lookup_name(185), 0),
{
    reveal_strlit("border-left-clip");
    reveal_with_fuel(name_chars_from, 18);
}

proof fn lemma_lookup_chars_186()
    ensures
        name_chars_from(lookup_name(186), 0),
{
    reveal_strlit("border-left-color");
    reveal_with_fuel(name_chars_from, 19);
}

proof fn lemma_lookup_chars_187()
    ensures
        name_chars_from(lookup_name(187), 0),
{
    reveal_strlit("border-left-radius");
    reveal_with_fuel(name_chars_from, 20);
}

proof fn lemma_lookup_chars_188()
    ensures
        name_chars_from(lookup_name(188), 0),
{
    reveal_strlit("border-left-style");
    reveal_with_fuel(name_chars_from, 19);
}

proof fn lemma_lookup_chars_189()
    ensures
        name_chars_from(lookup_name(189), 0),
{
    reveal_strlit("border-left-width");
    reveal_with_fuel(name_chars_from, 19);
}

proof fn lemma_lookup_chars_190()
    ensures
        name_chars_from(lookup_name(190), 0),
{
    reveal_strlit("border-limit");
    reveal_with_fuel(name_chars_from, 14);
}

proof fn lemma_lookup_chars_191()
    ensures
        name_chars_from(lookup_name(191), 0),
{
    reveal_strlit("border-radius");
    reveal_with_fuel(name_chars_from, 15);
}

proof fn lemma_lookup_chars_192()
    ensures
        name_chars_from(lookup_name(192), 0),
{
    reveal_strlit("border-right");
    reveal_with_fuel(name_chars_from, 14);
}

proof fn lemma_lookup_chars_193()
    ensures
        name_chars_from(lookup_name(193), 0),
{
    reveal_strlit("border-right-clip");
    reveal_with_fuel(name_chars_from, 19);
}

proof fn lemma_lookup_chars_194()
    ensures
        name_chars_from(lookup_name(194), 0),
{
    reveal_strlit("border-right-color");
    reveal_with_fuel(name_chars_from, 20);
}

proof fn lemma_lookup_chars_195()
    ensures
        name_chars_from(lookup_name(195), 0),
{
    reveal_strlit("border-right-radius");
    reveal_with_fuel(name_chars_from, 21);
}

proof fn lemma_lookup_chars_196()
    ensures
        name_chars_from(lookup_name(196), 0),
{
    reveal_strlit("border-right-style");
    reveal_with_fuel(name_chars_from, 20);
}

proof fn lemma_lookup_chars_197()
    ensures
        name_chars_from(lookup_name(197), 0),
{
    reveal_strlit("border-right-width");
    reveal_with_fuel(name_chars_from, 20);
}

proof fn lemma_lookup_chars_198()
    ensures
        name_chars_from(lookup_name(198), 0),
{
    reveal_strlit("border-shape");
    reveal_with_fuel(name_chars_from, 14);
}

proof fn lemma_lookup_chars_199()
    ensures
        name_chars_from(lookup_name(199), 0),
{
    reveal_strlit("border-spacing");
    reveal_with_fuel(name_chars_from, 16);
}

proof fn lemma_lookup_chars_200()
    ensures
        name_chars_from(lookup_name(200), 0),
{
    reveal_strlit("border-start-end-radius");
    reveal_with_fuel(name_chars_from, 25);
}

proof fn lemma_lookup_chars_201()
    ensures
        name_chars_from(lookup_name(201), 0),
{
    reveal_strlit("border-start-start-radius");
    reveal_with_fuel(name_chars_from, 27);
}

proof fn lemma_lookup_chars_202()
    ensures
        name_chars_from(lookup_name(202), 0),
{
    reveal_strlit("border-style");
    reveal_with_fuel(name_chars_from, 14);
}

proof fn lemma_lookup_chars_203()
    ensures
        name_chars_from(lookup_name(203), 0),
{
    reveal_strlit("border-top");
    reveal_with_fuel(name_chars_from, 12);
}

proof fn lemma_lookup_chars_204()
    ensures
        name_chars_from(lookup_name(204), 0),
{
    reveal_strlit("border-top-clip");
    reveal_with_fuel(name_chars_from, 17);
}

proof fn lemma_lookup_chars_205()
    ensures
        name_chars_from(lookup_name(205), 0),
{
    reveal_strlit("border-top-color");
    reveal_with_fuel(name_chars_from, 18);
}

proof fn lemma_lookup_chars_206()
    ensures
        name_chars_from(lookup_name(206), 0),
{
    reveal_strlit("border-top-left-radius");
    reveal_with_fuel(name_chars_from, 24);
}

proof fn lemma_lookup_chars_207()
    ensures
        name_chars_from(lookup_name(207), 0),
{
    reveal_strlit("border-top-radius");
    reveal_with_fuel(name_chars_from, 19);
}

proof fn lemma_lookup_chars_208()
    ensures
        name_chars_from(lookup_name(208), 0),
{
    reveal_strlit("border-top-right-radius");
    reveal_with_fuel(name_chars_from, 25);
}

proof fn lemma_lookup_chars_209()
    ensures
        name_chars_from(lookup_name(209), 0),
{
    reveal_strlit("border-top-style");
    reveal_with_fuel(name_chars_from, 18);
}

proof fn lemma_lookup_chars_210()
    ensures
        name_chars_from(lookup_name(210), 0),
{
    reveal_strlit("border-top-width");
    reveal_with_fuel(name_chars_from, 18);
}

proof fn lemma_lookup_chars_211()
    ensures
        name_chars_from(lookup_name(211), 0),
{
    reveal_strlit("border-width");
    reveal_with_fuel(name_chars_from, 14);
}

proof fn lemma_lookup_chars_212()
    ensures
        name_chars_from(lookup_name(212), 0),
{
    reveal_strlit("bottom");
    reveal_with_fuel(name_chars_from, 8);
}

proof fn lemma_lookup_chars_213()
    ensures
        name_chars_from(lookup_name(213), 0),
{
    reveal_strlit("box-decoration-break");
    reveal_with_fuel(name_chars_from, 22);
}

proof fn lemma_lookup_chars_214()
    ensures
        name_chars_from(lookup_name(214), 0),
{
    reveal_strlit("box-shadow");
    reveal_with_fuel(name_chars_from, 12);
}

proof fn lemma_lookup_chars_215()
    ensures
        name_chars_from(lookup_name(215), 0),
{
    reveal_strlit("box-shadow-blur");
    reveal_with_fuel(name_chars_from, 17);
}

proof fn lemma_lookup_chars_216()
    ensures
        name_chars_from(lookup_name(216), 0),
{
    reveal_strlit("box-shadow-color");
    reveal_with_fuel(name_chars_from, 18);
}

proof fn lemma_lookup_chars_217()
    ensures
        name_chars_from(lookup_name(217), 0),
{
    reveal_strlit("box-shadow-offset");
    reveal_with_fuel(name_chars_from, 19);
}

proof fn lemma_lookup_chars_218()
    ensures
        name_chars_from(lookup_name(218), 0),
{
    reveal_strlit("box-shadow-position");
    reveal_with_fuel(name_chars_from, 21);
}

proof fn lemma_lookup_chars_219()
    ensures
        name_chars_from(lookup_name(219), 0),
{
    reveal_strlit("box-shadow-spread");
    reveal_with_fuel(name_chars_from, 19);
}

proof fn lemma_lookup_chars_220()
    ensures
        name_chars_from(lookup_name(220), 0),
{
    reveal_strlit("box-sizing");
    reveal_with_fuel(name_chars_from, 12);
}

proof fn lemma_lookup_chars_221()
    ensures
        name_chars_from(lookup_name(221), 0),
{
    reveal_strlit("box-snap");
    reveal_with_fuel(name_chars_from, 10);
}

proof fn lemma_lookup_chars_222()
    ensures
        name_chars_from(lookup_name(222), 0),
{
    reveal_strlit("break-after");
    reveal_with_fuel(name_chars_from, 13);
}

proof fn lemma_lookup_chars_223()
    ensures
        name_chars_from(lookup_name(223), 0),
{
    reveal_strlit("break-before");
    reveal_with_fuel(name_chars_from, 14);
}

proof fn lemma_lookup_chars_224()
    ensures
        name_chars_from(lookup_name(224), 0),
{
    reveal_strlit("break-inside");
    reveal_with_fuel(name_chars_from, 14);
}

proof fn lemma_lookup_chars_225()
    ensures
        name_chars_from(lookup_name(225), 0),
{
    reveal_strlit("caption-side");
    reveal_with_fuel(name_chars_from, 14);
}

proof fn lemma_lookup_chars_226()
    ensures
        name_chars_from(lookup_name(226), 0),
{
    reveal_strlit("caret");
    reveal_with_fuel(name_chars_from, 7);
}

proof fn lemma_lookup_chars_227()
    ensures
        name_chars_from(lookup_name(227), 0),
{
    reveal_strlit("caret-animation");
    reveal_with_fuel(name_chars_from, 17);
}

proof fn lemma_lookup_chars_228()
    ensures
        name_chars_from(lookup_name(228), 0),
{
    reveal_strlit("caret-color");
    reveal_with_fuel(name_chars_from, 13);
}

proof fn lemma_lookup_chars_229()
    ensures
        name_chars_from(lookup_name(229), 0),
{
    reveal_strlit("caret-shape");
    reveal_with_fuel(name_chars_from, 13);
}

proof fn lemma_lookup_chars_230()
    ensures
        name_chars_from(lookup_name(230), 0),
{
    reveal_strlit("clear");
    reveal_with_fuel(name_chars_from, 7);
}

proof fn lemma_lookup_chars_231()
    ensures
        name_chars_from(lookup_name(231), 0),
{
    reveal_strlit("clip");
    reveal_with_fuel(name_chars_from, 6);
}

proof fn lemma_lookup_chars_232()
    ensures
        name_chars_from(lookup_name(232), 0),
{
    reveal_strlit("clip-path");
    reveal_with_fuel(name_chars_from, 11);
}

proof fn lemma_lookup_chars_233()
    ensures
        name_chars_from(lookup_name(233), 0),
{
    reveal_strlit("clip-rule");
    reveal_with_fuel(name_chars_from, 11);
}

proof fn lemma_lookup_chars_234()
    ensures
        name_chars_from(lookup_name(234), 0),
{
    reveal_strlit("color");
    reveal_with_fuel(name_chars_from, 7);
}

proof fn lemma_lookup_chars_235()
    ensures
        name_chars_from(lookup_name(235), 0),
{
    reveal_strlit("color-adjust");
    reveal_with_fuel(name_chars_from, 14);
}

proof fn lemma_lookup_chars_236()
    ensures
        name_chars_from(lookup_name(236), 0),
{
    reveal_strlit("color-interpolation");
    reveal_with_fuel(name_chars_from, 21);
}

proof fn lemma_lookup_chars_237()
    ensures
        name_chars_from(lookup_name(237), 0),
{
    reveal_strlit("color-interpolation-filters");
    reveal_with_fuel(name_chars_from, 29);
}

proof fn lemma_lookup_chars_238()
    ensures
        name_chars_from(lookup_name(238), 0),
{
    reveal_strlit("color-scheme");
    reveal_with_fuel(name_chars_from, 14);
}

proof fn lemma_lookup_chars_239()
    ensures
        name_chars_from(lookup_name(239), 0),
{
    reveal_strlit("column-count");
    reveal_with_fuel(name_chars_from, 14);
}

proof fn lemma_lookup_chars_240()
    ensures
        name_chars_from(lookup_name(240), 0),
{
    reveal_strlit("column-fill");
    reveal_with_fuel(name_chars_from, 13);
}

proof fn lemma_lookup_chars_241()
    ensures
        name_chars_from(lookup_name(241), 0),
{
    reveal_strlit("column-gap");
    reveal_with_fuel(name_chars_from, 12);
}

proof fn lemma_lookup_chars_242()
    ensures
        name_chars_from(lookup_name(242), 0),
{
    reveal_strlit("column-height");
    reveal_with_fuel(name_chars_from, 15);
}

proof fn lemma_lookup_chars_243()
    ensures
        name_chars_from(lookup_name(243), 0),
{
    reveal_strlit("column-rule");
    reveal_with_fuel(name_chars_from, 13);
}

proof fn lemma_lookup_chars_244()
    ensures
        name_chars_from(lookup_name(244), 0),
{
    reveal_strlit("column-rule-break");
    reveal_with_fuel(name_chars_from, 19);
}

proof fn lemma_lookup_chars_245()
    ensures
        name_chars_from(lookup_name(245), 0),
{
    reveal_strlit("column-rule-color");
    reveal_with_fuel(name_chars_from, 19);
}

proof fn lemma_lookup_chars_246()
    ensures
        name_chars_from(lookup_name(246), 0),
{
    reveal_strlit("column-rule-inset");
    reveal_with_fuel(name_chars_from, 19);
}

proof fn lemma_lookup_chars_247()
    ensures
        name_chars_from(lookup_name(247), 0),
{
    reveal_strlit("column-rule-inset-cap");
    reveal_with_fuel(name_chars_from, 23);
}

proof fn lemma_lookup_chars_248()
    ensures
        name_chars_from(lookup_name(248), 0),
{
    reveal_strlit("column-rule-inset-cap-end");
    reveal_with_fuel(name_chars_from, 27);
}

proof fn lemma_lookup_chars_249()
    ensures
        name_chars_from(lookup_name(249), 0),
{
    reveal_strlit("column-rule-inset-cap-start");
    reveal_with_fuel(name_chars_from, 29);
}

proof fn lemma_lookup_chars_250()
    ensures
        name_chars_from(lookup_name(250), 0),
{
    reveal_strlit("column-rule-inset-end");
    reveal_with_fuel(name_chars_from, 23);
}

proof fn lemma_lookup_chars_251()
    ensures
        name_chars_from(lookup_name(251), 0),
{
    reveal_strlit("column-rule-inset-junction");
    reveal_with_fuel(name_chars_from, 28);
}

proof fn lemma_lookup_chars_252()
    ensures
        name_chars_from(lookup_name(252), 0),
{
    reveal_strlit("column-rule-inset-junction-end");
    reveal_with_fuel(name_chars_from, 32);
}

proof fn lemma_lookup_chars_253()
    ensures
        name_chars_from(lookup_name(253), 0),
{
    reveal_strlit("column-rule-inset-junction-start");
    reveal_with_fuel(name_chars_from, 34);
}

proof fn lemma_lookup_chars_254()
    ensures
        name_chars_from(lookup_name(254), 0),
{
    reveal_strlit("column-rule-inset-start");
    reveal_with_fuel(name_chars_from, 25);
}

proof fn lemma_lookup_chars_255()
    ensures
        name_chars_from(lookup_name(255), 0),
{
    reveal_strlit("column-rule-style");
    reveal_with_fuel(name_chars_from, 19);
}

proof fn lemma_lookup_chars_256()
    ensures
        name_chars_from(lookup_name(256), 0),
{
    reveal_strlit("column-rule-visibility-items");
    reveal_with_fuel(name_chars_from, 30);
}

proof fn lemma_lookup_chars_257()
    ensures
        name_chars_from(lookup_name(257), 0),
{
    reveal_strlit("column-rule-width");
    reveal_with_fuel(name_chars_from, 19);
}

proof fn lemma_lookup_chars_258()
    ensures
        name_chars_from(lookup_name(258), 0),
{
    reveal_strlit("column-span");
    reveal_with_fuel(name_chars_from, 13);
}

proof fn lemma_lookup_chars_259()
    ensures
        name_chars_from(lookup_name(259), 0),
{
    reveal_strlit("column-width");
    reveal_with_fuel(name_chars_from, 14);
}

proof fn lemma_lookup_chars_260()
    ensures
        name_chars_from(lookup_name(260), 0),
{
    reveal_strlit("column-wrap");
    reveal_with_fuel(name_chars_from, 13);
}

proof fn lemma_lookup_chars_261()
    ensures
        name_chars_from(lookup_name(261), 0),
{
    reveal_strlit("columns");
    reveal_with_fuel(name_chars_from, 9);
}

proof fn lemma_lookup_chars_262()
    ensures
        name_chars_from(lookup_name(262), 0),
{
    reveal_strlit("contain");
    reveal_with_fuel(name_chars_from, 9);
}

proof fn lemma_lookup_chars_263()
    ensures
        name_chars_from(lookup_name(263), 0),
{
    reveal_strlit("contain-intrinsic-block-size");
    reveal_with_fuel(name_chars_from, 30);
}

proof fn lemma_lookup_chars_264()
    ensures
        name_chars_from(lookup_name(264), 0),
{
    reveal_strlit("contain-intrinsic-height");
    reveal_with_fuel(name_chars_from, 26);
}

proof fn lemma_lookup_chars_265()
    ensures
        name_chars_from(lookup_name(265), 0),
{
    reveal_strlit("contain-intrinsic-inline-size");
    reveal_with_fuel(name_chars_from, 31);
}

proof fn lemma_lookup_chars_266()
    ensures
        name_chars_from(lookup_name(266), 0),
{
    reveal_strlit("contain-intrinsic-size");
    reveal_with_fuel(name_chars_from, 24);
}

proof fn lemma_lookup_chars_267()
    ensures
        name_chars_from(lookup_name(267), 0),
{
    reveal_strlit("contain-intrinsic-width");
    reveal_with_fuel(name_chars_from, 25);
}

proof fn lemma_lookup_chars_268()
    ensures
        name_chars_from(lookup_name(268), 0),
{
    reveal_strlit("container");
    reveal_with_fuel(name_chars_from, 11);
}

proof fn lemma_lookup_chars_269()
    ensures
        name_chars_from(lookup_name(269), 0),
{
    reveal_strlit("container-name");
    reveal_with_fuel(name_chars_from, 16);
}

proof fn lemma_lookup_chars_270()
    ensures
        name_chars_from(lookup_name(270), 0),
{
    reveal_strlit("container-type");
    reveal_with_fuel(name_chars_from, 16);
}

proof fn lemma_lookup_chars_271()
    ensures
        name_chars_from(lookup_name(271), 0),
{
    reveal_strlit("content");
    reveal_with_fuel(name_chars_from, 9);
}

proof fn lemma_lookup_chars_272()
    ensures
        name_chars_from(lookup_name(272), 0),
{
    reveal_strlit("content-visibility");
    reveal_with_fuel(name_chars_from, 20);
}

proof fn lemma_lookup_chars_273()
    ensures
        name_chars_from(lookup_name(273), 0),
{
    reveal_strlit("continue");
    reveal_with_fuel(name_chars_from, 10);
}

proof fn lemma_lookup_chars_274()
    ensures
        name_chars_from(lookup_name(274), 0),
{
    reveal_strlit("copy-into");
    reveal_with_fuel(name_chars_from, 11);
}

proof fn lemma_lookup_chars_275()
    ensures
        name_chars_from(lookup_name(275), 0),
{
    reveal_strlit("corner");
    reveal_with_fuel(name_chars_from, 8);
}

proof fn lemma_lookup_chars_276()
    ensures
        name_chars_from(lookup_name(276), 0),
{
    reveal_strlit("corner-block-end");
    reveal_with_fuel(name_chars_from, 18);
}

proof fn lemma_lookup_chars_277()
    ensures
        name_chars_from(lookup_name(277), 0),
{
    reveal_strlit("corner-block-end-shape");
    reveal_with_fuel(name_chars_from, 24);
}

proof fn lemma_lookup_chars_278()
    ensures
        name_chars_from(lookup_name(278), 0),
{
    reveal_strlit("corner-block-start");
    reveal_with_fuel(name_chars_from, 20);
}

proof fn lemma_lookup_chars_279()
    ensures
        name_chars_from(lookup_name(279), 0),
{
    reveal_strlit("corner-block-start-shape");
    reveal_with_fuel(name_chars_from, 26);
}

proof fn lemma_lookup_chars_280()
    ensures
        name_chars_from(lookup_name(280), 0),
{
    reveal_strlit("corner-bottom");
    reveal_with_fuel(name_chars_from, 15);
}

proof fn lemma_lookup_chars_281()
    ensures
        name_chars_from(lookup_name(281), 0),
{
    reveal_strlit("corner-bottom-left");
    reveal_with_fuel(name_chars_from, 20);
}

proof fn lemma_lookup_chars_282()
    ensures
        name_chars_from(lookup_name(282), 0),
{
    reveal_strlit("corner-bottom-left-shape");
    reveal_with_fuel(name_chars_from, 26);
}

proof fn lemma_lookup_chars_283()
    ensures
        name_chars_from(lookup_name(283), 0),
{
    reveal_strlit("corner-bottom-right");
    reveal_with_fuel(name_chars_from, 21);
}

proof fn lemma_lookup_chars_284()
    ensures
        name_chars_from(lookup_name(284), 0),
{
    reveal_strlit("corner-bottom-right-shape");
    reveal_with_fuel(name_chars_from, 27);
}

proof fn lemma_lookup_chars_285()
    ensures
        name_chars_from(lookup_name(285), 0),
{
    reveal_strlit("corner-bottom-shape");
    reveal_with_fuel(name_chars_from, 21);
}

proof fn lemma_lookup_chars_286()
    ensures
        name_chars_from(lookup_name(286), 0),
{
    reveal_strlit("corner-end-end");
    reveal_with_fuel(name_chars_from, 16);
}

proof fn lemma_lookup_chars_287()
    ensures
        name_chars_from(lookup_name(287), 0),
{
    reveal_strlit("corner-end-end-shape");
    reveal_with_fuel(name_chars_from, 22);
}

proof fn lemma_lookup_chars_288()
    ensures
        name_chars_from(lookup_name(288), 0),
{
    reveal_strlit("corner-end-start");
    reveal_with_fuel(name_chars_from, 18);
}

proof fn lemma_lookup_chars_289()
    ensures
        name_chars_from(lookup_name(289), 0),
{
    reveal_strlit("corner-end-start-shape");
    reveal_with_fuel(name_chars_from, 24);
}

proof fn lemma_lookup_chars_290()
    ensures
        name_chars_from(lookup_name(290), 0),
{
    reveal_strlit("corner-inline-end");
    reveal_with_fuel(name_chars_from, 19);
}

proof fn lemma_lookup_chars_291()
    ensures
        name_chars_from(lookup_name(291), 0),
{
    reveal_strlit("corner-inline-end-shape");
    reveal_with_fuel(name_chars_from, 25);
}

proof fn lemma_lookup_chars_292()
    ensures
        name_chars_from(lookup_name(292), 0),
{
    reveal_strlit("corner-inline-start");
    reveal_with_fuel(name_chars_from, 21);
}

proof fn lemma_lookup_chars_293()
    ensures
        name_chars_from(lookup_name(293), 0),
{
    reveal_strlit("corner-inline-start-shape");
    reveal_with_fuel(name_chars_from, 27);
}

proof fn lemma_lookup_chars_294()
    ensures
        name_chars_from(lookup_name(294), 0),
{
    reveal_strlit("corner-left");
    reveal_with_fuel(name_chars_from, 13);
}

proof fn lemma_lookup_chars_295()
    ensures
        name_chars_from(lookup_name(295), 0),
{
    reveal_strlit("corner-left-shape");
    reveal_with_fuel(name_chars_from, 19);
}

proof fn lemma_lookup_chars_296()
    ensures
        name_chars_from(lookup_name(296), 0),
{
    reveal_strlit("corner-right");
    reveal_with_fuel(name_chars_from, 14);
}

proof fn lemma_lookup_chars_297()
    ensures
        name_chars_from(lookup_name(297), 0),
{
    reveal_strlit("corner-right-shape");
    reveal_with_fuel(name_chars_from, 20);
}

proof fn lemma_lookup_chars_298()
    ensures
        name_chars_from(lookup_name(298), 0),
{
    reveal_strlit("corner-shape");
    reveal_with_fuel(name_chars_from, 14);
}

proof fn lemma_lookup_chars_299()
    ensures
        name_chars_from(lookup_name(299), 0),
{
    reveal_strlit("corner-start-end");
    reveal_with_fuel(name_chars_from, 18);
}

proof fn lemma_lookup_chars_300()
    ensures
        name_chars_from(lookup_name(300), 0),
{
    reveal_strlit("corner-start-end-shape");
    reveal_with_fuel(name_chars_from, 24);
}

proof fn lemma_lookup_chars_301()
    ensures
        name_chars_from(lookup_name(301), 0),
{
    reveal_strlit("corner-start-start");
    reveal_with_fuel(name_chars_from, 20);
}

proof fn lemma_lookup_chars_302()
    ensures
        name_chars_from(lookup_name(302), 0),
{
    reveal_strlit("corner-start-start-shape");
    reveal_with_fuel(name_chars_from, 26);
}

proof fn lemma_lookup_chars_303()
    ensures
        name_chars_from(lookup_name(303), 0),
{
    reveal_strlit("corner-top");
    reveal_with_fuel(name_chars_from, 12);
}

proof fn lemma_lookup_chars_304()
    ensures
        name_chars_from(lookup_name(304), 0),
{
    reveal_strlit("corner-top-left");
    reveal_with_fuel(name_chars_from, 17);
}

proof fn lemma_lookup_chars_305()
    ensures
        name_chars_from(lookup_name(305), 0),
{
    reveal_strlit("corner-top-left-shape");
    reveal_with_fuel(name_chars_from, 23);
}

proof fn lemma_lookup_chars_306()
    ensures
        name_chars_from(lookup_name(306), 0),
{
    reveal_strlit("corner-top-right");
    reveal_with_fuel(name_chars_from, 18);
}

proof fn lemma_lookup_chars_307()
    ensures
        name_chars_from(lookup_name(307), 0),
{
    reveal_strlit("corner-top-right-shape");
    reveal_with_fuel(name_chars_from, 24);
}

proof fn lemma_lookup_chars_308()
    ensures
        name_chars_from(lookup_name(308), 0),
{
    reveal_strlit("corner-top-shape");
    reveal_with_fuel(name_chars_from, 18);
}

proof fn lemma_lookup_chars_309()
    ensures
        name_chars_from(lookup_name(309), 0),
{
    reveal_strlit("counter-increment");
    reveal_with_fuel(name_chars_from, 19);
}

proof fn lemma_lookup_chars_310()
    ensures
        name_chars_from(lookup_name(310), 0),
{
    reveal_strlit("counter-reset");
    reveal_with_fuel(name_chars_from, 15);
}

proof fn lemma_lookup_chars_311()
    ensures
        name_chars_from(lookup_name(311), 0),
{
    reveal_strlit("counter-set");
    reveal_with_fuel(name_chars_from, 13);
}

proof fn lemma_lookup_chars_312()
    ensures
        name_chars_from(lookup_name(312), 0),
{
    reveal_strlit("cue");
    reveal_with_fuel(name_chars_from, 5);
}

proof fn lemma_lookup_chars_313()
    ensures
        name_chars_from(lookup_name(313), 0),
{
    reveal_strlit("cue-after");
    reveal_with_fuel(name_chars_from, 11);
}

proof fn lemma_lookup_chars_314()
    ensures
        name_chars_from(lookup_name(314), 0),
{
    reveal_strlit("cue-before");
    reveal_with_fuel(name_chars_from, 12);
}

proof fn lemma_lookup_chars_315()
    ensures
        name_chars_from(lookup_name(315), 0),
{
    reveal_strlit("cursor");
    reveal_with_fuel(name_chars_from, 8);
}

proof fn lemma_lookup_chars_316()
    ensures
        name_chars_from(lookup_name(316), 0),
{
    reveal_strlit("cx");
    reveal_with_fuel(name_chars_from, 4);
}

proof fn lemma_lookup_chars_317()
    ensures
        name_chars_from(lookup_name(317), 0),
{
    reveal_strlit("cy");
    reveal_with_fuel(name_chars_from, 4);
}

proof fn lemma_lookup_chars_318()
    ensures
        name_chars_from(lookup_name(318), 0),
{
    reveal_strlit("d");
    reveal_with_fuel(name_chars_from, 3);
}

proof fn lemma_lookup_chars_319()
    ensures
        name_chars_from(lookup_name(319), 0),
{
    reveal_strlit("direction");
    reveal_with_fuel(name_chars_from, 11);
}

proof fn lemma_lookup_chars_320()
    ensures
        name_chars_from(lookup_name(320), 0),
{
    reveal_strlit("display");
    reveal_with_fuel(name_chars_from, 9);
}

proof fn lemma_lookup_chars_321()
    ensures
        name_chars_from(lookup_name(321), 0),
{
    reveal_strlit("dominant-baseline");
    reveal_with_fuel(name_chars_from, 19);
}

proof fn lemma_lookup_chars_322()
    ensures
        name_chars_from(lookup_name(322), 0),
{
    reveal_strlit("dynamic-range-limit");
    reveal_with_fuel(name_chars_from, 21);
}

proof fn lemma_lookup_chars_323()
    ensures
        name_chars_from(lookup_name(323), 0),
{
    reveal_strlit("empty-cells");
    reveal_with_fuel(name_chars_from, 13);
}

proof fn lemma_lookup_chars_324()
    ensures
        name_chars_from(lookup_name(324), 0),
{
    reveal_strlit("event-trigger");
    reveal_with_fuel(name_chars_from, 15);
}

proof fn lemma_lookup_chars_325()
    ensures
        name_chars_from(lookup_name(325), 0),
{
    reveal_strlit("event-trigger-name");
    reveal_with_fuel(name_chars_from, 20);
}

proof fn lemma_lookup_chars_326()
    ensures
        name_chars_from(lookup_name(326), 0),
{
    reveal_strlit("event-trigger-source");
    reveal_with_fuel(name_chars_from, 22);
}

proof fn lemma_lookup_chars_327()
    ensures
        name_chars_from(lookup_name(327), 0),
{
    reveal_strlit("field-sizing");
    reveal_with_fuel(name_chars_from, 14);
}

proof fn lemma_lookup_chars_328()
    ensures
        name_chars_from(lookup_name(328), 0),
{
    reveal_strlit("fill");
    reveal_with_fuel(name_chars_from, 6);
}

proof fn lemma_lookup_chars_329()
    ensures
        name_chars_from(lookup_name(329), 0),
{
    reveal_strlit("fill-break");
    reveal_with_fuel(name_chars_from, 12);
}

proof fn lemma_lookup_chars_330()
    ensures
        name_chars_from(lookup_name(330), 0),
{
    reveal_strlit("fill-color");
    reveal_with_fuel(name_chars_from, 12);
}

proof fn lemma_lookup_chars_331()
    ensures
        name_chars_from(lookup_name(331), 0),
{
    reveal_strlit("fill-image");
    reveal_with_fuel(name_chars_from, 12);
}

proof fn lemma_lookup_chars_332()
    ensures
        name_chars_from(lookup_name(332), 0),
{
    reveal_strlit("fill-opacity");
    reveal_with_fuel(name_chars_from, 14);
}

proof fn lemma_lookup_chars_333()
    ensures
        name_chars_from(lookup_name(333), 0),
{
    reveal_strlit("fill-origin");
    reveal_with_fuel(name_chars_from, 13);
}

proof fn lemma_lookup_chars_334()
    ensures
        name_chars_from(lookup_name(334), 0),
{
    reveal_strlit("fill-position");
    reveal_with_fuel(name_chars_from, 15);
}

proof fn lemma_lookup_chars_335()
    ensures
        name_chars_from(lookup_name(335), 0),
{
    reveal_strlit("fill-repeat");
    reveal_with_fuel(name_chars_from, 13);
}

proof fn lemma_lookup_chars_336()
    ensures
        name_chars_from(lookup_name(336), 0),
{
    reveal_strlit("fill-rule");
    reveal_with_fuel(name_chars_from, 11);
}

proof fn lemma_lookup_chars_337()
    ensures
        name_chars_from(lookup_name(337), 0),
{
    reveal_strlit("fill-size");
    reveal_with_fuel(name_chars_from, 11);
}

proof fn lemma_lookup_chars_338()
    ensures
        name_chars_from(lookup_name(338), 0),
{
    reveal_strlit("filter");
    reveal_with_fuel(name_chars_from, 8);
}

proof fn lemma_lookup_chars_339()
    ensures
        name_chars_from(lookup_name(339), 0),
{
    reveal_strlit("flex");
    reveal_with_fuel(name_chars_from, 6);
}

proof fn lemma_lookup_chars_340()
    ensures
        name_chars_from(lookup_name(340), 0),
{
    reveal_strlit("flex-basis");
    reveal_with_fuel(name_chars_from, 12);
}

proof fn lemma_lookup_chars_341()
    ensures
        name_chars_from(lookup_name(341), 0),
{
    reveal_strlit("flex-direction");
    reveal_with_fuel(name_chars_from, 16);
}

proof fn lemma_lookup_chars_342()
    ensures
        name_chars_from(lookup_name(342), 0),
{
    reveal_strlit("flex-flow");
    reveal_with_fuel(name_chars_from, 11);
}

proof fn lemma_lookup_chars_343()
    ensures
        name_chars_from(lookup_name(343), 0),
{
    reveal_strlit("flex-grow");
    reveal_with_fuel(name_chars_from, 11);
}

proof fn lemma_lookup_chars_344()
    ensures
        name_chars_from(lookup_name(344), 0),
{
    reveal_strlit("flex-shrink");
    reveal_with_fuel(name_chars_from, 13);
}

proof fn lemma_lookup_chars_345()
    ensures
        name_chars_from(lookup_name(345), 0),
{
    reveal_strlit("flex-wrap");
    reveal_with_fuel(name_chars_from, 11);
}

proof fn lemma_lookup_chars_346()
    ensures
        name_chars_from(lookup_name(346), 0),
{
    reveal_strlit("float");
    reveal_with_fuel(name_chars_from, 7);
}

proof fn lemma_lookup_chars_347()
    ensures
        name_chars_from(lookup_name(347), 0),
{
    reveal_strlit("float-defer");
    reveal_with_fuel(name_chars_from, 13);
}

proof fn lemma_lookup_chars_348()
    ensures
        name_chars_from(lookup_name(348), 0),
{
    reveal_strlit("float-offset");
    reveal_with_fuel(name_chars_from, 14);
}

proof fn lemma_lookup_chars_349()
    ensures
        name_chars_from(lookup_name(349), 0),
{
    reveal_strlit("float-reference");
    reveal_with_fuel(name_chars_from, 17);
}

proof fn lemma_lookup_chars_350()
    ensures
        name_chars_from(lookup_name(350), 0),
{
    reveal_strlit("flood-color");
    reveal_with_fuel(name_chars_from, 13);
}

proof fn lemma_lookup_chars_351()
    ensures
        name_chars_from(lookup_name(351), 0),
{
    reveal_strlit("flood-opacity");
    reveal_with_fuel(name_chars_from, 15);
}

proof fn lemma_lookup_chars_352()
    ensures
        name_chars_from(lookup_name(352), 0),
{
    reveal_strlit("flow-from");
    reveal_with_fuel(name_chars_from, 11);
}

proof fn lemma_lookup_chars_353()
    ensures
        name_chars_from(lookup_name(353), 0),
{
    reveal_strlit("flow-into");
    reveal_with_fuel(name_chars_from, 11);
}

proof fn lemma_lookup_chars_354()
    ensures
        name_chars_from(lookup_name(354), 0),
{
    reveal_strlit("flow-tolerance");
    reveal_with_fuel(name_chars_from, 16);
}

proof fn lemma_lookup_chars_355()
    ensures
        name_chars_from(lookup_name(355), 0),
{
    reveal_strlit("font");
    reveal_with_fuel(name_chars_from, 6);
}

proof fn lemma_lookup_chars_356()
    ensures
        name_chars_from(lookup_name(356), 0),
{
    reveal_strlit("font-family");
    reveal_with_fuel(name_chars_from, 13);
}

proof fn lemma_lookup_chars_357()
    ensures
        name_chars_from(lookup_name(357), 0),
{
    reveal_strlit("font-feature-settings");
    reveal_with_fuel(name_chars_from, 23);
}

proof fn lemma_lookup_chars_358()
    ensures
        name_chars_from(lookup_name(358), 0),
{
    reveal_strlit("font-kerning");
    reveal_with_fuel(name_chars_from, 14);
}

proof fn lemma_lookup_chars_359()
    ensures
        name_chars_from(lookup_name(359), 0),
{
    reveal_strlit("font-language-override");
    reveal_with_fuel(name_chars_from, 24);
}

proof fn lemma_lookup_chars_360()
    ensures
        name_chars_from(lookup_name(360), 0),
{
    reveal_strlit("font-optical-sizing");
    reveal_with_fuel(name_chars_from, 21);
}

proof fn lemma_lookup_chars_361()
    ensures
        name_chars_from(lookup_name(361), 0),
{
    reveal_strlit("font-palette");
    reveal_with_fuel(name_chars_from, 14);
}

proof fn lemma_lookup_chars_362()
    ensures
        name_chars_from(lookup_name(362), 0),
{
    reveal_strlit("font-size");
    reveal_with_fuel(name_chars_from, 11);
}

proof fn lemma_lookup_chars_363()
    ensures
        name_chars_from(lookup_name(363), 0),
{
    reveal_strlit("font-size-adjust");
    reveal_with_fuel(name_chars_from, 18);
}

proof fn lemma_lookup_chars_364()
    ensures
        name_chars_from(lookup_name(364), 0),
{
    reveal_strlit("font-stretch");
    reveal_with_fuel(name_chars_from, 14);
}

proof fn lemma_lookup_chars_365()
    ensures
        name_chars_from(lookup_name(365), 0),
{
    reveal_strlit("font-style");
    reveal_with_fuel(name_chars_from, 12);
}

proof fn lemma_lookup_chars_366()
    ensures
        name_chars_from(lookup_name(366), 0),
{
    reveal_strlit("font-synthesis");
    reveal_with_fuel(name_chars_from, 16);
}

proof fn lemma_lookup_chars_367()
    ensures
        name_chars_from(lookup_name(367), 0),
{
    reveal_strlit("font-synthesis-position");
    reveal_with_fuel(name_chars_from, 25);
}

proof fn lemma_lookup_chars_368()
    ensures
        name_chars_from(lookup_name(368), 0),
{
    reveal_strlit("font-synthesis-small-caps");
    reveal_with_fuel(name_chars_from, 27);
}

proof fn lemma_lookup_chars_369()
    ensures
        name_chars_from(lookup_name(369), 0),
{
    reveal_strlit("font-synthesis-style");
    reveal_with_fuel(name_chars_from, 22);
}

proof fn lemma_lookup_chars_370()
    ensures
        name_chars_from(lookup_name(370), 0),
{
    reveal_strlit("font-synthesis-weight");
    reveal_with_fuel(name_chars_from, 23);
}

proof fn lemma_lookup_chars_371()
    ensures
        name_chars_from(lookup_name(371), 0),
{
    reveal_strlit("font-variant");
    reveal_with_fuel(name_chars_from, 14);
}

proof fn lemma_lookup_chars_372()
    ensures
        name_chars_from(lookup_name(372), 0),
{
    reveal_strlit("font-variant-alternates");
    reveal_with_fuel(name_chars_from, 25);
}

proof fn lemma_lookup_chars_373()
    ensures
        name_chars_from(lookup_name(373), 0),
{
    reveal_strlit("font-variant-caps");
    reveal_with_fuel(name_chars_from, 19);
}

proof fn lemma_lookup_chars_374()
    ensures
        name_chars_from(lookup_name(374), 0),
{
    reveal_strlit("font-variant-east-asian");
    reveal_with_fuel(name_chars_from, 25);
}

proof fn lemma_lookup_chars_375()
    ensures
        name_chars_from(lookup_name(375), 0),
{
    reveal_strlit("font-variant-emoji");
    reveal_with_fuel(name_chars_from, 20);
}

proof fn lemma_lookup_chars_376()
    ensures
        name_chars_from(lookup_name(376), 0),
{
    reveal_strlit("font-variant-ligatures");
    reveal_with_fuel(name_chars_from, 24);
}

proof fn lemma_lookup_chars_377()
    ensures
        name_chars_from(lookup_name(377), 0),
{
    reveal_strlit("font-variant-numeric");
    reveal_with_fuel(name_chars_from, 22);
}

proof fn lemma_lookup_chars_378()
    ensures
        name_chars_from(lookup_name(378), 0),
{
    reveal_strlit("font-variant-position");
    reveal_with_fuel(name_chars_from, 23);
}

proof fn lemma_lookup_chars_379()
    ensures
        name_chars_from(lookup_name(379), 0),
{
    reveal_strlit("font-variation-settings");
    reveal_with_fuel(name_chars_from, 25);
}

proof fn lemma_lookup_chars_380()
    ensures
        name_chars_from(lookup_name(380), 0),
{
    reveal_strlit("font-weight");
    reveal_with_fuel(name_chars_from, 13);
}

proof fn lemma_lookup_chars_381()
    ensures
        name_chars_from(lookup_name(381), 0),
{
    reveal_strlit("font-width");
    reveal_with_fuel(name_chars_from, 12);
}

proof fn lemma_lookup_chars_382()
    ensures
        name_chars_from(lookup_name(382), 0),
{
    reveal_strlit("footnote-display");
    reveal_with_fuel(name_chars_from, 18);
}

proof fn lemma_lookup_chars_383()
    ensures
        name_chars_from(lookup_name(383), 0),
{
    reveal_strlit("footnote-policy");
    reveal_with_fuel(name_chars_from, 17);
}

proof fn lemma_lookup_chars_384()
    ensures
        name_chars_from(lookup_name(384), 0),
{
    reveal_strlit("forced-color-adjust");
    reveal_with_fuel(name_chars_from, 21);
}

proof fn lemma_lookup_chars_385()
    ensures
        name_chars_from(lookup_name(385), 0),
{
    reveal_strlit("frame-sizing");
    reveal_with_fuel(name_chars_from, 14);
}

proof fn lemma_lookup_chars_386()
    ensures
        name_chars_from(lookup_name(386), 0),
{
    reveal_strlit("gap");
    reveal_with_fuel(name_chars_from, 5);
}

proof fn lemma_lookup_chars_387()
    ensures
        name_chars_from(lookup_name(387), 0),
{
    reveal_strlit("glyph-orientation-vertical");
    reveal_with_fuel(name_chars_from, 28);
}

proof fn lemma_lookup_chars_388()
    ensures
        name_chars_from(lookup_name(388), 0),
{
    reveal_strlit("grid");
    reveal_with_fuel(name_chars_from, 6);
}

proof fn lemma_lookup_chars_389()
    ensures
        name_chars_from(lookup_name(389), 0),
{
    reveal_strlit("grid-area");
    reveal_with_fuel(name_chars_from, 11);
}

proof fn lemma_lookup_chars_390()
    ensures
        name_chars_from(lookup_name(390), 0),
{
    reveal_strlit("grid-auto-columns");
    reveal_with_fuel(name_chars_from, 19);
}

proof fn lemma_lookup_chars_391()
    ensures
        name_chars_from(lookup_name(391), 0),
{
    reveal_strlit("grid-auto-flow");
    reveal_with_fuel(name_chars_from, 16);
}

proof fn lemma_lookup_chars_392()
    ensures
        name_chars_from(lookup_name(392), 0),
{
    reveal_strlit("grid-auto-rows");
    reveal_with_fuel(name_chars_from, 16);
}

proof fn lemma_lookup_chars_393()
    ensures
        name_chars_from(lookup_name(393), 0),
{
    reveal_strlit("grid-column");
    reveal_with_fuel(name_chars_from, 13);
}

proof fn lemma_lookup_chars_394()
    ensures
        name_chars_from(lookup_name(394), 0),
{
    reveal_strlit("grid-column-end");
    reveal_with_fuel(name_chars_from, 17);
}

proof fn lemma_lookup_chars_395()
    ensures
        name_chars_from(lookup_name(395), 0),
{
    reveal_strlit("grid-column-gap");
    reveal_with_fuel(name_chars_from, 17);
}

proof fn lemma_lookup_chars_396()
    ensures
        name_chars_from(lookup_name(396), 0),
{
    reveal_strlit("grid-column-start");
    reveal_with_fuel(name_chars_from, 19);
}

proof fn lemma_lookup_chars_397()
    ensures
        name_chars_from(lookup_name(397), 0),
{
    reveal_strlit("grid-gap");
    reveal_with_fuel(name_chars_from, 10);
}

proof fn lemma_lookup_chars_398()
    ensures
        name_chars_from(lookup_name(398), 0),
{
    reveal_strlit("grid-row");
    reveal_with_fuel(name_chars_from, 10);
}

proof fn lemma_lookup_chars_399()
    ensures
        name_chars_from(lookup_name(399), 0),
{
    reveal_strlit("grid-row-end");
    reveal_with_fuel(name_chars_from, 14);
}

proof fn lemma_lookup_chars_400()
    ensures
        name_chars_from(lookup_name(400), 0),
{
    reveal_strlit("grid-row-gap");
    reveal_with_fuel(name_chars_from, 14);
}

proof fn lemma_lookup_chars_401()
    ensures
        name_chars_from(lookup_name(401), 0),
{
    reveal_strlit("grid-row-start");
    reveal_with_fuel(name_chars_from, 16);
}

proof fn lemma_lookup_chars_402()
    ensures
        name_chars_from(lookup_name(402), 0),
{
    reveal_strlit("grid-template");
    reveal_with_fuel(name_chars_from, 15);
}

proof fn lemma_lookup_chars_403()
    ensures
        name_chars_from(lookup_name(403), 0),
{
    reveal_strlit("grid-template-areas");
    reveal_with_fuel(name_chars_from, 21);
}

proof fn lemma_lookup_chars_404()
    ensures
        name_chars_from(lookup_name(404), 0),
{
    reveal_strlit("grid-template-columns");
    reveal_with_fuel(name_chars_from, 23);
}

proof fn lemma_lookup_chars_405()
    ensures
        name_chars_from(lookup_name(405), 0),
{
    reveal_strlit("grid-template-rows");
    reveal_with_fuel(name_chars_from, 20);
}

proof fn lemma_lookup_chars_406()
    ensures
        name_chars_from(lookup_name(406), 0),
{
    reveal_strlit("hanging-punctuation");
    reveal_with_fuel(name_chars_from, 21);
}

proof fn lemma_lookup_chars_407()
    ensures
        name_chars_from(lookup_name(407), 0),
{
    reveal_strlit("height");
    reveal_with_fuel(name_chars_from, 8);
}

proof fn lemma_lookup_chars_408()
    ensures
        name_chars_from(lookup_name(408), 0),
{
    reveal_strlit("hyphenate-character");
    reveal_with_fuel(name_chars_from, 21);
}

proof fn lemma_lookup_chars_409()
    ensures
        name_chars_from(lookup_name(409), 0),
{
    reveal_strlit("hyphenate-limit-chars");
    reveal_with_fuel(name_chars_from, 23);
}

proof fn lemma_lookup_chars_410()
    ensures
        name_chars_from(lookup_name(410), 0),
{
    reveal_strlit("hyphenate-limit-last");
    reveal_with_fuel(name_chars_from, 22);
}

proof fn lemma_lookup_chars_411()
    ensures
        name_chars_from(lookup_name(411), 0),
{
    reveal_strlit("hyphenate-limit-lines");
    reveal_with_fuel(name_chars_from, 23);
}

proof fn lemma_lookup_chars_412()
    ensures
        name_chars_from(lookup_name(412), 0),
{
    reveal_strlit("hyphenate-limit-zone");
    reveal_with_fuel(name_chars_from, 22);
}

proof fn lemma_lookup_chars_413()
    ensures
        name_chars_from(lookup_name(413), 0),
{
    reveal_strlit("hyphens");
    reveal_with_fuel(name_chars_from, 9);
}

proof fn lemma_lookup_chars_414()
    ensures
        name_chars_from(lookup_name(414), 0),
{
    reveal_strlit("image-animation");
    reveal_with_fuel(name_chars_from, 17);
}

proof fn lemma_lookup_chars_415()
    ensures
        name_chars_from(lookup_name(415), 0),
{
    reveal_strlit("image-orientation");
    reveal_with_fuel(name_chars_from, 19);
}

proof fn lemma_lookup_chars_416()
    ensures
        name_chars_from(lookup_name(416), 0),
{
    reveal_strlit("image-rendering");
    reveal_with_fuel(name_chars_from, 17);
}

proof fn lemma_lookup_chars_417()
    ensures
        name_chars_from(lookup_name(417), 0),
{
    reveal_strlit("image-resolution");
    reveal_with_fuel(name_chars_from, 18);
}

proof fn lemma_lookup_chars_418()
    ensures
        name_chars_from(lookup_name(418), 0),
{
    reveal_strlit("initial-letter");
    reveal_with_fuel(name_chars_from, 16);
}

proof fn lemma_lookup_chars_419()
    ensures
        name_chars_from(lookup_name(419), 0),
{
    reveal_strlit("initial-letter-align");
    reveal_with_fuel(name_chars_from, 22);
}

proof fn lemma_lookup_chars_420()
    ensures
        name_chars_from(lookup_name(420), 0),
{
    reveal_strlit("initial-letter-wrap");
    reveal_with_fuel(name_chars_from, 21);
}

proof fn lemma_lookup_chars_421()
    ensures
        name_chars_from(lookup_name(421), 0),
{
    reveal_strlit("inline-size");
    reveal_with_fuel(name_chars_from, 13);
}

proof fn lemma_lookup_chars_422()
    ensures
        name_chars_from(lookup_name(422), 0),
{
    reveal_strlit("inline-sizing");
    reveal_with_fuel(name_chars_from, 15);
}

proof fn lemma_lookup_chars_423()
    ensures
        name_chars_from(lookup_name(423), 0),
{
    reveal_strlit("input-security");
    reveal_with_fuel(name_chars_from, 16);
}

proof fn lemma_lookup_chars_424()
    ensures
        name_chars_from(lookup_name(424), 0),
{
    reveal_strlit("inset");
    reveal_with_fuel(name_chars_from, 7);
}

proof fn lemma_lookup_chars_425()
    ensures
        name_chars_from(lookup_name(425), 0),
{
    reveal_strlit("inset-block");
    reveal_with_fuel(name_chars_from, 13);
}

proof fn lemma_lookup_chars_426()
    ensures
        name_chars_from(lookup_name(426), 0),
{
    reveal_strlit("inset-block-end");
    reveal_with_fuel(name_chars_from, 17);
}

proof fn lemma_lookup_chars_427()
    ensures
        name_chars_from(lookup_name(427), 0),
{
    reveal_strlit("inset-block-start");
    reveal_with_fuel(name_chars_from, 19);
}

proof fn lemma_lookup_chars_428()
    ensures
        name_chars_from(lookup_name(428), 0),
{
    reveal_strlit("inset-inline");
    reveal_with_fuel(name_chars_from, 14);
}

proof fn lemma_lookup_chars_429()
    ensures
        name_chars_from(lookup_name(429), 0),
{
    reveal_strlit("inset-inline-end");
    reveal_with_fuel(name_chars_from, 18);
}

proof fn lemma_lookup_chars_430()
    ensures
        name_chars_from(lookup_name(430), 0),
{
    reveal_strlit("inset-inline-start");
    reveal_with_fuel(name_chars_from, 20);
}

proof fn lemma_lookup_chars_431()
    ensures
        name_chars_from(lookup_name(431), 0),
{
    reveal_strlit("interactivity");
    reveal_with_fuel(name_chars_from, 15);
}

proof fn lemma_lookup_chars_432()
    ensures
        name_chars_from(lookup_name(432), 0),
{
    reveal_strlit("interest-delay");
    reveal_with_fuel(name_chars_from, 16);
}

proof fn lemma_lookup_chars_433()
    ensures
        name_chars_from(lookup_name(433), 0),
{
    reveal_strlit("interest-delay-end");
    reveal_with_fuel(name_chars_from, 20);
}

proof fn lemma_lookup_chars_434()
    ensures
        name_chars_from(lookup_name(434), 0),
{
    reveal_strlit("interest-delay-start");
    reveal_with_fuel(name_chars_from, 22);
}

proof fn lemma_lookup_chars_435()
    ensures
        name_chars_from(lookup_name(435), 0),
{
    reveal_strlit("interpolate-size");
    reveal_with_fuel(name_chars_from, 18);
}

proof fn lemma_lookup_chars_436()
    ensures
        name_chars_from(lookup_name(436), 0),
{
    reveal_strlit("isolation");
    reveal_with_fuel(name_chars_from, 11);
}

proof fn lemma_lookup_chars_437()
    ensures
        name_chars_from(lookup_name(437), 0),
{
    reveal_strlit("justify-content");
    reveal_with_fuel(name_chars_from, 17);
}

proof fn lemma_lookup_chars_438()
    ensures
        name_chars_from(lookup_name(438), 0),
{
    reveal_strlit("justify-items");
    reveal_with_fuel(name_chars_from, 15);
}

proof fn lemma_lookup_chars_439()
    ensures
        name_chars_from(lookup_name(439), 0),
{
    reveal_strlit("justify-self");
    reveal_with_fuel(name_chars_from, 14);
}

proof fn lemma_lookup_chars_440()
    ensures
        name_chars_from(lookup_name(440), 0),
{
    reveal_strlit("left");
    reveal_with_fuel(name_chars_from, 6);
}

proof fn lemma_lookup_chars_441()
    ensures
        name_chars_from(lookup_name(441), 0),
{
    reveal_strlit("letter-spacing");
    reveal_with_fuel(name_chars_from, 16);
}

proof fn lemma_lookup_chars_442()
    ensures
        name_chars_from(lookup_name(442), 0),
{
    reveal_strlit("lighting-color");
    reveal_with_fuel(name_chars_from, 16);
}

proof fn lemma_lookup_chars_443()
    ensures
        name_chars_from(lookup_name(443), 0),
{
    reveal_strlit("line-break");
    reveal_with_fuel(name_chars_from, 12);
}

proof fn lemma_lookup_chars_444()
    ensures
        name_chars_from(lookup_name(444), 0),
{
    reveal_strlit("line-clamp");
    reveal_with_fuel(name_chars_from, 12);
}

proof fn lemma_lookup_chars_445()
    ensures
        name_chars_from(lookup_name(445), 0),
{
    reveal_strlit("line-fit-edge");
    reveal_with_fuel(name_chars_from, 15);
}

proof fn lemma_lookup_chars_446()
    ensures
        name_chars_from(lookup_name(446), 0),
{
    reveal_strlit("line-grid");
    reveal_with_fuel(name_chars_from, 11);
}

proof fn lemma_lookup_chars_447()
    ensures
        name_chars_from(lookup_name(447), 0),
{
    reveal_strlit("line-height");
    reveal_with_fuel(name_chars_from, 13);
}

proof fn lemma_lookup_chars_448()
    ensures
        name_chars_from(lookup_name(448), 0),
{
    reveal_strlit("line-height-step");
    reveal_with_fuel(name_chars_from, 18);
}

proof fn lemma_lookup_chars_449()
    ensures
        name_chars_from(lookup_name(449), 0),
{
    reveal_strlit("line-padding");
    reveal_with_fuel(name_chars_from, 14);
}

proof fn lemma_lookup_chars_450()
    ensures
        name_chars_from(lookup_name(450), 0),
{
    reveal_strlit("line-snap");
    reveal_with_fuel(name_chars_from, 11);
}

proof fn lemma_lookup_chars_451()
    ensures
        name_chars_from(lookup_name(451), 0),
{
    reveal_strlit("link-parameters");
    reveal_with_fuel(name_chars_from, 17);
}

proof fn lemma_lookup_chars_452()
    ensures
        name_chars_from(lookup_name(452), 0),
{
    reveal_strlit("list-style");
    reveal_with_fuel(name_chars_from, 12);
}

proof fn lemma_lookup_chars_453()
    ensures
        name_chars_from(lookup_name(453), 0),
{
    reveal_strlit("list-style-image");
    reveal_with_fuel(name_chars_from, 18);
}

proof fn lemma_lookup_chars_454()
    ensures
        name_chars_from(lookup_name(454), 0),
{
    reveal_strlit("list-style-position");
    reveal_with_fuel(name_chars_from, 21);
}

proof fn lemma_lookup_chars_455()
    ensures
        name_chars_from(lookup_name(455), 0),
{
    reveal_strlit("list-style-type");
    reveal_with_fuel(name_chars_from, 17);
}

proof fn lemma_lookup_chars_456()
    ensures
        name_chars_from(lookup_name(456), 0),
{
    reveal_strlit("margin");
    reveal_with_fuel(name_chars_from, 8);
}

proof fn lemma_lookup_chars_457()
    ensures
        name_chars_from(lookup_name(457), 0),
{
    reveal_strlit("margin-block");
    reveal_with_fuel(name_chars_from, 14);
}

proof fn lemma_lookup_chars_458()
    ensures
        name_chars_from(lookup_name(458), 0),
{
    reveal_strlit("margin-block-end");
    reveal_with_fuel(name_chars_from, 18);
}

proof fn lemma_lookup_chars_459()
    ensures
        name_chars_from(lookup_name(459), 0),
{
    reveal_strlit("margin-block-start");
    reveal_with_fuel(name_chars_from, 20);
}

proof fn lemma_lookup_chars_460()
    ensures
        name_chars_from(lookup_name(460), 0),
{
    reveal_strlit("margin-bottom");
    reveal_with_fuel(name_chars_from, 15);
}

proof fn lemma_lookup_chars_461()
    ensures
        name_chars_from(lookup_name(461), 0),
{
    reveal_strlit("margin-break");
    reveal_with_fuel(name_chars_from, 14);
}

proof fn lemma_lookup_chars_462()
    ensures
        name_chars_from(lookup_name(462), 0),
{
    reveal_strlit("margin-inline");
    reveal_with_fuel(name_chars_from, 15);
}

proof fn lemma_lookup_chars_463()
    ensures
        name_chars_from(lookup_name(463), 0),
{
    reveal_strlit("margin-inline-end");
    reveal_with_fuel(name_chars_from, 19);
}

proof fn lemma_lookup_chars_464()
    ensures
        name_chars_from(lookup_name(464), 0),
{
    reveal_strlit("margin-inline-start");
    reveal_with_fuel(name_chars_from, 21);
}

proof fn lemma_lookup_chars_465()
    ensures
        name_chars_from(lookup_name(465), 0),
{
    reveal_strlit("margin-left");
    reveal_with_fuel(name_chars_from, 13);
}

proof fn lemma_lookup_chars_466()
    ensures
        name_chars_from(lookup_name(466), 0),
{
    reveal_strlit("margin-right");
    reveal_with_fuel(name_chars_from, 14);
}

proof fn lemma_lookup_chars_467()
    ensures
        name_chars_from(lookup_name(467), 0),
{
    reveal_strlit("margin-top");
    reveal_with_fuel(name_chars_from, 12);
}

proof fn lemma_lookup_chars_468()
    ensures
        name_chars_from(lookup_name(468), 0),
{
    reveal_strlit("margin-trim");
    reveal_with_fuel(name_chars_from, 13);
}

proof fn lemma_lookup_chars_469()
    ensures
        name_chars_from(lookup_name(469), 0),
{
    reveal_strlit("marker");
    reveal_with_fuel(name_chars_from, 8);
}

proof fn lemma_lookup_chars_470()
    ensures
        name_chars_from(lookup_name(470), 0),
{
    reveal_strlit("marker-end");
    reveal_with_fuel(name_chars_from, 12);
}

proof fn lemma_lookup_chars_471()
    ensures
        name_chars_from(lookup_name(471), 0),
{
    reveal_strlit("marker-mid");
    reveal_with_fuel(name_chars_from, 12);
}

proof fn lemma_lookup_chars_472()
    ensures
        name_chars_from(lookup_name(472), 0),
{
    reveal_strlit("marker-side");
    reveal_with_fuel(name_chars_from, 13);
}

proof fn lemma_lookup_chars_473()
    ensures
        name_chars_from(lookup_name(473), 0),
{
    reveal_strlit("marker-start");
    reveal_with_fuel(name_chars_from, 14);
}

proof fn lemma_lookup_chars_474()
    ensures
        name_chars_from(lookup_name(474), 0),
{
    reveal_strlit("mask");
    reveal_with_fuel(name_chars_from, 6);
}

proof fn lemma_lookup_chars_475()
    ensures
        name_chars_from(lookup_name(475), 0),
{
    reveal_strlit("mask-border");
    reveal_with_fuel(name_chars_from, 13);
}

proof fn lemma_lookup_chars_476()
    ensures
        name_chars_from(lookup_name(476), 0),
{
    reveal_strlit("mask-border-mode");
    reveal_with_fuel(name_chars_from, 18);
}

proof fn lemma_lookup_chars_477()
    ensures
        name_chars_from(lookup_name(477), 0),
{
    reveal_strlit("mask-border-outset");
    reveal_with_fuel(name_chars_from, 20);
}

proof fn lemma_lookup_chars_478()
    ensures
        name_chars_from(lookup_name(478), 0),
{
    reveal_strlit("mask-border-repeat");
    reveal_with_fuel(name_chars_from, 20);
}

proof fn lemma_lookup_chars_479()
    ensures
        name_chars_from(lookup_name(479), 0),
{
    reveal_strlit("mask-border-slice");
    reveal_with_fuel(name_chars_from, 19);
}

proof fn lemma_lookup_chars_480()
    ensures
        name_chars_from(lookup_name(480), 0),
{
    reveal_strlit("mask-border-source");
    reveal_with_fuel(name_chars_from, 20);
}

proof fn lemma_lookup_chars_481()
    ensures
        name_chars_from(lookup_name(481), 0),
{
    reveal_strlit("mask-border-width");
    reveal_with_fuel(name_chars_from, 19);
}

proof fn lemma_lookup_chars_482()
    ensures
        name_chars_from(lookup_name(482), 0),
{
    reveal_strlit("mask-clip");
    reveal_with_fuel(name_chars_from, 11);
}

proof fn lemma_lookup_chars_483()
    ensures
        name_chars_from(lookup_name(483), 0),
{
    reveal_strlit("mask-composite");
    reveal_with_fuel(name_chars_from, 16);
}

proof fn lemma_lookup_chars_484()
    ensures
        name_chars_from(lookup_name(484), 0),
{
    reveal_strlit("mask-image");
    reveal_with_fuel(name_chars_from, 12);
}

proof fn lemma_lookup_chars_485()
    ensures
        name_chars_from(lookup_name(485), 0),
{
    reveal_strlit("mask-mode");
    reveal_with_fuel(name_chars_from, 11);
}

proof fn lemma_lookup_chars_486()
    ensures
        name_chars_from(lookup_name(486), 0),
{
    reveal_strlit("mask-origin");
    reveal_with_fuel(name_chars_from, 13);
}

proof fn lemma_lookup_chars_487()
    ensures
        name_chars_from(lookup_name(487), 0),
{
    reveal_strlit("mask-position");
    reveal_with_fuel(name_chars_from, 15);
}

proof fn lemma_lookup_chars_488()
    ensures
        name_chars_from(lookup_name(488), 0),
{
    reveal_strlit("mask-repeat");
    reveal_with_fuel(name_chars_from, 13);
}

proof fn lemma_lookup_chars_489()
    ensures
        name_chars_from(lookup_name(489), 0),
{
    reveal_strlit("mask-size");
    reveal_with_fuel(name_chars_from, 11);
}

proof fn lemma_lookup_chars_490()
    ensures
        name_chars_from(lookup_name(490), 0),
{
    reveal_strlit("mask-type");
    reveal_with_fuel(name_chars_from, 11);
}

proof fn lemma_lookup_chars_491()
    ensures
        name_chars_from(lookup_name(491), 0),
{
    reveal_strlit("math-depth");
    reveal_with_fuel(name_chars_from, 12);
}

proof fn lemma_lookup_chars_492()
    ensures
        name_chars_from(lookup_name(492), 0),
{
    reveal_strlit("math-shift");
    reveal_with_fuel(name_chars_from, 12);
}

proof fn lemma_lookup_chars_493()
    ensures
        name_chars_from(lookup_name(493), 0),
{
    reveal_strlit("math-style");
    reveal_with_fuel(name_chars_from, 12);
}

proof fn lemma_lookup_chars_494()
    ensures
        name_chars_from(lookup_name(494), 0),
{
    reveal_strlit("max-block-size");
    reveal_with_fuel(name_chars_from, 16);
}

proof fn lemma_lookup_chars_495()
    ensures
        name_chars_from(lookup_name(495), 0),
{
    reveal_strlit("max-height");
    reveal_with_fuel(name_chars_from, 12);
}

proof fn lemma_lookup_chars_496()
    ensures
        name_chars_from(lookup_name(496), 0),
{
    reveal_strlit("max-inline-size");
    reveal_with_fuel(name_chars_from, 17);
}

proof fn lemma_lookup_chars_497()
    ensures
        name_chars_from(lookup_name(497), 0),
{
    reveal_strlit("max-lines");
    reveal_with_fuel(name_chars_from, 11);
}

proof fn lemma_lookup_chars_498()
    ensures
        name_chars_from(lookup_name(498), 0),
{
    reveal_strlit("max-width");
    reveal_with_fuel(name_chars_from, 11);
}

proof fn lemma_lookup_chars_499()
    ensures
        name_chars_from(lookup_name(499), 0),
{
    reveal_strlit("min-block-size");
    reveal_with_fuel(name_chars_from, 16);
}

proof fn lemma_lookup_chars_500()
    ensures
        name_chars_from(lookup_name(500), 0),
{
    reveal_strlit("min-height");
    reveal_with_fuel(name_chars_from, 12);
}

proof fn lemma_lookup_chars_501()
    ensures
        name_chars_from(lookup_name(501), 0),
{
    reveal_strlit("min-inline-size");
    reveal_with_fuel(name_chars_from, 17);
}

proof fn lemma_lookup_chars_502()
    ensures
        name_chars_from(lookup_name(502), 0),
{
    reveal_strlit("min-intrinsic-sizing");
    reveal_with_fuel(name_chars_from, 22);
}

proof fn lemma_lookup_chars_503()
    ensures
        name_chars_from(lookup_name(503), 0),
{
    reveal_strlit("min-width");
    reveal_with_fuel(name_chars_from, 11);
}

proof fn lemma_lookup_chars_504()
    ensures
        name_chars_from(lookup_name(504), 0),
{
    reveal_strlit("mix-blend-mode");
    reveal_with_fuel(name_chars_from, 16);
}

proof fn lemma_lookup_chars_505()
    ensures
        name_chars_from(lookup_name(505), 0),
{
    reveal_strlit("nav-down");
    reveal_with_fuel(name_chars_from, 10);
}

proof fn lemma_lookup_chars_506()
    ensures
        name_chars_from(lookup_name(506), 0),
{
    reveal_strlit("nav-left");
    reveal_with_fuel(name_chars_from, 10);
}

proof fn lemma_lookup_chars_507()
    ensures
        name_chars_from(lookup_name(507), 0),
{
    reveal_strlit("nav-right");
    reveal_with_fuel(name_chars_from, 11);
}

proof fn lemma_lookup_chars_508()
    ensures
        name_chars_from(lookup_name(508), 0),
{
    reveal_strlit("nav-up");
    reveal_with_fuel(name_chars_from, 8);
}

proof fn lemma_lookup_chars_509()
    ensures
        name_chars_from(lookup_name(509), 0),
{
    reveal_strlit("object-fit");
    reveal_with_fuel(name_chars_from, 12);
}

proof fn lemma_lookup_chars_510()
    ensures
        name_chars_from(lookup_name(510), 0),
{
    reveal_strlit("object-position");
    reveal_with_fuel(name_chars_from, 17);
}

proof fn lemma_lookup_chars_511()
    ensures
        name_chars_from(lookup_name(511), 0),
{
    reveal_strlit("object-view-box");
    reveal_with_fuel(name_chars_from, 17);
}

proof fn lemma_lookup_chars_512()
    ensures
        name_chars_from(lookup_name(512), 0),
{
    reveal_strlit("offset");
    reveal_with_fuel(name_chars_from, 8);
}

proof fn lemma_lookup_chars_513()
    ensures
        name_chars_from(lookup_name(513), 0),
{
    reveal_strlit("offset-anchor");
    reveal_with_fuel(name_chars_from, 15);
}

proof fn lemma_lookup_chars_514()
    ensures
        name_chars_from(lookup_name(514), 0),
{
    reveal_strlit("offset-distance");
    reveal_with_fuel(name_chars_from, 17);
}

proof fn lemma_lookup_chars_515()
    ensures
        name_chars_from(lookup_name(515), 0),
{
    reveal_strlit("offset-path");
    reveal_with_fuel(name_chars_from, 13);
}

proof fn lemma_lookup_chars_516()
    ensures
        name_chars_from(lookup_name(516), 0),
{
    reveal_strlit("offset-position");
    reveal_with_fuel(name_chars_from, 17);
}

proof fn lemma_lookup_chars_517()
    ensures
        name_chars_from(lookup_name(517), 0),
{
    reveal_strlit("offset-rotate");
    reveal_with_fuel(name_chars_from, 15);
}

proof fn lemma_lookup_chars_518()
    ensures
        name_chars_from(lookup_name(518), 0),
{
    reveal_strlit("opacity");
    reveal_with_fuel(name_chars_from, 9);
}

proof fn lemma_lookup_chars_519()
    ensures
        name_chars_from(lookup_name(519), 0),
{
    reveal_strlit("order");
    reveal_with_fuel(name_chars_from, 7);
}

proof fn lemma_lookup_chars_520()
    ensures
        name_chars_from(lookup_name(520), 0),
{
    reveal_strlit("orphans");
    reveal_with_fuel(name_chars_from, 9);
}

proof fn lemma_lookup_chars_521()
    ensures
        name_chars_from(lookup_name(521), 0),
{
    reveal_strlit("outline");
    reveal_with_fuel(name_chars_from, 9);
}

proof fn lemma_lookup_chars_522()
    ensures
        name_chars_from(lookup_name(522), 0),
{
    reveal_strlit("outline-color");
    reveal_with_fuel(name_chars_from, 15);
}

proof fn lemma_lookup_chars_523()
    ensures
        name_chars_from(lookup_name(523), 0),
{
    reveal_strlit("outline-offset");
    reveal_with_fuel(name_chars_from, 16);
}

proof fn lemma_lookup_chars_524()
    ensures
        name_chars_from(lookup_name(524), 0),
{
    reveal_strlit("outline-style");
    reveal_with_fuel(name_chars_from, 15);
}

proof fn lemma_lookup_chars_525()
    ensures
        name_chars_from(lookup_name(525), 0),
{
    reveal_strlit("outline-width");
    reveal_with_fuel(name_chars_from, 15);
}

proof fn lemma_lookup_chars_526()
    ensures
        name_chars_from(lookup_name(526), 0),
{
    reveal_strlit("overflow");
    reveal_with_fuel(name_chars_from, 10);
}

proof fn lemma_lookup_chars_527()
    ensures
        name_chars_from(lookup_name(527), 0),
{
    reveal_strlit("overflow-anchor");
    reveal_with_fuel(name_chars_from, 17);
}

proof fn lemma_lookup_chars_528()
    ensures
        name_chars_from(lookup_name(528), 0),
{
    reveal_strlit("overflow-block");
    reveal_with_fuel(name_chars_from, 16);
}

proof fn lemma_lookup_chars_529()
    ensures
        name_chars_from(lookup_name(529), 0),
{
    reveal_strlit("overflow-clip-margin");
    reveal_with_fuel(name_chars_from, 22);
}

proof fn lemma_lookup_chars_530()
    ensures
        name_chars_from(lookup_name(530), 0),
{
    reveal_strlit("overflow-clip-margin-block");
    reveal_with_fuel(name_chars_from, 28);
}

proof fn lemma_lookup_chars_531()
    ensures
        name_chars_from(lookup_name(531), 0),
{
    reveal_strlit("overflow-clip-margin-block-end");
    reveal_with_fuel(name_chars_from, 32);
}

proof fn lemma_lookup_chars_532()
    ensures
        name_chars_from(lookup_name(532), 0),
{
    reveal_strlit("overflow-clip-margin-block-start");
    reveal_with_fuel(name_chars_from, 34);
}

proof fn lemma_lookup_chars_533()
    ensures
        name_chars_from(lookup_name(533), 0),
{
    reveal_strlit("overflow-clip-margin-bottom");
    reveal_with_fuel(name_chars_from, 29);
}

proof fn lemma_lookup_chars_534()
    ensures
        name_chars_from(lookup_name(534), 0),
{
    reveal_strlit("overflow-clip-margin-inline");
    reveal_with_fuel(name_chars_from, 29);
}

proof fn lemma_lookup_chars_535()
    ensures
        name_chars_from(lookup_name(535), 0),
{
    reveal_strlit("overflow-clip-margin-inline-end");
    reveal_with_fuel(name_chars_from, 33);
}

proof fn lemma_lookup_chars_536()
    ensures
        name_chars_from(lookup_name(536), 0),
{
    reveal_strlit("overflow-clip-margin-inline-start");
    reveal_with_fuel(name_chars_from, 35);
}

proof fn lemma_lookup_chars_537()
    ensures
        name_chars_from(lookup_name(537), 0),
{
    reveal_strlit("overflow-clip-margin-left");
    reveal_with_fuel(name_chars_from, 27);
}

proof fn lemma_lookup_chars_538()
    ensures
        name_chars_from(lookup_name(538), 0),
{
    reveal_strlit("overflow-clip-margin-right");
    reveal_with_fuel(name_chars_from, 28);
}

proof fn lemma_lookup_chars_539()
    ensures
        name_chars_from(lookup_name(539), 0),
{
    reveal_strlit("overflow-clip-margin-top");
    reveal_with_fuel(name_chars_from, 26);
}

proof fn lemma_lookup_chars_540()
    ensures
        name_chars_from(lookup_name(540), 0),
{
    reveal_strlit("overflow-inline");
    reveal_with_fuel(name_chars_from, 17);
}

proof fn lemma_lookup_chars_541()
    ensures
        name_chars_from(lookup_name(541), 0),
{
    reveal_strlit("overflow-wrap");
    reveal_with_fuel(name_chars_from, 15);
}

proof fn lemma_lookup_chars_542()
    ensures
        name_chars_from(lookup_name(542), 0),
{
    reveal_strlit("overflow-x");
    reveal_with_fuel(name_chars_from, 12);
}

proof fn lemma_lookup_chars_543()
    ensures
        name_chars_from(lookup_name(543), 0),
{
    reveal_strlit("overflow-y");
    reveal_with_fuel(name_chars_from, 12);
}

proof fn lemma_lookup_chars_544()
    ensures
        name_chars_from(lookup_name(544), 0),
{
    reveal_strlit("overlay");
    reveal_with_fuel(name_chars_from, 9);
}

proof fn lemma_lookup_chars_545()
    ensures
        name_chars_from(lookup_name(545), 0),
{
    reveal_strlit("overscroll-behavior");
    reveal_with_fuel(name_chars_from, 21);
}

proof fn lemma_lookup_chars_546()
    ensures
        name_chars_from(lookup_name(546), 0),
{
    reveal_strlit("overscroll-behavior-block");
    reveal_with_fuel(name_chars_from, 27);
}

proof fn lemma_lookup_chars_547()
    ensures
        name_chars_from(lookup_name(547), 0),
{
    reveal_strlit("overscroll-behavior-inline");
    reveal_with_fuel(name_chars_from, 28);
}

proof fn lemma_lookup_chars_548()
    ensures
        name_chars_from(lookup_name(548), 0),
{
    reveal_strlit("overscroll-behavior-x");
    reveal_with_fuel(name_chars_from, 23);
}

proof fn lemma_lookup_chars_549()
    ensures
        name_chars_from(lookup_name(549), 0),
{
    reveal_strlit("overscroll-behavior-y");
    reveal_with_fuel(name_chars_from, 23);
}

proof fn lemma_lookup_chars_550()
    ensures
        name_chars_from(lookup_name(550), 0),
{
    reveal_strlit("padding");
    reveal_with_fuel(name_chars_from, 9);
}

proof fn lemma_lookup_chars_551()
    ensures
        name_chars_from(lookup_name(551), 0),
{
    reveal_strlit("padding-block");
    reveal_with_fuel(name_chars_from, 15);
}

proof fn lemma_lookup_chars_552()
    ensures
        name_chars_from(lookup_name(552), 0),
{
    reveal_strlit("padding-block-end");
    reveal_with_fuel(name_chars_from, 19);
}

proof fn lemma_lookup_chars_553()
    ensures
        name_chars_from(lookup_name(553), 0),
{
    reveal_strlit("padding-block-start");
    reveal_with_fuel(name_chars_from, 21);
}

proof fn lemma_lookup_chars_554()
    ensures
        name_chars_from(lookup_name(554), 0),
{
    reveal_strlit("padding-bottom");
    reveal_with_fuel(name_chars_from, 16);
}

proof fn lemma_lookup_chars_555()
    ensures
        name_chars_from(lookup_name(555), 0),
{
    reveal_strlit("padding-inline");
    reveal_with_fuel(name_chars_from, 16);
}

proof fn lemma_lookup_chars_556()
    ensures
        name_chars_from(lookup_name(556), 0),
{
    reveal_strlit("padding-inline-end");
    reveal_with_fuel(name_chars_from, 20);
}

proof fn lemma_lookup_chars_557()
    ensures
        name_chars_from(lookup_name(557), 0),
{
    reveal_strlit("padding-inline-start");
    reveal_with_fuel(name_chars_from, 22);
}

proof fn lemma_lookup_chars_558()
    ensures
        name_chars_from(lookup_name(558), 0),
{
    reveal_strlit("padding-left");
    reveal_with_fuel(name_chars_from, 14);
}

proof fn lemma_lookup_chars_559()
    ensures
        name_chars_from(lookup_name(559), 0),
{
    reveal_strlit("padding-right");
    reveal_with_fuel(name_chars_from, 15);
}

proof fn lemma_lookup_chars_560()
    ensures
        name_chars_from(lookup_name(560), 0),
{
    reveal_strlit("padding-top");
    reveal_with_fuel(name_chars_from, 13);
}

proof fn lemma_lookup_chars_561()
    ensures
        name_chars_from(lookup_name(561), 0),
{
    reveal_strlit("page");
    reveal_with_fuel(name_chars_from, 6);
}

proof fn lemma_lookup_chars_562()
    ensures
        name_chars_from(lookup_name(562), 0),
{
    reveal_strlit("page-break-after");
    reveal_with_fuel(name_chars_from, 18);
}

proof fn lemma_lookup_chars_563()
    ensures
        name_chars_from(lookup_name(563), 0),
{
    reveal_strlit("page-break-before");
    reveal_with_fuel(name_chars_from, 19);
}

proof fn lemma_lookup_chars_564()
    ensures
        name_chars_from(lookup_name(564), 0),
{
    reveal_strlit("page-break-inside");
    reveal_with_fuel(name_chars_from, 19);
}

proof fn lemma_lookup_chars_565()
    ensures
        name_chars_from(lookup_name(565), 0),
{
    reveal_strlit("paint-order");
    reveal_with_fuel(name_chars_from, 13);
}

proof fn lemma_lookup_chars_566()
    ensures
        name_chars_from(lookup_name(566), 0),
{
    reveal_strlit("path-length");
    reveal_with_fuel(name_chars_from, 13);
}

proof fn lemma_lookup_chars_567()
    ensures
        name_chars_from(lookup_name(567), 0),
{
    reveal_strlit("pause");
    reveal_with_fuel(name_chars_from, 7);
}

proof fn lemma_lookup_chars_568()
    ensures
        name_chars_from(lookup_name(568), 0),
{
    reveal_strlit("pause-after");
    reveal_with_fuel(name_chars_from, 13);
}

proof fn lemma_lookup_chars_569()
    ensures
        name_chars_from(lookup_name(569), 0),
{
    reveal_strlit("pause-before");
    reveal_with_fuel(name_chars_from, 14);
}

proof fn lemma_lookup_chars_570()
    ensures
        name_chars_from(lookup_name(570), 0),
{
    reveal_strlit("perspective");
    reveal_with_fuel(name_chars_from, 13);
}

proof fn lemma_lookup_chars_571()
    ensures
        name_chars_from(lookup_name(571), 0),
{
    reveal_strlit("perspective-origin");
    reveal_with_fuel(name_chars_from, 20);
}

proof fn lemma_lookup_chars_572()
    ensures
        name_chars_from(lookup_name(572), 0),
{
    reveal_strlit("place-content");
    reveal_with_fuel(name_chars_from, 15);
}

proof fn lemma_lookup_chars_573()
    ensures
        name_chars_from(lookup_name(573), 0),
{
    reveal_strlit("place-items");
    reveal_with_fuel(name_chars_from, 13);
}

proof fn lemma_lookup_chars_574()
    ensures
        name_chars_from(lookup_name(574), 0),
{
    reveal_strlit("place-self");
    reveal_with_fuel(name_chars_from, 12);
}

proof fn lemma_lookup_chars_575()
    ensures
        name_chars_from(lookup_name(575), 0),
{
    reveal_strlit("pointer-events");
    reveal_with_fuel(name_chars_from, 16);
}

proof fn lemma_lookup_chars_576()
    ensures
        name_chars_from(lookup_name(576), 0),
{
    reveal_strlit("pointer-timeline");
    reveal_with_fuel(name_chars_from, 18);
}

proof fn lemma_lookup_chars_577()
    ensures
        name_chars_from(lookup_name(577), 0),
{
    reveal_strlit("pointer-timeline-axis");
    reveal_with_fuel(name_chars_from, 23);
}

proof fn lemma_lookup_chars_578()
    ensures
        name_chars_from(lookup_name(578), 0),
{
    reveal_strlit("pointer-timeline-name");
    reveal_with_fuel(name_chars_from, 23);
}

proof fn lemma_lookup_chars_579()
    ensures
        name_chars_from(lookup_name(579), 0),
{
    reveal_strlit("position");
    reveal_with_fuel(name_chars_from, 10);
}

proof fn lemma_lookup_chars_580()
    ensures
        name_chars_from(lookup_name(580), 0),
{
    reveal_strlit("position-anchor");
    reveal_with_fuel(name_chars_from, 17);
}

proof fn lemma_lookup_chars_581()
    ensures
        name_chars_from(lookup_name(581), 0),
{
    reveal_strlit("position-area");
    reveal_with_fuel(name_chars_from, 15);
}

proof fn lemma_lookup_chars_582()
    ensures
        name_chars_from(lookup_name(582), 0),
{
    reveal_strlit("position-try");
    reveal_with_fuel(name_chars_from, 14);
}

proof fn lemma_lookup_chars_583()
    ensures
        name_chars_from(lookup_name(583), 0),
{
    reveal_strlit("position-try-fallbacks");
    reveal_with_fuel(name_chars_from, 24);
}

proof fn lemma_lookup_chars_584()
    ensures
        name_chars_from(lookup_name(584), 0),
{
    reveal_strlit("position-try-order");
    reveal_with_fuel(name_chars_from, 20);
}

proof fn lemma_lookup_chars_585()
    ensures
        name_chars_from(lookup_name(585), 0),
{
    reveal_strlit("position-visibility");
    reveal_with_fuel(name_chars_from, 21);
}

proof fn lemma_lookup_chars_586()
    ensures
        name_chars_from(lookup_name(586), 0),
{
    reveal_strlit("print-color-adjust");
    reveal_with_fuel(name_chars_from, 20);
}

proof fn lemma_lookup_chars_587()
    ensures
        name_chars_from(lookup_name(587), 0),
{
    reveal_strlit("quotes");
    reveal_with_fuel(name_chars_from, 8);
}

proof fn lemma_lookup_chars_588()
    ensures
        name_chars_from(lookup_name(588), 0),
{
    reveal_strlit("r");
    reveal_with_fuel(name_chars_from, 3);
}

proof fn lemma_lookup_chars_589()
    ensures
        name_chars_from(lookup_name(589), 0),
{
    reveal_strlit("reading-flow");
    reveal_with_fuel(name_chars_from, 14);
}

proof fn lemma_lookup_chars_590()
    ensures
        name_chars_from(lookup_name(590), 0),
{
    reveal_strlit("reading-order");
    reveal_with_fuel(name_chars_from, 15);
}

proof fn lemma_lookup_chars_591()
    ensures
        name_chars_from(lookup_name(591), 0),
{
    reveal_strlit("region-fragment");
    reveal_with_fuel(name_chars_from, 17);
}

proof fn lemma_lookup_chars_592()
    ensures
        name_chars_from(lookup_name(592), 0),
{
    reveal_strlit("resize");
    reveal_with_fuel(name_chars_from, 8);
}

proof fn lemma_lookup_chars_593()
    ensures
        name_chars_from(lookup_name(593), 0),
{
    reveal_strlit("rest");
    reveal_with_fuel(name_chars_from, 6);
}

proof fn lemma_lookup_chars_594()
    ensures
        name_chars_from(lookup_name(594), 0),
{
    reveal_strlit("rest-after");
    reveal_with_fuel(name_chars_from, 12);
}

proof fn lemma_lookup_chars_595()
    ensures
        name_chars_from(lookup_name(595), 0),
{
    reveal_strlit("rest-before");
    reveal_with_fuel(name_chars_from, 13);
}

proof fn lemma_lookup_chars_596()
    ensures
        name_chars_from(lookup_name(596), 0),
{
    reveal_strlit("right");
    reveal_with_fuel(name_chars_from, 7);
}

proof fn lemma_lookup_chars_597()
    ensures
        name_chars_from(lookup_name(597), 0),
{
    reveal_strlit("rotate");
    reveal_with_fuel(name_chars_from, 8);
}

proof fn lemma_lookup_chars_598()
    ensures
        name_chars_from(lookup_name(598), 0),
{
    reveal_strlit("row-gap");
    reveal_with_fuel(name_chars_from, 9);
}

proof fn lemma_lookup_chars_599()
    ensures
        name_chars_from(lookup_name(599), 0),
{
    reveal_strlit("row-rule");
    reveal_with_fuel(name_chars_from, 10);
}

proof fn lemma_lookup_chars_600()
    ensures
        name_chars_from(lookup_name(600), 0),
{
    reveal_strlit("row-rule-break");
    reveal_with_fuel(name_chars_from, 16);
}

proof fn lemma_lookup_chars_601()
    ensures
        name_chars_from(lookup_name(601), 0),
{
    reveal_strlit("row-rule-color");
    reveal_with_fuel(name_chars_from, 16);
}

proof fn lemma_lookup_chars_602()
    ensures
        name_chars_from(lookup_name(602), 0),
{
    reveal_strlit("row-rule-inset");
    reveal_with_fuel(name_chars_from, 16);
}

proof fn lemma_lookup_chars_603()
    ensures
        name_chars_from(lookup_name(603), 0),
{
    reveal_strlit("row-rule-inset-cap");
    reveal_with_fuel(name_chars_from, 20);
}

proof fn lemma_lookup_chars_604()
    ensures
        name_chars_from(lookup_name(604), 0),
{
    reveal_strlit("row-rule-inset-cap-end");
    reveal_with_fuel(name_chars_from, 24);
}

proof fn lemma_lookup_chars_605()
    ensures
        name_chars_from(lookup_name(605), 0),
{
    reveal_strlit("row-rule-inset-cap-start");
    reveal_with_fuel(name_chars_from, 26);
}

proof fn lemma_lookup_chars_606()
    ensures
        name_chars_from(lookup_name(606), 0),
{
    reveal_strlit("row-rule-inset-end");
    reveal_with_fuel(name_chars_from, 20);
}

proof fn lemma_lookup_chars_607()
    ensures
        name_chars_from(lookup_name(607), 0),
{
    reveal_strlit("row-rule-inset-junction");
    reveal_with_fuel(name_chars_from, 25);
}

proof fn lemma_lookup_chars_608()
    ensures
        name_chars_from(lookup_name(608), 0),
{
    reveal_strlit("row-rule-inset-junction-end");
    reveal_with_fuel(name_chars_from, 29);
}

proof fn lemma_lookup_chars_609()
    ensures
        name_chars_from(lookup_name(609), 0),
{
    reveal_strlit("row-rule-inset-junction-start");
    reveal_with_fuel(name_chars_from, 31);
}

proof fn lemma_lookup_chars_610()
    ensures
        name_chars_from(lookup_name(610), 0),
{
    reveal_strlit("row-rule-inset-start");
    reveal_with_fuel(name_chars_from, 22);
}

proof fn lemma_lookup_chars_611()
    ensures
        name_chars_from(lookup_name(611), 0),
{
    reveal_strlit("row-rule-style");
    reveal_with_fuel(name_chars_from, 16);
}

proof fn lemma_lookup_chars_612()
    ensures
        name_chars_from(lookup_name(612), 0),
{
    reveal_strlit("row-rule-visibility-items");
    reveal_with_fuel(name_chars_from, 27);
}

proof fn lemma_lookup_chars_613()
    ensures
        name_chars_from(lookup_name(613), 0),
{
    reveal_strlit("row-rule-width");
    reveal_with_fuel(name_chars_from, 16);
}

proof fn lemma_lookup_chars_614()
    ensures
        name_chars_from(lookup_name(614), 0),
{
    reveal_strlit("ruby-align");
    reveal_with_fuel(name_chars_from, 12);
}

proof fn lemma_lookup_chars_615()
    ensures
        name_chars_from(lookup_name(615), 0),
{
    reveal_strlit("ruby-merge");
    reveal_with_fuel(name_chars_from, 12);
}

proof fn lemma_lookup_chars_616()
    ensures
        name_chars_from(lookup_name(616), 0),
{
    reveal_strlit("ruby-overhang");
    reveal_with_fuel(name_chars_from, 15);
}

proof fn lemma_lookup_chars_617()
    ensures
        name_chars_from(lookup_name(617), 0),
{
    reveal_strlit("ruby-position");
    reveal_with_fuel(name_chars_from, 15);
}

proof fn lemma_lookup_chars_618()
    ensures
        name_chars_from(lookup_name(618), 0),
{
    reveal_strlit("rule");
    reveal_with_fuel(name_chars_from, 6);
}

proof fn lemma_lookup_chars_619()
    ensures
        name_chars_from(lookup_name(619), 0),
{
    reveal_strlit("rule-break");
    reveal_with_fuel(name_chars_from, 12);
}

proof fn lemma_lookup_chars_620()
    ensures
        name_chars_from(lookup_name(620), 0),
{
    reveal_strlit("rule-color");
    reveal_with_fuel(name_chars_from, 12);
}

proof fn lemma_lookup_chars_621()
    ensures
        name_chars_from(lookup_name(621), 0),
{
    reveal_strlit("rule-inset");
    reveal_with_fuel(name_chars_from, 12);
}

proof fn lemma_lookup_chars_622()
    ensures
        name_chars_from(lookup_name(622), 0),
{
    reveal_strlit("rule-inset-cap");
    reveal_with_fuel(name_chars_from, 16);
}

proof fn lemma_lookup_chars_623()
    ensures
        name_chars_from(lookup_name(623), 0),
{
    reveal_strlit("rule-inset-end");
    reveal_with_fuel(name_chars_from, 16);
}

proof fn lemma_lookup_chars_624()
    ensures
        name_chars_from(lookup_name(624), 0),
{
    reveal_strlit("rule-inset-junction");
    reveal_with_fuel(name_chars_from, 21);
}

proof fn lemma_lookup_chars_625()
    ensures
        name_chars_from(lookup_name(625), 0),
{
    reveal_strlit("rule-inset-start");
    reveal_with_fuel(name_chars_from, 18);
}

proof fn lemma_lookup_chars_626()
    ensures
        name_chars_from(lookup_name(626), 0),
{
    reveal_strlit("rule-overlap");
    reveal_with_fuel(name_chars_from, 14);
}

proof fn lemma_lookup_chars_627()
    ensures
        name_chars_from(lookup_name(627), 0),
{
    reveal_strlit("rule-style");
    reveal_with_fuel(name_chars_from, 12);
}

proof fn lemma_lookup_chars_628()
    ensures
        name_chars_from(lookup_name(628), 0),
{
    reveal_strlit("rule-visibility-items");
    reveal_with_fuel(name_chars_from, 23);
}

proof fn lemma_lookup_chars_629()
    ensures
        name_chars_from(lookup_name(629), 0),
{
    reveal_strlit("rule-width");
    reveal_with_fuel(name_chars_from, 12);
}

proof fn lemma_lookup_chars_630()
    ensures
        name_chars_from(lookup_name(630), 0),
{
    reveal_strlit("rx");
    reveal_with_fuel(name_chars_from, 4);
}

proof fn lemma_lookup_chars_631()
    ensures
        name_chars_from(lookup_name(631), 0),
{
    reveal_strlit("ry");
    reveal_with_fuel(name_chars_from, 4);
}

proof fn lemma_lookup_chars_632()
    ensures
        name_chars_from(lookup_name(632), 0),
{
    reveal_strlit("scale");
    reveal_with_fuel(name_chars_from, 7);
}

proof fn lemma_lookup_chars_633()
    ensures
        name_chars_from(lookup_name(633), 0),
{
    reveal_strlit("scroll-behavior");
    reveal_with_fuel(name_chars_from, 17);
}

proof fn lemma_lookup_chars_634()
    ensures
        name_chars_from(lookup_name(634), 0),
{
    reveal_strlit("scroll-initial-target");
    reveal_with_fuel(name_chars_from, 23);
}

proof fn lemma_lookup_chars_635()
    ensures
        name_chars_from(lookup_name(635), 0),
{
    reveal_strlit("scroll-margin");
    reveal_with_fuel(name_chars_from, 15);
}

proof fn lemma_lookup_chars_636()
    ensures
        name_chars_from(lookup_name(636), 0),
{
    reveal_strlit("scroll-margin-block");
    reveal_with_fuel(name_chars_from, 21);
}

proof fn lemma_lookup_chars_637()
    ensures
        name_chars_from(lookup_name(637), 0),
{
    reveal_strlit("scroll-margin-block-end");
    reveal_with_fuel(name_chars_from, 25);
}

proof fn lemma_lookup_chars_638()
    ensures
        name_chars_from(lookup_name(638), 0),
{
    reveal_strlit("scroll-margin-block-start");
    reveal_with_fuel(name_chars_from, 27);
}

proof fn lemma_lookup_chars_639()
    ensures
        name_chars_from(lookup_name(639), 0),
{
    reveal_strlit("scroll-margin-bottom");
    reveal_with_fuel(name_chars_from, 22);
}

proof fn lemma_lookup_chars_640()
    ensures
        name_chars_from(lookup_name(640), 0),
{
    reveal_strlit("scroll-margin-inline");
    reveal_with_fuel(name_chars_from, 22);
}

proof fn lemma_lookup_chars_641()
    ensures
        name_chars_from(lookup_name(641), 0),
{
    reveal_strlit("scroll-margin-inline-end");
    reveal_with_fuel(name_chars_from, 26);
}

proof fn lemma_lookup_chars_642()
    ensures
        name_chars_from(lookup_name(642), 0),
{
    reveal_strlit("scroll-margin-inline-start");
    reveal_with_fuel(name_chars_from, 28);
}

proof fn lemma_lookup_chars_643()
    ensures
        name_chars_from(lookup_name(643), 0),
{
    reveal_strlit("scroll-margin-left");
    reveal_with_fuel(name_chars_from, 20);
}

proof fn lemma_lookup_chars_644()
    ensures
        name_chars_from(lookup_name(644), 0),
{
    reveal_strlit("scroll-margin-right");
    reveal_with_fuel(name_chars_from, 21);
}

proof fn lemma_lookup_chars_645()
    ensures
        name_chars_from(lookup_name(645), 0),
{
    reveal_strlit("scroll-margin-top");
    reveal_with_fuel(name_chars_from, 19);
}

proof fn lemma_lookup_chars_646()
    ensures
        name_chars_from(lookup_name(646), 0),
{
    reveal_strlit("scroll-marker-group");
    reveal_with_fuel(name_chars_from, 21);
}

proof fn lemma_lookup_chars_647()
    ensures
        name_chars_from(lookup_name(647), 0),
{
    reveal_strlit("scroll-padding");
    reveal_with_fuel(name_chars_from, 16);
}

proof fn lemma_lookup_chars_648()
    ensures
        name_chars_from(lookup_name(648), 0),
{
    reveal_strlit("scroll-padding-block");
    reveal_with_fuel(name_chars_from, 22);
}

proof fn lemma_lookup_chars_649()
    ensures
        name_chars_from(lookup_name(649), 0),
{
    reveal_strlit("scroll-padding-block-end");
    reveal_with_fuel(name_chars_from, 26);
}

proof fn lemma_lookup_chars_650()
    ensures
        name_chars_from(lookup_name(650), 0),
{
    reveal_strlit("scroll-padding-block-start");
    reveal_with_fuel(name_chars_from, 28);
}

proof fn lemma_lookup_chars_651()
    ensures
        name_chars_from(lookup_name(651), 0),
{
    reveal_strlit("scroll-padding-bottom");
    reveal_with_fuel(name_chars_from, 23);
}

proof fn lemma_lookup_chars_652()
    ensures
        name_chars_from(lookup_name(652), 0),
{
    reveal_strlit("scroll-padding-inline");
    reveal_with_fuel(name_chars_from, 23);
}

proof fn lemma_lookup_chars_653()
    ensures
        name_chars_from(lookup_name(653), 0),
{
    reveal_strlit("scroll-padding-inline-end");
    reveal_with_fuel(name_chars_from, 27);
}

proof fn lemma_lookup_chars_654()
    ensures
        name_chars_from(lookup_name(654), 0),
{
    reveal_strlit("scroll-padding-inline-start");
    reveal_with_fuel(name_chars_from, 29);
}

proof fn lemma_lookup_chars_655()
    ensures
        name_chars_from(lookup_name(655), 0),
{
    reveal_strlit("scroll-padding-left");
    reveal_with_fuel(name_chars_from, 21);
}

proof fn lemma_lookup_chars_656()
    ensures
        name_chars_from(lookup_name(656), 0),
{
    reveal_strlit("scroll-padding-right");
    reveal_with_fuel(name_chars_from, 22);
}

proof fn lemma_lookup_chars_657()
    ensures
        name_chars_from(lookup_name(657), 0),
{
    reveal_strlit("scroll-padding-top");
    reveal_with_fuel(name_chars_from, 20);
}

proof fn lemma_lookup_chars_658()
    ensures
        name_chars_from(lookup_name(658), 0),
{
    reveal_strlit("scroll-snap-align");
    reveal_with_fuel(name_chars_from, 19);
}

proof fn lemma_lookup_chars_659()
    ensures
        name_chars_from(lookup_name(659), 0),
{
    reveal_strlit("scroll-snap-stop");
    reveal_with_fuel(name_chars_from, 18);
}

proof fn lemma_lookup_chars_660()
    ensures
        name_chars_from(lookup_name(660), 0),
{
    reveal_strlit("scroll-snap-type");
    reveal_with_fuel(name_chars_from, 18);
}

proof fn lemma_lookup_chars_661()
    ensures
        name_chars_from(lookup_name(661), 0),
{
    reveal_strlit("scroll-target-group");
    reveal_with_fuel(name_chars_from, 21);
}

proof fn lemma_lookup_chars_662()
    ensures
        name_chars_from(lookup_name(662), 0),
{
    reveal_strlit("scroll-timeline");
    reveal_with_fuel(name_chars_from, 17);
}

proof fn lemma_lookup_chars_663()
    ensures
        name_chars_from(lookup_name(663), 0),
{
    reveal_strlit("scroll-timeline-axis");
    reveal_with_fuel(name_chars_from, 22);
}

proof fn lemma_lookup_chars_664()
    ensures
        name_chars_from(lookup_name(664), 0),
{
    reveal_strlit("scroll-timeline-name");
    reveal_with_fuel(name_chars_from, 22);
}

proof fn lemma_lookup_chars_665()
    ensures
        name_chars_from(lookup_name(665), 0),
{
    reveal_strlit("scrollbar-color");
    reveal_with_fuel(name_chars_from, 17);
}

proof fn lemma_lookup_chars_666()
    ensures
        name_chars_from(lookup_name(666), 0),
{
    reveal_strlit("scrollbar-gutter");
    reveal_with_fuel(name_chars_from, 18);
}

proof fn lemma_lookup_chars_667()
    ensures
        name_chars_from(lookup_name(667), 0),
{
    reveal_strlit("scrollbar-inset");
    reveal_with_fuel(name_chars_from, 17);
}

proof fn lemma_lookup_chars_668()
    ensures
        name_chars_from(lookup_name(668), 0),
{
    reveal_strlit("scrollbar-min-thumb-size");
    reveal_with_fuel(name_chars_from, 26);
}

proof fn lemma_lookup_chars_669()
    ensures
        name_chars_from(lookup_name(669), 0),
{
    reveal_strlit("scrollbar-mode");
    reveal_with_fuel(name_chars_from, 16);
}

proof fn lemma_lookup_chars_670()
    ensures
        name_chars_from(lookup_name(670), 0),
{
    reveal_strlit("scrollbar-width");
    reveal_with_fuel(name_chars_from, 17);
}

proof fn lemma_lookup_chars_671()
    ensures
        name_chars_from(lookup_name(671), 0),
{
    reveal_strlit("shape-image-threshold");
    reveal_with_fuel(name_chars_from, 23);
}

proof fn lemma_lookup_chars_672()
    ensures
        name_chars_from(lookup_name(672), 0),
{
    reveal_strlit("shape-inside");
    reveal_with_fuel(name_chars_from, 14);
}

proof fn lemma_lookup_chars_673()
    ensures
        name_chars_from(lookup_name(673), 0),
{
    reveal_strlit("shape-margin");
    reveal_with_fuel(name_chars_from, 14);
}

proof fn lemma_lookup_chars_674()
    ensures
        name_chars_from(lookup_name(674), 0),
{
    reveal_strlit("shape-outside");
    reveal_with_fuel(name_chars_from, 15);
}

proof fn lemma_lookup_chars_675()
    ensures
        name_chars_from(lookup_name(675), 0),
{
    reveal_strlit("shape-padding");
    reveal_with_fuel(name_chars_from, 15);
}

proof fn lemma_lookup_chars_676()
    ensures
        name_chars_from(lookup_name(676), 0),
{
    reveal_strlit("shape-rendering");
    reveal_with_fuel(name_chars_from, 17);
}

proof fn lemma_lookup_chars_677()
    ensures
        name_chars_from(lookup_name(677), 0),
{
    reveal_strlit("slider-orientation");
    reveal_with_fuel(name_chars_from, 20);
}

proof fn lemma_lookup_chars_678()
    ensures
        name_chars_from(lookup_name(678), 0),
{
    reveal_strlit("spatial-navigation-action");
    reveal_with_fuel(name_chars_from, 27);
}

proof fn lemma_lookup_chars_679()
    ensures
        name_chars_from(lookup_name(679), 0),
{
    reveal_strlit("spatial-navigation-contain");
    reveal_with_fuel(name_chars_from, 28);
}

proof fn lemma_lookup_chars_680()
    ensures
        name_chars_from(lookup_name(680), 0),
{
    reveal_strlit("spatial-navigation-function");
    reveal_with_fuel(name_chars_from, 29);
}

proof fn lemma_lookup_chars_681()
    ensures
        name_chars_from(lookup_name(681), 0),
{
    reveal_strlit("speak");
    reveal_with_fuel(name_chars_from, 7);
}

proof fn lemma_lookup_chars_682()
    ensures
        name_chars_from(lookup_name(682), 0),
{
    reveal_strlit("speak-as");
    reveal_with_fuel(name_chars_from, 10);
}

proof fn lemma_lookup_chars_683()
    ensures
        name_chars_from(lookup_name(683), 0),
{
    reveal_strlit("stop-color");
    reveal_with_fuel(name_chars_from, 12);
}

proof fn lemma_lookup_chars_684()
    ensures
        name_chars_from(lookup_name(684), 0),
{
    reveal_strlit("stop-opacity");
    reveal_with_fuel(name_chars_from, 14);
}

proof fn lemma_lookup_chars_685()
    ensures
        name_chars_from(lookup_name(685), 0),
{
    reveal_strlit("string-set");
    reveal_with_fuel(name_chars_from, 12);
}

proof fn lemma_lookup_chars_686()
    ensures
        name_chars_from(lookup_name(686), 0),
{
    reveal_strlit("stroke");
    reveal_with_fuel(name_chars_from, 8);
}

proof fn lemma_lookup_chars_687()
    ensures
        name_chars_from(lookup_name(687), 0),
{
    reveal_strlit("stroke-align");
    reveal_with_fuel(name_chars_from, 14);
}

proof fn lemma_lookup_chars_688()
    ensures
        name_chars_from(lookup_name(688), 0),
{
    reveal_strlit("stroke-alignment");
    reveal_with_fuel(name_chars_from, 18);
}

proof fn lemma_lookup_chars_689()
    ensures
        name_chars_from(lookup_name(689), 0),
{
    reveal_strlit("stroke-break");
    reveal_with_fuel(name_chars_from, 14);
}

proof fn lemma_lookup_chars_690()
    ensures
        name_chars_from(lookup_name(690), 0),
{
    reveal_strlit("stroke-color");
    reveal_with_fuel(name_chars_from, 14);
}

proof fn lemma_lookup_chars_691()
    ensures
        name_chars_from(lookup_name(691), 0),
{
    reveal_strlit("stroke-dash-corner");
    reveal_with_fuel(name_chars_from, 20);
}

proof fn lemma_lookup_chars_692()
    ensures
        name_chars_from(lookup_name(692), 0),
{
    reveal_strlit("stroke-dash-justify");
    reveal_with_fuel(name_chars_from, 21);
}

proof fn lemma_lookup_chars_693()
    ensures
        name_chars_from(lookup_name(693), 0),
{
    reveal_strlit("stroke-dashadjust");
    reveal_with_fuel(name_chars_from, 19);
}

proof fn lemma_lookup_chars_694()
    ensures
        name_chars_from(lookup_name(694), 0),
{
    reveal_strlit("stroke-dasharray");
    reveal_with_fuel(name_chars_from, 18);
}

proof fn lemma_lookup_chars_695()
    ensures
        name_chars_from(lookup_name(695), 0),
{
    reveal_strlit("stroke-dashcorner");
    reveal_with_fuel(name_chars_from, 19);
}

proof fn lemma_lookup_chars_696()
    ensures
        name_chars_from(lookup_name(696), 0),
{
    reveal_strlit("stroke-dashoffset");
    reveal_with_fuel(name_chars_from, 19);
}

proof fn lemma_lookup_chars_697()
    ensures
        name_chars_from(lookup_name(697), 0),
{
    reveal_strlit("stroke-image");
    reveal_with_fuel(name_chars_from, 14);
}

proof fn lemma_lookup_chars_698()
    ensures
        name_chars_from(lookup_name(698), 0),
{
    reveal_strlit("stroke-linecap");
    reveal_with_fuel(name_chars_from, 16);
}

proof fn lemma_lookup_chars_699()
    ensures
        name_chars_from(lookup_name(699), 0),
{
    reveal_strlit("stroke-linejoin");
    reveal_with_fuel(name_chars_from, 17);
}

proof fn lemma_lookup_chars_700()
    ensures
        name_chars_from(lookup_name(700), 0),
{
    reveal_strlit("stroke-miterlimit");
    reveal_with_fuel(name_chars_from, 19);
}

proof fn lemma_lookup_chars_701()
    ensures
        name_chars_from(lookup_name(701), 0),
{
    reveal_strlit("stroke-opacity");
    reveal_with_fuel(name_chars_from, 16);
}

proof fn lemma_lookup_chars_702()
    ensures
        name_chars_from(lookup_name(702), 0),
{
    reveal_strlit("stroke-origin");
    reveal_with_fuel(name_chars_from, 15);
}

proof fn lemma_lookup_chars_703()
    ensures
        name_chars_from(lookup_name(703), 0),
{
    reveal_strlit("stroke-position");
    reveal_with_fuel(name_chars_from, 17);
}

proof fn lemma_lookup_chars_704()
    ensures
        name_chars_from(lookup_name(704), 0),
{
    reveal_strlit("stroke-repeat");
    reveal_with_fuel(name_chars_from, 15);
}

proof fn lemma_lookup_chars_705()
    ensures
        name_chars_from(lookup_name(705), 0),
{
    reveal_strlit("stroke-size");
    reveal_with_fuel(name_chars_from, 13);
}

proof fn lemma_lookup_chars_706()
    ensures
        name_chars_from(lookup_name(706), 0),
{
    reveal_strlit("stroke-width");
    reveal_with_fuel(name_chars_from, 14);
}

proof fn lemma_lookup_chars_707()
    ensures
        name_chars_from(lookup_name(707), 0),
{
    reveal_strlit("tab-size");
    reveal_with_fuel(name_chars_from, 10);
}

proof fn lemma_lookup_chars_708()
    ensures
        name_chars_from(lookup_name(708), 0),
{
    reveal_strlit("table-layout");
    reveal_with_fuel(name_chars_from, 14);
}

proof fn lemma_lookup_chars_709()
    ensures
        name_chars_from(lookup_name(709), 0),
{
    reveal_strlit("text-align");
    reveal_with_fuel(name_chars_from, 12);
}

proof fn lemma_lookup_chars_710()
    ensures
        name_chars_from(lookup_name(710), 0),
{
    reveal_strlit("text-align-all");
    reveal_with_fuel(name_chars_from, 16);
}

proof fn lemma_lookup_chars_711()
    ensures
        name_chars_from(lookup_name(711), 0),
{
    reveal_strlit("text-align-last");
    reveal_with_fuel(name_chars_from, 17);
}

proof fn lemma_lookup_chars_712()
    ensures
        name_chars_from(lookup_name(712), 0),
{
    reveal_strlit("text-anchor");
    reveal_with_fuel(name_chars_from, 13);
}

proof fn lemma_lookup_chars_713()
    ensures
        name_chars_from(lookup_name(713), 0),
{
    reveal_strlit("text-autospace");
    reveal_with_fuel(name_chars_from, 16);
}

proof fn lemma_lookup_chars_714()
    ensures
        name_chars_from(lookup_name(714), 0),
{
    reveal_strlit("text-box");
    reveal_with_fuel(name_chars_from, 10);
}

proof fn lemma_lookup_chars_715()
    ensures
        name_chars_from(lookup_name(715), 0),
{
    reveal_strlit("text-box-edge");
    reveal_with_fuel(name_chars_from, 15);
}

proof fn lemma_lookup_chars_716()
    ensures
        name_chars_from(lookup_name(716), 0),
{
    reveal_strlit("text-box-trim");
    reveal_with_fuel(name_chars_from, 15);
}

proof fn lemma_lookup_chars_717()
    ensures
        name_chars_from(lookup_name(717), 0),
{
    reveal_strlit("text-combine-upright");
    reveal_with_fuel(name_chars_from, 22);
}

proof fn lemma_lookup_chars_718()
    ensures
        name_chars_from(lookup_name(718), 0),
{
    reveal_strlit("text-decoration");
    reveal_with_fuel(name_chars_from, 17);
}

proof fn lemma_lookup_chars_719()
    ensures
        name_chars_from(lookup_name(719), 0),
{
    reveal_strlit("text-decoration-color");
    reveal_with_fuel(name_chars_from, 23);
}

proof fn lemma_lookup_chars_720()
    ensures
        name_chars_from(lookup_name(720), 0),
{
    reveal_strlit("text-decoration-inset");
    reveal_with_fuel(name_chars_from, 23);
}

proof fn lemma_lookup_chars_721()
    ensures
        name_chars_from(lookup_name(721), 0),
{
    reveal_strlit("text-decoration-line");
    reveal_with_fuel(name_chars_from, 22);
}

proof fn lemma_lookup_chars_722()
    ensures
        name_chars_from(lookup_name(722), 0),
{
    reveal_strlit("text-decoration-skip");
    reveal_with_fuel(name_chars_from, 22);
}

proof fn lemma_lookup_chars_723()
    ensures
        name_chars_from(lookup_name(723), 0),
{
    reveal_strlit("text-decoration-skip-box");
    reveal_with_fuel(name_chars_from, 26);
}

proof fn lemma_lookup_chars_724()
    ensures
        name_chars_from(lookup_name(724), 0),
{
    reveal_strlit("text-decoration-skip-ink");
    reveal_with_fuel(name_chars_from, 26);
}

proof fn lemma_lookup_chars_725()
    ensures
        name_chars_from(lookup_name(725), 0),
{
    reveal_strlit("text-decoration-skip-self");
    reveal_with_fuel(name_chars_from, 27);
}

proof fn lemma_lookup_chars_726()
    ensures
        name_chars_from(lookup_name(726), 0),
{
    reveal_strlit("text-decoration-skip-spaces");
    reveal_with_fuel(name_chars_from, 29);
}

proof fn lemma_lookup_chars_727()
    ensures
        name_chars_from(lookup_name(727), 0),
{
    reveal_strlit("text-decoration-style");
    reveal_with_fuel(name_chars_from, 23);
}

proof fn lemma_lookup_chars_728()
    ensures
        name_chars_from(lookup_name(728), 0),
{
    reveal_strlit("text-decoration-thickness");
    reveal_with_fuel(name_chars_from, 27);
}

proof fn lemma_lookup_chars_729()
    ensures
        name_chars_from(lookup_name(729), 0),
{
    reveal_strlit("text-emphasis");
    reveal_with_fuel(name_chars_from, 15);
}

proof fn lemma_lookup_chars_730()
    ensures
        name_chars_from(lookup_name(730), 0),
{
    reveal_strlit("text-emphasis-color");
    reveal_with_fuel(name_chars_from, 21);
}

proof fn lemma_lookup_chars_731()
    ensures
        name_chars_from(lookup_name(731), 0),
{
    reveal_strlit("text-emphasis-position");
    reveal_with_fuel(name_chars_from, 24);
}

proof fn lemma_lookup_chars_732()
    ensures
        name_chars_from(lookup_name(732), 0),
{
    reveal_strlit("text-emphasis-skip");
    reveal_with_fuel(name_chars_from, 20);
}

proof fn lemma_lookup_chars_733()
    ensures
        name_chars_from(lookup_name(733), 0),
{
    reveal_strlit("text-emphasis-style");
    reveal_with_fuel(name_chars_from, 21);
}

proof fn lemma_lookup_chars_734()
    ensures
        name_chars_from(lookup_name(734), 0),
{
    reveal_strlit("text-fit");
    reveal_with_fuel(name_chars_from, 10);
}

proof fn lemma_lookup_chars_735()
    ensures
        name_chars_from(lookup_name(735), 0),
{
    reveal_strlit("text-group-align");
    reveal_with_fuel(name_chars_from, 18);
}

proof fn lemma_lookup_chars_736()
    ensures
        name_chars_from(lookup_name(736), 0),
{
    reveal_strlit("text-indent");
    reveal_with_fuel(name_chars_from, 13);
}

proof fn lemma_lookup_chars_737()
    ensures
        name_chars_from(lookup_name(737), 0),
{
    reveal_strlit("text-justify");
    reveal_with_fuel(name_chars_from, 14);
}

proof fn lemma_lookup_chars_738()
    ensures
        name_chars_from(lookup_name(738), 0),
{
    reveal_strlit("text-orientation");
    reveal_with_fuel(name_chars_from, 18);
}

proof fn lemma_lookup_chars_739()
    ensures
        name_chars_from(lookup_name(739), 0),
{
    reveal_strlit("text-overflow");
    reveal_with_fuel(name_chars_from, 15);
}

proof fn lemma_lookup_chars_740()
    ensures
        name_chars_from(lookup_name(740), 0),
{
    reveal_strlit("text-rendering");
    reveal_with_fuel(name_chars_from, 16);
}

proof fn lemma_lookup_chars_741()
    ensures
        name_chars_from(lookup_name(741), 0),
{
    reveal_strlit("text-shadow");
    reveal_with_fuel(name_chars_from, 13);
}

proof fn lemma_lookup_chars_742()
    ensures
        name_chars_from(lookup_name(742), 0),
{
    reveal_strlit("text-size-adjust");
    reveal_with_fuel(name_chars_from, 18);
}

proof fn lemma_lookup_chars_743()
    ensures
        name_chars_from(lookup_name(743), 0),
{
    reveal_strlit("text-spacing");
    reveal_with_fuel(name_chars_from, 14);
}

proof fn lemma_lookup_chars_744()
    ensures
        name_chars_from(lookup_name(744), 0),
{
    reveal_strlit("text-spacing-trim");
    reveal_with_fuel(name_chars_from, 19);
}

proof fn lemma_lookup_chars_745()
    ensures
        name_chars_from(lookup_name(745), 0),
{
    reveal_strlit("text-transform");
    reveal_with_fuel(name_chars_from, 16);
}

proof fn lemma_lookup_chars_746()
    ensures
        name_chars_from(lookup_name(746), 0),
{
    reveal_strlit("text-underline-offset");
    reveal_with_fuel(name_chars_from, 23);
}

proof fn lemma_lookup_chars_747()
    ensures
        name_chars_from(lookup_name(747), 0),
{
    reveal_strlit("text-underline-position");
    reveal_with_fuel(name_chars_from, 25);
}

proof fn lemma_lookup_chars_748()
    ensures
        name_chars_from(lookup_name(748), 0),
{
    reveal_strlit("text-wrap");
    reveal_with_fuel(name_chars_from, 11);
}

proof fn lemma_lookup_chars_749()
    ensures
        name_chars_from(lookup_name(749), 0),
{
    reveal_strlit("text-wrap-mode");
    reveal_with_fuel(name_chars_from, 16);
}

proof fn lemma_lookup_chars_750()
    ensures
        name_chars_from(lookup_name(750), 0),
{
    reveal_strlit("text-wrap-style");
    reveal_with_fuel(name_chars_from, 17);
}

proof fn lemma_lookup_chars_751()
    ensures
        name_chars_from(lookup_name(751), 0),
{
    reveal_strlit("timeline-scope");
    reveal_with_fuel(name_chars_from, 16);
}

proof fn lemma_lookup_chars_752()
    ensures
        name_chars_from(lookup_name(752), 0),
{
    reveal_strlit("timeline-trigger");
    reveal_with_fuel(name_chars_from, 18);
}

proof fn lemma_lookup_chars_753()
    ensures
        name_chars_from(lookup_name(753), 0),
{
    reveal_strlit("timeline-trigger-activation-range");
    reveal_with_fuel(name_chars_from, 35);
}

proof fn lemma_lookup_chars_754()
    ensures
        name_chars_from(lookup_name(754), 0),
{
    reveal_strlit("timeline-trigger-activation-range-end");
    reveal_with_fuel(name_chars_from, 39);
}

proof fn lemma_lookup_chars_755()
    ensures
        name_chars_from(lookup_name(755), 0),
{
    reveal_strlit("timeline-trigger-activation-range-start");
    reveal_with_fuel(name_chars_from, 41);
}

proof fn lemma_lookup_chars_756()
    ensures
        name_chars_from(lookup_name(756), 0),
{
    reveal_strlit("timeline-trigger-active-range");
    reveal_with_fuel(name_chars_from, 31);
}

proof fn lemma_lookup_chars_757()
    ensures
        name_chars_from(lookup_name(757), 0),
{
    reveal_strlit("timeline-trigger-active-range-end");
    reveal_with_fuel(name_chars_from, 35);
}

proof fn lemma_lookup_chars_758()
    ensures
        name_chars_from(lookup_name(758), 0),
{
    reveal_strlit("timeline-trigger-active-range-start");
    reveal_with_fuel(name_chars_from, 37);
}

proof fn lemma_lookup_chars_759()
    ensures
        name_chars_from(lookup_name(759), 0),
{
    reveal_strlit("timeline-trigger-name");
    reveal_with_fuel(name_chars_from, 23);
}

proof fn lemma_lookup_chars_760()
    ensures
        name_chars_from(lookup_name(760), 0),
{
    reveal_strlit("timeline-trigger-source");
    reveal_with_fuel(name_chars_from, 25);
}

proof fn lemma_lookup_chars_761()
    ensures
        name_chars_from(lookup_name(761), 0),
{
    reveal_strlit("top");
    reveal_with_fuel(name_chars_from, 5);
}

proof fn lemma_lookup_chars_762()
    ensures
        name_chars_from(lookup_name(762), 0),
{
    reveal_strlit("touch-action");
    reveal_with_fuel(name_chars_from, 14);
}

proof fn lemma_lookup_chars_763()
    ensures
        name_chars_from(lookup_name(763), 0),
{
    reveal_strlit("transform");
    reveal_with_fuel(name_chars_from, 11);
}

proof fn lemma_lookup_chars_764()
    ensures
        name_chars_from(lookup_name(764), 0),
{
    reveal_strlit("transform-box");
    reveal_with_fuel(name_chars_from, 15);
}

proof fn lemma_lookup_chars_765()
    ensures
        name_chars_from(lookup_name(765), 0),
{
    reveal_strlit("transform-origin");
    reveal_with_fuel(name_chars_from, 18);
}

proof fn lemma_lookup_chars_766()
    ensures
        name_chars_from(lookup_name(766), 0),
{
    reveal_strlit("transform-style");
    reveal_with_fuel(name_chars_from, 17);
}

proof fn lemma_lookup_chars_767()
    ensures
        name_chars_from(lookup_name(767), 0),
{
    reveal_strlit("transition");
    reveal_with_fuel(name_chars_from, 12);
}

proof fn lemma_lookup_chars_768()
    ensures
        name_chars_from(lookup_name(768), 0),
{
    reveal_strlit("transition-behavior");
    reveal_with_fuel(name_chars_from, 21);
}

proof fn lemma_lookup_chars_769()
    ensures
        name_chars_from(lookup_name(769), 0),
{
    reveal_strlit("transition-delay");
    reveal_with_fuel(name_chars_from, 18);
}

proof fn lemma_lookup_chars_770()
    ensures
        name_chars_from(lookup_name(770), 0),
{
    reveal_strlit("transition-duration");
    reveal_with_fuel(name_chars_from, 21);
}

proof fn lemma_lookup_chars_771()
    ensures
        name_chars_from(lookup_name(771), 0),
{
    reveal_strlit("transition-property");
    reveal_with_fuel(name_chars_from, 21);
}

proof fn lemma_lookup_chars_772()
    ensures
        name_chars_from(lookup_name(772), 0),
{
    reveal_strlit("transition-timing-function");
    reveal_with_fuel(name_chars_from, 28);
}

proof fn lemma_lookup_chars_773()
    ensures
        name_chars_from(lookup_name(773), 0),
{
    reveal_strlit("translate");
    reveal_with_fuel(name_chars_from, 11);
}

proof fn lemma_lookup_chars_774()
    ensures
        name_chars_from(lookup_name(774), 0),
{
    reveal_strlit("trigger-scope");
    reveal_with_fuel(name_chars_from, 15);
}

proof fn lemma_lookup_chars_775()
    ensures
        name_chars_from(lookup_name(775), 0),
{
    reveal_strlit("unicode-bidi");
    reveal_with_fuel(name_chars_from, 14);
}

proof fn lemma_lookup_chars_776()
    ensures
        name_chars_from(lookup_name(776), 0),
{
    reveal_strlit("user-select");
    reveal_with_fuel(name_chars_from, 13);
}

proof fn lemma_lookup_chars_777()
    ensures
        name_chars_from(lookup_name(777), 0),
{
    reveal_strlit("vector-effect");
    reveal_with_fuel(name_chars_from, 15);
}

proof fn lemma_lookup_chars_778()
    ensures
        name_chars_from(lookup_name(778), 0),
{
    reveal_strlit("vertical-align");
    reveal_with_fuel(name_chars_from, 16);
}

proof fn lemma_lookup_chars_779()
    ensures
        name_chars_from(lookup_name(779), 0),
{
    reveal_strlit("view-timeline");
    reveal_with_fuel(name_chars_from, 15);
}

proof fn lemma_lookup_chars_780()
    ensures
        name_chars_from(lookup_name(780), 0),
{
    reveal_strlit("view-timeline-axis");
    reveal_with_fuel(name_chars_from, 20);
}

proof fn lemma_lookup_chars_781()
    ensures
        name_chars_from(lookup_name(781), 0),
{
    reveal_strlit("view-timeline-inset");
    reveal_with_fuel(name_chars_from, 21);
}

proof fn lemma_lookup_chars_782()
    ensures
        name_chars_from(lookup_name(782), 0),
{
    reveal_strlit("view-timeline-name");
    reveal_with_fuel(name_chars_from, 20);
}

proof fn lemma_lookup_chars_783()
    ensures
        name_chars_from(lookup_name(783), 0),
{
    reveal_strlit("view-transition-class");
    reveal_with_fuel(name_chars_from, 23);
}

proof fn lemma_lookup_chars_784()
    ensures
        name_chars_from(lookup_name(784), 0),
{
    reveal_strlit("view-transition-group");
    reveal_with_fuel(name_chars_from, 23);
}

proof fn lemma_lookup_chars_785()
    ensures
        name_chars_from(lookup_name(785), 0),
{
    reveal_strlit("view-transition-name");
    reveal_with_fuel(name_chars_from, 22);
}

proof fn lemma_lookup_chars_786()
    ensures
        name_chars_from(lookup_name(786), 0),
{
    reveal_strlit("view-transition-scope");
    reveal_with_fuel(name_chars_from, 23);
}

proof fn lemma_lookup_chars_787()
    ensures
        name_chars_from(lookup_name(787), 0),
{
    reveal_strlit("visibility");
    reveal_with_fuel(name_chars_from, 12);
}

proof fn lemma_lookup_chars_788()
    ensures
        name_chars_from(lookup_name(788), 0),
{
    reveal_strlit("voice-balance");
    reveal_with_fuel(name_chars_from, 15);
}

proof fn lemma_lookup_chars_789()
    ensures
        name_chars_from(lookup_name(789), 0),
{
    reveal_strlit("voice-duration");
    reveal_with_fuel(name_chars_from, 16);
}

proof fn lemma_lookup_chars_790()
    ensures
        name_chars_from(lookup_name(790), 0),
{
    reveal_strlit("voice-family");
    reveal_with_fuel(name_chars_from, 14);
}

proof fn lemma_lookup_chars_791()
    ensures
        name_chars_from(lookup_name(791), 0),
{
    reveal_strlit("voice-pitch");
    reveal_with_fuel(name_chars_from, 13);
}

proof fn lemma_lookup_chars_792()
    ensures
        name_chars_from(lookup_name(792), 0),
{
    reveal_strlit("voice-range");
    reveal_with_fuel(name_chars_from, 13);
}

proof fn lemma_lookup_chars_793()
    ensures
        name_chars_from(lookup_name(793), 0),
{
    reveal_strlit("voice-rate");
    reveal_with_fuel(name_chars_from, 12);
}

proof fn lemma_lookup_chars_794()
    ensures
        name_chars_from(lookup_name(794), 0),
{
    reveal_strlit("voice-stress");
    reveal_with_fuel(name_chars_from, 14);
}

proof fn lemma_lookup_chars_795()
    ensures
        name_chars_from(lookup_name(795), 0),
{
    reveal_strlit("voice-volume");
    reveal_with_fuel(name_chars_from, 14);
}

proof fn lemma_lookup_chars_796()
    ensures
        name_chars_from(lookup_name(796), 0),
{
    reveal_strlit("white-space");
    reveal_with_fuel(name_chars_from, 13);
}

proof fn lemma_lookup_chars_797()
    ensures
        name_chars_from(lookup_name(797), 0),
{
    reveal_strlit("white-space-collapse");
    reveal_with_fuel(name_chars_from, 22);
}

proof fn lemma_lookup_chars_798()
    ensures
        name_chars_from(lookup_name(798), 0),
{
    reveal_strlit("white-space-trim");
    reveal_with_fuel(name_chars_from, 18);
}

proof fn lemma_lookup_chars_799()
    ensures
        name_chars_from(lookup_name(799), 0),
{
    reveal_strlit("widows");
    reveal_with_fuel(name_chars_from, 8);
}

proof fn lemma_lookup_chars_800()
    ensures
        name_chars_from(lookup_name(800), 0),
{
    reveal_strlit("width");
    reveal_with_fuel(name_chars_from, 7);
}

proof fn lemma_lookup_chars_801()
    ensures
        name_chars_from(lookup_name(801), 0),
{
    reveal_strlit("will-change");
    reveal_with_fuel(name_chars_from, 13);
}

proof fn lemma_lookup_chars_802()
    ensures
        name_chars_from(lookup_name(802), 0),
{
    reveal_strlit("word-break");
    reveal_with_fuel(name_chars_from, 12);
}

proof fn lemma_lookup_chars_803()
    ensures
        name_chars_from(lookup_name(803), 0),
{
    reveal_strlit("word-space-transform");
    reveal_with_fuel(name_chars_from, 22);
}

proof fn lemma_lookup_chars_804()
    ensures
        name_chars_from(lookup_name(804), 0),
{
    reveal_strlit("word-spacing");
    reveal_with_fuel(name_chars_from, 14);
}

proof fn lemma_lookup_chars_805()
    ensures
        name_chars_from(lookup_name(805), 0),
{
    reveal_strlit("word-wrap");
    reveal_with_fuel(name_chars_from, 11);
}

proof fn lemma_lookup_chars_806()
    ensures
        name_chars_from(lookup_name(806), 0),
{
    reveal_strlit("wrap-after");
    reveal_with_fuel(name_chars_from, 12);
}

proof fn lemma_lookup_chars_807()
    ensures
        name_chars_from(lookup_name(807), 0),
{
    reveal_strlit("wrap-before");
    reveal_with_fuel(name_chars_from, 13);
}

proof fn lemma_lookup_chars_808()
    ensures
        name_chars_from(lookup_name(808), 0),
{
    reveal_strlit("wrap-flow");
    reveal_with_fuel(name_chars_from, 11);
}

proof fn lemma_lookup_chars_809()
    ensures
        name_chars_from(lookup_name(809), 0),
{
    reveal_strlit("wrap-inside");
    reveal_with_fuel(name_chars_from, 13);
}

proof fn lemma_lookup_chars_810()
    ensures
        name_chars_from(lookup_name(810), 0),
{
    reveal_strlit("wrap-through");
    reveal_with_fuel(name_chars_from, 14);
}

proof fn lemma_lookup_chars_811()
    ensures
        name_chars_from(lookup_name(811), 0),
{
    reveal_strlit("writing-mode");
    reveal_with_fuel(name_chars_from, 14);
}

proof fn lemma_lookup_chars_812()
    ensures
        name_chars_from(lookup_name(812), 0),
{
    reveal_strlit("x");
    reveal_with_fuel(name_chars_from, 3);
}

proof fn lemma_lookup_chars_813()
    ensures
        name_chars_from(lookup_name(813), 0),
{
    reveal_strlit("y");
    reveal_with_fuel(name_chars_from, 3);
}

proof fn lemma_lookup_chars_814()
    ensures
        name_chars_from(lookup_name(814), 0),
{
    reveal_strlit("z-index");
    reveal_with_fuel(name_chars_from, 9);
}

proof fn lemma_lookup_chars_815()
    ensures
        name_chars_from(lookup_name(815), 0),
{
    reveal_strlit("zoom");
    reveal_with_fuel(name_chars_from, 6);
}

proof fn lemma_lookup_chars_upto_50()
    ensures
        lookup_chars_upto(50),
{
    assert(lookup_chars_upto(0));
    lemma_lookup_chars_0();
    assert(lookup_chars_upto(1));
    lemma_lookup_chars_1();
    assert(lookup_chars_upto(2));
    lemma_lookup_chars_2();
    assert(lookup_chars_upto(3));
    lemma_lookup_chars_3();
    assert(lookup_chars_upto(4));
    lemma_lookup_chars_4();
    assert(lookup_chars_upto(5));
    lemma_lookup_chars_5();
    assert(lookup_chars_upto(6));
    lemma_lookup_chars_6();
    assert(lookup_chars_upto(7));
    lemma_lookup_chars_7();
    assert(lookup_chars_upto(8));
    lemma_lookup_chars_8();
    assert(lookup_chars_upto(9));
    lemma_lookup_chars_9();
    assert(lookup_chars_upto(10));
    lemma_lookup_chars_10();
    assert(lookup_chars_upto(11));
    lemma_lookup_chars_11();
    assert(lookup_chars_upto(12));
    lemma_lookup_chars_12();
    assert(lookup_chars_upto(13));
    lemma_lookup_chars_13();
    assert(lookup_chars_upto(14));
    lemma_lookup_chars_14();
    assert(lookup_chars_upto(15));
    lemma_lookup_chars_15();
    assert(lookup_chars_upto(16));
    lemma_lookup_chars_16();
    assert(lookup_chars_upto(17));
    lemma_lookup_chars_17();
    assert(lookup_chars_upto(18));
    lemma_lookup_chars_18();
    assert(lookup_chars_upto(19));
    lemma_lookup_chars_19();
    assert(lookup_chars_upto(20));
    lemma_lookup_chars_20();
    assert(lookup_chars_upto(21));
    lemma_lookup_chars_21();
    assert(lookup_chars_upto(22));
    lemma_lookup_chars_22();
    assert(lookup_chars_upto(23));
    lemma_lookup_chars_23();
    assert(lookup_chars_upto(24));
    lemma_lookup_chars_24();
    assert(lookup_chars_upto(25));
    lemma_lookup_chars_25();
    assert(lookup_chars_upto(26));
    lemma_lookup_chars_26();
    assert(lookup_chars_upto(27));
    lemma_lookup_chars_27();
    assert(lookup_chars_upto(28));
    lemma_lookup_chars_28();
    assert(lookup_chars_upto(29));
    lemma_lookup_chars_29();
    assert(lookup_chars_upto(30));
    lemma_lookup_chars_30();
    assert(lookup_chars_upto(31));
    lemma_lookup_chars_31();
    assert(lookup_chars_upto(32));
    lemma_lookup_chars_32();
    assert(lookup_chars_upto(33));
    lemma_lookup_chars_33();
    assert(lookup_chars_upto(34));
    lemma_lookup_chars_34();
    assert(lookup_chars_upto(35));
    lemma_lookup_chars_35();
    assert(lookup_chars_upto(36));
    lemma_lookup_chars_36();
    assert(lookup_chars_upto(37));
    lemma_lookup_chars_37();
    assert(lookup_chars_upto(38));
    lemma_lookup_chars_38();
    assert(lookup_chars_upto(39));
    lemma_lookup_chars_39();
    assert(lookup_chars_upto(40));
    lemma_lookup_chars_40();
    assert(lookup_chars_upto(41));
    lemma_lookup_chars_41();
    assert(lookup_chars_upto(42));
    lemma_lookup_chars_42();
    assert(lookup_chars_upto(43));
    lemma_lookup_chars_43();
    assert(lookup_chars_upto(44));
    lemma_lookup_chars_44();
    assert(lookup_chars_upto(45));
    lemma_lookup_chars_45();
    assert(lookup_chars_upto(46));
    lemma_lookup_chars_46();
    assert(lookup_chars_upto(47));
    lemma_lookup_chars_47();
    assert(lookup_chars_upto(48));
    lemma_lookup_chars_48();
    assert(lookup_chars_upto(49));
    lemma_lookup_chars_49();
    assert(lookup_chars_upto(50));
}

proof fn lemma_lookup_chars_upto_100()
    ensures
        lookup_chars_upto(100),
{
    lemma_lookup_chars_upto_50();
    lemma_lookup_chars_50();
    assert(lookup_chars_upto(51));
    lemma_lookup_chars_51();
    assert(lookup_chars_upto(52));
    lemma_lookup_chars_52();
    assert(lookup_chars_upto(53));
    lemma_lookup_chars_53();
    assert(lookup_chars_upto(54));
    lemma_lookup_chars_54();
    assert(lookup_chars_upto(55));
    lemma_lookup_chars_55();
    assert(lookup_chars_upto(56));
    lemma_lookup_chars_56();
    assert(lookup_chars_upto(57));
    lemma_lookup_chars_57();
    assert(lookup_chars_upto(58));
    lemma_lookup_chars_58();
    assert(lookup_chars_upto(59));
    lemma_lookup_chars_59();
    assert(lookup_chars_upto(60));
    lemma_lookup_chars_60();
    assert(lookup_chars_upto(61));
    lemma_lookup_chars_61();
    assert(lookup_chars_upto(62));
    lemma_lookup_chars_62();
    assert(lookup_chars_upto(63));
    lemma_lookup_chars_63();
    assert(lookup_chars_upto(64));
    lemma_lookup_chars_64();
    assert(lookup_chars_upto(65));
    lemma_lookup_chars_65();
    assert(lookup_chars_upto(66));
    lemma_lookup_chars_66();
    assert(lookup_chars_upto(67));
    lemma_lookup_chars_67();
    assert(lookup_chars_upto(68));
    lemma_lookup_chars_68();
    assert(lookup_chars_upto(69));
    lemma_lookup_chars_69();
    assert(lookup_chars_upto(70));
    lemma_lookup_chars_70();
    assert(lookup_chars_upto(71));
    lemma_lookup_chars_71();
    assert(lookup_chars_upto(72));
    lemma_lookup_chars_72();
    assert(lookup_chars_upto(73));
    lemma_lookup_chars_73();
    assert(lookup_chars_upto(74));
    lemma_lookup_chars_74();
    assert(lookup_chars_upto(75));
    lemma_lookup_chars_75();
    assert(lookup_chars_upto(76));
    lemma_lookup_chars_76();
    assert(lookup_chars_upto(77));
    lemma_lookup_chars_77();
    assert(lookup_chars_upto(78));
    lemma_lookup_chars_78();
    assert(lookup_chars_upto(79));
    lemma_lookup_chars_79();
    assert(lookup_chars_upto(80));
    lemma_lookup_chars_80();
    assert(lookup_chars_upto(81));
    lemma_lookup_chars_81();
    assert(lookup_chars_upto(82));
    lemma_lookup_chars_82();
    assert(lookup_chars_upto(83));
    lemma_lookup_chars_83();
    assert(lookup_chars_upto(84));
    lemma_lookup_chars_84();
    assert(lookup_chars_upto(85));
    lemma_lookup_chars_85();
    assert(lookup_chars_upto(86));
    lemma_lookup_chars_86();
    assert(lookup_chars_upto(87));
    lemma_lookup_chars_87();
    assert(lookup_chars_upto(88));
    lemma_lookup_chars_88();
    assert(lookup_chars_upto(89));
    lemma_lookup_chars_89();
    assert(lookup_chars_upto(90));
    lemma_lookup_chars_90();
    assert(lookup_chars_upto(91));
    lemma_lookup_chars_91();
    assert(lookup_chars_upto(92));
    lemma_lookup_chars_92();
    assert(lookup_chars_upto(93));
    lemma_lookup_chars_93();
    assert(lookup_chars_upto(94));
    lemma_lookup_chars_94();
    assert(lookup_chars_upto(95));
    lemma_lookup_chars_95();
    assert(lookup_chars_upto(96));
    lemma_lookup_chars_96();
    assert(lookup_chars_upto(97));
    lemma_lookup_chars_97();
    assert(lookup_chars_upto(98));
    lemma_lookup_chars_98();
    assert(lookup_chars_upto(99));
    lemma_lookup_chars_99();
    assert(lookup_chars_upto(100));
}

proof fn lemma_lookup_chars_upto_150()
    ensures
        lookup_chars_upto(150),
{
    lemma_lookup_chars_upto_100();
    lemma_lookup_chars_100();
    assert(lookup_chars_upto(101));
    lemma_lookup_chars_101();
    assert(lookup_chars_upto(102));
    lemma_lookup_chars_102();
    assert(lookup_chars_upto(103));
    lemma_lookup_chars_103();
    assert(lookup_chars_upto(104));
    lemma_lookup_chars_104();
    assert(lookup_chars_upto(105));
    lemma_lookup_chars_105();
    assert(lookup_chars_upto(106));
    lemma_lookup_chars_106();
    assert(lookup_chars_upto(107));
    lemma_lookup_chars_107();
    assert(lookup_chars_upto(108));
    lemma_lookup_chars_108();
    assert(lookup_chars_upto(109));
    lemma_lookup_chars_109();
    assert(lookup_chars_upto(110));
    lemma_lookup_chars_110();
    assert(lookup_chars_upto(111));
    lemma_lookup_chars_111();
    assert(lookup_chars_upto(112));
    lemma_lookup_chars_112();
    assert(lookup_chars_upto(113));
    lemma_lookup_chars_113();
    assert(lookup_chars_upto(114));
    lemma_lookup_chars_114();
    assert(lookup_chars_upto(115));
    lemma_lookup_chars_115();
    assert(lookup_chars_upto(116));
    lemma_lookup_chars_116();
    assert(lookup_chars_upto(117));
    lemma_lookup_chars_117();
    assert(lookup_chars_upto(118));
    lemma_lookup_chars_118();
    assert(lookup_chars_upto(119));
    lemma_lookup_chars_119();
    assert(lookup_chars_upto(120));
    lemma_lookup_chars_120();
    assert(lookup_chars_upto(121));
    lemma_lookup_chars_121();
    assert(lookup_chars_upto(122));
    lemma_lookup_chars_122();
    assert(lookup_chars_upto(123));
    lemma_lookup_chars_123();
    assert(lookup_chars_upto(124));
    lemma_lookup_chars_124();
    assert(lookup_chars_upto(125));
    lemma_lookup_chars_125();
    assert(lookup_chars_upto(126));
    lemma_lookup_chars_126();
    assert(lookup_chars_upto(127));
    lemma_lookup_chars_127();
    assert(lookup_chars_upto(128));
    lemma_lookup_chars_128();
    assert(lookup_chars_upto(129));
    lemma_lookup_chars_129();
    assert(lookup_chars_upto(130));
    lemma_lookup_chars_130();
    assert(lookup_chars_upto(131));
    lemma_lookup_chars_131();
    assert(lookup_chars_upto(132));
    lemma_lookup_chars_132();
    assert(lookup_chars_upto(133));
    lemma_lookup_chars_133();
    assert(lookup_chars_upto(134));
    lemma_lookup_chars_134();
    assert(lookup_chars_upto(135));
    lemma_lookup_chars_135();
    assert(lookup_chars_upto(136));
    lemma_lookup_chars_136();
    assert(lookup_chars_upto(137));
    lemma_lookup_chars_137();
    assert(lookup_chars_upto(138));
    lemma_lookup_chars_138();
    assert(lookup_chars_upto(139));
    lemma_lookup_chars_139();
    assert(lookup_chars_upto(140));
    lemma_lookup_chars_140();
    assert(lookup_chars_upto(141));
    lemma_lookup_chars_141();
    assert(lookup_chars_upto(142));
    lemma_lookup_chars_142();
    assert(lookup_chars_upto(143));
    lemma_lookup_chars_143();
    assert(lookup_chars_upto(144));
    lemma_lookup_chars_144();
    assert(lookup_chars_upto(145));
    lemma_lookup_chars_145();
    assert(lookup_chars_upto(146));
    lemma_lookup_chars_146();
    assert(lookup_chars_upto(147));
    lemma_lookup_chars_147();
    assert(lookup_chars_upto(148));
    lemma_lookup_chars_148();
    assert(lookup_chars_upto(149));
    lemma_lookup_chars_149();
    assert(lookup_chars_upto(150));
}

proof fn lemma_lookup_chars_upto_200()
    ensures
        lookup_chars_upto(200),
{
    lemma_lookup_chars_upto_150();
    lemma_lookup_chars_150();
    assert(lookup_chars_upto(151));
    lemma_lookup_chars_151();
    assert(lookup_chars_upto(152));
    lemma_lookup_chars_152();
    assert(lookup_chars_upto(153));
    lemma_lookup_chars_153();
    assert(lookup_chars_upto(154));
    lemma_lookup_chars_154();
    assert(lookup_chars_upto(155));
    lemma_lookup_chars_155();
    assert(lookup_chars_upto(156));
    lemma_lookup_chars_156();
    assert(lookup_chars_upto(157));
    lemma_lookup_chars_157();
    assert(lookup_chars_upto(158));
    lemma_lookup_chars_158();
    assert(lookup_chars_upto(159));
    lemma_lookup_chars_159();
    assert(lookup_chars_upto(160));
    lemma_lookup_chars_160();
    assert(lookup_chars_upto(161));
    lemma_lookup_chars_161();
    assert(lookup_chars_upto(162));
    lemma_lookup_chars_162();
    assert(lookup_chars_upto(163));
    lemma_lookup_chars_163();
    assert(lookup_chars_upto(164));
    lemma_lookup_chars_164();
    assert(lookup_chars_upto(165));
    lemma_lookup_chars_165();
    assert(lookup_chars_upto(166));
    lemma_lookup_chars_166();
    assert(lookup_chars_upto(167));
    lemma_lookup_chars_167();
    assert(lookup_chars_upto(168));
    lemma_lookup_chars_168();
    assert(lookup_chars_upto(169));
    lemma_lookup_chars_169();
    assert(lookup_chars_upto(170));
    lemma_lookup_chars_170();
    assert(lookup_chars_upto(171));
    lemma_lookup_chars_171();
    assert(lookup_chars_upto(172));
    lemma_lookup_chars_172();
    assert(lookup_chars_upto(173));
    lemma_lookup_chars_173();
    assert(lookup_chars_upto(174));
    lemma_lookup_chars_174();
    assert(lookup_chars_upto(175));
    lemma_lookup_chars_175();
    assert(lookup_chars_upto(176));
    lemma_lookup_chars_176();
    assert(lookup_chars_upto(177));
    lemma_lookup_chars_177();
    assert(lookup_chars_upto(178));
    lemma_lookup_chars_178();
    assert(lookup_chars_upto(179));
    lemma_lookup_chars_179();
    assert(lookup_chars_upto(180));
    lemma_lookup_chars_180();
    assert(lookup_chars_upto(181));
    lemma_lookup_chars_181();
    assert(lookup_chars_upto(182));
    lemma_lookup_chars_182();
    assert(lookup_chars_upto(183));
    lemma_lookup_chars_183();
    assert(lookup_chars_upto(184));
    lemma_lookup_chars_184();
    assert(lookup_chars_upto(185));
    lemma_lookup_chars_185();
    assert(lookup_chars_upto(186));
    lemma_lookup_chars_186();
    assert(lookup_chars_upto(187));
    lemma_lookup_chars_187();
    assert(lookup_chars_upto(188));
    lemma_lookup_chars_188();
    assert(lookup_chars_upto(189));
    lemma_lookup_chars_189();
    assert(lookup_chars_upto(190));
    lemma_lookup_chars_190();
    assert(lookup_chars_upto(191));
    lemma_lookup_chars_191();
    assert(lookup_chars_upto(192));
    lemma_lookup_chars_192();
    assert(lookup_chars_upto(193));
    lemma_lookup_chars_193();
    assert(lookup_chars_upto(194));
    lemma_lookup_chars_194();
    assert(lookup_chars_upto(195));
    lemma_lookup_chars_195();
    assert(lookup_chars_upto(196));
    lemma_lookup_chars_196();
    assert(lookup_chars_upto(197));
    lemma_lookup_chars_197();
    assert(lookup_chars_upto(198));
    lemma_lookup_chars_198();
    assert(lookup_chars_upto(199));
    lemma_lookup_chars_199();
    assert(lookup_chars_upto(200));
}

proof fn lemma_lookup_chars_upto_250()
    ensures
        lookup_chars_upto(250),
{
    lemma_lookup_chars_upto_200();
    lemma_lookup_chars_200();
    assert(lookup_chars_upto(201));
    lemma_lookup_chars_201();
    assert(lookup_chars_upto(202));
    lemma_lookup_chars_202();
    assert(lookup_chars_upto(203));
    lemma_lookup_chars_203();
    assert(lookup_chars_upto(204));
    lemma_lookup_chars_204();
    assert(lookup_chars_upto(205));
    lemma_lookup_chars_205();
    assert(lookup_chars_upto(206));
    lemma_lookup_chars_206();
    assert(lookup_chars_upto(207));
    lemma_lookup_chars_207();
    assert(lookup_chars_upto(208));
    lemma_lookup_chars_208();
    assert(lookup_chars_upto(209));
    lemma_lookup_chars_209();
    assert(lookup_chars_upto(210));
    lemma_lookup_chars_210();
    assert(lookup_chars_upto(211));
    lemma_lookup_chars_211();
    assert(lookup_chars_upto(212));
    lemma_lookup_chars_212();
    assert(lookup_chars_upto(213));
    lemma_lookup_chars_213();
    assert(lookup_chars_upto(214));
    lemma_lookup_chars_214();
    assert(lookup_chars_upto(215));
    lemma_lookup_chars_215();
    assert(lookup_chars_upto(216));
    lemma_lookup_chars_216();
    assert(lookup_chars_upto(217));
    lemma_lookup_chars_217();
    assert(lookup_chars_upto(218));
    lemma_lookup_chars_218();
    assert(lookup_chars_upto(219));
    lemma_lookup_chars_219();
    assert(lookup_chars_upto(220));
    lemma_lookup_chars_220();
    assert(lookup_chars_upto(221));
    lemma_lookup_chars_221();
    assert(lookup_chars_upto(222));
    lemma_lookup_chars_222();
    assert(lookup_chars_upto(223));
    lemma_lookup_chars_223();
    assert(lookup_chars_upto(224));
    lemma_lookup_chars_224();
    assert(lookup_chars_upto(225));
    lemma_lookup_chars_225();
    assert(lookup_chars_upto(226));
    lemma_lookup_chars_226();
    assert(lookup_chars_upto(227));
    lemma_lookup_chars_227();
    assert(lookup_chars_upto(228));
    lemma_lookup_chars_228();
    assert(lookup_chars_upto(229));
    lemma_lookup_chars_229();
    assert(lookup_chars_upto(230));
    lemma_lookup_chars_230();
    assert(lookup_chars_upto(231));
    lemma_lookup_chars_231();
    assert(lookup_chars_upto(232));
    lemma_lookup_chars_232();
    assert(lookup_chars_upto(233));
    lemma_lookup_chars_233();
    assert(lookup_chars_upto(234));
    lemma_lookup_chars_234();
    assert(lookup_chars_upto(235));
    lemma_lookup_chars_235();
    assert(lookup_chars_upto(236));
    lemma_lookup_chars_236();
    assert(lookup_chars_upto(237));
    lemma_lookup_chars_237();
    assert(lookup_chars_upto(238));
    lemma_lookup_chars_238();
    assert(lookup_chars_upto(239));
    lemma_lookup_chars_239();
    assert(lookup_chars_upto(240));
    lemma_lookup_chars_240();
    assert(lookup_chars_upto(241));
    lemma_lookup_chars_241();
    assert(lookup_chars_upto(242));
    lemma_lookup_chars_242();
    assert(lookup_chars_upto(243));
    lemma_lookup_chars_243();
    assert(lookup_chars_upto(244));
    lemma_lookup_chars_244();
    assert(lookup_chars_upto(245));
    lemma_lookup_chars_245();
    assert(lookup_chars_upto(246));
    lemma_lookup_chars_246();
    assert(lookup_chars_upto(247));
    lemma_lookup_chars_247();
    assert(lookup_chars_upto(248));
    lemma_lookup_chars_248();
    assert(lookup_chars_upto(249));
    lemma_lookup_chars_249();
    assert(lookup_chars_upto(250));
}

proof fn lemma_lookup_chars_upto_300()
    ensures
        lookup_chars_upto(300),
{
    lemma_lookup_chars_upto_250();
    lemma_lookup_chars_250();
    assert(lookup_chars_upto(251));
    lemma_lookup_chars_251();
    assert(lookup_chars_upto(252));
    lemma_lookup_chars_252();
    assert(lookup_chars_upto(253));
    lemma_lookup_chars_253();
    assert(lookup_chars_upto(254));
    lemma_lookup_chars_254();
    assert(lookup_chars_upto(255));
    lemma_lookup_chars_255();
    assert(lookup_chars_upto(256));
    lemma_lookup_chars_256();
    assert(lookup_chars_upto(257));
    lemma_lookup_chars_257();
    assert(lookup_chars_upto(258));
    lemma_lookup_chars_258();
    assert(lookup_chars_upto(259));
    lemma_lookup_chars_259();
    assert(lookup_chars_upto(260));
    lemma_lookup_chars_260();
    assert(lookup_chars_upto(261));
    lemma_lookup_chars_261();
    assert(lookup_chars_upto(262));
    lemma_lookup_chars_262();
    assert(lookup_chars_upto(263));
    lemma_lookup_chars_263();
    assert(lookup_chars_upto(264));
    lemma_lookup_chars_264();
    assert(lookup_chars_upto(265));
    lemma_lookup_chars_265();
    assert(lookup_chars_upto(266));
    lemma_lookup_chars_266();
    assert(lookup_chars_upto(267));
    lemma_lookup_chars_267();
    assert(lookup_chars_upto(268));
    lemma_lookup_chars_268();
    assert(lookup_chars_upto(269));
    lemma_lookup_chars_269();
    assert(lookup_chars_upto(270));
    lemma_lookup_chars_270();
    assert(lookup_chars_upto(271));
    lemma_lookup_chars_271();
    assert(lookup_chars_upto(272));
    lemma_lookup_chars_272();
    assert(lookup_chars_upto(273));
    lemma_lookup_chars_273();
    assert(lookup_chars_upto(274));
    lemma_lookup_chars_274();
    assert(lookup_chars_upto(275));
    lemma_lookup_chars_275();
    assert(lookup_chars_upto(276));
    lemma_lookup_chars_276();
    assert(lookup_chars_upto(277));
    lemma_lookup_chars_277();
    assert(lookup_chars_upto(278));
    lemma_lookup_chars_278();
    assert(lookup_chars_upto(279));
    lemma_lookup_chars_279();
    assert(lookup_chars_upto(280));
    lemma_lookup_chars_280();
    assert(lookup_chars_upto(281));
    lemma_lookup_chars_281();
    assert(lookup_chars_upto(282));
    lemma_lookup_chars_282();
    assert(lookup_chars_upto(283));
    lemma_lookup_chars_283();
    assert(lookup_chars_upto(284));
    lemma_lookup_chars_284();
    assert(lookup_chars_upto(285));
    lemma_lookup_chars_285();
    assert(lookup_chars_upto(286));
    lemma_lookup_chars_286();
    assert(lookup_chars_upto(287));
    lemma_lookup_chars_287();
    assert(lookup_chars_upto(288));
    lemma_lookup_chars_288();
    assert(lookup_chars_upto(289));
    lemma_lookup_chars_289();
    assert(lookup_chars_upto(290));
    lemma_lookup_chars_290();
    assert(lookup_chars_upto(291));
    lemma_lookup_chars_291();
    assert(lookup_chars_upto(292));
    lemma_lookup_chars_292();
    assert(lookup_chars_upto(293));
    lemma_lookup_chars_293();
    assert(lookup_chars_upto(294));
    lemma_lookup_chars_294();
    assert(lookup_chars_upto(295));
    lemma_lookup_chars_295();
    assert(lookup_chars_upto(296));
    lemma_lookup_chars_296();
    assert(lookup_chars_upto(297));
    lemma_lookup_chars_297();
    assert(lookup_chars_upto(298));
    lemma_lookup_chars_298();
    assert(lookup_chars_upto(299));
    lemma_lookup_chars_299();
    assert(lookup_chars_upto(300));
}

proof fn lemma_lookup_chars_upto_350()
    ensures
        lookup_chars_upto(350),
{
    lemma_lookup_chars_upto_300();
    lemma_lookup_chars_300();
    assert(lookup_chars_upto(301));
    lemma_lookup_chars_301();
    assert(lookup_chars_upto(302));
    lemma_lookup_chars_302();
    assert(lookup_chars_upto(303));
    lemma_lookup_chars_303();
    assert(lookup_chars_upto(304));
    lemma_lookup_chars_304();
    assert(lookup_chars_upto(305));
    lemma_lookup_chars_305();
    assert(lookup_chars_upto(306));
    lemma_lookup_chars_306();
    assert(lookup_chars_upto(307));
    lemma_lookup_chars_307();
    assert(lookup_chars_upto(308));
    lemma_lookup_chars_308();
    assert(lookup_chars_upto(309));
    lemma_lookup_chars_309();
    assert(lookup_chars_upto(310));
    lemma_lookup_chars_310();
    assert(lookup_chars_upto(311));
    lemma_lookup_chars_311();
    assert(lookup_chars_upto(312));
    lemma_lookup_chars_312();
    assert(lookup_chars_upto(313));
    lemma_lookup_chars_313();
    assert(lookup_chars_upto(314));
    lemma_lookup_chars_314();
    assert(lookup_chars_upto(315));
    lemma_lookup_chars_315();
    assert(lookup_chars_upto(316));
    lemma_lookup_chars_316();
    assert(lookup_chars_upto(317));
    lemma_lookup_chars_317();
    assert(lookup_chars_upto(318));
    lemma_lookup_chars_318();
    assert(lookup_chars_upto(319));
    lemma_lookup_chars_319();
    assert(lookup_chars_upto(320));
    lemma_lookup_chars_320();
    assert(lookup_chars_upto(321));
    lemma_lookup_chars_321();
    assert(lookup_chars_upto(322));
    lemma_lookup_chars_322();
    assert(lookup_chars_upto(323));
    lemma_lookup_chars_323();
    assert(lookup_chars_upto(324));
    lemma_lookup_chars_324();
    assert(lookup_chars_upto(325));
    lemma_lookup_chars_325();
    assert(lookup_chars_upto(326));
    lemma_lookup_chars_326();
    assert(lookup_chars_upto(327));
    lemma_lookup_chars_327();
    assert(lookup_chars_upto(328));
    lemma_lookup_chars_328();
    assert(lookup_chars_upto(329));
    lemma_lookup_chars_329();
    assert(lookup_chars_upto(330));
    lemma_lookup_chars_330();
    assert(lookup_chars_upto(331));
    lemma_lookup_chars_331();
    assert(lookup_chars_upto(332));
    lemma_lookup_chars_332();
    assert(lookup_chars_upto(333));
    lemma_lookup_chars_333();
    assert(lookup_chars_upto(334));
    lemma_lookup_chars_334();
    assert(lookup_chars_upto(335));
    lemma_lookup_chars_335();
    assert(lookup_chars_upto(336));
    lemma_lookup_chars_336();
    assert(lookup_chars_upto(337));
    lemma_lookup_chars_337();
    assert(lookup_chars_upto(338));
    lemma_lookup_chars_338();
    assert(lookup_chars_upto(339));
    lemma_lookup_chars_339();
    assert(lookup_chars_upto(340));
    lemma_lookup_chars_340();
    assert(lookup_chars_upto(341));
    lemma_lookup_chars_341();
    assert(lookup_chars_upto(342));
    lemma_lookup_chars_342();
    assert(lookup_chars_upto(343));
    lemma_lookup_chars_343();
    assert(lookup_chars_upto(344));
    lemma_lookup_chars_344();
    assert(lookup_chars_upto(345));
    lemma_lookup_chars_345();
    assert(lookup_chars_upto(346));
    lemma_lookup_chars_346();
    assert(lookup_chars_upto(347));
    lemma_lookup_chars_347();
    assert(lookup_chars_upto(348));
    lemma_lookup_chars_348();
    assert(lookup_chars_upto(349));
    lemma_lookup_chars_349();
    assert(lookup_chars_upto(350));
}

proof fn lemma_lookup_chars_upto_400()
    ensures
        lookup_chars_upto(400),
{
    lemma_lookup_chars_upto_350();
    lemma_lookup_chars_350();
    assert(lookup_chars_upto(351));
    lemma_lookup_chars_351();
    assert(lookup_chars_upto(352));
    lemma_lookup_chars_352();
    assert(lookup_chars_upto(353));
    lemma_lookup_chars_353();
    assert(lookup_chars_upto(354));
    lemma_lookup_chars_354();
    assert(lookup_chars_upto(355));
    lemma_lookup_chars_355();
    assert(lookup_chars_upto(356));
    lemma_lookup_chars_356();
    assert(lookup_chars_upto(357));
    lemma_lookup_chars_357();
    assert(lookup_chars_upto(358));
    lemma_lookup_chars_358();
    assert(lookup_chars_upto(359));
    lemma_lookup_chars_359();
    assert(lookup_chars_upto(360));
    lemma_lookup_chars_360();
    assert(lookup_chars_upto(361));
    lemma_lookup_chars_361();
    assert(lookup_chars_upto(362));
    lemma_lookup_chars_362();
    assert(lookup_chars_upto(363));
    lemma_lookup_chars_363();
    assert(lookup_chars_upto(364));
    lemma_lookup_chars_364();
    assert(lookup_chars_upto(365));
    lemma_lookup_chars_365();
    assert(lookup_chars_upto(366));
    lemma_lookup_chars_366();
    assert(lookup_chars_upto(367));
    lemma_lookup_chars_367();
    assert(lookup_chars_upto(368));
    lemma_lookup_chars_368();
    assert(lookup_chars_upto(369));
    lemma_lookup_chars_369();
    assert(lookup_chars_upto(370));
    lemma_lookup_chars_370();
    assert(lookup_chars_upto(371));
    lemma_lookup_chars_371();
    assert(lookup_chars_upto(372));
    lemma_lookup_chars_372();
    assert(lookup_chars_upto(373));
    lemma_lookup_chars_373();
    assert(lookup_chars_upto(374));
    lemma_lookup_chars_374();
    assert(lookup_chars_upto(375));
    lemma_lookup_chars_375();
    assert(lookup_chars_upto(376));
    lemma_lookup_chars_376();
    assert(lookup_chars_upto(377));
    lemma_lookup_chars_377();
    assert(lookup_chars_upto(378));
    lemma_lookup_chars_378();
    assert(lookup_chars_upto(379));
    lemma_lookup_chars_379();
    assert(lookup_chars_upto(380));
    lemma_lookup_chars_380();
    assert(lookup_chars_upto(381));
    lemma_lookup_chars_381();
    assert(lookup_chars_upto(382));
    lemma_lookup_chars_382();
    assert(lookup_chars_upto(383));
    lemma_lookup_chars_383();
    assert(lookup_chars_upto(384));
    lemma_lookup_chars_384();
    assert(lookup_chars_upto(385));
    lemma_lookup_chars_385();
    assert(lookup_chars_upto(386));
    lemma_lookup_chars_386();
    assert(lookup_chars_upto(387));
    lemma_lookup_chars_387();
    assert(lookup_chars_upto(388));
    lemma_lookup_chars_388();
    assert(lookup_chars_upto(389));
    lemma_lookup_chars_389();
    assert(lookup_chars_upto(390));
    lemma_lookup_chars_390();
    assert(lookup_chars_upto(391));
    lemma_lookup_chars_391();
    assert(lookup_chars_upto(392));
    lemma_lookup_chars_392();
    assert(lookup_chars_upto(393));
    lemma_lookup_chars_393();
    assert(lookup_chars_upto(394));
    lemma_lookup_chars_394();
    assert(lookup_chars_upto(395));
    lemma_lookup_chars_395();
    assert(lookup_chars_upto(396));
    lemma_lookup_chars_396();
    assert(lookup_chars_upto(397));
    lemma_lookup_chars_397();
    assert(lookup_chars_upto(398));
    lemma_lookup_chars_398();
    assert(lookup_chars_upto(399));
    lemma_lookup_chars_399();
    assert(lookup_chars_upto(400));
}

proof fn lemma_lookup_chars_upto_450()
    ensures
        lookup_chars_upto(450),
{
    lemma_lookup_chars_upto_400();
    lemma_lookup_chars_400();
    assert(lookup_chars_upto(401));
    lemma_lookup_chars_401();
    assert(lookup_chars_upto(402));
    lemma_lookup_chars_402();
    assert(lookup_chars_upto(403));
    lemma_lookup_chars_403();
    assert(lookup_chars_upto(404));
    lemma_lookup_chars_404();
    assert(lookup_chars_upto(405));
    lemma_lookup_chars_405();
    assert(lookup_chars_upto(406));
    lemma_lookup_chars_406();
    assert(lookup_chars_upto(407));
    lemma_lookup_chars_407();
    assert(lookup_chars_upto(408));
    lemma_lookup_chars_408();
    assert(lookup_chars_upto(409));
    lemma_lookup_chars_409();
    assert(lookup_chars_upto(410));
    lemma_lookup_chars_410();
    assert(lookup_chars_upto(411));
    lemma_lookup_chars_411();
    assert(lookup_chars_upto(412));
    lemma_lookup_chars_412();
    assert(lookup_chars_upto(413));
    lemma_lookup_chars_413();
    assert(lookup_chars_upto(414));
    lemma_lookup_chars_414();
    assert(lookup_chars_upto(415));
    lemma_lookup_chars_415();
    assert(lookup_chars_upto(416));
    lemma_lookup_chars_416();
    assert(lookup_chars_upto(417));
    lemma_lookup_chars_417();
    assert(lookup_chars_upto(418));
    lemma_lookup_chars_418();
    assert(lookup_chars_upto(419));
    lemma_lookup_chars_419();
    assert(lookup_chars_upto(420));
    lemma_lookup_chars_420();
    assert(lookup_chars_upto(421));
    lemma_lookup_chars_421();
    assert(lookup_chars_upto(422));
    lemma_lookup_chars_422();
    assert(lookup_chars_upto(423));
    lemma_lookup_chars_423();
    assert(lookup_chars_upto(424));
    lemma_lookup_chars_424();
    assert(lookup_chars_upto(425));
    lemma_lookup_chars_425();
    assert(lookup_chars_upto(426));
    lemma_lookup_chars_426();
    assert(lookup_chars_upto(427));
    lemma_lookup_chars_427();
    assert(lookup_chars_upto(428));
    lemma_lookup_chars_428();
    assert(lookup_chars_upto(429));
    lemma_lookup_chars_429();
    assert(lookup_chars_upto(430));
    lemma_lookup_chars_430();
    assert(lookup_chars_upto(431));
    lemma_lookup_chars_431();
    assert(lookup_chars_upto(432));
    lemma_lookup_chars_432();
    assert(lookup_chars_upto(433));
    lemma_lookup_chars_433();
    assert(lookup_chars_upto(434));
    lemma_lookup_chars_434();
    assert(lookup_chars_upto(435));
    lemma_lookup_chars_435();
    assert(lookup_chars_upto(436));
    lemma_lookup_chars_436();
    assert(lookup_chars_upto(437));
    lemma_lookup_chars_437();
    assert(lookup_chars_upto(438));
    lemma_lookup_chars_438();
    assert(lookup_chars_upto(439));
    lemma_lookup_chars_439();
    assert(lookup_chars_upto(440));
    lemma_lookup_chars_440();
    assert(lookup_chars_upto(441));
    lemma_lookup_chars_441();
    assert(lookup_chars_upto(442));
    lemma_lookup_chars_442();
    assert(lookup_chars_upto(443));
    lemma_lookup_chars_443();
    assert(lookup_chars_upto(444));
    lemma_lookup_chars_444();
    assert(lookup_chars_upto(445));
    lemma_lookup_chars_445();
    assert(lookup_chars_upto(446));
    lemma_lookup_chars_446();
    assert(lookup_chars_upto(447));
    lemma_lookup_chars_447();
    assert(lookup_chars_upto(448));
    lemma_lookup_chars_448();
    assert(lookup_chars_upto(449));
    lemma_lookup_chars_449();
    assert(lookup_chars_upto(450));
}

proof fn lemma_lookup_chars_upto_500()
    ensures
        lookup_chars_upto(500),
{
    lemma_lookup_chars_upto_450();
    lemma_lookup_chars_450();
    assert(lookup_chars_upto(451));
    lemma_lookup_chars_451();
    assert(lookup_chars_upto(452));
    lemma_lookup_chars_452();
    assert(lookup_chars_upto(453));
    lemma_lookup_chars_453();
    assert(lookup_chars_upto(454));
    lemma_lookup_chars_454();
    assert(lookup_chars_upto(455));
    lemma_lookup_chars_455();
    assert(lookup_chars_upto(456));
    lemma_lookup_chars_456();
    assert(lookup_chars_upto(457));
    lemma_lookup_chars_457();
    assert(lookup_chars_upto(458));
    lemma_lookup_chars_458();
    assert(lookup_chars_upto(459));
    lemma_lookup_chars_459();
    assert(lookup_chars_upto(460));
    lemma_lookup_chars_460();
    assert(lookup_chars_upto(461));
    lemma_lookup_chars_461();
    assert(lookup_chars_upto(462));
    lemma_lookup_chars_462();
    assert(lookup_chars_upto(463));
    lemma_lookup_chars_463();
    assert(lookup_chars_upto(464));
    lemma_lookup_chars_464();
    assert(lookup_chars_upto(465));
    lemma_lookup_chars_465();
    assert(lookup_chars_upto(466));
    lemma_lookup_chars_466();
    assert(lookup_chars_upto(467));
    lemma_lookup_chars_467();
    assert(lookup_chars_upto(468));
    lemma_lookup_chars_468();
    assert(lookup_chars_upto(469));
    lemma_lookup_chars_469();
    assert(lookup_chars_upto(470));
    lemma_lookup_chars_470();
    assert(lookup_chars_upto(471));
    lemma_lookup_chars_471();
    assert(lookup_chars_upto(472));
    lemma_lookup_chars_472();
    assert(lookup_chars_upto(473));
    lemma_lookup_chars_473();
    assert(lookup_chars_upto(474));
    lemma_lookup_chars_474();
    assert(lookup_chars_upto(475));
    lemma_lookup_chars_475();
    assert(lookup_chars_upto(476));
    lemma_lookup_chars_476();
    assert(lookup_chars_upto(477));
    lemma_lookup_chars_477();
    assert(lookup_chars_upto(478));
    lemma_lookup_chars_478();
    assert(lookup_chars_upto(479));
    lemma_lookup_chars_479();
    assert(lookup_chars_upto(480));
    lemma_lookup_chars_480();
    assert(lookup_chars_upto(481));
    lemma_lookup_chars_481();
    assert(lookup_chars_upto(482));
    lemma_lookup_chars_482();
    assert(lookup_chars_upto(483));
    lemma_lookup_chars_483();
    assert(lookup_chars_upto(484));
    lemma_lookup_chars_484();
    assert(lookup_chars_upto(485));
    lemma_lookup_chars_485();
    assert(lookup_chars_upto(486));
    lemma_lookup_chars_486();
    assert(lookup_chars_upto(487));
    lemma_lookup_chars_487();
    assert(lookup_chars_upto(488));
    lemma_lookup_chars_488();
    assert(lookup_chars_upto(489));
    lemma_lookup_chars_489();
    assert(lookup_chars_upto(490));
    lemma_lookup_chars_490();
    assert(lookup_chars_upto(491));
    lemma_lookup_chars_491();
    assert(lookup_chars_upto(492));
    lemma_lookup_chars_492();
    assert(lookup_chars_upto(493));
    lemma_lookup_chars_493();
    assert(lookup_chars_upto(494));
    lemma_lookup_chars_494();
    assert(lookup_chars_upto(495));
    lemma_lookup_chars_495();
    assert(lookup_chars_upto(496));
    lemma_lookup_chars_496();
    assert(lookup_chars_upto(497));
    lemma_lookup_chars_497();
    assert(lookup_chars_upto(498));
    lemma_lookup_chars_498();
    assert(lookup_chars_upto(499));
    lemma_lookup_chars_499();
    assert(lookup_chars_upto(500));
}

proof fn lemma_lookup_chars_upto_550()
    ensures
        lookup_chars_upto(550),
{
    lemma_lookup_chars_upto_500();
    lemma_lookup_chars_500();
    assert(lookup_chars_upto(501));
    lemma_lookup_chars_501();
    assert(lookup_chars_upto(502));
    lemma_lookup_chars_502();
    assert(lookup_chars_upto(503));
    lemma_lookup_chars_503();
    assert(lookup_chars_upto(504));
    lemma_lookup_chars_504();
    assert(lookup_chars_upto(505));
    lemma_lookup_chars_505();
    assert(lookup_chars_upto(506));
    lemma_lookup_chars_506();
    assert(lookup_chars_upto(507));
    lemma_lookup_chars_507();
    assert(lookup_chars_upto(508));
    lemma_lookup_chars_508();
    assert(lookup_chars_upto(509));
    lemma_lookup_chars_509();
    assert(lookup_chars_upto(510));
    lemma_lookup_chars_510();
    assert(lookup_chars_upto(511));
    lemma_lookup_chars_511();
    assert(lookup_chars_upto(512));
    lemma_lookup_chars_512();
    assert(lookup_chars_upto(513));
    lemma_lookup_chars_513();
    assert(lookup_chars_upto(514));
    lemma_lookup_chars_514();
    assert(lookup_chars_upto(515));
    lemma_lookup_chars_515();
    assert(lookup_chars_upto(516));
    lemma_lookup_chars_516();
    assert(lookup_chars_upto(517));
    lemma_lookup_chars_517();
    assert(lookup_chars_upto(518));
    lemma_lookup_chars_518();
    assert(lookup_chars_upto(519));
    lemma_lookup_chars_519();
    assert(lookup_chars_upto(520));
    lemma_lookup_chars_520();
    assert(lookup_chars_upto(521));
    lemma_lookup_chars_521();
    assert(lookup_chars_upto(522));
    lemma_lookup_chars_522();
    assert(lookup_chars_upto(523));
    lemma_lookup_chars_523();
    assert(lookup_chars_upto(524));
    lemma_lookup_chars_524();
    assert(lookup_chars_upto(525));
    lemma_lookup_chars_525();
    assert(lookup_chars_upto(526));
    lemma_lookup_chars_526();
    assert(lookup_chars_upto(527));
    lemma_lookup_chars_527();
    assert(lookup_chars_upto(528));
    lemma_lookup_chars_528();
    assert(lookup_chars_upto(529));
    lemma_lookup_chars_529();
    assert(lookup_chars_upto(530));
    lemma_lookup_chars_530();
    assert(lookup_chars_upto(531));
    lemma_lookup_chars_531();
    assert(lookup_chars_upto(532));
    lemma_lookup_chars_532();
    assert(lookup_chars_upto(533));
    lemma_lookup_chars_533();
    assert(lookup_chars_upto(534));
    lemma_lookup_chars_534();
    assert(lookup_chars_upto(535));
    lemma_lookup_chars_535();
    assert(lookup_chars_upto(536));
    lemma_lookup_chars_536();
    assert(lookup_chars_upto(537));
    lemma_lookup_chars_537();
    assert(lookup_chars_upto(538));
    lemma_lookup_chars_538();
    assert(lookup_chars_upto(539));
    lemma_lookup_chars_539();
    assert(lookup_chars_upto(540));
    lemma_lookup_chars_540();
    assert(lookup_chars_upto(541));
    lemma_lookup_chars_541();
    assert(lookup_chars_upto(542));
    lemma_lookup_chars_542();
    assert(lookup_chars_upto(543));
    lemma_lookup_chars_543();
    assert(lookup_chars_upto(544));
    lemma_lookup_chars_544();
    assert(lookup_chars_upto(545));
    lemma_lookup_chars_545();
    assert(lookup_chars_upto(546));
    lemma_lookup_chars_546();
    assert(lookup_chars_upto(547));
    lemma_lookup_chars_547();
    assert(lookup_chars_upto(548));
    lemma_lookup_chars_548();
    assert(lookup_chars_upto(549));
    lemma_lookup_chars_549();
    assert(lookup_chars_upto(550));
}

proof fn lemma_lookup_chars_upto_600()
    ensures
        lookup_chars_upto(600),
{
    lemma_lookup_chars_upto_550();
    lemma_lookup_chars_550();
    assert(lookup_chars_upto(551));
    lemma_lookup_chars_551();
    assert(lookup_chars_upto(552));
    lemma_lookup_chars_552();
    assert(lookup_chars_upto(553));
    lemma_lookup_chars_553();
    assert(lookup_chars_upto(554));
    lemma_lookup_chars_554();
    assert(lookup_chars_upto(555));
    lemma_lookup_chars_555();
    assert(lookup_chars_upto(556));
    lemma_lookup_chars_556();
    assert(lookup_chars_upto(557));
    lemma_lookup_chars_557();
    assert(lookup_chars_upto(558));
    lemma_lookup_chars_558();
    assert(lookup_chars_upto(559));
    lemma_lookup_chars_559();
    assert(lookup_chars_upto(560));
    lemma_lookup_chars_560();
    assert(lookup_chars_upto(561));
    lemma_lookup_chars_561();
    assert(lookup_chars_upto(562));
    lemma_lookup_chars_562();
    assert(lookup_chars_upto(563));
    lemma_lookup_chars_563();
    assert(lookup_chars_upto(564));
    lemma_lookup_chars_564();
    assert(lookup_chars_upto(565));
    lemma_lookup_chars_565();
    assert(lookup_chars_upto(566));
    lemma_lookup_chars_566();
    assert(lookup_chars_upto(567));
    lemma_lookup_chars_567();
    assert(lookup_chars_upto(568));
    lemma_lookup_chars_568();
    assert(lookup_chars_upto(569));
    lemma_lookup_chars_569();
    assert(lookup_chars_upto(570));
    lemma_lookup_chars_570();
    assert(lookup_chars_upto(571));
    lemma_lookup_chars_571();
    assert(lookup_chars_upto(572));
    lemma_lookup_chars_572();
    assert(lookup_chars_upto(573));
    lemma_lookup_chars_573();
    assert(lookup_chars_upto(574));
    lemma_lookup_chars_574();
    assert(lookup_chars_upto(575));
    lemma_lookup_chars_575();
    assert(lookup_chars_upto(576));
    lemma_lookup_chars_576();
    assert(lookup_chars_upto(577));
    lemma_lookup_chars_577();
    assert(lookup_chars_upto(578));
    lemma_lookup_chars_578();
    assert(lookup_chars_upto(579));
    lemma_lookup_chars_579();
    assert(lookup_chars_upto(580));
    lemma_lookup_chars_580();
    assert(lookup_chars_upto(581));
    lemma_lookup_chars_581();
    assert(lookup_chars_upto(582));
    lemma_lookup_chars_582();
    assert(lookup_chars_upto(583));
    lemma_lookup_chars_583();
    assert(lookup_chars_upto(584));
    lemma_lookup_chars_584();
    assert(lookup_chars_upto(585));
    lemma_lookup_chars_585();
    assert(lookup_chars_upto(586));
    lemma_lookup_chars_586();
    assert(lookup_chars_upto(587));
    lemma_lookup_chars_587();
    assert(lookup_chars_upto(588));
    lemma_lookup_chars_588();
    assert(lookup_chars_upto(589));
    lemma_lookup_chars_589();
    assert(lookup_chars_upto(590));
    lemma_lookup_chars_590();
    assert(lookup_chars_upto(591));
    lemma_lookup_chars_591();
    assert(lookup_chars_upto(592));
    lemma_lookup_chars_592();
    assert(lookup_chars_upto(593));
    lemma_lookup_chars_593();
    assert(lookup_chars_upto(594));
    lemma_lookup_chars_594();
    assert(lookup_chars_upto(595));
    lemma_lookup_chars_595();
    assert(lookup_chars_upto(596));
    lemma_lookup_chars_596();
    assert(lookup_chars_upto(597));
    lemma_lookup_chars_597();
    assert(lookup_chars_upto(598));
    lemma_lookup_chars_598();
    assert(lookup_chars_upto(599));
    lemma_lookup_chars_599();
    assert(lookup_chars_upto(600));
}

proof fn lemma_lookup_chars_upto_650()
    ensures
        lookup_chars_upto(650),
{
    lemma_lookup_chars_upto_600();
    lemma_lookup_chars_600();
    assert(lookup_chars_upto(601));
    lemma_lookup_chars_601();
    assert(lookup_chars_upto(602));
    lemma_lookup_chars_602();
    assert(lookup_chars_upto(603));
    lemma_lookup_chars_603();
    assert(lookup_chars_upto(604));
    lemma_lookup_chars_604();
    assert(lookup_chars_upto(605));
    lemma_lookup_chars_605();
    assert(lookup_chars_upto(606));
    lemma_lookup_chars_606();
    assert(lookup_chars_upto(607));
    lemma_lookup_chars_607();
    assert(lookup_chars_upto(608));
    lemma_lookup_chars_608();
    assert(lookup_chars_upto(609));
    lemma_lookup_chars_609();
    assert(lookup_chars_upto(610));
    lemma_lookup_chars_610();
    assert(lookup_chars_upto(611));
    lemma_lookup_chars_611();
    assert(lookup_chars_upto(612));
    lemma_lookup_chars_612();
    assert(lookup_chars_upto(613));
    lemma_lookup_chars_613();
    assert(lookup_chars_upto(614));
    lemma_lookup_chars_614();
    assert(lookup_chars_upto(615));
    lemma_lookup_chars_615();
    assert(lookup_chars_upto(616));
    lemma_lookup_chars_616();
    assert(lookup_chars_upto(617));
    lemma_lookup_chars_617();
    assert(lookup_chars_upto(618));
    lemma_lookup_chars_618();
    assert(lookup_chars_upto(619));
    lemma_lookup_chars_619();
    assert(lookup_chars_upto(620));
    lemma_lookup_chars_620();
    assert(lookup_chars_upto(621));
    lemma_lookup_chars_621();
    assert(lookup_chars_upto(622));
    lemma_lookup_chars_622();
    assert(lookup_chars_upto(623));
    lemma_lookup_chars_623();
    assert(lookup_chars_upto(624));
    lemma_lookup_chars_624();
    assert(lookup_chars_upto(625));
    lemma_lookup_chars_625();
    assert(lookup_chars_upto(626));
    lemma_lookup_chars_626();
    assert(lookup_chars_upto(627));
    lemma_lookup_chars_627();
    assert(lookup_chars_upto(628));
    lemma_lookup_chars_628();
    assert(lookup_chars_upto(629));
    lemma_lookup_chars_629();
    assert(lookup_chars_upto(630));
    lemma_lookup_chars_630();
    assert(lookup_chars_upto(631));
    lemma_lookup_chars_631();
    assert(lookup_chars_upto(632));
    lemma_lookup_chars_632();
    assert(lookup_chars_upto(633));
    lemma_lookup_chars_633();
    assert(lookup_chars_upto(634));
    lemma_lookup_chars_634();
    assert(lookup_chars_upto(635));
    lemma_lookup_chars_635();
    assert(lookup_chars_upto(636));
    lemma_lookup_chars_636();
    assert(lookup_chars_upto(637));
    lemma_lookup_chars_637();
    assert(lookup_chars_upto(638));
    lemma_lookup_chars_638();
    assert(lookup_chars_upto(639));
    lemma_lookup_chars_639();
    assert(lookup_chars_upto(640));
    lemma_lookup_chars_640();
    assert(lookup_chars_upto(641));
    lemma_lookup_chars_641();
    assert(lookup_chars_upto(642));
    lemma_lookup_chars_642();
    assert(lookup_chars_upto(643));
    lemma_lookup_chars_643();
    assert(lookup_chars_upto(644));
    lemma_lookup_chars_644();
    assert(lookup_chars_upto(645));
    lemma_lookup_chars_645();
    assert(lookup_chars_upto(646));
    lemma_lookup_chars_646();
    assert(lookup_chars_upto(647));
    lemma_lookup_chars_647();
    assert(lookup_chars_upto(648));
    lemma_lookup_chars_648();
    assert(lookup_chars_upto(649));
    lemma_lookup_chars_649();
    assert(lookup_chars_upto(650));
}

proof fn lemma_lookup_chars_upto_700()
    ensures
        lookup_chars_upto(700),
{
    lemma_lookup_chars_upto_650();
    lemma_lookup_chars_650();
    assert(lookup_chars_upto(651));
    lemma_lookup_chars_651();
    assert(lookup_chars_upto(652));
    lemma_lookup_chars_652();
    assert(lookup_chars_upto(653));
    lemma_lookup_chars_653();
    assert(lookup_chars_upto(654));
    lemma_lookup_chars_654();
    assert(lookup_chars_upto(655));
    lemma_lookup_chars_655();
    assert(lookup_chars_upto(656));
    lemma_lookup_chars_656();
    assert(lookup_chars_upto(657));
    lemma_lookup_chars_657();
    assert(lookup_chars_upto(658));
    lemma_lookup_chars_658();
    assert(lookup_chars_upto(659));
    lemma_lookup_chars_659();
    assert(lookup_chars_upto(660));
    lemma_lookup_chars_660();
    assert(lookup_chars_upto(661));
    lemma_lookup_chars_661();
    assert(lookup_chars_upto(662));
    lemma_lookup_chars_662();
    assert(lookup_chars_upto(663));
    lemma_lookup_chars_663();
    assert(lookup_chars_upto(664));
    lemma_lookup_chars_664();
    assert(lookup_chars_upto(665));
    lemma_lookup_chars_665();
    assert(lookup_chars_upto(666));
    lemma_lookup_chars_666();
    assert(lookup_chars_upto(667));
    lemma_lookup_chars_667();
    assert(lookup_chars_upto(668));
    lemma_lookup_chars_668();
    assert(lookup_chars_upto(669));
    lemma_lookup_chars_669();
    assert(lookup_chars_upto(670));
    lemma_lookup_chars_670();
    assert(lookup_chars_upto(671));
    lemma_lookup_chars_671();
    assert(lookup_chars_upto(672));
    lemma_lookup_chars_672();
    assert(lookup_chars_upto(673));
    lemma_lookup_chars_673();
    assert(lookup_chars_upto(674));
    lemma_lookup_chars_674();
    assert(lookup_chars_upto(675));
    lemma_lookup_chars_675();
    assert(lookup_chars_upto(676));
    lemma_lookup_chars_676();
    assert(lookup_chars_upto(677));
    lemma_lookup_chars_677();
    assert(lookup_chars_upto(678));
    lemma_lookup_chars_678();
    assert(lookup_chars_upto(679));
    lemma_lookup_chars_679();
    assert(lookup_chars_upto(680));
    lemma_lookup_chars_680();
    assert(lookup_chars_upto(681));
    lemma_lookup_chars_681();
    assert(lookup_chars_upto(682));
    lemma_lookup_chars_682();
    assert(lookup_chars_upto(683));
    lemma_lookup_chars_683();
    assert(lookup_chars_upto(684));
    lemma_lookup_chars_684();
    assert(lookup_chars_upto(685));
    lemma_lookup_chars_685();
    assert(lookup_chars_upto(686));
    lemma_lookup_chars_686();
    assert(lookup_chars_upto(687));
    lemma_lookup_chars_687();
    assert(lookup_chars_upto(688));
    lemma_lookup_chars_688();
    assert(lookup_chars_upto(689));
    lemma_lookup_chars_689();
    assert(lookup_chars_upto(690));
    lemma_lookup_chars_690();
    assert(lookup_chars_upto(691));
    lemma_lookup_chars_691();
    assert(lookup_chars_upto(692));
    lemma_lookup_chars_692();
    assert(lookup_chars_upto(693));
    lemma_lookup_chars_693();
    assert(lookup_chars_upto(694));
    lemma_lookup_chars_694();
    assert(lookup_chars_upto(695));
    lemma_lookup_chars_695();
    assert(lookup_chars_upto(696));
    lemma_lookup_chars_696();
    assert(lookup_chars_upto(697));
    lemma_lookup_chars_697();
    assert(lookup_chars_upto(698));
    lemma_lookup_chars_698();
    assert(lookup_chars_upto(699));
    lemma_lookup_chars_699();
    assert(lookup_chars_upto(700));
}

proof fn lemma_lookup_chars_upto_750()
    ensures
        lookup_chars_upto(750),
{
    lemma_lookup_chars_upto_700();
    lemma_lookup_chars_700();
    assert(lookup_chars_upto(701));
    lemma_lookup_chars_701();
    assert(lookup_chars_upto(702));
    lemma_lookup_chars_702();
    assert(lookup_chars_upto(703));
    lemma_lookup_chars_703();
    assert(lookup_chars_upto(704));
    lemma_lookup_chars_704();
    assert(lookup_chars_upto(705));
    lemma_lookup_chars_705();
    assert(lookup_chars_upto(706));
    lemma_lookup_chars_706();
    assert(lookup_chars_upto(707));
    lemma_lookup_chars_707();
    assert(lookup_chars_upto(708));
    lemma_lookup_chars_708();
    assert(lookup_chars_upto(709));
    lemma_lookup_chars_709();
    assert(lookup_chars_upto(710));
    lemma_lookup_chars_710();
    assert(lookup_chars_upto(711));
    lemma_lookup_chars_711();
    assert(lookup_chars_upto(712));
    lemma_lookup_chars_712();
    assert(lookup_chars_upto(713));
    lemma_lookup_chars_713();
    assert(lookup_chars_upto(714));
    lemma_lookup_chars_714();
    assert(lookup_chars_upto(715));
    lemma_lookup_chars_715();
    assert(lookup_chars_upto(716));
    lemma_lookup_chars_716();
    assert(lookup_chars_upto(717));
    lemma_lookup_chars_717();
    assert(lookup_chars_upto(718));
    lemma_lookup_chars_718();
    assert(lookup_chars_upto(719));
    lemma_lookup_chars_719();
    assert(lookup_chars_upto(720));
    lemma_lookup_chars_720();
    assert(lookup_chars_upto(721));
    lemma_lookup_chars_721();
    assert(lookup_chars_upto(722));
    lemma_lookup_chars_722();
    assert(lookup_chars_upto(723));
    lemma_lookup_chars_723();
    assert(lookup_chars_upto(724));
    lemma_lookup_chars_724();
    assert(lookup_chars_upto(725));
    lemma_lookup_chars_725();
    assert(lookup_chars_upto(726));
    lemma_lookup_chars_726();
    assert(lookup_chars_upto(727));
    lemma_lookup_chars_727();
    assert(lookup_chars_upto(728));
    lemma_lookup_chars_728();
    assert(lookup_chars_upto(729));
    lemma_lookup_chars_729();
    assert(lookup_chars_upto(730));
    lemma_lookup_chars_730();
    assert(lookup_chars_upto(731));
    lemma_lookup_chars_731();
    assert(lookup_chars_upto(732));
    lemma_lookup_chars_732();
    assert(lookup_chars_upto(733));
    lemma_lookup_chars_733();
    assert(lookup_chars_upto(734));
    lemma_lookup_chars_734();
    assert(lookup_chars_upto(735));
    lemma_lookup_chars_735();
    assert(lookup_chars_upto(736));
    lemma_lookup_chars_736();
    assert(lookup_chars_upto(737));
    lemma_lookup_chars_737();
    assert(lookup_chars_upto(738));
    lemma_lookup_chars_738();
    assert(lookup_chars_upto(739));
    lemma_lookup_chars_739();
    assert(lookup_chars_upto(740));
    lemma_lookup_chars_740();
    assert(lookup_chars_upto(741));
    lemma_lookup_chars_741();
    assert(lookup_chars_upto(742));
    lemma_lookup_chars_742();
    assert(lookup_chars_upto(743));
    lemma_lookup_chars_743();
    assert(lookup_chars_upto(744));
    lemma_lookup_chars_744();
    assert(lookup_chars_upto(745));
    lemma_lookup_chars_745();
    assert(lookup_chars_upto(746));
    lemma_lookup_chars_746();
    assert(lookup_chars_upto(747));
    lemma_lookup_chars_747();
    assert(lookup_chars_upto(748));
    lemma_lookup_chars_748();
    assert(lookup_chars_upto(749));
    lemma_lookup_chars_749();
    assert(lookup_chars_upto(750));
}

proof fn lemma_lookup_chars_upto_800()
    ensures
        lookup_chars_upto(800),
{
    lemma_lookup_chars_upto_750();
    lemma_lookup_chars_750();
    assert(lookup_chars_upto(751));
    lemma_lookup_chars_751();
    assert(lookup_chars_upto(752));
    lemma_lookup_chars_752();
    assert(lookup_chars_upto(753));
    lemma_lookup_chars_753();
    assert(lookup_chars_upto(754));
    lemma_lookup_chars_754();
    assert(lookup_chars_upto(755));
    lemma_lookup_chars_755();
    assert(lookup_chars_upto(756));
    lemma_lookup_chars_756();
    assert(lookup_chars_upto(757));
    lemma_lookup_chars_757();
    assert(lookup_chars_upto(758));
    lemma_lookup_chars_758();
    assert(lookup_chars_upto(759));
    lemma_lookup_chars_759();
    assert(lookup_chars_upto(760));
    lemma_lookup_chars_760();
    assert(lookup_chars_upto(761));
    lemma_lookup_chars_761();
    assert(lookup_chars_upto(762));
    lemma_lookup_chars_762();
    assert(lookup_chars_upto(763));
    lemma_lookup_chars_763();
    assert(lookup_chars_upto(764));
    lemma_lookup_chars_764();
    assert(lookup_chars_upto(765));
    lemma_lookup_chars_765();
    assert(lookup_chars_upto(766));
    lemma_lookup_chars_766();
    assert(lookup_chars_upto(767));
    lemma_lookup_chars_767();
    assert(lookup_chars_upto(768));
    lemma_lookup_chars_768();
    assert(lookup_chars_upto(769));
    lemma_lookup_chars_769();
    assert(lookup_chars_upto(770));
    lemma_lookup_chars_770();
    assert(lookup_chars_upto(771));
    lemma_lookup_chars_771();
    assert(lookup_chars_upto(772));
    lemma_lookup_chars_772();
    assert(lookup_chars_upto(773));
    lemma_lookup_chars_773();
    assert(lookup_chars_upto(774));
    lemma_lookup_chars_774();
    assert(lookup_chars_upto(775));
    lemma_lookup_chars_775();
    assert(lookup_chars_upto(776));
    lemma_lookup_chars_776();
    assert(lookup_chars_upto(777));
    lemma_lookup_chars_777();
    assert(lookup_chars_upto(778));
    lemma_lookup_chars_778();
    assert(lookup_chars_upto(779));
    lemma_lookup_chars_779();
    assert(lookup_chars_upto(780));
    lemma_lookup_chars_780();
    assert(lookup_chars_upto(781));
    lemma_lookup_chars_781();
    assert(lookup_chars_upto(782));
    lemma_lookup_chars_782();
    assert(lookup_chars_upto(783));
    lemma_lookup_chars_783();
    assert(lookup_chars_upto(784));
    lemma_lookup_chars_784();
    assert(lookup_chars_upto(785));
    lemma_lookup_chars_785();
    assert(lookup_chars_upto(786));
    lemma_lookup_chars_786();
    assert(lookup_chars_upto(787));
    lemma_lookup_chars_787();
    assert(lookup_chars_upto(788));
    lemma_lookup_chars_788();
    assert(lookup_chars_upto(789));
    lemma_lookup_chars_789();
    assert(lookup_chars_upto(790));
    lemma_lookup_chars_790();
    assert(lookup_chars_upto(791));
    lemma_lookup_chars_791();
    assert(lookup_chars_upto(792));
    lemma_lookup_chars_792();
    assert(lookup_chars_upto(793));
    lemma_lookup_chars_793();
    assert(lookup_chars_upto(794));
    lemma_lookup_chars_794();
    assert(lookup_chars_upto(795));
    lemma_lookup_chars_795();
    assert(lookup_chars_upto(796));
    lemma_lookup_chars_796();
    assert(lookup_chars_upto(797));
    lemma_lookup_chars_797();
    assert(lookup_chars_upto(798));
    lemma_lookup_chars_798();
    assert(lookup_chars_upto(799));
    lemma_lookup_chars_799();
    assert(lookup_chars_upto(800));
}

proof fn lemma_lookup_chars_upto_816()
    ensures
        lookup_chars_upto(816),
{
    lemma_lookup_chars_upto_800();
    lemma_lookup_chars_800();
    assert(lookup_chars_upto(801));
    lemma_lookup_chars_801();
    assert(lookup_chars_upto(802));
    lemma_lookup_chars_802();
    assert(lookup_chars_upto(803));
    lemma_lookup_chars_803();
    assert(lookup_chars_upto(804));
    lemma_lookup_chars_804();
    assert(lookup_chars_upto(805));
    lemma_lookup_chars_805();
    assert(lookup_chars_upto(806));
    lemma_lookup_chars_806();
    assert(lookup_chars_upto(807));
    lemma_lookup_chars_807();
    assert(lookup_chars_upto(808));
    lemma_lookup_chars_808();
    assert(lookup_chars_upto(809));
    lemma_lookup_chars_809();
    assert(lookup_chars_upto(810));
    lemma_lookup_chars_810();
    assert(lookup_chars_upto(811));
    lemma_lookup_chars_811();
    assert(lookup_chars_upto(812));
    lemma_lookup_chars_812();
    assert(lookup_chars_upto(813));
    lemma_lookup_chars_813();
    assert(lookup_chars_upto(814));
    lemma_lookup_chars_814();
    assert(lookup_chars_upto(815));
    lemma_lookup_chars_815();
    assert(lookup_chars_upto(816));
}

proof fn lemma_chars_each(n: usize)
    requires
        lookup_chars_upto(n),
    ensures
        forall|i: usize| i < n ==> name_chars_from(#[trigger] lookup_name(i), 0),
    decreases n,
{
    if n > 0 {
        lemma_chars_each((n - 1) as usize);
    }
}

/// Every name of the lookup table is made of property-name characters.
pub proof fn lemma_lookup_name_chars()
    ensures
        forall|i: usize| i < LOOKUP_LEN ==> name_chars_from(#[trigger] lookup_name(i), 0),
{
    lemma_lookup_chars_upto_816();
    lemma_chars_each(LOOKUP_LEN);
}

/// The lookup table is in strictly increasing name order.
pub proof fn lemma_lookup_sorted()
    ensures
        forall|i: usize, j: usize| i < j < LOOKUP_LEN ==> name_less(#[trigger] lookup_name(i), #[trigger] lookup_name(j)),
{
    lemma_lookup_sorted_upto_816();
    lemma_sorted_pairs(LOOKUP_LEN);
}

} // verus!
