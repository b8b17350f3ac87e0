//! What the at-rule definitions give as grammar, and the laws that relate
//! an at-rule's kind to it.
use vstd::prelude::*;

use super::{AtRuleKind, CssAtRule};

verus! {

/// The grammar of the at-rule as its definition writes it, where it gives
/// one.
pub open spec fn documented_syntax(rule: CssAtRule) -> Option<Seq<char>> {
    match rule {
        CssAtRule::Annotation => Some("@annotation { <declaration-list> }"@),
        CssAtRule::Apply => Some("@apply [ <dashed-ident> | <dashed-function> ] [ { <declaration-list> } ]?;"@),
        CssAtRule::BottomCenter => Some("@bottom-center { <declaration-list> };"@),
        CssAtRule::BottomLeft => Some("@bottom-left { <declaration-list> };"@),
        CssAtRule::BottomLeftCorner => Some("@bottom-left-corner { <declaration-list> };"@),
        CssAtRule::BottomRight => Some("@bottom-right { <declaration-list> };"@),
        CssAtRule::BottomRightCorner => Some("@bottom-right-corner { <declaration-list> };"@),
        CssAtRule::CharacterVariant => Some("@character-variant { <declaration-list> }"@),
        CssAtRule::ColorProfile => Some("@color-profile [<dashed-ident> | device-cmyk] { <declaration-list> }"@),
        CssAtRule::Container => Some("@container <container-condition># { <block-contents> }"@),
        CssAtRule::Contents => Some("@contents [ { <declaration-list> } ]?"@),
        CssAtRule::CounterStyle => Some("@counter-style <counter-style-name> { <declaration-list> }"@),
        CssAtRule::CustomMedia => Some("@custom-media <extension-name> [ <media-query-list> | true | false ] ;"@),
        CssAtRule::CustomSelector => Some("@custom-selector <custom-selector> <selector-list> ;"@),
        CssAtRule::Else => Some("@else <boolean-condition>? { <rule-list> }"@),
        CssAtRule::FontFace => Some("@font-face { <declaration-list> }"@),
        CssAtRule::FontFeatureValues => Some("@font-feature-values <font-family-name># { <declaration-rule-list> }"@),
        CssAtRule::FontPaletteValues => Some("@font-palette-values <dashed-ident> { <declaration-list> }"@),
        CssAtRule::Function => Some("@function <function-token> <function-parameter>#? ) [ returns <css-type> ]? { <declaration-rule-list> }"@),
        CssAtRule::HistoricalForms => Some("@historical-forms { <declaration-list> }"@),
        CssAtRule::Import => Some("@import [ <url> | <string> ] [[ layer | layer( <layer-name> ) ] || [ scope | scope( <scope-start> | <scope-boundaries> ) ] || <supports-import-condition>]? <media-import-condition> ;"@),
        CssAtRule::Keyframes => Some("@keyframes <keyframes-name> { <qualified-rule-list> }"@),
        CssAtRule::Layer => Some("@layer <layer-name>? { <rule-list> } | @layer <layer-name>#;"@),
        CssAtRule::LeftBottom => Some("@left-bottom { <declaration-list> };"@),
        CssAtRule::LeftMiddle => Some("@left-middle { <declaration-list> };"@),
        CssAtRule::LeftTop => Some("@left-top { <declaration-list> };"@),
        CssAtRule::Macro => Some("@macro <dashed-ident> { <declaration-rule-list> }"@),
        CssAtRule::Media => Some("@media <media-query-list> { <rule-list> }"@),
        CssAtRule::Mixin => Some("@mixin <function-token> <function-parameter>#? ) { <declaration-rule-list> }"@),
        CssAtRule::Namespace => Some("@namespace <namespace-prefix>? [ <string> | <url> ] ;"@),
        CssAtRule::Navigation => Some("@navigation <navigation-condition> { <rule-list> }"@),
        CssAtRule::Ornaments => Some("@ornaments { <declaration-list> }"@),
        CssAtRule::Page => Some("@page <page-selector-list>? { <declaration-rule-list> }"@),
        CssAtRule::PositionTry => Some("@position-try <dashed-ident> { <declaration-list> }"@),
        CssAtRule::Property => Some("@property <custom-property-name> { <declaration-list> }"@),
        CssAtRule::Result => Some("@result { <declaration-rule-list> }"@),
        CssAtRule::RightBottom => Some("@right-bottom { <declaration-list> };"@),
        CssAtRule::RightMiddle => Some("@right-middle { <declaration-list> };"@),
        CssAtRule::RightTop => Some("@right-top { <declaration-list> };"@),
        CssAtRule::Route => Some("@route <dashed-ident> { [ <pattern-descriptors> | <init-descriptors> ] }"@),
        CssAtRule::Scope => Some("@scope <scope-boundaries>? { <block-contents> }"@),
        CssAtRule::Styleset => Some("@styleset { <declaration-list> }"@),
        CssAtRule::Stylistic => Some("@stylistic { <declaration-list> }"@),
        CssAtRule::Supports => Some("@supports <supports-condition> { <rule-list> }"@),
        CssAtRule::SupportsCondition => Some("@supports-condition <supports-condition-name> { <block-contents> }"@),
        CssAtRule::Swash => Some("@swash { <declaration-list> }"@),
        CssAtRule::TopCenter => Some("@top-center { <declaration-list> };"@),
        CssAtRule::TopLeft => Some("@top-left { <declaration-list> };"@),
        CssAtRule::TopLeftCorner => Some("@top-left-corner { <declaration-list> };"@),
        CssAtRule::TopRight => Some("@top-right { <declaration-list> };"@),
        CssAtRule::TopRightCorner => Some("@top-right-corner { <declaration-list> };"@),
        CssAtRule::ViewTransition => Some("@view-transition { <declaration-list> }"@),
        CssAtRule::When => Some("@when <boolean-condition> { <rule-list> }"@),
        _ => None,
    }
}

/// The grammar ends with a `{}`-block: its last character is `}`, or `}`
/// then `;`.
pub open spec fn closes_with_block(s: Seq<char>) -> bool {
    ||| (s.len() >= 1 && s[s.len() - 1] == '}')
    ||| (s.len() >= 2 && s[s.len() - 2] == '}' && s[s.len() - 1] == ';')
}

/// The grammar ends as a statement: its last character is `;`, with no `}`
/// just before it.
pub open spec fn closes_with_semicolon(s: Seq<char>) -> bool {
    &&& s.len() >= 1
    &&& s[s.len() - 1] == ';'
    &&& !(s.len() >= 2 && s[s.len() - 2] == '}')
}

/// Where the definition gives a grammar: an at-rule whose grammar ends with
/// a `{}`-block takes a block; one whose grammar ends with a `;` after
/// anything but a block is a statement; one that takes a block has a `{` in
/// its grammar; and the grammar begins with the at-rule's name, then a space.
pub proof fn lemma_kind_as_documented(rule: CssAtRule)
    ensures
        documented_syntax(rule) matches Some(s) ==> {
            &&& closes_with_block(s) ==> rule.spec_kind() == AtRuleKind::Block
            &&& closes_with_semicolon(s) ==> rule.spec_kind() == AtRuleKind::Statement
            &&& rule.spec_kind() == AtRuleKind::Block ==> s.contains('{')
            &&& rule.spec_name().is_prefix_of(s)
            &&& s[rule.spec_name().len() as int] == ' '
        },
{
    match rule {
        CssAtRule::WebkitKeyframes => {},
        CssAtRule::Annotation => {
            reveal_strlit("@annotation { <declaration-list> }");
            reveal_strlit("@annotation");
            assert("@annotation"@ =~= "@annotation { <declaration-list> }"@.subrange(0, 11));
            assert("@annotation { <declaration-list> }"@[12] == '{');
        },
        CssAtRule::Apply => {
            reveal_strlit("@apply [ <dashed-ident> | <dashed-function> ] [ { <declaration-list> } ]?;");
            reveal_strlit("@apply");
            assert("@apply"@ =~= "@apply [ <dashed-ident> | <dashed-function> ] [ { <declaration-list> } ]?;"@.subrange(0, 6));
            assert("@apply [ <dashed-ident> | <dashed-function> ] [ { <declaration-list> } ]?;"@[48] == '{');
        },
        CssAtRule::BottomCenter => {
            reveal_strlit("@bottom-center { <declaration-list> };");
            reveal_strlit("@bottom-center");
            assert("@bottom-center"@ =~= "@bottom-center { <declaration-list> };"@.subrange(0, 14));
            assert("@bottom-center { <declaration-list> };"@[15] == '{');
        },
        CssAtRule::BottomLeft => {
            reveal_strlit("@bottom-left { <declaration-list> };");
            reveal_strlit("@bottom-left");
            assert("@bottom-left"@ =~= "@bottom-left { <declaration-list> };"@.subrange(0, 12));
            assert("@bottom-left { <declaration-list> };"@[13] == '{');
        },
        CssAtRule::BottomLeftCorner => {
            reveal_strlit("@bottom-left-corner { <declaration-list> };");
            reveal_strlit("@bottom-left-corner");
            assert("@bottom-left-corner"@ =~= "@bottom-left-corner { <declaration-list> };"@.subrange(0, 19));
            assert("@bottom-left-corner { <declaration-list> };"@[20] == '{');
        },
        CssAtRule::BottomRight => {
            reveal_strlit("@bottom-right { <declaration-list> };");
            reveal_strlit("@bottom-right");
            assert("@bottom-right"@ =~= "@bottom-right { <declaration-list> };"@.subrange(0, 13));
            assert("@bottom-right { <declaration-list> };"@[14] == '{');
        },
        CssAtRule::BottomRightCorner => {
            reveal_strlit("@bottom-right-corner { <declaration-list> };");
            reveal_strlit("@bottom-right-corner");
            assert("@bottom-right-corner"@ =~= "@bottom-right-corner { <declaration-list> };"@.subrange(0, 20));
            assert("@bottom-right-corner { <declaration-list> };"@[21] == '{');
        },
        CssAtRule::CharacterVariant => {
            reveal_strlit("@character-variant { <declaration-list> }");
            reveal_strlit("@character-variant");
            assert("@character-variant"@ =~= "@character-variant { <declaration-list> }"@.subrange(0, 18));
            assert("@character-variant { <declaration-list> }"@[19] == '{');
        },
        CssAtRule::Charset => {},
        CssAtRule::ColorProfile => {
            reveal_strlit("@color-profile [<dashed-ident> | device-cmyk] { <declaration-list> }");
            reveal_strlit("@color-profile");
            assert("@color-profile"@ =~= "@color-profile [<dashed-ident> | device-cmyk] { <declaration-list> }"@.subrange(0, 14));
            assert("@color-profile [<dashed-ident> | device-cmyk] { <declaration-list> }"@[46] == '{');
        },
        CssAtRule::Container => {
            reveal_strlit("@container <container-condition># { <block-contents> }");
            reveal_strlit("@container");
            assert("@container"@ =~= "@container <container-condition># { <block-contents> }"@.subrange(0, 10));
            assert("@container <container-condition># { <block-contents> }"@[34] == '{');
        },
        CssAtRule::Contents => {
            reveal_strlit("@contents [ { <declaration-list> } ]?");
            reveal_strlit("@contents");
            assert("@contents"@ =~= "@contents [ { <declaration-list> } ]?"@.subrange(0, 9));
            assert("@contents [ { <declaration-list> } ]?"@[12] == '{');
        },
        CssAtRule::CounterStyle => {
            reveal_strlit("@counter-style <counter-style-name> { <declaration-list> }");
            reveal_strlit("@counter-style");
            assert("@counter-style"@ =~= "@counter-style <counter-style-name> { <declaration-list> }"@.subrange(0, 14));
            assert("@counter-style <counter-style-name> { <declaration-list> }"@[36] == '{');
        },
        CssAtRule::CustomMedia => {
            reveal_strlit("@custom-media <extension-name> [ <media-query-list> | true | false ] ;");
            reveal_strlit("@custom-media");
            assert("@custom-media"@ =~= "@custom-media <extension-name> [ <media-query-list> | true | false ] ;"@.subrange(0, 13));
        },
        CssAtRule::CustomSelector => {
            reveal_strlit("@custom-selector <custom-selector> <selector-list> ;");
            reveal_strlit("@custom-selector");
            assert("@custom-selector"@ =~= "@custom-selector <custom-selector> <selector-list> ;"@.subrange(0, 16));
        },
        CssAtRule::Else => {
            reveal_strlit("@else <boolean-condition>? { <rule-list> }");
            reveal_strlit("@else");
            assert("@else"@ =~= "@else <boolean-condition>? { <rule-list> }"@.subrange(0, 5));
            assert("@else <boolean-condition>? { <rule-list> }"@[27] == '{');
        },
        CssAtRule::FontFace => {
            reveal_strlit("@font-face { <declaration-list> }");
            reveal_strlit("@font-face");
            assert("@font-face"@ =~= "@font-face { <declaration-list> }"@.subrange(0, 10));
            assert("@font-face { <declaration-list> }"@[11] == '{');
        },
        CssAtRule::FontFeatureValues => {
            reveal_strlit("@font-feature-values <font-family-name># { <declaration-rule-list> }");
            reveal_strlit("@font-feature-values");
            assert("@font-feature-values"@ =~= "@font-feature-values <font-family-name># { <declaration-rule-list> }"@.subrange(0, 20));
            assert("@font-feature-values <font-family-name># { <declaration-rule-list> }"@[41] == '{');
        },
        CssAtRule::FontPaletteValues => {
            reveal_strlit("@font-palette-values <dashed-ident> { <declaration-list> }");
            reveal_strlit("@font-palette-values");
            assert("@font-palette-values"@ =~= "@font-palette-values <dashed-ident> { <declaration-list> }"@.subrange(0, 20));
            assert("@font-palette-values <dashed-ident> { <declaration-list> }"@[36] == '{');
        },
        CssAtRule::Function => {
            reveal_strlit("@function <function-token> <function-parameter>#? ) [ returns <css-type> ]? { <declaration-rule-list> }");
            reveal_strlit("@function");
            assert("@function"@ =~= "@function <function-token> <function-parameter>#? ) [ returns <css-type> ]? { <declaration-rule-list> }"@.subrange(0, 9));
            assert("@function <function-token> <function-parameter>#? ) [ returns <css-type> ]? { <declaration-rule-list> }"@[76] == '{');
        },
        CssAtRule::HistoricalForms => {
            reveal_strlit("@historical-forms { <declaration-list> }");
            reveal_strlit("@historical-forms");
            assert("@historical-forms"@ =~= "@historical-forms { <declaration-list> }"@.subrange(0, 17));
            assert("@historical-forms { <declaration-list> }"@[18] == '{');
        },
        CssAtRule::Import => {
            reveal_strlit("@import [ <url> | <string> ] [[ layer | layer( <layer-name> ) ] || [ scope | scope( <scope-start> | <scope-boundaries> ) ] || <supports-import-condition>]? <media-import-condition> ;");
            reveal_strlit("@import");
            assert("@import"@ =~= "@import [ <url> | <string> ] [[ layer | layer( <layer-name> ) ] || [ scope | scope( <scope-start> | <scope-boundaries> ) ] || <supports-import-condition>]? <media-import-condition> ;"@.subrange(0, 7));
        },
        CssAtRule::Keyframes => {
            reveal_strlit("@keyframes <keyframes-name> { <qualified-rule-list> }");
            reveal_strlit("@keyframes");
            assert("@keyframes"@ =~= "@keyframes <keyframes-name> { <qualified-rule-list> }"@.subrange(0, 10));
            assert("@keyframes <keyframes-name> { <qualified-rule-list> }"@[28] == '{');
        },
        CssAtRule::Layer => {
            reveal_strlit("@layer <layer-name>? { <rule-list> } | @layer <layer-name>#;");
            reveal_strlit("@layer");
            assert("@layer"@ =~= "@layer <layer-name>? { <rule-list> } | @layer <layer-name>#;"@.subrange(0, 6));
            assert("@layer <layer-name>? { <rule-list> } | @layer <layer-name>#;"@[21] == '{');
        },
        CssAtRule::LeftBottom => {
            reveal_strlit("@left-bottom { <declaration-list> };");
            reveal_strlit("@left-bottom");
            assert("@left-bottom"@ =~= "@left-bottom { <declaration-list> };"@.subrange(0, 12));
            assert("@left-bottom { <declaration-list> };"@[13] == '{');
        },
        CssAtRule::LeftMiddle => {
            reveal_strlit("@left-middle { <declaration-list> };");
            reveal_strlit("@left-middle");
            assert("@left-middle"@ =~= "@left-middle { <declaration-list> };"@.subrange(0, 12));
            assert("@left-middle { <declaration-list> };"@[13] == '{');
        },
        CssAtRule::LeftTop => {
            reveal_strlit("@left-top { <declaration-list> };");
            reveal_strlit("@left-top");
            assert("@left-top"@ =~= "@left-top { <declaration-list> };"@.subrange(0, 9));
            assert("@left-top { <declaration-list> };"@[10] == '{');
        },
        CssAtRule::Macro => {
            reveal_strlit("@macro <dashed-ident> { <declaration-rule-list> }");
            reveal_strlit("@macro");
            assert("@macro"@ =~= "@macro <dashed-ident> { <declaration-rule-list> }"@.subrange(0, 6));
            assert("@macro <dashed-ident> { <declaration-rule-list> }"@[22] == '{');
        },
        CssAtRule::Media => {
            reveal_strlit("@media <media-query-list> { <rule-list> }");
            reveal_strlit("@media");
            assert("@media"@ =~= "@media <media-query-list> { <rule-list> }"@.subrange(0, 6));
            assert("@media <media-query-list> { <rule-list> }"@[26] == '{');
        },
        CssAtRule::Mixin => {
            reveal_strlit("@mixin <function-token> <function-parameter>#? ) { <declaration-rule-list> }");
            reveal_strlit("@mixin");
            assert("@mixin"@ =~= "@mixin <function-token> <function-parameter>#? ) { <declaration-rule-list> }"@.subrange(0, 6));
            assert("@mixin <function-token> <function-parameter>#? ) { <declaration-rule-list> }"@[49] == '{');
        },
        CssAtRule::Namespace => {
            reveal_strlit("@namespace <namespace-prefix>? [ <string> | <url> ] ;");
            reveal_strlit("@namespace");
            assert("@namespace"@ =~= "@namespace <namespace-prefix>? [ <string> | <url> ] ;"@.subrange(0, 10));
        },
        CssAtRule::Navigation => {
            reveal_strlit("@navigation <navigation-condition> { <rule-list> }");
            reveal_strlit("@navigation");
            assert("@navigation"@ =~= "@navigation <navigation-condition> { <rule-list> }"@.subrange(0, 11));
            assert("@navigation <navigation-condition> { <rule-list> }"@[35] == '{');
        },
        CssAtRule::Ornaments => {
            reveal_strlit("@ornaments { <declaration-list> }");
            reveal_strlit("@ornaments");
            assert("@ornaments"@ =~= "@ornaments { <declaration-list> }"@.subrange(0, 10));
            assert("@ornaments { <declaration-list> }"@[11] == '{');
        },
        CssAtRule::Page => {
            reveal_strlit("@page <page-selector-list>? { <declaration-rule-list> }");
            reveal_strlit("@page");
            assert("@page"@ =~= "@page <page-selector-list>? { <declaration-rule-list> }"@.subrange(0, 5));
            assert("@page <page-selector-list>? { <declaration-rule-list> }"@[28] == '{');
        },
        CssAtRule::PositionTry => {
            reveal_strlit("@position-try <dashed-ident> { <declaration-list> }");
            reveal_strlit("@position-try");
            assert("@position-try"@ =~= "@position-try <dashed-ident> { <declaration-list> }"@.subrange(0, 13));
            assert("@position-try <dashed-ident> { <declaration-list> }"@[29] == '{');
        },
        CssAtRule::Property => {
            reveal_strlit("@property <custom-property-name> { <declaration-list> }");
            reveal_strlit("@property");
            assert("@property"@ =~= "@property <custom-property-name> { <declaration-list> }"@.subrange(0, 9));
            assert("@property <custom-property-name> { <declaration-list> }"@[33] == '{');
        },
        CssAtRule::Result => {
            reveal_strlit("@result { <declaration-rule-list> }");
            reveal_strlit("@result");
            assert("@result"@ =~= "@result { <declaration-rule-list> }"@.subrange(0, 7));
            assert("@result { <declaration-rule-list> }"@[8] == '{');
        },
        CssAtRule::RightBottom => {
            reveal_strlit("@right-bottom { <declaration-list> };");
            reveal_strlit("@right-bottom");
            assert("@right-bottom"@ =~= "@right-bottom { <declaration-list> };"@.subrange(0, 13));
            assert("@right-bottom { <declaration-list> };"@[14] == '{');
        },
        CssAtRule::RightMiddle => {
            reveal_strlit("@right-middle { <declaration-list> };");
            reveal_strlit("@right-middle");
            assert("@right-middle"@ =~= "@right-middle { <declaration-list> };"@.subrange(0, 13));
            assert("@right-middle { <declaration-list> };"@[14] == '{');
        },
        CssAtRule::RightTop => {
            reveal_strlit("@right-top { <declaration-list> };");
            reveal_strlit("@right-top");
            assert("@right-top"@ =~= "@right-top { <declaration-list> };"@.subrange(0, 10));
            assert("@right-top { <declaration-list> };"@[11] == '{');
        },
        CssAtRule::Route => {
            reveal_strlit("@route <dashed-ident> { [ <pattern-descriptors> | <init-descriptors> ] }");
            reveal_strlit("@route");
            assert("@route"@ =~= "@route <dashed-ident> { [ <pattern-descriptors> | <init-descriptors> ] }"@.subrange(0, 6));
            assert("@route <dashed-ident> { [ <pattern-descriptors> | <init-descriptors> ] }"@[22] == '{');
        },
        CssAtRule::Scope => {
            reveal_strlit("@scope <scope-boundaries>? { <block-contents> }");
            reveal_strlit("@scope");
            assert("@scope"@ =~= "@scope <scope-boundaries>? { <block-contents> }"@.subrange(0, 6));
            assert("@scope <scope-boundaries>? { <block-contents> }"@[27] == '{');
        },
        CssAtRule::StartingStyle => {},
        CssAtRule::Styleset => {
            reveal_strlit("@styleset { <declaration-list> }");
            reveal_strlit("@styleset");
            assert("@styleset"@ =~= "@styleset { <declaration-list> }"@.subrange(0, 9));
            assert("@styleset { <declaration-list> }"@[10] == '{');
        },
        CssAtRule::Stylistic => {
            reveal_strlit("@stylistic { <declaration-list> }");
            reveal_strlit("@stylistic");
            assert("@stylistic"@ =~= "@stylistic { <declaration-list> }"@.subrange(0, 10));
            assert("@stylistic { <declaration-list> }"@[11] == '{');
        },
        CssAtRule::Supports => {
            reveal_strlit("@supports <supports-condition> { <rule-list> }");
            reveal_strlit("@supports");
            assert("@supports"@ =~= "@supports <supports-condition> { <rule-list> }"@.subrange(0, 9));
            assert("@supports <supports-condition> { <rule-list> }"@[31] == '{');
        },
        CssAtRule::SupportsCondition => {
            reveal_strlit("@supports-condition <supports-condition-name> { <block-contents> }");
            reveal_strlit("@supports-condition");
            assert("@supports-condition"@ =~= "@supports-condition <supports-condition-name> { <block-contents> }"@.subrange(0, 19));
            assert("@supports-condition <supports-condition-name> { <block-contents> }"@[46] == '{');
        },
        CssAtRule::Swash => {
            reveal_strlit("@swash { <declaration-list> }");
            reveal_strlit("@swash");
            assert("@swash"@ =~= "@swash { <declaration-list> }"@.subrange(0, 6));
            assert("@swash { <declaration-list> }"@[7] == '{');
        },
        CssAtRule::TopCenter => {
            reveal_strlit("@top-center { <declaration-list> };");
            reveal_strlit("@top-center");
            assert("@top-center"@ =~= "@top-center { <declaration-list> };"@.subrange(0, 11));
            assert("@top-center { <declaration-list> };"@[12] == '{');
        },
        CssAtRule::TopLeft => {
            reveal_strlit("@top-left { <declaration-list> };");
            reveal_strlit("@top-left");
            assert("@top-left"@ =~= "@top-left { <declaration-list> };"@.subrange(0, 9));
            assert("@top-left { <declaration-list> };"@[10] == '{');
        },
        CssAtRule::TopLeftCorner => {
            reveal_strlit("@top-left-corner { <declaration-list> };");
            reveal_strlit("@top-left-corner");
            assert("@top-left-corner"@ =~= "@top-left-corner { <declaration-list> };"@.subrange(0, 16));
            assert("@top-left-corner { <declaration-list> };"@[17] == '{');
        },
        CssAtRule::TopRight => {
            reveal_strlit("@top-right { <declaration-list> };");
            reveal_strlit("@top-right");
            assert("@top-right"@ =~= "@top-right { <declaration-list> };"@.subrange(0, 10));
            assert("@top-right { <declaration-list> };"@[11] == '{');
        },
        CssAtRule::TopRightCorner => {
            reveal_strlit("@top-right-corner { <declaration-list> };");
            reveal_strlit("@top-right-corner");
            assert("@top-right-corner"@ =~= "@top-right-corner { <declaration-list> };"@.subrange(0, 17));
            assert("@top-right-corner { <declaration-list> };"@[18] == '{');
        },
        CssAtRule::ViewTransition => {
            reveal_strlit("@view-transition { <declaration-list> }");
            reveal_strlit("@view-transition");
            assert("@view-transition"@ =~= "@view-transition { <declaration-list> }"@.subrange(0, 16));
            assert("@view-transition { <declaration-list> }"@[17] == '{');
        },
        CssAtRule::When => {
            reveal_strlit("@when <boolean-condition> { <rule-list> }");
            reveal_strlit("@when");
            assert("@when"@ =~= "@when <boolean-condition> { <rule-list> }"@.subrange(0, 5));
            assert("@when <boolean-condition> { <rule-list> }"@[26] == '{');
        },
        CssAtRule::Unknown(_) => {},
    }
}

} // verus!
