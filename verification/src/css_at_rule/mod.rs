//! CSS at-rules (`@media`, `@font-face`, ...) and their names.
use vstd::prelude::*;

use crate::text::{chars_of, compare_char_seqs, lemma_name_less_asymmetric, lemma_name_less_transitive, name_less, NameOrder};
use self::lookup_order::{lemma_lookup_sorted, lookup_name, lookup_name_at, LOOKUP_LEN};

pub mod documented;
pub mod lookup_order;

verus! {

#[derive(Debug, PartialEq, Eq, Hash)]
pub enum CssAtRule {
    ///
    /// href: https://compat.spec.whatwg.org/#at-ruledef--webkit-keyframes
    WebkitKeyframes,
    ///
    /// href: https://drafts.csswg.org/css-fonts-4/#at-ruledef-font-feature-values-annotation
    /// syntax: @annotation { <declaration-list> }
    Annotation,
    ///
    /// href: https://drafts.csswg.org/css-mixins-1/#at-ruledef-apply
    /// syntax: @apply [ <dashed-ident> | <dashed-function> ] [ { <declaration-list> } ]?;
    Apply,
    ///
    /// href: https://drafts.csswg.org/css-page-3/#at-ruledef-bottom-center
    /// syntax: @bottom-center { <declaration-list> };
    BottomCenter,
    ///
    /// href: https://drafts.csswg.org/css-page-3/#at-ruledef-bottom-left
    /// syntax: @bottom-left { <declaration-list> };
    BottomLeft,
    ///
    /// href: https://drafts.csswg.org/css-page-3/#at-ruledef-bottom-left-corner
    /// syntax: @bottom-left-corner { <declaration-list> };
    BottomLeftCorner,
    ///
    /// href: https://drafts.csswg.org/css-page-3/#at-ruledef-bottom-right
    /// syntax: @bottom-right { <declaration-list> };
    BottomRight,
    ///
    /// href: https://drafts.csswg.org/css-page-3/#at-ruledef-bottom-right-corner
    /// syntax: @bottom-right-corner { <declaration-list> };
    BottomRightCorner,
    ///
    /// href: https://drafts.csswg.org/css-fonts-4/#at-ruledef-font-feature-values-character-variant
    /// syntax: @character-variant { <declaration-list> }
    CharacterVariant,
    ///
    /// href: https://drafts.csswg.org/css-syntax-3/#at-ruledef-charset
    /// prose: However, there is no actual at-rule named @charset. When a stylesheet is actually parsed, any occurrences
    /// of an @charset rule must be treated as an unrecognized rule, and thus dropped as invalid when the stylesheet is
    /// grammar-checked.
    Charset,
    ///
    /// href: https://drafts.csswg.org/css-color-5/#at-ruledef-profile
    /// syntax: @color-profile [<dashed-ident> | device-cmyk] { <declaration-list> }
    /// prose: The @color-profile rule defines and names a color profile which can later be used in the color() function
    /// to specify a color.
    ColorProfile,
    ///
    /// href: https://drafts.csswg.org/css-conditional-5/#at-ruledef-container
    /// syntax: @container <container-condition># { <block-contents> }
    /// prose: The @container rule is a conditional group rule whose condition contains a container query, which is a
    /// boolean combination of container size queries and/or container style queries. Style declarations within the
    /// <block-contents> block of an @container rule are filtered by its condition to only match when the container query
    /// is true for their element’s query container.
    Container,
    ///
    /// href: https://drafts.csswg.org/css-mixins-1/#at-ruledef-contents
    /// syntax: @contents [ { <declaration-list> } ]?
    Contents,
    ///
    /// href: https://drafts.csswg.org/css-counter-styles-3/#at-ruledef-counter-style
    /// syntax: @counter-style <counter-style-name> { <declaration-list> }
    /// prose: The @counter-style rule allows authors to define a custom counter style. The components of a counter style
    /// are specified by descriptors in the @counter-style rule. The algorithm is specified implicitly by a combination of
    /// the system, symbols, and additive-symbols properties.
    CounterStyle,
    ///
    /// href: https://drafts.csswg.org/mediaqueries-5/#at-ruledef-custom-media
    /// syntax: @custom-media <extension-name> [ <media-query-list> | true | false ] ;
    CustomMedia,
    ///
    /// href: https://drafts.csswg.org/css-extensions-1/#at-ruledef-custom-selector
    /// syntax: @custom-selector <custom-selector> <selector-list> ;
    CustomSelector,
    ///
    /// href: https://drafts.csswg.org/css-conditional-5/#at-ruledef-else
    /// syntax: @else <boolean-condition>? { <rule-list> }
    /// prose: The @else rule is a conditional group rule used to form conditional rule chains, which associate multiple
    /// conditional group rules and guarantee that only the first one that matches will evaluate its condition as true. It
    /// is defined as:
    Else,
    ///
    /// href: https://drafts.csswg.org/css-fonts-4/#at-font-face-rule
    /// syntax: @font-face { <declaration-list> }
    FontFace,
    ///
    /// href: https://drafts.csswg.org/css-fonts-4/#at-ruledef-font-feature-values
    /// syntax: @font-feature-values <font-family-name># { <declaration-rule-list> }
    FontFeatureValues,
    ///
    /// href: https://drafts.csswg.org/css-fonts-4/#at-ruledef-font-palette-values
    /// syntax: @font-palette-values <dashed-ident> { <declaration-list> }
    /// prose: The @font-palette-values rule defines a color palette and associates that color palette with a specific
    /// font. This allows a web author to select arbitrary <color>s to use inside a color font rather than being limited
    /// to the preexisting palettes inside font files.
    FontPaletteValues,
    ///
    /// href: https://drafts.csswg.org/css-mixins-1/#at-ruledef-function
    /// syntax: @function <function-token> <function-parameter>#? ) [ returns <css-type> ]? { <declaration-rule-list> }
    Function,
    ///
    /// href: https://drafts.csswg.org/css-fonts-4/#at-ruledef-font-feature-values-historical-forms
    /// syntax: @historical-forms { <declaration-list> }
    HistoricalForms,
    ///
    /// href: https://drafts.csswg.org/css-cascade-6/#at-ruledef-import
    /// syntax: @import [ <url> | <string> ] [[ layer | layer( <layer-name> ) ] || [ scope | scope( <scope-start> |
    /// <scope-boundaries> ) ] || <supports-import-condition>]? <media-import-condition> ; prose: The @import rule
    /// allows users to import style rules from other style sheets. If an @import rule refers to a valid stylesheet, user
    /// agents must treat the contents of the stylesheet as if they were written in place of the @import rule, with two
    /// exceptions:
    Import,
    ///
    /// href: https://drafts.csswg.org/css-animations-1/#at-ruledef-keyframes
    /// syntax: @keyframes <keyframes-name> { <qualified-rule-list> }
    /// prose: Keyframes are specified using the @keyframes at-rule, defined as follows:
    Keyframes,
    ///
    /// href: https://drafts.csswg.org/css-cascade-5/#at-ruledef-layer
    /// syntax: @layer <layer-name>? { <rule-list> } | @layer <layer-name>#;
    /// prose: The @layer rule declares a cascade layer, with the option to assign style rules.
    Layer,
    ///
    /// href: https://drafts.csswg.org/css-page-3/#at-ruledef-left-bottom
    /// syntax: @left-bottom { <declaration-list> };
    LeftBottom,
    ///
    /// href: https://drafts.csswg.org/css-page-3/#at-ruledef-left-middle
    /// syntax: @left-middle { <declaration-list> };
    LeftMiddle,
    ///
    /// href: https://drafts.csswg.org/css-page-3/#at-ruledef-left-top
    /// syntax: @left-top { <declaration-list> };
    LeftTop,
    ///
    /// href: https://drafts.csswg.org/css-mixins-1/#macro-rule
    /// syntax: @macro <dashed-ident> { <declaration-rule-list> }
    Macro,
    ///
    /// href: https://drafts.csswg.org/css-conditional-3/#at-ruledef-media
    /// syntax: @media <media-query-list> { <rule-list> }
    /// prose: The @media rule is a conditional group rule whose condition is a media query. Its syntax is:
    Media,
    ///
    /// href: https://drafts.csswg.org/css-mixins-1/#at-ruledef-mixin
    /// syntax: @mixin <function-token> <function-parameter>#? ) { <declaration-rule-list> }
    Mixin,
    ///
    /// href: https://drafts.csswg.org/css-namespaces-3/#at-ruledef-namespace
    /// syntax: @namespace <namespace-prefix>? [ <string> | <url> ] ;
    /// prose: The @namespace at-rule declares a namespace prefix and associates it with a given namespace name (a
    /// string). This namespace prefix can then be used in namespace-qualified names such as the CSS qualified names
    /// defined below.
    Namespace,
    ///
    /// href: https://drafts.csswg.org/css-navigation-1/#at-ruledef-navigation
    /// syntax: @navigation <navigation-condition> { <rule-list> }
    /// prose: The @navigation rule is a conditional group rule whose condition tests characteristics of the current URL
    /// or of the state of navigation between two URLs. These queries are called navigation queries.
    Navigation,
    ///
    /// href: https://drafts.csswg.org/css-fonts-4/#at-ruledef-font-feature-values-ornaments
    /// syntax: @ornaments { <declaration-list> }
    Ornaments,
    ///
    /// href: https://drafts.csswg.org/css-page-3/#at-ruledef-page
    /// syntax: @page <page-selector-list>? { <declaration-rule-list> }
    /// prose: Authors can specify various aspects of a page box, such as its dimensions, orientation, and margins, within
    /// an @page rule. @page rules are allowed wherever rule-sets are allowed. An @page rule consists of the keyword
    /// @page, an optional comma-separated list of page selectors and a block of declarations (said to be in the page
    /// context). An @page rule can also contain other at-rules, interleaved between declarations. The current level of
    /// this specification only allows margin at-rules inside @page.
    Page,
    ///
    /// href: https://drafts.csswg.org/css-anchor-position-1/#at-ruledef-position-try
    /// syntax: @position-try <dashed-ident> { <declaration-list> }
    /// prose: The @position-try rule defines a position option with a given name, specifying one or more sets of
    /// positioning properties that can be applied to a box via position-try-fallbacks,
    PositionTry,
    ///
    /// href: https://drafts.css-houdini.org/css-properties-values-api-1/#at-ruledef-property
    /// syntax: @property <custom-property-name> { <declaration-list> }
    Property,
    ///
    /// href: https://drafts.csswg.org/css-mixins-1/#result-rule
    /// syntax: @result { <declaration-rule-list> }
    Result,
    ///
    /// href: https://drafts.csswg.org/css-page-3/#at-ruledef-right-bottom
    /// syntax: @right-bottom { <declaration-list> };
    RightBottom,
    ///
    /// href: https://drafts.csswg.org/css-page-3/#at-ruledef-right-middle
    /// syntax: @right-middle { <declaration-list> };
    RightMiddle,
    ///
    /// href: https://drafts.csswg.org/css-page-3/#at-ruledef-right-top
    /// syntax: @right-top { <declaration-list> };
    RightTop,
    ///
    /// href: https://drafts.csswg.org/css-navigation-1/#at-ruledef-route
    /// syntax: @route <dashed-ident> { [ <pattern-descriptors> | <init-descriptors> ] }
    /// prose: The @route rule is an at-rule that associates a name with a URL pattern. This name can be referenced in
    /// @navigation rules and in :link-to() pseudo-classes.
    Route,
    ///
    /// href: https://drafts.csswg.org/css-cascade-6/#at-ruledef-scope
    /// syntax: @scope <scope-boundaries>? { <block-contents> }
    /// prose: Scoped styles are described in CSS using the @scope block at-rule, which declares a scoping root and
    /// optional scoping limits associated with a set of style rules.
    Scope,
    ///
    /// href: https://drafts.csswg.org/css-transitions-2/#at-ruledef-starting-style
    /// prose: The @starting-style rule is a grouping rule. The style rules inside it are used to establish styles to
    /// transition from, if the previous style change event did not establish a before-change style for the element whose
    /// styles are being computed.
    StartingStyle,
    ///
    /// href: https://drafts.csswg.org/css-fonts-4/#at-ruledef-font-feature-values-styleset
    /// syntax: @styleset { <declaration-list> }
    Styleset,
    ///
    /// href: https://drafts.csswg.org/css-fonts-4/#at-ruledef-font-feature-values-stylistic
    /// syntax: @stylistic { <declaration-list> }
    Stylistic,
    ///
    /// href: https://drafts.csswg.org/css-conditional-3/#at-ruledef-supports
    /// syntax: @supports <supports-condition> { <rule-list> }
    /// prose: The @supports rule is a conditional group rule whose condition tests whether the user agent supports CSS
    /// property:value pairs. Authors can use it to write style sheets that use new features when available but degrade
    /// gracefully when those features are not supported. These queries are called CSS feature queries or (colloquially)
    /// supports queries.
    Supports,
    ///
    /// href: https://drafts.csswg.org/css-conditional-5/#at-ruledef-supports-condition
    /// syntax: @supports-condition <supports-condition-name> { <block-contents> }
    /// prose: The @supports-condition at-rule is a conditional group rule that allows authors to define and name a
    /// supports query for later reuse, creating a named supports condition. This enables complex or frequently-used
    /// feature queries to be referenced by name, improving maintainability and readability.
    SupportsCondition,
    ///
    /// href: https://drafts.csswg.org/css-fonts-4/#at-ruledef-font-feature-values-swash
    /// syntax: @swash { <declaration-list> }
    Swash,
    ///
    /// href: https://drafts.csswg.org/css-page-3/#at-ruledef-top-center
    /// syntax: @top-center { <declaration-list> };
    TopCenter,
    ///
    /// href: https://drafts.csswg.org/css-page-3/#at-ruledef-top-left
    /// syntax: @top-left { <declaration-list> };
    TopLeft,
    ///
    /// href: https://drafts.csswg.org/css-page-3/#at-ruledef-top-left-corner
    /// syntax: @top-left-corner { <declaration-list> };
    TopLeftCorner,
    ///
    /// href: https://drafts.csswg.org/css-page-3/#at-ruledef-top-right
    /// syntax: @top-right { <declaration-list> };
    TopRight,
    ///
    /// href: https://drafts.csswg.org/css-page-3/#at-ruledef-top-right-corner
    /// syntax: @top-right-corner { <declaration-list> };
    TopRightCorner,
    ///
    /// href: https://drafts.csswg.org/css-view-transitions-2/#at-view-transition-rule
    /// syntax: @view-transition { <declaration-list> }
    ViewTransition,
    ///
    /// href: https://drafts.csswg.org/css-conditional-5/#at-ruledef-when
    /// syntax: @when <boolean-condition> { <rule-list> }
    /// prose: The @when at-rule is a conditional group rule that generalizes the individual conditional group rules such
    /// as @media and @supports. It is defined as:
    When,
    Unknown(String),
}

/// The `i`-th entry of the lookup table, in name order.
pub open spec fn lookup_entry(i: usize) -> CssAtRule {
    match i {
        0 => CssAtRule::WebkitKeyframes,
        1 => CssAtRule::Annotation,
        2 => CssAtRule::Apply,
        3 => CssAtRule::BottomCenter,
        4 => CssAtRule::BottomLeft,
        5 => CssAtRule::BottomLeftCorner,
        6 => CssAtRule::BottomRight,
        7 => CssAtRule::BottomRightCorner,
        8 => CssAtRule::CharacterVariant,
        9 => CssAtRule::Charset,
        10 => CssAtRule::ColorProfile,
        11 => CssAtRule::Container,
        12 => CssAtRule::Contents,
        13 => CssAtRule::CounterStyle,
        14 => CssAtRule::CustomMedia,
        15 => CssAtRule::CustomSelector,
        16 => CssAtRule::Else,
        17 => CssAtRule::FontFace,
        18 => CssAtRule::FontFeatureValues,
        19 => CssAtRule::FontPaletteValues,
        20 => CssAtRule::Function,
        21 => CssAtRule::HistoricalForms,
        22 => CssAtRule::Import,
        23 => CssAtRule::Keyframes,
        24 => CssAtRule::Layer,
        25 => CssAtRule::LeftBottom,
        26 => CssAtRule::LeftMiddle,
        27 => CssAtRule::LeftTop,
        28 => CssAtRule::Macro,
        29 => CssAtRule::Media,
        30 => CssAtRule::Mixin,
        31 => CssAtRule::Namespace,
        32 => CssAtRule::Navigation,
        33 => CssAtRule::Ornaments,
        34 => CssAtRule::Page,
        35 => CssAtRule::PositionTry,
        36 => CssAtRule::Property,
        37 => CssAtRule::Result,
        38 => CssAtRule::RightBottom,
        39 => CssAtRule::RightMiddle,
        40 => CssAtRule::RightTop,
        41 => CssAtRule::Route,
        42 => CssAtRule::Scope,
        43 => CssAtRule::StartingStyle,
        44 => CssAtRule::Styleset,
        45 => CssAtRule::Stylistic,
        46 => CssAtRule::Supports,
        47 => CssAtRule::SupportsCondition,
        48 => CssAtRule::Swash,
        49 => CssAtRule::TopCenter,
        50 => CssAtRule::TopLeft,
        51 => CssAtRule::TopLeftCorner,
        52 => CssAtRule::TopRight,
        53 => CssAtRule::TopRightCorner,
        54 => CssAtRule::ViewTransition,
        55 => CssAtRule::When,
        _ => CssAtRule::When,
    }
}

impl CssAtRule {
    /// /// The at-rule's name, `@` included; empty for an unknown at-rule.
    pub open spec fn spec_name(&self) -> Seq<char> {
        match self {
            CssAtRule::WebkitKeyframes => "@-webkit-keyframes"@,
            CssAtRule::Annotation => "@annotation"@,
            CssAtRule::Apply => "@apply"@,
            CssAtRule::BottomCenter => "@bottom-center"@,
            CssAtRule::BottomLeft => "@bottom-left"@,
            CssAtRule::BottomLeftCorner => "@bottom-left-corner"@,
            CssAtRule::BottomRight => "@bottom-right"@,
            CssAtRule::BottomRightCorner => "@bottom-right-corner"@,
            CssAtRule::CharacterVariant => "@character-variant"@,
            CssAtRule::Charset => "@charset"@,
            CssAtRule::ColorProfile => "@color-profile"@,
            CssAtRule::Container => "@container"@,
            CssAtRule::Contents => "@contents"@,
            CssAtRule::CounterStyle => "@counter-style"@,
            CssAtRule::CustomMedia => "@custom-media"@,
            CssAtRule::CustomSelector => "@custom-selector"@,
            CssAtRule::Else => "@else"@,
            CssAtRule::FontFace => "@font-face"@,
            CssAtRule::FontFeatureValues => "@font-feature-values"@,
            CssAtRule::FontPaletteValues => "@font-palette-values"@,
            CssAtRule::Function => "@function"@,
            CssAtRule::HistoricalForms => "@historical-forms"@,
            CssAtRule::Import => "@import"@,
            CssAtRule::Keyframes => "@keyframes"@,
            CssAtRule::Layer => "@layer"@,
            CssAtRule::LeftBottom => "@left-bottom"@,
            CssAtRule::LeftMiddle => "@left-middle"@,
            CssAtRule::LeftTop => "@left-top"@,
            CssAtRule::Macro => "@macro"@,
            CssAtRule::Media => "@media"@,
            CssAtRule::Mixin => "@mixin"@,
            CssAtRule::Namespace => "@namespace"@,
            CssAtRule::Navigation => "@navigation"@,
            CssAtRule::Ornaments => "@ornaments"@,
            CssAtRule::Page => "@page"@,
            CssAtRule::PositionTry => "@position-try"@,
            CssAtRule::Property => "@property"@,
            CssAtRule::Result => "@result"@,
            CssAtRule::RightBottom => "@right-bottom"@,
            CssAtRule::RightMiddle => "@right-middle"@,
            CssAtRule::RightTop => "@right-top"@,
            CssAtRule::Route => "@route"@,
            CssAtRule::Scope => "@scope"@,
            CssAtRule::StartingStyle => "@starting-style"@,
            CssAtRule::Styleset => "@styleset"@,
            CssAtRule::Stylistic => "@stylistic"@,
            CssAtRule::Supports => "@supports"@,
            CssAtRule::SupportsCondition => "@supports-condition"@,
            CssAtRule::Swash => "@swash"@,
            CssAtRule::TopCenter => "@top-center"@,
            CssAtRule::TopLeft => "@top-left"@,
            CssAtRule::TopLeftCorner => "@top-left-corner"@,
            CssAtRule::TopRight => "@top-right"@,
            CssAtRule::TopRightCorner => "@top-right-corner"@,
            CssAtRule::ViewTransition => "@view-transition"@,
            CssAtRule::When => "@when"@,
            CssAtRule::Unknown(_) => Seq::empty(),
        }
    }

    /// Whether `from_name` recognises this value by its name.
    pub open spec fn is_listed(&self) -> bool {
        !(self is Unknown)
    }

    /// Where this value stands in the lookup table.
    pub open spec fn lookup_position(&self) -> usize {
        match self {
            CssAtRule::WebkitKeyframes => 0,
            CssAtRule::Annotation => 1,
            CssAtRule::Apply => 2,
            CssAtRule::BottomCenter => 3,
            CssAtRule::BottomLeft => 4,
            CssAtRule::BottomLeftCorner => 5,
            CssAtRule::BottomRight => 6,
            CssAtRule::BottomRightCorner => 7,
            CssAtRule::CharacterVariant => 8,
            CssAtRule::Charset => 9,
            CssAtRule::ColorProfile => 10,
            CssAtRule::Container => 11,
            CssAtRule::Contents => 12,
            CssAtRule::CounterStyle => 13,
            CssAtRule::CustomMedia => 14,
            CssAtRule::CustomSelector => 15,
            CssAtRule::Else => 16,
            CssAtRule::FontFace => 17,
            CssAtRule::FontFeatureValues => 18,
            CssAtRule::FontPaletteValues => 19,
            CssAtRule::Function => 20,
            CssAtRule::HistoricalForms => 21,
            CssAtRule::Import => 22,
            CssAtRule::Keyframes => 23,
            CssAtRule::Layer => 24,
            CssAtRule::LeftBottom => 25,
            CssAtRule::LeftMiddle => 26,
            CssAtRule::LeftTop => 27,
            CssAtRule::Macro => 28,
            CssAtRule::Media => 29,
            CssAtRule::Mixin => 30,
            CssAtRule::Namespace => 31,
            CssAtRule::Navigation => 32,
            CssAtRule::Ornaments => 33,
            CssAtRule::Page => 34,
            CssAtRule::PositionTry => 35,
            CssAtRule::Property => 36,
            CssAtRule::Result => 37,
            CssAtRule::RightBottom => 38,
            CssAtRule::RightMiddle => 39,
            CssAtRule::RightTop => 40,
            CssAtRule::Route => 41,
            CssAtRule::Scope => 42,
            CssAtRule::StartingStyle => 43,
            CssAtRule::Styleset => 44,
            CssAtRule::Stylistic => 45,
            CssAtRule::Supports => 46,
            CssAtRule::SupportsCondition => 47,
            CssAtRule::Swash => 48,
            CssAtRule::TopCenter => 49,
            CssAtRule::TopLeft => 50,
            CssAtRule::TopLeftCorner => 51,
            CssAtRule::TopRight => 52,
            CssAtRule::TopRightCorner => 53,
            CssAtRule::ViewTransition => 54,
            CssAtRule::When => 55,
            CssAtRule::Unknown(_) => 0,
        }
    }

    /// The listed value named `s`, if there is one.
    pub open spec fn spec_lookup(s: Seq<char>) -> Option<CssAtRule> {
        if exists|p: CssAtRule| p.is_listed() && #[trigger] p.spec_name() == s {
            Some(choose|p: CssAtRule| p.is_listed() && #[trigger] p.spec_name() == s)
        } else {
            None
        }
    }

    /// Whether the at-rule takes a block.
    pub open spec fn spec_is_block(&self) -> bool {
        match self {
            CssAtRule::WebkitKeyframes => true,
            CssAtRule::Annotation => true,
            CssAtRule::Apply => false,
            CssAtRule::BottomCenter => true,
            CssAtRule::BottomLeft => true,
            CssAtRule::BottomLeftCorner => true,
            CssAtRule::BottomRight => true,
            CssAtRule::BottomRightCorner => true,
            CssAtRule::CharacterVariant => true,
            CssAtRule::Charset => false,
            CssAtRule::ColorProfile => true,
            CssAtRule::Container => true,
            CssAtRule::Contents => true,
            CssAtRule::CounterStyle => true,
            CssAtRule::CustomMedia => false,
            CssAtRule::CustomSelector => false,
            CssAtRule::Else => true,
            CssAtRule::FontFace => true,
            CssAtRule::FontFeatureValues => true,
            CssAtRule::FontPaletteValues => true,
            CssAtRule::Function => true,
            CssAtRule::HistoricalForms => true,
            CssAtRule::Import => false,
            CssAtRule::Keyframes => true,
            CssAtRule::Layer => false,
            CssAtRule::LeftBottom => true,
            CssAtRule::LeftMiddle => true,
            CssAtRule::LeftTop => true,
            CssAtRule::Macro => true,
            CssAtRule::Media => true,
            CssAtRule::Mixin => true,
            CssAtRule::Namespace => false,
            CssAtRule::Navigation => true,
            CssAtRule::Ornaments => true,
            CssAtRule::Page => true,
            CssAtRule::PositionTry => true,
            CssAtRule::Property => true,
            CssAtRule::Result => true,
            CssAtRule::RightBottom => true,
            CssAtRule::RightMiddle => true,
            CssAtRule::RightTop => true,
            CssAtRule::Route => true,
            CssAtRule::Scope => true,
            CssAtRule::StartingStyle => true,
            CssAtRule::Styleset => true,
            CssAtRule::Stylistic => true,
            CssAtRule::Supports => true,
            CssAtRule::SupportsCondition => true,
            CssAtRule::Swash => true,
            CssAtRule::TopCenter => true,
            CssAtRule::TopLeft => true,
            CssAtRule::TopLeftCorner => true,
            CssAtRule::TopRight => true,
            CssAtRule::TopRightCorner => true,
            CssAtRule::ViewTransition => true,
            CssAtRule::When => true,
            CssAtRule::Unknown(_) => false,
        }
    }

    /// Whether the at-rule takes a block or is a statement.
    pub fn kind(&self) -> (r: AtRuleKind)
        ensures
            r == self.spec_kind(),
    {
        match self {
            CssAtRule::WebkitKeyframes => AtRuleKind::Block,
            CssAtRule::Annotation => AtRuleKind::Block,
            CssAtRule::Apply => AtRuleKind::Statement,
            CssAtRule::BottomCenter => AtRuleKind::Block,
            CssAtRule::BottomLeft => AtRuleKind::Block,
            CssAtRule::BottomLeftCorner => AtRuleKind::Block,
            CssAtRule::BottomRight => AtRuleKind::Block,
            CssAtRule::BottomRightCorner => AtRuleKind::Block,
            CssAtRule::CharacterVariant => AtRuleKind::Block,
            CssAtRule::Charset => AtRuleKind::Statement,
            CssAtRule::ColorProfile => AtRuleKind::Block,
            CssAtRule::Container => AtRuleKind::Block,
            CssAtRule::Contents => AtRuleKind::Block,
            CssAtRule::CounterStyle => AtRuleKind::Block,
            CssAtRule::CustomMedia => AtRuleKind::Statement,
            CssAtRule::CustomSelector => AtRuleKind::Statement,
            CssAtRule::Else => AtRuleKind::Block,
            CssAtRule::FontFace => AtRuleKind::Block,
            CssAtRule::FontFeatureValues => AtRuleKind::Block,
            CssAtRule::FontPaletteValues => AtRuleKind::Block,
            CssAtRule::Function => AtRuleKind::Block,
            CssAtRule::HistoricalForms => AtRuleKind::Block,
            CssAtRule::Import => AtRuleKind::Statement,
            CssAtRule::Keyframes => AtRuleKind::Block,
            CssAtRule::Layer => AtRuleKind::Statement,
            CssAtRule::LeftBottom => AtRuleKind::Block,
            CssAtRule::LeftMiddle => AtRuleKind::Block,
            CssAtRule::LeftTop => AtRuleKind::Block,
            CssAtRule::Macro => AtRuleKind::Block,
            CssAtRule::Media => AtRuleKind::Block,
            CssAtRule::Mixin => AtRuleKind::Block,
            CssAtRule::Namespace => AtRuleKind::Statement,
            CssAtRule::Navigation => AtRuleKind::Block,
            CssAtRule::Ornaments => AtRuleKind::Block,
            CssAtRule::Page => AtRuleKind::Block,
            CssAtRule::PositionTry => AtRuleKind::Block,
            CssAtRule::Property => AtRuleKind::Block,
            CssAtRule::Result => AtRuleKind::Block,
            CssAtRule::RightBottom => AtRuleKind::Block,
            CssAtRule::RightMiddle => AtRuleKind::Block,
            CssAtRule::RightTop => AtRuleKind::Block,
            CssAtRule::Route => AtRuleKind::Block,
            CssAtRule::Scope => AtRuleKind::Block,
            CssAtRule::StartingStyle => AtRuleKind::Block,
            CssAtRule::Styleset => AtRuleKind::Block,
            CssAtRule::Stylistic => AtRuleKind::Block,
            CssAtRule::Supports => AtRuleKind::Block,
            CssAtRule::SupportsCondition => AtRuleKind::Block,
            CssAtRule::Swash => AtRuleKind::Block,
            CssAtRule::TopCenter => AtRuleKind::Block,
            CssAtRule::TopLeft => AtRuleKind::Block,
            CssAtRule::TopLeftCorner => AtRuleKind::Block,
            CssAtRule::TopRight => AtRuleKind::Block,
            CssAtRule::TopRightCorner => AtRuleKind::Block,
            CssAtRule::ViewTransition => AtRuleKind::Block,
            CssAtRule::When => AtRuleKind::Block,
            CssAtRule::Unknown(_) => AtRuleKind::Statement,
        }
    }

    /// The kind of the at-rule: a block when it takes one, a statement otherwise.
    pub open spec fn spec_kind(&self) -> AtRuleKind {
        if self.spec_is_block() {
            AtRuleKind::Block
        } else {
            AtRuleKind::Statement
        }
    }

    /// The name of this value; empty for an unknown one.
    pub fn name(&self) -> (r: &'static str)
        ensures
            r@ == self.spec_name(),
    {
        match self {
            CssAtRule::WebkitKeyframes => "@-webkit-keyframes",
            CssAtRule::Annotation => "@annotation",
            CssAtRule::Apply => "@apply",
            CssAtRule::BottomCenter => "@bottom-center",
            CssAtRule::BottomLeft => "@bottom-left",
            CssAtRule::BottomLeftCorner => "@bottom-left-corner",
            CssAtRule::BottomRight => "@bottom-right",
            CssAtRule::BottomRightCorner => "@bottom-right-corner",
            CssAtRule::CharacterVariant => "@character-variant",
            CssAtRule::Charset => "@charset",
            CssAtRule::ColorProfile => "@color-profile",
            CssAtRule::Container => "@container",
            CssAtRule::Contents => "@contents",
            CssAtRule::CounterStyle => "@counter-style",
            CssAtRule::CustomMedia => "@custom-media",
            CssAtRule::CustomSelector => "@custom-selector",
            CssAtRule::Else => "@else",
            CssAtRule::FontFace => "@font-face",
            CssAtRule::FontFeatureValues => "@font-feature-values",
            CssAtRule::FontPaletteValues => "@font-palette-values",
            CssAtRule::Function => "@function",
            CssAtRule::HistoricalForms => "@historical-forms",
            CssAtRule::Import => "@import",
            CssAtRule::Keyframes => "@keyframes",
            CssAtRule::Layer => "@layer",
            CssAtRule::LeftBottom => "@left-bottom",
            CssAtRule::LeftMiddle => "@left-middle",
            CssAtRule::LeftTop => "@left-top",
            CssAtRule::Macro => "@macro",
            CssAtRule::Media => "@media",
            CssAtRule::Mixin => "@mixin",
            CssAtRule::Namespace => "@namespace",
            CssAtRule::Navigation => "@navigation",
            CssAtRule::Ornaments => "@ornaments",
            CssAtRule::Page => "@page",
            CssAtRule::PositionTry => "@position-try",
            CssAtRule::Property => "@property",
            CssAtRule::Result => "@result",
            CssAtRule::RightBottom => "@right-bottom",
            CssAtRule::RightMiddle => "@right-middle",
            CssAtRule::RightTop => "@right-top",
            CssAtRule::Route => "@route",
            CssAtRule::Scope => "@scope",
            CssAtRule::StartingStyle => "@starting-style",
            CssAtRule::Styleset => "@styleset",
            CssAtRule::Stylistic => "@stylistic",
            CssAtRule::Supports => "@supports",
            CssAtRule::SupportsCondition => "@supports-condition",
            CssAtRule::Swash => "@swash",
            CssAtRule::TopCenter => "@top-center",
            CssAtRule::TopLeft => "@top-left",
            CssAtRule::TopLeftCorner => "@top-left-corner",
            CssAtRule::TopRight => "@top-right",
            CssAtRule::TopRightCorner => "@top-right-corner",
            CssAtRule::ViewTransition => "@view-transition",
            CssAtRule::When => "@when",
            CssAtRule::Unknown(_) => {
                proof {
                    reveal_strlit("");
                }
                ""
            },
        }
    }

    /// Looks a name up. A name that is not listed gives `Unknown` holding the name.
    pub fn from_name(name: &str) -> (r: Self)
        ensures
            match Self::spec_lookup(name@) {
                Some(p) => r == p,
                None => r matches CssAtRule::Unknown(s) && s@ == name@,
            },
    {
        let key = chars_of(name);
        proof {
            lemma_lookup_sorted();
        }
        let mut lo: usize = 0;
        let mut hi: usize = LOOKUP_LEN;
        while lo < hi
            invariant
                lo <= hi <= LOOKUP_LEN,
                key@ == name@,
                forall|i: usize, j: usize|
                    i < j < LOOKUP_LEN ==> name_less(#[trigger] lookup_name(i), #[trigger] lookup_name(j)),
                forall|i: usize| i < lo ==> name_less(#[trigger] lookup_name(i), key@),
                forall|i: usize| hi <= i < LOOKUP_LEN ==> name_less(key@, #[trigger] lookup_name(i)),
            decreases hi - lo,
        {
            let mid = lo + (hi - lo) / 2;
            let cand = chars_of(lookup_name_at(mid));
            match compare_char_seqs(cand.as_slice(), key.as_slice()) {
                NameOrder::Less => {
                    assert forall|i: usize| i < mid + 1 implies name_less(#[trigger] lookup_name(i), key@) by {
                        if i < mid {
                            lemma_name_less_transitive(lookup_name(i), lookup_name(mid), key@);
                        }
                    }
                    lo = mid + 1;
                },
                NameOrder::Equal => {
                    let candidate = lookup_at(mid);
                    proof {
                        lemma_lookup_position(candidate);
                        lemma_lookup_of_name(candidate);
                    }
                    return candidate;
                },
                NameOrder::Greater => {
                    assert forall|i: usize| mid <= i < LOOKUP_LEN implies name_less(key@, #[trigger] lookup_name(i)) by {
                        if mid < i {
                            lemma_name_less_transitive(key@, lookup_name(mid), lookup_name(i));
                        }
                    }
                    hi = mid;
                },
            }
        }
        proof {
            assert forall|p: CssAtRule| p.is_listed() implies #[trigger] p.spec_name() != name@ by {
                lemma_lookup_position(p);
                let k = p.lookup_position();
                if k < lo {
                    lemma_name_less_asymmetric(lookup_name(k), key@);
                } else {
                    lemma_name_less_asymmetric(key@, lookup_name(k));
                }
            }
        }
        CssAtRule::Unknown(String::from_str(name))
    }
}

/// The `i`-th entry of the lookup table.
fn lookup_at(i: usize) -> (r: CssAtRule)
    requires
        0 <= i < LOOKUP_LEN,
    ensures
        r.is_listed(),
        r.lookup_position() == i,
{
    match i {
        0 => {
            proof {
                assert(CssAtRule::WebkitKeyframes.lookup_position() == 0);
            }
            CssAtRule::WebkitKeyframes
        },
        1 => {
            proof {
                assert(CssAtRule::Annotation.lookup_position() == 1);
            }
            CssAtRule::Annotation
        },
        2 => {
            proof {
                assert(CssAtRule::Apply.lookup_position() == 2);
            }
            CssAtRule::Apply
        },
        3 => {
            proof {
                assert(CssAtRule::BottomCenter.lookup_position() == 3);
            }
            CssAtRule::BottomCenter
        },
        4 => {
            proof {
                assert(CssAtRule::BottomLeft.lookup_position() == 4);
            }
            CssAtRule::BottomLeft
        },
        5 => {
            proof {
                assert(CssAtRule::BottomLeftCorner.lookup_position() == 5);
            }
            CssAtRule::BottomLeftCorner
        },
        6 => {
            proof {
                assert(CssAtRule::BottomRight.lookup_position() == 6);
            }
            CssAtRule::BottomRight
        },
        7 => {
            proof {
                assert(CssAtRule::BottomRightCorner.lookup_position() == 7);
            }
            CssAtRule::BottomRightCorner
        },
        8 => {
            proof {
                assert(CssAtRule::CharacterVariant.lookup_position() == 8);
            }
            CssAtRule::CharacterVariant
        },
        9 => {
            proof {
                assert(CssAtRule::Charset.lookup_position() == 9);
            }
            CssAtRule::Charset
        },
        10 => {
            proof {
                assert(CssAtRule::ColorProfile.lookup_position() == 10);
            }
            CssAtRule::ColorProfile
        },
        11 => {
            proof {
                assert(CssAtRule::Container.lookup_position() == 11);
            }
            CssAtRule::Container
        },
        12 => {
            proof {
                assert(CssAtRule::Contents.lookup_position() == 12);
            }
            CssAtRule::Contents
        },
        13 => {
            proof {
                assert(CssAtRule::CounterStyle.lookup_position() == 13);
            }
            CssAtRule::CounterStyle
        },
        14 => {
            proof {
                assert(CssAtRule::CustomMedia.lookup_position() == 14);
            }
            CssAtRule::CustomMedia
        },
        15 => {
            proof {
                assert(CssAtRule::CustomSelector.lookup_position() == 15);
            }
            CssAtRule::CustomSelector
        },
        16 => {
            proof {
                assert(CssAtRule::Else.lookup_position() == 16);
            }
            CssAtRule::Else
        },
        17 => {
            proof {
                assert(CssAtRule::FontFace.lookup_position() == 17);
            }
            CssAtRule::FontFace
        },
        18 => {
            proof {
                assert(CssAtRule::FontFeatureValues.lookup_position() == 18);
            }
            CssAtRule::FontFeatureValues
        },
        19 => {
            proof {
                assert(CssAtRule::FontPaletteValues.lookup_position() == 19);
            }
            CssAtRule::FontPaletteValues
        },
        20 => {
            proof {
                assert(CssAtRule::Function.lookup_position() == 20);
            }
            CssAtRule::Function
        },
        21 => {
            proof {
                assert(CssAtRule::HistoricalForms.lookup_position() == 21);
            }
            CssAtRule::HistoricalForms
        },
        22 => {
            proof {
                assert(CssAtRule::Import.lookup_position() == 22);
            }
            CssAtRule::Import
        },
        23 => {
            proof {
                assert(CssAtRule::Keyframes.lookup_position() == 23);
            }
            CssAtRule::Keyframes
        },
        24 => {
            proof {
                assert(CssAtRule::Layer.lookup_position() == 24);
            }
            CssAtRule::Layer
        },
        25 => {
            proof {
                assert(CssAtRule::LeftBottom.lookup_position() == 25);
            }
            CssAtRule::LeftBottom
        },
        26 => {
            proof {
                assert(CssAtRule::LeftMiddle.lookup_position() == 26);
            }
            CssAtRule::LeftMiddle
        },
        27 => {
            proof {
                assert(CssAtRule::LeftTop.lookup_position() == 27);
            }
            CssAtRule::LeftTop
        },
        28 => {
            proof {
                assert(CssAtRule::Macro.lookup_position() == 28);
            }
            CssAtRule::Macro
        },
        29 => {
            proof {
                assert(CssAtRule::Media.lookup_position() == 29);
            }
            CssAtRule::Media
        },
        30 => {
            proof {
                assert(CssAtRule::Mixin.lookup_position() == 30);
            }
            CssAtRule::Mixin
        },
        31 => {
            proof {
                assert(CssAtRule::Namespace.lookup_position() == 31);
            }
            CssAtRule::Namespace
        },
        32 => {
            proof {
                assert(CssAtRule::Navigation.lookup_position() == 32);
            }
            CssAtRule::Navigation
        },
        33 => {
            proof {
                assert(CssAtRule::Ornaments.lookup_position() == 33);
            }
            CssAtRule::Ornaments
        },
        34 => {
            proof {
                assert(CssAtRule::Page.lookup_position() == 34);
            }
            CssAtRule::Page
        },
        35 => {
            proof {
                assert(CssAtRule::PositionTry.lookup_position() == 35);
            }
            CssAtRule::PositionTry
        },
        36 => {
            proof {
                assert(CssAtRule::Property.lookup_position() == 36);
            }
            CssAtRule::Property
        },
        37 => {
            proof {
                assert(CssAtRule::Result.lookup_position() == 37);
            }
            CssAtRule::Result
        },
        38 => {
            proof {
                assert(CssAtRule::RightBottom.lookup_position() == 38);
            }
            CssAtRule::RightBottom
        },
        39 => {
            proof {
                assert(CssAtRule::RightMiddle.lookup_position() == 39);
            }
            CssAtRule::RightMiddle
        },
        40 => {
            proof {
                assert(CssAtRule::RightTop.lookup_position() == 40);
            }
            CssAtRule::RightTop
        },
        41 => {
            proof {
                assert(CssAtRule::Route.lookup_position() == 41);
            }
            CssAtRule::Route
        },
        42 => {
            proof {
                assert(CssAtRule::Scope.lookup_position() == 42);
            }
            CssAtRule::Scope
        },
        43 => {
            proof {
                assert(CssAtRule::StartingStyle.lookup_position() == 43);
            }
            CssAtRule::StartingStyle
        },
        44 => {
            proof {
                assert(CssAtRule::Styleset.lookup_position() == 44);
            }
            CssAtRule::Styleset
        },
        45 => {
            proof {
                assert(CssAtRule::Stylistic.lookup_position() == 45);
            }
            CssAtRule::Stylistic
        },
        46 => {
            proof {
                assert(CssAtRule::Supports.lookup_position() == 46);
            }
            CssAtRule::Supports
        },
        47 => {
            proof {
                assert(CssAtRule::SupportsCondition.lookup_position() == 47);
            }
            CssAtRule::SupportsCondition
        },
        48 => {
            proof {
                assert(CssAtRule::Swash.lookup_position() == 48);
            }
            CssAtRule::Swash
        },
        49 => {
            proof {
                assert(CssAtRule::TopCenter.lookup_position() == 49);
            }
            CssAtRule::TopCenter
        },
        50 => {
            proof {
                assert(CssAtRule::TopLeft.lookup_position() == 50);
            }
            CssAtRule::TopLeft
        },
        51 => {
            proof {
                assert(CssAtRule::TopLeftCorner.lookup_position() == 51);
            }
            CssAtRule::TopLeftCorner
        },
        52 => {
            proof {
                assert(CssAtRule::TopRight.lookup_position() == 52);
            }
            CssAtRule::TopRight
        },
        53 => {
            proof {
                assert(CssAtRule::TopRightCorner.lookup_position() == 53);
            }
            CssAtRule::TopRightCorner
        },
        54 => {
            proof {
                assert(CssAtRule::ViewTransition.lookup_position() == 54);
            }
            CssAtRule::ViewTransition
        },
        _ => {
            proof {
                assert(CssAtRule::When.lookup_position() == 55);
            }
            CssAtRule::When
        },
    }
}

impl Clone for CssAtRule {
    fn clone(&self) -> (r: Self)
        ensures
            r == *self,
    {
        self.clone_part_0()
    }
}

impl CssAtRule {
    /// Where the variant stands in the declaration.
    pub open spec fn ordinal(&self) -> int {
        match self {
            CssAtRule::WebkitKeyframes => 0,
            CssAtRule::Annotation => 1,
            CssAtRule::Apply => 2,
            CssAtRule::BottomCenter => 3,
            CssAtRule::BottomLeft => 4,
            CssAtRule::BottomLeftCorner => 5,
            CssAtRule::BottomRight => 6,
            CssAtRule::BottomRightCorner => 7,
            CssAtRule::CharacterVariant => 8,
            CssAtRule::Charset => 9,
            CssAtRule::ColorProfile => 10,
            CssAtRule::Container => 11,
            CssAtRule::Contents => 12,
            CssAtRule::CounterStyle => 13,
            CssAtRule::CustomMedia => 14,
            CssAtRule::CustomSelector => 15,
            CssAtRule::Else => 16,
            CssAtRule::FontFace => 17,
            CssAtRule::FontFeatureValues => 18,
            CssAtRule::FontPaletteValues => 19,
            CssAtRule::Function => 20,
            CssAtRule::HistoricalForms => 21,
            CssAtRule::Import => 22,
            CssAtRule::Keyframes => 23,
            CssAtRule::Layer => 24,
            CssAtRule::LeftBottom => 25,
            CssAtRule::LeftMiddle => 26,
            CssAtRule::LeftTop => 27,
            CssAtRule::Macro => 28,
            CssAtRule::Media => 29,
            CssAtRule::Mixin => 30,
            CssAtRule::Namespace => 31,
            CssAtRule::Navigation => 32,
            CssAtRule::Ornaments => 33,
            CssAtRule::Page => 34,
            CssAtRule::PositionTry => 35,
            CssAtRule::Property => 36,
            CssAtRule::Result => 37,
            CssAtRule::RightBottom => 38,
            CssAtRule::RightMiddle => 39,
            CssAtRule::RightTop => 40,
            CssAtRule::Route => 41,
            CssAtRule::Scope => 42,
            CssAtRule::StartingStyle => 43,
            CssAtRule::Styleset => 44,
            CssAtRule::Stylistic => 45,
            CssAtRule::Supports => 46,
            CssAtRule::SupportsCondition => 47,
            CssAtRule::Swash => 48,
            CssAtRule::TopCenter => 49,
            CssAtRule::TopLeft => 50,
            CssAtRule::TopLeftCorner => 51,
            CssAtRule::TopRight => 52,
            CssAtRule::TopRightCorner => 53,
            CssAtRule::ViewTransition => 54,
            CssAtRule::When => 55,
            CssAtRule::Unknown(_) => 56,
        }
    }

    fn clone_part_0(&self) -> (r: Self)
        ensures
            r == *self,
    {
        match self {
            CssAtRule::WebkitKeyframes => CssAtRule::WebkitKeyframes,
            CssAtRule::Annotation => CssAtRule::Annotation,
            CssAtRule::Apply => CssAtRule::Apply,
            CssAtRule::BottomCenter => CssAtRule::BottomCenter,
            CssAtRule::BottomLeft => CssAtRule::BottomLeft,
            CssAtRule::BottomLeftCorner => CssAtRule::BottomLeftCorner,
            CssAtRule::BottomRight => CssAtRule::BottomRight,
            CssAtRule::BottomRightCorner => CssAtRule::BottomRightCorner,
            CssAtRule::CharacterVariant => CssAtRule::CharacterVariant,
            CssAtRule::Charset => CssAtRule::Charset,
            CssAtRule::ColorProfile => CssAtRule::ColorProfile,
            CssAtRule::Container => CssAtRule::Container,
            CssAtRule::Contents => CssAtRule::Contents,
            CssAtRule::CounterStyle => CssAtRule::CounterStyle,
            CssAtRule::CustomMedia => CssAtRule::CustomMedia,
            CssAtRule::CustomSelector => CssAtRule::CustomSelector,
            CssAtRule::Else => CssAtRule::Else,
            CssAtRule::FontFace => CssAtRule::FontFace,
            CssAtRule::FontFeatureValues => CssAtRule::FontFeatureValues,
            CssAtRule::FontPaletteValues => CssAtRule::FontPaletteValues,
            CssAtRule::Function => CssAtRule::Function,
            CssAtRule::HistoricalForms => CssAtRule::HistoricalForms,
            CssAtRule::Import => CssAtRule::Import,
            CssAtRule::Keyframes => CssAtRule::Keyframes,
            CssAtRule::Layer => CssAtRule::Layer,
            CssAtRule::LeftBottom => CssAtRule::LeftBottom,
            CssAtRule::LeftMiddle => CssAtRule::LeftMiddle,
            CssAtRule::LeftTop => CssAtRule::LeftTop,
            CssAtRule::Macro => CssAtRule::Macro,
            CssAtRule::Media => CssAtRule::Media,
            CssAtRule::Mixin => CssAtRule::Mixin,
            CssAtRule::Namespace => CssAtRule::Namespace,
            CssAtRule::Navigation => CssAtRule::Navigation,
            CssAtRule::Ornaments => CssAtRule::Ornaments,
            CssAtRule::Page => CssAtRule::Page,
            CssAtRule::PositionTry => CssAtRule::PositionTry,
            CssAtRule::Property => CssAtRule::Property,
            CssAtRule::Result => CssAtRule::Result,
            CssAtRule::RightBottom => CssAtRule::RightBottom,
            CssAtRule::RightMiddle => CssAtRule::RightMiddle,
            CssAtRule::RightTop => CssAtRule::RightTop,
            CssAtRule::Route => CssAtRule::Route,
            CssAtRule::Scope => CssAtRule::Scope,
            CssAtRule::StartingStyle => CssAtRule::StartingStyle,
            CssAtRule::Styleset => CssAtRule::Styleset,
            CssAtRule::Stylistic => CssAtRule::Stylistic,
            CssAtRule::Supports => CssAtRule::Supports,
            CssAtRule::SupportsCondition => CssAtRule::SupportsCondition,
            CssAtRule::Swash => CssAtRule::Swash,
            CssAtRule::TopCenter => CssAtRule::TopCenter,
            CssAtRule::TopLeft => CssAtRule::TopLeft,
            CssAtRule::TopLeftCorner => CssAtRule::TopLeftCorner,
            CssAtRule::TopRight => CssAtRule::TopRight,
            CssAtRule::TopRightCorner => CssAtRule::TopRightCorner,
            CssAtRule::ViewTransition => CssAtRule::ViewTransition,
            CssAtRule::When => CssAtRule::When,
            CssAtRule::Unknown(s) => CssAtRule::Unknown(s.clone()),
        }
    }
}

/// Every listed value stands in the lookup table.
pub proof fn lemma_lookup_position(p: CssAtRule)
    requires
        p.is_listed(),
    ensures
        p.lookup_position() < LOOKUP_LEN,
        lookup_entry(p.lookup_position()) == p,
        lookup_name(p.lookup_position()) == p.spec_name(),
{
}

/// Different listed values have different names.
pub proof fn lemma_name_injective(p: CssAtRule, q: CssAtRule)
    requires
        p.is_listed(),
        q.is_listed(),
        p.spec_name() == q.spec_name(),
    ensures
        p == q,
{
    lemma_lookup_position(p);
    lemma_lookup_position(q);
    lemma_lookup_sorted();
    let i = p.lookup_position();
    let j = q.lookup_position();
    if i < j {
        lemma_name_less_asymmetric(lookup_name(i), lookup_name(j));
    } else if j < i {
        lemma_name_less_asymmetric(lookup_name(j), lookup_name(i));
    }
}

/// Looking up the name of a listed value gives that value back.
pub proof fn lemma_lookup_of_name(p: CssAtRule)
    requires
        p.is_listed(),
    ensures
        CssAtRule::spec_lookup(p.spec_name()) == Some(p),
{
    let q = choose|q: CssAtRule| q.is_listed() && #[trigger] q.spec_name() == p.spec_name();
    lemma_name_injective(p, q);
}

/// A name that the lookup finds is the name of what it finds.
pub proof fn lemma_name_of_lookup(s: Seq<char>)
    ensures
        CssAtRule::spec_lookup(s) matches Some(p) ==> p.is_listed() && p.spec_name() == s,
{
}

/// Every listed name is non-empty, so the empty name is not found.
pub proof fn lemma_empty_name_not_listed()
    ensures
        CssAtRule::spec_lookup(Seq::empty()) is None,
{
    lemma_lookup_sorted();
    assert forall|p: CssAtRule| p.is_listed() implies #[trigger] p.spec_name() != Seq::<char>::empty() by {
        lemma_lookup_position(p);
        let k = p.lookup_position();
        if k == 0 {
            reveal_strlit("@-webkit-keyframes");
            assert(p.spec_name().len() > 0);
        } else {
            assert(name_less(lookup_name(0), lookup_name(k)));
            assert(p.spec_name().len() > 0);
        }
    }
}

/// Whether an at-rule takes a block or ends as a statement.
#[derive(Debug, Clone, Copy, PartialEq, Eq, Structural)]
pub enum AtRuleKind {
    Block,
    Statement,
}

} // verus!
