//! What the property definitions say of each property (its value syntax,
//! initial value and inheritance), and the law that the property's metadata
//! agrees with it.
use vstd::prelude::*;

use super::CssProperty;

verus! {

/// Whether the property's definition says it is inherited (its `inherited`
/// field reads `yes`; no definition says `no`, the others are silent).
pub open spec fn documented_inherited(property: CssProperty) -> bool {
    match property {
        CssProperty::WebkitTextFillColor => true,
        CssProperty::WebkitTextStroke => true,
        CssProperty::WebkitTextStrokeColor => true,
        CssProperty::WebkitTextStrokeWidth => true,
        CssProperty::AccentColor => true,
        CssProperty::BlockEllipsis => true,
        CssProperty::BorderBoundary => true,
        CssProperty::BorderCollapse => true,
        CssProperty::BorderSpacing => true,
        CssProperty::BoxSnap => true,
        CssProperty::CaptionSide => true,
        CssProperty::Caret => true,
        CssProperty::CaretAnimation => true,
        CssProperty::CaretColor => true,
        CssProperty::CaretShape => true,
        CssProperty::ClipRule => true,
        CssProperty::Color => true,
        CssProperty::ColorInterpolation => true,
        CssProperty::ColorInterpolationFilters => true,
        CssProperty::ColorScheme => true,
        CssProperty::Cursor => true,
        CssProperty::Direction => true,
        CssProperty::DominantBaseline => true,
        CssProperty::DynamicRangeLimit => true,
        CssProperty::EmptyCells => true,
        CssProperty::Fill => true,
        CssProperty::FillColor => true,
        CssProperty::FillImage => true,
        CssProperty::FillOpacity => true,
        CssProperty::FillPosition => true,
        CssProperty::FillRepeat => true,
        CssProperty::FillRule => true,
        CssProperty::FillSize => true,
        CssProperty::Font => true,
        CssProperty::FontFamily => true,
        CssProperty::FontFeatureSettings => true,
        CssProperty::FontKerning => true,
        CssProperty::FontLanguageOverride => true,
        CssProperty::FontOpticalSizing => true,
        CssProperty::FontPalette => true,
        CssProperty::FontSize => true,
        CssProperty::FontSizeAdjust => true,
        CssProperty::FontStyle => true,
        CssProperty::FontSynthesis => true,
        CssProperty::FontSynthesisPosition => true,
        CssProperty::FontSynthesisSmallCaps => true,
        CssProperty::FontSynthesisStyle => true,
        CssProperty::FontSynthesisWeight => true,
        CssProperty::FontVariant => true,
        CssProperty::FontVariantAlternates => true,
        CssProperty::FontVariantCaps => true,
        CssProperty::FontVariantEastAsian => true,
        CssProperty::FontVariantEmoji => true,
        CssProperty::FontVariantLigatures => true,
        CssProperty::FontVariantNumeric => true,
        CssProperty::FontVariantPosition => true,
        CssProperty::FontVariationSettings => true,
        CssProperty::FontWeight => true,
        CssProperty::FontWidth => true,
        CssProperty::ForcedColorAdjust => true,
        CssProperty::HangingPunctuation => true,
        CssProperty::HyphenateCharacter => true,
        CssProperty::HyphenateLimitChars => true,
        CssProperty::HyphenateLimitLast => true,
        CssProperty::HyphenateLimitLines => true,
        CssProperty::HyphenateLimitZone => true,
        CssProperty::Hyphens => true,
        CssProperty::ImageAnimation => true,
        CssProperty::ImageOrientation => true,
        CssProperty::ImageRendering => true,
        CssProperty::ImageResolution => true,
        CssProperty::InitialLetterAlign => true,
        CssProperty::InitialLetterWrap => true,
        CssProperty::InlineSizing => true,
        CssProperty::Interactivity => true,
        CssProperty::InterestDelayEnd => true,
        CssProperty::InterestDelayStart => true,
        CssProperty::InterpolateSize => true,
        CssProperty::LetterSpacing => true,
        CssProperty::LineBreak => true,
        CssProperty::LineFitEdge => true,
        CssProperty::LineHeight => true,
        CssProperty::LineHeightStep => true,
        CssProperty::LinePadding => true,
        CssProperty::LineSnap => true,
        CssProperty::ListStyleImage => true,
        CssProperty::ListStylePosition => true,
        CssProperty::ListStyleType => true,
        CssProperty::Marker => true,
        CssProperty::MarkerEnd => true,
        CssProperty::MarkerMid => true,
        CssProperty::MarkerSide => true,
        CssProperty::MarkerStart => true,
        CssProperty::MathDepth => true,
        CssProperty::MathShift => true,
        CssProperty::MathStyle => true,
        CssProperty::Orphans => true,
        CssProperty::OverflowWrap => true,
        CssProperty::PaintOrder => true,
        CssProperty::PointerEvents => true,
        CssProperty::PrintColorAdjust => true,
        CssProperty::Quotes => true,
        CssProperty::RubyAlign => true,
        CssProperty::RubyMerge => true,
        CssProperty::RubyOverhang => true,
        CssProperty::RubyPosition => true,
        CssProperty::ScrollbarColor => true,
        CssProperty::ShapeRendering => true,
        CssProperty::Speak => true,
        CssProperty::SpeakAs => true,
        CssProperty::Stroke => true,
        CssProperty::StrokeAlign => true,
        CssProperty::StrokeAlignment => true,
        CssProperty::StrokeColor => true,
        CssProperty::StrokeDashCornerPropdefStrokeDashCorner => true,
        CssProperty::StrokeDashJustify => true,
        CssProperty::StrokeDashadjust => true,
        CssProperty::StrokeDasharray => true,
        CssProperty::StrokeDashcornerStrokedashcornerproperty => true,
        CssProperty::StrokeDashoffset => true,
        CssProperty::StrokeImage => true,
        CssProperty::StrokeLinecap => true,
        CssProperty::StrokeLinejoin => true,
        CssProperty::StrokeMiterlimit => true,
        CssProperty::StrokeOpacity => true,
        CssProperty::StrokePosition => true,
        CssProperty::StrokeRepeat => true,
        CssProperty::StrokeSize => true,
        CssProperty::StrokeWidth => true,
        CssProperty::TabSize => true,
        CssProperty::TextAlign => true,
        CssProperty::TextAlignAll => true,
        CssProperty::TextAlignLast => true,
        CssProperty::TextAnchor => true,
        CssProperty::TextAutospace => true,
        CssProperty::TextBoxEdge => true,
        CssProperty::TextCombineUpright => true,
        CssProperty::TextDecorationSkip => true,
        CssProperty::TextDecorationSkipBox => true,
        CssProperty::TextDecorationSkipInk => true,
        CssProperty::TextDecorationSkipSpaces => true,
        CssProperty::TextEmphasisColor => true,
        CssProperty::TextEmphasisPosition => true,
        CssProperty::TextEmphasisSkip => true,
        CssProperty::TextEmphasisStyle => true,
        CssProperty::TextIndent => true,
        CssProperty::TextJustify => true,
        CssProperty::TextOrientation => true,
        CssProperty::TextRendering => true,
        CssProperty::TextShadow => true,
        CssProperty::TextSizeAdjust => true,
        CssProperty::TextSpacing => true,
        CssProperty::TextSpacingTrim => true,
        CssProperty::TextTransform => true,
        CssProperty::TextUnderlineOffset => true,
        CssProperty::TextUnderlinePosition => true,
        CssProperty::TextWrapMode => true,
        CssProperty::TextWrapStyle => true,
        CssProperty::Visibility => true,
        CssProperty::VoiceBalance => true,
        CssProperty::VoiceFamily => true,
        CssProperty::VoicePitch => true,
        CssProperty::VoiceRange => true,
        CssProperty::VoiceRate => true,
        CssProperty::VoiceStress => true,
        CssProperty::VoiceVolume => true,
        CssProperty::WhiteSpaceCollapse => true,
        CssProperty::Widows => true,
        CssProperty::WordBreak => true,
        CssProperty::WordSpaceTransform => true,
        CssProperty::WordSpacing => true,
        CssProperty::WordWrap => true,
        CssProperty::WritingMode => true,
        _ => false,
    }
}

/// The value syntax the property's definition gives (its `syntax` field);
/// empty where it gives none.
pub open spec fn documented_syntax(property: CssProperty) -> Seq<char> {
    match property {
        CssProperty::WebkitAlignContent => "normal | <baseline-position> | <content-distribution> | <overflow-position>? <content-position>"@,
        CssProperty::WebkitAlignItems => "normal | stretch | <baseline-position> | <overflow-position>? <self-position>"@,
        CssProperty::WebkitAlignSelf => "auto | <overflow-position>? [ normal | <self-position> ]| stretch | <baseline-position>"@,
        CssProperty::WebkitAnimation => "<single-animation>#"@,
        CssProperty::WebkitAnimationDelay => "<time>#"@,
        CssProperty::WebkitAnimationDirection => "<single-animation-direction>#"@,
        CssProperty::WebkitAnimationDuration => "<time [0s,∞]>#"@,
        CssProperty::WebkitAnimationFillMode => "<single-animation-fill-mode>#"@,
        CssProperty::WebkitAnimationIterationCount => "<single-animation-iteration-count>#"@,
        CssProperty::WebkitAnimationName => "[ none | <keyframes-name> ]#"@,
        CssProperty::WebkitAnimationPlayState => "<single-animation-play-state>#"@,
        CssProperty::WebkitAnimationTimingFunction => "<easing-function>#"@,
        CssProperty::WebkitAppearance => "none | auto | base | base-select | <compat-auto> | <compat-special> | base"@,
        CssProperty::WebkitBackfaceVisibility => "visible | hidden"@,
        CssProperty::WebkitBackgroundClip => "<visual-box>#"@,
        CssProperty::WebkitBackgroundOrigin => "<visual-box>#"@,
        CssProperty::WebkitBackgroundSize => "<bg-size>#"@,
        CssProperty::WebkitBorderBottomLeftRadius => "<border-radius>"@,
        CssProperty::WebkitBorderBottomRightRadius => "<border-radius>"@,
        CssProperty::WebkitBorderRadius => "<length-percentage [0,∞]>{1,4} [ / <length-percentage [0,∞]>{1,4} ]?"@,
        CssProperty::WebkitBorderTopLeftRadius => "<border-radius>"@,
        CssProperty::WebkitBorderTopRightRadius => "<border-radius>"@,
        CssProperty::WebkitBoxAlign => ""@,
        CssProperty::WebkitBoxFlex => ""@,
        CssProperty::WebkitBoxOrdinalGroup => ""@,
        CssProperty::WebkitBoxOrient => ""@,
        CssProperty::WebkitBoxPack => ""@,
        CssProperty::WebkitBoxShadow => "<spread-shadow>#"@,
        CssProperty::WebkitBoxSizing => "content-box | border-box"@,
        CssProperty::WebkitFilter => "none | <filter-value-list>"@,
        CssProperty::WebkitFlex => "none | [ <'flex-grow'> <'flex-shrink'>? || <'flex-basis'> ]"@,
        CssProperty::WebkitFlexBasis => "content | <'width'>"@,
        CssProperty::WebkitFlexDirection => "row | row-reverse | column | column-reverse"@,
        CssProperty::WebkitFlexFlow => "<'flex-direction'> || <'flex-wrap'>"@,
        CssProperty::WebkitFlexGrow => "<number [0,∞]>"@,
        CssProperty::WebkitFlexShrink => "<number [0,∞]>"@,
        CssProperty::WebkitFlexWrap => "nowrap | wrap | wrap-reverse"@,
        CssProperty::WebkitJustifyContent => "normal | <content-distribution> | <overflow-position>? [ <content-position> | left | right ]"@,
        CssProperty::WebkitLineClamp => "none | <integer [1,∞]>"@,
        CssProperty::WebkitMask => "<mask-layer>#"@,
        CssProperty::WebkitMaskBoxImage => "<'mask-border-source'> || <'mask-border-slice'> [ / <'mask-border-width'>? [ / <'mask-border-outset'> ]? ]? || <'mask-border-repeat'> || <'mask-border-mode'>"@,
        CssProperty::WebkitMaskBoxImageOutset => "<'border-image-outset'>"@,
        CssProperty::WebkitMaskBoxImageRepeat => "<'border-image-repeat'>"@,
        CssProperty::WebkitMaskBoxImageSlice => "<'border-image-slice'>"@,
        CssProperty::WebkitMaskBoxImageSource => "<'border-image-source'>"@,
        CssProperty::WebkitMaskBoxImageWidth => "<'border-image-width'>"@,
        CssProperty::WebkitMaskClip => "[ <coord-box> | no-clip ]#"@,
        CssProperty::WebkitMaskComposite => "<compositing-operator>#"@,
        CssProperty::WebkitMaskImage => "<mask-reference>#"@,
        CssProperty::WebkitMaskOrigin => "<coord-box>#"@,
        CssProperty::WebkitMaskPosition => "<position>#"@,
        CssProperty::WebkitMaskRepeat => "<repeat-style>#"@,
        CssProperty::WebkitMaskSize => "<bg-size>#"@,
        CssProperty::WebkitOrder => "<integer>"@,
        CssProperty::WebkitPerspective => "none | <length [0,∞]>"@,
        CssProperty::WebkitPerspectiveOrigin => "<position>"@,
        CssProperty::WebkitTextFillColor => "<color>"@,
        CssProperty::WebkitTextSizeAdjust => "auto | none | <percentage [0,∞]>"@,
        CssProperty::WebkitTextStroke => "<line-width> || <color>"@,
        CssProperty::WebkitTextStrokeColor => "<color>"@,
        CssProperty::WebkitTextStrokeWidth => "<line-width>"@,
        CssProperty::WebkitTransform => "none | <transform-list>"@,
        CssProperty::WebkitTransformOrigin => "[ left | center | right | top | bottom | <length-percentage> ] | [ left | center | right | <length-percentage> ] [ top | center | bottom | <length-percentage> ] <length>? | [ [ center | left | right ] && [ center | top | bottom ] ] <length>?"@,
        CssProperty::WebkitTransformStyle => "flat | preserve-3d"@,
        CssProperty::WebkitTransition => "<single-transition>#"@,
        CssProperty::WebkitTransitionDelay => "<time>#"@,
        CssProperty::WebkitTransitionDuration => "<time [0s,∞]>#"@,
        CssProperty::WebkitTransitionProperty => "none | <single-transition-property>#"@,
        CssProperty::WebkitTransitionTimingFunction => "<easing-function>#"@,
        CssProperty::WebkitUserSelect => "auto | text | none | contain | all"@,
        CssProperty::AccentColor => "auto | <color>"@,
        CssProperty::AlignContent => "normal | <baseline-position> | <content-distribution> | <overflow-position>? <content-position>"@,
        CssProperty::AlignItems => "normal | stretch | <baseline-position> | <overflow-position>? <self-position>"@,
        CssProperty::AlignSelf => "auto | <overflow-position>? [ normal | <self-position> ]| stretch | <baseline-position> | anchor-center"@,
        CssProperty::AlignmentBaseline => "baseline | <baseline-metric>"@,
        CssProperty::All => "initial | inherit | unset | revert | revert-layer | revert-rule"@,
        CssProperty::AnchorName => "none | <anchor-name>#"@,
        CssProperty::AnchorScope => "none | all | <anchor-name>#"@,
        CssProperty::Animation => "<single-animation>#"@,
        CssProperty::AnimationComposition => "<single-animation-composition>#"@,
        CssProperty::AnimationDelay => "<time>#"@,
        CssProperty::AnimationDirection => "<single-animation-direction>#"@,
        CssProperty::AnimationDuration => "[ auto | <time [0s,∞]> ]#"@,
        CssProperty::AnimationFillMode => "<single-animation-fill-mode>#"@,
        CssProperty::AnimationIterationCount => "<single-animation-iteration-count>#"@,
        CssProperty::AnimationName => "[ none | <keyframes-name> ]#"@,
        CssProperty::AnimationPlayState => "<single-animation-play-state>#"@,
        CssProperty::AnimationRange => "[ <'animation-range-start'> <'animation-range-end'>? ]#"@,
        CssProperty::AnimationRangeCenter => "[ normal | [ <length-percentage> | <timeline-range-center-subject> <length-percentage>? ] ]#"@,
        CssProperty::AnimationRangeEnd => "[ normal | <length-percentage> | <timeline-range-name> <length-percentage>? ]#"@,
        CssProperty::AnimationRangeStart => "[ normal | <length-percentage> | <timeline-range-name> <length-percentage>? ]#"@,
        CssProperty::AnimationTimeline => "<single-animation-timeline>#"@,
        CssProperty::AnimationTimingFunction => "<easing-function>#"@,
        CssProperty::AnimationTrigger => "[ none | [ <dashed-ident> <animation-action>+ ]+ ]#"@,
        CssProperty::Appearance => "none | auto | base | base-select | <compat-auto> | <compat-special> | base"@,
        CssProperty::AspectRatio => "auto || <ratio>"@,
        CssProperty::BackdropFilter => "none | <filter-value-list>"@,
        CssProperty::BackfaceVisibility => "visible | hidden"@,
        CssProperty::Background => "<bg-layer>#? , <final-bg-layer>"@,
        CssProperty::BackgroundAttachment => "<attachment>#"@,
        _ => documented_syntax_from_100(property),
    }
}

/// `documented_syntax` from the 100-th property on.
pub open spec fn documented_syntax_from_100(property: CssProperty) -> Seq<char> {
    match property {
        CssProperty::BackgroundBlendMode => "<'mix-blend-mode'>#"@,
        CssProperty::BackgroundClip => "<bg-clip>#"@,
        CssProperty::BackgroundColor => "<color>"@,
        CssProperty::BackgroundImage => "<bg-image>#"@,
        CssProperty::BackgroundOrigin => "<visual-box>#"@,
        CssProperty::BackgroundPosition => "<bg-position>#"@,
        CssProperty::BackgroundPositionBlock => "[ center | [ [ start | end ]? <length-percentage>? ]! ]#"@,
        CssProperty::BackgroundPositionInline => "[ center | [ [ start | end ]? <length-percentage>? ]! ]#"@,
        CssProperty::BackgroundPositionX => "[ center | [ [ left | right | x-start | x-end ]? <length-percentage>? ]! ]#"@,
        CssProperty::BackgroundPositionY => "[ center | [ [ top | bottom | y-start | y-end ]? <length-percentage>? ]! ]#"@,
        CssProperty::BackgroundRepeat => "<repeat-style>#"@,
        CssProperty::BackgroundRepeatBlock => "<repetition>#"@,
        CssProperty::BackgroundRepeatInline => "<repetition>#"@,
        CssProperty::BackgroundRepeatX => "<repetition>#"@,
        CssProperty::BackgroundRepeatY => "<repetition>#"@,
        CssProperty::BackgroundSize => "<bg-size>#"@,
        CssProperty::BackgroundTbd => "<bg-layer>#"@,
        CssProperty::BaselineShift => "<length-percentage> | sub | super | top | center | bottom"@,
        CssProperty::BaselineSource => "auto | first | last"@,
        CssProperty::BlockEllipsis => "no-ellipsis | auto | <string>"@,
        CssProperty::BlockSize => "<'width'>"@,
        CssProperty::BlockStep => "<'block-step-size'> || <'block-step-insert'> || <'block-step-align'> || <'block-step-round'>"@,
        CssProperty::BlockStepAlign => "auto | center | start | end"@,
        CssProperty::BlockStepInsert => "margin-box | padding-box | content-box"@,
        CssProperty::BlockStepRound => "up | down | nearest"@,
        CssProperty::BlockStepSize => "none | <length [0,∞]>"@,
        CssProperty::BookmarkLabel => "<content-list>"@,
        CssProperty::BookmarkLevel => "none | <integer [1,∞]>"@,
        CssProperty::BookmarkState => "open | closed"@,
        CssProperty::Border => "<line-width> || <line-style> || <color>"@,
        CssProperty::BorderBlock => "<'border-block-start'>"@,
        CssProperty::BorderBlockClip => "<'border-top-clip'>"@,
        CssProperty::BorderBlockColor => "<'border-top-color'>{1,2}"@,
        CssProperty::BorderBlockEnd => "<line-width> || <line-style> || <color>"@,
        CssProperty::BorderBlockEndClip => "none | [ <length-percentage [0,∞]> | <flex> ]+"@,
        CssProperty::BorderBlockEndColor => "<color> | <image-1D>"@,
        CssProperty::BorderBlockEndRadius => "<length-percentage [0,∞]>{1,2} [ / <length-percentage [0,∞]>{1,2} ]?"@,
        CssProperty::BorderBlockEndStyle => "<line-style>"@,
        CssProperty::BorderBlockEndWidth => "<line-width>"@,
        CssProperty::BorderBlockStart => "<line-width> || <line-style> || <color>"@,
        CssProperty::BorderBlockStartClip => "none | [ <length-percentage [0,∞]> | <flex> ]+"@,
        CssProperty::BorderBlockStartColor => "<color> | <image-1D>"@,
        CssProperty::BorderBlockStartRadius => "<length-percentage [0,∞]>{1,2} [ / <length-percentage [0,∞]>{1,2} ]?"@,
        CssProperty::BorderBlockStartStyle => "<line-style>"@,
        CssProperty::BorderBlockStartWidth => "<line-width>"@,
        CssProperty::BorderBlockStyle => "<'border-top-style'>{1,2}"@,
        CssProperty::BorderBlockWidth => "<'border-top-width'>{1,2}"@,
        CssProperty::BorderBottom => "<line-width> || <line-style> || <color>"@,
        CssProperty::BorderBottomClip => "none | [ <length-percentage [0,∞]> | <flex> ]+"@,
        CssProperty::BorderBottomColor => "<color> | <image-1D>"@,
        CssProperty::BorderBottomLeftRadius => "<border-radius>"@,
        CssProperty::BorderBottomRadius => "<length-percentage [0,∞]>{1,2} [ / <length-percentage [0,∞]>{1,2} ]?"@,
        CssProperty::BorderBottomRightRadius => "<border-radius>"@,
        CssProperty::BorderBottomStyle => "<line-style>"@,
        CssProperty::BorderBottomWidth => "<line-width>"@,
        CssProperty::BorderBoundary => "none | parent | display"@,
        CssProperty::BorderClip => "<'border-top-clip'>"@,
        CssProperty::BorderCollapse => "separate | collapse"@,
        CssProperty::BorderColor => "[ <color> | <image-1D> ]{1,4}"@,
        CssProperty::BorderEndEndRadius => "<border-radius>"@,
        CssProperty::BorderEndStartRadius => "<border-radius>"@,
        CssProperty::BorderImage => "<'border-image-source'> || <'border-image-slice'> [ / <'border-image-width'> | / <'border-image-width'>? / <'border-image-outset'> ]? || <'border-image-repeat'>"@,
        CssProperty::BorderImageOutset => "[ <length [0,∞]> | <number [0,∞]> ]{1,4}"@,
        CssProperty::BorderImageRepeat => "[ stretch | repeat | round | space ]{1,2}"@,
        CssProperty::BorderImageSlice => "[<number [0,∞]> | <percentage [0,∞]>]{1,4} && fill?"@,
        CssProperty::BorderImageSource => "none | <image>"@,
        CssProperty::BorderImageWidth => "[ <length-percentage [0,∞]> | <number [0,∞]> | auto ]{1,4}"@,
        CssProperty::BorderInline => "<'border-block-start'>"@,
        CssProperty::BorderInlineClip => "<'border-top-clip'>"@,
        CssProperty::BorderInlineColor => "<'border-top-color'>{1,2}"@,
        CssProperty::BorderInlineEnd => "<line-width> || <line-style> || <color>"@,
        CssProperty::BorderInlineEndClip => "none | [ <length-percentage [0,∞]> | <flex> ]+"@,
        CssProperty::BorderInlineEndColor => "<color> | <image-1D>"@,
        CssProperty::BorderInlineEndRadius => "<length-percentage [0,∞]>{1,2} [ / <length-percentage [0,∞]>{1,2} ]?"@,
        CssProperty::BorderInlineEndStyle => "<line-style>"@,
        CssProperty::BorderInlineEndWidth => "<line-width>"@,
        CssProperty::BorderInlineStart => "<line-width> || <line-style> || <color>"@,
        CssProperty::BorderInlineStartClip => "none | [ <length-percentage [0,∞]> | <flex> ]+"@,
        CssProperty::BorderInlineStartColor => "<color> | <image-1D>"@,
        CssProperty::BorderInlineStartRadius => "<length-percentage [0,∞]>{1,2} [ / <length-percentage [0,∞]>{1,2} ]?"@,
        CssProperty::BorderInlineStartStyle => "<line-style>"@,
        CssProperty::BorderInlineStartWidth => "<line-width>"@,
        CssProperty::BorderInlineStyle => "<'border-top-style'>{1,2}"@,
        CssProperty::BorderInlineWidth => "<'border-top-width'>{1,2}"@,
        CssProperty::BorderLeft => "<line-width> || <line-style> || <color>"@,
        CssProperty::BorderLeftClip => "none | [ <length-percentage [0,∞]> | <flex> ]+"@,
        CssProperty::BorderLeftColor => "<color> | <image-1D>"@,
        CssProperty::BorderLeftRadius => "<length-percentage [0,∞]>{1,2} [ / <length-percentage [0,∞]>{1,2} ]?"@,
        CssProperty::BorderLeftStyle => "<line-style>"@,
        CssProperty::BorderLeftWidth => "<line-width>"@,
        CssProperty::BorderLimit => "all | [ sides | corners ] <length-percentage [0,∞]>? | [ top | right | bottom | left ] <length-percentage [0,∞]>"@,
        CssProperty::BorderRadius => "<length-percentage [0,∞]>{1,4} [ / <length-percentage [0,∞]>{1,4} ]?"@,
        CssProperty::BorderRight => "<line-width> || <line-style> || <color>"@,
        CssProperty::BorderRightClip => "none | [ <length-percentage [0,∞]> | <flex> ]+"@,
        CssProperty::BorderRightColor => "<color> | <image-1D>"@,
        CssProperty::BorderRightRadius => "<length-percentage [0,∞]>{1,2} [ / <length-percentage [0,∞]>{1,2} ]?"@,
        CssProperty::BorderRightStyle => "<line-style>"@,
        CssProperty::BorderRightWidth => "<line-width>"@,
        CssProperty::BorderShape => "none | [ <basic-shape> <geometry-box>?]{1,2}"@,
        CssProperty::BorderSpacing => "<length [0,∞]>{1,2}"@,
        _ => documented_syntax_from_200(property),
    }
}

/// `documented_syntax` from the 200-th property on.
pub open spec fn documented_syntax_from_200(property: CssProperty) -> Seq<char> {
    match property {
        CssProperty::BorderStartEndRadius => "<border-radius>"@,
        CssProperty::BorderStartStartRadius => "<border-radius>"@,
        CssProperty::BorderStyle => "<'border-top-style'>{1,4}"@,
        CssProperty::BorderTop => "<line-width> || <line-style> || <color>"@,
        CssProperty::BorderTopClip => "none | [ <length-percentage [0,∞]> | <flex> ]+"@,
        CssProperty::BorderTopColor => "<color> | <image-1D>"@,
        CssProperty::BorderTopLeftRadius => "<border-radius>"@,
        CssProperty::BorderTopRadius => "<length-percentage [0,∞]>{1,2} [ / <length-percentage [0,∞]>{1,2} ]?"@,
        CssProperty::BorderTopRightRadius => "<border-radius>"@,
        CssProperty::BorderTopStyle => "<line-style>"@,
        CssProperty::BorderTopWidth => "<line-width>"@,
        CssProperty::BorderWidth => "<'border-top-width'>{1,4}"@,
        CssProperty::Bottom => "auto | <length-percentage> | <anchor()> | <anchor-size()>"@,
        CssProperty::BoxDecorationBreak => "slice | clone"@,
        CssProperty::BoxShadow => "<spread-shadow>#"@,
        CssProperty::BoxShadowBlur => "<length [0,∞]>#"@,
        CssProperty::BoxShadowColor => "<color>#"@,
        CssProperty::BoxShadowOffset => "[ none | <length>{1,2} ]#"@,
        CssProperty::BoxShadowPosition => "[ outset | inset ]#"@,
        CssProperty::BoxShadowSpread => "<length>#"@,
        CssProperty::BoxSizing => "content-box | border-box"@,
        CssProperty::BoxSnap => "none | block-start | block-end | center | baseline | last-baseline"@,
        CssProperty::BreakAfter => "auto | avoid | always | all | avoid-page | page | left | right | recto | verso | avoid-column | column | avoid-region | region"@,
        CssProperty::BreakBefore => "auto | avoid | always | all | avoid-page | page | left | right | recto | verso | avoid-column | column | avoid-region | region"@,
        CssProperty::BreakInside => "auto | avoid | avoid-page | avoid-column | avoid-region"@,
        CssProperty::CaptionSide => "top | bottom"@,
        CssProperty::Caret => "<'caret-color'> || <'caret-animation'> || <'caret-shape'>"@,
        CssProperty::CaretAnimation => "auto | manual"@,
        CssProperty::CaretColor => "auto | <color> [auto | <color>]?"@,
        CssProperty::CaretShape => "auto | bar | block | underscore"@,
        CssProperty::Clear => "inline-start | inline-end | block-start | block-end | left | right | top | bottom | both-inline | both-block | both | none"@,
        CssProperty::Clip => "<rect()> | auto"@,
        CssProperty::ClipPath => "<clip-source> | [ <basic-shape> || <geometry-box> ] | none"@,
        CssProperty::ClipRule => "nonzero | evenodd"@,
        CssProperty::Color => "<color>"@,
        CssProperty::ColorAdjust => "<'print-color-adjust'>"@,
        CssProperty::ColorInterpolation => "auto | sRGB | linearRGB"@,
        CssProperty::ColorInterpolationFilters => "auto | sRGB | linearRGB"@,
        CssProperty::ColorScheme => "normal | [ light | dark | <custom-ident> ]+ && only?"@,
        CssProperty::ColumnCount => "auto | <integer [1,∞]>"@,
        CssProperty::ColumnFill => "auto | balance | balance-all"@,
        CssProperty::ColumnGap => "normal | <length-percentage [0,∞]> | <line-width>"@,
        CssProperty::ColumnHeight => "auto | <length [0,∞]>"@,
        CssProperty::ColumnRule => "<gap-rule-list> | <gap-auto-rule-list>"@,
        CssProperty::ColumnRuleBreak => "none | normal | intersection"@,
        CssProperty::ColumnRuleColor => "<line-color-list> | <auto-line-color-list>"@,
        CssProperty::ColumnRuleInset => "<'column-rule-inset-cap'> [ / <'column-rule-inset-junction'> ]?"@,
        CssProperty::ColumnRuleInsetCap => "<length-percentage> [ <length-percentage> ]?"@,
        CssProperty::ColumnRuleInsetCapEnd => "<length-percentage>"@,
        CssProperty::ColumnRuleInsetCapStart => "<length-percentage>"@,
        CssProperty::ColumnRuleInsetEnd => "<length-percentage>"@,
        CssProperty::ColumnRuleInsetJunction => "<length-percentage> [ <length-percentage> ]?"@,
        CssProperty::ColumnRuleInsetJunctionEnd => "<length-percentage>"@,
        CssProperty::ColumnRuleInsetJunctionStart => "<length-percentage>"@,
        CssProperty::ColumnRuleInsetStart => "<length-percentage>"@,
        CssProperty::ColumnRuleStyle => "<line-style-list> | <auto-line-style-list>"@,
        CssProperty::ColumnRuleVisibilityItems => "all | around | between | normal"@,
        CssProperty::ColumnRuleWidth => "<line-width-list> | <auto-line-width-list>"@,
        CssProperty::ColumnSpan => "none | <integer [1,∞]> | all | auto"@,
        CssProperty::ColumnWidth => "auto | <length [0,∞]> | min-content | max-content | fit-content(<length-percentage>)"@,
        CssProperty::ColumnWrap => "auto | nowrap | wrap"@,
        CssProperty::Columns => "[ <'column-width'> || <'column-count'> ] [ / <'column-height'> ]?"@,
        CssProperty::Contain => "none | strict | content | [ [size | inline-size] || layout || style || paint ]"@,
        CssProperty::ContainIntrinsicBlockSize => "auto? [ none | <length [0,∞]> ]"@,
        CssProperty::ContainIntrinsicHeight => "auto? [ none | <length [0,∞]> ]"@,
        CssProperty::ContainIntrinsicInlineSize => "auto? [ none | <length [0,∞]> ]"@,
        CssProperty::ContainIntrinsicSize => "[ auto? [ none | <length [0,∞]> ] ]{1,2}"@,
        CssProperty::ContainIntrinsicWidth => "auto? [ none | <length [0,∞]> ]"@,
        CssProperty::Container => "<'container-name'> [ / <'container-type'> ]?"@,
        CssProperty::ContainerName => "none | <custom-ident>+"@,
        CssProperty::ContainerType => "normal | [ [ size | inline-size ] || scroll-state ]"@,
        CssProperty::Content => "normal | none | [ <content-replacement> | <content-list> ] [/ [ <string> | <counter> | <attr()> ]+ ]? | <element()>"@,
        CssProperty::ContentVisibility => "visible | auto | hidden"@,
        CssProperty::Continue => "auto | discard | collapse | -webkit-legacy | overflow | paginate | fragments"@,
        CssProperty::CopyInto => "none | [ [ <custom-ident> <content-level>] [, <custom-ident> <content-level>]* ]?"@,
        CssProperty::Corner => "<'border-radius'> || <'corner-shape'>"@,
        CssProperty::CornerBlockEnd => "<'border-top-radius'> || <'corner-top-shape'>"@,
        CssProperty::CornerBlockEndShape => "<'corner-top-left-shape'>{1,2}"@,
        CssProperty::CornerBlockStart => "<'border-top-radius'> || <'corner-top-shape'>"@,
        CssProperty::CornerBlockStartShape => "<'corner-top-left-shape'>{1,2}"@,
        CssProperty::CornerBottom => "<'border-top-radius'> || <'corner-top-shape'>"@,
        CssProperty::CornerBottomLeft => "<'border-top-left-radius'> || <'corner-top-left-shape'>"@,
        CssProperty::CornerBottomLeftShape => "<corner-shape-value>"@,
        CssProperty::CornerBottomRight => "<'border-top-left-radius'> || <'corner-top-left-shape'>"@,
        CssProperty::CornerBottomRightShape => "<corner-shape-value>"@,
        CssProperty::CornerBottomShape => "<'corner-top-left-shape'>{1,2}"@,
        CssProperty::CornerEndEnd => "<'border-top-left-radius'> || <'corner-top-left-shape'>"@,
        CssProperty::CornerEndEndShape => "<corner-shape-value>"@,
        CssProperty::CornerEndStart => "<'border-top-left-radius'> || <'corner-top-left-shape'>"@,
        CssProperty::CornerEndStartShape => "<corner-shape-value>"@,
        CssProperty::CornerInlineEnd => "<'border-top-radius'> || <'corner-top-shape'>"@,
        CssProperty::CornerInlineEndShape => "<'corner-top-left-shape'>{1,2}"@,
        CssProperty::CornerInlineStart => "<'border-top-radius'> || <'corner-top-shape'>"@,
        CssProperty::CornerInlineStartShape => "<'corner-top-left-shape'>{1,2}"@,
        CssProperty::CornerLeft => "<'border-top-radius'> || <'corner-top-shape'>"@,
        CssProperty::CornerLeftShape => "<'corner-top-left-shape'>{1,2}"@,
        CssProperty::CornerRight => "<'border-top-radius'> || <'corner-top-shape'>"@,
        CssProperty::CornerRightShape => "<'corner-top-left-shape'>{1,2}"@,
        CssProperty::CornerShape => "<'corner-top-left-shape'>{1,4}"@,
        CssProperty::CornerStartEnd => "<'border-top-left-radius'> || <'corner-top-left-shape'>"@,
        _ => documented_syntax_from_300(property),
    }
}

/// `documented_syntax` from the 300-th property on.
pub open spec fn documented_syntax_from_300(property: CssProperty) -> Seq<char> {
    match property {
        CssProperty::CornerStartEndShape => "<corner-shape-value>"@,
        CssProperty::CornerStartStart => "<'border-top-left-radius'> || <'corner-top-left-shape'>"@,
        CssProperty::CornerStartStartShape => "<corner-shape-value>"@,
        CssProperty::CornerTop => "<'border-top-radius'> || <'corner-top-shape'>"@,
        CssProperty::CornerTopLeft => "<'border-top-left-radius'> || <'corner-top-left-shape'>"@,
        CssProperty::CornerTopLeftShape => "<corner-shape-value>"@,
        CssProperty::CornerTopRight => "<'border-top-left-radius'> || <'corner-top-left-shape'>"@,
        CssProperty::CornerTopRightShape => "<corner-shape-value>"@,
        CssProperty::CornerTopShape => "<'corner-top-left-shape'>{1,2}"@,
        CssProperty::CounterIncrement => "[ <counter-name> <integer>? ]+ | none"@,
        CssProperty::CounterReset => "[ <counter-name> <integer>? | <reversed-counter-name> <integer>? ]+ | none"@,
        CssProperty::CounterSet => "[ <counter-name> <integer>? ]+ | none"@,
        CssProperty::Cue => "<'cue-before'> <'cue-after'>?"@,
        CssProperty::CueAfter => "<url> <decibel>? | none"@,
        CssProperty::CueBefore => "<url> <decibel>? | none"@,
        CssProperty::Cursor => "[<cursor-image>,]* <cursor-predefined>"@,
        CssProperty::Cx => "<length-percentage>"@,
        CssProperty::Cy => "<length-percentage>"@,
        CssProperty::D => "none | <string>"@,
        CssProperty::Direction => "ltr | rtl"@,
        CssProperty::Display => "[ <display-outside> || <display-inside> ] | <display-listitem> | <display-internal> | <display-box> | <display-legacy> | grid-lanes | inline-grid-lanes | <display-outside> || [ <display-inside> | math ]"@,
        CssProperty::DominantBaseline => "auto | <baseline-metric>"@,
        CssProperty::DynamicRangeLimit => "standard | no-limit | constrained | <dynamic-range-limit-mix()>"@,
        CssProperty::EmptyCells => "show | hide"@,
        CssProperty::EventTrigger => "none | [ <'event-trigger-name'> <'event-trigger-source'> ]#"@,
        CssProperty::EventTriggerName => "none | <dashed-ident>#"@,
        CssProperty::EventTriggerSource => "[ none | <event-trigger-event>+ [ / <event-trigger-event>+ ]? ]#"@,
        CssProperty::FieldSizing => "fixed | content"@,
        CssProperty::Fill => "<paint>"@,
        CssProperty::FillBreak => "bounding-box | slice | clone"@,
        CssProperty::FillColor => "<color>"@,
        CssProperty::FillImage => "<paint>#"@,
        CssProperty::FillOpacity => "<'opacity'>"@,
        CssProperty::FillOrigin => "match-parent | fill-box | stroke-box | content-box | padding-box | border-box"@,
        CssProperty::FillPosition => "<position>#"@,
        CssProperty::FillRepeat => "<repeat-style>#"@,
        CssProperty::FillRule => "nonzero | evenodd"@,
        CssProperty::FillSize => "<bg-size>#"@,
        CssProperty::Filter => "none | <filter-value-list>"@,
        CssProperty::Flex => "none | [ <'flex-grow'> <'flex-shrink'>? || <'flex-basis'> ]"@,
        CssProperty::FlexBasis => "content | <'width'>"@,
        CssProperty::FlexDirection => "row | row-reverse | column | column-reverse"@,
        CssProperty::FlexFlow => "<'flex-direction'> || <'flex-wrap'>"@,
        CssProperty::FlexGrow => "<number [0,∞]>"@,
        CssProperty::FlexShrink => "<number [0,∞]>"@,
        CssProperty::FlexWrap => "nowrap | wrap | wrap-reverse"@,
        CssProperty::Float => "block-start | block-end | inline-start | inline-end | snap-block | <snap-block()> | snap-inline | <snap-inline()> | left | right | top | bottom | none | footnote"@,
        CssProperty::FloatDefer => "<integer> | last | none"@,
        CssProperty::FloatOffset => "<length-percentage>"@,
        CssProperty::FloatReference => "inline | column | region | page"@,
        CssProperty::FloodColor => "<color>"@,
        CssProperty::FloodOpacity => "<'opacity'>"@,
        CssProperty::FlowFrom => "<custom-ident> | none"@,
        CssProperty::FlowInto => "none | <custom-ident> [element | content]?"@,
        CssProperty::FlowTolerance => "normal | <length-percentage> | infinite"@,
        CssProperty::Font => "[ [ <'font-style'> || <font-variant-css2> || <'font-weight'> || <font-width-css3> ]? <'font-size'> [ / <'line-height'> ]? <'font-family'># ] | <system-font-family-name>"@,
        CssProperty::FontFamily => "[ <font-family-name> | <generic-font-family> ]#"@,
        CssProperty::FontFeatureSettings => "normal | <feature-tag-value>#"@,
        CssProperty::FontKerning => "auto | normal | none"@,
        CssProperty::FontLanguageOverride => "normal | <string>"@,
        CssProperty::FontOpticalSizing => "auto | none"@,
        CssProperty::FontPalette => "normal | light | dark | <palette-identifier> | <palette-mix()>"@,
        CssProperty::FontSize => "<absolute-size> | <relative-size> | <length-percentage [0,∞]> | math"@,
        CssProperty::FontSizeAdjust => "none | [ ex-height | cap-height | ch-width | ic-width | ic-height ]? [ from-font | <number [0,∞]> ]"@,
        CssProperty::FontStretch => "normal | <percentage [0,∞]> | ultra-condensed | extra-condensed | condensed | semi-condensed | semi-expanded | expanded | extra-expanded | ultra-expanded"@,
        CssProperty::FontStyle => "normal | italic | left | right | oblique <angle [-90deg,90deg]>?"@,
        CssProperty::FontSynthesis => "none | [ weight || style || small-caps || position]"@,
        CssProperty::FontSynthesisPosition => "auto | none"@,
        CssProperty::FontSynthesisSmallCaps => "auto | none"@,
        CssProperty::FontSynthesisStyle => "auto | none | oblique-only"@,
        CssProperty::FontSynthesisWeight => "auto | none"@,
        CssProperty::FontVariant => "normal | none | [ [ <common-lig-values> || <discretionary-lig-values> || <historical-lig-values> || <contextual-alt-values> ] || [ small-caps | all-small-caps | petite-caps | all-petite-caps | unicase | titling-caps ] || [ stylistic(<font-feature-value-name>) || historical-forms || styleset(<font-feature-value-name>#) || character-variant(<font-feature-value-name>#) || swash(<font-feature-value-name>) || ornaments(<font-feature-value-name>) || annotation(<font-feature-value-name>) ] || [ <numeric-figure-values> || <numeric-spacing-values> || <numeric-fraction-values> || ordinal || slashed-zero ] || [ <east-asian-variant-values> || <east-asian-width-values> || ruby ] || [ sub | super ] || [ text | emoji | unicode ] ]"@,
        CssProperty::FontVariantAlternates => "normal | [ stylistic(<font-feature-value-name>) || historical-forms || styleset(<font-feature-value-name>#) || character-variant(<font-feature-value-name>#) || swash(<font-feature-value-name>) || ornaments(<font-feature-value-name>) || annotation(<font-feature-value-name>) ]"@,
        CssProperty::FontVariantCaps => "normal | small-caps | all-small-caps | petite-caps | all-petite-caps | unicase | titling-caps"@,
        CssProperty::FontVariantEastAsian => "normal | [ <east-asian-variant-values> || <east-asian-width-values> || ruby ]"@,
        CssProperty::FontVariantEmoji => "normal | text | emoji | unicode"@,
        CssProperty::FontVariantLigatures => "normal | none | [ <common-lig-values> || <discretionary-lig-values> || <historical-lig-values> || <contextual-alt-values> ]"@,
        CssProperty::FontVariantNumeric => "normal | [ <numeric-figure-values> || <numeric-spacing-values> || <numeric-fraction-values> || ordinal || slashed-zero ]"@,
        CssProperty::FontVariantPosition => "normal | sub | super"@,
        CssProperty::FontVariationSettings => "normal | [ <opentype-tag> <number> ]#"@,
        CssProperty::FontWeight => "<font-weight-absolute> | bolder | lighter"@,
        CssProperty::FontWidth => "normal | <percentage [0,∞]> | ultra-condensed | extra-condensed | condensed | semi-condensed | semi-expanded | expanded | extra-expanded | ultra-expanded"@,
        CssProperty::FootnoteDisplay => "block | inline | compact"@,
        CssProperty::FootnotePolicy => "auto | line | block"@,
        CssProperty::ForcedColorAdjust => "auto | none | preserve-parent-color"@,
        CssProperty::FrameSizing => "auto | content-width | content-height | content-block-size | content-inline-size"@,
        CssProperty::Gap => "<'row-gap'> <'column-gap'>?"@,
        CssProperty::GlyphOrientationVertical => "auto | 0deg | 90deg | 0 | 90"@,
        CssProperty::Grid => "<'grid-template'> | <'grid-template-rows'> / [ auto-flow && dense? ] <'grid-auto-columns'>? | [ auto-flow && dense? ] <'grid-auto-rows'>? / <'grid-template-columns'>"@,
        CssProperty::GridArea => "<grid-line> [ / <grid-line> ]{0,3}"@,
        CssProperty::GridAutoColumns => "<track-size>+"@,
        CssProperty::GridAutoFlow => "[ row | column ] || dense"@,
        CssProperty::GridAutoRows => "<track-size>+"@,
        CssProperty::GridColumn => "<grid-line> [ / <grid-line> ]?"@,
        CssProperty::GridColumnEnd => "<grid-line>"@,
        CssProperty::GridColumnGap => "normal | <length-percentage [0,∞]> | <line-width>"@,
        CssProperty::GridColumnStart => "<grid-line>"@,
        CssProperty::GridGap => "<'row-gap'> <'column-gap'>?"@,
        CssProperty::GridRow => "<grid-line> [ / <grid-line> ]?"@,
        CssProperty::GridRowEnd => "<grid-line>"@,
        _ => documented_syntax_from_400(property),
    }
}

/// `documented_syntax` from the 400-th property on.
pub open spec fn documented_syntax_from_400(property: CssProperty) -> Seq<char> {
    match property {
        CssProperty::GridRowGap => "normal | <length-percentage [0,∞]> | <line-width>"@,
        CssProperty::GridRowStart => "<grid-line>"@,
        CssProperty::GridTemplate => "none | [ <'grid-template-rows'> / <'grid-template-columns'> ] | [ <line-names>? <string> <track-size>? <line-names>? ]+ [ / <explicit-track-list> ]?"@,
        CssProperty::GridTemplateAreas => "none | <string>+"@,
        CssProperty::GridTemplateColumns => "none | <track-list> | <auto-track-list> | subgrid <line-name-list>?"@,
        CssProperty::GridTemplateRows => "none | <track-list> | <auto-track-list> | subgrid <line-name-list>?"@,
        CssProperty::HangingPunctuation => "none | [ first || [ force-end | allow-end ] || last ]"@,
        CssProperty::Height => "auto | <length-percentage [0,∞]> | min-content | max-content | fit-content(<length-percentage [0,∞]>) | <calc-size()> | <anchor-size()> | stretch | fit-content | contain"@,
        CssProperty::HyphenateCharacter => "auto | <string>"@,
        CssProperty::HyphenateLimitChars => "[ auto | <integer> ]{1,3}"@,
        CssProperty::HyphenateLimitLast => "none | always | column | page | spread"@,
        CssProperty::HyphenateLimitLines => "no-limit | <integer>"@,
        CssProperty::HyphenateLimitZone => "<length-percentage>"@,
        CssProperty::Hyphens => "none | manual | auto"@,
        CssProperty::ImageAnimation => "normal | paused | stopped | running"@,
        CssProperty::ImageOrientation => "from-image | none | [ <angle> || flip ]"@,
        CssProperty::ImageRendering => "auto | smooth | high-quality | pixelated | crisp-edges"@,
        CssProperty::ImageResolution => "[ from-image || <resolution> ] && snap?"@,
        CssProperty::InitialLetter => "normal | <number [1,∞]> <integer [1,∞]> | <number [1,∞]> && [ drop | raise ]?"@,
        CssProperty::InitialLetterAlign => "[ border-box? [ alphabetic | ideographic | hanging | leading ]? ]!"@,
        CssProperty::InitialLetterWrap => "none | first | all | grid | <length-percentage>"@,
        CssProperty::InlineSize => "<'width'>"@,
        CssProperty::InlineSizing => "normal | stretch"@,
        CssProperty::InputSecurity => "auto | none"@,
        CssProperty::Inset => "<'top'>{1,4}"@,
        CssProperty::InsetBlock => "<'top'>{1,2}"@,
        CssProperty::InsetBlockEnd => "auto | <length-percentage>"@,
        CssProperty::InsetBlockStart => "auto | <length-percentage>"@,
        CssProperty::InsetInline => "<'top'>{1,2}"@,
        CssProperty::InsetInlineEnd => "auto | <length-percentage>"@,
        CssProperty::InsetInlineStart => "auto | <length-percentage>"@,
        CssProperty::Interactivity => "auto | inert"@,
        CssProperty::InterestDelay => "<'interest-delay-start'>{1,2}"@,
        CssProperty::InterestDelayEnd => "normal | <time>"@,
        CssProperty::InterestDelayStart => "normal | <time>"@,
        CssProperty::InterpolateSize => "numeric-only | allow-keywords"@,
        CssProperty::Isolation => "<isolation-mode>"@,
        CssProperty::JustifyContent => "normal | <content-distribution> | <overflow-position>? [ <content-position> | left | right ]"@,
        CssProperty::JustifyItems => "normal | stretch | <baseline-position> | <overflow-position>? [ <self-position> | left | right ] | legacy | legacy && [ left | right | center ]"@,
        CssProperty::JustifySelf => "auto | <overflow-position>? [ normal | <self-position> | left | right ] | stretch | <baseline-position> | anchor-center"@,
        CssProperty::Left => "auto | <length-percentage> | <anchor()> | <anchor-size()>"@,
        CssProperty::LetterSpacing => "normal | <length-percentage>"@,
        CssProperty::LightingColor => "<color>"@,
        CssProperty::LineBreak => "auto | loose | normal | strict | anywhere"@,
        CssProperty::LineClamp => "none | [<integer [1,∞]> || <'block-ellipsis'>] -webkit-legacy?"@,
        CssProperty::LineFitEdge => "leading | <text-edge>"@,
        CssProperty::LineGrid => "match-parent | create"@,
        CssProperty::LineHeight => "normal | <number [0,∞]> | <length-percentage [0,∞]>"@,
        CssProperty::LineHeightStep => "<length [0,∞]>"@,
        CssProperty::LinePadding => "<length>"@,
        CssProperty::LineSnap => "none | baseline | contain"@,
        CssProperty::LinkParameters => "none | <param()>#"@,
        CssProperty::ListStyle => "<'list-style-position'> || <'list-style-image'> || <'list-style-type'>"@,
        CssProperty::ListStyleImage => "<image> | none"@,
        CssProperty::ListStylePosition => "inside | outside"@,
        CssProperty::ListStyleType => "<counter-style> | <string> | none"@,
        CssProperty::Margin => "<'margin-top'>{1,4}"@,
        CssProperty::MarginBlock => "<'margin-top'>{1,2}"@,
        CssProperty::MarginBlockEnd => "<'margin-top'>"@,
        CssProperty::MarginBlockStart => "<'margin-top'>"@,
        CssProperty::MarginBottom => "<length-percentage> | auto | <anchor-size()>"@,
        CssProperty::MarginBreak => "auto | keep | discard"@,
        CssProperty::MarginInline => "<'margin-top'>{1,2}"@,
        CssProperty::MarginInlineEnd => "<'margin-top'>"@,
        CssProperty::MarginInlineStart => "<'margin-top'>"@,
        CssProperty::MarginLeft => "<length-percentage> | auto | <anchor-size()>"@,
        CssProperty::MarginRight => "<length-percentage> | auto | <anchor-size()>"@,
        CssProperty::MarginTop => "<length-percentage> | auto | <anchor-size()>"@,
        CssProperty::MarginTrim => "none | [ block || inline ] | [ block-start || inline-start || block-end || inline-end ]"@,
        CssProperty::Marker => "none | <marker-ref>"@,
        CssProperty::MarkerEnd => "none | <marker-ref>"@,
        CssProperty::MarkerMid => "none | <marker-ref>"@,
        CssProperty::MarkerSide => "match-self | match-parent"@,
        CssProperty::MarkerStart => "none | <marker-ref>"@,
        CssProperty::Mask => "<mask-layer>#"@,
        CssProperty::MaskBorder => "<'mask-border-source'> || <'mask-border-slice'> [ / <'mask-border-width'>? [ / <'mask-border-outset'> ]? ]? || <'mask-border-repeat'> || <'mask-border-mode'>"@,
        CssProperty::MaskBorderMode => "luminance | alpha"@,
        CssProperty::MaskBorderOutset => "<'border-image-outset'>"@,
        CssProperty::MaskBorderRepeat => "<'border-image-repeat'>"@,
        CssProperty::MaskBorderSlice => "<'border-image-slice'>"@,
        CssProperty::MaskBorderSource => "<'border-image-source'>"@,
        CssProperty::MaskBorderWidth => "<'border-image-width'>"@,
        CssProperty::MaskClip => "[ <coord-box> | no-clip ]#"@,
        CssProperty::MaskComposite => "<compositing-operator>#"@,
        CssProperty::MaskImage => "<mask-reference>#"@,
        CssProperty::MaskMode => "<masking-mode>#"@,
        CssProperty::MaskOrigin => "<coord-box>#"@,
        CssProperty::MaskPosition => "<position>#"@,
        CssProperty::MaskRepeat => "<repeat-style>#"@,
        CssProperty::MaskSize => "<bg-size>#"@,
        CssProperty::MaskType => "luminance | alpha"@,
        CssProperty::MathDepth => "auto-add | add(<integer>) | <integer>"@,
        CssProperty::MathShift => "normal | compact"@,
        CssProperty::MathStyle => "normal | compact"@,
        CssProperty::MaxBlockSize => "<'max-width'>"@,
        CssProperty::MaxHeight => "none | <length-percentage [0,∞]> | min-content | max-content | fit-content(<length-percentage [0,∞]>) | <calc-size()> | <anchor-size()> | stretch | fit-content | contain"@,
        CssProperty::MaxInlineSize => "<'max-width'>"@,
        CssProperty::MaxLines => "none | <integer [1,∞]>"@,
        CssProperty::MaxWidth => "none | <length-percentage [0,∞]> | min-content | max-content | fit-content(<length-percentage [0,∞]>) | <calc-size()> | <anchor-size()> | stretch | fit-content | contain"@,
        CssProperty::MinBlockSize => "<'min-width'>"@,
        _ => documented_syntax_from_500(property),
    }
}

/// `documented_syntax` from the 500-th property on.
pub open spec fn documented_syntax_from_500(property: CssProperty) -> Seq<char> {
    match property {
        CssProperty::MinHeight => "auto | <length-percentage [0,∞]> | min-content | max-content | fit-content(<length-percentage [0,∞]>) | <calc-size()> | <anchor-size()> | stretch | fit-content | contain"@,
        CssProperty::MinInlineSize => "<'min-width'>"@,
        CssProperty::MinIntrinsicSizing => "legacy | zero-if-scroll || zero-if-extrinsic"@,
        CssProperty::MinWidth => "auto | <length-percentage [0,∞]> | min-content | max-content | fit-content(<length-percentage [0,∞]>) | <calc-size()> | <anchor-size()> | stretch | fit-content | contain"@,
        CssProperty::MixBlendMode => "<blend-mode> | plus-lighter"@,
        CssProperty::NavDown => "auto | <id> [ current | root | <target-name> ]?"@,
        CssProperty::NavLeft => "auto | <id> [ current | root | <target-name> ]?"@,
        CssProperty::NavRight => "auto | <id> [ current | root | <target-name> ]?"@,
        CssProperty::NavUp => "auto | <id> [ current | root | <target-name> ]?"@,
        CssProperty::ObjectFit => "fill | none | [contain | cover] || scale-down"@,
        CssProperty::ObjectPosition => "<position>"@,
        CssProperty::ObjectViewBox => "none | <basic-shape-rect>"@,
        CssProperty::Offset => "[ <'offset-position'>? [ <'offset-path'> [ <'offset-distance'> || <'offset-rotate'> ]? ]? ]! [ / <'offset-anchor'> ]?"@,
        CssProperty::OffsetAnchor => "auto | <position>"@,
        CssProperty::OffsetDistance => "<length-percentage>"@,
        CssProperty::OffsetPath => "none | <offset-path> || <coord-box>"@,
        CssProperty::OffsetPosition => "normal | auto | <position>"@,
        CssProperty::OffsetRotate => "[ auto | reverse ] || <angle>"@,
        CssProperty::Opacity => "<opacity-value>"@,
        CssProperty::Order => "<integer>"@,
        CssProperty::Orphans => "<integer [1,∞]>"@,
        CssProperty::Outline => "<'outline-width'> || <'outline-style'> || <'outline-color'>"@,
        CssProperty::OutlineColor => "auto | <'border-top-color'>"@,
        CssProperty::OutlineOffset => "<length>"@,
        CssProperty::OutlineStyle => "auto | <outline-line-style>"@,
        CssProperty::OutlineWidth => "<line-width>"@,
        CssProperty::Overflow => "<'overflow-block'>{1,2}"@,
        CssProperty::OverflowAnchor => "auto | none"@,
        CssProperty::OverflowBlock => "visible | hidden | clip | scroll | auto"@,
        CssProperty::OverflowClipMargin => "<visual-box> || <length>"@,
        CssProperty::OverflowClipMarginBlock => "<visual-box> || <length>"@,
        CssProperty::OverflowClipMarginBlockEnd => "<visual-box> || <length>"@,
        CssProperty::OverflowClipMarginBlockStart => "<visual-box> || <length>"@,
        CssProperty::OverflowClipMarginBottom => "<visual-box> || <length>"@,
        CssProperty::OverflowClipMarginInline => "<visual-box> || <length>"@,
        CssProperty::OverflowClipMarginInlineEnd => "<visual-box> || <length>"@,
        CssProperty::OverflowClipMarginInlineStart => "<visual-box> || <length>"@,
        CssProperty::OverflowClipMarginLeft => "<visual-box> || <length>"@,
        CssProperty::OverflowClipMarginRight => "<visual-box> || <length>"@,
        CssProperty::OverflowClipMarginTop => "<visual-box> || <length>"@,
        CssProperty::OverflowInline => "visible | hidden | clip | scroll | auto"@,
        CssProperty::OverflowWrap => "normal | break-word | anywhere"@,
        CssProperty::OverflowX => "visible | hidden | clip | scroll | auto"@,
        CssProperty::OverflowY => "visible | hidden | clip | scroll | auto"@,
        CssProperty::Overlay => "none | auto"@,
        CssProperty::OverscrollBehavior => "[ contain | none | auto | chain ]{1,2}"@,
        CssProperty::OverscrollBehaviorBlock => "contain | none | auto | chain"@,
        CssProperty::OverscrollBehaviorInline => "contain | none | auto | chain"@,
        CssProperty::OverscrollBehaviorX => "contain | none | auto | chain"@,
        CssProperty::OverscrollBehaviorY => "contain | none | auto | chain"@,
        CssProperty::Padding => "<'padding-top'>{1,4}"@,
        CssProperty::PaddingBlock => "<'padding-top'>{1,2}"@,
        CssProperty::PaddingBlockEnd => "<'padding-top'>"@,
        CssProperty::PaddingBlockStart => "<'padding-top'>"@,
        CssProperty::PaddingBottom => "<length-percentage [0,∞]>"@,
        CssProperty::PaddingInline => "<'padding-top'>{1,2}"@,
        CssProperty::PaddingInlineEnd => "<'padding-top'>"@,
        CssProperty::PaddingInlineStart => "<'padding-top'>"@,
        CssProperty::PaddingLeft => "<length-percentage [0,∞]>"@,
        CssProperty::PaddingRight => "<length-percentage [0,∞]>"@,
        CssProperty::PaddingTop => "<length-percentage [0,∞]>"@,
        CssProperty::Page => "auto | <custom-ident>"@,
        CssProperty::PageBreakAfter => "auto | always | avoid | left | right | inherit"@,
        CssProperty::PageBreakBefore => "auto | always | avoid | left | right | inherit"@,
        CssProperty::PageBreakInside => "avoid | auto | inherit"@,
        CssProperty::PaintOrder => "normal | [ fill || stroke || markers ]"@,
        CssProperty::PathLength => "none | @@ unknown symbol \"number [0,∞]\""@,
        CssProperty::Pause => "<'pause-before'> <'pause-after'>?"@,
        CssProperty::PauseAfter => "<time [0s,∞]> | none | x-weak | weak | medium | strong | x-strong"@,
        CssProperty::PauseBefore => "<time [0s,∞]> | none | x-weak | weak | medium | strong | x-strong"@,
        CssProperty::Perspective => "none | <length [0,∞]>"@,
        CssProperty::PerspectiveOrigin => "<position>"@,
        CssProperty::PlaceContent => "<'align-content'> <'justify-content'>?"@,
        CssProperty::PlaceItems => "<'align-items'> <'justify-items'>?"@,
        CssProperty::PlaceSelf => "<'align-self'> <'justify-self'>?"@,
        CssProperty::PointerEvents => "auto | bounding-box | visiblePainted | visibleFill | visibleStroke | visible | painted | fill | stroke | all | none"@,
        CssProperty::PointerTimeline => "[ <'pointer-timeline-name'> <'pointer-timeline-axis'>? ]#"@,
        CssProperty::PointerTimelineAxis => "[ block | inline | x | y ]#"@,
        CssProperty::PointerTimelineName => "[ none | <dashed-ident> ]#"@,
        CssProperty::Position => "static | relative | absolute | sticky | fixed | <running()>"@,
        CssProperty::PositionAnchor => "normal | none | auto | <anchor-name> | match-parent"@,
        CssProperty::PositionArea => "none | <position-area>"@,
        CssProperty::PositionTry => "<'position-try-order'>? <'position-try-fallbacks'>"@,
        CssProperty::PositionTryFallbacks => "none | [ [<dashed-ident> || <try-tactic>] | <position-area> ]#"@,
        CssProperty::PositionTryOrder => "normal | <try-size>"@,
        CssProperty::PositionVisibility => "always | [ anchors-valid || anchors-visible || no-overflow ]"@,
        CssProperty::PrintColorAdjust => "economy | exact"@,
        CssProperty::Quotes => "auto | none | match-parent | [ <string> <string> ]+"@,
        CssProperty::R => "<length-percentage>"@,
        CssProperty::ReadingFlow => "normal | source-order | flex-visual | flex-flow | grid-rows | grid-columns | grid-order"@,
        CssProperty::ReadingOrder => "<integer>"@,
        CssProperty::RegionFragment => "auto | break"@,
        CssProperty::Resize => "none | both | horizontal | vertical | block | inline"@,
        CssProperty::Rest => "<'rest-before'> <'rest-after'>?"@,
        CssProperty::RestAfter => "<time [0s,∞]> | none | x-weak | weak | medium | strong | x-strong"@,
        CssProperty::RestBefore => "<time [0s,∞]> | none | x-weak | weak | medium | strong | x-strong"@,
        CssProperty::Right => "auto | <length-percentage> | <anchor()> | <anchor-size()>"@,
        CssProperty::Rotate => "none | <angle> | [ x | y | z | <number>{3} ] && <angle>"@,
        CssProperty::RowGap => "normal | <length-percentage [0,∞]> | <line-width>"@,
        CssProperty::RowRule => "<gap-rule-list> | <gap-auto-rule-list>"@,
        _ => documented_syntax_from_600(property),
    }
}

/// `documented_syntax` from the 600-th property on.
pub open spec fn documented_syntax_from_600(property: CssProperty) -> Seq<char> {
    match property {
        CssProperty::RowRuleBreak => "none | normal | intersection"@,
        CssProperty::RowRuleColor => "<line-color-list> | <auto-line-color-list>"@,
        CssProperty::RowRuleInset => "<'column-rule-inset-cap'> [ / <'column-rule-inset-junction'> ]?"@,
        CssProperty::RowRuleInsetCap => "<length-percentage> [ <length-percentage> ]?"@,
        CssProperty::RowRuleInsetCapEnd => "<length-percentage>"@,
        CssProperty::RowRuleInsetCapStart => "<length-percentage>"@,
        CssProperty::RowRuleInsetEnd => "<length-percentage>"@,
        CssProperty::RowRuleInsetJunction => "<length-percentage> [ <length-percentage> ]?"@,
        CssProperty::RowRuleInsetJunctionEnd => "<length-percentage>"@,
        CssProperty::RowRuleInsetJunctionStart => "<length-percentage>"@,
        CssProperty::RowRuleInsetStart => "<length-percentage>"@,
        CssProperty::RowRuleStyle => "<line-style-list> | <auto-line-style-list>"@,
        CssProperty::RowRuleVisibilityItems => "all | around | between | normal"@,
        CssProperty::RowRuleWidth => "<line-width-list> | <auto-line-width-list>"@,
        CssProperty::RubyAlign => "start | center | space-between | space-around"@,
        CssProperty::RubyMerge => "separate | merge | auto"@,
        CssProperty::RubyOverhang => "auto | spaces"@,
        CssProperty::RubyPosition => "[ alternate || [ over | under ] ] | inter-character"@,
        CssProperty::Rule => "<'column-rule'>"@,
        CssProperty::RuleBreak => "<'column-rule-break'>"@,
        CssProperty::RuleColor => "<'column-rule-color'>"@,
        CssProperty::RuleInset => "<'column-rule-inset'>"@,
        CssProperty::RuleInsetCap => "<'column-rule-inset-cap'>"@,
        CssProperty::RuleInsetEnd => "<'column-rule-inset-end'>"@,
        CssProperty::RuleInsetJunction => "<'column-rule-inset-junction'>"@,
        CssProperty::RuleInsetStart => "<'column-rule-inset-start'>"@,
        CssProperty::RuleOverlap => "row-over-column | column-over-row"@,
        CssProperty::RuleStyle => "<'column-rule-style'>"@,
        CssProperty::RuleVisibilityItems => "<'column-rule-visibility-items'>"@,
        CssProperty::RuleWidth => "<'column-rule-width'>"@,
        CssProperty::Rx => "<length-percentage> | auto"@,
        CssProperty::Ry => "<length-percentage> | auto"@,
        CssProperty::Scale => "none | [ <number> | <percentage> ]{1,3}"@,
        CssProperty::ScrollBehavior => "auto | smooth"@,
        CssProperty::ScrollInitialTarget => "none | nearest"@,
        CssProperty::ScrollMargin => "<length>{1,4}"@,
        CssProperty::ScrollMarginBlock => "<length>{1,2}"@,
        CssProperty::ScrollMarginBlockEnd => "<length>"@,
        CssProperty::ScrollMarginBlockStart => "<length>"@,
        CssProperty::ScrollMarginBottom => "<length>"@,
        CssProperty::ScrollMarginInline => "<length>{1,2}"@,
        CssProperty::ScrollMarginInlineEnd => "<length>"@,
        CssProperty::ScrollMarginInlineStart => "<length>"@,
        CssProperty::ScrollMarginLeft => "<length>"@,
        CssProperty::ScrollMarginRight => "<length>"@,
        CssProperty::ScrollMarginTop => "<length>"@,
        CssProperty::ScrollMarkerGroup => "none | [ [ before | after ] || [ links | tabs ] ]"@,
        CssProperty::ScrollPadding => "[ auto | <length-percentage [0,∞]> ]{1,4}"@,
        CssProperty::ScrollPaddingBlock => "[ auto | <length-percentage [0,∞]> ]{1,2}"@,
        CssProperty::ScrollPaddingBlockEnd => "auto | <length-percentage [0,∞]>"@,
        CssProperty::ScrollPaddingBlockStart => "auto | <length-percentage [0,∞]>"@,
        CssProperty::ScrollPaddingBottom => "auto | <length-percentage [0,∞]>"@,
        CssProperty::ScrollPaddingInline => "[ auto | <length-percentage [0,∞]> ]{1,2}"@,
        CssProperty::ScrollPaddingInlineEnd => "auto | <length-percentage [0,∞]>"@,
        CssProperty::ScrollPaddingInlineStart => "auto | <length-percentage [0,∞]>"@,
        CssProperty::ScrollPaddingLeft => "auto | <length-percentage [0,∞]>"@,
        CssProperty::ScrollPaddingRight => "auto | <length-percentage [0,∞]>"@,
        CssProperty::ScrollPaddingTop => "auto | <length-percentage [0,∞]>"@,
        CssProperty::ScrollSnapAlign => "[ none | start | end | center ]{1,2}"@,
        CssProperty::ScrollSnapStop => "normal | always"@,
        CssProperty::ScrollSnapType => "none | [ x | y | block | inline | both ] [ mandatory | proximity ]?"@,
        CssProperty::ScrollTargetGroup => "none | auto"@,
        CssProperty::ScrollTimeline => "[ <'scroll-timeline-name'> <'scroll-timeline-axis'>? ]#"@,
        CssProperty::ScrollTimelineAxis => "[ block | inline | x | y ]#"@,
        CssProperty::ScrollTimelineName => "[ none | <dashed-ident> ]#"@,
        CssProperty::ScrollbarColor => "auto | <color>{2}"@,
        CssProperty::ScrollbarGutter => "auto | stable && both-edges?"@,
        CssProperty::ScrollbarInset => "<length>{1,4}"@,
        CssProperty::ScrollbarMinThumbSize => "<length>"@,
        CssProperty::ScrollbarMode => "auto | classic | overlay | none"@,
        CssProperty::ScrollbarWidth => "auto | thin | none"@,
        CssProperty::ShapeImageThreshold => "<opacity-value>"@,
        CssProperty::ShapeInside => "auto | outside-shape | [ <basic-shape> || shape-box ] | <image> | display"@,
        CssProperty::ShapeMargin => "<length-percentage [0,∞]>"@,
        CssProperty::ShapeOutside => "none | [ <basic-shape> || <shape-box> ] | <image>"@,
        CssProperty::ShapePadding => "<length-percentage [0,∞]>"@,
        CssProperty::ShapeRendering => "auto | optimizeSpeed | crispEdges | geometricPrecision"@,
        CssProperty::SliderOrientation => "auto | left-to-right | right-to-left | top-to-bottom | bottom-to-top"@,
        CssProperty::SpatialNavigationAction => "auto | focus | scroll"@,
        CssProperty::SpatialNavigationContain => "auto | contain"@,
        CssProperty::SpatialNavigationFunction => "normal | grid"@,
        CssProperty::Speak => "auto | never | always"@,
        CssProperty::SpeakAs => "normal | spell-out || digits || [ literal-punctuation | no-punctuation ]"@,
        CssProperty::StopColor => "<'color'>"@,
        CssProperty::StopOpacity => "<'opacity'>"@,
        CssProperty::StringSet => "none | [ <custom-ident> <string>+ ]#"@,
        CssProperty::Stroke => "<paint>"@,
        CssProperty::StrokeAlign => "center | inset | outset"@,
        CssProperty::StrokeAlignment => "center | inner | outer"@,
        CssProperty::StrokeBreak => "bounding-box | slice | clone"@,
        CssProperty::StrokeColor => "<color>#"@,
        CssProperty::StrokeDashCornerPropdefStrokeDashCorner => "none | <length>"@,
        CssProperty::StrokeDashJustify => "none | [ stretch | compress ] || [ dashes || gaps ]"@,
        CssProperty::StrokeDashadjust => "none | [stretch | compress] [dashes | gaps]?"@,
        CssProperty::StrokeDasharray => "none | [<length-percentage> | <number>]+#"@,
        CssProperty::StrokeDashcornerStrokedashcornerproperty => "none | <length>"@,
        CssProperty::StrokeDashoffset => "<length-percentage> | <number>"@,
        CssProperty::StrokeImage => "<paint>#"@,
        CssProperty::StrokeLinecap => "butt | round | square"@,
        CssProperty::StrokeLinejoin => "[ crop | arcs | miter ] || [ bevel | round | fallback ]"@,
        _ => documented_syntax_from_700(property),
    }
}

/// `documented_syntax` from the 700-th property on.
pub open spec fn documented_syntax_from_700(property: CssProperty) -> Seq<char> {
    match property {
        CssProperty::StrokeMiterlimit => "<number>"@,
        CssProperty::StrokeOpacity => "<'opacity'>"@,
        CssProperty::StrokeOrigin => "match-parent | fill-box | stroke-box | content-box | padding-box | border-box"@,
        CssProperty::StrokePosition => "<position>#"@,
        CssProperty::StrokeRepeat => "<repeat-style>#"@,
        CssProperty::StrokeSize => "<bg-size>#"@,
        CssProperty::StrokeWidth => "[ <length-percentage> | <line-width> | <number> ]#"@,
        CssProperty::TabSize => "<number [0,∞]> | <length [0,∞]>"@,
        CssProperty::TableLayout => "auto | fixed"@,
        CssProperty::TextAlign => "start | end | left | right | center | <string> | justify | match-parent | justify-all"@,
        CssProperty::TextAlignAll => "start | end | left | right | center | <string> | justify | match-parent"@,
        CssProperty::TextAlignLast => "auto | start | end | left | right | center | justify | match-parent"@,
        CssProperty::TextAnchor => "start | middle | end"@,
        CssProperty::TextAutospace => "normal | <autospace> | auto"@,
        CssProperty::TextBox => "normal | <'text-box-trim'> || <'text-box-edge'>"@,
        CssProperty::TextBoxEdge => "auto | <text-edge>"@,
        CssProperty::TextBoxTrim => "none | trim-start | trim-end | trim-both"@,
        CssProperty::TextCombineUpright => "none | all | [ digits <integer [2,4]>? ]"@,
        CssProperty::TextDecoration => "<'text-decoration-line'> || <'text-decoration-thickness'> || <'text-decoration-style'> || <'text-decoration-color'>"@,
        CssProperty::TextDecorationColor => "<color>"@,
        CssProperty::TextDecorationInset => "<length>{1,2} | auto"@,
        CssProperty::TextDecorationLine => "none | [ underline || overline || line-through || blink ] | spelling-error | grammar-error"@,
        CssProperty::TextDecorationSkip => "none | auto"@,
        CssProperty::TextDecorationSkipBox => "none | all"@,
        CssProperty::TextDecorationSkipInk => "auto | none | all"@,
        CssProperty::TextDecorationSkipSelf => "auto | skip-all | [ skip-underline || skip-overline || skip-line-through ] | no-skip"@,
        CssProperty::TextDecorationSkipSpaces => "none | all | [ start || end ]"@,
        CssProperty::TextDecorationStyle => "solid | double | dotted | dashed | wavy"@,
        CssProperty::TextDecorationThickness => "auto | from-font | <length-percentage> | <line-width>"@,
        CssProperty::TextEmphasis => "<'text-emphasis-style'> || <'text-emphasis-color'>"@,
        CssProperty::TextEmphasisColor => "<color>"@,
        CssProperty::TextEmphasisPosition => "[ over | under ] && [ right | left ]?"@,
        CssProperty::TextEmphasisSkip => "spaces || punctuation || symbols || narrow"@,
        CssProperty::TextEmphasisStyle => "none | [ [ filled | open ] || [ dot | circle | double-circle | triangle | sesame ] ] | <string>"@,
        CssProperty::TextFit => "[ none | grow | shrink ] [consistent | per-line | per-line-all]? <percentage>?"@,
        CssProperty::TextGroupAlign => "none | start | end | left | right | center"@,
        CssProperty::TextIndent => "[ <length-percentage> ] && hanging? && each-line?"@,
        CssProperty::TextJustify => "[ auto | none | inter-word | inter-character | ruby ] || no-compress"@,
        CssProperty::TextOrientation => "mixed | upright | sideways"@,
        CssProperty::TextOverflow => "[ clip | ellipsis | <string> | fade | <fade()> ]{1,2}"@,
        CssProperty::TextRendering => "auto | optimizeSpeed | optimizeLegibility | geometricPrecision"@,
        CssProperty::TextShadow => "none | <shadow>#"@,
        CssProperty::TextSizeAdjust => "auto | none | <percentage [0,∞]>"@,
        CssProperty::TextSpacing => "none | auto | <spacing-trim> || <autospace>"@,
        CssProperty::TextSpacingTrim => "<spacing-trim> | auto"@,
        CssProperty::TextTransform => "none | [capitalize | uppercase | lowercase ] || full-width || full-size-kana | math-auto"@,
        CssProperty::TextUnderlineOffset => "auto | <length-percentage>"@,
        CssProperty::TextUnderlinePosition => "auto | [ from-font | under ] || [ left | right ]"@,
        CssProperty::TextWrap => "<'text-wrap-mode'> || <'text-wrap-style'>"@,
        CssProperty::TextWrapMode => "wrap | nowrap"@,
        CssProperty::TextWrapStyle => "auto | balance | stable | pretty | avoid-orphans"@,
        CssProperty::TimelineScope => "none | all | <dashed-ident>#"@,
        CssProperty::TimelineTrigger => "none | [ <'timeline-trigger-name'> <'timeline-trigger-source'> <'timeline-trigger-activation-range'> [ '/' <'timeline-trigger-active-range'> ]? ]#"@,
        CssProperty::TimelineTriggerActivationRange => "[ <'timeline-trigger-activation-range-start'> <'timeline-trigger-activation-range-end'>? ]#"@,
        CssProperty::TimelineTriggerActivationRangeEnd => "[ normal | <length-percentage> | <timeline-range-name> <length-percentage>? ]#"@,
        CssProperty::TimelineTriggerActivationRangeStart => "[ normal | <length-percentage> | <timeline-range-name> <length-percentage>? ]#"@,
        CssProperty::TimelineTriggerActiveRange => "[ <'timeline-trigger-active-range-start'> <'timeline-trigger-active-range-end'>? ]#"@,
        CssProperty::TimelineTriggerActiveRangeEnd => "[ auto | normal | <length-percentage> | <timeline-range-name> <length-percentage>? ]#"@,
        CssProperty::TimelineTriggerActiveRangeStart => "[ auto | normal | <length-percentage> | <timeline-range-name> <length-percentage>? ]#"@,
        CssProperty::TimelineTriggerName => "none | <dashed-ident>#"@,
        CssProperty::TimelineTriggerSource => "<single-animation-timeline>#"@,
        CssProperty::Top => "auto | <length-percentage> | <anchor()> | <anchor-size()>"@,
        CssProperty::TouchAction => "auto | none | [ [ pan-x | pan-left | pan-right ] || [ pan-y | pan-up | pan-down ] || pinch-zoom ] | manipulation"@,
        CssProperty::Transform => "none | <transform-list>"@,
        CssProperty::TransformBox => "content-box | border-box | fill-box | stroke-box | view-box"@,
        CssProperty::TransformOrigin => "[ left | center | right | top | bottom | <length-percentage> ] | [ left | center | right | <length-percentage> ] [ top | center | bottom | <length-percentage> ] <length>? | [ [ center | left | right ] && [ center | top | bottom ] ] <length>?"@,
        CssProperty::TransformStyle => "flat | preserve-3d"@,
        CssProperty::Transition => "<single-transition>#"@,
        CssProperty::TransitionBehavior => "<transition-behavior-value>#"@,
        CssProperty::TransitionDelay => "<time>#"@,
        CssProperty::TransitionDuration => "<time [0s,∞]>#"@,
        CssProperty::TransitionProperty => "none | <single-transition-property>#"@,
        CssProperty::TransitionTimingFunction => "<easing-function>#"@,
        CssProperty::Translate => "none | <length-percentage> [ <length-percentage> <length>? ]?"@,
        CssProperty::TriggerScope => "none | all | <dashed-ident>#"@,
        CssProperty::UnicodeBidi => "normal | embed | isolate | bidi-override | isolate-override | plaintext"@,
        CssProperty::UserSelect => "auto | text | none | contain | all"@,
        CssProperty::VectorEffect => "none | non-scaling-stroke | non-scaling-size | non-rotation | fixed-position"@,
        CssProperty::VerticalAlign => "[ first | last] || <'alignment-baseline'> || <'baseline-shift'>"@,
        CssProperty::ViewTimeline => "[ <'view-timeline-name'> [ <'view-timeline-axis'> || <'view-timeline-inset'> ]? ]#"@,
        CssProperty::ViewTimelineAxis => "[ block | inline | x | y ]#"@,
        CssProperty::ViewTimelineInset => "[ [ auto | <length-percentage> ]{1,2} ]#"@,
        CssProperty::ViewTimelineName => "[ none | <dashed-ident> ]#"@,
        CssProperty::ViewTransitionClass => "none | <custom-ident>+"@,
        CssProperty::ViewTransitionGroup => "normal | contain | nearest | <custom-ident>"@,
        CssProperty::ViewTransitionName => "none | <custom-ident>"@,
        CssProperty::ViewTransitionScope => "none | all"@,
        CssProperty::Visibility => "visible | hidden | force-hidden | collapse"@,
        CssProperty::VoiceBalance => "<number> | left | center | right | leftwards | rightwards"@,
        CssProperty::VoiceDuration => "auto | <time [0s,∞]>"@,
        CssProperty::VoiceFamily => "[ <voice-family-name> | <generic-voice> ]# | preserve"@,
        CssProperty::VoicePitch => "<frequency [0Hz,∞]> && absolute | [ [ x-low | low | medium | high | x-high ] || [ <frequency [0Hz,∞]> | <semitones> | <percentage> ] ]"@,
        CssProperty::VoiceRange => "<frequency [0Hz,∞]> && absolute | [ [ x-low | low | medium | high | x-high ] || [ <frequency [0Hz,∞]> | <semitones> | <percentage> ] ]"@,
        CssProperty::VoiceRate => "[ normal | x-slow | slow | medium | fast | x-fast ] || <percentage [0,∞]>"@,
        CssProperty::VoiceStress => "normal | strong | moderate | none | reduced"@,
        CssProperty::VoiceVolume => "silent | [ [ x-soft | soft | medium | loud | x-loud ] || <decibel> ]"@,
        CssProperty::WhiteSpace => "normal | pre | pre-wrap | pre-line | <'white-space-collapse'> || <'text-wrap-mode'> || <'white-space-trim'>"@,
        CssProperty::WhiteSpaceCollapse => "collapse | discard | preserve | preserve-breaks | preserve-spaces | break-spaces"@,
        CssProperty::WhiteSpaceTrim => "none | discard-before || discard-after || discard-inner"@,
        CssProperty::Widows => "<integer [1,∞]>"@,
        _ => documented_syntax_from_800(property),
    }
}

/// `documented_syntax` from the 800-th property on.
pub open spec fn documented_syntax_from_800(property: CssProperty) -> Seq<char> {
    match property {
        CssProperty::Width => "auto | <length-percentage [0,∞]> | min-content | max-content | fit-content(<length-percentage [0,∞]>) | <calc-size()> | <anchor-size()> | stretch | fit-content | contain"@,
        CssProperty::WillChange => "auto | <animateable-feature>#"@,
        CssProperty::WordBreak => "normal | break-all | keep-all | manual | auto-phrase | break-word"@,
        CssProperty::WordSpaceTransform => "none | [ space | ideographic-space ] && auto-phrase?"@,
        CssProperty::WordSpacing => "normal | <length-percentage>"@,
        CssProperty::WordWrap => "normal | break-word | anywhere"@,
        CssProperty::WrapAfter => "auto | avoid | avoid-line | avoid-flex | line | flex"@,
        CssProperty::WrapBefore => "auto | avoid | avoid-line | avoid-flex | line | flex"@,
        CssProperty::WrapFlow => "auto | both | start | end | minimum | maximum | clear"@,
        CssProperty::WrapInside => "auto | avoid"@,
        CssProperty::WrapThrough => "wrap | none"@,
        CssProperty::WritingMode => "horizontal-tb | vertical-rl | vertical-lr | sideways-rl | sideways-lr"@,
        CssProperty::X => "<length-percentage>"@,
        CssProperty::Y => "<length-percentage>"@,
        CssProperty::ZIndex => "auto | <integer> | inherit"@,
        CssProperty::Zoom => "<number [0,∞]> | <percentage [0,∞]>"@,
        _ => Seq::empty(),
    }
}

/// The initial value the property's definition gives (its `initial`
/// field); empty where it gives none.
pub open spec fn documented_initial(property: CssProperty) -> Seq<char> {
    match property {
        CssProperty::WebkitAlignContent => ""@,
        CssProperty::WebkitAlignItems => ""@,
        CssProperty::WebkitAlignSelf => ""@,
        CssProperty::WebkitAnimation => ""@,
        CssProperty::WebkitAnimationDelay => ""@,
        CssProperty::WebkitAnimationDirection => ""@,
        CssProperty::WebkitAnimationDuration => ""@,
        CssProperty::WebkitAnimationFillMode => ""@,
        CssProperty::WebkitAnimationIterationCount => ""@,
        CssProperty::WebkitAnimationName => ""@,
        CssProperty::WebkitAnimationPlayState => ""@,
        CssProperty::WebkitAnimationTimingFunction => ""@,
        CssProperty::WebkitAppearance => ""@,
        CssProperty::WebkitBackfaceVisibility => ""@,
        CssProperty::WebkitBackgroundClip => ""@,
        CssProperty::WebkitBackgroundOrigin => ""@,
        CssProperty::WebkitBackgroundSize => ""@,
        CssProperty::WebkitBorderBottomLeftRadius => ""@,
        CssProperty::WebkitBorderBottomRightRadius => ""@,
        CssProperty::WebkitBorderRadius => ""@,
        CssProperty::WebkitBorderTopLeftRadius => ""@,
        CssProperty::WebkitBorderTopRightRadius => ""@,
        CssProperty::WebkitBoxAlign => ""@,
        CssProperty::WebkitBoxFlex => ""@,
        CssProperty::WebkitBoxOrdinalGroup => ""@,
        CssProperty::WebkitBoxOrient => ""@,
        CssProperty::WebkitBoxPack => ""@,
        CssProperty::WebkitBoxShadow => ""@,
        CssProperty::WebkitBoxSizing => ""@,
        CssProperty::WebkitFilter => ""@,
        CssProperty::WebkitFlex => ""@,
        CssProperty::WebkitFlexBasis => ""@,
        CssProperty::WebkitFlexDirection => ""@,
        CssProperty::WebkitFlexFlow => ""@,
        CssProperty::WebkitFlexGrow => ""@,
        CssProperty::WebkitFlexShrink => ""@,
        CssProperty::WebkitFlexWrap => ""@,
        CssProperty::WebkitJustifyContent => ""@,
        CssProperty::WebkitLineClamp => "none"@,
        CssProperty::WebkitMask => ""@,
        CssProperty::WebkitMaskBoxImage => ""@,
        CssProperty::WebkitMaskBoxImageOutset => ""@,
        CssProperty::WebkitMaskBoxImageRepeat => ""@,
        CssProperty::WebkitMaskBoxImageSlice => ""@,
        CssProperty::WebkitMaskBoxImageSource => ""@,
        CssProperty::WebkitMaskBoxImageWidth => ""@,
        CssProperty::WebkitMaskClip => ""@,
        CssProperty::WebkitMaskComposite => ""@,
        CssProperty::WebkitMaskImage => ""@,
        CssProperty::WebkitMaskOrigin => ""@,
        CssProperty::WebkitMaskPosition => ""@,
        CssProperty::WebkitMaskRepeat => ""@,
        CssProperty::WebkitMaskSize => ""@,
        CssProperty::WebkitOrder => ""@,
        CssProperty::WebkitPerspective => ""@,
        CssProperty::WebkitPerspectiveOrigin => ""@,
        CssProperty::WebkitTextFillColor => "currentcolor"@,
        CssProperty::WebkitTextSizeAdjust => ""@,
        CssProperty::WebkitTextStroke => "See individual properties"@,
        CssProperty::WebkitTextStrokeColor => "currentcolor"@,
        CssProperty::WebkitTextStrokeWidth => "0"@,
        CssProperty::WebkitTransform => ""@,
        CssProperty::WebkitTransformOrigin => ""@,
        CssProperty::WebkitTransformStyle => ""@,
        CssProperty::WebkitTransition => ""@,
        CssProperty::WebkitTransitionDelay => ""@,
        CssProperty::WebkitTransitionDuration => ""@,
        CssProperty::WebkitTransitionProperty => ""@,
        CssProperty::WebkitTransitionTimingFunction => ""@,
        CssProperty::WebkitUserSelect => ""@,
        CssProperty::AccentColor => "auto"@,
        CssProperty::AlignContent => "normal"@,
        CssProperty::AlignItems => "normal"@,
        CssProperty::AlignSelf => "auto"@,
        CssProperty::AlignmentBaseline => "baseline"@,
        CssProperty::All => "see individual properties"@,
        CssProperty::AnchorName => "none"@,
        CssProperty::AnchorScope => "none"@,
        CssProperty::Animation => "see individual properties"@,
        CssProperty::AnimationComposition => "replace"@,
        CssProperty::AnimationDelay => "0s"@,
        CssProperty::AnimationDirection => "normal"@,
        CssProperty::AnimationDuration => "auto"@,
        CssProperty::AnimationFillMode => "none"@,
        CssProperty::AnimationIterationCount => "1"@,
        CssProperty::AnimationName => "none"@,
        CssProperty::AnimationPlayState => "running"@,
        CssProperty::AnimationRange => "see individual properties"@,
        CssProperty::AnimationRangeCenter => "normal"@,
        CssProperty::AnimationRangeEnd => "normal"@,
        CssProperty::AnimationRangeStart => "normal"@,
        CssProperty::AnimationTimeline => "auto"@,
        CssProperty::AnimationTimingFunction => "ease"@,
        CssProperty::AnimationTrigger => "none"@,
        CssProperty::Appearance => "none"@,
        CssProperty::AspectRatio => "auto"@,
        CssProperty::BackdropFilter => "none"@,
        CssProperty::BackfaceVisibility => "visible"@,
        CssProperty::Background => "see individual properties"@,
        CssProperty::BackgroundAttachment => "scroll"@,
        _ => documented_initial_from_100(property),
    }
}

/// `documented_initial` from the 100-th property on.
pub open spec fn documented_initial_from_100(property: CssProperty) -> Seq<char> {
    match property {
        CssProperty::BackgroundBlendMode => "normal"@,
        CssProperty::BackgroundClip => "border-box"@,
        CssProperty::BackgroundColor => "transparent"@,
        CssProperty::BackgroundImage => "none"@,
        CssProperty::BackgroundOrigin => "padding-box"@,
        CssProperty::BackgroundPosition => "0% 0%"@,
        CssProperty::BackgroundPositionBlock => "0%"@,
        CssProperty::BackgroundPositionInline => "0%"@,
        CssProperty::BackgroundPositionX => "0%"@,
        CssProperty::BackgroundPositionY => "0%"@,
        CssProperty::BackgroundRepeat => "repeat"@,
        CssProperty::BackgroundRepeatBlock => "repeat"@,
        CssProperty::BackgroundRepeatInline => "repeat"@,
        CssProperty::BackgroundRepeatX => "repeat"@,
        CssProperty::BackgroundRepeatY => "repeat"@,
        CssProperty::BackgroundSize => "auto"@,
        CssProperty::BackgroundTbd => "see individual properties"@,
        CssProperty::BaselineShift => "0"@,
        CssProperty::BaselineSource => "auto"@,
        CssProperty::BlockEllipsis => "no-ellipsis"@,
        CssProperty::BlockSize => "auto"@,
        CssProperty::BlockStep => "see individual properties"@,
        CssProperty::BlockStepAlign => "auto"@,
        CssProperty::BlockStepInsert => "margin-box"@,
        CssProperty::BlockStepRound => "up"@,
        CssProperty::BlockStepSize => "none"@,
        CssProperty::BookmarkLabel => "content(text)"@,
        CssProperty::BookmarkLevel => "none"@,
        CssProperty::BookmarkState => "open"@,
        CssProperty::Border => "see individual properties"@,
        CssProperty::BorderBlock => "see individual properties"@,
        CssProperty::BorderBlockClip => "see individual properties"@,
        CssProperty::BorderBlockColor => "see individual properties"@,
        CssProperty::BorderBlockEnd => "See individual properties"@,
        CssProperty::BorderBlockEndClip => "none"@,
        CssProperty::BorderBlockEndColor => "currentcolor"@,
        CssProperty::BorderBlockEndRadius => "0"@,
        CssProperty::BorderBlockEndStyle => "none"@,
        CssProperty::BorderBlockEndWidth => "medium"@,
        CssProperty::BorderBlockStart => "See individual properties"@,
        CssProperty::BorderBlockStartClip => "none"@,
        CssProperty::BorderBlockStartColor => "currentcolor"@,
        CssProperty::BorderBlockStartRadius => "0"@,
        CssProperty::BorderBlockStartStyle => "none"@,
        CssProperty::BorderBlockStartWidth => "medium"@,
        CssProperty::BorderBlockStyle => "see individual properties"@,
        CssProperty::BorderBlockWidth => "see individual properties"@,
        CssProperty::BorderBottom => "See individual properties"@,
        CssProperty::BorderBottomClip => "none"@,
        CssProperty::BorderBottomColor => "currentcolor"@,
        CssProperty::BorderBottomLeftRadius => "0"@,
        CssProperty::BorderBottomRadius => "0"@,
        CssProperty::BorderBottomRightRadius => "0"@,
        CssProperty::BorderBottomStyle => "none"@,
        CssProperty::BorderBottomWidth => "medium"@,
        CssProperty::BorderBoundary => "none"@,
        CssProperty::BorderClip => "see individual properties"@,
        CssProperty::BorderCollapse => "separate"@,
        CssProperty::BorderColor => "see individual properties"@,
        CssProperty::BorderEndEndRadius => "0"@,
        CssProperty::BorderEndStartRadius => "0"@,
        CssProperty::BorderImage => "See individual properties"@,
        CssProperty::BorderImageOutset => "0"@,
        CssProperty::BorderImageRepeat => "stretch"@,
        CssProperty::BorderImageSlice => "100%"@,
        CssProperty::BorderImageSource => "none"@,
        CssProperty::BorderImageWidth => "1"@,
        CssProperty::BorderInline => "see individual properties"@,
        CssProperty::BorderInlineClip => "see individual properties"@,
        CssProperty::BorderInlineColor => "see individual properties"@,
        CssProperty::BorderInlineEnd => "See individual properties"@,
        CssProperty::BorderInlineEndClip => "none"@,
        CssProperty::BorderInlineEndColor => "currentcolor"@,
        CssProperty::BorderInlineEndRadius => "0"@,
        CssProperty::BorderInlineEndStyle => "none"@,
        CssProperty::BorderInlineEndWidth => "medium"@,
        CssProperty::BorderInlineStart => "See individual properties"@,
        CssProperty::BorderInlineStartClip => "none"@,
        CssProperty::BorderInlineStartColor => "currentcolor"@,
        CssProperty::BorderInlineStartRadius => "0"@,
        CssProperty::BorderInlineStartStyle => "none"@,
        CssProperty::BorderInlineStartWidth => "medium"@,
        CssProperty::BorderInlineStyle => "see individual properties"@,
        CssProperty::BorderInlineWidth => "see individual properties"@,
        CssProperty::BorderLeft => "See individual properties"@,
        CssProperty::BorderLeftClip => "none"@,
        CssProperty::BorderLeftColor => "currentcolor"@,
        CssProperty::BorderLeftRadius => "0"@,
        CssProperty::BorderLeftStyle => "none"@,
        CssProperty::BorderLeftWidth => "medium"@,
        CssProperty::BorderLimit => "all"@,
        CssProperty::BorderRadius => "see individual properties"@,
        CssProperty::BorderRight => "See individual properties"@,
        CssProperty::BorderRightClip => "none"@,
        CssProperty::BorderRightColor => "currentcolor"@,
        CssProperty::BorderRightRadius => "0"@,
        CssProperty::BorderRightStyle => "none"@,
        CssProperty::BorderRightWidth => "medium"@,
        CssProperty::BorderShape => "none"@,
        CssProperty::BorderSpacing => "0px 0px"@,
        _ => documented_initial_from_200(property),
    }
}

/// `documented_initial` from the 200-th property on.
pub open spec fn documented_initial_from_200(property: CssProperty) -> Seq<char> {
    match property {
        CssProperty::BorderStartEndRadius => "0"@,
        CssProperty::BorderStartStartRadius => "0"@,
        CssProperty::BorderStyle => "see individual properties"@,
        CssProperty::BorderTop => "See individual properties"@,
        CssProperty::BorderTopClip => "none"@,
        CssProperty::BorderTopColor => "currentcolor"@,
        CssProperty::BorderTopLeftRadius => "0"@,
        CssProperty::BorderTopRadius => "0"@,
        CssProperty::BorderTopRightRadius => "0"@,
        CssProperty::BorderTopStyle => "none"@,
        CssProperty::BorderTopWidth => "medium"@,
        CssProperty::BorderWidth => "see individual properties"@,
        CssProperty::Bottom => "auto"@,
        CssProperty::BoxDecorationBreak => "slice"@,
        CssProperty::BoxShadow => "none"@,
        CssProperty::BoxShadowBlur => "0"@,
        CssProperty::BoxShadowColor => "currentcolor"@,
        CssProperty::BoxShadowOffset => "none"@,
        CssProperty::BoxShadowPosition => "outset"@,
        CssProperty::BoxShadowSpread => "0"@,
        CssProperty::BoxSizing => "content-box"@,
        CssProperty::BoxSnap => "none"@,
        CssProperty::BreakAfter => "auto"@,
        CssProperty::BreakBefore => "auto"@,
        CssProperty::BreakInside => "auto"@,
        CssProperty::CaptionSide => "top"@,
        CssProperty::Caret => "auto"@,
        CssProperty::CaretAnimation => "auto"@,
        CssProperty::CaretColor => "auto"@,
        CssProperty::CaretShape => "auto"@,
        CssProperty::Clear => "none"@,
        CssProperty::Clip => "auto"@,
        CssProperty::ClipPath => "none"@,
        CssProperty::ClipRule => "nonzero"@,
        CssProperty::Color => "CanvasText"@,
        CssProperty::ColorAdjust => "see individual properties"@,
        CssProperty::ColorInterpolation => "sRGB"@,
        CssProperty::ColorInterpolationFilters => "linearRGB"@,
        CssProperty::ColorScheme => "normal"@,
        CssProperty::ColumnCount => "auto"@,
        CssProperty::ColumnFill => "balance"@,
        CssProperty::ColumnGap => "normal"@,
        CssProperty::ColumnHeight => "auto"@,
        CssProperty::ColumnRule => "see individual properties"@,
        CssProperty::ColumnRuleBreak => "normal"@,
        CssProperty::ColumnRuleColor => "currentcolor"@,
        CssProperty::ColumnRuleInset => "see individual properties"@,
        CssProperty::ColumnRuleInsetCap => "see individual properties"@,
        CssProperty::ColumnRuleInsetCapEnd => "0"@,
        CssProperty::ColumnRuleInsetCapStart => "0"@,
        CssProperty::ColumnRuleInsetEnd => "see individual properties"@,
        CssProperty::ColumnRuleInsetJunction => "see individual properties"@,
        CssProperty::ColumnRuleInsetJunctionEnd => "0"@,
        CssProperty::ColumnRuleInsetJunctionStart => "0"@,
        CssProperty::ColumnRuleInsetStart => "see individual properties"@,
        CssProperty::ColumnRuleStyle => "none"@,
        CssProperty::ColumnRuleVisibilityItems => "normal"@,
        CssProperty::ColumnRuleWidth => "medium"@,
        CssProperty::ColumnSpan => "none"@,
        CssProperty::ColumnWidth => "auto"@,
        CssProperty::ColumnWrap => "auto"@,
        CssProperty::Columns => "see individual properties"@,
        CssProperty::Contain => "none"@,
        CssProperty::ContainIntrinsicBlockSize => "none"@,
        CssProperty::ContainIntrinsicHeight => "none"@,
        CssProperty::ContainIntrinsicInlineSize => "none"@,
        CssProperty::ContainIntrinsicSize => "see individual properties"@,
        CssProperty::ContainIntrinsicWidth => "none"@,
        CssProperty::Container => "see individual properties"@,
        CssProperty::ContainerName => "none"@,
        CssProperty::ContainerType => "normal"@,
        CssProperty::Content => "normal"@,
        CssProperty::ContentVisibility => "visible"@,
        CssProperty::Continue => "auto"@,
        CssProperty::CopyInto => "none"@,
        CssProperty::Corner => "0"@,
        CssProperty::CornerBlockEnd => "0"@,
        CssProperty::CornerBlockEndShape => "see individual properties"@,
        CssProperty::CornerBlockStart => "0"@,
        CssProperty::CornerBlockStartShape => "see individual properties"@,
        CssProperty::CornerBottom => "0"@,
        CssProperty::CornerBottomLeft => "0"@,
        CssProperty::CornerBottomLeftShape => "round"@,
        CssProperty::CornerBottomRight => "0"@,
        CssProperty::CornerBottomRightShape => "round"@,
        CssProperty::CornerBottomShape => "see individual properties"@,
        CssProperty::CornerEndEnd => "0"@,
        CssProperty::CornerEndEndShape => "round"@,
        CssProperty::CornerEndStart => "0"@,
        CssProperty::CornerEndStartShape => "round"@,
        CssProperty::CornerInlineEnd => "0"@,
        CssProperty::CornerInlineEndShape => "see individual properties"@,
        CssProperty::CornerInlineStart => "0"@,
        CssProperty::CornerInlineStartShape => "see individual properties"@,
        CssProperty::CornerLeft => "0"@,
        CssProperty::CornerLeftShape => "see individual properties"@,
        CssProperty::CornerRight => "0"@,
        CssProperty::CornerRightShape => "see individual properties"@,
        CssProperty::CornerShape => "round"@,
        CssProperty::CornerStartEnd => "0"@,
        _ => documented_initial_from_300(property),
    }
}

/// `documented_initial` from the 300-th property on.
pub open spec fn documented_initial_from_300(property: CssProperty) -> Seq<char> {
    match property {
        CssProperty::CornerStartEndShape => "round"@,
        CssProperty::CornerStartStart => "0"@,
        CssProperty::CornerStartStartShape => "round"@,
        CssProperty::CornerTop => "0"@,
        CssProperty::CornerTopLeft => "0"@,
        CssProperty::CornerTopLeftShape => "round"@,
        CssProperty::CornerTopRight => "0"@,
        CssProperty::CornerTopRightShape => "round"@,
        CssProperty::CornerTopShape => "see individual properties"@,
        CssProperty::CounterIncrement => "none"@,
        CssProperty::CounterReset => "none"@,
        CssProperty::CounterSet => "none"@,
        CssProperty::Cue => "see individual properties"@,
        CssProperty::CueAfter => "none"@,
        CssProperty::CueBefore => "none"@,
        CssProperty::Cursor => "auto"@,
        CssProperty::Cx => "0"@,
        CssProperty::Cy => "0"@,
        CssProperty::D => "none"@,
        CssProperty::Direction => "ltr"@,
        CssProperty::Display => "inline"@,
        CssProperty::DominantBaseline => "auto"@,
        CssProperty::DynamicRangeLimit => "no-limit"@,
        CssProperty::EmptyCells => "show"@,
        CssProperty::EventTrigger => "none"@,
        CssProperty::EventTriggerName => "none"@,
        CssProperty::EventTriggerSource => "none"@,
        CssProperty::FieldSizing => "fixed"@,
        CssProperty::Fill => "black"@,
        CssProperty::FillBreak => "bounding-box"@,
        CssProperty::FillColor => "currentcolor"@,
        CssProperty::FillImage => "none"@,
        CssProperty::FillOpacity => "1"@,
        CssProperty::FillOrigin => "match-parent"@,
        CssProperty::FillPosition => "0% 0%"@,
        CssProperty::FillRepeat => "repeat"@,
        CssProperty::FillRule => "nonzero"@,
        CssProperty::FillSize => "auto"@,
        CssProperty::Filter => "none"@,
        CssProperty::Flex => "0 1 auto"@,
        CssProperty::FlexBasis => "auto"@,
        CssProperty::FlexDirection => "row"@,
        CssProperty::FlexFlow => "see individual properties"@,
        CssProperty::FlexGrow => "0"@,
        CssProperty::FlexShrink => "1"@,
        CssProperty::FlexWrap => "nowrap"@,
        CssProperty::Float => "none"@,
        CssProperty::FloatDefer => "none"@,
        CssProperty::FloatOffset => "0"@,
        CssProperty::FloatReference => "inline"@,
        CssProperty::FloodColor => "black"@,
        CssProperty::FloodOpacity => "1"@,
        CssProperty::FlowFrom => "none"@,
        CssProperty::FlowInto => "none"@,
        CssProperty::FlowTolerance => "normal"@,
        CssProperty::Font => "see individual properties"@,
        CssProperty::FontFamily => "depends on user agent"@,
        CssProperty::FontFeatureSettings => "normal"@,
        CssProperty::FontKerning => "auto"@,
        CssProperty::FontLanguageOverride => "normal"@,
        CssProperty::FontOpticalSizing => "auto"@,
        CssProperty::FontPalette => "normal"@,
        CssProperty::FontSize => "medium"@,
        CssProperty::FontSizeAdjust => "none"@,
        CssProperty::FontStretch => ""@,
        CssProperty::FontStyle => "normal"@,
        CssProperty::FontSynthesis => "weight style small-caps position"@,
        CssProperty::FontSynthesisPosition => "auto"@,
        CssProperty::FontSynthesisSmallCaps => "auto"@,
        CssProperty::FontSynthesisStyle => "auto"@,
        CssProperty::FontSynthesisWeight => "auto"@,
        CssProperty::FontVariant => "normal"@,
        CssProperty::FontVariantAlternates => "normal"@,
        CssProperty::FontVariantCaps => "normal"@,
        CssProperty::FontVariantEastAsian => "normal"@,
        CssProperty::FontVariantEmoji => "normal"@,
        CssProperty::FontVariantLigatures => "normal"@,
        CssProperty::FontVariantNumeric => "normal"@,
        CssProperty::FontVariantPosition => "normal"@,
        CssProperty::FontVariationSettings => "normal"@,
        CssProperty::FontWeight => "normal"@,
        CssProperty::FontWidth => "normal"@,
        CssProperty::FootnoteDisplay => "block"@,
        CssProperty::FootnotePolicy => "auto"@,
        CssProperty::ForcedColorAdjust => "auto"@,
        CssProperty::FrameSizing => "auto"@,
        CssProperty::Gap => "see individual properties"@,
        CssProperty::GlyphOrientationVertical => "n/a"@,
        CssProperty::Grid => "none"@,
        CssProperty::GridArea => "auto"@,
        CssProperty::GridAutoColumns => "auto"@,
        CssProperty::GridAutoFlow => "row"@,
        CssProperty::GridAutoRows => "auto"@,
        CssProperty::GridColumn => "auto"@,
        CssProperty::GridColumnEnd => "auto"@,
        CssProperty::GridColumnGap => ""@,
        CssProperty::GridColumnStart => "auto"@,
        CssProperty::GridGap => ""@,
        CssProperty::GridRow => "auto"@,
        CssProperty::GridRowEnd => "auto"@,
        _ => documented_initial_from_400(property),
    }
}

/// `documented_initial` from the 400-th property on.
pub open spec fn documented_initial_from_400(property: CssProperty) -> Seq<char> {
    match property {
        CssProperty::GridRowGap => ""@,
        CssProperty::GridRowStart => "auto"@,
        CssProperty::GridTemplate => "none"@,
        CssProperty::GridTemplateAreas => "none"@,
        CssProperty::GridTemplateColumns => "none"@,
        CssProperty::GridTemplateRows => "none"@,
        CssProperty::HangingPunctuation => "none"@,
        CssProperty::Height => "auto"@,
        CssProperty::HyphenateCharacter => "auto"@,
        CssProperty::HyphenateLimitChars => "auto"@,
        CssProperty::HyphenateLimitLast => "none"@,
        CssProperty::HyphenateLimitLines => "no-limit"@,
        CssProperty::HyphenateLimitZone => "0"@,
        CssProperty::Hyphens => "manual"@,
        CssProperty::ImageAnimation => "normal"@,
        CssProperty::ImageOrientation => "from-image"@,
        CssProperty::ImageRendering => "auto"@,
        CssProperty::ImageResolution => "1dppx"@,
        CssProperty::InitialLetter => "normal"@,
        CssProperty::InitialLetterAlign => "alphabetic"@,
        CssProperty::InitialLetterWrap => "none"@,
        CssProperty::InlineSize => "auto"@,
        CssProperty::InlineSizing => "normal"@,
        CssProperty::InputSecurity => "auto"@,
        CssProperty::Inset => "auto"@,
        CssProperty::InsetBlock => "auto"@,
        CssProperty::InsetBlockEnd => "auto"@,
        CssProperty::InsetBlockStart => "auto"@,
        CssProperty::InsetInline => "auto"@,
        CssProperty::InsetInlineEnd => "auto"@,
        CssProperty::InsetInlineStart => "auto"@,
        CssProperty::Interactivity => "auto"@,
        CssProperty::InterestDelay => "see individual properties"@,
        CssProperty::InterestDelayEnd => "normal"@,
        CssProperty::InterestDelayStart => "normal"@,
        CssProperty::InterpolateSize => "numeric-only"@,
        CssProperty::Isolation => "auto"@,
        CssProperty::JustifyContent => "normal"@,
        CssProperty::JustifyItems => "legacy"@,
        CssProperty::JustifySelf => "auto"@,
        CssProperty::Left => "auto"@,
        CssProperty::LetterSpacing => "normal"@,
        CssProperty::LightingColor => "white"@,
        CssProperty::LineBreak => "auto"@,
        CssProperty::LineClamp => "none"@,
        CssProperty::LineFitEdge => "leading"@,
        CssProperty::LineGrid => "match-parent"@,
        CssProperty::LineHeight => "normal"@,
        CssProperty::LineHeightStep => "0"@,
        CssProperty::LinePadding => "0"@,
        CssProperty::LineSnap => "none"@,
        CssProperty::LinkParameters => "none"@,
        CssProperty::ListStyle => "see individual properties"@,
        CssProperty::ListStyleImage => "none"@,
        CssProperty::ListStylePosition => "outside"@,
        CssProperty::ListStyleType => "disc"@,
        CssProperty::Margin => "0"@,
        CssProperty::MarginBlock => "see individual properties"@,
        CssProperty::MarginBlockEnd => "0"@,
        CssProperty::MarginBlockStart => "0"@,
        CssProperty::MarginBottom => "0"@,
        CssProperty::MarginBreak => "auto"@,
        CssProperty::MarginInline => "see individual properties"@,
        CssProperty::MarginInlineEnd => "0"@,
        CssProperty::MarginInlineStart => "0"@,
        CssProperty::MarginLeft => "0"@,
        CssProperty::MarginRight => "0"@,
        CssProperty::MarginTop => "0"@,
        CssProperty::MarginTrim => "none"@,
        CssProperty::Marker => "not defined for shorthand properties"@,
        CssProperty::MarkerEnd => "none"@,
        CssProperty::MarkerMid => "none"@,
        CssProperty::MarkerSide => "match-self"@,
        CssProperty::MarkerStart => "none"@,
        CssProperty::Mask => "see individual properties"@,
        CssProperty::MaskBorder => "See individual properties"@,
        CssProperty::MaskBorderMode => "alpha"@,
        CssProperty::MaskBorderOutset => "0"@,
        CssProperty::MaskBorderRepeat => "stretch"@,
        CssProperty::MaskBorderSlice => "0"@,
        CssProperty::MaskBorderSource => "none"@,
        CssProperty::MaskBorderWidth => "auto"@,
        CssProperty::MaskClip => "border-box"@,
        CssProperty::MaskComposite => "add"@,
        CssProperty::MaskImage => "none"@,
        CssProperty::MaskMode => "match-source"@,
        CssProperty::MaskOrigin => "border-box"@,
        CssProperty::MaskPosition => "0% 0%"@,
        CssProperty::MaskRepeat => "repeat"@,
        CssProperty::MaskSize => "auto"@,
        CssProperty::MaskType => "luminance"@,
        CssProperty::MathDepth => "0"@,
        CssProperty::MathShift => "normal"@,
        CssProperty::MathStyle => "normal"@,
        CssProperty::MaxBlockSize => "none"@,
        CssProperty::MaxHeight => "none"@,
        CssProperty::MaxInlineSize => "none"@,
        CssProperty::MaxLines => "none"@,
        CssProperty::MaxWidth => "none"@,
        CssProperty::MinBlockSize => "0"@,
        _ => documented_initial_from_500(property),
    }
}

/// `documented_initial` from the 500-th property on.
pub open spec fn documented_initial_from_500(property: CssProperty) -> Seq<char> {
    match property {
        CssProperty::MinHeight => "auto"@,
        CssProperty::MinInlineSize => "0"@,
        CssProperty::MinIntrinsicSizing => "legacy"@,
        CssProperty::MinWidth => "auto"@,
        CssProperty::MixBlendMode => "normal"@,
        CssProperty::NavDown => "auto"@,
        CssProperty::NavLeft => "auto"@,
        CssProperty::NavRight => "auto"@,
        CssProperty::NavUp => "auto"@,
        CssProperty::ObjectFit => "fill"@,
        CssProperty::ObjectPosition => "50% 50%"@,
        CssProperty::ObjectViewBox => "none"@,
        CssProperty::Offset => "see individual properties"@,
        CssProperty::OffsetAnchor => "auto"@,
        CssProperty::OffsetDistance => "0"@,
        CssProperty::OffsetPath => "none"@,
        CssProperty::OffsetPosition => "normal"@,
        CssProperty::OffsetRotate => "auto"@,
        CssProperty::Opacity => "1"@,
        CssProperty::Order => "0"@,
        CssProperty::Orphans => "2"@,
        CssProperty::Outline => "see individual properties"@,
        CssProperty::OutlineColor => "auto"@,
        CssProperty::OutlineOffset => "0"@,
        CssProperty::OutlineStyle => "none"@,
        CssProperty::OutlineWidth => "medium"@,
        CssProperty::Overflow => "visible"@,
        CssProperty::OverflowAnchor => "auto"@,
        CssProperty::OverflowBlock => "visible"@,
        CssProperty::OverflowClipMargin => "0px"@,
        CssProperty::OverflowClipMarginBlock => "0px"@,
        CssProperty::OverflowClipMarginBlockEnd => "0px"@,
        CssProperty::OverflowClipMarginBlockStart => "0px"@,
        CssProperty::OverflowClipMarginBottom => "0px"@,
        CssProperty::OverflowClipMarginInline => "0px"@,
        CssProperty::OverflowClipMarginInlineEnd => "0px"@,
        CssProperty::OverflowClipMarginInlineStart => "0px"@,
        CssProperty::OverflowClipMarginLeft => "0px"@,
        CssProperty::OverflowClipMarginRight => "0px"@,
        CssProperty::OverflowClipMarginTop => "0px"@,
        CssProperty::OverflowInline => "visible"@,
        CssProperty::OverflowWrap => "normal"@,
        CssProperty::OverflowX => "visible"@,
        CssProperty::OverflowY => "visible"@,
        CssProperty::Overlay => "none"@,
        CssProperty::OverscrollBehavior => "auto auto"@,
        CssProperty::OverscrollBehaviorBlock => "auto"@,
        CssProperty::OverscrollBehaviorInline => "auto"@,
        CssProperty::OverscrollBehaviorX => "auto"@,
        CssProperty::OverscrollBehaviorY => "auto"@,
        CssProperty::Padding => "0"@,
        CssProperty::PaddingBlock => "see individual properties"@,
        CssProperty::PaddingBlockEnd => "0"@,
        CssProperty::PaddingBlockStart => "0"@,
        CssProperty::PaddingBottom => "0"@,
        CssProperty::PaddingInline => "see individual properties"@,
        CssProperty::PaddingInlineEnd => "0"@,
        CssProperty::PaddingInlineStart => "0"@,
        CssProperty::PaddingLeft => "0"@,
        CssProperty::PaddingRight => "0"@,
        CssProperty::PaddingTop => "0"@,
        CssProperty::Page => "auto"@,
        CssProperty::PageBreakAfter => "auto"@,
        CssProperty::PageBreakBefore => "auto"@,
        CssProperty::PageBreakInside => "auto"@,
        CssProperty::PaintOrder => "normal"@,
        CssProperty::PathLength => "none"@,
        CssProperty::Pause => "see individual properties"@,
        CssProperty::PauseAfter => "none"@,
        CssProperty::PauseBefore => "none"@,
        CssProperty::Perspective => "none"@,
        CssProperty::PerspectiveOrigin => "50% 50%"@,
        CssProperty::PlaceContent => "normal"@,
        CssProperty::PlaceItems => "see individual properties"@,
        CssProperty::PlaceSelf => "auto"@,
        CssProperty::PointerEvents => "auto"@,
        CssProperty::PointerTimeline => "see individual properties"@,
        CssProperty::PointerTimelineAxis => "block"@,
        CssProperty::PointerTimelineName => "none"@,
        CssProperty::Position => "static"@,
        CssProperty::PositionAnchor => "normal"@,
        CssProperty::PositionArea => "none"@,
        CssProperty::PositionTry => "see individual properties"@,
        CssProperty::PositionTryFallbacks => "none"@,
        CssProperty::PositionTryOrder => "normal"@,
        CssProperty::PositionVisibility => "anchors-visible"@,
        CssProperty::PrintColorAdjust => "economy"@,
        CssProperty::Quotes => "auto"@,
        CssProperty::R => "0"@,
        CssProperty::ReadingFlow => "normal"@,
        CssProperty::ReadingOrder => "0"@,
        CssProperty::RegionFragment => "auto"@,
        CssProperty::Resize => "none"@,
        CssProperty::Rest => "see individual properties"@,
        CssProperty::RestAfter => "none"@,
        CssProperty::RestBefore => "none"@,
        CssProperty::Right => "auto"@,
        CssProperty::Rotate => "none"@,
        CssProperty::RowGap => "normal"@,
        CssProperty::RowRule => "see individual properties"@,
        _ => documented_initial_from_600(property),
    }
}

/// `documented_initial` from the 600-th property on.
pub open spec fn documented_initial_from_600(property: CssProperty) -> Seq<char> {
    match property {
        CssProperty::RowRuleBreak => "normal"@,
        CssProperty::RowRuleColor => "currentcolor"@,
        CssProperty::RowRuleInset => "see individual properties"@,
        CssProperty::RowRuleInsetCap => "see individual properties"@,
        CssProperty::RowRuleInsetCapEnd => "0"@,
        CssProperty::RowRuleInsetCapStart => "0"@,
        CssProperty::RowRuleInsetEnd => "see individual properties"@,
        CssProperty::RowRuleInsetJunction => "see individual properties"@,
        CssProperty::RowRuleInsetJunctionEnd => "0"@,
        CssProperty::RowRuleInsetJunctionStart => "0"@,
        CssProperty::RowRuleInsetStart => "see individual properties"@,
        CssProperty::RowRuleStyle => "none"@,
        CssProperty::RowRuleVisibilityItems => "normal"@,
        CssProperty::RowRuleWidth => "medium"@,
        CssProperty::RubyAlign => "space-around"@,
        CssProperty::RubyMerge => "separate"@,
        CssProperty::RubyOverhang => "auto"@,
        CssProperty::RubyPosition => "alternate"@,
        CssProperty::Rule => "see individual properties"@,
        CssProperty::RuleBreak => "see individual properties"@,
        CssProperty::RuleColor => "see individual properties"@,
        CssProperty::RuleInset => "see individual properties"@,
        CssProperty::RuleInsetCap => "see individual properties"@,
        CssProperty::RuleInsetEnd => "see individual properties"@,
        CssProperty::RuleInsetJunction => "see individual properties"@,
        CssProperty::RuleInsetStart => "see individual properties"@,
        CssProperty::RuleOverlap => "row-over-column"@,
        CssProperty::RuleStyle => "see individual properties"@,
        CssProperty::RuleVisibilityItems => "see individual properties"@,
        CssProperty::RuleWidth => "see individual properties"@,
        CssProperty::Rx => "auto"@,
        CssProperty::Ry => "auto"@,
        CssProperty::Scale => "none"@,
        CssProperty::ScrollBehavior => "auto"@,
        CssProperty::ScrollInitialTarget => "none"@,
        CssProperty::ScrollMargin => "0"@,
        CssProperty::ScrollMarginBlock => "0"@,
        CssProperty::ScrollMarginBlockEnd => "0"@,
        CssProperty::ScrollMarginBlockStart => "0"@,
        CssProperty::ScrollMarginBottom => "0"@,
        CssProperty::ScrollMarginInline => "0"@,
        CssProperty::ScrollMarginInlineEnd => "0"@,
        CssProperty::ScrollMarginInlineStart => "0"@,
        CssProperty::ScrollMarginLeft => "0"@,
        CssProperty::ScrollMarginRight => "0"@,
        CssProperty::ScrollMarginTop => "0"@,
        CssProperty::ScrollMarkerGroup => "none"@,
        CssProperty::ScrollPadding => "auto"@,
        CssProperty::ScrollPaddingBlock => "auto"@,
        CssProperty::ScrollPaddingBlockEnd => "auto"@,
        CssProperty::ScrollPaddingBlockStart => "auto"@,
        CssProperty::ScrollPaddingBottom => "auto"@,
        CssProperty::ScrollPaddingInline => "auto"@,
        CssProperty::ScrollPaddingInlineEnd => "auto"@,
        CssProperty::ScrollPaddingInlineStart => "auto"@,
        CssProperty::ScrollPaddingLeft => "auto"@,
        CssProperty::ScrollPaddingRight => "auto"@,
        CssProperty::ScrollPaddingTop => "auto"@,
        CssProperty::ScrollSnapAlign => "none"@,
        CssProperty::ScrollSnapStop => "normal"@,
        CssProperty::ScrollSnapType => "none"@,
        CssProperty::ScrollTargetGroup => "none"@,
        CssProperty::ScrollTimeline => "see individual properties"@,
        CssProperty::ScrollTimelineAxis => "block"@,
        CssProperty::ScrollTimelineName => "none"@,
        CssProperty::ScrollbarColor => "auto"@,
        CssProperty::ScrollbarGutter => "auto"@,
        CssProperty::ScrollbarInset => "0px"@,
        CssProperty::ScrollbarMinThumbSize => "20px"@,
        CssProperty::ScrollbarMode => "auto"@,
        CssProperty::ScrollbarWidth => "auto"@,
        CssProperty::ShapeImageThreshold => "0"@,
        CssProperty::ShapeInside => "auto"@,
        CssProperty::ShapeMargin => "0"@,
        CssProperty::ShapeOutside => "none"@,
        CssProperty::ShapePadding => "0"@,
        CssProperty::ShapeRendering => "auto"@,
        CssProperty::SliderOrientation => "auto"@,
        CssProperty::SpatialNavigationAction => "auto"@,
        CssProperty::SpatialNavigationContain => "auto"@,
        CssProperty::SpatialNavigationFunction => "normal"@,
        CssProperty::Speak => "auto"@,
        CssProperty::SpeakAs => "normal"@,
        CssProperty::StopColor => ""@,
        CssProperty::StopOpacity => ""@,
        CssProperty::StringSet => "none"@,
        CssProperty::Stroke => "none"@,
        CssProperty::StrokeAlign => "center"@,
        CssProperty::StrokeAlignment => "center"@,
        CssProperty::StrokeBreak => "bounding-box"@,
        CssProperty::StrokeColor => "transparent"@,
        CssProperty::StrokeDashCornerPropdefStrokeDashCorner => "none"@,
        CssProperty::StrokeDashJustify => "none"@,
        CssProperty::StrokeDashadjust => "none"@,
        CssProperty::StrokeDasharray => "none"@,
        CssProperty::StrokeDashcornerStrokedashcornerproperty => "none"@,
        CssProperty::StrokeDashoffset => "0"@,
        CssProperty::StrokeImage => "none"@,
        CssProperty::StrokeLinecap => "butt"@,
        CssProperty::StrokeLinejoin => "miter"@,
        _ => documented_initial_from_700(property),
    }
}

/// `documented_initial` from the 700-th property on.
pub open spec fn documented_initial_from_700(property: CssProperty) -> Seq<char> {
    match property {
        CssProperty::StrokeMiterlimit => "4"@,
        CssProperty::StrokeOpacity => "1"@,
        CssProperty::StrokeOrigin => "match-parent"@,
        CssProperty::StrokePosition => "0% 0%"@,
        CssProperty::StrokeRepeat => "repeat"@,
        CssProperty::StrokeSize => "auto"@,
        CssProperty::StrokeWidth => "1px"@,
        CssProperty::TabSize => "8"@,
        CssProperty::TableLayout => "auto"@,
        CssProperty::TextAlign => "start"@,
        CssProperty::TextAlignAll => "start"@,
        CssProperty::TextAlignLast => "auto"@,
        CssProperty::TextAnchor => "start"@,
        CssProperty::TextAutospace => "normal"@,
        CssProperty::TextBox => "normal"@,
        CssProperty::TextBoxEdge => "auto"@,
        CssProperty::TextBoxTrim => "none"@,
        CssProperty::TextCombineUpright => "none"@,
        CssProperty::TextDecoration => "see individual properties"@,
        CssProperty::TextDecorationColor => "currentcolor"@,
        CssProperty::TextDecorationInset => "0"@,
        CssProperty::TextDecorationLine => "none"@,
        CssProperty::TextDecorationSkip => "See individual properties"@,
        CssProperty::TextDecorationSkipBox => "none"@,
        CssProperty::TextDecorationSkipInk => "auto"@,
        CssProperty::TextDecorationSkipSelf => "auto"@,
        CssProperty::TextDecorationSkipSpaces => "start end"@,
        CssProperty::TextDecorationStyle => "solid"@,
        CssProperty::TextDecorationThickness => "auto"@,
        CssProperty::TextEmphasis => "see individual properties"@,
        CssProperty::TextEmphasisColor => "currentcolor"@,
        CssProperty::TextEmphasisPosition => "over right"@,
        CssProperty::TextEmphasisSkip => "spaces punctuation"@,
        CssProperty::TextEmphasisStyle => "none"@,
        CssProperty::TextFit => "none"@,
        CssProperty::TextGroupAlign => "none"@,
        CssProperty::TextIndent => "0"@,
        CssProperty::TextJustify => "auto"@,
        CssProperty::TextOrientation => "mixed"@,
        CssProperty::TextOverflow => "clip"@,
        CssProperty::TextRendering => "auto"@,
        CssProperty::TextShadow => "none"@,
        CssProperty::TextSizeAdjust => "auto"@,
        CssProperty::TextSpacing => "see individual properties"@,
        CssProperty::TextSpacingTrim => "normal"@,
        CssProperty::TextTransform => "none"@,
        CssProperty::TextUnderlineOffset => "auto"@,
        CssProperty::TextUnderlinePosition => "auto"@,
        CssProperty::TextWrap => "wrap"@,
        CssProperty::TextWrapMode => "wrap"@,
        CssProperty::TextWrapStyle => "auto"@,
        CssProperty::TimelineScope => "none"@,
        CssProperty::TimelineTrigger => "see individual properties"@,
        CssProperty::TimelineTriggerActivationRange => "see individual properties"@,
        CssProperty::TimelineTriggerActivationRangeEnd => "normal"@,
        CssProperty::TimelineTriggerActivationRangeStart => "normal"@,
        CssProperty::TimelineTriggerActiveRange => "see individual properties"@,
        CssProperty::TimelineTriggerActiveRangeEnd => "auto"@,
        CssProperty::TimelineTriggerActiveRangeStart => "auto"@,
        CssProperty::TimelineTriggerName => "none"@,
        CssProperty::TimelineTriggerSource => "auto"@,
        CssProperty::Top => "auto"@,
        CssProperty::TouchAction => "auto"@,
        CssProperty::Transform => "none"@,
        CssProperty::TransformBox => "view-box"@,
        CssProperty::TransformOrigin => "50% 50%"@,
        CssProperty::TransformStyle => "flat"@,
        CssProperty::Transition => "see individual properties"@,
        CssProperty::TransitionBehavior => "normal"@,
        CssProperty::TransitionDelay => "0s"@,
        CssProperty::TransitionDuration => "0s"@,
        CssProperty::TransitionProperty => "all"@,
        CssProperty::TransitionTimingFunction => "ease"@,
        CssProperty::Translate => "none"@,
        CssProperty::TriggerScope => "none"@,
        CssProperty::UnicodeBidi => "normal"@,
        CssProperty::UserSelect => "auto"@,
        CssProperty::VectorEffect => "none"@,
        CssProperty::VerticalAlign => "baseline"@,
        CssProperty::ViewTimeline => "see individual properties"@,
        CssProperty::ViewTimelineAxis => "block"@,
        CssProperty::ViewTimelineInset => "auto"@,
        CssProperty::ViewTimelineName => "none"@,
        CssProperty::ViewTransitionClass => "none"@,
        CssProperty::ViewTransitionGroup => "normal"@,
        CssProperty::ViewTransitionName => "none"@,
        CssProperty::ViewTransitionScope => "none"@,
        CssProperty::Visibility => "visible"@,
        CssProperty::VoiceBalance => "center"@,
        CssProperty::VoiceDuration => "auto"@,
        CssProperty::VoiceFamily => "implementation-dependent"@,
        CssProperty::VoicePitch => "medium"@,
        CssProperty::VoiceRange => "medium"@,
        CssProperty::VoiceRate => "normal"@,
        CssProperty::VoiceStress => "normal"@,
        CssProperty::VoiceVolume => "medium"@,
        CssProperty::WhiteSpace => "normal"@,
        CssProperty::WhiteSpaceCollapse => "collapse"@,
        CssProperty::WhiteSpaceTrim => "none"@,
        CssProperty::Widows => "2"@,
        _ => documented_initial_from_800(property),
    }
}

/// `documented_initial` from the 800-th property on.
pub open spec fn documented_initial_from_800(property: CssProperty) -> Seq<char> {
    match property {
        CssProperty::Width => "auto"@,
        CssProperty::WillChange => "auto"@,
        CssProperty::WordBreak => "normal"@,
        CssProperty::WordSpaceTransform => "none"@,
        CssProperty::WordSpacing => "normal"@,
        CssProperty::WordWrap => "normal"@,
        CssProperty::WrapAfter => "auto"@,
        CssProperty::WrapBefore => "auto"@,
        CssProperty::WrapFlow => "auto"@,
        CssProperty::WrapInside => "auto"@,
        CssProperty::WrapThrough => "wrap"@,
        CssProperty::WritingMode => "horizontal-tb"@,
        CssProperty::X => "0"@,
        CssProperty::Y => "0"@,
        CssProperty::ZIndex => "auto"@,
        CssProperty::Zoom => "1"@,
        _ => Seq::empty(),
    }
}

/// A property's value syntax and initial value are those its definition
/// gives, and it is inherited exactly when its definition says so. The one
/// exception to the last is `white-space`, a shorthand whose definition is
/// silent and which is inherited.
pub proof fn lemma_metadata_as_documented(property: CssProperty)
    ensures
        property.spec_syntax() == documented_syntax(property),
        property.spec_initial() == documented_initial(property),
        property != CssProperty::WhiteSpace ==> (property.spec_inherited() == documented_inherited(property)),
        CssProperty::WhiteSpace.spec_inherited(),
{
    lemma_metadata_part_0(property);
}


proof fn lemma_metadata_part_0(property: CssProperty)
    ensures
        property.spec_syntax() == documented_syntax(property),
        property.spec_initial() == documented_initial(property),
        property != CssProperty::WhiteSpace ==> (property.spec_inherited() == documented_inherited(property)),
        CssProperty::WhiteSpace.spec_inherited(),
{
    match property {
        CssProperty::WebkitAlignContent => {},
        CssProperty::WebkitAlignItems => {},
        CssProperty::WebkitAlignSelf => {},
        CssProperty::WebkitAnimation => {},
        CssProperty::WebkitAnimationDelay => {},
        CssProperty::WebkitAnimationDirection => {},
        CssProperty::WebkitAnimationDuration => {},
        CssProperty::WebkitAnimationFillMode => {},
        CssProperty::WebkitAnimationIterationCount => {},
        CssProperty::WebkitAnimationName => {},
        CssProperty::WebkitAnimationPlayState => {},
        CssProperty::WebkitAnimationTimingFunction => {},
        CssProperty::WebkitAppearance => {},
        CssProperty::WebkitBackfaceVisibility => {},
        CssProperty::WebkitBackgroundClip => {},
        CssProperty::WebkitBackgroundOrigin => {},
        CssProperty::WebkitBackgroundSize => {},
        CssProperty::WebkitBorderBottomLeftRadius => {},
        CssProperty::WebkitBorderBottomRightRadius => {},
        CssProperty::WebkitBorderRadius => {},
        CssProperty::WebkitBorderTopLeftRadius => {},
        CssProperty::WebkitBorderTopRightRadius => {},
        CssProperty::WebkitBoxAlign => {},
        CssProperty::WebkitBoxFlex => {},
        CssProperty::WebkitBoxOrdinalGroup => {},
        CssProperty::WebkitBoxOrient => {},
        CssProperty::WebkitBoxPack => {},
        CssProperty::WebkitBoxShadow => {},
        CssProperty::WebkitBoxSizing => {},
        CssProperty::WebkitFilter => {},
        CssProperty::WebkitFlex => {},
        CssProperty::WebkitFlexBasis => {},
        CssProperty::WebkitFlexDirection => {},
        CssProperty::WebkitFlexFlow => {},
        CssProperty::WebkitFlexGrow => {},
        CssProperty::WebkitFlexShrink => {},
        CssProperty::WebkitFlexWrap => {},
        CssProperty::WebkitJustifyContent => {},
        CssProperty::WebkitLineClamp => {},
        CssProperty::WebkitMask => {},
        CssProperty::WebkitMaskBoxImage => {},
        CssProperty::WebkitMaskBoxImageOutset => {},
        CssProperty::WebkitMaskBoxImageRepeat => {},
        CssProperty::WebkitMaskBoxImageSlice => {},
        CssProperty::WebkitMaskBoxImageSource => {},
        CssProperty::WebkitMaskBoxImageWidth => {},
        CssProperty::WebkitMaskClip => {},
        CssProperty::WebkitMaskComposite => {},
        CssProperty::WebkitMaskImage => {},
        CssProperty::WebkitMaskOrigin => {},
        CssProperty::WebkitMaskPosition => {},
        CssProperty::WebkitMaskRepeat => {},
        CssProperty::WebkitMaskSize => {},
        CssProperty::WebkitOrder => {},
        CssProperty::WebkitPerspective => {},
        CssProperty::WebkitPerspectiveOrigin => {},
        CssProperty::WebkitTextFillColor => {},
        CssProperty::WebkitTextSizeAdjust => {},
        CssProperty::WebkitTextStroke => {},
        CssProperty::WebkitTextStrokeColor => {},
        CssProperty::WebkitTextStrokeWidth => {},
        CssProperty::WebkitTransform => {},
        CssProperty::WebkitTransformOrigin => {},
        CssProperty::WebkitTransformStyle => {},
        CssProperty::WebkitTransition => {},
        CssProperty::WebkitTransitionDelay => {},
        CssProperty::WebkitTransitionDuration => {},
        CssProperty::WebkitTransitionProperty => {},
        CssProperty::WebkitTransitionTimingFunction => {},
        CssProperty::WebkitUserSelect => {},
        CssProperty::AccentColor => {},
        CssProperty::AlignContent => {},
        CssProperty::AlignItems => {},
        CssProperty::AlignSelf => {},
        CssProperty::AlignmentBaseline => {},
        CssProperty::All => {},
        CssProperty::AnchorName => {},
        CssProperty::AnchorScope => {},
        CssProperty::Animation => {},
        CssProperty::AnimationComposition => {},
        CssProperty::AnimationDelay => {},
        CssProperty::AnimationDirection => {},
        CssProperty::AnimationDuration => {},
        CssProperty::AnimationFillMode => {},
        CssProperty::AnimationIterationCount => {},
        CssProperty::AnimationName => {},
        CssProperty::AnimationPlayState => {},
        CssProperty::AnimationRange => {},
        CssProperty::AnimationRangeCenter => {},
        CssProperty::AnimationRangeEnd => {},
        CssProperty::AnimationRangeStart => {},
        CssProperty::AnimationTimeline => {},
        CssProperty::AnimationTimingFunction => {},
        CssProperty::AnimationTrigger => {},
        CssProperty::Appearance => {},
        CssProperty::AspectRatio => {},
        CssProperty::BackdropFilter => {},
        CssProperty::BackfaceVisibility => {},
        CssProperty::Background => {},
        CssProperty::BackgroundAttachment => {},
        _ => lemma_metadata_part_1(property),
    }
}

proof fn lemma_metadata_part_1(property: CssProperty)
    ensures
        property.spec_syntax() == documented_syntax(property),
        property.spec_initial() == documented_initial(property),
        property != CssProperty::WhiteSpace ==> (property.spec_inherited() == documented_inherited(property)),
        CssProperty::WhiteSpace.spec_inherited(),
{
    match property {
        CssProperty::BackgroundBlendMode => {},
        CssProperty::BackgroundClip => {},
        CssProperty::BackgroundColor => {},
        CssProperty::BackgroundImage => {},
        CssProperty::BackgroundOrigin => {},
        CssProperty::BackgroundPosition => {},
        CssProperty::BackgroundPositionBlock => {},
        CssProperty::BackgroundPositionInline => {},
        CssProperty::BackgroundPositionX => {},
        CssProperty::BackgroundPositionY => {},
        CssProperty::BackgroundRepeat => {},
        CssProperty::BackgroundRepeatBlock => {},
        CssProperty::BackgroundRepeatInline => {},
        CssProperty::BackgroundRepeatX => {},
        CssProperty::BackgroundRepeatY => {},
        CssProperty::BackgroundSize => {},
        CssProperty::BackgroundTbd => {},
        CssProperty::BaselineShift => {},
        CssProperty::BaselineSource => {},
        CssProperty::BlockEllipsis => {},
        CssProperty::BlockSize => {},
        CssProperty::BlockStep => {},
        CssProperty::BlockStepAlign => {},
        CssProperty::BlockStepInsert => {},
        CssProperty::BlockStepRound => {},
        CssProperty::BlockStepSize => {},
        CssProperty::BookmarkLabel => {},
        CssProperty::BookmarkLevel => {},
        CssProperty::BookmarkState => {},
        CssProperty::Border => {},
        CssProperty::BorderBlock => {},
        CssProperty::BorderBlockClip => {},
        CssProperty::BorderBlockColor => {},
        CssProperty::BorderBlockEnd => {},
        CssProperty::BorderBlockEndClip => {},
        CssProperty::BorderBlockEndColor => {},
        CssProperty::BorderBlockEndRadius => {},
        CssProperty::BorderBlockEndStyle => {},
        CssProperty::BorderBlockEndWidth => {},
        CssProperty::BorderBlockStart => {},
        CssProperty::BorderBlockStartClip => {},
        CssProperty::BorderBlockStartColor => {},
        CssProperty::BorderBlockStartRadius => {},
        CssProperty::BorderBlockStartStyle => {},
        CssProperty::BorderBlockStartWidth => {},
        CssProperty::BorderBlockStyle => {},
        CssProperty::BorderBlockWidth => {},
        CssProperty::BorderBottom => {},
        CssProperty::BorderBottomClip => {},
        CssProperty::BorderBottomColor => {},
        CssProperty::BorderBottomLeftRadius => {},
        CssProperty::BorderBottomRadius => {},
        CssProperty::BorderBottomRightRadius => {},
        CssProperty::BorderBottomStyle => {},
        CssProperty::BorderBottomWidth => {},
        CssProperty::BorderBoundary => {},
        CssProperty::BorderClip => {},
        CssProperty::BorderCollapse => {},
        CssProperty::BorderColor => {},
        CssProperty::BorderEndEndRadius => {},
        CssProperty::BorderEndStartRadius => {},
        CssProperty::BorderImage => {},
        CssProperty::BorderImageOutset => {},
        CssProperty::BorderImageRepeat => {},
        CssProperty::BorderImageSlice => {},
        CssProperty::BorderImageSource => {},
        CssProperty::BorderImageWidth => {},
        CssProperty::BorderInline => {},
        CssProperty::BorderInlineClip => {},
        CssProperty::BorderInlineColor => {},
        CssProperty::BorderInlineEnd => {},
        CssProperty::BorderInlineEndClip => {},
        CssProperty::BorderInlineEndColor => {},
        CssProperty::BorderInlineEndRadius => {},
        CssProperty::BorderInlineEndStyle => {},
        CssProperty::BorderInlineEndWidth => {},
        CssProperty::BorderInlineStart => {},
        CssProperty::BorderInlineStartClip => {},
        CssProperty::BorderInlineStartColor => {},
        CssProperty::BorderInlineStartRadius => {},
        CssProperty::BorderInlineStartStyle => {},
        CssProperty::BorderInlineStartWidth => {},
        CssProperty::BorderInlineStyle => {},
        CssProperty::BorderInlineWidth => {},
        CssProperty::BorderLeft => {},
        CssProperty::BorderLeftClip => {},
        CssProperty::BorderLeftColor => {},
        CssProperty::BorderLeftRadius => {},
        CssProperty::BorderLeftStyle => {},
        CssProperty::BorderLeftWidth => {},
        CssProperty::BorderLimit => {},
        CssProperty::BorderRadius => {},
        CssProperty::BorderRight => {},
        CssProperty::BorderRightClip => {},
        CssProperty::BorderRightColor => {},
        CssProperty::BorderRightRadius => {},
        CssProperty::BorderRightStyle => {},
        CssProperty::BorderRightWidth => {},
        CssProperty::BorderShape => {},
        CssProperty::BorderSpacing => {},
        _ => lemma_metadata_part_2(property),
    }
}

proof fn lemma_metadata_part_2(property: CssProperty)
    ensures
        property.spec_syntax() == documented_syntax(property),
        property.spec_initial() == documented_initial(property),
        property != CssProperty::WhiteSpace ==> (property.spec_inherited() == documented_inherited(property)),
        CssProperty::WhiteSpace.spec_inherited(),
{
    match property {
        CssProperty::BorderStartEndRadius => {},
        CssProperty::BorderStartStartRadius => {},
        CssProperty::BorderStyle => {},
        CssProperty::BorderTop => {},
        CssProperty::BorderTopClip => {},
        CssProperty::BorderTopColor => {},
        CssProperty::BorderTopLeftRadius => {},
        CssProperty::BorderTopRadius => {},
        CssProperty::BorderTopRightRadius => {},
        CssProperty::BorderTopStyle => {},
        CssProperty::BorderTopWidth => {},
        CssProperty::BorderWidth => {},
        CssProperty::Bottom => {},
        CssProperty::BoxDecorationBreak => {},
        CssProperty::BoxShadow => {},
        CssProperty::BoxShadowBlur => {},
        CssProperty::BoxShadowColor => {},
        CssProperty::BoxShadowOffset => {},
        CssProperty::BoxShadowPosition => {},
        CssProperty::BoxShadowSpread => {},
        CssProperty::BoxSizing => {},
        CssProperty::BoxSnap => {},
        CssProperty::BreakAfter => {},
        CssProperty::BreakBefore => {},
        CssProperty::BreakInside => {},
        CssProperty::CaptionSide => {},
        CssProperty::Caret => {},
        CssProperty::CaretAnimation => {},
        CssProperty::CaretColor => {},
        CssProperty::CaretShape => {},
        CssProperty::Clear => {},
        CssProperty::Clip => {},
        CssProperty::ClipPath => {},
        CssProperty::ClipRule => {},
        CssProperty::Color => {},
        CssProperty::ColorAdjust => {},
        CssProperty::ColorInterpolation => {},
        CssProperty::ColorInterpolationFilters => {},
        CssProperty::ColorScheme => {},
        CssProperty::ColumnCount => {},
        CssProperty::ColumnFill => {},
        CssProperty::ColumnGap => {},
        CssProperty::ColumnHeight => {},
        CssProperty::ColumnRule => {},
        CssProperty::ColumnRuleBreak => {},
        CssProperty::ColumnRuleColor => {},
        CssProperty::ColumnRuleInset => {},
        CssProperty::ColumnRuleInsetCap => {},
        CssProperty::ColumnRuleInsetCapEnd => {},
        CssProperty::ColumnRuleInsetCapStart => {},
        CssProperty::ColumnRuleInsetEnd => {},
        CssProperty::ColumnRuleInsetJunction => {},
        CssProperty::ColumnRuleInsetJunctionEnd => {},
        CssProperty::ColumnRuleInsetJunctionStart => {},
        CssProperty::ColumnRuleInsetStart => {},
        CssProperty::ColumnRuleStyle => {},
        CssProperty::ColumnRuleVisibilityItems => {},
        CssProperty::ColumnRuleWidth => {},
        CssProperty::ColumnSpan => {},
        CssProperty::ColumnWidth => {},
        CssProperty::ColumnWrap => {},
        CssProperty::Columns => {},
        CssProperty::Contain => {},
        CssProperty::ContainIntrinsicBlockSize => {},
        CssProperty::ContainIntrinsicHeight => {},
        CssProperty::ContainIntrinsicInlineSize => {},
        CssProperty::ContainIntrinsicSize => {},
        CssProperty::ContainIntrinsicWidth => {},
        CssProperty::Container => {},
        CssProperty::ContainerName => {},
        CssProperty::ContainerType => {},
        CssProperty::Content => {},
        CssProperty::ContentVisibility => {},
        CssProperty::Continue => {},
        CssProperty::CopyInto => {},
        CssProperty::Corner => {},
        CssProperty::CornerBlockEnd => {},
        CssProperty::CornerBlockEndShape => {},
        CssProperty::CornerBlockStart => {},
        CssProperty::CornerBlockStartShape => {},
        CssProperty::CornerBottom => {},
        CssProperty::CornerBottomLeft => {},
        CssProperty::CornerBottomLeftShape => {},
        CssProperty::CornerBottomRight => {},
        CssProperty::CornerBottomRightShape => {},
        CssProperty::CornerBottomShape => {},
        CssProperty::CornerEndEnd => {},
        CssProperty::CornerEndEndShape => {},
        CssProperty::CornerEndStart => {},
        CssProperty::CornerEndStartShape => {},
        CssProperty::CornerInlineEnd => {},
        CssProperty::CornerInlineEndShape => {},
        CssProperty::CornerInlineStart => {},
        CssProperty::CornerInlineStartShape => {},
        CssProperty::CornerLeft => {},
        CssProperty::CornerLeftShape => {},
        CssProperty::CornerRight => {},
        CssProperty::CornerRightShape => {},
        CssProperty::CornerShape => {},
        CssProperty::CornerStartEnd => {},
        _ => lemma_metadata_part_3(property),
    }
}

proof fn lemma_metadata_part_3(property: CssProperty)
    ensures
        property.spec_syntax() == documented_syntax(property),
        property.spec_initial() == documented_initial(property),
        property != CssProperty::WhiteSpace ==> (property.spec_inherited() == documented_inherited(property)),
        CssProperty::WhiteSpace.spec_inherited(),
{
    match property {
        CssProperty::CornerStartEndShape => {},
        CssProperty::CornerStartStart => {},
        CssProperty::CornerStartStartShape => {},
        CssProperty::CornerTop => {},
        CssProperty::CornerTopLeft => {},
        CssProperty::CornerTopLeftShape => {},
        CssProperty::CornerTopRight => {},
        CssProperty::CornerTopRightShape => {},
        CssProperty::CornerTopShape => {},
        CssProperty::CounterIncrement => {},
        CssProperty::CounterReset => {},
        CssProperty::CounterSet => {},
        CssProperty::Cue => {},
        CssProperty::CueAfter => {},
        CssProperty::CueBefore => {},
        CssProperty::Cursor => {},
        CssProperty::Cx => {},
        CssProperty::Cy => {},
        CssProperty::D => {},
        CssProperty::Direction => {},
        CssProperty::Display => {},
        CssProperty::DominantBaseline => {},
        CssProperty::DynamicRangeLimit => {},
        CssProperty::EmptyCells => {},
        CssProperty::EventTrigger => {},
        CssProperty::EventTriggerName => {},
        CssProperty::EventTriggerSource => {},
        CssProperty::FieldSizing => {},
        CssProperty::Fill => {},
        CssProperty::FillBreak => {},
        CssProperty::FillColor => {},
        CssProperty::FillImage => {},
        CssProperty::FillOpacity => {},
        CssProperty::FillOrigin => {},
        CssProperty::FillPosition => {},
        CssProperty::FillRepeat => {},
        CssProperty::FillRule => {},
        CssProperty::FillSize => {},
        CssProperty::Filter => {},
        CssProperty::Flex => {},
        CssProperty::FlexBasis => {},
        CssProperty::FlexDirection => {},
        CssProperty::FlexFlow => {},
        CssProperty::FlexGrow => {},
        CssProperty::FlexShrink => {},
        CssProperty::FlexWrap => {},
        CssProperty::Float => {},
        CssProperty::FloatDefer => {},
        CssProperty::FloatOffset => {},
        CssProperty::FloatReference => {},
        CssProperty::FloodColor => {},
        CssProperty::FloodOpacity => {},
        CssProperty::FlowFrom => {},
        CssProperty::FlowInto => {},
        CssProperty::FlowTolerance => {},
        CssProperty::Font => {},
        CssProperty::FontFamily => {},
        CssProperty::FontFeatureSettings => {},
        CssProperty::FontKerning => {},
        CssProperty::FontLanguageOverride => {},
        CssProperty::FontOpticalSizing => {},
        CssProperty::FontPalette => {},
        CssProperty::FontSize => {},
        CssProperty::FontSizeAdjust => {},
        CssProperty::FontStretch => {},
        CssProperty::FontStyle => {},
        CssProperty::FontSynthesis => {},
        CssProperty::FontSynthesisPosition => {},
        CssProperty::FontSynthesisSmallCaps => {},
        CssProperty::FontSynthesisStyle => {},
        CssProperty::FontSynthesisWeight => {},
        CssProperty::FontVariant => {},
        CssProperty::FontVariantAlternates => {},
        CssProperty::FontVariantCaps => {},
        CssProperty::FontVariantEastAsian => {},
        CssProperty::FontVariantEmoji => {},
        CssProperty::FontVariantLigatures => {},
        CssProperty::FontVariantNumeric => {},
        CssProperty::FontVariantPosition => {},
        CssProperty::FontVariationSettings => {},
        CssProperty::FontWeight => {},
        CssProperty::FontWidth => {},
        CssProperty::FootnoteDisplay => {},
        CssProperty::FootnotePolicy => {},
        CssProperty::ForcedColorAdjust => {},
        CssProperty::FrameSizing => {},
        CssProperty::Gap => {},
        CssProperty::GlyphOrientationVertical => {},
        CssProperty::Grid => {},
        CssProperty::GridArea => {},
        CssProperty::GridAutoColumns => {},
        CssProperty::GridAutoFlow => {},
        CssProperty::GridAutoRows => {},
        CssProperty::GridColumn => {},
        CssProperty::GridColumnEnd => {},
        CssProperty::GridColumnGap => {},
        CssProperty::GridColumnStart => {},
        CssProperty::GridGap => {},
        CssProperty::GridRow => {},
        CssProperty::GridRowEnd => {},
        _ => lemma_metadata_part_4(property),
    }
}

proof fn lemma_metadata_part_4(property: CssProperty)
    ensures
        property.spec_syntax() == documented_syntax(property),
        property.spec_initial() == documented_initial(property),
        property != CssProperty::WhiteSpace ==> (property.spec_inherited() == documented_inherited(property)),
        CssProperty::WhiteSpace.spec_inherited(),
{
    match property {
        CssProperty::GridRowGap => {},
        CssProperty::GridRowStart => {},
        CssProperty::GridTemplate => {},
        CssProperty::GridTemplateAreas => {},
        CssProperty::GridTemplateColumns => {},
        CssProperty::GridTemplateRows => {},
        CssProperty::HangingPunctuation => {},
        CssProperty::Height => {},
        CssProperty::HyphenateCharacter => {},
        CssProperty::HyphenateLimitChars => {},
        CssProperty::HyphenateLimitLast => {},
        CssProperty::HyphenateLimitLines => {},
        CssProperty::HyphenateLimitZone => {},
        CssProperty::Hyphens => {},
        CssProperty::ImageAnimation => {},
        CssProperty::ImageOrientation => {},
        CssProperty::ImageRendering => {},
        CssProperty::ImageResolution => {},
        CssProperty::InitialLetter => {},
        CssProperty::InitialLetterAlign => {},
        CssProperty::InitialLetterWrap => {},
        CssProperty::InlineSize => {},
        CssProperty::InlineSizing => {},
        CssProperty::InputSecurity => {},
        CssProperty::Inset => {},
        CssProperty::InsetBlock => {},
        CssProperty::InsetBlockEnd => {},
        CssProperty::InsetBlockStart => {},
        CssProperty::InsetInline => {},
        CssProperty::InsetInlineEnd => {},
        CssProperty::InsetInlineStart => {},
        CssProperty::Interactivity => {},
        CssProperty::InterestDelay => {},
        CssProperty::InterestDelayEnd => {},
        CssProperty::InterestDelayStart => {},
        CssProperty::InterpolateSize => {},
        CssProperty::Isolation => {},
        CssProperty::JustifyContent => {},
        CssProperty::JustifyItems => {},
        CssProperty::JustifySelf => {},
        CssProperty::Left => {},
        CssProperty::LetterSpacing => {},
        CssProperty::LightingColor => {},
        CssProperty::LineBreak => {},
        CssProperty::LineClamp => {},
        CssProperty::LineFitEdge => {},
        CssProperty::LineGrid => {},
        CssProperty::LineHeight => {},
        CssProperty::LineHeightStep => {},
        CssProperty::LinePadding => {},
        CssProperty::LineSnap => {},
        CssProperty::LinkParameters => {},
        CssProperty::ListStyle => {},
        CssProperty::ListStyleImage => {},
        CssProperty::ListStylePosition => {},
        CssProperty::ListStyleType => {},
        CssProperty::Margin => {},
        CssProperty::MarginBlock => {},
        CssProperty::MarginBlockEnd => {},
        CssProperty::MarginBlockStart => {},
        CssProperty::MarginBottom => {},
        CssProperty::MarginBreak => {},
        CssProperty::MarginInline => {},
        CssProperty::MarginInlineEnd => {},
        CssProperty::MarginInlineStart => {},
        CssProperty::MarginLeft => {},
        CssProperty::MarginRight => {},
        CssProperty::MarginTop => {},
        CssProperty::MarginTrim => {},
        CssProperty::Marker => {},
        CssProperty::MarkerEnd => {},
        CssProperty::MarkerMid => {},
        CssProperty::MarkerSide => {},
        CssProperty::MarkerStart => {},
        CssProperty::Mask => {},
        CssProperty::MaskBorder => {},
        CssProperty::MaskBorderMode => {},
        CssProperty::MaskBorderOutset => {},
        CssProperty::MaskBorderRepeat => {},
        CssProperty::MaskBorderSlice => {},
        CssProperty::MaskBorderSource => {},
        CssProperty::MaskBorderWidth => {},
        CssProperty::MaskClip => {},
        CssProperty::MaskComposite => {},
        CssProperty::MaskImage => {},
        CssProperty::MaskMode => {},
        CssProperty::MaskOrigin => {},
        CssProperty::MaskPosition => {},
        CssProperty::MaskRepeat => {},
        CssProperty::MaskSize => {},
        CssProperty::MaskType => {},
        CssProperty::MathDepth => {},
        CssProperty::MathShift => {},
        CssProperty::MathStyle => {},
        CssProperty::MaxBlockSize => {},
        CssProperty::MaxHeight => {},
        CssProperty::MaxInlineSize => {},
        CssProperty::MaxLines => {},
        CssProperty::MaxWidth => {},
        CssProperty::MinBlockSize => {},
        _ => lemma_metadata_part_5(property),
    }
}

proof fn lemma_metadata_part_5(property: CssProperty)
    ensures
        property.spec_syntax() == documented_syntax(property),
        property.spec_initial() == documented_initial(property),
        property != CssProperty::WhiteSpace ==> (property.spec_inherited() == documented_inherited(property)),
        CssProperty::WhiteSpace.spec_inherited(),
{
    match property {
        CssProperty::MinHeight => {},
        CssProperty::MinInlineSize => {},
        CssProperty::MinIntrinsicSizing => {},
        CssProperty::MinWidth => {},
        CssProperty::MixBlendMode => {},
        CssProperty::NavDown => {},
        CssProperty::NavLeft => {},
        CssProperty::NavRight => {},
        CssProperty::NavUp => {},
        CssProperty::ObjectFit => {},
        CssProperty::ObjectPosition => {},
        CssProperty::ObjectViewBox => {},
        CssProperty::Offset => {},
        CssProperty::OffsetAnchor => {},
        CssProperty::OffsetDistance => {},
        CssProperty::OffsetPath => {},
        CssProperty::OffsetPosition => {},
        CssProperty::OffsetRotate => {},
        CssProperty::Opacity => {},
        CssProperty::Order => {},
        CssProperty::Orphans => {},
        CssProperty::Outline => {},
        CssProperty::OutlineColor => {},
        CssProperty::OutlineOffset => {},
        CssProperty::OutlineStyle => {},
        CssProperty::OutlineWidth => {},
        CssProperty::Overflow => {},
        CssProperty::OverflowAnchor => {},
        CssProperty::OverflowBlock => {},
        CssProperty::OverflowClipMargin => {},
        CssProperty::OverflowClipMarginBlock => {},
        CssProperty::OverflowClipMarginBlockEnd => {},
        CssProperty::OverflowClipMarginBlockStart => {},
        CssProperty::OverflowClipMarginBottom => {},
        CssProperty::OverflowClipMarginInline => {},
        CssProperty::OverflowClipMarginInlineEnd => {},
        CssProperty::OverflowClipMarginInlineStart => {},
        CssProperty::OverflowClipMarginLeft => {},
        CssProperty::OverflowClipMarginRight => {},
        CssProperty::OverflowClipMarginTop => {},
        CssProperty::OverflowInline => {},
        CssProperty::OverflowWrap => {},
        CssProperty::OverflowX => {},
        CssProperty::OverflowY => {},
        CssProperty::Overlay => {},
        CssProperty::OverscrollBehavior => {},
        CssProperty::OverscrollBehaviorBlock => {},
        CssProperty::OverscrollBehaviorInline => {},
        CssProperty::OverscrollBehaviorX => {},
        CssProperty::OverscrollBehaviorY => {},
        CssProperty::Padding => {},
        CssProperty::PaddingBlock => {},
        CssProperty::PaddingBlockEnd => {},
        CssProperty::PaddingBlockStart => {},
        CssProperty::PaddingBottom => {},
        CssProperty::PaddingInline => {},
        CssProperty::PaddingInlineEnd => {},
        CssProperty::PaddingInlineStart => {},
        CssProperty::PaddingLeft => {},
        CssProperty::PaddingRight => {},
        CssProperty::PaddingTop => {},
        CssProperty::Page => {},
        CssProperty::PageBreakAfter => {},
        CssProperty::PageBreakBefore => {},
        CssProperty::PageBreakInside => {},
        CssProperty::PaintOrder => {},
        CssProperty::PathLength => {},
        CssProperty::Pause => {},
        CssProperty::PauseAfter => {},
        CssProperty::PauseBefore => {},
        CssProperty::Perspective => {},
        CssProperty::PerspectiveOrigin => {},
        CssProperty::PlaceContent => {},
        CssProperty::PlaceItems => {},
        CssProperty::PlaceSelf => {},
        CssProperty::PointerEvents => {},
        CssProperty::PointerTimeline => {},
        CssProperty::PointerTimelineAxis => {},
        CssProperty::PointerTimelineName => {},
        CssProperty::Position => {},
        CssProperty::PositionAnchor => {},
        CssProperty::PositionArea => {},
        CssProperty::PositionTry => {},
        CssProperty::PositionTryFallbacks => {},
        CssProperty::PositionTryOrder => {},
        CssProperty::PositionVisibility => {},
        CssProperty::PrintColorAdjust => {},
        CssProperty::Quotes => {},
        CssProperty::R => {},
        CssProperty::ReadingFlow => {},
        CssProperty::ReadingOrder => {},
        CssProperty::RegionFragment => {},
        CssProperty::Resize => {},
        CssProperty::Rest => {},
        CssProperty::RestAfter => {},
        CssProperty::RestBefore => {},
        CssProperty::Right => {},
        CssProperty::Rotate => {},
        CssProperty::RowGap => {},
        CssProperty::RowRule => {},
        _ => lemma_metadata_part_6(property),
    }
}

proof fn lemma_metadata_part_6(property: CssProperty)
    ensures
        property.spec_syntax() == documented_syntax(property),
        property.spec_initial() == documented_initial(property),
        property != CssProperty::WhiteSpace ==> (property.spec_inherited() == documented_inherited(property)),
        CssProperty::WhiteSpace.spec_inherited(),
{
    match property {
        CssProperty::RowRuleBreak => {},
        CssProperty::RowRuleColor => {},
        CssProperty::RowRuleInset => {},
        CssProperty::RowRuleInsetCap => {},
        CssProperty::RowRuleInsetCapEnd => {},
        CssProperty::RowRuleInsetCapStart => {},
        CssProperty::RowRuleInsetEnd => {},
        CssProperty::RowRuleInsetJunction => {},
        CssProperty::RowRuleInsetJunctionEnd => {},
        CssProperty::RowRuleInsetJunctionStart => {},
        CssProperty::RowRuleInsetStart => {},
        CssProperty::RowRuleStyle => {},
        CssProperty::RowRuleVisibilityItems => {},
        CssProperty::RowRuleWidth => {},
        CssProperty::RubyAlign => {},
        CssProperty::RubyMerge => {},
        CssProperty::RubyOverhang => {},
        CssProperty::RubyPosition => {},
        CssProperty::Rule => {},
        CssProperty::RuleBreak => {},
        CssProperty::RuleColor => {},
        CssProperty::RuleInset => {},
        CssProperty::RuleInsetCap => {},
        CssProperty::RuleInsetEnd => {},
        CssProperty::RuleInsetJunction => {},
        CssProperty::RuleInsetStart => {},
        CssProperty::RuleOverlap => {},
        CssProperty::RuleStyle => {},
        CssProperty::RuleVisibilityItems => {},
        CssProperty::RuleWidth => {},
        CssProperty::Rx => {},
        CssProperty::Ry => {},
        CssProperty::Scale => {},
        CssProperty::ScrollBehavior => {},
        CssProperty::ScrollInitialTarget => {},
        CssProperty::ScrollMargin => {},
        CssProperty::ScrollMarginBlock => {},
        CssProperty::ScrollMarginBlockEnd => {},
        CssProperty::ScrollMarginBlockStart => {},
        CssProperty::ScrollMarginBottom => {},
        CssProperty::ScrollMarginInline => {},
        CssProperty::ScrollMarginInlineEnd => {},
        CssProperty::ScrollMarginInlineStart => {},
        CssProperty::ScrollMarginLeft => {},
        CssProperty::ScrollMarginRight => {},
        CssProperty::ScrollMarginTop => {},
        CssProperty::ScrollMarkerGroup => {},
        CssProperty::ScrollPadding => {},
        CssProperty::ScrollPaddingBlock => {},
        CssProperty::ScrollPaddingBlockEnd => {},
        CssProperty::ScrollPaddingBlockStart => {},
        CssProperty::ScrollPaddingBottom => {},
        CssProperty::ScrollPaddingInline => {},
        CssProperty::ScrollPaddingInlineEnd => {},
        CssProperty::ScrollPaddingInlineStart => {},
        CssProperty::ScrollPaddingLeft => {},
        CssProperty::ScrollPaddingRight => {},
        CssProperty::ScrollPaddingTop => {},
        CssProperty::ScrollSnapAlign => {},
        CssProperty::ScrollSnapStop => {},
        CssProperty::ScrollSnapType => {},
        CssProperty::ScrollTargetGroup => {},
        CssProperty::ScrollTimeline => {},
        CssProperty::ScrollTimelineAxis => {},
        CssProperty::ScrollTimelineName => {},
        CssProperty::ScrollbarColor => {},
        CssProperty::ScrollbarGutter => {},
        CssProperty::ScrollbarInset => {},
        CssProperty::ScrollbarMinThumbSize => {},
        CssProperty::ScrollbarMode => {},
        CssProperty::ScrollbarWidth => {},
        CssProperty::ShapeImageThreshold => {},
        CssProperty::ShapeInside => {},
        CssProperty::ShapeMargin => {},
        CssProperty::ShapeOutside => {},
        CssProperty::ShapePadding => {},
        CssProperty::ShapeRendering => {},
        CssProperty::SliderOrientation => {},
        CssProperty::SpatialNavigationAction => {},
        CssProperty::SpatialNavigationContain => {},
        CssProperty::SpatialNavigationFunction => {},
        CssProperty::Speak => {},
        CssProperty::SpeakAs => {},
        CssProperty::StopColor => {},
        CssProperty::StopOpacity => {},
        CssProperty::StringSet => {},
        CssProperty::Stroke => {},
        CssProperty::StrokeAlign => {},
        CssProperty::StrokeAlignment => {},
        CssProperty::StrokeBreak => {},
        CssProperty::StrokeColor => {},
        CssProperty::StrokeDashCornerPropdefStrokeDashCorner => {},
        CssProperty::StrokeDashJustify => {},
        CssProperty::StrokeDashadjust => {},
        CssProperty::StrokeDasharray => {},
        CssProperty::StrokeDashcornerStrokedashcornerproperty => {},
        CssProperty::StrokeDashoffset => {},
        CssProperty::StrokeImage => {},
        CssProperty::StrokeLinecap => {},
        CssProperty::StrokeLinejoin => {},
        _ => lemma_metadata_part_7(property),
    }
}

proof fn lemma_metadata_part_7(property: CssProperty)
    ensures
        property.spec_syntax() == documented_syntax(property),
        property.spec_initial() == documented_initial(property),
        property != CssProperty::WhiteSpace ==> (property.spec_inherited() == documented_inherited(property)),
        CssProperty::WhiteSpace.spec_inherited(),
{
    match property {
        CssProperty::StrokeMiterlimit => {},
        CssProperty::StrokeOpacity => {},
        CssProperty::StrokeOrigin => {},
        CssProperty::StrokePosition => {},
        CssProperty::StrokeRepeat => {},
        CssProperty::StrokeSize => {},
        CssProperty::StrokeWidth => {},
        CssProperty::TabSize => {},
        CssProperty::TableLayout => {},
        CssProperty::TextAlign => {},
        CssProperty::TextAlignAll => {},
        CssProperty::TextAlignLast => {},
        CssProperty::TextAnchor => {},
        CssProperty::TextAutospace => {},
        CssProperty::TextBox => {},
        CssProperty::TextBoxEdge => {},
        CssProperty::TextBoxTrim => {},
        CssProperty::TextCombineUpright => {},
        CssProperty::TextDecoration => {},
        CssProperty::TextDecorationColor => {},
        CssProperty::TextDecorationInset => {},
        CssProperty::TextDecorationLine => {},
        CssProperty::TextDecorationSkip => {},
        CssProperty::TextDecorationSkipBox => {},
        CssProperty::TextDecorationSkipInk => {},
        CssProperty::TextDecorationSkipSelf => {},
        CssProperty::TextDecorationSkipSpaces => {},
        CssProperty::TextDecorationStyle => {},
        CssProperty::TextDecorationThickness => {},
        CssProperty::TextEmphasis => {},
        CssProperty::TextEmphasisColor => {},
        CssProperty::TextEmphasisPosition => {},
        CssProperty::TextEmphasisSkip => {},
        CssProperty::TextEmphasisStyle => {},
        CssProperty::TextFit => {},
        CssProperty::TextGroupAlign => {},
        CssProperty::TextIndent => {},
        CssProperty::TextJustify => {},
        CssProperty::TextOrientation => {},
        CssProperty::TextOverflow => {},
        CssProperty::TextRendering => {},
        CssProperty::TextShadow => {},
        CssProperty::TextSizeAdjust => {},
        CssProperty::TextSpacing => {},
        CssProperty::TextSpacingTrim => {},
        CssProperty::TextTransform => {},
        CssProperty::TextUnderlineOffset => {},
        CssProperty::TextUnderlinePosition => {},
        CssProperty::TextWrap => {},
        CssProperty::TextWrapMode => {},
        CssProperty::TextWrapStyle => {},
        CssProperty::TimelineScope => {},
        CssProperty::TimelineTrigger => {},
        CssProperty::TimelineTriggerActivationRange => {},
        CssProperty::TimelineTriggerActivationRangeEnd => {},
        CssProperty::TimelineTriggerActivationRangeStart => {},
        CssProperty::TimelineTriggerActiveRange => {},
        CssProperty::TimelineTriggerActiveRangeEnd => {},
        CssProperty::TimelineTriggerActiveRangeStart => {},
        CssProperty::TimelineTriggerName => {},
        CssProperty::TimelineTriggerSource => {},
        CssProperty::Top => {},
        CssProperty::TouchAction => {},
        CssProperty::Transform => {},
        CssProperty::TransformBox => {},
        CssProperty::TransformOrigin => {},
        CssProperty::TransformStyle => {},
        CssProperty::Transition => {},
        CssProperty::TransitionBehavior => {},
        CssProperty::TransitionDelay => {},
        CssProperty::TransitionDuration => {},
        CssProperty::TransitionProperty => {},
        CssProperty::TransitionTimingFunction => {},
        CssProperty::Translate => {},
        CssProperty::TriggerScope => {},
        CssProperty::UnicodeBidi => {},
        CssProperty::UserSelect => {},
        CssProperty::VectorEffect => {},
        CssProperty::VerticalAlign => {},
        CssProperty::ViewTimeline => {},
        CssProperty::ViewTimelineAxis => {},
        CssProperty::ViewTimelineInset => {},
        CssProperty::ViewTimelineName => {},
        CssProperty::ViewTransitionClass => {},
        CssProperty::ViewTransitionGroup => {},
        CssProperty::ViewTransitionName => {},
        CssProperty::ViewTransitionScope => {},
        CssProperty::Visibility => {},
        CssProperty::VoiceBalance => {},
        CssProperty::VoiceDuration => {},
        CssProperty::VoiceFamily => {},
        CssProperty::VoicePitch => {},
        CssProperty::VoiceRange => {},
        CssProperty::VoiceRate => {},
        CssProperty::VoiceStress => {},
        CssProperty::VoiceVolume => {},
        CssProperty::WhiteSpace => {},
        CssProperty::WhiteSpaceCollapse => {},
        CssProperty::WhiteSpaceTrim => {},
        CssProperty::Widows => {},
        _ => lemma_metadata_part_8(property),
    }
}

proof fn lemma_metadata_part_8(property: CssProperty)
    ensures
        property.spec_syntax() == documented_syntax(property),
        property.spec_initial() == documented_initial(property),
        property != CssProperty::WhiteSpace ==> (property.spec_inherited() == documented_inherited(property)),
        CssProperty::WhiteSpace.spec_inherited(),
{
    match property {
        CssProperty::Width => {},
        CssProperty::WillChange => {},
        CssProperty::WordBreak => {},
        CssProperty::WordSpaceTransform => {},
        CssProperty::WordSpacing => {},
        CssProperty::WordWrap => {},
        CssProperty::WrapAfter => {},
        CssProperty::WrapBefore => {},
        CssProperty::WrapFlow => {},
        CssProperty::WrapInside => {},
        CssProperty::WrapThrough => {},
        CssProperty::WritingMode => {},
        CssProperty::X => {},
        CssProperty::Y => {},
        CssProperty::ZIndex => {},
        CssProperty::Zoom => {},
        _ => {},
    }
}

} // verus!
