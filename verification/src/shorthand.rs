//! Shorthand properties: which longhands each one sets, and how a list of
//! values is spread over them.
use vstd::prelude::*;

use crate::css_property::CssProperty;

verus! {

/// The longhand properties that a shorthand sets, in the order its definition
/// lists them; empty when the property is not a shorthand.
pub open spec fn spec_longhands_of(property: CssProperty) -> Seq<CssProperty> {
    match property {
        CssProperty::WebkitAnimation => seq![CssProperty::AnimationName, CssProperty::AnimationDuration, CssProperty::AnimationTimingFunction, CssProperty::AnimationDelay, CssProperty::AnimationIterationCount, CssProperty::AnimationDirection, CssProperty::AnimationFillMode, CssProperty::AnimationPlayState, CssProperty::AnimationTimeline],
        CssProperty::WebkitBorderRadius => seq![CssProperty::BorderTopLeftRadius, CssProperty::BorderTopRightRadius, CssProperty::BorderBottomRightRadius, CssProperty::BorderBottomLeftRadius],
        CssProperty::WebkitBoxShadow => seq![CssProperty::BoxShadowColor, CssProperty::BoxShadowOffset, CssProperty::BoxShadowBlur, CssProperty::BoxShadowSpread, CssProperty::BoxShadowPosition],
        CssProperty::WebkitFlex => seq![CssProperty::FlexGrow, CssProperty::FlexShrink, CssProperty::FlexBasis],
        CssProperty::WebkitFlexFlow => seq![CssProperty::FlexDirection, CssProperty::FlexWrap],
        CssProperty::WebkitLineClamp => seq![CssProperty::MaxLines, CssProperty::BlockEllipsis, CssProperty::Continue],
        CssProperty::WebkitMask => seq![CssProperty::MaskImage, CssProperty::MaskPosition, CssProperty::MaskSize, CssProperty::MaskRepeat, CssProperty::MaskOrigin, CssProperty::MaskClip, CssProperty::MaskComposite, CssProperty::MaskMode],
        CssProperty::WebkitMaskBoxImage => seq![CssProperty::MaskBorderSource, CssProperty::MaskBorderSlice, CssProperty::MaskBorderWidth, CssProperty::MaskBorderOutset, CssProperty::MaskBorderRepeat, CssProperty::MaskBorderMode],
        CssProperty::WebkitTextStroke => seq![CssProperty::WebkitTextStrokeWidth, CssProperty::WebkitTextStrokeColor],
        CssProperty::WebkitTransition => seq![CssProperty::TransitionProperty, CssProperty::TransitionDuration, CssProperty::TransitionTimingFunction, CssProperty::TransitionDelay, CssProperty::TransitionBehavior],
        CssProperty::Animation => seq![CssProperty::AnimationName, CssProperty::AnimationDuration, CssProperty::AnimationTimingFunction, CssProperty::AnimationDelay, CssProperty::AnimationIterationCount, CssProperty::AnimationDirection, CssProperty::AnimationFillMode, CssProperty::AnimationPlayState, CssProperty::AnimationTimeline],
        CssProperty::AnimationRange => seq![CssProperty::AnimationRangeStart, CssProperty::AnimationRangeEnd],
        CssProperty::Background => seq![CssProperty::BackgroundImage, CssProperty::BackgroundPosition, CssProperty::BackgroundSize, CssProperty::BackgroundRepeat, CssProperty::BackgroundAttachment, CssProperty::BackgroundOrigin, CssProperty::BackgroundClip, CssProperty::BackgroundColor],
        CssProperty::BackgroundPosition => seq![CssProperty::BackgroundPositionX, CssProperty::BackgroundPositionY],
        CssProperty::BlockStep => seq![CssProperty::BlockStepSize, CssProperty::BlockStepInsert, CssProperty::BlockStepAlign, CssProperty::BlockStepRound],
        CssProperty::Border => seq![CssProperty::BorderWidth, CssProperty::BorderStyle, CssProperty::BorderColor],
        CssProperty::BorderBlock => seq![CssProperty::BorderBlockStart, CssProperty::BorderBlockEnd],
        CssProperty::BorderBlockClip => seq![CssProperty::BorderBlockStartClip, CssProperty::BorderBlockEndClip],
        CssProperty::BorderBlockColor => seq![CssProperty::BorderBlockStartColor, CssProperty::BorderBlockEndColor],
        CssProperty::BorderBlockEnd => seq![CssProperty::BorderBlockEndWidth, CssProperty::BorderBlockEndStyle, CssProperty::BorderBlockEndColor],
        CssProperty::BorderBlockEndRadius => seq![CssProperty::BorderEndStartRadius, CssProperty::BorderEndEndRadius],
        CssProperty::BorderBlockStart => seq![CssProperty::BorderBlockStartWidth, CssProperty::BorderBlockStartStyle, CssProperty::BorderBlockStartColor],
        CssProperty::BorderBlockStartRadius => seq![CssProperty::BorderStartStartRadius, CssProperty::BorderStartEndRadius],
        CssProperty::BorderBlockStyle => seq![CssProperty::BorderBlockStartStyle, CssProperty::BorderBlockEndStyle],
        CssProperty::BorderBlockWidth => seq![CssProperty::BorderBlockStartWidth, CssProperty::BorderBlockEndWidth],
        CssProperty::BorderBottom => seq![CssProperty::BorderBottomWidth, CssProperty::BorderBottomStyle, CssProperty::BorderBottomColor],
        CssProperty::BorderBottomRadius => seq![CssProperty::BorderBottomLeftRadius, CssProperty::BorderBottomRightRadius],
        CssProperty::BorderClip => seq![CssProperty::BorderTopClip, CssProperty::BorderRightClip, CssProperty::BorderBottomClip, CssProperty::BorderLeftClip],
        CssProperty::BorderColor => seq![CssProperty::BorderTopColor, CssProperty::BorderRightColor, CssProperty::BorderBottomColor, CssProperty::BorderLeftColor],
        CssProperty::BorderImage => seq![CssProperty::BorderImageSource, CssProperty::BorderImageSlice, CssProperty::BorderImageWidth, CssProperty::BorderImageOutset, CssProperty::BorderImageRepeat],
        CssProperty::BorderInline => seq![CssProperty::BorderInlineStart, CssProperty::BorderInlineEnd],
        CssProperty::BorderInlineClip => seq![CssProperty::BorderInlineStartClip, CssProperty::BorderInlineEndClip],
        CssProperty::BorderInlineColor => seq![CssProperty::BorderInlineStartColor, CssProperty::BorderInlineEndColor],
        CssProperty::BorderInlineEnd => seq![CssProperty::BorderInlineEndWidth, CssProperty::BorderInlineEndStyle, CssProperty::BorderInlineEndColor],
        CssProperty::BorderInlineEndRadius => seq![CssProperty::BorderStartEndRadius, CssProperty::BorderEndEndRadius],
        CssProperty::BorderInlineStart => seq![CssProperty::BorderInlineStartWidth, CssProperty::BorderInlineStartStyle, CssProperty::BorderInlineStartColor],
        CssProperty::BorderInlineStartRadius => seq![CssProperty::BorderStartStartRadius, CssProperty::BorderEndStartRadius],
        CssProperty::BorderInlineStyle => seq![CssProperty::BorderInlineStartStyle, CssProperty::BorderInlineEndStyle],
        CssProperty::BorderInlineWidth => seq![CssProperty::BorderInlineStartWidth, CssProperty::BorderInlineEndWidth],
        CssProperty::BorderLeft => seq![CssProperty::BorderLeftWidth, CssProperty::BorderLeftStyle, CssProperty::BorderLeftColor],
        CssProperty::BorderLeftRadius => seq![CssProperty::BorderTopLeftRadius, CssProperty::BorderBottomLeftRadius],
        CssProperty::BorderRadius => seq![CssProperty::BorderTopLeftRadius, CssProperty::BorderTopRightRadius, CssProperty::BorderBottomRightRadius, CssProperty::BorderBottomLeftRadius],
        CssProperty::BorderRight => seq![CssProperty::BorderRightWidth, CssProperty::BorderRightStyle, CssProperty::BorderRightColor],
        CssProperty::BorderRightRadius => seq![CssProperty::BorderTopRightRadius, CssProperty::BorderBottomRightRadius],
        CssProperty::BorderStyle => seq![CssProperty::BorderTopStyle, CssProperty::BorderRightStyle, CssProperty::BorderBottomStyle, CssProperty::BorderLeftStyle],
        CssProperty::BorderTop => seq![CssProperty::BorderTopWidth, CssProperty::BorderTopStyle, CssProperty::BorderTopColor],
        CssProperty::BorderTopRadius => seq![CssProperty::BorderTopLeftRadius, CssProperty::BorderTopRightRadius],
        CssProperty::BorderWidth => seq![CssProperty::BorderTopWidth, CssProperty::BorderRightWidth, CssProperty::BorderBottomWidth, CssProperty::BorderLeftWidth],
        CssProperty::BoxShadow => seq![CssProperty::BoxShadowColor, CssProperty::BoxShadowOffset, CssProperty::BoxShadowBlur, CssProperty::BoxShadowSpread, CssProperty::BoxShadowPosition],
        CssProperty::Caret => seq![CssProperty::CaretColor, CssProperty::CaretAnimation, CssProperty::CaretShape],
        CssProperty::ColorAdjust => seq![CssProperty::PrintColorAdjust],
        CssProperty::ColumnRule => seq![CssProperty::ColumnRuleWidth, CssProperty::ColumnRuleStyle, CssProperty::ColumnRuleColor],
        CssProperty::ColumnRuleInset => seq![CssProperty::ColumnRuleInsetCapStart, CssProperty::ColumnRuleInsetCapEnd, CssProperty::ColumnRuleInsetJunctionStart, CssProperty::ColumnRuleInsetJunctionEnd],
        CssProperty::ColumnRuleInsetCap => seq![CssProperty::ColumnRuleInsetCapStart, CssProperty::ColumnRuleInsetCapEnd],
        CssProperty::ColumnRuleInsetEnd => seq![CssProperty::ColumnRuleInsetCapEnd, CssProperty::ColumnRuleInsetJunctionEnd],
        CssProperty::ColumnRuleInsetJunction => seq![CssProperty::ColumnRuleInsetJunctionStart, CssProperty::ColumnRuleInsetJunctionEnd],
        CssProperty::ColumnRuleInsetStart => seq![CssProperty::ColumnRuleInsetCapStart, CssProperty::ColumnRuleInsetJunctionStart],
        CssProperty::Columns => seq![CssProperty::ColumnWidth, CssProperty::ColumnCount, CssProperty::ColumnHeight],
        CssProperty::ContainIntrinsicSize => seq![CssProperty::ContainIntrinsicWidth, CssProperty::ContainIntrinsicHeight],
        CssProperty::Container => seq![CssProperty::ContainerName, CssProperty::ContainerType],
        CssProperty::Corner => seq![CssProperty::BorderRadius, CssProperty::CornerShape],
        CssProperty::CornerBlockEnd => seq![CssProperty::BorderBlockEndRadius, CssProperty::CornerBlockEndShape],
        CssProperty::CornerBlockEndShape => seq![CssProperty::CornerEndStartShape, CssProperty::CornerEndEndShape],
        CssProperty::CornerBlockStart => seq![CssProperty::BorderBlockStartRadius, CssProperty::CornerBlockStartShape],
        CssProperty::CornerBlockStartShape => seq![CssProperty::CornerStartStartShape, CssProperty::CornerStartEndShape],
        CssProperty::CornerBottom => seq![CssProperty::BorderBottomRadius, CssProperty::CornerBottomShape],
        CssProperty::CornerBottomLeft => seq![CssProperty::BorderBottomLeftRadius, CssProperty::CornerBottomLeftShape],
        CssProperty::CornerBottomRight => seq![CssProperty::BorderBottomRightRadius, CssProperty::CornerBottomRightShape],
        CssProperty::CornerBottomShape => seq![CssProperty::CornerBottomLeftShape, CssProperty::CornerBottomRightShape],
        CssProperty::CornerEndEnd => seq![CssProperty::BorderEndEndRadius, CssProperty::CornerEndEndShape],
        CssProperty::CornerEndStart => seq![CssProperty::BorderEndStartRadius, CssProperty::CornerEndStartShape],
        CssProperty::CornerInlineEnd => seq![CssProperty::BorderInlineEndRadius, CssProperty::CornerInlineEndShape],
        CssProperty::CornerInlineEndShape => seq![CssProperty::CornerStartEndShape, CssProperty::CornerEndEndShape],
        CssProperty::CornerInlineStart => seq![CssProperty::BorderInlineStartRadius, CssProperty::CornerInlineStartShape],
        CssProperty::CornerInlineStartShape => seq![CssProperty::CornerStartStartShape, CssProperty::CornerEndStartShape],
        CssProperty::CornerLeft => seq![CssProperty::BorderLeftRadius, CssProperty::CornerLeftShape],
        CssProperty::CornerLeftShape => seq![CssProperty::CornerTopLeftShape, CssProperty::CornerBottomLeftShape],
        CssProperty::CornerRight => seq![CssProperty::BorderRightRadius, CssProperty::CornerRightShape],
        CssProperty::CornerRightShape => seq![CssProperty::CornerTopRightShape, CssProperty::CornerBottomRightShape],
        CssProperty::CornerShape => seq![CssProperty::CornerTopLeftShape, CssProperty::CornerTopRightShape, CssProperty::CornerBottomRightShape, CssProperty::CornerBottomLeftShape],
        CssProperty::CornerStartEnd => seq![CssProperty::BorderStartEndRadius, CssProperty::CornerStartEndShape],
        CssProperty::CornerStartStart => seq![CssProperty::BorderStartStartRadius, CssProperty::CornerStartStartShape],
        CssProperty::CornerTop => seq![CssProperty::BorderTopRadius, CssProperty::CornerTopShape],
        CssProperty::CornerTopLeft => seq![CssProperty::BorderTopLeftRadius, CssProperty::CornerTopLeftShape],
        CssProperty::CornerTopRight => seq![CssProperty::BorderTopRightRadius, CssProperty::CornerTopRightShape],
        CssProperty::CornerTopShape => seq![CssProperty::CornerTopLeftShape, CssProperty::CornerTopRightShape],
        CssProperty::Cue => seq![CssProperty::CueBefore, CssProperty::CueAfter],
        CssProperty::Flex => seq![CssProperty::FlexGrow, CssProperty::FlexShrink, CssProperty::FlexBasis],
        CssProperty::FlexFlow => seq![CssProperty::FlexDirection, CssProperty::FlexWrap],
        CssProperty::Font => seq![CssProperty::FontStyle, CssProperty::FontVariant, CssProperty::FontWeight, CssProperty::FontStretch, CssProperty::FontSize, CssProperty::LineHeight, CssProperty::FontFamily],
        CssProperty::FontSynthesis => seq![CssProperty::FontSynthesisWeight, CssProperty::FontSynthesisStyle, CssProperty::FontSynthesisSmallCaps],
        CssProperty::FontVariant => seq![CssProperty::FontVariantLigatures, CssProperty::FontVariantCaps, CssProperty::FontVariantAlternates, CssProperty::FontVariantNumeric, CssProperty::FontVariantEastAsian, CssProperty::FontVariantPosition, CssProperty::FontVariantEmoji],
        CssProperty::Gap => seq![CssProperty::RowGap, CssProperty::ColumnGap],
        CssProperty::Grid => seq![CssProperty::GridTemplateRows, CssProperty::GridTemplateColumns, CssProperty::GridTemplateAreas, CssProperty::GridAutoRows, CssProperty::GridAutoColumns, CssProperty::GridAutoFlow],
        CssProperty::GridArea => seq![CssProperty::GridRowStart, CssProperty::GridColumnStart, CssProperty::GridRowEnd, CssProperty::GridColumnEnd],
        CssProperty::GridColumn => seq![CssProperty::GridColumnStart, CssProperty::GridColumnEnd],
        CssProperty::GridGap => seq![CssProperty::RowGap, CssProperty::ColumnGap],
        CssProperty::GridRow => seq![CssProperty::GridRowStart, CssProperty::GridRowEnd],
        CssProperty::GridTemplate => seq![CssProperty::GridTemplateRows, CssProperty::GridTemplateColumns, CssProperty::GridTemplateAreas],
        CssProperty::Inset => seq![CssProperty::Top, CssProperty::Right, CssProperty::Bottom, CssProperty::Left],
        CssProperty::InsetBlock => seq![CssProperty::InsetBlockStart, CssProperty::InsetBlockEnd],
        CssProperty::InsetInline => seq![CssProperty::InsetInlineStart, CssProperty::InsetInlineEnd],
        CssProperty::InterestDelay => seq![CssProperty::InterestDelayStart, CssProperty::InterestDelayEnd],
        CssProperty::LineClamp => seq![CssProperty::MaxLines, CssProperty::BlockEllipsis, CssProperty::Continue],
        CssProperty::ListStyle => seq![CssProperty::ListStyleType, CssProperty::ListStylePosition, CssProperty::ListStyleImage],
        CssProperty::Margin => seq![CssProperty::MarginTop, CssProperty::MarginRight, CssProperty::MarginBottom, CssProperty::MarginLeft],
        CssProperty::MarginBlock => seq![CssProperty::MarginBlockStart, CssProperty::MarginBlockEnd],
        CssProperty::MarginInline => seq![CssProperty::MarginInlineStart, CssProperty::MarginInlineEnd],
        CssProperty::Marker => seq![CssProperty::MarkerStart, CssProperty::MarkerMid, CssProperty::MarkerEnd],
        CssProperty::Mask => seq![CssProperty::MaskImage, CssProperty::MaskPosition, CssProperty::MaskSize, CssProperty::MaskRepeat, CssProperty::MaskOrigin, CssProperty::MaskClip, CssProperty::MaskComposite, CssProperty::MaskMode],
        CssProperty::MaskBorder => seq![CssProperty::MaskBorderSource, CssProperty::MaskBorderSlice, CssProperty::MaskBorderWidth, CssProperty::MaskBorderOutset, CssProperty::MaskBorderRepeat, CssProperty::MaskBorderMode],
        CssProperty::Offset => seq![CssProperty::OffsetPath, CssProperty::OffsetDistance, CssProperty::OffsetRotate, CssProperty::OffsetAnchor, CssProperty::OffsetPosition],
        CssProperty::Outline => seq![CssProperty::OutlineWidth, CssProperty::OutlineStyle, CssProperty::OutlineColor],
        CssProperty::Overflow => seq![CssProperty::OverflowX, CssProperty::OverflowY],
        CssProperty::OverflowClipMargin => seq![CssProperty::OverflowClipMarginTop, CssProperty::OverflowClipMarginRight, CssProperty::OverflowClipMarginBottom, CssProperty::OverflowClipMarginLeft],
        CssProperty::OverflowClipMarginBlock => seq![CssProperty::OverflowClipMarginBlockStart, CssProperty::OverflowClipMarginBlockEnd],
        CssProperty::OverflowClipMarginInline => seq![CssProperty::OverflowClipMarginInlineStart, CssProperty::OverflowClipMarginInlineEnd],
        CssProperty::OverscrollBehavior => seq![CssProperty::OverscrollBehaviorX, CssProperty::OverscrollBehaviorY],
        CssProperty::Padding => seq![CssProperty::PaddingTop, CssProperty::PaddingRight, CssProperty::PaddingBottom, CssProperty::PaddingLeft],
        CssProperty::PaddingBlock => seq![CssProperty::PaddingBlockStart, CssProperty::PaddingBlockEnd],
        CssProperty::PaddingInline => seq![CssProperty::PaddingInlineStart, CssProperty::PaddingInlineEnd],
        CssProperty::Pause => seq![CssProperty::PauseBefore, CssProperty::PauseAfter],
        CssProperty::PlaceContent => seq![CssProperty::AlignContent, CssProperty::JustifyContent],
        CssProperty::PlaceItems => seq![CssProperty::AlignItems, CssProperty::JustifyItems],
        CssProperty::PlaceSelf => seq![CssProperty::AlignSelf, CssProperty::JustifySelf],
        CssProperty::PointerTimeline => seq![CssProperty::PointerTimelineName, CssProperty::PointerTimelineAxis],
        CssProperty::PositionTry => seq![CssProperty::PositionTryOrder, CssProperty::PositionTryFallbacks],
        CssProperty::Rest => seq![CssProperty::RestBefore, CssProperty::RestAfter],
        CssProperty::RowRule => seq![CssProperty::RowRuleWidth, CssProperty::RowRuleStyle, CssProperty::RowRuleColor],
        CssProperty::RowRuleInset => seq![CssProperty::RowRuleInsetCapStart, CssProperty::RowRuleInsetCapEnd, CssProperty::RowRuleInsetJunctionStart, CssProperty::RowRuleInsetJunctionEnd],
        CssProperty::RowRuleInsetCap => seq![CssProperty::RowRuleInsetCapStart, CssProperty::RowRuleInsetCapEnd],
        CssProperty::RowRuleInsetEnd => seq![CssProperty::RowRuleInsetCapEnd, CssProperty::RowRuleInsetJunctionEnd],
        CssProperty::RowRuleInsetJunction => seq![CssProperty::RowRuleInsetJunctionStart, CssProperty::RowRuleInsetJunctionEnd],
        CssProperty::RowRuleInsetStart => seq![CssProperty::RowRuleInsetCapStart, CssProperty::RowRuleInsetJunctionStart],
        CssProperty::Rule => seq![CssProperty::ColumnRule, CssProperty::RowRule],
        CssProperty::RuleBreak => seq![CssProperty::ColumnRuleBreak, CssProperty::RowRuleBreak],
        CssProperty::RuleColor => seq![CssProperty::ColumnRuleColor, CssProperty::RowRuleColor],
        CssProperty::RuleInset => seq![CssProperty::ColumnRuleInset, CssProperty::RowRuleInset],
        CssProperty::RuleInsetCap => seq![CssProperty::ColumnRuleInsetCap],
        CssProperty::RuleInsetEnd => seq![CssProperty::ColumnRuleInsetEnd, CssProperty::RowRuleInsetEnd],
        CssProperty::RuleInsetJunction => seq![CssProperty::ColumnRuleInsetJunction],
        CssProperty::RuleInsetStart => seq![CssProperty::ColumnRuleInsetStart, CssProperty::RowRuleInsetStart],
        CssProperty::RuleStyle => seq![CssProperty::ColumnRuleStyle, CssProperty::RowRuleStyle],
        CssProperty::RuleVisibilityItems => seq![CssProperty::ColumnRuleVisibilityItems],
        CssProperty::RuleWidth => seq![CssProperty::ColumnRuleWidth, CssProperty::RowRuleWidth],
        CssProperty::ScrollMargin => seq![CssProperty::ScrollMarginTop, CssProperty::ScrollMarginRight, CssProperty::ScrollMarginBottom, CssProperty::ScrollMarginLeft],
        CssProperty::ScrollMarginBlock => seq![CssProperty::ScrollMarginBlockStart, CssProperty::ScrollMarginBlockEnd],
        CssProperty::ScrollMarginInline => seq![CssProperty::ScrollMarginInlineStart, CssProperty::ScrollMarginInlineEnd],
        CssProperty::ScrollPadding => seq![CssProperty::ScrollPaddingTop, CssProperty::ScrollPaddingRight, CssProperty::ScrollPaddingBottom, CssProperty::ScrollPaddingLeft],
        CssProperty::ScrollPaddingBlock => seq![CssProperty::ScrollPaddingBlockStart, CssProperty::ScrollPaddingBlockEnd],
        CssProperty::ScrollPaddingInline => seq![CssProperty::ScrollPaddingInlineStart, CssProperty::ScrollPaddingInlineEnd],
        CssProperty::ScrollTimeline => seq![CssProperty::ScrollTimelineName, CssProperty::ScrollTimelineAxis],
        CssProperty::TextAlign => seq![CssProperty::TextAlignAll, CssProperty::TextAlignLast],
        CssProperty::TextDecoration => seq![CssProperty::TextDecorationLine, CssProperty::TextDecorationThickness, CssProperty::TextDecorationStyle, CssProperty::TextDecorationColor],
        CssProperty::TextDecorationSkip => seq![CssProperty::TextDecorationSkipSelf, CssProperty::TextDecorationSkipBox, CssProperty::TextDecorationSkipSpaces, CssProperty::TextDecorationSkipInk],
        CssProperty::TextEmphasis => seq![CssProperty::TextEmphasisStyle, CssProperty::TextEmphasisColor],
        CssProperty::TextSpacing => seq![CssProperty::TextSpacingTrim, CssProperty::TextAutospace],
        CssProperty::TextWrap => seq![CssProperty::TextWrapMode, CssProperty::TextWrapStyle],
        CssProperty::TimelineTrigger => seq![CssProperty::TimelineTriggerName, CssProperty::TimelineTriggerSource, CssProperty::TimelineTriggerActivationRange, CssProperty::TimelineTriggerActiveRange],
        CssProperty::TimelineTriggerActivationRange => seq![CssProperty::TimelineTriggerActivationRangeStart, CssProperty::TimelineTriggerActivationRangeEnd],
        CssProperty::TimelineTriggerActiveRange => seq![CssProperty::TimelineTriggerActiveRangeStart, CssProperty::TimelineTriggerActiveRangeEnd],
        CssProperty::Transition => seq![CssProperty::TransitionProperty, CssProperty::TransitionDuration, CssProperty::TransitionTimingFunction, CssProperty::TransitionDelay, CssProperty::TransitionBehavior],
        CssProperty::VerticalAlign => seq![CssProperty::AlignmentBaseline, CssProperty::BaselineShift, CssProperty::BaselineSource],
        CssProperty::ViewTimeline => seq![CssProperty::ViewTimelineName, CssProperty::ViewTimelineAxis],
        CssProperty::WhiteSpace => seq![CssProperty::WhiteSpaceCollapse, CssProperty::TextWrapMode],
        _ => seq![],
    }
}

/// Returns the longhand properties for a shorthand, in the order its
/// definition lists them. Empty if not a shorthand.
pub fn longhands_of(property: CssProperty) -> (r: Vec<CssProperty>)
    ensures
        r@ == spec_longhands_of(property),
{
    match property {
        CssProperty::WebkitAnimation => vec![CssProperty::AnimationName, CssProperty::AnimationDuration, CssProperty::AnimationTimingFunction, CssProperty::AnimationDelay, CssProperty::AnimationIterationCount, CssProperty::AnimationDirection, CssProperty::AnimationFillMode, CssProperty::AnimationPlayState, CssProperty::AnimationTimeline],
        CssProperty::WebkitBorderRadius => vec![CssProperty::BorderTopLeftRadius, CssProperty::BorderTopRightRadius, CssProperty::BorderBottomRightRadius, CssProperty::BorderBottomLeftRadius],
        CssProperty::WebkitBoxShadow => vec![CssProperty::BoxShadowColor, CssProperty::BoxShadowOffset, CssProperty::BoxShadowBlur, CssProperty::BoxShadowSpread, CssProperty::BoxShadowPosition],
        CssProperty::WebkitFlex => vec![CssProperty::FlexGrow, CssProperty::FlexShrink, CssProperty::FlexBasis],
        CssProperty::WebkitFlexFlow => vec![CssProperty::FlexDirection, CssProperty::FlexWrap],
        CssProperty::WebkitLineClamp => vec![CssProperty::MaxLines, CssProperty::BlockEllipsis, CssProperty::Continue],
        CssProperty::WebkitMask => vec![CssProperty::MaskImage, CssProperty::MaskPosition, CssProperty::MaskSize, CssProperty::MaskRepeat, CssProperty::MaskOrigin, CssProperty::MaskClip, CssProperty::MaskComposite, CssProperty::MaskMode],
        CssProperty::WebkitMaskBoxImage => vec![CssProperty::MaskBorderSource, CssProperty::MaskBorderSlice, CssProperty::MaskBorderWidth, CssProperty::MaskBorderOutset, CssProperty::MaskBorderRepeat, CssProperty::MaskBorderMode],
        CssProperty::WebkitTextStroke => vec![CssProperty::WebkitTextStrokeWidth, CssProperty::WebkitTextStrokeColor],
        CssProperty::WebkitTransition => vec![CssProperty::TransitionProperty, CssProperty::TransitionDuration, CssProperty::TransitionTimingFunction, CssProperty::TransitionDelay, CssProperty::TransitionBehavior],
        CssProperty::Animation => vec![CssProperty::AnimationName, CssProperty::AnimationDuration, CssProperty::AnimationTimingFunction, CssProperty::AnimationDelay, CssProperty::AnimationIterationCount, CssProperty::AnimationDirection, CssProperty::AnimationFillMode, CssProperty::AnimationPlayState, CssProperty::AnimationTimeline],
        CssProperty::AnimationRange => vec![CssProperty::AnimationRangeStart, CssProperty::AnimationRangeEnd],
        CssProperty::Background => vec![CssProperty::BackgroundImage, CssProperty::BackgroundPosition, CssProperty::BackgroundSize, CssProperty::BackgroundRepeat, CssProperty::BackgroundAttachment, CssProperty::BackgroundOrigin, CssProperty::BackgroundClip, CssProperty::BackgroundColor],
        CssProperty::BackgroundPosition => vec![CssProperty::BackgroundPositionX, CssProperty::BackgroundPositionY],
        CssProperty::BlockStep => vec![CssProperty::BlockStepSize, CssProperty::BlockStepInsert, CssProperty::BlockStepAlign, CssProperty::BlockStepRound],
        CssProperty::Border => vec![CssProperty::BorderWidth, CssProperty::BorderStyle, CssProperty::BorderColor],
        CssProperty::BorderBlock => vec![CssProperty::BorderBlockStart, CssProperty::BorderBlockEnd],
        CssProperty::BorderBlockClip => vec![CssProperty::BorderBlockStartClip, CssProperty::BorderBlockEndClip],
        CssProperty::BorderBlockColor => vec![CssProperty::BorderBlockStartColor, CssProperty::BorderBlockEndColor],
        CssProperty::BorderBlockEnd => vec![CssProperty::BorderBlockEndWidth, CssProperty::BorderBlockEndStyle, CssProperty::BorderBlockEndColor],
        CssProperty::BorderBlockEndRadius => vec![CssProperty::BorderEndStartRadius, CssProperty::BorderEndEndRadius],
        CssProperty::BorderBlockStart => vec![CssProperty::BorderBlockStartWidth, CssProperty::BorderBlockStartStyle, CssProperty::BorderBlockStartColor],
        CssProperty::BorderBlockStartRadius => vec![CssProperty::BorderStartStartRadius, CssProperty::BorderStartEndRadius],
        CssProperty::BorderBlockStyle => vec![CssProperty::BorderBlockStartStyle, CssProperty::BorderBlockEndStyle],
        CssProperty::BorderBlockWidth => vec![CssProperty::BorderBlockStartWidth, CssProperty::BorderBlockEndWidth],
        CssProperty::BorderBottom => vec![CssProperty::BorderBottomWidth, CssProperty::BorderBottomStyle, CssProperty::BorderBottomColor],
        CssProperty::BorderBottomRadius => vec![CssProperty::BorderBottomLeftRadius, CssProperty::BorderBottomRightRadius],
        CssProperty::BorderClip => vec![CssProperty::BorderTopClip, CssProperty::BorderRightClip, CssProperty::BorderBottomClip, CssProperty::BorderLeftClip],
        CssProperty::BorderColor => vec![CssProperty::BorderTopColor, CssProperty::BorderRightColor, CssProperty::BorderBottomColor, CssProperty::BorderLeftColor],
        CssProperty::BorderImage => vec![CssProperty::BorderImageSource, CssProperty::BorderImageSlice, CssProperty::BorderImageWidth, CssProperty::BorderImageOutset, CssProperty::BorderImageRepeat],
        CssProperty::BorderInline => vec![CssProperty::BorderInlineStart, CssProperty::BorderInlineEnd],
        CssProperty::BorderInlineClip => vec![CssProperty::BorderInlineStartClip, CssProperty::BorderInlineEndClip],
        CssProperty::BorderInlineColor => vec![CssProperty::BorderInlineStartColor, CssProperty::BorderInlineEndColor],
        CssProperty::BorderInlineEnd => vec![CssProperty::BorderInlineEndWidth, CssProperty::BorderInlineEndStyle, CssProperty::BorderInlineEndColor],
        CssProperty::BorderInlineEndRadius => vec![CssProperty::BorderStartEndRadius, CssProperty::BorderEndEndRadius],
        CssProperty::BorderInlineStart => vec![CssProperty::BorderInlineStartWidth, CssProperty::BorderInlineStartStyle, CssProperty::BorderInlineStartColor],
        CssProperty::BorderInlineStartRadius => vec![CssProperty::BorderStartStartRadius, CssProperty::BorderEndStartRadius],
        CssProperty::BorderInlineStyle => vec![CssProperty::BorderInlineStartStyle, CssProperty::BorderInlineEndStyle],
        CssProperty::BorderInlineWidth => vec![CssProperty::BorderInlineStartWidth, CssProperty::BorderInlineEndWidth],
        CssProperty::BorderLeft => vec![CssProperty::BorderLeftWidth, CssProperty::BorderLeftStyle, CssProperty::BorderLeftColor],
        CssProperty::BorderLeftRadius => vec![CssProperty::BorderTopLeftRadius, CssProperty::BorderBottomLeftRadius],
        CssProperty::BorderRadius => vec![CssProperty::BorderTopLeftRadius, CssProperty::BorderTopRightRadius, CssProperty::BorderBottomRightRadius, CssProperty::BorderBottomLeftRadius],
        CssProperty::BorderRight => vec![CssProperty::BorderRightWidth, CssProperty::BorderRightStyle, CssProperty::BorderRightColor],
        CssProperty::BorderRightRadius => vec![CssProperty::BorderTopRightRadius, CssProperty::BorderBottomRightRadius],
        CssProperty::BorderStyle => vec![CssProperty::BorderTopStyle, CssProperty::BorderRightStyle, CssProperty::BorderBottomStyle, CssProperty::BorderLeftStyle],
        CssProperty::BorderTop => vec![CssProperty::BorderTopWidth, CssProperty::BorderTopStyle, CssProperty::BorderTopColor],
        CssProperty::BorderTopRadius => vec![CssProperty::BorderTopLeftRadius, CssProperty::BorderTopRightRadius],
        CssProperty::BorderWidth => vec![CssProperty::BorderTopWidth, CssProperty::BorderRightWidth, CssProperty::BorderBottomWidth, CssProperty::BorderLeftWidth],
        CssProperty::BoxShadow => vec![CssProperty::BoxShadowColor, CssProperty::BoxShadowOffset, CssProperty::BoxShadowBlur, CssProperty::BoxShadowSpread, CssProperty::BoxShadowPosition],
        CssProperty::Caret => vec![CssProperty::CaretColor, CssProperty::CaretAnimation, CssProperty::CaretShape],
        CssProperty::ColorAdjust => vec![CssProperty::PrintColorAdjust],
        CssProperty::ColumnRule => vec![CssProperty::ColumnRuleWidth, CssProperty::ColumnRuleStyle, CssProperty::ColumnRuleColor],
        CssProperty::ColumnRuleInset => vec![CssProperty::ColumnRuleInsetCapStart, CssProperty::ColumnRuleInsetCapEnd, CssProperty::ColumnRuleInsetJunctionStart, CssProperty::ColumnRuleInsetJunctionEnd],
        CssProperty::ColumnRuleInsetCap => vec![CssProperty::ColumnRuleInsetCapStart, CssProperty::ColumnRuleInsetCapEnd],
        CssProperty::ColumnRuleInsetEnd => vec![CssProperty::ColumnRuleInsetCapEnd, CssProperty::ColumnRuleInsetJunctionEnd],
        CssProperty::ColumnRuleInsetJunction => vec![CssProperty::ColumnRuleInsetJunctionStart, CssProperty::ColumnRuleInsetJunctionEnd],
        CssProperty::ColumnRuleInsetStart => vec![CssProperty::ColumnRuleInsetCapStart, CssProperty::ColumnRuleInsetJunctionStart],
        CssProperty::Columns => vec![CssProperty::ColumnWidth, CssProperty::ColumnCount, CssProperty::ColumnHeight],
        CssProperty::ContainIntrinsicSize => vec![CssProperty::ContainIntrinsicWidth, CssProperty::ContainIntrinsicHeight],
        CssProperty::Container => vec![CssProperty::ContainerName, CssProperty::ContainerType],
        CssProperty::Corner => vec![CssProperty::BorderRadius, CssProperty::CornerShape],
        CssProperty::CornerBlockEnd => vec![CssProperty::BorderBlockEndRadius, CssProperty::CornerBlockEndShape],
        CssProperty::CornerBlockEndShape => vec![CssProperty::CornerEndStartShape, CssProperty::CornerEndEndShape],
        CssProperty::CornerBlockStart => vec![CssProperty::BorderBlockStartRadius, CssProperty::CornerBlockStartShape],
        CssProperty::CornerBlockStartShape => vec![CssProperty::CornerStartStartShape, CssProperty::CornerStartEndShape],
        CssProperty::CornerBottom => vec![CssProperty::BorderBottomRadius, CssProperty::CornerBottomShape],
        CssProperty::CornerBottomLeft => vec![CssProperty::BorderBottomLeftRadius, CssProperty::CornerBottomLeftShape],
        CssProperty::CornerBottomRight => vec![CssProperty::BorderBottomRightRadius, CssProperty::CornerBottomRightShape],
        CssProperty::CornerBottomShape => vec![CssProperty::CornerBottomLeftShape, CssProperty::CornerBottomRightShape],
        CssProperty::CornerEndEnd => vec![CssProperty::BorderEndEndRadius, CssProperty::CornerEndEndShape],
        CssProperty::CornerEndStart => vec![CssProperty::BorderEndStartRadius, CssProperty::CornerEndStartShape],
        CssProperty::CornerInlineEnd => vec![CssProperty::BorderInlineEndRadius, CssProperty::CornerInlineEndShape],
        CssProperty::CornerInlineEndShape => vec![CssProperty::CornerStartEndShape, CssProperty::CornerEndEndShape],
        CssProperty::CornerInlineStart => vec![CssProperty::BorderInlineStartRadius, CssProperty::CornerInlineStartShape],
        CssProperty::CornerInlineStartShape => vec![CssProperty::CornerStartStartShape, CssProperty::CornerEndStartShape],
        CssProperty::CornerLeft => vec![CssProperty::BorderLeftRadius, CssProperty::CornerLeftShape],
        CssProperty::CornerLeftShape => vec![CssProperty::CornerTopLeftShape, CssProperty::CornerBottomLeftShape],
        CssProperty::CornerRight => vec![CssProperty::BorderRightRadius, CssProperty::CornerRightShape],
        CssProperty::CornerRightShape => vec![CssProperty::CornerTopRightShape, CssProperty::CornerBottomRightShape],
        CssProperty::CornerShape => vec![CssProperty::CornerTopLeftShape, CssProperty::CornerTopRightShape, CssProperty::CornerBottomRightShape, CssProperty::CornerBottomLeftShape],
        CssProperty::CornerStartEnd => vec![CssProperty::BorderStartEndRadius, CssProperty::CornerStartEndShape],
        CssProperty::CornerStartStart => vec![CssProperty::BorderStartStartRadius, CssProperty::CornerStartStartShape],
        CssProperty::CornerTop => vec![CssProperty::BorderTopRadius, CssProperty::CornerTopShape],
        CssProperty::CornerTopLeft => vec![CssProperty::BorderTopLeftRadius, CssProperty::CornerTopLeftShape],
        CssProperty::CornerTopRight => vec![CssProperty::BorderTopRightRadius, CssProperty::CornerTopRightShape],
        CssProperty::CornerTopShape => vec![CssProperty::CornerTopLeftShape, CssProperty::CornerTopRightShape],
        CssProperty::Cue => vec![CssProperty::CueBefore, CssProperty::CueAfter],
        CssProperty::Flex => vec![CssProperty::FlexGrow, CssProperty::FlexShrink, CssProperty::FlexBasis],
        CssProperty::FlexFlow => vec![CssProperty::FlexDirection, CssProperty::FlexWrap],
        CssProperty::Font => vec![CssProperty::FontStyle, CssProperty::FontVariant, CssProperty::FontWeight, CssProperty::FontStretch, CssProperty::FontSize, CssProperty::LineHeight, CssProperty::FontFamily],
        CssProperty::FontSynthesis => vec![CssProperty::FontSynthesisWeight, CssProperty::FontSynthesisStyle, CssProperty::FontSynthesisSmallCaps],
        CssProperty::FontVariant => vec![CssProperty::FontVariantLigatures, CssProperty::FontVariantCaps, CssProperty::FontVariantAlternates, CssProperty::FontVariantNumeric, CssProperty::FontVariantEastAsian, CssProperty::FontVariantPosition, CssProperty::FontVariantEmoji],
        CssProperty::Gap => vec![CssProperty::RowGap, CssProperty::ColumnGap],
        CssProperty::Grid => vec![CssProperty::GridTemplateRows, CssProperty::GridTemplateColumns, CssProperty::GridTemplateAreas, CssProperty::GridAutoRows, CssProperty::GridAutoColumns, CssProperty::GridAutoFlow],
        CssProperty::GridArea => vec![CssProperty::GridRowStart, CssProperty::GridColumnStart, CssProperty::GridRowEnd, CssProperty::GridColumnEnd],
        CssProperty::GridColumn => vec![CssProperty::GridColumnStart, CssProperty::GridColumnEnd],
        CssProperty::GridGap => vec![CssProperty::RowGap, CssProperty::ColumnGap],
        CssProperty::GridRow => vec![CssProperty::GridRowStart, CssProperty::GridRowEnd],
        CssProperty::GridTemplate => vec![CssProperty::GridTemplateRows, CssProperty::GridTemplateColumns, CssProperty::GridTemplateAreas],
        CssProperty::Inset => vec![CssProperty::Top, CssProperty::Right, CssProperty::Bottom, CssProperty::Left],
        CssProperty::InsetBlock => vec![CssProperty::InsetBlockStart, CssProperty::InsetBlockEnd],
        CssProperty::InsetInline => vec![CssProperty::InsetInlineStart, CssProperty::InsetInlineEnd],
        CssProperty::InterestDelay => vec![CssProperty::InterestDelayStart, CssProperty::InterestDelayEnd],
        CssProperty::LineClamp => vec![CssProperty::MaxLines, CssProperty::BlockEllipsis, CssProperty::Continue],
        CssProperty::ListStyle => vec![CssProperty::ListStyleType, CssProperty::ListStylePosition, CssProperty::ListStyleImage],
        CssProperty::Margin => vec![CssProperty::MarginTop, CssProperty::MarginRight, CssProperty::MarginBottom, CssProperty::MarginLeft],
        CssProperty::MarginBlock => vec![CssProperty::MarginBlockStart, CssProperty::MarginBlockEnd],
        CssProperty::MarginInline => vec![CssProperty::MarginInlineStart, CssProperty::MarginInlineEnd],
        CssProperty::Marker => vec![CssProperty::MarkerStart, CssProperty::MarkerMid, CssProperty::MarkerEnd],
        CssProperty::Mask => vec![CssProperty::MaskImage, CssProperty::MaskPosition, CssProperty::MaskSize, CssProperty::MaskRepeat, CssProperty::MaskOrigin, CssProperty::MaskClip, CssProperty::MaskComposite, CssProperty::MaskMode],
        CssProperty::MaskBorder => vec![CssProperty::MaskBorderSource, CssProperty::MaskBorderSlice, CssProperty::MaskBorderWidth, CssProperty::MaskBorderOutset, CssProperty::MaskBorderRepeat, CssProperty::MaskBorderMode],
        CssProperty::Offset => vec![CssProperty::OffsetPath, CssProperty::OffsetDistance, CssProperty::OffsetRotate, CssProperty::OffsetAnchor, CssProperty::OffsetPosition],
        CssProperty::Outline => vec![CssProperty::OutlineWidth, CssProperty::OutlineStyle, CssProperty::OutlineColor],
        CssProperty::Overflow => vec![CssProperty::OverflowX, CssProperty::OverflowY],
        CssProperty::OverflowClipMargin => vec![CssProperty::OverflowClipMarginTop, CssProperty::OverflowClipMarginRight, CssProperty::OverflowClipMarginBottom, CssProperty::OverflowClipMarginLeft],
        CssProperty::OverflowClipMarginBlock => vec![CssProperty::OverflowClipMarginBlockStart, CssProperty::OverflowClipMarginBlockEnd],
        CssProperty::OverflowClipMarginInline => vec![CssProperty::OverflowClipMarginInlineStart, CssProperty::OverflowClipMarginInlineEnd],
        CssProperty::OverscrollBehavior => vec![CssProperty::OverscrollBehaviorX, CssProperty::OverscrollBehaviorY],
        CssProperty::Padding => vec![CssProperty::PaddingTop, CssProperty::PaddingRight, CssProperty::PaddingBottom, CssProperty::PaddingLeft],
        CssProperty::PaddingBlock => vec![CssProperty::PaddingBlockStart, CssProperty::PaddingBlockEnd],
        CssProperty::PaddingInline => vec![CssProperty::PaddingInlineStart, CssProperty::PaddingInlineEnd],
        CssProperty::Pause => vec![CssProperty::PauseBefore, CssProperty::PauseAfter],
        CssProperty::PlaceContent => vec![CssProperty::AlignContent, CssProperty::JustifyContent],
        CssProperty::PlaceItems => vec![CssProperty::AlignItems, CssProperty::JustifyItems],
        CssProperty::PlaceSelf => vec![CssProperty::AlignSelf, CssProperty::JustifySelf],
        CssProperty::PointerTimeline => vec![CssProperty::PointerTimelineName, CssProperty::PointerTimelineAxis],
        CssProperty::PositionTry => vec![CssProperty::PositionTryOrder, CssProperty::PositionTryFallbacks],
        CssProperty::Rest => vec![CssProperty::RestBefore, CssProperty::RestAfter],
        CssProperty::RowRule => vec![CssProperty::RowRuleWidth, CssProperty::RowRuleStyle, CssProperty::RowRuleColor],
        CssProperty::RowRuleInset => vec![CssProperty::RowRuleInsetCapStart, CssProperty::RowRuleInsetCapEnd, CssProperty::RowRuleInsetJunctionStart, CssProperty::RowRuleInsetJunctionEnd],
        CssProperty::RowRuleInsetCap => vec![CssProperty::RowRuleInsetCapStart, CssProperty::RowRuleInsetCapEnd],
        CssProperty::RowRuleInsetEnd => vec![CssProperty::RowRuleInsetCapEnd, CssProperty::RowRuleInsetJunctionEnd],
        CssProperty::RowRuleInsetJunction => vec![CssProperty::RowRuleInsetJunctionStart, CssProperty::RowRuleInsetJunctionEnd],
        CssProperty::RowRuleInsetStart => vec![CssProperty::RowRuleInsetCapStart, CssProperty::RowRuleInsetJunctionStart],
        CssProperty::Rule => vec![CssProperty::ColumnRule, CssProperty::RowRule],
        CssProperty::RuleBreak => vec![CssProperty::ColumnRuleBreak, CssProperty::RowRuleBreak],
        CssProperty::RuleColor => vec![CssProperty::ColumnRuleColor, CssProperty::RowRuleColor],
        CssProperty::RuleInset => vec![CssProperty::ColumnRuleInset, CssProperty::RowRuleInset],
        CssProperty::RuleInsetCap => vec![CssProperty::ColumnRuleInsetCap],
        CssProperty::RuleInsetEnd => vec![CssProperty::ColumnRuleInsetEnd, CssProperty::RowRuleInsetEnd],
        CssProperty::RuleInsetJunction => vec![CssProperty::ColumnRuleInsetJunction],
        CssProperty::RuleInsetStart => vec![CssProperty::ColumnRuleInsetStart, CssProperty::RowRuleInsetStart],
        CssProperty::RuleStyle => vec![CssProperty::ColumnRuleStyle, CssProperty::RowRuleStyle],
        CssProperty::RuleVisibilityItems => vec![CssProperty::ColumnRuleVisibilityItems],
        CssProperty::RuleWidth => vec![CssProperty::ColumnRuleWidth, CssProperty::RowRuleWidth],
        CssProperty::ScrollMargin => vec![CssProperty::ScrollMarginTop, CssProperty::ScrollMarginRight, CssProperty::ScrollMarginBottom, CssProperty::ScrollMarginLeft],
        CssProperty::ScrollMarginBlock => vec![CssProperty::ScrollMarginBlockStart, CssProperty::ScrollMarginBlockEnd],
        CssProperty::ScrollMarginInline => vec![CssProperty::ScrollMarginInlineStart, CssProperty::ScrollMarginInlineEnd],
        CssProperty::ScrollPadding => vec![CssProperty::ScrollPaddingTop, CssProperty::ScrollPaddingRight, CssProperty::ScrollPaddingBottom, CssProperty::ScrollPaddingLeft],
        CssProperty::ScrollPaddingBlock => vec![CssProperty::ScrollPaddingBlockStart, CssProperty::ScrollPaddingBlockEnd],
        CssProperty::ScrollPaddingInline => vec![CssProperty::ScrollPaddingInlineStart, CssProperty::ScrollPaddingInlineEnd],
        CssProperty::ScrollTimeline => vec![CssProperty::ScrollTimelineName, CssProperty::ScrollTimelineAxis],
        CssProperty::TextAlign => vec![CssProperty::TextAlignAll, CssProperty::TextAlignLast],
        CssProperty::TextDecoration => vec![CssProperty::TextDecorationLine, CssProperty::TextDecorationThickness, CssProperty::TextDecorationStyle, CssProperty::TextDecorationColor],
        CssProperty::TextDecorationSkip => vec![CssProperty::TextDecorationSkipSelf, CssProperty::TextDecorationSkipBox, CssProperty::TextDecorationSkipSpaces, CssProperty::TextDecorationSkipInk],
        CssProperty::TextEmphasis => vec![CssProperty::TextEmphasisStyle, CssProperty::TextEmphasisColor],
        CssProperty::TextSpacing => vec![CssProperty::TextSpacingTrim, CssProperty::TextAutospace],
        CssProperty::TextWrap => vec![CssProperty::TextWrapMode, CssProperty::TextWrapStyle],
        CssProperty::TimelineTrigger => vec![CssProperty::TimelineTriggerName, CssProperty::TimelineTriggerSource, CssProperty::TimelineTriggerActivationRange, CssProperty::TimelineTriggerActiveRange],
        CssProperty::TimelineTriggerActivationRange => vec![CssProperty::TimelineTriggerActivationRangeStart, CssProperty::TimelineTriggerActivationRangeEnd],
        CssProperty::TimelineTriggerActiveRange => vec![CssProperty::TimelineTriggerActiveRangeStart, CssProperty::TimelineTriggerActiveRangeEnd],
        CssProperty::Transition => vec![CssProperty::TransitionProperty, CssProperty::TransitionDuration, CssProperty::TransitionTimingFunction, CssProperty::TransitionDelay, CssProperty::TransitionBehavior],
        CssProperty::VerticalAlign => vec![CssProperty::AlignmentBaseline, CssProperty::BaselineShift, CssProperty::BaselineSource],
        CssProperty::ViewTimeline => vec![CssProperty::ViewTimelineName, CssProperty::ViewTimelineAxis],
        CssProperty::WhiteSpace => vec![CssProperty::WhiteSpaceCollapse, CssProperty::TextWrapMode],
        _ => vec![],
    }
}

/// How many longhand declarations `nv` values give for `n` longhands.
pub open spec fn distributed_len(nv: int, n: int) -> int {
    if n == 0 || nv == 0 {
        0
    } else if nv == 1 {
        n
    } else if nv == 2 || nv == 3 {
        if n < 4 { n } else { 4 }
    } else {
        if n < nv { n } else { nv }
    }
}

/// Which of `nv` values the `i`-th longhand takes: one value goes everywhere;
/// two go top/bottom and right/left; three go top, right/left, bottom; four or
/// more go in order.
pub open spec fn value_source(nv: int, i: int) -> int {
    if nv == 1 {
        0
    } else if nv == 2 {
        i % 2
    } else if nv == 3 {
        if i == 3 { 1 } else { i }
    } else {
        i
    }
}

/// Distributes 1–4 values following the standard CSS pattern
/// (top→right→bottom→left, replicated symmetrically): each longhand is paired
/// with a clone of the value it takes.
pub fn distribute_values<V: Clone>(values: &[V], longhands: &[CssProperty]) -> (r: Vec<(CssProperty, V)>)
    ensures
        r@.len() == distributed_len(values@.len() as int, longhands@.len() as int),
        forall|i: int|
            0 <= i < r@.len() ==> {
                &&& (#[trigger] r@[i]).0 == longhands@[i]
                &&& 0 <= value_source(values@.len() as int, i) < values@.len()
                &&& cloned::<V>(values@[value_source(values@.len() as int, i)], r@[i].1)
            },
{
    let n = longhands.len();
    let nv = values.len();
    let count: usize = if n == 0 || nv == 0 {
        0
    } else if nv == 1 {
        n
    } else if nv == 2 || nv == 3 {
        if n < 4 { n } else { 4 }
    } else {
        if n < nv { n } else { nv }
    };
    let mut out: Vec<(CssProperty, V)> = Vec::new();
    let mut i: usize = 0;
    while i < count
        invariant
            n == longhands@.len(),
            nv == values@.len(),
            count == distributed_len(nv as int, n as int),
            count <= n,
            i <= count,
            out@.len() == i,
            forall|j: int|
                0 <= j < i ==> {
                    &&& (#[trigger] out@[j]).0 == longhands@[j]
                    &&& 0 <= value_source(nv as int, j) < nv
                    &&& cloned::<V>(values@[value_source(nv as int, j)], out@[j].1)
                },
        decreases count - i,
    {
        let src: usize = if nv == 1 {
            0
        } else if nv == 2 {
            i % 2
        } else if nv == 3 {
            if i == 3 { 1 } else { i }
        } else {
            i
        };
        let v = values[src].clone();
        let p = longhands[i].clone();
        out.push((p, v));
        i = i + 1;
    }
    out
}

/// Expands a shorthand property value into its longhand declarations; a
/// property that is not a shorthand gives none.
pub fn expand<V: Clone>(property: CssProperty, values: &[V]) -> (r: Vec<(CssProperty, V)>)
    ensures
        ({
            let longhands = spec_longhands_of(property);
            &&& r@.len() == distributed_len(values@.len() as int, longhands.len() as int)
            &&& forall|i: int|
                0 <= i < r@.len() ==> {
                    &&& (#[trigger] r@[i]).0 == longhands[i]
                    &&& 0 <= value_source(values@.len() as int, i) < values@.len()
                    &&& cloned::<V>(values@[value_source(values@.len() as int, i)], r@[i].1)
                }
        }),
{
    let longhands = longhands_of(property);
    if longhands.len() == 0 {
        return Vec::new();
    }
    distribute_values(values, longhands.as_slice())
}

/// With four longhands (top, right, bottom, left), one value sets all four;
/// two values give top/bottom and right/left; three give top, right/left and
/// bottom; four give each in turn.
pub proof fn lemma_box_pattern(nv: int)
    requires
        1 <= nv <= 4,
    ensures
        distributed_len(nv, 4) == 4,
        nv == 1 ==> value_source(nv, 0) == 0 && value_source(nv, 1) == 0 && value_source(nv, 2) == 0
            && value_source(nv, 3) == 0,
        nv == 2 ==> value_source(nv, 0) == 0 && value_source(nv, 1) == 1 && value_source(nv, 2) == 0
            && value_source(nv, 3) == 1,
        nv == 3 ==> value_source(nv, 0) == 0 && value_source(nv, 1) == 1 && value_source(nv, 2) == 2
            && value_source(nv, 3) == 1,
        nv == 4 ==> value_source(nv, 0) == 0 && value_source(nv, 1) == 1 && value_source(nv, 2) == 2
            && value_source(nv, 3) == 3,
{
}

/// How values spread over any number of longhands: a single value goes to
/// every longhand; two or three values fill at most four longhands (top,
/// right, bottom, left), the second value standing for the right and the left;
/// four or more values go one to a longhand, in order, as far as both last.
pub proof fn lemma_distribution(nv: int, n: int, i: int)
    requires
        nv >= 1,
        n >= 1,
        0 <= i,
    ensures
        nv == 1 ==> distributed_len(nv, n) == n && value_source(nv, i) == 0,
        nv == 2 ==> distributed_len(nv, n) == (if n < 4 { n } else { 4 }) && value_source(nv, i) == i % 2,
        nv == 3 && i < 4 ==> distributed_len(nv, n) == (if n < 4 { n } else { 4 }) && value_source(nv, i)
            == (if i == 3 { 1 } else { i }),
        nv >= 4 ==> distributed_len(nv, n) == (if n < nv { n } else { nv }) && value_source(nv, i) == i,
{
}

/// The longhands of each shorthand by name, as the property definitions list
/// them (their `longhands` field); empty for a property whose definition lists
/// none.
pub open spec fn documented_longhand_names(property: CssProperty) -> Seq<Seq<char>> {
    match property {
        CssProperty::WebkitAnimation => seq!["animation-name"@, "animation-duration"@, "animation-timing-function"@, "animation-delay"@, "animation-iteration-count"@, "animation-direction"@, "animation-fill-mode"@, "animation-play-state"@, "animation-timeline"@],
        CssProperty::WebkitBorderRadius => seq!["border-top-left-radius"@, "border-top-right-radius"@, "border-bottom-right-radius"@, "border-bottom-left-radius"@],
        CssProperty::WebkitBoxShadow => seq!["box-shadow-color"@, "box-shadow-offset"@, "box-shadow-blur"@, "box-shadow-spread"@, "box-shadow-position"@],
        CssProperty::WebkitFlex => seq!["flex-grow"@, "flex-shrink"@, "flex-basis"@],
        CssProperty::WebkitFlexFlow => seq!["flex-direction"@, "flex-wrap"@],
        CssProperty::WebkitLineClamp => seq!["max-lines"@, "block-ellipsis"@, "continue"@],
        CssProperty::WebkitMask => seq!["mask-image"@, "mask-position"@, "mask-size"@, "mask-repeat"@, "mask-origin"@, "mask-clip"@, "mask-composite"@, "mask-mode"@],
        CssProperty::WebkitMaskBoxImage => seq!["mask-border-source"@, "mask-border-slice"@, "mask-border-width"@, "mask-border-outset"@, "mask-border-repeat"@, "mask-border-mode"@],
        CssProperty::WebkitTextStroke => seq!["-webkit-text-stroke-width"@, "-webkit-text-stroke-color"@],
        CssProperty::WebkitTransition => seq!["transition-property"@, "transition-duration"@, "transition-timing-function"@, "transition-delay"@, "transition-behavior"@],
        CssProperty::Animation => seq!["animation-name"@, "animation-duration"@, "animation-timing-function"@, "animation-delay"@, "animation-iteration-count"@, "animation-direction"@, "animation-fill-mode"@, "animation-play-state"@, "animation-timeline"@],
        CssProperty::AnimationRange => seq!["animation-range-start"@, "animation-range-end"@],
        CssProperty::Background => seq!["background-image"@, "background-position"@, "background-size"@, "background-repeat"@, "background-attachment"@, "background-origin"@, "background-clip"@, "background-color"@],
        CssProperty::BackgroundPosition => seq!["background-position-x"@, "background-position-y"@],
        CssProperty::BlockStep => seq!["block-step-size"@, "block-step-insert"@, "block-step-align"@, "block-step-round"@],
        CssProperty::Border => seq!["border-width"@, "border-style"@, "border-color"@],
        CssProperty::BorderBlock => seq!["border-block-start"@, "border-block-end"@],
        CssProperty::BorderBlockClip => seq!["border-block-start-clip"@, "border-block-end-clip"@],
        CssProperty::BorderBlockColor => seq!["border-block-start-color"@, "border-block-end-color"@],
        CssProperty::BorderBlockEnd => seq!["border-block-end-width"@, "border-block-end-style"@, "border-block-end-color"@],
        CssProperty::BorderBlockEndRadius => seq!["border-end-start-radius"@, "border-end-end-radius"@],
        CssProperty::BorderBlockStart => seq!["border-block-start-width"@, "border-block-start-style"@, "border-block-start-color"@],
        CssProperty::BorderBlockStartRadius => seq!["border-start-start-radius"@, "border-start-end-radius"@],
        CssProperty::BorderBlockStyle => seq!["border-block-start-style"@, "border-block-end-style"@],
        CssProperty::BorderBlockWidth => seq!["border-block-start-width"@, "border-block-end-width"@],
        CssProperty::BorderBottom => seq!["border-bottom-width"@, "border-bottom-style"@, "border-bottom-color"@],
        CssProperty::BorderBottomRadius => seq!["border-bottom-left-radius"@, "border-bottom-right-radius"@],
        CssProperty::BorderClip => seq!["border-top-clip"@, "border-right-clip"@, "border-bottom-clip"@, "border-left-clip"@],
        CssProperty::BorderColor => seq!["border-top-color"@, "border-right-color"@, "border-bottom-color"@, "border-left-color"@],
        CssProperty::BorderImage => seq!["border-image-source"@, "border-image-slice"@, "border-image-width"@, "border-image-outset"@, "border-image-repeat"@],
        CssProperty::BorderInline => seq!["border-inline-start"@, "border-inline-end"@],
        CssProperty::BorderInlineClip => seq!["border-inline-start-clip"@, "border-inline-end-clip"@],
        CssProperty::BorderInlineColor => seq!["border-inline-start-color"@, "border-inline-end-color"@],
        CssProperty::BorderInlineEnd => seq!["border-inline-end-width"@, "border-inline-end-style"@, "border-inline-end-color"@],
        CssProperty::BorderInlineEndRadius => seq!["border-start-end-radius"@, "border-end-end-radius"@],
        CssProperty::BorderInlineStart => seq!["border-inline-start-width"@, "border-inline-start-style"@, "border-inline-start-color"@],
        CssProperty::BorderInlineStartRadius => seq!["border-start-start-radius"@, "border-end-start-radius"@],
        CssProperty::BorderInlineStyle => seq!["border-inline-start-style"@, "border-inline-end-style"@],
        CssProperty::BorderInlineWidth => seq!["border-inline-start-width"@, "border-inline-end-width"@],
        CssProperty::BorderLeft => seq!["border-left-width"@, "border-left-style"@, "border-left-color"@],
        CssProperty::BorderLeftRadius => seq!["border-top-left-radius"@, "border-bottom-left-radius"@],
        CssProperty::BorderRadius => seq!["border-top-left-radius"@, "border-top-right-radius"@, "border-bottom-right-radius"@, "border-bottom-left-radius"@],
        CssProperty::BorderRight => seq!["border-right-width"@, "border-right-style"@, "border-right-color"@],
        CssProperty::BorderRightRadius => seq!["border-top-right-radius"@, "border-bottom-right-radius"@],
        CssProperty::BorderStyle => seq!["border-top-style"@, "border-right-style"@, "border-bottom-style"@, "border-left-style"@],
        CssProperty::BorderTop => seq!["border-top-width"@, "border-top-style"@, "border-top-color"@],
        CssProperty::BorderTopRadius => seq!["border-top-left-radius"@, "border-top-right-radius"@],
        CssProperty::BorderWidth => seq!["border-top-width"@, "border-right-width"@, "border-bottom-width"@, "border-left-width"@],
        CssProperty::BoxShadow => seq!["box-shadow-color"@, "box-shadow-offset"@, "box-shadow-blur"@, "box-shadow-spread"@, "box-shadow-position"@],
        CssProperty::Caret => seq!["caret-color"@, "caret-animation"@, "caret-shape"@],
        CssProperty::ColorAdjust => seq!["print-color-adjust"@],
        CssProperty::ColumnRule => seq!["column-rule-width"@, "column-rule-style"@, "column-rule-color"@],
        CssProperty::ColumnRuleInset => seq!["column-rule-inset-cap-start"@, "column-rule-inset-cap-end"@, "column-rule-inset-junction-start"@, "column-rule-inset-junction-end"@],
        CssProperty::ColumnRuleInsetCap => seq!["column-rule-inset-cap-start"@, "column-rule-inset-cap-end"@],
        CssProperty::ColumnRuleInsetEnd => seq!["column-rule-inset-cap-end"@, "column-rule-inset-junction-end"@],
        CssProperty::ColumnRuleInsetJunction => seq!["column-rule-inset-junction-start"@, "column-rule-inset-junction-end"@],
        CssProperty::ColumnRuleInsetStart => seq!["column-rule-inset-cap-start"@, "column-rule-inset-junction-start"@],
        CssProperty::Columns => seq!["column-width"@, "column-count"@, "column-height"@],
        CssProperty::ContainIntrinsicSize => seq!["contain-intrinsic-width"@, "contain-intrinsic-height"@],
        CssProperty::Container => seq!["container-name"@, "container-type"@],
        CssProperty::Corner => seq!["border-radius"@, "corner-shape"@],
        CssProperty::CornerBlockEnd => seq!["border-block-end-radius"@, "corner-block-end-shape"@],
        CssProperty::CornerBlockEndShape => seq!["corner-end-start-shape"@, "corner-end-end-shape"@],
        CssProperty::CornerBlockStart => seq!["border-block-start-radius"@, "corner-block-start-shape"@],
        CssProperty::CornerBlockStartShape => seq!["corner-start-start-shape"@, "corner-start-end-shape"@],
        CssProperty::CornerBottom => seq!["border-bottom-radius"@, "corner-bottom-shape"@],
        CssProperty::CornerBottomLeft => seq!["border-bottom-left-radius"@, "corner-bottom-left-shape"@],
        CssProperty::CornerBottomRight => seq!["border-bottom-right-radius"@, "corner-bottom-right-shape"@],
        CssProperty::CornerBottomShape => seq!["corner-bottom-left-shape"@, "corner-bottom-right-shape"@],
        CssProperty::CornerEndEnd => seq!["border-end-end-radius"@, "corner-end-end-shape"@],
        CssProperty::CornerEndStart => seq!["border-end-start-radius"@, "corner-end-start-shape"@],
        CssProperty::CornerInlineEnd => seq!["border-inline-end-radius"@, "corner-inline-end-shape"@],
        CssProperty::CornerInlineEndShape => seq!["corner-start-end-shape"@, "corner-end-end-shape"@],
        CssProperty::CornerInlineStart => seq!["border-inline-start-radius"@, "corner-inline-start-shape"@],
        CssProperty::CornerInlineStartShape => seq!["corner-start-start-shape"@, "corner-end-start-shape"@],
        CssProperty::CornerLeft => seq!["border-left-radius"@, "corner-left-shape"@],
        CssProperty::CornerLeftShape => seq!["corner-top-left-shape"@, "corner-bottom-left-shape"@],
        CssProperty::CornerRight => seq!["border-right-radius"@, "corner-right-shape"@],
        CssProperty::CornerRightShape => seq!["corner-top-right-shape"@, "corner-bottom-right-shape"@],
        CssProperty::CornerShape => seq!["corner-top-left-shape"@, "corner-top-right-shape"@, "corner-bottom-right-shape"@, "corner-bottom-left-shape"@],
        CssProperty::CornerStartEnd => seq!["border-start-end-radius"@, "corner-start-end-shape"@],
        CssProperty::CornerStartStart => seq!["border-start-start-radius"@, "corner-start-start-shape"@],
        CssProperty::CornerTop => seq!["border-top-radius"@, "corner-top-shape"@],
        CssProperty::CornerTopLeft => seq!["border-top-left-radius"@, "corner-top-left-shape"@],
        CssProperty::CornerTopRight => seq!["border-top-right-radius"@, "corner-top-right-shape"@],
        CssProperty::CornerTopShape => seq!["corner-top-left-shape"@, "corner-top-right-shape"@],
        CssProperty::Cue => seq!["cue-before"@, "cue-after"@],
        CssProperty::Flex => seq!["flex-grow"@, "flex-shrink"@, "flex-basis"@],
        CssProperty::FlexFlow => seq!["flex-direction"@, "flex-wrap"@],
        CssProperty::Font => seq!["font-style"@, "font-variant"@, "font-weight"@, "font-stretch"@, "font-size"@, "line-height"@, "font-family"@],
        CssProperty::FontSynthesis => seq!["font-synthesis-weight"@, "font-synthesis-style"@, "font-synthesis-small-caps"@],
        CssProperty::FontVariant => seq!["font-variant-ligatures"@, "font-variant-caps"@, "font-variant-alternates"@, "font-variant-numeric"@, "font-variant-east-asian"@, "font-variant-position"@, "font-variant-emoji"@],
        CssProperty::Gap => seq!["row-gap"@, "column-gap"@],
        CssProperty::Grid => seq!["grid-template-rows"@, "grid-template-columns"@, "grid-template-areas"@, "grid-auto-rows"@, "grid-auto-columns"@, "grid-auto-flow"@],
        CssProperty::GridArea => seq!["grid-row-start"@, "grid-column-start"@, "grid-row-end"@, "grid-column-end"@],
        CssProperty::GridColumn => seq!["grid-column-start"@, "grid-column-end"@],
        CssProperty::GridGap => seq!["row-gap"@, "column-gap"@],
        CssProperty::GridRow => seq!["grid-row-start"@, "grid-row-end"@],
        CssProperty::GridTemplate => seq!["grid-template-rows"@, "grid-template-columns"@, "grid-template-areas"@],
        CssProperty::Inset => seq!["top"@, "right"@, "bottom"@, "left"@],
        CssProperty::InsetBlock => seq!["inset-block-start"@, "inset-block-end"@],
        CssProperty::InsetInline => seq!["inset-inline-start"@, "inset-inline-end"@],
        CssProperty::InterestDelay => seq!["interest-delay-start"@, "interest-delay-end"@],
        CssProperty::LineClamp => seq!["max-lines"@, "block-ellipsis"@, "continue"@],
        CssProperty::ListStyle => seq!["list-style-type"@, "list-style-position"@, "list-style-image"@],
        CssProperty::Margin => seq!["margin-top"@, "margin-right"@, "margin-bottom"@, "margin-left"@],
        CssProperty::MarginBlock => seq!["margin-block-start"@, "margin-block-end"@],
        CssProperty::MarginInline => seq!["margin-inline-start"@, "margin-inline-end"@],
        CssProperty::Marker => seq!["marker-start"@, "marker-mid"@, "marker-end"@],
        CssProperty::Mask => seq!["mask-image"@, "mask-position"@, "mask-size"@, "mask-repeat"@, "mask-origin"@, "mask-clip"@, "mask-composite"@, "mask-mode"@],
        CssProperty::MaskBorder => seq!["mask-border-source"@, "mask-border-slice"@, "mask-border-width"@, "mask-border-outset"@, "mask-border-repeat"@, "mask-border-mode"@],
        CssProperty::Offset => seq!["offset-path"@, "offset-distance"@, "offset-rotate"@, "offset-anchor"@, "offset-position"@],
        CssProperty::Outline => seq!["outline-width"@, "outline-style"@, "outline-color"@],
        CssProperty::Overflow => seq!["overflow-x"@, "overflow-y"@],
        CssProperty::OverflowClipMargin => seq!["overflow-clip-margin-top"@, "overflow-clip-margin-right"@, "overflow-clip-margin-bottom"@, "overflow-clip-margin-left"@],
        CssProperty::OverflowClipMarginBlock => seq!["overflow-clip-margin-block-start"@, "overflow-clip-margin-block-end"@],
        CssProperty::OverflowClipMarginInline => seq!["overflow-clip-margin-inline-start"@, "overflow-clip-margin-inline-end"@],
        CssProperty::OverscrollBehavior => seq!["overscroll-behavior-x"@, "overscroll-behavior-y"@],
        CssProperty::Padding => seq!["padding-top"@, "padding-right"@, "padding-bottom"@, "padding-left"@],
        CssProperty::PaddingBlock => seq!["padding-block-start"@, "padding-block-end"@],
        CssProperty::PaddingInline => seq!["padding-inline-start"@, "padding-inline-end"@],
        CssProperty::Pause => seq!["pause-before"@, "pause-after"@],
        CssProperty::PlaceContent => seq!["align-content"@, "justify-content"@],
        CssProperty::PlaceItems => seq!["align-items"@, "justify-items"@],
        CssProperty::PlaceSelf => seq!["align-self"@, "justify-self"@],
        CssProperty::PointerTimeline => seq!["pointer-timeline-name"@, "pointer-timeline-axis"@],
        CssProperty::PositionTry => seq!["position-try-order"@, "position-try-fallbacks"@],
        CssProperty::Rest => seq!["rest-before"@, "rest-after"@],
        CssProperty::RowRule => seq!["row-rule-width"@, "row-rule-style"@, "row-rule-color"@],
        CssProperty::RowRuleInset => seq!["row-rule-inset-cap-start"@, "row-rule-inset-cap-end"@, "row-rule-inset-junction-start"@, "row-rule-inset-junction-end"@],
        CssProperty::RowRuleInsetCap => seq!["row-rule-inset-cap-start"@, "row-rule-inset-cap-end"@],
        CssProperty::RowRuleInsetEnd => seq!["row-rule-inset-cap-end"@, "row-rule-inset-junction-end"@],
        CssProperty::RowRuleInsetJunction => seq!["row-rule-inset-junction-start"@, "row-rule-inset-junction-end"@],
        CssProperty::RowRuleInsetStart => seq!["row-rule-inset-cap-start"@, "row-rule-inset-junction-start"@],
        CssProperty::Rule => seq!["column-rule"@, "row-rule"@],
        CssProperty::RuleBreak => seq!["column-rule-break"@, "row-rule-break"@],
        CssProperty::RuleColor => seq!["column-rule-color"@, "row-rule-color"@],
        CssProperty::RuleInset => seq!["column-rule-inset"@, "row-rule-inset"@],
        CssProperty::RuleInsetCap => seq!["column-rule-inset-cap"@],
        CssProperty::RuleInsetEnd => seq!["column-rule-inset-end"@, "row-rule-inset-end"@],
        CssProperty::RuleInsetJunction => seq!["column-rule-inset-junction"@],
        CssProperty::RuleInsetStart => seq!["column-rule-inset-start"@, "row-rule-inset-start"@],
        CssProperty::RuleStyle => seq!["column-rule-style"@, "row-rule-style"@],
        CssProperty::RuleVisibilityItems => seq!["column-rule-visibility-items"@],
        CssProperty::RuleWidth => seq!["column-rule-width"@, "row-rule-width"@],
        CssProperty::ScrollMargin => seq!["scroll-margin-top"@, "scroll-margin-right"@, "scroll-margin-bottom"@, "scroll-margin-left"@],
        CssProperty::ScrollMarginBlock => seq!["scroll-margin-block-start"@, "scroll-margin-block-end"@],
        CssProperty::ScrollMarginInline => seq!["scroll-margin-inline-start"@, "scroll-margin-inline-end"@],
        CssProperty::ScrollPadding => seq!["scroll-padding-top"@, "scroll-padding-right"@, "scroll-padding-bottom"@, "scroll-padding-left"@],
        CssProperty::ScrollPaddingBlock => seq!["scroll-padding-block-start"@, "scroll-padding-block-end"@],
        CssProperty::ScrollPaddingInline => seq!["scroll-padding-inline-start"@, "scroll-padding-inline-end"@],
        CssProperty::ScrollTimeline => seq!["scroll-timeline-name"@, "scroll-timeline-axis"@],
        CssProperty::TextAlign => seq!["text-align-all"@, "text-align-last"@],
        CssProperty::TextDecoration => seq!["text-decoration-line"@, "text-decoration-thickness"@, "text-decoration-style"@, "text-decoration-color"@],
        CssProperty::TextDecorationSkip => seq!["text-decoration-skip-self"@, "text-decoration-skip-box"@, "text-decoration-skip-spaces"@, "text-decoration-skip-ink"@],
        CssProperty::TextEmphasis => seq!["text-emphasis-style"@, "text-emphasis-color"@],
        CssProperty::TextSpacing => seq!["text-spacing-trim"@, "text-autospace"@],
        CssProperty::TextWrap => seq!["text-wrap-mode"@, "text-wrap-style"@],
        CssProperty::TimelineTrigger => seq!["timeline-trigger-name"@, "timeline-trigger-source"@, "timeline-trigger-activation-range"@, "timeline-trigger-active-range"@],
        CssProperty::TimelineTriggerActivationRange => seq!["timeline-trigger-activation-range-start"@, "timeline-trigger-activation-range-end"@],
        CssProperty::TimelineTriggerActiveRange => seq!["timeline-trigger-active-range-start"@, "timeline-trigger-active-range-end"@],
        CssProperty::Transition => seq!["transition-property"@, "transition-duration"@, "transition-timing-function"@, "transition-delay"@, "transition-behavior"@],
        CssProperty::VerticalAlign => seq!["alignment-baseline"@, "baseline-shift"@, "baseline-source"@],
        CssProperty::ViewTimeline => seq!["view-timeline-name"@, "view-timeline-axis"@],
        CssProperty::WhiteSpace => seq!["white-space-collapse"@, "text-wrap-mode"@],
        _ => seq![],
    }
}

/// The names of a sequence of properties.
pub open spec fn property_names(ps: Seq<CssProperty>) -> Seq<Seq<char>> {
    ps.map_values(|p: CssProperty| p.spec_name())
}

/// The longhands of every property are, by name and in order, those its
/// definition lists: none for a property that is not a shorthand.
pub proof fn lemma_longhands_as_documented(property: CssProperty)
    ensures
        property_names(spec_longhands_of(property)) == documented_longhand_names(property),
{
    match property {
        CssProperty::WebkitAnimation => lemma_longhands_of_webkit_animation(),
        CssProperty::WebkitBorderRadius => lemma_longhands_of_webkit_border_radius(),
        CssProperty::WebkitBoxShadow => lemma_longhands_of_webkit_box_shadow(),
        CssProperty::WebkitFlex => lemma_longhands_of_webkit_flex(),
        CssProperty::WebkitFlexFlow => lemma_longhands_of_webkit_flex_flow(),
        CssProperty::WebkitLineClamp => lemma_longhands_of_webkit_line_clamp(),
        CssProperty::WebkitMask => lemma_longhands_of_webkit_mask(),
        CssProperty::WebkitMaskBoxImage => lemma_longhands_of_webkit_mask_box_image(),
        CssProperty::WebkitTextStroke => lemma_longhands_of_webkit_text_stroke(),
        CssProperty::WebkitTransition => lemma_longhands_of_webkit_transition(),
        CssProperty::Animation => lemma_longhands_of_animation(),
        CssProperty::AnimationRange => lemma_longhands_of_animation_range(),
        CssProperty::Background => lemma_longhands_of_background(),
        CssProperty::BackgroundPosition => lemma_longhands_of_background_position(),
        CssProperty::BlockStep => lemma_longhands_of_block_step(),
        CssProperty::Border => lemma_longhands_of_border(),
        CssProperty::BorderBlock => lemma_longhands_of_border_block(),
        CssProperty::BorderBlockClip => lemma_longhands_of_border_block_clip(),
        CssProperty::BorderBlockColor => lemma_longhands_of_border_block_color(),
        CssProperty::BorderBlockEnd => lemma_longhands_of_border_block_end(),
        CssProperty::BorderBlockEndRadius => lemma_longhands_of_border_block_end_radius(),
        CssProperty::BorderBlockStart => lemma_longhands_of_border_block_start(),
        CssProperty::BorderBlockStartRadius => lemma_longhands_of_border_block_start_radius(),
        CssProperty::BorderBlockStyle => lemma_longhands_of_border_block_style(),
        CssProperty::BorderBlockWidth => lemma_longhands_of_border_block_width(),
        CssProperty::BorderBottom => lemma_longhands_of_border_bottom(),
        CssProperty::BorderBottomRadius => lemma_longhands_of_border_bottom_radius(),
        CssProperty::BorderClip => lemma_longhands_of_border_clip(),
        CssProperty::BorderColor => lemma_longhands_of_border_color(),
        CssProperty::BorderImage => lemma_longhands_of_border_image(),
        CssProperty::BorderInline => lemma_longhands_of_border_inline(),
        CssProperty::BorderInlineClip => lemma_longhands_of_border_inline_clip(),
        CssProperty::BorderInlineColor => lemma_longhands_of_border_inline_color(),
        CssProperty::BorderInlineEnd => lemma_longhands_of_border_inline_end(),
        CssProperty::BorderInlineEndRadius => lemma_longhands_of_border_inline_end_radius(),
        CssProperty::BorderInlineStart => lemma_longhands_of_border_inline_start(),
        CssProperty::BorderInlineStartRadius => lemma_longhands_of_border_inline_start_radius(),
        CssProperty::BorderInlineStyle => lemma_longhands_of_border_inline_style(),
        CssProperty::BorderInlineWidth => lemma_longhands_of_border_inline_width(),
        CssProperty::BorderLeft => lemma_longhands_of_border_left(),
        CssProperty::BorderLeftRadius => lemma_longhands_of_border_left_radius(),
        CssProperty::BorderRadius => lemma_longhands_of_border_radius(),
        CssProperty::BorderRight => lemma_longhands_of_border_right(),
        CssProperty::BorderRightRadius => lemma_longhands_of_border_right_radius(),
        CssProperty::BorderStyle => lemma_longhands_of_border_style(),
        CssProperty::BorderTop => lemma_longhands_of_border_top(),
        CssProperty::BorderTopRadius => lemma_longhands_of_border_top_radius(),
        CssProperty::BorderWidth => lemma_longhands_of_border_width(),
        CssProperty::BoxShadow => lemma_longhands_of_box_shadow(),
        CssProperty::Caret => lemma_longhands_of_caret(),
        CssProperty::ColorAdjust => lemma_longhands_of_color_adjust(),
        CssProperty::ColumnRule => lemma_longhands_of_column_rule(),
        CssProperty::ColumnRuleInset => lemma_longhands_of_column_rule_inset(),
        CssProperty::ColumnRuleInsetCap => lemma_longhands_of_column_rule_inset_cap(),
        CssProperty::ColumnRuleInsetEnd => lemma_longhands_of_column_rule_inset_end(),
        CssProperty::ColumnRuleInsetJunction => lemma_longhands_of_column_rule_inset_junction(),
        CssProperty::ColumnRuleInsetStart => lemma_longhands_of_column_rule_inset_start(),
        CssProperty::Columns => lemma_longhands_of_columns(),
        CssProperty::ContainIntrinsicSize => lemma_longhands_of_contain_intrinsic_size(),
        CssProperty::Container => lemma_longhands_of_container(),
        CssProperty::Corner => lemma_longhands_of_corner(),
        CssProperty::CornerBlockEnd => lemma_longhands_of_corner_block_end(),
        CssProperty::CornerBlockEndShape => lemma_longhands_of_corner_block_end_shape(),
        CssProperty::CornerBlockStart => lemma_longhands_of_corner_block_start(),
        CssProperty::CornerBlockStartShape => lemma_longhands_of_corner_block_start_shape(),
        CssProperty::CornerBottom => lemma_longhands_of_corner_bottom(),
        CssProperty::CornerBottomLeft => lemma_longhands_of_corner_bottom_left(),
        CssProperty::CornerBottomRight => lemma_longhands_of_corner_bottom_right(),
        CssProperty::CornerBottomShape => lemma_longhands_of_corner_bottom_shape(),
        CssProperty::CornerEndEnd => lemma_longhands_of_corner_end_end(),
        CssProperty::CornerEndStart => lemma_longhands_of_corner_end_start(),
        CssProperty::CornerInlineEnd => lemma_longhands_of_corner_inline_end(),
        CssProperty::CornerInlineEndShape => lemma_longhands_of_corner_inline_end_shape(),
        CssProperty::CornerInlineStart => lemma_longhands_of_corner_inline_start(),
        CssProperty::CornerInlineStartShape => lemma_longhands_of_corner_inline_start_shape(),
        CssProperty::CornerLeft => lemma_longhands_of_corner_left(),
        CssProperty::CornerLeftShape => lemma_longhands_of_corner_left_shape(),
        CssProperty::CornerRight => lemma_longhands_of_corner_right(),
        CssProperty::CornerRightShape => lemma_longhands_of_corner_right_shape(),
        CssProperty::CornerShape => lemma_longhands_of_corner_shape(),
        CssProperty::CornerStartEnd => lemma_longhands_of_corner_start_end(),
        CssProperty::CornerStartStart => lemma_longhands_of_corner_start_start(),
        CssProperty::CornerTop => lemma_longhands_of_corner_top(),
        CssProperty::CornerTopLeft => lemma_longhands_of_corner_top_left(),
        CssProperty::CornerTopRight => lemma_longhands_of_corner_top_right(),
        CssProperty::CornerTopShape => lemma_longhands_of_corner_top_shape(),
        CssProperty::Cue => lemma_longhands_of_cue(),
        CssProperty::Flex => lemma_longhands_of_flex(),
        CssProperty::FlexFlow => lemma_longhands_of_flex_flow(),
        CssProperty::Font => lemma_longhands_of_font(),
        CssProperty::FontSynthesis => lemma_longhands_of_font_synthesis(),
        CssProperty::FontVariant => lemma_longhands_of_font_variant(),
        CssProperty::Gap => lemma_longhands_of_gap(),
        CssProperty::Grid => lemma_longhands_of_grid(),
        CssProperty::GridArea => lemma_longhands_of_grid_area(),
        CssProperty::GridColumn => lemma_longhands_of_grid_column(),
        CssProperty::GridGap => lemma_longhands_of_grid_gap(),
        CssProperty::GridRow => lemma_longhands_of_grid_row(),
        CssProperty::GridTemplate => lemma_longhands_of_grid_template(),
        CssProperty::Inset => lemma_longhands_of_inset(),
        CssProperty::InsetBlock => lemma_longhands_of_inset_block(),
        CssProperty::InsetInline => lemma_longhands_of_inset_inline(),
        CssProperty::InterestDelay => lemma_longhands_of_interest_delay(),
        CssProperty::LineClamp => lemma_longhands_of_line_clamp(),
        CssProperty::ListStyle => lemma_longhands_of_list_style(),
        CssProperty::Margin => lemma_longhands_of_margin(),
        CssProperty::MarginBlock => lemma_longhands_of_margin_block(),
        CssProperty::MarginInline => lemma_longhands_of_margin_inline(),
        CssProperty::Marker => lemma_longhands_of_marker(),
        CssProperty::Mask => lemma_longhands_of_mask(),
        CssProperty::MaskBorder => lemma_longhands_of_mask_border(),
        CssProperty::Offset => lemma_longhands_of_offset(),
        CssProperty::Outline => lemma_longhands_of_outline(),
        CssProperty::Overflow => lemma_longhands_of_overflow(),
        CssProperty::OverflowClipMargin => lemma_longhands_of_overflow_clip_margin(),
        CssProperty::OverflowClipMarginBlock => lemma_longhands_of_overflow_clip_margin_block(),
        CssProperty::OverflowClipMarginInline => lemma_longhands_of_overflow_clip_margin_inline(),
        CssProperty::OverscrollBehavior => lemma_longhands_of_overscroll_behavior(),
        CssProperty::Padding => lemma_longhands_of_padding(),
        CssProperty::PaddingBlock => lemma_longhands_of_padding_block(),
        CssProperty::PaddingInline => lemma_longhands_of_padding_inline(),
        CssProperty::Pause => lemma_longhands_of_pause(),
        CssProperty::PlaceContent => lemma_longhands_of_place_content(),
        CssProperty::PlaceItems => lemma_longhands_of_place_items(),
        CssProperty::PlaceSelf => lemma_longhands_of_place_self(),
        CssProperty::PointerTimeline => lemma_longhands_of_pointer_timeline(),
        CssProperty::PositionTry => lemma_longhands_of_position_try(),
        CssProperty::Rest => lemma_longhands_of_rest(),
        CssProperty::RowRule => lemma_longhands_of_row_rule(),
        CssProperty::RowRuleInset => lemma_longhands_of_row_rule_inset(),
        CssProperty::RowRuleInsetCap => lemma_longhands_of_row_rule_inset_cap(),
        CssProperty::RowRuleInsetEnd => lemma_longhands_of_row_rule_inset_end(),
        CssProperty::RowRuleInsetJunction => lemma_longhands_of_row_rule_inset_junction(),
        CssProperty::RowRuleInsetStart => lemma_longhands_of_row_rule_inset_start(),
        CssProperty::Rule => lemma_longhands_of_rule(),
        CssProperty::RuleBreak => lemma_longhands_of_rule_break(),
        CssProperty::RuleColor => lemma_longhands_of_rule_color(),
        CssProperty::RuleInset => lemma_longhands_of_rule_inset(),
        CssProperty::RuleInsetCap => lemma_longhands_of_rule_inset_cap(),
        CssProperty::RuleInsetEnd => lemma_longhands_of_rule_inset_end(),
        CssProperty::RuleInsetJunction => lemma_longhands_of_rule_inset_junction(),
        CssProperty::RuleInsetStart => lemma_longhands_of_rule_inset_start(),
        CssProperty::RuleStyle => lemma_longhands_of_rule_style(),
        CssProperty::RuleVisibilityItems => lemma_longhands_of_rule_visibility_items(),
        CssProperty::RuleWidth => lemma_longhands_of_rule_width(),
        CssProperty::ScrollMargin => lemma_longhands_of_scroll_margin(),
        CssProperty::ScrollMarginBlock => lemma_longhands_of_scroll_margin_block(),
        CssProperty::ScrollMarginInline => lemma_longhands_of_scroll_margin_inline(),
        CssProperty::ScrollPadding => lemma_longhands_of_scroll_padding(),
        CssProperty::ScrollPaddingBlock => lemma_longhands_of_scroll_padding_block(),
        CssProperty::ScrollPaddingInline => lemma_longhands_of_scroll_padding_inline(),
        CssProperty::ScrollTimeline => lemma_longhands_of_scroll_timeline(),
        CssProperty::TextAlign => lemma_longhands_of_text_align(),
        CssProperty::TextDecoration => lemma_longhands_of_text_decoration(),
        CssProperty::TextDecorationSkip => lemma_longhands_of_text_decoration_skip(),
        CssProperty::TextEmphasis => lemma_longhands_of_text_emphasis(),
        CssProperty::TextSpacing => lemma_longhands_of_text_spacing(),
        CssProperty::TextWrap => lemma_longhands_of_text_wrap(),
        CssProperty::TimelineTrigger => lemma_longhands_of_timeline_trigger(),
        CssProperty::TimelineTriggerActivationRange => lemma_longhands_of_timeline_trigger_activation_range(),
        CssProperty::TimelineTriggerActiveRange => lemma_longhands_of_timeline_trigger_active_range(),
        CssProperty::Transition => lemma_longhands_of_transition(),
        CssProperty::VerticalAlign => lemma_longhands_of_vertical_align(),
        CssProperty::ViewTimeline => lemma_longhands_of_view_timeline(),
        CssProperty::WhiteSpace => lemma_longhands_of_white_space(),
        _ => {
            assert(property_names(spec_longhands_of(property)) =~= documented_longhand_names(property));
        },
    }
}

#[verifier::rlimit(40)]
proof fn lemma_longhands_of_webkit_animation()
    ensures
        property_names(spec_longhands_of(CssProperty::WebkitAnimation)) == documented_longhand_names(CssProperty::WebkitAnimation),
{
    assert(property_names(spec_longhands_of(CssProperty::WebkitAnimation)) =~= documented_longhand_names(CssProperty::WebkitAnimation));
}

#[verifier::rlimit(40)]
proof fn lemma_longhands_of_webkit_border_radius()
    ensures
        property_names(spec_longhands_of(CssProperty::WebkitBorderRadius)) == documented_longhand_names(CssProperty::WebkitBorderRadius),
{
    assert(property_names(spec_longhands_of(CssProperty::WebkitBorderRadius)) =~= documented_longhand_names(CssProperty::WebkitBorderRadius));
}

#[verifier::rlimit(40)]
proof fn lemma_longhands_of_webkit_box_shadow()
    ensures
        property_names(spec_longhands_of(CssProperty::WebkitBoxShadow)) == documented_longhand_names(CssProperty::WebkitBoxShadow),
{
    assert(property_names(spec_longhands_of(CssProperty::WebkitBoxShadow)) =~= documented_longhand_names(CssProperty::WebkitBoxShadow));
}

#[verifier::rlimit(40)]
proof fn lemma_longhands_of_webkit_flex()
    ensures
        property_names(spec_longhands_of(CssProperty::WebkitFlex)) == documented_longhand_names(CssProperty::WebkitFlex),
{
    assert(property_names(spec_longhands_of(CssProperty::WebkitFlex)) =~= documented_longhand_names(CssProperty::WebkitFlex));
}

#[verifier::rlimit(40)]
proof fn lemma_longhands_of_webkit_flex_flow()
    ensures
        property_names(spec_longhands_of(CssProperty::WebkitFlexFlow)) == documented_longhand_names(CssProperty::WebkitFlexFlow),
{
    assert(property_names(spec_longhands_of(CssProperty::WebkitFlexFlow)) =~= documented_longhand_names(CssProperty::WebkitFlexFlow));
}

#[verifier::rlimit(40)]
proof fn lemma_longhands_of_webkit_line_clamp()
    ensures
        property_names(spec_longhands_of(CssProperty::WebkitLineClamp)) == documented_longhand_names(CssProperty::WebkitLineClamp),
{
    assert(property_names(spec_longhands_of(CssProperty::WebkitLineClamp)) =~= documented_longhand_names(CssProperty::WebkitLineClamp));
}

#[verifier::rlimit(40)]
proof fn lemma_longhands_of_webkit_mask()
    ensures
        property_names(spec_longhands_of(CssProperty::WebkitMask)) == documented_longhand_names(CssProperty::WebkitMask),
{
    assert(property_names(spec_longhands_of(CssProperty::WebkitMask)) =~= documented_longhand_names(CssProperty::WebkitMask));
}

#[verifier::rlimit(40)]
proof fn lemma_longhands_of_webkit_mask_box_image()
    ensures
        property_names(spec_longhands_of(CssProperty::WebkitMaskBoxImage)) == documented_longhand_names(CssProperty::WebkitMaskBoxImage),
{
    assert(property_names(spec_longhands_of(CssProperty::WebkitMaskBoxImage)) =~= documented_longhand_names(CssProperty::WebkitMaskBoxImage));
}

#[verifier::rlimit(40)]
proof fn lemma_longhands_of_webkit_text_stroke()
    ensures
        property_names(spec_longhands_of(CssProperty::WebkitTextStroke)) == documented_longhand_names(CssProperty::WebkitTextStroke),
{
    assert(property_names(spec_longhands_of(CssProperty::WebkitTextStroke)) =~= documented_longhand_names(CssProperty::WebkitTextStroke));
}

#[verifier::rlimit(40)]
proof fn lemma_longhands_of_webkit_transition()
    ensures
        property_names(spec_longhands_of(CssProperty::WebkitTransition)) == documented_longhand_names(CssProperty::WebkitTransition),
{
    assert(property_names(spec_longhands_of(CssProperty::WebkitTransition)) =~= documented_longhand_names(CssProperty::WebkitTransition));
}

#[verifier::rlimit(40)]
proof fn lemma_longhands_of_animation()
    ensures
        property_names(spec_longhands_of(CssProperty::Animation)) == documented_longhand_names(CssProperty::Animation),
{
    assert(property_names(spec_longhands_of(CssProperty::Animation)) =~= documented_longhand_names(CssProperty::Animation));
}

#[verifier::rlimit(40)]
proof fn lemma_longhands_of_animation_range()
    ensures
        property_names(spec_longhands_of(CssProperty::AnimationRange)) == documented_longhand_names(CssProperty::AnimationRange),
{
    assert(property_names(spec_longhands_of(CssProperty::AnimationRange)) =~= documented_longhand_names(CssProperty::AnimationRange));
}

#[verifier::rlimit(40)]
proof fn lemma_longhands_of_background()
    ensures
        property_names(spec_longhands_of(CssProperty::Background)) == documented_longhand_names(CssProperty::Background),
{
    assert(property_names(spec_longhands_of(CssProperty::Background)) =~= documented_longhand_names(CssProperty::Background));
}

#[verifier::rlimit(40)]
proof fn lemma_longhands_of_background_position()
    ensures
        property_names(spec_longhands_of(CssProperty::BackgroundPosition)) == documented_longhand_names(CssProperty::BackgroundPosition),
{
    assert(property_names(spec_longhands_of(CssProperty::BackgroundPosition)) =~= documented_longhand_names(CssProperty::BackgroundPosition));
}

#[verifier::rlimit(40)]
proof fn lemma_longhands_of_block_step()
    ensures
        property_names(spec_longhands_of(CssProperty::BlockStep)) == documented_longhand_names(CssProperty::BlockStep),
{
    assert(property_names(spec_longhands_of(CssProperty::BlockStep)) =~= documented_longhand_names(CssProperty::BlockStep));
}

#[verifier::rlimit(40)]
proof fn lemma_longhands_of_border()
    ensures
        property_names(spec_longhands_of(CssProperty::Border)) == documented_longhand_names(CssProperty::Border),
{
    assert(property_names(spec_longhands_of(CssProperty::Border)) =~= documented_longhand_names(CssProperty::Border));
}

#[verifier::rlimit(40)]
proof fn lemma_longhands_of_border_block()
    ensures
        property_names(spec_longhands_of(CssProperty::BorderBlock)) == documented_longhand_names(CssProperty::BorderBlock),
{
    assert(property_names(spec_longhands_of(CssProperty::BorderBlock)) =~= documented_longhand_names(CssProperty::BorderBlock));
}

#[verifier::rlimit(40)]
proof fn lemma_longhands_of_border_block_clip()
    ensures
        property_names(spec_longhands_of(CssProperty::BorderBlockClip)) == documented_longhand_names(CssProperty::BorderBlockClip),
{
    assert(property_names(spec_longhands_of(CssProperty::BorderBlockClip)) =~= documented_longhand_names(CssProperty::BorderBlockClip));
}

#[verifier::rlimit(40)]
proof fn lemma_longhands_of_border_block_color()
    ensures
        property_names(spec_longhands_of(CssProperty::BorderBlockColor)) == documented_longhand_names(CssProperty::BorderBlockColor),
{
    assert(property_names(spec_longhands_of(CssProperty::BorderBlockColor)) =~= documented_longhand_names(CssProperty::BorderBlockColor));
}

#[verifier::rlimit(40)]
proof fn lemma_longhands_of_border_block_end()
    ensures
        property_names(spec_longhands_of(CssProperty::BorderBlockEnd)) == documented_longhand_names(CssProperty::BorderBlockEnd),
{
    assert(property_names(spec_longhands_of(CssProperty::BorderBlockEnd)) =~= documented_longhand_names(CssProperty::BorderBlockEnd));
}

#[verifier::rlimit(40)]
proof fn lemma_longhands_of_border_block_end_radius()
    ensures
        property_names(spec_longhands_of(CssProperty::BorderBlockEndRadius)) == documented_longhand_names(CssProperty::BorderBlockEndRadius),
{
    assert(property_names(spec_longhands_of(CssProperty::BorderBlockEndRadius)) =~= documented_longhand_names(CssProperty::BorderBlockEndRadius));
}

#[verifier::rlimit(40)]
proof fn lemma_longhands_of_border_block_start()
    ensures
        property_names(spec_longhands_of(CssProperty::BorderBlockStart)) == documented_longhand_names(CssProperty::BorderBlockStart),
{
    assert(property_names(spec_longhands_of(CssProperty::BorderBlockStart)) =~= documented_longhand_names(CssProperty::BorderBlockStart));
}

#[verifier::rlimit(40)]
proof fn lemma_longhands_of_border_block_start_radius()
    ensures
        property_names(spec_longhands_of(CssProperty::BorderBlockStartRadius)) == documented_longhand_names(CssProperty::BorderBlockStartRadius),
{
    assert(property_names(spec_longhands_of(CssProperty::BorderBlockStartRadius)) =~= documented_longhand_names(CssProperty::BorderBlockStartRadius));
}

#[verifier::rlimit(40)]
proof fn lemma_longhands_of_border_block_style()
    ensures
        property_names(spec_longhands_of(CssProperty::BorderBlockStyle)) == documented_longhand_names(CssProperty::BorderBlockStyle),
{
    assert(property_names(spec_longhands_of(CssProperty::BorderBlockStyle)) =~= documented_longhand_names(CssProperty::BorderBlockStyle));
}

#[verifier::rlimit(40)]
proof fn lemma_longhands_of_border_block_width()
    ensures
        property_names(spec_longhands_of(CssProperty::BorderBlockWidth)) == documented_longhand_names(CssProperty::BorderBlockWidth),
{
    assert(property_names(spec_longhands_of(CssProperty::BorderBlockWidth)) =~= documented_longhand_names(CssProperty::BorderBlockWidth));
}

#[verifier::rlimit(40)]
proof fn lemma_longhands_of_border_bottom()
    ensures
        property_names(spec_longhands_of(CssProperty::BorderBottom)) == documented_longhand_names(CssProperty::BorderBottom),
{
    assert(property_names(spec_longhands_of(CssProperty::BorderBottom)) =~= documented_longhand_names(CssProperty::BorderBottom));
}

#[verifier::rlimit(40)]
proof fn lemma_longhands_of_border_bottom_radius()
    ensures
        property_names(spec_longhands_of(CssProperty::BorderBottomRadius)) == documented_longhand_names(CssProperty::BorderBottomRadius),
{
    assert(property_names(spec_longhands_of(CssProperty::BorderBottomRadius)) =~= documented_longhand_names(CssProperty::BorderBottomRadius));
}

#[verifier::rlimit(40)]
proof fn lemma_longhands_of_border_clip()
    ensures
        property_names(spec_longhands_of(CssProperty::BorderClip)) == documented_longhand_names(CssProperty::BorderClip),
{
    assert(property_names(spec_longhands_of(CssProperty::BorderClip)) =~= documented_longhand_names(CssProperty::BorderClip));
}

#[verifier::rlimit(40)]
proof fn lemma_longhands_of_border_color()
    ensures
        property_names(spec_longhands_of(CssProperty::BorderColor)) == documented_longhand_names(CssProperty::BorderColor),
{
    assert(property_names(spec_longhands_of(CssProperty::BorderColor)) =~= documented_longhand_names(CssProperty::BorderColor));
}

#[verifier::rlimit(40)]
proof fn lemma_longhands_of_border_image()
    ensures
        property_names(spec_longhands_of(CssProperty::BorderImage)) == documented_longhand_names(CssProperty::BorderImage),
{
    assert(property_names(spec_longhands_of(CssProperty::BorderImage)) =~= documented_longhand_names(CssProperty::BorderImage));
}

#[verifier::rlimit(40)]
proof fn lemma_longhands_of_border_inline()
    ensures
        property_names(spec_longhands_of(CssProperty::BorderInline)) == documented_longhand_names(CssProperty::BorderInline),
{
    assert(property_names(spec_longhands_of(CssProperty::BorderInline)) =~= documented_longhand_names(CssProperty::BorderInline));
}

#[verifier::rlimit(40)]
proof fn lemma_longhands_of_border_inline_clip()
    ensures
        property_names(spec_longhands_of(CssProperty::BorderInlineClip)) == documented_longhand_names(CssProperty::BorderInlineClip),
{
    assert(property_names(spec_longhands_of(CssProperty::BorderInlineClip)) =~= documented_longhand_names(CssProperty::BorderInlineClip));
}

#[verifier::rlimit(40)]
proof fn lemma_longhands_of_border_inline_color()
    ensures
        property_names(spec_longhands_of(CssProperty::BorderInlineColor)) == documented_longhand_names(CssProperty::BorderInlineColor),
{
    assert(property_names(spec_longhands_of(CssProperty::BorderInlineColor)) =~= documented_longhand_names(CssProperty::BorderInlineColor));
}

#[verifier::rlimit(40)]
proof fn lemma_longhands_of_border_inline_end()
    ensures
        property_names(spec_longhands_of(CssProperty::BorderInlineEnd)) == documented_longhand_names(CssProperty::BorderInlineEnd),
{
    assert(property_names(spec_longhands_of(CssProperty::BorderInlineEnd)) =~= documented_longhand_names(CssProperty::BorderInlineEnd));
}

#[verifier::rlimit(40)]
proof fn lemma_longhands_of_border_inline_end_radius()
    ensures
        property_names(spec_longhands_of(CssProperty::BorderInlineEndRadius)) == documented_longhand_names(CssProperty::BorderInlineEndRadius),
{
    assert(property_names(spec_longhands_of(CssProperty::BorderInlineEndRadius)) =~= documented_longhand_names(CssProperty::BorderInlineEndRadius));
}

#[verifier::rlimit(40)]
proof fn lemma_longhands_of_border_inline_start()
    ensures
        property_names(spec_longhands_of(CssProperty::BorderInlineStart)) == documented_longhand_names(CssProperty::BorderInlineStart),
{
    assert(property_names(spec_longhands_of(CssProperty::BorderInlineStart)) =~= documented_longhand_names(CssProperty::BorderInlineStart));
}

#[verifier::rlimit(40)]
proof fn lemma_longhands_of_border_inline_start_radius()
    ensures
        property_names(spec_longhands_of(CssProperty::BorderInlineStartRadius)) == documented_longhand_names(CssProperty::BorderInlineStartRadius),
{
    assert(property_names(spec_longhands_of(CssProperty::BorderInlineStartRadius)) =~= documented_longhand_names(CssProperty::BorderInlineStartRadius));
}

#[verifier::rlimit(40)]
proof fn lemma_longhands_of_border_inline_style()
    ensures
        property_names(spec_longhands_of(CssProperty::BorderInlineStyle)) == documented_longhand_names(CssProperty::BorderInlineStyle),
{
    assert(property_names(spec_longhands_of(CssProperty::BorderInlineStyle)) =~= documented_longhand_names(CssProperty::BorderInlineStyle));
}

#[verifier::rlimit(40)]
proof fn lemma_longhands_of_border_inline_width()
    ensures
        property_names(spec_longhands_of(CssProperty::BorderInlineWidth)) == documented_longhand_names(CssProperty::BorderInlineWidth),
{
    assert(property_names(spec_longhands_of(CssProperty::BorderInlineWidth)) =~= documented_longhand_names(CssProperty::BorderInlineWidth));
}

#[verifier::rlimit(40)]
proof fn lemma_longhands_of_border_left()
    ensures
        property_names(spec_longhands_of(CssProperty::BorderLeft)) == documented_longhand_names(CssProperty::BorderLeft),
{
    assert(property_names(spec_longhands_of(CssProperty::BorderLeft)) =~= documented_longhand_names(CssProperty::BorderLeft));
}

#[verifier::rlimit(40)]
proof fn lemma_longhands_of_border_left_radius()
    ensures
        property_names(spec_longhands_of(CssProperty::BorderLeftRadius)) == documented_longhand_names(CssProperty::BorderLeftRadius),
{
    assert(property_names(spec_longhands_of(CssProperty::BorderLeftRadius)) =~= documented_longhand_names(CssProperty::BorderLeftRadius));
}

#[verifier::rlimit(40)]
proof fn lemma_longhands_of_border_radius()
    ensures
        property_names(spec_longhands_of(CssProperty::BorderRadius)) == documented_longhand_names(CssProperty::BorderRadius),
{
    assert(property_names(spec_longhands_of(CssProperty::BorderRadius)) =~= documented_longhand_names(CssProperty::BorderRadius));
}

#[verifier::rlimit(40)]
proof fn lemma_longhands_of_border_right()
    ensures
        property_names(spec_longhands_of(CssProperty::BorderRight)) == documented_longhand_names(CssProperty::BorderRight),
{
    assert(property_names(spec_longhands_of(CssProperty::BorderRight)) =~= documented_longhand_names(CssProperty::BorderRight));
}

#[verifier::rlimit(40)]
proof fn lemma_longhands_of_border_right_radius()
    ensures
        property_names(spec_longhands_of(CssProperty::BorderRightRadius)) == documented_longhand_names(CssProperty::BorderRightRadius),
{
    assert(property_names(spec_longhands_of(CssProperty::BorderRightRadius)) =~= documented_longhand_names(CssProperty::BorderRightRadius));
}

#[verifier::rlimit(40)]
proof fn lemma_longhands_of_border_style()
    ensures
        property_names(spec_longhands_of(CssProperty::BorderStyle)) == documented_longhand_names(CssProperty::BorderStyle),
{
    assert(property_names(spec_longhands_of(CssProperty::BorderStyle)) =~= documented_longhand_names(CssProperty::BorderStyle));
}

#[verifier::rlimit(40)]
proof fn lemma_longhands_of_border_top()
    ensures
        property_names(spec_longhands_of(CssProperty::BorderTop)) == documented_longhand_names(CssProperty::BorderTop),
{
    assert(property_names(spec_longhands_of(CssProperty::BorderTop)) =~= documented_longhand_names(CssProperty::BorderTop));
}

#[verifier::rlimit(40)]
proof fn lemma_longhands_of_border_top_radius()
    ensures
        property_names(spec_longhands_of(CssProperty::BorderTopRadius)) == documented_longhand_names(CssProperty::BorderTopRadius),
{
    assert(property_names(spec_longhands_of(CssProperty::BorderTopRadius)) =~= documented_longhand_names(CssProperty::BorderTopRadius));
}

#[verifier::rlimit(40)]
proof fn lemma_longhands_of_border_width()
    ensures
        property_names(spec_longhands_of(CssProperty::BorderWidth)) == documented_longhand_names(CssProperty::BorderWidth),
{
    assert(property_names(spec_longhands_of(CssProperty::BorderWidth)) =~= documented_longhand_names(CssProperty::BorderWidth));
}

#[verifier::rlimit(40)]
proof fn lemma_longhands_of_box_shadow()
    ensures
        property_names(spec_longhands_of(CssProperty::BoxShadow)) == documented_longhand_names(CssProperty::BoxShadow),
{
    assert(property_names(spec_longhands_of(CssProperty::BoxShadow)) =~= documented_longhand_names(CssProperty::BoxShadow));
}

#[verifier::rlimit(40)]
proof fn lemma_longhands_of_caret()
    ensures
        property_names(spec_longhands_of(CssProperty::Caret)) == documented_longhand_names(CssProperty::Caret),
{
    assert(property_names(spec_longhands_of(CssProperty::Caret)) =~= documented_longhand_names(CssProperty::Caret));
}

#[verifier::rlimit(40)]
proof fn lemma_longhands_of_color_adjust()
    ensures
        property_names(spec_longhands_of(CssProperty::ColorAdjust)) == documented_longhand_names(CssProperty::ColorAdjust),
{
    assert(property_names(spec_longhands_of(CssProperty::ColorAdjust)) =~= documented_longhand_names(CssProperty::ColorAdjust));
}

#[verifier::rlimit(40)]
proof fn lemma_longhands_of_column_rule()
    ensures
        property_names(spec_longhands_of(CssProperty::ColumnRule)) == documented_longhand_names(CssProperty::ColumnRule),
{
    assert(property_names(spec_longhands_of(CssProperty::ColumnRule)) =~= documented_longhand_names(CssProperty::ColumnRule));
}

#[verifier::rlimit(40)]
proof fn lemma_longhands_of_column_rule_inset()
    ensures
        property_names(spec_longhands_of(CssProperty::ColumnRuleInset)) == documented_longhand_names(CssProperty::ColumnRuleInset),
{
    assert(property_names(spec_longhands_of(CssProperty::ColumnRuleInset)) =~= documented_longhand_names(CssProperty::ColumnRuleInset));
}

#[verifier::rlimit(40)]
proof fn lemma_longhands_of_column_rule_inset_cap()
    ensures
        property_names(spec_longhands_of(CssProperty::ColumnRuleInsetCap)) == documented_longhand_names(CssProperty::ColumnRuleInsetCap),
{
    assert(property_names(spec_longhands_of(CssProperty::ColumnRuleInsetCap)) =~= documented_longhand_names(CssProperty::ColumnRuleInsetCap));
}

#[verifier::rlimit(40)]
proof fn lemma_longhands_of_column_rule_inset_end()
    ensures
        property_names(spec_longhands_of(CssProperty::ColumnRuleInsetEnd)) == documented_longhand_names(CssProperty::ColumnRuleInsetEnd),
{
    assert(property_names(spec_longhands_of(CssProperty::ColumnRuleInsetEnd)) =~= documented_longhand_names(CssProperty::ColumnRuleInsetEnd));
}

#[verifier::rlimit(40)]
proof fn lemma_longhands_of_column_rule_inset_junction()
    ensures
        property_names(spec_longhands_of(CssProperty::ColumnRuleInsetJunction)) == documented_longhand_names(CssProperty::ColumnRuleInsetJunction),
{
    assert(property_names(spec_longhands_of(CssProperty::ColumnRuleInsetJunction)) =~= documented_longhand_names(CssProperty::ColumnRuleInsetJunction));
}

#[verifier::rlimit(40)]
proof fn lemma_longhands_of_column_rule_inset_start()
    ensures
        property_names(spec_longhands_of(CssProperty::ColumnRuleInsetStart)) == documented_longhand_names(CssProperty::ColumnRuleInsetStart),
{
    assert(property_names(spec_longhands_of(CssProperty::ColumnRuleInsetStart)) =~= documented_longhand_names(CssProperty::ColumnRuleInsetStart));
}

#[verifier::rlimit(40)]
proof fn lemma_longhands_of_columns()
    ensures
        property_names(spec_longhands_of(CssProperty::Columns)) == documented_longhand_names(CssProperty::Columns),
{
    assert(property_names(spec_longhands_of(CssProperty::Columns)) =~= documented_longhand_names(CssProperty::Columns));
}

#[verifier::rlimit(40)]
proof fn lemma_longhands_of_contain_intrinsic_size()
    ensures
        property_names(spec_longhands_of(CssProperty::ContainIntrinsicSize)) == documented_longhand_names(CssProperty::ContainIntrinsicSize),
{
    assert(property_names(spec_longhands_of(CssProperty::ContainIntrinsicSize)) =~= documented_longhand_names(CssProperty::ContainIntrinsicSize));
}

#[verifier::rlimit(40)]
proof fn lemma_longhands_of_container()
    ensures
        property_names(spec_longhands_of(CssProperty::Container)) == documented_longhand_names(CssProperty::Container),
{
    assert(property_names(spec_longhands_of(CssProperty::Container)) =~= documented_longhand_names(CssProperty::Container));
}

#[verifier::rlimit(40)]
proof fn lemma_longhands_of_corner()
    ensures
        property_names(spec_longhands_of(CssProperty::Corner)) == documented_longhand_names(CssProperty::Corner),
{
    assert(property_names(spec_longhands_of(CssProperty::Corner)) =~= documented_longhand_names(CssProperty::Corner));
}

#[verifier::rlimit(40)]
proof fn lemma_longhands_of_corner_block_end()
    ensures
        property_names(spec_longhands_of(CssProperty::CornerBlockEnd)) == documented_longhand_names(CssProperty::CornerBlockEnd),
{
    assert(property_names(spec_longhands_of(CssProperty::CornerBlockEnd)) =~= documented_longhand_names(CssProperty::CornerBlockEnd));
}

#[verifier::rlimit(40)]
proof fn lemma_longhands_of_corner_block_end_shape()
    ensures
        property_names(spec_longhands_of(CssProperty::CornerBlockEndShape)) == documented_longhand_names(CssProperty::CornerBlockEndShape),
{
    assert(property_names(spec_longhands_of(CssProperty::CornerBlockEndShape)) =~= documented_longhand_names(CssProperty::CornerBlockEndShape));
}

#[verifier::rlimit(40)]
proof fn lemma_longhands_of_corner_block_start()
    ensures
        property_names(spec_longhands_of(CssProperty::CornerBlockStart)) == documented_longhand_names(CssProperty::CornerBlockStart),
{
    assert(property_names(spec_longhands_of(CssProperty::CornerBlockStart)) =~= documented_longhand_names(CssProperty::CornerBlockStart));
}

#[verifier::rlimit(40)]
proof fn lemma_longhands_of_corner_block_start_shape()
    ensures
        property_names(spec_longhands_of(CssProperty::CornerBlockStartShape)) == documented_longhand_names(CssProperty::CornerBlockStartShape),
{
    assert(property_names(spec_longhands_of(CssProperty::CornerBlockStartShape)) =~= documented_longhand_names(CssProperty::CornerBlockStartShape));
}

#[verifier::rlimit(40)]
proof fn lemma_longhands_of_corner_bottom()
    ensures
        property_names(spec_longhands_of(CssProperty::CornerBottom)) == documented_longhand_names(CssProperty::CornerBottom),
{
    assert(property_names(spec_longhands_of(CssProperty::CornerBottom)) =~= documented_longhand_names(CssProperty::CornerBottom));
}

#[verifier::rlimit(40)]
proof fn lemma_longhands_of_corner_bottom_left()
    ensures
        property_names(spec_longhands_of(CssProperty::CornerBottomLeft)) == documented_longhand_names(CssProperty::CornerBottomLeft),
{
    assert(property_names(spec_longhands_of(CssProperty::CornerBottomLeft)) =~= documented_longhand_names(CssProperty::CornerBottomLeft));
}

#[verifier::rlimit(40)]
proof fn lemma_longhands_of_corner_bottom_right()
    ensures
        property_names(spec_longhands_of(CssProperty::CornerBottomRight)) == documented_longhand_names(CssProperty::CornerBottomRight),
{
    assert(property_names(spec_longhands_of(CssProperty::CornerBottomRight)) =~= documented_longhand_names(CssProperty::CornerBottomRight));
}

#[verifier::rlimit(40)]
proof fn lemma_longhands_of_corner_bottom_shape()
    ensures
        property_names(spec_longhands_of(CssProperty::CornerBottomShape)) == documented_longhand_names(CssProperty::CornerBottomShape),
{
    assert(property_names(spec_longhands_of(CssProperty::CornerBottomShape)) =~= documented_longhand_names(CssProperty::CornerBottomShape));
}

#[verifier::rlimit(40)]
proof fn lemma_longhands_of_corner_end_end()
    ensures
        property_names(spec_longhands_of(CssProperty::CornerEndEnd)) == documented_longhand_names(CssProperty::CornerEndEnd),
{
    assert(property_names(spec_longhands_of(CssProperty::CornerEndEnd)) =~= documented_longhand_names(CssProperty::CornerEndEnd));
}

#[verifier::rlimit(40)]
proof fn lemma_longhands_of_corner_end_start()
    ensures
        property_names(spec_longhands_of(CssProperty::CornerEndStart)) == documented_longhand_names(CssProperty::CornerEndStart),
{
    assert(property_names(spec_longhands_of(CssProperty::CornerEndStart)) =~= documented_longhand_names(CssProperty::CornerEndStart));
}

#[verifier::rlimit(40)]
proof fn lemma_longhands_of_corner_inline_end()
    ensures
        property_names(spec_longhands_of(CssProperty::CornerInlineEnd)) == documented_longhand_names(CssProperty::CornerInlineEnd),
{
    assert(property_names(spec_longhands_of(CssProperty::CornerInlineEnd)) =~= documented_longhand_names(CssProperty::CornerInlineEnd));
}

#[verifier::rlimit(40)]
proof fn lemma_longhands_of_corner_inline_end_shape()
    ensures
        property_names(spec_longhands_of(CssProperty::CornerInlineEndShape)) == documented_longhand_names(CssProperty::CornerInlineEndShape),
{
    assert(property_names(spec_longhands_of(CssProperty::CornerInlineEndShape)) =~= documented_longhand_names(CssProperty::CornerInlineEndShape));
}

#[verifier::rlimit(40)]
proof fn lemma_longhands_of_corner_inline_start()
    ensures
        property_names(spec_longhands_of(CssProperty::CornerInlineStart)) == documented_longhand_names(CssProperty::CornerInlineStart),
{
    assert(property_names(spec_longhands_of(CssProperty::CornerInlineStart)) =~= documented_longhand_names(CssProperty::CornerInlineStart));
}

#[verifier::rlimit(40)]
proof fn lemma_longhands_of_corner_inline_start_shape()
    ensures
        property_names(spec_longhands_of(CssProperty::CornerInlineStartShape)) == documented_longhand_names(CssProperty::CornerInlineStartShape),
{
    assert(property_names(spec_longhands_of(CssProperty::CornerInlineStartShape)) =~= documented_longhand_names(CssProperty::CornerInlineStartShape));
}

#[verifier::rlimit(40)]
proof fn lemma_longhands_of_corner_left()
    ensures
        property_names(spec_longhands_of(CssProperty::CornerLeft)) == documented_longhand_names(CssProperty::CornerLeft),
{
    assert(property_names(spec_longhands_of(CssProperty::CornerLeft)) =~= documented_longhand_names(CssProperty::CornerLeft));
}

#[verifier::rlimit(40)]
proof fn lemma_longhands_of_corner_left_shape()
    ensures
        property_names(spec_longhands_of(CssProperty::CornerLeftShape)) == documented_longhand_names(CssProperty::CornerLeftShape),
{
    assert(property_names(spec_longhands_of(CssProperty::CornerLeftShape)) =~= documented_longhand_names(CssProperty::CornerLeftShape));
}

#[verifier::rlimit(40)]
proof fn lemma_longhands_of_corner_right()
    ensures
        property_names(spec_longhands_of(CssProperty::CornerRight)) == documented_longhand_names(CssProperty::CornerRight),
{
    assert(property_names(spec_longhands_of(CssProperty::CornerRight)) =~= documented_longhand_names(CssProperty::CornerRight));
}

#[verifier::rlimit(40)]
proof fn lemma_longhands_of_corner_right_shape()
    ensures
        property_names(spec_longhands_of(CssProperty::CornerRightShape)) == documented_longhand_names(CssProperty::CornerRightShape),
{
    assert(property_names(spec_longhands_of(CssProperty::CornerRightShape)) =~= documented_longhand_names(CssProperty::CornerRightShape));
}

#[verifier::rlimit(40)]
proof fn lemma_longhands_of_corner_shape()
    ensures
        property_names(spec_longhands_of(CssProperty::CornerShape)) == documented_longhand_names(CssProperty::CornerShape),
{
    assert(property_names(spec_longhands_of(CssProperty::CornerShape)) =~= documented_longhand_names(CssProperty::CornerShape));
}

#[verifier::rlimit(40)]
proof fn lemma_longhands_of_corner_start_end()
    ensures
        property_names(spec_longhands_of(CssProperty::CornerStartEnd)) == documented_longhand_names(CssProperty::CornerStartEnd),
{
    assert(property_names(spec_longhands_of(CssProperty::CornerStartEnd)) =~= documented_longhand_names(CssProperty::CornerStartEnd));
}

#[verifier::rlimit(40)]
proof fn lemma_longhands_of_corner_start_start()
    ensures
        property_names(spec_longhands_of(CssProperty::CornerStartStart)) == documented_longhand_names(CssProperty::CornerStartStart),
{
    assert(property_names(spec_longhands_of(CssProperty::CornerStartStart)) =~= documented_longhand_names(CssProperty::CornerStartStart));
}

#[verifier::rlimit(40)]
proof fn lemma_longhands_of_corner_top()
    ensures
        property_names(spec_longhands_of(CssProperty::CornerTop)) == documented_longhand_names(CssProperty::CornerTop),
{
    assert(property_names(spec_longhands_of(CssProperty::CornerTop)) =~= documented_longhand_names(CssProperty::CornerTop));
}

#[verifier::rlimit(40)]
proof fn lemma_longhands_of_corner_top_left()
    ensures
        property_names(spec_longhands_of(CssProperty::CornerTopLeft)) == documented_longhand_names(CssProperty::CornerTopLeft),
{
    assert(property_names(spec_longhands_of(CssProperty::CornerTopLeft)) =~= documented_longhand_names(CssProperty::CornerTopLeft));
}

#[verifier::rlimit(40)]
proof fn lemma_longhands_of_corner_top_right()
    ensures
        property_names(spec_longhands_of(CssProperty::CornerTopRight)) == documented_longhand_names(CssProperty::CornerTopRight),
{
    assert(property_names(spec_longhands_of(CssProperty::CornerTopRight)) =~= documented_longhand_names(CssProperty::CornerTopRight));
}

#[verifier::rlimit(40)]
proof fn lemma_longhands_of_corner_top_shape()
    ensures
        property_names(spec_longhands_of(CssProperty::CornerTopShape)) == documented_longhand_names(CssProperty::CornerTopShape),
{
    assert(property_names(spec_longhands_of(CssProperty::CornerTopShape)) =~= documented_longhand_names(CssProperty::CornerTopShape));
}

#[verifier::rlimit(40)]
proof fn lemma_longhands_of_cue()
    ensures
        property_names(spec_longhands_of(CssProperty::Cue)) == documented_longhand_names(CssProperty::Cue),
{
    assert(property_names(spec_longhands_of(CssProperty::Cue)) =~= documented_longhand_names(CssProperty::Cue));
}

#[verifier::rlimit(40)]
proof fn lemma_longhands_of_flex()
    ensures
        property_names(spec_longhands_of(CssProperty::Flex)) == documented_longhand_names(CssProperty::Flex),
{
    assert(property_names(spec_longhands_of(CssProperty::Flex)) =~= documented_longhand_names(CssProperty::Flex));
}

#[verifier::rlimit(40)]
proof fn lemma_longhands_of_flex_flow()
    ensures
        property_names(spec_longhands_of(CssProperty::FlexFlow)) == documented_longhand_names(CssProperty::FlexFlow),
{
    assert(property_names(spec_longhands_of(CssProperty::FlexFlow)) =~= documented_longhand_names(CssProperty::FlexFlow));
}

#[verifier::rlimit(40)]
proof fn lemma_longhands_of_font()
    ensures
        property_names(spec_longhands_of(CssProperty::Font)) == documented_longhand_names(CssProperty::Font),
{
    assert(property_names(spec_longhands_of(CssProperty::Font)) =~= documented_longhand_names(CssProperty::Font));
}

#[verifier::rlimit(40)]
proof fn lemma_longhands_of_font_synthesis()
    ensures
        property_names(spec_longhands_of(CssProperty::FontSynthesis)) == documented_longhand_names(CssProperty::FontSynthesis),
{
    assert(property_names(spec_longhands_of(CssProperty::FontSynthesis)) =~= documented_longhand_names(CssProperty::FontSynthesis));
}

#[verifier::rlimit(40)]
proof fn lemma_longhands_of_font_variant()
    ensures
        property_names(spec_longhands_of(CssProperty::FontVariant)) == documented_longhand_names(CssProperty::FontVariant),
{
    assert(property_names(spec_longhands_of(CssProperty::FontVariant)) =~= documented_longhand_names(CssProperty::FontVariant));
}

#[verifier::rlimit(40)]
proof fn lemma_longhands_of_gap()
    ensures
        property_names(spec_longhands_of(CssProperty::Gap)) == documented_longhand_names(CssProperty::Gap),
{
    assert(property_names(spec_longhands_of(CssProperty::Gap)) =~= documented_longhand_names(CssProperty::Gap));
}

#[verifier::rlimit(40)]
proof fn lemma_longhands_of_grid()
    ensures
        property_names(spec_longhands_of(CssProperty::Grid)) == documented_longhand_names(CssProperty::Grid),
{
    assert(property_names(spec_longhands_of(CssProperty::Grid)) =~= documented_longhand_names(CssProperty::Grid));
}

#[verifier::rlimit(40)]
proof fn lemma_longhands_of_grid_area()
    ensures
        property_names(spec_longhands_of(CssProperty::GridArea)) == documented_longhand_names(CssProperty::GridArea),
{
    assert(property_names(spec_longhands_of(CssProperty::GridArea)) =~= documented_longhand_names(CssProperty::GridArea));
}

#[verifier::rlimit(40)]
proof fn lemma_longhands_of_grid_column()
    ensures
        property_names(spec_longhands_of(CssProperty::GridColumn)) == documented_longhand_names(CssProperty::GridColumn),
{
    assert(property_names(spec_longhands_of(CssProperty::GridColumn)) =~= documented_longhand_names(CssProperty::GridColumn));
}

#[verifier::rlimit(40)]
proof fn lemma_longhands_of_grid_gap()
    ensures
        property_names(spec_longhands_of(CssProperty::GridGap)) == documented_longhand_names(CssProperty::GridGap),
{
    assert(property_names(spec_longhands_of(CssProperty::GridGap)) =~= documented_longhand_names(CssProperty::GridGap));
}

#[verifier::rlimit(40)]
proof fn lemma_longhands_of_grid_row()
    ensures
        property_names(spec_longhands_of(CssProperty::GridRow)) == documented_longhand_names(CssProperty::GridRow),
{
    assert(property_names(spec_longhands_of(CssProperty::GridRow)) =~= documented_longhand_names(CssProperty::GridRow));
}

#[verifier::rlimit(40)]
proof fn lemma_longhands_of_grid_template()
    ensures
        property_names(spec_longhands_of(CssProperty::GridTemplate)) == documented_longhand_names(CssProperty::GridTemplate),
{
    assert(property_names(spec_longhands_of(CssProperty::GridTemplate)) =~= documented_longhand_names(CssProperty::GridTemplate));
}

#[verifier::rlimit(40)]
proof fn lemma_longhands_of_inset()
    ensures
        property_names(spec_longhands_of(CssProperty::Inset)) == documented_longhand_names(CssProperty::Inset),
{
    assert(property_names(spec_longhands_of(CssProperty::Inset)) =~= documented_longhand_names(CssProperty::Inset));
}

#[verifier::rlimit(40)]
proof fn lemma_longhands_of_inset_block()
    ensures
        property_names(spec_longhands_of(CssProperty::InsetBlock)) == documented_longhand_names(CssProperty::InsetBlock),
{
    assert(property_names(spec_longhands_of(CssProperty::InsetBlock)) =~= documented_longhand_names(CssProperty::InsetBlock));
}

#[verifier::rlimit(40)]
proof fn lemma_longhands_of_inset_inline()
    ensures
        property_names(spec_longhands_of(CssProperty::InsetInline)) == documented_longhand_names(CssProperty::InsetInline),
{
    assert(property_names(spec_longhands_of(CssProperty::InsetInline)) =~= documented_longhand_names(CssProperty::InsetInline));
}

#[verifier::rlimit(40)]
proof fn lemma_longhands_of_interest_delay()
    ensures
        property_names(spec_longhands_of(CssProperty::InterestDelay)) == documented_longhand_names(CssProperty::InterestDelay),
{
    assert(property_names(spec_longhands_of(CssProperty::InterestDelay)) =~= documented_longhand_names(CssProperty::InterestDelay));
}

#[verifier::rlimit(40)]
proof fn lemma_longhands_of_line_clamp()
    ensures
        property_names(spec_longhands_of(CssProperty::LineClamp)) == documented_longhand_names(CssProperty::LineClamp),
{
    assert(property_names(spec_longhands_of(CssProperty::LineClamp)) =~= documented_longhand_names(CssProperty::LineClamp));
}

#[verifier::rlimit(40)]
proof fn lemma_longhands_of_list_style()
    ensures
        property_names(spec_longhands_of(CssProperty::ListStyle)) == documented_longhand_names(CssProperty::ListStyle),
{
    assert(property_names(spec_longhands_of(CssProperty::ListStyle)) =~= documented_longhand_names(CssProperty::ListStyle));
}

#[verifier::rlimit(40)]
proof fn lemma_longhands_of_margin()
    ensures
        property_names(spec_longhands_of(CssProperty::Margin)) == documented_longhand_names(CssProperty::Margin),
{
    assert(property_names(spec_longhands_of(CssProperty::Margin)) =~= documented_longhand_names(CssProperty::Margin));
}

#[verifier::rlimit(40)]
proof fn lemma_longhands_of_margin_block()
    ensures
        property_names(spec_longhands_of(CssProperty::MarginBlock)) == documented_longhand_names(CssProperty::MarginBlock),
{
    assert(property_names(spec_longhands_of(CssProperty::MarginBlock)) =~= documented_longhand_names(CssProperty::MarginBlock));
}

#[verifier::rlimit(40)]
proof fn lemma_longhands_of_margin_inline()
    ensures
        property_names(spec_longhands_of(CssProperty::MarginInline)) == documented_longhand_names(CssProperty::MarginInline),
{
    assert(property_names(spec_longhands_of(CssProperty::MarginInline)) =~= documented_longhand_names(CssProperty::MarginInline));
}

#[verifier::rlimit(40)]
proof fn lemma_longhands_of_marker()
    ensures
        property_names(spec_longhands_of(CssProperty::Marker)) == documented_longhand_names(CssProperty::Marker),
{
    assert(property_names(spec_longhands_of(CssProperty::Marker)) =~= documented_longhand_names(CssProperty::Marker));
}

#[verifier::rlimit(40)]
proof fn lemma_longhands_of_mask()
    ensures
        property_names(spec_longhands_of(CssProperty::Mask)) == documented_longhand_names(CssProperty::Mask),
{
    assert(property_names(spec_longhands_of(CssProperty::Mask)) =~= documented_longhand_names(CssProperty::Mask));
}

#[verifier::rlimit(40)]
proof fn lemma_longhands_of_mask_border()
    ensures
        property_names(spec_longhands_of(CssProperty::MaskBorder)) == documented_longhand_names(CssProperty::MaskBorder),
{
    assert(property_names(spec_longhands_of(CssProperty::MaskBorder)) =~= documented_longhand_names(CssProperty::MaskBorder));
}

#[verifier::rlimit(40)]
proof fn lemma_longhands_of_offset()
    ensures
        property_names(spec_longhands_of(CssProperty::Offset)) == documented_longhand_names(CssProperty::Offset),
{
    assert(property_names(spec_longhands_of(CssProperty::Offset)) =~= documented_longhand_names(CssProperty::Offset));
}

#[verifier::rlimit(40)]
proof fn lemma_longhands_of_outline()
    ensures
        property_names(spec_longhands_of(CssProperty::Outline)) == documented_longhand_names(CssProperty::Outline),
{
    assert(property_names(spec_longhands_of(CssProperty::Outline)) =~= documented_longhand_names(CssProperty::Outline));
}

#[verifier::rlimit(40)]
proof fn lemma_longhands_of_overflow()
    ensures
        property_names(spec_longhands_of(CssProperty::Overflow)) == documented_longhand_names(CssProperty::Overflow),
{
    assert(property_names(spec_longhands_of(CssProperty::Overflow)) =~= documented_longhand_names(CssProperty::Overflow));
}

#[verifier::rlimit(40)]
proof fn lemma_longhands_of_overflow_clip_margin()
    ensures
        property_names(spec_longhands_of(CssProperty::OverflowClipMargin)) == documented_longhand_names(CssProperty::OverflowClipMargin),
{
    assert(property_names(spec_longhands_of(CssProperty::OverflowClipMargin)) =~= documented_longhand_names(CssProperty::OverflowClipMargin));
}

#[verifier::rlimit(40)]
proof fn lemma_longhands_of_overflow_clip_margin_block()
    ensures
        property_names(spec_longhands_of(CssProperty::OverflowClipMarginBlock)) == documented_longhand_names(CssProperty::OverflowClipMarginBlock),
{
    assert(property_names(spec_longhands_of(CssProperty::OverflowClipMarginBlock)) =~= documented_longhand_names(CssProperty::OverflowClipMarginBlock));
}

#[verifier::rlimit(40)]
proof fn lemma_longhands_of_overflow_clip_margin_inline()
    ensures
        property_names(spec_longhands_of(CssProperty::OverflowClipMarginInline)) == documented_longhand_names(CssProperty::OverflowClipMarginInline),
{
    assert(property_names(spec_longhands_of(CssProperty::OverflowClipMarginInline)) =~= documented_longhand_names(CssProperty::OverflowClipMarginInline));
}

#[verifier::rlimit(40)]
proof fn lemma_longhands_of_overscroll_behavior()
    ensures
        property_names(spec_longhands_of(CssProperty::OverscrollBehavior)) == documented_longhand_names(CssProperty::OverscrollBehavior),
{
    assert(property_names(spec_longhands_of(CssProperty::OverscrollBehavior)) =~= documented_longhand_names(CssProperty::OverscrollBehavior));
}

#[verifier::rlimit(40)]
proof fn lemma_longhands_of_padding()
    ensures
        property_names(spec_longhands_of(CssProperty::Padding)) == documented_longhand_names(CssProperty::Padding),
{
    assert(property_names(spec_longhands_of(CssProperty::Padding)) =~= documented_longhand_names(CssProperty::Padding));
}

#[verifier::rlimit(40)]
proof fn lemma_longhands_of_padding_block()
    ensures
        property_names(spec_longhands_of(CssProperty::PaddingBlock)) == documented_longhand_names(CssProperty::PaddingBlock),
{
    assert(property_names(spec_longhands_of(CssProperty::PaddingBlock)) =~= documented_longhand_names(CssProperty::PaddingBlock));
}

#[verifier::rlimit(40)]
proof fn lemma_longhands_of_padding_inline()
    ensures
        property_names(spec_longhands_of(CssProperty::PaddingInline)) == documented_longhand_names(CssProperty::PaddingInline),
{
    assert(property_names(spec_longhands_of(CssProperty::PaddingInline)) =~= documented_longhand_names(CssProperty::PaddingInline));
}

#[verifier::rlimit(40)]
proof fn lemma_longhands_of_pause()
    ensures
        property_names(spec_longhands_of(CssProperty::Pause)) == documented_longhand_names(CssProperty::Pause),
{
    assert(property_names(spec_longhands_of(CssProperty::Pause)) =~= documented_longhand_names(CssProperty::Pause));
}

#[verifier::rlimit(40)]
proof fn lemma_longhands_of_place_content()
    ensures
        property_names(spec_longhands_of(CssProperty::PlaceContent)) == documented_longhand_names(CssProperty::PlaceContent),
{
    assert(property_names(spec_longhands_of(CssProperty::PlaceContent)) =~= documented_longhand_names(CssProperty::PlaceContent));
}

#[verifier::rlimit(40)]
proof fn lemma_longhands_of_place_items()
    ensures
        property_names(spec_longhands_of(CssProperty::PlaceItems)) == documented_longhand_names(CssProperty::PlaceItems),
{
    assert(property_names(spec_longhands_of(CssProperty::PlaceItems)) =~= documented_longhand_names(CssProperty::PlaceItems));
}

#[verifier::rlimit(40)]
proof fn lemma_longhands_of_place_self()
    ensures
        property_names(spec_longhands_of(CssProperty::PlaceSelf)) == documented_longhand_names(CssProperty::PlaceSelf),
{
    assert(property_names(spec_longhands_of(CssProperty::PlaceSelf)) =~= documented_longhand_names(CssProperty::PlaceSelf));
}

#[verifier::rlimit(40)]
proof fn lemma_longhands_of_pointer_timeline()
    ensures
        property_names(spec_longhands_of(CssProperty::PointerTimeline)) == documented_longhand_names(CssProperty::PointerTimeline),
{
    assert(property_names(spec_longhands_of(CssProperty::PointerTimeline)) =~= documented_longhand_names(CssProperty::PointerTimeline));
}

#[verifier::rlimit(40)]
proof fn lemma_longhands_of_position_try()
    ensures
        property_names(spec_longhands_of(CssProperty::PositionTry)) == documented_longhand_names(CssProperty::PositionTry),
{
    assert(property_names(spec_longhands_of(CssProperty::PositionTry)) =~= documented_longhand_names(CssProperty::PositionTry));
}

#[verifier::rlimit(40)]
proof fn lemma_longhands_of_rest()
    ensures
        property_names(spec_longhands_of(CssProperty::Rest)) == documented_longhand_names(CssProperty::Rest),
{
    assert(property_names(spec_longhands_of(CssProperty::Rest)) =~= documented_longhand_names(CssProperty::Rest));
}

#[verifier::rlimit(40)]
proof fn lemma_longhands_of_row_rule()
    ensures
        property_names(spec_longhands_of(CssProperty::RowRule)) == documented_longhand_names(CssProperty::RowRule),
{
    assert(property_names(spec_longhands_of(CssProperty::RowRule)) =~= documented_longhand_names(CssProperty::RowRule));
}

#[verifier::rlimit(40)]
proof fn lemma_longhands_of_row_rule_inset()
    ensures
        property_names(spec_longhands_of(CssProperty::RowRuleInset)) == documented_longhand_names(CssProperty::RowRuleInset),
{
    assert(property_names(spec_longhands_of(CssProperty::RowRuleInset)) =~= documented_longhand_names(CssProperty::RowRuleInset));
}

#[verifier::rlimit(40)]
proof fn lemma_longhands_of_row_rule_inset_cap()
    ensures
        property_names(spec_longhands_of(CssProperty::RowRuleInsetCap)) == documented_longhand_names(CssProperty::RowRuleInsetCap),
{
    assert(property_names(spec_longhands_of(CssProperty::RowRuleInsetCap)) =~= documented_longhand_names(CssProperty::RowRuleInsetCap));
}

#[verifier::rlimit(40)]
proof fn lemma_longhands_of_row_rule_inset_end()
    ensures
        property_names(spec_longhands_of(CssProperty::RowRuleInsetEnd)) == documented_longhand_names(CssProperty::RowRuleInsetEnd),
{
    assert(property_names(spec_longhands_of(CssProperty::RowRuleInsetEnd)) =~= documented_longhand_names(CssProperty::RowRuleInsetEnd));
}

#[verifier::rlimit(40)]
proof fn lemma_longhands_of_row_rule_inset_junction()
    ensures
        property_names(spec_longhands_of(CssProperty::RowRuleInsetJunction)) == documented_longhand_names(CssProperty::RowRuleInsetJunction),
{
    assert(property_names(spec_longhands_of(CssProperty::RowRuleInsetJunction)) =~= documented_longhand_names(CssProperty::RowRuleInsetJunction));
}

#[verifier::rlimit(40)]
proof fn lemma_longhands_of_row_rule_inset_start()
    ensures
        property_names(spec_longhands_of(CssProperty::RowRuleInsetStart)) == documented_longhand_names(CssProperty::RowRuleInsetStart),
{
    assert(property_names(spec_longhands_of(CssProperty::RowRuleInsetStart)) =~= documented_longhand_names(CssProperty::RowRuleInsetStart));
}

#[verifier::rlimit(40)]
proof fn lemma_longhands_of_rule()
    ensures
        property_names(spec_longhands_of(CssProperty::Rule)) == documented_longhand_names(CssProperty::Rule),
{
    assert(property_names(spec_longhands_of(CssProperty::Rule)) =~= documented_longhand_names(CssProperty::Rule));
}

#[verifier::rlimit(40)]
proof fn lemma_longhands_of_rule_break()
    ensures
        property_names(spec_longhands_of(CssProperty::RuleBreak)) == documented_longhand_names(CssProperty::RuleBreak),
{
    assert(property_names(spec_longhands_of(CssProperty::RuleBreak)) =~= documented_longhand_names(CssProperty::RuleBreak));
}

#[verifier::rlimit(40)]
proof fn lemma_longhands_of_rule_color()
    ensures
        property_names(spec_longhands_of(CssProperty::RuleColor)) == documented_longhand_names(CssProperty::RuleColor),
{
    assert(property_names(spec_longhands_of(CssProperty::RuleColor)) =~= documented_longhand_names(CssProperty::RuleColor));
}

#[verifier::rlimit(40)]
proof fn lemma_longhands_of_rule_inset()
    ensures
        property_names(spec_longhands_of(CssProperty::RuleInset)) == documented_longhand_names(CssProperty::RuleInset),
{
    assert(property_names(spec_longhands_of(CssProperty::RuleInset)) =~= documented_longhand_names(CssProperty::RuleInset));
}

#[verifier::rlimit(40)]
proof fn lemma_longhands_of_rule_inset_cap()
    ensures
        property_names(spec_longhands_of(CssProperty::RuleInsetCap)) == documented_longhand_names(CssProperty::RuleInsetCap),
{
    assert(property_names(spec_longhands_of(CssProperty::RuleInsetCap)) =~= documented_longhand_names(CssProperty::RuleInsetCap));
}

#[verifier::rlimit(40)]
proof fn lemma_longhands_of_rule_inset_end()
    ensures
        property_names(spec_longhands_of(CssProperty::RuleInsetEnd)) == documented_longhand_names(CssProperty::RuleInsetEnd),
{
    assert(property_names(spec_longhands_of(CssProperty::RuleInsetEnd)) =~= documented_longhand_names(CssProperty::RuleInsetEnd));
}

#[verifier::rlimit(40)]
proof fn lemma_longhands_of_rule_inset_junction()
    ensures
        property_names(spec_longhands_of(CssProperty::RuleInsetJunction)) == documented_longhand_names(CssProperty::RuleInsetJunction),
{
    assert(property_names(spec_longhands_of(CssProperty::RuleInsetJunction)) =~= documented_longhand_names(CssProperty::RuleInsetJunction));
}

#[verifier::rlimit(40)]
proof fn lemma_longhands_of_rule_inset_start()
    ensures
        property_names(spec_longhands_of(CssProperty::RuleInsetStart)) == documented_longhand_names(CssProperty::RuleInsetStart),
{
    assert(property_names(spec_longhands_of(CssProperty::RuleInsetStart)) =~= documented_longhand_names(CssProperty::RuleInsetStart));
}

#[verifier::rlimit(40)]
proof fn lemma_longhands_of_rule_style()
    ensures
        property_names(spec_longhands_of(CssProperty::RuleStyle)) == documented_longhand_names(CssProperty::RuleStyle),
{
    assert(property_names(spec_longhands_of(CssProperty::RuleStyle)) =~= documented_longhand_names(CssProperty::RuleStyle));
}

#[verifier::rlimit(40)]
proof fn lemma_longhands_of_rule_visibility_items()
    ensures
        property_names(spec_longhands_of(CssProperty::RuleVisibilityItems)) == documented_longhand_names(CssProperty::RuleVisibilityItems),
{
    assert(property_names(spec_longhands_of(CssProperty::RuleVisibilityItems)) =~= documented_longhand_names(CssProperty::RuleVisibilityItems));
}

#[verifier::rlimit(40)]
proof fn lemma_longhands_of_rule_width()
    ensures
        property_names(spec_longhands_of(CssProperty::RuleWidth)) == documented_longhand_names(CssProperty::RuleWidth),
{
    assert(property_names(spec_longhands_of(CssProperty::RuleWidth)) =~= documented_longhand_names(CssProperty::RuleWidth));
}

#[verifier::rlimit(40)]
proof fn lemma_longhands_of_scroll_margin()
    ensures
        property_names(spec_longhands_of(CssProperty::ScrollMargin)) == documented_longhand_names(CssProperty::ScrollMargin),
{
    assert(property_names(spec_longhands_of(CssProperty::ScrollMargin)) =~= documented_longhand_names(CssProperty::ScrollMargin));
}

#[verifier::rlimit(40)]
proof fn lemma_longhands_of_scroll_margin_block()
    ensures
        property_names(spec_longhands_of(CssProperty::ScrollMarginBlock)) == documented_longhand_names(CssProperty::ScrollMarginBlock),
{
    assert(property_names(spec_longhands_of(CssProperty::ScrollMarginBlock)) =~= documented_longhand_names(CssProperty::ScrollMarginBlock));
}

#[verifier::rlimit(40)]
proof fn lemma_longhands_of_scroll_margin_inline()
    ensures
        property_names(spec_longhands_of(CssProperty::ScrollMarginInline)) == documented_longhand_names(CssProperty::ScrollMarginInline),
{
    assert(property_names(spec_longhands_of(CssProperty::ScrollMarginInline)) =~= documented_longhand_names(CssProperty::ScrollMarginInline));
}

#[verifier::rlimit(40)]
proof fn lemma_longhands_of_scroll_padding()
    ensures
        property_names(spec_longhands_of(CssProperty::ScrollPadding)) == documented_longhand_names(CssProperty::ScrollPadding),
{
    assert(property_names(spec_longhands_of(CssProperty::ScrollPadding)) =~= documented_longhand_names(CssProperty::ScrollPadding));
}

#[verifier::rlimit(40)]
proof fn lemma_longhands_of_scroll_padding_block()
    ensures
        property_names(spec_longhands_of(CssProperty::ScrollPaddingBlock)) == documented_longhand_names(CssProperty::ScrollPaddingBlock),
{
    assert(property_names(spec_longhands_of(CssProperty::ScrollPaddingBlock)) =~= documented_longhand_names(CssProperty::ScrollPaddingBlock));
}

#[verifier::rlimit(40)]
proof fn lemma_longhands_of_scroll_padding_inline()
    ensures
        property_names(spec_longhands_of(CssProperty::ScrollPaddingInline)) == documented_longhand_names(CssProperty::ScrollPaddingInline),
{
    assert(property_names(spec_longhands_of(CssProperty::ScrollPaddingInline)) =~= documented_longhand_names(CssProperty::ScrollPaddingInline));
}

#[verifier::rlimit(40)]
proof fn lemma_longhands_of_scroll_timeline()
    ensures
        property_names(spec_longhands_of(CssProperty::ScrollTimeline)) == documented_longhand_names(CssProperty::ScrollTimeline),
{
    assert(property_names(spec_longhands_of(CssProperty::ScrollTimeline)) =~= documented_longhand_names(CssProperty::ScrollTimeline));
}

#[verifier::rlimit(40)]
proof fn lemma_longhands_of_text_align()
    ensures
        property_names(spec_longhands_of(CssProperty::TextAlign)) == documented_longhand_names(CssProperty::TextAlign),
{
    assert(property_names(spec_longhands_of(CssProperty::TextAlign)) =~= documented_longhand_names(CssProperty::TextAlign));
}

#[verifier::rlimit(40)]
proof fn lemma_longhands_of_text_decoration()
    ensures
        property_names(spec_longhands_of(CssProperty::TextDecoration)) == documented_longhand_names(CssProperty::TextDecoration),
{
    assert(property_names(spec_longhands_of(CssProperty::TextDecoration)) =~= documented_longhand_names(CssProperty::TextDecoration));
}

#[verifier::rlimit(40)]
proof fn lemma_longhands_of_text_decoration_skip()
    ensures
        property_names(spec_longhands_of(CssProperty::TextDecorationSkip)) == documented_longhand_names(CssProperty::TextDecorationSkip),
{
    assert(property_names(spec_longhands_of(CssProperty::TextDecorationSkip)) =~= documented_longhand_names(CssProperty::TextDecorationSkip));
}

#[verifier::rlimit(40)]
proof fn lemma_longhands_of_text_emphasis()
    ensures
        property_names(spec_longhands_of(CssProperty::TextEmphasis)) == documented_longhand_names(CssProperty::TextEmphasis),
{
    assert(property_names(spec_longhands_of(CssProperty::TextEmphasis)) =~= documented_longhand_names(CssProperty::TextEmphasis));
}

#[verifier::rlimit(40)]
proof fn lemma_longhands_of_text_spacing()
    ensures
        property_names(spec_longhands_of(CssProperty::TextSpacing)) == documented_longhand_names(CssProperty::TextSpacing),
{
    assert(property_names(spec_longhands_of(CssProperty::TextSpacing)) =~= documented_longhand_names(CssProperty::TextSpacing));
}

#[verifier::rlimit(40)]
proof fn lemma_longhands_of_text_wrap()
    ensures
        property_names(spec_longhands_of(CssProperty::TextWrap)) == documented_longhand_names(CssProperty::TextWrap),
{
    assert(property_names(spec_longhands_of(CssProperty::TextWrap)) =~= documented_longhand_names(CssProperty::TextWrap));
}

#[verifier::rlimit(40)]
proof fn lemma_longhands_of_timeline_trigger()
    ensures
        property_names(spec_longhands_of(CssProperty::TimelineTrigger)) == documented_longhand_names(CssProperty::TimelineTrigger),
{
    assert(property_names(spec_longhands_of(CssProperty::TimelineTrigger)) =~= documented_longhand_names(CssProperty::TimelineTrigger));
}

#[verifier::rlimit(40)]
proof fn lemma_longhands_of_timeline_trigger_activation_range()
    ensures
        property_names(spec_longhands_of(CssProperty::TimelineTriggerActivationRange)) == documented_longhand_names(CssProperty::TimelineTriggerActivationRange),
{
    assert(property_names(spec_longhands_of(CssProperty::TimelineTriggerActivationRange)) =~= documented_longhand_names(CssProperty::TimelineTriggerActivationRange));
}

#[verifier::rlimit(40)]
proof fn lemma_longhands_of_timeline_trigger_active_range()
    ensures
        property_names(spec_longhands_of(CssProperty::TimelineTriggerActiveRange)) == documented_longhand_names(CssProperty::TimelineTriggerActiveRange),
{
    assert(property_names(spec_longhands_of(CssProperty::TimelineTriggerActiveRange)) =~= documented_longhand_names(CssProperty::TimelineTriggerActiveRange));
}

#[verifier::rlimit(40)]
proof fn lemma_longhands_of_transition()
    ensures
        property_names(spec_longhands_of(CssProperty::Transition)) == documented_longhand_names(CssProperty::Transition),
{
    assert(property_names(spec_longhands_of(CssProperty::Transition)) =~= documented_longhand_names(CssProperty::Transition));
}

#[verifier::rlimit(40)]
proof fn lemma_longhands_of_vertical_align()
    ensures
        property_names(spec_longhands_of(CssProperty::VerticalAlign)) == documented_longhand_names(CssProperty::VerticalAlign),
{
    assert(property_names(spec_longhands_of(CssProperty::VerticalAlign)) =~= documented_longhand_names(CssProperty::VerticalAlign));
}

#[verifier::rlimit(40)]
proof fn lemma_longhands_of_view_timeline()
    ensures
        property_names(spec_longhands_of(CssProperty::ViewTimeline)) == documented_longhand_names(CssProperty::ViewTimeline),
{
    assert(property_names(spec_longhands_of(CssProperty::ViewTimeline)) =~= documented_longhand_names(CssProperty::ViewTimeline));
}

#[verifier::rlimit(40)]
proof fn lemma_longhands_of_white_space()
    ensures
        property_names(spec_longhands_of(CssProperty::WhiteSpace)) == documented_longhand_names(CssProperty::WhiteSpace),
{
    assert(property_names(spec_longhands_of(CssProperty::WhiteSpace)) =~= documented_longhand_names(CssProperty::WhiteSpace));
}

} // verus!
