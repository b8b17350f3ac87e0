//! CSS properties and their names, value syntax, initial values and inheritance.
use vstd::prelude::*;

use crate::text::{chars_of, compare_char_seqs, is_property_name_char, lemma_name_chars_from, lemma_name_less_asymmetric, lemma_name_less_transitive, name_less, NameOrder};
use self::lookup_order::{lemma_lookup_name_chars, lemma_lookup_sorted, lookup_name, lookup_name_at, LOOKUP_LEN};

pub mod documented;
pub mod lookup_order;

verus! {

#[derive(Debug, PartialEq, Eq, Hash)]
pub enum CssProperty {
    ///
    /// href: https://compat.spec.whatwg.org/#propdef--webkit-align-content
    /// syntax: normal | <baseline-position> | <content-distribution> | <overflow-position>? <content-position>
    /// legacy_alias_of: align-content
    WebkitAlignContent,
    ///
    /// href: https://compat.spec.whatwg.org/#propdef--webkit-align-items
    /// syntax: normal | stretch | <baseline-position> | <overflow-position>? <self-position>
    /// legacy_alias_of: align-items
    WebkitAlignItems,
    ///
    /// href: https://compat.spec.whatwg.org/#propdef--webkit-align-self
    /// syntax: auto | <overflow-position>? [ normal | <self-position> ]| stretch | <baseline-position>
    /// legacy_alias_of: align-self
    WebkitAlignSelf,
    ///
    /// href: https://compat.spec.whatwg.org/#propdef--webkit-animation
    /// syntax: <single-animation>#
    /// longhands: [animation-name, animation-duration, animation-timing-function, animation-delay,
    /// animation-iteration-count, animation-direction, animation-fill-mode, animation-play-state, animation-timeline]
    /// legacy_alias_of: animation
    WebkitAnimation,
    ///
    /// href: https://compat.spec.whatwg.org/#propdef--webkit-animation-delay
    /// syntax: <time>#
    /// legacy_alias_of: animation-delay
    WebkitAnimationDelay,
    ///
    /// href: https://compat.spec.whatwg.org/#propdef--webkit-animation-direction
    /// syntax: <single-animation-direction>#
    /// legacy_alias_of: animation-direction
    WebkitAnimationDirection,
    ///
    /// href: https://compat.spec.whatwg.org/#propdef--webkit-animation-duration
    /// syntax: <time [0s,∞]>#
    /// legacy_alias_of: animation-duration
    WebkitAnimationDuration,
    ///
    /// href: https://compat.spec.whatwg.org/#propdef--webkit-animation-fill-mode
    /// syntax: <single-animation-fill-mode>#
    /// legacy_alias_of: animation-fill-mode
    WebkitAnimationFillMode,
    ///
    /// href: https://compat.spec.whatwg.org/#propdef--webkit-animation-iteration-count
    /// syntax: <single-animation-iteration-count>#
    /// legacy_alias_of: animation-iteration-count
    WebkitAnimationIterationCount,
    ///
    /// href: https://compat.spec.whatwg.org/#propdef--webkit-animation-name
    /// syntax: [ none | <keyframes-name> ]#
    /// legacy_alias_of: animation-name
    WebkitAnimationName,
    ///
    /// href: https://compat.spec.whatwg.org/#propdef--webkit-animation-play-state
    /// syntax: <single-animation-play-state>#
    /// legacy_alias_of: animation-play-state
    WebkitAnimationPlayState,
    ///
    /// href: https://compat.spec.whatwg.org/#propdef--webkit-animation-timing-function
    /// syntax: <easing-function>#
    /// legacy_alias_of: animation-timing-function
    WebkitAnimationTimingFunction,
    ///
    /// href: https://drafts.csswg.org/css-ui-4/#propdef--webkit-appearance
    /// syntax: none | auto | base | base-select | <compat-auto> | <compat-special> | base
    /// legacy_alias_of: appearance
    WebkitAppearance,
    ///
    /// href: https://compat.spec.whatwg.org/#propdef--webkit-backface-visibility
    /// syntax: visible | hidden
    /// legacy_alias_of: backface-visibility
    WebkitBackfaceVisibility,
    ///
    /// href: https://compat.spec.whatwg.org/#propdef--webkit-background-clip
    /// syntax: <visual-box>#
    /// legacy_alias_of: background-clip
    WebkitBackgroundClip,
    ///
    /// href: https://compat.spec.whatwg.org/#propdef--webkit-background-origin
    /// syntax: <visual-box>#
    /// legacy_alias_of: background-origin
    WebkitBackgroundOrigin,
    ///
    /// href: https://compat.spec.whatwg.org/#propdef--webkit-background-size
    /// syntax: <bg-size>#
    /// legacy_alias_of: background-size
    WebkitBackgroundSize,
    ///
    /// href: https://compat.spec.whatwg.org/#propdef--webkit-border-bottom-left-radius
    /// syntax: <border-radius>
    /// legacy_alias_of: border-bottom-left-radius
    WebkitBorderBottomLeftRadius,
    ///
    /// href: https://compat.spec.whatwg.org/#propdef--webkit-border-bottom-right-radius
    /// syntax: <border-radius>
    /// legacy_alias_of: border-bottom-right-radius
    WebkitBorderBottomRightRadius,
    ///
    /// href: https://compat.spec.whatwg.org/#propdef--webkit-border-radius
    /// syntax: <length-percentage [0,∞]>{1,4} [ / <length-percentage [0,∞]>{1,4} ]?
    /// longhands: [border-top-left-radius, border-top-right-radius, border-bottom-right-radius,
    /// border-bottom-left-radius] legacy_alias_of: border-radius
    WebkitBorderRadius,
    ///
    /// href: https://compat.spec.whatwg.org/#propdef--webkit-border-top-left-radius
    /// syntax: <border-radius>
    /// legacy_alias_of: border-top-left-radius
    WebkitBorderTopLeftRadius,
    ///
    /// href: https://compat.spec.whatwg.org/#propdef--webkit-border-top-right-radius
    /// syntax: <border-radius>
    /// legacy_alias_of: border-top-right-radius
    WebkitBorderTopRightRadius,
    ///
    /// href: https://compat.spec.whatwg.org/#propdef--webkit-box-align
    WebkitBoxAlign,
    ///
    /// href: https://compat.spec.whatwg.org/#propdef--webkit-box-flex
    WebkitBoxFlex,
    ///
    /// href: https://compat.spec.whatwg.org/#propdef--webkit-box-ordinal-group
    WebkitBoxOrdinalGroup,
    ///
    /// href: https://compat.spec.whatwg.org/#propdef--webkit-box-orient
    WebkitBoxOrient,
    ///
    /// href: https://compat.spec.whatwg.org/#propdef--webkit-box-pack
    WebkitBoxPack,
    ///
    /// href: https://compat.spec.whatwg.org/#propdef--webkit-box-shadow
    /// syntax: <spread-shadow>#
    /// longhands: [box-shadow-color, box-shadow-offset, box-shadow-blur, box-shadow-spread, box-shadow-position]
    /// legacy_alias_of: box-shadow
    WebkitBoxShadow,
    ///
    /// href: https://compat.spec.whatwg.org/#propdef--webkit-box-sizing
    /// syntax: content-box | border-box
    /// legacy_alias_of: box-sizing
    WebkitBoxSizing,
    ///
    /// href: https://compat.spec.whatwg.org/#propdef--webkit-filter
    /// syntax: none | <filter-value-list>
    /// legacy_alias_of: filter
    WebkitFilter,
    ///
    /// href: https://compat.spec.whatwg.org/#propdef--webkit-flex-propdef
    /// syntax: none | [ <'flex-grow'> <'flex-shrink'>? || <'flex-basis'> ]
    /// longhands: [flex-grow, flex-shrink, flex-basis]
    /// legacy_alias_of: flex
    WebkitFlex,
    ///
    /// href: https://compat.spec.whatwg.org/#propdef--webkit-flex-basis
    /// syntax: content | <'width'>
    /// legacy_alias_of: flex-basis
    WebkitFlexBasis,
    ///
    /// href: https://compat.spec.whatwg.org/#propdef--webkit-flex-direction
    /// syntax: row | row-reverse | column | column-reverse
    /// legacy_alias_of: flex-direction
    WebkitFlexDirection,
    ///
    /// href: https://compat.spec.whatwg.org/#propdef--webkit-flex-flow
    /// syntax: <'flex-direction'> || <'flex-wrap'>
    /// longhands: [flex-direction, flex-wrap]
    /// legacy_alias_of: flex-flow
    WebkitFlexFlow,
    ///
    /// href: https://compat.spec.whatwg.org/#propdef--webkit-flex-grow
    /// syntax: <number [0,∞]>
    /// legacy_alias_of: flex-grow
    WebkitFlexGrow,
    ///
    /// href: https://compat.spec.whatwg.org/#propdef--webkit-flex-shrink
    /// syntax: <number [0,∞]>
    /// legacy_alias_of: flex-shrink
    WebkitFlexShrink,
    ///
    /// href: https://compat.spec.whatwg.org/#propdef--webkit-flex-wrap
    /// syntax: nowrap | wrap | wrap-reverse
    /// legacy_alias_of: flex-wrap
    WebkitFlexWrap,
    ///
    /// href: https://compat.spec.whatwg.org/#propdef--webkit-justify-content
    /// syntax: normal | <content-distribution> | <overflow-position>? [ <content-position> | left | right ]
    /// legacy_alias_of: justify-content
    WebkitJustifyContent,
    ///
    /// href: https://drafts.csswg.org/css-overflow-4/#propdef--webkit-line-clamp
    /// syntax: none | <integer [1,∞]>
    /// initial: none
    /// longhands: [max-lines, block-ellipsis, continue]
    WebkitLineClamp,
    ///
    /// href: https://compat.spec.whatwg.org/#propdef--webkit-mask
    /// syntax: <mask-layer>#
    /// longhands: [mask-image, mask-position, mask-size, mask-repeat, mask-origin, mask-clip, mask-composite, mask-mode]
    /// legacy_alias_of: mask
    WebkitMask,
    ///
    /// href: https://compat.spec.whatwg.org/#propdef--webkit-mask-box-image
    /// syntax: <'mask-border-source'> || <'mask-border-slice'> [ / <'mask-border-width'>? [ / <'mask-border-outset'> ]?
    /// ]? || <'mask-border-repeat'> || <'mask-border-mode'> longhands: [mask-border-source, mask-border-slice,
    /// mask-border-width, mask-border-outset, mask-border-repeat, mask-border-mode] legacy_alias_of: mask-border
    WebkitMaskBoxImage,
    ///
    /// href: https://compat.spec.whatwg.org/#propdef--webkit-mask-box-image-outset
    /// syntax: <'border-image-outset'>
    /// legacy_alias_of: mask-border-outset
    WebkitMaskBoxImageOutset,
    ///
    /// href: https://compat.spec.whatwg.org/#propdef--webkit-mask-box-image-repeat
    /// syntax: <'border-image-repeat'>
    /// legacy_alias_of: mask-border-repeat
    WebkitMaskBoxImageRepeat,
    ///
    /// href: https://compat.spec.whatwg.org/#propdef--webkit-mask-box-image-slice
    /// syntax: <'border-image-slice'>
    /// legacy_alias_of: mask-border-slice
    WebkitMaskBoxImageSlice,
    ///
    /// href: https://compat.spec.whatwg.org/#propdef--webkit-mask-box-image-source
    /// syntax: <'border-image-source'>
    /// legacy_alias_of: mask-border-source
    WebkitMaskBoxImageSource,
    ///
    /// href: https://compat.spec.whatwg.org/#propdef--webkit-mask-box-image-width
    /// syntax: <'border-image-width'>
    /// legacy_alias_of: mask-border-width
    WebkitMaskBoxImageWidth,
    ///
    /// href: https://compat.spec.whatwg.org/#propdef--webkit-mask-clip
    /// syntax: [ <coord-box> | no-clip ]#
    /// legacy_alias_of: mask-clip
    WebkitMaskClip,
    ///
    /// href: https://compat.spec.whatwg.org/#propdef--webkit-mask-composite
    /// syntax: <compositing-operator>#
    /// legacy_alias_of: mask-composite
    WebkitMaskComposite,
    ///
    /// href: https://compat.spec.whatwg.org/#propdef--webkit-mask-image
    /// syntax: <mask-reference>#
    /// legacy_alias_of: mask-image
    WebkitMaskImage,
    ///
    /// href: https://compat.spec.whatwg.org/#propdef--webkit-mask-origin
    /// syntax: <coord-box>#
    /// legacy_alias_of: mask-origin
    WebkitMaskOrigin,
    ///
    /// href: https://compat.spec.whatwg.org/#propdef--webkit-mask-position
    /// syntax: <position>#
    /// legacy_alias_of: mask-position
    WebkitMaskPosition,
    ///
    /// href: https://compat.spec.whatwg.org/#propdef--webkit-mask-repeat
    /// syntax: <repeat-style>#
    /// legacy_alias_of: mask-repeat
    WebkitMaskRepeat,
    ///
    /// href: https://compat.spec.whatwg.org/#propdef--webkit-mask-size
    /// syntax: <bg-size>#
    /// legacy_alias_of: mask-size
    WebkitMaskSize,
    ///
    /// href: https://compat.spec.whatwg.org/#propdef--webkit-order
    /// syntax: <integer>
    /// legacy_alias_of: order
    WebkitOrder,
    ///
    /// href: https://compat.spec.whatwg.org/#propdef--webkit-perspective
    /// syntax: none | <length [0,∞]>
    /// legacy_alias_of: perspective
    WebkitPerspective,
    ///
    /// href: https://compat.spec.whatwg.org/#propdef--webkit-perspective-origin
    /// syntax: <position>
    /// legacy_alias_of: perspective-origin
    WebkitPerspectiveOrigin,
    ///
    /// href: https://compat.spec.whatwg.org/#propdef--webkit-text-fill-color
    /// syntax: <color>
    /// initial: currentcolor
    /// inherited: yes
    WebkitTextFillColor,
    ///
    /// href: https://compat.spec.whatwg.org/#propdef--webkit-text-size-adjust
    /// syntax: auto | none | <percentage [0,∞]>
    /// legacy_alias_of: text-size-adjust
    WebkitTextSizeAdjust,
    ///
    /// href: https://compat.spec.whatwg.org/#propdef--webkit-text-stroke
    /// syntax: <line-width> || <color>
    /// initial: See individual properties
    /// inherited: yes
    /// longhands: [-webkit-text-stroke-width, -webkit-text-stroke-color]
    WebkitTextStroke,
    ///
    /// href: https://compat.spec.whatwg.org/#propdef--webkit-text-stroke-color
    /// syntax: <color>
    /// initial: currentcolor
    /// inherited: yes
    WebkitTextStrokeColor,
    ///
    /// href: https://compat.spec.whatwg.org/#propdef--webkit-text-stroke-width
    /// syntax: <line-width>
    /// initial: 0
    /// inherited: yes
    WebkitTextStrokeWidth,
    ///
    /// href: https://compat.spec.whatwg.org/#propdef--webkit-transform
    /// syntax: none | <transform-list>
    /// legacy_alias_of: transform
    WebkitTransform,
    ///
    /// href: https://compat.spec.whatwg.org/#propdef--webkit-transform-origin
    /// syntax: [ left | center | right | top | bottom | <length-percentage> ] | [ left | center | right |
    /// <length-percentage> ] [ top | center | bottom | <length-percentage> ] <length>? | [ [ center | left | right ] && [
    /// center | top | bottom ] ] <length>? legacy_alias_of: transform-origin
    WebkitTransformOrigin,
    ///
    /// href: https://compat.spec.whatwg.org/#propdef--webkit-transform-style
    /// syntax: flat | preserve-3d
    /// legacy_alias_of: transform-style
    WebkitTransformStyle,
    ///
    /// href: https://compat.spec.whatwg.org/#propdef--webkit-transition
    /// syntax: <single-transition>#
    /// longhands: [transition-property, transition-duration, transition-timing-function, transition-delay,
    /// transition-behavior] legacy_alias_of: transition
    WebkitTransition,
    ///
    /// href: https://compat.spec.whatwg.org/#propdef--webkit-transition-delay
    /// syntax: <time>#
    /// legacy_alias_of: transition-delay
    WebkitTransitionDelay,
    ///
    /// href: https://compat.spec.whatwg.org/#propdef--webkit-transition-duration
    /// syntax: <time [0s,∞]>#
    /// legacy_alias_of: transition-duration
    WebkitTransitionDuration,
    ///
    /// href: https://compat.spec.whatwg.org/#propdef--webkit-transition-property
    /// syntax: none | <single-transition-property>#
    /// legacy_alias_of: transition-property
    WebkitTransitionProperty,
    ///
    /// href: https://compat.spec.whatwg.org/#propdef--webkit-transition-timing-function
    /// syntax: <easing-function>#
    /// legacy_alias_of: transition-timing-function
    WebkitTransitionTimingFunction,
    ///
    /// href: https://drafts.csswg.org/css-ui-4/#propdef--webkit-user-select
    /// syntax: auto | text | none | contain | all
    WebkitUserSelect,
    ///
    /// href: https://drafts.csswg.org/css-ui-4/#propdef-accent-color
    /// syntax: auto | <color>
    /// initial: auto
    /// inherited: yes
    AccentColor,
    ///
    /// href: https://drafts.csswg.org/css-align-3/#propdef-align-content
    /// syntax: normal | <baseline-position> | <content-distribution> | <overflow-position>? <content-position>
    /// initial: normal
    AlignContent,
    ///
    /// href: https://drafts.csswg.org/css-align-3/#propdef-align-items
    /// syntax: normal | stretch | <baseline-position> | <overflow-position>? <self-position>
    /// initial: normal
    AlignItems,
    ///
    /// href: https://drafts.csswg.org/css-align-3/#propdef-align-self
    /// syntax: auto | <overflow-position>? [ normal | <self-position> ]| stretch | <baseline-position> | anchor-center
    /// initial: auto
    AlignSelf,
    ///
    /// href: https://drafts.csswg.org/css-inline-3/#propdef-alignment-baseline
    /// syntax: baseline | <baseline-metric>
    /// initial: baseline
    AlignmentBaseline,
    ///
    /// href: https://drafts.csswg.org/css-cascade-5/#propdef-all
    /// syntax: initial | inherit | unset | revert | revert-layer | revert-rule
    /// initial: see individual properties
    All,
    ///
    /// href: https://drafts.csswg.org/css-anchor-position-1/#propdef-anchor-name
    /// syntax: none | <anchor-name>#
    /// initial: none
    AnchorName,
    ///
    /// href: https://drafts.csswg.org/css-anchor-position-1/#propdef-anchor-scope
    /// syntax: none | all | <anchor-name>#
    /// initial: none
    AnchorScope,
    ///
    /// href: https://drafts.csswg.org/css-animations-1/#propdef-animation
    /// syntax: <single-animation>#
    /// initial: see individual properties
    /// longhands: [animation-name, animation-duration, animation-timing-function, animation-delay,
    /// animation-iteration-count, animation-direction, animation-fill-mode, animation-play-state, animation-timeline]
    Animation,
    ///
    /// href: https://drafts.csswg.org/css-animations-2/#propdef-animation-composition
    /// syntax: <single-animation-composition>#
    /// initial: replace
    AnimationComposition,
    ///
    /// href: https://drafts.csswg.org/css-animations-1/#propdef-animation-delay
    /// syntax: <time>#
    /// initial: 0s
    AnimationDelay,
    ///
    /// href: https://drafts.csswg.org/css-animations-1/#propdef-animation-direction
    /// syntax: <single-animation-direction>#
    /// initial: normal
    AnimationDirection,
    ///
    /// href: https://drafts.csswg.org/css-animations-2/#propdef-animation-duration
    /// syntax: [ auto | <time [0s,∞]> ]#
    /// initial: auto
    AnimationDuration,
    ///
    /// href: https://drafts.csswg.org/css-animations-1/#propdef-animation-fill-mode
    /// syntax: <single-animation-fill-mode>#
    /// initial: none
    AnimationFillMode,
    ///
    /// href: https://drafts.csswg.org/css-animations-1/#propdef-animation-iteration-count
    /// syntax: <single-animation-iteration-count>#
    /// initial: 1
    AnimationIterationCount,
    ///
    /// href: https://drafts.csswg.org/css-animations-1/#propdef-animation-name
    /// syntax: [ none | <keyframes-name> ]#
    /// initial: none
    AnimationName,
    ///
    /// href: https://drafts.csswg.org/css-animations-1/#propdef-animation-play-state
    /// syntax: <single-animation-play-state>#
    /// initial: running
    AnimationPlayState,
    ///
    /// href: https://drafts.csswg.org/scroll-animations-1/#propdef-animation-range
    /// syntax: [ <'animation-range-start'> <'animation-range-end'>? ]#
    /// initial: see individual properties
    /// longhands: [animation-range-start, animation-range-end]
    AnimationRange,
    ///
    /// href: https://drafts.csswg.org/pointer-animations-1/#propdef-animation-range-center
    /// syntax: [ normal | [ <length-percentage> | <timeline-range-center-subject> <length-percentage>? ] ]#
    /// initial: normal
    AnimationRangeCenter,
    ///
    /// href: https://drafts.csswg.org/scroll-animations-1/#propdef-animation-range-end
    /// syntax: [ normal | <length-percentage> | <timeline-range-name> <length-percentage>? ]#
    /// initial: normal
    AnimationRangeEnd,
    ///
    /// href: https://drafts.csswg.org/scroll-animations-1/#propdef-animation-range-start
    /// syntax: [ normal | <length-percentage> | <timeline-range-name> <length-percentage>? ]#
    /// initial: normal
    AnimationRangeStart,
    ///
    /// href: https://drafts.csswg.org/css-animations-2/#propdef-animation-timeline
    /// syntax: <single-animation-timeline>#
    /// initial: auto
    AnimationTimeline,
    ///
    /// href: https://drafts.csswg.org/css-animations-1/#propdef-animation-timing-function
    /// syntax: <easing-function>#
    /// initial: ease
    AnimationTimingFunction,
    ///
    /// href: https://drafts.csswg.org/animation-triggers-1/#propdef-animation-trigger
    /// syntax: [ none | [ <dashed-ident> <animation-action>+ ]+ ]#
    /// initial: none
    AnimationTrigger,
    ///
    /// href: https://drafts.csswg.org/css-ui-4/#propdef-appearance
    /// syntax: none | auto | base | base-select | <compat-auto> | <compat-special> | base
    /// initial: none
    Appearance,
    ///
    /// href: https://drafts.csswg.org/css-sizing-4/#propdef-aspect-ratio
    /// syntax: auto || <ratio>
    /// initial: auto
    AspectRatio,
    ///
    /// href: https://drafts.csswg.org/filter-effects-2/#propdef-backdrop-filter
    /// syntax: none | <filter-value-list>
    /// initial: none
    BackdropFilter,
    ///
    /// href: https://drafts.csswg.org/css-transforms-2/#propdef-backface-visibility
    /// syntax: visible | hidden
    /// initial: visible
    BackfaceVisibility,
    ///
    /// href: https://drafts.csswg.org/css-backgrounds-4/#propdef-background
    /// syntax: <bg-layer>#? , <final-bg-layer>
    /// initial: see individual properties
    /// longhands: [background-image, background-position, background-size, background-repeat, background-attachment,
    /// background-origin, background-clip, background-color]
    Background,
    ///
    /// href: https://drafts.csswg.org/css-backgrounds-4/#propdef-background-attachment
    /// syntax: <attachment>#
    /// initial: scroll
    BackgroundAttachment,
    ///
    /// href: https://drafts.csswg.org/compositing-2/#propdef-background-blend-mode
    /// syntax: <'mix-blend-mode'>#
    /// initial: normal
    BackgroundBlendMode,
    ///
    /// href: https://drafts.csswg.org/css-backgrounds-4/#propdef-background-clip
    /// syntax: <bg-clip>#
    /// initial: border-box
    BackgroundClip,
    ///
    /// href: https://drafts.csswg.org/css-backgrounds-4/#propdef-background-color
    /// syntax: <color>
    /// initial: transparent
    BackgroundColor,
    ///
    /// href: https://drafts.csswg.org/css-backgrounds-4/#propdef-background-image
    /// syntax: <bg-image>#
    /// initial: none
    BackgroundImage,
    ///
    /// href: https://drafts.csswg.org/css-backgrounds-4/#propdef-background-origin
    /// syntax: <visual-box>#
    /// initial: padding-box
    BackgroundOrigin,
    ///
    /// href: https://drafts.csswg.org/css-backgrounds-4/#propdef-background-position
    /// syntax: <bg-position>#
    /// initial: 0% 0%
    /// longhands: [background-position-x, background-position-y]
    BackgroundPosition,
    ///
    /// href: https://drafts.csswg.org/css-backgrounds-4/#propdef-background-position-block
    /// syntax: [ center | [ [ start | end ]? <length-percentage>? ]! ]#
    /// initial: 0%
    BackgroundPositionBlock,
    ///
    /// href: https://drafts.csswg.org/css-backgrounds-4/#propdef-background-position-inline
    /// syntax: [ center | [ [ start | end ]? <length-percentage>? ]! ]#
    /// initial: 0%
    BackgroundPositionInline,
    ///
    /// href: https://drafts.csswg.org/css-backgrounds-4/#propdef-background-position-x
    /// syntax: [ center | [ [ left | right | x-start | x-end ]? <length-percentage>? ]! ]#
    /// initial: 0%
    BackgroundPositionX,
    ///
    /// href: https://drafts.csswg.org/css-backgrounds-4/#propdef-background-position-y
    /// syntax: [ center | [ [ top | bottom | y-start | y-end ]? <length-percentage>? ]! ]#
    /// initial: 0%
    BackgroundPositionY,
    ///
    /// href: https://drafts.csswg.org/css-backgrounds-4/#propdef-background-repeat
    /// syntax: <repeat-style>#
    /// initial: repeat
    BackgroundRepeat,
    ///
    /// href: https://drafts.csswg.org/css-backgrounds-4/#propdef-background-repeat-block
    /// syntax: <repetition>#
    /// initial: repeat
    BackgroundRepeatBlock,
    ///
    /// href: https://drafts.csswg.org/css-backgrounds-4/#propdef-background-repeat-inline
    /// syntax: <repetition>#
    /// initial: repeat
    BackgroundRepeatInline,
    ///
    /// href: https://drafts.csswg.org/css-backgrounds-4/#propdef-background-repeat-x
    /// syntax: <repetition>#
    /// initial: repeat
    BackgroundRepeatX,
    ///
    /// href: https://drafts.csswg.org/css-backgrounds-4/#propdef-background-repeat-y
    /// syntax: <repetition>#
    /// initial: repeat
    BackgroundRepeatY,
    ///
    /// href: https://drafts.csswg.org/css-backgrounds-4/#propdef-background-size
    /// syntax: <bg-size>#
    /// initial: auto
    BackgroundSize,
    ///
    /// href: https://drafts.csswg.org/css-backgrounds-4/#propdef-background-tbd
    /// syntax: <bg-layer>#
    /// initial: see individual properties
    BackgroundTbd,
    ///
    /// href: https://drafts.csswg.org/css-inline-3/#propdef-baseline-shift
    /// syntax: <length-percentage> | sub | super | top | center | bottom
    /// initial: 0
    BaselineShift,
    ///
    /// href: https://drafts.csswg.org/css-inline-3/#propdef-baseline-source
    /// syntax: auto | first | last
    /// initial: auto
    BaselineSource,
    ///
    /// href: https://drafts.csswg.org/css-overflow-4/#propdef-block-ellipsis
    /// syntax: no-ellipsis | auto | <string>
    /// initial: no-ellipsis
    /// inherited: yes
    BlockEllipsis,
    ///
    /// href: https://drafts.csswg.org/css-logical-1/#propdef-block-size
    /// syntax: <'width'>
    /// initial: auto
    BlockSize,
    ///
    /// href: https://drafts.csswg.org/css-rhythm-1/#propdef-block-step
    /// syntax: <'block-step-size'> || <'block-step-insert'> || <'block-step-align'> || <'block-step-round'>
    /// initial: see individual properties
    /// longhands: [block-step-size, block-step-insert, block-step-align, block-step-round]
    BlockStep,
    ///
    /// href: https://drafts.csswg.org/css-rhythm-1/#propdef-block-step-align
    /// syntax: auto | center | start | end
    /// initial: auto
    BlockStepAlign,
    ///
    /// href: https://drafts.csswg.org/css-rhythm-1/#propdef-block-step-insert
    /// syntax: margin-box | padding-box | content-box
    /// initial: margin-box
    BlockStepInsert,
    ///
    /// href: https://drafts.csswg.org/css-rhythm-1/#propdef-block-step-round
    /// syntax: up | down | nearest
    /// initial: up
    BlockStepRound,
    ///
    /// href: https://drafts.csswg.org/css-rhythm-1/#propdef-block-step-size
    /// syntax: none | <length [0,∞]>
    /// initial: none
    BlockStepSize,
    ///
    /// href: https://drafts.csswg.org/css-content-3/#propdef-bookmark-label
    /// syntax: <content-list>
    /// initial: content(text)
    BookmarkLabel,
    ///
    /// href: https://drafts.csswg.org/css-content-3/#propdef-bookmark-level
    /// syntax: none | <integer [1,∞]>
    /// initial: none
    BookmarkLevel,
    ///
    /// href: https://drafts.csswg.org/css-content-3/#propdef-bookmark-state
    /// syntax: open | closed
    /// initial: open
    BookmarkState,
    ///
    /// href: https://drafts.csswg.org/css-borders-4/#propdef-border
    /// syntax: <line-width> || <line-style> || <color>
    /// initial: see individual properties
    /// longhands: [border-width, border-style, border-color]
    Border,
    ///
    /// href: https://drafts.csswg.org/css-borders-4/#propdef-border-block
    /// syntax: <'border-block-start'>
    /// initial: see individual properties
    /// longhands: [border-block-start, border-block-end]
    BorderBlock,
    ///
    /// href: https://drafts.csswg.org/css-borders-4/#propdef-border-block-clip
    /// syntax: <'border-top-clip'>
    /// initial: see individual properties
    /// longhands: [border-block-start-clip, border-block-end-clip]
    BorderBlockClip,
    ///
    /// href: https://drafts.csswg.org/css-borders-4/#propdef-border-block-color
    /// syntax: <'border-top-color'>{1,2}
    /// initial: see individual properties
    /// longhands: [border-block-start-color, border-block-end-color]
    BorderBlockColor,
    ///
    /// href: https://drafts.csswg.org/css-borders-4/#propdef-border-block-end
    /// syntax: <line-width> || <line-style> || <color>
    /// initial: See individual properties
    /// longhands: [border-block-end-width, border-block-end-style, border-block-end-color]
    BorderBlockEnd,
    ///
    /// href: https://drafts.csswg.org/css-borders-4/#propdef-border-block-end-clip
    /// syntax: none | [ <length-percentage [0,∞]> | <flex> ]+
    /// initial: none
    BorderBlockEndClip,
    ///
    /// href: https://drafts.csswg.org/css-borders-4/#propdef-border-block-end-color
    /// syntax: <color> | <image-1D>
    /// initial: currentcolor
    BorderBlockEndColor,
    ///
    /// href: https://drafts.csswg.org/css-borders-4/#propdef-border-block-end-radius
    /// syntax: <length-percentage [0,∞]>{1,2} [ / <length-percentage [0,∞]>{1,2} ]?
    /// initial: 0
    /// longhands: [border-end-start-radius, border-end-end-radius]
    BorderBlockEndRadius,
    ///
    /// href: https://drafts.csswg.org/css-borders-4/#propdef-border-block-end-style
    /// syntax: <line-style>
    /// initial: none
    BorderBlockEndStyle,
    ///
    /// href: https://drafts.csswg.org/css-borders-4/#propdef-border-block-end-width
    /// syntax: <line-width>
    /// initial: medium
    BorderBlockEndWidth,
    ///
    /// href: https://drafts.csswg.org/css-borders-4/#propdef-border-block-start
    /// syntax: <line-width> || <line-style> || <color>
    /// initial: See individual properties
    /// longhands: [border-block-start-width, border-block-start-style, border-block-start-color]
    BorderBlockStart,
    ///
    /// href: https://drafts.csswg.org/css-borders-4/#propdef-border-block-start-clip
    /// syntax: none | [ <length-percentage [0,∞]> | <flex> ]+
    /// initial: none
    BorderBlockStartClip,
    ///
    /// href: https://drafts.csswg.org/css-borders-4/#propdef-border-block-start-color
    /// syntax: <color> | <image-1D>
    /// initial: currentcolor
    BorderBlockStartColor,
    ///
    /// href: https://drafts.csswg.org/css-borders-4/#propdef-border-block-start-radius
    /// syntax: <length-percentage [0,∞]>{1,2} [ / <length-percentage [0,∞]>{1,2} ]?
    /// initial: 0
    /// longhands: [border-start-start-radius, border-start-end-radius]
    BorderBlockStartRadius,
    ///
    /// href: https://drafts.csswg.org/css-borders-4/#propdef-border-block-start-style
    /// syntax: <line-style>
    /// initial: none
    BorderBlockStartStyle,
    ///
    /// href: https://drafts.csswg.org/css-borders-4/#propdef-border-block-start-width
    /// syntax: <line-width>
    /// initial: medium
    BorderBlockStartWidth,
    ///
    /// href: https://drafts.csswg.org/css-borders-4/#propdef-border-block-style
    /// syntax: <'border-top-style'>{1,2}
    /// initial: see individual properties
    /// longhands: [border-block-start-style, border-block-end-style]
    BorderBlockStyle,
    ///
    /// href: https://drafts.csswg.org/css-borders-4/#propdef-border-block-width
    /// syntax: <'border-top-width'>{1,2}
    /// initial: see individual properties
    /// longhands: [border-block-start-width, border-block-end-width]
    BorderBlockWidth,
    ///
    /// href: https://drafts.csswg.org/css-borders-4/#propdef-border-bottom
    /// syntax: <line-width> || <line-style> || <color>
    /// initial: See individual properties
    /// longhands: [border-bottom-width, border-bottom-style, border-bottom-color]
    BorderBottom,
    ///
    /// href: https://drafts.csswg.org/css-borders-4/#propdef-border-bottom-clip
    /// syntax: none | [ <length-percentage [0,∞]> | <flex> ]+
    /// initial: none
    BorderBottomClip,
    ///
    /// href: https://drafts.csswg.org/css-borders-4/#propdef-border-bottom-color
    /// syntax: <color> | <image-1D>
    /// initial: currentcolor
    BorderBottomColor,
    ///
    /// href: https://drafts.csswg.org/css-borders-4/#propdef-border-bottom-left-radius
    /// syntax: <border-radius>
    /// initial: 0
    BorderBottomLeftRadius,
    ///
    /// href: https://drafts.csswg.org/css-borders-4/#propdef-border-bottom-radius
    /// syntax: <length-percentage [0,∞]>{1,2} [ / <length-percentage [0,∞]>{1,2} ]?
    /// initial: 0
    /// longhands: [border-bottom-left-radius, border-bottom-right-radius]
    BorderBottomRadius,
    ///
    /// href: https://drafts.csswg.org/css-borders-4/#propdef-border-bottom-right-radius
    /// syntax: <border-radius>
    /// initial: 0
    BorderBottomRightRadius,
    ///
    /// href: https://drafts.csswg.org/css-borders-4/#propdef-border-bottom-style
    /// syntax: <line-style>
    /// initial: none
    BorderBottomStyle,
    ///
    /// href: https://drafts.csswg.org/css-borders-4/#propdef-border-bottom-width
    /// syntax: <line-width>
    /// initial: medium
    BorderBottomWidth,
    ///
    /// href: https://drafts.csswg.org/css-round-display-1/#propdef-border-boundary
    /// syntax: none | parent | display
    /// initial: none
    /// inherited: yes
    BorderBoundary,
    ///
    /// href: https://drafts.csswg.org/css-borders-4/#propdef-border-clip
    /// syntax: <'border-top-clip'>
    /// initial: see individual properties
    /// longhands: [border-top-clip, border-right-clip, border-bottom-clip, border-left-clip]
    BorderClip,
    ///
    /// href: https://drafts.csswg.org/css-tables-3/#propdef-border-collapse
    /// syntax: separate | collapse
    /// initial: separate
    /// inherited: yes
    BorderCollapse,
    ///
    /// href: https://drafts.csswg.org/css-borders-4/#propdef-border-color
    /// syntax: [ <color> | <image-1D> ]{1,4}
    /// initial: see individual properties
    /// longhands: [border-top-color, border-right-color, border-bottom-color, border-left-color]
    BorderColor,
    ///
    /// href: https://drafts.csswg.org/css-borders-4/#propdef-border-end-end-radius
    /// syntax: <border-radius>
    /// initial: 0
    BorderEndEndRadius,
    ///
    /// href: https://drafts.csswg.org/css-borders-4/#propdef-border-end-start-radius
    /// syntax: <border-radius>
    /// initial: 0
    BorderEndStartRadius,
    ///
    /// href: https://drafts.csswg.org/css-borders-4/#propdef-border-image
    /// syntax: <'border-image-source'> || <'border-image-slice'> [ / <'border-image-width'> | / <'border-image-width'>? /
    /// <'border-image-outset'> ]? || <'border-image-repeat'> initial: See individual properties
    /// longhands: [border-image-source, border-image-slice, border-image-width, border-image-outset, border-image-repeat]
    BorderImage,
    ///
    /// href: https://drafts.csswg.org/css-borders-4/#propdef-border-image-outset
    /// syntax: [ <length [0,∞]> | <number [0,∞]> ]{1,4}
    /// initial: 0
    BorderImageOutset,
    ///
    /// href: https://drafts.csswg.org/css-borders-4/#propdef-border-image-repeat
    /// syntax: [ stretch | repeat | round | space ]{1,2}
    /// initial: stretch
    BorderImageRepeat,
    ///
    /// href: https://drafts.csswg.org/css-borders-4/#propdef-border-image-slice
    /// syntax: [<number [0,∞]> | <percentage [0,∞]>]{1,4} && fill?
    /// initial: 100%
    BorderImageSlice,
    ///
    /// href: https://drafts.csswg.org/css-borders-4/#propdef-border-image-source
    /// syntax: none | <image>
    /// initial: none
    BorderImageSource,
    ///
    /// href: https://drafts.csswg.org/css-borders-4/#propdef-border-image-width
    /// syntax: [ <length-percentage [0,∞]> | <number [0,∞]> | auto ]{1,4}
    /// initial: 1
    BorderImageWidth,
    ///
    /// href: https://drafts.csswg.org/css-borders-4/#propdef-border-inline
    /// syntax: <'border-block-start'>
    /// initial: see individual properties
    /// longhands: [border-inline-start, border-inline-end]
    BorderInline,
    ///
    /// href: https://drafts.csswg.org/css-borders-4/#propdef-border-inline-clip
    /// syntax: <'border-top-clip'>
    /// initial: see individual properties
    /// longhands: [border-inline-start-clip, border-inline-end-clip]
    BorderInlineClip,
    ///
    /// href: https://drafts.csswg.org/css-borders-4/#propdef-border-inline-color
    /// syntax: <'border-top-color'>{1,2}
    /// initial: see individual properties
    /// longhands: [border-inline-start-color, border-inline-end-color]
    BorderInlineColor,
    ///
    /// href: https://drafts.csswg.org/css-borders-4/#propdef-border-inline-end
    /// syntax: <line-width> || <line-style> || <color>
    /// initial: See individual properties
    /// longhands: [border-inline-end-width, border-inline-end-style, border-inline-end-color]
    BorderInlineEnd,
    ///
    /// href: https://drafts.csswg.org/css-borders-4/#propdef-border-inline-end-clip
    /// syntax: none | [ <length-percentage [0,∞]> | <flex> ]+
    /// initial: none
    BorderInlineEndClip,
    ///
    /// href: https://drafts.csswg.org/css-borders-4/#propdef-border-inline-end-color
    /// syntax: <color> | <image-1D>
    /// initial: currentcolor
    BorderInlineEndColor,
    ///
    /// href: https://drafts.csswg.org/css-borders-4/#propdef-border-inline-end-radius
    /// syntax: <length-percentage [0,∞]>{1,2} [ / <length-percentage [0,∞]>{1,2} ]?
    /// initial: 0
    /// longhands: [border-start-end-radius, border-end-end-radius]
    BorderInlineEndRadius,
    ///
    /// href: https://drafts.csswg.org/css-borders-4/#propdef-border-inline-end-style
    /// syntax: <line-style>
    /// initial: none
    BorderInlineEndStyle,
    ///
    /// href: https://drafts.csswg.org/css-borders-4/#propdef-border-inline-end-width
    /// syntax: <line-width>
    /// initial: medium
    BorderInlineEndWidth,
    ///
    /// href: https://drafts.csswg.org/css-borders-4/#propdef-border-inline-start
    /// syntax: <line-width> || <line-style> || <color>
    /// initial: See individual properties
    /// longhands: [border-inline-start-width, border-inline-start-style, border-inline-start-color]
    BorderInlineStart,
    ///
    /// href: https://drafts.csswg.org/css-borders-4/#propdef-border-inline-start-clip
    /// syntax: none | [ <length-percentage [0,∞]> | <flex> ]+
    /// initial: none
    BorderInlineStartClip,
    ///
    /// href: https://drafts.csswg.org/css-borders-4/#propdef-border-inline-start-color
    /// syntax: <color> | <image-1D>
    /// initial: currentcolor
    BorderInlineStartColor,
    ///
    /// href: https://drafts.csswg.org/css-borders-4/#propdef-border-inline-start-radius
    /// syntax: <length-percentage [0,∞]>{1,2} [ / <length-percentage [0,∞]>{1,2} ]?
    /// initial: 0
    /// longhands: [border-start-start-radius, border-end-start-radius]
    BorderInlineStartRadius,
    ///
    /// href: https://drafts.csswg.org/css-borders-4/#propdef-border-inline-start-style
    /// syntax: <line-style>
    /// initial: none
    BorderInlineStartStyle,
    ///
    /// href: https://drafts.csswg.org/css-borders-4/#propdef-border-inline-start-width
    /// syntax: <line-width>
    /// initial: medium
    BorderInlineStartWidth,
    ///
    /// href: https://drafts.csswg.org/css-borders-4/#propdef-border-inline-style
    /// syntax: <'border-top-style'>{1,2}
    /// initial: see individual properties
    /// longhands: [border-inline-start-style, border-inline-end-style]
    BorderInlineStyle,
    ///
    /// href: https://drafts.csswg.org/css-borders-4/#propdef-border-inline-width
    /// syntax: <'border-top-width'>{1,2}
    /// initial: see individual properties
    /// longhands: [border-inline-start-width, border-inline-end-width]
    BorderInlineWidth,
    ///
    /// href: https://drafts.csswg.org/css-borders-4/#propdef-border-left
    /// syntax: <line-width> || <line-style> || <color>
    /// initial: See individual properties
    /// longhands: [border-left-width, border-left-style, border-left-color]
    BorderLeft,
    ///
    /// href: https://drafts.csswg.org/css-borders-4/#propdef-border-left-clip
    /// syntax: none | [ <length-percentage [0,∞]> | <flex> ]+
    /// initial: none
    BorderLeftClip,
    ///
    /// href: https://drafts.csswg.org/css-borders-4/#propdef-border-left-color
    /// syntax: <color> | <image-1D>
    /// initial: currentcolor
    BorderLeftColor,
    ///
    /// href: https://drafts.csswg.org/css-borders-4/#propdef-border-left-radius
    /// syntax: <length-percentage [0,∞]>{1,2} [ / <length-percentage [0,∞]>{1,2} ]?
    /// initial: 0
    /// longhands: [border-top-left-radius, border-bottom-left-radius]
    BorderLeftRadius,
    ///
    /// href: https://drafts.csswg.org/css-borders-4/#propdef-border-left-style
    /// syntax: <line-style>
    /// initial: none
    BorderLeftStyle,
    ///
    /// href: https://drafts.csswg.org/css-borders-4/#propdef-border-left-width
    /// syntax: <line-width>
    /// initial: medium
    BorderLeftWidth,
    ///
    /// href: https://drafts.csswg.org/css-borders-4/#propdef-border-limit
    /// syntax: all | [ sides | corners ] <length-percentage [0,∞]>? | [ top | right | bottom | left ] <length-percentage
    /// [0,∞]> initial: all
    BorderLimit,
    ///
    /// href: https://drafts.csswg.org/css-borders-4/#propdef-border-radius
    /// syntax: <length-percentage [0,∞]>{1,4} [ / <length-percentage [0,∞]>{1,4} ]?
    /// initial: see individual properties
    /// longhands: [border-top-left-radius, border-top-right-radius, border-bottom-right-radius,
    /// border-bottom-left-radius]
    BorderRadius,
    ///
    /// href: https://drafts.csswg.org/css-borders-4/#propdef-border-right
    /// syntax: <line-width> || <line-style> || <color>
    /// initial: See individual properties
    /// longhands: [border-right-width, border-right-style, border-right-color]
    BorderRight,
    ///
    /// href: https://drafts.csswg.org/css-borders-4/#propdef-border-right-clip
    /// syntax: none | [ <length-percentage [0,∞]> | <flex> ]+
    /// initial: none
    BorderRightClip,
    ///
    /// href: https://drafts.csswg.org/css-borders-4/#propdef-border-right-color
    /// syntax: <color> | <image-1D>
    /// initial: currentcolor
    BorderRightColor,
    ///
    /// href: https://drafts.csswg.org/css-borders-4/#propdef-border-right-radius
    /// syntax: <length-percentage [0,∞]>{1,2} [ / <length-percentage [0,∞]>{1,2} ]?
    /// initial: 0
    /// longhands: [border-top-right-radius, border-bottom-right-radius]
    BorderRightRadius,
    ///
    /// href: https://drafts.csswg.org/css-borders-4/#propdef-border-right-style
    /// syntax: <line-style>
    /// initial: none
    BorderRightStyle,
    ///
    /// href: https://drafts.csswg.org/css-borders-4/#propdef-border-right-width
    /// syntax: <line-width>
    /// initial: medium
    BorderRightWidth,
    ///
    /// href: https://drafts.csswg.org/css-borders-4/#propdef-border-shape
    /// syntax: none | [ <basic-shape> <geometry-box>?]{1,2}
    /// initial: none
    BorderShape,
    ///
    /// href: https://drafts.csswg.org/css-tables-3/#propdef-border-spacing
    /// syntax: <length [0,∞]>{1,2}
    /// initial: 0px 0px
    /// inherited: yes
    BorderSpacing,
    ///
    /// href: https://drafts.csswg.org/css-borders-4/#propdef-border-start-end-radius
    /// syntax: <border-radius>
    /// initial: 0
    BorderStartEndRadius,
    ///
    /// href: https://drafts.csswg.org/css-borders-4/#propdef-border-start-start-radius
    /// syntax: <border-radius>
    /// initial: 0
    BorderStartStartRadius,
    ///
    /// href: https://drafts.csswg.org/css-borders-4/#propdef-border-style
    /// syntax: <'border-top-style'>{1,4}
    /// initial: see individual properties
    /// longhands: [border-top-style, border-right-style, border-bottom-style, border-left-style]
    BorderStyle,
    ///
    /// href: https://drafts.csswg.org/css-borders-4/#propdef-border-top
    /// syntax: <line-width> || <line-style> || <color>
    /// initial: See individual properties
    /// longhands: [border-top-width, border-top-style, border-top-color]
    BorderTop,
    ///
    /// href: https://drafts.csswg.org/css-borders-4/#propdef-border-top-clip
    /// syntax: none | [ <length-percentage [0,∞]> | <flex> ]+
    /// initial: none
    BorderTopClip,
    ///
    /// href: https://drafts.csswg.org/css-borders-4/#propdef-border-top-color
    /// syntax: <color> | <image-1D>
    /// initial: currentcolor
    BorderTopColor,
    ///
    /// href: https://drafts.csswg.org/css-borders-4/#propdef-border-top-left-radius
    /// syntax: <border-radius>
    /// initial: 0
    BorderTopLeftRadius,
    ///
    /// href: https://drafts.csswg.org/css-borders-4/#propdef-border-top-radius
    /// syntax: <length-percentage [0,∞]>{1,2} [ / <length-percentage [0,∞]>{1,2} ]?
    /// initial: 0
    /// longhands: [border-top-left-radius, border-top-right-radius]
    BorderTopRadius,
    ///
    /// href: https://drafts.csswg.org/css-borders-4/#propdef-border-top-right-radius
    /// syntax: <border-radius>
    /// initial: 0
    BorderTopRightRadius,
    ///
    /// href: https://drafts.csswg.org/css-borders-4/#propdef-border-top-style
    /// syntax: <line-style>
    /// initial: none
    BorderTopStyle,
    ///
    /// href: https://drafts.csswg.org/css-borders-4/#propdef-border-top-width
    /// syntax: <line-width>
    /// initial: medium
    BorderTopWidth,
    ///
    /// href: https://drafts.csswg.org/css-borders-4/#propdef-border-width
    /// syntax: <'border-top-width'>{1,4}
    /// initial: see individual properties
    /// longhands: [border-top-width, border-right-width, border-bottom-width, border-left-width]
    BorderWidth,
    ///
    /// href: https://drafts.csswg.org/css-position-3/#propdef-bottom
    /// syntax: auto | <length-percentage> | <anchor()> | <anchor-size()>
    /// initial: auto
    Bottom,
    ///
    /// href: https://drafts.csswg.org/css-break-4/#propdef-box-decoration-break
    /// syntax: slice | clone
    /// initial: slice
    BoxDecorationBreak,
    ///
    /// href: https://drafts.csswg.org/css-borders-4/#propdef-box-shadow
    /// syntax: <spread-shadow>#
    /// initial: none
    /// longhands: [box-shadow-color, box-shadow-offset, box-shadow-blur, box-shadow-spread, box-shadow-position]
    BoxShadow,
    ///
    /// href: https://drafts.csswg.org/css-borders-4/#propdef-box-shadow-blur
    /// syntax: <length [0,∞]>#
    /// initial: 0
    BoxShadowBlur,
    ///
    /// href: https://drafts.csswg.org/css-borders-4/#propdef-box-shadow-color
    /// syntax: <color>#
    /// initial: currentcolor
    BoxShadowColor,
    ///
    /// href: https://drafts.csswg.org/css-borders-4/#propdef-box-shadow-offset
    /// syntax: [ none | <length>{1,2} ]#
    /// initial: none
    BoxShadowOffset,
    ///
    /// href: https://drafts.csswg.org/css-borders-4/#propdef-box-shadow-position
    /// syntax: [ outset | inset ]#
    /// initial: outset
    BoxShadowPosition,
    ///
    /// href: https://drafts.csswg.org/css-borders-4/#propdef-box-shadow-spread
    /// syntax: <length>#
    /// initial: 0
    BoxShadowSpread,
    ///
    /// href: https://drafts.csswg.org/css-sizing-3/#propdef-box-sizing
    /// syntax: content-box | border-box
    /// initial: content-box
    BoxSizing,
    ///
    /// href: https://drafts.csswg.org/css-line-grid-1/#propdef-box-snap
    /// syntax: none | block-start | block-end | center | baseline | last-baseline
    /// initial: none
    /// inherited: yes
    BoxSnap,
    ///
    /// href: https://drafts.csswg.org/css-break-4/#propdef-break-after
    /// syntax: auto | avoid | always | all | avoid-page | page | left | right | recto | verso | avoid-column | column |
    /// avoid-region | region initial: auto
    BreakAfter,
    ///
    /// href: https://drafts.csswg.org/css-break-4/#propdef-break-before
    /// syntax: auto | avoid | always | all | avoid-page | page | left | right | recto | verso | avoid-column | column |
    /// avoid-region | region initial: auto
    BreakBefore,
    ///
    /// href: https://drafts.csswg.org/css-break-4/#propdef-break-inside
    /// syntax: auto | avoid | avoid-page | avoid-column | avoid-region
    /// initial: auto
    BreakInside,
    ///
    /// href: https://drafts.csswg.org/css-tables-3/#propdef-caption-side
    /// syntax: top | bottom
    /// initial: top
    /// inherited: yes
    CaptionSide,
    ///
    /// href: https://drafts.csswg.org/css-ui-4/#propdef-caret
    /// syntax: <'caret-color'> || <'caret-animation'> || <'caret-shape'>
    /// initial: auto
    /// inherited: yes
    /// longhands: [caret-color, caret-animation, caret-shape]
    Caret,
    ///
    /// href: https://drafts.csswg.org/css-ui-4/#propdef-caret-animation
    /// syntax: auto | manual
    /// initial: auto
    /// inherited: yes
    CaretAnimation,
    ///
    /// href: https://drafts.csswg.org/css-ui-4/#propdef-caret-color
    /// syntax: auto | <color> [auto | <color>]?
    /// initial: auto
    /// inherited: yes
    CaretColor,
    ///
    /// href: https://drafts.csswg.org/css-ui-4/#propdef-caret-shape
    /// syntax: auto | bar | block | underscore
    /// initial: auto
    /// inherited: yes
    CaretShape,
    ///
    /// href: https://drafts.csswg.org/css-page-floats-3/#propdef-clear
    /// syntax: inline-start | inline-end | block-start | block-end | left | right | top | bottom | both-inline |
    /// both-block | both | none initial: none
    Clear,
    ///
    /// href: https://drafts.csswg.org/css-masking-1/#propdef-clip
    /// syntax: <rect()> | auto
    /// initial: auto
    Clip,
    ///
    /// href: https://drafts.csswg.org/css-masking-1/#propdef-clip-path
    /// syntax: <clip-source> | [ <basic-shape> || <geometry-box> ] | none
    /// initial: none
    ClipPath,
    ///
    /// href: https://drafts.csswg.org/css-masking-1/#propdef-clip-rule
    /// syntax: nonzero | evenodd
    /// initial: nonzero
    /// inherited: yes
    ClipRule,
    ///
    /// href: https://drafts.csswg.org/css-color-4/#propdef-color
    /// syntax: <color>
    /// initial: CanvasText
    /// inherited: yes
    Color,
    ///
    /// href: https://drafts.csswg.org/css-color-adjust-1/#propdef-color-adjust
    /// syntax: <'print-color-adjust'>
    /// initial: see individual properties
    /// longhands: [print-color-adjust]
    ColorAdjust,
    ///
    /// href: https://w3c.github.io/svgwg/svg2-draft/painting.html#ColorInterpolationProperty
    /// syntax: auto | sRGB | linearRGB
    /// initial: sRGB
    /// inherited: yes
    ColorInterpolation,
    ///
    /// href: https://drafts.csswg.org/filter-effects-1/#propdef-color-interpolation-filters
    /// syntax: auto | sRGB | linearRGB
    /// initial: linearRGB
    /// inherited: yes
    ColorInterpolationFilters,
    ///
    /// href: https://drafts.csswg.org/css-color-adjust-1/#propdef-color-scheme
    /// syntax: normal | [ light | dark | <custom-ident> ]+ && only?
    /// initial: normal
    /// inherited: yes
    ColorScheme,
    ///
    /// href: https://drafts.csswg.org/css-multicol-2/#propdef-column-count
    /// syntax: auto | <integer [1,∞]>
    /// initial: auto
    ColumnCount,
    ///
    /// href: https://drafts.csswg.org/css-multicol-2/#propdef-column-fill
    /// syntax: auto | balance | balance-all
    /// initial: balance
    ColumnFill,
    ///
    /// href: https://drafts.csswg.org/css-gaps-1/#propdef-column-gap
    /// syntax: normal | <length-percentage [0,∞]> | <line-width>
    /// initial: normal
    ColumnGap,
    ///
    /// href: https://drafts.csswg.org/css-multicol-2/#propdef-column-height
    /// syntax: auto | <length [0,∞]>
    /// initial: auto
    ColumnHeight,
    ///
    /// href: https://drafts.csswg.org/css-gaps-1/#propdef-column-rule
    /// syntax: <gap-rule-list> | <gap-auto-rule-list>
    /// initial: see individual properties
    /// longhands: [column-rule-width, column-rule-style, column-rule-color]
    ColumnRule,
    ///
    /// href: https://drafts.csswg.org/css-gaps-1/#propdef-column-rule-break
    /// syntax: none | normal | intersection
    /// initial: normal
    ColumnRuleBreak,
    ///
    /// href: https://drafts.csswg.org/css-gaps-1/#propdef-column-rule-color
    /// syntax: <line-color-list> | <auto-line-color-list>
    /// initial: currentcolor
    ColumnRuleColor,
    ///
    /// href: https://drafts.csswg.org/css-gaps-1/#propdef-column-rule-inset
    /// syntax: <'column-rule-inset-cap'> [ / <'column-rule-inset-junction'> ]?
    /// initial: see individual properties
    /// longhands: [column-rule-inset-cap-start, column-rule-inset-cap-end, column-rule-inset-junction-start,
    /// column-rule-inset-junction-end]
    ColumnRuleInset,
    ///
    /// href: https://drafts.csswg.org/css-gaps-1/#propdef-column-rule-inset-cap
    /// syntax: <length-percentage> [ <length-percentage> ]?
    /// initial: see individual properties
    /// longhands: [column-rule-inset-cap-start, column-rule-inset-cap-end]
    ColumnRuleInsetCap,
    ///
    /// href: https://drafts.csswg.org/css-gaps-1/#propdef-column-rule-inset-cap-end
    /// syntax: <length-percentage>
    /// initial: 0
    ColumnRuleInsetCapEnd,
    ///
    /// href: https://drafts.csswg.org/css-gaps-1/#propdef-column-rule-inset-cap-start
    /// syntax: <length-percentage>
    /// initial: 0
    ColumnRuleInsetCapStart,
    ///
    /// href: https://drafts.csswg.org/css-gaps-1/#propdef-column-rule-inset-end
    /// syntax: <length-percentage>
    /// initial: see individual properties
    /// longhands: [column-rule-inset-cap-end, column-rule-inset-junction-end]
    ColumnRuleInsetEnd,
    ///
    /// href: https://drafts.csswg.org/css-gaps-1/#propdef-column-rule-inset-junction
    /// syntax: <length-percentage> [ <length-percentage> ]?
    /// initial: see individual properties
    /// longhands: [column-rule-inset-junction-start, column-rule-inset-junction-end]
    ColumnRuleInsetJunction,
    ///
    /// href: https://drafts.csswg.org/css-gaps-1/#propdef-column-rule-inset-junction-end
    /// syntax: <length-percentage>
    /// initial: 0
    ColumnRuleInsetJunctionEnd,
    ///
    /// href: https://drafts.csswg.org/css-gaps-1/#propdef-column-rule-inset-junction-start
    /// syntax: <length-percentage>
    /// initial: 0
    ColumnRuleInsetJunctionStart,
    ///
    /// href: https://drafts.csswg.org/css-gaps-1/#propdef-column-rule-inset-start
    /// syntax: <length-percentage>
    /// initial: see individual properties
    /// longhands: [column-rule-inset-cap-start, column-rule-inset-junction-start]
    ColumnRuleInsetStart,
    ///
    /// href: https://drafts.csswg.org/css-gaps-1/#propdef-column-rule-style
    /// syntax: <line-style-list> | <auto-line-style-list>
    /// initial: none
    ColumnRuleStyle,
    ///
    /// href: https://drafts.csswg.org/css-gaps-1/#propdef-column-rule-visibility-items
    /// syntax: all | around | between | normal
    /// initial: normal
    ColumnRuleVisibilityItems,
    ///
    /// href: https://drafts.csswg.org/css-gaps-1/#propdef-column-rule-width
    /// syntax: <line-width-list> | <auto-line-width-list>
    /// initial: medium
    ColumnRuleWidth,
    ///
    /// href: https://drafts.csswg.org/css-multicol-2/#propdef-column-span
    /// syntax: none | <integer [1,∞]> | all | auto
    /// initial: none
    ColumnSpan,
    ///
    /// href: https://drafts.csswg.org/css-multicol-2/#propdef-column-width
    /// syntax: auto | <length [0,∞]> | min-content | max-content | fit-content(<length-percentage>)
    /// initial: auto
    ColumnWidth,
    ///
    /// href: https://drafts.csswg.org/css-multicol-2/#propdef-column-wrap
    /// syntax: auto | nowrap | wrap
    /// initial: auto
    ColumnWrap,
    ///
    /// href: https://drafts.csswg.org/css-multicol-2/#propdef-columns
    /// syntax: [ <'column-width'> || <'column-count'> ] [ / <'column-height'> ]?
    /// initial: see individual properties
    /// longhands: [column-width, column-count, column-height]
    Columns,
    ///
    /// href: https://drafts.csswg.org/css-contain-2/#propdef-contain
    /// syntax: none | strict | content | [ [size | inline-size] || layout || style || paint ]
    /// initial: none
    Contain,
    ///
    /// href: https://drafts.csswg.org/css-sizing-4/#propdef-contain-intrinsic-block-size
    /// syntax: auto? [ none | <length [0,∞]> ]
    /// initial: none
    ContainIntrinsicBlockSize,
    ///
    /// href: https://drafts.csswg.org/css-sizing-4/#propdef-contain-intrinsic-height
    /// syntax: auto? [ none | <length [0,∞]> ]
    /// initial: none
    ContainIntrinsicHeight,
    ///
    /// href: https://drafts.csswg.org/css-sizing-4/#propdef-contain-intrinsic-inline-size
    /// syntax: auto? [ none | <length [0,∞]> ]
    /// initial: none
    ContainIntrinsicInlineSize,
    ///
    /// href: https://drafts.csswg.org/css-sizing-4/#propdef-contain-intrinsic-size
    /// syntax: [ auto? [ none | <length [0,∞]> ] ]{1,2}
    /// initial: see individual properties
    /// longhands: [contain-intrinsic-width, contain-intrinsic-height]
    ContainIntrinsicSize,
    ///
    /// href: https://drafts.csswg.org/css-sizing-4/#propdef-contain-intrinsic-width
    /// syntax: auto? [ none | <length [0,∞]> ]
    /// initial: none
    ContainIntrinsicWidth,
    ///
    /// href: https://drafts.csswg.org/css-conditional-5/#propdef-container
    /// syntax: <'container-name'> [ / <'container-type'> ]?
    /// initial: see individual properties
    /// longhands: [container-name, container-type]
    Container,
    ///
    /// href: https://drafts.csswg.org/css-conditional-5/#propdef-container-name
    /// syntax: none | <custom-ident>+
    /// initial: none
    ContainerName,
    ///
    /// href: https://drafts.csswg.org/css-conditional-5/#propdef-container-type
    /// syntax: normal | [ [ size | inline-size ] || scroll-state ]
    /// initial: normal
    ContainerType,
    ///
    /// href: https://drafts.csswg.org/css-content-3/#propdef-content
    /// syntax: normal | none | [ <content-replacement> | <content-list> ] [/ [ <string> | <counter> | <attr()> ]+ ]? |
    /// <element()> initial: normal
    Content,
    ///
    /// href: https://drafts.csswg.org/css-contain-2/#propdef-content-visibility
    /// syntax: visible | auto | hidden
    /// initial: visible
    ContentVisibility,
    ///
    /// href: https://drafts.csswg.org/css-overflow-4/#propdef-continue
    /// syntax: auto | discard | collapse | -webkit-legacy | overflow | paginate | fragments
    /// initial: auto
    Continue,
    ///
    /// href: https://drafts.csswg.org/css-gcpm-4/#propdef-copy-into
    /// syntax: none | [ [ <custom-ident> <content-level>] [, <custom-ident> <content-level>]* ]?
    /// initial: none
    CopyInto,
    ///
    /// href: https://drafts.csswg.org/css-borders-4/#propdef-corner
    /// syntax: <'border-radius'> || <'corner-shape'>
    /// initial: 0
    /// longhands: [border-radius, corner-shape]
    Corner,
    ///
    /// href: https://drafts.csswg.org/css-borders-4/#propdef-corner-block-end
    /// syntax: <'border-top-radius'> || <'corner-top-shape'>
    /// initial: 0
    /// longhands: [border-block-end-radius, corner-block-end-shape]
    CornerBlockEnd,
    ///
    /// href: https://drafts.csswg.org/css-borders-4/#propdef-corner-block-end-shape
    /// syntax: <'corner-top-left-shape'>{1,2}
    /// initial: see individual properties
    /// longhands: [corner-end-start-shape, corner-end-end-shape]
    CornerBlockEndShape,
    ///
    /// href: https://drafts.csswg.org/css-borders-4/#propdef-corner-block-start
    /// syntax: <'border-top-radius'> || <'corner-top-shape'>
    /// initial: 0
    /// longhands: [border-block-start-radius, corner-block-start-shape]
    CornerBlockStart,
    ///
    /// href: https://drafts.csswg.org/css-borders-4/#propdef-corner-block-start-shape
    /// syntax: <'corner-top-left-shape'>{1,2}
    /// initial: see individual properties
    /// longhands: [corner-start-start-shape, corner-start-end-shape]
    CornerBlockStartShape,
    ///
    /// href: https://drafts.csswg.org/css-borders-4/#propdef-corner-bottom
    /// syntax: <'border-top-radius'> || <'corner-top-shape'>
    /// initial: 0
    /// longhands: [border-bottom-radius, corner-bottom-shape]
    CornerBottom,
    ///
    /// href: https://drafts.csswg.org/css-borders-4/#propdef-corner-bottom-left
    /// syntax: <'border-top-left-radius'> || <'corner-top-left-shape'>
    /// initial: 0
    /// longhands: [border-bottom-left-radius, corner-bottom-left-shape]
    CornerBottomLeft,
    ///
    /// href: https://drafts.csswg.org/css-borders-4/#propdef-corner-bottom-left-shape
    /// syntax: <corner-shape-value>
    /// initial: round
    CornerBottomLeftShape,
    ///
    /// href: https://drafts.csswg.org/css-borders-4/#propdef-corner-bottom-right
    /// syntax: <'border-top-left-radius'> || <'corner-top-left-shape'>
    /// initial: 0
    /// longhands: [border-bottom-right-radius, corner-bottom-right-shape]
    CornerBottomRight,
    ///
    /// href: https://drafts.csswg.org/css-borders-4/#propdef-corner-bottom-right-shape
    /// syntax: <corner-shape-value>
    /// initial: round
    CornerBottomRightShape,
    ///
    /// href: https://drafts.csswg.org/css-borders-4/#propdef-corner-bottom-shape
    /// syntax: <'corner-top-left-shape'>{1,2}
    /// initial: see individual properties
    /// longhands: [corner-bottom-left-shape, corner-bottom-right-shape]
    CornerBottomShape,
    ///
    /// href: https://drafts.csswg.org/css-borders-4/#propdef-corner-end-end
    /// syntax: <'border-top-left-radius'> || <'corner-top-left-shape'>
    /// initial: 0
    /// longhands: [border-end-end-radius, corner-end-end-shape]
    CornerEndEnd,
    ///
    /// href: https://drafts.csswg.org/css-borders-4/#propdef-corner-end-end-shape
    /// syntax: <corner-shape-value>
    /// initial: round
    CornerEndEndShape,
    ///
    /// href: https://drafts.csswg.org/css-borders-4/#propdef-corner-end-start
    /// syntax: <'border-top-left-radius'> || <'corner-top-left-shape'>
    /// initial: 0
    /// longhands: [border-end-start-radius, corner-end-start-shape]
    CornerEndStart,
    ///
    /// href: https://drafts.csswg.org/css-borders-4/#propdef-corner-end-start-shape
    /// syntax: <corner-shape-value>
    /// initial: round
    CornerEndStartShape,
    ///
    /// href: https://drafts.csswg.org/css-borders-4/#propdef-corner-inline-end
    /// syntax: <'border-top-radius'> || <'corner-top-shape'>
    /// initial: 0
    /// longhands: [border-inline-end-radius, corner-inline-end-shape]
    CornerInlineEnd,
    ///
    /// href: https://drafts.csswg.org/css-borders-4/#propdef-corner-inline-end-shape
    /// syntax: <'corner-top-left-shape'>{1,2}
    /// initial: see individual properties
    /// longhands: [corner-start-end-shape, corner-end-end-shape]
    CornerInlineEndShape,
    ///
    /// href: https://drafts.csswg.org/css-borders-4/#propdef-corner-inline-start
    /// syntax: <'border-top-radius'> || <'corner-top-shape'>
    /// initial: 0
    /// longhands: [border-inline-start-radius, corner-inline-start-shape]
    CornerInlineStart,
    ///
    /// href: https://drafts.csswg.org/css-borders-4/#propdef-corner-inline-start-shape
    /// syntax: <'corner-top-left-shape'>{1,2}
    /// initial: see individual properties
    /// longhands: [corner-start-start-shape, corner-end-start-shape]
    CornerInlineStartShape,
    ///
    /// href: https://drafts.csswg.org/css-borders-4/#propdef-corner-left
    /// syntax: <'border-top-radius'> || <'corner-top-shape'>
    /// initial: 0
    /// longhands: [border-left-radius, corner-left-shape]
    CornerLeft,
    ///
    /// href: https://drafts.csswg.org/css-borders-4/#propdef-corner-left-shape
    /// syntax: <'corner-top-left-shape'>{1,2}
    /// initial: see individual properties
    /// longhands: [corner-top-left-shape, corner-bottom-left-shape]
    CornerLeftShape,
    ///
    /// href: https://drafts.csswg.org/css-borders-4/#propdef-corner-right
    /// syntax: <'border-top-radius'> || <'corner-top-shape'>
    /// initial: 0
    /// longhands: [border-right-radius, corner-right-shape]
    CornerRight,
    ///
    /// href: https://drafts.csswg.org/css-borders-4/#propdef-corner-right-shape
    /// syntax: <'corner-top-left-shape'>{1,2}
    /// initial: see individual properties
    /// longhands: [corner-top-right-shape, corner-bottom-right-shape]
    CornerRightShape,
    ///
    /// href: https://drafts.csswg.org/css-borders-4/#propdef-corner-shape
    /// syntax: <'corner-top-left-shape'>{1,4}
    /// initial: round
    /// longhands: [corner-top-left-shape, corner-top-right-shape, corner-bottom-right-shape, corner-bottom-left-shape]
    CornerShape,
    ///
    /// href: https://drafts.csswg.org/css-borders-4/#propdef-corner-start-end
    /// syntax: <'border-top-left-radius'> || <'corner-top-left-shape'>
    /// initial: 0
    /// longhands: [border-start-end-radius, corner-start-end-shape]
    CornerStartEnd,
    ///
    /// href: https://drafts.csswg.org/css-borders-4/#propdef-corner-start-end-shape
    /// syntax: <corner-shape-value>
    /// initial: round
    CornerStartEndShape,
    ///
    /// href: https://drafts.csswg.org/css-borders-4/#propdef-corner-start-start
    /// syntax: <'border-top-left-radius'> || <'corner-top-left-shape'>
    /// initial: 0
    /// longhands: [border-start-start-radius, corner-start-start-shape]
    CornerStartStart,
    ///
    /// href: https://drafts.csswg.org/css-borders-4/#propdef-corner-start-start-shape
    /// syntax: <corner-shape-value>
    /// initial: round
    CornerStartStartShape,
    ///
    /// href: https://drafts.csswg.org/css-borders-4/#propdef-corner-top
    /// syntax: <'border-top-radius'> || <'corner-top-shape'>
    /// initial: 0
    /// longhands: [border-top-radius, corner-top-shape]
    CornerTop,
    ///
    /// href: https://drafts.csswg.org/css-borders-4/#propdef-corner-top-left
    /// syntax: <'border-top-left-radius'> || <'corner-top-left-shape'>
    /// initial: 0
    /// longhands: [border-top-left-radius, corner-top-left-shape]
    CornerTopLeft,
    ///
    /// href: https://drafts.csswg.org/css-borders-4/#propdef-corner-top-left-shape
    /// syntax: <corner-shape-value>
    /// initial: round
    CornerTopLeftShape,
    ///
    /// href: https://drafts.csswg.org/css-borders-4/#propdef-corner-top-right
    /// syntax: <'border-top-left-radius'> || <'corner-top-left-shape'>
    /// initial: 0
    /// longhands: [border-top-right-radius, corner-top-right-shape]
    CornerTopRight,
    ///
    /// href: https://drafts.csswg.org/css-borders-4/#propdef-corner-top-right-shape
    /// syntax: <corner-shape-value>
    /// initial: round
    CornerTopRightShape,
    ///
    /// href: https://drafts.csswg.org/css-borders-4/#propdef-corner-top-shape
    /// syntax: <'corner-top-left-shape'>{1,2}
    /// initial: see individual properties
    /// longhands: [corner-top-left-shape, corner-top-right-shape]
    CornerTopShape,
    ///
    /// href: https://drafts.csswg.org/css-lists-3/#propdef-counter-increment
    /// syntax: [ <counter-name> <integer>? ]+ | none
    /// initial: none
    CounterIncrement,
    ///
    /// href: https://drafts.csswg.org/css-lists-3/#propdef-counter-reset
    /// syntax: [ <counter-name> <integer>? | <reversed-counter-name> <integer>? ]+ | none
    /// initial: none
    CounterReset,
    ///
    /// href: https://drafts.csswg.org/css-lists-3/#propdef-counter-set
    /// syntax: [ <counter-name> <integer>? ]+ | none
    /// initial: none
    CounterSet,
    ///
    /// href: https://drafts.csswg.org/css-speech-1/#propdef-cue
    /// syntax: <'cue-before'> <'cue-after'>?
    /// initial: see individual properties
    /// longhands: [cue-before, cue-after]
    Cue,
    ///
    /// href: https://drafts.csswg.org/css-speech-1/#propdef-cue-after
    /// syntax: <url> <decibel>? | none
    /// initial: none
    CueAfter,
    ///
    /// href: https://drafts.csswg.org/css-speech-1/#propdef-cue-before
    /// syntax: <url> <decibel>? | none
    /// initial: none
    CueBefore,
    ///
    /// href: https://drafts.csswg.org/css-ui-4/#propdef-cursor
    /// syntax: [<cursor-image>,]* <cursor-predefined>
    /// initial: auto
    /// inherited: yes
    Cursor,
    ///
    /// href: https://w3c.github.io/svgwg/svg2-draft/geometry.html#CxProperty
    /// syntax: <length-percentage>
    /// initial: 0
    Cx,
    ///
    /// href: https://w3c.github.io/svgwg/svg2-draft/geometry.html#CyProperty
    /// syntax: <length-percentage>
    /// initial: 0
    Cy,
    ///
    /// href: https://w3c.github.io/svgwg/svg2-draft/paths.html#DProperty
    /// syntax: none | <string>
    /// initial: none
    D,
    ///
    /// href: https://drafts.csswg.org/css-writing-modes-4/#propdef-direction
    /// syntax: ltr | rtl
    /// initial: ltr
    /// inherited: yes
    Direction,
    ///
    /// href: https://drafts.csswg.org/css-display-4/#propdef-display
    /// syntax: [ <display-outside> || <display-inside> ] | <display-listitem> | <display-internal> | <display-box> |
    /// <display-legacy> | grid-lanes | inline-grid-lanes | <display-outside> || [ <display-inside> | math ]
    /// initial: inline
    Display,
    ///
    /// href: https://drafts.csswg.org/css-inline-3/#propdef-dominant-baseline
    /// syntax: auto | <baseline-metric>
    /// initial: auto
    /// inherited: yes
    DominantBaseline,
    ///
    /// href: https://drafts.csswg.org/css-color-hdr-1/#propdef-dynamic-range-limit
    /// syntax: standard | no-limit | constrained | <dynamic-range-limit-mix()>
    /// initial: no-limit
    /// inherited: yes
    DynamicRangeLimit,
    ///
    /// href: https://drafts.csswg.org/css-tables-3/#propdef-empty-cells
    /// syntax: show | hide
    /// initial: show
    /// inherited: yes
    EmptyCells,
    ///
    /// href: https://drafts.csswg.org/animation-triggers-1/#propdef-event-trigger
    /// syntax: none | [ <'event-trigger-name'> <'event-trigger-source'> ]#
    /// initial: none
    EventTrigger,
    ///
    /// href: https://drafts.csswg.org/animation-triggers-1/#propdef-event-trigger-name
    /// syntax: none | <dashed-ident>#
    /// initial: none
    EventTriggerName,
    ///
    /// href: https://drafts.csswg.org/animation-triggers-1/#propdef-event-trigger-source
    /// syntax: [ none | <event-trigger-event>+ [ / <event-trigger-event>+ ]? ]#
    /// initial: none
    EventTriggerSource,
    ///
    /// href: https://drafts.csswg.org/css-forms-1/#propdef-field-sizing
    /// syntax: fixed | content
    /// initial: fixed
    FieldSizing,
    ///
    /// href: https://w3c.github.io/svgwg/svg2-draft/painting.html#FillProperty
    /// syntax: <paint>
    /// initial: black
    /// inherited: yes
    Fill,
    ///
    /// href: https://drafts.csswg.org/fill-stroke-3/#propdef-fill-break
    /// syntax: bounding-box | slice | clone
    /// initial: bounding-box
    FillBreak,
    ///
    /// href: https://drafts.csswg.org/fill-stroke-3/#propdef-fill-color
    /// syntax: <color>
    /// initial: currentcolor
    /// inherited: yes
    FillColor,
    ///
    /// href: https://drafts.csswg.org/fill-stroke-3/#propdef-fill-image
    /// syntax: <paint>#
    /// initial: none
    /// inherited: yes
    FillImage,
    ///
    /// href: https://drafts.csswg.org/fill-stroke-3/#propdef-fill-opacity
    /// syntax: <'opacity'>
    /// initial: 1
    /// inherited: yes
    FillOpacity,
    ///
    /// href: https://drafts.csswg.org/fill-stroke-3/#propdef-fill-origin
    /// syntax: match-parent | fill-box | stroke-box | content-box | padding-box | border-box
    /// initial: match-parent
    FillOrigin,
    ///
    /// href: https://drafts.csswg.org/fill-stroke-3/#propdef-fill-position
    /// syntax: <position>#
    /// initial: 0% 0%
    /// inherited: yes
    FillPosition,
    ///
    /// href: https://drafts.csswg.org/fill-stroke-3/#propdef-fill-repeat
    /// syntax: <repeat-style>#
    /// initial: repeat
    /// inherited: yes
    FillRepeat,
    ///
    /// href: https://drafts.csswg.org/fill-stroke-3/#propdef-fill-rule
    /// syntax: nonzero | evenodd
    /// initial: nonzero
    /// inherited: yes
    FillRule,
    ///
    /// href: https://drafts.csswg.org/fill-stroke-3/#propdef-fill-size
    /// syntax: <bg-size>#
    /// initial: auto
    /// inherited: yes
    FillSize,
    ///
    /// href: https://drafts.csswg.org/filter-effects-1/#propdef-filter
    /// syntax: none | <filter-value-list>
    /// initial: none
    Filter,
    ///
    /// href: https://drafts.csswg.org/css-flexbox-1/#propdef-flex
    /// syntax: none | [ <'flex-grow'> <'flex-shrink'>? || <'flex-basis'> ]
    /// initial: 0 1 auto
    /// longhands: [flex-grow, flex-shrink, flex-basis]
    Flex,
    ///
    /// href: https://drafts.csswg.org/css-flexbox-1/#propdef-flex-basis
    /// syntax: content | <'width'>
    /// initial: auto
    FlexBasis,
    ///
    /// href: https://drafts.csswg.org/css-flexbox-1/#propdef-flex-direction
    /// syntax: row | row-reverse | column | column-reverse
    /// initial: row
    FlexDirection,
    ///
    /// href: https://drafts.csswg.org/css-flexbox-1/#propdef-flex-flow
    /// syntax: <'flex-direction'> || <'flex-wrap'>
    /// initial: see individual properties
    /// longhands: [flex-direction, flex-wrap]
    FlexFlow,
    ///
    /// href: https://drafts.csswg.org/css-flexbox-1/#propdef-flex-grow
    /// syntax: <number [0,∞]>
    /// initial: 0
    FlexGrow,
    ///
    /// href: https://drafts.csswg.org/css-flexbox-1/#propdef-flex-shrink
    /// syntax: <number [0,∞]>
    /// initial: 1
    FlexShrink,
    ///
    /// href: https://drafts.csswg.org/css-flexbox-1/#propdef-flex-wrap
    /// syntax: nowrap | wrap | wrap-reverse
    /// initial: nowrap
    FlexWrap,
    ///
    /// href: https://drafts.csswg.org/css-page-floats-3/#propdef-float
    /// syntax: block-start | block-end | inline-start | inline-end | snap-block | <snap-block()> | snap-inline |
    /// <snap-inline()> | left | right | top | bottom | none | footnote initial: none
    Float,
    ///
    /// href: https://drafts.csswg.org/css-page-floats-3/#propdef-float-defer
    /// syntax: <integer> | last | none
    /// initial: none
    FloatDefer,
    ///
    /// href: https://drafts.csswg.org/css-page-floats-3/#propdef-float-offset
    /// syntax: <length-percentage>
    /// initial: 0
    FloatOffset,
    ///
    /// href: https://drafts.csswg.org/css-page-floats-3/#propdef-float-reference
    /// syntax: inline | column | region | page
    /// initial: inline
    FloatReference,
    ///
    /// href: https://drafts.csswg.org/filter-effects-1/#propdef-flood-color
    /// syntax: <color>
    /// initial: black
    FloodColor,
    ///
    /// href: https://drafts.csswg.org/filter-effects-1/#propdef-flood-opacity
    /// syntax: <'opacity'>
    /// initial: 1
    FloodOpacity,
    ///
    /// href: https://drafts.csswg.org/css-regions-1/#propdef-flow-from
    /// syntax: <custom-ident> | none
    /// initial: none
    FlowFrom,
    ///
    /// href: https://drafts.csswg.org/css-regions-1/#propdef-flow-into
    /// syntax: none | <custom-ident> [element | content]?
    /// initial: none
    FlowInto,
    ///
    /// href: https://drafts.csswg.org/css-grid-3/#propdef-flow-tolerance
    /// syntax: normal | <length-percentage> | infinite
    /// initial: normal
    FlowTolerance,
    ///
    /// href: https://drafts.csswg.org/css-fonts-4/#propdef-font
    /// syntax: [ [ <'font-style'> || <font-variant-css2> || <'font-weight'> || <font-width-css3> ]? <'font-size'> [ /
    /// <'line-height'> ]? <'font-family'># ] | <system-font-family-name> initial: see individual properties
    /// inherited: yes
    /// longhands: [font-style, font-variant, font-weight, font-stretch, font-size, line-height, font-family]
    Font,
    ///
    /// href: https://drafts.csswg.org/css-fonts-4/#propdef-font-family
    /// syntax: [ <font-family-name> | <generic-font-family> ]#
    /// initial: depends on user agent
    /// inherited: yes
    FontFamily,
    ///
    /// href: https://drafts.csswg.org/css-fonts-4/#propdef-font-feature-settings
    /// syntax: normal | <feature-tag-value>#
    /// initial: normal
    /// inherited: yes
    FontFeatureSettings,
    ///
    /// href: https://drafts.csswg.org/css-fonts-4/#propdef-font-kerning
    /// syntax: auto | normal | none
    /// initial: auto
    /// inherited: yes
    FontKerning,
    ///
    /// href: https://drafts.csswg.org/css-fonts-4/#propdef-font-language-override
    /// syntax: normal | <string>
    /// initial: normal
    /// inherited: yes
    FontLanguageOverride,
    ///
    /// href: https://drafts.csswg.org/css-fonts-4/#propdef-font-optical-sizing
    /// syntax: auto | none
    /// initial: auto
    /// inherited: yes
    FontOpticalSizing,
    ///
    /// href: https://drafts.csswg.org/css-fonts-4/#propdef-font-palette
    /// syntax: normal | light | dark | <palette-identifier> | <palette-mix()>
    /// initial: normal
    /// inherited: yes
    FontPalette,
    ///
    /// href: https://drafts.csswg.org/css-fonts-4/#propdef-font-size
    /// syntax: <absolute-size> | <relative-size> | <length-percentage [0,∞]> | math
    /// initial: medium
    /// inherited: yes
    FontSize,
    ///
    /// href: https://drafts.csswg.org/css-fonts-5/#propdef-font-size-adjust
    /// syntax: none | [ ex-height | cap-height | ch-width | ic-width | ic-height ]? [ from-font | <number [0,∞]> ]
    /// initial: none
    /// inherited: yes
    FontSizeAdjust,
    ///
    /// href: https://drafts.csswg.org/css-fonts-4/#propdef-font-stretch
    /// syntax: normal | <percentage [0,∞]> | ultra-condensed | extra-condensed | condensed | semi-condensed |
    /// semi-expanded | expanded | extra-expanded | ultra-expanded legacy_alias_of: font-width
    FontStretch,
    ///
    /// href: https://drafts.csswg.org/css-fonts-4/#propdef-font-style
    /// syntax: normal | italic | left | right | oblique <angle [-90deg,90deg]>?
    /// initial: normal
    /// inherited: yes
    FontStyle,
    ///
    /// href: https://drafts.csswg.org/css-fonts-4/#propdef-font-synthesis
    /// syntax: none | [ weight || style || small-caps || position]
    /// initial: weight style small-caps position
    /// inherited: yes
    /// longhands: [font-synthesis-weight, font-synthesis-style, font-synthesis-small-caps]
    FontSynthesis,
    ///
    /// href: https://drafts.csswg.org/css-fonts-4/#propdef-font-synthesis-position
    /// syntax: auto | none
    /// initial: auto
    /// inherited: yes
    FontSynthesisPosition,
    ///
    /// href: https://drafts.csswg.org/css-fonts-4/#propdef-font-synthesis-small-caps
    /// syntax: auto | none
    /// initial: auto
    /// inherited: yes
    FontSynthesisSmallCaps,
    ///
    /// href: https://drafts.csswg.org/css-fonts-4/#propdef-font-synthesis-style
    /// syntax: auto | none | oblique-only
    /// initial: auto
    /// inherited: yes
    FontSynthesisStyle,
    ///
    /// href: https://drafts.csswg.org/css-fonts-4/#propdef-font-synthesis-weight
    /// syntax: auto | none
    /// initial: auto
    /// inherited: yes
    FontSynthesisWeight,
    ///
    /// href: https://drafts.csswg.org/css-fonts-4/#propdef-font-variant
    /// syntax: normal | none | [ [ <common-lig-values> || <discretionary-lig-values> || <historical-lig-values> ||
    /// <contextual-alt-values> ] || [ small-caps | all-small-caps | petite-caps | all-petite-caps | unicase |
    /// titling-caps ] || [ stylistic(<font-feature-value-name>) || historical-forms ||
    /// styleset(<font-feature-value-name>#) || character-variant(<font-feature-value-name>#) ||
    /// swash(<font-feature-value-name>) || ornaments(<font-feature-value-name>) || annotation(<font-feature-value-name>)
    /// ] || [ <numeric-figure-values> || <numeric-spacing-values> || <numeric-fraction-values> || ordinal || slashed-zero
    /// ] || [ <east-asian-variant-values> || <east-asian-width-values> || ruby ] || [ sub | super ] || [ text | emoji |
    /// unicode ] ] initial: normal
    /// inherited: yes
    /// longhands: [font-variant-ligatures, font-variant-caps, font-variant-alternates, font-variant-numeric,
    /// font-variant-east-asian, font-variant-position, font-variant-emoji]
    FontVariant,
    ///
    /// href: https://drafts.csswg.org/css-fonts-4/#propdef-font-variant-alternates
    /// syntax: normal | [ stylistic(<font-feature-value-name>) || historical-forms ||
    /// styleset(<font-feature-value-name>#) || character-variant(<font-feature-value-name>#) ||
    /// swash(<font-feature-value-name>) || ornaments(<font-feature-value-name>) || annotation(<font-feature-value-name>)
    /// ] initial: normal
    /// inherited: yes
    FontVariantAlternates,
    ///
    /// href: https://drafts.csswg.org/css-fonts-4/#propdef-font-variant-caps
    /// syntax: normal | small-caps | all-small-caps | petite-caps | all-petite-caps | unicase | titling-caps
    /// initial: normal
    /// inherited: yes
    FontVariantCaps,
    ///
    /// href: https://drafts.csswg.org/css-fonts-4/#propdef-font-variant-east-asian
    /// syntax: normal | [ <east-asian-variant-values> || <east-asian-width-values> || ruby ]
    /// initial: normal
    /// inherited: yes
    FontVariantEastAsian,
    ///
    /// href: https://drafts.csswg.org/css-fonts-4/#propdef-font-variant-emoji
    /// syntax: normal | text | emoji | unicode
    /// initial: normal
    /// inherited: yes
    FontVariantEmoji,
    ///
    /// href: https://drafts.csswg.org/css-fonts-4/#propdef-font-variant-ligatures
    /// syntax: normal | none | [ <common-lig-values> || <discretionary-lig-values> || <historical-lig-values> ||
    /// <contextual-alt-values> ] initial: normal
    /// inherited: yes
    FontVariantLigatures,
    ///
    /// href: https://drafts.csswg.org/css-fonts-4/#propdef-font-variant-numeric
    /// syntax: normal | [ <numeric-figure-values> || <numeric-spacing-values> || <numeric-fraction-values> || ordinal ||
    /// slashed-zero ] initial: normal
    /// inherited: yes
    FontVariantNumeric,
    ///
    /// href: https://drafts.csswg.org/css-fonts-4/#propdef-font-variant-position
    /// syntax: normal | sub | super
    /// initial: normal
    /// inherited: yes
    FontVariantPosition,
    ///
    /// href: https://drafts.csswg.org/css-fonts-4/#propdef-font-variation-settings
    /// syntax: normal | [ <opentype-tag> <number> ]#
    /// initial: normal
    /// inherited: yes
    FontVariationSettings,
    ///
    /// href: https://drafts.csswg.org/css-fonts-4/#propdef-font-weight
    /// syntax: <font-weight-absolute> | bolder | lighter
    /// initial: normal
    /// inherited: yes
    FontWeight,
    ///
    /// href: https://drafts.csswg.org/css-fonts-4/#propdef-font-width
    /// syntax: normal | <percentage [0,∞]> | ultra-condensed | extra-condensed | condensed | semi-condensed |
    /// semi-expanded | expanded | extra-expanded | ultra-expanded initial: normal
    /// inherited: yes
    FontWidth,
    ///
    /// href: https://drafts.csswg.org/css-gcpm-3/#propdef-footnote-display
    /// syntax: block | inline | compact
    /// initial: block
    FootnoteDisplay,
    ///
    /// href: https://drafts.csswg.org/css-gcpm-3/#propdef-footnote-policy
    /// syntax: auto | line | block
    /// initial: auto
    FootnotePolicy,
    ///
    /// href: https://drafts.csswg.org/css-color-adjust-1/#propdef-forced-color-adjust
    /// syntax: auto | none | preserve-parent-color
    /// initial: auto
    /// inherited: yes
    ForcedColorAdjust,
    ///
    /// href: https://drafts.csswg.org/css-sizing-4/#propdef-frame-sizing
    /// syntax: auto | content-width | content-height | content-block-size | content-inline-size
    /// initial: auto
    FrameSizing,
    ///
    /// href: https://drafts.csswg.org/css-gaps-1/#propdef-gap
    /// syntax: <'row-gap'> <'column-gap'>?
    /// initial: see individual properties
    /// longhands: [row-gap, column-gap]
    Gap,
    ///
    /// href: https://drafts.csswg.org/css-writing-modes-4/#propdef-glyph-orientation-vertical
    /// syntax: auto | 0deg | 90deg | 0 | 90
    /// initial: n/a
    GlyphOrientationVertical,
    ///
    /// href: https://drafts.csswg.org/css-grid-2/#propdef-grid
    /// syntax: <'grid-template'> | <'grid-template-rows'> / [ auto-flow && dense? ] <'grid-auto-columns'>? | [ auto-flow
    /// && dense? ] <'grid-auto-rows'>? / <'grid-template-columns'> initial: none
    /// longhands: [grid-template-rows, grid-template-columns, grid-template-areas, grid-auto-rows, grid-auto-columns,
    /// grid-auto-flow]
    Grid,
    ///
    /// href: https://drafts.csswg.org/css-grid-2/#propdef-grid-area
    /// syntax: <grid-line> [ / <grid-line> ]{0,3}
    /// initial: auto
    /// longhands: [grid-row-start, grid-column-start, grid-row-end, grid-column-end]
    GridArea,
    ///
    /// href: https://drafts.csswg.org/css-grid-2/#propdef-grid-auto-columns
    /// syntax: <track-size>+
    /// initial: auto
    GridAutoColumns,
    ///
    /// href: https://drafts.csswg.org/css-grid-2/#propdef-grid-auto-flow
    /// syntax: [ row | column ] || dense
    /// initial: row
    GridAutoFlow,
    ///
    /// href: https://drafts.csswg.org/css-grid-2/#propdef-grid-auto-rows
    /// syntax: <track-size>+
    /// initial: auto
    GridAutoRows,
    ///
    /// href: https://drafts.csswg.org/css-grid-2/#propdef-grid-column
    /// syntax: <grid-line> [ / <grid-line> ]?
    /// initial: auto
    /// longhands: [grid-column-start, grid-column-end]
    GridColumn,
    ///
    /// href: https://drafts.csswg.org/css-grid-2/#propdef-grid-column-end
    /// syntax: <grid-line>
    /// initial: auto
    GridColumnEnd,
    ///
    /// href: https://drafts.csswg.org/css-gaps-1/#propdef-grid-column-gap
    /// syntax: normal | <length-percentage [0,∞]> | <line-width>
    /// legacy_alias_of: column-gap
    GridColumnGap,
    ///
    /// href: https://drafts.csswg.org/css-grid-2/#propdef-grid-column-start
    /// syntax: <grid-line>
    /// initial: auto
    GridColumnStart,
    ///
    /// href: https://drafts.csswg.org/css-gaps-1/#propdef-grid-gap
    /// syntax: <'row-gap'> <'column-gap'>?
    /// longhands: [row-gap, column-gap]
    /// legacy_alias_of: gap
    GridGap,
    ///
    /// href: https://drafts.csswg.org/css-grid-2/#propdef-grid-row
    /// syntax: <grid-line> [ / <grid-line> ]?
    /// initial: auto
    /// longhands: [grid-row-start, grid-row-end]
    GridRow,
    ///
    /// href: https://drafts.csswg.org/css-grid-2/#propdef-grid-row-end
    /// syntax: <grid-line>
    /// initial: auto
    GridRowEnd,
    ///
    /// href: https://drafts.csswg.org/css-gaps-1/#propdef-grid-row-gap
    /// syntax: normal | <length-percentage [0,∞]> | <line-width>
    /// legacy_alias_of: row-gap
    GridRowGap,
    ///
    /// href: https://drafts.csswg.org/css-grid-2/#propdef-grid-row-start
    /// syntax: <grid-line>
    /// initial: auto
    GridRowStart,
    ///
    /// href: https://drafts.csswg.org/css-grid-2/#propdef-grid-template
    /// syntax: none | [ <'grid-template-rows'> / <'grid-template-columns'> ] | [ <line-names>? <string> <track-size>?
    /// <line-names>? ]+ [ / <explicit-track-list> ]? initial: none
    /// longhands: [grid-template-rows, grid-template-columns, grid-template-areas]
    GridTemplate,
    ///
    /// href: https://drafts.csswg.org/css-grid-2/#propdef-grid-template-areas
    /// syntax: none | <string>+
    /// initial: none
    GridTemplateAreas,
    ///
    /// href: https://drafts.csswg.org/css-grid-2/#propdef-grid-template-columns
    /// syntax: none | <track-list> | <auto-track-list> | subgrid <line-name-list>?
    /// initial: none
    GridTemplateColumns,
    ///
    /// href: https://drafts.csswg.org/css-grid-2/#propdef-grid-template-rows
    /// syntax: none | <track-list> | <auto-track-list> | subgrid <line-name-list>?
    /// initial: none
    GridTemplateRows,
    ///
    /// href: https://drafts.csswg.org/css-text-4/#propdef-hanging-punctuation
    /// syntax: none | [ first || [ force-end | allow-end ] || last ]
    /// initial: none
    /// inherited: yes
    HangingPunctuation,
    ///
    /// href: https://drafts.csswg.org/css-sizing-3/#propdef-height
    /// syntax: auto | <length-percentage [0,∞]> | min-content | max-content | fit-content(<length-percentage [0,∞]>) |
    /// <calc-size()> | <anchor-size()> | stretch | fit-content | contain initial: auto
    Height,
    ///
    /// href: https://drafts.csswg.org/css-text-4/#propdef-hyphenate-character
    /// syntax: auto | <string>
    /// initial: auto
    /// inherited: yes
    HyphenateCharacter,
    ///
    /// href: https://drafts.csswg.org/css-text-4/#propdef-hyphenate-limit-chars
    /// syntax: [ auto | <integer> ]{1,3}
    /// initial: auto
    /// inherited: yes
    HyphenateLimitChars,
    ///
    /// href: https://drafts.csswg.org/css-text-4/#propdef-hyphenate-limit-last
    /// syntax: none | always | column | page | spread
    /// initial: none
    /// inherited: yes
    HyphenateLimitLast,
    ///
    /// href: https://drafts.csswg.org/css-text-4/#propdef-hyphenate-limit-lines
    /// syntax: no-limit | <integer>
    /// initial: no-limit
    /// inherited: yes
    HyphenateLimitLines,
    ///
    /// href: https://drafts.csswg.org/css-text-4/#propdef-hyphenate-limit-zone
    /// syntax: <length-percentage>
    /// initial: 0
    /// inherited: yes
    HyphenateLimitZone,
    ///
    /// href: https://drafts.csswg.org/css-text-4/#propdef-hyphens
    /// syntax: none | manual | auto
    /// initial: manual
    /// inherited: yes
    Hyphens,
    ///
    /// href: https://drafts.csswg.org/css-image-animation-1/#propdef-image-animation
    /// syntax: normal | paused | stopped | running
    /// initial: normal
    /// inherited: yes
    ImageAnimation,
    ///
    /// href: https://drafts.csswg.org/css-images-3/#propdef-image-orientation
    /// syntax: from-image | none | [ <angle> || flip ]
    /// initial: from-image
    /// inherited: yes
    ImageOrientation,
    ///
    /// href: https://drafts.csswg.org/css-images-3/#propdef-image-rendering
    /// syntax: auto | smooth | high-quality | pixelated | crisp-edges
    /// initial: auto
    /// inherited: yes
    ImageRendering,
    ///
    /// href: https://drafts.csswg.org/css-images-4/#propdef-image-resolution
    /// syntax: [ from-image || <resolution> ] && snap?
    /// initial: 1dppx
    /// inherited: yes
    ImageResolution,
    ///
    /// href: https://drafts.csswg.org/css-inline-3/#propdef-initial-letter
    /// syntax: normal | <number [1,∞]> <integer [1,∞]> | <number [1,∞]> && [ drop | raise ]?
    /// initial: normal
    InitialLetter,
    ///
    /// href: https://drafts.csswg.org/css-inline-3/#propdef-initial-letter-align
    /// syntax: [ border-box? [ alphabetic | ideographic | hanging | leading ]? ]!
    /// initial: alphabetic
    /// inherited: yes
    InitialLetterAlign,
    ///
    /// href: https://drafts.csswg.org/css-inline-3/#propdef-initial-letter-wrap
    /// syntax: none | first | all | grid | <length-percentage>
    /// initial: none
    /// inherited: yes
    InitialLetterWrap,
    ///
    /// href: https://drafts.csswg.org/css-logical-1/#propdef-inline-size
    /// syntax: <'width'>
    /// initial: auto
    InlineSize,
    ///
    /// href: https://drafts.csswg.org/css-inline-3/#propdef-inline-sizing
    /// syntax: normal | stretch
    /// initial: normal
    /// inherited: yes
    InlineSizing,
    ///
    /// href: https://drafts.csswg.org/css-forms-1/#propdef-input-security
    /// syntax: auto | none
    /// initial: auto
    InputSecurity,
    ///
    /// href: https://drafts.csswg.org/css-position-3/#propdef-inset
    /// syntax: <'top'>{1,4}
    /// initial: auto
    /// longhands: [top, right, bottom, left]
    Inset,
    ///
    /// href: https://drafts.csswg.org/css-position-3/#propdef-inset-block
    /// syntax: <'top'>{1,2}
    /// initial: auto
    /// longhands: [inset-block-start, inset-block-end]
    InsetBlock,
    ///
    /// href: https://drafts.csswg.org/css-position-3/#propdef-inset-block-end
    /// syntax: auto | <length-percentage>
    /// initial: auto
    InsetBlockEnd,
    ///
    /// href: https://drafts.csswg.org/css-position-3/#propdef-inset-block-start
    /// syntax: auto | <length-percentage>
    /// initial: auto
    InsetBlockStart,
    ///
    /// href: https://drafts.csswg.org/css-position-3/#propdef-inset-inline
    /// syntax: <'top'>{1,2}
    /// initial: auto
    /// longhands: [inset-inline-start, inset-inline-end]
    InsetInline,
    ///
    /// href: https://drafts.csswg.org/css-position-3/#propdef-inset-inline-end
    /// syntax: auto | <length-percentage>
    /// initial: auto
    InsetInlineEnd,
    ///
    /// href: https://drafts.csswg.org/css-position-3/#propdef-inset-inline-start
    /// syntax: auto | <length-percentage>
    /// initial: auto
    InsetInlineStart,
    ///
    /// href: https://drafts.csswg.org/css-ui-4/#propdef-interactivity
    /// syntax: auto | inert
    /// initial: auto
    /// inherited: yes
    Interactivity,
    ///
    /// href: https://drafts.csswg.org/css-ui-4/#propdef-interest-delay
    /// syntax: <'interest-delay-start'>{1,2}
    /// initial: see individual properties
    /// longhands: [interest-delay-start, interest-delay-end]
    InterestDelay,
    ///
    /// href: https://drafts.csswg.org/css-ui-4/#propdef-interest-delay-end
    /// syntax: normal | <time>
    /// initial: normal
    /// inherited: yes
    InterestDelayEnd,
    ///
    /// href: https://drafts.csswg.org/css-ui-4/#propdef-interest-delay-start
    /// syntax: normal | <time>
    /// initial: normal
    /// inherited: yes
    InterestDelayStart,
    ///
    /// href: https://drafts.csswg.org/css-values-5/#propdef-interpolate-size
    /// syntax: numeric-only | allow-keywords
    /// initial: numeric-only
    /// inherited: yes
    InterpolateSize,
    ///
    /// href: https://drafts.csswg.org/compositing-2/#propdef-isolation
    /// syntax: <isolation-mode>
    /// initial: auto
    Isolation,
    ///
    /// href: https://drafts.csswg.org/css-align-3/#propdef-justify-content
    /// syntax: normal | <content-distribution> | <overflow-position>? [ <content-position> | left | right ]
    /// initial: normal
    JustifyContent,
    ///
    /// href: https://drafts.csswg.org/css-align-3/#propdef-justify-items
    /// syntax: normal | stretch | <baseline-position> | <overflow-position>? [ <self-position> | left | right ] | legacy
    /// | legacy && [ left | right | center ] initial: legacy
    JustifyItems,
    ///
    /// href: https://drafts.csswg.org/css-align-3/#propdef-justify-self
    /// syntax: auto | <overflow-position>? [ normal | <self-position> | left | right ] | stretch | <baseline-position> |
    /// anchor-center initial: auto
    JustifySelf,
    ///
    /// href: https://drafts.csswg.org/css-position-3/#propdef-left
    /// syntax: auto | <length-percentage> | <anchor()> | <anchor-size()>
    /// initial: auto
    Left,
    ///
    /// href: https://drafts.csswg.org/css-text-4/#propdef-letter-spacing
    /// syntax: normal | <length-percentage>
    /// initial: normal
    /// inherited: yes
    LetterSpacing,
    ///
    /// href: https://drafts.csswg.org/filter-effects-1/#propdef-lighting-color
    /// syntax: <color>
    /// initial: white
    LightingColor,
    ///
    /// href: https://drafts.csswg.org/css-text-4/#propdef-line-break
    /// syntax: auto | loose | normal | strict | anywhere
    /// initial: auto
    /// inherited: yes
    LineBreak,
    ///
    /// href: https://drafts.csswg.org/css-overflow-4/#propdef-line-clamp
    /// syntax: none | [<integer [1,∞]> || <'block-ellipsis'>] -webkit-legacy?
    /// initial: none
    /// longhands: [max-lines, block-ellipsis, continue]
    LineClamp,
    ///
    /// href: https://drafts.csswg.org/css-inline-3/#propdef-line-fit-edge
    /// syntax: leading | <text-edge>
    /// initial: leading
    /// inherited: yes
    LineFitEdge,
    ///
    /// href: https://drafts.csswg.org/css-line-grid-1/#propdef-line-grid
    /// syntax: match-parent | create
    /// initial: match-parent
    LineGrid,
    ///
    /// href: https://drafts.csswg.org/css-inline-3/#propdef-line-height
    /// syntax: normal | <number [0,∞]> | <length-percentage [0,∞]>
    /// initial: normal
    /// inherited: yes
    LineHeight,
    ///
    /// href: https://drafts.csswg.org/css-rhythm-1/#propdef-line-height-step
    /// syntax: <length [0,∞]>
    /// initial: 0
    /// inherited: yes
    LineHeightStep,
    ///
    /// href: https://drafts.csswg.org/css-text-4/#propdef-line-padding
    /// syntax: <length>
    /// initial: 0
    /// inherited: yes
    LinePadding,
    ///
    /// href: https://drafts.csswg.org/css-line-grid-1/#propdef-line-snap
    /// syntax: none | baseline | contain
    /// initial: none
    /// inherited: yes
    LineSnap,
    ///
    /// href: https://drafts.csswg.org/css-link-params-1/#propdef-link-parameters
    /// syntax: none | <param()>#
    /// initial: none
    LinkParameters,
    ///
    /// href: https://drafts.csswg.org/css-lists-3/#propdef-list-style
    /// syntax: <'list-style-position'> || <'list-style-image'> || <'list-style-type'>
    /// initial: see individual properties
    /// longhands: [list-style-type, list-style-position, list-style-image]
    ListStyle,
    ///
    /// href: https://drafts.csswg.org/css-lists-3/#propdef-list-style-image
    /// syntax: <image> | none
    /// initial: none
    /// inherited: yes
    ListStyleImage,
    ///
    /// href: https://drafts.csswg.org/css-lists-3/#propdef-list-style-position
    /// syntax: inside | outside
    /// initial: outside
    /// inherited: yes
    ListStylePosition,
    ///
    /// href: https://drafts.csswg.org/css-lists-3/#propdef-list-style-type
    /// syntax: <counter-style> | <string> | none
    /// initial: disc
    /// inherited: yes
    ListStyleType,
    ///
    /// href: https://drafts.csswg.org/css-box-4/#propdef-margin
    /// syntax: <'margin-top'>{1,4}
    /// initial: 0
    /// longhands: [margin-top, margin-right, margin-bottom, margin-left]
    Margin,
    ///
    /// href: https://drafts.csswg.org/css-logical-1/#propdef-margin-block
    /// syntax: <'margin-top'>{1,2}
    /// initial: see individual properties
    /// longhands: [margin-block-start, margin-block-end]
    MarginBlock,
    ///
    /// href: https://drafts.csswg.org/css-logical-1/#propdef-margin-block-end
    /// syntax: <'margin-top'>
    /// initial: 0
    MarginBlockEnd,
    ///
    /// href: https://drafts.csswg.org/css-logical-1/#propdef-margin-block-start
    /// syntax: <'margin-top'>
    /// initial: 0
    MarginBlockStart,
    ///
    /// href: https://drafts.csswg.org/css-box-4/#propdef-margin-bottom
    /// syntax: <length-percentage> | auto | <anchor-size()>
    /// initial: 0
    MarginBottom,
    ///
    /// href: https://drafts.csswg.org/css-break-4/#propdef-margin-break
    /// syntax: auto | keep | discard
    /// initial: auto
    MarginBreak,
    ///
    /// href: https://drafts.csswg.org/css-logical-1/#propdef-margin-inline
    /// syntax: <'margin-top'>{1,2}
    /// initial: see individual properties
    /// longhands: [margin-inline-start, margin-inline-end]
    MarginInline,
    ///
    /// href: https://drafts.csswg.org/css-logical-1/#propdef-margin-inline-end
    /// syntax: <'margin-top'>
    /// initial: 0
    MarginInlineEnd,
    ///
    /// href: https://drafts.csswg.org/css-logical-1/#propdef-margin-inline-start
    /// syntax: <'margin-top'>
    /// initial: 0
    MarginInlineStart,
    ///
    /// href: https://drafts.csswg.org/css-box-4/#propdef-margin-left
    /// syntax: <length-percentage> | auto | <anchor-size()>
    /// initial: 0
    MarginLeft,
    ///
    /// href: https://drafts.csswg.org/css-box-4/#propdef-margin-right
    /// syntax: <length-percentage> | auto | <anchor-size()>
    /// initial: 0
    MarginRight,
    ///
    /// href: https://drafts.csswg.org/css-box-4/#propdef-margin-top
    /// syntax: <length-percentage> | auto | <anchor-size()>
    /// initial: 0
    MarginTop,
    ///
    /// href: https://drafts.csswg.org/css-box-4/#propdef-margin-trim
    /// syntax: none | [ block || inline ] | [ block-start || inline-start || block-end || inline-end ]
    /// initial: none
    MarginTrim,
    ///
    /// href: https://w3c.github.io/svgwg/svg2-draft/painting.html#MarkerProperty
    /// syntax: none | <marker-ref>
    /// initial: not defined for shorthand properties
    /// inherited: yes
    /// longhands: [marker-start, marker-mid, marker-end]
    Marker,
    ///
    /// href: https://w3c.github.io/svgwg/svg2-draft/painting.html#MarkerEndProperty
    /// syntax: none | <marker-ref>
    /// initial: none
    /// inherited: yes
    MarkerEnd,
    ///
    /// href: https://w3c.github.io/svgwg/svg2-draft/painting.html#MarkerMidProperty
    /// syntax: none | <marker-ref>
    /// initial: none
    /// inherited: yes
    MarkerMid,
    ///
    /// href: https://drafts.csswg.org/css-lists-3/#propdef-marker-side
    /// syntax: match-self | match-parent
    /// initial: match-self
    /// inherited: yes
    MarkerSide,
    ///
    /// href: https://w3c.github.io/svgwg/svg2-draft/painting.html#MarkerStartProperty
    /// syntax: none | <marker-ref>
    /// initial: none
    /// inherited: yes
    MarkerStart,
    ///
    /// href: https://drafts.csswg.org/css-masking-1/#propdef-mask
    /// syntax: <mask-layer>#
    /// initial: see individual properties
    /// longhands: [mask-image, mask-position, mask-size, mask-repeat, mask-origin, mask-clip, mask-composite, mask-mode]
    Mask,
    ///
    /// href: https://drafts.csswg.org/css-masking-1/#propdef-mask-border
    /// syntax: <'mask-border-source'> || <'mask-border-slice'> [ / <'mask-border-width'>? [ / <'mask-border-outset'> ]?
    /// ]? || <'mask-border-repeat'> || <'mask-border-mode'> initial: See individual properties
    /// longhands: [mask-border-source, mask-border-slice, mask-border-width, mask-border-outset, mask-border-repeat,
    /// mask-border-mode]
    MaskBorder,
    ///
    /// href: https://drafts.csswg.org/css-masking-1/#propdef-mask-border-mode
    /// syntax: luminance | alpha
    /// initial: alpha
    MaskBorderMode,
    ///
    /// href: https://drafts.csswg.org/css-masking-1/#propdef-mask-border-outset
    /// syntax: <'border-image-outset'>
    /// initial: 0
    MaskBorderOutset,
    ///
    /// href: https://drafts.csswg.org/css-masking-1/#propdef-mask-border-repeat
    /// syntax: <'border-image-repeat'>
    /// initial: stretch
    MaskBorderRepeat,
    ///
    /// href: https://drafts.csswg.org/css-masking-1/#propdef-mask-border-slice
    /// syntax: <'border-image-slice'>
    /// initial: 0
    MaskBorderSlice,
    ///
    /// href: https://drafts.csswg.org/css-masking-1/#propdef-mask-border-source
    /// syntax: <'border-image-source'>
    /// initial: none
    MaskBorderSource,
    ///
    /// href: https://drafts.csswg.org/css-masking-1/#propdef-mask-border-width
    /// syntax: <'border-image-width'>
    /// initial: auto
    MaskBorderWidth,
    ///
    /// href: https://drafts.csswg.org/css-masking-1/#propdef-mask-clip
    /// syntax: [ <coord-box> | no-clip ]#
    /// initial: border-box
    MaskClip,
    ///
    /// href: https://drafts.csswg.org/css-masking-1/#propdef-mask-composite
    /// syntax: <compositing-operator>#
    /// initial: add
    MaskComposite,
    ///
    /// href: https://drafts.csswg.org/css-masking-1/#propdef-mask-image
    /// syntax: <mask-reference>#
    /// initial: none
    MaskImage,
    ///
    /// href: https://drafts.csswg.org/css-masking-1/#propdef-mask-mode
    /// syntax: <masking-mode>#
    /// initial: match-source
    MaskMode,
    ///
    /// href: https://drafts.csswg.org/css-masking-1/#propdef-mask-origin
    /// syntax: <coord-box>#
    /// initial: border-box
    MaskOrigin,
    ///
    /// href: https://drafts.csswg.org/css-masking-1/#propdef-mask-position
    /// syntax: <position>#
    /// initial: 0% 0%
    MaskPosition,
    ///
    /// href: https://drafts.csswg.org/css-masking-1/#propdef-mask-repeat
    /// syntax: <repeat-style>#
    /// initial: repeat
    MaskRepeat,
    ///
    /// href: https://drafts.csswg.org/css-masking-1/#propdef-mask-size
    /// syntax: <bg-size>#
    /// initial: auto
    MaskSize,
    ///
    /// href: https://drafts.csswg.org/css-masking-1/#propdef-mask-type
    /// syntax: luminance | alpha
    /// initial: luminance
    MaskType,
    ///
    /// href: https://w3c.github.io/mathml-core/#propdef-math-depth
    /// syntax: auto-add | add(<integer>) | <integer>
    /// initial: 0
    /// inherited: yes
    MathDepth,
    ///
    /// href: https://w3c.github.io/mathml-core/#propdef-math-shift
    /// syntax: normal | compact
    /// initial: normal
    /// inherited: yes
    MathShift,
    ///
    /// href: https://w3c.github.io/mathml-core/#propdef-math-style
    /// syntax: normal | compact
    /// initial: normal
    /// inherited: yes
    MathStyle,
    ///
    /// href: https://drafts.csswg.org/css-logical-1/#propdef-max-block-size
    /// syntax: <'max-width'>
    /// initial: none
    MaxBlockSize,
    ///
    /// href: https://drafts.csswg.org/css-sizing-3/#propdef-max-height
    /// syntax: none | <length-percentage [0,∞]> | min-content | max-content | fit-content(<length-percentage [0,∞]>) |
    /// <calc-size()> | <anchor-size()> | stretch | fit-content | contain initial: none
    MaxHeight,
    ///
    /// href: https://drafts.csswg.org/css-logical-1/#propdef-max-inline-size
    /// syntax: <'max-width'>
    /// initial: none
    MaxInlineSize,
    ///
    /// href: https://drafts.csswg.org/css-overflow-4/#propdef-max-lines
    /// syntax: none | <integer [1,∞]>
    /// initial: none
    MaxLines,
    ///
    /// href: https://drafts.csswg.org/css-sizing-3/#propdef-max-width
    /// syntax: none | <length-percentage [0,∞]> | min-content | max-content | fit-content(<length-percentage [0,∞]>) |
    /// <calc-size()> | <anchor-size()> | stretch | fit-content | contain initial: none
    MaxWidth,
    ///
    /// href: https://drafts.csswg.org/css-logical-1/#propdef-min-block-size
    /// syntax: <'min-width'>
    /// initial: 0
    MinBlockSize,
    ///
    /// href: https://drafts.csswg.org/css-sizing-3/#propdef-min-height
    /// syntax: auto | <length-percentage [0,∞]> | min-content | max-content | fit-content(<length-percentage [0,∞]>) |
    /// <calc-size()> | <anchor-size()> | stretch | fit-content | contain initial: auto
    MinHeight,
    ///
    /// href: https://drafts.csswg.org/css-logical-1/#propdef-min-inline-size
    /// syntax: <'min-width'>
    /// initial: 0
    MinInlineSize,
    ///
    /// href: https://drafts.csswg.org/css-sizing-4/#propdef-min-intrinsic-sizing
    /// syntax: legacy | zero-if-scroll || zero-if-extrinsic
    /// initial: legacy
    MinIntrinsicSizing,
    ///
    /// href: https://drafts.csswg.org/css-sizing-3/#propdef-min-width
    /// syntax: auto | <length-percentage [0,∞]> | min-content | max-content | fit-content(<length-percentage [0,∞]>) |
    /// <calc-size()> | <anchor-size()> | stretch | fit-content | contain initial: auto
    MinWidth,
    ///
    /// href: https://drafts.csswg.org/compositing-2/#propdef-mix-blend-mode
    /// syntax: <blend-mode> | plus-lighter
    /// initial: normal
    MixBlendMode,
    ///
    /// href: https://drafts.csswg.org/css-ui-4/#propdef-nav-down
    /// syntax: auto | <id> [ current | root | <target-name> ]?
    /// initial: auto
    NavDown,
    ///
    /// href: https://drafts.csswg.org/css-ui-4/#propdef-nav-left
    /// syntax: auto | <id> [ current | root | <target-name> ]?
    /// initial: auto
    NavLeft,
    ///
    /// href: https://drafts.csswg.org/css-ui-4/#propdef-nav-right
    /// syntax: auto | <id> [ current | root | <target-name> ]?
    /// initial: auto
    NavRight,
    ///
    /// href: https://drafts.csswg.org/css-ui-4/#propdef-nav-up
    /// syntax: auto | <id> [ current | root | <target-name> ]?
    /// initial: auto
    NavUp,
    ///
    /// href: https://drafts.csswg.org/css-images-4/#propdef-object-fit
    /// syntax: fill | none | [contain | cover] || scale-down
    /// initial: fill
    ObjectFit,
    ///
    /// href: https://drafts.csswg.org/css-images-3/#propdef-object-position
    /// syntax: <position>
    /// initial: 50% 50%
    ObjectPosition,
    ///
    /// href: https://drafts.csswg.org/css-images-5/#propdef-object-view-box
    /// syntax: none | <basic-shape-rect>
    /// initial: none
    ObjectViewBox,
    ///
    /// href: https://drafts.csswg.org/motion-1/#propdef-offset
    /// syntax: [ <'offset-position'>? [ <'offset-path'> [ <'offset-distance'> || <'offset-rotate'> ]? ]? ]! [ /
    /// <'offset-anchor'> ]? initial: see individual properties
    /// longhands: [offset-path, offset-distance, offset-rotate, offset-anchor, offset-position]
    Offset,
    ///
    /// href: https://drafts.csswg.org/motion-1/#propdef-offset-anchor
    /// syntax: auto | <position>
    /// initial: auto
    OffsetAnchor,
    ///
    /// href: https://drafts.csswg.org/motion-1/#propdef-offset-distance
    /// syntax: <length-percentage>
    /// initial: 0
    OffsetDistance,
    ///
    /// href: https://drafts.csswg.org/motion-1/#propdef-offset-path
    /// syntax: none | <offset-path> || <coord-box>
    /// initial: none
    OffsetPath,
    ///
    /// href: https://drafts.csswg.org/motion-1/#propdef-offset-position
    /// syntax: normal | auto | <position>
    /// initial: normal
    OffsetPosition,
    ///
    /// href: https://drafts.csswg.org/motion-1/#propdef-offset-rotate
    /// syntax: [ auto | reverse ] || <angle>
    /// initial: auto
    OffsetRotate,
    ///
    /// href: https://drafts.csswg.org/css-color-4/#propdef-opacity
    /// syntax: <opacity-value>
    /// initial: 1
    Opacity,
    ///
    /// href: https://drafts.csswg.org/css-display-4/#propdef-order
    /// syntax: <integer>
    /// initial: 0
    Order,
    ///
    /// href: https://drafts.csswg.org/css-break-4/#propdef-orphans
    /// syntax: <integer [1,∞]>
    /// initial: 2
    /// inherited: yes
    Orphans,
    ///
    /// href: https://drafts.csswg.org/css-ui-4/#propdef-outline
    /// syntax: <'outline-width'> || <'outline-style'> || <'outline-color'>
    /// initial: see individual properties
    /// longhands: [outline-width, outline-style, outline-color]
    Outline,
    ///
    /// href: https://drafts.csswg.org/css-ui-4/#propdef-outline-color
    /// syntax: auto | <'border-top-color'>
    /// initial: auto
    OutlineColor,
    ///
    /// href: https://drafts.csswg.org/css-ui-4/#propdef-outline-offset
    /// syntax: <length>
    /// initial: 0
    OutlineOffset,
    ///
    /// href: https://drafts.csswg.org/css-ui-4/#propdef-outline-style
    /// syntax: auto | <outline-line-style>
    /// initial: none
    OutlineStyle,
    ///
    /// href: https://drafts.csswg.org/css-ui-4/#propdef-outline-width
    /// syntax: <line-width>
    /// initial: medium
    OutlineWidth,
    ///
    /// href: https://drafts.csswg.org/css-overflow-3/#propdef-overflow
    /// syntax: <'overflow-block'>{1,2}
    /// initial: visible
    /// longhands: [overflow-x, overflow-y]
    Overflow,
    ///
    /// href: https://drafts.csswg.org/css-scroll-anchoring-1/#propdef-overflow-anchor
    /// syntax: auto | none
    /// initial: auto
    OverflowAnchor,
    ///
    /// href: https://drafts.csswg.org/css-overflow-3/#propdef-overflow-block
    /// syntax: visible | hidden | clip | scroll | auto
    /// initial: visible
    OverflowBlock,
    ///
    /// href: https://drafts.csswg.org/css-overflow-4/#propdef-overflow-clip-margin
    /// syntax: <visual-box> || <length>
    /// initial: 0px
    /// longhands: [overflow-clip-margin-top, overflow-clip-margin-right, overflow-clip-margin-bottom,
    /// overflow-clip-margin-left]
    OverflowClipMargin,
    ///
    /// href: https://drafts.csswg.org/css-overflow-4/#propdef-overflow-clip-margin-block
    /// syntax: <visual-box> || <length>
    /// initial: 0px
    /// longhands: [overflow-clip-margin-block-start, overflow-clip-margin-block-end]
    OverflowClipMarginBlock,
    ///
    /// href: https://drafts.csswg.org/css-overflow-4/#propdef-overflow-clip-margin-block-end
    /// syntax: <visual-box> || <length>
    /// initial: 0px
    OverflowClipMarginBlockEnd,
    ///
    /// href: https://drafts.csswg.org/css-overflow-4/#propdef-overflow-clip-margin-block-start
    /// syntax: <visual-box> || <length>
    /// initial: 0px
    OverflowClipMarginBlockStart,
    ///
    /// href: https://drafts.csswg.org/css-overflow-4/#propdef-overflow-clip-margin-bottom
    /// syntax: <visual-box> || <length>
    /// initial: 0px
    OverflowClipMarginBottom,
    ///
    /// href: https://drafts.csswg.org/css-overflow-4/#propdef-overflow-clip-margin-inline
    /// syntax: <visual-box> || <length>
    /// initial: 0px
    /// longhands: [overflow-clip-margin-inline-start, overflow-clip-margin-inline-end]
    OverflowClipMarginInline,
    ///
    /// href: https://drafts.csswg.org/css-overflow-4/#propdef-overflow-clip-margin-inline-end
    /// syntax: <visual-box> || <length>
    /// initial: 0px
    OverflowClipMarginInlineEnd,
    ///
    /// href: https://drafts.csswg.org/css-overflow-4/#propdef-overflow-clip-margin-inline-start
    /// syntax: <visual-box> || <length>
    /// initial: 0px
    OverflowClipMarginInlineStart,
    ///
    /// href: https://drafts.csswg.org/css-overflow-4/#propdef-overflow-clip-margin-left
    /// syntax: <visual-box> || <length>
    /// initial: 0px
    OverflowClipMarginLeft,
    ///
    /// href: https://drafts.csswg.org/css-overflow-4/#propdef-overflow-clip-margin-right
    /// syntax: <visual-box> || <length>
    /// initial: 0px
    OverflowClipMarginRight,
    ///
    /// href: https://drafts.csswg.org/css-overflow-4/#propdef-overflow-clip-margin-top
    /// syntax: <visual-box> || <length>
    /// initial: 0px
    OverflowClipMarginTop,
    ///
    /// href: https://drafts.csswg.org/css-overflow-3/#propdef-overflow-inline
    /// syntax: visible | hidden | clip | scroll | auto
    /// initial: visible
    OverflowInline,
    ///
    /// href: https://drafts.csswg.org/css-text-4/#propdef-overflow-wrap
    /// syntax: normal | break-word | anywhere
    /// initial: normal
    /// inherited: yes
    OverflowWrap,
    ///
    /// href: https://drafts.csswg.org/css-overflow-3/#propdef-overflow-x
    /// syntax: visible | hidden | clip | scroll | auto
    /// initial: visible
    OverflowX,
    ///
    /// href: https://drafts.csswg.org/css-overflow-3/#propdef-overflow-y
    /// syntax: visible | hidden | clip | scroll | auto
    /// initial: visible
    OverflowY,
    ///
    /// href: https://drafts.csswg.org/css-position-4/#propdef-overlay
    /// syntax: none | auto
    /// initial: none
    Overlay,
    ///
    /// href: https://drafts.csswg.org/css-overscroll-1/#propdef-overscroll-behavior
    /// syntax: [ contain | none | auto | chain ]{1,2}
    /// initial: auto auto
    /// longhands: [overscroll-behavior-x, overscroll-behavior-y]
    OverscrollBehavior,
    ///
    /// href: https://drafts.csswg.org/css-overscroll-1/#propdef-overscroll-behavior-block
    /// syntax: contain | none | auto | chain
    /// initial: auto
    OverscrollBehaviorBlock,
    ///
    /// href: https://drafts.csswg.org/css-overscroll-1/#propdef-overscroll-behavior-inline
    /// syntax: contain | none | auto | chain
    /// initial: auto
    OverscrollBehaviorInline,
    ///
    /// href: https://drafts.csswg.org/css-overscroll-1/#propdef-overscroll-behavior-x
    /// syntax: contain | none | auto | chain
    /// initial: auto
    OverscrollBehaviorX,
    ///
    /// href: https://drafts.csswg.org/css-overscroll-1/#propdef-overscroll-behavior-y
    /// syntax: contain | none | auto | chain
    /// initial: auto
    OverscrollBehaviorY,
    ///
    /// href: https://drafts.csswg.org/css-box-4/#propdef-padding
    /// syntax: <'padding-top'>{1,4}
    /// initial: 0
    /// longhands: [padding-top, padding-right, padding-bottom, padding-left]
    Padding,
    ///
    /// href: https://drafts.csswg.org/css-logical-1/#propdef-padding-block
    /// syntax: <'padding-top'>{1,2}
    /// initial: see individual properties
    /// longhands: [padding-block-start, padding-block-end]
    PaddingBlock,
    ///
    /// href: https://drafts.csswg.org/css-logical-1/#propdef-padding-block-end
    /// syntax: <'padding-top'>
    /// initial: 0
    PaddingBlockEnd,
    ///
    /// href: https://drafts.csswg.org/css-logical-1/#propdef-padding-block-start
    /// syntax: <'padding-top'>
    /// initial: 0
    PaddingBlockStart,
    ///
    /// href: https://drafts.csswg.org/css-box-4/#propdef-padding-bottom
    /// syntax: <length-percentage [0,∞]>
    /// initial: 0
    PaddingBottom,
    ///
    /// href: https://drafts.csswg.org/css-logical-1/#propdef-padding-inline
    /// syntax: <'padding-top'>{1,2}
    /// initial: see individual properties
    /// longhands: [padding-inline-start, padding-inline-end]
    PaddingInline,
    ///
    /// href: https://drafts.csswg.org/css-logical-1/#propdef-padding-inline-end
    /// syntax: <'padding-top'>
    /// initial: 0
    PaddingInlineEnd,
    ///
    /// href: https://drafts.csswg.org/css-logical-1/#propdef-padding-inline-start
    /// syntax: <'padding-top'>
    /// initial: 0
    PaddingInlineStart,
    ///
    /// href: https://drafts.csswg.org/css-box-4/#propdef-padding-left
    /// syntax: <length-percentage [0,∞]>
    /// initial: 0
    PaddingLeft,
    ///
    /// href: https://drafts.csswg.org/css-box-4/#propdef-padding-right
    /// syntax: <length-percentage [0,∞]>
    /// initial: 0
    PaddingRight,
    ///
    /// href: https://drafts.csswg.org/css-box-4/#propdef-padding-top
    /// syntax: <length-percentage [0,∞]>
    /// initial: 0
    PaddingTop,
    ///
    /// href: https://drafts.csswg.org/css-page-3/#propdef-page
    /// syntax: auto | <custom-ident>
    /// initial: auto
    Page,
    ///
    /// href: https://drafts.csswg.org/css2/#propdef-page-break-after
    /// syntax: auto | always | avoid | left | right | inherit
    /// initial: auto
    PageBreakAfter,
    ///
    /// href: https://drafts.csswg.org/css2/#propdef-page-break-before
    /// syntax: auto | always | avoid | left | right | inherit
    /// initial: auto
    PageBreakBefore,
    ///
    /// href: https://drafts.csswg.org/css2/#propdef-page-break-inside
    /// syntax: avoid | auto | inherit
    /// initial: auto
    PageBreakInside,
    ///
    /// href: https://w3c.github.io/svgwg/svg2-draft/painting.html#PaintOrderProperty
    /// syntax: normal | [ fill || stroke || markers ]
    /// initial: normal
    /// inherited: yes
    PaintOrder,
    ///
    /// href: https://w3c.github.io/svgwg/svg2-draft/paths.html#PathLengthCSSProperty
    /// syntax: none | @@ unknown symbol "number [0,∞]"
    /// initial: none
    PathLength,
    ///
    /// href: https://drafts.csswg.org/css-speech-1/#propdef-pause
    /// syntax: <'pause-before'> <'pause-after'>?
    /// initial: see individual properties
    /// longhands: [pause-before, pause-after]
    Pause,
    ///
    /// href: https://drafts.csswg.org/css-speech-1/#propdef-pause-after
    /// syntax: <time [0s,∞]> | none | x-weak | weak | medium | strong | x-strong
    /// initial: none
    PauseAfter,
    ///
    /// href: https://drafts.csswg.org/css-speech-1/#propdef-pause-before
    /// syntax: <time [0s,∞]> | none | x-weak | weak | medium | strong | x-strong
    /// initial: none
    PauseBefore,
    ///
    /// href: https://drafts.csswg.org/css-transforms-2/#propdef-perspective
    /// syntax: none | <length [0,∞]>
    /// initial: none
    Perspective,
    ///
    /// href: https://drafts.csswg.org/css-transforms-2/#propdef-perspective-origin
    /// syntax: <position>
    /// initial: 50% 50%
    PerspectiveOrigin,
    ///
    /// href: https://drafts.csswg.org/css-align-3/#propdef-place-content
    /// syntax: <'align-content'> <'justify-content'>?
    /// initial: normal
    /// longhands: [align-content, justify-content]
    PlaceContent,
    ///
    /// href: https://drafts.csswg.org/css-align-3/#propdef-place-items
    /// syntax: <'align-items'> <'justify-items'>?
    /// initial: see individual properties
    /// longhands: [align-items, justify-items]
    PlaceItems,
    ///
    /// href: https://drafts.csswg.org/css-align-3/#propdef-place-self
    /// syntax: <'align-self'> <'justify-self'>?
    /// initial: auto
    /// longhands: [align-self, justify-self]
    PlaceSelf,
    ///
    /// href: https://w3c.github.io/svgwg/svg2-draft/interact.html#PointerEventsProperty
    /// syntax: auto | bounding-box | visiblePainted | visibleFill | visibleStroke | visible | painted | fill | stroke |
    /// all | none initial: auto
    /// inherited: yes
    PointerEvents,
    ///
    /// href: https://drafts.csswg.org/pointer-animations-1/#propdef-pointer-timeline
    /// syntax: [ <'pointer-timeline-name'> <'pointer-timeline-axis'>? ]#
    /// initial: see individual properties
    /// longhands: [pointer-timeline-name, pointer-timeline-axis]
    PointerTimeline,
    ///
    /// href: https://drafts.csswg.org/pointer-animations-1/#propdef-pointer-timeline-axis
    /// syntax: [ block | inline | x | y ]#
    /// initial: block
    PointerTimelineAxis,
    ///
    /// href: https://drafts.csswg.org/pointer-animations-1/#propdef-pointer-timeline-name
    /// syntax: [ none | <dashed-ident> ]#
    /// initial: none
    PointerTimelineName,
    ///
    /// href: https://drafts.csswg.org/css-position-3/#propdef-position
    /// syntax: static | relative | absolute | sticky | fixed | <running()>
    /// initial: static
    Position,
    ///
    /// href: https://drafts.csswg.org/css-anchor-position-1/#propdef-position-anchor
    /// syntax: normal | none | auto | <anchor-name> | match-parent
    /// initial: normal
    PositionAnchor,
    ///
    /// href: https://drafts.csswg.org/css-anchor-position-1/#propdef-position-area
    /// syntax: none | <position-area>
    /// initial: none
    PositionArea,
    ///
    /// href: https://drafts.csswg.org/css-anchor-position-1/#propdef-position-try
    /// syntax: <'position-try-order'>? <'position-try-fallbacks'>
    /// initial: see individual properties
    /// longhands: [position-try-order, position-try-fallbacks]
    PositionTry,
    ///
    /// href: https://drafts.csswg.org/css-anchor-position-1/#propdef-position-try-fallbacks
    /// syntax: none | [ [<dashed-ident> || <try-tactic>] | <position-area> ]#
    /// initial: none
    PositionTryFallbacks,
    ///
    /// href: https://drafts.csswg.org/css-anchor-position-1/#propdef-position-try-order
    /// syntax: normal | <try-size>
    /// initial: normal
    PositionTryOrder,
    ///
    /// href: https://drafts.csswg.org/css-anchor-position-1/#propdef-position-visibility
    /// syntax: always | [ anchors-valid || anchors-visible || no-overflow ]
    /// initial: anchors-visible
    PositionVisibility,
    ///
    /// href: https://drafts.csswg.org/css-color-adjust-1/#propdef-print-color-adjust
    /// syntax: economy | exact
    /// initial: economy
    /// inherited: yes
    PrintColorAdjust,
    ///
    /// href: https://drafts.csswg.org/css-content-3/#propdef-quotes
    /// syntax: auto | none | match-parent | [ <string> <string> ]+
    /// initial: auto
    /// inherited: yes
    Quotes,
    ///
    /// href: https://w3c.github.io/svgwg/svg2-draft/geometry.html#RProperty
    /// syntax: <length-percentage>
    /// initial: 0
    R,
    ///
    /// href: https://drafts.csswg.org/css-display-4/#propdef-reading-flow
    /// syntax: normal | source-order | flex-visual | flex-flow | grid-rows | grid-columns | grid-order
    /// initial: normal
    ReadingFlow,
    ///
    /// href: https://drafts.csswg.org/css-display-4/#propdef-reading-order
    /// syntax: <integer>
    /// initial: 0
    ReadingOrder,
    ///
    /// href: https://drafts.csswg.org/css-regions-1/#propdef-region-fragment
    /// syntax: auto | break
    /// initial: auto
    RegionFragment,
    ///
    /// href: https://drafts.csswg.org/css-ui-4/#propdef-resize
    /// syntax: none | both | horizontal | vertical | block | inline
    /// initial: none
    Resize,
    ///
    /// href: https://drafts.csswg.org/css-speech-1/#propdef-rest
    /// syntax: <'rest-before'> <'rest-after'>?
    /// initial: see individual properties
    /// longhands: [rest-before, rest-after]
    Rest,
    ///
    /// href: https://drafts.csswg.org/css-speech-1/#propdef-rest-after
    /// syntax: <time [0s,∞]> | none | x-weak | weak | medium | strong | x-strong
    /// initial: none
    RestAfter,
    ///
    /// href: https://drafts.csswg.org/css-speech-1/#propdef-rest-before
    /// syntax: <time [0s,∞]> | none | x-weak | weak | medium | strong | x-strong
    /// initial: none
    RestBefore,
    ///
    /// href: https://drafts.csswg.org/css-position-3/#propdef-right
    /// syntax: auto | <length-percentage> | <anchor()> | <anchor-size()>
    /// initial: auto
    Right,
    ///
    /// href: https://drafts.csswg.org/css-transforms-2/#propdef-rotate
    /// syntax: none | <angle> | [ x | y | z | <number>{3} ] && <angle>
    /// initial: none
    Rotate,
    ///
    /// href: https://drafts.csswg.org/css-gaps-1/#propdef-row-gap
    /// syntax: normal | <length-percentage [0,∞]> | <line-width>
    /// initial: normal
    RowGap,
    ///
    /// href: https://drafts.csswg.org/css-gaps-1/#propdef-row-rule
    /// syntax: <gap-rule-list> | <gap-auto-rule-list>
    /// initial: see individual properties
    /// longhands: [row-rule-width, row-rule-style, row-rule-color]
    RowRule,
    ///
    /// href: https://drafts.csswg.org/css-gaps-1/#propdef-row-rule-break
    /// syntax: none | normal | intersection
    /// initial: normal
    RowRuleBreak,
    ///
    /// href: https://drafts.csswg.org/css-gaps-1/#propdef-row-rule-color
    /// syntax: <line-color-list> | <auto-line-color-list>
    /// initial: currentcolor
    RowRuleColor,
    ///
    /// href: https://drafts.csswg.org/css-gaps-1/#propdef-row-rule-inset
    /// syntax: <'column-rule-inset-cap'> [ / <'column-rule-inset-junction'> ]?
    /// initial: see individual properties
    /// longhands: [row-rule-inset-cap-start, row-rule-inset-cap-end, row-rule-inset-junction-start,
    /// row-rule-inset-junction-end]
    RowRuleInset,
    ///
    /// href: https://drafts.csswg.org/css-gaps-1/#propdef-row-rule-inset-cap
    /// syntax: <length-percentage> [ <length-percentage> ]?
    /// initial: see individual properties
    /// longhands: [row-rule-inset-cap-start, row-rule-inset-cap-end]
    RowRuleInsetCap,
    ///
    /// href: https://drafts.csswg.org/css-gaps-1/#propdef-row-rule-inset-cap-end
    /// syntax: <length-percentage>
    /// initial: 0
    RowRuleInsetCapEnd,
    ///
    /// href: https://drafts.csswg.org/css-gaps-1/#propdef-row-rule-inset-cap-start
    /// syntax: <length-percentage>
    /// initial: 0
    RowRuleInsetCapStart,
    ///
    /// href: https://drafts.csswg.org/css-gaps-1/#propdef-row-rule-inset-end
    /// syntax: <length-percentage>
    /// initial: see individual properties
    /// longhands: [row-rule-inset-cap-end, row-rule-inset-junction-end]
    RowRuleInsetEnd,
    ///
    /// href: https://drafts.csswg.org/css-gaps-1/#propdef-row-rule-inset-junction
    /// syntax: <length-percentage> [ <length-percentage> ]?
    /// initial: see individual properties
    /// longhands: [row-rule-inset-junction-start, row-rule-inset-junction-end]
    RowRuleInsetJunction,
    ///
    /// href: https://drafts.csswg.org/css-gaps-1/#propdef-row-rule-inset-junction-end
    /// syntax: <length-percentage>
    /// initial: 0
    RowRuleInsetJunctionEnd,
    ///
    /// href: https://drafts.csswg.org/css-gaps-1/#propdef-row-rule-inset-junction-start
    /// syntax: <length-percentage>
    /// initial: 0
    RowRuleInsetJunctionStart,
    ///
    /// href: https://drafts.csswg.org/css-gaps-1/#propdef-row-rule-inset-start
    /// syntax: <length-percentage>
    /// initial: see individual properties
    /// longhands: [row-rule-inset-cap-start, row-rule-inset-junction-start]
    RowRuleInsetStart,
    ///
    /// href: https://drafts.csswg.org/css-gaps-1/#propdef-row-rule-style
    /// syntax: <line-style-list> | <auto-line-style-list>
    /// initial: none
    RowRuleStyle,
    ///
    /// href: https://drafts.csswg.org/css-gaps-1/#propdef-row-rule-visibility-items
    /// syntax: all | around | between | normal
    /// initial: normal
    RowRuleVisibilityItems,
    ///
    /// href: https://drafts.csswg.org/css-gaps-1/#propdef-row-rule-width
    /// syntax: <line-width-list> | <auto-line-width-list>
    /// initial: medium
    RowRuleWidth,
    ///
    /// href: https://drafts.csswg.org/css-ruby-1/#propdef-ruby-align
    /// syntax: start | center | space-between | space-around
    /// initial: space-around
    /// inherited: yes
    RubyAlign,
    ///
    /// href: https://drafts.csswg.org/css-ruby-1/#propdef-ruby-merge
    /// syntax: separate | merge | auto
    /// initial: separate
    /// inherited: yes
    RubyMerge,
    ///
    /// href: https://drafts.csswg.org/css-ruby-1/#propdef-ruby-overhang
    /// syntax: auto | spaces
    /// initial: auto
    /// inherited: yes
    RubyOverhang,
    ///
    /// href: https://drafts.csswg.org/css-ruby-1/#propdef-ruby-position
    /// syntax: [ alternate || [ over | under ] ] | inter-character
    /// initial: alternate
    /// inherited: yes
    RubyPosition,
    ///
    /// href: https://drafts.csswg.org/css-gaps-1/#propdef-rule
    /// syntax: <'column-rule'>
    /// initial: see individual properties
    /// longhands: [column-rule, row-rule]
    Rule,
    ///
    /// href: https://drafts.csswg.org/css-gaps-1/#propdef-rule-break
    /// syntax: <'column-rule-break'>
    /// initial: see individual properties
    /// longhands: [column-rule-break, row-rule-break]
    RuleBreak,
    ///
    /// href: https://drafts.csswg.org/css-gaps-1/#propdef-rule-color
    /// syntax: <'column-rule-color'>
    /// initial: see individual properties
    /// longhands: [column-rule-color, row-rule-color]
    RuleColor,
    ///
    /// href: https://drafts.csswg.org/css-gaps-1/#propdef-rule-inset
    /// syntax: <'column-rule-inset'>
    /// initial: see individual properties
    /// longhands: [column-rule-inset, row-rule-inset]
    RuleInset,
    ///
    /// href: https://drafts.csswg.org/css-gaps-1/#propdef-rule-inset-cap
    /// syntax: <'column-rule-inset-cap'>
    /// initial: see individual properties
    /// longhands: [column-rule-inset-cap]
    RuleInsetCap,
    ///
    /// href: https://drafts.csswg.org/css-gaps-1/#propdef-rule-inset-end
    /// syntax: <'column-rule-inset-end'>
    /// initial: see individual properties
    /// longhands: [column-rule-inset-end, row-rule-inset-end]
    RuleInsetEnd,
    ///
    /// href: https://drafts.csswg.org/css-gaps-1/#propdef-rule-inset-junction
    /// syntax: <'column-rule-inset-junction'>
    /// initial: see individual properties
    /// longhands: [column-rule-inset-junction]
    RuleInsetJunction,
    ///
    /// href: https://drafts.csswg.org/css-gaps-1/#propdef-rule-inset-start
    /// syntax: <'column-rule-inset-start'>
    /// initial: see individual properties
    /// longhands: [column-rule-inset-start, row-rule-inset-start]
    RuleInsetStart,
    ///
    /// href: https://drafts.csswg.org/css-gaps-1/#propdef-rule-overlap
    /// syntax: row-over-column | column-over-row
    /// initial: row-over-column
    RuleOverlap,
    ///
    /// href: https://drafts.csswg.org/css-gaps-1/#propdef-rule-style
    /// syntax: <'column-rule-style'>
    /// initial: see individual properties
    /// longhands: [column-rule-style, row-rule-style]
    RuleStyle,
    ///
    /// href: https://drafts.csswg.org/css-gaps-1/#propdef-rule-visibility-items
    /// syntax: <'column-rule-visibility-items'>
    /// initial: see individual properties
    /// longhands: [column-rule-visibility-items]
    RuleVisibilityItems,
    ///
    /// href: https://drafts.csswg.org/css-gaps-1/#propdef-rule-width
    /// syntax: <'column-rule-width'>
    /// initial: see individual properties
    /// longhands: [column-rule-width, row-rule-width]
    RuleWidth,
    ///
    /// href: https://w3c.github.io/svgwg/svg2-draft/geometry.html#RxProperty
    /// syntax: <length-percentage> | auto
    /// initial: auto
    Rx,
    ///
    /// href: https://w3c.github.io/svgwg/svg2-draft/geometry.html#RyProperty
    /// syntax: <length-percentage> | auto
    /// initial: auto
    Ry,
    ///
    /// href: https://drafts.csswg.org/css-transforms-2/#propdef-scale
    /// syntax: none | [ <number> | <percentage> ]{1,3}
    /// initial: none
    Scale,
    ///
    /// href: https://drafts.csswg.org/css-overflow-3/#propdef-scroll-behavior
    /// syntax: auto | smooth
    /// initial: auto
    ScrollBehavior,
    ///
    /// href: https://drafts.csswg.org/css-scroll-snap-2/#propdef-scroll-initial-target
    /// syntax: none | nearest
    /// initial: none
    ScrollInitialTarget,
    ///
    /// href: https://drafts.csswg.org/css-scroll-snap-1/#propdef-scroll-margin
    /// syntax: <length>{1,4}
    /// initial: 0
    /// longhands: [scroll-margin-top, scroll-margin-right, scroll-margin-bottom, scroll-margin-left]
    ScrollMargin,
    ///
    /// href: https://drafts.csswg.org/css-scroll-snap-1/#propdef-scroll-margin-block
    /// syntax: <length>{1,2}
    /// initial: 0
    /// longhands: [scroll-margin-block-start, scroll-margin-block-end]
    ScrollMarginBlock,
    ///
    /// href: https://drafts.csswg.org/css-scroll-snap-1/#propdef-scroll-margin-block-end
    /// syntax: <length>
    /// initial: 0
    ScrollMarginBlockEnd,
    ///
    /// href: https://drafts.csswg.org/css-scroll-snap-1/#propdef-scroll-margin-block-start
    /// syntax: <length>
    /// initial: 0
    ScrollMarginBlockStart,
    ///
    /// href: https://drafts.csswg.org/css-scroll-snap-1/#propdef-scroll-margin-bottom
    /// syntax: <length>
    /// initial: 0
    ScrollMarginBottom,
    ///
    /// href: https://drafts.csswg.org/css-scroll-snap-1/#propdef-scroll-margin-inline
    /// syntax: <length>{1,2}
    /// initial: 0
    /// longhands: [scroll-margin-inline-start, scroll-margin-inline-end]
    ScrollMarginInline,
    ///
    /// href: https://drafts.csswg.org/css-scroll-snap-1/#propdef-scroll-margin-inline-end
    /// syntax: <length>
    /// initial: 0
    ScrollMarginInlineEnd,
    ///
    /// href: https://drafts.csswg.org/css-scroll-snap-1/#propdef-scroll-margin-inline-start
    /// syntax: <length>
    /// initial: 0
    ScrollMarginInlineStart,
    ///
    /// href: https://drafts.csswg.org/css-scroll-snap-1/#propdef-scroll-margin-left
    /// syntax: <length>
    /// initial: 0
    ScrollMarginLeft,
    ///
    /// href: https://drafts.csswg.org/css-scroll-snap-1/#propdef-scroll-margin-right
    /// syntax: <length>
    /// initial: 0
    ScrollMarginRight,
    ///
    /// href: https://drafts.csswg.org/css-scroll-snap-1/#propdef-scroll-margin-top
    /// syntax: <length>
    /// initial: 0
    ScrollMarginTop,
    ///
    /// href: https://drafts.csswg.org/css-overflow-5/#propdef-scroll-marker-group
    /// syntax: none | [ [ before | after ] || [ links | tabs ] ]
    /// initial: none
    ScrollMarkerGroup,
    ///
    /// href: https://drafts.csswg.org/css-scroll-snap-1/#propdef-scroll-padding
    /// syntax: [ auto | <length-percentage [0,∞]> ]{1,4}
    /// initial: auto
    /// longhands: [scroll-padding-top, scroll-padding-right, scroll-padding-bottom, scroll-padding-left]
    ScrollPadding,
    ///
    /// href: https://drafts.csswg.org/css-scroll-snap-1/#propdef-scroll-padding-block
    /// syntax: [ auto | <length-percentage [0,∞]> ]{1,2}
    /// initial: auto
    /// longhands: [scroll-padding-block-start, scroll-padding-block-end]
    ScrollPaddingBlock,
    ///
    /// href: https://drafts.csswg.org/css-scroll-snap-1/#propdef-scroll-padding-block-end
    /// syntax: auto | <length-percentage [0,∞]>
    /// initial: auto
    ScrollPaddingBlockEnd,
    ///
    /// href: https://drafts.csswg.org/css-scroll-snap-1/#propdef-scroll-padding-block-start
    /// syntax: auto | <length-percentage [0,∞]>
    /// initial: auto
    ScrollPaddingBlockStart,
    ///
    /// href: https://drafts.csswg.org/css-scroll-snap-1/#propdef-scroll-padding-bottom
    /// syntax: auto | <length-percentage [0,∞]>
    /// initial: auto
    ScrollPaddingBottom,
    ///
    /// href: https://drafts.csswg.org/css-scroll-snap-1/#propdef-scroll-padding-inline
    /// syntax: [ auto | <length-percentage [0,∞]> ]{1,2}
    /// initial: auto
    /// longhands: [scroll-padding-inline-start, scroll-padding-inline-end]
    ScrollPaddingInline,
    ///
    /// href: https://drafts.csswg.org/css-scroll-snap-1/#propdef-scroll-padding-inline-end
    /// syntax: auto | <length-percentage [0,∞]>
    /// initial: auto
    ScrollPaddingInlineEnd,
    ///
    /// href: https://drafts.csswg.org/css-scroll-snap-1/#propdef-scroll-padding-inline-start
    /// syntax: auto | <length-percentage [0,∞]>
    /// initial: auto
    ScrollPaddingInlineStart,
    ///
    /// href: https://drafts.csswg.org/css-scroll-snap-1/#propdef-scroll-padding-left
    /// syntax: auto | <length-percentage [0,∞]>
    /// initial: auto
    ScrollPaddingLeft,
    ///
    /// href: https://drafts.csswg.org/css-scroll-snap-1/#propdef-scroll-padding-right
    /// syntax: auto | <length-percentage [0,∞]>
    /// initial: auto
    ScrollPaddingRight,
    ///
    /// href: https://drafts.csswg.org/css-scroll-snap-1/#propdef-scroll-padding-top
    /// syntax: auto | <length-percentage [0,∞]>
    /// initial: auto
    ScrollPaddingTop,
    ///
    /// href: https://drafts.csswg.org/css-scroll-snap-1/#propdef-scroll-snap-align
    /// syntax: [ none | start | end | center ]{1,2}
    /// initial: none
    ScrollSnapAlign,
    ///
    /// href: https://drafts.csswg.org/css-scroll-snap-1/#propdef-scroll-snap-stop
    /// syntax: normal | always
    /// initial: normal
    ScrollSnapStop,
    ///
    /// href: https://drafts.csswg.org/css-scroll-snap-1/#propdef-scroll-snap-type
    /// syntax: none | [ x | y | block | inline | both ] [ mandatory | proximity ]?
    /// initial: none
    ScrollSnapType,
    ///
    /// href: https://drafts.csswg.org/css-overflow-5/#propdef-scroll-target-group
    /// syntax: none | auto
    /// initial: none
    ScrollTargetGroup,
    ///
    /// href: https://drafts.csswg.org/scroll-animations-1/#propdef-scroll-timeline
    /// syntax: [ <'scroll-timeline-name'> <'scroll-timeline-axis'>? ]#
    /// initial: see individual properties
    /// longhands: [scroll-timeline-name, scroll-timeline-axis]
    ScrollTimeline,
    ///
    /// href: https://drafts.csswg.org/scroll-animations-1/#propdef-scroll-timeline-axis
    /// syntax: [ block | inline | x | y ]#
    /// initial: block
    ScrollTimelineAxis,
    ///
    /// href: https://drafts.csswg.org/scroll-animations-1/#propdef-scroll-timeline-name
    /// syntax: [ none | <dashed-ident> ]#
    /// initial: none
    ScrollTimelineName,
    ///
    /// href: https://drafts.csswg.org/css-scrollbars-1/#propdef-scrollbar-color
    /// syntax: auto | <color>{2}
    /// initial: auto
    /// inherited: yes
    ScrollbarColor,
    ///
    /// href: https://drafts.csswg.org/css-overflow-3/#propdef-scrollbar-gutter
    /// syntax: auto | stable && both-edges?
    /// initial: auto
    ScrollbarGutter,
    /// Engine-specific: inset from scrollbar container edges.
    /// syntax: <length>{1,4}
    /// initial: 0px
    ScrollbarInset,
    /// Engine-specific: minimum visual thumb length.
    /// syntax: <length>
    /// initial: 20px
    ScrollbarMinThumbSize,
    /// Engine-specific: scrollbar display mode.
    /// syntax: auto | classic | overlay | none
    /// initial: auto
    ScrollbarMode,
    ///
    /// href: https://drafts.csswg.org/css-scrollbars-1/#propdef-scrollbar-width
    /// syntax: auto | thin | none
    /// initial: auto
    ScrollbarWidth,
    ///
    /// href: https://drafts.csswg.org/css-shapes-1/#propdef-shape-image-threshold
    /// syntax: <opacity-value>
    /// initial: 0
    ShapeImageThreshold,
    ///
    /// href: https://drafts.csswg.org/css-shapes-2/#propdef-shape-inside
    /// syntax: auto | outside-shape | [ <basic-shape> || shape-box ] | <image> | display
    /// initial: auto
    ShapeInside,
    ///
    /// href: https://drafts.csswg.org/css-shapes-1/#propdef-shape-margin
    /// syntax: <length-percentage [0,∞]>
    /// initial: 0
    ShapeMargin,
    ///
    /// href: https://drafts.csswg.org/css-shapes-1/#propdef-shape-outside
    /// syntax: none | [ <basic-shape> || <shape-box> ] | <image>
    /// initial: none
    ShapeOutside,
    ///
    /// href: https://drafts.csswg.org/css-shapes-2/#propdef-shape-padding
    /// syntax: <length-percentage [0,∞]>
    /// initial: 0
    ShapePadding,
    ///
    /// href: https://w3c.github.io/svgwg/svg2-draft/painting.html#ShapeRenderingProperty
    /// syntax: auto | optimizeSpeed | crispEdges | geometricPrecision
    /// initial: auto
    /// inherited: yes
    ShapeRendering,
    ///
    /// href: https://drafts.csswg.org/css-forms-1/#propdef-slider-orientation
    /// syntax: auto | left-to-right | right-to-left | top-to-bottom | bottom-to-top
    /// initial: auto
    SliderOrientation,
    ///
    /// href: https://drafts.csswg.org/css-nav-1/#propdef-spatial-navigation-action
    /// syntax: auto | focus | scroll
    /// initial: auto
    SpatialNavigationAction,
    ///
    /// href: https://drafts.csswg.org/css-nav-1/#propdef-spatial-navigation-contain
    /// syntax: auto | contain
    /// initial: auto
    SpatialNavigationContain,
    ///
    /// href: https://drafts.csswg.org/css-nav-1/#propdef-spatial-navigation-function
    /// syntax: normal | grid
    /// initial: normal
    SpatialNavigationFunction,
    ///
    /// href: https://drafts.csswg.org/css-speech-1/#propdef-speak
    /// syntax: auto | never | always
    /// initial: auto
    /// inherited: yes
    Speak,
    ///
    /// href: https://drafts.csswg.org/css-speech-1/#propdef-speak-as
    /// syntax: normal | spell-out || digits || [ literal-punctuation | no-punctuation ]
    /// initial: normal
    /// inherited: yes
    SpeakAs,
    ///
    /// href: https://w3c.github.io/svgwg/svg2-draft/pservers.html#StopColorProperty
    /// syntax: <'color'>
    StopColor,
    ///
    /// href: https://w3c.github.io/svgwg/svg2-draft/pservers.html#StopOpacityProperty
    /// syntax: <'opacity'>
    StopOpacity,
    ///
    /// href: https://drafts.csswg.org/css-content-3/#propdef-string-set
    /// syntax: none | [ <custom-ident> <string>+ ]#
    /// initial: none
    StringSet,
    ///
    /// href: https://w3c.github.io/svgwg/svg2-draft/painting.html#StrokeProperty
    /// syntax: <paint>
    /// initial: none
    /// inherited: yes
    Stroke,
    ///
    /// href: https://drafts.csswg.org/fill-stroke-3/#propdef-stroke-align
    /// syntax: center | inset | outset
    /// initial: center
    /// inherited: yes
    StrokeAlign,
    ///
    /// href: https://svgwg.org/specs/strokes/#StrokeAlignmentProperty
    /// syntax: center | inner | outer
    /// initial: center
    /// inherited: yes
    StrokeAlignment,
    ///
    /// href: https://drafts.csswg.org/fill-stroke-3/#propdef-stroke-break
    /// syntax: bounding-box | slice | clone
    /// initial: bounding-box
    StrokeBreak,
    ///
    /// href: https://drafts.csswg.org/fill-stroke-3/#propdef-stroke-color
    /// syntax: <color>#
    /// initial: transparent
    /// inherited: yes
    StrokeColor,
    ///
    /// href: https://drafts.csswg.org/fill-stroke-3/#propdef-stroke-dash-corner
    /// syntax: none | <length>
    /// initial: none
    /// inherited: yes
    StrokeDashCornerPropdefStrokeDashCorner,
    ///
    /// href: https://drafts.csswg.org/fill-stroke-3/#propdef-stroke-dash-justify
    /// syntax: none | [ stretch | compress ] || [ dashes || gaps ]
    /// initial: none
    /// inherited: yes
    StrokeDashJustify,
    ///
    /// href: https://svgwg.org/specs/strokes/#StrokeDashadjustProperty
    /// syntax: none | [stretch | compress] [dashes | gaps]?
    /// initial: none
    /// inherited: yes
    StrokeDashadjust,
    ///
    /// href: https://drafts.csswg.org/fill-stroke-3/#propdef-stroke-dasharray
    /// syntax: none | [<length-percentage> | <number>]+#
    /// initial: none
    /// inherited: yes
    StrokeDasharray,
    ///
    /// href: https://svgwg.org/specs/strokes/#StrokeDashcornerProperty
    /// syntax: none | <length>
    /// initial: none
    /// inherited: yes
    StrokeDashcornerStrokedashcornerproperty,
    ///
    /// href: https://drafts.csswg.org/fill-stroke-3/#propdef-stroke-dashoffset
    /// syntax: <length-percentage> | <number>
    /// initial: 0
    /// inherited: yes
    StrokeDashoffset,
    ///
    /// href: https://drafts.csswg.org/fill-stroke-3/#propdef-stroke-image
    /// syntax: <paint>#
    /// initial: none
    /// inherited: yes
    StrokeImage,
    ///
    /// href: https://drafts.csswg.org/fill-stroke-3/#propdef-stroke-linecap
    /// syntax: butt | round | square
    /// initial: butt
    /// inherited: yes
    StrokeLinecap,
    ///
    /// href: https://drafts.csswg.org/fill-stroke-3/#propdef-stroke-linejoin
    /// syntax: [ crop | arcs | miter ] || [ bevel | round | fallback ]
    /// initial: miter
    /// inherited: yes
    StrokeLinejoin,
    ///
    /// href: https://drafts.csswg.org/fill-stroke-3/#propdef-stroke-miterlimit
    /// syntax: <number>
    /// initial: 4
    /// inherited: yes
    StrokeMiterlimit,
    ///
    /// href: https://drafts.csswg.org/fill-stroke-3/#propdef-stroke-opacity
    /// syntax: <'opacity'>
    /// initial: 1
    /// inherited: yes
    StrokeOpacity,
    ///
    /// href: https://drafts.csswg.org/fill-stroke-3/#propdef-stroke-origin
    /// syntax: match-parent | fill-box | stroke-box | content-box | padding-box | border-box
    /// initial: match-parent
    StrokeOrigin,
    ///
    /// href: https://drafts.csswg.org/fill-stroke-3/#propdef-stroke-position
    /// syntax: <position>#
    /// initial: 0% 0%
    /// inherited: yes
    StrokePosition,
    ///
    /// href: https://drafts.csswg.org/fill-stroke-3/#propdef-stroke-repeat
    /// syntax: <repeat-style>#
    /// initial: repeat
    /// inherited: yes
    StrokeRepeat,
    ///
    /// href: https://drafts.csswg.org/fill-stroke-3/#propdef-stroke-size
    /// syntax: <bg-size>#
    /// initial: auto
    /// inherited: yes
    StrokeSize,
    ///
    /// href: https://drafts.csswg.org/fill-stroke-3/#propdef-stroke-width
    /// syntax: [ <length-percentage> | <line-width> | <number> ]#
    /// initial: 1px
    /// inherited: yes
    StrokeWidth,
    ///
    /// href: https://drafts.csswg.org/css-text-4/#propdef-tab-size
    /// syntax: <number [0,∞]> | <length [0,∞]>
    /// initial: 8
    /// inherited: yes
    TabSize,
    ///
    /// href: https://drafts.csswg.org/css-tables-3/#propdef-table-layout
    /// syntax: auto | fixed
    /// initial: auto
    TableLayout,
    ///
    /// href: https://drafts.csswg.org/css-text-4/#propdef-text-align
    /// syntax: start | end | left | right | center | <string> | justify | match-parent | justify-all
    /// initial: start
    /// inherited: yes
    /// longhands: [text-align-all, text-align-last]
    TextAlign,
    ///
    /// href: https://drafts.csswg.org/css-text-4/#propdef-text-align-all
    /// syntax: start | end | left | right | center | <string> | justify | match-parent
    /// initial: start
    /// inherited: yes
    TextAlignAll,
    ///
    /// href: https://drafts.csswg.org/css-text-4/#propdef-text-align-last
    /// syntax: auto | start | end | left | right | center | justify | match-parent
    /// initial: auto
    /// inherited: yes
    TextAlignLast,
    ///
    /// href: https://w3c.github.io/svgwg/svg2-draft/text.html#TextAnchorProperty
    /// syntax: start | middle | end
    /// initial: start
    /// inherited: yes
    TextAnchor,
    ///
    /// href: https://drafts.csswg.org/css-text-4/#propdef-text-autospace
    /// syntax: normal | <autospace> | auto
    /// initial: normal
    /// inherited: yes
    TextAutospace,
    ///
    /// href: https://drafts.csswg.org/css-inline-3/#propdef-text-box
    /// syntax: normal | <'text-box-trim'> || <'text-box-edge'>
    /// initial: normal
    TextBox,
    ///
    /// href: https://drafts.csswg.org/css-inline-3/#propdef-text-box-edge
    /// syntax: auto | <text-edge>
    /// initial: auto
    /// inherited: yes
    TextBoxEdge,
    ///
    /// href: https://drafts.csswg.org/css-inline-3/#propdef-text-box-trim
    /// syntax: none | trim-start | trim-end | trim-both
    /// initial: none
    TextBoxTrim,
    ///
    /// href: https://drafts.csswg.org/css-writing-modes-4/#propdef-text-combine-upright
    /// syntax: none | all | [ digits <integer [2,4]>? ]
    /// initial: none
    /// inherited: yes
    TextCombineUpright,
    ///
    /// href: https://drafts.csswg.org/css-text-decor-4/#propdef-text-decoration
    /// syntax: <'text-decoration-line'> || <'text-decoration-thickness'> || <'text-decoration-style'> ||
    /// <'text-decoration-color'> initial: see individual properties
    /// longhands: [text-decoration-line, text-decoration-thickness, text-decoration-style, text-decoration-color]
    TextDecoration,
    ///
    /// href: https://drafts.csswg.org/css-text-decor-4/#propdef-text-decoration-color
    /// syntax: <color>
    /// initial: currentcolor
    TextDecorationColor,
    ///
    /// href: https://drafts.csswg.org/css-text-decor-4/#propdef-text-decoration-inset
    /// syntax: <length>{1,2} | auto
    /// initial: 0
    TextDecorationInset,
    ///
    /// href: https://drafts.csswg.org/css-text-decor-4/#propdef-text-decoration-line
    /// syntax: none | [ underline || overline || line-through || blink ] | spelling-error | grammar-error
    /// initial: none
    TextDecorationLine,
    ///
    /// href: https://drafts.csswg.org/css-text-decor-4/#propdef-text-decoration-skip
    /// syntax: none | auto
    /// initial: See individual properties
    /// inherited: yes
    /// longhands: [text-decoration-skip-self, text-decoration-skip-box, text-decoration-skip-spaces,
    /// text-decoration-skip-ink]
    TextDecorationSkip,
    ///
    /// href: https://drafts.csswg.org/css-text-decor-4/#propdef-text-decoration-skip-box
    /// syntax: none | all
    /// initial: none
    /// inherited: yes
    TextDecorationSkipBox,
    ///
    /// href: https://drafts.csswg.org/css-text-decor-4/#propdef-text-decoration-skip-ink
    /// syntax: auto | none | all
    /// initial: auto
    /// inherited: yes
    TextDecorationSkipInk,
    ///
    /// href: https://drafts.csswg.org/css-text-decor-4/#propdef-text-decoration-skip-self
    /// syntax: auto | skip-all | [ skip-underline || skip-overline || skip-line-through ] | no-skip
    /// initial: auto
    TextDecorationSkipSelf,
    ///
    /// href: https://drafts.csswg.org/css-text-decor-4/#propdef-text-decoration-skip-spaces
    /// syntax: none | all | [ start || end ]
    /// initial: start end
    /// inherited: yes
    TextDecorationSkipSpaces,
    ///
    /// href: https://drafts.csswg.org/css-text-decor-4/#propdef-text-decoration-style
    /// syntax: solid | double | dotted | dashed | wavy
    /// initial: solid
    TextDecorationStyle,
    ///
    /// href: https://drafts.csswg.org/css-text-decor-4/#propdef-text-decoration-thickness
    /// syntax: auto | from-font | <length-percentage> | <line-width>
    /// initial: auto
    TextDecorationThickness,
    ///
    /// href: https://drafts.csswg.org/css-text-decor-4/#propdef-text-emphasis
    /// syntax: <'text-emphasis-style'> || <'text-emphasis-color'>
    /// initial: see individual properties
    /// longhands: [text-emphasis-style, text-emphasis-color]
    TextEmphasis,
    ///
    /// href: https://drafts.csswg.org/css-text-decor-4/#propdef-text-emphasis-color
    /// syntax: <color>
    /// initial: currentcolor
    /// inherited: yes
    TextEmphasisColor,
    ///
    /// href: https://drafts.csswg.org/css-text-decor-4/#propdef-text-emphasis-position
    /// syntax: [ over | under ] && [ right | left ]?
    /// initial: over right
    /// inherited: yes
    TextEmphasisPosition,
    ///
    /// href: https://drafts.csswg.org/css-text-decor-4/#propdef-text-emphasis-skip
    /// syntax: spaces || punctuation || symbols || narrow
    /// initial: spaces punctuation
    /// inherited: yes
    TextEmphasisSkip,
    ///
    /// href: https://drafts.csswg.org/css-text-decor-4/#propdef-text-emphasis-style
    /// syntax: none | [ [ filled | open ] || [ dot | circle | double-circle | triangle | sesame ] ] | <string>
    /// initial: none
    /// inherited: yes
    TextEmphasisStyle,
    ///
    /// href: https://drafts.csswg.org/css-text-4/#propdef-text-fit
    /// syntax: [ none | grow | shrink ] [consistent | per-line | per-line-all]? <percentage>?
    /// initial: none
    TextFit,
    ///
    /// href: https://drafts.csswg.org/css-text-4/#propdef-text-group-align
    /// syntax: none | start | end | left | right | center
    /// initial: none
    TextGroupAlign,
    ///
    /// href: https://drafts.csswg.org/css-text-4/#propdef-text-indent
    /// syntax: [ <length-percentage> ] && hanging? && each-line?
    /// initial: 0
    /// inherited: yes
    TextIndent,
    ///
    /// href: https://drafts.csswg.org/css-text-4/#propdef-text-justify
    /// syntax: [ auto | none | inter-word | inter-character | ruby ] || no-compress
    /// initial: auto
    /// inherited: yes
    TextJustify,
    ///
    /// href: https://drafts.csswg.org/css-writing-modes-4/#propdef-text-orientation
    /// syntax: mixed | upright | sideways
    /// initial: mixed
    /// inherited: yes
    TextOrientation,
    ///
    /// href: https://drafts.csswg.org/css-overflow-4/#propdef-text-overflow
    /// syntax: [ clip | ellipsis | <string> | fade | <fade()> ]{1,2}
    /// initial: clip
    TextOverflow,
    ///
    /// href: https://w3c.github.io/svgwg/svg2-draft/painting.html#TextRenderingProperty
    /// syntax: auto | optimizeSpeed | optimizeLegibility | geometricPrecision
    /// initial: auto
    /// inherited: yes
    TextRendering,
    ///
    /// href: https://drafts.csswg.org/css-text-decor-4/#propdef-text-shadow
    /// syntax: none | <shadow>#
    /// initial: none
    /// inherited: yes
    TextShadow,
    ///
    /// href: https://drafts.csswg.org/css-size-adjust-1/#propdef-text-size-adjust
    /// syntax: auto | none | <percentage [0,∞]>
    /// initial: auto
    /// inherited: yes
    TextSizeAdjust,
    ///
    /// href: https://drafts.csswg.org/css-text-4/#propdef-text-spacing
    /// syntax: none | auto | <spacing-trim> || <autospace>
    /// initial: see individual properties
    /// inherited: yes
    /// longhands: [text-spacing-trim, text-autospace]
    TextSpacing,
    ///
    /// href: https://drafts.csswg.org/css-text-4/#propdef-text-spacing-trim
    /// syntax: <spacing-trim> | auto
    /// initial: normal
    /// inherited: yes
    TextSpacingTrim,
    ///
    /// href: https://drafts.csswg.org/css-text-4/#propdef-text-transform
    /// syntax: none | [capitalize | uppercase | lowercase ] || full-width || full-size-kana | math-auto
    /// initial: none
    /// inherited: yes
    TextTransform,
    ///
    /// href: https://drafts.csswg.org/css-text-decor-4/#propdef-text-underline-offset
    /// syntax: auto | <length-percentage>
    /// initial: auto
    /// inherited: yes
    TextUnderlineOffset,
    ///
    /// href: https://drafts.csswg.org/css-text-decor-4/#propdef-text-underline-position
    /// syntax: auto | [ from-font | under ] || [ left | right ]
    /// initial: auto
    /// inherited: yes
    TextUnderlinePosition,
    ///
    /// href: https://drafts.csswg.org/css-text-4/#propdef-text-wrap
    /// syntax: <'text-wrap-mode'> || <'text-wrap-style'>
    /// initial: wrap
    /// longhands: [text-wrap-mode, text-wrap-style]
    TextWrap,
    ///
    /// href: https://drafts.csswg.org/css-text-4/#propdef-text-wrap-mode
    /// syntax: wrap | nowrap
    /// initial: wrap
    /// inherited: yes
    TextWrapMode,
    ///
    /// href: https://drafts.csswg.org/css-text-4/#propdef-text-wrap-style
    /// syntax: auto | balance | stable | pretty | avoid-orphans
    /// initial: auto
    /// inherited: yes
    TextWrapStyle,
    ///
    /// href: https://drafts.csswg.org/scroll-animations-1/#propdef-timeline-scope
    /// syntax: none | all | <dashed-ident>#
    /// initial: none
    TimelineScope,
    ///
    /// href: https://drafts.csswg.org/animation-triggers-1/#propdef-timeline-trigger
    /// syntax: none | [ <'timeline-trigger-name'> <'timeline-trigger-source'> <'timeline-trigger-activation-range'> [ '/'
    /// <'timeline-trigger-active-range'> ]? ]# initial: see individual properties
    /// longhands: [timeline-trigger-name, timeline-trigger-source, timeline-trigger-activation-range,
    /// timeline-trigger-active-range]
    TimelineTrigger,
    ///
    /// href: https://drafts.csswg.org/animation-triggers-1/#propdef-timeline-trigger-activation-range
    /// syntax: [ <'timeline-trigger-activation-range-start'> <'timeline-trigger-activation-range-end'>? ]#
    /// initial: see individual properties
    /// longhands: [timeline-trigger-activation-range-start, timeline-trigger-activation-range-end]
    TimelineTriggerActivationRange,
    ///
    /// href: https://drafts.csswg.org/animation-triggers-1/#propdef-timeline-trigger-activation-range-end
    /// syntax: [ normal | <length-percentage> | <timeline-range-name> <length-percentage>? ]#
    /// initial: normal
    TimelineTriggerActivationRangeEnd,
    ///
    /// href: https://drafts.csswg.org/animation-triggers-1/#propdef-timeline-trigger-activation-range-start
    /// syntax: [ normal | <length-percentage> | <timeline-range-name> <length-percentage>? ]#
    /// initial: normal
    TimelineTriggerActivationRangeStart,
    ///
    /// href: https://drafts.csswg.org/animation-triggers-1/#propdef-timeline-trigger-active-range
    /// syntax: [ <'timeline-trigger-active-range-start'> <'timeline-trigger-active-range-end'>? ]#
    /// initial: see individual properties
    /// longhands: [timeline-trigger-active-range-start, timeline-trigger-active-range-end]
    TimelineTriggerActiveRange,
    ///
    /// href: https://drafts.csswg.org/animation-triggers-1/#propdef-timeline-trigger-active-range-end
    /// syntax: [ auto | normal | <length-percentage> | <timeline-range-name> <length-percentage>? ]#
    /// initial: auto
    TimelineTriggerActiveRangeEnd,
    ///
    /// href: https://drafts.csswg.org/animation-triggers-1/#propdef-timeline-trigger-active-range-start
    /// syntax: [ auto | normal | <length-percentage> | <timeline-range-name> <length-percentage>? ]#
    /// initial: auto
    TimelineTriggerActiveRangeStart,
    ///
    /// href: https://drafts.csswg.org/animation-triggers-1/#propdef-timeline-trigger-name
    /// syntax: none | <dashed-ident>#
    /// initial: none
    TimelineTriggerName,
    ///
    /// href: https://drafts.csswg.org/animation-triggers-1/#propdef-timeline-trigger-source
    /// syntax: <single-animation-timeline>#
    /// initial: auto
    TimelineTriggerSource,
    ///
    /// href: https://drafts.csswg.org/css-position-3/#propdef-top
    /// syntax: auto | <length-percentage> | <anchor()> | <anchor-size()>
    /// initial: auto
    Top,
    ///
    /// href: https://compat.spec.whatwg.org/#propdef-touch-action
    /// syntax: auto | none | [ [ pan-x | pan-left | pan-right ] || [ pan-y | pan-up | pan-down ] || pinch-zoom ] |
    /// manipulation initial: auto
    TouchAction,
    ///
    /// href: https://drafts.csswg.org/css-transforms-1/#propdef-transform
    /// syntax: none | <transform-list>
    /// initial: none
    Transform,
    ///
    /// href: https://drafts.csswg.org/css-transforms-1/#propdef-transform-box
    /// syntax: content-box | border-box | fill-box | stroke-box | view-box
    /// initial: view-box
    TransformBox,
    ///
    /// href: https://drafts.csswg.org/css-transforms-1/#propdef-transform-origin
    /// syntax: [ left | center | right | top | bottom | <length-percentage> ] | [ left | center | right |
    /// <length-percentage> ] [ top | center | bottom | <length-percentage> ] <length>? | [ [ center | left | right ] && [
    /// center | top | bottom ] ] <length>? initial: 50% 50%
    TransformOrigin,
    ///
    /// href: https://drafts.csswg.org/css-transforms-2/#propdef-transform-style
    /// syntax: flat | preserve-3d
    /// initial: flat
    TransformStyle,
    ///
    /// href: https://drafts.csswg.org/css-transitions-1/#propdef-transition
    /// syntax: <single-transition>#
    /// initial: see individual properties
    /// longhands: [transition-property, transition-duration, transition-timing-function, transition-delay,
    /// transition-behavior]
    Transition,
    ///
    /// href: https://drafts.csswg.org/css-transitions-2/#propdef-transition-behavior
    /// syntax: <transition-behavior-value>#
    /// initial: normal
    TransitionBehavior,
    ///
    /// href: https://drafts.csswg.org/css-transitions-1/#propdef-transition-delay
    /// syntax: <time>#
    /// initial: 0s
    TransitionDelay,
    ///
    /// href: https://drafts.csswg.org/css-transitions-1/#propdef-transition-duration
    /// syntax: <time [0s,∞]>#
    /// initial: 0s
    TransitionDuration,
    ///
    /// href: https://drafts.csswg.org/css-transitions-1/#propdef-transition-property
    /// syntax: none | <single-transition-property>#
    /// initial: all
    TransitionProperty,
    ///
    /// href: https://drafts.csswg.org/css-transitions-1/#propdef-transition-timing-function
    /// syntax: <easing-function>#
    /// initial: ease
    TransitionTimingFunction,
    ///
    /// href: https://drafts.csswg.org/css-transforms-2/#propdef-translate
    /// syntax: none | <length-percentage> [ <length-percentage> <length>? ]?
    /// initial: none
    Translate,
    ///
    /// href: https://drafts.csswg.org/animation-triggers-1/#propdef-trigger-scope
    /// syntax: none | all | <dashed-ident>#
    /// initial: none
    TriggerScope,
    ///
    /// href: https://drafts.csswg.org/css-writing-modes-4/#propdef-unicode-bidi
    /// syntax: normal | embed | isolate | bidi-override | isolate-override | plaintext
    /// initial: normal
    UnicodeBidi,
    ///
    /// href: https://drafts.csswg.org/css-ui-4/#propdef-user-select
    /// syntax: auto | text | none | contain | all
    /// initial: auto
    UserSelect,
    ///
    /// href: https://w3c.github.io/svgwg/svg2-draft/coords.html#VectorEffectProperty
    /// syntax: none | non-scaling-stroke | non-scaling-size | non-rotation | fixed-position
    /// initial: none
    VectorEffect,
    ///
    /// href: https://drafts.csswg.org/css-inline-3/#propdef-vertical-align
    /// syntax: [ first | last] || <'alignment-baseline'> || <'baseline-shift'>
    /// initial: baseline
    /// longhands: [alignment-baseline, baseline-shift, baseline-source]
    VerticalAlign,
    ///
    /// href: https://drafts.csswg.org/scroll-animations-1/#propdef-view-timeline
    /// syntax: [ <'view-timeline-name'> [ <'view-timeline-axis'> || <'view-timeline-inset'> ]? ]#
    /// initial: see individual properties
    /// longhands: [view-timeline-name, view-timeline-axis]
    ViewTimeline,
    ///
    /// href: https://drafts.csswg.org/scroll-animations-1/#propdef-view-timeline-axis
    /// syntax: [ block | inline | x | y ]#
    /// initial: block
    ViewTimelineAxis,
    ///
    /// href: https://drafts.csswg.org/scroll-animations-1/#propdef-view-timeline-inset
    /// syntax: [ [ auto | <length-percentage> ]{1,2} ]#
    /// initial: auto
    ViewTimelineInset,
    ///
    /// href: https://drafts.csswg.org/scroll-animations-1/#propdef-view-timeline-name
    /// syntax: [ none | <dashed-ident> ]#
    /// initial: none
    ViewTimelineName,
    ///
    /// href: https://drafts.csswg.org/css-view-transitions-2/#propdef-view-transition-class
    /// syntax: none | <custom-ident>+
    /// initial: none
    ViewTransitionClass,
    ///
    /// href: https://drafts.csswg.org/css-view-transitions-2/#propdef-view-transition-group
    /// syntax: normal | contain | nearest | <custom-ident>
    /// initial: normal
    ViewTransitionGroup,
    ///
    /// href: https://drafts.csswg.org/css-view-transitions-2/#propdef-view-transition-name
    /// syntax: none | <custom-ident>
    /// initial: none
    ViewTransitionName,
    ///
    /// href: https://drafts.csswg.org/css-view-transitions-2/#propdef-view-transition-scope
    /// syntax: none | all
    /// initial: none
    ViewTransitionScope,
    ///
    /// href: https://drafts.csswg.org/css-display-4/#propdef-visibility
    /// syntax: visible | hidden | force-hidden | collapse
    /// initial: visible
    /// inherited: yes
    Visibility,
    ///
    /// href: https://drafts.csswg.org/css-speech-1/#propdef-voice-balance
    /// syntax: <number> | left | center | right | leftwards | rightwards
    /// initial: center
    /// inherited: yes
    VoiceBalance,
    ///
    /// href: https://drafts.csswg.org/css-speech-1/#propdef-voice-duration
    /// syntax: auto | <time [0s,∞]>
    /// initial: auto
    VoiceDuration,
    ///
    /// href: https://drafts.csswg.org/css-speech-1/#propdef-voice-family
    /// syntax: [ <voice-family-name> | <generic-voice> ]# | preserve
    /// initial: implementation-dependent
    /// inherited: yes
    VoiceFamily,
    ///
    /// href: https://drafts.csswg.org/css-speech-1/#propdef-voice-pitch
    /// syntax: <frequency [0Hz,∞]> && absolute | [ [ x-low | low | medium | high | x-high ] || [ <frequency [0Hz,∞]> |
    /// <semitones> | <percentage> ] ] initial: medium
    /// inherited: yes
    VoicePitch,
    ///
    /// href: https://drafts.csswg.org/css-speech-1/#propdef-voice-range
    /// syntax: <frequency [0Hz,∞]> && absolute | [ [ x-low | low | medium | high | x-high ] || [ <frequency [0Hz,∞]> |
    /// <semitones> | <percentage> ] ] initial: medium
    /// inherited: yes
    VoiceRange,
    ///
    /// href: https://drafts.csswg.org/css-speech-1/#propdef-voice-rate
    /// syntax: [ normal | x-slow | slow | medium | fast | x-fast ] || <percentage [0,∞]>
    /// initial: normal
    /// inherited: yes
    VoiceRate,
    ///
    /// href: https://drafts.csswg.org/css-speech-1/#propdef-voice-stress
    /// syntax: normal | strong | moderate | none | reduced
    /// initial: normal
    /// inherited: yes
    VoiceStress,
    ///
    /// href: https://drafts.csswg.org/css-speech-1/#propdef-voice-volume
    /// syntax: silent | [ [ x-soft | soft | medium | loud | x-loud ] || <decibel> ]
    /// initial: medium
    /// inherited: yes
    VoiceVolume,
    ///
    /// href: https://drafts.csswg.org/css-text-4/#propdef-white-space
    /// syntax: normal | pre | pre-wrap | pre-line | <'white-space-collapse'> || <'text-wrap-mode'> ||
    /// <'white-space-trim'> initial: normal
    /// longhands: [white-space-collapse, text-wrap-mode]
    WhiteSpace,
    ///
    /// href: https://drafts.csswg.org/css-text-4/#propdef-white-space-collapse
    /// syntax: collapse | discard | preserve | preserve-breaks | preserve-spaces | break-spaces
    /// initial: collapse
    /// inherited: yes
    WhiteSpaceCollapse,
    ///
    /// href: https://drafts.csswg.org/css-text-4/#propdef-white-space-trim
    /// syntax: none | discard-before || discard-after || discard-inner
    /// initial: none
    WhiteSpaceTrim,
    ///
    /// href: https://drafts.csswg.org/css-break-4/#propdef-widows
    /// syntax: <integer [1,∞]>
    /// initial: 2
    /// inherited: yes
    Widows,
    ///
    /// href: https://drafts.csswg.org/css-sizing-3/#propdef-width
    /// syntax: auto | <length-percentage [0,∞]> | min-content | max-content | fit-content(<length-percentage [0,∞]>) |
    /// <calc-size()> | <anchor-size()> | stretch | fit-content | contain initial: auto
    Width,
    ///
    /// href: https://drafts.csswg.org/css-will-change-1/#propdef-will-change
    /// syntax: auto | <animateable-feature>#
    /// initial: auto
    WillChange,
    ///
    /// href: https://drafts.csswg.org/css-text-4/#propdef-word-break
    /// syntax: normal | break-all | keep-all | manual | auto-phrase | break-word
    /// initial: normal
    /// inherited: yes
    WordBreak,
    ///
    /// href: https://drafts.csswg.org/css-text-4/#propdef-word-space-transform
    /// syntax: none | [ space | ideographic-space ] && auto-phrase?
    /// initial: none
    /// inherited: yes
    WordSpaceTransform,
    ///
    /// href: https://drafts.csswg.org/css-text-4/#propdef-word-spacing
    /// syntax: normal | <length-percentage>
    /// initial: normal
    /// inherited: yes
    WordSpacing,
    ///
    /// href: https://drafts.csswg.org/css-text-4/#propdef-word-wrap
    /// syntax: normal | break-word | anywhere
    /// initial: normal
    /// inherited: yes
    WordWrap,
    ///
    /// href: https://drafts.csswg.org/css-text-4/#propdef-wrap-after
    /// syntax: auto | avoid | avoid-line | avoid-flex | line | flex
    /// initial: auto
    WrapAfter,
    ///
    /// href: https://drafts.csswg.org/css-text-4/#propdef-wrap-before
    /// syntax: auto | avoid | avoid-line | avoid-flex | line | flex
    /// initial: auto
    WrapBefore,
    ///
    /// href: https://drafts.csswg.org/css-exclusions-1/#propdef-wrap-flow
    /// syntax: auto | both | start | end | minimum | maximum | clear
    /// initial: auto
    WrapFlow,
    ///
    /// href: https://drafts.csswg.org/css-text-4/#propdef-wrap-inside
    /// syntax: auto | avoid
    /// initial: auto
    WrapInside,
    ///
    /// href: https://drafts.csswg.org/css-exclusions-1/#propdef-wrap-through
    /// syntax: wrap | none
    /// initial: wrap
    WrapThrough,
    ///
    /// href: https://drafts.csswg.org/css-writing-modes-4/#propdef-writing-mode
    /// syntax: horizontal-tb | vertical-rl | vertical-lr | sideways-rl | sideways-lr
    /// initial: horizontal-tb
    /// inherited: yes
    WritingMode,
    ///
    /// href: https://w3c.github.io/svgwg/svg2-draft/geometry.html#XProperty
    /// syntax: <length-percentage>
    /// initial: 0
    X,
    ///
    /// href: https://w3c.github.io/svgwg/svg2-draft/geometry.html#YProperty
    /// syntax: <length-percentage>
    /// initial: 0
    Y,
    ///
    /// href: https://drafts.csswg.org/css2/#propdef-z-index
    /// syntax: auto | <integer> | inherit
    /// initial: auto
    ZIndex,
    ///
    /// href: https://drafts.csswg.org/css-viewport/#propdef-zoom
    /// syntax: <number [0,∞]> | <percentage [0,∞]>
    /// initial: 1
    Zoom,
    Unknown(String),
}

/// The `i`-th entry of the lookup table, in name order.
pub open spec fn lookup_entry(i: usize) -> CssProperty {
    match i {
        0 => CssProperty::WebkitAlignContent,
        1 => CssProperty::WebkitAlignItems,
        2 => CssProperty::WebkitAlignSelf,
        3 => CssProperty::WebkitAnimation,
        4 => CssProperty::WebkitAnimationDelay,
        5 => CssProperty::WebkitAnimationDirection,
        6 => CssProperty::WebkitAnimationDuration,
        7 => CssProperty::WebkitAnimationFillMode,
        8 => CssProperty::WebkitAnimationIterationCount,
        9 => CssProperty::WebkitAnimationName,
        10 => CssProperty::WebkitAnimationPlayState,
        11 => CssProperty::WebkitAnimationTimingFunction,
        12 => CssProperty::WebkitAppearance,
        13 => CssProperty::WebkitBackfaceVisibility,
        14 => CssProperty::WebkitBackgroundClip,
        15 => CssProperty::WebkitBackgroundOrigin,
        16 => CssProperty::WebkitBackgroundSize,
        17 => CssProperty::WebkitBorderBottomLeftRadius,
        18 => CssProperty::WebkitBorderBottomRightRadius,
        19 => CssProperty::WebkitBorderRadius,
        20 => CssProperty::WebkitBorderTopLeftRadius,
        21 => CssProperty::WebkitBorderTopRightRadius,
        22 => CssProperty::WebkitBoxAlign,
        23 => CssProperty::WebkitBoxFlex,
        24 => CssProperty::WebkitBoxOrdinalGroup,
        25 => CssProperty::WebkitBoxOrient,
        26 => CssProperty::WebkitBoxPack,
        27 => CssProperty::WebkitBoxShadow,
        28 => CssProperty::WebkitBoxSizing,
        29 => CssProperty::WebkitFilter,
        30 => CssProperty::WebkitFlex,
        31 => CssProperty::WebkitFlexBasis,
        32 => CssProperty::WebkitFlexDirection,
        33 => CssProperty::WebkitFlexFlow,
        34 => CssProperty::WebkitFlexGrow,
        35 => CssProperty::WebkitFlexShrink,
        36 => CssProperty::WebkitFlexWrap,
        37 => CssProperty::WebkitJustifyContent,
        38 => CssProperty::WebkitLineClamp,
        39 => CssProperty::WebkitMask,
        40 => CssProperty::WebkitMaskBoxImage,
        41 => CssProperty::WebkitMaskBoxImageOutset,
        42 => CssProperty::WebkitMaskBoxImageRepeat,
        43 => CssProperty::WebkitMaskBoxImageSlice,
        44 => CssProperty::WebkitMaskBoxImageSource,
        45 => CssProperty::WebkitMaskBoxImageWidth,
        46 => CssProperty::WebkitMaskClip,
        47 => CssProperty::WebkitMaskComposite,
        48 => CssProperty::WebkitMaskImage,
        49 => CssProperty::WebkitMaskOrigin,
        50 => CssProperty::WebkitMaskPosition,
        51 => CssProperty::WebkitMaskRepeat,
        52 => CssProperty::WebkitMaskSize,
        53 => CssProperty::WebkitOrder,
        54 => CssProperty::WebkitPerspective,
        55 => CssProperty::WebkitPerspectiveOrigin,
        56 => CssProperty::WebkitTextFillColor,
        57 => CssProperty::WebkitTextSizeAdjust,
        58 => CssProperty::WebkitTextStroke,
        59 => CssProperty::WebkitTextStrokeColor,
        60 => CssProperty::WebkitTextStrokeWidth,
        61 => CssProperty::WebkitTransform,
        62 => CssProperty::WebkitTransformOrigin,
        63 => CssProperty::WebkitTransformStyle,
        64 => CssProperty::WebkitTransition,
        65 => CssProperty::WebkitTransitionDelay,
        66 => CssProperty::WebkitTransitionDuration,
        67 => CssProperty::WebkitTransitionProperty,
        68 => CssProperty::WebkitTransitionTimingFunction,
        69 => CssProperty::WebkitUserSelect,
        70 => CssProperty::AccentColor,
        71 => CssProperty::AlignContent,
        72 => CssProperty::AlignItems,
        73 => CssProperty::AlignSelf,
        74 => CssProperty::AlignmentBaseline,
        75 => CssProperty::All,
        76 => CssProperty::AnchorName,
        77 => CssProperty::AnchorScope,
        78 => CssProperty::Animation,
        79 => CssProperty::AnimationComposition,
        80 => CssProperty::AnimationDelay,
        81 => CssProperty::AnimationDirection,
        82 => CssProperty::AnimationDuration,
        83 => CssProperty::AnimationFillMode,
        84 => CssProperty::AnimationIterationCount,
        85 => CssProperty::AnimationName,
        86 => CssProperty::AnimationPlayState,
        87 => CssProperty::AnimationRange,
        88 => CssProperty::AnimationRangeCenter,
        89 => CssProperty::AnimationRangeEnd,
        90 => CssProperty::AnimationRangeStart,
        91 => CssProperty::AnimationTimeline,
        92 => CssProperty::AnimationTimingFunction,
        93 => CssProperty::AnimationTrigger,
        94 => CssProperty::Appearance,
        95 => CssProperty::AspectRatio,
        96 => CssProperty::BackdropFilter,
        97 => CssProperty::BackfaceVisibility,
        98 => CssProperty::Background,
        99 => CssProperty::BackgroundAttachment,
        _ => lookup_entry_from_100(i),
    }
}

/// `lookup_entry` from index 100 on.
pub open spec fn lookup_entry_from_100(i: usize) -> CssProperty {
    match i {
        100 => CssProperty::BackgroundBlendMode,
        101 => CssProperty::BackgroundClip,
        102 => CssProperty::BackgroundColor,
        103 => CssProperty::BackgroundImage,
        104 => CssProperty::BackgroundOrigin,
        105 => CssProperty::BackgroundPosition,
        106 => CssProperty::BackgroundPositionBlock,
        107 => CssProperty::BackgroundPositionInline,
        108 => CssProperty::BackgroundPositionX,
        109 => CssProperty::BackgroundPositionY,
        110 => CssProperty::BackgroundRepeat,
        111 => CssProperty::BackgroundRepeatBlock,
        112 => CssProperty::BackgroundRepeatInline,
        113 => CssProperty::BackgroundRepeatX,
        114 => CssProperty::BackgroundRepeatY,
        115 => CssProperty::BackgroundSize,
        116 => CssProperty::BackgroundTbd,
        117 => CssProperty::BaselineShift,
        118 => CssProperty::BaselineSource,
        119 => CssProperty::BlockEllipsis,
        120 => CssProperty::BlockSize,
        121 => CssProperty::BlockStep,
        122 => CssProperty::BlockStepAlign,
        123 => CssProperty::BlockStepInsert,
        124 => CssProperty::BlockStepRound,
        125 => CssProperty::BlockStepSize,
        126 => CssProperty::BookmarkLabel,
        127 => CssProperty::BookmarkLevel,
        128 => CssProperty::BookmarkState,
        129 => CssProperty::Border,
        130 => CssProperty::BorderBlock,
        131 => CssProperty::BorderBlockClip,
        132 => CssProperty::BorderBlockColor,
        133 => CssProperty::BorderBlockEnd,
        134 => CssProperty::BorderBlockEndClip,
        135 => CssProperty::BorderBlockEndColor,
        136 => CssProperty::BorderBlockEndRadius,
        137 => CssProperty::BorderBlockEndStyle,
        138 => CssProperty::BorderBlockEndWidth,
        139 => CssProperty::BorderBlockStart,
        140 => CssProperty::BorderBlockStartClip,
        141 => CssProperty::BorderBlockStartColor,
        142 => CssProperty::BorderBlockStartRadius,
        143 => CssProperty::BorderBlockStartStyle,
        144 => CssProperty::BorderBlockStartWidth,
        145 => CssProperty::BorderBlockStyle,
        146 => CssProperty::BorderBlockWidth,
        147 => CssProperty::BorderBottom,
        148 => CssProperty::BorderBottomClip,
        149 => CssProperty::BorderBottomColor,
        150 => CssProperty::BorderBottomLeftRadius,
        151 => CssProperty::BorderBottomRadius,
        152 => CssProperty::BorderBottomRightRadius,
        153 => CssProperty::BorderBottomStyle,
        154 => CssProperty::BorderBottomWidth,
        155 => CssProperty::BorderBoundary,
        156 => CssProperty::BorderClip,
        157 => CssProperty::BorderCollapse,
        158 => CssProperty::BorderColor,
        159 => CssProperty::BorderEndEndRadius,
        160 => CssProperty::BorderEndStartRadius,
        161 => CssProperty::BorderImage,
        162 => CssProperty::BorderImageOutset,
        163 => CssProperty::BorderImageRepeat,
        164 => CssProperty::BorderImageSlice,
        165 => CssProperty::BorderImageSource,
        166 => CssProperty::BorderImageWidth,
        167 => CssProperty::BorderInline,
        168 => CssProperty::BorderInlineClip,
        169 => CssProperty::BorderInlineColor,
        170 => CssProperty::BorderInlineEnd,
        171 => CssProperty::BorderInlineEndClip,
        172 => CssProperty::BorderInlineEndColor,
        173 => CssProperty::BorderInlineEndRadius,
        174 => CssProperty::BorderInlineEndStyle,
        175 => CssProperty::BorderInlineEndWidth,
        176 => CssProperty::BorderInlineStart,
        177 => CssProperty::BorderInlineStartClip,
        178 => CssProperty::BorderInlineStartColor,
        179 => CssProperty::BorderInlineStartRadius,
        180 => CssProperty::BorderInlineStartStyle,
        181 => CssProperty::BorderInlineStartWidth,
        182 => CssProperty::BorderInlineStyle,
        183 => CssProperty::BorderInlineWidth,
        184 => CssProperty::BorderLeft,
        185 => CssProperty::BorderLeftClip,
        186 => CssProperty::BorderLeftColor,
        187 => CssProperty::BorderLeftRadius,
        188 => CssProperty::BorderLeftStyle,
        189 => CssProperty::BorderLeftWidth,
        190 => CssProperty::BorderLimit,
        191 => CssProperty::BorderRadius,
        192 => CssProperty::BorderRight,
        193 => CssProperty::BorderRightClip,
        194 => CssProperty::BorderRightColor,
        195 => CssProperty::BorderRightRadius,
        196 => CssProperty::BorderRightStyle,
        197 => CssProperty::BorderRightWidth,
        198 => CssProperty::BorderShape,
        199 => CssProperty::BorderSpacing,
        _ => lookup_entry_from_200(i),
    }
}

/// `lookup_entry` from index 200 on.
pub open spec fn lookup_entry_from_200(i: usize) -> CssProperty {
    match i {
        200 => CssProperty::BorderStartEndRadius,
        201 => CssProperty::BorderStartStartRadius,
        202 => CssProperty::BorderStyle,
        203 => CssProperty::BorderTop,
        204 => CssProperty::BorderTopClip,
        205 => CssProperty::BorderTopColor,
        206 => CssProperty::BorderTopLeftRadius,
        207 => CssProperty::BorderTopRadius,
        208 => CssProperty::BorderTopRightRadius,
        209 => CssProperty::BorderTopStyle,
        210 => CssProperty::BorderTopWidth,
        211 => CssProperty::BorderWidth,
        212 => CssProperty::Bottom,
        213 => CssProperty::BoxDecorationBreak,
        214 => CssProperty::BoxShadow,
        215 => CssProperty::BoxShadowBlur,
        216 => CssProperty::BoxShadowColor,
        217 => CssProperty::BoxShadowOffset,
        218 => CssProperty::BoxShadowPosition,
        219 => CssProperty::BoxShadowSpread,
        220 => CssProperty::BoxSizing,
        221 => CssProperty::BoxSnap,
        222 => CssProperty::BreakAfter,
        223 => CssProperty::BreakBefore,
        224 => CssProperty::BreakInside,
        225 => CssProperty::CaptionSide,
        226 => CssProperty::Caret,
        227 => CssProperty::CaretAnimation,
        228 => CssProperty::CaretColor,
        229 => CssProperty::CaretShape,
        230 => CssProperty::Clear,
        231 => CssProperty::Clip,
        232 => CssProperty::ClipPath,
        233 => CssProperty::ClipRule,
        234 => CssProperty::Color,
        235 => CssProperty::ColorAdjust,
        236 => CssProperty::ColorInterpolation,
        237 => CssProperty::ColorInterpolationFilters,
        238 => CssProperty::ColorScheme,
        239 => CssProperty::ColumnCount,
        240 => CssProperty::ColumnFill,
        241 => CssProperty::ColumnGap,
        242 => CssProperty::ColumnHeight,
        243 => CssProperty::ColumnRule,
        244 => CssProperty::ColumnRuleBreak,
        245 => CssProperty::ColumnRuleColor,
        246 => CssProperty::ColumnRuleInset,
        247 => CssProperty::ColumnRuleInsetCap,
        248 => CssProperty::ColumnRuleInsetCapEnd,
        249 => CssProperty::ColumnRuleInsetCapStart,
        250 => CssProperty::ColumnRuleInsetEnd,
        251 => CssProperty::ColumnRuleInsetJunction,
        252 => CssProperty::ColumnRuleInsetJunctionEnd,
        253 => CssProperty::ColumnRuleInsetJunctionStart,
        254 => CssProperty::ColumnRuleInsetStart,
        255 => CssProperty::ColumnRuleStyle,
        256 => CssProperty::ColumnRuleVisibilityItems,
        257 => CssProperty::ColumnRuleWidth,
        258 => CssProperty::ColumnSpan,
        259 => CssProperty::ColumnWidth,
        260 => CssProperty::ColumnWrap,
        261 => CssProperty::Columns,
        262 => CssProperty::Contain,
        263 => CssProperty::ContainIntrinsicBlockSize,
        264 => CssProperty::ContainIntrinsicHeight,
        265 => CssProperty::ContainIntrinsicInlineSize,
        266 => CssProperty::ContainIntrinsicSize,
        267 => CssProperty::ContainIntrinsicWidth,
        268 => CssProperty::Container,
        269 => CssProperty::ContainerName,
        270 => CssProperty::ContainerType,
        271 => CssProperty::Content,
        272 => CssProperty::ContentVisibility,
        273 => CssProperty::Continue,
        274 => CssProperty::CopyInto,
        275 => CssProperty::Corner,
        276 => CssProperty::CornerBlockEnd,
        277 => CssProperty::CornerBlockEndShape,
        278 => CssProperty::CornerBlockStart,
        279 => CssProperty::CornerBlockStartShape,
        280 => CssProperty::CornerBottom,
        281 => CssProperty::CornerBottomLeft,
        282 => CssProperty::CornerBottomLeftShape,
        283 => CssProperty::CornerBottomRight,
        284 => CssProperty::CornerBottomRightShape,
        285 => CssProperty::CornerBottomShape,
        286 => CssProperty::CornerEndEnd,
        287 => CssProperty::CornerEndEndShape,
        288 => CssProperty::CornerEndStart,
        289 => CssProperty::CornerEndStartShape,
        290 => CssProperty::CornerInlineEnd,
        291 => CssProperty::CornerInlineEndShape,
        292 => CssProperty::CornerInlineStart,
        293 => CssProperty::CornerInlineStartShape,
        294 => CssProperty::CornerLeft,
        295 => CssProperty::CornerLeftShape,
        296 => CssProperty::CornerRight,
        297 => CssProperty::CornerRightShape,
        298 => CssProperty::CornerShape,
        299 => CssProperty::CornerStartEnd,
        _ => lookup_entry_from_300(i),
    }
}

/// `lookup_entry` from index 300 on.
pub open spec fn lookup_entry_from_300(i: usize) -> CssProperty {
    match i {
        300 => CssProperty::CornerStartEndShape,
        301 => CssProperty::CornerStartStart,
        302 => CssProperty::CornerStartStartShape,
        303 => CssProperty::CornerTop,
        304 => CssProperty::CornerTopLeft,
        305 => CssProperty::CornerTopLeftShape,
        306 => CssProperty::CornerTopRight,
        307 => CssProperty::CornerTopRightShape,
        308 => CssProperty::CornerTopShape,
        309 => CssProperty::CounterIncrement,
        310 => CssProperty::CounterReset,
        311 => CssProperty::CounterSet,
        312 => CssProperty::Cue,
        313 => CssProperty::CueAfter,
        314 => CssProperty::CueBefore,
        315 => CssProperty::Cursor,
        316 => CssProperty::Cx,
        317 => CssProperty::Cy,
        318 => CssProperty::D,
        319 => CssProperty::Direction,
        320 => CssProperty::Display,
        321 => CssProperty::DominantBaseline,
        322 => CssProperty::DynamicRangeLimit,
        323 => CssProperty::EmptyCells,
        324 => CssProperty::EventTrigger,
        325 => CssProperty::EventTriggerName,
        326 => CssProperty::EventTriggerSource,
        327 => CssProperty::FieldSizing,
        328 => CssProperty::Fill,
        329 => CssProperty::FillBreak,
        330 => CssProperty::FillColor,
        331 => CssProperty::FillImage,
        332 => CssProperty::FillOpacity,
        333 => CssProperty::FillOrigin,
        334 => CssProperty::FillPosition,
        335 => CssProperty::FillRepeat,
        336 => CssProperty::FillRule,
        337 => CssProperty::FillSize,
        338 => CssProperty::Filter,
        339 => CssProperty::Flex,
        340 => CssProperty::FlexBasis,
        341 => CssProperty::FlexDirection,
        342 => CssProperty::FlexFlow,
        343 => CssProperty::FlexGrow,
        344 => CssProperty::FlexShrink,
        345 => CssProperty::FlexWrap,
        346 => CssProperty::Float,
        347 => CssProperty::FloatDefer,
        348 => CssProperty::FloatOffset,
        349 => CssProperty::FloatReference,
        350 => CssProperty::FloodColor,
        351 => CssProperty::FloodOpacity,
        352 => CssProperty::FlowFrom,
        353 => CssProperty::FlowInto,
        354 => CssProperty::FlowTolerance,
        355 => CssProperty::Font,
        356 => CssProperty::FontFamily,
        357 => CssProperty::FontFeatureSettings,
        358 => CssProperty::FontKerning,
        359 => CssProperty::FontLanguageOverride,
        360 => CssProperty::FontOpticalSizing,
        361 => CssProperty::FontPalette,
        362 => CssProperty::FontSize,
        363 => CssProperty::FontSizeAdjust,
        364 => CssProperty::FontStretch,
        365 => CssProperty::FontStyle,
        366 => CssProperty::FontSynthesis,
        367 => CssProperty::FontSynthesisPosition,
        368 => CssProperty::FontSynthesisSmallCaps,
        369 => CssProperty::FontSynthesisStyle,
        370 => CssProperty::FontSynthesisWeight,
        371 => CssProperty::FontVariant,
        372 => CssProperty::FontVariantAlternates,
        373 => CssProperty::FontVariantCaps,
        374 => CssProperty::FontVariantEastAsian,
        375 => CssProperty::FontVariantEmoji,
        376 => CssProperty::FontVariantLigatures,
        377 => CssProperty::FontVariantNumeric,
        378 => CssProperty::FontVariantPosition,
        379 => CssProperty::FontVariationSettings,
        380 => CssProperty::FontWeight,
        381 => CssProperty::FontWidth,
        382 => CssProperty::FootnoteDisplay,
        383 => CssProperty::FootnotePolicy,
        384 => CssProperty::ForcedColorAdjust,
        385 => CssProperty::FrameSizing,
        386 => CssProperty::Gap,
        387 => CssProperty::GlyphOrientationVertical,
        388 => CssProperty::Grid,
        389 => CssProperty::GridArea,
        390 => CssProperty::GridAutoColumns,
        391 => CssProperty::GridAutoFlow,
        392 => CssProperty::GridAutoRows,
        393 => CssProperty::GridColumn,
        394 => CssProperty::GridColumnEnd,
        395 => CssProperty::GridColumnGap,
        396 => CssProperty::GridColumnStart,
        397 => CssProperty::GridGap,
        398 => CssProperty::GridRow,
        399 => CssProperty::GridRowEnd,
        _ => lookup_entry_from_400(i),
    }
}

/// `lookup_entry` from index 400 on.
pub open spec fn lookup_entry_from_400(i: usize) -> CssProperty {
    match i {
        400 => CssProperty::GridRowGap,
        401 => CssProperty::GridRowStart,
        402 => CssProperty::GridTemplate,
        403 => CssProperty::GridTemplateAreas,
        404 => CssProperty::GridTemplateColumns,
        405 => CssProperty::GridTemplateRows,
        406 => CssProperty::HangingPunctuation,
        407 => CssProperty::Height,
        408 => CssProperty::HyphenateCharacter,
        409 => CssProperty::HyphenateLimitChars,
        410 => CssProperty::HyphenateLimitLast,
        411 => CssProperty::HyphenateLimitLines,
        412 => CssProperty::HyphenateLimitZone,
        413 => CssProperty::Hyphens,
        414 => CssProperty::ImageAnimation,
        415 => CssProperty::ImageOrientation,
        416 => CssProperty::ImageRendering,
        417 => CssProperty::ImageResolution,
        418 => CssProperty::InitialLetter,
        419 => CssProperty::InitialLetterAlign,
        420 => CssProperty::InitialLetterWrap,
        421 => CssProperty::InlineSize,
        422 => CssProperty::InlineSizing,
        423 => CssProperty::InputSecurity,
        424 => CssProperty::Inset,
        425 => CssProperty::InsetBlock,
        426 => CssProperty::InsetBlockEnd,
        427 => CssProperty::InsetBlockStart,
        428 => CssProperty::InsetInline,
        429 => CssProperty::InsetInlineEnd,
        430 => CssProperty::InsetInlineStart,
        431 => CssProperty::Interactivity,
        432 => CssProperty::InterestDelay,
        433 => CssProperty::InterestDelayEnd,
        434 => CssProperty::InterestDelayStart,
        435 => CssProperty::InterpolateSize,
        436 => CssProperty::Isolation,
        437 => CssProperty::JustifyContent,
        438 => CssProperty::JustifyItems,
        439 => CssProperty::JustifySelf,
        440 => CssProperty::Left,
        441 => CssProperty::LetterSpacing,
        442 => CssProperty::LightingColor,
        443 => CssProperty::LineBreak,
        444 => CssProperty::LineClamp,
        445 => CssProperty::LineFitEdge,
        446 => CssProperty::LineGrid,
        447 => CssProperty::LineHeight,
        448 => CssProperty::LineHeightStep,
        449 => CssProperty::LinePadding,
        450 => CssProperty::LineSnap,
        451 => CssProperty::LinkParameters,
        452 => CssProperty::ListStyle,
        453 => CssProperty::ListStyleImage,
        454 => CssProperty::ListStylePosition,
        455 => CssProperty::ListStyleType,
        456 => CssProperty::Margin,
        457 => CssProperty::MarginBlock,
        458 => CssProperty::MarginBlockEnd,
        459 => CssProperty::MarginBlockStart,
        460 => CssProperty::MarginBottom,
        461 => CssProperty::MarginBreak,
        462 => CssProperty::MarginInline,
        463 => CssProperty::MarginInlineEnd,
        464 => CssProperty::MarginInlineStart,
        465 => CssProperty::MarginLeft,
        466 => CssProperty::MarginRight,
        467 => CssProperty::MarginTop,
        468 => CssProperty::MarginTrim,
        469 => CssProperty::Marker,
        470 => CssProperty::MarkerEnd,
        471 => CssProperty::MarkerMid,
        472 => CssProperty::MarkerSide,
        473 => CssProperty::MarkerStart,
        474 => CssProperty::Mask,
        475 => CssProperty::MaskBorder,
        476 => CssProperty::MaskBorderMode,
        477 => CssProperty::MaskBorderOutset,
        478 => CssProperty::MaskBorderRepeat,
        479 => CssProperty::MaskBorderSlice,
        480 => CssProperty::MaskBorderSource,
        481 => CssProperty::MaskBorderWidth,
        482 => CssProperty::MaskClip,
        483 => CssProperty::MaskComposite,
        484 => CssProperty::MaskImage,
        485 => CssProperty::MaskMode,
        486 => CssProperty::MaskOrigin,
        487 => CssProperty::MaskPosition,
        488 => CssProperty::MaskRepeat,
        489 => CssProperty::MaskSize,
        490 => CssProperty::MaskType,
        491 => CssProperty::MathDepth,
        492 => CssProperty::MathShift,
        493 => CssProperty::MathStyle,
        494 => CssProperty::MaxBlockSize,
        495 => CssProperty::MaxHeight,
        496 => CssProperty::MaxInlineSize,
        497 => CssProperty::MaxLines,
        498 => CssProperty::MaxWidth,
        499 => CssProperty::MinBlockSize,
        _ => lookup_entry_from_500(i),
    }
}

/// `lookup_entry` from index 500 on.
pub open spec fn lookup_entry_from_500(i: usize) -> CssProperty {
    match i {
        500 => CssProperty::MinHeight,
        501 => CssProperty::MinInlineSize,
        502 => CssProperty::MinIntrinsicSizing,
        503 => CssProperty::MinWidth,
        504 => CssProperty::MixBlendMode,
        505 => CssProperty::NavDown,
        506 => CssProperty::NavLeft,
        507 => CssProperty::NavRight,
        508 => CssProperty::NavUp,
        509 => CssProperty::ObjectFit,
        510 => CssProperty::ObjectPosition,
        511 => CssProperty::ObjectViewBox,
        512 => CssProperty::Offset,
        513 => CssProperty::OffsetAnchor,
        514 => CssProperty::OffsetDistance,
        515 => CssProperty::OffsetPath,
        516 => CssProperty::OffsetPosition,
        517 => CssProperty::OffsetRotate,
        518 => CssProperty::Opacity,
        519 => CssProperty::Order,
        520 => CssProperty::Orphans,
        521 => CssProperty::Outline,
        522 => CssProperty::OutlineColor,
        523 => CssProperty::OutlineOffset,
        524 => CssProperty::OutlineStyle,
        525 => CssProperty::OutlineWidth,
        526 => CssProperty::Overflow,
        527 => CssProperty::OverflowAnchor,
        528 => CssProperty::OverflowBlock,
        529 => CssProperty::OverflowClipMargin,
        530 => CssProperty::OverflowClipMarginBlock,
        531 => CssProperty::OverflowClipMarginBlockEnd,
        532 => CssProperty::OverflowClipMarginBlockStart,
        533 => CssProperty::OverflowClipMarginBottom,
        534 => CssProperty::OverflowClipMarginInline,
        535 => CssProperty::OverflowClipMarginInlineEnd,
        536 => CssProperty::OverflowClipMarginInlineStart,
        537 => CssProperty::OverflowClipMarginLeft,
        538 => CssProperty::OverflowClipMarginRight,
        539 => CssProperty::OverflowClipMarginTop,
        540 => CssProperty::OverflowInline,
        541 => CssProperty::OverflowWrap,
        542 => CssProperty::OverflowX,
        543 => CssProperty::OverflowY,
        544 => CssProperty::Overlay,
        545 => CssProperty::OverscrollBehavior,
        546 => CssProperty::OverscrollBehaviorBlock,
        547 => CssProperty::OverscrollBehaviorInline,
        548 => CssProperty::OverscrollBehaviorX,
        549 => CssProperty::OverscrollBehaviorY,
        550 => CssProperty::Padding,
        551 => CssProperty::PaddingBlock,
        552 => CssProperty::PaddingBlockEnd,
        553 => CssProperty::PaddingBlockStart,
        554 => CssProperty::PaddingBottom,
        555 => CssProperty::PaddingInline,
        556 => CssProperty::PaddingInlineEnd,
        557 => CssProperty::PaddingInlineStart,
        558 => CssProperty::PaddingLeft,
        559 => CssProperty::PaddingRight,
        560 => CssProperty::PaddingTop,
        561 => CssProperty::Page,
        562 => CssProperty::PageBreakAfter,
        563 => CssProperty::PageBreakBefore,
        564 => CssProperty::PageBreakInside,
        565 => CssProperty::PaintOrder,
        566 => CssProperty::PathLength,
        567 => CssProperty::Pause,
        568 => CssProperty::PauseAfter,
        569 => CssProperty::PauseBefore,
        570 => CssProperty::Perspective,
        571 => CssProperty::PerspectiveOrigin,
        572 => CssProperty::PlaceContent,
        573 => CssProperty::PlaceItems,
        574 => CssProperty::PlaceSelf,
        575 => CssProperty::PointerEvents,
        576 => CssProperty::PointerTimeline,
        577 => CssProperty::PointerTimelineAxis,
        578 => CssProperty::PointerTimelineName,
        579 => CssProperty::Position,
        580 => CssProperty::PositionAnchor,
        581 => CssProperty::PositionArea,
        582 => CssProperty::PositionTry,
        583 => CssProperty::PositionTryFallbacks,
        584 => CssProperty::PositionTryOrder,
        585 => CssProperty::PositionVisibility,
        586 => CssProperty::PrintColorAdjust,
        587 => CssProperty::Quotes,
        588 => CssProperty::R,
        589 => CssProperty::ReadingFlow,
        590 => CssProperty::ReadingOrder,
        591 => CssProperty::RegionFragment,
        592 => CssProperty::Resize,
        593 => CssProperty::Rest,
        594 => CssProperty::RestAfter,
        595 => CssProperty::RestBefore,
        596 => CssProperty::Right,
        597 => CssProperty::Rotate,
        598 => CssProperty::RowGap,
        599 => CssProperty::RowRule,
        _ => lookup_entry_from_600(i),
    }
}

/// `lookup_entry` from index 600 on.
pub open spec fn lookup_entry_from_600(i: usize) -> CssProperty {
    match i {
        600 => CssProperty::RowRuleBreak,
        601 => CssProperty::RowRuleColor,
        602 => CssProperty::RowRuleInset,
        603 => CssProperty::RowRuleInsetCap,
        604 => CssProperty::RowRuleInsetCapEnd,
        605 => CssProperty::RowRuleInsetCapStart,
        606 => CssProperty::RowRuleInsetEnd,
        607 => CssProperty::RowRuleInsetJunction,
        608 => CssProperty::RowRuleInsetJunctionEnd,
        609 => CssProperty::RowRuleInsetJunctionStart,
        610 => CssProperty::RowRuleInsetStart,
        611 => CssProperty::RowRuleStyle,
        612 => CssProperty::RowRuleVisibilityItems,
        613 => CssProperty::RowRuleWidth,
        614 => CssProperty::RubyAlign,
        615 => CssProperty::RubyMerge,
        616 => CssProperty::RubyOverhang,
        617 => CssProperty::RubyPosition,
        618 => CssProperty::Rule,
        619 => CssProperty::RuleBreak,
        620 => CssProperty::RuleColor,
        621 => CssProperty::RuleInset,
        622 => CssProperty::RuleInsetCap,
        623 => CssProperty::RuleInsetEnd,
        624 => CssProperty::RuleInsetJunction,
        625 => CssProperty::RuleInsetStart,
        626 => CssProperty::RuleOverlap,
        627 => CssProperty::RuleStyle,
        628 => CssProperty::RuleVisibilityItems,
        629 => CssProperty::RuleWidth,
        630 => CssProperty::Rx,
        631 => CssProperty::Ry,
        632 => CssProperty::Scale,
        633 => CssProperty::ScrollBehavior,
        634 => CssProperty::ScrollInitialTarget,
        635 => CssProperty::ScrollMargin,
        636 => CssProperty::ScrollMarginBlock,
        637 => CssProperty::ScrollMarginBlockEnd,
        638 => CssProperty::ScrollMarginBlockStart,
        639 => CssProperty::ScrollMarginBottom,
        640 => CssProperty::ScrollMarginInline,
        641 => CssProperty::ScrollMarginInlineEnd,
        642 => CssProperty::ScrollMarginInlineStart,
        643 => CssProperty::ScrollMarginLeft,
        644 => CssProperty::ScrollMarginRight,
        645 => CssProperty::ScrollMarginTop,
        646 => CssProperty::ScrollMarkerGroup,
        647 => CssProperty::ScrollPadding,
        648 => CssProperty::ScrollPaddingBlock,
        649 => CssProperty::ScrollPaddingBlockEnd,
        650 => CssProperty::ScrollPaddingBlockStart,
        651 => CssProperty::ScrollPaddingBottom,
        652 => CssProperty::ScrollPaddingInline,
        653 => CssProperty::ScrollPaddingInlineEnd,
        654 => CssProperty::ScrollPaddingInlineStart,
        655 => CssProperty::ScrollPaddingLeft,
        656 => CssProperty::ScrollPaddingRight,
        657 => CssProperty::ScrollPaddingTop,
        658 => CssProperty::ScrollSnapAlign,
        659 => CssProperty::ScrollSnapStop,
        660 => CssProperty::ScrollSnapType,
        661 => CssProperty::ScrollTargetGroup,
        662 => CssProperty::ScrollTimeline,
        663 => CssProperty::ScrollTimelineAxis,
        664 => CssProperty::ScrollTimelineName,
        665 => CssProperty::ScrollbarColor,
        666 => CssProperty::ScrollbarGutter,
        667 => CssProperty::ScrollbarInset,
        668 => CssProperty::ScrollbarMinThumbSize,
        669 => CssProperty::ScrollbarMode,
        670 => CssProperty::ScrollbarWidth,
        671 => CssProperty::ShapeImageThreshold,
        672 => CssProperty::ShapeInside,
        673 => CssProperty::ShapeMargin,
        674 => CssProperty::ShapeOutside,
        675 => CssProperty::ShapePadding,
        676 => CssProperty::ShapeRendering,
        677 => CssProperty::SliderOrientation,
        678 => CssProperty::SpatialNavigationAction,
        679 => CssProperty::SpatialNavigationContain,
        680 => CssProperty::SpatialNavigationFunction,
        681 => CssProperty::Speak,
        682 => CssProperty::SpeakAs,
        683 => CssProperty::StopColor,
        684 => CssProperty::StopOpacity,
        685 => CssProperty::StringSet,
        686 => CssProperty::Stroke,
        687 => CssProperty::StrokeAlign,
        688 => CssProperty::StrokeAlignment,
        689 => CssProperty::StrokeBreak,
        690 => CssProperty::StrokeColor,
        691 => CssProperty::StrokeDashCornerPropdefStrokeDashCorner,
        692 => CssProperty::StrokeDashJustify,
        693 => CssProperty::StrokeDashadjust,
        694 => CssProperty::StrokeDasharray,
        695 => CssProperty::StrokeDashcornerStrokedashcornerproperty,
        696 => CssProperty::StrokeDashoffset,
        697 => CssProperty::StrokeImage,
        698 => CssProperty::StrokeLinecap,
        699 => CssProperty::StrokeLinejoin,
        _ => lookup_entry_from_700(i),
    }
}

/// `lookup_entry` from index 700 on.
pub open spec fn lookup_entry_from_700(i: usize) -> CssProperty {
    match i {
        700 => CssProperty::StrokeMiterlimit,
        701 => CssProperty::StrokeOpacity,
        702 => CssProperty::StrokeOrigin,
        703 => CssProperty::StrokePosition,
        704 => CssProperty::StrokeRepeat,
        705 => CssProperty::StrokeSize,
        706 => CssProperty::StrokeWidth,
        707 => CssProperty::TabSize,
        708 => CssProperty::TableLayout,
        709 => CssProperty::TextAlign,
        710 => CssProperty::TextAlignAll,
        711 => CssProperty::TextAlignLast,
        712 => CssProperty::TextAnchor,
        713 => CssProperty::TextAutospace,
        714 => CssProperty::TextBox,
        715 => CssProperty::TextBoxEdge,
        716 => CssProperty::TextBoxTrim,
        717 => CssProperty::TextCombineUpright,
        718 => CssProperty::TextDecoration,
        719 => CssProperty::TextDecorationColor,
        720 => CssProperty::TextDecorationInset,
        721 => CssProperty::TextDecorationLine,
        722 => CssProperty::TextDecorationSkip,
        723 => CssProperty::TextDecorationSkipBox,
        724 => CssProperty::TextDecorationSkipInk,
        725 => CssProperty::TextDecorationSkipSelf,
        726 => CssProperty::TextDecorationSkipSpaces,
        727 => CssProperty::TextDecorationStyle,
        728 => CssProperty::TextDecorationThickness,
        729 => CssProperty::TextEmphasis,
        730 => CssProperty::TextEmphasisColor,
        731 => CssProperty::TextEmphasisPosition,
        732 => CssProperty::TextEmphasisSkip,
        733 => CssProperty::TextEmphasisStyle,
        734 => CssProperty::TextFit,
        735 => CssProperty::TextGroupAlign,
        736 => CssProperty::TextIndent,
        737 => CssProperty::TextJustify,
        738 => CssProperty::TextOrientation,
        739 => CssProperty::TextOverflow,
        740 => CssProperty::TextRendering,
        741 => CssProperty::TextShadow,
        742 => CssProperty::TextSizeAdjust,
        743 => CssProperty::TextSpacing,
        744 => CssProperty::TextSpacingTrim,
        745 => CssProperty::TextTransform,
        746 => CssProperty::TextUnderlineOffset,
        747 => CssProperty::TextUnderlinePosition,
        748 => CssProperty::TextWrap,
        749 => CssProperty::TextWrapMode,
        750 => CssProperty::TextWrapStyle,
        751 => CssProperty::TimelineScope,
        752 => CssProperty::TimelineTrigger,
        753 => CssProperty::TimelineTriggerActivationRange,
        754 => CssProperty::TimelineTriggerActivationRangeEnd,
        755 => CssProperty::TimelineTriggerActivationRangeStart,
        756 => CssProperty::TimelineTriggerActiveRange,
        757 => CssProperty::TimelineTriggerActiveRangeEnd,
        758 => CssProperty::TimelineTriggerActiveRangeStart,
        759 => CssProperty::TimelineTriggerName,
        760 => CssProperty::TimelineTriggerSource,
        761 => CssProperty::Top,
        762 => CssProperty::TouchAction,
        763 => CssProperty::Transform,
        764 => CssProperty::TransformBox,
        765 => CssProperty::TransformOrigin,
        766 => CssProperty::TransformStyle,
        767 => CssProperty::Transition,
        768 => CssProperty::TransitionBehavior,
        769 => CssProperty::TransitionDelay,
        770 => CssProperty::TransitionDuration,
        771 => CssProperty::TransitionProperty,
        772 => CssProperty::TransitionTimingFunction,
        773 => CssProperty::Translate,
        774 => CssProperty::TriggerScope,
        775 => CssProperty::UnicodeBidi,
        776 => CssProperty::UserSelect,
        777 => CssProperty::VectorEffect,
        778 => CssProperty::VerticalAlign,
        779 => CssProperty::ViewTimeline,
        780 => CssProperty::ViewTimelineAxis,
        781 => CssProperty::ViewTimelineInset,
        782 => CssProperty::ViewTimelineName,
        783 => CssProperty::ViewTransitionClass,
        784 => CssProperty::ViewTransitionGroup,
        785 => CssProperty::ViewTransitionName,
        786 => CssProperty::ViewTransitionScope,
        787 => CssProperty::Visibility,
        788 => CssProperty::VoiceBalance,
        789 => CssProperty::VoiceDuration,
        790 => CssProperty::VoiceFamily,
        791 => CssProperty::VoicePitch,
        792 => CssProperty::VoiceRange,
        793 => CssProperty::VoiceRate,
        794 => CssProperty::VoiceStress,
        795 => CssProperty::VoiceVolume,
        796 => CssProperty::WhiteSpace,
        797 => CssProperty::WhiteSpaceCollapse,
        798 => CssProperty::WhiteSpaceTrim,
        799 => CssProperty::Widows,
        _ => lookup_entry_from_800(i),
    }
}

/// `lookup_entry` from index 800 on.
pub open spec fn lookup_entry_from_800(i: usize) -> CssProperty {
    match i {
        800 => CssProperty::Width,
        801 => CssProperty::WillChange,
        802 => CssProperty::WordBreak,
        803 => CssProperty::WordSpaceTransform,
        804 => CssProperty::WordSpacing,
        805 => CssProperty::WordWrap,
        806 => CssProperty::WrapAfter,
        807 => CssProperty::WrapBefore,
        808 => CssProperty::WrapFlow,
        809 => CssProperty::WrapInside,
        810 => CssProperty::WrapThrough,
        811 => CssProperty::WritingMode,
        812 => CssProperty::X,
        813 => CssProperty::Y,
        814 => CssProperty::ZIndex,
        815 => CssProperty::Zoom,
        _ => CssProperty::Zoom,
    }
}

impl CssProperty {
    /// The property's name; empty for an unknown property.
    pub open spec fn spec_name(&self) -> Seq<char> {
        match self {
            CssProperty::WebkitAlignContent => "-webkit-align-content"@,
            CssProperty::WebkitAlignItems => "-webkit-align-items"@,
            CssProperty::WebkitAlignSelf => "-webkit-align-self"@,
            CssProperty::WebkitAnimation => "-webkit-animation"@,
            CssProperty::WebkitAnimationDelay => "-webkit-animation-delay"@,
            CssProperty::WebkitAnimationDirection => "-webkit-animation-direction"@,
            CssProperty::WebkitAnimationDuration => "-webkit-animation-duration"@,
            CssProperty::WebkitAnimationFillMode => "-webkit-animation-fill-mode"@,
            CssProperty::WebkitAnimationIterationCount => "-webkit-animation-iteration-count"@,
            CssProperty::WebkitAnimationName => "-webkit-animation-name"@,
            CssProperty::WebkitAnimationPlayState => "-webkit-animation-play-state"@,
            CssProperty::WebkitAnimationTimingFunction => "-webkit-animation-timing-function"@,
            CssProperty::WebkitAppearance => "-webkit-appearance"@,
            CssProperty::WebkitBackfaceVisibility => "-webkit-backface-visibility"@,
            CssProperty::WebkitBackgroundClip => "-webkit-background-clip"@,
            CssProperty::WebkitBackgroundOrigin => "-webkit-background-origin"@,
            CssProperty::WebkitBackgroundSize => "-webkit-background-size"@,
            CssProperty::WebkitBorderBottomLeftRadius => "-webkit-border-bottom-left-radius"@,
            CssProperty::WebkitBorderBottomRightRadius => "-webkit-border-bottom-right-radius"@,
            CssProperty::WebkitBorderRadius => "-webkit-border-radius"@,
            CssProperty::WebkitBorderTopLeftRadius => "-webkit-border-top-left-radius"@,
            CssProperty::WebkitBorderTopRightRadius => "-webkit-border-top-right-radius"@,
            CssProperty::WebkitBoxAlign => "-webkit-box-align"@,
            CssProperty::WebkitBoxFlex => "-webkit-box-flex"@,
            CssProperty::WebkitBoxOrdinalGroup => "-webkit-box-ordinal-group"@,
            CssProperty::WebkitBoxOrient => "-webkit-box-orient"@,
            CssProperty::WebkitBoxPack => "-webkit-box-pack"@,
            CssProperty::WebkitBoxShadow => "-webkit-box-shadow"@,
            CssProperty::WebkitBoxSizing => "-webkit-box-sizing"@,
            CssProperty::WebkitFilter => "-webkit-filter"@,
            CssProperty::WebkitFlex => "-webkit-flex"@,
            CssProperty::WebkitFlexBasis => "-webkit-flex-basis"@,
            CssProperty::WebkitFlexDirection => "-webkit-flex-direction"@,
            CssProperty::WebkitFlexFlow => "-webkit-flex-flow"@,
            CssProperty::WebkitFlexGrow => "-webkit-flex-grow"@,
            CssProperty::WebkitFlexShrink => "-webkit-flex-shrink"@,
            CssProperty::WebkitFlexWrap => "-webkit-flex-wrap"@,
            CssProperty::WebkitJustifyContent => "-webkit-justify-content"@,
            CssProperty::WebkitLineClamp => "-webkit-line-clamp"@,
            CssProperty::WebkitMask => "-webkit-mask"@,
            CssProperty::WebkitMaskBoxImage => "-webkit-mask-box-image"@,
            CssProperty::WebkitMaskBoxImageOutset => "-webkit-mask-box-image-outset"@,
            CssProperty::WebkitMaskBoxImageRepeat => "-webkit-mask-box-image-repeat"@,
            CssProperty::WebkitMaskBoxImageSlice => "-webkit-mask-box-image-slice"@,
            CssProperty::WebkitMaskBoxImageSource => "-webkit-mask-box-image-source"@,
            CssProperty::WebkitMaskBoxImageWidth => "-webkit-mask-box-image-width"@,
            CssProperty::WebkitMaskClip => "-webkit-mask-clip"@,
            CssProperty::WebkitMaskComposite => "-webkit-mask-composite"@,
            CssProperty::WebkitMaskImage => "-webkit-mask-image"@,
            CssProperty::WebkitMaskOrigin => "-webkit-mask-origin"@,
            CssProperty::WebkitMaskPosition => "-webkit-mask-position"@,
            CssProperty::WebkitMaskRepeat => "-webkit-mask-repeat"@,
            CssProperty::WebkitMaskSize => "-webkit-mask-size"@,
            CssProperty::WebkitOrder => "-webkit-order"@,
            CssProperty::WebkitPerspective => "-webkit-perspective"@,
            CssProperty::WebkitPerspectiveOrigin => "-webkit-perspective-origin"@,
            CssProperty::WebkitTextFillColor => "-webkit-text-fill-color"@,
            CssProperty::WebkitTextSizeAdjust => "-webkit-text-size-adjust"@,
            CssProperty::WebkitTextStroke => "-webkit-text-stroke"@,
            CssProperty::WebkitTextStrokeColor => "-webkit-text-stroke-color"@,
            CssProperty::WebkitTextStrokeWidth => "-webkit-text-stroke-width"@,
            CssProperty::WebkitTransform => "-webkit-transform"@,
            CssProperty::WebkitTransformOrigin => "-webkit-transform-origin"@,
            CssProperty::WebkitTransformStyle => "-webkit-transform-style"@,
            CssProperty::WebkitTransition => "-webkit-transition"@,
            CssProperty::WebkitTransitionDelay => "-webkit-transition-delay"@,
            CssProperty::WebkitTransitionDuration => "-webkit-transition-duration"@,
            CssProperty::WebkitTransitionProperty => "-webkit-transition-property"@,
            CssProperty::WebkitTransitionTimingFunction => "-webkit-transition-timing-function"@,
            CssProperty::WebkitUserSelect => "-webkit-user-select"@,
            CssProperty::AccentColor => "accent-color"@,
            CssProperty::AlignContent => "align-content"@,
            CssProperty::AlignItems => "align-items"@,
            CssProperty::AlignSelf => "align-self"@,
            CssProperty::AlignmentBaseline => "alignment-baseline"@,
            CssProperty::All => "all"@,
            CssProperty::AnchorName => "anchor-name"@,
            CssProperty::AnchorScope => "anchor-scope"@,
            CssProperty::Animation => "animation"@,
            CssProperty::AnimationComposition => "animation-composition"@,
            CssProperty::AnimationDelay => "animation-delay"@,
            CssProperty::AnimationDirection => "animation-direction"@,
            CssProperty::AnimationDuration => "animation-duration"@,
            CssProperty::AnimationFillMode => "animation-fill-mode"@,
            CssProperty::AnimationIterationCount => "animation-iteration-count"@,
            CssProperty::AnimationName => "animation-name"@,
            CssProperty::AnimationPlayState => "animation-play-state"@,
            CssProperty::AnimationRange => "animation-range"@,
            CssProperty::AnimationRangeCenter => "animation-range-center"@,
            CssProperty::AnimationRangeEnd => "animation-range-end"@,
            CssProperty::AnimationRangeStart => "animation-range-start"@,
            CssProperty::AnimationTimeline => "animation-timeline"@,
            CssProperty::AnimationTimingFunction => "animation-timing-function"@,
            CssProperty::AnimationTrigger => "animation-trigger"@,
            CssProperty::Appearance => "appearance"@,
            CssProperty::AspectRatio => "aspect-ratio"@,
            CssProperty::BackdropFilter => "backdrop-filter"@,
            CssProperty::BackfaceVisibility => "backface-visibility"@,
            CssProperty::Background => "background"@,
            CssProperty::BackgroundAttachment => "background-attachment"@,
            _ => self.spec_name_from_100(),
        }
    }

    /// `spec_name` for the values from the 100-th on.
    pub open spec fn spec_name_from_100(&self) -> Seq<char> {
        match self {
            CssProperty::BackgroundBlendMode => "background-blend-mode"@,
            CssProperty::BackgroundClip => "background-clip"@,
            CssProperty::BackgroundColor => "background-color"@,
            CssProperty::BackgroundImage => "background-image"@,
            CssProperty::BackgroundOrigin => "background-origin"@,
            CssProperty::BackgroundPosition => "background-position"@,
            CssProperty::BackgroundPositionBlock => "background-position-block"@,
            CssProperty::BackgroundPositionInline => "background-position-inline"@,
            CssProperty::BackgroundPositionX => "background-position-x"@,
            CssProperty::BackgroundPositionY => "background-position-y"@,
            CssProperty::BackgroundRepeat => "background-repeat"@,
            CssProperty::BackgroundRepeatBlock => "background-repeat-block"@,
            CssProperty::BackgroundRepeatInline => "background-repeat-inline"@,
            CssProperty::BackgroundRepeatX => "background-repeat-x"@,
            CssProperty::BackgroundRepeatY => "background-repeat-y"@,
            CssProperty::BackgroundSize => "background-size"@,
            CssProperty::BackgroundTbd => "background-tbd"@,
            CssProperty::BaselineShift => "baseline-shift"@,
            CssProperty::BaselineSource => "baseline-source"@,
            CssProperty::BlockEllipsis => "block-ellipsis"@,
            CssProperty::BlockSize => "block-size"@,
            CssProperty::BlockStep => "block-step"@,
            CssProperty::BlockStepAlign => "block-step-align"@,
            CssProperty::BlockStepInsert => "block-step-insert"@,
            CssProperty::BlockStepRound => "block-step-round"@,
            CssProperty::BlockStepSize => "block-step-size"@,
            CssProperty::BookmarkLabel => "bookmark-label"@,
            CssProperty::BookmarkLevel => "bookmark-level"@,
            CssProperty::BookmarkState => "bookmark-state"@,
            CssProperty::Border => "border"@,
            CssProperty::BorderBlock => "border-block"@,
            CssProperty::BorderBlockClip => "border-block-clip"@,
            CssProperty::BorderBlockColor => "border-block-color"@,
            CssProperty::BorderBlockEnd => "border-block-end"@,
            CssProperty::BorderBlockEndClip => "border-block-end-clip"@,
            CssProperty::BorderBlockEndColor => "border-block-end-color"@,
            CssProperty::BorderBlockEndRadius => "border-block-end-radius"@,
            CssProperty::BorderBlockEndStyle => "border-block-end-style"@,
            CssProperty::BorderBlockEndWidth => "border-block-end-width"@,
            CssProperty::BorderBlockStart => "border-block-start"@,
            CssProperty::BorderBlockStartClip => "border-block-start-clip"@,
            CssProperty::BorderBlockStartColor => "border-block-start-color"@,
            CssProperty::BorderBlockStartRadius => "border-block-start-radius"@,
            CssProperty::BorderBlockStartStyle => "border-block-start-style"@,
            CssProperty::BorderBlockStartWidth => "border-block-start-width"@,
            CssProperty::BorderBlockStyle => "border-block-style"@,
            CssProperty::BorderBlockWidth => "border-block-width"@,
            CssProperty::BorderBottom => "border-bottom"@,
            CssProperty::BorderBottomClip => "border-bottom-clip"@,
            CssProperty::BorderBottomColor => "border-bottom-color"@,
            CssProperty::BorderBottomLeftRadius => "border-bottom-left-radius"@,
            CssProperty::BorderBottomRadius => "border-bottom-radius"@,
            CssProperty::BorderBottomRightRadius => "border-bottom-right-radius"@,
            CssProperty::BorderBottomStyle => "border-bottom-style"@,
            CssProperty::BorderBottomWidth => "border-bottom-width"@,
            CssProperty::BorderBoundary => "border-boundary"@,
            CssProperty::BorderClip => "border-clip"@,
            CssProperty::BorderCollapse => "border-collapse"@,
            CssProperty::BorderColor => "border-color"@,
            CssProperty::BorderEndEndRadius => "border-end-end-radius"@,
            CssProperty::BorderEndStartRadius => "border-end-start-radius"@,
            CssProperty::BorderImage => "border-image"@,
            CssProperty::BorderImageOutset => "border-image-outset"@,
            CssProperty::BorderImageRepeat => "border-image-repeat"@,
            CssProperty::BorderImageSlice => "border-image-slice"@,
            CssProperty::BorderImageSource => "border-image-source"@,
            CssProperty::BorderImageWidth => "border-image-width"@,
            CssProperty::BorderInline => "border-inline"@,
            CssProperty::BorderInlineClip => "border-inline-clip"@,
            CssProperty::BorderInlineColor => "border-inline-color"@,
            CssProperty::BorderInlineEnd => "border-inline-end"@,
            CssProperty::BorderInlineEndClip => "border-inline-end-clip"@,
            CssProperty::BorderInlineEndColor => "border-inline-end-color"@,
            CssProperty::BorderInlineEndRadius => "border-inline-end-radius"@,
            CssProperty::BorderInlineEndStyle => "border-inline-end-style"@,
            CssProperty::BorderInlineEndWidth => "border-inline-end-width"@,
            CssProperty::BorderInlineStart => "border-inline-start"@,
            CssProperty::BorderInlineStartClip => "border-inline-start-clip"@,
            CssProperty::BorderInlineStartColor => "border-inline-start-color"@,
            CssProperty::BorderInlineStartRadius => "border-inline-start-radius"@,
            CssProperty::BorderInlineStartStyle => "border-inline-start-style"@,
            CssProperty::BorderInlineStartWidth => "border-inline-start-width"@,
            CssProperty::BorderInlineStyle => "border-inline-style"@,
            CssProperty::BorderInlineWidth => "border-inline-width"@,
            CssProperty::BorderLeft => "border-left"@,
            CssProperty::BorderLeftClip => "border-left-clip"@,
            CssProperty::BorderLeftColor => "border-left-color"@,
            CssProperty::BorderLeftRadius => "border-left-radius"@,
            CssProperty::BorderLeftStyle => "border-left-style"@,
            CssProperty::BorderLeftWidth => "border-left-width"@,
            CssProperty::BorderLimit => "border-limit"@,
            CssProperty::BorderRadius => "border-radius"@,
            CssProperty::BorderRight => "border-right"@,
            CssProperty::BorderRightClip => "border-right-clip"@,
            CssProperty::BorderRightColor => "border-right-color"@,
            CssProperty::BorderRightRadius => "border-right-radius"@,
            CssProperty::BorderRightStyle => "border-right-style"@,
            CssProperty::BorderRightWidth => "border-right-width"@,
            CssProperty::BorderShape => "border-shape"@,
            CssProperty::BorderSpacing => "border-spacing"@,
            _ => self.spec_name_from_200(),
        }
    }

    /// `spec_name` for the values from the 200-th on.
    pub open spec fn spec_name_from_200(&self) -> Seq<char> {
        match self {
            CssProperty::BorderStartEndRadius => "border-start-end-radius"@,
            CssProperty::BorderStartStartRadius => "border-start-start-radius"@,
            CssProperty::BorderStyle => "border-style"@,
            CssProperty::BorderTop => "border-top"@,
            CssProperty::BorderTopClip => "border-top-clip"@,
            CssProperty::BorderTopColor => "border-top-color"@,
            CssProperty::BorderTopLeftRadius => "border-top-left-radius"@,
            CssProperty::BorderTopRadius => "border-top-radius"@,
            CssProperty::BorderTopRightRadius => "border-top-right-radius"@,
            CssProperty::BorderTopStyle => "border-top-style"@,
            CssProperty::BorderTopWidth => "border-top-width"@,
            CssProperty::BorderWidth => "border-width"@,
            CssProperty::Bottom => "bottom"@,
            CssProperty::BoxDecorationBreak => "box-decoration-break"@,
            CssProperty::BoxShadow => "box-shadow"@,
            CssProperty::BoxShadowBlur => "box-shadow-blur"@,
            CssProperty::BoxShadowColor => "box-shadow-color"@,
            CssProperty::BoxShadowOffset => "box-shadow-offset"@,
            CssProperty::BoxShadowPosition => "box-shadow-position"@,
            CssProperty::BoxShadowSpread => "box-shadow-spread"@,
            CssProperty::BoxSizing => "box-sizing"@,
            CssProperty::BoxSnap => "box-snap"@,
            CssProperty::BreakAfter => "break-after"@,
            CssProperty::BreakBefore => "break-before"@,
            CssProperty::BreakInside => "break-inside"@,
            CssProperty::CaptionSide => "caption-side"@,
            CssProperty::Caret => "caret"@,
            CssProperty::CaretAnimation => "caret-animation"@,
            CssProperty::CaretColor => "caret-color"@,
            CssProperty::CaretShape => "caret-shape"@,
            CssProperty::Clear => "clear"@,
            CssProperty::Clip => "clip"@,
            CssProperty::ClipPath => "clip-path"@,
            CssProperty::ClipRule => "clip-rule"@,
            CssProperty::Color => "color"@,
            CssProperty::ColorAdjust => "color-adjust"@,
            CssProperty::ColorInterpolation => "color-interpolation"@,
            CssProperty::ColorInterpolationFilters => "color-interpolation-filters"@,
            CssProperty::ColorScheme => "color-scheme"@,
            CssProperty::ColumnCount => "column-count"@,
            CssProperty::ColumnFill => "column-fill"@,
            CssProperty::ColumnGap => "column-gap"@,
            CssProperty::ColumnHeight => "column-height"@,
            CssProperty::ColumnRule => "column-rule"@,
            CssProperty::ColumnRuleBreak => "column-rule-break"@,
            CssProperty::ColumnRuleColor => "column-rule-color"@,
            CssProperty::ColumnRuleInset => "column-rule-inset"@,
            CssProperty::ColumnRuleInsetCap => "column-rule-inset-cap"@,
            CssProperty::ColumnRuleInsetCapEnd => "column-rule-inset-cap-end"@,
            CssProperty::ColumnRuleInsetCapStart => "column-rule-inset-cap-start"@,
            CssProperty::ColumnRuleInsetEnd => "column-rule-inset-end"@,
            CssProperty::ColumnRuleInsetJunction => "column-rule-inset-junction"@,
            CssProperty::ColumnRuleInsetJunctionEnd => "column-rule-inset-junction-end"@,
            CssProperty::ColumnRuleInsetJunctionStart => "column-rule-inset-junction-start"@,
            CssProperty::ColumnRuleInsetStart => "column-rule-inset-start"@,
            CssProperty::ColumnRuleStyle => "column-rule-style"@,
            CssProperty::ColumnRuleVisibilityItems => "column-rule-visibility-items"@,
            CssProperty::ColumnRuleWidth => "column-rule-width"@,
            CssProperty::ColumnSpan => "column-span"@,
            CssProperty::ColumnWidth => "column-width"@,
            CssProperty::ColumnWrap => "column-wrap"@,
            CssProperty::Columns => "columns"@,
            CssProperty::Contain => "contain"@,
            CssProperty::ContainIntrinsicBlockSize => "contain-intrinsic-block-size"@,
            CssProperty::ContainIntrinsicHeight => "contain-intrinsic-height"@,
            CssProperty::ContainIntrinsicInlineSize => "contain-intrinsic-inline-size"@,
            CssProperty::ContainIntrinsicSize => "contain-intrinsic-size"@,
            CssProperty::ContainIntrinsicWidth => "contain-intrinsic-width"@,
            CssProperty::Container => "container"@,
            CssProperty::ContainerName => "container-name"@,
            CssProperty::ContainerType => "container-type"@,
            CssProperty::Content => "content"@,
            CssProperty::ContentVisibility => "content-visibility"@,
            CssProperty::Continue => "continue"@,
            CssProperty::CopyInto => "copy-into"@,
            CssProperty::Corner => "corner"@,
            CssProperty::CornerBlockEnd => "corner-block-end"@,
            CssProperty::CornerBlockEndShape => "corner-block-end-shape"@,
            CssProperty::CornerBlockStart => "corner-block-start"@,
            CssProperty::CornerBlockStartShape => "corner-block-start-shape"@,
            CssProperty::CornerBottom => "corner-bottom"@,
            CssProperty::CornerBottomLeft => "corner-bottom-left"@,
            CssProperty::CornerBottomLeftShape => "corner-bottom-left-shape"@,
            CssProperty::CornerBottomRight => "corner-bottom-right"@,
            CssProperty::CornerBottomRightShape => "corner-bottom-right-shape"@,
            CssProperty::CornerBottomShape => "corner-bottom-shape"@,
            CssProperty::CornerEndEnd => "corner-end-end"@,
            CssProperty::CornerEndEndShape => "corner-end-end-shape"@,
            CssProperty::CornerEndStart => "corner-end-start"@,
            CssProperty::CornerEndStartShape => "corner-end-start-shape"@,
            CssProperty::CornerInlineEnd => "corner-inline-end"@,
            CssProperty::CornerInlineEndShape => "corner-inline-end-shape"@,
            CssProperty::CornerInlineStart => "corner-inline-start"@,
            CssProperty::CornerInlineStartShape => "corner-inline-start-shape"@,
            CssProperty::CornerLeft => "corner-left"@,
            CssProperty::CornerLeftShape => "corner-left-shape"@,
            CssProperty::CornerRight => "corner-right"@,
            CssProperty::CornerRightShape => "corner-right-shape"@,
            CssProperty::CornerShape => "corner-shape"@,
            CssProperty::CornerStartEnd => "corner-start-end"@,
            _ => self.spec_name_from_300(),
        }
    }

    /// `spec_name` for the values from the 300-th on.
    pub open spec fn spec_name_from_300(&self) -> Seq<char> {
        match self {
            CssProperty::CornerStartEndShape => "corner-start-end-shape"@,
            CssProperty::CornerStartStart => "corner-start-start"@,
            CssProperty::CornerStartStartShape => "corner-start-start-shape"@,
            CssProperty::CornerTop => "corner-top"@,
            CssProperty::CornerTopLeft => "corner-top-left"@,
            CssProperty::CornerTopLeftShape => "corner-top-left-shape"@,
            CssProperty::CornerTopRight => "corner-top-right"@,
            CssProperty::CornerTopRightShape => "corner-top-right-shape"@,
            CssProperty::CornerTopShape => "corner-top-shape"@,
            CssProperty::CounterIncrement => "counter-increment"@,
            CssProperty::CounterReset => "counter-reset"@,
            CssProperty::CounterSet => "counter-set"@,
            CssProperty::Cue => "cue"@,
            CssProperty::CueAfter => "cue-after"@,
            CssProperty::CueBefore => "cue-before"@,
            CssProperty::Cursor => "cursor"@,
            CssProperty::Cx => "cx"@,
            CssProperty::Cy => "cy"@,
            CssProperty::D => "d"@,
            CssProperty::Direction => "direction"@,
            CssProperty::Display => "display"@,
            CssProperty::DominantBaseline => "dominant-baseline"@,
            CssProperty::DynamicRangeLimit => "dynamic-range-limit"@,
            CssProperty::EmptyCells => "empty-cells"@,
            CssProperty::EventTrigger => "event-trigger"@,
            CssProperty::EventTriggerName => "event-trigger-name"@,
            CssProperty::EventTriggerSource => "event-trigger-source"@,
            CssProperty::FieldSizing => "field-sizing"@,
            CssProperty::Fill => "fill"@,
            CssProperty::FillBreak => "fill-break"@,
            CssProperty::FillColor => "fill-color"@,
            CssProperty::FillImage => "fill-image"@,
            CssProperty::FillOpacity => "fill-opacity"@,
            CssProperty::FillOrigin => "fill-origin"@,
            CssProperty::FillPosition => "fill-position"@,
            CssProperty::FillRepeat => "fill-repeat"@,
            CssProperty::FillRule => "fill-rule"@,
            CssProperty::FillSize => "fill-size"@,
            CssProperty::Filter => "filter"@,
            CssProperty::Flex => "flex"@,
            CssProperty::FlexBasis => "flex-basis"@,
            CssProperty::FlexDirection => "flex-direction"@,
            CssProperty::FlexFlow => "flex-flow"@,
            CssProperty::FlexGrow => "flex-grow"@,
            CssProperty::FlexShrink => "flex-shrink"@,
            CssProperty::FlexWrap => "flex-wrap"@,
            CssProperty::Float => "float"@,
            CssProperty::FloatDefer => "float-defer"@,
            CssProperty::FloatOffset => "float-offset"@,
            CssProperty::FloatReference => "float-reference"@,
            CssProperty::FloodColor => "flood-color"@,
            CssProperty::FloodOpacity => "flood-opacity"@,
            CssProperty::FlowFrom => "flow-from"@,
            CssProperty::FlowInto => "flow-into"@,
            CssProperty::FlowTolerance => "flow-tolerance"@,
            CssProperty::Font => "font"@,
            CssProperty::FontFamily => "font-family"@,
            CssProperty::FontFeatureSettings => "font-feature-settings"@,
            CssProperty::FontKerning => "font-kerning"@,
            CssProperty::FontLanguageOverride => "font-language-override"@,
            CssProperty::FontOpticalSizing => "font-optical-sizing"@,
            CssProperty::FontPalette => "font-palette"@,
            CssProperty::FontSize => "font-size"@,
            CssProperty::FontSizeAdjust => "font-size-adjust"@,
            CssProperty::FontStretch => "font-stretch"@,
            CssProperty::FontStyle => "font-style"@,
            CssProperty::FontSynthesis => "font-synthesis"@,
            CssProperty::FontSynthesisPosition => "font-synthesis-position"@,
            CssProperty::FontSynthesisSmallCaps => "font-synthesis-small-caps"@,
            CssProperty::FontSynthesisStyle => "font-synthesis-style"@,
            CssProperty::FontSynthesisWeight => "font-synthesis-weight"@,
            CssProperty::FontVariant => "font-variant"@,
            CssProperty::FontVariantAlternates => "font-variant-alternates"@,
            CssProperty::FontVariantCaps => "font-variant-caps"@,
            CssProperty::FontVariantEastAsian => "font-variant-east-asian"@,
            CssProperty::FontVariantEmoji => "font-variant-emoji"@,
            CssProperty::FontVariantLigatures => "font-variant-ligatures"@,
            CssProperty::FontVariantNumeric => "font-variant-numeric"@,
            CssProperty::FontVariantPosition => "font-variant-position"@,
            CssProperty::FontVariationSettings => "font-variation-settings"@,
            CssProperty::FontWeight => "font-weight"@,
            CssProperty::FontWidth => "font-width"@,
            CssProperty::FootnoteDisplay => "footnote-display"@,
            CssProperty::FootnotePolicy => "footnote-policy"@,
            CssProperty::ForcedColorAdjust => "forced-color-adjust"@,
            CssProperty::FrameSizing => "frame-sizing"@,
            CssProperty::Gap => "gap"@,
            CssProperty::GlyphOrientationVertical => "glyph-orientation-vertical"@,
            CssProperty::Grid => "grid"@,
            CssProperty::GridArea => "grid-area"@,
            CssProperty::GridAutoColumns => "grid-auto-columns"@,
            CssProperty::GridAutoFlow => "grid-auto-flow"@,
            CssProperty::GridAutoRows => "grid-auto-rows"@,
            CssProperty::GridColumn => "grid-column"@,
            CssProperty::GridColumnEnd => "grid-column-end"@,
            CssProperty::GridColumnGap => "grid-column-gap"@,
            CssProperty::GridColumnStart => "grid-column-start"@,
            CssProperty::GridGap => "grid-gap"@,
            CssProperty::GridRow => "grid-row"@,
            CssProperty::GridRowEnd => "grid-row-end"@,
            _ => self.spec_name_from_400(),
        }
    }

    /// `spec_name` for the values from the 400-th on.
    pub open spec fn spec_name_from_400(&self) -> Seq<char> {
        match self {
            CssProperty::GridRowGap => "grid-row-gap"@,
            CssProperty::GridRowStart => "grid-row-start"@,
            CssProperty::GridTemplate => "grid-template"@,
            CssProperty::GridTemplateAreas => "grid-template-areas"@,
            CssProperty::GridTemplateColumns => "grid-template-columns"@,
            CssProperty::GridTemplateRows => "grid-template-rows"@,
            CssProperty::HangingPunctuation => "hanging-punctuation"@,
            CssProperty::Height => "height"@,
            CssProperty::HyphenateCharacter => "hyphenate-character"@,
            CssProperty::HyphenateLimitChars => "hyphenate-limit-chars"@,
            CssProperty::HyphenateLimitLast => "hyphenate-limit-last"@,
            CssProperty::HyphenateLimitLines => "hyphenate-limit-lines"@,
            CssProperty::HyphenateLimitZone => "hyphenate-limit-zone"@,
            CssProperty::Hyphens => "hyphens"@,
            CssProperty::ImageAnimation => "image-animation"@,
            CssProperty::ImageOrientation => "image-orientation"@,
            CssProperty::ImageRendering => "image-rendering"@,
            CssProperty::ImageResolution => "image-resolution"@,
            CssProperty::InitialLetter => "initial-letter"@,
            CssProperty::InitialLetterAlign => "initial-letter-align"@,
            CssProperty::InitialLetterWrap => "initial-letter-wrap"@,
            CssProperty::InlineSize => "inline-size"@,
            CssProperty::InlineSizing => "inline-sizing"@,
            CssProperty::InputSecurity => "input-security"@,
            CssProperty::Inset => "inset"@,
            CssProperty::InsetBlock => "inset-block"@,
            CssProperty::InsetBlockEnd => "inset-block-end"@,
            CssProperty::InsetBlockStart => "inset-block-start"@,
            CssProperty::InsetInline => "inset-inline"@,
            CssProperty::InsetInlineEnd => "inset-inline-end"@,
            CssProperty::InsetInlineStart => "inset-inline-start"@,
            CssProperty::Interactivity => "interactivity"@,
            CssProperty::InterestDelay => "interest-delay"@,
            CssProperty::InterestDelayEnd => "interest-delay-end"@,
            CssProperty::InterestDelayStart => "interest-delay-start"@,
            CssProperty::InterpolateSize => "interpolate-size"@,
            CssProperty::Isolation => "isolation"@,
            CssProperty::JustifyContent => "justify-content"@,
            CssProperty::JustifyItems => "justify-items"@,
            CssProperty::JustifySelf => "justify-self"@,
            CssProperty::Left => "left"@,
            CssProperty::LetterSpacing => "letter-spacing"@,
            CssProperty::LightingColor => "lighting-color"@,
            CssProperty::LineBreak => "line-break"@,
            CssProperty::LineClamp => "line-clamp"@,
            CssProperty::LineFitEdge => "line-fit-edge"@,
            CssProperty::LineGrid => "line-grid"@,
            CssProperty::LineHeight => "line-height"@,
            CssProperty::LineHeightStep => "line-height-step"@,
            CssProperty::LinePadding => "line-padding"@,
            CssProperty::LineSnap => "line-snap"@,
            CssProperty::LinkParameters => "link-parameters"@,
            CssProperty::ListStyle => "list-style"@,
            CssProperty::ListStyleImage => "list-style-image"@,
            CssProperty::ListStylePosition => "list-style-position"@,
            CssProperty::ListStyleType => "list-style-type"@,
            CssProperty::Margin => "margin"@,
            CssProperty::MarginBlock => "margin-block"@,
            CssProperty::MarginBlockEnd => "margin-block-end"@,
            CssProperty::MarginBlockStart => "margin-block-start"@,
            CssProperty::MarginBottom => "margin-bottom"@,
            CssProperty::MarginBreak => "margin-break"@,
            CssProperty::MarginInline => "margin-inline"@,
            CssProperty::MarginInlineEnd => "margin-inline-end"@,
            CssProperty::MarginInlineStart => "margin-inline-start"@,
            CssProperty::MarginLeft => "margin-left"@,
            CssProperty::MarginRight => "margin-right"@,
            CssProperty::MarginTop => "margin-top"@,
            CssProperty::MarginTrim => "margin-trim"@,
            CssProperty::Marker => "marker"@,
            CssProperty::MarkerEnd => "marker-end"@,
            CssProperty::MarkerMid => "marker-mid"@,
            CssProperty::MarkerSide => "marker-side"@,
            CssProperty::MarkerStart => "marker-start"@,
            CssProperty::Mask => "mask"@,
            CssProperty::MaskBorder => "mask-border"@,
            CssProperty::MaskBorderMode => "mask-border-mode"@,
            CssProperty::MaskBorderOutset => "mask-border-outset"@,
            CssProperty::MaskBorderRepeat => "mask-border-repeat"@,
            CssProperty::MaskBorderSlice => "mask-border-slice"@,
            CssProperty::MaskBorderSource => "mask-border-source"@,
            CssProperty::MaskBorderWidth => "mask-border-width"@,
            CssProperty::MaskClip => "mask-clip"@,
            CssProperty::MaskComposite => "mask-composite"@,
            CssProperty::MaskImage => "mask-image"@,
            CssProperty::MaskMode => "mask-mode"@,
            CssProperty::MaskOrigin => "mask-origin"@,
            CssProperty::MaskPosition => "mask-position"@,
            CssProperty::MaskRepeat => "mask-repeat"@,
            CssProperty::MaskSize => "mask-size"@,
            CssProperty::MaskType => "mask-type"@,
            CssProperty::MathDepth => "math-depth"@,
            CssProperty::MathShift => "math-shift"@,
            CssProperty::MathStyle => "math-style"@,
            CssProperty::MaxBlockSize => "max-block-size"@,
            CssProperty::MaxHeight => "max-height"@,
            CssProperty::MaxInlineSize => "max-inline-size"@,
            CssProperty::MaxLines => "max-lines"@,
            CssProperty::MaxWidth => "max-width"@,
            CssProperty::MinBlockSize => "min-block-size"@,
            _ => self.spec_name_from_500(),
        }
    }

    /// `spec_name` for the values from the 500-th on.
    pub open spec fn spec_name_from_500(&self) -> Seq<char> {
        match self {
            CssProperty::MinHeight => "min-height"@,
            CssProperty::MinInlineSize => "min-inline-size"@,
            CssProperty::MinIntrinsicSizing => "min-intrinsic-sizing"@,
            CssProperty::MinWidth => "min-width"@,
            CssProperty::MixBlendMode => "mix-blend-mode"@,
            CssProperty::NavDown => "nav-down"@,
            CssProperty::NavLeft => "nav-left"@,
            CssProperty::NavRight => "nav-right"@,
            CssProperty::NavUp => "nav-up"@,
            CssProperty::ObjectFit => "object-fit"@,
            CssProperty::ObjectPosition => "object-position"@,
            CssProperty::ObjectViewBox => "object-view-box"@,
            CssProperty::Offset => "offset"@,
            CssProperty::OffsetAnchor => "offset-anchor"@,
            CssProperty::OffsetDistance => "offset-distance"@,
            CssProperty::OffsetPath => "offset-path"@,
            CssProperty::OffsetPosition => "offset-position"@,
            CssProperty::OffsetRotate => "offset-rotate"@,
            CssProperty::Opacity => "opacity"@,
            CssProperty::Order => "order"@,
            CssProperty::Orphans => "orphans"@,
            CssProperty::Outline => "outline"@,
            CssProperty::OutlineColor => "outline-color"@,
            CssProperty::OutlineOffset => "outline-offset"@,
            CssProperty::OutlineStyle => "outline-style"@,
            CssProperty::OutlineWidth => "outline-width"@,
            CssProperty::Overflow => "overflow"@,
            CssProperty::OverflowAnchor => "overflow-anchor"@,
            CssProperty::OverflowBlock => "overflow-block"@,
            CssProperty::OverflowClipMargin => "overflow-clip-margin"@,
            CssProperty::OverflowClipMarginBlock => "overflow-clip-margin-block"@,
            CssProperty::OverflowClipMarginBlockEnd => "overflow-clip-margin-block-end"@,
            CssProperty::OverflowClipMarginBlockStart => "overflow-clip-margin-block-start"@,
            CssProperty::OverflowClipMarginBottom => "overflow-clip-margin-bottom"@,
            CssProperty::OverflowClipMarginInline => "overflow-clip-margin-inline"@,
            CssProperty::OverflowClipMarginInlineEnd => "overflow-clip-margin-inline-end"@,
            CssProperty::OverflowClipMarginInlineStart => "overflow-clip-margin-inline-start"@,
            CssProperty::OverflowClipMarginLeft => "overflow-clip-margin-left"@,
            CssProperty::OverflowClipMarginRight => "overflow-clip-margin-right"@,
            CssProperty::OverflowClipMarginTop => "overflow-clip-margin-top"@,
            CssProperty::OverflowInline => "overflow-inline"@,
            CssProperty::OverflowWrap => "overflow-wrap"@,
            CssProperty::OverflowX => "overflow-x"@,
            CssProperty::OverflowY => "overflow-y"@,
            CssProperty::Overlay => "overlay"@,
            CssProperty::OverscrollBehavior => "overscroll-behavior"@,
            CssProperty::OverscrollBehaviorBlock => "overscroll-behavior-block"@,
            CssProperty::OverscrollBehaviorInline => "overscroll-behavior-inline"@,
            CssProperty::OverscrollBehaviorX => "overscroll-behavior-x"@,
            CssProperty::OverscrollBehaviorY => "overscroll-behavior-y"@,
            CssProperty::Padding => "padding"@,
            CssProperty::PaddingBlock => "padding-block"@,
            CssProperty::PaddingBlockEnd => "padding-block-end"@,
            CssProperty::PaddingBlockStart => "padding-block-start"@,
            CssProperty::PaddingBottom => "padding-bottom"@,
            CssProperty::PaddingInline => "padding-inline"@,
            CssProperty::PaddingInlineEnd => "padding-inline-end"@,
            CssProperty::PaddingInlineStart => "padding-inline-start"@,
            CssProperty::PaddingLeft => "padding-left"@,
            CssProperty::PaddingRight => "padding-right"@,
            CssProperty::PaddingTop => "padding-top"@,
            CssProperty::Page => "page"@,
            CssProperty::PageBreakAfter => "page-break-after"@,
            CssProperty::PageBreakBefore => "page-break-before"@,
            CssProperty::PageBreakInside => "page-break-inside"@,
            CssProperty::PaintOrder => "paint-order"@,
            CssProperty::PathLength => "path-length"@,
            CssProperty::Pause => "pause"@,
            CssProperty::PauseAfter => "pause-after"@,
            CssProperty::PauseBefore => "pause-before"@,
            CssProperty::Perspective => "perspective"@,
            CssProperty::PerspectiveOrigin => "perspective-origin"@,
            CssProperty::PlaceContent => "place-content"@,
            CssProperty::PlaceItems => "place-items"@,
            CssProperty::PlaceSelf => "place-self"@,
            CssProperty::PointerEvents => "pointer-events"@,
            CssProperty::PointerTimeline => "pointer-timeline"@,
            CssProperty::PointerTimelineAxis => "pointer-timeline-axis"@,
            CssProperty::PointerTimelineName => "pointer-timeline-name"@,
            CssProperty::Position => "position"@,
            CssProperty::PositionAnchor => "position-anchor"@,
            CssProperty::PositionArea => "position-area"@,
            CssProperty::PositionTry => "position-try"@,
            CssProperty::PositionTryFallbacks => "position-try-fallbacks"@,
            CssProperty::PositionTryOrder => "position-try-order"@,
            CssProperty::PositionVisibility => "position-visibility"@,
            CssProperty::PrintColorAdjust => "print-color-adjust"@,
            CssProperty::Quotes => "quotes"@,
            CssProperty::R => "r"@,
            CssProperty::ReadingFlow => "reading-flow"@,
            CssProperty::ReadingOrder => "reading-order"@,
            CssProperty::RegionFragment => "region-fragment"@,
            CssProperty::Resize => "resize"@,
            CssProperty::Rest => "rest"@,
            CssProperty::RestAfter => "rest-after"@,
            CssProperty::RestBefore => "rest-before"@,
            CssProperty::Right => "right"@,
            CssProperty::Rotate => "rotate"@,
            CssProperty::RowGap => "row-gap"@,
            CssProperty::RowRule => "row-rule"@,
            _ => self.spec_name_from_600(),
        }
    }

    /// `spec_name` for the values from the 600-th on.
    pub open spec fn spec_name_from_600(&self) -> Seq<char> {
        match self {
            CssProperty::RowRuleBreak => "row-rule-break"@,
            CssProperty::RowRuleColor => "row-rule-color"@,
            CssProperty::RowRuleInset => "row-rule-inset"@,
            CssProperty::RowRuleInsetCap => "row-rule-inset-cap"@,
            CssProperty::RowRuleInsetCapEnd => "row-rule-inset-cap-end"@,
            CssProperty::RowRuleInsetCapStart => "row-rule-inset-cap-start"@,
            CssProperty::RowRuleInsetEnd => "row-rule-inset-end"@,
            CssProperty::RowRuleInsetJunction => "row-rule-inset-junction"@,
            CssProperty::RowRuleInsetJunctionEnd => "row-rule-inset-junction-end"@,
            CssProperty::RowRuleInsetJunctionStart => "row-rule-inset-junction-start"@,
            CssProperty::RowRuleInsetStart => "row-rule-inset-start"@,
            CssProperty::RowRuleStyle => "row-rule-style"@,
            CssProperty::RowRuleVisibilityItems => "row-rule-visibility-items"@,
            CssProperty::RowRuleWidth => "row-rule-width"@,
            CssProperty::RubyAlign => "ruby-align"@,
            CssProperty::RubyMerge => "ruby-merge"@,
            CssProperty::RubyOverhang => "ruby-overhang"@,
            CssProperty::RubyPosition => "ruby-position"@,
            CssProperty::Rule => "rule"@,
            CssProperty::RuleBreak => "rule-break"@,
            CssProperty::RuleColor => "rule-color"@,
            CssProperty::RuleInset => "rule-inset"@,
            CssProperty::RuleInsetCap => "rule-inset-cap"@,
            CssProperty::RuleInsetEnd => "rule-inset-end"@,
            CssProperty::RuleInsetJunction => "rule-inset-junction"@,
            CssProperty::RuleInsetStart => "rule-inset-start"@,
            CssProperty::RuleOverlap => "rule-overlap"@,
            CssProperty::RuleStyle => "rule-style"@,
            CssProperty::RuleVisibilityItems => "rule-visibility-items"@,
            CssProperty::RuleWidth => "rule-width"@,
            CssProperty::Rx => "rx"@,
            CssProperty::Ry => "ry"@,
            CssProperty::Scale => "scale"@,
            CssProperty::ScrollBehavior => "scroll-behavior"@,
            CssProperty::ScrollInitialTarget => "scroll-initial-target"@,
            CssProperty::ScrollMargin => "scroll-margin"@,
            CssProperty::ScrollMarginBlock => "scroll-margin-block"@,
            CssProperty::ScrollMarginBlockEnd => "scroll-margin-block-end"@,
            CssProperty::ScrollMarginBlockStart => "scroll-margin-block-start"@,
            CssProperty::ScrollMarginBottom => "scroll-margin-bottom"@,
            CssProperty::ScrollMarginInline => "scroll-margin-inline"@,
            CssProperty::ScrollMarginInlineEnd => "scroll-margin-inline-end"@,
            CssProperty::ScrollMarginInlineStart => "scroll-margin-inline-start"@,
            CssProperty::ScrollMarginLeft => "scroll-margin-left"@,
            CssProperty::ScrollMarginRight => "scroll-margin-right"@,
            CssProperty::ScrollMarginTop => "scroll-margin-top"@,
            CssProperty::ScrollMarkerGroup => "scroll-marker-group"@,
            CssProperty::ScrollPadding => "scroll-padding"@,
            CssProperty::ScrollPaddingBlock => "scroll-padding-block"@,
            CssProperty::ScrollPaddingBlockEnd => "scroll-padding-block-end"@,
            CssProperty::ScrollPaddingBlockStart => "scroll-padding-block-start"@,
            CssProperty::ScrollPaddingBottom => "scroll-padding-bottom"@,
            CssProperty::ScrollPaddingInline => "scroll-padding-inline"@,
            CssProperty::ScrollPaddingInlineEnd => "scroll-padding-inline-end"@,
            CssProperty::ScrollPaddingInlineStart => "scroll-padding-inline-start"@,
            CssProperty::ScrollPaddingLeft => "scroll-padding-left"@,
            CssProperty::ScrollPaddingRight => "scroll-padding-right"@,
            CssProperty::ScrollPaddingTop => "scroll-padding-top"@,
            CssProperty::ScrollSnapAlign => "scroll-snap-align"@,
            CssProperty::ScrollSnapStop => "scroll-snap-stop"@,
            CssProperty::ScrollSnapType => "scroll-snap-type"@,
            CssProperty::ScrollTargetGroup => "scroll-target-group"@,
            CssProperty::ScrollTimeline => "scroll-timeline"@,
            CssProperty::ScrollTimelineAxis => "scroll-timeline-axis"@,
            CssProperty::ScrollTimelineName => "scroll-timeline-name"@,
            CssProperty::ScrollbarColor => "scrollbar-color"@,
            CssProperty::ScrollbarGutter => "scrollbar-gutter"@,
            CssProperty::ScrollbarInset => "scrollbar-inset"@,
            CssProperty::ScrollbarMinThumbSize => "scrollbar-min-thumb-size"@,
            CssProperty::ScrollbarMode => "scrollbar-mode"@,
            CssProperty::ScrollbarWidth => "scrollbar-width"@,
            CssProperty::ShapeImageThreshold => "shape-image-threshold"@,
            CssProperty::ShapeInside => "shape-inside"@,
            CssProperty::ShapeMargin => "shape-margin"@,
            CssProperty::ShapeOutside => "shape-outside"@,
            CssProperty::ShapePadding => "shape-padding"@,
            CssProperty::ShapeRendering => "shape-rendering"@,
            CssProperty::SliderOrientation => "slider-orientation"@,
            CssProperty::SpatialNavigationAction => "spatial-navigation-action"@,
            CssProperty::SpatialNavigationContain => "spatial-navigation-contain"@,
            CssProperty::SpatialNavigationFunction => "spatial-navigation-function"@,
            CssProperty::Speak => "speak"@,
            CssProperty::SpeakAs => "speak-as"@,
            CssProperty::StopColor => "stop-color"@,
            CssProperty::StopOpacity => "stop-opacity"@,
            CssProperty::StringSet => "string-set"@,
            CssProperty::Stroke => "stroke"@,
            CssProperty::StrokeAlign => "stroke-align"@,
            CssProperty::StrokeAlignment => "stroke-alignment"@,
            CssProperty::StrokeBreak => "stroke-break"@,
            CssProperty::StrokeColor => "stroke-color"@,
            CssProperty::StrokeDashCornerPropdefStrokeDashCorner => "stroke-dash-corner"@,
            CssProperty::StrokeDashJustify => "stroke-dash-justify"@,
            CssProperty::StrokeDashadjust => "stroke-dashadjust"@,
            CssProperty::StrokeDasharray => "stroke-dasharray"@,
            CssProperty::StrokeDashcornerStrokedashcornerproperty => "stroke-dashcorner"@,
            CssProperty::StrokeDashoffset => "stroke-dashoffset"@,
            CssProperty::StrokeImage => "stroke-image"@,
            CssProperty::StrokeLinecap => "stroke-linecap"@,
            CssProperty::StrokeLinejoin => "stroke-linejoin"@,
            _ => self.spec_name_from_700(),
        }
    }

    /// `spec_name` for the values from the 700-th on.
    pub open spec fn spec_name_from_700(&self) -> Seq<char> {
        match self {
            CssProperty::StrokeMiterlimit => "stroke-miterlimit"@,
            CssProperty::StrokeOpacity => "stroke-opacity"@,
            CssProperty::StrokeOrigin => "stroke-origin"@,
            CssProperty::StrokePosition => "stroke-position"@,
            CssProperty::StrokeRepeat => "stroke-repeat"@,
            CssProperty::StrokeSize => "stroke-size"@,
            CssProperty::StrokeWidth => "stroke-width"@,
            CssProperty::TabSize => "tab-size"@,
            CssProperty::TableLayout => "table-layout"@,
            CssProperty::TextAlign => "text-align"@,
            CssProperty::TextAlignAll => "text-align-all"@,
            CssProperty::TextAlignLast => "text-align-last"@,
            CssProperty::TextAnchor => "text-anchor"@,
            CssProperty::TextAutospace => "text-autospace"@,
            CssProperty::TextBox => "text-box"@,
            CssProperty::TextBoxEdge => "text-box-edge"@,
            CssProperty::TextBoxTrim => "text-box-trim"@,
            CssProperty::TextCombineUpright => "text-combine-upright"@,
            CssProperty::TextDecoration => "text-decoration"@,
            CssProperty::TextDecorationColor => "text-decoration-color"@,
            CssProperty::TextDecorationInset => "text-decoration-inset"@,
            CssProperty::TextDecorationLine => "text-decoration-line"@,
            CssProperty::TextDecorationSkip => "text-decoration-skip"@,
            CssProperty::TextDecorationSkipBox => "text-decoration-skip-box"@,
            CssProperty::TextDecorationSkipInk => "text-decoration-skip-ink"@,
            CssProperty::TextDecorationSkipSelf => "text-decoration-skip-self"@,
            CssProperty::TextDecorationSkipSpaces => "text-decoration-skip-spaces"@,
            CssProperty::TextDecorationStyle => "text-decoration-style"@,
            CssProperty::TextDecorationThickness => "text-decoration-thickness"@,
            CssProperty::TextEmphasis => "text-emphasis"@,
            CssProperty::TextEmphasisColor => "text-emphasis-color"@,
            CssProperty::TextEmphasisPosition => "text-emphasis-position"@,
            CssProperty::TextEmphasisSkip => "text-emphasis-skip"@,
            CssProperty::TextEmphasisStyle => "text-emphasis-style"@,
            CssProperty::TextFit => "text-fit"@,
            CssProperty::TextGroupAlign => "text-group-align"@,
            CssProperty::TextIndent => "text-indent"@,
            CssProperty::TextJustify => "text-justify"@,
            CssProperty::TextOrientation => "text-orientation"@,
            CssProperty::TextOverflow => "text-overflow"@,
            CssProperty::TextRendering => "text-rendering"@,
            CssProperty::TextShadow => "text-shadow"@,
            CssProperty::TextSizeAdjust => "text-size-adjust"@,
            CssProperty::TextSpacing => "text-spacing"@,
            CssProperty::TextSpacingTrim => "text-spacing-trim"@,
            CssProperty::TextTransform => "text-transform"@,
            CssProperty::TextUnderlineOffset => "text-underline-offset"@,
            CssProperty::TextUnderlinePosition => "text-underline-position"@,
            CssProperty::TextWrap => "text-wrap"@,
            CssProperty::TextWrapMode => "text-wrap-mode"@,
            CssProperty::TextWrapStyle => "text-wrap-style"@,
            CssProperty::TimelineScope => "timeline-scope"@,
            CssProperty::TimelineTrigger => "timeline-trigger"@,
            CssProperty::TimelineTriggerActivationRange => "timeline-trigger-activation-range"@,
            CssProperty::TimelineTriggerActivationRangeEnd => "timeline-trigger-activation-range-end"@,
            CssProperty::TimelineTriggerActivationRangeStart => "timeline-trigger-activation-range-start"@,
            CssProperty::TimelineTriggerActiveRange => "timeline-trigger-active-range"@,
            CssProperty::TimelineTriggerActiveRangeEnd => "timeline-trigger-active-range-end"@,
            CssProperty::TimelineTriggerActiveRangeStart => "timeline-trigger-active-range-start"@,
            CssProperty::TimelineTriggerName => "timeline-trigger-name"@,
            CssProperty::TimelineTriggerSource => "timeline-trigger-source"@,
            CssProperty::Top => "top"@,
            CssProperty::TouchAction => "touch-action"@,
            CssProperty::Transform => "transform"@,
            CssProperty::TransformBox => "transform-box"@,
            CssProperty::TransformOrigin => "transform-origin"@,
            CssProperty::TransformStyle => "transform-style"@,
            CssProperty::Transition => "transition"@,
            CssProperty::TransitionBehavior => "transition-behavior"@,
            CssProperty::TransitionDelay => "transition-delay"@,
            CssProperty::TransitionDuration => "transition-duration"@,
            CssProperty::TransitionProperty => "transition-property"@,
            CssProperty::TransitionTimingFunction => "transition-timing-function"@,
            CssProperty::Translate => "translate"@,
            CssProperty::TriggerScope => "trigger-scope"@,
            CssProperty::UnicodeBidi => "unicode-bidi"@,
            CssProperty::UserSelect => "user-select"@,
            CssProperty::VectorEffect => "vector-effect"@,
            CssProperty::VerticalAlign => "vertical-align"@,
            CssProperty::ViewTimeline => "view-timeline"@,
            CssProperty::ViewTimelineAxis => "view-timeline-axis"@,
            CssProperty::ViewTimelineInset => "view-timeline-inset"@,
            CssProperty::ViewTimelineName => "view-timeline-name"@,
            CssProperty::ViewTransitionClass => "view-transition-class"@,
            CssProperty::ViewTransitionGroup => "view-transition-group"@,
            CssProperty::ViewTransitionName => "view-transition-name"@,
            CssProperty::ViewTransitionScope => "view-transition-scope"@,
            CssProperty::Visibility => "visibility"@,
            CssProperty::VoiceBalance => "voice-balance"@,
            CssProperty::VoiceDuration => "voice-duration"@,
            CssProperty::VoiceFamily => "voice-family"@,
            CssProperty::VoicePitch => "voice-pitch"@,
            CssProperty::VoiceRange => "voice-range"@,
            CssProperty::VoiceRate => "voice-rate"@,
            CssProperty::VoiceStress => "voice-stress"@,
            CssProperty::VoiceVolume => "voice-volume"@,
            CssProperty::WhiteSpace => "white-space"@,
            CssProperty::WhiteSpaceCollapse => "white-space-collapse"@,
            CssProperty::WhiteSpaceTrim => "white-space-trim"@,
            CssProperty::Widows => "widows"@,
            _ => self.spec_name_from_800(),
        }
    }

    /// `spec_name` for the values from the 800-th on.
    pub open spec fn spec_name_from_800(&self) -> Seq<char> {
        match self {
            CssProperty::Width => "width"@,
            CssProperty::WillChange => "will-change"@,
            CssProperty::WordBreak => "word-break"@,
            CssProperty::WordSpaceTransform => "word-space-transform"@,
            CssProperty::WordSpacing => "word-spacing"@,
            CssProperty::WordWrap => "word-wrap"@,
            CssProperty::WrapAfter => "wrap-after"@,
            CssProperty::WrapBefore => "wrap-before"@,
            CssProperty::WrapFlow => "wrap-flow"@,
            CssProperty::WrapInside => "wrap-inside"@,
            CssProperty::WrapThrough => "wrap-through"@,
            CssProperty::WritingMode => "writing-mode"@,
            CssProperty::X => "x"@,
            CssProperty::Y => "y"@,
            CssProperty::ZIndex => "z-index"@,
            CssProperty::Zoom => "zoom"@,
            CssProperty::Unknown(_) => Seq::empty(),
            _ => Seq::empty(),
        }
    }

    /// Whether `from_name` recognises this value by its name.
    pub open spec fn is_listed(&self) -> bool {
        !(self is Unknown)
    }

    /// Where this value stands in the lookup table.
    pub open spec fn lookup_position(&self) -> usize {
        match self {
            CssProperty::WebkitAlignContent => 0,
            CssProperty::WebkitAlignItems => 1,
            CssProperty::WebkitAlignSelf => 2,
            CssProperty::WebkitAnimation => 3,
            CssProperty::WebkitAnimationDelay => 4,
            CssProperty::WebkitAnimationDirection => 5,
            CssProperty::WebkitAnimationDuration => 6,
            CssProperty::WebkitAnimationFillMode => 7,
            CssProperty::WebkitAnimationIterationCount => 8,
            CssProperty::WebkitAnimationName => 9,
            CssProperty::WebkitAnimationPlayState => 10,
            CssProperty::WebkitAnimationTimingFunction => 11,
            CssProperty::WebkitAppearance => 12,
            CssProperty::WebkitBackfaceVisibility => 13,
            CssProperty::WebkitBackgroundClip => 14,
            CssProperty::WebkitBackgroundOrigin => 15,
            CssProperty::WebkitBackgroundSize => 16,
            CssProperty::WebkitBorderBottomLeftRadius => 17,
            CssProperty::WebkitBorderBottomRightRadius => 18,
            CssProperty::WebkitBorderRadius => 19,
            CssProperty::WebkitBorderTopLeftRadius => 20,
            CssProperty::WebkitBorderTopRightRadius => 21,
            CssProperty::WebkitBoxAlign => 22,
            CssProperty::WebkitBoxFlex => 23,
            CssProperty::WebkitBoxOrdinalGroup => 24,
            CssProperty::WebkitBoxOrient => 25,
            CssProperty::WebkitBoxPack => 26,
            CssProperty::WebkitBoxShadow => 27,
            CssProperty::WebkitBoxSizing => 28,
            CssProperty::WebkitFilter => 29,
            CssProperty::WebkitFlex => 30,
            CssProperty::WebkitFlexBasis => 31,
            CssProperty::WebkitFlexDirection => 32,
            CssProperty::WebkitFlexFlow => 33,
            CssProperty::WebkitFlexGrow => 34,
            CssProperty::WebkitFlexShrink => 35,
            CssProperty::WebkitFlexWrap => 36,
            CssProperty::WebkitJustifyContent => 37,
            CssProperty::WebkitLineClamp => 38,
            CssProperty::WebkitMask => 39,
            CssProperty::WebkitMaskBoxImage => 40,
            CssProperty::WebkitMaskBoxImageOutset => 41,
            CssProperty::WebkitMaskBoxImageRepeat => 42,
            CssProperty::WebkitMaskBoxImageSlice => 43,
            CssProperty::WebkitMaskBoxImageSource => 44,
            CssProperty::WebkitMaskBoxImageWidth => 45,
            CssProperty::WebkitMaskClip => 46,
            CssProperty::WebkitMaskComposite => 47,
            CssProperty::WebkitMaskImage => 48,
            CssProperty::WebkitMaskOrigin => 49,
            CssProperty::WebkitMaskPosition => 50,
            CssProperty::WebkitMaskRepeat => 51,
            CssProperty::WebkitMaskSize => 52,
            CssProperty::WebkitOrder => 53,
            CssProperty::WebkitPerspective => 54,
            CssProperty::WebkitPerspectiveOrigin => 55,
            CssProperty::WebkitTextFillColor => 56,
            CssProperty::WebkitTextSizeAdjust => 57,
            CssProperty::WebkitTextStroke => 58,
            CssProperty::WebkitTextStrokeColor => 59,
            CssProperty::WebkitTextStrokeWidth => 60,
            CssProperty::WebkitTransform => 61,
            CssProperty::WebkitTransformOrigin => 62,
            CssProperty::WebkitTransformStyle => 63,
            CssProperty::WebkitTransition => 64,
            CssProperty::WebkitTransitionDelay => 65,
            CssProperty::WebkitTransitionDuration => 66,
            CssProperty::WebkitTransitionProperty => 67,
            CssProperty::WebkitTransitionTimingFunction => 68,
            CssProperty::WebkitUserSelect => 69,
            CssProperty::AccentColor => 70,
            CssProperty::AlignContent => 71,
            CssProperty::AlignItems => 72,
            CssProperty::AlignSelf => 73,
            CssProperty::AlignmentBaseline => 74,
            CssProperty::All => 75,
            CssProperty::AnchorName => 76,
            CssProperty::AnchorScope => 77,
            CssProperty::Animation => 78,
            CssProperty::AnimationComposition => 79,
            CssProperty::AnimationDelay => 80,
            CssProperty::AnimationDirection => 81,
            CssProperty::AnimationDuration => 82,
            CssProperty::AnimationFillMode => 83,
            CssProperty::AnimationIterationCount => 84,
            CssProperty::AnimationName => 85,
            CssProperty::AnimationPlayState => 86,
            CssProperty::AnimationRange => 87,
            CssProperty::AnimationRangeCenter => 88,
            CssProperty::AnimationRangeEnd => 89,
            CssProperty::AnimationRangeStart => 90,
            CssProperty::AnimationTimeline => 91,
            CssProperty::AnimationTimingFunction => 92,
            CssProperty::AnimationTrigger => 93,
            CssProperty::Appearance => 94,
            CssProperty::AspectRatio => 95,
            CssProperty::BackdropFilter => 96,
            CssProperty::BackfaceVisibility => 97,
            CssProperty::Background => 98,
            CssProperty::BackgroundAttachment => 99,
            _ => self.lookup_position_from_100(),
        }
    }

    /// `lookup_position` for the values from the 100-th on.
    pub open spec fn lookup_position_from_100(&self) -> usize {
        match self {
            CssProperty::BackgroundBlendMode => 100,
            CssProperty::BackgroundClip => 101,
            CssProperty::BackgroundColor => 102,
            CssProperty::BackgroundImage => 103,
            CssProperty::BackgroundOrigin => 104,
            CssProperty::BackgroundPosition => 105,
            CssProperty::BackgroundPositionBlock => 106,
            CssProperty::BackgroundPositionInline => 107,
            CssProperty::BackgroundPositionX => 108,
            CssProperty::BackgroundPositionY => 109,
            CssProperty::BackgroundRepeat => 110,
            CssProperty::BackgroundRepeatBlock => 111,
            CssProperty::BackgroundRepeatInline => 112,
            CssProperty::BackgroundRepeatX => 113,
            CssProperty::BackgroundRepeatY => 114,
            CssProperty::BackgroundSize => 115,
            CssProperty::BackgroundTbd => 116,
            CssProperty::BaselineShift => 117,
            CssProperty::BaselineSource => 118,
            CssProperty::BlockEllipsis => 119,
            CssProperty::BlockSize => 120,
            CssProperty::BlockStep => 121,
            CssProperty::BlockStepAlign => 122,
            CssProperty::BlockStepInsert => 123,
            CssProperty::BlockStepRound => 124,
            CssProperty::BlockStepSize => 125,
            CssProperty::BookmarkLabel => 126,
            CssProperty::BookmarkLevel => 127,
            CssProperty::BookmarkState => 128,
            CssProperty::Border => 129,
            CssProperty::BorderBlock => 130,
            CssProperty::BorderBlockClip => 131,
            CssProperty::BorderBlockColor => 132,
            CssProperty::BorderBlockEnd => 133,
            CssProperty::BorderBlockEndClip => 134,
            CssProperty::BorderBlockEndColor => 135,
            CssProperty::BorderBlockEndRadius => 136,
            CssProperty::BorderBlockEndStyle => 137,
            CssProperty::BorderBlockEndWidth => 138,
            CssProperty::BorderBlockStart => 139,
            CssProperty::BorderBlockStartClip => 140,
            CssProperty::BorderBlockStartColor => 141,
            CssProperty::BorderBlockStartRadius => 142,
            CssProperty::BorderBlockStartStyle => 143,
            CssProperty::BorderBlockStartWidth => 144,
            CssProperty::BorderBlockStyle => 145,
            CssProperty::BorderBlockWidth => 146,
            CssProperty::BorderBottom => 147,
            CssProperty::BorderBottomClip => 148,
            CssProperty::BorderBottomColor => 149,
            CssProperty::BorderBottomLeftRadius => 150,
            CssProperty::BorderBottomRadius => 151,
            CssProperty::BorderBottomRightRadius => 152,
            CssProperty::BorderBottomStyle => 153,
            CssProperty::BorderBottomWidth => 154,
            CssProperty::BorderBoundary => 155,
            CssProperty::BorderClip => 156,
            CssProperty::BorderCollapse => 157,
            CssProperty::BorderColor => 158,
            CssProperty::BorderEndEndRadius => 159,
            CssProperty::BorderEndStartRadius => 160,
            CssProperty::BorderImage => 161,
            CssProperty::BorderImageOutset => 162,
            CssProperty::BorderImageRepeat => 163,
            CssProperty::BorderImageSlice => 164,
            CssProperty::BorderImageSource => 165,
            CssProperty::BorderImageWidth => 166,
            CssProperty::BorderInline => 167,
            CssProperty::BorderInlineClip => 168,
            CssProperty::BorderInlineColor => 169,
            CssProperty::BorderInlineEnd => 170,
            CssProperty::BorderInlineEndClip => 171,
            CssProperty::BorderInlineEndColor => 172,
            CssProperty::BorderInlineEndRadius => 173,
            CssProperty::BorderInlineEndStyle => 174,
            CssProperty::BorderInlineEndWidth => 175,
            CssProperty::BorderInlineStart => 176,
            CssProperty::BorderInlineStartClip => 177,
            CssProperty::BorderInlineStartColor => 178,
            CssProperty::BorderInlineStartRadius => 179,
            CssProperty::BorderInlineStartStyle => 180,
            CssProperty::BorderInlineStartWidth => 181,
            CssProperty::BorderInlineStyle => 182,
            CssProperty::BorderInlineWidth => 183,
            CssProperty::BorderLeft => 184,
            CssProperty::BorderLeftClip => 185,
            CssProperty::BorderLeftColor => 186,
            CssProperty::BorderLeftRadius => 187,
            CssProperty::BorderLeftStyle => 188,
            CssProperty::BorderLeftWidth => 189,
            CssProperty::BorderLimit => 190,
            CssProperty::BorderRadius => 191,
            CssProperty::BorderRight => 192,
            CssProperty::BorderRightClip => 193,
            CssProperty::BorderRightColor => 194,
            CssProperty::BorderRightRadius => 195,
            CssProperty::BorderRightStyle => 196,
            CssProperty::BorderRightWidth => 197,
            CssProperty::BorderShape => 198,
            CssProperty::BorderSpacing => 199,
            _ => self.lookup_position_from_200(),
        }
    }

    /// `lookup_position` for the values from the 200-th on.
    pub open spec fn lookup_position_from_200(&self) -> usize {
        match self {
            CssProperty::BorderStartEndRadius => 200,
            CssProperty::BorderStartStartRadius => 201,
            CssProperty::BorderStyle => 202,
            CssProperty::BorderTop => 203,
            CssProperty::BorderTopClip => 204,
            CssProperty::BorderTopColor => 205,
            CssProperty::BorderTopLeftRadius => 206,
            CssProperty::BorderTopRadius => 207,
            CssProperty::BorderTopRightRadius => 208,
            CssProperty::BorderTopStyle => 209,
            CssProperty::BorderTopWidth => 210,
            CssProperty::BorderWidth => 211,
            CssProperty::Bottom => 212,
            CssProperty::BoxDecorationBreak => 213,
            CssProperty::BoxShadow => 214,
            CssProperty::BoxShadowBlur => 215,
            CssProperty::BoxShadowColor => 216,
            CssProperty::BoxShadowOffset => 217,
            CssProperty::BoxShadowPosition => 218,
            CssProperty::BoxShadowSpread => 219,
            CssProperty::BoxSizing => 220,
            CssProperty::BoxSnap => 221,
            CssProperty::BreakAfter => 222,
            CssProperty::BreakBefore => 223,
            CssProperty::BreakInside => 224,
            CssProperty::CaptionSide => 225,
            CssProperty::Caret => 226,
            CssProperty::CaretAnimation => 227,
            CssProperty::CaretColor => 228,
            CssProperty::CaretShape => 229,
            CssProperty::Clear => 230,
            CssProperty::Clip => 231,
            CssProperty::ClipPath => 232,
            CssProperty::ClipRule => 233,
            CssProperty::Color => 234,
            CssProperty::ColorAdjust => 235,
            CssProperty::ColorInterpolation => 236,
            CssProperty::ColorInterpolationFilters => 237,
            CssProperty::ColorScheme => 238,
            CssProperty::ColumnCount => 239,
            CssProperty::ColumnFill => 240,
            CssProperty::ColumnGap => 241,
            CssProperty::ColumnHeight => 242,
            CssProperty::ColumnRule => 243,
            CssProperty::ColumnRuleBreak => 244,
            CssProperty::ColumnRuleColor => 245,
            CssProperty::ColumnRuleInset => 246,
            CssProperty::ColumnRuleInsetCap => 247,
            CssProperty::ColumnRuleInsetCapEnd => 248,
            CssProperty::ColumnRuleInsetCapStart => 249,
            CssProperty::ColumnRuleInsetEnd => 250,
            CssProperty::ColumnRuleInsetJunction => 251,
            CssProperty::ColumnRuleInsetJunctionEnd => 252,
            CssProperty::ColumnRuleInsetJunctionStart => 253,
            CssProperty::ColumnRuleInsetStart => 254,
            CssProperty::ColumnRuleStyle => 255,
            CssProperty::ColumnRuleVisibilityItems => 256,
            CssProperty::ColumnRuleWidth => 257,
            CssProperty::ColumnSpan => 258,
            CssProperty::ColumnWidth => 259,
            CssProperty::ColumnWrap => 260,
            CssProperty::Columns => 261,
            CssProperty::Contain => 262,
            CssProperty::ContainIntrinsicBlockSize => 263,
            CssProperty::ContainIntrinsicHeight => 264,
            CssProperty::ContainIntrinsicInlineSize => 265,
            CssProperty::ContainIntrinsicSize => 266,
            CssProperty::ContainIntrinsicWidth => 267,
            CssProperty::Container => 268,
            CssProperty::ContainerName => 269,
            CssProperty::ContainerType => 270,
            CssProperty::Content => 271,
            CssProperty::ContentVisibility => 272,
            CssProperty::Continue => 273,
            CssProperty::CopyInto => 274,
            CssProperty::Corner => 275,
            CssProperty::CornerBlockEnd => 276,
            CssProperty::CornerBlockEndShape => 277,
            CssProperty::CornerBlockStart => 278,
            CssProperty::CornerBlockStartShape => 279,
            CssProperty::CornerBottom => 280,
            CssProperty::CornerBottomLeft => 281,
            CssProperty::CornerBottomLeftShape => 282,
            CssProperty::CornerBottomRight => 283,
            CssProperty::CornerBottomRightShape => 284,
            CssProperty::CornerBottomShape => 285,
            CssProperty::CornerEndEnd => 286,
            CssProperty::CornerEndEndShape => 287,
            CssProperty::CornerEndStart => 288,
            CssProperty::CornerEndStartShape => 289,
            CssProperty::CornerInlineEnd => 290,
            CssProperty::CornerInlineEndShape => 291,
            CssProperty::CornerInlineStart => 292,
            CssProperty::CornerInlineStartShape => 293,
            CssProperty::CornerLeft => 294,
            CssProperty::CornerLeftShape => 295,
            CssProperty::CornerRight => 296,
            CssProperty::CornerRightShape => 297,
            CssProperty::CornerShape => 298,
            CssProperty::CornerStartEnd => 299,
            _ => self.lookup_position_from_300(),
        }
    }

    /// `lookup_position` for the values from the 300-th on.
    pub open spec fn lookup_position_from_300(&self) -> usize {
        match self {
            CssProperty::CornerStartEndShape => 300,
            CssProperty::CornerStartStart => 301,
            CssProperty::CornerStartStartShape => 302,
            CssProperty::CornerTop => 303,
            CssProperty::CornerTopLeft => 304,
            CssProperty::CornerTopLeftShape => 305,
            CssProperty::CornerTopRight => 306,
            CssProperty::CornerTopRightShape => 307,
            CssProperty::CornerTopShape => 308,
            CssProperty::CounterIncrement => 309,
            CssProperty::CounterReset => 310,
            CssProperty::CounterSet => 311,
            CssProperty::Cue => 312,
            CssProperty::CueAfter => 313,
            CssProperty::CueBefore => 314,
            CssProperty::Cursor => 315,
            CssProperty::Cx => 316,
            CssProperty::Cy => 317,
            CssProperty::D => 318,
            CssProperty::Direction => 319,
            CssProperty::Display => 320,
            CssProperty::DominantBaseline => 321,
            CssProperty::DynamicRangeLimit => 322,
            CssProperty::EmptyCells => 323,
            CssProperty::EventTrigger => 324,
            CssProperty::EventTriggerName => 325,
            CssProperty::EventTriggerSource => 326,
            CssProperty::FieldSizing => 327,
            CssProperty::Fill => 328,
            CssProperty::FillBreak => 329,
            CssProperty::FillColor => 330,
            CssProperty::FillImage => 331,
            CssProperty::FillOpacity => 332,
            CssProperty::FillOrigin => 333,
            CssProperty::FillPosition => 334,
            CssProperty::FillRepeat => 335,
            CssProperty::FillRule => 336,
            CssProperty::FillSize => 337,
            CssProperty::Filter => 338,
            CssProperty::Flex => 339,
            CssProperty::FlexBasis => 340,
            CssProperty::FlexDirection => 341,
            CssProperty::FlexFlow => 342,
            CssProperty::FlexGrow => 343,
            CssProperty::FlexShrink => 344,
            CssProperty::FlexWrap => 345,
            CssProperty::Float => 346,
            CssProperty::FloatDefer => 347,
            CssProperty::FloatOffset => 348,
            CssProperty::FloatReference => 349,
            CssProperty::FloodColor => 350,
            CssProperty::FloodOpacity => 351,
            CssProperty::FlowFrom => 352,
            CssProperty::FlowInto => 353,
            CssProperty::FlowTolerance => 354,
            CssProperty::Font => 355,
            CssProperty::FontFamily => 356,
            CssProperty::FontFeatureSettings => 357,
            CssProperty::FontKerning => 358,
            CssProperty::FontLanguageOverride => 359,
            CssProperty::FontOpticalSizing => 360,
            CssProperty::FontPalette => 361,
            CssProperty::FontSize => 362,
            CssProperty::FontSizeAdjust => 363,
            CssProperty::FontStretch => 364,
            CssProperty::FontStyle => 365,
            CssProperty::FontSynthesis => 366,
            CssProperty::FontSynthesisPosition => 367,
            CssProperty::FontSynthesisSmallCaps => 368,
            CssProperty::FontSynthesisStyle => 369,
            CssProperty::FontSynthesisWeight => 370,
            CssProperty::FontVariant => 371,
            CssProperty::FontVariantAlternates => 372,
            CssProperty::FontVariantCaps => 373,
            CssProperty::FontVariantEastAsian => 374,
            CssProperty::FontVariantEmoji => 375,
            CssProperty::FontVariantLigatures => 376,
            CssProperty::FontVariantNumeric => 377,
            CssProperty::FontVariantPosition => 378,
            CssProperty::FontVariationSettings => 379,
            CssProperty::FontWeight => 380,
            CssProperty::FontWidth => 381,
            CssProperty::FootnoteDisplay => 382,
            CssProperty::FootnotePolicy => 383,
            CssProperty::ForcedColorAdjust => 384,
            CssProperty::FrameSizing => 385,
            CssProperty::Gap => 386,
            CssProperty::GlyphOrientationVertical => 387,
            CssProperty::Grid => 388,
            CssProperty::GridArea => 389,
            CssProperty::GridAutoColumns => 390,
            CssProperty::GridAutoFlow => 391,
            CssProperty::GridAutoRows => 392,
            CssProperty::GridColumn => 393,
            CssProperty::GridColumnEnd => 394,
            CssProperty::GridColumnGap => 395,
            CssProperty::GridColumnStart => 396,
            CssProperty::GridGap => 397,
            CssProperty::GridRow => 398,
            CssProperty::GridRowEnd => 399,
            _ => self.lookup_position_from_400(),
        }
    }

    /// `lookup_position` for the values from the 400-th on.
    pub open spec fn lookup_position_from_400(&self) -> usize {
        match self {
            CssProperty::GridRowGap => 400,
            CssProperty::GridRowStart => 401,
            CssProperty::GridTemplate => 402,
            CssProperty::GridTemplateAreas => 403,
            CssProperty::GridTemplateColumns => 404,
            CssProperty::GridTemplateRows => 405,
            CssProperty::HangingPunctuation => 406,
            CssProperty::Height => 407,
            CssProperty::HyphenateCharacter => 408,
            CssProperty::HyphenateLimitChars => 409,
            CssProperty::HyphenateLimitLast => 410,
            CssProperty::HyphenateLimitLines => 411,
            CssProperty::HyphenateLimitZone => 412,
            CssProperty::Hyphens => 413,
            CssProperty::ImageAnimation => 414,
            CssProperty::ImageOrientation => 415,
            CssProperty::ImageRendering => 416,
            CssProperty::ImageResolution => 417,
            CssProperty::InitialLetter => 418,
            CssProperty::InitialLetterAlign => 419,
            CssProperty::InitialLetterWrap => 420,
            CssProperty::InlineSize => 421,
            CssProperty::InlineSizing => 422,
            CssProperty::InputSecurity => 423,
            CssProperty::Inset => 424,
            CssProperty::InsetBlock => 425,
            CssProperty::InsetBlockEnd => 426,
            CssProperty::InsetBlockStart => 427,
            CssProperty::InsetInline => 428,
            CssProperty::InsetInlineEnd => 429,
            CssProperty::InsetInlineStart => 430,
            CssProperty::Interactivity => 431,
            CssProperty::InterestDelay => 432,
            CssProperty::InterestDelayEnd => 433,
            CssProperty::InterestDelayStart => 434,
            CssProperty::InterpolateSize => 435,
            CssProperty::Isolation => 436,
            CssProperty::JustifyContent => 437,
            CssProperty::JustifyItems => 438,
            CssProperty::JustifySelf => 439,
            CssProperty::Left => 440,
            CssProperty::LetterSpacing => 441,
            CssProperty::LightingColor => 442,
            CssProperty::LineBreak => 443,
            CssProperty::LineClamp => 444,
            CssProperty::LineFitEdge => 445,
            CssProperty::LineGrid => 446,
            CssProperty::LineHeight => 447,
            CssProperty::LineHeightStep => 448,
            CssProperty::LinePadding => 449,
            CssProperty::LineSnap => 450,
            CssProperty::LinkParameters => 451,
            CssProperty::ListStyle => 452,
            CssProperty::ListStyleImage => 453,
            CssProperty::ListStylePosition => 454,
            CssProperty::ListStyleType => 455,
            CssProperty::Margin => 456,
            CssProperty::MarginBlock => 457,
            CssProperty::MarginBlockEnd => 458,
            CssProperty::MarginBlockStart => 459,
            CssProperty::MarginBottom => 460,
            CssProperty::MarginBreak => 461,
            CssProperty::MarginInline => 462,
            CssProperty::MarginInlineEnd => 463,
            CssProperty::MarginInlineStart => 464,
            CssProperty::MarginLeft => 465,
            CssProperty::MarginRight => 466,
            CssProperty::MarginTop => 467,
            CssProperty::MarginTrim => 468,
            CssProperty::Marker => 469,
            CssProperty::MarkerEnd => 470,
            CssProperty::MarkerMid => 471,
            CssProperty::MarkerSide => 472,
            CssProperty::MarkerStart => 473,
            CssProperty::Mask => 474,
            CssProperty::MaskBorder => 475,
            CssProperty::MaskBorderMode => 476,
            CssProperty::MaskBorderOutset => 477,
            CssProperty::MaskBorderRepeat => 478,
            CssProperty::MaskBorderSlice => 479,
            CssProperty::MaskBorderSource => 480,
            CssProperty::MaskBorderWidth => 481,
            CssProperty::MaskClip => 482,
            CssProperty::MaskComposite => 483,
            CssProperty::MaskImage => 484,
            CssProperty::MaskMode => 485,
            CssProperty::MaskOrigin => 486,
            CssProperty::MaskPosition => 487,
            CssProperty::MaskRepeat => 488,
            CssProperty::MaskSize => 489,
            CssProperty::MaskType => 490,
            CssProperty::MathDepth => 491,
            CssProperty::MathShift => 492,
            CssProperty::MathStyle => 493,
            CssProperty::MaxBlockSize => 494,
            CssProperty::MaxHeight => 495,
            CssProperty::MaxInlineSize => 496,
            CssProperty::MaxLines => 497,
            CssProperty::MaxWidth => 498,
            CssProperty::MinBlockSize => 499,
            _ => self.lookup_position_from_500(),
        }
    }

    /// `lookup_position` for the values from the 500-th on.
    pub open spec fn lookup_position_from_500(&self) -> usize {
        match self {
            CssProperty::MinHeight => 500,
            CssProperty::MinInlineSize => 501,
            CssProperty::MinIntrinsicSizing => 502,
            CssProperty::MinWidth => 503,
            CssProperty::MixBlendMode => 504,
            CssProperty::NavDown => 505,
            CssProperty::NavLeft => 506,
            CssProperty::NavRight => 507,
            CssProperty::NavUp => 508,
            CssProperty::ObjectFit => 509,
            CssProperty::ObjectPosition => 510,
            CssProperty::ObjectViewBox => 511,
            CssProperty::Offset => 512,
            CssProperty::OffsetAnchor => 513,
            CssProperty::OffsetDistance => 514,
            CssProperty::OffsetPath => 515,
            CssProperty::OffsetPosition => 516,
            CssProperty::OffsetRotate => 517,
            CssProperty::Opacity => 518,
            CssProperty::Order => 519,
            CssProperty::Orphans => 520,
            CssProperty::Outline => 521,
            CssProperty::OutlineColor => 522,
            CssProperty::OutlineOffset => 523,
            CssProperty::OutlineStyle => 524,
            CssProperty::OutlineWidth => 525,
            CssProperty::Overflow => 526,
            CssProperty::OverflowAnchor => 527,
            CssProperty::OverflowBlock => 528,
            CssProperty::OverflowClipMargin => 529,
            CssProperty::OverflowClipMarginBlock => 530,
            CssProperty::OverflowClipMarginBlockEnd => 531,
            CssProperty::OverflowClipMarginBlockStart => 532,
            CssProperty::OverflowClipMarginBottom => 533,
            CssProperty::OverflowClipMarginInline => 534,
            CssProperty::OverflowClipMarginInlineEnd => 535,
            CssProperty::OverflowClipMarginInlineStart => 536,
            CssProperty::OverflowClipMarginLeft => 537,
            CssProperty::OverflowClipMarginRight => 538,
            CssProperty::OverflowClipMarginTop => 539,
            CssProperty::OverflowInline => 540,
            CssProperty::OverflowWrap => 541,
            CssProperty::OverflowX => 542,
            CssProperty::OverflowY => 543,
            CssProperty::Overlay => 544,
            CssProperty::OverscrollBehavior => 545,
            CssProperty::OverscrollBehaviorBlock => 546,
            CssProperty::OverscrollBehaviorInline => 547,
            CssProperty::OverscrollBehaviorX => 548,
            CssProperty::OverscrollBehaviorY => 549,
            CssProperty::Padding => 550,
            CssProperty::PaddingBlock => 551,
            CssProperty::PaddingBlockEnd => 552,
            CssProperty::PaddingBlockStart => 553,
            CssProperty::PaddingBottom => 554,
            CssProperty::PaddingInline => 555,
            CssProperty::PaddingInlineEnd => 556,
            CssProperty::PaddingInlineStart => 557,
            CssProperty::PaddingLeft => 558,
            CssProperty::PaddingRight => 559,
            CssProperty::PaddingTop => 560,
            CssProperty::Page => 561,
            CssProperty::PageBreakAfter => 562,
            CssProperty::PageBreakBefore => 563,
            CssProperty::PageBreakInside => 564,
            CssProperty::PaintOrder => 565,
            CssProperty::PathLength => 566,
            CssProperty::Pause => 567,
            CssProperty::PauseAfter => 568,
            CssProperty::PauseBefore => 569,
            CssProperty::Perspective => 570,
            CssProperty::PerspectiveOrigin => 571,
            CssProperty::PlaceContent => 572,
            CssProperty::PlaceItems => 573,
            CssProperty::PlaceSelf => 574,
            CssProperty::PointerEvents => 575,
            CssProperty::PointerTimeline => 576,
            CssProperty::PointerTimelineAxis => 577,
            CssProperty::PointerTimelineName => 578,
            CssProperty::Position => 579,
            CssProperty::PositionAnchor => 580,
            CssProperty::PositionArea => 581,
            CssProperty::PositionTry => 582,
            CssProperty::PositionTryFallbacks => 583,
            CssProperty::PositionTryOrder => 584,
            CssProperty::PositionVisibility => 585,
            CssProperty::PrintColorAdjust => 586,
            CssProperty::Quotes => 587,
            CssProperty::R => 588,
            CssProperty::ReadingFlow => 589,
            CssProperty::ReadingOrder => 590,
            CssProperty::RegionFragment => 591,
            CssProperty::Resize => 592,
            CssProperty::Rest => 593,
            CssProperty::RestAfter => 594,
            CssProperty::RestBefore => 595,
            CssProperty::Right => 596,
            CssProperty::Rotate => 597,
            CssProperty::RowGap => 598,
            CssProperty::RowRule => 599,
            _ => self.lookup_position_from_600(),
        }
    }

    /// `lookup_position` for the values from the 600-th on.
    pub open spec fn lookup_position_from_600(&self) -> usize {
        match self {
            CssProperty::RowRuleBreak => 600,
            CssProperty::RowRuleColor => 601,
            CssProperty::RowRuleInset => 602,
            CssProperty::RowRuleInsetCap => 603,
            CssProperty::RowRuleInsetCapEnd => 604,
            CssProperty::RowRuleInsetCapStart => 605,
            CssProperty::RowRuleInsetEnd => 606,
            CssProperty::RowRuleInsetJunction => 607,
            CssProperty::RowRuleInsetJunctionEnd => 608,
            CssProperty::RowRuleInsetJunctionStart => 609,
            CssProperty::RowRuleInsetStart => 610,
            CssProperty::RowRuleStyle => 611,
            CssProperty::RowRuleVisibilityItems => 612,
            CssProperty::RowRuleWidth => 613,
            CssProperty::RubyAlign => 614,
            CssProperty::RubyMerge => 615,
            CssProperty::RubyOverhang => 616,
            CssProperty::RubyPosition => 617,
            CssProperty::Rule => 618,
            CssProperty::RuleBreak => 619,
            CssProperty::RuleColor => 620,
            CssProperty::RuleInset => 621,
            CssProperty::RuleInsetCap => 622,
            CssProperty::RuleInsetEnd => 623,
            CssProperty::RuleInsetJunction => 624,
            CssProperty::RuleInsetStart => 625,
            CssProperty::RuleOverlap => 626,
            CssProperty::RuleStyle => 627,
            CssProperty::RuleVisibilityItems => 628,
            CssProperty::RuleWidth => 629,
            CssProperty::Rx => 630,
            CssProperty::Ry => 631,
            CssProperty::Scale => 632,
            CssProperty::ScrollBehavior => 633,
            CssProperty::ScrollInitialTarget => 634,
            CssProperty::ScrollMargin => 635,
            CssProperty::ScrollMarginBlock => 636,
            CssProperty::ScrollMarginBlockEnd => 637,
            CssProperty::ScrollMarginBlockStart => 638,
            CssProperty::ScrollMarginBottom => 639,
            CssProperty::ScrollMarginInline => 640,
            CssProperty::ScrollMarginInlineEnd => 641,
            CssProperty::ScrollMarginInlineStart => 642,
            CssProperty::ScrollMarginLeft => 643,
            CssProperty::ScrollMarginRight => 644,
            CssProperty::ScrollMarginTop => 645,
            CssProperty::ScrollMarkerGroup => 646,
            CssProperty::ScrollPadding => 647,
            CssProperty::ScrollPaddingBlock => 648,
            CssProperty::ScrollPaddingBlockEnd => 649,
            CssProperty::ScrollPaddingBlockStart => 650,
            CssProperty::ScrollPaddingBottom => 651,
            CssProperty::ScrollPaddingInline => 652,
            CssProperty::ScrollPaddingInlineEnd => 653,
            CssProperty::ScrollPaddingInlineStart => 654,
            CssProperty::ScrollPaddingLeft => 655,
            CssProperty::ScrollPaddingRight => 656,
            CssProperty::ScrollPaddingTop => 657,
            CssProperty::ScrollSnapAlign => 658,
            CssProperty::ScrollSnapStop => 659,
            CssProperty::ScrollSnapType => 660,
            CssProperty::ScrollTargetGroup => 661,
            CssProperty::ScrollTimeline => 662,
            CssProperty::ScrollTimelineAxis => 663,
            CssProperty::ScrollTimelineName => 664,
            CssProperty::ScrollbarColor => 665,
            CssProperty::ScrollbarGutter => 666,
            CssProperty::ScrollbarInset => 667,
            CssProperty::ScrollbarMinThumbSize => 668,
            CssProperty::ScrollbarMode => 669,
            CssProperty::ScrollbarWidth => 670,
            CssProperty::ShapeImageThreshold => 671,
            CssProperty::ShapeInside => 672,
            CssProperty::ShapeMargin => 673,
            CssProperty::ShapeOutside => 674,
            CssProperty::ShapePadding => 675,
            CssProperty::ShapeRendering => 676,
            CssProperty::SliderOrientation => 677,
            CssProperty::SpatialNavigationAction => 678,
            CssProperty::SpatialNavigationContain => 679,
            CssProperty::SpatialNavigationFunction => 680,
            CssProperty::Speak => 681,
            CssProperty::SpeakAs => 682,
            CssProperty::StopColor => 683,
            CssProperty::StopOpacity => 684,
            CssProperty::StringSet => 685,
            CssProperty::Stroke => 686,
            CssProperty::StrokeAlign => 687,
            CssProperty::StrokeAlignment => 688,
            CssProperty::StrokeBreak => 689,
            CssProperty::StrokeColor => 690,
            CssProperty::StrokeDashCornerPropdefStrokeDashCorner => 691,
            CssProperty::StrokeDashJustify => 692,
            CssProperty::StrokeDashadjust => 693,
            CssProperty::StrokeDasharray => 694,
            CssProperty::StrokeDashcornerStrokedashcornerproperty => 695,
            CssProperty::StrokeDashoffset => 696,
            CssProperty::StrokeImage => 697,
            CssProperty::StrokeLinecap => 698,
            CssProperty::StrokeLinejoin => 699,
            _ => self.lookup_position_from_700(),
        }
    }

    /// `lookup_position` for the values from the 700-th on.
    pub open spec fn lookup_position_from_700(&self) -> usize {
        match self {
            CssProperty::StrokeMiterlimit => 700,
            CssProperty::StrokeOpacity => 701,
            CssProperty::StrokeOrigin => 702,
            CssProperty::StrokePosition => 703,
            CssProperty::StrokeRepeat => 704,
            CssProperty::StrokeSize => 705,
            CssProperty::StrokeWidth => 706,
            CssProperty::TabSize => 707,
            CssProperty::TableLayout => 708,
            CssProperty::TextAlign => 709,
            CssProperty::TextAlignAll => 710,
            CssProperty::TextAlignLast => 711,
            CssProperty::TextAnchor => 712,
            CssProperty::TextAutospace => 713,
            CssProperty::TextBox => 714,
            CssProperty::TextBoxEdge => 715,
            CssProperty::TextBoxTrim => 716,
            CssProperty::TextCombineUpright => 717,
            CssProperty::TextDecoration => 718,
            CssProperty::TextDecorationColor => 719,
            CssProperty::TextDecorationInset => 720,
            CssProperty::TextDecorationLine => 721,
            CssProperty::TextDecorationSkip => 722,
            CssProperty::TextDecorationSkipBox => 723,
            CssProperty::TextDecorationSkipInk => 724,
            CssProperty::TextDecorationSkipSelf => 725,
            CssProperty::TextDecorationSkipSpaces => 726,
            CssProperty::TextDecorationStyle => 727,
            CssProperty::TextDecorationThickness => 728,
            CssProperty::TextEmphasis => 729,
            CssProperty::TextEmphasisColor => 730,
            CssProperty::TextEmphasisPosition => 731,
            CssProperty::TextEmphasisSkip => 732,
            CssProperty::TextEmphasisStyle => 733,
            CssProperty::TextFit => 734,
            CssProperty::TextGroupAlign => 735,
            CssProperty::TextIndent => 736,
            CssProperty::TextJustify => 737,
            CssProperty::TextOrientation => 738,
            CssProperty::TextOverflow => 739,
            CssProperty::TextRendering => 740,
            CssProperty::TextShadow => 741,
            CssProperty::TextSizeAdjust => 742,
            CssProperty::TextSpacing => 743,
            CssProperty::TextSpacingTrim => 744,
            CssProperty::TextTransform => 745,
            CssProperty::TextUnderlineOffset => 746,
            CssProperty::TextUnderlinePosition => 747,
            CssProperty::TextWrap => 748,
            CssProperty::TextWrapMode => 749,
            CssProperty::TextWrapStyle => 750,
            CssProperty::TimelineScope => 751,
            CssProperty::TimelineTrigger => 752,
            CssProperty::TimelineTriggerActivationRange => 753,
            CssProperty::TimelineTriggerActivationRangeEnd => 754,
            CssProperty::TimelineTriggerActivationRangeStart => 755,
            CssProperty::TimelineTriggerActiveRange => 756,
            CssProperty::TimelineTriggerActiveRangeEnd => 757,
            CssProperty::TimelineTriggerActiveRangeStart => 758,
            CssProperty::TimelineTriggerName => 759,
            CssProperty::TimelineTriggerSource => 760,
            CssProperty::Top => 761,
            CssProperty::TouchAction => 762,
            CssProperty::Transform => 763,
            CssProperty::TransformBox => 764,
            CssProperty::TransformOrigin => 765,
            CssProperty::TransformStyle => 766,
            CssProperty::Transition => 767,
            CssProperty::TransitionBehavior => 768,
            CssProperty::TransitionDelay => 769,
            CssProperty::TransitionDuration => 770,
            CssProperty::TransitionProperty => 771,
            CssProperty::TransitionTimingFunction => 772,
            CssProperty::Translate => 773,
            CssProperty::TriggerScope => 774,
            CssProperty::UnicodeBidi => 775,
            CssProperty::UserSelect => 776,
            CssProperty::VectorEffect => 777,
            CssProperty::VerticalAlign => 778,
            CssProperty::ViewTimeline => 779,
            CssProperty::ViewTimelineAxis => 780,
            CssProperty::ViewTimelineInset => 781,
            CssProperty::ViewTimelineName => 782,
            CssProperty::ViewTransitionClass => 783,
            CssProperty::ViewTransitionGroup => 784,
            CssProperty::ViewTransitionName => 785,
            CssProperty::ViewTransitionScope => 786,
            CssProperty::Visibility => 787,
            CssProperty::VoiceBalance => 788,
            CssProperty::VoiceDuration => 789,
            CssProperty::VoiceFamily => 790,
            CssProperty::VoicePitch => 791,
            CssProperty::VoiceRange => 792,
            CssProperty::VoiceRate => 793,
            CssProperty::VoiceStress => 794,
            CssProperty::VoiceVolume => 795,
            CssProperty::WhiteSpace => 796,
            CssProperty::WhiteSpaceCollapse => 797,
            CssProperty::WhiteSpaceTrim => 798,
            CssProperty::Widows => 799,
            _ => self.lookup_position_from_800(),
        }
    }

    /// `lookup_position` for the values from the 800-th on.
    pub open spec fn lookup_position_from_800(&self) -> usize {
        match self {
            CssProperty::Width => 800,
            CssProperty::WillChange => 801,
            CssProperty::WordBreak => 802,
            CssProperty::WordSpaceTransform => 803,
            CssProperty::WordSpacing => 804,
            CssProperty::WordWrap => 805,
            CssProperty::WrapAfter => 806,
            CssProperty::WrapBefore => 807,
            CssProperty::WrapFlow => 808,
            CssProperty::WrapInside => 809,
            CssProperty::WrapThrough => 810,
            CssProperty::WritingMode => 811,
            CssProperty::X => 812,
            CssProperty::Y => 813,
            CssProperty::ZIndex => 814,
            CssProperty::Zoom => 815,
            CssProperty::Unknown(_) => 0,
            _ => 0,
        }
    }

    /// The listed value named `s`, if there is one.
    pub open spec fn spec_lookup(s: Seq<char>) -> Option<CssProperty> {
        if exists|p: CssProperty| p.is_listed() && #[trigger] p.spec_name() == s {
            Some(choose|p: CssProperty| p.is_listed() && #[trigger] p.spec_name() == s)
        } else {
            None
        }
    }

    /// The value syntax of the property; empty for an unknown property.
    pub open spec fn spec_syntax(&self) -> Seq<char> {
        match self {
            CssProperty::WebkitAlignContent => "normal | <baseline-position> | <content-distribution> | <overflow-position>? <content-position>"@,
            CssProperty::WebkitAlignItems => "normal | stretch | <baseline-position> | <overflow-position>? <self-position>"@,
            CssProperty::WebkitAlignSelf => "auto | <overflow-position>? [ normal | <self-position> ]| stretch | <baseline-position>"@,
            CssProperty::WebkitAnimation => "<single-animation>#"@,
            CssProperty::WebkitAnimationDelay => "<time>#"@,
            CssProperty::WebkitAnimationDirection => "<single-animation-direction>#"@,
            CssProperty::WebkitAnimationDuration => "<time [0s,∞]>#"@,
            CssProperty::WebkitAnimationFillMode => "<single-animation-fill-mode>#"@,
            CssProperty::WebkitAnimationIterationCount => "<single-animation-iteration-count>#"@,
            CssProperty::WebkitAnimationName => "[ none | <keyframes-name> ]#"@,
            CssProperty::WebkitAnimationPlayState => "<single-animation-play-state>#"@,
            CssProperty::WebkitAnimationTimingFunction => "<easing-function>#"@,
            CssProperty::WebkitAppearance => "none | auto | base | base-select | <compat-auto> | <compat-special> | base"@,
            CssProperty::WebkitBackfaceVisibility => "visible | hidden"@,
            CssProperty::WebkitBackgroundClip => "<visual-box>#"@,
            CssProperty::WebkitBackgroundOrigin => "<visual-box>#"@,
            CssProperty::WebkitBackgroundSize => "<bg-size>#"@,
            CssProperty::WebkitBorderBottomLeftRadius => "<border-radius>"@,
            CssProperty::WebkitBorderBottomRightRadius => "<border-radius>"@,
            CssProperty::WebkitBorderRadius => "<length-percentage [0,∞]>{1,4} [ / <length-percentage [0,∞]>{1,4} ]?"@,
            CssProperty::WebkitBorderTopLeftRadius => "<border-radius>"@,
            CssProperty::WebkitBorderTopRightRadius => "<border-radius>"@,
            CssProperty::WebkitBoxAlign => ""@,
            CssProperty::WebkitBoxFlex => ""@,
            CssProperty::WebkitBoxOrdinalGroup => ""@,
            CssProperty::WebkitBoxOrient => ""@,
            CssProperty::WebkitBoxPack => ""@,
            CssProperty::WebkitBoxShadow => "<spread-shadow>#"@,
            CssProperty::WebkitBoxSizing => "content-box | border-box"@,
            CssProperty::WebkitFilter => "none | <filter-value-list>"@,
            CssProperty::WebkitFlex => "none | [ <'flex-grow'> <'flex-shrink'>? || <'flex-basis'> ]"@,
            CssProperty::WebkitFlexBasis => "content | <'width'>"@,
            CssProperty::WebkitFlexDirection => "row | row-reverse | column | column-reverse"@,
            CssProperty::WebkitFlexFlow => "<'flex-direction'> || <'flex-wrap'>"@,
            CssProperty::WebkitFlexGrow => "<number [0,∞]>"@,
            CssProperty::WebkitFlexShrink => "<number [0,∞]>"@,
            CssProperty::WebkitFlexWrap => "nowrap | wrap | wrap-reverse"@,
            CssProperty::WebkitJustifyContent => "normal | <content-distribution> | <overflow-position>? [ <content-position> | left | right ]"@,
            CssProperty::WebkitLineClamp => "none | <integer [1,∞]>"@,
            CssProperty::WebkitMask => "<mask-layer>#"@,
            CssProperty::WebkitMaskBoxImage => "<'mask-border-source'> || <'mask-border-slice'> [ / <'mask-border-width'>? [ / <'mask-border-outset'> ]? ]? || <'mask-border-repeat'> || <'mask-border-mode'>"@,
            CssProperty::WebkitMaskBoxImageOutset => "<'border-image-outset'>"@,
            CssProperty::WebkitMaskBoxImageRepeat => "<'border-image-repeat'>"@,
            CssProperty::WebkitMaskBoxImageSlice => "<'border-image-slice'>"@,
            CssProperty::WebkitMaskBoxImageSource => "<'border-image-source'>"@,
            CssProperty::WebkitMaskBoxImageWidth => "<'border-image-width'>"@,
            CssProperty::WebkitMaskClip => "[ <coord-box> | no-clip ]#"@,
            CssProperty::WebkitMaskComposite => "<compositing-operator>#"@,
            CssProperty::WebkitMaskImage => "<mask-reference>#"@,
            CssProperty::WebkitMaskOrigin => "<coord-box>#"@,
            CssProperty::WebkitMaskPosition => "<position>#"@,
            CssProperty::WebkitMaskRepeat => "<repeat-style>#"@,
            CssProperty::WebkitMaskSize => "<bg-size>#"@,
            CssProperty::WebkitOrder => "<integer>"@,
            CssProperty::WebkitPerspective => "none | <length [0,∞]>"@,
            CssProperty::WebkitPerspectiveOrigin => "<position>"@,
            CssProperty::WebkitTextFillColor => "<color>"@,
            CssProperty::WebkitTextSizeAdjust => "auto | none | <percentage [0,∞]>"@,
            CssProperty::WebkitTextStroke => "<line-width> || <color>"@,
            CssProperty::WebkitTextStrokeColor => "<color>"@,
            CssProperty::WebkitTextStrokeWidth => "<line-width>"@,
            CssProperty::WebkitTransform => "none | <transform-list>"@,
            CssProperty::WebkitTransformOrigin => "[ left | center | right | top | bottom | <length-percentage> ] | [ left | center | right | <length-percentage> ] [ top | center | bottom | <length-percentage> ] <length>? | [ [ center | left | right ] && [ center | top | bottom ] ] <length>?"@,
            CssProperty::WebkitTransformStyle => "flat | preserve-3d"@,
            CssProperty::WebkitTransition => "<single-transition>#"@,
            CssProperty::WebkitTransitionDelay => "<time>#"@,
            CssProperty::WebkitTransitionDuration => "<time [0s,∞]>#"@,
            CssProperty::WebkitTransitionProperty => "none | <single-transition-property>#"@,
            CssProperty::WebkitTransitionTimingFunction => "<easing-function>#"@,
            CssProperty::WebkitUserSelect => "auto | text | none | contain | all"@,
            CssProperty::AccentColor => "auto | <color>"@,
            CssProperty::AlignContent => "normal | <baseline-position> | <content-distribution> | <overflow-position>? <content-position>"@,
            CssProperty::AlignItems => "normal | stretch | <baseline-position> | <overflow-position>? <self-position>"@,
            CssProperty::AlignSelf => "auto | <overflow-position>? [ normal | <self-position> ]| stretch | <baseline-position> | anchor-center"@,
            CssProperty::AlignmentBaseline => "baseline | <baseline-metric>"@,
            CssProperty::All => "initial | inherit | unset | revert | revert-layer | revert-rule"@,
            CssProperty::AnchorName => "none | <anchor-name>#"@,
            CssProperty::AnchorScope => "none | all | <anchor-name>#"@,
            CssProperty::Animation => "<single-animation>#"@,
            CssProperty::AnimationComposition => "<single-animation-composition>#"@,
            CssProperty::AnimationDelay => "<time>#"@,
            CssProperty::AnimationDirection => "<single-animation-direction>#"@,
            CssProperty::AnimationDuration => "[ auto | <time [0s,∞]> ]#"@,
            CssProperty::AnimationFillMode => "<single-animation-fill-mode>#"@,
            CssProperty::AnimationIterationCount => "<single-animation-iteration-count>#"@,
            CssProperty::AnimationName => "[ none | <keyframes-name> ]#"@,
            CssProperty::AnimationPlayState => "<single-animation-play-state>#"@,
            CssProperty::AnimationRange => "[ <'animation-range-start'> <'animation-range-end'>? ]#"@,
            CssProperty::AnimationRangeCenter => "[ normal | [ <length-percentage> | <timeline-range-center-subject> <length-percentage>? ] ]#"@,
            CssProperty::AnimationRangeEnd => "[ normal | <length-percentage> | <timeline-range-name> <length-percentage>? ]#"@,
            CssProperty::AnimationRangeStart => "[ normal | <length-percentage> | <timeline-range-name> <length-percentage>? ]#"@,
            CssProperty::AnimationTimeline => "<single-animation-timeline>#"@,
            CssProperty::AnimationTimingFunction => "<easing-function>#"@,
            CssProperty::AnimationTrigger => "[ none | [ <dashed-ident> <animation-action>+ ]+ ]#"@,
            CssProperty::Appearance => "none | auto | base | base-select | <compat-auto> | <compat-special> | base"@,
            CssProperty::AspectRatio => "auto || <ratio>"@,
            CssProperty::BackdropFilter => "none | <filter-value-list>"@,
            CssProperty::BackfaceVisibility => "visible | hidden"@,
            CssProperty::Background => "<bg-layer>#? , <final-bg-layer>"@,
            CssProperty::BackgroundAttachment => "<attachment>#"@,
            _ => self.spec_syntax_from_100(),
        }
    }

    /// `spec_syntax` for the values from the 100-th on.
    pub open spec fn spec_syntax_from_100(&self) -> Seq<char> {
        match self {
            CssProperty::BackgroundBlendMode => "<'mix-blend-mode'>#"@,
            CssProperty::BackgroundClip => "<bg-clip>#"@,
            CssProperty::BackgroundColor => "<color>"@,
            CssProperty::BackgroundImage => "<bg-image>#"@,
            CssProperty::BackgroundOrigin => "<visual-box>#"@,
            CssProperty::BackgroundPosition => "<bg-position>#"@,
            CssProperty::BackgroundPositionBlock => "[ center | [ [ start | end ]? <length-percentage>? ]! ]#"@,
            CssProperty::BackgroundPositionInline => "[ center | [ [ start | end ]? <length-percentage>? ]! ]#"@,
            CssProperty::BackgroundPositionX => "[ center | [ [ left | right | x-start | x-end ]? <length-percentage>? ]! ]#"@,
            CssProperty::BackgroundPositionY => "[ center | [ [ top | bottom | y-start | y-end ]? <length-percentage>? ]! ]#"@,
            CssProperty::BackgroundRepeat => "<repeat-style>#"@,
            CssProperty::BackgroundRepeatBlock => "<repetition>#"@,
            CssProperty::BackgroundRepeatInline => "<repetition>#"@,
            CssProperty::BackgroundRepeatX => "<repetition>#"@,
            CssProperty::BackgroundRepeatY => "<repetition>#"@,
            CssProperty::BackgroundSize => "<bg-size>#"@,
            CssProperty::BackgroundTbd => "<bg-layer>#"@,
            CssProperty::BaselineShift => "<length-percentage> | sub | super | top | center | bottom"@,
            CssProperty::BaselineSource => "auto | first | last"@,
            CssProperty::BlockEllipsis => "no-ellipsis | auto | <string>"@,
            CssProperty::BlockSize => "<'width'>"@,
            CssProperty::BlockStep => "<'block-step-size'> || <'block-step-insert'> || <'block-step-align'> || <'block-step-round'>"@,
            CssProperty::BlockStepAlign => "auto | center | start | end"@,
            CssProperty::BlockStepInsert => "margin-box | padding-box | content-box"@,
            CssProperty::BlockStepRound => "up | down | nearest"@,
            CssProperty::BlockStepSize => "none | <length [0,∞]>"@,
            CssProperty::BookmarkLabel => "<content-list>"@,
            CssProperty::BookmarkLevel => "none | <integer [1,∞]>"@,
            CssProperty::BookmarkState => "open | closed"@,
            CssProperty::Border => "<line-width> || <line-style> || <color>"@,
            CssProperty::BorderBlock => "<'border-block-start'>"@,
            CssProperty::BorderBlockClip => "<'border-top-clip'>"@,
            CssProperty::BorderBlockColor => "<'border-top-color'>{1,2}"@,
            CssProperty::BorderBlockEnd => "<line-width> || <line-style> || <color>"@,
            CssProperty::BorderBlockEndClip => "none | [ <length-percentage [0,∞]> | <flex> ]+"@,
            CssProperty::BorderBlockEndColor => "<color> | <image-1D>"@,
            CssProperty::BorderBlockEndRadius => "<length-percentage [0,∞]>{1,2} [ / <length-percentage [0,∞]>{1,2} ]?"@,
            CssProperty::BorderBlockEndStyle => "<line-style>"@,
            CssProperty::BorderBlockEndWidth => "<line-width>"@,
            CssProperty::BorderBlockStart => "<line-width> || <line-style> || <color>"@,
            CssProperty::BorderBlockStartClip => "none | [ <length-percentage [0,∞]> | <flex> ]+"@,
            CssProperty::BorderBlockStartColor => "<color> | <image-1D>"@,
            CssProperty::BorderBlockStartRadius => "<length-percentage [0,∞]>{1,2} [ / <length-percentage [0,∞]>{1,2} ]?"@,
            CssProperty::BorderBlockStartStyle => "<line-style>"@,
            CssProperty::BorderBlockStartWidth => "<line-width>"@,
            CssProperty::BorderBlockStyle => "<'border-top-style'>{1,2}"@,
            CssProperty::BorderBlockWidth => "<'border-top-width'>{1,2}"@,
            CssProperty::BorderBottom => "<line-width> || <line-style> || <color>"@,
            CssProperty::BorderBottomClip => "none | [ <length-percentage [0,∞]> | <flex> ]+"@,
            CssProperty::BorderBottomColor => "<color> | <image-1D>"@,
            CssProperty::BorderBottomLeftRadius => "<border-radius>"@,
            CssProperty::BorderBottomRadius => "<length-percentage [0,∞]>{1,2} [ / <length-percentage [0,∞]>{1,2} ]?"@,
            CssProperty::BorderBottomRightRadius => "<border-radius>"@,
            CssProperty::BorderBottomStyle => "<line-style>"@,
            CssProperty::BorderBottomWidth => "<line-width>"@,
            CssProperty::BorderBoundary => "none | parent | display"@,
            CssProperty::BorderClip => "<'border-top-clip'>"@,
            CssProperty::BorderCollapse => "separate | collapse"@,
            CssProperty::BorderColor => "[ <color> | <image-1D> ]{1,4}"@,
            CssProperty::BorderEndEndRadius => "<border-radius>"@,
            CssProperty::BorderEndStartRadius => "<border-radius>"@,
            CssProperty::BorderImage => "<'border-image-source'> || <'border-image-slice'> [ / <'border-image-width'> | / <'border-image-width'>? / <'border-image-outset'> ]? || <'border-image-repeat'>"@,
            CssProperty::BorderImageOutset => "[ <length [0,∞]> | <number [0,∞]> ]{1,4}"@,
            CssProperty::BorderImageRepeat => "[ stretch | repeat | round | space ]{1,2}"@,
            CssProperty::BorderImageSlice => "[<number [0,∞]> | <percentage [0,∞]>]{1,4} && fill?"@,
            CssProperty::BorderImageSource => "none | <image>"@,
            CssProperty::BorderImageWidth => "[ <length-percentage [0,∞]> | <number [0,∞]> | auto ]{1,4}"@,
            CssProperty::BorderInline => "<'border-block-start'>"@,
            CssProperty::BorderInlineClip => "<'border-top-clip'>"@,
            CssProperty::BorderInlineColor => "<'border-top-color'>{1,2}"@,
            CssProperty::BorderInlineEnd => "<line-width> || <line-style> || <color>"@,
            CssProperty::BorderInlineEndClip => "none | [ <length-percentage [0,∞]> | <flex> ]+"@,
            CssProperty::BorderInlineEndColor => "<color> | <image-1D>"@,
            CssProperty::BorderInlineEndRadius => "<length-percentage [0,∞]>{1,2} [ / <length-percentage [0,∞]>{1,2} ]?"@,
            CssProperty::BorderInlineEndStyle => "<line-style>"@,
            CssProperty::BorderInlineEndWidth => "<line-width>"@,
            CssProperty::BorderInlineStart => "<line-width> || <line-style> || <color>"@,
            CssProperty::BorderInlineStartClip => "none | [ <length-percentage [0,∞]> | <flex> ]+"@,
            CssProperty::BorderInlineStartColor => "<color> | <image-1D>"@,
            CssProperty::BorderInlineStartRadius => "<length-percentage [0,∞]>{1,2} [ / <length-percentage [0,∞]>{1,2} ]?"@,
            CssProperty::BorderInlineStartStyle => "<line-style>"@,
            CssProperty::BorderInlineStartWidth => "<line-width>"@,
            CssProperty::BorderInlineStyle => "<'border-top-style'>{1,2}"@,
            CssProperty::BorderInlineWidth => "<'border-top-width'>{1,2}"@,
            CssProperty::BorderLeft => "<line-width> || <line-style> || <color>"@,
            CssProperty::BorderLeftClip => "none | [ <length-percentage [0,∞]> | <flex> ]+"@,
            CssProperty::BorderLeftColor => "<color> | <image-1D>"@,
            CssProperty::BorderLeftRadius => "<length-percentage [0,∞]>{1,2} [ / <length-percentage [0,∞]>{1,2} ]?"@,
            CssProperty::BorderLeftStyle => "<line-style>"@,
            CssProperty::BorderLeftWidth => "<line-width>"@,
            CssProperty::BorderLimit => "all | [ sides | corners ] <length-percentage [0,∞]>? | [ top | right | bottom | left ] <length-percentage [0,∞]>"@,
            CssProperty::BorderRadius => "<length-percentage [0,∞]>{1,4} [ / <length-percentage [0,∞]>{1,4} ]?"@,
            CssProperty::BorderRight => "<line-width> || <line-style> || <color>"@,
            CssProperty::BorderRightClip => "none | [ <length-percentage [0,∞]> | <flex> ]+"@,
            CssProperty::BorderRightColor => "<color> | <image-1D>"@,
            CssProperty::BorderRightRadius => "<length-percentage [0,∞]>{1,2} [ / <length-percentage [0,∞]>{1,2} ]?"@,
            CssProperty::BorderRightStyle => "<line-style>"@,
            CssProperty::BorderRightWidth => "<line-width>"@,
            CssProperty::BorderShape => "none | [ <basic-shape> <geometry-box>?]{1,2}"@,
            CssProperty::BorderSpacing => "<length [0,∞]>{1,2}"@,
            _ => self.spec_syntax_from_200(),
        }
    }

    /// `spec_syntax` for the values from the 200-th on.
    pub open spec fn spec_syntax_from_200(&self) -> Seq<char> {
        match self {
            CssProperty::BorderStartEndRadius => "<border-radius>"@,
            CssProperty::BorderStartStartRadius => "<border-radius>"@,
            CssProperty::BorderStyle => "<'border-top-style'>{1,4}"@,
            CssProperty::BorderTop => "<line-width> || <line-style> || <color>"@,
            CssProperty::BorderTopClip => "none | [ <length-percentage [0,∞]> | <flex> ]+"@,
            CssProperty::BorderTopColor => "<color> | <image-1D>"@,
            CssProperty::BorderTopLeftRadius => "<border-radius>"@,
            CssProperty::BorderTopRadius => "<length-percentage [0,∞]>{1,2} [ / <length-percentage [0,∞]>{1,2} ]?"@,
            CssProperty::BorderTopRightRadius => "<border-radius>"@,
            CssProperty::BorderTopStyle => "<line-style>"@,
            CssProperty::BorderTopWidth => "<line-width>"@,
            CssProperty::BorderWidth => "<'border-top-width'>{1,4}"@,
            CssProperty::Bottom => "auto | <length-percentage> | <anchor()> | <anchor-size()>"@,
            CssProperty::BoxDecorationBreak => "slice | clone"@,
            CssProperty::BoxShadow => "<spread-shadow>#"@,
            CssProperty::BoxShadowBlur => "<length [0,∞]>#"@,
            CssProperty::BoxShadowColor => "<color>#"@,
            CssProperty::BoxShadowOffset => "[ none | <length>{1,2} ]#"@,
            CssProperty::BoxShadowPosition => "[ outset | inset ]#"@,
            CssProperty::BoxShadowSpread => "<length>#"@,
            CssProperty::BoxSizing => "content-box | border-box"@,
            CssProperty::BoxSnap => "none | block-start | block-end | center | baseline | last-baseline"@,
            CssProperty::BreakAfter => "auto | avoid | always | all | avoid-page | page | left | right | recto | verso | avoid-column | column | avoid-region | region"@,
            CssProperty::BreakBefore => "auto | avoid | always | all | avoid-page | page | left | right | recto | verso | avoid-column | column | avoid-region | region"@,
            CssProperty::BreakInside => "auto | avoid | avoid-page | avoid-column | avoid-region"@,
            CssProperty::CaptionSide => "top | bottom"@,
            CssProperty::Caret => "<'caret-color'> || <'caret-animation'> || <'caret-shape'>"@,
            CssProperty::CaretAnimation => "auto | manual"@,
            CssProperty::CaretColor => "auto | <color> [auto | <color>]?"@,
            CssProperty::CaretShape => "auto | bar | block | underscore"@,
            CssProperty::Clear => "inline-start | inline-end | block-start | block-end | left | right | top | bottom | both-inline | both-block | both | none"@,
            CssProperty::Clip => "<rect()> | auto"@,
            CssProperty::ClipPath => "<clip-source> | [ <basic-shape> || <geometry-box> ] | none"@,
            CssProperty::ClipRule => "nonzero | evenodd"@,
            CssProperty::Color => "<color>"@,
            CssProperty::ColorAdjust => "<'print-color-adjust'>"@,
            CssProperty::ColorInterpolation => "auto | sRGB | linearRGB"@,
            CssProperty::ColorInterpolationFilters => "auto | sRGB | linearRGB"@,
            CssProperty::ColorScheme => "normal | [ light | dark | <custom-ident> ]+ && only?"@,
            CssProperty::ColumnCount => "auto | <integer [1,∞]>"@,
            CssProperty::ColumnFill => "auto | balance | balance-all"@,
            CssProperty::ColumnGap => "normal | <length-percentage [0,∞]> | <line-width>"@,
            CssProperty::ColumnHeight => "auto | <length [0,∞]>"@,
            CssProperty::ColumnRule => "<gap-rule-list> | <gap-auto-rule-list>"@,
            CssProperty::ColumnRuleBreak => "none | normal | intersection"@,
            CssProperty::ColumnRuleColor => "<line-color-list> | <auto-line-color-list>"@,
            CssProperty::ColumnRuleInset => "<'column-rule-inset-cap'> [ / <'column-rule-inset-junction'> ]?"@,
            CssProperty::ColumnRuleInsetCap => "<length-percentage> [ <length-percentage> ]?"@,
            CssProperty::ColumnRuleInsetCapEnd => "<length-percentage>"@,
            CssProperty::ColumnRuleInsetCapStart => "<length-percentage>"@,
            CssProperty::ColumnRuleInsetEnd => "<length-percentage>"@,
            CssProperty::ColumnRuleInsetJunction => "<length-percentage> [ <length-percentage> ]?"@,
            CssProperty::ColumnRuleInsetJunctionEnd => "<length-percentage>"@,
            CssProperty::ColumnRuleInsetJunctionStart => "<length-percentage>"@,
            CssProperty::ColumnRuleInsetStart => "<length-percentage>"@,
            CssProperty::ColumnRuleStyle => "<line-style-list> | <auto-line-style-list>"@,
            CssProperty::ColumnRuleVisibilityItems => "all | around | between | normal"@,
            CssProperty::ColumnRuleWidth => "<line-width-list> | <auto-line-width-list>"@,
            CssProperty::ColumnSpan => "none | <integer [1,∞]> | all | auto"@,
            CssProperty::ColumnWidth => "auto | <length [0,∞]> | min-content | max-content | fit-content(<length-percentage>)"@,
            CssProperty::ColumnWrap => "auto | nowrap | wrap"@,
            CssProperty::Columns => "[ <'column-width'> || <'column-count'> ] [ / <'column-height'> ]?"@,
            CssProperty::Contain => "none | strict | content | [ [size | inline-size] || layout || style || paint ]"@,
            CssProperty::ContainIntrinsicBlockSize => "auto? [ none | <length [0,∞]> ]"@,
            CssProperty::ContainIntrinsicHeight => "auto? [ none | <length [0,∞]> ]"@,
            CssProperty::ContainIntrinsicInlineSize => "auto? [ none | <length [0,∞]> ]"@,
            CssProperty::ContainIntrinsicSize => "[ auto? [ none | <length [0,∞]> ] ]{1,2}"@,
            CssProperty::ContainIntrinsicWidth => "auto? [ none | <length [0,∞]> ]"@,
            CssProperty::Container => "<'container-name'> [ / <'container-type'> ]?"@,
            CssProperty::ContainerName => "none | <custom-ident>+"@,
            CssProperty::ContainerType => "normal | [ [ size | inline-size ] || scroll-state ]"@,
            CssProperty::Content => "normal | none | [ <content-replacement> | <content-list> ] [/ [ <string> | <counter> | <attr()> ]+ ]? | <element()>"@,
            CssProperty::ContentVisibility => "visible | auto | hidden"@,
            CssProperty::Continue => "auto | discard | collapse | -webkit-legacy | overflow | paginate | fragments"@,
            CssProperty::CopyInto => "none | [ [ <custom-ident> <content-level>] [, <custom-ident> <content-level>]* ]?"@,
            CssProperty::Corner => "<'border-radius'> || <'corner-shape'>"@,
            CssProperty::CornerBlockEnd => "<'border-top-radius'> || <'corner-top-shape'>"@,
            CssProperty::CornerBlockEndShape => "<'corner-top-left-shape'>{1,2}"@,
            CssProperty::CornerBlockStart => "<'border-top-radius'> || <'corner-top-shape'>"@,
            CssProperty::CornerBlockStartShape => "<'corner-top-left-shape'>{1,2}"@,
            CssProperty::CornerBottom => "<'border-top-radius'> || <'corner-top-shape'>"@,
            CssProperty::CornerBottomLeft => "<'border-top-left-radius'> || <'corner-top-left-shape'>"@,
            CssProperty::CornerBottomLeftShape => "<corner-shape-value>"@,
            CssProperty::CornerBottomRight => "<'border-top-left-radius'> || <'corner-top-left-shape'>"@,
            CssProperty::CornerBottomRightShape => "<corner-shape-value>"@,
            CssProperty::CornerBottomShape => "<'corner-top-left-shape'>{1,2}"@,
            CssProperty::CornerEndEnd => "<'border-top-left-radius'> || <'corner-top-left-shape'>"@,
            CssProperty::CornerEndEndShape => "<corner-shape-value>"@,
            CssProperty::CornerEndStart => "<'border-top-left-radius'> || <'corner-top-left-shape'>"@,
            CssProperty::CornerEndStartShape => "<corner-shape-value>"@,
            CssProperty::CornerInlineEnd => "<'border-top-radius'> || <'corner-top-shape'>"@,
            CssProperty::CornerInlineEndShape => "<'corner-top-left-shape'>{1,2}"@,
            CssProperty::CornerInlineStart => "<'border-top-radius'> || <'corner-top-shape'>"@,
            CssProperty::CornerInlineStartShape => "<'corner-top-left-shape'>{1,2}"@,
            CssProperty::CornerLeft => "<'border-top-radius'> || <'corner-top-shape'>"@,
            CssProperty::CornerLeftShape => "<'corner-top-left-shape'>{1,2}"@,
            CssProperty::CornerRight => "<'border-top-radius'> || <'corner-top-shape'>"@,
            CssProperty::CornerRightShape => "<'corner-top-left-shape'>{1,2}"@,
            CssProperty::CornerShape => "<'corner-top-left-shape'>{1,4}"@,
            CssProperty::CornerStartEnd => "<'border-top-left-radius'> || <'corner-top-left-shape'>"@,
            _ => self.spec_syntax_from_300(),
        }
    }

    /// `spec_syntax` for the values from the 300-th on.
    pub open spec fn spec_syntax_from_300(&self) -> Seq<char> {
        match self {
            CssProperty::CornerStartEndShape => "<corner-shape-value>"@,
            CssProperty::CornerStartStart => "<'border-top-left-radius'> || <'corner-top-left-shape'>"@,
            CssProperty::CornerStartStartShape => "<corner-shape-value>"@,
            CssProperty::CornerTop => "<'border-top-radius'> || <'corner-top-shape'>"@,
            CssProperty::CornerTopLeft => "<'border-top-left-radius'> || <'corner-top-left-shape'>"@,
            CssProperty::CornerTopLeftShape => "<corner-shape-value>"@,
            CssProperty::CornerTopRight => "<'border-top-left-radius'> || <'corner-top-left-shape'>"@,
            CssProperty::CornerTopRightShape => "<corner-shape-value>"@,
            CssProperty::CornerTopShape => "<'corner-top-left-shape'>{1,2}"@,
            CssProperty::CounterIncrement => "[ <counter-name> <integer>? ]+ | none"@,
            CssProperty::CounterReset => "[ <counter-name> <integer>? | <reversed-counter-name> <integer>? ]+ | none"@,
            CssProperty::CounterSet => "[ <counter-name> <integer>? ]+ | none"@,
            CssProperty::Cue => "<'cue-before'> <'cue-after'>?"@,
            CssProperty::CueAfter => "<url> <decibel>? | none"@,
            CssProperty::CueBefore => "<url> <decibel>? | none"@,
            CssProperty::Cursor => "[<cursor-image>,]* <cursor-predefined>"@,
            CssProperty::Cx => "<length-percentage>"@,
            CssProperty::Cy => "<length-percentage>"@,
            CssProperty::D => "none | <string>"@,
            CssProperty::Direction => "ltr | rtl"@,
            CssProperty::Display => "[ <display-outside> || <display-inside> ] | <display-listitem> | <display-internal> | <display-box> | <display-legacy> | grid-lanes | inline-grid-lanes | <display-outside> || [ <display-inside> | math ]"@,
            CssProperty::DominantBaseline => "auto | <baseline-metric>"@,
            CssProperty::DynamicRangeLimit => "standard | no-limit | constrained | <dynamic-range-limit-mix()>"@,
            CssProperty::EmptyCells => "show | hide"@,
            CssProperty::EventTrigger => "none | [ <'event-trigger-name'> <'event-trigger-source'> ]#"@,
            CssProperty::EventTriggerName => "none | <dashed-ident>#"@,
            CssProperty::EventTriggerSource => "[ none | <event-trigger-event>+ [ / <event-trigger-event>+ ]? ]#"@,
            CssProperty::FieldSizing => "fixed | content"@,
            CssProperty::Fill => "<paint>"@,
            CssProperty::FillBreak => "bounding-box | slice | clone"@,
            CssProperty::FillColor => "<color>"@,
            CssProperty::FillImage => "<paint>#"@,
            CssProperty::FillOpacity => "<'opacity'>"@,
            CssProperty::FillOrigin => "match-parent | fill-box | stroke-box | content-box | padding-box | border-box"@,
            CssProperty::FillPosition => "<position>#"@,
            CssProperty::FillRepeat => "<repeat-style>#"@,
            CssProperty::FillRule => "nonzero | evenodd"@,
            CssProperty::FillSize => "<bg-size>#"@,
            CssProperty::Filter => "none | <filter-value-list>"@,
            CssProperty::Flex => "none | [ <'flex-grow'> <'flex-shrink'>? || <'flex-basis'> ]"@,
            CssProperty::FlexBasis => "content | <'width'>"@,
            CssProperty::FlexDirection => "row | row-reverse | column | column-reverse"@,
            CssProperty::FlexFlow => "<'flex-direction'> || <'flex-wrap'>"@,
            CssProperty::FlexGrow => "<number [0,∞]>"@,
            CssProperty::FlexShrink => "<number [0,∞]>"@,
            CssProperty::FlexWrap => "nowrap | wrap | wrap-reverse"@,
            CssProperty::Float => "block-start | block-end | inline-start | inline-end | snap-block | <snap-block()> | snap-inline | <snap-inline()> | left | right | top | bottom | none | footnote"@,
            CssProperty::FloatDefer => "<integer> | last | none"@,
            CssProperty::FloatOffset => "<length-percentage>"@,
            CssProperty::FloatReference => "inline | column | region | page"@,
            CssProperty::FloodColor => "<color>"@,
            CssProperty::FloodOpacity => "<'opacity'>"@,
            CssProperty::FlowFrom => "<custom-ident> | none"@,
            CssProperty::FlowInto => "none | <custom-ident> [element | content]?"@,
            CssProperty::FlowTolerance => "normal | <length-percentage> | infinite"@,
            CssProperty::Font => "[ [ <'font-style'> || <font-variant-css2> || <'font-weight'> || <font-width-css3> ]? <'font-size'> [ / <'line-height'> ]? <'font-family'># ] | <system-font-family-name>"@,
            CssProperty::FontFamily => "[ <font-family-name> | <generic-font-family> ]#"@,
            CssProperty::FontFeatureSettings => "normal | <feature-tag-value>#"@,
            CssProperty::FontKerning => "auto | normal | none"@,
            CssProperty::FontLanguageOverride => "normal | <string>"@,
            CssProperty::FontOpticalSizing => "auto | none"@,
            CssProperty::FontPalette => "normal | light | dark | <palette-identifier> | <palette-mix()>"@,
            CssProperty::FontSize => "<absolute-size> | <relative-size> | <length-percentage [0,∞]> | math"@,
            CssProperty::FontSizeAdjust => "none | [ ex-height | cap-height | ch-width | ic-width | ic-height ]? [ from-font | <number [0,∞]> ]"@,
            CssProperty::FontStretch => "normal | <percentage [0,∞]> | ultra-condensed | extra-condensed | condensed | semi-condensed | semi-expanded | expanded | extra-expanded | ultra-expanded"@,
            CssProperty::FontStyle => "normal | italic | left | right | oblique <angle [-90deg,90deg]>?"@,
            CssProperty::FontSynthesis => "none | [ weight || style || small-caps || position]"@,
            CssProperty::FontSynthesisPosition => "auto | none"@,
            CssProperty::FontSynthesisSmallCaps => "auto | none"@,
            CssProperty::FontSynthesisStyle => "auto | none | oblique-only"@,
            CssProperty::FontSynthesisWeight => "auto | none"@,
            CssProperty::FontVariant => "normal | none | [ [ <common-lig-values> || <discretionary-lig-values> || <historical-lig-values> || <contextual-alt-values> ] || [ small-caps | all-small-caps | petite-caps | all-petite-caps | unicase | titling-caps ] || [ stylistic(<font-feature-value-name>) || historical-forms || styleset(<font-feature-value-name>#) || character-variant(<font-feature-value-name>#) || swash(<font-feature-value-name>) || ornaments(<font-feature-value-name>) || annotation(<font-feature-value-name>) ] || [ <numeric-figure-values> || <numeric-spacing-values> || <numeric-fraction-values> || ordinal || slashed-zero ] || [ <east-asian-variant-values> || <east-asian-width-values> || ruby ] || [ sub | super ] || [ text | emoji | unicode ] ]"@,
            CssProperty::FontVariantAlternates => "normal | [ stylistic(<font-feature-value-name>) || historical-forms || styleset(<font-feature-value-name>#) || character-variant(<font-feature-value-name>#) || swash(<font-feature-value-name>) || ornaments(<font-feature-value-name>) || annotation(<font-feature-value-name>) ]"@,
            CssProperty::FontVariantCaps => "normal | small-caps | all-small-caps | petite-caps | all-petite-caps | unicase | titling-caps"@,
            CssProperty::FontVariantEastAsian => "normal | [ <east-asian-variant-values> || <east-asian-width-values> || ruby ]"@,
            CssProperty::FontVariantEmoji => "normal | text | emoji | unicode"@,
            CssProperty::FontVariantLigatures => "normal | none | [ <common-lig-values> || <discretionary-lig-values> || <historical-lig-values> || <contextual-alt-values> ]"@,
            CssProperty::FontVariantNumeric => "normal | [ <numeric-figure-values> || <numeric-spacing-values> || <numeric-fraction-values> || ordinal || slashed-zero ]"@,
            CssProperty::FontVariantPosition => "normal | sub | super"@,
            CssProperty::FontVariationSettings => "normal | [ <opentype-tag> <number> ]#"@,
            CssProperty::FontWeight => "<font-weight-absolute> | bolder | lighter"@,
            CssProperty::FontWidth => "normal | <percentage [0,∞]> | ultra-condensed | extra-condensed | condensed | semi-condensed | semi-expanded | expanded | extra-expanded | ultra-expanded"@,
            CssProperty::FootnoteDisplay => "block | inline | compact"@,
            CssProperty::FootnotePolicy => "auto | line | block"@,
            CssProperty::ForcedColorAdjust => "auto | none | preserve-parent-color"@,
            CssProperty::FrameSizing => "auto | content-width | content-height | content-block-size | content-inline-size"@,
            CssProperty::Gap => "<'row-gap'> <'column-gap'>?"@,
            CssProperty::GlyphOrientationVertical => "auto | 0deg | 90deg | 0 | 90"@,
            CssProperty::Grid => "<'grid-template'> | <'grid-template-rows'> / [ auto-flow && dense? ] <'grid-auto-columns'>? | [ auto-flow && dense? ] <'grid-auto-rows'>? / <'grid-template-columns'>"@,
            CssProperty::GridArea => "<grid-line> [ / <grid-line> ]{0,3}"@,
            CssProperty::GridAutoColumns => "<track-size>+"@,
            CssProperty::GridAutoFlow => "[ row | column ] || dense"@,
            CssProperty::GridAutoRows => "<track-size>+"@,
            CssProperty::GridColumn => "<grid-line> [ / <grid-line> ]?"@,
            CssProperty::GridColumnEnd => "<grid-line>"@,
            CssProperty::GridColumnGap => "normal | <length-percentage [0,∞]> | <line-width>"@,
            CssProperty::GridColumnStart => "<grid-line>"@,
            CssProperty::GridGap => "<'row-gap'> <'column-gap'>?"@,
            CssProperty::GridRow => "<grid-line> [ / <grid-line> ]?"@,
            CssProperty::GridRowEnd => "<grid-line>"@,
            _ => self.spec_syntax_from_400(),
        }
    }

    /// `spec_syntax` for the values from the 400-th on.
    pub open spec fn spec_syntax_from_400(&self) -> Seq<char> {
        match self {
            CssProperty::GridRowGap => "normal | <length-percentage [0,∞]> | <line-width>"@,
            CssProperty::GridRowStart => "<grid-line>"@,
            CssProperty::GridTemplate => "none | [ <'grid-template-rows'> / <'grid-template-columns'> ] | [ <line-names>? <string> <track-size>? <line-names>? ]+ [ / <explicit-track-list> ]?"@,
            CssProperty::GridTemplateAreas => "none | <string>+"@,
            CssProperty::GridTemplateColumns => "none | <track-list> | <auto-track-list> | subgrid <line-name-list>?"@,
            CssProperty::GridTemplateRows => "none | <track-list> | <auto-track-list> | subgrid <line-name-list>?"@,
            CssProperty::HangingPunctuation => "none | [ first || [ force-end | allow-end ] || last ]"@,
            CssProperty::Height => "auto | <length-percentage [0,∞]> | min-content | max-content | fit-content(<length-percentage [0,∞]>) | <calc-size()> | <anchor-size()> | stretch | fit-content | contain"@,
            CssProperty::HyphenateCharacter => "auto | <string>"@,
            CssProperty::HyphenateLimitChars => "[ auto | <integer> ]{1,3}"@,
            CssProperty::HyphenateLimitLast => "none | always | column | page | spread"@,
            CssProperty::HyphenateLimitLines => "no-limit | <integer>"@,
            CssProperty::HyphenateLimitZone => "<length-percentage>"@,
            CssProperty::Hyphens => "none | manual | auto"@,
            CssProperty::ImageAnimation => "normal | paused | stopped | running"@,
            CssProperty::ImageOrientation => "from-image | none | [ <angle> || flip ]"@,
            CssProperty::ImageRendering => "auto | smooth | high-quality | pixelated | crisp-edges"@,
            CssProperty::ImageResolution => "[ from-image || <resolution> ] && snap?"@,
            CssProperty::InitialLetter => "normal | <number [1,∞]> <integer [1,∞]> | <number [1,∞]> && [ drop | raise ]?"@,
            CssProperty::InitialLetterAlign => "[ border-box? [ alphabetic | ideographic | hanging | leading ]? ]!"@,
            CssProperty::InitialLetterWrap => "none | first | all | grid | <length-percentage>"@,
            CssProperty::InlineSize => "<'width'>"@,
            CssProperty::InlineSizing => "normal | stretch"@,
            CssProperty::InputSecurity => "auto | none"@,
            CssProperty::Inset => "<'top'>{1,4}"@,
            CssProperty::InsetBlock => "<'top'>{1,2}"@,
            CssProperty::InsetBlockEnd => "auto | <length-percentage>"@,
            CssProperty::InsetBlockStart => "auto | <length-percentage>"@,
            CssProperty::InsetInline => "<'top'>{1,2}"@,
            CssProperty::InsetInlineEnd => "auto | <length-percentage>"@,
            CssProperty::InsetInlineStart => "auto | <length-percentage>"@,
            CssProperty::Interactivity => "auto | inert"@,
            CssProperty::InterestDelay => "<'interest-delay-start'>{1,2}"@,
            CssProperty::InterestDelayEnd => "normal | <time>"@,
            CssProperty::InterestDelayStart => "normal | <time>"@,
            CssProperty::InterpolateSize => "numeric-only | allow-keywords"@,
            CssProperty::Isolation => "<isolation-mode>"@,
            CssProperty::JustifyContent => "normal | <content-distribution> | <overflow-position>? [ <content-position> | left | right ]"@,
            CssProperty::JustifyItems => "normal | stretch | <baseline-position> | <overflow-position>? [ <self-position> | left | right ] | legacy | legacy && [ left | right | center ]"@,
            CssProperty::JustifySelf => "auto | <overflow-position>? [ normal | <self-position> | left | right ] | stretch | <baseline-position> | anchor-center"@,
            CssProperty::Left => "auto | <length-percentage> | <anchor()> | <anchor-size()>"@,
            CssProperty::LetterSpacing => "normal | <length-percentage>"@,
            CssProperty::LightingColor => "<color>"@,
            CssProperty::LineBreak => "auto | loose | normal | strict | anywhere"@,
            CssProperty::LineClamp => "none | [<integer [1,∞]> || <'block-ellipsis'>] -webkit-legacy?"@,
            CssProperty::LineFitEdge => "leading | <text-edge>"@,
            CssProperty::LineGrid => "match-parent | create"@,
            CssProperty::LineHeight => "normal | <number [0,∞]> | <length-percentage [0,∞]>"@,
            CssProperty::LineHeightStep => "<length [0,∞]>"@,
            CssProperty::LinePadding => "<length>"@,
            CssProperty::LineSnap => "none | baseline | contain"@,
            CssProperty::LinkParameters => "none | <param()>#"@,
            CssProperty::ListStyle => "<'list-style-position'> || <'list-style-image'> || <'list-style-type'>"@,
            CssProperty::ListStyleImage => "<image> | none"@,
            CssProperty::ListStylePosition => "inside | outside"@,
            CssProperty::ListStyleType => "<counter-style> | <string> | none"@,
            CssProperty::Margin => "<'margin-top'>{1,4}"@,
            CssProperty::MarginBlock => "<'margin-top'>{1,2}"@,
            CssProperty::MarginBlockEnd => "<'margin-top'>"@,
            CssProperty::MarginBlockStart => "<'margin-top'>"@,
            CssProperty::MarginBottom => "<length-percentage> | auto | <anchor-size()>"@,
            CssProperty::MarginBreak => "auto | keep | discard"@,
            CssProperty::MarginInline => "<'margin-top'>{1,2}"@,
            CssProperty::MarginInlineEnd => "<'margin-top'>"@,
            CssProperty::MarginInlineStart => "<'margin-top'>"@,
            CssProperty::MarginLeft => "<length-percentage> | auto | <anchor-size()>"@,
            CssProperty::MarginRight => "<length-percentage> | auto | <anchor-size()>"@,
            CssProperty::MarginTop => "<length-percentage> | auto | <anchor-size()>"@,
            CssProperty::MarginTrim => "none | [ block || inline ] | [ block-start || inline-start || block-end || inline-end ]"@,
            CssProperty::Marker => "none | <marker-ref>"@,
            CssProperty::MarkerEnd => "none | <marker-ref>"@,
            CssProperty::MarkerMid => "none | <marker-ref>"@,
            CssProperty::MarkerSide => "match-self | match-parent"@,
            CssProperty::MarkerStart => "none | <marker-ref>"@,
            CssProperty::Mask => "<mask-layer>#"@,
            CssProperty::MaskBorder => "<'mask-border-source'> || <'mask-border-slice'> [ / <'mask-border-width'>? [ / <'mask-border-outset'> ]? ]? || <'mask-border-repeat'> || <'mask-border-mode'>"@,
            CssProperty::MaskBorderMode => "luminance | alpha"@,
            CssProperty::MaskBorderOutset => "<'border-image-outset'>"@,
            CssProperty::MaskBorderRepeat => "<'border-image-repeat'>"@,
            CssProperty::MaskBorderSlice => "<'border-image-slice'>"@,
            CssProperty::MaskBorderSource => "<'border-image-source'>"@,
            CssProperty::MaskBorderWidth => "<'border-image-width'>"@,
            CssProperty::MaskClip => "[ <coord-box> | no-clip ]#"@,
            CssProperty::MaskComposite => "<compositing-operator>#"@,
            CssProperty::MaskImage => "<mask-reference>#"@,
            CssProperty::MaskMode => "<masking-mode>#"@,
            CssProperty::MaskOrigin => "<coord-box>#"@,
            CssProperty::MaskPosition => "<position>#"@,
            CssProperty::MaskRepeat => "<repeat-style>#"@,
            CssProperty::MaskSize => "<bg-size>#"@,
            CssProperty::MaskType => "luminance | alpha"@,
            CssProperty::MathDepth => "auto-add | add(<integer>) | <integer>"@,
            CssProperty::MathShift => "normal | compact"@,
            CssProperty::MathStyle => "normal | compact"@,
            CssProperty::MaxBlockSize => "<'max-width'>"@,
            CssProperty::MaxHeight => "none | <length-percentage [0,∞]> | min-content | max-content | fit-content(<length-percentage [0,∞]>) | <calc-size()> | <anchor-size()> | stretch | fit-content | contain"@,
            CssProperty::MaxInlineSize => "<'max-width'>"@,
            CssProperty::MaxLines => "none | <integer [1,∞]>"@,
            CssProperty::MaxWidth => "none | <length-percentage [0,∞]> | min-content | max-content | fit-content(<length-percentage [0,∞]>) | <calc-size()> | <anchor-size()> | stretch | fit-content | contain"@,
            CssProperty::MinBlockSize => "<'min-width'>"@,
            _ => self.spec_syntax_from_500(),
        }
    }

    /// `spec_syntax` for the values from the 500-th on.
    pub open spec fn spec_syntax_from_500(&self) -> Seq<char> {
        match self {
            CssProperty::MinHeight => "auto | <length-percentage [0,∞]> | min-content | max-content | fit-content(<length-percentage [0,∞]>) | <calc-size()> | <anchor-size()> | stretch | fit-content | contain"@,
            CssProperty::MinInlineSize => "<'min-width'>"@,
            CssProperty::MinIntrinsicSizing => "legacy | zero-if-scroll || zero-if-extrinsic"@,
            CssProperty::MinWidth => "auto | <length-percentage [0,∞]> | min-content | max-content | fit-content(<length-percentage [0,∞]>) | <calc-size()> | <anchor-size()> | stretch | fit-content | contain"@,
            CssProperty::MixBlendMode => "<blend-mode> | plus-lighter"@,
            CssProperty::NavDown => "auto | <id> [ current | root | <target-name> ]?"@,
            CssProperty::NavLeft => "auto | <id> [ current | root | <target-name> ]?"@,
            CssProperty::NavRight => "auto | <id> [ current | root | <target-name> ]?"@,
            CssProperty::NavUp => "auto | <id> [ current | root | <target-name> ]?"@,
            CssProperty::ObjectFit => "fill | none | [contain | cover] || scale-down"@,
            CssProperty::ObjectPosition => "<position>"@,
            CssProperty::ObjectViewBox => "none | <basic-shape-rect>"@,
            CssProperty::Offset => "[ <'offset-position'>? [ <'offset-path'> [ <'offset-distance'> || <'offset-rotate'> ]? ]? ]! [ / <'offset-anchor'> ]?"@,
            CssProperty::OffsetAnchor => "auto | <position>"@,
            CssProperty::OffsetDistance => "<length-percentage>"@,
            CssProperty::OffsetPath => "none | <offset-path> || <coord-box>"@,
            CssProperty::OffsetPosition => "normal | auto | <position>"@,
            CssProperty::OffsetRotate => "[ auto | reverse ] || <angle>"@,
            CssProperty::Opacity => "<opacity-value>"@,
            CssProperty::Order => "<integer>"@,
            CssProperty::Orphans => "<integer [1,∞]>"@,
            CssProperty::Outline => "<'outline-width'> || <'outline-style'> || <'outline-color'>"@,
            CssProperty::OutlineColor => "auto | <'border-top-color'>"@,
            CssProperty::OutlineOffset => "<length>"@,
            CssProperty::OutlineStyle => "auto | <outline-line-style>"@,
            CssProperty::OutlineWidth => "<line-width>"@,
            CssProperty::Overflow => "<'overflow-block'>{1,2}"@,
            CssProperty::OverflowAnchor => "auto | none"@,
            CssProperty::OverflowBlock => "visible | hidden | clip | scroll | auto"@,
            CssProperty::OverflowClipMargin => "<visual-box> || <length>"@,
            CssProperty::OverflowClipMarginBlock => "<visual-box> || <length>"@,
            CssProperty::OverflowClipMarginBlockEnd => "<visual-box> || <length>"@,
            CssProperty::OverflowClipMarginBlockStart => "<visual-box> || <length>"@,
            CssProperty::OverflowClipMarginBottom => "<visual-box> || <length>"@,
            CssProperty::OverflowClipMarginInline => "<visual-box> || <length>"@,
            CssProperty::OverflowClipMarginInlineEnd => "<visual-box> || <length>"@,
            CssProperty::OverflowClipMarginInlineStart => "<visual-box> || <length>"@,
            CssProperty::OverflowClipMarginLeft => "<visual-box> || <length>"@,
            CssProperty::OverflowClipMarginRight => "<visual-box> || <length>"@,
            CssProperty::OverflowClipMarginTop => "<visual-box> || <length>"@,
            CssProperty::OverflowInline => "visible | hidden | clip | scroll | auto"@,
            CssProperty::OverflowWrap => "normal | break-word | anywhere"@,
            CssProperty::OverflowX => "visible | hidden | clip | scroll | auto"@,
            CssProperty::OverflowY => "visible | hidden | clip | scroll | auto"@,
            CssProperty::Overlay => "none | auto"@,
            CssProperty::OverscrollBehavior => "[ contain | none | auto | chain ]{1,2}"@,
            CssProperty::OverscrollBehaviorBlock => "contain | none | auto | chain"@,
            CssProperty::OverscrollBehaviorInline => "contain | none | auto | chain"@,
            CssProperty::OverscrollBehaviorX => "contain | none | auto | chain"@,
            CssProperty::OverscrollBehaviorY => "contain | none | auto | chain"@,
            CssProperty::Padding => "<'padding-top'>{1,4}"@,
            CssProperty::PaddingBlock => "<'padding-top'>{1,2}"@,
            CssProperty::PaddingBlockEnd => "<'padding-top'>"@,
            CssProperty::PaddingBlockStart => "<'padding-top'>"@,
            CssProperty::PaddingBottom => "<length-percentage [0,∞]>"@,
            CssProperty::PaddingInline => "<'padding-top'>{1,2}"@,
            CssProperty::PaddingInlineEnd => "<'padding-top'>"@,
            CssProperty::PaddingInlineStart => "<'padding-top'>"@,
            CssProperty::PaddingLeft => "<length-percentage [0,∞]>"@,
            CssProperty::PaddingRight => "<length-percentage [0,∞]>"@,
            CssProperty::PaddingTop => "<length-percentage [0,∞]>"@,
            CssProperty::Page => "auto | <custom-ident>"@,
            CssProperty::PageBreakAfter => "auto | always | avoid | left | right | inherit"@,
            CssProperty::PageBreakBefore => "auto | always | avoid | left | right | inherit"@,
            CssProperty::PageBreakInside => "avoid | auto | inherit"@,
            CssProperty::PaintOrder => "normal | [ fill || stroke || markers ]"@,
            CssProperty::PathLength => "none | @@ unknown symbol \"number [0,∞]\""@,
            CssProperty::Pause => "<'pause-before'> <'pause-after'>?"@,
            CssProperty::PauseAfter => "<time [0s,∞]> | none | x-weak | weak | medium | strong | x-strong"@,
            CssProperty::PauseBefore => "<time [0s,∞]> | none | x-weak | weak | medium | strong | x-strong"@,
            CssProperty::Perspective => "none | <length [0,∞]>"@,
            CssProperty::PerspectiveOrigin => "<position>"@,
            CssProperty::PlaceContent => "<'align-content'> <'justify-content'>?"@,
            CssProperty::PlaceItems => "<'align-items'> <'justify-items'>?"@,
            CssProperty::PlaceSelf => "<'align-self'> <'justify-self'>?"@,
            CssProperty::PointerEvents => "auto | bounding-box | visiblePainted | visibleFill | visibleStroke | visible | painted | fill | stroke | all | none"@,
            CssProperty::PointerTimeline => "[ <'pointer-timeline-name'> <'pointer-timeline-axis'>? ]#"@,
            CssProperty::PointerTimelineAxis => "[ block | inline | x | y ]#"@,
            CssProperty::PointerTimelineName => "[ none | <dashed-ident> ]#"@,
            CssProperty::Position => "static | relative | absolute | sticky | fixed | <running()>"@,
            CssProperty::PositionAnchor => "normal | none | auto | <anchor-name> | match-parent"@,
            CssProperty::PositionArea => "none | <position-area>"@,
            CssProperty::PositionTry => "<'position-try-order'>? <'position-try-fallbacks'>"@,
            CssProperty::PositionTryFallbacks => "none | [ [<dashed-ident> || <try-tactic>] | <position-area> ]#"@,
            CssProperty::PositionTryOrder => "normal | <try-size>"@,
            CssProperty::PositionVisibility => "always | [ anchors-valid || anchors-visible || no-overflow ]"@,
            CssProperty::PrintColorAdjust => "economy | exact"@,
            CssProperty::Quotes => "auto | none | match-parent | [ <string> <string> ]+"@,
            CssProperty::R => "<length-percentage>"@,
            CssProperty::ReadingFlow => "normal | source-order | flex-visual | flex-flow | grid-rows | grid-columns | grid-order"@,
            CssProperty::ReadingOrder => "<integer>"@,
            CssProperty::RegionFragment => "auto | break"@,
            CssProperty::Resize => "none | both | horizontal | vertical | block | inline"@,
            CssProperty::Rest => "<'rest-before'> <'rest-after'>?"@,
            CssProperty::RestAfter => "<time [0s,∞]> | none | x-weak | weak | medium | strong | x-strong"@,
            CssProperty::RestBefore => "<time [0s,∞]> | none | x-weak | weak | medium | strong | x-strong"@,
            CssProperty::Right => "auto | <length-percentage> | <anchor()> | <anchor-size()>"@,
            CssProperty::Rotate => "none | <angle> | [ x | y | z | <number>{3} ] && <angle>"@,
            CssProperty::RowGap => "normal | <length-percentage [0,∞]> | <line-width>"@,
            CssProperty::RowRule => "<gap-rule-list> | <gap-auto-rule-list>"@,
            _ => self.spec_syntax_from_600(),
        }
    }

    /// `spec_syntax` for the values from the 600-th on.
    pub open spec fn spec_syntax_from_600(&self) -> Seq<char> {
        match self {
            CssProperty::RowRuleBreak => "none | normal | intersection"@,
            CssProperty::RowRuleColor => "<line-color-list> | <auto-line-color-list>"@,
            CssProperty::RowRuleInset => "<'column-rule-inset-cap'> [ / <'column-rule-inset-junction'> ]?"@,
            CssProperty::RowRuleInsetCap => "<length-percentage> [ <length-percentage> ]?"@,
            CssProperty::RowRuleInsetCapEnd => "<length-percentage>"@,
            CssProperty::RowRuleInsetCapStart => "<length-percentage>"@,
            CssProperty::RowRuleInsetEnd => "<length-percentage>"@,
            CssProperty::RowRuleInsetJunction => "<length-percentage> [ <length-percentage> ]?"@,
            CssProperty::RowRuleInsetJunctionEnd => "<length-percentage>"@,
            CssProperty::RowRuleInsetJunctionStart => "<length-percentage>"@,
            CssProperty::RowRuleInsetStart => "<length-percentage>"@,
            CssProperty::RowRuleStyle => "<line-style-list> | <auto-line-style-list>"@,
            CssProperty::RowRuleVisibilityItems => "all | around | between | normal"@,
            CssProperty::RowRuleWidth => "<line-width-list> | <auto-line-width-list>"@,
            CssProperty::RubyAlign => "start | center | space-between | space-around"@,
            CssProperty::RubyMerge => "separate | merge | auto"@,
            CssProperty::RubyOverhang => "auto | spaces"@,
            CssProperty::RubyPosition => "[ alternate || [ over | under ] ] | inter-character"@,
            CssProperty::Rule => "<'column-rule'>"@,
            CssProperty::RuleBreak => "<'column-rule-break'>"@,
            CssProperty::RuleColor => "<'column-rule-color'>"@,
            CssProperty::RuleInset => "<'column-rule-inset'>"@,
            CssProperty::RuleInsetCap => "<'column-rule-inset-cap'>"@,
            CssProperty::RuleInsetEnd => "<'column-rule-inset-end'>"@,
            CssProperty::RuleInsetJunction => "<'column-rule-inset-junction'>"@,
            CssProperty::RuleInsetStart => "<'column-rule-inset-start'>"@,
            CssProperty::RuleOverlap => "row-over-column | column-over-row"@,
            CssProperty::RuleStyle => "<'column-rule-style'>"@,
            CssProperty::RuleVisibilityItems => "<'column-rule-visibility-items'>"@,
            CssProperty::RuleWidth => "<'column-rule-width'>"@,
            CssProperty::Rx => "<length-percentage> | auto"@,
            CssProperty::Ry => "<length-percentage> | auto"@,
            CssProperty::Scale => "none | [ <number> | <percentage> ]{1,3}"@,
            CssProperty::ScrollBehavior => "auto | smooth"@,
            CssProperty::ScrollInitialTarget => "none | nearest"@,
            CssProperty::ScrollMargin => "<length>{1,4}"@,
            CssProperty::ScrollMarginBlock => "<length>{1,2}"@,
            CssProperty::ScrollMarginBlockEnd => "<length>"@,
            CssProperty::ScrollMarginBlockStart => "<length>"@,
            CssProperty::ScrollMarginBottom => "<length>"@,
            CssProperty::ScrollMarginInline => "<length>{1,2}"@,
            CssProperty::ScrollMarginInlineEnd => "<length>"@,
            CssProperty::ScrollMarginInlineStart => "<length>"@,
            CssProperty::ScrollMarginLeft => "<length>"@,
            CssProperty::ScrollMarginRight => "<length>"@,
            CssProperty::ScrollMarginTop => "<length>"@,
            CssProperty::ScrollMarkerGroup => "none | [ [ before | after ] || [ links | tabs ] ]"@,
            CssProperty::ScrollPadding => "[ auto | <length-percentage [0,∞]> ]{1,4}"@,
            CssProperty::ScrollPaddingBlock => "[ auto | <length-percentage [0,∞]> ]{1,2}"@,
            CssProperty::ScrollPaddingBlockEnd => "auto | <length-percentage [0,∞]>"@,
            CssProperty::ScrollPaddingBlockStart => "auto | <length-percentage [0,∞]>"@,
            CssProperty::ScrollPaddingBottom => "auto | <length-percentage [0,∞]>"@,
            CssProperty::ScrollPaddingInline => "[ auto | <length-percentage [0,∞]> ]{1,2}"@,
            CssProperty::ScrollPaddingInlineEnd => "auto | <length-percentage [0,∞]>"@,
            CssProperty::ScrollPaddingInlineStart => "auto | <length-percentage [0,∞]>"@,
            CssProperty::ScrollPaddingLeft => "auto | <length-percentage [0,∞]>"@,
            CssProperty::ScrollPaddingRight => "auto | <length-percentage [0,∞]>"@,
            CssProperty::ScrollPaddingTop => "auto | <length-percentage [0,∞]>"@,
            CssProperty::ScrollSnapAlign => "[ none | start | end | center ]{1,2}"@,
            CssProperty::ScrollSnapStop => "normal | always"@,
            CssProperty::ScrollSnapType => "none | [ x | y | block | inline | both ] [ mandatory | proximity ]?"@,
            CssProperty::ScrollTargetGroup => "none | auto"@,
            CssProperty::ScrollTimeline => "[ <'scroll-timeline-name'> <'scroll-timeline-axis'>? ]#"@,
            CssProperty::ScrollTimelineAxis => "[ block | inline | x | y ]#"@,
            CssProperty::ScrollTimelineName => "[ none | <dashed-ident> ]#"@,
            CssProperty::ScrollbarColor => "auto | <color>{2}"@,
            CssProperty::ScrollbarGutter => "auto | stable && both-edges?"@,
            CssProperty::ScrollbarInset => "<length>{1,4}"@,
            CssProperty::ScrollbarMinThumbSize => "<length>"@,
            CssProperty::ScrollbarMode => "auto | classic | overlay | none"@,
            CssProperty::ScrollbarWidth => "auto | thin | none"@,
            CssProperty::ShapeImageThreshold => "<opacity-value>"@,
            CssProperty::ShapeInside => "auto | outside-shape | [ <basic-shape> || shape-box ] | <image> | display"@,
            CssProperty::ShapeMargin => "<length-percentage [0,∞]>"@,
            CssProperty::ShapeOutside => "none | [ <basic-shape> || <shape-box> ] | <image>"@,
            CssProperty::ShapePadding => "<length-percentage [0,∞]>"@,
            CssProperty::ShapeRendering => "auto | optimizeSpeed | crispEdges | geometricPrecision"@,
            CssProperty::SliderOrientation => "auto | left-to-right | right-to-left | top-to-bottom | bottom-to-top"@,
            CssProperty::SpatialNavigationAction => "auto | focus | scroll"@,
            CssProperty::SpatialNavigationContain => "auto | contain"@,
            CssProperty::SpatialNavigationFunction => "normal | grid"@,
            CssProperty::Speak => "auto | never | always"@,
            CssProperty::SpeakAs => "normal | spell-out || digits || [ literal-punctuation | no-punctuation ]"@,
            CssProperty::StopColor => "<'color'>"@,
            CssProperty::StopOpacity => "<'opacity'>"@,
            CssProperty::StringSet => "none | [ <custom-ident> <string>+ ]#"@,
            CssProperty::Stroke => "<paint>"@,
            CssProperty::StrokeAlign => "center | inset | outset"@,
            CssProperty::StrokeAlignment => "center | inner | outer"@,
            CssProperty::StrokeBreak => "bounding-box | slice | clone"@,
            CssProperty::StrokeColor => "<color>#"@,
            CssProperty::StrokeDashCornerPropdefStrokeDashCorner => "none | <length>"@,
            CssProperty::StrokeDashJustify => "none | [ stretch | compress ] || [ dashes || gaps ]"@,
            CssProperty::StrokeDashadjust => "none | [stretch | compress] [dashes | gaps]?"@,
            CssProperty::StrokeDasharray => "none | [<length-percentage> | <number>]+#"@,
            CssProperty::StrokeDashcornerStrokedashcornerproperty => "none | <length>"@,
            CssProperty::StrokeDashoffset => "<length-percentage> | <number>"@,
            CssProperty::StrokeImage => "<paint>#"@,
            CssProperty::StrokeLinecap => "butt | round | square"@,
            CssProperty::StrokeLinejoin => "[ crop | arcs | miter ] || [ bevel | round | fallback ]"@,
            _ => self.spec_syntax_from_700(),
        }
    }

    /// `spec_syntax` for the values from the 700-th on.
    pub open spec fn spec_syntax_from_700(&self) -> Seq<char> {
        match self {
            CssProperty::StrokeMiterlimit => "<number>"@,
            CssProperty::StrokeOpacity => "<'opacity'>"@,
            CssProperty::StrokeOrigin => "match-parent | fill-box | stroke-box | content-box | padding-box | border-box"@,
            CssProperty::StrokePosition => "<position>#"@,
            CssProperty::StrokeRepeat => "<repeat-style>#"@,
            CssProperty::StrokeSize => "<bg-size>#"@,
            CssProperty::StrokeWidth => "[ <length-percentage> | <line-width> | <number> ]#"@,
            CssProperty::TabSize => "<number [0,∞]> | <length [0,∞]>"@,
            CssProperty::TableLayout => "auto | fixed"@,
            CssProperty::TextAlign => "start | end | left | right | center | <string> | justify | match-parent | justify-all"@,
            CssProperty::TextAlignAll => "start | end | left | right | center | <string> | justify | match-parent"@,
            CssProperty::TextAlignLast => "auto | start | end | left | right | center | justify | match-parent"@,
            CssProperty::TextAnchor => "start | middle | end"@,
            CssProperty::TextAutospace => "normal | <autospace> | auto"@,
            CssProperty::TextBox => "normal | <'text-box-trim'> || <'text-box-edge'>"@,
            CssProperty::TextBoxEdge => "auto | <text-edge>"@,
            CssProperty::TextBoxTrim => "none | trim-start | trim-end | trim-both"@,
            CssProperty::TextCombineUpright => "none | all | [ digits <integer [2,4]>? ]"@,
            CssProperty::TextDecoration => "<'text-decoration-line'> || <'text-decoration-thickness'> || <'text-decoration-style'> || <'text-decoration-color'>"@,
            CssProperty::TextDecorationColor => "<color>"@,
            CssProperty::TextDecorationInset => "<length>{1,2} | auto"@,
            CssProperty::TextDecorationLine => "none | [ underline || overline || line-through || blink ] | spelling-error | grammar-error"@,
            CssProperty::TextDecorationSkip => "none | auto"@,
            CssProperty::TextDecorationSkipBox => "none | all"@,
            CssProperty::TextDecorationSkipInk => "auto | none | all"@,
            CssProperty::TextDecorationSkipSelf => "auto | skip-all | [ skip-underline || skip-overline || skip-line-through ] | no-skip"@,
            CssProperty::TextDecorationSkipSpaces => "none | all | [ start || end ]"@,
            CssProperty::TextDecorationStyle => "solid | double | dotted | dashed | wavy"@,
            CssProperty::TextDecorationThickness => "auto | from-font | <length-percentage> | <line-width>"@,
            CssProperty::TextEmphasis => "<'text-emphasis-style'> || <'text-emphasis-color'>"@,
            CssProperty::TextEmphasisColor => "<color>"@,
            CssProperty::TextEmphasisPosition => "[ over | under ] && [ right | left ]?"@,
            CssProperty::TextEmphasisSkip => "spaces || punctuation || symbols || narrow"@,
            CssProperty::TextEmphasisStyle => "none | [ [ filled | open ] || [ dot | circle | double-circle | triangle | sesame ] ] | <string>"@,
            CssProperty::TextFit => "[ none | grow | shrink ] [consistent | per-line | per-line-all]? <percentage>?"@,
            CssProperty::TextGroupAlign => "none | start | end | left | right | center"@,
            CssProperty::TextIndent => "[ <length-percentage> ] && hanging? && each-line?"@,
            CssProperty::TextJustify => "[ auto | none | inter-word | inter-character | ruby ] || no-compress"@,
            CssProperty::TextOrientation => "mixed | upright | sideways"@,
            CssProperty::TextOverflow => "[ clip | ellipsis | <string> | fade | <fade()> ]{1,2}"@,
            CssProperty::TextRendering => "auto | optimizeSpeed | optimizeLegibility | geometricPrecision"@,
            CssProperty::TextShadow => "none | <shadow>#"@,
            CssProperty::TextSizeAdjust => "auto | none | <percentage [0,∞]>"@,
            CssProperty::TextSpacing => "none | auto | <spacing-trim> || <autospace>"@,
            CssProperty::TextSpacingTrim => "<spacing-trim> | auto"@,
            CssProperty::TextTransform => "none | [capitalize | uppercase | lowercase ] || full-width || full-size-kana | math-auto"@,
            CssProperty::TextUnderlineOffset => "auto | <length-percentage>"@,
            CssProperty::TextUnderlinePosition => "auto | [ from-font | under ] || [ left | right ]"@,
            CssProperty::TextWrap => "<'text-wrap-mode'> || <'text-wrap-style'>"@,
            CssProperty::TextWrapMode => "wrap | nowrap"@,
            CssProperty::TextWrapStyle => "auto | balance | stable | pretty | avoid-orphans"@,
            CssProperty::TimelineScope => "none | all | <dashed-ident>#"@,
            CssProperty::TimelineTrigger => "none | [ <'timeline-trigger-name'> <'timeline-trigger-source'> <'timeline-trigger-activation-range'> [ '/' <'timeline-trigger-active-range'> ]? ]#"@,
            CssProperty::TimelineTriggerActivationRange => "[ <'timeline-trigger-activation-range-start'> <'timeline-trigger-activation-range-end'>? ]#"@,
            CssProperty::TimelineTriggerActivationRangeEnd => "[ normal | <length-percentage> | <timeline-range-name> <length-percentage>? ]#"@,
            CssProperty::TimelineTriggerActivationRangeStart => "[ normal | <length-percentage> | <timeline-range-name> <length-percentage>? ]#"@,
            CssProperty::TimelineTriggerActiveRange => "[ <'timeline-trigger-active-range-start'> <'timeline-trigger-active-range-end'>? ]#"@,
            CssProperty::TimelineTriggerActiveRangeEnd => "[ auto | normal | <length-percentage> | <timeline-range-name> <length-percentage>? ]#"@,
            CssProperty::TimelineTriggerActiveRangeStart => "[ auto | normal | <length-percentage> | <timeline-range-name> <length-percentage>? ]#"@,
            CssProperty::TimelineTriggerName => "none | <dashed-ident>#"@,
            CssProperty::TimelineTriggerSource => "<single-animation-timeline>#"@,
            CssProperty::Top => "auto | <length-percentage> | <anchor()> | <anchor-size()>"@,
            CssProperty::TouchAction => "auto | none | [ [ pan-x | pan-left | pan-right ] || [ pan-y | pan-up | pan-down ] || pinch-zoom ] | manipulation"@,
            CssProperty::Transform => "none | <transform-list>"@,
            CssProperty::TransformBox => "content-box | border-box | fill-box | stroke-box | view-box"@,
            CssProperty::TransformOrigin => "[ left | center | right | top | bottom | <length-percentage> ] | [ left | center | right | <length-percentage> ] [ top | center | bottom | <length-percentage> ] <length>? | [ [ center | left | right ] && [ center | top | bottom ] ] <length>?"@,
            CssProperty::TransformStyle => "flat | preserve-3d"@,
            CssProperty::Transition => "<single-transition>#"@,
            CssProperty::TransitionBehavior => "<transition-behavior-value>#"@,
            CssProperty::TransitionDelay => "<time>#"@,
            CssProperty::TransitionDuration => "<time [0s,∞]>#"@,
            CssProperty::TransitionProperty => "none | <single-transition-property>#"@,
            CssProperty::TransitionTimingFunction => "<easing-function>#"@,
            CssProperty::Translate => "none | <length-percentage> [ <length-percentage> <length>? ]?"@,
            CssProperty::TriggerScope => "none | all | <dashed-ident>#"@,
            CssProperty::UnicodeBidi => "normal | embed | isolate | bidi-override | isolate-override | plaintext"@,
            CssProperty::UserSelect => "auto | text | none | contain | all"@,
            CssProperty::VectorEffect => "none | non-scaling-stroke | non-scaling-size | non-rotation | fixed-position"@,
            CssProperty::VerticalAlign => "[ first | last] || <'alignment-baseline'> || <'baseline-shift'>"@,
            CssProperty::ViewTimeline => "[ <'view-timeline-name'> [ <'view-timeline-axis'> || <'view-timeline-inset'> ]? ]#"@,
            CssProperty::ViewTimelineAxis => "[ block | inline | x | y ]#"@,
            CssProperty::ViewTimelineInset => "[ [ auto | <length-percentage> ]{1,2} ]#"@,
            CssProperty::ViewTimelineName => "[ none | <dashed-ident> ]#"@,
            CssProperty::ViewTransitionClass => "none | <custom-ident>+"@,
            CssProperty::ViewTransitionGroup => "normal | contain | nearest | <custom-ident>"@,
            CssProperty::ViewTransitionName => "none | <custom-ident>"@,
            CssProperty::ViewTransitionScope => "none | all"@,
            CssProperty::Visibility => "visible | hidden | force-hidden | collapse"@,
            CssProperty::VoiceBalance => "<number> | left | center | right | leftwards | rightwards"@,
            CssProperty::VoiceDuration => "auto | <time [0s,∞]>"@,
            CssProperty::VoiceFamily => "[ <voice-family-name> | <generic-voice> ]# | preserve"@,
            CssProperty::VoicePitch => "<frequency [0Hz,∞]> && absolute | [ [ x-low | low | medium | high | x-high ] || [ <frequency [0Hz,∞]> | <semitones> | <percentage> ] ]"@,
            CssProperty::VoiceRange => "<frequency [0Hz,∞]> && absolute | [ [ x-low | low | medium | high | x-high ] || [ <frequency [0Hz,∞]> | <semitones> | <percentage> ] ]"@,
            CssProperty::VoiceRate => "[ normal | x-slow | slow | medium | fast | x-fast ] || <percentage [0,∞]>"@,
            CssProperty::VoiceStress => "normal | strong | moderate | none | reduced"@,
            CssProperty::VoiceVolume => "silent | [ [ x-soft | soft | medium | loud | x-loud ] || <decibel> ]"@,
            CssProperty::WhiteSpace => "normal | pre | pre-wrap | pre-line | <'white-space-collapse'> || <'text-wrap-mode'> || <'white-space-trim'>"@,
            CssProperty::WhiteSpaceCollapse => "collapse | discard | preserve | preserve-breaks | preserve-spaces | break-spaces"@,
            CssProperty::WhiteSpaceTrim => "none | discard-before || discard-after || discard-inner"@,
            CssProperty::Widows => "<integer [1,∞]>"@,
            _ => self.spec_syntax_from_800(),
        }
    }

    /// `spec_syntax` for the values from the 800-th on.
    pub open spec fn spec_syntax_from_800(&self) -> Seq<char> {
        match self {
            CssProperty::Width => "auto | <length-percentage [0,∞]> | min-content | max-content | fit-content(<length-percentage [0,∞]>) | <calc-size()> | <anchor-size()> | stretch | fit-content | contain"@,
            CssProperty::WillChange => "auto | <animateable-feature>#"@,
            CssProperty::WordBreak => "normal | break-all | keep-all | manual | auto-phrase | break-word"@,
            CssProperty::WordSpaceTransform => "none | [ space | ideographic-space ] && auto-phrase?"@,
            CssProperty::WordSpacing => "normal | <length-percentage>"@,
            CssProperty::WordWrap => "normal | break-word | anywhere"@,
            CssProperty::WrapAfter => "auto | avoid | avoid-line | avoid-flex | line | flex"@,
            CssProperty::WrapBefore => "auto | avoid | avoid-line | avoid-flex | line | flex"@,
            CssProperty::WrapFlow => "auto | both | start | end | minimum | maximum | clear"@,
            CssProperty::WrapInside => "auto | avoid"@,
            CssProperty::WrapThrough => "wrap | none"@,
            CssProperty::WritingMode => "horizontal-tb | vertical-rl | vertical-lr | sideways-rl | sideways-lr"@,
            CssProperty::X => "<length-percentage>"@,
            CssProperty::Y => "<length-percentage>"@,
            CssProperty::ZIndex => "auto | <integer> | inherit"@,
            CssProperty::Zoom => "<number [0,∞]> | <percentage [0,∞]>"@,
            CssProperty::Unknown(_) => Seq::empty(),
            _ => Seq::empty(),
        }
    }

    /// The initial value of the property as its definition writes it; empty when it has none.
    pub open spec fn spec_initial(&self) -> Seq<char> {
        match self {
            CssProperty::WebkitAlignContent => ""@,
            CssProperty::WebkitAlignItems => ""@,
            CssProperty::WebkitAlignSelf => ""@,
            CssProperty::WebkitAnimation => ""@,
            CssProperty::WebkitAnimationDelay => ""@,
            CssProperty::WebkitAnimationDirection => ""@,
            CssProperty::WebkitAnimationDuration => ""@,
            CssProperty::WebkitAnimationFillMode => ""@,
            CssProperty::WebkitAnimationIterationCount => ""@,
            CssProperty::WebkitAnimationName => ""@,
            CssProperty::WebkitAnimationPlayState => ""@,
            CssProperty::WebkitAnimationTimingFunction => ""@,
            CssProperty::WebkitAppearance => ""@,
            CssProperty::WebkitBackfaceVisibility => ""@,
            CssProperty::WebkitBackgroundClip => ""@,
            CssProperty::WebkitBackgroundOrigin => ""@,
            CssProperty::WebkitBackgroundSize => ""@,
            CssProperty::WebkitBorderBottomLeftRadius => ""@,
            CssProperty::WebkitBorderBottomRightRadius => ""@,
            CssProperty::WebkitBorderRadius => ""@,
            CssProperty::WebkitBorderTopLeftRadius => ""@,
            CssProperty::WebkitBorderTopRightRadius => ""@,
            CssProperty::WebkitBoxAlign => ""@,
            CssProperty::WebkitBoxFlex => ""@,
            CssProperty::WebkitBoxOrdinalGroup => ""@,
            CssProperty::WebkitBoxOrient => ""@,
            CssProperty::WebkitBoxPack => ""@,
            CssProperty::WebkitBoxShadow => ""@,
            CssProperty::WebkitBoxSizing => ""@,
            CssProperty::WebkitFilter => ""@,
            CssProperty::WebkitFlex => ""@,
            CssProperty::WebkitFlexBasis => ""@,
            CssProperty::WebkitFlexDirection => ""@,
            CssProperty::WebkitFlexFlow => ""@,
            CssProperty::WebkitFlexGrow => ""@,
            CssProperty::WebkitFlexShrink => ""@,
            CssProperty::WebkitFlexWrap => ""@,
            CssProperty::WebkitJustifyContent => ""@,
            CssProperty::WebkitLineClamp => "none"@,
            CssProperty::WebkitMask => ""@,
            CssProperty::WebkitMaskBoxImage => ""@,
            CssProperty::WebkitMaskBoxImageOutset => ""@,
            CssProperty::WebkitMaskBoxImageRepeat => ""@,
            CssProperty::WebkitMaskBoxImageSlice => ""@,
            CssProperty::WebkitMaskBoxImageSource => ""@,
            CssProperty::WebkitMaskBoxImageWidth => ""@,
            CssProperty::WebkitMaskClip => ""@,
            CssProperty::WebkitMaskComposite => ""@,
            CssProperty::WebkitMaskImage => ""@,
            CssProperty::WebkitMaskOrigin => ""@,
            CssProperty::WebkitMaskPosition => ""@,
            CssProperty::WebkitMaskRepeat => ""@,
            CssProperty::WebkitMaskSize => ""@,
            CssProperty::WebkitOrder => ""@,
            CssProperty::WebkitPerspective => ""@,
            CssProperty::WebkitPerspectiveOrigin => ""@,
            CssProperty::WebkitTextFillColor => "currentcolor"@,
            CssProperty::WebkitTextSizeAdjust => ""@,
            CssProperty::WebkitTextStroke => "See individual properties"@,
            CssProperty::WebkitTextStrokeColor => "currentcolor"@,
            CssProperty::WebkitTextStrokeWidth => "0"@,
            CssProperty::WebkitTransform => ""@,
            CssProperty::WebkitTransformOrigin => ""@,
            CssProperty::WebkitTransformStyle => ""@,
            CssProperty::WebkitTransition => ""@,
            CssProperty::WebkitTransitionDelay => ""@,
            CssProperty::WebkitTransitionDuration => ""@,
            CssProperty::WebkitTransitionProperty => ""@,
            CssProperty::WebkitTransitionTimingFunction => ""@,
            CssProperty::WebkitUserSelect => ""@,
            CssProperty::AccentColor => "auto"@,
            CssProperty::AlignContent => "normal"@,
            CssProperty::AlignItems => "normal"@,
            CssProperty::AlignSelf => "auto"@,
            CssProperty::AlignmentBaseline => "baseline"@,
            CssProperty::All => "see individual properties"@,
            CssProperty::AnchorName => "none"@,
            CssProperty::AnchorScope => "none"@,
            CssProperty::Animation => "see individual properties"@,
            CssProperty::AnimationComposition => "replace"@,
            CssProperty::AnimationDelay => "0s"@,
            CssProperty::AnimationDirection => "normal"@,
            CssProperty::AnimationDuration => "auto"@,
            CssProperty::AnimationFillMode => "none"@,
            CssProperty::AnimationIterationCount => "1"@,
            CssProperty::AnimationName => "none"@,
            CssProperty::AnimationPlayState => "running"@,
            CssProperty::AnimationRange => "see individual properties"@,
            CssProperty::AnimationRangeCenter => "normal"@,
            CssProperty::AnimationRangeEnd => "normal"@,
            CssProperty::AnimationRangeStart => "normal"@,
            CssProperty::AnimationTimeline => "auto"@,
            CssProperty::AnimationTimingFunction => "ease"@,
            CssProperty::AnimationTrigger => "none"@,
            CssProperty::Appearance => "none"@,
            CssProperty::AspectRatio => "auto"@,
            CssProperty::BackdropFilter => "none"@,
            CssProperty::BackfaceVisibility => "visible"@,
            CssProperty::Background => "see individual properties"@,
            CssProperty::BackgroundAttachment => "scroll"@,
            _ => self.spec_initial_from_100(),
        }
    }

    /// `spec_initial` for the values from the 100-th on.
    pub open spec fn spec_initial_from_100(&self) -> Seq<char> {
        match self {
            CssProperty::BackgroundBlendMode => "normal"@,
            CssProperty::BackgroundClip => "border-box"@,
            CssProperty::BackgroundColor => "transparent"@,
            CssProperty::BackgroundImage => "none"@,
            CssProperty::BackgroundOrigin => "padding-box"@,
            CssProperty::BackgroundPosition => "0% 0%"@,
            CssProperty::BackgroundPositionBlock => "0%"@,
            CssProperty::BackgroundPositionInline => "0%"@,
            CssProperty::BackgroundPositionX => "0%"@,
            CssProperty::BackgroundPositionY => "0%"@,
            CssProperty::BackgroundRepeat => "repeat"@,
            CssProperty::BackgroundRepeatBlock => "repeat"@,
            CssProperty::BackgroundRepeatInline => "repeat"@,
            CssProperty::BackgroundRepeatX => "repeat"@,
            CssProperty::BackgroundRepeatY => "repeat"@,
            CssProperty::BackgroundSize => "auto"@,
            CssProperty::BackgroundTbd => "see individual properties"@,
            CssProperty::BaselineShift => "0"@,
            CssProperty::BaselineSource => "auto"@,
            CssProperty::BlockEllipsis => "no-ellipsis"@,
            CssProperty::BlockSize => "auto"@,
            CssProperty::BlockStep => "see individual properties"@,
            CssProperty::BlockStepAlign => "auto"@,
            CssProperty::BlockStepInsert => "margin-box"@,
            CssProperty::BlockStepRound => "up"@,
            CssProperty::BlockStepSize => "none"@,
            CssProperty::BookmarkLabel => "content(text)"@,
            CssProperty::BookmarkLevel => "none"@,
            CssProperty::BookmarkState => "open"@,
            CssProperty::Border => "see individual properties"@,
            CssProperty::BorderBlock => "see individual properties"@,
            CssProperty::BorderBlockClip => "see individual properties"@,
            CssProperty::BorderBlockColor => "see individual properties"@,
            CssProperty::BorderBlockEnd => "See individual properties"@,
            CssProperty::BorderBlockEndClip => "none"@,
            CssProperty::BorderBlockEndColor => "currentcolor"@,
            CssProperty::BorderBlockEndRadius => "0"@,
            CssProperty::BorderBlockEndStyle => "none"@,
            CssProperty::BorderBlockEndWidth => "medium"@,
            CssProperty::BorderBlockStart => "See individual properties"@,
            CssProperty::BorderBlockStartClip => "none"@,
            CssProperty::BorderBlockStartColor => "currentcolor"@,
            CssProperty::BorderBlockStartRadius => "0"@,
            CssProperty::BorderBlockStartStyle => "none"@,
            CssProperty::BorderBlockStartWidth => "medium"@,
            CssProperty::BorderBlockStyle => "see individual properties"@,
            CssProperty::BorderBlockWidth => "see individual properties"@,
            CssProperty::BorderBottom => "See individual properties"@,
            CssProperty::BorderBottomClip => "none"@,
            CssProperty::BorderBottomColor => "currentcolor"@,
            CssProperty::BorderBottomLeftRadius => "0"@,
            CssProperty::BorderBottomRadius => "0"@,
            CssProperty::BorderBottomRightRadius => "0"@,
            CssProperty::BorderBottomStyle => "none"@,
            CssProperty::BorderBottomWidth => "medium"@,
            CssProperty::BorderBoundary => "none"@,
            CssProperty::BorderClip => "see individual properties"@,
            CssProperty::BorderCollapse => "separate"@,
            CssProperty::BorderColor => "see individual properties"@,
            CssProperty::BorderEndEndRadius => "0"@,
            CssProperty::BorderEndStartRadius => "0"@,
            CssProperty::BorderImage => "See individual properties"@,
            CssProperty::BorderImageOutset => "0"@,
            CssProperty::BorderImageRepeat => "stretch"@,
            CssProperty::BorderImageSlice => "100%"@,
            CssProperty::BorderImageSource => "none"@,
            CssProperty::BorderImageWidth => "1"@,
            CssProperty::BorderInline => "see individual properties"@,
            CssProperty::BorderInlineClip => "see individual properties"@,
            CssProperty::BorderInlineColor => "see individual properties"@,
            CssProperty::BorderInlineEnd => "See individual properties"@,
            CssProperty::BorderInlineEndClip => "none"@,
            CssProperty::BorderInlineEndColor => "currentcolor"@,
            CssProperty::BorderInlineEndRadius => "0"@,
            CssProperty::BorderInlineEndStyle => "none"@,
            CssProperty::BorderInlineEndWidth => "medium"@,
            CssProperty::BorderInlineStart => "See individual properties"@,
            CssProperty::BorderInlineStartClip => "none"@,
            CssProperty::BorderInlineStartColor => "currentcolor"@,
            CssProperty::BorderInlineStartRadius => "0"@,
            CssProperty::BorderInlineStartStyle => "none"@,
            CssProperty::BorderInlineStartWidth => "medium"@,
            CssProperty::BorderInlineStyle => "see individual properties"@,
            CssProperty::BorderInlineWidth => "see individual properties"@,
            CssProperty::BorderLeft => "See individual properties"@,
            CssProperty::BorderLeftClip => "none"@,
            CssProperty::BorderLeftColor => "currentcolor"@,
            CssProperty::BorderLeftRadius => "0"@,
            CssProperty::BorderLeftStyle => "none"@,
            CssProperty::BorderLeftWidth => "medium"@,
            CssProperty::BorderLimit => "all"@,
            CssProperty::BorderRadius => "see individual properties"@,
            CssProperty::BorderRight => "See individual properties"@,
            CssProperty::BorderRightClip => "none"@,
            CssProperty::BorderRightColor => "currentcolor"@,
            CssProperty::BorderRightRadius => "0"@,
            CssProperty::BorderRightStyle => "none"@,
            CssProperty::BorderRightWidth => "medium"@,
            CssProperty::BorderShape => "none"@,
            CssProperty::BorderSpacing => "0px 0px"@,
            _ => self.spec_initial_from_200(),
        }
    }

    /// `spec_initial` for the values from the 200-th on.
    pub open spec fn spec_initial_from_200(&self) -> Seq<char> {
        match self {
            CssProperty::BorderStartEndRadius => "0"@,
            CssProperty::BorderStartStartRadius => "0"@,
            CssProperty::BorderStyle => "see individual properties"@,
            CssProperty::BorderTop => "See individual properties"@,
            CssProperty::BorderTopClip => "none"@,
            CssProperty::BorderTopColor => "currentcolor"@,
            CssProperty::BorderTopLeftRadius => "0"@,
            CssProperty::BorderTopRadius => "0"@,
            CssProperty::BorderTopRightRadius => "0"@,
            CssProperty::BorderTopStyle => "none"@,
            CssProperty::BorderTopWidth => "medium"@,
            CssProperty::BorderWidth => "see individual properties"@,
            CssProperty::Bottom => "auto"@,
            CssProperty::BoxDecorationBreak => "slice"@,
            CssProperty::BoxShadow => "none"@,
            CssProperty::BoxShadowBlur => "0"@,
            CssProperty::BoxShadowColor => "currentcolor"@,
            CssProperty::BoxShadowOffset => "none"@,
            CssProperty::BoxShadowPosition => "outset"@,
            CssProperty::BoxShadowSpread => "0"@,
            CssProperty::BoxSizing => "content-box"@,
            CssProperty::BoxSnap => "none"@,
            CssProperty::BreakAfter => "auto"@,
            CssProperty::BreakBefore => "auto"@,
            CssProperty::BreakInside => "auto"@,
            CssProperty::CaptionSide => "top"@,
            CssProperty::Caret => "auto"@,
            CssProperty::CaretAnimation => "auto"@,
            CssProperty::CaretColor => "auto"@,
            CssProperty::CaretShape => "auto"@,
            CssProperty::Clear => "none"@,
            CssProperty::Clip => "auto"@,
            CssProperty::ClipPath => "none"@,
            CssProperty::ClipRule => "nonzero"@,
            CssProperty::Color => "CanvasText"@,
            CssProperty::ColorAdjust => "see individual properties"@,
            CssProperty::ColorInterpolation => "sRGB"@,
            CssProperty::ColorInterpolationFilters => "linearRGB"@,
            CssProperty::ColorScheme => "normal"@,
            CssProperty::ColumnCount => "auto"@,
            CssProperty::ColumnFill => "balance"@,
            CssProperty::ColumnGap => "normal"@,
            CssProperty::ColumnHeight => "auto"@,
            CssProperty::ColumnRule => "see individual properties"@,
            CssProperty::ColumnRuleBreak => "normal"@,
            CssProperty::ColumnRuleColor => "currentcolor"@,
            CssProperty::ColumnRuleInset => "see individual properties"@,
            CssProperty::ColumnRuleInsetCap => "see individual properties"@,
            CssProperty::ColumnRuleInsetCapEnd => "0"@,
            CssProperty::ColumnRuleInsetCapStart => "0"@,
            CssProperty::ColumnRuleInsetEnd => "see individual properties"@,
            CssProperty::ColumnRuleInsetJunction => "see individual properties"@,
            CssProperty::ColumnRuleInsetJunctionEnd => "0"@,
            CssProperty::ColumnRuleInsetJunctionStart => "0"@,
            CssProperty::ColumnRuleInsetStart => "see individual properties"@,
            CssProperty::ColumnRuleStyle => "none"@,
            CssProperty::ColumnRuleVisibilityItems => "normal"@,
            CssProperty::ColumnRuleWidth => "medium"@,
            CssProperty::ColumnSpan => "none"@,
            CssProperty::ColumnWidth => "auto"@,
            CssProperty::ColumnWrap => "auto"@,
            CssProperty::Columns => "see individual properties"@,
            CssProperty::Contain => "none"@,
            CssProperty::ContainIntrinsicBlockSize => "none"@,
            CssProperty::ContainIntrinsicHeight => "none"@,
            CssProperty::ContainIntrinsicInlineSize => "none"@,
            CssProperty::ContainIntrinsicSize => "see individual properties"@,
            CssProperty::ContainIntrinsicWidth => "none"@,
            CssProperty::Container => "see individual properties"@,
            CssProperty::ContainerName => "none"@,
            CssProperty::ContainerType => "normal"@,
            CssProperty::Content => "normal"@,
            CssProperty::ContentVisibility => "visible"@,
            CssProperty::Continue => "auto"@,
            CssProperty::CopyInto => "none"@,
            CssProperty::Corner => "0"@,
            CssProperty::CornerBlockEnd => "0"@,
            CssProperty::CornerBlockEndShape => "see individual properties"@,
            CssProperty::CornerBlockStart => "0"@,
            CssProperty::CornerBlockStartShape => "see individual properties"@,
            CssProperty::CornerBottom => "0"@,
            CssProperty::CornerBottomLeft => "0"@,
            CssProperty::CornerBottomLeftShape => "round"@,
            CssProperty::CornerBottomRight => "0"@,
            CssProperty::CornerBottomRightShape => "round"@,
            CssProperty::CornerBottomShape => "see individual properties"@,
            CssProperty::CornerEndEnd => "0"@,
            CssProperty::CornerEndEndShape => "round"@,
            CssProperty::CornerEndStart => "0"@,
            CssProperty::CornerEndStartShape => "round"@,
            CssProperty::CornerInlineEnd => "0"@,
            CssProperty::CornerInlineEndShape => "see individual properties"@,
            CssProperty::CornerInlineStart => "0"@,
            CssProperty::CornerInlineStartShape => "see individual properties"@,
            CssProperty::CornerLeft => "0"@,
            CssProperty::CornerLeftShape => "see individual properties"@,
            CssProperty::CornerRight => "0"@,
            CssProperty::CornerRightShape => "see individual properties"@,
            CssProperty::CornerShape => "round"@,
            CssProperty::CornerStartEnd => "0"@,
            _ => self.spec_initial_from_300(),
        }
    }

    /// `spec_initial` for the values from the 300-th on.
    pub open spec fn spec_initial_from_300(&self) -> Seq<char> {
        match self {
            CssProperty::CornerStartEndShape => "round"@,
            CssProperty::CornerStartStart => "0"@,
            CssProperty::CornerStartStartShape => "round"@,
            CssProperty::CornerTop => "0"@,
            CssProperty::CornerTopLeft => "0"@,
            CssProperty::CornerTopLeftShape => "round"@,
            CssProperty::CornerTopRight => "0"@,
            CssProperty::CornerTopRightShape => "round"@,
            CssProperty::CornerTopShape => "see individual properties"@,
            CssProperty::CounterIncrement => "none"@,
            CssProperty::CounterReset => "none"@,
            CssProperty::CounterSet => "none"@,
            CssProperty::Cue => "see individual properties"@,
            CssProperty::CueAfter => "none"@,
            CssProperty::CueBefore => "none"@,
            CssProperty::Cursor => "auto"@,
            CssProperty::Cx => "0"@,
            CssProperty::Cy => "0"@,
            CssProperty::D => "none"@,
            CssProperty::Direction => "ltr"@,
            CssProperty::Display => "inline"@,
            CssProperty::DominantBaseline => "auto"@,
            CssProperty::DynamicRangeLimit => "no-limit"@,
            CssProperty::EmptyCells => "show"@,
            CssProperty::EventTrigger => "none"@,
            CssProperty::EventTriggerName => "none"@,
            CssProperty::EventTriggerSource => "none"@,
            CssProperty::FieldSizing => "fixed"@,
            CssProperty::Fill => "black"@,
            CssProperty::FillBreak => "bounding-box"@,
            CssProperty::FillColor => "currentcolor"@,
            CssProperty::FillImage => "none"@,
            CssProperty::FillOpacity => "1"@,
            CssProperty::FillOrigin => "match-parent"@,
            CssProperty::FillPosition => "0% 0%"@,
            CssProperty::FillRepeat => "repeat"@,
            CssProperty::FillRule => "nonzero"@,
            CssProperty::FillSize => "auto"@,
            CssProperty::Filter => "none"@,
            CssProperty::Flex => "0 1 auto"@,
            CssProperty::FlexBasis => "auto"@,
            CssProperty::FlexDirection => "row"@,
            CssProperty::FlexFlow => "see individual properties"@,
            CssProperty::FlexGrow => "0"@,
            CssProperty::FlexShrink => "1"@,
            CssProperty::FlexWrap => "nowrap"@,
            CssProperty::Float => "none"@,
            CssProperty::FloatDefer => "none"@,
            CssProperty::FloatOffset => "0"@,
            CssProperty::FloatReference => "inline"@,
            CssProperty::FloodColor => "black"@,
            CssProperty::FloodOpacity => "1"@,
            CssProperty::FlowFrom => "none"@,
            CssProperty::FlowInto => "none"@,
            CssProperty::FlowTolerance => "normal"@,
            CssProperty::Font => "see individual properties"@,
            CssProperty::FontFamily => "depends on user agent"@,
            CssProperty::FontFeatureSettings => "normal"@,
            CssProperty::FontKerning => "auto"@,
            CssProperty::FontLanguageOverride => "normal"@,
            CssProperty::FontOpticalSizing => "auto"@,
            CssProperty::FontPalette => "normal"@,
            CssProperty::FontSize => "medium"@,
            CssProperty::FontSizeAdjust => "none"@,
            CssProperty::FontStretch => ""@,
            CssProperty::FontStyle => "normal"@,
            CssProperty::FontSynthesis => "weight style small-caps position"@,
            CssProperty::FontSynthesisPosition => "auto"@,
            CssProperty::FontSynthesisSmallCaps => "auto"@,
            CssProperty::FontSynthesisStyle => "auto"@,
            CssProperty::FontSynthesisWeight => "auto"@,
            CssProperty::FontVariant => "normal"@,
            CssProperty::FontVariantAlternates => "normal"@,
            CssProperty::FontVariantCaps => "normal"@,
            CssProperty::FontVariantEastAsian => "normal"@,
            CssProperty::FontVariantEmoji => "normal"@,
            CssProperty::FontVariantLigatures => "normal"@,
            CssProperty::FontVariantNumeric => "normal"@,
            CssProperty::FontVariantPosition => "normal"@,
            CssProperty::FontVariationSettings => "normal"@,
            CssProperty::FontWeight => "normal"@,
            CssProperty::FontWidth => "normal"@,
            CssProperty::FootnoteDisplay => "block"@,
            CssProperty::FootnotePolicy => "auto"@,
            CssProperty::ForcedColorAdjust => "auto"@,
            CssProperty::FrameSizing => "auto"@,
            CssProperty::Gap => "see individual properties"@,
            CssProperty::GlyphOrientationVertical => "n/a"@,
            CssProperty::Grid => "none"@,
            CssProperty::GridArea => "auto"@,
            CssProperty::GridAutoColumns => "auto"@,
            CssProperty::GridAutoFlow => "row"@,
            CssProperty::GridAutoRows => "auto"@,
            CssProperty::GridColumn => "auto"@,
            CssProperty::GridColumnEnd => "auto"@,
            CssProperty::GridColumnGap => ""@,
            CssProperty::GridColumnStart => "auto"@,
            CssProperty::GridGap => ""@,
            CssProperty::GridRow => "auto"@,
            CssProperty::GridRowEnd => "auto"@,
            _ => self.spec_initial_from_400(),
        }
    }

    /// `spec_initial` for the values from the 400-th on.
    pub open spec fn spec_initial_from_400(&self) -> Seq<char> {
        match self {
            CssProperty::GridRowGap => ""@,
            CssProperty::GridRowStart => "auto"@,
            CssProperty::GridTemplate => "none"@,
            CssProperty::GridTemplateAreas => "none"@,
            CssProperty::GridTemplateColumns => "none"@,
            CssProperty::GridTemplateRows => "none"@,
            CssProperty::HangingPunctuation => "none"@,
            CssProperty::Height => "auto"@,
            CssProperty::HyphenateCharacter => "auto"@,
            CssProperty::HyphenateLimitChars => "auto"@,
            CssProperty::HyphenateLimitLast => "none"@,
            CssProperty::HyphenateLimitLines => "no-limit"@,
            CssProperty::HyphenateLimitZone => "0"@,
            CssProperty::Hyphens => "manual"@,
            CssProperty::ImageAnimation => "normal"@,
            CssProperty::ImageOrientation => "from-image"@,
            CssProperty::ImageRendering => "auto"@,
            CssProperty::ImageResolution => "1dppx"@,
            CssProperty::InitialLetter => "normal"@,
            CssProperty::InitialLetterAlign => "alphabetic"@,
            CssProperty::InitialLetterWrap => "none"@,
            CssProperty::InlineSize => "auto"@,
            CssProperty::InlineSizing => "normal"@,
            CssProperty::InputSecurity => "auto"@,
            CssProperty::Inset => "auto"@,
            CssProperty::InsetBlock => "auto"@,
            CssProperty::InsetBlockEnd => "auto"@,
            CssProperty::InsetBlockStart => "auto"@,
            CssProperty::InsetInline => "auto"@,
            CssProperty::InsetInlineEnd => "auto"@,
            CssProperty::InsetInlineStart => "auto"@,
            CssProperty::Interactivity => "auto"@,
            CssProperty::InterestDelay => "see individual properties"@,
            CssProperty::InterestDelayEnd => "normal"@,
            CssProperty::InterestDelayStart => "normal"@,
            CssProperty::InterpolateSize => "numeric-only"@,
            CssProperty::Isolation => "auto"@,
            CssProperty::JustifyContent => "normal"@,
            CssProperty::JustifyItems => "legacy"@,
            CssProperty::JustifySelf => "auto"@,
            CssProperty::Left => "auto"@,
            CssProperty::LetterSpacing => "normal"@,
            CssProperty::LightingColor => "white"@,
            CssProperty::LineBreak => "auto"@,
            CssProperty::LineClamp => "none"@,
            CssProperty::LineFitEdge => "leading"@,
            CssProperty::LineGrid => "match-parent"@,
            CssProperty::LineHeight => "normal"@,
            CssProperty::LineHeightStep => "0"@,
            CssProperty::LinePadding => "0"@,
            CssProperty::LineSnap => "none"@,
            CssProperty::LinkParameters => "none"@,
            CssProperty::ListStyle => "see individual properties"@,
            CssProperty::ListStyleImage => "none"@,
            CssProperty::ListStylePosition => "outside"@,
            CssProperty::ListStyleType => "disc"@,
            CssProperty::Margin => "0"@,
            CssProperty::MarginBlock => "see individual properties"@,
            CssProperty::MarginBlockEnd => "0"@,
            CssProperty::MarginBlockStart => "0"@,
            CssProperty::MarginBottom => "0"@,
            CssProperty::MarginBreak => "auto"@,
            CssProperty::MarginInline => "see individual properties"@,
            CssProperty::MarginInlineEnd => "0"@,
            CssProperty::MarginInlineStart => "0"@,
            CssProperty::MarginLeft => "0"@,
            CssProperty::MarginRight => "0"@,
            CssProperty::MarginTop => "0"@,
            CssProperty::MarginTrim => "none"@,
            CssProperty::Marker => "not defined for shorthand properties"@,
            CssProperty::MarkerEnd => "none"@,
            CssProperty::MarkerMid => "none"@,
            CssProperty::MarkerSide => "match-self"@,
            CssProperty::MarkerStart => "none"@,
            CssProperty::Mask => "see individual properties"@,
            CssProperty::MaskBorder => "See individual properties"@,
            CssProperty::MaskBorderMode => "alpha"@,
            CssProperty::MaskBorderOutset => "0"@,
            CssProperty::MaskBorderRepeat => "stretch"@,
            CssProperty::MaskBorderSlice => "0"@,
            CssProperty::MaskBorderSource => "none"@,
            CssProperty::MaskBorderWidth => "auto"@,
            CssProperty::MaskClip => "border-box"@,
            CssProperty::MaskComposite => "add"@,
            CssProperty::MaskImage => "none"@,
            CssProperty::MaskMode => "match-source"@,
            CssProperty::MaskOrigin => "border-box"@,
            CssProperty::MaskPosition => "0% 0%"@,
            CssProperty::MaskRepeat => "repeat"@,
            CssProperty::MaskSize => "auto"@,
            CssProperty::MaskType => "luminance"@,
            CssProperty::MathDepth => "0"@,
            CssProperty::MathShift => "normal"@,
            CssProperty::MathStyle => "normal"@,
            CssProperty::MaxBlockSize => "none"@,
            CssProperty::MaxHeight => "none"@,
            CssProperty::MaxInlineSize => "none"@,
            CssProperty::MaxLines => "none"@,
            CssProperty::MaxWidth => "none"@,
            CssProperty::MinBlockSize => "0"@,
            _ => self.spec_initial_from_500(),
        }
    }

    /// `spec_initial` for the values from the 500-th on.
    pub open spec fn spec_initial_from_500(&self) -> Seq<char> {
        match self {
            CssProperty::MinHeight => "auto"@,
            CssProperty::MinInlineSize => "0"@,
            CssProperty::MinIntrinsicSizing => "legacy"@,
            CssProperty::MinWidth => "auto"@,
            CssProperty::MixBlendMode => "normal"@,
            CssProperty::NavDown => "auto"@,
            CssProperty::NavLeft => "auto"@,
            CssProperty::NavRight => "auto"@,
            CssProperty::NavUp => "auto"@,
            CssProperty::ObjectFit => "fill"@,
            CssProperty::ObjectPosition => "50% 50%"@,
            CssProperty::ObjectViewBox => "none"@,
            CssProperty::Offset => "see individual properties"@,
            CssProperty::OffsetAnchor => "auto"@,
            CssProperty::OffsetDistance => "0"@,
            CssProperty::OffsetPath => "none"@,
            CssProperty::OffsetPosition => "normal"@,
            CssProperty::OffsetRotate => "auto"@,
            CssProperty::Opacity => "1"@,
            CssProperty::Order => "0"@,
            CssProperty::Orphans => "2"@,
            CssProperty::Outline => "see individual properties"@,
            CssProperty::OutlineColor => "auto"@,
            CssProperty::OutlineOffset => "0"@,
            CssProperty::OutlineStyle => "none"@,
            CssProperty::OutlineWidth => "medium"@,
            CssProperty::Overflow => "visible"@,
            CssProperty::OverflowAnchor => "auto"@,
            CssProperty::OverflowBlock => "visible"@,
            CssProperty::OverflowClipMargin => "0px"@,
            CssProperty::OverflowClipMarginBlock => "0px"@,
            CssProperty::OverflowClipMarginBlockEnd => "0px"@,
            CssProperty::OverflowClipMarginBlockStart => "0px"@,
            CssProperty::OverflowClipMarginBottom => "0px"@,
            CssProperty::OverflowClipMarginInline => "0px"@,
            CssProperty::OverflowClipMarginInlineEnd => "0px"@,
            CssProperty::OverflowClipMarginInlineStart => "0px"@,
            CssProperty::OverflowClipMarginLeft => "0px"@,
            CssProperty::OverflowClipMarginRight => "0px"@,
            CssProperty::OverflowClipMarginTop => "0px"@,
            CssProperty::OverflowInline => "visible"@,
            CssProperty::OverflowWrap => "normal"@,
            CssProperty::OverflowX => "visible"@,
            CssProperty::OverflowY => "visible"@,
            CssProperty::Overlay => "none"@,
            CssProperty::OverscrollBehavior => "auto auto"@,
            CssProperty::OverscrollBehaviorBlock => "auto"@,
            CssProperty::OverscrollBehaviorInline => "auto"@,
            CssProperty::OverscrollBehaviorX => "auto"@,
            CssProperty::OverscrollBehaviorY => "auto"@,
            CssProperty::Padding => "0"@,
            CssProperty::PaddingBlock => "see individual properties"@,
            CssProperty::PaddingBlockEnd => "0"@,
            CssProperty::PaddingBlockStart => "0"@,
            CssProperty::PaddingBottom => "0"@,
            CssProperty::PaddingInline => "see individual properties"@,
            CssProperty::PaddingInlineEnd => "0"@,
            CssProperty::PaddingInlineStart => "0"@,
            CssProperty::PaddingLeft => "0"@,
            CssProperty::PaddingRight => "0"@,
            CssProperty::PaddingTop => "0"@,
            CssProperty::Page => "auto"@,
            CssProperty::PageBreakAfter => "auto"@,
            CssProperty::PageBreakBefore => "auto"@,
            CssProperty::PageBreakInside => "auto"@,
            CssProperty::PaintOrder => "normal"@,
            CssProperty::PathLength => "none"@,
            CssProperty::Pause => "see individual properties"@,
            CssProperty::PauseAfter => "none"@,
            CssProperty::PauseBefore => "none"@,
            CssProperty::Perspective => "none"@,
            CssProperty::PerspectiveOrigin => "50% 50%"@,
            CssProperty::PlaceContent => "normal"@,
            CssProperty::PlaceItems => "see individual properties"@,
            CssProperty::PlaceSelf => "auto"@,
            CssProperty::PointerEvents => "auto"@,
            CssProperty::PointerTimeline => "see individual properties"@,
            CssProperty::PointerTimelineAxis => "block"@,
            CssProperty::PointerTimelineName => "none"@,
            CssProperty::Position => "static"@,
            CssProperty::PositionAnchor => "normal"@,
            CssProperty::PositionArea => "none"@,
            CssProperty::PositionTry => "see individual properties"@,
            CssProperty::PositionTryFallbacks => "none"@,
            CssProperty::PositionTryOrder => "normal"@,
            CssProperty::PositionVisibility => "anchors-visible"@,
            CssProperty::PrintColorAdjust => "economy"@,
            CssProperty::Quotes => "auto"@,
            CssProperty::R => "0"@,
            CssProperty::ReadingFlow => "normal"@,
            CssProperty::ReadingOrder => "0"@,
            CssProperty::RegionFragment => "auto"@,
            CssProperty::Resize => "none"@,
            CssProperty::Rest => "see individual properties"@,
            CssProperty::RestAfter => "none"@,
            CssProperty::RestBefore => "none"@,
            CssProperty::Right => "auto"@,
            CssProperty::Rotate => "none"@,
            CssProperty::RowGap => "normal"@,
            CssProperty::RowRule => "see individual properties"@,
            _ => self.spec_initial_from_600(),
        }
    }

    /// `spec_initial` for the values from the 600-th on.
    pub open spec fn spec_initial_from_600(&self) -> Seq<char> {
        match self {
            CssProperty::RowRuleBreak => "normal"@,
            CssProperty::RowRuleColor => "currentcolor"@,
            CssProperty::RowRuleInset => "see individual properties"@,
            CssProperty::RowRuleInsetCap => "see individual properties"@,
            CssProperty::RowRuleInsetCapEnd => "0"@,
            CssProperty::RowRuleInsetCapStart => "0"@,
            CssProperty::RowRuleInsetEnd => "see individual properties"@,
            CssProperty::RowRuleInsetJunction => "see individual properties"@,
            CssProperty::RowRuleInsetJunctionEnd => "0"@,
            CssProperty::RowRuleInsetJunctionStart => "0"@,
            CssProperty::RowRuleInsetStart => "see individual properties"@,
            CssProperty::RowRuleStyle => "none"@,
            CssProperty::RowRuleVisibilityItems => "normal"@,
            CssProperty::RowRuleWidth => "medium"@,
            CssProperty::RubyAlign => "space-around"@,
            CssProperty::RubyMerge => "separate"@,
            CssProperty::RubyOverhang => "auto"@,
            CssProperty::RubyPosition => "alternate"@,
            CssProperty::Rule => "see individual properties"@,
            CssProperty::RuleBreak => "see individual properties"@,
            CssProperty::RuleColor => "see individual properties"@,
            CssProperty::RuleInset => "see individual properties"@,
            CssProperty::RuleInsetCap => "see individual properties"@,
            CssProperty::RuleInsetEnd => "see individual properties"@,
            CssProperty::RuleInsetJunction => "see individual properties"@,
            CssProperty::RuleInsetStart => "see individual properties"@,
            CssProperty::RuleOverlap => "row-over-column"@,
            CssProperty::RuleStyle => "see individual properties"@,
            CssProperty::RuleVisibilityItems => "see individual properties"@,
            CssProperty::RuleWidth => "see individual properties"@,
            CssProperty::Rx => "auto"@,
            CssProperty::Ry => "auto"@,
            CssProperty::Scale => "none"@,
            CssProperty::ScrollBehavior => "auto"@,
            CssProperty::ScrollInitialTarget => "none"@,
            CssProperty::ScrollMargin => "0"@,
            CssProperty::ScrollMarginBlock => "0"@,
            CssProperty::ScrollMarginBlockEnd => "0"@,
            CssProperty::ScrollMarginBlockStart => "0"@,
            CssProperty::ScrollMarginBottom => "0"@,
            CssProperty::ScrollMarginInline => "0"@,
            CssProperty::ScrollMarginInlineEnd => "0"@,
            CssProperty::ScrollMarginInlineStart => "0"@,
            CssProperty::ScrollMarginLeft => "0"@,
            CssProperty::ScrollMarginRight => "0"@,
            CssProperty::ScrollMarginTop => "0"@,
            CssProperty::ScrollMarkerGroup => "none"@,
            CssProperty::ScrollPadding => "auto"@,
            CssProperty::ScrollPaddingBlock => "auto"@,
            CssProperty::ScrollPaddingBlockEnd => "auto"@,
            CssProperty::ScrollPaddingBlockStart => "auto"@,
            CssProperty::ScrollPaddingBottom => "auto"@,
            CssProperty::ScrollPaddingInline => "auto"@,
            CssProperty::ScrollPaddingInlineEnd => "auto"@,
            CssProperty::ScrollPaddingInlineStart => "auto"@,
            CssProperty::ScrollPaddingLeft => "auto"@,
            CssProperty::ScrollPaddingRight => "auto"@,
            CssProperty::ScrollPaddingTop => "auto"@,
            CssProperty::ScrollSnapAlign => "none"@,
            CssProperty::ScrollSnapStop => "normal"@,
            CssProperty::ScrollSnapType => "none"@,
            CssProperty::ScrollTargetGroup => "none"@,
            CssProperty::ScrollTimeline => "see individual properties"@,
            CssProperty::ScrollTimelineAxis => "block"@,
            CssProperty::ScrollTimelineName => "none"@,
            CssProperty::ScrollbarColor => "auto"@,
            CssProperty::ScrollbarGutter => "auto"@,
            CssProperty::ScrollbarInset => "0px"@,
            CssProperty::ScrollbarMinThumbSize => "20px"@,
            CssProperty::ScrollbarMode => "auto"@,
            CssProperty::ScrollbarWidth => "auto"@,
            CssProperty::ShapeImageThreshold => "0"@,
            CssProperty::ShapeInside => "auto"@,
            CssProperty::ShapeMargin => "0"@,
            CssProperty::ShapeOutside => "none"@,
            CssProperty::ShapePadding => "0"@,
            CssProperty::ShapeRendering => "auto"@,
            CssProperty::SliderOrientation => "auto"@,
            CssProperty::SpatialNavigationAction => "auto"@,
            CssProperty::SpatialNavigationContain => "auto"@,
            CssProperty::SpatialNavigationFunction => "normal"@,
            CssProperty::Speak => "auto"@,
            CssProperty::SpeakAs => "normal"@,
            CssProperty::StopColor => ""@,
            CssProperty::StopOpacity => ""@,
            CssProperty::StringSet => "none"@,
            CssProperty::Stroke => "none"@,
            CssProperty::StrokeAlign => "center"@,
            CssProperty::StrokeAlignment => "center"@,
            CssProperty::StrokeBreak => "bounding-box"@,
            CssProperty::StrokeColor => "transparent"@,
            CssProperty::StrokeDashCornerPropdefStrokeDashCorner => "none"@,
            CssProperty::StrokeDashJustify => "none"@,
            CssProperty::StrokeDashadjust => "none"@,
            CssProperty::StrokeDasharray => "none"@,
            CssProperty::StrokeDashcornerStrokedashcornerproperty => "none"@,
            CssProperty::StrokeDashoffset => "0"@,
            CssProperty::StrokeImage => "none"@,
            CssProperty::StrokeLinecap => "butt"@,
            CssProperty::StrokeLinejoin => "miter"@,
            _ => self.spec_initial_from_700(),
        }
    }

    /// `spec_initial` for the values from the 700-th on.
    pub open spec fn spec_initial_from_700(&self) -> Seq<char> {
        match self {
            CssProperty::StrokeMiterlimit => "4"@,
            CssProperty::StrokeOpacity => "1"@,
            CssProperty::StrokeOrigin => "match-parent"@,
            CssProperty::StrokePosition => "0% 0%"@,
            CssProperty::StrokeRepeat => "repeat"@,
            CssProperty::StrokeSize => "auto"@,
            CssProperty::StrokeWidth => "1px"@,
            CssProperty::TabSize => "8"@,
            CssProperty::TableLayout => "auto"@,
            CssProperty::TextAlign => "start"@,
            CssProperty::TextAlignAll => "start"@,
            CssProperty::TextAlignLast => "auto"@,
            CssProperty::TextAnchor => "start"@,
            CssProperty::TextAutospace => "normal"@,
            CssProperty::TextBox => "normal"@,
            CssProperty::TextBoxEdge => "auto"@,
            CssProperty::TextBoxTrim => "none"@,
            CssProperty::TextCombineUpright => "none"@,
            CssProperty::TextDecoration => "see individual properties"@,
            CssProperty::TextDecorationColor => "currentcolor"@,
            CssProperty::TextDecorationInset => "0"@,
            CssProperty::TextDecorationLine => "none"@,
            CssProperty::TextDecorationSkip => "See individual properties"@,
            CssProperty::TextDecorationSkipBox => "none"@,
            CssProperty::TextDecorationSkipInk => "auto"@,
            CssProperty::TextDecorationSkipSelf => "auto"@,
            CssProperty::TextDecorationSkipSpaces => "start end"@,
            CssProperty::TextDecorationStyle => "solid"@,
            CssProperty::TextDecorationThickness => "auto"@,
            CssProperty::TextEmphasis => "see individual properties"@,
            CssProperty::TextEmphasisColor => "currentcolor"@,
            CssProperty::TextEmphasisPosition => "over right"@,
            CssProperty::TextEmphasisSkip => "spaces punctuation"@,
            CssProperty::TextEmphasisStyle => "none"@,
            CssProperty::TextFit => "none"@,
            CssProperty::TextGroupAlign => "none"@,
            CssProperty::TextIndent => "0"@,
            CssProperty::TextJustify => "auto"@,
            CssProperty::TextOrientation => "mixed"@,
            CssProperty::TextOverflow => "clip"@,
            CssProperty::TextRendering => "auto"@,
            CssProperty::TextShadow => "none"@,
            CssProperty::TextSizeAdjust => "auto"@,
            CssProperty::TextSpacing => "see individual properties"@,
            CssProperty::TextSpacingTrim => "normal"@,
            CssProperty::TextTransform => "none"@,
            CssProperty::TextUnderlineOffset => "auto"@,
            CssProperty::TextUnderlinePosition => "auto"@,
            CssProperty::TextWrap => "wrap"@,
            CssProperty::TextWrapMode => "wrap"@,
            CssProperty::TextWrapStyle => "auto"@,
            CssProperty::TimelineScope => "none"@,
            CssProperty::TimelineTrigger => "see individual properties"@,
            CssProperty::TimelineTriggerActivationRange => "see individual properties"@,
            CssProperty::TimelineTriggerActivationRangeEnd => "normal"@,
            CssProperty::TimelineTriggerActivationRangeStart => "normal"@,
            CssProperty::TimelineTriggerActiveRange => "see individual properties"@,
            CssProperty::TimelineTriggerActiveRangeEnd => "auto"@,
            CssProperty::TimelineTriggerActiveRangeStart => "auto"@,
            CssProperty::TimelineTriggerName => "none"@,
            CssProperty::TimelineTriggerSource => "auto"@,
            CssProperty::Top => "auto"@,
            CssProperty::TouchAction => "auto"@,
            CssProperty::Transform => "none"@,
            CssProperty::TransformBox => "view-box"@,
            CssProperty::TransformOrigin => "50% 50%"@,
            CssProperty::TransformStyle => "flat"@,
            CssProperty::Transition => "see individual properties"@,
            CssProperty::TransitionBehavior => "normal"@,
            CssProperty::TransitionDelay => "0s"@,
            CssProperty::TransitionDuration => "0s"@,
            CssProperty::TransitionProperty => "all"@,
            CssProperty::TransitionTimingFunction => "ease"@,
            CssProperty::Translate => "none"@,
            CssProperty::TriggerScope => "none"@,
            CssProperty::UnicodeBidi => "normal"@,
            CssProperty::UserSelect => "auto"@,
            CssProperty::VectorEffect => "none"@,
            CssProperty::VerticalAlign => "baseline"@,
            CssProperty::ViewTimeline => "see individual properties"@,
            CssProperty::ViewTimelineAxis => "block"@,
            CssProperty::ViewTimelineInset => "auto"@,
            CssProperty::ViewTimelineName => "none"@,
            CssProperty::ViewTransitionClass => "none"@,
            CssProperty::ViewTransitionGroup => "normal"@,
            CssProperty::ViewTransitionName => "none"@,
            CssProperty::ViewTransitionScope => "none"@,
            CssProperty::Visibility => "visible"@,
            CssProperty::VoiceBalance => "center"@,
            CssProperty::VoiceDuration => "auto"@,
            CssProperty::VoiceFamily => "implementation-dependent"@,
            CssProperty::VoicePitch => "medium"@,
            CssProperty::VoiceRange => "medium"@,
            CssProperty::VoiceRate => "normal"@,
            CssProperty::VoiceStress => "normal"@,
            CssProperty::VoiceVolume => "medium"@,
            CssProperty::WhiteSpace => "normal"@,
            CssProperty::WhiteSpaceCollapse => "collapse"@,
            CssProperty::WhiteSpaceTrim => "none"@,
            CssProperty::Widows => "2"@,
            _ => self.spec_initial_from_800(),
        }
    }

    /// `spec_initial` for the values from the 800-th on.
    pub open spec fn spec_initial_from_800(&self) -> Seq<char> {
        match self {
            CssProperty::Width => "auto"@,
            CssProperty::WillChange => "auto"@,
            CssProperty::WordBreak => "normal"@,
            CssProperty::WordSpaceTransform => "none"@,
            CssProperty::WordSpacing => "normal"@,
            CssProperty::WordWrap => "normal"@,
            CssProperty::WrapAfter => "auto"@,
            CssProperty::WrapBefore => "auto"@,
            CssProperty::WrapFlow => "auto"@,
            CssProperty::WrapInside => "auto"@,
            CssProperty::WrapThrough => "wrap"@,
            CssProperty::WritingMode => "horizontal-tb"@,
            CssProperty::X => "0"@,
            CssProperty::Y => "0"@,
            CssProperty::ZIndex => "auto"@,
            CssProperty::Zoom => "1"@,
            CssProperty::Unknown(_) => Seq::empty(),
            _ => Seq::empty(),
        }
    }

    /// Whether the property is inherited by default.
    pub open spec fn spec_inherited(&self) -> bool {
        match self {
            CssProperty::WebkitAlignContent => false,
            CssProperty::WebkitAlignItems => false,
            CssProperty::WebkitAlignSelf => false,
            CssProperty::WebkitAnimation => false,
            CssProperty::WebkitAnimationDelay => false,
            CssProperty::WebkitAnimationDirection => false,
            CssProperty::WebkitAnimationDuration => false,
            CssProperty::WebkitAnimationFillMode => false,
            CssProperty::WebkitAnimationIterationCount => false,
            CssProperty::WebkitAnimationName => false,
            CssProperty::WebkitAnimationPlayState => false,
            CssProperty::WebkitAnimationTimingFunction => false,
            CssProperty::WebkitAppearance => false,
            CssProperty::WebkitBackfaceVisibility => false,
            CssProperty::WebkitBackgroundClip => false,
            CssProperty::WebkitBackgroundOrigin => false,
            CssProperty::WebkitBackgroundSize => false,
            CssProperty::WebkitBorderBottomLeftRadius => false,
            CssProperty::WebkitBorderBottomRightRadius => false,
            CssProperty::WebkitBorderRadius => false,
            CssProperty::WebkitBorderTopLeftRadius => false,
            CssProperty::WebkitBorderTopRightRadius => false,
            CssProperty::WebkitBoxAlign => false,
            CssProperty::WebkitBoxFlex => false,
            CssProperty::WebkitBoxOrdinalGroup => false,
            CssProperty::WebkitBoxOrient => false,
            CssProperty::WebkitBoxPack => false,
            CssProperty::WebkitBoxShadow => false,
            CssProperty::WebkitBoxSizing => false,
            CssProperty::WebkitFilter => false,
            CssProperty::WebkitFlex => false,
            CssProperty::WebkitFlexBasis => false,
            CssProperty::WebkitFlexDirection => false,
            CssProperty::WebkitFlexFlow => false,
            CssProperty::WebkitFlexGrow => false,
            CssProperty::WebkitFlexShrink => false,
            CssProperty::WebkitFlexWrap => false,
            CssProperty::WebkitJustifyContent => false,
            CssProperty::WebkitLineClamp => false,
            CssProperty::WebkitMask => false,
            CssProperty::WebkitMaskBoxImage => false,
            CssProperty::WebkitMaskBoxImageOutset => false,
            CssProperty::WebkitMaskBoxImageRepeat => false,
            CssProperty::WebkitMaskBoxImageSlice => false,
            CssProperty::WebkitMaskBoxImageSource => false,
            CssProperty::WebkitMaskBoxImageWidth => false,
            CssProperty::WebkitMaskClip => false,
            CssProperty::WebkitMaskComposite => false,
            CssProperty::WebkitMaskImage => false,
            CssProperty::WebkitMaskOrigin => false,
            CssProperty::WebkitMaskPosition => false,
            CssProperty::WebkitMaskRepeat => false,
            CssProperty::WebkitMaskSize => false,
            CssProperty::WebkitOrder => false,
            CssProperty::WebkitPerspective => false,
            CssProperty::WebkitPerspectiveOrigin => false,
            CssProperty::WebkitTextFillColor => true,
            CssProperty::WebkitTextSizeAdjust => false,
            CssProperty::WebkitTextStroke => true,
            CssProperty::WebkitTextStrokeColor => true,
            CssProperty::WebkitTextStrokeWidth => true,
            CssProperty::WebkitTransform => false,
            CssProperty::WebkitTransformOrigin => false,
            CssProperty::WebkitTransformStyle => false,
            CssProperty::WebkitTransition => false,
            CssProperty::WebkitTransitionDelay => false,
            CssProperty::WebkitTransitionDuration => false,
            CssProperty::WebkitTransitionProperty => false,
            CssProperty::WebkitTransitionTimingFunction => false,
            CssProperty::WebkitUserSelect => false,
            CssProperty::AccentColor => true,
            CssProperty::AlignContent => false,
            CssProperty::AlignItems => false,
            CssProperty::AlignSelf => false,
            CssProperty::AlignmentBaseline => false,
            CssProperty::All => false,
            CssProperty::AnchorName => false,
            CssProperty::AnchorScope => false,
            CssProperty::Animation => false,
            CssProperty::AnimationComposition => false,
            CssProperty::AnimationDelay => false,
            CssProperty::AnimationDirection => false,
            CssProperty::AnimationDuration => false,
            CssProperty::AnimationFillMode => false,
            CssProperty::AnimationIterationCount => false,
            CssProperty::AnimationName => false,
            CssProperty::AnimationPlayState => false,
            CssProperty::AnimationRange => false,
            CssProperty::AnimationRangeCenter => false,
            CssProperty::AnimationRangeEnd => false,
            CssProperty::AnimationRangeStart => false,
            CssProperty::AnimationTimeline => false,
            CssProperty::AnimationTimingFunction => false,
            CssProperty::AnimationTrigger => false,
            CssProperty::Appearance => false,
            CssProperty::AspectRatio => false,
            CssProperty::BackdropFilter => false,
            CssProperty::BackfaceVisibility => false,
            CssProperty::Background => false,
            CssProperty::BackgroundAttachment => false,
            _ => self.spec_inherited_from_100(),
        }
    }

    /// `spec_inherited` for the values from the 100-th on.
    pub open spec fn spec_inherited_from_100(&self) -> bool {
        match self {
            CssProperty::BackgroundBlendMode => false,
            CssProperty::BackgroundClip => false,
            CssProperty::BackgroundColor => false,
            CssProperty::BackgroundImage => false,
            CssProperty::BackgroundOrigin => false,
            CssProperty::BackgroundPosition => false,
            CssProperty::BackgroundPositionBlock => false,
            CssProperty::BackgroundPositionInline => false,
            CssProperty::BackgroundPositionX => false,
            CssProperty::BackgroundPositionY => false,
            CssProperty::BackgroundRepeat => false,
            CssProperty::BackgroundRepeatBlock => false,
            CssProperty::BackgroundRepeatInline => false,
            CssProperty::BackgroundRepeatX => false,
            CssProperty::BackgroundRepeatY => false,
            CssProperty::BackgroundSize => false,
            CssProperty::BackgroundTbd => false,
            CssProperty::BaselineShift => false,
            CssProperty::BaselineSource => false,
            CssProperty::BlockEllipsis => true,
            CssProperty::BlockSize => false,
            CssProperty::BlockStep => false,
            CssProperty::BlockStepAlign => false,
            CssProperty::BlockStepInsert => false,
            CssProperty::BlockStepRound => false,
            CssProperty::BlockStepSize => false,
            CssProperty::BookmarkLabel => false,
            CssProperty::BookmarkLevel => false,
            CssProperty::BookmarkState => false,
            CssProperty::Border => false,
            CssProperty::BorderBlock => false,
            CssProperty::BorderBlockClip => false,
            CssProperty::BorderBlockColor => false,
            CssProperty::BorderBlockEnd => false,
            CssProperty::BorderBlockEndClip => false,
            CssProperty::BorderBlockEndColor => false,
            CssProperty::BorderBlockEndRadius => false,
            CssProperty::BorderBlockEndStyle => false,
            CssProperty::BorderBlockEndWidth => false,
            CssProperty::BorderBlockStart => false,
            CssProperty::BorderBlockStartClip => false,
            CssProperty::BorderBlockStartColor => false,
            CssProperty::BorderBlockStartRadius => false,
            CssProperty::BorderBlockStartStyle => false,
            CssProperty::BorderBlockStartWidth => false,
            CssProperty::BorderBlockStyle => false,
            CssProperty::BorderBlockWidth => false,
            CssProperty::BorderBottom => false,
            CssProperty::BorderBottomClip => false,
            CssProperty::BorderBottomColor => false,
            CssProperty::BorderBottomLeftRadius => false,
            CssProperty::BorderBottomRadius => false,
            CssProperty::BorderBottomRightRadius => false,
            CssProperty::BorderBottomStyle => false,
            CssProperty::BorderBottomWidth => false,
            CssProperty::BorderBoundary => true,
            CssProperty::BorderClip => false,
            CssProperty::BorderCollapse => true,
            CssProperty::BorderColor => false,
            CssProperty::BorderEndEndRadius => false,
            CssProperty::BorderEndStartRadius => false,
            CssProperty::BorderImage => false,
            CssProperty::BorderImageOutset => false,
            CssProperty::BorderImageRepeat => false,
            CssProperty::BorderImageSlice => false,
            CssProperty::BorderImageSource => false,
            CssProperty::BorderImageWidth => false,
            CssProperty::BorderInline => false,
            CssProperty::BorderInlineClip => false,
            CssProperty::BorderInlineColor => false,
            CssProperty::BorderInlineEnd => false,
            CssProperty::BorderInlineEndClip => false,
            CssProperty::BorderInlineEndColor => false,
            CssProperty::BorderInlineEndRadius => false,
            CssProperty::BorderInlineEndStyle => false,
            CssProperty::BorderInlineEndWidth => false,
            CssProperty::BorderInlineStart => false,
            CssProperty::BorderInlineStartClip => false,
            CssProperty::BorderInlineStartColor => false,
            CssProperty::BorderInlineStartRadius => false,
            CssProperty::BorderInlineStartStyle => false,
            CssProperty::BorderInlineStartWidth => false,
            CssProperty::BorderInlineStyle => false,
            CssProperty::BorderInlineWidth => false,
            CssProperty::BorderLeft => false,
            CssProperty::BorderLeftClip => false,
            CssProperty::BorderLeftColor => false,
            CssProperty::BorderLeftRadius => false,
            CssProperty::BorderLeftStyle => false,
            CssProperty::BorderLeftWidth => false,
            CssProperty::BorderLimit => false,
            CssProperty::BorderRadius => false,
            CssProperty::BorderRight => false,
            CssProperty::BorderRightClip => false,
            CssProperty::BorderRightColor => false,
            CssProperty::BorderRightRadius => false,
            CssProperty::BorderRightStyle => false,
            CssProperty::BorderRightWidth => false,
            CssProperty::BorderShape => false,
            CssProperty::BorderSpacing => true,
            _ => self.spec_inherited_from_200(),
        }
    }

    /// `spec_inherited` for the values from the 200-th on.
    pub open spec fn spec_inherited_from_200(&self) -> bool {
        match self {
            CssProperty::BorderStartEndRadius => false,
            CssProperty::BorderStartStartRadius => false,
            CssProperty::BorderStyle => false,
            CssProperty::BorderTop => false,
            CssProperty::BorderTopClip => false,
            CssProperty::BorderTopColor => false,
            CssProperty::BorderTopLeftRadius => false,
            CssProperty::BorderTopRadius => false,
            CssProperty::BorderTopRightRadius => false,
            CssProperty::BorderTopStyle => false,
            CssProperty::BorderTopWidth => false,
            CssProperty::BorderWidth => false,
            CssProperty::Bottom => false,
            CssProperty::BoxDecorationBreak => false,
            CssProperty::BoxShadow => false,
            CssProperty::BoxShadowBlur => false,
            CssProperty::BoxShadowColor => false,
            CssProperty::BoxShadowOffset => false,
            CssProperty::BoxShadowPosition => false,
            CssProperty::BoxShadowSpread => false,
            CssProperty::BoxSizing => false,
            CssProperty::BoxSnap => true,
            CssProperty::BreakAfter => false,
            CssProperty::BreakBefore => false,
            CssProperty::BreakInside => false,
            CssProperty::CaptionSide => true,
            CssProperty::Caret => true,
            CssProperty::CaretAnimation => true,
            CssProperty::CaretColor => true,
            CssProperty::CaretShape => true,
            CssProperty::Clear => false,
            CssProperty::Clip => false,
            CssProperty::ClipPath => false,
            CssProperty::ClipRule => true,
            CssProperty::Color => true,
            CssProperty::ColorAdjust => false,
            CssProperty::ColorInterpolation => true,
            CssProperty::ColorInterpolationFilters => true,
            CssProperty::ColorScheme => true,
            CssProperty::ColumnCount => false,
            CssProperty::ColumnFill => false,
            CssProperty::ColumnGap => false,
            CssProperty::ColumnHeight => false,
            CssProperty::ColumnRule => false,
            CssProperty::ColumnRuleBreak => false,
            CssProperty::ColumnRuleColor => false,
            CssProperty::ColumnRuleInset => false,
            CssProperty::ColumnRuleInsetCap => false,
            CssProperty::ColumnRuleInsetCapEnd => false,
            CssProperty::ColumnRuleInsetCapStart => false,
            CssProperty::ColumnRuleInsetEnd => false,
            CssProperty::ColumnRuleInsetJunction => false,
            CssProperty::ColumnRuleInsetJunctionEnd => false,
            CssProperty::ColumnRuleInsetJunctionStart => false,
            CssProperty::ColumnRuleInsetStart => false,
            CssProperty::ColumnRuleStyle => false,
            CssProperty::ColumnRuleVisibilityItems => false,
            CssProperty::ColumnRuleWidth => false,
            CssProperty::ColumnSpan => false,
            CssProperty::ColumnWidth => false,
            CssProperty::ColumnWrap => false,
            CssProperty::Columns => false,
            CssProperty::Contain => false,
            CssProperty::ContainIntrinsicBlockSize => false,
            CssProperty::ContainIntrinsicHeight => false,
            CssProperty::ContainIntrinsicInlineSize => false,
            CssProperty::ContainIntrinsicSize => false,
            CssProperty::ContainIntrinsicWidth => false,
            CssProperty::Container => false,
            CssProperty::ContainerName => false,
            CssProperty::ContainerType => false,
            CssProperty::Content => false,
            CssProperty::ContentVisibility => false,
            CssProperty::Continue => false,
            CssProperty::CopyInto => false,
            CssProperty::Corner => false,
            CssProperty::CornerBlockEnd => false,
            CssProperty::CornerBlockEndShape => false,
            CssProperty::CornerBlockStart => false,
            CssProperty::CornerBlockStartShape => false,
            CssProperty::CornerBottom => false,
            CssProperty::CornerBottomLeft => false,
            CssProperty::CornerBottomLeftShape => false,
            CssProperty::CornerBottomRight => false,
            CssProperty::CornerBottomRightShape => false,
            CssProperty::CornerBottomShape => false,
            CssProperty::CornerEndEnd => false,
            CssProperty::CornerEndEndShape => false,
            CssProperty::CornerEndStart => false,
            CssProperty::CornerEndStartShape => false,
            CssProperty::CornerInlineEnd => false,
            CssProperty::CornerInlineEndShape => false,
            CssProperty::CornerInlineStart => false,
            CssProperty::CornerInlineStartShape => false,
            CssProperty::CornerLeft => false,
            CssProperty::CornerLeftShape => false,
            CssProperty::CornerRight => false,
            CssProperty::CornerRightShape => false,
            CssProperty::CornerShape => false,
            CssProperty::CornerStartEnd => false,
            _ => self.spec_inherited_from_300(),
        }
    }

    /// `spec_inherited` for the values from the 300-th on.
    pub open spec fn spec_inherited_from_300(&self) -> bool {
        match self {
            CssProperty::CornerStartEndShape => false,
            CssProperty::CornerStartStart => false,
            CssProperty::CornerStartStartShape => false,
            CssProperty::CornerTop => false,
            CssProperty::CornerTopLeft => false,
            CssProperty::CornerTopLeftShape => false,
            CssProperty::CornerTopRight => false,
            CssProperty::CornerTopRightShape => false,
            CssProperty::CornerTopShape => false,
            CssProperty::CounterIncrement => false,
            CssProperty::CounterReset => false,
            CssProperty::CounterSet => false,
            CssProperty::Cue => false,
            CssProperty::CueAfter => false,
            CssProperty::CueBefore => false,
            CssProperty::Cursor => true,
            CssProperty::Cx => false,
            CssProperty::Cy => false,
            CssProperty::D => false,
            CssProperty::Direction => true,
            CssProperty::Display => false,
            CssProperty::DominantBaseline => true,
            CssProperty::DynamicRangeLimit => true,
            CssProperty::EmptyCells => true,
            CssProperty::EventTrigger => false,
            CssProperty::EventTriggerName => false,
            CssProperty::EventTriggerSource => false,
            CssProperty::FieldSizing => false,
            CssProperty::Fill => true,
            CssProperty::FillBreak => false,
            CssProperty::FillColor => true,
            CssProperty::FillImage => true,
            CssProperty::FillOpacity => true,
            CssProperty::FillOrigin => false,
            CssProperty::FillPosition => true,
            CssProperty::FillRepeat => true,
            CssProperty::FillRule => true,
            CssProperty::FillSize => true,
            CssProperty::Filter => false,
            CssProperty::Flex => false,
            CssProperty::FlexBasis => false,
            CssProperty::FlexDirection => false,
            CssProperty::FlexFlow => false,
            CssProperty::FlexGrow => false,
            CssProperty::FlexShrink => false,
            CssProperty::FlexWrap => false,
            CssProperty::Float => false,
            CssProperty::FloatDefer => false,
            CssProperty::FloatOffset => false,
            CssProperty::FloatReference => false,
            CssProperty::FloodColor => false,
            CssProperty::FloodOpacity => false,
            CssProperty::FlowFrom => false,
            CssProperty::FlowInto => false,
            CssProperty::FlowTolerance => false,
            CssProperty::Font => true,
            CssProperty::FontFamily => true,
            CssProperty::FontFeatureSettings => true,
            CssProperty::FontKerning => true,
            CssProperty::FontLanguageOverride => true,
            CssProperty::FontOpticalSizing => true,
            CssProperty::FontPalette => true,
            CssProperty::FontSize => true,
            CssProperty::FontSizeAdjust => true,
            CssProperty::FontStretch => false,
            CssProperty::FontStyle => true,
            CssProperty::FontSynthesis => true,
            CssProperty::FontSynthesisPosition => true,
            CssProperty::FontSynthesisSmallCaps => true,
            CssProperty::FontSynthesisStyle => true,
            CssProperty::FontSynthesisWeight => true,
            CssProperty::FontVariant => true,
            CssProperty::FontVariantAlternates => true,
            CssProperty::FontVariantCaps => true,
            CssProperty::FontVariantEastAsian => true,
            CssProperty::FontVariantEmoji => true,
            CssProperty::FontVariantLigatures => true,
            CssProperty::FontVariantNumeric => true,
            CssProperty::FontVariantPosition => true,
            CssProperty::FontVariationSettings => true,
            CssProperty::FontWeight => true,
            CssProperty::FontWidth => true,
            CssProperty::FootnoteDisplay => false,
            CssProperty::FootnotePolicy => false,
            CssProperty::ForcedColorAdjust => true,
            CssProperty::FrameSizing => false,
            CssProperty::Gap => false,
            CssProperty::GlyphOrientationVertical => false,
            CssProperty::Grid => false,
            CssProperty::GridArea => false,
            CssProperty::GridAutoColumns => false,
            CssProperty::GridAutoFlow => false,
            CssProperty::GridAutoRows => false,
            CssProperty::GridColumn => false,
            CssProperty::GridColumnEnd => false,
            CssProperty::GridColumnGap => false,
            CssProperty::GridColumnStart => false,
            CssProperty::GridGap => false,
            CssProperty::GridRow => false,
            CssProperty::GridRowEnd => false,
            _ => self.spec_inherited_from_400(),
        }
    }

    /// `spec_inherited` for the values from the 400-th on.
    pub open spec fn spec_inherited_from_400(&self) -> bool {
        match self {
            CssProperty::GridRowGap => false,
            CssProperty::GridRowStart => false,
            CssProperty::GridTemplate => false,
            CssProperty::GridTemplateAreas => false,
            CssProperty::GridTemplateColumns => false,
            CssProperty::GridTemplateRows => false,
            CssProperty::HangingPunctuation => true,
            CssProperty::Height => false,
            CssProperty::HyphenateCharacter => true,
            CssProperty::HyphenateLimitChars => true,
            CssProperty::HyphenateLimitLast => true,
            CssProperty::HyphenateLimitLines => true,
            CssProperty::HyphenateLimitZone => true,
            CssProperty::Hyphens => true,
            CssProperty::ImageAnimation => true,
            CssProperty::ImageOrientation => true,
            CssProperty::ImageRendering => true,
            CssProperty::ImageResolution => true,
            CssProperty::InitialLetter => false,
            CssProperty::InitialLetterAlign => true,
            CssProperty::InitialLetterWrap => true,
            CssProperty::InlineSize => false,
            CssProperty::InlineSizing => true,
            CssProperty::InputSecurity => false,
            CssProperty::Inset => false,
            CssProperty::InsetBlock => false,
            CssProperty::InsetBlockEnd => false,
            CssProperty::InsetBlockStart => false,
            CssProperty::InsetInline => false,
            CssProperty::InsetInlineEnd => false,
            CssProperty::InsetInlineStart => false,
            CssProperty::Interactivity => true,
            CssProperty::InterestDelay => false,
            CssProperty::InterestDelayEnd => true,
            CssProperty::InterestDelayStart => true,
            CssProperty::InterpolateSize => true,
            CssProperty::Isolation => false,
            CssProperty::JustifyContent => false,
            CssProperty::JustifyItems => false,
            CssProperty::JustifySelf => false,
            CssProperty::Left => false,
            CssProperty::LetterSpacing => true,
            CssProperty::LightingColor => false,
            CssProperty::LineBreak => true,
            CssProperty::LineClamp => false,
            CssProperty::LineFitEdge => true,
            CssProperty::LineGrid => false,
            CssProperty::LineHeight => true,
            CssProperty::LineHeightStep => true,
            CssProperty::LinePadding => true,
            CssProperty::LineSnap => true,
            CssProperty::LinkParameters => false,
            CssProperty::ListStyle => false,
            CssProperty::ListStyleImage => true,
            CssProperty::ListStylePosition => true,
            CssProperty::ListStyleType => true,
            CssProperty::Margin => false,
            CssProperty::MarginBlock => false,
            CssProperty::MarginBlockEnd => false,
            CssProperty::MarginBlockStart => false,
            CssProperty::MarginBottom => false,
            CssProperty::MarginBreak => false,
            CssProperty::MarginInline => false,
            CssProperty::MarginInlineEnd => false,
            CssProperty::MarginInlineStart => false,
            CssProperty::MarginLeft => false,
            CssProperty::MarginRight => false,
            CssProperty::MarginTop => false,
            CssProperty::MarginTrim => false,
            CssProperty::Marker => true,
            CssProperty::MarkerEnd => true,
            CssProperty::MarkerMid => true,
            CssProperty::MarkerSide => true,
            CssProperty::MarkerStart => true,
            CssProperty::Mask => false,
            CssProperty::MaskBorder => false,
            CssProperty::MaskBorderMode => false,
            CssProperty::MaskBorderOutset => false,
            CssProperty::MaskBorderRepeat => false,
            CssProperty::MaskBorderSlice => false,
            CssProperty::MaskBorderSource => false,
            CssProperty::MaskBorderWidth => false,
            CssProperty::MaskClip => false,
            CssProperty::MaskComposite => false,
            CssProperty::MaskImage => false,
            CssProperty::MaskMode => false,
            CssProperty::MaskOrigin => false,
            CssProperty::MaskPosition => false,
            CssProperty::MaskRepeat => false,
            CssProperty::MaskSize => false,
            CssProperty::MaskType => false,
            CssProperty::MathDepth => true,
            CssProperty::MathShift => true,
            CssProperty::MathStyle => true,
            CssProperty::MaxBlockSize => false,
            CssProperty::MaxHeight => false,
            CssProperty::MaxInlineSize => false,
            CssProperty::MaxLines => false,
            CssProperty::MaxWidth => false,
            CssProperty::MinBlockSize => false,
            _ => self.spec_inherited_from_500(),
        }
    }

    /// `spec_inherited` for the values from the 500-th on.
    pub open spec fn spec_inherited_from_500(&self) -> bool {
        match self {
            CssProperty::MinHeight => false,
            CssProperty::MinInlineSize => false,
            CssProperty::MinIntrinsicSizing => false,
            CssProperty::MinWidth => false,
            CssProperty::MixBlendMode => false,
            CssProperty::NavDown => false,
            CssProperty::NavLeft => false,
            CssProperty::NavRight => false,
            CssProperty::NavUp => false,
            CssProperty::ObjectFit => false,
            CssProperty::ObjectPosition => false,
            CssProperty::ObjectViewBox => false,
            CssProperty::Offset => false,
            CssProperty::OffsetAnchor => false,
            CssProperty::OffsetDistance => false,
            CssProperty::OffsetPath => false,
            CssProperty::OffsetPosition => false,
            CssProperty::OffsetRotate => false,
            CssProperty::Opacity => false,
            CssProperty::Order => false,
            CssProperty::Orphans => true,
            CssProperty::Outline => false,
            CssProperty::OutlineColor => false,
            CssProperty::OutlineOffset => false,
            CssProperty::OutlineStyle => false,
            CssProperty::OutlineWidth => false,
            CssProperty::Overflow => false,
            CssProperty::OverflowAnchor => false,
            CssProperty::OverflowBlock => false,
            CssProperty::OverflowClipMargin => false,
            CssProperty::OverflowClipMarginBlock => false,
            CssProperty::OverflowClipMarginBlockEnd => false,
            CssProperty::OverflowClipMarginBlockStart => false,
            CssProperty::OverflowClipMarginBottom => false,
            CssProperty::OverflowClipMarginInline => false,
            CssProperty::OverflowClipMarginInlineEnd => false,
            CssProperty::OverflowClipMarginInlineStart => false,
            CssProperty::OverflowClipMarginLeft => false,
            CssProperty::OverflowClipMarginRight => false,
            CssProperty::OverflowClipMarginTop => false,
            CssProperty::OverflowInline => false,
            CssProperty::OverflowWrap => true,
            CssProperty::OverflowX => false,
            CssProperty::OverflowY => false,
            CssProperty::Overlay => false,
            CssProperty::OverscrollBehavior => false,
            CssProperty::OverscrollBehaviorBlock => false,
            CssProperty::OverscrollBehaviorInline => false,
            CssProperty::OverscrollBehaviorX => false,
            CssProperty::OverscrollBehaviorY => false,
            CssProperty::Padding => false,
            CssProperty::PaddingBlock => false,
            CssProperty::PaddingBlockEnd => false,
            CssProperty::PaddingBlockStart => false,
            CssProperty::PaddingBottom => false,
            CssProperty::PaddingInline => false,
            CssProperty::PaddingInlineEnd => false,
            CssProperty::PaddingInlineStart => false,
            CssProperty::PaddingLeft => false,
            CssProperty::PaddingRight => false,
            CssProperty::PaddingTop => false,
            CssProperty::Page => false,
            CssProperty::PageBreakAfter => false,
            CssProperty::PageBreakBefore => false,
            CssProperty::PageBreakInside => false,
            CssProperty::PaintOrder => true,
            CssProperty::PathLength => false,
            CssProperty::Pause => false,
            CssProperty::PauseAfter => false,
            CssProperty::PauseBefore => false,
            CssProperty::Perspective => false,
            CssProperty::PerspectiveOrigin => false,
            CssProperty::PlaceContent => false,
            CssProperty::PlaceItems => false,
            CssProperty::PlaceSelf => false,
            CssProperty::PointerEvents => true,
            CssProperty::PointerTimeline => false,
            CssProperty::PointerTimelineAxis => false,
            CssProperty::PointerTimelineName => false,
            CssProperty::Position => false,
            CssProperty::PositionAnchor => false,
            CssProperty::PositionArea => false,
            CssProperty::PositionTry => false,
            CssProperty::PositionTryFallbacks => false,
            CssProperty::PositionTryOrder => false,
            CssProperty::PositionVisibility => false,
            CssProperty::PrintColorAdjust => true,
            CssProperty::Quotes => true,
            CssProperty::R => false,
            CssProperty::ReadingFlow => false,
            CssProperty::ReadingOrder => false,
            CssProperty::RegionFragment => false,
            CssProperty::Resize => false,
            CssProperty::Rest => false,
            CssProperty::RestAfter => false,
            CssProperty::RestBefore => false,
            CssProperty::Right => false,
            CssProperty::Rotate => false,
            CssProperty::RowGap => false,
            CssProperty::RowRule => false,
            _ => self.spec_inherited_from_600(),
        }
    }

    /// `spec_inherited` for the values from the 600-th on.
    pub open spec fn spec_inherited_from_600(&self) -> bool {
        match self {
            CssProperty::RowRuleBreak => false,
            CssProperty::RowRuleColor => false,
            CssProperty::RowRuleInset => false,
            CssProperty::RowRuleInsetCap => false,
            CssProperty::RowRuleInsetCapEnd => false,
            CssProperty::RowRuleInsetCapStart => false,
            CssProperty::RowRuleInsetEnd => false,
            CssProperty::RowRuleInsetJunction => false,
            CssProperty::RowRuleInsetJunctionEnd => false,
            CssProperty::RowRuleInsetJunctionStart => false,
            CssProperty::RowRuleInsetStart => false,
            CssProperty::RowRuleStyle => false,
            CssProperty::RowRuleVisibilityItems => false,
            CssProperty::RowRuleWidth => false,
            CssProperty::RubyAlign => true,
            CssProperty::RubyMerge => true,
            CssProperty::RubyOverhang => true,
            CssProperty::RubyPosition => true,
            CssProperty::Rule => false,
            CssProperty::RuleBreak => false,
            CssProperty::RuleColor => false,
            CssProperty::RuleInset => false,
            CssProperty::RuleInsetCap => false,
            CssProperty::RuleInsetEnd => false,
            CssProperty::RuleInsetJunction => false,
            CssProperty::RuleInsetStart => false,
            CssProperty::RuleOverlap => false,
            CssProperty::RuleStyle => false,
            CssProperty::RuleVisibilityItems => false,
            CssProperty::RuleWidth => false,
            CssProperty::Rx => false,
            CssProperty::Ry => false,
            CssProperty::Scale => false,
            CssProperty::ScrollBehavior => false,
            CssProperty::ScrollInitialTarget => false,
            CssProperty::ScrollMargin => false,
            CssProperty::ScrollMarginBlock => false,
            CssProperty::ScrollMarginBlockEnd => false,
            CssProperty::ScrollMarginBlockStart => false,
            CssProperty::ScrollMarginBottom => false,
            CssProperty::ScrollMarginInline => false,
            CssProperty::ScrollMarginInlineEnd => false,
            CssProperty::ScrollMarginInlineStart => false,
            CssProperty::ScrollMarginLeft => false,
            CssProperty::ScrollMarginRight => false,
            CssProperty::ScrollMarginTop => false,
            CssProperty::ScrollMarkerGroup => false,
            CssProperty::ScrollPadding => false,
            CssProperty::ScrollPaddingBlock => false,
            CssProperty::ScrollPaddingBlockEnd => false,
            CssProperty::ScrollPaddingBlockStart => false,
            CssProperty::ScrollPaddingBottom => false,
            CssProperty::ScrollPaddingInline => false,
            CssProperty::ScrollPaddingInlineEnd => false,
            CssProperty::ScrollPaddingInlineStart => false,
            CssProperty::ScrollPaddingLeft => false,
            CssProperty::ScrollPaddingRight => false,
            CssProperty::ScrollPaddingTop => false,
            CssProperty::ScrollSnapAlign => false,
            CssProperty::ScrollSnapStop => false,
            CssProperty::ScrollSnapType => false,
            CssProperty::ScrollTargetGroup => false,
            CssProperty::ScrollTimeline => false,
            CssProperty::ScrollTimelineAxis => false,
            CssProperty::ScrollTimelineName => false,
            CssProperty::ScrollbarColor => true,
            CssProperty::ScrollbarGutter => false,
            CssProperty::ScrollbarInset => false,
            CssProperty::ScrollbarMinThumbSize => false,
            CssProperty::ScrollbarMode => false,
            CssProperty::ScrollbarWidth => false,
            CssProperty::ShapeImageThreshold => false,
            CssProperty::ShapeInside => false,
            CssProperty::ShapeMargin => false,
            CssProperty::ShapeOutside => false,
            CssProperty::ShapePadding => false,
            CssProperty::ShapeRendering => true,
            CssProperty::SliderOrientation => false,
            CssProperty::SpatialNavigationAction => false,
            CssProperty::SpatialNavigationContain => false,
            CssProperty::SpatialNavigationFunction => false,
            CssProperty::Speak => true,
            CssProperty::SpeakAs => true,
            CssProperty::StopColor => false,
            CssProperty::StopOpacity => false,
            CssProperty::StringSet => false,
            CssProperty::Stroke => true,
            CssProperty::StrokeAlign => true,
            CssProperty::StrokeAlignment => true,
            CssProperty::StrokeBreak => false,
            CssProperty::StrokeColor => true,
            CssProperty::StrokeDashCornerPropdefStrokeDashCorner => true,
            CssProperty::StrokeDashJustify => true,
            CssProperty::StrokeDashadjust => true,
            CssProperty::StrokeDasharray => true,
            CssProperty::StrokeDashcornerStrokedashcornerproperty => true,
            CssProperty::StrokeDashoffset => true,
            CssProperty::StrokeImage => true,
            CssProperty::StrokeLinecap => true,
            CssProperty::StrokeLinejoin => true,
            _ => self.spec_inherited_from_700(),
        }
    }

    /// `spec_inherited` for the values from the 700-th on.
    pub open spec fn spec_inherited_from_700(&self) -> bool {
        match self {
            CssProperty::StrokeMiterlimit => true,
            CssProperty::StrokeOpacity => true,
            CssProperty::StrokeOrigin => false,
            CssProperty::StrokePosition => true,
            CssProperty::StrokeRepeat => true,
            CssProperty::StrokeSize => true,
            CssProperty::StrokeWidth => true,
            CssProperty::TabSize => true,
            CssProperty::TableLayout => false,
            CssProperty::TextAlign => true,
            CssProperty::TextAlignAll => true,
            CssProperty::TextAlignLast => true,
            CssProperty::TextAnchor => true,
            CssProperty::TextAutospace => true,
            CssProperty::TextBox => false,
            CssProperty::TextBoxEdge => true,
            CssProperty::TextBoxTrim => false,
            CssProperty::TextCombineUpright => true,
            CssProperty::TextDecoration => false,
            CssProperty::TextDecorationColor => false,
            CssProperty::TextDecorationInset => false,
            CssProperty::TextDecorationLine => false,
            CssProperty::TextDecorationSkip => true,
            CssProperty::TextDecorationSkipBox => true,
            CssProperty::TextDecorationSkipInk => true,
            CssProperty::TextDecorationSkipSelf => false,
            CssProperty::TextDecorationSkipSpaces => true,
            CssProperty::TextDecorationStyle => false,
            CssProperty::TextDecorationThickness => false,
            CssProperty::TextEmphasis => false,
            CssProperty::TextEmphasisColor => true,
            CssProperty::TextEmphasisPosition => true,
            CssProperty::TextEmphasisSkip => true,
            CssProperty::TextEmphasisStyle => true,
            CssProperty::TextFit => false,
            CssProperty::TextGroupAlign => false,
            CssProperty::TextIndent => true,
            CssProperty::TextJustify => true,
            CssProperty::TextOrientation => true,
            CssProperty::TextOverflow => false,
            CssProperty::TextRendering => true,
            CssProperty::TextShadow => true,
            CssProperty::TextSizeAdjust => true,
            CssProperty::TextSpacing => true,
            CssProperty::TextSpacingTrim => true,
            CssProperty::TextTransform => true,
            CssProperty::TextUnderlineOffset => true,
            CssProperty::TextUnderlinePosition => true,
            CssProperty::TextWrap => false,
            CssProperty::TextWrapMode => true,
            CssProperty::TextWrapStyle => true,
            CssProperty::TimelineScope => false,
            CssProperty::TimelineTrigger => false,
            CssProperty::TimelineTriggerActivationRange => false,
            CssProperty::TimelineTriggerActivationRangeEnd => false,
            CssProperty::TimelineTriggerActivationRangeStart => false,
            CssProperty::TimelineTriggerActiveRange => false,
            CssProperty::TimelineTriggerActiveRangeEnd => false,
            CssProperty::TimelineTriggerActiveRangeStart => false,
            CssProperty::TimelineTriggerName => false,
            CssProperty::TimelineTriggerSource => false,
            CssProperty::Top => false,
            CssProperty::TouchAction => false,
            CssProperty::Transform => false,
            CssProperty::TransformBox => false,
            CssProperty::TransformOrigin => false,
            CssProperty::TransformStyle => false,
            CssProperty::Transition => false,
            CssProperty::TransitionBehavior => false,
            CssProperty::TransitionDelay => false,
            CssProperty::TransitionDuration => false,
            CssProperty::TransitionProperty => false,
            CssProperty::TransitionTimingFunction => false,
            CssProperty::Translate => false,
            CssProperty::TriggerScope => false,
            CssProperty::UnicodeBidi => false,
            CssProperty::UserSelect => false,
            CssProperty::VectorEffect => false,
            CssProperty::VerticalAlign => false,
            CssProperty::ViewTimeline => false,
            CssProperty::ViewTimelineAxis => false,
            CssProperty::ViewTimelineInset => false,
            CssProperty::ViewTimelineName => false,
            CssProperty::ViewTransitionClass => false,
            CssProperty::ViewTransitionGroup => false,
            CssProperty::ViewTransitionName => false,
            CssProperty::ViewTransitionScope => false,
            CssProperty::Visibility => true,
            CssProperty::VoiceBalance => true,
            CssProperty::VoiceDuration => false,
            CssProperty::VoiceFamily => true,
            CssProperty::VoicePitch => true,
            CssProperty::VoiceRange => true,
            CssProperty::VoiceRate => true,
            CssProperty::VoiceStress => true,
            CssProperty::VoiceVolume => true,
            CssProperty::WhiteSpace => true,
            CssProperty::WhiteSpaceCollapse => true,
            CssProperty::WhiteSpaceTrim => false,
            CssProperty::Widows => true,
            _ => self.spec_inherited_from_800(),
        }
    }

    /// `spec_inherited` for the values from the 800-th on.
    pub open spec fn spec_inherited_from_800(&self) -> bool {
        match self {
            CssProperty::Width => false,
            CssProperty::WillChange => false,
            CssProperty::WordBreak => true,
            CssProperty::WordSpaceTransform => true,
            CssProperty::WordSpacing => true,
            CssProperty::WordWrap => true,
            CssProperty::WrapAfter => false,
            CssProperty::WrapBefore => false,
            CssProperty::WrapFlow => false,
            CssProperty::WrapInside => false,
            CssProperty::WrapThrough => false,
            CssProperty::WritingMode => true,
            CssProperty::X => false,
            CssProperty::Y => false,
            CssProperty::ZIndex => false,
            CssProperty::Zoom => false,
            CssProperty::Unknown(_) => false,
            _ => false,
        }
    }

    /// The value syntax of the property; empty for an unknown property.
    pub fn syntax(self) -> (r: &'static str)
        ensures
            r@ == self.spec_syntax(),
    {
        match self {
            CssProperty::WebkitAlignContent => "normal | <baseline-position> | <content-distribution> | <overflow-position>? <content-position>",
            CssProperty::WebkitAlignItems => "normal | stretch | <baseline-position> | <overflow-position>? <self-position>",
            CssProperty::WebkitAlignSelf => "auto | <overflow-position>? [ normal | <self-position> ]| stretch | <baseline-position>",
            CssProperty::WebkitAnimation => "<single-animation>#",
            CssProperty::WebkitAnimationDelay => "<time>#",
            CssProperty::WebkitAnimationDirection => "<single-animation-direction>#",
            CssProperty::WebkitAnimationDuration => "<time [0s,∞]>#",
            CssProperty::WebkitAnimationFillMode => "<single-animation-fill-mode>#",
            CssProperty::WebkitAnimationIterationCount => "<single-animation-iteration-count>#",
            CssProperty::WebkitAnimationName => "[ none | <keyframes-name> ]#",
            CssProperty::WebkitAnimationPlayState => "<single-animation-play-state>#",
            CssProperty::WebkitAnimationTimingFunction => "<easing-function>#",
            CssProperty::WebkitAppearance => "none | auto | base | base-select | <compat-auto> | <compat-special> | base",
            CssProperty::WebkitBackfaceVisibility => "visible | hidden",
            CssProperty::WebkitBackgroundClip => "<visual-box>#",
            CssProperty::WebkitBackgroundOrigin => "<visual-box>#",
            CssProperty::WebkitBackgroundSize => "<bg-size>#",
            CssProperty::WebkitBorderBottomLeftRadius => "<border-radius>",
            CssProperty::WebkitBorderBottomRightRadius => "<border-radius>",
            CssProperty::WebkitBorderRadius => "<length-percentage [0,∞]>{1,4} [ / <length-percentage [0,∞]>{1,4} ]?",
            CssProperty::WebkitBorderTopLeftRadius => "<border-radius>",
            CssProperty::WebkitBorderTopRightRadius => "<border-radius>",
            CssProperty::WebkitBoxAlign => "",
            CssProperty::WebkitBoxFlex => "",
            CssProperty::WebkitBoxOrdinalGroup => "",
            CssProperty::WebkitBoxOrient => "",
            CssProperty::WebkitBoxPack => "",
            CssProperty::WebkitBoxShadow => "<spread-shadow>#",
            CssProperty::WebkitBoxSizing => "content-box | border-box",
            CssProperty::WebkitFilter => "none | <filter-value-list>",
            CssProperty::WebkitFlex => "none | [ <'flex-grow'> <'flex-shrink'>? || <'flex-basis'> ]",
            CssProperty::WebkitFlexBasis => "content | <'width'>",
            CssProperty::WebkitFlexDirection => "row | row-reverse | column | column-reverse",
            CssProperty::WebkitFlexFlow => "<'flex-direction'> || <'flex-wrap'>",
            CssProperty::WebkitFlexGrow => "<number [0,∞]>",
            CssProperty::WebkitFlexShrink => "<number [0,∞]>",
            CssProperty::WebkitFlexWrap => "nowrap | wrap | wrap-reverse",
            CssProperty::WebkitJustifyContent => "normal | <content-distribution> | <overflow-position>? [ <content-position> | left | right ]",
            CssProperty::WebkitLineClamp => "none | <integer [1,∞]>",
            CssProperty::WebkitMask => "<mask-layer>#",
            CssProperty::WebkitMaskBoxImage => "<'mask-border-source'> || <'mask-border-slice'> [ / <'mask-border-width'>? [ / <'mask-border-outset'> ]? ]? || <'mask-border-repeat'> || <'mask-border-mode'>",
            CssProperty::WebkitMaskBoxImageOutset => "<'border-image-outset'>",
            CssProperty::WebkitMaskBoxImageRepeat => "<'border-image-repeat'>",
            CssProperty::WebkitMaskBoxImageSlice => "<'border-image-slice'>",
            CssProperty::WebkitMaskBoxImageSource => "<'border-image-source'>",
            CssProperty::WebkitMaskBoxImageWidth => "<'border-image-width'>",
            CssProperty::WebkitMaskClip => "[ <coord-box> | no-clip ]#",
            CssProperty::WebkitMaskComposite => "<compositing-operator>#",
            CssProperty::WebkitMaskImage => "<mask-reference>#",
            CssProperty::WebkitMaskOrigin => "<coord-box>#",
            CssProperty::WebkitMaskPosition => "<position>#",
            CssProperty::WebkitMaskRepeat => "<repeat-style>#",
            CssProperty::WebkitMaskSize => "<bg-size>#",
            CssProperty::WebkitOrder => "<integer>",
            CssProperty::WebkitPerspective => "none | <length [0,∞]>",
            CssProperty::WebkitPerspectiveOrigin => "<position>",
            CssProperty::WebkitTextFillColor => "<color>",
            CssProperty::WebkitTextSizeAdjust => "auto | none | <percentage [0,∞]>",
            CssProperty::WebkitTextStroke => "<line-width> || <color>",
            CssProperty::WebkitTextStrokeColor => "<color>",
            CssProperty::WebkitTextStrokeWidth => "<line-width>",
            CssProperty::WebkitTransform => "none | <transform-list>",
            CssProperty::WebkitTransformOrigin => "[ left | center | right | top | bottom | <length-percentage> ] | [ left | center | right | <length-percentage> ] [ top | center | bottom | <length-percentage> ] <length>? | [ [ center | left | right ] && [ center | top | bottom ] ] <length>?",
            CssProperty::WebkitTransformStyle => "flat | preserve-3d",
            CssProperty::WebkitTransition => "<single-transition>#",
            CssProperty::WebkitTransitionDelay => "<time>#",
            CssProperty::WebkitTransitionDuration => "<time [0s,∞]>#",
            CssProperty::WebkitTransitionProperty => "none | <single-transition-property>#",
            CssProperty::WebkitTransitionTimingFunction => "<easing-function>#",
            CssProperty::WebkitUserSelect => "auto | text | none | contain | all",
            CssProperty::AccentColor => "auto | <color>",
            CssProperty::AlignContent => "normal | <baseline-position> | <content-distribution> | <overflow-position>? <content-position>",
            CssProperty::AlignItems => "normal | stretch | <baseline-position> | <overflow-position>? <self-position>",
            CssProperty::AlignSelf => "auto | <overflow-position>? [ normal | <self-position> ]| stretch | <baseline-position> | anchor-center",
            CssProperty::AlignmentBaseline => "baseline | <baseline-metric>",
            CssProperty::All => "initial | inherit | unset | revert | revert-layer | revert-rule",
            CssProperty::AnchorName => "none | <anchor-name>#",
            CssProperty::AnchorScope => "none | all | <anchor-name>#",
            CssProperty::Animation => "<single-animation>#",
            CssProperty::AnimationComposition => "<single-animation-composition>#",
            CssProperty::AnimationDelay => "<time>#",
            CssProperty::AnimationDirection => "<single-animation-direction>#",
            CssProperty::AnimationDuration => "[ auto | <time [0s,∞]> ]#",
            CssProperty::AnimationFillMode => "<single-animation-fill-mode>#",
            CssProperty::AnimationIterationCount => "<single-animation-iteration-count>#",
            CssProperty::AnimationName => "[ none | <keyframes-name> ]#",
            CssProperty::AnimationPlayState => "<single-animation-play-state>#",
            CssProperty::AnimationRange => "[ <'animation-range-start'> <'animation-range-end'>? ]#",
            CssProperty::AnimationRangeCenter => "[ normal | [ <length-percentage> | <timeline-range-center-subject> <length-percentage>? ] ]#",
            CssProperty::AnimationRangeEnd => "[ normal | <length-percentage> | <timeline-range-name> <length-percentage>? ]#",
            CssProperty::AnimationRangeStart => "[ normal | <length-percentage> | <timeline-range-name> <length-percentage>? ]#",
            CssProperty::AnimationTimeline => "<single-animation-timeline>#",
            CssProperty::AnimationTimingFunction => "<easing-function>#",
            CssProperty::AnimationTrigger => "[ none | [ <dashed-ident> <animation-action>+ ]+ ]#",
            CssProperty::Appearance => "none | auto | base | base-select | <compat-auto> | <compat-special> | base",
            CssProperty::AspectRatio => "auto || <ratio>",
            CssProperty::BackdropFilter => "none | <filter-value-list>",
            CssProperty::BackfaceVisibility => "visible | hidden",
            CssProperty::Background => "<bg-layer>#? , <final-bg-layer>",
            CssProperty::BackgroundAttachment => "<attachment>#",
            _ => self.syntax_from_100(),
        }
    }

    fn syntax_from_100(&self) -> (r: &'static str)
        ensures
            r@ == self.spec_syntax_from_100(),
    {
        match self {
            CssProperty::BackgroundBlendMode => "<'mix-blend-mode'>#",
            CssProperty::BackgroundClip => "<bg-clip>#",
            CssProperty::BackgroundColor => "<color>",
            CssProperty::BackgroundImage => "<bg-image>#",
            CssProperty::BackgroundOrigin => "<visual-box>#",
            CssProperty::BackgroundPosition => "<bg-position>#",
            CssProperty::BackgroundPositionBlock => "[ center | [ [ start | end ]? <length-percentage>? ]! ]#",
            CssProperty::BackgroundPositionInline => "[ center | [ [ start | end ]? <length-percentage>? ]! ]#",
            CssProperty::BackgroundPositionX => "[ center | [ [ left | right | x-start | x-end ]? <length-percentage>? ]! ]#",
            CssProperty::BackgroundPositionY => "[ center | [ [ top | bottom | y-start | y-end ]? <length-percentage>? ]! ]#",
            CssProperty::BackgroundRepeat => "<repeat-style>#",
            CssProperty::BackgroundRepeatBlock => "<repetition>#",
            CssProperty::BackgroundRepeatInline => "<repetition>#",
            CssProperty::BackgroundRepeatX => "<repetition>#",
            CssProperty::BackgroundRepeatY => "<repetition>#",
            CssProperty::BackgroundSize => "<bg-size>#",
            CssProperty::BackgroundTbd => "<bg-layer>#",
            CssProperty::BaselineShift => "<length-percentage> | sub | super | top | center | bottom",
            CssProperty::BaselineSource => "auto | first | last",
            CssProperty::BlockEllipsis => "no-ellipsis | auto | <string>",
            CssProperty::BlockSize => "<'width'>",
            CssProperty::BlockStep => "<'block-step-size'> || <'block-step-insert'> || <'block-step-align'> || <'block-step-round'>",
            CssProperty::BlockStepAlign => "auto | center | start | end",
            CssProperty::BlockStepInsert => "margin-box | padding-box | content-box",
            CssProperty::BlockStepRound => "up | down | nearest",
            CssProperty::BlockStepSize => "none | <length [0,∞]>",
            CssProperty::BookmarkLabel => "<content-list>",
            CssProperty::BookmarkLevel => "none | <integer [1,∞]>",
            CssProperty::BookmarkState => "open | closed",
            CssProperty::Border => "<line-width> || <line-style> || <color>",
            CssProperty::BorderBlock => "<'border-block-start'>",
            CssProperty::BorderBlockClip => "<'border-top-clip'>",
            CssProperty::BorderBlockColor => "<'border-top-color'>{1,2}",
            CssProperty::BorderBlockEnd => "<line-width> || <line-style> || <color>",
            CssProperty::BorderBlockEndClip => "none | [ <length-percentage [0,∞]> | <flex> ]+",
            CssProperty::BorderBlockEndColor => "<color> | <image-1D>",
            CssProperty::BorderBlockEndRadius => "<length-percentage [0,∞]>{1,2} [ / <length-percentage [0,∞]>{1,2} ]?",
            CssProperty::BorderBlockEndStyle => "<line-style>",
            CssProperty::BorderBlockEndWidth => "<line-width>",
            CssProperty::BorderBlockStart => "<line-width> || <line-style> || <color>",
            CssProperty::BorderBlockStartClip => "none | [ <length-percentage [0,∞]> | <flex> ]+",
            CssProperty::BorderBlockStartColor => "<color> | <image-1D>",
            CssProperty::BorderBlockStartRadius => "<length-percentage [0,∞]>{1,2} [ / <length-percentage [0,∞]>{1,2} ]?",
            CssProperty::BorderBlockStartStyle => "<line-style>",
            CssProperty::BorderBlockStartWidth => "<line-width>",
            CssProperty::BorderBlockStyle => "<'border-top-style'>{1,2}",
            CssProperty::BorderBlockWidth => "<'border-top-width'>{1,2}",
            CssProperty::BorderBottom => "<line-width> || <line-style> || <color>",
            CssProperty::BorderBottomClip => "none | [ <length-percentage [0,∞]> | <flex> ]+",
            CssProperty::BorderBottomColor => "<color> | <image-1D>",
            CssProperty::BorderBottomLeftRadius => "<border-radius>",
            CssProperty::BorderBottomRadius => "<length-percentage [0,∞]>{1,2} [ / <length-percentage [0,∞]>{1,2} ]?",
            CssProperty::BorderBottomRightRadius => "<border-radius>",
            CssProperty::BorderBottomStyle => "<line-style>",
            CssProperty::BorderBottomWidth => "<line-width>",
            CssProperty::BorderBoundary => "none | parent | display",
            CssProperty::BorderClip => "<'border-top-clip'>",
            CssProperty::BorderCollapse => "separate | collapse",
            CssProperty::BorderColor => "[ <color> | <image-1D> ]{1,4}",
            CssProperty::BorderEndEndRadius => "<border-radius>",
            CssProperty::BorderEndStartRadius => "<border-radius>",
            CssProperty::BorderImage => "<'border-image-source'> || <'border-image-slice'> [ / <'border-image-width'> | / <'border-image-width'>? / <'border-image-outset'> ]? || <'border-image-repeat'>",
            CssProperty::BorderImageOutset => "[ <length [0,∞]> | <number [0,∞]> ]{1,4}",
            CssProperty::BorderImageRepeat => "[ stretch | repeat | round | space ]{1,2}",
            CssProperty::BorderImageSlice => "[<number [0,∞]> | <percentage [0,∞]>]{1,4} && fill?",
            CssProperty::BorderImageSource => "none | <image>",
            CssProperty::BorderImageWidth => "[ <length-percentage [0,∞]> | <number [0,∞]> | auto ]{1,4}",
            CssProperty::BorderInline => "<'border-block-start'>",
            CssProperty::BorderInlineClip => "<'border-top-clip'>",
            CssProperty::BorderInlineColor => "<'border-top-color'>{1,2}",
            CssProperty::BorderInlineEnd => "<line-width> || <line-style> || <color>",
            CssProperty::BorderInlineEndClip => "none | [ <length-percentage [0,∞]> | <flex> ]+",
            CssProperty::BorderInlineEndColor => "<color> | <image-1D>",
            CssProperty::BorderInlineEndRadius => "<length-percentage [0,∞]>{1,2} [ / <length-percentage [0,∞]>{1,2} ]?",
            CssProperty::BorderInlineEndStyle => "<line-style>",
            CssProperty::BorderInlineEndWidth => "<line-width>",
            CssProperty::BorderInlineStart => "<line-width> || <line-style> || <color>",
            CssProperty::BorderInlineStartClip => "none | [ <length-percentage [0,∞]> | <flex> ]+",
            CssProperty::BorderInlineStartColor => "<color> | <image-1D>",
            CssProperty::BorderInlineStartRadius => "<length-percentage [0,∞]>{1,2} [ / <length-percentage [0,∞]>{1,2} ]?",
            CssProperty::BorderInlineStartStyle => "<line-style>",
            CssProperty::BorderInlineStartWidth => "<line-width>",
            CssProperty::BorderInlineStyle => "<'border-top-style'>{1,2}",
            CssProperty::BorderInlineWidth => "<'border-top-width'>{1,2}",
            CssProperty::BorderLeft => "<line-width> || <line-style> || <color>",
            CssProperty::BorderLeftClip => "none | [ <length-percentage [0,∞]> | <flex> ]+",
            CssProperty::BorderLeftColor => "<color> | <image-1D>",
            CssProperty::BorderLeftRadius => "<length-percentage [0,∞]>{1,2} [ / <length-percentage [0,∞]>{1,2} ]?",
            CssProperty::BorderLeftStyle => "<line-style>",
            CssProperty::BorderLeftWidth => "<line-width>",
            CssProperty::BorderLimit => "all | [ sides | corners ] <length-percentage [0,∞]>? | [ top | right | bottom | left ] <length-percentage [0,∞]>",
            CssProperty::BorderRadius => "<length-percentage [0,∞]>{1,4} [ / <length-percentage [0,∞]>{1,4} ]?",
            CssProperty::BorderRight => "<line-width> || <line-style> || <color>",
            CssProperty::BorderRightClip => "none | [ <length-percentage [0,∞]> | <flex> ]+",
            CssProperty::BorderRightColor => "<color> | <image-1D>",
            CssProperty::BorderRightRadius => "<length-percentage [0,∞]>{1,2} [ / <length-percentage [0,∞]>{1,2} ]?",
            CssProperty::BorderRightStyle => "<line-style>",
            CssProperty::BorderRightWidth => "<line-width>",
            CssProperty::BorderShape => "none | [ <basic-shape> <geometry-box>?]{1,2}",
            CssProperty::BorderSpacing => "<length [0,∞]>{1,2}",
            _ => self.syntax_from_200(),
        }
    }

    fn syntax_from_200(&self) -> (r: &'static str)
        ensures
            r@ == self.spec_syntax_from_200(),
    {
        match self {
            CssProperty::BorderStartEndRadius => "<border-radius>",
            CssProperty::BorderStartStartRadius => "<border-radius>",
            CssProperty::BorderStyle => "<'border-top-style'>{1,4}",
            CssProperty::BorderTop => "<line-width> || <line-style> || <color>",
            CssProperty::BorderTopClip => "none | [ <length-percentage [0,∞]> | <flex> ]+",
            CssProperty::BorderTopColor => "<color> | <image-1D>",
            CssProperty::BorderTopLeftRadius => "<border-radius>",
            CssProperty::BorderTopRadius => "<length-percentage [0,∞]>{1,2} [ / <length-percentage [0,∞]>{1,2} ]?",
            CssProperty::BorderTopRightRadius => "<border-radius>",
            CssProperty::BorderTopStyle => "<line-style>",
            CssProperty::BorderTopWidth => "<line-width>",
            CssProperty::BorderWidth => "<'border-top-width'>{1,4}",
            CssProperty::Bottom => "auto | <length-percentage> | <anchor()> | <anchor-size()>",
            CssProperty::BoxDecorationBreak => "slice | clone",
            CssProperty::BoxShadow => "<spread-shadow>#",
            CssProperty::BoxShadowBlur => "<length [0,∞]>#",
            CssProperty::BoxShadowColor => "<color>#",
            CssProperty::BoxShadowOffset => "[ none | <length>{1,2} ]#",
            CssProperty::BoxShadowPosition => "[ outset | inset ]#",
            CssProperty::BoxShadowSpread => "<length>#",
            CssProperty::BoxSizing => "content-box | border-box",
            CssProperty::BoxSnap => "none | block-start | block-end | center | baseline | last-baseline",
            CssProperty::BreakAfter => "auto | avoid | always | all | avoid-page | page | left | right | recto | verso | avoid-column | column | avoid-region | region",
            CssProperty::BreakBefore => "auto | avoid | always | all | avoid-page | page | left | right | recto | verso | avoid-column | column | avoid-region | region",
            CssProperty::BreakInside => "auto | avoid | avoid-page | avoid-column | avoid-region",
            CssProperty::CaptionSide => "top | bottom",
            CssProperty::Caret => "<'caret-color'> || <'caret-animation'> || <'caret-shape'>",
            CssProperty::CaretAnimation => "auto | manual",
            CssProperty::CaretColor => "auto | <color> [auto | <color>]?",
            CssProperty::CaretShape => "auto | bar | block | underscore",
            CssProperty::Clear => "inline-start | inline-end | block-start | block-end | left | right | top | bottom | both-inline | both-block | both | none",
            CssProperty::Clip => "<rect()> | auto",
            CssProperty::ClipPath => "<clip-source> | [ <basic-shape> || <geometry-box> ] | none",
            CssProperty::ClipRule => "nonzero | evenodd",
            CssProperty::Color => "<color>",
            CssProperty::ColorAdjust => "<'print-color-adjust'>",
            CssProperty::ColorInterpolation => "auto | sRGB | linearRGB",
            CssProperty::ColorInterpolationFilters => "auto | sRGB | linearRGB",
            CssProperty::ColorScheme => "normal | [ light | dark | <custom-ident> ]+ && only?",
            CssProperty::ColumnCount => "auto | <integer [1,∞]>",
            CssProperty::ColumnFill => "auto | balance | balance-all",
            CssProperty::ColumnGap => "normal | <length-percentage [0,∞]> | <line-width>",
            CssProperty::ColumnHeight => "auto | <length [0,∞]>",
            CssProperty::ColumnRule => "<gap-rule-list> | <gap-auto-rule-list>",
            CssProperty::ColumnRuleBreak => "none | normal | intersection",
            CssProperty::ColumnRuleColor => "<line-color-list> | <auto-line-color-list>",
            CssProperty::ColumnRuleInset => "<'column-rule-inset-cap'> [ / <'column-rule-inset-junction'> ]?",
            CssProperty::ColumnRuleInsetCap => "<length-percentage> [ <length-percentage> ]?",
            CssProperty::ColumnRuleInsetCapEnd => "<length-percentage>",
            CssProperty::ColumnRuleInsetCapStart => "<length-percentage>",
            CssProperty::ColumnRuleInsetEnd => "<length-percentage>",
            CssProperty::ColumnRuleInsetJunction => "<length-percentage> [ <length-percentage> ]?",
            CssProperty::ColumnRuleInsetJunctionEnd => "<length-percentage>",
            CssProperty::ColumnRuleInsetJunctionStart => "<length-percentage>",
            CssProperty::ColumnRuleInsetStart => "<length-percentage>",
            CssProperty::ColumnRuleStyle => "<line-style-list> | <auto-line-style-list>",
            CssProperty::ColumnRuleVisibilityItems => "all | around | between | normal",
            CssProperty::ColumnRuleWidth => "<line-width-list> | <auto-line-width-list>",
            CssProperty::ColumnSpan => "none | <integer [1,∞]> | all | auto",
            CssProperty::ColumnWidth => "auto | <length [0,∞]> | min-content | max-content | fit-content(<length-percentage>)",
            CssProperty::ColumnWrap => "auto | nowrap | wrap",
            CssProperty::Columns => "[ <'column-width'> || <'column-count'> ] [ / <'column-height'> ]?",
            CssProperty::Contain => "none | strict | content | [ [size | inline-size] || layout || style || paint ]",
            CssProperty::ContainIntrinsicBlockSize => "auto? [ none | <length [0,∞]> ]",
            CssProperty::ContainIntrinsicHeight => "auto? [ none | <length [0,∞]> ]",
            CssProperty::ContainIntrinsicInlineSize => "auto? [ none | <length [0,∞]> ]",
            CssProperty::ContainIntrinsicSize => "[ auto? [ none | <length [0,∞]> ] ]{1,2}",
            CssProperty::ContainIntrinsicWidth => "auto? [ none | <length [0,∞]> ]",
            CssProperty::Container => "<'container-name'> [ / <'container-type'> ]?",
            CssProperty::ContainerName => "none | <custom-ident>+",
            CssProperty::ContainerType => "normal | [ [ size | inline-size ] || scroll-state ]",
            CssProperty::Content => "normal | none | [ <content-replacement> | <content-list> ] [/ [ <string> | <counter> | <attr()> ]+ ]? | <element()>",
            CssProperty::ContentVisibility => "visible | auto | hidden",
            CssProperty::Continue => "auto | discard | collapse | -webkit-legacy | overflow | paginate | fragments",
            CssProperty::CopyInto => "none | [ [ <custom-ident> <content-level>] [, <custom-ident> <content-level>]* ]?",
            CssProperty::Corner => "<'border-radius'> || <'corner-shape'>",
            CssProperty::CornerBlockEnd => "<'border-top-radius'> || <'corner-top-shape'>",
            CssProperty::CornerBlockEndShape => "<'corner-top-left-shape'>{1,2}",
            CssProperty::CornerBlockStart => "<'border-top-radius'> || <'corner-top-shape'>",
            CssProperty::CornerBlockStartShape => "<'corner-top-left-shape'>{1,2}",
            CssProperty::CornerBottom => "<'border-top-radius'> || <'corner-top-shape'>",
            CssProperty::CornerBottomLeft => "<'border-top-left-radius'> || <'corner-top-left-shape'>",
            CssProperty::CornerBottomLeftShape => "<corner-shape-value>",
            CssProperty::CornerBottomRight => "<'border-top-left-radius'> || <'corner-top-left-shape'>",
            CssProperty::CornerBottomRightShape => "<corner-shape-value>",
            CssProperty::CornerBottomShape => "<'corner-top-left-shape'>{1,2}",
            CssProperty::CornerEndEnd => "<'border-top-left-radius'> || <'corner-top-left-shape'>",
            CssProperty::CornerEndEndShape => "<corner-shape-value>",
            CssProperty::CornerEndStart => "<'border-top-left-radius'> || <'corner-top-left-shape'>",
            CssProperty::CornerEndStartShape => "<corner-shape-value>",
            CssProperty::CornerInlineEnd => "<'border-top-radius'> || <'corner-top-shape'>",
            CssProperty::CornerInlineEndShape => "<'corner-top-left-shape'>{1,2}",
            CssProperty::CornerInlineStart => "<'border-top-radius'> || <'corner-top-shape'>",
            CssProperty::CornerInlineStartShape => "<'corner-top-left-shape'>{1,2}",
            CssProperty::CornerLeft => "<'border-top-radius'> || <'corner-top-shape'>",
            CssProperty::CornerLeftShape => "<'corner-top-left-shape'>{1,2}",
            CssProperty::CornerRight => "<'border-top-radius'> || <'corner-top-shape'>",
            CssProperty::CornerRightShape => "<'corner-top-left-shape'>{1,2}",
            CssProperty::CornerShape => "<'corner-top-left-shape'>{1,4}",
            CssProperty::CornerStartEnd => "<'border-top-left-radius'> || <'corner-top-left-shape'>",
            _ => self.syntax_from_300(),
        }
    }

    fn syntax_from_300(&self) -> (r: &'static str)
        ensures
            r@ == self.spec_syntax_from_300(),
    {
        match self {
            CssProperty::CornerStartEndShape => "<corner-shape-value>",
            CssProperty::CornerStartStart => "<'border-top-left-radius'> || <'corner-top-left-shape'>",
            CssProperty::CornerStartStartShape => "<corner-shape-value>",
            CssProperty::CornerTop => "<'border-top-radius'> || <'corner-top-shape'>",
            CssProperty::CornerTopLeft => "<'border-top-left-radius'> || <'corner-top-left-shape'>",
            CssProperty::CornerTopLeftShape => "<corner-shape-value>",
            CssProperty::CornerTopRight => "<'border-top-left-radius'> || <'corner-top-left-shape'>",
            CssProperty::CornerTopRightShape => "<corner-shape-value>",
            CssProperty::CornerTopShape => "<'corner-top-left-shape'>{1,2}",
            CssProperty::CounterIncrement => "[ <counter-name> <integer>? ]+ | none",
            CssProperty::CounterReset => "[ <counter-name> <integer>? | <reversed-counter-name> <integer>? ]+ | none",
            CssProperty::CounterSet => "[ <counter-name> <integer>? ]+ | none",
            CssProperty::Cue => "<'cue-before'> <'cue-after'>?",
            CssProperty::CueAfter => "<url> <decibel>? | none",
            CssProperty::CueBefore => "<url> <decibel>? | none",
            CssProperty::Cursor => "[<cursor-image>,]* <cursor-predefined>",
            CssProperty::Cx => "<length-percentage>",
            CssProperty::Cy => "<length-percentage>",
            CssProperty::D => "none | <string>",
            CssProperty::Direction => "ltr | rtl",
            CssProperty::Display => "[ <display-outside> || <display-inside> ] | <display-listitem> | <display-internal> | <display-box> | <display-legacy> | grid-lanes | inline-grid-lanes | <display-outside> || [ <display-inside> | math ]",
            CssProperty::DominantBaseline => "auto | <baseline-metric>",
            CssProperty::DynamicRangeLimit => "standard | no-limit | constrained | <dynamic-range-limit-mix()>",
            CssProperty::EmptyCells => "show | hide",
            CssProperty::EventTrigger => "none | [ <'event-trigger-name'> <'event-trigger-source'> ]#",
            CssProperty::EventTriggerName => "none | <dashed-ident>#",
            CssProperty::EventTriggerSource => "[ none | <event-trigger-event>+ [ / <event-trigger-event>+ ]? ]#",
            CssProperty::FieldSizing => "fixed | content",
            CssProperty::Fill => "<paint>",
            CssProperty::FillBreak => "bounding-box | slice | clone",
            CssProperty::FillColor => "<color>",
            CssProperty::FillImage => "<paint>#",
            CssProperty::FillOpacity => "<'opacity'>",
            CssProperty::FillOrigin => "match-parent | fill-box | stroke-box | content-box | padding-box | border-box",
            CssProperty::FillPosition => "<position>#",
            CssProperty::FillRepeat => "<repeat-style>#",
            CssProperty::FillRule => "nonzero | evenodd",
            CssProperty::FillSize => "<bg-size>#",
            CssProperty::Filter => "none | <filter-value-list>",
            CssProperty::Flex => "none | [ <'flex-grow'> <'flex-shrink'>? || <'flex-basis'> ]",
            CssProperty::FlexBasis => "content | <'width'>",
            CssProperty::FlexDirection => "row | row-reverse | column | column-reverse",
            CssProperty::FlexFlow => "<'flex-direction'> || <'flex-wrap'>",
            CssProperty::FlexGrow => "<number [0,∞]>",
            CssProperty::FlexShrink => "<number [0,∞]>",
            CssProperty::FlexWrap => "nowrap | wrap | wrap-reverse",
            CssProperty::Float => "block-start | block-end | inline-start | inline-end | snap-block | <snap-block()> | snap-inline | <snap-inline()> | left | right | top | bottom | none | footnote",
            CssProperty::FloatDefer => "<integer> | last | none",
            CssProperty::FloatOffset => "<length-percentage>",
            CssProperty::FloatReference => "inline | column | region | page",
            CssProperty::FloodColor => "<color>",
            CssProperty::FloodOpacity => "<'opacity'>",
            CssProperty::FlowFrom => "<custom-ident> | none",
            CssProperty::FlowInto => "none | <custom-ident> [element | content]?",
            CssProperty::FlowTolerance => "normal | <length-percentage> | infinite",
            CssProperty::Font => "[ [ <'font-style'> || <font-variant-css2> || <'font-weight'> || <font-width-css3> ]? <'font-size'> [ / <'line-height'> ]? <'font-family'># ] | <system-font-family-name>",
            CssProperty::FontFamily => "[ <font-family-name> | <generic-font-family> ]#",
            CssProperty::FontFeatureSettings => "normal | <feature-tag-value>#",
            CssProperty::FontKerning => "auto | normal | none",
            CssProperty::FontLanguageOverride => "normal | <string>",
            CssProperty::FontOpticalSizing => "auto | none",
            CssProperty::FontPalette => "normal | light | dark | <palette-identifier> | <palette-mix()>",
            CssProperty::FontSize => "<absolute-size> | <relative-size> | <length-percentage [0,∞]> | math",
            CssProperty::FontSizeAdjust => "none | [ ex-height | cap-height | ch-width | ic-width | ic-height ]? [ from-font | <number [0,∞]> ]",
            CssProperty::FontStretch => "normal | <percentage [0,∞]> | ultra-condensed | extra-condensed | condensed | semi-condensed | semi-expanded | expanded | extra-expanded | ultra-expanded",
            CssProperty::FontStyle => "normal | italic | left | right | oblique <angle [-90deg,90deg]>?",
            CssProperty::FontSynthesis => "none | [ weight || style || small-caps || position]",
            CssProperty::FontSynthesisPosition => "auto | none",
            CssProperty::FontSynthesisSmallCaps => "auto | none",
            CssProperty::FontSynthesisStyle => "auto | none | oblique-only",
            CssProperty::FontSynthesisWeight => "auto | none",
            CssProperty::FontVariant => "normal | none | [ [ <common-lig-values> || <discretionary-lig-values> || <historical-lig-values> || <contextual-alt-values> ] || [ small-caps | all-small-caps | petite-caps | all-petite-caps | unicase | titling-caps ] || [ stylistic(<font-feature-value-name>) || historical-forms || styleset(<font-feature-value-name>#) || character-variant(<font-feature-value-name>#) || swash(<font-feature-value-name>) || ornaments(<font-feature-value-name>) || annotation(<font-feature-value-name>) ] || [ <numeric-figure-values> || <numeric-spacing-values> || <numeric-fraction-values> || ordinal || slashed-zero ] || [ <east-asian-variant-values> || <east-asian-width-values> || ruby ] || [ sub | super ] || [ text | emoji | unicode ] ]",
            CssProperty::FontVariantAlternates => "normal | [ stylistic(<font-feature-value-name>) || historical-forms || styleset(<font-feature-value-name>#) || character-variant(<font-feature-value-name>#) || swash(<font-feature-value-name>) || ornaments(<font-feature-value-name>) || annotation(<font-feature-value-name>) ]",
            CssProperty::FontVariantCaps => "normal | small-caps | all-small-caps | petite-caps | all-petite-caps | unicase | titling-caps",
            CssProperty::FontVariantEastAsian => "normal | [ <east-asian-variant-values> || <east-asian-width-values> || ruby ]",
            CssProperty::FontVariantEmoji => "normal | text | emoji | unicode",
            CssProperty::FontVariantLigatures => "normal | none | [ <common-lig-values> || <discretionary-lig-values> || <historical-lig-values> || <contextual-alt-values> ]",
            CssProperty::FontVariantNumeric => "normal | [ <numeric-figure-values> || <numeric-spacing-values> || <numeric-fraction-values> || ordinal || slashed-zero ]",
            CssProperty::FontVariantPosition => "normal | sub | super",
            CssProperty::FontVariationSettings => "normal | [ <opentype-tag> <number> ]#",
            CssProperty::FontWeight => "<font-weight-absolute> | bolder | lighter",
            CssProperty::FontWidth => "normal | <percentage [0,∞]> | ultra-condensed | extra-condensed | condensed | semi-condensed | semi-expanded | expanded | extra-expanded | ultra-expanded",
            CssProperty::FootnoteDisplay => "block | inline | compact",
            CssProperty::FootnotePolicy => "auto | line | block",
            CssProperty::ForcedColorAdjust => "auto | none | preserve-parent-color",
            CssProperty::FrameSizing => "auto | content-width | content-height | content-block-size | content-inline-size",
            CssProperty::Gap => "<'row-gap'> <'column-gap'>?",
            CssProperty::GlyphOrientationVertical => "auto | 0deg | 90deg | 0 | 90",
            CssProperty::Grid => "<'grid-template'> | <'grid-template-rows'> / [ auto-flow && dense? ] <'grid-auto-columns'>? | [ auto-flow && dense? ] <'grid-auto-rows'>? / <'grid-template-columns'>",
            CssProperty::GridArea => "<grid-line> [ / <grid-line> ]{0,3}",
            CssProperty::GridAutoColumns => "<track-size>+",
            CssProperty::GridAutoFlow => "[ row | column ] || dense",
            CssProperty::GridAutoRows => "<track-size>+",
            CssProperty::GridColumn => "<grid-line> [ / <grid-line> ]?",
            CssProperty::GridColumnEnd => "<grid-line>",
            CssProperty::GridColumnGap => "normal | <length-percentage [0,∞]> | <line-width>",
            CssProperty::GridColumnStart => "<grid-line>",
            CssProperty::GridGap => "<'row-gap'> <'column-gap'>?",
            CssProperty::GridRow => "<grid-line> [ / <grid-line> ]?",
            CssProperty::GridRowEnd => "<grid-line>",
            _ => self.syntax_from_400(),
        }
    }

    fn syntax_from_400(&self) -> (r: &'static str)
        ensures
            r@ == self.spec_syntax_from_400(),
    {
        match self {
            CssProperty::GridRowGap => "normal | <length-percentage [0,∞]> | <line-width>",
            CssProperty::GridRowStart => "<grid-line>",
            CssProperty::GridTemplate => "none | [ <'grid-template-rows'> / <'grid-template-columns'> ] | [ <line-names>? <string> <track-size>? <line-names>? ]+ [ / <explicit-track-list> ]?",
            CssProperty::GridTemplateAreas => "none | <string>+",
            CssProperty::GridTemplateColumns => "none | <track-list> | <auto-track-list> | subgrid <line-name-list>?",
            CssProperty::GridTemplateRows => "none | <track-list> | <auto-track-list> | subgrid <line-name-list>?",
            CssProperty::HangingPunctuation => "none | [ first || [ force-end | allow-end ] || last ]",
            CssProperty::Height => "auto | <length-percentage [0,∞]> | min-content | max-content | fit-content(<length-percentage [0,∞]>) | <calc-size()> | <anchor-size()> | stretch | fit-content | contain",
            CssProperty::HyphenateCharacter => "auto | <string>",
            CssProperty::HyphenateLimitChars => "[ auto | <integer> ]{1,3}",
            CssProperty::HyphenateLimitLast => "none | always | column | page | spread",
            CssProperty::HyphenateLimitLines => "no-limit | <integer>",
            CssProperty::HyphenateLimitZone => "<length-percentage>",
            CssProperty::Hyphens => "none | manual | auto",
            CssProperty::ImageAnimation => "normal | paused | stopped | running",
            CssProperty::ImageOrientation => "from-image | none | [ <angle> || flip ]",
            CssProperty::ImageRendering => "auto | smooth | high-quality | pixelated | crisp-edges",
            CssProperty::ImageResolution => "[ from-image || <resolution> ] && snap?",
            CssProperty::InitialLetter => "normal | <number [1,∞]> <integer [1,∞]> | <number [1,∞]> && [ drop | raise ]?",
            CssProperty::InitialLetterAlign => "[ border-box? [ alphabetic | ideographic | hanging | leading ]? ]!",
            CssProperty::InitialLetterWrap => "none | first | all | grid | <length-percentage>",
            CssProperty::InlineSize => "<'width'>",
            CssProperty::InlineSizing => "normal | stretch",
            CssProperty::InputSecurity => "auto | none",
            CssProperty::Inset => "<'top'>{1,4}",
            CssProperty::InsetBlock => "<'top'>{1,2}",
            CssProperty::InsetBlockEnd => "auto | <length-percentage>",
            CssProperty::InsetBlockStart => "auto | <length-percentage>",
            CssProperty::InsetInline => "<'top'>{1,2}",
            CssProperty::InsetInlineEnd => "auto | <length-percentage>",
            CssProperty::InsetInlineStart => "auto | <length-percentage>",
            CssProperty::Interactivity => "auto | inert",
            CssProperty::InterestDelay => "<'interest-delay-start'>{1,2}",
            CssProperty::InterestDelayEnd => "normal | <time>",
            CssProperty::InterestDelayStart => "normal | <time>",
            CssProperty::InterpolateSize => "numeric-only | allow-keywords",
            CssProperty::Isolation => "<isolation-mode>",
            CssProperty::JustifyContent => "normal | <content-distribution> | <overflow-position>? [ <content-position> | left | right ]",
            CssProperty::JustifyItems => "normal | stretch | <baseline-position> | <overflow-position>? [ <self-position> | left | right ] | legacy | legacy && [ left | right | center ]",
            CssProperty::JustifySelf => "auto | <overflow-position>? [ normal | <self-position> | left | right ] | stretch | <baseline-position> | anchor-center",
            CssProperty::Left => "auto | <length-percentage> | <anchor()> | <anchor-size()>",
            CssProperty::LetterSpacing => "normal | <length-percentage>",
            CssProperty::LightingColor => "<color>",
            CssProperty::LineBreak => "auto | loose | normal | strict | anywhere",
            CssProperty::LineClamp => "none | [<integer [1,∞]> || <'block-ellipsis'>] -webkit-legacy?",
            CssProperty::LineFitEdge => "leading | <text-edge>",
            CssProperty::LineGrid => "match-parent | create",
            CssProperty::LineHeight => "normal | <number [0,∞]> | <length-percentage [0,∞]>",
            CssProperty::LineHeightStep => "<length [0,∞]>",
            CssProperty::LinePadding => "<length>",
            CssProperty::LineSnap => "none | baseline | contain",
            CssProperty::LinkParameters => "none | <param()>#",
            CssProperty::ListStyle => "<'list-style-position'> || <'list-style-image'> || <'list-style-type'>",
            CssProperty::ListStyleImage => "<image> | none",
            CssProperty::ListStylePosition => "inside | outside",
            CssProperty::ListStyleType => "<counter-style> | <string> | none",
            CssProperty::Margin => "<'margin-top'>{1,4}",
            CssProperty::MarginBlock => "<'margin-top'>{1,2}",
            CssProperty::MarginBlockEnd => "<'margin-top'>",
            CssProperty::MarginBlockStart => "<'margin-top'>",
            CssProperty::MarginBottom => "<length-percentage> | auto | <anchor-size()>",
            CssProperty::MarginBreak => "auto | keep | discard",
            CssProperty::MarginInline => "<'margin-top'>{1,2}",
            CssProperty::MarginInlineEnd => "<'margin-top'>",
            CssProperty::MarginInlineStart => "<'margin-top'>",
            CssProperty::MarginLeft => "<length-percentage> | auto | <anchor-size()>",
            CssProperty::MarginRight => "<length-percentage> | auto | <anchor-size()>",
            CssProperty::MarginTop => "<length-percentage> | auto | <anchor-size()>",
            CssProperty::MarginTrim => "none | [ block || inline ] | [ block-start || inline-start || block-end || inline-end ]",
            CssProperty::Marker => "none | <marker-ref>",
            CssProperty::MarkerEnd => "none | <marker-ref>",
            CssProperty::MarkerMid => "none | <marker-ref>",
            CssProperty::MarkerSide => "match-self | match-parent",
            CssProperty::MarkerStart => "none | <marker-ref>",
            CssProperty::Mask => "<mask-layer>#",
            CssProperty::MaskBorder => "<'mask-border-source'> || <'mask-border-slice'> [ / <'mask-border-width'>? [ / <'mask-border-outset'> ]? ]? || <'mask-border-repeat'> || <'mask-border-mode'>",
            CssProperty::MaskBorderMode => "luminance | alpha",
            CssProperty::MaskBorderOutset => "<'border-image-outset'>",
            CssProperty::MaskBorderRepeat => "<'border-image-repeat'>",
            CssProperty::MaskBorderSlice => "<'border-image-slice'>",
            CssProperty::MaskBorderSource => "<'border-image-source'>",
            CssProperty::MaskBorderWidth => "<'border-image-width'>",
            CssProperty::MaskClip => "[ <coord-box> | no-clip ]#",
            CssProperty::MaskComposite => "<compositing-operator>#",
            CssProperty::MaskImage => "<mask-reference>#",
            CssProperty::MaskMode => "<masking-mode>#",
            CssProperty::MaskOrigin => "<coord-box>#",
            CssProperty::MaskPosition => "<position>#",
            CssProperty::MaskRepeat => "<repeat-style>#",
            CssProperty::MaskSize => "<bg-size>#",
            CssProperty::MaskType => "luminance | alpha",
            CssProperty::MathDepth => "auto-add | add(<integer>) | <integer>",
            CssProperty::MathShift => "normal | compact",
            CssProperty::MathStyle => "normal | compact",
            CssProperty::MaxBlockSize => "<'max-width'>",
            CssProperty::MaxHeight => "none | <length-percentage [0,∞]> | min-content | max-content | fit-content(<length-percentage [0,∞]>) | <calc-size()> | <anchor-size()> | stretch | fit-content | contain",
            CssProperty::MaxInlineSize => "<'max-width'>",
            CssProperty::MaxLines => "none | <integer [1,∞]>",
            CssProperty::MaxWidth => "none | <length-percentage [0,∞]> | min-content | max-content | fit-content(<length-percentage [0,∞]>) | <calc-size()> | <anchor-size()> | stretch | fit-content | contain",
            CssProperty::MinBlockSize => "<'min-width'>",
            _ => self.syntax_from_500(),
        }
    }

    fn syntax_from_500(&self) -> (r: &'static str)
        ensures
            r@ == self.spec_syntax_from_500(),
    {
        match self {
            CssProperty::MinHeight => "auto | <length-percentage [0,∞]> | min-content | max-content | fit-content(<length-percentage [0,∞]>) | <calc-size()> | <anchor-size()> | stretch | fit-content | contain",
            CssProperty::MinInlineSize => "<'min-width'>",
            CssProperty::MinIntrinsicSizing => "legacy | zero-if-scroll || zero-if-extrinsic",
            CssProperty::MinWidth => "auto | <length-percentage [0,∞]> | min-content | max-content | fit-content(<length-percentage [0,∞]>) | <calc-size()> | <anchor-size()> | stretch | fit-content | contain",
            CssProperty::MixBlendMode => "<blend-mode> | plus-lighter",
            CssProperty::NavDown => "auto | <id> [ current | root | <target-name> ]?",
            CssProperty::NavLeft => "auto | <id> [ current | root | <target-name> ]?",
            CssProperty::NavRight => "auto | <id> [ current | root | <target-name> ]?",
            CssProperty::NavUp => "auto | <id> [ current | root | <target-name> ]?",
            CssProperty::ObjectFit => "fill | none | [contain | cover] || scale-down",
            CssProperty::ObjectPosition => "<position>",
            CssProperty::ObjectViewBox => "none | <basic-shape-rect>",
            CssProperty::Offset => "[ <'offset-position'>? [ <'offset-path'> [ <'offset-distance'> || <'offset-rotate'> ]? ]? ]! [ / <'offset-anchor'> ]?",
            CssProperty::OffsetAnchor => "auto | <position>",
            CssProperty::OffsetDistance => "<length-percentage>",
            CssProperty::OffsetPath => "none | <offset-path> || <coord-box>",
            CssProperty::OffsetPosition => "normal | auto | <position>",
            CssProperty::OffsetRotate => "[ auto | reverse ] || <angle>",
            CssProperty::Opacity => "<opacity-value>",
            CssProperty::Order => "<integer>",
            CssProperty::Orphans => "<integer [1,∞]>",
            CssProperty::Outline => "<'outline-width'> || <'outline-style'> || <'outline-color'>",
            CssProperty::OutlineColor => "auto | <'border-top-color'>",
            CssProperty::OutlineOffset => "<length>",
            CssProperty::OutlineStyle => "auto | <outline-line-style>",
            CssProperty::OutlineWidth => "<line-width>",
            CssProperty::Overflow => "<'overflow-block'>{1,2}",
            CssProperty::OverflowAnchor => "auto | none",
            CssProperty::OverflowBlock => "visible | hidden | clip | scroll | auto",
            CssProperty::OverflowClipMargin => "<visual-box> || <length>",
            CssProperty::OverflowClipMarginBlock => "<visual-box> || <length>",
            CssProperty::OverflowClipMarginBlockEnd => "<visual-box> || <length>",
            CssProperty::OverflowClipMarginBlockStart => "<visual-box> || <length>",
            CssProperty::OverflowClipMarginBottom => "<visual-box> || <length>",
            CssProperty::OverflowClipMarginInline => "<visual-box> || <length>",
            CssProperty::OverflowClipMarginInlineEnd => "<visual-box> || <length>",
            CssProperty::OverflowClipMarginInlineStart => "<visual-box> || <length>",
            CssProperty::OverflowClipMarginLeft => "<visual-box> || <length>",
            CssProperty::OverflowClipMarginRight => "<visual-box> || <length>",
            CssProperty::OverflowClipMarginTop => "<visual-box> || <length>",
            CssProperty::OverflowInline => "visible | hidden | clip | scroll | auto",
            CssProperty::OverflowWrap => "normal | break-word | anywhere",
            CssProperty::OverflowX => "visible | hidden | clip | scroll | auto",
            CssProperty::OverflowY => "visible | hidden | clip | scroll | auto",
            CssProperty::Overlay => "none | auto",
            CssProperty::OverscrollBehavior => "[ contain | none | auto | chain ]{1,2}",
            CssProperty::OverscrollBehaviorBlock => "contain | none | auto | chain",
            CssProperty::OverscrollBehaviorInline => "contain | none | auto | chain",
            CssProperty::OverscrollBehaviorX => "contain | none | auto | chain",
            CssProperty::OverscrollBehaviorY => "contain | none | auto | chain",
            CssProperty::Padding => "<'padding-top'>{1,4}",
            CssProperty::PaddingBlock => "<'padding-top'>{1,2}",
            CssProperty::PaddingBlockEnd => "<'padding-top'>",
            CssProperty::PaddingBlockStart => "<'padding-top'>",
            CssProperty::PaddingBottom => "<length-percentage [0,∞]>",
            CssProperty::PaddingInline => "<'padding-top'>{1,2}",
            CssProperty::PaddingInlineEnd => "<'padding-top'>",
            CssProperty::PaddingInlineStart => "<'padding-top'>",
            CssProperty::PaddingLeft => "<length-percentage [0,∞]>",
            CssProperty::PaddingRight => "<length-percentage [0,∞]>",
            CssProperty::PaddingTop => "<length-percentage [0,∞]>",
            CssProperty::Page => "auto | <custom-ident>",
            CssProperty::PageBreakAfter => "auto | always | avoid | left | right | inherit",
            CssProperty::PageBreakBefore => "auto | always | avoid | left | right | inherit",
            CssProperty::PageBreakInside => "avoid | auto | inherit",
            CssProperty::PaintOrder => "normal | [ fill || stroke || markers ]",
            CssProperty::PathLength => "none | @@ unknown symbol \"number [0,∞]\"",
            CssProperty::Pause => "<'pause-before'> <'pause-after'>?",
            CssProperty::PauseAfter => "<time [0s,∞]> | none | x-weak | weak | medium | strong | x-strong",
            CssProperty::PauseBefore => "<time [0s,∞]> | none | x-weak | weak | medium | strong | x-strong",
            CssProperty::Perspective => "none | <length [0,∞]>",
            CssProperty::PerspectiveOrigin => "<position>",
            CssProperty::PlaceContent => "<'align-content'> <'justify-content'>?",
            CssProperty::PlaceItems => "<'align-items'> <'justify-items'>?",
            CssProperty::PlaceSelf => "<'align-self'> <'justify-self'>?",
            CssProperty::PointerEvents => "auto | bounding-box | visiblePainted | visibleFill | visibleStroke | visible | painted | fill | stroke | all | none",
            CssProperty::PointerTimeline => "[ <'pointer-timeline-name'> <'pointer-timeline-axis'>? ]#",
            CssProperty::PointerTimelineAxis => "[ block | inline | x | y ]#",
            CssProperty::PointerTimelineName => "[ none | <dashed-ident> ]#",
            CssProperty::Position => "static | relative | absolute | sticky | fixed | <running()>",
            CssProperty::PositionAnchor => "normal | none | auto | <anchor-name> | match-parent",
            CssProperty::PositionArea => "none | <position-area>",
            CssProperty::PositionTry => "<'position-try-order'>? <'position-try-fallbacks'>",
            CssProperty::PositionTryFallbacks => "none | [ [<dashed-ident> || <try-tactic>] | <position-area> ]#",
            CssProperty::PositionTryOrder => "normal | <try-size>",
            CssProperty::PositionVisibility => "always | [ anchors-valid || anchors-visible || no-overflow ]",
            CssProperty::PrintColorAdjust => "economy | exact",
            CssProperty::Quotes => "auto | none | match-parent | [ <string> <string> ]+",
            CssProperty::R => "<length-percentage>",
            CssProperty::ReadingFlow => "normal | source-order | flex-visual | flex-flow | grid-rows | grid-columns | grid-order",
            CssProperty::ReadingOrder => "<integer>",
            CssProperty::RegionFragment => "auto | break",
            CssProperty::Resize => "none | both | horizontal | vertical | block | inline",
            CssProperty::Rest => "<'rest-before'> <'rest-after'>?",
            CssProperty::RestAfter => "<time [0s,∞]> | none | x-weak | weak | medium | strong | x-strong",
            CssProperty::RestBefore => "<time [0s,∞]> | none | x-weak | weak | medium | strong | x-strong",
            CssProperty::Right => "auto | <length-percentage> | <anchor()> | <anchor-size()>",
            CssProperty::Rotate => "none | <angle> | [ x | y | z | <number>{3} ] && <angle>",
            CssProperty::RowGap => "normal | <length-percentage [0,∞]> | <line-width>",
            CssProperty::RowRule => "<gap-rule-list> | <gap-auto-rule-list>",
            _ => self.syntax_from_600(),
        }
    }

    fn syntax_from_600(&self) -> (r: &'static str)
        ensures
            r@ == self.spec_syntax_from_600(),
    {
        match self {
            CssProperty::RowRuleBreak => "none | normal | intersection",
            CssProperty::RowRuleColor => "<line-color-list> | <auto-line-color-list>",
            CssProperty::RowRuleInset => "<'column-rule-inset-cap'> [ / <'column-rule-inset-junction'> ]?",
            CssProperty::RowRuleInsetCap => "<length-percentage> [ <length-percentage> ]?",
            CssProperty::RowRuleInsetCapEnd => "<length-percentage>",
            CssProperty::RowRuleInsetCapStart => "<length-percentage>",
            CssProperty::RowRuleInsetEnd => "<length-percentage>",
            CssProperty::RowRuleInsetJunction => "<length-percentage> [ <length-percentage> ]?",
            CssProperty::RowRuleInsetJunctionEnd => "<length-percentage>",
            CssProperty::RowRuleInsetJunctionStart => "<length-percentage>",
            CssProperty::RowRuleInsetStart => "<length-percentage>",
            CssProperty::RowRuleStyle => "<line-style-list> | <auto-line-style-list>",
            CssProperty::RowRuleVisibilityItems => "all | around | between | normal",
            CssProperty::RowRuleWidth => "<line-width-list> | <auto-line-width-list>",
            CssProperty::RubyAlign => "start | center | space-between | space-around",
            CssProperty::RubyMerge => "separate | merge | auto",
            CssProperty::RubyOverhang => "auto | spaces",
            CssProperty::RubyPosition => "[ alternate || [ over | under ] ] | inter-character",
            CssProperty::Rule => "<'column-rule'>",
            CssProperty::RuleBreak => "<'column-rule-break'>",
            CssProperty::RuleColor => "<'column-rule-color'>",
            CssProperty::RuleInset => "<'column-rule-inset'>",
            CssProperty::RuleInsetCap => "<'column-rule-inset-cap'>",
            CssProperty::RuleInsetEnd => "<'column-rule-inset-end'>",
            CssProperty::RuleInsetJunction => "<'column-rule-inset-junction'>",
            CssProperty::RuleInsetStart => "<'column-rule-inset-start'>",
            CssProperty::RuleOverlap => "row-over-column | column-over-row",
            CssProperty::RuleStyle => "<'column-rule-style'>",
            CssProperty::RuleVisibilityItems => "<'column-rule-visibility-items'>",
            CssProperty::RuleWidth => "<'column-rule-width'>",
            CssProperty::Rx => "<length-percentage> | auto",
            CssProperty::Ry => "<length-percentage> | auto",
            CssProperty::Scale => "none | [ <number> | <percentage> ]{1,3}",
            CssProperty::ScrollBehavior => "auto | smooth",
            CssProperty::ScrollInitialTarget => "none | nearest",
            CssProperty::ScrollMargin => "<length>{1,4}",
            CssProperty::ScrollMarginBlock => "<length>{1,2}",
            CssProperty::ScrollMarginBlockEnd => "<length>",
            CssProperty::ScrollMarginBlockStart => "<length>",
            CssProperty::ScrollMarginBottom => "<length>",
            CssProperty::ScrollMarginInline => "<length>{1,2}",
            CssProperty::ScrollMarginInlineEnd => "<length>",
            CssProperty::ScrollMarginInlineStart => "<length>",
            CssProperty::ScrollMarginLeft => "<length>",
            CssProperty::ScrollMarginRight => "<length>",
            CssProperty::ScrollMarginTop => "<length>",
            CssProperty::ScrollMarkerGroup => "none | [ [ before | after ] || [ links | tabs ] ]",
            CssProperty::ScrollPadding => "[ auto | <length-percentage [0,∞]> ]{1,4}",
            CssProperty::ScrollPaddingBlock => "[ auto | <length-percentage [0,∞]> ]{1,2}",
            CssProperty::ScrollPaddingBlockEnd => "auto | <length-percentage [0,∞]>",
            CssProperty::ScrollPaddingBlockStart => "auto | <length-percentage [0,∞]>",
            CssProperty::ScrollPaddingBottom => "auto | <length-percentage [0,∞]>",
            CssProperty::ScrollPaddingInline => "[ auto | <length-percentage [0,∞]> ]{1,2}",
            CssProperty::ScrollPaddingInlineEnd => "auto | <length-percentage [0,∞]>",
            CssProperty::ScrollPaddingInlineStart => "auto | <length-percentage [0,∞]>",
            CssProperty::ScrollPaddingLeft => "auto | <length-percentage [0,∞]>",
            CssProperty::ScrollPaddingRight => "auto | <length-percentage [0,∞]>",
            CssProperty::ScrollPaddingTop => "auto | <length-percentage [0,∞]>",
            CssProperty::ScrollSnapAlign => "[ none | start | end | center ]{1,2}",
            CssProperty::ScrollSnapStop => "normal | always",
            CssProperty::ScrollSnapType => "none | [ x | y | block | inline | both ] [ mandatory | proximity ]?",
            CssProperty::ScrollTargetGroup => "none | auto",
            CssProperty::ScrollTimeline => "[ <'scroll-timeline-name'> <'scroll-timeline-axis'>? ]#",
            CssProperty::ScrollTimelineAxis => "[ block | inline | x | y ]#",
            CssProperty::ScrollTimelineName => "[ none | <dashed-ident> ]#",
            CssProperty::ScrollbarColor => "auto | <color>{2}",
            CssProperty::ScrollbarGutter => "auto | stable && both-edges?",
            CssProperty::ScrollbarInset => "<length>{1,4}",
            CssProperty::ScrollbarMinThumbSize => "<length>",
            CssProperty::ScrollbarMode => "auto | classic | overlay | none",
            CssProperty::ScrollbarWidth => "auto | thin | none",
            CssProperty::ShapeImageThreshold => "<opacity-value>",
            CssProperty::ShapeInside => "auto | outside-shape | [ <basic-shape> || shape-box ] | <image> | display",
            CssProperty::ShapeMargin => "<length-percentage [0,∞]>",
            CssProperty::ShapeOutside => "none | [ <basic-shape> || <shape-box> ] | <image>",
            CssProperty::ShapePadding => "<length-percentage [0,∞]>",
            CssProperty::ShapeRendering => "auto | optimizeSpeed | crispEdges | geometricPrecision",
            CssProperty::SliderOrientation => "auto | left-to-right | right-to-left | top-to-bottom | bottom-to-top",
            CssProperty::SpatialNavigationAction => "auto | focus | scroll",
            CssProperty::SpatialNavigationContain => "auto | contain",
            CssProperty::SpatialNavigationFunction => "normal | grid",
            CssProperty::Speak => "auto | never | always",
            CssProperty::SpeakAs => "normal | spell-out || digits || [ literal-punctuation | no-punctuation ]",
            CssProperty::StopColor => "<'color'>",
            CssProperty::StopOpacity => "<'opacity'>",
            CssProperty::StringSet => "none | [ <custom-ident> <string>+ ]#",
            CssProperty::Stroke => "<paint>",
            CssProperty::StrokeAlign => "center | inset | outset",
            CssProperty::StrokeAlignment => "center | inner | outer",
            CssProperty::StrokeBreak => "bounding-box | slice | clone",
            CssProperty::StrokeColor => "<color>#",
            CssProperty::StrokeDashCornerPropdefStrokeDashCorner => "none | <length>",
            CssProperty::StrokeDashJustify => "none | [ stretch | compress ] || [ dashes || gaps ]",
            CssProperty::StrokeDashadjust => "none | [stretch | compress] [dashes | gaps]?",
            CssProperty::StrokeDasharray => "none | [<length-percentage> | <number>]+#",
            CssProperty::StrokeDashcornerStrokedashcornerproperty => "none | <length>",
            CssProperty::StrokeDashoffset => "<length-percentage> | <number>",
            CssProperty::StrokeImage => "<paint>#",
            CssProperty::StrokeLinecap => "butt | round | square",
            CssProperty::StrokeLinejoin => "[ crop | arcs | miter ] || [ bevel | round | fallback ]",
            _ => self.syntax_from_700(),
        }
    }

    fn syntax_from_700(&self) -> (r: &'static str)
        ensures
            r@ == self.spec_syntax_from_700(),
    {
        match self {
            CssProperty::StrokeMiterlimit => "<number>",
            CssProperty::StrokeOpacity => "<'opacity'>",
            CssProperty::StrokeOrigin => "match-parent | fill-box | stroke-box | content-box | padding-box | border-box",
            CssProperty::StrokePosition => "<position>#",
            CssProperty::StrokeRepeat => "<repeat-style>#",
            CssProperty::StrokeSize => "<bg-size>#",
            CssProperty::StrokeWidth => "[ <length-percentage> | <line-width> | <number> ]#",
            CssProperty::TabSize => "<number [0,∞]> | <length [0,∞]>",
            CssProperty::TableLayout => "auto | fixed",
            CssProperty::TextAlign => "start | end | left | right | center | <string> | justify | match-parent | justify-all",
            CssProperty::TextAlignAll => "start | end | left | right | center | <string> | justify | match-parent",
            CssProperty::TextAlignLast => "auto | start | end | left | right | center | justify | match-parent",
            CssProperty::TextAnchor => "start | middle | end",
            CssProperty::TextAutospace => "normal | <autospace> | auto",
            CssProperty::TextBox => "normal | <'text-box-trim'> || <'text-box-edge'>",
            CssProperty::TextBoxEdge => "auto | <text-edge>",
            CssProperty::TextBoxTrim => "none | trim-start | trim-end | trim-both",
            CssProperty::TextCombineUpright => "none | all | [ digits <integer [2,4]>? ]",
            CssProperty::TextDecoration => "<'text-decoration-line'> || <'text-decoration-thickness'> || <'text-decoration-style'> || <'text-decoration-color'>",
            CssProperty::TextDecorationColor => "<color>",
            CssProperty::TextDecorationInset => "<length>{1,2} | auto",
            CssProperty::TextDecorationLine => "none | [ underline || overline || line-through || blink ] | spelling-error | grammar-error",
            CssProperty::TextDecorationSkip => "none | auto",
            CssProperty::TextDecorationSkipBox => "none | all",
            CssProperty::TextDecorationSkipInk => "auto | none | all",
            CssProperty::TextDecorationSkipSelf => "auto | skip-all | [ skip-underline || skip-overline || skip-line-through ] | no-skip",
            CssProperty::TextDecorationSkipSpaces => "none | all | [ start || end ]",
            CssProperty::TextDecorationStyle => "solid | double | dotted | dashed | wavy",
            CssProperty::TextDecorationThickness => "auto | from-font | <length-percentage> | <line-width>",
            CssProperty::TextEmphasis => "<'text-emphasis-style'> || <'text-emphasis-color'>",
            CssProperty::TextEmphasisColor => "<color>",
            CssProperty::TextEmphasisPosition => "[ over | under ] && [ right | left ]?",
            CssProperty::TextEmphasisSkip => "spaces || punctuation || symbols || narrow",
            CssProperty::TextEmphasisStyle => "none | [ [ filled | open ] || [ dot | circle | double-circle | triangle | sesame ] ] | <string>",
            CssProperty::TextFit => "[ none | grow | shrink ] [consistent | per-line | per-line-all]? <percentage>?",
            CssProperty::TextGroupAlign => "none | start | end | left | right | center",
            CssProperty::TextIndent => "[ <length-percentage> ] && hanging? && each-line?",
            CssProperty::TextJustify => "[ auto | none | inter-word | inter-character | ruby ] || no-compress",
            CssProperty::TextOrientation => "mixed | upright | sideways",
            CssProperty::TextOverflow => "[ clip | ellipsis | <string> | fade | <fade()> ]{1,2}",
            CssProperty::TextRendering => "auto | optimizeSpeed | optimizeLegibility | geometricPrecision",
            CssProperty::TextShadow => "none | <shadow>#",
            CssProperty::TextSizeAdjust => "auto | none | <percentage [0,∞]>",
            CssProperty::TextSpacing => "none | auto | <spacing-trim> || <autospace>",
            CssProperty::TextSpacingTrim => "<spacing-trim> | auto",
            CssProperty::TextTransform => "none | [capitalize | uppercase | lowercase ] || full-width || full-size-kana | math-auto",
            CssProperty::TextUnderlineOffset => "auto | <length-percentage>",
            CssProperty::TextUnderlinePosition => "auto | [ from-font | under ] || [ left | right ]",
            CssProperty::TextWrap => "<'text-wrap-mode'> || <'text-wrap-style'>",
            CssProperty::TextWrapMode => "wrap | nowrap",
            CssProperty::TextWrapStyle => "auto | balance | stable | pretty | avoid-orphans",
            CssProperty::TimelineScope => "none | all | <dashed-ident>#",
            CssProperty::TimelineTrigger => "none | [ <'timeline-trigger-name'> <'timeline-trigger-source'> <'timeline-trigger-activation-range'> [ '/' <'timeline-trigger-active-range'> ]? ]#",
            CssProperty::TimelineTriggerActivationRange => "[ <'timeline-trigger-activation-range-start'> <'timeline-trigger-activation-range-end'>? ]#",
            CssProperty::TimelineTriggerActivationRangeEnd => "[ normal | <length-percentage> | <timeline-range-name> <length-percentage>? ]#",
            CssProperty::TimelineTriggerActivationRangeStart => "[ normal | <length-percentage> | <timeline-range-name> <length-percentage>? ]#",
            CssProperty::TimelineTriggerActiveRange => "[ <'timeline-trigger-active-range-start'> <'timeline-trigger-active-range-end'>? ]#",
            CssProperty::TimelineTriggerActiveRangeEnd => "[ auto | normal | <length-percentage> | <timeline-range-name> <length-percentage>? ]#",
            CssProperty::TimelineTriggerActiveRangeStart => "[ auto | normal | <length-percentage> | <timeline-range-name> <length-percentage>? ]#",
            CssProperty::TimelineTriggerName => "none | <dashed-ident>#",
            CssProperty::TimelineTriggerSource => "<single-animation-timeline>#",
            CssProperty::Top => "auto | <length-percentage> | <anchor()> | <anchor-size()>",
            CssProperty::TouchAction => "auto | none | [ [ pan-x | pan-left | pan-right ] || [ pan-y | pan-up | pan-down ] || pinch-zoom ] | manipulation",
            CssProperty::Transform => "none | <transform-list>",
            CssProperty::TransformBox => "content-box | border-box | fill-box | stroke-box | view-box",
            CssProperty::TransformOrigin => "[ left | center | right | top | bottom | <length-percentage> ] | [ left | center | right | <length-percentage> ] [ top | center | bottom | <length-percentage> ] <length>? | [ [ center | left | right ] && [ center | top | bottom ] ] <length>?",
            CssProperty::TransformStyle => "flat | preserve-3d",
            CssProperty::Transition => "<single-transition>#",
            CssProperty::TransitionBehavior => "<transition-behavior-value>#",
            CssProperty::TransitionDelay => "<time>#",
            CssProperty::TransitionDuration => "<time [0s,∞]>#",
            CssProperty::TransitionProperty => "none | <single-transition-property>#",
            CssProperty::TransitionTimingFunction => "<easing-function>#",
            CssProperty::Translate => "none | <length-percentage> [ <length-percentage> <length>? ]?",
            CssProperty::TriggerScope => "none | all | <dashed-ident>#",
            CssProperty::UnicodeBidi => "normal | embed | isolate | bidi-override | isolate-override | plaintext",
            CssProperty::UserSelect => "auto | text | none | contain | all",
            CssProperty::VectorEffect => "none | non-scaling-stroke | non-scaling-size | non-rotation | fixed-position",
            CssProperty::VerticalAlign => "[ first | last] || <'alignment-baseline'> || <'baseline-shift'>",
            CssProperty::ViewTimeline => "[ <'view-timeline-name'> [ <'view-timeline-axis'> || <'view-timeline-inset'> ]? ]#",
            CssProperty::ViewTimelineAxis => "[ block | inline | x | y ]#",
            CssProperty::ViewTimelineInset => "[ [ auto | <length-percentage> ]{1,2} ]#",
            CssProperty::ViewTimelineName => "[ none | <dashed-ident> ]#",
            CssProperty::ViewTransitionClass => "none | <custom-ident>+",
            CssProperty::ViewTransitionGroup => "normal | contain | nearest | <custom-ident>",
            CssProperty::ViewTransitionName => "none | <custom-ident>",
            CssProperty::ViewTransitionScope => "none | all",
            CssProperty::Visibility => "visible | hidden | force-hidden | collapse",
            CssProperty::VoiceBalance => "<number> | left | center | right | leftwards | rightwards",
            CssProperty::VoiceDuration => "auto | <time [0s,∞]>",
            CssProperty::VoiceFamily => "[ <voice-family-name> | <generic-voice> ]# | preserve",
            CssProperty::VoicePitch => "<frequency [0Hz,∞]> && absolute | [ [ x-low | low | medium | high | x-high ] || [ <frequency [0Hz,∞]> | <semitones> | <percentage> ] ]",
            CssProperty::VoiceRange => "<frequency [0Hz,∞]> && absolute | [ [ x-low | low | medium | high | x-high ] || [ <frequency [0Hz,∞]> | <semitones> | <percentage> ] ]",
            CssProperty::VoiceRate => "[ normal | x-slow | slow | medium | fast | x-fast ] || <percentage [0,∞]>",
            CssProperty::VoiceStress => "normal | strong | moderate | none | reduced",
            CssProperty::VoiceVolume => "silent | [ [ x-soft | soft | medium | loud | x-loud ] || <decibel> ]",
            CssProperty::WhiteSpace => "normal | pre | pre-wrap | pre-line | <'white-space-collapse'> || <'text-wrap-mode'> || <'white-space-trim'>",
            CssProperty::WhiteSpaceCollapse => "collapse | discard | preserve | preserve-breaks | preserve-spaces | break-spaces",
            CssProperty::WhiteSpaceTrim => "none | discard-before || discard-after || discard-inner",
            CssProperty::Widows => "<integer [1,∞]>",
            _ => self.syntax_from_800(),
        }
    }

    fn syntax_from_800(&self) -> (r: &'static str)
        ensures
            r@ == self.spec_syntax_from_800(),
    {
        match self {
            CssProperty::Width => "auto | <length-percentage [0,∞]> | min-content | max-content | fit-content(<length-percentage [0,∞]>) | <calc-size()> | <anchor-size()> | stretch | fit-content | contain",
            CssProperty::WillChange => "auto | <animateable-feature>#",
            CssProperty::WordBreak => "normal | break-all | keep-all | manual | auto-phrase | break-word",
            CssProperty::WordSpaceTransform => "none | [ space | ideographic-space ] && auto-phrase?",
            CssProperty::WordSpacing => "normal | <length-percentage>",
            CssProperty::WordWrap => "normal | break-word | anywhere",
            CssProperty::WrapAfter => "auto | avoid | avoid-line | avoid-flex | line | flex",
            CssProperty::WrapBefore => "auto | avoid | avoid-line | avoid-flex | line | flex",
            CssProperty::WrapFlow => "auto | both | start | end | minimum | maximum | clear",
            CssProperty::WrapInside => "auto | avoid",
            CssProperty::WrapThrough => "wrap | none",
            CssProperty::WritingMode => "horizontal-tb | vertical-rl | vertical-lr | sideways-rl | sideways-lr",
            CssProperty::X => "<length-percentage>",
            CssProperty::Y => "<length-percentage>",
            CssProperty::ZIndex => "auto | <integer> | inherit",
            CssProperty::Zoom => "<number [0,∞]> | <percentage [0,∞]>",
            CssProperty::Unknown(_) => {
                proof {
                    reveal_strlit("");
                }
                ""
            },
            _ => {
                proof {
                    reveal_strlit("");
                }
                ""
            },
        }
    }

    /// The initial value of the property as its definition writes it; empty when it has none.
    pub fn initial(self) -> (r: &'static str)
        ensures
            r@ == self.spec_initial(),
    {
        match self {
            CssProperty::WebkitAlignContent => "",
            CssProperty::WebkitAlignItems => "",
            CssProperty::WebkitAlignSelf => "",
            CssProperty::WebkitAnimation => "",
            CssProperty::WebkitAnimationDelay => "",
            CssProperty::WebkitAnimationDirection => "",
            CssProperty::WebkitAnimationDuration => "",
            CssProperty::WebkitAnimationFillMode => "",
            CssProperty::WebkitAnimationIterationCount => "",
            CssProperty::WebkitAnimationName => "",
            CssProperty::WebkitAnimationPlayState => "",
            CssProperty::WebkitAnimationTimingFunction => "",
            CssProperty::WebkitAppearance => "",
            CssProperty::WebkitBackfaceVisibility => "",
            CssProperty::WebkitBackgroundClip => "",
            CssProperty::WebkitBackgroundOrigin => "",
            CssProperty::WebkitBackgroundSize => "",
            CssProperty::WebkitBorderBottomLeftRadius => "",
            CssProperty::WebkitBorderBottomRightRadius => "",
            CssProperty::WebkitBorderRadius => "",
            CssProperty::WebkitBorderTopLeftRadius => "",
            CssProperty::WebkitBorderTopRightRadius => "",
            CssProperty::WebkitBoxAlign => "",
            CssProperty::WebkitBoxFlex => "",
            CssProperty::WebkitBoxOrdinalGroup => "",
            CssProperty::WebkitBoxOrient => "",
            CssProperty::WebkitBoxPack => "",
            CssProperty::WebkitBoxShadow => "",
            CssProperty::WebkitBoxSizing => "",
            CssProperty::WebkitFilter => "",
            CssProperty::WebkitFlex => "",
            CssProperty::WebkitFlexBasis => "",
            CssProperty::WebkitFlexDirection => "",
            CssProperty::WebkitFlexFlow => "",
            CssProperty::WebkitFlexGrow => "",
            CssProperty::WebkitFlexShrink => "",
            CssProperty::WebkitFlexWrap => "",
            CssProperty::WebkitJustifyContent => "",
            CssProperty::WebkitLineClamp => "none",
            CssProperty::WebkitMask => "",
            CssProperty::WebkitMaskBoxImage => "",
            CssProperty::WebkitMaskBoxImageOutset => "",
            CssProperty::WebkitMaskBoxImageRepeat => "",
            CssProperty::WebkitMaskBoxImageSlice => "",
            CssProperty::WebkitMaskBoxImageSource => "",
            CssProperty::WebkitMaskBoxImageWidth => "",
            CssProperty::WebkitMaskClip => "",
            CssProperty::WebkitMaskComposite => "",
            CssProperty::WebkitMaskImage => "",
            CssProperty::WebkitMaskOrigin => "",
            CssProperty::WebkitMaskPosition => "",
            CssProperty::WebkitMaskRepeat => "",
            CssProperty::WebkitMaskSize => "",
            CssProperty::WebkitOrder => "",
            CssProperty::WebkitPerspective => "",
            CssProperty::WebkitPerspectiveOrigin => "",
            CssProperty::WebkitTextFillColor => "currentcolor",
            CssProperty::WebkitTextSizeAdjust => "",
            CssProperty::WebkitTextStroke => "See individual properties",
            CssProperty::WebkitTextStrokeColor => "currentcolor",
            CssProperty::WebkitTextStrokeWidth => "0",
            CssProperty::WebkitTransform => "",
            CssProperty::WebkitTransformOrigin => "",
            CssProperty::WebkitTransformStyle => "",
            CssProperty::WebkitTransition => "",
            CssProperty::WebkitTransitionDelay => "",
            CssProperty::WebkitTransitionDuration => "",
            CssProperty::WebkitTransitionProperty => "",
            CssProperty::WebkitTransitionTimingFunction => "",
            CssProperty::WebkitUserSelect => "",
            CssProperty::AccentColor => "auto",
            CssProperty::AlignContent => "normal",
            CssProperty::AlignItems => "normal",
            CssProperty::AlignSelf => "auto",
            CssProperty::AlignmentBaseline => "baseline",
            CssProperty::All => "see individual properties",
            CssProperty::AnchorName => "none",
            CssProperty::AnchorScope => "none",
            CssProperty::Animation => "see individual properties",
            CssProperty::AnimationComposition => "replace",
            CssProperty::AnimationDelay => "0s",
            CssProperty::AnimationDirection => "normal",
            CssProperty::AnimationDuration => "auto",
            CssProperty::AnimationFillMode => "none",
            CssProperty::AnimationIterationCount => "1",
            CssProperty::AnimationName => "none",
            CssProperty::AnimationPlayState => "running",
            CssProperty::AnimationRange => "see individual properties",
            CssProperty::AnimationRangeCenter => "normal",
            CssProperty::AnimationRangeEnd => "normal",
            CssProperty::AnimationRangeStart => "normal",
            CssProperty::AnimationTimeline => "auto",
            CssProperty::AnimationTimingFunction => "ease",
            CssProperty::AnimationTrigger => "none",
            CssProperty::Appearance => "none",
            CssProperty::AspectRatio => "auto",
            CssProperty::BackdropFilter => "none",
            CssProperty::BackfaceVisibility => "visible",
            CssProperty::Background => "see individual properties",
            CssProperty::BackgroundAttachment => "scroll",
            _ => self.initial_from_100(),
        }
    }

    fn initial_from_100(&self) -> (r: &'static str)
        ensures
            r@ == self.spec_initial_from_100(),
    {
        match self {
            CssProperty::BackgroundBlendMode => "normal",
            CssProperty::BackgroundClip => "border-box",
            CssProperty::BackgroundColor => "transparent",
            CssProperty::BackgroundImage => "none",
            CssProperty::BackgroundOrigin => "padding-box",
            CssProperty::BackgroundPosition => "0% 0%",
            CssProperty::BackgroundPositionBlock => "0%",
            CssProperty::BackgroundPositionInline => "0%",
            CssProperty::BackgroundPositionX => "0%",
            CssProperty::BackgroundPositionY => "0%",
            CssProperty::BackgroundRepeat => "repeat",
            CssProperty::BackgroundRepeatBlock => "repeat",
            CssProperty::BackgroundRepeatInline => "repeat",
            CssProperty::BackgroundRepeatX => "repeat",
            CssProperty::BackgroundRepeatY => "repeat",
            CssProperty::BackgroundSize => "auto",
            CssProperty::BackgroundTbd => "see individual properties",
            CssProperty::BaselineShift => "0",
            CssProperty::BaselineSource => "auto",
            CssProperty::BlockEllipsis => "no-ellipsis",
            CssProperty::BlockSize => "auto",
            CssProperty::BlockStep => "see individual properties",
            CssProperty::BlockStepAlign => "auto",
            CssProperty::BlockStepInsert => "margin-box",
            CssProperty::BlockStepRound => "up",
            CssProperty::BlockStepSize => "none",
            CssProperty::BookmarkLabel => "content(text)",
            CssProperty::BookmarkLevel => "none",
            CssProperty::BookmarkState => "open",
            CssProperty::Border => "see individual properties",
            CssProperty::BorderBlock => "see individual properties",
            CssProperty::BorderBlockClip => "see individual properties",
            CssProperty::BorderBlockColor => "see individual properties",
            CssProperty::BorderBlockEnd => "See individual properties",
            CssProperty::BorderBlockEndClip => "none",
            CssProperty::BorderBlockEndColor => "currentcolor",
            CssProperty::BorderBlockEndRadius => "0",
            CssProperty::BorderBlockEndStyle => "none",
            CssProperty::BorderBlockEndWidth => "medium",
            CssProperty::BorderBlockStart => "See individual properties",
            CssProperty::BorderBlockStartClip => "none",
            CssProperty::BorderBlockStartColor => "currentcolor",
            CssProperty::BorderBlockStartRadius => "0",
            CssProperty::BorderBlockStartStyle => "none",
            CssProperty::BorderBlockStartWidth => "medium",
            CssProperty::BorderBlockStyle => "see individual properties",
            CssProperty::BorderBlockWidth => "see individual properties",
            CssProperty::BorderBottom => "See individual properties",
            CssProperty::BorderBottomClip => "none",
            CssProperty::BorderBottomColor => "currentcolor",
            CssProperty::BorderBottomLeftRadius => "0",
            CssProperty::BorderBottomRadius => "0",
            CssProperty::BorderBottomRightRadius => "0",
            CssProperty::BorderBottomStyle => "none",
            CssProperty::BorderBottomWidth => "medium",
            CssProperty::BorderBoundary => "none",
            CssProperty::BorderClip => "see individual properties",
            CssProperty::BorderCollapse => "separate",
            CssProperty::BorderColor => "see individual properties",
            CssProperty::BorderEndEndRadius => "0",
            CssProperty::BorderEndStartRadius => "0",
            CssProperty::BorderImage => "See individual properties",
            CssProperty::BorderImageOutset => "0",
            CssProperty::BorderImageRepeat => "stretch",
            CssProperty::BorderImageSlice => "100%",
            CssProperty::BorderImageSource => "none",
            CssProperty::BorderImageWidth => "1",
            CssProperty::BorderInline => "see individual properties",
            CssProperty::BorderInlineClip => "see individual properties",
            CssProperty::BorderInlineColor => "see individual properties",
            CssProperty::BorderInlineEnd => "See individual properties",
            CssProperty::BorderInlineEndClip => "none",
            CssProperty::BorderInlineEndColor => "currentcolor",
            CssProperty::BorderInlineEndRadius => "0",
            CssProperty::BorderInlineEndStyle => "none",
            CssProperty::BorderInlineEndWidth => "medium",
            CssProperty::BorderInlineStart => "See individual properties",
            CssProperty::BorderInlineStartClip => "none",
            CssProperty::BorderInlineStartColor => "currentcolor",
            CssProperty::BorderInlineStartRadius => "0",
            CssProperty::BorderInlineStartStyle => "none",
            CssProperty::BorderInlineStartWidth => "medium",
            CssProperty::BorderInlineStyle => "see individual properties",
            CssProperty::BorderInlineWidth => "see individual properties",
            CssProperty::BorderLeft => "See individual properties",
            CssProperty::BorderLeftClip => "none",
            CssProperty::BorderLeftColor => "currentcolor",
            CssProperty::BorderLeftRadius => "0",
            CssProperty::BorderLeftStyle => "none",
            CssProperty::BorderLeftWidth => "medium",
            CssProperty::BorderLimit => "all",
            CssProperty::BorderRadius => "see individual properties",
            CssProperty::BorderRight => "See individual properties",
            CssProperty::BorderRightClip => "none",
            CssProperty::BorderRightColor => "currentcolor",
            CssProperty::BorderRightRadius => "0",
            CssProperty::BorderRightStyle => "none",
            CssProperty::BorderRightWidth => "medium",
            CssProperty::BorderShape => "none",
            CssProperty::BorderSpacing => "0px 0px",
            _ => self.initial_from_200(),
        }
    }

    fn initial_from_200(&self) -> (r: &'static str)
        ensures
            r@ == self.spec_initial_from_200(),
    {
        match self {
            CssProperty::BorderStartEndRadius => "0",
            CssProperty::BorderStartStartRadius => "0",
            CssProperty::BorderStyle => "see individual properties",
            CssProperty::BorderTop => "See individual properties",
            CssProperty::BorderTopClip => "none",
            CssProperty::BorderTopColor => "currentcolor",
            CssProperty::BorderTopLeftRadius => "0",
            CssProperty::BorderTopRadius => "0",
            CssProperty::BorderTopRightRadius => "0",
            CssProperty::BorderTopStyle => "none",
            CssProperty::BorderTopWidth => "medium",
            CssProperty::BorderWidth => "see individual properties",
            CssProperty::Bottom => "auto",
            CssProperty::BoxDecorationBreak => "slice",
            CssProperty::BoxShadow => "none",
            CssProperty::BoxShadowBlur => "0",
            CssProperty::BoxShadowColor => "currentcolor",
            CssProperty::BoxShadowOffset => "none",
            CssProperty::BoxShadowPosition => "outset",
            CssProperty::BoxShadowSpread => "0",
            CssProperty::BoxSizing => "content-box",
            CssProperty::BoxSnap => "none",
            CssProperty::BreakAfter => "auto",
            CssProperty::BreakBefore => "auto",
            CssProperty::BreakInside => "auto",
            CssProperty::CaptionSide => "top",
            CssProperty::Caret => "auto",
            CssProperty::CaretAnimation => "auto",
            CssProperty::CaretColor => "auto",
            CssProperty::CaretShape => "auto",
            CssProperty::Clear => "none",
            CssProperty::Clip => "auto",
            CssProperty::ClipPath => "none",
            CssProperty::ClipRule => "nonzero",
            CssProperty::Color => "CanvasText",
            CssProperty::ColorAdjust => "see individual properties",
            CssProperty::ColorInterpolation => "sRGB",
            CssProperty::ColorInterpolationFilters => "linearRGB",
            CssProperty::ColorScheme => "normal",
            CssProperty::ColumnCount => "auto",
            CssProperty::ColumnFill => "balance",
            CssProperty::ColumnGap => "normal",
            CssProperty::ColumnHeight => "auto",
            CssProperty::ColumnRule => "see individual properties",
            CssProperty::ColumnRuleBreak => "normal",
            CssProperty::ColumnRuleColor => "currentcolor",
            CssProperty::ColumnRuleInset => "see individual properties",
            CssProperty::ColumnRuleInsetCap => "see individual properties",
            CssProperty::ColumnRuleInsetCapEnd => "0",
            CssProperty::ColumnRuleInsetCapStart => "0",
            CssProperty::ColumnRuleInsetEnd => "see individual properties",
            CssProperty::ColumnRuleInsetJunction => "see individual properties",
            CssProperty::ColumnRuleInsetJunctionEnd => "0",
            CssProperty::ColumnRuleInsetJunctionStart => "0",
            CssProperty::ColumnRuleInsetStart => "see individual properties",
            CssProperty::ColumnRuleStyle => "none",
            CssProperty::ColumnRuleVisibilityItems => "normal",
            CssProperty::ColumnRuleWidth => "medium",
            CssProperty::ColumnSpan => "none",
            CssProperty::ColumnWidth => "auto",
            CssProperty::ColumnWrap => "auto",
            CssProperty::Columns => "see individual properties",
            CssProperty::Contain => "none",
            CssProperty::ContainIntrinsicBlockSize => "none",
            CssProperty::ContainIntrinsicHeight => "none",
            CssProperty::ContainIntrinsicInlineSize => "none",
            CssProperty::ContainIntrinsicSize => "see individual properties",
            CssProperty::ContainIntrinsicWidth => "none",
            CssProperty::Container => "see individual properties",
            CssProperty::ContainerName => "none",
            CssProperty::ContainerType => "normal",
            CssProperty::Content => "normal",
            CssProperty::ContentVisibility => "visible",
            CssProperty::Continue => "auto",
            CssProperty::CopyInto => "none",
            CssProperty::Corner => "0",
            CssProperty::CornerBlockEnd => "0",
            CssProperty::CornerBlockEndShape => "see individual properties",
            CssProperty::CornerBlockStart => "0",
            CssProperty::CornerBlockStartShape => "see individual properties",
            CssProperty::CornerBottom => "0",
            CssProperty::CornerBottomLeft => "0",
            CssProperty::CornerBottomLeftShape => "round",
            CssProperty::CornerBottomRight => "0",
            CssProperty::CornerBottomRightShape => "round",
            CssProperty::CornerBottomShape => "see individual properties",
            CssProperty::CornerEndEnd => "0",
            CssProperty::CornerEndEndShape => "round",
            CssProperty::CornerEndStart => "0",
            CssProperty::CornerEndStartShape => "round",
            CssProperty::CornerInlineEnd => "0",
            CssProperty::CornerInlineEndShape => "see individual properties",
            CssProperty::CornerInlineStart => "0",
            CssProperty::CornerInlineStartShape => "see individual properties",
            CssProperty::CornerLeft => "0",
            CssProperty::CornerLeftShape => "see individual properties",
            CssProperty::CornerRight => "0",
            CssProperty::CornerRightShape => "see individual properties",
            CssProperty::CornerShape => "round",
            CssProperty::CornerStartEnd => "0",
            _ => self.initial_from_300(),
        }
    }

    fn initial_from_300(&self) -> (r: &'static str)
        ensures
            r@ == self.spec_initial_from_300(),
    {
        match self {
            CssProperty::CornerStartEndShape => "round",
            CssProperty::CornerStartStart => "0",
            CssProperty::CornerStartStartShape => "round",
            CssProperty::CornerTop => "0",
            CssProperty::CornerTopLeft => "0",
            CssProperty::CornerTopLeftShape => "round",
            CssProperty::CornerTopRight => "0",
            CssProperty::CornerTopRightShape => "round",
            CssProperty::CornerTopShape => "see individual properties",
            CssProperty::CounterIncrement => "none",
            CssProperty::CounterReset => "none",
            CssProperty::CounterSet => "none",
            CssProperty::Cue => "see individual properties",
            CssProperty::CueAfter => "none",
            CssProperty::CueBefore => "none",
            CssProperty::Cursor => "auto",
            CssProperty::Cx => "0",
            CssProperty::Cy => "0",
            CssProperty::D => "none",
            CssProperty::Direction => "ltr",
            CssProperty::Display => "inline",
            CssProperty::DominantBaseline => "auto",
            CssProperty::DynamicRangeLimit => "no-limit",
            CssProperty::EmptyCells => "show",
            CssProperty::EventTrigger => "none",
            CssProperty::EventTriggerName => "none",
            CssProperty::EventTriggerSource => "none",
            CssProperty::FieldSizing => "fixed",
            CssProperty::Fill => "black",
            CssProperty::FillBreak => "bounding-box",
            CssProperty::FillColor => "currentcolor",
            CssProperty::FillImage => "none",
            CssProperty::FillOpacity => "1",
            CssProperty::FillOrigin => "match-parent",
            CssProperty::FillPosition => "0% 0%",
            CssProperty::FillRepeat => "repeat",
            CssProperty::FillRule => "nonzero",
            CssProperty::FillSize => "auto",
            CssProperty::Filter => "none",
            CssProperty::Flex => "0 1 auto",
            CssProperty::FlexBasis => "auto",
            CssProperty::FlexDirection => "row",
            CssProperty::FlexFlow => "see individual properties",
            CssProperty::FlexGrow => "0",
            CssProperty::FlexShrink => "1",
            CssProperty::FlexWrap => "nowrap",
            CssProperty::Float => "none",
            CssProperty::FloatDefer => "none",
            CssProperty::FloatOffset => "0",
            CssProperty::FloatReference => "inline",
            CssProperty::FloodColor => "black",
            CssProperty::FloodOpacity => "1",
            CssProperty::FlowFrom => "none",
            CssProperty::FlowInto => "none",
            CssProperty::FlowTolerance => "normal",
            CssProperty::Font => "see individual properties",
            CssProperty::FontFamily => "depends on user agent",
            CssProperty::FontFeatureSettings => "normal",
            CssProperty::FontKerning => "auto",
            CssProperty::FontLanguageOverride => "normal",
            CssProperty::FontOpticalSizing => "auto",
            CssProperty::FontPalette => "normal",
            CssProperty::FontSize => "medium",
            CssProperty::FontSizeAdjust => "none",
            CssProperty::FontStretch => "",
            CssProperty::FontStyle => "normal",
            CssProperty::FontSynthesis => "weight style small-caps position",
            CssProperty::FontSynthesisPosition => "auto",
            CssProperty::FontSynthesisSmallCaps => "auto",
            CssProperty::FontSynthesisStyle => "auto",
            CssProperty::FontSynthesisWeight => "auto",
            CssProperty::FontVariant => "normal",
            CssProperty::FontVariantAlternates => "normal",
            CssProperty::FontVariantCaps => "normal",
            CssProperty::FontVariantEastAsian => "normal",
            CssProperty::FontVariantEmoji => "normal",
            CssProperty::FontVariantLigatures => "normal",
            CssProperty::FontVariantNumeric => "normal",
            CssProperty::FontVariantPosition => "normal",
            CssProperty::FontVariationSettings => "normal",
            CssProperty::FontWeight => "normal",
            CssProperty::FontWidth => "normal",
            CssProperty::FootnoteDisplay => "block",
            CssProperty::FootnotePolicy => "auto",
            CssProperty::ForcedColorAdjust => "auto",
            CssProperty::FrameSizing => "auto",
            CssProperty::Gap => "see individual properties",
            CssProperty::GlyphOrientationVertical => "n/a",
            CssProperty::Grid => "none",
            CssProperty::GridArea => "auto",
            CssProperty::GridAutoColumns => "auto",
            CssProperty::GridAutoFlow => "row",
            CssProperty::GridAutoRows => "auto",
            CssProperty::GridColumn => "auto",
            CssProperty::GridColumnEnd => "auto",
            CssProperty::GridColumnGap => "",
            CssProperty::GridColumnStart => "auto",
            CssProperty::GridGap => "",
            CssProperty::GridRow => "auto",
            CssProperty::GridRowEnd => "auto",
            _ => self.initial_from_400(),
        }
    }

    fn initial_from_400(&self) -> (r: &'static str)
        ensures
            r@ == self.spec_initial_from_400(),
    {
        match self {
            CssProperty::GridRowGap => "",
            CssProperty::GridRowStart => "auto",
            CssProperty::GridTemplate => "none",
            CssProperty::GridTemplateAreas => "none",
            CssProperty::GridTemplateColumns => "none",
            CssProperty::GridTemplateRows => "none",
            CssProperty::HangingPunctuation => "none",
            CssProperty::Height => "auto",
            CssProperty::HyphenateCharacter => "auto",
            CssProperty::HyphenateLimitChars => "auto",
            CssProperty::HyphenateLimitLast => "none",
            CssProperty::HyphenateLimitLines => "no-limit",
            CssProperty::HyphenateLimitZone => "0",
            CssProperty::Hyphens => "manual",
            CssProperty::ImageAnimation => "normal",
            CssProperty::ImageOrientation => "from-image",
            CssProperty::ImageRendering => "auto",
            CssProperty::ImageResolution => "1dppx",
            CssProperty::InitialLetter => "normal",
            CssProperty::InitialLetterAlign => "alphabetic",
            CssProperty::InitialLetterWrap => "none",
            CssProperty::InlineSize => "auto",
            CssProperty::InlineSizing => "normal",
            CssProperty::InputSecurity => "auto",
            CssProperty::Inset => "auto",
            CssProperty::InsetBlock => "auto",
            CssProperty::InsetBlockEnd => "auto",
            CssProperty::InsetBlockStart => "auto",
            CssProperty::InsetInline => "auto",
            CssProperty::InsetInlineEnd => "auto",
            CssProperty::InsetInlineStart => "auto",
            CssProperty::Interactivity => "auto",
            CssProperty::InterestDelay => "see individual properties",
            CssProperty::InterestDelayEnd => "normal",
            CssProperty::InterestDelayStart => "normal",
            CssProperty::InterpolateSize => "numeric-only",
            CssProperty::Isolation => "auto",
            CssProperty::JustifyContent => "normal",
            CssProperty::JustifyItems => "legacy",
            CssProperty::JustifySelf => "auto",
            CssProperty::Left => "auto",
            CssProperty::LetterSpacing => "normal",
            CssProperty::LightingColor => "white",
            CssProperty::LineBreak => "auto",
            CssProperty::LineClamp => "none",
            CssProperty::LineFitEdge => "leading",
            CssProperty::LineGrid => "match-parent",
            CssProperty::LineHeight => "normal",
            CssProperty::LineHeightStep => "0",
            CssProperty::LinePadding => "0",
            CssProperty::LineSnap => "none",
            CssProperty::LinkParameters => "none",
            CssProperty::ListStyle => "see individual properties",
            CssProperty::ListStyleImage => "none",
            CssProperty::ListStylePosition => "outside",
            CssProperty::ListStyleType => "disc",
            CssProperty::Margin => "0",
            CssProperty::MarginBlock => "see individual properties",
            CssProperty::MarginBlockEnd => "0",
            CssProperty::MarginBlockStart => "0",
            CssProperty::MarginBottom => "0",
            CssProperty::MarginBreak => "auto",
            CssProperty::MarginInline => "see individual properties",
            CssProperty::MarginInlineEnd => "0",
            CssProperty::MarginInlineStart => "0",
            CssProperty::MarginLeft => "0",
            CssProperty::MarginRight => "0",
            CssProperty::MarginTop => "0",
            CssProperty::MarginTrim => "none",
            CssProperty::Marker => "not defined for shorthand properties",
            CssProperty::MarkerEnd => "none",
            CssProperty::MarkerMid => "none",
            CssProperty::MarkerSide => "match-self",
            CssProperty::MarkerStart => "none",
            CssProperty::Mask => "see individual properties",
            CssProperty::MaskBorder => "See individual properties",
            CssProperty::MaskBorderMode => "alpha",
            CssProperty::MaskBorderOutset => "0",
            CssProperty::MaskBorderRepeat => "stretch",
            CssProperty::MaskBorderSlice => "0",
            CssProperty::MaskBorderSource => "none",
            CssProperty::MaskBorderWidth => "auto",
            CssProperty::MaskClip => "border-box",
            CssProperty::MaskComposite => "add",
            CssProperty::MaskImage => "none",
            CssProperty::MaskMode => "match-source",
            CssProperty::MaskOrigin => "border-box",
            CssProperty::MaskPosition => "0% 0%",
            CssProperty::MaskRepeat => "repeat",
            CssProperty::MaskSize => "auto",
            CssProperty::MaskType => "luminance",
            CssProperty::MathDepth => "0",
            CssProperty::MathShift => "normal",
            CssProperty::MathStyle => "normal",
            CssProperty::MaxBlockSize => "none",
            CssProperty::MaxHeight => "none",
            CssProperty::MaxInlineSize => "none",
            CssProperty::MaxLines => "none",
            CssProperty::MaxWidth => "none",
            CssProperty::MinBlockSize => "0",
            _ => self.initial_from_500(),
        }
    }

    fn initial_from_500(&self) -> (r: &'static str)
        ensures
            r@ == self.spec_initial_from_500(),
    {
        match self {
            CssProperty::MinHeight => "auto",
            CssProperty::MinInlineSize => "0",
            CssProperty::MinIntrinsicSizing => "legacy",
            CssProperty::MinWidth => "auto",
            CssProperty::MixBlendMode => "normal",
            CssProperty::NavDown => "auto",
            CssProperty::NavLeft => "auto",
            CssProperty::NavRight => "auto",
            CssProperty::NavUp => "auto",
            CssProperty::ObjectFit => "fill",
            CssProperty::ObjectPosition => "50% 50%",
            CssProperty::ObjectViewBox => "none",
            CssProperty::Offset => "see individual properties",
            CssProperty::OffsetAnchor => "auto",
            CssProperty::OffsetDistance => "0",
            CssProperty::OffsetPath => "none",
            CssProperty::OffsetPosition => "normal",
            CssProperty::OffsetRotate => "auto",
            CssProperty::Opacity => "1",
            CssProperty::Order => "0",
            CssProperty::Orphans => "2",
            CssProperty::Outline => "see individual properties",
            CssProperty::OutlineColor => "auto",
            CssProperty::OutlineOffset => "0",
            CssProperty::OutlineStyle => "none",
            CssProperty::OutlineWidth => "medium",
            CssProperty::Overflow => "visible",
            CssProperty::OverflowAnchor => "auto",
            CssProperty::OverflowBlock => "visible",
            CssProperty::OverflowClipMargin => "0px",
            CssProperty::OverflowClipMarginBlock => "0px",
            CssProperty::OverflowClipMarginBlockEnd => "0px",
            CssProperty::OverflowClipMarginBlockStart => "0px",
            CssProperty::OverflowClipMarginBottom => "0px",
            CssProperty::OverflowClipMarginInline => "0px",
            CssProperty::OverflowClipMarginInlineEnd => "0px",
            CssProperty::OverflowClipMarginInlineStart => "0px",
            CssProperty::OverflowClipMarginLeft => "0px",
            CssProperty::OverflowClipMarginRight => "0px",
            CssProperty::OverflowClipMarginTop => "0px",
            CssProperty::OverflowInline => "visible",
            CssProperty::OverflowWrap => "normal",
            CssProperty::OverflowX => "visible",
            CssProperty::OverflowY => "visible",
            CssProperty::Overlay => "none",
            CssProperty::OverscrollBehavior => "auto auto",
            CssProperty::OverscrollBehaviorBlock => "auto",
            CssProperty::OverscrollBehaviorInline => "auto",
            CssProperty::OverscrollBehaviorX => "auto",
            CssProperty::OverscrollBehaviorY => "auto",
            CssProperty::Padding => "0",
            CssProperty::PaddingBlock => "see individual properties",
            CssProperty::PaddingBlockEnd => "0",
            CssProperty::PaddingBlockStart => "0",
            CssProperty::PaddingBottom => "0",
            CssProperty::PaddingInline => "see individual properties",
            CssProperty::PaddingInlineEnd => "0",
            CssProperty::PaddingInlineStart => "0",
            CssProperty::PaddingLeft => "0",
            CssProperty::PaddingRight => "0",
            CssProperty::PaddingTop => "0",
            CssProperty::Page => "auto",
            CssProperty::PageBreakAfter => "auto",
            CssProperty::PageBreakBefore => "auto",
            CssProperty::PageBreakInside => "auto",
            CssProperty::PaintOrder => "normal",
            CssProperty::PathLength => "none",
            CssProperty::Pause => "see individual properties",
            CssProperty::PauseAfter => "none",
            CssProperty::PauseBefore => "none",
            CssProperty::Perspective => "none",
            CssProperty::PerspectiveOrigin => "50% 50%",
            CssProperty::PlaceContent => "normal",
            CssProperty::PlaceItems => "see individual properties",
            CssProperty::PlaceSelf => "auto",
            CssProperty::PointerEvents => "auto",
            CssProperty::PointerTimeline => "see individual properties",
            CssProperty::PointerTimelineAxis => "block",
            CssProperty::PointerTimelineName => "none",
            CssProperty::Position => "static",
            CssProperty::PositionAnchor => "normal",
            CssProperty::PositionArea => "none",
            CssProperty::PositionTry => "see individual properties",
            CssProperty::PositionTryFallbacks => "none",
            CssProperty::PositionTryOrder => "normal",
            CssProperty::PositionVisibility => "anchors-visible",
            CssProperty::PrintColorAdjust => "economy",
            CssProperty::Quotes => "auto",
            CssProperty::R => "0",
            CssProperty::ReadingFlow => "normal",
            CssProperty::ReadingOrder => "0",
            CssProperty::RegionFragment => "auto",
            CssProperty::Resize => "none",
            CssProperty::Rest => "see individual properties",
            CssProperty::RestAfter => "none",
            CssProperty::RestBefore => "none",
            CssProperty::Right => "auto",
            CssProperty::Rotate => "none",
            CssProperty::RowGap => "normal",
            CssProperty::RowRule => "see individual properties",
            _ => self.initial_from_600(),
        }
    }

    fn initial_from_600(&self) -> (r: &'static str)
        ensures
            r@ == self.spec_initial_from_600(),
    {
        match self {
            CssProperty::RowRuleBreak => "normal",
            CssProperty::RowRuleColor => "currentcolor",
            CssProperty::RowRuleInset => "see individual properties",
            CssProperty::RowRuleInsetCap => "see individual properties",
            CssProperty::RowRuleInsetCapEnd => "0",
            CssProperty::RowRuleInsetCapStart => "0",
            CssProperty::RowRuleInsetEnd => "see individual properties",
            CssProperty::RowRuleInsetJunction => "see individual properties",
            CssProperty::RowRuleInsetJunctionEnd => "0",
            CssProperty::RowRuleInsetJunctionStart => "0",
            CssProperty::RowRuleInsetStart => "see individual properties",
            CssProperty::RowRuleStyle => "none",
            CssProperty::RowRuleVisibilityItems => "normal",
            CssProperty::RowRuleWidth => "medium",
            CssProperty::RubyAlign => "space-around",
            CssProperty::RubyMerge => "separate",
            CssProperty::RubyOverhang => "auto",
            CssProperty::RubyPosition => "alternate",
            CssProperty::Rule => "see individual properties",
            CssProperty::RuleBreak => "see individual properties",
            CssProperty::RuleColor => "see individual properties",
            CssProperty::RuleInset => "see individual properties",
            CssProperty::RuleInsetCap => "see individual properties",
            CssProperty::RuleInsetEnd => "see individual properties",
            CssProperty::RuleInsetJunction => "see individual properties",
            CssProperty::RuleInsetStart => "see individual properties",
            CssProperty::RuleOverlap => "row-over-column",
            CssProperty::RuleStyle => "see individual properties",
            CssProperty::RuleVisibilityItems => "see individual properties",
            CssProperty::RuleWidth => "see individual properties",
            CssProperty::Rx => "auto",
            CssProperty::Ry => "auto",
            CssProperty::Scale => "none",
            CssProperty::ScrollBehavior => "auto",
            CssProperty::ScrollInitialTarget => "none",
            CssProperty::ScrollMargin => "0",
            CssProperty::ScrollMarginBlock => "0",
            CssProperty::ScrollMarginBlockEnd => "0",
            CssProperty::ScrollMarginBlockStart => "0",
            CssProperty::ScrollMarginBottom => "0",
            CssProperty::ScrollMarginInline => "0",
            CssProperty::ScrollMarginInlineEnd => "0",
            CssProperty::ScrollMarginInlineStart => "0",
            CssProperty::ScrollMarginLeft => "0",
            CssProperty::ScrollMarginRight => "0",
            CssProperty::ScrollMarginTop => "0",
            CssProperty::ScrollMarkerGroup => "none",
            CssProperty::ScrollPadding => "auto",
            CssProperty::ScrollPaddingBlock => "auto",
            CssProperty::ScrollPaddingBlockEnd => "auto",
            CssProperty::ScrollPaddingBlockStart => "auto",
            CssProperty::ScrollPaddingBottom => "auto",
            CssProperty::ScrollPaddingInline => "auto",
            CssProperty::ScrollPaddingInlineEnd => "auto",
            CssProperty::ScrollPaddingInlineStart => "auto",
            CssProperty::ScrollPaddingLeft => "auto",
            CssProperty::ScrollPaddingRight => "auto",
            CssProperty::ScrollPaddingTop => "auto",
            CssProperty::ScrollSnapAlign => "none",
            CssProperty::ScrollSnapStop => "normal",
            CssProperty::ScrollSnapType => "none",
            CssProperty::ScrollTargetGroup => "none",
            CssProperty::ScrollTimeline => "see individual properties",
            CssProperty::ScrollTimelineAxis => "block",
            CssProperty::ScrollTimelineName => "none",
            CssProperty::ScrollbarColor => "auto",
            CssProperty::ScrollbarGutter => "auto",
            CssProperty::ScrollbarInset => "0px",
            CssProperty::ScrollbarMinThumbSize => "20px",
            CssProperty::ScrollbarMode => "auto",
            CssProperty::ScrollbarWidth => "auto",
            CssProperty::ShapeImageThreshold => "0",
            CssProperty::ShapeInside => "auto",
            CssProperty::ShapeMargin => "0",
            CssProperty::ShapeOutside => "none",
            CssProperty::ShapePadding => "0",
            CssProperty::ShapeRendering => "auto",
            CssProperty::SliderOrientation => "auto",
            CssProperty::SpatialNavigationAction => "auto",
            CssProperty::SpatialNavigationContain => "auto",
            CssProperty::SpatialNavigationFunction => "normal",
            CssProperty::Speak => "auto",
            CssProperty::SpeakAs => "normal",
            CssProperty::StopColor => "",
            CssProperty::StopOpacity => "",
            CssProperty::StringSet => "none",
            CssProperty::Stroke => "none",
            CssProperty::StrokeAlign => "center",
            CssProperty::StrokeAlignment => "center",
            CssProperty::StrokeBreak => "bounding-box",
            CssProperty::StrokeColor => "transparent",
            CssProperty::StrokeDashCornerPropdefStrokeDashCorner => "none",
            CssProperty::StrokeDashJustify => "none",
            CssProperty::StrokeDashadjust => "none",
            CssProperty::StrokeDasharray => "none",
            CssProperty::StrokeDashcornerStrokedashcornerproperty => "none",
            CssProperty::StrokeDashoffset => "0",
            CssProperty::StrokeImage => "none",
            CssProperty::StrokeLinecap => "butt",
            CssProperty::StrokeLinejoin => "miter",
            _ => self.initial_from_700(),
        }
    }

    fn initial_from_700(&self) -> (r: &'static str)
        ensures
            r@ == self.spec_initial_from_700(),
    {
        match self {
            CssProperty::StrokeMiterlimit => "4",
            CssProperty::StrokeOpacity => "1",
            CssProperty::StrokeOrigin => "match-parent",
            CssProperty::StrokePosition => "0% 0%",
            CssProperty::StrokeRepeat => "repeat",
            CssProperty::StrokeSize => "auto",
            CssProperty::StrokeWidth => "1px",
            CssProperty::TabSize => "8",
            CssProperty::TableLayout => "auto",
            CssProperty::TextAlign => "start",
            CssProperty::TextAlignAll => "start",
            CssProperty::TextAlignLast => "auto",
            CssProperty::TextAnchor => "start",
            CssProperty::TextAutospace => "normal",
            CssProperty::TextBox => "normal",
            CssProperty::TextBoxEdge => "auto",
            CssProperty::TextBoxTrim => "none",
            CssProperty::TextCombineUpright => "none",
            CssProperty::TextDecoration => "see individual properties",
            CssProperty::TextDecorationColor => "currentcolor",
            CssProperty::TextDecorationInset => "0",
            CssProperty::TextDecorationLine => "none",
            CssProperty::TextDecorationSkip => "See individual properties",
            CssProperty::TextDecorationSkipBox => "none",
            CssProperty::TextDecorationSkipInk => "auto",
            CssProperty::TextDecorationSkipSelf => "auto",
            CssProperty::TextDecorationSkipSpaces => "start end",
            CssProperty::TextDecorationStyle => "solid",
            CssProperty::TextDecorationThickness => "auto",
            CssProperty::TextEmphasis => "see individual properties",
            CssProperty::TextEmphasisColor => "currentcolor",
            CssProperty::TextEmphasisPosition => "over right",
            CssProperty::TextEmphasisSkip => "spaces punctuation",
            CssProperty::TextEmphasisStyle => "none",
            CssProperty::TextFit => "none",
            CssProperty::TextGroupAlign => "none",
            CssProperty::TextIndent => "0",
            CssProperty::TextJustify => "auto",
            CssProperty::TextOrientation => "mixed",
            CssProperty::TextOverflow => "clip",
            CssProperty::TextRendering => "auto",
            CssProperty::TextShadow => "none",
            CssProperty::TextSizeAdjust => "auto",
            CssProperty::TextSpacing => "see individual properties",
            CssProperty::TextSpacingTrim => "normal",
            CssProperty::TextTransform => "none",
            CssProperty::TextUnderlineOffset => "auto",
            CssProperty::TextUnderlinePosition => "auto",
            CssProperty::TextWrap => "wrap",
            CssProperty::TextWrapMode => "wrap",
            CssProperty::TextWrapStyle => "auto",
            CssProperty::TimelineScope => "none",
            CssProperty::TimelineTrigger => "see individual properties",
            CssProperty::TimelineTriggerActivationRange => "see individual properties",
            CssProperty::TimelineTriggerActivationRangeEnd => "normal",
            CssProperty::TimelineTriggerActivationRangeStart => "normal",
            CssProperty::TimelineTriggerActiveRange => "see individual properties",
            CssProperty::TimelineTriggerActiveRangeEnd => "auto",
            CssProperty::TimelineTriggerActiveRangeStart => "auto",
            CssProperty::TimelineTriggerName => "none",
            CssProperty::TimelineTriggerSource => "auto",
            CssProperty::Top => "auto",
            CssProperty::TouchAction => "auto",
            CssProperty::Transform => "none",
            CssProperty::TransformBox => "view-box",
            CssProperty::TransformOrigin => "50% 50%",
            CssProperty::TransformStyle => "flat",
            CssProperty::Transition => "see individual properties",
            CssProperty::TransitionBehavior => "normal",
            CssProperty::TransitionDelay => "0s",
            CssProperty::TransitionDuration => "0s",
            CssProperty::TransitionProperty => "all",
            CssProperty::TransitionTimingFunction => "ease",
            CssProperty::Translate => "none",
            CssProperty::TriggerScope => "none",
            CssProperty::UnicodeBidi => "normal",
            CssProperty::UserSelect => "auto",
            CssProperty::VectorEffect => "none",
            CssProperty::VerticalAlign => "baseline",
            CssProperty::ViewTimeline => "see individual properties",
            CssProperty::ViewTimelineAxis => "block",
            CssProperty::ViewTimelineInset => "auto",
            CssProperty::ViewTimelineName => "none",
            CssProperty::ViewTransitionClass => "none",
            CssProperty::ViewTransitionGroup => "normal",
            CssProperty::ViewTransitionName => "none",
            CssProperty::ViewTransitionScope => "none",
            CssProperty::Visibility => "visible",
            CssProperty::VoiceBalance => "center",
            CssProperty::VoiceDuration => "auto",
            CssProperty::VoiceFamily => "implementation-dependent",
            CssProperty::VoicePitch => "medium",
            CssProperty::VoiceRange => "medium",
            CssProperty::VoiceRate => "normal",
            CssProperty::VoiceStress => "normal",
            CssProperty::VoiceVolume => "medium",
            CssProperty::WhiteSpace => "normal",
            CssProperty::WhiteSpaceCollapse => "collapse",
            CssProperty::WhiteSpaceTrim => "none",
            CssProperty::Widows => "2",
            _ => self.initial_from_800(),
        }
    }

    fn initial_from_800(&self) -> (r: &'static str)
        ensures
            r@ == self.spec_initial_from_800(),
    {
        match self {
            CssProperty::Width => "auto",
            CssProperty::WillChange => "auto",
            CssProperty::WordBreak => "normal",
            CssProperty::WordSpaceTransform => "none",
            CssProperty::WordSpacing => "normal",
            CssProperty::WordWrap => "normal",
            CssProperty::WrapAfter => "auto",
            CssProperty::WrapBefore => "auto",
            CssProperty::WrapFlow => "auto",
            CssProperty::WrapInside => "auto",
            CssProperty::WrapThrough => "wrap",
            CssProperty::WritingMode => "horizontal-tb",
            CssProperty::X => "0",
            CssProperty::Y => "0",
            CssProperty::ZIndex => "auto",
            CssProperty::Zoom => "1",
            CssProperty::Unknown(_) => {
                proof {
                    reveal_strlit("");
                }
                ""
            },
            _ => {
                proof {
                    reveal_strlit("");
                }
                ""
            },
        }
    }

    /// Whether the property is inherited by default.
    pub fn inherited(self) -> (r: bool)
        ensures
            r == self.spec_inherited(),
    {
        match self {
            CssProperty::WebkitAlignContent => false,
            CssProperty::WebkitAlignItems => false,
            CssProperty::WebkitAlignSelf => false,
            CssProperty::WebkitAnimation => false,
            CssProperty::WebkitAnimationDelay => false,
            CssProperty::WebkitAnimationDirection => false,
            CssProperty::WebkitAnimationDuration => false,
            CssProperty::WebkitAnimationFillMode => false,
            CssProperty::WebkitAnimationIterationCount => false,
            CssProperty::WebkitAnimationName => false,
            CssProperty::WebkitAnimationPlayState => false,
            CssProperty::WebkitAnimationTimingFunction => false,
            CssProperty::WebkitAppearance => false,
            CssProperty::WebkitBackfaceVisibility => false,
            CssProperty::WebkitBackgroundClip => false,
            CssProperty::WebkitBackgroundOrigin => false,
            CssProperty::WebkitBackgroundSize => false,
            CssProperty::WebkitBorderBottomLeftRadius => false,
            CssProperty::WebkitBorderBottomRightRadius => false,
            CssProperty::WebkitBorderRadius => false,
            CssProperty::WebkitBorderTopLeftRadius => false,
            CssProperty::WebkitBorderTopRightRadius => false,
            CssProperty::WebkitBoxAlign => false,
            CssProperty::WebkitBoxFlex => false,
            CssProperty::WebkitBoxOrdinalGroup => false,
            CssProperty::WebkitBoxOrient => false,
            CssProperty::WebkitBoxPack => false,
            CssProperty::WebkitBoxShadow => false,
            CssProperty::WebkitBoxSizing => false,
            CssProperty::WebkitFilter => false,
            CssProperty::WebkitFlex => false,
            CssProperty::WebkitFlexBasis => false,
            CssProperty::WebkitFlexDirection => false,
            CssProperty::WebkitFlexFlow => false,
            CssProperty::WebkitFlexGrow => false,
            CssProperty::WebkitFlexShrink => false,
            CssProperty::WebkitFlexWrap => false,
            CssProperty::WebkitJustifyContent => false,
            CssProperty::WebkitLineClamp => false,
            CssProperty::WebkitMask => false,
            CssProperty::WebkitMaskBoxImage => false,
            CssProperty::WebkitMaskBoxImageOutset => false,
            CssProperty::WebkitMaskBoxImageRepeat => false,
            CssProperty::WebkitMaskBoxImageSlice => false,
            CssProperty::WebkitMaskBoxImageSource => false,
            CssProperty::WebkitMaskBoxImageWidth => false,
            CssProperty::WebkitMaskClip => false,
            CssProperty::WebkitMaskComposite => false,
            CssProperty::WebkitMaskImage => false,
            CssProperty::WebkitMaskOrigin => false,
            CssProperty::WebkitMaskPosition => false,
            CssProperty::WebkitMaskRepeat => false,
            CssProperty::WebkitMaskSize => false,
            CssProperty::WebkitOrder => false,
            CssProperty::WebkitPerspective => false,
            CssProperty::WebkitPerspectiveOrigin => false,
            CssProperty::WebkitTextFillColor => true,
            CssProperty::WebkitTextSizeAdjust => false,
            CssProperty::WebkitTextStroke => true,
            CssProperty::WebkitTextStrokeColor => true,
            CssProperty::WebkitTextStrokeWidth => true,
            CssProperty::WebkitTransform => false,
            CssProperty::WebkitTransformOrigin => false,
            CssProperty::WebkitTransformStyle => false,
            CssProperty::WebkitTransition => false,
            CssProperty::WebkitTransitionDelay => false,
            CssProperty::WebkitTransitionDuration => false,
            CssProperty::WebkitTransitionProperty => false,
            CssProperty::WebkitTransitionTimingFunction => false,
            CssProperty::WebkitUserSelect => false,
            CssProperty::AccentColor => true,
            CssProperty::AlignContent => false,
            CssProperty::AlignItems => false,
            CssProperty::AlignSelf => false,
            CssProperty::AlignmentBaseline => false,
            CssProperty::All => false,
            CssProperty::AnchorName => false,
            CssProperty::AnchorScope => false,
            CssProperty::Animation => false,
            CssProperty::AnimationComposition => false,
            CssProperty::AnimationDelay => false,
            CssProperty::AnimationDirection => false,
            CssProperty::AnimationDuration => false,
            CssProperty::AnimationFillMode => false,
            CssProperty::AnimationIterationCount => false,
            CssProperty::AnimationName => false,
            CssProperty::AnimationPlayState => false,
            CssProperty::AnimationRange => false,
            CssProperty::AnimationRangeCenter => false,
            CssProperty::AnimationRangeEnd => false,
            CssProperty::AnimationRangeStart => false,
            CssProperty::AnimationTimeline => false,
            CssProperty::AnimationTimingFunction => false,
            CssProperty::AnimationTrigger => false,
            CssProperty::Appearance => false,
            CssProperty::AspectRatio => false,
            CssProperty::BackdropFilter => false,
            CssProperty::BackfaceVisibility => false,
            CssProperty::Background => false,
            CssProperty::BackgroundAttachment => false,
            _ => self.inherited_from_100(),
        }
    }

    fn inherited_from_100(&self) -> (r: bool)
        ensures
            r == self.spec_inherited_from_100(),
    {
        match self {
            CssProperty::BackgroundBlendMode => false,
            CssProperty::BackgroundClip => false,
            CssProperty::BackgroundColor => false,
            CssProperty::BackgroundImage => false,
            CssProperty::BackgroundOrigin => false,
            CssProperty::BackgroundPosition => false,
            CssProperty::BackgroundPositionBlock => false,
            CssProperty::BackgroundPositionInline => false,
            CssProperty::BackgroundPositionX => false,
            CssProperty::BackgroundPositionY => false,
            CssProperty::BackgroundRepeat => false,
            CssProperty::BackgroundRepeatBlock => false,
            CssProperty::BackgroundRepeatInline => false,
            CssProperty::BackgroundRepeatX => false,
            CssProperty::BackgroundRepeatY => false,
            CssProperty::BackgroundSize => false,
            CssProperty::BackgroundTbd => false,
            CssProperty::BaselineShift => false,
            CssProperty::BaselineSource => false,
            CssProperty::BlockEllipsis => true,
            CssProperty::BlockSize => false,
            CssProperty::BlockStep => false,
            CssProperty::BlockStepAlign => false,
            CssProperty::BlockStepInsert => false,
            CssProperty::BlockStepRound => false,
            CssProperty::BlockStepSize => false,
            CssProperty::BookmarkLabel => false,
            CssProperty::BookmarkLevel => false,
            CssProperty::BookmarkState => false,
            CssProperty::Border => false,
            CssProperty::BorderBlock => false,
            CssProperty::BorderBlockClip => false,
            CssProperty::BorderBlockColor => false,
            CssProperty::BorderBlockEnd => false,
            CssProperty::BorderBlockEndClip => false,
            CssProperty::BorderBlockEndColor => false,
            CssProperty::BorderBlockEndRadius => false,
            CssProperty::BorderBlockEndStyle => false,
            CssProperty::BorderBlockEndWidth => false,
            CssProperty::BorderBlockStart => false,
            CssProperty::BorderBlockStartClip => false,
            CssProperty::BorderBlockStartColor => false,
            CssProperty::BorderBlockStartRadius => false,
            CssProperty::BorderBlockStartStyle => false,
            CssProperty::BorderBlockStartWidth => false,
            CssProperty::BorderBlockStyle => false,
            CssProperty::BorderBlockWidth => false,
            CssProperty::BorderBottom => false,
            CssProperty::BorderBottomClip => false,
            CssProperty::BorderBottomColor => false,
            CssProperty::BorderBottomLeftRadius => false,
            CssProperty::BorderBottomRadius => false,
            CssProperty::BorderBottomRightRadius => false,
            CssProperty::BorderBottomStyle => false,
            CssProperty::BorderBottomWidth => false,
            CssProperty::BorderBoundary => true,
            CssProperty::BorderClip => false,
            CssProperty::BorderCollapse => true,
            CssProperty::BorderColor => false,
            CssProperty::BorderEndEndRadius => false,
            CssProperty::BorderEndStartRadius => false,
            CssProperty::BorderImage => false,
            CssProperty::BorderImageOutset => false,
            CssProperty::BorderImageRepeat => false,
            CssProperty::BorderImageSlice => false,
            CssProperty::BorderImageSource => false,
            CssProperty::BorderImageWidth => false,
            CssProperty::BorderInline => false,
            CssProperty::BorderInlineClip => false,
            CssProperty::BorderInlineColor => false,
            CssProperty::BorderInlineEnd => false,
            CssProperty::BorderInlineEndClip => false,
            CssProperty::BorderInlineEndColor => false,
            CssProperty::BorderInlineEndRadius => false,
            CssProperty::BorderInlineEndStyle => false,
            CssProperty::BorderInlineEndWidth => false,
            CssProperty::BorderInlineStart => false,
            CssProperty::BorderInlineStartClip => false,
            CssProperty::BorderInlineStartColor => false,
            CssProperty::BorderInlineStartRadius => false,
            CssProperty::BorderInlineStartStyle => false,
            CssProperty::BorderInlineStartWidth => false,
            CssProperty::BorderInlineStyle => false,
            CssProperty::BorderInlineWidth => false,
            CssProperty::BorderLeft => false,
            CssProperty::BorderLeftClip => false,
            CssProperty::BorderLeftColor => false,
            CssProperty::BorderLeftRadius => false,
            CssProperty::BorderLeftStyle => false,
            CssProperty::BorderLeftWidth => false,
            CssProperty::BorderLimit => false,
            CssProperty::BorderRadius => false,
            CssProperty::BorderRight => false,
            CssProperty::BorderRightClip => false,
            CssProperty::BorderRightColor => false,
            CssProperty::BorderRightRadius => false,
            CssProperty::BorderRightStyle => false,
            CssProperty::BorderRightWidth => false,
            CssProperty::BorderShape => false,
            CssProperty::BorderSpacing => true,
            _ => self.inherited_from_200(),
        }
    }

    fn inherited_from_200(&self) -> (r: bool)
        ensures
            r == self.spec_inherited_from_200(),
    {
        match self {
            CssProperty::BorderStartEndRadius => false,
            CssProperty::BorderStartStartRadius => false,
            CssProperty::BorderStyle => false,
            CssProperty::BorderTop => false,
            CssProperty::BorderTopClip => false,
            CssProperty::BorderTopColor => false,
            CssProperty::BorderTopLeftRadius => false,
            CssProperty::BorderTopRadius => false,
            CssProperty::BorderTopRightRadius => false,
            CssProperty::BorderTopStyle => false,
            CssProperty::BorderTopWidth => false,
            CssProperty::BorderWidth => false,
            CssProperty::Bottom => false,
            CssProperty::BoxDecorationBreak => false,
            CssProperty::BoxShadow => false,
            CssProperty::BoxShadowBlur => false,
            CssProperty::BoxShadowColor => false,
            CssProperty::BoxShadowOffset => false,
            CssProperty::BoxShadowPosition => false,
            CssProperty::BoxShadowSpread => false,
            CssProperty::BoxSizing => false,
            CssProperty::BoxSnap => true,
            CssProperty::BreakAfter => false,
            CssProperty::BreakBefore => false,
            CssProperty::BreakInside => false,
            CssProperty::CaptionSide => true,
            CssProperty::Caret => true,
            CssProperty::CaretAnimation => true,
            CssProperty::CaretColor => true,
            CssProperty::CaretShape => true,
            CssProperty::Clear => false,
            CssProperty::Clip => false,
            CssProperty::ClipPath => false,
            CssProperty::ClipRule => true,
            CssProperty::Color => true,
            CssProperty::ColorAdjust => false,
            CssProperty::ColorInterpolation => true,
            CssProperty::ColorInterpolationFilters => true,
            CssProperty::ColorScheme => true,
            CssProperty::ColumnCount => false,
            CssProperty::ColumnFill => false,
            CssProperty::ColumnGap => false,
            CssProperty::ColumnHeight => false,
            CssProperty::ColumnRule => false,
            CssProperty::ColumnRuleBreak => false,
            CssProperty::ColumnRuleColor => false,
            CssProperty::ColumnRuleInset => false,
            CssProperty::ColumnRuleInsetCap => false,
            CssProperty::ColumnRuleInsetCapEnd => false,
            CssProperty::ColumnRuleInsetCapStart => false,
            CssProperty::ColumnRuleInsetEnd => false,
            CssProperty::ColumnRuleInsetJunction => false,
            CssProperty::ColumnRuleInsetJunctionEnd => false,
            CssProperty::ColumnRuleInsetJunctionStart => false,
            CssProperty::ColumnRuleInsetStart => false,
            CssProperty::ColumnRuleStyle => false,
            CssProperty::ColumnRuleVisibilityItems => false,
            CssProperty::ColumnRuleWidth => false,
            CssProperty::ColumnSpan => false,
            CssProperty::ColumnWidth => false,
            CssProperty::ColumnWrap => false,
            CssProperty::Columns => false,
            CssProperty::Contain => false,
            CssProperty::ContainIntrinsicBlockSize => false,
            CssProperty::ContainIntrinsicHeight => false,
            CssProperty::ContainIntrinsicInlineSize => false,
            CssProperty::ContainIntrinsicSize => false,
            CssProperty::ContainIntrinsicWidth => false,
            CssProperty::Container => false,
            CssProperty::ContainerName => false,
            CssProperty::ContainerType => false,
            CssProperty::Content => false,
            CssProperty::ContentVisibility => false,
            CssProperty::Continue => false,
            CssProperty::CopyInto => false,
            CssProperty::Corner => false,
            CssProperty::CornerBlockEnd => false,
            CssProperty::CornerBlockEndShape => false,
            CssProperty::CornerBlockStart => false,
            CssProperty::CornerBlockStartShape => false,
            CssProperty::CornerBottom => false,
            CssProperty::CornerBottomLeft => false,
            CssProperty::CornerBottomLeftShape => false,
            CssProperty::CornerBottomRight => false,
            CssProperty::CornerBottomRightShape => false,
            CssProperty::CornerBottomShape => false,
            CssProperty::CornerEndEnd => false,
            CssProperty::CornerEndEndShape => false,
            CssProperty::CornerEndStart => false,
            CssProperty::CornerEndStartShape => false,
            CssProperty::CornerInlineEnd => false,
            CssProperty::CornerInlineEndShape => false,
            CssProperty::CornerInlineStart => false,
            CssProperty::CornerInlineStartShape => false,
            CssProperty::CornerLeft => false,
            CssProperty::CornerLeftShape => false,
            CssProperty::CornerRight => false,
            CssProperty::CornerRightShape => false,
            CssProperty::CornerShape => false,
            CssProperty::CornerStartEnd => false,
            _ => self.inherited_from_300(),
        }
    }

    fn inherited_from_300(&self) -> (r: bool)
        ensures
            r == self.spec_inherited_from_300(),
    {
        match self {
            CssProperty::CornerStartEndShape => false,
            CssProperty::CornerStartStart => false,
            CssProperty::CornerStartStartShape => false,
            CssProperty::CornerTop => false,
            CssProperty::CornerTopLeft => false,
            CssProperty::CornerTopLeftShape => false,
            CssProperty::CornerTopRight => false,
            CssProperty::CornerTopRightShape => false,
            CssProperty::CornerTopShape => false,
            CssProperty::CounterIncrement => false,
            CssProperty::CounterReset => false,
            CssProperty::CounterSet => false,
            CssProperty::Cue => false,
            CssProperty::CueAfter => false,
            CssProperty::CueBefore => false,
            CssProperty::Cursor => true,
            CssProperty::Cx => false,
            CssProperty::Cy => false,
            CssProperty::D => false,
            CssProperty::Direction => true,
            CssProperty::Display => false,
            CssProperty::DominantBaseline => true,
            CssProperty::DynamicRangeLimit => true,
            CssProperty::EmptyCells => true,
            CssProperty::EventTrigger => false,
            CssProperty::EventTriggerName => false,
            CssProperty::EventTriggerSource => false,
            CssProperty::FieldSizing => false,
            CssProperty::Fill => true,
            CssProperty::FillBreak => false,
            CssProperty::FillColor => true,
            CssProperty::FillImage => true,
            CssProperty::FillOpacity => true,
            CssProperty::FillOrigin => false,
            CssProperty::FillPosition => true,
            CssProperty::FillRepeat => true,
            CssProperty::FillRule => true,
            CssProperty::FillSize => true,
            CssProperty::Filter => false,
            CssProperty::Flex => false,
            CssProperty::FlexBasis => false,
            CssProperty::FlexDirection => false,
            CssProperty::FlexFlow => false,
            CssProperty::FlexGrow => false,
            CssProperty::FlexShrink => false,
            CssProperty::FlexWrap => false,
            CssProperty::Float => false,
            CssProperty::FloatDefer => false,
            CssProperty::FloatOffset => false,
            CssProperty::FloatReference => false,
            CssProperty::FloodColor => false,
            CssProperty::FloodOpacity => false,
            CssProperty::FlowFrom => false,
            CssProperty::FlowInto => false,
            CssProperty::FlowTolerance => false,
            CssProperty::Font => true,
            CssProperty::FontFamily => true,
            CssProperty::FontFeatureSettings => true,
            CssProperty::FontKerning => true,
            CssProperty::FontLanguageOverride => true,
            CssProperty::FontOpticalSizing => true,
            CssProperty::FontPalette => true,
            CssProperty::FontSize => true,
            CssProperty::FontSizeAdjust => true,
            CssProperty::FontStretch => false,
            CssProperty::FontStyle => true,
            CssProperty::FontSynthesis => true,
            CssProperty::FontSynthesisPosition => true,
            CssProperty::FontSynthesisSmallCaps => true,
            CssProperty::FontSynthesisStyle => true,
            CssProperty::FontSynthesisWeight => true,
            CssProperty::FontVariant => true,
            CssProperty::FontVariantAlternates => true,
            CssProperty::FontVariantCaps => true,
            CssProperty::FontVariantEastAsian => true,
            CssProperty::FontVariantEmoji => true,
            CssProperty::FontVariantLigatures => true,
            CssProperty::FontVariantNumeric => true,
            CssProperty::FontVariantPosition => true,
            CssProperty::FontVariationSettings => true,
            CssProperty::FontWeight => true,
            CssProperty::FontWidth => true,
            CssProperty::FootnoteDisplay => false,
            CssProperty::FootnotePolicy => false,
            CssProperty::ForcedColorAdjust => true,
            CssProperty::FrameSizing => false,
            CssProperty::Gap => false,
            CssProperty::GlyphOrientationVertical => false,
            CssProperty::Grid => false,
            CssProperty::GridArea => false,
            CssProperty::GridAutoColumns => false,
            CssProperty::GridAutoFlow => false,
            CssProperty::GridAutoRows => false,
            CssProperty::GridColumn => false,
            CssProperty::GridColumnEnd => false,
            CssProperty::GridColumnGap => false,
            CssProperty::GridColumnStart => false,
            CssProperty::GridGap => false,
            CssProperty::GridRow => false,
            CssProperty::GridRowEnd => false,
            _ => self.inherited_from_400(),
        }
    }

    fn inherited_from_400(&self) -> (r: bool)
        ensures
            r == self.spec_inherited_from_400(),
    {
        match self {
            CssProperty::GridRowGap => false,
            CssProperty::GridRowStart => false,
            CssProperty::GridTemplate => false,
            CssProperty::GridTemplateAreas => false,
            CssProperty::GridTemplateColumns => false,
            CssProperty::GridTemplateRows => false,
            CssProperty::HangingPunctuation => true,
            CssProperty::Height => false,
            CssProperty::HyphenateCharacter => true,
            CssProperty::HyphenateLimitChars => true,
            CssProperty::HyphenateLimitLast => true,
            CssProperty::HyphenateLimitLines => true,
            CssProperty::HyphenateLimitZone => true,
            CssProperty::Hyphens => true,
            CssProperty::ImageAnimation => true,
            CssProperty::ImageOrientation => true,
            CssProperty::ImageRendering => true,
            CssProperty::ImageResolution => true,
            CssProperty::InitialLetter => false,
            CssProperty::InitialLetterAlign => true,
            CssProperty::InitialLetterWrap => true,
            CssProperty::InlineSize => false,
            CssProperty::InlineSizing => true,
            CssProperty::InputSecurity => false,
            CssProperty::Inset => false,
            CssProperty::InsetBlock => false,
            CssProperty::InsetBlockEnd => false,
            CssProperty::InsetBlockStart => false,
            CssProperty::InsetInline => false,
            CssProperty::InsetInlineEnd => false,
            CssProperty::InsetInlineStart => false,
            CssProperty::Interactivity => true,
            CssProperty::InterestDelay => false,
            CssProperty::InterestDelayEnd => true,
            CssProperty::InterestDelayStart => true,
            CssProperty::InterpolateSize => true,
            CssProperty::Isolation => false,
            CssProperty::JustifyContent => false,
            CssProperty::JustifyItems => false,
            CssProperty::JustifySelf => false,
            CssProperty::Left => false,
            CssProperty::LetterSpacing => true,
            CssProperty::LightingColor => false,
            CssProperty::LineBreak => true,
            CssProperty::LineClamp => false,
            CssProperty::LineFitEdge => true,
            CssProperty::LineGrid => false,
            CssProperty::LineHeight => true,
            CssProperty::LineHeightStep => true,
            CssProperty::LinePadding => true,
            CssProperty::LineSnap => true,
            CssProperty::LinkParameters => false,
            CssProperty::ListStyle => false,
            CssProperty::ListStyleImage => true,
            CssProperty::ListStylePosition => true,
            CssProperty::ListStyleType => true,
            CssProperty::Margin => false,
            CssProperty::MarginBlock => false,
            CssProperty::MarginBlockEnd => false,
            CssProperty::MarginBlockStart => false,
            CssProperty::MarginBottom => false,
            CssProperty::MarginBreak => false,
            CssProperty::MarginInline => false,
            CssProperty::MarginInlineEnd => false,
            CssProperty::MarginInlineStart => false,
            CssProperty::MarginLeft => false,
            CssProperty::MarginRight => false,
            CssProperty::MarginTop => false,
            CssProperty::MarginTrim => false,
            CssProperty::Marker => true,
            CssProperty::MarkerEnd => true,
            CssProperty::MarkerMid => true,
            CssProperty::MarkerSide => true,
            CssProperty::MarkerStart => true,
            CssProperty::Mask => false,
            CssProperty::MaskBorder => false,
            CssProperty::MaskBorderMode => false,
            CssProperty::MaskBorderOutset => false,
            CssProperty::MaskBorderRepeat => false,
            CssProperty::MaskBorderSlice => false,
            CssProperty::MaskBorderSource => false,
            CssProperty::MaskBorderWidth => false,
            CssProperty::MaskClip => false,
            CssProperty::MaskComposite => false,
            CssProperty::MaskImage => false,
            CssProperty::MaskMode => false,
            CssProperty::MaskOrigin => false,
            CssProperty::MaskPosition => false,
            CssProperty::MaskRepeat => false,
            CssProperty::MaskSize => false,
            CssProperty::MaskType => false,
            CssProperty::MathDepth => true,
            CssProperty::MathShift => true,
            CssProperty::MathStyle => true,
            CssProperty::MaxBlockSize => false,
            CssProperty::MaxHeight => false,
            CssProperty::MaxInlineSize => false,
            CssProperty::MaxLines => false,
            CssProperty::MaxWidth => false,
            CssProperty::MinBlockSize => false,
            _ => self.inherited_from_500(),
        }
    }

    fn inherited_from_500(&self) -> (r: bool)
        ensures
            r == self.spec_inherited_from_500(),
    {
        match self {
            CssProperty::MinHeight => false,
            CssProperty::MinInlineSize => false,
            CssProperty::MinIntrinsicSizing => false,
            CssProperty::MinWidth => false,
            CssProperty::MixBlendMode => false,
            CssProperty::NavDown => false,
            CssProperty::NavLeft => false,
            CssProperty::NavRight => false,
            CssProperty::NavUp => false,
            CssProperty::ObjectFit => false,
            CssProperty::ObjectPosition => false,
            CssProperty::ObjectViewBox => false,
            CssProperty::Offset => false,
            CssProperty::OffsetAnchor => false,
            CssProperty::OffsetDistance => false,
            CssProperty::OffsetPath => false,
            CssProperty::OffsetPosition => false,
            CssProperty::OffsetRotate => false,
            CssProperty::Opacity => false,
            CssProperty::Order => false,
            CssProperty::Orphans => true,
            CssProperty::Outline => false,
            CssProperty::OutlineColor => false,
            CssProperty::OutlineOffset => false,
            CssProperty::OutlineStyle => false,
            CssProperty::OutlineWidth => false,
            CssProperty::Overflow => false,
            CssProperty::OverflowAnchor => false,
            CssProperty::OverflowBlock => false,
            CssProperty::OverflowClipMargin => false,
            CssProperty::OverflowClipMarginBlock => false,
            CssProperty::OverflowClipMarginBlockEnd => false,
            CssProperty::OverflowClipMarginBlockStart => false,
            CssProperty::OverflowClipMarginBottom => false,
            CssProperty::OverflowClipMarginInline => false,
            CssProperty::OverflowClipMarginInlineEnd => false,
            CssProperty::OverflowClipMarginInlineStart => false,
            CssProperty::OverflowClipMarginLeft => false,
            CssProperty::OverflowClipMarginRight => false,
            CssProperty::OverflowClipMarginTop => false,
            CssProperty::OverflowInline => false,
            CssProperty::OverflowWrap => true,
            CssProperty::OverflowX => false,
            CssProperty::OverflowY => false,
            CssProperty::Overlay => false,
            CssProperty::OverscrollBehavior => false,
            CssProperty::OverscrollBehaviorBlock => false,
            CssProperty::OverscrollBehaviorInline => false,
            CssProperty::OverscrollBehaviorX => false,
            CssProperty::OverscrollBehaviorY => false,
            CssProperty::Padding => false,
            CssProperty::PaddingBlock => false,
            CssProperty::PaddingBlockEnd => false,
            CssProperty::PaddingBlockStart => false,
            CssProperty::PaddingBottom => false,
            CssProperty::PaddingInline => false,
            CssProperty::PaddingInlineEnd => false,
            CssProperty::PaddingInlineStart => false,
            CssProperty::PaddingLeft => false,
            CssProperty::PaddingRight => false,
            CssProperty::PaddingTop => false,
            CssProperty::Page => false,
            CssProperty::PageBreakAfter => false,
            CssProperty::PageBreakBefore => false,
            CssProperty::PageBreakInside => false,
            CssProperty::PaintOrder => true,
            CssProperty::PathLength => false,
            CssProperty::Pause => false,
            CssProperty::PauseAfter => false,
            CssProperty::PauseBefore => false,
            CssProperty::Perspective => false,
            CssProperty::PerspectiveOrigin => false,
            CssProperty::PlaceContent => false,
            CssProperty::PlaceItems => false,
            CssProperty::PlaceSelf => false,
            CssProperty::PointerEvents => true,
            CssProperty::PointerTimeline => false,
            CssProperty::PointerTimelineAxis => false,
            CssProperty::PointerTimelineName => false,
            CssProperty::Position => false,
            CssProperty::PositionAnchor => false,
            CssProperty::PositionArea => false,
            CssProperty::PositionTry => false,
            CssProperty::PositionTryFallbacks => false,
            CssProperty::PositionTryOrder => false,
            CssProperty::PositionVisibility => false,
            CssProperty::PrintColorAdjust => true,
            CssProperty::Quotes => true,
            CssProperty::R => false,
            CssProperty::ReadingFlow => false,
            CssProperty::ReadingOrder => false,
            CssProperty::RegionFragment => false,
            CssProperty::Resize => false,
            CssProperty::Rest => false,
            CssProperty::RestAfter => false,
            CssProperty::RestBefore => false,
            CssProperty::Right => false,
            CssProperty::Rotate => false,
            CssProperty::RowGap => false,
            CssProperty::RowRule => false,
            _ => self.inherited_from_600(),
        }
    }

    fn inherited_from_600(&self) -> (r: bool)
        ensures
            r == self.spec_inherited_from_600(),
    {
        match self {
            CssProperty::RowRuleBreak => false,
            CssProperty::RowRuleColor => false,
            CssProperty::RowRuleInset => false,
            CssProperty::RowRuleInsetCap => false,
            CssProperty::RowRuleInsetCapEnd => false,
            CssProperty::RowRuleInsetCapStart => false,
            CssProperty::RowRuleInsetEnd => false,
            CssProperty::RowRuleInsetJunction => false,
            CssProperty::RowRuleInsetJunctionEnd => false,
            CssProperty::RowRuleInsetJunctionStart => false,
            CssProperty::RowRuleInsetStart => false,
            CssProperty::RowRuleStyle => false,
            CssProperty::RowRuleVisibilityItems => false,
            CssProperty::RowRuleWidth => false,
            CssProperty::RubyAlign => true,
            CssProperty::RubyMerge => true,
            CssProperty::RubyOverhang => true,
            CssProperty::RubyPosition => true,
            CssProperty::Rule => false,
            CssProperty::RuleBreak => false,
            CssProperty::RuleColor => false,
            CssProperty::RuleInset => false,
            CssProperty::RuleInsetCap => false,
            CssProperty::RuleInsetEnd => false,
            CssProperty::RuleInsetJunction => false,
            CssProperty::RuleInsetStart => false,
            CssProperty::RuleOverlap => false,
            CssProperty::RuleStyle => false,
            CssProperty::RuleVisibilityItems => false,
            CssProperty::RuleWidth => false,
            CssProperty::Rx => false,
            CssProperty::Ry => false,
            CssProperty::Scale => false,
            CssProperty::ScrollBehavior => false,
            CssProperty::ScrollInitialTarget => false,
            CssProperty::ScrollMargin => false,
            CssProperty::ScrollMarginBlock => false,
            CssProperty::ScrollMarginBlockEnd => false,
            CssProperty::ScrollMarginBlockStart => false,
            CssProperty::ScrollMarginBottom => false,
            CssProperty::ScrollMarginInline => false,
            CssProperty::ScrollMarginInlineEnd => false,
            CssProperty::ScrollMarginInlineStart => false,
            CssProperty::ScrollMarginLeft => false,
            CssProperty::ScrollMarginRight => false,
            CssProperty::ScrollMarginTop => false,
            CssProperty::ScrollMarkerGroup => false,
            CssProperty::ScrollPadding => false,
            CssProperty::ScrollPaddingBlock => false,
            CssProperty::ScrollPaddingBlockEnd => false,
            CssProperty::ScrollPaddingBlockStart => false,
            CssProperty::ScrollPaddingBottom => false,
            CssProperty::ScrollPaddingInline => false,
            CssProperty::ScrollPaddingInlineEnd => false,
            CssProperty::ScrollPaddingInlineStart => false,
            CssProperty::ScrollPaddingLeft => false,
            CssProperty::ScrollPaddingRight => false,
            CssProperty::ScrollPaddingTop => false,
            CssProperty::ScrollSnapAlign => false,
            CssProperty::ScrollSnapStop => false,
            CssProperty::ScrollSnapType => false,
            CssProperty::ScrollTargetGroup => false,
            CssProperty::ScrollTimeline => false,
            CssProperty::ScrollTimelineAxis => false,
            CssProperty::ScrollTimelineName => false,
            CssProperty::ScrollbarColor => true,
            CssProperty::ScrollbarGutter => false,
            CssProperty::ScrollbarInset => false,
            CssProperty::ScrollbarMinThumbSize => false,
            CssProperty::ScrollbarMode => false,
            CssProperty::ScrollbarWidth => false,
            CssProperty::ShapeImageThreshold => false,
            CssProperty::ShapeInside => false,
            CssProperty::ShapeMargin => false,
            CssProperty::ShapeOutside => false,
            CssProperty::ShapePadding => false,
            CssProperty::ShapeRendering => true,
            CssProperty::SliderOrientation => false,
            CssProperty::SpatialNavigationAction => false,
            CssProperty::SpatialNavigationContain => false,
            CssProperty::SpatialNavigationFunction => false,
            CssProperty::Speak => true,
            CssProperty::SpeakAs => true,
            CssProperty::StopColor => false,
            CssProperty::StopOpacity => false,
            CssProperty::StringSet => false,
            CssProperty::Stroke => true,
            CssProperty::StrokeAlign => true,
            CssProperty::StrokeAlignment => true,
            CssProperty::StrokeBreak => false,
            CssProperty::StrokeColor => true,
            CssProperty::StrokeDashCornerPropdefStrokeDashCorner => true,
            CssProperty::StrokeDashJustify => true,
            CssProperty::StrokeDashadjust => true,
            CssProperty::StrokeDasharray => true,
            CssProperty::StrokeDashcornerStrokedashcornerproperty => true,
            CssProperty::StrokeDashoffset => true,
            CssProperty::StrokeImage => true,
            CssProperty::StrokeLinecap => true,
            CssProperty::StrokeLinejoin => true,
            _ => self.inherited_from_700(),
        }
    }

    fn inherited_from_700(&self) -> (r: bool)
        ensures
            r == self.spec_inherited_from_700(),
    {
        match self {
            CssProperty::StrokeMiterlimit => true,
            CssProperty::StrokeOpacity => true,
            CssProperty::StrokeOrigin => false,
            CssProperty::StrokePosition => true,
            CssProperty::StrokeRepeat => true,
            CssProperty::StrokeSize => true,
            CssProperty::StrokeWidth => true,
            CssProperty::TabSize => true,
            CssProperty::TableLayout => false,
            CssProperty::TextAlign => true,
            CssProperty::TextAlignAll => true,
            CssProperty::TextAlignLast => true,
            CssProperty::TextAnchor => true,
            CssProperty::TextAutospace => true,
            CssProperty::TextBox => false,
            CssProperty::TextBoxEdge => true,
            CssProperty::TextBoxTrim => false,
            CssProperty::TextCombineUpright => true,
            CssProperty::TextDecoration => false,
            CssProperty::TextDecorationColor => false,
            CssProperty::TextDecorationInset => false,
            CssProperty::TextDecorationLine => false,
            CssProperty::TextDecorationSkip => true,
            CssProperty::TextDecorationSkipBox => true,
            CssProperty::TextDecorationSkipInk => true,
            CssProperty::TextDecorationSkipSelf => false,
            CssProperty::TextDecorationSkipSpaces => true,
            CssProperty::TextDecorationStyle => false,
            CssProperty::TextDecorationThickness => false,
            CssProperty::TextEmphasis => false,
            CssProperty::TextEmphasisColor => true,
            CssProperty::TextEmphasisPosition => true,
            CssProperty::TextEmphasisSkip => true,
            CssProperty::TextEmphasisStyle => true,
            CssProperty::TextFit => false,
            CssProperty::TextGroupAlign => false,
            CssProperty::TextIndent => true,
            CssProperty::TextJustify => true,
            CssProperty::TextOrientation => true,
            CssProperty::TextOverflow => false,
            CssProperty::TextRendering => true,
            CssProperty::TextShadow => true,
            CssProperty::TextSizeAdjust => true,
            CssProperty::TextSpacing => true,
            CssProperty::TextSpacingTrim => true,
            CssProperty::TextTransform => true,
            CssProperty::TextUnderlineOffset => true,
            CssProperty::TextUnderlinePosition => true,
            CssProperty::TextWrap => false,
            CssProperty::TextWrapMode => true,
            CssProperty::TextWrapStyle => true,
            CssProperty::TimelineScope => false,
            CssProperty::TimelineTrigger => false,
            CssProperty::TimelineTriggerActivationRange => false,
            CssProperty::TimelineTriggerActivationRangeEnd => false,
            CssProperty::TimelineTriggerActivationRangeStart => false,
            CssProperty::TimelineTriggerActiveRange => false,
            CssProperty::TimelineTriggerActiveRangeEnd => false,
            CssProperty::TimelineTriggerActiveRangeStart => false,
            CssProperty::TimelineTriggerName => false,
            CssProperty::TimelineTriggerSource => false,
            CssProperty::Top => false,
            CssProperty::TouchAction => false,
            CssProperty::Transform => false,
            CssProperty::TransformBox => false,
            CssProperty::TransformOrigin => false,
            CssProperty::TransformStyle => false,
            CssProperty::Transition => false,
            CssProperty::TransitionBehavior => false,
            CssProperty::TransitionDelay => false,
            CssProperty::TransitionDuration => false,
            CssProperty::TransitionProperty => false,
            CssProperty::TransitionTimingFunction => false,
            CssProperty::Translate => false,
            CssProperty::TriggerScope => false,
            CssProperty::UnicodeBidi => false,
            CssProperty::UserSelect => false,
            CssProperty::VectorEffect => false,
            CssProperty::VerticalAlign => false,
            CssProperty::ViewTimeline => false,
            CssProperty::ViewTimelineAxis => false,
            CssProperty::ViewTimelineInset => false,
            CssProperty::ViewTimelineName => false,
            CssProperty::ViewTransitionClass => false,
            CssProperty::ViewTransitionGroup => false,
            CssProperty::ViewTransitionName => false,
            CssProperty::ViewTransitionScope => false,
            CssProperty::Visibility => true,
            CssProperty::VoiceBalance => true,
            CssProperty::VoiceDuration => false,
            CssProperty::VoiceFamily => true,
            CssProperty::VoicePitch => true,
            CssProperty::VoiceRange => true,
            CssProperty::VoiceRate => true,
            CssProperty::VoiceStress => true,
            CssProperty::VoiceVolume => true,
            CssProperty::WhiteSpace => true,
            CssProperty::WhiteSpaceCollapse => true,
            CssProperty::WhiteSpaceTrim => false,
            CssProperty::Widows => true,
            _ => self.inherited_from_800(),
        }
    }

    fn inherited_from_800(&self) -> (r: bool)
        ensures
            r == self.spec_inherited_from_800(),
    {
        match self {
            CssProperty::Width => false,
            CssProperty::WillChange => false,
            CssProperty::WordBreak => true,
            CssProperty::WordSpaceTransform => true,
            CssProperty::WordSpacing => true,
            CssProperty::WordWrap => true,
            CssProperty::WrapAfter => false,
            CssProperty::WrapBefore => false,
            CssProperty::WrapFlow => false,
            CssProperty::WrapInside => false,
            CssProperty::WrapThrough => false,
            CssProperty::WritingMode => true,
            CssProperty::X => false,
            CssProperty::Y => false,
            CssProperty::ZIndex => false,
            CssProperty::Zoom => false,
            CssProperty::Unknown(_) => false,
            _ => false,
        }
    }

    /// The name of this value; empty for an unknown one.
    pub fn name(&self) -> (r: &'static str)
        ensures
            r@ == self.spec_name(),
    {
        match self {
            CssProperty::WebkitAlignContent => "-webkit-align-content",
            CssProperty::WebkitAlignItems => "-webkit-align-items",
            CssProperty::WebkitAlignSelf => "-webkit-align-self",
            CssProperty::WebkitAnimation => "-webkit-animation",
            CssProperty::WebkitAnimationDelay => "-webkit-animation-delay",
            CssProperty::WebkitAnimationDirection => "-webkit-animation-direction",
            CssProperty::WebkitAnimationDuration => "-webkit-animation-duration",
            CssProperty::WebkitAnimationFillMode => "-webkit-animation-fill-mode",
            CssProperty::WebkitAnimationIterationCount => "-webkit-animation-iteration-count",
            CssProperty::WebkitAnimationName => "-webkit-animation-name",
            CssProperty::WebkitAnimationPlayState => "-webkit-animation-play-state",
            CssProperty::WebkitAnimationTimingFunction => "-webkit-animation-timing-function",
            CssProperty::WebkitAppearance => "-webkit-appearance",
            CssProperty::WebkitBackfaceVisibility => "-webkit-backface-visibility",
            CssProperty::WebkitBackgroundClip => "-webkit-background-clip",
            CssProperty::WebkitBackgroundOrigin => "-webkit-background-origin",
            CssProperty::WebkitBackgroundSize => "-webkit-background-size",
            CssProperty::WebkitBorderBottomLeftRadius => "-webkit-border-bottom-left-radius",
            CssProperty::WebkitBorderBottomRightRadius => "-webkit-border-bottom-right-radius",
            CssProperty::WebkitBorderRadius => "-webkit-border-radius",
            CssProperty::WebkitBorderTopLeftRadius => "-webkit-border-top-left-radius",
            CssProperty::WebkitBorderTopRightRadius => "-webkit-border-top-right-radius",
            CssProperty::WebkitBoxAlign => "-webkit-box-align",
            CssProperty::WebkitBoxFlex => "-webkit-box-flex",
            CssProperty::WebkitBoxOrdinalGroup => "-webkit-box-ordinal-group",
            CssProperty::WebkitBoxOrient => "-webkit-box-orient",
            CssProperty::WebkitBoxPack => "-webkit-box-pack",
            CssProperty::WebkitBoxShadow => "-webkit-box-shadow",
            CssProperty::WebkitBoxSizing => "-webkit-box-sizing",
            CssProperty::WebkitFilter => "-webkit-filter",
            CssProperty::WebkitFlex => "-webkit-flex",
            CssProperty::WebkitFlexBasis => "-webkit-flex-basis",
            CssProperty::WebkitFlexDirection => "-webkit-flex-direction",
            CssProperty::WebkitFlexFlow => "-webkit-flex-flow",
            CssProperty::WebkitFlexGrow => "-webkit-flex-grow",
            CssProperty::WebkitFlexShrink => "-webkit-flex-shrink",
            CssProperty::WebkitFlexWrap => "-webkit-flex-wrap",
            CssProperty::WebkitJustifyContent => "-webkit-justify-content",
            CssProperty::WebkitLineClamp => "-webkit-line-clamp",
            CssProperty::WebkitMask => "-webkit-mask",
            CssProperty::WebkitMaskBoxImage => "-webkit-mask-box-image",
            CssProperty::WebkitMaskBoxImageOutset => "-webkit-mask-box-image-outset",
            CssProperty::WebkitMaskBoxImageRepeat => "-webkit-mask-box-image-repeat",
            CssProperty::WebkitMaskBoxImageSlice => "-webkit-mask-box-image-slice",
            CssProperty::WebkitMaskBoxImageSource => "-webkit-mask-box-image-source",
            CssProperty::WebkitMaskBoxImageWidth => "-webkit-mask-box-image-width",
            CssProperty::WebkitMaskClip => "-webkit-mask-clip",
            CssProperty::WebkitMaskComposite => "-webkit-mask-composite",
            CssProperty::WebkitMaskImage => "-webkit-mask-image",
            CssProperty::WebkitMaskOrigin => "-webkit-mask-origin",
            CssProperty::WebkitMaskPosition => "-webkit-mask-position",
            CssProperty::WebkitMaskRepeat => "-webkit-mask-repeat",
            CssProperty::WebkitMaskSize => "-webkit-mask-size",
            CssProperty::WebkitOrder => "-webkit-order",
            CssProperty::WebkitPerspective => "-webkit-perspective",
            CssProperty::WebkitPerspectiveOrigin => "-webkit-perspective-origin",
            CssProperty::WebkitTextFillColor => "-webkit-text-fill-color",
            CssProperty::WebkitTextSizeAdjust => "-webkit-text-size-adjust",
            CssProperty::WebkitTextStroke => "-webkit-text-stroke",
            CssProperty::WebkitTextStrokeColor => "-webkit-text-stroke-color",
            CssProperty::WebkitTextStrokeWidth => "-webkit-text-stroke-width",
            CssProperty::WebkitTransform => "-webkit-transform",
            CssProperty::WebkitTransformOrigin => "-webkit-transform-origin",
            CssProperty::WebkitTransformStyle => "-webkit-transform-style",
            CssProperty::WebkitTransition => "-webkit-transition",
            CssProperty::WebkitTransitionDelay => "-webkit-transition-delay",
            CssProperty::WebkitTransitionDuration => "-webkit-transition-duration",
            CssProperty::WebkitTransitionProperty => "-webkit-transition-property",
            CssProperty::WebkitTransitionTimingFunction => "-webkit-transition-timing-function",
            CssProperty::WebkitUserSelect => "-webkit-user-select",
            CssProperty::AccentColor => "accent-color",
            CssProperty::AlignContent => "align-content",
            CssProperty::AlignItems => "align-items",
            CssProperty::AlignSelf => "align-self",
            CssProperty::AlignmentBaseline => "alignment-baseline",
            CssProperty::All => "all",
            CssProperty::AnchorName => "anchor-name",
            CssProperty::AnchorScope => "anchor-scope",
            CssProperty::Animation => "animation",
            CssProperty::AnimationComposition => "animation-composition",
            CssProperty::AnimationDelay => "animation-delay",
            CssProperty::AnimationDirection => "animation-direction",
            CssProperty::AnimationDuration => "animation-duration",
            CssProperty::AnimationFillMode => "animation-fill-mode",
            CssProperty::AnimationIterationCount => "animation-iteration-count",
            CssProperty::AnimationName => "animation-name",
            CssProperty::AnimationPlayState => "animation-play-state",
            CssProperty::AnimationRange => "animation-range",
            CssProperty::AnimationRangeCenter => "animation-range-center",
            CssProperty::AnimationRangeEnd => "animation-range-end",
            CssProperty::AnimationRangeStart => "animation-range-start",
            CssProperty::AnimationTimeline => "animation-timeline",
            CssProperty::AnimationTimingFunction => "animation-timing-function",
            CssProperty::AnimationTrigger => "animation-trigger",
            CssProperty::Appearance => "appearance",
            CssProperty::AspectRatio => "aspect-ratio",
            CssProperty::BackdropFilter => "backdrop-filter",
            CssProperty::BackfaceVisibility => "backface-visibility",
            CssProperty::Background => "background",
            CssProperty::BackgroundAttachment => "background-attachment",
            _ => self.name_from_100(),
        }
    }

    fn name_from_100(&self) -> (r: &'static str)
        ensures
            r@ == self.spec_name_from_100(),
    {
        match self {
            CssProperty::BackgroundBlendMode => "background-blend-mode",
            CssProperty::BackgroundClip => "background-clip",
            CssProperty::BackgroundColor => "background-color",
            CssProperty::BackgroundImage => "background-image",
            CssProperty::BackgroundOrigin => "background-origin",
            CssProperty::BackgroundPosition => "background-position",
            CssProperty::BackgroundPositionBlock => "background-position-block",
            CssProperty::BackgroundPositionInline => "background-position-inline",
            CssProperty::BackgroundPositionX => "background-position-x",
            CssProperty::BackgroundPositionY => "background-position-y",
            CssProperty::BackgroundRepeat => "background-repeat",
            CssProperty::BackgroundRepeatBlock => "background-repeat-block",
            CssProperty::BackgroundRepeatInline => "background-repeat-inline",
            CssProperty::BackgroundRepeatX => "background-repeat-x",
            CssProperty::BackgroundRepeatY => "background-repeat-y",
            CssProperty::BackgroundSize => "background-size",
            CssProperty::BackgroundTbd => "background-tbd",
            CssProperty::BaselineShift => "baseline-shift",
            CssProperty::BaselineSource => "baseline-source",
            CssProperty::BlockEllipsis => "block-ellipsis",
            CssProperty::BlockSize => "block-size",
            CssProperty::BlockStep => "block-step",
            CssProperty::BlockStepAlign => "block-step-align",
            CssProperty::BlockStepInsert => "block-step-insert",
            CssProperty::BlockStepRound => "block-step-round",
            CssProperty::BlockStepSize => "block-step-size",
            CssProperty::BookmarkLabel => "bookmark-label",
            CssProperty::BookmarkLevel => "bookmark-level",
            CssProperty::BookmarkState => "bookmark-state",
            CssProperty::Border => "border",
            CssProperty::BorderBlock => "border-block",
            CssProperty::BorderBlockClip => "border-block-clip",
            CssProperty::BorderBlockColor => "border-block-color",
            CssProperty::BorderBlockEnd => "border-block-end",
            CssProperty::BorderBlockEndClip => "border-block-end-clip",
            CssProperty::BorderBlockEndColor => "border-block-end-color",
            CssProperty::BorderBlockEndRadius => "border-block-end-radius",
            CssProperty::BorderBlockEndStyle => "border-block-end-style",
            CssProperty::BorderBlockEndWidth => "border-block-end-width",
            CssProperty::BorderBlockStart => "border-block-start",
            CssProperty::BorderBlockStartClip => "border-block-start-clip",
            CssProperty::BorderBlockStartColor => "border-block-start-color",
            CssProperty::BorderBlockStartRadius => "border-block-start-radius",
            CssProperty::BorderBlockStartStyle => "border-block-start-style",
            CssProperty::BorderBlockStartWidth => "border-block-start-width",
            CssProperty::BorderBlockStyle => "border-block-style",
            CssProperty::BorderBlockWidth => "border-block-width",
            CssProperty::BorderBottom => "border-bottom",
            CssProperty::BorderBottomClip => "border-bottom-clip",
            CssProperty::BorderBottomColor => "border-bottom-color",
            CssProperty::BorderBottomLeftRadius => "border-bottom-left-radius",
            CssProperty::BorderBottomRadius => "border-bottom-radius",
            CssProperty::BorderBottomRightRadius => "border-bottom-right-radius",
            CssProperty::BorderBottomStyle => "border-bottom-style",
            CssProperty::BorderBottomWidth => "border-bottom-width",
            CssProperty::BorderBoundary => "border-boundary",
            CssProperty::BorderClip => "border-clip",
            CssProperty::BorderCollapse => "border-collapse",
            CssProperty::BorderColor => "border-color",
            CssProperty::BorderEndEndRadius => "border-end-end-radius",
            CssProperty::BorderEndStartRadius => "border-end-start-radius",
            CssProperty::BorderImage => "border-image",
            CssProperty::BorderImageOutset => "border-image-outset",
            CssProperty::BorderImageRepeat => "border-image-repeat",
            CssProperty::BorderImageSlice => "border-image-slice",
            CssProperty::BorderImageSource => "border-image-source",
            CssProperty::BorderImageWidth => "border-image-width",
            CssProperty::BorderInline => "border-inline",
            CssProperty::BorderInlineClip => "border-inline-clip",
            CssProperty::BorderInlineColor => "border-inline-color",
            CssProperty::BorderInlineEnd => "border-inline-end",
            CssProperty::BorderInlineEndClip => "border-inline-end-clip",
            CssProperty::BorderInlineEndColor => "border-inline-end-color",
            CssProperty::BorderInlineEndRadius => "border-inline-end-radius",
            CssProperty::BorderInlineEndStyle => "border-inline-end-style",
            CssProperty::BorderInlineEndWidth => "border-inline-end-width",
            CssProperty::BorderInlineStart => "border-inline-start",
            CssProperty::BorderInlineStartClip => "border-inline-start-clip",
            CssProperty::BorderInlineStartColor => "border-inline-start-color",
            CssProperty::BorderInlineStartRadius => "border-inline-start-radius",
            CssProperty::BorderInlineStartStyle => "border-inline-start-style",
            CssProperty::BorderInlineStartWidth => "border-inline-start-width",
            CssProperty::BorderInlineStyle => "border-inline-style",
            CssProperty::BorderInlineWidth => "border-inline-width",
            CssProperty::BorderLeft => "border-left",
            CssProperty::BorderLeftClip => "border-left-clip",
            CssProperty::BorderLeftColor => "border-left-color",
            CssProperty::BorderLeftRadius => "border-left-radius",
            CssProperty::BorderLeftStyle => "border-left-style",
            CssProperty::BorderLeftWidth => "border-left-width",
            CssProperty::BorderLimit => "border-limit",
            CssProperty::BorderRadius => "border-radius",
            CssProperty::BorderRight => "border-right",
            CssProperty::BorderRightClip => "border-right-clip",
            CssProperty::BorderRightColor => "border-right-color",
            CssProperty::BorderRightRadius => "border-right-radius",
            CssProperty::BorderRightStyle => "border-right-style",
            CssProperty::BorderRightWidth => "border-right-width",
            CssProperty::BorderShape => "border-shape",
            CssProperty::BorderSpacing => "border-spacing",
            _ => self.name_from_200(),
        }
    }

    fn name_from_200(&self) -> (r: &'static str)
        ensures
            r@ == self.spec_name_from_200(),
    {
        match self {
            CssProperty::BorderStartEndRadius => "border-start-end-radius",
            CssProperty::BorderStartStartRadius => "border-start-start-radius",
            CssProperty::BorderStyle => "border-style",
            CssProperty::BorderTop => "border-top",
            CssProperty::BorderTopClip => "border-top-clip",
            CssProperty::BorderTopColor => "border-top-color",
            CssProperty::BorderTopLeftRadius => "border-top-left-radius",
            CssProperty::BorderTopRadius => "border-top-radius",
            CssProperty::BorderTopRightRadius => "border-top-right-radius",
            CssProperty::BorderTopStyle => "border-top-style",
            CssProperty::BorderTopWidth => "border-top-width",
            CssProperty::BorderWidth => "border-width",
            CssProperty::Bottom => "bottom",
            CssProperty::BoxDecorationBreak => "box-decoration-break",
            CssProperty::BoxShadow => "box-shadow",
            CssProperty::BoxShadowBlur => "box-shadow-blur",
            CssProperty::BoxShadowColor => "box-shadow-color",
            CssProperty::BoxShadowOffset => "box-shadow-offset",
            CssProperty::BoxShadowPosition => "box-shadow-position",
            CssProperty::BoxShadowSpread => "box-shadow-spread",
            CssProperty::BoxSizing => "box-sizing",
            CssProperty::BoxSnap => "box-snap",
            CssProperty::BreakAfter => "break-after",
            CssProperty::BreakBefore => "break-before",
            CssProperty::BreakInside => "break-inside",
            CssProperty::CaptionSide => "caption-side",
            CssProperty::Caret => "caret",
            CssProperty::CaretAnimation => "caret-animation",
            CssProperty::CaretColor => "caret-color",
            CssProperty::CaretShape => "caret-shape",
            CssProperty::Clear => "clear",
            CssProperty::Clip => "clip",
            CssProperty::ClipPath => "clip-path",
            CssProperty::ClipRule => "clip-rule",
            CssProperty::Color => "color",
            CssProperty::ColorAdjust => "color-adjust",
            CssProperty::ColorInterpolation => "color-interpolation",
            CssProperty::ColorInterpolationFilters => "color-interpolation-filters",
            CssProperty::ColorScheme => "color-scheme",
            CssProperty::ColumnCount => "column-count",
            CssProperty::ColumnFill => "column-fill",
            CssProperty::ColumnGap => "column-gap",
            CssProperty::ColumnHeight => "column-height",
            CssProperty::ColumnRule => "column-rule",
            CssProperty::ColumnRuleBreak => "column-rule-break",
            CssProperty::ColumnRuleColor => "column-rule-color",
            CssProperty::ColumnRuleInset => "column-rule-inset",
            CssProperty::ColumnRuleInsetCap => "column-rule-inset-cap",
            CssProperty::ColumnRuleInsetCapEnd => "column-rule-inset-cap-end",
            CssProperty::ColumnRuleInsetCapStart => "column-rule-inset-cap-start",
            CssProperty::ColumnRuleInsetEnd => "column-rule-inset-end",
            CssProperty::ColumnRuleInsetJunction => "column-rule-inset-junction",
            CssProperty::ColumnRuleInsetJunctionEnd => "column-rule-inset-junction-end",
            CssProperty::ColumnRuleInsetJunctionStart => "column-rule-inset-junction-start",
            CssProperty::ColumnRuleInsetStart => "column-rule-inset-start",
            CssProperty::ColumnRuleStyle => "column-rule-style",
            CssProperty::ColumnRuleVisibilityItems => "column-rule-visibility-items",
            CssProperty::ColumnRuleWidth => "column-rule-width",
            CssProperty::ColumnSpan => "column-span",
            CssProperty::ColumnWidth => "column-width",
            CssProperty::ColumnWrap => "column-wrap",
            CssProperty::Columns => "columns",
            CssProperty::Contain => "contain",
            CssProperty::ContainIntrinsicBlockSize => "contain-intrinsic-block-size",
            CssProperty::ContainIntrinsicHeight => "contain-intrinsic-height",
            CssProperty::ContainIntrinsicInlineSize => "contain-intrinsic-inline-size",
            CssProperty::ContainIntrinsicSize => "contain-intrinsic-size",
            CssProperty::ContainIntrinsicWidth => "contain-intrinsic-width",
            CssProperty::Container => "container",
            CssProperty::ContainerName => "container-name",
            CssProperty::ContainerType => "container-type",
            CssProperty::Content => "content",
            CssProperty::ContentVisibility => "content-visibility",
            CssProperty::Continue => "continue",
            CssProperty::CopyInto => "copy-into",
            CssProperty::Corner => "corner",
            CssProperty::CornerBlockEnd => "corner-block-end",
            CssProperty::CornerBlockEndShape => "corner-block-end-shape",
            CssProperty::CornerBlockStart => "corner-block-start",
            CssProperty::CornerBlockStartShape => "corner-block-start-shape",
            CssProperty::CornerBottom => "corner-bottom",
            CssProperty::CornerBottomLeft => "corner-bottom-left",
            CssProperty::CornerBottomLeftShape => "corner-bottom-left-shape",
            CssProperty::CornerBottomRight => "corner-bottom-right",
            CssProperty::CornerBottomRightShape => "corner-bottom-right-shape",
            CssProperty::CornerBottomShape => "corner-bottom-shape",
            CssProperty::CornerEndEnd => "corner-end-end",
            CssProperty::CornerEndEndShape => "corner-end-end-shape",
            CssProperty::CornerEndStart => "corner-end-start",
            CssProperty::CornerEndStartShape => "corner-end-start-shape",
            CssProperty::CornerInlineEnd => "corner-inline-end",
            CssProperty::CornerInlineEndShape => "corner-inline-end-shape",
            CssProperty::CornerInlineStart => "corner-inline-start",
            CssProperty::CornerInlineStartShape => "corner-inline-start-shape",
            CssProperty::CornerLeft => "corner-left",
            CssProperty::CornerLeftShape => "corner-left-shape",
            CssProperty::CornerRight => "corner-right",
            CssProperty::CornerRightShape => "corner-right-shape",
            CssProperty::CornerShape => "corner-shape",
            CssProperty::CornerStartEnd => "corner-start-end",
            _ => self.name_from_300(),
        }
    }

    fn name_from_300(&self) -> (r: &'static str)
        ensures
            r@ == self.spec_name_from_300(),
    {
        match self {
            CssProperty::CornerStartEndShape => "corner-start-end-shape",
            CssProperty::CornerStartStart => "corner-start-start",
            CssProperty::CornerStartStartShape => "corner-start-start-shape",
            CssProperty::CornerTop => "corner-top",
            CssProperty::CornerTopLeft => "corner-top-left",
            CssProperty::CornerTopLeftShape => "corner-top-left-shape",
            CssProperty::CornerTopRight => "corner-top-right",
            CssProperty::CornerTopRightShape => "corner-top-right-shape",
            CssProperty::CornerTopShape => "corner-top-shape",
            CssProperty::CounterIncrement => "counter-increment",
            CssProperty::CounterReset => "counter-reset",
            CssProperty::CounterSet => "counter-set",
            CssProperty::Cue => "cue",
            CssProperty::CueAfter => "cue-after",
            CssProperty::CueBefore => "cue-before",
            CssProperty::Cursor => "cursor",
            CssProperty::Cx => "cx",
            CssProperty::Cy => "cy",
            CssProperty::D => "d",
            CssProperty::Direction => "direction",
            CssProperty::Display => "display",
            CssProperty::DominantBaseline => "dominant-baseline",
            CssProperty::DynamicRangeLimit => "dynamic-range-limit",
            CssProperty::EmptyCells => "empty-cells",
            CssProperty::EventTrigger => "event-trigger",
            CssProperty::EventTriggerName => "event-trigger-name",
            CssProperty::EventTriggerSource => "event-trigger-source",
            CssProperty::FieldSizing => "field-sizing",
            CssProperty::Fill => "fill",
            CssProperty::FillBreak => "fill-break",
            CssProperty::FillColor => "fill-color",
            CssProperty::FillImage => "fill-image",
            CssProperty::FillOpacity => "fill-opacity",
            CssProperty::FillOrigin => "fill-origin",
            CssProperty::FillPosition => "fill-position",
            CssProperty::FillRepeat => "fill-repeat",
            CssProperty::FillRule => "fill-rule",
            CssProperty::FillSize => "fill-size",
            CssProperty::Filter => "filter",
            CssProperty::Flex => "flex",
            CssProperty::FlexBasis => "flex-basis",
            CssProperty::FlexDirection => "flex-direction",
            CssProperty::FlexFlow => "flex-flow",
            CssProperty::FlexGrow => "flex-grow",
            CssProperty::FlexShrink => "flex-shrink",
            CssProperty::FlexWrap => "flex-wrap",
            CssProperty::Float => "float",
            CssProperty::FloatDefer => "float-defer",
            CssProperty::FloatOffset => "float-offset",
            CssProperty::FloatReference => "float-reference",
            CssProperty::FloodColor => "flood-color",
            CssProperty::FloodOpacity => "flood-opacity",
            CssProperty::FlowFrom => "flow-from",
            CssProperty::FlowInto => "flow-into",
            CssProperty::FlowTolerance => "flow-tolerance",
            CssProperty::Font => "font",
            CssProperty::FontFamily => "font-family",
            CssProperty::FontFeatureSettings => "font-feature-settings",
            CssProperty::FontKerning => "font-kerning",
            CssProperty::FontLanguageOverride => "font-language-override",
            CssProperty::FontOpticalSizing => "font-optical-sizing",
            CssProperty::FontPalette => "font-palette",
            CssProperty::FontSize => "font-size",
            CssProperty::FontSizeAdjust => "font-size-adjust",
            CssProperty::FontStretch => "font-stretch",
            CssProperty::FontStyle => "font-style",
            CssProperty::FontSynthesis => "font-synthesis",
            CssProperty::FontSynthesisPosition => "font-synthesis-position",
            CssProperty::FontSynthesisSmallCaps => "font-synthesis-small-caps",
            CssProperty::FontSynthesisStyle => "font-synthesis-style",
            CssProperty::FontSynthesisWeight => "font-synthesis-weight",
            CssProperty::FontVariant => "font-variant",
            CssProperty::FontVariantAlternates => "font-variant-alternates",
            CssProperty::FontVariantCaps => "font-variant-caps",
            CssProperty::FontVariantEastAsian => "font-variant-east-asian",
            CssProperty::FontVariantEmoji => "font-variant-emoji",
            CssProperty::FontVariantLigatures => "font-variant-ligatures",
            CssProperty::FontVariantNumeric => "font-variant-numeric",
            CssProperty::FontVariantPosition => "font-variant-position",
            CssProperty::FontVariationSettings => "font-variation-settings",
            CssProperty::FontWeight => "font-weight",
            CssProperty::FontWidth => "font-width",
            CssProperty::FootnoteDisplay => "footnote-display",
            CssProperty::FootnotePolicy => "footnote-policy",
            CssProperty::ForcedColorAdjust => "forced-color-adjust",
            CssProperty::FrameSizing => "frame-sizing",
            CssProperty::Gap => "gap",
            CssProperty::GlyphOrientationVertical => "glyph-orientation-vertical",
            CssProperty::Grid => "grid",
            CssProperty::GridArea => "grid-area",
            CssProperty::GridAutoColumns => "grid-auto-columns",
            CssProperty::GridAutoFlow => "grid-auto-flow",
            CssProperty::GridAutoRows => "grid-auto-rows",
            CssProperty::GridColumn => "grid-column",
            CssProperty::GridColumnEnd => "grid-column-end",
            CssProperty::GridColumnGap => "grid-column-gap",
            CssProperty::GridColumnStart => "grid-column-start",
            CssProperty::GridGap => "grid-gap",
            CssProperty::GridRow => "grid-row",
            CssProperty::GridRowEnd => "grid-row-end",
            _ => self.name_from_400(),
        }
    }

    fn name_from_400(&self) -> (r: &'static str)
        ensures
            r@ == self.spec_name_from_400(),
    {
        match self {
            CssProperty::GridRowGap => "grid-row-gap",
            CssProperty::GridRowStart => "grid-row-start",
            CssProperty::GridTemplate => "grid-template",
            CssProperty::GridTemplateAreas => "grid-template-areas",
            CssProperty::GridTemplateColumns => "grid-template-columns",
            CssProperty::GridTemplateRows => "grid-template-rows",
            CssProperty::HangingPunctuation => "hanging-punctuation",
            CssProperty::Height => "height",
            CssProperty::HyphenateCharacter => "hyphenate-character",
            CssProperty::HyphenateLimitChars => "hyphenate-limit-chars",
            CssProperty::HyphenateLimitLast => "hyphenate-limit-last",
            CssProperty::HyphenateLimitLines => "hyphenate-limit-lines",
            CssProperty::HyphenateLimitZone => "hyphenate-limit-zone",
            CssProperty::Hyphens => "hyphens",
            CssProperty::ImageAnimation => "image-animation",
            CssProperty::ImageOrientation => "image-orientation",
            CssProperty::ImageRendering => "image-rendering",
            CssProperty::ImageResolution => "image-resolution",
            CssProperty::InitialLetter => "initial-letter",
            CssProperty::InitialLetterAlign => "initial-letter-align",
            CssProperty::InitialLetterWrap => "initial-letter-wrap",
            CssProperty::InlineSize => "inline-size",
            CssProperty::InlineSizing => "inline-sizing",
            CssProperty::InputSecurity => "input-security",
            CssProperty::Inset => "inset",
            CssProperty::InsetBlock => "inset-block",
            CssProperty::InsetBlockEnd => "inset-block-end",
            CssProperty::InsetBlockStart => "inset-block-start",
            CssProperty::InsetInline => "inset-inline",
            CssProperty::InsetInlineEnd => "inset-inline-end",
            CssProperty::InsetInlineStart => "inset-inline-start",
            CssProperty::Interactivity => "interactivity",
            CssProperty::InterestDelay => "interest-delay",
            CssProperty::InterestDelayEnd => "interest-delay-end",
            CssProperty::InterestDelayStart => "interest-delay-start",
            CssProperty::InterpolateSize => "interpolate-size",
            CssProperty::Isolation => "isolation",
            CssProperty::JustifyContent => "justify-content",
            CssProperty::JustifyItems => "justify-items",
            CssProperty::JustifySelf => "justify-self",
            CssProperty::Left => "left",
            CssProperty::LetterSpacing => "letter-spacing",
            CssProperty::LightingColor => "lighting-color",
            CssProperty::LineBreak => "line-break",
            CssProperty::LineClamp => "line-clamp",
            CssProperty::LineFitEdge => "line-fit-edge",
            CssProperty::LineGrid => "line-grid",
            CssProperty::LineHeight => "line-height",
            CssProperty::LineHeightStep => "line-height-step",
            CssProperty::LinePadding => "line-padding",
            CssProperty::LineSnap => "line-snap",
            CssProperty::LinkParameters => "link-parameters",
            CssProperty::ListStyle => "list-style",
            CssProperty::ListStyleImage => "list-style-image",
            CssProperty::ListStylePosition => "list-style-position",
            CssProperty::ListStyleType => "list-style-type",
            CssProperty::Margin => "margin",
            CssProperty::MarginBlock => "margin-block",
            CssProperty::MarginBlockEnd => "margin-block-end",
            CssProperty::MarginBlockStart => "margin-block-start",
            CssProperty::MarginBottom => "margin-bottom",
            CssProperty::MarginBreak => "margin-break",
            CssProperty::MarginInline => "margin-inline",
            CssProperty::MarginInlineEnd => "margin-inline-end",
            CssProperty::MarginInlineStart => "margin-inline-start",
            CssProperty::MarginLeft => "margin-left",
            CssProperty::MarginRight => "margin-right",
            CssProperty::MarginTop => "margin-top",
            CssProperty::MarginTrim => "margin-trim",
            CssProperty::Marker => "marker",
            CssProperty::MarkerEnd => "marker-end",
            CssProperty::MarkerMid => "marker-mid",
            CssProperty::MarkerSide => "marker-side",
            CssProperty::MarkerStart => "marker-start",
            CssProperty::Mask => "mask",
            CssProperty::MaskBorder => "mask-border",
            CssProperty::MaskBorderMode => "mask-border-mode",
            CssProperty::MaskBorderOutset => "mask-border-outset",
            CssProperty::MaskBorderRepeat => "mask-border-repeat",
            CssProperty::MaskBorderSlice => "mask-border-slice",
            CssProperty::MaskBorderSource => "mask-border-source",
            CssProperty::MaskBorderWidth => "mask-border-width",
            CssProperty::MaskClip => "mask-clip",
            CssProperty::MaskComposite => "mask-composite",
            CssProperty::MaskImage => "mask-image",
            CssProperty::MaskMode => "mask-mode",
            CssProperty::MaskOrigin => "mask-origin",
            CssProperty::MaskPosition => "mask-position",
            CssProperty::MaskRepeat => "mask-repeat",
            CssProperty::MaskSize => "mask-size",
            CssProperty::MaskType => "mask-type",
            CssProperty::MathDepth => "math-depth",
            CssProperty::MathShift => "math-shift",
            CssProperty::MathStyle => "math-style",
            CssProperty::MaxBlockSize => "max-block-size",
            CssProperty::MaxHeight => "max-height",
            CssProperty::MaxInlineSize => "max-inline-size",
            CssProperty::MaxLines => "max-lines",
            CssProperty::MaxWidth => "max-width",
            CssProperty::MinBlockSize => "min-block-size",
            _ => self.name_from_500(),
        }
    }

    fn name_from_500(&self) -> (r: &'static str)
        ensures
            r@ == self.spec_name_from_500(),
    {
        match self {
            CssProperty::MinHeight => "min-height",
            CssProperty::MinInlineSize => "min-inline-size",
            CssProperty::MinIntrinsicSizing => "min-intrinsic-sizing",
            CssProperty::MinWidth => "min-width",
            CssProperty::MixBlendMode => "mix-blend-mode",
            CssProperty::NavDown => "nav-down",
            CssProperty::NavLeft => "nav-left",
            CssProperty::NavRight => "nav-right",
            CssProperty::NavUp => "nav-up",
            CssProperty::ObjectFit => "object-fit",
            CssProperty::ObjectPosition => "object-position",
            CssProperty::ObjectViewBox => "object-view-box",
            CssProperty::Offset => "offset",
            CssProperty::OffsetAnchor => "offset-anchor",
            CssProperty::OffsetDistance => "offset-distance",
            CssProperty::OffsetPath => "offset-path",
            CssProperty::OffsetPosition => "offset-position",
            CssProperty::OffsetRotate => "offset-rotate",
            CssProperty::Opacity => "opacity",
            CssProperty::Order => "order",
            CssProperty::Orphans => "orphans",
            CssProperty::Outline => "outline",
            CssProperty::OutlineColor => "outline-color",
            CssProperty::OutlineOffset => "outline-offset",
            CssProperty::OutlineStyle => "outline-style",
            CssProperty::OutlineWidth => "outline-width",
            CssProperty::Overflow => "overflow",
            CssProperty::OverflowAnchor => "overflow-anchor",
            CssProperty::OverflowBlock => "overflow-block",
            CssProperty::OverflowClipMargin => "overflow-clip-margin",
            CssProperty::OverflowClipMarginBlock => "overflow-clip-margin-block",
            CssProperty::OverflowClipMarginBlockEnd => "overflow-clip-margin-block-end",
            CssProperty::OverflowClipMarginBlockStart => "overflow-clip-margin-block-start",
            CssProperty::OverflowClipMarginBottom => "overflow-clip-margin-bottom",
            CssProperty::OverflowClipMarginInline => "overflow-clip-margin-inline",
            CssProperty::OverflowClipMarginInlineEnd => "overflow-clip-margin-inline-end",
            CssProperty::OverflowClipMarginInlineStart => "overflow-clip-margin-inline-start",
            CssProperty::OverflowClipMarginLeft => "overflow-clip-margin-left",
            CssProperty::OverflowClipMarginRight => "overflow-clip-margin-right",
            CssProperty::OverflowClipMarginTop => "overflow-clip-margin-top",
            CssProperty::OverflowInline => "overflow-inline",
            CssProperty::OverflowWrap => "overflow-wrap",
            CssProperty::OverflowX => "overflow-x",
            CssProperty::OverflowY => "overflow-y",
            CssProperty::Overlay => "overlay",
            CssProperty::OverscrollBehavior => "overscroll-behavior",
            CssProperty::OverscrollBehaviorBlock => "overscroll-behavior-block",
            CssProperty::OverscrollBehaviorInline => "overscroll-behavior-inline",
            CssProperty::OverscrollBehaviorX => "overscroll-behavior-x",
            CssProperty::OverscrollBehaviorY => "overscroll-behavior-y",
            CssProperty::Padding => "padding",
            CssProperty::PaddingBlock => "padding-block",
            CssProperty::PaddingBlockEnd => "padding-block-end",
            CssProperty::PaddingBlockStart => "padding-block-start",
            CssProperty::PaddingBottom => "padding-bottom",
            CssProperty::PaddingInline => "padding-inline",
            CssProperty::PaddingInlineEnd => "padding-inline-end",
            CssProperty::PaddingInlineStart => "padding-inline-start",
            CssProperty::PaddingLeft => "padding-left",
            CssProperty::PaddingRight => "padding-right",
            CssProperty::PaddingTop => "padding-top",
            CssProperty::Page => "page",
            CssProperty::PageBreakAfter => "page-break-after",
            CssProperty::PageBreakBefore => "page-break-before",
            CssProperty::PageBreakInside => "page-break-inside",
            CssProperty::PaintOrder => "paint-order",
            CssProperty::PathLength => "path-length",
            CssProperty::Pause => "pause",
            CssProperty::PauseAfter => "pause-after",
            CssProperty::PauseBefore => "pause-before",
            CssProperty::Perspective => "perspective",
            CssProperty::PerspectiveOrigin => "perspective-origin",
            CssProperty::PlaceContent => "place-content",
            CssProperty::PlaceItems => "place-items",
            CssProperty::PlaceSelf => "place-self",
            CssProperty::PointerEvents => "pointer-events",
            CssProperty::PointerTimeline => "pointer-timeline",
            CssProperty::PointerTimelineAxis => "pointer-timeline-axis",
            CssProperty::PointerTimelineName => "pointer-timeline-name",
            CssProperty::Position => "position",
            CssProperty::PositionAnchor => "position-anchor",
            CssProperty::PositionArea => "position-area",
            CssProperty::PositionTry => "position-try",
            CssProperty::PositionTryFallbacks => "position-try-fallbacks",
            CssProperty::PositionTryOrder => "position-try-order",
            CssProperty::PositionVisibility => "position-visibility",
            CssProperty::PrintColorAdjust => "print-color-adjust",
            CssProperty::Quotes => "quotes",
            CssProperty::R => "r",
            CssProperty::ReadingFlow => "reading-flow",
            CssProperty::ReadingOrder => "reading-order",
            CssProperty::RegionFragment => "region-fragment",
            CssProperty::Resize => "resize",
            CssProperty::Rest => "rest",
            CssProperty::RestAfter => "rest-after",
            CssProperty::RestBefore => "rest-before",
            CssProperty::Right => "right",
            CssProperty::Rotate => "rotate",
            CssProperty::RowGap => "row-gap",
            CssProperty::RowRule => "row-rule",
            _ => self.name_from_600(),
        }
    }

    fn name_from_600(&self) -> (r: &'static str)
        ensures
            r@ == self.spec_name_from_600(),
    {
        match self {
            CssProperty::RowRuleBreak => "row-rule-break",
            CssProperty::RowRuleColor => "row-rule-color",
            CssProperty::RowRuleInset => "row-rule-inset",
            CssProperty::RowRuleInsetCap => "row-rule-inset-cap",
            CssProperty::RowRuleInsetCapEnd => "row-rule-inset-cap-end",
            CssProperty::RowRuleInsetCapStart => "row-rule-inset-cap-start",
            CssProperty::RowRuleInsetEnd => "row-rule-inset-end",
            CssProperty::RowRuleInsetJunction => "row-rule-inset-junction",
            CssProperty::RowRuleInsetJunctionEnd => "row-rule-inset-junction-end",
            CssProperty::RowRuleInsetJunctionStart => "row-rule-inset-junction-start",
            CssProperty::RowRuleInsetStart => "row-rule-inset-start",
            CssProperty::RowRuleStyle => "row-rule-style",
            CssProperty::RowRuleVisibilityItems => "row-rule-visibility-items",
            CssProperty::RowRuleWidth => "row-rule-width",
            CssProperty::RubyAlign => "ruby-align",
            CssProperty::RubyMerge => "ruby-merge",
            CssProperty::RubyOverhang => "ruby-overhang",
            CssProperty::RubyPosition => "ruby-position",
            CssProperty::Rule => "rule",
            CssProperty::RuleBreak => "rule-break",
            CssProperty::RuleColor => "rule-color",
            CssProperty::RuleInset => "rule-inset",
            CssProperty::RuleInsetCap => "rule-inset-cap",
            CssProperty::RuleInsetEnd => "rule-inset-end",
            CssProperty::RuleInsetJunction => "rule-inset-junction",
            CssProperty::RuleInsetStart => "rule-inset-start",
            CssProperty::RuleOverlap => "rule-overlap",
            CssProperty::RuleStyle => "rule-style",
            CssProperty::RuleVisibilityItems => "rule-visibility-items",
            CssProperty::RuleWidth => "rule-width",
            CssProperty::Rx => "rx",
            CssProperty::Ry => "ry",
            CssProperty::Scale => "scale",
            CssProperty::ScrollBehavior => "scroll-behavior",
            CssProperty::ScrollInitialTarget => "scroll-initial-target",
            CssProperty::ScrollMargin => "scroll-margin",
            CssProperty::ScrollMarginBlock => "scroll-margin-block",
            CssProperty::ScrollMarginBlockEnd => "scroll-margin-block-end",
            CssProperty::ScrollMarginBlockStart => "scroll-margin-block-start",
            CssProperty::ScrollMarginBottom => "scroll-margin-bottom",
            CssProperty::ScrollMarginInline => "scroll-margin-inline",
            CssProperty::ScrollMarginInlineEnd => "scroll-margin-inline-end",
            CssProperty::ScrollMarginInlineStart => "scroll-margin-inline-start",
            CssProperty::ScrollMarginLeft => "scroll-margin-left",
            CssProperty::ScrollMarginRight => "scroll-margin-right",
            CssProperty::ScrollMarginTop => "scroll-margin-top",
            CssProperty::ScrollMarkerGroup => "scroll-marker-group",
            CssProperty::ScrollPadding => "scroll-padding",
            CssProperty::ScrollPaddingBlock => "scroll-padding-block",
            CssProperty::ScrollPaddingBlockEnd => "scroll-padding-block-end",
            CssProperty::ScrollPaddingBlockStart => "scroll-padding-block-start",
            CssProperty::ScrollPaddingBottom => "scroll-padding-bottom",
            CssProperty::ScrollPaddingInline => "scroll-padding-inline",
            CssProperty::ScrollPaddingInlineEnd => "scroll-padding-inline-end",
            CssProperty::ScrollPaddingInlineStart => "scroll-padding-inline-start",
            CssProperty::ScrollPaddingLeft => "scroll-padding-left",
            CssProperty::ScrollPaddingRight => "scroll-padding-right",
            CssProperty::ScrollPaddingTop => "scroll-padding-top",
            CssProperty::ScrollSnapAlign => "scroll-snap-align",
            CssProperty::ScrollSnapStop => "scroll-snap-stop",
            CssProperty::ScrollSnapType => "scroll-snap-type",
            CssProperty::ScrollTargetGroup => "scroll-target-group",
            CssProperty::ScrollTimeline => "scroll-timeline",
            CssProperty::ScrollTimelineAxis => "scroll-timeline-axis",
            CssProperty::ScrollTimelineName => "scroll-timeline-name",
            CssProperty::ScrollbarColor => "scrollbar-color",
            CssProperty::ScrollbarGutter => "scrollbar-gutter",
            CssProperty::ScrollbarInset => "scrollbar-inset",
            CssProperty::ScrollbarMinThumbSize => "scrollbar-min-thumb-size",
            CssProperty::ScrollbarMode => "scrollbar-mode",
            CssProperty::ScrollbarWidth => "scrollbar-width",
            CssProperty::ShapeImageThreshold => "shape-image-threshold",
            CssProperty::ShapeInside => "shape-inside",
            CssProperty::ShapeMargin => "shape-margin",
            CssProperty::ShapeOutside => "shape-outside",
            CssProperty::ShapePadding => "shape-padding",
            CssProperty::ShapeRendering => "shape-rendering",
            CssProperty::SliderOrientation => "slider-orientation",
            CssProperty::SpatialNavigationAction => "spatial-navigation-action",
            CssProperty::SpatialNavigationContain => "spatial-navigation-contain",
            CssProperty::SpatialNavigationFunction => "spatial-navigation-function",
            CssProperty::Speak => "speak",
            CssProperty::SpeakAs => "speak-as",
            CssProperty::StopColor => "stop-color",
            CssProperty::StopOpacity => "stop-opacity",
            CssProperty::StringSet => "string-set",
            CssProperty::Stroke => "stroke",
            CssProperty::StrokeAlign => "stroke-align",
            CssProperty::StrokeAlignment => "stroke-alignment",
            CssProperty::StrokeBreak => "stroke-break",
            CssProperty::StrokeColor => "stroke-color",
            CssProperty::StrokeDashCornerPropdefStrokeDashCorner => "stroke-dash-corner",
            CssProperty::StrokeDashJustify => "stroke-dash-justify",
            CssProperty::StrokeDashadjust => "stroke-dashadjust",
            CssProperty::StrokeDasharray => "stroke-dasharray",
            CssProperty::StrokeDashcornerStrokedashcornerproperty => "stroke-dashcorner",
            CssProperty::StrokeDashoffset => "stroke-dashoffset",
            CssProperty::StrokeImage => "stroke-image",
            CssProperty::StrokeLinecap => "stroke-linecap",
            CssProperty::StrokeLinejoin => "stroke-linejoin",
            _ => self.name_from_700(),
        }
    }

    fn name_from_700(&self) -> (r: &'static str)
        ensures
            r@ == self.spec_name_from_700(),
    {
        match self {
            CssProperty::StrokeMiterlimit => "stroke-miterlimit",
            CssProperty::StrokeOpacity => "stroke-opacity",
            CssProperty::StrokeOrigin => "stroke-origin",
            CssProperty::StrokePosition => "stroke-position",
            CssProperty::StrokeRepeat => "stroke-repeat",
            CssProperty::StrokeSize => "stroke-size",
            CssProperty::StrokeWidth => "stroke-width",
            CssProperty::TabSize => "tab-size",
            CssProperty::TableLayout => "table-layout",
            CssProperty::TextAlign => "text-align",
            CssProperty::TextAlignAll => "text-align-all",
            CssProperty::TextAlignLast => "text-align-last",
            CssProperty::TextAnchor => "text-anchor",
            CssProperty::TextAutospace => "text-autospace",
            CssProperty::TextBox => "text-box",
            CssProperty::TextBoxEdge => "text-box-edge",
            CssProperty::TextBoxTrim => "text-box-trim",
            CssProperty::TextCombineUpright => "text-combine-upright",
            CssProperty::TextDecoration => "text-decoration",
            CssProperty::TextDecorationColor => "text-decoration-color",
            CssProperty::TextDecorationInset => "text-decoration-inset",
            CssProperty::TextDecorationLine => "text-decoration-line",
            CssProperty::TextDecorationSkip => "text-decoration-skip",
            CssProperty::TextDecorationSkipBox => "text-decoration-skip-box",
            CssProperty::TextDecorationSkipInk => "text-decoration-skip-ink",
            CssProperty::TextDecorationSkipSelf => "text-decoration-skip-self",
            CssProperty::TextDecorationSkipSpaces => "text-decoration-skip-spaces",
            CssProperty::TextDecorationStyle => "text-decoration-style",
            CssProperty::TextDecorationThickness => "text-decoration-thickness",
            CssProperty::TextEmphasis => "text-emphasis",
            CssProperty::TextEmphasisColor => "text-emphasis-color",
            CssProperty::TextEmphasisPosition => "text-emphasis-position",
            CssProperty::TextEmphasisSkip => "text-emphasis-skip",
            CssProperty::TextEmphasisStyle => "text-emphasis-style",
            CssProperty::TextFit => "text-fit",
            CssProperty::TextGroupAlign => "text-group-align",
            CssProperty::TextIndent => "text-indent",
            CssProperty::TextJustify => "text-justify",
            CssProperty::TextOrientation => "text-orientation",
            CssProperty::TextOverflow => "text-overflow",
            CssProperty::TextRendering => "text-rendering",
            CssProperty::TextShadow => "text-shadow",
            CssProperty::TextSizeAdjust => "text-size-adjust",
            CssProperty::TextSpacing => "text-spacing",
            CssProperty::TextSpacingTrim => "text-spacing-trim",
            CssProperty::TextTransform => "text-transform",
            CssProperty::TextUnderlineOffset => "text-underline-offset",
            CssProperty::TextUnderlinePosition => "text-underline-position",
            CssProperty::TextWrap => "text-wrap",
            CssProperty::TextWrapMode => "text-wrap-mode",
            CssProperty::TextWrapStyle => "text-wrap-style",
            CssProperty::TimelineScope => "timeline-scope",
            CssProperty::TimelineTrigger => "timeline-trigger",
            CssProperty::TimelineTriggerActivationRange => "timeline-trigger-activation-range",
            CssProperty::TimelineTriggerActivationRangeEnd => "timeline-trigger-activation-range-end",
            CssProperty::TimelineTriggerActivationRangeStart => "timeline-trigger-activation-range-start",
            CssProperty::TimelineTriggerActiveRange => "timeline-trigger-active-range",
            CssProperty::TimelineTriggerActiveRangeEnd => "timeline-trigger-active-range-end",
            CssProperty::TimelineTriggerActiveRangeStart => "timeline-trigger-active-range-start",
            CssProperty::TimelineTriggerName => "timeline-trigger-name",
            CssProperty::TimelineTriggerSource => "timeline-trigger-source",
            CssProperty::Top => "top",
            CssProperty::TouchAction => "touch-action",
            CssProperty::Transform => "transform",
            CssProperty::TransformBox => "transform-box",
            CssProperty::TransformOrigin => "transform-origin",
            CssProperty::TransformStyle => "transform-style",
            CssProperty::Transition => "transition",
            CssProperty::TransitionBehavior => "transition-behavior",
            CssProperty::TransitionDelay => "transition-delay",
            CssProperty::TransitionDuration => "transition-duration",
            CssProperty::TransitionProperty => "transition-property",
            CssProperty::TransitionTimingFunction => "transition-timing-function",
            CssProperty::Translate => "translate",
            CssProperty::TriggerScope => "trigger-scope",
            CssProperty::UnicodeBidi => "unicode-bidi",
            CssProperty::UserSelect => "user-select",
            CssProperty::VectorEffect => "vector-effect",
            CssProperty::VerticalAlign => "vertical-align",
            CssProperty::ViewTimeline => "view-timeline",
            CssProperty::ViewTimelineAxis => "view-timeline-axis",
            CssProperty::ViewTimelineInset => "view-timeline-inset",
            CssProperty::ViewTimelineName => "view-timeline-name",
            CssProperty::ViewTransitionClass => "view-transition-class",
            CssProperty::ViewTransitionGroup => "view-transition-group",
            CssProperty::ViewTransitionName => "view-transition-name",
            CssProperty::ViewTransitionScope => "view-transition-scope",
            CssProperty::Visibility => "visibility",
            CssProperty::VoiceBalance => "voice-balance",
            CssProperty::VoiceDuration => "voice-duration",
            CssProperty::VoiceFamily => "voice-family",
            CssProperty::VoicePitch => "voice-pitch",
            CssProperty::VoiceRange => "voice-range",
            CssProperty::VoiceRate => "voice-rate",
            CssProperty::VoiceStress => "voice-stress",
            CssProperty::VoiceVolume => "voice-volume",
            CssProperty::WhiteSpace => "white-space",
            CssProperty::WhiteSpaceCollapse => "white-space-collapse",
            CssProperty::WhiteSpaceTrim => "white-space-trim",
            CssProperty::Widows => "widows",
            _ => self.name_from_800(),
        }
    }

    fn name_from_800(&self) -> (r: &'static str)
        ensures
            r@ == self.spec_name_from_800(),
    {
        match self {
            CssProperty::Width => "width",
            CssProperty::WillChange => "will-change",
            CssProperty::WordBreak => "word-break",
            CssProperty::WordSpaceTransform => "word-space-transform",
            CssProperty::WordSpacing => "word-spacing",
            CssProperty::WordWrap => "word-wrap",
            CssProperty::WrapAfter => "wrap-after",
            CssProperty::WrapBefore => "wrap-before",
            CssProperty::WrapFlow => "wrap-flow",
            CssProperty::WrapInside => "wrap-inside",
            CssProperty::WrapThrough => "wrap-through",
            CssProperty::WritingMode => "writing-mode",
            CssProperty::X => "x",
            CssProperty::Y => "y",
            CssProperty::ZIndex => "z-index",
            CssProperty::Zoom => "zoom",
            CssProperty::Unknown(_) => {
                proof {
                    reveal_strlit("");
                }
                ""
            },
            _ => {
                proof {
                    reveal_strlit("");
                }
                ""
            },
        }
    }

    /// Looks a name up. A name that is not listed gives `Unknown` holding the name.
    pub fn from_name(name: &str) -> (r: Self)
        ensures
            match Self::spec_lookup(name@) {
                Some(p) => r == p,
                None => r matches CssProperty::Unknown(s) && s@ == name@,
            },
    {
        let key = chars_of(name);
        proof {
            lemma_lookup_sorted();
        }
        let mut lo: usize = 0;
        let mut hi: usize = LOOKUP_LEN;
        while lo < hi
            invariant
                lo <= hi <= LOOKUP_LEN,
                key@ == name@,
                forall|i: usize, j: usize|
                    i < j < LOOKUP_LEN ==> name_less(#[trigger] lookup_name(i), #[trigger] lookup_name(j)),
                forall|i: usize| i < lo ==> name_less(#[trigger] lookup_name(i), key@),
                forall|i: usize| hi <= i < LOOKUP_LEN ==> name_less(key@, #[trigger] lookup_name(i)),
            decreases hi - lo,
        {
            let mid = lo + (hi - lo) / 2;
            let cand = chars_of(lookup_name_at(mid));
            match compare_char_seqs(cand.as_slice(), key.as_slice()) {
                NameOrder::Less => {
                    assert forall|i: usize| i < mid + 1 implies name_less(#[trigger] lookup_name(i), key@) by {
                        if i < mid {
                            lemma_name_less_transitive(lookup_name(i), lookup_name(mid), key@);
                        }
                    }
                    lo = mid + 1;
                },
                NameOrder::Equal => {
                    let candidate = lookup_at(mid);
                    proof {
                        lemma_lookup_position(candidate);
                        lemma_lookup_of_name(candidate);
                    }
                    return candidate;
                },
                NameOrder::Greater => {
                    assert forall|i: usize| mid <= i < LOOKUP_LEN implies name_less(key@, #[trigger] lookup_name(i)) by {
                        if mid < i {
                            lemma_name_less_transitive(key@, lookup_name(mid), lookup_name(i));
                        }
                    }
                    hi = mid;
                },
            }
        }
        proof {
            assert forall|p: CssProperty| p.is_listed() implies #[trigger] p.spec_name() != name@ by {
                lemma_lookup_position(p);
                let k = p.lookup_position();
                if k < lo {
                    lemma_name_less_asymmetric(lookup_name(k), key@);
                } else {
                    lemma_name_less_asymmetric(key@, lookup_name(k));
                }
            }
        }
        CssProperty::Unknown(String::from_str(name))
    }
}

/// The `i`-th entry of the lookup table.
fn lookup_at(i: usize) -> (r: CssProperty)
    requires
        0 <= i < LOOKUP_LEN,
    ensures
        r.is_listed(),
        r.lookup_position() == i,
{
    match i {
        0 => {
            proof {
                assert(CssProperty::WebkitAlignContent.lookup_position() == 0);
            }
            CssProperty::WebkitAlignContent
        },
        1 => {
            proof {
                assert(CssProperty::WebkitAlignItems.lookup_position() == 1);
            }
            CssProperty::WebkitAlignItems
        },
        2 => {
            proof {
                assert(CssProperty::WebkitAlignSelf.lookup_position() == 2);
            }
            CssProperty::WebkitAlignSelf
        },
        3 => {
            proof {
                assert(CssProperty::WebkitAnimation.lookup_position() == 3);
            }
            CssProperty::WebkitAnimation
        },
        4 => {
            proof {
                assert(CssProperty::WebkitAnimationDelay.lookup_position() == 4);
            }
            CssProperty::WebkitAnimationDelay
        },
        5 => {
            proof {
                assert(CssProperty::WebkitAnimationDirection.lookup_position() == 5);
            }
            CssProperty::WebkitAnimationDirection
        },
        6 => {
            proof {
                assert(CssProperty::WebkitAnimationDuration.lookup_position() == 6);
            }
            CssProperty::WebkitAnimationDuration
        },
        7 => {
            proof {
                assert(CssProperty::WebkitAnimationFillMode.lookup_position() == 7);
            }
            CssProperty::WebkitAnimationFillMode
        },
        8 => {
            proof {
                assert(CssProperty::WebkitAnimationIterationCount.lookup_position() == 8);
            }
            CssProperty::WebkitAnimationIterationCount
        },
        9 => {
            proof {
                assert(CssProperty::WebkitAnimationName.lookup_position() == 9);
            }
            CssProperty::WebkitAnimationName
        },
        10 => {
            proof {
                assert(CssProperty::WebkitAnimationPlayState.lookup_position() == 10);
            }
            CssProperty::WebkitAnimationPlayState
        },
        11 => {
            proof {
                assert(CssProperty::WebkitAnimationTimingFunction.lookup_position() == 11);
            }
            CssProperty::WebkitAnimationTimingFunction
        },
        12 => {
            proof {
                assert(CssProperty::WebkitAppearance.lookup_position() == 12);
            }
            CssProperty::WebkitAppearance
        },
        13 => {
            proof {
                assert(CssProperty::WebkitBackfaceVisibility.lookup_position() == 13);
            }
            CssProperty::WebkitBackfaceVisibility
        },
        14 => {
            proof {
                assert(CssProperty::WebkitBackgroundClip.lookup_position() == 14);
            }
            CssProperty::WebkitBackgroundClip
        },
        15 => {
            proof {
                assert(CssProperty::WebkitBackgroundOrigin.lookup_position() == 15);
            }
            CssProperty::WebkitBackgroundOrigin
        },
        16 => {
            proof {
                assert(CssProperty::WebkitBackgroundSize.lookup_position() == 16);
            }
            CssProperty::WebkitBackgroundSize
        },
        17 => {
            proof {
                assert(CssProperty::WebkitBorderBottomLeftRadius.lookup_position() == 17);
            }
            CssProperty::WebkitBorderBottomLeftRadius
        },
        18 => {
            proof {
                assert(CssProperty::WebkitBorderBottomRightRadius.lookup_position() == 18);
            }
            CssProperty::WebkitBorderBottomRightRadius
        },
        19 => {
            proof {
                assert(CssProperty::WebkitBorderRadius.lookup_position() == 19);
            }
            CssProperty::WebkitBorderRadius
        },
        20 => {
            proof {
                assert(CssProperty::WebkitBorderTopLeftRadius.lookup_position() == 20);
            }
            CssProperty::WebkitBorderTopLeftRadius
        },
        21 => {
            proof {
                assert(CssProperty::WebkitBorderTopRightRadius.lookup_position() == 21);
            }
            CssProperty::WebkitBorderTopRightRadius
        },
        22 => {
            proof {
                assert(CssProperty::WebkitBoxAlign.lookup_position() == 22);
            }
            CssProperty::WebkitBoxAlign
        },
        23 => {
            proof {
                assert(CssProperty::WebkitBoxFlex.lookup_position() == 23);
            }
            CssProperty::WebkitBoxFlex
        },
        24 => {
            proof {
                assert(CssProperty::WebkitBoxOrdinalGroup.lookup_position() == 24);
            }
            CssProperty::WebkitBoxOrdinalGroup
        },
        25 => {
            proof {
                assert(CssProperty::WebkitBoxOrient.lookup_position() == 25);
            }
            CssProperty::WebkitBoxOrient
        },
        26 => {
            proof {
                assert(CssProperty::WebkitBoxPack.lookup_position() == 26);
            }
            CssProperty::WebkitBoxPack
        },
        27 => {
            proof {
                assert(CssProperty::WebkitBoxShadow.lookup_position() == 27);
            }
            CssProperty::WebkitBoxShadow
        },
        28 => {
            proof {
                assert(CssProperty::WebkitBoxSizing.lookup_position() == 28);
            }
            CssProperty::WebkitBoxSizing
        },
        29 => {
            proof {
                assert(CssProperty::WebkitFilter.lookup_position() == 29);
            }
            CssProperty::WebkitFilter
        },
        30 => {
            proof {
                assert(CssProperty::WebkitFlex.lookup_position() == 30);
            }
            CssProperty::WebkitFlex
        },
        31 => {
            proof {
                assert(CssProperty::WebkitFlexBasis.lookup_position() == 31);
            }
            CssProperty::WebkitFlexBasis
        },
        32 => {
            proof {
                assert(CssProperty::WebkitFlexDirection.lookup_position() == 32);
            }
            CssProperty::WebkitFlexDirection
        },
        33 => {
            proof {
                assert(CssProperty::WebkitFlexFlow.lookup_position() == 33);
            }
            CssProperty::WebkitFlexFlow
        },
        34 => {
            proof {
                assert(CssProperty::WebkitFlexGrow.lookup_position() == 34);
            }
            CssProperty::WebkitFlexGrow
        },
        35 => {
            proof {
                assert(CssProperty::WebkitFlexShrink.lookup_position() == 35);
            }
            CssProperty::WebkitFlexShrink
        },
        36 => {
            proof {
                assert(CssProperty::WebkitFlexWrap.lookup_position() == 36);
            }
            CssProperty::WebkitFlexWrap
        },
        37 => {
            proof {
                assert(CssProperty::WebkitJustifyContent.lookup_position() == 37);
            }
            CssProperty::WebkitJustifyContent
        },
        38 => {
            proof {
                assert(CssProperty::WebkitLineClamp.lookup_position() == 38);
            }
            CssProperty::WebkitLineClamp
        },
        39 => {
            proof {
                assert(CssProperty::WebkitMask.lookup_position() == 39);
            }
            CssProperty::WebkitMask
        },
        40 => {
            proof {
                assert(CssProperty::WebkitMaskBoxImage.lookup_position() == 40);
            }
            CssProperty::WebkitMaskBoxImage
        },
        41 => {
            proof {
                assert(CssProperty::WebkitMaskBoxImageOutset.lookup_position() == 41);
            }
            CssProperty::WebkitMaskBoxImageOutset
        },
        42 => {
            proof {
                assert(CssProperty::WebkitMaskBoxImageRepeat.lookup_position() == 42);
            }
            CssProperty::WebkitMaskBoxImageRepeat
        },
        43 => {
            proof {
                assert(CssProperty::WebkitMaskBoxImageSlice.lookup_position() == 43);
            }
            CssProperty::WebkitMaskBoxImageSlice
        },
        44 => {
            proof {
                assert(CssProperty::WebkitMaskBoxImageSource.lookup_position() == 44);
            }
            CssProperty::WebkitMaskBoxImageSource
        },
        45 => {
            proof {
                assert(CssProperty::WebkitMaskBoxImageWidth.lookup_position() == 45);
            }
            CssProperty::WebkitMaskBoxImageWidth
        },
        46 => {
            proof {
                assert(CssProperty::WebkitMaskClip.lookup_position() == 46);
            }
            CssProperty::WebkitMaskClip
        },
        47 => {
            proof {
                assert(CssProperty::WebkitMaskComposite.lookup_position() == 47);
            }
            CssProperty::WebkitMaskComposite
        },
        48 => {
            proof {
                assert(CssProperty::WebkitMaskImage.lookup_position() == 48);
            }
            CssProperty::WebkitMaskImage
        },
        49 => {
            proof {
                assert(CssProperty::WebkitMaskOrigin.lookup_position() == 49);
            }
            CssProperty::WebkitMaskOrigin
        },
        50 => {
            proof {
                assert(CssProperty::WebkitMaskPosition.lookup_position() == 50);
            }
            CssProperty::WebkitMaskPosition
        },
        51 => {
            proof {
                assert(CssProperty::WebkitMaskRepeat.lookup_position() == 51);
            }
            CssProperty::WebkitMaskRepeat
        },
        52 => {
            proof {
                assert(CssProperty::WebkitMaskSize.lookup_position() == 52);
            }
            CssProperty::WebkitMaskSize
        },
        53 => {
            proof {
                assert(CssProperty::WebkitOrder.lookup_position() == 53);
            }
            CssProperty::WebkitOrder
        },
        54 => {
            proof {
                assert(CssProperty::WebkitPerspective.lookup_position() == 54);
            }
            CssProperty::WebkitPerspective
        },
        55 => {
            proof {
                assert(CssProperty::WebkitPerspectiveOrigin.lookup_position() == 55);
            }
            CssProperty::WebkitPerspectiveOrigin
        },
        56 => {
            proof {
                assert(CssProperty::WebkitTextFillColor.lookup_position() == 56);
            }
            CssProperty::WebkitTextFillColor
        },
        57 => {
            proof {
                assert(CssProperty::WebkitTextSizeAdjust.lookup_position() == 57);
            }
            CssProperty::WebkitTextSizeAdjust
        },
        58 => {
            proof {
                assert(CssProperty::WebkitTextStroke.lookup_position() == 58);
            }
            CssProperty::WebkitTextStroke
        },
        59 => {
            proof {
                assert(CssProperty::WebkitTextStrokeColor.lookup_position() == 59);
            }
            CssProperty::WebkitTextStrokeColor
        },
        60 => {
            proof {
                assert(CssProperty::WebkitTextStrokeWidth.lookup_position() == 60);
            }
            CssProperty::WebkitTextStrokeWidth
        },
        61 => {
            proof {
                assert(CssProperty::WebkitTransform.lookup_position() == 61);
            }
            CssProperty::WebkitTransform
        },
        62 => {
            proof {
                assert(CssProperty::WebkitTransformOrigin.lookup_position() == 62);
            }
            CssProperty::WebkitTransformOrigin
        },
        63 => {
            proof {
                assert(CssProperty::WebkitTransformStyle.lookup_position() == 63);
            }
            CssProperty::WebkitTransformStyle
        },
        64 => {
            proof {
                assert(CssProperty::WebkitTransition.lookup_position() == 64);
            }
            CssProperty::WebkitTransition
        },
        65 => {
            proof {
                assert(CssProperty::WebkitTransitionDelay.lookup_position() == 65);
            }
            CssProperty::WebkitTransitionDelay
        },
        66 => {
            proof {
                assert(CssProperty::WebkitTransitionDuration.lookup_position() == 66);
            }
            CssProperty::WebkitTransitionDuration
        },
        67 => {
            proof {
                assert(CssProperty::WebkitTransitionProperty.lookup_position() == 67);
            }
            CssProperty::WebkitTransitionProperty
        },
        68 => {
            proof {
                assert(CssProperty::WebkitTransitionTimingFunction.lookup_position() == 68);
            }
            CssProperty::WebkitTransitionTimingFunction
        },
        69 => {
            proof {
                assert(CssProperty::WebkitUserSelect.lookup_position() == 69);
            }
            CssProperty::WebkitUserSelect
        },
        70 => {
            proof {
                assert(CssProperty::AccentColor.lookup_position() == 70);
            }
            CssProperty::AccentColor
        },
        71 => {
            proof {
                assert(CssProperty::AlignContent.lookup_position() == 71);
            }
            CssProperty::AlignContent
        },
        72 => {
            proof {
                assert(CssProperty::AlignItems.lookup_position() == 72);
            }
            CssProperty::AlignItems
        },
        73 => {
            proof {
                assert(CssProperty::AlignSelf.lookup_position() == 73);
            }
            CssProperty::AlignSelf
        },
        74 => {
            proof {
                assert(CssProperty::AlignmentBaseline.lookup_position() == 74);
            }
            CssProperty::AlignmentBaseline
        },
        75 => {
            proof {
                assert(CssProperty::All.lookup_position() == 75);
            }
            CssProperty::All
        },
        76 => {
            proof {
                assert(CssProperty::AnchorName.lookup_position() == 76);
            }
            CssProperty::AnchorName
        },
        77 => {
            proof {
                assert(CssProperty::AnchorScope.lookup_position() == 77);
            }
            CssProperty::AnchorScope
        },
        78 => {
            proof {
                assert(CssProperty::Animation.lookup_position() == 78);
            }
            CssProperty::Animation
        },
        79 => {
            proof {
                assert(CssProperty::AnimationComposition.lookup_position() == 79);
            }
            CssProperty::AnimationComposition
        },
        80 => {
            proof {
                assert(CssProperty::AnimationDelay.lookup_position() == 80);
            }
            CssProperty::AnimationDelay
        },
        81 => {
            proof {
                assert(CssProperty::AnimationDirection.lookup_position() == 81);
            }
            CssProperty::AnimationDirection
        },
        82 => {
            proof {
                assert(CssProperty::AnimationDuration.lookup_position() == 82);
            }
            CssProperty::AnimationDuration
        },
        83 => {
            proof {
                assert(CssProperty::AnimationFillMode.lookup_position() == 83);
            }
            CssProperty::AnimationFillMode
        },
        84 => {
            proof {
                assert(CssProperty::AnimationIterationCount.lookup_position() == 84);
            }
            CssProperty::AnimationIterationCount
        },
        85 => {
            proof {
                assert(CssProperty::AnimationName.lookup_position() == 85);
            }
            CssProperty::AnimationName
        },
        86 => {
            proof {
                assert(CssProperty::AnimationPlayState.lookup_position() == 86);
            }
            CssProperty::AnimationPlayState
        },
        87 => {
            proof {
                assert(CssProperty::AnimationRange.lookup_position() == 87);
            }
            CssProperty::AnimationRange
        },
        88 => {
            proof {
                assert(CssProperty::AnimationRangeCenter.lookup_position() == 88);
            }
            CssProperty::AnimationRangeCenter
        },
        89 => {
            proof {
                assert(CssProperty::AnimationRangeEnd.lookup_position() == 89);
            }
            CssProperty::AnimationRangeEnd
        },
        90 => {
            proof {
                assert(CssProperty::AnimationRangeStart.lookup_position() == 90);
            }
            CssProperty::AnimationRangeStart
        },
        91 => {
            proof {
                assert(CssProperty::AnimationTimeline.lookup_position() == 91);
            }
            CssProperty::AnimationTimeline
        },
        92 => {
            proof {
                assert(CssProperty::AnimationTimingFunction.lookup_position() == 92);
            }
            CssProperty::AnimationTimingFunction
        },
        93 => {
            proof {
                assert(CssProperty::AnimationTrigger.lookup_position() == 93);
            }
            CssProperty::AnimationTrigger
        },
        94 => {
            proof {
                assert(CssProperty::Appearance.lookup_position() == 94);
            }
            CssProperty::Appearance
        },
        95 => {
            proof {
                assert(CssProperty::AspectRatio.lookup_position() == 95);
            }
            CssProperty::AspectRatio
        },
        96 => {
            proof {
                assert(CssProperty::BackdropFilter.lookup_position() == 96);
            }
            CssProperty::BackdropFilter
        },
        97 => {
            proof {
                assert(CssProperty::BackfaceVisibility.lookup_position() == 97);
            }
            CssProperty::BackfaceVisibility
        },
        98 => {
            proof {
                assert(CssProperty::Background.lookup_position() == 98);
            }
            CssProperty::Background
        },
        99 => {
            proof {
                assert(CssProperty::BackgroundAttachment.lookup_position() == 99);
            }
            CssProperty::BackgroundAttachment
        },
        _ => lookup_at_from_100(i),
    }
}

/// `lookup_at` from index 100 on.
fn lookup_at_from_100(i: usize) -> (r: CssProperty)
    requires
        100 <= i < LOOKUP_LEN,
    ensures
        r.is_listed(),
        r.lookup_position() == i,
{
    match i {
        100 => {
            proof {
                assert(CssProperty::BackgroundBlendMode.lookup_position() == 100);
            }
            CssProperty::BackgroundBlendMode
        },
        101 => {
            proof {
                assert(CssProperty::BackgroundClip.lookup_position() == 101);
            }
            CssProperty::BackgroundClip
        },
        102 => {
            proof {
                assert(CssProperty::BackgroundColor.lookup_position() == 102);
            }
            CssProperty::BackgroundColor
        },
        103 => {
            proof {
                assert(CssProperty::BackgroundImage.lookup_position() == 103);
            }
            CssProperty::BackgroundImage
        },
        104 => {
            proof {
                assert(CssProperty::BackgroundOrigin.lookup_position() == 104);
            }
            CssProperty::BackgroundOrigin
        },
        105 => {
            proof {
                assert(CssProperty::BackgroundPosition.lookup_position() == 105);
            }
            CssProperty::BackgroundPosition
        },
        106 => {
            proof {
                assert(CssProperty::BackgroundPositionBlock.lookup_position() == 106);
            }
            CssProperty::BackgroundPositionBlock
        },
        107 => {
            proof {
                assert(CssProperty::BackgroundPositionInline.lookup_position() == 107);
            }
            CssProperty::BackgroundPositionInline
        },
        108 => {
            proof {
                assert(CssProperty::BackgroundPositionX.lookup_position() == 108);
            }
            CssProperty::BackgroundPositionX
        },
        109 => {
            proof {
                assert(CssProperty::BackgroundPositionY.lookup_position() == 109);
            }
            CssProperty::BackgroundPositionY
        },
        110 => {
            proof {
                assert(CssProperty::BackgroundRepeat.lookup_position() == 110);
            }
            CssProperty::BackgroundRepeat
        },
        111 => {
            proof {
                assert(CssProperty::BackgroundRepeatBlock.lookup_position() == 111);
            }
            CssProperty::BackgroundRepeatBlock
        },
        112 => {
            proof {
                assert(CssProperty::BackgroundRepeatInline.lookup_position() == 112);
            }
            CssProperty::BackgroundRepeatInline
        },
        113 => {
            proof {
                assert(CssProperty::BackgroundRepeatX.lookup_position() == 113);
            }
            CssProperty::BackgroundRepeatX
        },
        114 => {
            proof {
                assert(CssProperty::BackgroundRepeatY.lookup_position() == 114);
            }
            CssProperty::BackgroundRepeatY
        },
        115 => {
            proof {
                assert(CssProperty::BackgroundSize.lookup_position() == 115);
            }
            CssProperty::BackgroundSize
        },
        116 => {
            proof {
                assert(CssProperty::BackgroundTbd.lookup_position() == 116);
            }
            CssProperty::BackgroundTbd
        },
        117 => {
            proof {
                assert(CssProperty::BaselineShift.lookup_position() == 117);
            }
            CssProperty::BaselineShift
        },
        118 => {
            proof {
                assert(CssProperty::BaselineSource.lookup_position() == 118);
            }
            CssProperty::BaselineSource
        },
        119 => {
            proof {
                assert(CssProperty::BlockEllipsis.lookup_position() == 119);
            }
            CssProperty::BlockEllipsis
        },
        120 => {
            proof {
                assert(CssProperty::BlockSize.lookup_position() == 120);
            }
            CssProperty::BlockSize
        },
        121 => {
            proof {
                assert(CssProperty::BlockStep.lookup_position() == 121);
            }
            CssProperty::BlockStep
        },
        122 => {
            proof {
                assert(CssProperty::BlockStepAlign.lookup_position() == 122);
            }
            CssProperty::BlockStepAlign
        },
        123 => {
            proof {
                assert(CssProperty::BlockStepInsert.lookup_position() == 123);
            }
            CssProperty::BlockStepInsert
        },
        124 => {
            proof {
                assert(CssProperty::BlockStepRound.lookup_position() == 124);
            }
            CssProperty::BlockStepRound
        },
        125 => {
            proof {
                assert(CssProperty::BlockStepSize.lookup_position() == 125);
            }
            CssProperty::BlockStepSize
        },
        126 => {
            proof {
                assert(CssProperty::BookmarkLabel.lookup_position() == 126);
            }
            CssProperty::BookmarkLabel
        },
        127 => {
            proof {
                assert(CssProperty::BookmarkLevel.lookup_position() == 127);
            }
            CssProperty::BookmarkLevel
        },
        128 => {
            proof {
                assert(CssProperty::BookmarkState.lookup_position() == 128);
            }
            CssProperty::BookmarkState
        },
        129 => {
            proof {
                assert(CssProperty::Border.lookup_position() == 129);
            }
            CssProperty::Border
        },
        130 => {
            proof {
                assert(CssProperty::BorderBlock.lookup_position() == 130);
            }
            CssProperty::BorderBlock
        },
        131 => {
            proof {
                assert(CssProperty::BorderBlockClip.lookup_position() == 131);
            }
            CssProperty::BorderBlockClip
        },
        132 => {
            proof {
                assert(CssProperty::BorderBlockColor.lookup_position() == 132);
            }
            CssProperty::BorderBlockColor
        },
        133 => {
            proof {
                assert(CssProperty::BorderBlockEnd.lookup_position() == 133);
            }
            CssProperty::BorderBlockEnd
        },
        134 => {
            proof {
                assert(CssProperty::BorderBlockEndClip.lookup_position() == 134);
            }
            CssProperty::BorderBlockEndClip
        },
        135 => {
            proof {
                assert(CssProperty::BorderBlockEndColor.lookup_position() == 135);
            }
            CssProperty::BorderBlockEndColor
        },
        136 => {
            proof {
                assert(CssProperty::BorderBlockEndRadius.lookup_position() == 136);
            }
            CssProperty::BorderBlockEndRadius
        },
        137 => {
            proof {
                assert(CssProperty::BorderBlockEndStyle.lookup_position() == 137);
            }
            CssProperty::BorderBlockEndStyle
        },
        138 => {
            proof {
                assert(CssProperty::BorderBlockEndWidth.lookup_position() == 138);
            }
            CssProperty::BorderBlockEndWidth
        },
        139 => {
            proof {
                assert(CssProperty::BorderBlockStart.lookup_position() == 139);
            }
            CssProperty::BorderBlockStart
        },
        140 => {
            proof {
                assert(CssProperty::BorderBlockStartClip.lookup_position() == 140);
            }
            CssProperty::BorderBlockStartClip
        },
        141 => {
            proof {
                assert(CssProperty::BorderBlockStartColor.lookup_position() == 141);
            }
            CssProperty::BorderBlockStartColor
        },
        142 => {
            proof {
                assert(CssProperty::BorderBlockStartRadius.lookup_position() == 142);
            }
            CssProperty::BorderBlockStartRadius
        },
        143 => {
            proof {
                assert(CssProperty::BorderBlockStartStyle.lookup_position() == 143);
            }
            CssProperty::BorderBlockStartStyle
        },
        144 => {
            proof {
                assert(CssProperty::BorderBlockStartWidth.lookup_position() == 144);
            }
            CssProperty::BorderBlockStartWidth
        },
        145 => {
            proof {
                assert(CssProperty::BorderBlockStyle.lookup_position() == 145);
            }
            CssProperty::BorderBlockStyle
        },
        146 => {
            proof {
                assert(CssProperty::BorderBlockWidth.lookup_position() == 146);
            }
            CssProperty::BorderBlockWidth
        },
        147 => {
            proof {
                assert(CssProperty::BorderBottom.lookup_position() == 147);
            }
            CssProperty::BorderBottom
        },
        148 => {
            proof {
                assert(CssProperty::BorderBottomClip.lookup_position() == 148);
            }
            CssProperty::BorderBottomClip
        },
        149 => {
            proof {
                assert(CssProperty::BorderBottomColor.lookup_position() == 149);
            }
            CssProperty::BorderBottomColor
        },
        150 => {
            proof {
                assert(CssProperty::BorderBottomLeftRadius.lookup_position() == 150);
            }
            CssProperty::BorderBottomLeftRadius
        },
        151 => {
            proof {
                assert(CssProperty::BorderBottomRadius.lookup_position() == 151);
            }
            CssProperty::BorderBottomRadius
        },
        152 => {
            proof {
                assert(CssProperty::BorderBottomRightRadius.lookup_position() == 152);
            }
            CssProperty::BorderBottomRightRadius
        },
        153 => {
            proof {
                assert(CssProperty::BorderBottomStyle.lookup_position() == 153);
            }
            CssProperty::BorderBottomStyle
        },
        154 => {
            proof {
                assert(CssProperty::BorderBottomWidth.lookup_position() == 154);
            }
            CssProperty::BorderBottomWidth
        },
        155 => {
            proof {
                assert(CssProperty::BorderBoundary.lookup_position() == 155);
            }
            CssProperty::BorderBoundary
        },
        156 => {
            proof {
                assert(CssProperty::BorderClip.lookup_position() == 156);
            }
            CssProperty::BorderClip
        },
        157 => {
            proof {
                assert(CssProperty::BorderCollapse.lookup_position() == 157);
            }
            CssProperty::BorderCollapse
        },
        158 => {
            proof {
                assert(CssProperty::BorderColor.lookup_position() == 158);
            }
            CssProperty::BorderColor
        },
        159 => {
            proof {
                assert(CssProperty::BorderEndEndRadius.lookup_position() == 159);
            }
            CssProperty::BorderEndEndRadius
        },
        160 => {
            proof {
                assert(CssProperty::BorderEndStartRadius.lookup_position() == 160);
            }
            CssProperty::BorderEndStartRadius
        },
        161 => {
            proof {
                assert(CssProperty::BorderImage.lookup_position() == 161);
            }
            CssProperty::BorderImage
        },
        162 => {
            proof {
                assert(CssProperty::BorderImageOutset.lookup_position() == 162);
            }
            CssProperty::BorderImageOutset
        },
        163 => {
            proof {
                assert(CssProperty::BorderImageRepeat.lookup_position() == 163);
            }
            CssProperty::BorderImageRepeat
        },
        164 => {
            proof {
                assert(CssProperty::BorderImageSlice.lookup_position() == 164);
            }
            CssProperty::BorderImageSlice
        },
        165 => {
            proof {
                assert(CssProperty::BorderImageSource.lookup_position() == 165);
            }
            CssProperty::BorderImageSource
        },
        166 => {
            proof {
                assert(CssProperty::BorderImageWidth.lookup_position() == 166);
            }
            CssProperty::BorderImageWidth
        },
        167 => {
            proof {
                assert(CssProperty::BorderInline.lookup_position() == 167);
            }
            CssProperty::BorderInline
        },
        168 => {
            proof {
                assert(CssProperty::BorderInlineClip.lookup_position() == 168);
            }
            CssProperty::BorderInlineClip
        },
        169 => {
            proof {
                assert(CssProperty::BorderInlineColor.lookup_position() == 169);
            }
            CssProperty::BorderInlineColor
        },
        170 => {
            proof {
                assert(CssProperty::BorderInlineEnd.lookup_position() == 170);
            }
            CssProperty::BorderInlineEnd
        },
        171 => {
            proof {
                assert(CssProperty::BorderInlineEndClip.lookup_position() == 171);
            }
            CssProperty::BorderInlineEndClip
        },
        172 => {
            proof {
                assert(CssProperty::BorderInlineEndColor.lookup_position() == 172);
            }
            CssProperty::BorderInlineEndColor
        },
        173 => {
            proof {
                assert(CssProperty::BorderInlineEndRadius.lookup_position() == 173);
            }
            CssProperty::BorderInlineEndRadius
        },
        174 => {
            proof {
                assert(CssProperty::BorderInlineEndStyle.lookup_position() == 174);
            }
            CssProperty::BorderInlineEndStyle
        },
        175 => {
            proof {
                assert(CssProperty::BorderInlineEndWidth.lookup_position() == 175);
            }
            CssProperty::BorderInlineEndWidth
        },
        176 => {
            proof {
                assert(CssProperty::BorderInlineStart.lookup_position() == 176);
            }
            CssProperty::BorderInlineStart
        },
        177 => {
            proof {
                assert(CssProperty::BorderInlineStartClip.lookup_position() == 177);
            }
            CssProperty::BorderInlineStartClip
        },
        178 => {
            proof {
                assert(CssProperty::BorderInlineStartColor.lookup_position() == 178);
            }
            CssProperty::BorderInlineStartColor
        },
        179 => {
            proof {
                assert(CssProperty::BorderInlineStartRadius.lookup_position() == 179);
            }
            CssProperty::BorderInlineStartRadius
        },
        180 => {
            proof {
                assert(CssProperty::BorderInlineStartStyle.lookup_position() == 180);
            }
            CssProperty::BorderInlineStartStyle
        },
        181 => {
            proof {
                assert(CssProperty::BorderInlineStartWidth.lookup_position() == 181);
            }
            CssProperty::BorderInlineStartWidth
        },
        182 => {
            proof {
                assert(CssProperty::BorderInlineStyle.lookup_position() == 182);
            }
            CssProperty::BorderInlineStyle
        },
        183 => {
            proof {
                assert(CssProperty::BorderInlineWidth.lookup_position() == 183);
            }
            CssProperty::BorderInlineWidth
        },
        184 => {
            proof {
                assert(CssProperty::BorderLeft.lookup_position() == 184);
            }
            CssProperty::BorderLeft
        },
        185 => {
            proof {
                assert(CssProperty::BorderLeftClip.lookup_position() == 185);
            }
            CssProperty::BorderLeftClip
        },
        186 => {
            proof {
                assert(CssProperty::BorderLeftColor.lookup_position() == 186);
            }
            CssProperty::BorderLeftColor
        },
        187 => {
            proof {
                assert(CssProperty::BorderLeftRadius.lookup_position() == 187);
            }
            CssProperty::BorderLeftRadius
        },
        188 => {
            proof {
                assert(CssProperty::BorderLeftStyle.lookup_position() == 188);
            }
            CssProperty::BorderLeftStyle
        },
        189 => {
            proof {
                assert(CssProperty::BorderLeftWidth.lookup_position() == 189);
            }
            CssProperty::BorderLeftWidth
        },
        190 => {
            proof {
                assert(CssProperty::BorderLimit.lookup_position() == 190);
            }
            CssProperty::BorderLimit
        },
        191 => {
            proof {
                assert(CssProperty::BorderRadius.lookup_position() == 191);
            }
            CssProperty::BorderRadius
        },
        192 => {
            proof {
                assert(CssProperty::BorderRight.lookup_position() == 192);
            }
            CssProperty::BorderRight
        },
        193 => {
            proof {
                assert(CssProperty::BorderRightClip.lookup_position() == 193);
            }
            CssProperty::BorderRightClip
        },
        194 => {
            proof {
                assert(CssProperty::BorderRightColor.lookup_position() == 194);
            }
            CssProperty::BorderRightColor
        },
        195 => {
            proof {
                assert(CssProperty::BorderRightRadius.lookup_position() == 195);
            }
            CssProperty::BorderRightRadius
        },
        196 => {
            proof {
                assert(CssProperty::BorderRightStyle.lookup_position() == 196);
            }
            CssProperty::BorderRightStyle
        },
        197 => {
            proof {
                assert(CssProperty::BorderRightWidth.lookup_position() == 197);
            }
            CssProperty::BorderRightWidth
        },
        198 => {
            proof {
                assert(CssProperty::BorderShape.lookup_position() == 198);
            }
            CssProperty::BorderShape
        },
        199 => {
            proof {
                assert(CssProperty::BorderSpacing.lookup_position() == 199);
            }
            CssProperty::BorderSpacing
        },
        _ => lookup_at_from_200(i),
    }
}

/// `lookup_at` from index 200 on.
fn lookup_at_from_200(i: usize) -> (r: CssProperty)
    requires
        200 <= i < LOOKUP_LEN,
    ensures
        r.is_listed(),
        r.lookup_position() == i,
{
    match i {
        200 => {
            proof {
                assert(CssProperty::BorderStartEndRadius.lookup_position() == 200);
            }
            CssProperty::BorderStartEndRadius
        },
        201 => {
            proof {
                assert(CssProperty::BorderStartStartRadius.lookup_position() == 201);
            }
            CssProperty::BorderStartStartRadius
        },
        202 => {
            proof {
                assert(CssProperty::BorderStyle.lookup_position() == 202);
            }
            CssProperty::BorderStyle
        },
        203 => {
            proof {
                assert(CssProperty::BorderTop.lookup_position() == 203);
            }
            CssProperty::BorderTop
        },
        204 => {
            proof {
                assert(CssProperty::BorderTopClip.lookup_position() == 204);
            }
            CssProperty::BorderTopClip
        },
        205 => {
            proof {
                assert(CssProperty::BorderTopColor.lookup_position() == 205);
            }
            CssProperty::BorderTopColor
        },
        206 => {
            proof {
                assert(CssProperty::BorderTopLeftRadius.lookup_position() == 206);
            }
            CssProperty::BorderTopLeftRadius
        },
        207 => {
            proof {
                assert(CssProperty::BorderTopRadius.lookup_position() == 207);
            }
            CssProperty::BorderTopRadius
        },
        208 => {
            proof {
                assert(CssProperty::BorderTopRightRadius.lookup_position() == 208);
            }
            CssProperty::BorderTopRightRadius
        },
        209 => {
            proof {
                assert(CssProperty::BorderTopStyle.lookup_position() == 209);
            }
            CssProperty::BorderTopStyle
        },
        210 => {
            proof {
                assert(CssProperty::BorderTopWidth.lookup_position() == 210);
            }
            CssProperty::BorderTopWidth
        },
        211 => {
            proof {
                assert(CssProperty::BorderWidth.lookup_position() == 211);
            }
            CssProperty::BorderWidth
        },
        212 => {
            proof {
                assert(CssProperty::Bottom.lookup_position() == 212);
            }
            CssProperty::Bottom
        },
        213 => {
            proof {
                assert(CssProperty::BoxDecorationBreak.lookup_position() == 213);
            }
            CssProperty::BoxDecorationBreak
        },
        214 => {
            proof {
                assert(CssProperty::BoxShadow.lookup_position() == 214);
            }
            CssProperty::BoxShadow
        },
        215 => {
            proof {
                assert(CssProperty::BoxShadowBlur.lookup_position() == 215);
            }
            CssProperty::BoxShadowBlur
        },
        216 => {
            proof {
                assert(CssProperty::BoxShadowColor.lookup_position() == 216);
            }
            CssProperty::BoxShadowColor
        },
        217 => {
            proof {
                assert(CssProperty::BoxShadowOffset.lookup_position() == 217);
            }
            CssProperty::BoxShadowOffset
        },
        218 => {
            proof {
                assert(CssProperty::BoxShadowPosition.lookup_position() == 218);
            }
            CssProperty::BoxShadowPosition
        },
        219 => {
            proof {
                assert(CssProperty::BoxShadowSpread.lookup_position() == 219);
            }
            CssProperty::BoxShadowSpread
        },
        220 => {
            proof {
                assert(CssProperty::BoxSizing.lookup_position() == 220);
            }
            CssProperty::BoxSizing
        },
        221 => {
            proof {
                assert(CssProperty::BoxSnap.lookup_position() == 221);
            }
            CssProperty::BoxSnap
        },
        222 => {
            proof {
                assert(CssProperty::BreakAfter.lookup_position() == 222);
            }
            CssProperty::BreakAfter
        },
        223 => {
            proof {
                assert(CssProperty::BreakBefore.lookup_position() == 223);
            }
            CssProperty::BreakBefore
        },
        224 => {
            proof {
                assert(CssProperty::BreakInside.lookup_position() == 224);
            }
            CssProperty::BreakInside
        },
        225 => {
            proof {
                assert(CssProperty::CaptionSide.lookup_position() == 225);
            }
            CssProperty::CaptionSide
        },
        226 => {
            proof {
                assert(CssProperty::Caret.lookup_position() == 226);
            }
            CssProperty::Caret
        },
        227 => {
            proof {
                assert(CssProperty::CaretAnimation.lookup_position() == 227);
            }
            CssProperty::CaretAnimation
        },
        228 => {
            proof {
                assert(CssProperty::CaretColor.lookup_position() == 228);
            }
            CssProperty::CaretColor
        },
        229 => {
            proof {
                assert(CssProperty::CaretShape.lookup_position() == 229);
            }
            CssProperty::CaretShape
        },
        230 => {
            proof {
                assert(CssProperty::Clear.lookup_position() == 230);
            }
            CssProperty::Clear
        },
        231 => {
            proof {
                assert(CssProperty::Clip.lookup_position() == 231);
            }
            CssProperty::Clip
        },
        232 => {
            proof {
                assert(CssProperty::ClipPath.lookup_position() == 232);
            }
            CssProperty::ClipPath
        },
        233 => {
            proof {
                assert(CssProperty::ClipRule.lookup_position() == 233);
            }
            CssProperty::ClipRule
        },
        234 => {
            proof {
                assert(CssProperty::Color.lookup_position() == 234);
            }
            CssProperty::Color
        },
        235 => {
            proof {
                assert(CssProperty::ColorAdjust.lookup_position() == 235);
            }
            CssProperty::ColorAdjust
        },
        236 => {
            proof {
                assert(CssProperty::ColorInterpolation.lookup_position() == 236);
            }
            CssProperty::ColorInterpolation
        },
        237 => {
            proof {
                assert(CssProperty::ColorInterpolationFilters.lookup_position() == 237);
            }
            CssProperty::ColorInterpolationFilters
        },
        238 => {
            proof {
                assert(CssProperty::ColorScheme.lookup_position() == 238);
            }
            CssProperty::ColorScheme
        },
        239 => {
            proof {
                assert(CssProperty::ColumnCount.lookup_position() == 239);
            }
            CssProperty::ColumnCount
        },
        240 => {
            proof {
                assert(CssProperty::ColumnFill.lookup_position() == 240);
            }
            CssProperty::ColumnFill
        },
        241 => {
            proof {
                assert(CssProperty::ColumnGap.lookup_position() == 241);
            }
            CssProperty::ColumnGap
        },
        242 => {
            proof {
                assert(CssProperty::ColumnHeight.lookup_position() == 242);
            }
            CssProperty::ColumnHeight
        },
        243 => {
            proof {
                assert(CssProperty::ColumnRule.lookup_position() == 243);
            }
            CssProperty::ColumnRule
        },
        244 => {
            proof {
                assert(CssProperty::ColumnRuleBreak.lookup_position() == 244);
            }
            CssProperty::ColumnRuleBreak
        },
        245 => {
            proof {
                assert(CssProperty::ColumnRuleColor.lookup_position() == 245);
            }
            CssProperty::ColumnRuleColor
        },
        246 => {
            proof {
                assert(CssProperty::ColumnRuleInset.lookup_position() == 246);
            }
            CssProperty::ColumnRuleInset
        },
        247 => {
            proof {
                assert(CssProperty::ColumnRuleInsetCap.lookup_position() == 247);
            }
            CssProperty::ColumnRuleInsetCap
        },
        248 => {
            proof {
                assert(CssProperty::ColumnRuleInsetCapEnd.lookup_position() == 248);
            }
            CssProperty::ColumnRuleInsetCapEnd
        },
        249 => {
            proof {
                assert(CssProperty::ColumnRuleInsetCapStart.lookup_position() == 249);
            }
            CssProperty::ColumnRuleInsetCapStart
        },
        250 => {
            proof {
                assert(CssProperty::ColumnRuleInsetEnd.lookup_position() == 250);
            }
            CssProperty::ColumnRuleInsetEnd
        },
        251 => {
            proof {
                assert(CssProperty::ColumnRuleInsetJunction.lookup_position() == 251);
            }
            CssProperty::ColumnRuleInsetJunction
        },
        252 => {
            proof {
                assert(CssProperty::ColumnRuleInsetJunctionEnd.lookup_position() == 252);
            }
            CssProperty::ColumnRuleInsetJunctionEnd
        },
        253 => {
            proof {
                assert(CssProperty::ColumnRuleInsetJunctionStart.lookup_position() == 253);
            }
            CssProperty::ColumnRuleInsetJunctionStart
        },
        254 => {
            proof {
                assert(CssProperty::ColumnRuleInsetStart.lookup_position() == 254);
            }
            CssProperty::ColumnRuleInsetStart
        },
        255 => {
            proof {
                assert(CssProperty::ColumnRuleStyle.lookup_position() == 255);
            }
            CssProperty::ColumnRuleStyle
        },
        256 => {
            proof {
                assert(CssProperty::ColumnRuleVisibilityItems.lookup_position() == 256);
            }
            CssProperty::ColumnRuleVisibilityItems
        },
        257 => {
            proof {
                assert(CssProperty::ColumnRuleWidth.lookup_position() == 257);
            }
            CssProperty::ColumnRuleWidth
        },
        258 => {
            proof {
                assert(CssProperty::ColumnSpan.lookup_position() == 258);
            }
            CssProperty::ColumnSpan
        },
        259 => {
            proof {
                assert(CssProperty::ColumnWidth.lookup_position() == 259);
            }
            CssProperty::ColumnWidth
        },
        260 => {
            proof {
                assert(CssProperty::ColumnWrap.lookup_position() == 260);
            }
            CssProperty::ColumnWrap
        },
        261 => {
            proof {
                assert(CssProperty::Columns.lookup_position() == 261);
            }
            CssProperty::Columns
        },
        262 => {
            proof {
                assert(CssProperty::Contain.lookup_position() == 262);
            }
            CssProperty::Contain
        },
        263 => {
            proof {
                assert(CssProperty::ContainIntrinsicBlockSize.lookup_position() == 263);
            }
            CssProperty::ContainIntrinsicBlockSize
        },
        264 => {
            proof {
                assert(CssProperty::ContainIntrinsicHeight.lookup_position() == 264);
            }
            CssProperty::ContainIntrinsicHeight
        },
        265 => {
            proof {
                assert(CssProperty::ContainIntrinsicInlineSize.lookup_position() == 265);
            }
            CssProperty::ContainIntrinsicInlineSize
        },
        266 => {
            proof {
                assert(CssProperty::ContainIntrinsicSize.lookup_position() == 266);
            }
            CssProperty::ContainIntrinsicSize
        },
        267 => {
            proof {
                assert(CssProperty::ContainIntrinsicWidth.lookup_position() == 267);
            }
            CssProperty::ContainIntrinsicWidth
        },
        268 => {
            proof {
                assert(CssProperty::Container.lookup_position() == 268);
            }
            CssProperty::Container
        },
        269 => {
            proof {
                assert(CssProperty::ContainerName.lookup_position() == 269);
            }
            CssProperty::ContainerName
        },
        270 => {
            proof {
                assert(CssProperty::ContainerType.lookup_position() == 270);
            }
            CssProperty::ContainerType
        },
        271 => {
            proof {
                assert(CssProperty::Content.lookup_position() == 271);
            }
            CssProperty::Content
        },
        272 => {
            proof {
                assert(CssProperty::ContentVisibility.lookup_position() == 272);
            }
            CssProperty::ContentVisibility
        },
        273 => {
            proof {
                assert(CssProperty::Continue.lookup_position() == 273);
            }
            CssProperty::Continue
        },
        274 => {
            proof {
                assert(CssProperty::CopyInto.lookup_position() == 274);
            }
            CssProperty::CopyInto
        },
        275 => {
            proof {
                assert(CssProperty::Corner.lookup_position() == 275);
            }
            CssProperty::Corner
        },
        276 => {
            proof {
                assert(CssProperty::CornerBlockEnd.lookup_position() == 276);
            }
            CssProperty::CornerBlockEnd
        },
        277 => {
            proof {
                assert(CssProperty::CornerBlockEndShape.lookup_position() == 277);
            }
            CssProperty::CornerBlockEndShape
        },
        278 => {
            proof {
                assert(CssProperty::CornerBlockStart.lookup_position() == 278);
            }
            CssProperty::CornerBlockStart
        },
        279 => {
            proof {
                assert(CssProperty::CornerBlockStartShape.lookup_position() == 279);
            }
            CssProperty::CornerBlockStartShape
        },
        280 => {
            proof {
                assert(CssProperty::CornerBottom.lookup_position() == 280);
            }
            CssProperty::CornerBottom
        },
        281 => {
            proof {
                assert(CssProperty::CornerBottomLeft.lookup_position() == 281);
            }
            CssProperty::CornerBottomLeft
        },
        282 => {
            proof {
                assert(CssProperty::CornerBottomLeftShape.lookup_position() == 282);
            }
            CssProperty::CornerBottomLeftShape
        },
        283 => {
            proof {
                assert(CssProperty::CornerBottomRight.lookup_position() == 283);
            }
            CssProperty::CornerBottomRight
        },
        284 => {
            proof {
                assert(CssProperty::CornerBottomRightShape.lookup_position() == 284);
            }
            CssProperty::CornerBottomRightShape
        },
        285 => {
            proof {
                assert(CssProperty::CornerBottomShape.lookup_position() == 285);
            }
            CssProperty::CornerBottomShape
        },
        286 => {
            proof {
                assert(CssProperty::CornerEndEnd.lookup_position() == 286);
            }
            CssProperty::CornerEndEnd
        },
        287 => {
            proof {
                assert(CssProperty::CornerEndEndShape.lookup_position() == 287);
            }
            CssProperty::CornerEndEndShape
        },
        288 => {
            proof {
                assert(CssProperty::CornerEndStart.lookup_position() == 288);
            }
            CssProperty::CornerEndStart
        },
        289 => {
            proof {
                assert(CssProperty::CornerEndStartShape.lookup_position() == 289);
            }
            CssProperty::CornerEndStartShape
        },
        290 => {
            proof {
                assert(CssProperty::CornerInlineEnd.lookup_position() == 290);
            }
            CssProperty::CornerInlineEnd
        },
        291 => {
            proof {
                assert(CssProperty::CornerInlineEndShape.lookup_position() == 291);
            }
            CssProperty::CornerInlineEndShape
        },
        292 => {
            proof {
                assert(CssProperty::CornerInlineStart.lookup_position() == 292);
            }
            CssProperty::CornerInlineStart
        },
        293 => {
            proof {
                assert(CssProperty::CornerInlineStartShape.lookup_position() == 293);
            }
            CssProperty::CornerInlineStartShape
        },
        294 => {
            proof {
                assert(CssProperty::CornerLeft.lookup_position() == 294);
            }
            CssProperty::CornerLeft
        },
        295 => {
            proof {
                assert(CssProperty::CornerLeftShape.lookup_position() == 295);
            }
            CssProperty::CornerLeftShape
        },
        296 => {
            proof {
                assert(CssProperty::CornerRight.lookup_position() == 296);
            }
            CssProperty::CornerRight
        },
        297 => {
            proof {
                assert(CssProperty::CornerRightShape.lookup_position() == 297);
            }
            CssProperty::CornerRightShape
        },
        298 => {
            proof {
                assert(CssProperty::CornerShape.lookup_position() == 298);
            }
            CssProperty::CornerShape
        },
        299 => {
            proof {
                assert(CssProperty::CornerStartEnd.lookup_position() == 299);
            }
            CssProperty::CornerStartEnd
        },
        _ => lookup_at_from_300(i),
    }
}

/// `lookup_at` from index 300 on.
fn lookup_at_from_300(i: usize) -> (r: CssProperty)
    requires
        300 <= i < LOOKUP_LEN,
    ensures
        r.is_listed(),
        r.lookup_position() == i,
{
    match i {
        300 => {
            proof {
                assert(CssProperty::CornerStartEndShape.lookup_position() == 300);
            }
            CssProperty::CornerStartEndShape
        },
        301 => {
            proof {
                assert(CssProperty::CornerStartStart.lookup_position() == 301);
            }
            CssProperty::CornerStartStart
        },
        302 => {
            proof {
                assert(CssProperty::CornerStartStartShape.lookup_position() == 302);
            }
            CssProperty::CornerStartStartShape
        },
        303 => {
            proof {
                assert(CssProperty::CornerTop.lookup_position() == 303);
            }
            CssProperty::CornerTop
        },
        304 => {
            proof {
                assert(CssProperty::CornerTopLeft.lookup_position() == 304);
            }
            CssProperty::CornerTopLeft
        },
        305 => {
            proof {
                assert(CssProperty::CornerTopLeftShape.lookup_position() == 305);
            }
            CssProperty::CornerTopLeftShape
        },
        306 => {
            proof {
                assert(CssProperty::CornerTopRight.lookup_position() == 306);
            }
            CssProperty::CornerTopRight
        },
        307 => {
            proof {
                assert(CssProperty::CornerTopRightShape.lookup_position() == 307);
            }
            CssProperty::CornerTopRightShape
        },
        308 => {
            proof {
                assert(CssProperty::CornerTopShape.lookup_position() == 308);
            }
            CssProperty::CornerTopShape
        },
        309 => {
            proof {
                assert(CssProperty::CounterIncrement.lookup_position() == 309);
            }
            CssProperty::CounterIncrement
        },
        310 => {
            proof {
                assert(CssProperty::CounterReset.lookup_position() == 310);
            }
            CssProperty::CounterReset
        },
        311 => {
            proof {
                assert(CssProperty::CounterSet.lookup_position() == 311);
            }
            CssProperty::CounterSet
        },
        312 => {
            proof {
                assert(CssProperty::Cue.lookup_position() == 312);
            }
            CssProperty::Cue
        },
        313 => {
            proof {
                assert(CssProperty::CueAfter.lookup_position() == 313);
            }
            CssProperty::CueAfter
        },
        314 => {
            proof {
                assert(CssProperty::CueBefore.lookup_position() == 314);
            }
            CssProperty::CueBefore
        },
        315 => {
            proof {
                assert(CssProperty::Cursor.lookup_position() == 315);
            }
            CssProperty::Cursor
        },
        316 => {
            proof {
                assert(CssProperty::Cx.lookup_position() == 316);
            }
            CssProperty::Cx
        },
        317 => {
            proof {
                assert(CssProperty::Cy.lookup_position() == 317);
            }
            CssProperty::Cy
        },
        318 => {
            proof {
                assert(CssProperty::D.lookup_position() == 318);
            }
            CssProperty::D
        },
        319 => {
            proof {
                assert(CssProperty::Direction.lookup_position() == 319);
            }
            CssProperty::Direction
        },
        320 => {
            proof {
                assert(CssProperty::Display.lookup_position() == 320);
            }
            CssProperty::Display
        },
        321 => {
            proof {
                assert(CssProperty::DominantBaseline.lookup_position() == 321);
            }
            CssProperty::DominantBaseline
        },
        322 => {
            proof {
                assert(CssProperty::DynamicRangeLimit.lookup_position() == 322);
            }
            CssProperty::DynamicRangeLimit
        },
        323 => {
            proof {
                assert(CssProperty::EmptyCells.lookup_position() == 323);
            }
            CssProperty::EmptyCells
        },
        324 => {
            proof {
                assert(CssProperty::EventTrigger.lookup_position() == 324);
            }
            CssProperty::EventTrigger
        },
        325 => {
            proof {
                assert(CssProperty::EventTriggerName.lookup_position() == 325);
            }
            CssProperty::EventTriggerName
        },
        326 => {
            proof {
                assert(CssProperty::EventTriggerSource.lookup_position() == 326);
            }
            CssProperty::EventTriggerSource
        },
        327 => {
            proof {
                assert(CssProperty::FieldSizing.lookup_position() == 327);
            }
            CssProperty::FieldSizing
        },
        328 => {
            proof {
                assert(CssProperty::Fill.lookup_position() == 328);
            }
            CssProperty::Fill
        },
        329 => {
            proof {
                assert(CssProperty::FillBreak.lookup_position() == 329);
            }
            CssProperty::FillBreak
        },
        330 => {
            proof {
                assert(CssProperty::FillColor.lookup_position() == 330);
            }
            CssProperty::FillColor
        },
        331 => {
            proof {
                assert(CssProperty::FillImage.lookup_position() == 331);
            }
            CssProperty::FillImage
        },
        332 => {
            proof {
                assert(CssProperty::FillOpacity.lookup_position() == 332);
            }
            CssProperty::FillOpacity
        },
        333 => {
            proof {
                assert(CssProperty::FillOrigin.lookup_position() == 333);
            }
            CssProperty::FillOrigin
        },
        334 => {
            proof {
                assert(CssProperty::FillPosition.lookup_position() == 334);
            }
            CssProperty::FillPosition
        },
        335 => {
            proof {
                assert(CssProperty::FillRepeat.lookup_position() == 335);
            }
            CssProperty::FillRepeat
        },
        336 => {
            proof {
                assert(CssProperty::FillRule.lookup_position() == 336);
            }
            CssProperty::FillRule
        },
        337 => {
            proof {
                assert(CssProperty::FillSize.lookup_position() == 337);
            }
            CssProperty::FillSize
        },
        338 => {
            proof {
                assert(CssProperty::Filter.lookup_position() == 338);
            }
            CssProperty::Filter
        },
        339 => {
            proof {
                assert(CssProperty::Flex.lookup_position() == 339);
            }
            CssProperty::Flex
        },
        340 => {
            proof {
                assert(CssProperty::FlexBasis.lookup_position() == 340);
            }
            CssProperty::FlexBasis
        },
        341 => {
            proof {
                assert(CssProperty::FlexDirection.lookup_position() == 341);
            }
            CssProperty::FlexDirection
        },
        342 => {
            proof {
                assert(CssProperty::FlexFlow.lookup_position() == 342);
            }
            CssProperty::FlexFlow
        },
        343 => {
            proof {
                assert(CssProperty::FlexGrow.lookup_position() == 343);
            }
            CssProperty::FlexGrow
        },
        344 => {
            proof {
                assert(CssProperty::FlexShrink.lookup_position() == 344);
            }
            CssProperty::FlexShrink
        },
        345 => {
            proof {
                assert(CssProperty::FlexWrap.lookup_position() == 345);
            }
            CssProperty::FlexWrap
        },
        346 => {
            proof {
                assert(CssProperty::Float.lookup_position() == 346);
            }
            CssProperty::Float
        },
        347 => {
            proof {
                assert(CssProperty::FloatDefer.lookup_position() == 347);
            }
            CssProperty::FloatDefer
        },
        348 => {
            proof {
                assert(CssProperty::FloatOffset.lookup_position() == 348);
            }
            CssProperty::FloatOffset
        },
        349 => {
            proof {
                assert(CssProperty::FloatReference.lookup_position() == 349);
            }
            CssProperty::FloatReference
        },
        350 => {
            proof {
                assert(CssProperty::FloodColor.lookup_position() == 350);
            }
            CssProperty::FloodColor
        },
        351 => {
            proof {
                assert(CssProperty::FloodOpacity.lookup_position() == 351);
            }
            CssProperty::FloodOpacity
        },
        352 => {
            proof {
                assert(CssProperty::FlowFrom.lookup_position() == 352);
            }
            CssProperty::FlowFrom
        },
        353 => {
            proof {
                assert(CssProperty::FlowInto.lookup_position() == 353);
            }
            CssProperty::FlowInto
        },
        354 => {
            proof {
                assert(CssProperty::FlowTolerance.lookup_position() == 354);
            }
            CssProperty::FlowTolerance
        },
        355 => {
            proof {
                assert(CssProperty::Font.lookup_position() == 355);
            }
            CssProperty::Font
        },
        356 => {
            proof {
                assert(CssProperty::FontFamily.lookup_position() == 356);
            }
            CssProperty::FontFamily
        },
        357 => {
            proof {
                assert(CssProperty::FontFeatureSettings.lookup_position() == 357);
            }
            CssProperty::FontFeatureSettings
        },
        358 => {
            proof {
                assert(CssProperty::FontKerning.lookup_position() == 358);
            }
            CssProperty::FontKerning
        },
        359 => {
            proof {
                assert(CssProperty::FontLanguageOverride.lookup_position() == 359);
            }
            CssProperty::FontLanguageOverride
        },
        360 => {
            proof {
                assert(CssProperty::FontOpticalSizing.lookup_position() == 360);
            }
            CssProperty::FontOpticalSizing
        },
        361 => {
            proof {
                assert(CssProperty::FontPalette.lookup_position() == 361);
            }
            CssProperty::FontPalette
        },
        362 => {
            proof {
                assert(CssProperty::FontSize.lookup_position() == 362);
            }
            CssProperty::FontSize
        },
        363 => {
            proof {
                assert(CssProperty::FontSizeAdjust.lookup_position() == 363);
            }
            CssProperty::FontSizeAdjust
        },
        364 => {
            proof {
                assert(CssProperty::FontStretch.lookup_position() == 364);
            }
            CssProperty::FontStretch
        },
        365 => {
            proof {
                assert(CssProperty::FontStyle.lookup_position() == 365);
            }
            CssProperty::FontStyle
        },
        366 => {
            proof {
                assert(CssProperty::FontSynthesis.lookup_position() == 366);
            }
            CssProperty::FontSynthesis
        },
        367 => {
            proof {
                assert(CssProperty::FontSynthesisPosition.lookup_position() == 367);
            }
            CssProperty::FontSynthesisPosition
        },
        368 => {
            proof {
                assert(CssProperty::FontSynthesisSmallCaps.lookup_position() == 368);
            }
            CssProperty::FontSynthesisSmallCaps
        },
        369 => {
            proof {
                assert(CssProperty::FontSynthesisStyle.lookup_position() == 369);
            }
            CssProperty::FontSynthesisStyle
        },
        370 => {
            proof {
                assert(CssProperty::FontSynthesisWeight.lookup_position() == 370);
            }
            CssProperty::FontSynthesisWeight
        },
        371 => {
            proof {
                assert(CssProperty::FontVariant.lookup_position() == 371);
            }
            CssProperty::FontVariant
        },
        372 => {
            proof {
                assert(CssProperty::FontVariantAlternates.lookup_position() == 372);
            }
            CssProperty::FontVariantAlternates
        },
        373 => {
            proof {
                assert(CssProperty::FontVariantCaps.lookup_position() == 373);
            }
            CssProperty::FontVariantCaps
        },
        374 => {
            proof {
                assert(CssProperty::FontVariantEastAsian.lookup_position() == 374);
            }
            CssProperty::FontVariantEastAsian
        },
        375 => {
            proof {
                assert(CssProperty::FontVariantEmoji.lookup_position() == 375);
            }
            CssProperty::FontVariantEmoji
        },
        376 => {
            proof {
                assert(CssProperty::FontVariantLigatures.lookup_position() == 376);
            }
            CssProperty::FontVariantLigatures
        },
        377 => {
            proof {
                assert(CssProperty::FontVariantNumeric.lookup_position() == 377);
            }
            CssProperty::FontVariantNumeric
        },
        378 => {
            proof {
                assert(CssProperty::FontVariantPosition.lookup_position() == 378);
            }
            CssProperty::FontVariantPosition
        },
        379 => {
            proof {
                assert(CssProperty::FontVariationSettings.lookup_position() == 379);
            }
            CssProperty::FontVariationSettings
        },
        380 => {
            proof {
                assert(CssProperty::FontWeight.lookup_position() == 380);
            }
            CssProperty::FontWeight
        },
        381 => {
            proof {
                assert(CssProperty::FontWidth.lookup_position() == 381);
            }
            CssProperty::FontWidth
        },
        382 => {
            proof {
                assert(CssProperty::FootnoteDisplay.lookup_position() == 382);
            }
            CssProperty::FootnoteDisplay
        },
        383 => {
            proof {
                assert(CssProperty::FootnotePolicy.lookup_position() == 383);
            }
            CssProperty::FootnotePolicy
        },
        384 => {
            proof {
                assert(CssProperty::ForcedColorAdjust.lookup_position() == 384);
            }
            CssProperty::ForcedColorAdjust
        },
        385 => {
            proof {
                assert(CssProperty::FrameSizing.lookup_position() == 385);
            }
            CssProperty::FrameSizing
        },
        386 => {
            proof {
                assert(CssProperty::Gap.lookup_position() == 386);
            }
            CssProperty::Gap
        },
        387 => {
            proof {
                assert(CssProperty::GlyphOrientationVertical.lookup_position() == 387);
            }
            CssProperty::GlyphOrientationVertical
        },
        388 => {
            proof {
                assert(CssProperty::Grid.lookup_position() == 388);
            }
            CssProperty::Grid
        },
        389 => {
            proof {
                assert(CssProperty::GridArea.lookup_position() == 389);
            }
            CssProperty::GridArea
        },
        390 => {
            proof {
                assert(CssProperty::GridAutoColumns.lookup_position() == 390);
            }
            CssProperty::GridAutoColumns
        },
        391 => {
            proof {
                assert(CssProperty::GridAutoFlow.lookup_position() == 391);
            }
            CssProperty::GridAutoFlow
        },
        392 => {
            proof {
                assert(CssProperty::GridAutoRows.lookup_position() == 392);
            }
            CssProperty::GridAutoRows
        },
        393 => {
            proof {
                assert(CssProperty::GridColumn.lookup_position() == 393);
            }
            CssProperty::GridColumn
        },
        394 => {
            proof {
                assert(CssProperty::GridColumnEnd.lookup_position() == 394);
            }
            CssProperty::GridColumnEnd
        },
        395 => {
            proof {
                assert(CssProperty::GridColumnGap.lookup_position() == 395);
            }
            CssProperty::GridColumnGap
        },
        396 => {
            proof {
                assert(CssProperty::GridColumnStart.lookup_position() == 396);
            }
            CssProperty::GridColumnStart
        },
        397 => {
            proof {
                assert(CssProperty::GridGap.lookup_position() == 397);
            }
            CssProperty::GridGap
        },
        398 => {
            proof {
                assert(CssProperty::GridRow.lookup_position() == 398);
            }
            CssProperty::GridRow
        },
        399 => {
            proof {
                assert(CssProperty::GridRowEnd.lookup_position() == 399);
            }
            CssProperty::GridRowEnd
        },
        _ => lookup_at_from_400(i),
    }
}

/// `lookup_at` from index 400 on.
fn lookup_at_from_400(i: usize) -> (r: CssProperty)
    requires
        400 <= i < LOOKUP_LEN,
    ensures
        r.is_listed(),
        r.lookup_position() == i,
{
    match i {
        400 => {
            proof {
                assert(CssProperty::GridRowGap.lookup_position() == 400);
            }
            CssProperty::GridRowGap
        },
        401 => {
            proof {
                assert(CssProperty::GridRowStart.lookup_position() == 401);
            }
            CssProperty::GridRowStart
        },
        402 => {
            proof {
                assert(CssProperty::GridTemplate.lookup_position() == 402);
            }
            CssProperty::GridTemplate
        },
        403 => {
            proof {
                assert(CssProperty::GridTemplateAreas.lookup_position() == 403);
            }
            CssProperty::GridTemplateAreas
        },
        404 => {
            proof {
                assert(CssProperty::GridTemplateColumns.lookup_position() == 404);
            }
            CssProperty::GridTemplateColumns
        },
        405 => {
            proof {
                assert(CssProperty::GridTemplateRows.lookup_position() == 405);
            }
            CssProperty::GridTemplateRows
        },
        406 => {
            proof {
                assert(CssProperty::HangingPunctuation.lookup_position() == 406);
            }
            CssProperty::HangingPunctuation
        },
        407 => {
            proof {
                assert(CssProperty::Height.lookup_position() == 407);
            }
            CssProperty::Height
        },
        408 => {
            proof {
                assert(CssProperty::HyphenateCharacter.lookup_position() == 408);
            }
            CssProperty::HyphenateCharacter
        },
        409 => {
            proof {
                assert(CssProperty::HyphenateLimitChars.lookup_position() == 409);
            }
            CssProperty::HyphenateLimitChars
        },
        410 => {
            proof {
                assert(CssProperty::HyphenateLimitLast.lookup_position() == 410);
            }
            CssProperty::HyphenateLimitLast
        },
        411 => {
            proof {
                assert(CssProperty::HyphenateLimitLines.lookup_position() == 411);
            }
            CssProperty::HyphenateLimitLines
        },
        412 => {
            proof {
                assert(CssProperty::HyphenateLimitZone.lookup_position() == 412);
            }
            CssProperty::HyphenateLimitZone
        },
        413 => {
            proof {
                assert(CssProperty::Hyphens.lookup_position() == 413);
            }
            CssProperty::Hyphens
        },
        414 => {
            proof {
                assert(CssProperty::ImageAnimation.lookup_position() == 414);
            }
            CssProperty::ImageAnimation
        },
        415 => {
            proof {
                assert(CssProperty::ImageOrientation.lookup_position() == 415);
            }
            CssProperty::ImageOrientation
        },
        416 => {
            proof {
                assert(CssProperty::ImageRendering.lookup_position() == 416);
            }
            CssProperty::ImageRendering
        },
        417 => {
            proof {
                assert(CssProperty::ImageResolution.lookup_position() == 417);
            }
            CssProperty::ImageResolution
        },
        418 => {
            proof {
                assert(CssProperty::InitialLetter.lookup_position() == 418);
            }
            CssProperty::InitialLetter
        },
        419 => {
            proof {
                assert(CssProperty::InitialLetterAlign.lookup_position() == 419);
            }
            CssProperty::InitialLetterAlign
        },
        420 => {
            proof {
                assert(CssProperty::InitialLetterWrap.lookup_position() == 420);
            }
            CssProperty::InitialLetterWrap
        },
        421 => {
            proof {
                assert(CssProperty::InlineSize.lookup_position() == 421);
            }
            CssProperty::InlineSize
        },
        422 => {
            proof {
                assert(CssProperty::InlineSizing.lookup_position() == 422);
            }
            CssProperty::InlineSizing
        },
        423 => {
            proof {
                assert(CssProperty::InputSecurity.lookup_position() == 423);
            }
            CssProperty::InputSecurity
        },
        424 => {
            proof {
                assert(CssProperty::Inset.lookup_position() == 424);
            }
            CssProperty::Inset
        },
        425 => {
            proof {
                assert(CssProperty::InsetBlock.lookup_position() == 425);
            }
            CssProperty::InsetBlock
        },
        426 => {
            proof {
                assert(CssProperty::InsetBlockEnd.lookup_position() == 426);
            }
            CssProperty::InsetBlockEnd
        },
        427 => {
            proof {
                assert(CssProperty::InsetBlockStart.lookup_position() == 427);
            }
            CssProperty::InsetBlockStart
        },
        428 => {
            proof {
                assert(CssProperty::InsetInline.lookup_position() == 428);
            }
            CssProperty::InsetInline
        },
        429 => {
            proof {
                assert(CssProperty::InsetInlineEnd.lookup_position() == 429);
            }
            CssProperty::InsetInlineEnd
        },
        430 => {
            proof {
                assert(CssProperty::InsetInlineStart.lookup_position() == 430);
            }
            CssProperty::InsetInlineStart
        },
        431 => {
            proof {
                assert(CssProperty::Interactivity.lookup_position() == 431);
            }
            CssProperty::Interactivity
        },
        432 => {
            proof {
                assert(CssProperty::InterestDelay.lookup_position() == 432);
            }
            CssProperty::InterestDelay
        },
        433 => {
            proof {
                assert(CssProperty::InterestDelayEnd.lookup_position() == 433);
            }
            CssProperty::InterestDelayEnd
        },
        434 => {
            proof {
                assert(CssProperty::InterestDelayStart.lookup_position() == 434);
            }
            CssProperty::InterestDelayStart
        },
        435 => {
            proof {
                assert(CssProperty::InterpolateSize.lookup_position() == 435);
            }
            CssProperty::InterpolateSize
        },
        436 => {
            proof {
                assert(CssProperty::Isolation.lookup_position() == 436);
            }
            CssProperty::Isolation
        },
        437 => {
            proof {
                assert(CssProperty::JustifyContent.lookup_position() == 437);
            }
            CssProperty::JustifyContent
        },
        438 => {
            proof {
                assert(CssProperty::JustifyItems.lookup_position() == 438);
            }
            CssProperty::JustifyItems
        },
        439 => {
            proof {
                assert(CssProperty::JustifySelf.lookup_position() == 439);
            }
            CssProperty::JustifySelf
        },
        440 => {
            proof {
                assert(CssProperty::Left.lookup_position() == 440);
            }
            CssProperty::Left
        },
        441 => {
            proof {
                assert(CssProperty::LetterSpacing.lookup_position() == 441);
            }
            CssProperty::LetterSpacing
        },
        442 => {
            proof {
                assert(CssProperty::LightingColor.lookup_position() == 442);
            }
            CssProperty::LightingColor
        },
        443 => {
            proof {
                assert(CssProperty::LineBreak.lookup_position() == 443);
            }
            CssProperty::LineBreak
        },
        444 => {
            proof {
                assert(CssProperty::LineClamp.lookup_position() == 444);
            }
            CssProperty::LineClamp
        },
        445 => {
            proof {
                assert(CssProperty::LineFitEdge.lookup_position() == 445);
            }
            CssProperty::LineFitEdge
        },
        446 => {
            proof {
                assert(CssProperty::LineGrid.lookup_position() == 446);
            }
            CssProperty::LineGrid
        },
        447 => {
            proof {
                assert(CssProperty::LineHeight.lookup_position() == 447);
            }
            CssProperty::LineHeight
        },
        448 => {
            proof {
                assert(CssProperty::LineHeightStep.lookup_position() == 448);
            }
            CssProperty::LineHeightStep
        },
        449 => {
            proof {
                assert(CssProperty::LinePadding.lookup_position() == 449);
            }
            CssProperty::LinePadding
        },
        450 => {
            proof {
                assert(CssProperty::LineSnap.lookup_position() == 450);
            }
            CssProperty::LineSnap
        },
        451 => {
            proof {
                assert(CssProperty::LinkParameters.lookup_position() == 451);
            }
            CssProperty::LinkParameters
        },
        452 => {
            proof {
                assert(CssProperty::ListStyle.lookup_position() == 452);
            }
            CssProperty::ListStyle
        },
        453 => {
            proof {
                assert(CssProperty::ListStyleImage.lookup_position() == 453);
            }
            CssProperty::ListStyleImage
        },
        454 => {
            proof {
                assert(CssProperty::ListStylePosition.lookup_position() == 454);
            }
            CssProperty::ListStylePosition
        },
        455 => {
            proof {
                assert(CssProperty::ListStyleType.lookup_position() == 455);
            }
            CssProperty::ListStyleType
        },
        456 => {
            proof {
                assert(CssProperty::Margin.lookup_position() == 456);
            }
            CssProperty::Margin
        },
        457 => {
            proof {
                assert(CssProperty::MarginBlock.lookup_position() == 457);
            }
            CssProperty::MarginBlock
        },
        458 => {
            proof {
                assert(CssProperty::MarginBlockEnd.lookup_position() == 458);
            }
            CssProperty::MarginBlockEnd
        },
        459 => {
            proof {
                assert(CssProperty::MarginBlockStart.lookup_position() == 459);
            }
            CssProperty::MarginBlockStart
        },
        460 => {
            proof {
                assert(CssProperty::MarginBottom.lookup_position() == 460);
            }
            CssProperty::MarginBottom
        },
        461 => {
            proof {
                assert(CssProperty::MarginBreak.lookup_position() == 461);
            }
            CssProperty::MarginBreak
        },
        462 => {
            proof {
                assert(CssProperty::MarginInline.lookup_position() == 462);
            }
            CssProperty::MarginInline
        },
        463 => {
            proof {
                assert(CssProperty::MarginInlineEnd.lookup_position() == 463);
            }
            CssProperty::MarginInlineEnd
        },
        464 => {
            proof {
                assert(CssProperty::MarginInlineStart.lookup_position() == 464);
            }
            CssProperty::MarginInlineStart
        },
        465 => {
            proof {
                assert(CssProperty::MarginLeft.lookup_position() == 465);
            }
            CssProperty::MarginLeft
        },
        466 => {
            proof {
                assert(CssProperty::MarginRight.lookup_position() == 466);
            }
            CssProperty::MarginRight
        },
        467 => {
            proof {
                assert(CssProperty::MarginTop.lookup_position() == 467);
            }
            CssProperty::MarginTop
        },
        468 => {
            proof {
                assert(CssProperty::MarginTrim.lookup_position() == 468);
            }
            CssProperty::MarginTrim
        },
        469 => {
            proof {
                assert(CssProperty::Marker.lookup_position() == 469);
            }
            CssProperty::Marker
        },
        470 => {
            proof {
                assert(CssProperty::MarkerEnd.lookup_position() == 470);
            }
            CssProperty::MarkerEnd
        },
        471 => {
            proof {
                assert(CssProperty::MarkerMid.lookup_position() == 471);
            }
            CssProperty::MarkerMid
        },
        472 => {
            proof {
                assert(CssProperty::MarkerSide.lookup_position() == 472);
            }
            CssProperty::MarkerSide
        },
        473 => {
            proof {
                assert(CssProperty::MarkerStart.lookup_position() == 473);
            }
            CssProperty::MarkerStart
        },
        474 => {
            proof {
                assert(CssProperty::Mask.lookup_position() == 474);
            }
            CssProperty::Mask
        },
        475 => {
            proof {
                assert(CssProperty::MaskBorder.lookup_position() == 475);
            }
            CssProperty::MaskBorder
        },
        476 => {
            proof {
                assert(CssProperty::MaskBorderMode.lookup_position() == 476);
            }
            CssProperty::MaskBorderMode
        },
        477 => {
            proof {
                assert(CssProperty::MaskBorderOutset.lookup_position() == 477);
            }
            CssProperty::MaskBorderOutset
        },
        478 => {
            proof {
                assert(CssProperty::MaskBorderRepeat.lookup_position() == 478);
            }
            CssProperty::MaskBorderRepeat
        },
        479 => {
            proof {
                assert(CssProperty::MaskBorderSlice.lookup_position() == 479);
            }
            CssProperty::MaskBorderSlice
        },
        480 => {
            proof {
                assert(CssProperty::MaskBorderSource.lookup_position() == 480);
            }
            CssProperty::MaskBorderSource
        },
        481 => {
            proof {
                assert(CssProperty::MaskBorderWidth.lookup_position() == 481);
            }
            CssProperty::MaskBorderWidth
        },
        482 => {
            proof {
                assert(CssProperty::MaskClip.lookup_position() == 482);
            }
            CssProperty::MaskClip
        },
        483 => {
            proof {
                assert(CssProperty::MaskComposite.lookup_position() == 483);
            }
            CssProperty::MaskComposite
        },
        484 => {
            proof {
                assert(CssProperty::MaskImage.lookup_position() == 484);
            }
            CssProperty::MaskImage
        },
        485 => {
            proof {
                assert(CssProperty::MaskMode.lookup_position() == 485);
            }
            CssProperty::MaskMode
        },
        486 => {
            proof {
                assert(CssProperty::MaskOrigin.lookup_position() == 486);
            }
            CssProperty::MaskOrigin
        },
        487 => {
            proof {
                assert(CssProperty::MaskPosition.lookup_position() == 487);
            }
            CssProperty::MaskPosition
        },
        488 => {
            proof {
                assert(CssProperty::MaskRepeat.lookup_position() == 488);
            }
            CssProperty::MaskRepeat
        },
        489 => {
            proof {
                assert(CssProperty::MaskSize.lookup_position() == 489);
            }
            CssProperty::MaskSize
        },
        490 => {
            proof {
                assert(CssProperty::MaskType.lookup_position() == 490);
            }
            CssProperty::MaskType
        },
        491 => {
            proof {
                assert(CssProperty::MathDepth.lookup_position() == 491);
            }
            CssProperty::MathDepth
        },
        492 => {
            proof {
                assert(CssProperty::MathShift.lookup_position() == 492);
            }
            CssProperty::MathShift
        },
        493 => {
            proof {
                assert(CssProperty::MathStyle.lookup_position() == 493);
            }
            CssProperty::MathStyle
        },
        494 => {
            proof {
                assert(CssProperty::MaxBlockSize.lookup_position() == 494);
            }
            CssProperty::MaxBlockSize
        },
        495 => {
            proof {
                assert(CssProperty::MaxHeight.lookup_position() == 495);
            }
            CssProperty::MaxHeight
        },
        496 => {
            proof {
                assert(CssProperty::MaxInlineSize.lookup_position() == 496);
            }
            CssProperty::MaxInlineSize
        },
        497 => {
            proof {
                assert(CssProperty::MaxLines.lookup_position() == 497);
            }
            CssProperty::MaxLines
        },
        498 => {
            proof {
                assert(CssProperty::MaxWidth.lookup_position() == 498);
            }
            CssProperty::MaxWidth
        },
        499 => {
            proof {
                assert(CssProperty::MinBlockSize.lookup_position() == 499);
            }
            CssProperty::MinBlockSize
        },
        _ => lookup_at_from_500(i),
    }
}

/// `lookup_at` from index 500 on.
fn lookup_at_from_500(i: usize) -> (r: CssProperty)
    requires
        500 <= i < LOOKUP_LEN,
    ensures
        r.is_listed(),
        r.lookup_position() == i,
{
    match i {
        500 => {
            proof {
                assert(CssProperty::MinHeight.lookup_position() == 500);
            }
            CssProperty::MinHeight
        },
        501 => {
            proof {
                assert(CssProperty::MinInlineSize.lookup_position() == 501);
            }
            CssProperty::MinInlineSize
        },
        502 => {
            proof {
                assert(CssProperty::MinIntrinsicSizing.lookup_position() == 502);
            }
            CssProperty::MinIntrinsicSizing
        },
        503 => {
            proof {
                assert(CssProperty::MinWidth.lookup_position() == 503);
            }
            CssProperty::MinWidth
        },
        504 => {
            proof {
                assert(CssProperty::MixBlendMode.lookup_position() == 504);
            }
            CssProperty::MixBlendMode
        },
        505 => {
            proof {
                assert(CssProperty::NavDown.lookup_position() == 505);
            }
            CssProperty::NavDown
        },
        506 => {
            proof {
                assert(CssProperty::NavLeft.lookup_position() == 506);
            }
            CssProperty::NavLeft
        },
        507 => {
            proof {
                assert(CssProperty::NavRight.lookup_position() == 507);
            }
            CssProperty::NavRight
        },
        508 => {
            proof {
                assert(CssProperty::NavUp.lookup_position() == 508);
            }
            CssProperty::NavUp
        },
        509 => {
            proof {
                assert(CssProperty::ObjectFit.lookup_position() == 509);
            }
            CssProperty::ObjectFit
        },
        510 => {
            proof {
                assert(CssProperty::ObjectPosition.lookup_position() == 510);
            }
            CssProperty::ObjectPosition
        },
        511 => {
            proof {
                assert(CssProperty::ObjectViewBox.lookup_position() == 511);
            }
            CssProperty::ObjectViewBox
        },
        512 => {
            proof {
                assert(CssProperty::Offset.lookup_position() == 512);
            }
            CssProperty::Offset
        },
        513 => {
            proof {
                assert(CssProperty::OffsetAnchor.lookup_position() == 513);
            }
            CssProperty::OffsetAnchor
        },
        514 => {
            proof {
                assert(CssProperty::OffsetDistance.lookup_position() == 514);
            }
            CssProperty::OffsetDistance
        },
        515 => {
            proof {
                assert(CssProperty::OffsetPath.lookup_position() == 515);
            }
            CssProperty::OffsetPath
        },
        516 => {
            proof {
                assert(CssProperty::OffsetPosition.lookup_position() == 516);
            }
            CssProperty::OffsetPosition
        },
        517 => {
            proof {
                assert(CssProperty::OffsetRotate.lookup_position() == 517);
            }
            CssProperty::OffsetRotate
        },
        518 => {
            proof {
                assert(CssProperty::Opacity.lookup_position() == 518);
            }
            CssProperty::Opacity
        },
        519 => {
            proof {
                assert(CssProperty::Order.lookup_position() == 519);
            }
            CssProperty::Order
        },
        520 => {
            proof {
                assert(CssProperty::Orphans.lookup_position() == 520);
            }
            CssProperty::Orphans
        },
        521 => {
            proof {
                assert(CssProperty::Outline.lookup_position() == 521);
            }
            CssProperty::Outline
        },
        522 => {
            proof {
                assert(CssProperty::OutlineColor.lookup_position() == 522);
            }
            CssProperty::OutlineColor
        },
        523 => {
            proof {
                assert(CssProperty::OutlineOffset.lookup_position() == 523);
            }
            CssProperty::OutlineOffset
        },
        524 => {
            proof {
                assert(CssProperty::OutlineStyle.lookup_position() == 524);
            }
            CssProperty::OutlineStyle
        },
        525 => {
            proof {
                assert(CssProperty::OutlineWidth.lookup_position() == 525);
            }
            CssProperty::OutlineWidth
        },
        526 => {
            proof {
                assert(CssProperty::Overflow.lookup_position() == 526);
            }
            CssProperty::Overflow
        },
        527 => {
            proof {
                assert(CssProperty::OverflowAnchor.lookup_position() == 527);
            }
            CssProperty::OverflowAnchor
        },
        528 => {
            proof {
                assert(CssProperty::OverflowBlock.lookup_position() == 528);
            }
            CssProperty::OverflowBlock
        },
        529 => {
            proof {
                assert(CssProperty::OverflowClipMargin.lookup_position() == 529);
            }
            CssProperty::OverflowClipMargin
        },
        530 => {
            proof {
                assert(CssProperty::OverflowClipMarginBlock.lookup_position() == 530);
            }
            CssProperty::OverflowClipMarginBlock
        },
        531 => {
            proof {
                assert(CssProperty::OverflowClipMarginBlockEnd.lookup_position() == 531);
            }
            CssProperty::OverflowClipMarginBlockEnd
        },
        532 => {
            proof {
                assert(CssProperty::OverflowClipMarginBlockStart.lookup_position() == 532);
            }
            CssProperty::OverflowClipMarginBlockStart
        },
        533 => {
            proof {
                assert(CssProperty::OverflowClipMarginBottom.lookup_position() == 533);
            }
            CssProperty::OverflowClipMarginBottom
        },
        534 => {
            proof {
                assert(CssProperty::OverflowClipMarginInline.lookup_position() == 534);
            }
            CssProperty::OverflowClipMarginInline
        },
        535 => {
            proof {
                assert(CssProperty::OverflowClipMarginInlineEnd.lookup_position() == 535);
            }
            CssProperty::OverflowClipMarginInlineEnd
        },
        536 => {
            proof {
                assert(CssProperty::OverflowClipMarginInlineStart.lookup_position() == 536);
            }
            CssProperty::OverflowClipMarginInlineStart
        },
        537 => {
            proof {
                assert(CssProperty::OverflowClipMarginLeft.lookup_position() == 537);
            }
            CssProperty::OverflowClipMarginLeft
        },
        538 => {
            proof {
                assert(CssProperty::OverflowClipMarginRight.lookup_position() == 538);
            }
            CssProperty::OverflowClipMarginRight
        },
        539 => {
            proof {
                assert(CssProperty::OverflowClipMarginTop.lookup_position() == 539);
            }
            CssProperty::OverflowClipMarginTop
        },
        540 => {
            proof {
                assert(CssProperty::OverflowInline.lookup_position() == 540);
            }
            CssProperty::OverflowInline
        },
        541 => {
            proof {
                assert(CssProperty::OverflowWrap.lookup_position() == 541);
            }
            CssProperty::OverflowWrap
        },
        542 => {
            proof {
                assert(CssProperty::OverflowX.lookup_position() == 542);
            }
            CssProperty::OverflowX
        },
        543 => {
            proof {
                assert(CssProperty::OverflowY.lookup_position() == 543);
            }
            CssProperty::OverflowY
        },
        544 => {
            proof {
                assert(CssProperty::Overlay.lookup_position() == 544);
            }
            CssProperty::Overlay
        },
        545 => {
            proof {
                assert(CssProperty::OverscrollBehavior.lookup_position() == 545);
            }
            CssProperty::OverscrollBehavior
        },
        546 => {
            proof {
                assert(CssProperty::OverscrollBehaviorBlock.lookup_position() == 546);
            }
            CssProperty::OverscrollBehaviorBlock
        },
        547 => {
            proof {
                assert(CssProperty::OverscrollBehaviorInline.lookup_position() == 547);
            }
            CssProperty::OverscrollBehaviorInline
        },
        548 => {
            proof {
                assert(CssProperty::OverscrollBehaviorX.lookup_position() == 548);
            }
            CssProperty::OverscrollBehaviorX
        },
        549 => {
            proof {
                assert(CssProperty::OverscrollBehaviorY.lookup_position() == 549);
            }
            CssProperty::OverscrollBehaviorY
        },
        550 => {
            proof {
                assert(CssProperty::Padding.lookup_position() == 550);
            }
            CssProperty::Padding
        },
        551 => {
            proof {
                assert(CssProperty::PaddingBlock.lookup_position() == 551);
            }
            CssProperty::PaddingBlock
        },
        552 => {
            proof {
                assert(CssProperty::PaddingBlockEnd.lookup_position() == 552);
            }
            CssProperty::PaddingBlockEnd
        },
        553 => {
            proof {
                assert(CssProperty::PaddingBlockStart.lookup_position() == 553);
            }
            CssProperty::PaddingBlockStart
        },
        554 => {
            proof {
                assert(CssProperty::PaddingBottom.lookup_position() == 554);
            }
            CssProperty::PaddingBottom
        },
        555 => {
            proof {
                assert(CssProperty::PaddingInline.lookup_position() == 555);
            }
            CssProperty::PaddingInline
        },
        556 => {
            proof {
                assert(CssProperty::PaddingInlineEnd.lookup_position() == 556);
            }
            CssProperty::PaddingInlineEnd
        },
        557 => {
            proof {
                assert(CssProperty::PaddingInlineStart.lookup_position() == 557);
            }
            CssProperty::PaddingInlineStart
        },
        558 => {
            proof {
                assert(CssProperty::PaddingLeft.lookup_position() == 558);
            }
            CssProperty::PaddingLeft
        },
        559 => {
            proof {
                assert(CssProperty::PaddingRight.lookup_position() == 559);
            }
            CssProperty::PaddingRight
        },
        560 => {
            proof {
                assert(CssProperty::PaddingTop.lookup_position() == 560);
            }
            CssProperty::PaddingTop
        },
        561 => {
            proof {
                assert(CssProperty::Page.lookup_position() == 561);
            }
            CssProperty::Page
        },
        562 => {
            proof {
                assert(CssProperty::PageBreakAfter.lookup_position() == 562);
            }
            CssProperty::PageBreakAfter
        },
        563 => {
            proof {
                assert(CssProperty::PageBreakBefore.lookup_position() == 563);
            }
            CssProperty::PageBreakBefore
        },
        564 => {
            proof {
                assert(CssProperty::PageBreakInside.lookup_position() == 564);
            }
            CssProperty::PageBreakInside
        },
        565 => {
            proof {
                assert(CssProperty::PaintOrder.lookup_position() == 565);
            }
            CssProperty::PaintOrder
        },
        566 => {
            proof {
                assert(CssProperty::PathLength.lookup_position() == 566);
            }
            CssProperty::PathLength
        },
        567 => {
            proof {
                assert(CssProperty::Pause.lookup_position() == 567);
            }
            CssProperty::Pause
        },
        568 => {
            proof {
                assert(CssProperty::PauseAfter.lookup_position() == 568);
            }
            CssProperty::PauseAfter
        },
        569 => {
            proof {
                assert(CssProperty::PauseBefore.lookup_position() == 569);
            }
            CssProperty::PauseBefore
        },
        570 => {
            proof {
                assert(CssProperty::Perspective.lookup_position() == 570);
            }
            CssProperty::Perspective
        },
        571 => {
            proof {
                assert(CssProperty::PerspectiveOrigin.lookup_position() == 571);
            }
            CssProperty::PerspectiveOrigin
        },
        572 => {
            proof {
                assert(CssProperty::PlaceContent.lookup_position() == 572);
            }
            CssProperty::PlaceContent
        },
        573 => {
            proof {
                assert(CssProperty::PlaceItems.lookup_position() == 573);
            }
            CssProperty::PlaceItems
        },
        574 => {
            proof {
                assert(CssProperty::PlaceSelf.lookup_position() == 574);
            }
            CssProperty::PlaceSelf
        },
        575 => {
            proof {
                assert(CssProperty::PointerEvents.lookup_position() == 575);
            }
            CssProperty::PointerEvents
        },
        576 => {
            proof {
                assert(CssProperty::PointerTimeline.lookup_position() == 576);
            }
            CssProperty::PointerTimeline
        },
        577 => {
            proof {
                assert(CssProperty::PointerTimelineAxis.lookup_position() == 577);
            }
            CssProperty::PointerTimelineAxis
        },
        578 => {
            proof {
                assert(CssProperty::PointerTimelineName.lookup_position() == 578);
            }
            CssProperty::PointerTimelineName
        },
        579 => {
            proof {
                assert(CssProperty::Position.lookup_position() == 579);
            }
            CssProperty::Position
        },
        580 => {
            proof {
                assert(CssProperty::PositionAnchor.lookup_position() == 580);
            }
            CssProperty::PositionAnchor
        },
        581 => {
            proof {
                assert(CssProperty::PositionArea.lookup_position() == 581);
            }
            CssProperty::PositionArea
        },
        582 => {
            proof {
                assert(CssProperty::PositionTry.lookup_position() == 582);
            }
            CssProperty::PositionTry
        },
        583 => {
            proof {
                assert(CssProperty::PositionTryFallbacks.lookup_position() == 583);
            }
            CssProperty::PositionTryFallbacks
        },
        584 => {
            proof {
                assert(CssProperty::PositionTryOrder.lookup_position() == 584);
            }
            CssProperty::PositionTryOrder
        },
        585 => {
            proof {
                assert(CssProperty::PositionVisibility.lookup_position() == 585);
            }
            CssProperty::PositionVisibility
        },
        586 => {
            proof {
                assert(CssProperty::PrintColorAdjust.lookup_position() == 586);
            }
            CssProperty::PrintColorAdjust
        },
        587 => {
            proof {
                assert(CssProperty::Quotes.lookup_position() == 587);
            }
            CssProperty::Quotes
        },
        588 => {
            proof {
                assert(CssProperty::R.lookup_position() == 588);
            }
            CssProperty::R
        },
        589 => {
            proof {
                assert(CssProperty::ReadingFlow.lookup_position() == 589);
            }
            CssProperty::ReadingFlow
        },
        590 => {
            proof {
                assert(CssProperty::ReadingOrder.lookup_position() == 590);
            }
            CssProperty::ReadingOrder
        },
        591 => {
            proof {
                assert(CssProperty::RegionFragment.lookup_position() == 591);
            }
            CssProperty::RegionFragment
        },
        592 => {
            proof {
                assert(CssProperty::Resize.lookup_position() == 592);
            }
            CssProperty::Resize
        },
        593 => {
            proof {
                assert(CssProperty::Rest.lookup_position() == 593);
            }
            CssProperty::Rest
        },
        594 => {
            proof {
                assert(CssProperty::RestAfter.lookup_position() == 594);
            }
            CssProperty::RestAfter
        },
        595 => {
            proof {
                assert(CssProperty::RestBefore.lookup_position() == 595);
            }
            CssProperty::RestBefore
        },
        596 => {
            proof {
                assert(CssProperty::Right.lookup_position() == 596);
            }
            CssProperty::Right
        },
        597 => {
            proof {
                assert(CssProperty::Rotate.lookup_position() == 597);
            }
            CssProperty::Rotate
        },
        598 => {
            proof {
                assert(CssProperty::RowGap.lookup_position() == 598);
            }
            CssProperty::RowGap
        },
        599 => {
            proof {
                assert(CssProperty::RowRule.lookup_position() == 599);
            }
            CssProperty::RowRule
        },
        _ => lookup_at_from_600(i),
    }
}

/// `lookup_at` from index 600 on.
fn lookup_at_from_600(i: usize) -> (r: CssProperty)
    requires
        600 <= i < LOOKUP_LEN,
    ensures
        r.is_listed(),
        r.lookup_position() == i,
{
    match i {
        600 => {
            proof {
                assert(CssProperty::RowRuleBreak.lookup_position() == 600);
            }
            CssProperty::RowRuleBreak
        },
        601 => {
            proof {
                assert(CssProperty::RowRuleColor.lookup_position() == 601);
            }
            CssProperty::RowRuleColor
        },
        602 => {
            proof {
                assert(CssProperty::RowRuleInset.lookup_position() == 602);
            }
            CssProperty::RowRuleInset
        },
        603 => {
            proof {
                assert(CssProperty::RowRuleInsetCap.lookup_position() == 603);
            }
            CssProperty::RowRuleInsetCap
        },
        604 => {
            proof {
                assert(CssProperty::RowRuleInsetCapEnd.lookup_position() == 604);
            }
            CssProperty::RowRuleInsetCapEnd
        },
        605 => {
            proof {
                assert(CssProperty::RowRuleInsetCapStart.lookup_position() == 605);
            }
            CssProperty::RowRuleInsetCapStart
        },
        606 => {
            proof {
                assert(CssProperty::RowRuleInsetEnd.lookup_position() == 606);
            }
            CssProperty::RowRuleInsetEnd
        },
        607 => {
            proof {
                assert(CssProperty::RowRuleInsetJunction.lookup_position() == 607);
            }
            CssProperty::RowRuleInsetJunction
        },
        608 => {
            proof {
                assert(CssProperty::RowRuleInsetJunctionEnd.lookup_position() == 608);
            }
            CssProperty::RowRuleInsetJunctionEnd
        },
        609 => {
            proof {
                assert(CssProperty::RowRuleInsetJunctionStart.lookup_position() == 609);
            }
            CssProperty::RowRuleInsetJunctionStart
        },
        610 => {
            proof {
                assert(CssProperty::RowRuleInsetStart.lookup_position() == 610);
            }
            CssProperty::RowRuleInsetStart
        },
        611 => {
            proof {
                assert(CssProperty::RowRuleStyle.lookup_position() == 611);
            }
            CssProperty::RowRuleStyle
        },
        612 => {
            proof {
                assert(CssProperty::RowRuleVisibilityItems.lookup_position() == 612);
            }
            CssProperty::RowRuleVisibilityItems
        },
        613 => {
            proof {
                assert(CssProperty::RowRuleWidth.lookup_position() == 613);
            }
            CssProperty::RowRuleWidth
        },
        614 => {
            proof {
                assert(CssProperty::RubyAlign.lookup_position() == 614);
            }
            CssProperty::RubyAlign
        },
        615 => {
            proof {
                assert(CssProperty::RubyMerge.lookup_position() == 615);
            }
            CssProperty::RubyMerge
        },
        616 => {
            proof {
                assert(CssProperty::RubyOverhang.lookup_position() == 616);
            }
            CssProperty::RubyOverhang
        },
        617 => {
            proof {
                assert(CssProperty::RubyPosition.lookup_position() == 617);
            }
            CssProperty::RubyPosition
        },
        618 => {
            proof {
                assert(CssProperty::Rule.lookup_position() == 618);
            }
            CssProperty::Rule
        },
        619 => {
            proof {
                assert(CssProperty::RuleBreak.lookup_position() == 619);
            }
            CssProperty::RuleBreak
        },
        620 => {
            proof {
                assert(CssProperty::RuleColor.lookup_position() == 620);
            }
            CssProperty::RuleColor
        },
        621 => {
            proof {
                assert(CssProperty::RuleInset.lookup_position() == 621);
            }
            CssProperty::RuleInset
        },
        622 => {
            proof {
                assert(CssProperty::RuleInsetCap.lookup_position() == 622);
            }
            CssProperty::RuleInsetCap
        },
        623 => {
            proof {
                assert(CssProperty::RuleInsetEnd.lookup_position() == 623);
            }
            CssProperty::RuleInsetEnd
        },
        624 => {
            proof {
                assert(CssProperty::RuleInsetJunction.lookup_position() == 624);
            }
            CssProperty::RuleInsetJunction
        },
        625 => {
            proof {
                assert(CssProperty::RuleInsetStart.lookup_position() == 625);
            }
            CssProperty::RuleInsetStart
        },
        626 => {
            proof {
                assert(CssProperty::RuleOverlap.lookup_position() == 626);
            }
            CssProperty::RuleOverlap
        },
        627 => {
            proof {
                assert(CssProperty::RuleStyle.lookup_position() == 627);
            }
            CssProperty::RuleStyle
        },
        628 => {
            proof {
                assert(CssProperty::RuleVisibilityItems.lookup_position() == 628);
            }
            CssProperty::RuleVisibilityItems
        },
        629 => {
            proof {
                assert(CssProperty::RuleWidth.lookup_position() == 629);
            }
            CssProperty::RuleWidth
        },
        630 => {
            proof {
                assert(CssProperty::Rx.lookup_position() == 630);
            }
            CssProperty::Rx
        },
        631 => {
            proof {
                assert(CssProperty::Ry.lookup_position() == 631);
            }
            CssProperty::Ry
        },
        632 => {
            proof {
                assert(CssProperty::Scale.lookup_position() == 632);
            }
            CssProperty::Scale
        },
        633 => {
            proof {
                assert(CssProperty::ScrollBehavior.lookup_position() == 633);
            }
            CssProperty::ScrollBehavior
        },
        634 => {
            proof {
                assert(CssProperty::ScrollInitialTarget.lookup_position() == 634);
            }
            CssProperty::ScrollInitialTarget
        },
        635 => {
            proof {
                assert(CssProperty::ScrollMargin.lookup_position() == 635);
            }
            CssProperty::ScrollMargin
        },
        636 => {
            proof {
                assert(CssProperty::ScrollMarginBlock.lookup_position() == 636);
            }
            CssProperty::ScrollMarginBlock
        },
        637 => {
            proof {
                assert(CssProperty::ScrollMarginBlockEnd.lookup_position() == 637);
            }
            CssProperty::ScrollMarginBlockEnd
        },
        638 => {
            proof {
                assert(CssProperty::ScrollMarginBlockStart.lookup_position() == 638);
            }
            CssProperty::ScrollMarginBlockStart
        },
        639 => {
            proof {
                assert(CssProperty::ScrollMarginBottom.lookup_position() == 639);
            }
            CssProperty::ScrollMarginBottom
        },
        640 => {
            proof {
                assert(CssProperty::ScrollMarginInline.lookup_position() == 640);
            }
            CssProperty::ScrollMarginInline
        },
        641 => {
            proof {
                assert(CssProperty::ScrollMarginInlineEnd.lookup_position() == 641);
            }
            CssProperty::ScrollMarginInlineEnd
        },
        642 => {
            proof {
                assert(CssProperty::ScrollMarginInlineStart.lookup_position() == 642);
            }
            CssProperty::ScrollMarginInlineStart
        },
        643 => {
            proof {
                assert(CssProperty::ScrollMarginLeft.lookup_position() == 643);
            }
            CssProperty::ScrollMarginLeft
        },
        644 => {
            proof {
                assert(CssProperty::ScrollMarginRight.lookup_position() == 644);
            }
            CssProperty::ScrollMarginRight
        },
        645 => {
            proof {
                assert(CssProperty::ScrollMarginTop.lookup_position() == 645);
            }
            CssProperty::ScrollMarginTop
        },
        646 => {
            proof {
                assert(CssProperty::ScrollMarkerGroup.lookup_position() == 646);
            }
            CssProperty::ScrollMarkerGroup
        },
        647 => {
            proof {
                assert(CssProperty::ScrollPadding.lookup_position() == 647);
            }
            CssProperty::ScrollPadding
        },
        648 => {
            proof {
                assert(CssProperty::ScrollPaddingBlock.lookup_position() == 648);
            }
            CssProperty::ScrollPaddingBlock
        },
        649 => {
            proof {
                assert(CssProperty::ScrollPaddingBlockEnd.lookup_position() == 649);
            }
            CssProperty::ScrollPaddingBlockEnd
        },
        650 => {
            proof {
                assert(CssProperty::ScrollPaddingBlockStart.lookup_position() == 650);
            }
            CssProperty::ScrollPaddingBlockStart
        },
        651 => {
            proof {
                assert(CssProperty::ScrollPaddingBottom.lookup_position() == 651);
            }
            CssProperty::ScrollPaddingBottom
        },
        652 => {
            proof {
                assert(CssProperty::ScrollPaddingInline.lookup_position() == 652);
            }
            CssProperty::ScrollPaddingInline
        },
        653 => {
            proof {
                assert(CssProperty::ScrollPaddingInlineEnd.lookup_position() == 653);
            }
            CssProperty::ScrollPaddingInlineEnd
        },
        654 => {
            proof {
                assert(CssProperty::ScrollPaddingInlineStart.lookup_position() == 654);
            }
            CssProperty::ScrollPaddingInlineStart
        },
        655 => {
            proof {
                assert(CssProperty::ScrollPaddingLeft.lookup_position() == 655);
            }
            CssProperty::ScrollPaddingLeft
        },
        656 => {
            proof {
                assert(CssProperty::ScrollPaddingRight.lookup_position() == 656);
            }
            CssProperty::ScrollPaddingRight
        },
        657 => {
            proof {
                assert(CssProperty::ScrollPaddingTop.lookup_position() == 657);
            }
            CssProperty::ScrollPaddingTop
        },
        658 => {
            proof {
                assert(CssProperty::ScrollSnapAlign.lookup_position() == 658);
            }
            CssProperty::ScrollSnapAlign
        },
        659 => {
            proof {
                assert(CssProperty::ScrollSnapStop.lookup_position() == 659);
            }
            CssProperty::ScrollSnapStop
        },
        660 => {
            proof {
                assert(CssProperty::ScrollSnapType.lookup_position() == 660);
            }
            CssProperty::ScrollSnapType
        },
        661 => {
            proof {
                assert(CssProperty::ScrollTargetGroup.lookup_position() == 661);
            }
            CssProperty::ScrollTargetGroup
        },
        662 => {
            proof {
                assert(CssProperty::ScrollTimeline.lookup_position() == 662);
            }
            CssProperty::ScrollTimeline
        },
        663 => {
            proof {
                assert(CssProperty::ScrollTimelineAxis.lookup_position() == 663);
            }
            CssProperty::ScrollTimelineAxis
        },
        664 => {
            proof {
                assert(CssProperty::ScrollTimelineName.lookup_position() == 664);
            }
            CssProperty::ScrollTimelineName
        },
        665 => {
            proof {
                assert(CssProperty::ScrollbarColor.lookup_position() == 665);
            }
            CssProperty::ScrollbarColor
        },
        666 => {
            proof {
                assert(CssProperty::ScrollbarGutter.lookup_position() == 666);
            }
            CssProperty::ScrollbarGutter
        },
        667 => {
            proof {
                assert(CssProperty::ScrollbarInset.lookup_position() == 667);
            }
            CssProperty::ScrollbarInset
        },
        668 => {
            proof {
                assert(CssProperty::ScrollbarMinThumbSize.lookup_position() == 668);
            }
            CssProperty::ScrollbarMinThumbSize
        },
        669 => {
            proof {
                assert(CssProperty::ScrollbarMode.lookup_position() == 669);
            }
            CssProperty::ScrollbarMode
        },
        670 => {
            proof {
                assert(CssProperty::ScrollbarWidth.lookup_position() == 670);
            }
            CssProperty::ScrollbarWidth
        },
        671 => {
            proof {
                assert(CssProperty::ShapeImageThreshold.lookup_position() == 671);
            }
            CssProperty::ShapeImageThreshold
        },
        672 => {
            proof {
                assert(CssProperty::ShapeInside.lookup_position() == 672);
            }
            CssProperty::ShapeInside
        },
        673 => {
            proof {
                assert(CssProperty::ShapeMargin.lookup_position() == 673);
            }
            CssProperty::ShapeMargin
        },
        674 => {
            proof {
                assert(CssProperty::ShapeOutside.lookup_position() == 674);
            }
            CssProperty::ShapeOutside
        },
        675 => {
            proof {
                assert(CssProperty::ShapePadding.lookup_position() == 675);
            }
            CssProperty::ShapePadding
        },
        676 => {
            proof {
                assert(CssProperty::ShapeRendering.lookup_position() == 676);
            }
            CssProperty::ShapeRendering
        },
        677 => {
            proof {
                assert(CssProperty::SliderOrientation.lookup_position() == 677);
            }
            CssProperty::SliderOrientation
        },
        678 => {
            proof {
                assert(CssProperty::SpatialNavigationAction.lookup_position() == 678);
            }
            CssProperty::SpatialNavigationAction
        },
        679 => {
            proof {
                assert(CssProperty::SpatialNavigationContain.lookup_position() == 679);
            }
            CssProperty::SpatialNavigationContain
        },
        680 => {
            proof {
                assert(CssProperty::SpatialNavigationFunction.lookup_position() == 680);
            }
            CssProperty::SpatialNavigationFunction
        },
        681 => {
            proof {
                assert(CssProperty::Speak.lookup_position() == 681);
            }
            CssProperty::Speak
        },
        682 => {
            proof {
                assert(CssProperty::SpeakAs.lookup_position() == 682);
            }
            CssProperty::SpeakAs
        },
        683 => {
            proof {
                assert(CssProperty::StopColor.lookup_position() == 683);
            }
            CssProperty::StopColor
        },
        684 => {
            proof {
                assert(CssProperty::StopOpacity.lookup_position() == 684);
            }
            CssProperty::StopOpacity
        },
        685 => {
            proof {
                assert(CssProperty::StringSet.lookup_position() == 685);
            }
            CssProperty::StringSet
        },
        686 => {
            proof {
                assert(CssProperty::Stroke.lookup_position() == 686);
            }
            CssProperty::Stroke
        },
        687 => {
            proof {
                assert(CssProperty::StrokeAlign.lookup_position() == 687);
            }
            CssProperty::StrokeAlign
        },
        688 => {
            proof {
                assert(CssProperty::StrokeAlignment.lookup_position() == 688);
            }
            CssProperty::StrokeAlignment
        },
        689 => {
            proof {
                assert(CssProperty::StrokeBreak.lookup_position() == 689);
            }
            CssProperty::StrokeBreak
        },
        690 => {
            proof {
                assert(CssProperty::StrokeColor.lookup_position() == 690);
            }
            CssProperty::StrokeColor
        },
        691 => {
            proof {
                assert(CssProperty::StrokeDashCornerPropdefStrokeDashCorner.lookup_position() == 691);
            }
            CssProperty::StrokeDashCornerPropdefStrokeDashCorner
        },
        692 => {
            proof {
                assert(CssProperty::StrokeDashJustify.lookup_position() == 692);
            }
            CssProperty::StrokeDashJustify
        },
        693 => {
            proof {
                assert(CssProperty::StrokeDashadjust.lookup_position() == 693);
            }
            CssProperty::StrokeDashadjust
        },
        694 => {
            proof {
                assert(CssProperty::StrokeDasharray.lookup_position() == 694);
            }
            CssProperty::StrokeDasharray
        },
        695 => {
            proof {
                assert(CssProperty::StrokeDashcornerStrokedashcornerproperty.lookup_position() == 695);
            }
            CssProperty::StrokeDashcornerStrokedashcornerproperty
        },
        696 => {
            proof {
                assert(CssProperty::StrokeDashoffset.lookup_position() == 696);
            }
            CssProperty::StrokeDashoffset
        },
        697 => {
            proof {
                assert(CssProperty::StrokeImage.lookup_position() == 697);
            }
            CssProperty::StrokeImage
        },
        698 => {
            proof {
                assert(CssProperty::StrokeLinecap.lookup_position() == 698);
            }
            CssProperty::StrokeLinecap
        },
        699 => {
            proof {
                assert(CssProperty::StrokeLinejoin.lookup_position() == 699);
            }
            CssProperty::StrokeLinejoin
        },
        _ => lookup_at_from_700(i),
    }
}

/// `lookup_at` from index 700 on.
fn lookup_at_from_700(i: usize) -> (r: CssProperty)
    requires
        700 <= i < LOOKUP_LEN,
    ensures
        r.is_listed(),
        r.lookup_position() == i,
{
    match i {
        700 => {
            proof {
                assert(CssProperty::StrokeMiterlimit.lookup_position() == 700);
            }
            CssProperty::StrokeMiterlimit
        },
        701 => {
            proof {
                assert(CssProperty::StrokeOpacity.lookup_position() == 701);
            }
            CssProperty::StrokeOpacity
        },
        702 => {
            proof {
                assert(CssProperty::StrokeOrigin.lookup_position() == 702);
            }
            CssProperty::StrokeOrigin
        },
        703 => {
            proof {
                assert(CssProperty::StrokePosition.lookup_position() == 703);
            }
            CssProperty::StrokePosition
        },
        704 => {
            proof {
                assert(CssProperty::StrokeRepeat.lookup_position() == 704);
            }
            CssProperty::StrokeRepeat
        },
        705 => {
            proof {
                assert(CssProperty::StrokeSize.lookup_position() == 705);
            }
            CssProperty::StrokeSize
        },
        706 => {
            proof {
                assert(CssProperty::StrokeWidth.lookup_position() == 706);
            }
            CssProperty::StrokeWidth
        },
        707 => {
            proof {
                assert(CssProperty::TabSize.lookup_position() == 707);
            }
            CssProperty::TabSize
        },
        708 => {
            proof {
                assert(CssProperty::TableLayout.lookup_position() == 708);
            }
            CssProperty::TableLayout
        },
        709 => {
            proof {
                assert(CssProperty::TextAlign.lookup_position() == 709);
            }
            CssProperty::TextAlign
        },
        710 => {
            proof {
                assert(CssProperty::TextAlignAll.lookup_position() == 710);
            }
            CssProperty::TextAlignAll
        },
        711 => {
            proof {
                assert(CssProperty::TextAlignLast.lookup_position() == 711);
            }
            CssProperty::TextAlignLast
        },
        712 => {
            proof {
                assert(CssProperty::TextAnchor.lookup_position() == 712);
            }
            CssProperty::TextAnchor
        },
        713 => {
            proof {
                assert(CssProperty::TextAutospace.lookup_position() == 713);
            }
            CssProperty::TextAutospace
        },
        714 => {
            proof {
                assert(CssProperty::TextBox.lookup_position() == 714);
            }
            CssProperty::TextBox
        },
        715 => {
            proof {
                assert(CssProperty::TextBoxEdge.lookup_position() == 715);
            }
            CssProperty::TextBoxEdge
        },
        716 => {
            proof {
                assert(CssProperty::TextBoxTrim.lookup_position() == 716);
            }
            CssProperty::TextBoxTrim
        },
        717 => {
            proof {
                assert(CssProperty::TextCombineUpright.lookup_position() == 717);
            }
            CssProperty::TextCombineUpright
        },
        718 => {
            proof {
                assert(CssProperty::TextDecoration.lookup_position() == 718);
            }
            CssProperty::TextDecoration
        },
        719 => {
            proof {
                assert(CssProperty::TextDecorationColor.lookup_position() == 719);
            }
            CssProperty::TextDecorationColor
        },
        720 => {
            proof {
                assert(CssProperty::TextDecorationInset.lookup_position() == 720);
            }
            CssProperty::TextDecorationInset
        },
        721 => {
            proof {
                assert(CssProperty::TextDecorationLine.lookup_position() == 721);
            }
            CssProperty::TextDecorationLine
        },
        722 => {
            proof {
                assert(CssProperty::TextDecorationSkip.lookup_position() == 722);
            }
            CssProperty::TextDecorationSkip
        },
        723 => {
            proof {
                assert(CssProperty::TextDecorationSkipBox.lookup_position() == 723);
            }
            CssProperty::TextDecorationSkipBox
        },
        724 => {
            proof {
                assert(CssProperty::TextDecorationSkipInk.lookup_position() == 724);
            }
            CssProperty::TextDecorationSkipInk
        },
        725 => {
            proof {
                assert(CssProperty::TextDecorationSkipSelf.lookup_position() == 725);
            }
            CssProperty::TextDecorationSkipSelf
        },
        726 => {
            proof {
                assert(CssProperty::TextDecorationSkipSpaces.lookup_position() == 726);
            }
            CssProperty::TextDecorationSkipSpaces
        },
        727 => {
            proof {
                assert(CssProperty::TextDecorationStyle.lookup_position() == 727);
            }
            CssProperty::TextDecorationStyle
        },
        728 => {
            proof {
                assert(CssProperty::TextDecorationThickness.lookup_position() == 728);
            }
            CssProperty::TextDecorationThickness
        },
        729 => {
            proof {
                assert(CssProperty::TextEmphasis.lookup_position() == 729);
            }
            CssProperty::TextEmphasis
        },
        730 => {
            proof {
                assert(CssProperty::TextEmphasisColor.lookup_position() == 730);
            }
            CssProperty::TextEmphasisColor
        },
        731 => {
            proof {
                assert(CssProperty::TextEmphasisPosition.lookup_position() == 731);
            }
            CssProperty::TextEmphasisPosition
        },
        732 => {
            proof {
                assert(CssProperty::TextEmphasisSkip.lookup_position() == 732);
            }
            CssProperty::TextEmphasisSkip
        },
        733 => {
            proof {
                assert(CssProperty::TextEmphasisStyle.lookup_position() == 733);
            }
            CssProperty::TextEmphasisStyle
        },
        734 => {
            proof {
                assert(CssProperty::TextFit.lookup_position() == 734);
            }
            CssProperty::TextFit
        },
        735 => {
            proof {
                assert(CssProperty::TextGroupAlign.lookup_position() == 735);
            }
            CssProperty::TextGroupAlign
        },
        736 => {
            proof {
                assert(CssProperty::TextIndent.lookup_position() == 736);
            }
            CssProperty::TextIndent
        },
        737 => {
            proof {
                assert(CssProperty::TextJustify.lookup_position() == 737);
            }
            CssProperty::TextJustify
        },
        738 => {
            proof {
                assert(CssProperty::TextOrientation.lookup_position() == 738);
            }
            CssProperty::TextOrientation
        },
        739 => {
            proof {
                assert(CssProperty::TextOverflow.lookup_position() == 739);
            }
            CssProperty::TextOverflow
        },
        740 => {
            proof {
                assert(CssProperty::TextRendering.lookup_position() == 740);
            }
            CssProperty::TextRendering
        },
        741 => {
            proof {
                assert(CssProperty::TextShadow.lookup_position() == 741);
            }
            CssProperty::TextShadow
        },
        742 => {
            proof {
                assert(CssProperty::TextSizeAdjust.lookup_position() == 742);
            }
            CssProperty::TextSizeAdjust
        },
        743 => {
            proof {
                assert(CssProperty::TextSpacing.lookup_position() == 743);
            }
            CssProperty::TextSpacing
        },
        744 => {
            proof {
                assert(CssProperty::TextSpacingTrim.lookup_position() == 744);
            }
            CssProperty::TextSpacingTrim
        },
        745 => {
            proof {
                assert(CssProperty::TextTransform.lookup_position() == 745);
            }
            CssProperty::TextTransform
        },
        746 => {
            proof {
                assert(CssProperty::TextUnderlineOffset.lookup_position() == 746);
            }
            CssProperty::TextUnderlineOffset
        },
        747 => {
            proof {
                assert(CssProperty::TextUnderlinePosition.lookup_position() == 747);
            }
            CssProperty::TextUnderlinePosition
        },
        748 => {
            proof {
                assert(CssProperty::TextWrap.lookup_position() == 748);
            }
            CssProperty::TextWrap
        },
        749 => {
            proof {
                assert(CssProperty::TextWrapMode.lookup_position() == 749);
            }
            CssProperty::TextWrapMode
        },
        750 => {
            proof {
                assert(CssProperty::TextWrapStyle.lookup_position() == 750);
            }
            CssProperty::TextWrapStyle
        },
        751 => {
            proof {
                assert(CssProperty::TimelineScope.lookup_position() == 751);
            }
            CssProperty::TimelineScope
        },
        752 => {
            proof {
                assert(CssProperty::TimelineTrigger.lookup_position() == 752);
            }
            CssProperty::TimelineTrigger
        },
        753 => {
            proof {
                assert(CssProperty::TimelineTriggerActivationRange.lookup_position() == 753);
            }
            CssProperty::TimelineTriggerActivationRange
        },
        754 => {
            proof {
                assert(CssProperty::TimelineTriggerActivationRangeEnd.lookup_position() == 754);
            }
            CssProperty::TimelineTriggerActivationRangeEnd
        },
        755 => {
            proof {
                assert(CssProperty::TimelineTriggerActivationRangeStart.lookup_position() == 755);
            }
            CssProperty::TimelineTriggerActivationRangeStart
        },
        756 => {
            proof {
                assert(CssProperty::TimelineTriggerActiveRange.lookup_position() == 756);
            }
            CssProperty::TimelineTriggerActiveRange
        },
        757 => {
            proof {
                assert(CssProperty::TimelineTriggerActiveRangeEnd.lookup_position() == 757);
            }
            CssProperty::TimelineTriggerActiveRangeEnd
        },
        758 => {
            proof {
                assert(CssProperty::TimelineTriggerActiveRangeStart.lookup_position() == 758);
            }
            CssProperty::TimelineTriggerActiveRangeStart
        },
        759 => {
            proof {
                assert(CssProperty::TimelineTriggerName.lookup_position() == 759);
            }
            CssProperty::TimelineTriggerName
        },
        760 => {
            proof {
                assert(CssProperty::TimelineTriggerSource.lookup_position() == 760);
            }
            CssProperty::TimelineTriggerSource
        },
        761 => {
            proof {
                assert(CssProperty::Top.lookup_position() == 761);
            }
            CssProperty::Top
        },
        762 => {
            proof {
                assert(CssProperty::TouchAction.lookup_position() == 762);
            }
            CssProperty::TouchAction
        },
        763 => {
            proof {
                assert(CssProperty::Transform.lookup_position() == 763);
            }
            CssProperty::Transform
        },
        764 => {
            proof {
                assert(CssProperty::TransformBox.lookup_position() == 764);
            }
            CssProperty::TransformBox
        },
        765 => {
            proof {
                assert(CssProperty::TransformOrigin.lookup_position() == 765);
            }
            CssProperty::TransformOrigin
        },
        766 => {
            proof {
                assert(CssProperty::TransformStyle.lookup_position() == 766);
            }
            CssProperty::TransformStyle
        },
        767 => {
            proof {
                assert(CssProperty::Transition.lookup_position() == 767);
            }
            CssProperty::Transition
        },
        768 => {
            proof {
                assert(CssProperty::TransitionBehavior.lookup_position() == 768);
            }
            CssProperty::TransitionBehavior
        },
        769 => {
            proof {
                assert(CssProperty::TransitionDelay.lookup_position() == 769);
            }
            CssProperty::TransitionDelay
        },
        770 => {
            proof {
                assert(CssProperty::TransitionDuration.lookup_position() == 770);
            }
            CssProperty::TransitionDuration
        },
        771 => {
            proof {
                assert(CssProperty::TransitionProperty.lookup_position() == 771);
            }
            CssProperty::TransitionProperty
        },
        772 => {
            proof {
                assert(CssProperty::TransitionTimingFunction.lookup_position() == 772);
            }
            CssProperty::TransitionTimingFunction
        },
        773 => {
            proof {
                assert(CssProperty::Translate.lookup_position() == 773);
            }
            CssProperty::Translate
        },
        774 => {
            proof {
                assert(CssProperty::TriggerScope.lookup_position() == 774);
            }
            CssProperty::TriggerScope
        },
        775 => {
            proof {
                assert(CssProperty::UnicodeBidi.lookup_position() == 775);
            }
            CssProperty::UnicodeBidi
        },
        776 => {
            proof {
                assert(CssProperty::UserSelect.lookup_position() == 776);
            }
            CssProperty::UserSelect
        },
        777 => {
            proof {
                assert(CssProperty::VectorEffect.lookup_position() == 777);
            }
            CssProperty::VectorEffect
        },
        778 => {
            proof {
                assert(CssProperty::VerticalAlign.lookup_position() == 778);
            }
            CssProperty::VerticalAlign
        },
        779 => {
            proof {
                assert(CssProperty::ViewTimeline.lookup_position() == 779);
            }
            CssProperty::ViewTimeline
        },
        780 => {
            proof {
                assert(CssProperty::ViewTimelineAxis.lookup_position() == 780);
            }
            CssProperty::ViewTimelineAxis
        },
        781 => {
            proof {
                assert(CssProperty::ViewTimelineInset.lookup_position() == 781);
            }
            CssProperty::ViewTimelineInset
        },
        782 => {
            proof {
                assert(CssProperty::ViewTimelineName.lookup_position() == 782);
            }
            CssProperty::ViewTimelineName
        },
        783 => {
            proof {
                assert(CssProperty::ViewTransitionClass.lookup_position() == 783);
            }
            CssProperty::ViewTransitionClass
        },
        784 => {
            proof {
                assert(CssProperty::ViewTransitionGroup.lookup_position() == 784);
            }
            CssProperty::ViewTransitionGroup
        },
        785 => {
            proof {
                assert(CssProperty::ViewTransitionName.lookup_position() == 785);
            }
            CssProperty::ViewTransitionName
        },
        786 => {
            proof {
                assert(CssProperty::ViewTransitionScope.lookup_position() == 786);
            }
            CssProperty::ViewTransitionScope
        },
        787 => {
            proof {
                assert(CssProperty::Visibility.lookup_position() == 787);
            }
            CssProperty::Visibility
        },
        788 => {
            proof {
                assert(CssProperty::VoiceBalance.lookup_position() == 788);
            }
            CssProperty::VoiceBalance
        },
        789 => {
            proof {
                assert(CssProperty::VoiceDuration.lookup_position() == 789);
            }
            CssProperty::VoiceDuration
        },
        790 => {
            proof {
                assert(CssProperty::VoiceFamily.lookup_position() == 790);
            }
            CssProperty::VoiceFamily
        },
        791 => {
            proof {
                assert(CssProperty::VoicePitch.lookup_position() == 791);
            }
            CssProperty::VoicePitch
        },
        792 => {
            proof {
                assert(CssProperty::VoiceRange.lookup_position() == 792);
            }
            CssProperty::VoiceRange
        },
        793 => {
            proof {
                assert(CssProperty::VoiceRate.lookup_position() == 793);
            }
            CssProperty::VoiceRate
        },
        794 => {
            proof {
                assert(CssProperty::VoiceStress.lookup_position() == 794);
            }
            CssProperty::VoiceStress
        },
        795 => {
            proof {
                assert(CssProperty::VoiceVolume.lookup_position() == 795);
            }
            CssProperty::VoiceVolume
        },
        796 => {
            proof {
                assert(CssProperty::WhiteSpace.lookup_position() == 796);
            }
            CssProperty::WhiteSpace
        },
        797 => {
            proof {
                assert(CssProperty::WhiteSpaceCollapse.lookup_position() == 797);
            }
            CssProperty::WhiteSpaceCollapse
        },
        798 => {
            proof {
                assert(CssProperty::WhiteSpaceTrim.lookup_position() == 798);
            }
            CssProperty::WhiteSpaceTrim
        },
        799 => {
            proof {
                assert(CssProperty::Widows.lookup_position() == 799);
            }
            CssProperty::Widows
        },
        _ => lookup_at_from_800(i),
    }
}

/// `lookup_at` from index 800 on.
fn lookup_at_from_800(i: usize) -> (r: CssProperty)
    requires
        800 <= i < LOOKUP_LEN,
    ensures
        r.is_listed(),
        r.lookup_position() == i,
{
    match i {
        800 => {
            proof {
                assert(CssProperty::Width.lookup_position() == 800);
            }
            CssProperty::Width
        },
        801 => {
            proof {
                assert(CssProperty::WillChange.lookup_position() == 801);
            }
            CssProperty::WillChange
        },
        802 => {
            proof {
                assert(CssProperty::WordBreak.lookup_position() == 802);
            }
            CssProperty::WordBreak
        },
        803 => {
            proof {
                assert(CssProperty::WordSpaceTransform.lookup_position() == 803);
            }
            CssProperty::WordSpaceTransform
        },
        804 => {
            proof {
                assert(CssProperty::WordSpacing.lookup_position() == 804);
            }
            CssProperty::WordSpacing
        },
        805 => {
            proof {
                assert(CssProperty::WordWrap.lookup_position() == 805);
            }
            CssProperty::WordWrap
        },
        806 => {
            proof {
                assert(CssProperty::WrapAfter.lookup_position() == 806);
            }
            CssProperty::WrapAfter
        },
        807 => {
            proof {
                assert(CssProperty::WrapBefore.lookup_position() == 807);
            }
            CssProperty::WrapBefore
        },
        808 => {
            proof {
                assert(CssProperty::WrapFlow.lookup_position() == 808);
            }
            CssProperty::WrapFlow
        },
        809 => {
            proof {
                assert(CssProperty::WrapInside.lookup_position() == 809);
            }
            CssProperty::WrapInside
        },
        810 => {
            proof {
                assert(CssProperty::WrapThrough.lookup_position() == 810);
            }
            CssProperty::WrapThrough
        },
        811 => {
            proof {
                assert(CssProperty::WritingMode.lookup_position() == 811);
            }
            CssProperty::WritingMode
        },
        812 => {
            proof {
                assert(CssProperty::X.lookup_position() == 812);
            }
            CssProperty::X
        },
        813 => {
            proof {
                assert(CssProperty::Y.lookup_position() == 813);
            }
            CssProperty::Y
        },
        814 => {
            proof {
                assert(CssProperty::ZIndex.lookup_position() == 814);
            }
            CssProperty::ZIndex
        },
        _ => {
            proof {
                assert(CssProperty::Zoom.lookup_position() == 815);
            }
            CssProperty::Zoom
        },
    }
}

impl Clone for CssProperty {
    fn clone(&self) -> (r: Self)
        ensures
            r == *self,
    {
        self.clone_part_0()
    }
}

impl CssProperty {
    /// Where the variant stands in the declaration.
    pub open spec fn ordinal(&self) -> int {
        match self {
            CssProperty::WebkitAlignContent => 0,
            CssProperty::WebkitAlignItems => 1,
            CssProperty::WebkitAlignSelf => 2,
            CssProperty::WebkitAnimation => 3,
            CssProperty::WebkitAnimationDelay => 4,
            CssProperty::WebkitAnimationDirection => 5,
            CssProperty::WebkitAnimationDuration => 6,
            CssProperty::WebkitAnimationFillMode => 7,
            CssProperty::WebkitAnimationIterationCount => 8,
            CssProperty::WebkitAnimationName => 9,
            CssProperty::WebkitAnimationPlayState => 10,
            CssProperty::WebkitAnimationTimingFunction => 11,
            CssProperty::WebkitAppearance => 12,
            CssProperty::WebkitBackfaceVisibility => 13,
            CssProperty::WebkitBackgroundClip => 14,
            CssProperty::WebkitBackgroundOrigin => 15,
            CssProperty::WebkitBackgroundSize => 16,
            CssProperty::WebkitBorderBottomLeftRadius => 17,
            CssProperty::WebkitBorderBottomRightRadius => 18,
            CssProperty::WebkitBorderRadius => 19,
            CssProperty::WebkitBorderTopLeftRadius => 20,
            CssProperty::WebkitBorderTopRightRadius => 21,
            CssProperty::WebkitBoxAlign => 22,
            CssProperty::WebkitBoxFlex => 23,
            CssProperty::WebkitBoxOrdinalGroup => 24,
            CssProperty::WebkitBoxOrient => 25,
            CssProperty::WebkitBoxPack => 26,
            CssProperty::WebkitBoxShadow => 27,
            CssProperty::WebkitBoxSizing => 28,
            CssProperty::WebkitFilter => 29,
            CssProperty::WebkitFlex => 30,
            CssProperty::WebkitFlexBasis => 31,
            CssProperty::WebkitFlexDirection => 32,
            CssProperty::WebkitFlexFlow => 33,
            CssProperty::WebkitFlexGrow => 34,
            CssProperty::WebkitFlexShrink => 35,
            CssProperty::WebkitFlexWrap => 36,
            CssProperty::WebkitJustifyContent => 37,
            CssProperty::WebkitLineClamp => 38,
            CssProperty::WebkitMask => 39,
            CssProperty::WebkitMaskBoxImage => 40,
            CssProperty::WebkitMaskBoxImageOutset => 41,
            CssProperty::WebkitMaskBoxImageRepeat => 42,
            CssProperty::WebkitMaskBoxImageSlice => 43,
            CssProperty::WebkitMaskBoxImageSource => 44,
            CssProperty::WebkitMaskBoxImageWidth => 45,
            CssProperty::WebkitMaskClip => 46,
            CssProperty::WebkitMaskComposite => 47,
            CssProperty::WebkitMaskImage => 48,
            CssProperty::WebkitMaskOrigin => 49,
            CssProperty::WebkitMaskPosition => 50,
            CssProperty::WebkitMaskRepeat => 51,
            CssProperty::WebkitMaskSize => 52,
            CssProperty::WebkitOrder => 53,
            CssProperty::WebkitPerspective => 54,
            CssProperty::WebkitPerspectiveOrigin => 55,
            CssProperty::WebkitTextFillColor => 56,
            CssProperty::WebkitTextSizeAdjust => 57,
            CssProperty::WebkitTextStroke => 58,
            CssProperty::WebkitTextStrokeColor => 59,
            CssProperty::WebkitTextStrokeWidth => 60,
            CssProperty::WebkitTransform => 61,
            CssProperty::WebkitTransformOrigin => 62,
            CssProperty::WebkitTransformStyle => 63,
            CssProperty::WebkitTransition => 64,
            CssProperty::WebkitTransitionDelay => 65,
            CssProperty::WebkitTransitionDuration => 66,
            CssProperty::WebkitTransitionProperty => 67,
            CssProperty::WebkitTransitionTimingFunction => 68,
            CssProperty::WebkitUserSelect => 69,
            CssProperty::AccentColor => 70,
            CssProperty::AlignContent => 71,
            CssProperty::AlignItems => 72,
            CssProperty::AlignSelf => 73,
            CssProperty::AlignmentBaseline => 74,
            CssProperty::All => 75,
            CssProperty::AnchorName => 76,
            CssProperty::AnchorScope => 77,
            CssProperty::Animation => 78,
            CssProperty::AnimationComposition => 79,
            CssProperty::AnimationDelay => 80,
            CssProperty::AnimationDirection => 81,
            CssProperty::AnimationDuration => 82,
            CssProperty::AnimationFillMode => 83,
            CssProperty::AnimationIterationCount => 84,
            CssProperty::AnimationName => 85,
            CssProperty::AnimationPlayState => 86,
            CssProperty::AnimationRange => 87,
            CssProperty::AnimationRangeCenter => 88,
            CssProperty::AnimationRangeEnd => 89,
            CssProperty::AnimationRangeStart => 90,
            CssProperty::AnimationTimeline => 91,
            CssProperty::AnimationTimingFunction => 92,
            CssProperty::AnimationTrigger => 93,
            CssProperty::Appearance => 94,
            CssProperty::AspectRatio => 95,
            CssProperty::BackdropFilter => 96,
            CssProperty::BackfaceVisibility => 97,
            CssProperty::Background => 98,
            CssProperty::BackgroundAttachment => 99,
            _ => self.ordinal_from_100(),
        }
    }

    /// `ordinal` for the values from the 100-th on.
    pub open spec fn ordinal_from_100(&self) -> int {
        match self {
            CssProperty::BackgroundBlendMode => 100,
            CssProperty::BackgroundClip => 101,
            CssProperty::BackgroundColor => 102,
            CssProperty::BackgroundImage => 103,
            CssProperty::BackgroundOrigin => 104,
            CssProperty::BackgroundPosition => 105,
            CssProperty::BackgroundPositionBlock => 106,
            CssProperty::BackgroundPositionInline => 107,
            CssProperty::BackgroundPositionX => 108,
            CssProperty::BackgroundPositionY => 109,
            CssProperty::BackgroundRepeat => 110,
            CssProperty::BackgroundRepeatBlock => 111,
            CssProperty::BackgroundRepeatInline => 112,
            CssProperty::BackgroundRepeatX => 113,
            CssProperty::BackgroundRepeatY => 114,
            CssProperty::BackgroundSize => 115,
            CssProperty::BackgroundTbd => 116,
            CssProperty::BaselineShift => 117,
            CssProperty::BaselineSource => 118,
            CssProperty::BlockEllipsis => 119,
            CssProperty::BlockSize => 120,
            CssProperty::BlockStep => 121,
            CssProperty::BlockStepAlign => 122,
            CssProperty::BlockStepInsert => 123,
            CssProperty::BlockStepRound => 124,
            CssProperty::BlockStepSize => 125,
            CssProperty::BookmarkLabel => 126,
            CssProperty::BookmarkLevel => 127,
            CssProperty::BookmarkState => 128,
            CssProperty::Border => 129,
            CssProperty::BorderBlock => 130,
            CssProperty::BorderBlockClip => 131,
            CssProperty::BorderBlockColor => 132,
            CssProperty::BorderBlockEnd => 133,
            CssProperty::BorderBlockEndClip => 134,
            CssProperty::BorderBlockEndColor => 135,
            CssProperty::BorderBlockEndRadius => 136,
            CssProperty::BorderBlockEndStyle => 137,
            CssProperty::BorderBlockEndWidth => 138,
            CssProperty::BorderBlockStart => 139,
            CssProperty::BorderBlockStartClip => 140,
            CssProperty::BorderBlockStartColor => 141,
            CssProperty::BorderBlockStartRadius => 142,
            CssProperty::BorderBlockStartStyle => 143,
            CssProperty::BorderBlockStartWidth => 144,
            CssProperty::BorderBlockStyle => 145,
            CssProperty::BorderBlockWidth => 146,
            CssProperty::BorderBottom => 147,
            CssProperty::BorderBottomClip => 148,
            CssProperty::BorderBottomColor => 149,
            CssProperty::BorderBottomLeftRadius => 150,
            CssProperty::BorderBottomRadius => 151,
            CssProperty::BorderBottomRightRadius => 152,
            CssProperty::BorderBottomStyle => 153,
            CssProperty::BorderBottomWidth => 154,
            CssProperty::BorderBoundary => 155,
            CssProperty::BorderClip => 156,
            CssProperty::BorderCollapse => 157,
            CssProperty::BorderColor => 158,
            CssProperty::BorderEndEndRadius => 159,
            CssProperty::BorderEndStartRadius => 160,
            CssProperty::BorderImage => 161,
            CssProperty::BorderImageOutset => 162,
            CssProperty::BorderImageRepeat => 163,
            CssProperty::BorderImageSlice => 164,
            CssProperty::BorderImageSource => 165,
            CssProperty::BorderImageWidth => 166,
            CssProperty::BorderInline => 167,
            CssProperty::BorderInlineClip => 168,
            CssProperty::BorderInlineColor => 169,
            CssProperty::BorderInlineEnd => 170,
            CssProperty::BorderInlineEndClip => 171,
            CssProperty::BorderInlineEndColor => 172,
            CssProperty::BorderInlineEndRadius => 173,
            CssProperty::BorderInlineEndStyle => 174,
            CssProperty::BorderInlineEndWidth => 175,
            CssProperty::BorderInlineStart => 176,
            CssProperty::BorderInlineStartClip => 177,
            CssProperty::BorderInlineStartColor => 178,
            CssProperty::BorderInlineStartRadius => 179,
            CssProperty::BorderInlineStartStyle => 180,
            CssProperty::BorderInlineStartWidth => 181,
            CssProperty::BorderInlineStyle => 182,
            CssProperty::BorderInlineWidth => 183,
            CssProperty::BorderLeft => 184,
            CssProperty::BorderLeftClip => 185,
            CssProperty::BorderLeftColor => 186,
            CssProperty::BorderLeftRadius => 187,
            CssProperty::BorderLeftStyle => 188,
            CssProperty::BorderLeftWidth => 189,
            CssProperty::BorderLimit => 190,
            CssProperty::BorderRadius => 191,
            CssProperty::BorderRight => 192,
            CssProperty::BorderRightClip => 193,
            CssProperty::BorderRightColor => 194,
            CssProperty::BorderRightRadius => 195,
            CssProperty::BorderRightStyle => 196,
            CssProperty::BorderRightWidth => 197,
            CssProperty::BorderShape => 198,
            CssProperty::BorderSpacing => 199,
            _ => self.ordinal_from_200(),
        }
    }

    /// `ordinal` for the values from the 200-th on.
    pub open spec fn ordinal_from_200(&self) -> int {
        match self {
            CssProperty::BorderStartEndRadius => 200,
            CssProperty::BorderStartStartRadius => 201,
            CssProperty::BorderStyle => 202,
            CssProperty::BorderTop => 203,
            CssProperty::BorderTopClip => 204,
            CssProperty::BorderTopColor => 205,
            CssProperty::BorderTopLeftRadius => 206,
            CssProperty::BorderTopRadius => 207,
            CssProperty::BorderTopRightRadius => 208,
            CssProperty::BorderTopStyle => 209,
            CssProperty::BorderTopWidth => 210,
            CssProperty::BorderWidth => 211,
            CssProperty::Bottom => 212,
            CssProperty::BoxDecorationBreak => 213,
            CssProperty::BoxShadow => 214,
            CssProperty::BoxShadowBlur => 215,
            CssProperty::BoxShadowColor => 216,
            CssProperty::BoxShadowOffset => 217,
            CssProperty::BoxShadowPosition => 218,
            CssProperty::BoxShadowSpread => 219,
            CssProperty::BoxSizing => 220,
            CssProperty::BoxSnap => 221,
            CssProperty::BreakAfter => 222,
            CssProperty::BreakBefore => 223,
            CssProperty::BreakInside => 224,
            CssProperty::CaptionSide => 225,
            CssProperty::Caret => 226,
            CssProperty::CaretAnimation => 227,
            CssProperty::CaretColor => 228,
            CssProperty::CaretShape => 229,
            CssProperty::Clear => 230,
            CssProperty::Clip => 231,
            CssProperty::ClipPath => 232,
            CssProperty::ClipRule => 233,
            CssProperty::Color => 234,
            CssProperty::ColorAdjust => 235,
            CssProperty::ColorInterpolation => 236,
            CssProperty::ColorInterpolationFilters => 237,
            CssProperty::ColorScheme => 238,
            CssProperty::ColumnCount => 239,
            CssProperty::ColumnFill => 240,
            CssProperty::ColumnGap => 241,
            CssProperty::ColumnHeight => 242,
            CssProperty::ColumnRule => 243,
            CssProperty::ColumnRuleBreak => 244,
            CssProperty::ColumnRuleColor => 245,
            CssProperty::ColumnRuleInset => 246,
            CssProperty::ColumnRuleInsetCap => 247,
            CssProperty::ColumnRuleInsetCapEnd => 248,
            CssProperty::ColumnRuleInsetCapStart => 249,
            CssProperty::ColumnRuleInsetEnd => 250,
            CssProperty::ColumnRuleInsetJunction => 251,
            CssProperty::ColumnRuleInsetJunctionEnd => 252,
            CssProperty::ColumnRuleInsetJunctionStart => 253,
            CssProperty::ColumnRuleInsetStart => 254,
            CssProperty::ColumnRuleStyle => 255,
            CssProperty::ColumnRuleVisibilityItems => 256,
            CssProperty::ColumnRuleWidth => 257,
            CssProperty::ColumnSpan => 258,
            CssProperty::ColumnWidth => 259,
            CssProperty::ColumnWrap => 260,
            CssProperty::Columns => 261,
            CssProperty::Contain => 262,
            CssProperty::ContainIntrinsicBlockSize => 263,
            CssProperty::ContainIntrinsicHeight => 264,
            CssProperty::ContainIntrinsicInlineSize => 265,
            CssProperty::ContainIntrinsicSize => 266,
            CssProperty::ContainIntrinsicWidth => 267,
            CssProperty::Container => 268,
            CssProperty::ContainerName => 269,
            CssProperty::ContainerType => 270,
            CssProperty::Content => 271,
            CssProperty::ContentVisibility => 272,
            CssProperty::Continue => 273,
            CssProperty::CopyInto => 274,
            CssProperty::Corner => 275,
            CssProperty::CornerBlockEnd => 276,
            CssProperty::CornerBlockEndShape => 277,
            CssProperty::CornerBlockStart => 278,
            CssProperty::CornerBlockStartShape => 279,
            CssProperty::CornerBottom => 280,
            CssProperty::CornerBottomLeft => 281,
            CssProperty::CornerBottomLeftShape => 282,
            CssProperty::CornerBottomRight => 283,
            CssProperty::CornerBottomRightShape => 284,
            CssProperty::CornerBottomShape => 285,
            CssProperty::CornerEndEnd => 286,
            CssProperty::CornerEndEndShape => 287,
            CssProperty::CornerEndStart => 288,
            CssProperty::CornerEndStartShape => 289,
            CssProperty::CornerInlineEnd => 290,
            CssProperty::CornerInlineEndShape => 291,
            CssProperty::CornerInlineStart => 292,
            CssProperty::CornerInlineStartShape => 293,
            CssProperty::CornerLeft => 294,
            CssProperty::CornerLeftShape => 295,
            CssProperty::CornerRight => 296,
            CssProperty::CornerRightShape => 297,
            CssProperty::CornerShape => 298,
            CssProperty::CornerStartEnd => 299,
            _ => self.ordinal_from_300(),
        }
    }

    /// `ordinal` for the values from the 300-th on.
    pub open spec fn ordinal_from_300(&self) -> int {
        match self {
            CssProperty::CornerStartEndShape => 300,
            CssProperty::CornerStartStart => 301,
            CssProperty::CornerStartStartShape => 302,
            CssProperty::CornerTop => 303,
            CssProperty::CornerTopLeft => 304,
            CssProperty::CornerTopLeftShape => 305,
            CssProperty::CornerTopRight => 306,
            CssProperty::CornerTopRightShape => 307,
            CssProperty::CornerTopShape => 308,
            CssProperty::CounterIncrement => 309,
            CssProperty::CounterReset => 310,
            CssProperty::CounterSet => 311,
            CssProperty::Cue => 312,
            CssProperty::CueAfter => 313,
            CssProperty::CueBefore => 314,
            CssProperty::Cursor => 315,
            CssProperty::Cx => 316,
            CssProperty::Cy => 317,
            CssProperty::D => 318,
            CssProperty::Direction => 319,
            CssProperty::Display => 320,
            CssProperty::DominantBaseline => 321,
            CssProperty::DynamicRangeLimit => 322,
            CssProperty::EmptyCells => 323,
            CssProperty::EventTrigger => 324,
            CssProperty::EventTriggerName => 325,
            CssProperty::EventTriggerSource => 326,
            CssProperty::FieldSizing => 327,
            CssProperty::Fill => 328,
            CssProperty::FillBreak => 329,
            CssProperty::FillColor => 330,
            CssProperty::FillImage => 331,
            CssProperty::FillOpacity => 332,
            CssProperty::FillOrigin => 333,
            CssProperty::FillPosition => 334,
            CssProperty::FillRepeat => 335,
            CssProperty::FillRule => 336,
            CssProperty::FillSize => 337,
            CssProperty::Filter => 338,
            CssProperty::Flex => 339,
            CssProperty::FlexBasis => 340,
            CssProperty::FlexDirection => 341,
            CssProperty::FlexFlow => 342,
            CssProperty::FlexGrow => 343,
            CssProperty::FlexShrink => 344,
            CssProperty::FlexWrap => 345,
            CssProperty::Float => 346,
            CssProperty::FloatDefer => 347,
            CssProperty::FloatOffset => 348,
            CssProperty::FloatReference => 349,
            CssProperty::FloodColor => 350,
            CssProperty::FloodOpacity => 351,
            CssProperty::FlowFrom => 352,
            CssProperty::FlowInto => 353,
            CssProperty::FlowTolerance => 354,
            CssProperty::Font => 355,
            CssProperty::FontFamily => 356,
            CssProperty::FontFeatureSettings => 357,
            CssProperty::FontKerning => 358,
            CssProperty::FontLanguageOverride => 359,
            CssProperty::FontOpticalSizing => 360,
            CssProperty::FontPalette => 361,
            CssProperty::FontSize => 362,
            CssProperty::FontSizeAdjust => 363,
            CssProperty::FontStretch => 364,
            CssProperty::FontStyle => 365,
            CssProperty::FontSynthesis => 366,
            CssProperty::FontSynthesisPosition => 367,
            CssProperty::FontSynthesisSmallCaps => 368,
            CssProperty::FontSynthesisStyle => 369,
            CssProperty::FontSynthesisWeight => 370,
            CssProperty::FontVariant => 371,
            CssProperty::FontVariantAlternates => 372,
            CssProperty::FontVariantCaps => 373,
            CssProperty::FontVariantEastAsian => 374,
            CssProperty::FontVariantEmoji => 375,
            CssProperty::FontVariantLigatures => 376,
            CssProperty::FontVariantNumeric => 377,
            CssProperty::FontVariantPosition => 378,
            CssProperty::FontVariationSettings => 379,
            CssProperty::FontWeight => 380,
            CssProperty::FontWidth => 381,
            CssProperty::FootnoteDisplay => 382,
            CssProperty::FootnotePolicy => 383,
            CssProperty::ForcedColorAdjust => 384,
            CssProperty::FrameSizing => 385,
            CssProperty::Gap => 386,
            CssProperty::GlyphOrientationVertical => 387,
            CssProperty::Grid => 388,
            CssProperty::GridArea => 389,
            CssProperty::GridAutoColumns => 390,
            CssProperty::GridAutoFlow => 391,
            CssProperty::GridAutoRows => 392,
            CssProperty::GridColumn => 393,
            CssProperty::GridColumnEnd => 394,
            CssProperty::GridColumnGap => 395,
            CssProperty::GridColumnStart => 396,
            CssProperty::GridGap => 397,
            CssProperty::GridRow => 398,
            CssProperty::GridRowEnd => 399,
            _ => self.ordinal_from_400(),
        }
    }

    /// `ordinal` for the values from the 400-th on.
    pub open spec fn ordinal_from_400(&self) -> int {
        match self {
            CssProperty::GridRowGap => 400,
            CssProperty::GridRowStart => 401,
            CssProperty::GridTemplate => 402,
            CssProperty::GridTemplateAreas => 403,
            CssProperty::GridTemplateColumns => 404,
            CssProperty::GridTemplateRows => 405,
            CssProperty::HangingPunctuation => 406,
            CssProperty::Height => 407,
            CssProperty::HyphenateCharacter => 408,
            CssProperty::HyphenateLimitChars => 409,
            CssProperty::HyphenateLimitLast => 410,
            CssProperty::HyphenateLimitLines => 411,
            CssProperty::HyphenateLimitZone => 412,
            CssProperty::Hyphens => 413,
            CssProperty::ImageAnimation => 414,
            CssProperty::ImageOrientation => 415,
            CssProperty::ImageRendering => 416,
            CssProperty::ImageResolution => 417,
            CssProperty::InitialLetter => 418,
            CssProperty::InitialLetterAlign => 419,
            CssProperty::InitialLetterWrap => 420,
            CssProperty::InlineSize => 421,
            CssProperty::InlineSizing => 422,
            CssProperty::InputSecurity => 423,
            CssProperty::Inset => 424,
            CssProperty::InsetBlock => 425,
            CssProperty::InsetBlockEnd => 426,
            CssProperty::InsetBlockStart => 427,
            CssProperty::InsetInline => 428,
            CssProperty::InsetInlineEnd => 429,
            CssProperty::InsetInlineStart => 430,
            CssProperty::Interactivity => 431,
            CssProperty::InterestDelay => 432,
            CssProperty::InterestDelayEnd => 433,
            CssProperty::InterestDelayStart => 434,
            CssProperty::InterpolateSize => 435,
            CssProperty::Isolation => 436,
            CssProperty::JustifyContent => 437,
            CssProperty::JustifyItems => 438,
            CssProperty::JustifySelf => 439,
            CssProperty::Left => 440,
            CssProperty::LetterSpacing => 441,
            CssProperty::LightingColor => 442,
            CssProperty::LineBreak => 443,
            CssProperty::LineClamp => 444,
            CssProperty::LineFitEdge => 445,
            CssProperty::LineGrid => 446,
            CssProperty::LineHeight => 447,
            CssProperty::LineHeightStep => 448,
            CssProperty::LinePadding => 449,
            CssProperty::LineSnap => 450,
            CssProperty::LinkParameters => 451,
            CssProperty::ListStyle => 452,
            CssProperty::ListStyleImage => 453,
            CssProperty::ListStylePosition => 454,
            CssProperty::ListStyleType => 455,
            CssProperty::Margin => 456,
            CssProperty::MarginBlock => 457,
            CssProperty::MarginBlockEnd => 458,
            CssProperty::MarginBlockStart => 459,
            CssProperty::MarginBottom => 460,
            CssProperty::MarginBreak => 461,
            CssProperty::MarginInline => 462,
            CssProperty::MarginInlineEnd => 463,
            CssProperty::MarginInlineStart => 464,
            CssProperty::MarginLeft => 465,
            CssProperty::MarginRight => 466,
            CssProperty::MarginTop => 467,
            CssProperty::MarginTrim => 468,
            CssProperty::Marker => 469,
            CssProperty::MarkerEnd => 470,
            CssProperty::MarkerMid => 471,
            CssProperty::MarkerSide => 472,
            CssProperty::MarkerStart => 473,
            CssProperty::Mask => 474,
            CssProperty::MaskBorder => 475,
            CssProperty::MaskBorderMode => 476,
            CssProperty::MaskBorderOutset => 477,
            CssProperty::MaskBorderRepeat => 478,
            CssProperty::MaskBorderSlice => 479,
            CssProperty::MaskBorderSource => 480,
            CssProperty::MaskBorderWidth => 481,
            CssProperty::MaskClip => 482,
            CssProperty::MaskComposite => 483,
            CssProperty::MaskImage => 484,
            CssProperty::MaskMode => 485,
            CssProperty::MaskOrigin => 486,
            CssProperty::MaskPosition => 487,
            CssProperty::MaskRepeat => 488,
            CssProperty::MaskSize => 489,
            CssProperty::MaskType => 490,
            CssProperty::MathDepth => 491,
            CssProperty::MathShift => 492,
            CssProperty::MathStyle => 493,
            CssProperty::MaxBlockSize => 494,
            CssProperty::MaxHeight => 495,
            CssProperty::MaxInlineSize => 496,
            CssProperty::MaxLines => 497,
            CssProperty::MaxWidth => 498,
            CssProperty::MinBlockSize => 499,
            _ => self.ordinal_from_500(),
        }
    }

    /// `ordinal` for the values from the 500-th on.
    pub open spec fn ordinal_from_500(&self) -> int {
        match self {
            CssProperty::MinHeight => 500,
            CssProperty::MinInlineSize => 501,
            CssProperty::MinIntrinsicSizing => 502,
            CssProperty::MinWidth => 503,
            CssProperty::MixBlendMode => 504,
            CssProperty::NavDown => 505,
            CssProperty::NavLeft => 506,
            CssProperty::NavRight => 507,
            CssProperty::NavUp => 508,
            CssProperty::ObjectFit => 509,
            CssProperty::ObjectPosition => 510,
            CssProperty::ObjectViewBox => 511,
            CssProperty::Offset => 512,
            CssProperty::OffsetAnchor => 513,
            CssProperty::OffsetDistance => 514,
            CssProperty::OffsetPath => 515,
            CssProperty::OffsetPosition => 516,
            CssProperty::OffsetRotate => 517,
            CssProperty::Opacity => 518,
            CssProperty::Order => 519,
            CssProperty::Orphans => 520,
            CssProperty::Outline => 521,
            CssProperty::OutlineColor => 522,
            CssProperty::OutlineOffset => 523,
            CssProperty::OutlineStyle => 524,
            CssProperty::OutlineWidth => 525,
            CssProperty::Overflow => 526,
            CssProperty::OverflowAnchor => 527,
            CssProperty::OverflowBlock => 528,
            CssProperty::OverflowClipMargin => 529,
            CssProperty::OverflowClipMarginBlock => 530,
            CssProperty::OverflowClipMarginBlockEnd => 531,
            CssProperty::OverflowClipMarginBlockStart => 532,
            CssProperty::OverflowClipMarginBottom => 533,
            CssProperty::OverflowClipMarginInline => 534,
            CssProperty::OverflowClipMarginInlineEnd => 535,
            CssProperty::OverflowClipMarginInlineStart => 536,
            CssProperty::OverflowClipMarginLeft => 537,
            CssProperty::OverflowClipMarginRight => 538,
            CssProperty::OverflowClipMarginTop => 539,
            CssProperty::OverflowInline => 540,
            CssProperty::OverflowWrap => 541,
            CssProperty::OverflowX => 542,
            CssProperty::OverflowY => 543,
            CssProperty::Overlay => 544,
            CssProperty::OverscrollBehavior => 545,
            CssProperty::OverscrollBehaviorBlock => 546,
            CssProperty::OverscrollBehaviorInline => 547,
            CssProperty::OverscrollBehaviorX => 548,
            CssProperty::OverscrollBehaviorY => 549,
            CssProperty::Padding => 550,
            CssProperty::PaddingBlock => 551,
            CssProperty::PaddingBlockEnd => 552,
            CssProperty::PaddingBlockStart => 553,
            CssProperty::PaddingBottom => 554,
            CssProperty::PaddingInline => 555,
            CssProperty::PaddingInlineEnd => 556,
            CssProperty::PaddingInlineStart => 557,
            CssProperty::PaddingLeft => 558,
            CssProperty::PaddingRight => 559,
            CssProperty::PaddingTop => 560,
            CssProperty::Page => 561,
            CssProperty::PageBreakAfter => 562,
            CssProperty::PageBreakBefore => 563,
            CssProperty::PageBreakInside => 564,
            CssProperty::PaintOrder => 565,
            CssProperty::PathLength => 566,
            CssProperty::Pause => 567,
            CssProperty::PauseAfter => 568,
            CssProperty::PauseBefore => 569,
            CssProperty::Perspective => 570,
            CssProperty::PerspectiveOrigin => 571,
            CssProperty::PlaceContent => 572,
            CssProperty::PlaceItems => 573,
            CssProperty::PlaceSelf => 574,
            CssProperty::PointerEvents => 575,
            CssProperty::PointerTimeline => 576,
            CssProperty::PointerTimelineAxis => 577,
            CssProperty::PointerTimelineName => 578,
            CssProperty::Position => 579,
            CssProperty::PositionAnchor => 580,
            CssProperty::PositionArea => 581,
            CssProperty::PositionTry => 582,
            CssProperty::PositionTryFallbacks => 583,
            CssProperty::PositionTryOrder => 584,
            CssProperty::PositionVisibility => 585,
            CssProperty::PrintColorAdjust => 586,
            CssProperty::Quotes => 587,
            CssProperty::R => 588,
            CssProperty::ReadingFlow => 589,
            CssProperty::ReadingOrder => 590,
            CssProperty::RegionFragment => 591,
            CssProperty::Resize => 592,
            CssProperty::Rest => 593,
            CssProperty::RestAfter => 594,
            CssProperty::RestBefore => 595,
            CssProperty::Right => 596,
            CssProperty::Rotate => 597,
            CssProperty::RowGap => 598,
            CssProperty::RowRule => 599,
            _ => self.ordinal_from_600(),
        }
    }

    /// `ordinal` for the values from the 600-th on.
    pub open spec fn ordinal_from_600(&self) -> int {
        match self {
            CssProperty::RowRuleBreak => 600,
            CssProperty::RowRuleColor => 601,
            CssProperty::RowRuleInset => 602,
            CssProperty::RowRuleInsetCap => 603,
            CssProperty::RowRuleInsetCapEnd => 604,
            CssProperty::RowRuleInsetCapStart => 605,
            CssProperty::RowRuleInsetEnd => 606,
            CssProperty::RowRuleInsetJunction => 607,
            CssProperty::RowRuleInsetJunctionEnd => 608,
            CssProperty::RowRuleInsetJunctionStart => 609,
            CssProperty::RowRuleInsetStart => 610,
            CssProperty::RowRuleStyle => 611,
            CssProperty::RowRuleVisibilityItems => 612,
            CssProperty::RowRuleWidth => 613,
            CssProperty::RubyAlign => 614,
            CssProperty::RubyMerge => 615,
            CssProperty::RubyOverhang => 616,
            CssProperty::RubyPosition => 617,
            CssProperty::Rule => 618,
            CssProperty::RuleBreak => 619,
            CssProperty::RuleColor => 620,
            CssProperty::RuleInset => 621,
            CssProperty::RuleInsetCap => 622,
            CssProperty::RuleInsetEnd => 623,
            CssProperty::RuleInsetJunction => 624,
            CssProperty::RuleInsetStart => 625,
            CssProperty::RuleOverlap => 626,
            CssProperty::RuleStyle => 627,
            CssProperty::RuleVisibilityItems => 628,
            CssProperty::RuleWidth => 629,
            CssProperty::Rx => 630,
            CssProperty::Ry => 631,
            CssProperty::Scale => 632,
            CssProperty::ScrollBehavior => 633,
            CssProperty::ScrollInitialTarget => 634,
            CssProperty::ScrollMargin => 635,
            CssProperty::ScrollMarginBlock => 636,
            CssProperty::ScrollMarginBlockEnd => 637,
            CssProperty::ScrollMarginBlockStart => 638,
            CssProperty::ScrollMarginBottom => 639,
            CssProperty::ScrollMarginInline => 640,
            CssProperty::ScrollMarginInlineEnd => 641,
            CssProperty::ScrollMarginInlineStart => 642,
            CssProperty::ScrollMarginLeft => 643,
            CssProperty::ScrollMarginRight => 644,
            CssProperty::ScrollMarginTop => 645,
            CssProperty::ScrollMarkerGroup => 646,
            CssProperty::ScrollPadding => 647,
            CssProperty::ScrollPaddingBlock => 648,
            CssProperty::ScrollPaddingBlockEnd => 649,
            CssProperty::ScrollPaddingBlockStart => 650,
            CssProperty::ScrollPaddingBottom => 651,
            CssProperty::ScrollPaddingInline => 652,
            CssProperty::ScrollPaddingInlineEnd => 653,
            CssProperty::ScrollPaddingInlineStart => 654,
            CssProperty::ScrollPaddingLeft => 655,
            CssProperty::ScrollPaddingRight => 656,
            CssProperty::ScrollPaddingTop => 657,
            CssProperty::ScrollSnapAlign => 658,
            CssProperty::ScrollSnapStop => 659,
            CssProperty::ScrollSnapType => 660,
            CssProperty::ScrollTargetGroup => 661,
            CssProperty::ScrollTimeline => 662,
            CssProperty::ScrollTimelineAxis => 663,
            CssProperty::ScrollTimelineName => 664,
            CssProperty::ScrollbarColor => 665,
            CssProperty::ScrollbarGutter => 666,
            CssProperty::ScrollbarInset => 667,
            CssProperty::ScrollbarMinThumbSize => 668,
            CssProperty::ScrollbarMode => 669,
            CssProperty::ScrollbarWidth => 670,
            CssProperty::ShapeImageThreshold => 671,
            CssProperty::ShapeInside => 672,
            CssProperty::ShapeMargin => 673,
            CssProperty::ShapeOutside => 674,
            CssProperty::ShapePadding => 675,
            CssProperty::ShapeRendering => 676,
            CssProperty::SliderOrientation => 677,
            CssProperty::SpatialNavigationAction => 678,
            CssProperty::SpatialNavigationContain => 679,
            CssProperty::SpatialNavigationFunction => 680,
            CssProperty::Speak => 681,
            CssProperty::SpeakAs => 682,
            CssProperty::StopColor => 683,
            CssProperty::StopOpacity => 684,
            CssProperty::StringSet => 685,
            CssProperty::Stroke => 686,
            CssProperty::StrokeAlign => 687,
            CssProperty::StrokeAlignment => 688,
            CssProperty::StrokeBreak => 689,
            CssProperty::StrokeColor => 690,
            CssProperty::StrokeDashCornerPropdefStrokeDashCorner => 691,
            CssProperty::StrokeDashJustify => 692,
            CssProperty::StrokeDashadjust => 693,
            CssProperty::StrokeDasharray => 694,
            CssProperty::StrokeDashcornerStrokedashcornerproperty => 695,
            CssProperty::StrokeDashoffset => 696,
            CssProperty::StrokeImage => 697,
            CssProperty::StrokeLinecap => 698,
            CssProperty::StrokeLinejoin => 699,
            _ => self.ordinal_from_700(),
        }
    }

    /// `ordinal` for the values from the 700-th on.
    pub open spec fn ordinal_from_700(&self) -> int {
        match self {
            CssProperty::StrokeMiterlimit => 700,
            CssProperty::StrokeOpacity => 701,
            CssProperty::StrokeOrigin => 702,
            CssProperty::StrokePosition => 703,
            CssProperty::StrokeRepeat => 704,
            CssProperty::StrokeSize => 705,
            CssProperty::StrokeWidth => 706,
            CssProperty::TabSize => 707,
            CssProperty::TableLayout => 708,
            CssProperty::TextAlign => 709,
            CssProperty::TextAlignAll => 710,
            CssProperty::TextAlignLast => 711,
            CssProperty::TextAnchor => 712,
            CssProperty::TextAutospace => 713,
            CssProperty::TextBox => 714,
            CssProperty::TextBoxEdge => 715,
            CssProperty::TextBoxTrim => 716,
            CssProperty::TextCombineUpright => 717,
            CssProperty::TextDecoration => 718,
            CssProperty::TextDecorationColor => 719,
            CssProperty::TextDecorationInset => 720,
            CssProperty::TextDecorationLine => 721,
            CssProperty::TextDecorationSkip => 722,
            CssProperty::TextDecorationSkipBox => 723,
            CssProperty::TextDecorationSkipInk => 724,
            CssProperty::TextDecorationSkipSelf => 725,
            CssProperty::TextDecorationSkipSpaces => 726,
            CssProperty::TextDecorationStyle => 727,
            CssProperty::TextDecorationThickness => 728,
            CssProperty::TextEmphasis => 729,
            CssProperty::TextEmphasisColor => 730,
            CssProperty::TextEmphasisPosition => 731,
            CssProperty::TextEmphasisSkip => 732,
            CssProperty::TextEmphasisStyle => 733,
            CssProperty::TextFit => 734,
            CssProperty::TextGroupAlign => 735,
            CssProperty::TextIndent => 736,
            CssProperty::TextJustify => 737,
            CssProperty::TextOrientation => 738,
            CssProperty::TextOverflow => 739,
            CssProperty::TextRendering => 740,
            CssProperty::TextShadow => 741,
            CssProperty::TextSizeAdjust => 742,
            CssProperty::TextSpacing => 743,
            CssProperty::TextSpacingTrim => 744,
            CssProperty::TextTransform => 745,
            CssProperty::TextUnderlineOffset => 746,
            CssProperty::TextUnderlinePosition => 747,
            CssProperty::TextWrap => 748,
            CssProperty::TextWrapMode => 749,
            CssProperty::TextWrapStyle => 750,
            CssProperty::TimelineScope => 751,
            CssProperty::TimelineTrigger => 752,
            CssProperty::TimelineTriggerActivationRange => 753,
            CssProperty::TimelineTriggerActivationRangeEnd => 754,
            CssProperty::TimelineTriggerActivationRangeStart => 755,
            CssProperty::TimelineTriggerActiveRange => 756,
            CssProperty::TimelineTriggerActiveRangeEnd => 757,
            CssProperty::TimelineTriggerActiveRangeStart => 758,
            CssProperty::TimelineTriggerName => 759,
            CssProperty::TimelineTriggerSource => 760,
            CssProperty::Top => 761,
            CssProperty::TouchAction => 762,
            CssProperty::Transform => 763,
            CssProperty::TransformBox => 764,
            CssProperty::TransformOrigin => 765,
            CssProperty::TransformStyle => 766,
            CssProperty::Transition => 767,
            CssProperty::TransitionBehavior => 768,
            CssProperty::TransitionDelay => 769,
            CssProperty::TransitionDuration => 770,
            CssProperty::TransitionProperty => 771,
            CssProperty::TransitionTimingFunction => 772,
            CssProperty::Translate => 773,
            CssProperty::TriggerScope => 774,
            CssProperty::UnicodeBidi => 775,
            CssProperty::UserSelect => 776,
            CssProperty::VectorEffect => 777,
            CssProperty::VerticalAlign => 778,
            CssProperty::ViewTimeline => 779,
            CssProperty::ViewTimelineAxis => 780,
            CssProperty::ViewTimelineInset => 781,
            CssProperty::ViewTimelineName => 782,
            CssProperty::ViewTransitionClass => 783,
            CssProperty::ViewTransitionGroup => 784,
            CssProperty::ViewTransitionName => 785,
            CssProperty::ViewTransitionScope => 786,
            CssProperty::Visibility => 787,
            CssProperty::VoiceBalance => 788,
            CssProperty::VoiceDuration => 789,
            CssProperty::VoiceFamily => 790,
            CssProperty::VoicePitch => 791,
            CssProperty::VoiceRange => 792,
            CssProperty::VoiceRate => 793,
            CssProperty::VoiceStress => 794,
            CssProperty::VoiceVolume => 795,
            CssProperty::WhiteSpace => 796,
            CssProperty::WhiteSpaceCollapse => 797,
            CssProperty::WhiteSpaceTrim => 798,
            CssProperty::Widows => 799,
            _ => self.ordinal_from_800(),
        }
    }

    /// `ordinal` for the values from the 800-th on.
    pub open spec fn ordinal_from_800(&self) -> int {
        match self {
            CssProperty::Width => 800,
            CssProperty::WillChange => 801,
            CssProperty::WordBreak => 802,
            CssProperty::WordSpaceTransform => 803,
            CssProperty::WordSpacing => 804,
            CssProperty::WordWrap => 805,
            CssProperty::WrapAfter => 806,
            CssProperty::WrapBefore => 807,
            CssProperty::WrapFlow => 808,
            CssProperty::WrapInside => 809,
            CssProperty::WrapThrough => 810,
            CssProperty::WritingMode => 811,
            CssProperty::X => 812,
            CssProperty::Y => 813,
            CssProperty::ZIndex => 814,
            CssProperty::Zoom => 815,
            CssProperty::Unknown(_) => 816,
            _ => 816,
        }
    }

    fn clone_part_0(&self) -> (r: Self)
        ensures
            r == *self,
    {
        match self {
            CssProperty::WebkitAlignContent => CssProperty::WebkitAlignContent,
            CssProperty::WebkitAlignItems => CssProperty::WebkitAlignItems,
            CssProperty::WebkitAlignSelf => CssProperty::WebkitAlignSelf,
            CssProperty::WebkitAnimation => CssProperty::WebkitAnimation,
            CssProperty::WebkitAnimationDelay => CssProperty::WebkitAnimationDelay,
            CssProperty::WebkitAnimationDirection => CssProperty::WebkitAnimationDirection,
            CssProperty::WebkitAnimationDuration => CssProperty::WebkitAnimationDuration,
            CssProperty::WebkitAnimationFillMode => CssProperty::WebkitAnimationFillMode,
            CssProperty::WebkitAnimationIterationCount => CssProperty::WebkitAnimationIterationCount,
            CssProperty::WebkitAnimationName => CssProperty::WebkitAnimationName,
            CssProperty::WebkitAnimationPlayState => CssProperty::WebkitAnimationPlayState,
            CssProperty::WebkitAnimationTimingFunction => CssProperty::WebkitAnimationTimingFunction,
            CssProperty::WebkitAppearance => CssProperty::WebkitAppearance,
            CssProperty::WebkitBackfaceVisibility => CssProperty::WebkitBackfaceVisibility,
            CssProperty::WebkitBackgroundClip => CssProperty::WebkitBackgroundClip,
            CssProperty::WebkitBackgroundOrigin => CssProperty::WebkitBackgroundOrigin,
            CssProperty::WebkitBackgroundSize => CssProperty::WebkitBackgroundSize,
            CssProperty::WebkitBorderBottomLeftRadius => CssProperty::WebkitBorderBottomLeftRadius,
            CssProperty::WebkitBorderBottomRightRadius => CssProperty::WebkitBorderBottomRightRadius,
            CssProperty::WebkitBorderRadius => CssProperty::WebkitBorderRadius,
            CssProperty::WebkitBorderTopLeftRadius => CssProperty::WebkitBorderTopLeftRadius,
            CssProperty::WebkitBorderTopRightRadius => CssProperty::WebkitBorderTopRightRadius,
            CssProperty::WebkitBoxAlign => CssProperty::WebkitBoxAlign,
            CssProperty::WebkitBoxFlex => CssProperty::WebkitBoxFlex,
            CssProperty::WebkitBoxOrdinalGroup => CssProperty::WebkitBoxOrdinalGroup,
            CssProperty::WebkitBoxOrient => CssProperty::WebkitBoxOrient,
            CssProperty::WebkitBoxPack => CssProperty::WebkitBoxPack,
            CssProperty::WebkitBoxShadow => CssProperty::WebkitBoxShadow,
            CssProperty::WebkitBoxSizing => CssProperty::WebkitBoxSizing,
            CssProperty::WebkitFilter => CssProperty::WebkitFilter,
            CssProperty::WebkitFlex => CssProperty::WebkitFlex,
            CssProperty::WebkitFlexBasis => CssProperty::WebkitFlexBasis,
            CssProperty::WebkitFlexDirection => CssProperty::WebkitFlexDirection,
            CssProperty::WebkitFlexFlow => CssProperty::WebkitFlexFlow,
            CssProperty::WebkitFlexGrow => CssProperty::WebkitFlexGrow,
            CssProperty::WebkitFlexShrink => CssProperty::WebkitFlexShrink,
            CssProperty::WebkitFlexWrap => CssProperty::WebkitFlexWrap,
            CssProperty::WebkitJustifyContent => CssProperty::WebkitJustifyContent,
            CssProperty::WebkitLineClamp => CssProperty::WebkitLineClamp,
            CssProperty::WebkitMask => CssProperty::WebkitMask,
            CssProperty::WebkitMaskBoxImage => CssProperty::WebkitMaskBoxImage,
            CssProperty::WebkitMaskBoxImageOutset => CssProperty::WebkitMaskBoxImageOutset,
            CssProperty::WebkitMaskBoxImageRepeat => CssProperty::WebkitMaskBoxImageRepeat,
            CssProperty::WebkitMaskBoxImageSlice => CssProperty::WebkitMaskBoxImageSlice,
            CssProperty::WebkitMaskBoxImageSource => CssProperty::WebkitMaskBoxImageSource,
            CssProperty::WebkitMaskBoxImageWidth => CssProperty::WebkitMaskBoxImageWidth,
            CssProperty::WebkitMaskClip => CssProperty::WebkitMaskClip,
            CssProperty::WebkitMaskComposite => CssProperty::WebkitMaskComposite,
            CssProperty::WebkitMaskImage => CssProperty::WebkitMaskImage,
            CssProperty::WebkitMaskOrigin => CssProperty::WebkitMaskOrigin,
            CssProperty::WebkitMaskPosition => CssProperty::WebkitMaskPosition,
            CssProperty::WebkitMaskRepeat => CssProperty::WebkitMaskRepeat,
            CssProperty::WebkitMaskSize => CssProperty::WebkitMaskSize,
            CssProperty::WebkitOrder => CssProperty::WebkitOrder,
            CssProperty::WebkitPerspective => CssProperty::WebkitPerspective,
            CssProperty::WebkitPerspectiveOrigin => CssProperty::WebkitPerspectiveOrigin,
            CssProperty::WebkitTextFillColor => CssProperty::WebkitTextFillColor,
            CssProperty::WebkitTextSizeAdjust => CssProperty::WebkitTextSizeAdjust,
            CssProperty::WebkitTextStroke => CssProperty::WebkitTextStroke,
            CssProperty::WebkitTextStrokeColor => CssProperty::WebkitTextStrokeColor,
            CssProperty::WebkitTextStrokeWidth => CssProperty::WebkitTextStrokeWidth,
            CssProperty::WebkitTransform => CssProperty::WebkitTransform,
            CssProperty::WebkitTransformOrigin => CssProperty::WebkitTransformOrigin,
            CssProperty::WebkitTransformStyle => CssProperty::WebkitTransformStyle,
            CssProperty::WebkitTransition => CssProperty::WebkitTransition,
            CssProperty::WebkitTransitionDelay => CssProperty::WebkitTransitionDelay,
            CssProperty::WebkitTransitionDuration => CssProperty::WebkitTransitionDuration,
            CssProperty::WebkitTransitionProperty => CssProperty::WebkitTransitionProperty,
            CssProperty::WebkitTransitionTimingFunction => CssProperty::WebkitTransitionTimingFunction,
            CssProperty::WebkitUserSelect => CssProperty::WebkitUserSelect,
            CssProperty::AccentColor => CssProperty::AccentColor,
            CssProperty::AlignContent => CssProperty::AlignContent,
            CssProperty::AlignItems => CssProperty::AlignItems,
            CssProperty::AlignSelf => CssProperty::AlignSelf,
            CssProperty::AlignmentBaseline => CssProperty::AlignmentBaseline,
            CssProperty::All => CssProperty::All,
            CssProperty::AnchorName => CssProperty::AnchorName,
            CssProperty::AnchorScope => CssProperty::AnchorScope,
            CssProperty::Animation => CssProperty::Animation,
            CssProperty::AnimationComposition => CssProperty::AnimationComposition,
            CssProperty::AnimationDelay => CssProperty::AnimationDelay,
            CssProperty::AnimationDirection => CssProperty::AnimationDirection,
            CssProperty::AnimationDuration => CssProperty::AnimationDuration,
            CssProperty::AnimationFillMode => CssProperty::AnimationFillMode,
            CssProperty::AnimationIterationCount => CssProperty::AnimationIterationCount,
            CssProperty::AnimationName => CssProperty::AnimationName,
            CssProperty::AnimationPlayState => CssProperty::AnimationPlayState,
            CssProperty::AnimationRange => CssProperty::AnimationRange,
            CssProperty::AnimationRangeCenter => CssProperty::AnimationRangeCenter,
            CssProperty::AnimationRangeEnd => CssProperty::AnimationRangeEnd,
            CssProperty::AnimationRangeStart => CssProperty::AnimationRangeStart,
            CssProperty::AnimationTimeline => CssProperty::AnimationTimeline,
            CssProperty::AnimationTimingFunction => CssProperty::AnimationTimingFunction,
            CssProperty::AnimationTrigger => CssProperty::AnimationTrigger,
            CssProperty::Appearance => CssProperty::Appearance,
            CssProperty::AspectRatio => CssProperty::AspectRatio,
            CssProperty::BackdropFilter => CssProperty::BackdropFilter,
            CssProperty::BackfaceVisibility => CssProperty::BackfaceVisibility,
            CssProperty::Background => CssProperty::Background,
            CssProperty::BackgroundAttachment => CssProperty::BackgroundAttachment,
            _ => self.clone_part_1(),
        }
    }

    fn clone_part_1(&self) -> (r: Self)
        requires
            self.ordinal() >= 100,
        ensures
            r == *self,
    {
        match self {
            CssProperty::BackgroundBlendMode => CssProperty::BackgroundBlendMode,
            CssProperty::BackgroundClip => CssProperty::BackgroundClip,
            CssProperty::BackgroundColor => CssProperty::BackgroundColor,
            CssProperty::BackgroundImage => CssProperty::BackgroundImage,
            CssProperty::BackgroundOrigin => CssProperty::BackgroundOrigin,
            CssProperty::BackgroundPosition => CssProperty::BackgroundPosition,
            CssProperty::BackgroundPositionBlock => CssProperty::BackgroundPositionBlock,
            CssProperty::BackgroundPositionInline => CssProperty::BackgroundPositionInline,
            CssProperty::BackgroundPositionX => CssProperty::BackgroundPositionX,
            CssProperty::BackgroundPositionY => CssProperty::BackgroundPositionY,
            CssProperty::BackgroundRepeat => CssProperty::BackgroundRepeat,
            CssProperty::BackgroundRepeatBlock => CssProperty::BackgroundRepeatBlock,
            CssProperty::BackgroundRepeatInline => CssProperty::BackgroundRepeatInline,
            CssProperty::BackgroundRepeatX => CssProperty::BackgroundRepeatX,
            CssProperty::BackgroundRepeatY => CssProperty::BackgroundRepeatY,
            CssProperty::BackgroundSize => CssProperty::BackgroundSize,
            CssProperty::BackgroundTbd => CssProperty::BackgroundTbd,
            CssProperty::BaselineShift => CssProperty::BaselineShift,
            CssProperty::BaselineSource => CssProperty::BaselineSource,
            CssProperty::BlockEllipsis => CssProperty::BlockEllipsis,
            CssProperty::BlockSize => CssProperty::BlockSize,
            CssProperty::BlockStep => CssProperty::BlockStep,
            CssProperty::BlockStepAlign => CssProperty::BlockStepAlign,
            CssProperty::BlockStepInsert => CssProperty::BlockStepInsert,
            CssProperty::BlockStepRound => CssProperty::BlockStepRound,
            CssProperty::BlockStepSize => CssProperty::BlockStepSize,
            CssProperty::BookmarkLabel => CssProperty::BookmarkLabel,
            CssProperty::BookmarkLevel => CssProperty::BookmarkLevel,
            CssProperty::BookmarkState => CssProperty::BookmarkState,
            CssProperty::Border => CssProperty::Border,
            CssProperty::BorderBlock => CssProperty::BorderBlock,
            CssProperty::BorderBlockClip => CssProperty::BorderBlockClip,
            CssProperty::BorderBlockColor => CssProperty::BorderBlockColor,
            CssProperty::BorderBlockEnd => CssProperty::BorderBlockEnd,
            CssProperty::BorderBlockEndClip => CssProperty::BorderBlockEndClip,
            CssProperty::BorderBlockEndColor => CssProperty::BorderBlockEndColor,
            CssProperty::BorderBlockEndRadius => CssProperty::BorderBlockEndRadius,
            CssProperty::BorderBlockEndStyle => CssProperty::BorderBlockEndStyle,
            CssProperty::BorderBlockEndWidth => CssProperty::BorderBlockEndWidth,
            CssProperty::BorderBlockStart => CssProperty::BorderBlockStart,
            CssProperty::BorderBlockStartClip => CssProperty::BorderBlockStartClip,
            CssProperty::BorderBlockStartColor => CssProperty::BorderBlockStartColor,
            CssProperty::BorderBlockStartRadius => CssProperty::BorderBlockStartRadius,
            CssProperty::BorderBlockStartStyle => CssProperty::BorderBlockStartStyle,
            CssProperty::BorderBlockStartWidth => CssProperty::BorderBlockStartWidth,
            CssProperty::BorderBlockStyle => CssProperty::BorderBlockStyle,
            CssProperty::BorderBlockWidth => CssProperty::BorderBlockWidth,
            CssProperty::BorderBottom => CssProperty::BorderBottom,
            CssProperty::BorderBottomClip => CssProperty::BorderBottomClip,
            CssProperty::BorderBottomColor => CssProperty::BorderBottomColor,
            CssProperty::BorderBottomLeftRadius => CssProperty::BorderBottomLeftRadius,
            CssProperty::BorderBottomRadius => CssProperty::BorderBottomRadius,
            CssProperty::BorderBottomRightRadius => CssProperty::BorderBottomRightRadius,
            CssProperty::BorderBottomStyle => CssProperty::BorderBottomStyle,
            CssProperty::BorderBottomWidth => CssProperty::BorderBottomWidth,
            CssProperty::BorderBoundary => CssProperty::BorderBoundary,
            CssProperty::BorderClip => CssProperty::BorderClip,
            CssProperty::BorderCollapse => CssProperty::BorderCollapse,
            CssProperty::BorderColor => CssProperty::BorderColor,
            CssProperty::BorderEndEndRadius => CssProperty::BorderEndEndRadius,
            CssProperty::BorderEndStartRadius => CssProperty::BorderEndStartRadius,
            CssProperty::BorderImage => CssProperty::BorderImage,
            CssProperty::BorderImageOutset => CssProperty::BorderImageOutset,
            CssProperty::BorderImageRepeat => CssProperty::BorderImageRepeat,
            CssProperty::BorderImageSlice => CssProperty::BorderImageSlice,
            CssProperty::BorderImageSource => CssProperty::BorderImageSource,
            CssProperty::BorderImageWidth => CssProperty::BorderImageWidth,
            CssProperty::BorderInline => CssProperty::BorderInline,
            CssProperty::BorderInlineClip => CssProperty::BorderInlineClip,
            CssProperty::BorderInlineColor => CssProperty::BorderInlineColor,
            CssProperty::BorderInlineEnd => CssProperty::BorderInlineEnd,
            CssProperty::BorderInlineEndClip => CssProperty::BorderInlineEndClip,
            CssProperty::BorderInlineEndColor => CssProperty::BorderInlineEndColor,
            CssProperty::BorderInlineEndRadius => CssProperty::BorderInlineEndRadius,
            CssProperty::BorderInlineEndStyle => CssProperty::BorderInlineEndStyle,
            CssProperty::BorderInlineEndWidth => CssProperty::BorderInlineEndWidth,
            CssProperty::BorderInlineStart => CssProperty::BorderInlineStart,
            CssProperty::BorderInlineStartClip => CssProperty::BorderInlineStartClip,
            CssProperty::BorderInlineStartColor => CssProperty::BorderInlineStartColor,
            CssProperty::BorderInlineStartRadius => CssProperty::BorderInlineStartRadius,
            CssProperty::BorderInlineStartStyle => CssProperty::BorderInlineStartStyle,
            CssProperty::BorderInlineStartWidth => CssProperty::BorderInlineStartWidth,
            CssProperty::BorderInlineStyle => CssProperty::BorderInlineStyle,
            CssProperty::BorderInlineWidth => CssProperty::BorderInlineWidth,
            CssProperty::BorderLeft => CssProperty::BorderLeft,
            CssProperty::BorderLeftClip => CssProperty::BorderLeftClip,
            CssProperty::BorderLeftColor => CssProperty::BorderLeftColor,
            CssProperty::BorderLeftRadius => CssProperty::BorderLeftRadius,
            CssProperty::BorderLeftStyle => CssProperty::BorderLeftStyle,
            CssProperty::BorderLeftWidth => CssProperty::BorderLeftWidth,
            CssProperty::BorderLimit => CssProperty::BorderLimit,
            CssProperty::BorderRadius => CssProperty::BorderRadius,
            CssProperty::BorderRight => CssProperty::BorderRight,
            CssProperty::BorderRightClip => CssProperty::BorderRightClip,
            CssProperty::BorderRightColor => CssProperty::BorderRightColor,
            CssProperty::BorderRightRadius => CssProperty::BorderRightRadius,
            CssProperty::BorderRightStyle => CssProperty::BorderRightStyle,
            CssProperty::BorderRightWidth => CssProperty::BorderRightWidth,
            CssProperty::BorderShape => CssProperty::BorderShape,
            CssProperty::BorderSpacing => CssProperty::BorderSpacing,
            _ => self.clone_part_2(),
        }
    }

    fn clone_part_2(&self) -> (r: Self)
        requires
            self.ordinal() >= 200,
        ensures
            r == *self,
    {
        match self {
            CssProperty::BorderStartEndRadius => CssProperty::BorderStartEndRadius,
            CssProperty::BorderStartStartRadius => CssProperty::BorderStartStartRadius,
            CssProperty::BorderStyle => CssProperty::BorderStyle,
            CssProperty::BorderTop => CssProperty::BorderTop,
            CssProperty::BorderTopClip => CssProperty::BorderTopClip,
            CssProperty::BorderTopColor => CssProperty::BorderTopColor,
            CssProperty::BorderTopLeftRadius => CssProperty::BorderTopLeftRadius,
            CssProperty::BorderTopRadius => CssProperty::BorderTopRadius,
            CssProperty::BorderTopRightRadius => CssProperty::BorderTopRightRadius,
            CssProperty::BorderTopStyle => CssProperty::BorderTopStyle,
            CssProperty::BorderTopWidth => CssProperty::BorderTopWidth,
            CssProperty::BorderWidth => CssProperty::BorderWidth,
            CssProperty::Bottom => CssProperty::Bottom,
            CssProperty::BoxDecorationBreak => CssProperty::BoxDecorationBreak,
            CssProperty::BoxShadow => CssProperty::BoxShadow,
            CssProperty::BoxShadowBlur => CssProperty::BoxShadowBlur,
            CssProperty::BoxShadowColor => CssProperty::BoxShadowColor,
            CssProperty::BoxShadowOffset => CssProperty::BoxShadowOffset,
            CssProperty::BoxShadowPosition => CssProperty::BoxShadowPosition,
            CssProperty::BoxShadowSpread => CssProperty::BoxShadowSpread,
            CssProperty::BoxSizing => CssProperty::BoxSizing,
            CssProperty::BoxSnap => CssProperty::BoxSnap,
            CssProperty::BreakAfter => CssProperty::BreakAfter,
            CssProperty::BreakBefore => CssProperty::BreakBefore,
            CssProperty::BreakInside => CssProperty::BreakInside,
            CssProperty::CaptionSide => CssProperty::CaptionSide,
            CssProperty::Caret => CssProperty::Caret,
            CssProperty::CaretAnimation => CssProperty::CaretAnimation,
            CssProperty::CaretColor => CssProperty::CaretColor,
            CssProperty::CaretShape => CssProperty::CaretShape,
            CssProperty::Clear => CssProperty::Clear,
            CssProperty::Clip => CssProperty::Clip,
            CssProperty::ClipPath => CssProperty::ClipPath,
            CssProperty::ClipRule => CssProperty::ClipRule,
            CssProperty::Color => CssProperty::Color,
            CssProperty::ColorAdjust => CssProperty::ColorAdjust,
            CssProperty::ColorInterpolation => CssProperty::ColorInterpolation,
            CssProperty::ColorInterpolationFilters => CssProperty::ColorInterpolationFilters,
            CssProperty::ColorScheme => CssProperty::ColorScheme,
            CssProperty::ColumnCount => CssProperty::ColumnCount,
            CssProperty::ColumnFill => CssProperty::ColumnFill,
            CssProperty::ColumnGap => CssProperty::ColumnGap,
            CssProperty::ColumnHeight => CssProperty::ColumnHeight,
            CssProperty::ColumnRule => CssProperty::ColumnRule,
            CssProperty::ColumnRuleBreak => CssProperty::ColumnRuleBreak,
            CssProperty::ColumnRuleColor => CssProperty::ColumnRuleColor,
            CssProperty::ColumnRuleInset => CssProperty::ColumnRuleInset,
            CssProperty::ColumnRuleInsetCap => CssProperty::ColumnRuleInsetCap,
            CssProperty::ColumnRuleInsetCapEnd => CssProperty::ColumnRuleInsetCapEnd,
            CssProperty::ColumnRuleInsetCapStart => CssProperty::ColumnRuleInsetCapStart,
            CssProperty::ColumnRuleInsetEnd => CssProperty::ColumnRuleInsetEnd,
            CssProperty::ColumnRuleInsetJunction => CssProperty::ColumnRuleInsetJunction,
            CssProperty::ColumnRuleInsetJunctionEnd => CssProperty::ColumnRuleInsetJunctionEnd,
            CssProperty::ColumnRuleInsetJunctionStart => CssProperty::ColumnRuleInsetJunctionStart,
            CssProperty::ColumnRuleInsetStart => CssProperty::ColumnRuleInsetStart,
            CssProperty::ColumnRuleStyle => CssProperty::ColumnRuleStyle,
            CssProperty::ColumnRuleVisibilityItems => CssProperty::ColumnRuleVisibilityItems,
            CssProperty::ColumnRuleWidth => CssProperty::ColumnRuleWidth,
            CssProperty::ColumnSpan => CssProperty::ColumnSpan,
            CssProperty::ColumnWidth => CssProperty::ColumnWidth,
            CssProperty::ColumnWrap => CssProperty::ColumnWrap,
            CssProperty::Columns => CssProperty::Columns,
            CssProperty::Contain => CssProperty::Contain,
            CssProperty::ContainIntrinsicBlockSize => CssProperty::ContainIntrinsicBlockSize,
            CssProperty::ContainIntrinsicHeight => CssProperty::ContainIntrinsicHeight,
            CssProperty::ContainIntrinsicInlineSize => CssProperty::ContainIntrinsicInlineSize,
            CssProperty::ContainIntrinsicSize => CssProperty::ContainIntrinsicSize,
            CssProperty::ContainIntrinsicWidth => CssProperty::ContainIntrinsicWidth,
            CssProperty::Container => CssProperty::Container,
            CssProperty::ContainerName => CssProperty::ContainerName,
            CssProperty::ContainerType => CssProperty::ContainerType,
            CssProperty::Content => CssProperty::Content,
            CssProperty::ContentVisibility => CssProperty::ContentVisibility,
            CssProperty::Continue => CssProperty::Continue,
            CssProperty::CopyInto => CssProperty::CopyInto,
            CssProperty::Corner => CssProperty::Corner,
            CssProperty::CornerBlockEnd => CssProperty::CornerBlockEnd,
            CssProperty::CornerBlockEndShape => CssProperty::CornerBlockEndShape,
            CssProperty::CornerBlockStart => CssProperty::CornerBlockStart,
            CssProperty::CornerBlockStartShape => CssProperty::CornerBlockStartShape,
            CssProperty::CornerBottom => CssProperty::CornerBottom,
            CssProperty::CornerBottomLeft => CssProperty::CornerBottomLeft,
            CssProperty::CornerBottomLeftShape => CssProperty::CornerBottomLeftShape,
            CssProperty::CornerBottomRight => CssProperty::CornerBottomRight,
            CssProperty::CornerBottomRightShape => CssProperty::CornerBottomRightShape,
            CssProperty::CornerBottomShape => CssProperty::CornerBottomShape,
            CssProperty::CornerEndEnd => CssProperty::CornerEndEnd,
            CssProperty::CornerEndEndShape => CssProperty::CornerEndEndShape,
            CssProperty::CornerEndStart => CssProperty::CornerEndStart,
            CssProperty::CornerEndStartShape => CssProperty::CornerEndStartShape,
            CssProperty::CornerInlineEnd => CssProperty::CornerInlineEnd,
            CssProperty::CornerInlineEndShape => CssProperty::CornerInlineEndShape,
            CssProperty::CornerInlineStart => CssProperty::CornerInlineStart,
            CssProperty::CornerInlineStartShape => CssProperty::CornerInlineStartShape,
            CssProperty::CornerLeft => CssProperty::CornerLeft,
            CssProperty::CornerLeftShape => CssProperty::CornerLeftShape,
            CssProperty::CornerRight => CssProperty::CornerRight,
            CssProperty::CornerRightShape => CssProperty::CornerRightShape,
            CssProperty::CornerShape => CssProperty::CornerShape,
            CssProperty::CornerStartEnd => CssProperty::CornerStartEnd,
            _ => self.clone_part_3(),
        }
    }

    fn clone_part_3(&self) -> (r: Self)
        requires
            self.ordinal() >= 300,
        ensures
            r == *self,
    {
        match self {
            CssProperty::CornerStartEndShape => CssProperty::CornerStartEndShape,
            CssProperty::CornerStartStart => CssProperty::CornerStartStart,
            CssProperty::CornerStartStartShape => CssProperty::CornerStartStartShape,
            CssProperty::CornerTop => CssProperty::CornerTop,
            CssProperty::CornerTopLeft => CssProperty::CornerTopLeft,
            CssProperty::CornerTopLeftShape => CssProperty::CornerTopLeftShape,
            CssProperty::CornerTopRight => CssProperty::CornerTopRight,
            CssProperty::CornerTopRightShape => CssProperty::CornerTopRightShape,
            CssProperty::CornerTopShape => CssProperty::CornerTopShape,
            CssProperty::CounterIncrement => CssProperty::CounterIncrement,
            CssProperty::CounterReset => CssProperty::CounterReset,
            CssProperty::CounterSet => CssProperty::CounterSet,
            CssProperty::Cue => CssProperty::Cue,
            CssProperty::CueAfter => CssProperty::CueAfter,
            CssProperty::CueBefore => CssProperty::CueBefore,
            CssProperty::Cursor => CssProperty::Cursor,
            CssProperty::Cx => CssProperty::Cx,
            CssProperty::Cy => CssProperty::Cy,
            CssProperty::D => CssProperty::D,
            CssProperty::Direction => CssProperty::Direction,
            CssProperty::Display => CssProperty::Display,
            CssProperty::DominantBaseline => CssProperty::DominantBaseline,
            CssProperty::DynamicRangeLimit => CssProperty::DynamicRangeLimit,
            CssProperty::EmptyCells => CssProperty::EmptyCells,
            CssProperty::EventTrigger => CssProperty::EventTrigger,
            CssProperty::EventTriggerName => CssProperty::EventTriggerName,
            CssProperty::EventTriggerSource => CssProperty::EventTriggerSource,
            CssProperty::FieldSizing => CssProperty::FieldSizing,
            CssProperty::Fill => CssProperty::Fill,
            CssProperty::FillBreak => CssProperty::FillBreak,
            CssProperty::FillColor => CssProperty::FillColor,
            CssProperty::FillImage => CssProperty::FillImage,
            CssProperty::FillOpacity => CssProperty::FillOpacity,
            CssProperty::FillOrigin => CssProperty::FillOrigin,
            CssProperty::FillPosition => CssProperty::FillPosition,
            CssProperty::FillRepeat => CssProperty::FillRepeat,
            CssProperty::FillRule => CssProperty::FillRule,
            CssProperty::FillSize => CssProperty::FillSize,
            CssProperty::Filter => CssProperty::Filter,
            CssProperty::Flex => CssProperty::Flex,
            CssProperty::FlexBasis => CssProperty::FlexBasis,
            CssProperty::FlexDirection => CssProperty::FlexDirection,
            CssProperty::FlexFlow => CssProperty::FlexFlow,
            CssProperty::FlexGrow => CssProperty::FlexGrow,
            CssProperty::FlexShrink => CssProperty::FlexShrink,
            CssProperty::FlexWrap => CssProperty::FlexWrap,
            CssProperty::Float => CssProperty::Float,
            CssProperty::FloatDefer => CssProperty::FloatDefer,
            CssProperty::FloatOffset => CssProperty::FloatOffset,
            CssProperty::FloatReference => CssProperty::FloatReference,
            CssProperty::FloodColor => CssProperty::FloodColor,
            CssProperty::FloodOpacity => CssProperty::FloodOpacity,
            CssProperty::FlowFrom => CssProperty::FlowFrom,
            CssProperty::FlowInto => CssProperty::FlowInto,
            CssProperty::FlowTolerance => CssProperty::FlowTolerance,
            CssProperty::Font => CssProperty::Font,
            CssProperty::FontFamily => CssProperty::FontFamily,
            CssProperty::FontFeatureSettings => CssProperty::FontFeatureSettings,
            CssProperty::FontKerning => CssProperty::FontKerning,
            CssProperty::FontLanguageOverride => CssProperty::FontLanguageOverride,
            CssProperty::FontOpticalSizing => CssProperty::FontOpticalSizing,
            CssProperty::FontPalette => CssProperty::FontPalette,
            CssProperty::FontSize => CssProperty::FontSize,
            CssProperty::FontSizeAdjust => CssProperty::FontSizeAdjust,
            CssProperty::FontStretch => CssProperty::FontStretch,
            CssProperty::FontStyle => CssProperty::FontStyle,
            CssProperty::FontSynthesis => CssProperty::FontSynthesis,
            CssProperty::FontSynthesisPosition => CssProperty::FontSynthesisPosition,
            CssProperty::FontSynthesisSmallCaps => CssProperty::FontSynthesisSmallCaps,
            CssProperty::FontSynthesisStyle => CssProperty::FontSynthesisStyle,
            CssProperty::FontSynthesisWeight => CssProperty::FontSynthesisWeight,
            CssProperty::FontVariant => CssProperty::FontVariant,
            CssProperty::FontVariantAlternates => CssProperty::FontVariantAlternates,
            CssProperty::FontVariantCaps => CssProperty::FontVariantCaps,
            CssProperty::FontVariantEastAsian => CssProperty::FontVariantEastAsian,
            CssProperty::FontVariantEmoji => CssProperty::FontVariantEmoji,
            CssProperty::FontVariantLigatures => CssProperty::FontVariantLigatures,
            CssProperty::FontVariantNumeric => CssProperty::FontVariantNumeric,
            CssProperty::FontVariantPosition => CssProperty::FontVariantPosition,
            CssProperty::FontVariationSettings => CssProperty::FontVariationSettings,
            CssProperty::FontWeight => CssProperty::FontWeight,
            CssProperty::FontWidth => CssProperty::FontWidth,
            CssProperty::FootnoteDisplay => CssProperty::FootnoteDisplay,
            CssProperty::FootnotePolicy => CssProperty::FootnotePolicy,
            CssProperty::ForcedColorAdjust => CssProperty::ForcedColorAdjust,
            CssProperty::FrameSizing => CssProperty::FrameSizing,
            CssProperty::Gap => CssProperty::Gap,
            CssProperty::GlyphOrientationVertical => CssProperty::GlyphOrientationVertical,
            CssProperty::Grid => CssProperty::Grid,
            CssProperty::GridArea => CssProperty::GridArea,
            CssProperty::GridAutoColumns => CssProperty::GridAutoColumns,
            CssProperty::GridAutoFlow => CssProperty::GridAutoFlow,
            CssProperty::GridAutoRows => CssProperty::GridAutoRows,
            CssProperty::GridColumn => CssProperty::GridColumn,
            CssProperty::GridColumnEnd => CssProperty::GridColumnEnd,
            CssProperty::GridColumnGap => CssProperty::GridColumnGap,
            CssProperty::GridColumnStart => CssProperty::GridColumnStart,
            CssProperty::GridGap => CssProperty::GridGap,
            CssProperty::GridRow => CssProperty::GridRow,
            CssProperty::GridRowEnd => CssProperty::GridRowEnd,
            _ => self.clone_part_4(),
        }
    }

    fn clone_part_4(&self) -> (r: Self)
        requires
            self.ordinal() >= 400,
        ensures
            r == *self,
    {
        match self {
            CssProperty::GridRowGap => CssProperty::GridRowGap,
            CssProperty::GridRowStart => CssProperty::GridRowStart,
            CssProperty::GridTemplate => CssProperty::GridTemplate,
            CssProperty::GridTemplateAreas => CssProperty::GridTemplateAreas,
            CssProperty::GridTemplateColumns => CssProperty::GridTemplateColumns,
            CssProperty::GridTemplateRows => CssProperty::GridTemplateRows,
            CssProperty::HangingPunctuation => CssProperty::HangingPunctuation,
            CssProperty::Height => CssProperty::Height,
            CssProperty::HyphenateCharacter => CssProperty::HyphenateCharacter,
            CssProperty::HyphenateLimitChars => CssProperty::HyphenateLimitChars,
            CssProperty::HyphenateLimitLast => CssProperty::HyphenateLimitLast,
            CssProperty::HyphenateLimitLines => CssProperty::HyphenateLimitLines,
            CssProperty::HyphenateLimitZone => CssProperty::HyphenateLimitZone,
            CssProperty::Hyphens => CssProperty::Hyphens,
            CssProperty::ImageAnimation => CssProperty::ImageAnimation,
            CssProperty::ImageOrientation => CssProperty::ImageOrientation,
            CssProperty::ImageRendering => CssProperty::ImageRendering,
            CssProperty::ImageResolution => CssProperty::ImageResolution,
            CssProperty::InitialLetter => CssProperty::InitialLetter,
            CssProperty::InitialLetterAlign => CssProperty::InitialLetterAlign,
            CssProperty::InitialLetterWrap => CssProperty::InitialLetterWrap,
            CssProperty::InlineSize => CssProperty::InlineSize,
            CssProperty::InlineSizing => CssProperty::InlineSizing,
            CssProperty::InputSecurity => CssProperty::InputSecurity,
            CssProperty::Inset => CssProperty::Inset,
            CssProperty::InsetBlock => CssProperty::InsetBlock,
            CssProperty::InsetBlockEnd => CssProperty::InsetBlockEnd,
            CssProperty::InsetBlockStart => CssProperty::InsetBlockStart,
            CssProperty::InsetInline => CssProperty::InsetInline,
            CssProperty::InsetInlineEnd => CssProperty::InsetInlineEnd,
            CssProperty::InsetInlineStart => CssProperty::InsetInlineStart,
            CssProperty::Interactivity => CssProperty::Interactivity,
            CssProperty::InterestDelay => CssProperty::InterestDelay,
            CssProperty::InterestDelayEnd => CssProperty::InterestDelayEnd,
            CssProperty::InterestDelayStart => CssProperty::InterestDelayStart,
            CssProperty::InterpolateSize => CssProperty::InterpolateSize,
            CssProperty::Isolation => CssProperty::Isolation,
            CssProperty::JustifyContent => CssProperty::JustifyContent,
            CssProperty::JustifyItems => CssProperty::JustifyItems,
            CssProperty::JustifySelf => CssProperty::JustifySelf,
            CssProperty::Left => CssProperty::Left,
            CssProperty::LetterSpacing => CssProperty::LetterSpacing,
            CssProperty::LightingColor => CssProperty::LightingColor,
            CssProperty::LineBreak => CssProperty::LineBreak,
            CssProperty::LineClamp => CssProperty::LineClamp,
            CssProperty::LineFitEdge => CssProperty::LineFitEdge,
            CssProperty::LineGrid => CssProperty::LineGrid,
            CssProperty::LineHeight => CssProperty::LineHeight,
            CssProperty::LineHeightStep => CssProperty::LineHeightStep,
            CssProperty::LinePadding => CssProperty::LinePadding,
            CssProperty::LineSnap => CssProperty::LineSnap,
            CssProperty::LinkParameters => CssProperty::LinkParameters,
            CssProperty::ListStyle => CssProperty::ListStyle,
            CssProperty::ListStyleImage => CssProperty::ListStyleImage,
            CssProperty::ListStylePosition => CssProperty::ListStylePosition,
            CssProperty::ListStyleType => CssProperty::ListStyleType,
            CssProperty::Margin => CssProperty::Margin,
            CssProperty::MarginBlock => CssProperty::MarginBlock,
            CssProperty::MarginBlockEnd => CssProperty::MarginBlockEnd,
            CssProperty::MarginBlockStart => CssProperty::MarginBlockStart,
            CssProperty::MarginBottom => CssProperty::MarginBottom,
            CssProperty::MarginBreak => CssProperty::MarginBreak,
            CssProperty::MarginInline => CssProperty::MarginInline,
            CssProperty::MarginInlineEnd => CssProperty::MarginInlineEnd,
            CssProperty::MarginInlineStart => CssProperty::MarginInlineStart,
            CssProperty::MarginLeft => CssProperty::MarginLeft,
            CssProperty::MarginRight => CssProperty::MarginRight,
            CssProperty::MarginTop => CssProperty::MarginTop,
            CssProperty::MarginTrim => CssProperty::MarginTrim,
            CssProperty::Marker => CssProperty::Marker,
            CssProperty::MarkerEnd => CssProperty::MarkerEnd,
            CssProperty::MarkerMid => CssProperty::MarkerMid,
            CssProperty::MarkerSide => CssProperty::MarkerSide,
            CssProperty::MarkerStart => CssProperty::MarkerStart,
            CssProperty::Mask => CssProperty::Mask,
            CssProperty::MaskBorder => CssProperty::MaskBorder,
            CssProperty::MaskBorderMode => CssProperty::MaskBorderMode,
            CssProperty::MaskBorderOutset => CssProperty::MaskBorderOutset,
            CssProperty::MaskBorderRepeat => CssProperty::MaskBorderRepeat,
            CssProperty::MaskBorderSlice => CssProperty::MaskBorderSlice,
            CssProperty::MaskBorderSource => CssProperty::MaskBorderSource,
            CssProperty::MaskBorderWidth => CssProperty::MaskBorderWidth,
            CssProperty::MaskClip => CssProperty::MaskClip,
            CssProperty::MaskComposite => CssProperty::MaskComposite,
            CssProperty::MaskImage => CssProperty::MaskImage,
            CssProperty::MaskMode => CssProperty::MaskMode,
            CssProperty::MaskOrigin => CssProperty::MaskOrigin,
            CssProperty::MaskPosition => CssProperty::MaskPosition,
            CssProperty::MaskRepeat => CssProperty::MaskRepeat,
            CssProperty::MaskSize => CssProperty::MaskSize,
            CssProperty::MaskType => CssProperty::MaskType,
            CssProperty::MathDepth => CssProperty::MathDepth,
            CssProperty::MathShift => CssProperty::MathShift,
            CssProperty::MathStyle => CssProperty::MathStyle,
            CssProperty::MaxBlockSize => CssProperty::MaxBlockSize,
            CssProperty::MaxHeight => CssProperty::MaxHeight,
            CssProperty::MaxInlineSize => CssProperty::MaxInlineSize,
            CssProperty::MaxLines => CssProperty::MaxLines,
            CssProperty::MaxWidth => CssProperty::MaxWidth,
            CssProperty::MinBlockSize => CssProperty::MinBlockSize,
            _ => self.clone_part_5(),
        }
    }

    fn clone_part_5(&self) -> (r: Self)
        requires
            self.ordinal() >= 500,
        ensures
            r == *self,
    {
        match self {
            CssProperty::MinHeight => CssProperty::MinHeight,
            CssProperty::MinInlineSize => CssProperty::MinInlineSize,
            CssProperty::MinIntrinsicSizing => CssProperty::MinIntrinsicSizing,
            CssProperty::MinWidth => CssProperty::MinWidth,
            CssProperty::MixBlendMode => CssProperty::MixBlendMode,
            CssProperty::NavDown => CssProperty::NavDown,
            CssProperty::NavLeft => CssProperty::NavLeft,
            CssProperty::NavRight => CssProperty::NavRight,
            CssProperty::NavUp => CssProperty::NavUp,
            CssProperty::ObjectFit => CssProperty::ObjectFit,
            CssProperty::ObjectPosition => CssProperty::ObjectPosition,
            CssProperty::ObjectViewBox => CssProperty::ObjectViewBox,
            CssProperty::Offset => CssProperty::Offset,
            CssProperty::OffsetAnchor => CssProperty::OffsetAnchor,
            CssProperty::OffsetDistance => CssProperty::OffsetDistance,
            CssProperty::OffsetPath => CssProperty::OffsetPath,
            CssProperty::OffsetPosition => CssProperty::OffsetPosition,
            CssProperty::OffsetRotate => CssProperty::OffsetRotate,
            CssProperty::Opacity => CssProperty::Opacity,
            CssProperty::Order => CssProperty::Order,
            CssProperty::Orphans => CssProperty::Orphans,
            CssProperty::Outline => CssProperty::Outline,
            CssProperty::OutlineColor => CssProperty::OutlineColor,
            CssProperty::OutlineOffset => CssProperty::OutlineOffset,
            CssProperty::OutlineStyle => CssProperty::OutlineStyle,
            CssProperty::OutlineWidth => CssProperty::OutlineWidth,
            CssProperty::Overflow => CssProperty::Overflow,
            CssProperty::OverflowAnchor => CssProperty::OverflowAnchor,
            CssProperty::OverflowBlock => CssProperty::OverflowBlock,
            CssProperty::OverflowClipMargin => CssProperty::OverflowClipMargin,
            CssProperty::OverflowClipMarginBlock => CssProperty::OverflowClipMarginBlock,
            CssProperty::OverflowClipMarginBlockEnd => CssProperty::OverflowClipMarginBlockEnd,
            CssProperty::OverflowClipMarginBlockStart => CssProperty::OverflowClipMarginBlockStart,
            CssProperty::OverflowClipMarginBottom => CssProperty::OverflowClipMarginBottom,
            CssProperty::OverflowClipMarginInline => CssProperty::OverflowClipMarginInline,
            CssProperty::OverflowClipMarginInlineEnd => CssProperty::OverflowClipMarginInlineEnd,
            CssProperty::OverflowClipMarginInlineStart => CssProperty::OverflowClipMarginInlineStart,
            CssProperty::OverflowClipMarginLeft => CssProperty::OverflowClipMarginLeft,
            CssProperty::OverflowClipMarginRight => CssProperty::OverflowClipMarginRight,
            CssProperty::OverflowClipMarginTop => CssProperty::OverflowClipMarginTop,
            CssProperty::OverflowInline => CssProperty::OverflowInline,
            CssProperty::OverflowWrap => CssProperty::OverflowWrap,
            CssProperty::OverflowX => CssProperty::OverflowX,
            CssProperty::OverflowY => CssProperty::OverflowY,
            CssProperty::Overlay => CssProperty::Overlay,
            CssProperty::OverscrollBehavior => CssProperty::OverscrollBehavior,
            CssProperty::OverscrollBehaviorBlock => CssProperty::OverscrollBehaviorBlock,
            CssProperty::OverscrollBehaviorInline => CssProperty::OverscrollBehaviorInline,
            CssProperty::OverscrollBehaviorX => CssProperty::OverscrollBehaviorX,
            CssProperty::OverscrollBehaviorY => CssProperty::OverscrollBehaviorY,
            CssProperty::Padding => CssProperty::Padding,
            CssProperty::PaddingBlock => CssProperty::PaddingBlock,
            CssProperty::PaddingBlockEnd => CssProperty::PaddingBlockEnd,
            CssProperty::PaddingBlockStart => CssProperty::PaddingBlockStart,
            CssProperty::PaddingBottom => CssProperty::PaddingBottom,
            CssProperty::PaddingInline => CssProperty::PaddingInline,
            CssProperty::PaddingInlineEnd => CssProperty::PaddingInlineEnd,
            CssProperty::PaddingInlineStart => CssProperty::PaddingInlineStart,
            CssProperty::PaddingLeft => CssProperty::PaddingLeft,
            CssProperty::PaddingRight => CssProperty::PaddingRight,
            CssProperty::PaddingTop => CssProperty::PaddingTop,
            CssProperty::Page => CssProperty::Page,
            CssProperty::PageBreakAfter => CssProperty::PageBreakAfter,
            CssProperty::PageBreakBefore => CssProperty::PageBreakBefore,
            CssProperty::PageBreakInside => CssProperty::PageBreakInside,
            CssProperty::PaintOrder => CssProperty::PaintOrder,
            CssProperty::PathLength => CssProperty::PathLength,
            CssProperty::Pause => CssProperty::Pause,
            CssProperty::PauseAfter => CssProperty::PauseAfter,
            CssProperty::PauseBefore => CssProperty::PauseBefore,
            CssProperty::Perspective => CssProperty::Perspective,
            CssProperty::PerspectiveOrigin => CssProperty::PerspectiveOrigin,
            CssProperty::PlaceContent => CssProperty::PlaceContent,
            CssProperty::PlaceItems => CssProperty::PlaceItems,
            CssProperty::PlaceSelf => CssProperty::PlaceSelf,
            CssProperty::PointerEvents => CssProperty::PointerEvents,
            CssProperty::PointerTimeline => CssProperty::PointerTimeline,
            CssProperty::PointerTimelineAxis => CssProperty::PointerTimelineAxis,
            CssProperty::PointerTimelineName => CssProperty::PointerTimelineName,
            CssProperty::Position => CssProperty::Position,
            CssProperty::PositionAnchor => CssProperty::PositionAnchor,
            CssProperty::PositionArea => CssProperty::PositionArea,
            CssProperty::PositionTry => CssProperty::PositionTry,
            CssProperty::PositionTryFallbacks => CssProperty::PositionTryFallbacks,
            CssProperty::PositionTryOrder => CssProperty::PositionTryOrder,
            CssProperty::PositionVisibility => CssProperty::PositionVisibility,
            CssProperty::PrintColorAdjust => CssProperty::PrintColorAdjust,
            CssProperty::Quotes => CssProperty::Quotes,
            CssProperty::R => CssProperty::R,
            CssProperty::ReadingFlow => CssProperty::ReadingFlow,
            CssProperty::ReadingOrder => CssProperty::ReadingOrder,
            CssProperty::RegionFragment => CssProperty::RegionFragment,
            CssProperty::Resize => CssProperty::Resize,
            CssProperty::Rest => CssProperty::Rest,
            CssProperty::RestAfter => CssProperty::RestAfter,
            CssProperty::RestBefore => CssProperty::RestBefore,
            CssProperty::Right => CssProperty::Right,
            CssProperty::Rotate => CssProperty::Rotate,
            CssProperty::RowGap => CssProperty::RowGap,
            CssProperty::RowRule => CssProperty::RowRule,
            _ => self.clone_part_6(),
        }
    }

    fn clone_part_6(&self) -> (r: Self)
        requires
            self.ordinal() >= 600,
        ensures
            r == *self,
    {
        match self {
            CssProperty::RowRuleBreak => CssProperty::RowRuleBreak,
            CssProperty::RowRuleColor => CssProperty::RowRuleColor,
            CssProperty::RowRuleInset => CssProperty::RowRuleInset,
            CssProperty::RowRuleInsetCap => CssProperty::RowRuleInsetCap,
            CssProperty::RowRuleInsetCapEnd => CssProperty::RowRuleInsetCapEnd,
            CssProperty::RowRuleInsetCapStart => CssProperty::RowRuleInsetCapStart,
            CssProperty::RowRuleInsetEnd => CssProperty::RowRuleInsetEnd,
            CssProperty::RowRuleInsetJunction => CssProperty::RowRuleInsetJunction,
            CssProperty::RowRuleInsetJunctionEnd => CssProperty::RowRuleInsetJunctionEnd,
            CssProperty::RowRuleInsetJunctionStart => CssProperty::RowRuleInsetJunctionStart,
            CssProperty::RowRuleInsetStart => CssProperty::RowRuleInsetStart,
            CssProperty::RowRuleStyle => CssProperty::RowRuleStyle,
            CssProperty::RowRuleVisibilityItems => CssProperty::RowRuleVisibilityItems,
            CssProperty::RowRuleWidth => CssProperty::RowRuleWidth,
            CssProperty::RubyAlign => CssProperty::RubyAlign,
            CssProperty::RubyMerge => CssProperty::RubyMerge,
            CssProperty::RubyOverhang => CssProperty::RubyOverhang,
            CssProperty::RubyPosition => CssProperty::RubyPosition,
            CssProperty::Rule => CssProperty::Rule,
            CssProperty::RuleBreak => CssProperty::RuleBreak,
            CssProperty::RuleColor => CssProperty::RuleColor,
            CssProperty::RuleInset => CssProperty::RuleInset,
            CssProperty::RuleInsetCap => CssProperty::RuleInsetCap,
            CssProperty::RuleInsetEnd => CssProperty::RuleInsetEnd,
            CssProperty::RuleInsetJunction => CssProperty::RuleInsetJunction,
            CssProperty::RuleInsetStart => CssProperty::RuleInsetStart,
            CssProperty::RuleOverlap => CssProperty::RuleOverlap,
            CssProperty::RuleStyle => CssProperty::RuleStyle,
            CssProperty::RuleVisibilityItems => CssProperty::RuleVisibilityItems,
            CssProperty::RuleWidth => CssProperty::RuleWidth,
            CssProperty::Rx => CssProperty::Rx,
            CssProperty::Ry => CssProperty::Ry,
            CssProperty::Scale => CssProperty::Scale,
            CssProperty::ScrollBehavior => CssProperty::ScrollBehavior,
            CssProperty::ScrollInitialTarget => CssProperty::ScrollInitialTarget,
            CssProperty::ScrollMargin => CssProperty::ScrollMargin,
            CssProperty::ScrollMarginBlock => CssProperty::ScrollMarginBlock,
            CssProperty::ScrollMarginBlockEnd => CssProperty::ScrollMarginBlockEnd,
            CssProperty::ScrollMarginBlockStart => CssProperty::ScrollMarginBlockStart,
            CssProperty::ScrollMarginBottom => CssProperty::ScrollMarginBottom,
            CssProperty::ScrollMarginInline => CssProperty::ScrollMarginInline,
            CssProperty::ScrollMarginInlineEnd => CssProperty::ScrollMarginInlineEnd,
            CssProperty::ScrollMarginInlineStart => CssProperty::ScrollMarginInlineStart,
            CssProperty::ScrollMarginLeft => CssProperty::ScrollMarginLeft,
            CssProperty::ScrollMarginRight => CssProperty::ScrollMarginRight,
            CssProperty::ScrollMarginTop => CssProperty::ScrollMarginTop,
            CssProperty::ScrollMarkerGroup => CssProperty::ScrollMarkerGroup,
            CssProperty::ScrollPadding => CssProperty::ScrollPadding,
            CssProperty::ScrollPaddingBlock => CssProperty::ScrollPaddingBlock,
            CssProperty::ScrollPaddingBlockEnd => CssProperty::ScrollPaddingBlockEnd,
            CssProperty::ScrollPaddingBlockStart => CssProperty::ScrollPaddingBlockStart,
            CssProperty::ScrollPaddingBottom => CssProperty::ScrollPaddingBottom,
            CssProperty::ScrollPaddingInline => CssProperty::ScrollPaddingInline,
            CssProperty::ScrollPaddingInlineEnd => CssProperty::ScrollPaddingInlineEnd,
            CssProperty::ScrollPaddingInlineStart => CssProperty::ScrollPaddingInlineStart,
            CssProperty::ScrollPaddingLeft => CssProperty::ScrollPaddingLeft,
            CssProperty::ScrollPaddingRight => CssProperty::ScrollPaddingRight,
            CssProperty::ScrollPaddingTop => CssProperty::ScrollPaddingTop,
            CssProperty::ScrollSnapAlign => CssProperty::ScrollSnapAlign,
            CssProperty::ScrollSnapStop => CssProperty::ScrollSnapStop,
            CssProperty::ScrollSnapType => CssProperty::ScrollSnapType,
            CssProperty::ScrollTargetGroup => CssProperty::ScrollTargetGroup,
            CssProperty::ScrollTimeline => CssProperty::ScrollTimeline,
            CssProperty::ScrollTimelineAxis => CssProperty::ScrollTimelineAxis,
            CssProperty::ScrollTimelineName => CssProperty::ScrollTimelineName,
            CssProperty::ScrollbarColor => CssProperty::ScrollbarColor,
            CssProperty::ScrollbarGutter => CssProperty::ScrollbarGutter,
            CssProperty::ScrollbarInset => CssProperty::ScrollbarInset,
            CssProperty::ScrollbarMinThumbSize => CssProperty::ScrollbarMinThumbSize,
            CssProperty::ScrollbarMode => CssProperty::ScrollbarMode,
            CssProperty::ScrollbarWidth => CssProperty::ScrollbarWidth,
            CssProperty::ShapeImageThreshold => CssProperty::ShapeImageThreshold,
            CssProperty::ShapeInside => CssProperty::ShapeInside,
            CssProperty::ShapeMargin => CssProperty::ShapeMargin,
            CssProperty::ShapeOutside => CssProperty::ShapeOutside,
            CssProperty::ShapePadding => CssProperty::ShapePadding,
            CssProperty::ShapeRendering => CssProperty::ShapeRendering,
            CssProperty::SliderOrientation => CssProperty::SliderOrientation,
            CssProperty::SpatialNavigationAction => CssProperty::SpatialNavigationAction,
            CssProperty::SpatialNavigationContain => CssProperty::SpatialNavigationContain,
            CssProperty::SpatialNavigationFunction => CssProperty::SpatialNavigationFunction,
            CssProperty::Speak => CssProperty::Speak,
            CssProperty::SpeakAs => CssProperty::SpeakAs,
            CssProperty::StopColor => CssProperty::StopColor,
            CssProperty::StopOpacity => CssProperty::StopOpacity,
            CssProperty::StringSet => CssProperty::StringSet,
            CssProperty::Stroke => CssProperty::Stroke,
            CssProperty::StrokeAlign => CssProperty::StrokeAlign,
            CssProperty::StrokeAlignment => CssProperty::StrokeAlignment,
            CssProperty::StrokeBreak => CssProperty::StrokeBreak,
            CssProperty::StrokeColor => CssProperty::StrokeColor,
            CssProperty::StrokeDashCornerPropdefStrokeDashCorner => CssProperty::StrokeDashCornerPropdefStrokeDashCorner,
            CssProperty::StrokeDashJustify => CssProperty::StrokeDashJustify,
            CssProperty::StrokeDashadjust => CssProperty::StrokeDashadjust,
            CssProperty::StrokeDasharray => CssProperty::StrokeDasharray,
            CssProperty::StrokeDashcornerStrokedashcornerproperty => CssProperty::StrokeDashcornerStrokedashcornerproperty,
            CssProperty::StrokeDashoffset => CssProperty::StrokeDashoffset,
            CssProperty::StrokeImage => CssProperty::StrokeImage,
            CssProperty::StrokeLinecap => CssProperty::StrokeLinecap,
            CssProperty::StrokeLinejoin => CssProperty::StrokeLinejoin,
            _ => self.clone_part_7(),
        }
    }

    fn clone_part_7(&self) -> (r: Self)
        requires
            self.ordinal() >= 700,
        ensures
            r == *self,
    {
        match self {
            CssProperty::StrokeMiterlimit => CssProperty::StrokeMiterlimit,
            CssProperty::StrokeOpacity => CssProperty::StrokeOpacity,
            CssProperty::StrokeOrigin => CssProperty::StrokeOrigin,
            CssProperty::StrokePosition => CssProperty::StrokePosition,
            CssProperty::StrokeRepeat => CssProperty::StrokeRepeat,
            CssProperty::StrokeSize => CssProperty::StrokeSize,
            CssProperty::StrokeWidth => CssProperty::StrokeWidth,
            CssProperty::TabSize => CssProperty::TabSize,
            CssProperty::TableLayout => CssProperty::TableLayout,
            CssProperty::TextAlign => CssProperty::TextAlign,
            CssProperty::TextAlignAll => CssProperty::TextAlignAll,
            CssProperty::TextAlignLast => CssProperty::TextAlignLast,
            CssProperty::TextAnchor => CssProperty::TextAnchor,
            CssProperty::TextAutospace => CssProperty::TextAutospace,
            CssProperty::TextBox => CssProperty::TextBox,
            CssProperty::TextBoxEdge => CssProperty::TextBoxEdge,
            CssProperty::TextBoxTrim => CssProperty::TextBoxTrim,
            CssProperty::TextCombineUpright => CssProperty::TextCombineUpright,
            CssProperty::TextDecoration => CssProperty::TextDecoration,
            CssProperty::TextDecorationColor => CssProperty::TextDecorationColor,
            CssProperty::TextDecorationInset => CssProperty::TextDecorationInset,
            CssProperty::TextDecorationLine => CssProperty::TextDecorationLine,
            CssProperty::TextDecorationSkip => CssProperty::TextDecorationSkip,
            CssProperty::TextDecorationSkipBox => CssProperty::TextDecorationSkipBox,
            CssProperty::TextDecorationSkipInk => CssProperty::TextDecorationSkipInk,
            CssProperty::TextDecorationSkipSelf => CssProperty::TextDecorationSkipSelf,
            CssProperty::TextDecorationSkipSpaces => CssProperty::TextDecorationSkipSpaces,
            CssProperty::TextDecorationStyle => CssProperty::TextDecorationStyle,
            CssProperty::TextDecorationThickness => CssProperty::TextDecorationThickness,
            CssProperty::TextEmphasis => CssProperty::TextEmphasis,
            CssProperty::TextEmphasisColor => CssProperty::TextEmphasisColor,
            CssProperty::TextEmphasisPosition => CssProperty::TextEmphasisPosition,
            CssProperty::TextEmphasisSkip => CssProperty::TextEmphasisSkip,
            CssProperty::TextEmphasisStyle => CssProperty::TextEmphasisStyle,
            CssProperty::TextFit => CssProperty::TextFit,
            CssProperty::TextGroupAlign => CssProperty::TextGroupAlign,
            CssProperty::TextIndent => CssProperty::TextIndent,
            CssProperty::TextJustify => CssProperty::TextJustify,
            CssProperty::TextOrientation => CssProperty::TextOrientation,
            CssProperty::TextOverflow => CssProperty::TextOverflow,
            CssProperty::TextRendering => CssProperty::TextRendering,
            CssProperty::TextShadow => CssProperty::TextShadow,
            CssProperty::TextSizeAdjust => CssProperty::TextSizeAdjust,
            CssProperty::TextSpacing => CssProperty::TextSpacing,
            CssProperty::TextSpacingTrim => CssProperty::TextSpacingTrim,
            CssProperty::TextTransform => CssProperty::TextTransform,
            CssProperty::TextUnderlineOffset => CssProperty::TextUnderlineOffset,
            CssProperty::TextUnderlinePosition => CssProperty::TextUnderlinePosition,
            CssProperty::TextWrap => CssProperty::TextWrap,
            CssProperty::TextWrapMode => CssProperty::TextWrapMode,
            CssProperty::TextWrapStyle => CssProperty::TextWrapStyle,
            CssProperty::TimelineScope => CssProperty::TimelineScope,
            CssProperty::TimelineTrigger => CssProperty::TimelineTrigger,
            CssProperty::TimelineTriggerActivationRange => CssProperty::TimelineTriggerActivationRange,
            CssProperty::TimelineTriggerActivationRangeEnd => CssProperty::TimelineTriggerActivationRangeEnd,
            CssProperty::TimelineTriggerActivationRangeStart => CssProperty::TimelineTriggerActivationRangeStart,
            CssProperty::TimelineTriggerActiveRange => CssProperty::TimelineTriggerActiveRange,
            CssProperty::TimelineTriggerActiveRangeEnd => CssProperty::TimelineTriggerActiveRangeEnd,
            CssProperty::TimelineTriggerActiveRangeStart => CssProperty::TimelineTriggerActiveRangeStart,
            CssProperty::TimelineTriggerName => CssProperty::TimelineTriggerName,
            CssProperty::TimelineTriggerSource => CssProperty::TimelineTriggerSource,
            CssProperty::Top => CssProperty::Top,
            CssProperty::TouchAction => CssProperty::TouchAction,
            CssProperty::Transform => CssProperty::Transform,
            CssProperty::TransformBox => CssProperty::TransformBox,
            CssProperty::TransformOrigin => CssProperty::TransformOrigin,
            CssProperty::TransformStyle => CssProperty::TransformStyle,
            CssProperty::Transition => CssProperty::Transition,
            CssProperty::TransitionBehavior => CssProperty::TransitionBehavior,
            CssProperty::TransitionDelay => CssProperty::TransitionDelay,
            CssProperty::TransitionDuration => CssProperty::TransitionDuration,
            CssProperty::TransitionProperty => CssProperty::TransitionProperty,
            CssProperty::TransitionTimingFunction => CssProperty::TransitionTimingFunction,
            CssProperty::Translate => CssProperty::Translate,
            CssProperty::TriggerScope => CssProperty::TriggerScope,
            CssProperty::UnicodeBidi => CssProperty::UnicodeBidi,
            CssProperty::UserSelect => CssProperty::UserSelect,
            CssProperty::VectorEffect => CssProperty::VectorEffect,
            CssProperty::VerticalAlign => CssProperty::VerticalAlign,
            CssProperty::ViewTimeline => CssProperty::ViewTimeline,
            CssProperty::ViewTimelineAxis => CssProperty::ViewTimelineAxis,
            CssProperty::ViewTimelineInset => CssProperty::ViewTimelineInset,
            CssProperty::ViewTimelineName => CssProperty::ViewTimelineName,
            CssProperty::ViewTransitionClass => CssProperty::ViewTransitionClass,
            CssProperty::ViewTransitionGroup => CssProperty::ViewTransitionGroup,
            CssProperty::ViewTransitionName => CssProperty::ViewTransitionName,
            CssProperty::ViewTransitionScope => CssProperty::ViewTransitionScope,
            CssProperty::Visibility => CssProperty::Visibility,
            CssProperty::VoiceBalance => CssProperty::VoiceBalance,
            CssProperty::VoiceDuration => CssProperty::VoiceDuration,
            CssProperty::VoiceFamily => CssProperty::VoiceFamily,
            CssProperty::VoicePitch => CssProperty::VoicePitch,
            CssProperty::VoiceRange => CssProperty::VoiceRange,
            CssProperty::VoiceRate => CssProperty::VoiceRate,
            CssProperty::VoiceStress => CssProperty::VoiceStress,
            CssProperty::VoiceVolume => CssProperty::VoiceVolume,
            CssProperty::WhiteSpace => CssProperty::WhiteSpace,
            CssProperty::WhiteSpaceCollapse => CssProperty::WhiteSpaceCollapse,
            CssProperty::WhiteSpaceTrim => CssProperty::WhiteSpaceTrim,
            CssProperty::Widows => CssProperty::Widows,
            _ => self.clone_part_8(),
        }
    }

    fn clone_part_8(&self) -> (r: Self)
        requires
            self.ordinal() >= 800,
        ensures
            r == *self,
    {
        match self {
            CssProperty::Width => CssProperty::Width,
            CssProperty::WillChange => CssProperty::WillChange,
            CssProperty::WordBreak => CssProperty::WordBreak,
            CssProperty::WordSpaceTransform => CssProperty::WordSpaceTransform,
            CssProperty::WordSpacing => CssProperty::WordSpacing,
            CssProperty::WordWrap => CssProperty::WordWrap,
            CssProperty::WrapAfter => CssProperty::WrapAfter,
            CssProperty::WrapBefore => CssProperty::WrapBefore,
            CssProperty::WrapFlow => CssProperty::WrapFlow,
            CssProperty::WrapInside => CssProperty::WrapInside,
            CssProperty::WrapThrough => CssProperty::WrapThrough,
            CssProperty::WritingMode => CssProperty::WritingMode,
            CssProperty::X => CssProperty::X,
            CssProperty::Y => CssProperty::Y,
            CssProperty::ZIndex => CssProperty::ZIndex,
            CssProperty::Zoom => CssProperty::Zoom,
            CssProperty::Unknown(s) => CssProperty::Unknown(s.clone()),
            _ => vstd::pervasive::unreached(),
        }
    }
}

/// Every listed value stands in the lookup table.
pub proof fn lemma_lookup_position(p: CssProperty)
    requires
        p.is_listed(),
    ensures
        p.lookup_position() < LOOKUP_LEN,
        lookup_entry(p.lookup_position()) == p,
        lookup_name(p.lookup_position()) == p.spec_name(),
{
}

/// Different listed values have different names.
pub proof fn lemma_name_injective(p: CssProperty, q: CssProperty)
    requires
        p.is_listed(),
        q.is_listed(),
        p.spec_name() == q.spec_name(),
    ensures
        p == q,
{
    lemma_lookup_position(p);
    lemma_lookup_position(q);
    lemma_lookup_sorted();
    let i = p.lookup_position();
    let j = q.lookup_position();
    if i < j {
        lemma_name_less_asymmetric(lookup_name(i), lookup_name(j));
    } else if j < i {
        lemma_name_less_asymmetric(lookup_name(j), lookup_name(i));
    }
}

/// Looking up the name of a listed value gives that value back.
pub proof fn lemma_lookup_of_name(p: CssProperty)
    requires
        p.is_listed(),
    ensures
        CssProperty::spec_lookup(p.spec_name()) == Some(p),
{
    let q = choose|q: CssProperty| q.is_listed() && #[trigger] q.spec_name() == p.spec_name();
    lemma_name_injective(p, q);
}

/// A name that the lookup finds is the name of what it finds.
pub proof fn lemma_name_of_lookup(s: Seq<char>)
    ensures
        CssProperty::spec_lookup(s) matches Some(p) ==> p.is_listed() && p.spec_name() == s,
{
}

/// Every listed name is non-empty, so the empty name is not found.
pub proof fn lemma_empty_name_not_listed()
    ensures
        CssProperty::spec_lookup(Seq::empty()) is None,
{
    lemma_lookup_sorted();
    assert forall|p: CssProperty| p.is_listed() implies #[trigger] p.spec_name() != Seq::<char>::empty() by {
        lemma_lookup_position(p);
        let k = p.lookup_position();
        if k == 0 {
            reveal_strlit("-webkit-align-content");
            assert(p.spec_name().len() > 0);
        } else {
            assert(name_less(lookup_name(0), lookup_name(k)));
            assert(p.spec_name().len() > 0);
        }
    }
}

/// Every known property has a non-empty name made of lower-case ASCII
/// letters, digits and `-`.
pub proof fn lemma_name_chars(p: CssProperty)
    requires
        p.is_listed(),
    ensures
        p.spec_name().len() > 0,
        forall|k: int| 0 <= k < p.spec_name().len() ==> is_property_name_char(#[trigger] p.spec_name()[k]),
{
    lemma_lookup_position(p);
    lemma_lookup_name_chars();
    lemma_lookup_of_name(p);
    lemma_empty_name_not_listed();
    assert(lookup_name(p.lookup_position()) == p.spec_name());
    if p.spec_name().len() == 0 {
        assert(p.spec_name() =~= Seq::<char>::empty());
    }
    lemma_name_chars_from(p.spec_name(), 0);
}

} // verus!
