//! CSS pseudo-classes and pseudo-elements and their names.
use vstd::prelude::*;

use crate::text::{chars_of, compare_char_seqs, lemma_name_less_asymmetric, lemma_name_less_transitive, name_less, NameOrder};
use self::lookup_order::{lemma_lookup_sorted, lookup_name, lookup_name_at, LOOKUP_LEN};

pub mod lookup_order;

verus! {

#[derive(Debug, PartialEq, Eq, Hash)]
pub enum CssPseudo {
    ///
    /// href: https://drafts.csswg.org/css-pseudo-4/#selectordef-after
    /// syntax: ::after
    /// prose: Represents a styleable child pseudo-element immediately after the originating element’s actual content.
    After,
    ///
    /// href: https://drafts.csswg.org/css-position-4/#selectordef-backdrop
    /// syntax: ::backdrop
    /// prose: Each element rendered in the top layer has a ::backdrop pseudo-element, for which it is the originating element.
    Backdrop,
    ///
    /// href: https://drafts.csswg.org/css-pseudo-4/#selectordef-before
    /// syntax: ::before
    /// prose: Represents a styleable child pseudo-element immediately before the originating element’s actual content.
    Before,
    ///
    /// href: https://drafts.csswg.org/css-forms-1/#selectordef-checkmark
    /// syntax: ::checkmark
    /// prose: The ::checkmark pseudo-element represents an indicator of whether the item is checked, and is present on checkboxes, radios, and option elements.
    Checkmark,
    ///
    /// href: https://drafts.csswg.org/css-forms-1/#selectordef-clear-icon
    /// syntax: ::clear-icon
    /// prose: The ::clear-icon pseudo-element represents the portion of the input that allows the user to clear the input when clicked if provided by the user agent. With appearance: textfield, the user agent must not generate this part.
    ClearIcon,
    ///
    /// href: https://drafts.csswg.org/css-forms-1/#selectordef-color-swatch
    /// syntax: ::color-swatch
    /// prose: The ::color-swatch pseudo-element represents the portion of the control that displays the chosen color value.
    ColorSwatch,
    ///
    /// href: https://drafts.csswg.org/css-multicol-2/#selectordef-column
    /// syntax: ::column
    /// prose: The ::column pseudo-element represents the individual columns in a multi-column container. It only exists on multi-column containers.
    Column,
    ///
    /// href: https://w3c.github.io/webvtt/#selectordef-cue
    /// syntax: ::cue
    /// prose: The ::cue pseudo-element (with no argument) matches any list of WebVTT Node Objects constructed for the matched element, with the exception that the properties corresponding to the background shorthand must be applied to the WebVTT cue background box rather than the list of WebVTT Node Objects.
    Cue,
    ///
    /// href: https://w3c.github.io/webvtt/#selectordef-cue-region
    /// syntax: ::cue-region
    /// prose: The ::cue-region pseudo-element (with no argument) matches any list of WebVTT region objects constructed for the matched element.
    CueRegion,
    ///
    /// href: https://w3c.github.io/webvtt/#selectordef-cue-region-selector
    /// syntax: ::cue-region(selector)
    CueRegionFn,
    ///
    /// href: https://w3c.github.io/webvtt/#selectordef-cue-selector
    /// syntax: ::cue(selector)
    CueFn,
    ///
    /// href: https://drafts.csswg.org/css-pseudo-4/#selectordef-details-content
    /// syntax: ::details-content
    /// prose: The ::details-content pseudo-element targets the additional information in a details element that can be expanded or collapsed. It is an element-backed pseudo-element.
    DetailsContent,
    ///
    /// href: https://drafts.csswg.org/css-forms-1/#selectordef-field-component
    /// syntax: ::field-component
    /// prose: The ::field-component pseudo-element represents the portions of the control that contain the date/time component values.
    FieldComponent,
    ///
    /// href: https://drafts.csswg.org/css-forms-1/#selectordef-field-separator
    /// syntax: ::field-separator
    /// prose: The ::field-separator pseudo-element represents the portions of the control that separate the date/time component values if the user agent provides those portions.
    FieldSeparator,
    ///
    /// href: https://drafts.csswg.org/css-forms-1/#selectordef-field-text
    /// syntax: ::field-text
    /// prose: The ::field-text pseudo-element represents the portion of the input that contains the editable text.
    FieldText,
    ///
    /// href: https://drafts.csswg.org/css-forms-1/#selectordef-file-selector-button
    /// syntax: ::file-selector-button
    /// prose: The ::file-selector-button pseudo-element represents the button used to open a file picker, if the UA renders such a button.
    FileSelectorButton,
    ///
    /// href: https://drafts.csswg.org/css-pseudo-4/#selectordef-first-letter
    /// syntax: ::first-letter
    /// prose: The ::first-letter pseudo-element represents the first Letter, Number, or Symbol (Unicode category L*, N*, or S*) typographic character unit on the first formatted line of its originating element (the first letter) as well as its associated punctuation. Collectively, this text is the first-letter text. The ::first-letter pseudo-element can be used to create “initial caps” and “drop caps”, which are common typographic effects.
    FirstLetter,
    ///
    /// href: https://drafts.csswg.org/css-pseudo-4/#selectordef-first-line
    /// syntax: ::first-line
    /// prose: The ::first-line pseudo-element represents the contents of the first formatted line of its originating element.
    FirstLine,
    ///
    /// href: https://drafts.csswg.org/css-pseudo-4/#selectordef-grammar-error
    /// syntax: ::grammar-error
    /// prose: The ::grammar-error pseudo-element represents a portion of text that has been flagged by the user agent as grammatically incorrect.
    GrammarError,
    ///
    /// href: https://drafts.csswg.org/css-pseudo-4/#selectordef-highlight-custom-ident
    /// syntax: ::highlight(<custom-ident>)
    Highlight,
    ///
    /// href: https://drafts.csswg.org/css-pseudo-4/#selectordef-marker
    /// syntax: ::marker
    /// prose: The ::marker pseudo-element represents the automatically generated marker box of a list item. (See [CSS-DISPLAY-3] and [CSS-LISTS-3].)
    Marker,
    ///
    /// href: https://drafts.csswg.org/css-overflow-5/#selectordef-nth-fragment
    /// prose: The ::nth-fragment() pseudo-element is a pseudo-element that describes some of the fragment boxes generated by an element. The argument to the pseudo-element takes the same syntax as the argument to the :nth-child() pseudo-class defined in [SELECT], and has the same meaning except that the number is relative to fragment boxes generated by the element instead of siblings of the element.
    NthFragment,
    ///
    /// href: https://drafts.csswg.org/css-shadow-1/#selectordef-part
    /// syntax: ::part( <ident>+ )
    /// prose: The ::part() pseudo-element allows you to select elements that have been exposed via a part attribute. The syntax is:
    Part,
    ///
    /// href: https://drafts.csswg.org/css-forms-1/#selectordef-picker-icon
    /// syntax: ::picker-icon
    /// prose: The ::picker-icon pseudo-element represents the part of the control that represents the icon denoting the presence of the picker. It is only generated when the originating element has basic appearance and if it opens a picker. It is a fully styleable pseudo-element and inherits from its originating element.
    PickerIcon,
    ///
    /// href: https://drafts.csswg.org/css-forms-1/#selectordef-picker
    /// syntax: ::picker( <form-control-identifier>+ )
    /// prose: The ::picker() pseudo-element represents the part of the form control that pops out of the page.
    Picker,
    ///
    /// href: https://drafts.csswg.org/css-forms-1/#selectordef-placeholder
    /// syntax: ::placeholder
    /// prose: The ::placeholder pseudo-element represents the portion of the input that contains the placeholder text.
    Placeholder,
    ///
    /// href: https://drafts.csswg.org/css-forms-1/#selectordef-reveal-icon
    /// syntax: ::reveal-icon
    /// prose: The ::reveal-icon pseudo-element represents the portion of the input that allows the user to temporarily disable obscuring of sensitive text input when clicked if provided by the user agent. User agents providing ::reveal-icon may choose to remove it in some circumstances to help protect sensitive text input from being revealed unintentionally.
    RevealIcon,
    ///
    /// href: https://drafts.csswg.org/css-overflow-5/#selectordef-scroll-button---scroll-button-direction
    /// syntax: ::scroll-button( '*' | <scroll-button-direction> )
    ScrollButton,
    ///
    /// href: https://drafts.csswg.org/css-overflow-5/#selectordef-scroll-marker
    /// syntax: ::scroll-marker
    /// prose: When the computed content value of a ::scroll-marker pseudo-element is not none and its nearest ancestor scroll container scroll container has a computed scroll-marker-group property that is not none, the pseudo-element generates a box attached as a child of the ::scroll-marker-group pseudo-element’s generated box on its nearest ancestor scroll container. These boxes are added in the tree order of their originating element.
    ScrollMarker,
    ///
    /// href: https://drafts.csswg.org/css-overflow-5/#selectordef-scroll-marker-group
    /// syntax: ::scroll-marker-group
    /// prose: The ::scroll-marker-group fully styleable pseudo-element is generated by a scroll container element having a computed scroll-marker-group property that is not none.
    ScrollMarkerGroup,
    ///
    /// href: https://drafts.csswg.org/css-pseudo-4/#selectordef-search-text
    /// syntax: ::search-text
    /// prose: The ::search-text pseudo-element represents text identified by the user agent’s find-in-page feature. Since not all UAs style matched text in ways expressible with the highlight pseudo-elements, this pseudo-element is optional to implement. The :current pseudo-class (but not ::current()) may be combined with ::search-text to represent the currently focused match instance. The :past and :future pseudo-classes are reserved for analogous use in the future. Any unsupported combination of these pseudo-classes with ::search-text must be treated as invalid.
    SearchText,
    ///
    /// href: https://drafts.csswg.org/css-pseudo-4/#selectordef-selection
    /// syntax: ::selection
    /// prose: The ::selection pseudo-element represents the portion of a document that has been selected as the target or object of some possible future user-agent operation(s). It applies, for example, to selected text within an editable text field, which would be copied by a copy operation or replaced by a paste operation.
    Selection,
    ///
    /// href: https://drafts.csswg.org/css-forms-1/#selectordef-slider-fill
    /// syntax: ::slider-fill
    /// prose: The ::slider-fill pseudo-element represents the portion containing the progressed portion of the control. When the progress of control is indeterminate (like with <progress>), the user agent must give this portion an inline-size of zero.
    SliderFill,
    ///
    /// href: https://drafts.csswg.org/css-forms-1/#selectordef-slider-thumb
    /// syntax: ::slider-thumb
    /// prose: The ::slider-thumb pseudo-element represents the portion that allows the user to adjust the progress of the control.
    SliderThumb,
    ///
    /// href: https://drafts.csswg.org/css-forms-1/#selectordef-slider-track
    /// syntax: ::slider-track
    /// prose: The ::slider-track pseudo-element represents the portion containing both the progressed and unprogressed portions of the control.
    SliderTrack,
    ///
    /// href: https://drafts.csswg.org/css-shadow-1/#selectordef-slotted
    /// prose: The ::slotted() pseudo-element represents the elements assigned, after flattening, to a slot. This pseudo-element only exists on slots.
    Slotted,
    ///
    /// href: https://drafts.csswg.org/css-pseudo-4/#selectordef-spelling-error
    /// syntax: ::spelling-error
    /// prose: The ::spelling-error pseudo-element represents a portion of text that has been flagged by the user agent as misspelled.
    SpellingError,
    ///
    /// href: https://drafts.csswg.org/css-forms-1/#selectordef-step-control
    /// syntax: ::step-control
    /// prose: The ::step-control pseudo-element represents the portion of a number input that contains the up and down buttons.
    StepControl,
    ///
    /// href: https://drafts.csswg.org/css-forms-1/#selectordef-step-down
    /// syntax: ::step-down
    /// prose: The ::step-down pseudo-element represents the button that decrements the value inside a number input when activated.
    StepDown,
    ///
    /// href: https://drafts.csswg.org/css-forms-1/#selectordef-step-up
    /// syntax: ::step-up
    /// prose: The ::step-up pseudo-element represents the button that increments the value inside a number input when activated.
    StepUp,
    ///
    /// href: https://drafts.csswg.org/css-pseudo-4/#selectordef-target-text
    /// syntax: ::target-text
    /// prose: The ::target-text pseudo-element represents text directly targeted by the document URL’s fragment, if any.
    TargetText,
    ///
    /// href: https://drafts.csswg.org/css-view-transitions-2/#selectordef-view-transition
    /// syntax: ::view-transition
    /// prose: The ::view-transition pseudo-element is a tree-abiding pseudo-element that is also a pseudo-element root. Its originating element is the document’s document element, and its containing block is the snapshot containing block.
    ViewTransition,
    ///
    /// href: https://drafts.csswg.org/css-view-transitions-2/#selectordef-view-transition-group-children
    /// prose: The ::view-transition-group-children() pseudo-element is created when mandated by the view-transition-group property on either the element itself or on its contained element. It serves as a container for descendant view-transition-group() pseudo-elements. By default, it is sized to the same size as the corresponding view-transition-group() pseudo element. By default, it has a transparent border that matches the size and shape of the border on the element that caused this structure to be created.
    ViewTransitionGroupChildren,
    ///
    /// href: https://drafts.csswg.org/css-view-transitions-2/#selectordef-view-transition-group
    /// prose: The ::view-transition-group() pseudo-element is a named view transition pseudo-element that represents a matching named view transition capture. A ::view-transition-group() pseudo-element is generated for each view transition name as a child of the ::view-transition pseudo-element, and contains a corresponding ::view-transition-image-pair().
    ViewTransitionGroup,
    ///
    /// href: https://drafts.csswg.org/css-view-transitions-2/#selectordef-view-transition-image-pair
    /// prose: The ::view-transition-image-pair() pseudo-element is a named view transition pseudo-element that represents a pair of corresponding old/new view transition captures. This pseudo-element is a child of the corresponding ::view-transition-group() pseudo-element and contains a corresponding ::view-transition-old() pseudo-element and/or a corresponding ::view-transition-new() pseudo-element (in that order).
    ViewTransitionImagePair,
    ///
    /// href: https://drafts.csswg.org/css-view-transitions-2/#selectordef-view-transition-new
    /// prose: The ::view-transition-new() pseudo-element (like the analogous ::view-transition-old() pseudo-element) is an empty named view transition pseudo-element that represents a visual snapshot of the “new” state as a replaced element; it is omitted if there’s no “new” state to represent. Each ::view-transition-new() pseudo-element is a child of the corresponding ::view-transition-image-pair() pseudo-element.
    ViewTransitionNew,
    ///
    /// href: https://drafts.csswg.org/css-view-transitions-2/#selectordef-view-transition-old
    /// prose: The ::view-transition-old() pseudo-element is an empty named view transition pseudo-element that represents a visual snapshot of the “old” state as a replaced element; it is omitted if there’s no “old” state to represent. Each ::view-transition-old() pseudo-element is a child of the corresponding ::view-transition-image-pair() pseudo-element.
    ViewTransitionOld,
    ///
    /// href: https://drafts.csswg.org/selectors-4/#active-pseudo
    /// syntax: :active
    /// prose: The :active pseudo-class applies while an element is being “activated” by the user, as defined by the host language; for example, while a hyperlink is being triggered.
    Active,
    ///
    /// href: https://drafts.csswg.org/css-view-transitions-2/#active-view-transition-pseudo
    /// syntax: :active-view-transition
    /// prose: The :active-view-transition pseudo-class applies to the root element of the document, if it has an active view transition.
    ActiveViewTransition,
    ///
    /// href: https://drafts.csswg.org/css-view-transitions-2/#active-view-transition-type-pseudo
    /// prose: The :active-view-transition-type() pseudo-class applies to the root element of the document, if it has a matching active view transition. It has the following syntax definition:
    ActiveViewTransitionType,
    ///
    /// href: https://drafts.csswg.org/css2/#selectordef-after
    /// syntax: :after
    AfterLegacy,
    ///
    /// href: https://drafts.csswg.org/css-image-animation-1/#selectordef-animated-image
    /// syntax: :animated-image
    /// prose: The :animated-image pseudo-class represents content image elements where a animated image has been loaded. For the animated-image pseudo-class to match, the image must not only be in a format that is capable of animation, but must also be an actually animated image.
    AnimatedImage,
    ///
    /// href: https://drafts.csswg.org/selectors-4/#any-link-pseudo
    /// syntax: :any-link
    /// prose: The :any-link pseudo-class represents an element that acts as the source anchor of a hyperlink. For example, in [HTML5], any a or area elements with an href attribute are hyperlinks, and thus match :any-link. It matches an element if the element would match either :link or :visited, and is equivalent to :is(:link, :visited).
    AnyLink,
    ///
    /// href: https://drafts.csswg.org/selectors-4/#selectordef-autofill
    /// syntax: :autofill
    /// prose: The :autofill pseudo-class represents input elements that have been automatically filled by the user agent, and have not been subsequently altered by the user.
    Autofill,
    ///
    /// href: https://drafts.csswg.org/css2/#selectordef-before
    /// syntax: :before
    BeforeLegacy,
    ///
    /// href: https://drafts.csswg.org/selectors-5/#blank-pseudo
    /// syntax: :blank
    /// prose: The :blank pseudo-class applies to user-input elements whose input value is empty (consists of the empty string or otherwise null input).
    Blank,
    ///
    /// href: https://drafts.csswg.org/selectors-4/#selectordef-buffering
    /// syntax: :buffering
    /// prose: The :buffering pseudo-class represents an element that is capable of being “played” or “paused”, when that element cannot continue playing because it is actively attempting to obtain media data but has not yet obtained enough data to resume playback. (Note that the element is still considered to be “playing” when it is “buffering”. Whenever :buffering matches an element, :playing also matches the element.)
    Buffering,
    ///
    /// href: https://drafts.csswg.org/selectors-4/#checked-pseudo
    /// syntax: :checked
    /// prose: When such elements are toggled “on” the :checked pseudo-class applies. For example, [HTML5] defines that checked checkboxes, radio buttons, and selected <option> elements match :checked. Similarly, when such elements are toggled “off”, the :unchecked pseudo-class applies.
    Checked,
    ///
    /// href: https://drafts.csswg.org/selectors-5/#current-pseudo
    /// syntax: :current
    /// prose: The :current pseudo-class represents the element, or an ancestor of the element, that is currently being displayed.
    Current,
    ///
    /// href: https://drafts.csswg.org/selectors-5/#selectordef-current
    /// prose: Its alternate form :current() takes a list of compound selectors as its argument: it represents the :current element that matches the argument or, if that does not match, the innermost ancestor of the :current element that does. (If neither the :current element nor its ancestors match the argument, then the selector does not represent anything.)
    CurrentFn,
    ///
    /// href: https://drafts.csswg.org/selectors-4/#default-pseudo
    /// syntax: :default
    /// prose: The :default pseudo-class applies to the one or more UI elements that are the default among a set of similar elements. Typically applies to context menu items, buttons and select lists/menus.
    Default,
    ///
    /// href: https://drafts.csswg.org/selectors-4/#defined-pseudo
    /// syntax: :defined
    /// prose: In some host languages, elements can have a distinction between being “defined”/“constructed” or not. The :defined pseudo-class matches elements that are fully defined, as dictated by the host language.
    Defined,
    ///
    /// href: https://drafts.csswg.org/selectors-4/#dir-pseudo
    /// prose: The :dir() pseudo-class allows the author to write selectors that represent an element based on its directionality as determined by the document language. For example, [HTML5] defines how to determine the directionality of an element, based on a combination of the dir attribute, the surrounding text, and other factors. As another example, the its:dir and dirRule element of the Internationalization Tag Set [ITS20] are able to define the directionality of an element in [XML10].
    Dir,
    ///
    /// href: https://drafts.csswg.org/selectors-4/#disabled-pseudo
    /// syntax: :disabled
    /// prose: Conversely, the :disabled pseudo-class represents user interface elements that are in a disabled state; such elements must have a corresponding enabled state.
    Disabled,
    ///
    /// href: https://drafts.csswg.org/selectors-4/#empty-pseudo
    /// syntax: :empty
    /// prose: The :empty pseudo-class represents an element that has no children except, optionally, document white space characters. In terms of the document tree, only element nodes and content nodes (such as [DOM] text nodes, and entity references) whose data has a non-zero length must be considered as affecting emptiness; comments, processing instructions, and other nodes must not affect whether an element is considered empty or not.
    Empty,
    ///
    /// href: https://drafts.csswg.org/selectors-4/#enabled-pseudo
    /// syntax: :enabled
    /// prose: The :enabled pseudo-class represents user interface elements that are in an enabled state; such elements must have a corresponding disabled state.
    Enabled,
    ///
    /// href: https://drafts.csswg.org/css2/#selectordef-first
    /// syntax: :first
    /// prose: Authors may also specify style for the first page of a document with the :first pseudo-class:
    First,
    ///
    /// href: https://drafts.csswg.org/selectors-4/#first-child-pseudo
    /// syntax: :first-child
    /// prose: The :first-child pseudo-class represents an element that is first among its inclusive siblings. Same as :nth-child(1).
    FirstChild,
    ///
    /// href: https://drafts.csswg.org/css2/#selectordef-first-letter
    /// syntax: :first-letter
    FirstLetterLegacy,
    ///
    /// href: https://drafts.csswg.org/css2/#selectordef-first-line
    /// syntax: :first-line
    FirstLineLegacy,
    ///
    /// href: https://drafts.csswg.org/css-gcpm-4/#selectordef-first-of-page
    /// syntax: :first-of-page
    /// prose: Same as :nth-of-page(n), but where n = 1 (it is the first matched element on the page).
    FirstOfPage,
    ///
    /// href: https://drafts.csswg.org/selectors-4/#first-of-type-pseudo
    /// syntax: :first-of-type
    /// prose: The :first-of-type pseudo-class represents the same element as :nth-of-type(1).
    FirstOfType,
    ///
    /// href: https://drafts.csswg.org/selectors-4/#focus-pseudo
    /// syntax: :focus
    /// prose: The :focus pseudo-class applies while an element (or pseudo-element) has the focus (accepts keyboard or other forms of input).
    Focus,
    ///
    /// href: https://drafts.csswg.org/selectors-4/#focus-visible-pseudo
    /// syntax: :focus-visible
    /// prose: While the :focus pseudo-class always matches the currently-focused element, UAs only sometimes visibly indicate focus (such as by drawing a “focus ring”), instead using a variety of heuristics to visibly indicate the focus only when it would be most helpful to the user. The :focus-visible pseudo-class matches a focused element (or pseudo-element) in these situations only, allowing authors to change the appearance of the focus indicator without changing when a focus indicator appears.
    FocusVisible,
    ///
    /// href: https://drafts.csswg.org/selectors-4/#focus-within-pseudo
    /// syntax: :focus-within
    /// prose: The :focus-within pseudo-class applies to any element (or pseudo-element) for which the :focus pseudo-class applies, as well as to an element (or pseudo-element) whose descendant in the flat tree (including non-element nodes, such as text nodes) matches the conditions for matching :focus.
    FocusWithin,
    ///
    /// href: https://drafts.csswg.org/selectors-4/#selectordef-fullscreen
    /// syntax: :fullscreen
    /// prose: The :fullscreen pseudo-class represents an element which is displayed in a mode that takes up most (usually all) of the screen, such as that defined by the Fullscreen API. [FULLSCREEN]
    Fullscreen,
    ///
    /// href: https://drafts.csswg.org/selectors-5/#future-pseudo
    /// syntax: :future
    /// prose: The :future pseudo-class represents any element that is defined to occur entirely after a :current element. For example, the WebVTT spec defines the :future pseudo-class relative to the current playback position of a media element. If a time-based order of elements is not defined by the document language, then this represents any element that is a (possibly indirect) next sibling of a :current element.
    Future,
    ///
    /// href: https://drafts.csswg.org/css-shadow-1/#selectordef-has-slotted
    /// syntax: :has-slotted
    /// prose: The :has-slotted pseudo-class matches slot elements which have a non-empty list of flattened slotted nodes.
    HasSlotted,
    ///
    /// href: https://drafts.csswg.org/selectors-4/#has-pseudo
    /// prose: The relational pseudo-class, :has(), is a functional pseudo-class taking a <relative-selector-list> as an argument. It represents an element if any of the relative selectors would match at least one element when anchored against this element.
    Has,
    ///
    /// href: https://drafts.csswg.org/selectors-5/#heading-pseudo
    /// syntax: :heading
    /// prose: The (non-functional) :heading pseudo-class matches an element which has a heading level, with respect to the semantics defined by the document language (e.g. [HTML5]).
    Heading,
    ///
    /// href: https://drafts.csswg.org/selectors-5/#heading-functional-pseudo
    /// syntax: :heading( <level># )
    /// prose: As a functional pseudo-class, :heading() notation represents elements that have a heading level among matching any of the provided integer values. The syntax is:
    HeadingFn,
    ///
    /// href: https://drafts.csswg.org/css-forms-1/#selectordef-high-value
    /// syntax: :high-value
    /// prose: The :high-value pseudo-class matches on a meter element when its value is over the value specified by the high HTML attribute.
    HighValue,
    ///
    /// href: https://drafts.csswg.org/css-shadow-1/#selectordef-host
    /// syntax: :host
    /// prose: The :host pseudo-class, when evaluated in the context of a shadow tree, matches the shadow tree’s shadow host. In any other context, it matches nothing.
    Host,
    ///
    /// href: https://drafts.csswg.org/css-shadow-1/#selectordef-host-context
    /// prose: The :host-context() functional pseudo-class tests whether there is an ancestor, outside the shadow tree, which matches a particular selector. Its syntax is:
    HostContext,
    ///
    /// href: https://drafts.csswg.org/css-shadow-1/#selectordef-host-function
    /// prose: The :host() function pseudo-class has the syntax:
    HostFn,
    ///
    /// href: https://drafts.csswg.org/selectors-4/#hover-pseudo
    /// syntax: :hover
    /// prose: The :hover pseudo-class applies while the user designates an element (or pseudo-element) with a pointing device, but does not necessarily activate it. For example, a visual user agent could apply this pseudo-class when the cursor (mouse pointer) hovers over a box generated by the element. Interactive user agents that cannot detect hovering due to hardware limitations (e.g., a pen device that does not detect hovering) are still conforming; the selector will simply never match in such a UA.
    Hover,
    ///
    /// href: https://drafts.csswg.org/selectors-4/#in-range-pseudo
    /// syntax: :in-range
    /// prose: The :in-range and :out-of-range pseudo-classes apply only to elements that have range limitations. An element is :in-range or :out-of-range when the value that the element is bound to is in range or out of range with respect to its range limits as defined by the document language. An element that lacks data range limits or is not a form control is neither :in-range nor :out-of-range. E.g. a slider element with a value of 11 presented as a slider control that only represents the values from 1-10 is :out-of-range. Another example is a menu element with a value of "E" that happens to be presented in a popup menu that only has choices "A", "B" and "C".
    InRange,
    ///
    /// href: https://drafts.csswg.org/selectors-4/#indeterminate-pseudo
    /// syntax: :indeterminate
    /// prose: If an element that could match :checked or :unchecked is neither "on" nor "off", the :indeterminate pseudo-class applies. :indeterminate also matches elements which do not have a notion of being "checked", but whose "value" is still in an indeterminate state, such as a progress meter whose progress percentage is unknown.
    Indeterminate,
    ///
    /// href: https://drafts.csswg.org/selectors-5/#selectordef-interest-source
    /// syntax: :interest-source
    /// prose: The :interest-source pseudo-class applies to an interest source element that the user is currently "showing interest" in, and the :interest-target pseudo-class applies to the associated interest target of an element matching :interest-source.
    InterestSource,
    ///
    /// href: https://drafts.csswg.org/selectors-5/#selectordef-interest-target
    /// syntax: :interest-target
    /// prose: The :interest-source pseudo-class applies to an interest source element that the user is currently "showing interest" in, and the :interest-target pseudo-class applies to the associated interest target of an element matching :interest-source.
    InterestTarget,
    ///
    /// href: https://drafts.csswg.org/selectors-4/#invalid-pseudo
    /// syntax: :invalid
    /// prose: An element is :valid or :invalid when its contents or value is, respectively, valid or invalid with respect to data validity semantics defined by the document language (e.g. [XFORMS11] or [HTML5]). An element which lacks data validity semantics is neither :valid nor :invalid.
    Invalid,
    ///
    /// href: https://drafts.csswg.org/selectors-4/#matches-pseudo
    /// prose: The matches-any pseudo-class, :is(), is a functional pseudo-class taking a <forgiving-selector-list> as its sole argument.
    Is,
    ///
    /// href: https://drafts.csswg.org/selectors-4/#lang-pseudo
    /// prose: If the document language specifies how the (human) content language of an element is determined, it is possible to write selectors that represent an element based on its content language. The :lang() pseudo-class, which accepts a comma-separated list of one or more language ranges, represents an element whose content language is one of the languages listed in its argument. Each language range in :lang() is an extended language range, as defined in BCP 47, and must be a valid CSS <ident> or <string>. (Thus language ranges containing asterisks, for example, must be either correctly escaped or quoted as strings, e.g. :lang(\*-Latn) or :lang("*-Latn").)
    Lang,
    ///
    /// href: https://drafts.csswg.org/selectors-4/#last-child-pseudo
    /// syntax: :last-child
    /// prose: The :last-child pseudo-class represents an element that is last among its inclusive siblings. Same as :nth-last-child(1).
    LastChild,
    ///
    /// href: https://drafts.csswg.org/css-gcpm-4/#selectordef-last-of-page
    /// syntax: :last-of-page
    /// prose: The element is the last matched element on the page.
    LastOfPage,
    ///
    /// href: https://drafts.csswg.org/selectors-4/#last-of-type-pseudo
    /// syntax: :last-of-type
    /// prose: The :last-of-type pseudo-class represents the same element as :nth-last-of-type(1).
    LastOfType,
    ///
    /// href: https://drafts.csswg.org/css2/#selectordef-left
    /// syntax: :left
    /// prose: All pages are automatically classified by user agents into either the :left or :right pseudo-class. Whether the first page of a document is :left or :right depends on the major writing direction of the root element. For example, the first page of a document with a left-to-right major writing direction would be a :right page, and the first page of a document with a right-to-left major writing direction would be a :left page. To explicitly force a document to begin printing on a left or right page, authors can insert a page break before the first generated box.
    Left,
    ///
    /// href: https://drafts.csswg.org/selectors-4/#link-pseudo
    /// syntax: :link
    /// prose: User agents commonly display unvisited hyperlinks differently from previously visited ones. Selectors provides the pseudo-classes :link and :visited to distinguish them:
    Link,
    ///
    /// href: https://drafts.csswg.org/css-navigation-1/#link-to-pseudo
    /// prose: This specification defines a new :link-to() functional pseudo-class that matches link elements that link to a certain URL.
    LinkTo,
    ///
    /// href: https://drafts.csswg.org/selectors-5/#local-link-pseudo
    /// syntax: :local-link
    /// prose: The :local-link pseudo-class allows authors to style hyperlinks based on the users current location within a site and to differentiate site-internal versus site-external links.
    LocalLink,
    ///
    /// href: https://drafts.csswg.org/css-forms-1/#selectordef-low-value
    /// syntax: :low-value
    /// prose: The :low-value pseudo-class matches on a meter element when its value is under the value specified by the low HTML attribute.
    LowValue,
    ///
    /// href: https://drafts.csswg.org/selectors-4/#selectordef-matches
    /// prose: As previous drafts of this specification used the name :matches() for this pseudo-class, UAs may additionally implement this obsolete name as a legacy selector alias for :is() if needed for backwards-compatibility.
    Matches,
    ///
    /// href: https://drafts.csswg.org/selectors-4/#selectordef-modal
    /// syntax: :modal
    /// prose: The :modal pseudo-class represents an element which is in a state that excludes all interaction with elements outside it until it has been dismissed. Multiple elements can be :modal simultaneously, with only one of them active (able to receive input).
    Modal,
    ///
    /// href: https://drafts.csswg.org/selectors-4/#selectordef-muted
    /// syntax: :muted
    /// prose: The :muted pseudo-class represents an element that is capable of making sound, but is currently “muted“ (forced silent). (For the audio and video elements of HTML, see muted. [HTML])
    Muted,
    ///
    /// href: https://drafts.csswg.org/selectors-4/#negation-pseudo
    /// prose: The negation pseudo-class, :not(), is a functional pseudo-class taking a <complex-real-selector-list> as an argument. It represents an element that is not represented by its argument.
    Not,
    ///
    /// href: https://drafts.csswg.org/selectors-4/#nth-child-pseudo
    /// syntax: :nth-child(An+B [of S]? )
    NthChild,
    ///
    /// href: https://drafts.csswg.org/selectors-5/#nth-col-pseudo
    /// syntax: :nth-col(An+B)
    NthCol,
    ///
    /// href: https://drafts.csswg.org/selectors-4/#nth-last-child-pseudo
    /// syntax: :nth-last-child(An+B [of S]? )
    NthLastChild,
    ///
    /// href: https://drafts.csswg.org/selectors-5/#nth-last-col-pseudo
    /// syntax: :nth-last-col(An+B)
    NthLastCol,
    ///
    /// href: https://drafts.csswg.org/selectors-4/#nth-last-of-type-pseudo
    /// syntax: :nth-last-of-type(An+B)
    NthLastOfType,
    ///
    /// href: https://drafts.csswg.org/css-gcpm-4/#selectordef-nth-of-page-n
    /// syntax: :nth-of-page(n)
    NthOfPage,
    ///
    /// href: https://drafts.csswg.org/selectors-4/#nth-of-type-pseudo
    /// syntax: :nth-of-type(An+B)
    NthOfType,
    ///
    /// href: https://drafts.csswg.org/css-gcpm-3/#selectordef-nth
    /// syntax: :nth( An+B [of <custom-ident>]? )
    Nth,
    ///
    /// href: https://drafts.csswg.org/selectors-4/#only-child-pseudo
    /// syntax: :only-child
    /// prose: The :only-child pseudo-class represents an element that has no siblings. Same as :first-child:last-child or :nth-child(1):nth-last-child(1), but with a lower specificity.
    OnlyChild,
    ///
    /// href: https://drafts.csswg.org/selectors-4/#only-of-type-pseudo
    /// syntax: :only-of-type
    /// prose: The :only-of-type pseudo-class represents the same element as :first-of-type:last-of-type.
    OnlyOfType,
    ///
    /// href: https://drafts.csswg.org/selectors-4/#selectordef-open
    /// syntax: :open
    /// prose: The :open pseudo-class represents an element that has both “open” and “closed” states, and which is currently in the “open” state.
    Open,
    ///
    /// href: https://drafts.csswg.org/css-forms-1/#selectordef-optimal-value
    /// syntax: :optimal-value
    /// prose: The :optimal-value pseudo-class matches on a meter element when its value is in the range determined by the optimum / low / high HTML attributes.
    OptimalValue,
    ///
    /// href: https://drafts.csswg.org/selectors-4/#optional-pseudo
    /// syntax: :optional
    /// prose: A form element is :required or :optional if a value for it is, respectively, required or optional before the form it belongs to can be validly submitted. Elements that are not form elements are neither required nor optional.
    Optional,
    ///
    /// href: https://drafts.csswg.org/selectors-4/#out-of-range-pseudo
    /// syntax: :out-of-range
    /// prose: The :in-range and :out-of-range pseudo-classes apply only to elements that have range limitations. An element is :in-range or :out-of-range when the value that the element is bound to is in range or out of range with respect to its range limits as defined by the document language. An element that lacks data range limits or is not a form control is neither :in-range nor :out-of-range. E.g. a slider element with a value of 11 presented as a slider control that only represents the values from 1-10 is :out-of-range. Another example is a menu element with a value of "E" that happens to be presented in a popup menu that only has choices "A", "B" and "C".
    OutOfRange,
    ///
    /// href: https://drafts.csswg.org/selectors-5/#past-pseudo
    /// syntax: :past
    /// prose: The :past pseudo-class represents any element that is defined to occur entirely prior to a :current element. For example, the WebVTT spec defines the :past pseudo-class relative to the current playback position of a media element. If a time-based order of elements is not defined by the document language, then this represents any element that is a (possibly indirect) previous sibling of a :current element.
    Past,
    ///
    /// href: https://drafts.csswg.org/selectors-4/#selectordef-paused
    /// syntax: :paused
    /// prose: The :paused pseudo-class represents an element that is capable of being “played” or “paused”, when that element is “paused” (i.e. not ”playing”). (This includes both an explicit “paused” state, and other non-playing states like “loaded, hasn’t been activated yet”, etc.)
    Paused,
    ///
    /// href: https://drafts.csswg.org/selectors-4/#selectordef-picture-in-picture
    /// syntax: :picture-in-picture
    /// prose: The :picture-in-picture pseudo-class represents an element which is displayed in a mode that takes up most (usually all) of the viewport, and whose viewport is confined to part of the screen while being displayed over other content, for example when using the Picture-in-Picture API. [picture-in-picture]
    PictureInPicture,
    ///
    /// href: https://drafts.csswg.org/selectors-4/#placeholder-shown-pseudo
    /// syntax: :placeholder-shown
    /// prose: Input elements can sometimes show placeholder text as a hint to the user on what to type in. See, for example, the placeholder attribute in [HTML5]. The :placeholder-shown pseudo-class matches an input element that is showing such placeholder text, whether that text is given by an attribute or a real element, or is otherwise implied by the UA.
    PlaceholderShown,
    ///
    /// href: https://drafts.csswg.org/selectors-4/#selectordef-playing
    /// syntax: :playing
    /// prose: The :playing pseudo-class represents an element that is capable of being “played” or “paused”, when that element is “playing”. (This includes both when the element is explicitly playing, and when it’s temporarily stopped for some reason not connected to user intent, but will automatically resume when that reason is resolved, such as a “buffering” or “stalled” state.)
    Playing,
    ///
    /// href: https://drafts.csswg.org/selectors-4/#selectordef-popover-open
    /// syntax: :popover-open
    /// prose: The :popover-open pseudo-class represents an element that has both “popover-showing” and “popover-hidden” states and which is currently in the “popover-showing” state.
    PopoverOpen,
    ///
    /// href: https://drafts.csswg.org/selectors-4/#read-only-pseudo
    /// syntax: :read-only
    /// prose: An element matches :read-write if it is user-alterable, as defined by the document language. Otherwise, it is :read-only.
    ReadOnly,
    ///
    /// href: https://drafts.csswg.org/selectors-4/#read-write-pseudo
    /// syntax: :read-write
    /// prose: An element matches :read-write if it is user-alterable, as defined by the document language. Otherwise, it is :read-only.
    ReadWrite,
    ///
    /// href: https://drafts.csswg.org/selectors-4/#required-pseudo
    /// syntax: :required
    /// prose: A form element is :required or :optional if a value for it is, respectively, required or optional before the form it belongs to can be validly submitted. Elements that are not form elements are neither required nor optional.
    Required,
    ///
    /// href: https://drafts.csswg.org/css2/#selectordef-right
    /// syntax: :right
    /// prose: All pages are automatically classified by user agents into either the :left or :right pseudo-class. Whether the first page of a document is :left or :right depends on the major writing direction of the root element. For example, the first page of a document with a left-to-right major writing direction would be a :right page, and the first page of a document with a right-to-left major writing direction would be a :left page. To explicitly force a document to begin printing on a left or right page, authors can insert a page break before the first generated box.
    Right,
    ///
    /// href: https://drafts.csswg.org/selectors-4/#root-pseudo
    /// syntax: :root
    /// prose: The :root pseudo-class represents an element that is the root of the document.
    Root,
    ///
    /// href: https://drafts.csswg.org/selectors-4/#scope-pseudo
    /// syntax: :scope
    /// prose: In some contexts, selectors are matched with respect to one or more scoping roots, such as when calling the querySelector() method in [DOM]. The :scope pseudo-class represents this scoping root, and may be either a true element or a virtual one (such as a DocumentFragment).
    Scope,
    ///
    /// href: https://drafts.csswg.org/selectors-4/#selectordef-seeking
    /// syntax: :seeking
    /// prose: The :seeking pseudo-class represents an element that is capable of ”seeking” when that element is ”seeking”. (For the audio and video elements of HTML, see HTML § 4.8.11.9 Seeking.)
    Seeking,
    ///
    /// href: https://drafts.csswg.org/css-scroll-snap-2/#selectordef-snapped
    /// syntax: :snapped
    /// prose: The :snapped pseudo-class matches any snap targets, regardless of axis. The longform physical and logical pseudo-class selectors allow for more finite snapped children styling as they can target an individual axis.
    Snapped,
    ///
    /// href: https://drafts.csswg.org/css-scroll-snap-2/#selectordef-snapped-block
    /// syntax: :snapped-block
    /// prose: Matches the child snapped on the block axis.
    SnappedBlock,
    ///
    /// href: https://drafts.csswg.org/css-scroll-snap-2/#selectordef-snapped-inline
    /// syntax: :snapped-inline
    /// prose: Matches the child snapped on the inline axis.
    SnappedInline,
    ///
    /// href: https://drafts.csswg.org/css-scroll-snap-2/#selectordef-snapped-x
    /// syntax: :snapped-x
    /// prose: Matches the child snapped on the horizontal axis.
    SnappedX,
    ///
    /// href: https://drafts.csswg.org/css-scroll-snap-2/#selectordef-snapped-y
    /// syntax: :snapped-y
    /// prose: Matches the child snapped on the vertical axis.
    SnappedY,
    ///
    /// href: https://drafts.csswg.org/selectors-4/#selectordef-stalled
    /// syntax: :stalled
    /// prose: The :stalled pseudo-class represents an element when that element cannot continue playing because it is actively attempting to obtain media data but it has failed to receive any data for some amount of time. For the audio and video elements of HTML, this amount of time is the media element stall timeout. [HTML] (Note that, like with the :buffering pseudo-class, the element is still considered to be “playing” when it is “stalled”. Whenever :stalled matches an element, :playing also matches the element.)
    Stalled,
    ///
    /// href: https://drafts.csswg.org/css-gcpm-4/#selectordef-start-of-page
    /// syntax: :start-of-page
    /// prose: The element is the first matched element on the page, and neither it nor its ancestors have any previous siblings that appear on the page.
    StartOfPage,
    ///
    /// href: https://drafts.csswg.org/selectors-5/#state-pseudo
    /// syntax: :state( <ident> )
    State,
    ///
    /// href: https://drafts.csswg.org/selectors-4/#target-pseudo
    /// syntax: :target
    /// prose: The :target pseudo-class matches the document’s target elements. If the document’s URL has no fragment identifier, then the document has no target elements.
    Target,
    ///
    /// href: https://drafts.csswg.org/css-overflow-5/#selectordef-target-after
    /// syntax: :target-after
    /// prose: In addition to the :target-current pseudo-class, this specification introduces the :target-before and :target-after pseudo-classes for use with scroll marker elements.
    TargetAfter,
    ///
    /// href: https://drafts.csswg.org/css-overflow-5/#selectordef-target-before
    /// syntax: :target-before
    /// prose: In addition to the :target-current pseudo-class, this specification introduces the :target-before and :target-after pseudo-classes for use with scroll marker elements.
    TargetBefore,
    ///
    /// href: https://drafts.csswg.org/css-overflow-5/#selectordef-target-current
    /// syntax: :target-current
    /// prose: Exactly one scroll marker within each scroll marker group is determined to be active at a time. Such "active" scroll markers match the :target-current pseudo-class.
    TargetCurrent,
    ///
    /// href: https://drafts.csswg.org/selectors-4/#unchecked-pseudo
    /// syntax: :unchecked
    /// prose: When such elements are toggled “on” the :checked pseudo-class applies. For example, [HTML5] defines that checked checkboxes, radio buttons, and selected <option> elements match :checked. Similarly, when such elements are toggled “off”, the :unchecked pseudo-class applies.
    Unchecked,
    ///
    /// href: https://drafts.csswg.org/selectors-4/#user-invalid-pseudo
    /// syntax: :user-invalid
    /// prose: The :user-invalid and the :user-valid pseudo-classes represent an element with incorrect or correct input, respectively, but only after the user has significantly interacted with it. Their purpose is to help the user identify mistakes in their input.
    UserInvalid,
    ///
    /// href: https://drafts.csswg.org/selectors-4/#user-valid-pseudo
    /// syntax: :user-valid
    /// prose: The :user-invalid and the :user-valid pseudo-classes represent an element with incorrect or correct input, respectively, but only after the user has significantly interacted with it. Their purpose is to help the user identify mistakes in their input.
    UserValid,
    ///
    /// href: https://drafts.csswg.org/selectors-4/#valid-pseudo
    /// syntax: :valid
    /// prose: An element is :valid or :invalid when its contents or value is, respectively, valid or invalid with respect to data validity semantics defined by the document language (e.g. [XFORMS11] or [HTML5]). An element which lacks data validity semantics is neither :valid nor :invalid.
    Valid,
    ///
    /// href: https://drafts.csswg.org/selectors-4/#visited-pseudo
    /// syntax: :visited
    /// prose: User agents commonly display unvisited hyperlinks differently from previously visited ones. Selectors provides the pseudo-classes :link and :visited to distinguish them:
    Visited,
    ///
    /// href: https://drafts.csswg.org/selectors-4/#selectordef-volume-locked
    /// syntax: :volume-locked
    /// prose: The :volume-locked pseudo-class represents an element that is capable of making sound, and currently has its volume "locked" by the UA or the user, so the page author cannot change it. (For the audio and video elements of HTML, see the algorithm for setting the element’s effective media volume. [HTML])
    VolumeLocked,
    ///
    /// href: https://drafts.csswg.org/selectors-4/#where-pseudo
    /// prose: The Specificity-adjustment pseudo-class, :where(), is a functional pseudo-class with the same syntax and functionality as :is(). Unlike :is(), neither the :where() pseudo-class, nor any of its arguments, contribute to the specificity of the selector—​its specificity is always zero.
    Where,
    ///
    /// href: https://immersive-web.github.io/dom-overlays/#selectordef-xr-overlay
    /// syntax: :xr-overlay
    /// prose: The :xr-overlay pseudo-class MUST match the overlay element for the duration of an immersive session using a DOM Overlay.
    XrOverlay,
    ///
    /// href: https://drafts.csswg.org/css-nesting-1/#selectordef-
    /// syntax: '&'
    /// prose: When using a nested style rule, one must be able to refer to the elements matched by the parent rule; that is, after all, the entire point of nesting. To accomplish that, this specification defines a new selector, the nesting selector, written as & (U+0026 AMPERSAND).
    Ampersand,
    /// An unknown pseudo-class or pseudo-element.
    Unknown(String),
}

/// The `i`-th entry of the lookup table, in name order.
pub open spec fn lookup_entry(i: usize) -> CssPseudo {
    match i {
        0 => CssPseudo::Ampersand,
        1 => CssPseudo::After,
        2 => CssPseudo::Backdrop,
        3 => CssPseudo::Before,
        4 => CssPseudo::Checkmark,
        5 => CssPseudo::ClearIcon,
        6 => CssPseudo::ColorSwatch,
        7 => CssPseudo::Column,
        8 => CssPseudo::Cue,
        9 => CssPseudo::CueFn,
        10 => CssPseudo::CueRegion,
        11 => CssPseudo::CueRegionFn,
        12 => CssPseudo::DetailsContent,
        13 => CssPseudo::FieldComponent,
        14 => CssPseudo::FieldSeparator,
        15 => CssPseudo::FieldText,
        16 => CssPseudo::FileSelectorButton,
        17 => CssPseudo::FirstLetter,
        18 => CssPseudo::FirstLine,
        19 => CssPseudo::GrammarError,
        20 => CssPseudo::Highlight,
        21 => CssPseudo::Marker,
        22 => CssPseudo::NthFragment,
        23 => CssPseudo::Part,
        24 => CssPseudo::Picker,
        25 => CssPseudo::PickerIcon,
        26 => CssPseudo::Placeholder,
        27 => CssPseudo::RevealIcon,
        28 => CssPseudo::ScrollButton,
        29 => CssPseudo::ScrollMarker,
        30 => CssPseudo::ScrollMarkerGroup,
        31 => CssPseudo::SearchText,
        32 => CssPseudo::Selection,
        33 => CssPseudo::SliderFill,
        34 => CssPseudo::SliderThumb,
        35 => CssPseudo::SliderTrack,
        36 => CssPseudo::Slotted,
        37 => CssPseudo::SpellingError,
        38 => CssPseudo::StepControl,
        39 => CssPseudo::StepDown,
        40 => CssPseudo::StepUp,
        41 => CssPseudo::TargetText,
        42 => CssPseudo::ViewTransition,
        43 => CssPseudo::ViewTransitionGroup,
        44 => CssPseudo::ViewTransitionGroupChildren,
        45 => CssPseudo::ViewTransitionImagePair,
        46 => CssPseudo::ViewTransitionNew,
        47 => CssPseudo::ViewTransitionOld,
        48 => CssPseudo::Active,
        49 => CssPseudo::ActiveViewTransition,
        50 => CssPseudo::ActiveViewTransitionType,
        51 => CssPseudo::AfterLegacy,
        52 => CssPseudo::AnimatedImage,
        53 => CssPseudo::AnyLink,
        54 => CssPseudo::Autofill,
        55 => CssPseudo::BeforeLegacy,
        56 => CssPseudo::Blank,
        57 => CssPseudo::Buffering,
        58 => CssPseudo::Checked,
        59 => CssPseudo::Current,
        60 => CssPseudo::CurrentFn,
        61 => CssPseudo::Default,
        62 => CssPseudo::Defined,
        63 => CssPseudo::Dir,
        64 => CssPseudo::Disabled,
        65 => CssPseudo::Empty,
        66 => CssPseudo::Enabled,
        67 => CssPseudo::First,
        68 => CssPseudo::FirstChild,
        69 => CssPseudo::FirstLetterLegacy,
        70 => CssPseudo::FirstLineLegacy,
        71 => CssPseudo::FirstOfPage,
        72 => CssPseudo::FirstOfType,
        73 => CssPseudo::Focus,
        74 => CssPseudo::FocusVisible,
        75 => CssPseudo::FocusWithin,
        76 => CssPseudo::Fullscreen,
        77 => CssPseudo::Future,
        78 => CssPseudo::Has,
        79 => CssPseudo::HasSlotted,
        80 => CssPseudo::Heading,
        81 => CssPseudo::HeadingFn,
        82 => CssPseudo::HighValue,
        83 => CssPseudo::Host,
        84 => CssPseudo::HostFn,
        85 => CssPseudo::HostContext,
        86 => CssPseudo::Hover,
        87 => CssPseudo::InRange,
        88 => CssPseudo::Indeterminate,
        89 => CssPseudo::InterestSource,
        90 => CssPseudo::InterestTarget,
        91 => CssPseudo::Invalid,
        92 => CssPseudo::Is,
        93 => CssPseudo::Lang,
        94 => CssPseudo::LastChild,
        95 => CssPseudo::LastOfPage,
        96 => CssPseudo::LastOfType,
        97 => CssPseudo::Left,
        98 => CssPseudo::Link,
        99 => CssPseudo::LinkTo,
        _ => lookup_entry_from_100(i),
    }
}

/// `lookup_entry` from index 100 on.
pub open spec fn lookup_entry_from_100(i: usize) -> CssPseudo {
    match i {
        100 => CssPseudo::LocalLink,
        101 => CssPseudo::LowValue,
        102 => CssPseudo::Matches,
        103 => CssPseudo::Modal,
        104 => CssPseudo::Muted,
        105 => CssPseudo::Not,
        106 => CssPseudo::Nth,
        107 => CssPseudo::NthChild,
        108 => CssPseudo::NthCol,
        109 => CssPseudo::NthLastChild,
        110 => CssPseudo::NthLastCol,
        111 => CssPseudo::NthLastOfType,
        112 => CssPseudo::NthOfPage,
        113 => CssPseudo::NthOfType,
        114 => CssPseudo::OnlyChild,
        115 => CssPseudo::OnlyOfType,
        116 => CssPseudo::Open,
        117 => CssPseudo::OptimalValue,
        118 => CssPseudo::Optional,
        119 => CssPseudo::OutOfRange,
        120 => CssPseudo::Past,
        121 => CssPseudo::Paused,
        122 => CssPseudo::PictureInPicture,
        123 => CssPseudo::PlaceholderShown,
        124 => CssPseudo::Playing,
        125 => CssPseudo::PopoverOpen,
        126 => CssPseudo::ReadOnly,
        127 => CssPseudo::ReadWrite,
        128 => CssPseudo::Required,
        129 => CssPseudo::Right,
        130 => CssPseudo::Root,
        131 => CssPseudo::Scope,
        132 => CssPseudo::Seeking,
        133 => CssPseudo::Snapped,
        134 => CssPseudo::SnappedBlock,
        135 => CssPseudo::SnappedInline,
        136 => CssPseudo::SnappedX,
        137 => CssPseudo::SnappedY,
        138 => CssPseudo::Stalled,
        139 => CssPseudo::StartOfPage,
        140 => CssPseudo::State,
        141 => CssPseudo::Target,
        142 => CssPseudo::TargetAfter,
        143 => CssPseudo::TargetBefore,
        144 => CssPseudo::TargetCurrent,
        145 => CssPseudo::Unchecked,
        146 => CssPseudo::UserInvalid,
        147 => CssPseudo::UserValid,
        148 => CssPseudo::Valid,
        149 => CssPseudo::Visited,
        150 => CssPseudo::VolumeLocked,
        151 => CssPseudo::Where,
        152 => CssPseudo::XrOverlay,
        _ => CssPseudo::XrOverlay,
    }
}

impl CssPseudo {
    /// The selector's name, colons included; empty for an unknown one.
    pub open spec fn spec_name(&self) -> Seq<char> {
        match self {
            CssPseudo::After => "::after"@,
            CssPseudo::Backdrop => "::backdrop"@,
            CssPseudo::Before => "::before"@,
            CssPseudo::Checkmark => "::checkmark"@,
            CssPseudo::ClearIcon => "::clear-icon"@,
            CssPseudo::ColorSwatch => "::color-swatch"@,
            CssPseudo::Column => "::column"@,
            CssPseudo::Cue => "::cue"@,
            CssPseudo::CueRegion => "::cue-region"@,
            CssPseudo::CueRegionFn => "::cue-region()"@,
            CssPseudo::CueFn => "::cue()"@,
            CssPseudo::DetailsContent => "::details-content"@,
            CssPseudo::FieldComponent => "::field-component"@,
            CssPseudo::FieldSeparator => "::field-separator"@,
            CssPseudo::FieldText => "::field-text"@,
            CssPseudo::FileSelectorButton => "::file-selector-button"@,
            CssPseudo::FirstLetter => "::first-letter"@,
            CssPseudo::FirstLine => "::first-line"@,
            CssPseudo::GrammarError => "::grammar-error"@,
            CssPseudo::Highlight => "::highlight()"@,
            CssPseudo::Marker => "::marker"@,
            CssPseudo::NthFragment => "::nth-fragment()"@,
            CssPseudo::Part => "::part()"@,
            CssPseudo::PickerIcon => "::picker-icon"@,
            CssPseudo::Picker => "::picker()"@,
            CssPseudo::Placeholder => "::placeholder"@,
            CssPseudo::RevealIcon => "::reveal-icon"@,
            CssPseudo::ScrollButton => "::scroll-button()"@,
            CssPseudo::ScrollMarker => "::scroll-marker"@,
            CssPseudo::ScrollMarkerGroup => "::scroll-marker-group"@,
            CssPseudo::SearchText => "::search-text"@,
            CssPseudo::Selection => "::selection"@,
            CssPseudo::SliderFill => "::slider-fill"@,
            CssPseudo::SliderThumb => "::slider-thumb"@,
            CssPseudo::SliderTrack => "::slider-track"@,
            CssPseudo::Slotted => "::slotted()"@,
            CssPseudo::SpellingError => "::spelling-error"@,
            CssPseudo::StepControl => "::step-control"@,
            CssPseudo::StepDown => "::step-down"@,
            CssPseudo::StepUp => "::step-up"@,
            CssPseudo::TargetText => "::target-text"@,
            CssPseudo::ViewTransition => "::view-transition"@,
            CssPseudo::ViewTransitionGroupChildren => "::view-transition-group-children()"@,
            CssPseudo::ViewTransitionGroup => "::view-transition-group()"@,
            CssPseudo::ViewTransitionImagePair => "::view-transition-image-pair()"@,
            CssPseudo::ViewTransitionNew => "::view-transition-new()"@,
            CssPseudo::ViewTransitionOld => "::view-transition-old()"@,
            CssPseudo::Active => ":active"@,
            CssPseudo::ActiveViewTransition => ":active-view-transition"@,
            CssPseudo::ActiveViewTransitionType => ":active-view-transition-type()"@,
            CssPseudo::AfterLegacy => ":after"@,
            CssPseudo::AnimatedImage => ":animated-image"@,
            CssPseudo::AnyLink => ":any-link"@,
            CssPseudo::Autofill => ":autofill"@,
            CssPseudo::BeforeLegacy => ":before"@,
            CssPseudo::Blank => ":blank"@,
            CssPseudo::Buffering => ":buffering"@,
            CssPseudo::Checked => ":checked"@,
            CssPseudo::Current => ":current"@,
            CssPseudo::CurrentFn => ":current()"@,
            CssPseudo::Default => ":default"@,
            CssPseudo::Defined => ":defined"@,
            CssPseudo::Dir => ":dir()"@,
            CssPseudo::Disabled => ":disabled"@,
            CssPseudo::Empty => ":empty"@,
            CssPseudo::Enabled => ":enabled"@,
            CssPseudo::First => ":first"@,
            CssPseudo::FirstChild => ":first-child"@,
            CssPseudo::FirstLetterLegacy => ":first-letter"@,
            CssPseudo::FirstLineLegacy => ":first-line"@,
            CssPseudo::FirstOfPage => ":first-of-page"@,
            CssPseudo::FirstOfType => ":first-of-type"@,
            CssPseudo::Focus => ":focus"@,
            CssPseudo::FocusVisible => ":focus-visible"@,
            CssPseudo::FocusWithin => ":focus-within"@,
            CssPseudo::Fullscreen => ":fullscreen"@,
            CssPseudo::Future => ":future"@,
            CssPseudo::HasSlotted => ":has-slotted"@,
            CssPseudo::Has => ":has()"@,
            CssPseudo::Heading => ":heading"@,
            CssPseudo::HeadingFn => ":heading()"@,
            CssPseudo::HighValue => ":high-value"@,
            CssPseudo::Host => ":host"@,
            CssPseudo::HostContext => ":host-context()"@,
            CssPseudo::HostFn => ":host()"@,
            CssPseudo::Hover => ":hover"@,
            CssPseudo::InRange => ":in-range"@,
            CssPseudo::Indeterminate => ":indeterminate"@,
            CssPseudo::InterestSource => ":interest-source"@,
            CssPseudo::InterestTarget => ":interest-target"@,
            CssPseudo::Invalid => ":invalid"@,
            CssPseudo::Is => ":is()"@,
            CssPseudo::Lang => ":lang()"@,
            CssPseudo::LastChild => ":last-child"@,
            CssPseudo::LastOfPage => ":last-of-page"@,
            CssPseudo::LastOfType => ":last-of-type"@,
            CssPseudo::Left => ":left"@,
            CssPseudo::Link => ":link"@,
            CssPseudo::LinkTo => ":link-to()"@,
            CssPseudo::LocalLink => ":local-link"@,
            _ => self.spec_name_from_100(),
        }
    }

    /// `spec_name` for the values from the 100-th on.
    pub open spec fn spec_name_from_100(&self) -> Seq<char> {
        match self {
            CssPseudo::LowValue => ":low-value"@,
            CssPseudo::Matches => ":matches()"@,
            CssPseudo::Modal => ":modal"@,
            CssPseudo::Muted => ":muted"@,
            CssPseudo::Not => ":not()"@,
            CssPseudo::NthChild => ":nth-child()"@,
            CssPseudo::NthCol => ":nth-col()"@,
            CssPseudo::NthLastChild => ":nth-last-child()"@,
            CssPseudo::NthLastCol => ":nth-last-col()"@,
            CssPseudo::NthLastOfType => ":nth-last-of-type()"@,
            CssPseudo::NthOfPage => ":nth-of-page()"@,
            CssPseudo::NthOfType => ":nth-of-type()"@,
            CssPseudo::Nth => ":nth()"@,
            CssPseudo::OnlyChild => ":only-child"@,
            CssPseudo::OnlyOfType => ":only-of-type"@,
            CssPseudo::Open => ":open"@,
            CssPseudo::OptimalValue => ":optimal-value"@,
            CssPseudo::Optional => ":optional"@,
            CssPseudo::OutOfRange => ":out-of-range"@,
            CssPseudo::Past => ":past"@,
            CssPseudo::Paused => ":paused"@,
            CssPseudo::PictureInPicture => ":picture-in-picture"@,
            CssPseudo::PlaceholderShown => ":placeholder-shown"@,
            CssPseudo::Playing => ":playing"@,
            CssPseudo::PopoverOpen => ":popover-open"@,
            CssPseudo::ReadOnly => ":read-only"@,
            CssPseudo::ReadWrite => ":read-write"@,
            CssPseudo::Required => ":required"@,
            CssPseudo::Right => ":right"@,
            CssPseudo::Root => ":root"@,
            CssPseudo::Scope => ":scope"@,
            CssPseudo::Seeking => ":seeking"@,
            CssPseudo::Snapped => ":snapped"@,
            CssPseudo::SnappedBlock => ":snapped-block"@,
            CssPseudo::SnappedInline => ":snapped-inline"@,
            CssPseudo::SnappedX => ":snapped-x"@,
            CssPseudo::SnappedY => ":snapped-y"@,
            CssPseudo::Stalled => ":stalled"@,
            CssPseudo::StartOfPage => ":start-of-page"@,
            CssPseudo::State => ":state()"@,
            CssPseudo::Target => ":target"@,
            CssPseudo::TargetAfter => ":target-after"@,
            CssPseudo::TargetBefore => ":target-before"@,
            CssPseudo::TargetCurrent => ":target-current"@,
            CssPseudo::Unchecked => ":unchecked"@,
            CssPseudo::UserInvalid => ":user-invalid"@,
            CssPseudo::UserValid => ":user-valid"@,
            CssPseudo::Valid => ":valid"@,
            CssPseudo::Visited => ":visited"@,
            CssPseudo::VolumeLocked => ":volume-locked"@,
            CssPseudo::Where => ":where()"@,
            CssPseudo::XrOverlay => ":xr-overlay"@,
            CssPseudo::Ampersand => "&"@,
            CssPseudo::Unknown(_) => Seq::empty(),
            _ => Seq::empty(),
        }
    }

    /// Whether `from_name` recognises this value by its name.
    pub open spec fn is_listed(&self) -> bool {
        !(self is Unknown)
    }

    /// Where this value stands in the lookup table.
    pub open spec fn lookup_position(&self) -> usize {
        match self {
            CssPseudo::After => 1,
            CssPseudo::Backdrop => 2,
            CssPseudo::Before => 3,
            CssPseudo::Checkmark => 4,
            CssPseudo::ClearIcon => 5,
            CssPseudo::ColorSwatch => 6,
            CssPseudo::Column => 7,
            CssPseudo::Cue => 8,
            CssPseudo::CueRegion => 10,
            CssPseudo::CueRegionFn => 11,
            CssPseudo::CueFn => 9,
            CssPseudo::DetailsContent => 12,
            CssPseudo::FieldComponent => 13,
            CssPseudo::FieldSeparator => 14,
            CssPseudo::FieldText => 15,
            CssPseudo::FileSelectorButton => 16,
            CssPseudo::FirstLetter => 17,
            CssPseudo::FirstLine => 18,
            CssPseudo::GrammarError => 19,
            CssPseudo::Highlight => 20,
            CssPseudo::Marker => 21,
            CssPseudo::NthFragment => 22,
            CssPseudo::Part => 23,
            CssPseudo::PickerIcon => 25,
            CssPseudo::Picker => 24,
            CssPseudo::Placeholder => 26,
            CssPseudo::RevealIcon => 27,
            CssPseudo::ScrollButton => 28,
            CssPseudo::ScrollMarker => 29,
            CssPseudo::ScrollMarkerGroup => 30,
            CssPseudo::SearchText => 31,
            CssPseudo::Selection => 32,
            CssPseudo::SliderFill => 33,
            CssPseudo::SliderThumb => 34,
            CssPseudo::SliderTrack => 35,
            CssPseudo::Slotted => 36,
            CssPseudo::SpellingError => 37,
            CssPseudo::StepControl => 38,
            CssPseudo::StepDown => 39,
            CssPseudo::StepUp => 40,
            CssPseudo::TargetText => 41,
            CssPseudo::ViewTransition => 42,
            CssPseudo::ViewTransitionGroupChildren => 44,
            CssPseudo::ViewTransitionGroup => 43,
            CssPseudo::ViewTransitionImagePair => 45,
            CssPseudo::ViewTransitionNew => 46,
            CssPseudo::ViewTransitionOld => 47,
            CssPseudo::Active => 48,
            CssPseudo::ActiveViewTransition => 49,
            CssPseudo::ActiveViewTransitionType => 50,
            CssPseudo::AfterLegacy => 51,
            CssPseudo::AnimatedImage => 52,
            CssPseudo::AnyLink => 53,
            CssPseudo::Autofill => 54,
            CssPseudo::BeforeLegacy => 55,
            CssPseudo::Blank => 56,
            CssPseudo::Buffering => 57,
            CssPseudo::Checked => 58,
            CssPseudo::Current => 59,
            CssPseudo::CurrentFn => 60,
            CssPseudo::Default => 61,
            CssPseudo::Defined => 62,
            CssPseudo::Dir => 63,
            CssPseudo::Disabled => 64,
            CssPseudo::Empty => 65,
            CssPseudo::Enabled => 66,
            CssPseudo::First => 67,
            CssPseudo::FirstChild => 68,
            CssPseudo::FirstLetterLegacy => 69,
            CssPseudo::FirstLineLegacy => 70,
            CssPseudo::FirstOfPage => 71,
            CssPseudo::FirstOfType => 72,
            CssPseudo::Focus => 73,
            CssPseudo::FocusVisible => 74,
            CssPseudo::FocusWithin => 75,
            CssPseudo::Fullscreen => 76,
            CssPseudo::Future => 77,
            CssPseudo::HasSlotted => 79,
            CssPseudo::Has => 78,
            CssPseudo::Heading => 80,
            CssPseudo::HeadingFn => 81,
            CssPseudo::HighValue => 82,
            CssPseudo::Host => 83,
            CssPseudo::HostContext => 85,
            CssPseudo::HostFn => 84,
            CssPseudo::Hover => 86,
            CssPseudo::InRange => 87,
            CssPseudo::Indeterminate => 88,
            CssPseudo::InterestSource => 89,
            CssPseudo::InterestTarget => 90,
            CssPseudo::Invalid => 91,
            CssPseudo::Is => 92,
            CssPseudo::Lang => 93,
            CssPseudo::LastChild => 94,
            CssPseudo::LastOfPage => 95,
            CssPseudo::LastOfType => 96,
            CssPseudo::Left => 97,
            CssPseudo::Link => 98,
            CssPseudo::LinkTo => 99,
            CssPseudo::LocalLink => 100,
            _ => self.lookup_position_from_100(),
        }
    }

    /// `lookup_position` for the values from the 100-th on.
    pub open spec fn lookup_position_from_100(&self) -> usize {
        match self {
            CssPseudo::LowValue => 101,
            CssPseudo::Matches => 102,
            CssPseudo::Modal => 103,
            CssPseudo::Muted => 104,
            CssPseudo::Not => 105,
            CssPseudo::NthChild => 107,
            CssPseudo::NthCol => 108,
            CssPseudo::NthLastChild => 109,
            CssPseudo::NthLastCol => 110,
            CssPseudo::NthLastOfType => 111,
            CssPseudo::NthOfPage => 112,
            CssPseudo::NthOfType => 113,
            CssPseudo::Nth => 106,
            CssPseudo::OnlyChild => 114,
            CssPseudo::OnlyOfType => 115,
            CssPseudo::Open => 116,
            CssPseudo::OptimalValue => 117,
            CssPseudo::Optional => 118,
            CssPseudo::OutOfRange => 119,
            CssPseudo::Past => 120,
            CssPseudo::Paused => 121,
            CssPseudo::PictureInPicture => 122,
            CssPseudo::PlaceholderShown => 123,
            CssPseudo::Playing => 124,
            CssPseudo::PopoverOpen => 125,
            CssPseudo::ReadOnly => 126,
            CssPseudo::ReadWrite => 127,
            CssPseudo::Required => 128,
            CssPseudo::Right => 129,
            CssPseudo::Root => 130,
            CssPseudo::Scope => 131,
            CssPseudo::Seeking => 132,
            CssPseudo::Snapped => 133,
            CssPseudo::SnappedBlock => 134,
            CssPseudo::SnappedInline => 135,
            CssPseudo::SnappedX => 136,
            CssPseudo::SnappedY => 137,
            CssPseudo::Stalled => 138,
            CssPseudo::StartOfPage => 139,
            CssPseudo::State => 140,
            CssPseudo::Target => 141,
            CssPseudo::TargetAfter => 142,
            CssPseudo::TargetBefore => 143,
            CssPseudo::TargetCurrent => 144,
            CssPseudo::Unchecked => 145,
            CssPseudo::UserInvalid => 146,
            CssPseudo::UserValid => 147,
            CssPseudo::Valid => 148,
            CssPseudo::Visited => 149,
            CssPseudo::VolumeLocked => 150,
            CssPseudo::Where => 151,
            CssPseudo::XrOverlay => 152,
            CssPseudo::Ampersand => 0,
            CssPseudo::Unknown(_) => 0,
            _ => 0,
        }
    }

    /// The listed value named `s`, if there is one.
    pub open spec fn spec_lookup(s: Seq<char>) -> Option<CssPseudo> {
        if exists|p: CssPseudo| p.is_listed() && #[trigger] p.spec_name() == s {
            Some(choose|p: CssPseudo| p.is_listed() && #[trigger] p.spec_name() == s)
        } else {
            None
        }
    }

    /// The name of this value; empty for an unknown one.
    pub fn name(&self) -> (r: &'static str)
        ensures
            r@ == self.spec_name(),
    {
        match self {
            CssPseudo::After => "::after",
            CssPseudo::Backdrop => "::backdrop",
            CssPseudo::Before => "::before",
            CssPseudo::Checkmark => "::checkmark",
            CssPseudo::ClearIcon => "::clear-icon",
            CssPseudo::ColorSwatch => "::color-swatch",
            CssPseudo::Column => "::column",
            CssPseudo::Cue => "::cue",
            CssPseudo::CueRegion => "::cue-region",
            CssPseudo::CueRegionFn => "::cue-region()",
            CssPseudo::CueFn => "::cue()",
            CssPseudo::DetailsContent => "::details-content",
            CssPseudo::FieldComponent => "::field-component",
            CssPseudo::FieldSeparator => "::field-separator",
            CssPseudo::FieldText => "::field-text",
            CssPseudo::FileSelectorButton => "::file-selector-button",
            CssPseudo::FirstLetter => "::first-letter",
            CssPseudo::FirstLine => "::first-line",
            CssPseudo::GrammarError => "::grammar-error",
            CssPseudo::Highlight => "::highlight()",
            CssPseudo::Marker => "::marker",
            CssPseudo::NthFragment => "::nth-fragment()",
            CssPseudo::Part => "::part()",
            CssPseudo::PickerIcon => "::picker-icon",
            CssPseudo::Picker => "::picker()",
            CssPseudo::Placeholder => "::placeholder",
            CssPseudo::RevealIcon => "::reveal-icon",
            CssPseudo::ScrollButton => "::scroll-button()",
            CssPseudo::ScrollMarker => "::scroll-marker",
            CssPseudo::ScrollMarkerGroup => "::scroll-marker-group",
            CssPseudo::SearchText => "::search-text",
            CssPseudo::Selection => "::selection",
            CssPseudo::SliderFill => "::slider-fill",
            CssPseudo::SliderThumb => "::slider-thumb",
            CssPseudo::SliderTrack => "::slider-track",
            CssPseudo::Slotted => "::slotted()",
            CssPseudo::SpellingError => "::spelling-error",
            CssPseudo::StepControl => "::step-control",
            CssPseudo::StepDown => "::step-down",
            CssPseudo::StepUp => "::step-up",
            CssPseudo::TargetText => "::target-text",
            CssPseudo::ViewTransition => "::view-transition",
            CssPseudo::ViewTransitionGroupChildren => "::view-transition-group-children()",
            CssPseudo::ViewTransitionGroup => "::view-transition-group()",
            CssPseudo::ViewTransitionImagePair => "::view-transition-image-pair()",
            CssPseudo::ViewTransitionNew => "::view-transition-new()",
            CssPseudo::ViewTransitionOld => "::view-transition-old()",
            CssPseudo::Active => ":active",
            CssPseudo::ActiveViewTransition => ":active-view-transition",
            CssPseudo::ActiveViewTransitionType => ":active-view-transition-type()",
            CssPseudo::AfterLegacy => ":after",
            CssPseudo::AnimatedImage => ":animated-image",
            CssPseudo::AnyLink => ":any-link",
            CssPseudo::Autofill => ":autofill",
            CssPseudo::BeforeLegacy => ":before",
            CssPseudo::Blank => ":blank",
            CssPseudo::Buffering => ":buffering",
            CssPseudo::Checked => ":checked",
            CssPseudo::Current => ":current",
            CssPseudo::CurrentFn => ":current()",
            CssPseudo::Default => ":default",
            CssPseudo::Defined => ":defined",
            CssPseudo::Dir => ":dir()",
            CssPseudo::Disabled => ":disabled",
            CssPseudo::Empty => ":empty",
            CssPseudo::Enabled => ":enabled",
            CssPseudo::First => ":first",
            CssPseudo::FirstChild => ":first-child",
            CssPseudo::FirstLetterLegacy => ":first-letter",
            CssPseudo::FirstLineLegacy => ":first-line",
            CssPseudo::FirstOfPage => ":first-of-page",
            CssPseudo::FirstOfType => ":first-of-type",
            CssPseudo::Focus => ":focus",
            CssPseudo::FocusVisible => ":focus-visible",
            CssPseudo::FocusWithin => ":focus-within",
            CssPseudo::Fullscreen => ":fullscreen",
            CssPseudo::Future => ":future",
            CssPseudo::HasSlotted => ":has-slotted",
            CssPseudo::Has => ":has()",
            CssPseudo::Heading => ":heading",
            CssPseudo::HeadingFn => ":heading()",
            CssPseudo::HighValue => ":high-value",
            CssPseudo::Host => ":host",
            CssPseudo::HostContext => ":host-context()",
            CssPseudo::HostFn => ":host()",
            CssPseudo::Hover => ":hover",
            CssPseudo::InRange => ":in-range",
            CssPseudo::Indeterminate => ":indeterminate",
            CssPseudo::InterestSource => ":interest-source",
            CssPseudo::InterestTarget => ":interest-target",
            CssPseudo::Invalid => ":invalid",
            CssPseudo::Is => ":is()",
            CssPseudo::Lang => ":lang()",
            CssPseudo::LastChild => ":last-child",
            CssPseudo::LastOfPage => ":last-of-page",
            CssPseudo::LastOfType => ":last-of-type",
            CssPseudo::Left => ":left",
            CssPseudo::Link => ":link",
            CssPseudo::LinkTo => ":link-to()",
            CssPseudo::LocalLink => ":local-link",
            _ => self.name_from_100(),
        }
    }

    fn name_from_100(&self) -> (r: &'static str)
        ensures
            r@ == self.spec_name_from_100(),
    {
        match self {
            CssPseudo::LowValue => ":low-value",
            CssPseudo::Matches => ":matches()",
            CssPseudo::Modal => ":modal",
            CssPseudo::Muted => ":muted",
            CssPseudo::Not => ":not()",
            CssPseudo::NthChild => ":nth-child()",
            CssPseudo::NthCol => ":nth-col()",
            CssPseudo::NthLastChild => ":nth-last-child()",
            CssPseudo::NthLastCol => ":nth-last-col()",
            CssPseudo::NthLastOfType => ":nth-last-of-type()",
            CssPseudo::NthOfPage => ":nth-of-page()",
            CssPseudo::NthOfType => ":nth-of-type()",
            CssPseudo::Nth => ":nth()",
            CssPseudo::OnlyChild => ":only-child",
            CssPseudo::OnlyOfType => ":only-of-type",
            CssPseudo::Open => ":open",
            CssPseudo::OptimalValue => ":optimal-value",
            CssPseudo::Optional => ":optional",
            CssPseudo::OutOfRange => ":out-of-range",
            CssPseudo::Past => ":past",
            CssPseudo::Paused => ":paused",
            CssPseudo::PictureInPicture => ":picture-in-picture",
            CssPseudo::PlaceholderShown => ":placeholder-shown",
            CssPseudo::Playing => ":playing",
            CssPseudo::PopoverOpen => ":popover-open",
            CssPseudo::ReadOnly => ":read-only",
            CssPseudo::ReadWrite => ":read-write",
            CssPseudo::Required => ":required",
            CssPseudo::Right => ":right",
            CssPseudo::Root => ":root",
            CssPseudo::Scope => ":scope",
            CssPseudo::Seeking => ":seeking",
            CssPseudo::Snapped => ":snapped",
            CssPseudo::SnappedBlock => ":snapped-block",
            CssPseudo::SnappedInline => ":snapped-inline",
            CssPseudo::SnappedX => ":snapped-x",
            CssPseudo::SnappedY => ":snapped-y",
            CssPseudo::Stalled => ":stalled",
            CssPseudo::StartOfPage => ":start-of-page",
            CssPseudo::State => ":state()",
            CssPseudo::Target => ":target",
            CssPseudo::TargetAfter => ":target-after",
            CssPseudo::TargetBefore => ":target-before",
            CssPseudo::TargetCurrent => ":target-current",
            CssPseudo::Unchecked => ":unchecked",
            CssPseudo::UserInvalid => ":user-invalid",
            CssPseudo::UserValid => ":user-valid",
            CssPseudo::Valid => ":valid",
            CssPseudo::Visited => ":visited",
            CssPseudo::VolumeLocked => ":volume-locked",
            CssPseudo::Where => ":where()",
            CssPseudo::XrOverlay => ":xr-overlay",
            CssPseudo::Ampersand => "&",
            CssPseudo::Unknown(_) => {
                proof {
                    reveal_strlit("");
                }
                ""
            },
            _ => {
                proof {
                    reveal_strlit("");
                }
                ""
            },
        }
    }

    /// Looks a name up. A name that is not listed gives `Unknown` holding the name.
    pub fn from_name(name: &str) -> (r: Self)
        ensures
            match Self::spec_lookup(name@) {
                Some(p) => r == p,
                None => r matches CssPseudo::Unknown(s) && s@ == name@,
            },
    {
        let key = chars_of(name);
        proof {
            lemma_lookup_sorted();
        }
        let mut lo: usize = 0;
        let mut hi: usize = LOOKUP_LEN;
        while lo < hi
            invariant
                lo <= hi <= LOOKUP_LEN,
                key@ == name@,
                forall|i: usize, j: usize|
                    i < j < LOOKUP_LEN ==> name_less(#[trigger] lookup_name(i), #[trigger] lookup_name(j)),
                forall|i: usize| i < lo ==> name_less(#[trigger] lookup_name(i), key@),
                forall|i: usize| hi <= i < LOOKUP_LEN ==> name_less(key@, #[trigger] lookup_name(i)),
            decreases hi - lo,
        {
            let mid = lo + (hi - lo) / 2;
            let cand = chars_of(lookup_name_at(mid));
            match compare_char_seqs(cand.as_slice(), key.as_slice()) {
                NameOrder::Less => {
                    assert forall|i: usize| i < mid + 1 implies name_less(#[trigger] lookup_name(i), key@) by {
                        if i < mid {
                            lemma_name_less_transitive(lookup_name(i), lookup_name(mid), key@);
                        }
                    }
                    lo = mid + 1;
                },
                NameOrder::Equal => {
                    let candidate = lookup_at(mid);
                    proof {
                        lemma_lookup_position(candidate);
                        lemma_lookup_of_name(candidate);
                    }
                    return candidate;
                },
                NameOrder::Greater => {
                    assert forall|i: usize| mid <= i < LOOKUP_LEN implies name_less(key@, #[trigger] lookup_name(i)) by {
                        if mid < i {
                            lemma_name_less_transitive(key@, lookup_name(mid), lookup_name(i));
                        }
                    }
                    hi = mid;
                },
            }
        }
        proof {
            assert forall|p: CssPseudo| p.is_listed() implies #[trigger] p.spec_name() != name@ by {
                lemma_lookup_position(p);
                let k = p.lookup_position();
                if k < lo {
                    lemma_name_less_asymmetric(lookup_name(k), key@);
                } else {
                    lemma_name_less_asymmetric(key@, lookup_name(k));
                }
            }
        }
        CssPseudo::Unknown(String::from_str(name))
    }
}

/// The `i`-th entry of the lookup table.
fn lookup_at(i: usize) -> (r: CssPseudo)
    requires
        0 <= i < LOOKUP_LEN,
    ensures
        r.is_listed(),
        r.lookup_position() == i,
{
    match i {
        0 => {
            proof {
                assert(CssPseudo::Ampersand.lookup_position() == 0);
            }
            CssPseudo::Ampersand
        },
        1 => {
            proof {
                assert(CssPseudo::After.lookup_position() == 1);
            }
            CssPseudo::After
        },
        2 => {
            proof {
                assert(CssPseudo::Backdrop.lookup_position() == 2);
            }
            CssPseudo::Backdrop
        },
        3 => {
            proof {
                assert(CssPseudo::Before.lookup_position() == 3);
            }
            CssPseudo::Before
        },
        4 => {
            proof {
                assert(CssPseudo::Checkmark.lookup_position() == 4);
            }
            CssPseudo::Checkmark
        },
        5 => {
            proof {
                assert(CssPseudo::ClearIcon.lookup_position() == 5);
            }
            CssPseudo::ClearIcon
        },
        6 => {
            proof {
                assert(CssPseudo::ColorSwatch.lookup_position() == 6);
            }
            CssPseudo::ColorSwatch
        },
        7 => {
            proof {
                assert(CssPseudo::Column.lookup_position() == 7);
            }
            CssPseudo::Column
        },
        8 => {
            proof {
                assert(CssPseudo::Cue.lookup_position() == 8);
            }
            CssPseudo::Cue
        },
        9 => {
            proof {
                assert(CssPseudo::CueFn.lookup_position() == 9);
            }
            CssPseudo::CueFn
        },
        10 => {
            proof {
                assert(CssPseudo::CueRegion.lookup_position() == 10);
            }
            CssPseudo::CueRegion
        },
        11 => {
            proof {
                assert(CssPseudo::CueRegionFn.lookup_position() == 11);
            }
            CssPseudo::CueRegionFn
        },
        12 => {
            proof {
                assert(CssPseudo::DetailsContent.lookup_position() == 12);
            }
            CssPseudo::DetailsContent
        },
        13 => {
            proof {
                assert(CssPseudo::FieldComponent.lookup_position() == 13);
            }
            CssPseudo::FieldComponent
        },
        14 => {
            proof {
                assert(CssPseudo::FieldSeparator.lookup_position() == 14);
            }
            CssPseudo::FieldSeparator
        },
        15 => {
            proof {
                assert(CssPseudo::FieldText.lookup_position() == 15);
            }
            CssPseudo::FieldText
        },
        16 => {
            proof {
                assert(CssPseudo::FileSelectorButton.lookup_position() == 16);
            }
            CssPseudo::FileSelectorButton
        },
        17 => {
            proof {
                assert(CssPseudo::FirstLetter.lookup_position() == 17);
            }
            CssPseudo::FirstLetter
        },
        18 => {
            proof {
                assert(CssPseudo::FirstLine.lookup_position() == 18);
            }
            CssPseudo::FirstLine
        },
        19 => {
            proof {
                assert(CssPseudo::GrammarError.lookup_position() == 19);
            }
            CssPseudo::GrammarError
        },
        20 => {
            proof {
                assert(CssPseudo::Highlight.lookup_position() == 20);
            }
            CssPseudo::Highlight
        },
        21 => {
            proof {
                assert(CssPseudo::Marker.lookup_position() == 21);
            }
            CssPseudo::Marker
        },
        22 => {
            proof {
                assert(CssPseudo::NthFragment.lookup_position() == 22);
            }
            CssPseudo::NthFragment
        },
        23 => {
            proof {
                assert(CssPseudo::Part.lookup_position() == 23);
            }
            CssPseudo::Part
        },
        24 => {
            proof {
                assert(CssPseudo::Picker.lookup_position() == 24);
            }
            CssPseudo::Picker
        },
        25 => {
            proof {
                assert(CssPseudo::PickerIcon.lookup_position() == 25);
            }
            CssPseudo::PickerIcon
        },
        26 => {
            proof {
                assert(CssPseudo::Placeholder.lookup_position() == 26);
            }
            CssPseudo::Placeholder
        },
        27 => {
            proof {
                assert(CssPseudo::RevealIcon.lookup_position() == 27);
            }
            CssPseudo::RevealIcon
        },
        28 => {
            proof {
                assert(CssPseudo::ScrollButton.lookup_position() == 28);
            }
            CssPseudo::ScrollButton
        },
        29 => {
            proof {
                assert(CssPseudo::ScrollMarker.lookup_position() == 29);
            }
            CssPseudo::ScrollMarker
        },
        30 => {
            proof {
                assert(CssPseudo::ScrollMarkerGroup.lookup_position() == 30);
            }
            CssPseudo::ScrollMarkerGroup
        },
        31 => {
            proof {
                assert(CssPseudo::SearchText.lookup_position() == 31);
            }
            CssPseudo::SearchText
        },
        32 => {
            proof {
                assert(CssPseudo::Selection.lookup_position() == 32);
            }
            CssPseudo::Selection
        },
        33 => {
            proof {
                assert(CssPseudo::SliderFill.lookup_position() == 33);
            }
            CssPseudo::SliderFill
        },
        34 => {
            proof {
                assert(CssPseudo::SliderThumb.lookup_position() == 34);
            }
            CssPseudo::SliderThumb
        },
        35 => {
            proof {
                assert(CssPseudo::SliderTrack.lookup_position() == 35);
            }
            CssPseudo::SliderTrack
        },
        36 => {
            proof {
                assert(CssPseudo::Slotted.lookup_position() == 36);
            }
            CssPseudo::Slotted
        },
        37 => {
            proof {
                assert(CssPseudo::SpellingError.lookup_position() == 37);
            }
            CssPseudo::SpellingError
        },
        38 => {
            proof {
                assert(CssPseudo::StepControl.lookup_position() == 38);
            }
            CssPseudo::StepControl
        },
        39 => {
            proof {
                assert(CssPseudo::StepDown.lookup_position() == 39);
            }
            CssPseudo::StepDown
        },
        40 => {
            proof {
                assert(CssPseudo::StepUp.lookup_position() == 40);
            }
            CssPseudo::StepUp
        },
        41 => {
            proof {
                assert(CssPseudo::TargetText.lookup_position() == 41);
            }
            CssPseudo::TargetText
        },
        42 => {
            proof {
                assert(CssPseudo::ViewTransition.lookup_position() == 42);
            }
            CssPseudo::ViewTransition
        },
        43 => {
            proof {
                assert(CssPseudo::ViewTransitionGroup.lookup_position() == 43);
            }
            CssPseudo::ViewTransitionGroup
        },
        44 => {
            proof {
                assert(CssPseudo::ViewTransitionGroupChildren.lookup_position() == 44);
            }
            CssPseudo::ViewTransitionGroupChildren
        },
        45 => {
            proof {
                assert(CssPseudo::ViewTransitionImagePair.lookup_position() == 45);
            }
            CssPseudo::ViewTransitionImagePair
        },
        46 => {
            proof {
                assert(CssPseudo::ViewTransitionNew.lookup_position() == 46);
            }
            CssPseudo::ViewTransitionNew
        },
        47 => {
            proof {
                assert(CssPseudo::ViewTransitionOld.lookup_position() == 47);
            }
            CssPseudo::ViewTransitionOld
        },
        48 => {
            proof {
                assert(CssPseudo::Active.lookup_position() == 48);
            }
            CssPseudo::Active
        },
        49 => {
            proof {
                assert(CssPseudo::ActiveViewTransition.lookup_position() == 49);
            }
            CssPseudo::ActiveViewTransition
        },
        50 => {
            proof {
                assert(CssPseudo::ActiveViewTransitionType.lookup_position() == 50);
            }
            CssPseudo::ActiveViewTransitionType
        },
        51 => {
            proof {
                assert(CssPseudo::AfterLegacy.lookup_position() == 51);
            }
            CssPseudo::AfterLegacy
        },
        52 => {
            proof {
                assert(CssPseudo::AnimatedImage.lookup_position() == 52);
            }
            CssPseudo::AnimatedImage
        },
        53 => {
            proof {
                assert(CssPseudo::AnyLink.lookup_position() == 53);
            }
            CssPseudo::AnyLink
        },
        54 => {
            proof {
                assert(CssPseudo::Autofill.lookup_position() == 54);
            }
            CssPseudo::Autofill
        },
        55 => {
            proof {
                assert(CssPseudo::BeforeLegacy.lookup_position() == 55);
            }
            CssPseudo::BeforeLegacy
        },
        56 => {
            proof {
                assert(CssPseudo::Blank.lookup_position() == 56);
            }
            CssPseudo::Blank
        },
        57 => {
            proof {
                assert(CssPseudo::Buffering.lookup_position() == 57);
            }
            CssPseudo::Buffering
        },
        58 => {
            proof {
                assert(CssPseudo::Checked.lookup_position() == 58);
            }
            CssPseudo::Checked
        },
        59 => {
            proof {
                assert(CssPseudo::Current.lookup_position() == 59);
            }
            CssPseudo::Current
        },
        60 => {
            proof {
                assert(CssPseudo::CurrentFn.lookup_position() == 60);
            }
            CssPseudo::CurrentFn
        },
        61 => {
            proof {
                assert(CssPseudo::Default.lookup_position() == 61);
            }
            CssPseudo::Default
        },
        62 => {
            proof {
                assert(CssPseudo::Defined.lookup_position() == 62);
            }
            CssPseudo::Defined
        },
        63 => {
            proof {
                assert(CssPseudo::Dir.lookup_position() == 63);
            }
            CssPseudo::Dir
        },
        64 => {
            proof {
                assert(CssPseudo::Disabled.lookup_position() == 64);
            }
            CssPseudo::Disabled
        },
        65 => {
            proof {
                assert(CssPseudo::Empty.lookup_position() == 65);
            }
            CssPseudo::Empty
        },
        66 => {
            proof {
                assert(CssPseudo::Enabled.lookup_position() == 66);
            }
            CssPseudo::Enabled
        },
        67 => {
            proof {
                assert(CssPseudo::First.lookup_position() == 67);
            }
            CssPseudo::First
        },
        68 => {
            proof {
                assert(CssPseudo::FirstChild.lookup_position() == 68);
            }
            CssPseudo::FirstChild
        },
        69 => {
            proof {
                assert(CssPseudo::FirstLetterLegacy.lookup_position() == 69);
            }
            CssPseudo::FirstLetterLegacy
        },
        70 => {
            proof {
                assert(CssPseudo::FirstLineLegacy.lookup_position() == 70);
            }
            CssPseudo::FirstLineLegacy
        },
        71 => {
            proof {
                assert(CssPseudo::FirstOfPage.lookup_position() == 71);
            }
            CssPseudo::FirstOfPage
        },
        72 => {
            proof {
                assert(CssPseudo::FirstOfType.lookup_position() == 72);
            }
            CssPseudo::FirstOfType
        },
        73 => {
            proof {
                assert(CssPseudo::Focus.lookup_position() == 73);
            }
            CssPseudo::Focus
        },
        74 => {
            proof {
                assert(CssPseudo::FocusVisible.lookup_position() == 74);
            }
            CssPseudo::FocusVisible
        },
        75 => {
            proof {
                assert(CssPseudo::FocusWithin.lookup_position() == 75);
            }
            CssPseudo::FocusWithin
        },
        76 => {
            proof {
                assert(CssPseudo::Fullscreen.lookup_position() == 76);
            }
            CssPseudo::Fullscreen
        },
        77 => {
            proof {
                assert(CssPseudo::Future.lookup_position() == 77);
            }
            CssPseudo::Future
        },
        78 => {
            proof {
                assert(CssPseudo::Has.lookup_position() == 78);
            }
            CssPseudo::Has
        },
        79 => {
            proof {
                assert(CssPseudo::HasSlotted.lookup_position() == 79);
            }
            CssPseudo::HasSlotted
        },
        80 => {
            proof {
                assert(CssPseudo::Heading.lookup_position() == 80);
            }
            CssPseudo::Heading
        },
        81 => {
            proof {
                assert(CssPseudo::HeadingFn.lookup_position() == 81);
            }
            CssPseudo::HeadingFn
        },
        82 => {
            proof {
                assert(CssPseudo::HighValue.lookup_position() == 82);
            }
            CssPseudo::HighValue
        },
        83 => {
            proof {
                assert(CssPseudo::Host.lookup_position() == 83);
            }
            CssPseudo::Host
        },
        84 => {
            proof {
                assert(CssPseudo::HostFn.lookup_position() == 84);
            }
            CssPseudo::HostFn
        },
        85 => {
            proof {
                assert(CssPseudo::HostContext.lookup_position() == 85);
            }
            CssPseudo::HostContext
        },
        86 => {
            proof {
                assert(CssPseudo::Hover.lookup_position() == 86);
            }
            CssPseudo::Hover
        },
        87 => {
            proof {
                assert(CssPseudo::InRange.lookup_position() == 87);
            }
            CssPseudo::InRange
        },
        88 => {
            proof {
                assert(CssPseudo::Indeterminate.lookup_position() == 88);
            }
            CssPseudo::Indeterminate
        },
        89 => {
            proof {
                assert(CssPseudo::InterestSource.lookup_position() == 89);
            }
            CssPseudo::InterestSource
        },
        90 => {
            proof {
                assert(CssPseudo::InterestTarget.lookup_position() == 90);
            }
            CssPseudo::InterestTarget
        },
        91 => {
            proof {
                assert(CssPseudo::Invalid.lookup_position() == 91);
            }
            CssPseudo::Invalid
        },
        92 => {
            proof {
                assert(CssPseudo::Is.lookup_position() == 92);
            }
            CssPseudo::Is
        },
        93 => {
            proof {
                assert(CssPseudo::Lang.lookup_position() == 93);
            }
            CssPseudo::Lang
        },
        94 => {
            proof {
                assert(CssPseudo::LastChild.lookup_position() == 94);
            }
            CssPseudo::LastChild
        },
        95 => {
            proof {
                assert(CssPseudo::LastOfPage.lookup_position() == 95);
            }
            CssPseudo::LastOfPage
        },
        96 => {
            proof {
                assert(CssPseudo::LastOfType.lookup_position() == 96);
            }
            CssPseudo::LastOfType
        },
        97 => {
            proof {
                assert(CssPseudo::Left.lookup_position() == 97);
            }
            CssPseudo::Left
        },
        98 => {
            proof {
                assert(CssPseudo::Link.lookup_position() == 98);
            }
            CssPseudo::Link
        },
        99 => {
            proof {
                assert(CssPseudo::LinkTo.lookup_position() == 99);
            }
            CssPseudo::LinkTo
        },
        _ => lookup_at_from_100(i),
    }
}

/// `lookup_at` from index 100 on.
fn lookup_at_from_100(i: usize) -> (r: CssPseudo)
    requires
        100 <= i < LOOKUP_LEN,
    ensures
        r.is_listed(),
        r.lookup_position() == i,
{
    match i {
        100 => {
            proof {
                assert(CssPseudo::LocalLink.lookup_position() == 100);
            }
            CssPseudo::LocalLink
        },
        101 => {
            proof {
                assert(CssPseudo::LowValue.lookup_position() == 101);
            }
            CssPseudo::LowValue
        },
        102 => {
            proof {
                assert(CssPseudo::Matches.lookup_position() == 102);
            }
            CssPseudo::Matches
        },
        103 => {
            proof {
                assert(CssPseudo::Modal.lookup_position() == 103);
            }
            CssPseudo::Modal
        },
        104 => {
            proof {
                assert(CssPseudo::Muted.lookup_position() == 104);
            }
            CssPseudo::Muted
        },
        105 => {
            proof {
                assert(CssPseudo::Not.lookup_position() == 105);
            }
            CssPseudo::Not
        },
        106 => {
            proof {
                assert(CssPseudo::Nth.lookup_position() == 106);
            }
            CssPseudo::Nth
        },
        107 => {
            proof {
                assert(CssPseudo::NthChild.lookup_position() == 107);
            }
            CssPseudo::NthChild
        },
        108 => {
            proof {
                assert(CssPseudo::NthCol.lookup_position() == 108);
            }
            CssPseudo::NthCol
        },
        109 => {
            proof {
                assert(CssPseudo::NthLastChild.lookup_position() == 109);
            }
            CssPseudo::NthLastChild
        },
        110 => {
            proof {
                assert(CssPseudo::NthLastCol.lookup_position() == 110);
            }
            CssPseudo::NthLastCol
        },
        111 => {
            proof {
                assert(CssPseudo::NthLastOfType.lookup_position() == 111);
            }
            CssPseudo::NthLastOfType
        },
        112 => {
            proof {
                assert(CssPseudo::NthOfPage.lookup_position() == 112);
            }
            CssPseudo::NthOfPage
        },
        113 => {
            proof {
                assert(CssPseudo::NthOfType.lookup_position() == 113);
            }
            CssPseudo::NthOfType
        },
        114 => {
            proof {
                assert(CssPseudo::OnlyChild.lookup_position() == 114);
            }
            CssPseudo::OnlyChild
        },
        115 => {
            proof {
                assert(CssPseudo::OnlyOfType.lookup_position() == 115);
            }
            CssPseudo::OnlyOfType
        },
        116 => {
            proof {
                assert(CssPseudo::Open.lookup_position() == 116);
            }
            CssPseudo::Open
        },
        117 => {
            proof {
                assert(CssPseudo::OptimalValue.lookup_position() == 117);
            }
            CssPseudo::OptimalValue
        },
        118 => {
            proof {
                assert(CssPseudo::Optional.lookup_position() == 118);
            }
            CssPseudo::Optional
        },
        119 => {
            proof {
                assert(CssPseudo::OutOfRange.lookup_position() == 119);
            }
            CssPseudo::OutOfRange
        },
        120 => {
            proof {
                assert(CssPseudo::Past.lookup_position() == 120);
            }
            CssPseudo::Past
        },
        121 => {
            proof {
                assert(CssPseudo::Paused.lookup_position() == 121);
            }
            CssPseudo::Paused
        },
        122 => {
            proof {
                assert(CssPseudo::PictureInPicture.lookup_position() == 122);
            }
            CssPseudo::PictureInPicture
        },
        123 => {
            proof {
                assert(CssPseudo::PlaceholderShown.lookup_position() == 123);
            }
            CssPseudo::PlaceholderShown
        },
        124 => {
            proof {
                assert(CssPseudo::Playing.lookup_position() == 124);
            }
            CssPseudo::Playing
        },
        125 => {
            proof {
                assert(CssPseudo::PopoverOpen.lookup_position() == 125);
            }
            CssPseudo::PopoverOpen
        },
        126 => {
            proof {
                assert(CssPseudo::ReadOnly.lookup_position() == 126);
            }
            CssPseudo::ReadOnly
        },
        127 => {
            proof {
                assert(CssPseudo::ReadWrite.lookup_position() == 127);
            }
            CssPseudo::ReadWrite
        },
        128 => {
            proof {
                assert(CssPseudo::Required.lookup_position() == 128);
            }
            CssPseudo::Required
        },
        129 => {
            proof {
                assert(CssPseudo::Right.lookup_position() == 129);
            }
            CssPseudo::Right
        },
        130 => {
            proof {
                assert(CssPseudo::Root.lookup_position() == 130);
            }
            CssPseudo::Root
        },
        131 => {
            proof {
                assert(CssPseudo::Scope.lookup_position() == 131);
            }
            CssPseudo::Scope
        },
        132 => {
            proof {
                assert(CssPseudo::Seeking.lookup_position() == 132);
            }
            CssPseudo::Seeking
        },
        133 => {
            proof {
                assert(CssPseudo::Snapped.lookup_position() == 133);
            }
            CssPseudo::Snapped
        },
        134 => {
            proof {
                assert(CssPseudo::SnappedBlock.lookup_position() == 134);
            }
            CssPseudo::SnappedBlock
        },
        135 => {
            proof {
                assert(CssPseudo::SnappedInline.lookup_position() == 135);
            }
            CssPseudo::SnappedInline
        },
        136 => {
            proof {
                assert(CssPseudo::SnappedX.lookup_position() == 136);
            }
            CssPseudo::SnappedX
        },
        137 => {
            proof {
                assert(CssPseudo::SnappedY.lookup_position() == 137);
            }
            CssPseudo::SnappedY
        },
        138 => {
            proof {
                assert(CssPseudo::Stalled.lookup_position() == 138);
            }
            CssPseudo::Stalled
        },
        139 => {
            proof {
                assert(CssPseudo::StartOfPage.lookup_position() == 139);
            }
            CssPseudo::StartOfPage
        },
        140 => {
            proof {
                assert(CssPseudo::State.lookup_position() == 140);
            }
            CssPseudo::State
        },
        141 => {
            proof {
                assert(CssPseudo::Target.lookup_position() == 141);
            }
            CssPseudo::Target
        },
        142 => {
            proof {
                assert(CssPseudo::TargetAfter.lookup_position() == 142);
            }
            CssPseudo::TargetAfter
        },
        143 => {
            proof {
                assert(CssPseudo::TargetBefore.lookup_position() == 143);
            }
            CssPseudo::TargetBefore
        },
        144 => {
            proof {
                assert(CssPseudo::TargetCurrent.lookup_position() == 144);
            }
            CssPseudo::TargetCurrent
        },
        145 => {
            proof {
                assert(CssPseudo::Unchecked.lookup_position() == 145);
            }
            CssPseudo::Unchecked
        },
        146 => {
            proof {
                assert(CssPseudo::UserInvalid.lookup_position() == 146);
            }
            CssPseudo::UserInvalid
        },
        147 => {
            proof {
                assert(CssPseudo::UserValid.lookup_position() == 147);
            }
            CssPseudo::UserValid
        },
        148 => {
            proof {
                assert(CssPseudo::Valid.lookup_position() == 148);
            }
            CssPseudo::Valid
        },
        149 => {
            proof {
                assert(CssPseudo::Visited.lookup_position() == 149);
            }
            CssPseudo::Visited
        },
        150 => {
            proof {
                assert(CssPseudo::VolumeLocked.lookup_position() == 150);
            }
            CssPseudo::VolumeLocked
        },
        151 => {
            proof {
                assert(CssPseudo::Where.lookup_position() == 151);
            }
            CssPseudo::Where
        },
        _ => {
            proof {
                assert(CssPseudo::XrOverlay.lookup_position() == 152);
            }
            CssPseudo::XrOverlay
        },
    }
}

impl Clone for CssPseudo {
    fn clone(&self) -> (r: Self)
        ensures
            r == *self,
    {
        self.clone_part_0()
    }
}

impl CssPseudo {
    /// Where the variant stands in the declaration.
    pub open spec fn ordinal(&self) -> int {
        match self {
            CssPseudo::After => 0,
            CssPseudo::Backdrop => 1,
            CssPseudo::Before => 2,
            CssPseudo::Checkmark => 3,
            CssPseudo::ClearIcon => 4,
            CssPseudo::ColorSwatch => 5,
            CssPseudo::Column => 6,
            CssPseudo::Cue => 7,
            CssPseudo::CueRegion => 8,
            CssPseudo::CueRegionFn => 9,
            CssPseudo::CueFn => 10,
            CssPseudo::DetailsContent => 11,
            CssPseudo::FieldComponent => 12,
            CssPseudo::FieldSeparator => 13,
            CssPseudo::FieldText => 14,
            CssPseudo::FileSelectorButton => 15,
            CssPseudo::FirstLetter => 16,
            CssPseudo::FirstLine => 17,
            CssPseudo::GrammarError => 18,
            CssPseudo::Highlight => 19,
            CssPseudo::Marker => 20,
            CssPseudo::NthFragment => 21,
            CssPseudo::Part => 22,
            CssPseudo::PickerIcon => 23,
            CssPseudo::Picker => 24,
            CssPseudo::Placeholder => 25,
            CssPseudo::RevealIcon => 26,
            CssPseudo::ScrollButton => 27,
            CssPseudo::ScrollMarker => 28,
            CssPseudo::ScrollMarkerGroup => 29,
            CssPseudo::SearchText => 30,
            CssPseudo::Selection => 31,
            CssPseudo::SliderFill => 32,
            CssPseudo::SliderThumb => 33,
            CssPseudo::SliderTrack => 34,
            CssPseudo::Slotted => 35,
            CssPseudo::SpellingError => 36,
            CssPseudo::StepControl => 37,
            CssPseudo::StepDown => 38,
            CssPseudo::StepUp => 39,
            CssPseudo::TargetText => 40,
            CssPseudo::ViewTransition => 41,
            CssPseudo::ViewTransitionGroupChildren => 42,
            CssPseudo::ViewTransitionGroup => 43,
            CssPseudo::ViewTransitionImagePair => 44,
            CssPseudo::ViewTransitionNew => 45,
            CssPseudo::ViewTransitionOld => 46,
            CssPseudo::Active => 47,
            CssPseudo::ActiveViewTransition => 48,
            CssPseudo::ActiveViewTransitionType => 49,
            CssPseudo::AfterLegacy => 50,
            CssPseudo::AnimatedImage => 51,
            CssPseudo::AnyLink => 52,
            CssPseudo::Autofill => 53,
            CssPseudo::BeforeLegacy => 54,
            CssPseudo::Blank => 55,
            CssPseudo::Buffering => 56,
            CssPseudo::Checked => 57,
            CssPseudo::Current => 58,
            CssPseudo::CurrentFn => 59,
            CssPseudo::Default => 60,
            CssPseudo::Defined => 61,
            CssPseudo::Dir => 62,
            CssPseudo::Disabled => 63,
            CssPseudo::Empty => 64,
            CssPseudo::Enabled => 65,
            CssPseudo::First => 66,
            CssPseudo::FirstChild => 67,
            CssPseudo::FirstLetterLegacy => 68,
            CssPseudo::FirstLineLegacy => 69,
            CssPseudo::FirstOfPage => 70,
            CssPseudo::FirstOfType => 71,
            CssPseudo::Focus => 72,
            CssPseudo::FocusVisible => 73,
            CssPseudo::FocusWithin => 74,
            CssPseudo::Fullscreen => 75,
            CssPseudo::Future => 76,
            CssPseudo::HasSlotted => 77,
            CssPseudo::Has => 78,
            CssPseudo::Heading => 79,
            CssPseudo::HeadingFn => 80,
            CssPseudo::HighValue => 81,
            CssPseudo::Host => 82,
            CssPseudo::HostContext => 83,
            CssPseudo::HostFn => 84,
            CssPseudo::Hover => 85,
            CssPseudo::InRange => 86,
            CssPseudo::Indeterminate => 87,
            CssPseudo::InterestSource => 88,
            CssPseudo::InterestTarget => 89,
            CssPseudo::Invalid => 90,
            CssPseudo::Is => 91,
            CssPseudo::Lang => 92,
            CssPseudo::LastChild => 93,
            CssPseudo::LastOfPage => 94,
            CssPseudo::LastOfType => 95,
            CssPseudo::Left => 96,
            CssPseudo::Link => 97,
            CssPseudo::LinkTo => 98,
            CssPseudo::LocalLink => 99,
            _ => self.ordinal_from_100(),
        }
    }

    /// `ordinal` for the values from the 100-th on.
    pub open spec fn ordinal_from_100(&self) -> int {
        match self {
            CssPseudo::LowValue => 100,
            CssPseudo::Matches => 101,
            CssPseudo::Modal => 102,
            CssPseudo::Muted => 103,
            CssPseudo::Not => 104,
            CssPseudo::NthChild => 105,
            CssPseudo::NthCol => 106,
            CssPseudo::NthLastChild => 107,
            CssPseudo::NthLastCol => 108,
            CssPseudo::NthLastOfType => 109,
            CssPseudo::NthOfPage => 110,
            CssPseudo::NthOfType => 111,
            CssPseudo::Nth => 112,
            CssPseudo::OnlyChild => 113,
            CssPseudo::OnlyOfType => 114,
            CssPseudo::Open => 115,
            CssPseudo::OptimalValue => 116,
            CssPseudo::Optional => 117,
            CssPseudo::OutOfRange => 118,
            CssPseudo::Past => 119,
            CssPseudo::Paused => 120,
            CssPseudo::PictureInPicture => 121,
            CssPseudo::PlaceholderShown => 122,
            CssPseudo::Playing => 123,
            CssPseudo::PopoverOpen => 124,
            CssPseudo::ReadOnly => 125,
            CssPseudo::ReadWrite => 126,
            CssPseudo::Required => 127,
            CssPseudo::Right => 128,
            CssPseudo::Root => 129,
            CssPseudo::Scope => 130,
            CssPseudo::Seeking => 131,
            CssPseudo::Snapped => 132,
            CssPseudo::SnappedBlock => 133,
            CssPseudo::SnappedInline => 134,
            CssPseudo::SnappedX => 135,
            CssPseudo::SnappedY => 136,
            CssPseudo::Stalled => 137,
            CssPseudo::StartOfPage => 138,
            CssPseudo::State => 139,
            CssPseudo::Target => 140,
            CssPseudo::TargetAfter => 141,
            CssPseudo::TargetBefore => 142,
            CssPseudo::TargetCurrent => 143,
            CssPseudo::Unchecked => 144,
            CssPseudo::UserInvalid => 145,
            CssPseudo::UserValid => 146,
            CssPseudo::Valid => 147,
            CssPseudo::Visited => 148,
            CssPseudo::VolumeLocked => 149,
            CssPseudo::Where => 150,
            CssPseudo::XrOverlay => 151,
            CssPseudo::Ampersand => 152,
            CssPseudo::Unknown(_) => 153,
            _ => 153,
        }
    }

    fn clone_part_0(&self) -> (r: Self)
        ensures
            r == *self,
    {
        match self {
            CssPseudo::After => CssPseudo::After,
            CssPseudo::Backdrop => CssPseudo::Backdrop,
            CssPseudo::Before => CssPseudo::Before,
            CssPseudo::Checkmark => CssPseudo::Checkmark,
            CssPseudo::ClearIcon => CssPseudo::ClearIcon,
            CssPseudo::ColorSwatch => CssPseudo::ColorSwatch,
            CssPseudo::Column => CssPseudo::Column,
            CssPseudo::Cue => CssPseudo::Cue,
            CssPseudo::CueRegion => CssPseudo::CueRegion,
            CssPseudo::CueRegionFn => CssPseudo::CueRegionFn,
            CssPseudo::CueFn => CssPseudo::CueFn,
            CssPseudo::DetailsContent => CssPseudo::DetailsContent,
            CssPseudo::FieldComponent => CssPseudo::FieldComponent,
            CssPseudo::FieldSeparator => CssPseudo::FieldSeparator,
            CssPseudo::FieldText => CssPseudo::FieldText,
            CssPseudo::FileSelectorButton => CssPseudo::FileSelectorButton,
            CssPseudo::FirstLetter => CssPseudo::FirstLetter,
            CssPseudo::FirstLine => CssPseudo::FirstLine,
            CssPseudo::GrammarError => CssPseudo::GrammarError,
            CssPseudo::Highlight => CssPseudo::Highlight,
            CssPseudo::Marker => CssPseudo::Marker,
            CssPseudo::NthFragment => CssPseudo::NthFragment,
            CssPseudo::Part => CssPseudo::Part,
            CssPseudo::PickerIcon => CssPseudo::PickerIcon,
            CssPseudo::Picker => CssPseudo::Picker,
            CssPseudo::Placeholder => CssPseudo::Placeholder,
            CssPseudo::RevealIcon => CssPseudo::RevealIcon,
            CssPseudo::ScrollButton => CssPseudo::ScrollButton,
            CssPseudo::ScrollMarker => CssPseudo::ScrollMarker,
            CssPseudo::ScrollMarkerGroup => CssPseudo::ScrollMarkerGroup,
            CssPseudo::SearchText => CssPseudo::SearchText,
            CssPseudo::Selection => CssPseudo::Selection,
            CssPseudo::SliderFill => CssPseudo::SliderFill,
            CssPseudo::SliderThumb => CssPseudo::SliderThumb,
            CssPseudo::SliderTrack => CssPseudo::SliderTrack,
            CssPseudo::Slotted => CssPseudo::Slotted,
            CssPseudo::SpellingError => CssPseudo::SpellingError,
            CssPseudo::StepControl => CssPseudo::StepControl,
            CssPseudo::StepDown => CssPseudo::StepDown,
            CssPseudo::StepUp => CssPseudo::StepUp,
            CssPseudo::TargetText => CssPseudo::TargetText,
            CssPseudo::ViewTransition => CssPseudo::ViewTransition,
            CssPseudo::ViewTransitionGroupChildren => CssPseudo::ViewTransitionGroupChildren,
            CssPseudo::ViewTransitionGroup => CssPseudo::ViewTransitionGroup,
            CssPseudo::ViewTransitionImagePair => CssPseudo::ViewTransitionImagePair,
            CssPseudo::ViewTransitionNew => CssPseudo::ViewTransitionNew,
            CssPseudo::ViewTransitionOld => CssPseudo::ViewTransitionOld,
            CssPseudo::Active => CssPseudo::Active,
            CssPseudo::ActiveViewTransition => CssPseudo::ActiveViewTransition,
            CssPseudo::ActiveViewTransitionType => CssPseudo::ActiveViewTransitionType,
            CssPseudo::AfterLegacy => CssPseudo::AfterLegacy,
            CssPseudo::AnimatedImage => CssPseudo::AnimatedImage,
            CssPseudo::AnyLink => CssPseudo::AnyLink,
            CssPseudo::Autofill => CssPseudo::Autofill,
            CssPseudo::BeforeLegacy => CssPseudo::BeforeLegacy,
            CssPseudo::Blank => CssPseudo::Blank,
            CssPseudo::Buffering => CssPseudo::Buffering,
            CssPseudo::Checked => CssPseudo::Checked,
            CssPseudo::Current => CssPseudo::Current,
            CssPseudo::CurrentFn => CssPseudo::CurrentFn,
            CssPseudo::Default => CssPseudo::Default,
            CssPseudo::Defined => CssPseudo::Defined,
            CssPseudo::Dir => CssPseudo::Dir,
            CssPseudo::Disabled => CssPseudo::Disabled,
            CssPseudo::Empty => CssPseudo::Empty,
            CssPseudo::Enabled => CssPseudo::Enabled,
            CssPseudo::First => CssPseudo::First,
            CssPseudo::FirstChild => CssPseudo::FirstChild,
            CssPseudo::FirstLetterLegacy => CssPseudo::FirstLetterLegacy,
            CssPseudo::FirstLineLegacy => CssPseudo::FirstLineLegacy,
            CssPseudo::FirstOfPage => CssPseudo::FirstOfPage,
            CssPseudo::FirstOfType => CssPseudo::FirstOfType,
            CssPseudo::Focus => CssPseudo::Focus,
            CssPseudo::FocusVisible => CssPseudo::FocusVisible,
            CssPseudo::FocusWithin => CssPseudo::FocusWithin,
            CssPseudo::Fullscreen => CssPseudo::Fullscreen,
            CssPseudo::Future => CssPseudo::Future,
            CssPseudo::HasSlotted => CssPseudo::HasSlotted,
            CssPseudo::Has => CssPseudo::Has,
            CssPseudo::Heading => CssPseudo::Heading,
            CssPseudo::HeadingFn => CssPseudo::HeadingFn,
            CssPseudo::HighValue => CssPseudo::HighValue,
            CssPseudo::Host => CssPseudo::Host,
            CssPseudo::HostContext => CssPseudo::HostContext,
            CssPseudo::HostFn => CssPseudo::HostFn,
            CssPseudo::Hover => CssPseudo::Hover,
            CssPseudo::InRange => CssPseudo::InRange,
            CssPseudo::Indeterminate => CssPseudo::Indeterminate,
            CssPseudo::InterestSource => CssPseudo::InterestSource,
            CssPseudo::InterestTarget => CssPseudo::InterestTarget,
            CssPseudo::Invalid => CssPseudo::Invalid,
            CssPseudo::Is => CssPseudo::Is,
            CssPseudo::Lang => CssPseudo::Lang,
            CssPseudo::LastChild => CssPseudo::LastChild,
            CssPseudo::LastOfPage => CssPseudo::LastOfPage,
            CssPseudo::LastOfType => CssPseudo::LastOfType,
            CssPseudo::Left => CssPseudo::Left,
            CssPseudo::Link => CssPseudo::Link,
            CssPseudo::LinkTo => CssPseudo::LinkTo,
            CssPseudo::LocalLink => CssPseudo::LocalLink,
            _ => self.clone_part_1(),
        }
    }

    fn clone_part_1(&self) -> (r: Self)
        requires
            self.ordinal() >= 100,
        ensures
            r == *self,
    {
        match self {
            CssPseudo::LowValue => CssPseudo::LowValue,
            CssPseudo::Matches => CssPseudo::Matches,
            CssPseudo::Modal => CssPseudo::Modal,
            CssPseudo::Muted => CssPseudo::Muted,
            CssPseudo::Not => CssPseudo::Not,
            CssPseudo::NthChild => CssPseudo::NthChild,
            CssPseudo::NthCol => CssPseudo::NthCol,
            CssPseudo::NthLastChild => CssPseudo::NthLastChild,
            CssPseudo::NthLastCol => CssPseudo::NthLastCol,
            CssPseudo::NthLastOfType => CssPseudo::NthLastOfType,
            CssPseudo::NthOfPage => CssPseudo::NthOfPage,
            CssPseudo::NthOfType => CssPseudo::NthOfType,
            CssPseudo::Nth => CssPseudo::Nth,
            CssPseudo::OnlyChild => CssPseudo::OnlyChild,
            CssPseudo::OnlyOfType => CssPseudo::OnlyOfType,
            CssPseudo::Open => CssPseudo::Open,
            CssPseudo::OptimalValue => CssPseudo::OptimalValue,
            CssPseudo::Optional => CssPseudo::Optional,
            CssPseudo::OutOfRange => CssPseudo::OutOfRange,
            CssPseudo::Past => CssPseudo::Past,
            CssPseudo::Paused => CssPseudo::Paused,
            CssPseudo::PictureInPicture => CssPseudo::PictureInPicture,
            CssPseudo::PlaceholderShown => CssPseudo::PlaceholderShown,
            CssPseudo::Playing => CssPseudo::Playing,
            CssPseudo::PopoverOpen => CssPseudo::PopoverOpen,
            CssPseudo::ReadOnly => CssPseudo::ReadOnly,
            CssPseudo::ReadWrite => CssPseudo::ReadWrite,
            CssPseudo::Required => CssPseudo::Required,
            CssPseudo::Right => CssPseudo::Right,
            CssPseudo::Root => CssPseudo::Root,
            CssPseudo::Scope => CssPseudo::Scope,
            CssPseudo::Seeking => CssPseudo::Seeking,
            CssPseudo::Snapped => CssPseudo::Snapped,
            CssPseudo::SnappedBlock => CssPseudo::SnappedBlock,
            CssPseudo::SnappedInline => CssPseudo::SnappedInline,
            CssPseudo::SnappedX => CssPseudo::SnappedX,
            CssPseudo::SnappedY => CssPseudo::SnappedY,
            CssPseudo::Stalled => CssPseudo::Stalled,
            CssPseudo::StartOfPage => CssPseudo::StartOfPage,
            CssPseudo::State => CssPseudo::State,
            CssPseudo::Target => CssPseudo::Target,
            CssPseudo::TargetAfter => CssPseudo::TargetAfter,
            CssPseudo::TargetBefore => CssPseudo::TargetBefore,
            CssPseudo::TargetCurrent => CssPseudo::TargetCurrent,
            CssPseudo::Unchecked => CssPseudo::Unchecked,
            CssPseudo::UserInvalid => CssPseudo::UserInvalid,
            CssPseudo::UserValid => CssPseudo::UserValid,
            CssPseudo::Valid => CssPseudo::Valid,
            CssPseudo::Visited => CssPseudo::Visited,
            CssPseudo::VolumeLocked => CssPseudo::VolumeLocked,
            CssPseudo::Where => CssPseudo::Where,
            CssPseudo::XrOverlay => CssPseudo::XrOverlay,
            CssPseudo::Ampersand => CssPseudo::Ampersand,
            CssPseudo::Unknown(s) => CssPseudo::Unknown(s.clone()),
            _ => vstd::pervasive::unreached(),
        }
    }
}

/// Every listed value stands in the lookup table.
pub proof fn lemma_lookup_position(p: CssPseudo)
    requires
        p.is_listed(),
    ensures
        p.lookup_position() < LOOKUP_LEN,
        lookup_entry(p.lookup_position()) == p,
        lookup_name(p.lookup_position()) == p.spec_name(),
{
}

/// Different listed values have different names.
pub proof fn lemma_name_injective(p: CssPseudo, q: CssPseudo)
    requires
        p.is_listed(),
        q.is_listed(),
        p.spec_name() == q.spec_name(),
    ensures
        p == q,
{
    lemma_lookup_position(p);
    lemma_lookup_position(q);
    lemma_lookup_sorted();
    let i = p.lookup_position();
    let j = q.lookup_position();
    if i < j {
        lemma_name_less_asymmetric(lookup_name(i), lookup_name(j));
    } else if j < i {
        lemma_name_less_asymmetric(lookup_name(j), lookup_name(i));
    }
}

/// Looking up the name of a listed value gives that value back.
pub proof fn lemma_lookup_of_name(p: CssPseudo)
    requires
        p.is_listed(),
    ensures
        CssPseudo::spec_lookup(p.spec_name()) == Some(p),
{
    let q = choose|q: CssPseudo| q.is_listed() && #[trigger] q.spec_name() == p.spec_name();
    lemma_name_injective(p, q);
}

/// A name that the lookup finds is the name of what it finds.
pub proof fn lemma_name_of_lookup(s: Seq<char>)
    ensures
        CssPseudo::spec_lookup(s) matches Some(p) ==> p.is_listed() && p.spec_name() == s,
{
}

/// Every listed name is non-empty, so the empty name is not found.
pub proof fn lemma_empty_name_not_listed()
    ensures
        CssPseudo::spec_lookup(Seq::empty()) is None,
{
    lemma_lookup_sorted();
    assert forall|p: CssPseudo| p.is_listed() implies #[trigger] p.spec_name() != Seq::<char>::empty() by {
        lemma_lookup_position(p);
        let k = p.lookup_position();
        if k == 0 {
            reveal_strlit("&");
            assert(p.spec_name().len() > 0);
        } else {
            assert(name_less(lookup_name(0), lookup_name(k)));
            assert(p.spec_name().len() > 0);
        }
    }
}


} // verus!
