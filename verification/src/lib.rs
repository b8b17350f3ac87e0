//! Core types of the lui HTML/CSS engine: the CSS keyword tables (properties,
//! pseudo-classes and pseudo-elements, at-rules, units) with their name
//! lookups, shorthand expansion, element attributes, class lists, text
//! selections, node hashes, DOM event initialisers and the event-listener
//! registry.
pub mod color;
pub mod css_at_rule;
pub mod css_property;
pub mod css_pseudo;
pub mod events;
pub mod media;
pub mod node;
pub mod query_selector;
pub mod scrollbar;
pub mod selector;
pub mod shorthand;
pub mod supports;
pub mod text;
pub mod text_selection;
pub mod unit;

pub use color::CssColor;
pub use css_at_rule::{AtRuleKind, CssAtRule};
pub use css_property::CssProperty;
pub use css_pseudo::CssPseudo;
pub use media::MediaModifier;
pub use node::attr_map::AttrMap;
pub use node::attributes::NodeAttributes;
pub use node::class_list::ClassList;
pub use node::event_listeners::{
    default_prevented_after, EventListenerOptions, EventListenersCollection, EventPhase, FiredListener, Listener,
};
pub use node::hash::{hash_kv, hash_tag};
pub use query_selector::QuerySelector;
pub use scrollbar::ScrollbarMode;
pub use selector::{AttrOp, AttributeSelector, CompoundSelector, PseudoSelector};
pub use shorthand::{distribute_values, expand as expand_shorthand, longhands_of};
pub use supports::{SupportsCondition, SupportsFeature};
pub use text_selection::{cursor_less, TextCursor, TextSelection};
pub use unit::CssUnit;
