//! Element-level state: class lists, event-listener registries and node hashes.
pub mod class_list;
pub mod hash;
pub mod event_listeners;
pub mod attr_map;
pub mod attributes;
