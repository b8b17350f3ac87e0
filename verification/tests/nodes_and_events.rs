use std::cell::RefCell;
use std::hash::{DefaultHasher, Hash, Hasher};

use lui_core::events::{
    EventInit, ExtendableMessageEventInit, KeyboardEventInit, MessageEventInit, NavigateEventInit,
    SecurityPolicyViolationEventInit, UiEventInit,
};
use lui_core::scrollbar::ScrollbarMode;
use lui_core::{
    default_prevented_after, hash_kv, hash_tag, EventListenerOptions, EventListenersCollection, EventPhase, FiredListener,
    SupportsCondition, SupportsFeature,
};

fn std_hash_tag(tag: &str) -> u64 {
    let mut h = DefaultHasher::new();
    tag.hash(&mut h);
    h.finish()
}

fn std_hash_kv(k: &str, v: &str) -> u64 {
    let mut h = DefaultHasher::new();
    k.hash(&mut h);
    v.hash(&mut h);
    h.finish()
}

#[test]
fn hashes_agree_with_str_hash() {
    for t in ["div", "", "span", "caf\u{e9}"] {
        assert_eq!(hash_tag(t), std_hash_tag(t));
    }
    assert_eq!(hash_kv("href", "/a"), std_hash_kv("href", "/a"));
    assert_eq!(hash_kv("", ""), std_hash_kv("", ""));
}

#[test]
fn hashes_separate_key_and_value() {
    assert_ne!(hash_kv("ab", "c"), hash_kv("a", "bc"));
    assert_ne!(hash_tag("div"), hash_tag("span"));
    assert_eq!(hash_tag("div"), hash_tag("div"));
}

#[test]
fn event_init_defaults() {
    let e = EventInit::default();
    assert_eq!(e.event_type, "");
    assert!(!e.bubbles && !e.cancelable && !e.default_prevented);
    assert!(!e.propagation_stopped && !e.immediate_propagation_stopped);
    assert!(e.target_path.is_empty());
    let ui = UiEventInit::default();
    assert_eq!(ui.view, None);
    assert_eq!(ui.detail, 0);
    let k = KeyboardEventInit::default();
    assert_eq!(k.key, "");
    assert_eq!(k.location, 0);
    assert!(!k.repeat);
    let m = MessageEventInit::default();
    assert!(m.ports.is_empty() && m.source.is_none());
    let x = ExtendableMessageEventInit::default();
    assert!(x.message.data.is_empty());
    let n = NavigateEventInit::default();
    assert!(!n.can_intercept && n.destination.is_none());
    let s = SecurityPolicyViolationEventInit::default();
    assert_eq!(s.status_code, 0);
    assert_eq!(s.line_number, 0);
}

#[test]
fn scrollbar_mode_keywords() {
    assert_eq!(ScrollbarMode::from_css_keyword("classic"), ScrollbarMode::Classic);
    assert_eq!(ScrollbarMode::from_css_keyword("overlay"), ScrollbarMode::Overlay);
    assert_eq!(ScrollbarMode::from_css_keyword("none"), ScrollbarMode::NoScrollbars);
    assert_eq!(ScrollbarMode::from_css_keyword(""), ScrollbarMode::Auto);
    assert_eq!(ScrollbarMode::from_css_keyword("Classic"), ScrollbarMode::Auto);
}

fn opts(capture: bool, once: bool, passive: bool) -> EventListenerOptions {
    EventListenerOptions { capture, once, passive }
}

/// Runs a dispatch as a caller does; returns the handlers fired, in order.
fn dispatch(c: &mut EventListenersCollection, event_type: &str, phase: EventPhase, stop_after: Option<u64>) -> Vec<u64> {
    let mut fired = Vec::new();
    let mut stopped = false;
    let mut i = 0;
    while let Some(k) = c.next_to_fire(i, event_type, phase, stopped) {
        let h = c.listener(k).handler;
        fired.push(h);
        if stop_after == Some(h) {
            stopped = true;
        }
        i = c.after_fire(k);
    }
    fired
}

#[test]
fn options_default_to_false() {
    let o = EventListenerOptions::default();
    assert!(!o.capture && !o.once && !o.passive);
}

#[test]
fn dispatch_by_type_and_phase() {
    let mut c = EventListenersCollection::new();
    c.add_listener("click", 1, opts(false, false, false));
    c.add_listener("click", 2, opts(true, false, false));
    c.add_listener("keydown", 3, opts(false, false, false));
    c.add_listener("click", 4, opts(false, false, true));
    assert_eq!(dispatch(&mut c, "click", EventPhase::Target, None), vec![1, 2, 4]);
    assert_eq!(dispatch(&mut c, "click", EventPhase::Capture, None), vec![2]);
    assert_eq!(dispatch(&mut c, "click", EventPhase::Bubble, None), vec![1, 4]);
    assert_eq!(dispatch(&mut c, "keydown", EventPhase::Bubble, None), vec![3]);
    assert!(dispatch(&mut c, "focus", EventPhase::Target, None).is_empty());
    assert_eq!(c.len(), 4);
}

#[test]
fn once_listeners_fire_once() {
    let mut c = EventListenersCollection::new();
    c.add_listener("click", 1, opts(false, true, false));
    c.add_listener("click", 2, opts(false, false, false));
    c.add_listener("click", 3, opts(false, true, false));
    assert_eq!(dispatch(&mut c, "click", EventPhase::Target, None), vec![1, 2, 3]);
    assert_eq!(c.len(), 1);
    assert_eq!(dispatch(&mut c, "click", EventPhase::Target, None), vec![2]);
}

#[test]
fn immediate_stop_ends_dispatch() {
    let mut c = EventListenersCollection::new();
    c.add_listener("click", 1, opts(false, false, false));
    c.add_listener("click", 2, opts(false, true, false));
    c.add_listener("click", 3, opts(false, false, false));
    assert_eq!(dispatch(&mut c, "click", EventPhase::Target, Some(2)), vec![1, 2]);
    assert_eq!(c.len(), 2);
    assert_eq!(c.next_to_fire(0, "click", EventPhase::Target, true), None);
}

#[test]
fn remove_listener_by_type_and_handler() {
    let mut c = EventListenersCollection::new();
    c.add_listener("click", 1, opts(false, false, false));
    c.add_listener("click", 2, opts(false, false, false));
    c.add_listener("keydown", 1, opts(false, false, false));
    c.add_listener("click", 1, opts(true, false, false));
    c.remove_listener("click", 1);
    assert_eq!(c.len(), 2);
    assert_eq!(c.listener(0).handler, 2);
    assert_eq!(c.listener(1).event_type, "keydown");
    c.remove_listener("click", 9);
    assert_eq!(c.len(), 2);
}

#[test]
fn passive_listener_keeps_default_prevented() {
    let passive = opts(false, false, true);
    let active = opts(false, false, false);
    assert!(!default_prevented_after(&passive, false, true));
    assert!(default_prevented_after(&passive, true, false));
    assert!(default_prevented_after(&active, false, true));
    assert!(!default_prevented_after(&active, true, false));
}

#[test]
fn has_handler_follows_registrations() {
    let mut c = EventListenersCollection::new();
    assert!(!c.has_handler(7));
    c.add_listener("click", 7, opts(false, false, false));
    c.add_listener("keydown", 7, opts(false, false, false));
    assert!(c.has_handler(7));
    c.remove_listener("click", 7);
    assert!(c.has_handler(7));
    c.remove_listener("keydown", 7);
    assert!(!c.has_handler(7));
}

/// Runs a dispatch with handlers that record themselves, stop the immediate
/// propagation when numbered `stop_on` and prevent the default when numbered
/// `prevent_on`; returns the record, the handlers run and the final flag.
fn run_dispatch(
    c: &mut EventListenersCollection,
    event_type: &str,
    phase: EventPhase,
    stopped: bool,
    stop_on: Option<u64>,
    prevent_on: Option<u64>,
) -> (Vec<FiredListener>, Vec<u64>, bool) {
    let ran = RefCell::new(Vec::new());
    let (fired, prevented) = c.dispatch_phase(
        |h: u64, prevented: bool| {
            ran.borrow_mut().push(h);
            (prevented || prevent_on == Some(h), stop_on == Some(h))
        },
        event_type,
        phase,
        stopped,
        false,
    );
    (fired, ran.into_inner(), prevented)
}

#[test]
fn dispatch_phase_runs_removes_once_and_stops() {
    let mut c = EventListenersCollection::new();
    c.add_listener("click", 1, opts(false, false, false));
    c.add_listener("click", 2, opts(false, true, false));
    c.add_listener("keydown", 3, opts(false, false, false));
    c.add_listener("click", 4, opts(true, false, false));
    let (fired, ran, prevented) = run_dispatch(&mut c, "click", EventPhase::Target, false, None, None);
    assert_eq!(fired.iter().map(|f| f.handler).collect::<Vec<_>>(), vec![1, 2, 4]);
    assert!(fired.iter().all(|f| !f.stopped));
    assert_eq!(ran, vec![1, 2, 4]);
    assert!(!prevented);
    assert_eq!(c.len(), 3);
    assert!(!c.has_handler(2));

    let (fired, ran, _) = run_dispatch(&mut c, "click", EventPhase::Target, false, Some(1), None);
    assert_eq!(fired.len(), 1);
    assert!(fired[0].stopped);
    assert_eq!(ran, vec![1]);
    assert_eq!(c.len(), 3);

    let (fired, ran, _) = run_dispatch(&mut c, "click", EventPhase::Bubble, true, None, None);
    assert!(fired.is_empty() && ran.is_empty());
    let (fired, _, _) = run_dispatch(&mut c, "click", EventPhase::Capture, false, None, None);
    assert_eq!(fired.iter().map(|f| f.handler).collect::<Vec<_>>(), vec![4]);
}

#[test]
fn passive_listener_cannot_prevent_default_in_dispatch() {
    let mut c = EventListenersCollection::new();
    c.add_listener("wheel", 1, opts(false, false, true));
    c.add_listener("wheel", 2, opts(false, false, false));
    let (fired, _, prevented) = run_dispatch(&mut c, "wheel", EventPhase::Target, false, None, Some(1));
    assert!(fired[0].prevented_after);
    assert!(!fired[1].prevented_before);
    assert!(!prevented);
    let (fired, _, prevented) = run_dispatch(&mut c, "wheel", EventPhase::Target, false, None, Some(2));
    assert!(fired[1].prevented_after);
    assert!(prevented);
    let (_, ran, prevented) = {
        let ran = RefCell::new(Vec::new());
        let (f, p) = c.dispatch(
            |h: u64, p: bool| {
                ran.borrow_mut().push(h);
                (p, false)
            },
            "wheel",
            false,
            true,
        );
        (f, ran.into_inner(), p)
    };
    assert_eq!(ran, vec![1, 2]);
    assert!(prevented);
}

#[test]
fn supports_condition_clones() {
    let grid = SupportsFeature { name: "display".to_string(), value: Some("grid".to_string()), is_selector: false };
    let c = SupportsCondition::And(vec![
        SupportsCondition::Feature(grid.clone()),
        SupportsCondition::Not(Box::new(SupportsCondition::Or(vec![SupportsCondition::Feature(grid)]))),
    ]);
    assert_eq!(c.clone(), c);
}
