//! The registry of event listeners of a node or document, and the dispatch
//! of an event to them: which listener fires next, what happens to a listener
//! once it has fired, and the whole dispatch over a runner of handlers. The
//! handlers themselves are the caller's, which numbers them as it chooses.
use vstd::prelude::*;

use crate::text::names_equal;

verus! {

/// The phase of an event's propagation.
#[derive(Debug, Clone, Copy, PartialEq, Eq, Structural)]
pub enum EventPhase {
    Capture,
    Target,
    Bubble,
}

/// How a listener was registered.
#[derive(Debug)]
pub struct EventListenerOptions {
    /// Fire in the capture phase rather than the bubble phase.
    pub capture: bool,
    /// Remove the listener once it has fired.
    pub once: bool,
    /// The handler cannot prevent the event's default action.
    pub passive: bool,
}

impl Default for EventListenerOptions {
    fn default() -> (r: Self)
        ensures
            !r.capture && !r.once && !r.passive,
    {
        EventListenerOptions { capture: false, once: false, passive: false }
    }
}

impl Clone for EventListenerOptions {
    fn clone(&self) -> (r: Self)
        ensures
            r == *self,
    {
        EventListenerOptions { capture: self.capture, once: self.once, passive: self.passive }
    }
}

/// A registered listener: the event type it listens for, the number of its
/// handler, and its options.
#[derive(Debug)]
pub struct Listener {
    pub event_type: String,
    pub handler: u64,
    pub options: EventListenerOptions,
}

impl Clone for Listener {
    fn clone(&self) -> (r: Self)
        ensures
            r == *self,
    {
        Listener {
            event_type: self.event_type.clone(),
            handler: self.handler,
            options: self.options.clone(),
        }
    }
}

/// Whether a listener with these options fires in `phase`: capture listeners
/// in the capture phase, the others in the bubble phase, all of them at the
/// target.
pub open spec fn fires_in(options: EventListenerOptions, phase: EventPhase) -> bool {
    match phase {
        EventPhase::Capture => options.capture,
        EventPhase::Target => true,
        EventPhase::Bubble => !options.capture,
    }
}

/// Whether listener `l` fires for an event of type `event_type` in `phase`.
pub open spec fn fires_for(l: Listener, event_type: Seq<char>, phase: EventPhase) -> bool {
    l.event_type@ == event_type && fires_in(l.options, phase)
}

/// Whether `l` is the listener of type `event_type` with handler `handler`.
pub open spec fn is_registration(l: Listener, event_type: Seq<char>, handler: u64) -> bool {
    l.event_type@ == event_type && l.handler == handler
}

/// Whether the event's default action stands prevented once a listener has
/// run: a passive listener cannot change it, so the value from before it ran
/// stands; after any other listener, the value it left stands.
pub fn default_prevented_after(options: &EventListenerOptions, before: bool, after: bool) -> (r: bool)
    ensures
        r == if options.passive {
            before
        } else {
            after
        },
{
    if options.passive {
        before
    } else {
        after
    }
}

/// Whether the handler fired `n`-th stopped the event's immediate
/// propagation, by the outcomes `stops`; one past the outcomes given, no.
pub open spec fn stop_at(stops: Seq<bool>, n: int) -> bool {
    0 <= n < stops.len() && stops[n]
}

/// What a dispatch does to the listeners `ls`, once `n` handlers have fired,
/// when the handler fired `k`-th stops the event's immediate propagation
/// exactly when `stop_at(stops, k)`: the handlers it fires, each with whether
/// its listener is passive, and the listeners left. Listeners are visited in
/// registration order; one that fires for the event's type and phase has its
/// handler fired and, when it is a `once` listener, is then removed; the
/// dispatch ends after a handler stops the event's immediate propagation.
pub open spec fn dispatch_run(
    ls: Seq<Listener>,
    event_type: Seq<char>,
    phase: EventPhase,
    stops: Seq<bool>,
    n: int,
) -> (Seq<(u64, bool)>, Seq<Listener>)
    decreases ls.len(),
{
    if ls.len() == 0 {
        (Seq::empty(), Seq::empty())
    } else {
        let l = ls[0];
        if !fires_for(l, event_type, phase) {
            let rest = dispatch_run(ls.drop_first(), event_type, phase, stops, n);
            (rest.0, seq![l] + rest.1)
        } else {
            let kept = if l.options.once {
                Seq::<Listener>::empty()
            } else {
                seq![l]
            };
            if stop_at(stops, n) {
                (seq![(l.handler, l.options.passive)], kept + ls.drop_first())
            } else {
                let rest = dispatch_run(ls.drop_first(), event_type, phase, stops, n + 1);
                (seq![(l.handler, l.options.passive)] + rest.0, kept + rest.1)
            }
        }
    }
}

/// One handler run of a dispatch.
#[derive(Debug, Clone, Copy, PartialEq, Eq, Structural)]
pub struct FiredListener {
    /// The number of the handler.
    pub handler: u64,
    /// Whether its listener is passive.
    pub passive: bool,
    /// Whether the event's default stood prevented when the handler ran.
    pub prevented_before: bool,
    /// Whether the handler left the default prevented.
    pub prevented_after: bool,
    /// Whether the handler left the event's immediate propagation stopped.
    pub stopped: bool,
}

/// Whether the default stands prevented once `e` has run: a passive
/// listener's handler cannot change it.
pub open spec fn settled(e: FiredListener) -> bool {
    if e.passive {
        e.prevented_before
    } else {
        e.prevented_after
    }
}

/// The handlers of a dispatch's record, in firing order, each with whether
/// its listener is passive.
pub open spec fn fired_calls(record: Seq<FiredListener>) -> Seq<(u64, bool)> {
    record.map_values(|e: FiredListener| (e.handler, e.passive))
}

/// The outcomes of a dispatch's record: whether each handler stopped the
/// event's immediate propagation.
pub open spec fn fired_outcomes(record: Seq<FiredListener>) -> Seq<bool> {
    record.map_values(|e: FiredListener| e.stopped)
}

/// Each handler of the record ran with the default prevented as the one
/// before it settled it, the first as it stood at the start.
#[verifier::opaque]
pub open spec fn prevented_chain(record: Seq<FiredListener>, start: bool) -> bool {
    forall|i: int|
        0 <= i < record.len() ==> (#[trigger] record[i]).prevented_before == if i == 0 {
            start
        } else {
            settled(record[i - 1])
        }
}

/// Whether the default stands prevented after the handlers of the record.
pub open spec fn prevented_at_end(record: Seq<FiredListener>, start: bool) -> bool {
    if record.len() == 0 {
        start
    } else {
        settled(record.last())
    }
}
/// Holds of the listeners other than the registration of `handler` for `event_type`.
pub open spec fn kept_after_removal(event_type: Seq<char>, handler: u64) -> spec_fn(Listener) -> bool {
    |l: Listener| !is_registration(l, event_type, handler)
}

/// The listeners of a node or document, in registration order.
#[derive(Debug, Clone)]
pub struct EventListenersCollection {
    listeners: Vec<Listener>,
}

impl View for EventListenersCollection {
    type V = Seq<Listener>;

    closed spec fn view(&self) -> Seq<Listener> {
        self.listeners@
    }
}

impl Default for EventListenersCollection {
    fn default() -> (r: Self)
        ensures
            r@ == Seq::<Listener>::empty(),
    {
        Self::new()
    }
}

impl EventListenersCollection {
    /// No listener.
    pub fn new() -> (r: Self)
        ensures
            r@ == Seq::<Listener>::empty(),
    {
        Self { listeners: Vec::new() }
    }

    /// How many listeners there are.
    pub fn len(&self) -> (r: usize)
        ensures
            r == self@.len(),
    {
        self.listeners.len()
    }

    /// The listener at `index`.
    pub fn listener(&self, index: usize) -> (r: &Listener)
        requires
            index < self@.len(),
        ensures
            *r == self@[index as int],
    {
        &self.listeners[index]
    }

    /// Whether some listener has the handler numbered `handler`.
    pub fn has_handler(&self, handler: u64) -> (r: bool)
        ensures
            r == exists|i: int| 0 <= i < self@.len() && (#[trigger] self@[i]).handler == handler,
    {
        let n = self.listeners.len();
        let mut i: usize = 0;
        while i < n
            invariant
                n == self@.len(),
                i <= n,
                forall|j: int| 0 <= j < i ==> (#[trigger] self@[j]).handler != handler,
            decreases n - i,
        {
            if self.listeners[i].handler == handler {
                assert(self@[i as int].handler == handler);
                return true;
            }
            i = i + 1;
        }
        false
    }

    /// Registers `handler` for events of type `event_type`, after the
    /// listeners already there.
    pub fn add_listener(&mut self, event_type: &str, handler: u64, options: EventListenerOptions)
        ensures
            final(self)@.len() == old(self)@.len() + 1,
            final(self)@.drop_last() == old(self)@,
            final(self)@.last().event_type@ == event_type@,
            final(self)@.last().handler == handler,
            final(self)@.last().options == options,
    {
        self.listeners.push(Listener { event_type: String::from_str(event_type), handler, options });
        assert(self@.drop_last() =~= old(self)@);
    }

    /// Removes every registration of `handler` for `event_type`; the other
    /// listeners keep their order.
    pub fn remove_listener(&mut self, event_type: &str, handler: u64)
        ensures
            final(self)@ == old(self)@.filter(kept_after_removal(event_type@, handler)),
    {
        let ghost orig = self@;
        let ghost keep = kept_after_removal(event_type@, handler);
        let mut i: usize = 0;
        let ghost mut j: int = 0;
        assert(orig.take(0).filter(keep) =~= Seq::<Listener>::empty()) by {
            reveal(Seq::filter);
        }
        assert(orig.skip(0) =~= orig);
        while i < self.listeners.len()
            invariant
                0 <= j <= orig.len(),
                self@ =~= orig.take(j).filter(keep) + orig.skip(j),
                i == orig.take(j).filter(keep).len(),
                keep == kept_after_removal(event_type@, handler),
            decreases self@.len() - i,
        {
            proof {
                orig.take(j).lemma_filter_len(keep);
                assert(orig.take(j + 1) =~= orig.take(j).push(orig[j]));
                orig.take(j).lemma_filter_push(orig[j], keep);
                assert(self@[i as int] == orig[j]);
            }
            let l = &self.listeners[i];
            if l.handler == handler && names_equal(l.event_type.as_str(), event_type) {
                self.listeners.remove(i);
                assert(orig.skip(j) =~= seq![orig[j]] + orig.skip(j + 1));
            } else {
                i = i + 1;
                assert(orig.skip(j) =~= seq![orig[j]] + orig.skip(j + 1));
            }
            proof {
                j = j + 1;
            }
        }
        proof {
            orig.take(j).lemma_filter_len(keep);
            assert(j == orig.len());
            assert(orig.take(j) =~= orig);
        }
    }

    /// The position of the next listener, from `from` on, that fires for an
    /// event of type `event_type` in `phase`. None when the event's immediate
    /// propagation has been stopped.
    pub fn next_to_fire(
        &self,
        from: usize,
        event_type: &str,
        phase: EventPhase,
        immediate_propagation_stopped: bool,
    ) -> (r: Option<usize>)
        ensures
            immediate_propagation_stopped ==> r is None,
            !immediate_propagation_stopped ==> match r {
                Some(k) => {
                    &&& from <= k < self@.len()
                    &&& fires_for(self@[k as int], event_type@, phase)
                    &&& forall|j: int| from <= j < k ==> !fires_for(#[trigger] self@[j], event_type@, phase)
                },
                None => forall|j: int|
                    from <= j < self@.len() ==> !fires_for(#[trigger] self@[j], event_type@, phase),
            },
    {
        if immediate_propagation_stopped {
            return None;
        }
        let n = self.listeners.len();
        let mut k: usize = from;
        while k < n
            invariant
                n == self@.len(),
                from <= k,
                !immediate_propagation_stopped,
                forall|j: int| from <= j < k ==> !fires_for(#[trigger] self@[j], event_type@, phase),
            decreases n - k,
        {
            let l = &self.listeners[k];
            let in_phase = match phase {
                EventPhase::Capture => l.options.capture,
                EventPhase::Target => true,
                EventPhase::Bubble => !l.options.capture,
            };
            if in_phase && names_equal(l.event_type.as_str(), event_type) {
                return Some(k);
            }
            k = k + 1;
        }
        None
    }

    /// Called once the listener at `index` has fired: a `once` listener is
    /// removed and the scan goes on at the same position; any other stays and
    /// the scan goes on after it. Returns where the scan goes on.
    pub fn after_fire(&mut self, index: usize) -> (r: usize)
        requires
            index < old(self)@.len(),
        ensures
            old(self)@[index as int].options.once ==> final(self)@ == old(self)@.remove(index as int)
                && r == index,
            !old(self)@[index as int].options.once ==> final(self)@ == old(self)@ && r == index + 1,
    {
        let n = self.listeners.len();
        if self.listeners[index].options.once {
            self.listeners.remove(index);
            index
        } else {
            assert(index < n);
            index + 1
        }
    }
}

/// After the handlers of `fired` and the listeners of `orig` before `j`
/// (of which `kept` are left), the dispatch of `orig` goes on as that of the
/// listeners from `j` on, for every outcome of the handlers still to run.
#[verifier::opaque]
pub open spec fn run_pending(
    orig: Seq<Listener>,
    event_type: Seq<char>,
    phase: EventPhase,
    fired: Seq<FiredListener>,
    j: int,
    kept: Seq<Listener>,
) -> bool {
    forall|st: Seq<bool>|
        fired_outcomes(fired).is_prefix_of(st) ==> #[trigger] dispatch_run(orig, event_type, phase, st, 0) == (
        fired_calls(fired) + dispatch_run(orig.skip(j), event_type, phase, st, fired.len() as int).0,
        kept + dispatch_run(orig.skip(j), event_type, phase, st, fired.len() as int).1)
}

/// The dispatch of `orig` is over: it fired the handlers of `fired` and left
/// `left`, for every outcome of later handlers.
#[verifier::opaque]
pub open spec fn run_done(
    orig: Seq<Listener>,
    event_type: Seq<char>,
    phase: EventPhase,
    fired: Seq<FiredListener>,
    left: Seq<Listener>,
) -> bool {
    forall|st: Seq<bool>|
        fired_outcomes(fired).is_prefix_of(st) ==> #[trigger] dispatch_run(orig, event_type, phase, st, 0) == (
        fired_calls(fired), left)
}

proof fn lemma_run_start(orig: Seq<Listener>, event_type: Seq<char>, phase: EventPhase)
    ensures
        run_pending(orig, event_type, phase, Seq::empty(), 0, Seq::empty()),
{
    reveal(run_pending);
    assert(orig.skip(0) =~= orig);
    assert forall|st: Seq<bool>|
        fired_outcomes(Seq::<FiredListener>::empty()).is_prefix_of(st) implies #[trigger] dispatch_run(
        orig,
        event_type,
        phase,
        st,
        0,
    ) == (fired_calls(Seq::<FiredListener>::empty()) + dispatch_run(orig.skip(0), event_type, phase, st, 0).0,
        Seq::<Listener>::empty() + dispatch_run(orig.skip(0), event_type, phase, st, 0).1) by {
        let d = dispatch_run(orig, event_type, phase, st, 0);
        assert(fired_calls(Seq::<FiredListener>::empty()) + d.0 =~= d.0);
        assert(Seq::<Listener>::empty() + d.1 =~= d.1);
    }
}

proof fn lemma_run_skip(
    orig: Seq<Listener>,
    event_type: Seq<char>,
    phase: EventPhase,
    fired: Seq<FiredListener>,
    j: int,
    kept: Seq<Listener>,
)
    requires
        0 <= j < orig.len(),
        run_pending(orig, event_type, phase, fired, j, kept),
        !fires_for(orig[j], event_type, phase),
    ensures
        run_pending(orig, event_type, phase, fired, j + 1, kept.push(orig[j])),
{
    reveal(run_pending);
    let rest = orig.skip(j);
    assert(rest[0] == orig[j]);
    assert(rest.drop_first() =~= orig.skip(j + 1));
    assert forall|st: Seq<bool>|
        fired_outcomes(fired).is_prefix_of(st) implies #[trigger] dispatch_run(orig, event_type, phase, st, 0) == (
    fired_calls(fired) + dispatch_run(orig.skip(j + 1), event_type, phase, st, fired.len() as int).0,
        kept.push(orig[j]) + dispatch_run(orig.skip(j + 1), event_type, phase, st, fired.len() as int).1) by {
        let d = dispatch_run(orig.skip(j + 1), event_type, phase, st, fired.len() as int);
        assert(kept + (seq![orig[j]] + d.1) =~= kept.push(orig[j]) + d.1);
    }
}

proof fn lemma_run_fire(
    orig: Seq<Listener>,
    event_type: Seq<char>,
    phase: EventPhase,
    fired: Seq<FiredListener>,
    j: int,
    kept: Seq<Listener>,
    e: FiredListener,
)
    requires
        0 <= j < orig.len(),
        run_pending(orig, event_type, phase, fired, j, kept),
        fires_for(orig[j], event_type, phase),
        e.handler == orig[j].handler,
        e.passive == orig[j].options.passive,
    ensures
        ({
            let kept2 = if orig[j].options.once {
                kept
            } else {
                kept.push(orig[j])
            };
            &&& e.stopped ==> run_done(orig, event_type, phase, fired.push(e), kept2 + orig.skip(j + 1))
            &&& !e.stopped ==> run_pending(orig, event_type, phase, fired.push(e), j + 1, kept2)
        }),
{
    reveal(run_pending);
    reveal(run_done);
    let rest = orig.skip(j);
    assert(rest[0] == orig[j]);
    assert(rest.drop_first() =~= orig.skip(j + 1));
    let n = fired.len() as int;
    let fired2 = fired.push(e);
    let once = orig[j].options.once;
    let kept2 = if once {
        kept
    } else {
        kept.push(orig[j])
    };
    let kk = if once {
        Seq::<Listener>::empty()
    } else {
        seq![orig[j]]
    };
    assert(fired_calls(fired2) =~= fired_calls(fired).push((e.handler, e.passive)));
    assert(fired_outcomes(fired2) =~= fired_outcomes(fired).push(e.stopped));
    assert forall|st: Seq<bool>|
        fired_outcomes(fired2).is_prefix_of(st) implies fired_outcomes(fired).is_prefix_of(st) && stop_at(st, n)
        == e.stopped by {
        assert(fired_outcomes(fired) =~= st.subrange(0, n));
        assert(st[n] == fired_outcomes(fired2)[n]);
    }
    if e.stopped {
        assert forall|st: Seq<bool>|
            fired_outcomes(fired2).is_prefix_of(st) implies #[trigger] dispatch_run(orig, event_type, phase, st, 0)
            == (fired_calls(fired2), kept2 + orig.skip(j + 1)) by {
            assert(fired_calls(fired) + seq![(e.handler, e.passive)] =~= fired_calls(fired2));
            assert(kept + (kk + orig.skip(j + 1)) =~= kept2 + orig.skip(j + 1));
        }
    } else {
        assert forall|st: Seq<bool>|
            fired_outcomes(fired2).is_prefix_of(st) implies #[trigger] dispatch_run(orig, event_type, phase, st, 0)
            == (fired_calls(fired2) + dispatch_run(orig.skip(j + 1), event_type, phase, st, n + 1).0, kept2
            + dispatch_run(orig.skip(j + 1), event_type, phase, st, n + 1).1) by {
            let d = dispatch_run(orig.skip(j + 1), event_type, phase, st, n + 1);
            assert(fired_calls(fired) + (seq![(e.handler, e.passive)] + d.0) =~= fired_calls(fired2) + d.0);
            assert(kept + (kk + d.1) =~= kept2 + d.1);
        }
    }
}

proof fn lemma_run_end(orig: Seq<Listener>, event_type: Seq<char>, phase: EventPhase, fired: Seq<FiredListener>, kept: Seq<Listener>)
    requires
        run_pending(orig, event_type, phase, fired, orig.len() as int, kept),
    ensures
        dispatch_run(orig, event_type, phase, fired_outcomes(fired), 0) == (fired_calls(fired), kept),
{
    reveal(run_pending);
    assert(orig.skip(orig.len() as int) =~= Seq::<Listener>::empty());
    let st = fired_outcomes(fired);
    assert(st.subrange(0, st.len() as int) =~= st);
    let d = dispatch_run(orig.skip(orig.len() as int), event_type, phase, st, fired.len() as int);
    assert(fired_calls(fired) + d.0 =~= fired_calls(fired));
    assert(kept + d.1 =~= kept);
}

proof fn lemma_run_done_end(orig: Seq<Listener>, event_type: Seq<char>, phase: EventPhase, fired: Seq<FiredListener>, left: Seq<Listener>)
    requires
        run_done(orig, event_type, phase, fired, left),
    ensures
        dispatch_run(orig, event_type, phase, fired_outcomes(fired), 0) == (fired_calls(fired), left),
{
    reveal(run_done);
    let st = fired_outcomes(fired);
    assert(st.subrange(0, st.len() as int) =~= st);
}

proof fn lemma_chain_push(record: Seq<FiredListener>, start: bool, e: FiredListener)
    requires
        prevented_chain(record, start),
        e.prevented_before == prevented_at_end(record, start),
    ensures
        prevented_chain(record.push(e), start),
        prevented_at_end(record.push(e), start) == settled(e),
{
    reveal(prevented_chain);
    let r2 = record.push(e);
    assert forall|i: int| 0 <= i < r2.len() implies (#[trigger] r2[i]).prevented_before == if i == 0 {
        start
    } else {
        settled(r2[i - 1])
    } by {
        if i < record.len() {
            assert(r2[i] == record[i]);
            if i > 0 {
                assert(r2[i - 1] == record[i - 1]);
            }
        } else if i > 0 {
            assert(r2[i - 1] == record.last());
        }
    }
}

impl EventListenersCollection {
    /// Dispatches an event at its target: `dispatch_phase` in the target
    /// phase, where every listener of the event's type fires.
    pub fn dispatch<F: Fn(u64, bool) -> (bool, bool)>(
        &mut self,
        run: F,
        event_type: &str,
        immediate_propagation_stopped: bool,
        default_prevented: bool,
    ) -> (r: (Vec<FiredListener>, bool))
        requires
            forall|h: u64, p: bool| call_requires(run, (h, p)),
        ensures
            immediate_propagation_stopped ==> r.0@.len() == 0 && final(self)@ == old(self)@ && r.1
                == default_prevented,
            !immediate_propagation_stopped ==> (fired_calls(r.0@), final(self)@) == dispatch_run(
                old(self)@,
                event_type@,
                EventPhase::Target,
                fired_outcomes(r.0@),
                0,
            ),
            forall|i: int|
                0 <= i < r.0@.len() ==> call_ensures(
                    run,
                    ((#[trigger] r.0@[i]).handler, r.0@[i].prevented_before),
                    (r.0@[i].prevented_after, r.0@[i].stopped),
                ),
            prevented_chain(r.0@, default_prevented),
            r.1 == prevented_at_end(r.0@, default_prevented),
    {
        self.dispatch_phase(run, event_type, EventPhase::Target, immediate_propagation_stopped, default_prevented)
    }

    /// Dispatches an event of type `event_type` in `phase`: fires, in
    /// registration order, the handlers of the listeners that fire for it,
    /// removes each `once` listener after its handler has run, and ends once
    /// a handler stops the event's immediate propagation (at once, when it is
    /// stopped already). `run(handler, prevented)` runs a handler with the
    /// event's default prevented as `prevented` says, and tells whether the
    /// handler left it prevented and whether it stopped the event's immediate
    /// propagation. A passive listener's handler cannot change whether the
    /// default is prevented. Returns the record of the handlers run, in
    /// order, and whether the default stands prevented at the end.
    pub fn dispatch_phase<F: Fn(u64, bool) -> (bool, bool)>(
        &mut self,
        run: F,
        event_type: &str,
        phase: EventPhase,
        immediate_propagation_stopped: bool,
        default_prevented: bool,
    ) -> (r: (Vec<FiredListener>, bool))
        requires
            forall|h: u64, p: bool| call_requires(run, (h, p)),
        ensures
            immediate_propagation_stopped ==> r.0@.len() == 0 && final(self)@ == old(self)@ && r.1
                == default_prevented,
            !immediate_propagation_stopped ==> (fired_calls(r.0@), final(self)@) == dispatch_run(
                old(self)@,
                event_type@,
                phase,
                fired_outcomes(r.0@),
                0,
            ),
            forall|i: int|
                0 <= i < r.0@.len() ==> call_ensures(
                    run,
                    ((#[trigger] r.0@[i]).handler, r.0@[i].prevented_before),
                    (r.0@[i].prevented_after, r.0@[i].stopped),
                ),
            prevented_chain(r.0@, default_prevented),
            r.1 == prevented_at_end(r.0@, default_prevented),
    {
        let mut record: Vec<FiredListener> = Vec::new();
        proof {
            reveal(prevented_chain);
        }
        if immediate_propagation_stopped {
            return (record, default_prevented);
        }
        let ghost orig = self@;
        let ghost mut j: int = 0;
        let ghost mut kept: Seq<Listener> = Seq::empty();
        let mut idx: usize = 0;
        let mut stopped = false;
        let mut prevented = default_prevented;
        proof {
            lemma_run_start(orig, event_type@, phase);
            assert(kept + orig.skip(0) =~= orig);
        }
        while !stopped && idx < self.listeners.len()
            invariant
                0 <= j <= orig.len(),
                self@ == kept + orig.skip(j),
                idx == kept.len(),
                forall|h: u64, p: bool| call_requires(run, (h, p)),
                forall|i: int|
                    0 <= i < record@.len() ==> call_ensures(
                        run,
                        ((#[trigger] record@[i]).handler, record@[i].prevented_before),
                        (record@[i].prevented_after, record@[i].stopped),
                    ),
                prevented_chain(record@, default_prevented),
                prevented == prevented_at_end(record@, default_prevented),
                stopped ==> run_done(orig, event_type@, phase, record@, self@),
                !stopped ==> run_pending(orig, event_type@, phase, record@, j, kept),
            decreases self@.len() - idx + (if stopped { 0int } else { 1int }),
        {
            assert(self@[idx as int] == orig[j]);
            let l = &self.listeners[idx];
            let in_phase = match phase {
                EventPhase::Capture => l.options.capture,
                EventPhase::Target => true,
                EventPhase::Bubble => !l.options.capture,
            };
            if !(in_phase && names_equal(l.event_type.as_str(), event_type)) {
                proof {
                    lemma_run_skip(orig, event_type@, phase, record@, j, kept);
                    kept = kept.push(orig[j]);
                    j = j + 1;
                }
                idx = idx + 1;
                assert(self@ =~= kept + orig.skip(j));
            } else {
                let handler = l.handler;
                let options = l.options.clone();
                let passive = options.passive;
                let once = options.once;
                let (after, outcome) = run(handler, prevented);
                let entry = FiredListener {
                    handler,
                    passive,
                    prevented_before: prevented,
                    prevented_after: after,
                    stopped: outcome,
                };
                let ghost before = record@;
                proof {
                    lemma_run_fire(orig, event_type@, phase, before, j, kept, entry);
                    lemma_chain_push(before, default_prevented, entry);
                }
                record.push(entry);
                proof {
                    assert(record@ == before.push(entry));
                    assert forall|i: int|
                        0 <= i < record@.len() implies call_ensures(
                        run,
                        ((#[trigger] record@[i]).handler, record@[i].prevented_before),
                        (record@[i].prevented_after, record@[i].stopped),
                    ) by {
                        if i < before.len() {
                            assert(record@[i] == before[i]);
                        }
                    }
                }
                prevented = default_prevented_after(&options, prevented, after);
                let ghost kept2 = if once {
                    kept
                } else {
                    kept.push(orig[j])
                };
                if once {
                    self.listeners.remove(idx);
                } else {
                    idx = idx + 1;
                }
                proof {
                    kept = kept2;
                    j = j + 1;
                }
                assert(self@ =~= kept + orig.skip(j));
                stopped = outcome;
            }
        }
        proof {
            if !stopped {
                assert(j == orig.len());
                lemma_run_end(orig, event_type@, phase, record@, kept);
                assert(orig.skip(j) =~= Seq::<Listener>::empty());
                assert(self@ =~= kept);
            } else {
                lemma_run_done_end(orig, event_type@, phase, record@, self@);
            }
        }
        (record, prevented)
    }
}

/// After removing the registrations of a handler for an event type, none is left.
pub proof fn lemma_removed_registration_absent(s: Seq<Listener>, event_type: Seq<char>, handler: u64)
    ensures
        forall|i: int|
            0 <= i < s.filter(kept_after_removal(event_type, handler)).len() ==> !is_registration(
                #[trigger] s.filter(kept_after_removal(event_type, handler))[i],
                event_type,
                handler,
            ),
{
    assert forall|i: int|
        0 <= i < s.filter(kept_after_removal(event_type, handler)).len() implies !is_registration(
        #[trigger] s.filter(kept_after_removal(event_type, handler))[i],
        event_type,
        handler,
    ) by {
        s.lemma_filter_pred(kept_after_removal(event_type, handler), i);
    }
}

/// Removing a registration that is not there leaves the listeners as they are.
pub proof fn lemma_remove_absent_unchanged(s: Seq<Listener>, event_type: Seq<char>, handler: u64)
    requires
        forall|i: int| 0 <= i < s.len() ==> !is_registration(#[trigger] s[i], event_type, handler),
    ensures
        s.filter(kept_after_removal(event_type, handler)) == s,
    decreases s.len(),
{
    if s.len() == 0 {
        reveal(Seq::filter);
        assert(s.filter(kept_after_removal(event_type, handler)) =~= s);
    } else {
        let rest = s.drop_last();
        assert(s =~= rest.push(s.last()));
        assert(!is_registration(s[s.len() - 1], event_type, handler));
        assert forall|i: int| 0 <= i < rest.len() implies !is_registration(#[trigger] rest[i], event_type, handler) by {
            assert(rest[i] == s[i]);
        }
        lemma_remove_absent_unchanged(rest, event_type, handler);
        rest.lemma_filter_push(s.last(), kept_after_removal(event_type, handler));
    }
}

} // verus!
