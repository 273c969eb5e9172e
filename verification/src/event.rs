//! Event addressing: `EventTarget`, the routing rule shared by SSE clients and
//! backend listeners, event ids, and the envelope broadcast on the bus.

use vstd::prelude::*;

use crate::json::{JsonValue, same_json};

verus! {

/// Where an event is addressed, or who is listening. Mirrors upstream's
/// `EventTarget`.
#[derive(Debug, PartialEq, Eq)]
pub enum EventTarget {
    /// Broadcast to every listener.
    Any,
    /// Match listeners whose label equals this string. Note the upstream quirk
    /// (tauri#11561): plain `Any` listeners do *not* match `AnyLabel` events.
    AnyLabel { label: String },
    /// App-level event source / target.
    App,
    Window { label: String },
    Webview { label: String },
    WebviewWindow { label: String },
}

/// The label a target carries, if it is one of the labelled kinds.
pub open spec fn target_label(t: EventTarget) -> Option<Seq<char>> {
    match t {
        EventTarget::AnyLabel { label } => Some(label@),
        EventTarget::Window { label } => Some(label@),
        EventTarget::Webview { label } => Some(label@),
        EventTarget::WebviewWindow { label } => Some(label@),
        EventTarget::Any => None,
        EventTarget::App => None,
    }
}

/// Whether an event addressed to `target` reaches a listener registered as
/// `listener`.
///
/// - An `Any` listener hears only `Any`-addressed events (the tauri#11561
///   quirk: it does not hear `AnyLabel` events).
/// - An `App` listener hears `Any` and `App` events.
/// - A labelled listener hears `Any` events and events addressed to any
///   labelled target with the same label; never `App` events.
pub open spec fn routes_to(target: EventTarget, listener: EventTarget) -> bool {
    match listener {
        EventTarget::Any => target is Any,
        EventTarget::App => target is Any || target is App,
        _ => match target {
            EventTarget::Any => true,
            EventTarget::App => false,
            _ => target_label(target) == target_label(listener),
        },
    }
}

impl EventTarget {
    /// Convenience extractor for the SSE payload `source` field.
    pub fn label(&self) -> (r: Option<&str>)
        ensures
            match r {
                Some(s) => target_label(*self) == Some(s@),
                None => target_label(*self) is None,
            },
    {
        match self {
            EventTarget::AnyLabel { label } => Some(label.as_str()),
            EventTarget::Window { label } => Some(label.as_str()),
            EventTarget::Webview { label } => Some(label.as_str()),
            EventTarget::WebviewWindow { label } => Some(label.as_str()),
            EventTarget::Any => None,
            EventTarget::App => None,
        }
    }

    /// The `AnyLabel` target for `label`; what a bare label converts to.
    pub fn any_label(label: String) -> (r: EventTarget)
        ensures
            r == (EventTarget::AnyLabel { label }),
    {
        EventTarget::AnyLabel { label }
    }
}

impl Clone for EventTarget {
    fn clone(&self) -> (r: Self)
        ensures
            r == *self,
    {
        match self {
            EventTarget::Any => EventTarget::Any,
            EventTarget::AnyLabel { label } => EventTarget::AnyLabel { label: label.clone() },
            EventTarget::App => EventTarget::App,
            EventTarget::Window { label } => EventTarget::Window { label: label.clone() },
            EventTarget::Webview { label } => EventTarget::Webview { label: label.clone() },
            EventTarget::WebviewWindow { label } => EventTarget::WebviewWindow {
                label: label.clone(),
            },
        }
    }
}

impl From<String> for EventTarget {
    fn from(label: String) -> (r: EventTarget) {
        EventTarget::AnyLabel { label }
    }
}

impl vstd::std_specs::convert::FromSpecImpl<String> for EventTarget {
    open spec fn obeys_from_spec() -> bool {
        true
    }

    open spec fn from_spec(v: String) -> EventTarget {
        EventTarget::AnyLabel { label: v }
    }
}

/// Filter routing logic shared by SSE clients and backend dispatch.
///
/// Routing follows real Tauri's semantics:
/// - `Any`-target events broadcast to every labelled listener.
/// - Labelled events only reach listeners with the same label.
/// - The upstream quirk (tauri#11561): a plain `Any` *listener* does NOT
///   match `AnyLabel` events. Only `Any`-target events match an `Any`
///   listener.
pub fn event_matches_listener(target: &EventTarget, listener: &EventTarget) -> (r: bool)
    ensures
        r == routes_to(*target, *listener),
{
    match listener {
        EventTarget::Any => match target {
            EventTarget::Any => true,
            _ => false,
        },
        EventTarget::App => match target {
            EventTarget::Any => true,
            EventTarget::App => true,
            _ => false,
        },
        EventTarget::AnyLabel { label }
        | EventTarget::Window { label }
        | EventTarget::Webview { label }
        | EventTarget::WebviewWindow { label } => match target {
            EventTarget::Any => true,
            EventTarget::App => false,
            EventTarget::AnyLabel { label: other }
            | EventTarget::Window { label: other }
            | EventTarget::Webview { label: other }
            | EventTarget::WebviewWindow { label: other } => *other == *label,
        },
    }
}

/// An event addressed to `Any` reaches every listener, whatever its kind.
pub proof fn law_broadcast_reaches_every_listener(listener: EventTarget)
    ensures
        routes_to(EventTarget::Any, listener),
{
}

/// An `Any` listener hears an event exactly when the event is addressed to
/// `Any`: in particular it never hears `AnyLabel` events (tauri#11561).
pub proof fn law_any_listener_hears_only_broadcasts(target: EventTarget)
    ensures
        routes_to(target, EventTarget::Any) <==> target is Any,
        forall|l: String| !routes_to(EventTarget::AnyLabel { label: l }, EventTarget::Any),
{
}

/// An `App` listener (`AppHandle::listen`) hears exactly the events addressed
/// to `Any` or to `App`: no event addressed to a window, a webview or a label
/// reaches it.
pub proof fn law_app_listener_hears_only_any_and_app(target: EventTarget)
    ensures
        routes_to(target, EventTarget::App) <==> (target is Any || target is App),
        target_label(target) is Some ==> !routes_to(target, EventTarget::App),
{
}

/// An `App`-addressed event reaches exactly the `App` listeners.
pub proof fn law_app_events_reach_only_app_listeners(listener: EventTarget)
    ensures
        routes_to(EventTarget::App, listener) <==> listener is App,
{
}

/// Between labelled targets and labelled listeners, routing depends only on
/// the labels: an event reaches the listener exactly when the labels are
/// equal, whichever labelled kinds the two are.
pub proof fn law_labelled_routing_is_by_label(target: EventTarget, listener: EventTarget)
    requires
        target_label(target) is Some,
        target_label(listener) is Some,
    ensures
        routes_to(target, listener) <==> target_label(target) == target_label(listener),
        routes_to(target, listener) <==> routes_to(listener, target),
{
}

/// Identifier handed back from `Listener::listen` / `once`, and carried by
/// every envelope.
pub type EventId = u32;

/// The id handed out after `id`: the next integer, wrapping to 0 after
/// `u32::MAX` like an atomic `fetch_add`.
pub open spec fn id_after(id: u32) -> u32 {
    if id == u32::MAX {
        0
    } else {
        (id + 1) as u32
    }
}

/// The id that the call numbered `k` (from 0) hands out, over successive
/// `take`s on a counter whose next id is `start`.
pub open spec fn nth_id(start: u32, k: nat) -> u32
    decreases k,
{
    if k == 0 {
        start
    } else {
        id_after(nth_id(start, (k - 1) as nat))
    }
}

/// Over `n` successive `take`s that stay below the wrap-around, the ids
/// count up by one from the counter's next id: call `k` gets `start + k`, so
/// a later call gets a larger id and no two calls share one. From a fresh
/// counter (`start == 1`) the `n` ids are exactly `1..=n`.
pub proof fn law_successive_ids_count_up(start: u32, n: nat)
    requires
        start + n <= u32::MAX + 1,
    ensures
        forall|k: nat| k < n ==> #[trigger] nth_id(start, k) == start + k,
        forall|i: nat, j: nat| i < j < n ==> #[trigger] nth_id(start, i) < #[trigger] nth_id(start, j),
    decreases n,
{
    if n > 0 {
        law_successive_ids_count_up(start, (n - 1) as nat);
        let last = (n - 1) as nat;
        if last > 0 {
            assert(nth_id(start, (last - 1) as nat) == start + last - 1);
        }
        assert(nth_id(start, last) == start + last);
    }
}

/// The source of event ids. Ids start at 1 and advance by one per id handed
/// out, wrapping around at `u32::MAX` like an atomic `fetch_add`.
pub struct EventIdCounter {
    next: u32,
}

impl EventIdCounter {
    /// The value the next call of `take` hands out.
    pub closed spec fn peek(&self) -> u32 {
        self.next
    }

    pub fn new() -> (r: EventIdCounter)
        ensures
            r.peek() == 1,
    {
        EventIdCounter { next: 1 }
    }

    /// Hands out the current id and advances the counter.
    pub fn take(&mut self) -> (r: EventId)
        ensures
            r == old(self).peek(),
            final(self).peek() == id_after(old(self).peek()),
    {
        let r = self.next;
        self.next = if self.next == u32::MAX {
            0
        } else {
            self.next + 1
        };
        r
    }
}

/// One unit broadcast on the bus. Carries the addressing metadata so SSE
/// clients and backend listeners can both filter.
#[derive(Debug)]
pub struct EventEnvelope {
    pub id: EventId,
    pub event: String,
    pub payload: JsonValue,
    pub target: EventTarget,
    pub source: EventTarget,
}

/// Event delivered to a backend listener registered via `Listener::listen`.
#[derive(Debug)]
pub struct Event {
    pub id: EventId,
    pub event: String,
    pub payload: JsonValue,
    pub source: EventTarget,
}

impl Clone for EventEnvelope {
    fn clone(&self) -> (r: EventEnvelope)
        ensures
            r.id == self.id,
            r.event@ == self.event@,
            same_json(self.payload, r.payload),
            r.target == self.target,
            r.source == self.source,
    {
        EventEnvelope {
            id: self.id,
            event: self.event.clone(),
            payload: self.payload.clone(),
            target: self.target.clone(),
            source: self.source.clone(),
        }
    }
}

impl Clone for Event {
    fn clone(&self) -> (r: Event)
        ensures
            r.id == self.id,
            r.event@ == self.event@,
            same_json(self.payload, r.payload),
            r.source == self.source,
    {
        Event {
            id: self.id,
            event: self.event.clone(),
            payload: self.payload.clone(),
            source: self.source.clone(),
        }
    }
}

impl EventEnvelope {
    /// The event a backend listener receives for this envelope: everything
    /// but the target.
    pub fn into_event(self) -> (r: Event)
        ensures
            r.id == self.id,
            r.event == self.event,
            r.payload == self.payload,
            r.source == self.source,
    {
        Event { id: self.id, event: self.event, payload: self.payload, source: self.source }
    }
}

} // verus!
