//! The app's shared state, `AppInner`: managed state, known windows, backend
//! listeners and the event-id counter, with every decision the HTTP
//! endpoints and handles make on it.

use vstd::prelude::*;

use crate::event::{EventEnvelope, EventId, EventIdCounter, EventTarget, id_after};
use crate::ipc::{CommandRequest, Reply, bad_request_reply, decode_invoke_body};
use crate::json::{JsonValue, json_parse};
use crate::listener::{
    Listener, ListenerRegistry, due_ids, fired_once, handler_of, hears, keep_unless,
    lemma_keep_unless_contains, law_registered_listener_hears_matching_event, retire_spec,
    with_id, without_spec,
};
use crate::state::{StateManager, TypeKey};
use crate::window::{
    WindowRegistry, default_label, header_label, query_label, window_from_header, window_from_query,
};

verus! {

/// Internal app state shared by every clone of an app handle. `V` is the
/// stored form of a managed value, `H` that of a listener's handler.
pub struct AppInner<V, H> {
    state: StateManager<V>,
    windows: WindowRegistry,
    listeners: ListenerRegistry<H>,
    ids: EventIdCounter,
}

impl<V, H> AppInner<V, H> {
    pub closed spec fn state_view(&self) -> Map<TypeKey, V> {
        self.state@
    }

    pub closed spec fn windows_view(&self) -> Set<Seq<char>> {
        self.windows@
    }

    pub closed spec fn listeners_view(&self) -> Seq<Listener<H>> {
        self.listeners@
    }

    /// The id the next listener or event gets.
    pub closed spec fn next_id(&self) -> EventId {
        self.ids.peek()
    }

    /// The id after this app's next one (wrapping like an atomic counter).
    pub open spec fn following_id(&self) -> EventId {
        id_after(self.next_id())
    }

    /// Every registered listener's id is below the next id to hand out, so a
    /// new id is fresh.
    pub open spec fn ids_fresh(&self) -> bool {
        forall|k: int|
            0 <= k < self.listeners_view().len() ==> #[trigger] self.listeners_view()[k].id
                < self.next_id()
    }

    /// The fresh app: no managed state, the `"main"` window, no listener,
    /// ids starting at 1.
    pub fn new() -> (r: AppInner<V, H>)
        ensures
            r.ids_fresh(),
            r.state_view() == Map::<TypeKey, V>::empty(),
            r.windows_view() == Set::<Seq<char>>::empty().insert(default_label()),
            r.listeners_view() == Seq::<Listener<H>>::empty(),
            r.next_id() == 1,
    {
        AppInner {
            state: StateManager::new(),
            windows: WindowRegistry::new(),
            listeners: ListenerRegistry::new(),
            ids: EventIdCounter::new(),
        }
    }

    /// Installs a managed value unless its type already has one.
    pub fn manage(&mut self, key: TypeKey, value: V) -> (inserted: bool)
        ensures
            inserted == !old(self).state_view().contains_key(key),
            final(self).state_view() == (if inserted {
                old(self).state_view().insert(key, value)
            } else {
                old(self).state_view()
            }),
            final(self).windows_view() == old(self).windows_view(),
            final(self).listeners_view() == old(self).listeners_view(),
            final(self).next_id() == old(self).next_id(),
    {
        self.state.manage(key, value)
    }

    /// The managed value of a type, if any.
    pub fn try_state(&self, key: TypeKey) -> (r: Option<&V>)
        ensures
            match r {
                Some(v) => self.state_view().contains_key(key) && self.state_view()[key] == *v,
                None => !self.state_view().contains_key(key),
            },
    {
        self.state.try_get(key)
    }

    /// Stops managing a type, handing back its value.
    pub fn unmanage(&mut self, key: TypeKey) -> (r: Option<V>)
        ensures
            final(self).state_view() == old(self).state_view().remove(key),
            match r {
                Some(v) => old(self).state_view().contains_key(key) && old(self).state_view()[key]
                    == v,
                None => !old(self).state_view().contains_key(key),
            },
            final(self).windows_view() == old(self).windows_view(),
            final(self).listeners_view() == old(self).listeners_view(),
            final(self).next_id() == old(self).next_id(),
    {
        self.state.unmanage(key)
    }

    /// Remembers a window label; says whether it was new.
    pub fn register_window(&mut self, label: &str) -> (added: bool)
        ensures
            added == !old(self).windows_view().contains(label@),
            final(self).windows_view() == old(self).windows_view().insert(label@),
            final(self).state_view() == old(self).state_view(),
            final(self).listeners_view() == old(self).listeners_view(),
            final(self).next_id() == old(self).next_id(),
    {
        self.windows.register(label)
    }

    /// The window with this label, if a client has identified itself with
    /// it.
    pub fn get_webview_window(&self, label: &str) -> (r: Option<String>)
        ensures
            match r {
                Some(l) => self.windows_view().contains(label@) && l@ == label@,
                None => !self.windows_view().contains(label@),
            },
    {
        self.windows.get(label)
    }

    /// Every window the shim currently knows about, each once.
    pub fn webview_windows(&self) -> (r: Vec<String>)
        ensures
            crate::window::distinct_labels(r@),
            crate::window::label_set(r@) == self.windows_view(),
    {
        self.windows.labels()
    }

    /// Registers a backend listener under a fresh id.
    pub fn listen(&mut self, event: String, target: EventTarget, once: bool, handler: H) -> (id:
        EventId)
        ensures
            id == old(self).next_id(),
            final(self).next_id() == old(self).following_id(),
            final(self).listeners_view() == old(self).listeners_view().push(
                Listener { id, event, target, once, handler },
            ),
            old(self).ids_fresh() && old(self).next_id() < u32::MAX ==> {
                &&& final(self).ids_fresh()
                &&& forall|k: int|
                    0 <= k < old(self).listeners_view().len()
                        ==> #[trigger] old(self).listeners_view()[k].id != id
            },
            final(self).state_view() == old(self).state_view(),
            final(self).windows_view() == old(self).windows_view(),
    {
        let id = self.ids.take();
        self.listeners.listen(id, event, target, once, handler);
        id
    }

    /// Removes the listener registered under `id`; says whether there was
    /// one.
    pub fn unlisten(&mut self, id: EventId) -> (removed: bool)
        ensures
            final(self).listeners_view() == without_spec(old(self).listeners_view(), id),
            removed == exists|k: int|
                0 <= k < old(self).listeners_view().len() && old(self).listeners_view()[k].id
                    == id,
            final(self).state_view() == old(self).state_view(),
            final(self).windows_view() == old(self).windows_view(),
            final(self).next_id() == old(self).next_id(),
            old(self).ids_fresh() ==> final(self).ids_fresh(),
    {
        let r = self.listeners.unlisten(id);
        proof {
            if old(self).ids_fresh() {
                lemma_keep_unless_keeps_fresh(
                    old(self).listeners_view(),
                    with_id(id),
                    self.next_id(),
                );
            }
        }
        r
    }

    /// The ids of the listeners an event reaches, in registration order.
    pub fn due(&self, event: &str, target: &EventTarget) -> (r: Vec<EventId>)
        ensures
            r@ == due_ids(self.listeners_view(), event@, *target),
    {
        self.listeners.due(event, target)
    }

    /// The handler registered under `id`.
    pub fn handler(&self, id: EventId) -> (r: Option<&H>)
        ensures
            match r {
                Some(h) => handler_of(self.listeners_view(), id) == Some(*h),
                None => handler_of(self.listeners_view(), id) is None,
            },
    {
        self.listeners.handler(id)
    }

    /// Drops the one-shot listeners among those that just fired.
    pub fn retire_once(&mut self, fired: &Vec<EventId>)
        ensures
            final(self).listeners_view() == retire_spec(old(self).listeners_view(), fired@),
            final(self).state_view() == old(self).state_view(),
            final(self).windows_view() == old(self).windows_view(),
            final(self).next_id() == old(self).next_id(),
            old(self).ids_fresh() ==> final(self).ids_fresh(),
    {
        self.listeners.retire_once(fired);
        proof {
            if old(self).ids_fresh() {
                lemma_keep_unless_keeps_fresh(
                    old(self).listeners_view(),
                    fired_once(fired@),
                    self.next_id(),
                );
            }
        }
    }

    /// An envelope under the next id, advancing the counter.
    pub fn envelope(&mut self, event: String, payload: JsonValue, target: EventTarget, source:
        EventTarget) -> (r: EventEnvelope)
        ensures
            r.id == old(self).next_id(),
            final(self).next_id() == old(self).following_id(),
            r.event == event,
            r.payload == payload,
            r.target == target,
            r.source == source,
            final(self).listeners_view() == old(self).listeners_view(),
            final(self).state_view() == old(self).state_view(),
            final(self).windows_view() == old(self).windows_view(),
            old(self).ids_fresh() && old(self).next_id() < u32::MAX ==> final(self).ids_fresh(),
    {
        let id = self.ids.take();
        EventEnvelope { id, event, payload, target, source }
    }

    /// A backend `emit`: addressed to every listener, sent by the app.
    pub fn emit(&mut self, event: String, payload: JsonValue) -> (r: EventEnvelope)
        ensures
            r.id == old(self).next_id(),
            final(self).next_id() == old(self).following_id(),
            r.event == event,
            r.payload == payload,
            r.target == EventTarget::Any,
            r.source == EventTarget::App,
            final(self).listeners_view() == old(self).listeners_view(),
            final(self).windows_view() == old(self).windows_view(),
            final(self).state_view() == old(self).state_view(),
    {
        self.envelope(event, payload, EventTarget::Any, EventTarget::App)
    }

    /// A backend `emit_to`: addressed to `target`, sent by the app.
    pub fn emit_to(&mut self, target: EventTarget, event: String, payload: JsonValue) -> (r:
        EventEnvelope)
        ensures
            r.id == old(self).next_id(),
            final(self).next_id() == old(self).following_id(),
            r.event == event,
            r.payload == payload,
            r.target == target,
            r.source == EventTarget::App,
            final(self).listeners_view() == old(self).listeners_view(),
            final(self).windows_view() == old(self).windows_view(),
            final(self).state_view() == old(self).state_view(),
    {
        self.envelope(event, payload, target, EventTarget::App)
    }

    /// A window's `emit_to`: addressed to `target`, sent by the window
    /// `label`.
    pub fn window_emit_to(&mut self, label: String, target: EventTarget, event: String, payload:
        JsonValue) -> (r: EventEnvelope)
        ensures
            r.id == old(self).next_id(),
            final(self).next_id() == old(self).following_id(),
            r.event == event,
            r.payload == payload,
            r.target == target,
            r.source == (EventTarget::Window { label }),
            final(self).listeners_view() == old(self).listeners_view(),
            final(self).windows_view() == old(self).windows_view(),
            final(self).state_view() == old(self).state_view(),
    {
        self.envelope(event, payload, target, EventTarget::Window { label })
    }

    /// A window's `emit`: addressed to every listener, sent by the window
    /// `label`.
    pub fn window_emit(&mut self, label: String, event: String, payload: JsonValue) -> (r:
        EventEnvelope)
        ensures
            r.id == old(self).next_id(),
            final(self).next_id() == old(self).following_id(),
            r.event == event,
            r.payload == payload,
            r.target == EventTarget::Any,
            r.source == (EventTarget::Window { label }),
            final(self).listeners_view() == old(self).listeners_view(),
            final(self).windows_view() == old(self).windows_view(),
            final(self).state_view() == old(self).state_view(),
    {
        self.window_emit_to(label, EventTarget::Any, event, payload)
    }

    /// `POST /__tauri/emit`, once its body is decoded: the sending window is
    /// remembered, and the envelope carries a missing payload as `null`, a
    /// missing target as `Any`, and the window as its source.
    pub fn frontend_emit(
        &mut self,
        window_header: Option<&str>,
        event: String,
        payload: Option<JsonValue>,
        target: Option<EventTarget>,
    ) -> (r: EventEnvelope)
        ensures
            r.id == old(self).next_id(),
            final(self).next_id() == old(self).following_id(),
            r.event == event,
            r.payload == (match payload {
                Some(p) => p,
                None => JsonValue::Null,
            }),
            r.target == (match target {
                Some(t) => t,
                None => EventTarget::Any,
            }),
            r.source matches EventTarget::WebviewWindow { label } && label@ == header_label(
                window_header,
            ),
            final(self).windows_view() == old(self).windows_view().insert(header_label(window_header)),
            final(self).listeners_view() == old(self).listeners_view(),
            final(self).state_view() == old(self).state_view(),
    {
        let label = window_from_header(window_header);
        self.register_window(label.as_str());
        let payload = match payload {
            Some(p) => p,
            None => JsonValue::Null,
        };
        let target = match target {
            Some(t) => t,
            None => EventTarget::Any,
        };
        self.envelope(event, payload, target, EventTarget::WebviewWindow { label })
    }

    /// `GET /__tauri/events`: remembers the client's window and gives the
    /// listener identity its stream filters by, `WebviewWindow { label }`.
    pub fn subscribe(&mut self, window: Option<String>) -> (r: EventTarget)
        ensures
            r matches EventTarget::WebviewWindow { label } && label@ == query_label(window),
            final(self).windows_view() == old(self).windows_view().insert(query_label(window)),
            final(self).listeners_view() == old(self).listeners_view(),
            final(self).next_id() == old(self).next_id(),
            final(self).state_view() == old(self).state_view(),
    {
        let label = window_from_query(window);
        self.register_window(label.as_str());
        EventTarget::WebviewWindow { label }
    }

    /// `POST /__tauri/invoke/{name}`, before the command runs: a body that
    /// is not JSON is answered `400`; otherwise the calling window is
    /// remembered and the command request is built.
    pub fn prepare_invoke<A>(
        &mut self,
        name: String,
        body: &[u8],
        window_header: Option<&str>,
        app_handle: A,
    ) -> (r: Result<CommandRequest<A>, Reply>)
        ensures
            final(self).listeners_view() == old(self).listeners_view(),
            final(self).next_id() == old(self).next_id(),
            match r {
                Ok(req) => {
                    &&& req.name_view() == name@
                    &&& req.handle_view() == app_handle
                    &&& (body@.len() == 0 ==> req.body_view() == JsonValue::Null)
                    &&& (body@.len() > 0 ==> json_parse(body@) == Ok::<JsonValue, Seq<char>>(
                        req.body_view(),
                    ))
                    &&& req.window_label_view() == header_label(window_header)
                    &&& final(self).windows_view() == old(self).windows_view().insert(
                        req.window_label_view(),
                    )
                },
                Err(reply) => {
                    &&& body@.len() > 0
                    &&& json_parse(body@) is Err
                    &&& reply.status == crate::ipc::STATUS_BAD_REQUEST
                    &&& crate::ipc::is_message(
                        reply.body,
                        crate::ipc::invalid_body_message(json_parse(body@)->Err_0),
                    )
                    &&& final(self).windows_view() == old(self).windows_view()
                },
            },
            final(self).state_view() == old(self).state_view(),
    {
        let decoded = decode_invoke_body(body);
        match decoded {
            Err(e) => Err(bad_request_reply(e)),
            Ok(value) => {
                let label = window_from_header(window_header);
                self.register_window(label.as_str());
                Ok(CommandRequest::new(name, value, app_handle, label))
            },
        }
    }
}

/// Owned handle given to the setup hook. Upstream it carries the run-loop
/// control flow; here it simply wraps the app handle `H`.
pub struct App<H> {
    handle: H,
}

impl<H> App<H> {
    pub closed spec fn handle_view(&self) -> H {
        self.handle
    }

    pub fn new(handle: H) -> (r: App<H>)
        ensures
            r.handle_view() == handle,
    {
        App { handle }
    }

    pub fn handle(&self) -> (r: &H)
        ensures
            *r == self.handle_view(),
    {
        &self.handle
    }
}

/// Dropping listeners keeps every remaining id below the bound the
/// originals were below.
pub proof fn lemma_keep_unless_keeps_fresh<H>(
    s: Seq<Listener<H>>,
    drop: spec_fn(Listener<H>) -> bool,
    bound: EventId,
)
    requires
        forall|k: int| 0 <= k < s.len() ==> #[trigger] s[k].id < bound,
    ensures
        forall|k: int|
            0 <= k < keep_unless(s, drop).len() ==> #[trigger] keep_unless(s, drop)[k].id < bound,
{
    let after = keep_unless(s, drop);
    assert forall|k: int| 0 <= k < after.len() implies #[trigger] after[k].id < bound by {
        assert(after.contains(after[k]));
        lemma_keep_unless_contains(s, drop, after[k]);
        let j = choose|j: int| 0 <= j < s.len() && s[j] == after[k];
        assert(s[j].id < bound);
    }
}

/// What the app emits to everyone reaches every backend listener registered
/// for that event name, whatever target it listens on (`Any`, `App`, or a
/// label).
pub proof fn law_emit_reaches_every_listener_of_the_event<H>(
    s: Seq<Listener<H>>,
    l: Listener<H>,
    event: Seq<char>,
)
    requires
        s.contains(l),
        l.event@ == event,
    ensures
        due_ids(s, event, EventTarget::Any).contains(l.id),
{
    crate::event::law_broadcast_reaches_every_listener(l.target);
    law_registered_listener_hears_matching_event(s, l, event, EventTarget::Any);
}

/// An event addressed to a label never reaches a listener registered with
/// `listen_any` (target `Any`), and reaches a listener on a window exactly
/// when the labels agree.
pub proof fn law_labelled_emit_routing<H>(l: Listener<H>, event: Seq<char>, label: String)
    ensures
        l.target is Any ==> !hears(l, event, EventTarget::AnyLabel { label }),
        (l.event@ == event && crate::event::target_label(l.target) is Some) ==> (hears(
            l,
            event,
            EventTarget::AnyLabel { label },
        ) <==> crate::event::target_label(l.target) == Some(label@)),
{
}

/// Ids handed out one after another never repeat while the counter has not
/// wrapped: a listener registered after another gets a different id.
pub proof fn law_listener_ids_are_fresh<V, H>(
    before: AppInner<V, H>,
    id: EventId,
    l: Listener<H>,
)
    requires
        before.ids_fresh(),
        before.next_id() < u32::MAX,
        id == before.next_id(),
        before.listeners_view().contains(l),
    ensures
        l.id != id,
{
    let k = choose|k: int|
        0 <= k < before.listeners_view().len() && before.listeners_view()[k] == l;
    assert(before.listeners_view()[k].id < before.next_id());
}

} // verus!
