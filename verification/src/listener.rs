//! The registry of backend listeners (`Listener::listen`, `listen_any`,
//! `once`, `unlisten`) and the decision of which of them an event reaches.

use vstd::prelude::*;

use crate::event::{EventId, EventTarget, event_matches_listener, routes_to};
use crate::json::str_eq;

verus! {

/// One registered backend listener. `handler` is whatever the caller runs
/// when the listener is due; the registry never calls it.
pub struct Listener<H> {
    pub id: EventId,
    pub event: String,
    pub target: EventTarget,
    pub once: bool,
    pub handler: H,
}

/// Whether listener `l` hears an event named `event` addressed to `target`.
pub open spec fn hears<H>(l: Listener<H>, event: Seq<char>, target: EventTarget) -> bool {
    l.event@ == event && routes_to(target, l.target)
}

/// The ids of the listeners in `s` that hear the event, in registration
/// order.
pub open spec fn due_ids<H>(s: Seq<Listener<H>>, event: Seq<char>, target: EventTarget) -> Seq<
    EventId,
>
    decreases s.len(),
{
    if s.len() == 0 {
        Seq::empty()
    } else {
        let rest = due_ids(s.drop_last(), event, target);
        if hears(s.last(), event, target) {
            rest.push(s.last().id)
        } else {
            rest
        }
    }
}

/// `s` without the entries for which `drop` holds, order kept.
pub open spec fn keep_unless<H>(s: Seq<Listener<H>>, drop: spec_fn(Listener<H>) -> bool) -> Seq<
    Listener<H>,
>
    decreases s.len(),
{
    if s.len() == 0 {
        Seq::empty()
    } else {
        let rest = keep_unless(s.drop_first(), drop);
        if drop(s[0]) {
            rest
        } else {
            seq![s[0]] + rest
        }
    }
}

/// Holds of the one-shot listeners whose id is in `fired`.
pub open spec fn fired_once<H>(fired: Seq<EventId>) -> spec_fn(Listener<H>) -> bool {
    |l: Listener<H>| l.once && fired.contains(l.id)
}

/// Holds of the listeners registered under `id`.
pub open spec fn with_id<H>(id: EventId) -> spec_fn(Listener<H>) -> bool {
    |l: Listener<H>| l.id == id
}

/// The entries of `s` except the one-shot listeners whose id is in `fired`.
pub open spec fn retire_spec<H>(s: Seq<Listener<H>>, fired: Seq<EventId>) -> Seq<Listener<H>> {
    keep_unless(s, fired_once(fired))
}

/// The entries of `s` whose id is not `id`.
pub open spec fn without_spec<H>(s: Seq<Listener<H>>, id: EventId) -> Seq<Listener<H>> {
    keep_unless(s, with_id(id))
}

/// The handler of the first entry of `s` with this id.
pub open spec fn handler_of<H>(s: Seq<Listener<H>>, id: EventId) -> Option<H>
    decreases s.len(),
{
    if s.len() == 0 {
        None
    } else if s[0].id == id {
        Some(s[0].handler)
    } else {
        handler_of(s.drop_first(), id)
    }
}

/// An entry survives `keep_unless` exactly when it was there and is not
/// dropped.
pub proof fn lemma_keep_unless_contains<H>(
    s: Seq<Listener<H>>,
    drop: spec_fn(Listener<H>) -> bool,
    l: Listener<H>,
)
    ensures
        keep_unless(s, drop).contains(l) <==> (s.contains(l) && !drop(l)),
    decreases s.len(),
{
    if s.len() > 0 {
        lemma_keep_unless_contains(s.drop_first(), drop, l);
        let rest = keep_unless(s.drop_first(), drop);
        if !drop(s[0]) {
            assert((seq![s[0]] + rest)[0] == s[0]);
            if rest.contains(l) {
                let k = choose|k: int| 0 <= k < rest.len() && rest[k] == l;
                assert((seq![s[0]] + rest)[k + 1] == l);
            }
            if (seq![s[0]] + rest).contains(l) {
                let k = choose|k: int| 0 <= k < (seq![s[0]] + rest).len() && (seq![s[0]]
                    + rest)[k] == l;
                if k > 0 {
                    assert(rest[k - 1] == l);
                }
            }
        }
        if s.contains(l) {
            let k = choose|k: int| 0 <= k < s.len() && s[k] == l;
            if k > 0 {
                assert(s.drop_first()[k - 1] == l);
            }
        }
        if s.drop_first().contains(l) {
            let k = choose|k: int| 0 <= k < s.drop_first().len() && s.drop_first()[k] == l;
            assert(s[k + 1] == l);
        }
    }
}

/// An id is due exactly when some registered entry with that id hears the
/// event.
pub proof fn lemma_due_ids_contains<H>(
    s: Seq<Listener<H>>,
    event: Seq<char>,
    target: EventTarget,
    id: EventId,
)
    ensures
        due_ids(s, event, target).contains(id) <==> exists|k: int|
            0 <= k < s.len() && s[k].id == id && hears(s[k], event, target),
    decreases s.len(),
{
    if s.len() > 0 {
        let init = s.drop_last();
        lemma_due_ids_contains(init, event, target, id);
        let rest = due_ids(init, event, target);
        if hears(s.last(), event, target) {
            assert(rest.push(s.last().id)[rest.len() as int] == s.last().id);
            if rest.contains(id) {
                let j = choose|j: int| 0 <= j < rest.len() && rest[j] == id;
                assert(rest.push(s.last().id)[j] == id);
            }
            if rest.push(s.last().id).contains(id) {
                let j = choose|j: int|
                    0 <= j < rest.push(s.last().id).len() && rest.push(s.last().id)[j] == id;
                if j < rest.len() {
                    assert(rest[j] == id);
                }
            }
        }
        if exists|k: int| 0 <= k < s.len() && s[k].id == id && hears(s[k], event, target) {
            let k = choose|k: int| 0 <= k < s.len() && s[k].id == id && hears(s[k], event, target);
            if k < s.len() - 1 {
                assert(init[k] == s[k]);
            }
        }
        if exists|k: int| 0 <= k < init.len() && init[k].id == id && hears(init[k], event, target) {
            let k = choose|k: int|
                0 <= k < init.len() && init[k].id == id && hears(init[k], event, target);
            assert(s[k] == init[k]);
        }
    }
}

/// The backend listeners, in registration order.
pub struct ListenerRegistry<H> {
    entries: Vec<Listener<H>>,
}

impl<H> View for ListenerRegistry<H> {
    type V = Seq<Listener<H>>;

    closed spec fn view(&self) -> Seq<Listener<H>> {
        self.entries@
    }
}

impl<H> ListenerRegistry<H> {
    pub fn new() -> (r: ListenerRegistry<H>)
        ensures
            r@ == Seq::<Listener<H>>::empty(),
    {
        ListenerRegistry { entries: Vec::new() }
    }

    pub fn len(&self) -> (r: usize)
        ensures
            r == self@.len(),
    {
        self.entries.len()
    }

    /// Registers a listener at the end of the registration order.
    pub fn listen(&mut self, id: EventId, event: String, target: EventTarget, once: bool, handler: H)
        ensures
            final(self)@ == old(self)@.push(Listener { id, event, target, once, handler }),
    {
        self.entries.push(Listener { id, event, target, once, handler });
    }

    /// Removes every listener with this id; says whether there was one.
    pub fn unlisten(&mut self, id: EventId) -> (removed: bool)
        ensures
            final(self)@ == without_spec(old(self)@, id),
            removed == exists|k: int| 0 <= k < old(self)@.len() && old(self)@[k].id == id,
    {
        let ghost orig = self.entries@;
        let mut j: usize = self.entries.len();
        let mut removed = false;
        assert(orig.skip(orig.len() as int) =~= Seq::<Listener<H>>::empty());
        assert(orig.take(orig.len() as int) =~= orig);
        while j > 0
            invariant
                j <= orig.len(),
                self.entries@ == orig.take(j as int) + keep_unless(orig.skip(j as int), with_id(id)),
                removed == exists|k: int| j <= k < orig.len() && orig[k].id == id,
            decreases j,
        {
            j = j - 1;
            let ghost tail = orig.skip(j as int);
            assert(tail.drop_first() =~= orig.skip(j + 1));
            assert(tail[0] == orig[j as int]);
            assert(self.entries@[j as int] == orig[j as int]);
            if self.entries[j].id == id {
                self.entries.remove(j);
                assert(self.entries@ =~= orig.take(j as int) + keep_unless(tail, with_id(id)));
                removed = true;
            } else {
                assert(orig.take(j + 1) =~= orig.take(j as int).push(orig[j as int]));
                assert(self.entries@ =~= orig.take(j as int) + keep_unless(tail, with_id(id)));
            }
        }
        assert(orig.take(0) =~= Seq::<Listener<H>>::empty());
        assert(orig.skip(0) =~= orig);
        assert(self.entries@ =~= without_spec(orig, id));
        removed
    }

    /// The ids of the listeners that an event named `event` addressed to
    /// `target` reaches, in registration order.
    pub fn due(&self, event: &str, target: &EventTarget) -> (r: Vec<EventId>)
        ensures
            r@ == due_ids(self@, event@, *target),
    {
        let mut r: Vec<EventId> = Vec::new();
        let mut i: usize = 0;
        assert(self.entries@.take(0) =~= Seq::<Listener<H>>::empty());
        while i < self.entries.len()
            invariant
                i <= self.entries@.len(),
                r@ == due_ids(self.entries@.take(i as int), event@, *target),
            decreases self.entries@.len() - i,
        {
            let l = &self.entries[i];
            assert(self.entries@.take(i + 1).drop_last() =~= self.entries@.take(i as int));
            assert(self.entries@.take(i + 1).last() == self.entries@[i as int]);
            if str_eq(l.event.as_str(), event) && event_matches_listener(target, &l.target) {
                r.push(l.id);
            }
            i = i + 1;
        }
        assert(self.entries@.take(i as int) =~= self.entries@);
        r
    }

    /// The handler of the first listener registered under `id`.
    pub fn handler(&self, id: EventId) -> (r: Option<&H>)
        ensures
            match r {
                Some(h) => handler_of(self@, id) == Some(*h),
                None => handler_of(self@, id) is None,
            },
    {
        let mut i: usize = 0;
        assert(self.entries@.skip(0) =~= self.entries@);
        while i < self.entries.len()
            invariant
                i <= self.entries@.len(),
                handler_of(self.entries@, id) == handler_of(self.entries@.skip(i as int), id),
            decreases self.entries@.len() - i,
        {
            assert(self.entries@.skip(i as int).drop_first() =~= self.entries@.skip(i + 1));
            assert(self.entries@.skip(i as int)[0] == self.entries@[i as int]);
            if self.entries[i].id == id {
                return Some(&self.entries[i].handler);
            }
            i = i + 1;
        }
        None
    }

    /// Drops the one-shot listeners among those that just fired.
    pub fn retire_once(&mut self, fired: &Vec<EventId>)
        ensures
            final(self)@ == retire_spec(old(self)@, fired@),
    {
        let ghost orig = self.entries@;
        let mut j: usize = self.entries.len();
        assert(orig.skip(orig.len() as int) =~= Seq::<Listener<H>>::empty());
        assert(orig.take(orig.len() as int) =~= orig);
        while j > 0
            invariant
                j <= orig.len(),
                self.entries@ == orig.take(j as int) + keep_unless(orig.skip(j as int), fired_once(fired@)),
            decreases j,
        {
            j = j - 1;
            let ghost tail = orig.skip(j as int);
            assert(tail.drop_first() =~= orig.skip(j + 1));
            assert(tail[0] == orig[j as int]);
            assert(self.entries@[j as int] == orig[j as int]);
            if self.entries[j].once && contains_id(fired, self.entries[j].id) {
                self.entries.remove(j);
                assert(self.entries@ =~= orig.take(j as int) + keep_unless(tail, fired_once(fired@)));
            } else {
                assert(orig.take(j + 1) =~= orig.take(j as int).push(orig[j as int]));
                assert(self.entries@ =~= orig.take(j as int) + keep_unless(tail, fired_once(fired@)));
            }
        }
        assert(orig.take(0) =~= Seq::<Listener<H>>::empty());
        assert(orig.skip(0) =~= orig);
        assert(self.entries@ =~= retire_spec(orig, fired@));
    }
}

/// Whether `id` occurs in `ids`.
pub fn contains_id(ids: &Vec<EventId>, id: EventId) -> (r: bool)
    ensures
        r == ids@.contains(id),
{
    let mut i: usize = 0;
    while i < ids.len()
        invariant
            i <= ids@.len(),
            forall|k: int| 0 <= k < i ==> ids@[k] != id,
        decreases ids@.len() - i,
    {
        if ids[i] == id {
            assert(ids@[i as int] == id);
            return true;
        }
        i = i + 1;
    }
    false
}

/// After an event has been dispatched and the one-shot listeners retired, no
/// one-shot listener that fired is left: a `once` listener fires at most
/// once. Every other listener is still registered.
pub proof fn law_once_listener_is_retired_after_firing<H>(
    s: Seq<Listener<H>>,
    event: Seq<char>,
    target: EventTarget,
    l: Listener<H>,
)
    requires
        s.contains(l),
    ensures
        ({
            let fired = due_ids(s, event, target);
            let after = retire_spec(s, fired);
            &&& (l.once && hears(l, event, target)) ==> !after.contains(l)
            &&& (!l.once || !fired.contains(l.id)) ==> after.contains(l)
        }),
{
    let fired = due_ids(s, event, target);
    lemma_keep_unless_contains(s, fired_once(fired), l);
    lemma_due_ids_contains(s, event, target, l.id);
    if l.once && hears(l, event, target) {
        let k = choose|k: int| 0 <= k < s.len() && s[k] == l;
        assert(s[k].id == l.id && hears(s[k], event, target));
    }
}

/// Once `id` is unlistened, no event reaches a listener with that id.
pub proof fn law_unlistened_id_is_never_due<H>(
    s: Seq<Listener<H>>,
    id: EventId,
    event: Seq<char>,
    target: EventTarget,
)
    ensures
        !due_ids(without_spec(s, id), event, target).contains(id),
{
    let after = without_spec(s, id);
    lemma_due_ids_contains(after, event, target, id);
    if due_ids(after, event, target).contains(id) {
        let k = choose|k: int| 0 <= k < after.len() && after[k].id == id && hears(after[k], event, target);
        assert(after.contains(after[k]));
        lemma_keep_unless_contains(s, with_id(id), after[k]);
    }
}

/// A listener that hears an event and is registered is among those due.
pub proof fn law_registered_listener_hears_matching_event<H>(
    s: Seq<Listener<H>>,
    l: Listener<H>,
    event: Seq<char>,
    target: EventTarget,
)
    requires
        s.contains(l),
        hears(l, event, target),
    ensures
        due_ids(s, event, target).contains(l.id),
{
    lemma_due_ids_contains(s, event, target, l.id);
    let k = choose|k: int| 0 <= k < s.len() && s[k] == l;
    assert(s[k].id == l.id && hears(s[k], event, target));
}

/// `unlisten(id)` drops exactly the listeners registered under `id`: every
/// other listener stays registered, and none with that id is left.
pub proof fn law_unlisten_keeps_every_other_listener<H>(
    s: Seq<Listener<H>>,
    id: EventId,
    l: Listener<H>,
)
    requires
        s.contains(l),
    ensures
        without_spec(s, id).contains(l) <==> l.id != id,
        forall|k: int|
            0 <= k < without_spec(s, id).len() ==> #[trigger] without_spec(s, id)[k].id != id,
{
    lemma_keep_unless_contains(s, with_id(id), l);
    let after = without_spec(s, id);
    assert forall|k: int| 0 <= k < after.len() implies #[trigger] after[k].id != id by {
        assert(after.contains(after[k]));
        lemma_keep_unless_contains(s, with_id(id), after[k]);
    }
}

/// The listeners an event reaches are exactly the registered ones whose
/// event name is the event's name, character for character, and whose
/// target the event is routed to: a listener for `"download"` never runs for
/// `"download-progress"`.
pub proof fn law_due_listeners_have_the_event_name<H>(
    s: Seq<Listener<H>>,
    event: Seq<char>,
    target: EventTarget,
    id: EventId,
)
    ensures
        due_ids(s, event, target).contains(id) <==> exists|k: int|
            0 <= k < s.len() && #[trigger] s[k].id == id && s[k].event@ == event && routes_to(
                target,
                s[k].target,
            ),
{
    lemma_due_ids_contains(s, event, target, id);
}

} // verus!
