//! Managed state: a bag of values keyed by their type, and the `State`
//! handle commands receive.

use std::collections::HashMap;
use std::marker::PhantomData;
use std::sync::Arc;

use vstd::prelude::*;

verus! {

broadcast use vstd::std_specs::hash::group_hash_axioms;

/// The key under which a type's value is managed. Two values share a key
/// exactly when they have the same type; the caller derives it from the
/// type's identity.
pub type TypeKey = u64;

/// Type-keyed bag of managed values, owned by `AppInner`. At most one value
/// is managed per type.
pub struct StateManager<V> {
    inner: HashMap<TypeKey, V>,
}

impl<V> View for StateManager<V> {
    type V = Map<TypeKey, V>;

    closed spec fn view(&self) -> Map<TypeKey, V> {
        self.inner@
    }
}

impl<V> StateManager<V> {
    pub fn new() -> (r: StateManager<V>)
        ensures
            r@ == Map::<TypeKey, V>::empty(),
    {
        StateManager { inner: HashMap::new() }
    }

    /// Insert a state value. Returns `false`, and changes nothing, if a value
    /// of the same type was already managed (parity with upstream
    /// behaviour).
    pub fn manage(&mut self, key: TypeKey, state: V) -> (inserted: bool)
        ensures
            inserted == !old(self)@.contains_key(key),
            final(self)@ == (if inserted {
                old(self)@.insert(key, state)
            } else {
                old(self)@
            }),
    {
        if self.inner.contains_key(&key) {
            return false;
        }
        self.inner.insert(key, state);
        true
    }

    /// The value managed for this type, if any.
    pub fn try_get(&self, key: TypeKey) -> (r: Option<&V>)
        ensures
            match r {
                Some(v) => self@.contains_key(key) && self@[key] == *v,
                None => !self@.contains_key(key),
            },
    {
        self.inner.get(&key)
    }

    /// Stops managing this type, handing back its value if there was one.
    pub fn unmanage(&mut self, key: TypeKey) -> (r: Option<V>)
        ensures
            final(self)@ == old(self)@.remove(key),
            match r {
                Some(v) => old(self)@.contains_key(key) && old(self)@[key] == v,
                None => !old(self)@.contains_key(key),
            },
    {
        self.inner.remove(&key)
    }
}

/// Managing a value for a type that has none makes it the value read back
/// for that type, and leaves every other type's value as it was.
pub proof fn law_manage_then_read<V>(m: Map<TypeKey, V>, key: TypeKey, v: V, other: TypeKey)
    requires
        !m.contains_key(key),
        other != key,
    ensures
        m.insert(key, v).contains_key(key),
        m.insert(key, v)[key] == v,
        m.insert(key, v).contains_key(other) == m.contains_key(other),
        m.contains_key(other) ==> m.insert(key, v)[other] == m[other],
{
}

/// After a type is unmanaged, nothing is read back for it, and it can be
/// managed afresh.
pub proof fn law_unmanage_then_read<V>(m: Map<TypeKey, V>, key: TypeKey, v: V)
    ensures
        !m.remove(key).contains_key(key),
        m.remove(key).insert(key, v)[key] == v,
{
}

/// Borrowed reference to a managed state value.
///
/// Internally holds an `Arc<T>`, so the lifetime parameter is API-shape-only;
/// `State<'r, T>` is observationally `'static` as long as the value remains
/// managed.
pub struct State<'r, T: 'static> {
    inner: Arc<T>,
    _lt: PhantomData<&'r T>,
}

impl<'r, T: 'static> State<'r, T> {
    /// The value this handle reads.
    pub closed spec fn value(&self) -> T {
        *self.inner
    }

    /// A handle onto a shared managed value.
    pub fn new(inner: Arc<T>) -> (r: State<'r, T>)
        ensures
            r.value() == *inner,
    {
        State { inner, _lt: PhantomData }
    }

    pub fn inner(&self) -> (r: &T)
        ensures
            *r == self.value(),
    {
        &self.inner
    }
}

impl<'r, T: 'static> Clone for State<'r, T> {
    fn clone(&self) -> (r: Self)
        ensures
            r.value() == self.value(),
    {
        State { inner: Arc::clone(&self.inner), _lt: PhantomData }
    }
}

impl<'r, T: 'static> std::ops::Deref for State<'r, T> {
    type Target = T;

    fn deref(&self) -> (r: &T)
        ensures
            *r == self.value(),
    {
        &self.inner
    }
}

} // verus!
