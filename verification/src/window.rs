//! Logical windows. Each connected client identifies its window by a label
//! (default `"main"`); the registry remembers every label seen so far.

use vstd::prelude::*;

use crate::Error;
use crate::json::str_eq;

verus! {

/// The label a client gets when it does not name its window.
pub const DEFAULT_WINDOW: &'static str = "main";

/// The view of `DEFAULT_WINDOW`.
pub open spec fn default_label() -> Seq<char> {
    seq!['m', 'a', 'i', 'n']
}

/// A `String` holding `DEFAULT_WINDOW`.
pub fn default_window_label() -> (r: String)
    ensures
        r@ == default_label(),
{
    proof {
        reveal_strlit("main");
    }
    DEFAULT_WINDOW.to_owned()
}

/// The label named by an `X-Tauri-Window` header value.
pub open spec fn header_label(header: Option<&str>) -> Seq<char> {
    match header {
        Some(h) => if h@.len() > 0 {
            h@
        } else {
            default_label()
        },
        None => default_label(),
    }
}

/// The label named by a `window` query parameter.
pub open spec fn query_label(window: Option<String>) -> Seq<char> {
    match window {
        Some(w) => w@,
        None => default_label(),
    }
}

/// The window label of a request: the `X-Tauri-Window` header when present
/// and non-empty, `"main"` otherwise.
pub fn window_from_header(header: Option<&str>) -> (r: String)
    ensures
        r@ == header_label(header),
{
    match header {
        Some(h) => {
            if !h.is_empty() {
                h.to_owned()
            } else {
                default_window_label()
            }
        },
        None => default_window_label(),
    }
}

/// The window label of an event stream: the `window` query parameter when
/// given (even if empty), `"main"` otherwise.
pub fn window_from_query(window: Option<String>) -> (r: String)
    ensures
        r@ == query_label(window),
{
    match window {
        Some(w) => w,
        None => default_window_label(),
    }
}

/// Every window label the shim has seen, each once, `"main"` among them from
/// the start.
pub struct WindowRegistry {
    labels: Vec<String>,
}

/// No label occurs twice.
pub open spec fn distinct_labels(s: Seq<String>) -> bool {
    forall|i: int, j: int| 0 <= i < j < s.len() ==> s[i]@ != s[j]@
}

/// The labels of `s`, as a set of views.
pub open spec fn label_set(s: Seq<String>) -> Set<Seq<char>> {
    Set::new(|l: Seq<char>| exists|i: int| 0 <= i < s.len() && s[i]@ == l)
}

impl View for WindowRegistry {
    type V = Set<Seq<char>>;

    closed spec fn view(&self) -> Set<Seq<char>> {
        label_set(self.labels@)
    }
}

impl WindowRegistry {
    /// Each label is stored once.
    #[verifier::type_invariant]
    spec fn labels_distinct(&self) -> bool {
        distinct_labels(self.labels@)
    }

    /// The registry of a fresh app: just `"main"`.
    pub fn new() -> (r: WindowRegistry)
        ensures
            r@ == Set::<Seq<char>>::empty().insert(default_label()),
    {
        let mut labels: Vec<String> = Vec::new();
        labels.push(default_window_label());
        let r = WindowRegistry { labels };
        assert(r@ =~= Set::<Seq<char>>::empty().insert(default_label())) by {
            assert(r.labels@[0]@ == default_label());
        }
        r
    }

    /// Whether a client has identified itself with this label.
    pub fn contains(&self, label: &str) -> (r: bool)
        ensures
            r == self@.contains(label@),
    {
        let mut i: usize = 0;
        while i < self.labels.len()
            invariant
                i <= self.labels@.len(),
                forall|k: int| 0 <= k < i ==> self.labels@[k]@ != label@,
            decreases self.labels@.len() - i,
        {
            if str_eq(self.labels[i].as_str(), label) {
                assert(label_set(self.labels@).contains(label@));
                return true;
            }
            i = i + 1;
        }
        false
    }

    /// Remembers `label`; says whether it was new. Remembering a known label
    /// changes nothing.
    pub fn register(&mut self, label: &str) -> (added: bool)
        ensures
            added == !old(self)@.contains(label@),
            final(self)@ == old(self)@.insert(label@),
    {
        proof {
            use_type_invariant(&*self);
        }
        if self.contains(label) {
            assert(self@ =~= self@.insert(label@));
            return false;
        }
        let ghost before = self.labels@;
        assert(!label_set(before).contains(label@));
        let mut labels: Vec<String> = Vec::new();
        std::mem::swap(&mut labels, &mut self.labels);
        labels.push(label.to_owned());
        assert(labels@[before.len() as int]@ == label@);
        assert(distinct_labels(labels@)) by {
            assert forall|i: int, j: int| 0 <= i < j < labels@.len() implies labels@[i]@
                != labels@[j]@ by {
                if j == before.len() {
                    assert(label_set(before).contains(labels@[i]@));
                }
            }
        }
        self.labels = labels;
        assert(self@ =~= label_set(before).insert(label@)) by {
            assert forall|l: Seq<char>| #[trigger] label_set(self.labels@).contains(l) implies
                label_set(before).insert(l).contains(l) || l == label@ by {
            }
            assert forall|l: Seq<char>| #[trigger] label_set(before).contains(l) implies
                label_set(self.labels@).contains(l) by {
                let i = choose|i: int| 0 <= i < before.len() && before[i]@ == l;
                assert(self.labels@[i] == before[i]);
            }
        }
        true
    }

    /// The stored label equal to `label`, if a client has used it.
    pub fn get(&self, label: &str) -> (r: Option<String>)
        ensures
            match r {
                Some(l) => self@.contains(label@) && l@ == label@,
                None => !self@.contains(label@),
            },
    {
        if self.contains(label) {
            Some(label.to_owned())
        } else {
            None
        }
    }

    /// Every known label, each once.
    pub fn labels(&self) -> (r: Vec<String>)
        ensures
            distinct_labels(r@),
            label_set(r@) == self@,
            r@.len() == self@.len(),
    {
        proof {
            use_type_invariant(self);
        }
        let mut r: Vec<String> = Vec::new();
        let mut i: usize = 0;
        while i < self.labels.len()
            invariant
                i <= self.labels@.len(),
                r@.len() == i,
                forall|k: int| 0 <= k < i ==> r@[k]@ == self.labels@[k]@,
            decreases self.labels@.len() - i,
        {
            r.push(self.labels[i].clone());
            i = i + 1;
        }
        assert(label_set(r@) =~= label_set(self.labels@)) by {
            assert forall|l: Seq<char>| #[trigger] label_set(r@).contains(l) implies label_set(
                self.labels@,
            ).contains(l) by {
                let k = choose|k: int| 0 <= k < r@.len() && r@[k]@ == l;
                assert(self.labels@[k]@ == l);
            }
            assert forall|l: Seq<char>| #[trigger] label_set(self.labels@).contains(l) implies label_set(
                r@,
            ).contains(l) by {
                let k = choose|k: int| 0 <= k < self.labels@.len() && self.labels@[k]@ == l;
                assert(r@[k]@ == l);
            }
        }
        proof {
            lemma_distinct_label_set_len(r@);
        }
        r
    }
}

/// A list of distinct labels has as many labels as its label set.
pub proof fn lemma_distinct_label_set_len(s: Seq<String>)
    requires
        distinct_labels(s),
    ensures
        label_set(s).finite(),
        label_set(s).len() == s.len(),
    decreases s.len(),
{
    if s.len() == 0 {
        assert(label_set(s) =~= Set::<Seq<char>>::empty());
    } else {
        let init = s.drop_last();
        lemma_distinct_label_set_len(init);
        assert(label_set(s) =~= label_set(init).insert(s.last()@)) by {
            assert forall|l: Seq<char>| #[trigger] label_set(s).contains(l) implies label_set(
                init,
            ).insert(s.last()@).contains(l) by {
                let k = choose|k: int| 0 <= k < s.len() && s[k]@ == l;
                if k < s.len() - 1 {
                    assert(init[k]@ == l);
                }
            }
            assert forall|l: Seq<char>| #[trigger] label_set(init).contains(l) implies label_set(
                s,
            ).contains(l) by {
                let k = choose|k: int| 0 <= k < init.len() && init[k]@ == l;
                assert(s[k]@ == l);
            }
        }
        assert(!label_set(init).contains(s.last()@)) by {
            if label_set(init).contains(s.last()@) {
                let k = choose|k: int| 0 <= k < init.len() && init[k]@ == s.last()@;
                assert(s[k]@ == s[s.len() - 1]@);
            }
        }
    }
}

/// Registering a label is idempotent, and a registered label is found.
pub proof fn law_register_is_idempotent(labels: Set<Seq<char>>, label: Seq<char>)
    ensures
        labels.insert(label).insert(label) == labels.insert(label),
        labels.insert(label).contains(label),
{
    assert(labels.insert(label).insert(label) =~= labels.insert(label));
}

/// Logical window in the shim. Window-side methods like `set_title` are
/// no-ops; the shim never owned a real window to begin with. `H` is the app
/// handle the window belongs to.
pub struct Window<H> {
    handle: H,
    label: String,
}

impl<H> Window<H> {
    /// The window's label.
    pub closed spec fn label_view(&self) -> Seq<char> {
        self.label@
    }

    /// The app handle the window belongs to.
    pub closed spec fn handle_view(&self) -> H {
        self.handle
    }

    pub fn new(handle: H, label: String) -> (r: Window<H>)
        ensures
            r.label_view() == label@,
            r.handle_view() == handle,
    {
        Window { handle, label }
    }

    pub fn label(&self) -> (r: &str)
        ensures
            r@ == self.label_view(),
    {
        self.label.as_str()
    }

    pub fn handle(&self) -> (r: &H)
        ensures
            *r == self.handle_view(),
    {
        &self.handle
    }

    /// No-op stub.
    pub fn set_title(&self, title: &str) -> (r: Result<(), Error>)
        ensures
            r is Ok,
    {
        Ok(())
    }

    /// No-op stub.
    pub fn show(&self) -> (r: Result<(), Error>)
        ensures
            r is Ok,
    {
        Ok(())
    }

    /// No-op stub (upstream's `hide`).
    pub fn hide_window(&self) -> (r: Result<(), Error>)
        ensures
            r is Ok,
    {
        Ok(())
    }

    /// No-op stub.
    pub fn close(&self) -> (r: Result<(), Error>)
        ensures
            r is Ok,
    {
        Ok(())
    }

    /// A shim window is always focused.
    pub fn is_focused(&self) -> (r: Result<bool, Error>)
        ensures
            r == Ok::<bool, Error>(true),
    {
        Ok(true)
    }

    /// A shim window is always visible.
    pub fn is_visible(&self) -> (r: Result<bool, Error>)
        ensures
            r == Ok::<bool, Error>(true),
    {
        Ok(true)
    }

    /// A shim window is never minimized.
    pub fn is_minimized(&self) -> (r: Result<bool, Error>)
        ensures
            r == Ok::<bool, Error>(false),
    {
        Ok(false)
    }

    /// A shim window is never maximized.
    pub fn is_maximized(&self) -> (r: Result<bool, Error>)
        ensures
            r == Ok::<bool, Error>(false),
    {
        Ok(false)
    }
}

} // verus!
