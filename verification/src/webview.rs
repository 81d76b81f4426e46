//! Bookkeeping of embedded web views: a handle that owns one web view until
//! it is closed, and a manager that holds the active handle and hands out
//! identifiers.
//!
//! The web view object itself belongs to the windowing toolkit of the
//! application; the library holds it as an opaque value of type `V` and
//! decides whether an operation on it may go ahead.
use vstd::prelude::*;

verus! {

/// Identifier given to the off-screen web view created for warming up; the
/// manager never hands it out.
pub const PREWARM_WEBVIEW_ID: usize = 0;

/// Why an operation on a web view cannot go ahead.
#[derive(Clone, Copy, PartialEq, Eq, Structural, Debug)]
pub enum WebViewError {
    /// The handle's web view has been closed.
    Closed,
    /// The manager holds no handle.
    NoActive,
}

pub open spec fn spec_error_message(e: WebViewError) -> Seq<char> {
    match e {
        WebViewError::Closed => "WebView is closed"@,
        WebViewError::NoActive => "No active WebView"@,
    }
}

impl WebViewError {
    /// The message that reports the error.
    pub fn message(&self) -> (m: &'static str)
        ensures
            m@ == spec_error_message(*self),
    {
        match self {
            WebViewError::Closed => "WebView is closed",
            WebViewError::NoActive => "No active WebView",
        }
    }
}

/// A web view with its identifier; the web view lives until [`close`] is
/// called.
///
/// [`close`]: WebViewHandle::close
pub struct WebViewHandle<V> {
    pub id: usize,
    webview: Option<V>,
}

impl<V> WebViewHandle<V> {
    /// The web view that the handle still holds, if it is not closed.
    pub closed spec fn content(self) -> Option<V> {
        self.webview
    }

    /// The handle's identifier.
    pub closed spec fn handle_id(self) -> usize {
        self.id
    }

    /// A handle that holds `webview` under the identifier `id`.
    pub fn new(id: usize, webview: V) -> (h: Self)
        ensures
            h.handle_id() == id,
            h.content() == Some(webview),
    {
        WebViewHandle { id, webview: Some(webview) }
    }

    /// Destroys the web view; the handle keeps its identifier.
    pub fn close(&mut self)
        ensures
            final(self).handle_id() == old(self).handle_id(),
            final(self).content() is None,
    {
        self.webview = None;
    }

    /// Whether the web view has not been closed.
    pub fn is_available(&self) -> (b: bool)
        ensures
            b == self.content() is Some,
    {
        self.webview.is_some()
    }

    /// The web view, for an operation such as loading a page or moving it;
    /// fails with [`WebViewError::Closed`] once the handle is closed.
    pub fn webview(&self) -> (r: Result<&V, WebViewError>)
        ensures
            r is Ok <==> self.content() is Some,
            r matches Ok(v) ==> self.content() == Some(*v),
            r matches Err(e) ==> e == WebViewError::Closed,
    {
        match &self.webview {
            Some(v) => Ok(v),
            None => Err(WebViewError::Closed),
        }
    }
}

/// Holds at most one active web view handle, and a counter of identifiers.
pub struct WebViewManager<V> {
    active: Option<WebViewHandle<V>>,
    next_id: usize,
}

/// One call of [`WebViewManager::next_id`]: `id` is handed out, the counter
/// moves on by one and the active handle stays.
pub open spec fn spec_next_id_step<V>(
    before: WebViewManager<V>,
    id: usize,
    after: WebViewManager<V>,
) -> bool {
    &&& id == before.next_id_value()
    &&& after.next_id_value() == before.next_id_value() + 1
    &&& after.active() == before.active()
}

impl<V> WebViewManager<V> {
    /// The identifier counter never falls to the prewarming identifier.
    #[verifier::type_invariant]
    closed spec fn counter_positive(self) -> bool {
        self.next_id >= 1
    }

    /// The active handle, if any.
    pub closed spec fn active(self) -> Option<WebViewHandle<V>> {
        self.active
    }

    /// The identifier that the next call of `next_id` hands out.
    pub closed spec fn next_id_value(self) -> int {
        self.next_id as int
    }

    /// A manager without an active handle, whose first identifier is 1.
    pub fn new() -> (m: Self)
        ensures
            m.active() is None,
            m.next_id_value() == 1,
    {
        WebViewManager { active: None, next_id: 1 }
    }

    /// Hands out a fresh identifier.
    pub fn next_id(&mut self) -> (id: usize)
        requires
            old(self).next_id_value() < usize::MAX,
        ensures
            spec_next_id_step(*old(self), id, *final(self)),
            id != PREWARM_WEBVIEW_ID,
    {
        proof {
            use_type_invariant(&*self);
        }
        let id = self.next_id;
        self.next_id = self.next_id + 1;
        id
    }

    /// Makes `handle` the active handle, replacing (and dropping) the
    /// previous one.
    pub fn set(&mut self, handle: WebViewHandle<V>)
        ensures
            final(self).active() == Some(handle),
            final(self).next_id_value() == old(self).next_id_value(),
    {
        proof {
            use_type_invariant(&*self);
        }
        self.active = Some(handle);
    }

    /// The active handle, if any.
    pub fn get(&self) -> (r: Option<&WebViewHandle<V>>)
        ensures
            r is Some <==> self.active() is Some,
            r matches Some(h) ==> self.active() == Some(*h),
    {
        self.active.as_ref()
    }

    /// Whether a handle is active.
    pub fn is_active(&self) -> (b: bool)
        ensures
            b == self.active() is Some,
    {
        self.active.is_some()
    }

    /// The web view of the active handle, to load a page in: fails with
    /// [`WebViewError::NoActive`] when there is no active handle, and with
    /// [`WebViewError::Closed`] when its web view has been closed.
    pub fn active_webview(&self) -> (r: Result<&V, WebViewError>)
        ensures
            r is Ok <==> (self.active() matches Some(h) && h.content() is Some),
            r matches Ok(v) ==> self.active()->Some_0.content() == Some(*v),
            r matches Err(e) ==> e == (if self.active() is None {
                WebViewError::NoActive
            } else {
                WebViewError::Closed
            }),
    {
        match &self.active {
            None => Err(WebViewError::NoActive),
            Some(h) => h.webview(),
        }
    }
}

/// Identifiers handed out one after the other strictly increase, so the
/// manager never hands out the same identifier twice in a row of calls.
pub proof fn lemma_ids_increase<V>(
    m0: WebViewManager<V>,
    a: usize,
    m1: WebViewManager<V>,
    b: usize,
    m2: WebViewManager<V>,
)
    requires
        spec_next_id_step(m0, a, m1),
        spec_next_id_step(m1, b, m2),
    ensures
        a < b,
        m2.next_id_value() == a + 2,
{
}

} // verus!
