//! The four window commands: minimize, maximize (a toggle), close, and the
//! maximized-state query. Each command decides a single request from the
//! outcome of at most one host query; carrying the request out, and the
//! window itself, belong to the host runtime.

use vstd::prelude::*;

verus! {

/// A request that a window command asks the host runtime to carry out.
/// The commands are best-effort: whether the host honours a request is
/// never reported back to the caller.
#[derive(Clone, Copy, Debug, PartialEq, Eq, Structural)]
pub enum WindowRequest {
    Minimize,
    Maximize,
    Unmaximize,
    Close,
}

/// How a maximized-state query is read: only a successful `Ok(true)` counts
/// as maximized; a failed query defaults to "not maximized".
pub open spec fn maximized_of(query: Result<bool, String>) -> bool {
    query matches Ok(b) && b
}

/// `is_maximized` command: report the window's maximized state as a plain
/// boolean. A failed query is mapped to `false`; no error ever reaches the
/// caller.
pub fn is_maximized(query: Result<bool, String>) -> (r: bool)
    ensures
        r == maximized_of(query),
{
    match query {
        Ok(b) => b,
        Err(_) => false,
    }
}

/// The request the maximize toggle issues for a given query outcome: a
/// window read as maximized is asked to unmaximize, any other window (a
/// failed query included) is asked to maximize.
pub open spec fn toggle_request(query: Result<bool, String>) -> WindowRequest {
    if maximized_of(query) {
        WindowRequest::Unmaximize
    } else {
        WindowRequest::Maximize
    }
}

/// `maximize_window` command: a read-then-act toggle. The decision rests on
/// the state the host reported a moment earlier; nothing guards against the
/// window changing in between, by design.
pub fn maximize_window(query: Result<bool, String>) -> (r: WindowRequest)
    ensures
        r == toggle_request(query),
{
    if is_maximized(query) {
        WindowRequest::Unmaximize
    } else {
        WindowRequest::Maximize
    }
}

/// `minimize_window` command: one minimize request, whatever the window's
/// prior state.
pub fn minimize_window() -> (r: WindowRequest)
    ensures
        r == WindowRequest::Minimize,
{
    WindowRequest::Minimize
}

/// `close_window` command: one close request, whatever the window's prior
/// state.
pub fn close_window() -> (r: WindowRequest)
    ensures
        r == WindowRequest::Close,
{
    WindowRequest::Close
}

/// The observable state of a window as the host runtime owns it. The
/// commands never store one; it exists so the laws below can state what a
/// request does to the window.
pub struct WindowState {
    pub minimized: bool,
    pub maximized: bool,
    pub open: bool,
}

/// What the host's documented handling of each request does to a window:
/// every field not named by the request is left as it was.
pub open spec fn apply_request(s: WindowState, r: WindowRequest) -> WindowState {
    match r {
        WindowRequest::Minimize => WindowState { minimized: true, ..s },
        WindowRequest::Maximize => WindowState { maximized: true, ..s },
        WindowRequest::Unmaximize => WindowState { maximized: false, ..s },
        WindowRequest::Close => WindowState { open: false, ..s },
    }
}

/// Minimizing is idempotent: a second minimize request leaves the window
/// exactly where the first did, minimized, and the second call is as valid
/// as the first.
pub proof fn lemma_minimize_idempotent(s: WindowState)
    ensures
        apply_request(apply_request(s, WindowRequest::Minimize), WindowRequest::Minimize)
            == apply_request(s, WindowRequest::Minimize),
        apply_request(s, WindowRequest::Minimize).minimized,
{
}

/// Toggle correctness: a window that reports maximized gets exactly an
/// unmaximize request, and carrying it out leaves the window unmaximized.
pub proof fn lemma_toggle_unmaximizes(query: Result<bool, String>, s: WindowState)
    requires
        maximized_of(query),
    ensures
        toggle_request(query) == WindowRequest::Unmaximize,
        !apply_request(s, toggle_request(query)).maximized,
{
}

/// A failed state query never aborts the toggle: it is read as "not
/// maximized", so the toggle still issues a maximize request, and carrying
/// it out leaves the window maximized.
pub proof fn lemma_toggle_survives_failed_query(query: Result<bool, String>, s: WindowState)
    requires
        query is Err,
    ensures
        toggle_request(query) == WindowRequest::Maximize,
        apply_request(s, toggle_request(query)).maximized,
{
}

} // verus!
