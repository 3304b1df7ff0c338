//! Shared application state and the `dsh web` service lifecycle rules.
//!
//! * At most one server lives in [`AppState::server`] at any time.
//! * Every stop goes through [`stop_server`], which hands the stopped
//!   server back so that its process tree can be killed; a new server is
//!   stored by [`install_server`], which hands back any server it replaces.
//!   A restart is exactly stop-then-start, so it cannot leak a process tree.
//! * The title-bar injection loop is stopped through its flag: arming a new
//!   loop hands back the flag of the previous one, to be raised.
//!
//! The state is generic over the server handle `S` and the stop-flag `F`
//! that the caller owns; the caller keeps it behind a lock.

use vstd::prelude::*;

use crate::text::push_str;

verus! {

/// Managed application state.
pub struct AppState<S, F> {
    /// The running `dsh web` server, if any.
    pub server: Option<S>,
    /// Stop-flag of the currently running title-bar injection loop.
    pub inject_flag: Option<F>,
}

impl<S, F> AppState<S, F> {
    /// No server and no injection loop.
    pub fn new() -> (st: Self)
        ensures
            st.server is None,
            st.inject_flag is None,
    {
        AppState { server: None, inject_flag: None }
    }
}

/// The state after the server was stopped.
pub open spec fn after_stop<S, F>(st: AppState<S, F>) -> AppState<S, F> {
    AppState { server: None, inject_flag: st.inject_flag }
}

/// The state after `server` was stored.
pub open spec fn after_install<S, F>(st: AppState<S, F>, server: S) -> AppState<S, F> {
    AppState { server: Some(server), inject_flag: st.inject_flag }
}

/// The state with `flag` as the stop-flag of the injection loop (`None`
/// when no loop runs).
pub open spec fn with_inject_flag<S, F>(st: AppState<S, F>, flag: Option<F>) -> AppState<S, F> {
    AppState { server: st.server, inject_flag: flag }
}

/// Stop the running `dsh web` server (if any): takes it out of the state
/// and returns it, so that the caller kills its process tree. `Some` exactly
/// when a live server was stopped.
pub fn stop_server<S, F>(state: &mut AppState<S, F>) -> (stopped: Option<S>)
    ensures
        stopped == old(state).server,
        *final(state) == after_stop(*old(state)),
{
    state.server.take()
}

/// Store a freshly launched server. Servers never accumulate: any server
/// still stored is returned, to be stopped by the caller.
pub fn install_server<S, F>(state: &mut AppState<S, F>, server: S) -> (retired: Option<S>)
    ensures
        retired == old(state).server,
        *final(state) == after_install(*old(state), server),
{
    let retired: Option<S> = state.server.take();
    state.server = Some(server);
    retired
}

/// (Re)arm the title-bar injection loop with a new stop-flag; returns the
/// flag of the loop that ran before, which the caller raises so that loop
/// exits.
pub fn start_titlebar_injection<S, F>(state: &mut AppState<S, F>, flag: F) -> (previous: Option<F>)
    ensures
        previous == old(state).inject_flag,
        *final(state) == with_inject_flag(*old(state), Some(flag)),
{
    let previous: Option<F> = state.inject_flag.take();
    state.inject_flag = Some(flag);
    previous
}

/// Stop the injection loop (used on app exit): returns its flag, which the
/// caller raises.
pub fn stop_titlebar_injection<S, F>(state: &mut AppState<S, F>) -> (previous: Option<F>)
    ensures
        previous == old(state).inject_flag,
        *final(state) == with_inject_flag(*old(state), None),
{
    state.inject_flag.take()
}

/// Stopping is idempotent: a second stop finds no server.
pub proof fn lemma_stop_idempotent<S, F>(st: AppState<S, F>)
    ensures
        after_stop(after_stop(st)) == after_stop(st),
        after_stop(st).server is None,
{
}

/// A restart (stop, then store the new server) leaves exactly the new
/// server, hands back the old one from the stop, and nothing from the store.
pub proof fn lemma_restart_replaces_server<S, F>(st: AppState<S, F>, fresh: S)
    ensures
        after_stop(st).server is None,
        after_install(after_stop(st), fresh).server == Some(fresh),
        after_install(after_stop(st), fresh).inject_flag == st.inject_flag,
{
}

/// Server lifecycle and injection loop are independent: arming or stopping
/// the loop leaves the server alone, and stopping the server leaves the
/// loop alone.
pub proof fn lemma_lifecycles_independent<S, F>(st: AppState<S, F>, flag: Option<F>)
    ensures
        with_inject_flag(st, flag).server == st.server,
        after_stop(with_inject_flag(st, flag)) == with_inject_flag(after_stop(st), flag),
{
}

// ---------------------------------------------------------------------------
// Navigation
// ---------------------------------------------------------------------------

/// `url::Url`, carried through opaque from `url::Url::parse` to the caller.
#[verifier::external_type_specification]
#[verifier::external_body]
pub struct ExUrl(url::Url);

/// What `url::Url::parse` gives for `input`: the parsed URL, or the
/// `Display` text of its `ParseError`.
pub uninterp spec fn url_parse(input: Seq<char>) -> Result<url::Url, Seq<char>>;

/// `url::Url::parse`.
///
/// Claimed of it: its outcome, the parsed URL or the error's message,
/// depends on `input` alone (named `url_parse`); what URLs it accepts and
/// how it normalises them is not restated.
#[verifier::external_body]
fn parse_url(input: &str) -> (r: Result<url::Url, String>)
    ensures
        r is Ok <==> url_parse(input@) is Ok,
        r is Ok ==> r->Ok_0 == url_parse(input@)->Ok_0,
        r is Err ==> r->Err_0@ == url_parse(input@)->Err_0,
{
    url::Url::parse(input).map_err(|e| e.to_string())
}

/// "Invalid address `url`: `error`".
pub open spec fn invalid_url_text(url: Seq<char>, error: Seq<char>) -> Seq<char> {
    "无效地址 "@ + url + ": "@ + error
}

/// The message for a server address that does not parse as a URL.
pub fn invalid_url(url: &str, error: &str) -> (r: String)
    ensures
        r@ == invalid_url_text(url@, error@),
{
    let mut r: String = String::from_str("无效地址 ");
    push_str(&mut r, url);
    push_str(&mut r, ": ");
    push_str(&mut r, error);
    r
}

/// The URL the main window navigates to for a server address, or the
/// user-displayable reason it is not one.
pub fn navigation_target(url: &str) -> (r: Result<url::Url, String>)
    ensures
        r is Ok <==> url_parse(url@) is Ok,
        r is Ok ==> r->Ok_0 == url_parse(url@)->Ok_0,
        r matches Err(m) ==> m@ == invalid_url_text(url@, url_parse(url@)->Err_0),
{
    match parse_url(url) {
        Ok(u) => Ok(u),
        Err(e) => Err(invalid_url(url, e.as_str())),
    }
}

} // verus!
