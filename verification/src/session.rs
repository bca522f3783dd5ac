//! The bound on concurrent recognition sessions, and the admission of
//! WebSocket upgrade requests.
use vstd::prelude::*;

use std::sync::Arc;

use axum::http::HeaderMap;
use tokio::sync::{OwnedSemaphorePermit, Semaphore, TryAcquireError};

use crate::auth::{first_header_values, token_accepted, verify_token};
use crate::protocol::{http_error_body, HttpError};

verus! {

#[verifier::external_type_specification]
#[verifier::external_body]
pub struct ExSemaphore(Semaphore);

#[verifier::external_type_specification]
#[verifier::external_body]
pub struct ExOwnedSemaphorePermit(OwnedSemaphorePermit);

#[verifier::external_type_specification]
#[verifier::external_body]
pub struct ExTryAcquireError(TryAcquireError);

/// The most permits a `tokio` semaphore can hold (`Semaphore::MAX_PERMITS`).
pub open spec fn max_permits() -> int {
    (usize::MAX as int) / 8
}

/// The number of permits a semaphore was made with. How many of them are
/// free at a given moment is not named: sessions take and return them
/// concurrently.
pub uninterp spec fn permits_made_with(semaphore: Semaphore) -> nat;

/// Calls `Semaphore::new`, which makes a semaphore with `permits` permits
/// and panics above `Semaphore::MAX_PERMITS`.
#[verifier::external_body]
fn new_semaphore(permits: usize) -> (r: Semaphore)
    requires
        permits <= max_permits(),
    ensures
        permits_made_with(r) == permits,
{
    Semaphore::new(permits)
}

/// Calls `Semaphore::try_acquire_owned` on a new handle to the semaphore.
/// Whether a permit is free depends on the other sessions, so nothing is
/// stated of the result.
#[verifier::external_body]
fn try_acquire_permit(semaphore: &Arc<Semaphore>) -> (r: Result<OwnedSemaphorePermit, TryAcquireError>) {
    semaphore.clone().try_acquire_owned()
}

/// Hands out at most `max_sessions` session slots at a time.
pub struct SessionManager {
    semaphore: Arc<Semaphore>,
}

/// A taken session slot; dropping it frees the slot.
pub struct SessionGuard {
    _permit: OwnedSemaphorePermit,
}

impl SessionManager {
    /// The number of slots the manager hands out at most at a time.
    pub closed spec fn max_sessions(&self) -> nat {
        permits_made_with(*self.semaphore)
    }

    /// A manager of `max_sessions` slots.
    pub fn new(max_sessions: usize) -> (r: SessionManager)
        requires
            max_sessions <= max_permits(),
        ensures
            r.max_sessions() == max_sessions,
    {
        SessionManager { semaphore: Arc::new(new_semaphore(max_sessions)) }
    }

    /// Takes a free slot, or returns `None` when every slot is taken. Whether
    /// a slot is free depends on the sessions running concurrently, so the
    /// outcome is not stated.
    pub fn try_acquire(&self) -> (r: Option<SessionGuard>) {
        guard_of(try_acquire_permit(&self.semaphore))
    }
}

/// The session slot for the outcome of an attempt to take a permit.
pub fn guard_of(outcome: Result<OwnedSemaphorePermit, TryAcquireError>) -> (r: Option<SessionGuard>)
    ensures
        r is Some == outcome is Ok,
{
    match outcome {
        Ok(permit) => Some(SessionGuard { _permit: permit }),
        Err(_) => None,
    }
}

/// The answer to a WebSocket upgrade request.
pub enum Admission {
    /// Refused with this HTTP status and error body.
    Rejected { status: u16, body: HttpError },
    /// Accepted; the guard holds the session's slot for as long as it lives.
    Accepted(SessionGuard),
}

/// Whether a request passes the access check: always when no token is
/// configured, else when its headers carry the token.
pub open spec fn authorized(auth_token: Option<Seq<char>>, headers: Map<Seq<char>, Seq<u8>>) -> bool {
    match auth_token {
        Some(t) => token_accepted(headers, t),
        None => true,
    }
}

pub open spec fn token_view(t: Option<String>) -> Option<Seq<char>> {
    match t {
        Some(s) => Some(s@),
        None => None,
    }
}

/// The answer to an upgrade request, given whether it passed the token check
/// and, when it did, the slot that could be taken for it: 401 with the `auth`
/// body when the check failed; else the slot, or 503 with the `overload`
/// body when there was none.
pub fn decide_admission(authorized: bool, slot: Option<SessionGuard>) -> (r: Admission)
    ensures
        !authorized ==> (r matches Admission::Rejected { status, body } && status == 401 && body@
            == http_error_body("auth"@, "Unauthorized"@, true, false)),
        authorized ==> (r is Accepted <==> slot is Some),
        (authorized && slot is None) ==> (r matches Admission::Rejected { status, body } && status
            == 503 && body@ == http_error_body("overload"@, "All ASR slots occupied"@, false, true)),
{
    if !authorized {
        return Admission::Rejected { status: 401, body: HttpError::auth() };
    }
    match slot {
        Some(guard) => Admission::Accepted(guard),
        None => Admission::Rejected { status: 503, body: HttpError::busy() },
    }
}

/// Decides an upgrade request: 401 with the `auth` body when the token check
/// fails (no slot is taken then), else a slot, or 503 with the `overload`
/// body when every slot is taken.
pub fn admission(auth_token: &Option<String>, headers: &HeaderMap, sessions: &SessionManager) -> (r: Admission)
    ensures
        !authorized(token_view(*auth_token), first_header_values(*headers)) <==> (r matches Admission::Rejected { status, body } && status == 401),
        r matches Admission::Rejected { status, body } ==> (
            (status == 401 && body@ == http_error_body("auth"@, "Unauthorized"@, true, false))
            || (status == 503 && body@ == http_error_body("overload"@, "All ASR slots occupied"@, false, true))),
{
    let passed = match auth_token {
        Some(expected) => verify_token(headers, expected.as_str()),
        None => true,
    };
    if !passed {
        return decide_admission(false, None);
    }
    decide_admission(true, sessions.try_acquire())
}

} // verus!
