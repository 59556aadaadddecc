//! The rule of every authenticated request: try with the session's token; on
//! a 401 renew the token once and try again with the renewed one; if the
//! renewal fails, or the second try also gets a 401, the session has
//! expired. The one exception is a rate-limited renewal, which is no reason
//! to close the session: the request ends with the unexpected status 429 and
//! the caller may try again later. Every other failure ends the request as
//! it is, without a renewal.
//!
//! The steps are separate values (`FirstAttempt`, `PendingRefresh`, `Retry`)
//! so that the caller, which performs the exchanges, can only move forward:
//! a `Retry` ends the request, whatever its outcome.
use vstd::prelude::*;

use crate::api::errors::RefreshError;
use crate::models::AuthToken;

verus! {

/// What one try of an authenticated request came to.
#[derive(Debug, Clone, PartialEq)]
pub enum AttemptOutcome<T, E> {
    Success(T),
    /// The backend answered 401: the token was refused.
    Unauthorized,
    Failed(E),
}

/// The result of an authenticated request that may have renewed its token on
/// the way.
#[derive(Debug, Clone, PartialEq)]
pub struct AuthenticatedFetch<T> {
    pub data: T,
    /// `Some` only when the first try got a 401 and the token was renewed
    /// before the second: the caller keeps it (`SessionState::update_token`).
    pub refreshed_token: Option<AuthToken>,
}

/// The error types of the requests that renew their token: each has the
/// error of an expired session and that of an unexpected status.
pub trait ExpiringSession: Sized {
    /// The error of an expired session: the session must be closed.
    spec fn expired() -> Self;

    /// The error of an unexpected status.
    spec fn unexpected(status: u16) -> Self;

    fn session_expired() -> (r: Self)
        ensures
            r == Self::expired(),
    ;

    fn unexpected_status(status: u16) -> (r: Self)
        ensures
            r == Self::unexpected(status),
    ;
}

/// The first try, made with the session's token.
#[derive(Debug, Clone, PartialEq)]
pub struct FirstAttempt {
    pub token: AuthToken,
}

/// After a 401: the token to renew.
#[derive(Debug, Clone, PartialEq)]
pub struct PendingRefresh {
    pub token: AuthToken,
}

/// The second and last try, made with the renewed token.
#[derive(Debug, Clone, PartialEq)]
pub struct Retry {
    pub renewed: AuthToken,
}

/// Where a request stands after its first try.
#[derive(Debug, PartialEq)]
pub enum AfterFirstAttempt<T, E> {
    Done(Result<AuthenticatedFetch<T>, E>),
    Refresh(PendingRefresh),
}

/// The step after the first try: a success or a failure other than a 401
/// ends the request; a 401 asks for the token to be renewed.
pub open spec fn first_attempt_step<T, E>(token: AuthToken, outcome: AttemptOutcome<T, E>) -> AfterFirstAttempt<T, E> {
    match outcome {
        AttemptOutcome::Success(data) => AfterFirstAttempt::Done(
            Ok(AuthenticatedFetch { data, refreshed_token: None }),
        ),
        AttemptOutcome::Failed(e) => AfterFirstAttempt::Done(Err(e)),
        AttemptOutcome::Unauthorized => AfterFirstAttempt::Refresh(PendingRefresh { token }),
    }
}

/// The step after a renewal: a renewed token is tried; a failed renewal
/// means the session expired, except a rate-limited one, which leaves the
/// session open and ends the request as the unexpected status 429.
pub open spec fn refresh_step<E: ExpiringSession>(refreshed: Result<AuthToken, RefreshError>) -> Result<Retry, E> {
    match refreshed {
        Ok(renewed) => Ok(Retry { renewed }),
        Err(RefreshError::RateLimited) => Err(E::unexpected(429)),
        Err(_) => Err(E::expired()),
    }
}

/// The step after the second try: a success reports the renewed token; a
/// second 401 means the session expired; any other failure is returned.
pub open spec fn retry_step<T, E: ExpiringSession>(renewed: AuthToken, outcome: AttemptOutcome<T, E>) -> Result<AuthenticatedFetch<T>, E> {
    match outcome {
        AttemptOutcome::Success(data) => Ok(AuthenticatedFetch { data, refreshed_token: Some(renewed) }),
        AttemptOutcome::Failed(e) => Err(e),
        AttemptOutcome::Unauthorized => Err(E::expired()),
    }
}

/// The result of a whole authenticated request, given what its first try,
/// the renewal and the second try came to (the last two matter only where
/// they happen).
pub open spec fn authenticated_request<T, E: ExpiringSession>(
    token: AuthToken,
    first: AttemptOutcome<T, E>,
    refreshed: Result<AuthToken, RefreshError>,
    second: AttemptOutcome<T, E>,
) -> Result<AuthenticatedFetch<T>, E> {
    match first_attempt_step(token, first) {
        AfterFirstAttempt::Done(result) => result,
        AfterFirstAttempt::Refresh(_) => match refresh_step::<E>(refreshed) {
            Err(e) => Err(e),
            Ok(retry) => retry_step(retry.renewed, second),
        },
    }
}

impl FirstAttempt {
    pub fn new(token: &AuthToken) -> (r: Self)
        ensures
            r.token == *token,
    {
        FirstAttempt { token: token.clone() }
    }

    /// The access token to send with the first try.
    pub fn access_token(&self) -> (r: String)
        ensures
            r@ == self.token.access_token@,
    {
        self.token.access_token.clone()
    }

    pub fn finish<T, E>(self, outcome: AttemptOutcome<T, E>) -> (r: AfterFirstAttempt<T, E>)
        ensures
            r == first_attempt_step(self.token, outcome),
    {
        match outcome {
            AttemptOutcome::Success(data) => AfterFirstAttempt::Done(
                Ok(AuthenticatedFetch { data, refreshed_token: None }),
            ),
            AttemptOutcome::Failed(e) => AfterFirstAttempt::Done(Err(e)),
            AttemptOutcome::Unauthorized => AfterFirstAttempt::Refresh(
                PendingRefresh { token: self.token },
            ),
        }
    }
}

impl PendingRefresh {
    /// The access token to renew.
    pub fn access_token(&self) -> (r: String)
        ensures
            r@ == self.token.access_token@,
    {
        self.token.access_token.clone()
    }

    pub fn finish<E: ExpiringSession>(self, refreshed: Result<AuthToken, RefreshError>) -> (r:
        Result<Retry, E>)
        ensures
            r == refresh_step::<E>(refreshed),
    {
        match refreshed {
            Ok(renewed) => Ok(Retry { renewed }),
            Err(RefreshError::RateLimited) => Err(E::unexpected_status(429)),
            Err(_) => Err(E::session_expired()),
        }
    }
}

impl Retry {
    /// The renewed access token to send with the second try.
    pub fn access_token(&self) -> (r: String)
        ensures
            r@ == self.renewed.access_token@,
    {
        self.renewed.access_token.clone()
    }

    pub fn finish<T, E: ExpiringSession>(self, outcome: AttemptOutcome<T, E>) -> (r: Result<
        AuthenticatedFetch<T>,
        E,
    >)
        ensures
            r == retry_step(self.renewed, outcome),
    {
        match outcome {
            AttemptOutcome::Success(data) => Ok(
                AuthenticatedFetch { data, refreshed_token: Some(self.renewed) },
            ),
            AttemptOutcome::Failed(e) => Err(e),
            AttemptOutcome::Unauthorized => Err(E::session_expired()),
        }
    }
}

/// A renewed token is reported exactly when the first try got a 401, the
/// renewal gave that token, and the second try succeeded; a request that
/// reports none succeeded at its first try.
pub proof fn renewed_token_is_reported_only_after_a_renewal<T, E: ExpiringSession>(
    token: AuthToken,
    first: AttemptOutcome<T, E>,
    refreshed: Result<AuthToken, RefreshError>,
    second: AttemptOutcome<T, E>,
)
    ensures
        match authenticated_request(token, first, refreshed, second) {
            Ok(fetch) => match fetch.refreshed_token {
                Some(renewed) => first is Unauthorized && refreshed == Ok::<AuthToken, RefreshError>(
                    renewed,
                ) && second == AttemptOutcome::<T, E>::Success(fetch.data),
                None => first == AttemptOutcome::<T, E>::Success(fetch.data),
            },
            Err(_) => true,
        },
{
}

/// Only a 401 leads to a renewal: any other failure of the first try is the
/// result of the request, as it is.
pub proof fn other_failures_are_not_retried<T, E: ExpiringSession>(
    token: AuthToken,
    error: E,
    refreshed: Result<AuthToken, RefreshError>,
    second: AttemptOutcome<T, E>,
)
    ensures
        authenticated_request(token, AttemptOutcome::<T, E>::Failed(error), refreshed, second)
            == Err::<AuthenticatedFetch<T>, E>(error),
{
}

/// A request whose renewal fails, other than by a rate limit, or whose
/// renewed token is refused too, ends with an expired session: there is
/// never a third try.
pub proof fn a_failed_renewal_expires_the_session<T, E: ExpiringSession>(
    token: AuthToken,
    refreshed: Result<AuthToken, RefreshError>,
    second: AttemptOutcome<T, E>,
)
    requires
        refreshed is Err && !(refreshed->Err_0 is RateLimited) || refreshed is Ok && second is Unauthorized,
    ensures
        authenticated_request(token, AttemptOutcome::<T, E>::Unauthorized, refreshed, second)
            == Err::<AuthenticatedFetch<T>, E>(E::expired()),
{
}

/// A rate-limited renewal does not close the session: the request ends as
/// the unexpected status 429, and no second try is made.
pub proof fn a_rate_limited_renewal_leaves_the_session_open<T, E: ExpiringSession>(
    token: AuthToken,
    second: AttemptOutcome<T, E>,
)
    ensures
        authenticated_request(
            token,
            AttemptOutcome::<T, E>::Unauthorized,
            Err::<AuthToken, RefreshError>(RefreshError::RateLimited),
            second,
        ) == Err::<AuthenticatedFetch<T>, E>(E::unexpected(429)),
{
}

} // verus!
