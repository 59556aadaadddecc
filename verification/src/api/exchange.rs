//! The endpoints of the backend, and how each operation reads the reply to
//! one of its requests. The caller performs the exchange and reports it as an
//! `Exchange`; the reading decides what the reply means.
use vstd::prelude::*;

use crate::api::errors::{
    AcceptRideError, AuthenticatedRequestError, BroadcastAuthError, CancelRideError,
    CompleteRideError, EstimateRideError, GetRideError, GetVehicleError, LoginError, LogoutError,
    RateDriverError, RefreshError, RegisterError, RegisterVehicleError, RequestRideError,
    ShareRideLocationError, StartRideError, UpdateProfileError, UpdateVehicleError,
};
use crate::api::retry::AttemptOutcome;
use crate::models::{
    ApiErrorBody, AuthToken, AuthenticatedUser, BroadcastAuthResponse, Ride, RideCancellation,
    RideEstimate, RideRating, User, Vehicle,
};
use crate::text::{decimal, decimal_string};

verus! {

/// One exchange with the backend, as the caller reports it.
#[derive(Debug, PartialEq)]
pub enum Exchange<T> {
    /// The request could not be sent, or no reply came: the transport's
    /// message.
    NotSent(String),
    /// A reply with `status`. `data` is its body decoded as the operation's
    /// result (taken out of the `data` envelope where the reply has one), and
    /// `error_body` its body decoded as the backend's error body; each holds
    /// the decoder's message where the body did not decode so. The reading
    /// looks at most at one of them, as the status says.
    Replied { status: u16, data: Result<T, String>, error_body: Result<ApiErrorBody, String> },
}

/// A status of the 2xx class.
pub open spec fn is_success(status: u16) -> bool {
    200 <= status <= 299
}

/// How a reply to `POST /api/v1/auth/login` is read: a 2xx gives its
/// result; the statuses 401, 422 give their own errors; any other
/// status is unexpected; a body that did not decode where it was needed, or
/// a request that was not sent, is a network failure.
pub open spec fn login_reading(exchange: Exchange<AuthenticatedUser>) -> Result<AuthenticatedUser, LoginError> {
    match exchange {
        Exchange::NotSent(message) => Err(LoginError::Network(message)),
        Exchange::Replied { status, data, error_body } => {
            if is_success(status) {
                match data {
                    Ok(value) => Ok(value),
                    Err(message) => Err(LoginError::Network(message)),
                }
            } else if status == 401 {
                match error_body {
                    Ok(body) => Err(LoginError::InvalidCredentials(body.message)),
                    Err(message) => Err(LoginError::Network(message)),
                }
            } else if status == 422 {
                match error_body {
                    Ok(body) => Err(LoginError::Validation(body)),
                    Err(message) => Err(LoginError::Network(message)),
                }
            } else {
                Err(LoginError::Unexpected(status))
            }
        },
    }
}

/// Reads a reply as `login_reading` says.
pub fn read_login(exchange: Exchange<AuthenticatedUser>) -> (r: Result<AuthenticatedUser, LoginError>)
    ensures
        r == login_reading(exchange),
{
    match exchange {
        Exchange::NotSent(message) => Err(LoginError::Network(message)),
        Exchange::Replied { status, data, error_body } => {
            if 200 <= status && status <= 299 {
                match data {
                    Ok(value) => Ok(value),
                    Err(message) => Err(LoginError::Network(message)),
                }
            } else if status == 401 {
                match error_body {
                    Ok(body) => Err(LoginError::InvalidCredentials(body.message)),
                    Err(message) => Err(LoginError::Network(message)),
                }
            } else if status == 422 {
                match error_body {
                    Ok(body) => Err(LoginError::Validation(body)),
                    Err(message) => Err(LoginError::Network(message)),
                }
            } else {
                Err(LoginError::Unexpected(status))
            }
        },
    }
}

/// How a reply to `POST /api/v1/auth/register/passenger` and `/driver` is read: a 2xx gives its
/// result; the statuses 422 give their own errors; any other
/// status is unexpected; a body that did not decode where it was needed, or
/// a request that was not sent, is a network failure.
pub open spec fn registration_reading(exchange: Exchange<AuthenticatedUser>) -> Result<AuthenticatedUser, RegisterError> {
    match exchange {
        Exchange::NotSent(message) => Err(RegisterError::Network(message)),
        Exchange::Replied { status, data, error_body } => {
            if is_success(status) {
                match data {
                    Ok(value) => Ok(value),
                    Err(message) => Err(RegisterError::Network(message)),
                }
            } else if status == 422 {
                match error_body {
                    Ok(body) => Err(RegisterError::Validation(body)),
                    Err(message) => Err(RegisterError::Network(message)),
                }
            } else {
                Err(RegisterError::Unexpected(status))
            }
        },
    }
}

/// Reads a reply as `registration_reading` says.
pub fn read_registration(exchange: Exchange<AuthenticatedUser>) -> (r: Result<AuthenticatedUser, RegisterError>)
    ensures
        r == registration_reading(exchange),
{
    match exchange {
        Exchange::NotSent(message) => Err(RegisterError::Network(message)),
        Exchange::Replied { status, data, error_body } => {
            if 200 <= status && status <= 299 {
                match data {
                    Ok(value) => Ok(value),
                    Err(message) => Err(RegisterError::Network(message)),
                }
            } else if status == 422 {
                match error_body {
                    Ok(body) => Err(RegisterError::Validation(body)),
                    Err(message) => Err(RegisterError::Network(message)),
                }
            } else {
                Err(RegisterError::Unexpected(status))
            }
        },
    }
}

/// How a reply to `POST /api/v1/auth/refresh` is read: a 2xx gives its
/// result; the statuses 401, 429 give their own errors; any other
/// status is unexpected; a body that did not decode where it was needed, or
/// a request that was not sent, is a network failure.
pub open spec fn refresh_reading(exchange: Exchange<AuthToken>) -> Result<AuthToken, RefreshError> {
    match exchange {
        Exchange::NotSent(message) => Err(RefreshError::Network(message)),
        Exchange::Replied { status, data, error_body } => {
            if is_success(status) {
                match data {
                    Ok(value) => Ok(value),
                    Err(message) => Err(RefreshError::Network(message)),
                }
            } else if status == 401 {
                match error_body {
                    Ok(body) => Err(RefreshError::Unauthorized(body.message)),
                    Err(message) => Err(RefreshError::Network(message)),
                }
            } else if status == 429 {
                Err(RefreshError::RateLimited)
            } else {
                Err(RefreshError::Unexpected(status))
            }
        },
    }
}

/// Reads a reply as `refresh_reading` says.
pub fn read_refresh(exchange: Exchange<AuthToken>) -> (r: Result<AuthToken, RefreshError>)
    ensures
        r == refresh_reading(exchange),
{
    match exchange {
        Exchange::NotSent(message) => Err(RefreshError::Network(message)),
        Exchange::Replied { status, data, error_body } => {
            if 200 <= status && status <= 299 {
                match data {
                    Ok(value) => Ok(value),
                    Err(message) => Err(RefreshError::Network(message)),
                }
            } else if status == 401 {
                match error_body {
                    Ok(body) => Err(RefreshError::Unauthorized(body.message)),
                    Err(message) => Err(RefreshError::Network(message)),
                }
            } else if status == 429 {
                Err(RefreshError::RateLimited)
            } else {
                Err(RefreshError::Unexpected(status))
            }
        },
    }
}

/// How a reply to `POST /api/v1/auth/logout` (a success has no body) is read: a 2xx gives its
/// result; the statuses 401 give their own errors; any other
/// status is unexpected; a body that did not decode where it was needed, or
/// a request that was not sent, is a network failure.
pub open spec fn logout_reading(exchange: Exchange<()>) -> Result<(), LogoutError> {
    match exchange {
        Exchange::NotSent(message) => Err(LogoutError::Network(message)),
        Exchange::Replied { status, data, error_body } => {
            if is_success(status) {
                Ok(())
            } else if status == 401 {
                Err(LogoutError::Unauthorized)
            } else {
                Err(LogoutError::Unexpected(status))
            }
        },
    }
}

/// Reads a reply as `logout_reading` says.
pub fn read_logout(exchange: Exchange<()>) -> (r: Result<(), LogoutError>)
    ensures
        r == logout_reading(exchange),
{
    match exchange {
        Exchange::NotSent(message) => Err(LogoutError::Network(message)),
        Exchange::Replied { status, data, error_body } => {
            if 200 <= status && status <= 299 {
                Ok(())
            } else if status == 401 {
                Err(LogoutError::Unauthorized)
            } else {
                Err(LogoutError::Unexpected(status))
            }
        },
    }
}

/// A logout reply is read by its status alone, whatever its body holds: a
/// 2xx (a 204 without body, say) is a success, a 401 is `Unauthorized`, any
/// other status is unexpected; a request that was not sent is a network
/// failure with the transport's message.
pub proof fn a_logout_reply_is_read_by_its_status_alone(
    status: u16,
    data: Result<(), String>,
    error_body: Result<ApiErrorBody, String>,
    message: String,
)
    ensures
        logout_reading(Exchange::Replied { status, data, error_body }) == if is_success(status) {
            Ok::<(), LogoutError>(())
        } else if status == 401 {
            Err(LogoutError::Unauthorized)
        } else {
            Err(LogoutError::Unexpected(status))
        },
        logout_reading(Exchange::NotSent(message)) == Err::<(), LogoutError>(LogoutError::Network(message)),
{
}

/// How a reply to `POST /api/v1/broadcasting/auth` is read: a 2xx gives its
/// result; the statuses 401, 403 give their own errors; any other
/// status is unexpected; a body that did not decode where it was needed, or
/// a request that was not sent, is a network failure.
pub open spec fn broadcast_auth_reading(exchange: Exchange<BroadcastAuthResponse>) -> Result<BroadcastAuthResponse, BroadcastAuthError> {
    match exchange {
        Exchange::NotSent(message) => Err(BroadcastAuthError::Network(message)),
        Exchange::Replied { status, data, error_body } => {
            if is_success(status) {
                match data {
                    Ok(value) => Ok(value),
                    Err(message) => Err(BroadcastAuthError::Network(message)),
                }
            } else if status == 401 {
                Err(BroadcastAuthError::Unauthorized)
            } else if status == 403 {
                Err(BroadcastAuthError::Forbidden)
            } else {
                Err(BroadcastAuthError::Unexpected(status))
            }
        },
    }
}

/// Reads a reply as `broadcast_auth_reading` says.
pub fn read_broadcast_auth(exchange: Exchange<BroadcastAuthResponse>) -> (r: Result<BroadcastAuthResponse, BroadcastAuthError>)
    ensures
        r == broadcast_auth_reading(exchange),
{
    match exchange {
        Exchange::NotSent(message) => Err(BroadcastAuthError::Network(message)),
        Exchange::Replied { status, data, error_body } => {
            if 200 <= status && status <= 299 {
                match data {
                    Ok(value) => Ok(value),
                    Err(message) => Err(BroadcastAuthError::Network(message)),
                }
            } else if status == 401 {
                Err(BroadcastAuthError::Unauthorized)
            } else if status == 403 {
                Err(BroadcastAuthError::Forbidden)
            } else {
                Err(BroadcastAuthError::Unexpected(status))
            }
        },
    }
}

/// How a reply to an authenticated `GET` of `/api/v1` (`GET /api/v1/me`, say) is read: a 2xx gives its
/// result; a 401 asks for a renewed token; any other
/// status is unexpected; a body that did not decode where it was needed, or
/// a request that was not sent, is a network failure.
pub open spec fn authenticated_get_reading<T>(exchange: Exchange<T>) -> AttemptOutcome<T, AuthenticatedRequestError> {
    match exchange {
        Exchange::NotSent(message) => AttemptOutcome::Failed(AuthenticatedRequestError::Network(message)),
        Exchange::Replied { status, data, error_body } => {
            if is_success(status) {
                match data {
                    Ok(value) => AttemptOutcome::Success(value),
                    Err(message) => AttemptOutcome::Failed(AuthenticatedRequestError::Network(message)),
                }
            } else if status == 401 {
                AttemptOutcome::Unauthorized
            } else {
                AttemptOutcome::Failed(AuthenticatedRequestError::Unexpected(status))
            }
        },
    }
}

/// Reads a reply as `authenticated_get_reading` says.
pub fn read_authenticated_get<T>(exchange: Exchange<T>) -> (r: AttemptOutcome<T, AuthenticatedRequestError>)
    ensures
        r == authenticated_get_reading(exchange),
{
    match exchange {
        Exchange::NotSent(message) => AttemptOutcome::Failed(AuthenticatedRequestError::Network(message)),
        Exchange::Replied { status, data, error_body } => {
            if 200 <= status && status <= 299 {
                match data {
                    Ok(value) => AttemptOutcome::Success(value),
                    Err(message) => AttemptOutcome::Failed(AuthenticatedRequestError::Network(message)),
                }
            } else if status == 401 {
                AttemptOutcome::Unauthorized
            } else {
                AttemptOutcome::Failed(AuthenticatedRequestError::Unexpected(status))
            }
        },
    }
}

/// How a reply to `PATCH /api/v1/me` is read: a 2xx gives its
/// result; a 401 asks for a renewed token; the statuses 422 give their own errors; any other
/// status is unexpected; a body that did not decode where it was needed, or
/// a request that was not sent, is a network failure.
pub open spec fn update_profile_reading(exchange: Exchange<User>) -> AttemptOutcome<User, UpdateProfileError> {
    match exchange {
        Exchange::NotSent(message) => AttemptOutcome::Failed(UpdateProfileError::Network(message)),
        Exchange::Replied { status, data, error_body } => {
            if is_success(status) {
                match data {
                    Ok(value) => AttemptOutcome::Success(value),
                    Err(message) => AttemptOutcome::Failed(UpdateProfileError::Network(message)),
                }
            } else if status == 401 {
                AttemptOutcome::Unauthorized
            } else if status == 422 {
                match error_body {
                    Ok(body) => AttemptOutcome::Failed(UpdateProfileError::Validation(body)),
                    Err(message) => AttemptOutcome::Failed(UpdateProfileError::Network(message)),
                }
            } else {
                AttemptOutcome::Failed(UpdateProfileError::Unexpected(status))
            }
        },
    }
}

/// Reads a reply as `update_profile_reading` says.
pub fn read_update_profile(exchange: Exchange<User>) -> (r: AttemptOutcome<User, UpdateProfileError>)
    ensures
        r == update_profile_reading(exchange),
{
    match exchange {
        Exchange::NotSent(message) => AttemptOutcome::Failed(UpdateProfileError::Network(message)),
        Exchange::Replied { status, data, error_body } => {
            if 200 <= status && status <= 299 {
                match data {
                    Ok(value) => AttemptOutcome::Success(value),
                    Err(message) => AttemptOutcome::Failed(UpdateProfileError::Network(message)),
                }
            } else if status == 401 {
                AttemptOutcome::Unauthorized
            } else if status == 422 {
                match error_body {
                    Ok(body) => AttemptOutcome::Failed(UpdateProfileError::Validation(body)),
                    Err(message) => AttemptOutcome::Failed(UpdateProfileError::Network(message)),
                }
            } else {
                AttemptOutcome::Failed(UpdateProfileError::Unexpected(status))
            }
        },
    }
}

/// How a reply to `POST /api/v1/me/vehicle` is read: a 2xx gives its
/// result; a 401 asks for a renewed token; the statuses 403, 422 give their own errors; any other
/// status is unexpected; a body that did not decode where it was needed, or
/// a request that was not sent, is a network failure.
pub open spec fn register_vehicle_reading(exchange: Exchange<Vehicle>) -> AttemptOutcome<Vehicle, RegisterVehicleError> {
    match exchange {
        Exchange::NotSent(message) => AttemptOutcome::Failed(RegisterVehicleError::Network(message)),
        Exchange::Replied { status, data, error_body } => {
            if is_success(status) {
                match data {
                    Ok(value) => AttemptOutcome::Success(value),
                    Err(message) => AttemptOutcome::Failed(RegisterVehicleError::Network(message)),
                }
            } else if status == 401 {
                AttemptOutcome::Unauthorized
            } else if status == 403 {
                AttemptOutcome::Failed(RegisterVehicleError::Forbidden)
            } else if status == 422 {
                match error_body {
                    Ok(body) => AttemptOutcome::Failed(RegisterVehicleError::Validation(body)),
                    Err(message) => AttemptOutcome::Failed(RegisterVehicleError::Network(message)),
                }
            } else {
                AttemptOutcome::Failed(RegisterVehicleError::Unexpected(status))
            }
        },
    }
}

/// Reads a reply as `register_vehicle_reading` says.
pub fn read_register_vehicle(exchange: Exchange<Vehicle>) -> (r: AttemptOutcome<Vehicle, RegisterVehicleError>)
    ensures
        r == register_vehicle_reading(exchange),
{
    match exchange {
        Exchange::NotSent(message) => AttemptOutcome::Failed(RegisterVehicleError::Network(message)),
        Exchange::Replied { status, data, error_body } => {
            if 200 <= status && status <= 299 {
                match data {
                    Ok(value) => AttemptOutcome::Success(value),
                    Err(message) => AttemptOutcome::Failed(RegisterVehicleError::Network(message)),
                }
            } else if status == 401 {
                AttemptOutcome::Unauthorized
            } else if status == 403 {
                AttemptOutcome::Failed(RegisterVehicleError::Forbidden)
            } else if status == 422 {
                match error_body {
                    Ok(body) => AttemptOutcome::Failed(RegisterVehicleError::Validation(body)),
                    Err(message) => AttemptOutcome::Failed(RegisterVehicleError::Network(message)),
                }
            } else {
                AttemptOutcome::Failed(RegisterVehicleError::Unexpected(status))
            }
        },
    }
}

/// How a reply to `GET /api/v1/me/vehicle` is read: a 2xx gives its
/// result; a 401 asks for a renewed token; the statuses 403, 404 give their own errors; any other
/// status is unexpected; a body that did not decode where it was needed, or
/// a request that was not sent, is a network failure.
pub open spec fn get_vehicle_reading(exchange: Exchange<Vehicle>) -> AttemptOutcome<Vehicle, GetVehicleError> {
    match exchange {
        Exchange::NotSent(message) => AttemptOutcome::Failed(GetVehicleError::Network(message)),
        Exchange::Replied { status, data, error_body } => {
            if is_success(status) {
                match data {
                    Ok(value) => AttemptOutcome::Success(value),
                    Err(message) => AttemptOutcome::Failed(GetVehicleError::Network(message)),
                }
            } else if status == 401 {
                AttemptOutcome::Unauthorized
            } else if status == 403 {
                AttemptOutcome::Failed(GetVehicleError::Forbidden)
            } else if status == 404 {
                AttemptOutcome::Failed(GetVehicleError::NotFound)
            } else {
                AttemptOutcome::Failed(GetVehicleError::Unexpected(status))
            }
        },
    }
}

/// Reads a reply as `get_vehicle_reading` says.
pub fn read_get_vehicle(exchange: Exchange<Vehicle>) -> (r: AttemptOutcome<Vehicle, GetVehicleError>)
    ensures
        r == get_vehicle_reading(exchange),
{
    match exchange {
        Exchange::NotSent(message) => AttemptOutcome::Failed(GetVehicleError::Network(message)),
        Exchange::Replied { status, data, error_body } => {
            if 200 <= status && status <= 299 {
                match data {
                    Ok(value) => AttemptOutcome::Success(value),
                    Err(message) => AttemptOutcome::Failed(GetVehicleError::Network(message)),
                }
            } else if status == 401 {
                AttemptOutcome::Unauthorized
            } else if status == 403 {
                AttemptOutcome::Failed(GetVehicleError::Forbidden)
            } else if status == 404 {
                AttemptOutcome::Failed(GetVehicleError::NotFound)
            } else {
                AttemptOutcome::Failed(GetVehicleError::Unexpected(status))
            }
        },
    }
}

/// How a reply to `PATCH /api/v1/me/vehicle` is read: a 2xx gives its
/// result; a 401 asks for a renewed token; the statuses 403, 404, 422 give their own errors; any other
/// status is unexpected; a body that did not decode where it was needed, or
/// a request that was not sent, is a network failure.
pub open spec fn update_vehicle_reading(exchange: Exchange<Vehicle>) -> AttemptOutcome<Vehicle, UpdateVehicleError> {
    match exchange {
        Exchange::NotSent(message) => AttemptOutcome::Failed(UpdateVehicleError::Network(message)),
        Exchange::Replied { status, data, error_body } => {
            if is_success(status) {
                match data {
                    Ok(value) => AttemptOutcome::Success(value),
                    Err(message) => AttemptOutcome::Failed(UpdateVehicleError::Network(message)),
                }
            } else if status == 401 {
                AttemptOutcome::Unauthorized
            } else if status == 403 {
                AttemptOutcome::Failed(UpdateVehicleError::Forbidden)
            } else if status == 404 {
                AttemptOutcome::Failed(UpdateVehicleError::NotFound)
            } else if status == 422 {
                match error_body {
                    Ok(body) => AttemptOutcome::Failed(UpdateVehicleError::Validation(body)),
                    Err(message) => AttemptOutcome::Failed(UpdateVehicleError::Network(message)),
                }
            } else {
                AttemptOutcome::Failed(UpdateVehicleError::Unexpected(status))
            }
        },
    }
}

/// Reads a reply as `update_vehicle_reading` says.
pub fn read_update_vehicle(exchange: Exchange<Vehicle>) -> (r: AttemptOutcome<Vehicle, UpdateVehicleError>)
    ensures
        r == update_vehicle_reading(exchange),
{
    match exchange {
        Exchange::NotSent(message) => AttemptOutcome::Failed(UpdateVehicleError::Network(message)),
        Exchange::Replied { status, data, error_body } => {
            if 200 <= status && status <= 299 {
                match data {
                    Ok(value) => AttemptOutcome::Success(value),
                    Err(message) => AttemptOutcome::Failed(UpdateVehicleError::Network(message)),
                }
            } else if status == 401 {
                AttemptOutcome::Unauthorized
            } else if status == 403 {
                AttemptOutcome::Failed(UpdateVehicleError::Forbidden)
            } else if status == 404 {
                AttemptOutcome::Failed(UpdateVehicleError::NotFound)
            } else if status == 422 {
                match error_body {
                    Ok(body) => AttemptOutcome::Failed(UpdateVehicleError::Validation(body)),
                    Err(message) => AttemptOutcome::Failed(UpdateVehicleError::Network(message)),
                }
            } else {
                AttemptOutcome::Failed(UpdateVehicleError::Unexpected(status))
            }
        },
    }
}

/// How a reply to `POST /api/v1/rides/estimate` is read: a 2xx gives its
/// result; a 401 asks for a renewed token; the statuses 422 give their own errors; any other
/// status is unexpected; a body that did not decode where it was needed, or
/// a request that was not sent, is a network failure.
pub open spec fn estimate_ride_reading(exchange: Exchange<RideEstimate>) -> AttemptOutcome<RideEstimate, EstimateRideError> {
    match exchange {
        Exchange::NotSent(message) => AttemptOutcome::Failed(EstimateRideError::Network(message)),
        Exchange::Replied { status, data, error_body } => {
            if is_success(status) {
                match data {
                    Ok(value) => AttemptOutcome::Success(value),
                    Err(message) => AttemptOutcome::Failed(EstimateRideError::Network(message)),
                }
            } else if status == 401 {
                AttemptOutcome::Unauthorized
            } else if status == 422 {
                match error_body {
                    Ok(body) => AttemptOutcome::Failed(EstimateRideError::Validation(body)),
                    Err(message) => AttemptOutcome::Failed(EstimateRideError::Network(message)),
                }
            } else {
                AttemptOutcome::Failed(EstimateRideError::Unexpected(status))
            }
        },
    }
}

/// Reads a reply as `estimate_ride_reading` says.
pub fn read_estimate_ride(exchange: Exchange<RideEstimate>) -> (r: AttemptOutcome<RideEstimate, EstimateRideError>)
    ensures
        r == estimate_ride_reading(exchange),
{
    match exchange {
        Exchange::NotSent(message) => AttemptOutcome::Failed(EstimateRideError::Network(message)),
        Exchange::Replied { status, data, error_body } => {
            if 200 <= status && status <= 299 {
                match data {
                    Ok(value) => AttemptOutcome::Success(value),
                    Err(message) => AttemptOutcome::Failed(EstimateRideError::Network(message)),
                }
            } else if status == 401 {
                AttemptOutcome::Unauthorized
            } else if status == 422 {
                match error_body {
                    Ok(body) => AttemptOutcome::Failed(EstimateRideError::Validation(body)),
                    Err(message) => AttemptOutcome::Failed(EstimateRideError::Network(message)),
                }
            } else {
                AttemptOutcome::Failed(EstimateRideError::Unexpected(status))
            }
        },
    }
}

/// How a reply to `POST /api/v1/rides` is read: a 2xx gives its
/// result; a 401 asks for a renewed token; the statuses 403, 422 give their own errors; any other
/// status is unexpected; a body that did not decode where it was needed, or
/// a request that was not sent, is a network failure.
pub open spec fn request_ride_reading(exchange: Exchange<Ride>) -> AttemptOutcome<Ride, RequestRideError> {
    match exchange {
        Exchange::NotSent(message) => AttemptOutcome::Failed(RequestRideError::Network(message)),
        Exchange::Replied { status, data, error_body } => {
            if is_success(status) {
                match data {
                    Ok(value) => AttemptOutcome::Success(value),
                    Err(message) => AttemptOutcome::Failed(RequestRideError::Network(message)),
                }
            } else if status == 401 {
                AttemptOutcome::Unauthorized
            } else if status == 403 {
                AttemptOutcome::Failed(RequestRideError::Forbidden)
            } else if status == 422 {
                match error_body {
                    Ok(body) => AttemptOutcome::Failed(RequestRideError::Validation(body)),
                    Err(message) => AttemptOutcome::Failed(RequestRideError::Network(message)),
                }
            } else {
                AttemptOutcome::Failed(RequestRideError::Unexpected(status))
            }
        },
    }
}

/// Reads a reply as `request_ride_reading` says.
pub fn read_request_ride(exchange: Exchange<Ride>) -> (r: AttemptOutcome<Ride, RequestRideError>)
    ensures
        r == request_ride_reading(exchange),
{
    match exchange {
        Exchange::NotSent(message) => AttemptOutcome::Failed(RequestRideError::Network(message)),
        Exchange::Replied { status, data, error_body } => {
            if 200 <= status && status <= 299 {
                match data {
                    Ok(value) => AttemptOutcome::Success(value),
                    Err(message) => AttemptOutcome::Failed(RequestRideError::Network(message)),
                }
            } else if status == 401 {
                AttemptOutcome::Unauthorized
            } else if status == 403 {
                AttemptOutcome::Failed(RequestRideError::Forbidden)
            } else if status == 422 {
                match error_body {
                    Ok(body) => AttemptOutcome::Failed(RequestRideError::Validation(body)),
                    Err(message) => AttemptOutcome::Failed(RequestRideError::Network(message)),
                }
            } else {
                AttemptOutcome::Failed(RequestRideError::Unexpected(status))
            }
        },
    }
}

/// How a reply to `POST /api/v1/rides/{ride}/cancel` is read: a 2xx gives its
/// result; a 401 asks for a renewed token; the statuses 403, 404, 422 give their own errors; any other
/// status is unexpected; a body that did not decode where it was needed, or
/// a request that was not sent, is a network failure.
pub open spec fn cancel_ride_reading(exchange: Exchange<RideCancellation>) -> AttemptOutcome<RideCancellation, CancelRideError> {
    match exchange {
        Exchange::NotSent(message) => AttemptOutcome::Failed(CancelRideError::Network(message)),
        Exchange::Replied { status, data, error_body } => {
            if is_success(status) {
                match data {
                    Ok(value) => AttemptOutcome::Success(value),
                    Err(message) => AttemptOutcome::Failed(CancelRideError::Network(message)),
                }
            } else if status == 401 {
                AttemptOutcome::Unauthorized
            } else if status == 403 {
                AttemptOutcome::Failed(CancelRideError::Forbidden)
            } else if status == 404 {
                AttemptOutcome::Failed(CancelRideError::NotFound)
            } else if status == 422 {
                match error_body {
                    Ok(body) => AttemptOutcome::Failed(CancelRideError::Validation(body)),
                    Err(message) => AttemptOutcome::Failed(CancelRideError::Network(message)),
                }
            } else {
                AttemptOutcome::Failed(CancelRideError::Unexpected(status))
            }
        },
    }
}

/// Reads a reply as `cancel_ride_reading` says.
pub fn read_cancel_ride(exchange: Exchange<RideCancellation>) -> (r: AttemptOutcome<RideCancellation, CancelRideError>)
    ensures
        r == cancel_ride_reading(exchange),
{
    match exchange {
        Exchange::NotSent(message) => AttemptOutcome::Failed(CancelRideError::Network(message)),
        Exchange::Replied { status, data, error_body } => {
            if 200 <= status && status <= 299 {
                match data {
                    Ok(value) => AttemptOutcome::Success(value),
                    Err(message) => AttemptOutcome::Failed(CancelRideError::Network(message)),
                }
            } else if status == 401 {
                AttemptOutcome::Unauthorized
            } else if status == 403 {
                AttemptOutcome::Failed(CancelRideError::Forbidden)
            } else if status == 404 {
                AttemptOutcome::Failed(CancelRideError::NotFound)
            } else if status == 422 {
                match error_body {
                    Ok(body) => AttemptOutcome::Failed(CancelRideError::Validation(body)),
                    Err(message) => AttemptOutcome::Failed(CancelRideError::Network(message)),
                }
            } else {
                AttemptOutcome::Failed(CancelRideError::Unexpected(status))
            }
        },
    }
}

/// How a reply to `POST /api/v1/rides/{ride}/accept` is read: a 2xx gives its
/// result; a 401 asks for a renewed token; the statuses 403, 404, 409, 422 give their own errors; any other
/// status is unexpected; a body that did not decode where it was needed, or
/// a request that was not sent, is a network failure.
pub open spec fn accept_ride_reading(exchange: Exchange<Ride>) -> AttemptOutcome<Ride, AcceptRideError> {
    match exchange {
        Exchange::NotSent(message) => AttemptOutcome::Failed(AcceptRideError::Network(message)),
        Exchange::Replied { status, data, error_body } => {
            if is_success(status) {
                match data {
                    Ok(value) => AttemptOutcome::Success(value),
                    Err(message) => AttemptOutcome::Failed(AcceptRideError::Network(message)),
                }
            } else if status == 401 {
                AttemptOutcome::Unauthorized
            } else if status == 403 {
                AttemptOutcome::Failed(AcceptRideError::Forbidden)
            } else if status == 404 {
                AttemptOutcome::Failed(AcceptRideError::NotFound)
            } else if status == 409 {
                AttemptOutcome::Failed(AcceptRideError::Conflict)
            } else if status == 422 {
                match error_body {
                    Ok(body) => AttemptOutcome::Failed(AcceptRideError::Validation(body)),
                    Err(message) => AttemptOutcome::Failed(AcceptRideError::Network(message)),
                }
            } else {
                AttemptOutcome::Failed(AcceptRideError::Unexpected(status))
            }
        },
    }
}

/// Reads a reply as `accept_ride_reading` says.
pub fn read_accept_ride(exchange: Exchange<Ride>) -> (r: AttemptOutcome<Ride, AcceptRideError>)
    ensures
        r == accept_ride_reading(exchange),
{
    match exchange {
        Exchange::NotSent(message) => AttemptOutcome::Failed(AcceptRideError::Network(message)),
        Exchange::Replied { status, data, error_body } => {
            if 200 <= status && status <= 299 {
                match data {
                    Ok(value) => AttemptOutcome::Success(value),
                    Err(message) => AttemptOutcome::Failed(AcceptRideError::Network(message)),
                }
            } else if status == 401 {
                AttemptOutcome::Unauthorized
            } else if status == 403 {
                AttemptOutcome::Failed(AcceptRideError::Forbidden)
            } else if status == 404 {
                AttemptOutcome::Failed(AcceptRideError::NotFound)
            } else if status == 409 {
                AttemptOutcome::Failed(AcceptRideError::Conflict)
            } else if status == 422 {
                match error_body {
                    Ok(body) => AttemptOutcome::Failed(AcceptRideError::Validation(body)),
                    Err(message) => AttemptOutcome::Failed(AcceptRideError::Network(message)),
                }
            } else {
                AttemptOutcome::Failed(AcceptRideError::Unexpected(status))
            }
        },
    }
}

/// How a reply to `POST /api/v1/rides/{ride}/start` is read: a 2xx gives its
/// result; a 401 asks for a renewed token; the statuses 403, 404, 422 give their own errors; any other
/// status is unexpected; a body that did not decode where it was needed, or
/// a request that was not sent, is a network failure.
pub open spec fn start_ride_reading(exchange: Exchange<Ride>) -> AttemptOutcome<Ride, StartRideError> {
    match exchange {
        Exchange::NotSent(message) => AttemptOutcome::Failed(StartRideError::Network(message)),
        Exchange::Replied { status, data, error_body } => {
            if is_success(status) {
                match data {
                    Ok(value) => AttemptOutcome::Success(value),
                    Err(message) => AttemptOutcome::Failed(StartRideError::Network(message)),
                }
            } else if status == 401 {
                AttemptOutcome::Unauthorized
            } else if status == 403 {
                AttemptOutcome::Failed(StartRideError::Forbidden)
            } else if status == 404 {
                AttemptOutcome::Failed(StartRideError::NotFound)
            } else if status == 422 {
                match error_body {
                    Ok(body) => AttemptOutcome::Failed(StartRideError::Validation(body)),
                    Err(message) => AttemptOutcome::Failed(StartRideError::Network(message)),
                }
            } else {
                AttemptOutcome::Failed(StartRideError::Unexpected(status))
            }
        },
    }
}

/// Reads a reply as `start_ride_reading` says.
pub fn read_start_ride(exchange: Exchange<Ride>) -> (r: AttemptOutcome<Ride, StartRideError>)
    ensures
        r == start_ride_reading(exchange),
{
    match exchange {
        Exchange::NotSent(message) => AttemptOutcome::Failed(StartRideError::Network(message)),
        Exchange::Replied { status, data, error_body } => {
            if 200 <= status && status <= 299 {
                match data {
                    Ok(value) => AttemptOutcome::Success(value),
                    Err(message) => AttemptOutcome::Failed(StartRideError::Network(message)),
                }
            } else if status == 401 {
                AttemptOutcome::Unauthorized
            } else if status == 403 {
                AttemptOutcome::Failed(StartRideError::Forbidden)
            } else if status == 404 {
                AttemptOutcome::Failed(StartRideError::NotFound)
            } else if status == 422 {
                match error_body {
                    Ok(body) => AttemptOutcome::Failed(StartRideError::Validation(body)),
                    Err(message) => AttemptOutcome::Failed(StartRideError::Network(message)),
                }
            } else {
                AttemptOutcome::Failed(StartRideError::Unexpected(status))
            }
        },
    }
}

/// How a reply to `POST /api/v1/rides/{ride}/complete` is read: a 2xx gives its
/// result; a 401 asks for a renewed token; the statuses 403, 404, 422 give their own errors; any other
/// status is unexpected; a body that did not decode where it was needed, or
/// a request that was not sent, is a network failure.
pub open spec fn complete_ride_reading(exchange: Exchange<Ride>) -> AttemptOutcome<Ride, CompleteRideError> {
    match exchange {
        Exchange::NotSent(message) => AttemptOutcome::Failed(CompleteRideError::Network(message)),
        Exchange::Replied { status, data, error_body } => {
            if is_success(status) {
                match data {
                    Ok(value) => AttemptOutcome::Success(value),
                    Err(message) => AttemptOutcome::Failed(CompleteRideError::Network(message)),
                }
            } else if status == 401 {
                AttemptOutcome::Unauthorized
            } else if status == 403 {
                AttemptOutcome::Failed(CompleteRideError::Forbidden)
            } else if status == 404 {
                AttemptOutcome::Failed(CompleteRideError::NotFound)
            } else if status == 422 {
                match error_body {
                    Ok(body) => AttemptOutcome::Failed(CompleteRideError::Validation(body)),
                    Err(message) => AttemptOutcome::Failed(CompleteRideError::Network(message)),
                }
            } else {
                AttemptOutcome::Failed(CompleteRideError::Unexpected(status))
            }
        },
    }
}

/// Reads a reply as `complete_ride_reading` says.
pub fn read_complete_ride(exchange: Exchange<Ride>) -> (r: AttemptOutcome<Ride, CompleteRideError>)
    ensures
        r == complete_ride_reading(exchange),
{
    match exchange {
        Exchange::NotSent(message) => AttemptOutcome::Failed(CompleteRideError::Network(message)),
        Exchange::Replied { status, data, error_body } => {
            if 200 <= status && status <= 299 {
                match data {
                    Ok(value) => AttemptOutcome::Success(value),
                    Err(message) => AttemptOutcome::Failed(CompleteRideError::Network(message)),
                }
            } else if status == 401 {
                AttemptOutcome::Unauthorized
            } else if status == 403 {
                AttemptOutcome::Failed(CompleteRideError::Forbidden)
            } else if status == 404 {
                AttemptOutcome::Failed(CompleteRideError::NotFound)
            } else if status == 422 {
                match error_body {
                    Ok(body) => AttemptOutcome::Failed(CompleteRideError::Validation(body)),
                    Err(message) => AttemptOutcome::Failed(CompleteRideError::Network(message)),
                }
            } else {
                AttemptOutcome::Failed(CompleteRideError::Unexpected(status))
            }
        },
    }
}

/// How a reply to `POST /api/v1/rides/{ride}/rate-driver` is read: a 2xx gives its
/// result; a 401 asks for a renewed token; the statuses 403, 404, 422 give their own errors; any other
/// status is unexpected; a body that did not decode where it was needed, or
/// a request that was not sent, is a network failure.
pub open spec fn rate_driver_reading(exchange: Exchange<RideRating>) -> AttemptOutcome<RideRating, RateDriverError> {
    match exchange {
        Exchange::NotSent(message) => AttemptOutcome::Failed(RateDriverError::Network(message)),
        Exchange::Replied { status, data, error_body } => {
            if is_success(status) {
                match data {
                    Ok(value) => AttemptOutcome::Success(value),
                    Err(message) => AttemptOutcome::Failed(RateDriverError::Network(message)),
                }
            } else if status == 401 {
                AttemptOutcome::Unauthorized
            } else if status == 403 {
                AttemptOutcome::Failed(RateDriverError::Forbidden)
            } else if status == 404 {
                AttemptOutcome::Failed(RateDriverError::NotFound)
            } else if status == 422 {
                match error_body {
                    Ok(body) => AttemptOutcome::Failed(RateDriverError::Validation(body)),
                    Err(message) => AttemptOutcome::Failed(RateDriverError::Network(message)),
                }
            } else {
                AttemptOutcome::Failed(RateDriverError::Unexpected(status))
            }
        },
    }
}

/// Reads a reply as `rate_driver_reading` says.
pub fn read_rate_driver(exchange: Exchange<RideRating>) -> (r: AttemptOutcome<RideRating, RateDriverError>)
    ensures
        r == rate_driver_reading(exchange),
{
    match exchange {
        Exchange::NotSent(message) => AttemptOutcome::Failed(RateDriverError::Network(message)),
        Exchange::Replied { status, data, error_body } => {
            if 200 <= status && status <= 299 {
                match data {
                    Ok(value) => AttemptOutcome::Success(value),
                    Err(message) => AttemptOutcome::Failed(RateDriverError::Network(message)),
                }
            } else if status == 401 {
                AttemptOutcome::Unauthorized
            } else if status == 403 {
                AttemptOutcome::Failed(RateDriverError::Forbidden)
            } else if status == 404 {
                AttemptOutcome::Failed(RateDriverError::NotFound)
            } else if status == 422 {
                match error_body {
                    Ok(body) => AttemptOutcome::Failed(RateDriverError::Validation(body)),
                    Err(message) => AttemptOutcome::Failed(RateDriverError::Network(message)),
                }
            } else {
                AttemptOutcome::Failed(RateDriverError::Unexpected(status))
            }
        },
    }
}

/// How a reply to `POST /api/v1/rides/{ride}/location` (a success has no body) is read: a 2xx gives its
/// result; a 401 asks for a renewed token; the statuses 403, 404, 422 give their own errors; any other
/// status is unexpected; a body that did not decode where it was needed, or
/// a request that was not sent, is a network failure.
pub open spec fn share_ride_location_reading(exchange: Exchange<()>) -> AttemptOutcome<(), ShareRideLocationError> {
    match exchange {
        Exchange::NotSent(message) => AttemptOutcome::Failed(ShareRideLocationError::Network(message)),
        Exchange::Replied { status, data, error_body } => {
            if is_success(status) {
                AttemptOutcome::Success(())
            } else if status == 401 {
                AttemptOutcome::Unauthorized
            } else if status == 403 {
                AttemptOutcome::Failed(ShareRideLocationError::Forbidden)
            } else if status == 404 {
                AttemptOutcome::Failed(ShareRideLocationError::NotFound)
            } else if status == 422 {
                match error_body {
                    Ok(body) => AttemptOutcome::Failed(ShareRideLocationError::Validation(body)),
                    Err(message) => AttemptOutcome::Failed(ShareRideLocationError::Network(message)),
                }
            } else {
                AttemptOutcome::Failed(ShareRideLocationError::Unexpected(status))
            }
        },
    }
}

/// Reads a reply as `share_ride_location_reading` says.
pub fn read_share_ride_location(exchange: Exchange<()>) -> (r: AttemptOutcome<(), ShareRideLocationError>)
    ensures
        r == share_ride_location_reading(exchange),
{
    match exchange {
        Exchange::NotSent(message) => AttemptOutcome::Failed(ShareRideLocationError::Network(message)),
        Exchange::Replied { status, data, error_body } => {
            if 200 <= status && status <= 299 {
                AttemptOutcome::Success(())
            } else if status == 401 {
                AttemptOutcome::Unauthorized
            } else if status == 403 {
                AttemptOutcome::Failed(ShareRideLocationError::Forbidden)
            } else if status == 404 {
                AttemptOutcome::Failed(ShareRideLocationError::NotFound)
            } else if status == 422 {
                match error_body {
                    Ok(body) => AttemptOutcome::Failed(ShareRideLocationError::Validation(body)),
                    Err(message) => AttemptOutcome::Failed(ShareRideLocationError::Network(message)),
                }
            } else {
                AttemptOutcome::Failed(ShareRideLocationError::Unexpected(status))
            }
        },
    }
}

/// How a reply to `GET /api/v1/rides/{ride}` is read: a 2xx gives its
/// result; a 401 asks for a renewed token; the statuses 403, 404 give their own errors; any other
/// status is unexpected; a body that did not decode where it was needed, or
/// a request that was not sent, is a network failure.
pub open spec fn get_ride_reading(exchange: Exchange<Ride>) -> AttemptOutcome<Ride, GetRideError> {
    match exchange {
        Exchange::NotSent(message) => AttemptOutcome::Failed(GetRideError::Network(message)),
        Exchange::Replied { status, data, error_body } => {
            if is_success(status) {
                match data {
                    Ok(value) => AttemptOutcome::Success(value),
                    Err(message) => AttemptOutcome::Failed(GetRideError::Network(message)),
                }
            } else if status == 401 {
                AttemptOutcome::Unauthorized
            } else if status == 403 {
                AttemptOutcome::Failed(GetRideError::Forbidden)
            } else if status == 404 {
                AttemptOutcome::Failed(GetRideError::NotFound)
            } else {
                AttemptOutcome::Failed(GetRideError::Unexpected(status))
            }
        },
    }
}

/// Reads a reply as `get_ride_reading` says.
pub fn read_get_ride(exchange: Exchange<Ride>) -> (r: AttemptOutcome<Ride, GetRideError>)
    ensures
        r == get_ride_reading(exchange),
{
    match exchange {
        Exchange::NotSent(message) => AttemptOutcome::Failed(GetRideError::Network(message)),
        Exchange::Replied { status, data, error_body } => {
            if 200 <= status && status <= 299 {
                match data {
                    Ok(value) => AttemptOutcome::Success(value),
                    Err(message) => AttemptOutcome::Failed(GetRideError::Network(message)),
                }
            } else if status == 401 {
                AttemptOutcome::Unauthorized
            } else if status == 403 {
                AttemptOutcome::Failed(GetRideError::Forbidden)
            } else if status == 404 {
                AttemptOutcome::Failed(GetRideError::NotFound)
            } else {
                AttemptOutcome::Failed(GetRideError::Unexpected(status))
            }
        },
    }
}

/// The HTTP method of a request.
#[derive(Debug, Clone, Copy, PartialEq, Eq, Structural)]
pub enum HttpMethod {
    Get,
    Post,
    Patch,
}

/// An operation of the backend, with the ride it acts on where it has one.
#[derive(Debug, Clone, Copy, PartialEq, Eq, Structural)]
pub enum Endpoint {
    Login,
    RegisterPassenger,
    RegisterDriver,
    Refresh,
    Logout,
    Me,
    UpdateProfile,
    RegisterVehicle,
    GetVehicle,
    UpdateVehicle,
    EstimateRide,
    RequestRide,
    CancelRide(u64),
    AcceptRide(u64),
    StartRide(u64),
    CompleteRide(u64),
    RateDriver(u64),
    ShareRideLocation(u64),
    GetRide(u64),
    BroadcastAuth,
}

/// The path of a ride's operation: `/api/v1/rides/{ride}` then `action`.
pub open spec fn ride_path(ride_id: u64, action: Seq<char>) -> Seq<char> {
    "/api/v1/rides/"@ + decimal(ride_id as nat) + action
}

fn ride_path_string(ride_id: u64, action: &str) -> (r: String)
    ensures
        r@ == ride_path(ride_id, action@),
{
    let mut r = String::from_str("/api/v1/rides/");
    let id = decimal_string(ride_id);
    r.append(id.as_str());
    r.append(action);
    r
}

impl Endpoint {
    pub open spec fn spec_method(self) -> HttpMethod {
        match self {
            Endpoint::Login => HttpMethod::Post,
            Endpoint::RegisterPassenger => HttpMethod::Post,
            Endpoint::RegisterDriver => HttpMethod::Post,
            Endpoint::Refresh => HttpMethod::Post,
            Endpoint::Logout => HttpMethod::Post,
            Endpoint::Me => HttpMethod::Get,
            Endpoint::UpdateProfile => HttpMethod::Patch,
            Endpoint::RegisterVehicle => HttpMethod::Post,
            Endpoint::GetVehicle => HttpMethod::Get,
            Endpoint::UpdateVehicle => HttpMethod::Patch,
            Endpoint::EstimateRide => HttpMethod::Post,
            Endpoint::RequestRide => HttpMethod::Post,
            Endpoint::CancelRide(_) => HttpMethod::Post,
            Endpoint::AcceptRide(_) => HttpMethod::Post,
            Endpoint::StartRide(_) => HttpMethod::Post,
            Endpoint::CompleteRide(_) => HttpMethod::Post,
            Endpoint::RateDriver(_) => HttpMethod::Post,
            Endpoint::ShareRideLocation(_) => HttpMethod::Post,
            Endpoint::GetRide(_) => HttpMethod::Get,
            Endpoint::BroadcastAuth => HttpMethod::Post,
        }
    }

    pub open spec fn spec_path(self) -> Seq<char> {
        match self {
            Endpoint::Login => "/api/v1/auth/login"@,
            Endpoint::RegisterPassenger => "/api/v1/auth/register/passenger"@,
            Endpoint::RegisterDriver => "/api/v1/auth/register/driver"@,
            Endpoint::Refresh => "/api/v1/auth/refresh"@,
            Endpoint::Logout => "/api/v1/auth/logout"@,
            Endpoint::Me => "/api/v1/me"@,
            Endpoint::UpdateProfile => "/api/v1/me"@,
            Endpoint::RegisterVehicle => "/api/v1/me/vehicle"@,
            Endpoint::GetVehicle => "/api/v1/me/vehicle"@,
            Endpoint::UpdateVehicle => "/api/v1/me/vehicle"@,
            Endpoint::EstimateRide => "/api/v1/rides/estimate"@,
            Endpoint::RequestRide => "/api/v1/rides"@,
            Endpoint::CancelRide(ride_id) => ride_path(ride_id, "/cancel"@),
            Endpoint::AcceptRide(ride_id) => ride_path(ride_id, "/accept"@),
            Endpoint::StartRide(ride_id) => ride_path(ride_id, "/start"@),
            Endpoint::CompleteRide(ride_id) => ride_path(ride_id, "/complete"@),
            Endpoint::RateDriver(ride_id) => ride_path(ride_id, "/rate-driver"@),
            Endpoint::ShareRideLocation(ride_id) => ride_path(ride_id, "/location"@),
            Endpoint::GetRide(ride_id) => ride_path(ride_id, ""@),
            Endpoint::BroadcastAuth => "/api/v1/broadcasting/auth"@,
        }
    }

    /// The method of the operation's request.
    pub fn method(&self) -> (r: HttpMethod)
        ensures
            r == self.spec_method(),
    {
        match self {
            Endpoint::Login => HttpMethod::Post,
            Endpoint::RegisterPassenger => HttpMethod::Post,
            Endpoint::RegisterDriver => HttpMethod::Post,
            Endpoint::Refresh => HttpMethod::Post,
            Endpoint::Logout => HttpMethod::Post,
            Endpoint::Me => HttpMethod::Get,
            Endpoint::UpdateProfile => HttpMethod::Patch,
            Endpoint::RegisterVehicle => HttpMethod::Post,
            Endpoint::GetVehicle => HttpMethod::Get,
            Endpoint::UpdateVehicle => HttpMethod::Patch,
            Endpoint::EstimateRide => HttpMethod::Post,
            Endpoint::RequestRide => HttpMethod::Post,
            Endpoint::CancelRide(_) => HttpMethod::Post,
            Endpoint::AcceptRide(_) => HttpMethod::Post,
            Endpoint::StartRide(_) => HttpMethod::Post,
            Endpoint::CompleteRide(_) => HttpMethod::Post,
            Endpoint::RateDriver(_) => HttpMethod::Post,
            Endpoint::ShareRideLocation(_) => HttpMethod::Post,
            Endpoint::GetRide(_) => HttpMethod::Get,
            Endpoint::BroadcastAuth => HttpMethod::Post,
        }
    }

    /// The path of the operation's request, to be appended to the base URL.
    pub fn path(&self) -> (r: String)
        ensures
            r@ == self.spec_path(),
    {
        match self {
            Endpoint::Login => String::from_str("/api/v1/auth/login"),
            Endpoint::RegisterPassenger => String::from_str("/api/v1/auth/register/passenger"),
            Endpoint::RegisterDriver => String::from_str("/api/v1/auth/register/driver"),
            Endpoint::Refresh => String::from_str("/api/v1/auth/refresh"),
            Endpoint::Logout => String::from_str("/api/v1/auth/logout"),
            Endpoint::Me => String::from_str("/api/v1/me"),
            Endpoint::UpdateProfile => String::from_str("/api/v1/me"),
            Endpoint::RegisterVehicle => String::from_str("/api/v1/me/vehicle"),
            Endpoint::GetVehicle => String::from_str("/api/v1/me/vehicle"),
            Endpoint::UpdateVehicle => String::from_str("/api/v1/me/vehicle"),
            Endpoint::EstimateRide => String::from_str("/api/v1/rides/estimate"),
            Endpoint::RequestRide => String::from_str("/api/v1/rides"),
            Endpoint::CancelRide(ride_id) => ride_path_string(*ride_id, "/cancel"),
            Endpoint::AcceptRide(ride_id) => ride_path_string(*ride_id, "/accept"),
            Endpoint::StartRide(ride_id) => ride_path_string(*ride_id, "/start"),
            Endpoint::CompleteRide(ride_id) => ride_path_string(*ride_id, "/complete"),
            Endpoint::RateDriver(ride_id) => ride_path_string(*ride_id, "/rate-driver"),
            Endpoint::ShareRideLocation(ride_id) => ride_path_string(*ride_id, "/location"),
            Endpoint::GetRide(ride_id) => ride_path_string(*ride_id, ""),
            Endpoint::BroadcastAuth => String::from_str("/api/v1/broadcasting/auth"),
        }
    }
}

/// Replies to `POST /api/v1/auth/login` are read by their status: a 2xx gives
/// the result its body decoded to, or a network failure where it did not
/// decode; a 401 is `InvalidCredentials` with the error body's message; a 422
/// is `Validation` with the error body it carries; any other status is
/// unexpected; a request that was not sent is a network failure with the
/// transport's message.
pub proof fn login_replies_by_status(
    status: u16,
    data: Result<AuthenticatedUser, String>,
    error_body: Result<ApiErrorBody, String>,
    message: String,
)
    ensures
        login_reading(Exchange::<AuthenticatedUser>::NotSent(message)) == Err::<AuthenticatedUser, LoginError>(LoginError::Network(message)),
        200 <= status <= 299 && data is Ok ==> login_reading(Exchange::<AuthenticatedUser>::Replied { status, data, error_body }) == Ok::<AuthenticatedUser, LoginError>(data->Ok_0),
        200 <= status <= 299 && data is Err ==> login_reading(Exchange::<AuthenticatedUser>::Replied { status, data, error_body }) == Err::<AuthenticatedUser, LoginError>(LoginError::Network(data->Err_0)),
        status == 401 && error_body is Ok ==> login_reading(Exchange::<AuthenticatedUser>::Replied { status, data, error_body }) == Err::<AuthenticatedUser, LoginError>(LoginError::InvalidCredentials(error_body->Ok_0.message)),
        status == 401 && error_body is Err ==> login_reading(Exchange::<AuthenticatedUser>::Replied { status, data, error_body }) == Err::<AuthenticatedUser, LoginError>(LoginError::Network(error_body->Err_0)),
        status == 422 && error_body is Ok ==> login_reading(Exchange::<AuthenticatedUser>::Replied { status, data, error_body }) == Err::<AuthenticatedUser, LoginError>(LoginError::Validation(error_body->Ok_0)),
        status == 422 && error_body is Err ==> login_reading(Exchange::<AuthenticatedUser>::Replied { status, data, error_body }) == Err::<AuthenticatedUser, LoginError>(LoginError::Network(error_body->Err_0)),
        login_reading(Exchange::<AuthenticatedUser>::Replied { status, data, error_body }) is Err && login_reading(Exchange::<AuthenticatedUser>::Replied { status, data, error_body })->Err_0 is InvalidCredentials ==> status == 401,
        !(200 <= status <= 299) && status != 401 && status != 422 ==> login_reading(Exchange::<AuthenticatedUser>::Replied { status, data, error_body }) == Err::<AuthenticatedUser, LoginError>(LoginError::Unexpected(status)),
{
}

/// Replies to `POST /api/v1/auth/register/passenger` and `/driver` are read by
/// their status: a 2xx gives the result its body decoded to, or a network
/// failure where it did not decode; a 422 is `Validation` with the error body
/// it carries; any other status is unexpected; a request that was not sent is a
/// network failure with the transport's message.
pub proof fn registration_replies_by_status(
    status: u16,
    data: Result<AuthenticatedUser, String>,
    error_body: Result<ApiErrorBody, String>,
    message: String,
)
    ensures
        registration_reading(Exchange::<AuthenticatedUser>::NotSent(message)) == Err::<AuthenticatedUser, RegisterError>(RegisterError::Network(message)),
        200 <= status <= 299 && data is Ok ==> registration_reading(Exchange::<AuthenticatedUser>::Replied { status, data, error_body }) == Ok::<AuthenticatedUser, RegisterError>(data->Ok_0),
        200 <= status <= 299 && data is Err ==> registration_reading(Exchange::<AuthenticatedUser>::Replied { status, data, error_body }) == Err::<AuthenticatedUser, RegisterError>(RegisterError::Network(data->Err_0)),
        status == 422 && error_body is Ok ==> registration_reading(Exchange::<AuthenticatedUser>::Replied { status, data, error_body }) == Err::<AuthenticatedUser, RegisterError>(RegisterError::Validation(error_body->Ok_0)),
        status == 422 && error_body is Err ==> registration_reading(Exchange::<AuthenticatedUser>::Replied { status, data, error_body }) == Err::<AuthenticatedUser, RegisterError>(RegisterError::Network(error_body->Err_0)),
        !(200 <= status <= 299) && status != 422 ==> registration_reading(Exchange::<AuthenticatedUser>::Replied { status, data, error_body }) == Err::<AuthenticatedUser, RegisterError>(RegisterError::Unexpected(status)),
{
}

/// Replies to `POST /api/v1/auth/refresh` are read by their status: a 2xx gives
/// the result its body decoded to, or a network failure where it did not
/// decode; a 401 is `Unauthorized` with the error body's message; a 429 is
/// `RateLimited` whatever its body; any other status is unexpected; a request
/// that was not sent is a network failure with the transport's message.
pub proof fn refresh_replies_by_status(
    status: u16,
    data: Result<AuthToken, String>,
    error_body: Result<ApiErrorBody, String>,
    message: String,
)
    ensures
        refresh_reading(Exchange::<AuthToken>::NotSent(message)) == Err::<AuthToken, RefreshError>(RefreshError::Network(message)),
        200 <= status <= 299 && data is Ok ==> refresh_reading(Exchange::<AuthToken>::Replied { status, data, error_body }) == Ok::<AuthToken, RefreshError>(data->Ok_0),
        200 <= status <= 299 && data is Err ==> refresh_reading(Exchange::<AuthToken>::Replied { status, data, error_body }) == Err::<AuthToken, RefreshError>(RefreshError::Network(data->Err_0)),
        status == 401 && error_body is Ok ==> refresh_reading(Exchange::<AuthToken>::Replied { status, data, error_body }) == Err::<AuthToken, RefreshError>(RefreshError::Unauthorized(error_body->Ok_0.message)),
        status == 401 && error_body is Err ==> refresh_reading(Exchange::<AuthToken>::Replied { status, data, error_body }) == Err::<AuthToken, RefreshError>(RefreshError::Network(error_body->Err_0)),
        status == 429 ==> refresh_reading(Exchange::<AuthToken>::Replied { status, data, error_body }) == Err::<AuthToken, RefreshError>(RefreshError::RateLimited),
        !(200 <= status <= 299) && status != 401 && status != 429 ==> refresh_reading(Exchange::<AuthToken>::Replied { status, data, error_body }) == Err::<AuthToken, RefreshError>(RefreshError::Unexpected(status)),
{
}

/// Replies to `POST /api/v1/auth/logout` (a success has no body) are read by
/// their status: a 2xx gives the result (its body is not read); a 401 is
/// `Unauthorized` whatever its body; any other status is unexpected; a request
/// that was not sent is a network failure with the transport's message.
pub proof fn logout_replies_by_status(
    status: u16,
    data: Result<(), String>,
    error_body: Result<ApiErrorBody, String>,
    message: String,
)
    ensures
        logout_reading(Exchange::<()>::NotSent(message)) == Err::<(), LogoutError>(LogoutError::Network(message)),
        200 <= status <= 299 ==> logout_reading(Exchange::<()>::Replied { status, data, error_body }) == Ok::<(), LogoutError>(()),
        status == 401 ==> logout_reading(Exchange::<()>::Replied { status, data, error_body }) == Err::<(), LogoutError>(LogoutError::Unauthorized),
        !(200 <= status <= 299) && status != 401 ==> logout_reading(Exchange::<()>::Replied { status, data, error_body }) == Err::<(), LogoutError>(LogoutError::Unexpected(status)),
{
}

/// Replies to `POST /api/v1/broadcasting/auth` are read by their status: a 2xx
/// gives the result its body decoded to, or a network failure where it did not
/// decode; a 401 is `Unauthorized` whatever its body; a 403 is `Forbidden`
/// whatever its body; any other status is unexpected; a request that was not
/// sent is a network failure with the transport's message.
pub proof fn broadcast_auth_replies_by_status(
    status: u16,
    data: Result<BroadcastAuthResponse, String>,
    error_body: Result<ApiErrorBody, String>,
    message: String,
)
    ensures
        broadcast_auth_reading(Exchange::<BroadcastAuthResponse>::NotSent(message)) == Err::<BroadcastAuthResponse, BroadcastAuthError>(BroadcastAuthError::Network(message)),
        200 <= status <= 299 && data is Ok ==> broadcast_auth_reading(Exchange::<BroadcastAuthResponse>::Replied { status, data, error_body }) == Ok::<BroadcastAuthResponse, BroadcastAuthError>(data->Ok_0),
        200 <= status <= 299 && data is Err ==> broadcast_auth_reading(Exchange::<BroadcastAuthResponse>::Replied { status, data, error_body }) == Err::<BroadcastAuthResponse, BroadcastAuthError>(BroadcastAuthError::Network(data->Err_0)),
        status == 401 ==> broadcast_auth_reading(Exchange::<BroadcastAuthResponse>::Replied { status, data, error_body }) == Err::<BroadcastAuthResponse, BroadcastAuthError>(BroadcastAuthError::Unauthorized),
        status == 403 ==> broadcast_auth_reading(Exchange::<BroadcastAuthResponse>::Replied { status, data, error_body }) == Err::<BroadcastAuthResponse, BroadcastAuthError>(BroadcastAuthError::Forbidden),
        !(200 <= status <= 299) && status != 401 && status != 403 ==> broadcast_auth_reading(Exchange::<BroadcastAuthResponse>::Replied { status, data, error_body }) == Err::<BroadcastAuthResponse, BroadcastAuthError>(BroadcastAuthError::Unexpected(status)),
{
}

/// Replies to an authenticated `GET` of `/api/v1` (`GET /api/v1/me`, say) are
/// read by their status: a 2xx gives the result its body decoded to, or a
/// network failure where it did not decode; only a 401 asks for a renewed
/// token; any other status is unexpected; a request that was not sent is a
/// network failure with the transport's message.
pub proof fn authenticated_get_replies_by_status<T>(
    status: u16,
    data: Result<T, String>,
    error_body: Result<ApiErrorBody, String>,
    message: String,
)
    ensures
        authenticated_get_reading(Exchange::<T>::NotSent(message)) == AttemptOutcome::<T, AuthenticatedRequestError>::Failed(AuthenticatedRequestError::Network(message)),
        200 <= status <= 299 && data is Ok ==> authenticated_get_reading(Exchange::<T>::Replied { status, data, error_body }) == AttemptOutcome::<T, AuthenticatedRequestError>::Success(data->Ok_0),
        200 <= status <= 299 && data is Err ==> authenticated_get_reading(Exchange::<T>::Replied { status, data, error_body }) == AttemptOutcome::<T, AuthenticatedRequestError>::Failed(AuthenticatedRequestError::Network(data->Err_0)),
        authenticated_get_reading(Exchange::<T>::Replied { status, data, error_body }) is Unauthorized <==> status == 401,
        !(200 <= status <= 299) && status != 401 ==> authenticated_get_reading(Exchange::<T>::Replied { status, data, error_body }) == AttemptOutcome::<T, AuthenticatedRequestError>::Failed(AuthenticatedRequestError::Unexpected(status)),
{
}

/// Replies to `PATCH /api/v1/me` are read by their status: a 2xx gives the
/// result its body decoded to, or a network failure where it did not decode;
/// only a 401 asks for a renewed token; a 422 is `Validation` with the error
/// body it carries; any other status is unexpected; a request that was not sent
/// is a network failure with the transport's message.
pub proof fn update_profile_replies_by_status(
    status: u16,
    data: Result<User, String>,
    error_body: Result<ApiErrorBody, String>,
    message: String,
)
    ensures
        update_profile_reading(Exchange::<User>::NotSent(message)) == AttemptOutcome::<User, UpdateProfileError>::Failed(UpdateProfileError::Network(message)),
        200 <= status <= 299 && data is Ok ==> update_profile_reading(Exchange::<User>::Replied { status, data, error_body }) == AttemptOutcome::<User, UpdateProfileError>::Success(data->Ok_0),
        200 <= status <= 299 && data is Err ==> update_profile_reading(Exchange::<User>::Replied { status, data, error_body }) == AttemptOutcome::<User, UpdateProfileError>::Failed(UpdateProfileError::Network(data->Err_0)),
        update_profile_reading(Exchange::<User>::Replied { status, data, error_body }) is Unauthorized <==> status == 401,
        status == 422 && error_body is Ok ==> update_profile_reading(Exchange::<User>::Replied { status, data, error_body }) == AttemptOutcome::<User, UpdateProfileError>::Failed(UpdateProfileError::Validation(error_body->Ok_0)),
        status == 422 && error_body is Err ==> update_profile_reading(Exchange::<User>::Replied { status, data, error_body }) == AttemptOutcome::<User, UpdateProfileError>::Failed(UpdateProfileError::Network(error_body->Err_0)),
        !(200 <= status <= 299) && status != 401 && status != 422 ==> update_profile_reading(Exchange::<User>::Replied { status, data, error_body }) == AttemptOutcome::<User, UpdateProfileError>::Failed(UpdateProfileError::Unexpected(status)),
{
}

/// Replies to `POST /api/v1/me/vehicle` are read by their status: a 2xx gives
/// the result its body decoded to, or a network failure where it did not
/// decode; only a 401 asks for a renewed token; a 403 is `Forbidden` whatever
/// its body; a 422 is `Validation` with the error body it carries; any other
/// status is unexpected; a request that was not sent is a network failure with
/// the transport's message.
pub proof fn register_vehicle_replies_by_status(
    status: u16,
    data: Result<Vehicle, String>,
    error_body: Result<ApiErrorBody, String>,
    message: String,
)
    ensures
        register_vehicle_reading(Exchange::<Vehicle>::NotSent(message)) == AttemptOutcome::<Vehicle, RegisterVehicleError>::Failed(RegisterVehicleError::Network(message)),
        200 <= status <= 299 && data is Ok ==> register_vehicle_reading(Exchange::<Vehicle>::Replied { status, data, error_body }) == AttemptOutcome::<Vehicle, RegisterVehicleError>::Success(data->Ok_0),
        200 <= status <= 299 && data is Err ==> register_vehicle_reading(Exchange::<Vehicle>::Replied { status, data, error_body }) == AttemptOutcome::<Vehicle, RegisterVehicleError>::Failed(RegisterVehicleError::Network(data->Err_0)),
        register_vehicle_reading(Exchange::<Vehicle>::Replied { status, data, error_body }) is Unauthorized <==> status == 401,
        status == 403 ==> register_vehicle_reading(Exchange::<Vehicle>::Replied { status, data, error_body }) == AttemptOutcome::<Vehicle, RegisterVehicleError>::Failed(RegisterVehicleError::Forbidden),
        status == 422 && error_body is Ok ==> register_vehicle_reading(Exchange::<Vehicle>::Replied { status, data, error_body }) == AttemptOutcome::<Vehicle, RegisterVehicleError>::Failed(RegisterVehicleError::Validation(error_body->Ok_0)),
        status == 422 && error_body is Err ==> register_vehicle_reading(Exchange::<Vehicle>::Replied { status, data, error_body }) == AttemptOutcome::<Vehicle, RegisterVehicleError>::Failed(RegisterVehicleError::Network(error_body->Err_0)),
        !(200 <= status <= 299) && status != 401 && status != 403 && status != 422 ==> register_vehicle_reading(Exchange::<Vehicle>::Replied { status, data, error_body }) == AttemptOutcome::<Vehicle, RegisterVehicleError>::Failed(RegisterVehicleError::Unexpected(status)),
{
}

/// Replies to `GET /api/v1/me/vehicle` are read by their status: a 2xx gives
/// the result its body decoded to, or a network failure where it did not
/// decode; only a 401 asks for a renewed token; a 403 is `Forbidden` whatever
/// its body; a 404 is `NotFound` whatever its body; any other status is
/// unexpected; a request that was not sent is a network failure with the
/// transport's message.
pub proof fn get_vehicle_replies_by_status(
    status: u16,
    data: Result<Vehicle, String>,
    error_body: Result<ApiErrorBody, String>,
    message: String,
)
    ensures
        get_vehicle_reading(Exchange::<Vehicle>::NotSent(message)) == AttemptOutcome::<Vehicle, GetVehicleError>::Failed(GetVehicleError::Network(message)),
        200 <= status <= 299 && data is Ok ==> get_vehicle_reading(Exchange::<Vehicle>::Replied { status, data, error_body }) == AttemptOutcome::<Vehicle, GetVehicleError>::Success(data->Ok_0),
        200 <= status <= 299 && data is Err ==> get_vehicle_reading(Exchange::<Vehicle>::Replied { status, data, error_body }) == AttemptOutcome::<Vehicle, GetVehicleError>::Failed(GetVehicleError::Network(data->Err_0)),
        get_vehicle_reading(Exchange::<Vehicle>::Replied { status, data, error_body }) is Unauthorized <==> status == 401,
        status == 403 ==> get_vehicle_reading(Exchange::<Vehicle>::Replied { status, data, error_body }) == AttemptOutcome::<Vehicle, GetVehicleError>::Failed(GetVehicleError::Forbidden),
        status == 404 ==> get_vehicle_reading(Exchange::<Vehicle>::Replied { status, data, error_body }) == AttemptOutcome::<Vehicle, GetVehicleError>::Failed(GetVehicleError::NotFound),
        !(200 <= status <= 299) && status != 401 && status != 403 && status != 404 ==> get_vehicle_reading(Exchange::<Vehicle>::Replied { status, data, error_body }) == AttemptOutcome::<Vehicle, GetVehicleError>::Failed(GetVehicleError::Unexpected(status)),
{
}

/// Replies to `PATCH /api/v1/me/vehicle` are read by their status: a 2xx gives
/// the result its body decoded to, or a network failure where it did not
/// decode; only a 401 asks for a renewed token; a 403 is `Forbidden` whatever
/// its body; a 404 is `NotFound` whatever its body; a 422 is `Validation` with
/// the error body it carries; any other status is unexpected; a request that
/// was not sent is a network failure with the transport's message.
pub proof fn update_vehicle_replies_by_status(
    status: u16,
    data: Result<Vehicle, String>,
    error_body: Result<ApiErrorBody, String>,
    message: String,
)
    ensures
        update_vehicle_reading(Exchange::<Vehicle>::NotSent(message)) == AttemptOutcome::<Vehicle, UpdateVehicleError>::Failed(UpdateVehicleError::Network(message)),
        200 <= status <= 299 && data is Ok ==> update_vehicle_reading(Exchange::<Vehicle>::Replied { status, data, error_body }) == AttemptOutcome::<Vehicle, UpdateVehicleError>::Success(data->Ok_0),
        200 <= status <= 299 && data is Err ==> update_vehicle_reading(Exchange::<Vehicle>::Replied { status, data, error_body }) == AttemptOutcome::<Vehicle, UpdateVehicleError>::Failed(UpdateVehicleError::Network(data->Err_0)),
        update_vehicle_reading(Exchange::<Vehicle>::Replied { status, data, error_body }) is Unauthorized <==> status == 401,
        status == 403 ==> update_vehicle_reading(Exchange::<Vehicle>::Replied { status, data, error_body }) == AttemptOutcome::<Vehicle, UpdateVehicleError>::Failed(UpdateVehicleError::Forbidden),
        status == 404 ==> update_vehicle_reading(Exchange::<Vehicle>::Replied { status, data, error_body }) == AttemptOutcome::<Vehicle, UpdateVehicleError>::Failed(UpdateVehicleError::NotFound),
        status == 422 && error_body is Ok ==> update_vehicle_reading(Exchange::<Vehicle>::Replied { status, data, error_body }) == AttemptOutcome::<Vehicle, UpdateVehicleError>::Failed(UpdateVehicleError::Validation(error_body->Ok_0)),
        status == 422 && error_body is Err ==> update_vehicle_reading(Exchange::<Vehicle>::Replied { status, data, error_body }) == AttemptOutcome::<Vehicle, UpdateVehicleError>::Failed(UpdateVehicleError::Network(error_body->Err_0)),
        !(200 <= status <= 299) && status != 401 && status != 403 && status != 404 && status != 422 ==> update_vehicle_reading(Exchange::<Vehicle>::Replied { status, data, error_body }) == AttemptOutcome::<Vehicle, UpdateVehicleError>::Failed(UpdateVehicleError::Unexpected(status)),
{
}

/// Replies to `POST /api/v1/rides/estimate` are read by their status: a 2xx
/// gives the result its body decoded to, or a network failure where it did not
/// decode; only a 401 asks for a renewed token; a 422 is `Validation` with the
/// error body it carries; any other status is unexpected; a request that was
/// not sent is a network failure with the transport's message.
pub proof fn estimate_ride_replies_by_status(
    status: u16,
    data: Result<RideEstimate, String>,
    error_body: Result<ApiErrorBody, String>,
    message: String,
)
    ensures
        estimate_ride_reading(Exchange::<RideEstimate>::NotSent(message)) == AttemptOutcome::<RideEstimate, EstimateRideError>::Failed(EstimateRideError::Network(message)),
        200 <= status <= 299 && data is Ok ==> estimate_ride_reading(Exchange::<RideEstimate>::Replied { status, data, error_body }) == AttemptOutcome::<RideEstimate, EstimateRideError>::Success(data->Ok_0),
        200 <= status <= 299 && data is Err ==> estimate_ride_reading(Exchange::<RideEstimate>::Replied { status, data, error_body }) == AttemptOutcome::<RideEstimate, EstimateRideError>::Failed(EstimateRideError::Network(data->Err_0)),
        estimate_ride_reading(Exchange::<RideEstimate>::Replied { status, data, error_body }) is Unauthorized <==> status == 401,
        status == 422 && error_body is Ok ==> estimate_ride_reading(Exchange::<RideEstimate>::Replied { status, data, error_body }) == AttemptOutcome::<RideEstimate, EstimateRideError>::Failed(EstimateRideError::Validation(error_body->Ok_0)),
        status == 422 && error_body is Err ==> estimate_ride_reading(Exchange::<RideEstimate>::Replied { status, data, error_body }) == AttemptOutcome::<RideEstimate, EstimateRideError>::Failed(EstimateRideError::Network(error_body->Err_0)),
        !(200 <= status <= 299) && status != 401 && status != 422 ==> estimate_ride_reading(Exchange::<RideEstimate>::Replied { status, data, error_body }) == AttemptOutcome::<RideEstimate, EstimateRideError>::Failed(EstimateRideError::Unexpected(status)),
{
}

/// Replies to `POST /api/v1/rides` are read by their status: a 2xx gives the
/// result its body decoded to, or a network failure where it did not decode;
/// only a 401 asks for a renewed token; a 403 is `Forbidden` whatever its body;
/// a 422 is `Validation` with the error body it carries; any other status is
/// unexpected; a request that was not sent is a network failure with the
/// transport's message.
pub proof fn request_ride_replies_by_status(
    status: u16,
    data: Result<Ride, String>,
    error_body: Result<ApiErrorBody, String>,
    message: String,
)
    ensures
        request_ride_reading(Exchange::<Ride>::NotSent(message)) == AttemptOutcome::<Ride, RequestRideError>::Failed(RequestRideError::Network(message)),
        200 <= status <= 299 && data is Ok ==> request_ride_reading(Exchange::<Ride>::Replied { status, data, error_body }) == AttemptOutcome::<Ride, RequestRideError>::Success(data->Ok_0),
        200 <= status <= 299 && data is Err ==> request_ride_reading(Exchange::<Ride>::Replied { status, data, error_body }) == AttemptOutcome::<Ride, RequestRideError>::Failed(RequestRideError::Network(data->Err_0)),
        request_ride_reading(Exchange::<Ride>::Replied { status, data, error_body }) is Unauthorized <==> status == 401,
        status == 403 ==> request_ride_reading(Exchange::<Ride>::Replied { status, data, error_body }) == AttemptOutcome::<Ride, RequestRideError>::Failed(RequestRideError::Forbidden),
        status == 422 && error_body is Ok ==> request_ride_reading(Exchange::<Ride>::Replied { status, data, error_body }) == AttemptOutcome::<Ride, RequestRideError>::Failed(RequestRideError::Validation(error_body->Ok_0)),
        status == 422 && error_body is Err ==> request_ride_reading(Exchange::<Ride>::Replied { status, data, error_body }) == AttemptOutcome::<Ride, RequestRideError>::Failed(RequestRideError::Network(error_body->Err_0)),
        !(200 <= status <= 299) && status != 401 && status != 403 && status != 422 ==> request_ride_reading(Exchange::<Ride>::Replied { status, data, error_body }) == AttemptOutcome::<Ride, RequestRideError>::Failed(RequestRideError::Unexpected(status)),
{
}

/// Replies to `POST /api/v1/rides/{ride}/cancel` are read by their status: a
/// 2xx gives the result its body decoded to, or a network failure where it did
/// not decode; only a 401 asks for a renewed token; a 403 is `Forbidden`
/// whatever its body; a 404 is `NotFound` whatever its body; a 422 is
/// `Validation` with the error body it carries; any other status is unexpected;
/// a request that was not sent is a network failure with the transport's
/// message.
pub proof fn cancel_ride_replies_by_status(
    status: u16,
    data: Result<RideCancellation, String>,
    error_body: Result<ApiErrorBody, String>,
    message: String,
)
    ensures
        cancel_ride_reading(Exchange::<RideCancellation>::NotSent(message)) == AttemptOutcome::<RideCancellation, CancelRideError>::Failed(CancelRideError::Network(message)),
        200 <= status <= 299 && data is Ok ==> cancel_ride_reading(Exchange::<RideCancellation>::Replied { status, data, error_body }) == AttemptOutcome::<RideCancellation, CancelRideError>::Success(data->Ok_0),
        200 <= status <= 299 && data is Err ==> cancel_ride_reading(Exchange::<RideCancellation>::Replied { status, data, error_body }) == AttemptOutcome::<RideCancellation, CancelRideError>::Failed(CancelRideError::Network(data->Err_0)),
        cancel_ride_reading(Exchange::<RideCancellation>::Replied { status, data, error_body }) is Unauthorized <==> status == 401,
        status == 403 ==> cancel_ride_reading(Exchange::<RideCancellation>::Replied { status, data, error_body }) == AttemptOutcome::<RideCancellation, CancelRideError>::Failed(CancelRideError::Forbidden),
        status == 404 ==> cancel_ride_reading(Exchange::<RideCancellation>::Replied { status, data, error_body }) == AttemptOutcome::<RideCancellation, CancelRideError>::Failed(CancelRideError::NotFound),
        status == 422 && error_body is Ok ==> cancel_ride_reading(Exchange::<RideCancellation>::Replied { status, data, error_body }) == AttemptOutcome::<RideCancellation, CancelRideError>::Failed(CancelRideError::Validation(error_body->Ok_0)),
        status == 422 && error_body is Err ==> cancel_ride_reading(Exchange::<RideCancellation>::Replied { status, data, error_body }) == AttemptOutcome::<RideCancellation, CancelRideError>::Failed(CancelRideError::Network(error_body->Err_0)),
        !(200 <= status <= 299) && status != 401 && status != 403 && status != 404 && status != 422 ==> cancel_ride_reading(Exchange::<RideCancellation>::Replied { status, data, error_body }) == AttemptOutcome::<RideCancellation, CancelRideError>::Failed(CancelRideError::Unexpected(status)),
{
}

/// Replies to `POST /api/v1/rides/{ride}/accept` are read by their status: a
/// 2xx gives the result its body decoded to, or a network failure where it did
/// not decode; only a 401 asks for a renewed token; a 403 is `Forbidden`
/// whatever its body; a 404 is `NotFound` whatever its body; a 409 is
/// `Conflict` whatever its body; a 422 is `Validation` with the error body it
/// carries; any other status is unexpected; a request that was not sent is a
/// network failure with the transport's message.
pub proof fn accept_ride_replies_by_status(
    status: u16,
    data: Result<Ride, String>,
    error_body: Result<ApiErrorBody, String>,
    message: String,
)
    ensures
        accept_ride_reading(Exchange::<Ride>::NotSent(message)) == AttemptOutcome::<Ride, AcceptRideError>::Failed(AcceptRideError::Network(message)),
        200 <= status <= 299 && data is Ok ==> accept_ride_reading(Exchange::<Ride>::Replied { status, data, error_body }) == AttemptOutcome::<Ride, AcceptRideError>::Success(data->Ok_0),
        200 <= status <= 299 && data is Err ==> accept_ride_reading(Exchange::<Ride>::Replied { status, data, error_body }) == AttemptOutcome::<Ride, AcceptRideError>::Failed(AcceptRideError::Network(data->Err_0)),
        accept_ride_reading(Exchange::<Ride>::Replied { status, data, error_body }) is Unauthorized <==> status == 401,
        status == 403 ==> accept_ride_reading(Exchange::<Ride>::Replied { status, data, error_body }) == AttemptOutcome::<Ride, AcceptRideError>::Failed(AcceptRideError::Forbidden),
        status == 404 ==> accept_ride_reading(Exchange::<Ride>::Replied { status, data, error_body }) == AttemptOutcome::<Ride, AcceptRideError>::Failed(AcceptRideError::NotFound),
        status == 409 ==> accept_ride_reading(Exchange::<Ride>::Replied { status, data, error_body }) == AttemptOutcome::<Ride, AcceptRideError>::Failed(AcceptRideError::Conflict),
        status == 422 && error_body is Ok ==> accept_ride_reading(Exchange::<Ride>::Replied { status, data, error_body }) == AttemptOutcome::<Ride, AcceptRideError>::Failed(AcceptRideError::Validation(error_body->Ok_0)),
        status == 422 && error_body is Err ==> accept_ride_reading(Exchange::<Ride>::Replied { status, data, error_body }) == AttemptOutcome::<Ride, AcceptRideError>::Failed(AcceptRideError::Network(error_body->Err_0)),
        !(200 <= status <= 299) && status != 401 && status != 403 && status != 404 && status != 409 && status != 422 ==> accept_ride_reading(Exchange::<Ride>::Replied { status, data, error_body }) == AttemptOutcome::<Ride, AcceptRideError>::Failed(AcceptRideError::Unexpected(status)),
{
}

/// Replies to `POST /api/v1/rides/{ride}/start` are read by their status: a 2xx
/// gives the result its body decoded to, or a network failure where it did not
/// decode; only a 401 asks for a renewed token; a 403 is `Forbidden` whatever
/// its body; a 404 is `NotFound` whatever its body; a 422 is `Validation` with
/// the error body it carries; any other status is unexpected; a request that
/// was not sent is a network failure with the transport's message.
pub proof fn start_ride_replies_by_status(
    status: u16,
    data: Result<Ride, String>,
    error_body: Result<ApiErrorBody, String>,
    message: String,
)
    ensures
        start_ride_reading(Exchange::<Ride>::NotSent(message)) == AttemptOutcome::<Ride, StartRideError>::Failed(StartRideError::Network(message)),
        200 <= status <= 299 && data is Ok ==> start_ride_reading(Exchange::<Ride>::Replied { status, data, error_body }) == AttemptOutcome::<Ride, StartRideError>::Success(data->Ok_0),
        200 <= status <= 299 && data is Err ==> start_ride_reading(Exchange::<Ride>::Replied { status, data, error_body }) == AttemptOutcome::<Ride, StartRideError>::Failed(StartRideError::Network(data->Err_0)),
        start_ride_reading(Exchange::<Ride>::Replied { status, data, error_body }) is Unauthorized <==> status == 401,
        status == 403 ==> start_ride_reading(Exchange::<Ride>::Replied { status, data, error_body }) == AttemptOutcome::<Ride, StartRideError>::Failed(StartRideError::Forbidden),
        status == 404 ==> start_ride_reading(Exchange::<Ride>::Replied { status, data, error_body }) == AttemptOutcome::<Ride, StartRideError>::Failed(StartRideError::NotFound),
        status == 422 && error_body is Ok ==> start_ride_reading(Exchange::<Ride>::Replied { status, data, error_body }) == AttemptOutcome::<Ride, StartRideError>::Failed(StartRideError::Validation(error_body->Ok_0)),
        status == 422 && error_body is Err ==> start_ride_reading(Exchange::<Ride>::Replied { status, data, error_body }) == AttemptOutcome::<Ride, StartRideError>::Failed(StartRideError::Network(error_body->Err_0)),
        !(200 <= status <= 299) && status != 401 && status != 403 && status != 404 && status != 422 ==> start_ride_reading(Exchange::<Ride>::Replied { status, data, error_body }) == AttemptOutcome::<Ride, StartRideError>::Failed(StartRideError::Unexpected(status)),
{
}

/// Replies to `POST /api/v1/rides/{ride}/complete` are read by their status: a
/// 2xx gives the result its body decoded to, or a network failure where it did
/// not decode; only a 401 asks for a renewed token; a 403 is `Forbidden`
/// whatever its body; a 404 is `NotFound` whatever its body; a 422 is
/// `Validation` with the error body it carries; any other status is unexpected;
/// a request that was not sent is a network failure with the transport's
/// message.
pub proof fn complete_ride_replies_by_status(
    status: u16,
    data: Result<Ride, String>,
    error_body: Result<ApiErrorBody, String>,
    message: String,
)
    ensures
        complete_ride_reading(Exchange::<Ride>::NotSent(message)) == AttemptOutcome::<Ride, CompleteRideError>::Failed(CompleteRideError::Network(message)),
        200 <= status <= 299 && data is Ok ==> complete_ride_reading(Exchange::<Ride>::Replied { status, data, error_body }) == AttemptOutcome::<Ride, CompleteRideError>::Success(data->Ok_0),
        200 <= status <= 299 && data is Err ==> complete_ride_reading(Exchange::<Ride>::Replied { status, data, error_body }) == AttemptOutcome::<Ride, CompleteRideError>::Failed(CompleteRideError::Network(data->Err_0)),
        complete_ride_reading(Exchange::<Ride>::Replied { status, data, error_body }) is Unauthorized <==> status == 401,
        status == 403 ==> complete_ride_reading(Exchange::<Ride>::Replied { status, data, error_body }) == AttemptOutcome::<Ride, CompleteRideError>::Failed(CompleteRideError::Forbidden),
        status == 404 ==> complete_ride_reading(Exchange::<Ride>::Replied { status, data, error_body }) == AttemptOutcome::<Ride, CompleteRideError>::Failed(CompleteRideError::NotFound),
        status == 422 && error_body is Ok ==> complete_ride_reading(Exchange::<Ride>::Replied { status, data, error_body }) == AttemptOutcome::<Ride, CompleteRideError>::Failed(CompleteRideError::Validation(error_body->Ok_0)),
        status == 422 && error_body is Err ==> complete_ride_reading(Exchange::<Ride>::Replied { status, data, error_body }) == AttemptOutcome::<Ride, CompleteRideError>::Failed(CompleteRideError::Network(error_body->Err_0)),
        !(200 <= status <= 299) && status != 401 && status != 403 && status != 404 && status != 422 ==> complete_ride_reading(Exchange::<Ride>::Replied { status, data, error_body }) == AttemptOutcome::<Ride, CompleteRideError>::Failed(CompleteRideError::Unexpected(status)),
{
}

/// Replies to `POST /api/v1/rides/{ride}/rate-driver` are read by their status:
/// a 2xx gives the result its body decoded to, or a network failure where it
/// did not decode; only a 401 asks for a renewed token; a 403 is `Forbidden`
/// whatever its body; a 404 is `NotFound` whatever its body; a 422 is
/// `Validation` with the error body it carries; any other status is unexpected;
/// a request that was not sent is a network failure with the transport's
/// message.
pub proof fn rate_driver_replies_by_status(
    status: u16,
    data: Result<RideRating, String>,
    error_body: Result<ApiErrorBody, String>,
    message: String,
)
    ensures
        rate_driver_reading(Exchange::<RideRating>::NotSent(message)) == AttemptOutcome::<RideRating, RateDriverError>::Failed(RateDriverError::Network(message)),
        200 <= status <= 299 && data is Ok ==> rate_driver_reading(Exchange::<RideRating>::Replied { status, data, error_body }) == AttemptOutcome::<RideRating, RateDriverError>::Success(data->Ok_0),
        200 <= status <= 299 && data is Err ==> rate_driver_reading(Exchange::<RideRating>::Replied { status, data, error_body }) == AttemptOutcome::<RideRating, RateDriverError>::Failed(RateDriverError::Network(data->Err_0)),
        rate_driver_reading(Exchange::<RideRating>::Replied { status, data, error_body }) is Unauthorized <==> status == 401,
        status == 403 ==> rate_driver_reading(Exchange::<RideRating>::Replied { status, data, error_body }) == AttemptOutcome::<RideRating, RateDriverError>::Failed(RateDriverError::Forbidden),
        status == 404 ==> rate_driver_reading(Exchange::<RideRating>::Replied { status, data, error_body }) == AttemptOutcome::<RideRating, RateDriverError>::Failed(RateDriverError::NotFound),
        status == 422 && error_body is Ok ==> rate_driver_reading(Exchange::<RideRating>::Replied { status, data, error_body }) == AttemptOutcome::<RideRating, RateDriverError>::Failed(RateDriverError::Validation(error_body->Ok_0)),
        status == 422 && error_body is Err ==> rate_driver_reading(Exchange::<RideRating>::Replied { status, data, error_body }) == AttemptOutcome::<RideRating, RateDriverError>::Failed(RateDriverError::Network(error_body->Err_0)),
        !(200 <= status <= 299) && status != 401 && status != 403 && status != 404 && status != 422 ==> rate_driver_reading(Exchange::<RideRating>::Replied { status, data, error_body }) == AttemptOutcome::<RideRating, RateDriverError>::Failed(RateDriverError::Unexpected(status)),
{
}

/// Replies to `POST /api/v1/rides/{ride}/location` (a success has no body) are
/// read by their status: a 2xx gives the result (its body is not read); only a
/// 401 asks for a renewed token; a 403 is `Forbidden` whatever its body; a 404
/// is `NotFound` whatever its body; a 422 is `Validation` with the error body
/// it carries; any other status is unexpected; a request that was not sent is a
/// network failure with the transport's message.
pub proof fn share_ride_location_replies_by_status(
    status: u16,
    data: Result<(), String>,
    error_body: Result<ApiErrorBody, String>,
    message: String,
)
    ensures
        share_ride_location_reading(Exchange::<()>::NotSent(message)) == AttemptOutcome::<(), ShareRideLocationError>::Failed(ShareRideLocationError::Network(message)),
        200 <= status <= 299 ==> share_ride_location_reading(Exchange::<()>::Replied { status, data, error_body }) == AttemptOutcome::<(), ShareRideLocationError>::Success(()),
        share_ride_location_reading(Exchange::<()>::Replied { status, data, error_body }) is Unauthorized <==> status == 401,
        status == 403 ==> share_ride_location_reading(Exchange::<()>::Replied { status, data, error_body }) == AttemptOutcome::<(), ShareRideLocationError>::Failed(ShareRideLocationError::Forbidden),
        status == 404 ==> share_ride_location_reading(Exchange::<()>::Replied { status, data, error_body }) == AttemptOutcome::<(), ShareRideLocationError>::Failed(ShareRideLocationError::NotFound),
        status == 422 && error_body is Ok ==> share_ride_location_reading(Exchange::<()>::Replied { status, data, error_body }) == AttemptOutcome::<(), ShareRideLocationError>::Failed(ShareRideLocationError::Validation(error_body->Ok_0)),
        status == 422 && error_body is Err ==> share_ride_location_reading(Exchange::<()>::Replied { status, data, error_body }) == AttemptOutcome::<(), ShareRideLocationError>::Failed(ShareRideLocationError::Network(error_body->Err_0)),
        !(200 <= status <= 299) && status != 401 && status != 403 && status != 404 && status != 422 ==> share_ride_location_reading(Exchange::<()>::Replied { status, data, error_body }) == AttemptOutcome::<(), ShareRideLocationError>::Failed(ShareRideLocationError::Unexpected(status)),
{
}

/// Replies to `GET /api/v1/rides/{ride}` are read by their status: a 2xx gives
/// the result its body decoded to, or a network failure where it did not
/// decode; only a 401 asks for a renewed token; a 403 is `Forbidden` whatever
/// its body; a 404 is `NotFound` whatever its body; any other status is
/// unexpected; a request that was not sent is a network failure with the
/// transport's message.
pub proof fn get_ride_replies_by_status(
    status: u16,
    data: Result<Ride, String>,
    error_body: Result<ApiErrorBody, String>,
    message: String,
)
    ensures
        get_ride_reading(Exchange::<Ride>::NotSent(message)) == AttemptOutcome::<Ride, GetRideError>::Failed(GetRideError::Network(message)),
        200 <= status <= 299 && data is Ok ==> get_ride_reading(Exchange::<Ride>::Replied { status, data, error_body }) == AttemptOutcome::<Ride, GetRideError>::Success(data->Ok_0),
        200 <= status <= 299 && data is Err ==> get_ride_reading(Exchange::<Ride>::Replied { status, data, error_body }) == AttemptOutcome::<Ride, GetRideError>::Failed(GetRideError::Network(data->Err_0)),
        get_ride_reading(Exchange::<Ride>::Replied { status, data, error_body }) is Unauthorized <==> status == 401,
        status == 403 ==> get_ride_reading(Exchange::<Ride>::Replied { status, data, error_body }) == AttemptOutcome::<Ride, GetRideError>::Failed(GetRideError::Forbidden),
        status == 404 ==> get_ride_reading(Exchange::<Ride>::Replied { status, data, error_body }) == AttemptOutcome::<Ride, GetRideError>::Failed(GetRideError::NotFound),
        !(200 <= status <= 299) && status != 401 && status != 403 && status != 404 ==> get_ride_reading(Exchange::<Ride>::Replied { status, data, error_body }) == AttemptOutcome::<Ride, GetRideError>::Failed(GetRideError::Unexpected(status)),
{
}

} // verus!
