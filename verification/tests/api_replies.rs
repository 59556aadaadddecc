use moto_core::api::errors::{
    AcceptRideError, AuthenticatedRequestError, BroadcastAuthError, CancelRideError,
    GetRideError, GetVehicleError, LoginError, LogoutError, RefreshError, RegisterError,
    RegisterVehicleError, ShareRideLocationError, UpdateProfileError,
};
use moto_core::api::exchange::{
    read_accept_ride, read_authenticated_get, read_broadcast_auth, read_cancel_ride,
    read_get_ride, read_get_vehicle, read_login, read_logout, read_refresh, read_registration,
    read_register_vehicle, read_share_ride_location, read_update_profile, Endpoint, Exchange,
    HttpMethod,
};
use moto_core::api::retry::{AfterFirstAttempt, AttemptOutcome, FirstAttempt};
use moto_core::models::{
    ApiErrorBody, AuthToken, AuthenticatedUser, BroadcastAuthResponse, FieldError, Role, User,
    Vehicle, VehicleType,
};

fn sample_token() -> AuthToken {
    AuthToken {
        access_token: "jwt-token".to_string(),
        token_type: "bearer".to_string(),
        expires_in: Some(900),
    }
}

fn renewed_token() -> AuthToken {
    AuthToken {
        access_token: "new-jwt-token".to_string(),
        ..sample_token()
    }
}

fn sample_user() -> User {
    User {
        id: 1,
        name: "Ana Garcia".to_string(),
        email: "ana@example.com".to_string(),
        phone: "+573001234567".to_string(),
        phone_verified: false,
        role: Role::Passenger,
    }
}

fn error_body(message: &str) -> ApiErrorBody {
    ApiErrorBody {
        message: message.to_string(),
        errors: None,
    }
}

/// A reply whose body decoded as the result.
fn with_data<T>(status: u16, data: T) -> Exchange<T> {
    Exchange::Replied {
        status,
        data: Ok(data),
        error_body: Err("missing field `message`".to_string()),
    }
}

/// A reply whose body decoded as an error body.
fn with_error<T>(status: u16, body: ApiErrorBody) -> Exchange<T> {
    Exchange::Replied {
        status,
        data: Err("missing field `data`".to_string()),
        error_body: Ok(body),
    }
}

fn unreachable<T>() -> Exchange<T> {
    Exchange::NotSent("error sending request".to_string())
}

fn vehicle() -> Vehicle {
    Vehicle {
        plate: "ABC12D".to_string(),
        vehicle_type: VehicleType::Motocarro,
        year: 2022,
    }
}

#[test]
fn login_returns_authenticated_user_on_success() {
    let authenticated = AuthenticatedUser {
        user: sample_user(),
        token: sample_token(),
    };
    assert_eq!(
        read_login(with_data(200, authenticated.clone())),
        Ok(authenticated)
    );
}

#[test]
fn login_returns_invalid_credentials_on_401() {
    assert_eq!(
        read_login(with_error(401, error_body("El email o la contrasena no son correctos."))),
        Err(LoginError::InvalidCredentials(
            "El email o la contrasena no son correctos.".to_string()
        ))
    );
}

#[test]
fn login_returns_network_error_when_server_is_unreachable() {
    assert!(matches!(read_login(unreachable()), Err(LoginError::Network(_))));
}

#[test]
fn login_reads_other_statuses_as_unexpected() {
    assert_eq!(
        read_login(with_error(500, error_body("Server Error"))),
        Err(LoginError::Unexpected(500))
    );
}

#[test]
fn register_passenger_returns_validation_error_on_422() {
    let body = ApiErrorBody {
        message: "The email has already been taken.".to_string(),
        errors: Some(vec![FieldError {
            field: "email".to_string(),
            messages: vec!["The email has already been taken.".to_string()],
        }]),
    };
    let error = read_registration(with_error(422, body.clone())).unwrap_err();

    assert_eq!(error, RegisterError::Validation(body));
    assert_eq!(
        error.field_message("email"),
        Some("The email has already been taken.".to_string())
    );
    assert_eq!(error.field_message("phone"), None);
}

#[test]
fn register_driver_returns_validation_error_on_422() {
    let body = ApiErrorBody {
        message: "The license number has already been taken.".to_string(),
        errors: Some(vec![FieldError {
            field: "license_number".to_string(),
            messages: vec!["The license number has already been taken.".to_string()],
        }]),
    };
    let error = read_registration(with_error(422, body)).unwrap_err();

    assert_eq!(
        error.field_message("license_number"),
        Some("The license number has already been taken.".to_string())
    );
}

#[test]
fn register_passenger_returns_network_error_when_server_is_unreachable() {
    assert!(matches!(
        read_registration(unreachable()),
        Err(RegisterError::Network(_))
    ));
}

#[test]
fn a_success_whose_body_does_not_decode_is_a_network_error() {
    let reply: Exchange<AuthenticatedUser> = Exchange::Replied {
        status: 201,
        data: Err("invalid type".to_string()),
        error_body: Err("invalid type".to_string()),
    };
    assert_eq!(
        read_registration(reply),
        Err(RegisterError::Network("invalid type".to_string()))
    );
}

#[test]
fn refresh_returns_a_new_token_on_success() {
    assert_eq!(read_refresh(with_data(200, renewed_token())), Ok(renewed_token()));
}

#[test]
fn refresh_returns_unauthorized_when_outside_the_refresh_window() {
    assert_eq!(
        read_refresh(with_error(401, error_body("El token no es valido o ya expiro."))),
        Err(RefreshError::Unauthorized(
            "El token no es valido o ya expiro.".to_string()
        ))
    );
}

#[test]
fn refresh_returns_rate_limited_on_429() {
    assert_eq!(
        read_refresh(with_error(429, error_body("Too Many Attempts."))),
        Err(RefreshError::RateLimited)
    );
}

#[test]
fn logout_succeeds_on_204() {
    let reply: Exchange<()> = Exchange::Replied {
        status: 204,
        data: Err("EOF while parsing".to_string()),
        error_body: Err("EOF while parsing".to_string()),
    };
    assert_eq!(read_logout(reply), Ok(()));
}

#[test]
fn logout_returns_unauthorized_on_401() {
    assert_eq!(
        read_logout(with_error(401, error_body("Unauthenticated."))),
        Err(LogoutError::Unauthorized)
    );
}

#[test]
fn logout_returns_network_error_when_server_is_unreachable() {
    assert!(matches!(read_logout(unreachable()), Err(LogoutError::Network(_))));
}

#[test]
fn get_authenticated_returns_data_without_refreshing_when_token_is_valid() {
    let first = FirstAttempt::new(&sample_token());
    assert_eq!(first.access_token(), "jwt-token");

    match first.finish(read_authenticated_get(with_data(200, sample_user()))) {
        AfterFirstAttempt::Done(Ok(fetch)) => {
            assert_eq!(fetch.data, sample_user());
            assert_eq!(fetch.refreshed_token, None);
        }
        _ => panic!("the first try should have ended the request"),
    }
}

#[test]
fn get_authenticated_refreshes_once_and_retries_on_401() {
    let first = FirstAttempt::new(&sample_token());
    let outcome = read_authenticated_get::<User>(with_error(401, error_body("Unauthenticated.")));
    assert_eq!(outcome, AttemptOutcome::Unauthorized);

    let pending = match first.finish(outcome) {
        AfterFirstAttempt::Refresh(pending) => pending,
        _ => panic!("a 401 should ask for a renewal"),
    };
    assert_eq!(pending.access_token(), "jwt-token");

    let refreshed = read_refresh(with_data(200, renewed_token()));
    let retry = pending
        .finish::<AuthenticatedRequestError>(refreshed)
        .unwrap();
    assert_eq!(retry.access_token(), "new-jwt-token");

    let fetch = retry
        .finish(read_authenticated_get(with_data(200, sample_user())))
        .unwrap();
    assert_eq!(fetch.data, sample_user());
    assert_eq!(fetch.refreshed_token, Some(renewed_token()));
}

#[test]
fn get_authenticated_forces_session_expired_when_refresh_also_fails() {
    let first = FirstAttempt::new(&sample_token());
    let pending = match first.finish(read_authenticated_get::<User>(with_error(
        401,
        error_body("Unauthenticated."),
    ))) {
        AfterFirstAttempt::Refresh(pending) => pending,
        _ => panic!("a 401 should ask for a renewal"),
    };

    let refreshed = read_refresh(with_error(401, error_body("El token no es valido o ya expiro.")));

    assert_eq!(
        pending.finish::<AuthenticatedRequestError>(refreshed).unwrap_err(),
        AuthenticatedRequestError::SessionExpired
    );
}

#[test]
fn a_second_401_expires_the_session_without_a_third_try() {
    let first = FirstAttempt::new(&sample_token());
    let pending = match first.finish(read_update_profile(with_error(401, error_body("Unauthenticated.")))) {
        AfterFirstAttempt::Refresh(pending) => pending,
        _ => panic!("a 401 should ask for a renewal"),
    };
    let retry = pending
        .finish::<UpdateProfileError>(Ok(renewed_token()))
        .unwrap();

    assert_eq!(
        retry.finish(read_update_profile(with_error(401, error_body("Unauthenticated.")))),
        Err(UpdateProfileError::SessionExpired)
    );
}

#[test]
fn update_profile_returns_validation_error_on_422_without_retrying() {
    let body = error_body("The email has already been taken.");
    let first = FirstAttempt::new(&sample_token());
    match first.finish(read_update_profile(with_error(422, body.clone()))) {
        AfterFirstAttempt::Done(result) => {
            assert_eq!(result, Err(UpdateProfileError::Validation(body)))
        }
        _ => panic!("a 422 is never retried"),
    }
}

#[test]
fn register_vehicle_returns_forbidden_on_403_without_retrying() {
    let first = FirstAttempt::new(&sample_token());
    match first.finish(read_register_vehicle(with_error(403, error_body("This action is unauthorized.")))) {
        AfterFirstAttempt::Done(result) => assert_eq!(result, Err(RegisterVehicleError::Forbidden)),
        _ => panic!("a 403 is never retried"),
    }
}

#[test]
fn get_vehicle_returns_the_registered_vehicle() {
    assert_eq!(
        read_get_vehicle(with_data(200, vehicle())),
        AttemptOutcome::Success(vehicle())
    );
}

#[test]
fn get_vehicle_returns_not_found_when_the_driver_has_no_vehicle() {
    assert_eq!(
        read_get_vehicle(with_error(404, error_body("No tienes un vehiculo registrado."))),
        AttemptOutcome::Failed(GetVehicleError::NotFound)
    );
}

#[test]
fn cancel_ride_returns_not_found_on_404_without_retrying() {
    assert_eq!(
        read_cancel_ride(with_error(404, error_body("No query results for model [App\\Models\\Ride] 999."))),
        AttemptOutcome::Failed(CancelRideError::NotFound)
    );
}

#[test]
fn accept_ride_returns_conflict_on_409_when_another_driver_accepted_first() {
    assert_eq!(
        read_accept_ride(with_error(409, error_body("Este viaje ya no está disponible."))),
        AttemptOutcome::Failed(AcceptRideError::Conflict)
    );
}

#[test]
fn share_ride_location_succeeds_on_204() {
    let reply: Exchange<()> = Exchange::Replied {
        status: 204,
        data: Err("EOF while parsing".to_string()),
        error_body: Err("EOF while parsing".to_string()),
    };
    assert_eq!(read_share_ride_location(reply), AttemptOutcome::Success(()));
    assert_eq!(
        read_share_ride_location(unreachable()),
        AttemptOutcome::Failed(ShareRideLocationError::Network(
            "error sending request".to_string()
        ))
    );
}

#[test]
fn get_ride_returns_forbidden_on_403_without_retrying() {
    assert_eq!(
        read_get_ride(with_error(403, error_body("This action is unauthorized."))),
        AttemptOutcome::Failed(GetRideError::Forbidden)
    );
}

#[test]
fn authenticate_broadcast_channel_returns_the_signature_on_success() {
    let signature = BroadcastAuthResponse {
        auth: "motoya-local:8f3c1a2b4d5e6f70".to_string(),
    };
    assert_eq!(read_broadcast_auth(with_data(200, signature.clone())), Ok(signature));
}

#[test]
fn authenticate_broadcast_channel_returns_unauthorized_on_401() {
    assert_eq!(
        read_broadcast_auth(with_error(401, error_body("Unauthenticated."))),
        Err(BroadcastAuthError::Unauthorized)
    );
}

#[test]
fn authenticate_broadcast_channel_returns_forbidden_on_403() {
    assert_eq!(
        read_broadcast_auth(with_error(403, error_body("This action is unauthorized."))),
        Err(BroadcastAuthError::Forbidden)
    );
}

#[test]
fn endpoints_have_the_backend_paths_and_methods() {
    assert_eq!(Endpoint::Login.path(), "/api/v1/auth/login");
    assert_eq!(Endpoint::Login.method(), HttpMethod::Post);
    assert_eq!(Endpoint::Me.path(), "/api/v1/me");
    assert_eq!(Endpoint::UpdateProfile.method(), HttpMethod::Patch);
    assert_eq!(Endpoint::GetVehicle.path(), "/api/v1/me/vehicle");
    assert_eq!(Endpoint::CancelRide(1).path(), "/api/v1/rides/1/cancel");
    assert_eq!(Endpoint::RateDriver(999).path(), "/api/v1/rides/999/rate-driver");
    assert_eq!(Endpoint::GetRide(1).path(), "/api/v1/rides/1");
    assert_eq!(Endpoint::GetRide(1).method(), HttpMethod::Get);
    assert_eq!(Endpoint::ShareRideLocation(18446744073709551615).path(), "/api/v1/rides/18446744073709551615/location");
    assert_eq!(Endpoint::BroadcastAuth.path(), "/api/v1/broadcasting/auth");
}
