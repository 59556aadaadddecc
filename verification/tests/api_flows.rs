use moto_core::api::errors::{
    AcceptRideError, AuthenticatedRequestError, BroadcastAuthError, CancelRideError,
    CompleteRideError, EstimateRideError, GetRideError, GetVehicleError, RateDriverError,
    RegisterError, RegisterVehicleError, RequestRideError, ShareRideLocationError,
    StartRideError, UpdateProfileError, UpdateVehicleError,
};
use moto_core::api::exchange::{
    read_accept_ride, read_authenticated_get, read_broadcast_auth, read_cancel_ride,
    read_complete_ride, read_estimate_ride, read_get_ride, read_get_vehicle, read_rate_driver,
    read_refresh, read_register_vehicle, read_registration, read_request_ride,
    read_share_ride_location, read_start_ride, read_update_profile, read_update_vehicle,
    Endpoint, Exchange,
};
use moto_core::api::retry::{
    AfterFirstAttempt, AttemptOutcome, AuthenticatedFetch, ExpiringSession, FirstAttempt,
};
use moto_core::models::{
    ApiErrorBody, AuthToken, AuthenticatedUser, Coordinates, FieldError, Payment, PaymentStatus,
    Ride, RideCancellation, RideDriver, RideEstimate, RideRating, RideStatus, Role, User,
    Vehicle, VehicleType,
};

fn sample_token() -> AuthToken {
    AuthToken {
        access_token: "jwt-token".to_string(),
        token_type: "bearer".to_string(),
        expires_in: Some(900),
    }
}

fn renewed_token() -> AuthToken {
    AuthToken {
        access_token: "new-jwt-token".to_string(),
        ..sample_token()
    }
}

fn error_body(message: &str) -> ApiErrorBody {
    ApiErrorBody {
        message: message.to_string(),
        errors: None,
    }
}

/// The backend's error body for a failure of one field, `field`, with one
/// message that is also the body's message.
fn field_error_body(field: &str, message: &str) -> ApiErrorBody {
    ApiErrorBody {
        message: message.to_string(),
        errors: Some(vec![FieldError {
            field: field.to_string(),
            messages: vec![message.to_string()],
        }]),
    }
}

/// A reply whose body decoded as the result.
fn with_data<T>(status: u16, data: T) -> Exchange<T> {
    Exchange::Replied {
        status,
        data: Ok(data),
        error_body: Err("missing field `message`".to_string()),
    }
}

/// A reply whose body decoded as an error body.
fn with_error<T>(status: u16, body: ApiErrorBody) -> Exchange<T> {
    Exchange::Replied {
        status,
        data: Err("missing field `data`".to_string()),
        error_body: Ok(body),
    }
}

/// A reply with an empty body.
fn no_content<T>(status: u16) -> Exchange<T> {
    Exchange::Replied {
        status,
        data: Err("EOF while parsing a value".to_string()),
        error_body: Err("EOF while parsing a value".to_string()),
    }
}

fn unauthenticated<T>() -> Exchange<T> {
    with_error(401, error_body("Unauthenticated."))
}

fn refused_renewal() -> Exchange<AuthToken> {
    with_error(401, error_body("El token no es valido o ya expiro."))
}

fn unreachable<T>() -> Exchange<T> {
    Exchange::NotSent("error sending request for url (http://127.0.0.1:1/)".to_string())
}

/// An exchange that a test expects never to happen.
fn never<T>() -> Exchange<T> {
    Exchange::NotSent("this exchange should not have happened".to_string())
}

/// Runs an authenticated request through its steps as the HTTP client does:
/// `first` answers the first try, `refresh` the renewal and `second` the second
/// try, where they happen. Gives the access tokens sent, in order (the
/// renewal sends the refused one), and the result.
fn run<T, E: ExpiringSession>(
    read: fn(Exchange<T>) -> AttemptOutcome<T, E>,
    first: Exchange<T>,
    refresh: Exchange<AuthToken>,
    second: Exchange<T>,
) -> (Vec<String>, Result<AuthenticatedFetch<T>, E>) {
    let mut sent = Vec::new();
    let attempt = FirstAttempt::new(&sample_token());
    sent.push(attempt.access_token());
    let pending = match attempt.finish(read(first)) {
        AfterFirstAttempt::Done(result) => return (sent, result),
        AfterFirstAttempt::Refresh(pending) => pending,
    };
    sent.push(pending.access_token());
    let retry = match pending.finish::<E>(read_refresh(refresh)) {
        Ok(retry) => retry,
        Err(error) => return (sent, Err(error)),
    };
    sent.push(retry.access_token());
    (sent, retry.finish(read(second)))
}

/// Runs a request whose first try gets a 401, whose renewal gives
/// `new-jwt-token`, and whose second try is answered by `second`.
fn run_renewed<T, E: ExpiringSession>(
    read: fn(Exchange<T>) -> AttemptOutcome<T, E>,
    second: Exchange<T>,
) -> Result<AuthenticatedFetch<T>, E> {
    let (sent, result) = run(read, unauthenticated(), with_data(200, renewed_token()), second);
    assert_eq!(sent, vec!["jwt-token", "jwt-token", "new-jwt-token"]);
    result
}

/// Runs a request whose first try gets a 401 and whose renewal is refused.
fn run_refused<T, E: ExpiringSession>(read: fn(Exchange<T>) -> AttemptOutcome<T, E>) -> E {
    let (sent, result) = run(read, unauthenticated(), refused_renewal(), never());
    assert_eq!(sent, vec!["jwt-token", "jwt-token"]);
    match result {
        Ok(_) => panic!("a refused renewal should end the request"),
        Err(error) => error,
    }
}

/// Runs a request whose first try is answered by `first`, and checks that it
/// ends there, with no renewal.
fn run_once<T, E: ExpiringSession>(
    read: fn(Exchange<T>) -> AttemptOutcome<T, E>,
    first: Exchange<T>,
) -> Result<AuthenticatedFetch<T>, E> {
    let (sent, result) = run(read, first, never(), never());
    assert_eq!(sent, vec!["jwt-token"]);
    result
}

fn point(latitude: f64, longitude: f64) -> Coordinates {
    Coordinates {
        latitude_bits: latitude.to_bits(),
        longitude_bits: longitude.to_bits(),
    }
}

fn sample_user() -> User {
    User {
        id: 1,
        name: "Ana Garcia".to_string(),
        email: "ana@example.com".to_string(),
        phone: "+573001234567".to_string(),
        phone_verified: false,
        role: Role::Passenger,
    }
}

fn sample_vehicle() -> Vehicle {
    Vehicle {
        plate: "ABC12D".to_string(),
        vehicle_type: VehicleType::Motocarro,
        year: 2022,
    }
}

fn sample_estimate() -> RideEstimate {
    RideEstimate {
        distance_meters: 7421,
        duration_seconds: 842,
        currency: "COP".to_string(),
        estimated_fare: 8850,
        is_estimate: true,
    }
}

fn sample_ride() -> Ride {
    Ride {
        id: 1,
        status: RideStatus::Requested,
        origin: point(4.710989, -74.072092),
        destination: point(4.698, -74.061),
        distance_meters: 7421,
        duration_seconds: 842,
        currency: "COP".to_string(),
        estimated_fare: 8850,
        driver: None,
        requested_at: "2026-07-31T14:03:21+00:00".to_string(),
        started_at: None,
        completed_at: None,
        final_fare: None,
        payment: None,
    }
}

fn sample_accepted_ride() -> Ride {
    Ride {
        status: RideStatus::Accepted,
        driver: Some(RideDriver {
            id: 42,
            name: "Carlos Perez".to_string(),
        }),
        ..sample_ride()
    }
}

fn sample_started_ride() -> Ride {
    Ride {
        status: RideStatus::InProgress,
        started_at: Some("2026-07-31T14:05:00+00:00".to_string()),
        ..sample_accepted_ride()
    }
}

fn sample_completed_ride() -> Ride {
    Ride {
        status: RideStatus::Completed,
        completed_at: Some("2026-07-31T14:19:05+00:00".to_string()),
        final_fare: Some(9100),
        payment: Some(Payment {
            status: PaymentStatus::Paid,
        }),
        ..sample_started_ride()
    }
}

fn sample_cancellation() -> RideCancellation {
    RideCancellation {
        ride: Ride {
            status: RideStatus::Cancelled,
            ..sample_ride()
        },
        cancellation_fee_applies: Some(false),
    }
}

fn sample_rating() -> RideRating {
    RideRating {
        ride_id: 1,
        score: 5,
        comment: None,
        rated_at: "2026-07-31T14:25:00+00:00".to_string(),
    }
}

#[test]
fn register_passenger_returns_authenticated_user_on_success() {
    let authenticated = read_registration(with_data(
        201,
        AuthenticatedUser {
            user: sample_user(),
            token: sample_token(),
        },
    ))
    .unwrap();

    assert_eq!(authenticated.user.email, "ana@example.com");
    assert_eq!(authenticated.token.access_token, "jwt-token");
}

#[test]
fn register_driver_returns_authenticated_user_on_success() {
    let driver = User {
        id: 2,
        name: "Carlos Perez".to_string(),
        email: "carlos@example.com".to_string(),
        phone: "+573001234567".to_string(),
        phone_verified: false,
        role: Role::Driver,
    };
    let authenticated = read_registration(with_data(
        201,
        AuthenticatedUser {
            user: driver,
            token: sample_token(),
        },
    ))
    .unwrap();

    assert_eq!(authenticated.user.email, "carlos@example.com");
    assert_eq!(authenticated.user.role, Role::Driver);
    assert_eq!(authenticated.token.access_token, "jwt-token");
}

#[test]
fn register_driver_returns_network_error_when_server_is_unreachable() {
    assert!(matches!(
        read_registration(unreachable()),
        Err(RegisterError::Network(_))
    ));
}

#[test]
fn me_returns_the_authenticated_account() {
    assert_eq!(Endpoint::Me.path(), "/api/v1/me");
    let fetch = run_once(read_authenticated_get, with_data(200, sample_user())).unwrap();

    assert_eq!(fetch.data.name, "Ana Garcia");
    assert_eq!(fetch.data.role, Role::Passenger);
    assert_eq!(fetch.refreshed_token, None);
}

#[test]
fn me_forces_session_expired_when_the_token_cannot_be_renewed() {
    assert_eq!(
        run_refused(read_authenticated_get::<User>),
        AuthenticatedRequestError::SessionExpired
    );
}

#[test]
fn update_profile_refreshes_once_and_retries_on_401() {
    let updated = User {
        name: "Ana Garcia Perez".to_string(),
        ..sample_user()
    };
    let fetch = run_renewed(read_update_profile, with_data(200, updated)).unwrap();

    assert_eq!(fetch.data.name, "Ana Garcia Perez");
    assert_eq!(fetch.refreshed_token.unwrap().access_token, "new-jwt-token");
}

#[test]
fn update_profile_forces_session_expired_when_the_token_cannot_be_renewed() {
    assert_eq!(run_refused(read_update_profile), UpdateProfileError::SessionExpired);
}

#[test]
fn update_profile_returns_network_error_when_server_is_unreachable() {
    assert!(matches!(
        run_once(read_update_profile, unreachable()),
        Err(UpdateProfileError::Network(_))
    ));
}

#[test]
fn register_vehicle_returns_validation_error_on_422_when_the_driver_already_has_a_vehicle() {
    let body = field_error_body(
        "vehicle",
        "Ya tienes un vehiculo registrado; actualiza el existente en vez de registrar otro.",
    );
    let error = run_once(read_register_vehicle, with_error(422, body.clone())).unwrap_err();

    assert_eq!(error, RegisterVehicleError::Validation(body));
    assert_eq!(error.field_message("plate"), None);
}

#[test]
fn register_vehicle_refreshes_once_and_retries_on_401() {
    let fetch = run_renewed(read_register_vehicle, with_data(201, sample_vehicle())).unwrap();

    assert_eq!(fetch.data.plate, "ABC12D");
    assert_eq!(fetch.refreshed_token.unwrap().access_token, "new-jwt-token");
}

#[test]
fn register_vehicle_forces_session_expired_when_the_token_cannot_be_renewed() {
    assert_eq!(run_refused(read_register_vehicle), RegisterVehicleError::SessionExpired);
}

#[test]
fn register_vehicle_returns_network_error_when_server_is_unreachable() {
    assert!(matches!(
        run_once(read_register_vehicle, unreachable()),
        Err(RegisterVehicleError::Network(_))
    ));
}

#[test]
fn get_vehicle_returns_forbidden_on_403_without_retrying() {
    assert_eq!(
        run_once(read_get_vehicle, with_error(403, error_body("This action is unauthorized."))),
        Err(GetVehicleError::Forbidden)
    );
}

#[test]
fn get_vehicle_refreshes_once_and_retries_on_401() {
    let fetch = run_renewed(read_get_vehicle, with_data(200, sample_vehicle())).unwrap();

    assert_eq!(fetch.data.plate, "ABC12D");
    assert_eq!(fetch.refreshed_token.unwrap().access_token, "new-jwt-token");
}

#[test]
fn get_vehicle_forces_session_expired_when_the_token_cannot_be_renewed() {
    assert_eq!(run_refused(read_get_vehicle), GetVehicleError::SessionExpired);
}

#[test]
fn get_vehicle_returns_network_error_when_server_is_unreachable() {
    assert!(matches!(
        run_once(read_get_vehicle, unreachable()),
        Err(GetVehicleError::Network(_))
    ));
}

#[test]
fn update_vehicle_returns_not_found_when_the_driver_has_no_vehicle() {
    assert_eq!(
        run_once(
            read_update_vehicle,
            with_error(
                404,
                error_body("No tienes un vehiculo registrado; registralo antes de actualizarlo.")
            )
        ),
        Err(UpdateVehicleError::NotFound)
    );
}

#[test]
fn update_vehicle_returns_validation_error_on_422_without_retrying() {
    let body = field_error_body("plate", "The plate has already been taken.");
    let error = run_once(read_update_vehicle, with_error(422, body.clone())).unwrap_err();

    assert_eq!(error, UpdateVehicleError::Validation(body));
    assert_eq!(
        error.field_message("plate"),
        Some("The plate has already been taken.".to_string())
    );
}

#[test]
fn update_vehicle_refreshes_once_and_retries_on_401() {
    let fetch = run_renewed(read_update_vehicle, with_data(200, sample_vehicle())).unwrap();

    assert_eq!(fetch.data.plate, "ABC12D");
    assert_eq!(fetch.refreshed_token.unwrap().access_token, "new-jwt-token");
}

#[test]
fn update_vehicle_forces_session_expired_when_the_token_cannot_be_renewed() {
    assert_eq!(run_refused(read_update_vehicle), UpdateVehicleError::SessionExpired);
}

#[test]
fn update_vehicle_returns_network_error_when_server_is_unreachable() {
    assert!(matches!(
        run_once(read_update_vehicle, unreachable()),
        Err(UpdateVehicleError::Network(_))
    ));
}

#[test]
fn estimate_ride_sends_origin_and_destination_and_returns_the_estimate() {
    assert_eq!(Endpoint::EstimateRide.path(), "/api/v1/rides/estimate");
    let fetch = run_once(read_estimate_ride, with_data(200, sample_estimate())).unwrap();

    assert_eq!(fetch.data.distance_meters, 7421);
    assert_eq!(fetch.data.duration_seconds, 842);
    assert_eq!(fetch.data.currency, "COP");
    assert_eq!(fetch.data.estimated_fare, 8850);
    assert!(fetch.data.is_estimate);
    assert_eq!(fetch.refreshed_token, None);
}

#[test]
fn estimate_ride_returns_validation_error_on_422_without_retrying() {
    let body = error_body(
        "No fue posible calcular una ruta entre esas coordenadas. Puede que la zona no este cubierta por el servicio.",
    );
    assert_eq!(
        run_once(read_estimate_ride, with_error(422, body.clone())),
        Err(EstimateRideError::Validation(body))
    );
}

#[test]
fn estimate_ride_refreshes_once_and_retries_on_401() {
    let fetch = run_renewed(read_estimate_ride, with_data(200, sample_estimate())).unwrap();

    assert_eq!(fetch.data.distance_meters, 7421);
    assert_eq!(fetch.refreshed_token.unwrap().access_token, "new-jwt-token");
}

#[test]
fn estimate_ride_forces_session_expired_when_the_token_cannot_be_renewed() {
    assert_eq!(run_refused(read_estimate_ride), EstimateRideError::SessionExpired);
}

#[test]
fn estimate_ride_returns_network_error_when_server_is_unreachable() {
    assert!(matches!(
        run_once(read_estimate_ride, unreachable()),
        Err(EstimateRideError::Network(_))
    ));
}

#[test]
fn request_ride_sends_origin_and_destination_and_returns_the_created_ride() {
    assert_eq!(Endpoint::RequestRide.path(), "/api/v1/rides");
    let fetch = run_once(read_request_ride, with_data(201, sample_ride())).unwrap();

    assert_eq!(fetch.data.id, 1);
    assert_eq!(fetch.data.status, RideStatus::Requested);
    assert_eq!(fetch.data.estimated_fare, 8850);
    assert_eq!(fetch.refreshed_token, None);
}

#[test]
fn request_ride_returns_forbidden_on_403_without_retrying() {
    assert_eq!(
        run_once(read_request_ride, with_error(403, error_body("This action is unauthorized."))),
        Err(RequestRideError::Forbidden)
    );
}

#[test]
fn request_ride_returns_validation_error_on_422_when_an_active_ride_already_exists() {
    let body = field_error_body(
        "ride",
        "Ya tienes un viaje en curso; terminalo o cancelalo antes de solicitar otro.",
    );
    assert_eq!(
        run_once(read_request_ride, with_error(422, body.clone())),
        Err(RequestRideError::Validation(body))
    );
}

#[test]
fn request_ride_refreshes_once_and_retries_on_401() {
    let fetch = run_renewed(read_request_ride, with_data(201, sample_ride())).unwrap();

    assert_eq!(fetch.data.id, 1);
    assert_eq!(fetch.refreshed_token.unwrap().access_token, "new-jwt-token");
}

#[test]
fn request_ride_forces_session_expired_when_the_token_cannot_be_renewed() {
    assert_eq!(run_refused(read_request_ride), RequestRideError::SessionExpired);
}

#[test]
fn request_ride_returns_network_error_when_server_is_unreachable() {
    assert!(matches!(
        run_once(read_request_ride, unreachable()),
        Err(RequestRideError::Network(_))
    ));
}

#[test]
fn cancel_ride_returns_the_cancelled_ride_without_a_fee_when_no_driver_was_assigned() {
    assert_eq!(Endpoint::CancelRide(1).path(), "/api/v1/rides/1/cancel");
    let fetch = run_once(read_cancel_ride, with_data(200, sample_cancellation())).unwrap();

    assert_eq!(fetch.data.ride.id, 1);
    assert_eq!(fetch.data.ride.status, RideStatus::Cancelled);
    assert_eq!(fetch.data.cancellation_fee_applies, Some(false));
    assert_eq!(fetch.refreshed_token, None);
}

#[test]
fn cancel_ride_returns_forbidden_on_403_without_retrying() {
    assert_eq!(
        run_once(read_cancel_ride, with_error(403, error_body("This action is unauthorized."))),
        Err(CancelRideError::Forbidden)
    );
}

#[test]
fn cancel_ride_returns_validation_error_on_422_when_the_ride_is_not_cancellable() {
    let body = field_error_body("ride", "El viaje está en curso; no se puede cancelar de esta forma.");
    assert_eq!(
        run_once(read_cancel_ride, with_error(422, body.clone())),
        Err(CancelRideError::Validation(body))
    );
}

#[test]
fn cancel_ride_refreshes_once_and_retries_on_401() {
    let fetch = run_renewed(read_cancel_ride, with_data(200, sample_cancellation())).unwrap();

    assert_eq!(fetch.data.ride.id, 1);
    assert_eq!(fetch.refreshed_token.unwrap().access_token, "new-jwt-token");
}

#[test]
fn cancel_ride_forces_session_expired_when_the_token_cannot_be_renewed() {
    assert_eq!(run_refused(read_cancel_ride), CancelRideError::SessionExpired);
}

#[test]
fn cancel_ride_returns_network_error_when_server_is_unreachable() {
    assert!(matches!(
        run_once(read_cancel_ride, unreachable()),
        Err(CancelRideError::Network(_))
    ));
}

#[test]
fn accept_ride_returns_the_accepted_ride_with_the_assigned_driver() {
    assert_eq!(Endpoint::AcceptRide(1).path(), "/api/v1/rides/1/accept");
    let fetch = run_once(read_accept_ride, with_data(200, sample_accepted_ride())).unwrap();

    assert_eq!(fetch.data.id, 1);
    assert_eq!(fetch.data.status, RideStatus::Accepted);
    assert_eq!(
        fetch.data.driver,
        Some(RideDriver {
            id: 42,
            name: "Carlos Perez".to_string(),
        })
    );
    assert_eq!(fetch.refreshed_token, None);
}

#[test]
fn accept_ride_returns_forbidden_on_403_without_retrying() {
    assert_eq!(
        run_once(read_accept_ride, with_error(403, error_body("This action is unauthorized."))),
        Err(AcceptRideError::Forbidden)
    );
}

#[test]
fn accept_ride_returns_not_found_on_404_without_retrying() {
    assert_eq!(Endpoint::AcceptRide(999).path(), "/api/v1/rides/999/accept");
    assert_eq!(
        run_once(
            read_accept_ride,
            with_error(404, error_body("No query results for model [App\\Models\\Ride] 999."))
        ),
        Err(AcceptRideError::NotFound)
    );
}

#[test]
fn accept_ride_returns_validation_error_on_422_when_the_driver_has_an_active_ride() {
    let body = field_error_body(
        "ride",
        "Ya tienes un viaje activo; terminalo o cancelalo antes de aceptar otro.",
    );
    assert_eq!(
        run_once(read_accept_ride, with_error(422, body.clone())),
        Err(AcceptRideError::Validation(body))
    );
}

#[test]
fn accept_ride_refreshes_once_and_retries_on_401() {
    let fetch = run_renewed(read_accept_ride, with_data(200, sample_accepted_ride())).unwrap();

    assert_eq!(fetch.data.id, 1);
    assert_eq!(fetch.refreshed_token.unwrap().access_token, "new-jwt-token");
}

#[test]
fn accept_ride_forces_session_expired_when_the_token_cannot_be_renewed() {
    assert_eq!(run_refused(read_accept_ride), AcceptRideError::SessionExpired);
}

#[test]
fn accept_ride_returns_network_error_when_server_is_unreachable() {
    assert!(matches!(
        run_once(read_accept_ride, unreachable()),
        Err(AcceptRideError::Network(_))
    ));
}

#[test]
fn start_ride_returns_the_started_ride_with_started_at() {
    assert_eq!(Endpoint::StartRide(1).path(), "/api/v1/rides/1/start");
    let fetch = run_once(read_start_ride, with_data(200, sample_started_ride())).unwrap();

    assert_eq!(fetch.data.id, 1);
    assert_eq!(fetch.data.status, RideStatus::InProgress);
    assert_eq!(
        fetch.data.started_at,
        Some("2026-07-31T14:05:00+00:00".to_string())
    );
    assert_eq!(fetch.refreshed_token, None);
}

#[test]
fn start_ride_returns_forbidden_on_403_without_retrying() {
    assert_eq!(
        run_once(read_start_ride, with_error(403, error_body("This action is unauthorized."))),
        Err(StartRideError::Forbidden)
    );
}

#[test]
fn start_ride_returns_not_found_on_404_without_retrying() {
    assert_eq!(Endpoint::StartRide(999).path(), "/api/v1/rides/999/start");
    assert_eq!(
        run_once(
            read_start_ride,
            with_error(404, error_body("No query results for model [App\\Models\\Ride] 999."))
        ),
        Err(StartRideError::NotFound)
    );
}

#[test]
fn start_ride_returns_validation_error_on_422_when_the_ride_is_not_accepted() {
    let body = field_error_body("ride", "Este viaje ya no se puede iniciar.");
    assert_eq!(
        run_once(read_start_ride, with_error(422, body.clone())),
        Err(StartRideError::Validation(body))
    );
}

#[test]
fn start_ride_refreshes_once_and_retries_on_401() {
    let fetch = run_renewed(read_start_ride, with_data(200, sample_started_ride())).unwrap();

    assert_eq!(fetch.data.id, 1);
    assert_eq!(fetch.refreshed_token.unwrap().access_token, "new-jwt-token");
}

#[test]
fn start_ride_forces_session_expired_when_the_token_cannot_be_renewed() {
    assert_eq!(run_refused(read_start_ride), StartRideError::SessionExpired);
}

#[test]
fn start_ride_returns_network_error_when_server_is_unreachable() {
    assert!(matches!(
        run_once(read_start_ride, unreachable()),
        Err(StartRideError::Network(_))
    ));
}

#[test]
fn complete_ride_returns_the_completed_ride_with_final_fare_and_payment() {
    assert_eq!(Endpoint::CompleteRide(1).path(), "/api/v1/rides/1/complete");
    let fetch = run_once(read_complete_ride, with_data(200, sample_completed_ride())).unwrap();

    assert_eq!(fetch.data.id, 1);
    assert_eq!(fetch.data.status, RideStatus::Completed);
    assert_eq!(
        fetch.data.completed_at,
        Some("2026-07-31T14:19:05+00:00".to_string())
    );
    assert_eq!(fetch.data.final_fare, Some(9100));
    assert_eq!(
        fetch.data.payment.map(|payment| payment.status),
        Some(PaymentStatus::Paid)
    );
    assert_eq!(fetch.refreshed_token, None);
}

#[test]
fn complete_ride_returns_forbidden_on_403_without_retrying() {
    assert_eq!(
        run_once(read_complete_ride, with_error(403, error_body("This action is unauthorized."))),
        Err(CompleteRideError::Forbidden)
    );
}

#[test]
fn complete_ride_returns_not_found_on_404_without_retrying() {
    assert_eq!(Endpoint::CompleteRide(999).path(), "/api/v1/rides/999/complete");
    assert_eq!(
        run_once(
            read_complete_ride,
            with_error(404, error_body("No query results for model [App\\Models\\Ride] 999."))
        ),
        Err(CompleteRideError::NotFound)
    );
}

#[test]
fn complete_ride_returns_validation_error_on_422_when_the_ride_is_not_in_progress() {
    let body = field_error_body("ride", "Solo se puede completar un viaje que este en curso.");
    assert_eq!(
        run_once(read_complete_ride, with_error(422, body.clone())),
        Err(CompleteRideError::Validation(body))
    );
}

#[test]
fn complete_ride_refreshes_once_and_retries_on_401() {
    let fetch = run_renewed(read_complete_ride, with_data(200, sample_completed_ride())).unwrap();

    assert_eq!(fetch.data.id, 1);
    assert_eq!(fetch.refreshed_token.unwrap().access_token, "new-jwt-token");
}

#[test]
fn complete_ride_forces_session_expired_when_the_token_cannot_be_renewed() {
    assert_eq!(run_refused(read_complete_ride), CompleteRideError::SessionExpired);
}

#[test]
fn complete_ride_returns_network_error_when_server_is_unreachable() {
    assert!(matches!(
        run_once(read_complete_ride, unreachable()),
        Err(CompleteRideError::Network(_))
    ));
}

#[test]
fn rate_driver_returns_forbidden_on_403_without_retrying() {
    assert_eq!(
        run_once(read_rate_driver, with_error(403, error_body("This action is unauthorized."))),
        Err(RateDriverError::Forbidden)
    );
}

#[test]
fn rate_driver_returns_not_found_on_404_without_retrying() {
    assert_eq!(Endpoint::RateDriver(999).path(), "/api/v1/rides/999/rate-driver");
    assert_eq!(
        run_once(
            read_rate_driver,
            with_error(404, error_body("No query results for model [App\\Models\\Ride] 999."))
        ),
        Err(RateDriverError::NotFound)
    );
}

#[test]
fn rate_driver_returns_validation_error_on_422_when_already_rated() {
    let body = field_error_body("ride", "Ya existe una calificacion del conductor para este viaje.");
    assert_eq!(
        run_once(read_rate_driver, with_error(422, body.clone())),
        Err(RateDriverError::Validation(body))
    );
}

#[test]
fn rate_driver_refreshes_once_and_retries_on_401() {
    let fetch = run_renewed(read_rate_driver, with_data(201, sample_rating())).unwrap();

    assert_eq!(fetch.data.ride_id, 1);
    assert_eq!(fetch.refreshed_token.unwrap().access_token, "new-jwt-token");
}

#[test]
fn rate_driver_forces_session_expired_when_the_token_cannot_be_renewed() {
    assert_eq!(run_refused(read_rate_driver), RateDriverError::SessionExpired);
}

#[test]
fn rate_driver_returns_network_error_when_server_is_unreachable() {
    assert!(matches!(
        run_once(read_rate_driver, unreachable()),
        Err(RateDriverError::Network(_))
    ));
}

#[test]
fn share_ride_location_returns_forbidden_on_403_without_retrying() {
    assert_eq!(
        run_once(
            read_share_ride_location,
            with_error(403, error_body("This action is unauthorized."))
        ),
        Err(ShareRideLocationError::Forbidden)
    );
}

#[test]
fn share_ride_location_returns_not_found_on_404_without_retrying() {
    assert_eq!(Endpoint::ShareRideLocation(999).path(), "/api/v1/rides/999/location");
    assert_eq!(
        run_once(
            read_share_ride_location,
            with_error(404, error_body("No query results for model [App\\Models\\Ride] 999."))
        ),
        Err(ShareRideLocationError::NotFound)
    );
}

#[test]
fn share_ride_location_returns_validation_error_on_422_when_the_ride_is_not_in_progress() {
    let body = field_error_body("ride", "Solo se puede compartir ubicacion en un viaje en curso.");
    assert_eq!(
        run_once(read_share_ride_location, with_error(422, body.clone())),
        Err(ShareRideLocationError::Validation(body))
    );
}

#[test]
fn share_ride_location_refreshes_once_and_retries_on_401() {
    let fetch = run_renewed(read_share_ride_location, no_content(204)).unwrap();

    assert_eq!(fetch.refreshed_token.unwrap().access_token, "new-jwt-token");
}

#[test]
fn share_ride_location_forces_session_expired_when_the_token_cannot_be_renewed() {
    assert_eq!(
        run_refused(read_share_ride_location),
        ShareRideLocationError::SessionExpired
    );
}

#[test]
fn share_ride_location_returns_network_error_when_server_is_unreachable() {
    assert!(matches!(
        run_once(read_share_ride_location, unreachable()),
        Err(ShareRideLocationError::Network(_))
    ));
}

#[test]
fn get_ride_returns_the_current_state_of_the_ride() {
    assert_eq!(Endpoint::GetRide(1).path(), "/api/v1/rides/1");
    let fetch = run_once(read_get_ride, with_data(200, sample_started_ride())).unwrap();

    assert_eq!(fetch.data.id, 1);
    assert_eq!(fetch.data.status, RideStatus::InProgress);
    assert_eq!(fetch.refreshed_token, None);
}

#[test]
fn get_ride_returns_not_found_on_404_without_retrying() {
    assert_eq!(
        run_once(
            read_get_ride,
            with_error(404, error_body("No query results for model [App\\Models\\Ride] 999."))
        ),
        Err(GetRideError::NotFound)
    );
}

#[test]
fn get_ride_refreshes_once_and_retries_on_401() {
    let fetch = run_renewed(read_get_ride, with_data(200, sample_started_ride())).unwrap();

    assert_eq!(fetch.data.id, 1);
    assert_eq!(fetch.refreshed_token.unwrap().access_token, "new-jwt-token");
}

#[test]
fn get_ride_forces_session_expired_when_the_token_cannot_be_renewed() {
    assert_eq!(run_refused(read_get_ride), GetRideError::SessionExpired);
}

#[test]
fn get_ride_returns_network_error_when_server_is_unreachable() {
    assert!(matches!(
        run_once(read_get_ride, unreachable()),
        Err(GetRideError::Network(_))
    ));
}

#[test]
fn authenticate_broadcast_channel_returns_network_error_when_server_is_unreachable() {
    assert!(matches!(
        read_broadcast_auth(unreachable()),
        Err(BroadcastAuthError::Network(_))
    ));
}

#[test]
fn a_rate_limited_renewal_leaves_the_session_open() {
    let (sent, result) = run(
        read_authenticated_get::<User>,
        unauthenticated(),
        no_content(429),
        never(),
    );
    assert_eq!(sent, vec!["jwt-token", "jwt-token"]);
    assert_eq!(result, Err(AuthenticatedRequestError::Unexpected(429)));
}

#[test]
fn a_renewal_that_fails_otherwise_expires_the_session() {
    let (sent, result) = run(read_get_ride, unauthenticated(), unreachable(), never());
    assert_eq!(sent, vec!["jwt-token", "jwt-token"]);
    assert_eq!(result, Err(GetRideError::SessionExpired));

    let (_, result) = run(
        read_update_profile,
        unauthenticated(),
        with_error(500, error_body("Server Error")),
        never(),
    );
    assert_eq!(result, Err(UpdateProfileError::SessionExpired));
}
