use moto_core::api::errors::{AcceptRideError, ShareRideLocationError};
use moto_core::location::LocationError;
use moto_core::models::{
    Coordinates, DocumentStatus, DocumentType, DriverDocumentStatus, DriverVerification,
    NearbyRideData, NearbyRideRequest, Ride, RideNoLongerAvailable, RideStatus, RideTracking,
    Role, UploadedDriverDocument, User, VerificationStatus,
};
use moto_core::screens::documents::apply_uploaded_document;
use moto_core::screens::ride_history::{can_request_earnings, ride_fare};
use moto_core::screens::forgot_password::{next_reset_step, PasswordResetEvent, PasswordResetStep};
use moto_core::screens::home::{home_sections, HomeSection};
use moto_core::screens::request_errand::{
    can_submit_errand, prepare_errand, read_agreed_price, ErrandRequest,
};
use moto_core::screens::nearby_rides::{
    accepted_ride_panel, after_position_failure, after_position_shared, after_share_failure,
    decide_accept_failure, AcceptFailure, AcceptedRidePanel, NearbyRidesBoard, SharingStatus,
    SharingTurn,
};
use moto_core::screens::ride_estimate::{
    cancel_button_label, ride_is_cancellable, ride_is_tracked, tracking_map_center, tracking_pins,
    MapPin, PickTarget, RoutePick,
};

fn point(latitude: f64, longitude: f64) -> Coordinates {
    Coordinates {
        latitude_bits: latitude.to_bits(),
        longitude_bits: longitude.to_bits(),
    }
}

fn sample_ride(id: u64, status: RideStatus) -> Ride {
    Ride {
        id,
        status,
        origin: point(4.710989, -74.072092),
        destination: point(4.698, -74.061),
        distance_meters: 7421,
        duration_seconds: 842,
        currency: "COP".to_string(),
        estimated_fare: 8850,
        driver: None,
        requested_at: "2026-07-31T14:03:21+00:00".to_string(),
        started_at: None,
        completed_at: None,
        final_fare: None,
        payment: None,
    }
}

fn request(ride_id: u64) -> NearbyRideData {
    NearbyRideData {
        requested: Some(NearbyRideRequest {
            ride_id,
            origin: point(4.710989, -74.072092),
            destination: point(4.698, -74.061),
            currency: "COP".to_string(),
            estimated_fare: 8850,
        }),
        unavailable: Some(RideNoLongerAvailable { ride_id }),
    }
}

fn listed(board: &NearbyRidesBoard) -> Vec<u64> {
    board.requests().iter().map(|r| r.ride_id).collect()
}

#[test]
fn the_first_tap_places_the_origin_and_the_second_the_destination() {
    let mut route = RoutePick::new();
    assert_eq!(route.instructions(), "Toca el mapa para elegir el origen.");
    assert!(!route.can_estimate());

    route.tap(point(4.71, -74.07));
    assert_eq!(route.origin, Some(point(4.71, -74.07)));
    assert_eq!(route.target, PickTarget::Destination);
    assert_eq!(route.instructions(), "Toca el mapa para elegir el destino.");
    assert!(!route.can_estimate());

    route.tap(point(4.69, -74.06));
    assert_eq!(route.destination, Some(point(4.69, -74.06)));
    assert!(route.can_estimate());
}

#[test]
fn a_tap_after_choosing_the_origin_again_moves_only_the_origin() {
    let mut route = RoutePick::new();
    route.tap(point(1.0, 1.0));
    route.tap(point(2.0, 2.0));
    route.choose_target(PickTarget::Origin);
    route.tap(point(3.0, 3.0));

    assert_eq!(route.origin, Some(point(3.0, 3.0)));
    assert_eq!(route.destination, Some(point(2.0, 2.0)));
    assert_eq!(route.target, PickTarget::Destination);
}

#[test]
fn the_route_pins_are_labelled_origin_then_destination() {
    let mut route = RoutePick::new();
    assert!(route.pins().is_empty());
    route.choose_target(PickTarget::Destination);
    route.tap(point(2.0, 2.0));
    assert_eq!(
        route.pins(),
        vec![MapPin { position: point(2.0, 2.0), label: "Destino" }]
    );
    route.choose_target(PickTarget::Origin);
    route.tap(point(1.0, 1.0));
    assert_eq!(
        route.pins(),
        vec![
            MapPin { position: point(1.0, 1.0), label: "Origen" },
            MapPin { position: point(2.0, 2.0), label: "Destino" },
        ]
    );
}

#[test]
fn a_ride_is_followed_until_it_ends_and_cancellable_until_it_starts() {
    assert!(ride_is_tracked(RideStatus::Requested));
    assert!(ride_is_tracked(RideStatus::Accepted));
    assert!(ride_is_tracked(RideStatus::InProgress));
    assert!(!ride_is_tracked(RideStatus::Completed));
    assert!(!ride_is_tracked(RideStatus::Cancelled));

    assert!(ride_is_cancellable(RideStatus::Requested));
    assert!(ride_is_cancellable(RideStatus::Accepted));
    assert!(!ride_is_cancellable(RideStatus::InProgress));
    assert!(!ride_is_cancellable(RideStatus::Completed));
}

#[test]
fn the_cancel_button_withdraws_a_request_and_cancels_an_accepted_ride() {
    assert_eq!(cancel_button_label(RideStatus::Requested), "Cancelar solicitud");
    assert_eq!(cancel_button_label(RideStatus::Accepted), "Cancelar viaje");
}

#[test]
fn the_tracking_map_follows_the_driver_once_their_position_is_known() {
    let mut tracking = RideTracking::new(sample_ride(1, RideStatus::Accepted));
    assert_eq!(tracking_map_center(&tracking), point(4.710989, -74.072092));
    assert_eq!(tracking_pins(&tracking).len(), 2);

    tracking.driver_location = Some(point(4.705, -74.068));
    assert_eq!(tracking_map_center(&tracking), point(4.705, -74.068));
    assert_eq!(
        tracking_pins(&tracking),
        vec![
            MapPin { position: point(4.710989, -74.072092), label: "Origen" },
            MapPin { position: point(4.698, -74.061), label: "Destino" },
            MapPin { position: point(4.705, -74.068), label: "Tu conductor" },
        ]
    );
}

#[test]
fn an_accepted_ride_leaves_the_board_and_hides_the_list() {
    let mut board = NearbyRidesBoard::new();
    board.apply_event("ride.requested", request(7));
    board.apply_event("ride.requested", request(8));
    board.apply_event("ride.requested", request(7));
    assert_eq!(listed(&board), vec![7, 8]);
    assert!(board.shows_list());

    board.accept_succeeded(sample_ride(7, RideStatus::Accepted));
    assert_eq!(listed(&board), vec![8]);
    assert!(!board.shows_list());
    assert_eq!(board.accepted().as_ref().map(|r| r.id), Some(7));

    board.update_accepted(sample_ride(7, RideStatus::InProgress));
    assert_eq!(
        board.accepted().as_ref().map(|r| r.status),
        Some(RideStatus::InProgress)
    );
}

#[test]
fn a_ride_taken_by_another_driver_leaves_the_board() {
    let mut board = NearbyRidesBoard::new();
    board.apply_event("ride.requested", request(7));
    board.apply_event("ride.requested", request(8));

    assert_eq!(
        decide_accept_failure(&AcceptRideError::Conflict),
        AcceptFailure::RemoveRequest
    );
    board.accept_conflicted(7);
    assert_eq!(listed(&board), vec![8]);
    assert!(board.shows_list());

    board.apply_event(
        "ride.unavailable",
        NearbyRideData {
            requested: None,
            unavailable: Some(RideNoLongerAvailable { ride_id: 8 }),
        },
    );
    assert!(listed(&board).is_empty());
}

#[test]
fn other_acceptance_failures_log_out_or_show_the_error() {
    assert_eq!(
        decide_accept_failure(&AcceptRideError::SessionExpired),
        AcceptFailure::Logout
    );
    assert_eq!(
        decide_accept_failure(&AcceptRideError::NotFound),
        AcceptFailure::ShowError
    );
    assert_eq!(
        decide_accept_failure(&AcceptRideError::Unexpected(500)),
        AcceptFailure::ShowError
    );
}

#[test]
fn an_accepted_ride_offers_start_and_a_ride_in_progress_shares_the_position() {
    assert_eq!(
        accepted_ride_panel(RideStatus::Accepted),
        AcceptedRidePanel::StartButton
    );
    assert_eq!(
        accepted_ride_panel(RideStatus::InProgress),
        AcceptedRidePanel::ShareLocation
    );
    assert_eq!(
        accepted_ride_panel(RideStatus::Completed),
        AcceptedRidePanel::Nothing
    );
}

#[test]
fn a_denied_permission_stops_sharing_and_other_failures_are_retried() {
    assert_eq!(
        after_position_failure(LocationError::PermissionDenied),
        SharingTurn {
            status: Some(SharingStatus::PermissionDenied),
            logout: false,
            keep_sharing: false,
        }
    );
    assert_eq!(
        after_position_failure(LocationError::Unavailable("sin GPS".to_string())),
        SharingTurn {
            status: Some(SharingStatus::Error("sin GPS".to_string())),
            logout: false,
            keep_sharing: true,
        }
    );
    assert_eq!(
        after_position_shared(),
        SharingTurn {
            status: Some(SharingStatus::Sharing),
            logout: false,
            keep_sharing: true,
        }
    );
}

#[test]
fn a_refused_position_logs_out_on_an_expired_session_and_is_retried_otherwise() {
    assert_eq!(
        after_share_failure(&ShareRideLocationError::SessionExpired),
        SharingTurn {
            status: None,
            logout: true,
            keep_sharing: false,
        }
    );
    let turn = after_share_failure(&ShareRideLocationError::Network("timeout".to_string()));
    assert!(turn.keep_sharing);
    assert!(!turn.logout);
    assert_eq!(
        turn.status,
        Some(SharingStatus::Error(
            "No se pudo conectar con el servidor. Revisa tu conexion.".to_string()
        ))
    );
}

fn user(role: Role) -> User {
    User {
        id: 3,
        name: "Ana".to_string(),
        email: "ana@example.com".to_string(),
        phone: "3001234567".to_string(),
        phone_verified: true,
        role,
    }
}

#[test]
fn only_a_known_driver_is_offered_the_vehicle_section() {
    assert_eq!(
        home_sections(&Some(user(Role::Driver))),
        vec![HomeSection::Profile, HomeSection::RideEstimate, HomeSection::Vehicle]
    );
    assert_eq!(
        home_sections(&Some(user(Role::Passenger))),
        vec![HomeSection::Profile, HomeSection::RideEstimate]
    );
    assert_eq!(
        home_sections(&None),
        vec![HomeSection::Profile, HomeSection::RideEstimate]
    );
}

#[test]
fn an_upload_updates_its_row_in_place() {
    let mut verification = DriverVerification {
        verification_status: VerificationStatus::Pending,
        documents: vec![
            DriverDocumentStatus {
                document_type: DocumentType::Identidad,
                status: Some(DocumentStatus::Rejected),
                rejection_reason: Some("Ilegible".to_string()),
                uploaded_at: Some("2026-07-01T10:00:00+00:00".to_string()),
            },
            DriverDocumentStatus {
                document_type: DocumentType::TarjetaPropiedad,
                status: None,
                rejection_reason: None,
                uploaded_at: None,
            },
        ],
    };
    let untouched = verification.documents[1].clone();

    apply_uploaded_document(
        &mut verification,
        &UploadedDriverDocument {
            document_type: DocumentType::Identidad,
            status: DocumentStatus::Pending,
            uploaded_at: "2026-07-31T14:03:21+00:00".to_string(),
        },
    );

    assert_eq!(verification.verification_status, VerificationStatus::Pending);
    assert_eq!(
        verification.documents[0],
        DriverDocumentStatus {
            document_type: DocumentType::Identidad,
            status: Some(DocumentStatus::Pending),
            rejection_reason: None,
            uploaded_at: Some("2026-07-31T14:03:21+00:00".to_string()),
        }
    );
    assert_eq!(verification.documents[1], untouched);
}

#[test]
fn the_history_shows_the_final_fare_once_known() {
    let mut ride = sample_ride(4, RideStatus::InProgress);
    assert_eq!(ride_fare(&ride), 8850);
    ride.final_fare = Some(9100);
    assert_eq!(ride_fare(&ride), 9100);
}

#[test]
fn earnings_are_asked_for_only_with_both_dates_and_nothing_under_way() {
    assert!(can_request_earnings("2026-07-01", "2026-07-31", false));
    assert!(!can_request_earnings("2026-07-01", "2026-07-31", true));
    assert!(!can_request_earnings("  ", "2026-07-31", false));
    assert!(!can_request_earnings("2026-07-01", "", false));
}

#[test]
fn an_errand_needs_a_point_a_site_and_a_description() {
    let origin = point(4.71, -74.07);
    assert_eq!(
        prepare_errand(Some(origin), Some(5), "  Comprar pan  "),
        Some(ErrandRequest {
            origin,
            destination_site_id: 5,
            description: "Comprar pan".to_string(),
        })
    );
    assert_eq!(prepare_errand(None, Some(5), "Comprar pan"), None);
    assert_eq!(prepare_errand(Some(origin), None, "Comprar pan"), None);
    assert_eq!(prepare_errand(Some(origin), Some(5), " \t "), None);

    assert!(can_submit_errand(Some(origin), Some(5), "Comprar pan", false));
    assert!(!can_submit_errand(Some(origin), Some(5), "Comprar pan", true));
    assert!(!can_submit_errand(Some(origin), Some(5), "   ", false));
}

#[test]
fn an_agreed_price_is_a_whole_number_of_at_least_one() {
    for text in [
        "", " ", "0", "1", " 15000 ", "+7", "-5", "-0", "12.5", "1e3", "abc",
        "9223372036854775807", "9223372036854775808", "00042",
    ] {
        let expected = text.trim().parse::<i64>().ok().filter(|price| *price >= 1);
        assert_eq!(read_agreed_price(text), expected, "text {text:?}");
    }
}

#[test]
fn the_reset_screen_confirms_a_code_only_after_it_was_sent() {
    let mut step = PasswordResetStep::RequestCode;
    step = next_reset_step(step, PasswordResetEvent::CodeRefused);
    assert_eq!(step, PasswordResetStep::RequestCode);
    step = next_reset_step(step, PasswordResetEvent::CodeSent);
    assert_eq!(step, PasswordResetStep::ConfirmCode);
    step = next_reset_step(step, PasswordResetEvent::ResetRefused);
    assert_eq!(step, PasswordResetStep::ConfirmCode);
    step = next_reset_step(step, PasswordResetEvent::AskForANewCode);
    assert_eq!(step, PasswordResetStep::RequestCode);
}
