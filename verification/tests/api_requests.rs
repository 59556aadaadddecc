use moto_core::api::errors::{
    LoginError, RateDriverError, RegisterError, RegisterVehicleError, UpdateProfileError,
    UpdateVehicleError,
};
use moto_core::api::requests::{
    is_valid_email, is_valid_license_number, is_valid_phone, is_valid_plate, validate_driver_rating,
    validate_driver_registration, validate_login, validate_passenger_registration,
    validate_profile_update, validate_vehicle_registration, validate_vehicle_update,
};
use moto_core::models::{UpdateProfilePayload, VehicleType};

#[test]
fn login_rejects_empty_fields_without_sending_a_request() {
    assert_eq!(validate_login("", "secret"), Err(LoginError::EmptyFields));
    assert_eq!(validate_login("ana@example.com", ""), Err(LoginError::EmptyFields));
    assert_eq!(validate_login("   ", "secret"), Err(LoginError::EmptyFields));
}

#[test]
fn login_sends_the_email_and_password_as_typed() {
    let payload = validate_login("ana@example.com", "motoya2026").unwrap();
    assert_eq!(payload.email, "ana@example.com");
    assert_eq!(payload.password, "motoya2026");
}

#[test]
fn register_passenger_rejects_empty_fields_without_sending_a_request() {
    assert_eq!(
        validate_passenger_registration("", "ana@example.com", "+573001234567", "motoya2026"),
        Err(RegisterError::EmptyFields)
    );
    assert_eq!(
        validate_passenger_registration("Ana Garcia", "", "+573001234567", "motoya2026"),
        Err(RegisterError::EmptyFields)
    );
    assert_eq!(
        validate_passenger_registration("Ana Garcia", "ana@example.com", "", "motoya2026"),
        Err(RegisterError::EmptyFields)
    );
    assert_eq!(
        validate_passenger_registration("Ana Garcia", "ana@example.com", "+573001234567", ""),
        Err(RegisterError::EmptyFields)
    );
}

#[test]
fn register_passenger_rejects_invalid_email_without_sending_a_request() {
    assert_eq!(
        validate_passenger_registration("Ana Garcia", "not-an-email", "+573001234567", "motoya2026"),
        Err(RegisterError::InvalidEmail)
    );
}

#[test]
fn register_passenger_rejects_invalid_phone_without_sending_a_request() {
    assert_eq!(
        validate_passenger_registration("Ana Garcia", "ana@example.com", "123", "motoya2026"),
        Err(RegisterError::InvalidPhone)
    );
    assert_eq!(
        validate_passenger_registration(
            "Ana Garcia",
            "ana@example.com",
            "+57-300-123-4567",
            "motoya2026"
        ),
        Err(RegisterError::InvalidPhone)
    );
}

#[test]
fn register_passenger_sends_trimmed_fields() {
    let payload = validate_passenger_registration(
        "  Ana Garcia ",
        " ana@example.com",
        "+573001234567\t",
        " motoya2026 ",
    )
    .unwrap();
    assert_eq!(payload.name, "Ana Garcia");
    assert_eq!(payload.email, "ana@example.com");
    assert_eq!(payload.phone, "+573001234567");
    assert_eq!(payload.password, " motoya2026 ");
}

#[test]
fn register_driver_rejects_empty_fields_without_sending_a_request() {
    let cases = [
        ("", "carlos@example.com", "+573001234567", "motoya2026", "ABC1234"),
        ("Carlos Perez", "", "+573001234567", "motoya2026", "ABC1234"),
        ("Carlos Perez", "carlos@example.com", "", "motoya2026", "ABC1234"),
        ("Carlos Perez", "carlos@example.com", "+573001234567", "", "ABC1234"),
        ("Carlos Perez", "carlos@example.com", "+573001234567", "motoya2026", ""),
    ];
    for (name, email, phone, password, license) in cases {
        assert_eq!(
            validate_driver_registration(name, email, phone, password, license),
            Err(RegisterError::EmptyFields)
        );
    }
}

#[test]
fn register_driver_rejects_invalid_email_without_sending_a_request() {
    assert_eq!(
        validate_driver_registration(
            "Carlos Perez",
            "not-an-email",
            "+573001234567",
            "motoya2026",
            "ABC1234"
        ),
        Err(RegisterError::InvalidEmail)
    );
}

#[test]
fn register_driver_rejects_invalid_phone_without_sending_a_request() {
    assert_eq!(
        validate_driver_registration(
            "Carlos Perez",
            "carlos@example.com",
            "123",
            "motoya2026",
            "ABC1234"
        ),
        Err(RegisterError::InvalidPhone)
    );
}

#[test]
fn register_driver_rejects_invalid_license_number_without_sending_a_request() {
    for license in ["AB1", "abc1234", "ABC 1234"] {
        assert_eq!(
            validate_driver_registration(
                "Carlos Perez",
                "carlos@example.com",
                "+573001234567",
                "motoya2026",
                license
            ),
            Err(RegisterError::InvalidLicenseNumber)
        );
    }
}

#[test]
fn register_driver_sends_the_license_number() {
    let payload = validate_driver_registration(
        "Carlos Perez",
        "carlos@example.com",
        "+573001234567",
        "motoya2026",
        " ABC1234 ",
    )
    .unwrap();
    assert_eq!(payload.license_number, "ABC1234");
}

#[test]
fn update_profile_rejects_an_empty_patch_without_sending_a_request() {
    assert_eq!(
        validate_profile_update(UpdateProfilePayload::default()),
        Err(UpdateProfileError::NoFields)
    );
}

#[test]
fn update_profile_rejects_invalid_email_without_sending_a_request() {
    let update = UpdateProfilePayload {
        email: Some("not-an-email".to_string()),
        ..UpdateProfilePayload::default()
    };
    assert_eq!(validate_profile_update(update), Err(UpdateProfileError::InvalidEmail));
}

#[test]
fn update_profile_rejects_invalid_phone_without_sending_a_request() {
    let update = UpdateProfilePayload {
        phone: Some("123".to_string()),
        ..UpdateProfilePayload::default()
    };
    assert_eq!(validate_profile_update(update), Err(UpdateProfileError::InvalidPhone));
}

#[test]
fn update_profile_sends_only_the_present_fields_and_returns_the_updated_account() {
    let update = UpdateProfilePayload {
        name: Some("Ana Garcia Perez".to_string()),
        email: None,
        phone: Some("+573007654321".to_string()),
    };
    assert_eq!(validate_profile_update(update.clone()), Ok(update));
}

#[test]
fn register_vehicle_rejects_empty_fields_without_sending_a_request() {
    assert_eq!(
        validate_vehicle_registration("", VehicleType::Motocarro, "2022"),
        Err(RegisterVehicleError::EmptyFields)
    );
    assert_eq!(
        validate_vehicle_registration("ABC12D", VehicleType::Motocarro, ""),
        Err(RegisterVehicleError::EmptyFields)
    );
    assert_eq!(
        validate_vehicle_registration("   ", VehicleType::Motocarro, "2022"),
        Err(RegisterVehicleError::EmptyFields)
    );
}

#[test]
fn register_vehicle_rejects_invalid_plate_without_sending_a_request() {
    assert_eq!(
        validate_vehicle_registration("AB", VehicleType::Motocarro, "2022"),
        Err(RegisterVehicleError::InvalidPlate)
    );
    assert_eq!(
        validate_vehicle_registration("ABC 12D!", VehicleType::Motocarro, "2022"),
        Err(RegisterVehicleError::InvalidPlate)
    );
}

#[test]
fn register_vehicle_rejects_invalid_year_without_sending_a_request() {
    assert_eq!(
        validate_vehicle_registration("ABC12D", VehicleType::Motocarro, "not-a-year"),
        Err(RegisterVehicleError::InvalidYear)
    );
    assert_eq!(
        validate_vehicle_registration("ABC12D", VehicleType::Motocarro, "1969"),
        Err(RegisterVehicleError::InvalidYear)
    );
}

#[test]
fn register_vehicle_normalizes_the_plate_and_returns_the_created_vehicle() {
    let payload =
        validate_vehicle_registration(" abc12d ", VehicleType::Motocarga, "2022").unwrap();
    assert_eq!(payload.plate, "ABC12D");
    assert_eq!(payload.vehicle_type, VehicleType::Motocarga);
    assert_eq!(payload.year, 2022);
}

#[test]
fn a_year_with_a_sign_or_out_of_range_is_refused() {
    assert_eq!(
        validate_vehicle_registration("ABC12D", VehicleType::Motocarro, " +2022 "),
        Err(RegisterVehicleError::InvalidYear)
    );
    assert_eq!(
        validate_vehicle_registration("ABC12D", VehicleType::Motocarro, "70000"),
        Err(RegisterVehicleError::InvalidYear)
    );
    assert_eq!(
        validate_vehicle_registration("ABC12D", VehicleType::Motocarro, "+"),
        Err(RegisterVehicleError::InvalidYear)
    );
}

#[test]
fn update_vehicle_rejects_an_empty_patch_without_sending_a_request() {
    assert_eq!(
        validate_vehicle_update(None, None, None),
        Err(UpdateVehicleError::NoFields)
    );
}

#[test]
fn update_vehicle_rejects_invalid_plate_without_sending_a_request() {
    assert_eq!(
        validate_vehicle_update(Some("AB"), None, None),
        Err(UpdateVehicleError::InvalidPlate)
    );
}

#[test]
fn update_vehicle_rejects_invalid_year_without_sending_a_request() {
    assert_eq!(
        validate_vehicle_update(None, None, Some("not-a-year")),
        Err(UpdateVehicleError::InvalidYear)
    );
    assert_eq!(
        validate_vehicle_update(None, None, Some("1969")),
        Err(UpdateVehicleError::InvalidYear)
    );
}

#[test]
fn update_vehicle_sends_only_the_present_fields_and_returns_the_updated_vehicle() {
    let payload = validate_vehicle_update(Some(" abc12d"), None, None).unwrap();
    assert_eq!(payload.plate.as_deref(), Some("ABC12D"));
    assert_eq!(payload.vehicle_type, None);
    assert_eq!(payload.year, None);

    let payload = validate_vehicle_update(None, Some(VehicleType::Motocarro), Some("2022")).unwrap();
    assert_eq!(payload.plate, None);
    assert_eq!(payload.vehicle_type, Some(VehicleType::Motocarro));
    assert_eq!(payload.year, Some(2022));
}

#[test]
fn rate_driver_rejects_a_score_outside_1_to_5_without_sending_a_request() {
    assert_eq!(validate_driver_rating(0, None), Err(RateDriverError::InvalidScore));
    assert_eq!(validate_driver_rating(6, None), Err(RateDriverError::InvalidScore));
}

#[test]
fn rate_driver_sends_the_score_and_trimmed_comment_and_returns_the_rating() {
    let payload = validate_driver_rating(5, Some("  Muy puntual y buen trato.  ")).unwrap();
    assert_eq!(payload.score, 5);
    assert_eq!(payload.comment, Some("Muy puntual y buen trato.".to_string()));
}

#[test]
fn rate_driver_omits_the_comment_when_blank() {
    let payload = validate_driver_rating(4, Some("   ")).unwrap();
    assert_eq!(payload.score, 4);
    assert_eq!(payload.comment, None);
}

#[test]
fn email_format_needs_a_local_part_a_dotted_domain_and_no_space() {
    assert!(is_valid_email("ana@example.com"));
    assert!(!is_valid_email("@example.com"));
    assert!(!is_valid_email("ana@"));
    assert!(!is_valid_email("ana@example"));
    assert!(!is_valid_email("ana garcia@example.com"));
    assert!(is_valid_email("ana@sub@example.com"));
    assert!(!is_valid_email("a.b@example"));
}

#[test]
fn phone_format_is_e164() {
    assert!(is_valid_phone("+573001234567"));
    assert!(is_valid_phone("3001234"));
    assert!(!is_valid_phone("300123"));
    assert!(is_valid_phone("123456789012345"));
    assert!(!is_valid_phone("1234567890123456"));
    assert!(!is_valid_phone("++3001234567"));
    assert!(!is_valid_phone("３００１２３４５"));
}

#[test]
fn license_numbers_and_plates_follow_the_backend_rules() {
    assert!(is_valid_license_number("ABC-12"));
    assert!(!is_valid_license_number(&"A".repeat(51)));
    assert!(is_valid_license_number(&"A".repeat(50)));
    assert!(is_valid_plate("ABC12D"));
    assert!(!is_valid_plate("ABC12DEFGHI"));
    assert!(!is_valid_plate("abc12d"));
}

#[test]
fn a_model_year_is_exactly_four_digits() {
    for year in ["20220", "02022", "+2022", "202", "2O22"] {
        assert_eq!(
            validate_vehicle_registration("ABC12D", VehicleType::Motocarro, year),
            Err(RegisterVehicleError::InvalidYear),
            "year {year:?}"
        );
        assert_eq!(
            validate_vehicle_update(None, None, Some(year)),
            Err(UpdateVehicleError::InvalidYear),
            "year {year:?}"
        );
    }
    assert_eq!(
        validate_vehicle_registration("ABC12D", VehicleType::Motocarro, " 1970 ")
            .unwrap()
            .year,
        1970
    );
    assert_eq!(validate_vehicle_update(None, None, Some("2024")).unwrap().year, Some(2024));
}
