use moto_core::api::errors::{
    AcceptRideError, BroadcastAuthError, GetVehicleError, LoginError, RegisterError,
    UpdateProfileError, UpdateVehicleError,
};
use moto_core::location::{LocationError, NativeLocationProvider};
use moto_core::models::{ApiErrorBody, FieldError};

fn validation_body() -> ApiErrorBody {
    ApiErrorBody {
        message: "The given data was invalid.".to_string(),
        errors: Some(vec![
            FieldError {
                field: "plate".to_string(),
                messages: vec![
                    "The plate has already been taken.".to_string(),
                    "The plate format is invalid.".to_string(),
                ],
            },
            FieldError {
                field: "vehicle".to_string(),
                messages: vec![],
            },
        ]),
    }
}

#[test]
fn field_message_is_none_for_non_validation_errors() {
    assert_eq!(RegisterError::EmptyFields.field_message("email"), None);
    assert_eq!(
        RegisterError::Network("boom".to_string()).field_message("email"),
        None
    );
}

#[test]
fn field_message_gives_the_first_message_of_the_field() {
    let error = UpdateVehicleError::Validation(validation_body());
    assert_eq!(
        error.field_message("plate"),
        Some("The plate has already been taken.".to_string())
    );
    assert_eq!(error.field_message("vehicle"), None);
    assert_eq!(error.field_message("year"), None);
    assert_eq!(UpdateProfileError::Validation(ApiErrorBody {
        message: "x".to_string(),
        errors: None,
    })
    .field_message("email"), None);
}

#[test]
fn messages_tell_the_user_what_went_wrong() {
    assert_eq!(
        LoginError::EmptyFields.message(),
        "Ingresa tu email y tu contrasena."
    );
    assert_eq!(
        LoginError::InvalidCredentials("El email o la contrasena no son correctos.".to_string()).message(),
        "El email o la contrasena no son correctos."
    );
    assert_eq!(
        LoginError::Network("connection refused".to_string()).message(),
        "No se pudo conectar con el servidor. Revisa tu conexion."
    );
    assert_eq!(
        LoginError::Unexpected(500).message(),
        "Ocurrio un error inesperado (codigo 500)."
    );
    assert_eq!(
        GetVehicleError::Unexpected(0).message(),
        "Ocurrio un error inesperado (codigo 0)."
    );
    assert_eq!(
        UpdateVehicleError::Validation(validation_body()).message(),
        "The given data was invalid."
    );
    assert_eq!(
        AcceptRideError::SessionExpired.message(),
        "La sesion expiro. Inicia sesion de nuevo."
    );
    assert_eq!(
        BroadcastAuthError::Unauthorized.message(),
        "La sesion expiro. Inicia sesion de nuevo."
    );
    assert_eq!(
        RegisterError::InvalidPhone.message(),
        "Ingresa un telefono valido (7 a 15 digitos)."
    );
}

#[test]
fn the_native_app_says_plainly_that_it_cannot_share_its_location() {
    let provider = NativeLocationProvider::new();
    assert_eq!(
        provider.current_position(),
        Err(LocationError::Unavailable(
            "Compartir ubicacion todavia no esta disponible en la app movil.".to_string()
        ))
    );
    assert_eq!(
        LocationError::PermissionDenied.message(),
        "Habilita el permiso de ubicacion para compartirla durante el viaje."
    );
}
