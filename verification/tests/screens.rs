use moto_core::models::{DocumentStatus, DocumentType, ErrandStatus, PaymentStatus, RideStatus, Role, VerificationStatus};
use moto_core::screens::documents::{
    document_type_label, document_type_slug, status_label, verification_status_label,
};
use moto_core::screens::profile::role_label;
use moto_core::screens::request_errand::errand_status_label;
use moto_core::screens::ride_estimate::{cancellation_fee_message, payment_result_message};
use moto_core::screens::ride_history::ride_status_label;

#[test]
fn errand_status_label_describes_a_freshly_requested_errand() {
    assert_eq!(
        errand_status_label(ErrandStatus::Requested),
        "Esperando a que un conductor lo acepte."
    );
}

#[test]
fn errand_status_label_describes_a_completed_errand() {
    assert_eq!(
        errand_status_label(ErrandStatus::Completed),
        "Tu mandado ya se completo."
    );
}

#[test]
fn cancellation_fee_message_warns_about_the_penalty_when_it_applies() {
    assert_eq!(
        cancellation_fee_message(Some(true)),
        "Se aplicara una penalizacion porque el conductor ya se habia desplazado hacia el punto de recogida."
    );
}

#[test]
fn cancellation_fee_message_reassures_when_no_penalty_applies() {
    assert_eq!(
        cancellation_fee_message(Some(false)),
        "No se aplico ninguna penalizacion."
    );
}

#[test]
fn cancellation_fee_message_treats_a_missing_flag_as_no_penalty() {
    assert_eq!(
        cancellation_fee_message(None),
        "No se aplico ninguna penalizacion."
    );
}

#[test]
fn payment_result_message_confirms_a_successful_charge() {
    let message = payment_result_message(PaymentStatus::Paid);
    assert!(message.contains("proceso correctamente"));
    assert!(message.contains("Historial de viajes"));
}

#[test]
fn payment_result_message_does_not_suggest_retrying_a_failed_charge() {
    let message = payment_result_message(PaymentStatus::Failed);
    assert!(message.to_lowercase().contains("soporte"));
    assert!(!message.to_lowercase().contains("reintent"));
    assert!(!message.to_lowercase().contains("pagar"));
}

#[test]
fn payment_result_message_reports_a_pending_charge_as_in_progress() {
    assert!(payment_result_message(PaymentStatus::Pending).contains("procesando"));
}

#[test]
fn ride_status_label_describes_a_completed_ride() {
    assert_eq!(ride_status_label(RideStatus::Completed), "Completado");
}

#[test]
fn ride_status_label_describes_a_cancelled_ride() {
    assert_eq!(ride_status_label(RideStatus::Cancelled), "Cancelado");
}

#[test]
fn ride_status_label_describes_a_ride_still_waiting_for_a_driver() {
    assert_eq!(
        ride_status_label(RideStatus::Requested),
        "Esperando conductor"
    );
}

#[test]
fn the_passenger_sees_the_progress_of_the_ride() {
    assert_eq!(
        moto_core::screens::ride_estimate::ride_status_label(RideStatus::InProgress),
        "Tu viaje esta en curso."
    );
}

#[test]
fn document_texts_name_each_document_and_state() {
    assert_eq!(document_type_slug(DocumentType::TarjetaPropiedad), "tarjeta-propiedad");
    assert_eq!(
        document_type_label(DocumentType::Identidad),
        "Documento de identidad (cedula, cedula de extranjeria o PTP)"
    );
    assert_eq!(status_label(None), "Sin subir");
    assert_eq!(status_label(Some(DocumentStatus::Pending)), "Pendiente de revision");
    assert_eq!(verification_status_label(VerificationStatus::Verified), "Verificado");
}

#[test]
fn role_label_names_each_role() {
    assert_eq!(role_label(Role::Passenger), "Pasajero");
    assert_eq!(role_label(Role::Driver), "Conductor");
}
