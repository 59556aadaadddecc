//! The errors of each API operation, and the message shown for each.
use vstd::prelude::*;

use crate::api::retry::ExpiringSession;
use crate::models::{ApiErrorBody, FieldError};
use crate::text::{decimal, decimal_string};

verus! {

/// The message shown when the server could not be reached.
pub open spec fn network_text() -> Seq<char> {
    "No se pudo conectar con el servidor. Revisa tu conexion."@
}

/// The message shown when the session expired.
pub open spec fn expired_text() -> Seq<char> {
    "La sesion expiro. Inicia sesion de nuevo."@
}

/// The message shown for a status code that the operation does not expect.
pub open spec fn unexpected_text(status: u16) -> Seq<char> {
    "Ocurrio un error inesperado (codigo "@ + decimal(status as nat) + ")."@
}

fn owned(s: &str) -> (r: String)
    ensures
        r@ == s@,
{
    String::from_str(s)
}

fn network_message() -> (r: String)
    ensures
        r@ == network_text(),
{
    owned("No se pudo conectar con el servidor. Revisa tu conexion.")
}

fn expired_message() -> (r: String)
    ensures
        r@ == expired_text(),
{
    owned("La sesion expiro. Inicia sesion de nuevo.")
}

fn unexpected_message(status: u16) -> (r: String)
    ensures
        r@ == unexpected_text(status),
{
    let mut r = owned("Ocurrio un error inesperado (codigo ");
    let digits = decimal_string(status as u64);
    r.append(digits.as_str());
    r.append(").");
    r
}

/// Whether `i` is the first entry of `errors` that reports `field`.
pub open spec fn is_first_entry(errors: Seq<FieldError>, field: Seq<char>, i: int) -> bool {
    &&& 0 <= i < errors.len()
    &&& errors[i].field@ == field
    &&& forall|j: int| 0 <= j < i ==> (#[trigger] errors[j]).field@ != field
}

/// The first message that `body` reports for `field`: `None` when the body
/// lists no errors, lists none for `field`, or lists none in its entry.
pub open spec fn field_message_of(body: ApiErrorBody, field: Seq<char>) -> Option<String> {
    match body.errors {
        None => None,
        Some(errors) => if exists|i: int| is_first_entry(errors@, field, i) {
            let i = choose|i: int| is_first_entry(errors@, field, i);
            if errors@[i].messages@.len() > 0 {
                Some(errors@[i].messages@[0])
            } else {
                None
            }
        } else {
            None
        },
    }
}

/// Whether `body` reports each field at most once, as the backend's error
/// body does: it maps each field to its messages.
pub open spec fn fields_are_distinct(body: ApiErrorBody) -> bool {
    match body.errors {
        None => true,
        Some(errors) => forall|i: int, j: int|
            0 <= i < errors@.len() && 0 <= j < errors@.len() && i != j ==> (#[trigger] errors@[i]).field@
                != (#[trigger] errors@[j]).field@,
    }
}

/// In a body that reports each field once, the message of a field is the
/// first message of that field's entry, wherever the entry stands: the order
/// of the entries does not matter.
pub proof fn a_field_reported_once_gives_its_first_message(body: ApiErrorBody, i: int)
    requires
        fields_are_distinct(body),
        body.errors is Some,
        0 <= i < body.errors->0@.len(),
    ensures
        field_message_of(body, body.errors->0@[i].field@) == if body.errors->0@[i].messages@.len() > 0 {
            Some(body.errors->0@[i].messages@[0])
        } else {
            None::<String>
        },
{
    let errors = body.errors->0@;
    let field = errors[i].field@;
    assert forall|j: int| 0 <= j < i implies (#[trigger] errors[j]).field@ != field by {
        assert(errors[j].field@ != errors[i].field@);
    }
    assert(is_first_entry(errors, field, i));
    let k = choose|k: int| is_first_entry(errors, field, k);
    assert(k == i) by {
        if k < i {
            assert(errors[k].field@ != field);
        } else if k > i {
            assert(errors[i].field@ != field);
        }
    }
}

/// The first message that `body` reports for `field`.
pub fn body_field_message(body: &ApiErrorBody, field: &str) -> (r: Option<String>)
    ensures
        r == field_message_of(*body, field@),
{
    match &body.errors {
        None => None,
        Some(errors) => {
            let mut i: usize = 0;
            while i < errors.len()
                invariant
                    body.errors == Some(*errors),
                    i <= errors@.len(),
                    forall|j: int| 0 <= j < i ==> (#[trigger] errors@[j]).field@ != field@,
                decreases errors@.len() - i,
            {
                if crate::text::str_eq(errors[i].field.as_str(), field) {
                    assert(is_first_entry(errors@, field@, i as int));
                    let ghost k = choose|k: int| is_first_entry(errors@, field@, k);
                    assert(k == i) by {
                        if k < i {
                            assert(errors@[k].field@ != field@);
                        } else if k > i {
                            assert(errors@[i as int].field@ != field@);
                        }
                    }
                    let entry = &errors[i];
                    if entry.messages.len() > 0 {
                        let message = entry.messages[0].clone();
                        assert(message == errors@[k].messages@[0]);
                        return Some(message);
                    } else {
                        return None;
                    }
                }
                i = i + 1;
            }
            assert(!exists|k: int| is_first_entry(errors@, field@, k)) by {
                if exists|k: int| is_first_entry(errors@, field@, k) {
                    let k = choose|k: int| is_first_entry(errors@, field@, k);
                    assert(errors@[k].field@ != field@);
                }
            }
            None
        },
    }
}

/// Failures of `POST /api/v1/auth/login`. `InvalidCredentials` covers a wrong password and an unknown email alike: the backend answers both with the same 401, on purpose.
#[derive(Debug, Clone, PartialEq)]
pub enum LoginError {
    EmptyFields,
    InvalidCredentials(String),
    Validation(ApiErrorBody),
    Network(String),
    Unexpected(u16),
}

impl LoginError {
    /// The text shown to the user for this error.
    pub open spec fn spec_message(&self) -> Seq<char> {
        match self {
            LoginError::EmptyFields => "Ingresa tu email y tu contrasena."@,
            LoginError::InvalidCredentials(x) => x@,
            LoginError::Validation(x) => x.message@,
            LoginError::Network(_) => network_text(),
            LoginError::Unexpected(x) => unexpected_text(*x),
        }
    }

    pub fn message(&self) -> (r: String)
        ensures
            r@ == self.spec_message(),
    {
        match self {
            LoginError::EmptyFields => owned("Ingresa tu email y tu contrasena."),
            LoginError::InvalidCredentials(x) => x.clone(),
            LoginError::Validation(x) => x.message.clone(),
            LoginError::Network(_) => network_message(),
            LoginError::Unexpected(x) => unexpected_message(*x),
        }
    }
}

/// Failures of the passenger and driver registrations. `InvalidEmail`, `InvalidPhone` and `InvalidLicenseNumber` are found before the request is sent; the backend's own rules (uniqueness, normalization) come back as `Validation`.
#[derive(Debug, Clone, PartialEq)]
pub enum RegisterError {
    EmptyFields,
    InvalidEmail,
    InvalidPhone,
    InvalidLicenseNumber,
    Validation(ApiErrorBody),
    Network(String),
    Unexpected(u16),
}

impl RegisterError {
    /// The text shown to the user for this error.
    pub open spec fn spec_message(&self) -> Seq<char> {
        match self {
            RegisterError::EmptyFields => "Completa todos los campos."@,
            RegisterError::InvalidEmail => "Ingresa un email valido."@,
            RegisterError::InvalidPhone => "Ingresa un telefono valido (7 a 15 digitos)."@,
            RegisterError::InvalidLicenseNumber => "Ingresa un numero de documento valido (5 a 50 caracteres, solo letras mayusculas, numeros y guiones)."@,
            RegisterError::Validation(x) => x.message@,
            RegisterError::Network(_) => network_text(),
            RegisterError::Unexpected(x) => unexpected_text(*x),
        }
    }

    pub fn message(&self) -> (r: String)
        ensures
            r@ == self.spec_message(),
    {
        match self {
            RegisterError::EmptyFields => owned("Completa todos los campos."),
            RegisterError::InvalidEmail => owned("Ingresa un email valido."),
            RegisterError::InvalidPhone => owned("Ingresa un telefono valido (7 a 15 digitos)."),
            RegisterError::InvalidLicenseNumber => owned("Ingresa un numero de documento valido (5 a 50 caracteres, solo letras mayusculas, numeros y guiones)."),
            RegisterError::Validation(x) => x.message.clone(),
            RegisterError::Network(_) => network_message(),
            RegisterError::Unexpected(x) => unexpected_message(*x),
        }
    }

    /// The first validation message that the backend reported for `field`
    /// (`"email"`, say); `None` when this is not a validation error or the
    /// field was not reported.
    pub fn field_message(&self, field: &str) -> (r: Option<String>)
        ensures
            r == match self {
                RegisterError::Validation(body) => field_message_of(*body, field@),
                _ => None,
            },
    {
        match self {
            RegisterError::Validation(body) => body_field_message(body, field),
            _ => None,
        }
    }
}

/// Failures of `POST /api/v1/auth/refresh`. `Unauthorized` means the token can no longer be renewed; `RateLimited` is no reason to end the session.
#[derive(Debug, Clone, PartialEq)]
pub enum RefreshError {
    Unauthorized(String),
    RateLimited,
    Network(String),
    Unexpected(u16),
}

impl RefreshError {
    /// The text shown to the user for this error.
    pub open spec fn spec_message(&self) -> Seq<char> {
        match self {
            RefreshError::Unauthorized(x) => x@,
            RefreshError::RateLimited => "Demasiados intentos de renovar la sesion. Intenta mas tarde."@,
            RefreshError::Network(_) => network_text(),
            RefreshError::Unexpected(x) => unexpected_text(*x),
        }
    }

    pub fn message(&self) -> (r: String)
        ensures
            r@ == self.spec_message(),
    {
        match self {
            RefreshError::Unauthorized(x) => x.clone(),
            RefreshError::RateLimited => owned("Demasiados intentos de renovar la sesion. Intenta mas tarde."),
            RefreshError::Network(_) => network_message(),
            RefreshError::Unexpected(x) => unexpected_message(*x),
        }
    }
}

/// Failures of `POST /api/v1/auth/logout`. The caller ends the local session whatever the outcome.
#[derive(Debug, Clone, PartialEq)]
pub enum LogoutError {
    Unauthorized,
    Network(String),
    Unexpected(u16),
}

impl LogoutError {
    /// The text shown to the user for this error.
    pub open spec fn spec_message(&self) -> Seq<char> {
        match self {
            LogoutError::Unauthorized => "La sesion ya no era valida."@,
            LogoutError::Network(_) => network_text(),
            LogoutError::Unexpected(x) => unexpected_text(*x),
        }
    }

    pub fn message(&self) -> (r: String)
        ensures
            r@ == self.spec_message(),
    {
        match self {
            LogoutError::Unauthorized => owned("La sesion ya no era valida."),
            LogoutError::Network(_) => network_message(),
            LogoutError::Unexpected(x) => unexpected_message(*x),
        }
    }
}

/// Failures of an authenticated `GET` that renews its token once. `SessionExpired`: the token expired and could not be renewed.
#[derive(Debug, Clone, PartialEq)]
pub enum AuthenticatedRequestError {
    SessionExpired,
    Network(String),
    Unexpected(u16),
}

impl AuthenticatedRequestError {
    /// The text shown to the user for this error.
    pub open spec fn spec_message(&self) -> Seq<char> {
        match self {
            AuthenticatedRequestError::SessionExpired => expired_text(),
            AuthenticatedRequestError::Network(_) => network_text(),
            AuthenticatedRequestError::Unexpected(x) => unexpected_text(*x),
        }
    }

    pub fn message(&self) -> (r: String)
        ensures
            r@ == self.spec_message(),
    {
        match self {
            AuthenticatedRequestError::SessionExpired => expired_message(),
            AuthenticatedRequestError::Network(_) => network_message(),
            AuthenticatedRequestError::Unexpected(x) => unexpected_message(*x),
        }
    }
}

/// Failures of `PATCH /api/v1/me`. `NoFields`, `InvalidEmail` and `InvalidPhone` are found before the request is sent.
#[derive(Debug, Clone, PartialEq)]
pub enum UpdateProfileError {
    NoFields,
    InvalidEmail,
    InvalidPhone,
    Validation(ApiErrorBody),
    SessionExpired,
    Network(String),
    Unexpected(u16),
}

impl UpdateProfileError {
    /// The text shown to the user for this error.
    pub open spec fn spec_message(&self) -> Seq<char> {
        match self {
            UpdateProfileError::NoFields => "No hay ningun cambio para guardar."@,
            UpdateProfileError::InvalidEmail => "Ingresa un email valido."@,
            UpdateProfileError::InvalidPhone => "Ingresa un telefono valido (7 a 15 digitos)."@,
            UpdateProfileError::Validation(x) => x.message@,
            UpdateProfileError::SessionExpired => expired_text(),
            UpdateProfileError::Network(_) => network_text(),
            UpdateProfileError::Unexpected(x) => unexpected_text(*x),
        }
    }

    pub fn message(&self) -> (r: String)
        ensures
            r@ == self.spec_message(),
    {
        match self {
            UpdateProfileError::NoFields => owned("No hay ningun cambio para guardar."),
            UpdateProfileError::InvalidEmail => owned("Ingresa un email valido."),
            UpdateProfileError::InvalidPhone => owned("Ingresa un telefono valido (7 a 15 digitos)."),
            UpdateProfileError::Validation(x) => x.message.clone(),
            UpdateProfileError::SessionExpired => expired_message(),
            UpdateProfileError::Network(_) => network_message(),
            UpdateProfileError::Unexpected(x) => unexpected_message(*x),
        }
    }

    /// The first validation message that the backend reported for `field`
    /// (`"email"`, say); `None` when this is not a validation error or the
    /// field was not reported.
    pub fn field_message(&self, field: &str) -> (r: Option<String>)
        ensures
            r == match self {
                UpdateProfileError::Validation(body) => field_message_of(*body, field@),
                _ => None,
            },
    {
        match self {
            UpdateProfileError::Validation(body) => body_field_message(body, field),
            _ => None,
        }
    }
}

/// Failures of `POST /api/v1/me/vehicle`. `EmptyFields`, `InvalidPlate` and `InvalidYear` are found before the request is sent; a driver who already has a vehicle gets `Validation`.
#[derive(Debug, Clone, PartialEq)]
pub enum RegisterVehicleError {
    EmptyFields,
    InvalidPlate,
    InvalidYear,
    Forbidden,
    Validation(ApiErrorBody),
    SessionExpired,
    Network(String),
    Unexpected(u16),
}

impl RegisterVehicleError {
    /// The text shown to the user for this error.
    pub open spec fn spec_message(&self) -> Seq<char> {
        match self {
            RegisterVehicleError::EmptyFields => "Completa todos los campos."@,
            RegisterVehicleError::InvalidPlate => "Ingresa una placa valida (5 a 10 caracteres, solo letras, numeros y guiones)."@,
            RegisterVehicleError::InvalidYear => "Ingresa un anio valido (4 digitos, no anterior a 1970)."@,
            RegisterVehicleError::Forbidden => "Esta cuenta no puede registrar un vehiculo."@,
            RegisterVehicleError::Validation(x) => x.message@,
            RegisterVehicleError::SessionExpired => expired_text(),
            RegisterVehicleError::Network(_) => network_text(),
            RegisterVehicleError::Unexpected(x) => unexpected_text(*x),
        }
    }

    pub fn message(&self) -> (r: String)
        ensures
            r@ == self.spec_message(),
    {
        match self {
            RegisterVehicleError::EmptyFields => owned("Completa todos los campos."),
            RegisterVehicleError::InvalidPlate => owned("Ingresa una placa valida (5 a 10 caracteres, solo letras, numeros y guiones)."),
            RegisterVehicleError::InvalidYear => owned("Ingresa un anio valido (4 digitos, no anterior a 1970)."),
            RegisterVehicleError::Forbidden => owned("Esta cuenta no puede registrar un vehiculo."),
            RegisterVehicleError::Validation(x) => x.message.clone(),
            RegisterVehicleError::SessionExpired => expired_message(),
            RegisterVehicleError::Network(_) => network_message(),
            RegisterVehicleError::Unexpected(x) => unexpected_message(*x),
        }
    }

    /// The first validation message that the backend reported for `field`
    /// (`"email"`, say); `None` when this is not a validation error or the
    /// field was not reported.
    pub fn field_message(&self, field: &str) -> (r: Option<String>)
        ensures
            r == match self {
                RegisterVehicleError::Validation(body) => field_message_of(*body, field@),
                _ => None,
            },
    {
        match self {
            RegisterVehicleError::Validation(body) => body_field_message(body, field),
            _ => None,
        }
    }
}

/// Failures of `GET /api/v1/me/vehicle`. `NotFound`: the driver has no vehicle yet.
#[derive(Debug, Clone, PartialEq)]
pub enum GetVehicleError {
    Forbidden,
    NotFound,
    SessionExpired,
    Network(String),
    Unexpected(u16),
}

impl GetVehicleError {
    /// The text shown to the user for this error.
    pub open spec fn spec_message(&self) -> Seq<char> {
        match self {
            GetVehicleError::Forbidden => "Esta cuenta no puede tener un vehiculo registrado."@,
            GetVehicleError::NotFound => "No tienes un vehiculo registrado."@,
            GetVehicleError::SessionExpired => expired_text(),
            GetVehicleError::Network(_) => network_text(),
            GetVehicleError::Unexpected(x) => unexpected_text(*x),
        }
    }

    pub fn message(&self) -> (r: String)
        ensures
            r@ == self.spec_message(),
    {
        match self {
            GetVehicleError::Forbidden => owned("Esta cuenta no puede tener un vehiculo registrado."),
            GetVehicleError::NotFound => owned("No tienes un vehiculo registrado."),
            GetVehicleError::SessionExpired => expired_message(),
            GetVehicleError::Network(_) => network_message(),
            GetVehicleError::Unexpected(x) => unexpected_message(*x),
        }
    }
}

/// Failures of `PATCH /api/v1/me/vehicle`. `NoFields`, `InvalidPlate` and `InvalidYear` are found before the request is sent.
#[derive(Debug, Clone, PartialEq)]
pub enum UpdateVehicleError {
    NoFields,
    InvalidPlate,
    InvalidYear,
    Forbidden,
    NotFound,
    Validation(ApiErrorBody),
    SessionExpired,
    Network(String),
    Unexpected(u16),
}

impl UpdateVehicleError {
    /// The text shown to the user for this error.
    pub open spec fn spec_message(&self) -> Seq<char> {
        match self {
            UpdateVehicleError::NoFields => "No hay ningun cambio para guardar."@,
            UpdateVehicleError::InvalidPlate => "Ingresa una placa valida (5 a 10 caracteres, solo letras, numeros y guiones)."@,
            UpdateVehicleError::InvalidYear => "Ingresa un anio valido (4 digitos, no anterior a 1970)."@,
            UpdateVehicleError::Forbidden => "Esta cuenta no puede actualizar un vehiculo."@,
            UpdateVehicleError::NotFound => "No tienes un vehiculo registrado."@,
            UpdateVehicleError::Validation(x) => x.message@,
            UpdateVehicleError::SessionExpired => expired_text(),
            UpdateVehicleError::Network(_) => network_text(),
            UpdateVehicleError::Unexpected(x) => unexpected_text(*x),
        }
    }

    pub fn message(&self) -> (r: String)
        ensures
            r@ == self.spec_message(),
    {
        match self {
            UpdateVehicleError::NoFields => owned("No hay ningun cambio para guardar."),
            UpdateVehicleError::InvalidPlate => owned("Ingresa una placa valida (5 a 10 caracteres, solo letras, numeros y guiones)."),
            UpdateVehicleError::InvalidYear => owned("Ingresa un anio valido (4 digitos, no anterior a 1970)."),
            UpdateVehicleError::Forbidden => owned("Esta cuenta no puede actualizar un vehiculo."),
            UpdateVehicleError::NotFound => owned("No tienes un vehiculo registrado."),
            UpdateVehicleError::Validation(x) => x.message.clone(),
            UpdateVehicleError::SessionExpired => expired_message(),
            UpdateVehicleError::Network(_) => network_message(),
            UpdateVehicleError::Unexpected(x) => unexpected_message(*x),
        }
    }

    /// The first validation message that the backend reported for `field`
    /// (`"email"`, say); `None` when this is not a validation error or the
    /// field was not reported.
    pub fn field_message(&self, field: &str) -> (r: Option<String>)
        ensures
            r == match self {
                UpdateVehicleError::Validation(body) => field_message_of(*body, field@),
                _ => None,
            },
    {
        match self {
            UpdateVehicleError::Validation(body) => body_field_message(body, field),
            _ => None,
        }
    }
}

/// Failures of `POST /api/v1/rides/estimate`. `Validation` covers both a malformed point and a route the map provider could not find.
#[derive(Debug, Clone, PartialEq)]
pub enum EstimateRideError {
    Validation(ApiErrorBody),
    SessionExpired,
    Network(String),
    Unexpected(u16),
}

impl EstimateRideError {
    /// The text shown to the user for this error.
    pub open spec fn spec_message(&self) -> Seq<char> {
        match self {
            EstimateRideError::Validation(x) => x.message@,
            EstimateRideError::SessionExpired => expired_text(),
            EstimateRideError::Network(_) => network_text(),
            EstimateRideError::Unexpected(x) => unexpected_text(*x),
        }
    }

    pub fn message(&self) -> (r: String)
        ensures
            r@ == self.spec_message(),
    {
        match self {
            EstimateRideError::Validation(x) => x.message.clone(),
            EstimateRideError::SessionExpired => expired_message(),
            EstimateRideError::Network(_) => network_message(),
            EstimateRideError::Unexpected(x) => unexpected_message(*x),
        }
    }
}

/// Failures of `POST /api/v1/rides`. `Forbidden`: the account is not a passenger's.
#[derive(Debug, Clone, PartialEq)]
pub enum RequestRideError {
    Forbidden,
    Validation(ApiErrorBody),
    SessionExpired,
    Network(String),
    Unexpected(u16),
}

impl RequestRideError {
    /// The text shown to the user for this error.
    pub open spec fn spec_message(&self) -> Seq<char> {
        match self {
            RequestRideError::Forbidden => "Esta cuenta no puede solicitar viajes."@,
            RequestRideError::Validation(x) => x.message@,
            RequestRideError::SessionExpired => expired_text(),
            RequestRideError::Network(_) => network_text(),
            RequestRideError::Unexpected(x) => unexpected_text(*x),
        }
    }

    pub fn message(&self) -> (r: String)
        ensures
            r@ == self.spec_message(),
    {
        match self {
            RequestRideError::Forbidden => owned("Esta cuenta no puede solicitar viajes."),
            RequestRideError::Validation(x) => x.message.clone(),
            RequestRideError::SessionExpired => expired_message(),
            RequestRideError::Network(_) => network_message(),
            RequestRideError::Unexpected(x) => unexpected_message(*x),
        }
    }
}

/// Failures of `POST /api/v1/rides/{ride}/cancel`. `Validation`: the ride can no longer be cancelled.
#[derive(Debug, Clone, PartialEq)]
pub enum CancelRideError {
    Forbidden,
    NotFound,
    Validation(ApiErrorBody),
    SessionExpired,
    Network(String),
    Unexpected(u16),
}

impl CancelRideError {
    /// The text shown to the user for this error.
    pub open spec fn spec_message(&self) -> Seq<char> {
        match self {
            CancelRideError::Forbidden => "Este viaje no te pertenece."@,
            CancelRideError::NotFound => "El viaje ya no existe."@,
            CancelRideError::Validation(x) => x.message@,
            CancelRideError::SessionExpired => expired_text(),
            CancelRideError::Network(_) => network_text(),
            CancelRideError::Unexpected(x) => unexpected_text(*x),
        }
    }

    pub fn message(&self) -> (r: String)
        ensures
            r@ == self.spec_message(),
    {
        match self {
            CancelRideError::Forbidden => owned("Este viaje no te pertenece."),
            CancelRideError::NotFound => owned("El viaje ya no existe."),
            CancelRideError::Validation(x) => x.message.clone(),
            CancelRideError::SessionExpired => expired_message(),
            CancelRideError::Network(_) => network_message(),
            CancelRideError::Unexpected(x) => unexpected_message(*x),
        }
    }
}

/// Failures of `POST /api/v1/rides/{ride}/accept`. `Conflict`: another driver accepted the ride first; `Validation`: the driver already has an active ride.
#[derive(Debug, Clone, PartialEq)]
pub enum AcceptRideError {
    Forbidden,
    NotFound,
    Conflict,
    Validation(ApiErrorBody),
    SessionExpired,
    Network(String),
    Unexpected(u16),
}

impl AcceptRideError {
    /// The text shown to the user for this error.
    pub open spec fn spec_message(&self) -> Seq<char> {
        match self {
            AcceptRideError::Forbidden => "Esta cuenta no puede aceptar viajes."@,
            AcceptRideError::NotFound => "El viaje ya no existe."@,
            AcceptRideError::Conflict => "Este viaje ya no esta disponible."@,
            AcceptRideError::Validation(x) => x.message@,
            AcceptRideError::SessionExpired => expired_text(),
            AcceptRideError::Network(_) => network_text(),
            AcceptRideError::Unexpected(x) => unexpected_text(*x),
        }
    }

    pub fn message(&self) -> (r: String)
        ensures
            r@ == self.spec_message(),
    {
        match self {
            AcceptRideError::Forbidden => owned("Esta cuenta no puede aceptar viajes."),
            AcceptRideError::NotFound => owned("El viaje ya no existe."),
            AcceptRideError::Conflict => owned("Este viaje ya no esta disponible."),
            AcceptRideError::Validation(x) => x.message.clone(),
            AcceptRideError::SessionExpired => expired_message(),
            AcceptRideError::Network(_) => network_message(),
            AcceptRideError::Unexpected(x) => unexpected_message(*x),
        }
    }
}

/// Failures of `POST /api/v1/rides/{ride}/start`. `Validation`: the ride is no longer accepted.
#[derive(Debug, Clone, PartialEq)]
pub enum StartRideError {
    Forbidden,
    NotFound,
    Validation(ApiErrorBody),
    SessionExpired,
    Network(String),
    Unexpected(u16),
}

impl StartRideError {
    /// The text shown to the user for this error.
    pub open spec fn spec_message(&self) -> Seq<char> {
        match self {
            StartRideError::Forbidden => "Este viaje no te pertenece."@,
            StartRideError::NotFound => "El viaje ya no existe."@,
            StartRideError::Validation(x) => x.message@,
            StartRideError::SessionExpired => expired_text(),
            StartRideError::Network(_) => network_text(),
            StartRideError::Unexpected(x) => unexpected_text(*x),
        }
    }

    pub fn message(&self) -> (r: String)
        ensures
            r@ == self.spec_message(),
    {
        match self {
            StartRideError::Forbidden => owned("Este viaje no te pertenece."),
            StartRideError::NotFound => owned("El viaje ya no existe."),
            StartRideError::Validation(x) => x.message.clone(),
            StartRideError::SessionExpired => expired_message(),
            StartRideError::Network(_) => network_message(),
            StartRideError::Unexpected(x) => unexpected_message(*x),
        }
    }
}

/// Failures of `POST /api/v1/rides/{ride}/complete`. `Validation`: the ride is not in progress.
#[derive(Debug, Clone, PartialEq)]
pub enum CompleteRideError {
    Forbidden,
    NotFound,
    Validation(ApiErrorBody),
    SessionExpired,
    Network(String),
    Unexpected(u16),
}

impl CompleteRideError {
    /// The text shown to the user for this error.
    pub open spec fn spec_message(&self) -> Seq<char> {
        match self {
            CompleteRideError::Forbidden => "Este viaje no te pertenece."@,
            CompleteRideError::NotFound => "El viaje ya no existe."@,
            CompleteRideError::Validation(x) => x.message@,
            CompleteRideError::SessionExpired => expired_text(),
            CompleteRideError::Network(_) => network_text(),
            CompleteRideError::Unexpected(x) => unexpected_text(*x),
        }
    }

    pub fn message(&self) -> (r: String)
        ensures
            r@ == self.spec_message(),
    {
        match self {
            CompleteRideError::Forbidden => owned("Este viaje no te pertenece."),
            CompleteRideError::NotFound => owned("El viaje ya no existe."),
            CompleteRideError::Validation(x) => x.message.clone(),
            CompleteRideError::SessionExpired => expired_message(),
            CompleteRideError::Network(_) => network_message(),
            CompleteRideError::Unexpected(x) => unexpected_message(*x),
        }
    }
}

/// Failures of `POST /api/v1/rides/{ride}/rate-driver`. `InvalidScore` is found before the request is sent; `Validation`: the ride is not completed, or was already rated.
#[derive(Debug, Clone, PartialEq)]
pub enum RateDriverError {
    InvalidScore,
    Forbidden,
    NotFound,
    Validation(ApiErrorBody),
    SessionExpired,
    Network(String),
    Unexpected(u16),
}

impl RateDriverError {
    /// The text shown to the user for this error.
    pub open spec fn spec_message(&self) -> Seq<char> {
        match self {
            RateDriverError::InvalidScore => "La puntuacion debe estar entre 1 y 5."@,
            RateDriverError::Forbidden => "Este viaje no te pertenece."@,
            RateDriverError::NotFound => "El viaje ya no existe."@,
            RateDriverError::Validation(x) => x.message@,
            RateDriverError::SessionExpired => expired_text(),
            RateDriverError::Network(_) => network_text(),
            RateDriverError::Unexpected(x) => unexpected_text(*x),
        }
    }

    pub fn message(&self) -> (r: String)
        ensures
            r@ == self.spec_message(),
    {
        match self {
            RateDriverError::InvalidScore => owned("La puntuacion debe estar entre 1 y 5."),
            RateDriverError::Forbidden => owned("Este viaje no te pertenece."),
            RateDriverError::NotFound => owned("El viaje ya no existe."),
            RateDriverError::Validation(x) => x.message.clone(),
            RateDriverError::SessionExpired => expired_message(),
            RateDriverError::Network(_) => network_message(),
            RateDriverError::Unexpected(x) => unexpected_message(*x),
        }
    }
}

/// Failures of `POST /api/v1/rides/{ride}/location`. `Validation`: the ride is not in progress, or the point is out of range.
#[derive(Debug, Clone, PartialEq)]
pub enum ShareRideLocationError {
    Forbidden,
    NotFound,
    Validation(ApiErrorBody),
    SessionExpired,
    Network(String),
    Unexpected(u16),
}

impl ShareRideLocationError {
    /// The text shown to the user for this error.
    pub open spec fn spec_message(&self) -> Seq<char> {
        match self {
            ShareRideLocationError::Forbidden => "Este viaje no te pertenece."@,
            ShareRideLocationError::NotFound => "El viaje ya no existe."@,
            ShareRideLocationError::Validation(x) => x.message@,
            ShareRideLocationError::SessionExpired => expired_text(),
            ShareRideLocationError::Network(_) => network_text(),
            ShareRideLocationError::Unexpected(x) => unexpected_text(*x),
        }
    }

    pub fn message(&self) -> (r: String)
        ensures
            r@ == self.spec_message(),
    {
        match self {
            ShareRideLocationError::Forbidden => owned("Este viaje no te pertenece."),
            ShareRideLocationError::NotFound => owned("El viaje ya no existe."),
            ShareRideLocationError::Validation(x) => x.message.clone(),
            ShareRideLocationError::SessionExpired => expired_message(),
            ShareRideLocationError::Network(_) => network_message(),
            ShareRideLocationError::Unexpected(x) => unexpected_message(*x),
        }
    }
}

/// Failures of `GET /api/v1/rides/{ride}`.
#[derive(Debug, Clone, PartialEq)]
pub enum GetRideError {
    Forbidden,
    NotFound,
    SessionExpired,
    Network(String),
    Unexpected(u16),
}

impl GetRideError {
    /// The text shown to the user for this error.
    pub open spec fn spec_message(&self) -> Seq<char> {
        match self {
            GetRideError::Forbidden => "Este viaje no te pertenece."@,
            GetRideError::NotFound => "El viaje ya no existe."@,
            GetRideError::SessionExpired => expired_text(),
            GetRideError::Network(_) => network_text(),
            GetRideError::Unexpected(x) => unexpected_text(*x),
        }
    }

    pub fn message(&self) -> (r: String)
        ensures
            r@ == self.spec_message(),
    {
        match self {
            GetRideError::Forbidden => owned("Este viaje no te pertenece."),
            GetRideError::NotFound => owned("El viaje ya no existe."),
            GetRideError::SessionExpired => expired_message(),
            GetRideError::Network(_) => network_message(),
            GetRideError::Unexpected(x) => unexpected_message(*x),
        }
    }
}

/// Failures of `POST /api/v1/broadcasting/auth`. This request never renews its token: a 401 is a failed authentication.
#[derive(Debug, Clone, PartialEq)]
pub enum BroadcastAuthError {
    Unauthorized,
    Forbidden,
    Network(String),
    Unexpected(u16),
}

impl BroadcastAuthError {
    /// The text shown to the user for this error.
    pub open spec fn spec_message(&self) -> Seq<char> {
        match self {
            BroadcastAuthError::Unauthorized => expired_text(),
            BroadcastAuthError::Forbidden => "No tienes permiso para suscribirte a este canal."@,
            BroadcastAuthError::Network(_) => network_text(),
            BroadcastAuthError::Unexpected(x) => unexpected_text(*x),
        }
    }

    pub fn message(&self) -> (r: String)
        ensures
            r@ == self.spec_message(),
    {
        match self {
            BroadcastAuthError::Unauthorized => expired_message(),
            BroadcastAuthError::Forbidden => owned("No tienes permiso para suscribirte a este canal."),
            BroadcastAuthError::Network(_) => network_message(),
            BroadcastAuthError::Unexpected(x) => unexpected_message(*x),
        }
    }
}

impl ExpiringSession for AuthenticatedRequestError {
    open spec fn expired() -> Self {
        AuthenticatedRequestError::SessionExpired
    }

    open spec fn unexpected(status: u16) -> Self {
        AuthenticatedRequestError::Unexpected(status)
    }

    fn session_expired() -> (r: Self) {
        AuthenticatedRequestError::SessionExpired
    }

    fn unexpected_status(status: u16) -> (r: Self) {
        AuthenticatedRequestError::Unexpected(status)
    }
}

impl ExpiringSession for UpdateProfileError {
    open spec fn expired() -> Self {
        UpdateProfileError::SessionExpired
    }

    open spec fn unexpected(status: u16) -> Self {
        UpdateProfileError::Unexpected(status)
    }

    fn session_expired() -> (r: Self) {
        UpdateProfileError::SessionExpired
    }

    fn unexpected_status(status: u16) -> (r: Self) {
        UpdateProfileError::Unexpected(status)
    }
}

impl ExpiringSession for RegisterVehicleError {
    open spec fn expired() -> Self {
        RegisterVehicleError::SessionExpired
    }

    open spec fn unexpected(status: u16) -> Self {
        RegisterVehicleError::Unexpected(status)
    }

    fn session_expired() -> (r: Self) {
        RegisterVehicleError::SessionExpired
    }

    fn unexpected_status(status: u16) -> (r: Self) {
        RegisterVehicleError::Unexpected(status)
    }
}

impl ExpiringSession for GetVehicleError {
    open spec fn expired() -> Self {
        GetVehicleError::SessionExpired
    }

    open spec fn unexpected(status: u16) -> Self {
        GetVehicleError::Unexpected(status)
    }

    fn session_expired() -> (r: Self) {
        GetVehicleError::SessionExpired
    }

    fn unexpected_status(status: u16) -> (r: Self) {
        GetVehicleError::Unexpected(status)
    }
}

impl ExpiringSession for UpdateVehicleError {
    open spec fn expired() -> Self {
        UpdateVehicleError::SessionExpired
    }

    open spec fn unexpected(status: u16) -> Self {
        UpdateVehicleError::Unexpected(status)
    }

    fn session_expired() -> (r: Self) {
        UpdateVehicleError::SessionExpired
    }

    fn unexpected_status(status: u16) -> (r: Self) {
        UpdateVehicleError::Unexpected(status)
    }
}

impl ExpiringSession for EstimateRideError {
    open spec fn expired() -> Self {
        EstimateRideError::SessionExpired
    }

    open spec fn unexpected(status: u16) -> Self {
        EstimateRideError::Unexpected(status)
    }

    fn session_expired() -> (r: Self) {
        EstimateRideError::SessionExpired
    }

    fn unexpected_status(status: u16) -> (r: Self) {
        EstimateRideError::Unexpected(status)
    }
}

impl ExpiringSession for RequestRideError {
    open spec fn expired() -> Self {
        RequestRideError::SessionExpired
    }

    open spec fn unexpected(status: u16) -> Self {
        RequestRideError::Unexpected(status)
    }

    fn session_expired() -> (r: Self) {
        RequestRideError::SessionExpired
    }

    fn unexpected_status(status: u16) -> (r: Self) {
        RequestRideError::Unexpected(status)
    }
}

impl ExpiringSession for CancelRideError {
    open spec fn expired() -> Self {
        CancelRideError::SessionExpired
    }

    open spec fn unexpected(status: u16) -> Self {
        CancelRideError::Unexpected(status)
    }

    fn session_expired() -> (r: Self) {
        CancelRideError::SessionExpired
    }

    fn unexpected_status(status: u16) -> (r: Self) {
        CancelRideError::Unexpected(status)
    }
}

impl ExpiringSession for AcceptRideError {
    open spec fn expired() -> Self {
        AcceptRideError::SessionExpired
    }

    open spec fn unexpected(status: u16) -> Self {
        AcceptRideError::Unexpected(status)
    }

    fn session_expired() -> (r: Self) {
        AcceptRideError::SessionExpired
    }

    fn unexpected_status(status: u16) -> (r: Self) {
        AcceptRideError::Unexpected(status)
    }
}

impl ExpiringSession for StartRideError {
    open spec fn expired() -> Self {
        StartRideError::SessionExpired
    }

    open spec fn unexpected(status: u16) -> Self {
        StartRideError::Unexpected(status)
    }

    fn session_expired() -> (r: Self) {
        StartRideError::SessionExpired
    }

    fn unexpected_status(status: u16) -> (r: Self) {
        StartRideError::Unexpected(status)
    }
}

impl ExpiringSession for CompleteRideError {
    open spec fn expired() -> Self {
        CompleteRideError::SessionExpired
    }

    open spec fn unexpected(status: u16) -> Self {
        CompleteRideError::Unexpected(status)
    }

    fn session_expired() -> (r: Self) {
        CompleteRideError::SessionExpired
    }

    fn unexpected_status(status: u16) -> (r: Self) {
        CompleteRideError::Unexpected(status)
    }
}

impl ExpiringSession for RateDriverError {
    open spec fn expired() -> Self {
        RateDriverError::SessionExpired
    }

    open spec fn unexpected(status: u16) -> Self {
        RateDriverError::Unexpected(status)
    }

    fn session_expired() -> (r: Self) {
        RateDriverError::SessionExpired
    }

    fn unexpected_status(status: u16) -> (r: Self) {
        RateDriverError::Unexpected(status)
    }
}

impl ExpiringSession for ShareRideLocationError {
    open spec fn expired() -> Self {
        ShareRideLocationError::SessionExpired
    }

    open spec fn unexpected(status: u16) -> Self {
        ShareRideLocationError::Unexpected(status)
    }

    fn session_expired() -> (r: Self) {
        ShareRideLocationError::SessionExpired
    }

    fn unexpected_status(status: u16) -> (r: Self) {
        ShareRideLocationError::Unexpected(status)
    }
}

impl ExpiringSession for GetRideError {
    open spec fn expired() -> Self {
        GetRideError::SessionExpired
    }

    open spec fn unexpected(status: u16) -> Self {
        GetRideError::Unexpected(status)
    }

    fn session_expired() -> (r: Self) {
        GetRideError::SessionExpired
    }

    fn unexpected_status(status: u16) -> (r: Self) {
        GetRideError::Unexpected(status)
    }
}

} // verus!
