//! Getting the device's current position, which each platform does its own
//! way. What the screens need to tell apart is a refused permission, which
//! asks the user to enable it, from any other failure.
use vstd::prelude::*;

use crate::models::Coordinates;

verus! {

/// Failures of asking for the current position.
#[derive(Debug, Clone, PartialEq)]
pub enum LocationError {
    PermissionDenied,
    /// Any other failure (no support, timeout, no bridge on this platform),
    /// with a message ready to show.
    Unavailable(String),
}

impl LocationError {
    /// The text shown to the user for this error.
    pub open spec fn spec_message(&self) -> Seq<char> {
        match self {
            LocationError::PermissionDenied => "Habilita el permiso de ubicacion para compartirla durante el viaje."@,
            LocationError::Unavailable(message) => message@,
        }
    }

    pub fn message(&self) -> (r: String)
        ensures
            r@ == self.spec_message(),
    {
        match self {
            LocationError::PermissionDenied => String::from_str(
                "Habilita el permiso de ubicacion para compartirla durante el viaje.",
            ),
            LocationError::Unavailable(message) => message.clone(),
        }
    }
}

/// The message of the native app, which has no bridge to the platform's
/// location service yet.
pub open spec fn native_unavailable_text() -> Seq<char> {
    "Compartir ubicacion todavia no esta disponible en la app movil."@
}

/// The position provider of the native app. It has no bridge to the
/// platform's location service yet, so it always answers `Unavailable`,
/// plainly, rather than pretend that tracking works there.
#[derive(Debug, Clone, Copy, Default)]
pub struct NativeLocationProvider;

impl NativeLocationProvider {
    pub fn new() -> (r: Self) {
        NativeLocationProvider
    }

    /// The answer to a request for the current position.
    pub fn current_position(&self) -> (r: Result<Coordinates, LocationError>)
        ensures
            r matches Err(LocationError::Unavailable(message)) && message@ == native_unavailable_text(),
    {
        Err(
            LocationError::Unavailable(
                String::from_str("Compartir ubicacion todavia no esta disponible en la app movil."),
            ),
        )
    }
}

} // verus!
