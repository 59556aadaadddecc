//! Texts of the profile screen.
use vstd::prelude::*;

use crate::models::Role;

verus! {

/// The name of an account's role.
pub fn role_label(role: Role) -> (r: &'static str)
    ensures
        r@ == match role {
            Role::Passenger => "Pasajero"@,
            Role::Driver => "Conductor"@,
        },
{
    match role {
        Role::Passenger => "Pasajero",
        Role::Driver => "Conductor",
    }
}

} // verus!
