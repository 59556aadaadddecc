//! The errand screens: what a passenger's request needs before it is sent,
//! the price that a driver agrees to, and the texts of an errand's states.
use vstd::prelude::*;

use crate::models::{Coordinates, ErrandStatus};
use crate::text::{parse_positive_i64, parsed_positive_i64, trim, trimmed};

verus! {

/// An errand request ready to be sent: where to pick it up, the destination
/// site, and what to do, trimmed.
#[derive(Debug, Clone, PartialEq)]
pub struct ErrandRequest {
    pub origin: Coordinates,
    pub destination_site_id: u64,
    pub description: String,
}

/// The request that a passenger's choices make, if they are complete: a
/// point picked on the map, a destination site chosen, and a description
/// that is not blank, which is sent trimmed.
pub fn prepare_errand(
    origin: Option<Coordinates>,
    destination_site_id: Option<u64>,
    description: &str,
) -> (r: Option<ErrandRequest>)
    ensures
        match r {
            Some(request) => {
                &&& origin == Some(request.origin)
                &&& destination_site_id == Some(request.destination_site_id)
                &&& request.description@ == trimmed(description@)
                &&& trimmed(description@).len() > 0
            },
            None => origin is None || destination_site_id is None || trimmed(description@).len() == 0,
        },
{
    let trimmed_description = trim(description);
    match (origin, destination_site_id) {
        (Some(origin), Some(site)) => if trimmed_description.unicode_len() > 0 {
            Some(
                ErrandRequest {
                    origin,
                    destination_site_id: site,
                    description: trimmed_description.to_owned(),
                },
            )
        } else {
            None
        },
        _ => None,
    }
}

/// Whether the send button is offered: the request is complete and none is
/// under way.
pub fn can_submit_errand(
    origin: Option<Coordinates>,
    destination_site_id: Option<u64>,
    description: &str,
    is_submitting: bool,
) -> (r: bool)
    ensures
        r == (origin is Some && destination_site_id is Some && trimmed(description@).len() > 0
            && !is_submitting),
{
    origin.is_some() && destination_site_id.is_some() && trim(description).unicode_len() > 0
        && !is_submitting
}

/// The price that a driver typed to accept an errand, if it is one: the
/// trimmed text reads as a whole number (`str::parse::<i64>`) of at least 1.
pub fn read_agreed_price(text: &str) -> (r: Option<i64>)
    ensures
        r == parsed_positive_i64(trimmed(text@)),
{
    parse_positive_i64(trim(text))
}

/// What the state of a requested errand means for the passenger.
pub fn errand_status_label(status: ErrandStatus) -> (r: &'static str)
    ensures
        r@ == match status {
            ErrandStatus::Requested => "Esperando a que un conductor lo acepte."@,
            ErrandStatus::Accepted => "Un conductor acepto tu mandado."@,
            ErrandStatus::Completed => "Tu mandado ya se completo."@,
        },
{
    match status {
        ErrandStatus::Requested => "Esperando a que un conductor lo acepte.",
        ErrandStatus::Accepted => "Un conductor acepto tu mandado.",
        ErrandStatus::Completed => "Tu mandado ya se completo.",
    }
}

} // verus!
