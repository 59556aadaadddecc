//! The ride history, shared with the driver's earnings screen: the state of
//! each ride, the fare it shows, and when the driver may ask for earnings.
use vstd::prelude::*;

use crate::models::{Ride, RideStatus};
use crate::text::{trim, trimmed};

verus! {

/// The fare that the history shows for a ride: the final fare once it is
/// known, the estimate before.
pub fn ride_fare(ride: &Ride) -> (r: i64)
    ensures
        r == match ride.final_fare {
            Some(fare) => fare,
            None => ride.estimated_fare,
        },
{
    match ride.final_fare {
        Some(fare) => fare,
        None => ride.estimated_fare,
    }
}

/// Whether the driver may ask for the earnings between `from` and `to`: both
/// dates are filled in (blanks do not count), and no request is under way.
pub fn can_request_earnings(from: &str, to: &str, is_loading: bool) -> (r: bool)
    ensures
        r == (trimmed(from@).len() > 0 && trimmed(to@).len() > 0 && !is_loading),
{
    let from_filled = trim(from).unicode_len() > 0;
    let to_filled = trim(to).unicode_len() > 0;
    from_filled && to_filled && !is_loading
}

/// The state of a ride in the history, read the same by passenger and
/// driver.
pub fn ride_status_label(status: RideStatus) -> (r: &'static str)
    ensures
        r@ == match status {
            RideStatus::Requested => "Esperando conductor"@,
            RideStatus::Accepted => "Conductor asignado"@,
            RideStatus::InProgress => "En curso"@,
            RideStatus::Completed => "Completado"@,
            RideStatus::Cancelled => "Cancelado"@,
        },
{
    match status {
        RideStatus::Requested => "Esperando conductor",
        RideStatus::Accepted => "Conductor asignado",
        RideStatus::InProgress => "En curso",
        RideStatus::Completed => "Completado",
        RideStatus::Cancelled => "Cancelado",
    }
}

} // verus!
