//! The screen where a passenger estimates, requests and follows a ride: the
//! route placed on the map, what the screen offers for each state of the
//! ride, the map of a ride being followed, and the texts.
use vstd::prelude::*;

use crate::models::{Coordinates, PaymentStatus, RideStatus, RideTracking};

verus! {

/// Which end of the route the next tap on the map places.
#[derive(Debug, Clone, Copy, PartialEq, Eq, Structural)]
pub enum PickTarget {
    Origin,
    Destination,
}

/// The route that the passenger places on the map, tap by tap.
#[derive(Debug, Clone, Copy, PartialEq, Eq, Structural)]
pub struct RoutePick {
    pub origin: Option<Coordinates>,
    pub destination: Option<Coordinates>,
    pub target: PickTarget,
}

/// A point on a map with its label.
#[derive(Debug, Clone, Copy, PartialEq, Eq)]
pub struct MapPin {
    pub position: Coordinates,
    pub label: &'static str,
}

/// The route before any tap: nothing placed, the origin first.
pub open spec fn fresh_route() -> RoutePick {
    RoutePick { origin: None, destination: None, target: PickTarget::Origin }
}

/// The route after a tap at `point`: the end being placed takes the point,
/// the other end stays; placing the origin moves on to the destination.
pub open spec fn route_after_tap(route: RoutePick, point: Coordinates) -> RoutePick {
    match route.target {
        PickTarget::Origin => RoutePick {
            origin: Some(point),
            destination: route.destination,
            target: PickTarget::Destination,
        },
        PickTarget::Destination => RoutePick { destination: Some(point), ..route },
    }
}

/// Whether both ends are placed, so that the fare can be estimated.
pub open spec fn route_is_complete(route: RoutePick) -> bool {
    route.origin is Some && route.destination is Some
}

/// Two taps on a fresh route place the origin, then the destination, and
/// complete it.
pub proof fn two_taps_place_the_route(first: Coordinates, second: Coordinates)
    ensures
        route_after_tap(route_after_tap(fresh_route(), first), second) == (RoutePick {
            origin: Some(first),
            destination: Some(second),
            target: PickTarget::Destination,
        }),
        route_is_complete(route_after_tap(route_after_tap(fresh_route(), first), second)),
{
}

/// A tap never takes a placed end away: a complete route stays complete.
pub proof fn a_tap_keeps_a_route_complete(route: RoutePick, point: Coordinates)
    requires
        route_is_complete(route),
    ensures
        route_is_complete(route_after_tap(route, point)),
{
}

impl RoutePick {
    pub fn new() -> (r: Self)
        ensures
            r == fresh_route(),
    {
        RoutePick { origin: None, destination: None, target: PickTarget::Origin }
    }

    /// A tap on the map at `point` (see `route_after_tap`).
    pub fn tap(&mut self, point: Coordinates)
        ensures
            *final(self) == route_after_tap(*old(self), point),
    {
        match self.target {
            PickTarget::Origin => {
                self.origin = Some(point);
                self.target = PickTarget::Destination;
            },
            PickTarget::Destination => {
                self.destination = Some(point);
            },
        }
    }

    /// The passenger chooses which end the next tap places.
    pub fn choose_target(&mut self, target: PickTarget)
        ensures
            *final(self) == (RoutePick { target, ..*old(self) }),
    {
        self.target = target;
    }

    /// Whether the fare can be estimated: both ends are placed.
    pub fn can_estimate(&self) -> (r: bool)
        ensures
            r == route_is_complete(*self),
    {
        self.origin.is_some() && self.destination.is_some()
    }

    /// What the screen asks the passenger to do next.
    pub fn instructions(&self) -> (r: &'static str)
        ensures
            r@ == match self.target {
                PickTarget::Origin => "Toca el mapa para elegir el origen."@,
                PickTarget::Destination => "Toca el mapa para elegir el destino."@,
            },
    {
        match self.target {
            PickTarget::Origin => "Toca el mapa para elegir el origen.",
            PickTarget::Destination => "Toca el mapa para elegir el destino.",
        }
    }

    /// The pins of the placed ends, the origin first.
    pub fn pins(&self) -> (r: Vec<MapPin>)
        ensures
            r@ == match (self.origin, self.destination) {
                (Some(o), Some(d)) => seq![MapPin { position: o, label: "Origen" }, MapPin { position: d, label: "Destino" }],
                (Some(o), None) => seq![MapPin { position: o, label: "Origen" }],
                (None, Some(d)) => seq![MapPin { position: d, label: "Destino" }],
                (None, None) => Seq::<MapPin>::empty(),
            },
    {
        let mut pins: Vec<MapPin> = Vec::new();
        if let Some(o) = self.origin {
            pins.push(MapPin { position: o, label: "Origen" });
        }
        if let Some(d) = self.destination {
            pins.push(MapPin { position: d, label: "Destino" });
        }
        proof {
            assert(pins@ =~= match (self.origin, self.destination) {
                (Some(o), Some(d)) => seq![MapPin { position: o, label: "Origen" }, MapPin { position: d, label: "Destino" }],
                (Some(o), None) => seq![MapPin { position: o, label: "Origen" }],
                (None, Some(d)) => seq![MapPin { position: d, label: "Destino" }],
                (None, None) => Seq::<MapPin>::empty(),
            });
        }
        pins
    }
}

/// Whether the passenger's ride is still followed in real time: until it is
/// completed or cancelled there is something to follow.
pub fn ride_is_tracked(status: RideStatus) -> (r: bool)
    ensures
        r == (status == RideStatus::Requested || status == RideStatus::Accepted || status
            == RideStatus::InProgress),
{
    match status {
        RideStatus::Requested | RideStatus::Accepted | RideStatus::InProgress => true,
        RideStatus::Completed | RideStatus::Cancelled => false,
    }
}

/// Whether the passenger may still cancel the ride: while it waits for a
/// driver or has one on the way; a ride in progress can only be completed.
pub fn ride_is_cancellable(status: RideStatus) -> (r: bool)
    ensures
        r == (status == RideStatus::Requested || status == RideStatus::Accepted),
{
    match status {
        RideStatus::Requested | RideStatus::Accepted => true,
        _ => false,
    }
}

/// The label of the cancel button: a request that no driver took yet is
/// withdrawn, an accepted ride is cancelled.
pub fn cancel_button_label(status: RideStatus) -> (r: &'static str)
    ensures
        r@ == if status == RideStatus::Requested {
            "Cancelar solicitud"@
        } else {
            "Cancelar viaje"@
        },
{
    match status {
        RideStatus::Requested => "Cancelar solicitud",
        _ => "Cancelar viaje",
    }
}

/// Where the map of a followed ride centers: on the driver once their
/// position is known, on the origin before.
pub fn tracking_map_center(tracking: &RideTracking) -> (r: Coordinates)
    ensures
        r == match tracking.driver_location {
            Some(position) => position,
            None => tracking.ride.origin,
        },
{
    match tracking.driver_location {
        Some(position) => position,
        None => tracking.ride.origin,
    }
}

/// The pins of a followed ride: its origin, its destination, and the driver
/// once their position is known.
pub fn tracking_pins(tracking: &RideTracking) -> (r: Vec<MapPin>)
    ensures
        r@ == match tracking.driver_location {
            Some(position) => seq![
                MapPin { position: tracking.ride.origin, label: "Origen" },
                MapPin { position: tracking.ride.destination, label: "Destino" },
                MapPin { position, label: "Tu conductor" },
            ],
            None => seq![
                MapPin { position: tracking.ride.origin, label: "Origen" },
                MapPin { position: tracking.ride.destination, label: "Destino" },
            ],
        },
{
    let mut pins: Vec<MapPin> = Vec::new();
    pins.push(MapPin { position: tracking.ride.origin, label: "Origen" });
    pins.push(MapPin { position: tracking.ride.destination, label: "Destino" });
    if let Some(position) = tracking.driver_location {
        pins.push(MapPin { position, label: "Tu conductor" });
    }
    proof {
        assert(pins@ =~= match tracking.driver_location {
            Some(position) => seq![
                MapPin { position: tracking.ride.origin, label: "Origen" },
                MapPin { position: tracking.ride.destination, label: "Destino" },
                MapPin { position, label: "Tu conductor" },
            ],
            None => seq![
                MapPin { position: tracking.ride.origin, label: "Origen" },
                MapPin { position: tracking.ride.destination, label: "Destino" },
            ],
        });
    }
    pins
}

/// What a cancellation costs. A missing flag (a cancellation by the assigned
/// driver) reads as no fee.
pub fn cancellation_fee_message(fee_applies: Option<bool>) -> (r: &'static str)
    ensures
        r@ == if fee_applies == Some(true) {
            "Se aplicara una penalizacion porque el conductor ya se habia desplazado hacia el punto de recogida."@
        } else {
            "No se aplico ninguna penalizacion."@
        },
{
    match fee_applies {
        Some(true) => {
            "Se aplicara una penalizacion porque el conductor ya se habia desplazado hacia el punto de recogida."
        },
        Some(false) | None => "No se aplico ninguna penalizacion.",
    }
}

/// What the state of the passenger's ride means for the passenger.
pub fn ride_status_label(status: RideStatus) -> (r: &'static str)
    ensures
        r@ == match status {
            RideStatus::Requested => "Esperando a que un conductor lo acepte."@,
            RideStatus::Accepted => "Un conductor acepto tu viaje."@,
            RideStatus::InProgress => "Tu viaje esta en curso."@,
            RideStatus::Completed => "Tu viaje ya se completo."@,
            RideStatus::Cancelled => "Este viaje fue cancelado."@,
        },
{
    match status {
        RideStatus::Requested => "Esperando a que un conductor lo acepte.",
        RideStatus::Accepted => "Un conductor acepto tu viaje.",
        RideStatus::InProgress => "Tu viaje esta en curso.",
        RideStatus::Completed => "Tu viaje ya se completo.",
        RideStatus::Cancelled => "Este viaje fue cancelado.",
    }
}

/// What the charge of a completed ride came to. A failed charge never
/// suggests paying again: the backend offers no way to retry it.
pub fn payment_result_message(status: PaymentStatus) -> (r: &'static str)
    ensures
        r@ == match status {
            PaymentStatus::Paid => "El cobro de tu viaje se proceso correctamente. Podras ver el detalle en la seccion \"Historial de viajes\"."@,
            PaymentStatus::Failed => "No pudimos procesar el cobro de tu viaje. Si el problema persiste, contacta a soporte."@,
            PaymentStatus::Pending => "Estamos procesando el cobro de tu viaje."@,
        },
{
    match status {
        PaymentStatus::Paid => {
            "El cobro de tu viaje se proceso correctamente. Podras ver el detalle en la seccion \"Historial de viajes\"."
        },
        PaymentStatus::Failed => {
            "No pudimos procesar el cobro de tu viaje. Si el problema persiste, contacta a soporte."
        },
        PaymentStatus::Pending => "Estamos procesando el cobro de tu viaje.",
    }
}

} // verus!
