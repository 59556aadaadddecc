//! The values exchanged with the backend's `/api/v1`, as plain data.
//!
//! Coordinates are carried as the IEEE-754 binary64 bit patterns of their
//! degrees: the library never computes with them, it only moves them from a
//! reply to the screen, and a bit pattern moves them without loss.
use vstd::prelude::*;

verus! {

/// The role of an account.
#[derive(Debug, Clone, Copy, PartialEq, Eq, Structural)]
pub enum Role {
    Passenger,
    Driver,
}

/// An account as the backend describes it.
#[derive(Debug, PartialEq)]
pub struct User {
    pub id: u64,
    pub name: String,
    pub email: String,
    pub phone: String,
    /// Whether the phone number was confirmed with a code sent by SMS.
    pub phone_verified: bool,
    pub role: Role,
}

impl Clone for User {
    fn clone(&self) -> (r: Self)
        ensures
            r == *self,
    {
        User {
            id: self.id,
            name: self.name.clone(),
            email: self.email.clone(),
            phone: self.phone.clone(),
            phone_verified: self.phone_verified,
            role: self.role,
        }
    }
}

/// The access token of a session.
#[derive(Debug, PartialEq)]
pub struct AuthToken {
    pub access_token: String,
    pub token_type: String,
    pub expires_in: Option<u64>,
}

impl Clone for AuthToken {
    fn clone(&self) -> (r: Self)
        ensures
            r == *self,
    {
        AuthToken {
            access_token: self.access_token.clone(),
            token_type: self.token_type.clone(),
            expires_in: self.expires_in,
        }
    }
}

/// The reply of a login or of a registration: the account and its token.
#[derive(Debug, PartialEq)]
pub struct AuthenticatedUser {
    pub user: User,
    pub token: AuthToken,
}

impl Clone for AuthenticatedUser {
    fn clone(&self) -> (r: Self)
        ensures
            r == *self,
    {
        AuthenticatedUser { user: self.user.clone(), token: self.token.clone() }
    }
}

/// The messages that the backend reports for one field of a rejected request.
#[derive(Debug, Clone, PartialEq)]
pub struct FieldError {
    pub field: String,
    pub messages: Vec<String>,
}

/// The error body of the backend: a message, and for a validation failure
/// the messages of each field that failed.
#[derive(Debug, Clone, PartialEq)]
pub struct ApiErrorBody {
    pub message: String,
    pub errors: Option<Vec<FieldError>>,
}

/// The body of `POST /api/v1/auth/login`.
#[derive(Debug, Clone, PartialEq)]
pub struct LoginPayload {
    pub email: String,
    pub password: String,
}

/// The body of `POST /api/v1/auth/register/passenger`.
#[derive(Debug, Clone, PartialEq)]
pub struct RegisterPassengerPayload {
    pub name: String,
    pub email: String,
    pub phone: String,
    pub password: String,
}

/// The body of `POST /api/v1/auth/register/driver`.
#[derive(Debug, Clone, PartialEq)]
pub struct RegisterDriverPayload {
    pub name: String,
    pub email: String,
    pub phone: String,
    pub password: String,
    pub license_number: String,
}

/// The body of `PATCH /api/v1/me`: each absent field is left out of the
/// request, so that the backend keeps its current value.
#[derive(Debug, Clone, PartialEq, Default)]
pub struct UpdateProfilePayload {
    pub name: Option<String>,
    pub email: Option<String>,
    pub phone: Option<String>,
}

/// The body of `POST /api/v1/me/phone/verification/confirm`.
#[derive(Debug, Clone, PartialEq)]
pub struct ConfirmPhoneVerificationPayload {
    pub code: String,
}

/// A document that a driver has to have verified.
#[derive(Debug, Clone, Copy, PartialEq, Eq, Structural)]
pub enum DocumentType {
    Identidad,
    TarjetaPropiedad,
}

/// The review state of an uploaded document.
#[derive(Debug, Clone, Copy, PartialEq, Eq, Structural)]
pub enum DocumentStatus {
    Pending,
    Approved,
    Rejected,
}

/// One required document: `status` is `None` while it was not uploaded.
#[derive(Debug, PartialEq)]
pub struct DriverDocumentStatus {
    pub document_type: DocumentType,
    pub status: Option<DocumentStatus>,
    pub rejection_reason: Option<String>,
    pub uploaded_at: Option<String>,
}

impl Clone for DriverDocumentStatus {
    fn clone(&self) -> (r: Self)
        ensures
            r == *self,
    {
        DriverDocumentStatus {
            document_type: self.document_type,
            status: self.status,
            rejection_reason: match &self.rejection_reason {
                Some(reason) => Some(reason.clone()),
                None => None,
            },
            uploaded_at: match &self.uploaded_at {
                Some(at) => Some(at.clone()),
                None => None,
            },
        }
    }
}

/// The overall verification state of a driver.
#[derive(Debug, Clone, Copy, PartialEq, Eq, Structural)]
pub enum VerificationStatus {
    Pending,
    Verified,
    Rejected,
}

/// The reply of `GET /api/v1/me/documents`.
#[derive(Debug, Clone, PartialEq)]
pub struct DriverVerification {
    pub verification_status: VerificationStatus,
    pub documents: Vec<DriverDocumentStatus>,
}

/// The reply of `POST /api/v1/me/documents`.
#[derive(Debug, Clone, PartialEq)]
pub struct UploadedDriverDocument {
    pub document_type: DocumentType,
    pub status: DocumentStatus,
    pub uploaded_at: String,
}

/// The kind of a vehicle.
#[derive(Debug, Clone, Copy, PartialEq, Eq, Structural)]
pub enum VehicleType {
    Motocarro,
    Motocarga,
}

/// The body of `POST /api/v1/me/vehicle`; `plate` travels trimmed and in
/// upper case.
#[derive(Debug, Clone, PartialEq)]
pub struct RegisterVehiclePayload {
    pub plate: String,
    pub vehicle_type: VehicleType,
    pub year: u16,
}

/// A driver's vehicle.
#[derive(Debug, Clone, PartialEq)]
pub struct Vehicle {
    pub plate: String,
    pub vehicle_type: VehicleType,
    pub year: u16,
}

/// The body of `PATCH /api/v1/me/vehicle`; absent fields are left out.
#[derive(Debug, Clone, PartialEq, Default)]
pub struct UpdateVehiclePayload {
    pub plate: Option<String>,
    pub vehicle_type: Option<VehicleType>,
    pub year: Option<u16>,
}

/// A point on the map: latitude and longitude in degrees, each held as the
/// bit pattern of its `f64` value (`f64::to_bits`).
#[derive(Debug, Clone, Copy, PartialEq, Eq, Structural)]
pub struct Coordinates {
    pub latitude_bits: u64,
    pub longitude_bits: u64,
}

/// The body of `POST /api/v1/rides/estimate`.
#[derive(Debug, Clone, Copy, PartialEq, Eq, Structural)]
pub struct RideEstimateRequestPayload {
    pub origin: Coordinates,
    pub destination: Coordinates,
}

/// The reply of `POST /api/v1/rides/estimate`; the fare is an integer in the
/// smallest unit of `currency`.
#[derive(Debug, Clone, PartialEq)]
pub struct RideEstimate {
    pub distance_meters: u32,
    pub duration_seconds: u32,
    pub currency: String,
    pub estimated_fare: i64,
    pub is_estimate: bool,
}

/// The state of a ride.
#[derive(Debug, Clone, Copy, PartialEq, Eq, Structural)]
pub enum RideStatus {
    Requested,
    Accepted,
    InProgress,
    Completed,
    Cancelled,
}

/// The body of `POST /api/v1/rides`.
#[derive(Debug, Clone, Copy, PartialEq, Eq, Structural)]
pub struct RideRequestPayload {
    pub origin: Coordinates,
    pub destination: Coordinates,
}

/// The driver assigned to a ride.
#[derive(Debug, PartialEq)]
pub struct RideDriver {
    pub id: u64,
    pub name: String,
}

impl Clone for RideDriver {
    fn clone(&self) -> (r: Self)
        ensures
            r == *self,
    {
        RideDriver { id: self.id, name: self.name.clone() }
    }
}

/// The outcome of charging a completed ride.
#[derive(Debug, Clone, Copy, PartialEq, Eq, Structural)]
pub enum PaymentStatus {
    Pending,
    Paid,
    Failed,
}

/// The payment of a ride.
#[derive(Debug, Clone, Copy, PartialEq, Eq, Structural)]
pub struct Payment {
    pub status: PaymentStatus,
}

/// A ride. The optional fields stay `None` until the step that fills them
/// (accepting, starting, completing, charging) happened.
#[derive(Debug, Clone, PartialEq)]
pub struct Ride {
    pub id: u64,
    pub status: RideStatus,
    pub origin: Coordinates,
    pub destination: Coordinates,
    pub distance_meters: u32,
    pub duration_seconds: u32,
    pub currency: String,
    pub estimated_fare: i64,
    pub driver: Option<RideDriver>,
    pub requested_at: String,
    pub started_at: Option<String>,
    pub completed_at: Option<String>,
    pub final_fare: Option<i64>,
    pub payment: Option<Payment>,
}

/// The reply of `POST /api/v1/rides/{ride}/cancel`: the ride, and whether a
/// cancellation fee applies (absent when the assigned driver cancelled).
#[derive(Debug, Clone, PartialEq)]
pub struct RideCancellation {
    pub ride: Ride,
    pub cancellation_fee_applies: Option<bool>,
}

/// The reply of `GET /api/v1/rides/{ride}/receipt`.
#[derive(Debug, Clone, PartialEq)]
pub struct RideReceipt {
    pub ride_id: u64,
    pub currency: String,
    pub base_fare: i64,
    pub distance_fare: i64,
    pub time_fare: i64,
    pub waiting_fee: i64,
    pub subtotal: i64,
    pub minimum_applied: bool,
    pub total: i64,
    pub payment_status: PaymentStatus,
    pub completed_at: String,
}

/// The body of `POST /api/v1/rides/{ride}/rate-driver`; an absent comment is
/// left out of the request.
#[derive(Debug, Clone, PartialEq)]
pub struct RateDriverPayload {
    pub score: u8,
    pub comment: Option<String>,
}

/// The reply of `POST /api/v1/rides/{ride}/rate-driver`.
#[derive(Debug, Clone, PartialEq)]
pub struct RideRating {
    pub ride_id: u64,
    pub score: u8,
    pub comment: Option<String>,
    pub rated_at: String,
}

/// The body of `POST /api/v1/broadcasting/auth`.
#[derive(Debug, Clone, PartialEq)]
pub struct BroadcastAuthPayload {
    pub socket_id: String,
    pub channel_name: String,
}

/// The reply of `POST /api/v1/broadcasting/auth`: the signature of a
/// subscription.
#[derive(Debug, PartialEq)]
pub struct BroadcastAuthResponse {
    pub auth: String,
}

impl Clone for BroadcastAuthResponse {
    fn clone(&self) -> (r: Self)
        ensures
            r == *self,
    {
        BroadcastAuthResponse { auth: self.auth.clone() }
    }
}

/// The reply of `GET /api/v1/me/earnings`.
#[derive(Debug, Clone, PartialEq)]
pub struct DriverEarningsSummary {
    pub from: String,
    pub to: String,
    pub currency: String,
    pub total_earned: i64,
    pub completed_rides: u32,
}

/// The state of an errand.
#[derive(Debug, Clone, Copy, PartialEq, Eq, Structural)]
pub enum ErrandStatus {
    Requested,
    Accepted,
    Completed,
}

/// A place of the backend's catalogue, where an errand is delivered.
#[derive(Debug, Clone, PartialEq)]
pub struct ErrandSite {
    pub id: u64,
    pub name: String,
}

/// An errand: what to do, where to pick it up, the site where it goes, and,
/// once a driver accepted it, the price agreed with the passenger.
#[derive(Debug, Clone, PartialEq)]
pub struct Errand {
    pub id: u64,
    pub status: ErrandStatus,
    pub description: String,
    pub origin: Coordinates,
    pub destination: ErrandSite,
    pub has_photo: bool,
    pub agreed_price: Option<i64>,
}

/// The payload of the `ride.requested` event on a driver's channel: a new
/// ride nearby.
#[derive(Debug, PartialEq)]
pub struct NearbyRideRequest {
    pub ride_id: u64,
    pub origin: Coordinates,
    pub destination: Coordinates,
    pub currency: String,
    pub estimated_fare: i64,
}

impl Clone for NearbyRideRequest {
    fn clone(&self) -> (r: Self)
        ensures
            r == *self,
    {
        NearbyRideRequest {
            ride_id: self.ride_id,
            origin: self.origin,
            destination: self.destination,
            currency: self.currency.clone(),
            estimated_fare: self.estimated_fare,
        }
    }
}

/// The payload of the `ride.unavailable` event: another driver took the ride.
#[derive(Debug, Clone, Copy, PartialEq, Eq, Structural)]
pub struct RideNoLongerAvailable {
    pub ride_id: u64,
}

/// What the `data` of an event on a driver's channel decoded to, read as each
/// of the two payloads that this channel carries: `None` where it does not
/// decode as that payload.
#[derive(Debug, Clone, PartialEq)]
pub struct NearbyRideData {
    pub requested: Option<NearbyRideRequest>,
    pub unavailable: Option<RideNoLongerAvailable>,
}

/// Whether some request in `requests` is for the ride `ride_id`.
pub open spec fn lists_ride(requests: Seq<NearbyRideRequest>, ride_id: u64) -> bool {
    exists|i: int| 0 <= i < requests.len() && (#[trigger] requests[i]).ride_id == ride_id
}

/// Whether no two requests in `requests` are for the same ride.
pub open spec fn distinct_rides(requests: Seq<NearbyRideRequest>) -> bool {
    forall|i: int, j: int|
        0 <= i < requests.len() && 0 <= j < requests.len() && i != j ==> (#[trigger] requests[i]).ride_id
            != (#[trigger] requests[j]).ride_id
}

/// The test that keeps every request but those for the ride `ride_id`.
pub open spec fn not_for_ride(ride_id: u64) -> spec_fn(NearbyRideRequest) -> bool {
    |r: NearbyRideRequest| r.ride_id != ride_id
}

/// The list of nearby requests after the event `event_name` with `data`:
/// `ride.requested` adds a ride that is not listed yet, `ride.unavailable`
/// removes every request for its ride, and any other event, or data that did
/// not decode, changes nothing.
pub open spec fn nearby_after_event(
    requests: Seq<NearbyRideRequest>,
    event_name: Seq<char>,
    data: NearbyRideData,
) -> Seq<NearbyRideRequest> {
    if event_name == "ride.requested"@ {
        match data.requested {
            Some(request) => if lists_ride(requests, request.ride_id) {
                requests
            } else {
                requests.push(request)
            },
            None => requests,
        }
    } else if event_name == "ride.unavailable"@ {
        match data.unavailable {
            Some(gone) => requests.filter(not_for_ride(gone.ride_id)),
            None => requests,
        }
    } else {
        requests
    }
}

pub(crate) proof fn lemma_filter_rides(requests: Seq<NearbyRideRequest>, gone: u64)
    ensures
        forall|id: u64|
            #[trigger] lists_ride(requests.filter(not_for_ride(gone)), id) == (lists_ride(
                requests,
                id,
            ) && id != gone),
        distinct_rides(requests) ==> distinct_rides(requests.filter(not_for_ride(gone))),
    decreases requests.len(),
{
    reveal_with_fuel(Seq::filter, 1);
    if requests.len() > 0 {
        let rest = requests.drop_last();
        let last = requests.last();
        lemma_filter_rides(rest, gone);
        let kept = requests.filter(not_for_ride(gone));
        let kept_rest = rest.filter(not_for_ride(gone));
        assert forall|id: u64|
            #[trigger] lists_ride(kept, id) == (lists_ride(requests, id) && id != gone) by {
            if lists_ride(requests, id) && id != gone {
                let i = choose|i: int| 0 <= i < requests.len() && (#[trigger] requests[i]).ride_id == id;
                if i < requests.len() - 1 {
                    assert(rest[i].ride_id == id);
                    assert(lists_ride(kept_rest, id));
                    let k = choose|k: int| 0 <= k < kept_rest.len() && (#[trigger] kept_rest[k]).ride_id == id;
                    assert(kept[k] == kept_rest[k]);
                } else {
                    assert(kept[kept.len() - 1] == last);
                }
            }
            if lists_ride(kept, id) {
                let k = choose|k: int| 0 <= k < kept.len() && (#[trigger] kept[k]).ride_id == id;
                if k < kept_rest.len() {
                    assert(kept_rest[k] == kept[k]);
                    assert(lists_ride(kept_rest, id));
                    let i = choose|i: int| 0 <= i < rest.len() && (#[trigger] rest[i]).ride_id == id;
                    assert(requests[i] == rest[i]);
                } else {
                    assert(kept[k] == last);
                    assert(requests[requests.len() - 1] == last);
                }
            }
        }
        if distinct_rides(requests) {
            assert(distinct_rides(rest)) by {
                assert forall|i: int, j: int|
                    0 <= i < rest.len() && 0 <= j < rest.len() && i != j implies (#[trigger] rest[i]).ride_id
                    != (#[trigger] rest[j]).ride_id by {
                    assert(rest[i] == requests[i] && rest[j] == requests[j]);
                }
            }
            if last.ride_id != gone {
                assert(!lists_ride(rest, last.ride_id)) by {
                    if lists_ride(rest, last.ride_id) {
                        let i = choose|i: int| 0 <= i < rest.len() && (#[trigger] rest[i]).ride_id == last.ride_id;
                        assert(requests[i] == rest[i]);
                        assert(requests[requests.len() - 1] == last);
                    }
                }
                assert(!lists_ride(kept_rest, last.ride_id));
                assert forall|i: int, j: int|
                    0 <= i < kept.len() && 0 <= j < kept.len() && i != j implies (#[trigger] kept[i]).ride_id
                    != (#[trigger] kept[j]).ride_id by {
                    if i < kept_rest.len() && j < kept_rest.len() {
                        assert(kept[i] == kept_rest[i] && kept[j] == kept_rest[j]);
                    } else if i < kept_rest.len() {
                        assert(kept[i] == kept_rest[i]);
                    } else {
                        assert(kept[j] == kept_rest[j]);
                    }
                }
            }
        }
    }
}

/// A driver's list of nearby requests never holds two requests for the same
/// ride: every event keeps it so.
pub proof fn nearby_requests_stay_distinct(
    requests: Seq<NearbyRideRequest>,
    event_name: Seq<char>,
    data: NearbyRideData,
)
    requires
        distinct_rides(requests),
    ensures
        distinct_rides(nearby_after_event(requests, event_name, data)),
{
    lemma_filter_rides(requests, 0);
    if event_name == "ride.requested"@ {
        if let Some(request) = data.requested {
            if !lists_ride(requests, request.ride_id) {
                let after = requests.push(request);
                assert forall|i: int, j: int|
                    0 <= i < after.len() && 0 <= j < after.len() && i != j implies (#[trigger] after[i]).ride_id
                    != (#[trigger] after[j]).ride_id by {
                    if i < requests.len() && j < requests.len() {
                        assert(after[i] == requests[i] && after[j] == requests[j]);
                    } else if i < requests.len() {
                        assert(after[i] == requests[i]);
                    } else {
                        assert(after[j] == requests[j]);
                    }
                }
            }
        }
    } else if event_name == "ride.unavailable"@ {
        if let Some(gone) = data.unavailable {
            lemma_filter_rides(requests, gone.ride_id);
        }
    }
}

/// After a decoded `ride.requested` event the ride is listed, whether it was
/// new or already there.
pub proof fn requested_ride_is_listed(requests: Seq<NearbyRideRequest>, data: NearbyRideData)
    requires
        data.requested is Some,
    ensures
        lists_ride(
            nearby_after_event(requests, "ride.requested"@, data),
            data.requested->0.ride_id,
        ),
{
    let request = data.requested->0;
    if !lists_ride(requests, request.ride_id) {
        let after = requests.push(request);
        assert(after[requests.len() as int] == request);
    }
}

/// After a decoded `ride.unavailable` event no request for that ride is left,
/// and every other ride that was listed still is.
pub proof fn unavailable_ride_is_removed(
    requests: Seq<NearbyRideRequest>,
    data: NearbyRideData,
    ride_id: u64,
)
    requires
        data.unavailable is Some,
    ensures
        lists_ride(nearby_after_event(requests, "ride.unavailable"@, data), ride_id) == (lists_ride(
            requests,
            ride_id,
        ) && ride_id != data.unavailable->0.ride_id),
{
    reveal_strlit("ride.unavailable");
    reveal_strlit("ride.requested");
    assert("ride.unavailable"@.len() != "ride.requested"@.len());
    lemma_filter_rides(requests, data.unavailable->0.ride_id);
}

fn lists_ride_exec(requests: &Vec<NearbyRideRequest>, ride_id: u64) -> (r: bool)
    ensures
        r == lists_ride(requests@, ride_id),
{
    let mut i: usize = 0;
    while i < requests.len()
        invariant
            i <= requests@.len(),
            forall|j: int| 0 <= j < i ==> (#[trigger] requests@[j]).ride_id != ride_id,
        decreases requests@.len() - i,
    {
        if requests[i].ride_id == ride_id {
            assert(requests@[i as int].ride_id == ride_id);
            return true;
        }
        i = i + 1;
    }
    false
}

pub(crate) fn remove_ride(requests: &mut Vec<NearbyRideRequest>, ride_id: u64)
    ensures
        final(requests)@ == old(requests)@.filter(not_for_ride(ride_id)),
{
    let ghost before = requests@;
    let mut kept: Vec<NearbyRideRequest> = Vec::new();
    let mut i: usize = 0;
    assert(before.take(0) =~= Seq::<NearbyRideRequest>::empty());
    proof {
        reveal_with_fuel(Seq::filter, 1);
    }
    while i < requests.len()
        invariant
            requests@ == before,
            i <= before.len(),
            kept@ == before.take(i as int).filter(not_for_ride(ride_id)),
        decreases before.len() - i,
    {
        assert(before.take(i + 1).drop_last() =~= before.take(i as int));
        proof {
            reveal_with_fuel(Seq::filter, 1);
        }
        if requests[i].ride_id != ride_id {
            kept.push(requests[i].clone());
        }
        i = i + 1;
    }
    assert(before.take(before.len() as int) =~= before);
    *requests = kept;
}

/// Applies an event of a driver's channel `driver.{id}` to the list of nearby
/// ride requests that the driver sees, keeping one request per ride.
/// `event_name` has already been matched to the channel by the caller, and
/// `data` holds what the event's data decoded to.
pub fn apply_nearby_ride_event(
    requests: &mut Vec<NearbyRideRequest>,
    event_name: &str,
    data: NearbyRideData,
)
    ensures
        final(requests)@ == nearby_after_event(old(requests)@, event_name@, data),
{
    if crate::text::str_eq(event_name, "ride.requested") {
        match data.requested {
            Some(request) => {
                if !lists_ride_exec(requests, request.ride_id) {
                    requests.push(request);
                }
            },
            None => {},
        }
    } else if crate::text::str_eq(event_name, "ride.unavailable") {
        match data.unavailable {
            Some(gone) => remove_ride(requests, gone.ride_id),
            None => {},
        }
    }
}

/// The tracking screen's state of an active ride: the ride as last fetched,
/// and the driver's last position received over the ride's channel (the
/// fetch never carries it).
#[derive(Debug, Clone, PartialEq)]
pub struct RideTracking {
    pub ride: Ride,
    pub driver_location: Option<Coordinates>,
}

impl RideTracking {
    pub fn new(ride: Ride) -> (r: Self)
        ensures
            r.ride == ride,
            r.driver_location is None,
    {
        RideTracking { ride, driver_location: None }
    }
}

/// The payload of the `status.changed` event on a ride's channel: the new
/// state, and the assigned driver by id.
#[derive(Debug, Clone, Copy, PartialEq, Eq, Structural)]
pub struct RideStatusChangedEvent {
    pub status: RideStatus,
    pub driver_id: Option<u64>,
}

/// The payload of the `location.updated` event on a ride's channel: the
/// assigned driver's current position.
#[derive(Debug, Clone, Copy, PartialEq, Eq, Structural)]
pub struct DriverLocationUpdatedEvent {
    pub driver_id: u64,
    pub latitude_bits: u64,
    pub longitude_bits: u64,
}

/// What the `data` of an event on a ride's channel decoded to, read as each
/// of the two payloads that this channel carries.
#[derive(Debug, Clone, Copy, PartialEq, Eq, Structural)]
pub struct RideTrackingData {
    pub status_changed: Option<RideStatusChangedEvent>,
    pub location_updated: Option<DriverLocationUpdatedEvent>,
}

/// The id of the driver assigned to `ride`, if any.
pub open spec fn assigned_driver_id(ride: Ride) -> Option<u64> {
    match ride.driver {
        Some(driver) => Some(driver.id),
        None => None,
    }
}

/// `after` is `before` with the status change `event` applied: the new
/// status; no driver when the event carries none; the known driver kept when
/// the id matches; otherwise a driver with the event's id and an empty name.
/// Nothing else changes.
pub open spec fn status_change_applied(
    before: RideTracking,
    after: RideTracking,
    event: RideStatusChangedEvent,
) -> bool {
    &&& after.driver_location == before.driver_location
    &&& after.ride == (Ride { status: event.status, driver: after.ride.driver, ..before.ride })
    &&& match event.driver_id {
        None => after.ride.driver is None,
        Some(id) => if assigned_driver_id(before.ride) == Some(id) {
            after.ride.driver == before.ride.driver
        } else {
            &&& after.ride.driver is Some
            &&& after.ride.driver->0.id == id
            &&& after.ride.driver->0.name@ == Seq::<char>::empty()
        },
    }
}

/// Whether the event `event_name` with `data` changes the tracking state: a
/// decoded `status.changed`, or a decoded `location.updated` from the
/// assigned driver.
pub open spec fn tracking_event_applies(
    before: RideTracking,
    event_name: Seq<char>,
    data: RideTrackingData,
) -> bool {
    ||| event_name == "status.changed"@ && data.status_changed is Some
    ||| event_name == "location.updated"@ && data.location_updated is Some && assigned_driver_id(
        before.ride,
    ) == Some(data.location_updated->0.driver_id)
}

/// Applies an event of a ride's channel `ride.{id}` to the tracking state.
/// `event_name` has already been matched to the channel by the caller, and
/// `data` holds what the event's data decoded to. A position is taken only
/// from the assigned driver; an unknown event, or data that did not decode,
/// changes nothing.
pub fn apply_ride_tracking_event(tracking: &mut RideTracking, event_name: &str, data: RideTrackingData)
    ensures
        event_name@ == "status.changed"@ && data.status_changed is Some ==> status_change_applied(
            *old(tracking),
            *final(tracking),
            data.status_changed->0,
        ),
        event_name@ == "location.updated"@ && data.location_updated is Some && assigned_driver_id(
            old(tracking).ride,
        ) == Some(data.location_updated->0.driver_id) ==> *final(tracking) == (RideTracking {
            ride: old(tracking).ride,
            driver_location: Some(
                Coordinates {
                    latitude_bits: data.location_updated->0.latitude_bits,
                    longitude_bits: data.location_updated->0.longitude_bits,
                },
            ),
        }),
        !tracking_event_applies(*old(tracking), event_name@, data) ==> *final(tracking) == *old(
            tracking,
        ),
{
    proof {
        reveal_strlit("status.changed");
        reveal_strlit("location.updated");
        assert("status.changed"@.len() != "location.updated"@.len());
    }
    if crate::text::str_eq(event_name, "status.changed") {
        if let Some(event) = data.status_changed {
            tracking.ride.status = event.status;
            match event.driver_id {
                None => {
                    tracking.ride.driver = None;
                },
                Some(id) => {
                    let same_driver = match &tracking.ride.driver {
                        Some(driver) => driver.id == id,
                        None => false,
                    };
                    if !same_driver {
                        tracking.ride.driver = Some(RideDriver { id, name: String::new() });
                    }
                },
            }
        }
    } else if crate::text::str_eq(event_name, "location.updated") {
        if let Some(event) = data.location_updated {
            let from_assigned = match &tracking.ride.driver {
                Some(driver) => driver.id == event.driver_id,
                None => false,
            };
            if from_assigned {
                tracking.driver_location = Some(
                    Coordinates {
                        latitude_bits: event.latitude_bits,
                        longitude_bits: event.longitude_bits,
                    },
                );
            }
        }
    }
}

/// A status change gives the ride its new status and keeps everything else
/// of it (its id, route, fare and times) and the driver's last position; the
/// driver it names is the ride's driver afterwards, and with no driver named
/// the ride has none.
pub proof fn a_status_change_sets_the_status_and_keeps_the_rest(
    before: RideTracking,
    after: RideTracking,
    event: RideStatusChangedEvent,
)
    requires
        status_change_applied(before, after, event),
    ensures
        after.ride.status == event.status,
        after.ride.id == before.ride.id,
        after.ride.origin == before.ride.origin && after.ride.destination == before.ride.destination,
        after.ride.estimated_fare == before.ride.estimated_fare && after.ride.final_fare
            == before.ride.final_fare,
        after.ride.requested_at == before.ride.requested_at && after.ride.payment == before.ride.payment,
        after.driver_location == before.driver_location,
        assigned_driver_id(after.ride) == event.driver_id,
{
}

/// A position changes the tracking only when it comes from the ride's
/// assigned driver: a ride with no driver, or a position of another driver,
/// is not followed.
pub proof fn only_the_assigned_driver_moves_the_map(before: RideTracking, data: RideTrackingData)
    requires
        data.status_changed is None,
        data.location_updated is Some,
    ensures
        tracking_event_applies(before, "location.updated"@, data) <==> before.ride.driver is Some
            && before.ride.driver->0.id == data.location_updated->0.driver_id,
{
}

} // verus!
