//! The driver's screen of nearby ride requests: the board of requests and the
//! ride the driver accepted, what a refused acceptance means, what the screen
//! offers for the accepted ride, and how sharing the driver's position reacts
//! to failures.
use vstd::prelude::*;

use crate::api::errors::{AcceptRideError, ShareRideLocationError};
use crate::location::LocationError;
use crate::models::{
    apply_nearby_ride_event, distinct_rides, lemma_filter_rides, lists_ride, nearby_after_event,
    nearby_requests_stay_distinct, not_for_ride, remove_ride, NearbyRideData, NearbyRideRequest,
    Ride, RideStatus,
};

verus! {

/// The driver's board: the requests offered, and the ride the driver
/// accepted. Once a ride is accepted the list is no longer shown: the backend
/// lets a driver hold one active ride at a time.
#[derive(Debug)]
pub struct NearbyRidesBoard {
    requests: Vec<NearbyRideRequest>,
    accepted: Option<Ride>,
}

impl NearbyRidesBoard {
    #[verifier::type_invariant]
    spec fn one_request_per_ride(self) -> bool {
        distinct_rides(self.requests@)
    }

    /// The requests offered, in the order they arrived.
    pub closed spec fn spec_requests(&self) -> Seq<NearbyRideRequest> {
        self.requests@
    }

    /// The ride the driver accepted, if any.
    pub closed spec fn spec_accepted(&self) -> Option<Ride> {
        self.accepted
    }

    /// An empty board.
    pub fn new() -> (r: Self)
        ensures
            r.spec_requests() == Seq::<NearbyRideRequest>::empty(),
            r.spec_accepted() is None,
    {
        NearbyRidesBoard { requests: Vec::new(), accepted: None }
    }

    /// The requests offered, one per ride.
    pub fn requests(&self) -> (r: &Vec<NearbyRideRequest>)
        ensures
            r@ == self.spec_requests(),
            distinct_rides(r@),
    {
        proof {
            use_type_invariant(self);
        }
        &self.requests
    }

    /// The ride the driver accepted, if any.
    pub fn accepted(&self) -> (r: &Option<Ride>)
        ensures
            *r == self.spec_accepted(),
    {
        &self.accepted
    }

    /// Applies an event of the driver's channel to the requests (see
    /// `apply_nearby_ride_event`).
    pub fn apply_event(&mut self, event_name: &str, data: NearbyRideData)
        ensures
            final(self).spec_requests() == nearby_after_event(
                old(self).spec_requests(),
                event_name@,
                data,
            ),
            final(self).spec_accepted() == old(self).spec_accepted(),
    {
        proof {
            use_type_invariant(&*self);
            nearby_requests_stay_distinct(self.requests@, event_name@, data);
        }
        let mut requests: Vec<NearbyRideRequest> = Vec::new();
        std::mem::swap(&mut requests, &mut self.requests);
        apply_nearby_ride_event(&mut requests, event_name, data);
        self.requests = requests;
    }

    /// The backend accepted `ride` for the driver: it leaves the list and
    /// becomes the driver's ride.
    pub fn accept_succeeded(&mut self, ride: Ride)
        ensures
            final(self).spec_requests() == old(self).spec_requests().filter(not_for_ride(ride.id)),
            final(self).spec_accepted() == Some(ride),
    {
        proof {
            use_type_invariant(&*self);
            lemma_filter_rides(self.requests@, ride.id);
        }
        let mut requests: Vec<NearbyRideRequest> = Vec::new();
        std::mem::swap(&mut requests, &mut self.requests);
        remove_ride(&mut requests, ride.id);
        self.requests = requests;
        self.accepted = Some(ride);
    }

    /// Another driver took the ride `ride_id` first: it leaves the list.
    pub fn accept_conflicted(&mut self, ride_id: u64)
        ensures
            final(self).spec_requests() == old(self).spec_requests().filter(not_for_ride(ride_id)),
            final(self).spec_accepted() == old(self).spec_accepted(),
    {
        proof {
            use_type_invariant(&*self);
            lemma_filter_rides(self.requests@, ride_id);
        }
        let mut requests: Vec<NearbyRideRequest> = Vec::new();
        std::mem::swap(&mut requests, &mut self.requests);
        remove_ride(&mut requests, ride_id);
        self.requests = requests;
    }

    /// The driver's ride changed (it started, say): the board follows it.
    pub fn update_accepted(&mut self, ride: Ride)
        ensures
            final(self).spec_requests() == old(self).spec_requests(),
            final(self).spec_accepted() == Some(ride),
    {
        proof {
            use_type_invariant(&*self);
        }
        self.accepted = Some(ride);
    }

    /// Whether the list of requests is shown: only while no ride is
    /// accepted.
    pub fn shows_list(&self) -> (r: bool)
        ensures
            r == self.spec_accepted() is None,
    {
        self.accepted.is_none()
    }
}

/// A ride the driver accepted, or that another driver took, is no longer
/// offered; every other ride that was offered still is.
pub proof fn a_taken_ride_is_no_longer_offered(requests: Seq<NearbyRideRequest>, ride_id: u64, other: u64)
    ensures
        !lists_ride(requests.filter(not_for_ride(ride_id)), ride_id),
        other != ride_id ==> lists_ride(requests.filter(not_for_ride(ride_id)), other) == lists_ride(
            requests,
            other,
        ),
{
    lemma_filter_rides(requests, ride_id);
}

/// What the screen does when accepting a request failed.
#[derive(Debug, Clone, Copy, PartialEq, Eq, Structural)]
pub enum AcceptFailure {
    /// The session expired: log out.
    Logout,
    /// Another driver took the ride first: it leaves the list, with no error
    /// shown.
    RemoveRequest,
    /// Show the error's message on the request.
    ShowError,
}

/// What an acceptance failure calls for.
pub fn decide_accept_failure(err: &AcceptRideError) -> (r: AcceptFailure)
    ensures
        r == match *err {
            AcceptRideError::SessionExpired => AcceptFailure::Logout,
            AcceptRideError::Conflict => AcceptFailure::RemoveRequest,
            _ => AcceptFailure::ShowError,
        },
{
    match err {
        AcceptRideError::SessionExpired => AcceptFailure::Logout,
        AcceptRideError::Conflict => AcceptFailure::RemoveRequest,
        _ => AcceptFailure::ShowError,
    }
}

/// What the screen offers for the driver's ride.
#[derive(Debug, Clone, Copy, PartialEq, Eq, Structural)]
pub enum AcceptedRidePanel {
    /// The ride waits for the driver: offer to start it.
    StartButton,
    /// The ride is under way: share the driver's position.
    ShareLocation,
    /// Nothing more to do.
    Nothing,
}

/// What the screen offers for a ride in `status`: starting an accepted ride,
/// sharing the position during a ride in progress.
pub fn accepted_ride_panel(status: RideStatus) -> (r: AcceptedRidePanel)
    ensures
        r == match status {
            RideStatus::Accepted => AcceptedRidePanel::StartButton,
            RideStatus::InProgress => AcceptedRidePanel::ShareLocation,
            _ => AcceptedRidePanel::Nothing,
        },
{
    match status {
        RideStatus::Accepted => AcceptedRidePanel::StartButton,
        RideStatus::InProgress => AcceptedRidePanel::ShareLocation,
        _ => AcceptedRidePanel::Nothing,
    }
}

/// What the panel that shares the driver's position shows.
#[derive(Debug, Clone, PartialEq)]
pub enum SharingStatus {
    Sharing,
    PermissionDenied,
    Error(String),
}

/// One turn of sharing the position: what the panel shows from now on
/// (`None`: what it showed), whether the session ends, and whether the panel
/// tries again on the next turn.
#[derive(Debug, Clone, PartialEq)]
pub struct SharingTurn {
    pub status: Option<SharingStatus>,
    pub logout: bool,
    pub keep_sharing: bool,
}

/// The turn after the device gave no position: a denied permission stops the
/// panel until the user acts; any other failure passes, and the panel tries
/// again.
pub fn after_position_failure(err: LocationError) -> (r: SharingTurn)
    ensures
        r == match err {
            LocationError::PermissionDenied => SharingTurn {
                status: Some(SharingStatus::PermissionDenied),
                logout: false,
                keep_sharing: false,
            },
            LocationError::Unavailable(message) => SharingTurn {
                status: Some(SharingStatus::Error(message)),
                logout: false,
                keep_sharing: true,
            },
        },
{
    match err {
        LocationError::PermissionDenied => SharingTurn {
            status: Some(SharingStatus::PermissionDenied),
            logout: false,
            keep_sharing: false,
        },
        LocationError::Unavailable(message) => SharingTurn {
            status: Some(SharingStatus::Error(message)),
            logout: false,
            keep_sharing: true,
        },
    }
}

/// The turn after the backend refused the position: an expired session logs
/// out and stops; any other failure shows its message and the panel tries
/// again.
pub fn after_share_failure(err: &ShareRideLocationError) -> (r: SharingTurn)
    ensures
        match *err {
            ShareRideLocationError::SessionExpired => r == (SharingTurn {
                status: None,
                logout: true,
                keep_sharing: false,
            }),
            _ => {
                &&& r.keep_sharing
                &&& !r.logout
                &&& match r.status {
                    Some(SharingStatus::Error(message)) => message@ == err.spec_message(),
                    _ => false,
                }
            },
        },
{
    match err {
        ShareRideLocationError::SessionExpired => SharingTurn {
            status: None,
            logout: true,
            keep_sharing: false,
        },
        _ => SharingTurn {
            status: Some(SharingStatus::Error(err.message())),
            logout: false,
            keep_sharing: true,
        },
    }
}

/// The turn after the position was shared: the panel shows that it is
/// sharing, and goes on.
pub fn after_position_shared() -> (r: SharingTurn)
    ensures
        r == (SharingTurn { status: Some(SharingStatus::Sharing), logout: false, keep_sharing: true }),
{
    SharingTurn { status: Some(SharingStatus::Sharing), logout: false, keep_sharing: true }
}

} // verus!
