//! The home of a signed-in user: the sections it offers.
use vstd::prelude::*;

use crate::models::{Role, User};

verus! {

/// A section of the home screen.
#[derive(Debug, Clone, Copy, PartialEq, Eq, Structural)]
pub enum HomeSection {
    Profile,
    RideEstimate,
    Vehicle,
}

/// Whether `user` is known, and is a driver.
pub open spec fn is_known_driver(user: Option<User>) -> bool {
    match user {
        Some(u) => u.role == Role::Driver,
        None => false,
    }
}

/// The sections offered to `user`: the profile and the fare estimate to
/// everyone, the vehicle only to a driver, and only once the account has
/// been loaded, so that a passenger can never reach it.
pub fn home_sections(user: &Option<User>) -> (r: Vec<HomeSection>)
    ensures
        r@ == if is_known_driver(*user) {
            seq![HomeSection::Profile, HomeSection::RideEstimate, HomeSection::Vehicle]
        } else {
            seq![HomeSection::Profile, HomeSection::RideEstimate]
        },
{
    let mut sections: Vec<HomeSection> = Vec::new();
    sections.push(HomeSection::Profile);
    sections.push(HomeSection::RideEstimate);
    let is_driver = match user {
        Some(u) => u.role == Role::Driver,
        None => false,
    };
    if is_driver {
        sections.push(HomeSection::Vehicle);
    }
    proof {
        if is_known_driver(*user) {
            assert(sections@ =~= seq![HomeSection::Profile, HomeSection::RideEstimate, HomeSection::Vehicle]);
        } else {
            assert(sections@ =~= seq![HomeSection::Profile, HomeSection::RideEstimate]);
        }
    }
    sections
}

} // verus!
