//! What the screens decide, and the texts they show for the states of the
//! backend's values.
pub mod documents;
pub mod forgot_password;
pub mod forms;
pub mod home;
pub mod nearby_errands;
pub mod nearby_rides;
pub mod profile;
pub mod request_errand;
pub mod ride_estimate;
pub mod ride_history;
