//! The client side of the backend's `/api/v1`: the errors of each operation,
//! the checks made before a request is sent, how each reply is read, and the
//! rule by which an authenticated request renews its token once.
pub mod errors;
pub mod exchange;
pub mod requests;
pub mod retry;
