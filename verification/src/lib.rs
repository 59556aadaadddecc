//! The client-side logic of the MotoYa ride-hailing app: the JSON contract of
//! the backend, the checks made before a request leaves the device, how each
//! HTTP reply is read, the refresh-and-retry rule of authenticated requests,
//! the session and its stored token, the state kept over the realtime
//! channel, and the texts that the screens show.
pub mod api;
pub mod json;
pub mod location;
pub mod map;
pub mod models;
pub mod realtime;
pub mod screens;
pub mod state;
pub mod storage;
pub mod text;
