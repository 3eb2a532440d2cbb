//! The web server: which request is answered how.
pub mod addresses;
pub mod info;
pub mod pairing;
pub mod params;
pub mod requests;
pub mod response;
pub mod routes;
