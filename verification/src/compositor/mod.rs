//! The compositor: which window has the focus, where input goes, which popups
//! hold a grab and when a frame can go straight to the encoder.
pub mod departures;
pub mod focus;
pub mod handlers;
pub mod input;
pub mod input_serials;
pub mod policy;
pub mod popups;
pub mod reevaluate;
pub mod refocus;
pub mod render_scene;
pub mod scaling;
pub mod state;
pub mod x11_focus;
