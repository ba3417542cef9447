//! Detection of shared clips in a live chat, a bounded history of their
//! canonical playback addresses, and the fan-out of each to the subscribers
//! that are connected at the moment.

pub mod clip;
pub mod history;
pub mod monitor;
pub mod registry;
pub mod routes;
pub mod session;
pub mod state;
pub mod structs;
pub mod text;
pub mod utils;
