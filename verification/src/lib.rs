//! Route synchronisation for single-page applications.
//!
//! One agent owns the canonical route, decides what has to be written to the
//! navigation history and who is told about a change; an ordered list of
//! routing options turns a route into the view to show.
pub mod route;
pub mod service;
pub mod agent;
pub mod router;
