//! The core of a small display server: the scene of windows, the rules that
//! move, resize and focus them, and the bookkeeping of popups and surface
//! configuration. Every entry point takes plain values and answers with the
//! requests that a protocol runtime has to carry out.
pub mod geometry;
pub mod popup;
pub mod seat;
pub mod space;
pub mod state;
pub mod wlcs_integration;
