//! The core of a terminal dashboard for cloud servers: the background task
//! queue, the bridge that hands its results to the interface loop, the screen
//! controller and the message reducer.

pub mod app;
pub mod components;
pub mod constants;
pub mod text;
