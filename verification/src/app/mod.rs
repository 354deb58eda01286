//! The task queue, the screen controller and the reducer.

pub mod tasks;
pub mod interface;
pub mod model;
