//! A small fleet of simulated power-consuming devices: what a device
//! records on each tick of the simulation, how its bounded history evicts,
//! and what the fleet answers to the requests made of it.

pub mod args;
pub mod device;
pub mod handlers;
pub mod history;
pub mod laws;
pub mod payload;
pub mod util;
