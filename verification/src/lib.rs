//! Decision logic of a small home-automation control surface: grouping
//! wireless speakers into one playback zone, sequencing playback commands on
//! the group's coordinator, and the session rules of a cloud appliance client.
//!
//! The library decides; the program around it talks to the network. Every
//! device command is described as a plain value that the caller performs, and
//! every answer from a device comes back as a plain value.

pub mod region;
pub mod names;
pub mod topology;
pub mod sequence;
pub mod group;
pub mod household;
pub mod orchestrator;
pub mod playback;
pub mod endpoint;
pub mod auth;
pub mod config;
pub mod session;
