//! Capability extensions: opt-in modules that grant guest code access to a
//! class of outside resources.

pub mod web;
pub mod websocket;
