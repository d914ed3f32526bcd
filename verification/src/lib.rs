//! The core of a launcher for Minecraft: the model of a version manifest
//! and its wire format, the rules that decide what a host is given, and the
//! planner that derives a launch from a manifest and a host; beside them
//! the stores of instances and skins.

pub mod client;
pub mod host;
pub mod json;
pub mod launch;
pub mod login;
pub mod manifest;
pub mod menu;
pub mod plan_laws;
pub mod plan_model;
pub mod planner;
pub mod program;
pub mod rules;
pub mod skin;
pub mod text;
pub mod utils;
pub mod wire;
pub mod wire_laws;
pub mod wire_model;
pub mod wire_read;
pub mod wire_write;
