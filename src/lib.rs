//! Bridges a Hyprland compositor's event socket to user scripts: each
//! `monitoradded` / `monitorremoved` event line runs the configured script
//! with the monitor's name as its one argument.
//!
//! Everything here is decision logic; the program around it reads the
//! environment, connects, inspects files and spawns processes.
pub mod bridge;
pub mod config;
pub mod event;
pub mod script;
pub mod socket;
