//! Host-side core of a driver for GRBL motion controllers: the line protocol,
//! the character-counting flow control, the machine-state projection and the
//! fan-out of inbound messages.

pub mod decimal;
pub mod position;
pub mod text;
pub mod controller;
pub mod utils;
pub mod config;
pub mod server;
