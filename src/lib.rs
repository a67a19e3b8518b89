//! Core of the Quincy VPN: the wire packet model, the authentication
//! handshake, and the virtual network interface engine.

pub mod addr;
pub mod auth;
pub mod config;
pub mod dns;
pub mod error;
pub mod gui;
pub mod packet;
pub mod queue;
pub mod interface;
pub mod text;
pub mod users;
pub mod validation;
