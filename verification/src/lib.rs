//! Verified core of a terminal front end for a Monero wallet RPC server.

pub mod amount;
pub mod app;
pub mod laws;
pub mod layout;
pub mod model;
pub mod order;
pub mod paths;
pub mod screen;
pub mod send;
pub mod text;
pub mod transfers;
pub mod wallet;
