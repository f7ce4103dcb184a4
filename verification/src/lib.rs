//! The client of a reverse tunnel: what it says to the server, when, and what it
//! does with the answers.

pub mod addr;
pub mod client;
pub mod config;
pub mod control;
pub mod data;
pub mod error;
pub mod laws;
pub mod outside;
pub mod protocol;
pub mod quic;
pub mod retry;
pub mod run;
pub mod table;
pub mod transport;
pub mod udp;
