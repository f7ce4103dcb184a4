//! What the library promises, in terms of what goes into its functions and what
//! comes out of them.
//!
//! A law that speaks of one call takes the call's arguments and its result, and
//! assumes only that the result is one that the function may give.

pub mod client;
pub mod control;
pub mod data;
pub mod error;
pub mod protocol;
pub mod quic;
pub mod retry;
pub mod run;
pub mod table;
pub mod transport;
pub mod udp;
