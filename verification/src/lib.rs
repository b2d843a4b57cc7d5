//! A verified core for a raw socket layer over a Winsock-style native API.
//!
//! The crate performs no system call. Every operation of a [`Socket`] comes in
//! two halves: a method that works out the exact arguments of the native call,
//! and a `complete` that turns what the native call gave back into a value or a
//! [`SocketError`]. Whoever drives the library makes the call in between.
//! The binary layout of the native address structures, the reading of native
//! error codes, the descriptor sets for readiness polling and the one-time
//! start of the network subsystem are all decided here, and proved.
#![allow(unused_imports)]

#[allow(non_snake_case)]
pub mod Family;
#[allow(non_snake_case)]
pub mod Protocol;
#[allow(non_snake_case)]
pub mod Type;
pub mod winapi;
pub mod error;
pub mod layout;
pub mod addr;
pub mod init;
pub mod call;
pub mod socket;
pub mod select;

pub use crate::addr::{SocketAddr, SocketAddrV4, SocketAddrV6};
pub use crate::error::SocketError;
pub use crate::init::Startup;
pub use crate::select::select;
pub use crate::socket::{ShutdownType, Socket};
