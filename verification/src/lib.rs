//! A small TCP echo server built on raw socket calls.
//!
//! The library holds everything the server decides: how the listening socket
//! is set up and which error each failing call is reported as, how addresses
//! are laid out in network byte order, how a connected client is served, and
//! how the poll-driven client table and its buffers evolve. The calls into the
//! operating system are made by the program around it, which hands each
//! call's result back to the state machines here.
pub mod socket;
pub mod text;
pub mod client;
pub mod server;
