//! The decisions of a small playground for socket activation.
//!
//! It serves a greeting on Unix sockets and relays connections between Unix sockets
//! and TCP ports, on sockets of its own or on those that a service manager hands
//! over. This library decides what is done, in which order, and what is answered; it
//! performs no input or output. Each of its machines names the operation to perform
//! in `action` and goes on from the outcome in `advance`.

pub mod bind_private;
pub mod cancel;
pub mod command;
pub mod decimal;
pub mod echo;
pub mod helper;
pub mod pong;
pub mod port;
pub mod proxy;
pub mod relay;
pub mod socket_file;
