//! A transport-agnostic server socket for unreliable, unordered datagram
//! transports.
//!
//! The socket merges two sources of work, datagrams arriving from the network
//! and packets queued by the application for sending, into one `receive`
//! operation. The decisions of that operation are taken here, as a step
//! function from an event to the next action; waiting on the network and
//! performing a send are left to the caller's event loop.
//!
//! - `packet`, `error`, `event`: the values that are exchanged.
//! - `queue`, `message_sender`: the outbound queue and the handles on it.
//! - `server_socket`: the plain socket, and how a listener finds its port.
//! - `conditions`, `holding`, `link_conditioner`: loss, delay and reordering
//!   of inbound packets.
//! - `socket`: the one contract over plain and conditioned sockets.
//! - `trace`: what holds of every run of a socket.
//! - `client`: the example client's replies.

pub mod client;
pub mod conditions;
pub mod error;
pub mod event;
pub mod holding;
pub mod link_conditioner;
pub mod message_sender;
pub mod packet;
pub mod queue;
pub mod server_socket;
pub mod socket;
pub mod trace;
