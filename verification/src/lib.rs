//! A byte-stream bridge: the decision core of a relay that copies bytes in
//! both directions between one TCP connection and a framed message channel
//! carried over standard input/output, until either side closes.
//!
//! The relay itself is a state machine: the code that owns the sockets and
//! the channel performs each read, write, send and receive, and hands every
//! outcome to [`relay::Session::step`], which alone decides what is forwarded
//! where and when the session is over. The listener and client roles around
//! it are decision functions in [`roles`].

pub mod laws;
pub mod relay;
pub mod roles;
