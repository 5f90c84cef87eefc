//! A minimal TCP benchmark server, verified.
//!
//! The server accepts connections, reads one bounded chunk of input (which it
//! never inspects), and answers every connection with the same fixed,
//! pre-serialized HTTP response. The decision logic lives here as pure,
//! verified functions; the async runtime that performs the actual socket
//! operations drives them from outside the library.

pub mod acceptor;
pub mod handler;
pub mod response;
