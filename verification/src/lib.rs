//! A client of the ipify service, which tells a machine its public IP
//! address.
//!
//! An [`Ipify`] value gathers the choices made for one lookup: the operation
//! ([`Op`]: IPv4 or IPv6, plain text or JSON) and the HTTP engine
//! ([`Engine`]). It is never changed in place; `set` and `with` hand back a
//! new value, and its endpoint is at all times the one that the table in
//! [`endpoint`] gives for its operation.
//!
//! Dispatching a configuration sends one GET request and returns the body of
//! the reply as text, or an [`Error`]. The network is not part of this
//! library: [`Ipify::call`] takes the transport as a function from
//! [`Request`] to [`Outcome`], so the same verified code runs over any HTTP
//! client.

pub mod config;
pub mod dispatch;
pub mod endpoint;
pub mod engine;
pub mod error;
pub mod op;
pub mod transition;

pub use config::{Config, Ipify};
pub use dispatch::{myip, user_agent, Method, Outcome, Request};
pub use endpoint::endpoint_for;
pub use engine::Engine;
pub use error::Error;
pub use op::Op;
