//! What a broker asks of name servers and of other brokers, and what their answers
//! mean.
//!
//! Each operation of [`api::BrokerOuterAPI`] builds the invocations that a transport
//! carries out. A second function reads what the transport brings back.
pub mod api;
pub mod codes;
pub mod command;
pub mod laws;
pub mod message;
pub mod name_server;
pub mod properties;
pub mod pull;
pub mod queue_lock;
pub mod registration;
pub mod route;
pub mod send;
pub mod text;
