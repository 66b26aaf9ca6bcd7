//! Routing brain and connection rules of a small gateway that sends outbound
//! TCP connections through Oxen nodes, Tor exits or straight to the target.

pub mod config;
pub mod dashboard;
pub mod dispatcher;
pub mod flag;
pub mod random;
pub mod request;
pub mod router;
pub mod text;
pub mod whitespace;
