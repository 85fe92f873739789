//! Streaming speech-recognition session core: the request envelope, the
//! session handle with its single-use channel endpoints, and the pump that
//! bridges audio ingress, the duplex transport and result egress.

pub mod error;
pub mod request;
pub mod pump;
pub mod session;
