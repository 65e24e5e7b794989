//! The decisions of the gRPC services.

pub mod user;
pub mod user_flow;
