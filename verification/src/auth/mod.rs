//! Authentication: credentials, JWT claims and keys, request authorization.

pub mod claim;
pub mod context;
pub mod credential;
pub mod key;
pub mod jwt_manager;
pub mod whitelist;
pub mod interceptor;
pub mod key_manager;
pub mod settings;
