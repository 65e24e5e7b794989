//! Authentication core of the blog backend: password hashing, JWT claims and
//! signing, key handling, request authorization, API messages, and the pure
//! parts of the data-access and user-service flows.

pub mod auth;
pub mod crypto;
pub mod json;
pub mod models;
pub mod proto;
pub mod repositories;
pub mod services;
pub mod text;
pub mod tools;
