//! Authentication and session core of a small to-do service: password
//! hashing, refresh tokens bound to a server secret, signed access tokens, and
//! the service that combines them over a store of user records.

pub mod auth;
pub mod clock;
pub mod config;
pub mod controller;
pub mod error;
pub mod ident;
pub mod jwt;
pub mod laws;
pub mod repository;
pub mod response;
pub mod table;
pub mod text;
pub mod todo;
pub mod todo_memory;
pub mod token;
pub mod user;
pub mod user_memory;
pub mod users;
