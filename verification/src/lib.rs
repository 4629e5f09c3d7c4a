//! The verified core of a small publishing backend: categories, posts,
//! comments and users behind a persistence gateway, with paging and search,
//! the join of a post with its comments, the service layer, and the guard that
//! admits a request by its bearer token.
//!
//! Everything here is decided on plain values. Talking to the database, to
//! the disk and to clients is left to the program around this library, which
//! asks it what to do next and what to answer.

pub mod abstract_trait;
pub mod auth;
pub mod domain;
pub mod entities;
pub mod error;
pub mod gateway;
pub mod handler;
pub mod http;
pub mod memory;
pub mod pagination;
pub mod record;
pub mod relation;
pub mod service;
pub mod text;
