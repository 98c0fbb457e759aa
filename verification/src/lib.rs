//! Catalog-and-commerce core: catalog repositories over three product
//! collections, a sale workflow with an atomic stock decrement, and a
//! token-based authentication and authorization layer.
//!
//! All state lives in in-process stores whose operations are specified and
//! verified; password hashing, token signing and id generation go through
//! narrow trusted wrappers around the outside crates that provide them.

pub mod auth;
pub mod catalog;
pub mod clock;
pub mod crypto;
pub mod error;
pub mod gate;
pub mod ids;
pub mod models;
pub mod money;
pub mod sale;
pub mod strutil;
pub mod text;
