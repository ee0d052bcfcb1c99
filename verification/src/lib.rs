//! A small HTTP backend: one health endpoint, one directory of static
//! assets, and a cross-origin policy with a single allowed origin.
//!
//! The library builds the request router and its cross-origin layer and
//! states what each of them is configured with. Binding a socket and serving
//! requests is left to the program that uses it.

pub mod app;
pub mod cors;
pub mod header;
pub mod health;
pub mod router;
