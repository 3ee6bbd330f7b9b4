//! The registry side: its entities, and how requests to it are framed and its
//! answers read.

pub mod api;
pub mod dcim;
pub mod kinds;
pub mod merge;
pub mod models;
pub mod post;
pub mod tenancy;
