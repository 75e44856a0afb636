//! The HTTP side: configuration, payment summaries and the answers of its routes.

pub mod config;
pub mod dto;
pub mod route;
pub mod summary;
