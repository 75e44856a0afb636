//! Payment intake, processing and reporting logic of the rinha payment services.

pub mod amount;
pub mod api;
pub mod datetime;
pub mod env;
pub mod server;
pub mod text;
pub mod worker;
