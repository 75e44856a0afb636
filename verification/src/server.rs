//! The single-process service, which takes payments in and forwards them itself: its routes' answers.

pub mod handlers;
