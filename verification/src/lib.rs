pub mod cli;
pub mod error;
pub mod group;
pub mod laws;
pub mod listing;
pub mod paint;
pub mod service;
pub mod stream;
pub mod text;
