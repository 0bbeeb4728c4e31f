pub mod action;
pub mod client;
pub mod clients;
pub mod create;
pub mod geometry;
pub mod window;
pub mod workspace;

pub use client::Client;
pub use clients::Clients;
