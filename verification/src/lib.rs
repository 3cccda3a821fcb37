pub mod bridges;
pub mod classify;
pub mod config;
pub mod error;
pub mod host;
pub mod image;
pub mod lifecycle;
pub mod mac;
pub mod model;
pub mod parse;
pub mod reconcile;
pub mod state;
pub mod text;
pub mod util;
pub mod validate;
