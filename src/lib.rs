//! A small weather proxy: configuration loading, the decisions of the
//! `/weather/{city}` handler, the `/users` demo handlers and the parser of
//! city-name queries, each stated and proved with Verus.
pub mod city_query;
pub mod config;
mod error;
pub mod forecast;
pub mod users;

pub use error::{Error, Result};
