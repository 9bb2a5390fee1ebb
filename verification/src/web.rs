//! What the REST service decides on its way from a request to a provider and
//! from an error to a response.

pub mod config;
pub mod errors;
pub mod routes;
