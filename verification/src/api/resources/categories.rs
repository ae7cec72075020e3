//! The category resource over HTTP.

pub mod dto;
pub mod routes;
