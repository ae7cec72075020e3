//! HTTP entry point: what requests must look like and what replies say.

pub mod config;
pub mod error;
pub mod lib;
pub mod resources;
pub mod utils;
