//! Message entry point: categories created from queued messages.

pub mod config;
pub mod dto;
pub mod lib;
pub mod topology;
