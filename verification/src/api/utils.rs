//! Helpers shared by the routes.

pub mod response;
pub mod validator;
