//! What the routes share while the server runs.

use crate::api::config::Config;
use vstd::prelude::*;

verus! {

/// The repositories and the settings that every route works with.
pub struct AppState<C, H> {
    pub category_repository: C,
    pub health_repository: H,
    pub config: Config,
}

} // verus!
