//! What every request handler shares.

use vstd::prelude::*;
use crate::presentation::extractor::claims::Auth0Config;

verus! {

/// State shared by the handlers: read-only configuration.
#[derive(Debug, Clone)]
pub struct AppState {
    pub auth0_config: Auth0Config,
}

} // verus!
