//! The application's settings.

use vstd::prelude::*;

verus! {

/// Where the server listens, and whether it speaks TLS.
pub struct Server {
    pub address: String,
    pub tls_enabled: bool,
}

/// All settings of the application.
pub struct AppConfig {
    pub server: Server,
}

} // verus!
