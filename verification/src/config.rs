//! Service configuration: plain values that the surrounding process reads
//! from its environment and hands in.

use vstd::prelude::*;

verus! {

/// Bind address and store connection settings for one running service.
#[derive(Debug, Clone)]
pub struct AppConfig {
    pub host: String,
    pub port: u16,
    pub surreal_url: String,
    pub surreal_ns: String,
    pub surreal_db: String,
    pub surreal_user: String,
    pub surreal_pass: String,
}

} // verus!
