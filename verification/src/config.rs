//! Service configuration.  The values come from the process environment,
//! which is read outside the library; the library only defines the shape.

use vstd::prelude::*;

verus! {

/// The configuration one service instance runs with.
#[derive(Clone, Debug)]
pub struct Config {
    pub database_url: String,
    pub jwt_secret: String,
    pub jwt_expiry: i64,
    pub web_host: String,
    pub api_port: u16,
}

} // verus!
