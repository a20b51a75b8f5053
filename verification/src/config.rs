//! What the relay is started with.

use vstd::prelude::*;

verus! {

/// The settings of one relay.
#[derive(Debug)]
pub struct Config {
    /// The port to listen on.
    pub port: u16,
    /// Where the database is.
    pub db_url: String,
    /// The query that returns the one row of presentation data.
    pub info_query: String,
    /// The query that returns one row per endpoint.
    pub endpoints_query: String,
    /// The secret that reloading asks for; `None` leaves reloading open.
    pub admin_key: Option<String>,
}

/// The name of the header that carries the admin secret.
pub open spec fn admin_header_name() -> Seq<char> {
    "admin-key"@
}

impl Config {
    /// The name of the header that a reload is to carry the secret in. It
    /// is the same for every relay.
    pub fn admin_header(&self) -> (name: &'static str)
        ensures
            name@ == admin_header_name(),
    {
        "admin-key"
    }
}

} // verus!
