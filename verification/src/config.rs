//! The environment-level configuration the service starts with.

use vstd::prelude::*;

verus! {

/// The two values the service cannot start without: the address to bind
/// the server to, and the database connection string.
#[derive(Clone, Debug, PartialEq)]
pub struct EnvVars {
    pub server_address: String,
    pub database_url: String,
}

impl EnvVars {
    /// Builds the configuration from the two environment values, which the
    /// caller reads from the process environment.  Both are required: when
    /// either is absent the result is an error naming the missing one, the
    /// database source first, and the process refuses to start.
    pub fn new(server_address: Option<String>, database_url: Option<String>) -> (r: Result<
        EnvVars,
        String,
    >)
        ensures
            database_url is None ==> (r matches Err(m) && m@ == "DATABASE_URL is not set"@),
            database_url is Some && server_address is None ==> (r matches Err(m) && m@
                == "SERVER_ADDRESS is not set"@),
            server_address is Some && database_url is Some ==> (r matches Ok(v) && Some(
                v.server_address,
            ) == server_address && Some(v.database_url) == database_url),
    {
        match (server_address, database_url) {
            (_, None) => Err("DATABASE_URL is not set".to_owned()),
            (None, Some(_)) => Err("SERVER_ADDRESS is not set".to_owned()),
            (Some(sa), Some(db)) => Ok(EnvVars { server_address: sa, database_url: db }),
        }
    }
}

} // verus!
