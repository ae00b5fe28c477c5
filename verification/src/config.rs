//! What the process is configured with.
use vstd::prelude::*;

verus! {

/// The settings of one backend process. The handlers read the credential
/// pair; the rest is for whoever binds the socket and opens the database.
#[derive(Debug)]
pub struct Configuration {
    pub database_uri: String,
    pub tf_http_username: String,
    pub tf_http_password: String,
    pub http_port: u16,
    pub http_bind_address: String,
    pub log_level: String,
}

} // verus!
