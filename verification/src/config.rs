use vstd::prelude::*;

verus! {

/// The process-wide configuration, read once at startup and immutable
/// afterwards. The boundary layer fills it from the environment and
/// passes it explicitly to whatever needs it; the signing secret is the
/// only field the core logic reads.
#[derive(Debug)]
pub struct EnvironmentVariables {
    pub web_server_protocol: String,
    pub web_server_host: String,
    pub web_server_port: String,
    pub database_url: String,
    pub jwt_secret: String,
}

impl EnvironmentVariables {
    pub fn new(
        web_server_protocol: String,
        web_server_host: String,
        web_server_port: String,
        database_url: String,
        jwt_secret: String,
    ) -> (r: Self)
        ensures
            r.web_server_protocol == web_server_protocol,
            r.web_server_host == web_server_host,
            r.web_server_port == web_server_port,
            r.database_url == database_url,
            r.jwt_secret == jwt_secret,
    {
        EnvironmentVariables {
            web_server_protocol,
            web_server_host,
            web_server_port,
            database_url,
            jwt_secret,
        }
    }
}

} // verus!
