//! Process configuration, resolved once by the caller and handed to the
//! functions that need it.

use vstd::prelude::*;

verus! {

/// Command line configuration.
#[derive(Debug)]
pub struct Args {
    /// Release environment (`dev` or `prod`).
    pub release_env: String,
    /// Base address of the wallet service.
    pub monero_rpc_host: String,
    /// Wallet service password.
    pub monero_rpc_password: String,
    /// Address of the daemon the wallet service talks to.
    pub monero_rpc_daemon: String,
    /// User name for digest authentication.
    pub monero_rpc_username: String,
    /// Credential for digest authentication.
    pub monero_rpc_cred: String,
    /// Token expiration limit in minutes.
    pub token_timeout: i64,
    /// Secret for signing tokens.
    pub jwt_secret_key: String,
}

impl Default for Args {
    /// The configuration of a process started without arguments.
    fn default() -> (r: Self)
        ensures
            r.release_env@ == "dev"@,
            r.monero_rpc_host@ == "http://localhost:38083"@,
            r.monero_rpc_password@ == "password"@,
            r.monero_rpc_daemon@ == "https://stagenet.xmr-tw.org:38081"@,
            r.monero_rpc_username@ == "user"@,
            r.monero_rpc_cred@ == "pass"@,
            r.token_timeout == 60,
            r.jwt_secret_key@ == "some-secret"@,
    {
        Args {
            release_env: "dev".to_owned(),
            monero_rpc_host: "http://localhost:38083".to_owned(),
            monero_rpc_password: "password".to_owned(),
            monero_rpc_daemon: "https://stagenet.xmr-tw.org:38081".to_owned(),
            monero_rpc_username: "user".to_owned(),
            monero_rpc_cred: "pass".to_owned(),
            token_timeout: 60,
            jwt_secret_key: "some-secret".to_owned(),
        }
    }
}

} // verus!
