//! Startup decisions: turning raw environment values into server settings,
//! and raw secret-file contents into credentials.  All inputs arrive as
//! plain optional strings (`None` for an unset variable or an unreadable
//! file); every default and every fatal condition is stated exactly.

use vstd::prelude::*;
use crate::text::{parses_to, trim_str, trimmed, u64_parsable};

verus! {

/// Where and how the server binds: address, port, worker count, and the
/// directory the secret files are read from.
pub struct ServerConfig {
    pub ip: String,
    pub port: u64,
    pub workers: u64,
    pub secret_path: String,
}

/// Why startup settings were rejected.
#[derive(Clone, Copy, Debug, PartialEq, Eq, Structural)]
pub enum ConfigError {
    InvalidPort,
    InvalidWorkers,
}

/// The three provider secrets, each trimmed of surrounding whitespace.
pub struct Credentials {
    pub login: String,
    pub api_key: String,
    pub domain_name: String,
}

/// Which secret file was missing or unreadable.
#[derive(Clone, Copy, Debug, PartialEq, Eq, Structural)]
pub enum CredentialsError {
    MissingLogin,
    MissingApiKey,
    MissingDomainName,
}

/// Resolves the four startup settings from their environment values
/// (`None` meaning unset): address defaults to `127.0.0.1`, port to `8080`,
/// worker count to `1`, secret directory to `secret`.  A present port or
/// worker value that is not an unsigned decimal is a fatal error, port
/// checked first.
pub fn read_settings(
    ip: Option<String>,
    port: Option<String>,
    workers: Option<String>,
    secret_path: Option<String>,
) -> (r: Result<ServerConfig, ConfigError>)
    ensures
        r == Err::<ServerConfig, ConfigError>(ConfigError::InvalidPort) <==> (port matches Some(p)
            && !u64_parsable(p@)),
        r == Err::<ServerConfig, ConfigError>(ConfigError::InvalidWorkers) <==> {
            &&& (port is None || u64_parsable(port->0@))
            &&& workers matches Some(w) && !u64_parsable(w@)
        },
        r matches Ok(c) ==> {
            &&& (match ip {
                Some(s) => c.ip@ == s@,
                None => c.ip@ == "127.0.0.1"@,
            })
            &&& (match port {
                Some(s) => parses_to(s@, c.port),
                None => c.port == 8080,
            })
            &&& (match workers {
                Some(s) => parses_to(s@, c.workers),
                None => c.workers == 1,
            })
            &&& (match secret_path {
                Some(s) => c.secret_path@ == s@,
                None => c.secret_path@ == "secret"@,
            })
        },
{
    let port_value: u64 = match port {
        None => 8080,
        Some(s) => match crate::text::parse_u64(s.as_str()) {
            Some(v) => v,
            None => {
                return Err(ConfigError::InvalidPort);
            },
        },
    };
    let workers_value: u64 = match workers {
        None => 1,
        Some(s) => match crate::text::parse_u64(s.as_str()) {
            Some(v) => v,
            None => {
                return Err(ConfigError::InvalidWorkers);
            },
        },
    };
    let ip_value = match ip {
        Some(s) => s,
        None => "127.0.0.1".to_owned(),
    };
    let path_value = match secret_path {
        Some(s) => s,
        None => "secret".to_owned(),
    };
    Ok(ServerConfig { ip: ip_value, port: port_value, workers: workers_value, secret_path: path_value })
}

/// Turns the three secret-file contents (`None` meaning the file could not
/// be read) into credentials, trimming each value.  Any missing file is a
/// fatal error, reported for the first missing one in the order login,
/// API key, domain name; the server must not start in that case.
pub fn load_credentials(
    login: Option<String>,
    api_key: Option<String>,
    domain_name: Option<String>,
) -> (r: Result<Credentials, CredentialsError>)
    ensures
        r is Ok <==> login is Some && api_key is Some && domain_name is Some,
        r == Err::<Credentials, CredentialsError>(CredentialsError::MissingLogin) <==> login
            is None,
        r == Err::<Credentials, CredentialsError>(CredentialsError::MissingApiKey) <==> (login
            is Some && api_key is None),
        r == Err::<Credentials, CredentialsError>(CredentialsError::MissingDomainName) <==> (login
            is Some && api_key is Some && domain_name is None),
        r matches Ok(c) ==> {
            &&& c.login@ == trimmed(login->0@)
            &&& c.api_key@ == trimmed(api_key->0@)
            &&& c.domain_name@ == trimmed(domain_name->0@)
        },
{
    let login_value = match login {
        Some(s) => s,
        None => {
            return Err(CredentialsError::MissingLogin);
        },
    };
    let api_key_value = match api_key {
        Some(s) => s,
        None => {
            return Err(CredentialsError::MissingApiKey);
        },
    };
    let domain_value = match domain_name {
        Some(s) => s,
        None => {
            return Err(CredentialsError::MissingDomainName);
        },
    };
    Ok(Credentials {
        login: trim_str(login_value.as_str()),
        api_key: trim_str(api_key_value.as_str()),
        domain_name: trim_str(domain_value.as_str()),
    })
}

} // verus!
