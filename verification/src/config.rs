//! Store configuration: the connection settings and their fixed defaults.
//! Reading the process environment happens outside; this module only
//! settles each value as given-or-default.

use vstd::prelude::*;

verus! {

/// Where and as whom to reach the profile store.
#[derive(Debug, Clone)]
pub struct StoreConfig {
    /// Store host.
    pub host: String,
    /// Store port.
    pub port: u16,
    /// Store user.
    pub username: String,
    /// Store password.
    pub password: String,
    /// Database name.
    pub database_name: String,
}

/// Settle each connection value: the one supplied, or its default.
pub fn store_config_or_defaults(
    host: Option<String>,
    port: Option<u16>,
    username: Option<String>,
    password: Option<String>,
    database_name: Option<String>,
) -> (r: StoreConfig)
    ensures
        r.host@ == (match host {
            Some(h) => h@,
            None => "localhost"@,
        }),
        r.port == (match port {
            Some(p) => p,
            None => 2480u16,
        }),
        r.username@ == (match username {
            Some(u) => u@,
            None => "root"@,
        }),
        r.password@ == (match password {
            Some(p) => p@,
            None => ""@,
        }),
        r.database_name@ == (match database_name {
            Some(d) => d@,
            None => "cynnycty"@,
        }),
{
    StoreConfig {
        host: match host {
            Some(h) => h,
            None => "localhost".to_owned(),
        },
        port: match port {
            Some(p) => p,
            None => 2480,
        },
        username: match username {
            Some(u) => u,
            None => "root".to_owned(),
        },
        password: match password {
            Some(p) => p,
            None => "".to_owned(),
        },
        database_name: match database_name {
            Some(d) => d,
            None => "cynnycty".to_owned(),
        },
    }
}

} // verus!
