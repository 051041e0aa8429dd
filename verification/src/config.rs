//! Configuration of the write path, and how to reach the database.

use vstd::prelude::*;
use vstd::string::*;
use crate::account::AccountsSelectorConfig;
use crate::statement::GeyserPluginPostgresError;

verus! {

/// What the write path is configured with.
#[derive(Clone, Debug)]
pub struct GeyserPluginPostgresConfig {
    pub connection_str: String,
    pub use_ssl: Option<bool>,
    pub server_ca: Option<String>,
    pub client_cert: Option<String>,
    pub client_key: Option<String>,
    pub batch_size: usize,
    pub threads: usize,
    pub panic_on_db_errors: bool,
    pub accounts_selector: Option<AccountsSelectorConfig>,
    pub skip_upsert_existing_accounts_at_startup: bool,
    pub safe_batch_starting_slot_cushion: u64,
}

/// How the connection is to be made.
#[derive(Debug)]
pub enum ConnectionPlan {
    /// Without TLS.
    Plain { connection_str: String },
    /// With TLS, from the three files named.
    Tls { connection_str: String, server_ca: String, client_cert: String, client_key: String },
}

/// Whether the configuration names any of the three TLS files.
pub open spec fn names_tls_material(config: GeyserPluginPostgresConfig) -> bool {
    config.server_ca is Some || config.client_cert is Some || config.client_key is Some
}

/// Whether all three TLS files have to be named: TLS is asked for, or one
/// of the files is named. TLS files are given together or not at all.
pub open spec fn needs_tls_material(config: GeyserPluginPostgresConfig) -> bool {
    config.use_ssl == Some(true) || names_tls_material(config)
}

/// The message for a TLS setting that is not given: because TLS is asked
/// for, or else because another TLS file is named.
pub open spec fn missing_tls_message(setting: Seq<char>, use_ssl: bool) -> Seq<char> {
    if use_ssl {
        "\""@ + setting + "\" must be specified when \"use_ssl\" is set"@
    } else {
        "\""@ + setting + "\" must be specified when another TLS file is set"@
    }
}

/// What is missing from the configuration's TLS material, as a message: the
/// first of server certificate, client certificate and client key that is
/// not named although all three have to be. Nothing is missing where none is
/// named and TLS is not asked for, or where all three are named.
pub open spec fn missing_tls_material(config: GeyserPluginPostgresConfig) -> Option<Seq<char>> {
    let use_ssl = config.use_ssl == Some(true);
    if !needs_tls_material(config) {
        None
    } else if config.server_ca is None {
        Some(missing_tls_message("server_ca"@, use_ssl))
    } else if config.client_cert is None {
        Some(missing_tls_message("client_cert"@, use_ssl))
    } else if config.client_key is None {
        Some(missing_tls_message("client_key"@, use_ssl))
    } else {
        None
    }
}

/// The error for a TLS setting that is not given.
pub fn missing_tls_error(setting: &str, use_ssl: bool) -> (r: GeyserPluginPostgresError)
    ensures
        r matches GeyserPluginPostgresError::ConfigurationError { msg } && msg@
            == missing_tls_message(setting@, use_ssl),
{
    let mut msg = String::from_str("\"");
    msg.append(setting);
    if use_ssl {
        msg.append("\" must be specified when \"use_ssl\" is set");
    } else {
        msg.append("\" must be specified when another TLS file is set");
    }
    GeyserPluginPostgresError::ConfigurationError { msg }
}

/// Whether `plan` is the connection that `config` asks for: with TLS where
/// TLS is asked for, plain otherwise, and in either case only from complete
/// TLS material.
pub open spec fn plan_follows(plan: ConnectionPlan, config: GeyserPluginPostgresConfig) -> bool {
    match plan {
        ConnectionPlan::Plain { connection_str } => {
            &&& config.use_ssl != Some(true)
            &&& missing_tls_material(config) is None
            &&& connection_str@ == config.connection_str@
        },
        ConnectionPlan::Tls { connection_str, server_ca, client_cert, client_key } => {
            &&& config.use_ssl == Some(true)
            &&& connection_str@ == config.connection_str@
            &&& config.server_ca matches Some(ca) && ca@ == server_ca@
            &&& config.client_cert matches Some(cert) && cert@ == client_cert@
            &&& config.client_key matches Some(key) && key@ == client_key@
        },
    }
}

/// The message of a connection that could not be established.
pub open spec fn connection_failure_message(connection_str: Seq<char>, detail: Seq<char>) -> Seq<
    char,
> {
    "[connect_to_db] connection_str="@ + connection_str + " error="@ + detail
}

/// The error to report when connecting with `connection_str` failed with
/// `detail`.
pub fn connection_failure(connection_str: &str, detail: &str) -> (r: GeyserPluginPostgresError)
    ensures
        r matches GeyserPluginPostgresError::ConnectionError { msg } && msg@
            == connection_failure_message(connection_str@, detail@),
{
    let mut msg = String::from_str("[connect_to_db] connection_str=");
    msg.append(connection_str);
    msg.append(" error=");
    msg.append(detail);
    GeyserPluginPostgresError::ConnectionError { msg }
}

} // verus!
