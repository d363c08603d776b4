use vstd::prelude::*;

use crate::route::Topic;

verus! {

/// How the client private key in certificate-based authentication is to be
/// interpreted.
#[derive(Debug, Clone, Copy, PartialEq, Eq, Structural)]
pub enum KeyType {
    RSA,
    ECC,
}

/// Authentication material for one broker connection: either protocol-level
/// credentials (transport secured through the platform trust store), or an
/// explicit CA certificate, client certificate and client key, each given as
/// a file path.
pub enum Auth {
    Password { login: String, password: String },
    Certificate { ca: String, client_cert: String, client_key: String, key_type: KeyType },
}

impl Auth {
    /// Key kind assumed when the configuration names none.
    pub fn default_key_type() -> (r: KeyType)
        ensures
            r == KeyType::RSA,
    {
        KeyType::RSA
    }
}

/// Parameters of one broker connection. Immutable after load; one instance
/// each for the source and the destination side.
pub struct ConnectionConfig {
    pub host: String,
    pub auth: Auth,
    pub client_id: String,
    pub port: u16,
    pub keep_alive: u16,
    pub clean_session: bool,
    pub conn_timeout: u64,
    pub inflight: u16,
}

impl ConnectionConfig {
    /// Client identifier used when the configuration names none.
    pub fn default_client_id() -> (r: String)
        ensures
            r@ == "rust-mqtt-repeater"@,
    {
        "rust-mqtt-repeater".to_owned()
    }

    /// Keep-alive interval, in seconds, used when the configuration names none.
    pub fn default_keep_alive() -> (r: u16)
        ensures
            r == 30u16,
    {
        30
    }

    /// Connection timeout, in seconds, used when the configuration names none.
    pub fn default_conn_timeout() -> (r: u64)
        ensures
            r == 5u64,
    {
        5
    }

    /// In-flight message limit used when the configuration names none.
    pub fn default_inflight() -> (r: u16)
        ensures
            r == 100u16,
    {
        100
    }

    /// Broker port used when the configuration names none.
    pub fn default_port() -> (r: u16)
        ensures
            r == 8883u16,
    {
        8883
    }

    /// Clean-session flag used when the configuration names none.
    pub fn default_clean_session() -> (r: bool)
        ensures
            r == true,
    {
        true
    }
}

/// The whole bridge configuration: the two connections and the ordered list
/// of route entries.
pub struct Config {
    pub source: ConnectionConfig,
    pub destination: ConnectionConfig,
    pub topics: Vec<Topic>,
}

} // verus!
