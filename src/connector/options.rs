use super::session::QoS;
use vstd::prelude::*;

verus! {

/// The namespace prefix of all topics, unless configured otherwise.
pub open spec fn default_prefix() -> Seq<char> {
    "homeassistant"@
}

/// The broker port without TLS, unless configured otherwise.
pub const DEFAULT_PORT: u16 = 1883;

/// The broker port with TLS, unless configured otherwise.
pub const DEFAULT_TLS_PORT: u16 = 8883;

/// The keep-alive interval in seconds, unless configured otherwise.
pub const DEFAULT_KEEP_ALIVE_SECS: u64 = 5;

/// The length of a generated client id.
pub const CLIENT_ID_LEN: usize = 23;

/// An ASCII letter or digit.
pub open spec fn is_alphanumeric(c: char) -> bool {
    ('a' <= c && c <= 'z') || ('A' <= c && c <= 'Z') || ('0' <= c && c <= '9')
}

/// Relies on rand's `Alphanumeric` distribution, sampled with `DistString::sample_string`
/// from the thread-local generator: `len` characters, each an ASCII letter or digit.
#[verifier::external_body]
fn random_alphanumeric(len: usize) -> (r: String)
    ensures
        r@.len() == len,
        forall|i: int| 0 <= i < len ==> is_alphanumeric(#[trigger] r@[i]),
{
    rand::distributions::DistString::sample_string(
        &rand::distributions::Alphanumeric,
        &mut rand::thread_rng(),
        len,
    )
}

/// A fresh random client id: 23 ASCII letters and digits.
pub fn random_client_id() -> (r: String)
    ensures
        r@.len() == CLIENT_ID_LEN,
        forall|i: int| 0 <= i < r@.len() ==> is_alphanumeric(#[trigger] r@[i]),
{
    random_alphanumeric(CLIENT_ID_LEN)
}

/// The keep-alive interval in seconds, unless configured otherwise.
pub fn default_keep_alive() -> (r: u64)
    ensures
        r == DEFAULT_KEEP_ALIVE_SECS,
{
    DEFAULT_KEEP_ALIVE_SECS
}

/// A message the broker publishes when the session ends uncleanly.
#[derive(Clone, Debug, PartialEq, Eq)]
pub struct LastWill {
    pub topic: String,
    pub message: Vec<u8>,
    pub qos: QoS,
    pub retain: bool,
}

/// The payload of the last will on the availability topic.
pub open spec fn offline_payload() -> Seq<u8> {
    seq![111u8, 102u8, 102u8, 108u8, 105u8, 110u8, 101u8]
}

/// The availability topic, on which the connector publishes whether it is online.
#[derive(Clone, Debug)]
pub struct AvailabilityOptions {
    pub topic: String,
}

impl AvailabilityOptions {
    pub fn new(topic: &str) -> (r: Self)
        ensures
            r.topic@ == topic@,
    {
        AvailabilityOptions { topic: String::from_str(topic) }
    }

    /// The retained "offline" marker that the broker publishes on the availability
    /// topic when the session ends uncleanly.
    pub fn last_will(&self) -> (r: LastWill)
        ensures
            r.topic@ == self.topic@,
            r.message@ == offline_payload(),
            r.qos == QoS::AtLeastOnce,
            r.retain,
    {
        let message: Vec<u8> = vec![111u8, 102u8, 102u8, 108u8, 105u8, 110u8, 101u8];
        assert(message@ =~= offline_payload());
        LastWill { topic: self.topic.clone(), message, qos: QoS::AtLeastOnce, retain: true }
    }
}

/// How to reach the broker.
#[derive(Clone, Debug, PartialEq, Eq)]
pub struct ConnectorOptions {
    /// The client id; a random one where unset.
    pub client_id: Option<String>,
    /// The namespace prefix of all topics; `homeassistant` where unset.
    pub topic_base: Option<String>,
    /// The broker's host name.
    pub host: String,
    /// The broker's port; 1883 without TLS and 8883 with TLS where unset.
    pub port: Option<u16>,
    /// TLS is used unless this is set.
    pub disable_tls: bool,
    /// The keep-alive interval in seconds.
    pub keep_alive: u64,
    pub username: Option<String>,
    pub password: Option<String>,
}

impl ConnectorOptions {
    /// Options for `host` with every other setting at its default.
    pub fn new(host: &str) -> (r: Self)
        ensures
            r.host@ == host@,
            r.client_id is None,
            r.topic_base is None,
            r.port is None,
            !r.disable_tls,
            r.keep_alive == DEFAULT_KEEP_ALIVE_SECS,
            r.username is None,
            r.password is None,
    {
        ConnectorOptions {
            client_id: None,
            topic_base: None,
            host: String::from_str(host),
            port: None,
            disable_tls: false,
            keep_alive: default_keep_alive(),
            username: None,
            password: None,
        }
    }

    /// The namespace prefix in effect.
    pub open spec fn spec_base(&self) -> Seq<char> {
        match self.topic_base {
            Some(b) => b@,
            None => default_prefix(),
        }
    }

    /// The port in effect.
    pub open spec fn spec_port(&self) -> u16 {
        match self.port {
            Some(p) => p,
            None => if self.disable_tls {
                DEFAULT_PORT
            } else {
                DEFAULT_TLS_PORT
            },
        }
    }

    pub fn base_topic(&self) -> (r: String)
        ensures
            r@ == self.spec_base(),
    {
        match &self.topic_base {
            Some(b) => b.clone(),
            None => String::from_str("homeassistant"),
        }
    }

    pub fn effective_port(&self) -> (r: u16)
        ensures
            r == self.spec_port(),
    {
        match self.port {
            Some(p) => p,
            None => if self.disable_tls {
                DEFAULT_PORT
            } else {
                DEFAULT_TLS_PORT
            },
        }
    }

    pub fn use_tls(&self) -> (r: bool)
        ensures
            r == !self.disable_tls,
    {
        !self.disable_tls
    }

    /// The configured client id, or a fresh random one.
    pub fn effective_client_id(&self) -> (r: String)
        ensures
            self.client_id matches Some(c) ==> r@ == c@,
            self.client_id is None ==> r@.len() == CLIENT_ID_LEN && forall|i: int|
                0 <= i < r@.len() ==> is_alphanumeric(#[trigger] r@[i]),
    {
        match &self.client_id {
            Some(c) => c.clone(),
            None => random_client_id(),
        }
    }

    /// The user name and password, where a user name is set; an unset password is empty.
    pub fn credentials(&self) -> (r: Option<(String, String)>)
        ensures
            self.username is None ==> r is None,
            self.username matches Some(u) ==> r matches Some((n, p)) && n@ == u@ && p@ == (
            match self.password {
                Some(q) => q@,
                None => Seq::<char>::empty(),
            }),
    {
        match &self.username {
            Some(u) => {
                let p = match &self.password {
                    Some(q) => q.clone(),
                    None => String::new(),
                };
                Some((u.clone(), p))
            },
            None => None,
        }
    }
}

/// Settings of one connection, as handed to the transport.
#[derive(Clone, Debug, PartialEq, Eq)]
pub struct ConnectionOptions {
    pub host: String,
    pub port: Option<u16>,
    pub client_id: Option<String>,
    pub username: Option<String>,
    pub password: Option<String>,
    pub topic_base: Option<String>,
    pub disable_tls: bool,
    pub keep_alive: u64,
}

} // verus!
