//! Connection settings and the connection lifecycle state machine.

mod options;
mod session;

pub use options::{
    default_keep_alive, random_client_id, AvailabilityOptions, ConnectionOptions,
    ConnectorOptions, LastWill, CLIENT_ID_LEN, DEFAULT_KEEP_ALIVE_SECS, DEFAULT_PORT,
    DEFAULT_TLS_PORT,
};
pub use session::{Action, Event, Phase, QoS, Session, RECONNECT_DELAY_SECS};
