//! A connector that keeps a publish/subscribe session with a broker and layers
//! a device-discovery protocol on top of it.

pub mod connector;
pub mod model;
