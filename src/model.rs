//! Device identities, topics and the discovery document.

mod component;
mod decode;
mod device;
mod device_class;
pub(crate) mod discovery;

pub(crate) mod id;

pub use component::Component;
pub use device::Device;
pub use device_class::{BinarySensorClass, ButtonClass, SensorClass, SwitchClass};

pub use id::{prefixed_topic, DeviceId};
pub use discovery::{
    Availability, AvailabilityMode, Discovery, Field, Leaf, Member, StateClass, Value,
};
