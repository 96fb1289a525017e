use vstd::prelude::*;

verus! {

/// The kind of entity a device exposes.
#[derive(Clone, Copy, Debug, PartialEq, Eq, Structural)]
pub enum Component {
    Button,
    Switch,
    BinarySensor,
    Sensor,
}

impl Component {
    /// The name of the component as it appears in topics.
    pub open spec fn name(self) -> Seq<char> {
        match self {
            Component::BinarySensor => "binary_sensor"@,
            Component::Button => "button"@,
            Component::Sensor => "sensor"@,
            Component::Switch => "switch"@,
        }
    }

    /// Whether the component publishes its state.
    pub open spec fn has_state(self) -> bool {
        match self {
            Component::Button => false,
            _ => true,
        }
    }

    /// Whether the component accepts commands.
    pub open spec fn has_command(self) -> bool {
        match self {
            Component::Button | Component::Switch => true,
            _ => false,
        }
    }

    pub fn as_ref(&self) -> (r: &'static str)
        ensures
            r@ == self.name(),
    {
        match self {
            Component::BinarySensor => "binary_sensor",
            Component::Button => "button",
            Component::Sensor => "sensor",
            Component::Switch => "switch",
        }
    }

    /// Renders the component's name.
    pub fn to_string(&self) -> (r: String)
        ensures
            r@ == self.name(),
    {
        String::from_str(self.as_ref())
    }

    pub fn supports_state(&self) -> (r: bool)
        ensures
            r == self.has_state(),
    {
        match self {
            Component::Button => false,
            _ => true,
        }
    }

    pub fn supports_command(&self) -> (r: bool)
        ensures
            r == self.has_command(),
    {
        match self {
            Component::Button | Component::Switch => true,
            _ => false,
        }
    }
}

} // verus!
