use vstd::prelude::*;

verus! {

/// The physical or logical device that entities belong to.
#[derive(Clone, Debug, PartialEq, Eq)]
pub struct Device {
    pub identifiers: Vec<String>,
    pub name: Option<String>,
    pub base_topic: Option<String>,
    /// Software version of the application that supplies the entity.
    pub sw_version: Option<String>,
    /// Support URL of the application that supplies the entity.
    pub support_url: Option<String>,
}

} // verus!
