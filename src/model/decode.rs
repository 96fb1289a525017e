//! How a consumer reads an encoded discovery document back, and the proof that it
//! recovers every field.

use super::device::Device;
use super::discovery::{
    decode_mode, lemma_default_mode_omitted, lemma_lookup_concat, lemma_lookup_optional,
    lemma_members, lookup, opt_text, opt_view, optional, strings_view, text_or_null,
    Availability, Discovery, LeafView, StateClass, ValueView,
};
use vstd::prelude::*;

verus! {

pub ghost struct DeviceView {
    pub identifiers: Seq<Seq<char>>,
    pub name: Option<Seq<char>>,
    pub base_topic: Option<Seq<char>>,
    pub sw_version: Option<Seq<char>>,
    pub support_url: Option<Seq<char>>,
}

pub ghost struct AvailabilityView {
    pub topic: Seq<char>,
    pub payload_available: Option<Seq<char>>,
    pub payload_not_available: Option<Seq<char>>,
    pub value_template: Option<Seq<char>>,
}

pub ghost struct DiscoveryView {
    pub name: Option<Seq<char>>,
    pub unique_id: Option<Seq<char>>,
    pub device: Option<DeviceView>,
    pub device_class: Option<Seq<char>>,
    pub state_class: Option<StateClass>,
    pub command_topic: Option<Seq<char>>,
    pub command_template: Option<Seq<char>>,
    pub state_topic: Option<Seq<char>>,
    pub unit_of_measurement: Option<Seq<char>>,
    pub value_template: Option<Seq<char>>,
    pub enabled_by_default: Option<bool>,
    pub availability_mode: super::discovery::AvailabilityMode,
    pub availability: Seq<AvailabilityView>,
}

impl Device {
    pub open spec fn view(&self) -> DeviceView {
        DeviceView {
            identifiers: strings_view(self.identifiers@),
            name: opt_view(self.name),
            base_topic: opt_view(self.base_topic),
            sw_version: opt_view(self.sw_version),
            support_url: opt_view(self.support_url),
        }
    }
}

impl Availability {
    pub open spec fn view(&self) -> AvailabilityView {
        AvailabilityView {
            topic: self.topic@,
            payload_available: opt_view(self.payload_available),
            payload_not_available: opt_view(self.payload_not_available),
            value_template: opt_view(self.value_template),
        }
    }
}

impl Discovery {
    pub open spec fn view(&self) -> DiscoveryView {
        DiscoveryView {
            name: opt_view(self.name),
            unique_id: opt_view(self.unique_id),
            device: match self.device {
                Some(d) => Some(d.view()),
                None => None,
            },
            device_class: opt_view(self.device_class),
            state_class: self.state_class,
            command_topic: opt_view(self.command_topic),
            command_template: opt_view(self.command_template),
            state_topic: opt_view(self.state_topic),
            unit_of_measurement: opt_view(self.unit_of_measurement),
            value_template: opt_view(self.value_template),
            enabled_by_default: self.enabled_by_default,
            availability_mode: self.availability_mode,
            availability: self.availability@.map_values(|a: Availability| a.view()),
        }
    }
}

/// The text of a member; absent, null or any other value reads as unset.
pub open spec fn text_of(v: Option<LeafView>) -> Option<Seq<char>> {
    match v {
        Some(LeafView::Text(t)) => Some(t),
        _ => None,
    }
}

pub open spec fn member_text(v: Option<ValueView>) -> Option<Seq<char>> {
    match v {
        Some(ValueView::Leaf(LeafView::Text(t))) => Some(t),
        _ => None,
    }
}

pub open spec fn decode_device(fields: Seq<(Seq<char>, LeafView)>) -> DeviceView {
    DeviceView {
        identifiers: match lookup(fields, "identifiers"@) {
            Some(LeafView::TextList(l)) => l,
            _ => Seq::empty(),
        },
        name: text_of(lookup(fields, "name"@)),
        base_topic: text_of(lookup(fields, "~"@)),
        sw_version: text_of(lookup(fields, "sw_version"@)),
        support_url: text_of(lookup(fields, "support_url"@)),
    }
}

pub open spec fn decode_availability(fields: Seq<(Seq<char>, LeafView)>) -> AvailabilityView {
    AvailabilityView {
        topic: match text_of(lookup(fields, "topic"@)) {
            Some(t) => t,
            None => Seq::empty(),
        },
        payload_available: text_of(lookup(fields, "payload_available"@)),
        payload_not_available: text_of(lookup(fields, "payload_not_available"@)),
        value_template: text_of(lookup(fields, "value_template"@)),
    }
}

pub open spec fn decode_state_class(v: Option<ValueView>) -> Option<StateClass> {
    match member_text(v) {
        Some(t) => if t == "measurement"@ {
            Some(StateClass::Measurement)
        } else if t == "total"@ {
            Some(StateClass::Total)
        } else if t == "total_increasing"@ {
            Some(StateClass::TotalIncreasing)
        } else {
            None
        },
        None => None,
    }
}

/// The document a consumer reads from an encoded one: absent and null members read
/// as unset, an absent availability mode as the default one, an absent availability
/// list as an empty one.
pub open spec fn decode(members: Seq<(Seq<char>, ValueView)>) -> DiscoveryView {
    DiscoveryView {
        name: member_text(lookup(members, "name"@)),
        unique_id: member_text(lookup(members, "unique_id"@)),
        device: match lookup(members, "device"@) {
            Some(ValueView::Object(fields)) => Some(decode_device(fields)),
            _ => None,
        },
        device_class: member_text(lookup(members, "device_class"@)),
        state_class: decode_state_class(lookup(members, "state_class"@)),
        command_topic: member_text(lookup(members, "command_topic"@)),
        command_template: member_text(lookup(members, "command_template"@)),
        state_topic: member_text(lookup(members, "state_topic"@)),
        unit_of_measurement: member_text(lookup(members, "unit_of_measurement"@)),
        value_template: member_text(lookup(members, "value_template"@)),
        enabled_by_default: match lookup(members, "enabled_by_default"@) {
            Some(ValueView::Leaf(LeafView::Bool(b))) => Some(b),
            _ => None,
        },
        availability_mode: decode_mode(members),
        availability: match lookup(members, "availability"@) {
            Some(ValueView::ObjectList(l)) => l.map_values(
                |f: Seq<(Seq<char>, LeafView)>| decode_availability(f),
            ),
            _ => Seq::empty(),
        },
    }
}

proof fn lemma_device_round_trip(d: Device)
    ensures
        decode_device(d.spec_fields()) == d.view(),
{
    broadcast use lemma_lookup_concat, lemma_lookup_optional;

    reveal_strlit("identifiers");
    reveal_strlit("name");
    reveal_strlit("~");
    reveal_strlit("sw_version");
    reveal_strlit("support_url");
    assert("identifiers"@.len() == 11);
    assert("name"@.len() == 4);
    assert("~"@.len() == 1);
    assert("sw_version"@.len() == 10);
    assert("support_url"@.len() == 11);
    assert("identifiers"@[0] != "support_url"@[0]);
    let ids = if d.identifiers@.len() == 0 {
        None
    } else {
        Some(LeafView::TextList(strings_view(d.identifiers@)))
    };
    assert((if d.identifiers@.len() == 0 {
        Seq::empty()
    } else {
        seq![("identifiers"@, LeafView::TextList(strings_view(d.identifiers@)))]
    }) == optional("identifiers"@, ids));
    if d.identifiers@.len() == 0 {
        assert(strings_view(d.identifiers@) =~= Seq::<Seq<char>>::empty());
    }
}

proof fn lemma_availability_round_trip(a: Availability)
    ensures
        decode_availability(a.spec_fields()) == a.view(),
{
    broadcast use lemma_lookup_concat, lemma_lookup_optional;

    reveal_strlit("topic");
    reveal_strlit("payload_available");
    reveal_strlit("payload_not_available");
    reveal_strlit("value_template");
    assert("topic"@.len() == 5);
    assert("payload_available"@.len() == 17);
    assert("payload_not_available"@.len() == 21);
    assert("value_template"@.len() == 14);
    let f = a.spec_fields();
    assert(seq![("topic"@, LeafView::Text(a.topic@))] == optional(
        "topic"@,
        Some(LeafView::Text(a.topic@)),
    ));
    assert(lookup(f, "topic"@) == Some(LeafView::Text(a.topic@)));
    assert(lookup(f, "payload_available"@) == opt_text(a.payload_available));
    assert(lookup(f, "payload_not_available"@) == opt_text(a.payload_not_available));
    assert(lookup(f, "value_template"@) == opt_text(a.value_template));
}

/// Decoding an encoded document restores every field.
pub proof fn lemma_round_trip(d: Discovery)
    ensures
        decode(d.spec_members()) == d.view(),
{
    lemma_members(d);
    lemma_default_mode_omitted(d);
    match d.device {
        Some(dev) => lemma_device_round_trip(dev),
        None => {},
    }
    match d.state_class {
        Some(c) => {
            reveal_strlit("measurement");
            reveal_strlit("total");
            reveal_strlit("total_increasing");
            assert("measurement"@.len() == 11);
            assert("total"@.len() == 5);
            assert("total_increasing"@.len() == 16);
            assert(decode_state_class(d.state_class_member()) == Some(c));
        },
        None => {},
    }
    let list = d.availability@;
    let encoded = list.map_values(|a: Availability| a.spec_fields());
    assert forall|i: int| 0 <= i < list.len() implies decode_availability(#[trigger] encoded[i])
        == list[i].view() by {
        lemma_availability_round_trip(list[i]);
    }
    assert(encoded.map_values(|f: Seq<(Seq<char>, LeafView)>| decode_availability(f))
        =~= list.map_values(|a: Availability| a.view()));
    let r = decode(d.spec_members());
    let v = d.view();
    assert(r.device == v.device);
    assert(r.state_class == v.state_class);
    assert(r.availability == v.availability);
    assert(r =~= v);
}

} // verus!
