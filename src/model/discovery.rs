use super::device::Device;
use super::id::{prefixed_topic, under_prefix, DeviceId};
use vstd::prelude::*;

verus! {

/// A scalar value of the encoded document, or a list of strings.
#[derive(Clone, Debug, PartialEq, Eq)]
pub enum Leaf {
    Null,
    Bool(bool),
    Text(String),
    TextList(Vec<String>),
}

pub ghost enum LeafView {
    Null,
    Bool(bool),
    Text(Seq<char>),
    TextList(Seq<Seq<char>>),
}

impl View for Leaf {
    type V = LeafView;

    open spec fn view(&self) -> LeafView {
        match self {
            Leaf::Null => LeafView::Null,
            Leaf::Bool(b) => LeafView::Bool(*b),
            Leaf::Text(s) => LeafView::Text(s@),
            Leaf::TextList(v) => LeafView::TextList(strings_view(v@)),
        }
    }
}

/// A member of a nested object of the encoded document.
#[derive(Clone, Debug, PartialEq, Eq)]
pub struct Field {
    pub key: &'static str,
    pub value: Leaf,
}

/// The value of a member of the encoded document.
#[derive(Clone, Debug, PartialEq, Eq)]
pub enum Value {
    Leaf(Leaf),
    Object(Vec<Field>),
    ObjectList(Vec<Vec<Field>>),
}

pub ghost enum ValueView {
    Leaf(LeafView),
    Object(Seq<(Seq<char>, LeafView)>),
    ObjectList(Seq<Seq<(Seq<char>, LeafView)>>),
}

impl View for Value {
    type V = ValueView;

    open spec fn view(&self) -> ValueView {
        match self {
            Value::Leaf(l) => ValueView::Leaf(l@),
            Value::Object(v) => ValueView::Object(fields_view(v@)),
            Value::ObjectList(v) => ValueView::ObjectList(v@.map_values(|o: Vec<Field>| fields_view(o@))),
        }
    }
}

/// A member of the encoded discovery document.
#[derive(Clone, Debug, PartialEq, Eq)]
pub struct Member {
    pub key: &'static str,
    pub value: Value,
}

pub open spec fn strings_view(v: Seq<String>) -> Seq<Seq<char>> {
    v.map_values(|s: String| s@)
}

pub open spec fn fields_view(v: Seq<Field>) -> Seq<(Seq<char>, LeafView)> {
    v.map_values(|f: Field| (f.key@, f.value@))
}

pub open spec fn members_view(v: Seq<Member>) -> Seq<(Seq<char>, ValueView)> {
    v.map_values(|m: Member| (m.key@, m.value@))
}

pub open spec fn opt_view(o: Option<String>) -> Option<Seq<char>> {
    match o {
        Some(s) => Some(s@),
        None => None,
    }
}

/// The member `key: value` where the value is set, and nothing otherwise.
pub open spec fn optional<V>(key: Seq<char>, value: Option<V>) -> Seq<(Seq<char>, V)> {
    match value {
        Some(v) => seq![(key, v)],
        None => Seq::empty(),
    }
}

/// A text that is either set or null.
pub open spec fn text_or_null(o: Option<String>) -> LeafView {
    match o {
        Some(s) => LeafView::Text(s@),
        None => LeafView::Null,
    }
}

pub open spec fn opt_text(o: Option<String>) -> Option<LeafView> {
    match o {
        Some(s) => Some(LeafView::Text(s@)),
        None => None,
    }
}

pub open spec fn opt_leaf(o: Option<LeafView>) -> Option<ValueView> {
    match o {
        Some(l) => Some(ValueView::Leaf(l)),
        None => None,
    }
}

/// The value of the first member named `key`.
pub open spec fn lookup<V>(entries: Seq<(Seq<char>, V)>, key: Seq<char>) -> Option<V>
    decreases entries.len(),
{
    if entries.len() == 0 {
        None
    } else if entries[0].0 == key {
        Some(entries[0].1)
    } else {
        lookup(entries.drop_first(), key)
    }
}

impl Device {
    /// The members of the encoded device: `identifiers` when there are any, and
    /// `name`, `~`, `sw_version`, `support_url` when set.
    pub open spec fn spec_fields(&self) -> Seq<(Seq<char>, LeafView)> {
        (if self.identifiers@.len() == 0 {
            Seq::empty()
        } else {
            seq![("identifiers"@, LeafView::TextList(strings_view(self.identifiers@)))]
        }) + optional("name"@, opt_text(self.name)) + optional(
            "~"@,
            opt_text(self.base_topic),
        ) + optional("sw_version"@, opt_text(self.sw_version)) + optional(
            "support_url"@,
            opt_text(self.support_url),
        )
    }

    pub fn encode(&self) -> (r: Vec<Field>)
        ensures
            fields_view(r@) == self.spec_fields(),
    {
        let mut r: Vec<Field> = Vec::new();
        if self.identifiers.len() > 0 {
            push_field(&mut r, "identifiers", Leaf::TextList(clone_strings(&self.identifiers)));
        }
        push_optional_text(&mut r, "name", &self.name);
        push_optional_text(&mut r, "~", &self.base_topic);
        push_optional_text(&mut r, "sw_version", &self.sw_version);
        push_optional_text(&mut r, "support_url", &self.support_url);
        assert(fields_view(r@) =~= self.spec_fields());
        r
    }
}

fn clone_strings(v: &Vec<String>) -> (r: Vec<String>)
    ensures
        strings_view(r@) == strings_view(v@),
{
    let mut r: Vec<String> = Vec::new();
    let mut i: usize = 0;
    while i < v.len()
        invariant
            i <= v@.len(),
            r@.len() == i,
            forall|j: int| 0 <= j < i ==> #[trigger] r@[j]@ == v@[j]@,
        decreases v@.len() - i,
    {
        r.push(v[i].clone());
        i = i + 1;
    }
    assert(strings_view(r@) =~= strings_view(v@));
    r
}

fn text_leaf(o: &Option<String>) -> (r: Leaf)
    ensures
        r@ == text_or_null(*o),
{
    match o {
        Some(s) => Leaf::Text(s.clone()),
        None => Leaf::Null,
    }
}

fn push_field(out: &mut Vec<Field>, key: &'static str, value: Leaf)
    ensures
        fields_view(final(out)@) == fields_view(old(out)@) + seq![(key@, value@)],
{
    out.push(Field { key, value });
    assert(fields_view(final(out)@) =~= fields_view(old(out)@) + seq![(key@, value@)]);
}

fn push_optional_text(out: &mut Vec<Field>, key: &'static str, o: &Option<String>)
    ensures
        fields_view(final(out)@) == fields_view(old(out)@) + optional(key@, opt_text(*o)),
{
    match o {
        Some(s) => push_field(out, key, Leaf::Text(s.clone())),
        None => {
            assert(fields_view(old(out)@) + optional(key@, opt_text(*o)) =~= fields_view(old(out)@));
        },
    }
}

fn push_member(out: &mut Vec<Member>, key: &'static str, value: Value)
    ensures
        members_view(final(out)@) == members_view(old(out)@) + seq![(key@, value@)],
{
    out.push(Member { key, value });
    assert(members_view(final(out)@) =~= members_view(old(out)@) + seq![(key@, value@)]);
}

fn push_optional_member(out: &mut Vec<Member>, key: &'static str, o: &Option<String>)
    ensures
        members_view(final(out)@) == members_view(old(out)@) + optional(key@, opt_leaf(opt_text(*o))),
{
    match o {
        Some(s) => push_member(out, key, Value::Leaf(Leaf::Text(s.clone()))),
        None => {
            assert(members_view(old(out)@) + optional(key@, opt_leaf(opt_text(*o)))
                =~= members_view(old(out)@));
        },
    }
}

/// One way in which an entity's state can be reported as available.
#[derive(Clone, Debug, PartialEq, Eq)]
pub struct Availability {
    pub topic: String,
    pub payload_available: Option<String>,
    pub payload_not_available: Option<String>,
    pub value_template: Option<String>,
}

impl Availability {
    /// The members of the encoded availability entry: `topic` always, the others when set.
    pub open spec fn spec_fields(&self) -> Seq<(Seq<char>, LeafView)> {
        seq![("topic"@, LeafView::Text(self.topic@))] + optional(
            "payload_available"@,
            opt_text(self.payload_available),
        ) + optional("payload_not_available"@, opt_text(self.payload_not_available)) + optional(
            "value_template"@,
            opt_text(self.value_template),
        )
    }

    pub fn new(topic: &str) -> (r: Self)
        ensures
            r.topic@ == topic@,
            r.payload_available is None,
            r.payload_not_available is None,
            r.value_template is None,
    {
        Availability {
            topic: String::from_str(topic),
            payload_available: None,
            payload_not_available: None,
            value_template: None,
        }
    }

    pub fn payload_available(self, payload: &str) -> (r: Self)
        ensures
            r == (Availability { payload_available: r.payload_available, ..self }),
            opt_view(r.payload_available) == Some(payload@),
    {
        Availability { payload_available: Some(String::from_str(payload)), ..self }
    }

    pub fn payload_not_available(self, payload: &str) -> (r: Self)
        ensures
            r == (Availability { payload_not_available: r.payload_not_available, ..self }),
            opt_view(r.payload_not_available) == Some(payload@),
    {
        Availability { payload_not_available: Some(String::from_str(payload)), ..self }
    }

    pub fn value_template(self, value_template: &str) -> (r: Self)
        ensures
            r == (Availability { value_template: r.value_template, ..self }),
            opt_view(r.value_template) == Some(value_template@),
    {
        Availability { value_template: Some(String::from_str(value_template)), ..self }
    }

    pub fn encode(&self) -> (r: Vec<Field>)
        ensures
            fields_view(r@) == self.spec_fields(),
    {
        let mut r: Vec<Field> = Vec::new();
        push_field(&mut r, "topic", Leaf::Text(self.topic.clone()));
        push_optional_text(&mut r, "payload_available", &self.payload_available);
        push_optional_text(&mut r, "payload_not_available", &self.payload_not_available);
        push_optional_text(&mut r, "value_template", &self.value_template);
        assert(fields_view(r@) =~= self.spec_fields());
        r
    }
}

/// How several availability entries combine.
#[derive(Clone, Copy, Debug, PartialEq, Eq, Structural)]
pub enum AvailabilityMode {
    All,
    Any,
    Latest,
}

impl AvailabilityMode {
    pub open spec fn name(self) -> Seq<char> {
        match self {
            AvailabilityMode::All => "all"@,
            AvailabilityMode::Any => "any"@,
            AvailabilityMode::Latest => "latest"@,
        }
    }

    pub fn as_ref(&self) -> (r: &'static str)
        ensures
            r@ == self.name(),
    {
        match self {
            AvailabilityMode::All => "all",
            AvailabilityMode::Any => "any",
            AvailabilityMode::Latest => "latest",
        }
    }
}

impl Default for AvailabilityMode {
    fn default() -> (r: Self)
        ensures
            r == AvailabilityMode::Latest,
    {
        AvailabilityMode::Latest
    }
}

/// What the state of a sensor measures.
#[derive(Clone, Copy, Debug, PartialEq, Eq, Structural)]
pub enum StateClass {
    Measurement,
    Total,
    TotalIncreasing,
}

impl StateClass {
    pub open spec fn name(self) -> Seq<char> {
        match self {
            StateClass::Measurement => "measurement"@,
            StateClass::Total => "total"@,
            StateClass::TotalIncreasing => "total_increasing"@,
        }
    }

    pub fn as_ref(&self) -> (r: &'static str)
        ensures
            r@ == self.name(),
    {
        match self {
            StateClass::Measurement => "measurement",
            StateClass::Total => "total",
            StateClass::TotalIncreasing => "total_increasing",
        }
    }
}

/// The discovery document of one entity.
#[derive(Clone, Debug, PartialEq, Eq)]
pub struct Discovery {
    /// The name of the entity; encoded as null when unset.
    pub name: Option<String>,
    pub unique_id: Option<String>,
    pub device: Option<Device>,
    /// The device class; encoded as null when unset.
    pub device_class: Option<String>,
    pub state_class: Option<StateClass>,
    pub command_topic: Option<String>,
    pub command_template: Option<String>,
    pub state_topic: Option<String>,
    pub unit_of_measurement: Option<String>,
    pub value_template: Option<String>,
    pub enabled_by_default: Option<bool>,
    pub availability_mode: AvailabilityMode,
    pub availability: Vec<Availability>,
}

impl Default for Discovery {
    fn default() -> (r: Self)
        ensures
            r.name is None,
            r.unique_id is None,
            r.device is None,
            r.device_class is None,
            r.state_class is None,
            r.command_topic is None,
            r.command_template is None,
            r.state_topic is None,
            r.unit_of_measurement is None,
            r.value_template is None,
            r.enabled_by_default is None,
            r.availability_mode == AvailabilityMode::Latest,
            r.availability@.len() == 0,
    {
        Discovery {
            name: None,
            unique_id: None,
            device: None,
            device_class: None,
            state_class: None,
            command_topic: None,
            command_template: None,
            state_topic: None,
            unit_of_measurement: None,
            value_template: None,
            enabled_by_default: None,
            availability_mode: AvailabilityMode::Latest,
            availability: Vec::new(),
        }
    }
}

impl Discovery {
    /// The document that announces entity `id` of `device` in the namespace `prefix`:
    /// its unique id is the entity id, and its state and command topics are those the
    /// component supports.
    pub fn for_entity(
        id: &DeviceId,
        prefix: &str,
        device: Device,
        device_class: Option<String>,
    ) -> (r: Discovery)
        ensures
            r.name is None,
            opt_view(r.unique_id) == Some(id.id@),
            r.device == Some(device),
            r.device_class == device_class,
            r.state_class is None,
            opt_view(r.state_topic) == (match id.state_path() {
                Some(t) => Some(under_prefix(prefix@, t)),
                None => None::<Seq<char>>,
            }),
            opt_view(r.command_topic) == (match id.command_path() {
                Some(t) => Some(under_prefix(prefix@, t)),
                None => None::<Seq<char>>,
            }),
            r.command_template is None,
            r.unit_of_measurement is None,
            r.value_template is None,
            r.enabled_by_default is None,
            r.availability_mode == AvailabilityMode::Latest,
            r.availability@.len() == 0,
    {
        let state_topic = match id.state_topic() {
            Some(t) => Some(prefixed_topic(prefix, t.as_str())),
            None => None,
        };
        let command_topic = match id.command_topic() {
            Some(t) => Some(prefixed_topic(prefix, t.as_str())),
            None => None,
        };
        Discovery {
            name: None,
            unique_id: Some(id.id.clone()),
            device: Some(device),
            device_class,
            state_class: None,
            command_topic,
            command_template: None,
            state_topic,
            unit_of_measurement: None,
            value_template: None,
            enabled_by_default: None,
            availability_mode: AvailabilityMode::Latest,
            availability: Vec::new(),
        }
    }

    /// The `device` member, where a device is set.
    pub open spec fn device_member(&self) -> Option<ValueView> {
        match self.device {
            Some(d) => Some(ValueView::Object(d.spec_fields())),
            None => None,
        }
    }

    pub open spec fn state_class_member(&self) -> Option<ValueView> {
        match self.state_class {
            Some(c) => Some(ValueView::Leaf(LeafView::Text(c.name()))),
            None => None,
        }
    }

    pub open spec fn enabled_member(&self) -> Option<ValueView> {
        match self.enabled_by_default {
            Some(b) => Some(ValueView::Leaf(LeafView::Bool(b))),
            None => None,
        }
    }

    /// The `availability_mode` member, where the mode is not the default one.
    pub open spec fn mode_member(&self) -> Option<ValueView> {
        if self.availability_mode == AvailabilityMode::Latest {
            None
        } else {
            Some(ValueView::Leaf(LeafView::Text(self.availability_mode.name())))
        }
    }

    /// The `availability` member, where the list is not empty.
    pub open spec fn availability_member(&self) -> Option<ValueView> {
        if self.availability@.len() == 0 {
            None
        } else {
            Some(
                ValueView::ObjectList(
                    self.availability@.map_values(|a: Availability| a.spec_fields()),
                ),
            )
        }
    }

    /// The members of the encoded document: `name` and `device_class` always, as a
    /// value or null; every other member only where it is set.
    pub open spec fn spec_members(&self) -> Seq<(Seq<char>, ValueView)> {
        seq![("name"@, ValueView::Leaf(text_or_null(self.name)))]
            + optional("unique_id"@, opt_leaf(opt_text(self.unique_id)))
            + optional("device"@, self.device_member())
            + seq![("device_class"@, ValueView::Leaf(text_or_null(self.device_class)))]
            + optional("state_class"@, self.state_class_member())
            + optional("command_topic"@, opt_leaf(opt_text(self.command_topic)))
            + optional("command_template"@, opt_leaf(opt_text(self.command_template)))
            + optional("state_topic"@, opt_leaf(opt_text(self.state_topic)))
            + optional("unit_of_measurement"@, opt_leaf(opt_text(self.unit_of_measurement)))
            + optional("value_template"@, opt_leaf(opt_text(self.value_template)))
            + optional("enabled_by_default"@, self.enabled_member())
            + optional("availability_mode"@, self.mode_member())
            + optional("availability"@, self.availability_member())
    }

    /// Encodes the document as an ordered list of members.
    pub fn encode(&self) -> (r: Vec<Member>)
        ensures
            members_view(r@) == self.spec_members(),
    {
        let mut r: Vec<Member> = Vec::new();
        push_member(&mut r, "name", Value::Leaf(text_leaf(&self.name)));
        let ghost s1 = members_view(r@);
        push_optional_member(&mut r, "unique_id", &self.unique_id);
        let ghost s2 = members_view(r@);
        match &self.device {
            Some(d) => push_member(&mut r, "device", Value::Object(d.encode())),
            None => {},
        }
        assert(members_view(r@) =~= s2 + optional("device"@, self.device_member()));
        push_member(&mut r, "device_class", Value::Leaf(text_leaf(&self.device_class)));
        let ghost s4 = members_view(r@);
        match &self.state_class {
            Some(c) => push_member(
                &mut r,
                "state_class",
                Value::Leaf(Leaf::Text(String::from_str(c.as_ref()))),
            ),
            None => {},
        }
        assert(members_view(r@) =~= s4 + optional("state_class"@, self.state_class_member()));
        push_optional_member(&mut r, "command_topic", &self.command_topic);
        push_optional_member(&mut r, "command_template", &self.command_template);
        push_optional_member(&mut r, "state_topic", &self.state_topic);
        push_optional_member(&mut r, "unit_of_measurement", &self.unit_of_measurement);
        push_optional_member(&mut r, "value_template", &self.value_template);
        let ghost s10 = members_view(r@);
        match self.enabled_by_default {
            Some(b) => push_member(&mut r, "enabled_by_default", Value::Leaf(Leaf::Bool(b))),
            None => {},
        }
        assert(members_view(r@) =~= s10 + optional("enabled_by_default"@, self.enabled_member()));
        let ghost s11 = members_view(r@);
        if self.availability_mode != AvailabilityMode::Latest {
            push_member(
                &mut r,
                "availability_mode",
                Value::Leaf(Leaf::Text(String::from_str(self.availability_mode.as_ref()))),
            );
        }
        assert(members_view(r@) =~= s11 + optional("availability_mode"@, self.mode_member()));
        let ghost s12 = members_view(r@);
        if self.availability.len() > 0 {
            push_member(&mut r, "availability", Value::ObjectList(encode_availability(&self.availability)));
        }
        assert(members_view(r@) =~= s12 + optional("availability"@, self.availability_member()));
        r
    }
}

fn encode_availability(list: &Vec<Availability>) -> (r: Vec<Vec<Field>>)
    ensures
        r@.map_values(|o: Vec<Field>| fields_view(o@)) == list@.map_values(
            |a: Availability| a.spec_fields(),
        ),
{
    let mut r: Vec<Vec<Field>> = Vec::new();
    let mut i: usize = 0;
    while i < list.len()
        invariant
            i <= list@.len(),
            r@.len() == i,
            forall|j: int| 0 <= j < i ==> fields_view(#[trigger] r@[j]@) == list@[j].spec_fields(),
        decreases list@.len() - i,
    {
        r.push(list[i].encode());
        i = i + 1;
    }
    assert(r@.map_values(|o: Vec<Field>| fields_view(o@)) =~= list@.map_values(
        |a: Availability| a.spec_fields(),
    ));
    r
}

pub broadcast proof fn lemma_lookup_concat<V>(
    a: Seq<(Seq<char>, V)>,
    b: Seq<(Seq<char>, V)>,
    k: Seq<char>,
)
    ensures
        #[trigger] lookup(a + b, k) == (if lookup(a, k) is Some {
            lookup(a, k)
        } else {
            lookup(b, k)
        }),
    decreases a.len(),
{
    if a.len() == 0 {
        assert(a + b =~= b);
    } else {
        assert((a + b)[0] == a[0]);
        assert((a + b).drop_first() =~= a.drop_first() + b);
        lemma_lookup_concat(a.drop_first(), b, k);
    }
}

pub broadcast proof fn lemma_lookup_optional<V>(key: Seq<char>, o: Option<V>, k: Seq<char>)
    ensures
        #[trigger] lookup(optional(key, o), k) == (if key == k {
            o
        } else {
            None
        }),
{
    match o {
        Some(v) => {
            let s = seq![(key, v)];
            assert(s.len() == 1 && s[0] == (key, v));
            assert(s.drop_first() =~= Seq::<(Seq<char>, V)>::empty());
            assert(lookup(Seq::<(Seq<char>, V)>::empty(), k) is None);
            assert(optional(key, o) == s);
        },
        None => {
            assert(lookup(Seq::<(Seq<char>, V)>::empty(), k) is None);
        },
    }
}

proof fn lemma_keys_distinct()
    ensures
        "name"@.len() == 4,
        "unique_id"@.len() == 9,
        "device"@.len() == 6,
        "device_class"@.len() == 12,
        "state_class"@.len() == 11,
        "command_topic"@.len() == 13,
        "command_template"@.len() == 16,
        "state_topic"@.len() == 11,
        "unit_of_measurement"@.len() == 19,
        "value_template"@.len() == 14,
        "enabled_by_default"@.len() == 18,
        "availability_mode"@.len() == 17,
        "availability"@.len() == 12,
        "state_class"@ != "state_topic"@,
        "device_class"@ != "availability"@,
{
    reveal_strlit("name");
    reveal_strlit("unique_id");
    reveal_strlit("device");
    reveal_strlit("device_class");
    reveal_strlit("state_class");
    reveal_strlit("command_topic");
    reveal_strlit("command_template");
    reveal_strlit("state_topic");
    reveal_strlit("unit_of_measurement");
    reveal_strlit("value_template");
    reveal_strlit("enabled_by_default");
    reveal_strlit("availability_mode");
    reveal_strlit("availability");
    assert("state_class"@[6] != "state_topic"@[6]);
    assert("device_class"@[0] != "availability"@[0]);
}

impl Discovery {
    /// Which optional members carry a value: for `name` and `device_class` a value
    /// other than null, for `availability_mode` a mode other than the default one.
    pub open spec fn presence(&self) -> Seq<bool> {
        seq![
            self.name is Some,
            self.unique_id is Some,
            self.device is Some,
            self.device_class is Some,
            self.state_class is Some,
            self.command_topic is Some,
            self.command_template is Some,
            self.state_topic is Some,
            self.unit_of_measurement is Some,
            self.value_template is Some,
            self.enabled_by_default is Some,
            self.availability_mode != AvailabilityMode::Latest,
            self.availability@.len() > 0,
        ]
    }

    /// The value of each member of an encoded document.
    pub open spec fn member(&self, key: Seq<char>) -> Option<ValueView> {
        lookup(self.spec_members(), key)
    }
}

/// Whether a decoded document carries a value under `key`: the member is there and
/// is not null.
pub open spec fn carries(members: Seq<(Seq<char>, ValueView)>, key: Seq<char>) -> bool {
    match lookup(members, key) {
        Some(ValueView::Leaf(LeafView::Null)) => false,
        Some(_) => true,
        None => false,
    }
}

/// The availability mode a consumer reads from an encoded document: the default one
/// where the member is absent.
pub open spec fn decode_mode(members: Seq<(Seq<char>, ValueView)>) -> AvailabilityMode {
    match lookup(members, "availability_mode"@) {
        Some(ValueView::Leaf(LeafView::Text(t))) => if t == "all"@ {
            AvailabilityMode::All
        } else if t == "any"@ {
            AvailabilityMode::Any
        } else {
            AvailabilityMode::Latest
        },
        _ => AvailabilityMode::Latest,
    }
}

/// The presence pattern a consumer reads back from an encoded document.
pub open spec fn decode_presence(members: Seq<(Seq<char>, ValueView)>) -> Seq<bool> {
    seq![
        carries(members, "name"@),
        carries(members, "unique_id"@),
        carries(members, "device"@),
        carries(members, "device_class"@),
        carries(members, "state_class"@),
        carries(members, "command_topic"@),
        carries(members, "command_template"@),
        carries(members, "state_topic"@),
        carries(members, "unit_of_measurement"@),
        carries(members, "value_template"@),
        carries(members, "enabled_by_default"@),
        decode_mode(members) != AvailabilityMode::Latest,
        lookup(members, "availability"@) is Some,
    ]
}

/// The members of an encoded document, by name.
pub(crate) proof fn lemma_members(d: Discovery)
    ensures
        d.member("name"@) == Some(ValueView::Leaf(text_or_null(d.name))),
        d.member("unique_id"@) == opt_leaf(opt_text(d.unique_id)),
        d.member("device"@) == d.device_member(),
        d.member("device_class"@) == Some(ValueView::Leaf(text_or_null(d.device_class))),
        d.member("state_class"@) == d.state_class_member(),
        d.member("command_topic"@) == opt_leaf(opt_text(d.command_topic)),
        d.member("command_template"@) == opt_leaf(opt_text(d.command_template)),
        d.member("state_topic"@) == opt_leaf(opt_text(d.state_topic)),
        d.member("unit_of_measurement"@) == opt_leaf(opt_text(d.unit_of_measurement)),
        d.member("value_template"@) == opt_leaf(opt_text(d.value_template)),
        d.member("enabled_by_default"@) == d.enabled_member(),
        d.member("availability_mode"@) == d.mode_member(),
        d.member("availability"@) == d.availability_member(),
{
    broadcast use lemma_lookup_concat, lemma_lookup_optional;

    lemma_keys_distinct();
    assert(seq![("name"@, ValueView::Leaf(text_or_null(d.name)))] == optional(
        "name"@,
        Some(ValueView::Leaf(text_or_null(d.name))),
    ));
    assert(seq![("device_class"@, ValueView::Leaf(text_or_null(d.device_class)))] == optional(
        "device_class"@,
        Some(ValueView::Leaf(text_or_null(d.device_class))),
    ));
}

/// Encoding keeps `name` and `device_class` in every document, as a value or null,
/// and holds every other optional member exactly where it is set.
pub proof fn lemma_encoding_presence(d: Discovery)
    ensures
        d.member("name"@) == Some(ValueView::Leaf(text_or_null(d.name))),
        d.member("device_class"@) == Some(ValueView::Leaf(text_or_null(d.device_class))),
        d.member("unique_id"@) is Some <==> d.unique_id is Some,
        d.member("device"@) is Some <==> d.device is Some,
        d.member("state_class"@) is Some <==> d.state_class is Some,
        d.member("command_topic"@) is Some <==> d.command_topic is Some,
        d.member("command_template"@) is Some <==> d.command_template is Some,
        d.member("state_topic"@) is Some <==> d.state_topic is Some,
        d.member("unit_of_measurement"@) is Some <==> d.unit_of_measurement is Some,
        d.member("value_template"@) is Some <==> d.value_template is Some,
        d.member("enabled_by_default"@) is Some <==> d.enabled_by_default is Some,
        d.member("availability"@) is Some <==> d.availability@.len() > 0,
{
    lemma_members(d);
}

/// Decoding an encoded document reconstructs its presence pattern.
pub proof fn lemma_presence_round_trip(d: Discovery)
    ensures
        decode_presence(d.spec_members()) == d.presence(),
{
    lemma_members(d);
    lemma_default_mode_omitted(d);
    assert(decode_presence(d.spec_members()) =~= d.presence());
}

/// The default availability mode never appears in an encoded document, any other
/// mode always does, and a consumer reads the mode back.
pub proof fn lemma_default_mode_omitted(d: Discovery)
    ensures
        d.member("availability_mode"@) is Some <==> d.availability_mode
            != AvailabilityMode::Latest,
        d.member("availability_mode"@) matches Some(v) ==> v == ValueView::Leaf(
            LeafView::Text(d.availability_mode.name()),
        ) && d.availability_mode.name() != "latest"@,
        decode_mode(d.spec_members()) == d.availability_mode,
{
    lemma_members(d);
    reveal_strlit("all");
    reveal_strlit("any");
    reveal_strlit("latest");
    assert("all"@[1] != "any"@[1]);
}

} // verus!
