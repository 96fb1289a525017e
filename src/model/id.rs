use super::component::Component;
use vstd::prelude::*;

verus! {

/// The path of an entity's topic below the namespace prefix:
/// `{component}/{node_id}/{id}/{suffix}`, or `{component}/{id}/{suffix}` without a node id.
pub open spec fn topic_path(
    component: Component,
    node_id: Option<Seq<char>>,
    id: Seq<char>,
    suffix: Seq<char>,
) -> Seq<char> {
    component.name() + "/"@ + node_segment(node_id) + id + "/"@ + suffix
}

/// The node id followed by its separator, or nothing.
pub open spec fn node_segment(node_id: Option<Seq<char>>) -> Seq<char> {
    match node_id {
        Some(n) => n + "/"@,
        None => Seq::empty(),
    }
}

/// A topic below the namespace prefix: `{prefix}/{path}`.
pub open spec fn under_prefix(prefix: Seq<char>, path: Seq<char>) -> Seq<char> {
    prefix + "/"@ + path
}

/// Places `path` below the namespace `prefix`.
pub fn prefixed_topic(prefix: &str, path: &str) -> (r: String)
    ensures
        r@ == under_prefix(prefix@, path@),
{
    let mut r = String::from_str(prefix);
    r.append("/");
    r.append(path);
    r
}

/// Identifies one entity of a device.
#[derive(Clone, Debug)]
pub struct DeviceId {
    pub id: String,
    pub component: Component,
    pub node_id: Option<String>,
}

impl DeviceId {
    pub open spec fn node_view(&self) -> Option<Seq<char>> {
        match self.node_id {
            Some(n) => Some(n@),
            None => None,
        }
    }

    /// The path of the topic with the given suffix.
    pub open spec fn path(&self, suffix: Seq<char>) -> Seq<char> {
        topic_path(self.component, self.node_view(), self.id@, suffix)
    }

    pub open spec fn config_path(&self) -> Seq<char> {
        self.path("config"@)
    }

    pub open spec fn state_path(&self) -> Option<Seq<char>> {
        if self.component.has_state() {
            Some(self.path("state"@))
        } else {
            None
        }
    }

    pub open spec fn command_path(&self) -> Option<Seq<char>> {
        if self.component.has_command() {
            Some(self.path("set"@))
        } else {
            None
        }
    }

    pub fn new(id: &str, component: Component) -> (r: Self)
        ensures
            r.id@ == id@,
            r.component == component,
            r.node_id is None,
    {
        DeviceId { id: String::from_str(id), component, node_id: None }
    }

    pub fn with_node_id(id: &str, component: Component, node_id: &str) -> (r: Self)
        ensures
            r.id@ == id@,
            r.component == component,
            r.node_view() == Some(node_id@),
    {
        DeviceId { id: String::from_str(id), component, node_id: Some(String::from_str(node_id)) }
    }

    fn render(&self, suffix: &str) -> (r: String)
        ensures
            r@ == self.path(suffix@),
    {
        let mut r = self.component.to_string();
        r.append("/");
        match &self.node_id {
            Some(n) => {
                r.append(n.as_str());
                r.append("/");
            },
            None => {},
        }
        r.append(self.id.as_str());
        r.append("/");
        r.append(suffix);
        proof {
            let c = self.component.name();
            let i = self.id@;
            match self.node_view() {
                Some(n) => {
                    assert(r@ =~= c + "/"@ + (n + "/"@) + i + "/"@ + suffix@);
                },
                None => {
                    assert(r@ =~= c + "/"@ + Seq::<char>::empty() + i + "/"@ + suffix@);
                },
            }
        }
        r
    }

    /// The discovery topic, below the namespace prefix.
    pub fn config_topic(&self) -> (r: String)
        ensures
            r@ == self.config_path(),
    {
        self.render("config")
    }

    /// The discovery topic in the namespace `prefix`.
    pub fn discovery_topic(&self, prefix: &str) -> (r: String)
        ensures
            r@ == under_prefix(prefix@, self.config_path()),
    {
        let path = self.config_topic();
        prefixed_topic(prefix, path.as_str())
    }

    /// The state topic below the namespace prefix, where the component has a state.
    pub fn state_topic(&self) -> (r: Option<String>)
        ensures
            r is Some <==> self.component.has_state(),
            r matches Some(t) ==> self.state_path() == Some(t@),
    {
        if self.component.supports_state() {
            Some(self.render("state"))
        } else {
            None
        }
    }

    /// The command topic below the namespace prefix, where the component accepts commands.
    pub fn command_topic(&self) -> (r: Option<String>)
        ensures
            r is Some <==> self.component.has_command(),
            r matches Some(t) ==> self.command_path() == Some(t@),
    {
        if self.component.supports_command() {
            Some(self.render("set"))
        } else {
            None
        }
    }
}

/// The number of `/` characters in `s`.
pub open spec fn count_slashes(s: Seq<char>) -> nat
    decreases s.len(),
{
    if s.len() == 0 {
        0
    } else {
        (if s[0] == '/' {
            1nat
        } else {
            0nat
        }) + count_slashes(s.drop_first())
    }
}

proof fn lemma_count_slashes_concat(a: Seq<char>, b: Seq<char>)
    ensures
        count_slashes(a + b) == count_slashes(a) + count_slashes(b),
    decreases a.len(),
{
    if a.len() == 0 {
        assert(a + b =~= b);
    } else {
        assert((a + b).drop_first() =~= a.drop_first() + b);
        assert((a + b)[0] == a[0]);
        lemma_count_slashes_concat(a.drop_first(), b);
    }
}

/// Topics are a function of the component, the node id, the id and the namespace
/// prefix alone: two identities that agree on these derive the same topics.
pub proof fn lemma_topics_deterministic(a: DeviceId, b: DeviceId, prefix: Seq<char>)
    requires
        a.component == b.component,
        a.node_view() == b.node_view(),
        a.id@ == b.id@,
    ensures
        under_prefix(prefix, a.config_path()) == under_prefix(prefix, b.config_path()),
        a.state_path() == b.state_path(),
        a.command_path() == b.command_path(),
{
}

/// A node id stands in the topic between the component and the entity id, followed by
/// exactly one separator; without a node id that segment and its separator are absent.
/// So the topic with a node id holds one `/` more than the node id and the topic
/// without it hold together.
pub proof fn lemma_node_separator(
    component: Component,
    node_id: Seq<char>,
    id: Seq<char>,
    suffix: Seq<char>,
)
    ensures
        topic_path(component, Some(node_id), id, suffix) == component.name() + "/"@ + node_id
            + "/"@ + id + "/"@ + suffix,
        topic_path(component, None, id, suffix) == component.name() + "/"@ + id + "/"@ + suffix,
        count_slashes(topic_path(component, Some(node_id), id, suffix)) == count_slashes(
            topic_path(component, None, id, suffix),
        ) + count_slashes(node_id) + 1,
{
    reveal_strlit("/");
    let c = component.name();
    let s = "/"@;
    assert(s.len() == 1);
    assert(s[0] == '/');
    assert(s.drop_first() =~= Seq::<char>::empty());
    assert(count_slashes(Seq::<char>::empty()) == 0);
    assert(count_slashes(s) == 1);
    assert(c + s + (node_id + s) + id + s + suffix =~= c + s + node_id + s + id + s + suffix);
    assert(c + s + Seq::<char>::empty() + id + s + suffix =~= c + s + id + s + suffix);
    let tail = id + s + suffix;
    assert(c + s + node_id + s + id + s + suffix =~= (c + s) + (node_id + (s + tail)));
    assert(c + s + id + s + suffix =~= (c + s) + tail);
    lemma_count_slashes_concat(c + s, node_id + (s + tail));
    lemma_count_slashes_concat(node_id, s + tail);
    lemma_count_slashes_concat(s, tail);
    lemma_count_slashes_concat(c + s, tail);
}

} // verus!
