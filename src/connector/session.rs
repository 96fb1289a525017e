use crate::model::prefixed_topic;
use crate::model::id::under_prefix;
use vstd::prelude::*;

verus! {

/// The delivery guarantee of a message.
#[derive(Clone, Copy, Debug, PartialEq, Eq, Structural)]
pub enum QoS {
    AtMostOnce,
    AtLeastOnce,
    ExactlyOnce,
}

/// Seconds to wait after a failed poll before polling again.
pub const RECONNECT_DELAY_SECS: u64 = 5;

/// What the transport reported when it was polled.
#[derive(Clone, Debug, PartialEq, Eq)]
pub enum Event {
    /// The broker acknowledged the session.
    ConnAck,
    /// The broker ended the session.
    Disconnect,
    /// A message arrived.
    Publish { topic: String, payload: Vec<u8>, qos: QoS },
    /// Any other transport event.
    Other,
    /// Polling failed (network failure, protocol violation, ...).
    PollFailed,
}

pub ghost enum EventView {
    ConnAck,
    Disconnect,
    Publish { topic: Seq<char>, payload: Seq<u8>, qos: QoS },
    Other,
    PollFailed,
}

impl View for Event {
    type V = EventView;

    open spec fn view(&self) -> EventView {
        match self {
            Event::ConnAck => EventView::ConnAck,
            Event::Disconnect => EventView::Disconnect,
            Event::Publish { topic, payload, qos } => EventView::Publish {
                topic: topic@,
                payload: payload@,
                qos: *qos,
            },
            Event::Other => EventView::Other,
            Event::PollFailed => EventView::PollFailed,
        }
    }
}

/// What the driver of the session is to do next.
#[derive(Clone, Debug, PartialEq, Eq)]
pub enum Action {
    /// Wait for the next transport event and hand it to `on_event`.
    Poll,
    /// Subscribe to a topic; hand whether the request was accepted to `on_outcome`.
    Subscribe { topic: String, qos: QoS },
    /// Publish a message; hand whether the request was accepted to `on_outcome`.
    Publish { topic: String, payload: Vec<u8>, qos: QoS, retain: bool },
    /// Force the session to disconnect; hand whether the request was accepted to `on_outcome`.
    Disconnect,
    /// Call the handler's `connected`; hand whether it succeeded to `on_outcome`.
    Connected(bool),
    /// Call the handler's `restarted`; hand whether it succeeded to `on_outcome`.
    Restarted,
    /// Call the handler's `message`; hand whether it succeeded to `on_outcome`.
    Message { topic: String, payload: Vec<u8> },
    /// Sleep, then call `on_outcome`.
    Sleep { secs: u64 },
    /// A lifecycle callback of the handler failed: the run ends with its error.
    Stop,
    /// A forced disconnect could not be requested: the run cannot go on.
    Abort,
}

pub ghost enum ActionView {
    Poll,
    Subscribe { topic: Seq<char>, qos: QoS },
    Publish { topic: Seq<char>, payload: Seq<u8>, qos: QoS, retain: bool },
    Disconnect,
    Connected(bool),
    Restarted,
    Message { topic: Seq<char>, payload: Seq<u8> },
    Sleep { secs: u64 },
    Stop,
    Abort,
}

impl View for Action {
    type V = ActionView;

    open spec fn view(&self) -> ActionView {
        match self {
            Action::Poll => ActionView::Poll,
            Action::Subscribe { topic, qos } => ActionView::Subscribe { topic: topic@, qos: *qos },
            Action::Publish { topic, payload, qos, retain } => ActionView::Publish {
                topic: topic@,
                payload: payload@,
                qos: *qos,
                retain: *retain,
            },
            Action::Disconnect => ActionView::Disconnect,
            Action::Connected(b) => ActionView::Connected(*b),
            Action::Restarted => ActionView::Restarted,
            Action::Message { topic, payload } => ActionView::Message {
                topic: topic@,
                payload: payload@,
            },
            Action::Sleep { secs } => ActionView::Sleep { secs: *secs },
            Action::Stop => ActionView::Stop,
            Action::Abort => ActionView::Abort,
        }
    }
}

/// Where the session stands between two steps.
#[derive(Clone, Copy, Debug, PartialEq, Eq, Structural)]
pub enum Phase {
    /// Waiting for a transport event.
    Polling,
    /// The status topic subscription was requested.
    Subscribing,
    /// A forced disconnect was requested; `then_notify` tells whether the handler
    /// is told of the connection afterwards.
    ForcingDisconnect { then_notify: bool },
    /// The handler is told that the session is up.
    NotifyingConnected,
    /// The retained "online" marker is being published.
    Announcing,
    /// The handler is told that the session is down; `then_sleep` after a poll failure.
    NotifyingDisconnected { then_sleep: bool },
    /// The handler is told that the broker restarted.
    NotifyingRestarted,
    /// The handler processes a message delivered with `qos`.
    Delivering { qos: QoS },
    /// Waiting before the next poll.
    Sleeping,
    /// A lifecycle callback failed.
    Stopped,
    /// A forced disconnect failed.
    Aborted,
}

impl Phase {
    pub open spec fn is_terminal(self) -> bool {
        self is Stopped || self is Aborted
    }
}

/// The bytes of the payload that announces a (re)started broker: "online". A payload
/// decodes to that text, even lossily, exactly when it holds these bytes.
pub open spec fn online_payload() -> Seq<u8> {
    seq![111u8, 110u8, 108u8, 105u8, 110u8, 101u8]
}

/// The payload of the retained availability marker.
pub open spec fn online_marker() -> Seq<u8> {
    online_payload()
}

/// The topic below `prefix`, if `topic` lies in that namespace.
pub open spec fn strip_namespace(topic: Seq<char>, prefix: Seq<char>) -> Option<Seq<char>> {
    let head = prefix + "/"@;
    if head.len() <= topic.len() && topic.subrange(0, head.len() as int) == head {
        Some(topic.subrange(head.len() as int, topic.len() as int))
    } else {
        None
    }
}

/// The connection lifecycle: which handler callbacks and transport requests follow
/// each transport event, and the outcome of each of them.
pub struct Session {
    prefix: String,
    status_topic: String,
    availability: Option<String>,
    phase: Phase,
}

impl Session {
    pub closed spec fn prefix(&self) -> Seq<char> {
        self.prefix@
    }

    pub closed spec fn availability(&self) -> Option<Seq<char>> {
        match self.availability {
            Some(t) => Some(t@),
            None => None,
        }
    }

    pub closed spec fn phase(&self) -> Phase {
        self.phase
    }

    pub closed spec fn wf(&self) -> bool {
        self.status_topic@ == under_prefix(self.prefix@, "status"@)
    }

    /// The reserved topic on which the broker announces a restart.
    pub open spec fn status_topic(&self) -> Seq<char> {
        under_prefix(self.prefix(), "status"@)
    }

    /// The step taken on a transport event while polling.
    pub open spec fn event_step(&self, e: EventView) -> (Phase, ActionView) {
        match e {
            EventView::ConnAck => (
                Phase::Subscribing,
                ActionView::Subscribe { topic: self.status_topic(), qos: QoS::AtLeastOnce },
            ),
            EventView::Disconnect => (
                Phase::NotifyingDisconnected { then_sleep: false },
                ActionView::Connected(false),
            ),
            EventView::Publish { topic, payload, qos } => {
                if topic == self.status_topic() {
                    if payload == online_payload() {
                        (Phase::NotifyingRestarted, ActionView::Restarted)
                    } else {
                        (Phase::Polling, ActionView::Poll)
                    }
                } else {
                    match strip_namespace(topic, self.prefix()) {
                        Some(t) => (
                            Phase::Delivering { qos },
                            ActionView::Message { topic: t, payload },
                        ),
                        None => (Phase::Polling, ActionView::Poll),
                    }
                }
            },
            EventView::Other => (Phase::Polling, ActionView::Poll),
            EventView::PollFailed => (
                Phase::NotifyingDisconnected { then_sleep: true },
                ActionView::Connected(false),
            ),
        }
    }

    /// The step after `connected(true)` succeeded.
    pub open spec fn after_connected(&self) -> (Phase, ActionView) {
        match self.availability() {
            Some(t) => (
                Phase::Announcing,
                ActionView::Publish {
                    topic: t,
                    payload: online_marker(),
                    qos: QoS::AtLeastOnce,
                    retain: true,
                },
            ),
            None => (Phase::Polling, ActionView::Poll),
        }
    }

    /// The step taken on the outcome of the pending action.
    pub open spec fn outcome_step(&self, ok: bool) -> (Phase, ActionView) {
        self.outcome_from(self.phase(), ok)
    }

    /// The step taken in `phase` on the outcome of the pending action.
    pub open spec fn outcome_from(&self, phase: Phase, ok: bool) -> (Phase, ActionView) {
        match phase {
            Phase::Subscribing => if ok {
                (Phase::NotifyingConnected, ActionView::Connected(true))
            } else {
                (Phase::ForcingDisconnect { then_notify: true }, ActionView::Disconnect)
            },
            Phase::ForcingDisconnect { then_notify } => if !ok {
                (Phase::Aborted, ActionView::Abort)
            } else if then_notify {
                (Phase::NotifyingConnected, ActionView::Connected(true))
            } else {
                (Phase::Polling, ActionView::Poll)
            },
            Phase::NotifyingConnected => if ok {
                self.after_connected()
            } else {
                (Phase::Stopped, ActionView::Stop)
            },
            Phase::Announcing => if ok {
                (Phase::Polling, ActionView::Poll)
            } else {
                (Phase::ForcingDisconnect { then_notify: false }, ActionView::Disconnect)
            },
            Phase::NotifyingDisconnected { then_sleep } => if !ok {
                (Phase::Stopped, ActionView::Stop)
            } else if then_sleep {
                (Phase::Sleeping, ActionView::Sleep { secs: RECONNECT_DELAY_SECS })
            } else {
                (Phase::Polling, ActionView::Poll)
            },
            Phase::NotifyingRestarted => if ok {
                (Phase::Polling, ActionView::Poll)
            } else {
                (Phase::Stopped, ActionView::Stop)
            },
            Phase::Delivering { qos } => if ok || qos == QoS::AtMostOnce {
                (Phase::Polling, ActionView::Poll)
            } else {
                (Phase::ForcingDisconnect { then_notify: false }, ActionView::Disconnect)
            },
            Phase::Sleeping => (Phase::Polling, ActionView::Poll),
            Phase::Polling => (Phase::Polling, ActionView::Poll),
            Phase::Stopped => (Phase::Stopped, ActionView::Stop),
            Phase::Aborted => (Phase::Aborted, ActionView::Abort),
        }
    }

    /// A session below the namespace `prefix`, with an optional availability topic.
    pub fn new(prefix: &str, availability: Option<String>) -> (r: Self)
        ensures
            r.wf(),
            r.prefix() == prefix@,
            r.availability() == (match availability {
                Some(t) => Some(t@),
                None => None::<Seq<char>>,
            }),
            r.phase() == Phase::Polling,
    {
        Session {
            prefix: String::from_str(prefix),
            status_topic: prefixed_topic(prefix, "status"),
            availability,
            phase: Phase::Polling,
        }
    }

    pub fn current_phase(&self) -> (r: Phase)
        ensures
            r == self.phase(),
    {
        self.phase
    }

    /// Whether the session waits for a transport event.
    pub fn awaits_event(&self) -> (r: bool)
        ensures
            r == (self.phase() == Phase::Polling),
    {
        self.phase == Phase::Polling
    }

    /// Whether the run is over.
    pub fn is_finished(&self) -> (r: bool)
        ensures
            r == self.phase().is_terminal(),
    {
        match self.phase {
            Phase::Stopped | Phase::Aborted => true,
            _ => false,
        }
    }

    /// Feeds a transport event to the session.
    pub fn on_event(&mut self, event: Event) -> (r: Action)
        requires
            old(self).wf(),
            old(self).phase() == Phase::Polling,
        ensures
            final(self).wf(),
            final(self).prefix() == old(self).prefix(),
            final(self).availability() == old(self).availability(),
            (final(self).phase(), r@) == old(self).event_step(event@),
    {
        match event {
            Event::ConnAck => {
                self.phase = Phase::Subscribing;
                Action::Subscribe { topic: self.status_topic.clone(), qos: QoS::AtLeastOnce }
            },
            Event::Disconnect => {
                self.phase = Phase::NotifyingDisconnected { then_sleep: false };
                Action::Connected(false)
            },
            Event::Publish { topic, payload, qos } => {
                if topic == self.status_topic {
                    if is_online(&payload) {
                        self.phase = Phase::NotifyingRestarted;
                        Action::Restarted
                    } else {
                        Action::Poll
                    }
                } else {
                    match strip_prefix(&topic, &self.prefix) {
                        Some(t) => {
                            self.phase = Phase::Delivering { qos };
                            Action::Message { topic: t, payload }
                        },
                        None => Action::Poll,
                    }
                }
            },
            Event::Other => Action::Poll,
            Event::PollFailed => {
                self.phase = Phase::NotifyingDisconnected { then_sleep: true };
                Action::Connected(false)
            },
        }
    }

    /// Feeds the outcome of the pending action to the session: whether the request
    /// was accepted, or the handler callback succeeded.
    pub fn on_outcome(&mut self, ok: bool) -> (r: Action)
        requires
            old(self).wf(),
            old(self).phase() != Phase::Polling,
            !old(self).phase().is_terminal(),
        ensures
            final(self).wf(),
            final(self).prefix() == old(self).prefix(),
            final(self).availability() == old(self).availability(),
            (final(self).phase(), r@) == old(self).outcome_step(ok),
    {
        match self.phase {
            Phase::Subscribing => if ok {
                self.phase = Phase::NotifyingConnected;
                Action::Connected(true)
            } else {
                self.phase = Phase::ForcingDisconnect { then_notify: true };
                Action::Disconnect
            },
            Phase::ForcingDisconnect { then_notify } => if !ok {
                self.phase = Phase::Aborted;
                Action::Abort
            } else if then_notify {
                self.phase = Phase::NotifyingConnected;
                Action::Connected(true)
            } else {
                self.phase = Phase::Polling;
                Action::Poll
            },
            Phase::NotifyingConnected => if ok {
                match &self.availability {
                    Some(t) => {
                        self.phase = Phase::Announcing;
                        Action::Publish {
                            topic: t.clone(),
                            payload: online_bytes(),
                            qos: QoS::AtLeastOnce,
                            retain: true,
                        }
                    },
                    None => {
                        self.phase = Phase::Polling;
                        Action::Poll
                    },
                }
            } else {
                self.phase = Phase::Stopped;
                Action::Stop
            },
            Phase::Announcing => if ok {
                self.phase = Phase::Polling;
                Action::Poll
            } else {
                self.phase = Phase::ForcingDisconnect { then_notify: false };
                Action::Disconnect
            },
            Phase::NotifyingDisconnected { then_sleep } => if !ok {
                self.phase = Phase::Stopped;
                Action::Stop
            } else if then_sleep {
                self.phase = Phase::Sleeping;
                Action::Sleep { secs: RECONNECT_DELAY_SECS }
            } else {
                self.phase = Phase::Polling;
                Action::Poll
            },
            Phase::NotifyingRestarted => if ok {
                self.phase = Phase::Polling;
                Action::Poll
            } else {
                self.phase = Phase::Stopped;
                Action::Stop
            },
            Phase::Delivering { qos } => if ok || qos == QoS::AtMostOnce {
                self.phase = Phase::Polling;
                Action::Poll
            } else {
                self.phase = Phase::ForcingDisconnect { then_notify: false };
                Action::Disconnect
            },
            _ => {
                self.phase = Phase::Polling;
                Action::Poll
            },
        }
    }
}

/// The payload of the retained availability marker.
fn online_bytes() -> (r: Vec<u8>)
    ensures
        r@ == online_marker(),
{
    let r: Vec<u8> = vec![111u8, 110u8, 108u8, 105u8, 110u8, 101u8];
    assert(r@ =~= online_marker());
    r
}

/// Whether the payload reads "online".
fn is_online(payload: &Vec<u8>) -> (r: bool)
    ensures
        r == (payload@ == online_payload()),
{
    let expected = online_bytes();
    if payload.len() != expected.len() {
        return false;
    }
    let mut i: usize = 0;
    while i < payload.len()
        invariant
            expected@ == online_payload(),
            payload@.len() == expected@.len(),
            i <= payload@.len(),
            forall|j: int| 0 <= j < i ==> payload@[j] == expected@[j],
        decreases payload@.len() - i,
    {
        if payload[i] != expected[i] {
            return false;
        }
        i = i + 1;
    }
    assert(payload@ =~= online_payload());
    true
}

/// The part of `topic` below `prefix` and its separator, if `topic` lies in that namespace.
fn strip_prefix(topic: &String, prefix: &String) -> (r: Option<String>)
    ensures
        r matches Some(t) ==> strip_namespace(topic@, prefix@) == Some(t@),
        r is None ==> strip_namespace(topic@, prefix@) is None,
{
    proof {
        reveal_strlit("/");
    }
    let n = prefix.as_str().unicode_len();
    let m = topic.as_str().unicode_len();
    let ghost head = prefix@ + "/"@;
    if m <= n {
        assert(!(head.len() <= topic@.len()));
        return None;
    }
    assert(head.len() == n + 1);
    assert(forall|j: int| 0 <= j < n ==> head[j] == prefix@[j]);
    assert(head[n as int] == '/');
    let mut i: usize = 0;
    while i < n
        invariant
            n == prefix@.len(),
            head.len() == n + 1,
            forall|j: int| 0 <= j < n ==> head[j] == prefix@[j],
            m == topic@.len(),
            n < m,
            i <= n,
            head == prefix@ + "/"@,
            forall|j: int| 0 <= j < i ==> topic@[j] == head[j],
        decreases n - i,
    {
        if topic.as_str().get_char(i) != prefix.as_str().get_char(i) {
            assert(topic@.subrange(0, head.len() as int)[i as int] != head[i as int]);
            return None;
        }
        i = i + 1;
    }
    if topic.as_str().get_char(n) != '/' {
        assert(topic@.subrange(0, head.len() as int)[n as int] != head[n as int]);
        return None;
    }
    assert(topic@.subrange(0, head.len() as int) =~= head);
    let rest = topic.as_str().substring_char(n + 1, m);
    Some(String::from_str(rest))
}

/// A session that is acknowledged but cannot subscribe to its status topic forces a
/// disconnect before it tells the handler of the connection; once the disconnect is
/// requested the handler hears `connected(true)`, and the transport then reports the
/// session down again.
pub proof fn lemma_failed_subscription_forces_disconnect(s: Session)
    ensures
        s.event_step(EventView::ConnAck) == (
            Phase::Subscribing,
            ActionView::Subscribe { topic: s.status_topic(), qos: QoS::AtLeastOnce },
        ),
        s.outcome_from(Phase::Subscribing, false) == (
            Phase::ForcingDisconnect { then_notify: true },
            ActionView::Disconnect,
        ),
        s.outcome_from(Phase::ForcingDisconnect { then_notify: true }, true) == (
            Phase::NotifyingConnected,
            ActionView::Connected(true),
        ),
        s.event_step(EventView::Disconnect) == (
            Phase::NotifyingDisconnected { then_sleep: false },
            ActionView::Connected(false),
        ),
{
}

/// "online" on the status topic makes exactly one `restarted` call and no `message`
/// call; a message on any other topic of the namespace makes exactly one `message`
/// call, with the topic below the namespace prefix.
pub proof fn lemma_dispatch(s: Session, topic: Seq<char>, payload: Seq<u8>, qos: QoS)
    ensures
        s.event_step(
            EventView::Publish { topic: s.status_topic(), payload: online_payload(), qos },
        ) == (Phase::NotifyingRestarted, ActionView::Restarted),
        topic != s.status_topic() ==> match strip_namespace(topic, s.prefix()) {
            Some(rest) => under_prefix(s.prefix(), rest) == topic && s.event_step(
                EventView::Publish { topic, payload, qos },
            ) == (Phase::Delivering { qos }, ActionView::Message { topic: rest, payload }),
            None => s.event_step(EventView::Publish { topic, payload, qos }) == (
                Phase::Polling,
                ActionView::Poll,
            ),
        },
{
    match strip_namespace(topic, s.prefix()) {
        Some(rest) => {
            let head = s.prefix() + "/"@;
            assert(topic =~= topic.subrange(0, head.len() as int) + rest);
            assert(under_prefix(s.prefix(), rest) =~= head + rest);
        },
        None => {},
    }
}

/// A failed `message` call forces a disconnect exactly where the message came with a
/// delivery guarantee stronger than best effort; a successful one never does.
pub proof fn lemma_failure_containment(s: Session, qos: QoS)
    ensures
        s.outcome_from(Phase::Delivering { qos }, false).1 == (if qos == QoS::AtMostOnce {
            ActionView::Poll
        } else {
            ActionView::Disconnect
        }),
        s.outcome_from(Phase::Delivering { qos }, true).1 == ActionView::Poll,
{
}

} // verus!
