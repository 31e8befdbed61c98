//! Connectivity manager of the cloud channel: connection lifecycle, topic
//! callbacks kept across reconnects, and a last-write-wins queue of the
//! publishes made while offline.
//!
//! The manager decides; the caller talks to the broker. Each operation returns
//! what the caller has to send, and the client's notifications come back in
//! through [`RmakerMqtt::on_event`].

use vstd::prelude::*;
use crate::error::RmakerMqttError;
use crate::keyed::KeyedList;

verus! {

/// State of the link to the broker.
#[derive(Debug, Clone, Copy, PartialEq, Eq, Structural)]
pub enum ConnectionStatus {
    Disconnected,
    Connecting,
    Connected,
}

/// A notification of the underlying client.
#[derive(Debug, Clone)]
pub enum MqttEvent {
    Connected,
    Disconnected,
    /// A message arrived on the topic.
    Received(String),
    /// Any other notification; it changes nothing.
    Other,
}

/// Credential material for the TLS session, each part terminated by a zero
/// byte as the client expects.
pub struct TlsConfiguration {
    pub client_cert: Vec<u8>,
    pub private_key: Vec<u8>,
    pub server_cert: Vec<u8>,
}

/// What the caller does with a publish.
#[derive(Debug)]
pub enum PublishAction {
    /// Deliver this payload on this topic now.
    SendNow(String, Vec<u8>),
    /// The payload waits in the outbound queue.
    Queued,
}

/// What the caller does with a subscribe.
#[derive(Debug, Clone)]
pub enum SubscribeAction {
    /// Subscribe to this topic at the broker now.
    SubscribeNow(String),
    /// The subscribe waits for the next connection.
    Deferred,
}

/// The work that a new connection brings: subscribe to every registered
/// topic, then publish every queued payload.
pub struct ReplayPlan {
    pub subscribe: Vec<String>,
    pub publish: Vec<(String, Vec<u8>)>,
}

/// What the caller does with a notification of the client.
pub enum MqttAction {
    /// Carry out the replay of a new connection.
    Replay(ReplayPlan),
    /// Hand the message to the callback of this topic.
    Deliver(String),
    /// Nothing to do.
    Ignore,
}

/// The abstract state of the manager.
pub ghost struct MqttState<H> {
    pub initialized: bool,
    pub status: ConnectionStatus,
    pub registry: Map<Seq<char>, H>,
    pub queue: Map<Seq<char>, Seq<u8>>,
}

impl<H> MqttState<H> {
    pub open spec fn connected(self) -> bool {
        self.status == ConnectionStatus::Connected
    }

    /// After a publish: queued while initialized and not connected.
    pub open spec fn after_publish(self, topic: Seq<char>, payload: Seq<u8>) -> Self {
        if self.initialized && !self.connected() {
            MqttState { queue: self.queue.insert(topic, payload), ..self }
        } else {
            self
        }
    }

    /// After a subscribe: the callback is recorded once initialized.
    pub open spec fn after_subscribe(self, topic: Seq<char>, cb: H) -> Self {
        if self.initialized {
            MqttState { registry: self.registry.insert(topic, cb), ..self }
        } else {
            self
        }
    }

    /// After the client reports a connection.
    pub open spec fn after_connected(self) -> Self {
        if self.initialized {
            MqttState { status: ConnectionStatus::Connected, ..self }
        } else {
            self
        }
    }

    /// After the client reports the loss of the link.
    pub open spec fn after_disconnected(self) -> Self {
        if self.initialized {
            MqttState { status: ConnectionStatus::Disconnected, ..self }
        } else {
            self
        }
    }

    /// After a queued payload was delivered.
    pub open spec fn after_delivered(self, topic: Seq<char>) -> Self {
        MqttState { queue: self.queue.remove(topic), ..self }
    }
}

/// Whether `s` holds no string twice.
pub open spec fn distinct_strings(s: Seq<String>) -> bool {
    forall|i: int, j: int| 0 <= i < s.len() && 0 <= j < s.len() && i != j ==> s[i]@ != s[j]@
}

/// The replay for state `s`: every registered topic once, and every queued
/// payload once with its topic.
pub open spec fn replay_matches<H>(s: MqttState<H>, plan: ReplayPlan) -> bool {
    &&& distinct_strings(plan.subscribe@)
    &&& forall|t: Seq<char>| s.registry.contains_key(t)
        <==> exists|i: int| 0 <= i < plan.subscribe@.len() && #[trigger] plan.subscribe@[i]@ == t
    &&& forall|i: int, j: int| 0 <= i < plan.publish@.len() && 0 <= j < plan.publish@.len() && i != j
        ==> plan.publish@[i].0@ != plan.publish@[j].0@
    &&& forall|t: Seq<char>| s.queue.contains_key(t)
        <==> exists|i: int| 0 <= i < plan.publish@.len() && #[trigger] plan.publish@[i].0@ == t
    &&& forall|i: int| 0 <= i < plan.publish@.len()
        ==> #[trigger] s.queue[plan.publish@[i].0@] == plan.publish@[i].1@
}

fn copy_bytes(v: &Vec<u8>) -> (r: Vec<u8>)
    ensures
        r@ == v@,
{
    let mut r: Vec<u8> = Vec::new();
    let mut i: usize = 0;
    while i < v.len()
        invariant
            i <= v@.len(),
            r@ == v@.subrange(0, i as int),
        decreases v@.len() - i,
    {
        r.push(v[i]);
        i = i + 1;
    }
    assert(r@ =~= v@);
    r
}

fn zero_terminated(mut v: Vec<u8>) -> (r: Vec<u8>)
    ensures
        r@ == v@.push(0u8),
{
    v.push(0);
    v
}

/// The connectivity manager of the cloud channel.
pub struct RmakerMqtt<H> {
    pub initialized: bool,
    pub status: ConnectionStatus,
    pub topic_cbs: KeyedList<H>,
    pub publish_queue: KeyedList<Vec<u8>>,
}

impl<H> View for RmakerMqtt<H> {
    type V = MqttState<H>;

    open spec fn view(&self) -> MqttState<H> {
        MqttState {
            initialized: self.initialized,
            status: self.status,
            registry: self.topic_cbs@,
            queue: self.publish_queue@.map_values(|v: Vec<u8>| v@),
        }
    }
}

impl<H> RmakerMqtt<H> {
    /// Topic keys are unique in the registry and in the queue; nothing is
    /// connected before initialization.
    pub open spec fn wf(&self) -> bool {
        &&& self.topic_cbs.wf()
        &&& self.publish_queue.wf()
        &&& !self.initialized ==> self.status == ConnectionStatus::Disconnected
    }

    /// A manager with no connection object, no callbacks and an empty queue.
    pub fn new() -> (r: Self)
        ensures
            r.wf(),
            !r@.initialized,
            r@.status == ConnectionStatus::Disconnected,
            r@.registry == Map::<Seq<char>, H>::empty(),
            r@.queue == Map::<Seq<char>, Seq<u8>>::empty(),
    {
        let r = RmakerMqtt {
            initialized: false,
            status: ConnectionStatus::Disconnected,
            topic_cbs: KeyedList::new(),
            publish_queue: KeyedList::new(),
        };
        assert(r@.queue =~= Map::<Seq<char>, Seq<u8>>::empty());
        r
    }

    /// Whether the connection object exists.
    pub fn is_mqtt_initialized(&self) -> (r: bool)
        ensures
            r == self@.initialized,
    {
        self.initialized
    }

    /// Whether the link to the broker is up.
    pub fn is_mqtt_connected(&self) -> (r: bool)
        ensures
            r == self@.connected(),
    {
        self.status == ConnectionStatus::Connected
    }

    /// Checks the credentials read from storage and prepares the TLS
    /// material for a new connection: each part gets its terminating zero.
    /// Refused when a connection object already exists, or when the client
    /// certificate or the private key is missing.
    pub fn init_rmaker_mqtt(
        &self,
        client_cert: Option<Vec<u8>>,
        private_key: Option<Vec<u8>>,
        server_cert: Vec<u8>,
    ) -> (r: Result<TlsConfiguration, RmakerMqttError>)
        ensures
            self@.initialized ==> (r matches Err(e) && e == RmakerMqttError::AlreadyInitialized),
            !self@.initialized && (client_cert is None || private_key is None)
                ==> (r matches Err(e) && e == RmakerMqttError::NodeCredentialsNotFound),
            r is Ok <==> !self@.initialized && client_cert is Some && private_key is Some,
            r matches Ok(tls) ==> tls.client_cert@ == client_cert->Some_0@.push(0u8)
                && tls.private_key@ == private_key->Some_0@.push(0u8)
                && tls.server_cert@ == server_cert@.push(0u8),
    {
        if self.initialized {
            return Err(RmakerMqttError::AlreadyInitialized);
        }
        match (client_cert, private_key) {
            (Some(cert), Some(key)) => Ok(TlsConfiguration {
                client_cert: zero_terminated(cert),
                private_key: zero_terminated(key),
                server_cert: zero_terminated(server_cert),
            }),
            _ => Err(RmakerMqttError::NodeCredentialsNotFound),
        }
    }

    /// Records the connection object that the caller created. Refused, with
    /// nothing changed, when one already exists or when the client could not
    /// be created.
    pub fn connect(&mut self, client_created: bool) -> (r: Result<(), RmakerMqttError>)
        requires
            old(self).wf(),
        ensures
            final(self).wf(),
            old(self)@.initialized ==> r == Err::<(), RmakerMqttError>(RmakerMqttError::AlreadyInitialized),
            !old(self)@.initialized && !client_created
                ==> r == Err::<(), RmakerMqttError>(RmakerMqttError::OtherError),
            r is Err ==> final(self)@ == old(self)@,
            r is Ok <==> !old(self)@.initialized && client_created,
            r is Ok ==> final(self)@ == (MqttState {
                initialized: true,
                status: ConnectionStatus::Connecting,
                ..old(self)@
            }),
    {
        if self.initialized {
            return Err(RmakerMqttError::AlreadyInitialized);
        }
        if !client_created {
            return Err(RmakerMqttError::OtherError);
        }
        self.initialized = true;
        self.status = ConnectionStatus::Connecting;
        Ok(())
    }

    /// Publishes `payload` on `topic`: at once while connected, else into the
    /// outbound queue, where it replaces any payload queued for that topic.
    pub fn publish(&mut self, topic: &str, payload: Vec<u8>) -> (r: Result<PublishAction, RmakerMqttError>)
        requires
            old(self).wf(),
        ensures
            final(self).wf(),
            final(self)@ == old(self)@.after_publish(topic@, payload@),
            !old(self)@.initialized ==> (r matches Err(e) && e == RmakerMqttError::NotInitialized),
            old(self)@.initialized && old(self)@.connected() ==> (r matches Ok(PublishAction::SendNow(t, p))
                && t@ == topic@ && p@ == payload@),
            old(self)@.initialized && !old(self)@.connected() ==> r matches Ok(PublishAction::Queued),
    {
        if !self.initialized {
            return Err(RmakerMqttError::NotInitialized);
        }
        if self.status == ConnectionStatus::Connected {
            return Ok(PublishAction::SendNow(topic.to_owned(), payload));
        }
        let ghost pre = self@;
        let ghost p = payload@;
        self.publish_queue.insert(topic.to_owned(), payload);
        assert(self@.queue =~= pre.queue.insert(topic@, p));
        Ok(PublishAction::Queued)
    }

    /// Records `cb` as the callback of `topic`, replacing any earlier one;
    /// while connected the caller also subscribes at the broker at once,
    /// else the subscribe waits for the next connection. If that live
    /// subscribe fails, the record stays, so that the next connection retries
    /// it.
    pub fn subscribe(&mut self, topic: &str, cb: H) -> (r: Result<SubscribeAction, RmakerMqttError>)
        requires
            old(self).wf(),
        ensures
            final(self).wf(),
            final(self)@ == old(self)@.after_subscribe(topic@, cb),
            !old(self)@.initialized ==> (r matches Err(e) && e == RmakerMqttError::NotInitialized),
            old(self)@.initialized && old(self)@.connected()
                ==> (r matches Ok(SubscribeAction::SubscribeNow(t)) && t@ == topic@),
            old(self)@.initialized && !old(self)@.connected() ==> r matches Ok(SubscribeAction::Deferred),
    {
        if !self.initialized {
            return Err(RmakerMqttError::NotInitialized);
        }
        self.topic_cbs.insert(topic.to_owned(), cb);
        if self.status == ConnectionStatus::Connected {
            Ok(SubscribeAction::SubscribeNow(topic.to_owned()))
        } else {
            Ok(SubscribeAction::Deferred)
        }
    }

    /// The callback registered for `topic`, if any.
    pub fn callback_for(&self, topic: &str) -> (r: Option<&H>)
        requires
            self.wf(),
        ensures
            r is None <==> !self@.registry.contains_key(topic@),
            r matches Some(cb) ==> *cb == self@.registry[topic@],
    {
        self.topic_cbs.get(topic)
    }

    /// Marks the queued payload of `topic` as delivered: it leaves the queue.
    pub fn mark_published(&mut self, topic: &str)
        requires
            old(self).wf(),
        ensures
            final(self).wf(),
            final(self)@ == old(self)@.after_delivered(topic@),
    {
        let ghost pre = self@;
        self.publish_queue.remove(topic);
        assert(self@.queue =~= pre.queue.remove(topic@));
    }

    fn replay_plan(&self) -> (plan: ReplayPlan)
        requires
            self.wf(),
        ensures
            replay_matches(self@, plan),
    {
        let mut subscribe: Vec<String> = Vec::new();
        let mut i: usize = 0;
        while i < self.topic_cbs.len()
            invariant
                self.wf(),
                i <= self.topic_cbs.entries@.len(),
                subscribe@.len() == i,
                forall|j: int| 0 <= j < i ==> #[trigger] subscribe@[j]@ == self.topic_cbs.key_at(j),
            decreases self.topic_cbs.entries@.len() - i,
        {
            subscribe.push(self.topic_cbs.entries[i].0.clone());
            i = i + 1;
        }
        let mut publish: Vec<(String, Vec<u8>)> = Vec::new();
        let mut i: usize = 0;
        while i < self.publish_queue.len()
            invariant
                self.wf(),
                i <= self.publish_queue.entries@.len(),
                publish@.len() == i,
                forall|j: int| 0 <= j < i ==> #[trigger] publish@[j].0@ == self.publish_queue.key_at(j)
                    && publish@[j].1@ == self.publish_queue.entries@[j].1@,
            decreases self.publish_queue.entries@.len() - i,
        {
            let e = &self.publish_queue.entries[i];
            publish.push((e.0.clone(), copy_bytes(&e.1)));
            i = i + 1;
        }
        let plan = ReplayPlan { subscribe, publish };
        proof {
            let s = self@;
            assert forall|t: Seq<char>| s.registry.contains_key(t)
                <==> exists|i: int| 0 <= i < plan.subscribe@.len() && #[trigger] plan.subscribe@[i]@ == t by {
                if s.registry.contains_key(t) {
                    let j = self.topic_cbs.index_of(t);
                    assert(plan.subscribe@[j]@ == t);
                }
                if exists|i: int| 0 <= i < plan.subscribe@.len() && #[trigger] plan.subscribe@[i]@ == t {
                    let i = choose|i: int| 0 <= i < plan.subscribe@.len() && #[trigger] plan.subscribe@[i]@ == t;
                    assert(self.topic_cbs.key_at(i) == t);
                }
            }
            assert forall|t: Seq<char>| s.queue.contains_key(t)
                <==> exists|i: int| 0 <= i < plan.publish@.len() && #[trigger] plan.publish@[i].0@ == t by {
                if s.queue.contains_key(t) {
                    let j = self.publish_queue.index_of(t);
                    assert(plan.publish@[j].0@ == t);
                }
                if exists|i: int| 0 <= i < plan.publish@.len() && #[trigger] plan.publish@[i].0@ == t {
                    let i = choose|i: int| 0 <= i < plan.publish@.len() && #[trigger] plan.publish@[i].0@ == t;
                    assert(self.publish_queue.key_at(i) == t);
                }
            }
            assert forall|i: int| 0 <= i < plan.publish@.len()
                implies #[trigger] s.queue[plan.publish@[i].0@] == plan.publish@[i].1@ by {
                let t = plan.publish@[i].0@;
                assert(self.publish_queue.key_at(i) == t);
                assert(self.publish_queue.has(t));
                let j = self.publish_queue.index_of(t);
                assert(j == i);
            }
        }
        plan
    }

    /// Handles a notification of the client. A connection marks the manager
    /// connected and hands back the replay: every registered topic, then
    /// every queued payload. The loss of the link marks it disconnected and
    /// keeps callbacks and queue. A message is delivered to its topic's
    /// callback, or dropped when the topic has none. Notifications before
    /// initialization change nothing.
    pub fn on_event(&mut self, event: &MqttEvent) -> (r: MqttAction)
        requires
            old(self).wf(),
        ensures
            final(self).wf(),
            !old(self)@.initialized ==> final(self)@ == old(self)@ && r is Ignore,
            old(self)@.initialized ==> match *event {
                MqttEvent::Connected => final(self)@ == old(self)@.after_connected()
                    && (r matches MqttAction::Replay(plan) && replay_matches(old(self)@, plan)),
                MqttEvent::Disconnected => final(self)@ == old(self)@.after_disconnected() && r is Ignore,
                MqttEvent::Received(t) => final(self)@ == old(self)@ && (
                    if old(self)@.registry.contains_key(t@) {
                        (r matches MqttAction::Deliver(d) && d@ == t@)
                    } else {
                        r is Ignore
                    }),
                MqttEvent::Other => final(self)@ == old(self)@ && r is Ignore,
            },
    {
        if !self.initialized {
            return MqttAction::Ignore;
        }
        match event {
            MqttEvent::Connected => {
                let plan = self.replay_plan();
                self.status = ConnectionStatus::Connected;
                MqttAction::Replay(plan)
            },
            MqttEvent::Disconnected => {
                self.status = ConnectionStatus::Disconnected;
                MqttAction::Ignore
            },
            MqttEvent::Received(t) => {
                if self.topic_cbs.contains(t.as_str()) {
                    MqttAction::Deliver(t.clone())
                } else {
                    MqttAction::Ignore
                }
            },
            MqttEvent::Other => MqttAction::Ignore,
        }
    }
}

/// Two publishes on one topic while offline leave exactly one payload of
/// that topic to replay at the next connection: the later one.
pub proof fn law_queue_coalescing<H>(
    s: MqttState<H>,
    topic: Seq<char>,
    first: Seq<u8>,
    second: Seq<u8>,
    plan: ReplayPlan,
)
    requires
        s.initialized,
        !s.connected(),
        replay_matches(s.after_publish(topic, first).after_publish(topic, second), plan),
    ensures
        exists|i: int|
            0 <= i < plan.publish@.len() && #[trigger] plan.publish@[i].0@ == topic
                && plan.publish@[i].1@ == second
                && forall|j: int| 0 <= j < plan.publish@.len() && j != i ==> plan.publish@[j].0@ != topic,
{
    let q = s.after_publish(topic, first).after_publish(topic, second);
    assert(q.queue.contains_key(topic));
    let i = choose|i: int| 0 <= i < plan.publish@.len() && #[trigger] plan.publish@[i].0@ == topic;
    assert(q.queue[topic] == second);
}

/// A subscribe made while offline is sent to the broker exactly once when
/// the next connection comes, and its callback stays registered through
/// every later loss and return of the link and every publish.
pub proof fn law_subscribe_replay<H>(s: MqttState<H>, topic: Seq<char>, cb: H, plan: ReplayPlan)
    requires
        s.initialized,
        !s.connected(),
        replay_matches(s.after_subscribe(topic, cb), plan),
    ensures
        exists|i: int|
            0 <= i < plan.subscribe@.len() && #[trigger] plan.subscribe@[i]@ == topic
                && forall|j: int| 0 <= j < plan.subscribe@.len() && j != i ==> plan.subscribe@[j]@ != topic,
        s.after_subscribe(topic, cb).after_connected().registry.contains_key(topic),
        s.after_subscribe(topic, cb).after_connected().registry[topic] == cb,
        forall|r: MqttState<H>, t: Seq<char>, p: Seq<u8>|
            #![trigger r.after_publish(t, p)]
            r.registry == r.after_connected().registry
            && r.registry == r.after_disconnected().registry
            && r.registry == r.after_publish(t, p).registry
            && r.registry == r.after_delivered(t).registry,
{
    let r = s.after_subscribe(topic, cb);
    assert(r.registry.contains_key(topic));
    let i = choose|i: int| 0 <= i < plan.subscribe@.len() && #[trigger] plan.subscribe@[i]@ == topic;
    assert(plan.subscribe@[i]@ == topic);
}

/// Losing and regaining the link twice in a row replays the subscribe of
/// every registered topic both times, and the registry itself is unchanged.
pub proof fn law_idempotent_reconnect<H>(s: MqttState<H>, first: ReplayPlan, second: ReplayPlan)
    requires
        s.initialized,
        replay_matches(s.after_disconnected(), first),
        replay_matches(s.after_disconnected().after_connected().after_disconnected(), second),
    ensures
        forall|t: Seq<char>| s.registry.contains_key(t)
            <==> exists|i: int| 0 <= i < first.subscribe@.len() && #[trigger] first.subscribe@[i]@ == t,
        forall|t: Seq<char>| s.registry.contains_key(t)
            <==> exists|i: int| 0 <= i < second.subscribe@.len() && #[trigger] second.subscribe@[i]@ == t,
        distinct_strings(first.subscribe@),
        distinct_strings(second.subscribe@),
        s.after_disconnected().after_connected().after_disconnected().after_connected().registry == s.registry,
{
}

} // verus!
