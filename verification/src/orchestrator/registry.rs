//! The orchestrator's shared state and the producer side of its protocol:
//! a worker registers with `Hello`, is answered `Welcome` with a fresh id,
//! emits messages that are numbered, counted, acknowledged and broadcast,
//! and is deregistered when its connection ends.
use vstd::prelude::*;
use vstd::string::*;
use crate::orchestrator::ids::{gen_id, id_text};
use crate::orchestrator::metrics::{utf8_len, Metrics};
use crate::orchestrator::consumer::{
    auth_refused_text, auth_timeout_text, auth_verdict, auth_verdict_spec, auth_welcome_text, AuthReply,
    AuthVerdict,
};
use crate::proto::{OrchestratorMsg, ProducerMsg, ServerMsg, ServiceInfo, ShitMessage, ShitTopic};
use crate::wrapping::{add_wrapping, gauge_dec, gauge_inc, wrap_add};

verus! {

/// Capacity of the broadcast channel to consumers.
pub const BROADCAST_CAP: usize = 512;

/// Seconds a consumer has to answer the authentication challenge.
pub const AUTH_TIMEOUT_SECS: u64 = 10;

/// Seconds a producer has to send `Hello`.
pub const HELLO_TIMEOUT_SECS: u64 = 15;

/// No two entries of a registry share an assigned id.
pub open spec fn ids_unique(s: Seq<ServiceInfo>) -> bool {
    forall|i: int, j: int|
        0 <= i < s.len() && 0 <= j < s.len() && i != j ==> #[trigger] s[i].assigned_id@
            != #[trigger] s[j].assigned_id@
}

/// Whether some entry has the assigned id `id`.
pub open spec fn has_id(s: Seq<ServiceInfo>, id: Seq<char>) -> bool {
    exists|i: int| 0 <= i < s.len() && #[trigger] s[i].assigned_id@ == id
}

/// The registry as a map from assigned id to entry.
pub open spec fn registry_map(s: Seq<ServiceInfo>) -> Map<Seq<char>, ServiceInfo> {
    Map::new(
        |id: Seq<char>| has_id(s, id),
        |id: Seq<char>| s[choose|i: int| 0 <= i < s.len() && #[trigger] s[i].assigned_id@ == id],
    )
}

/// The shared state of the orchestrator.
pub struct Orchestrator {
    services: Vec<ServiceInfo>,
    metrics: Metrics,
    auth_token: String,
    next_seq: u64,
}

/// A registered producer connection.
pub struct ProducerSession {
    pub assigned_id: String,
    pub service_id: String,
    pub topic: ShitTopic,
}

/// What the orchestrator does after a message from a registered producer.
pub enum ProducerStep {
    /// Nothing to do; wait for the next message.
    Continue,
    /// The producer said goodbye; deregister it.
    Stop,
    /// Acknowledge with `ack` and broadcast `message`.
    Emitted { ack: OrchestratorMsg, message: ShitMessage },
}

/// The entry registered for a producer that said `Hello`.
pub open spec fn hello_entry(
    assigned_id: String,
    service_id: String,
    topic: ShitTopic,
    version: String,
    interval_ms: u64,
    description: String,
    now_ms: u64,
) -> ServiceInfo {
    ServiceInfo {
        assigned_id,
        service_id,
        topic,
        version,
        interval_ms,
        description,
        connected_at_ms: now_ms,
        messages_sent: 0,
    }
}

/// The message that a producer's `Emit` becomes.
pub open spec fn emitted(
    m: ShitMessage,
    seq: u64,
    session: ProducerSession,
    payload: String,
    priority: crate::proto::Priority,
    tags: Seq<String>,
    now_ms: u64,
) -> bool {
    &&& m.seq == seq
    &&& m.topic == session.topic
    &&& m.payload == payload
    &&& m.priority == priority
    &&& m.tags@ == tags
    &&& m.producer_id == session.assigned_id
    &&& m.service_id == session.service_id
    &&& m.ts_ms == now_ms
}

/// The registry after the producer registered under `id` sent `msg`: an
/// `Emit` counts one more message on its entry, if it has one; no other
/// message changes the registry.
pub open spec fn registry_after_msg(
    reg: Map<Seq<char>, ServiceInfo>,
    id: Seq<char>,
    msg: ProducerMsg,
) -> Map<Seq<char>, ServiceInfo> {
    match msg {
        ProducerMsg::Emit { .. } => if reg.contains_key(id) {
            reg.insert(id, ServiceInfo { messages_sent: (reg[id].messages_sent + 1) as u64, ..reg[id] })
        } else {
            reg
        },
        _ => reg,
    }
}

/// The registry after the producer registered under `id` sent `msgs`, in order.
pub open spec fn registry_after_msgs(
    reg: Map<Seq<char>, ServiceInfo>,
    id: Seq<char>,
    msgs: Seq<ProducerMsg>,
) -> Map<Seq<char>, ServiceInfo>
    decreases msgs.len(),
{
    if msgs.len() == 0 {
        reg
    } else {
        registry_after_msg(registry_after_msgs(reg, id, msgs.drop_last()), id, msgs.last())
    }
}

/// The counters after a producer of `topic` sent `msg`: an `Emit` is counted
/// with its payload's bytes; no other message changes a counter.
pub open spec fn counters_after_msg(m: Metrics, topic: ShitTopic, msg: ProducerMsg) -> Metrics {
    match msg {
        ProducerMsg::Emit { payload, .. } => m.counted(topic, utf8_len(payload@)),
        _ => m,
    }
}

/// The counters after a producer of `topic` sent `msgs`, in order.
pub open spec fn counters_after_msgs(m: Metrics, topic: ShitTopic, msgs: Seq<ProducerMsg>) -> Metrics
    decreases msgs.len(),
{
    if msgs.len() == 0 {
        m
    } else {
        counters_after_msg(counters_after_msgs(m, topic, msgs.drop_last()), topic, msgs.last())
    }
}

proof fn lemma_map_of_unique(s: Seq<ServiceInfo>, i: int)
    requires
        ids_unique(s),
        0 <= i < s.len(),
    ensures
        registry_map(s).contains_key(s[i].assigned_id@),
        registry_map(s)[s[i].assigned_id@] == s[i],
{
    let id = s[i].assigned_id@;
    assert(has_id(s, id));
    let j = choose|j: int| 0 <= j < s.len() && #[trigger] s[j].assigned_id@ == id;
    assert(j == i);
}

proof fn lemma_map_push(s: Seq<ServiceInfo>, e: ServiceInfo)
    requires
        ids_unique(s),
        !has_id(s, e.assigned_id@),
    ensures
        ids_unique(s.push(e)),
        registry_map(s.push(e)) == registry_map(s).insert(e.assigned_id@, e),
{
    let t = s.push(e);
    assert(ids_unique(t)) by {
        assert forall|i: int, j: int|
            0 <= i < t.len() && 0 <= j < t.len() && i != j implies #[trigger] t[i].assigned_id@
            != #[trigger] t[j].assigned_id@ by {
            if i < s.len() && j < s.len() {
                assert(t[i] == s[i] && t[j] == s[j]);
            } else if i < s.len() {
                assert(t[i] == s[i]);
            } else {
                assert(t[j] == s[j]);
            }
        }
    }
    let m1 = registry_map(t);
    let m2 = registry_map(s).insert(e.assigned_id@, e);
    assert forall|id: Seq<char>| m1.contains_key(id) == m2.contains_key(id) by {
        if has_id(t, id) {
            let i = choose|i: int| 0 <= i < t.len() && #[trigger] t[i].assigned_id@ == id;
            if i < s.len() {
                assert(s[i].assigned_id@ == id);
            }
        }
        if has_id(s, id) {
            let i = choose|i: int| 0 <= i < s.len() && #[trigger] s[i].assigned_id@ == id;
            assert(t[i].assigned_id@ == id);
        }
        if id == e.assigned_id@ {
            assert(t[s.len() as int].assigned_id@ == id);
        }
    }
    assert forall|id: Seq<char>| #[trigger] m1.contains_key(id) implies m1[id] == m2[id] by {
        let i = choose|i: int| 0 <= i < t.len() && #[trigger] t[i].assigned_id@ == id;
        lemma_map_of_unique(t, i);
        if i < s.len() {
            assert(t[i] == s[i]);
            lemma_map_of_unique(s, i);
        }
    }
    assert(m1 =~= m2);
}

proof fn lemma_map_update(s: Seq<ServiceInfo>, k: int, e: ServiceInfo)
    requires
        ids_unique(s),
        0 <= k < s.len(),
        e.assigned_id@ == s[k].assigned_id@,
    ensures
        ids_unique(s.update(k, e)),
        registry_map(s.update(k, e)) == registry_map(s).insert(e.assigned_id@, e),
{
    let t = s.update(k, e);
    assert(ids_unique(t)) by {
        assert forall|i: int, j: int|
            0 <= i < t.len() && 0 <= j < t.len() && i != j implies #[trigger] t[i].assigned_id@
            != #[trigger] t[j].assigned_id@ by {
            assert(t[i].assigned_id@ == s[i].assigned_id@);
            assert(t[j].assigned_id@ == s[j].assigned_id@);
        }
    }
    let m1 = registry_map(t);
    let m2 = registry_map(s).insert(e.assigned_id@, e);
    assert forall|id: Seq<char>| m1.contains_key(id) == m2.contains_key(id) by {
        if has_id(t, id) {
            let i = choose|i: int| 0 <= i < t.len() && #[trigger] t[i].assigned_id@ == id;
            assert(s[i].assigned_id@ == id);
        }
        if has_id(s, id) {
            let i = choose|i: int| 0 <= i < s.len() && #[trigger] s[i].assigned_id@ == id;
            assert(t[i].assigned_id@ == id);
        }
    }
    assert forall|id: Seq<char>| #[trigger] m1.contains_key(id) implies m1[id] == m2[id] by {
        let i = choose|i: int| 0 <= i < t.len() && #[trigger] t[i].assigned_id@ == id;
        lemma_map_of_unique(t, i);
        if i != k {
            assert(t[i] == s[i]);
            lemma_map_of_unique(s, i);
        }
    }
    assert(m1 =~= m2);
}

proof fn lemma_map_remove(s: Seq<ServiceInfo>, k: int)
    requires
        ids_unique(s),
        0 <= k < s.len(),
    ensures
        ids_unique(s.remove(k)),
        registry_map(s.remove(k)) == registry_map(s).remove(s[k].assigned_id@),
{
    let t = s.remove(k);
    let gone = s[k].assigned_id@;
    assert forall|i: int| 0 <= i < t.len() implies #[trigger] t[i] == (if i < k { s[i] } else { s[i + 1] }) by {}
    assert(ids_unique(t)) by {
        assert forall|i: int, j: int|
            0 <= i < t.len() && 0 <= j < t.len() && i != j implies #[trigger] t[i].assigned_id@
            != #[trigger] t[j].assigned_id@ by {
            let a = if i < k { i } else { i + 1 };
            let b = if j < k { j } else { j + 1 };
            assert(t[i] == s[a] && t[j] == s[b]);
        }
    }
    let m1 = registry_map(t);
    let m2 = registry_map(s).remove(gone);
    assert forall|id: Seq<char>| m1.contains_key(id) == m2.contains_key(id) by {
        if has_id(t, id) {
            let i = choose|i: int| 0 <= i < t.len() && #[trigger] t[i].assigned_id@ == id;
            let a = if i < k { i } else { i + 1 };
            assert(s[a].assigned_id@ == id);
            assert(a != k);
        }
        if has_id(s, id) && id != gone {
            let i = choose|i: int| 0 <= i < s.len() && #[trigger] s[i].assigned_id@ == id;
            assert(i != k);
            let b = if i < k { i } else { i - 1 };
            assert(t[b].assigned_id@ == id);
        }
    }
    assert forall|id: Seq<char>| #[trigger] m1.contains_key(id) implies m1[id] == m2[id] by {
        let i = choose|i: int| 0 <= i < t.len() && #[trigger] t[i].assigned_id@ == id;
        lemma_map_of_unique(t, i);
        let a = if i < k { i } else { i + 1 };
        assert(t[i] == s[a]);
        lemma_map_of_unique(s, a);
    }
    assert(m1 =~= m2);
}

impl Orchestrator {
    /// The registered producers, in registration order.
    pub closed spec fn entries(&self) -> Seq<ServiceInfo> {
        self.services@
    }

    /// The counters.
    pub closed spec fn counters(&self) -> Metrics {
        self.metrics
    }

    /// The token that consumers must present.
    pub closed spec fn token(&self) -> String {
        self.auth_token
    }

    /// The counters.
    pub fn metrics(&self) -> (r: &Metrics)
        ensures
            *r == self.counters(),
    {
        &self.metrics
    }

    /// The registry as a map from assigned id to entry.
    pub open spec fn registry(&self) -> Map<Seq<char>, ServiceInfo> {
        registry_map(self.entries())
    }

    /// The sequence number that the next emitted message gets.
    pub closed spec fn seq(&self) -> u64 {
        self.next_seq
    }

    /// The registry holds each assigned id once.
    #[verifier::type_invariant]
    closed spec fn ids_are_unique(self) -> bool {
        ids_unique(self.services@)
    }

    /// A fresh orchestrator: no producers, all counters at zero, sequence
    /// numbers starting at 1.
    pub fn new(auth_token: String) -> (r: Orchestrator)
        ensures
            r.entries() == Seq::<ServiceInfo>::empty(),
            r.registry() == Map::<Seq<char>, ServiceInfo>::empty(),
            r.counters() == Metrics::zero(),
            r.token() == auth_token,
            r.seq() == 1,
    {
        let r = Orchestrator { services: Vec::new(), metrics: Metrics::new(), auth_token, next_seq: 1 };
        assert(r.registry() =~= Map::<Seq<char>, ServiceInfo>::empty());
        r
    }

    /// Moves the entries out, leaving the registry empty.
    fn take_services(&mut self) -> (r: Vec<ServiceInfo>)
        ensures
            r@ == old(self).services@,
            final(self).services@ == Seq::<ServiceInfo>::empty(),
            final(self).metrics == old(self).metrics,
            final(self).auth_token == old(self).auth_token,
            final(self).next_seq == old(self).next_seq,
    {
        let mut services: Vec<ServiceInfo> = Vec::new();
        std::mem::swap(&mut services, &mut self.services);
        services
    }

    fn find(&self, id: &String) -> (r: Option<usize>)
        ensures
            match r {
                Some(i) => i < self.services@.len() && self.services@[i as int].assigned_id@ == id@,
                None => !has_id(self.services@, id@),
            },
    {
        let mut i: usize = 0;
        while i < self.services.len()
            invariant
                i <= self.services@.len(),
                forall|j: int| 0 <= j < i ==> #[trigger] self.services@[j].assigned_id@ != id@,
            decreases self.services.len() - i,
        {
            if self.services[i].assigned_id == *id {
                return Some(i);
            }
            i += 1;
        }
        None
    }

    /// A copy of the registered entries, for `ServiceList` and the HTTP listing.
    pub fn services(&self) -> (r: Vec<ServiceInfo>)
        ensures
            r@ == self.entries(),
    {
        let mut r: Vec<ServiceInfo> = Vec::new();
        for i in 0..self.services.len()
            invariant
                r@ == self.services@.take(i as int),
        {
            r.push(self.services[i].clone());
            assert(self.services@.take(i + 1) == self.services@.take(i as int).push(self.services@[i as int]));
        }
        assert(self.services@.take(self.services@.len() as int) == self.services@);
        r
    }

    /// Registers (or replaces) the entry of `info.assigned_id`.
    fn insert_service(&mut self, info: ServiceInfo)
        ensures
            final(self).registry() == old(self).registry().insert(info.assigned_id@, info),
            final(self).counters() == old(self).counters(),
            final(self).token() == old(self).token(),
            final(self).seq() == old(self).seq(),
    {
        proof {
            use_type_invariant(&*self);
        }
        match self.find(&info.assigned_id) {
            Some(i) => {
                proof {
                    lemma_map_update(self.services@, i as int, info);
                }
                let mut services = self.take_services();
                services.set(i, info);
                self.services = services;
            },
            None => {
                proof {
                    lemma_map_push(self.services@, info);
                }
                let mut services = self.take_services();
                services.push(info);
                self.services = services;
            },
        }
    }

    /// Registers a producer that said `Hello` under `assigned_id` and builds
    /// the `Welcome` reply.
    pub fn register_producer(
        &mut self,
        assigned_id: String,
        service_id: String,
        topic: ShitTopic,
        version: String,
        interval_ms: u64,
        description: String,
        now_ms: u64,
    ) -> (r: (ProducerSession, OrchestratorMsg))
        ensures
            final(self).registry() == old(self).registry().insert(
                assigned_id@,
                hello_entry(assigned_id, service_id, topic, version, interval_ms, description, now_ms),
            ),
            final(self).counters() == old(self).counters(),
            final(self).token() == old(self).token(),
            final(self).seq() == old(self).seq(),
            r.0.assigned_id == assigned_id,
            r.0.service_id == service_id,
            r.0.topic == topic,
            r.1 == (OrchestratorMsg::Welcome { assigned_id }),
    {
        let info = ServiceInfo {
            assigned_id: assigned_id.clone(),
            service_id: service_id.clone(),
            topic,
            version,
            interval_ms,
            description,
            connected_at_ms: now_ms,
            messages_sent: 0,
        };
        self.insert_service(info);
        let session = ProducerSession { assigned_id: assigned_id.clone(), service_id, topic };
        (session, OrchestratorMsg::Welcome { assigned_id })
    }

    /// Handles the first message of a producer connection (`None` when it did
    /// not come in time, was not text, or was not valid JSON). Only `Hello`
    /// registers the producer, under a fresh random id; anything else is
    /// rejected and the connection is no longer counted.
    pub fn open_producer(&mut self, first: Option<ProducerMsg>, now_ms: u64) -> (r: Result<
        (ProducerSession, OrchestratorMsg),
        OrchestratorMsg,
    >)
        ensures
            final(self).token() == old(self).token(),
            final(self).seq() == old(self).seq(),
            match first {
                Some(ProducerMsg::Hello { service_id, topic, version, interval_ms, description }) => {
                    r matches Ok((session, welcome)) && {
                        &&& exists|n: u32| session.assigned_id@ == #[trigger] id_text(n as nat)
                        &&& welcome == (OrchestratorMsg::Welcome { assigned_id: session.assigned_id })
                        &&& session.service_id == service_id
                        &&& session.topic == topic
                        &&& final(self).registry() == old(self).registry().insert(
                            session.assigned_id@,
                            hello_entry(session.assigned_id, service_id, topic, version, interval_ms, description, now_ms),
                        )
                        &&& final(self).counters() == old(self).counters()
                    }
                },
                _ => {
                    &&& r matches Err(OrchestratorMsg::Reject { reason })
                        && reason@ == "first message must be Hello"@
                    &&& final(self).registry() == old(self).registry()
                    &&& final(self).counters() == (Metrics {
                        connected_producers: gauge_dec(old(self).counters().connected_producers),
                        ..old(self).counters()
                    })
                },
            },
    {
        proof {
            use_type_invariant(&*self);
        }
        match first {
            Some(ProducerMsg::Hello { service_id, topic, version, interval_ms, description }) => {
                let assigned_id = gen_id();
                Ok(self.register_producer(assigned_id, service_id, topic, version, interval_ms, description, now_ms))
            },
            _ => {
                let mut metrics = self.metrics;
                metrics.producer_disconnected();
                self.metrics = metrics;
                Err(OrchestratorMsg::Reject { reason: String::from_str("first message must be Hello") })
            },
        }
    }

    /// Whether the entry of `id`, if any, can count one more message.
    pub open spec fn can_count(&self, id: Seq<char>) -> bool {
        self.registry().contains_key(id) ==> self.registry()[id].messages_sent < u64::MAX
    }

    /// Exec form of `can_count`.
    pub fn counts_one_more(&self, id: &String) -> (r: bool)
        ensures
            r == self.can_count(id@),
    {
        proof {
            use_type_invariant(self);
        }
        match self.find(id) {
            Some(i) => {
                proof {
                    lemma_map_of_unique(self.services@, i as int);
                }
                self.services[i].messages_sent < u64::MAX
            },
            None => true,
        }
    }

    /// One more message sent by the producer registered under `id`, if it is
    /// registered.
    fn count_sent(&mut self, id: &String)
        requires
            old(self).can_count(id@),
        ensures
            final(self).registry() == (if old(self).registry().contains_key(id@) {
                old(self).registry().insert(
                    id@,
                    ServiceInfo {
                        messages_sent: (old(self).registry()[id@].messages_sent + 1) as u64,
                        ..old(self).registry()[id@]
                    },
                )
            } else {
                old(self).registry()
            }),
            final(self).counters() == old(self).counters(),
            final(self).token() == old(self).token(),
            final(self).seq() == old(self).seq(),
    {
        proof {
            use_type_invariant(&*self);
        }
        match self.find(id) {
            Some(i) => {
                proof {
                    lemma_map_of_unique(self.services@, i as int);
                }
                let old_info = &self.services[i];
                let info = ServiceInfo {
                    assigned_id: old_info.assigned_id.clone(),
                    service_id: old_info.service_id.clone(),
                    topic: old_info.topic,
                    version: old_info.version.clone(),
                    interval_ms: old_info.interval_ms,
                    description: old_info.description.clone(),
                    connected_at_ms: old_info.connected_at_ms,
                    messages_sent: old_info.messages_sent + 1,
                };
                proof {
                    lemma_map_update(self.services@, i as int, info);
                }
                let mut services = self.take_services();
                services.set(i, info);
                self.services = services;
            },
            None => {
                proof {
                    assert(!self.registry().contains_key(id@));
                }
            },
        }
    }

    /// Handles a message from a registered producer: `Emit` is numbered with
    /// the next sequence number, counted, acknowledged and broadcast, and the
    /// producer's sent counter goes up by one; `Bye` ends the connection; a
    /// second `Hello` is ignored.
    pub fn on_producer_msg(&mut self, session: &ProducerSession, msg: ProducerMsg, now_ms: u64) -> (r: ProducerStep)
        requires
            old(self).can_count(session.assigned_id@),
        ensures
            final(self).token() == old(self).token(),
            final(self).registry() == registry_after_msg(old(self).registry(), session.assigned_id@, msg),
            final(self).counters() == counters_after_msg(old(self).counters(), session.topic, msg),
            match msg {
                ProducerMsg::Emit { payload, priority, tags } => {
                    &&& r matches ProducerStep::Emitted { ack, message } && {
                        &&& ack == (OrchestratorMsg::Ack { seq: old(self).seq() })
                        &&& emitted(message, old(self).seq(), *session, payload, priority, tags@, now_ms)
                    }
                    &&& final(self).seq() == wrap_add(old(self).seq(), 1)
                },
                ProducerMsg::Bye => {
                    &&& r is Stop
                    &&& final(self).seq() == old(self).seq()
                },
                ProducerMsg::Hello { .. } => {
                    &&& r is Continue
                    &&& final(self).seq() == old(self).seq()
                },
            },
    {
        proof {
            use_type_invariant(&*self);
        }
        match msg {
            ProducerMsg::Emit { payload, priority, tags } => {
                let seq = self.next_seq;
                self.next_seq = add_wrapping(seq, 1);
                let message = ShitMessage {
                    seq,
                    topic: session.topic,
                    payload,
                    priority,
                    tags,
                    producer_id: session.assigned_id.clone(),
                    service_id: session.service_id.clone(),
                    ts_ms: now_ms,
                };
                let mut metrics = self.metrics;
                metrics.inc_msg(&message);
                self.metrics = metrics;
                self.count_sent(&session.assigned_id);
                ProducerStep::Emitted { ack: OrchestratorMsg::Ack { seq }, message }
            },
            ProducerMsg::Bye => ProducerStep::Stop,
            ProducerMsg::Hello { .. } => ProducerStep::Continue,
        }
    }

    /// Deregisters a producer whose connection ended.
    pub fn close_producer(&mut self, session: &ProducerSession)
        ensures
            final(self).registry() == old(self).registry().remove(session.assigned_id@),
            final(self).counters() == (Metrics {
                connected_producers: gauge_dec(old(self).counters().connected_producers),
                ..old(self).counters()
            }),
            final(self).token() == old(self).token(),
            final(self).seq() == old(self).seq(),
    {
        proof {
            use_type_invariant(&*self);
        }
        match self.find(&session.assigned_id) {
            Some(i) => {
                proof {
                    lemma_map_remove(self.services@, i as int);
                }
                let mut services = self.take_services();
                services.remove(i);
                self.services = services;
            },
            None => {
                assert(self.registry().remove(session.assigned_id@) =~= self.registry());
            },
        }
        let mut metrics = self.metrics;
        metrics.producer_disconnected();
        self.metrics = metrics;
    }

    /// A producer connection opened (before its `Hello` arrived).
    pub fn producer_connected(&mut self)
        ensures
            final(self).counters() == (Metrics {
                connected_producers: gauge_inc(old(self).counters().connected_producers),
                ..old(self).counters()
            }),
            final(self).entries() == old(self).entries(),
            final(self).token() == old(self).token(),
            final(self).seq() == old(self).seq(),
    {
        proof {
            use_type_invariant(&*self);
        }
        let mut metrics = self.metrics;
        metrics.producer_connected();
        self.metrics = metrics;
    }

    /// A consumer connection opened.
    pub fn consumer_connected(&mut self)
        ensures
            final(self).counters() == (Metrics {
                connected_consumers: gauge_inc(old(self).counters().connected_consumers),
                ..old(self).counters()
            }),
            final(self).entries() == old(self).entries(),
            final(self).token() == old(self).token(),
            final(self).seq() == old(self).seq(),
    {
        proof {
            use_type_invariant(&*self);
        }
        let mut metrics = self.metrics;
        metrics.consumer_connected();
        self.metrics = metrics;
    }

    /// A consumer connection closed.
    pub fn consumer_disconnected(&mut self)
        ensures
            final(self).counters() == (Metrics {
                connected_consumers: gauge_dec(old(self).counters().connected_consumers),
                ..old(self).counters()
            }),
            final(self).entries() == old(self).entries(),
            final(self).token() == old(self).token(),
            final(self).seq() == old(self).seq(),
    {
        proof {
            use_type_invariant(&*self);
        }
        let mut metrics = self.metrics;
        metrics.consumer_disconnected();
        self.metrics = metrics;
    }

    /// Grants a session with id `session_id` to a consumer whose token matched.
    pub fn authorize(&mut self, session_id: String) -> (r: ServerMsg)
        ensures
            r matches ServerMsg::Authorized { puk, session_id: sid } && puk@ == auth_welcome_text()
                && sid == session_id,
            final(self).counters() == (Metrics {
                auth_success: wrap_add(old(self).counters().auth_success, 1),
                ..old(self).counters()
            }),
            final(self).entries() == old(self).entries(),
            final(self).token() == old(self).token(),
            final(self).seq() == old(self).seq(),
    {
        proof {
            use_type_invariant(&*self);
        }
        let mut metrics = self.metrics;
        metrics.auth_succeeded();
        self.metrics = metrics;
        ServerMsg::Authorized {
            puk: String::from_str("💨 ПУУК! Добро пожаловать в говно-систему."),
            session_id,
        }
    }

    /// Finishes the authentication gate of a consumer connection. A matching
    /// `Auth` opens a session under a fresh random id; anything else is
    /// answered `Unauthorized` and counted as a failure.
    pub fn authenticate(&mut self, reply: AuthReply) -> (r: (ServerMsg, Option<String>))
        ensures
            final(self).entries() == old(self).entries(),
            final(self).token() == old(self).token(),
            final(self).seq() == old(self).seq(),
            match auth_verdict_spec(reply, old(self).token()@) {
                AuthVerdict::Accepted => {
                    &&& r.0 matches ServerMsg::Authorized { puk, session_id }
                        && puk@ == auth_welcome_text() && r.1 == Some(session_id)
                        && exists|n: u32| session_id@ == #[trigger] id_text(n as nat)
                    &&& final(self).counters() == (Metrics {
                        auth_success: wrap_add(old(self).counters().auth_success, 1),
                        ..old(self).counters()
                    })
                },
                verdict => {
                    &&& r.0 matches ServerMsg::Unauthorized { msg } && msg@ == (if verdict
                        == AuthVerdict::TimedOut {
                        auth_timeout_text()
                    } else {
                        auth_refused_text()
                    })
                    &&& r.1 is None
                    &&& final(self).counters() == (Metrics {
                        auth_failures: wrap_add(old(self).counters().auth_failures, 1),
                        ..old(self).counters()
                    })
                },
            },
    {
        proof {
            use_type_invariant(&*self);
        }
        match auth_verdict(&reply, &self.auth_token) {
            AuthVerdict::Accepted => {
                let sid = gen_id();
                let msg = self.authorize(sid.clone());
                (msg, Some(sid))
            },
            AuthVerdict::TimedOut => {
                let mut metrics = self.metrics;
                metrics.auth_failed();
                self.metrics = metrics;
                (ServerMsg::Unauthorized { msg: String::from_str("💨 ПУУК! Таймаут — пошёл отсюда.") }, None)
            },
            AuthVerdict::Refused => {
                let mut metrics = self.metrics;
                metrics.auth_failed();
                self.metrics = metrics;
                (ServerMsg::Unauthorized { msg: String::from_str("💨 ПУУК! Неверный токен. Иди отсюда.") }, None)
            },
        }
    }
}

} // verus!
