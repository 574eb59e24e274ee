//! Shared protocol types of every part of the system.
//!
//! Workers talk to the orchestrator with `ProducerMsg` / `OrchestratorMsg`,
//! consumers with `ClientCmd` / `ServerMsg`.
use vstd::prelude::*;

verus! {

/// A topic of the stream.
#[derive(Debug, Clone, Copy, PartialEq, Eq, Structural)]
pub enum ShitTopic {
    Liquid,
    Solid,
    Gas,
    Critical,
}

/// Human-readable (Russian) name of a topic.
pub open spec fn topic_label(t: ShitTopic) -> Seq<char> {
    match t {
        ShitTopic::Liquid => "жидкое"@,
        ShitTopic::Solid => "твёрдое"@,
        ShitTopic::Gas => "газообразное"@,
        ShitTopic::Critical => "критическое"@,
    }
}

/// Emoji of a topic.
pub open spec fn topic_emoji(t: ShitTopic) -> Seq<char> {
    match t {
        ShitTopic::Liquid => "💧"@,
        ShitTopic::Solid => "🧱"@,
        ShitTopic::Gas => "💨"@,
        ShitTopic::Critical => "🚨"@,
    }
}

impl ShitTopic {
    pub fn label(&self) -> (r: &'static str)
        ensures
            r@ == topic_label(*self),
    {
        match self {
            ShitTopic::Liquid => "жидкое",
            ShitTopic::Solid => "твёрдое",
            ShitTopic::Gas => "газообразное",
            ShitTopic::Critical => "критическое",
        }
    }

    pub fn emoji(&self) -> (r: &'static str)
        ensures
            r@ == topic_emoji(*self),
    {
        match self {
            ShitTopic::Liquid => "💧",
            ShitTopic::Solid => "🧱",
            ShitTopic::Gas => "💨",
            ShitTopic::Critical => "🚨",
        }
    }
}


/// Priority of a message; critical ones reach consumers with no subscriptions.
#[derive(Debug, Clone, Copy, PartialEq, Eq, Structural)]
pub enum Priority {
    Normal,
    Critical,
}

/// Worker → orchestrator. The first message must be `Hello`; then any number
/// of `Emit`, then optionally `Bye`.
#[derive(Debug, PartialEq, Eq)]
pub enum ProducerMsg {
    /// Sent once after the connection opens; registers the service.
    Hello {
        service_id: String,
        topic: ShitTopic,
        version: String,
        interval_ms: u64,
        description: String,
    },
    /// A unit of content to broadcast.
    Emit { payload: String, priority: Priority, tags: Vec<String> },
    /// Graceful shutdown.
    Bye,
}

/// Orchestrator → worker.
#[derive(Debug, PartialEq, Eq)]
pub enum OrchestratorMsg {
    Welcome { assigned_id: String },
    Reject { reason: String },
    Ack { seq: u64 },
}

/// The fully annotated message that the orchestrator broadcasts to consumers.
#[derive(Debug, PartialEq, Eq)]
pub struct ShitMessage {
    pub seq: u64,
    pub topic: ShitTopic,
    pub payload: String,
    pub priority: Priority,
    pub tags: Vec<String>,
    pub producer_id: String,
    pub service_id: String,
    pub ts_ms: u64,
}

/// Consumer → orchestrator commands.
#[derive(Debug, PartialEq, Eq)]
pub enum ClientCmd {
    Auth { token: String },
    Subscribe { topic: ShitTopic },
    Unsubscribe { topic: ShitTopic },
    UnsubscribeAll,
    Echo { text: String },
    Ping,
}

/// Orchestrator → consumer messages.
#[derive(Debug, PartialEq, Eq)]
pub enum ServerMsg {
    AuthRequired { msg: String },
    Authorized { puk: String, session_id: String },
    Unauthorized { msg: String },
    Welcome { msg: String },
    Subscribed { topic: String },
    Unsubscribed { topic: String },
    UnsubscribedAll,
    Shit(ShitMessage),
    ServiceList { services: Vec<ServiceInfo> },
    Echo { payload: String },
    Pong,
    Error { msg: String },
}

/// An entry of the registry of connected producers.
#[derive(Debug, PartialEq, Eq)]
pub struct ServiceInfo {
    pub assigned_id: String,
    pub service_id: String,
    pub topic: ShitTopic,
    pub version: String,
    pub interval_ms: u64,
    pub description: String,
    pub connected_at_ms: u64,
    pub messages_sent: u64,
}

/// A copy of a list of strings.
pub fn clone_strings(v: &Vec<String>) -> (r: Vec<String>)
    ensures
        r@ == v@,
{
    let mut r: Vec<String> = Vec::new();
    for i in 0..v.len()
        invariant
            r@ == v@.take(i as int),
    {
        r.push(v[i].clone());
        assert(v@.take(i + 1) == v@.take(i as int).push(v@[i as int]));
    }
    assert(v@.take(v.len() as int) == v@);
    r
}

impl ShitMessage {
    /// Field-wise equality, the tags compared by their contents.
    pub open spec fn same_as(self, other: ShitMessage) -> bool {
        &&& self.seq == other.seq
        &&& self.topic == other.topic
        &&& self.payload == other.payload
        &&& self.priority == other.priority
        &&& self.tags@ == other.tags@
        &&& self.producer_id == other.producer_id
        &&& self.service_id == other.service_id
        &&& self.ts_ms == other.ts_ms
    }
}

impl Clone for ShitMessage {
    fn clone(&self) -> (r: Self)
        ensures
            r.same_as(*self),
    {
        ShitMessage {
            seq: self.seq,
            topic: self.topic,
            payload: self.payload.clone(),
            priority: self.priority,
            tags: clone_strings(&self.tags),
            producer_id: self.producer_id.clone(),
            service_id: self.service_id.clone(),
            ts_ms: self.ts_ms,
        }
    }
}

impl Clone for ServiceInfo {
    fn clone(&self) -> (r: Self)
        ensures
            r == *self,
    {
        ServiceInfo {
            assigned_id: self.assigned_id.clone(),
            service_id: self.service_id.clone(),
            topic: self.topic,
            version: self.version.clone(),
            interval_ms: self.interval_ms,
            description: self.description.clone(),
            connected_at_ms: self.connected_at_ms,
            messages_sent: self.messages_sent,
        }
    }
}

} // verus!
