//! The client's view of the wire protocol: topics and priorities travel as
//! their lower-case names.
use vstd::prelude::*;
use crate::client::state::HistoryEntry;
use crate::proto::clone_strings;

verus! {

/// Client → server commands.
#[derive(Debug, PartialEq, Eq)]
pub enum ClientCmd {
    Auth { token: String },
    Subscribe { topic: String },
    Unsubscribe { topic: String },
    UnsubscribeAll,
    Echo { text: String },
    Ping,
}

/// Server → client messages.
#[derive(Debug, PartialEq, Eq)]
pub enum ServerMsg {
    AuthRequired { msg: String },
    Authorized { puk: String, session_id: String },
    Unauthorized { msg: String },
    Welcome { msg: String },
    Subscribed { topic: String },
    Unsubscribed { topic: String },
    UnsubscribedAll,
    Shit(ShitPayload),
    ServiceList { services: Vec<ServiceInfo> },
    Echo { payload: String },
    Pong,
    Error { msg: String },
}

/// A broadcast message as the client receives it.
#[derive(Debug, PartialEq, Eq)]
pub struct ShitPayload {
    pub seq: u64,
    pub topic: String,
    pub payload: String,
    pub priority: String,
    pub tags: Vec<String>,
    pub producer_id: String,
    pub service_id: String,
    pub ts_ms: u64,
}

impl ShitPayload {
    /// The history entry that records this message.
    pub fn to_history_entry(&self) -> (r: HistoryEntry)
        ensures
            r.seq == self.seq,
            r.topic == self.topic,
            r.payload == self.payload,
            r.priority == self.priority,
            r.tags@ == self.tags@,
            r.producer_id == self.producer_id,
            r.service_id == self.service_id,
            r.ts_ms == self.ts_ms,
    {
        HistoryEntry {
            seq: self.seq,
            topic: self.topic.clone(),
            payload: self.payload.clone(),
            priority: self.priority.clone(),
            tags: clone_strings(&self.tags),
            producer_id: self.producer_id.clone(),
            service_id: self.service_id.clone(),
            ts_ms: self.ts_ms,
        }
    }
}

/// An entry of the producer registry as the client receives it.
#[derive(Debug, PartialEq, Eq)]
pub struct ServiceInfo {
    pub assigned_id: String,
    pub service_id: String,
    pub topic: String,
    pub version: String,
    pub interval_ms: u64,
    pub description: String,
    pub connected_at_ms: u64,
    pub messages_sent: u64,
}

impl Clone for ServiceInfo {
    fn clone(&self) -> (r: Self)
        ensures
            r == *self,
    {
        ServiceInfo {
            assigned_id: self.assigned_id.clone(),
            service_id: self.service_id.clone(),
            topic: self.topic.clone(),
            version: self.version.clone(),
            interval_ms: self.interval_ms,
            description: self.description.clone(),
            connected_at_ms: self.connected_at_ms,
            messages_sent: self.messages_sent,
        }
    }
}

} // verus!
