//! The producer side: what a worker microservice decides between the
//! network operations that its runner performs.
//!
//! A worker connects to the orchestrator, registers with `Hello`, waits for
//! the reply, then emits one message per interval until the connection ends;
//! after that it waits with exponential backoff and connects again.
use vstd::prelude::*;
use vstd::string::*;
use crate::proto::{topic_emoji, OrchestratorMsg, Priority, ProducerMsg, ShitTopic};
use crate::random::random_below;
use crate::text::{dec_str, push_u64};

verus! {

/// Where a worker connects when `ORCHESTRATOR_URL` is not set.
pub const DEFAULT_ORCHESTRATOR_URL: &'static str = "ws://127.0.0.1:3000/producer";

/// Configuration of a worker microservice.
pub struct WorkerConfig {
    pub service_id: String,
    pub topic: ShitTopic,
    pub version: String,
    pub interval_ms: u64,
    pub description: String,
    pub phrases: &'static [&'static str],
    pub priority: Priority,
    pub tags: &'static [&'static str],
}

/// `2^k`.
pub open spec fn pow2(k: nat) -> nat
    decreases k,
{
    if k == 0 { 1 } else { 2 * pow2((k - 1) as nat) }
}

/// Exponential backoff in seconds: 1, 2, 4, 8, 16, 32, then 60 from the
/// sixth attempt on.
pub open spec fn backoff(attempt: nat) -> nat {
    let e = if attempt < 6 { attempt } else { 6 };
    if pow2(e) < 60 { pow2(e) } else { 60 }
}

/// How long a connection must have lasted, in nanoseconds, for the next
/// reconnect to start over from the first attempt.
pub open spec fn long_lived_nanos() -> int {
    30_000_000_000
}

/// The attempt number after a round that lasted `elapsed_nanos`: it starts
/// over only after a connection that was made and lasted over 30 seconds.
pub open spec fn next_attempt_spec(attempt: nat, connected: bool, elapsed_nanos: nat) -> nat {
    if connected && elapsed_nanos > long_lived_nanos() { 0 } else { attempt + 1 }
}

/// Exponential backoff: 1s, 2s, 4s, 8s, 16s, 32s, 60s (capped).
pub fn backoff_secs(attempt: u32) -> (r: u64)
    ensures
        r == backoff(attempt as nat),
{
    proof {
        reveal_with_fuel(pow2, 7);
    }
    let base: u64 = if attempt == 0 { 1 }
        else if attempt == 1 { 2 }
        else if attempt == 2 { 4 }
        else if attempt == 3 { 8 }
        else if attempt == 4 { 16 }
        else if attempt == 5 { 32 }
        else { 64 };
    if base < 60 { base } else { 60 }
}

/// One round of the reconnect loop after a connection attempt ended:
/// `connected` tells whether the connection was made, `elapsed_nanos` how
/// long the round lasted. Gives the new attempt number and the delay in
/// seconds before the next connection.
pub fn reconnect_step(attempt: u32, connected: bool, elapsed_nanos: u128) -> (r: (u32, u64))
    requires
        (connected && elapsed_nanos > long_lived_nanos()) || attempt < u32::MAX,
    ensures
        r.0 == next_attempt_spec(attempt as nat, connected, elapsed_nanos as nat),
        r.1 == backoff(r.0 as nat),
{
    let next: u32 = if connected && elapsed_nanos > 30_000_000_000 { 0 } else { attempt + 1 };
    (next, backoff_secs(next))
}

/// The phrases of a configuration, as character sequences.
pub open spec fn phrase_at(cfg: WorkerConfig, i: int) -> Seq<char> {
    cfg.phrases@[i]@
}

/// The payload of the `counter`-th emission with phrase `phrase`:
/// `"{emoji} {service_id} #{counter}: {phrase}"`.
pub open spec fn emit_payload_spec(
    topic: ShitTopic,
    service_id: Seq<char>,
    counter: nat,
    phrase: Seq<char>,
) -> Seq<char> {
    topic_emoji(topic) + " "@ + service_id + " #"@ + dec_str(counter) + ": "@ + phrase
}

/// The tags of a configuration, as character sequences.
pub open spec fn tag_views(tags: Seq<&'static str>) -> Seq<Seq<char>> {
    tags.map_values(|t: &'static str| t@)
}

/// The character sequences of a list of strings.
pub open spec fn string_views(v: Seq<String>) -> Seq<Seq<char>> {
    v.map_values(|s: String| s@)
}

impl WorkerConfig {
    /// The registration message sent first on every connection.
    pub fn hello(&self) -> (r: ProducerMsg)
        ensures
            r matches ProducerMsg::Hello { service_id, topic, version, interval_ms, description }
                && service_id == self.service_id && topic == self.topic && version == self.version
                && interval_ms == self.interval_ms && description == self.description,
    {
        ProducerMsg::Hello {
            service_id: self.service_id.clone(),
            topic: self.topic,
            version: self.version.clone(),
            interval_ms: self.interval_ms,
            description: self.description.clone(),
        }
    }

    /// The payload of the `counter`-th emission, with the phrase at `phrase_index`.
    pub fn emit_payload(&self, counter: u64, phrase_index: usize) -> (r: String)
        requires
            phrase_index < self.phrases@.len(),
        ensures
            r@ == emit_payload_spec(
                self.topic,
                self.service_id@,
                counter as nat,
                phrase_at(*self, phrase_index as int),
            ),
    {
        let mut s = String::from_str(self.topic.emoji());
        s.append(" ");
        s.append(self.service_id.as_str());
        s.append(" #");
        push_u64(&mut s, counter);
        s.append(": ");
        s.append(self.phrases[phrase_index]);
        s
    }

    /// The tags of the configuration as owned strings.
    pub fn tag_strings(&self) -> (r: Vec<String>)
        ensures
            string_views(r@) == tag_views(self.tags@),
    {
        let mut r: Vec<String> = Vec::new();
        for i in 0..self.tags.len()
            invariant
                r@.len() == i,
                forall|j: int| 0 <= j < i ==> #[trigger] r@[j]@ == self.tags@[j]@,
        {
            r.push(String::from_str(self.tags[i]));
        }
        assert(string_views(r@) =~= tag_views(self.tags@));
        r
    }

    /// The `counter`-th emission, with the phrase at `phrase_index`.
    pub fn emit_message(&self, counter: u64, phrase_index: usize) -> (r: ProducerMsg)
        requires
            phrase_index < self.phrases@.len(),
        ensures
            r matches ProducerMsg::Emit { payload, priority, tags }
                && payload@ == emit_payload_spec(
                    self.topic,
                    self.service_id@,
                    counter as nat,
                    phrase_at(*self, phrase_index as int),
                )
                && priority == self.priority
                && string_views(tags@) == tag_views(self.tags@),
    {
        ProducerMsg::Emit {
            payload: self.emit_payload(counter, phrase_index),
            priority: self.priority,
            tags: self.tag_strings(),
        }
    }

    /// The `counter`-th emission, with a phrase drawn at random.
    pub fn next_emit(&self, counter: u64) -> (r: ProducerMsg)
        requires
            self.phrases@.len() > 0,
        ensures
            exists|i: int|
                #![trigger phrase_at(*self, i)]
                0 <= i < self.phrases@.len() && (r matches ProducerMsg::Emit { payload, priority, tags }
                    && payload@ == emit_payload_spec(
                        self.topic,
                        self.service_id@,
                        counter as nat,
                        phrase_at(*self, i),
                    )
                    && priority == self.priority
                    && string_views(tags@) == tag_views(self.tags@)),
    {
        let i = random_below(self.phrases.len());
        self.emit_message(counter, i)
    }
}

/// What the orchestrator's first reply means for the worker: `Welcome` and
/// `Ack` let it go on, `Reject` ends the connection with `"rejected: {reason}"`.
pub fn check_welcome(reply: &OrchestratorMsg) -> (r: Result<(), String>)
    ensures
        match reply {
            OrchestratorMsg::Reject { reason } => r matches Err(e) && e@ == "rejected: "@ + reason@,
            _ => r is Ok,
        },
{
    match reply {
        OrchestratorMsg::Reject { reason } => {
            let mut e = String::from_str("rejected: ");
            e.append(reason.as_str());
            Err(e)
        },
        _ => Ok(()),
    }
}

/// A frame that arrives from the orchestrator while the worker emits.
pub enum InboundFrame {
    /// A text frame (an acknowledgement, or anything else).
    Text,
    /// A close frame.
    Close,
    /// The stream ended.
    End,
    /// The stream reported an error.
    Failed,
    /// A binary, ping or pong frame.
    Other,
}

/// Whether the emit loop goes on after `frame`: close, end and error stop it.
pub fn keeps_emitting(frame: &InboundFrame) -> (r: bool)
    ensures
        r == (*frame is Text || *frame is Other),
{
    match frame {
        InboundFrame::Text => true,
        InboundFrame::Other => true,
        _ => false,
    }
}

} // verus!
