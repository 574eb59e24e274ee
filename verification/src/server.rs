//! The single-process server that preceded the orchestrator: three in-process
//! workers feed one sequencer, which counts and broadcasts their messages to
//! every client subscribed to the message's topic.
use vstd::prelude::*;
use vstd::string::*;
use crate::orchestrator::metrics::{prom_row, push_row, utf8_len};
use crate::random::random_below;
use crate::text::dec_str;
use crate::text::push_u64;
use crate::wrapping::{add_wrapping, dec_gauge, gauge_dec, gauge_inc, inc_gauge, wrap_add};

verus! {

/// Capacity of the broadcast channel to clients.
pub const BROADCAST_CAP: usize = 256;

/// Capacity of the queue from the workers to the sequencer.
pub const WORKER_QUEUE_CAP: usize = 64;

/// A topic of this server.
#[derive(Debug, Clone, Copy, PartialEq, Eq, Structural)]
pub enum ShitTopic {
    Liquid,
    Solid,
    Gas,
}

/// The label of a topic, which is also its name on the wire.
pub open spec fn label_of(t: ShitTopic) -> Seq<char> {
    match t {
        ShitTopic::Liquid => "жидкое"@,
        ShitTopic::Solid => "твёрдое"@,
        ShitTopic::Gas => "газообразное"@,
    }
}

impl ShitTopic {
    pub fn label(&self) -> (r: &'static str)
        ensures
            r@ == label_of(*self),
    {
        match self {
            ShitTopic::Liquid => "жидкое",
            ShitTopic::Solid => "твёрдое",
            ShitTopic::Gas => "газообразное",
        }
    }
}

/// A broadcast message.
#[derive(Debug, PartialEq, Eq)]
pub struct ShitMessage {
    pub topic: ShitTopic,
    pub seq: u64,
    pub payload: String,
}

/// Client commands.
#[derive(Debug, PartialEq, Eq)]
pub enum ClientCmd {
    Subscribe { topic: ShitTopic },
    Unsubscribe,
    Echo { text: String },
    Ping,
}

/// Server messages.
#[derive(Debug, PartialEq, Eq)]
pub enum ServerMsg {
    Welcome { msg: String },
    Subscribed { topic: String },
    Unsubscribed,
    Shit(ShitMessage),
    Echo { payload: String },
    Pong,
    Error { msg: String },
}

/// What a worker hands to the sequencer.
#[derive(Debug, PartialEq, Eq)]
pub struct WorkerShit {
    pub topic: ShitTopic,
    pub payload: String,
}

/// The server's counters.
#[derive(Debug, Clone, Copy, PartialEq, Eq, Structural)]
pub struct ShitMetrics {
    pub messages_total: u64,
    pub bytes_sent: u64,
    pub connected_assholes: i64,
    pub liquid_total: u64,
    pub solid_total: u64,
    pub gas_total: u64,
}

impl ShitMetrics {
    pub open spec fn zero() -> ShitMetrics {
        ShitMetrics {
            messages_total: 0,
            bytes_sent: 0,
            connected_assholes: 0,
            liquid_total: 0,
            solid_total: 0,
            gas_total: 0,
        }
    }

    /// All counters at zero.
    pub fn new() -> (r: ShitMetrics)
        ensures
            r == ShitMetrics::zero(),
    {
        ShitMetrics {
            messages_total: 0,
            bytes_sent: 0,
            connected_assholes: 0,
            liquid_total: 0,
            solid_total: 0,
            gas_total: 0,
        }
    }

    /// The counters after one more message of `topic` with `bytes` payload bytes.
    pub open spec fn counted(self, topic: ShitTopic, bytes: u64) -> ShitMetrics {
        let m = ShitMetrics {
            messages_total: wrap_add(self.messages_total, 1),
            bytes_sent: wrap_add(self.bytes_sent, bytes),
            ..self
        };
        match topic {
            ShitTopic::Liquid => ShitMetrics { liquid_total: wrap_add(self.liquid_total, 1), ..m },
            ShitTopic::Solid => ShitMetrics { solid_total: wrap_add(self.solid_total, 1), ..m },
            ShitTopic::Gas => ShitMetrics { gas_total: wrap_add(self.gas_total, 1), ..m },
        }
    }

    /// Counts one message of `topic` carrying `bytes` payload bytes.
    pub fn inc_topic(&mut self, topic: &ShitTopic, bytes: u64)
        ensures
            *final(self) == old(self).counted(*topic, bytes),
    {
        self.messages_total = add_wrapping(self.messages_total, 1);
        self.bytes_sent = add_wrapping(self.bytes_sent, bytes);
        match topic {
            ShitTopic::Liquid => { self.liquid_total = add_wrapping(self.liquid_total, 1); },
            ShitTopic::Solid => { self.solid_total = add_wrapping(self.solid_total, 1); },
            ShitTopic::Gas => { self.gas_total = add_wrapping(self.gas_total, 1); },
        }
    }

    /// A client connected.
    pub fn client_connected(&mut self)
        ensures
            *final(self) == (ShitMetrics { connected_assholes: gauge_inc(old(self).connected_assholes), ..*old(self) }),
    {
        self.connected_assholes = inc_gauge(self.connected_assholes);
    }

    /// A client disconnected.
    pub fn client_disconnected(&mut self)
        ensures
            *final(self) == (ShitMetrics { connected_assholes: gauge_dec(old(self).connected_assholes), ..*old(self) }),
    {
        self.connected_assholes = dec_gauge(self.connected_assholes);
    }

    /// The Prometheus text exposition: the five counters, then the signed gauge.
    pub open spec fn prometheus_text(self) -> Seq<char> {
        prom_row("shit_messages_total"@, "Total shit messages orchestrated"@, "counter"@, self.messages_total as int)
            + prom_row("shit_bytes_sent"@, "Total bytes of shit broadcast"@, "counter"@, self.bytes_sent as int)
            + prom_row("shit_liquid_total"@, "Liquid shit messages produced"@, "counter"@, self.liquid_total as int)
            + prom_row("shit_solid_total"@, "Solid shit messages produced"@, "counter"@, self.solid_total as int)
            + prom_row("shit_gas_total"@, "Gas shit messages produced"@, "counter"@, self.gas_total as int)
            + prom_row("connected_assholes"@, "Current WebSocket connections"@, "gauge"@, self.connected_assholes as int)
    }

    /// Renders the counters in the Prometheus text format.
    pub fn prometheus(&self) -> (r: String)
        ensures
            r@ == self.prometheus_text(),
    {
        let mut s = String::new();
        push_counter_row(&mut s, "shit_messages_total", "Total shit messages orchestrated", self.messages_total);
        push_counter_row(&mut s, "shit_bytes_sent", "Total bytes of shit broadcast", self.bytes_sent);
        push_counter_row(&mut s, "shit_liquid_total", "Liquid shit messages produced", self.liquid_total);
        push_counter_row(&mut s, "shit_solid_total", "Solid shit messages produced", self.solid_total);
        push_counter_row(&mut s, "shit_gas_total", "Gas shit messages produced", self.gas_total);
        push_row(&mut s, "connected_assholes", "Current WebSocket connections", "gauge", self.connected_assholes);
        s
    }
}

/// Appends an unsigned counter in the Prometheus text format.
fn push_counter_row(s: &mut String, name: &str, help: &str, val: u64)
    ensures
        final(s)@ == old(s)@ + prom_row(name@, help@, "counter"@, val as int),
{
    s.append("# HELP ");
    s.append(name);
    s.append(" ");
    s.append(help);
    s.append("\n# TYPE ");
    s.append(name);
    s.append(" ");
    s.append("counter");
    s.append("\n");
    s.append(name);
    s.append(" ");
    push_u64(s, val);
    s.append("\n\n");
}

/// The sequencer: numbers the workers' messages from 1 on and counts them.
pub struct ShitOrchestrator {
    pub seq: u64,
}

impl ShitOrchestrator {
    /// A sequencer that has numbered nothing yet.
    pub fn new() -> (r: ShitOrchestrator)
        ensures
            r.seq == 0,
    {
        ShitOrchestrator { seq: 0 }
    }

    /// Numbers and counts one message of a worker; the result is broadcast.
    pub fn next_message(&mut self, ws: WorkerShit, metrics: &mut ShitMetrics) -> (r: ShitMessage)
        requires
            old(self).seq < u64::MAX,
        ensures
            final(self).seq == old(self).seq + 1,
            r.seq == final(self).seq,
            r.topic == ws.topic,
            r.payload == ws.payload,
            *final(metrics) == old(metrics).counted(ws.topic, utf8_len(ws.payload@)),
    {
        self.seq = self.seq + 1;
        let bytes = ws.payload.as_str().len() as u64;
        metrics.inc_topic(&ws.topic, bytes);
        ShitMessage { topic: ws.topic, seq: self.seq, payload: ws.payload }
    }
}

/// The greeting sent to every new client.
pub fn welcome() -> (r: ServerMsg)
    ensures
        r matches ServerMsg::Welcome { msg }
            && msg@ == "Добро пожаловать в говно-стрим! Подпишитесь на топик командой subscribe."@,
{
    ServerMsg::Welcome {
        msg: String::from_str("Добро пожаловать в говно-стрим! Подпишитесь на топик командой subscribe."),
    }
}

/// Handles a client command: a client follows at most one topic at a time.
pub fn handle_cmd(cmd: ClientCmd, sub: &mut Option<ShitTopic>) -> (r: ServerMsg)
    ensures
        match cmd {
            ClientCmd::Subscribe { topic } => *final(sub) == Some(topic) && (r matches ServerMsg::Subscribed {
                topic: label,
            } && label@ == label_of(topic)),
            ClientCmd::Unsubscribe => *final(sub) == None::<ShitTopic> && r == ServerMsg::Unsubscribed,
            ClientCmd::Echo { text } => *final(sub) == *old(sub) && (r matches ServerMsg::Echo { payload }
                && payload@ == "💩 ЭХО: "@ + text@),
            ClientCmd::Ping => *final(sub) == *old(sub) && r == ServerMsg::Pong,
        },
{
    match cmd {
        ClientCmd::Subscribe { topic } => {
            *sub = Some(topic);
            ServerMsg::Subscribed { topic: String::from_str(topic.label()) }
        },
        ClientCmd::Unsubscribe => {
            *sub = None;
            ServerMsg::Unsubscribed
        },
        ClientCmd::Echo { text } => {
            let mut payload = String::from_str("💩 ЭХО: ");
            payload.append(text.as_str());
            ServerMsg::Echo { payload }
        },
        ClientCmd::Ping => ServerMsg::Pong,
    }
}

/// The answer to a text frame that is not a valid command.
pub fn bad_json(err: &str) -> (r: ServerMsg)
    ensures
        r matches ServerMsg::Error { msg } && msg@ == "bad json: "@ + err@,
{
    let mut msg = String::from_str("bad json: ");
    msg.append(err);
    ServerMsg::Error { msg }
}

/// A client receives a broadcast message exactly when subscribed to its topic.
pub fn deliver(sub: &Option<ShitTopic>, msg: ShitMessage) -> (r: Option<ServerMsg>)
    ensures
        match r {
            Some(m) => *sub == Some(msg.topic) && m == ServerMsg::Shit(msg),
            None => *sub != Some(msg.topic),
        },
{
    match sub {
        Some(t) => {
            if *t == msg.topic {
                Some(ServerMsg::Shit(msg))
            } else {
                None
            }
        },
        None => None,
    }
}

/// An in-process worker: a topic, a payload prefix, an interval and phrases.
pub struct ShitWorker {
    pub topic: ShitTopic,
    pub prefix: &'static str,
    pub interval_ms: u64,
    pub phrases: &'static [&'static str],
}

/// The payload of the `i`-th message: `"{prefix} говно #{i}: {phrase}"`.
pub open spec fn worker_payload(prefix: Seq<char>, i: nat, phrase: Seq<char>) -> Seq<char> {
    prefix + " говно #"@ + dec_str(i) + ": "@ + phrase
}

impl ShitWorker {
    /// The `i`-th message, with the phrase at `phrase_index`.
    pub fn shit_at(&self, i: u64, phrase_index: usize) -> (r: WorkerShit)
        requires
            phrase_index < self.phrases@.len(),
        ensures
            r.topic == self.topic,
            r.payload@ == worker_payload(self.prefix@, i as nat, self.phrases@[phrase_index as int]@),
    {
        let mut payload = String::from_str(self.prefix);
        payload.append(" говно #");
        push_u64(&mut payload, i);
        payload.append(": ");
        payload.append(self.phrases[phrase_index]);
        WorkerShit { topic: self.topic, payload }
    }

    /// The `i`-th message, with a phrase drawn at random.
    pub fn next_shit(&self, i: u64) -> (r: WorkerShit)
        requires
            self.phrases@.len() > 0,
        ensures
            r.topic == self.topic,
            exists|k: int|
                0 <= k < self.phrases@.len() && r.payload@ == #[trigger] worker_payload(
                    self.prefix@,
                    i as nat,
                    self.phrases@[k]@,
                ),
    {
        let k = random_below(self.phrases.len());
        self.shit_at(i, k)
    }
}

} // verus!
