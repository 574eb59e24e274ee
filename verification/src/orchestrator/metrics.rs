//! Counters of the orchestrator and their Prometheus exposition.
use vstd::prelude::*;
use vstd::string::*;
use crate::proto::{ShitMessage, ShitTopic};
use crate::text::{int_str, push_i64};
use crate::wrapping::{add_wrapping, dec_gauge, gauge_dec, gauge_inc, inc_gauge, wrap_add};

verus! {

/// The orchestrator's counters. Counters wrap around on overflow; the two
/// gauges count open connections.
#[derive(Debug, Clone, Copy, PartialEq, Eq, Structural)]
pub struct Metrics {
    pub messages_total: u64,
    pub bytes_sent: u64,
    pub connected_consumers: i64,
    pub connected_producers: i64,
    pub auth_success: u64,
    pub auth_failures: u64,
    pub liquid_total: u64,
    pub solid_total: u64,
    pub gas_total: u64,
    pub critical_total: u64,
}

/// The number of bytes of the UTF-8 encoding of a text, as `str::len` gives it.
pub open spec fn utf8_len(s: Seq<char>) -> u64 {
    (vstd::utf8::encode_utf8(s).len() as usize) as u64
}

/// One metric in the Prometheus text format, followed by a blank line.
pub open spec fn prom_row(name: Seq<char>, help: Seq<char>, kind: Seq<char>, val: int) -> Seq<char> {
    "# HELP "@ + name + " "@ + help + "\n# TYPE "@ + name + " "@ + kind + "\n"@ + name + " "@
        + int_str(val) + "\n\n"@
}

/// The value of a `u64` counter once reinterpreted as `i64`.
pub open spec fn as_signed(x: u64) -> int {
    if x > i64::MAX { x - 0x1_0000_0000_0000_0000 } else { x as int }
}

impl Metrics {
    /// All counters at zero.
    pub fn new() -> (r: Metrics)
        ensures
            r == Metrics::zero(),
    {
        Metrics {
            messages_total: 0,
            bytes_sent: 0,
            connected_consumers: 0,
            connected_producers: 0,
            auth_success: 0,
            auth_failures: 0,
            liquid_total: 0,
            solid_total: 0,
            gas_total: 0,
            critical_total: 0,
        }
    }

    pub open spec fn zero() -> Metrics {
        Metrics {
            messages_total: 0,
            bytes_sent: 0,
            connected_consumers: 0,
            connected_producers: 0,
            auth_success: 0,
            auth_failures: 0,
            liquid_total: 0,
            solid_total: 0,
            gas_total: 0,
            critical_total: 0,
        }
    }

    /// The counters after one more message of `topic` with `bytes` payload bytes.
    pub open spec fn counted(self, topic: ShitTopic, bytes: u64) -> Metrics {
        let m = Metrics {
            messages_total: wrap_add(self.messages_total, 1),
            bytes_sent: wrap_add(self.bytes_sent, bytes),
            ..self
        };
        match topic {
            ShitTopic::Liquid => Metrics { liquid_total: wrap_add(self.liquid_total, 1), ..m },
            ShitTopic::Solid => Metrics { solid_total: wrap_add(self.solid_total, 1), ..m },
            ShitTopic::Gas => Metrics { gas_total: wrap_add(self.gas_total, 1), ..m },
            ShitTopic::Critical => Metrics { critical_total: wrap_add(self.critical_total, 1), ..m },
        }
    }

    /// Counts a broadcast message: one more message, its payload bytes, and one
    /// more message of its topic.
    pub fn inc_msg(&mut self, msg: &ShitMessage)
        ensures
            *final(self) == old(self).counted(msg.topic, utf8_len(msg.payload@)),
    {
        let bytes = msg.payload.as_str().len();
        self.messages_total = add_wrapping(self.messages_total, 1);
        self.bytes_sent = add_wrapping(self.bytes_sent, bytes as u64);
        match msg.topic {
            ShitTopic::Liquid => { self.liquid_total = add_wrapping(self.liquid_total, 1); },
            ShitTopic::Solid => { self.solid_total = add_wrapping(self.solid_total, 1); },
            ShitTopic::Gas => { self.gas_total = add_wrapping(self.gas_total, 1); },
            ShitTopic::Critical => { self.critical_total = add_wrapping(self.critical_total, 1); },
        }
    }

    /// A producer connection opened.
    pub fn producer_connected(&mut self)
        ensures
            *final(self) == (Metrics { connected_producers: gauge_inc(old(self).connected_producers), ..*old(self) }),
    {
        self.connected_producers = inc_gauge(self.connected_producers);
    }

    /// A producer connection closed.
    pub fn producer_disconnected(&mut self)
        ensures
            *final(self) == (Metrics { connected_producers: gauge_dec(old(self).connected_producers), ..*old(self) }),
    {
        self.connected_producers = dec_gauge(self.connected_producers);
    }

    /// A consumer connection opened.
    pub fn consumer_connected(&mut self)
        ensures
            *final(self) == (Metrics { connected_consumers: gauge_inc(old(self).connected_consumers), ..*old(self) }),
    {
        self.connected_consumers = inc_gauge(self.connected_consumers);
    }

    /// A consumer connection closed.
    pub fn consumer_disconnected(&mut self)
        ensures
            *final(self) == (Metrics { connected_consumers: gauge_dec(old(self).connected_consumers), ..*old(self) }),
    {
        self.connected_consumers = dec_gauge(self.connected_consumers);
    }

    /// A consumer authenticated.
    pub fn auth_succeeded(&mut self)
        ensures
            *final(self) == (Metrics { auth_success: wrap_add(old(self).auth_success, 1), ..*old(self) }),
    {
        self.auth_success = add_wrapping(self.auth_success, 1);
    }

    /// A consumer failed to authenticate.
    pub fn auth_failed(&mut self)
        ensures
            *final(self) == (Metrics { auth_failures: wrap_add(old(self).auth_failures, 1), ..*old(self) }),
    {
        self.auth_failures = add_wrapping(self.auth_failures, 1);
    }

    /// The Prometheus text exposition of all counters, in a fixed order.
    pub open spec fn prometheus_text(self) -> Seq<char> {
        prom_row("shit_messages_total"@, "Total shit orchestrated"@, "counter"@, as_signed(self.messages_total))
            + prom_row("shit_bytes_sent"@, "Total payload bytes broadcast"@, "counter"@, as_signed(self.bytes_sent))
            + prom_row("shit_auth_success"@, "Successful consumer auths"@, "counter"@, as_signed(self.auth_success))
            + prom_row("shit_auth_failures"@, "Failed consumer auth attempts"@, "counter"@, as_signed(self.auth_failures))
            + prom_row("shit_liquid_total"@, "Liquid shit produced"@, "counter"@, as_signed(self.liquid_total))
            + prom_row("shit_solid_total"@, "Solid shit produced"@, "counter"@, as_signed(self.solid_total))
            + prom_row("shit_gas_total"@, "Gas shit produced"@, "counter"@, as_signed(self.gas_total))
            + prom_row("shit_critical_total"@, "Critical incidents"@, "counter"@, as_signed(self.critical_total))
            + prom_row("connected_consumers"@, "Active consumer WS connections"@, "gauge"@, self.connected_consumers as int)
            + prom_row("connected_producers"@, "Active producer WS connections"@, "gauge"@, self.connected_producers as int)
    }

    /// Renders all counters in the Prometheus text format.
    pub fn prometheus(&self) -> (r: String)
        ensures
            r@ == self.prometheus_text(),
    {
        let mut s = String::new();
        push_row(&mut s, "shit_messages_total", "Total shit orchestrated", "counter", to_signed(self.messages_total));
        push_row(&mut s, "shit_bytes_sent", "Total payload bytes broadcast", "counter", to_signed(self.bytes_sent));
        push_row(&mut s, "shit_auth_success", "Successful consumer auths", "counter", to_signed(self.auth_success));
        push_row(&mut s, "shit_auth_failures", "Failed consumer auth attempts", "counter", to_signed(self.auth_failures));
        push_row(&mut s, "shit_liquid_total", "Liquid shit produced", "counter", to_signed(self.liquid_total));
        push_row(&mut s, "shit_solid_total", "Solid shit produced", "counter", to_signed(self.solid_total));
        push_row(&mut s, "shit_gas_total", "Gas shit produced", "counter", to_signed(self.gas_total));
        push_row(&mut s, "shit_critical_total", "Critical incidents", "counter", to_signed(self.critical_total));
        push_row(&mut s, "connected_consumers", "Active consumer WS connections", "gauge", self.connected_consumers);
        push_row(&mut s, "connected_producers", "Active producer WS connections", "gauge", self.connected_producers);
        s
    }
}

/// Reinterprets a counter as `i64` (`x as i64`).
pub fn to_signed(x: u64) -> (r: i64)
    ensures
        r as int == as_signed(x),
{
    if x > i64::MAX as u64 {
        let d: u64 = x - (i64::MAX as u64) - 1;
        i64::MIN + (d as i64)
    } else {
        x as i64
    }
}

/// Appends one metric in the Prometheus text format.
pub fn push_row(s: &mut String, name: &str, help: &str, kind: &str, val: i64)
    ensures
        final(s)@ == old(s)@ + prom_row(name@, help@, kind@, val as int),
{
    s.append("# HELP ");
    s.append(name);
    s.append(" ");
    s.append(help);
    s.append("\n# TYPE ");
    s.append(name);
    s.append(" ");
    s.append(kind);
    s.append("\n");
    s.append(name);
    s.append(" ");
    push_i64(s, val);
    s.append("\n\n");
}

} // verus!
