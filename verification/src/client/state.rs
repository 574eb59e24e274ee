//! The client's state: the connection state machine, per-topic rate
//! trackers over a rolling window, the message history and subscriptions.
use vstd::prelude::*;
use vstd::string::*;
use std::collections::VecDeque;
use crate::client::protocol::{ClientCmd, ServiceInfo};
use crate::proto::clone_strings;

verus! {

/// The connection state machine.
#[derive(Debug, PartialEq, Eq)]
pub enum ConnectionState {
    Disconnected,
    Connecting { url: String },
    Authenticating,
    Connected { session_id: String },
    Reconnecting { attempt: u32, delay_secs: u64 },
}

pub open spec fn state_label(s: ConnectionState) -> Seq<char> {
    match s {
        ConnectionState::Disconnected => "отключено"@,
        ConnectionState::Connecting { .. } => "подключаемся..."@,
        ConnectionState::Authenticating => "авторизация..."@,
        ConnectionState::Connected { .. } => "подключено"@,
        ConnectionState::Reconnecting { .. } => "переподключение..."@,
    }
}

pub open spec fn state_icon(s: ConnectionState) -> Seq<char> {
    match s {
        ConnectionState::Disconnected => "🔴"@,
        ConnectionState::Connecting { .. } => "⏳"@,
        ConnectionState::Authenticating => "🔐"@,
        ConnectionState::Connected { .. } => "🟢"@,
        ConnectionState::Reconnecting { .. } => "🔁"@,
    }
}

/// The status bar's style: green when connected, red when disconnected,
/// "connecting" in every state in between.
pub open spec fn state_class(s: ConnectionState) -> Seq<char> {
    match s {
        ConnectionState::Connected { .. } => "status-ok"@,
        ConnectionState::Disconnected => "status-error"@,
        _ => "status-connecting"@,
    }
}

impl ConnectionState {
    pub fn label(&self) -> (r: &'static str)
        ensures
            r@ == state_label(*self),
    {
        match self {
            ConnectionState::Disconnected => "отключено",
            ConnectionState::Connecting { .. } => "подключаемся...",
            ConnectionState::Authenticating => "авторизация...",
            ConnectionState::Connected { .. } => "подключено",
            ConnectionState::Reconnecting { .. } => "переподключение...",
        }
    }

    pub fn icon(&self) -> (r: &'static str)
        ensures
            r@ == state_icon(*self),
    {
        match self {
            ConnectionState::Disconnected => "🔴",
            ConnectionState::Connecting { .. } => "⏳",
            ConnectionState::Authenticating => "🔐",
            ConnectionState::Connected { .. } => "🟢",
            ConnectionState::Reconnecting { .. } => "🔁",
        }
    }

    pub fn css_class(&self) -> (r: &'static str)
        ensures
            r@ == state_class(*self),
    {
        match self {
            ConnectionState::Connected { .. } => "status-ok",
            ConnectionState::Authenticating | ConnectionState::Connecting { .. }
            | ConnectionState::Reconnecting { .. } => "status-connecting",
            ConnectionState::Disconnected => "status-error",
        }
    }
}

/// The number of one-second buckets in a rate window.
pub const RATE_BUCKETS: usize = 30;

/// Message counts per second over a rolling window of `RATE_BUCKETS` seconds.
pub struct RateTracker {
    pub buckets: VecDeque<u32>,
    pub current: u32,
    pub total: u64,
}

/// The contents of a rate tracker.
pub struct RateView {
    pub buckets: Seq<u32>,
    pub current: u32,
    pub total: u64,
}

impl View for RateTracker {
    type V = RateView;

    open spec fn view(&self) -> RateView {
        RateView { buckets: self.buckets@, current: self.current, total: self.total }
    }
}

impl RateView {
    /// After `n` more messages in the current second.
    pub open spec fn added(self, n: nat) -> RateView {
        RateView { current: (self.current + n) as u32, total: (self.total + n) as u64, ..self }
    }

    /// Whether `n` more messages can be counted without overflow.
    pub open spec fn has_room(self, n: nat) -> bool {
        self.current + n <= u32::MAX && self.total + n <= u64::MAX
    }

    /// After the current second ends.
    pub open spec fn committed(self) -> RateView {
        RateView { buckets: slide(self.buckets, self.current), current: 0, total: self.total }
    }
}

/// The window after a second ends: the new count appended, and the oldest
/// bucket dropped once there are more than `RATE_BUCKETS`.
pub open spec fn slide(buckets: Seq<u32>, current: u32) -> Seq<u32> {
    let s = buckets.push(current);
    if s.len() > RATE_BUCKETS { s.drop_first() } else { s }
}

/// The largest element of a sequence, 0 when empty.
pub open spec fn seq_max(s: Seq<u32>) -> nat
    decreases s.len(),
{
    if s.len() == 0 {
        0
    } else {
        let m = seq_max(s.drop_last());
        if s.last() > m { s.last() as nat } else { m }
    }
}

impl RateTracker {
    /// An empty tracker.
    pub fn new() -> (r: RateTracker)
        ensures
            r.buckets@ == Seq::<u32>::empty(),
            r.current == 0,
            r.total == 0,
    {
        RateTracker { buckets: VecDeque::new(), current: 0, total: 0 }
    }

    /// Counts `n` more messages in the current second.
    pub fn add(&mut self, n: u32)
        requires
            old(self).current + n <= u32::MAX,
            old(self).total + n <= u64::MAX,
        ensures
            final(self).current == old(self).current + n,
            final(self).total == old(self).total + n,
            final(self).buckets@ == old(self).buckets@,
    {
        self.current = self.current + n;
        self.total = self.total + n as u64;
        assert(final(self)@ == old(self)@.added(n as nat));
    }

    /// Ends the current second: its count joins the window.
    pub fn commit_bucket(&mut self)
        ensures
            final(self).buckets@ == slide(old(self).buckets@, old(self).current),
            final(self).current == 0,
            final(self).total == old(self).total,
    {
        self.buckets.push_back(self.current);
        if self.buckets.len() > RATE_BUCKETS {
            self.buckets.pop_front();
        }
        self.current = 0;
    }

    /// The largest count in the window, and at least 1 (a chart's scale).
    pub fn max_in_window(&self) -> (r: u32)
        ensures
            r as nat == (if seq_max(self.buckets@) > 1 { seq_max(self.buckets@) } else { 1 }),
    {
        let mut m: u32 = 0;
        let mut i: usize = 0;
        let n = self.buckets.len();
        while i < n
            invariant
                n == self.buckets@.len(),
                i <= n,
                m as nat == seq_max(self.buckets@.take(i as int)),
            decreases n - i,
        {
            let b = self.buckets[i];
            assert(self.buckets@.take(i + 1).drop_last() == self.buckets@.take(i as int));
            if b > m {
                m = b;
            }
            i += 1;
        }
        assert(self.buckets@.take(n as int) == self.buckets@);
        if m > 1 { m } else { 1 }
    }
}

impl Default for RateTracker {
    fn default() -> (r: RateTracker)
        ensures
            r.buckets@ == Seq::<u32>::empty(),
            r.current == 0,
            r.total == 0,
    {
        RateTracker::new()
    }
}

/// The names of the trackers, one per topic and one for all messages.
pub open spec fn tracker_names() -> Seq<Seq<char>> {
    seq!["liquid"@, "solid"@, "gas"@, "critical"@, "__total__"@]
}

pub open spec fn total_key() -> Seq<char> {
    "__total__"@
}

/// The rate trackers of the client, one per topic and one for all messages,
/// looked up by name.
pub struct TopicRates {
    pub liquid: RateTracker,
    pub solid: RateTracker,
    pub gas: RateTracker,
    pub critical: RateTracker,
    pub total: RateTracker,
}

impl View for TopicRates {
    type V = Map<Seq<char>, RateView>;

    open spec fn view(&self) -> Map<Seq<char>, RateView> {
        map![
            "liquid"@ => self.liquid@,
            "solid"@ => self.solid@,
            "gas"@ => self.gas@,
            "critical"@ => self.critical@,
            "__total__"@ => self.total@,
        ]
    }
}

/// One more message under `name`, when there is a tracker of that name.
pub open spec fn bump(m: Map<Seq<char>, RateView>, name: Seq<char>) -> Map<Seq<char>, RateView> {
    if m.contains_key(name) { m.insert(name, m[name].added(1)) } else { m }
}

/// Whether the tracker of `name`, if any, can count `n` more messages.
pub open spec fn room(m: Map<Seq<char>, RateView>, name: Seq<char>, n: nat) -> bool {
    m.contains_key(name) ==> m[name].has_room(n)
}

pub(crate) proof fn lemma_names_distinct()
    ensures
        "liquid"@ != "solid"@,
        "liquid"@ != "gas"@,
        "liquid"@ != "critical"@,
        "liquid"@ != "__total__"@,
        "solid"@ != "gas"@,
        "solid"@ != "critical"@,
        "solid"@ != "__total__"@,
        "gas"@ != "critical"@,
        "gas"@ != "__total__"@,
        "critical"@ != "__total__"@,
{
    reveal_strlit("liquid");
    reveal_strlit("solid");
    reveal_strlit("gas");
    reveal_strlit("critical");
    reveal_strlit("__total__");
    assert("liquid"@[0] != "solid"@[0]);
    assert("liquid"@[0] != "gas"@[0]);
    assert("liquid"@[0] != "critical"@[0]);
    assert("liquid"@[0] != "__total__"@[0]);
    assert("solid"@[0] != "gas"@[0]);
    assert("solid"@[0] != "critical"@[0]);
    assert("solid"@[0] != "__total__"@[0]);
    assert("gas"@[0] != "critical"@[0]);
    assert("gas"@[0] != "__total__"@[0]);
    assert("critical"@[0] != "__total__"@[0]);
}

impl TopicRates {
    /// Empty trackers.
    pub fn new() -> (r: TopicRates)
        ensures
            r@.dom() == tracker_names().to_set(),
            forall|k: Seq<char>| #[trigger] r@.contains_key(k) ==> r@[k] == (RateView {
                buckets: Seq::empty(),
                current: 0,
                total: 0,
            }),
    {
        let r = TopicRates {
            liquid: RateTracker::new(),
            solid: RateTracker::new(),
            gas: RateTracker::new(),
            critical: RateTracker::new(),
            total: RateTracker::new(),
        };
        assert(r@.dom() =~= tracker_names().to_set()) by {
            assert(tracker_names()[0] == "liquid"@);
            assert(tracker_names()[1] == "solid"@);
            assert(tracker_names()[2] == "gas"@);
            assert(tracker_names()[3] == "critical"@);
            assert(tracker_names()[4] == "__total__"@);
        }
        r
    }

    /// The tracker named `name`.
    pub fn get(&self, name: &str) -> (r: Option<&RateTracker>)
        ensures
            match r {
                Some(t) => self@.contains_key(name@) && self@[name@] == t@,
                None => !self@.contains_key(name@),
            },
    {
        let n = String::from_str(name);
        proof {
            lemma_names_distinct();
        }
        if is_text(&n, "liquid") {
            Some(&self.liquid)
        } else if is_text(&n, "solid") {
            Some(&self.solid)
        } else if is_text(&n, "gas") {
            Some(&self.gas)
        } else if is_text(&n, "critical") {
            Some(&self.critical)
        } else if is_text(&n, "__total__") {
            Some(&self.total)
        } else {
            None
        }
    }

    /// Whether the tracker named `name`, if any, can count `k` more messages.
    pub fn has_room(&self, name: &String, k: u32) -> (r: bool)
        ensures
            r == room(self@, name@, k as nat),
    {
        proof {
            lemma_names_distinct();
        }
        let t = if is_text(name, "liquid") {
            &self.liquid
        } else if is_text(name, "solid") {
            &self.solid
        } else if is_text(name, "gas") {
            &self.gas
        } else if is_text(name, "critical") {
            &self.critical
        } else if is_text(name, "__total__") {
            &self.total
        } else {
            return true;
        };
        t.current <= u32::MAX - k && t.total <= u64::MAX - k as u64
    }

    /// Counts one message under `name`, when there is a tracker of that name.
    pub fn bump(&mut self, name: &String)
        requires
            room(old(self)@, name@, 1),
        ensures
            final(self)@ == bump(old(self)@, name@),
    {
        proof {
            lemma_names_distinct();
        }
        if is_text(name, "liquid") {
            self.liquid.add(1);
        } else if is_text(name, "solid") {
            self.solid.add(1);
        } else if is_text(name, "gas") {
            self.gas.add(1);
        } else if is_text(name, "critical") {
            self.critical.add(1);
        } else if is_text(name, "__total__") {
            self.total.add(1);
        }
        assert(self@ =~= bump(old(self)@, name@));
    }

    /// Ends the current second of every tracker.
    pub fn commit_all(&mut self)
        ensures
            final(self)@ == old(self)@.map_values(|v: RateView| v.committed()),
    {
        self.liquid.commit_bucket();
        self.solid.commit_bucket();
        self.gas.commit_bucket();
        self.critical.commit_bucket();
        self.total.commit_bucket();
        proof {
            lemma_names_distinct();
        }
        assert(self@ =~= old(self)@.map_values(|v: RateView| v.committed()));
    }
}

/// A received message as kept in the history (and exported).
#[derive(Debug, PartialEq, Eq)]
pub struct HistoryEntry {
    pub seq: u64,
    pub topic: String,
    pub payload: String,
    pub priority: String,
    pub tags: Vec<String>,
    pub producer_id: String,
    pub service_id: String,
    pub ts_ms: u64,
}

impl HistoryEntry {
    /// Field-wise equality, the tags compared by their contents.
    pub open spec fn same_as(self, other: HistoryEntry) -> bool {
        &&& self.seq == other.seq
        &&& self.topic == other.topic
        &&& self.payload == other.payload
        &&& self.priority == other.priority
        &&& self.tags@ == other.tags@
        &&& self.producer_id == other.producer_id
        &&& self.service_id == other.service_id
        &&& self.ts_ms == other.ts_ms
    }
}

impl Clone for HistoryEntry {
    fn clone(&self) -> (r: Self)
        ensures
            r.same_as(*self),
    {
        HistoryEntry {
            seq: self.seq,
            topic: self.topic.clone(),
            payload: self.payload.clone(),
            priority: self.priority.clone(),
            tags: clone_strings(&self.tags),
            producer_id: self.producer_id.clone(),
            service_id: self.service_id.clone(),
            ts_ms: self.ts_ms,
        }
    }
}

/// Whether `s` is the text `lit`.
pub fn is_text(s: &String, lit: &str) -> (r: bool)
    ensures
        r == (s@ == lit@),
{
    *s == String::from_str(lit)
}

/// A set of topic names.
pub struct Subscriptions {
    items: Vec<String>,
}

impl View for Subscriptions {
    type V = Set<Seq<char>>;

    closed spec fn view(&self) -> Set<Seq<char>> {
        Set::new(|t: Seq<char>| exists|i: int| 0 <= i < self.items@.len() && #[trigger] self.items@[i]@ == t)
    }
}

impl Subscriptions {
    /// No topic.
    pub fn new() -> (r: Subscriptions)
        ensures
            r@ == Set::<Seq<char>>::empty(),
    {
        let r = Subscriptions { items: Vec::new() };
        assert(r@ =~= Set::<Seq<char>>::empty());
        r
    }

    /// Whether `topic` is in the set.
    pub fn contains(&self, topic: &str) -> (r: bool)
        ensures
            r == self@.contains(topic@),
    {
        let t = String::from_str(topic);
        let mut i: usize = 0;
        while i < self.items.len()
            invariant
                i <= self.items@.len(),
                t@ == topic@,
                forall|j: int| 0 <= j < i ==> #[trigger] self.items@[j]@ != topic@,
            decreases self.items.len() - i,
        {
            if self.items[i] == t {
                return true;
            }
            i += 1;
        }
        false
    }

    /// Adds `topic`.
    pub fn insert(&mut self, topic: &str)
        ensures
            final(self)@ == old(self)@.insert(topic@),
    {
        if !self.contains(topic) {
            let ghost before = self.items@;
            self.items.push(String::from_str(topic));
            assert forall|t: Seq<char>| self@.contains(t) == old(self)@.insert(topic@).contains(t) by {
                if self@.contains(t) && t != topic@ {
                    let i = choose|i: int| 0 <= i < self.items@.len() && #[trigger] self.items@[i]@ == t;
                    assert(i < before.len());
                    assert(before[i]@ == t);
                }
                if old(self)@.contains(t) {
                    let i = choose|i: int| 0 <= i < before.len() && #[trigger] before[i]@ == t;
                    assert(self.items@[i]@ == t);
                }
                if t == topic@ {
                    assert(self.items@[before.len() as int]@ == t);
                }
            }
        }
        assert(self@ =~= old(self)@.insert(topic@));
    }

    /// Removes `topic`.
    pub fn remove(&mut self, topic: &str)
        ensures
            final(self)@ == old(self)@.remove(topic@),
    {
        let t = String::from_str(topic);
        let mut kept: Vec<String> = Vec::new();
        let mut i: usize = 0;
        while i < self.items.len()
            invariant
                i <= self.items@.len(),
                t@ == topic@,
                forall|j: int| 0 <= j < kept@.len() ==> #[trigger] kept@[j]@ != topic@,
                forall|j: int| 0 <= j < kept@.len() ==> exists|k: int| 0 <= k < i && #[trigger] self.items@[k]@ == (#[trigger] kept@[j])@,
                forall|k: int| 0 <= k < i && #[trigger] self.items@[k]@ != topic@ ==> exists|j: int| 0 <= j < kept@.len() && #[trigger] kept@[j]@ == self.items@[k]@,
            decreases self.items.len() - i,
        {
            let ghost prev = kept@;
            if self.items[i] != t {
                kept.push(self.items[i].clone());
                assert(kept@[kept@.len() - 1]@ == self.items@[i as int]@);
            }
            assert forall|k: int| 0 <= k < i + 1 && #[trigger] self.items@[k]@ != topic@ implies exists|j: int|
                0 <= j < kept@.len() && #[trigger] kept@[j]@ == self.items@[k]@ by {
                if k < i {
                    let j = choose|j: int| 0 <= j < prev.len() && #[trigger] prev[j]@ == self.items@[k]@;
                    assert(kept@[j] == prev[j]);
                } else {
                    assert(kept@[kept@.len() - 1]@ == self.items@[k]@);
                }
            }
            i += 1;
        }
        let ghost before = self.items@;
        self.items = kept;
        assert forall|x: Seq<char>| self@.contains(x) == old(self)@.remove(topic@).contains(x) by {
            if self@.contains(x) {
                let j = choose|j: int| 0 <= j < self.items@.len() && #[trigger] self.items@[j]@ == x;
                let k = choose|k: int| 0 <= k < before.len() && #[trigger] before[k]@ == self.items@[j]@;
                assert(old(self)@.contains(x));
            }
            if old(self)@.contains(x) && x != topic@ {
                let k = choose|k: int| 0 <= k < before.len() && #[trigger] before[k]@ == x;
                let j = choose|j: int| 0 <= j < self.items@.len() && #[trigger] self.items@[j]@ == before[k]@;
                assert(self@.contains(x));
            }
        }
        assert(self@ =~= old(self)@.remove(topic@));
    }

    /// Removes every topic.
    pub fn clear(&mut self)
        ensures
            final(self)@ == Set::<Seq<char>>::empty(),
    {
        *self = Subscriptions::new();
    }
}

/// The most messages the history keeps; older ones are dropped first.
pub const HISTORY_LIMIT: usize = 1000;

/// The topics the client knows, in the order of the page's buttons.
pub open spec fn topic_names() -> Seq<Seq<char>> {
    seq!["liquid"@, "solid"@, "gas"@, "critical"@]
}

/// The history after recording one more message: the message at the end,
/// the oldest dropped once there are more than `HISTORY_LIMIT`.
pub open spec fn history_after(h: Seq<HistoryEntry>, n: Seq<HistoryEntry>, e: HistoryEntry) -> bool {
    &&& n.len() > 0
    &&& n.last().same_as(e)
    &&& n.drop_last() == (if h.len() >= HISTORY_LIMIT { h.drop_first() } else { h })
}

/// The topics of `topic_names()` that `subs` lacks, in order.
pub open spec fn missing_topics(subs: Set<Seq<char>>) -> Seq<Seq<char>> {
    (if subs.contains("liquid"@) { Seq::empty() } else { seq!["liquid"@] })
        + (if subs.contains("solid"@) { Seq::empty() } else { seq!["solid"@] })
        + (if subs.contains("gas"@) { Seq::empty() } else { seq!["gas"@] })
        + (if subs.contains("critical"@) { Seq::empty() } else { seq!["critical"@] })
}

/// Whether `cmds` subscribes to exactly `topics`, in order.
pub open spec fn subscribes_to(cmds: Seq<ClientCmd>, topics: Seq<Seq<char>>) -> bool {
    &&& cmds.len() == topics.len()
    &&& forall|i: int| 0 <= i < cmds.len() ==> (#[trigger] cmds[i] matches ClientCmd::Subscribe { topic } && topic@ == topics[i])
}

/// The client's global state.
pub struct AppState {
    pub connection_state: ConnectionState,
    pub ws_url: String,
    pub token: String,
    pub pending_auth: bool,
    pub reconnect_attempt: u32,
    pub subscriptions: Subscriptions,
    pub rates: TopicRates,
    pub message_history: VecDeque<HistoryEntry>,
    pub services: Vec<ServiceInfo>,
    pub total_received: u64,
    pub sound_enabled: bool,
}

impl AppState {
    /// The connection part of two states agrees.
    pub open spec fn same_connection(self, other: AppState) -> bool {
        &&& self.connection_state == other.connection_state
        &&& self.ws_url == other.ws_url
        &&& self.token == other.token
        &&& self.pending_auth == other.pending_auth
        &&& self.reconnect_attempt == other.reconnect_attempt
    }

    /// The received data of two states agrees.
    pub open spec fn same_data(self, other: AppState) -> bool {
        &&& self.rates@ == other.rates@
        &&& self.message_history@ == other.message_history@
        &&& self.services@ == other.services@
        &&& self.total_received == other.total_received
    }

    /// The state at page load: disconnected, nothing subscribed, empty
    /// trackers and history, sound off.
    pub fn new() -> (r: AppState)
        ensures
            r.connection_state == ConnectionState::Disconnected,
            r.ws_url@ == Seq::<char>::empty(),
            r.token@ == Seq::<char>::empty(),
            !r.pending_auth,
            r.reconnect_attempt == 0,
            r.subscriptions@ == Set::<Seq<char>>::empty(),
            r.rates@.dom() == tracker_names().to_set(),
            forall|k: Seq<char>| #[trigger] r.rates@.contains_key(k) ==> r.rates@[k] == (RateView {
                buckets: Seq::empty(),
                current: 0,
                total: 0,
            }),
            r.message_history@ == Seq::<HistoryEntry>::empty(),
            r.services@ == Seq::<ServiceInfo>::empty(),
            r.total_received == 0,
            !r.sound_enabled,
    {
        AppState {
            connection_state: ConnectionState::Disconnected,
            ws_url: String::new(),
            token: String::new(),
            pending_auth: false,
            reconnect_attempt: 0,
            subscriptions: Subscriptions::new(),
            rates: TopicRates::new(),
            message_history: VecDeque::new(),
            services: Vec::new(),
            total_received: 0,
            sound_enabled: false,
        }
    }

    /// Whether a message of `topic` can be counted without overflow.
    pub open spec fn can_record(&self, topic: Seq<char>) -> bool {
        &&& self.total_received < u64::MAX
        &&& if topic == total_key() {
            room(self.rates@, total_key(), 2)
        } else {
            room(self.rates@, topic, 1) && room(self.rates@, total_key(), 1)
        }
    }

    /// Exec form of `can_record`.
    pub fn has_room_for(&self, topic: &String) -> (r: bool)
        ensures
            r == self.can_record(topic@),
    {
        let total = String::from_str("__total__");
        if self.total_received == u64::MAX {
            false
        } else if *topic == total {
            self.rates.has_room(&total, 2)
        } else {
            self.rates.has_room(topic, 1) && self.rates.has_room(&total, 1)
        }
    }

    /// Records a received message: its topic's tracker and the total tracker
    /// count it, the total goes up by one, and the history keeps it.
    pub fn record_message(&mut self, entry: &HistoryEntry)
        requires
            old(self).can_record(entry.topic@),
        ensures
            final(self).rates@ == bump(bump(old(self).rates@, entry.topic@), total_key()),
            final(self).total_received == old(self).total_received + 1,
            history_after(old(self).message_history@, final(self).message_history@, *entry),
            final(self).same_connection(*old(self)),
            final(self).subscriptions@ == old(self).subscriptions@,
            final(self).services@ == old(self).services@,
            final(self).sound_enabled == old(self).sound_enabled,
    {
        let total = String::from_str("__total__");
        proof {
            lemma_names_distinct();
        }
        self.rates.bump(&entry.topic);
        self.rates.bump(&total);
        self.total_received = self.total_received + 1;
        let ghost h = self.message_history@;
        self.message_history.push_back(entry.clone());
        if self.message_history.len() > HISTORY_LIMIT {
            self.message_history.pop_front();
            assert(self.message_history@.drop_last() =~= h.drop_first());
        } else {
            assert(self.message_history@.drop_last() =~= h);
        }
    }

    /// Ends the current second of every tracker.
    pub fn tick(&mut self)
        ensures
            final(self).rates@ == old(self).rates@.map_values(|v: RateView| v.committed()),
            final(self).total_received == old(self).total_received,
            final(self).message_history@ == old(self).message_history@,
            final(self).services@ == old(self).services@,
            final(self).same_connection(*old(self)),
            final(self).subscriptions@ == old(self).subscriptions@,
            final(self).sound_enabled == old(self).sound_enabled,
    {
        self.rates.commit_all();
    }

    /// Starts authenticating with `token`, which is kept for reconnects.
    pub fn auth(&mut self, token: &str) -> (r: ClientCmd)
        ensures
            final(self).token@ == token@,
            final(self).pending_auth,
            r matches ClientCmd::Auth { token: t } && t@ == token@,
            final(self).connection_state == old(self).connection_state,
            final(self).ws_url == old(self).ws_url,
            final(self).reconnect_attempt == old(self).reconnect_attempt,
            final(self).same_data(*old(self)),
            final(self).subscriptions@ == old(self).subscriptions@,
            final(self).sound_enabled == old(self).sound_enabled,
    {
        self.token = String::from_str(token);
        let cmd = ClientCmd::Auth { token: String::from_str(token) };
        self.pending_auth = true;
        cmd
    }

    /// Flips the subscription to `topic`: the command to send, and whether
    /// the topic is subscribed afterwards.
    pub fn toggle_topic(&mut self, topic: &str) -> (r: (ClientCmd, bool))
        ensures
            r.1 == !old(self).subscriptions@.contains(topic@),
            r.1 ==> final(self).subscriptions@ == old(self).subscriptions@.insert(topic@)
                && (r.0 matches ClientCmd::Subscribe { topic: t } && t@ == topic@),
            !r.1 ==> final(self).subscriptions@ == old(self).subscriptions@.remove(topic@)
                && (r.0 matches ClientCmd::Unsubscribe { topic: t } && t@ == topic@),
            final(self).same_connection(*old(self)),
            final(self).same_data(*old(self)),
            final(self).sound_enabled == old(self).sound_enabled,
    {
        let subscribed = self.subscriptions.contains(topic);
        if subscribed {
            let cmd = ClientCmd::Unsubscribe { topic: String::from_str(topic) };
            self.subscriptions.remove(topic);
            (cmd, false)
        } else {
            let cmd = ClientCmd::Subscribe { topic: String::from_str(topic) };
            self.subscriptions.insert(topic);
            (cmd, true)
        }
    }

    fn subscribe_if_missing(&mut self, topic: &str, cmds: &mut Vec<ClientCmd>)
        ensures
            final(self).subscriptions@ == old(self).subscriptions@.insert(topic@),
            final(cmds)@ == old(cmds)@ + (if old(self).subscriptions@.contains(topic@) {
                Seq::<ClientCmd>::empty()
            } else {
                seq![ClientCmd::Subscribe { topic: final(cmds)@.last()->Subscribe_topic }]
            }),
            !old(self).subscriptions@.contains(topic@) ==> final(cmds)@.last()->Subscribe_topic@ == topic@,
            final(self).same_connection(*old(self)),
            final(self).same_data(*old(self)),
            final(self).sound_enabled == old(self).sound_enabled,
    {
        if !self.subscriptions.contains(topic) {
            cmds.push(ClientCmd::Subscribe { topic: String::from_str(topic) });
            self.subscriptions.insert(topic);
        } else {
            assert(old(self).subscriptions@.insert(topic@) =~= old(self).subscriptions@);
            assert(cmds@ =~= old(cmds)@ + Seq::<ClientCmd>::empty());
        }
    }

    /// Subscribes to every topic not yet subscribed; the commands to send.
    pub fn subscribe_all(&mut self) -> (r: Vec<ClientCmd>)
        ensures
            subscribes_to(r@, missing_topics(old(self).subscriptions@)),
            final(self).subscriptions@ == old(self).subscriptions@ + topic_names().to_set(),
            final(self).same_connection(*old(self)),
            final(self).same_data(*old(self)),
            final(self).sound_enabled == old(self).sound_enabled,
    {
        let mut cmds: Vec<ClientCmd> = Vec::new();
        let ghost s0 = self.subscriptions@;
        self.subscribe_if_missing("liquid", &mut cmds);
        let ghost c1 = cmds@;
        self.subscribe_if_missing("solid", &mut cmds);
        let ghost c2 = cmds@;
        self.subscribe_if_missing("gas", &mut cmds);
        let ghost c3 = cmds@;
        self.subscribe_if_missing("critical", &mut cmds);
        proof {
            lemma_names_distinct();
            let m = missing_topics(s0);
            assert(self.subscriptions@ =~= s0 + topic_names().to_set()) by {
                assert(topic_names()[0] == "liquid"@);
                assert(topic_names()[1] == "solid"@);
                assert(topic_names()[2] == "gas"@);
                assert(topic_names()[3] == "critical"@);
                assert forall|t: Seq<char>| topic_names().to_set().contains(t) implies
                    t == "liquid"@ || t == "solid"@ || t == "gas"@ || t == "critical"@ by {
                    let i = choose|i: int| 0 <= i < topic_names().len() && topic_names()[i] == t;
                }
            }
            assert(cmds@.len() == m.len());
            assert forall|i: int| 0 <= i < cmds@.len() implies (#[trigger] cmds@[i] matches ClientCmd::Subscribe {
                topic,
            } && topic@ == m[i]) by {
                let a = if s0.contains("liquid"@) { 0int } else { 1int };
                let b = if s0.contains("solid"@) { 0int } else { 1int };
                let c = if s0.contains("gas"@) { 0int } else { 1int };
                assert(c1.len() == a && c2.len() == a + b && c3.len() == a + b + c);
                if i < a {
                    assert(cmds@[i] == c1[i]);
                } else if i < a + b {
                    assert(cmds@[i] == c2[i]);
                } else if i < a + b + c {
                    assert(cmds@[i] == c3[i]);
                }
            }
        }
        cmds
    }

    /// Drops every subscription; the command to send.
    pub fn unsubscribe_all(&mut self) -> (r: ClientCmd)
        ensures
            r == ClientCmd::UnsubscribeAll,
            final(self).subscriptions@ == Set::<Seq<char>>::empty(),
            final(self).same_connection(*old(self)),
            final(self).same_data(*old(self)),
            final(self).sound_enabled == old(self).sound_enabled,
    {
        self.subscriptions.clear();
        ClientCmd::UnsubscribeAll
    }

    /// Forgets the message history.
    pub fn clear_history(&mut self)
        ensures
            final(self).message_history@ == Seq::<HistoryEntry>::empty(),
            final(self).total_received == old(self).total_received,
            final(self).rates@ == old(self).rates@,
            final(self).services@ == old(self).services@,
            final(self).same_connection(*old(self)),
            final(self).subscriptions@ == old(self).subscriptions@,
            final(self).sound_enabled == old(self).sound_enabled,
    {
        self.message_history.clear();
    }

    /// Switches the alert sound on or off; whether it is on afterwards.
    pub fn toggle_sound(&mut self) -> (r: bool)
        ensures
            r == !old(self).sound_enabled,
            final(self).sound_enabled == r,
            final(self).same_connection(*old(self)),
            final(self).same_data(*old(self)),
            final(self).subscriptions@ == old(self).subscriptions@,
    {
        self.sound_enabled = !self.sound_enabled;
        self.sound_enabled
    }
}

} // verus!
