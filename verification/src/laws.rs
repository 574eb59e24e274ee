//! Properties of the system that hold across its operations.
use vstd::prelude::*;
use crate::client::state::{
    bump, lemma_names_distinct, subscribes_to, missing_topics, seq_max, slide, state_class, topic_names, history_after, ConnectionState, HistoryEntry,
    RateView, HISTORY_LIMIT, RATE_BUCKETS,
};
use crate::client::dom::{log_excess, LOG_LIMIT};
use crate::client::ws::reconnect_delay_ms;
use crate::orchestrator::consumer::{cmd_effect, delivers};
use crate::orchestrator::ids::id_text;
use crate::orchestrator::metrics::Metrics;
use crate::orchestrator::registry::{counters_after_msgs, registry_after_msgs};
use crate::wrapping::{gauge_dec, gauge_inc};
use crate::proto::{topic_emoji, ClientCmd, Priority, ProducerMsg, ServerMsg, ServiceInfo, ShitTopic};
use crate::text::{dec_str, digit_char, hex_char, hex_digits};
use crate::worker::{backoff, emit_payload_spec, pow2};
use crate::server::ShitMetrics;

verus! {

/// The reconnect delay of a worker is 1, 2, 4, 8, 16, 32 seconds for the
/// first six attempts and 60 seconds from then on.
pub proof fn backoff_schedule(attempt: nat)
    ensures
        1 <= backoff(attempt) <= 60,
        attempt < 6 ==> backoff(attempt) == pow2(attempt),
        attempt >= 6 ==> backoff(attempt) == 60,
{
    reveal_with_fuel(pow2, 7);
}

/// A later attempt never waits less than an earlier one.
pub proof fn backoff_never_shrinks(a: nat, b: nat)
    requires
        a <= b,
    ensures
        backoff(a) <= backoff(b),
{
    reveal_with_fuel(pow2, 7);
}

/// The browser client waits exactly as long before reconnecting as a worker
/// does after the same number of failed attempts.
pub proof fn client_waits_like_worker(attempt: nat)
    ensures
        reconnect_delay_ms(attempt) == 1000 * backoff(attempt),
{
    reveal_with_fuel(pow2, 7);
}

/// A rate window that holds at most `RATE_BUCKETS` seconds keeps doing so
/// when a second ends, and always ends with the second that just ended.
pub proof fn rate_window_stays_bounded(buckets: Seq<u32>, current: u32)
    requires
        buckets.len() <= RATE_BUCKETS,
    ensures
        slide(buckets, current).len() <= RATE_BUCKETS,
        slide(buckets, current).len() == (if buckets.len() < RATE_BUCKETS { buckets.len() + 1 } else { RATE_BUCKETS as nat }),
        slide(buckets, current).last() == current,
        slide(buckets, current) == buckets.push(current).subrange(
            buckets.len() + 1 - slide(buckets, current).len(),
            (buckets.len() + 1) as int,
        ),
{
    let s = buckets.push(current);
    if s.len() > RATE_BUCKETS {
        assert(s.drop_first() =~= s.subrange(1, s.len() as int));
    } else {
        assert(s =~= s.subrange(0, s.len() as int));
    }
}

/// Every tracker counts each message once in its total, and ending a second
/// neither loses nor adds to the total.
pub proof fn tracker_total_counts_every_message(v: RateView, n: nat)
    requires
        v.has_room(n),
    ensures
        v.added(n).total == v.total + n,
        v.added(n).committed().total == v.total + n,
        v.added(n).committed().current == 0,
        v.added(n).committed().buckets.last() == v.current + n,
{
}

/// The scale of a chart is at least 1 and at least every count in its window.
pub proof fn chart_scale_covers_window(buckets: Seq<u32>)
    ensures
        ({
            let m = if seq_max(buckets) > 1 { seq_max(buckets) } else { 1 };
            &&& m >= 1
            &&& forall|i: int| 0 <= i < buckets.len() ==> buckets[i] <= m
        }),
    decreases buckets.len(),
{
    if buckets.len() > 0 {
        chart_scale_covers_window(buckets.drop_last());
        assert forall|i: int| 0 <= i < buckets.len() implies buckets[i] <= (if seq_max(buckets) > 1 {
            seq_max(buckets)
        } else {
            1
        }) by {
            if i < buckets.len() - 1 {
                assert(buckets.drop_last()[i] == buckets[i]);
            }
        }
    }
}

/// The history never holds more than `HISTORY_LIMIT` messages, and the
/// newest message is always its last entry.
pub proof fn history_stays_bounded(h: Seq<HistoryEntry>, n: Seq<HistoryEntry>, e: HistoryEntry)
    requires
        h.len() <= HISTORY_LIMIT,
        history_after(h, n, e),
    ensures
        1 <= n.len() <= HISTORY_LIMIT,
        n.last().same_as(e),
{
    assert(n.len() == n.drop_last().len() + 1);
}

/// What a consumer receives after each subscription command: a subscribed
/// topic always arrives; an unsubscribed topic arrives only as a critical
/// message once nothing is subscribed; after `unsubscribe_all` exactly the
/// critical messages arrive.
pub proof fn subscriptions_decide_delivery(
    cmd: ClientCmd,
    subs: Set<ShitTopic>,
    services: Seq<ServiceInfo>,
    new_subs: Set<ShitTopic>,
    replies: Seq<ServerMsg>,
    topic: ShitTopic,
    priority: Priority,
)
    requires
        cmd_effect(cmd, subs, services, new_subs, replies),
    ensures
        cmd matches ClientCmd::Subscribe { topic: t } ==> delivers(new_subs, t, priority),
        cmd matches ClientCmd::Unsubscribe { topic: t } ==> (delivers(new_subs, t, priority) <==> (
        new_subs == Set::<ShitTopic>::empty() && priority == Priority::Critical)),
        cmd is UnsubscribeAll ==> (delivers(new_subs, topic, priority) <==> priority == Priority::Critical),
        !(cmd is Subscribe || cmd is Unsubscribe || cmd is UnsubscribeAll) ==> new_subs == subs,
{
}

/// The per-topic counters add up to the message counter (modulo 2^64), and
/// counting a message keeps it so.
pub open spec fn totals_agree(m: Metrics) -> bool {
    m.messages_total as int == (m.liquid_total + m.solid_total + m.gas_total + m.critical_total) % 0x1_0000_0000_0000_0000
}

/// Counting a message keeps the per-topic counters in agreement with the
/// message counter.
pub proof fn topic_counters_add_up(m: Metrics, topic: ShitTopic, bytes: u64)
    requires
        totals_agree(m),
    ensures
        totals_agree(m.counted(topic, bytes)),
{
    let p: int = 0x1_0000_0000_0000_0000;
    let sum = m.liquid_total + m.solid_total + m.gas_total + m.critical_total;
    let n = m.counted(topic, bytes);
    let nsum = n.liquid_total + n.solid_total + n.gas_total + n.critical_total;
    assert(nsum == sum + 1 || nsum == sum + 1 - p);
    assert((sum + 1) % p == (sum + 1 - p) % p) by (nonlinear_arith)
        requires p == 0x1_0000_0000_0000_0000;
    assert(n.messages_total as int == (m.messages_total + 1) % p);
    assert((m.messages_total + 1) % p == ((sum % p) + 1) % p) by (nonlinear_arith)
        requires m.messages_total as int == sum % p, p == 0x1_0000_0000_0000_0000;
    assert(((sum % p) + 1) % p == (sum + 1) % p) by (nonlinear_arith)
        requires p == 0x1_0000_0000_0000_0000;
}

proof fn lemma_hex_char_injective(a: nat, b: nat)
    requires
        a < 16,
        b < 16,
        hex_char(a) == hex_char(b),
    ensures
        a == b,
{
}

proof fn lemma_hex_digits_injective(a: nat, b: nat, k: nat)
    requires
        a < pow16(k),
        b < pow16(k),
        hex_digits(a, k) == hex_digits(b, k),
    ensures
        a == b,
    decreases k,
{
    if k > 0 {
        let da = hex_digits(a / 16, (k - 1) as nat);
        let db = hex_digits(b / 16, (k - 1) as nat);
        assert(hex_digits(a, k) == da + seq![hex_char(a % 16)]);
        assert(hex_digits(b, k) == db + seq![hex_char(b % 16)]);
        lemma_hex_digits_len(a / 16, (k - 1) as nat);
        lemma_hex_digits_len(b / 16, (k - 1) as nat);
        assert(hex_digits(a, k)[k - 1] == hex_char(a % 16));
        assert(hex_digits(b, k)[k - 1] == hex_char(b % 16));
        lemma_hex_char_injective(a % 16, b % 16);
        assert(da =~= hex_digits(a, k).subrange(0, k - 1));
        assert(db =~= hex_digits(b, k).subrange(0, k - 1));
        assert(a / 16 < pow16((k - 1) as nat)) by (nonlinear_arith)
            requires a < pow16(k), pow16(k) == 16 * pow16((k - 1) as nat);
        assert(b / 16 < pow16((k - 1) as nat)) by (nonlinear_arith)
            requires b < pow16(k), pow16(k) == 16 * pow16((k - 1) as nat);
        lemma_hex_digits_injective(a / 16, b / 16, (k - 1) as nat);
        assert(a == 16 * (a / 16) + a % 16) by (nonlinear_arith);
        assert(b == 16 * (b / 16) + b % 16) by (nonlinear_arith);
    }
}

proof fn lemma_hex_digits_len(a: nat, k: nat)
    ensures
        hex_digits(a, k).len() == k,
    decreases k,
{
    if k > 0 {
        lemma_hex_digits_len(a / 16, (k - 1) as nat);
    }
}

/// `16^k`.
pub open spec fn pow16(k: nat) -> nat
    decreases k,
{
    if k == 0 { 1 } else { 16 * pow16((k - 1) as nat) }
}

/// Two different random numbers give two different identifiers, so
/// identifiers collide only when the random numbers do.
pub proof fn ids_are_distinct(a: u32, b: u32)
    requires
        a != b,
    ensures
        id_text(a as nat) != id_text(b as nat),
{
    reveal_with_fuel(pow16, 9);
    assert(pow16(8) == 0x1_0000_0000);
    if id_text(a as nat) == id_text(b as nat) {
        let p = "💩-"@;
        lemma_hex_digits_len(a as nat, 8);
        lemma_hex_digits_len(b as nat, 8);
        assert(hex_digits(a as nat, 8) =~= id_text(a as nat).subrange(p.len() as int, (p.len() + 8) as int));
        assert(hex_digits(b as nat, 8) =~= id_text(b as nat).subrange(p.len() as int, (p.len() + 8) as int));
        lemma_hex_digits_injective(a as nat, b as nat, 8);
    }
}

/// Toggling a topic twice leaves the client's subscriptions as they were.
pub proof fn toggle_twice_restores(subs: Set<Seq<char>>, topic: Seq<char>)
    ensures
        subs.contains(topic) ==> subs.remove(topic).insert(topic) == subs,
        !subs.contains(topic) ==> subs.insert(topic).remove(topic) == subs,
{
    assert(subs.contains(topic) ==> subs.remove(topic).insert(topic) =~= subs);
    assert(!subs.contains(topic) ==> subs.insert(topic).remove(topic) =~= subs);
}

/// After subscribing to everything, subscribing to everything again sends
/// no command.
pub proof fn subscribe_all_twice_sends_nothing(subs: Set<Seq<char>>)
    ensures
        missing_topics(subs + topic_names().to_set()) == Seq::<Seq<char>>::empty(),
{
    let all = subs + topic_names().to_set();
    assert(topic_names()[0] == "liquid"@);
    assert(topic_names()[1] == "solid"@);
    assert(topic_names()[2] == "gas"@);
    assert(topic_names()[3] == "critical"@);
    assert(all.contains("liquid"@));
    assert(all.contains("solid"@));
    assert(all.contains("gas"@));
    assert(all.contains("critical"@));
    assert(missing_topics(all) =~= Seq::<Seq<char>>::empty());
}

/// The status bar is green exactly while connected.
pub proof fn status_ok_iff_connected(s: ConnectionState)
    ensures
        (state_class(s) == "status-ok"@) <==> (s is Connected),
{
    reveal_strlit("status-ok");
    reveal_strlit("status-error");
    reveal_strlit("status-connecting");
    assert("status-ok"@[7] != "status-error"@[7]);
    assert("status-ok"@[7] != "status-connecting"@[7]);
}

/// A producer that registers and then disconnects leaves every other entry
/// of the registry as it was, and its own id unregistered.
pub proof fn registration_is_undone_by_close(
    registry: Map<Seq<char>, ServiceInfo>,
    id: Seq<char>,
    entry: ServiceInfo,
)
    ensures
        registry.insert(id, entry).remove(id) == registry.remove(id),
        !registry.insert(id, entry).remove(id).contains_key(id),
        !registry.contains_key(id) ==> registry.insert(id, entry).remove(id) == registry,
{
    assert(registry.insert(id, entry).remove(id) =~= registry.remove(id));
    assert(!registry.contains_key(id) ==> registry.remove(id) =~= registry);
}

/// A whole producer session is undone when it ends. Whatever messages the
/// producer sends between its registration under `id` and the end of its
/// connection, once it is deregistered its entry is gone and every other
/// entry is as it was; and the producer gauge, raised when the connection
/// opened, has its value from before the connection, on the reject path
/// (no messages) as on deregistration.
pub proof fn producer_session_is_undone(
    registry: Map<Seq<char>, ServiceInfo>,
    counters: Metrics,
    id: Seq<char>,
    entry: ServiceInfo,
    topic: ShitTopic,
    msgs: Seq<ProducerMsg>,
)
    ensures
        registry_after_msgs(registry.insert(id, entry), id, msgs).remove(id) == registry.remove(id),
        gauge_dec(
            counters_after_msgs(
                Metrics { connected_producers: gauge_inc(counters.connected_producers), ..counters },
                topic,
                msgs,
            ).connected_producers,
        ) == counters.connected_producers,
{
    let opened = Metrics { connected_producers: gauge_inc(counters.connected_producers), ..counters };
    lemma_session_keeps_others(registry.insert(id, entry), id, msgs);
    lemma_session_keeps_gauge(opened, topic, msgs);
    assert(registry.insert(id, entry).remove(id) =~= registry.remove(id));
}

proof fn lemma_session_keeps_others(
    registry: Map<Seq<char>, ServiceInfo>,
    id: Seq<char>,
    msgs: Seq<ProducerMsg>,
)
    ensures
        registry_after_msgs(registry, id, msgs).remove(id) == registry.remove(id),
    decreases msgs.len(),
{
    if msgs.len() > 0 {
        let before = registry_after_msgs(registry, id, msgs.drop_last());
        lemma_session_keeps_others(registry, id, msgs.drop_last());
        let after = registry_after_msgs(registry, id, msgs);
        assert(after.remove(id) =~= before.remove(id));
    }
}

proof fn lemma_session_keeps_gauge(counters: Metrics, topic: ShitTopic, msgs: Seq<ProducerMsg>)
    ensures
        counters_after_msgs(counters, topic, msgs).connected_producers == counters.connected_producers,
    decreases msgs.len(),
{
    if msgs.len() > 0 {
        lemma_session_keeps_gauge(counters, topic, msgs.drop_last());
    }
}

/// The page log keeps the newest lines: when a line is appended to a log of
/// `lines` and the oldest lines that `excess_log_entries` counts are
/// removed, the log holds `min(len + 1, 300)` lines, the newest ones in their
/// order, with the new line last.
pub proof fn log_keeps_newest_lines<A>(lines: Seq<A>, line: A)
    ensures
        ({
            let all = lines.push(line);
            let kept = all.skip(log_excess(all.len()) as int);
            &&& kept.len() == (if all.len() < LOG_LIMIT { all.len() } else { LOG_LIMIT as nat })
            &&& kept == all.subrange(all.len() - kept.len(), all.len() as int)
            &&& kept.last() == line
        }),
{
    let all = lines.push(line);
    let kept = all.skip(log_excess(all.len()) as int);
    assert(kept =~= all.subrange(all.len() - kept.len(), all.len() as int));
}

/// Counting a message of topic `t` on the orchestrator adds one to the
/// message total, its payload bytes to the byte total, and one to the
/// counter of `t` alone (all modulo 2^64); the other topics' counters, the
/// gauges and the authentication counters stay as they were.
pub proof fn counting_touches_only_its_topic(m: Metrics, t: ShitTopic, bytes: u64)
    ensures
        ({
            let r = m.counted(t, bytes);
            &&& r.messages_total as int == (m.messages_total as int + 1) % 0x1_0000_0000_0000_0000
            &&& r.bytes_sent as int == (m.bytes_sent as int + bytes as int) % 0x1_0000_0000_0000_0000
            &&& r.liquid_total as int == (m.liquid_total as int + (if t == ShitTopic::Liquid { 1int } else { 0 }))
                % 0x1_0000_0000_0000_0000
            &&& r.solid_total as int == (m.solid_total as int + (if t == ShitTopic::Solid { 1int } else { 0 }))
                % 0x1_0000_0000_0000_0000
            &&& r.gas_total as int == (m.gas_total as int + (if t == ShitTopic::Gas { 1int } else { 0 }))
                % 0x1_0000_0000_0000_0000
            &&& r.critical_total as int == (m.critical_total as int + (if t == ShitTopic::Critical { 1int } else { 0 }))
                % 0x1_0000_0000_0000_0000
            &&& r.connected_consumers == m.connected_consumers
            &&& r.connected_producers == m.connected_producers
            &&& r.auth_success == m.auth_success
            &&& r.auth_failures == m.auth_failures
        }),
{
}

/// Counting a message of topic `t` on the single-process server adds one to
/// the message total, its payload bytes to the byte total, and one to the
/// counter of `t` alone (all modulo 2^64); the other topics' counters and the
/// client gauge stay as they were.
pub proof fn server_counting_touches_only_its_topic(m: ShitMetrics, t: crate::server::ShitTopic, bytes: u64)
    ensures
        ({
            let r = m.counted(t, bytes);
            &&& r.messages_total as int == (m.messages_total as int + 1) % 0x1_0000_0000_0000_0000
            &&& r.bytes_sent as int == (m.bytes_sent as int + bytes as int) % 0x1_0000_0000_0000_0000
            &&& r.liquid_total as int == (m.liquid_total as int + (if t == crate::server::ShitTopic::Liquid {
                1int
            } else {
                0
            })) % 0x1_0000_0000_0000_0000
            &&& r.solid_total as int == (m.solid_total as int + (if t == crate::server::ShitTopic::Solid {
                1int
            } else {
                0
            })) % 0x1_0000_0000_0000_0000
            &&& r.gas_total as int == (m.gas_total as int + (if t == crate::server::ShitTopic::Gas {
                1int
            } else {
                0
            })) % 0x1_0000_0000_0000_0000
            &&& r.connected_assholes == m.connected_assholes
        }),
{
}

/// The place of a topic among the page's buttons.
pub open spec fn button_rank(t: Seq<char>) -> int {
    if t == "liquid"@ { 0 } else if t == "solid"@ { 1 } else if t == "gas"@ { 2 } else { 3 }
}

/// "Subscribe to all" sends one `Subscribe` for each of the four topics that
/// was not subscribed before, and for no other topic, each once, in the
/// order of the page's buttons.
pub proof fn subscribe_all_sends_what_is_missing(subs: Set<Seq<char>>, cmds: Seq<crate::client::protocol::ClientCmd>)
    requires
        subscribes_to(cmds, missing_topics(subs)),
    ensures
        forall|t: Seq<char>| #[trigger] topic_names().contains(t) ==> ((exists|i: int|
            0 <= i < cmds.len() && #[trigger] cmds[i] is Subscribe && cmds[i]->Subscribe_topic@ == t) <==> !subs.contains(t)),
        forall|i: int| 0 <= i < cmds.len() ==> (#[trigger] cmds[i] matches crate::client::protocol::ClientCmd::Subscribe { topic }
            && topic_names().contains(topic@) && !subs.contains(topic@)),
        forall|i: int, j: int| 0 <= i < j < cmds.len() ==> button_rank(#[trigger] cmds[i]->Subscribe_topic@)
            < button_rank(#[trigger] cmds[j]->Subscribe_topic@),
{
    lemma_names_distinct();
    let m = missing_topics(subs);
    assert(topic_names()[0] == "liquid"@);
    assert(topic_names()[1] == "solid"@);
    assert(topic_names()[2] == "gas"@);
    assert(topic_names()[3] == "critical"@);
    assert forall|i: int| 0 <= i < m.len() implies topic_names().contains(#[trigger] m[i]) && !subs.contains(m[i])
        && (forall|j: int| i < j < m.len() ==> button_rank(m[i]) < button_rank(#[trigger] m[j])) by {
        if m[i] == "liquid"@ {
            assert(topic_names()[0] == m[i]);
        } else if m[i] == "solid"@ {
            assert(topic_names()[1] == m[i]);
        } else if m[i] == "gas"@ {
            assert(topic_names()[2] == m[i]);
        } else {
            assert(topic_names()[3] == m[i]);
        }
    }
    assert forall|t: Seq<char>| #[trigger] topic_names().contains(t) implies ((exists|i: int|
        0 <= i < cmds.len() && #[trigger] cmds[i] is Subscribe && cmds[i]->Subscribe_topic@ == t) <==> !subs.contains(t)) by {
        let k = choose|k: int| 0 <= k < topic_names().len() && topic_names()[k] == t;
        if !subs.contains(t) {
            let a = if subs.contains("liquid"@) { 0int } else { 1int };
            let b = if subs.contains("solid"@) { 0int } else { 1int };
            let c = if subs.contains("gas"@) { 0int } else { 1int };
            let i = if k == 0 { 0 } else if k == 1 { a } else if k == 2 { a + b } else { a + b + c };
            assert(m[i] == t);
            assert(cmds[i] matches crate::client::protocol::ClientCmd::Subscribe { topic } && topic@ == m[i]);
        } else {
            assert forall|i: int| 0 <= i < cmds.len() implies !(#[trigger] cmds[i] is Subscribe && cmds[i]->Subscribe_topic@ == t) by {
                assert(cmds[i] matches crate::client::protocol::ClientCmd::Subscribe { topic } && topic@ == m[i]);
            }
        }
    }
    assert forall|i: int, j: int| 0 <= i < j < cmds.len() implies button_rank(
        #[trigger] cmds[i]->Subscribe_topic@,
    ) < button_rank(#[trigger] cmds[j]->Subscribe_topic@) by {
        assert(cmds[i] matches crate::client::protocol::ClientCmd::Subscribe { topic } && topic@ == m[i]);
        assert(cmds[j] matches crate::client::protocol::ClientCmd::Subscribe { topic } && topic@ == m[j]);
    }
    assert forall|i: int| 0 <= i < cmds.len() implies (#[trigger] cmds[i] matches crate::client::protocol::ClientCmd::Subscribe { topic }
        && topic_names().contains(topic@) && !subs.contains(topic@)) by {
        assert(cmds[i] matches crate::client::protocol::ClientCmd::Subscribe { topic } && topic@ == m[i]);
    }
}

/// How many times recording a message of `topic` counts it in the tracker
/// named `k`: once in its own topic's tracker, once in the total tracker.
pub open spec fn times_counted(k: Seq<char>, topic: Seq<char>) -> nat {
    (if k == topic { 1nat } else { 0 }) + (if k == "__total__"@ { 1nat } else { 0 })
}

/// Recording a received message counts it once in the tracker of its topic
/// and once in the total tracker, in the current second and in the running
/// total; every other tracker, and every tracker's window, is unchanged.
pub proof fn recording_counts_its_topic(m: Map<Seq<char>, RateView>, topic: Seq<char>)
    requires
        forall|k: Seq<char>| #[trigger] m.contains_key(k) ==> m[k].current + times_counted(k, topic) <= u32::MAX
            && m[k].total + times_counted(k, topic) <= u64::MAX,
    ensures
        ({
            let r = bump(bump(m, topic), "__total__"@);
            &&& r.dom() == m.dom()
            &&& forall|k: Seq<char>| #[trigger] m.contains_key(k) ==> {
                &&& r[k].current == m[k].current + times_counted(k, topic)
                &&& r[k].total == m[k].total + times_counted(k, topic)
                &&& r[k].buckets == m[k].buckets
            }
        }),
{
    let m1 = bump(m, topic);
    let r = bump(m1, "__total__"@);
    assert(r.dom() =~= m.dom());
}

/// The number that a text of decimal digits denotes.
pub open spec fn decimal_value(s: Seq<char>) -> nat
    decreases s.len(),
{
    if s.len() == 0 {
        0
    } else {
        decimal_value(s.drop_last()) * 10 + ((s.last() as int - '0' as int) as nat)
    }
}

/// Whether a text is a decimal numeral: digits only, at least one, and no
/// leading zero unless it is `0` itself.
pub open spec fn is_numeral(s: Seq<char>) -> bool {
    &&& s.len() > 0
    &&& forall|i: int| 0 <= i < s.len() ==> '0' <= #[trigger] s[i] <= '9'
    &&& (s.len() > 1 ==> s[0] != '0')
}

proof fn lemma_digit_char(d: nat)
    requires
        d < 10,
    ensures
        '0' <= digit_char(d) <= '9',
        digit_char(d) as int - '0' as int == d,
        d != 0 ==> digit_char(d) != '0',
{
}

/// The decimal rendering of a number is a numeral that reads back as that
/// number.
pub proof fn decimal_reads_back(n: nat)
    ensures
        is_numeral(dec_str(n)),
        decimal_value(dec_str(n)) == n,
    decreases n,
{
    if n < 10 {
        lemma_digit_char(n);
        assert(dec_str(n).drop_last() =~= Seq::<char>::empty());
        assert(decimal_value(Seq::<char>::empty()) == 0);
        assert(dec_str(n)[0] == digit_char(n));
    } else {
        decimal_reads_back(n / 10);
        lemma_digit_char(n % 10);
        if n / 10 < 10 {
            lemma_digit_char(n / 10);
            assert(dec_str(n / 10)[0] == digit_char(n / 10));
        } else {
            decimal_reads_back(n / 100);
            assert(n / 10 / 10 == n / 100);
            assert(dec_str(n / 10) == dec_str(n / 100) + seq![digit_char((n / 10) % 10)]);
        }
        let s = dec_str(n);
        assert(s.drop_last() =~= dec_str(n / 10));
        assert(n == (n / 10) * 10 + n % 10) by (nonlinear_arith);
        assert(s[0] == dec_str(n / 10)[0]);
        assert(s[0] != '0');
        assert forall|i: int| 0 <= i < s.len() implies '0' <= #[trigger] s[i] <= '9' by {
            if i < s.len() - 1 {
                assert(s[i] == dec_str(n / 10)[i]);
            }
        }
    }
}

/// A worker's emitted payload reads `"{emoji} {service_id} #{counter}: {phrase}"`
/// where the number after `#` is a numeral that reads back as the full
/// counter.
pub proof fn payload_shows_full_counter(
    topic: ShitTopic,
    service_id: Seq<char>,
    counter: nat,
    phrase: Seq<char>,
)
    ensures
        exists|digits: Seq<char>|
            #[trigger] is_numeral(digits) && decimal_value(digits) == counter && emit_payload_spec(
                topic,
                service_id,
                counter,
                phrase,
            ) == topic_emoji(topic) + " "@ + service_id + " #"@ + digits + ": "@ + phrase,
{
    decimal_reads_back(counter);
    assert(is_numeral(dec_str(counter)));
}

} // verus!
