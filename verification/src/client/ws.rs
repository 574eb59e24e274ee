//! What the client does on each connection event and on each message from
//! the server: changes to its state, and the effects for the page.
use vstd::prelude::*;
use vstd::string::*;
use crate::client::dom::{
    disable_main_ui, enable_main_ui, ops_view, set_btn, set_status, status_ops, topic_buttons_ops,
    update_status_from_state, update_topic_buttons, btn_op, disable_ops, enable_ops, DomOp, DomOpV,
};
use crate::client::protocol::{ClientCmd, ServerMsg, ShitPayload};
use crate::client::state::{
    bump, history_after, is_text, state_class, state_icon, state_label, total_key, AppState,
    ConnectionState, HistoryEntry,
};
use crate::text::{dec_str, push_u64};
use crate::worker::pow2;

verus! {

/// The close code of a normal closure, after which the client does not reconnect.
pub const NORMAL_CLOSE: u16 = 1000;

/// Milliseconds between a reconnect and the automatic `Auth`.
pub const REAUTH_DELAY_MS: u32 = 800;

/// Milliseconds a notice stays visible.
pub const TOAST_MS: u32 = 4000;

/// Milliseconds between two ticks of the page.
pub const TICK_MS: u32 = 1000;

/// One effect on the page.
#[derive(Debug, PartialEq, Eq)]
pub enum UiEffect {
    /// Append a line to the log, styled with `class`.
    Log { text: String, class: String },
    /// Change the page.
    Dom(DomOp),
    /// Pop up a notice.
    Toast { text: String },
    /// Play the alert for a critical message.
    BeepCritical,
    /// Render the registry panel anew from the state's services.
    RefreshServices,
}

/// The contents of a page effect.
pub enum UiEffectV {
    Log { text: Seq<char>, class: Seq<char> },
    Dom(DomOpV),
    Toast { text: Seq<char> },
    BeepCritical,
    RefreshServices,
}

impl View for UiEffect {
    type V = UiEffectV;

    open spec fn view(&self) -> UiEffectV {
        match self {
            UiEffect::Log { text, class } => UiEffectV::Log { text: text@, class: class@ },
            UiEffect::Dom(op) => UiEffectV::Dom(op@),
            UiEffect::Toast { text } => UiEffectV::Toast { text: text@ },
            UiEffect::BeepCritical => UiEffectV::BeepCritical,
            UiEffect::RefreshServices => UiEffectV::RefreshServices,
        }
    }
}

/// The contents of a list of page effects.
pub open spec fn effects_view(s: Seq<UiEffect>) -> Seq<UiEffectV> {
    s.map_values(|e: UiEffect| e@)
}

/// Page operations as effects.
pub open spec fn dom_effects(ops: Seq<DomOpV>) -> Seq<UiEffectV> {
    ops.map_values(|o: DomOpV| UiEffectV::Dom(o))
}

pub open spec fn log_effect(text: Seq<char>, class: Seq<char>) -> UiEffectV {
    UiEffectV::Log { text, class }
}

/// The status bar for a connection state, as effects.
pub open spec fn status_effects(s: ConnectionState) -> Seq<UiEffectV> {
    dom_effects(status_ops(state_icon(s), state_label(s), state_class(s)))
}

proof fn lemma_effects_push(s: Seq<UiEffect>, e: UiEffect)
    ensures
        effects_view(s.push(e)) == effects_view(s).push(e@),
{
    assert(effects_view(s.push(e)) =~= effects_view(s).push(e@));
}

proof fn lemma_dom_effects_push(s: Seq<DomOp>, o: DomOp)
    ensures
        dom_effects(ops_view(s.push(o))) == dom_effects(ops_view(s)).push(UiEffectV::Dom(o@)),
{
    assert(ops_view(s.push(o)) =~= ops_view(s).push(o@));
    assert(dom_effects(ops_view(s.push(o))) =~= dom_effects(ops_view(s)).push(UiEffectV::Dom(o@)));
}

fn push_ops(effects: &mut Vec<UiEffect>, ops: Vec<DomOp>)
    ensures
        effects_view(final(effects)@) == effects_view(old(effects)@) + dom_effects(ops_view(ops@)),
{
    let mut ops = ops;
    let ghost all = ops@;
    let ghost start = effects@;
    let total = ops.len();
    let mut k: usize = 0;
    while ops.len() > 0
        invariant
            k + ops@.len() == all.len(),
            all.len() == total,
            ops@ == all.subrange(k as int, all.len() as int),
            effects_view(effects@) == effects_view(start) + dom_effects(ops_view(all.take(k as int))),
        decreases ops@.len(),
    {
        let op = ops.remove(0);
        let ghost before = effects@;
        proof {
            assert(op == all[k as int]);
            assert(all.take(k + 1) =~= all.take(k as int).push(op));
            lemma_dom_effects_push(all.take(k as int), op);
            lemma_effects_push(before, UiEffect::Dom(op));
        }
        effects.push(UiEffect::Dom(op));
        k += 1;
        proof {
            assert(ops@ =~= all.subrange(k as int, all.len() as int));
        }
    }
    assert(all.take(k as int) =~= all);
}

fn push_log(effects: &mut Vec<UiEffect>, text: String, class: &str)
    ensures
        effects_view(final(effects)@) == effects_view(old(effects)@).push(log_effect(text@, class@)),
{
    effects.push(UiEffect::Log { text, class: String::from_str(class) });
    assert(effects_view(effects@) =~= effects_view(old(effects)@).push(log_effect(text@, class@)));
}

/// The reconnect delay in milliseconds after `attempt` failed connections:
/// `2^min(attempt, 6)` seconds, at most 60 seconds.
pub open spec fn reconnect_delay_ms(attempt: nat) -> nat {
    let e = if attempt < 6 { attempt } else { 6 };
    if pow2(e) * 1000 < 60_000 { pow2(e) * 1000 } else { 60_000 }
}

/// The log line of a broadcast message:
/// `"[#{seq}] {payload}{ [tags]} ← {service}"`.
pub open spec fn shit_log_text(p: ShitPayload) -> Seq<char> {
    "[#"@ + dec_str(p.seq as nat) + "] "@ + p.payload@ + tags_text(p.tags@) + " ← "@ + p.service_id@
}

/// `" [a,b,c]"`, or nothing without tags.
pub open spec fn tags_text(tags: Seq<String>) -> Seq<char> {
    if tags.len() == 0 {
        Seq::empty()
    } else {
        " ["@ + join_comma(tags, tags.len()) + "]"@
    }
}

/// The first `n` tags joined by commas.
pub open spec fn join_comma(tags: Seq<String>, n: nat) -> Seq<char>
    decreases n,
{
    if n == 0 {
        Seq::empty()
    } else if n == 1 {
        tags[0]@
    } else {
        join_comma(tags, (n - 1) as nat) + ","@ + tags[n - 1]@
    }
}

/// The log style of a message of `topic`; critical messages are styled
/// critical whatever their topic.
pub open spec fn shit_log_class(critical: bool, topic: Seq<char>) -> Seq<char> {
    if critical {
        "msg-critical"@
    } else if topic == "liquid"@ {
        "msg-liquid"@
    } else if topic == "solid"@ {
        "msg-solid"@
    } else if topic == "gas"@ {
        "msg-gas"@
    } else if topic == "critical"@ {
        "msg-critical"@
    } else {
        "msg-server"@
    }
}

/// The effects of a broadcast message.
pub open spec fn shit_effects(p: ShitPayload, sound: bool) -> Seq<UiEffectV> {
    let critical = p.priority@ == "critical"@;
    seq![log_effect(shit_log_text(p), shit_log_class(critical, p.topic@))] + if critical {
        seq![UiEffectV::Toast { text: "🚨 "@ + p.payload@ }] + if sound {
            seq![UiEffectV::BeepCritical]
        } else {
            Seq::<UiEffectV>::empty()
        }
    } else {
        Seq::<UiEffectV>::empty()
    }
}

/// Whether a character has the Unicode `White_Space` property, as
/// `char::is_whitespace` decides.
pub open spec fn white_space(c: char) -> bool {
    ||| ('\u{9}' <= c && c <= '\u{d}')
    ||| c == ' '
    ||| c == '\u{85}'
    ||| c == '\u{a0}'
    ||| c == '\u{1680}'
    ||| ('\u{2000}' <= c && c <= '\u{200a}')
    ||| c == '\u{2028}'
    ||| c == '\u{2029}'
    ||| c == '\u{202f}'
    ||| c == '\u{205f}'
    ||| c == '\u{3000}'
}

/// Whether a character is Unicode white space.
pub fn is_white_space(c: char) -> (r: bool)
    ensures
        r == white_space(c),
{
    ('\u{9}' <= c && c <= '\u{d}') || c == ' ' || c == '\u{85}' || c == '\u{a0}' || c == '\u{1680}'
        || ('\u{2000}' <= c && c <= '\u{200a}') || c == '\u{2028}' || c == '\u{2029}' || c == '\u{202f}'
        || c == '\u{205f}' || c == '\u{3000}'
}

/// Whether a text is empty once trimmed (`text.trim().is_empty()`).
pub fn is_blank(text: &str) -> (r: bool)
    ensures
        r == forall|i: int| 0 <= i < text@.len() ==> white_space(#[trigger] text@[i]),
{
    let n = text.unicode_len();
    let mut i: usize = 0;
    while i < n
        invariant
            n == text@.len(),
            i <= n,
            forall|j: int| 0 <= j < i ==> white_space(#[trigger] text@[j]),
        decreases n - i,
    {
        if !is_white_space(text.get_char(i)) {
            return false;
        }
        i += 1;
    }
    true
}

/// What the echo box sends: nothing for a blank text; otherwise the log
/// line of the user's text and the `Echo` command.
pub fn send_echo(text: &str) -> (r: Option<(UiEffect, ClientCmd)>)
    ensures
        match r {
            None => forall|i: int| 0 <= i < text@.len() ==> white_space(#[trigger] text@[i]),
            Some((log, cmd)) => {
                &&& exists|i: int| 0 <= i < text@.len() && !white_space(#[trigger] text@[i])
                &&& log@ == log_effect("➡️  ты: "@ + text@, "msg-client"@)
                &&& cmd matches ClientCmd::Echo { text: t } && t@ == text@
            },
        },
{
    if is_blank(text) {
        return None;
    }
    let mut line = String::from_str("➡️  ты: ");
    line.append(text);
    Some((UiEffect::Log { text: line, class: String::from_str("msg-client") }, ClientCmd::Echo { text: String::from_str(text) }))
}

fn shit_class(critical: bool, topic: &String) -> (r: &'static str)
    ensures
        r@ == shit_log_class(critical, topic@),
{
    if critical {
        "msg-critical"
    } else if is_text(topic, "liquid") {
        "msg-liquid"
    } else if is_text(topic, "solid") {
        "msg-solid"
    } else if is_text(topic, "gas") {
        "msg-gas"
    } else if is_text(topic, "critical") {
        "msg-critical"
    } else {
        "msg-server"
    }
}

fn push_tags(out: &mut String, tags: &Vec<String>)
    ensures
        final(out)@ == old(out)@ + tags_text(tags@),
{
    if tags.len() == 0 {
        return;
    }
    out.append(" [");
    let ghost start = out@;
    for i in 0..tags.len()
        invariant
            out@ == start + join_comma(tags@, i as nat),
    {
        if i > 0 {
            out.append(",");
        }
        out.append(tags[i].as_str());
        assert(out@ =~= start + join_comma(tags@, (i + 1) as nat));
    }
    out.append("]");
}

/// Renders the log line of a broadcast message.
pub fn shit_log_line(p: &ShitPayload) -> (r: String)
    ensures
        r@ == shit_log_text(*p),
{
    let mut s = String::from_str("[#");
    push_u64(&mut s, p.seq);
    s.append("] ");
    s.append(p.payload.as_str());
    push_tags(&mut s, &p.tags);
    s.append(" ← ");
    s.append(p.service_id.as_str());
    s
}

/// The socket could not be created (`err` is the browser's error): an error
/// line in the log and the error status.
pub fn connect_failed(err: &str) -> (r: Vec<UiEffect>)
    ensures
        effects_view(r@) == seq![log_effect("❌ Не могу создать WS: "@ + err@, "msg-error"@)] + dom_effects(
            status_ops("🔴"@, "ошибка"@, "status-error"@),
        ),
{
    let mut r: Vec<UiEffect> = Vec::new();
    let mut line = String::from_str("❌ Не могу создать WS: ");
    line.append(err);
    push_log(&mut r, line, "msg-error");
    push_ops(&mut r, set_status("🔴", "ошибка", "status-error"));
    r
}

/// A server message that could not be read (`err` says why): an error line
/// in the log, and nothing else.
pub fn unknown_message(err: &str) -> (r: Vec<UiEffect>)
    ensures
        effects_view(r@) == seq![log_effect("⚠️ Неизвестное сообщение: "@ + err@, "msg-error"@)],
{
    let mut r: Vec<UiEffect> = Vec::new();
    let mut line = String::from_str("⚠️ Неизвестное сообщение: ");
    line.append(err);
    push_log(&mut r, line, "msg-error");
    assert(effects_view(r@) =~= seq![log_effect("⚠️ Неизвестное сообщение: "@ + err@, "msg-error"@)]);
    r
}

impl AppState {
    /// A connection to `url` is being opened.
    pub fn begin_connect(&mut self, url: &str) -> (r: Vec<UiEffect>)
        ensures
            final(self).connection_state matches ConnectionState::Connecting { url: u } && u@ == url@,
            final(self).ws_url@ == url@,
            final(self).reconnect_attempt == old(self).reconnect_attempt,
            final(self).token == old(self).token,
            final(self).pending_auth == old(self).pending_auth,
            final(self).same_data(*old(self)),
            final(self).subscriptions@ == old(self).subscriptions@,
            final(self).sound_enabled == old(self).sound_enabled,
            effects_view(r@) == status_effects(final(self).connection_state),
    {
        self.connection_state = ConnectionState::Connecting { url: String::from_str(url) };
        self.ws_url = String::from_str(url);
        let mut r: Vec<UiEffect> = Vec::new();
        push_ops(&mut r, update_status_from_state(&self.connection_state));
        r
    }

    /// The connection opened: the server's authentication challenge comes next.
    pub fn on_open(&mut self) -> (r: Vec<UiEffect>)
        ensures
            *final(self) == (AppState {
                connection_state: ConnectionState::Authenticating,
                reconnect_attempt: 0,
                ..*old(self)
            }),
            effects_view(r@) == status_effects(ConnectionState::Authenticating).push(
                log_effect("🔗 Соединение установлено, ждём auth challenge..."@, "msg-system"@),
            ),
    {
        self.connection_state = ConnectionState::Authenticating;
        self.reconnect_attempt = 0;
        let mut r: Vec<UiEffect> = Vec::new();
        push_ops(&mut r, update_status_from_state(&self.connection_state));
        push_log(&mut r, String::from_str("🔗 Соединение установлено, ждём auth challenge..."), "msg-system");
        r
    }

    /// The connection reported an error `msg`.
    pub fn on_error(&self, msg: &str) -> (r: Vec<UiEffect>)
        ensures
            effects_view(r@) == seq![log_effect("❌ WS ошибка: "@ + msg@, "msg-error"@)] + dom_effects(
                status_ops("🔴"@, "ошибка"@, "status-error"@),
            ),
    {
        let mut r: Vec<UiEffect> = Vec::new();
        let mut line = String::from_str("❌ WS ошибка: ");
        line.append(msg);
        push_log(&mut r, line, "msg-error");
        push_ops(&mut r, set_status("🔴", "ошибка", "status-error"));
        r
    }

    /// The connection closed with `code`: the page returns to the
    /// authentication view, subscriptions are dropped, and every close but a
    /// normal one (code 1000) is followed by a reconnect (the boolean).
    pub fn on_close(&mut self, code: u16) -> (r: (Vec<UiEffect>, bool))
        ensures
            final(self).connection_state == ConnectionState::Disconnected,
            final(self).subscriptions@ == Set::<Seq<char>>::empty(),
            final(self).reconnect_attempt == old(self).reconnect_attempt,
            final(self).token == old(self).token,
            final(self).ws_url == old(self).ws_url,
            final(self).pending_auth == old(self).pending_auth,
            final(self).same_data(*old(self)),
            final(self).sound_enabled == old(self).sound_enabled,
            r.1 == (code != NORMAL_CLOSE),
            effects_view(r.0@) == seq![log_effect("🚪 Отключено (code="@ + dec_str(code as nat) + ")"@, "msg-system"@)]
                + dom_effects(disable_ops()) + status_effects(ConnectionState::Disconnected)
                + dom_effects(topic_buttons_ops(Set::<Seq<char>>::empty())),
    {
        let mut r: Vec<UiEffect> = Vec::new();
        let mut line = String::from_str("🚪 Отключено (code=");
        push_u64(&mut line, code as u64);
        line.append(")");
        push_log(&mut r, line, "msg-system");
        push_ops(&mut r, disable_main_ui());
        self.connection_state = ConnectionState::Disconnected;
        self.subscriptions.clear();
        push_ops(&mut r, update_status_from_state(&self.connection_state));
        push_ops(&mut r, update_topic_buttons(&self.subscriptions));
        (r, code != NORMAL_CLOSE)
    }

    /// Plans the next reconnect: one more attempt, and the delay in
    /// milliseconds after which to connect again.
    pub fn schedule_reconnect(&mut self) -> (r: (Vec<UiEffect>, u64))
        requires
            old(self).reconnect_attempt < u32::MAX,
        ensures
            final(self).reconnect_attempt == old(self).reconnect_attempt + 1,
            r.1 == reconnect_delay_ms(final(self).reconnect_attempt as nat),
            final(self).connection_state == (ConnectionState::Reconnecting {
                attempt: final(self).reconnect_attempt,
                delay_secs: r.1 / 1000,
            }),
            final(self).token == old(self).token,
            final(self).ws_url == old(self).ws_url,
            final(self).pending_auth == old(self).pending_auth,
            final(self).same_data(*old(self)),
            final(self).subscriptions@ == old(self).subscriptions@,
            final(self).sound_enabled == old(self).sound_enabled,
            effects_view(r.0@) == status_effects(final(self).connection_state).push(
                log_effect(
                    "🔁 Переподключение через "@ + dec_str((r.1 / 1000) as nat) + "s (попытка "@ + dec_str(
                        final(self).reconnect_attempt as nat,
                    ) + ")..."@,
                    "msg-system"@,
                ),
            ),
    {
        self.reconnect_attempt = self.reconnect_attempt + 1;
        let attempt = self.reconnect_attempt;
        proof {
            reveal_with_fuel(pow2, 7);
        }
        let base: u64 = if attempt <= 1 { 2 }
            else if attempt == 2 { 4 }
            else if attempt == 3 { 8 }
            else if attempt == 4 { 16 }
            else if attempt == 5 { 32 }
            else { 64 };
        let delay_ms: u64 = if base * 1000 < 60_000 { base * 1000 } else { 60_000 };
        let delay_secs = delay_ms / 1000;
        self.connection_state = ConnectionState::Reconnecting { attempt, delay_secs };
        let mut r: Vec<UiEffect> = Vec::new();
        push_ops(&mut r, update_status_from_state(&self.connection_state));
        let mut line = String::from_str("🔁 Переподключение через ");
        push_u64(&mut line, delay_secs);
        line.append("s (попытка ");
        push_u64(&mut line, attempt as u64);
        line.append(")...");
        push_log(&mut r, line, "msg-system");
        (r, delay_ms)
    }

    /// The command sent again after a reconnect: `Auth` with the kept token,
    /// if there is one.
    pub fn reconnect_auth(&self) -> (r: Option<ClientCmd>)
        ensures
            match r {
                Some(cmd) => self.token@.len() > 0 && (cmd matches ClientCmd::Auth { token } && token@
                    == self.token@),
                None => self.token@.len() == 0,
            },
    {
        if self.token.as_str().is_empty() {
            None
        } else {
            Some(ClientCmd::Auth { token: self.token.clone() })
        }
    }

    /// The user closed the connection.
    pub fn disconnect(&mut self) -> (r: Vec<UiEffect>)
        ensures
            *final(self) == (AppState { connection_state: ConnectionState::Disconnected, ..*old(self) }),
            effects_view(r@) == dom_effects(status_ops("🔴"@, "отключено"@, "status-error"@)),
    {
        self.connection_state = ConnectionState::Disconnected;
        let mut r: Vec<UiEffect> = Vec::new();
        push_ops(&mut r, set_status("🔴", "отключено", "status-error"));
        r
    }

    /// A broadcast message arrived: it is recorded, logged, and a critical
    /// one also pops up a notice and, with sound on, the alert.
    pub fn handle_shit_message(&mut self, payload: ShitPayload) -> (r: Vec<UiEffect>)
        requires
            old(self).can_record(payload.topic@),
        ensures
            final(self).rates@ == bump(bump(old(self).rates@, payload.topic@), total_key()),
            final(self).total_received == old(self).total_received + 1,
            history_after(old(self).message_history@, final(self).message_history@, payload.to_entry()),
            final(self).same_connection(*old(self)),
            final(self).subscriptions@ == old(self).subscriptions@,
            final(self).services@ == old(self).services@,
            final(self).sound_enabled == old(self).sound_enabled,
            effects_view(r@) == shit_effects(payload, old(self).sound_enabled),
    {
        let is_critical = is_text(&payload.priority, "critical");
        let entry = payload.to_history_entry();
        self.record_message(&entry);
        let mut r: Vec<UiEffect> = Vec::new();
        let class = shit_class(is_critical, &payload.topic);
        push_log(&mut r, shit_log_line(&payload), class);
        let ghost first = effects_view(r@);
        if is_critical {
            let mut toast = String::from_str("🚨 ");
            toast.append(payload.payload.as_str());
            let ghost r0 = r@;
            r.push(UiEffect::Toast { text: toast });
            proof {
                lemma_effects_push(r0, UiEffect::Toast { text: toast });
            }
            if self.sound_enabled {
                let ghost r1 = r@;
                r.push(UiEffect::BeepCritical);
                proof {
                    lemma_effects_push(r1, UiEffect::BeepCritical);
                }
            }
        }
        assert(effects_view(r@) =~= shit_effects(payload, old(self).sound_enabled));
        r
    }
}

impl AppState {
    /// Handles a message from the server.
    pub fn dispatch_message(&mut self, msg: ServerMsg) -> (r: Vec<UiEffect>)
        requires
            msg matches ServerMsg::Shit(p) ==> old(self).can_record(p.topic@),
        ensures
            match msg {
                ServerMsg::AuthRequired { msg: m } => *final(self) == *old(self)
                    && effects_view(r@) == seq![log_effect(m@, "msg-system"@)],
                ServerMsg::Authorized { puk, session_id } => {
                    &&& *final(self) == (AppState {
                        connection_state: ConnectionState::Connected { session_id },
                        pending_auth: false,
                        ..*old(self)
                    })
                    &&& effects_view(r@) == seq![log_effect(puk@, "msg-puk"@)] + status_effects(
                        ConnectionState::Connected { session_id },
                    ) + dom_effects(enable_ops(session_id@))
                },
                ServerMsg::Unauthorized { msg: m } => {
                    &&& *final(self) == (AppState { connection_state: ConnectionState::Disconnected, ..*old(self) })
                    &&& effects_view(r@) == seq![log_effect(m@, "msg-error"@)] + dom_effects(
                        status_ops("🔴"@, "отказано"@, "status-error"@),
                    ) + seq![UiEffectV::Dom(btn_op("btn-auth"@, true))]
                },
                ServerMsg::Welcome { msg: m } => *final(self) == *old(self)
                    && effects_view(r@) == seq![log_effect(m@, "msg-system"@)],
                ServerMsg::Subscribed { topic } => *final(self) == *old(self) && effects_view(r@)
                    == seq![log_effect("📬 Подписка на «"@ + topic@ + "» активна"@, "msg-system"@)]
                    + dom_effects(topic_buttons_ops(old(self).subscriptions@)),
                ServerMsg::Unsubscribed { topic } => *final(self) == *old(self) && effects_view(r@)
                    == seq![log_effect("📭 Отписались от «"@ + topic@ + "»"@, "msg-system"@)]
                    + dom_effects(topic_buttons_ops(old(self).subscriptions@)),
                ServerMsg::UnsubscribedAll => *final(self) == *old(self) && effects_view(r@)
                    == seq![log_effect("📭 Отписались от всех топиков"@, "msg-system"@)]
                    + dom_effects(topic_buttons_ops(old(self).subscriptions@)),
                ServerMsg::Shit(p) => {
                    &&& final(self).rates@ == bump(bump(old(self).rates@, p.topic@), total_key())
                    &&& final(self).total_received == old(self).total_received + 1
                    &&& history_after(old(self).message_history@, final(self).message_history@, p.to_entry())
                    &&& final(self).same_connection(*old(self))
                    &&& final(self).subscriptions@ == old(self).subscriptions@
                    &&& final(self).services@ == old(self).services@
                    &&& final(self).sound_enabled == old(self).sound_enabled
                    &&& effects_view(r@) == shit_effects(p, old(self).sound_enabled)
                },
                ServerMsg::ServiceList { services } => *final(self) == (AppState { services, ..*old(self) })
                    && effects_view(r@) == seq![UiEffectV::RefreshServices],
                ServerMsg::Echo { payload } => *final(self) == *old(self)
                    && effects_view(r@) == seq![log_effect(payload@, "msg-echo"@)],
                ServerMsg::Pong => *final(self) == *old(self)
                    && effects_view(r@) == seq![log_effect("🏓 pong"@, "msg-system"@)],
                ServerMsg::Error { msg: m } => *final(self) == *old(self)
                    && effects_view(r@) == seq![log_effect("❌ Ошибка сервера: "@ + m@, "msg-error"@)],
            },
    {
        let mut r: Vec<UiEffect> = Vec::new();
        match msg {
            ServerMsg::AuthRequired { msg } => {
                push_log(&mut r, msg, "msg-system");
            },
            ServerMsg::Authorized { puk, session_id } => {
                push_log(&mut r, puk, "msg-puk");
                let sid = session_id.clone();
                self.connection_state = ConnectionState::Connected { session_id };
                self.pending_auth = false;
                push_ops(&mut r, update_status_from_state(&self.connection_state));
                push_ops(&mut r, enable_main_ui(sid.as_str()));
            },
            ServerMsg::Unauthorized { msg } => {
                push_log(&mut r, msg, "msg-error");
                push_ops(&mut r, set_status("🔴", "отказано", "status-error"));
                let ghost r0 = r@;
                let op = set_btn("btn-auth", true);
                r.push(UiEffect::Dom(op));
                proof {
                    lemma_effects_push(r0, UiEffect::Dom(op));
                }
                self.connection_state = ConnectionState::Disconnected;
            },
            ServerMsg::Welcome { msg } => {
                push_log(&mut r, msg, "msg-system");
            },
            ServerMsg::Subscribed { topic } => {
                let mut line = String::from_str("📬 Подписка на «");
                line.append(topic.as_str());
                line.append("» активна");
                push_log(&mut r, line, "msg-system");
                push_ops(&mut r, update_topic_buttons(&self.subscriptions));
            },
            ServerMsg::Unsubscribed { topic } => {
                let mut line = String::from_str("📭 Отписались от «");
                line.append(topic.as_str());
                line.append("»");
                push_log(&mut r, line, "msg-system");
                push_ops(&mut r, update_topic_buttons(&self.subscriptions));
            },
            ServerMsg::UnsubscribedAll => {
                push_log(&mut r, String::from_str("📭 Отписались от всех топиков"), "msg-system");
                push_ops(&mut r, update_topic_buttons(&self.subscriptions));
            },
            ServerMsg::Shit(payload) => {
                r = self.handle_shit_message(payload);
            },
            ServerMsg::ServiceList { services } => {
                self.services = services;
                let ghost r0 = r@;
                r.push(UiEffect::RefreshServices);
                proof {
                    lemma_effects_push(r0, UiEffect::RefreshServices);
                }
            },
            ServerMsg::Echo { payload } => {
                push_log(&mut r, payload, "msg-echo");
            },
            ServerMsg::Pong => {
                push_log(&mut r, String::from_str("🏓 pong"), "msg-system");
            },
            ServerMsg::Error { msg } => {
                let mut line = String::from_str("❌ Ошибка сервера: ");
                line.append(msg.as_str());
                push_log(&mut r, line, "msg-error");
            },
        }
        r
    }
}

impl ShitPayload {
    /// The history entry of this message, as `to_history_entry` builds it.
    pub open spec fn to_entry(self) -> HistoryEntry {
        HistoryEntry {
            seq: self.seq,
            topic: self.topic,
            payload: self.payload,
            priority: self.priority,
            tags: self.tags,
            producer_id: self.producer_id,
            service_id: self.service_id,
            ts_ms: self.ts_ms,
        }
    }
}

} // verus!
