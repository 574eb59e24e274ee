//! The page updates the client decides on. Each operation names an element
//! by id; the page applies it when that element exists and skips it
//! otherwise.
use vstd::prelude::*;
use vstd::string::*;
use crate::client::protocol::ServiceInfo;
use crate::client::state::{is_text, state_class, state_icon, state_label, ConnectionState, Subscriptions};
use crate::text::{dec_str, pad2_str, push_pad2, push_u64};

verus! {

/// One change to the page.
#[derive(Debug, PartialEq, Eq)]
pub enum DomOp {
    /// Replace the element's class list.
    SetClass { id: String, class: String },
    /// Replace the element's text content.
    SetText { id: String, text: String },
    /// Set an attribute.
    SetAttr { id: String, name: String, value: String },
    /// Remove an attribute.
    RemoveAttr { id: String, name: String },
    /// Replace the element's inner HTML.
    SetInnerHtml { id: String, html: String },
}

/// The contents of a page operation.
pub enum DomOpV {
    SetClass { id: Seq<char>, class: Seq<char> },
    SetText { id: Seq<char>, text: Seq<char> },
    SetAttr { id: Seq<char>, name: Seq<char>, value: Seq<char> },
    RemoveAttr { id: Seq<char>, name: Seq<char> },
    SetInnerHtml { id: Seq<char>, html: Seq<char> },
}

impl View for DomOp {
    type V = DomOpV;

    open spec fn view(&self) -> DomOpV {
        match self {
            DomOp::SetClass { id, class } => DomOpV::SetClass { id: id@, class: class@ },
            DomOp::SetText { id, text } => DomOpV::SetText { id: id@, text: text@ },
            DomOp::SetAttr { id, name, value } => DomOpV::SetAttr { id: id@, name: name@, value: value@ },
            DomOp::RemoveAttr { id, name } => DomOpV::RemoveAttr { id: id@, name: name@ },
            DomOp::SetInnerHtml { id, html } => DomOpV::SetInnerHtml { id: id@, html: html@ },
        }
    }
}

/// The contents of a list of page operations.
pub open spec fn ops_view(s: Seq<DomOp>) -> Seq<DomOpV> {
    s.map_values(|o: DomOp| o@)
}

pub open spec fn status_ops(icon: Seq<char>, text: Seq<char>, class: Seq<char>) -> Seq<DomOpV> {
    seq![
        DomOpV::SetClass { id: "status"@, class },
        DomOpV::SetText { id: "status"@, text: icon + " "@ + text },
    ]
}

pub open spec fn btn_op(id: Seq<char>, enabled: bool) -> DomOpV {
    if enabled {
        DomOpV::RemoveAttr { id, name: "disabled"@ }
    } else {
        DomOpV::SetAttr { id, name: "disabled"@, value: ""@ }
    }
}

pub open spec fn show_op(id: Seq<char>, visible: bool) -> DomOpV {
    DomOpV::SetAttr { id, name: "style"@, value: if visible { ""@ } else { "display:none"@ } }
}

pub open spec fn topic_button_op(subs: Set<Seq<char>>, topic: Seq<char>, btn: Seq<char>) -> DomOpV {
    if subs.contains(topic) {
        DomOpV::SetAttr { id: btn, name: "data-active"@, value: "1"@ }
    } else {
        DomOpV::RemoveAttr { id: btn, name: "data-active"@ }
    }
}

pub open spec fn topic_buttons_ops(subs: Set<Seq<char>>) -> Seq<DomOpV> {
    seq![
        topic_button_op(subs, "liquid"@, "btn-topic-liquid"@),
        topic_button_op(subs, "solid"@, "btn-topic-solid"@),
        topic_button_op(subs, "gas"@, "btn-topic-gas"@),
        topic_button_op(subs, "critical"@, "btn-topic-critical"@),
    ]
}

/// The buttons that are usable only while authenticated.
pub open spec fn main_buttons() -> Seq<Seq<char>> {
    seq![
        "btn-send"@,
        "btn-topic-liquid"@,
        "btn-topic-solid"@,
        "btn-topic-gas"@,
        "btn-topic-critical"@,
        "btn-sub-all"@,
        "btn-unsub-all"@,
        "btn-ping"@,
    ]
}

pub open spec fn buttons_ops(enabled: bool) -> Seq<DomOpV> {
    main_buttons().map_values(|id: Seq<char>| btn_op(id, enabled))
}

pub open spec fn enable_ops(session_id: Seq<char>) -> Seq<DomOpV> {
    seq![
        show_op("auth-overlay"@, false),
        show_op("main-ui"@, true),
        DomOpV::SetText { id: "session-id"@, text: session_id },
    ] + buttons_ops(true)
}

pub open spec fn disable_ops() -> Seq<DomOpV> {
    seq![show_op("auth-overlay"@, true), show_op("main-ui"@, false)] + buttons_ops(false)
}

/// The emoji of a topic name, `💩` for an unknown one.
pub open spec fn topic_emoji_of(topic: Seq<char>) -> Seq<char> {
    if topic == "liquid"@ {
        "💧"@
    } else if topic == "solid"@ {
        "🧱"@
    } else if topic == "gas"@ {
        "💨"@
    } else if topic == "critical"@ {
        "🚨"@
    } else {
        "💩"@
    }
}

/// The card of one service; `rate` is its rendered emission rate.
pub open spec fn service_card(s: ServiceInfo, rate: Seq<char>) -> Seq<char> {
    "<div class=\"service-card topic-"@ + s.topic@ + "\">\n                 <div class=\"svc-name\">"@
        + topic_emoji_of(s.topic@) + " "@ + s.service_id@
        + "</div>\n                 <div class=\"svc-meta\">"@ + s.topic@ + " · "@ + rate + " · "@
        + dec_str(s.messages_sent as nat) + " sent · v"@ + s.version@ + "</div>\n               </div>"@
}

/// The cards of the first `n` services.
pub open spec fn service_cards(services: Seq<ServiceInfo>, rates: Seq<String>, n: nat) -> Seq<char>
    decreases n,
{
    if n == 0 {
        Seq::empty()
    } else {
        service_cards(services, rates, (n - 1) as nat) + service_card(services[n - 1], rates[n - 1]@)
    }
}

/// The placeholder shown when no worker is connected.
pub open spec fn no_services_html() -> Seq<char> {
    "<p class=\"msg-system\">— нет подключённых воркеров —</p>"@
}

/// `hh:mm:ss` of a duration in seconds; the hours take as many digits as needed.
pub open spec fn clock_text(secs: nat) -> Seq<char> {
    pad2_str(secs / 3600) + ":"@ + pad2_str((secs % 3600) / 60) + ":"@ + pad2_str(secs % 60)
}

/// Shows `icon text` in the status bar, styled with `class`.
pub fn set_status(icon: &str, text: &str, class: &str) -> (r: Vec<DomOp>)
    ensures
        ops_view(r@) == status_ops(icon@, text@, class@),
{
    let mut t = String::from_str(icon);
    t.append(" ");
    t.append(text);
    let mut r: Vec<DomOp> = Vec::new();
    r.push(DomOp::SetClass { id: String::from_str("status"), class: String::from_str(class) });
    r.push(DomOp::SetText { id: String::from_str("status"), text: t });
    assert(ops_view(r@) =~= status_ops(icon@, text@, class@));
    r
}

/// Shows the connection state in the status bar.
pub fn update_status_from_state(state: &ConnectionState) -> (r: Vec<DomOp>)
    ensures
        ops_view(r@) == status_ops(state_icon(*state), state_label(*state), state_class(*state)),
{
    set_status(state.icon(), state.label(), state.css_class())
}

/// Enables or disables a button.
pub fn set_btn(id: &str, enabled: bool) -> (r: DomOp)
    ensures
        r@ == btn_op(id@, enabled),
{
    if enabled {
        DomOp::RemoveAttr { id: String::from_str(id), name: String::from_str("disabled") }
    } else {
        DomOp::SetAttr { id: String::from_str(id), name: String::from_str("disabled"), value: String::from_str("") }
    }
}

/// Shows or hides an element.
pub fn show_el(id: &str, visible: bool) -> (r: DomOp)
    ensures
        r@ == show_op(id@, visible),
{
    let style = if visible { String::from_str("") } else { String::from_str("display:none") };
    DomOp::SetAttr { id: String::from_str(id), name: String::from_str("style"), value: style }
}

/// Replaces an element's text.
pub fn set_text(id: &str, text: &str) -> (r: DomOp)
    ensures
        r@ == (DomOpV::SetText { id: id@, text: text@ }),
{
    DomOp::SetText { id: String::from_str(id), text: String::from_str(text) }
}

fn topic_button(subs: &Subscriptions, topic: &str, btn: &str) -> (r: DomOp)
    ensures
        r@ == topic_button_op(subs@, topic@, btn@),
{
    if subs.contains(topic) {
        DomOp::SetAttr { id: String::from_str(btn), name: String::from_str("data-active"), value: String::from_str("1") }
    } else {
        DomOp::RemoveAttr { id: String::from_str(btn), name: String::from_str("data-active") }
    }
}

/// Marks the buttons of the subscribed topics as active.
pub fn update_topic_buttons(subs: &Subscriptions) -> (r: Vec<DomOp>)
    ensures
        ops_view(r@) == topic_buttons_ops(subs@),
{
    let mut r: Vec<DomOp> = Vec::new();
    r.push(topic_button(subs, "liquid", "btn-topic-liquid"));
    r.push(topic_button(subs, "solid", "btn-topic-solid"));
    r.push(topic_button(subs, "gas", "btn-topic-gas"));
    r.push(topic_button(subs, "critical", "btn-topic-critical"));
    assert(ops_view(r@) =~= topic_buttons_ops(subs@));
    r
}

fn push_buttons(r: &mut Vec<DomOp>, enabled: bool)
    ensures
        ops_view(final(r)@) == ops_view(old(r)@) + buttons_ops(enabled),
{
    let ghost start = r@;
    r.push(set_btn("btn-send", enabled));
    r.push(set_btn("btn-topic-liquid", enabled));
    r.push(set_btn("btn-topic-solid", enabled));
    r.push(set_btn("btn-topic-gas", enabled));
    r.push(set_btn("btn-topic-critical", enabled));
    r.push(set_btn("btn-sub-all", enabled));
    r.push(set_btn("btn-unsub-all", enabled));
    r.push(set_btn("btn-ping", enabled));
    assert(ops_view(r@) =~= ops_view(start) + buttons_ops(enabled));
}

/// Switches the page to the authenticated view for session `session_id`.
pub fn enable_main_ui(session_id: &str) -> (r: Vec<DomOp>)
    ensures
        ops_view(r@) == enable_ops(session_id@),
{
    let mut r: Vec<DomOp> = Vec::new();
    r.push(show_el("auth-overlay", false));
    r.push(show_el("main-ui", true));
    r.push(set_text("session-id", session_id));
    push_buttons(&mut r, true);
    assert(ops_view(r@) =~= enable_ops(session_id@));
    r
}

/// Switches the page back to the authentication view.
pub fn disable_main_ui() -> (r: Vec<DomOp>)
    ensures
        ops_view(r@) == disable_ops(),
{
    let mut r: Vec<DomOp> = Vec::new();
    r.push(show_el("auth-overlay", true));
    r.push(show_el("main-ui", false));
    push_buttons(&mut r, false);
    assert(ops_view(r@) =~= disable_ops());
    r
}

fn topic_emoji_str(topic: &String) -> (r: &'static str)
    ensures
        r@ == topic_emoji_of(topic@),
{
    if is_text(topic, "liquid") {
        "💧"
    } else if is_text(topic, "solid") {
        "🧱"
    } else if is_text(topic, "gas") {
        "💨"
    } else if is_text(topic, "critical") {
        "🚨"
    } else {
        "💩"
    }
}

fn push_card(html: &mut String, svc: &ServiceInfo, rate: &String)
    ensures
        final(html)@ == old(html)@ + service_card(*svc, rate@),
{
    html.append("<div class=\"service-card topic-");
    html.append(svc.topic.as_str());
    html.append("\">\n                 <div class=\"svc-name\">");
    html.append(topic_emoji_str(&svc.topic));
    html.append(" ");
    html.append(svc.service_id.as_str());
    html.append("</div>\n                 <div class=\"svc-meta\">");
    html.append(svc.topic.as_str());
    html.append(" · ");
    html.append(rate.as_str());
    html.append(" · ");
    push_u64(html, svc.messages_sent);
    html.append(" sent · v");
    html.append(svc.version.as_str());
    html.append("</div>\n               </div>");
}

/// Renders the registry panel; `rates[i]` is the rendered emission rate of
/// `services[i]`.
pub fn update_services_panel(services: &Vec<ServiceInfo>, rates: &Vec<String>) -> (r: DomOp)
    requires
        rates@.len() == services@.len(),
    ensures
        r@ == (DomOpV::SetInnerHtml {
            id: "services-panel"@,
            html: if services@.len() == 0 {
                no_services_html()
            } else {
                service_cards(services@, rates@, services@.len())
            },
        }),
{
    if services.len() == 0 {
        return DomOp::SetInnerHtml {
            id: String::from_str("services-panel"),
            html: String::from_str("<p class=\"msg-system\">— нет подключённых воркеров —</p>"),
        };
    }
    let mut html = String::new();
    for i in 0..services.len()
        invariant
            rates@.len() == services@.len(),
            html@ == service_cards(services@, rates@, i as nat),
    {
        push_card(&mut html, &services[i], &rates[i]);
    }
    DomOp::SetInnerHtml { id: String::from_str("services-panel"), html }
}

/// Shows the number of received messages and the session's uptime.
pub fn update_session_stats(total: u64, uptime_secs: u64) -> (r: Vec<DomOp>)
    ensures
        ops_view(r@) == seq![
            DomOpV::SetText { id: "stat-total"@, text: dec_str(total as nat) },
            DomOpV::SetText { id: "stat-uptime"@, text: clock_text(uptime_secs as nat) },
        ],
{
    let mut t = String::new();
    push_u64(&mut t, total);
    let mut c = String::new();
    push_pad2(&mut c, uptime_secs / 3600);
    c.append(":");
    push_pad2(&mut c, (uptime_secs % 3600) / 60);
    c.append(":");
    push_pad2(&mut c, uptime_secs % 60);
    let mut r: Vec<DomOp> = Vec::new();
    r.push(DomOp::SetText { id: String::from_str("stat-total"), text: t });
    r.push(DomOp::SetText { id: String::from_str("stat-uptime"), text: c });
    assert(ops_view(r@) =~= seq![
        DomOpV::SetText { id: "stat-total"@, text: dec_str(total as nat) },
        DomOpV::SetText { id: "stat-uptime"@, text: clock_text(uptime_secs as nat) },
    ]);
    r
}

/// The most entries the log keeps on the page; older ones are removed first.
pub const LOG_LIMIT: u32 = 300;

/// How many of the oldest lines go when the log holds `count` lines.
pub open spec fn log_excess(count: nat) -> nat {
    if count > LOG_LIMIT { (count - LOG_LIMIT) as nat } else { 0 }
}

/// A log line stamped with the local time: `"[hh:mm:ss] text"`.
pub fn log_line(hours: u32, minutes: u32, seconds: u32, text: &str) -> (r: String)
    ensures
        r@ == "["@ + pad2_str(hours as nat) + ":"@ + pad2_str(minutes as nat) + ":"@ + pad2_str(seconds as nat)
            + "] "@ + text@,
{
    let mut s = String::from_str("[");
    push_pad2(&mut s, hours as u64);
    s.append(":");
    push_pad2(&mut s, minutes as u64);
    s.append(":");
    push_pad2(&mut s, seconds as u64);
    s.append("] ");
    s.append(text);
    s
}

/// How many of the oldest log entries to remove when the log holds `count`.
pub fn excess_log_entries(count: u32) -> (r: u32)
    ensures
        r == log_excess(count as nat),
{
    if count > LOG_LIMIT { count - LOG_LIMIT } else { 0 }
}

} // verus!
