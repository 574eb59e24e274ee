use govno::client::canvas::redraw_all;
use govno::client::dom::{
    disable_main_ui, enable_main_ui, excess_log_entries, log_line, set_btn, set_status, set_text, show_el,
    update_services_panel, update_session_stats, update_status_from_state, update_topic_buttons, DomOp,
};
use govno::client::filter::{log_entry_visible, visible_lowered};
use govno::client::protocol::{ClientCmd, ServerMsg, ServiceInfo, ShitPayload};
use govno::client::state::{AppState, ConnectionState, RateTracker, Subscriptions, HISTORY_LIMIT, RATE_BUCKETS};
use govno::client::ws::{connect_failed, is_blank, send_echo, shit_log_line, unknown_message, UiEffect};

fn op_text(id: &str, text: &str) -> DomOp {
    DomOp::SetText { id: id.into(), text: text.into() }
}

fn payload(seq: u64, topic: &str, priority: &str, tags: &[&str]) -> ShitPayload {
    ShitPayload {
        seq,
        topic: topic.into(),
        payload: "говно".into(),
        priority: priority.into(),
        tags: tags.iter().map(|t| t.to_string()).collect(),
        producer_id: "💩-00000001".into(),
        service_id: "liquid-shit-worker".into(),
        ts_ms: 5,
    }
}

fn log(text: &str, class: &str) -> UiEffect {
    UiEffect::Log { text: text.into(), class: class.into() }
}

#[test]
fn connection_state_presentation() {
    let states = [
        (ConnectionState::Disconnected, "отключено", "🔴", "status-error"),
        (ConnectionState::Connecting { url: "ws://x".into() }, "подключаемся...", "⏳", "status-connecting"),
        (ConnectionState::Authenticating, "авторизация...", "🔐", "status-connecting"),
        (ConnectionState::Connected { session_id: "s".into() }, "подключено", "🟢", "status-ok"),
        (ConnectionState::Reconnecting { attempt: 1, delay_secs: 2 }, "переподключение...", "🔁", "status-connecting"),
    ];
    for (s, label, icon, class) in states {
        assert_eq!(s.label(), label);
        assert_eq!(s.icon(), icon);
        assert_eq!(s.css_class(), class);
    }
}

#[test]
fn rate_tracker_window() {
    let mut t = RateTracker::new();
    assert_eq!(t.max_in_window(), 1);
    for second in 0..40u32 {
        t.add(second);
        t.commit_bucket();
        assert!(t.buckets.len() <= RATE_BUCKETS);
        assert_eq!(t.current, 0);
    }
    assert_eq!(t.buckets.len(), RATE_BUCKETS);
    assert_eq!(t.buckets.front(), Some(&10));
    assert_eq!(t.buckets.back(), Some(&39));
    assert_eq!(t.max_in_window(), 39);
    assert_eq!(t.total, (0..40u64).sum::<u64>());
    let mut z = RateTracker::default();
    z.commit_bucket();
    assert_eq!(z.max_in_window(), 1);
}

#[test]
fn subscriptions_toggle() {
    let mut s = AppState::new();
    let (cmd, on) = s.toggle_topic("gas");
    assert!(on);
    assert_eq!(cmd, ClientCmd::Subscribe { topic: "gas".into() });
    let (cmd, on) = s.toggle_topic("gas");
    assert!(!on);
    assert_eq!(cmd, ClientCmd::Unsubscribe { topic: "gas".into() });
    assert!(!s.subscriptions.contains("gas"));
    s.toggle_topic("solid");
    let cmds = s.subscribe_all();
    assert_eq!(
        cmds,
        vec![
            ClientCmd::Subscribe { topic: "liquid".into() },
            ClientCmd::Subscribe { topic: "gas".into() },
            ClientCmd::Subscribe { topic: "critical".into() },
        ]
    );
    assert!(s.subscribe_all().is_empty());
    assert_eq!(s.unsubscribe_all(), ClientCmd::UnsubscribeAll);
    assert!(!s.subscriptions.contains("liquid"));
    let mut sub = Subscriptions::new();
    sub.insert("a");
    sub.insert("a");
    sub.remove("a");
    assert!(!sub.contains("a"));
}

#[test]
fn auth_keeps_token_for_reconnect() {
    let mut s = AppState::new();
    assert_eq!(s.reconnect_auth(), None);
    assert_eq!(s.auth("говно"), ClientCmd::Auth { token: "говно".into() });
    assert!(s.pending_auth);
    assert_eq!(s.reconnect_auth(), Some(ClientCmd::Auth { token: "говно".into() }));
    assert!(s.toggle_sound());
    assert!(!s.toggle_sound());
}

#[test]
fn history_is_capped() {
    let mut s = AppState::new();
    for i in 0..(HISTORY_LIMIT as u64 + 5) {
        let e = payload(i, "liquid", "normal", &[]).to_history_entry();
        s.record_message(&e);
    }
    assert_eq!(s.message_history.len(), HISTORY_LIMIT);
    assert_eq!(s.message_history.front().unwrap().seq, 5);
    assert_eq!(s.message_history.back().unwrap().seq, HISTORY_LIMIT as u64 + 4);
    assert_eq!(s.total_received, HISTORY_LIMIT as u64 + 5);
    assert_eq!(s.rates.get("liquid").unwrap().current, HISTORY_LIMIT as u32 + 5);
    assert_eq!(s.rates.get("__total__").unwrap().current, HISTORY_LIMIT as u32 + 5);
    assert_eq!(s.rates.get("gas").unwrap().current, 0);
    assert!(s.rates.get("nope").is_none());
    s.tick();
    assert_eq!(s.rates.get("liquid").unwrap().current, 0);
    assert_eq!(s.rates.get("liquid").unwrap().buckets.back(), Some(&(HISTORY_LIMIT as u32 + 5)));
    s.clear_history();
    assert!(s.message_history.is_empty());
}

#[test]
fn shit_message_effects() {
    let p = payload(42, "gas", "normal", &["a", "b"]);
    assert_eq!(shit_log_line(&p), "[#42] говно [a,b] ← liquid-shit-worker");
    let mut s = AppState::new();
    let fx = s.handle_shit_message(p);
    assert_eq!(fx, vec![log("[#42] говно [a,b] ← liquid-shit-worker", "msg-gas")]);
    let fx = s.handle_shit_message(payload(43, "liquid", "critical", &[]));
    assert_eq!(
        fx,
        vec![log("[#43] говно ← liquid-shit-worker", "msg-critical"), UiEffect::Toast { text: "🚨 говно".into() }]
    );
    s.toggle_sound();
    let fx = s.handle_shit_message(payload(44, "weird", "critical", &[]));
    assert_eq!(fx.len(), 3);
    assert_eq!(fx[2], UiEffect::BeepCritical);
    let fx = s.handle_shit_message(payload(45, "weird", "normal", &["x"]));
    assert_eq!(fx, vec![log("[#45] говно [x] ← liquid-shit-worker", "msg-server")]);
    assert_eq!(s.total_received, 4);
}

#[test]
fn dispatch_authorized_and_unauthorized() {
    let mut s = AppState::new();
    let fx = s.dispatch_message(ServerMsg::Authorized { puk: "пук".into(), session_id: "💩-1".into() });
    assert_eq!(s.connection_state, ConnectionState::Connected { session_id: "💩-1".into() });
    assert!(!s.pending_auth);
    assert_eq!(fx[0], log("пук", "msg-puk"));
    assert_eq!(fx[1], UiEffect::Dom(DomOp::SetClass { id: "status".into(), class: "status-ok".into() }));
    assert_eq!(fx[2], UiEffect::Dom(op_text("status", "🟢 подключено")));
    assert_eq!(fx[5], UiEffect::Dom(op_text("session-id", "💩-1")));
    assert_eq!(fx.len(), 3 + 3 + 8);
    let fx = s.dispatch_message(ServerMsg::Unauthorized { msg: "нет".into() });
    assert_eq!(s.connection_state, ConnectionState::Disconnected);
    assert_eq!(
        fx,
        vec![
            log("нет", "msg-error"),
            UiEffect::Dom(DomOp::SetClass { id: "status".into(), class: "status-error".into() }),
            UiEffect::Dom(op_text("status", "🔴 отказано")),
            UiEffect::Dom(DomOp::RemoveAttr { id: "btn-auth".into(), name: "disabled".into() }),
        ]
    );
}

#[test]
fn dispatch_other_messages() {
    let mut s = AppState::new();
    assert_eq!(s.dispatch_message(ServerMsg::Pong), vec![log("🏓 pong", "msg-system")]);
    assert_eq!(s.dispatch_message(ServerMsg::Echo { payload: "эхо".into() }), vec![log("эхо", "msg-echo")]);
    assert_eq!(
        s.dispatch_message(ServerMsg::Error { msg: "x".into() }),
        vec![log("❌ Ошибка сервера: x", "msg-error")]
    );
    let fx = s.dispatch_message(ServerMsg::Subscribed { topic: "gas".into() });
    assert_eq!(fx[0], log("📬 Подписка на «gas» активна", "msg-system"));
    assert_eq!(fx.len(), 5);
    let fx = s.dispatch_message(ServerMsg::Unsubscribed { topic: "gas".into() });
    assert_eq!(fx[0], log("📭 Отписались от «gas»", "msg-system"));
    let fx = s.dispatch_message(ServerMsg::UnsubscribedAll);
    assert_eq!(fx[0], log("📭 Отписались от всех топиков", "msg-system"));
    let svc = ServiceInfo {
        assigned_id: "a".into(),
        service_id: "s".into(),
        topic: "gas".into(),
        version: "1".into(),
        interval_ms: 1000,
        description: "d".into(),
        connected_at_ms: 0,
        messages_sent: 2,
    };
    let fx = s.dispatch_message(ServerMsg::ServiceList { services: vec![svc.clone()] });
    assert_eq!(fx, vec![UiEffect::RefreshServices]);
    assert_eq!(s.services, vec![svc]);
    assert_eq!(s.dispatch_message(ServerMsg::Welcome { msg: "w".into() }), vec![log("w", "msg-system")]);
    assert_eq!(s.dispatch_message(ServerMsg::AuthRequired { msg: "a".into() }), vec![log("a", "msg-system")]);
}

#[test]
fn connection_events() {
    let mut s = AppState::new();
    let fx = s.begin_connect("ws://h/ws");
    assert_eq!(s.connection_state, ConnectionState::Connecting { url: "ws://h/ws".into() });
    assert_eq!(s.ws_url, "ws://h/ws");
    assert_eq!(fx[1], UiEffect::Dom(op_text("status", "⏳ подключаемся...")));
    s.reconnect_attempt = 3;
    let fx = s.on_open();
    assert_eq!(s.connection_state, ConnectionState::Authenticating);
    assert_eq!(s.reconnect_attempt, 0);
    assert_eq!(fx[2], log("🔗 Соединение установлено, ждём auth challenge...", "msg-system"));
    s.toggle_topic("gas");
    let (fx, again) = s.on_close(1006);
    assert!(again);
    assert_eq!(fx[0], log("🚪 Отключено (code=1006)", "msg-system"));
    assert_eq!(s.connection_state, ConnectionState::Disconnected);
    assert!(!s.subscriptions.contains("gas"));
    let (_, again) = s.on_close(1000);
    assert!(!again);
    let fx = s.on_error("boom");
    assert_eq!(fx[0], log("❌ WS ошибка: boom", "msg-error"));
    let fx = s.disconnect();
    assert_eq!(fx[1], UiEffect::Dom(op_text("status", "🔴 отключено")));
}

#[test]
fn reconnect_delays() {
    let mut s = AppState::new();
    let want = [(1u32, 2000u64), (2, 4000), (3, 8000), (4, 16000), (5, 32000), (6, 60000), (7, 60000)];
    for (attempt, delay) in want {
        let (fx, d) = s.schedule_reconnect();
        assert_eq!(d, delay);
        assert_eq!(s.reconnect_attempt, attempt);
        assert_eq!(s.connection_state, ConnectionState::Reconnecting { attempt, delay_secs: delay / 1000 });
        assert_eq!(
            fx[2],
            log(&format!("🔁 Переподключение через {}s (попытка {attempt})...", delay / 1000), "msg-system")
        );
    }
}

#[test]
fn echo_box() {
    assert!(is_blank(""));
    assert!(is_blank(" \t\n\u{3000}"));
    assert!(!is_blank(" a "));
    assert_eq!(send_echo("   "), None);
    let (fx, cmd) = send_echo("привет").unwrap();
    assert_eq!(fx, log("➡️  ты: привет", "msg-client"));
    assert_eq!(cmd, ClientCmd::Echo { text: "привет".into() });
}

#[test]
fn log_filter() {
    assert!(log_entry_visible("", "anything"));
    assert!(log_entry_visible("ГОВНО", "[12:00:00] жидкое говно"));
    assert!(!log_entry_visible("газ", "[12:00:00] жидкое говно"));
    assert!(visible_lowered("b", "abc"));
    assert!(!visible_lowered("abcd", "abc"));
    assert!(visible_lowered("abc", "abc"));
}

#[test]
fn page_operations() {
    assert_eq!(
        set_status("🔴", "ошибка", "status-error"),
        vec![
            DomOp::SetClass { id: "status".into(), class: "status-error".into() },
            op_text("status", "🔴 ошибка"),
        ]
    );
    assert_eq!(update_status_from_state(&ConnectionState::Authenticating)[1], op_text("status", "🔐 авторизация..."));
    assert_eq!(set_btn("b", false), DomOp::SetAttr { id: "b".into(), name: "disabled".into(), value: "".into() });
    assert_eq!(show_el("e", false), DomOp::SetAttr { id: "e".into(), name: "style".into(), value: "display:none".into() });
    assert_eq!(set_text("t", "x"), op_text("t", "x"));
    let on = enable_main_ui("sid");
    assert_eq!(on.len(), 11);
    assert_eq!(on[0], show_el("auth-overlay", false));
    assert_eq!(on[10], set_btn("btn-ping", true));
    let off = disable_main_ui();
    assert_eq!(off.len(), 10);
    assert_eq!(off[2], set_btn("btn-send", false));
    let mut s = AppState::new();
    s.toggle_topic("solid");
    let b = update_topic_buttons(&s.subscriptions);
    assert_eq!(b[0], DomOp::RemoveAttr { id: "btn-topic-liquid".into(), name: "data-active".into() });
    assert_eq!(b[1], DomOp::SetAttr { id: "btn-topic-solid".into(), name: "data-active".into(), value: "1".into() });
}

#[test]
fn services_panel() {
    assert_eq!(
        update_services_panel(&vec![], &vec![]),
        DomOp::SetInnerHtml {
            id: "services-panel".into(),
            html: "<p class=\"msg-system\">— нет подключённых воркеров —</p>".into(),
        }
    );
    let svc = ServiceInfo {
        assigned_id: "a".into(),
        service_id: "gas-shit-worker".into(),
        topic: "gas".into(),
        version: "0.1.0".into(),
        interval_ms: 1200,
        description: "d".into(),
        connected_at_ms: 0,
        messages_sent: 7,
    };
    let html = format!(
        r#"<div class="service-card topic-{topic}">
                 <div class="svc-name">{emoji} {sid}</div>
                 <div class="svc-meta">{topic} · {rate} · {msgs} sent · v{ver}</div>
               </div>"#,
        topic = "gas", emoji = "💨", sid = "gas-shit-worker", rate = "0.8/s", msgs = 7, ver = "0.1.0",
    );
    assert_eq!(
        update_services_panel(&vec![svc], &vec!["0.8/s".to_string()]),
        DomOp::SetInnerHtml { id: "services-panel".into(), html }
    );
}

#[test]
fn session_stats_and_log_lines() {
    assert_eq!(update_session_stats(12, 3725), vec![op_text("stat-total", "12"), op_text("stat-uptime", "01:02:05")]);
    assert_eq!(update_session_stats(0, 360000)[1], op_text("stat-uptime", "100:00:00"));
    assert_eq!(log_line(9, 5, 0, "hi"), "[09:05:00] hi");
    assert_eq!(excess_log_entries(300), 0);
    assert_eq!(excess_log_entries(305), 5);
}

#[test]
fn charts() {
    let c = redraw_all();
    assert_eq!(c.len(), 5);
    assert_eq!(c[0].topic, "liquid");
    assert_eq!(c[4].canvas_id, "canvas-total");
    assert_eq!(c[3].bar_color, "#e05050");
}

#[test]
fn white_space_matches_std() {
    for code in 0u32..=0x10FFFF {
        if let Some(c) = char::from_u32(code) {
            assert_eq!(govno::client::ws::is_white_space(c), c.is_whitespace(), "{code:#x}");
        }
    }
    for text in ["", " ", "\u{2003}x", "x", "\u{a0}\u{3000}"] {
        assert_eq!(is_blank(text), text.trim().is_empty(), "{text:?}");
    }
}

#[test]
fn log_filter_matches_std() {
    let texts = ["[10:00:00] 💧 ЖИДКОЕ говно", "Ping", "", "ΣΑΣ"];
    let queries = ["", "жид", "PIN", "g", "σας", "zzz"];
    for t in texts {
        for q in queries {
            let q_l = q.to_lowercase();
            let want = q_l.is_empty() || t.to_lowercase().contains(&q_l);
            assert_eq!(log_entry_visible(q, t), want, "{q:?} in {t:?}");
        }
    }
}

#[test]
fn socket_creation_failure_and_unknown_message() {
    let fx = connect_failed("SyntaxError");
    assert_eq!(fx[0], log("❌ Не могу создать WS: SyntaxError", "msg-error"));
    let status: Vec<UiEffect> = set_status("🔴", "ошибка", "status-error").into_iter().map(UiEffect::Dom).collect();
    assert_eq!(&fx[1..], &status[..]);

    let fx = unknown_message("missing field `type`");
    assert_eq!(fx, vec![log("⚠️ Неизвестное сообщение: missing field `type`", "msg-error")]);
}
