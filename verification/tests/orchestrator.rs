use govno::orchestrator::consumer::{
    auth_required, auth_verdict, bad_json, consumer_welcome, deliver, handle_client_cmd, lagged, should_deliver,
    AuthReply, AuthVerdict, TopicSet,
};
use govno::orchestrator::ids::{gen_id, id_from};
use govno::orchestrator::metrics::Metrics;
use govno::orchestrator::registry::{Orchestrator, ProducerStep};
use govno::proto::{ClientCmd, OrchestratorMsg, Priority, ProducerMsg, ServerMsg, ShitMessage, ShitTopic};

fn hello(service: &str, topic: ShitTopic) -> ProducerMsg {
    ProducerMsg::Hello {
        service_id: service.into(),
        topic,
        version: "0.1.0".into(),
        interval_ms: 1800,
        description: "d".into(),
    }
}

fn emit(payload: &str, priority: Priority) -> ProducerMsg {
    ProducerMsg::Emit { payload: payload.into(), priority, tags: vec!["t".into()] }
}

fn message(topic: ShitTopic, priority: Priority) -> ShitMessage {
    ShitMessage {
        seq: 1,
        topic,
        payload: "p".into(),
        priority,
        tags: vec![],
        producer_id: "id".into(),
        service_id: "svc".into(),
        ts_ms: 0,
    }
}

#[test]
fn ids_are_poop_and_eight_hex_digits() {
    assert_eq!(id_from(0x1a2b3c4d), "💩-1a2b3c4d");
    assert_eq!(id_from(0), "💩-00000000");
    let id = gen_id();
    let hex = id.strip_prefix("💩-").expect("prefix");
    assert_eq!(hex.len(), 8);
    assert!(hex.chars().all(|c| c.is_ascii_hexdigit() && !c.is_ascii_uppercase()));
}

#[test]
fn first_message_must_be_hello() {
    let mut orch = Orchestrator::new("говно".into());
    let mut o2 = Orchestrator::new("t".into());
    let before = *o2.metrics();
    match o2.open_producer(Some(ProducerMsg::Bye), 5) {
        Err(OrchestratorMsg::Reject { reason }) => assert_eq!(reason, "first message must be Hello"),
        other => panic!("unexpected {:?}", other.is_ok()),
    }
    assert_eq!(o2.metrics().connected_producers, before.connected_producers - 1);
    assert!(orch.open_producer(None, 0).is_err());
    assert!(orch.services().is_empty());
}

#[test]
fn producer_lifecycle() {
    let mut orch = Orchestrator::new("говно".into());
    let (session, welcome) = orch.open_producer(Some(hello("liquid-shit-worker", ShitTopic::Liquid)), 1000).unwrap();
    match welcome {
        OrchestratorMsg::Welcome { assigned_id } => assert_eq!(assigned_id, session.assigned_id),
        other => panic!("unexpected {other:?}"),
    }
    assert!(session.assigned_id.starts_with("💩-"));
    let services = orch.services();
    assert_eq!(services.len(), 1);
    assert_eq!(services[0].service_id, "liquid-shit-worker");
    assert_eq!(services[0].connected_at_ms, 1000);
    assert_eq!(services[0].messages_sent, 0);

    for expected_seq in 1..=3u64 {
        match orch.on_producer_msg(&session, emit("💧 говно", Priority::Normal), 2000) {
            ProducerStep::Emitted { ack, message } => {
                assert_eq!(ack, OrchestratorMsg::Ack { seq: expected_seq });
                assert_eq!(message.seq, expected_seq);
                assert_eq!(message.topic, ShitTopic::Liquid);
                assert_eq!(message.producer_id, session.assigned_id);
                assert_eq!(message.service_id, "liquid-shit-worker");
                assert_eq!(message.ts_ms, 2000);
                assert_eq!(message.tags, vec!["t".to_string()]);
            }
            _ => panic!("expected an emission"),
        }
    }
    assert_eq!(orch.services()[0].messages_sent, 3);
    assert_eq!(orch.metrics().messages_total, 3);
    assert_eq!(orch.metrics().liquid_total, 3);
    assert_eq!(orch.metrics().bytes_sent, 3 * "💧 говно".len() as u64);

    assert!(matches!(orch.on_producer_msg(&session, hello("x", ShitTopic::Gas), 0), ProducerStep::Continue));
    assert!(matches!(orch.on_producer_msg(&session, ProducerMsg::Bye, 0), ProducerStep::Stop));
    orch.close_producer(&session);
    assert!(orch.services().is_empty());
    assert_eq!(orch.metrics().connected_producers, -1);
}

#[test]
fn authentication_gate() {
    let mut orch = Orchestrator::new("говно".into());
    match auth_required() {
        ServerMsg::AuthRequired { msg } => assert_eq!(msg, "Токен или проваливай. 10 секунд."),
        other => panic!("unexpected {other:?}"),
    }
    let (reply, sid) = orch.authenticate(AuthReply::Text(Some(ClientCmd::Auth { token: "говно".into() })));
    let sid = sid.expect("session");
    assert!(sid.starts_with("💩-"));
    assert_eq!(
        reply,
        ServerMsg::Authorized { puk: "💨 ПУУК! Добро пожаловать в говно-систему.".into(), session_id: sid }
    );
    assert_eq!(orch.metrics().auth_success, 1);

    orch.consumer_connected();
    let (reply, sid) = orch.authenticate(AuthReply::Text(Some(ClientCmd::Auth { token: "нет".into() })));
    assert!(sid.is_none());
    assert_eq!(reply, ServerMsg::Unauthorized { msg: "💨 ПУУК! Неверный токен. Иди отсюда.".into() });
    let (reply, _) = orch.authenticate(AuthReply::Text(Some(ClientCmd::Ping)));
    assert_eq!(reply, ServerMsg::Unauthorized { msg: "💨 ПУУК! Неверный токен. Иди отсюда.".into() });
    let (reply, _) = orch.authenticate(AuthReply::Missing);
    assert_eq!(reply, ServerMsg::Unauthorized { msg: "💨 ПУУК! Таймаут — пошёл отсюда.".into() });
    assert_eq!(orch.metrics().auth_failures, 3);
    assert_eq!(orch.metrics().connected_consumers, 1);
    orch.consumer_disconnected();
    assert_eq!(orch.metrics().connected_consumers, 0);

    assert_eq!(auth_verdict(&AuthReply::Text(None), &"t".to_string()), AuthVerdict::Refused);
    assert_eq!(auth_verdict(&AuthReply::Missing, &"t".to_string()), AuthVerdict::TimedOut);
}

#[test]
fn consumer_commands() {
    let mut orch = Orchestrator::new("t".into());
    let (_s, _) = orch.open_producer(Some(hello("gas-shit-worker", ShitTopic::Gas)), 7).unwrap();
    let mut subs = TopicSet::new();
    let r = handle_client_cmd(ClientCmd::Subscribe { topic: ShitTopic::Solid }, &mut subs, &orch);
    assert_eq!(r, vec![ServerMsg::Subscribed { topic: "твёрдое".into() }]);
    assert!(subs.contains(ShitTopic::Solid));
    let r = handle_client_cmd(ClientCmd::Echo { text: "тест".into() }, &mut subs, &orch);
    assert_eq!(r, vec![ServerMsg::Echo { payload: "💩 ЭХО: тест".into() }]);
    let r = handle_client_cmd(ClientCmd::Ping, &mut subs, &orch);
    assert_eq!(r.len(), 2);
    match &r[0] {
        ServerMsg::ServiceList { services } => {
            assert_eq!(services.len(), 1);
            assert_eq!(services[0].service_id, "gas-shit-worker");
        }
        other => panic!("unexpected {other:?}"),
    }
    assert_eq!(r[1], ServerMsg::Pong);
    let r = handle_client_cmd(ClientCmd::Auth { token: "t".into() }, &mut subs, &orch);
    assert_eq!(r, vec![ServerMsg::Error { msg: "Already authenticated".into() }]);
    let r = handle_client_cmd(ClientCmd::Unsubscribe { topic: ShitTopic::Solid }, &mut subs, &orch);
    assert_eq!(r, vec![ServerMsg::Unsubscribed { topic: "твёрдое".into() }]);
    assert!(subs.is_empty());
    handle_client_cmd(ClientCmd::Subscribe { topic: ShitTopic::Gas }, &mut subs, &orch);
    let r = handle_client_cmd(ClientCmd::UnsubscribeAll, &mut subs, &orch);
    assert_eq!(r, vec![ServerMsg::UnsubscribedAll]);
    assert!(subs.is_empty());
}

#[test]
fn delivery_rule() {
    let mut subs = TopicSet::new();
    // nothing subscribed: only critical messages arrive
    assert!(!should_deliver(&subs, &message(ShitTopic::Liquid, Priority::Normal)));
    assert!(should_deliver(&subs, &message(ShitTopic::Liquid, Priority::Critical)));
    subs.insert(ShitTopic::Gas);
    assert!(should_deliver(&subs, &message(ShitTopic::Gas, Priority::Normal)));
    assert!(!should_deliver(&subs, &message(ShitTopic::Liquid, Priority::Critical)));
    assert_eq!(
        deliver(&subs, message(ShitTopic::Gas, Priority::Normal)),
        Some(ServerMsg::Shit(message(ShitTopic::Gas, Priority::Normal)))
    );
    assert_eq!(deliver(&subs, message(ShitTopic::Solid, Priority::Normal)), None);
}

#[test]
fn notices() {
    assert_eq!(lagged(17), ServerMsg::Error { msg: "lagged: missed 17 messages".into() });
    assert_eq!(bad_json("oops"), ServerMsg::Error { msg: "bad json: oops".into() });
    assert_eq!(
        consumer_welcome(),
        ServerMsg::Welcome { msg: "Выбери топики: жидкое / твёрдое / газообразное / критическое".into() }
    );
}

#[test]
fn metrics_counting_and_exposition() {
    let mut m = Metrics::new();
    m.inc_msg(&message(ShitTopic::Critical, Priority::Critical));
    m.inc_msg(&message(ShitTopic::Gas, Priority::Normal));
    m.auth_succeeded();
    m.auth_failed();
    m.consumer_connected();
    m.producer_connected();
    m.producer_connected();
    m.producer_disconnected();
    assert_eq!(m.messages_total, 2);
    assert_eq!(m.critical_total, 1);
    assert_eq!(m.gas_total, 1);
    assert_eq!(m.bytes_sent, 2);
    let rows = [
        ("shit_messages_total", "Total shit orchestrated", "counter", "2"),
        ("shit_bytes_sent", "Total payload bytes broadcast", "counter", "2"),
        ("shit_auth_success", "Successful consumer auths", "counter", "1"),
        ("shit_auth_failures", "Failed consumer auth attempts", "counter", "1"),
        ("shit_liquid_total", "Liquid shit produced", "counter", "0"),
        ("shit_solid_total", "Solid shit produced", "counter", "0"),
        ("shit_gas_total", "Gas shit produced", "counter", "1"),
        ("shit_critical_total", "Critical incidents", "counter", "1"),
        ("connected_consumers", "Active consumer WS connections", "gauge", "1"),
        ("connected_producers", "Active producer WS connections", "gauge", "1"),
    ];
    let mut expected = String::new();
    for (name, help, kind, val) in rows {
        expected.push_str(&format!("# HELP {name} {help}\n# TYPE {name} {kind}\n{name} {val}\n\n"));
    }
    assert_eq!(m.prometheus(), expected);
}

#[test]
fn counters_wrap_around() {
    let mut m = Metrics::new();
    m.messages_total = u64::MAX;
    m.inc_msg(&message(ShitTopic::Solid, Priority::Normal));
    assert_eq!(m.messages_total, 0);
    m.bytes_sent = u64::MAX;
    assert!(m.prometheus().contains("shit_bytes_sent -1\n"));
}
