use govno::server::{
    bad_json, deliver, handle_cmd, welcome, ClientCmd, ServerMsg, ShitMessage, ShitMetrics, ShitOrchestrator,
    ShitTopic, ShitWorker, WorkerShit,
};

#[test]
fn labels() {
    assert_eq!(ShitTopic::Liquid.label(), "жидкое");
    assert_eq!(ShitTopic::Solid.label(), "твёрдое");
    assert_eq!(ShitTopic::Gas.label(), "газообразное");
}

#[test]
fn sequencer_numbers_from_one_and_counts() {
    let mut orch = ShitOrchestrator::new();
    let mut metrics = ShitMetrics::new();
    let a = orch.next_message(WorkerShit { topic: ShitTopic::Gas, payload: "abc".into() }, &mut metrics);
    let b = orch.next_message(WorkerShit { topic: ShitTopic::Liquid, payload: "де".into() }, &mut metrics);
    assert_eq!((a.seq, b.seq), (1, 2));
    assert_eq!(a.topic, ShitTopic::Gas);
    assert_eq!(b.payload, "де");
    assert_eq!(metrics.messages_total, 2);
    assert_eq!(metrics.gas_total, 1);
    assert_eq!(metrics.liquid_total, 1);
    assert_eq!(metrics.bytes_sent, 3 + "де".len() as u64);
}

#[test]
fn one_topic_at_a_time() {
    let mut sub = None;
    assert_eq!(
        handle_cmd(ClientCmd::Subscribe { topic: ShitTopic::Solid }, &mut sub),
        ServerMsg::Subscribed { topic: "твёрдое".into() }
    );
    assert_eq!(sub, Some(ShitTopic::Solid));
    handle_cmd(ClientCmd::Subscribe { topic: ShitTopic::Gas }, &mut sub);
    assert_eq!(sub, Some(ShitTopic::Gas));
    let m = ShitMessage { topic: ShitTopic::Gas, seq: 9, payload: "x".into() };
    assert_eq!(deliver(&sub, m), Some(ServerMsg::Shit(ShitMessage { topic: ShitTopic::Gas, seq: 9, payload: "x".into() })));
    let m = ShitMessage { topic: ShitTopic::Solid, seq: 10, payload: "x".into() };
    assert_eq!(deliver(&sub, m), None);
    assert_eq!(handle_cmd(ClientCmd::Unsubscribe, &mut sub), ServerMsg::Unsubscribed);
    assert_eq!(sub, None);
    let m = ShitMessage { topic: ShitTopic::Gas, seq: 11, payload: "x".into() };
    assert_eq!(deliver(&sub, m), None);
    assert_eq!(handle_cmd(ClientCmd::Ping, &mut sub), ServerMsg::Pong);
    assert_eq!(
        handle_cmd(ClientCmd::Echo { text: "эй".into() }, &mut sub),
        ServerMsg::Echo { payload: "💩 ЭХО: эй".into() }
    );
}

#[test]
fn greetings_and_errors() {
    assert_eq!(
        welcome(),
        ServerMsg::Welcome { msg: "Добро пожаловать в говно-стрим! Подпишитесь на топик командой subscribe.".into() }
    );
    assert_eq!(bad_json("e"), ServerMsg::Error { msg: "bad json: e".into() });
}

#[test]
fn server_exposition() {
    let mut m = ShitMetrics::new();
    m.inc_topic(&ShitTopic::Liquid, 10);
    m.client_connected();
    m.client_connected();
    m.client_disconnected();
    let rows = [
        ("shit_messages_total", "Total shit messages orchestrated", 1u64),
        ("shit_bytes_sent", "Total bytes of shit broadcast", 10),
        ("shit_liquid_total", "Liquid shit messages produced", 1),
        ("shit_solid_total", "Solid shit messages produced", 0),
        ("shit_gas_total", "Gas shit messages produced", 0),
    ];
    let mut expected = String::new();
    for (name, help, val) in rows {
        expected.push_str(&format!("# HELP {name} {help}\n# TYPE {name} counter\n{name} {val}\n\n"));
    }
    expected.push_str("# HELP connected_assholes Current WebSocket connections\n# TYPE connected_assholes gauge\nconnected_assholes 1\n\n");
    assert_eq!(m.prometheus(), expected);
}

#[test]
fn worker_payloads() {
    let w = ShitWorker { topic: ShitTopic::Solid, prefix: "🧱", interval_ms: 2500, phrases: &["застряло", "упало"] };
    let s = w.shit_at(3, 1);
    assert_eq!(s.topic, ShitTopic::Solid);
    assert_eq!(s.payload, "🧱 говно #3: упало");
    let r = w.next_shit(0);
    assert!(r.payload == "🧱 говно #0: застряло" || r.payload == "🧱 говно #0: упало");
}
