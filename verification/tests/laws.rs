use govno::client::state::AppState;
use govno::orchestrator::consumer::{handle_client_cmd, should_deliver, TopicSet};
use govno::orchestrator::ids::id_from;
use govno::orchestrator::metrics::Metrics;
use govno::orchestrator::registry::Orchestrator;
use govno::proto::{ClientCmd, Priority, ProducerMsg, ShitMessage, ShitTopic};
use govno::worker::backoff_secs;

fn msg(topic: ShitTopic, priority: Priority) -> ShitMessage {
    ShitMessage {
        seq: 1,
        topic,
        payload: "x".into(),
        priority,
        tags: vec![],
        producer_id: "p".into(),
        service_id: "s".into(),
        ts_ms: 0,
    }
}

#[test]
fn client_and_worker_wait_alike() {
    let mut s = AppState::new();
    for attempt in 1..=10u32 {
        let (_, delay_ms) = s.schedule_reconnect();
        assert_eq!(delay_ms, 1000 * backoff_secs(attempt));
    }
    for a in 0..20u32 {
        assert!(backoff_secs(a) <= backoff_secs(a + 1));
        assert!((1..=60).contains(&backoff_secs(a)));
    }
}

#[test]
fn subscriptions_decide_delivery_on_values() {
    let orch = Orchestrator::new("t".into());
    let mut subs = TopicSet::new();
    handle_client_cmd(ClientCmd::Subscribe { topic: ShitTopic::Gas }, &mut subs, &orch);
    assert!(should_deliver(&subs, &msg(ShitTopic::Gas, Priority::Normal)));
    handle_client_cmd(ClientCmd::Subscribe { topic: ShitTopic::Solid }, &mut subs, &orch);
    handle_client_cmd(ClientCmd::Unsubscribe { topic: ShitTopic::Gas }, &mut subs, &orch);
    assert!(!should_deliver(&subs, &msg(ShitTopic::Gas, Priority::Critical)));
    handle_client_cmd(ClientCmd::UnsubscribeAll, &mut subs, &orch);
    for t in [ShitTopic::Liquid, ShitTopic::Solid, ShitTopic::Gas, ShitTopic::Critical] {
        assert!(should_deliver(&subs, &msg(t, Priority::Critical)));
        assert!(!should_deliver(&subs, &msg(t, Priority::Normal)));
    }
}

#[test]
fn topic_counters_add_up_on_values() {
    let mut m = Metrics::new();
    let topics = [ShitTopic::Liquid, ShitTopic::Solid, ShitTopic::Gas, ShitTopic::Critical, ShitTopic::Gas];
    for t in topics {
        m.inc_msg(&msg(t, Priority::Normal));
        assert_eq!(m.messages_total, m.liquid_total + m.solid_total + m.gas_total + m.critical_total);
    }
}

#[test]
fn distinct_numbers_give_distinct_ids() {
    assert_ne!(id_from(1), id_from(2));
    assert_ne!(id_from(0x10), id_from(0x01));
    assert_eq!(id_from(0xabcdef01), id_from(0xabcdef01));
}

#[test]
fn toggling_twice_restores() {
    let mut s = AppState::new();
    s.toggle_topic("liquid");
    s.toggle_topic("liquid");
    assert!(!s.subscriptions.contains("liquid"));
    s.toggle_topic("gas");
    s.toggle_topic("solid");
    s.toggle_topic("solid");
    assert!(s.subscriptions.contains("gas"));
    assert!(!s.subscriptions.contains("solid"));
}

#[test]
fn close_undoes_registration() {
    let mut orch = Orchestrator::new("t".into());
    let hello = |id: &str| ProducerMsg::Hello {
        service_id: id.into(),
        topic: ShitTopic::Gas,
        version: "1".into(),
        interval_ms: 1,
        description: "d".into(),
    };
    let (a, _) = orch.open_producer(Some(hello("a")), 0).unwrap();
    let (b, _) = orch.open_producer(Some(hello("b")), 0).unwrap();
    orch.close_producer(&a);
    let left = orch.services();
    assert_eq!(left.len(), 1);
    assert_eq!(left[0].assigned_id, b.assigned_id);
    orch.close_producer(&b);
    assert!(orch.services().is_empty());
}

#[test]
fn producer_session_is_undone_on_concrete_session() {
    let mut orch = Orchestrator::new("t".into());
    orch.producer_connected();
    let (other, _) = orch
        .open_producer(
            Some(ProducerMsg::Hello {
                service_id: "solid-shit-worker".into(),
                topic: ShitTopic::Solid,
                version: "0.1.0".into(),
                interval_ms: 100,
                description: "d".into(),
            }),
            1,
        )
        .unwrap();
    let before = orch.services();
    let producers_before = orch.metrics().connected_producers;

    orch.producer_connected();
    let (session, _) = orch
        .open_producer(
            Some(ProducerMsg::Hello {
                service_id: "gas-shit-worker".into(),
                topic: ShitTopic::Gas,
                version: "0.1.0".into(),
                interval_ms: 100,
                description: "d".into(),
            }),
            2,
        )
        .unwrap();
    assert_eq!(orch.metrics().connected_producers, producers_before + 1);
    for i in 0..3 {
        let _ = orch.on_producer_msg(
            &session,
            ProducerMsg::Emit { payload: format!("p{i}"), priority: Priority::Normal, tags: vec![] },
            3,
        );
    }
    let _ = orch.on_producer_msg(&session, ProducerMsg::Bye, 4);
    assert_eq!(orch.metrics().connected_producers, producers_before + 1);
    orch.close_producer(&session);
    assert_eq!(orch.services(), before);
    assert_eq!(orch.services()[0].assigned_id, other.assigned_id);
    assert_eq!(orch.metrics().connected_producers, producers_before);
    assert_eq!(orch.metrics().messages_total, 3);

    orch.producer_connected();
    assert!(orch.open_producer(None, 5).is_err());
    assert_eq!(orch.metrics().connected_producers, producers_before);
}

#[test]
fn log_keeps_newest_lines_on_a_full_log() {
    let mut lines: Vec<u32> = (0..300).collect();
    lines.push(300);
    let excess = govno::client::dom::excess_log_entries(lines.len() as u32) as usize;
    let kept = &lines[excess..];
    assert_eq!(kept.len(), 300);
    assert_eq!(kept[0], 1);
    assert_eq!(*kept.last().unwrap(), 300);

    let mut short: Vec<u32> = (0..10).collect();
    short.push(10);
    assert_eq!(govno::client::dom::excess_log_entries(short.len() as u32), 0);
}
