use govno::proto::{OrchestratorMsg, Priority, ProducerMsg, ShitTopic};
use govno::worker::{backoff_secs, check_welcome, keeps_emitting, reconnect_step, InboundFrame, WorkerConfig};

fn liquid() -> WorkerConfig {
    WorkerConfig {
        service_id: "liquid-shit-worker".into(),
        topic: ShitTopic::Liquid,
        version: "0.1.0".into(),
        interval_ms: 1800,
        description: "Производит жидкое говно с интервалом 1.8s".into(),
        priority: Priority::Normal,
        tags: &["liquid", "flow", "leak"],
        phrases: &["растекается по всей архитектуре", "затопило базу данных"],
    }
}

#[test]
fn backoff_doubles_then_caps_at_sixty() {
    let expected = [1u64, 2, 4, 8, 16, 32, 60, 60, 60];
    for (attempt, want) in expected.iter().enumerate() {
        assert_eq!(backoff_secs(attempt as u32), *want);
    }
    assert_eq!(backoff_secs(u32::MAX), 60);
}

#[test]
fn reconnect_resets_after_long_connection() {
    assert_eq!(reconnect_step(5, true, 30_000_000_001), (0, 1));
    assert_eq!(reconnect_step(5, true, 30_000_000_000), (6, 60));
    assert_eq!(reconnect_step(0, true, 10), (1, 2));
    assert_eq!(reconnect_step(2, true, 0), (3, 8));
    assert_eq!(reconnect_step(5, false, 30_000_000_001), (6, 60));
    assert_eq!(reconnect_step(0, false, 90_000_000_000), (1, 2));
}

#[test]
fn hello_registers_the_configuration() {
    let cfg = liquid();
    match cfg.hello() {
        ProducerMsg::Hello { service_id, topic, version, interval_ms, description } => {
            assert_eq!(service_id, "liquid-shit-worker");
            assert_eq!(topic, ShitTopic::Liquid);
            assert_eq!(version, "0.1.0");
            assert_eq!(interval_ms, 1800);
            assert_eq!(description, "Производит жидкое говно с интервалом 1.8s");
        }
        other => panic!("unexpected {other:?}"),
    }
}

#[test]
fn emit_payload_format() {
    let cfg = liquid();
    assert_eq!(cfg.emit_payload(42, 1), "💧 liquid-shit-worker #42: затопило базу данных");
    match cfg.emit_message(0, 0) {
        ProducerMsg::Emit { payload, priority, tags } => {
            assert_eq!(payload, "💧 liquid-shit-worker #0: растекается по всей архитектуре");
            assert_eq!(priority, Priority::Normal);
            assert_eq!(tags, vec!["liquid".to_string(), "flow".to_string(), "leak".to_string()]);
        }
        other => panic!("unexpected {other:?}"),
    }
}

#[test]
fn random_emit_uses_a_configured_phrase() {
    let cfg = liquid();
    for counter in 0..50u64 {
        match cfg.next_emit(counter) {
            ProducerMsg::Emit { payload, .. } => {
                let ok = cfg
                    .phrases
                    .iter()
                    .any(|p| payload == format!("💧 liquid-shit-worker #{counter}: {p}"));
                assert!(ok, "{payload}");
            }
            other => panic!("unexpected {other:?}"),
        }
    }
}

#[test]
fn welcome_reply_decides_whether_to_emit() {
    assert!(check_welcome(&OrchestratorMsg::Welcome { assigned_id: "x".into() }).is_ok());
    assert!(check_welcome(&OrchestratorMsg::Ack { seq: 3 }).is_ok());
    assert_eq!(
        check_welcome(&OrchestratorMsg::Reject { reason: "first message must be Hello".into() }),
        Err("rejected: first message must be Hello".to_string())
    );
}

#[test]
fn emit_loop_stops_on_close_end_and_error() {
    assert!(keeps_emitting(&InboundFrame::Text));
    assert!(keeps_emitting(&InboundFrame::Other));
    assert!(!keeps_emitting(&InboundFrame::Close));
    assert!(!keeps_emitting(&InboundFrame::End));
    assert!(!keeps_emitting(&InboundFrame::Failed));
}
