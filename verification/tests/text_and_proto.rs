use govno::proto::{Priority, ShitTopic};
use govno::text::{push_hex_digits, push_i64, push_pad2, push_u64, u64_to_string};

#[test]
fn topic_labels_and_emoji() {
    assert_eq!(ShitTopic::Liquid.label(), "жидкое");
    assert_eq!(ShitTopic::Solid.label(), "твёрдое");
    assert_eq!(ShitTopic::Gas.label(), "газообразное");
    assert_eq!(ShitTopic::Critical.label(), "критическое");
    assert_eq!(ShitTopic::Liquid.emoji(), "💧");
    assert_eq!(ShitTopic::Solid.emoji(), "🧱");
    assert_eq!(ShitTopic::Gas.emoji(), "💨");
    assert_eq!(ShitTopic::Critical.emoji(), "🚨");
    assert_ne!(Priority::Normal, Priority::Critical);
}

#[test]
fn decimal_rendering() {
    assert_eq!(u64_to_string(0), "0");
    assert_eq!(u64_to_string(7), "7");
    assert_eq!(u64_to_string(10), "10");
    assert_eq!(u64_to_string(1234567890), "1234567890");
    assert_eq!(u64_to_string(u64::MAX), u64::MAX.to_string());
    let mut s = String::from("x=");
    push_u64(&mut s, 42);
    assert_eq!(s, "x=42");
}

#[test]
fn signed_rendering() {
    for v in [0i64, 5, -5, 100, -100, i64::MAX, i64::MIN] {
        let mut s = String::new();
        push_i64(&mut s, v);
        assert_eq!(s, v.to_string());
    }
}

#[test]
fn padded_rendering() {
    for v in [0u64, 9, 10, 59, 99, 100, 12345] {
        let mut s = String::new();
        push_pad2(&mut s, v);
        assert_eq!(s, format!("{:02}", v));
    }
}

#[test]
fn hex_rendering() {
    for v in [0u32, 1, 0xff, 0x1a2b3c4d, u32::MAX, 0xdeadbeef] {
        let mut s = String::new();
        push_hex_digits(&mut s, v, 8);
        assert_eq!(s, format!("{:08x}", v));
    }
}
