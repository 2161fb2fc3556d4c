use r4dio::protocol::{
    decode_frame, encode_frame, FrameError, MpvHealth, PlaybackStatus, Station, PROTOCOL_VERSION,
};
use serde_json::Value;

fn object(pairs: Vec<(&str, Value)>) -> Value {
    let mut m = serde_json::Map::new();
    for (k, v) in pairs {
        m.insert(k.to_string(), v);
    }
    Value::Object(m)
}

#[test]
fn test_message_encode_decode() {
    let msg = object(vec![("cmd", Value::from("Play")), ("station_idx", Value::from(5))]);
    let payload = serde_json::to_vec(&msg).unwrap();
    let encoded = encode_frame(&payload);
    let (decoded, len) = decode_frame(&encoded).unwrap();
    assert_eq!(len, encoded.len());
    let v: Value = serde_json::from_slice(&decoded).unwrap();
    match v["cmd"].as_str() {
        Some("Play") => assert_eq!(v["station_idx"].as_u64(), Some(5)),
        _ => panic!("Wrong message type"),
    }
}

#[test]
fn test_hello_encode_decode() {
    let state = object(vec![("rev", Value::from(42))]);
    let msg = object(vec![
        ("broadcast", Value::from("Hello")),
        ("protocol_version", Value::from(PROTOCOL_VERSION)),
        ("daemon_rev", Value::from(42)),
        ("state", state),
    ]);
    let encoded = encode_frame(&serde_json::to_vec(&msg).unwrap());
    let (decoded, _) = decode_frame(&encoded).unwrap();
    let v: Value = serde_json::from_slice(&decoded).unwrap();
    match v["broadcast"].as_str() {
        Some("Hello") => {
            assert_eq!(v["protocol_version"].as_u64(), Some(PROTOCOL_VERSION as u64));
            assert_eq!(v["daemon_rev"].as_u64(), Some(42));
        }
        _ => panic!("Wrong message type"),
    }
}

#[test]
fn frame_has_big_endian_length_header() {
    assert_eq!(encode_frame(&[7, 8, 9]), vec![0, 0, 0, 3, 7, 8, 9]);
    assert_eq!(encode_frame(&[]), vec![0, 0, 0, 0]);
}

#[test]
fn decode_reads_only_the_first_frame() {
    let mut two = encode_frame(b"ab");
    two.extend(encode_frame(b"c"));
    let (p, used) = decode_frame(&two).unwrap();
    assert_eq!(p, b"ab".to_vec());
    assert_eq!(used, 6);
    let (q, used2) = decode_frame(&two[used..]).unwrap();
    assert_eq!(q, b"c".to_vec());
    assert_eq!(used2, 5);
}

#[test]
fn decode_errors() {
    assert_eq!(decode_frame(&[0, 0, 1]), Err(FrameError::ShortHeader));
    assert_eq!(decode_frame(&[0, 0, 0, 2, 1]), Err(FrameError::ShortMessage));
    assert_eq!(decode_frame(&[1, 0, 0, 0]), Err(FrameError::ShortMessage));
}

#[test]
fn health_badges() {
    assert_eq!(MpvHealth::Absent.badge_label(), None);
    assert_eq!(MpvHealth::Starting.badge_label(), Some("INIT"));
    assert_eq!(MpvHealth::Running.badge_label(), None);
    assert_eq!(MpvHealth::Degraded("slow".into()).badge_label(), Some("DEGD"));
    assert_eq!(MpvHealth::Dead.badge_label(), Some("DEAD"));
    assert_eq!(MpvHealth::Restarting.badge_label(), Some("REST"));
    assert!(MpvHealth::Dead.is_unhealthy());
    assert!(MpvHealth::Restarting.is_unhealthy());
    assert!(MpvHealth::Degraded(String::new()).is_unhealthy());
    assert!(!MpvHealth::Running.is_unhealthy());
    assert!(!MpvHealth::Starting.is_unhealthy());
}

#[test]
fn defaults() {
    assert_eq!(PlaybackStatus::default(), PlaybackStatus::Idle);
    assert!(matches!(MpvHealth::default(), MpvHealth::Absent));
    let s = Station::named("A".into(), "http://a".into());
    assert_eq!(s.name, "A");
    assert_eq!(s.url, "http://a");
    assert!(s.tags.is_empty() && s.city.is_empty());
}
