use rust_ib2c::meta_signals::MetaSignal;
use rust_ib2c::shared_data::{PortData, SharedData};
use rust_ib2c::telemetry::{be32_decode, be32_encode, frame_message, parse_frame, Parent, TelemetrySlot};

fn snapshot(index: u64, source: &str) -> SharedData {
    SharedData {
        index,
        activity: MetaSignal::low(),
        target_rating: MetaSignal::high(),
        stimulation: MetaSignal::high(),
        inhibition: MetaSignal::low(),
        active_time_micros: 0,
        source: source.to_string(),
        data: Vec::new(),
    }
}

#[test]
fn parent_paths_compose() {
    let root = Parent::root("MainGroup");
    assert_eq!(root.path, "MainGroup");
    let child = root.child("VelocityControl");
    assert_eq!(child.path, "MainGroup/VelocityControl");
    let grandchild = child.child("BreakOnObstacle");
    assert_eq!(grandchild.path, "MainGroup/VelocityControl/BreakOnObstacle");
}

#[test]
fn slot_is_last_value_wins() {
    let mut slot = TelemetrySlot::new();
    assert!(slot.take().is_none());
    slot.send(snapshot(1, "a"));
    slot.send(snapshot(2, "a"));
    let drained = slot.take().unwrap();
    assert_eq!(drained.index, 2);
    assert!(slot.take().is_none());
}

#[test]
fn be32_round_trips() {
    let bytes = be32_encode(0x01020304);
    assert_eq!(bytes, [1, 2, 3, 4]);
    assert_eq!(be32_decode(bytes[0], bytes[1], bytes[2], bytes[3]), 0x01020304);
    assert_eq!(be32_encode(0), [0, 0, 0, 0]);
    assert_eq!(be32_encode(u32::MAX), [255, 255, 255, 255]);
}

#[test]
fn frames_carry_a_length_prefix() {
    let payload = vec![10u8, 20, 30];
    let framed = frame_message(&payload);
    assert_eq!(framed, vec![0u8, 0, 0, 3, 10, 20, 30]);
}

#[test]
fn frame_then_parse_round_trips() {
    let payload = vec![9u8, 8, 7, 6];
    let mut wire = frame_message(&payload);
    // A second frame queued behind the first.
    wire.extend_from_slice(&frame_message(&vec![1u8]));
    let (first, consumed) = parse_frame(&wire).unwrap();
    assert_eq!(first, payload);
    assert_eq!(consumed, 8);
    let rest: Vec<u8> = wire[consumed..].to_vec();
    let (second, consumed2) = parse_frame(&rest).unwrap();
    assert_eq!(second, vec![1u8]);
    assert_eq!(consumed2, 5);
}

#[test]
fn short_input_is_not_a_frame() {
    assert!(parse_frame(&vec![0u8, 0, 0]).is_none());
    // Length prefix promises more bytes than are present.
    assert!(parse_frame(&vec![0u8, 0, 0, 2, 5]).is_none());
}

#[test]
fn port_data_values_tag_their_payloads() {
    assert_eq!(PortData::Int(-3), PortData::Int(-3));
    assert_ne!(PortData::Int(3), PortData::Unsigned(3));
    assert_eq!(
        PortData::String("x".to_string()),
        PortData::String("x".to_string())
    );
}
