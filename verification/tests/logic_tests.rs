use lib::camera::{frame_from_datagram, min_max, stretch_to_full_range, FRAME_BYTES, FRAME_SAMPLES};
use lib::codes::{SessionState, StructureType};
use lib::enumerate::{after_count, after_fill, EnumerationStep};
use lib::session::{next_action, EventAction, EventDataBuffer, SessionStateChanged};

#[test]
fn datagram_of_wrong_size_is_rejected() {
    assert_eq!(frame_from_datagram(&[]), None);
    assert_eq!(frame_from_datagram(&vec![0u8; FRAME_BYTES - 1]), None);
    assert_eq!(frame_from_datagram(&vec![0u8; FRAME_BYTES + 2]), None);
}

#[test]
fn datagram_is_decoded_low_byte_first() {
    let mut bytes = vec![0u8; FRAME_BYTES];
    bytes[0] = 0x34;
    bytes[1] = 0x12;
    bytes[FRAME_BYTES - 2] = 0xff;
    bytes[FRAME_BYTES - 1] = 0xff;
    let frame = frame_from_datagram(&bytes).unwrap();
    assert_eq!(frame.len(), FRAME_SAMPLES);
    assert_eq!(frame[0], 0x1234);
    assert_eq!(frame[1], 0);
    assert_eq!(frame[FRAME_SAMPLES - 1], 0xffff);
}

#[test]
fn min_max_finds_extremes() {
    assert_eq!(min_max(&[]), None);
    assert_eq!(min_max(&[7]), Some((7, 7)));
    assert_eq!(min_max(&[5, 3, 9, 3, 8]), Some((3, 9)));
}

#[test]
fn stretch_maps_range_onto_full_scale() {
    let mut frame = vec![100u16, 200, 150, 100, 300];
    stretch_to_full_range(&mut frame);
    assert_eq!(frame, vec![0, 32767, 16383, 0, 65535]);
}

#[test]
fn stretch_of_two_levels() {
    let mut frame = vec![1u16, 0, 1];
    stretch_to_full_range(&mut frame);
    assert_eq!(frame, vec![65535, 0, 65535]);
    let mut wide = vec![0u16, 65535, 1];
    stretch_to_full_range(&mut wide);
    assert_eq!(wide, vec![0, 65535, 1]);
}

fn event(ty: StructureType) -> EventDataBuffer {
    EventDataBuffer { ty: ty.code(), ..EventDataBuffer::default() }
}

fn state_change(state_code: i32) -> EventDataBuffer {
    let mut e = event(StructureType::SessionStateChanged);
    e.varying[0..8].copy_from_slice(&0x0102_0304_0506_0708u64.to_le_bytes());
    e.varying[8..12].copy_from_slice(&state_code.to_le_bytes());
    e.varying[16..24].copy_from_slice(&(-5i64).to_le_bytes());
    e
}

#[test]
fn empty_event_buffer_means_render() {
    let e = EventDataBuffer::default();
    assert_eq!(e.ty, 16);
    assert!(e.varying.iter().all(|b| *b == 0));
    assert_eq!(next_action(&e), EventAction::RenderFrame);
}

#[test]
fn instance_loss_means_exit() {
    assert_eq!(next_action(&event(StructureType::InstanceLossPending)), EventAction::Exit);
}

#[test]
fn unknown_event_is_reported() {
    assert_eq!(next_action(&event(StructureType::FrameState)), EventAction::UnexpectedEvent(44));
    let raw = EventDataBuffer { ty: 1000065002, ..EventDataBuffer::default() };
    assert_eq!(next_action(&raw), EventAction::UnexpectedEvent(1000065002));
}

#[test]
fn remoting_events_are_reported() {
    assert_eq!(next_action(&event(StructureType::RemotingConnected)), EventAction::ReportConnected);
    assert_eq!(next_action(&event(StructureType::RemotingDisconnected)), EventAction::ReportDisconnected);
}

#[test]
fn timestamp_conversion_ready_is_ignored() {
    assert_eq!(next_action(&event(StructureType::RemotingTimestampConversionReady)), EventAction::Continue);
    let raw = EventDataBuffer { ty: 1000065007, ..EventDataBuffer::default() };
    assert_eq!(next_action(&raw), EventAction::Continue);
}

#[test]
fn state_changes_map_to_actions() {
    assert_eq!(next_action(&state_change(1)), EventAction::Continue);
    assert_eq!(next_action(&state_change(2)), EventAction::BeginSession);
    assert_eq!(next_action(&state_change(3)), EventAction::Continue);
    assert_eq!(next_action(&state_change(4)), EventAction::Continue);
    assert_eq!(next_action(&state_change(5)), EventAction::Continue);
    assert_eq!(next_action(&state_change(6)), EventAction::EndSessionAndExit);
    assert_eq!(next_action(&state_change(7)), EventAction::ExitSessionOver);
    assert_eq!(next_action(&state_change(8)), EventAction::ExitSessionOver);
}

#[test]
fn bad_states_are_reported() {
    assert_eq!(next_action(&state_change(0)), EventAction::UnexpectedState(0));
    assert_eq!(next_action(&state_change(42)), EventAction::UnexpectedState(42));
    assert_eq!(next_action(&state_change(-3)), EventAction::UnexpectedState(-3));
}

#[test]
fn state_change_is_read_from_payload() {
    let change = SessionStateChanged::read(&state_change(5)).unwrap();
    assert_eq!(change.ty, StructureType::SessionStateChanged);
    assert_eq!(change.session, 0x0102_0304_0506_0708);
    assert_eq!(change.state, SessionState::Focused);
    assert_eq!(change.time, -5);
    assert_eq!(SessionStateChanged::read(&state_change(9)), None);
    assert_eq!(SessionStateChanged::read(&event(StructureType::EventDataBuffer)), None);
    assert_eq!(state_change(-3).state_code(), -3);
}

#[test]
fn enumeration_count_step() {
    assert_eq!(after_count(0, 2), EnumerationStep::Allocate { capacity: 2 });
    assert_eq!(after_count(0, 0), EnumerationStep::Allocate { capacity: 0 });
    assert_eq!(after_count(-1, 2), EnumerationStep::Fail);
}

#[test]
fn enumeration_fill_step() {
    assert_eq!(after_fill(0, 2, 2), EnumerationStep::Accept { len: 2 });
    assert_eq!(after_fill(0, 2, 1), EnumerationStep::Fail);
    assert_eq!(after_fill(-2, 2, 2), EnumerationStep::Fail);
}

#[test]
fn full_range_frame_is_unchanged() {
    let mut frame = vec![0u16, 1234, 65535, 40000, 1];
    let before = frame.clone();
    stretch_to_full_range(&mut frame);
    assert_eq!(frame, before);
}

#[test]
fn stretch_keeps_order() {
    let mut frame: Vec<u16> = (0..FRAME_SAMPLES as u32).map(|i| ((i * 7919) % 5000 + 3000) as u16).collect();
    let before = frame.clone();
    stretch_to_full_range(&mut frame);
    assert_eq!(*frame.iter().min().unwrap(), 0);
    assert_eq!(*frame.iter().max().unwrap(), 65535);
    for i in 0..200 {
        for j in 0..200 {
            if before[i] <= before[j] {
                assert!(frame[i] <= frame[j]);
            }
        }
    }
}

#[test]
fn stretching_twice_is_stretching_once() {
    let mut once = vec![900u16, 1000, 1700, 1234, 905, 1699];
    stretch_to_full_range(&mut once);
    let mut twice = once.clone();
    stretch_to_full_range(&mut twice);
    assert_eq!(twice, once);
    assert_eq!(once[0], 0);
    assert_eq!(once[2], 65535);
}
