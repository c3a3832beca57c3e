use arm_interface::client::{ClientCore, Command, Event, InboundAction, TagGenerator};
use arm_interface::codec::encode_packet;
use arm_interface::error::Error;
use arm_interface::proto::{CommandCode, EventCode, Packet, Tag};
use arm_interface::servo::commands::{ClearPoseBufferCommand, GetPoseBufferCapacityCommand};
use arm_interface::servo::events::{PoseBufferDrainEvent, PoseBufferEmptyEvent, PoseChangedEvent};
use arm_interface::kinematics::KinematicState;

#[test]
fn tags_are_allocated_in_a_gap_free_run() {
    let mut generator = TagGenerator::new();
    let first = generator.generate();
    let second = generator.generate();
    let third = generator.generate();
    assert_eq!(first.inner(), 0);
    assert_eq!(second.inner(), 1);
    assert_eq!(third.inner(), 2);
}

#[test]
fn prepare_command_builds_the_tagged_frame_and_registers_the_waiter() {
    let mut core: ClientCore<&str> = ClientCore::new();
    let (packet, tag) = core.prepare_command(CommandCode::new(0x102), vec![], "waiter");
    assert_eq!(tag.inner(), 0);
    let bytes = encode_packet(&packet);
    assert_eq!(
        bytes,
        vec![
            0x01, 0x00, 0x00, 0x01, 0x02, 0x00, 0x00, 0x00, 0x00, 0x00, 0x00, 0x00, 0x00, 0x00,
            0x00, 0x00, 0x00
        ]
    );
    // The registered waiter receives the matching reply.
    let reply = Packet::Reply(Tag::new(0), vec![0xAA]);
    match core.handle_inbound(reply) {
        Ok(InboundAction::Deliver(sink, payload)) => {
            assert_eq!(sink, "waiter");
            assert_eq!(payload, vec![0xAA]);
        }
        other => panic!("expected delivery, got {:?}", other.is_ok()),
    }
}

#[test]
fn late_replies_are_discarded_silently() {
    let mut core: ClientCore<&str> = ClientCore::new();
    let reply = Packet::Reply(Tag::new(99), vec![]);
    assert!(matches!(core.handle_inbound(reply), Ok(InboundAction::Discard)));
}

#[test]
fn an_inbound_command_is_a_protocol_violation() {
    let mut core: ClientCore<&str> = ClientCore::new();
    let packet = Packet::Command(CommandCode::new(1), Tag::new(0), vec![]);
    match core.handle_inbound(packet) {
        Err(e) => assert_eq!(e, Error::ProtocolError),
        Ok(_) => panic!("a client must refuse inbound commands"),
    }
}

#[test]
fn events_reach_every_listener_of_their_code_in_order() {
    let mut core: ClientCore<&str> = ClientCore::new();
    let code = EventCode::new(2);
    core.subscribers.subscribe_to_event(code, "x").unwrap();
    core.subscribers.subscribe_to_event(EventCode::new(5), "y").unwrap();
    core.subscribers.subscribe_to_event(code, "z").unwrap();
    let packet = Packet::Event(code, vec![7]);
    match core.handle_inbound(packet) {
        Ok(InboundAction::Broadcast(snapshot, payload)) => {
            assert_eq!(payload, vec![7]);
            let sinks: Vec<&str> = snapshot.iter().map(|(_, s)| *s).collect();
            assert_eq!(sinks, vec!["x", "z"]);
        }
        other => panic!("expected broadcast, got {:?}", other.is_ok()),
    }
}

#[test]
fn servo_vocabulary_carries_the_canonical_codes() {
    assert_eq!(
        arm_interface::servo::commands::PushIntoPoseBufferCommand::new(KinematicState::home(), 50_000)
            .code()
            .inner(),
        0x100
    );
    assert_eq!(ClearPoseBufferCommand::new().code().inner(), 0x101);
    assert_eq!(GetPoseBufferCapacityCommand::new().code().inner(), 0x102);
    assert_eq!(
        arm_interface::servo::commands::GetPoseBufferAvailableSpaceCommand::new().code().inner(),
        0x103
    );
    assert_eq!(PoseChangedEvent { angles: KinematicState::home() }.code().inner(), 0x0);
    assert_eq!(PoseBufferDrainEvent { available: 4 }.code().inner(), 0x1);
    assert_eq!(PoseBufferEmptyEvent {}.code().inner(), 0x2);
}
