use std::sync::atomic::AtomicU16;

use robot_bridge::channel::{CommandQueue, Poll, SendError};
use robot_bridge::command::{Action, Command, Identifier};
use robot_bridge::native::{
    current_rotation, emit_command, rotate_cube, rotate_cube_from_script, NativeSurface,
    ACTUATION_DELAY_MS,
};
use robot_bridge::marshal::{MarshalError, ScriptValue};
use robot_bridge::slot::{RegistrationSlot, SlotError};

fn names(commands: &[Command]) -> Vec<String> {
    commands.iter().map(|c| c.name.as_str().to_string()).collect()
}

#[test]
fn three_move_forward_calls_arrive_in_order() {
    let mut queue = CommandQueue::new();
    for _ in 0..3 {
        assert!(emit_command(&mut queue, Action::MoveForward).is_ok());
    }
    let got = queue.drain();
    assert_eq!(names(&got), vec!["MoveForward", "MoveForward", "MoveForward"]);
    assert_eq!(NativeSurface::standard().actuation_delay_ms(), 1000);
    assert_eq!(ACTUATION_DELAY_MS, 1000);
}

#[test]
fn irregular_polling_keeps_program_order() {
    let mut queue = CommandQueue::new();
    let mut seen = Vec::new();
    emit_command(&mut queue, Action::MoveForward).unwrap();
    emit_command(&mut queue, Action::TurnLeft).unwrap();
    if let Poll::Received(c) = queue.try_recv() {
        seen.push(c);
    } else {
        panic!("expected a command");
    }
    emit_command(&mut queue, Action::TurnRight).unwrap();
    emit_command(&mut queue, Action::MoveForward).unwrap();
    seen.extend(queue.drain());
    assert!(matches!(queue.try_recv(), Poll::Empty));
    assert_eq!(names(&seen), vec!["MoveForward", "TurnLeft", "TurnRight", "MoveForward"]);
}

#[test]
fn closed_producer_is_seen_after_full_drain() {
    let mut queue = CommandQueue::new();
    emit_command(&mut queue, Action::TurnLeft).unwrap();
    queue.close_producer();
    match queue.try_recv() {
        Poll::Received(c) => assert_eq!(c.name.as_str(), "TurnLeft"),
        _ => panic!("pending command lost"),
    }
    assert!(matches!(queue.try_recv(), Poll::Closed));
    assert!(matches!(queue.try_recv(), Poll::Closed));
    assert_eq!(emit_command(&mut queue, Action::TurnLeft), Err(SendError::ProducerClosed));
}

#[test]
fn send_after_consumer_gone_is_an_error() {
    let mut queue = CommandQueue::new();
    queue.close_consumer();
    assert_eq!(emit_command(&mut queue, Action::TurnRight), Err(SendError::ConsumerGone));
    assert!(queue.drain().is_empty());
}

#[test]
fn action_names() {
    assert_eq!(Action::MoveForward.name(), "MoveForward");
    assert_eq!(Action::TurnLeft.name(), "TurnLeft");
    assert_eq!(Action::TurnRight.name(), "TurnRight");
    assert_eq!(Command::for_action(Action::TurnRight).name.as_str(), "TurnRight");
    assert!(Identifier::new("a").same_as(&Identifier::new("a")));
    assert!(!Identifier::new("a").same_as(&Identifier::new("b")));
}

#[test]
fn rotate_cube_270_is_read_back() {
    let rotation = AtomicU16::new(0);
    assert_eq!(current_rotation(&rotation), 0);
    rotate_cube(&rotation, 270);
    assert_eq!(current_rotation(&rotation), 270);
}

#[test]
fn rotation_reads_the_last_value_written() {
    let rotation = AtomicU16::new(0);
    rotate_cube(&rotation, 10);
    rotate_cube(&rotation, 65535);
    assert_eq!(current_rotation(&rotation), 65535);
}

#[test]
fn rotate_from_script_refuses_out_of_range() {
    let rotation = AtomicU16::new(5);
    assert_eq!(rotate_cube_from_script(&rotation, &ScriptValue::Int(270)), Ok(270));
    assert_eq!(current_rotation(&rotation), 270);
    assert_eq!(
        rotate_cube_from_script(&rotation, &ScriptValue::Int(65536)),
        Err(MarshalError::OutOfRange)
    );
    assert_eq!(rotate_cube_from_script(&rotation, &ScriptValue::Int(-1)), Err(MarshalError::OutOfRange));
    assert_eq!(
        rotate_cube_from_script(&rotation, &ScriptValue::Text("90".to_string())),
        Err(MarshalError::WrongType)
    );
    assert_eq!(current_rotation(&rotation), 270);
}

#[test]
fn slot_accepts_one_registration() {
    let mut slot: RegistrationSlot<u32> = RegistrationSlot::new();
    assert!(!slot.is_registered());
    assert_eq!(slot.producer().err(), Some(SlotError::Empty));
    assert!(slot.register(7).is_ok());
    assert_eq!(slot.register(9), Err((SlotError::AlreadyRegistered, 9)));
    assert_eq!(slot.producer().copied(), Ok(7));
    assert!(slot.is_registered());
}

#[test]
fn slot_hands_out_the_registered_queue() {
    let mut slot: RegistrationSlot<CommandQueue> = RegistrationSlot::new();
    assert!(slot.producer_mut().is_err());
    slot.register(CommandQueue::new()).ok().unwrap();
    let queue = slot.producer_mut().ok().unwrap();
    emit_command(queue, Action::TurnRight).unwrap();
    let got = slot.producer_mut().ok().unwrap().drain();
    assert_eq!(names(&got), vec!["TurnRight"]);
}
