use neural_control::driver::{Command, DriverError, DriverState, Event, NUM_ACTIONS};
use neural_control::message::Message;

#[test]
fn new_driver_sends_zero_actions() {
    let d = DriverState::new();
    assert!(d.state_vec.is_empty());
    assert_eq!(d.action_vec, vec![0u32; NUM_ACTIONS]);
    assert_eq!(NUM_ACTIONS, 12);
    assert!(d.memory.is_empty());
}

#[test]
fn failed_receive_pings() {
    let d = DriverState::new();
    assert!(matches!(d.handle_event(Event::ReceiveFailed), Command::SendPing));
}

#[test]
fn other_messages_are_refused() {
    let d = DriverState::new();
    for m in [Message::Ping, Message::Pong, Message::Action(vec![1, 2])] {
        match d.handle_event(Event::Received(m)) {
            Command::Reject(e) => assert_eq!(e, DriverError::UnhandledMessageType),
            _ => panic!("expected a refusal"),
        }
    }
}

#[test]
fn state_runs_the_networks_on_last_actions() {
    let mut d = DriverState::new();
    d.record_step(vec![5, 6], vec![7, 8, 9]);
    match d.handle_event(Event::Received(Message::State(vec![1, 2, 3]))) {
        Command::Step { state, actions } => {
            assert_eq!(state, vec![1, 2, 3]);
            assert_eq!(actions, vec![7, 8, 9]);
        }
        _ => panic!("expected a step"),
    }
}

#[test]
fn first_step_remembers_nothing_later_ones_remember_transitions() {
    let mut d = DriverState::new();
    d.record_step(vec![1, 1], vec![2]);
    assert!(d.memory.is_empty());
    assert_eq!(d.state_vec, vec![1, 1]);
    assert_eq!(d.action_vec, vec![2]);

    d.record_step(vec![3, 3], vec![4]);
    assert_eq!(d.memory.len(), 1);
    assert_eq!(d.memory[0].prev_state, vec![1, 1]);
    assert_eq!(d.memory[0].prev_actions, vec![2]);
    assert_eq!(d.memory[0].new_state, vec![3, 3]);

    d.record_step(vec![5, 5], vec![6]);
    assert_eq!(d.memory.len(), 2);
    assert_eq!(d.memory[0].new_state, vec![3, 3]);
    assert_eq!(d.memory[1].prev_state, vec![3, 3]);
    assert_eq!(d.memory[1].prev_actions, vec![4]);
    assert_eq!(d.memory[1].new_state, vec![5, 5]);
    assert_eq!(d.state_vec, vec![5, 5]);
    assert_eq!(d.action_vec, vec![6]);
}

#[test]
fn first_step_follows_zero_actions() {
    let mut d = DriverState::new();
    d.record_step(vec![9], vec![1]);
    d.record_step(vec![8], vec![2]);
    assert_eq!(d.memory[0].prev_actions, vec![1]);
    let fresh = DriverState::new();
    match fresh.handle_event(Event::Received(Message::State(vec![4]))) {
        Command::Step { actions, .. } => assert_eq!(actions, vec![0u32; 12]),
        _ => panic!("expected a step"),
    }
}

#[test]
fn remembered_history_is_chained() {
    let mut d = DriverState::new();
    for k in 1..6u32 {
        d.record_step(vec![k, k + 100], vec![k * 10]);
    }
    assert_eq!(d.memory.len(), 4);
    for k in 0..3 {
        assert_eq!(d.memory[k].new_state, d.memory[k + 1].prev_state);
    }
    assert_eq!(d.memory[3].new_state, d.state_vec);
}

#[test]
fn empty_state_leaves_a_gap() {
    let mut d = DriverState::new();
    d.record_step(vec![1], vec![1]);
    d.record_step(vec![], vec![2]);
    assert_eq!(d.memory.len(), 1);
    assert!(d.memory[0].new_state.is_empty());
    d.record_step(vec![3], vec![3]);
    assert_eq!(d.memory.len(), 1);
    d.record_step(vec![4], vec![4]);
    assert_eq!(d.memory.len(), 2);
    assert_eq!(d.memory[1].prev_state, vec![3]);
}
