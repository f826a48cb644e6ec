//! The driver's decisions between one datagram and the next.
//!
//! The driver waits for a datagram from the robot. When none comes (or it
//! cannot be read) it pings the robot. When a `State` comes, the networks
//! compute the next actions from it and from the actions sent last time; the
//! actions go back to the robot as an `Action`; then the transition is
//! remembered. Any other message is refused. Waiting, sending and running the
//! networks happen outside this module: it decides, and keeps the record.

use vstd::prelude::*;
use crate::memory::MemoryItem;
use crate::message::{Message, MessageView};

verus! {

/// Number of actuators driven; the action vector starts with this many zeros.
pub const NUM_ACTIONS: usize = 12;

/// What happened while waiting for the robot.
pub enum Event {
    /// A datagram arrived and was read.
    Received(Message),
    /// Nothing arrived in time, or what arrived could not be read.
    ReceiveFailed,
}

/// Why the driver refused a message.
#[derive(Debug, Clone, Copy, PartialEq, Eq, Structural)]
pub enum DriverError {
    /// The robot sent a message the driver does not handle.
    UnhandledMessageType,
}

/// What the driver does next.
pub enum Command {
    /// Ping the robot, in case it does not know where the driver is.
    SendPing,
    /// Run the networks on the robot's new state and the previous actions,
    /// send the resulting actions, then call `record_step`.
    Step { state: Vec<u32>, actions: Vec<u32> },
    /// Refuse the message.
    Reject(DriverError),
}

/// The driver's memory: the last state seen, the last actions sent, and
/// every transition seen so far. Words are float bit patterns.
pub struct DriverState {
    pub state_vec: Vec<u32>,
    pub action_vec: Vec<u32>,
    pub memory: Vec<MemoryItem>,
}

/// The mathematical value of the driver's memory.
pub struct DriverView {
    pub state: Seq<u32>,
    pub actions: Seq<u32>,
    pub memory: Seq<(Seq<u32>, Seq<u32>, Seq<u32>)>,
}

impl View for DriverState {
    type V = DriverView;

    open spec fn view(&self) -> DriverView {
        DriverView {
            state: self.state_vec@,
            actions: self.action_vec@,
            memory: self.memory@.map_values(|m: MemoryItem| m@),
        }
    }
}

/// What the driver remembers after sending `actions` in answer to `state`.
pub open spec fn spec_record(d: DriverView, state: Seq<u32>, actions: Seq<u32>) -> DriverView {
    DriverView {
        state: state,
        actions: actions,
        memory: if d.state.len() > 0 {
            d.memory.push((d.state, d.actions, state))
        } else {
            d.memory
        },
    }
}

/// The inputs the networks get when `m` arrives: the new state and the
/// actions sent last; `None` when `m` is not a `State`.
pub open spec fn spec_step_inputs(d: DriverView, m: MessageView) -> Option<(Seq<u32>, Seq<u32>)> {
    match m {
        MessageView::State(s) => Some((s, d.actions)),
        _ => None,
    }
}

/// The networks are always fed the actions that were recorded last.
pub proof fn lemma_step_uses_recorded_actions(d: DriverView, state: Seq<u32>, actions: Seq<u32>, next: Seq<u32>)
    ensures
        spec_step_inputs(spec_record(d, state, actions), MessageView::State(next)) == Some((next, actions)),
{
}

/// A remembered transition pairs the state seen before with the actions that
/// were sent in answer to it (the actions held before the call, not the ones
/// being recorded now), and ends in the state being recorded.
pub proof fn lemma_record_pairs_state_with_its_actions(d: DriverView, state: Seq<u32>, actions: Seq<u32>)
    requires
        d.state.len() > 0,
    ensures
        spec_record(d, state, actions).memory.len() == d.memory.len() + 1,
        spec_record(d, state, actions).memory.last().0 == d.state,
        spec_record(d, state, actions).memory.last().1 == d.actions,
        spec_record(d, state, actions).memory.last().2 == state,
        spec_record(d, state, actions).state == state,
        spec_record(d, state, actions).actions == actions,
{
}

/// Recording a step adds exactly one transition when a state had been seen
/// before and none otherwise, and keeps every earlier transition.
pub proof fn lemma_record_grows_memory(d: DriverView, state: Seq<u32>, actions: Seq<u32>)
    ensures
        spec_record(d, state, actions).memory.len() == d.memory.len() + if d.state.len() > 0 { 1int } else { 0int },
        spec_record(d, state, actions).memory.take(d.memory.len() as int) == d.memory,
{
    assert(spec_record(d, state, actions).memory.take(d.memory.len() as int) =~= d.memory);
}

/// The remembered transitions form one unbroken history: each starts where
/// the one before it ended, and the last ends in the state seen last, which
/// is not empty.
pub open spec fn history_chained(d: DriverView) -> bool {
    &&& forall|k: int| 0 <= k < d.memory.len() - 1 ==> (#[trigger] d.memory[k]).2 == d.memory[k + 1].0
    &&& d.memory.len() > 0 ==> d.memory.last().2 == d.state && d.state.len() > 0
}

/// Recording a step keeps the history unbroken, unless an empty state is
/// recorded after a non-empty one (the next step then remembers nothing).
pub proof fn lemma_record_keeps_history_chained(d: DriverView, state: Seq<u32>, actions: Seq<u32>)
    requires
        history_chained(d),
        state.len() > 0 || d.state.len() == 0,
    ensures
        history_chained(spec_record(d, state, actions)),
{
    let r = spec_record(d, state, actions);
    if d.state.len() > 0 {
        assert forall|k: int| 0 <= k < r.memory.len() - 1 implies (#[trigger] r.memory[k]).2 == r.memory[k + 1].0 by {
            if k < d.memory.len() - 1 {
                assert(r.memory[k] == d.memory[k]);
                assert(r.memory[k + 1] == d.memory[k + 1]);
            } else {
                assert(k == d.memory.len() - 1);
                assert(r.memory[k] == d.memory.last());
            }
        }
    }
}

impl DriverState {

    /// A driver that has seen no state and has sent all-zero actions.
    pub fn new() -> (res: Self)
        ensures
            res@.state.len() == 0,
            res@.actions == Seq::new(NUM_ACTIONS as nat, |i: int| 0u32),
            res.action_vec@.len() == 12,
            forall|i: int| 0 <= i < 12 ==> #[trigger] res.action_vec@[i] == 0,
            res@.memory.len() == 0,
            history_chained(res@),
    {
        let mut action_vec: Vec<u32> = Vec::new();
        let mut i: usize = 0;
        while i < NUM_ACTIONS
            invariant
                i <= NUM_ACTIONS,
                action_vec@ == Seq::new(i as nat, |k: int| 0u32),
            decreases NUM_ACTIONS - i,
        {
            action_vec.push(0);
            i = i + 1;
            assert(action_vec@ =~= Seq::new(i as nat, |k: int| 0u32));
        }
        let res = DriverState { state_vec: Vec::new(), action_vec, memory: Vec::new() };
        assert(res@.memory =~= Seq::empty());
        res
    }

    /// Decides what to do about an event: ping after a failed receive; run
    /// the networks on a `State` together with the last actions sent; refuse
    /// any other message.
    pub fn handle_event(&self, event: Event) -> (cmd: Command)
        ensures
            event is ReceiveFailed ==> cmd is SendPing,
            event matches Event::Received(m) ==> match spec_step_inputs(self@, m@) {
                Some((s, a)) => cmd matches Command::Step { state, actions } && state@ == s && actions@ == a,
                None => cmd == Command::Reject(DriverError::UnhandledMessageType),
            },
            event matches Event::Received(Message::State(s)) ==> (cmd matches Command::Step { state, actions }
                && state@ == s@ && actions@ == self.action_vec@),
            event matches Event::Received(Message::Action(_)) ==> cmd == Command::Reject(DriverError::UnhandledMessageType),
            event matches Event::Received(Message::Ping) ==> cmd == Command::Reject(DriverError::UnhandledMessageType),
            event matches Event::Received(Message::Pong) ==> cmd == Command::Reject(DriverError::UnhandledMessageType),
    {
        match event {
            Event::ReceiveFailed => Command::SendPing,
            Event::Received(Message::State(new_state_vec)) => {
                Command::Step { state: new_state_vec, actions: self.action_vec.clone() }
            },
            Event::Received(_) => Command::Reject(DriverError::UnhandledMessageType),
        }
    }

    /// Records that `new_actions` were sent in answer to `new_state`. The
    /// transition from the previous state under the previous actions to
    /// `new_state` is remembered, unless no state had been seen before.
    pub fn record_step(&mut self, new_state: Vec<u32>, new_actions: Vec<u32>)
        ensures
            final(self)@ == spec_record(old(self)@, new_state@, new_actions@),
            final(self).state_vec@ == new_state@,
            final(self).action_vec@ == new_actions@,
            old(self).state_vec@.len() > 0 ==> {
                &&& final(self).memory@.len() == old(self).memory@.len() + 1
                &&& final(self).memory@.last().prev_state@ == old(self).state_vec@
                &&& final(self).memory@.last().prev_actions@ == old(self).action_vec@
                &&& final(self).memory@.last().new_state@ == new_state@
            },
            old(self).state_vec@.len() == 0 ==> final(self).memory@.len() == old(self).memory@.len(),
            forall|k: int| 0 <= k < old(self).memory@.len() ==> (#[trigger] final(self).memory@[k])@ == old(self).memory@[k]@,
    {
        let mut previous_action_vec = new_actions;
        std::mem::swap(&mut self.action_vec, &mut previous_action_vec);
        let mut previous_state_vec = new_state.clone();
        assert(previous_state_vec@ =~= new_state@);
        std::mem::swap(&mut self.state_vec, &mut previous_state_vec);

        if previous_state_vec.len() > 0 {
            let ghost old_mem = self@.memory;
            self.memory.push(
                MemoryItem {
                    prev_state: previous_state_vec,
                    prev_actions: previous_action_vec,
                    new_state: new_state,
                },
            );
            assert(self@.memory =~= old_mem.push((old(self).state_vec@, old(self).action_vec@, new_state@)));
        }
    }
}

} // verus!
