//! The command loop as a state machine: it awaits input until a line asks
//! it to stop, and then stays stopped.

use crate::command::{command_line, read_turn, turn_of, Turn, TurnView};
use vstd::prelude::*;

verus! {

/// The two states of the loop.
#[derive(Debug, Clone, Copy, PartialEq, Eq, Structural)]
pub enum Phase {
    AwaitingInput,
    Stopped,
}

/// A run of the command loop.
#[derive(Debug, Clone, PartialEq, Eq)]
pub struct Session {
    phase: Phase,
}

impl View for Session {
    type V = Phase;

    closed spec fn view(&self) -> Phase {
        self.phase
    }
}

/// The state after a line, and the turn that the line is answered with. A
/// stopped loop answers every line by stopping.
pub open spec fn entered(phase: Phase, input: Seq<char>) -> (Phase, TurnView) {
    match phase {
        Phase::Stopped => (Phase::Stopped, TurnView::Stop),
        Phase::AwaitingInput => {
            let turn = turn_of(input);
            if turn is Stop {
                (Phase::Stopped, turn)
            } else {
                (Phase::AwaitingInput, turn)
            }
        },
    }
}

/// The state after a run of lines, entered one after the other.
pub open spec fn phase_after(phase: Phase, inputs: Seq<Seq<char>>) -> Phase
    decreases inputs.len(),
{
    if inputs.len() == 0 {
        phase
    } else {
        entered(phase_after(phase, inputs.drop_last()), inputs.last()).0
    }
}

/// Whether the line asks the loop to stop: its first word is `exit`.
pub open spec fn asks_to_stop(input: Seq<char>) -> bool {
    command_line(input) matches Some(line) && line.command == "exit"@
}

/// What is written before each line is read, with no line break behind it.
pub const PROMPT: &'static str = "> ";

impl Session {
    /// A loop that awaits its first line.
    pub fn new() -> (session: Session)
        ensures
            session@ == Phase::AwaitingInput,
    {
        Session { phase: Phase::AwaitingInput }
    }

    /// The state of the loop.
    pub fn phase(&self) -> (phase: Phase)
        ensures
            phase == self@,
    {
        self.phase
    }

    /// Takes one line of input and says what to do with it.
    pub fn enter(&mut self, input: &str) -> (turn: Turn)
        ensures
            (final(self)@, turn@) == entered(old(self)@, input@),
    {
        match self.phase {
            Phase::Stopped => Turn::Stop,
            Phase::AwaitingInput => {
                let turn = read_turn(input);
                if let Turn::Stop = turn {
                    self.phase = Phase::Stopped;
                }
                turn
            },
        }
    }
}

/// The loop stops on a line if and only if the line's first word is `exit`.
pub proof fn law_stops_only_on_exit(input: Seq<char>)
    ensures
        entered(Phase::AwaitingInput, input).0 == Phase::Stopped <==> asks_to_stop(input),
{
    reveal_strlit("get");
    reveal_strlit("set");
    reveal_strlit("delete");
    reveal_strlit("ping");
    reveal_strlit("exit");
    assert("get"@.len() == 3 && "set"@.len() == 3 && "delete"@.len() == 6);
    assert("ping"@.len() == 4 && "ping"@[0] == 'p');
}

/// A stopped loop stays stopped, whatever is entered.
pub proof fn law_stopped_is_final(inputs: Seq<Seq<char>>)
    ensures
        phase_after(Phase::Stopped, inputs) == Phase::Stopped,
    decreases inputs.len(),
{
    if inputs.len() > 0 {
        law_stopped_is_final(inputs.drop_last());
    }
}

/// The loop is stopped after a run of lines if and only if one of them
/// asked it to stop.
pub proof fn law_stopped_by_some_line(inputs: Seq<Seq<char>>)
    ensures
        phase_after(Phase::AwaitingInput, inputs) == Phase::Stopped <==> exists|i: int|
            0 <= i < inputs.len() && asks_to_stop(#[trigger] inputs[i]),
    decreases inputs.len(),
{
    if inputs.len() > 0 {
        let before = inputs.drop_last();
        law_stopped_by_some_line(before);
        law_stops_only_on_exit(inputs.last());
        if phase_after(Phase::AwaitingInput, before) == Phase::Stopped {
            let i = choose|i: int| 0 <= i < before.len() && asks_to_stop(#[trigger] before[i]);
            assert(inputs[i] == before[i]);
        } else if asks_to_stop(inputs.last()) {
            assert(inputs[inputs.len() - 1] == inputs.last());
        } else {
            assert forall|i: int| 0 <= i < inputs.len() implies !asks_to_stop(
                #[trigger] inputs[i],
            ) by {
                if i < before.len() {
                    assert(inputs[i] == before[i]);
                }
            }
        }
    }
}

} // verus!
