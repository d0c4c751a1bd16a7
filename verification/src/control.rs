//! Manual control: the commands an operator can give in place of inference.

use vstd::prelude::*;

verus! {

/// A command of the operator.
#[derive(Clone, Copy, PartialEq, Eq, Debug)]
pub enum Command {
    Forward,
    Back,
    TurnLeft,
    TurnRight,
}

/// Who chooses drive and turn of an agent.
#[derive(Clone, Copy, PartialEq, Eq, Debug)]
pub enum Control {
    /// The agent's own network.
    Autonomous,
    /// The operator.
    Manual,
}

impl Command {
    /// The drive along the heading that a command stands for, in place of the
    /// first output of inference: full ahead is 1, full back is -1, and a
    /// turn drives nowhere.
    pub open spec fn spec_drive(self) -> int {
        match self {
            Command::Forward => 1,
            Command::Back => -1,
            Command::TurnLeft => 0,
            Command::TurnRight => 0,
        }
    }

    /// The turn that a command stands for, in place of the second output of
    /// inference: full left is 1, full right is -1, and a drive turns nowhere.
    pub open spec fn spec_turn(self) -> int {
        match self {
            Command::Forward => 0,
            Command::Back => 0,
            Command::TurnLeft => 1,
            Command::TurnRight => -1,
        }
    }

    /// The drive along the heading that a command stands for.
    pub fn drive(self) -> (d: i8)
        ensures
            d == self.spec_drive(),
    {
        match self {
            Command::Forward => 1,
            Command::Back => -1,
            Command::TurnLeft => 0,
            Command::TurnRight => 0,
        }
    }

    /// The turn that a command stands for.
    pub fn turn(self) -> (t: i8)
        ensures
            t == self.spec_turn(),
    {
        match self {
            Command::Forward => 0,
            Command::Back => 0,
            Command::TurnLeft => 1,
            Command::TurnRight => -1,
        }
    }
}

/// The one command `c` if `held`, and nothing otherwise.
pub open spec fn given(held: bool, c: Command) -> Seq<Command> {
    if held {
        seq![c]
    } else {
        Seq::empty()
    }
}

/// The commands for the keys that are held, in the order in which they take
/// effect: ahead, left, right, back.
pub open spec fn commands_held(up: bool, left: bool, right: bool, down: bool) -> Seq<Command> {
    given(up, Command::Forward) + given(left, Command::TurnLeft) + given(
        right,
        Command::TurnRight,
    ) + given(down, Command::Back)
}

/// Turns the state of the four direction keys into the commands to carry out,
/// in order. Keys that are held together all take effect.
pub fn mouse_player(up: bool, left: bool, right: bool, down: bool) -> (commands: Vec<Command>)
    ensures
        commands@ == commands_held(up, left, right, down),
{
    let mut commands: Vec<Command> = Vec::new();
    if up {
        commands.push(Command::Forward);
    }
    if left {
        commands.push(Command::TurnLeft);
    }
    if right {
        commands.push(Command::TurnRight);
    }
    if down {
        commands.push(Command::Back);
    }
    assert(commands@ =~= commands_held(up, left, right, down));
    commands
}

} // verus!
