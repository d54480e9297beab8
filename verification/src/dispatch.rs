//! Routing of commands to the four outputs.

use crate::command::{decode_spec, is_recognized, Channel, Command};
use crate::intensity::{IntensityChannel, Ramp};
use crate::toggle::ToggleOutput;
use vstd::prelude::*;

verus! {

/// The state of the four outputs as mathematics sees it.
pub struct Outputs {
    pub red: Ramp,
    pub green: Ramp,
    pub blue: Ramp,
    pub white: bool,
}

impl Outputs {
    /// Each dimmable output is within its maximum.
    pub open spec fn wf(self) -> bool {
        self.red.wf() && self.green.wf() && self.blue.wf()
    }

    /// The dimmable output of that name.
    pub open spec fn channel(self, which: Channel) -> Ramp {
        match which {
            Channel::Red => self.red,
            Channel::Green => self.green,
            Channel::Blue => self.blue,
        }
    }

    /// These outputs with one dimmable output replaced.
    pub open spec fn with_channel(self, which: Channel, ramp: Ramp) -> Outputs {
        match which {
            Channel::Red => Outputs { red: ramp, ..self },
            Channel::Green => Outputs { green: ramp, ..self },
            Channel::Blue => Outputs { blue: ramp, ..self },
        }
    }

    /// What one command does to the outputs.
    pub open spec fn apply(self, cmd: Command) -> Outputs {
        match cmd {
            Command::IncrementChannel(which) => self.with_channel(
                which,
                self.channel(which).advance(),
            ),
            Command::ToggleOutput => Outputs { white: !self.white, ..self },
            Command::NoOp => self,
        }
    }

    /// What a run of commands does to the outputs, first command first.
    pub open spec fn apply_all(self, cmds: Seq<Command>) -> Outputs
        decreases cmds.len(),
    {
        if cmds.len() == 0 {
            self
        } else {
            self.apply_all(cmds.drop_last()).apply(cmds.last())
        }
    }
}

/// The write that the caller owes to the hardware once a command has been
/// applied to the state.
#[derive(Clone, Copy, Debug, PartialEq, Eq, Structural)]
pub enum DriverWrite {
    /// No output changed.
    Nothing,
    /// Set the duty of one dimmable output.
    SetDuty { which: Channel, duty: u32 },
    /// Toggle the on/off output; `on` is the level it has afterwards.
    Toggle { on: bool },
}

/// The write owed for a command, given the outputs after it.
pub open spec fn owed_write(after: Outputs, cmd: Command) -> DriverWrite {
    match cmd {
        Command::IncrementChannel(which) => DriverWrite::SetDuty {
            which,
            duty: after.channel(which).duty as u32,
        },
        Command::ToggleOutput => DriverWrite::Toggle { on: after.white },
        Command::NoOp => DriverWrite::Nothing,
    }
}

/// The three dimmable outputs and the on/off output, under one owner.
#[derive(Debug, PartialEq, Eq)]
pub struct Dispatcher {
    red: IntensityChannel,
    green: IntensityChannel,
    blue: IntensityChannel,
    white: ToggleOutput,
}

impl View for Dispatcher {
    type V = Outputs;

    closed spec fn view(&self) -> Outputs {
        Outputs { red: self.red@, green: self.green@, blue: self.blue@, white: self.white@ }
    }
}

impl Clone for Dispatcher {
    fn clone(&self) -> (copy: Self)
        ensures
            copy == *self,
    {
        proof {
            use_type_invariant(self);
        }
        Dispatcher {
            red: self.red.clone(),
            green: self.green.clone(),
            blue: self.blue.clone(),
            white: self.white.clone(),
        }
    }
}

impl Dispatcher {
    /// Holds of every dispatcher there is: each dimmable output is within
    /// its maximum.
    #[verifier::type_invariant]
    pub open spec fn inv(self) -> bool {
        self@.wf()
    }

    /// Takes the four outputs over, each in the state it is in.
    pub fn new(
        red: IntensityChannel,
        green: IntensityChannel,
        blue: IntensityChannel,
        white: ToggleOutput,
    ) -> (dispatcher: Self)
        ensures
            dispatcher@ == (Outputs { red: red@, green: green@, blue: blue@, white: white@ }),
            dispatcher@.wf(),
    {
        proof {
            use_type_invariant(&red);
            use_type_invariant(&green);
            use_type_invariant(&blue);
        }
        Dispatcher { red, green, blue, white }
    }

    /// The dimmable output of that name, to look at.
    pub fn channel(&self, which: Channel) -> (channel: &IntensityChannel)
        ensures
            channel@ == self@.channel(which),
            self@.wf(),
    {
        proof {
            use_type_invariant(&self.red);
            use_type_invariant(&self.green);
            use_type_invariant(&self.blue);
        }
        match which {
            Channel::Red => &self.red,
            Channel::Green => &self.green,
            Channel::Blue => &self.blue,
        }
    }

    /// The on/off output, to look at.
    pub fn output(&self) -> (output: &ToggleOutput)
        ensures
            output@ == self@.white,
    {
        &self.white
    }

    /// Applies one command to the output it names and to no other, and
    /// returns the write that the hardware is owed for it.
    pub fn dispatch(&mut self, cmd: Command) -> (write: DriverWrite)
        ensures
            final(self)@ == old(self)@.apply(cmd),
            write == owed_write(final(self)@, cmd),
            final(self)@.wf(),
            forall|other: Channel|
                cmd != Command::IncrementChannel(other) ==> #[trigger] final(self)@.channel(other)
                    == old(self)@.channel(other),
            forall|any: Channel| #[trigger]
                final(self)@.channel(any).max == old(self)@.channel(any).max,
            cmd != Command::ToggleOutput ==> final(self)@.white == old(self)@.white,
            cmd == Command::NoOp ==> final(self)@ == old(self)@ && write == DriverWrite::Nothing,
        no_unwind
    {
        proof {
            use_type_invariant(&self.red);
            use_type_invariant(&self.green);
            use_type_invariant(&self.blue);
        }
        match cmd {
            Command::IncrementChannel(Channel::Red) => {
                self.red.advance();
                DriverWrite::SetDuty { which: Channel::Red, duty: self.red.current_duty() }
            },
            Command::IncrementChannel(Channel::Green) => {
                self.green.advance();
                DriverWrite::SetDuty { which: Channel::Green, duty: self.green.current_duty() }
            },
            Command::IncrementChannel(Channel::Blue) => {
                self.blue.advance();
                DriverWrite::SetDuty { which: Channel::Blue, duty: self.blue.current_duty() }
            },
            Command::ToggleOutput => {
                self.white.flip();
                DriverWrite::Toggle { on: self.white.is_on() }
            },
            Command::NoOp => DriverWrite::Nothing,
        }
    }
}

/// A command for one dimmable output advances that output and leaves the
/// other two and the on/off output as they were; no command changes a
/// maximum.
pub proof fn lemma_dispatch_isolation(outputs: Outputs, which: Channel, other: Channel)
    ensures
        outputs.apply(Command::IncrementChannel(which)).channel(which) == outputs.channel(
            which,
        ).advance(),
        other != which ==> outputs.apply(Command::IncrementChannel(which)).channel(other)
            == outputs.channel(other),
        outputs.apply(Command::IncrementChannel(which)).white == outputs.white,
        outputs.apply(Command::IncrementChannel(which)).channel(other).max == outputs.channel(
            other,
        ).max,
{
}

/// Flipping the on/off output leaves the three dimmable outputs as they were.
pub proof fn lemma_toggle_isolation(outputs: Outputs)
    ensures
        outputs.apply(Command::ToggleOutput).white == !outputs.white,
        outputs.apply(Command::ToggleOutput).red == outputs.red,
        outputs.apply(Command::ToggleOutput).green == outputs.green,
        outputs.apply(Command::ToggleOutput).blue == outputs.blue,
{
}

/// A payload that is not one recognized byte (empty, longer than one byte,
/// or one other byte) changes no output.
pub proof fn lemma_unrecognized_payload_changes_nothing(outputs: Outputs, payload: Seq<u8>)
    requires
        payload.len() != 1 || !is_recognized(payload[0]),
    ensures
        outputs.apply(decode_spec(payload)) == outputs,
        owed_write(outputs.apply(decode_spec(payload)), decode_spec(payload))
            == DriverWrite::Nothing,
{
}

/// Commands keep every dimmable output within its maximum.
pub proof fn lemma_apply_keeps_wf(outputs: Outputs, cmd: Command)
    requires
        outputs.wf(),
    ensures
        outputs.apply(cmd).wf(),
{
}

} // verus!
