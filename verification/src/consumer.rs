//! The loop that consumes inbound events: it waits for the next event,
//! dispatches a received message, and closes for good when a fetch fails.
//!
//! Fetching blocks on the connection and the write goes to the hardware, so
//! the caller does both. The consumer is told what a fetch gave, answers
//! with the write that is owed, and is told when the dispatch has returned.

use crate::command::{decode, decode_spec, is_recognized, Command};
use crate::dispatch::{owed_write, Dispatcher, DriverWrite, Outputs};
use vstd::prelude::*;

verus! {

/// Where the loop stands.
#[derive(Clone, Copy, Debug, PartialEq, Eq, Structural)]
pub enum LoopState {
    /// The next event is to be fetched.
    Waiting,
    /// A received message is being dispatched.
    Dispatching,
    /// A fetch has failed. The loop is over and fetches no more.
    Closed,
}

/// What can move the loop.
#[derive(Clone, Copy, Debug, PartialEq, Eq, Structural)]
pub enum Signal {
    /// A fetch gave a received message.
    MessageReceived,
    /// A fetch gave an event of the connection's own life: connected,
    /// disconnected, subscribed and the like.
    LifecycleEvent,
    /// The dispatch of the last message has returned.
    DispatchReturned,
    /// A fetch failed: the connection is closed or broken.
    FetchFailed,
}

/// The transition table. A failed fetch closes the loop from any state, and
/// nothing leaves `Closed`. A message moves `Waiting` to `Dispatching`, the
/// return of the dispatch moves `Dispatching` back to `Waiting`. Every other
/// pair is no transition.
pub open spec fn next_state(state: LoopState, signal: Signal) -> LoopState {
    match (state, signal) {
        (LoopState::Closed, _) => LoopState::Closed,
        (_, Signal::FetchFailed) => LoopState::Closed,
        (LoopState::Waiting, Signal::MessageReceived) => LoopState::Dispatching,
        (LoopState::Dispatching, Signal::DispatchReturned) => LoopState::Waiting,
        (same, _) => same,
    }
}

impl LoopState {
    /// The state after a signal, by the transition table.
    pub fn next(self, signal: Signal) -> (next: LoopState)
        ensures
            next == next_state(self, signal),
    {
        match self {
            LoopState::Closed => LoopState::Closed,
            LoopState::Waiting => match signal {
                Signal::FetchFailed => LoopState::Closed,
                Signal::MessageReceived => LoopState::Dispatching,
                _ => LoopState::Waiting,
            },
            LoopState::Dispatching => match signal {
                Signal::FetchFailed => LoopState::Closed,
                Signal::DispatchReturned => LoopState::Waiting,
                _ => LoopState::Dispatching,
            },
        }
    }
}

/// What one fetch from the connection gave. The payload of a message stays
/// with the connection and is only borrowed.
#[derive(Clone, Copy, Debug, PartialEq, Eq)]
pub enum Fetched<'a> {
    /// A received message, with its payload.
    Message(&'a [u8]),
    /// An event of the connection's own life. It carries nothing that the
    /// loop looks at.
    Lifecycle,
    /// The fetch failed.
    Failed,
}

impl<'a> Fetched<'a> {
    /// The signal that this fetch is to the loop.
    pub open spec fn signal_spec(self) -> Signal {
        match self {
            Fetched::Message(_) => Signal::MessageReceived,
            Fetched::Lifecycle => Signal::LifecycleEvent,
            Fetched::Failed => Signal::FetchFailed,
        }
    }

    /// The command in what was fetched: the decoded payload of a message,
    /// and `NoOp` for anything else.
    pub open spec fn command(self) -> Command {
        match self {
            Fetched::Message(payload) => decode_spec(payload@),
            _ => Command::NoOp,
        }
    }

    /// The signal that this fetch is to the loop.
    #[verifier::when_used_as_spec(signal_spec)]
    pub fn signal(self) -> (signal: Signal)
        ensures
            signal == self.signal_spec(),
    {
        match self {
            Fetched::Message(_) => Signal::MessageReceived,
            Fetched::Lifecycle => Signal::LifecycleEvent,
            Fetched::Failed => Signal::FetchFailed,
        }
    }
}

/// The consumer as mathematics sees it.
pub struct Consumer {
    pub state: LoopState,
    pub outputs: Outputs,
}

impl Consumer {
    /// A dispatch takes place: a message arrives while the loop waits.
    pub open spec fn dispatches(self, fetched: Fetched) -> bool {
        self.state == LoopState::Waiting && fetched is Message
    }

    /// The consumer after it was told what a fetch gave.
    pub open spec fn after_fetch(self, fetched: Fetched) -> Consumer {
        Consumer {
            state: next_state(self.state, fetched.signal()),
            outputs: if self.dispatches(fetched) {
                self.outputs.apply(fetched.command())
            } else {
                self.outputs
            },
        }
    }

    /// The write owed to the hardware for what a fetch gave.
    pub open spec fn write_after_fetch(self, fetched: Fetched) -> DriverWrite {
        if self.dispatches(fetched) {
            owed_write(self.after_fetch(fetched).outputs, fetched.command())
        } else {
            DriverWrite::Nothing
        }
    }

    /// The consumer after it was told that the dispatch has returned.
    pub open spec fn after_return(self) -> Consumer {
        Consumer { state: next_state(self.state, Signal::DispatchReturned), outputs: self.outputs }
    }

    /// One turn of the loop. Only a waiting loop fetches; what it fetched is
    /// dispatched to the end before the turn is over.
    pub open spec fn turn(self, fetched: Fetched) -> Consumer {
        if self.state == LoopState::Waiting {
            self.after_fetch(fetched).after_return()
        } else {
            self
        }
    }

    /// The consumer after a connection gave `script`, one entry per fetch.
    /// Entries that come after the loop has stopped fetching are never
    /// asked for and change nothing.
    pub open spec fn run(self, script: Seq<Fetched>) -> Consumer
        decreases script.len(),
    {
        if script.len() == 0 {
            self
        } else {
            self.run(script.drop_last()).turn(script.last())
        }
    }

    /// How many entries of `script` the loop fetches.
    pub open spec fn fetches(self, script: Seq<Fetched>) -> nat
        decreases script.len(),
    {
        if script.len() == 0 {
            0
        } else if self.run(script.drop_last()).state == LoopState::Waiting {
            self.fetches(script.drop_last()) + 1
        } else {
            self.fetches(script.drop_last())
        }
    }

    /// The writes owed while the loop runs over `script`: one for each
    /// dispatch, in the order of the messages.
    pub open spec fn writes(self, script: Seq<Fetched>) -> Seq<DriverWrite>
        decreases script.len(),
    {
        if script.len() == 0 {
            Seq::empty()
        } else {
            let before = self.run(script.drop_last());
            if before.dispatches(script.last()) {
                self.writes(script.drop_last()).push(before.write_after_fetch(script.last()))
            } else {
                self.writes(script.drop_last())
            }
        }
    }
}

/// The consumer of inbound events. It owns the outputs for as long as it
/// lives.
#[derive(Debug, PartialEq, Eq)]
pub struct EventConsumer {
    state: LoopState,
    dispatcher: Dispatcher,
}

impl View for EventConsumer {
    type V = Consumer;

    closed spec fn view(&self) -> Consumer {
        Consumer { state: self.state, outputs: self.dispatcher@ }
    }
}

/// What a run over a script of fetches came to.
#[derive(Debug, PartialEq, Eq)]
pub struct RunReport {
    /// How many fetches the loop made.
    pub fetches: usize,
    /// The writes owed to the hardware, one for each dispatch, in order.
    pub writes: Vec<DriverWrite>,
}

impl Clone for EventConsumer {
    fn clone(&self) -> (copy: Self)
        ensures
            copy == *self,
    {
        EventConsumer { state: self.state, dispatcher: self.dispatcher.clone() }
    }
}

impl EventConsumer {
    /// A consumer that waits for its first event.
    pub fn new(dispatcher: Dispatcher) -> (consumer: Self)
        ensures
            consumer@ == (Consumer { state: LoopState::Waiting, outputs: dispatcher@ }),
            consumer@.outputs.wf(),
    {
        proof {
            use_type_invariant(&dispatcher);
        }
        EventConsumer { state: LoopState::Waiting, dispatcher }
    }

    /// Where the loop stands.
    pub fn state(&self) -> (state: LoopState)
        ensures
            state == self@.state,
    {
        self.state
    }

    /// The outputs, to look at.
    pub fn dispatcher(&self) -> (dispatcher: &Dispatcher)
        ensures
            dispatcher@ == self@.outputs,
            self@.outputs.wf(),
    {
        proof {
            use_type_invariant(&self.dispatcher);
        }
        &self.dispatcher
    }

    /// Takes what a fetch gave. A message that arrives while the loop waits
    /// is decoded and dispatched, and the loop is then `Dispatching` until
    /// `on_dispatch_returned`. A failed fetch closes the loop. Anything else
    /// is consumed and ignored.
    pub fn on_fetch(&mut self, fetched: Fetched<'_>) -> (write: DriverWrite)
        ensures
            final(self)@ == old(self)@.after_fetch(fetched),
            write == old(self)@.write_after_fetch(fetched),
            final(self)@.outputs.wf(),
            fetched.command() == Command::NoOp ==> final(self)@.outputs == old(self)@.outputs
                && write == DriverWrite::Nothing,
            fetched is Failed ==> final(self)@.state == LoopState::Closed,
            old(self)@.state == LoopState::Closed ==> final(self)@ == old(self)@,
    {
        proof {
            use_type_invariant(&self.dispatcher);
        }
        let write = match (self.state, fetched) {
            (LoopState::Waiting, Fetched::Message(payload)) => self.dispatcher.dispatch(
                decode(payload),
            ),
            _ => DriverWrite::Nothing,
        };
        self.state = self.state.next(fetched.signal());
        write
    }

    /// Takes the news that the dispatch has returned: a loop that was
    /// `Dispatching` waits again, whatever the dispatch did.
    pub fn on_dispatch_returned(&mut self)
        ensures
            final(self)@ == old(self)@.after_return(),
            old(self)@.state == LoopState::Dispatching ==> final(self)@.state
                == LoopState::Waiting,
    {
        self.state = self.state.next(Signal::DispatchReturned);
    }

    /// Runs the loop over a connection that gives `script`, one entry per
    /// fetch: events are taken strictly in order, each dispatched to the
    /// end before the next is fetched, until a fetch fails or the script
    /// is used up. Nothing is fetched once the loop has closed.
    pub fn run(&mut self, script: &[Fetched<'_>]) -> (report: RunReport)
        ensures
            final(self)@ == old(self)@.run(script@),
            report.fetches == old(self)@.fetches(script@),
            report.writes@ == old(self)@.writes(script@),
            final(self)@.outputs.wf(),
    {
        let ghost start = self@;
        let mut writes: Vec<DriverWrite> = Vec::new();
        let mut fetches: usize = 0;
        proof {
            use_type_invariant(&self.dispatcher);
            assert(script@.take(0) =~= Seq::<Fetched>::empty());
        }
        while fetches < script.len() && self.state == LoopState::Waiting
            invariant
                fetches <= script.len(),
                self@ == start.run(script@.take(fetches as int)),
                fetches == start.fetches(script@.take(fetches as int)),
                writes@ == start.writes(script@.take(fetches as int)),
                self@.outputs.wf(),
            decreases script.len() - fetches,
        {
            let fetched = script[fetches];
            proof {
                assert(script@.take(fetches + 1).drop_last() =~= script@.take(fetches as int));
            }
            let write = self.on_fetch(fetched);
            if self.state == LoopState::Dispatching {
                writes.push(write);
                self.on_dispatch_returned();
            }
            fetches = fetches + 1;
        }
        proof {
            if fetches < script.len() {
                lemma_stopped_loop_fetches_no_more(start, script@, fetches as int);
            } else {
                assert(script@.take(fetches as int) =~= script@);
            }
        }
        RunReport { fetches, writes }
    }
}

/// A message whose payload is not one recognized byte (empty, longer than
/// one byte, or one other byte) changes no output and asks for no write, in
/// whatever state it arrives.
pub proof fn lemma_unrecognized_message_changes_no_output(consumer: Consumer, fetched: Fetched)
    requires
        fetched matches Fetched::Message(payload) ==> payload@.len() != 1 || !is_recognized(
            payload@[0],
        ),
    ensures
        consumer.after_fetch(fetched).outputs == consumer.outputs,
        consumer.write_after_fetch(fetched) == DriverWrite::Nothing,
        consumer.turn(fetched).outputs == consumer.outputs,
{
}

/// The commands in a script of fetches, entry by entry.
pub open spec fn commands_of(script: Seq<Fetched>) -> Seq<Command> {
    Seq::new(script.len(), |i: int| script[i].command())
}

/// The writes owed for a run of commands from given outputs: the write at
/// each place is the one owed once the commands up to that place have been
/// applied.
pub open spec fn writes_for(outputs: Outputs, cmds: Seq<Command>) -> Seq<DriverWrite> {
    Seq::new(cmds.len(), |i: int| owed_write(outputs.apply_all(cmds.take(i + 1)), cmds[i]))
}

/// Once the loop no longer waits after the first `taken` entries of a
/// script, the entries after them are not fetched and change nothing.
pub proof fn lemma_stopped_loop_fetches_no_more(start: Consumer, script: Seq<Fetched>, taken: int)
    requires
        0 <= taken <= script.len(),
        start.run(script.take(taken)).state != LoopState::Waiting,
    ensures
        start.run(script) == start.run(script.take(taken)),
        start.fetches(script) == start.fetches(script.take(taken)),
        start.writes(script) == start.writes(script.take(taken)),
    decreases script.len(),
{
    if taken == script.len() {
        assert(script.take(taken) =~= script);
    } else {
        assert(script.drop_last().take(taken) =~= script.take(taken));
        lemma_stopped_loop_fetches_no_more(start, script.drop_last(), taken);
    }
}

/// A waiting loop that is given messages only dispatches each of them, in
/// order, and waits again.
pub proof fn lemma_messages_are_dispatched_in_order(start: Consumer, messages: Seq<Fetched>)
    requires
        start.state == LoopState::Waiting,
        forall|i: int| 0 <= i < messages.len() ==> messages[i] is Message,
    ensures
        start.run(messages).state == LoopState::Waiting,
        start.run(messages).outputs == start.outputs.apply_all(commands_of(messages)),
        start.fetches(messages) == messages.len(),
        start.writes(messages) == writes_for(start.outputs, commands_of(messages)),
    decreases messages.len(),
{
    let cmds = commands_of(messages);
    if messages.len() > 0 {
        let earlier = messages.drop_last();
        lemma_messages_are_dispatched_in_order(start, earlier);
        assert(commands_of(earlier) =~= cmds.drop_last());
        assert(cmds.take(cmds.len() as int) =~= cmds);
        assert forall|i: int| 0 <= i < cmds.len() - 1 implies #[trigger] writes_for(
            start.outputs,
            cmds.drop_last(),
        )[i] == writes_for(start.outputs, cmds)[i] by {
            assert(cmds.drop_last().take(i + 1) =~= cmds.take(i + 1));
        }
        assert(start.writes(messages) =~= writes_for(start.outputs, cmds));
    } else {
        assert(start.writes(messages) =~= writes_for(start.outputs, cmds));
    }
}

/// The loop ends at the first failed fetch. Given any number of messages,
/// then a failed fetch, then whatever else the connection might have given:
/// the loop dispatches exactly the messages, in order, makes one fetch for
/// each of them and one that fails, closes, and fetches nothing after that.
pub proof fn lemma_loop_ends_at_failed_fetch(
    start: Consumer,
    messages: Seq<Fetched>,
    rest: Seq<Fetched>,
)
    requires
        start.state == LoopState::Waiting,
        forall|i: int| 0 <= i < messages.len() ==> messages[i] is Message,
    ensures
        ({
            let script = messages.push(Fetched::Failed) + rest;
            &&& start.run(script).state == LoopState::Closed
            &&& start.run(script).outputs == start.outputs.apply_all(commands_of(messages))
            &&& start.fetches(script) == messages.len() + 1
            &&& start.writes(script) == writes_for(start.outputs, commands_of(messages))
            &&& start.writes(script).len() == messages.len()
        }),
{
    let until_failure = messages.push(Fetched::Failed);
    let script = until_failure + rest;
    lemma_messages_are_dispatched_in_order(start, messages);
    assert(until_failure.drop_last() =~= messages);
    assert(script.take(until_failure.len() as int) =~= until_failure);
    lemma_stopped_loop_fetches_no_more(start, script, until_failure.len() as int);
}

} // verus!
