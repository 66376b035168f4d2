//! The ingest loop over the merged streams of any number of radio adapters.
//!
//! The loop has one state, in which it awaits the next input. What it has to
//! remember is which adapter streams are still open: the merged stream ends
//! when the last of them has ended, and not before.

use vstd::prelude::*;
use crate::ingest::{gives_reading, on_event, on_event_at, reading_in, Event};
use crate::reading::{Reading, Timestamp};

verus! {

/// What the merged stream delivers to the loop.
#[derive(Debug)]
pub enum Input {
    /// An event from one of the adapters.
    Event(Event),
    /// The stream of the adapter with this number has ended.
    StreamEnded(usize),
}

/// What the loop has to do after an input.
#[derive(Clone, Copy, Debug, PartialEq, Eq, Structural)]
pub enum Action {
    /// Hand the reading to the sink, then await the next input.
    Write(Reading),
    /// Await the next input.
    Continue,
    /// Every adapter stream has ended: leave the loop.
    Stop,
}

/// Whether every stream has ended.
pub open spec fn all_ended(open: Seq<bool>) -> bool {
    forall|i: int| 0 <= i < open.len() ==> !open[i]
}

/// Which streams are open after an input: the end of a stream closes that
/// stream, and nothing else changes anything.
pub open spec fn open_after(open: Seq<bool>, input: Input) -> Seq<bool> {
    match input {
        Input::StreamEnded(adapter) => if adapter < open.len() {
            open.update(adapter as int, false)
        } else {
            open
        },
        Input::Event(_) => open,
    }
}

/// What the loop does after an input received at `time`. An event that gives
/// a reading has it written, any other event is passed over, and the loop
/// stops only at the end of a stream that leaves no stream open.
pub open spec fn action_for(open: Seq<bool>, input: Input, time: Timestamp) -> Action {
    match input {
        Input::Event(event) => match reading_in(event@, time) {
            Some(reading) => Action::Write(reading),
            None => Action::Continue,
        },
        Input::StreamEnded(_) => if all_ended(open_after(open, input)) {
            Action::Stop
        } else {
            Action::Continue
        },
    }
}

/// The state of the ingest loop: for each adapter, whether its event stream
/// is still open.
#[derive(Debug)]
pub struct FanIn {
    open: Vec<bool>,
}

impl View for FanIn {
    type V = Seq<bool>;

    /// For each adapter, by its number, whether its stream is open.
    closed spec fn view(&self) -> Seq<bool> {
        self.open@
    }
}

impl FanIn {
    /// The state before the first input: `adapters` streams, all open.
    pub fn new(adapters: usize) -> (fan_in: FanIn)
        ensures
            fan_in@.len() == adapters,
            forall|i: int| 0 <= i < adapters ==> fan_in@[i],
            all_ended(fan_in@) <==> adapters == 0,
    {
        let mut open: Vec<bool> = Vec::new();
        while open.len() < adapters
            invariant
                open@.len() <= adapters,
                forall|i: int| 0 <= i < open@.len() ==> open@[i],
            decreases adapters - open@.len(),
        {
            open.push(true);
        }
        assert(adapters > 0 ==> open@[0]);
        FanIn { open }
    }

    /// The number of adapters, open or not.
    pub fn adapters(&self) -> (count: usize)
        ensures
            count == self@.len(),
    {
        self.open.len()
    }

    /// Whether the stream of an adapter is open. An adapter that was never
    /// there has no open stream.
    pub fn is_open(&self, adapter: usize) -> (open: bool)
        ensures
            open == (adapter < self@.len() && self@[adapter as int]),
    {
        adapter < self.open.len() && self.open[adapter]
    }

    /// Whether the merged stream has ended: no adapter stream is open. With
    /// no adapters at all it has ended from the start.
    pub fn is_finished(&self) -> (finished: bool)
        ensures
            finished == all_ended(self@),
    {
        let mut i: usize = 0;
        while i < self.open.len()
            invariant
                i <= self.open@.len(),
                forall|k: int| 0 <= k < i ==> !self.open@[k],
            decreases self.open@.len() - i,
        {
            if self.open[i] {
                return false;
            }
            i += 1;
        }
        true
    }

    /// Takes the end of an adapter's stream: closes that stream, and stops
    /// the loop if no stream is left open.
    fn end_stream(&mut self, adapter: usize) -> (action: Action)
        ensures
            final(self)@ == open_after(old(self)@, Input::StreamEnded(adapter)),
            action == (if all_ended(final(self)@) {
                Action::Stop
            } else {
                Action::Continue
            }),
    {
        if adapter < self.open.len() {
            self.open.set(adapter, false);
        }
        if self.is_finished() {
            Action::Stop
        } else {
            Action::Continue
        }
    }

    /// Takes one input received at `time`: updates which streams are open and
    /// says what the loop does next.
    pub fn step_at(&mut self, input: &Input, time: Timestamp) -> (action: Action)
        ensures
            final(self)@ == open_after(old(self)@, *input),
            action == action_for(old(self)@, *input, time),
            action is Stop ==> *input is StreamEnded && all_ended(final(self)@),
    {
        match input {
            Input::Event(event) => match on_event_at(event, time) {
                Some(reading) => Action::Write(reading),
                None => Action::Continue,
            },
            Input::StreamEnded(adapter) => self.end_stream(*adapter),
        }
    }

    /// Takes one input, stamping a reading with the time the clock shows when
    /// its event is received. Which streams are open afterwards, and whether
    /// the loop writes, continues or stops, depend on the input and the state
    /// alone. A reading to write is the one that `step_at` gives for the time
    /// it is stamped with. Whatever the clock shows is taken as it is, so no
    /// state of the clock stops the loop.
    pub fn step(&mut self, input: &Input) -> (action: Action)
        ensures
            final(self)@ == open_after(old(self)@, *input),
            action is Write <==> (*input matches Input::Event(event) && gives_reading(event@)),
            action is Stop <==> *input is StreamEnded && all_ended(final(self)@),
            action matches Action::Write(r) ==> action == action_for(old(self)@, *input, r.time),
    {
        match input {
            Input::Event(event) => match on_event(event) {
                Some(reading) => Action::Write(reading),
                None => Action::Continue,
            },
            Input::StreamEnded(adapter) => self.end_stream(*adapter),
        }
    }
}

/// Streams only ever close. An input leaves the number of adapters as it
/// was and opens no stream, so once every stream has ended the merged stream
/// stays ended.
pub proof fn lemma_streams_never_reopen(open: Seq<bool>, input: Input)
    ensures
        open_after(open, input).len() == open.len(),
        forall|i: int| 0 <= i < open.len() && open_after(open, input)[i] ==> open[i],
        all_ended(open) ==> all_ended(open_after(open, input)),
{
}

/// An open stream stays open until its own end arrives: events, and the ends
/// of other streams, do not close it. So the loop cannot stop while one
/// stream has not ended.
pub proof fn lemma_stream_open_until_its_end(
    open: Seq<bool>,
    input: Input,
    time: Timestamp,
    adapter: usize,
)
    requires
        adapter < open.len(),
        open[adapter as int],
        input != Input::StreamEnded(adapter),
    ensures
        open_after(open, input)[adapter as int],
        action_for(open, input, time) != Action::Stop,
{
    assert(open_after(open, input)[adapter as int]);
}

/// The order in which two inputs arrive changes neither which streams are
/// open after both, nor what becomes of an event: an event is written or
/// passed over for what it holds, whatever the state and whatever arrived
/// before it.
pub proof fn lemma_arrival_order_irrelevant(
    open: Seq<bool>,
    other: Seq<bool>,
    a: Input,
    b: Input,
    time: Timestamp,
)
    ensures
        open_after(open_after(open, a), b) == open_after(open_after(open, b), a),
        a is Event ==> action_for(open, a, time) == action_for(other, a, time),
        a is Event ==> action_for(open, a, time) != Action::Stop,
{
    assert(open_after(open_after(open, a), b) =~= open_after(open_after(open, b), a));
}

} // verus!
