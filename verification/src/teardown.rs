//! The release of a connection: half-close, drain, close, in that order and
//! each once.
//!
//! The caller performs each action on the descriptor and reports its outcome;
//! the teardown answers with the next action. Failures never stop it.

use vstd::prelude::*;

verus! {

/// Where a teardown stands.
#[derive(Clone, Copy, Debug, PartialEq, Eq, Structural)]
pub enum Phase {
    /// The shutdown of the write direction has been asked for.
    HalfClosing,
    /// Reads are being asked for until the peer's end of stream or an error.
    Draining,
    /// The close of the descriptor has been asked for.
    Closing,
    /// The descriptor is gone.
    Released,
}

/// What the caller does next on the descriptor.
#[derive(Clone, Copy, Debug, PartialEq, Eq, Structural)]
pub enum Action {
    /// Shut down the write direction.
    ShutdownWrite,
    /// Read and discard what arrives.
    Read,
    /// Close the descriptor.
    Close,
    /// Nothing: the descriptor must not be used any more.
    Done,
}

/// The state of a teardown as a plain value.
pub struct State {
    pub fd: i32,
    pub phase: Phase,
    /// The number of bytes discarded so far; it stops at `usize::MAX`.
    pub drained: usize,
}

/// The state in which every teardown starts.
pub open spec fn start(fd: i32) -> State {
    State { fd, phase: Phase::HalfClosing, drained: 0 }
}

/// The position of a phase in the order of the teardown.
pub open spec fn rank(phase: Phase) -> int {
    match phase {
        Phase::HalfClosing => 0,
        Phase::Draining => 1,
        Phase::Closing => 2,
        Phase::Released => 3,
    }
}

/// The sum of two counts, held at `usize::MAX`.
pub open spec fn capped_sum(a: usize, b: usize) -> usize {
    if a + b <= usize::MAX {
        (a + b) as usize
    } else {
        usize::MAX
    }
}

/// One step: the state and the action that follow the outcome of the action
/// asked for last. The outcome of the shutdown and of the close is ignored;
/// a read of one byte or more asks for another read, a read of nothing or a
/// failed read asks for the close.
pub open spec fn step(s: State, outcome: Result<usize, i32>) -> (State, Action) {
    match s.phase {
        Phase::HalfClosing => (State { phase: Phase::Draining, ..s }, Action::Read),
        Phase::Draining => match outcome {
            Ok(n) if n > 0 => (State { drained: capped_sum(s.drained, n), ..s }, Action::Read),
            _ => (State { phase: Phase::Closing, ..s }, Action::Close),
        },
        Phase::Closing => (State { phase: Phase::Released, ..s }, Action::Done),
        Phase::Released => (s, Action::Done),
    }
}

/// The state after a run of outcomes, each answering the action before it.
pub open spec fn after(s: State, outcomes: Seq<Result<usize, i32>>) -> State
    decreases outcomes.len(),
{
    if outcomes.len() == 0 {
        s
    } else {
        step(after(s, outcomes.drop_last()), outcomes.last()).0
    }
}

/// The action that answers the outcome at position `i` of a run.
pub open spec fn action_at(s: State, outcomes: Seq<Result<usize, i32>>, i: int) -> Action {
    step(after(s, outcomes.take(i)), outcomes[i]).1
}

/// The sum of the counts of a run of reads.
pub open spec fn total(chunks: Seq<usize>) -> nat
    decreases chunks.len(),
{
    if chunks.len() == 0 {
        0
    } else {
        total(chunks.drop_last()) + chunks.last() as nat
    }
}

/// The outcomes of a run of successful reads with the given counts.
pub open spec fn reads(chunks: Seq<usize>) -> Seq<Result<usize, i32>> {
    Seq::new(chunks.len(), |i: int| Ok::<usize, i32>(chunks[i]))
}

/// The release of one connection, in progress.
pub struct Teardown {
    fd: i32,
    phase: Phase,
    drained: usize,
}

impl View for Teardown {
    type V = State;

    closed spec fn view(&self) -> State {
        State { fd: self.fd, phase: self.phase, drained: self.drained }
    }
}

impl Teardown {
    pub(crate) fn begin(fd: i32) -> (t: Self)
        ensures
            t@ == start(fd),
    {
        Teardown { fd, phase: Phase::HalfClosing, drained: 0 }
    }

    /// The descriptor on which the caller performs the actions.
    pub fn as_raw_fd(&self) -> (fd: i32)
        ensures
            fd == self@.fd,
    {
        self.fd
    }

    /// Where the teardown stands.
    pub fn phase(&self) -> (p: Phase)
        ensures
            p == self@.phase,
    {
        self.phase
    }

    /// The number of bytes discarded so far.
    pub fn drained(&self) -> (n: usize)
        ensures
            n == self@.drained,
    {
        self.drained
    }

    /// True once the descriptor has been closed.
    pub fn is_released(&self) -> (b: bool)
        ensures
            b == (self@.phase == Phase::Released),
    {
        match self.phase {
            Phase::Released => true,
            _ => false,
        }
    }

    /// Takes the outcome of the action asked for last and answers with the
    /// next one.
    pub fn advance(&mut self, outcome: Result<usize, i32>) -> (action: Action)
        ensures
            (final(self)@, action) == step(old(self)@, outcome),
    {
        match self.phase {
            Phase::HalfClosing => {
                self.phase = Phase::Draining;
                Action::Read
            },
            Phase::Draining => match outcome {
                Ok(n) if n > 0 => {
                    self.drained = if n <= usize::MAX - self.drained {
                        self.drained + n
                    } else {
                        usize::MAX
                    };
                    Action::Read
                },
                _ => {
                    self.phase = Phase::Closing;
                    Action::Close
                },
            },
            Phase::Closing => {
                self.phase = Phase::Released;
                Action::Done
            },
            Phase::Released => Action::Done,
        }
    }
}

} // verus!
