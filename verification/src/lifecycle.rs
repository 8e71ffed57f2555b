//! The order in which the host calls a loaded algorithm, and what becomes of
//! the instructions it returns.

use crate::interface::Instruction;
use crate::registration::DataLength;
use crate::time::TimeSpan;
use vstd::prelude::*;

verus! {

/// Where an algorithm stands between being loaded and being done.
#[derive(Clone, Copy, Debug, PartialEq, Eq, Structural)]
pub enum Phase {
    /// No module is loaded.
    Unloaded,
    /// The instance exists and has not been initialised.
    Instantiated,
    /// Prices come in: the algorithm warms up, then trades tick by tick.
    Collecting,
    /// Trading is over; `shutdown` has not been called.
    ShuttingDown,
    /// `shutdown` has returned.
    Terminated,
}

impl Phase {
    /// How far along the phase is.
    pub open spec fn rank(self) -> int {
        match self {
            Phase::Unloaded => 0,
            Phase::Instantiated => 1,
            Phase::Collecting => 2,
            Phase::ShuttingDown => 3,
            Phase::Terminated => 4,
        }
    }
}

/// What the host is to do next with the algorithm.
#[derive(Clone, Copy, Debug, PartialEq, Eq, Structural)]
pub enum Call {
    Load,
    Init,
    CollectPrices,
    Algorithm,
    Shutdown,
    /// There is nothing left to call.
    Nothing,
}

/// The prices so far are fewer than the algorithm's minimum.
pub open spec fn too_few(minimum: DataLength, history: int) -> bool {
    minimum matches DataLength::Fixed(least) && history < least
}

/// The call that is due in a phase, given how many prices there are.
pub open spec fn call_due(phase: Phase, minimum: DataLength, history: int) -> Call {
    match phase {
        Phase::Unloaded => Call::Load,
        Phase::Instantiated => Call::Init,
        Phase::Collecting => if too_few(minimum, history) {
            Call::CollectPrices
        } else {
            Call::Algorithm
        },
        Phase::ShuttingDown => Call::Shutdown,
        Phase::Terminated => Call::Nothing,
    }
}

/// The instructions that do not open a position, in their order.
pub open spec fn without_opening(instructions: Seq<Instruction>) -> Seq<Instruction>
    decreases instructions.len(),
{
    if instructions.len() == 0 {
        instructions
    } else if instructions.last().opens() {
        without_opening(instructions.drop_last())
    } else {
        without_opening(instructions.drop_last()).push(instructions.last())
    }
}

/// What a sequence of references refers to.
pub open spec fn referred(references: Seq<&Instruction>) -> Seq<Instruction> {
    Seq::new(references.len(), |i: int| *references[i])
}

/// The lifecycle of one algorithm instance.
#[derive(Clone, Copy, Debug)]
pub struct Lifecycle {
    phase: Phase,
    minimum: DataLength,
    time_step: TimeSpan,
}

impl Lifecycle {
    /// The current phase.
    pub closed spec fn phase_of(&self) -> Phase {
        self.phase
    }

    /// The algorithm's minimum of price history, known once it is loaded.
    pub closed spec fn minimum_of(&self) -> DataLength {
        self.minimum
    }

    /// The time a tick may take, known once the algorithm is initialised.
    pub closed spec fn time_step_of(&self) -> TimeSpan {
        self.time_step
    }

    /// The lifecycle before anything is loaded: no minimum of price history is
    /// declared yet and no time is set between ticks.
    pub fn new() -> (lifecycle: Self)
        ensures
            lifecycle.phase_of() is Unloaded,
            lifecycle.minimum_of() is Variable,
            lifecycle.time_step_of().0 == 0,
    {
        Lifecycle { phase: Phase::Unloaded, minimum: DataLength::Variable, time_step: TimeSpan(0) }
    }

    /// The current phase.
    pub fn phase(&self) -> (phase: Phase)
        ensures
            phase == self.phase_of(),
    {
        self.phase
    }

    /// The call that is due, given how many prices have come in so far.
    pub fn next_call(&self, history: usize) -> (call: Call)
        ensures
            call == call_due(self.phase_of(), self.minimum_of(), history as int),
    {
        match self.phase {
            Phase::Unloaded => Call::Load,
            Phase::Instantiated => Call::Init,
            Phase::Collecting => match self.minimum {
                DataLength::Fixed(least) => if history < least {
                    Call::CollectPrices
                } else {
                    Call::Algorithm
                },
                DataLength::Variable => Call::Algorithm,
            },
            Phase::ShuttingDown => Call::Shutdown,
            Phase::Terminated => Call::Nothing,
        }
    }

    /// The module was loaded and declares this minimum of price history. Says
    /// whether that was due; if it was not, nothing changes.
    pub fn loaded(&mut self, minimum: DataLength) -> (due: bool)
        ensures
            due == (old(self).phase_of() is Unloaded),
            due ==> final(self).phase_of() is Instantiated && final(self).minimum_of() == minimum
                && final(self).time_step_of() == old(self).time_step_of(),
            !due ==> *final(self) == *old(self),
    {
        match self.phase {
            Phase::Unloaded => {
                self.phase = Phase::Instantiated;
                self.minimum = minimum;
                true
            },
            _ => false,
        }
    }

    /// `init` was called with this time between ticks. Says whether that was
    /// due; if it was not, nothing changes.
    pub fn initialised(&mut self, time_step: TimeSpan) -> (due: bool)
        ensures
            due == (old(self).phase_of() is Instantiated),
            due ==> final(self).phase_of() is Collecting && final(self).time_step_of() == time_step
                && final(self).minimum_of() == old(self).minimum_of(),
            !due ==> *final(self) == *old(self),
    {
        match self.phase {
            Phase::Instantiated => {
                self.phase = Phase::Collecting;
                self.time_step = time_step;
                true
            },
            _ => false,
        }
    }

    /// `collect_prices` was called. Whatever it returned has no effect on
    /// trading; the lifecycle stays where it is. Says whether the call was due.
    pub fn prices_collected(&self, history: usize) -> (due: bool)
        ensures
            due == (call_due(self.phase_of(), self.minimum_of(), history as int)
                is CollectPrices),
    {
        match self.next_call(history) {
            Call::CollectPrices => true,
            _ => false,
        }
    }

    /// `algorithm` was called, took `elapsed` and returned `instructions`.
    /// The instructions to follow come back. A tick that took longer than the
    /// time step has no effect on trading: none of its instructions is
    /// followed, and the algorithm is to be shut down. Outside of trading
    /// nothing changes and nothing is followed.
    pub fn ticked<'a>(&mut self, elapsed: TimeSpan, instructions: &'a [Instruction]) -> (followed:
        Vec<&'a Instruction>)
        ensures
            final(self).minimum_of() == old(self).minimum_of(),
            final(self).time_step_of() == old(self).time_step_of(),
            final(self).phase_of() == if old(self).phase_of() is Collecting && elapsed.0 > old(
                self,
            ).time_step_of().0 {
                Phase::ShuttingDown
            } else {
                old(self).phase_of()
            },
            referred(followed@) == if old(self).phase_of() is Collecting && elapsed.0 <= old(
                self,
            ).time_step_of().0 {
                instructions@
            } else {
                Seq::<Instruction>::empty()
            },
    {
        let mut followed: Vec<&'a Instruction> = Vec::new();
        match self.phase {
            Phase::Collecting => {
                if elapsed.0 > self.time_step.0 {
                    self.phase = Phase::ShuttingDown;
                } else {
                    let mut index: usize = 0;
                    while index < instructions.len()
                        invariant
                            index <= instructions@.len(),
                            referred(followed@) == instructions@.take(index as int),
                        decreases instructions@.len() - index,
                    {
                        let ghost before = referred(followed@);
                        followed.push(&instructions[index]);
                        assert(referred(followed@) == before.push(instructions@[index as int]));
                        assert(instructions@.take(index + 1) == instructions@.take(
                            index as int,
                        ).push(instructions@[index as int]));
                        index += 1;
                    }
                    assert(instructions@.take(index as int) == instructions@);
                }
            },
            _ => {},
        }
        followed
    }

    /// The host ends trading. Says whether there was trading to end; if there
    /// was not, nothing changes.
    pub fn stop(&mut self) -> (due: bool)
        ensures
            due == (old(self).phase_of() is Collecting),
            due ==> final(self).phase_of() is ShuttingDown,
            !due ==> final(self).phase_of() == old(self).phase_of(),
            final(self).minimum_of() == old(self).minimum_of(),
            final(self).time_step_of() == old(self).time_step_of(),
    {
        match self.phase {
            Phase::Collecting => {
                self.phase = Phase::ShuttingDown;
                true
            },
            _ => false,
        }
    }

    /// `shutdown` was called and returned `instructions`. The instructions to
    /// follow come back: all but those that open a position. The algorithm is
    /// then done. Where `shutdown` was not due, nothing changes and nothing is
    /// followed.
    pub fn shut_down<'a>(&mut self, instructions: &'a [Instruction]) -> (followed: Vec<
        &'a Instruction,
    >)
        ensures
            final(self).minimum_of() == old(self).minimum_of(),
            final(self).time_step_of() == old(self).time_step_of(),
            final(self).phase_of() == if old(self).phase_of() is ShuttingDown {
                Phase::Terminated
            } else {
                old(self).phase_of()
            },
            referred(followed@) == if old(self).phase_of() is ShuttingDown {
                without_opening(instructions@)
            } else {
                Seq::<Instruction>::empty()
            },
    {
        let mut followed: Vec<&'a Instruction> = Vec::new();
        match self.phase {
            Phase::ShuttingDown => {
                self.phase = Phase::Terminated;
                let mut index: usize = 0;
                while index < instructions.len()
                    invariant
                        index <= instructions@.len(),
                        referred(followed@) == without_opening(instructions@.take(index as int)),
                    decreases instructions@.len() - index,
                {
                    proof {
                        assert(instructions@.take(index + 1).drop_last() == instructions@.take(
                            index as int,
                        ));
                    }
                    if !instructions[index].is_opening() {
                        let ghost before = referred(followed@);
                        followed.push(&instructions[index]);
                        assert(referred(followed@) == before.push(instructions@[index as int]));
                    }
                    index += 1;
                }
                assert(instructions@.take(index as int) == instructions@);
            },
            _ => {},
        }
        followed
    }
}

/// Nothing that is kept after `shutdown` opens a position, and nothing else
/// is lost: the kept instructions are exactly those that do not open one.
pub proof fn law_shutdown_opens_nothing(instructions: Seq<Instruction>)
    ensures
        forall|i: int|
            0 <= i < without_opening(instructions).len() ==> !(#[trigger] without_opening(
                instructions,
            )[i]).opens(),
        forall|i: int|
            0 <= i < instructions.len() && !(#[trigger] instructions[i]).opens()
                ==> without_opening(instructions).contains(instructions[i]),
        without_opening(instructions).len() <= instructions.len(),
    decreases instructions.len(),
{
    if instructions.len() > 0 {
        let shorter = instructions.drop_last();
        law_shutdown_opens_nothing(shorter);
        let kept = without_opening(instructions);
        assert forall|i: int|
            0 <= i < instructions.len() && !(#[trigger] instructions[i]).opens() implies kept.contains(
            instructions[i],
        ) by {
            if i < shorter.len() {
                assert(shorter[i] == instructions[i]);
                let place = choose|k: int|
                    0 <= k < without_opening(shorter).len() && without_opening(shorter)[k]
                        == shorter[i];
                assert(kept[place] == instructions[i]);
            } else {
                assert(kept[kept.len() - 1] == instructions[i]);
            }
        }
    }
}

/// The call that is due tells the phase: `init` is due in one phase only, and
/// so is `shutdown`; once an algorithm is done nothing is due. From phase to
/// phase the reports above only lead forward, so each of the two is called
/// once.
pub proof fn law_calls_in_order(phase: Phase, minimum: DataLength, history: int)
    ensures
        call_due(phase, minimum, history) is Init <==> phase is Instantiated,
        call_due(phase, minimum, history) is Shutdown <==> phase is ShuttingDown,
        call_due(phase, minimum, history) is Nothing <==> phase is Terminated,
        call_due(phase, minimum, history) is CollectPrices ==> phase is Collecting && too_few(
            minimum,
            history,
        ),
        call_due(phase, minimum, history) is Algorithm ==> phase is Collecting && !too_few(
            minimum,
            history,
        ),
{
}

} // verus!
