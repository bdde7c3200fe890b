//! The multi-turn agent loop's control state: repeated prompt → stream →
//! tool-execute → re-prompt cycles, bounded by a hard turn ceiling.
//! Reaching the ceiling ends the loop without an error; a transport error
//! ends it with exactly one terminal error.

use vstd::prelude::*;

verus! {

/// Hard turn ceiling of the interactive chat loop.
pub const CHAT_TURN_CEILING: u64 = 10;

/// Hard turn ceiling of one deep-research step execution.
pub const RESEARCH_STEP_TURN_CEILING: u64 = 4;

/// How one vendor turn ended.
pub enum TurnOutcome {
    /// The vendor asked for tool calls: their results become the next
    /// turn's input.
    ToolCallsRequested,
    /// The vendor finished without further tool calls.
    Completed,
    /// The transport failed; the loop must not retry.
    TransportError(String),
}

/// What the driver must do next.
pub enum LoopDirective {
    /// Start the next vendor turn with the updated history.
    CallVendor,
    /// The loop is over; end the stream normally.
    Stop,
    /// Emit one terminal error frame and stop.
    EmitError(String),
}

/// The loop state: turns used against a fixed ceiling, and how it ended.
pub struct AgentLoop {
    pub ceiling: u64,
    pub turns_used: u64,
    pub finished: bool,
    pub errored: bool,
}

/// The state after one turn that requested tool calls: one more turn is
/// used, and the loop finishes normally exactly when the ceiling is
/// reached.
pub open spec fn tool_turn_step(st: AgentLoop) -> AgentLoop {
    AgentLoop {
        ceiling: st.ceiling,
        turns_used: (st.turns_used + 1) as u64,
        finished: st.turns_used + 1 >= st.ceiling,
        errored: st.errored,
    }
}

/// The state after `k` consecutive tool-call turns from a fresh loop.
pub open spec fn tool_turns(ceiling: u64, k: nat) -> AgentLoop
    decreases k,
{
    if k == 0 {
        AgentLoop { ceiling, turns_used: 0, finished: false, errored: false }
    } else {
        tool_turn_step(tool_turns(ceiling, (k - 1) as nat))
    }
}

impl AgentLoop {
    /// The state stays meaningful: turns never pass the ceiling and an
    /// error always finishes the loop.
    pub open spec fn wf(self) -> bool {
        &&& 1 <= self.ceiling
        &&& self.turns_used <= self.ceiling
        &&& (self.errored ==> self.finished)
    }

    /// A fresh loop with the given ceiling.
    pub fn new(ceiling: u64) -> (r: Self)
        requires
            1 <= ceiling,
        ensures
            r == (AgentLoop { ceiling, turns_used: 0, finished: false, errored: false }),
            r.wf(),
    {
        AgentLoop { ceiling, turns_used: 0, finished: false, errored: false }
    }

    /// Record one finished vendor turn and decide what happens next:
    /// further tool calls re-prompt the vendor unless the ceiling is
    /// reached; completion and ceiling both stop the loop normally; a
    /// transport error stops it with one terminal error.
    pub fn on_turn(&mut self, outcome: &TurnOutcome) -> (d: LoopDirective)
        requires
            old(self).wf(),
            !old(self).finished,
            old(self).turns_used < old(self).ceiling,
        ensures
            final(self).wf(),
            final(self).ceiling == old(self).ceiling,
            final(self).turns_used == old(self).turns_used + 1,
            match outcome {
                TurnOutcome::ToolCallsRequested => {
                    &&& *final(self) == tool_turn_step(*old(self))
                    &&& !final(self).errored
                    &&& (final(self).finished <==> old(self).turns_used + 1 == old(self).ceiling)
                    &&& (d is Stop <==> final(self).finished)
                    &&& (d is CallVendor <==> !final(self).finished)
                },
                TurnOutcome::Completed => {
                    &&& d is Stop
                    &&& final(self).finished
                    &&& !final(self).errored
                },
                TurnOutcome::TransportError(e) => {
                    &&& (d matches LoopDirective::EmitError(m) && m@ == e@)
                    &&& final(self).finished
                    &&& final(self).errored
                },
            },
    {
        self.turns_used = self.turns_used + 1;
        match outcome {
            TurnOutcome::ToolCallsRequested => {
                if self.turns_used >= self.ceiling {
                    self.finished = true;
                    LoopDirective::Stop
                } else {
                    LoopDirective::CallVendor
                }
            },
            TurnOutcome::Completed => {
                self.finished = true;
                LoopDirective::Stop
            },
            TurnOutcome::TransportError(e) => {
                self.finished = true;
                self.errored = true;
                LoopDirective::EmitError(e.clone())
            },
        }
    }
}

/// Turn ceiling: against a vendor that requests tool calls on every turn,
/// a fresh loop runs exactly its configured ceiling of turns and then
/// finishes normally — before the ceiling it keeps going, at the ceiling
/// it stops, and no error is ever raised on this path.
pub proof fn lemma_turn_ceiling(ceiling: u64, k: nat)
    requires
        1 <= ceiling,
        k <= ceiling,
    ensures
        tool_turns(ceiling, k).ceiling == ceiling,
        tool_turns(ceiling, k).turns_used == k,
        !tool_turns(ceiling, k).errored,
        tool_turns(ceiling, k).finished <==> k == ceiling,
        tool_turns(ceiling, k).wf(),
    decreases k,
{
    if k > 0 {
        lemma_turn_ceiling(ceiling, (k - 1) as nat);
    }
}

} // verus!
