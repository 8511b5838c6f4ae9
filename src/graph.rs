use vstd::prelude::*;

verus! {

/// Lifecycle state of the graph or of one of its branches.
#[derive(Clone, Copy, Debug, PartialEq, Eq, Structural)]
pub enum GraphState {
    VoidPending,
    Null,
    Ready,
    Paused,
    Playing,
}

/// One action that the control thread performs on the live graph.
#[derive(Clone, Copy, Debug, PartialEq, Eq, Structural)]
pub enum GraphOp {
    /// Send end-of-stream into the recording branch's entry point.
    SendEos,
    /// Move the recording branch to the given state.
    SetBranchState(GraphState),
    /// Take the recording branch off the fan-out node and out of the graph.
    DetachBranch,
    /// Move the whole graph to the given state.
    SetGraphState(GraphState),
    /// Pause the control thread for this many milliseconds.
    Sleep(u64),
    /// Wait at most this many milliseconds for the graph to settle.
    AwaitGraphState(u64),
}

/// Pause between stopping and restarting the graph, in milliseconds.
pub const RESTART_PAUSE_MS: u64 = 100;

/// The full restart of the graph: stop it, pause briefly, play it again.
pub open spec fn restart_ops() -> Seq<GraphOp> {
    seq![
        GraphOp::SetGraphState(GraphState::Null),
        GraphOp::Sleep(RESTART_PAUSE_MS),
        GraphOp::SetGraphState(GraphState::Playing),
    ]
}

/// Appends the restart sequence to `ops`.
pub fn push_restart(ops: &mut Vec<GraphOp>)
    ensures
        final(ops)@ == old(ops)@ + restart_ops(),
{
    ops.push(GraphOp::SetGraphState(GraphState::Null));
    ops.push(GraphOp::Sleep(RESTART_PAUSE_MS));
    ops.push(GraphOp::SetGraphState(GraphState::Playing));
    assert(ops@ =~= old(ops)@ + restart_ops());
}

} // verus!
