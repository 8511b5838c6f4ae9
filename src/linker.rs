use vstd::prelude::*;

verus! {

/// Why a branch could not be attached to the fan-out node.
#[derive(Clone, Copy, Debug, PartialEq, Eq, Structural)]
pub enum LinkError {
    /// A named node is absent from the graph.
    NodeNotFound,
    /// The fan-out node could not allocate another output.
    NoFreeOutput,
    /// The graph refused to take the branch into its node set.
    InsertionFailed,
    /// The branch does not expose its single entry point.
    MissingSinkPad,
    /// The fan-out output and the branch's entry point could not be linked.
    LinkRejected,
    /// The branch could not take on the graph's running state.
    SyncFailed,
}

/// One runtime call of the attach protocol.
#[derive(Clone, Copy, Debug, PartialEq, Eq, Structural)]
pub enum AttachStep {
    /// Request a new output from the fan-out node.
    RequestOutput,
    /// Insert the branch into the graph's node set.
    AddBranch,
    /// Resolve the branch's entry point.
    ResolveSinkPad,
    /// Link the new output to the branch's entry point.
    LinkPads,
    /// Bring the branch to the graph's current state.
    SyncState,
}

/// Progress of one attach: how many steps have succeeded, or how it ended.
#[derive(Clone, Copy, Debug, PartialEq, Eq, Structural)]
pub enum AttachStage {
    Begin,
    OutputRequested,
    Inserted,
    SinkResolved,
    Linked,
    Attached,
    Failed(LinkError),
}

/// The steps of an attach, in the order they must run: the output is
/// allocated before the branch enters the graph, and the branch enters the
/// graph before its state is synchronised.
pub open spec fn attach_order() -> Seq<AttachStep> {
    seq![
        AttachStep::RequestOutput,
        AttachStep::AddBranch,
        AttachStep::ResolveSinkPad,
        AttachStep::LinkPads,
        AttachStep::SyncState,
    ]
}

/// How many steps of `attach_order` have succeeded at `s`; -1 once failed.
pub open spec fn progress(s: AttachStage) -> int {
    match s {
        AttachStage::Begin => 0,
        AttachStage::OutputRequested => 1,
        AttachStage::Inserted => 2,
        AttachStage::SinkResolved => 3,
        AttachStage::Linked => 4,
        AttachStage::Attached => 5,
        AttachStage::Failed(_) => -1,
    }
}

/// The error reported when `step` fails.
pub open spec fn step_error(step: AttachStep) -> LinkError {
    match step {
        AttachStep::RequestOutput => LinkError::NoFreeOutput,
        AttachStep::AddBranch => LinkError::InsertionFailed,
        AttachStep::ResolveSinkPad => LinkError::MissingSinkPad,
        AttachStep::LinkPads => LinkError::LinkRejected,
        AttachStep::SyncState => LinkError::SyncFailed,
    }
}

/// Whether the attach at `s` still has a step to run.
pub open spec fn is_pending(s: AttachStage) -> bool {
    0 <= progress(s) < 5
}

impl AttachStage {
    /// The runtime call to make next, or `None` once the attach has ended.
    pub fn next_step(&self) -> (r: Option<AttachStep>)
        ensures
            is_pending(*self) ==> r == Some(attach_order()[progress(*self)]),
            !is_pending(*self) ==> r is None,
    {
        match self {
            AttachStage::Begin => Some(AttachStep::RequestOutput),
            AttachStage::OutputRequested => Some(AttachStep::AddBranch),
            AttachStage::Inserted => Some(AttachStep::ResolveSinkPad),
            AttachStage::SinkResolved => Some(AttachStep::LinkPads),
            AttachStage::Linked => Some(AttachStep::SyncState),
            _ => None,
        }
    }

    /// The stage once the pending step has succeeded or failed. A failure
    /// ends the attach with the error of that step; nothing is retried.
    pub fn advance(self, succeeded: bool) -> (r: AttachStage)
        requires
            is_pending(self),
        ensures
            succeeded ==> progress(r) == progress(self) + 1,
            !succeeded ==> r == AttachStage::Failed(step_error(attach_order()[progress(self)])),
    {
        if !succeeded {
            let e = match self {
                AttachStage::Begin => LinkError::NoFreeOutput,
                AttachStage::OutputRequested => LinkError::InsertionFailed,
                AttachStage::Inserted => LinkError::MissingSinkPad,
                AttachStage::SinkResolved => LinkError::LinkRejected,
                _ => LinkError::SyncFailed,
            };
            return AttachStage::Failed(e);
        }
        match self {
            AttachStage::Begin => AttachStage::OutputRequested,
            AttachStage::OutputRequested => AttachStage::Inserted,
            AttachStage::Inserted => AttachStage::SinkResolved,
            AttachStage::SinkResolved => AttachStage::Linked,
            _ => AttachStage::Attached,
        }
    }

    /// How the attach ended, or `None` while a step is pending.
    pub fn outcome(&self) -> (r: Option<Result<(), LinkError>>)
        ensures
            is_pending(*self) <==> r is None,
            *self == AttachStage::Attached ==> r == Some(Ok::<(), LinkError>(())),
            forall|e: LinkError| *self == AttachStage::Failed(e) ==> r == Some(Err::<(), LinkError>(e)),
    {
        match self {
            AttachStage::Attached => Some(Ok(())),
            AttachStage::Failed(e) => Some(Err(*e)),
            _ => None,
        }
    }
}

} // verus!
