use vstd::prelude::*;

verus! {

/// Direction of a connection point.
#[derive(Clone, Copy, Debug, PartialEq, Eq, Structural)]
pub enum PadDirection {
    Unknown,
    Src,
    Sink,
}

/// What the control logic reads of one connection point of the fan-out node.
#[derive(Clone, Copy, Debug, PartialEq, Eq, Structural)]
pub struct PadInfo {
    pub direction: PadDirection,
    pub linked: bool,
    /// Handle of the node that owns the peer connection point, if any.
    pub peer_parent: Option<u64>,
}

/// One step of taking a branch off the fan-out node.
#[derive(Clone, Copy, Debug, PartialEq, Eq, Structural)]
pub enum DetachOp {
    /// Force the branch to the stopped state.
    StopBranch,
    /// Unlink the fan-out output at this index from its peer.
    UnlinkOutput(usize),
    /// Give the fan-out output at this index back to the node's free pool.
    ReleaseOutput(usize),
    /// Remove the branch from the graph's node set.
    RemoveBranch,
    /// Tell the caller that the detach has finished.
    NotifyComplete,
}

/// The output `p` feeds the branch with handle `b`.
pub open spec fn feeds_branch(p: PadInfo, b: u64) -> bool {
    p.direction == PadDirection::Src && p.linked && p.peer_parent == Some(b)
}

/// `r` names the first output of `pads` that feeds branch `b`, or none does.
pub open spec fn is_first_feed(pads: Seq<PadInfo>, b: u64, r: Option<usize>) -> bool {
    match r {
        Some(i) => i < pads.len() && feeds_branch(pads[i as int], b) && forall|j: int|
            0 <= j < i ==> !feeds_branch(#[trigger] pads[j], b),
        None => forall|j: int| 0 <= j < pads.len() ==> !feeds_branch(#[trigger] pads[j], b),
    }
}

/// The outputs of the fan-out node once the one at `r` is released.
pub open spec fn after_detach(pads: Seq<PadInfo>, r: Option<usize>) -> Seq<PadInfo> {
    match r {
        Some(i) => pads.remove(i as int),
        None => pads,
    }
}

/// The outputs of the fan-out node once a new output is linked to branch `b`.
pub open spec fn after_attach(pads: Seq<PadInfo>, b: u64) -> Seq<PadInfo> {
    pads.push(PadInfo { direction: PadDirection::Src, linked: true, peer_parent: Some(b) })
}

/// The steps of a detach, given the output found for the branch.
pub open spec fn detach_steps(r: Option<usize>) -> Seq<DetachOp> {
    match r {
        Some(i) => seq![
            DetachOp::StopBranch,
            DetachOp::UnlinkOutput(i),
            DetachOp::ReleaseOutput(i),
            DetachOp::RemoveBranch,
            DetachOp::NotifyComplete,
        ],
        None => seq![DetachOp::StopBranch, DetachOp::RemoveBranch, DetachOp::NotifyComplete],
    }
}

/// Branch `b` is fed by at most one output.
pub open spec fn fed_at_most_once(pads: Seq<PadInfo>, b: u64) -> bool {
    forall|i: int, j: int|
        0 <= i < pads.len() && 0 <= j < pads.len() && feeds_branch(#[trigger] pads[i], b)
            && feeds_branch(#[trigger] pads[j], b) ==> i == j
}

/// Finds the fan-out output whose peer belongs to the branch with handle
/// `branch`, matched by the identity of the peer's parent, not by name.
pub fn find_branch_pad(pads: &Vec<PadInfo>, branch: u64) -> (r: Option<usize>)
    ensures
        is_first_feed(pads@, branch, r),
{
    let mut i: usize = 0;
    while i < pads.len()
        invariant
            i <= pads@.len(),
            forall|j: int| 0 <= j < i ==> !feeds_branch(#[trigger] pads@[j], branch),
        decreases pads@.len() - i,
    {
        let p = pads[i];
        if p.direction == PadDirection::Src && p.linked && p.peer_parent == Some(branch) {
            return Some(i);
        }
        i = i + 1;
    }
    None
}

/// Takes the branch with handle `branch` off the fan-out node whose outputs
/// are `pads`: stop the branch, unlink and release the output that feeds it
/// (when there is one), remove the branch from the graph, and notify the
/// caller, exactly once and last, whatever was found.
pub fn unlink_tee_branch(pads: &Vec<PadInfo>, branch: u64) -> (r: Vec<DetachOp>)
    ensures
        exists|f: Option<usize>| is_first_feed(pads@, branch, f) && r@ == detach_steps(f),
{
    let found = find_branch_pad(pads, branch);
    let mut ops: Vec<DetachOp> = Vec::new();
    ops.push(DetachOp::StopBranch);
    if let Some(i) = found {
        ops.push(DetachOp::UnlinkOutput(i));
        ops.push(DetachOp::ReleaseOutput(i));
    }
    ops.push(DetachOp::RemoveBranch);
    ops.push(DetachOp::NotifyComplete);
    assert(ops@ =~= detach_steps(found));
    ops
}

/// Detaching a branch right after attaching it gives back exactly the
/// outputs the fan-out node had before, so its free-output count is restored.
pub proof fn lemma_attach_detach_symmetry(pads: Seq<PadInfo>, b: u64, r: Option<usize>)
    requires
        forall|j: int| 0 <= j < pads.len() ==> !feeds_branch(#[trigger] pads[j], b),
        is_first_feed(after_attach(pads, b), b, r),
    ensures
        r == Some(pads.len() as usize),
        after_detach(after_attach(pads, b), r) == pads,
{
    let grown = after_attach(pads, b);
    assert(feeds_branch(grown[pads.len() as int], b));
    match r {
        Some(i) => {
            if i < pads.len() {
                assert(grown[i as int] == pads[i as int]);
            }
            assert(i == pads.len());
        },
        None => {
            assert(!feeds_branch(grown[pads.len() as int], b));
        },
    }
    assert(grown.remove(pads.len() as int) =~= pads);
}

/// When branch `k` is fed by at most one output, detaching it unlinks only
/// that output: no output feeds `k` afterwards, and every other output stays,
/// in the same order.
pub proof fn lemma_detach_touches_only_its_branch(pads: Seq<PadInfo>, k: u64, r: Option<usize>)
    requires
        fed_at_most_once(pads, k),
        is_first_feed(pads, k, r),
    ensures
        forall|j: int| 0 <= j < after_detach(pads, r).len() ==> !feeds_branch(
            #[trigger] after_detach(pads, r)[j],
            k,
        ),
        forall|j: int|
            0 <= j < pads.len() && !feeds_branch(#[trigger] pads[j], k) ==> after_detach(
                pads,
                r,
            ).contains(pads[j]),
        r is Some ==> feeds_branch(pads[r->0 as int], k) && after_detach(pads, r) == pads.remove(
            r->0 as int,
        ),
        r is None ==> after_detach(pads, r) == pads,
{
    let rest = after_detach(pads, r);
    match r {
        Some(i) => {
            assert forall|j: int| 0 <= j < rest.len() implies !feeds_branch(
                #[trigger] rest[j],
                k,
            ) by {
                if j < i {
                    assert(rest[j] == pads[j]);
                } else {
                    assert(rest[j] == pads[j + 1]);
                    assert(feeds_branch(pads[i as int], k));
                }
            }
            assert forall|j: int|
                0 <= j < pads.len() && !feeds_branch(#[trigger] pads[j], k) implies rest.contains(
                pads[j],
            ) by {
                if j < i {
                    assert(rest[j] == pads[j]);
                } else {
                    assert(j != i);
                    assert(rest[j - 1] == pads[j]);
                }
            }
        },
        None => {
            assert forall|j: int|
                0 <= j < pads.len() && !feeds_branch(#[trigger] pads[j], k) implies rest.contains(
                pads[j],
            ) by {
                assert(rest[j] == pads[j]);
            }
        },
    }
}

} // verus!
