use crate::graph::{push_restart, restart_ops, GraphOp, GraphState};
use crate::linker::LinkError;
use vstd::prelude::*;

verus! {

/// Time given to the encoder and muxer to flush after end-of-stream, in ms.
pub const FLUSH_GRACE_MS: u64 = 500;

/// Longest wait for the graph to report the running state again, in ms.
pub const SETTLE_TIMEOUT_MS: u64 = 1000;

/// Description of the recording branch, up to the output file's location.
pub const BRANCH_HEAD: &'static str = "queue ! videoconvert ! x264enc tune=zerolatency speed-preset=superfast key-int-max=30 ! video/x-h264,profile=main ! mp4mux streamable=true fragment-duration=1 ! filesink location=";

/// Description of the recording branch after the output file's location.
pub const BRANCH_TAIL: &'static str = " sync=false";

/// The branch description (queue, encoder, muxer, file writer) for `path`.
pub open spec fn branch_description(path: Seq<char>) -> Seq<char> {
    BRANCH_HEAD@ + path + BRANCH_TAIL@
}

/// What `start` asks the caller to build: nothing while recording, else the
/// branch for `path`.
pub open spec fn start_plan(v: Option<Seq<char>>, path: Seq<char>) -> Option<Seq<char>> {
    match v {
        Some(_) => None,
        None => Some(branch_description(path)),
    }
}

/// The session once the attach for `path` has ended, `attached` telling
/// whether it succeeded.
pub open spec fn after_start(v: Option<Seq<char>>, path: Seq<char>, attached: bool) -> Option<
    Seq<char>,
> {
    match v {
        Some(_) => v,
        None => if attached {
            Some(path)
        } else {
            None
        },
    }
}

/// The stop sequence of an active session: flush the branch, stop and detach
/// it, then restart the whole graph and wait for it to settle.
pub open spec fn stop_sequence() -> Seq<GraphOp> {
    seq![
        GraphOp::SendEos,
        GraphOp::Sleep(FLUSH_GRACE_MS),
        GraphOp::SetBranchState(GraphState::Null),
        GraphOp::DetachBranch,
    ] + restart_ops() + seq![GraphOp::AwaitGraphState(SETTLE_TIMEOUT_MS)]
}

/// The actions of `stop` on a session.
pub open spec fn stop_ops(v: Option<Seq<char>>) -> Seq<GraphOp> {
    match v {
        Some(_) => stop_sequence(),
        None => seq![],
    }
}

/// The recording session: idle, or recording through one branch that writes
/// to a file.
pub struct Recorder {
    recording: bool,
    branch: Option<String>,
}

impl View for Recorder {
    /// The output file of the active branch, or `None` when idle.
    type V = Option<Seq<char>>;

    closed spec fn view(&self) -> Option<Seq<char>> {
        match self.branch {
            Some(p) => Some(p@),
            None => None,
        }
    }
}

impl Recorder {
    /// The flag is set exactly when a branch is held.
    #[verifier::type_invariant]
    spec fn inv(self) -> bool {
        self.recording == self.branch is Some
    }

    /// An idle session.
    pub fn new() -> (r: Recorder)
        ensures
            r@ is None,
    {
        Recorder { recording: false, branch: None }
    }

    /// Whether a branch is recording.
    pub fn is_recording(&self) -> (r: bool)
        ensures
            r == self@ is Some,
    {
        proof {
            use_type_invariant(self);
        }
        self.recording
    }

    /// The output file of the active branch.
    pub fn active_path(&self) -> (r: Option<String>)
        ensures
            r matches Some(p) ==> self@ == Some(p@),
            r is None ==> self@ is None,
    {
        match &self.branch {
            Some(p) => Some(p.clone()),
            None => None,
        }
    }

    /// First half of `start(path)`: while recording, nothing is to be done
    /// and no branch is built; otherwise the description of the branch to
    /// build and attach.
    pub fn begin_start(&self, path: &str) -> (r: Option<String>)
        ensures
            r matches Some(d) ==> start_plan(self@, path@) == Some(d@),
            r is None ==> start_plan(self@, path@) is None,
    {
        if self.is_recording() {
            return None;
        }
        let mut d = String::from_str(BRANCH_HEAD);
        d.append(path);
        d.append(BRANCH_TAIL);
        Some(d)
    }

    /// Second half of `start(path)`: records the branch once it is attached.
    /// A failed attach leaves the session idle; a session already recording
    /// keeps its branch. Returns whether a recording began.
    pub fn finish_start(&mut self, path: &str, attached: Result<(), LinkError>) -> (r: bool)
        ensures
            final(self)@ == after_start(old(self)@, path@, attached is Ok),
            r == (old(self)@ is None && attached is Ok),
    {
        if self.is_recording() {
            return false;
        }
        match attached {
            Ok(()) => {
                *self = Recorder { recording: true, branch: Some(String::from_str(path)) };
                true
            },
            Err(_) => false,
        }
    }

    /// `stop()`: for an active session, the actions that flush, stop and
    /// detach the branch and then restart the graph; nothing for an idle
    /// one. The session is idle afterwards in every case.
    pub fn stop_recording(&mut self) -> (r: Vec<GraphOp>)
        ensures
            final(self)@ is None,
            r@ == stop_ops(old(self)@),
    {
        let mut ops: Vec<GraphOp> = Vec::new();
        if self.is_recording() {
            ops.push(GraphOp::SendEos);
            ops.push(GraphOp::Sleep(FLUSH_GRACE_MS));
            ops.push(GraphOp::SetBranchState(GraphState::Null));
            ops.push(GraphOp::DetachBranch);
            push_restart(&mut ops);
            ops.push(GraphOp::AwaitGraphState(SETTLE_TIMEOUT_MS));
            assert(ops@ =~= stop_sequence());
        } else {
            assert(ops@ =~= seq![]);
        }
        *self = Recorder { recording: false, branch: None };
        ops
    }
}

/// `start` while recording is a no-op: no branch is built, and the session
/// keeps the branch it holds whatever the attach reports.
pub proof fn lemma_start_while_recording(v: Option<Seq<char>>, path: Seq<char>, attached: bool)
    requires
        v is Some,
    ensures
        start_plan(v, path) is None,
        after_start(v, path, attached) == v,
{
}

/// `stop` is idempotent: it leaves every session idle, and on an idle
/// session it does nothing, so a second `stop` adds nothing to the first.
pub proof fn lemma_stop_idempotent(v: Option<Seq<char>>)
    ensures
        stop_ops(None) == Seq::<GraphOp>::empty(),
        v is None ==> stop_ops(v) == Seq::<GraphOp>::empty(),
        stop_ops(v) + stop_ops(None) == stop_ops(v),
{
    assert(stop_ops(v) + seq![] =~= stop_ops(v));
}

} // verus!
