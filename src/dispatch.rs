use crate::graph::{push_restart, restart_ops, GraphOp, GraphState};
use vstd::prelude::*;
use vstd::string::StrSliceExecFns;

verus! {

/// A status event read from the graph's event stream.
#[derive(Clone, Debug)]
pub enum StatusEvent {
    EndOfStream,
    /// An error raised by the node named `source`, if the runtime named one.
    Error { source: Option<String>, message: String },
    StateChanged { source: Option<String>, old: GraphState, new: GraphState },
    /// Any event that the dispatcher has no rule for.
    Other,
}

/// What the dispatcher decided for the events queued at one tick.
#[derive(Debug)]
pub struct DrainOutcome {
    /// How many events were read: the whole queue.
    pub consumed: usize,
    /// Actions to perform on the graph, in order.
    pub ops: Vec<GraphOp>,
    /// Whether the supervisory loop goes on.
    pub keep_running: bool,
}

/// A node on the recording path: writer, muxer, encoder or buffering queue.
pub open spec fn is_recording_node(name: Seq<char>) -> bool {
    "filesink"@.is_prefix_of(name) || "qtmux"@.is_prefix_of(name) || "x264enc"@.is_prefix_of(name)
        || "queue"@.is_prefix_of(name)
}

/// An error whose source lies on the recording path is logged and swallowed.
pub open spec fn error_is_ignorable(source: Option<String>) -> bool {
    match source {
        Some(s) => is_recording_node(s@),
        None => false,
    }
}

/// The actions that one event calls for.
pub open spec fn event_ops(e: StatusEvent) -> Seq<GraphOp> {
    match e {
        StatusEvent::Error { source, .. } => if error_is_ignorable(source) {
            seq![]
        } else {
            restart_ops()
        },
        _ => seq![],
    }
}

/// The actions that a queue of events calls for: those of each event, in
/// queue order.
pub open spec fn queue_ops(q: Seq<StatusEvent>) -> Seq<GraphOp>
    decreases q.len(),
{
    if q.len() == 0 {
        seq![]
    } else {
        queue_ops(q.drop_last()) + event_ops(q.last())
    }
}

/// Whether `p` is a prefix of `s`.
pub fn has_prefix(s: &str, p: &str) -> (r: bool)
    ensures
        r == p@.is_prefix_of(s@),
{
    let n = p.unicode_len();
    let m = s.unicode_len();
    if n > m {
        return false;
    }
    let mut i: usize = 0;
    while i < n
        invariant
            n == p@.len(),
            m == s@.len(),
            n <= m,
            i <= n,
            forall|j: int| 0 <= j < i ==> p@[j] == s@[j],
        decreases n - i,
    {
        if p.get_char(i) != s.get_char(i) {
            return false;
        }
        i = i + 1;
    }
    true
}

/// Whether a node of this name belongs to the recording path.
pub fn is_recording_node_name(name: &str) -> (r: bool)
    ensures
        r == is_recording_node(name@),
{
    has_prefix(name, "filesink") || has_prefix(name, "qtmux") || has_prefix(name, "x264enc")
        || has_prefix(name, "queue")
}

/// Classifies one event: a graph-level error restarts the graph, an error of
/// the recording path is swallowed, end-of-stream and state changes are only
/// observed. Returns the actions to perform, in order.
pub fn dispatch_event(e: &StatusEvent) -> (r: Vec<GraphOp>)
    ensures
        r@ == event_ops(*e),
{
    let mut ops: Vec<GraphOp> = Vec::new();
    if let StatusEvent::Error { source, .. } = e {
        let ignorable = match source {
            Some(s) => is_recording_node_name(s.as_str()),
            None => false,
        };
        if !ignorable {
            push_restart(&mut ops);
        }
    }
    assert(ops@ =~= event_ops(*e));
    ops
}

/// Reads every event queued at one tick, front first, until the queue is
/// empty, and collects the actions of each in order: one restart for each
/// graph-level error. The supervisory loop always goes on.
pub fn dispatch_messages(queue: &Vec<StatusEvent>) -> (r: DrainOutcome)
    ensures
        r.consumed == queue@.len(),
        r.ops@ == queue_ops(queue@),
        r.keep_running,
{
    let mut ops: Vec<GraphOp> = Vec::new();
    let mut i: usize = 0;
    while i < queue.len()
        invariant
            i <= queue@.len(),
            ops@ == queue_ops(queue@.subrange(0, i as int)),
        decreases queue@.len() - i,
    {
        let mut d = dispatch_event(&queue[i]);
        proof {
            let next = queue@.subrange(0, i + 1);
            assert(next.drop_last() =~= queue@.subrange(0, i as int));
            assert(next.last() == queue@[i as int]);
        }
        ops.append(&mut d);
        i = i + 1;
    }
    assert(queue@.subrange(0, i as int) =~= queue@);
    DrainOutcome { consumed: i, ops, keep_running: true }
}

/// An error raised by a node of the recording path leaves the graph alone;
/// an error from any other source, or from no named source, calls for
/// exactly one restart: stop the graph, pause, play it again.
pub proof fn lemma_error_classification(source: Option<String>, message: String)
    ensures
        error_is_ignorable(source) ==> event_ops(StatusEvent::Error { source, message })
            == Seq::<GraphOp>::empty(),
        !error_is_ignorable(source) ==> event_ops(StatusEvent::Error { source, message })
            == restart_ops(),
        restart_ops() == seq![
            GraphOp::SetGraphState(GraphState::Null),
            GraphOp::Sleep(crate::graph::RESTART_PAUSE_MS),
            GraphOp::SetGraphState(GraphState::Playing),
        ],
{
}

/// End-of-stream, whichever branch sent it, calls for no action on the
/// graph, and draining goes on past it.
pub proof fn lemma_end_of_stream_is_benign()
    ensures
        event_ops(StatusEvent::EndOfStream) == Seq::<GraphOp>::empty(),
        forall|q: Seq<StatusEvent>|
            #![trigger queue_ops(q)]
            queue_ops(q.push(StatusEvent::EndOfStream)) == queue_ops(q),
{
    assert forall|q: Seq<StatusEvent>| #![trigger queue_ops(q)]
        queue_ops(q.push(StatusEvent::EndOfStream)) == queue_ops(q) by {
        assert(q.push(StatusEvent::EndOfStream).drop_last() =~= q);
        assert(queue_ops(q) + seq![] =~= queue_ops(q));
    }
}

} // verus!
