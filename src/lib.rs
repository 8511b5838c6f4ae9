//! Control logic for a live camera preview with on-demand recording: the
//! protocol that splices an encoding branch onto a running media graph's
//! fan-out node and takes it off again, the recording-session state machine,
//! and the triage of the graph's status events.

pub mod dispatch;
pub mod fanout;
pub mod graph;
pub mod linker;
pub mod output;
pub mod session;

pub use dispatch::{dispatch_event, dispatch_messages, DrainOutcome, StatusEvent};
pub use fanout::{find_branch_pad, unlink_tee_branch, DetachOp, PadDirection, PadInfo};
pub use graph::{GraphOp, GraphState};
pub use linker::{AttachStage, AttachStep, LinkError};
pub use output::{path_from_stamp, recording_path};
pub use session::Recorder;
