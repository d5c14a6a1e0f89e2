//! The stream piper's decision step.
//!
//! A piper drains one output stream of the child process line by line and
//! forwards each line to the matching console sink.  Reading the stream is
//! plain I/O; what to do with each read result is decided here.

use vstd::prelude::*;
use vstd::string::StringExecFns;

use crate::style::LogTag;

verus! {

/// One read result on a piped stream.
pub enum PipeEvent {
    /// A complete line was read.
    Line(String),
    /// Reading failed with this error description.
    ReadError(String),
    /// End of stream: the process exited or the pipe closed.
    Closed,
}

/// What the piper does with one read result.
pub enum PipeAction {
    /// Forward the line verbatim; `true` means to the error sink.
    Forward(String, bool),
    /// Report this error line, then stop piping this stream.
    ReportAndStop(String),
    /// Stop piping this stream silently.
    Stop,
}

/// Decides one piper step: lines are forwarded verbatim to the stream's
/// sink, a read error is reported and ends the piping of this stream, and
/// end-of-stream ends it silently.
pub fn pipe_step(is_stderr: bool, ev: PipeEvent) -> (a: PipeAction)
    ensures
        ev matches PipeEvent::Line(l) ==> a == PipeAction::Forward(l, is_stderr),
        ev matches PipeEvent::ReadError(e) ==> (a matches PipeAction::ReportAndStop(msg) && msg@
            == LogTag::Error.tag_spec() + " Error reading process output: "@ + e@),
        ev is Closed ==> a is Stop,
{
    match ev {
        PipeEvent::Line(l) => PipeAction::Forward(l, is_stderr),
        PipeEvent::ReadError(e) => {
            let mut msg = String::new();
            msg.append(LogTag::Error.tag());
            msg.append(" Error reading process output: ");
            msg.append(e.as_str());
            PipeAction::ReportAndStop(msg)
        },
        PipeEvent::Closed => PipeAction::Stop,
    }
}

} // verus!
