//! One turn of the read loop: what to do with what the socket gave.
use crate::event::{
    attached_tag, decode_event, detached_tag, event_of, fields, lossy_utf8, trimmed, EventView,
};
use crate::script::{
    missing_message, not_executable_message, owner_can_execute, planned, verdict_of, Bindings,
    Launch, ScriptStatus, VerdictView,
};
use vstd::prelude::*;

verus! {

/// The status the program exits with once it stops listening, for whatever reason.
pub const EXIT_STATUS: i32 = 1;

/// The result of one read of a line from the socket: its bytes (none at the end
/// of the stream), or a read error.
#[derive(Debug, Clone, PartialEq, Eq)]
pub enum Received {
    Bytes(Vec<u8>),
    Failed,
}

/// What the read loop does next: read the next line, look at a script before
/// running it, or stop listening and exit with the given status.
#[derive(Debug, Clone, PartialEq, Eq)]
pub enum Step {
    Skip,
    Inspect(Launch),
    Stop(i32),
}

/// The next step, with the run as program and argument.
pub enum StepView {
    Skip,
    Inspect(Seq<char>, Seq<char>),
    Stop(i32),
}

impl View for Step {
    type V = StepView;

    open spec fn view(&self) -> StepView {
        match self {
            Step::Skip => StepView::Skip,
            Step::Inspect(l) => StepView::Inspect(l.program@, l.argument@),
            Step::Stop(code) => StepView::Stop(*code),
        }
    }
}

/// Whether a read ended the stream: the peer closed it, or reading failed.
pub open spec fn ends_stream(r: Received) -> bool {
    match r {
        Received::Bytes(b) => b@.len() == 0,
        Received::Failed => true,
    }
}

/// The step that follows a read under bindings `b`.
pub open spec fn next_step(b: Bindings, r: Received) -> StepView {
    match r {
        Received::Bytes(bytes) if bytes@.len() > 0 => match planned(
            b,
            event_of(lossy_utf8(bytes@)),
        ) {
            Some(l) => StepView::Inspect(l.0, l.1),
            None => StepView::Skip,
        },
        _ => StepView::Stop(EXIT_STATUS),
    }
}

/// Decides what follows a read from the socket.
pub fn step(bindings: &Bindings, received: &Received) -> (s: Step)
    ensures
        s@ == next_step(*bindings, *received),
{
    match received {
        Received::Bytes(bytes) if bytes.len() > 0 => {
            let event = decode_event(bytes.as_slice());
            match bindings.request_for(&event) {
                Some(l) => Step::Inspect(l),
                None => Step::Skip,
            }
        },
        _ => Step::Stop(EXIT_STATUS),
    }
}

/// The loop stops exactly when the stream ends, by a clean close or by a read
/// error, and it then always exits with status 1.
pub proof fn lemma_stop_exits_with_one(b: Bindings, r: Received)
    ensures
        next_step(b, r) is Stop <==> ends_stream(r),
        ends_stream(r) ==> next_step(b, r) == StepView::Stop(1),
{
}


/// A line whose first field is neither of the two monitor tags starts no script
/// and reports nothing: the loop goes on to the next line.
pub proof fn lemma_other_tags_ignored(b: Bindings, bytes: Vec<u8>)
    requires
        bytes@.len() > 0,
        fields(trimmed(lossy_utf8(bytes@)))[0] != attached_tag(),
        fields(trimmed(lossy_utf8(bytes@)))[0] != detached_tag(),
    ensures
        event_of(lossy_utf8(bytes@)) == EventView::Ignored,
        next_step(b, Received::Bytes(bytes)) == StepView::Skip,
{
}


/// An attach line always leads to a look at the attach script. If nothing can
/// be opened at its path, or its owner may not execute it, an error naming the
/// path is reported and nothing starts; otherwise the script starts with the
/// monitor's name as its only argument.
pub proof fn lemma_attach_line_outcomes(b: Bindings, bytes: Vec<u8>, status: ScriptStatus)
    requires
        bytes@.len() > 0,
        event_of(lossy_utf8(bytes@)) is Attached,
    ensures
        ({
            let monitor = event_of(lossy_utf8(bytes@))->Attached_0;
            &&& next_step(b, Received::Bytes(bytes)) == StepView::Inspect(b.attached@, monitor)
            &&& verdict_of((b.attached@, monitor), status) == match status {
                ScriptStatus::Missing => VerdictView::Report(missing_message(b.attached@)),
                ScriptStatus::Present { mode } => if owner_can_execute(mode) {
                    VerdictView::Spawn(b.attached@, monitor)
                } else {
                    VerdictView::Report(not_executable_message(b.attached@))
                },
            }
        }),
{
}

} // verus!
