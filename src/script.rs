//! Which script an event runs, and whether it may run.
use crate::event::{Event, EventView};
use vstd::prelude::*;
use vstd::string::StringExecFns;

verus! {

/// The scripts configured at startup: one run when a monitor is attached, and
/// optionally one run when a monitor is detached.
#[derive(Debug, Clone, PartialEq, Eq)]
pub struct Bindings {
    pub attached: String,
    pub detached: Option<String>,
}

/// One run of a script: the program's path and its single argument.
#[derive(Debug, Clone, PartialEq, Eq)]
pub struct Launch {
    pub program: String,
    pub argument: String,
}

impl View for Launch {
    type V = (Seq<char>, Seq<char>);

    open spec fn view(&self) -> (Seq<char>, Seq<char>) {
        (self.program@, self.argument@)
    }
}

/// The run, as program and argument, that an event calls for under `b`: the
/// attach script with the monitor's name, the detach script (when there is one)
/// with the monitor's name, or none.
pub open spec fn planned(b: Bindings, e: EventView) -> Option<(Seq<char>, Seq<char>)> {
    match e {
        EventView::Attached(m) => Some((b.attached@, m)),
        EventView::Detached(m) => match b.detached {
            Some(d) => Some((d@, m)),
            None => None,
        },
        EventView::Ignored => None,
    }
}

/// What was found at a script's path: nothing that could be opened, or a file
/// with the given permission bits.
#[derive(Debug, Clone, PartialEq, Eq)]
pub enum ScriptStatus {
    Missing,
    Present { mode: u32 },
}

/// Whether the owner-execute bit is set among permission bits.
pub open spec fn owner_can_execute(mode: u32) -> bool {
    mode & 0o100u32 != 0
}

/// The report for a script path that cannot be opened.
pub open spec fn missing_message(program: Seq<char>) -> Seq<char> {
    "Error: '"@ + program + "' file not found."@
}

/// The report for a script that its owner may not execute.
pub open spec fn not_executable_message(program: Seq<char>) -> Seq<char> {
    "Error: '"@ + program + "' file is not executable."@
}

/// What to do with a planned run once its script has been looked at: report
/// a problem and skip the event, or start the script.
#[derive(Debug, Clone, PartialEq, Eq)]
pub enum Verdict {
    Report(String),
    Spawn(Launch),
}

/// The verdict on a run of `program` with `argument`, as text.
pub enum VerdictView {
    Report(Seq<char>),
    Spawn(Seq<char>, Seq<char>),
}

impl View for Verdict {
    type V = VerdictView;

    open spec fn view(&self) -> VerdictView {
        match self {
            Verdict::Report(m) => VerdictView::Report(m@),
            Verdict::Spawn(l) => VerdictView::Spawn(l.program@, l.argument@),
        }
    }
}

/// The verdict on the run `l` when its script was found as `status`.
pub open spec fn verdict_of(l: (Seq<char>, Seq<char>), status: ScriptStatus) -> VerdictView {
    match status {
        ScriptStatus::Missing => VerdictView::Report(missing_message(l.0)),
        ScriptStatus::Present { mode } => if owner_can_execute(mode) {
            VerdictView::Spawn(l.0, l.1)
        } else {
            VerdictView::Report(not_executable_message(l.0))
        },
    }
}

impl Bindings {
    /// The run that `event` calls for, if any.
    pub fn request_for(&self, event: &Event) -> (r: Option<Launch>)
        ensures
            match r {
                Some(l) => planned(*self, event@) == Some(l@),
                None => planned(*self, event@) is None,
            },
    {
        match event {
            Event::Attached(m) => Some(Launch { program: self.attached.clone(), argument: m.clone() }),
            Event::Detached(m) => match &self.detached {
                Some(d) => Some(Launch { program: d.clone(), argument: m.clone() }),
                None => None,
            },
            Event::Ignored => None,
        }
    }
}

/// Decides whether `launch` goes ahead, given what was found at its program's path.
pub fn judge(launch: Launch, status: ScriptStatus) -> (v: Verdict)
    ensures
        v@ == verdict_of(launch@, status),
{
    match status {
        ScriptStatus::Missing => {
            let mut m = String::from_str("Error: '");
            m.append(launch.program.as_str());
            m.append("' file not found.");
            Verdict::Report(m)
        },
        ScriptStatus::Present { mode } => {
            if mode & 0o100u32 != 0 {
                Verdict::Spawn(launch)
            } else {
                let mut m = String::from_str("Error: '");
                m.append(launch.program.as_str());
                m.append("' file is not executable.");
                Verdict::Report(m)
            }
        },
    }
}

} // verus!
