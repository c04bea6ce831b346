//! The ways a session ends early. None of them is recovered from: the host
//! is expected to stop with the failure's message.

use crate::command::Unit;
use vstd::prelude::*;

verus! {

/// Why a session was aborted.
#[derive(Debug, PartialEq, Eq)]
pub enum Failure {
    /// The windowing library could not be initialised.
    Init,
    /// The window, or its graphics context, could not be created.
    Window,
    /// The driver rejected a shader or the program; `log` is what it said,
    /// and empty where it kept no info log.
    Rejected { unit: Unit, log: String },
    /// The driver rejected a shader or the program, and its info log is not
    /// well-formed UTF-8.
    LogNotUtf8 { unit: Unit },
    /// The host's reply does not answer the command that was pending.
    UnexpectedReply,
}

/// A failure with its text as a sequence of characters.
pub enum FailureView {
    Init,
    Window,
    Rejected { unit: Unit, log: Seq<char> },
    LogNotUtf8 { unit: Unit },
    UnexpectedReply,
}

impl View for Failure {
    type V = FailureView;

    open spec fn view(&self) -> FailureView {
        match *self {
            Failure::Init => FailureView::Init,
            Failure::Window => FailureView::Window,
            Failure::Rejected { unit, log } => FailureView::Rejected { unit, log: log@ },
            Failure::LogNotUtf8 { unit } => FailureView::LogNotUtf8 { unit },
            Failure::UnexpectedReply => FailureView::UnexpectedReply,
        }
    }
}

impl FailureView {
    /// The diagnostic to stop with. For a rejected unit it is the driver's
    /// info log, unchanged.
    pub open spec fn message(self) -> Seq<char> {
        match self {
            FailureView::Init => "Failed to initialize GLFW."@,
            FailureView::Window => "Failed to create GLFW window."@,
            FailureView::Rejected { unit, log } => log,
            FailureView::LogNotUtf8 { unit: Unit::Shader(_) } => "ShaderInfoLog is not valid UTF-8"@,
            FailureView::LogNotUtf8 { unit: Unit::Program } => "ProgramInfoLog is not valid UTF-8"@,
            FailureView::UnexpectedReply => "Unexpected reply to the pending command"@,
        }
    }
}

impl Failure {
    /// The diagnostic to stop with.
    pub fn message(&self) -> (text: String)
        ensures
            text@ == self@.message(),
    {
        match self {
            Failure::Init => "Failed to initialize GLFW.".to_owned(),
            Failure::Window => "Failed to create GLFW window.".to_owned(),
            Failure::Rejected { unit: _, log } => log.clone(),
            Failure::LogNotUtf8 { unit: Unit::Shader(_) } => "ShaderInfoLog is not valid UTF-8".to_owned(),
            Failure::LogNotUtf8 { unit: Unit::Program } => "ProgramInfoLog is not valid UTF-8".to_owned(),
            Failure::UnexpectedReply => "Unexpected reply to the pending command".to_owned(),
        }
    }
}

} // verus!
