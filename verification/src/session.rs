//! The program from its first call to its last, as a machine that a host
//! drives: the session names the next command, the host performs it and
//! reports back, and the session moves on.
//!
//! The order is fixed. The windowing library and the window come first,
//! then the vertex shader, the fragment shader and the program, then the
//! geometry, then one frame after another until the loop closes, and last the
//! teardown. Any failure on the way aborts the session on the spot.

use crate::command::{
    Command, ComponentType, Primitive, Reply, Stage, Unit, Usage, WindowMode,
};
use crate::failure::{Failure, FailureView};
use crate::info_log::{decode, text_len, text_len_of};
use crate::render_loop::LoopState;
use crate::scene::{
    attribute_index, attribute_index_of, byte_size_of, source, source_of, vertex_data_size,
    CLEAR_ALPHA, CLEAR_BLUE, CLEAR_GREEN, CLEAR_RED, COLOR_ATTACHMENT, COLOR_OUTPUT,
    COMPONENTS_PER_VERTEX, CONTEXT_VERSION_MAJOR, CONTEXT_VERSION_MINOR, POSITION_ATTRIBUTE,
    VERTEX_COUNT, VERTEX_DATA, WINDOW_HEIGHT, WINDOW_TITLE, WINDOW_WIDTH,
};
use vstd::prelude::*;
use vstd::utf8::{decode_utf8, valid_utf8};

verus! {

/// The value by which the driver reports that a compilation or a link
/// succeeded. Every other value means that it did not.
pub const TRUE: i32 = 1;

/// Where a session stands: the command that is pending, or how it ended.
#[derive(Clone, Copy, Debug, PartialEq, Eq, Structural)]
pub enum Step {
    InitWindowing,
    HintContextVersion,
    CreateWindow,
    SetKeyPolling,
    MakeContextCurrent,
    LoadFunctions,
    CreateShader(Stage),
    ShaderSource(Stage),
    CompileShader(Stage),
    CreateProgram,
    AttachShader(Stage),
    LinkProgram,
    /// Asking whether the unit was built.
    Status(Unit),
    /// Asking for the length of the info log of a unit that was rejected.
    InfoLogLength(Unit),
    /// Fetching the info log of a unit that was rejected: `length` as the
    /// driver reported it, and the `text_len` bytes of text in it.
    InfoLog { unit: Unit, length: i32, text_len: usize },
    GenVertexArray,
    BindVertexArray,
    GenBuffer,
    BindArrayBuffer,
    BufferData,
    UseProgram,
    BindFragDataLocation,
    GetAttribLocation,
    EnableVertexAttribArray,
    VertexAttribPointer,
    ClearColor,
    PollEvents,
    ClearColorBuffer,
    DrawArrays,
    SwapBuffers,
    DeleteProgram,
    DeleteShader(Stage),
    DeleteBuffer,
    DeleteVertexArray,
    /// The teardown is complete.
    Finished,
    /// A failure ended the session.
    Aborted,
}

/// A session: where it stands, the names that the driver gave to the objects
/// created so far, and the state of the render loop.
#[derive(Clone, Copy, Debug, PartialEq, Eq, Structural)]
pub struct Session {
    pub step: Step,
    pub vertex_shader: u32,
    pub fragment_shader: u32,
    pub program: u32,
    pub vertex_array: u32,
    pub buffer: u32,
    /// Location of the position attribute, as the driver returned it.
    pub position: i32,
    pub loop_state: LoopState,
}

/// The step that follows once `unit` has been built: the fragment shader
/// after the vertex shader, the program after both, the geometry after the
/// program.
pub open spec fn step_after_build(unit: Unit) -> Step {
    match unit {
        Unit::Shader(Stage::Vertex) => Step::CreateShader(Stage::Fragment),
        Unit::Shader(Stage::Fragment) => Step::CreateProgram,
        Unit::Program => Step::GenVertexArray,
    }
}

/// The outcome of fetching the info log of a rejected unit, which ends the
/// session in every case: with the log as the diagnostic where it is
/// well-formed text of the length that was asked for. A unit for which the
/// driver keeps no log is rejected with the empty log, and nothing is
/// fetched.
pub open spec fn verdict_of(unit: Unit, text_len: usize, bytes: Seq<u8>) -> FailureView {
    if bytes.len() != text_len {
        FailureView::UnexpectedReply
    } else if valid_utf8(bytes) {
        FailureView::Rejected { unit, log: decode_utf8(bytes) }
    } else {
        FailureView::LogNotUtf8 { unit }
    }
}

impl Session {
    /// A session before its first command.
    pub open spec fn initial() -> Session {
        Session {
            step: Step::InitWindowing,
            vertex_shader: 0,
            fragment_shader: 0,
            program: 0,
            vertex_array: 0,
            buffer: 0,
            position: 0,
            loop_state: LoopState::Running,
        }
    }

    /// This session at another step.
    pub open spec fn at(self, step: Step) -> Session {
        Session { step, ..self }
    }

    /// The name of the shader for `stage`.
    pub open spec fn shader(self, stage: Stage) -> u32 {
        match stage {
            Stage::Vertex => self.vertex_shader,
            Stage::Fragment => self.fragment_shader,
        }
    }

    /// This session with `shader` as the name of the shader for `stage`.
    pub open spec fn with_shader(self, stage: Stage, shader: u32) -> Session {
        match stage {
            Stage::Vertex => Session { vertex_shader: shader, ..self },
            Stage::Fragment => Session { fragment_shader: shader, ..self },
        }
    }

    /// This session at the loop's check: on to the next frame while the loop
    /// is running, on to the teardown once it is closing.
    pub open spec fn at_loop_check(self) -> Session {
        match self.loop_state {
            LoopState::Running => self.at(Step::PollEvents),
            LoopState::Closing => self.at(Step::DeleteProgram),
        }
    }

    /// The command that the host is to perform next; `None` once the session
    /// is finished or aborted.
    pub open spec fn pending(self) -> Option<Command> {
        match self.step {
            Step::InitWindowing => Some(Command::InitWindowing),
            Step::HintContextVersion => Some(
                Command::HintContextVersion {
                    major: CONTEXT_VERSION_MAJOR,
                    minor: CONTEXT_VERSION_MINOR,
                },
            ),
            Step::CreateWindow => Some(
                Command::CreateWindow {
                    width: WINDOW_WIDTH,
                    height: WINDOW_HEIGHT,
                    title: WINDOW_TITLE,
                    mode: WindowMode::Windowed,
                },
            ),
            Step::SetKeyPolling => Some(Command::SetKeyPolling { enabled: true }),
            Step::MakeContextCurrent => Some(Command::MakeContextCurrent),
            Step::LoadFunctions => Some(Command::LoadFunctions),
            Step::CreateShader(stage) => Some(Command::CreateShader { stage }),
            Step::ShaderSource(stage) => Some(
                Command::ShaderSource { shader: self.shader(stage), source: source_of(stage) },
            ),
            Step::CompileShader(stage) => Some(
                Command::CompileShader { shader: self.shader(stage) },
            ),
            Step::CreateProgram => Some(Command::CreateProgram),
            Step::AttachShader(stage) => Some(
                Command::AttachShader { program: self.program, shader: self.shader(stage) },
            ),
            Step::LinkProgram => Some(Command::LinkProgram { program: self.program }),
            Step::Status(Unit::Shader(stage)) => Some(
                Command::GetCompileStatus { shader: self.shader(stage) },
            ),
            Step::Status(Unit::Program) => Some(Command::GetLinkStatus { program: self.program }),
            Step::InfoLogLength(Unit::Shader(stage)) => Some(
                Command::GetShaderInfoLogLength { shader: self.shader(stage) },
            ),
            Step::InfoLogLength(Unit::Program) => Some(
                Command::GetProgramInfoLogLength { program: self.program },
            ),
            Step::InfoLog { unit: Unit::Shader(stage), length, text_len } => Some(
                Command::GetShaderInfoLog {
                    shader: self.shader(stage),
                    buffer_size: length,
                    text_len,
                },
            ),
            Step::InfoLog { unit: Unit::Program, length, text_len } => Some(
                Command::GetProgramInfoLog { program: self.program, buffer_size: length, text_len },
            ),
            Step::GenVertexArray => Some(Command::GenVertexArray),
            Step::BindVertexArray => Some(Command::BindVertexArray { array: self.vertex_array }),
            Step::GenBuffer => Some(Command::GenBuffer),
            Step::BindArrayBuffer => Some(Command::BindArrayBuffer { buffer: self.buffer }),
            Step::BufferData => Some(
                Command::BufferData {
                    size: byte_size_of(VERTEX_DATA@.len() as int) as isize,
                    data: VERTEX_DATA,
                    usage: Usage::StaticDraw,
                },
            ),
            Step::UseProgram => Some(Command::UseProgram { program: self.program }),
            Step::BindFragDataLocation => Some(
                Command::BindFragDataLocation {
                    program: self.program,
                    color: COLOR_ATTACHMENT,
                    name: COLOR_OUTPUT,
                },
            ),
            Step::GetAttribLocation => Some(
                Command::GetAttribLocation { program: self.program, name: POSITION_ATTRIBUTE },
            ),
            Step::EnableVertexAttribArray => Some(
                Command::EnableVertexAttribArray { index: attribute_index_of(self.position) },
            ),
            Step::VertexAttribPointer => Some(
                Command::VertexAttribPointer {
                    index: attribute_index_of(self.position),
                    components: COMPONENTS_PER_VERTEX as i32,
                    component_type: ComponentType::Float,
                    normalized: false,
                    stride: 0,
                    offset: 0,
                },
            ),
            Step::ClearColor => Some(
                Command::ClearColor {
                    red: CLEAR_RED,
                    green: CLEAR_GREEN,
                    blue: CLEAR_BLUE,
                    alpha: CLEAR_ALPHA,
                },
            ),
            Step::PollEvents => Some(Command::PollEvents),
            Step::ClearColorBuffer => Some(Command::ClearColorBuffer),
            Step::DrawArrays => Some(
                Command::DrawArrays {
                    primitive: Primitive::Triangles,
                    first: 0,
                    count: VERTEX_COUNT as i32,
                },
            ),
            Step::SwapBuffers => Some(Command::SwapBuffers),
            Step::DeleteProgram => Some(Command::DeleteProgram { program: self.program }),
            Step::DeleteShader(stage) => Some(Command::DeleteShader { shader: self.shader(stage) }),
            Step::DeleteBuffer => Some(Command::DeleteBuffer { buffer: self.buffer }),
            Step::DeleteVertexArray => Some(
                Command::DeleteVertexArray { array: self.vertex_array },
            ),
            Step::Finished => None,
            Step::Aborted => None,
        }
    }

    /// Where the session stands once the host has answered the pending
    /// command with `reply`, or the failure that this reply ends it with.
    pub open spec fn next(self, reply: Reply) -> Result<Session, FailureView> {
        match (self.step, reply) {
            (Step::InitWindowing, Reply::Done) => Ok(self.at(Step::HintContextVersion)),
            (Step::InitWindowing, Reply::Failed) => Err(FailureView::Init),
            (Step::HintContextVersion, Reply::Done) => Ok(self.at(Step::CreateWindow)),
            (Step::CreateWindow, Reply::Done) => Ok(self.at(Step::SetKeyPolling)),
            (Step::CreateWindow, Reply::Failed) => Err(FailureView::Window),
            (Step::SetKeyPolling, Reply::Done) => Ok(self.at(Step::MakeContextCurrent)),
            (Step::MakeContextCurrent, Reply::Done) => Ok(self.at(Step::LoadFunctions)),
            (Step::LoadFunctions, Reply::Done) => Ok(self.at(Step::CreateShader(Stage::Vertex))),
            (Step::CreateShader(stage), Reply::Handle(shader)) => Ok(
                self.with_shader(stage, shader).at(Step::ShaderSource(stage)),
            ),
            (Step::ShaderSource(stage), Reply::Done) => Ok(self.at(Step::CompileShader(stage))),
            (Step::CompileShader(stage), Reply::Done) => Ok(
                self.at(Step::Status(Unit::Shader(stage))),
            ),
            (Step::CreateProgram, Reply::Handle(program)) => Ok(
                Session { program, ..self }.at(Step::AttachShader(Stage::Vertex)),
            ),
            (Step::AttachShader(Stage::Vertex), Reply::Done) => Ok(
                self.at(Step::AttachShader(Stage::Fragment)),
            ),
            (Step::AttachShader(Stage::Fragment), Reply::Done) => Ok(self.at(Step::LinkProgram)),
            (Step::LinkProgram, Reply::Done) => Ok(self.at(Step::Status(Unit::Program))),
            (Step::Status(unit), Reply::Value(status)) => if status == TRUE {
                Ok(self.at(step_after_build(unit)))
            } else {
                Ok(self.at(Step::InfoLogLength(unit)))
            },
            (Step::InfoLogLength(unit), Reply::Value(length)) => match text_len_of(length) {
                Some(text_len) => Ok(self.at(Step::InfoLog { unit, length, text_len })),
                None => Err(FailureView::Rejected { unit, log: Seq::empty() }),
            },
            (Step::InfoLog { unit, length, text_len }, Reply::Bytes(bytes)) => Err(
                verdict_of(unit, text_len, bytes@),
            ),
            (Step::GenVertexArray, Reply::Handle(array)) => Ok(
                Session { vertex_array: array, ..self }.at(Step::BindVertexArray),
            ),
            (Step::BindVertexArray, Reply::Done) => Ok(self.at(Step::GenBuffer)),
            (Step::GenBuffer, Reply::Handle(buffer)) => Ok(
                Session { buffer, ..self }.at(Step::BindArrayBuffer),
            ),
            (Step::BindArrayBuffer, Reply::Done) => Ok(self.at(Step::BufferData)),
            (Step::BufferData, Reply::Done) => Ok(self.at(Step::UseProgram)),
            (Step::UseProgram, Reply::Done) => Ok(self.at(Step::BindFragDataLocation)),
            (Step::BindFragDataLocation, Reply::Done) => Ok(self.at(Step::GetAttribLocation)),
            (Step::GetAttribLocation, Reply::Value(location)) => Ok(
                Session { position: location, ..self }.at(Step::EnableVertexAttribArray),
            ),
            (Step::EnableVertexAttribArray, Reply::Done) => Ok(self.at(Step::VertexAttribPointer)),
            (Step::VertexAttribPointer, Reply::Done) => Ok(self.at(Step::ClearColor)),
            (Step::ClearColor, Reply::Done) => Ok(self.at_loop_check()),
            (Step::PollEvents, Reply::Events(events)) => Ok(
                Session { loop_state: self.loop_state.after_all(events@), ..self }.at(
                    Step::ClearColorBuffer,
                ),
            ),
            (Step::ClearColorBuffer, Reply::Done) => Ok(self.at(Step::DrawArrays)),
            (Step::DrawArrays, Reply::Done) => Ok(self.at(Step::SwapBuffers)),
            (Step::SwapBuffers, Reply::Done) => Ok(self.at_loop_check()),
            (Step::DeleteProgram, Reply::Done) => Ok(self.at(Step::DeleteShader(Stage::Fragment))),
            (Step::DeleteShader(Stage::Fragment), Reply::Done) => Ok(
                self.at(Step::DeleteShader(Stage::Vertex)),
            ),
            (Step::DeleteShader(Stage::Vertex), Reply::Done) => Ok(self.at(Step::DeleteBuffer)),
            (Step::DeleteBuffer, Reply::Done) => Ok(self.at(Step::DeleteVertexArray)),
            (Step::DeleteVertexArray, Reply::Done) => Ok(self.at(Step::Finished)),
            _ => Err(FailureView::UnexpectedReply),
        }
    }

    /// The session after the host's answer `reply`: where `next` leads, or
    /// aborted where `next` is a failure.
    pub open spec fn after(self, reply: Reply) -> Session {
        match self.next(reply) {
            Ok(session) => session,
            Err(_) => self.at(Step::Aborted),
        }
    }

    /// The session after the first `n` of the host's answers `replies`.
    pub open spec fn after_first(self, replies: Seq<Reply>, n: nat) -> Session
        decreases n,
    {
        if n == 0 {
            self
        } else {
            self.after_first(replies, (n - 1) as nat).after(replies[n - 1])
        }
    }

    /// A session before its first command.
    pub fn new() -> (session: Session)
        ensures
            session == Session::initial(),
    {
        Session {
            step: Step::InitWindowing,
            vertex_shader: 0,
            fragment_shader: 0,
            program: 0,
            vertex_array: 0,
            buffer: 0,
            position: 0,
            loop_state: LoopState::Running,
        }
    }

    /// The name of the shader for `stage`.
    pub fn shader_name(&self, stage: Stage) -> (shader: u32)
        ensures
            shader == self.shader(stage),
    {
        match stage {
            Stage::Vertex => self.vertex_shader,
            Stage::Fragment => self.fragment_shader,
        }
    }

    /// Whether the session ran to the end of the teardown.
    pub fn is_finished(&self) -> (b: bool)
        ensures
            b == (self.step == Step::Finished),
    {
        match self.step {
            Step::Finished => true,
            _ => false,
        }
    }

    /// The command that the host is to perform next; `None` once the session
    /// is finished or aborted.
    pub fn command(&self) -> (command: Option<Command>)
        ensures
            command == self.pending(),
    {
        let program = self.program;
        match self.step {
            Step::InitWindowing => Some(Command::InitWindowing),
            Step::HintContextVersion => Some(
                Command::HintContextVersion {
                    major: CONTEXT_VERSION_MAJOR,
                    minor: CONTEXT_VERSION_MINOR,
                },
            ),
            Step::CreateWindow => Some(
                Command::CreateWindow {
                    width: WINDOW_WIDTH,
                    height: WINDOW_HEIGHT,
                    title: WINDOW_TITLE,
                    mode: WindowMode::Windowed,
                },
            ),
            Step::SetKeyPolling => Some(Command::SetKeyPolling { enabled: true }),
            Step::MakeContextCurrent => Some(Command::MakeContextCurrent),
            Step::LoadFunctions => Some(Command::LoadFunctions),
            Step::CreateShader(stage) => Some(Command::CreateShader { stage }),
            Step::ShaderSource(stage) => Some(
                Command::ShaderSource { shader: self.shader_name(stage), source: source(stage) },
            ),
            Step::CompileShader(stage) => Some(
                Command::CompileShader { shader: self.shader_name(stage) },
            ),
            Step::CreateProgram => Some(Command::CreateProgram),
            Step::AttachShader(stage) => Some(
                Command::AttachShader { program, shader: self.shader_name(stage) },
            ),
            Step::LinkProgram => Some(Command::LinkProgram { program }),
            Step::Status(unit) => match unit {
                Unit::Shader(stage) => Some(
                    Command::GetCompileStatus { shader: self.shader_name(stage) },
                ),
                Unit::Program => Some(Command::GetLinkStatus { program }),
            },
            Step::InfoLogLength(unit) => match unit {
                Unit::Shader(stage) => Some(
                    Command::GetShaderInfoLogLength { shader: self.shader_name(stage) },
                ),
                Unit::Program => Some(Command::GetProgramInfoLogLength { program }),
            },
            Step::InfoLog { unit, length, text_len } => match unit {
                Unit::Shader(stage) => Some(
                    Command::GetShaderInfoLog {
                        shader: self.shader_name(stage),
                        buffer_size: length,
                        text_len,
                    },
                ),
                Unit::Program => Some(
                    Command::GetProgramInfoLog { program, buffer_size: length, text_len },
                ),
            },
            Step::GenVertexArray => Some(Command::GenVertexArray),
            Step::BindVertexArray => Some(Command::BindVertexArray { array: self.vertex_array }),
            Step::GenBuffer => Some(Command::GenBuffer),
            Step::BindArrayBuffer => Some(Command::BindArrayBuffer { buffer: self.buffer }),
            Step::BufferData => Some(
                Command::BufferData {
                    size: vertex_data_size(),
                    data: VERTEX_DATA,
                    usage: Usage::StaticDraw,
                },
            ),
            Step::UseProgram => Some(Command::UseProgram { program }),
            Step::BindFragDataLocation => Some(
                Command::BindFragDataLocation {
                    program,
                    color: COLOR_ATTACHMENT,
                    name: COLOR_OUTPUT,
                },
            ),
            Step::GetAttribLocation => Some(
                Command::GetAttribLocation { program, name: POSITION_ATTRIBUTE },
            ),
            Step::EnableVertexAttribArray => Some(
                Command::EnableVertexAttribArray { index: attribute_index(self.position) },
            ),
            Step::VertexAttribPointer => Some(
                Command::VertexAttribPointer {
                    index: attribute_index(self.position),
                    components: COMPONENTS_PER_VERTEX as i32,
                    component_type: ComponentType::Float,
                    normalized: false,
                    stride: 0,
                    offset: 0,
                },
            ),
            Step::ClearColor => Some(
                Command::ClearColor {
                    red: CLEAR_RED,
                    green: CLEAR_GREEN,
                    blue: CLEAR_BLUE,
                    alpha: CLEAR_ALPHA,
                },
            ),
            Step::PollEvents => Some(Command::PollEvents),
            Step::ClearColorBuffer => Some(Command::ClearColorBuffer),
            Step::DrawArrays => Some(
                Command::DrawArrays {
                    primitive: Primitive::Triangles,
                    first: 0,
                    count: VERTEX_COUNT as i32,
                },
            ),
            Step::SwapBuffers => Some(Command::SwapBuffers),
            Step::DeleteProgram => Some(Command::DeleteProgram { program }),
            Step::DeleteShader(stage) => Some(
                Command::DeleteShader { shader: self.shader_name(stage) },
            ),
            Step::DeleteBuffer => Some(Command::DeleteBuffer { buffer: self.buffer }),
            Step::DeleteVertexArray => Some(
                Command::DeleteVertexArray { array: self.vertex_array },
            ),
            Step::Finished => None,
            Step::Aborted => None,
        }
    }

    /// Takes the host's answer to the pending command and moves on. On a
    /// failure the session is aborted, and nothing else about it changes.
    pub fn advance(&mut self, reply: Reply) -> (result: Result<(), Failure>)
        ensures
            *final(self) == old(self).after(reply),
            match old(self).next(reply) {
                Ok(_) => result is Ok,
                Err(failure) => result matches Err(f) && f@ == failure,
            },
    {
        let step = match (self.step, reply) {
            (Step::InitWindowing, Reply::Done) => Ok(Step::HintContextVersion),
            (Step::InitWindowing, Reply::Failed) => Err(Failure::Init),
            (Step::HintContextVersion, Reply::Done) => Ok(Step::CreateWindow),
            (Step::CreateWindow, Reply::Done) => Ok(Step::SetKeyPolling),
            (Step::CreateWindow, Reply::Failed) => Err(Failure::Window),
            (Step::SetKeyPolling, Reply::Done) => Ok(Step::MakeContextCurrent),
            (Step::MakeContextCurrent, Reply::Done) => Ok(Step::LoadFunctions),
            (Step::LoadFunctions, Reply::Done) => Ok(Step::CreateShader(Stage::Vertex)),
            (Step::CreateShader(stage), Reply::Handle(shader)) => {
                match stage {
                    Stage::Vertex => self.vertex_shader = shader,
                    Stage::Fragment => self.fragment_shader = shader,
                }
                Ok(Step::ShaderSource(stage))
            },
            (Step::ShaderSource(stage), Reply::Done) => Ok(Step::CompileShader(stage)),
            (Step::CompileShader(stage), Reply::Done) => Ok(Step::Status(Unit::Shader(stage))),
            (Step::CreateProgram, Reply::Handle(program)) => {
                self.program = program;
                Ok(Step::AttachShader(Stage::Vertex))
            },
            (Step::AttachShader(Stage::Vertex), Reply::Done) => Ok(
                Step::AttachShader(Stage::Fragment),
            ),
            (Step::AttachShader(Stage::Fragment), Reply::Done) => Ok(Step::LinkProgram),
            (Step::LinkProgram, Reply::Done) => Ok(Step::Status(Unit::Program)),
            (Step::Status(unit), Reply::Value(status)) => Ok(after_status(unit, status)),
            (Step::InfoLogLength(unit), Reply::Value(length)) => match text_len(length) {
                Some(text_len) => Ok(Step::InfoLog { unit, length, text_len }),
                None => Err(Failure::Rejected { unit, log: String::new() }),
            },
            (Step::InfoLog { unit, length: _, text_len }, Reply::Bytes(bytes)) => Err(
                verdict(unit, text_len, bytes),
            ),
            (Step::GenVertexArray, Reply::Handle(array)) => {
                self.vertex_array = array;
                Ok(Step::BindVertexArray)
            },
            (Step::BindVertexArray, Reply::Done) => Ok(Step::GenBuffer),
            (Step::GenBuffer, Reply::Handle(buffer)) => {
                self.buffer = buffer;
                Ok(Step::BindArrayBuffer)
            },
            (Step::BindArrayBuffer, Reply::Done) => Ok(Step::BufferData),
            (Step::BufferData, Reply::Done) => Ok(Step::UseProgram),
            (Step::UseProgram, Reply::Done) => Ok(Step::BindFragDataLocation),
            (Step::BindFragDataLocation, Reply::Done) => Ok(Step::GetAttribLocation),
            (Step::GetAttribLocation, Reply::Value(location)) => {
                self.position = location;
                Ok(Step::EnableVertexAttribArray)
            },
            (Step::EnableVertexAttribArray, Reply::Done) => Ok(Step::VertexAttribPointer),
            (Step::VertexAttribPointer, Reply::Done) => Ok(Step::ClearColor),
            (Step::ClearColor, Reply::Done) => Ok(loop_check(self.loop_state)),
            (Step::PollEvents, Reply::Events(events)) => {
                self.loop_state = self.loop_state.on_events(&events);
                Ok(Step::ClearColorBuffer)
            },
            (Step::ClearColorBuffer, Reply::Done) => Ok(Step::DrawArrays),
            (Step::DrawArrays, Reply::Done) => Ok(Step::SwapBuffers),
            (Step::SwapBuffers, Reply::Done) => Ok(loop_check(self.loop_state)),
            (Step::DeleteProgram, Reply::Done) => Ok(Step::DeleteShader(Stage::Fragment)),
            (Step::DeleteShader(Stage::Fragment), Reply::Done) => Ok(
                Step::DeleteShader(Stage::Vertex),
            ),
            (Step::DeleteShader(Stage::Vertex), Reply::Done) => Ok(Step::DeleteBuffer),
            (Step::DeleteBuffer, Reply::Done) => Ok(Step::DeleteVertexArray),
            (Step::DeleteVertexArray, Reply::Done) => Ok(Step::Finished),
            _ => Err(Failure::UnexpectedReply),
        };
        match step {
            Ok(step) => {
                self.step = step;
                Ok(())
            },
            Err(failure) => {
                self.step = Step::Aborted;
                Err(failure)
            },
        }
    }
}

/// The step after the driver answered the status query for `unit`: on with
/// the program where it reports success, on to the info log where it reports
/// anything else.
pub fn after_status(unit: Unit, status: i32) -> (step: Step)
    ensures
        status == TRUE ==> step == step_after_build(unit),
        status != TRUE ==> step == Step::InfoLogLength(unit),
{
    if status == TRUE {
        match unit {
            Unit::Shader(Stage::Vertex) => Step::CreateShader(Stage::Fragment),
            Unit::Shader(Stage::Fragment) => Step::CreateProgram,
            Unit::Program => Step::GenVertexArray,
        }
    } else {
        Step::InfoLogLength(unit)
    }
}

/// The failure that the info log of a rejected unit ends the session with.
pub fn verdict(unit: Unit, text_len: usize, bytes: Vec<u8>) -> (failure: Failure)
    ensures
        failure@ == verdict_of(unit, text_len, bytes@),
{
    if bytes.len() != text_len {
        Failure::UnexpectedReply
    } else {
        match decode(bytes) {
            Some(log) => Failure::Rejected { unit, log },
            None => Failure::LogNotUtf8 { unit },
        }
    }
}

/// The loop's check: the step that starts the next frame while the loop is
/// running, the first step of the teardown once it is closing.
pub fn loop_check(state: LoopState) -> (step: Step)
    ensures
        state == LoopState::Running ==> step == Step::PollEvents,
        state == LoopState::Closing ==> step == Step::DeleteProgram,
{
    match state {
        LoopState::Running => Step::PollEvents,
        LoopState::Closing => Step::DeleteProgram,
    }
}

} // verus!
