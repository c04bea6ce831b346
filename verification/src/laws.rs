//! What holds of every session, whatever the driver and the user do.

use crate::command::{
    Command, ComponentType, Primitive, Reply, Stage, Unit, Usage, WindowMode,
};
use crate::failure::FailureView;
use crate::input::{Action, Key, KeyEvent};
use crate::info_log::lemma_text_is_nonempty;
use crate::render_loop::{law_poll_closes_on_escape_press, LoopState};
use crate::scene::{
    attribute_index_of, source_of, CLEAR_ALPHA, CLEAR_BLUE, CLEAR_GREEN, CLEAR_RED, COLOR_OUTPUT,
    POSITION_ATTRIBUTE, VERTEX_DATA, WINDOW_TITLE,
};
use crate::session::{step_after_build, Session, Step, TRUE};
use vstd::prelude::*;
use vstd::utf8::{decode_utf8, valid_utf8};

verus! {

/// The query for the length of the info log of `unit`.
pub open spec fn info_log_length_query(session: Session, unit: Unit) -> Command {
    match unit {
        Unit::Shader(stage) => Command::GetShaderInfoLogLength { shader: session.shader(stage) },
        Unit::Program => Command::GetProgramInfoLogLength { program: session.program },
    }
}

/// A unit that the driver reports as built is accepted: the session keeps
/// every name, goes on with what follows the unit, and asks for no info
/// log. The vertex shader is followed by the fragment shader, the fragment
/// shader by the program, the program by the geometry.
pub proof fn law_built_unit_is_accepted(session: Session, unit: Unit)
    requires
        session.step == Step::Status(unit),
    ensures
        session.next(Reply::Value(TRUE)) == Ok::<Session, FailureView>(
            session.at(step_after_build(unit)),
        ),
        session.after(Reply::Value(TRUE)).pending() == Some(
            match unit {
                Unit::Shader(Stage::Vertex) => Command::CreateShader { stage: Stage::Fragment },
                Unit::Shader(Stage::Fragment) => Command::CreateProgram,
                Unit::Program => Command::GenVertexArray,
            },
        ),
{
}

/// A unit that the driver does not report as built ends the session. The
/// session asks for the length of the unit's info log and, where the driver
/// keeps a log, for the log; whatever the host answers, the session is
/// aborted by then.
pub proof fn law_rejected_unit_ends_the_session(
    session: Session,
    unit: Unit,
    status: i32,
    length: Reply,
    log: Reply,
)
    requires
        session.step == Step::Status(unit),
        status != TRUE,
    ensures
        session.next(Reply::Value(status)) is Ok,
        session.after(Reply::Value(status)).pending() == Some(info_log_length_query(session, unit)),
        session.after(Reply::Value(status)).after(length).after(log).step == Step::Aborted,
{
}

/// What follows a unit is reached in one way only: by the driver's report
/// that the unit was built. So the fragment shader is not begun before the
/// vertex shader is compiled, the program is not begun before both shaders
/// are compiled, and the program is not used before it is linked.
pub proof fn law_only_a_built_unit_is_passed(session: Session, reply: Reply, unit: Unit)
    ensures
        session.after(reply).step == step_after_build(unit) ==> session.step == Step::Status(unit)
            && reply == Reply::Value(TRUE),
{
}

/// The diagnostic for a rejected unit is the driver's info log: the text
/// bytes that the host fetched, decoded as UTF-8 and otherwise unchanged. A
/// log whose reported length is above one, the terminator counted, gives a
/// diagnostic that is not empty.
pub proof fn law_diagnostic_is_the_info_log(
    session: Session,
    unit: Unit,
    status: i32,
    length: i32,
    bytes: Vec<u8>,
)
    requires
        session.step == Step::Status(unit),
        status != TRUE,
        length >= 1,
        bytes@.len() == length - 1,
        valid_utf8(bytes@),
    ensures
        session.after(Reply::Value(status)).after(Reply::Value(length)).next(Reply::Bytes(bytes))
            == Err::<Session, FailureView>(
            FailureView::Rejected { unit, log: decode_utf8(bytes@) },
        ),
        (FailureView::Rejected { unit, log: decode_utf8(bytes@) }).message() == decode_utf8(
            bytes@,
        ),
        length >= 2 ==> decode_utf8(bytes@).len() > 0,
{
    if length >= 2 {
        lemma_text_is_nonempty(bytes@);
    }
}

/// A rejected unit for which the driver keeps no info log, that is, reports
/// a length below one, ends the session with the empty diagnostic, and no
/// log is fetched.
pub proof fn law_unit_without_info_log_has_the_empty_diagnostic(
    session: Session,
    unit: Unit,
    status: i32,
    length: i32,
)
    requires
        session.step == Step::Status(unit),
        status != TRUE,
        length < 1,
    ensures
        session.after(Reply::Value(status)).next(Reply::Value(length)) == Err::<
            Session,
            FailureView,
        >(FailureView::Rejected { unit, log: Seq::empty() }),
        (FailureView::Rejected { unit, log: Seq::empty() }).message() == Seq::<char>::empty(),
        session.after(Reply::Value(status)).after(Reply::Value(length)).step == Step::Aborted,
{
}

/// The vertex data is uploaded at one step only, and what the upload hands
/// to the driver is the triangle: the bit patterns of (0.0, 0.5),
/// (0.5, -0.5) and (-0.5, -0.5) in this order, 24 bytes in all, for static
/// use.
pub proof fn law_upload_is_the_triangle(session: Session)
    ensures
        session.pending() matches Some(Command::BufferData { size, data, usage }) ==> {
            &&& session.step == Step::BufferData
            &&& size == 24
            &&& usage == Usage::StaticDraw
            &&& data@ =~= seq![
                0x0000_0000u32,
                0x3F00_0000u32,
                0x3F00_0000u32,
                0xBF00_0000u32,
                0xBF00_0000u32,
                0xBF00_0000u32,
            ]
        },
        session.step == Step::BufferData ==> session.pending() is Some && session.pending()->0 is BufferData,
{
}

/// The position attribute is described at one step only, as two
/// single-precision floats per vertex, not normalized, tightly packed, from
/// the start of the buffer.
pub proof fn law_position_is_two_floats(session: Session)
    ensures
        session.pending() matches Some(
            Command::VertexAttribPointer {
                index,
                components,
                component_type,
                normalized,
                stride,
                offset,
            },
        ) ==> {
            &&& session.step == Step::VertexAttribPointer
            &&& index == attribute_index_of(session.position)
            &&& components == 2
            &&& component_type == ComponentType::Float
            &&& !normalized
            &&& stride == 0
            &&& offset == 0
        },
{
}

/// The session after one whole frame that starts with the host's answer
/// `events` to the poll.
pub open spec fn after_frame(session: Session, events: Vec<KeyEvent>) -> Session {
    session.after(Reply::Events(events)).after(Reply::Done).after(Reply::Done).after(Reply::Done)
}

/// Every frame is a poll, a clear, one draw call and a swap, in this order,
/// and the draw call is for the three vertices of the triangle, as a
/// triangle list.
pub proof fn law_frame_draws_the_triangle_once(session: Session, events: Vec<KeyEvent>)
    requires
        session.step == Step::PollEvents,
    ensures
        session.pending() == Some(Command::PollEvents),
        session.after(Reply::Events(events)).pending() == Some(Command::ClearColorBuffer),
        session.after(Reply::Events(events)).after(Reply::Done).pending() == Some(
            Command::DrawArrays { primitive: Primitive::Triangles, first: 0, count: 3 },
        ),
        session.after(Reply::Events(events)).after(Reply::Done).after(Reply::Done).pending()
            == Some(Command::SwapBuffers),
        after_frame(session, events) == (Session {
            loop_state: session.loop_state.after_all(events@),
            ..session
        }).at_loop_check(),
{
}

/// No draw call is ever pending but the one of the frame: three vertices
/// from the first on, as a triangle list.
pub proof fn law_every_draw_is_the_triangle(session: Session)
    ensures
        session.pending() matches Some(Command::DrawArrays { primitive, first, count }) ==> {
            &&& session.step == Step::DrawArrays
            &&& primitive == Primitive::Triangles
            &&& first == 0
            &&& count == 3
        },
{
}

/// A draw call is pending only after the clear of a frame, and the clear
/// only after the poll: there is no way to a draw call but through a frame.
pub proof fn law_draw_only_within_a_frame(session: Session, reply: Reply)
    ensures
        session.after(reply).step == Step::DrawArrays ==> session.step == Step::ClearColorBuffer,
        session.after(reply).step == Step::ClearColorBuffer ==> session.step == Step::PollEvents,
        session.after(reply).step == Step::PollEvents ==> session.loop_state == LoopState::Running
            && (session.step == Step::SwapBuffers || session.step == Step::ClearColor),
{
}

/// A running loop ends with the frame in which a press of the escape key
/// arrives, and with no other: after that frame the teardown begins, after
/// any other the next poll.
pub proof fn law_escape_press_ends_the_loop(session: Session, events: Vec<KeyEvent>)
    requires
        session.step == Step::PollEvents,
        session.loop_state == LoopState::Running,
    ensures
        ({
            let pressed = exists|i: int|
                0 <= i < events@.len() && (#[trigger] events@[i]).key == Key::Escape && events@[i].action
                    == Action::Press;
            let then = after_frame(session, events);
            &&& pressed ==> then.loop_state == LoopState::Closing && then.pending() == Some(
                Command::DeleteProgram { program: session.program },
            )
            &&& !pressed ==> then == session
        }),
{
    law_poll_closes_on_escape_press(events@);
}

/// Once the loop is closing it never runs again: the frame that is under way
/// is completed, and then the teardown begins whatever else arrives.
pub proof fn law_closing_loop_stays_closed(session: Session, events: Vec<KeyEvent>)
    requires
        session.step == Step::PollEvents,
        session.loop_state == LoopState::Closing,
    ensures
        after_frame(session, events).step == Step::DeleteProgram,
        after_frame(session, events).loop_state == LoopState::Closing,
{
}

/// The teardown begins in one way only: at the check of a loop that is
/// closing. Nothing is deleted while frames are still being drawn.
pub proof fn law_teardown_only_after_the_loop_closed(session: Session, reply: Reply)
    ensures
        session.after(reply).step == Step::DeleteProgram ==> session.loop_state
            == LoopState::Closing && (session.step == Step::SwapBuffers || session.step
            == Step::ClearColor),
{
}

/// A poll is quiet when none of its events asks the program to close.
pub open spec fn quiet(events: Seq<KeyEvent>) -> bool {
    forall|i: int| 0 <= i < events.len() ==> !(#[trigger] events[i]).requests_close()
}

/// The answers of a host over as many whole frames as there are `polls`: to
/// each poll the events that it delivered, and `Done` to the clear, the draw
/// call and the swap that follow it.
pub open spec fn frame_replies(polls: Seq<Vec<KeyEvent>>) -> Seq<Reply> {
    Seq::new(
        4 * polls.len(),
        |i: int|
            if i % 4 == 0 {
                Reply::Events(polls[i / 4])
            } else {
                Reply::Done
            },
    )
}

/// For as long as the loop is running, that is, up to and including the
/// first frame whose poll is not quiet, every frame is a poll, a clear,
/// exactly one draw call for the triangle, and a swap. After a quiet poll
/// the session stands where it stood before the frame; after the first poll
/// that is not quiet the loop is closing and the teardown begins.
pub proof fn law_each_running_frame_draws_once(
    session: Session,
    polls: Seq<Vec<KeyEvent>>,
    frame: nat,
)
    requires
        session.step == Step::PollEvents,
        session.loop_state == LoopState::Running,
        frame < polls.len(),
        forall|j: int| 0 <= j < frame ==> quiet(#[trigger] polls[j]@),
    ensures
        session.after_first(frame_replies(polls), 4 * frame) == session,
        session.after_first(frame_replies(polls), 4 * frame).pending() == Some(Command::PollEvents),
        session.after_first(frame_replies(polls), 4 * frame + 1).pending() == Some(
            Command::ClearColorBuffer,
        ),
        session.after_first(frame_replies(polls), 4 * frame + 2).pending() == Some(
            Command::DrawArrays { primitive: Primitive::Triangles, first: 0, count: 3 },
        ),
        session.after_first(frame_replies(polls), 4 * frame + 3).pending() == Some(
            Command::SwapBuffers,
        ),
        quiet(polls[frame as int]@) ==> session.after_first(frame_replies(polls), 4 * frame + 4)
            == session,
        !quiet(polls[frame as int]@) ==> session.after_first(frame_replies(polls), 4 * frame + 4)
            == (Session { loop_state: LoopState::Closing, ..session }).at(Step::DeleteProgram),
    decreases frame,
{
    let replies = frame_replies(polls);
    if frame > 0 {
        law_each_running_frame_draws_once(session, polls, (frame - 1) as nat);
        assert(quiet(polls[frame - 1]@));
    }
    let start: int = 4 * (frame as int);
    let events = polls[frame as int];
    let polled = session.after(Reply::Events(events));
    let cleared = polled.after(Reply::Done);
    let drawn = cleared.after(Reply::Done);
    law_frame_draws_the_triangle_once(session, events);
    assert(session.after_first(replies, start as nat) == session);
    assert(session.after_first(replies, (start + 1) as nat) == polled) by {
        assert(replies[start] == Reply::Events(events));
    }
    assert(session.after_first(replies, (start + 2) as nat) == cleared) by {
        assert(replies[start + 1] == Reply::Done);
    }
    assert(session.after_first(replies, (start + 3) as nat) == drawn) by {
        assert(replies[start + 2] == Reply::Done);
    }
    assert(session.after_first(replies, (start + 4) as nat) == after_frame(session, events)) by {
        assert(replies[start + 3] == Reply::Done);
    }
    assert(quiet(events@) <==> LoopState::Running.after_all(events@) == LoopState::Running);
}

/// The answers of a host to the six calls of the bootstrap, none of which
/// fails.
pub open spec fn bootstrap_replies() -> Seq<Reply> {
    seq![Reply::Done, Reply::Done, Reply::Done, Reply::Done, Reply::Done, Reply::Done]
}

/// How the program starts, call by call: it initialises the windowing
/// library, asks for a context of version 3.1, opens a window of 800 by 600
/// pixels, switches key events on, makes the context current and resolves
/// the driver's entry points.
pub open spec fn bootstrap_script() -> Seq<Command> {
    seq![
        Command::InitWindowing,
        Command::HintContextVersion { major: 3, minor: 1 },
        Command::CreateWindow {
            width: 800,
            height: 600,
            title: WINDOW_TITLE,
            mode: WindowMode::Windowed,
        },
        Command::SetKeyPolling { enabled: true },
        Command::MakeContextCurrent,
        Command::LoadFunctions,
    ]
}

/// Where nothing fails, a new session hands out the bootstrap call by call
/// in its fixed order and then turns to the vertex shader.
pub proof fn law_bootstrap_runs_in_order()
    ensures
        forall|i: int|
            0 <= i < 6 ==> Session::initial().after_first(bootstrap_replies(), i as nat).pending()
                == Some(#[trigger] bootstrap_script()[i]),
        Session::initial().after_first(bootstrap_replies(), 6) == Session::initial().at(
            Step::CreateShader(Stage::Vertex),
        ),
{
    let replies = bootstrap_replies();
    let s = Session::initial();
    assert(s.after_first(replies, 0) == s);
    assert(s.after_first(replies, 1) == s.at(Step::HintContextVersion));
    assert(s.after_first(replies, 2) == s.at(Step::CreateWindow));
    assert(s.after_first(replies, 3) == s.at(Step::SetKeyPolling));
    assert(s.after_first(replies, 4) == s.at(Step::MakeContextCurrent));
    assert(s.after_first(replies, 5) == s.at(Step::LoadFunctions));
    assert(s.after_first(replies, 6) == s.at(Step::CreateShader(Stage::Vertex)));
}

/// The answers of a host whose driver names the new shader `shader` and
/// compiles it.
pub open spec fn compile_replies(shader: u32) -> Seq<Reply> {
    seq![Reply::Handle(shader), Reply::Done, Reply::Done, Reply::Value(TRUE)]
}

/// How a shader is built, call by call: it is created for its stage, given
/// its source text and compiled, and then the outcome is asked for.
pub open spec fn compile_script(stage: Stage, shader: u32) -> Seq<Command> {
    seq![
        Command::CreateShader { stage },
        Command::ShaderSource { shader, source: source_of(stage) },
        Command::CompileShader { shader },
        Command::GetCompileStatus { shader },
    ]
}

/// A session hands out the build of a shader call by call in its fixed
/// order, with the name that the driver gave. Once the driver reports the
/// shader as compiled, the session keeps that name and turns to what follows
/// the shader.
pub proof fn law_compile_runs_in_order(session: Session, stage: Stage, shader: u32)
    requires
        session.step == Step::CreateShader(stage),
    ensures
        forall|i: int|
            0 <= i < 4 ==> session.after_first(compile_replies(shader), i as nat).pending() == Some(
                #[trigger] compile_script(stage, shader)[i],
            ),
        session.after_first(compile_replies(shader), 4) == session.with_shader(stage, shader).at(
            step_after_build(Unit::Shader(stage)),
        ),
{
    let replies = compile_replies(shader);
    let s = session.with_shader(stage, shader);
    assert(session.after_first(replies, 0) == session);
    assert(session.after_first(replies, 1) == s.at(Step::ShaderSource(stage)));
    assert(session.after_first(replies, 2) == s.at(Step::CompileShader(stage)));
    assert(session.after_first(replies, 3) == s.at(Step::Status(Unit::Shader(stage))));
    assert(session.after_first(replies, 4) == s.at(step_after_build(Unit::Shader(stage))));
}

/// The answers of a host whose driver names the new program `program` and
/// links it.
pub open spec fn link_replies(program: u32) -> Seq<Reply> {
    seq![Reply::Handle(program), Reply::Done, Reply::Done, Reply::Done, Reply::Value(TRUE)]
}

/// How the program object is built, call by call: it is created, the vertex
/// shader and the fragment shader are attached to it, it is linked, and then
/// the outcome is asked for.
pub open spec fn link_script(session: Session, program: u32) -> Seq<Command> {
    seq![
        Command::CreateProgram,
        Command::AttachShader { program, shader: session.vertex_shader },
        Command::AttachShader { program, shader: session.fragment_shader },
        Command::LinkProgram { program },
        Command::GetLinkStatus { program },
    ]
}

/// A session hands out the build of the program call by call in its fixed
/// order, with the names that the driver gave. Once the driver reports the
/// program as linked, the session keeps its name and turns to the geometry.
pub proof fn law_link_runs_in_order(session: Session, program: u32)
    requires
        session.step == Step::CreateProgram,
    ensures
        forall|i: int|
            0 <= i < 5 ==> session.after_first(link_replies(program), i as nat).pending() == Some(
                #[trigger] link_script(session, program)[i],
            ),
        session.after_first(link_replies(program), 5) == (Session { program, ..session }).at(
            Step::GenVertexArray,
        ),
{
    let replies = link_replies(program);
    let s = Session { program, ..session };
    assert(session.after_first(replies, 0) == session);
    assert(session.after_first(replies, 1) == s.at(Step::AttachShader(Stage::Vertex)));
    assert(session.after_first(replies, 2) == s.at(Step::AttachShader(Stage::Fragment)));
    assert(session.after_first(replies, 3) == s.at(Step::LinkProgram));
    assert(session.after_first(replies, 4) == s.at(Step::Status(Unit::Program)));
    assert(session.after_first(replies, 5) == s.at(Step::GenVertexArray));
}

/// The answers of a host whose driver names the vertex array `array` and the
/// vertex buffer `buffer` and finds the position attribute at `location`.
pub open spec fn geometry_replies(array: u32, buffer: u32, location: i32) -> Seq<Reply> {
    seq![
        Reply::Handle(array),
        Reply::Done,
        Reply::Handle(buffer),
        Reply::Done,
        Reply::Done,
        Reply::Done,
        Reply::Done,
        Reply::Value(location),
        Reply::Done,
        Reply::Done,
        Reply::Done,
    ]
}

/// How the geometry is set up, call by call: a vertex array and a vertex
/// buffer are created and bound, the 24 bytes of the triangle are uploaded
/// for static use, the program is made current, its colour output is routed
/// to attachment 0, and its position attribute is looked up, switched on and
/// described as two floats per vertex, not normalized, tightly packed, from
/// the start of the buffer. The background colour is set last.
pub open spec fn geometry_script(session: Session, array: u32, buffer: u32, location: i32) -> Seq<
    Command,
> {
    seq![
        Command::GenVertexArray,
        Command::BindVertexArray { array },
        Command::GenBuffer,
        Command::BindArrayBuffer { buffer },
        Command::BufferData { size: 24, data: VERTEX_DATA, usage: Usage::StaticDraw },
        Command::UseProgram { program: session.program },
        Command::BindFragDataLocation { program: session.program, color: 0, name: COLOR_OUTPUT },
        Command::GetAttribLocation { program: session.program, name: POSITION_ATTRIBUTE },
        Command::EnableVertexAttribArray { index: attribute_index_of(location) },
        Command::VertexAttribPointer {
            index: attribute_index_of(location),
            components: 2,
            component_type: ComponentType::Float,
            normalized: false,
            stride: 0,
            offset: 0,
        },
        Command::ClearColor {
            red: CLEAR_RED,
            green: CLEAR_GREEN,
            blue: CLEAR_BLUE,
            alpha: CLEAR_ALPHA,
        },
    ]
}

/// A session hands out the geometry setup call by call in its fixed order,
/// with the names that the driver gave, and then stands at the check of the
/// render loop.
pub proof fn law_geometry_runs_in_order(session: Session, array: u32, buffer: u32, location: i32)
    requires
        session.step == Step::GenVertexArray,
    ensures
        forall|i: int|
            0 <= i < 11 ==> session.after_first(
                geometry_replies(array, buffer, location),
                i as nat,
            ).pending() == Some(#[trigger] geometry_script(session, array, buffer, location)[i]),
        session.after_first(geometry_replies(array, buffer, location), 11) == (Session {
            vertex_array: array,
            buffer,
            position: location,
            ..session
        }).at_loop_check(),
{
    let replies = geometry_replies(array, buffer, location);
    let s = Session { vertex_array: array, ..session };
    assert(session.after_first(replies, 0) == session);
    assert(session.after_first(replies, 1) == s.at(Step::BindVertexArray));
    assert(session.after_first(replies, 2) == s.at(Step::GenBuffer));
    let s = Session { buffer, ..s };
    assert(session.after_first(replies, 3) == s.at(Step::BindArrayBuffer));
    assert(session.after_first(replies, 4) == s.at(Step::BufferData));
    assert(session.after_first(replies, 5) == s.at(Step::UseProgram));
    assert(session.after_first(replies, 6) == s.at(Step::BindFragDataLocation));
    assert(session.after_first(replies, 7) == s.at(Step::GetAttribLocation));
    let s = Session { position: location, ..s };
    assert(session.after_first(replies, 8) == s.at(Step::EnableVertexAttribArray));
    assert(session.after_first(replies, 9) == s.at(Step::VertexAttribPointer));
    assert(session.after_first(replies, 10) == s.at(Step::ClearColor));
    assert(session.after_first(replies, 11) == s.at_loop_check());
}

/// The answers of a host to the five calls of the teardown.
pub open spec fn teardown_replies() -> Seq<Reply> {
    seq![Reply::Done, Reply::Done, Reply::Done, Reply::Done, Reply::Done]
}

/// What the program does after the render loop, call by call: it deletes
/// the program, the two shaders, the vertex buffer and the vertex array.
pub open spec fn teardown_script(session: Session) -> Seq<Command> {
    seq![
        Command::DeleteProgram { program: session.program },
        Command::DeleteShader { shader: session.fragment_shader },
        Command::DeleteShader { shader: session.vertex_shader },
        Command::DeleteBuffer { buffer: session.buffer },
        Command::DeleteVertexArray { array: session.vertex_array },
    ]
}

/// Once the render loop is left, the session hands out the teardown call by
/// call in its fixed order and is finished after it.
pub proof fn law_teardown_runs_in_order(session: Session)
    requires
        session.step == Step::DeleteProgram,
    ensures
        forall|i: int|
            0 <= i < 5 ==> session.after_first(teardown_replies(), i as nat).pending() == Some(
                #[trigger] teardown_script(session)[i],
            ),
        session.after_first(teardown_replies(), 5) == session.at(Step::Finished),
        session.at(Step::Finished).pending() is None,
{
    let replies = teardown_replies();
    assert(session.after_first(replies, 0) == session);
    assert(session.after_first(replies, 1) == session.at(Step::DeleteShader(Stage::Fragment)));
    assert(session.after_first(replies, 2) == session.at(Step::DeleteShader(Stage::Vertex)));
    assert(session.after_first(replies, 3) == session.at(Step::DeleteBuffer));
    assert(session.after_first(replies, 4) == session.at(Step::DeleteVertexArray));
    assert(session.after_first(replies, 5) == session.at(Step::Finished));
}

} // verus!
