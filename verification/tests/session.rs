use hello_triangle::command::{
    Command, ComponentType, Primitive, Reply, Stage, Unit, Usage, WindowMode,
};
use hello_triangle::failure::Failure;
use hello_triangle::input::{Action, Key, KeyEvent};
use hello_triangle::render_loop::LoopState;
use hello_triangle::scene;
use hello_triangle::session::{after_status, loop_check, verdict, Session, Step, TRUE};

const VS: u32 = 11;
const FS: u32 = 12;
const PROGRAM: u32 = 13;
const VAO: u32 = 14;
const VBO: u32 = 15;
const POSITION: i32 = 4;

fn key(key: Key, action: Action) -> KeyEvent {
    KeyEvent { key, scancode: 0, action, modifiers: 0 }
}

/// A driver on which everything succeeds. Each poll delivers the next entry
/// of `polls`, and an escape press once they are used up.
fn answer(command: &Command, polls: &mut Vec<Vec<KeyEvent>>) -> Reply {
    match command {
        Command::CreateShader { stage: Stage::Vertex } => Reply::Handle(VS),
        Command::CreateShader { stage: Stage::Fragment } => Reply::Handle(FS),
        Command::CreateProgram => Reply::Handle(PROGRAM),
        Command::GenVertexArray => Reply::Handle(VAO),
        Command::GenBuffer => Reply::Handle(VBO),
        Command::GetCompileStatus { .. } | Command::GetLinkStatus { .. } => Reply::Value(TRUE),
        Command::GetAttribLocation { .. } => Reply::Value(POSITION),
        Command::PollEvents => {
            if polls.is_empty() {
                Reply::Events(vec![key(Key::Escape, Action::Press)])
            } else {
                Reply::Events(polls.remove(0))
            }
        }
        _ => Reply::Done,
    }
}

/// Runs a session to its end against `answer` and returns what it asked for.
fn run(mut polls: Vec<Vec<KeyEvent>>) -> (Session, Vec<Command>) {
    let mut session = Session::new();
    let mut trace = Vec::new();
    while let Some(command) = session.command() {
        assert!(trace.len() < 10_000);
        let reply = answer(&command, &mut polls);
        trace.push(command);
        session.advance(reply).unwrap();
    }
    (session, trace)
}

fn setup() -> Vec<Command> {
    vec![
        Command::InitWindowing,
        Command::HintContextVersion { major: 3, minor: 1 },
        Command::CreateWindow {
            width: 800,
            height: 600,
            title: "Hello World",
            mode: WindowMode::Windowed,
        },
        Command::SetKeyPolling { enabled: true },
        Command::MakeContextCurrent,
        Command::LoadFunctions,
        Command::CreateShader { stage: Stage::Vertex },
        Command::ShaderSource { shader: VS, source: scene::VERTEX_SOURCE },
        Command::CompileShader { shader: VS },
        Command::GetCompileStatus { shader: VS },
        Command::CreateShader { stage: Stage::Fragment },
        Command::ShaderSource { shader: FS, source: scene::FRAGMENT_SOURCE },
        Command::CompileShader { shader: FS },
        Command::GetCompileStatus { shader: FS },
        Command::CreateProgram,
        Command::AttachShader { program: PROGRAM, shader: VS },
        Command::AttachShader { program: PROGRAM, shader: FS },
        Command::LinkProgram { program: PROGRAM },
        Command::GetLinkStatus { program: PROGRAM },
        Command::GenVertexArray,
        Command::BindVertexArray { array: VAO },
        Command::GenBuffer,
        Command::BindArrayBuffer { buffer: VBO },
        Command::BufferData {
            size: 24,
            data: [0x00000000, 0x3F000000, 0x3F000000, 0xBF000000, 0xBF000000, 0xBF000000],
            usage: Usage::StaticDraw,
        },
        Command::UseProgram { program: PROGRAM },
        Command::BindFragDataLocation { program: PROGRAM, color: 0, name: "out_color" },
        Command::GetAttribLocation { program: PROGRAM, name: "position" },
        Command::EnableVertexAttribArray { index: 4 },
        Command::VertexAttribPointer {
            index: 4,
            components: 2,
            component_type: ComponentType::Float,
            normalized: false,
            stride: 0,
            offset: 0,
        },
        Command::ClearColor {
            red: 0.3f32.to_bits(),
            green: 0.3f32.to_bits(),
            blue: 0.3f32.to_bits(),
            alpha: 1.0f32.to_bits(),
        },
    ]
}

fn frame() -> Vec<Command> {
    vec![
        Command::PollEvents,
        Command::ClearColorBuffer,
        Command::DrawArrays { primitive: Primitive::Triangles, first: 0, count: 3 },
        Command::SwapBuffers,
    ]
}

fn teardown() -> Vec<Command> {
    vec![
        Command::DeleteProgram { program: PROGRAM },
        Command::DeleteShader { shader: FS },
        Command::DeleteShader { shader: VS },
        Command::DeleteBuffer { buffer: VBO },
        Command::DeleteVertexArray { array: VAO },
    ]
}

/// A session that stands at `step`, with the names of a driver on which
/// everything succeeded so far.
fn session_at(step: Step) -> Session {
    Session {
        step,
        vertex_shader: VS,
        fragment_shader: FS,
        program: PROGRAM,
        vertex_array: VAO,
        buffer: VBO,
        position: POSITION,
        loop_state: LoopState::Running,
    }
}

#[test]
fn new_session_starts_with_the_windowing_library() {
    let session = Session::new();
    assert_eq!(session.step, Step::InitWindowing);
    assert_eq!(session.loop_state, LoopState::Running);
    assert_eq!(session.command(), Some(Command::InitWindowing));
    assert!(!session.is_finished());
}

#[test]
fn run_that_closes_in_the_first_frame_issues_every_call_in_order() {
    let (session, trace) = run(vec![]);
    let mut expected = setup();
    expected.extend(frame());
    expected.extend(teardown());
    assert_eq!(trace, expected);
    assert!(session.is_finished());
    assert_eq!(session.command(), None);
}

#[test]
fn run_draws_one_triangle_per_frame_until_escape_is_pressed() {
    let polls = vec![
        vec![],
        vec![key(Key::Other(65), Action::Press), key(Key::Other(65), Action::Release)],
        vec![key(Key::Escape, Action::Release)],
        vec![key(Key::Escape, Action::Repeat)],
        vec![key(Key::Other(32), Action::Press), key(Key::Escape, Action::Press)],
        vec![],
        vec![],
    ];
    let (session, trace) = run(polls);
    let mut expected = setup();
    for _ in 0..5 {
        expected.extend(frame());
    }
    expected.extend(teardown());
    assert_eq!(trace, expected);
    assert!(session.is_finished());
    let draws = trace.iter().filter(|c| matches!(c, Command::DrawArrays { .. })).count();
    let polls = trace.iter().filter(|c| matches!(c, Command::PollEvents)).count();
    assert_eq!(draws, 5);
    assert_eq!(polls, 5);
}

#[test]
fn frame_in_which_escape_is_pressed_is_still_drawn() {
    let mut session = session_at(Step::PollEvents);
    session.advance(Reply::Events(vec![key(Key::Escape, Action::Press)])).unwrap();
    assert_eq!(session.loop_state, LoopState::Closing);
    assert_eq!(session.command(), Some(Command::ClearColorBuffer));
    session.advance(Reply::Done).unwrap();
    assert_eq!(
        session.command(),
        Some(Command::DrawArrays { primitive: Primitive::Triangles, first: 0, count: 3 })
    );
    session.advance(Reply::Done).unwrap();
    assert_eq!(session.command(), Some(Command::SwapBuffers));
    session.advance(Reply::Done).unwrap();
    assert_eq!(session.command(), Some(Command::DeleteProgram { program: PROGRAM }));
}

#[test]
fn quiet_frame_leads_back_to_the_poll() {
    let mut session = session_at(Step::PollEvents);
    session.advance(Reply::Events(vec![key(Key::Other(256), Action::Press)])).unwrap();
    session.advance(Reply::Done).unwrap();
    session.advance(Reply::Done).unwrap();
    session.advance(Reply::Done).unwrap();
    assert_eq!(session, session_at(Step::PollEvents));
}

#[test]
fn closing_loop_never_runs_again() {
    let mut session = session_at(Step::PollEvents);
    session.loop_state = LoopState::Closing;
    session.advance(Reply::Events(vec![])).unwrap();
    session.advance(Reply::Done).unwrap();
    session.advance(Reply::Done).unwrap();
    session.advance(Reply::Done).unwrap();
    assert_eq!(session.step, Step::DeleteProgram);
    assert_eq!(session.loop_state, LoopState::Closing);
}

#[test]
fn loop_check_goes_on_while_running_and_tears_down_when_closing() {
    assert_eq!(loop_check(LoopState::Running), Step::PollEvents);
    assert_eq!(loop_check(LoopState::Closing), Step::DeleteProgram);
}

#[test]
fn compiled_vertex_shader_is_followed_by_the_fragment_shader() {
    let mut session = session_at(Step::Status(Unit::Shader(Stage::Vertex)));
    assert_eq!(session.command(), Some(Command::GetCompileStatus { shader: VS }));
    assert_eq!(session.advance(Reply::Value(1)), Ok(()));
    assert_eq!(session.command(), Some(Command::CreateShader { stage: Stage::Fragment }));
    assert_eq!(session.vertex_shader, VS);
}

#[test]
fn compiled_fragment_shader_is_followed_by_the_program() {
    let mut session = session_at(Step::Status(Unit::Shader(Stage::Fragment)));
    assert_eq!(session.command(), Some(Command::GetCompileStatus { shader: FS }));
    assert_eq!(session.advance(Reply::Value(1)), Ok(()));
    assert_eq!(session.command(), Some(Command::CreateProgram));
}

#[test]
fn linked_program_is_followed_by_the_geometry() {
    let mut session = session_at(Step::Status(Unit::Program));
    assert_eq!(session.command(), Some(Command::GetLinkStatus { program: PROGRAM }));
    assert_eq!(session.advance(Reply::Value(1)), Ok(()));
    assert_eq!(session.command(), Some(Command::GenVertexArray));
    assert_eq!(session.program, PROGRAM);
}

#[test]
fn after_status_takes_only_true_for_success() {
    assert_eq!(TRUE, 1);
    assert_eq!(after_status(Unit::Shader(Stage::Vertex), 1), Step::CreateShader(Stage::Fragment));
    assert_eq!(after_status(Unit::Shader(Stage::Fragment), 1), Step::CreateProgram);
    assert_eq!(after_status(Unit::Program, 1), Step::GenVertexArray);
    for status in [0, 2, -1, i32::MAX, i32::MIN] {
        for unit in [Unit::Shader(Stage::Vertex), Unit::Shader(Stage::Fragment), Unit::Program] {
            assert_eq!(after_status(unit, status), Step::InfoLogLength(unit));
        }
    }
}

#[test]
fn rejected_vertex_shader_aborts_with_its_info_log() {
    let mut session = session_at(Step::Status(Unit::Shader(Stage::Vertex)));
    assert_eq!(session.advance(Reply::Value(0)), Ok(()));
    assert_eq!(session.command(), Some(Command::GetShaderInfoLogLength { shader: VS }));
    assert_eq!(session.advance(Reply::Value(25)), Ok(()));
    assert_eq!(
        session.command(),
        Some(Command::GetShaderInfoLog { shader: VS, buffer_size: 25, text_len: 24 })
    );
    let log = "0:5(1): error: syntax err";
    let result = session.advance(Reply::Bytes(log.as_bytes()[..24].to_vec()));
    let failure = result.unwrap_err();
    assert_eq!(
        failure,
        Failure::Rejected {
            unit: Unit::Shader(Stage::Vertex),
            log: "0:5(1): error: syntax er".to_string()
        }
    );
    assert_eq!(failure.message(), "0:5(1): error: syntax er");
    assert!(!failure.message().is_empty());
    assert_eq!(session.step, Step::Aborted);
    assert_eq!(session.command(), None);
    assert!(!session.is_finished());
}

#[test]
fn rejected_fragment_shader_aborts_with_its_info_log() {
    let mut session = session_at(Step::Status(Unit::Shader(Stage::Fragment)));
    assert_eq!(session.advance(Reply::Value(0)), Ok(()));
    assert_eq!(session.command(), Some(Command::GetShaderInfoLogLength { shader: FS }));
    assert_eq!(session.advance(Reply::Value(4)), Ok(()));
    assert_eq!(
        session.command(),
        Some(Command::GetShaderInfoLog { shader: FS, buffer_size: 4, text_len: 3 })
    );
    let failure = session.advance(Reply::Bytes(b"bad".to_vec())).unwrap_err();
    assert_eq!(
        failure,
        Failure::Rejected { unit: Unit::Shader(Stage::Fragment), log: "bad".to_string() }
    );
}

#[test]
fn rejected_program_aborts_with_its_info_log() {
    let mut session = session_at(Step::Status(Unit::Program));
    assert_eq!(session.advance(Reply::Value(0)), Ok(()));
    assert_eq!(session.command(), Some(Command::GetProgramInfoLogLength { program: PROGRAM }));
    assert_eq!(session.advance(Reply::Value(18)), Ok(()));
    assert_eq!(
        session.command(),
        Some(Command::GetProgramInfoLog { program: PROGRAM, buffer_size: 18, text_len: 17 })
    );
    let failure = session.advance(Reply::Bytes(b"missing out_color".to_vec())).unwrap_err();
    assert_eq!(
        failure,
        Failure::Rejected { unit: Unit::Program, log: "missing out_color".to_string() }
    );
    assert_eq!(failure.message(), "missing out_color");
    assert_eq!(session.step, Step::Aborted);
}

#[test]
fn info_log_is_decoded_as_utf8() {
    let bytes = vec![0x66, 0x65, 0x68, 0x6c, 0x65, 0x72, 0x3a, 0x20, 0xc3, 0xa9, 0xe2, 0x82, 0xac];
    let failure = verdict(Unit::Program, 13, bytes);
    assert_eq!(failure, Failure::Rejected { unit: Unit::Program, log: "fehler: é€".to_string() });
    assert_eq!(failure.message().chars().count(), 10);
}

#[test]
fn info_log_that_is_not_utf8_is_a_failure_of_its_own() {
    let failure = verdict(Unit::Shader(Stage::Vertex), 2, vec![0xff, 0xfe]);
    assert_eq!(failure, Failure::LogNotUtf8 { unit: Unit::Shader(Stage::Vertex) });
    assert_eq!(failure.message(), "ShaderInfoLog is not valid UTF-8");
    let failure = verdict(Unit::Shader(Stage::Fragment), 1, vec![0x80]);
    assert_eq!(failure.message(), "ShaderInfoLog is not valid UTF-8");
    let failure = verdict(Unit::Program, 3, vec![0xed, 0xa0, 0x80]);
    assert_eq!(failure, Failure::LogNotUtf8 { unit: Unit::Program });
    assert_eq!(failure.message(), "ProgramInfoLog is not valid UTF-8");
}

#[test]
fn info_log_of_length_one_is_empty_text() {
    let mut session = session_at(Step::InfoLogLength(Unit::Program));
    assert_eq!(session.advance(Reply::Value(1)), Ok(()));
    assert_eq!(
        session.command(),
        Some(Command::GetProgramInfoLog { program: PROGRAM, buffer_size: 1, text_len: 0 })
    );
    let failure = session.advance(Reply::Bytes(vec![])).unwrap_err();
    assert_eq!(failure, Failure::Rejected { unit: Unit::Program, log: String::new() });
    assert_eq!(failure.message(), "");
}

#[test]
fn info_log_padded_with_zero_bytes_is_kept_as_it_is() {
    let failure = verdict(Unit::Program, 4, vec![0x6f, 0x6b, 0, 0]);
    assert_eq!(failure, Failure::Rejected { unit: Unit::Program, log: "ok\0\0".to_string() });
}

#[test]
fn unit_without_info_log_is_rejected_with_the_empty_diagnostic() {
    for length in [0, -1, i32::MIN] {
        let mut session = session_at(Step::InfoLogLength(Unit::Shader(Stage::Fragment)));
        let failure = session.advance(Reply::Value(length)).unwrap_err();
        assert_eq!(
            failure,
            Failure::Rejected { unit: Unit::Shader(Stage::Fragment), log: String::new() }
        );
        assert_eq!(failure.message(), "");
        assert_eq!(session.step, Step::Aborted);
        assert_eq!(session.command(), None);
    }
    let mut session = session_at(Step::Status(Unit::Program));
    assert_eq!(session.advance(Reply::Value(0)), Ok(()));
    assert_eq!(session.command(), Some(Command::GetProgramInfoLogLength { program: PROGRAM }));
    let failure = session.advance(Reply::Value(0)).unwrap_err();
    assert_eq!(failure, Failure::Rejected { unit: Unit::Program, log: String::new() });
    assert_eq!(failure.message(), "");
    assert_eq!(session.step, Step::Aborted);
    assert_eq!(session.command(), None);
}

#[test]
fn upload_hands_over_the_triangle() {
    let session = session_at(Step::BufferData);
    let expected: [f32; 6] = [0.0, 0.5, 0.5, -0.5, -0.5, -0.5];
    match session.command() {
        Some(Command::BufferData { size, data, usage }) => {
            assert_eq!(size, 24);
            assert_eq!(usage, Usage::StaticDraw);
            assert_eq!(data, scene::VERTEX_DATA);
            assert_eq!(data.map(f32::from_bits), expected);
            let mut bytes = Vec::new();
            let mut wanted = Vec::new();
            for i in 0..6 {
                bytes.extend_from_slice(&f32::from_bits(data[i]).to_ne_bytes());
                wanted.extend_from_slice(&expected[i].to_ne_bytes());
            }
            assert_eq!(bytes, wanted);
            assert_eq!(bytes.len(), 24);
        }
        other => panic!("{:?}", other),
    }
}

#[test]
fn info_log_of_another_length_than_asked_for_is_unexpected() {
    assert_eq!(verdict(Unit::Program, 3, b"ab".to_vec()), Failure::UnexpectedReply);
    assert_eq!(verdict(Unit::Program, 3, b"abcd".to_vec()), Failure::UnexpectedReply);
    let mut session = session_at(Step::InfoLog {
        unit: Unit::Shader(Stage::Vertex),
        length: 4,
        text_len: 3,
    });
    assert_eq!(session.advance(Reply::Bytes(vec![])), Err(Failure::UnexpectedReply));
    assert_eq!(session.step, Step::Aborted);
}

#[test]
fn longest_info_log_fits() {
    let mut session = session_at(Step::InfoLogLength(Unit::Program));
    assert_eq!(session.advance(Reply::Value(i32::MAX)), Ok(()));
    assert_eq!(
        session.command(),
        Some(Command::GetProgramInfoLog {
            program: PROGRAM,
            buffer_size: i32::MAX,
            text_len: 2147483646
        })
    );
}

#[test]
fn failed_initialisation_aborts() {
    let mut session = Session::new();
    let failure = session.advance(Reply::Failed).unwrap_err();
    assert_eq!(failure, Failure::Init);
    assert_eq!(failure.message(), "Failed to initialize GLFW.");
    assert_eq!(session.step, Step::Aborted);
    assert_eq!(session.command(), None);
}

#[test]
fn failed_window_creation_aborts() {
    let mut session = Session::new();
    session.advance(Reply::Done).unwrap();
    session.advance(Reply::Done).unwrap();
    assert_eq!(
        session.command(),
        Some(Command::CreateWindow {
            width: 800,
            height: 600,
            title: "Hello World",
            mode: WindowMode::Windowed
        })
    );
    let failure = session.advance(Reply::Failed).unwrap_err();
    assert_eq!(failure, Failure::Window);
    assert_eq!(failure.message(), "Failed to create GLFW window.");
    assert_eq!(session.step, Step::Aborted);
}

#[test]
fn reply_of_the_wrong_kind_aborts_and_changes_nothing_else() {
    let mut session = session_at(Step::CreateProgram);
    let failure = session.advance(Reply::Done).unwrap_err();
    assert_eq!(failure, Failure::UnexpectedReply);
    assert_eq!(failure.message(), "Unexpected reply to the pending command");
    assert_eq!(session, session_at(Step::Aborted));
    let mut session = session_at(Step::UseProgram);
    assert_eq!(session.advance(Reply::Failed), Err(Failure::UnexpectedReply));
    let mut session = session_at(Step::PollEvents);
    assert_eq!(session.advance(Reply::Done), Err(Failure::UnexpectedReply));
    let mut session = session_at(Step::ClearColorBuffer);
    assert_eq!(session.advance(Reply::Events(vec![])), Err(Failure::UnexpectedReply));
}

#[test]
fn session_that_is_over_takes_no_reply() {
    let mut session = session_at(Step::Finished);
    assert!(session.is_finished());
    assert_eq!(session.command(), None);
    assert_eq!(session.advance(Reply::Done), Err(Failure::UnexpectedReply));
    assert_eq!(session.step, Step::Aborted);
    assert_eq!(session.advance(Reply::Done), Err(Failure::UnexpectedReply));
    assert_eq!(session.step, Step::Aborted);
}

#[test]
fn names_are_kept_as_the_driver_gave_them() {
    let mut session = Session::new();
    for _ in 0..6 {
        session.advance(Reply::Done).unwrap();
    }
    session.advance(Reply::Handle(u32::MAX)).unwrap();
    assert_eq!(session.shader_name(Stage::Vertex), u32::MAX);
    assert_eq!(session.shader_name(Stage::Fragment), 0);
    assert_eq!(
        session.command(),
        Some(Command::ShaderSource { shader: u32::MAX, source: scene::VERTEX_SOURCE })
    );
}

#[test]
fn attribute_that_was_not_found_is_addressed_by_the_largest_index() {
    let mut session = session_at(Step::GetAttribLocation);
    session.advance(Reply::Value(-1)).unwrap();
    assert_eq!(session.command(), Some(Command::EnableVertexAttribArray { index: u32::MAX }));
    session.advance(Reply::Done).unwrap();
    assert_eq!(
        session.command(),
        Some(Command::VertexAttribPointer {
            index: u32::MAX,
            components: 2,
            component_type: ComponentType::Float,
            normalized: false,
            stride: 0,
            offset: 0
        })
    );
}

#[test]
fn teardown_deletes_program_shaders_buffer_and_array() {
    let mut session = session_at(Step::DeleteProgram);
    let mut trace = Vec::new();
    while let Some(command) = session.command() {
        trace.push(command);
        session.advance(Reply::Done).unwrap();
    }
    assert_eq!(trace, teardown());
    assert!(session.is_finished());
}

#[test]
fn draw_call_is_only_ever_the_triangle() {
    let (_, trace) = run(vec![vec![], vec![], vec![]]);
    for command in trace {
        if let Command::DrawArrays { primitive, first, count } = command {
            assert_eq!(primitive, Primitive::Triangles);
            assert_eq!(first, 0);
            assert_eq!(count, 3);
        }
    }
}
