//! The vocabulary between a session and its host: what the host is asked to
//! do, and what it reports back.
//!
//! Every command stands for one call into the windowing library or the
//! graphics driver and carries that call's arguments as plain values.
//! Floating-point arguments travel as IEEE 754 single-precision bit patterns.

use crate::input::KeyEvent;
use vstd::prelude::*;

verus! {

/// The pipeline stage a shader is written for.
#[derive(Clone, Copy, Debug, PartialEq, Eq, Structural)]
pub enum Stage {
    Vertex,
    Fragment,
}

/// Something the driver builds and may reject: a shader, which it compiles, or
/// the program, which it links.
#[derive(Clone, Copy, Debug, PartialEq, Eq, Structural)]
pub enum Unit {
    Shader(Stage),
    Program,
}

/// How a window is placed on the screen.
#[derive(Clone, Copy, Debug, PartialEq, Eq, Structural)]
pub enum WindowMode {
    Windowed,
    Fullscreen,
}

/// How the vertices of a draw call are assembled into primitives.
#[derive(Clone, Copy, Debug, PartialEq, Eq, Structural)]
pub enum Primitive {
    Points,
    Lines,
    /// Every three consecutive vertices form one triangle.
    Triangles,
}

/// The type of the components of a vertex attribute.
#[derive(Clone, Copy, Debug, PartialEq, Eq, Structural)]
pub enum ComponentType {
    /// Single-precision floating point.
    Float,
    /// Signed 32-bit integer.
    Int,
}

/// How often the contents of a buffer are expected to change.
#[derive(Clone, Copy, Debug, PartialEq, Eq, Structural)]
pub enum Usage {
    /// Written once, drawn many times.
    StaticDraw,
    /// Changed now and then, drawn many times.
    DynamicDraw,
}

/// One call that the host makes on behalf of the session.
#[derive(Clone, Copy, Debug, PartialEq, Eq)]
pub enum Command {
    /// Initialise the windowing library. Answered by `Done` or `Failed`.
    InitWindowing,
    /// Ask for a graphics context of at least this version.
    HintContextVersion { major: u32, minor: u32 },
    /// Open the window together with its event queue. Answered by `Done` or
    /// `Failed`.
    CreateWindow { width: u32, height: u32, title: &'static str, mode: WindowMode },
    /// Switch the delivery of key events on or off.
    SetKeyPolling { enabled: bool },
    /// Make the window's context current on the calling thread.
    MakeContextCurrent,
    /// Resolve the driver's entry points against the current context.
    LoadFunctions,
    /// Create an empty shader object. Answered by its `Handle`.
    CreateShader { stage: Stage },
    /// Replace the source text of a shader.
    ShaderSource { shader: u32, source: &'static str },
    /// Compile a shader from its source text.
    CompileShader { shader: u32 },
    /// Ask whether the last compilation succeeded. Answered by a `Value`.
    GetCompileStatus { shader: u32 },
    /// Ask for the length of a shader's info log, terminator included.
    /// Answered by a `Value`.
    GetShaderInfoLogLength { shader: u32 },
    /// Fetch a shader's info log into a buffer of `buffer_size` bytes.
    /// Answered by the first `text_len` `Bytes` of that buffer.
    GetShaderInfoLog { shader: u32, buffer_size: i32, text_len: usize },
    /// Create an empty program object. Answered by its `Handle`.
    CreateProgram,
    /// Attach a shader to a program.
    AttachShader { program: u32, shader: u32 },
    /// Link the shaders attached to a program.
    LinkProgram { program: u32 },
    /// Ask whether the last link succeeded. Answered by a `Value`.
    GetLinkStatus { program: u32 },
    /// Ask for the length of a program's info log, terminator included.
    /// Answered by a `Value`.
    GetProgramInfoLogLength { program: u32 },
    /// Fetch a program's info log into a buffer of `buffer_size` bytes.
    /// Answered by the first `text_len` `Bytes` of that buffer.
    GetProgramInfoLog { program: u32, buffer_size: i32, text_len: usize },
    /// Create one vertex array object. Answered by its `Handle`.
    GenVertexArray,
    /// Make a vertex array object current.
    BindVertexArray { array: u32 },
    /// Create one buffer object. Answered by its `Handle`.
    GenBuffer,
    /// Bind a buffer object as the current vertex buffer.
    BindArrayBuffer { buffer: u32 },
    /// Fill the current vertex buffer with `data`, six single-precision
    /// floats, which take `size` bytes in all.
    BufferData { size: isize, data: [u32; 6], usage: Usage },
    /// Make a program the one that draw calls run.
    UseProgram { program: u32 },
    /// Route a fragment shader output to a colour attachment.
    BindFragDataLocation { program: u32, color: u32, name: &'static str },
    /// Look a vertex attribute up by name. Answered by a `Value`.
    GetAttribLocation { program: u32, name: &'static str },
    /// Switch a vertex attribute on.
    EnableVertexAttribArray { index: u32 },
    /// Describe how a vertex attribute is laid out in the current vertex
    /// buffer: `components` values of type `component_type` per vertex,
    /// `stride` bytes from one vertex to the next (zero for tightly packed),
    /// starting `offset` bytes into the buffer.
    VertexAttribPointer {
        index: u32,
        components: i32,
        component_type: ComponentType,
        normalized: bool,
        stride: i32,
        offset: usize,
    },
    /// Set the colour that `ClearColorBuffer` fills the frame with.
    ClearColor { red: u32, green: u32, blue: u32, alpha: u32 },
    /// Process the events that are pending, without waiting, and drain the
    /// window's event queue. Answered by the key `Events`, oldest first.
    PollEvents,
    /// Fill the colour buffer with the clear colour.
    ClearColorBuffer,
    /// Draw `count` consecutive vertices of the current vertex array,
    /// starting at `first`.
    DrawArrays { primitive: Primitive, first: i32, count: i32 },
    /// Present the frame.
    SwapBuffers,
    /// Delete a program object.
    DeleteProgram { program: u32 },
    /// Delete a shader object.
    DeleteShader { shader: u32 },
    /// Delete a buffer object.
    DeleteBuffer { buffer: u32 },
    /// Delete a vertex array object.
    DeleteVertexArray { array: u32 },
}

/// What the host reports after performing a command.
#[derive(Debug, PartialEq, Eq)]
pub enum Reply {
    /// The call was made; it returns nothing.
    Done,
    /// The call reported that it failed.
    Failed,
    /// The name of the object that the driver created.
    Handle(u32),
    /// The integer that the driver returned.
    Value(i32),
    /// The text bytes of an info log, without its terminator.
    Bytes(Vec<u8>),
    /// The key events that were pending, oldest first.
    Events(Vec<KeyEvent>),
}

} // verus!
