//! What is shown, and where: the window, the two shaders, the triangle and
//! the background. All of it is fixed.
//!
//! Floating-point values are written as IEEE 754 single-precision bit
//! patterns.

use crate::command::Stage;
use vstd::prelude::*;

verus! {

/// The graphics context version asked for.
pub const CONTEXT_VERSION_MAJOR: u32 = 3;

pub const CONTEXT_VERSION_MINOR: u32 = 1;

/// Width of the window, in pixels.
pub const WINDOW_WIDTH: u32 = 800;

/// Height of the window, in pixels.
pub const WINDOW_HEIGHT: u32 = 600;

pub const WINDOW_TITLE: &'static str = "Hello World";

/// The vertex shader: passes the two-component position through.
pub const VERTEX_SOURCE: &'static str =
    "\n#version 150\nin vec2 position;\nvoid main() {\n\tgl_Position = vec4(position, 0.0, 1.0);\n}";

/// The fragment shader: paints every fragment white.
pub const FRAGMENT_SOURCE: &'static str =
    "\n#version 150\nout vec4 out_color;\nvoid main() {\n\tout_color = vec4(1.0, 1.0, 1.0, 1.0);\n}";

/// Name of the vertex shader's position input.
pub const POSITION_ATTRIBUTE: &'static str = "position";

/// Name of the fragment shader's only output.
pub const COLOR_OUTPUT: &'static str = "out_color";

/// The colour attachment that the fragment shader's output is routed to.
pub const COLOR_ATTACHMENT: u32 = 0;

/// Number of vertices of the triangle.
pub const VERTEX_COUNT: usize = 3;

/// Number of components of each vertex position.
pub const COMPONENTS_PER_VERTEX: usize = 2;

/// Size of one component in bytes.
pub const COMPONENT_SIZE: usize = 4;

/// The triangle in normalized device coordinates, vertex by vertex, with `x`
/// before `y`: (0.0, 0.5), (0.5, -0.5), (-0.5, -0.5).
pub const VERTEX_DATA: [u32; 6] = [
    0x0000_0000,
    0x3F00_0000,
    0x3F00_0000,
    0xBF00_0000,
    0xBF00_0000,
    0xBF00_0000,
];

/// The background: red, green and blue at 0.3, fully opaque.
pub const CLEAR_RED: u32 = 0x3E99_999A;

pub const CLEAR_GREEN: u32 = 0x3E99_999A;

pub const CLEAR_BLUE: u32 = 0x3E99_999A;

pub const CLEAR_ALPHA: u32 = 0x3F80_0000;

/// The source text of the shader for `stage`.
pub open spec fn source_of(stage: Stage) -> &'static str {
    match stage {
        Stage::Vertex => VERTEX_SOURCE,
        Stage::Fragment => FRAGMENT_SOURCE,
    }
}

/// The source text of the shader for `stage`.
pub fn source(stage: Stage) -> (text: &'static str)
    ensures
        text == source_of(stage),
{
    match stage {
        Stage::Vertex => VERTEX_SOURCE,
        Stage::Fragment => FRAGMENT_SOURCE,
    }
}

/// Size in bytes of a vertex buffer that holds `components` components.
pub open spec fn byte_size_of(components: int) -> int {
    components * COMPONENT_SIZE
}

/// Size in bytes of the triangle's vertex data.
pub fn vertex_data_size() -> (size: isize)
    ensures
        size == byte_size_of(VERTEX_DATA@.len() as int),
        size == VERTEX_COUNT * COMPONENTS_PER_VERTEX * COMPONENT_SIZE,
        size == 24,
{
    (VERTEX_DATA.len() * COMPONENT_SIZE) as isize
}

/// The vertex data is one triangle and nothing else: three vertices of two
/// components each, four bytes to the component, 24 bytes in all, with the
/// bit patterns of (0.0, 0.5), (0.5, -0.5) and (-0.5, -0.5) in this order.
pub proof fn law_vertex_data_is_one_triangle()
    ensures
        VERTEX_DATA@.len() == VERTEX_COUNT * COMPONENTS_PER_VERTEX,
        byte_size_of(VERTEX_DATA@.len() as int) == 24,
        VERTEX_DATA@ =~= seq![
            0x0000_0000u32,
            0x3F00_0000u32,
            0x3F00_0000u32,
            0xBF00_0000u32,
            0xBF00_0000u32,
            0xBF00_0000u32,
        ],
{
}

/// The index under which an attribute is addressed, given the location that
/// the lookup returned: the location reinterpreted as an unsigned number, so
/// that the "not found" location -1 becomes the largest index.
pub open spec fn attribute_index_of(location: i32) -> u32 {
    if location >= 0 {
        location as u32
    } else {
        (location + 0x1_0000_0000) as u32
    }
}

/// The index under which an attribute is addressed, given the location that
/// the lookup returned.
pub fn attribute_index(location: i32) -> (index: u32)
    ensures
        index == attribute_index_of(location),
{
    if location >= 0 {
        location as u32
    } else {
        (location as i64 + 0x1_0000_0000) as u32
    }
}

} // verus!
