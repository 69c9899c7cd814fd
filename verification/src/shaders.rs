//! The fixed shader sources and vertex data for both passes.
//!
//! Every value here is a constant of the demo: the functions return the
//! exact text or coordinates their contracts state, so any accidental edit
//! is caught by the verifier and by the regression tests.

use crate::commands::{PassKind, TriangleUniform};
use vstd::prelude::*;

verus! {

/// Vertex coordinates are fixed-point: a stored value of `COORD_SCALE`
/// stands for 1.0 in clip space. The host divides before upload.
pub const COORD_SCALE: i32 = 1000;

/// The triangle pass's vertex shader source.
pub open spec fn spec_triangle_vertex_shader() -> Seq<char> {
    "attribute vec3 position;\nvoid main() {\n    gl_Position = vec4(position, float(1));\n}\n"@
}

/// The triangle pass's fragment shader source when the uniform is the
/// elapsed time: a color that oscillates with it.
pub open spec fn spec_triangle_time_fragment_shader() -> Seq<char> {
    "precision mediump float;\nuniform float u_time;\nvoid main() {\n    float s = (sin(u_time / float(1000)) + float(1)) / float(2);\n    gl_FragColor = vec4(s, s, float(1) - s, float(1));\n}\n"@
}

/// The triangle pass's fragment shader source when the uniform is a color
/// fixed at start.
pub open spec fn spec_triangle_color_fragment_shader() -> Seq<char> {
    "precision mediump float;\nuniform vec3 u_color;\nvoid main() {\n    gl_FragColor = vec4(u_color, float(1));\n}\n"@
}

/// The buffer-copy pass's vertex shader source: a pass-through quad that
/// also hands the fragment stage a texture coordinate.
pub open spec fn spec_buffer_copy_vertex_shader() -> Seq<char> {
    "attribute vec2 position;\nvarying vec2 v_uv;\nvoid main() {\n    v_uv = (position + vec2(1, 1)) / float(2);\n    gl_Position = vec4(position, float(0), float(1));\n}\n"@
}

/// The buffer-copy pass's fragment shader source: sample the input texture.
pub open spec fn spec_buffer_copy_fragment_shader() -> Seq<char> {
    "precision mediump float;\nvarying vec2 v_uv;\nuniform sampler2D u_tex;\nvoid main() {\n    gl_FragColor = texture2D(u_tex, v_uv);\n}\n"@
}

/// The vertex and fragment shader sources of the given pass, under the
/// configured triangle uniform.
pub open spec fn spec_shader_sources(pass: PassKind, uniform: TriangleUniform) -> (
    Seq<char>,
    Seq<char>,
) {
    match pass {
        PassKind::Triangle => (
            spec_triangle_vertex_shader(),
            match uniform {
                TriangleUniform::TimeVarying => spec_triangle_time_fragment_shader(),
                TriangleUniform::StaticColor { .. } => spec_triangle_color_fragment_shader(),
            },
        ),
        PassKind::BufferCopy => (
            spec_buffer_copy_vertex_shader(),
            spec_buffer_copy_fragment_shader(),
        ),
    }
}

/// The vertex and fragment shader sources of the given pass, under the
/// configured triangle uniform.
pub fn shader_sources(pass: PassKind, uniform: TriangleUniform) -> (r: (
    &'static str,
    &'static str,
))
    ensures
        r.0@ == spec_shader_sources(pass, uniform).0,
        r.1@ == spec_shader_sources(pass, uniform).1,
{
    match pass {
        PassKind::Triangle => (
            "attribute vec3 position;\nvoid main() {\n    gl_Position = vec4(position, float(1));\n}\n",
            match uniform {
                TriangleUniform::TimeVarying => "precision mediump float;\nuniform float u_time;\nvoid main() {\n    float s = (sin(u_time / float(1000)) + float(1)) / float(2);\n    gl_FragColor = vec4(s, s, float(1) - s, float(1));\n}\n",
                TriangleUniform::StaticColor { .. } => "precision mediump float;\nuniform vec3 u_color;\nvoid main() {\n    gl_FragColor = vec4(u_color, float(1));\n}\n",
            },
        ),
        PassKind::BufferCopy => (
            "attribute vec2 position;\nvarying vec2 v_uv;\nvoid main() {\n    v_uv = (position + vec2(1, 1)) / float(2);\n    gl_Position = vec4(position, float(0), float(1));\n}\n",
            "precision mediump float;\nvarying vec2 v_uv;\nuniform sampler2D u_tex;\nvoid main() {\n    gl_FragColor = texture2D(u_tex, v_uv);\n}\n",
        ),
    }
}

/// The triangle pass's vertex positions: three vertices, three components
/// each, in `COORD_SCALE` fixed point.
pub open spec fn spec_triangle_vertices() -> Seq<i32> {
    seq![-700i32, -700i32, 0i32, 700i32, -700i32, 0i32, 0i32, 700i32, 0i32]
}

/// The triangle pass's vertex positions.
pub fn triangle_vertices() -> (v: Vec<i32>)
    ensures
        v@ == spec_triangle_vertices(),
{
    let v: Vec<i32> = vec![-700, -700, 0, 700, -700, 0, 0, 700, 0];
    proof {
        assert(v@ =~= spec_triangle_vertices());
    }
    v
}

/// The buffer-copy pass's vertex positions: a full-screen quad as two
/// triangles, six vertices of two components each, in `COORD_SCALE`
/// fixed point.
pub open spec fn spec_quad_vertices() -> Seq<i32> {
    seq![
        -1000i32, 1000i32, -1000i32, -1000i32, 1000i32, -1000i32, 1000i32, -1000i32, 1000i32,
        1000i32, -1000i32, 1000i32,
    ]
}

/// The buffer-copy pass's vertex positions.
pub fn quad_vertices() -> (v: Vec<i32>)
    ensures
        v@ == spec_quad_vertices(),
{
    let v: Vec<i32> = vec![
        -1000, 1000, -1000, -1000, 1000, -1000, 1000, -1000, 1000, 1000, -1000, 1000,
    ];
    proof {
        assert(v@ =~= spec_quad_vertices());
    }
    v
}

} // verus!
