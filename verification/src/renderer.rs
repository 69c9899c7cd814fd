//! The renderer: plans the one-time setup sequence and the two-pass
//! per-frame draw sequence, and decides the outcome of shader compilation
//! and program linking from the driver's reported status.

use crate::commands::{
    is_draw_of, target_before, viewport_before, GlCommand, PassKind, Target, TriangleUniform,
};
use crate::shaders::{quad_vertices, triangle_vertices};
use vstd::prelude::*;

verus! {

/// Side length of the offscreen render target, in pixels.
pub const OFFSCREEN_SIZE: u32 = 64;

/// Side length of the visible surface's viewport, in pixels.
pub const CANVAS_SIZE: u32 = 512;

/// A fatal setup failure, in the taxonomy of the demo: a graphics object
/// could not be created, a shader did not compile, or a program did not
/// link. The two failed-outcome variants carry the driver's info log when
/// the driver produced one.
#[derive(Debug)]
pub enum InitError {
    ShaderUnavailable,
    ShaderCompileFailed { log: Option<String> },
    ProgramUnavailable,
    ProgramLinkFailed { log: Option<String> },
}

/// The message text of each failure, as the demo reports it.
pub open spec fn spec_message(e: InitError) -> Seq<char> {
    match e {
        InitError::ShaderUnavailable => "Unable to create shader object"@,
        InitError::ShaderCompileFailed { log } => match log {
            Some(s) => s@,
            None => "Unknown error creating shader"@,
        },
        InitError::ProgramUnavailable => "Unable to create shader object"@,
        InitError::ProgramLinkFailed { log } => match log {
            Some(s) => s@,
            None => "Unknown error creating program object"@,
        },
    }
}

impl InitError {
    /// The message text of this failure.
    pub fn message(&self) -> (r: String)
        ensures
            r@ == spec_message(*self),
    {
        match self {
            InitError::ShaderUnavailable => String::from_str("Unable to create shader object"),
            InitError::ShaderCompileFailed { log } => match log {
                Some(s) => s.clone(),
                None => String::from_str("Unknown error creating shader"),
            },
            InitError::ProgramUnavailable => String::from_str("Unable to create shader object"),
            InitError::ProgramLinkFailed { log } => match log {
                Some(s) => s.clone(),
                None => String::from_str("Unknown error creating program object"),
            },
        }
    }
}

/// Decide the outcome of compiling one shader, from what the driver
/// reported: whether a shader object could be created at all, the value of
/// the compile-status query, and the info log. Compilation succeeded
/// exactly when the object existed and the status read back true.
pub fn compile_shader(created: bool, compile_status: Option<bool>, info_log: Option<String>) -> (r:
    Result<(), InitError>)
    ensures
        !created ==> (r matches Err(InitError::ShaderUnavailable)),
        created && compile_status == Some(true) ==> (r matches Ok(())),
        created && compile_status != Some(true) ==> (r matches Err(InitError::ShaderCompileFailed {
            log,
        }) && log == info_log),
{
    if !created {
        Err(InitError::ShaderUnavailable)
    } else if compile_status == Some(true) {
        Ok(())
    } else {
        Err(InitError::ShaderCompileFailed { log: info_log })
    }
}

/// Decide the outcome of linking a program, from what the driver reported:
/// whether a program object could be created, the value of the link-status
/// query, and the info log. Linking succeeded exactly when the object
/// existed and the status read back true.
pub fn link_program(created: bool, link_status: Option<bool>, info_log: Option<String>) -> (r:
    Result<(), InitError>)
    ensures
        !created ==> (r matches Err(InitError::ProgramUnavailable)),
        created && link_status == Some(true) ==> (r matches Ok(())),
        created && link_status != Some(true) ==> (r matches Err(InitError::ProgramLinkFailed {
            log,
        }) && log == info_log),
{
    if !created {
        Err(InitError::ProgramUnavailable)
    } else if link_status == Some(true) {
        Ok(())
    } else {
        Err(InitError::ProgramLinkFailed { log: info_log })
    }
}

/// The triangle pass: draws `num_verts` vertices from its fixed buffer,
/// driving its fragment uniform as configured.
#[derive(Clone, Copy, Debug, PartialEq, Eq, Structural)]
pub struct TriangleRenderer {
    pub num_verts: u32,
    pub uniform: TriangleUniform,
}

/// The setup commands of the triangle pass: build its program, then
/// upload its vertex buffer.
pub open spec fn spec_triangle_setup_commands() -> Seq<GlCommand> {
    seq![
        GlCommand::BuildProgram(PassKind::Triangle),
        GlCommand::UploadVertexBuffer(PassKind::Triangle),
    ]
}

/// The single uniform the triangle pass sets each draw, as configured: the
/// elapsed time, or the fixed color.
pub open spec fn spec_triangle_uniform_command(uniform: TriangleUniform, t_millis: u64) -> GlCommand {
    match uniform {
        TriangleUniform::TimeVarying => GlCommand::SetTimeUniform { millis: t_millis },
        TriangleUniform::StaticColor { red, green, blue } => GlCommand::SetColorUniform {
            red,
            green,
            blue,
        },
    }
}

/// The draw commands of the triangle pass at time `t_millis`.
pub open spec fn spec_triangle_draw_commands(
    uniform: TriangleUniform,
    t_millis: u64,
    num_verts: u32,
) -> Seq<GlCommand> {
    seq![
        GlCommand::UseProgram(PassKind::Triangle),
        GlCommand::BindVertexBuffer(PassKind::Triangle),
        spec_triangle_uniform_command(uniform, t_millis),
        GlCommand::EnableVertexAttribute { index: 0 },
        GlCommand::SetVertexAttributePointer { index: 0, components: 3 },
        GlCommand::DrawTriangles { pass: PassKind::Triangle, vertex_count: num_verts },
    ]
}

impl TriangleRenderer {
    /// Plan the triangle pass's setup. The vertex count is taken from the
    /// fixed vertex data: three components per vertex.
    pub fn new(uniform: TriangleUniform) -> (r: (TriangleRenderer, Vec<GlCommand>))
        ensures
            r.0.num_verts == 3,
            r.0.uniform == uniform,
            r.1@ == spec_triangle_setup_commands(),
    {
        let verts = triangle_vertices();
        let num_verts: u32 = (verts.len() / 3) as u32;
        let mut cmds: Vec<GlCommand> = Vec::new();
        cmds.push(GlCommand::BuildProgram(PassKind::Triangle));
        cmds.push(GlCommand::UploadVertexBuffer(PassKind::Triangle));
        proof {
            assert(cmds@ =~= spec_triangle_setup_commands());
        }
        (TriangleRenderer { num_verts, uniform }, cmds)
    }

    /// Plan one draw of the triangle pass at time `t_millis`.
    pub fn draw_frame(&self, t_millis: u64) -> (cmds: Vec<GlCommand>)
        ensures
            cmds@ == spec_triangle_draw_commands(self.uniform, t_millis, self.num_verts),
    {
        let mut cmds: Vec<GlCommand> = Vec::new();
        cmds.push(GlCommand::UseProgram(PassKind::Triangle));
        cmds.push(GlCommand::BindVertexBuffer(PassKind::Triangle));
        match self.uniform {
            TriangleUniform::TimeVarying => {
                cmds.push(GlCommand::SetTimeUniform { millis: t_millis });
            }
            TriangleUniform::StaticColor { red, green, blue } => {
                cmds.push(GlCommand::SetColorUniform { red, green, blue });
            }
        }
        cmds.push(GlCommand::EnableVertexAttribute { index: 0 });
        cmds.push(GlCommand::SetVertexAttributePointer { index: 0, components: 3 });
        cmds.push(GlCommand::DrawTriangles { pass: PassKind::Triangle, vertex_count: self.num_verts });
        proof {
            assert(cmds@ =~= spec_triangle_draw_commands(self.uniform, t_millis, self.num_verts));
        }
        cmds
    }
}

/// The buffer-copy pass: blits an input texture over the bound target as a
/// full-screen quad of `num_verts` vertices.
#[derive(Clone, Copy, Debug, PartialEq, Eq, Structural)]
pub struct BufferRenderer {
    pub num_verts: u32,
}

/// The setup commands of the buffer-copy pass: build its program, then
/// upload its vertex buffer.
pub open spec fn spec_buffer_copy_setup_commands() -> Seq<GlCommand> {
    seq![
        GlCommand::BuildProgram(PassKind::BufferCopy),
        GlCommand::UploadVertexBuffer(PassKind::BufferCopy),
    ]
}

/// The draw commands of the buffer-copy pass: bind the offscreen texture
/// to unit zero, point the sampler at it, and draw the quad.
pub open spec fn spec_buffer_copy_draw_commands(num_verts: u32) -> Seq<GlCommand> {
    seq![
        GlCommand::UseProgram(PassKind::BufferCopy),
        GlCommand::SelectTextureUnit { unit: 0 },
        GlCommand::BindOffscreenTexture,
        GlCommand::SetSamplerUniform { unit: 0 },
        GlCommand::BindVertexBuffer(PassKind::BufferCopy),
        GlCommand::EnableVertexAttribute { index: 0 },
        GlCommand::SetVertexAttributePointer { index: 0, components: 2 },
        GlCommand::DrawTriangles { pass: PassKind::BufferCopy, vertex_count: num_verts },
    ]
}

impl BufferRenderer {
    /// Plan the buffer-copy pass's setup. The vertex count is taken from
    /// the fixed quad data: two components per vertex.
    pub fn new() -> (r: (BufferRenderer, Vec<GlCommand>))
        ensures
            r.0.num_verts == 6,
            r.1@ == spec_buffer_copy_setup_commands(),
    {
        let verts = quad_vertices();
        let num_verts: u32 = (verts.len() / 2) as u32;
        let mut cmds: Vec<GlCommand> = Vec::new();
        cmds.push(GlCommand::BuildProgram(PassKind::BufferCopy));
        cmds.push(GlCommand::UploadVertexBuffer(PassKind::BufferCopy));
        proof {
            assert(cmds@ =~= spec_buffer_copy_setup_commands());
        }
        (BufferRenderer { num_verts }, cmds)
    }

    /// Plan one draw of the buffer-copy pass.
    pub fn draw_frame(&self) -> (cmds: Vec<GlCommand>)
        ensures
            cmds@ == spec_buffer_copy_draw_commands(self.num_verts),
    {
        let mut cmds: Vec<GlCommand> = Vec::new();
        cmds.push(GlCommand::UseProgram(PassKind::BufferCopy));
        cmds.push(GlCommand::SelectTextureUnit { unit: 0 });
        cmds.push(GlCommand::BindOffscreenTexture);
        cmds.push(GlCommand::SetSamplerUniform { unit: 0 });
        cmds.push(GlCommand::BindVertexBuffer(PassKind::BufferCopy));
        cmds.push(GlCommand::EnableVertexAttribute { index: 0 });
        cmds.push(GlCommand::SetVertexAttributePointer { index: 0, components: 2 });
        cmds.push(GlCommand::DrawTriangles { pass: PassKind::BufferCopy, vertex_count: self.num_verts });
        proof {
            assert(cmds@ =~= spec_buffer_copy_draw_commands(self.num_verts));
        }
        cmds
    }
}

/// The renderer: owns both passes and sequences them over the offscreen
/// framebuffer and the visible surface.
#[derive(Clone, Copy, Debug, PartialEq, Eq, Structural)]
pub struct Renderer {
    pub triangle_renderer: TriangleRenderer,
    pub buffer_renderer: BufferRenderer,
}

impl Renderer {
    /// The renderer's internal invariant: both passes carry their fixed
    /// vertex counts.
    pub open spec fn wf(self) -> bool {
        self.triangle_renderer.num_verts == 3 && self.buffer_renderer.num_verts == 6
    }
}

/// The one-time setup commands: create the offscreen framebuffer and its
/// color texture, configure and attach the texture, set the fixed clear
/// color, then set up both passes.
pub open spec fn spec_setup_commands() -> Seq<GlCommand> {
    seq![
        GlCommand::CreateOffscreenFramebuffer,
        GlCommand::BindFramebuffer(Target::Offscreen),
        GlCommand::CreateOffscreenTexture,
        GlCommand::BindOffscreenTexture,
        GlCommand::AllocateOffscreenTexture { width: OFFSCREEN_SIZE, height: OFFSCREEN_SIZE },
        GlCommand::SetTextureMinFilterNearest,
        GlCommand::SetTextureMagFilterNearest,
        GlCommand::SetTextureWrapSClampToEdge,
        GlCommand::SetTextureWrapTClampToEdge,
        GlCommand::AttachOffscreenTexture,
        GlCommand::SetClearColor { red: 0, green: 0, blue: 0, alpha: 255 },
    ] + spec_triangle_setup_commands() + spec_buffer_copy_setup_commands()
}

/// The commands of one whole frame at time `t_millis`: render the triangle
/// into the offscreen target at a 64-by-64 viewport, then blit the
/// offscreen texture to the default target at the full viewport.
pub open spec fn spec_frame_commands(
    uniform: TriangleUniform,
    t_millis: u64,
    num_verts: u32,
) -> Seq<GlCommand> {
    seq![
        GlCommand::BindFramebuffer(Target::Offscreen),
        GlCommand::SetViewport { width: OFFSCREEN_SIZE, height: OFFSCREEN_SIZE },
        GlCommand::Clear,
    ] + spec_triangle_draw_commands(uniform, t_millis, num_verts) + seq![
        GlCommand::BindFramebuffer(Target::Default),
        GlCommand::SetViewport { width: CANVAS_SIZE, height: CANVAS_SIZE },
    ] + spec_buffer_copy_draw_commands(6)
}

impl Renderer {
    /// Plan the renderer's setup.
    pub fn new(uniform: TriangleUniform) -> (r: (Renderer, Vec<GlCommand>))
        ensures
            r.0.wf(),
            r.0.triangle_renderer.uniform == uniform,
            r.1@ == spec_setup_commands(),
    {
        let mut cmds: Vec<GlCommand> = Vec::new();
        cmds.push(GlCommand::CreateOffscreenFramebuffer);
        cmds.push(GlCommand::BindFramebuffer(Target::Offscreen));
        cmds.push(GlCommand::CreateOffscreenTexture);
        cmds.push(GlCommand::BindOffscreenTexture);
        cmds.push(GlCommand::AllocateOffscreenTexture {
            width: OFFSCREEN_SIZE,
            height: OFFSCREEN_SIZE,
        });
        cmds.push(GlCommand::SetTextureMinFilterNearest);
        cmds.push(GlCommand::SetTextureMagFilterNearest);
        cmds.push(GlCommand::SetTextureWrapSClampToEdge);
        cmds.push(GlCommand::SetTextureWrapTClampToEdge);
        cmds.push(GlCommand::AttachOffscreenTexture);
        cmds.push(GlCommand::SetClearColor { red: 0, green: 0, blue: 0, alpha: 255 });
        let (triangle_renderer, mut triangle_setup) = TriangleRenderer::new(uniform);
        cmds.append(&mut triangle_setup);
        let (buffer_renderer, mut buffer_setup) = BufferRenderer::new();
        cmds.append(&mut buffer_setup);
        proof {
            assert(cmds@ =~= spec_setup_commands());
        }
        (Renderer { triangle_renderer, buffer_renderer }, cmds)
    }

    /// Plan one frame at time `t_millis`.
    pub fn draw_frame(&self, t_millis: u64) -> (cmds: Vec<GlCommand>)
        requires
            self.wf(),
        ensures
            cmds@ == spec_frame_commands(
                self.triangle_renderer.uniform,
                t_millis,
                self.triangle_renderer.num_verts,
            ),
    {
        let mut cmds: Vec<GlCommand> = Vec::new();
        cmds.push(GlCommand::BindFramebuffer(Target::Offscreen));
        cmds.push(GlCommand::SetViewport { width: OFFSCREEN_SIZE, height: OFFSCREEN_SIZE });
        cmds.push(GlCommand::Clear);
        let mut triangle_cmds = self.triangle_renderer.draw_frame(t_millis);
        cmds.append(&mut triangle_cmds);
        cmds.push(GlCommand::BindFramebuffer(Target::Default));
        cmds.push(GlCommand::SetViewport { width: CANVAS_SIZE, height: CANVAS_SIZE });
        let mut blit_cmds = self.buffer_renderer.draw_frame();
        cmds.append(&mut blit_cmds);
        proof {
            assert(cmds@ =~= spec_frame_commands(
                self.triangle_renderer.uniform,
                t_millis,
                self.triangle_renderer.num_verts,
            ));
        }
        cmds
    }
}

/// Every frame draws in the order: clear, triangle draw, unbind of the
/// offscreen framebuffer, blit draw — and the offscreen texture is bound
/// for sampling between the unbind and the blit draw, so the blit always
/// samples the texture the same frame just wrote.
pub proof fn lemma_frame_pass_order(uniform: TriangleUniform, t_millis: u64, num_verts: u32)
    ensures
        ({
            let s = spec_frame_commands(uniform, t_millis, num_verts);
            exists|c: int, d1: int, u: int, b: int, d2: int|
                0 <= c && c < d1 && d1 < u && u < b && b < d2 && d2 < s.len() && s[c]
                    == GlCommand::Clear && is_draw_of(s[d1], PassKind::Triangle) && s[u]
                    == GlCommand::BindFramebuffer(Target::Default) && s[b]
                    == GlCommand::BindOffscreenTexture && is_draw_of(s[d2], PassKind::BufferCopy)
        }),
{
    let s = spec_frame_commands(uniform, t_millis, num_verts);
    assert(s[2] == GlCommand::Clear);
    assert(is_draw_of(s[8], PassKind::Triangle));
    assert(s[9] == GlCommand::BindFramebuffer(Target::Default));
    assert(s[13] == GlCommand::BindOffscreenTexture);
    assert(is_draw_of(s[18], PassKind::BufferCopy));
    assert(0 <= 2 && 2 < 8 && 8 < 9 && 9 < 13 && 13 < 18 && 18 < s.len());
}

/// Every frame issues exactly two draw calls — one per pass — and at each
/// the right state is in effect: the triangle pass draws into the
/// offscreen framebuffer under a 64-by-64 viewport, and the buffer-copy
/// pass draws onto the default surface under the full 512-by-512 viewport.
pub proof fn lemma_frame_viewports(uniform: TriangleUniform, t_millis: u64, num_verts: u32)
    ensures
        ({
            let s = spec_frame_commands(uniform, t_millis, num_verts);
            forall|i: int|
                0 <= i < s.len() && (is_draw_of(s[i], PassKind::Triangle) || is_draw_of(
                    s[i],
                    PassKind::BufferCopy,
                )) ==> i == 8 || i == 18
        }),
        ({
            let s = spec_frame_commands(uniform, t_millis, num_verts);
            is_draw_of(s[8], PassKind::Triangle) && viewport_before(s, 8) == Some(
                (OFFSCREEN_SIZE, OFFSCREEN_SIZE),
            ) && target_before(s, 8) == Some(Target::Offscreen)
        }),
        ({
            let s = spec_frame_commands(uniform, t_millis, num_verts);
            is_draw_of(s[18], PassKind::BufferCopy) && viewport_before(s, 18) == Some(
                (CANVAS_SIZE, CANVAS_SIZE),
            ) && target_before(s, 18) == Some(Target::Default)
        }),
{
    let s = spec_frame_commands(uniform, t_millis, num_verts);
    assert(s.len() == 19);
    assert forall|i: int|
        0 <= i < s.len() && (is_draw_of(s[i], PassKind::Triangle) || is_draw_of(
            s[i],
            PassKind::BufferCopy,
        )) implies i == 8 || i == 18 by {
        if i != 8 && i != 18 {
            assert(!(is_draw_of(s[i], PassKind::Triangle) || is_draw_of(
                s[i],
                PassKind::BufferCopy,
            )));
        }
    }
    reveal_with_fuel(viewport_before, 12);
    reveal_with_fuel(target_before, 12);
    assert(viewport_before(s, 8) == Some((OFFSCREEN_SIZE, OFFSCREEN_SIZE)));
    assert(target_before(s, 8) == Some(Target::Offscreen));
    assert(viewport_before(s, 18) == Some((CANVAS_SIZE, CANVAS_SIZE)));
    assert(target_before(s, 18) == Some(Target::Default));
}

} // verus!
