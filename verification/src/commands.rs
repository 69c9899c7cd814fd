//! The command vocabulary: everything the renderer asks the host's
//! graphics layer to do, as plain data.

use vstd::prelude::*;

verus! {

/// Which of the two shader programs / vertex buffers a command refers to.
#[derive(Clone, Copy, Debug, PartialEq, Eq, Structural)]
pub enum PassKind {
    /// The pass that draws the single triangle.
    Triangle,
    /// The pass that copies the offscreen texture onto the visible surface.
    BufferCopy,
}

/// A render target: the offscreen framebuffer, or the default (visible) surface.
#[derive(Clone, Copy, Debug, PartialEq, Eq, Structural)]
pub enum Target {
    Offscreen,
    Default,
}

/// How the triangle's fragment uniform is driven: by the elapsed time, or
/// by a color fixed when the demo starts. Both variants appear in the
/// demo's history, so the choice is a configuration, not a constant.
#[derive(Clone, Copy, Debug, PartialEq, Eq, Structural)]
pub enum TriangleUniform {
    TimeVarying,
    StaticColor { red: u8, green: u8, blue: u8 },
}

/// One instruction for the host's graphics layer.
///
/// The library plans setup and frames as sequences of these; the host
/// executes them in order against the real rendering context, keeping the
/// created objects (framebuffer, texture, programs, vertex buffers) in
/// slots named by the commands.
#[derive(Clone, Copy, Debug, PartialEq, Eq, Structural)]
pub enum GlCommand {
    /// Create the offscreen framebuffer object.
    CreateOffscreenFramebuffer,
    /// Create the offscreen color texture object.
    CreateOffscreenTexture,
    /// Bind a render target for subsequent drawing.
    BindFramebuffer(Target),
    /// Bind the offscreen texture to the active texture unit.
    BindOffscreenTexture,
    /// Allocate storage for the offscreen texture at the given size.
    AllocateOffscreenTexture { width: u32, height: u32 },
    /// Set the offscreen texture's minification filter to nearest.
    SetTextureMinFilterNearest,
    /// Set the offscreen texture's magnification filter to nearest.
    SetTextureMagFilterNearest,
    /// Clamp the offscreen texture's horizontal wrap mode to the edge.
    SetTextureWrapSClampToEdge,
    /// Clamp the offscreen texture's vertical wrap mode to the edge.
    SetTextureWrapTClampToEdge,
    /// Attach the offscreen texture as the framebuffer's color target.
    AttachOffscreenTexture,
    /// Set the clear color; channels are in 0..=255 (the host scales to 0..=1).
    SetClearColor { red: u8, green: u8, blue: u8, alpha: u8 },
    /// Compile and link the given pass's shader program.
    BuildProgram(PassKind),
    /// Create the given pass's vertex buffer and upload its fixed vertex data.
    UploadVertexBuffer(PassKind),
    /// Bind the given pass's vertex buffer for drawing.
    BindVertexBuffer(PassKind),
    /// Set the viewport to cover `width` by `height` pixels from the origin.
    SetViewport { width: u32, height: u32 },
    /// Clear the color buffer of the currently bound target.
    Clear,
    /// Select the given pass's program for drawing.
    UseProgram(PassKind),
    /// Make the given texture unit active.
    SelectTextureUnit { unit: u32 },
    /// Point the sampler uniform of the current program at a texture unit.
    SetSamplerUniform { unit: u32 },
    /// Set the current program's time uniform, in milliseconds.
    SetTimeUniform { millis: u64 },
    /// Set the current program's color uniform; channels are in 0..=255
    /// (the host scales to 0..=1).
    SetColorUniform { red: u8, green: u8, blue: u8 },
    /// Enable the vertex attribute at the given index.
    EnableVertexAttribute { index: u32 },
    /// Describe the attribute's layout: `components` floats per vertex.
    SetVertexAttributePointer { index: u32, components: u32 },
    /// Draw `vertex_count` vertices as triangles with the given pass's state.
    DrawTriangles { pass: PassKind, vertex_count: u32 },
}

/// Whether `c` is a draw call of pass `p`.
pub open spec fn is_draw_of(c: GlCommand, p: PassKind) -> bool {
    match c {
        GlCommand::DrawTriangles { pass, vertex_count: _ } => pass == p,
        _ => false,
    }
}

/// The viewport set by the most recent viewport command strictly before
/// index `i`, or `None` if no viewport was set up to there.
pub open spec fn viewport_before(s: Seq<GlCommand>, i: int) -> Option<(u32, u32)>
    decreases i,
{
    if i <= 0 {
        None
    } else {
        match s[i - 1] {
            GlCommand::SetViewport { width, height } => Some((width, height)),
            _ => viewport_before(s, i - 1),
        }
    }
}

/// The render target bound by the most recent bind command strictly before
/// index `i`, or `None` if no target was bound up to there.
pub open spec fn target_before(s: Seq<GlCommand>, i: int) -> Option<Target>
    decreases i,
{
    if i <= 0 {
        None
    } else {
        match s[i - 1] {
            GlCommand::BindFramebuffer(t) => Some(t),
            _ => target_before(s, i - 1),
        }
    }
}

} // verus!
