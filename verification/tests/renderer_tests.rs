use webgl_demo::commands::{GlCommand, PassKind, Target, TriangleUniform};
use webgl_demo::renderer::{
    compile_shader, link_program, BufferRenderer, InitError, Renderer, TriangleRenderer,
};
use webgl_demo::shaders::{quad_vertices, triangle_vertices};

#[test]
fn setup_commands_configure_the_offscreen_target_then_both_passes() {
    let (_renderer, setup) = Renderer::new(TriangleUniform::TimeVarying);
    assert_eq!(
        setup,
        vec![
            GlCommand::CreateOffscreenFramebuffer,
            GlCommand::BindFramebuffer(Target::Offscreen),
            GlCommand::CreateOffscreenTexture,
            GlCommand::BindOffscreenTexture,
            GlCommand::AllocateOffscreenTexture { width: 64, height: 64 },
            GlCommand::SetTextureMinFilterNearest,
            GlCommand::SetTextureMagFilterNearest,
            GlCommand::SetTextureWrapSClampToEdge,
            GlCommand::SetTextureWrapTClampToEdge,
            GlCommand::AttachOffscreenTexture,
            GlCommand::SetClearColor { red: 0, green: 0, blue: 0, alpha: 255 },
            GlCommand::BuildProgram(PassKind::Triangle),
            GlCommand::UploadVertexBuffer(PassKind::Triangle),
            GlCommand::BuildProgram(PassKind::BufferCopy),
            GlCommand::UploadVertexBuffer(PassKind::BufferCopy),
        ]
    );
}

#[test]
fn frame_orders_clear_triangle_unbind_blit() {
    let (renderer, _setup) = Renderer::new(TriangleUniform::TimeVarying);
    let cmds = renderer.draw_frame(0);
    let clear = cmds.iter().position(|c| *c == GlCommand::Clear).unwrap();
    let triangle_draw = cmds
        .iter()
        .position(|c| matches!(c, GlCommand::DrawTriangles { pass: PassKind::Triangle, .. }))
        .unwrap();
    let unbind = cmds
        .iter()
        .position(|c| *c == GlCommand::BindFramebuffer(Target::Default))
        .unwrap();
    let bind_tex_for_blit = cmds
        .iter()
        .rposition(|c| *c == GlCommand::BindOffscreenTexture)
        .unwrap();
    let blit_draw = cmds
        .iter()
        .position(|c| matches!(c, GlCommand::DrawTriangles { pass: PassKind::BufferCopy, .. }))
        .unwrap();
    assert!(clear < triangle_draw);
    assert!(triangle_draw < unbind);
    assert!(unbind < bind_tex_for_blit);
    assert!(bind_tex_for_blit < blit_draw);
}

#[test]
fn frame_viewports_are_64_offscreen_and_512_on_screen() {
    let (renderer, _setup) = Renderer::new(TriangleUniform::TimeVarying);
    let cmds = renderer.draw_frame(123);
    let mut viewport = None;
    for c in &cmds {
        match c {
            GlCommand::SetViewport { width, height } => viewport = Some((*width, *height)),
            GlCommand::DrawTriangles { pass: PassKind::Triangle, .. } => {
                assert_eq!(viewport, Some((64, 64)));
            }
            GlCommand::DrawTriangles { pass: PassKind::BufferCopy, .. } => {
                assert_eq!(viewport, Some((512, 512)));
            }
            _ => {}
        }
    }
}

#[test]
fn frame_issues_exactly_two_draw_calls() {
    let (renderer, _setup) = Renderer::new(TriangleUniform::TimeVarying);
    let cmds = renderer.draw_frame(5);
    let draws: Vec<_> = cmds
        .iter()
        .filter(|c| matches!(c, GlCommand::DrawTriangles { .. }))
        .collect();
    assert_eq!(draws.len(), 2);
    assert_eq!(
        *draws[0],
        GlCommand::DrawTriangles { pass: PassKind::Triangle, vertex_count: 3 }
    );
    assert_eq!(
        *draws[1],
        GlCommand::DrawTriangles { pass: PassKind::BufferCopy, vertex_count: 6 }
    );
}

#[test]
fn triangle_pass_counts_three_vertices() {
    let (pass, setup) = TriangleRenderer::new(TriangleUniform::TimeVarying);
    assert_eq!(pass.num_verts, 3);
    assert_eq!(
        setup,
        vec![
            GlCommand::BuildProgram(PassKind::Triangle),
            GlCommand::UploadVertexBuffer(PassKind::Triangle),
        ]
    );
}

#[test]
fn buffer_copy_pass_counts_six_vertices() {
    let (pass, setup) = BufferRenderer::new();
    assert_eq!(pass.num_verts, 6);
    assert_eq!(
        setup,
        vec![
            GlCommand::BuildProgram(PassKind::BufferCopy),
            GlCommand::UploadVertexBuffer(PassKind::BufferCopy),
        ]
    );
}

#[test]
fn static_color_mode_sets_the_color_uniform_instead_of_time() {
    let color = TriangleUniform::StaticColor { red: 10, green: 20, blue: 30 };
    let (renderer, _setup) = Renderer::new(color);
    let cmds = renderer.draw_frame(999);
    assert_eq!(cmds[5], GlCommand::SetColorUniform { red: 10, green: 20, blue: 30 });
    assert!(!cmds.iter().any(|c| matches!(c, GlCommand::SetTimeUniform { .. })));
}

#[test]
fn vertex_data_matches_the_fixed_geometry() {
    assert_eq!(triangle_vertices(), vec![-700, -700, 0, 700, -700, 0, 0, 700, 0]);
    assert_eq!(
        quad_vertices(),
        vec![-1000, 1000, -1000, -1000, 1000, -1000, 1000, -1000, 1000, 1000, -1000, 1000]
    );
}

#[test]
fn compile_succeeds_only_on_a_true_status() {
    assert!(compile_shader(true, Some(true), None).is_ok());
    assert!(compile_shader(true, Some(false), None).is_err());
    assert!(compile_shader(true, None, None).is_err());
    assert!(compile_shader(false, Some(true), None).is_err());
}

#[test]
fn compile_failure_without_a_shader_object_names_it() {
    let e = compile_shader(false, None, None).unwrap_err();
    assert!(matches!(e, InitError::ShaderUnavailable));
    assert_eq!(e.message(), "Unable to create shader object");
}

#[test]
fn compile_failure_reports_the_driver_log() {
    let e = compile_shader(true, Some(false), Some("bad token".to_string())).unwrap_err();
    assert!(matches!(e, InitError::ShaderCompileFailed { .. }));
    assert_eq!(e.message(), "bad token");
}

#[test]
fn compile_failure_without_a_log_reports_the_fallback() {
    let e = compile_shader(true, Some(false), None).unwrap_err();
    assert_eq!(e.message(), "Unknown error creating shader");
}

#[test]
fn link_succeeds_only_on_a_true_status() {
    assert!(link_program(true, Some(true), None).is_ok());
    assert!(link_program(true, Some(false), None).is_err());
    assert!(link_program(true, None, None).is_err());
    assert!(link_program(false, Some(true), None).is_err());
}

#[test]
fn link_failure_without_a_program_object_names_it() {
    let e = link_program(false, None, None).unwrap_err();
    assert!(matches!(e, InitError::ProgramUnavailable));
    assert_eq!(e.message(), "Unable to create shader object");
}

#[test]
fn link_failure_reports_the_driver_log() {
    let e = link_program(true, Some(false), Some("mismatched varying".to_string())).unwrap_err();
    assert!(matches!(e, InitError::ProgramLinkFailed { .. }));
    assert_eq!(e.message(), "mismatched varying");
}

#[test]
fn link_failure_without_a_log_reports_the_fallback() {
    let e = link_program(true, None, None).unwrap_err();
    assert_eq!(e.message(), "Unknown error creating program object");
}
