use quad_pipeline::error::{BufferKind, ObjectKind, RenderError};
use quad_pipeline::frame::{
    attribute_location_outcome, frame_plan, AttributePolicy, DepthCompare, GlCommand, MatrixKind,
    Topology,
};
use quad_pipeline::geometry::{buffer_outcome, quad_colors, quad_positions};
use quad_pipeline::shader::{
    compile_outcome, fragment_shader_source, link_outcome, vertex_shader_source,
};
use quad_pipeline::transform::{
    aspect_fraction, model_view_entries, perspective_entries, translation_entries, AspectMode,
    SceneConfig,
};

#[test]
fn compile_and_link_succeed_for_valid_pair() {
    // A context facing syntactically valid sources creates both objects and
    // reports success at every step; the build then yields a usable program.
    let vs = compile_outcome(Some("vs-handle"), true, None);
    assert_eq!(vs, Ok("vs-handle"));
    let fs = compile_outcome(Some("fs-handle"), true, None);
    assert_eq!(fs, Ok("fs-handle"));
    let program = link_outcome(Some("program-handle"), true, None);
    assert_eq!(program, Ok("program-handle"));
}

#[test]
fn compile_failure_carries_nonempty_diagnostic() {
    let r = compile_outcome(Some("handle"), false, Some(String::from("0:3: syntax error")));
    match r {
        Err(RenderError::ShaderCompile { log }) => {
            assert!(!log.is_empty());
            assert_eq!(log, "0:3: syntax error");
        }
        other => panic!("expected a compile error, got {:?}", other),
    }
}

#[test]
fn compile_failure_without_log_uses_nonempty_fallback() {
    let r = compile_outcome(Some("handle"), false, None);
    match r {
        Err(RenderError::ShaderCompile { log }) => {
            assert!(!log.is_empty());
            assert_eq!(log, "Unknown error creating shader");
        }
        other => panic!("expected a compile error, got {:?}", other),
    }
}

#[test]
fn link_failure_without_log_uses_nonempty_fallback() {
    let r = link_outcome::<&str>(Some("handle"), false, None);
    match r {
        Err(RenderError::ProgramLink { log }) => {
            assert!(!log.is_empty());
            assert_eq!(log, "Unknown error creating program object");
        }
        other => panic!("expected a link error, got {:?}", other),
    }
}

#[test]
fn creation_failures_name_the_object() {
    let shader = compile_outcome::<u32>(None, false, None);
    assert_eq!(shader, Err(RenderError::ObjectCreation { kind: ObjectKind::Shader }));
    let program = link_outcome::<u32>(None, true, None);
    assert_eq!(program, Err(RenderError::ObjectCreation { kind: ObjectKind::Program }));
}

#[test]
fn buffer_outcome_identifies_the_failed_buffer() {
    assert_eq!(buffer_outcome(Some(11u32), BufferKind::Position), Ok(11u32));
    assert_eq!(
        buffer_outcome::<u32>(None, BufferKind::Position),
        Err(RenderError::BufferAllocation { which: BufferKind::Position })
    );
    assert_eq!(
        buffer_outcome::<u32>(None, BufferKind::Color),
        Err(RenderError::BufferAllocation { which: BufferKind::Color })
    );
}

#[test]
fn error_messages_carry_diagnostics() {
    let e = RenderError::ShaderCompile { log: String::from("bad token") };
    assert_eq!(e.message(), "bad token");
    let e = RenderError::ObjectCreation { kind: ObjectKind::Shader };
    assert_eq!(e.message(), "Unable to create shader object");
    let e = RenderError::ObjectCreation { kind: ObjectKind::Program };
    assert_eq!(e.message(), "Unable to create program object");
    let e = RenderError::BufferAllocation { which: BufferKind::Position };
    assert_eq!(e.message(), "Error creating position buffer");
    let e = RenderError::BufferAllocation { which: BufferKind::Color };
    assert_eq!(e.message(), "Error creating color buffer");
    let e = RenderError::ProgramLink { log: String::from("link failed") };
    assert_eq!(e.message(), "link failed");
    assert_eq!(RenderError::AttributeNotFound.message(), "Attribute aVertexPosition not found");
}

#[test]
fn shader_sources_declare_the_pipeline_interface() {
    let vs = vertex_shader_source();
    assert!(vs.contains("attribute vec4 aVertexPosition;"));
    assert!(vs.contains("uniform mat4 uModelViewMatrix;"));
    assert!(vs.contains("uniform mat4 uProjectionMatrix;"));
    assert!(vs.contains("gl_Position = uProjectionMatrix * uModelViewMatrix * aVertexPosition;"));
    let fs = fragment_shader_source();
    assert!(fs.contains("gl_FragColor = vec4(1.0, 1.0, 1.0, 1.0);"));
}

#[test]
fn position_buffer_holds_exactly_eight_values_in_strip_order() {
    let positions = quad_positions();
    assert_eq!(positions.len(), 8);
    assert_eq!(positions, vec![-1, 1, 1, 1, -1, -1, 1, -1]);
    // One-for-one conversion to the upload type keeps the literal order.
    let uploaded: Vec<f32> = positions.iter().map(|&v| v as f32).collect();
    assert_eq!(uploaded, vec![-1.0, 1.0, 1.0, 1.0, -1.0, -1.0, 1.0, -1.0]);
}

#[test]
fn color_buffer_holds_exactly_sixteen_values_in_palette_order() {
    let colors = quad_colors();
    assert_eq!(colors.len(), 16);
    assert_eq!(colors, vec![1, 1, 1, 1, 1, 0, 0, 1, 0, 1, 0, 1, 0, 0, 1, 1]);
    let uploaded: Vec<f32> = colors.iter().map(|&v| v as f32).collect();
    assert_eq!(
        uploaded,
        vec![1.0, 1.0, 1.0, 1.0, 1.0, 0.0, 0.0, 1.0, 0.0, 1.0, 0.0, 1.0, 0.0, 0.0, 1.0, 1.0]
    );
}

#[test]
fn model_view_is_identity_with_translation_column() {
    let mv = model_view_entries();
    assert_eq!(mv, vec![1, 0, 0, 0, 0, 1, 0, 0, 0, 0, 1, 0, 0, 0, -6, 1]);
    // Column-major: the translation column (0, 0, -6, 1) is entries 12..16.
    assert_eq!(&mv[12..16], &[0, 0, -6, 1]);
}

#[test]
fn translation_entries_place_the_vector_in_the_last_column() {
    let t = translation_entries(7, -2, 9);
    assert_eq!(t, vec![1, 0, 0, 0, 0, 1, 0, 0, 0, 0, 1, 0, 7, -2, 9, 1]);
}

#[test]
fn projection_element_1_1_is_inverse_tangent_of_half_fov() {
    // 600×600 canvas, corrected aspect convention (width / height = 1),
    // fov 45°, near 0.1, far 100.0 — the reference configuration.
    let cfg = SceneConfig::default();
    assert_eq!(cfg.fov_y_degrees, 45);
    let (num, den) = aspect_fraction(600, 600, cfg.aspect_mode);
    let aspect = num as f64 / den as f64;
    assert_eq!(aspect, 1.0);
    let fov = (cfg.fov_y_degrees as f64).to_radians();
    let near = cfg.z_near_milli as f64 / 1000.0;
    let far = cfg.z_far_milli as f64 / 1000.0;
    assert_eq!(near, 0.1);
    assert_eq!(far, 100.0);
    let f = 1.0 / (fov / 2.0).tan();
    let m = perspective_entries(
        0.0,
        f / aspect,
        f,
        (far + near) / (near - far),
        -1.0,
        2.0 * far * near / (near - far),
    );
    assert_eq!(m.len(), 16);
    // Column-major [1][1] is flat index 5: exactly 1/tan(fov/2).
    assert_eq!(m[5], 1.0 / (fov / 2.0).tan());
    assert_eq!(m[0], f / aspect);
    assert_eq!(m[11], -1.0);
    for (i, v) in m.iter().enumerate() {
        if ![0, 5, 10, 11, 14].contains(&i) {
            assert_eq!(*v, 0.0, "entry {} must be zero", i);
        }
    }
}

#[test]
fn default_config_matches_the_reference_scene() {
    let cfg = SceneConfig::default();
    assert_eq!(cfg.fov_y_degrees, 45);
    assert_eq!(cfg.z_near_milli, 100);
    assert_eq!(cfg.z_far_milli, 100_000);
    assert_eq!(cfg.aspect_mode, AspectMode::Corrected);
}

#[test]
fn frame_plan_issues_exactly_one_draw_call() {
    let plan = frame_plan(0, true, true);
    let draws: Vec<&GlCommand> = plan
        .iter()
        .filter(|c| matches!(c, GlCommand::DrawArrays { .. }))
        .collect();
    assert_eq!(draws.len(), 1);
    assert_eq!(
        *plan.last().unwrap(),
        GlCommand::DrawArrays { topology: Topology::TriangleStrip, first: 0, count: 4 }
    );
}

#[test]
fn frame_plan_orders_the_context_calls() {
    let plan = frame_plan(3, true, true);
    assert_eq!(
        plan,
        vec![
            GlCommand::SetClearColor { red: 0, green: 0, blue: 0, alpha: 1 },
            GlCommand::SetClearDepth { depth: 1 },
            GlCommand::EnableDepthTest,
            GlCommand::SetDepthFunc { compare: DepthCompare::LessOrEqual },
            GlCommand::ClearColorBuffer,
            GlCommand::ClearDepthBuffer,
            GlCommand::BindArrayBuffer { which: BufferKind::Position },
            GlCommand::SetAttribPointer {
                location: 3,
                components: 2,
                normalized: false,
                stride: 0,
                offset: 0,
            },
            GlCommand::EnableAttribArray { location: 3 },
            GlCommand::UseProgram,
            GlCommand::UploadMatrix { matrix: MatrixKind::Projection, transpose: false },
            GlCommand::UploadMatrix { matrix: MatrixKind::ModelView, transpose: false },
            GlCommand::DrawArrays { topology: Topology::TriangleStrip, first: 0, count: 4 },
        ]
    );
}

#[test]
fn absent_uniforms_skip_their_uploads_only() {
    let plan = frame_plan(0, false, true);
    assert!(!plan
        .iter()
        .any(|c| matches!(c, GlCommand::UploadMatrix { matrix: MatrixKind::Projection, .. })));
    assert!(plan
        .iter()
        .any(|c| matches!(c, GlCommand::UploadMatrix { matrix: MatrixKind::ModelView, .. })));
    assert!(matches!(plan.last(), Some(GlCommand::DrawArrays { .. })));
    let plan = frame_plan(0, false, false);
    assert!(!plan.iter().any(|c| matches!(c, GlCommand::UploadMatrix { .. })));
    assert!(matches!(plan.last(), Some(GlCommand::DrawArrays { .. })));
}

#[test]
fn attribute_lookup_policies() {
    assert_eq!(attribute_location_outcome(3, AttributePolicy::Tolerant), Ok(3));
    assert_eq!(attribute_location_outcome(3, AttributePolicy::Strict), Ok(3));
    // -1 is the unresolved-name sentinel: the tolerant policy keeps its
    // unchecked-cast value, the strict one fails the frame.
    assert_eq!(attribute_location_outcome(-1, AttributePolicy::Tolerant), Ok(u32::MAX));
    assert_eq!(
        attribute_location_outcome(-1, AttributePolicy::Strict),
        Err(RenderError::AttributeNotFound)
    );
}

#[test]
fn pipeline_runs_twice_bit_identically() {
    // Two full runs over identical inputs: every planned command and every
    // uploaded value must agree bit for bit.
    let vs_a = compile_outcome(Some(1u32), true, None);
    let vs_b = compile_outcome(Some(1u32), true, None);
    assert_eq!(vs_a, vs_b);
    let program_a = link_outcome(Some(2u32), true, None);
    let program_b = link_outcome(Some(2u32), true, None);
    assert_eq!(program_a, program_b);

    let positions_a: Vec<u32> = quad_positions().iter().map(|&v| (v as f32).to_bits()).collect();
    let positions_b: Vec<u32> = quad_positions().iter().map(|&v| (v as f32).to_bits()).collect();
    assert_eq!(positions_a, positions_b);

    let mv_a: Vec<u32> = model_view_entries().iter().map(|&v| (v as f32).to_bits()).collect();
    let mv_b: Vec<u32> = model_view_entries().iter().map(|&v| (v as f32).to_bits()).collect();
    assert_eq!(mv_a, mv_b);

    let (num, den) = aspect_fraction(600, 600, AspectMode::Corrected);
    let f = 1.0f32 / (45.0f32.to_radians() / 2.0).tan();
    let proj_a: Vec<u32> = perspective_entries(
        0.0f32,
        f / (num as f32 / den as f32),
        f,
        (100.0 + 0.1) / (0.1 - 100.0),
        -1.0,
        2.0 * 100.0 * 0.1 / (0.1 - 100.0),
    )
    .iter()
    .map(|v| v.to_bits())
    .collect();
    let (num2, den2) = aspect_fraction(600, 600, AspectMode::Corrected);
    let f2 = 1.0f32 / (45.0f32.to_radians() / 2.0).tan();
    let proj_b: Vec<u32> = perspective_entries(
        0.0f32,
        f2 / (num2 as f32 / den2 as f32),
        f2,
        (100.0 + 0.1) / (0.1 - 100.0),
        -1.0,
        2.0 * 100.0 * 0.1 / (0.1 - 100.0),
    )
    .iter()
    .map(|v| v.to_bits())
    .collect();
    assert_eq!(proj_a, proj_b);

    assert_eq!(frame_plan(0, true, true), frame_plan(0, true, true));
}

#[test]
fn zero_canvas_dimensions_stay_well_defined() {
    // (0, H) and (W, 0) must not make the fraction degenerate: every part
    // is clamped to at least 1, so the shell's division is never by zero.
    assert_eq!(aspect_fraction(0, 600, AspectMode::Corrected), (1, 600));
    assert_eq!(aspect_fraction(600, 0, AspectMode::Corrected), (600, 1));
    assert_eq!(aspect_fraction(0, 0, AspectMode::Corrected), (1, 1));
    assert_eq!(aspect_fraction(0, 600, AspectMode::Compat), (600, 1));
    assert_eq!(aspect_fraction(600, 0, AspectMode::Compat), (1, 1));
    assert_eq!(aspect_fraction(0, 0, AspectMode::Compat), (1, 1));
}

#[test]
fn aspect_modes_follow_their_formulas() {
    // Corrected: width / height as an exact fraction.
    assert_eq!(aspect_fraction(800, 600, AspectMode::Corrected), (800, 600));
    // Compat: height / width truncated by integer division first
    // (800×600 truncates to 0, then clamps to 1; the reference 600×600
    // canvas gives exactly 1 either way).
    assert_eq!(aspect_fraction(800, 600, AspectMode::Compat), (1, 1));
    assert_eq!(aspect_fraction(600, 600, AspectMode::Compat), (1, 1));
    assert_eq!(aspect_fraction(600, 1800, AspectMode::Compat), (3, 1));
}
