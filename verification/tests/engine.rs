//! Tests of the engine's verified core: error reporting, mesh bookkeeping,
//! the uniform cache, projection resize and the animation clock rule.

use template_engine::animation::{model_rotation, SPIN_X_URAD_PER_MS, SPIN_Y_URAD_PER_MS};
use template_engine::errors::{ShaderStage, TemplateError};
use template_engine::mesh::{Mesh, FLOATS_PER_VERTEX, VERTEX_STRIDE_BYTES};
use template_engine::projection::{
    Projection, FAR_PLANE_THOUSANDTHS, FOV_Y_DEGREES, NEAR_PLANE_THOUSANDTHS,
};
use template_engine::shader::{compile_outcome, link_outcome, Shader};
use template_engine::GlContextBuilder;

#[test]
fn vertex_count_of_cube_array() {
    // The demo cube: 36 vertices of 6 floats each.
    assert_eq!(Mesh::calculate_vertex_count(216), 36);
}

#[test]
fn vertex_count_derivation() {
    assert_eq!(Mesh::calculate_vertex_count(36), 6);
    assert_eq!(Mesh::calculate_vertex_count(0), 0);
    // Non-multiples of 6 truncate toward zero.
    assert_eq!(Mesh::calculate_vertex_count(5), 0);
    assert_eq!(Mesh::calculate_vertex_count(217), 36);
    assert_eq!(FLOATS_PER_VERTEX, 6);
}

#[test]
fn mesh_fixes_count_at_construction() {
    let mesh = Mesh::new(216);
    assert_eq!(mesh.vertex_count, 36);
}

#[test]
fn attribute_layout_is_fixed() {
    let layout = Mesh::attribute_layout();
    assert_eq!(layout.len(), 2);
    // Position: slot 0, 3 floats, stride 24, offset 0.
    assert_eq!(layout[0].index, 0);
    assert_eq!(layout[0].components, 3);
    assert_eq!(layout[0].stride, VERTEX_STRIDE_BYTES);
    assert_eq!(layout[0].offset, 0);
    // Color: slot 1, 3 floats, stride 24, offset 12.
    assert_eq!(layout[1].index, 1);
    assert_eq!(layout[1].components, 3);
    assert_eq!(layout[1].stride, 24);
    assert_eq!(layout[1].offset, 12);
}

#[test]
fn resize_sets_aspect_and_keeps_frustum() {
    let mut p = Projection::new(800, 600);
    assert_eq!(p.aspect_thousandths(), 1333);
    p.resize(1920, 1080);
    assert_eq!(p.width, 1920);
    assert_eq!(p.height, 1080);
    assert_eq!(p.fov_y_degrees, FOV_Y_DEGREES);
    assert_eq!(p.near_thousandths, NEAR_PLANE_THOUSANDTHS);
    assert_eq!(p.far_thousandths, FAR_PLANE_THOUSANDTHS);
    assert_eq!(p.aspect_thousandths(), 1777);
    p.resize(400, 400);
    assert_eq!(p.aspect_thousandths(), 1000);
    assert_eq!(p.fov_y_degrees, 45);
    assert_eq!(p.near_thousandths, 100);
    assert_eq!(p.far_thousandths, 100_000);
}

#[test]
fn uniform_cache_never_re_resolves() {
    let mut shader = Shader::new(7);
    assert_eq!(shader.program(), 7);
    assert_eq!(shader.cached_count(), 0);
    assert_eq!(shader.cached_location("model"), None);

    // First lookup caches the resolved location.
    assert_eq!(shader.get_uniform_location("model", 5), 5);
    assert_eq!(shader.cached_count(), 1);
    assert_eq!(shader.cached_location("model"), Some(5));

    // A repeated lookup ignores whatever the device would now answer.
    assert_eq!(shader.get_uniform_location("model", 99), 5);
    assert_eq!(shader.cached_count(), 1);

    // A new name adds exactly one entry and disturbs nothing.
    assert_eq!(shader.get_uniform_location("view", 2), 2);
    assert_eq!(shader.cached_count(), 2);
    assert_eq!(shader.cached_location("model"), Some(5));
    assert_eq!(shader.cached_location("view"), Some(2));
    assert_eq!(shader.cached_location("projection"), None);
}

#[test]
fn compile_failure_surfaces_log_unmodified() {
    let log = "ERROR: 0:1: 'vodi' : syntax error".to_string();
    match compile_outcome(ShaderStage::Vertex, false, log.clone()) {
        Err(TemplateError::ShaderCompile { stage, log: reported }) => {
            assert_eq!(stage, ShaderStage::Vertex);
            assert_eq!(reported, log);
        }
        other => panic!("expected a vertex compile error, got {:?}", other),
    }
    assert!(compile_outcome(ShaderStage::Fragment, true, String::new()).is_ok());
}

#[test]
fn link_failure_surfaces_log_unmodified() {
    let log = "error: undefined reference to 'main'".to_string();
    match link_outcome(false, log.clone()) {
        Err(TemplateError::ShaderLink { log: reported }) => {
            assert_eq!(reported, log);
        }
        other => panic!("expected a link error, got {:?}", other),
    }
    assert!(link_outcome(true, String::new()).is_ok());
}

#[test]
fn error_messages_carry_the_diagnostic() {
    let e = TemplateError::ShaderCompile {
        stage: ShaderStage::Fragment,
        log: "bad sampler".to_string(),
    };
    assert_eq!(e.message(), "fragment shader compilation error: bad sampler");
    let e = TemplateError::WindowCreation("no display".to_string());
    assert_eq!(e.message(), "window creation error: no display");
    let e = TemplateError::Io("resources/shaders/basic.vert: not found".to_string());
    assert_eq!(
        e.message(),
        "I/O error: resources/shaders/basic.vert: not found"
    );
    let e = TemplateError::DeviceInit("glGetString missing".to_string());
    assert_eq!(e.message(), "device init error: glGetString missing");
    let e = TemplateError::ShaderLink { log: "mismatch".to_string() };
    assert_eq!(e.message(), "shader link error: mismatch");
    let e = TemplateError::Presentation("swap failed".to_string());
    assert_eq!(e.message(), "presentation error: swap failed");
}

#[test]
fn only_presentation_errors_are_recoverable() {
    assert!(TemplateError::Presentation("lost surface".to_string()).is_recoverable());
    assert!(!TemplateError::Io("x".to_string()).is_recoverable());
    assert!(!TemplateError::WindowCreation("x".to_string()).is_recoverable());
    assert!(!TemplateError::DeviceInit("x".to_string()).is_recoverable());
    assert!(
        !TemplateError::ShaderCompile { stage: ShaderStage::Vertex, log: "x".to_string() }
            .is_recoverable()
    );
    assert!(!TemplateError::ShaderLink { log: "x".to_string() }.is_recoverable());
}

#[test]
fn model_rotation_rates_are_exact() {
    let r0 = model_rotation(0);
    assert_eq!(r0.x_urad, 0);
    assert_eq!(r0.y_urad, 0);

    // One second: 0.5 rad about X, 0.7 rad about Y.
    let r1 = model_rotation(1000);
    assert_eq!(r1.x_urad, 500_000);
    assert_eq!(r1.y_urad, 700_000);

    assert_eq!(SPIN_X_URAD_PER_MS, 500);
    assert_eq!(SPIN_Y_URAD_PER_MS, 700);

    // Near t = pi / 0.7 s the Y angle reaches pi and the X angle 0.5 * pi / 0.7.
    let t_ms = 4488u64; // round(1000 * pi / 0.7)
    let r = model_rotation(t_ms);
    let y_rad = r.y_urad as f64 / 1e6;
    let x_rad = r.x_urad as f64 / 1e6;
    assert!((y_rad - std::f64::consts::PI).abs() < 1e-3);
    assert!((x_rad - 0.5 * std::f64::consts::PI / 0.7).abs() < 1e-3);
}

#[test]
fn model_matrix_composition_order() {
    // The model matrix built from the library's angles equals
    // rotation_y(0.7 t) composed with rotation_x(0.5 t).
    let t_secs = 2.25f32;
    let r = model_rotation(2250);
    let x_angle = r.x_urad as f32 / 1e6;
    let y_angle = r.y_urad as f32 / 1e6;
    let from_library = nalgebra::Matrix4::from_axis_angle(&nalgebra::Vector3::y_axis(), y_angle)
        * nalgebra::Matrix4::from_axis_angle(&nalgebra::Vector3::x_axis(), x_angle);
    let expected = nalgebra::Matrix4::from_axis_angle(&nalgebra::Vector3::y_axis(), t_secs * 0.7)
        * nalgebra::Matrix4::from_axis_angle(&nalgebra::Vector3::x_axis(), t_secs * 0.5);
    for (a, b) in from_library.iter().zip(expected.iter()) {
        assert!((a - b).abs() < 1e-5);
    }
}

#[test]
fn context_builder_is_a_plain_value() {
    let b = GlContextBuilder::new();
    assert_eq!(b, GlContextBuilder);
}
