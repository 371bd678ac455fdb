use nyanko_engine::graphics::call::{GlCall, FRAGMENT_SHADER, GL_FALSE, NO_OBJECT, VERTEX_SHADER};
use nyanko_engine::graphics::context::Context;
use nyanko_engine::graphics::gl_wrapper::{ShaderProgram, UniformError, Vao};
use nyanko_engine::graphics::program_build::{BuildStep, ProgramBuild};

const VERTEX_TEXT: &str = "void main() { gl_Position = vec4(0.0); }";
const FRAGMENT_TEXT: &str = "void main() { }";

fn pending(step: BuildStep) -> (ProgramBuild, Vec<GlCall>) {
    match step {
        BuildStep::Pending { build, calls } => (build, calls),
        BuildStep::Linked { .. } => panic!("the build ended early"),
    }
}

fn linked(step: BuildStep) -> (ShaderProgram, Vec<GlCall>) {
    match step {
        BuildStep::Linked { program, calls } => (program, calls),
        BuildStep::Pending { .. } => panic!("the build did not end"),
    }
}

fn program_named(id: u32) -> ShaderProgram {
    let (build, _) = pending(ShaderProgram::new(VERTEX_TEXT, FRAGMENT_TEXT));
    let (build, _) = pending(build.advance(id + 1));
    let (build, _) = pending(build.advance(id + 2));
    linked(build.advance(id)).0
}

#[test]
fn build_starts_with_the_vertex_shader() {
    let (_, calls) = pending(ShaderProgram::new(VERTEX_TEXT, FRAGMENT_TEXT));
    assert_eq!(calls, vec![GlCall::CreateShader { stage: VERTEX_SHADER }]);
}

#[test]
fn build_makes_its_calls_in_order() {
    let (build, _) = pending(ShaderProgram::new(VERTEX_TEXT, FRAGMENT_TEXT));
    let (build, calls) = pending(build.advance(11));
    assert_eq!(
        calls,
        vec![
            GlCall::ShaderSource { shader: 11, source: VERTEX_TEXT.to_string() },
            GlCall::CompileShader { shader: 11 },
            GlCall::CreateShader { stage: FRAGMENT_SHADER },
        ]
    );
    let (build, calls) = pending(build.advance(12));
    assert_eq!(
        calls,
        vec![
            GlCall::ShaderSource { shader: 12, source: FRAGMENT_TEXT.to_string() },
            GlCall::CompileShader { shader: 12 },
            GlCall::CreateProgram,
        ]
    );
    let (program, calls) = linked(build.advance(13));
    assert_eq!(
        calls,
        vec![
            GlCall::AttachShader { program: 13, shader: 11 },
            GlCall::AttachShader { program: 13, shader: 12 },
            GlCall::LinkProgram { program: 13 },
            GlCall::DeleteShader { shader: 11 },
            GlCall::DeleteShader { shader: 12 },
        ]
    );
    assert_eq!(program.id(), 13);
}

#[test]
fn build_takes_whatever_names_it_is_given() {
    let (build, _) = pending(ShaderProgram::new("", ""));
    let (build, _) = pending(build.advance(0));
    let (build, _) = pending(build.advance(0));
    let (program, calls) = linked(build.advance(u32::MAX));
    assert_eq!(program.id(), u32::MAX);
    assert_eq!(calls.len(), 5);
    assert_eq!(calls[0], GlCall::AttachShader { program: u32::MAX, shader: 0 });
}

#[test]
fn new_program_has_an_empty_cache() {
    let program = program_named(3);
    assert_eq!(program.uniform_count(), 0);
    assert_eq!(program.uniform_location("x"), None);
    assert_eq!(program.uniform_location(""), None);
}

#[test]
fn locate_uniform_asks_for_the_name() {
    let program = program_named(3);
    assert_eq!(
        program.locate_uniform("transform"),
        GlCall::GetUniformLocation { program: 3, name: "transform".to_string() }
    );
}

#[test]
fn registering_twice_is_registering_once() {
    let mut program = program_named(3);
    assert_eq!(program.create_uniform("x", 4), Ok(()));
    assert_eq!(program.uniform_count(), 1);
    assert_eq!(program.uniform_location("x"), Some(4));
    assert_eq!(program.create_uniform("x", 4), Ok(()));
    assert_eq!(program.uniform_count(), 1);
    assert_eq!(program.uniform_location("x"), Some(4));
    assert_eq!(program.id(), 3);
}

#[test]
fn later_registration_overwrites() {
    let mut program = program_named(3);
    assert_eq!(program.create_uniform("x", 4), Ok(()));
    assert_eq!(program.create_uniform("y", 0), Ok(()));
    assert_eq!(program.create_uniform("x", 6), Ok(()));
    assert_eq!(program.uniform_count(), 2);
    assert_eq!(program.uniform_location("x"), Some(6));
    assert_eq!(program.uniform_location("y"), Some(0));
}

#[test]
fn missing_uniform_is_refused_and_not_stored() {
    let mut program = program_named(3);
    assert_eq!(program.create_uniform("x", 4), Ok(()));
    assert_eq!(program.create_uniform("nope", -1), Err(UniformError::NotActive));
    assert_eq!(program.create_uniform("x", i32::MIN), Err(UniformError::NotActive));
    assert_eq!(program.uniform_count(), 1);
    assert_eq!(program.uniform_location("nope"), None);
    assert_eq!(program.uniform_location("x"), Some(4));
}

#[test]
fn location_zero_is_a_location() {
    let mut program = program_named(3);
    assert_eq!(program.create_uniform("first", 0), Ok(()));
    assert_eq!(program.uniform_location("first"), Some(0));
    assert_eq!(program.create_uniform("last", i32::MAX), Ok(()));
    assert_eq!(program.uniform_location("last"), Some(i32::MAX));
}

#[test]
fn unregistered_uniform_cannot_be_set() {
    let mut context = Context::new();
    let mut program = program_named(3);
    program.bind(&mut context);
    let matrix = [0u32; 16];
    assert_eq!(
        program.set_matrix4fv_uniform(&context, "transform", &matrix),
        Err(UniformError::NotRegistered)
    );
    assert_eq!(program.create_uniform("other", 1), Ok(()));
    assert_eq!(program.create_uniform("transform", -1), Err(UniformError::NotActive));
    assert_eq!(
        program.set_matrix4fv_uniform(&context, "transform", &matrix),
        Err(UniformError::NotRegistered)
    );
    assert_eq!(
        program.set_matrix4fv_uniform(&context, "Other", &matrix),
        Err(UniformError::NotRegistered)
    );
}

#[test]
fn registered_uniform_is_set_at_its_location() {
    let mut context = Context::new();
    let mut program = program_named(3);
    assert_eq!(program.create_uniform("transform", 5), Ok(()));
    program.bind(&mut context);
    let mut matrix = [0u32; 16];
    for (i, word) in matrix.iter_mut().enumerate() {
        *word = (i as f32).to_bits();
    }
    assert_eq!(
        program.set_matrix4fv_uniform(&context, "transform", &matrix),
        Ok(GlCall::UniformMatrix4fv { location: 5, count: 1, transpose: GL_FALSE, value: matrix })
    );
}

#[test]
fn program_bind_and_unbind_move_only_the_program_slot() {
    let mut context = Context::new();
    Vao::new(2).bind(&mut context);
    let program = program_named(3);
    assert_eq!(program.bind(&mut context), GlCall::UseProgram { program: 3 });
    assert_eq!(context.program(), 3);
    assert_eq!(context.vertex_array(), 2);
    assert_eq!(ShaderProgram::unbind(&mut context), GlCall::UseProgram { program: 0 });
    assert_eq!(context.program(), NO_OBJECT);
    assert_eq!(context.vertex_array(), 2);
}
