use cgmath::{Matrix4, SquareMatrix};
use nyanko_engine::graphics::call::GlCall;
use nyanko_engine::graphics::context::Context;
use nyanko_engine::graphics::gl_wrapper::{BufferObject, ShaderProgram, Vao, VertexAttribute};
use nyanko_engine::graphics::program_build::BuildStep;
use nyanko_engine::graphics::text::check_c_text;

const VERTEX_TEXT: &str = "#version 330 core\n\
    layout (location = 0) in vec2 position;\n\
    uniform mat4 transform;\n\
    void main() { gl_Position = transform * vec4(position, 0.0, 1.0); }\n";
const FRAGMENT_TEXT: &str = "#version 330 core\n\
    out vec4 color;\n\
    void main() { color = vec4(1.0); }\n";

#[test]
fn triangle_is_set_up_without_a_failure() {
    let mut context = Context::new();
    let mut made: Vec<GlCall> = Vec::new();

    made.push(Vao::allocate());
    let vao = Vao::new(1);
    made.push(vao.bind(&mut context));

    made.push(BufferObject::allocate());
    let buffer = BufferObject::new(1, gl::ARRAY_BUFFER, gl::STATIC_DRAW);
    made.push(buffer.bind(&mut context));
    let triangle: [f32; 6] = [-0.5, -0.5, 0.5, -0.5, 0.0, 0.5];
    let words: Vec<u32> = triangle.iter().map(|value| value.to_bits()).collect();
    assert_eq!(context.buffer(buffer.target()), buffer.id());
    made.push(buffer.store_f32_data(&context, &words));

    let stride = 2 * std::mem::size_of::<f32>() as i32;
    let (attribute, layout) = VertexAttribute::new(0, 2, gl::FLOAT, gl::FALSE, stride, 0);
    made.push(layout);
    made.push(attribute.enable());

    assert!(check_c_text(VERTEX_TEXT) && check_c_text(FRAGMENT_TEXT));
    let mut step = ShaderProgram::new(VERTEX_TEXT, FRAGMENT_TEXT);
    let mut names = vec![3u32, 2, 1];
    let mut program = loop {
        match step {
            BuildStep::Pending { build, calls } => {
                made.extend(calls);
                step = build.advance(names.pop().expect("a fourth name was asked for"));
            }
            BuildStep::Linked { program, calls } => {
                made.extend(calls);
                break program;
            }
        }
    };
    assert!(names.is_empty());
    assert_eq!(program.id(), 3);

    assert!(check_c_text("transform"));
    made.push(program.locate_uniform("transform"));
    assert_eq!(program.create_uniform("transform", 0), Ok(()));

    made.push(program.bind(&mut context));
    let identity: Matrix4<f32> = Matrix4::identity();
    let floats: &[f32; 16] = identity.as_ref();
    let matrix = floats.map(|value| value.to_bits());
    assert_eq!(context.program(), program.id());
    let upload = program.set_matrix4fv_uniform(&context, "transform", &matrix);
    assert!(upload.is_ok());
    made.extend(upload);

    let one = 1.0f32.to_bits();
    let expected = vec![
        GlCall::GenVertexArrays { count: 1 },
        GlCall::BindVertexArray { array: 1 },
        GlCall::GenBuffers { count: 1 },
        GlCall::BindBuffer { target: gl::ARRAY_BUFFER, buffer: 1 },
        GlCall::BufferData {
            target: gl::ARRAY_BUFFER,
            size: 24,
            words: vec![
                0xBF00_0000,
                0xBF00_0000,
                0x3F00_0000,
                0xBF00_0000,
                0x0000_0000,
                0x3F00_0000,
            ],
            usage: gl::STATIC_DRAW,
        },
        GlCall::VertexAttribPointer {
            index: 0,
            components: 2,
            component_type: gl::FLOAT,
            normalized: gl::FALSE,
            stride: 8,
            offset: 0,
        },
        GlCall::EnableVertexAttribArray { index: 0 },
        GlCall::CreateShader { stage: gl::VERTEX_SHADER },
        GlCall::ShaderSource { shader: 1, source: VERTEX_TEXT.to_string() },
        GlCall::CompileShader { shader: 1 },
        GlCall::CreateShader { stage: gl::FRAGMENT_SHADER },
        GlCall::ShaderSource { shader: 2, source: FRAGMENT_TEXT.to_string() },
        GlCall::CompileShader { shader: 2 },
        GlCall::CreateProgram,
        GlCall::AttachShader { program: 3, shader: 1 },
        GlCall::AttachShader { program: 3, shader: 2 },
        GlCall::LinkProgram { program: 3 },
        GlCall::DeleteShader { shader: 1 },
        GlCall::DeleteShader { shader: 2 },
        GlCall::GetUniformLocation { program: 3, name: "transform".to_string() },
        GlCall::UseProgram { program: 3 },
        GlCall::UniformMatrix4fv {
            location: 0,
            count: 1,
            transpose: gl::FALSE,
            value: [one, 0, 0, 0, 0, one, 0, 0, 0, 0, one, 0, 0, 0, 0, one],
        },
    ];
    assert_eq!(made, expected);
    assert_eq!(context.vertex_array(), 1);
    assert_eq!(context.buffer(gl::ARRAY_BUFFER), 1);
    assert_eq!(context.program(), 3);
}
