use vstd::prelude::*;

verus! {

/// The shader stage that runs once per vertex.
pub const VERTEX_SHADER: u32 = 0x8B31;

/// The shader stage that runs once per fragment.
pub const FRAGMENT_SHADER: u32 = 0x8B30;

/// The name that stands for "nothing bound" in every binding slot.
pub const NO_OBJECT: u32 = 0;

/// The boolean "false" of the graphics context.
pub const GL_FALSE: u8 = 0;

/// The size in bytes of one buffer element, float or integer.
pub const ELEMENT_SIZE: usize = 4;

/// One call on the graphics context, with everything it is handed.
///
/// Floats travel as their bit patterns, one `u32` each, so that a call can be
/// compared and reasoned about exactly.
#[derive(Debug, PartialEq, Eq)]
pub enum GlCall {
    /// Allocate `count` vertex arrays; the context answers with their names.
    GenVertexArrays { count: i32 },
    /// Make `array` the active vertex array.
    BindVertexArray { array: u32 },
    /// Allocate `count` buffers; the context answers with their names.
    GenBuffers { count: i32 },
    /// Bind `buffer` to the slot `target`.
    BindBuffer { target: u32, buffer: u32 },
    /// Replace the contents of the buffer bound to `target` by `words`,
    /// `size` bytes in all.
    BufferData { target: u32, size: usize, words: Vec<u32>, usage: u32 },
    /// Describe how the bound buffer feeds the shader input `index`.
    VertexAttribPointer {
        index: u32,
        components: i32,
        component_type: u32,
        normalized: u8,
        stride: i32,
        offset: usize,
    },
    /// Switch the shader input `index` on.
    EnableVertexAttribArray { index: u32 },
    /// Switch the shader input `index` off.
    DisableVertexAttribArray { index: u32 },
    /// Allocate a shader of the stage `stage`; the context answers with its name.
    CreateShader { stage: u32 },
    /// Hand `source` to `shader` as its one source text.
    ShaderSource { shader: u32, source: String },
    /// Compile `shader`.
    CompileShader { shader: u32 },
    /// Allocate a program; the context answers with its name.
    CreateProgram,
    /// Attach `shader` to `program`.
    AttachShader { program: u32, shader: u32 },
    /// Link `program`.
    LinkProgram { program: u32 },
    /// Release `shader`.
    DeleteShader { shader: u32 },
    /// Make `program` the active shader pipeline.
    UseProgram { program: u32 },
    /// Ask where the uniform `name` of `program` lives; the context answers
    /// with its location, negative where there is no such active uniform.
    GetUniformLocation { program: u32, name: String },
    /// Upload `count` 4x4 matrices to `location`, sixteen floats each in
    /// column-major order unless `transpose` is set.
    UniformMatrix4fv { location: i32, count: i32, transpose: u8, value: [u32; 16] },
}

/// What a [`GlCall`] says, over sequences.
pub enum CallView {
    GenVertexArrays { count: i32 },
    BindVertexArray { array: u32 },
    GenBuffers { count: i32 },
    BindBuffer { target: u32, buffer: u32 },
    BufferData { target: u32, size: nat, words: Seq<u32>, usage: u32 },
    VertexAttribPointer {
        index: u32,
        components: i32,
        component_type: u32,
        normalized: u8,
        stride: i32,
        offset: usize,
    },
    EnableVertexAttribArray { index: u32 },
    DisableVertexAttribArray { index: u32 },
    CreateShader { stage: u32 },
    ShaderSource { shader: u32, source: Seq<char> },
    CompileShader { shader: u32 },
    CreateProgram,
    AttachShader { program: u32, shader: u32 },
    LinkProgram { program: u32 },
    DeleteShader { shader: u32 },
    UseProgram { program: u32 },
    GetUniformLocation { program: u32, name: Seq<char> },
    UniformMatrix4fv { location: i32, count: i32, transpose: u8, value: Seq<u32> },
}

impl View for GlCall {
    type V = CallView;

    open spec fn view(&self) -> CallView {
        match *self {
            GlCall::GenVertexArrays { count } => CallView::GenVertexArrays { count },
            GlCall::BindVertexArray { array } => CallView::BindVertexArray { array },
            GlCall::GenBuffers { count } => CallView::GenBuffers { count },
            GlCall::BindBuffer { target, buffer } => CallView::BindBuffer { target, buffer },
            GlCall::BufferData { target, size, words, usage } => CallView::BufferData {
                target,
                size: size as nat,
                words: words@,
                usage,
            },
            GlCall::VertexAttribPointer {
                index,
                components,
                component_type,
                normalized,
                stride,
                offset,
            } => CallView::VertexAttribPointer {
                index,
                components,
                component_type,
                normalized,
                stride,
                offset,
            },
            GlCall::EnableVertexAttribArray { index } => CallView::EnableVertexAttribArray {
                index,
            },
            GlCall::DisableVertexAttribArray { index } => CallView::DisableVertexAttribArray {
                index,
            },
            GlCall::CreateShader { stage } => CallView::CreateShader { stage },
            GlCall::ShaderSource { shader, source } => CallView::ShaderSource {
                shader,
                source: source@,
            },
            GlCall::CompileShader { shader } => CallView::CompileShader { shader },
            GlCall::CreateProgram => CallView::CreateProgram,
            GlCall::AttachShader { program, shader } => CallView::AttachShader { program, shader },
            GlCall::LinkProgram { program } => CallView::LinkProgram { program },
            GlCall::DeleteShader { shader } => CallView::DeleteShader { shader },
            GlCall::UseProgram { program } => CallView::UseProgram { program },
            GlCall::GetUniformLocation { program, name } => CallView::GetUniformLocation {
                program,
                name: name@,
            },
            GlCall::UniformMatrix4fv { location, count, transpose, value } => {
                CallView::UniformMatrix4fv { location, count, transpose, value: value@ }
            },
        }
    }
}

/// What a list of calls says, in order.
pub open spec fn calls_view(calls: Seq<GlCall>) -> Seq<CallView> {
    calls.map_values(|call: GlCall| call@)
}

} // verus!
