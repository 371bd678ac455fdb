use crate::graphics::call::{
    CallView, GlCall, ELEMENT_SIZE, GL_FALSE, NO_OBJECT, VERTEX_SHADER,
};
use crate::graphics::context::Context;
use crate::graphics::program_build::{BuildStep, BuildView, ProgramBuild};
use crate::graphics::text::is_c_text;
use vstd::hash_map::StringHashMap;
use vstd::layout::{layout_of_primitives, layout_of_slices};
use vstd::prelude::*;
use vstd::slice::slice_to_vec;

verus! {

/// # Vertex Array Object (VAO)
///
/// The binding point that groups the vertex attribute state of draw calls.
pub struct Vao {
    id: u32,
}

impl Vao {
    /// The name that the context gave this vertex array.
    pub closed spec fn spec_id(&self) -> u32 {
        self.id
    }

    /// The call that allocates one vertex array. Its answer goes to `new`.
    pub fn allocate() -> (call: GlCall)
        ensures
            call@ == (CallView::GenVertexArrays { count: 1 }),
    {
        GlCall::GenVertexArrays { count: 1 }
    }

    /// Wraps the vertex array that the context named `id`.
    pub fn new(id: u32) -> (vao: Vao)
        ensures
            vao.spec_id() == id,
    {
        Vao { id }
    }

    /// The name that the context gave this vertex array.
    pub fn id(&self) -> (id: u32)
        ensures
            id == self.spec_id(),
    {
        self.id
    }

    /// Binds the VAO: it becomes the active vertex array, and no other slot moves.
    pub fn bind(&self, context: &mut Context) -> (call: GlCall)
        ensures
            call@ == (CallView::BindVertexArray { array: self.spec_id() }),
            final(context)@ == old(context)@.after(call@),
            final(context)@.vertex_array == self.spec_id(),
    {
        let call = GlCall::BindVertexArray { array: self.id };
        context.record(&call);
        call
    }

    /// Unbinds the VAO: no vertex array is active afterwards.
    pub fn unbind(context: &mut Context) -> (call: GlCall)
        ensures
            call@ == (CallView::BindVertexArray { array: NO_OBJECT }),
            final(context)@ == old(context)@.after(call@),
            final(context)@.vertex_array == NO_OBJECT,
    {
        let call = GlCall::BindVertexArray { array: NO_OBJECT };
        context.record(&call);
        call
    }
}

/// # Buffer Object (VBO)
///
/// A block of memory on the graphics device. Its target and its usage hint
/// are fixed when it is made; every call it returns carries them.
pub struct BufferObject {
    id: u32,
    target: u32,
    usage: u32,
}

impl BufferObject {
    /// The name that the context gave this buffer.
    pub closed spec fn spec_id(&self) -> u32 {
        self.id
    }

    /// The slot this buffer binds to.
    pub closed spec fn spec_target(&self) -> u32 {
        self.target
    }

    /// How the contents of this buffer will be used.
    pub closed spec fn spec_usage(&self) -> u32 {
        self.usage
    }

    /// Whether `context` has this buffer bound to its target.
    pub open spec fn is_bound(&self, context: &Context) -> bool {
        context@.buffers[self.spec_target()] == self.spec_id()
    }

    /// The call that uploads `words` as the whole contents of this buffer.
    pub open spec fn upload(&self, words: Seq<u32>) -> CallView {
        CallView::BufferData {
            target: self.spec_target(),
            size: words.len() * ELEMENT_SIZE as nat,
            words,
            usage: self.spec_usage(),
        }
    }

    /// The call that allocates one buffer. Its answer goes to `new`.
    pub fn allocate() -> (call: GlCall)
        ensures
            call@ == (CallView::GenBuffers { count: 1 }),
    {
        GlCall::GenBuffers { count: 1 }
    }

    /// Wraps the buffer that the context named `id`, for good with `target`
    /// and `usage`.
    pub fn new(id: u32, target: u32, usage: u32) -> (buffer: BufferObject)
        ensures
            buffer.spec_id() == id,
            buffer.spec_target() == target,
            buffer.spec_usage() == usage,
    {
        BufferObject { id, target, usage }
    }

    /// The name that the context gave this buffer.
    pub fn id(&self) -> (id: u32)
        ensures
            id == self.spec_id(),
    {
        self.id
    }

    /// The slot this buffer binds to.
    pub fn target(&self) -> (target: u32)
        ensures
            target == self.spec_target(),
    {
        self.target
    }

    /// How the contents of this buffer will be used.
    pub fn usage(&self) -> (usage: u32)
        ensures
            usage == self.spec_usage(),
    {
        self.usage
    }

    /// Binds the buffer object to its own target; no other slot moves.
    pub fn bind(&self, context: &mut Context) -> (call: GlCall)
        ensures
            call@ == (CallView::BindBuffer { target: self.spec_target(), buffer: self.spec_id() }),
            final(context)@ == old(context)@.after(call@),
            self.is_bound(final(context)),
    {
        let call = GlCall::BindBuffer { target: self.target, buffer: self.id };
        context.record(&call);
        call
    }

    /// Unbinds the buffer object: nothing is bound to its target afterwards.
    pub fn unbind(&self, context: &mut Context) -> (call: GlCall)
        ensures
            call@ == (CallView::BindBuffer { target: self.spec_target(), buffer: NO_OBJECT }),
            final(context)@ == old(context)@.after(call@),
            final(context)@.buffers[self.spec_target()] == NO_OBJECT,
    {
        let call = GlCall::BindBuffer { target: self.target, buffer: NO_OBJECT };
        context.record(&call);
        call
    }

    /// Stores float data in the buffer, each float given by its bit pattern.
    ///
    /// The data replaces whatever the buffer held: the call depends on this
    /// buffer and on `data` alone.
    pub fn store_f32_data(&self, context: &Context, data: &[u32]) -> (call: GlCall)
        requires
            self.is_bound(context),
        ensures
            call@ == self.upload(data@),
    {
        self.store_words(slice_to_vec(data))
    }

    /// Stores integer data in the buffer.
    ///
    /// The data replaces whatever the buffer held: the call depends on this
    /// buffer and on `data` alone.
    pub fn store_i32_data(&self, context: &Context, data: &[i32]) -> (call: GlCall)
        requires
            self.is_bound(context),
        ensures
            call@ == self.upload(words_of(data@)),
    {
        let mut words: Vec<u32> = Vec::new();
        for i in 0..data.len()
            invariant
                words@ == words_of(data@.take(i as int)),
        {
            words.push(word_of(data[i]));
            assert(data@.take(i + 1).drop_last() == data@.take(i as int));
        }
        assert(data@.take(data@.len() as int) == data@);
        self.store_words(words)
    }

    fn store_words(&self, words: Vec<u32>) -> (call: GlCall)
        ensures
            call@ == self.upload(words@),
    {
        broadcast use {layout_of_slices, layout_of_primitives};

        let size = core::mem::size_of_val(words.as_slice());
        GlCall::BufferData { target: self.target, size, words, usage: self.usage }
    }
}

/// # Vertex Attribute
///
/// One input slot of the vertex shader. The layout it was made with lives in
/// the context, tied to the buffer that was bound when the call was made; the
/// handle keeps the slot's index and nothing else.
pub struct VertexAttribute {
    index: u32,
}

impl VertexAttribute {
    /// The shader input slot that this attribute controls.
    pub closed spec fn spec_index(&self) -> u32 {
        self.index
    }

    /// Creates a new vertex attribute: slot `index` reads `components` values
    /// of `component_type` from the bound buffer, starting `offset` bytes in
    /// and `stride` bytes apart.
    pub fn new(
        index: u32,
        components: i32,
        component_type: u32,
        normalized: u8,
        stride: i32,
        offset: usize,
    ) -> (made: (VertexAttribute, GlCall))
        ensures
            made.0.spec_index() == index,
            made.1@ == (CallView::VertexAttribPointer {
                index,
                components,
                component_type,
                normalized,
                stride,
                offset,
            }),
    {
        (
            VertexAttribute { index },
            GlCall::VertexAttribPointer {
                index,
                components,
                component_type,
                normalized,
                stride,
                offset,
            },
        )
    }

    /// The shader input slot that this attribute controls.
    pub fn index(&self) -> (index: u32)
        ensures
            index == self.spec_index(),
    {
        self.index
    }

    /// Enables the vertex attribute.
    pub fn enable(&self) -> (call: GlCall)
        ensures
            call@ == (CallView::EnableVertexAttribArray { index: self.spec_index() }),
    {
        GlCall::EnableVertexAttribArray { index: self.index }
    }

    /// Disables the vertex attribute.
    pub fn disable(&self) -> (call: GlCall)
        ensures
            call@ == (CallView::DisableVertexAttribArray { index: self.spec_index() }),
    {
        GlCall::DisableVertexAttribArray { index: self.index }
    }
}

/// Why a uniform could not be registered or set.
#[derive(Debug, Clone, Copy, PartialEq, Eq, Structural)]
pub enum UniformError {
    /// The linked program has no active uniform of that name.
    NotActive,
    /// The name was never registered with `create_uniform`.
    NotRegistered,
}

/// The cache after the context answered `location` for `name`: a negative
/// location stands for "no such uniform" and registers nothing, any other is
/// stored under the name, in place of what was stored there.
pub open spec fn registered(cache: Map<Seq<char>, i32>, name: Seq<char>, location: i32) -> Map<
    Seq<char>,
    i32,
> {
    if location < 0 {
        cache
    } else {
        cache.insert(name, location)
    }
}

/// The cache of a new program after each of `answers` in turn, a name and
/// the location that the context answered for it.
pub open spec fn cache_after(answers: Seq<(Seq<char>, i32)>) -> Map<Seq<char>, i32>
    decreases answers.len(),
{
    if answers.len() == 0 {
        Map::empty()
    } else {
        registered(cache_after(answers.drop_last()), answers.last().0, answers.last().1)
    }
}

/// Registering a name twice with the same answer is the same as
/// registering it once: the cache holds one entry for the name, with the
/// location unchanged, and is no larger for the second time.
pub proof fn lemma_registration_is_idempotent(
    cache: Map<Seq<char>, i32>,
    name: Seq<char>,
    location: i32,
)
    ensures
        registered(registered(cache, name, location), name, location) == registered(
            cache,
            name,
            location,
        ),
        registered(registered(cache, name, location), name, location).len() == registered(
            cache,
            name,
            location,
        ).len(),
        location >= 0 ==> registered(cache, name, location).contains_key(name) && registered(
            cache,
            name,
            location,
        )[name] == location,
{
    assert(registered(registered(cache, name, location), name, location) =~= registered(
        cache,
        name,
        location,
    ));
}

/// Registering one name leaves every other name as it was.
pub proof fn lemma_registration_is_local(
    cache: Map<Seq<char>, i32>,
    name: Seq<char>,
    location: i32,
    other: Seq<char>,
)
    requires
        other != name,
    ensures
        registered(cache, name, location).contains_key(other) == cache.contains_key(other),
        cache.contains_key(other) ==> registered(cache, name, location)[other] == cache[other],
{
}

/// A program knows exactly the names that were registered with an answer
/// that was not negative. A name that was never registered is not known,
/// whatever else was.
pub proof fn lemma_known_names_were_registered(answers: Seq<(Seq<char>, i32)>, name: Seq<char>)
    ensures
        cache_after(answers).contains_key(name) <==> exists|i: int|
            0 <= i < answers.len() && (#[trigger] answers[i]).0 == name && answers[i].1 >= 0,
        cache_after(answers).dom().finite(),
    decreases answers.len(),
{
    if answers.len() > 0 {
        let earlier = answers.drop_last();
        lemma_known_names_were_registered(earlier, name);
        if cache_after(answers).contains_key(name) {
            if answers.last().0 == name && answers.last().1 >= 0 {
                assert(answers[answers.len() - 1].0 == name);
            } else {
                let i = choose|i: int|
                    0 <= i < earlier.len() && (#[trigger] earlier[i]).0 == name && earlier[i].1
                        >= 0;
                assert(answers[i] == earlier[i]);
            }
        }
        if exists|i: int|
            0 <= i < answers.len() && (#[trigger] answers[i]).0 == name && answers[i].1 >= 0 {
            let i = choose|i: int|
                0 <= i < answers.len() && (#[trigger] answers[i]).0 == name && answers[i].1 >= 0;
            if i < earlier.len() {
                assert(earlier[i] == answers[i]);
            }
        }
    }
}

/// # Shader Program
///
/// A linked pipeline of a vertex and a fragment stage, with the cache of its
/// uniform locations. The view of a program is that cache, from name to
/// location.
pub struct ShaderProgram {
    id: u32,
    uniforms: StringHashMap<i32>,
}

impl View for ShaderProgram {
    type V = Map<Seq<char>, i32>;

    closed spec fn view(&self) -> Map<Seq<char>, i32> {
        self.uniforms@
    }
}

impl ShaderProgram {
    /// The name that the context gave this program.
    pub closed spec fn spec_id(&self) -> u32 {
        self.id
    }

    /// Whether `context` has this program as its active pipeline.
    pub open spec fn is_bound(&self, context: &Context) -> bool {
        context@.program == self.spec_id()
    }

    /// Creates a new shader program from the texts of a vertex and a
    /// fragment shader: starts the build, whose first call asks the context
    /// for the vertex shader. `ProgramBuild::advance` takes it from there.
    pub fn new(vertex_source: &str, fragment_source: &str) -> (step: BuildStep)
        requires
            is_c_text(vertex_source@),
            is_c_text(fragment_source@),
        ensures
            step.calls() == seq![CallView::CreateShader { stage: VERTEX_SHADER }],
            step matches BuildStep::Pending { build, .. } && build@ == BuildView::start(
                vertex_source@,
                fragment_source@,
            ) && build@.well_formed(),
    {
        let mut calls: Vec<GlCall> = Vec::new();
        calls.push(GlCall::CreateShader { stage: VERTEX_SHADER });
        let step = BuildStep::Pending {
            build: ProgramBuild::VertexStage {
                vertex_source: vertex_source.to_owned(),
                fragment_source: fragment_source.to_owned(),
            },
            calls,
        };
        assert(step.calls() =~= seq![CallView::CreateShader { stage: VERTEX_SHADER }]);
        step
    }

    /// The program that the context named `id`, just linked: no uniform is
    /// registered with it yet.
    pub(crate) fn linked(id: u32) -> (program: ShaderProgram)
        ensures
            program.spec_id() == id,
            program@ == Map::<Seq<char>, i32>::empty(),
    {
        ShaderProgram { id, uniforms: StringHashMap::new() }
    }

    /// The name that the context gave this program.
    pub fn id(&self) -> (id: u32)
        ensures
            id == self.spec_id(),
    {
        self.id
    }

    /// The location registered for `name`, if any.
    pub fn uniform_location(&self, name: &str) -> (location: Option<i32>)
        ensures
            location == (if self@.contains_key(name@) {
                Some(self@[name@])
            } else {
                None
            }),
    {
        match self.uniforms.get(name) {
            Some(location) => Some(*location),
            None => None,
        }
    }

    /// How many uniforms are registered.
    pub fn uniform_count(&self) -> (count: usize)
        ensures
            count == self@.len(),
    {
        self.uniforms.len()
    }

    /// Binds the shader program: it becomes the active pipeline, and no
    /// other slot moves.
    pub fn bind(&self, context: &mut Context) -> (call: GlCall)
        ensures
            call@ == (CallView::UseProgram { program: self.spec_id() }),
            final(context)@ == old(context)@.after(call@),
            self.is_bound(final(context)),
    {
        let call = GlCall::UseProgram { program: self.id };
        context.record(&call);
        call
    }

    /// Unbinds the current shader program: no pipeline is active afterwards.
    pub fn unbind(context: &mut Context) -> (call: GlCall)
        ensures
            call@ == (CallView::UseProgram { program: NO_OBJECT }),
            final(context)@ == old(context)@.after(call@),
            final(context)@.program == NO_OBJECT,
    {
        let call = GlCall::UseProgram { program: NO_OBJECT };
        context.record(&call);
        call
    }

    /// The call that asks the context where the uniform `name` of this
    /// program lives. Its answer goes to `create_uniform`.
    pub fn locate_uniform(&self, name: &str) -> (call: GlCall)
        requires
            is_c_text(name@),
        ensures
            call@ == (CallView::GetUniformLocation { program: self.spec_id(), name: name@ }),
    {
        GlCall::GetUniformLocation { program: self.id, name: name.to_owned() }
    }

    /// Creates a uniform location in the shader program: registers
    /// `location`, the context's answer to `locate_uniform(name)`, under `name`.
    ///
    /// A negative answer means that the program has no such active uniform.
    /// It is refused, and the cache stays as it was.
    pub fn create_uniform(&mut self, name: &str, location: i32) -> (result: Result<
        (),
        UniformError,
    >)
        ensures
            final(self).spec_id() == old(self).spec_id(),
            final(self)@ == registered(old(self)@, name@, location),
            location >= 0 ==> result == Ok::<(), UniformError>(()),
            location < 0 ==> result == Err::<(), UniformError>(UniformError::NotActive),
    {
        if location < 0 {
            Err(UniformError::NotActive)
        } else {
            self.uniforms.insert(name.to_owned(), location);
            Ok(())
        }
    }

    /// Sets a matrix uniform (4x4 float) in the shader program: one matrix,
    /// not transposed, its sixteen floats given by their bit patterns in
    /// column-major order.
    ///
    /// A name that was not registered is refused.
    pub fn set_matrix4fv_uniform(
        &self,
        context: &Context,
        name: &str,
        matrix: &[u32; 16],
    ) -> (result: Result<GlCall, UniformError>)
        requires
            self.is_bound(context),
        ensures
            self@.contains_key(name@) ==> result is Ok && result->Ok_0@ == (
                CallView::UniformMatrix4fv {
                    location: self@[name@],
                    count: 1,
                    transpose: GL_FALSE,
                    value: matrix@,
                }
            ),
            !self@.contains_key(name@) ==> result == Err::<GlCall, UniformError>(
                UniformError::NotRegistered,
            ),
    {
        match self.uniforms.get(name) {
            Some(location) => Ok(
                GlCall::UniformMatrix4fv {
                    location: *location,
                    count: 1,
                    transpose: GL_FALSE,
                    value: *matrix,
                },
            ),
            None => Err(UniformError::NotRegistered),
        }
    }
}

/// The 32 bits of `value`, read as an unsigned number.
pub open spec fn spec_word_of(value: i32) -> u32 {
    if value >= 0 {
        value as u32
    } else {
        (value + 0x1_0000_0000) as u32
    }
}

/// The number whose 32 bits are `word`, read as a signed number.
pub open spec fn spec_value_of(word: u32) -> i32 {
    if word <= i32::MAX {
        word as i32
    } else {
        (word - 0x1_0000_0000) as i32
    }
}

/// Reading a number's bits as a word loses nothing: the word gives the
/// number back, and different numbers have different words.
pub proof fn lemma_word_keeps_the_value(value: i32, other: i32)
    ensures
        spec_value_of(spec_word_of(value)) == value,
        spec_word_of(value) == spec_word_of(other) ==> value == other,
{
}

/// The bits of each of `values`, in order.
pub open spec fn words_of(values: Seq<i32>) -> Seq<u32> {
    values.map_values(|value: i32| spec_word_of(value))
}

/// The 32 bits of `value`, read as an unsigned number.
pub fn word_of(value: i32) -> (word: u32)
    ensures
        word == spec_word_of(value),
{
    if value >= 0 {
        value as u32
    } else {
        (value as i64 + 0x1_0000_0000) as u32
    }
}

} // verus!
