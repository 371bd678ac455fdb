use crate::graphics::call::{calls_view, CallView, GlCall, FRAGMENT_SHADER, VERTEX_SHADER};
use crate::graphics::context::{binds, lemma_only_bindings_move_slots, Bindings};
use crate::graphics::gl_wrapper::ShaderProgram;
use crate::graphics::text::is_c_text;
use vstd::prelude::*;

verus! {

/// A shader program on its way to being linked: what is known so far, and
/// with it what the next name from the context will stand for.
pub enum ProgramBuild {
    /// The vertex shader was asked for; both texts wait.
    VertexStage { vertex_source: String, fragment_source: String },
    /// The vertex shader is compiling and the fragment shader was asked for.
    FragmentStage { vertex_shader: u32, fragment_source: String },
    /// Both shaders are compiling and the program was asked for.
    Linking { vertex_shader: u32, fragment_shader: u32 },
}

/// What a [`ProgramBuild`] knows, over sequences.
pub enum BuildView {
    VertexStage { vertex_source: Seq<char>, fragment_source: Seq<char> },
    FragmentStage { vertex_shader: u32, fragment_source: Seq<char> },
    Linking { vertex_shader: u32, fragment_shader: u32 },
}

impl View for ProgramBuild {
    type V = BuildView;

    open spec fn view(&self) -> BuildView {
        match *self {
            ProgramBuild::VertexStage { vertex_source, fragment_source } => BuildView::VertexStage {
                vertex_source: vertex_source@,
                fragment_source: fragment_source@,
            },
            ProgramBuild::FragmentStage { vertex_shader, fragment_source } => {
                BuildView::FragmentStage { vertex_shader, fragment_source: fragment_source@ }
            },
            ProgramBuild::Linking { vertex_shader, fragment_shader } => BuildView::Linking {
                vertex_shader,
                fragment_shader,
            },
        }
    }
}

/// The calls that hand `source` to `shader` and compile it.
pub open spec fn compile_calls(shader: u32, source: Seq<char>) -> Seq<CallView> {
    seq![CallView::ShaderSource { shader, source }, CallView::CompileShader { shader }]
}

/// The calls that link the two shaders into `program` and release them.
pub open spec fn link_calls(program: u32, vertex_shader: u32, fragment_shader: u32) -> Seq<
    CallView,
> {
    seq![
        CallView::AttachShader { program, shader: vertex_shader },
        CallView::AttachShader { program, shader: fragment_shader },
        CallView::LinkProgram { program },
        CallView::DeleteShader { shader: vertex_shader },
        CallView::DeleteShader { shader: fragment_shader },
    ]
}

/// Every call that the context gets while a program is made of the two
/// texts, where it answers `vertex_shader`, `fragment_shader` and `program`
/// to the three allocations.
pub open spec fn creation_calls(
    vertex_source: Seq<char>,
    fragment_source: Seq<char>,
    vertex_shader: u32,
    fragment_shader: u32,
    program: u32,
) -> Seq<CallView> {
    seq![CallView::CreateShader { stage: VERTEX_SHADER }] + compile_calls(
        vertex_shader,
        vertex_source,
    ) + seq![CallView::CreateShader { stage: FRAGMENT_SHADER }] + compile_calls(
        fragment_shader,
        fragment_source,
    ) + seq![CallView::CreateProgram] + link_calls(program, vertex_shader, fragment_shader)
}

impl BuildView {
    /// The build that waits for the first name.
    pub open spec fn start(vertex_source: Seq<char>, fragment_source: Seq<char>) -> BuildView {
        BuildView::VertexStage { vertex_source, fragment_source }
    }

    /// Whether every text that is still to be handed over holds no NUL.
    pub open spec fn well_formed(self) -> bool {
        match self {
            BuildView::VertexStage { vertex_source, fragment_source } => is_c_text(vertex_source)
                && is_c_text(fragment_source),
            BuildView::FragmentStage { fragment_source, .. } => is_c_text(fragment_source),
            BuildView::Linking { .. } => true,
        }
    }

    /// How many names the build still waits for.
    pub open spec fn remaining(self) -> nat {
        match self {
            BuildView::VertexStage { .. } => 3,
            BuildView::FragmentStage { .. } => 2,
            BuildView::Linking { .. } => 1,
        }
    }

    /// The calls to make once the context has answered `name`. But for the
    /// last step, the last of them is the next allocation.
    pub open spec fn calls_on(self, name: u32) -> Seq<CallView> {
        match self {
            BuildView::VertexStage { vertex_source, .. } => compile_calls(name, vertex_source)
                + seq![CallView::CreateShader { stage: FRAGMENT_SHADER }],
            BuildView::FragmentStage { fragment_source, .. } => compile_calls(
                name,
                fragment_source,
            ) + seq![CallView::CreateProgram],
            BuildView::Linking { vertex_shader, fragment_shader } => link_calls(
                name,
                vertex_shader,
                fragment_shader,
            ),
        }
    }

    /// The build after the context has answered `name`, `None` where that
    /// was the program's own name and the build is over.
    pub open spec fn next(self, name: u32) -> Option<BuildView> {
        match self {
            BuildView::VertexStage { fragment_source, .. } => Some(
                BuildView::FragmentStage { vertex_shader: name, fragment_source },
            ),
            BuildView::FragmentStage { vertex_shader, .. } => Some(
                BuildView::Linking { vertex_shader, fragment_shader: name },
            ),
            BuildView::Linking { .. } => None,
        }
    }
}

/// One step of a build: the calls to make now, in order, and what comes of
/// them.
pub enum BuildStep {
    /// The last of `calls` allocates an object; its name goes to
    /// `build.advance`.
    Pending { build: ProgramBuild, calls: Vec<GlCall> },
    /// With `calls` made, `program` is linked.
    Linked { program: ShaderProgram, calls: Vec<GlCall> },
}

impl BuildStep {
    /// The calls of this step, in order.
    pub open spec fn calls(self) -> Seq<CallView> {
        match self {
            BuildStep::Pending { calls, .. } => calls_view(calls@),
            BuildStep::Linked { calls, .. } => calls_view(calls@),
        }
    }
}

impl ProgramBuild {
    /// Takes the name that the context answered to the last allocation, and
    /// says what to do with it.
    ///
    /// The first name is the vertex shader's: it gets the vertex text and is
    /// compiled, and the fragment shader is asked for. The second is the
    /// fragment shader's, treated alike, and the program is asked for. The
    /// third is the program's: both shaders are attached to it, it is
    /// linked, and the shaders are released.
    pub fn advance(self, name: u32) -> (step: BuildStep)
        requires
            self@.well_formed(),
        ensures
            step.calls() == self@.calls_on(name),
            match self@.next(name) {
                Some(next) => step matches BuildStep::Pending { build, .. } && build@ == next
                    && next.well_formed(),
                None => step matches BuildStep::Linked { program, .. } && program.spec_id() == name
                    && program@ == Map::<Seq<char>, i32>::empty(),
            },
    {
        match self {
            ProgramBuild::VertexStage { vertex_source, fragment_source } => {
                let mut calls: Vec<GlCall> = Vec::new();
                compile_shader(&mut calls, name, vertex_source);
                calls.push(GlCall::CreateShader { stage: FRAGMENT_SHADER });
                let step = BuildStep::Pending {
                    build: ProgramBuild::FragmentStage { vertex_shader: name, fragment_source },
                    calls,
                };
                assert(step.calls() =~= self@.calls_on(name));
                step
            },
            ProgramBuild::FragmentStage { vertex_shader, fragment_source } => {
                let mut calls: Vec<GlCall> = Vec::new();
                compile_shader(&mut calls, name, fragment_source);
                calls.push(GlCall::CreateProgram);
                let step = BuildStep::Pending {
                    build: ProgramBuild::Linking { vertex_shader, fragment_shader: name },
                    calls,
                };
                assert(step.calls() =~= self@.calls_on(name));
                step
            },
            ProgramBuild::Linking { vertex_shader, fragment_shader } => {
                let mut calls: Vec<GlCall> = Vec::new();
                calls.push(GlCall::AttachShader { program: name, shader: vertex_shader });
                calls.push(GlCall::AttachShader { program: name, shader: fragment_shader });
                calls.push(GlCall::LinkProgram { program: name });
                calls.push(GlCall::DeleteShader { shader: vertex_shader });
                calls.push(GlCall::DeleteShader { shader: fragment_shader });
                let step = BuildStep::Linked { program: ShaderProgram::linked(name), calls };
                assert(step.calls() =~= self@.calls_on(name));
                step
            },
        }
    }
}

/// Compiles a shader from source code: appends to `calls` the two calls
/// that hand `source` to `shader` and compile it.
fn compile_shader(calls: &mut Vec<GlCall>, shader: u32, source: String)
    requires
        is_c_text(source@),
    ensures
        calls_view(final(calls)@) == calls_view(old(calls)@) + compile_calls(shader, source@),
{
    calls.push(GlCall::ShaderSource { shader, source });
    calls.push(GlCall::CompileShader { shader });
    assert(calls_view(calls@) =~= calls_view(old(calls)@) + compile_calls(shader, source@));
}

/// A build always ends, and always alike: whatever three names the context
/// answers, the third step yields the linked program under the third name,
/// with nothing registered, and the calls made on the way are those of
/// `creation_calls`, in that order.
pub proof fn lemma_build_runs_to_completion(
    vertex_source: Seq<char>,
    fragment_source: Seq<char>,
    vertex_shader: u32,
    fragment_shader: u32,
    program: u32,
)
    ensures
        ({
            let first = BuildView::start(vertex_source, fragment_source);
            let second = first.next(vertex_shader);
            let third = second->0.next(fragment_shader);
            &&& second is Some
            &&& third is Some
            &&& third->0.next(program) is None
            &&& seq![CallView::CreateShader { stage: VERTEX_SHADER }] + first.calls_on(
                vertex_shader,
            ) + second->0.calls_on(fragment_shader) + third->0.calls_on(program)
                == creation_calls(
                vertex_source,
                fragment_source,
                vertex_shader,
                fragment_shader,
                program,
            )
        }),
{
    let first = BuildView::start(vertex_source, fragment_source);
    let second = first.next(vertex_shader)->0;
    let third = second.next(fragment_shader)->0;
    assert(seq![CallView::CreateShader { stage: VERTEX_SHADER }] + first.calls_on(vertex_shader)
        + second.calls_on(fragment_shader) + third.calls_on(program) =~= creation_calls(
        vertex_source,
        fragment_source,
        vertex_shader,
        fragment_shader,
        program,
    ));
}

/// Making a program binds nothing: after all its calls every slot holds
/// what it held before.
pub proof fn lemma_build_binds_nothing(
    slots: Bindings,
    vertex_source: Seq<char>,
    fragment_source: Seq<char>,
    vertex_shader: u32,
    fragment_shader: u32,
    program: u32,
)
    ensures
        slots.after_all(
            creation_calls(vertex_source, fragment_source, vertex_shader, fragment_shader, program),
        ) == slots,
{
    let calls = creation_calls(
        vertex_source,
        fragment_source,
        vertex_shader,
        fragment_shader,
        program,
    );
    assert forall|i: int| 0 <= i < calls.len() implies !binds(#[trigger] calls[i]) by {}
    lemma_only_bindings_move_slots(slots, calls);
}

/// Each name that the context answers brings a build one step nearer its
/// end.
pub proof fn lemma_build_makes_progress(build: BuildView, name: u32)
    ensures
        match build.next(name) {
            Some(next) => next.remaining() + 1 == build.remaining(),
            None => build.remaining() == 1,
        },
{
}

} // verus!
