use crate::graphics::call::{CallView, GlCall, NO_OBJECT};
use std::collections::HashMap;
use vstd::prelude::*;

verus! {

broadcast use vstd::std_specs::hash::group_hash_axioms;

/// The binding slots of a graphics context: one for the vertex array, one for
/// the shader program, and one for each buffer target.
pub struct Bindings {
    pub vertex_array: u32,
    pub program: u32,
    /// The buffer bound to each target; defined on every target.
    pub buffers: Map<u32, u32>,
}

impl Bindings {
    /// The slots of a context on which nothing was bound yet.
    pub open spec fn none() -> Bindings {
        Bindings {
            vertex_array: NO_OBJECT,
            program: NO_OBJECT,
            buffers: Map::total(|target: u32| NO_OBJECT),
        }
    }

    /// The slots after `call`: a binding call moves its own slot and leaves
    /// the others, every other call leaves them all.
    pub open spec fn after(self, call: CallView) -> Bindings {
        match call {
            CallView::BindVertexArray { array } => Bindings { vertex_array: array, ..self },
            CallView::BindBuffer { target, buffer } => Bindings {
                buffers: self.buffers.insert(target, buffer),
                ..self
            },
            CallView::UseProgram { program } => Bindings { program, ..self },
            _ => self,
        }
    }

    /// The slots after each of `calls` in turn.
    pub open spec fn after_all(self, calls: Seq<CallView>) -> Bindings
        decreases calls.len(),
    {
        if calls.len() == 0 {
            self
        } else {
            self.after_all(calls.drop_last()).after(calls.last())
        }
    }
}

/// The bindings that were last asked of a graphics context through this crate.
///
/// It is a record of the calls that the handles returned, not a reading of the
/// context: it is right as long as every returned call is made, in order, and
/// nothing else binds.
pub struct Context {
    vertex_array: u32,
    program: u32,
    buffers: HashMap<u32, u32>,
}

impl View for Context {
    type V = Bindings;

    closed spec fn view(&self) -> Bindings {
        Bindings {
            vertex_array: self.vertex_array,
            program: self.program,
            buffers: Map::total(
                |target: u32|
                    if self.buffers@.contains_key(target) {
                        self.buffers@[target]
                    } else {
                        NO_OBJECT
                    },
            ),
        }
    }
}

impl Context {
    /// A context on which nothing is bound.
    pub fn new() -> (context: Context)
        ensures
            context@ == Bindings::none(),
    {
        let context = Context { vertex_array: NO_OBJECT, program: NO_OBJECT, buffers: HashMap::new() };
        assert(context@.buffers =~= Bindings::none().buffers);
        context
    }

    /// The active vertex array, `NO_OBJECT` where there is none.
    pub fn vertex_array(&self) -> (array: u32)
        ensures
            array == self@.vertex_array,
    {
        self.vertex_array
    }

    /// The active shader program, `NO_OBJECT` where there is none.
    pub fn program(&self) -> (program: u32)
        ensures
            program == self@.program,
    {
        self.program
    }

    /// The buffer bound to `target`, `NO_OBJECT` where there is none.
    pub fn buffer(&self, target: u32) -> (buffer: u32)
        ensures
            buffer == self@.buffers[target],
    {
        match self.buffers.get(&target) {
            Some(buffer) => *buffer,
            None => NO_OBJECT,
        }
    }

    /// Takes note of `call`, which is about to be made on the context.
    pub fn record(&mut self, call: &GlCall)
        ensures
            final(self)@ == old(self)@.after(call@),
    {
        match call {
            GlCall::BindVertexArray { array } => {
                self.vertex_array = *array;
            },
            GlCall::BindBuffer { target, buffer } => {
                self.buffers.insert(*target, *buffer);
                assert(self@.buffers =~= old(self)@.buffers.insert(*target, *buffer));
            },
            GlCall::UseProgram { program } => {
                self.program = *program;
            },
            _ => {},
        }
    }
}

/// Whether `call` moves a binding slot.
pub open spec fn binds(call: CallView) -> bool {
    call is BindVertexArray || call is BindBuffer || call is UseProgram
}

/// Calls that bind nothing leave every slot as it was, however many they are.
pub proof fn lemma_only_bindings_move_slots(slots: Bindings, calls: Seq<CallView>)
    requires
        forall|i: int| 0 <= i < calls.len() ==> !binds(#[trigger] calls[i]),
    ensures
        slots.after_all(calls) == slots,
    decreases calls.len(),
{
    if calls.len() > 0 {
        assert(!binds(calls[calls.len() - 1]));
        lemma_only_bindings_move_slots(slots, calls.drop_last());
    }
}

/// A binding call overwrites its slot: of two calls on the same slot in a row
/// only the second one shows.
pub proof fn lemma_last_binding_wins(slots: Bindings, first: CallView, second: CallView)
    requires
        (first is BindVertexArray && second is BindVertexArray) || (first is UseProgram
            && second is UseProgram) || (first is BindBuffer && second is BindBuffer
            && first->BindBuffer_target == second->BindBuffer_target),
    ensures
        slots.after(first).after(second) == slots.after(second),
{
    assert(slots.after(first).after(second).buffers =~= slots.after(second).buffers);
}

/// Binding calls on different slots do not disturb one another: the order in
/// which they are made does not show.
pub proof fn lemma_slots_are_independent(slots: Bindings, first: CallView, second: CallView)
    requires
        !(first is BindVertexArray && second is BindVertexArray),
        !(first is UseProgram && second is UseProgram),
        !(first is BindBuffer && second is BindBuffer && first->BindBuffer_target
            == second->BindBuffer_target),
    ensures
        slots.after(first).after(second) == slots.after(second).after(first),
{
    assert(slots.after(first).after(second).buffers =~= slots.after(second).after(
        first,
    ).buffers);
}

} // verus!
