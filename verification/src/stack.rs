//! Activation records and the per-thread call stack.
//!
//! A `JavaFrame` is one in-progress method invocation: an owned locals
//! buffer, an owned operand-stack buffer with a live cursor, shared handles
//! to the defining class, the bytecode and the handler table, the method's
//! identity, and a saved program counter. A `JavaStack` is the ordered
//! sequence of frames of one thread; its top frame is the one executing.

use crate::descriptor::MethodDescriptor;
use crate::descriptor::arg_slot_count;
use crate::descriptor::count_arg_slots;
use crate::descriptor::count_return_slots;
use crate::descriptor::return_slot_count;
use crate::metaspace::ExceptionHandler;
use crate::metaspace::Klass;
use crate::metaspace::Method;
use crate::metaspace::clone_arc;
use crate::slot::PTR_SIZE;
use crate::slot::Slot;
use crate::slot::WideSlot;
use crate::slot::copy_into;
use crate::slot::spliced;
use crate::slot::zero_buffer;
use std::sync::Arc;
use vstd::prelude::*;

verus! {

/// One activation record.
pub struct JavaFrame {
    /// Local-variable slots: `max_locals` slot-widths, indexed in bytes.
    pub locals: Vec<u8>,
    /// Operand-stack storage: `max_stack` slot-widths, never resized.
    pub operands: Vec<u8>,
    /// Byte offset into `operands` of the next free position.
    pub cursor: usize,
    /// The defining class, shared with every frame of its methods.
    pub klass: Arc<Klass>,
    /// The method's bytecode, shared and immutable.
    pub code: Arc<Vec<u8>>,
    /// The method's exception-handler table, opaque to this layer.
    pub exception_handlers: Arc<Vec<ExceptionHandler>>,
    /// The method's identity: name, resolved descriptor, access flags.
    pub current_method: (String, Arc<MethodDescriptor>, u16),
    /// The caller's resume point while this frame is not on top.
    pub pc: usize,
}

impl JavaFrame {
    /// The operand cursor never leaves the declared operand buffer.
    pub open spec fn wf(self) -> bool {
        self.cursor <= self.operands@.len()
    }

    /// Slot-widths an invocation of this frame's method transfers.
    pub open spec fn arg_slots(self) -> int {
        arg_slot_count(self.current_method.1.params@, self.current_method.2)
    }

    /// Slot-widths a return from this frame's method transfers.
    pub open spec fn ret_slots(self) -> int {
        return_slot_count(self.current_method.1.ret)
    }
}

/// The frames `a` and `b` hold the same class, code, handler table and
/// method identity.
pub open spec fn frame_shared_refs_eq(a: JavaFrame, b: JavaFrame) -> bool {
    &&& a.klass == b.klass
    &&& a.code == b.code
    &&& a.exception_handlers == b.exception_handlers
    &&& a.current_method == b.current_method
}

/// `frame_shared_refs_eq`, and the saved program counter agrees too.
pub open spec fn frame_metadata_eq(a: JavaFrame, b: JavaFrame) -> bool {
    frame_shared_refs_eq(a, b) && a.pc == b.pc
}

impl JavaFrame {
    /// Builds the activation record for one invocation of `method`: locals
    /// and operand buffers zeroed at the declared sizes, cursor at the
    /// operand base, saved pc zero. A method without a code attribute
    /// (abstract or interface) has no activation record; such a call must
    /// not reach this layer.
    pub fn new(class: Arc<Klass>, method: Arc<Method>) -> (frame: JavaFrame)
        requires
            method.code_attribute is Some,
        ensures
            frame.wf(),
            frame.locals@.len() == method.code_attribute.unwrap().max_locals * PTR_SIZE,
            forall|i: int| 0 <= i < frame.locals@.len() ==> frame.locals@[i] == 0,
            frame.operands@.len() == method.code_attribute.unwrap().max_stack * PTR_SIZE,
            forall|i: int| 0 <= i < frame.operands@.len() ==> frame.operands@[i] == 0,
            frame.cursor == 0,
            frame.pc == 0,
            frame.klass == class,
            frame.code == method.code_attribute.unwrap().code,
            frame.exception_handlers == method.code_attribute.unwrap().exception_handlers,
            frame.current_method == (method.name, method.descriptor, method.access_flags),
    {
        let attribute = method.code_attribute.as_ref().unwrap();
        let locals = zero_buffer((attribute.max_locals as usize) * PTR_SIZE);
        let operands = zero_buffer((attribute.max_stack as usize) * PTR_SIZE);
        JavaFrame {
            locals,
            operands,
            cursor: 0,
            klass: class,
            code: clone_arc(&attribute.code),
            exception_handlers: clone_arc(&attribute.exception_handlers),
            current_method: (
                method.name.clone(),
                clone_arc(&method.descriptor),
                method.access_flags,
            ),
            pc: 0,
        }
    }

    /// A human-readable snapshot of this frame for diagnostics: owning
    /// class name, method identity, raw locals and operand bytes, the
    /// given pc, and the raw instruction bytes. Diagnostic only — nothing
    /// of the functional contracts may rely on it. Relies on std's
    /// `format!` to render the fields.
    #[verifier::external_body]
    pub fn dump(&self, pc: usize) -> String {
        format!(
            "current class: {:?}\ncurrent method: {:?} {:?}\nlocals: {:02x?}\nstacks: {:02x?}\npc: {:?}\ninstructions: {:02x?}\n",
            self.klass.name,
            self.current_method.0,
            self.current_method.1,
            self.locals,
            self.operands,
            pc,
            &*self.code,
        )
    }
}

/// The ordered frames of one thread; the last one is executing.
pub struct JavaStack {
    pub frames: Vec<JavaFrame>,
    pub max_stack_size: usize,
}

impl JavaStack {
    /// Every frame keeps its cursor inside its operand buffer.
    pub open spec fn wf(self) -> bool {
        forall|i: int| 0 <= i < self.frames@.len() ==> (#[trigger] self.frames@[i]).wf()
    }

    /// How many frames are on the stack.
    pub open spec fn depth(self) -> int {
        self.frames@.len() as int
    }

    /// The currently executing frame.
    pub open spec fn top(self) -> JavaFrame {
        self.frames@.last()
    }

    /// An empty call stack for a fresh thread.
    pub fn new() -> (stack: JavaStack)
        ensures
            stack.wf(),
            stack.depth() == 0,
            stack.max_stack_size == 0,
    {
        JavaStack { frames: Vec::new(), max_stack_size: 0 }
    }

    /// Whether the dispatch loop has an instruction to execute: some frame
    /// is on the stack and `pc` indexes into its code. False on an empty
    /// stack and false whenever `pc` is at or past the end of the top
    /// frame's code.
    pub fn has_next(&self, pc: usize) -> (r: bool)
        ensures
            r == (self.depth() > 0 && pc < self.top().code@.len()),
    {
        if self.frames.len() > 0 {
            pc < self.frames[self.frames.len() - 1].code.len()
        } else {
            false
        }
    }

    /// Whether no frame is on the stack.
    pub fn is_empty(&self) -> (r: bool)
        ensures
            r == (self.depth() == 0),
    {
        self.frames.len() == 0
    }

    /// The instruction byte at `pc` in the top frame's code.
    pub fn get_code(&self, pc: usize) -> (b: u8)
        requires
            self.depth() > 0,
            pc < self.top().code@.len(),
        ensures
            b == self.top().code@[pc as int],
    {
        self.frames[self.frames.len() - 1].code[pc]
    }

    /// Writes one slot-width taken from the front of `v` at the top
    /// frame's cursor and advances the cursor by one slot-width.
    pub fn push(&mut self, v: &[u8])
        requires
            old(self).wf(),
            old(self).depth() > 0,
            v@.len() >= PTR_SIZE,
            old(self).top().cursor + PTR_SIZE <= old(self).top().operands@.len(),
        ensures
            final(self).wf(),
            final(self).max_stack_size == old(self).max_stack_size,
            final(self).frames@ == old(self).frames@.update(
                old(self).depth() - 1,
                final(self).top(),
            ),
            final(self).top().operands@ == spliced(
                old(self).top().operands@,
                old(self).top().cursor as int,
                v@.subrange(0, PTR_SIZE as int),
            ),
            final(self).top().cursor == old(self).top().cursor + PTR_SIZE,
            final(self).top().locals == old(self).top().locals,
            frame_metadata_eq(final(self).top(), old(self).top()),
    {
        let mut top = self.frames.pop().unwrap();
        let oplen: usize = top.operands.len();
        copy_into(&mut top.operands, top.cursor, v, 0, PTR_SIZE);
        proof {
            assert(top.cursor + PTR_SIZE <= oplen);
        }
        top.cursor = top.cursor + PTR_SIZE;
        self.frames.push(top);
        proof {
            assert(self.frames@ =~= old(self).frames@.update(
                old(self).depth() - 1,
                self.frames@.last(),
            ));
        }
    }

    /// Copies `count` slot-widths of locals starting at local `offset`
    /// onto the top of the operand stack, advancing the cursor; `count`
    /// two is the wide form for 64-bit-category locals.
    pub fn load(&mut self, offset: usize, count: usize)
        requires
            old(self).wf(),
            old(self).depth() > 0,
            (offset + count) * PTR_SIZE <= old(self).top().locals@.len(),
            old(self).top().cursor + count * PTR_SIZE <= old(self).top().operands@.len(),
        ensures
            final(self).wf(),
            final(self).max_stack_size == old(self).max_stack_size,
            final(self).frames@ == old(self).frames@.update(
                old(self).depth() - 1,
                final(self).top(),
            ),
            final(self).top().operands@ == spliced(
                old(self).top().operands@,
                old(self).top().cursor as int,
                old(self).top().locals@.subrange(
                    offset * PTR_SIZE,
                    (offset + count) * PTR_SIZE,
                ),
            ),
            final(self).top().cursor == old(self).top().cursor + count * PTR_SIZE,
            final(self).top().locals == old(self).top().locals,
            frame_metadata_eq(final(self).top(), old(self).top()),
    {
        let mut top = self.frames.pop().unwrap();
        let oplen: usize = top.operands.len();
        let loclen: usize = top.locals.len();
        proof {
            assert((offset + count) * PTR_SIZE <= loclen);
        }
        let bytes: usize = count * PTR_SIZE;
        copy_into(&mut top.operands, top.cursor, top.locals.as_slice(), offset * PTR_SIZE, bytes);
        proof {
            assert(top.cursor + bytes <= oplen);
        }
        top.cursor = top.cursor + bytes;
        self.frames.push(top);
        proof {
            assert(self.frames@ =~= old(self).frames@.update(
                old(self).depth() - 1,
                self.frames@.last(),
            ));
        }
    }

    /// The inverse of `load`: removes `count` slot-widths from the top of
    /// the operand stack and writes them into locals starting at `offset`.
    pub fn store(&mut self, offset: usize, count: usize)
        requires
            old(self).wf(),
            old(self).depth() > 0,
            count * PTR_SIZE <= old(self).top().cursor,
            (offset + count) * PTR_SIZE <= old(self).top().locals@.len(),
        ensures
            final(self).wf(),
            final(self).max_stack_size == old(self).max_stack_size,
            final(self).frames@ == old(self).frames@.update(
                old(self).depth() - 1,
                final(self).top(),
            ),
            final(self).top().locals@ == spliced(
                old(self).top().locals@,
                offset * PTR_SIZE,
                old(self).top().operands@.subrange(
                    old(self).top().cursor - count * PTR_SIZE,
                    old(self).top().cursor as int,
                ),
            ),
            final(self).top().cursor == old(self).top().cursor - count * PTR_SIZE,
            final(self).top().operands == old(self).top().operands,
            frame_metadata_eq(final(self).top(), old(self).top()),
    {
        let mut top = self.frames.pop().unwrap();
        let loclen: usize = top.locals.len();
        proof {
            assert((offset + count) * PTR_SIZE <= loclen);
        }
        let bytes: usize = count * PTR_SIZE;
        top.cursor = top.cursor - bytes;
        copy_into(&mut top.locals, offset * PTR_SIZE, top.operands.as_slice(), top.cursor, bytes);
        self.frames.push(top);
        proof {
            assert(self.frames@ =~= old(self).frames@.update(
                old(self).depth() - 1,
                self.frames@.last(),
            ));
        }
    }

    /// Reads the single-width local at `offset`, without touching the
    /// operand stack.
    pub fn get(&self, offset: usize) -> (v: Slot)
        requires
            self.depth() > 0,
            (offset + 1) * PTR_SIZE <= self.top().locals@.len(),
        ensures
            v@ == self.top().locals@.subrange(offset * PTR_SIZE, (offset + 1) * PTR_SIZE),
    {
        let frame = &self.frames[self.frames.len() - 1];
        let loclen: usize = frame.locals.len();
        proof {
            assert((offset + 1) * PTR_SIZE <= loclen);
        }
        let base = offset * PTR_SIZE;
        let v: Slot = [
            frame.locals[base],
            frame.locals[base + 1],
            frame.locals[base + 2],
            frame.locals[base + 3],
        ];
        proof {
            assert(v@ =~= self.top().locals@.subrange(offset * PTR_SIZE, (offset + 1) * PTR_SIZE));
        }
        v
    }

    /// Reads the double-width local starting at `offset`, as one unit.
    pub fn get_w(&self, offset: usize) -> (v: WideSlot)
        requires
            self.depth() > 0,
            (offset + 2) * PTR_SIZE <= self.top().locals@.len(),
        ensures
            v@ == self.top().locals@.subrange(offset * PTR_SIZE, (offset + 2) * PTR_SIZE),
    {
        let frame = &self.frames[self.frames.len() - 1];
        let loclen: usize = frame.locals.len();
        proof {
            assert((offset + 2) * PTR_SIZE <= loclen);
        }
        let base = offset * PTR_SIZE;
        let v: WideSlot = [
            frame.locals[base],
            frame.locals[base + 1],
            frame.locals[base + 2],
            frame.locals[base + 3],
            frame.locals[base + 4],
            frame.locals[base + 5],
            frame.locals[base + 6],
            frame.locals[base + 7],
        ];
        proof {
            assert(v@ =~= self.top().locals@.subrange(offset * PTR_SIZE, (offset + 2) * PTR_SIZE));
        }
        v
    }

    /// Writes the single-width local at `offset`, without touching the
    /// operand stack.
    pub fn set(&mut self, offset: usize, v: Slot)
        requires
            old(self).wf(),
            old(self).depth() > 0,
            (offset + 1) * PTR_SIZE <= old(self).top().locals@.len(),
        ensures
            final(self).wf(),
            final(self).max_stack_size == old(self).max_stack_size,
            final(self).frames@ == old(self).frames@.update(
                old(self).depth() - 1,
                final(self).top(),
            ),
            final(self).top().locals@ == spliced(old(self).top().locals@, offset * PTR_SIZE, v@),
            final(self).top().operands == old(self).top().operands,
            final(self).top().cursor == old(self).top().cursor,
            frame_metadata_eq(final(self).top(), old(self).top()),
    {
        let mut top = self.frames.pop().unwrap();
        let loclen: usize = top.locals.len();
        proof {
            assert((offset + 1) * PTR_SIZE <= loclen);
        }
        copy_into(&mut top.locals, offset * PTR_SIZE, v.as_slice(), 0, PTR_SIZE);
        self.frames.push(top);
        proof {
            assert(v@.subrange(0, PTR_SIZE as int) =~= v@);
            assert(self.frames@ =~= old(self).frames@.update(
                old(self).depth() - 1,
                self.frames@.last(),
            ));
        }
    }

    /// Writes the double-width local starting at `offset`, as one unit.
    pub fn set_w(&mut self, offset: usize, v: WideSlot)
        requires
            old(self).wf(),
            old(self).depth() > 0,
            (offset + 2) * PTR_SIZE <= old(self).top().locals@.len(),
        ensures
            final(self).wf(),
            final(self).max_stack_size == old(self).max_stack_size,
            final(self).frames@ == old(self).frames@.update(
                old(self).depth() - 1,
                final(self).top(),
            ),
            final(self).top().locals@ == spliced(old(self).top().locals@, offset * PTR_SIZE, v@),
            final(self).top().operands == old(self).top().operands,
            final(self).top().cursor == old(self).top().cursor,
            frame_metadata_eq(final(self).top(), old(self).top()),
    {
        let mut top = self.frames.pop().unwrap();
        let loclen: usize = top.locals.len();
        proof {
            assert((offset + 2) * PTR_SIZE <= loclen);
        }
        copy_into(&mut top.locals, offset * PTR_SIZE, v.as_slice(), 0, 2 * PTR_SIZE);
        self.frames.push(top);
        proof {
            assert(v@.subrange(0, 2 * PTR_SIZE as int) =~= v@);
            assert(self.frames@ =~= old(self).frames@.update(
                old(self).depth() - 1,
                self.frames@.last(),
            ));
        }
    }

    /// Retreats the top frame's cursor by one slot-width and returns the
    /// slot now below it.
    pub fn pop(&mut self) -> (v: Slot)
        requires
            old(self).wf(),
            old(self).depth() > 0,
            old(self).top().cursor >= PTR_SIZE,
        ensures
            final(self).wf(),
            final(self).max_stack_size == old(self).max_stack_size,
            final(self).frames@ == old(self).frames@.update(
                old(self).depth() - 1,
                final(self).top(),
            ),
            v@ == old(self).top().operands@.subrange(
                old(self).top().cursor - PTR_SIZE,
                old(self).top().cursor as int,
            ),
            final(self).top().cursor == old(self).top().cursor - PTR_SIZE,
            final(self).top().operands == old(self).top().operands,
            final(self).top().locals == old(self).top().locals,
            frame_metadata_eq(final(self).top(), old(self).top()),
    {
        let mut top = self.frames.pop().unwrap();
        top.cursor = top.cursor - PTR_SIZE;
        let v: Slot = [
            top.operands[top.cursor],
            top.operands[top.cursor + 1],
            top.operands[top.cursor + 2],
            top.operands[top.cursor + 3],
        ];
        self.frames.push(top);
        proof {
            assert(self.frames@ =~= old(self).frames@.update(
                old(self).depth() - 1,
                self.frames@.last(),
            ));
            assert(v@ =~= old(self).top().operands@.subrange(
                old(self).top().cursor - PTR_SIZE,
                old(self).top().cursor as int,
            ));
        }
        v
    }

    /// Retreats the top frame's cursor by two slot-widths and returns the
    /// double-width value now below it, as one unit.
    pub fn pop_w(&mut self) -> (v: WideSlot)
        requires
            old(self).wf(),
            old(self).depth() > 0,
            old(self).top().cursor >= 2 * PTR_SIZE,
        ensures
            final(self).wf(),
            final(self).max_stack_size == old(self).max_stack_size,
            final(self).frames@ == old(self).frames@.update(
                old(self).depth() - 1,
                final(self).top(),
            ),
            v@ == old(self).top().operands@.subrange(
                old(self).top().cursor - 2 * PTR_SIZE,
                old(self).top().cursor as int,
            ),
            final(self).top().cursor == old(self).top().cursor - 2 * PTR_SIZE,
            final(self).top().operands == old(self).top().operands,
            final(self).top().locals == old(self).top().locals,
            frame_metadata_eq(final(self).top(), old(self).top()),
    {
        let mut top = self.frames.pop().unwrap();
        top.cursor = top.cursor - 2 * PTR_SIZE;
        let v: WideSlot = [
            top.operands[top.cursor],
            top.operands[top.cursor + 1],
            top.operands[top.cursor + 2],
            top.operands[top.cursor + 3],
            top.operands[top.cursor + 4],
            top.operands[top.cursor + 5],
            top.operands[top.cursor + 6],
            top.operands[top.cursor + 7],
        ];
        self.frames.push(top);
        proof {
            assert(self.frames@ =~= old(self).frames@.update(
                old(self).depth() - 1,
                self.frames@.last(),
            ));
            assert(v@ =~= old(self).top().operands@.subrange(
                old(self).top().cursor - 2 * PTR_SIZE,
                old(self).top().cursor as int,
            ));
        }
        v
    }

    /// Pushes `frame` as the new executing frame. For a nested call (the
    /// stack is non-empty) the callee's own descriptor decides how many
    /// slot-widths of arguments move: they leave the caller's operand
    /// stack and land, byte for byte and in the order they were pushed,
    /// in the callee's locals starting at local zero — receiver first for
    /// an instance method, then the parameters left to right — and the
    /// callee's saved pc becomes `return_pc`, the caller's resume point.
    /// For the thread's root frame nothing is transferred and `return_pc`
    /// is ignored: there is no caller to resume.
    pub fn invoke(&mut self, frame: JavaFrame, return_pc: usize)
        requires
            old(self).wf(),
            frame.wf(),
            old(self).depth() > 0 ==> frame.arg_slots() * PTR_SIZE <= old(self).top().cursor,
            old(self).depth() > 0 ==> frame.arg_slots() * PTR_SIZE <= frame.locals@.len(),
        ensures
            final(self).wf(),
            final(self).max_stack_size == old(self).max_stack_size,
            final(self).depth() == old(self).depth() + 1,
            forall|i: int|
                0 <= i < old(self).depth() - 1 ==> final(self).frames@[i] == old(
                    self,
                ).frames@[i],
            old(self).depth() == 0 ==> final(self).top() == frame,
            old(self).depth() > 0 ==> ({
                let k = frame.arg_slots();
                let caller0 = old(self).top();
                let caller1 = final(self).frames@[old(self).depth() - 1];
                let moved = caller0.operands@.subrange(
                    caller0.cursor - k * PTR_SIZE,
                    caller0.cursor as int,
                );
                &&& caller1.cursor == caller0.cursor - k * PTR_SIZE
                &&& caller1.operands == caller0.operands
                &&& caller1.locals == caller0.locals
                &&& frame_metadata_eq(caller1, caller0)
                &&& final(self).top().locals@ == spliced(frame.locals@, 0, moved)
                &&& final(self).top().operands == frame.operands
                &&& final(self).top().cursor == frame.cursor
                &&& final(self).top().pc == return_pc
                &&& frame_shared_refs_eq(final(self).top(), frame)
            }),
    {
        let mut frame = frame;
        if self.frames.len() > 0 {
            proof {
                crate::descriptor::lemma_params_nonneg(frame.current_method.1.params@);
            }
            let slots = count_arg_slots(&frame.current_method.1, frame.current_method.2);
            let bytes: usize = slots * PTR_SIZE;
            let mut caller = self.frames.pop().unwrap();
            caller.cursor = caller.cursor - bytes;
            copy_into(&mut frame.locals, 0, caller.operands.as_slice(), caller.cursor, bytes);
            frame.pc = return_pc;
            self.frames.push(caller);
        }
        self.frames.push(frame);
    }

    /// Removes the executing frame and returns its saved pc, the caller's
    /// resume point that the matching `invoke` stored. When a caller
    /// remains, the popped frame's own return category decides how many
    /// slot-widths move from the top of the popped frame's operand stack
    /// onto the top of the caller's operand stack, advancing the caller's
    /// cursor; a void return moves nothing and leaves the caller's
    /// operand stack as it was.
    pub fn backtrack(&mut self) -> (resume_pc: usize)
        requires
            old(self).wf(),
            old(self).depth() > 0,
            old(self).depth() > 1 ==> old(self).top().ret_slots() * PTR_SIZE <= old(
                self,
            ).top().cursor,
            old(self).depth() > 1 ==> old(self).frames@[old(self).depth() - 2].cursor + old(
                self,
            ).top().ret_slots() * PTR_SIZE <= old(self).frames@[old(
                self,
            ).depth() - 2].operands@.len(),
        ensures
            final(self).wf(),
            final(self).max_stack_size == old(self).max_stack_size,
            final(self).depth() == old(self).depth() - 1,
            resume_pc == old(self).top().pc,
            forall|i: int|
                0 <= i < old(self).depth() - 2 ==> final(self).frames@[i] == old(
                    self,
                ).frames@[i],
            old(self).depth() > 1 ==> ({
                let callee = old(self).top();
                let caller0 = old(self).frames@[old(self).depth() - 2];
                let k = callee.ret_slots();
                let moved = callee.operands@.subrange(
                    callee.cursor - k * PTR_SIZE,
                    callee.cursor as int,
                );
                &&& final(self).top().operands@ == spliced(
                    caller0.operands@,
                    caller0.cursor as int,
                    moved,
                )
                &&& final(self).top().cursor == caller0.cursor + k * PTR_SIZE
                &&& final(self).top().locals == caller0.locals
                &&& frame_metadata_eq(final(self).top(), caller0)
            }),
    {
        let frame = self.frames.pop().unwrap();
        if self.frames.len() > 0 {
            let slots = count_return_slots(frame.current_method.1.ret);
            let bytes: usize = slots * PTR_SIZE;
            let mut caller = self.frames.pop().unwrap();
            let oplen: usize = caller.operands.len();
            let src = frame.cursor - bytes;
            copy_into(&mut caller.operands, caller.cursor, frame.operands.as_slice(), src, bytes);
            proof {
                assert(caller.cursor + bytes <= oplen);
            }
            caller.cursor = caller.cursor + bytes;
            self.frames.push(caller);
        }
        frame.pc
    }
}

} // verus!

