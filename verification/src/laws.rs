//! The cross-operation laws of the call stack, stated over the buffer
//! model that the operation contracts use: an operand stack is a byte
//! buffer with a cursor, `push`-style writes are `spliced` blocks at the
//! cursor, `pop`-style reads are `subrange`s below it.

use crate::descriptor::ParamCategory;
use crate::descriptor::ReturnCategory;
use crate::descriptor::arg_slot_count;
use crate::descriptor::is_static;
use crate::descriptor::params_slot_count;
use crate::descriptor::return_slot_count;
use crate::slot::PTR_SIZE;
use crate::slot::lemma_splice_self;
use crate::slot::lemma_spliced_facts;
use crate::slot::lemma_write_read_roundtrip;
use crate::slot::spliced;
use vstd::prelude::*;

verus! {

/// Law: after `push(v)` wrote one slot-width at the cursor and advanced
/// it, `pop` reads back exactly `v` and retreats the cursor to where it
/// was, so the operand depth is unchanged by the pair.
pub proof fn lemma_push_pop_roundtrip(operands: Seq<u8>, cursor: int, v: Seq<u8>)
    requires
        0 <= cursor,
        v.len() == PTR_SIZE,
        cursor + PTR_SIZE <= operands.len(),
    ensures
        ({
            let after = spliced(operands, cursor, v);
            let advanced = cursor + PTR_SIZE;
            after.subrange(advanced - PTR_SIZE, advanced) == v
        }),
{
    lemma_write_read_roundtrip(operands, cursor, v);
}

/// Law: a double-width value written as two consecutive slot-width writes
/// through the shared buffer comes back whole from `pop_w`: the eight
/// bytes return in the order they were written, first half then second,
/// and the cursor retreats to where it started.
pub proof fn lemma_wide_write_pop_w_roundtrip(
    operands: Seq<u8>,
    cursor: int,
    first: Seq<u8>,
    second: Seq<u8>,
)
    requires
        0 <= cursor,
        first.len() == PTR_SIZE,
        second.len() == PTR_SIZE,
        cursor + 2 * PTR_SIZE <= operands.len(),
    ensures
        ({
            let once = spliced(operands, cursor, first);
            let twice = spliced(once, cursor + PTR_SIZE, second);
            twice.subrange(cursor, cursor + 2 * PTR_SIZE) == first + second
        }),
{
    let once = spliced(operands, cursor, first);
    let twice = spliced(once, cursor + PTR_SIZE, second);
    lemma_spliced_facts(operands, cursor, first);
    lemma_spliced_facts(once, cursor + PTR_SIZE, second);
    assert(twice.subrange(cursor, cursor + 2 * PTR_SIZE) =~= first + second);
}

/// Law: after `store(offset, count)` removed `count` slot-widths from the
/// operand-stack top into locals at `offset`, a `load(offset, count)`
/// puts exactly those bytes back on the operand stack, in the same order,
/// and the cursor returns to where it was before the pair.
pub proof fn lemma_store_load_roundtrip(
    locals: Seq<u8>,
    operands: Seq<u8>,
    cursor: int,
    offset: int,
    count: int,
)
    requires
        0 <= offset,
        0 <= count,
        (offset + count) * PTR_SIZE <= locals.len(),
        count * PTR_SIZE <= cursor <= operands.len(),
    ensures
        ({
            let taken = operands.subrange(cursor - count * PTR_SIZE, cursor);
            let stored_locals = spliced(locals, offset * PTR_SIZE, taken);
            let retreated = cursor - count * PTR_SIZE;
            let reloaded = stored_locals.subrange(offset * PTR_SIZE, (offset + count) * PTR_SIZE);
            &&& reloaded == taken
            &&& spliced(operands, retreated, reloaded) == operands
            &&& retreated + count * PTR_SIZE == cursor
        }),
{
    let taken = operands.subrange(cursor - count * PTR_SIZE, cursor);
    lemma_write_read_roundtrip(locals, offset * PTR_SIZE, taken);
    lemma_splice_self(operands, cursor - count * PTR_SIZE, count * PTR_SIZE);
}

/// Law: invoking a static method whose descriptor has one single-width
/// parameter and void return transfers exactly one slot-width, and that
/// slot moves from the caller's operand-stack top into the callee's
/// local zero.
pub proof fn lemma_invoke_static_one_word(
    operands: Seq<u8>,
    cursor: int,
    locals: Seq<u8>,
    access_flags: u16,
)
    requires
        is_static(access_flags),
        PTR_SIZE <= cursor <= operands.len(),
        PTR_SIZE as int <= locals.len(),
    ensures
        arg_slot_count(seq![ParamCategory::Single], access_flags) == 1,
        ({
            let moved = operands.subrange(cursor - PTR_SIZE, cursor);
            spliced(locals, 0, moved).subrange(0, PTR_SIZE as int) == moved
        }),
{
    let single = seq![ParamCategory::Single];
    assert(single.drop_last() =~= Seq::<ParamCategory>::empty());
    assert(params_slot_count(Seq::<ParamCategory>::empty()) == 0);
    assert(single.last() == ParamCategory::Single);
    assert(params_slot_count(single) == 1);
    lemma_write_read_roundtrip(locals, 0, operands.subrange(cursor - PTR_SIZE, cursor));
}

/// Law: invoking an instance method with one single-width parameter
/// transfers exactly two slot-widths: the receiver, pushed first, lands
/// in local zero, and the argument in local one — push order preserved.
pub proof fn lemma_invoke_instance_one_word(
    operands: Seq<u8>,
    cursor: int,
    locals: Seq<u8>,
    access_flags: u16,
)
    requires
        !is_static(access_flags),
        2 * PTR_SIZE <= cursor <= operands.len(),
        2 * PTR_SIZE as int <= locals.len(),
    ensures
        arg_slot_count(seq![ParamCategory::Single], access_flags) == 2,
        ({
            let moved = operands.subrange(cursor - 2 * PTR_SIZE, cursor);
            let receiver = operands.subrange(cursor - 2 * PTR_SIZE, cursor - PTR_SIZE);
            let argument = operands.subrange(cursor - PTR_SIZE, cursor);
            &&& spliced(locals, 0, moved).subrange(0, PTR_SIZE as int) == receiver
            &&& spliced(locals, 0, moved).subrange(PTR_SIZE as int, 2 * PTR_SIZE) == argument
        }),
{
    let single = seq![ParamCategory::Single];
    assert(single.drop_last() =~= Seq::<ParamCategory>::empty());
    assert(params_slot_count(Seq::<ParamCategory>::empty()) == 0);
    assert(single.last() == ParamCategory::Single);
    assert(params_slot_count(single) == 1);
    let moved = operands.subrange(cursor - 2 * PTR_SIZE, cursor);
    lemma_spliced_facts(locals, 0, moved);
    assert(spliced(locals, 0, moved).subrange(0, PTR_SIZE as int) =~= operands.subrange(
        cursor - 2 * PTR_SIZE,
        cursor - PTR_SIZE,
    ));
    assert(spliced(locals, 0, moved).subrange(PTR_SIZE as int, 2 * PTR_SIZE) =~= operands.subrange(
        cursor - PTR_SIZE,
        cursor,
    ));
}

/// Law: returning from a method with a single-width return category
/// transfers exactly one slot-width from the popped frame's operand-stack
/// top onto the caller's operand-stack top, advancing the caller's cursor
/// by one slot-width; `backtrack`'s own contract hands back the pc that
/// the matching `invoke` saved in the popped frame.
pub proof fn lemma_return_one_word(
    callee_operands: Seq<u8>,
    callee_cursor: int,
    caller_operands: Seq<u8>,
    caller_cursor: int,
)
    requires
        PTR_SIZE <= callee_cursor <= callee_operands.len(),
        0 <= caller_cursor,
        caller_cursor + PTR_SIZE <= caller_operands.len(),
    ensures
        return_slot_count(ReturnCategory::Single) == 1,
        ({
            let moved = callee_operands.subrange(callee_cursor - PTR_SIZE, callee_cursor);
            let after = spliced(caller_operands, caller_cursor, moved);
            after.subrange(caller_cursor, caller_cursor + PTR_SIZE) == moved
        }),
{
    lemma_write_read_roundtrip(
        caller_operands,
        caller_cursor,
        callee_operands.subrange(callee_cursor - PTR_SIZE, callee_cursor),
    );
}

/// Law: returning from a method with void return category transfers no
/// slots and leaves the caller's operand stack — bytes and cursor — as
/// it was.
pub proof fn lemma_return_void(caller_operands: Seq<u8>, caller_cursor: int)
    requires
        0 <= caller_cursor <= caller_operands.len(),
    ensures
        return_slot_count(ReturnCategory::Void) == 0,
        spliced(caller_operands, caller_cursor, Seq::<u8>::empty()) == caller_operands,
{
    lemma_splice_self(caller_operands, caller_cursor, 0);
    assert(caller_operands.subrange(caller_cursor, caller_cursor) =~= Seq::<u8>::empty());
}

} // verus!
