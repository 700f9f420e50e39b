//! Carrying the fields of the Thread Environment Block that belong to a stack between
//! the frames on a stack, the words below its base, and the [`Stack`] itself.
use crate::frames::{
    teb_at, FRAME_SIZE, GUARANTEED_STACK_BYTES_OFFSET, STACK_LIMIT_OFFSET,
};
use crate::memory::{mapped, put_word, word_at, Memory};
use crate::stack::{
    adjusted_stack_base, stack_top, Stack, StackPointer, StackTebFields, STACK_ALIGNMENT,
};
use vstd::prelude::*;

verus! {

/// Memory with the two changeable fields just below the base of a stack.
pub open spec fn put_mutable_fields(
    m: Map<u64, u8>,
    stack_base: int,
    stack_limit: u64,
    guaranteed_stack_bytes: u64,
) -> Map<u64, u8> {
    put_word(
        put_word(m, stack_base - STACK_LIMIT_OFFSET, stack_limit),
        stack_base - GUARANTEED_STACK_BYTES_OFFSET,
        guaranteed_stack_bytes,
    )
}

/// The words below the base of a stack that hold the two changeable fields can be
/// accessed.
pub open spec fn mutable_fields_mapped(m: Map<u64, u8>, stack_base: int) -> bool {
    mapped(m, stack_base - GUARANTEED_STACK_BYTES_OFFSET, 16)
}

/// `fields` with the two changeable ones taken from below the base of a stack.
pub open spec fn with_mutable_fields(
    fields: StackTebFields,
    m: Map<u64, u8>,
    stack_base: int,
) -> StackTebFields {
    StackTebFields {
        StackLimit: word_at(m, stack_base - STACK_LIMIT_OFFSET),
        GuaranteedStackBytes: word_at(m, stack_base - GUARANTEED_STACK_BYTES_OFFSET),
        ..fields
    }
}

/// Memory once the two changeable fields are copied from the frame of a suspended
/// coroutine at `top` to just below the base of its stack.
pub open spec fn mutable_fields_from_frame(m: Map<u64, u8>, stack_base: int, top: int) -> Map<
    u64,
    u8,
> {
    let m = put_word(m, stack_base - STACK_LIMIT_OFFSET, word_at(m, top + 40));
    put_word(m, stack_base - GUARANTEED_STACK_BYTES_OFFSET, word_at(m, top + 56))
}

/// The two changeable fields can be copied from the frame at `top`.
pub open spec fn can_copy_fields(m: Map<u64, u8>, stack_base: int, top: int) -> bool {
    &&& mutable_fields_mapped(m, stack_base)
    &&& mapped(m, top + 40, 8)
    &&& mapped(m, top + 56, 8)
}

/// Copies the changeable fields of the environment block from the suspended state of a
/// coroutine to the base of its stack, from where [`update_stack_teb_fields`] takes
/// them.
///
/// The coroutine must be suspended, and not in its initial state.
pub fn reset_teb_fields_from_suspended(
    memory: &mut Memory,
    stack_base: StackPointer,
    stack_ptr: StackPointer,
)
    requires
        can_copy_fields(old(memory)@, stack_base@ as int, stack_ptr@ as int),
    ensures
        final(memory)@ == mutable_fields_from_frame(
            old(memory)@,
            stack_base@ as int,
            stack_ptr@ as int,
        ),
        final(memory)@.dom() == old(memory)@.dom(),
{
    let base = stack_base.get();
    let stack = stack_ptr.get();
    let stack_limit = memory.load(stack + 40);
    memory.store(base - STACK_LIMIT_OFFSET, stack_limit);
    let guaranteed_stack_bytes = memory.load(stack + 56);
    memory.store(base - GUARANTEED_STACK_BYTES_OFFSET, guaranteed_stack_bytes);
}

/// Drops the initial object of a coroutine that was never started, by calling
/// `drop_fn` with the address of the object, and copies the changeable fields of the
/// environment block to the base of the stack, from where [`update_stack_teb_fields`]
/// takes them.
pub fn drop_initial_obj<D: FnOnce(&mut Memory, u64)>(
    memory: &mut Memory,
    stack_base: StackPointer,
    stack_ptr: StackPointer,
    drop_fn: D,
)
    requires
        stack_ptr@ + FRAME_SIZE <= u64::MAX,
        forall|m: &mut Memory, ptr: u64|
            m@ == old(memory)@ && ptr == stack_ptr@ + FRAME_SIZE
                ==> #[trigger] call_requires(drop_fn, (m, ptr)),
        forall|m: &mut Memory, ptr: u64|
            m@ == old(memory)@ && ptr == stack_ptr@ + FRAME_SIZE
                && #[trigger] call_ensures(drop_fn, (m, ptr), ()) ==> can_copy_fields(
                final(m)@,
                stack_base@ as int,
                stack_ptr@ as int,
            ),
    ensures
        exists|m: &mut Memory, ptr: u64|
            {
                &&& m@ == old(memory)@
                &&& ptr == stack_ptr@ + FRAME_SIZE
                &&& #[trigger] call_ensures(drop_fn, (m, ptr), ())
                &&& final(memory)@ == mutable_fields_from_frame(
                    final(m)@,
                    stack_base@ as int,
                    stack_ptr@ as int,
                )
            },
{
    let ptr = stack_ptr.get() + FRAME_SIZE;
    drop_fn(memory, ptr);
    // Also copy the TEB fields to the base of the stack so that they can be retrieved
    // by update_stack_teb_fields().
    reset_teb_fields_from_suspended(memory, stack_base, stack_ptr);
}

/// Takes the changeable fields of the environment block over into a stack that has
/// finished running a coroutine, so that it can be reused for another one.
pub fn update_stack_teb_fields<S: Stack>(memory: &Memory, stack: &mut S)
    requires
        old(stack).spec_base() >= STACK_ALIGNMENT,
        mutable_fields_mapped(memory@, stack_top(*old(stack))),
    ensures
        final(stack).spec_base() == old(stack).spec_base(),
        final(stack).spec_teb_fields() == with_mutable_fields(
            old(stack).spec_teb_fields(),
            memory@,
            stack_top(*old(stack)),
        ),
{
    let base = adjusted_stack_base(stack).get();
    let stack_limit = memory.load(base - STACK_LIMIT_OFFSET);
    let guaranteed_stack_bytes = memory.load(base - GUARANTEED_STACK_BYTES_OFFSET);
    stack.update_teb_fields(stack_limit, guaranteed_stack_bytes);
}

/// The fields saved in the parent frame at `frame` that belong to the parent stack.
pub open spec fn parent_teb_fields(m: Map<u64, u8>, frame: int) -> StackTebFields {
    let teb = teb_at(m, frame + 24);
    StackTebFields {
        StackBase: teb.stack_base,
        StackLimit: teb.stack_limit,
        DeallocationStack: teb.deallocation_stack,
        GuaranteedStackBytes: teb.guaranteed_stack_bytes,
    }
}

/// Reads the fields of the environment block saved on the parent stack.
pub fn read_parent_stack_teb_fields(memory: &Memory, stack_ptr: StackPointer) -> (r: StackTebFields)
    requires
        mapped(memory@, stack_ptr@ + 32, 32),
    ensures
        r == parent_teb_fields(memory@, stack_ptr@ as int),
{
    let stack_ptr = stack_ptr.get();
    StackTebFields {
        StackBase: memory.load(stack_ptr + 32),
        StackLimit: memory.load(stack_ptr + 40),
        DeallocationStack: memory.load(stack_ptr + 48),
        GuaranteedStackBytes: memory.load(stack_ptr + 56),
    }
}

/// Memory with the two changeable fields replaced in the parent frame at `frame`.
pub open spec fn parent_fields_updated(
    m: Map<u64, u8>,
    frame: int,
    stack_limit: u64,
    guaranteed_stack_bytes: u64,
) -> Map<u64, u8> {
    put_word(put_word(m, frame + 40, stack_limit), frame + 56, guaranteed_stack_bytes)
}

/// Updates the changeable fields of the environment block saved on the parent stack.
pub fn update_parent_stack_teb_fields(
    memory: &mut Memory,
    stack_ptr: StackPointer,
    stack_limit: u64,
    guaranteed_stack_bytes: u64,
)
    requires
        mapped(old(memory)@, stack_ptr@ + 40, 8),
        mapped(old(memory)@, stack_ptr@ + 56, 8),
    ensures
        final(memory)@ == parent_fields_updated(
            old(memory)@,
            stack_ptr@ as int,
            stack_limit,
            guaranteed_stack_bytes,
        ),
        final(memory)@.dom() == old(memory)@.dom(),
{
    let stack_ptr = stack_ptr.get();
    memory.store(stack_ptr + 40, stack_limit);
    memory.store(stack_ptr + 56, guaranteed_stack_bytes);
}

} // verus!
