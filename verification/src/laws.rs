//! What holds of the routines together.
use crate::frames::{
    call_frame_at, lemma_put_call_frame, lemma_put_parent_frame, lemma_put_suspended_frame,
    lemma_unchanged_call_frame, lemma_unchanged_parent_frame, lemma_unchanged_suspended_frame,
    parent_frame_at, put_parent_frame, suspended_frame_at, CallFrame, ParentFrame, FRAME_SIZE,
    GUARANTEED_STACK_BYTES_OFFSET, INITIAL_FUNC_OFFSET, STACK_LIMIT_OFFSET,
};
use crate::init::{initial_frame_fits, initial_obj_address, initialized};
use crate::machine::{EncodedValue, MachineState, Registers, Symbols, Teb, EXCEPTION_LIST_END};
use crate::memory::{
    bytes_at, disjoint, group_memory, lemma_unchanged_part, lemma_unchanged_word, mapped,
    put_bytes, unchanged, word_at, ADDRESS_SPACE_END,
};
use crate::on_stack::{can_return, call_left, on_stack_entered, CALL_HEADROOM};
use crate::stack::{
    lemma_object_address, stack_top, Stack, StackObject, StackTebFields, PARENT_LINK_OFFSET,
    STACK_ALIGNMENT,
};
use crate::switch::{
    can_enter, can_leave, can_push_frame, can_reset, can_yield, coroutine_saved, init_entered,
    link_entered, link_left, mutable_fields_saved, parent_frame_of, parent_saved, reset_done,
    suspended_frame_of, throw_entered, yield_resumed, yield_suspended,
};
use crate::teb_fields::{
    can_copy_fields, mutable_fields_from_frame, mutable_fields_mapped, parent_fields_updated,
    parent_teb_fields, with_mutable_fields,
};
use vstd::prelude::*;

verus! {

/// The parent link of the coroutine whose stack starts at `stack_base` leads to the
/// frame of `parent` at `frame`.
pub open spec fn linked(
    m: Map<u64, u8>,
    stack_base: int,
    frame: int,
    parent: ParentFrame,
) -> bool {
    &&& word_at(m, stack_base - PARENT_LINK_OFFSET) == frame
    &&& parent_frame_at(m, frame) == parent
}

/// The frame that a context leaves behind when it switches to a coroutine that is to
/// return to `return_address`.
pub open spec fn left_behind(s: MachineState, return_address: u64) -> ParentFrame {
    ParentFrame { x29: s.regs.x29, lr: return_address, x19: s.regs.x19, teb: s.teb }
}

/// Memory after a parent context is saved: the link leads to its frame, and bytes other
/// than the frame and the link stay.
proof fn lemma_parent_saved(s: MachineState, stack_base: int)
    requires
        can_push_frame(s),
        mapped(s.mem, stack_base - PARENT_LINK_OFFSET, 8),
        disjoint(s.regs.sp - FRAME_SIZE, FRAME_SIZE as int, stack_base - PARENT_LINK_OFFSET, 8),
    ensures
        linked(
            parent_saved(s, stack_base),
            stack_base,
            s.regs.sp - FRAME_SIZE,
            parent_frame_of(s),
        ),
        forall|other: int, len: int|
            #![trigger unchanged(s.mem, parent_saved(s, stack_base), other, len)]
            0 <= other && 0 <= len && other + len <= ADDRESS_SPACE_END && disjoint(
                s.regs.sp - FRAME_SIZE,
                FRAME_SIZE as int,
                other,
                len,
            ) && disjoint(stack_base - PARENT_LINK_OFFSET, 8, other, len) ==> unchanged(
                s.mem,
                parent_saved(s, stack_base),
                other,
                len,
            ),
{
    broadcast use group_memory;

    let frame = s.regs.sp - FRAME_SIZE;
    lemma_put_parent_frame(s.mem, frame, parent_frame_of(s));
    let saved = put_parent_frame(s.mem, frame, parent_frame_of(s));
    let after = parent_saved(s, stack_base);
    assert(unchanged(saved, after, frame, FRAME_SIZE as int));
    lemma_unchanged_parent_frame(saved, after, frame);
    assert forall|other: int, len: int|
        #![trigger unchanged(s.mem, after, other, len)]
        0 <= other && 0 <= len && other + len <= ADDRESS_SPACE_END && disjoint(
            frame,
            FRAME_SIZE as int,
            other,
            len,
        ) && disjoint(stack_base - PARENT_LINK_OFFSET, 8, other, len) implies unchanged(
        s.mem,
        after,
        other,
        len,
    ) by {
        assert(unchanged(s.mem, saved, other, len));
        assert(unchanged(saved, after, other, len));
    }
}

/// However a coroutine is entered, for the first time, after a suspension or to be
/// unwound, its parent link leads to the frame that the parent context left behind.
pub proof fn law_entering_links_parent(
    s: MachineState,
    arg: EncodedValue,
    forced_unwind: u64,
    sp: u64,
    stack_base: u64,
    return_address: u64,
    symbols: Symbols,
)
    requires
        can_enter(s, sp as int, stack_base as int),
        disjoint(s.regs.sp - FRAME_SIZE, FRAME_SIZE as int, stack_base - PARENT_LINK_OFFSET, 8),
    ensures
        ({
            let entered = link_entered(s, arg, sp, stack_base, return_address);
            let thrown = throw_entered(s, forced_unwind, sp, stack_base, return_address, symbols);
            let base = stack_base as int;
            let frame = s.regs.sp - FRAME_SIZE;
            let parent = left_behind(s, return_address);
            &&& linked(init_entered(entered, symbols).mem, base, frame, parent)
            &&& linked(yield_resumed(entered).mem, base, frame, parent)
            &&& linked(thrown.mem, base, frame, parent)
        }),
{
    let entered = link_entered(s, arg, sp, stack_base, return_address);
    lemma_parent_saved(entered, stack_base as int);
    let thrown = MachineState {
        regs: Registers { x30: return_address, ..s.regs },
        ..s
    };
    lemma_parent_saved(thrown, stack_base as int);
}

/// A coroutine that yields gives its parent context control back with the value, the
/// top of its own stack, and the stack, the registers and the environment block that
/// the parent context left behind. It leaves its own frame at the top of its stack.
pub proof fn law_yield_returns_to_parent(
    s: MachineState,
    arg: EncodedValue,
    stack_base: u64,
    resume_address: u64,
    frame: int,
    parent: ParentFrame,
)
    requires
        linked(s.mem, stack_base as int, frame, parent),
        can_push_frame(s),
        s.regs.sp > FRAME_SIZE,
        mapped(s.mem, stack_base - PARENT_LINK_OFFSET, 8),
        mapped(s.mem, frame, FRAME_SIZE as int),
        frame + FRAME_SIZE <= u64::MAX,
        disjoint(s.regs.sp - FRAME_SIZE, FRAME_SIZE as int, frame, FRAME_SIZE as int),
        disjoint(s.regs.sp - FRAME_SIZE, FRAME_SIZE as int, stack_base - PARENT_LINK_OFFSET, 8),
    ensures
        ({
            let link = (stack_base - PARENT_LINK_OFFSET) as u64;
            let suspended = yield_suspended(s, arg, link, resume_address);
            let left = link_left(suspended);
            &&& can_yield(s, link, resume_address)
            &&& can_leave(suspended)
            &&& suspended.regs.pc == parent.lr
            &&& suspended.regs.x0 == arg
            &&& suspended.regs.x1 == s.regs.sp - FRAME_SIZE
            &&& suspended.regs.x1 != 0
            &&& left.regs.pc == parent.lr
            &&& left.regs.x0 == arg
            &&& left.regs.sp == frame + FRAME_SIZE
            &&& left.regs.x19 == parent.x19
            &&& left.regs.x29 == parent.x29
            &&& left.teb == parent.teb
            &&& suspended_frame_at(left.mem, s.regs.sp - FRAME_SIZE) == suspended_frame_of(
                s,
                resume_address,
            )
        }),
{
    broadcast use group_memory;

    let top = s.regs.sp - FRAME_SIZE;
    let link = stack_base - PARENT_LINK_OFFSET;
    let saved = suspended_frame_of(s, resume_address);
    let after = coroutine_saved(s, resume_address);
    lemma_put_suspended_frame(s.mem, top, saved);
    assert(unchanged(s.mem, after, link, 8));
    lemma_unchanged_word(s.mem, after, link, 8, link);
    assert(unchanged(s.mem, after, frame, FRAME_SIZE as int));
    lemma_unchanged_parent_frame(s.mem, after, frame);
}

/// A coroutine that ends gives its parent context control back with the value, without
/// a stack pointer, and with the stack, the registers and the environment block that
/// the parent context left behind. The stack it ran on can then take the changeable
/// fields of the environment block over as the coroutine had them.
pub proof fn law_reset_returns_to_parent(
    s: MachineState,
    arg: EncodedValue,
    stack_base: u64,
    frame: int,
    parent: ParentFrame,
    fields: StackTebFields,
)
    requires
        linked(s.mem, stack_base as int, frame, parent),
        mapped(s.mem, stack_base - PARENT_LINK_OFFSET, PARENT_LINK_OFFSET as int),
        mapped(s.mem, frame, FRAME_SIZE as int),
        frame + FRAME_SIZE <= u64::MAX,
        disjoint(stack_base - GUARANTEED_STACK_BYTES_OFFSET, 16, frame, FRAME_SIZE as int),
    ensures
        ({
            let link = (stack_base - PARENT_LINK_OFFSET) as u64;
            let done = reset_done(s, arg, link);
            let left = link_left(done);
            &&& can_reset(s, link)
            &&& can_leave(done)
            &&& done.regs.pc == parent.lr
            &&& done.regs.x0 == arg
            &&& done.regs.x1 == 0
            &&& left.regs.pc == parent.lr
            &&& left.regs.x0 == arg
            &&& left.regs.sp == frame + FRAME_SIZE
            &&& left.regs.x19 == parent.x19
            &&& left.regs.x29 == parent.x29
            &&& left.teb == parent.teb
            &&& mutable_fields_mapped(left.mem, stack_base as int)
            &&& with_mutable_fields(fields, left.mem, stack_base as int) == (StackTebFields {
                StackLimit: s.teb.stack_limit,
                GuaranteedStackBytes: s.teb.guaranteed_stack_bytes,
                ..fields
            })
        }),
{
    broadcast use group_memory;

    let link = (stack_base - PARENT_LINK_OFFSET) as u64;
    let after = mutable_fields_saved(s, link);
    assert(link + 24 == stack_base - STACK_LIMIT_OFFSET);
    assert(link + 16 == stack_base - GUARANTEED_STACK_BYTES_OFFSET);
    assert(word_at(after, link as int) == frame);
    assert(unchanged(s.mem, after, frame, FRAME_SIZE as int));
    lemma_unchanged_parent_frame(s.mem, after, frame);
}

/// What a coroutine must leave alone for its parent context to be found again: the
/// frame of the parent context and the link to it.
pub open spec fn parent_kept(
    entered: Map<u64, u8>,
    running: Map<u64, u8>,
    stack_base: int,
    frame: int,
) -> bool {
    &&& unchanged(entered, running, stack_base - PARENT_LINK_OFFSET, 8)
    &&& unchanged(entered, running, frame, FRAME_SIZE as int)
}

/// The coroutine was entered from `s` in one of the three ways and has since run to
/// `running`, leaving its parent context alone.
pub open spec fn runs_from(
    s: MachineState,
    value: u64,
    forced_unwind: u64,
    sp: u64,
    stack_base: u64,
    return_address: u64,
    symbols: Symbols,
    running: MachineState,
) -> bool {
    let entered = link_entered(s, value, sp, stack_base, return_address);
    let base = stack_base as int;
    let frame = s.regs.sp - FRAME_SIZE;
    ||| parent_kept(init_entered(entered, symbols).mem, running.mem, base, frame)
    ||| parent_kept(yield_resumed(entered).mem, running.mem, base, frame)
    ||| parent_kept(
        throw_entered(s, forced_unwind, sp, stack_base, return_address, symbols).mem,
        running.mem,
        base,
        frame,
    )
}

/// A coroutine that has left its parent context alone is still linked to it.
proof fn lemma_parent_kept(
    s: MachineState,
    value: u64,
    forced_unwind: u64,
    sp: u64,
    stack_base: u64,
    return_address: u64,
    symbols: Symbols,
    running: MachineState,
)
    requires
        can_enter(s, sp as int, stack_base as int),
        disjoint(s.regs.sp - FRAME_SIZE, FRAME_SIZE as int, stack_base - PARENT_LINK_OFFSET, 8),
        runs_from(
            s,
            value,
            forced_unwind,
            sp,
            stack_base,
            return_address,
            symbols,
            running,
        ),
    ensures
        linked(
            running.mem,
            stack_base as int,
            s.regs.sp - FRAME_SIZE,
            left_behind(s, return_address),
        ),
{
    law_entering_links_parent(s, value, forced_unwind, sp, stack_base, return_address, symbols);
    let entered = link_entered(s, value, sp, stack_base, return_address);
    let base = stack_base as int;
    let link = base - PARENT_LINK_OFFSET;
    let frame = s.regs.sp - FRAME_SIZE;
    let first = init_entered(entered, symbols).mem;
    let again = yield_resumed(entered).mem;
    let thrown = throw_entered(s, forced_unwind, sp, stack_base, return_address, symbols).mem;
    let from = if parent_kept(first, running.mem, base, frame) {
        first
    } else if parent_kept(again, running.mem, base, frame) {
        again
    } else {
        thrown
    };
    lemma_unchanged_word(from, running.mem, link, 8, link);
    lemma_unchanged_parent_frame(from, running.mem, frame);
}

/// A context that switches to a coroutine, however it is entered, has its stack
/// pointer, `x19`, `x29` and its environment block back once the coroutine has yielded,
/// whatever the coroutine did in between, and continues where it asked to. It gets the
/// value that the coroutine yields, and the coroutine's stack pointer.
pub proof fn law_yield_restores_parent(
    s: MachineState,
    value: EncodedValue,
    forced_unwind: u64,
    sp: u64,
    stack_base: u64,
    return_address: u64,
    symbols: Symbols,
    running: MachineState,
    arg: EncodedValue,
    resume_address: u64,
)
    requires
        can_enter(s, sp as int, stack_base as int),
        disjoint(s.regs.sp - FRAME_SIZE, FRAME_SIZE as int, stack_base - PARENT_LINK_OFFSET, 8),
        runs_from(
            s,
            value,
            forced_unwind,
            sp,
            stack_base,
            return_address,
            symbols,
            running,
        ),
        can_push_frame(running),
        running.regs.sp > FRAME_SIZE,
        mapped(running.mem, stack_base - PARENT_LINK_OFFSET, 8),
        mapped(running.mem, s.regs.sp - FRAME_SIZE, FRAME_SIZE as int),
        disjoint(
            running.regs.sp - FRAME_SIZE,
            FRAME_SIZE as int,
            s.regs.sp - FRAME_SIZE,
            FRAME_SIZE as int,
        ),
        disjoint(
            running.regs.sp - FRAME_SIZE,
            FRAME_SIZE as int,
            stack_base - PARENT_LINK_OFFSET,
            8,
        ),
    ensures
        ({
            let link = (stack_base - PARENT_LINK_OFFSET) as u64;
            let suspended = yield_suspended(running, arg, link, resume_address);
            let left = link_left(suspended);
            &&& suspended.regs.pc == return_address
            &&& suspended.regs.x0 == arg
            &&& suspended.regs.x1 == running.regs.sp - FRAME_SIZE
            &&& suspended.regs.x1 != 0
            &&& left.regs.pc == return_address
            &&& left.regs.x0 == arg
            &&& left.regs.sp == s.regs.sp
            &&& left.regs.x19 == s.regs.x19
            &&& left.regs.x29 == s.regs.x29
            &&& left.teb == s.teb
        }),
{
    lemma_parent_kept(
        s,
        value,
        forced_unwind,
        sp,
        stack_base,
        return_address,
        symbols,
        running,
    );
    law_yield_returns_to_parent(
        running,
        arg,
        stack_base,
        resume_address,
        s.regs.sp - FRAME_SIZE,
        left_behind(s, return_address),
    );
}

/// A context that switches to a coroutine, however it is entered, has its stack
/// pointer, `x19`, `x29` and its environment block back once the coroutine has ended,
/// whatever the coroutine did in between, and continues where it asked to. It gets the
/// coroutine's last value, and no stack pointer.
pub proof fn law_reset_restores_parent(
    s: MachineState,
    value: EncodedValue,
    forced_unwind: u64,
    sp: u64,
    stack_base: u64,
    return_address: u64,
    symbols: Symbols,
    running: MachineState,
    arg: EncodedValue,
)
    requires
        can_enter(s, sp as int, stack_base as int),
        disjoint(s.regs.sp - FRAME_SIZE, FRAME_SIZE as int, stack_base - PARENT_LINK_OFFSET, 8),
        runs_from(
            s,
            value,
            forced_unwind,
            sp,
            stack_base,
            return_address,
            symbols,
            running,
        ),
        mapped(running.mem, stack_base - PARENT_LINK_OFFSET, PARENT_LINK_OFFSET as int),
        mapped(running.mem, s.regs.sp - FRAME_SIZE, FRAME_SIZE as int),
        disjoint(
            stack_base - GUARANTEED_STACK_BYTES_OFFSET,
            16,
            s.regs.sp - FRAME_SIZE,
            FRAME_SIZE as int,
        ),
    ensures
        ({
            let link = (stack_base - PARENT_LINK_OFFSET) as u64;
            let done = reset_done(running, arg, link);
            let left = link_left(done);
            &&& done.regs.pc == return_address
            &&& done.regs.x0 == arg
            &&& done.regs.x1 == 0
            &&& left.regs.pc == return_address
            &&& left.regs.x0 == arg
            &&& left.regs.sp == s.regs.sp
            &&& left.regs.x19 == s.regs.x19
            &&& left.regs.x29 == s.regs.x29
            &&& left.teb == s.teb
        }),
{
    lemma_parent_kept(
        s,
        value,
        forced_unwind,
        sp,
        stack_base,
        return_address,
        symbols,
        running,
    );
    law_reset_returns_to_parent(
        running,
        arg,
        stack_base,
        s.regs.sp - FRAME_SIZE,
        left_behind(s, return_address),
        arbitrary(),
    );
}

/// A coroutine that yielded and is switched to again, from whatever context, continues
/// where it asked to, with its stack pointer, `x19`, `x29` and the fields of the
/// environment block that belong to its stack as they were, an empty chain of exception
/// records, and the value that it is resumed with.
pub proof fn law_resume_restores_coroutine(
    s: MachineState,
    yielded: EncodedValue,
    parent_link: u64,
    resume_address: u64,
    next: MachineState,
    arg: EncodedValue,
    stack_base: u64,
    return_address: u64,
)
    requires
        can_push_frame(s),
        unchanged(
            yield_suspended(s, yielded, parent_link, resume_address).mem,
            next.mem,
            s.regs.sp - FRAME_SIZE,
            FRAME_SIZE as int,
        ),
        can_enter(next, s.regs.sp - FRAME_SIZE, stack_base as int),
        disjoint(
            next.regs.sp - FRAME_SIZE,
            FRAME_SIZE as int,
            s.regs.sp - FRAME_SIZE,
            FRAME_SIZE as int,
        ),
        disjoint(
            stack_base - PARENT_LINK_OFFSET,
            8,
            s.regs.sp - FRAME_SIZE,
            FRAME_SIZE as int,
        ),
        disjoint(next.regs.sp - FRAME_SIZE, FRAME_SIZE as int, stack_base - PARENT_LINK_OFFSET, 8),
    ensures
        ({
            let top = (s.regs.sp - FRAME_SIZE) as u64;
            let entered = link_entered(next, arg, top, stack_base, return_address);
            let resumed = yield_resumed(entered);
            &&& entered.regs.pc == resume_address
            &&& can_enter(entered, entered.regs.x2 as int, entered.regs.x1 as int)
            &&& entered.regs.x0 == arg
            &&& resumed.regs.x0 == arg
            &&& resumed.regs.pc == resume_address
            &&& resumed.regs.sp == s.regs.sp
            &&& resumed.regs.x19 == s.regs.x19
            &&& resumed.regs.x29 == s.regs.x29
            &&& resumed.teb == (Teb { exception_list: EXCEPTION_LIST_END, ..s.teb })
        }),
{
    let top = s.regs.sp - FRAME_SIZE;
    let entered = link_entered(next, arg, top as u64, stack_base, return_address);
    let suspended = yield_suspended(s, yielded, parent_link, resume_address);
    lemma_put_suspended_frame(s.mem, top, suspended_frame_of(s, resume_address));
    lemma_unchanged_suspended_frame(suspended.mem, next.mem, top);
    lemma_parent_saved(entered, stack_base as int);
    let after = parent_saved(entered, stack_base as int);
    assert(unchanged(next.mem, after, top, FRAME_SIZE as int));
    lemma_unchanged_suspended_frame(next.mem, after, top);
}

/// A coroutine that is entered to be unwound finds the stack, the registers, the memory
/// and the environment block that it would find if it were resumed, and the address at
/// which it would be resumed as the return address.
pub proof fn law_throw_looks_like_resume(
    s: MachineState,
    arg: EncodedValue,
    forced_unwind: u64,
    sp: u64,
    stack_base: u64,
    return_address: u64,
    symbols: Symbols,
)
    requires
        can_enter(s, sp as int, stack_base as int),
        disjoint(s.regs.sp - FRAME_SIZE, FRAME_SIZE as int, sp as int, FRAME_SIZE as int),
        disjoint(stack_base - PARENT_LINK_OFFSET, 8, sp as int, FRAME_SIZE as int),
        disjoint(s.regs.sp - FRAME_SIZE, FRAME_SIZE as int, stack_base - PARENT_LINK_OFFSET, 8),
    ensures
        ({
            let entered = link_entered(s, arg, sp, stack_base, return_address);
            let resumed = yield_resumed(entered);
            let thrown = throw_entered(s, forced_unwind, sp, stack_base, return_address, symbols);
            &&& thrown.regs.pc == symbols.throw
            &&& thrown.regs.x0 == forced_unwind
            &&& thrown.regs.x30 == entered.regs.pc
            &&& thrown.regs.sp == resumed.regs.sp
            &&& thrown.regs.x19 == resumed.regs.x19
            &&& thrown.regs.x29 == resumed.regs.x29
            &&& thrown.teb == resumed.teb
            &&& thrown.mem == resumed.mem
        }),
{
    let entered = link_entered(s, arg, sp, stack_base, return_address);
    lemma_parent_saved(entered, stack_base as int);
    let after = parent_saved(entered, stack_base as int);
    let thrown = MachineState {
        regs: Registers { x30: return_address, ..s.regs },
        ..s
    };
    assert(parent_frame_of(thrown) == parent_frame_of(entered));
    assert(parent_saved(thrown, stack_base as int) == after);
    assert(unchanged(s.mem, after, sp as int, FRAME_SIZE as int));
    lemma_unchanged_suspended_frame(s.mem, after, sp as int);
}

/// The first switch to a coroutine calls its initial function with the argument, the
/// address of the parent link and that of the initial object, on the coroutine's stack
/// and with the stack's fields in the environment block. The object is there, the
/// parent link leads to the context that switched, the stack pointer is aligned, and so is
/// the object as it needs.
pub proof fn law_first_switch_calls_initial_func(
    m: Map<u64, u8>,
    stack_base: u64,
    fields: StackTebFields,
    func: u64,
    obj: StackObject,
    symbols: Symbols,
    s: MachineState,
    arg: EncodedValue,
    return_address: u64,
)
    requires
        obj.wf(),
        stack_base % STACK_ALIGNMENT == 0,
        initial_frame_fits(m, stack_base as int, obj),
        ({
            let top = initial_obj_address(stack_base as int, obj) - FRAME_SIZE;
            &&& unchanged(
                initialized(m, stack_base as int, fields, func, obj, symbols),
                s.mem,
                top,
                stack_base - top,
            )
            &&& mapped(s.mem, top, stack_base - top)
            &&& can_push_frame(s)
            &&& disjoint(s.regs.sp - FRAME_SIZE, FRAME_SIZE as int, top, stack_base - top)
        }),
    ensures
        ({
            let at = initial_obj_address(stack_base as int, obj);
            let entered = link_entered(
                s,
                arg,
                (at - FRAME_SIZE) as u64,
                stack_base,
                return_address,
            );
            let started = init_entered(entered, symbols);
            &&& entered.regs.pc == symbols.stack_init_trampoline
            &&& can_enter(entered, entered.regs.x2 as int, entered.regs.x1 as int)
            &&& mapped(entered.mem, entered.regs.x1 - INITIAL_FUNC_OFFSET, 8)
            &&& started.regs.pc == func
            &&& started.regs.x0 == arg
            &&& started.regs.x1 == stack_base - PARENT_LINK_OFFSET
            &&& started.regs.x2 == at
            &&& started.regs.x30 == symbols.stack_init_trampoline_return
            &&& started.regs.sp == at
            &&& started.regs.sp % STACK_ALIGNMENT == 0
            &&& started.regs.x2 as int % obj.align as int == 0
            &&& started.teb == (Teb {
                exception_list: EXCEPTION_LIST_END,
                stack_base: fields.StackBase,
                stack_limit: fields.StackLimit,
                deallocation_stack: fields.DeallocationStack,
                guaranteed_stack_bytes: fields.GuaranteedStackBytes,
            })
            &&& bytes_at(started.mem, at, obj.bytes@.len()) == obj.bytes@
            &&& linked(
                started.mem,
                stack_base as int,
                s.regs.sp - FRAME_SIZE,
                left_behind(s, return_address),
            )
        }),
{
    broadcast use group_memory;

    let base = stack_base as int;
    let at = initial_obj_address(base, obj);
    let top = at - FRAME_SIZE;
    let len = base - top;
    let image = initialized(m, base, fields, func, obj, symbols);
    let size = obj.bytes@.len() as int;
    lemma_object_address(base - PARENT_LINK_OFFSET, size, obj.align as int);
    lemma_initialized(m, base, fields, func, obj, symbols);
    let entered = link_entered(s, arg, top as u64, stack_base, return_address);
    let after = parent_saved(entered, base);
    lemma_parent_saved(entered, base);
    lemma_unchanged_part(image, s.mem, top, len, top, FRAME_SIZE as int);
    lemma_unchanged_suspended_frame(image, s.mem, top);
    assert(unchanged(s.mem, after, top, FRAME_SIZE as int));
    lemma_unchanged_suspended_frame(s.mem, after, top);
    lemma_unchanged_part(image, s.mem, top, len, at, size);
    assert(unchanged(s.mem, after, at, size));
    let func_at = base - INITIAL_FUNC_OFFSET;
    lemma_unchanged_word(image, s.mem, top, len, func_at);
    assert(unchanged(s.mem, after, func_at, 8));
    lemma_unchanged_word(s.mem, after, func_at, 8, func_at);
}

/// What an initialized stack holds.
proof fn lemma_initialized(
    m: Map<u64, u8>,
    stack_base: int,
    fields: StackTebFields,
    func: u64,
    obj: StackObject,
    symbols: Symbols,
)
    requires
        obj.wf(),
        initial_frame_fits(m, stack_base, obj),
    ensures
        ({
            let image = initialized(m, stack_base, fields, func, obj, symbols);
            let at = initial_obj_address(stack_base, obj);
            let frame = suspended_frame_at(image, at - FRAME_SIZE);
            &&& word_at(image, stack_base - INITIAL_FUNC_OFFSET) == func
            &&& bytes_at(image, at, obj.bytes@.len()) == obj.bytes@
            &&& frame.pc == symbols.stack_init_trampoline
            &&& frame.teb.stack_base == fields.StackBase
            &&& frame.teb.stack_limit == fields.StackLimit
            &&& frame.teb.deallocation_stack == fields.DeallocationStack
            &&& frame.teb.guaranteed_stack_bytes == fields.GuaranteedStackBytes
            &&& mapped(image, at - FRAME_SIZE, stack_base - (at - FRAME_SIZE))
        }),
{
    broadcast use group_memory;

    lemma_object_address(
        stack_base - PARENT_LINK_OFFSET,
        obj.bytes@.len() as int,
        obj.align as int,
    );
}

/// Dropping the initial object of a coroutine that was never started gives the stack
/// the fields of the environment block back that it was initialized with, as long as
/// the drop function leaves the saved frame alone; it is called with the address of the
/// object.
pub proof fn law_drop_keeps_stack_fields(
    m: Map<u64, u8>,
    stack_base: int,
    fields: StackTebFields,
    func: u64,
    obj: StackObject,
    symbols: Symbols,
    dropped: Map<u64, u8>,
)
    requires
        obj.wf(),
        stack_base <= u64::MAX,
        initial_frame_fits(m, stack_base, obj),
        ({
            let top = initial_obj_address(stack_base, obj) - FRAME_SIZE;
            &&& unchanged(
                initialized(m, stack_base, fields, func, obj, symbols),
                dropped,
                top,
                FRAME_SIZE as int,
            )
            &&& mapped(dropped, top, stack_base - top)
        }),
    ensures
        ({
            let at = initial_obj_address(stack_base, obj);
            let top = at - FRAME_SIZE;
            let image = initialized(m, stack_base, fields, func, obj, symbols);
            &&& bytes_at(image, top + FRAME_SIZE, obj.bytes@.len()) == obj.bytes@
            &&& can_copy_fields(dropped, stack_base, top)
            &&& with_mutable_fields(
                fields,
                mutable_fields_from_frame(dropped, stack_base, top),
                stack_base,
            ) == fields
        }),
{
    broadcast use group_memory;

    let top = initial_obj_address(stack_base, obj) - FRAME_SIZE;
    let image = initialized(m, stack_base, fields, func, obj, symbols);
    lemma_object_address(
        stack_base - PARENT_LINK_OFFSET,
        obj.bytes@.len() as int,
        obj.align as int,
    );
    lemma_initialized(m, stack_base, fields, func, obj, symbols);
    lemma_unchanged_suspended_frame(image, dropped, top);
}

/// Resetting a suspended coroutine by force gives its stack the changeable fields of
/// the environment block that the coroutine was suspended with.
pub proof fn law_forced_reset_updates_stack_fields(
    s: MachineState,
    yielded: EncodedValue,
    parent_link: u64,
    resume_address: u64,
    m: Map<u64, u8>,
    stack_base: int,
    fields: StackTebFields,
)
    requires
        can_push_frame(s),
        unchanged(
            yield_suspended(s, yielded, parent_link, resume_address).mem,
            m,
            s.regs.sp - FRAME_SIZE,
            FRAME_SIZE as int,
        ),
        can_copy_fields(m, stack_base, s.regs.sp - FRAME_SIZE),
        disjoint(
            stack_base - GUARANTEED_STACK_BYTES_OFFSET,
            16,
            s.regs.sp - FRAME_SIZE,
            FRAME_SIZE as int,
        ),
    ensures
        with_mutable_fields(
            fields,
            mutable_fields_from_frame(m, stack_base, s.regs.sp - FRAME_SIZE),
            stack_base,
        ) == (StackTebFields {
            StackLimit: s.teb.stack_limit,
            GuaranteedStackBytes: s.teb.guaranteed_stack_bytes,
            ..fields
        }),
{
    broadcast use group_memory;

    let top = s.regs.sp - FRAME_SIZE;
    let suspended = yield_suspended(s, yielded, parent_link, resume_address);
    lemma_put_suspended_frame(s.mem, top, suspended_frame_of(s, resume_address));
    lemma_unchanged_suspended_frame(suspended.mem, m, top);
}

/// A stack that has run one coroutine to its end and is reused for another one starts
/// the new coroutine with the changeable fields of the environment block that the old
/// one ended with.
pub proof fn law_reused_stack_keeps_limits(
    ended: MachineState,
    last: EncodedValue,
    parent: ParentFrame,
    frame: int,
    fields: StackTebFields,
    m: Map<u64, u8>,
    stack_base: u64,
    func: u64,
    obj: StackObject,
    symbols: Symbols,
    s: MachineState,
    arg: EncodedValue,
    return_address: u64,
)
    requires
        linked(ended.mem, stack_base as int, frame, parent),
        mapped(ended.mem, stack_base - PARENT_LINK_OFFSET, PARENT_LINK_OFFSET as int),
        mapped(ended.mem, frame, FRAME_SIZE as int),
        frame + FRAME_SIZE <= u64::MAX,
        disjoint(stack_base - GUARANTEED_STACK_BYTES_OFFSET, 16, frame, FRAME_SIZE as int),
        obj.wf(),
        stack_base % STACK_ALIGNMENT == 0,
        initial_frame_fits(m, stack_base as int, obj),
        ({
            let link = (stack_base - PARENT_LINK_OFFSET) as u64;
            let left = link_left(reset_done(ended, last, link));
            let updated = with_mutable_fields(fields, left.mem, stack_base as int);
            let top = initial_obj_address(stack_base as int, obj) - FRAME_SIZE;
            &&& unchanged(
                initialized(m, stack_base as int, updated, func, obj, symbols),
                s.mem,
                top,
                stack_base - top,
            )
            &&& mapped(s.mem, top, stack_base - top)
            &&& can_push_frame(s)
            &&& disjoint(s.regs.sp - FRAME_SIZE, FRAME_SIZE as int, top, stack_base - top)
        }),
    ensures
        ({
            let top = (initial_obj_address(stack_base as int, obj) - FRAME_SIZE) as u64;
            let entered = link_entered(s, arg, top, stack_base, return_address);
            init_entered(entered, symbols).teb == (Teb {
                exception_list: EXCEPTION_LIST_END,
                stack_base: fields.StackBase,
                stack_limit: ended.teb.stack_limit,
                deallocation_stack: fields.DeallocationStack,
                guaranteed_stack_bytes: ended.teb.guaranteed_stack_bytes,
            })
        }),
{
    let link = (stack_base - PARENT_LINK_OFFSET) as u64;
    let left = link_left(reset_done(ended, last, link));
    let updated = with_mutable_fields(fields, left.mem, stack_base as int);
    law_reset_returns_to_parent(ended, last, stack_base, frame, parent, fields);
    law_first_switch_calls_initial_func(
        m,
        stack_base,
        updated,
        func,
        obj,
        symbols,
        s,
        arg,
        return_address,
    );
}

/// What is written to the saved fields of a parent stack is read back, the other fields
/// and registers in the frame stay, and the parent context finds what was written in
/// its environment block when it gets control back.
pub proof fn law_parent_update_reaches_parent(
    s: MachineState,
    stack_limit: u64,
    guaranteed_stack_bytes: u64,
)
    requires
        mapped(s.mem, s.regs.x2 as int, FRAME_SIZE as int),
    ensures
        ({
            let frame = s.regs.x2 as int;
            let mem = parent_fields_updated(s.mem, frame, stack_limit, guaranteed_stack_bytes);
            let left = link_left(MachineState { mem, ..s });
            let before = parent_frame_at(s.mem, frame);
            &&& parent_teb_fields(mem, frame) == (StackTebFields {
                StackLimit: stack_limit,
                GuaranteedStackBytes: guaranteed_stack_bytes,
                ..parent_teb_fields(s.mem, frame)
            })
            &&& parent_frame_at(mem, frame) == (ParentFrame {
                teb: Teb { stack_limit, guaranteed_stack_bytes, ..before.teb },
                ..before
            })
            &&& left.teb == (Teb { stack_limit, guaranteed_stack_bytes, ..before.teb })
        }),
{
    broadcast use group_memory;

}

/// A trap leaves the top of the stack alone, so that a coroutine that continues in a
/// trap handler is still linked to its parent context: the handler finds the object
/// where `x0` points and the parent link where `x1` points.
pub proof fn law_trap_keeps_parent_link(
    m: Map<u64, u8>,
    stack_base: int,
    val: StackObject,
    frame: int,
    parent: ParentFrame,
)
    requires
        val.wf(),
        PARENT_LINK_OFFSET + val.bytes@.len() <= stack_base <= u64::MAX,
        mapped(m, initial_obj_address(stack_base, val), val.bytes@.len() as int),
        linked(m, stack_base, frame, parent),
        mapped(m, frame, FRAME_SIZE as int),
        disjoint(
            initial_obj_address(stack_base, val),
            val.bytes@.len() as int,
            frame,
            FRAME_SIZE as int,
        ),
    ensures
        ({
            let at = initial_obj_address(stack_base, val);
            let after = put_bytes(m, at, val.bytes@);
            &&& bytes_at(after, at, val.bytes@.len()) == val.bytes@
            &&& unchanged(
                m,
                after,
                stack_base - PARENT_LINK_OFFSET,
                PARENT_LINK_OFFSET as int,
            )
            &&& linked(after, stack_base, frame, parent)
        }),
{
    broadcast use group_memory;

    let at = initial_obj_address(stack_base, val);
    let after = put_bytes(m, at, val.bytes@);
    lemma_object_address(
        stack_base - PARENT_LINK_OFFSET,
        val.bytes@.len() as int,
        val.align as int,
    );
    assert(unchanged(m, after, frame, FRAME_SIZE as int));
    lemma_unchanged_parent_frame(m, after, frame);
}

/// A function that leaves the frame of its caller alone leaves there what the caller put
/// there.
proof fn lemma_call_frame_kept<S: Stack>(
    s: MachineState,
    arg: u64,
    stack: S,
    f: u64,
    return_address: u64,
    symbols: Symbols,
    returned: MachineState,
)
    requires
        can_push_frame(s),
        unchanged(
            on_stack_entered(s, arg, stack, f, return_address, symbols).mem,
            returned.mem,
            s.regs.sp - FRAME_SIZE,
            FRAME_SIZE as int,
        ),
    ensures
        call_frame_at(returned.mem, s.regs.sp - FRAME_SIZE) == (CallFrame {
            x29: s.regs.x29,
            lr: return_address,
            teb: s.teb,
            stack_base: stack_top(stack) as u64,
        }),
{
    let frame = s.regs.sp - FRAME_SIZE;
    let entered = on_stack_entered(s, arg, stack, f, return_address, symbols);
    let saved = CallFrame {
        x29: s.regs.x29,
        lr: return_address,
        teb: s.teb,
        stack_base: stack_top(stack) as u64,
    };
    lemma_put_call_frame(s.mem, frame, saved);
    assert(call_frame_at(entered.mem, frame) == saved);
    lemma_unchanged_call_frame(entered.mem, returned.mem, frame);
}

/// A function called on another stack runs with its argument, on that stack, with the
/// stack's fields in the environment block, and far enough below the base that a whole
/// frame fits in between. Once it returns, its caller has its stack pointer, `x29`,
/// its environment block and control back, and the stack takes over the changeable
/// fields that the function left in the environment block.
pub proof fn law_on_stack_restores_caller<S: Stack>(
    s: MachineState,
    arg: u64,
    stack: S,
    f: u64,
    return_address: u64,
    symbols: Symbols,
    returned: MachineState,
)
    requires
        can_push_frame(s),
        stack_top(stack) >= CALL_HEADROOM,
        ({
            let entered = on_stack_entered(s, arg, stack, f, return_address, symbols);
            let frame = s.regs.sp - FRAME_SIZE;
            &&& returned.regs.x29 == entered.regs.x29
            &&& unchanged(entered.mem, returned.mem, frame, FRAME_SIZE as int)
            &&& mapped(returned.mem, frame, FRAME_SIZE as int)
            &&& mutable_fields_mapped(returned.mem, stack_top(stack))
            &&& disjoint(
                stack_top(stack) - GUARANTEED_STACK_BYTES_OFFSET,
                16,
                frame,
                FRAME_SIZE as int,
            )
        }),
    ensures
        ({
            let entered = on_stack_entered(s, arg, stack, f, return_address, symbols);
            let left = call_left(returned);
            let fields = stack.spec_teb_fields();
            &&& entered.regs.pc == f
            &&& entered.regs.x0 == arg
            &&& entered.regs.x30 == symbols.stack_call_trampoline_return
            &&& entered.regs.sp == stack_top(stack) - CALL_HEADROOM
            &&& entered.regs.sp % STACK_ALIGNMENT == 0
            &&& entered.regs.sp + FRAME_SIZE <= stack_top(stack)
            &&& entered.teb == (Teb {
                exception_list: EXCEPTION_LIST_END,
                stack_base: fields.StackBase,
                stack_limit: fields.StackLimit,
                deallocation_stack: fields.DeallocationStack,
                guaranteed_stack_bytes: fields.GuaranteedStackBytes,
            })
            &&& can_return(returned)
            &&& left.regs.pc == return_address
            &&& left.regs.sp == s.regs.sp
            &&& left.regs.x29 == s.regs.x29
            &&& left.teb == s.teb
            &&& with_mutable_fields(fields, left.mem, stack_top(stack)) == (StackTebFields {
                StackLimit: returned.teb.stack_limit,
                GuaranteedStackBytes: returned.teb.guaranteed_stack_bytes,
                ..fields
            })
        }),
{
    broadcast use group_memory;

    let frame = s.regs.sp - FRAME_SIZE;
    lemma_call_frame_kept(s, arg, stack, f, return_address, symbols, returned);
    let after = call_left(returned).mem;
    assert(unchanged(returned.mem, after, frame, FRAME_SIZE as int));
    lemma_unchanged_call_frame(returned.mem, after, frame);
}

/// The initial function of a coroutine runs far enough below the base of the stack that a
/// whole frame fits in between if the initial object takes more than 16 bytes, and does
/// not if it takes no more and needs no more than the alignment of the stack.
pub proof fn law_headroom_of_initial_func(stack_base: int, obj: StackObject)
    requires
        obj.wf(),
        stack_base % STACK_ALIGNMENT as int == 0,
    ensures
        obj.bytes@.len() > STACK_ALIGNMENT ==> initial_obj_address(stack_base, obj) + FRAME_SIZE
            <= stack_base,
        obj.bytes@.len() <= STACK_ALIGNMENT && obj.align <= STACK_ALIGNMENT
            ==> initial_obj_address(stack_base, obj) + FRAME_SIZE > stack_base,
{
    lemma_object_address(
        stack_base - PARENT_LINK_OFFSET,
        obj.bytes@.len() as int,
        obj.align as int,
    );
}

/// Initializing a coroutine writes nothing outside its stack, and leaves the parent link
/// and the words for the changeable fields as they were.
pub proof fn law_init_stays_on_stack(
    m: Map<u64, u8>,
    stack_base: int,
    fields: StackTebFields,
    func: u64,
    obj: StackObject,
    symbols: Symbols,
    other: int,
    len: int,
)
    requires
        obj.wf(),
        initial_frame_fits(m, stack_base, obj),
        0 <= other,
        0 <= len,
        other + len <= ADDRESS_SPACE_END,
        ({
            let top = initial_obj_address(stack_base, obj) - FRAME_SIZE;
            disjoint(top, stack_base - top, other, len)
        }),
    ensures
        ({
            let image = initialized(m, stack_base, fields, func, obj, symbols);
            &&& unchanged(m, image, other, len)
            &&& unchanged(m, image, stack_base - PARENT_LINK_OFFSET, 8)
            &&& unchanged(m, image, stack_base - GUARANTEED_STACK_BYTES_OFFSET, 16)
        }),
{
    broadcast use group_memory;

    lemma_object_address(
        stack_base - PARENT_LINK_OFFSET,
        obj.bytes@.len() as int,
        obj.align as int,
    );
}

/// Entering a coroutine, in whichever way, writes the frame of the parent context and the
/// parent link and nothing else.
pub proof fn law_entering_writes_frame_and_link(
    s: MachineState,
    arg: EncodedValue,
    forced_unwind: u64,
    sp: u64,
    stack_base: u64,
    return_address: u64,
    symbols: Symbols,
    other: int,
    len: int,
)
    requires
        can_enter(s, sp as int, stack_base as int),
        0 <= other,
        0 <= len,
        other + len <= ADDRESS_SPACE_END,
        disjoint(s.regs.sp - FRAME_SIZE, FRAME_SIZE as int, other, len),
        disjoint(stack_base - PARENT_LINK_OFFSET, 8, other, len),
    ensures
        ({
            let entered = link_entered(s, arg, sp, stack_base, return_address);
            let thrown = throw_entered(s, forced_unwind, sp, stack_base, return_address, symbols);
            &&& unchanged(s.mem, init_entered(entered, symbols).mem, other, len)
            &&& unchanged(s.mem, yield_resumed(entered).mem, other, len)
            &&& unchanged(s.mem, thrown.mem, other, len)
        }),
{
    broadcast use group_memory;

}

/// A coroutine that yields writes its own frame and nothing else; one that ends writes
/// the words for the changeable fields at the base of its stack and nothing else; and the
/// parent context that gets control back writes nothing.
pub proof fn law_leaving_stays_on_coroutine_stack(
    s: MachineState,
    arg: EncodedValue,
    stack_base: u64,
    resume_address: u64,
    other: int,
    len: int,
)
    requires
        PARENT_LINK_OFFSET <= stack_base,
        0 <= other,
        0 <= len,
        other + len <= ADDRESS_SPACE_END,
    ensures
        ({
            let link = (stack_base - PARENT_LINK_OFFSET) as u64;
            let suspended = yield_suspended(s, arg, link, resume_address);
            let done = reset_done(s, arg, link);
            &&& can_push_frame(s) && disjoint(
                s.regs.sp - FRAME_SIZE,
                FRAME_SIZE as int,
                other,
                len,
            ) ==> unchanged(s.mem, suspended.mem, other, len)
            &&& disjoint(stack_base - GUARANTEED_STACK_BYTES_OFFSET, 16, other, len) ==> unchanged(
                s.mem,
                done.mem,
                other,
                len,
            )
            &&& link_left(suspended).mem == suspended.mem
            &&& link_left(done).mem == done.mem
        }),
{
    broadcast use group_memory;

}

/// Calling a function on another stack and returning from it writes the frame of the
/// caller and the words for the changeable fields at the base of the other stack, and
/// nothing else beside what the function itself writes.
pub proof fn law_on_stack_writes_frame_and_fields<S: Stack>(
    s: MachineState,
    arg: u64,
    stack: S,
    f: u64,
    return_address: u64,
    symbols: Symbols,
    returned: MachineState,
    other: int,
    len: int,
)
    requires
        can_push_frame(s),
        can_return(returned),
        0 <= other,
        0 <= len,
        other + len <= ADDRESS_SPACE_END,
        disjoint(s.regs.sp - FRAME_SIZE, FRAME_SIZE as int, other, len),
        disjoint(
            word_at(returned.mem, returned.regs.x29 + 56) - GUARANTEED_STACK_BYTES_OFFSET,
            16,
            other,
            len,
        ),
    ensures
        unchanged(
            s.mem,
            on_stack_entered(s, arg, stack, f, return_address, symbols).mem,
            other,
            len,
        ),
        unchanged(returned.mem, call_left(returned).mem, other, len),
{
    broadcast use group_memory;

}

/// The fields read from the frame that a parent link leads to are those of the environment
/// block that the parent context left behind.
pub proof fn law_parent_fields_are_those_left_behind(
    m: Map<u64, u8>,
    stack_base: int,
    frame: int,
    parent: ParentFrame,
)
    requires
        linked(m, stack_base, frame, parent),
    ensures
        parent_teb_fields(m, frame) == (StackTebFields {
            StackBase: parent.teb.stack_base,
            StackLimit: parent.teb.stack_limit,
            DeallocationStack: parent.teb.deallocation_stack,
            GuaranteedStackBytes: parent.teb.guaranteed_stack_bytes,
        }),
{
}

/// A coroutine can run a function on its parent stack, above which the frame of the parent
/// context starts: it gets its own stack and environment block back and is still linked to
/// its parent context, and once the saved fields of the parent stack are updated, the
/// parent context will find those that the function left in the environment block.
pub proof fn law_on_parent_stack_updates_parent<S: Stack>(
    s: MachineState,
    stack_base: int,
    frame: int,
    parent: ParentFrame,
    arg: u64,
    stack: S,
    f: u64,
    return_address: u64,
    symbols: Symbols,
    returned: MachineState,
)
    requires
        linked(s.mem, stack_base, frame, parent),
        can_push_frame(s),
        stack_top(stack) == frame,
        stack.spec_teb_fields() == parent_teb_fields(s.mem, frame),
        CALL_HEADROOM <= frame,
        mapped(s.mem, stack_base - PARENT_LINK_OFFSET, 8),
        mapped(s.mem, frame, FRAME_SIZE as int),
        disjoint(s.regs.sp - FRAME_SIZE, FRAME_SIZE as int, frame - 16, FRAME_SIZE + 16),
        disjoint(s.regs.sp - FRAME_SIZE, FRAME_SIZE as int, stack_base - PARENT_LINK_OFFSET, 8),
        disjoint(frame - 16, FRAME_SIZE + 16, stack_base - PARENT_LINK_OFFSET, 8),
        ({
            let entered = on_stack_entered(s, arg, stack, f, return_address, symbols);
            let caller = s.regs.sp - FRAME_SIZE;
            &&& returned.regs.x29 == entered.regs.x29
            &&& unchanged(entered.mem, returned.mem, caller, FRAME_SIZE as int)
            &&& parent_kept(entered.mem, returned.mem, stack_base, frame)
            &&& mapped(returned.mem, caller, FRAME_SIZE as int)
            &&& mapped(returned.mem, frame - 16, FRAME_SIZE + 16)
            &&& mapped(returned.mem, stack_base - PARENT_LINK_OFFSET, 8)
        }),
    ensures
        ({
            let left = call_left(returned);
            let fields = with_mutable_fields(stack.spec_teb_fields(), left.mem, frame);
            let updated = parent_fields_updated(
                left.mem,
                frame,
                fields.StackLimit,
                fields.GuaranteedStackBytes,
            );
            &&& left.regs.pc == return_address
            &&& left.regs.sp == s.regs.sp
            &&& left.regs.x29 == s.regs.x29
            &&& left.teb == s.teb
            &&& linked(
                updated,
                stack_base,
                frame,
                ParentFrame {
                    teb: Teb {
                        stack_limit: returned.teb.stack_limit,
                        guaranteed_stack_bytes: returned.teb.guaranteed_stack_bytes,
                        ..parent.teb
                    },
                    ..parent
                },
            )
        }),
{
    broadcast use group_memory;

    let entered = on_stack_entered(s, arg, stack, f, return_address, symbols);
    let link = stack_base - PARENT_LINK_OFFSET;
    let left = call_left(returned);
    lemma_call_frame_kept(s, arg, stack, f, return_address, symbols, returned);
    law_on_stack_restores_caller(s, arg, stack, f, return_address, symbols, returned);
    assert(unchanged(s.mem, entered.mem, link, 8));
    lemma_unchanged_word(s.mem, entered.mem, link, 8, link);
    lemma_unchanged_word(entered.mem, returned.mem, link, 8, link);
    assert(unchanged(s.mem, entered.mem, frame, FRAME_SIZE as int));
    lemma_unchanged_parent_frame(s.mem, entered.mem, frame);
    lemma_unchanged_parent_frame(entered.mem, returned.mem, frame);
    assert(unchanged(returned.mem, left.mem, frame, FRAME_SIZE as int));
    lemma_unchanged_parent_frame(returned.mem, left.mem, frame);
    assert(unchanged(returned.mem, left.mem, link, 8));
    lemma_unchanged_word(returned.mem, left.mem, link, 8, link);
}

} // verus!
