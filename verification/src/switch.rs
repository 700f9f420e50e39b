//! Switching between a parent context and a coroutine.
//!
//! Each routine is a sequence of instructions on a [`Machine`]. Where control leaves
//! a routine for code that the caller knows and the routine does not, the routine is
//! in two parts, one for each side of the gap; the routine as a whole takes what runs
//! in between as a function on the machine.
use crate::frames::{
    parent_frame_at, put_parent_frame, put_suspended_frame, teb_at, ParentFrame, SuspendedFrame,
    FRAME_SIZE, INITIAL_FUNC_OFFSET,
};
use crate::machine::{
    EncodedValue, Machine, MachineState, Registers, Symbols, Teb, EXCEPTION_LIST_END,
    TEB_DEALLOCATION_STACK, TEB_EXCEPTION_LIST, TEB_GUARANTEED_STACK_BYTES, TEB_STACK_BASE,
    TEB_STACK_LIMIT,
};
use crate::memory::{mapped, put_word, word_at};
use crate::stack::{StackPointer, PARENT_LINK_OFFSET, STACK_ALIGNMENT};
use vstd::prelude::*;

verus! {

/// The frame that the running context leaves behind when it enters a coroutine.
pub open spec fn parent_frame_of(s: MachineState) -> ParentFrame {
    ParentFrame { x29: s.regs.x29, lr: s.regs.x30, x19: s.regs.x19, teb: s.teb }
}

/// A frame can be pushed on the current stack. The processor faults on an access through a
/// stack pointer that is not aligned.
pub open spec fn can_push_frame(s: MachineState) -> bool {
    &&& s.regs.sp % STACK_ALIGNMENT == 0
    &&& mapped(s.mem, s.regs.sp - FRAME_SIZE, FRAME_SIZE as int)
}

/// Memory once the running context has left its frame on its stack and pointed the
/// parent link of the coroutine whose stack starts at `stack_base` to it.
pub open spec fn parent_saved(s: MachineState, stack_base: int) -> Map<u64, u8> {
    let frame = s.regs.sp - FRAME_SIZE;
    put_word(
        put_parent_frame(s.mem, frame, parent_frame_of(s)),
        stack_base - PARENT_LINK_OFFSET,
        frame as u64,
    )
}

/// The environment block on entry to the coroutine whose frame is at `top`: the
/// fields that the coroutine's stack came with, and an empty chain of exception
/// records.
pub open spec fn coroutine_teb(m: Map<u64, u8>, top: int) -> Teb {
    Teb { exception_list: EXCEPTION_LIST_END, ..teb_at(m, top + 24) }
}

/// A coroutine with its frame at `top` and its stack starting at `stack_base` can be
/// entered from `s`.
pub open spec fn can_enter(s: MachineState, top: int, stack_base: int) -> bool {
    &&& can_push_frame(s)
    &&& mapped(s.mem, stack_base - PARENT_LINK_OFFSET, 8)
    &&& mapped(s.mem, top, FRAME_SIZE as int)
    &&& top + FRAME_SIZE <= u64::MAX
}

/// The state once [`switch_and_link`] has jumped to the coroutine.
pub open spec fn link_entered(
    s: MachineState,
    arg: EncodedValue,
    sp: u64,
    stack_base: u64,
    return_address: u64,
) -> MachineState {
    let target = word_at(s.mem, sp + 16);
    MachineState {
        regs: Registers {
            x0: arg,
            x1: stack_base,
            x2: sp,
            x3: target,
            x30: return_address,
            pc: target,
            ..s.regs
        },
        ..s
    }
}

/// The first part of [`switch_and_link`]: jumps to the coroutine suspended at `sp`.
pub fn switch_and_link_enter(
    machine: &mut Machine,
    arg: EncodedValue,
    sp: StackPointer,
    stack_base: StackPointer,
    return_address: u64,
)
    requires
        mapped(old(machine)@.mem, sp@ + 16, 8),
    ensures
        final(machine)@ == link_entered(old(machine)@, arg, sp@, stack_base@, return_address),
{
    // in("x0") arg, in("x1") stack_base, in("x2") sp
    machine.regs.x0 = arg;
    machine.regs.x1 = stack_base.get();
    machine.regs.x2 = sp.get();
    // ldr x3, [x2, #16]
    machine.regs.x3 = machine.memory.load(machine.regs.x2 + 16);
    // blr x3
    machine.regs.x30 = return_address;
    machine.regs.pc = machine.regs.x3;
}

/// Control is back in the parent context whose frame is at `x2`.
pub open spec fn can_leave(s: MachineState) -> bool {
    &&& mapped(s.mem, s.regs.x2 + 24, 40)
    &&& s.regs.x2 + FRAME_SIZE <= u64::MAX
}

/// The state once the parent context has taken its stack and its environment block
/// back.
pub open spec fn link_left(s: MachineState) -> MachineState {
    let teb = teb_at(s.mem, s.regs.x2 + 24);
    MachineState {
        regs: Registers {
            x4: teb.exception_list,
            x5: teb.stack_base,
            x6: teb.stack_limit,
            x7: teb.deallocation_stack,
            x8: teb.guaranteed_stack_bytes,
            sp: (s.regs.x2 + FRAME_SIZE) as u64,
            ..s.regs
        },
        teb,
        ..s
    }
}

/// The second part of [`switch_and_link`] and of [`switch_and_throw`]: runs once the
/// coroutine has given control back.
///
/// On entry `x2` holds the parent stack pointer, `x1` the top of the coroutine stack,
/// or zero if the coroutine is done, and `x0` the value that it passes.
pub fn switch_and_link_leave(machine: &mut Machine) -> (r: (EncodedValue, Option<StackPointer>))
    requires
        can_leave(old(machine)@),
    ensures
        final(machine)@ == link_left(old(machine)@),
        r.0 == old(machine).regs.x0,
        r.1 is None <==> old(machine).regs.x1 == 0,
        r.1 matches Some(p) ==> p@ == old(machine).regs.x1,
{
    // Restore the parent TEB fields from the parent frame.
    machine.regs.x4 = machine.memory.load(machine.regs.x2 + 24);
    machine.teb.store(TEB_EXCEPTION_LIST, machine.regs.x4);
    machine.regs.x5 = machine.memory.load(machine.regs.x2 + 32);
    machine.teb.store(TEB_STACK_BASE, machine.regs.x5);
    machine.regs.x6 = machine.memory.load(machine.regs.x2 + 40);
    machine.teb.store(TEB_STACK_LIMIT, machine.regs.x6);
    machine.regs.x7 = machine.memory.load(machine.regs.x2 + 48);
    machine.teb.store(TEB_DEALLOCATION_STACK, machine.regs.x7);
    machine.regs.x8 = machine.memory.load(machine.regs.x2 + 56);
    machine.teb.store(TEB_GUARANTEED_STACK_BYTES, machine.regs.x8);
    // Switch back to our stack and free the parent frame.
    machine.regs.sp = machine.regs.x2 + FRAME_SIZE;
    (machine.regs.x0, StackPointer::new(machine.regs.x1))
}

/// Switches to the coroutine suspended at `sp`, on the stack that starts at
/// `stack_base`, and passes `arg` to it. `coroutine` is what then runs, until it
/// returns to `return_address`.
///
/// Gives back the value that the coroutine passes and the top of its stack, or none
/// if it is done.
pub fn switch_and_link<C: FnOnce(&mut Machine)>(
    machine: &mut Machine,
    arg: EncodedValue,
    sp: StackPointer,
    stack_base: StackPointer,
    return_address: u64,
    coroutine: C,
) -> (r: (EncodedValue, Option<StackPointer>))
    requires
        mapped(old(machine)@.mem, sp@ + 16, 8),
        forall|m: &mut Machine|
            m@ == link_entered(old(machine)@, arg, sp@, stack_base@, return_address)
                ==> #[trigger] call_requires(coroutine, (m,)),
        forall|m: &mut Machine|
            m@ == link_entered(old(machine)@, arg, sp@, stack_base@, return_address)
                && #[trigger] call_ensures(coroutine, (m,), ()) ==> final(m)@.regs.pc
                == return_address && can_leave(final(m)@),
    ensures
        exists|m: &mut Machine|
            {
                &&& m@ == link_entered(old(machine)@, arg, sp@, stack_base@, return_address)
                &&& #[trigger] call_ensures(coroutine, (m,), ())
                &&& final(machine)@ == link_left(final(m)@)
                &&& r.0 == final(m)@.regs.x0
                &&& r.1 is None <==> final(m)@.regs.x1 == 0
                &&& r.1 matches Some(p) ==> p@ == final(m)@.regs.x1
            },
{
    switch_and_link_enter(machine, arg, sp, stack_base, return_address);
    coroutine(machine);
    switch_and_link_leave(machine)
}

/// The state on entry to the initial function of a coroutine, which starts from `s`.
pub open spec fn init_entered(s: MachineState, symbols: Symbols) -> MachineState {
    let link = s.regs.x1 - PARENT_LINK_OFFSET;
    let top = s.regs.x2 as int;
    let mem = parent_saved(s, s.regs.x1 as int);
    let teb = coroutine_teb(mem, top);
    let func = word_at(mem, s.regs.x1 - INITIAL_FUNC_OFFSET);
    MachineState {
        regs: Registers {
            x1: link as u64,
            x2: (top + FRAME_SIZE) as u64,
            x3: func,
            x4: teb.exception_list,
            x5: teb.stack_base,
            x6: teb.stack_limit,
            x7: teb.deallocation_stack,
            x8: teb.guaranteed_stack_bytes,
            x30: symbols.stack_init_trampoline_return,
            sp: (top + FRAME_SIZE) as u64,
            pc: func,
            ..s.regs
        },
        teb,
        mem,
    }
}

/// The code that a freshly initialized coroutine starts with.
///
/// On entry `sp` is the top of the parent stack, `x30` the return address in the
/// parent context, `x2` the top of the coroutine stack, `x1` its base and `x0` the
/// argument from [`switch_and_link`]. The initial function gets the argument in `x0`,
/// the address of the parent link in `x1` and that of the initial object in `x2`.
pub fn stack_init_trampoline(machine: &mut Machine, symbols: &Symbols)
    requires
        can_enter(old(machine)@, old(machine).regs.x2 as int, old(machine).regs.x1 as int),
        mapped(old(machine)@.mem, old(machine).regs.x1 - INITIAL_FUNC_OFFSET, 8),
    ensures
        final(machine)@ == init_entered(old(machine)@, *symbols),
{
    // Reserve the parent frame and save X29, LR and X19 of the parent context into it.
    machine.regs.sp = machine.regs.sp - FRAME_SIZE;
    machine.memory.store(machine.regs.sp, machine.regs.x29);
    machine.memory.store(machine.regs.sp + 8, machine.regs.x30);
    machine.memory.store(machine.regs.sp + 16, machine.regs.x19);
    // Read the parent TEB fields and save them into the parent frame.
    machine.regs.x4 = machine.teb.load(TEB_EXCEPTION_LIST);
    machine.regs.x5 = machine.teb.load(TEB_STACK_BASE);
    machine.regs.x6 = machine.teb.load(TEB_STACK_LIMIT);
    machine.regs.x7 = machine.teb.load(TEB_DEALLOCATION_STACK);
    machine.regs.x8 = machine.teb.load(TEB_GUARANTEED_STACK_BYTES);
    machine.memory.store(machine.regs.sp + 24, machine.regs.x4);
    machine.memory.store(machine.regs.sp + 32, machine.regs.x5);
    machine.memory.store(machine.regs.sp + 40, machine.regs.x6);
    machine.memory.store(machine.regs.sp + 48, machine.regs.x7);
    machine.memory.store(machine.regs.sp + 56, machine.regs.x8);
    // Write the parent stack pointer to the parent link and point X1 to the link.
    machine.regs.x3 = machine.regs.sp;
    machine.regs.x1 = machine.regs.x1 - PARENT_LINK_OFFSET;
    machine.memory.store(machine.regs.x1, machine.regs.x3);
    // Load the TEB fields for the new stack, with an empty chain of exception records.
    machine.regs.x4 = EXCEPTION_LIST_END;
    machine.teb.store(TEB_EXCEPTION_LIST, machine.regs.x4);
    machine.regs.x5 = machine.memory.load(machine.regs.x2 + 32);
    machine.teb.store(TEB_STACK_BASE, machine.regs.x5);
    machine.regs.x6 = machine.memory.load(machine.regs.x2 + 40);
    machine.teb.store(TEB_STACK_LIMIT, machine.regs.x6);
    machine.regs.x7 = machine.memory.load(machine.regs.x2 + 48);
    machine.teb.store(TEB_DEALLOCATION_STACK, machine.regs.x7);
    machine.regs.x8 = machine.memory.load(machine.regs.x2 + 56);
    machine.teb.store(TEB_GUARANTEED_STACK_BYTES, machine.regs.x8);
    // Switch to the coroutine stack, popping the saved registers and TEB fields.
    machine.regs.sp = machine.regs.x2 + FRAME_SIZE;
    // The third argument of the initial function is the object on the stack.
    machine.regs.x2 = machine.regs.sp;
    // Call the initial function, which sits just above the parent link.
    machine.regs.x30 = symbols.stack_init_trampoline_return;
    machine.regs.x3 = machine.memory.load(machine.regs.x1 + 8);
    machine.regs.pc = machine.regs.x3;
}

/// The frame that the running coroutine leaves behind when it suspends itself, to be
/// resumed at `resume_address`.
pub open spec fn suspended_frame_of(s: MachineState, resume_address: u64) -> SuspendedFrame {
    SuspendedFrame { x19: s.regs.x19, x29: s.regs.x29, pc: resume_address, teb: s.teb }
}

/// Memory once the running coroutine has left its frame on its stack.
pub open spec fn coroutine_saved(s: MachineState, resume_address: u64) -> Map<u64, u8> {
    put_suspended_frame(s.mem, s.regs.sp - FRAME_SIZE, suspended_frame_of(s, resume_address))
}

/// The registers of the parent context whose frame is at `parent`, as they are when
/// control returns to it with the value `arg` from a coroutine suspended at `top`.
pub open spec fn parent_regs(
    regs: Registers,
    m: Map<u64, u8>,
    parent: u64,
    arg: EncodedValue,
    top: u64,
) -> Registers {
    let frame = parent_frame_at(m, parent as int);
    Registers {
        x0: arg,
        x1: top,
        x2: parent,
        x19: frame.x19,
        x29: frame.x29,
        x30: frame.lr,
        pc: frame.lr,
        ..regs
    }
}

/// The running coroutine, whose parent link is at `parent_link`, can suspend itself.
pub open spec fn can_yield(s: MachineState, parent_link: u64, resume_address: u64) -> bool {
    &&& can_push_frame(s)
    &&& mapped(s.mem, parent_link as int, 8)
    &&& mapped(s.mem, word_at(coroutine_saved(s, resume_address), parent_link as int) as int, 24)
}

/// The state once [`switch_yield`] has returned into the parent context. The stack
/// pointer is still that of the coroutine: the parent context takes its own from `x2`.
pub open spec fn yield_suspended(
    s: MachineState,
    arg: EncodedValue,
    parent_link: u64,
    resume_address: u64,
) -> MachineState {
    let top = (s.regs.sp - FRAME_SIZE) as u64;
    let mem = coroutine_saved(s, resume_address);
    let regs = Registers {
        x3: s.teb.exception_list,
        x4: s.teb.stack_base,
        x5: s.teb.stack_limit,
        x6: s.teb.deallocation_stack,
        x7: s.teb.guaranteed_stack_bytes,
        sp: top,
        ..s.regs
    };
    MachineState {
        regs: parent_regs(regs, mem, word_at(mem, parent_link as int), arg, top),
        mem,
        ..s
    }
}

/// The first part of [`switch_yield`]: suspends the coroutine and returns into the
/// parent context.
pub fn switch_yield_suspend(
    machine: &mut Machine,
    arg: EncodedValue,
    parent_link: u64,
    resume_address: u64,
)
    requires
        can_yield(old(machine)@, parent_link, resume_address),
    ensures
        final(machine)@ == yield_suspended(old(machine)@, arg, parent_link, resume_address),
{
    // in("x0") arg, in("x2") parent_link
    machine.regs.x0 = arg;
    machine.regs.x2 = parent_link;
    // Read the coroutine's TEB fields so they can be saved on its stack.
    machine.regs.x3 = machine.teb.load(TEB_EXCEPTION_LIST);
    machine.regs.x4 = machine.teb.load(TEB_STACK_BASE);
    machine.regs.x5 = machine.teb.load(TEB_STACK_LIMIT);
    machine.regs.x6 = machine.teb.load(TEB_DEALLOCATION_STACK);
    machine.regs.x7 = machine.teb.load(TEB_GUARANTEED_STACK_BYTES);
    // Save X19, X29 and our PC, followed by the TEB fields.
    machine.regs.sp = machine.regs.sp - FRAME_SIZE;
    machine.memory.store(machine.regs.sp, machine.regs.x19);
    machine.memory.store(machine.regs.sp + 8, machine.regs.x29);
    machine.regs.x30 = resume_address;
    machine.memory.store(machine.regs.sp + 16, machine.regs.x30);
    machine.memory.store(machine.regs.sp + 24, machine.regs.x3);
    machine.memory.store(machine.regs.sp + 32, machine.regs.x4);
    machine.memory.store(machine.regs.sp + 40, machine.regs.x5);
    machine.memory.store(machine.regs.sp + 48, machine.regs.x6);
    machine.memory.store(machine.regs.sp + 56, machine.regs.x7);
    // Get the parent stack pointer from the parent link.
    machine.regs.x2 = machine.memory.load(machine.regs.x2);
    // Save our stack pointer to X1.
    machine.regs.x1 = machine.regs.sp;
    // Restore X19, X29 and LR from the parent frame.
    machine.regs.x19 = machine.memory.load(machine.regs.x2 + 16);
    machine.regs.x29 = machine.memory.load(machine.regs.x2);
    machine.regs.x30 = machine.memory.load(machine.regs.x2 + 8);
    // Return into the parent context, which restores its TEB fields itself.
    machine.regs.pc = machine.regs.x30;
}

/// The state once a suspended coroutine is running again after it was entered from
/// `s`.
pub open spec fn yield_resumed(s: MachineState) -> MachineState {
    let top = s.regs.x2 as int;
    let mem = parent_saved(s, s.regs.x1 as int);
    let teb = coroutine_teb(mem, top);
    MachineState {
        regs: Registers {
            x3: teb.exception_list,
            x4: teb.stack_base,
            x5: teb.stack_limit,
            x6: teb.deallocation_stack,
            x7: teb.guaranteed_stack_bytes,
            x19: word_at(mem, top),
            x29: word_at(mem, top + 8),
            sp: (top + FRAME_SIZE) as u64,
            ..s.regs
        },
        teb,
        mem,
    }
}

/// The second part of [`switch_yield`]: runs when [`switch_and_link`] has jumped to
/// the address that the coroutine was suspended with.
///
/// On entry `sp` is the top of the parent stack, `x30` the return address in the
/// parent context, `x2` the top of the coroutine stack, `x1` its base and `x0` the
/// argument from [`switch_and_link`], which is given back.
pub fn switch_yield_resume(machine: &mut Machine) -> (r: EncodedValue)
    requires
        can_enter(old(machine)@, old(machine).regs.x2 as int, old(machine).regs.x1 as int),
    ensures
        final(machine)@ == yield_resumed(old(machine)@),
        r == old(machine).regs.x0,
{
    // Read the parent TEB fields so they can be saved on the parent stack.
    machine.regs.x3 = machine.teb.load(TEB_EXCEPTION_LIST);
    machine.regs.x4 = machine.teb.load(TEB_STACK_BASE);
    machine.regs.x5 = machine.teb.load(TEB_STACK_LIMIT);
    machine.regs.x6 = machine.teb.load(TEB_DEALLOCATION_STACK);
    machine.regs.x7 = machine.teb.load(TEB_GUARANTEED_STACK_BYTES);
    // Push the parent context's X29, LR, X19 and TEB fields onto the parent stack to
    // form the parent frame.
    machine.regs.sp = machine.regs.sp - FRAME_SIZE;
    machine.memory.store(machine.regs.sp, machine.regs.x29);
    machine.memory.store(machine.regs.sp + 8, machine.regs.x30);
    machine.memory.store(machine.regs.sp + 16, machine.regs.x19);
    machine.memory.store(machine.regs.sp + 24, machine.regs.x3);
    machine.memory.store(machine.regs.sp + 32, machine.regs.x4);
    machine.memory.store(machine.regs.sp + 40, machine.regs.x5);
    machine.memory.store(machine.regs.sp + 48, machine.regs.x6);
    machine.memory.store(machine.regs.sp + 56, machine.regs.x7);
    // Write the parent stack pointer to the parent link.
    machine.regs.x3 = machine.regs.sp;
    machine.memory.store(machine.regs.x1 - PARENT_LINK_OFFSET, machine.regs.x3);
    // Load our X19 and X29 values from the coroutine stack.
    machine.regs.x19 = machine.memory.load(machine.regs.x2);
    machine.regs.x29 = machine.memory.load(machine.regs.x2 + 8);
    // Load the coroutine's TEB fields, with an empty chain of exception records.
    machine.regs.x3 = EXCEPTION_LIST_END;
    machine.teb.store(TEB_EXCEPTION_LIST, machine.regs.x3);
    machine.regs.x4 = machine.memory.load(machine.regs.x2 + 32);
    machine.teb.store(TEB_STACK_BASE, machine.regs.x4);
    machine.regs.x5 = machine.memory.load(machine.regs.x2 + 40);
    machine.teb.store(TEB_STACK_LIMIT, machine.regs.x5);
    machine.regs.x6 = machine.memory.load(machine.regs.x2 + 48);
    machine.teb.store(TEB_DEALLOCATION_STACK, machine.regs.x6);
    machine.regs.x7 = machine.memory.load(machine.regs.x2 + 56);
    machine.teb.store(TEB_GUARANTEED_STACK_BYTES, machine.regs.x7);
    // Switch to the coroutine stack while popping the saved registers and TEB fields.
    machine.regs.sp = machine.regs.x2 + FRAME_SIZE;
    machine.regs.x0
}

/// Suspends the running coroutine, whose parent link is at `parent_link`, and passes
/// `arg` to its parent context. `parent` is what then runs, until it jumps to
/// `resume_address`.
///
/// Gives back the value that the coroutine is resumed with.
pub fn switch_yield<P: FnOnce(&mut Machine)>(
    machine: &mut Machine,
    arg: EncodedValue,
    parent_link: u64,
    resume_address: u64,
    parent: P,
) -> (r: EncodedValue)
    requires
        can_yield(old(machine)@, parent_link, resume_address),
        forall|m: &mut Machine|
            m@ == yield_suspended(old(machine)@, arg, parent_link, resume_address)
                ==> #[trigger] call_requires(parent, (m,)),
        forall|m: &mut Machine|
            m@ == yield_suspended(old(machine)@, arg, parent_link, resume_address)
                && #[trigger] call_ensures(parent, (m,), ()) ==> final(m)@.regs.pc
                == resume_address && can_enter(
                final(m)@,
                final(m)@.regs.x2 as int,
                final(m)@.regs.x1 as int,
            ),
    ensures
        exists|m: &mut Machine|
            {
                &&& m@ == yield_suspended(old(machine)@, arg, parent_link, resume_address)
                &&& #[trigger] call_ensures(parent, (m,), ())
                &&& final(machine)@ == yield_resumed(final(m)@)
                &&& r == final(m)@.regs.x0
            },
{
    switch_yield_suspend(machine, arg, parent_link, resume_address);
    parent(machine);
    switch_yield_resume(machine)
}

/// Memory once the running coroutine has put the two fields of the environment block
/// that the system changes just below the base of its stack.
pub open spec fn mutable_fields_saved(s: MachineState, parent_link: u64) -> Map<u64, u8> {
    put_word(
        put_word(s.mem, parent_link + 24, s.teb.stack_limit),
        parent_link + 16,
        s.teb.guaranteed_stack_bytes,
    )
}

/// The running coroutine, whose parent link is at `parent_link`, can end itself.
pub open spec fn can_reset(s: MachineState, parent_link: u64) -> bool {
    &&& mapped(s.mem, parent_link as int, PARENT_LINK_OFFSET as int)
    &&& mapped(
        s.mem,
        word_at(mutable_fields_saved(s, parent_link), parent_link as int) as int,
        24,
    )
}

/// The state once [`switch_and_reset`] has returned into the parent context.
pub open spec fn reset_done(s: MachineState, arg: EncodedValue, parent_link: u64) -> MachineState {
    let mem = mutable_fields_saved(s, parent_link);
    let regs = Registers { x4: s.teb.guaranteed_stack_bytes, ..s.regs };
    MachineState {
        regs: parent_regs(regs, mem, word_at(mem, parent_link as int), arg, 0),
        mem,
        ..s
    }
}

/// Ends the running coroutine, whose parent link is at `parent_link`, and returns into
/// its parent context with the value `arg` and without a stack pointer, which tells
/// that the coroutine is done.
///
/// The operand `parent_link` is in a register that the routine does not write before its
/// last use. Control does not come back here: it goes on at `pc`, in the parent context.
pub fn switch_and_reset(machine: &mut Machine, arg: EncodedValue, parent_link: u64)
    requires
        can_reset(old(machine)@, parent_link),
    ensures
        final(machine)@ == reset_done(old(machine)@, arg, parent_link),
{
    // in("x0") arg, in("x1") 0
    machine.regs.x0 = arg;
    machine.regs.x1 = 0;
    // Save the 2 mutable TEB fields to the base of the stack so they can be recovered
    // by update_stack_teb_fields() if the stack is reused.
    machine.regs.x4 = machine.teb.load(TEB_STACK_LIMIT);
    machine.memory.store(parent_link + 24, machine.regs.x4);
    machine.regs.x4 = machine.teb.load(TEB_GUARANTEED_STACK_BYTES);
    machine.memory.store(parent_link + 16, machine.regs.x4);
    // Load the parent context's stack pointer.
    machine.regs.x2 = machine.memory.load(parent_link);
    // Restore X19, X29 and LR from the parent frame.
    machine.regs.x19 = machine.memory.load(machine.regs.x2 + 16);
    machine.regs.x29 = machine.memory.load(machine.regs.x2);
    machine.regs.x30 = machine.memory.load(machine.regs.x2 + 8);
    // Return into the parent context.
    machine.regs.pc = machine.regs.x30;
}

/// The state on entry to the function that unwinds the coroutine suspended at `sp`.
pub open spec fn throw_entered(
    s: MachineState,
    forced_unwind: u64,
    sp: u64,
    stack_base: u64,
    return_address: u64,
    symbols: Symbols,
) -> MachineState {
    let s = MachineState { regs: Registers { x30: return_address, ..s.regs }, ..s };
    let top = sp as int;
    let mem = parent_saved(s, stack_base as int);
    let teb = coroutine_teb(mem, top);
    MachineState {
        regs: Registers {
            x0: forced_unwind,
            x1: stack_base,
            x2: sp,
            x3: (s.regs.sp - FRAME_SIZE) as u64,
            x4: teb.exception_list,
            x5: teb.stack_base,
            x6: teb.stack_limit,
            x7: teb.deallocation_stack,
            x8: teb.guaranteed_stack_bytes,
            x19: word_at(mem, top),
            x29: word_at(mem, top + 8),
            x30: word_at(mem, top + 16),
            sp: (top + FRAME_SIZE) as u64,
            pc: symbols.throw,
            ..s.regs
        },
        teb,
        mem,
    }
}

/// The first part of [`switch_and_throw`]: enters the coroutine suspended at `sp` in
/// the function that starts to unwind it, as if the suspension had called that
/// function.
pub fn switch_and_throw_enter(
    machine: &mut Machine,
    forced_unwind: u64,
    sp: StackPointer,
    stack_base: StackPointer,
    return_address: u64,
    symbols: &Symbols,
)
    requires
        can_enter(old(machine)@, sp@ as int, stack_base@ as int),
    ensures
        final(machine)@ == throw_entered(
            old(machine)@,
            forced_unwind,
            sp@,
            stack_base@,
            return_address,
            *symbols,
        ),
{
    // in("x0") forced_unwind, in("x1") stack_base, in("x2") sp
    machine.regs.x0 = forced_unwind;
    machine.regs.x1 = stack_base.get();
    machine.regs.x2 = sp.get();
    // Set up a return address.
    machine.regs.x30 = return_address;
    // Read the parent TEB fields so they can be saved on the parent stack.
    machine.regs.x4 = machine.teb.load(TEB_EXCEPTION_LIST);
    machine.regs.x5 = machine.teb.load(TEB_STACK_BASE);
    machine.regs.x6 = machine.teb.load(TEB_STACK_LIMIT);
    machine.regs.x7 = machine.teb.load(TEB_DEALLOCATION_STACK);
    machine.regs.x8 = machine.teb.load(TEB_GUARANTEED_STACK_BYTES);
    // Save the registers and TEB fields of the parent context.
    machine.regs.sp = machine.regs.sp - FRAME_SIZE;
    machine.memory.store(machine.regs.sp, machine.regs.x29);
    machine.memory.store(machine.regs.sp + 8, machine.regs.x30);
    machine.memory.store(machine.regs.sp + 16, machine.regs.x19);
    machine.memory.store(machine.regs.sp + 24, machine.regs.x4);
    machine.memory.store(machine.regs.sp + 32, machine.regs.x5);
    machine.memory.store(machine.regs.sp + 40, machine.regs.x6);
    machine.memory.store(machine.regs.sp + 48, machine.regs.x7);
    machine.memory.store(machine.regs.sp + 56, machine.regs.x8);
    // Update the parent link near the base of the coroutine stack.
    machine.regs.x3 = machine.regs.sp;
    machine.memory.store(machine.regs.x1 - PARENT_LINK_OFFSET, machine.regs.x3);
    // Load the coroutine registers, with the saved PC into LR.
    machine.regs.x30 = machine.memory.load(machine.regs.x2 + 16);
    machine.regs.x19 = machine.memory.load(machine.regs.x2);
    machine.regs.x29 = machine.memory.load(machine.regs.x2 + 8);
    // Load the coroutine's TEB fields, with an empty chain of exception records.
    machine.regs.x4 = EXCEPTION_LIST_END;
    machine.teb.store(TEB_EXCEPTION_LIST, machine.regs.x4);
    machine.regs.x5 = machine.memory.load(machine.regs.x2 + 32);
    machine.teb.store(TEB_STACK_BASE, machine.regs.x5);
    machine.regs.x6 = machine.memory.load(machine.regs.x2 + 40);
    machine.teb.store(TEB_STACK_LIMIT, machine.regs.x6);
    machine.regs.x7 = machine.memory.load(machine.regs.x2 + 48);
    machine.teb.store(TEB_DEALLOCATION_STACK, machine.regs.x7);
    machine.regs.x8 = machine.memory.load(machine.regs.x2 + 56);
    machine.teb.store(TEB_GUARANTEED_STACK_BYTES, machine.regs.x8);
    // Switch to the coroutine stack while popping the saved registers and TEB fields.
    machine.regs.sp = machine.regs.x2 + FRAME_SIZE;
    // Simulate a call with an artificial return address.
    machine.regs.pc = symbols.throw;
}

/// Unwinds the coroutine suspended at `sp`, on the stack that starts at `stack_base`,
/// by throwing `forced_unwind` from its last suspension. `unwinding` is what then runs
/// on the coroutine stack, until it returns to `return_address`.
///
/// Gives back what [`switch_and_link`] does.
pub fn switch_and_throw<C: FnOnce(&mut Machine)>(
    machine: &mut Machine,
    forced_unwind: u64,
    sp: StackPointer,
    stack_base: StackPointer,
    return_address: u64,
    symbols: &Symbols,
    unwinding: C,
) -> (r: (EncodedValue, Option<StackPointer>))
    requires
        can_enter(old(machine)@, sp@ as int, stack_base@ as int),
        forall|m: &mut Machine|
            m@ == throw_entered(
                old(machine)@,
                forced_unwind,
                sp@,
                stack_base@,
                return_address,
                *symbols,
            ) ==> #[trigger] call_requires(unwinding, (m,)),
        forall|m: &mut Machine|
            m@ == throw_entered(
                old(machine)@,
                forced_unwind,
                sp@,
                stack_base@,
                return_address,
                *symbols,
            ) && #[trigger] call_ensures(unwinding, (m,), ()) ==> final(m)@.regs.pc
                == return_address && can_leave(final(m)@),
    ensures
        exists|m: &mut Machine|
            {
                &&& m@ == throw_entered(
                    old(machine)@,
                    forced_unwind,
                    sp@,
                    stack_base@,
                    return_address,
                    *symbols,
                )
                &&& #[trigger] call_ensures(unwinding, (m,), ())
                &&& final(machine)@ == link_left(final(m)@)
                &&& r.0 == final(m)@.regs.x0
                &&& r.1 is None <==> final(m)@.regs.x1 == 0
                &&& r.1 matches Some(p) ==> p@ == final(m)@.regs.x1
            },
{
    switch_and_throw_enter(
        machine,
        forced_unwind,
        sp,
        stack_base,
        return_address,
        symbols,
    );
    unwinding(machine);
    switch_and_link_leave(machine)
}

} // verus!
