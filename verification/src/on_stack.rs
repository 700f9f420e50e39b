//! Running a function on another stack.
use crate::frames::{call_frame_at, put_call_frame, CallFrame, FRAME_SIZE};
use crate::machine::{
    Machine, MachineState, Registers, Symbols, Teb, EXCEPTION_LIST_END, TEB_DEALLOCATION_STACK,
    TEB_EXCEPTION_LIST, TEB_GUARANTEED_STACK_BYTES, TEB_STACK_BASE, TEB_STACK_LIMIT,
};
use crate::memory::{mapped, word_at};
use crate::stack::{adjusted_stack_base, stack_top, Stack, StackTebFields, STACK_ALIGNMENT};
use crate::switch::can_push_frame;
use crate::teb_fields::{
    mutable_fields_mapped, put_mutable_fields, update_stack_teb_fields, with_mutable_fields,
};
use vstd::prelude::*;

verus! {

/// Room left above a function that is called on another stack.
///
/// An unwinder that processes the function's caller adds the size of the caller's
/// frame to the stack pointer. The room keeps the result within the bounds of the
/// stack in the environment block.
pub const CALL_HEADROOM: u64 = 128;

/// The function and the stack that [`stack_call_trampoline_enter`] is given in
/// registers can be switched to from `s`.
pub open spec fn can_call(s: MachineState) -> bool {
    &&& can_push_frame(s)
    &&& CALL_HEADROOM <= s.regs.x1
}

/// The state on entry to the function at `x2`, called on the stack that starts at
/// `x1`, with the fields of the environment block for that stack in `x3` to `x6`.
pub open spec fn call_entered(s: MachineState, symbols: Symbols) -> MachineState {
    let frame = s.regs.sp - FRAME_SIZE;
    MachineState {
        regs: Registers {
            x7: EXCEPTION_LIST_END,
            x9: s.teb.stack_base,
            x10: s.teb.stack_limit,
            x11: s.teb.deallocation_stack,
            x12: s.teb.guaranteed_stack_bytes,
            x29: frame as u64,
            x30: symbols.stack_call_trampoline_return,
            sp: (s.regs.x1 - CALL_HEADROOM) as u64,
            pc: s.regs.x2,
            ..s.regs
        },
        teb: Teb {
            exception_list: EXCEPTION_LIST_END,
            stack_base: s.regs.x3,
            stack_limit: s.regs.x4,
            deallocation_stack: s.regs.x5,
            guaranteed_stack_bytes: s.regs.x6,
        },
        mem: put_call_frame(
            s.mem,
            frame,
            CallFrame {
                x29: s.regs.x29,
                lr: s.regs.x30,
                teb: s.teb,
                stack_base: s.regs.x1,
            },
        ),
    }
}

/// The first part of the code that calls a function on another stack, up to the call.
///
/// On entry `x0` is the argument for the function, `x1` the base of the new stack, `x2`
/// the function, and `x3` to `x6` are the fields of the environment block for the new
/// stack.
pub fn stack_call_trampoline_enter(machine: &mut Machine, symbols: &Symbols)
    requires
        can_call(old(machine)@),
    ensures
        final(machine)@ == call_entered(old(machine)@, *symbols),
{
    // Reserve the frame and save X29 and LR.
    machine.regs.sp = machine.regs.sp - FRAME_SIZE;
    machine.memory.store(machine.regs.sp, machine.regs.x29);
    machine.memory.store(machine.regs.sp + 8, machine.regs.x30);
    // Set up the frame pointer, by which the way back is found.
    machine.regs.x29 = machine.regs.sp;
    // Save the caller's TEB fields into the frame.
    machine.regs.x7 = machine.teb.load(TEB_EXCEPTION_LIST);
    machine.memory.store(machine.regs.sp + 16, machine.regs.x7);
    machine.regs.x9 = machine.teb.load(TEB_STACK_BASE);
    machine.regs.x10 = machine.teb.load(TEB_STACK_LIMIT);
    machine.memory.store(machine.regs.sp + 24, machine.regs.x9);
    machine.memory.store(machine.regs.sp + 32, machine.regs.x10);
    machine.regs.x11 = machine.teb.load(TEB_DEALLOCATION_STACK);
    machine.regs.x12 = machine.teb.load(TEB_GUARANTEED_STACK_BYTES);
    machine.memory.store(machine.regs.sp + 40, machine.regs.x11);
    machine.memory.store(machine.regs.sp + 48, machine.regs.x12);
    // Save the new stack base so that the changeable TEB fields can be written back to
    // it after the call. It cannot be recomputed from TEB.StackBase: for a parent stack
    // that is the real base of the thread, and X1 a point on its stack.
    machine.memory.store(machine.regs.sp + 56, machine.regs.x1);
    // Switch to the new stack and leave room above the function.
    machine.regs.sp = machine.regs.x1;
    machine.regs.sp = machine.regs.sp - CALL_HEADROOM;
    // Set the TEB fields for the new stack, with an empty chain of exception records.
    machine.regs.x7 = EXCEPTION_LIST_END;
    machine.teb.store(TEB_EXCEPTION_LIST, machine.regs.x7);
    machine.teb.store(TEB_STACK_BASE, machine.regs.x3);
    machine.teb.store(TEB_STACK_LIMIT, machine.regs.x4);
    machine.teb.store(TEB_DEALLOCATION_STACK, machine.regs.x5);
    machine.teb.store(TEB_GUARANTEED_STACK_BYTES, machine.regs.x6);
    // Call the function. The argument is already in X0.
    machine.regs.x30 = symbols.stack_call_trampoline_return;
    machine.regs.pc = machine.regs.x2;
}

/// The function has returned, with the frame of its caller at `x29`.
pub open spec fn can_return(s: MachineState) -> bool {
    &&& mapped(s.mem, s.regs.x29 as int, FRAME_SIZE as int)
    &&& s.regs.x29 + FRAME_SIZE <= u64::MAX
    &&& mutable_fields_mapped(s.mem, word_at(s.mem, s.regs.x29 + 56) as int)
}

/// The state once the caller has its stack and its environment block back.
pub open spec fn call_left(s: MachineState) -> MachineState {
    let mem = put_mutable_fields(
        s.mem,
        word_at(s.mem, s.regs.x29 + 56) as int,
        s.teb.stack_limit,
        s.teb.guaranteed_stack_bytes,
    );
    let frame = call_frame_at(mem, s.regs.x29 as int);
    MachineState {
        regs: Registers {
            x4: s.teb.guaranteed_stack_bytes,
            x7: frame.teb.exception_list,
            x9: frame.teb.stack_base,
            x10: frame.teb.stack_limit,
            x11: frame.teb.deallocation_stack,
            x12: frame.teb.guaranteed_stack_bytes,
            x29: frame.x29,
            x30: frame.lr,
            sp: (s.regs.x29 + FRAME_SIZE) as u64,
            pc: frame.lr,
            ..s.regs
        },
        teb: frame.teb,
        mem,
    }
}

/// The second part of the code that calls a function on another stack, from its return
/// on.
pub fn stack_call_trampoline_leave(machine: &mut Machine)
    requires
        can_return(old(machine)@),
    ensures
        final(machine)@ == call_left(old(machine)@),
        final(machine)@.mem.dom() == old(machine)@.mem.dom(),
{
    // Save the two changeable TEB fields just below the new stack base.
    machine.regs.x9 = machine.memory.load(machine.regs.x29 + 56);
    machine.regs.x4 = machine.teb.load(TEB_STACK_LIMIT);
    machine.memory.store(machine.regs.x9 - 8, machine.regs.x4);
    machine.regs.x4 = machine.teb.load(TEB_GUARANTEED_STACK_BYTES);
    machine.memory.store(machine.regs.x9 - 16, machine.regs.x4);
    // Switch back to the original stack using the frame pointer.
    machine.regs.sp = machine.regs.x29;
    // Restore the caller's TEB fields and registers, then return.
    machine.regs.x7 = machine.memory.load(machine.regs.sp + 16);
    machine.teb.store(TEB_EXCEPTION_LIST, machine.regs.x7);
    machine.regs.x9 = machine.memory.load(machine.regs.sp + 24);
    machine.regs.x10 = machine.memory.load(machine.regs.sp + 32);
    machine.teb.store(TEB_STACK_BASE, machine.regs.x9);
    machine.teb.store(TEB_STACK_LIMIT, machine.regs.x10);
    machine.regs.x11 = machine.memory.load(machine.regs.sp + 40);
    machine.regs.x12 = machine.memory.load(machine.regs.sp + 48);
    machine.teb.store(TEB_DEALLOCATION_STACK, machine.regs.x11);
    machine.teb.store(TEB_GUARANTEED_STACK_BYTES, machine.regs.x12);
    machine.regs.x29 = machine.memory.load(machine.regs.sp);
    machine.regs.x30 = machine.memory.load(machine.regs.sp + 8);
    machine.regs.sp = machine.regs.sp + FRAME_SIZE;
    machine.regs.pc = machine.regs.x30;
}

/// The state when the code that calls a function on another stack is called: its
/// operands are in registers.
pub open spec fn call_prepared(
    s: MachineState,
    arg: u64,
    stack_base: u64,
    fields: StackTebFields,
    f: u64,
    return_address: u64,
    symbols: Symbols,
) -> MachineState {
    MachineState {
        regs: Registers {
            x0: arg,
            x1: stack_base,
            x2: f,
            x3: fields.StackBase,
            x4: fields.StackLimit,
            x5: fields.DeallocationStack,
            x6: fields.GuaranteedStackBytes,
            x30: return_address,
            pc: symbols.stack_call_trampoline,
            ..s.regs
        },
        ..s
    }
}

/// The state on entry to the function that [`on_stack`] calls.
pub open spec fn on_stack_entered<S: Stack>(
    s: MachineState,
    arg: u64,
    stack: S,
    f: u64,
    return_address: u64,
    symbols: Symbols,
) -> MachineState {
    call_entered(
        call_prepared(
            s,
            arg,
            stack_top(stack) as u64,
            stack.spec_teb_fields(),
            f,
            return_address,
            symbols,
        ),
        symbols,
    )
}

/// `body` ran on the value that a guard held, which was `value` before and `left`
/// after, and gave `out`; `drop_fn` then ran on `left`.
pub open spec fn scope_ran<T, R, B: FnOnce(&mut T) -> R, D: FnOnce(T)>(
    value: T,
    body: B,
    drop_fn: D,
    held: &mut T,
    left: T,
    out: R,
) -> bool {
    &&& *held == value
    &&& call_ensures(body, (held,), out)
    &&& call_ensures(drop_fn, (left,), ())
}

/// Runs `body` in the scope of a guard made by `scopeguard::guard`.
///
/// The guard owns `value` and lends it to `body` through its `DerefMut`. When the scope
/// ends, the guard's destructor calls `drop_fn` once, with the value as `body` left it.
/// That it does so too when `body` unwinds is not stated: there is no result then.
#[verifier::external_body]
fn guarded<T, R, B: FnOnce(&mut T) -> R, D: FnOnce(T)>(value: T, body: B, drop_fn: D) -> (out: R)
    requires
        forall|held: &mut T| *held == value ==> #[trigger] call_requires(body, (held,)),
        forall|held: &mut T, r: R|
            *held == value && #[trigger] call_ensures(body, (held,), r) ==> call_requires(
                drop_fn,
                (*final(held),),
            ),
    ensures
        exists|held: &mut T| #[trigger] scope_ran(value, body, drop_fn, held, *final(held), out),
{
    let mut guard = scopeguard::guard(value, drop_fn);
    body(&mut *guard)
}

/// What a call on another stack works with.
struct StackScope<'a, S: Stack> {
    machine: &'a mut Machine,
    stack: &'a mut S,
}

/// Takes the fields that the call left below the base of its stack over into the stack.
fn leave_scope<'a, S: Stack>(scope: StackScope<'a, S>)
    requires
        scope.stack.spec_base() >= STACK_ALIGNMENT,
        mutable_fields_mapped(scope.machine@.mem, stack_top(*scope.stack)),
    ensures
        *final(scope.machine) == *old(scope.machine),
        final(scope.stack).spec_base() == old(scope.stack).spec_base(),
        final(scope.stack).spec_teb_fields() == with_mutable_fields(
            old(scope.stack).spec_teb_fields(),
            old(scope.machine)@.mem,
            stack_top(*old(scope.stack)),
        ),
{
    update_stack_teb_fields(&scope.machine.memory, scope.stack);
}

/// Switches to `stack`, calls the function and switches back.
fn call_in_scope<'a, S: Stack, F: FnOnce(&mut Machine)>(
    scope: &mut StackScope<'a, S>,
    arg: u64,
    f: u64,
    return_address: u64,
    symbols: &Symbols,
    function: F,
)
    requires
        old(scope).stack.spec_base() >= STACK_ALIGNMENT,
        can_push_frame(old(scope).machine@),
        stack_top(*old(scope).stack) >= CALL_HEADROOM,
        forall|m: &mut Machine|
            m@ == on_stack_entered(
                old(scope).machine@,
                arg,
                *old(scope).stack,
                f,
                return_address,
                *symbols,
            ) ==> #[trigger] call_requires(function, (m,)),
        forall|m: &mut Machine|
            m@ == on_stack_entered(
                old(scope).machine@,
                arg,
                *old(scope).stack,
                f,
                return_address,
                *symbols,
            ) && #[trigger] call_ensures(function, (m,), ()) ==> can_return(final(m)@),
    ensures
        *final(scope).stack == *old(scope).stack,
        *final(final(scope).stack) == *final(old(scope).stack),
        *final(final(scope).machine) == *final(old(scope).machine),
        exists|m: &mut Machine|
            {
                &&& m@ == on_stack_entered(
                    old(scope).machine@,
                    arg,
                    *old(scope).stack,
                    f,
                    return_address,
                    *symbols,
                )
                &&& #[trigger] call_ensures(function, (m,), ())
                &&& final(scope).machine@ == call_left(final(m)@)
                &&& final(scope).machine@.mem.dom() == final(m)@.mem.dom()
            },
{
    let teb_fields = scope.stack.teb_fields();
    let stack_base = adjusted_stack_base(&*scope.stack);
    // in("x0") arg, in("x1") stack base, in("x2") f, in("x3") to in("x6") TEB fields
    scope.machine.regs.x0 = arg;
    scope.machine.regs.x1 = stack_base.get();
    scope.machine.regs.x2 = f;
    scope.machine.regs.x3 = teb_fields.StackBase;
    scope.machine.regs.x4 = teb_fields.StackLimit;
    scope.machine.regs.x5 = teb_fields.DeallocationStack;
    scope.machine.regs.x6 = teb_fields.GuaranteedStackBytes;
    // bl stack_call_trampoline
    scope.machine.regs.x30 = return_address;
    scope.machine.regs.pc = symbols.stack_call_trampoline;
    stack_call_trampoline_enter(scope.machine, symbols);
    function(scope.machine);
    stack_call_trampoline_leave(scope.machine);
}

/// Executes a function on the given stack and passes `arg` to it. `f` is the address of
/// the function and `function` what it does, until it returns to the address in `x30`.
///
/// When the function is done, the stack takes over the fields of the environment block
/// that may have changed in the meantime.
pub fn on_stack<S: Stack, F: FnOnce(&mut Machine)>(
    machine: &mut Machine,
    arg: u64,
    stack: &mut S,
    f: u64,
    return_address: u64,
    symbols: &Symbols,
    function: F,
)
    requires
        old(stack).spec_base() >= STACK_ALIGNMENT,
        can_push_frame(old(machine)@),
        stack_top(*old(stack)) >= CALL_HEADROOM,
        forall|m: &mut Machine|
            m@ == on_stack_entered(
                old(machine)@,
                arg,
                *old(stack),
                f,
                return_address,
                *symbols,
            ) ==> #[trigger] call_requires(function, (m,)),
        forall|m: &mut Machine|
            m@ == on_stack_entered(
                old(machine)@,
                arg,
                *old(stack),
                f,
                return_address,
                *symbols,
            ) && #[trigger] call_ensures(function, (m,), ()) ==> final(m)@.regs.pc
                == symbols.stack_call_trampoline_return && can_return(final(m)@)
                && mutable_fields_mapped(final(m)@.mem, stack_top(*old(stack))),
    ensures
        exists|m: &mut Machine|
            {
                &&& m@ == on_stack_entered(
                    old(machine)@,
                    arg,
                    *old(stack),
                    f,
                    return_address,
                    *symbols,
                )
                &&& #[trigger] call_ensures(function, (m,), ())
                &&& final(machine)@ == call_left(final(m)@)
            },
        final(stack).spec_base() == old(stack).spec_base(),
        final(stack).spec_teb_fields() == with_mutable_fields(
            old(stack).spec_teb_fields(),
            final(machine)@.mem,
            stack_top(*old(stack)),
        ),
{
    let ghost before = machine@;
    let ghost unused = *stack;
    let call = |scope: &mut StackScope<S>|
        requires
            scope.machine@ == before && *scope.stack == unused,
        ensures
            ({
                &&& *final(scope).stack == unused
                &&& *final(final(scope).stack) == *final(old(scope).stack)
                &&& *final(final(scope).machine) == *final(old(scope).machine)
                &&& exists|m: &mut Machine|
                    {
                        &&& m@ == on_stack_entered(
                            before,
                            arg,
                            unused,
                            f,
                            return_address,
                            *symbols,
                        )
                        &&& #[trigger] call_ensures(function, (m,), ())
                        &&& final(scope).machine@ == call_left(final(m)@)
                        &&& final(scope).machine@.mem.dom() == final(m)@.mem.dom()
                    }
            }),
        {
            call_in_scope(scope, arg, f, return_address, symbols, function)
        };
    guarded(StackScope { machine, stack }, call, leave_scope);
}

} // verus!
