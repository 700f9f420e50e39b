//! Setting up the stack of a coroutine that is about to start.
use crate::frames::{FRAME_SIZE, INITIAL_FUNC_OFFSET};
use crate::machine::Symbols;
use crate::memory::{mapped, put_bytes, put_word, Memory};
use crate::stack::{
    adjusted_stack_base, allocate_obj_on_stack, lemma_object_address, object_address, push,
    stack_top, Stack, StackObject, StackPointer, StackTebFields, PARENT_LINK_OFFSET,
    STACK_ALIGNMENT,
};
use vstd::prelude::*;

verus! {

/// Where the initial object of a coroutine is placed, on a stack that starts at
/// `stack_base`.
pub open spec fn initial_obj_address(stack_base: int, obj: StackObject) -> int {
    object_address(
        stack_base - PARENT_LINK_OFFSET,
        obj.bytes@.len() as int,
        obj.align as int,
    )
}

/// Memory once a coroutine is initialized on the stack that starts at `stack_base`.
///
/// ```text
/// +--------------------------+  <- Stack base
/// | TEB.StackLimit           |  <- Left as it is.
/// +--------------------------+
/// | TEB.GuaranteedStackBytes |  <- Left as it is.
/// +--------------------------+
/// | Initial func             |
/// +--------------------------+
/// | Parent link              |  <- Left as it is.
/// +--------------------------+
/// |                          |
/// ~ Initial obj              ~  <- Rounded up to `STACK_ALIGNMENT`.
/// |                          |
/// +--------------------------+
/// | TEB.GuaranteedStackBytes |  <-
/// +--------------------------+   |
/// | TEB.DeallocationStack    |  <- Initial values for the TEB fields on the
/// +--------------------------+   | new stack.
/// | TEB.StackLimit           |  <-
/// +--------------------------+   |
/// | TEB.StackBase            |  <-
/// +--------------------------+
/// | Padding (ExceptionList)  |
/// +--------------------------+
/// | Initial PC               |  <- Points to stack_init_trampoline
/// +--------------------------+
/// | Padding (X29)            |
/// +--------------------------+
/// | Padding (X19)            |  <- Initial stack pointer
/// +--------------------------+
/// ```
pub open spec fn initialized(
    m: Map<u64, u8>,
    stack_base: int,
    teb: StackTebFields,
    func: u64,
    obj: StackObject,
    symbols: Symbols,
) -> Map<u64, u8> {
    let at = initial_obj_address(stack_base, obj);
    let m = put_word(m, stack_base - INITIAL_FUNC_OFFSET, func);
    let m = put_bytes(m, at, obj.bytes@);
    let m = put_word(m, at - 8, teb.GuaranteedStackBytes);
    let m = put_word(m, at - 16, teb.DeallocationStack);
    let m = put_word(m, at - 24, teb.StackLimit);
    let m = put_word(m, at - 32, teb.StackBase);
    put_word(m, at - 48, symbols.stack_init_trampoline)
}

/// A coroutine with the initial object `obj` fits on the stack that starts at
/// `stack_base`.
pub open spec fn initial_frame_fits(m: Map<u64, u8>, stack_base: int, obj: StackObject) -> bool {
    let top = initial_obj_address(stack_base, obj) - FRAME_SIZE;
    &&& PARENT_LINK_OFFSET + obj.bytes@.len() <= stack_base
    &&& 0 < top
    &&& mapped(m, top, stack_base - top)
}

/// Sets up a stack so that the first switch to it calls `func` with the address of
/// `obj`. Gives back the initial stack pointer.
pub fn init_stack<S: Stack>(
    memory: &mut Memory,
    stack: &S,
    func: u64,
    obj: StackObject,
    symbols: &Symbols,
) -> (r: StackPointer)
    requires
        obj.wf(),
        stack.spec_base() >= STACK_ALIGNMENT,
        initial_frame_fits(old(memory)@, stack_top(*stack), obj),
    ensures
        r@ == initial_obj_address(stack_top(*stack), obj) - FRAME_SIZE,
        r@ % STACK_ALIGNMENT == 0,
        (r@ + FRAME_SIZE) % obj.align as int == 0,
        r@ + FRAME_SIZE + obj.bytes@.len() <= stack_top(*stack) - PARENT_LINK_OFFSET,
        stack_top(*stack) - PARENT_LINK_OFFSET < r@ + FRAME_SIZE + obj.bytes@.len() + (
        if obj.align > STACK_ALIGNMENT {
            obj.align
        } else {
            STACK_ALIGNMENT
        }),
        final(memory)@ == initialized(
            old(memory)@,
            stack_top(*stack),
            stack.spec_teb_fields(),
            func,
            obj,
            *symbols,
        ),
        final(memory)@.dom() == old(memory)@.dom(),
{
    proof {
        lemma_object_address(
            stack_top(*stack) - PARENT_LINK_OFFSET,
            obj.bytes@.len() as int,
            obj.align as int,
        );
    }
    let mut sp = adjusted_stack_base(stack).get();
    // Placeholders for returning TEB.StackLimit and TEB.GuaranteedStackBytes.
    push(memory, &mut sp, None);
    push(memory, &mut sp, None);
    // Initial function.
    push(memory, &mut sp, Some(func));
    // Placeholder for parent link.
    push(memory, &mut sp, None);
    // Allocate space on the stack for the initial object, rounding to STACK_ALIGNMENT.
    allocate_obj_on_stack(memory, &mut sp, 32, obj);
    // Write the TEB fields for the target stack.
    let teb = stack.teb_fields();
    push(memory, &mut sp, Some(teb.GuaranteedStackBytes));
    push(memory, &mut sp, Some(teb.DeallocationStack));
    push(memory, &mut sp, Some(teb.StackLimit));
    push(memory, &mut sp, Some(teb.StackBase));
    // Padding for the ExceptionList slot in the suspended frame.
    push(memory, &mut sp, None);
    // Entry point called by switch_and_link(), which looks for the target PC 16 bytes
    // above the stack pointer.
    push(memory, &mut sp, Some(symbols.stack_init_trampoline));
    // Padding for the saved X29 and X19 slots.
    push(memory, &mut sp, None);
    push(memory, &mut sp, None);
    StackPointer::new_unchecked(sp)
}

/// Registers which must be updated upon return from a trap handler.
///
/// *All* registers must be updated to the specified values. To catch any issues at
/// compilation time, it is recommended to use pattern matching to extract the
/// individual registers from this struct.
#[derive(Clone, Copy, Debug, PartialEq, Eq, Structural)]
pub struct TrapHandlerRegs {
    pub pc: u64,
    pub sp: u64,
    pub x0: u64,
    pub x1: u64,
    pub x29: u64,
    pub lr: u64,
}

/// The registers with which a coroutine on the stack that starts at `stack_base` continues
/// in `handler` with the value `val`.
pub open spec fn trap_regs(
    stack_base: int,
    val: StackObject,
    handler: u64,
    symbols: Symbols,
) -> TrapHandlerRegs {
    let at = initial_obj_address(stack_base, val) as u64;
    let link = (stack_base - PARENT_LINK_OFFSET) as u64;
    TrapHandlerRegs {
        pc: handler,
        sp: at,
        x0: at,
        x1: link,
        x29: link,
        lr: symbols.stack_init_trampoline_return,
    }
}

/// Prepares a coroutine that was stopped by a trap, on the stack that starts at
/// `stack_base`, to continue in `handler` with the address of `val`. Gives back the
/// registers to continue with.
pub fn setup_trap_trampoline(
    memory: &mut Memory,
    stack_base: StackPointer,
    val: StackObject,
    handler: u64,
    symbols: &Symbols,
) -> (r: TrapHandlerRegs)
    requires
        val.wf(),
        stack_base@ % STACK_ALIGNMENT == 0,
        PARENT_LINK_OFFSET + val.bytes@.len() <= stack_base@,
        mapped(
            old(memory)@,
            initial_obj_address(stack_base@ as int, val),
            val.bytes@.len() as int,
        ),
    ensures
        ({
            let at = initial_obj_address(stack_base@ as int, val);
            let link = (stack_base@ - PARENT_LINK_OFFSET) as u64;
            &&& r == (TrapHandlerRegs {
                pc: handler,
                sp: at as u64,
                x0: at as u64,
                x1: link,
                x29: link,
                lr: symbols.stack_init_trampoline_return,
            })
            &&& final(memory)@ == put_bytes(old(memory)@, at, val.bytes@)
        }),
        r == trap_regs(stack_base@ as int, val, handler, *symbols),
        r.sp % STACK_ALIGNMENT == 0,
        r.x0 % val.align == 0,
        r.x0 + val.bytes@.len() <= stack_base@ - PARENT_LINK_OFFSET,
        stack_base@ - PARENT_LINK_OFFSET < r.x0 + val.bytes@.len() + (if val.align
            > STACK_ALIGNMENT {
            val.align
        } else {
            STACK_ALIGNMENT
        }),
        final(memory)@.dom() == old(memory)@.dom(),
{
    // Preserve the top 32 bytes of the stack since they contain the parent link. The
    // top 16 bytes are filled by switch_and_reset() with TEB fields.
    let parent_link = stack_base.get() - PARENT_LINK_OFFSET;
    // Everything below this can be overwritten. Write the object to the stack.
    let mut sp = parent_link;
    allocate_obj_on_stack(memory, &mut sp, 32, val);
    let val_ptr = sp;
    // Set up registers for entry into the function.
    TrapHandlerRegs {
        pc: handler,
        sp,
        x0: val_ptr,
        x1: parent_link,
        x29: parent_link,
        lr: symbols.stack_init_trampoline_return,
    }
}

} // verus!
