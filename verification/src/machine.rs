//! The part of the processor and of the thread that a stack switch touches.
use crate::memory::Memory;
use vstd::prelude::*;

verus! {

/// A word on the stack.
pub type StackWord = u64;

/// A value passed through a switch in a register.
pub type EncodedValue = u64;

// Offsets of the relevant fields in the Thread Environment Block, which the `x18`
// platform register points to.

/// Offset of `NtTib.ExceptionList`.
pub const TEB_EXCEPTION_LIST: u64 = 0x0000;

/// Offset of `NtTib.StackBase`.
pub const TEB_STACK_BASE: u64 = 0x0008;

/// Offset of `NtTib.StackLimit`.
pub const TEB_STACK_LIMIT: u64 = 0x0010;

/// Offset of `DeallocationStack`.
pub const TEB_DEALLOCATION_STACK: u64 = 0x1478;

/// Offset of `GuaranteedStackBytes`.
pub const TEB_GUARANTEED_STACK_BYTES: u64 = 0x1748;

/// The value of `NtTib.ExceptionList` that ends the chain of exception records.
pub const EXCEPTION_LIST_END: u64 = 0xffff_ffff_ffff_ffff;

/// The fields of the Thread Environment Block that describe the current stack.
///
/// `x18` is reserved by the platform and points to this block throughout, so a
/// switch addresses it without saving or restoring the register. No stack overlaps
/// the block.
#[derive(Clone, Copy, Debug, PartialEq, Eq, Structural)]
pub struct Teb {
    /// Legacy chain of exception records, unused on Win64 but used by Wine.
    pub exception_list: u64,
    /// Highest address of the current stack.
    pub stack_base: u64,
    /// Lowest committed address of the current stack. The system lowers it as the
    /// stack grows.
    pub stack_limit: u64,
    /// Lowest reserved address of the current stack.
    pub deallocation_stack: u64,
    /// Bytes kept available for a stack overflow handler.
    pub guaranteed_stack_bytes: u64,
}

/// `offset` is that of a field of [`Teb`].
pub open spec fn is_teb_offset(offset: u64) -> bool {
    ||| offset == TEB_EXCEPTION_LIST
    ||| offset == TEB_STACK_BASE
    ||| offset == TEB_STACK_LIMIT
    ||| offset == TEB_DEALLOCATION_STACK
    ||| offset == TEB_GUARANTEED_STACK_BYTES
}

impl Teb {
    /// The field at `offset`.
    pub open spec fn field(self, offset: u64) -> u64 {
        if offset == TEB_EXCEPTION_LIST {
            self.exception_list
        } else if offset == TEB_STACK_BASE {
            self.stack_base
        } else if offset == TEB_STACK_LIMIT {
            self.stack_limit
        } else if offset == TEB_DEALLOCATION_STACK {
            self.deallocation_stack
        } else {
            self.guaranteed_stack_bytes
        }
    }

    /// The block with `value` in the field at `offset`.
    pub open spec fn with_field(self, offset: u64, value: u64) -> Teb {
        if offset == TEB_EXCEPTION_LIST {
            Teb { exception_list: value, ..self }
        } else if offset == TEB_STACK_BASE {
            Teb { stack_base: value, ..self }
        } else if offset == TEB_STACK_LIMIT {
            Teb { stack_limit: value, ..self }
        } else if offset == TEB_DEALLOCATION_STACK {
            Teb { deallocation_stack: value, ..self }
        } else {
            Teb { guaranteed_stack_bytes: value, ..self }
        }
    }

    /// `ldr _, [x18, #offset]`.
    pub fn load(&self, offset: u64) -> (value: u64)
        requires
            is_teb_offset(offset),
        ensures
            value == self.field(offset),
    {
        if offset == TEB_EXCEPTION_LIST {
            self.exception_list
        } else if offset == TEB_STACK_BASE {
            self.stack_base
        } else if offset == TEB_STACK_LIMIT {
            self.stack_limit
        } else if offset == TEB_DEALLOCATION_STACK {
            self.deallocation_stack
        } else {
            self.guaranteed_stack_bytes
        }
    }

    /// `str _, [x18, #offset]`.
    pub fn store(&mut self, offset: u64, value: u64)
        requires
            is_teb_offset(offset),
        ensures
            *final(self) == old(self).with_field(offset, value),
    {
        if offset == TEB_EXCEPTION_LIST {
            self.exception_list = value;
        } else if offset == TEB_STACK_BASE {
            self.stack_base = value;
        } else if offset == TEB_STACK_LIMIT {
            self.stack_limit = value;
        } else if offset == TEB_DEALLOCATION_STACK {
            self.deallocation_stack = value;
        } else {
            self.guaranteed_stack_bytes = value;
        }
    }
}

/// The registers that a switch reads or writes.
///
/// The switching code never touches `x13` to `x17` and `x20` to `x28`: whoever calls
/// it treats them as clobbered. `pc` is tracked across jumps only: it is the address
/// that control was last transferred to.
#[derive(Clone, Copy, Debug, PartialEq, Eq, Structural)]
pub struct Registers {
    pub x0: u64,
    pub x1: u64,
    pub x2: u64,
    pub x3: u64,
    pub x4: u64,
    pub x5: u64,
    pub x6: u64,
    pub x7: u64,
    pub x8: u64,
    pub x9: u64,
    pub x10: u64,
    pub x11: u64,
    pub x12: u64,
    pub x19: u64,
    /// The frame pointer.
    pub x29: u64,
    /// The link register.
    pub x30: u64,
    pub sp: u64,
    pub pc: u64,
}

/// A processor running a thread: its registers, the thread's environment block and
/// the memory that all stacks live in.
pub struct Machine {
    pub regs: Registers,
    pub teb: Teb,
    pub memory: Memory,
}

/// What a [`Machine`] holds, with memory as a map from addresses to bytes.
#[verifier::ext_equal]
pub struct MachineState {
    pub regs: Registers,
    pub teb: Teb,
    pub mem: Map<u64, u8>,
}

impl View for Machine {
    type V = MachineState;

    open spec fn view(&self) -> MachineState {
        MachineState { regs: self.regs, teb: self.teb, mem: self.memory@ }
    }
}

/// The addresses of the code that stack pointers and link registers refer to.
#[derive(Clone, Copy, Debug, PartialEq, Eq, Structural)]
pub struct Symbols {
    /// Where a freshly initialized coroutine starts.
    pub stack_init_trampoline: u64,
    /// The return address that the initial function of a coroutine sees. It never
    /// returns there: the address marks the root of the coroutine for an unwinder.
    pub stack_init_trampoline_return: u64,
    /// Where the call of a function on another stack starts.
    pub stack_call_trampoline: u64,
    /// The return address that a function called on another stack sees.
    pub stack_call_trampoline_return: u64,
    /// The function that starts unwinding a coroutine from its last suspension.
    pub throw: u64,
}

} // verus!
