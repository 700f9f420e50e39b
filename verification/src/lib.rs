//! Stack switching for coroutines on Windows ARM64.
//!
//! Windows differs from other platforms in that information about the current stack is
//! stored in the Thread Environment Block (TEB), which is reached through the platform
//! register `x18`. These fields must be swapped when switching stacks, and some of them
//! change while a stack is in use since Windows grows stacks dynamically.
//!
//! The crate states what each routine of the switching code does to registers, stacks and
//! TEB, and proves that it does so:
//!
//! - [`memory`] is byte-addressed memory;
//! - [`machine`] holds the registers and the TEB fields that a switch touches;
//! - [`stack`] is about stacks and writing to them from the base downwards;
//! - [`frames`] describes what a switch leaves on the stacks;
//! - [`init`] sets up the stack of a coroutine, and the registers of a trap handler;
//! - [`switch`] enters and leaves coroutines;
//! - [`teb_fields`] carries TEB fields between frames, stack bases and stacks;
//! - [`on_stack`](mod@on_stack) calls a function on another stack;
//! - [`effects`] proves what each routine does, register by register and byte by byte;
//! - [`laws`] proves what holds of the routines together.
pub mod effects;
pub mod frames;
pub mod init;
pub mod laws;
pub mod machine;
pub mod memory;
pub mod on_stack;
pub mod stack;
pub mod switch;
pub mod teb_fields;

pub use crate::init::{init_stack, setup_trap_trampoline, TrapHandlerRegs};
pub use crate::on_stack::on_stack;
pub use crate::stack::{PARENT_LINK_OFFSET, PARENT_STACK_OFFSET, STACK_ALIGNMENT};
pub use crate::switch::{switch_and_link, switch_and_reset, switch_and_throw, switch_yield};
pub use crate::teb_fields::{
    drop_initial_obj, read_parent_stack_teb_fields, reset_teb_fields_from_suspended,
    update_parent_stack_teb_fields, update_stack_teb_fields,
};
