//! What a switch leaves on the stacks.
//!
//! A suspended coroutine, with the words of its frame from the top of its stack
//! upwards, and the words at the base of the stack:
//!
//! ```text
//! +--------------------------+  <- Stack base
//! | TEB.StackLimit           |  <- Set when the coroutine ends, so that they can be
//! +--------------------------+   | updated in the stack if it is later reused for
//! | TEB.GuaranteedStackBytes |  <- another coroutine.
//! +--------------------------+
//! | Initial func             |
//! +--------------------------+
//! | Parent link              |  <- PARENT_LINK_OFFSET below the base
//! +--------------------------+
//! |                          |
//! ~     ...                  ~
//! |                          |
//! +--------------------------+
//! | TEB.GuaranteedStackBytes |
//! +--------------------------+
//! | TEB.DeallocationStack    |
//! +--------------------------+
//! | TEB.StackLimit           |
//! +--------------------------+
//! | TEB.StackBase            |
//! +--------------------------+
//! | TEB.ExceptionList        |
//! +--------------------------+
//! | Saved PC                 |
//! +--------------------------+
//! | Saved X29                |
//! +--------------------------+
//! | Saved X19                |
//! +--------------------------+
//! ```
//!
//! The parent stack while a coroutine runs:
//!
//! ```text
//! |                          |
//! ~     ...                  ~
//! |                          |
//! +--------------------------+
//! | TEB.GuaranteedStackBytes |
//! +--------------------------+
//! | TEB.DeallocationStack    |
//! +--------------------------+
//! | TEB.StackLimit           |
//! +--------------------------+
//! | TEB.StackBase            |
//! +--------------------------+
//! | TEB.ExceptionList        |
//! +--------------------------+
//! | Saved X19                |
//! +--------------------------+
//! | Saved PC (LR)            |
//! +--------------------------+
//! | Saved X29                |
//! +--------------------------+
//! ```
use crate::machine::Teb;
use crate::memory::{
    disjoint, group_memory, lemma_unchanged_word, put_word, unchanged, word_at, ADDRESS_SPACE_END,
};
use vstd::prelude::*;

verus! {

/// Size of a saved frame.
pub const FRAME_SIZE: u64 = 64;

/// Distance below the stack base of the word that receives `TEB.StackLimit`.
pub const STACK_LIMIT_OFFSET: u64 = 8;

/// Distance below the stack base of the word that receives
/// `TEB.GuaranteedStackBytes`.
pub const GUARANTEED_STACK_BYTES_OFFSET: u64 = 16;

/// Distance below the stack base of the initial function.
pub const INITIAL_FUNC_OFFSET: u64 = 24;

/// Memory with the five fields of `teb` in the words from `addr` on.
pub open spec fn put_teb(m: Map<u64, u8>, addr: int, teb: Teb) -> Map<u64, u8> {
    let m = put_word(m, addr, teb.exception_list);
    let m = put_word(m, addr + 8, teb.stack_base);
    let m = put_word(m, addr + 16, teb.stack_limit);
    let m = put_word(m, addr + 24, teb.deallocation_stack);
    put_word(m, addr + 32, teb.guaranteed_stack_bytes)
}

/// The five fields in the words from `addr` on.
pub open spec fn teb_at(m: Map<u64, u8>, addr: int) -> Teb {
    Teb {
        exception_list: word_at(m, addr),
        stack_base: word_at(m, addr + 8),
        stack_limit: word_at(m, addr + 16),
        deallocation_stack: word_at(m, addr + 24),
        guaranteed_stack_bytes: word_at(m, addr + 32),
    }
}

/// What a parent context leaves on its stack while a coroutine runs.
pub struct ParentFrame {
    pub x29: u64,
    pub lr: u64,
    pub x19: u64,
    pub teb: Teb,
}

/// Memory with `frame` stored at `addr`.
pub open spec fn put_parent_frame(m: Map<u64, u8>, addr: int, frame: ParentFrame) -> Map<u64, u8> {
    let m = put_word(m, addr, frame.x29);
    let m = put_word(m, addr + 8, frame.lr);
    let m = put_word(m, addr + 16, frame.x19);
    put_teb(m, addr + 24, frame.teb)
}

/// The parent frame at `addr`.
pub open spec fn parent_frame_at(m: Map<u64, u8>, addr: int) -> ParentFrame {
    ParentFrame {
        x29: word_at(m, addr),
        lr: word_at(m, addr + 8),
        x19: word_at(m, addr + 16),
        teb: teb_at(m, addr + 24),
    }
}

/// What a suspended coroutine leaves on its stack.
pub struct SuspendedFrame {
    pub x19: u64,
    pub x29: u64,
    pub pc: u64,
    pub teb: Teb,
}

/// Memory with `frame` stored at `addr`.
pub open spec fn put_suspended_frame(m: Map<u64, u8>, addr: int, frame: SuspendedFrame) -> Map<
    u64,
    u8,
> {
    let m = put_word(m, addr, frame.x19);
    let m = put_word(m, addr + 8, frame.x29);
    let m = put_word(m, addr + 16, frame.pc);
    put_teb(m, addr + 24, frame.teb)
}

/// The frame of a suspended coroutine at `addr`.
pub open spec fn suspended_frame_at(m: Map<u64, u8>, addr: int) -> SuspendedFrame {
    SuspendedFrame {
        x19: word_at(m, addr),
        x29: word_at(m, addr + 8),
        pc: word_at(m, addr + 16),
        teb: teb_at(m, addr + 24),
    }
}

/// What the caller of a function on another stack leaves on its own stack.
pub struct CallFrame {
    pub x29: u64,
    pub lr: u64,
    pub teb: Teb,
    /// The base of the other stack.
    pub stack_base: u64,
}

/// Memory with `frame` stored at `addr`.
pub open spec fn put_call_frame(m: Map<u64, u8>, addr: int, frame: CallFrame) -> Map<u64, u8> {
    let m = put_word(m, addr, frame.x29);
    let m = put_word(m, addr + 8, frame.lr);
    let m = put_teb(m, addr + 16, frame.teb);
    put_word(m, addr + 56, frame.stack_base)
}

/// The call frame at `addr`.
pub open spec fn call_frame_at(m: Map<u64, u8>, addr: int) -> CallFrame {
    CallFrame {
        x29: word_at(m, addr),
        lr: word_at(m, addr + 8),
        teb: teb_at(m, addr + 16),
        stack_base: word_at(m, addr + 56),
    }
}

/// A parent frame that was stored is read back, and bytes elsewhere stay.
pub proof fn lemma_put_parent_frame(m: Map<u64, u8>, addr: int, frame: ParentFrame)
    requires
        0 <= addr,
        addr + FRAME_SIZE <= ADDRESS_SPACE_END,
    ensures
        parent_frame_at(put_parent_frame(m, addr, frame), addr) == frame,
        forall|other: int, len: int|
            #![trigger unchanged(m, put_parent_frame(m, addr, frame), other, len)]
            0 <= other && 0 <= len && other + len <= ADDRESS_SPACE_END && disjoint(
                addr,
                FRAME_SIZE as int,
                other,
                len,
            ) ==> unchanged(m, put_parent_frame(m, addr, frame), other, len),
{
    broadcast use group_memory;

}

/// The frame of a suspended coroutine that was stored is read back, and bytes elsewhere
/// stay.
pub proof fn lemma_put_suspended_frame(m: Map<u64, u8>, addr: int, frame: SuspendedFrame)
    requires
        0 <= addr,
        addr + FRAME_SIZE <= ADDRESS_SPACE_END,
    ensures
        suspended_frame_at(put_suspended_frame(m, addr, frame), addr) == frame,
        forall|other: int, len: int|
            #![trigger unchanged(m, put_suspended_frame(m, addr, frame), other, len)]
            0 <= other && 0 <= len && other + len <= ADDRESS_SPACE_END && disjoint(
                addr,
                FRAME_SIZE as int,
                other,
                len,
            ) ==> unchanged(m, put_suspended_frame(m, addr, frame), other, len),
{
    broadcast use group_memory;

}

/// A call frame that was stored is read back, and bytes elsewhere stay.
pub proof fn lemma_put_call_frame(m: Map<u64, u8>, addr: int, frame: CallFrame)
    requires
        0 <= addr,
        addr + FRAME_SIZE <= ADDRESS_SPACE_END,
    ensures
        call_frame_at(put_call_frame(m, addr, frame), addr) == frame,
        forall|other: int, len: int|
            #![trigger unchanged(m, put_call_frame(m, addr, frame), other, len)]
            0 <= other && 0 <= len && other + len <= ADDRESS_SPACE_END && disjoint(
                addr,
                FRAME_SIZE as int,
                other,
                len,
            ) ==> unchanged(m, put_call_frame(m, addr, frame), other, len),
{
    broadcast use group_memory;

}

/// A frame of a parent context reads the same where its bytes are unchanged.
pub proof fn lemma_unchanged_parent_frame(before: Map<u64, u8>, after: Map<u64, u8>, addr: int)
    requires
        unchanged(before, after, addr, FRAME_SIZE as int),
    ensures
        parent_frame_at(before, addr) == parent_frame_at(after, addr),
{
    lemma_unchanged_words(before, after, addr);
}

/// A frame of a suspended coroutine reads the same where its bytes are unchanged.
pub proof fn lemma_unchanged_suspended_frame(before: Map<u64, u8>, after: Map<u64, u8>, addr: int)
    requires
        unchanged(before, after, addr, FRAME_SIZE as int),
    ensures
        suspended_frame_at(before, addr) == suspended_frame_at(after, addr),
{
    lemma_unchanged_words(before, after, addr);
}

/// A call frame reads the same where its bytes are unchanged.
pub proof fn lemma_unchanged_call_frame(before: Map<u64, u8>, after: Map<u64, u8>, addr: int)
    requires
        unchanged(before, after, addr, FRAME_SIZE as int),
    ensures
        call_frame_at(before, addr) == call_frame_at(after, addr),
{
    lemma_unchanged_words(before, after, addr);
}

/// The words of a frame read the same where its bytes are unchanged.
proof fn lemma_unchanged_words(before: Map<u64, u8>, after: Map<u64, u8>, addr: int)
    requires
        unchanged(before, after, addr, FRAME_SIZE as int),
    ensures
        word_at(before, addr) == word_at(after, addr),
        word_at(before, addr + 8) == word_at(after, addr + 8),
        word_at(before, addr + 16) == word_at(after, addr + 16),
        word_at(before, addr + 24) == word_at(after, addr + 24),
        word_at(before, addr + 32) == word_at(after, addr + 32),
        word_at(before, addr + 40) == word_at(after, addr + 40),
        word_at(before, addr + 48) == word_at(after, addr + 48),
        word_at(before, addr + 56) == word_at(after, addr + 56),
{
    lemma_unchanged_word(before, after, addr, FRAME_SIZE as int, addr);
    lemma_unchanged_word(before, after, addr, FRAME_SIZE as int, addr + 8);
    lemma_unchanged_word(before, after, addr, FRAME_SIZE as int, addr + 16);
    lemma_unchanged_word(before, after, addr, FRAME_SIZE as int, addr + 24);
    lemma_unchanged_word(before, after, addr, FRAME_SIZE as int, addr + 32);
    lemma_unchanged_word(before, after, addr, FRAME_SIZE as int, addr + 40);
    lemma_unchanged_word(before, after, addr, FRAME_SIZE as int, addr + 48);
    lemma_unchanged_word(before, after, addr, FRAME_SIZE as int, addr + 56);
}

} // verus!
