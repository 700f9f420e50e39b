//! What each routine does, register by register and byte by byte.
//!
//! Where the laws of [`laws`](crate::laws) say what routines achieve together, those here
//! take one step at a time: which words a step leaves where, which values it takes from
//! where, and that all else stays. They speak of addresses as plain numbers and of memory
//! before the step.
use crate::frames::{call_frame_at, parent_frame_at, suspended_frame_at, teb_at};
use crate::init::{initial_frame_fits, initial_obj_address, initialized, trap_regs};
use crate::machine::{is_teb_offset, Machine, MachineState, Symbols, Teb};
use crate::memory::{
    byte_at, bytes_at, disjoint, group_elsewhere, group_memory, mapped, put_bytes, put_word,
    unchanged, word_at,
};
use crate::on_stack::{
    call_entered, call_left, call_prepared, can_call, can_return, on_stack_entered,
};
use crate::stack::{
    lemma_object_address, object_address, stack_top, Stack, StackObject, StackRegion,
    StackTebFields, PARENT_LINK_OFFSET, PARENT_STACK_OFFSET,
};
use crate::switch::{
    can_enter, can_leave, can_push_frame, can_reset, can_yield, init_entered, link_entered,
    link_left, reset_done, throw_entered, yield_resumed, yield_suspended,
};
use crate::teb_fields::{
    can_copy_fields, mutable_fields_from_frame, mutable_fields_mapped, parent_fields_updated,
    parent_teb_fields, with_mutable_fields,
};
use vstd::arithmetic::power2::is_pow2;
use vstd::bytes::*;
use vstd::prelude::*;

verus! {

/// A range is mapped if it lies in the address space and each of its addresses is.
pub proof fn law_mapped_is_every_address(m: Map<u64, u8>, start: int, len: int)
    ensures
        mapped(m, start, len) <==> 0 <= start && start + len <= 0x1_0000_0000_0000_0000 && forall|
            a: int,
        |
            start <= a < start + len ==> #[trigger] m.dom().contains(a as u64),
{
    if 0 <= start && start + len <= 0x1_0000_0000_0000_0000 {
        if mapped(m, start, len) {
            assert forall|a: int| start <= a < start + len implies #[trigger] m.dom().contains(
                a as u64,
            ) by {
                assert(a as u64 == a);
            }
        }
        if forall|a: int| start <= a < start + len ==> #[trigger] m.dom().contains(a as u64) {
            assert forall|a: u64| start <= a < start + len implies #[trigger] m.dom().contains(
                a,
            ) by {
                assert(m.dom().contains(a as int as u64));
            }
        }
    }
}

/// Two ranges that are not empty are disjoint if no address is in both.
pub proof fn law_disjoint_shares_no_address(a: int, a_len: int, b: int, b_len: int)
    requires
        0 < a_len,
        0 < b_len,
    ensures
        disjoint(a, a_len, b, b_len) <==> a + a_len <= b || b + b_len <= a,
        disjoint(a, a_len, b, b_len) ==> forall|x: int|
            !(a <= x < a + a_len && #[trigger] in_range(x, b, b_len)),
        !disjoint(a, a_len, b, b_len) ==> exists|x: int|
            a <= x < a + a_len && #[trigger] in_range(x, b, b_len),
{
    if !disjoint(a, a_len, b, b_len) {
        assert(in_range(if a <= b { b } else { a }, b, b_len));
    }
}

/// `x` is one of the `len` addresses from `start` on.
pub open spec fn in_range(x: int, start: int, len: int) -> bool {
    start <= x < start + len
}

/// A mapped range is unchanged if and only if each of its bytes is.
pub proof fn law_unchanged_is_every_byte(
    before: Map<u64, u8>,
    after: Map<u64, u8>,
    start: int,
    len: int,
)
    requires
        mapped(before, start, len),
        mapped(after, start, len),
        0 <= len,
    ensures
        unchanged(before, after, start, len) <==> forall|a: u64|
            start <= a < start + len ==> #[trigger] before[a] == after[a],
{
    reveal(bytes_at);
    let old_bytes = bytes_at(before, start, len as nat);
    let new_bytes = bytes_at(after, start, len as nat);
    if unchanged(before, after, start, len) {
        assert forall|a: u64| start <= a < start + len implies #[trigger] before[a] == after[a] by {
            assert(before.dom().contains(a) && after.dom().contains(a));
            assert(old_bytes[a - start] == new_bytes[a - start]);
        }
    }
    if forall|a: u64| start <= a < start + len ==> #[trigger] before[a] == after[a] {
        assert forall|i: int| 0 <= i < len implies old_bytes[i] == new_bytes[i] by {
            let a = (start + i) as u64;
            assert(a == start + i);
            assert(before.dom().contains(a) && after.dom().contains(a));
            assert(before[a] == after[a]);
        }
        assert(old_bytes =~= new_bytes);
    }
}

/// Writing bytes puts each of them at its address and leaves every other address alone.
pub proof fn law_written_bytes(m: Map<u64, u8>, start: int, bytes: Seq<u8>, a: u64)
    requires
        0 <= start,
        start + bytes.len() <= 0x1_0000_0000_0000_0000,
    ensures
        start <= a < start + bytes.len() ==> put_bytes(m, start, bytes).dom().contains(a)
            && put_bytes(m, start, bytes)[a] == bytes[a - start],
        !(start <= a < start + bytes.len()) ==> put_bytes(m, start, bytes).dom().contains(a)
            == m.dom().contains(a),
        !(start <= a < start + bytes.len()) && m.dom().contains(a) ==> put_bytes(
            m,
            start,
            bytes,
        )[a] == m[a],
{
    reveal(put_bytes);
}

/// The bytes read are those at the addresses, in order.
pub proof fn law_read_bytes(m: Map<u64, u8>, start: int, len: nat, i: int)
    requires
        mapped(m, start, len as int),
        0 <= i < len,
    ensures
        bytes_at(m, start, len).len() == len,
        bytes_at(m, start, len)[i] == m[(start + i) as u64],
        byte_at(m, start + i) == m[(start + i) as u64],
{
    reveal(bytes_at);
    let a = (start + i) as u64;
    assert(a == start + i);
    assert(m.dom().contains(a));
}

/// A stored word takes the eight addresses from its own on, least significant byte first,
/// and leaves every other address alone.
pub proof fn law_stored_word(m: Map<u64, u8>, addr: int, value: u64, a: u64)
    requires
        0 <= addr,
        addr + 8 <= 0x1_0000_0000_0000_0000,
    ensures
        addr <= a < addr + 8 ==> put_word(m, addr, value).dom().contains(a) && put_word(
            m,
            addr,
            value,
        )[a] == spec_u64_to_le_bytes(value)[a - addr],
        !(addr <= a < addr + 8) ==> put_word(m, addr, value).dom().contains(a)
            == m.dom().contains(a),
        !(addr <= a < addr + 8) && m.dom().contains(a) ==> put_word(m, addr, value)[a] == m[a],
        word_at(put_word(m, addr, value), addr) == value,
{
    broadcast use group_memory;

    reveal(put_word);
    lemma_auto_spec_u64_to_from_le_bytes();
    law_written_bytes(m, addr, spec_u64_to_le_bytes(value), a);
}

/// A word is read from the eight addresses from its own on, least significant byte first.
pub proof fn law_loaded_word(m: Map<u64, u8>, addr: int)
    requires
        mapped(m, addr, 8),
    ensures
        word_at(m, addr) == spec_u64_from_le_bytes(
            Seq::new(8, |i: int| m[(addr + i) as u64]),
        ),
{
    reveal(word_at);
    reveal(bytes_at);
    let bytes = Seq::new(8, |i: int| m[(addr + i) as u64]);
    assert forall|i: int| 0 <= i < 8 implies bytes_at(m, addr, 8)[i] == bytes[i] by {
        law_read_bytes(m, addr, 8, i);
    }
    assert(bytes_at(m, addr, 8) =~= bytes);
}

/// The fields of the environment block are at the offsets that Windows gives them, and
/// storing to one of them changes no other.
pub proof fn law_teb_offsets(teb: Teb, offset: u64, value: u64, other: u64)
    requires
        is_teb_offset(offset),
        is_teb_offset(other),
    ensures
        offset == 0x0000 || offset == 0x0008 || offset == 0x0010 || offset == 0x1478 || offset
            == 0x1748,
        is_teb_offset(0x0000) && is_teb_offset(0x0008) && is_teb_offset(0x0010) && is_teb_offset(
            0x1478,
        ) && is_teb_offset(0x1748),
        teb.field(0x0000) == teb.exception_list,
        teb.field(0x0008) == teb.stack_base,
        teb.field(0x0010) == teb.stack_limit,
        teb.field(0x1478) == teb.deallocation_stack,
        teb.field(0x1748) == teb.guaranteed_stack_bytes,
        teb.with_field(offset, value).field(offset) == value,
        other != offset ==> teb.with_field(offset, value).field(other) == teb.field(other),
{
}

/// The state of a machine is what it holds.
pub proof fn law_state_is_what_machine_holds(machine: Machine)
    ensures
        machine@.regs == machine.regs,
        machine@.teb == machine.teb,
        machine@.mem == machine.memory@,
{
}

/// A stack is filled from the highest multiple of 16 that is not above its base, which for
/// an aligned base is the base itself.
pub proof fn law_stack_top_is_aligned_base<S: Stack>(stack: S)
    ensures
        stack_top(stack) % 16 == 0,
        stack_top(stack) <= stack.spec_base() < stack_top(stack) + 16,
        stack.spec_base() % 16 == 0 ==> stack_top(stack) == stack.spec_base(),
        0 <= stack_top(stack),
{
}

/// A stack in a region has the base and the fields that the region was given.
pub proof fn law_region_is_as_given(region: StackRegion)
    ensures
        region.spec_base() == region.base@,
        region.spec_teb_fields() == region.teb,
{
}

/// An object could not be placed any higher: an address above its own from which it still
/// ends at or below where the stack was filled down to is not aligned as the object or the
/// stack needs.
pub proof fn law_object_is_placed_highest(sp: int, size: int, align: int, higher: int)
    requires
        is_pow2(align),
        object_address(sp, size, align) < higher,
        higher + size <= sp,
    ensures
        higher % align != 0 || higher % 16 != 0,
{
    lemma_object_address(sp, size, align);
    let at = object_address(sp, size, align);
    let step = if align > 16 { align } else { 16 };
    if higher % align == 0 && higher % 16 == 0 {
        assert(at % step == 0 && higher % step == 0);
        assert(0 < higher - at < step);
        vstd::arithmetic::div_mod::lemma_sub_mod_noop(higher, at, step);
        vstd::arithmetic::div_mod::lemma_small_mod((higher - at) as nat, step as nat);
        assert((0int - 0int) % step == 0) by (nonlinear_arith)
            requires
                step > 0,
        ;
    }
}

/// The object that a coroutine starts with, or that a trap handler is given, is aligned as
/// it needs and as the stack needs, lies below the 32 bytes at the base of the stack, and
/// less than one alignment lower than its size demands.
pub proof fn law_obj_on_stack_is_aligned(stack_base: int, obj: StackObject)
    requires
        is_pow2(obj.align as int),
    ensures
        obj.wf(),
        initial_obj_address(stack_base, obj) % obj.align as int == 0,
        initial_obj_address(stack_base, obj) % 16 == 0,
        initial_obj_address(stack_base, obj) + obj.bytes@.len() <= stack_base - 32,
        obj.align <= 16 ==> stack_base - 32 < initial_obj_address(stack_base, obj)
            + obj.bytes@.len() + 16,
        obj.align > 16 ==> stack_base - 32 < initial_obj_address(stack_base, obj)
            + obj.bytes@.len() + obj.align,
{
    lemma_object_address(stack_base - 32, obj.bytes@.len() as int, obj.align as int);
}

/// Which words of a frame hold what.
pub proof fn law_frame_words(m: Map<u64, u8>, addr: int)
    ensures
        teb_at(m, addr).exception_list == word_at(m, addr),
        teb_at(m, addr).stack_base == word_at(m, addr + 8),
        teb_at(m, addr).stack_limit == word_at(m, addr + 16),
        teb_at(m, addr).deallocation_stack == word_at(m, addr + 24),
        teb_at(m, addr).guaranteed_stack_bytes == word_at(m, addr + 32),
        parent_frame_at(m, addr).x29 == word_at(m, addr),
        parent_frame_at(m, addr).lr == word_at(m, addr + 8),
        parent_frame_at(m, addr).x19 == word_at(m, addr + 16),
        parent_frame_at(m, addr).teb == teb_at(m, addr + 24),
        suspended_frame_at(m, addr).x19 == word_at(m, addr),
        suspended_frame_at(m, addr).x29 == word_at(m, addr + 8),
        suspended_frame_at(m, addr).pc == word_at(m, addr + 16),
        suspended_frame_at(m, addr).teb == teb_at(m, addr + 24),
        call_frame_at(m, addr).x29 == word_at(m, addr),
        call_frame_at(m, addr).lr == word_at(m, addr + 8),
        call_frame_at(m, addr).teb == teb_at(m, addr + 16),
        call_frame_at(m, addr).stack_base == word_at(m, addr + 56),
{
}

/// An initialized stack holds the initial function 24 bytes below its base, the object
/// where it belongs, and below it the fields of the stack and the address of the
/// trampoline, 16 bytes above the initial stack pointer. All other bytes stay.
pub proof fn law_initialized_words(
    m: Map<u64, u8>,
    stack_base: int,
    fields: StackTebFields,
    func: u64,
    obj: StackObject,
    symbols: Symbols,
    i: int,
    other: u64,
)
    requires
        is_pow2(obj.align as int),
        32 + obj.bytes@.len() <= stack_base,
        64 < initial_obj_address(stack_base, obj),
        mapped(
            m,
            initial_obj_address(stack_base, obj) - 64,
            stack_base - initial_obj_address(stack_base, obj) + 64,
        ),
    ensures
        initial_frame_fits(m, stack_base, obj),
        ({
            let at = initial_obj_address(stack_base, obj);
            let size = obj.bytes@.len();
            let image = initialized(m, stack_base, fields, func, obj, symbols);
            &&& word_at(image, stack_base - 24) == func
            &&& 0 <= i < size ==> byte_at(image, at + i) == obj.bytes@[i]
            &&& word_at(image, at - 8) == fields.GuaranteedStackBytes
            &&& word_at(image, at - 16) == fields.DeallocationStack
            &&& word_at(image, at - 24) == fields.StackLimit
            &&& word_at(image, at - 32) == fields.StackBase
            &&& word_at(image, at - 48) == symbols.stack_init_trampoline
            &&& !(stack_base - 24 <= other < stack_base - 16) && !(at <= other < at + size) && !(at
                - 32 <= other < at) && !(at - 48 <= other < at - 40) ==> image.dom().contains(
                other,
            ) == m.dom().contains(other) && byte_at(image, other as int) == byte_at(
                m,
                other as int,
            )
        }),
{
    broadcast use group_memory;
    broadcast use group_elsewhere;

    let at = initial_obj_address(stack_base, obj);
    let size = obj.bytes@.len();
    let image = initialized(m, stack_base, fields, func, obj, symbols);
    law_obj_on_stack_is_aligned(stack_base, obj);
    assert(bytes_at(image, at, size) == obj.bytes@);
    assert(mapped(image, at - 64, stack_base - at + 64));
    if 0 <= i < size {
        law_read_bytes(image, at, size, i);
    }
}

/// A coroutine continues in its trap handler with the stack pointer at the value, which the
/// handler gets in `x0`, and with the parent link in `x1`: the link is where a coroutine that
/// starts on the same stack gets it, so the handler can end the coroutine through it. The
/// frame pointer is at the link too, and the return address is that of the initial function.
pub proof fn law_trap_handler_is_entered_like_initial_func(
    stack_base: u64,
    val: StackObject,
    handler: u64,
    symbols: Symbols,
    s: MachineState,
)
    requires
        is_pow2(val.align as int),
        32 + val.bytes@.len() <= stack_base,
        s.regs.x1 == stack_base,
    ensures
        ({
            let regs = trap_regs(stack_base as int, val, handler, symbols);
            let started = init_entered(s, symbols);
            &&& regs.pc == handler
            &&& regs.sp == regs.x0
            &&& regs.sp % 16 == 0
            &&& regs.x0 as int % val.align as int == 0
            &&& regs.x0 + val.bytes@.len() <= regs.x1
            &&& val.align <= 16 ==> regs.x1 < regs.x0 + val.bytes@.len() + 16
            &&& val.align > 16 ==> regs.x1 < regs.x0 + val.bytes@.len() + val.align
            &&& regs.x1 == stack_base - 32
            &&& regs.x29 == regs.x1
            &&& regs.x1 == started.regs.x1
            &&& regs.lr == symbols.stack_init_trampoline_return
            &&& regs.lr == started.regs.x30
        }),
{
    lemma_object_address(stack_base - 32, val.bytes@.len() as int, val.align as int);
}

/// However a coroutine is entered, its parent's frame is found through the parent link at
/// the offset given for it.
pub proof fn law_parent_stack_is_found_at_offset(s: MachineState, symbols: Symbols)
    requires
        apart_on_entry(s, s.regs.x2, s.regs.x1),
    ensures
        word_at(
            init_entered(s, symbols).mem,
            s.regs.x1 - PARENT_LINK_OFFSET + PARENT_STACK_OFFSET,
        ) == s.regs.sp - 64,
        word_at(
            yield_resumed(s).mem,
            s.regs.x1 - PARENT_LINK_OFFSET + PARENT_STACK_OFFSET,
        ) == s.regs.sp - 64,
{
    broadcast use group_memory;

}

/// Switching to a coroutine passes the value, the base of the coroutine's stack and its top
/// in `x0`, `x1` and `x2`, and jumps to the address 16 bytes above the top with the return
/// address in the link register. Memory, the environment block and the stack pointer stay.
pub proof fn law_link_jumps_to_saved_pc(
    s: MachineState,
    arg: u64,
    sp: u64,
    stack_base: u64,
    return_address: u64,
)
    ensures
        ({
            let e = link_entered(s, arg, sp, stack_base, return_address);
            &&& e.regs.pc == word_at(s.mem, sp + 16)
            &&& e.regs.x0 == arg
            &&& e.regs.x1 == stack_base
            &&& e.regs.x2 == sp
            &&& e.regs.x3 == e.regs.pc
            &&& e.regs.x30 == return_address
            &&& e.regs.sp == s.regs.sp
            &&& e.regs.x19 == s.regs.x19
            &&& e.regs.x29 == s.regs.x29
            &&& e.regs.x4 == s.regs.x4 && e.regs.x5 == s.regs.x5 && e.regs.x6 == s.regs.x6
            &&& e.regs.x7 == s.regs.x7 && e.regs.x8 == s.regs.x8 && e.regs.x9 == s.regs.x9
            &&& e.regs.x10 == s.regs.x10 && e.regs.x11 == s.regs.x11 && e.regs.x12 == s.regs.x12
            &&& e.teb == s.teb
            &&& e.mem == s.mem
        }),
{
}

/// A parent context that has control back takes its environment block from the frame that
/// `x2` points to and its stack pointer from above that frame. Control, the value in `x0`,
/// the coroutine's stack pointer in `x1`, the saved registers and memory stay.
pub proof fn law_parent_goes_on(s: MachineState)
    requires
        s.regs.x2 + 64 <= u64::MAX,
    ensures
        ({
            let l = link_left(s);
            &&& l.teb.exception_list == word_at(s.mem, s.regs.x2 + 24)
            &&& l.teb.stack_base == word_at(s.mem, s.regs.x2 + 32)
            &&& l.teb.stack_limit == word_at(s.mem, s.regs.x2 + 40)
            &&& l.teb.deallocation_stack == word_at(s.mem, s.regs.x2 + 48)
            &&& l.teb.guaranteed_stack_bytes == word_at(s.mem, s.regs.x2 + 56)
            &&& l.regs.sp == s.regs.x2 + 64
            &&& l.regs.pc == s.regs.pc
            &&& l.regs.x0 == s.regs.x0
            &&& l.regs.x1 == s.regs.x1
            &&& l.regs.x2 == s.regs.x2
            &&& l.regs.x3 == s.regs.x3
            &&& l.regs.x4 == l.teb.exception_list
            &&& l.regs.x5 == l.teb.stack_base
            &&& l.regs.x6 == l.teb.stack_limit
            &&& l.regs.x7 == l.teb.deallocation_stack
            &&& l.regs.x8 == l.teb.guaranteed_stack_bytes
            &&& l.regs.x9 == s.regs.x9 && l.regs.x10 == s.regs.x10
            &&& l.regs.x11 == s.regs.x11 && l.regs.x12 == s.regs.x12
            &&& l.regs.x19 == s.regs.x19
            &&& l.regs.x29 == s.regs.x29
            &&& l.regs.x30 == s.regs.x30
            &&& l.mem == s.mem
        }),
{
}

/// The words that a context leaves behind when it enters a coroutine: `x29`, the return
/// address, `x19` and its environment block in the 64 bytes below its stack pointer, and
/// the address of these in the parent link, 32 bytes below the base of the coroutine's
/// stack. All other bytes are as in `s`.
pub open spec fn left_in_memory(
    s: MachineState,
    return_address: u64,
    stack_base: u64,
    after: Map<u64, u8>,
    other: u64,
) -> bool {
    let sp = s.regs.sp as int;
    &&& word_at(after, sp - 64) == s.regs.x29
    &&& word_at(after, sp - 56) == return_address
    &&& word_at(after, sp - 48) == s.regs.x19
    &&& word_at(after, sp - 40) == s.teb.exception_list
    &&& word_at(after, sp - 32) == s.teb.stack_base
    &&& word_at(after, sp - 24) == s.teb.stack_limit
    &&& word_at(after, sp - 16) == s.teb.deallocation_stack
    &&& word_at(after, sp - 8) == s.teb.guaranteed_stack_bytes
    &&& word_at(after, stack_base - 32) == sp - 64
    &&& !(sp - 64 <= other < sp) && !(stack_base - 32 <= other < stack_base - 24)
        ==> after.dom().contains(other) == s.mem.dom().contains(other) && byte_at(
        after,
        other as int,
    ) == byte_at(s.mem, other as int)
}

/// The frame of the context in `s` and the parent link are apart from each other and from
/// the frame of the coroutine at `top`.
pub open spec fn apart_on_entry(s: MachineState, top: u64, stack_base: u64) -> bool {
    &&& 64 <= s.regs.sp
    &&& 32 <= stack_base
    &&& top + 64 <= u64::MAX
    &&& s.regs.sp <= stack_base - 32 || stack_base - 24 <= s.regs.sp - 64
    &&& s.regs.sp <= top || top + 64 <= s.regs.sp - 64
    &&& top + 64 <= stack_base - 32 || stack_base - 24 <= top
}

/// A fresh coroutine starts in the function found 24 bytes below the base of its stack, on
/// its own stack just above its frame, with the fields of the environment block found in
/// that frame. The function gets the value in `x0`, the parent link in `x1` and the object
/// above the frame in `x2`.
pub proof fn law_trampoline_calls_func(s: MachineState, symbols: Symbols, other: u64)
    requires
        apart_on_entry(s, s.regs.x2, s.regs.x1),
        s.regs.sp <= s.regs.x1 - 24 || s.regs.x1 - 16 <= s.regs.sp - 64,
    ensures
        ({
            let e = init_entered(s, symbols);
            let top = s.regs.x2 as int;
            &&& left_in_memory(s, s.regs.x30, s.regs.x1, e.mem, other)
            &&& e.regs.pc == word_at(s.mem, s.regs.x1 - 24)
            &&& e.regs.x0 == s.regs.x0
            &&& e.regs.x1 == s.regs.x1 - 32
            &&& e.regs.x2 == top + 64
            &&& e.regs.sp == top + 64
            &&& e.regs.x30 == symbols.stack_init_trampoline_return
            &&& e.regs.x19 == s.regs.x19
            &&& e.regs.x29 == s.regs.x29
            &&& e.regs.x3 == e.regs.pc
            &&& e.regs.x4 == 0xffff_ffff_ffff_ffff
            &&& e.regs.x5 == e.teb.stack_base
            &&& e.regs.x6 == e.teb.stack_limit
            &&& e.regs.x7 == e.teb.deallocation_stack
            &&& e.regs.x8 == e.teb.guaranteed_stack_bytes
            &&& e.regs.x9 == s.regs.x9 && e.regs.x10 == s.regs.x10
            &&& e.regs.x11 == s.regs.x11 && e.regs.x12 == s.regs.x12
            &&& e.teb.exception_list == 0xffff_ffff_ffff_ffff
            &&& e.teb.stack_base == word_at(s.mem, top + 32)
            &&& e.teb.stack_limit == word_at(s.mem, top + 40)
            &&& e.teb.deallocation_stack == word_at(s.mem, top + 48)
            &&& e.teb.guaranteed_stack_bytes == word_at(s.mem, top + 56)
        }),
{
    broadcast use group_memory;
    broadcast use group_elsewhere;

}

/// A suspended coroutine that is switched to goes on where control is, on its own stack
/// just above its frame, with `x19`, `x29` and the fields of the environment block found in
/// that frame, and with the value in `x0`.
pub proof fn law_coroutine_goes_on(s: MachineState, other: u64)
    requires
        apart_on_entry(s, s.regs.x2, s.regs.x1),
    ensures
        ({
            let e = yield_resumed(s);
            let top = s.regs.x2 as int;
            &&& left_in_memory(s, s.regs.x30, s.regs.x1, e.mem, other)
            &&& e.regs.pc == s.regs.pc
            &&& e.regs.x0 == s.regs.x0
            &&& e.regs.x1 == s.regs.x1
            &&& e.regs.x2 == s.regs.x2
            &&& e.regs.sp == top + 64
            &&& e.regs.x19 == word_at(s.mem, top)
            &&& e.regs.x29 == word_at(s.mem, top + 8)
            &&& e.regs.x30 == s.regs.x30
            &&& e.regs.x3 == 0xffff_ffff_ffff_ffff
            &&& e.regs.x4 == e.teb.stack_base
            &&& e.regs.x5 == e.teb.stack_limit
            &&& e.regs.x6 == e.teb.deallocation_stack
            &&& e.regs.x7 == e.teb.guaranteed_stack_bytes
            &&& e.regs.x8 == s.regs.x8 && e.regs.x9 == s.regs.x9 && e.regs.x10 == s.regs.x10
            &&& e.regs.x11 == s.regs.x11 && e.regs.x12 == s.regs.x12
            &&& e.teb.exception_list == 0xffff_ffff_ffff_ffff
            &&& e.teb.stack_base == word_at(s.mem, top + 32)
            &&& e.teb.stack_limit == word_at(s.mem, top + 40)
            &&& e.teb.deallocation_stack == word_at(s.mem, top + 48)
            &&& e.teb.guaranteed_stack_bytes == word_at(s.mem, top + 56)
        }),
{
    broadcast use group_memory;
    broadcast use group_elsewhere;

}

/// A coroutine that is to be unwound enters the throwing function on its own stack just
/// above its frame, with `x19`, `x29`, the saved address as the return address and the
/// fields of the environment block found in that frame.
pub proof fn law_throw_starts_from_saved_frame(
    s: MachineState,
    forced_unwind: u64,
    sp: u64,
    stack_base: u64,
    return_address: u64,
    symbols: Symbols,
    other: u64,
)
    requires
        apart_on_entry(s, sp, stack_base),
    ensures
        ({
            let e = throw_entered(s, forced_unwind, sp, stack_base, return_address, symbols);
            &&& left_in_memory(s, return_address, stack_base, e.mem, other)
            &&& e.regs.pc == symbols.throw
            &&& e.regs.x0 == forced_unwind
            &&& e.regs.x1 == stack_base
            &&& e.regs.x2 == sp
            &&& e.regs.x3 == s.regs.sp - 64
            &&& e.regs.sp == sp + 64
            &&& e.regs.x19 == word_at(s.mem, sp as int)
            &&& e.regs.x29 == word_at(s.mem, sp + 8)
            &&& e.regs.x30 == word_at(s.mem, sp + 16)
            &&& e.regs.x4 == 0xffff_ffff_ffff_ffff
            &&& e.regs.x5 == e.teb.stack_base
            &&& e.regs.x6 == e.teb.stack_limit
            &&& e.regs.x7 == e.teb.deallocation_stack
            &&& e.regs.x8 == e.teb.guaranteed_stack_bytes
            &&& e.regs.x9 == s.regs.x9 && e.regs.x10 == s.regs.x10
            &&& e.regs.x11 == s.regs.x11 && e.regs.x12 == s.regs.x12
            &&& e.teb.exception_list == 0xffff_ffff_ffff_ffff
            &&& e.teb.stack_base == word_at(s.mem, sp + 32)
            &&& e.teb.stack_limit == word_at(s.mem, sp + 40)
            &&& e.teb.deallocation_stack == word_at(s.mem, sp + 48)
            &&& e.teb.guaranteed_stack_bytes == word_at(s.mem, sp + 56)
        }),
{
    broadcast use group_memory;
    broadcast use group_elsewhere;

}

/// A coroutine that yields leaves `x19`, `x29`, the address to go on at and its environment
/// block in the 64 bytes below its stack pointer, and returns to the context that its
/// parent link leads to, with the value in `x0`, the address of these bytes in `x1` and
/// that of the parent frame in `x2`. The environment block and all other bytes stay.
pub proof fn law_yield_saves_and_returns(
    s: MachineState,
    arg: u64,
    parent_link: u64,
    resume_address: u64,
    other: u64,
)
    requires
        64 <= s.regs.sp,
        parent_link + 8 <= u64::MAX,
        s.regs.sp <= parent_link || parent_link + 8 <= s.regs.sp - 64,
        word_at(s.mem, parent_link as int) + 24 <= u64::MAX,
        s.regs.sp <= word_at(s.mem, parent_link as int) || word_at(s.mem, parent_link as int) + 24
            <= s.regs.sp - 64,
    ensures
        ({
            let e = yield_suspended(s, arg, parent_link, resume_address);
            let sp = s.regs.sp as int;
            let parent = word_at(s.mem, parent_link as int);
            &&& word_at(e.mem, sp - 64) == s.regs.x19
            &&& word_at(e.mem, sp - 56) == s.regs.x29
            &&& word_at(e.mem, sp - 48) == resume_address
            &&& word_at(e.mem, sp - 40) == s.teb.exception_list
            &&& word_at(e.mem, sp - 32) == s.teb.stack_base
            &&& word_at(e.mem, sp - 24) == s.teb.stack_limit
            &&& word_at(e.mem, sp - 16) == s.teb.deallocation_stack
            &&& word_at(e.mem, sp - 8) == s.teb.guaranteed_stack_bytes
            &&& !(sp - 64 <= other < sp) ==> e.mem.dom().contains(other) == s.mem.dom().contains(
                other,
            ) && byte_at(e.mem, other as int) == byte_at(s.mem, other as int)
            &&& e.regs.x0 == arg
            &&& e.regs.x1 == sp - 64
            &&& e.regs.x2 == parent
            &&& e.regs.sp == sp - 64
            &&& e.regs.x29 == word_at(s.mem, parent as int)
            &&& e.regs.x30 == word_at(s.mem, parent + 8)
            &&& e.regs.pc == word_at(s.mem, parent + 8)
            &&& e.regs.x19 == word_at(s.mem, parent + 16)
            &&& e.regs.x3 == s.teb.exception_list
            &&& e.regs.x4 == s.teb.stack_base
            &&& e.regs.x5 == s.teb.stack_limit
            &&& e.regs.x6 == s.teb.deallocation_stack
            &&& e.regs.x7 == s.teb.guaranteed_stack_bytes
            &&& e.regs.x8 == s.regs.x8 && e.regs.x9 == s.regs.x9 && e.regs.x10 == s.regs.x10
            &&& e.regs.x11 == s.regs.x11 && e.regs.x12 == s.regs.x12
            &&& e.teb == s.teb
        }),
{
    broadcast use group_memory;
    broadcast use group_elsewhere;

}

/// A coroutine that ends leaves the two changeable fields of its environment block in the
/// 16 bytes below the base of its stack, which is 32 bytes above its parent link, and
/// returns to the context that the link leads to, with the value in `x0` and zero in `x1`.
/// The environment block, the stack pointer and all other bytes stay.
pub proof fn law_reset_saves_limits_and_returns(
    s: MachineState,
    arg: u64,
    parent_link: u64,
    other: u64,
)
    requires
        parent_link + 32 <= u64::MAX,
        word_at(s.mem, parent_link as int) + 24 <= u64::MAX,
        parent_link + 32 <= word_at(s.mem, parent_link as int) || word_at(
            s.mem,
            parent_link as int,
        ) + 24 <= parent_link + 16,
    ensures
        ({
            let e = reset_done(s, arg, parent_link);
            let parent = word_at(s.mem, parent_link as int);
            &&& word_at(e.mem, parent_link + 24) == s.teb.stack_limit
            &&& word_at(e.mem, parent_link + 16) == s.teb.guaranteed_stack_bytes
            &&& !(parent_link + 16 <= other < parent_link + 32) ==> e.mem.dom().contains(other)
                == s.mem.dom().contains(other) && byte_at(e.mem, other as int) == byte_at(
                s.mem,
                other as int,
            )
            &&& e.regs.x0 == arg
            &&& e.regs.x1 == 0
            &&& e.regs.x2 == parent
            &&& e.regs.sp == s.regs.sp
            &&& e.regs.x29 == word_at(s.mem, parent as int)
            &&& e.regs.x30 == word_at(s.mem, parent + 8)
            &&& e.regs.pc == word_at(s.mem, parent + 8)
            &&& e.regs.x19 == word_at(s.mem, parent + 16)
            &&& e.regs.x4 == s.teb.guaranteed_stack_bytes
            &&& e.regs.x3 == s.regs.x3 && e.regs.x5 == s.regs.x5 && e.regs.x6 == s.regs.x6
            &&& e.regs.x7 == s.regs.x7 && e.regs.x8 == s.regs.x8 && e.regs.x9 == s.regs.x9
            &&& e.regs.x10 == s.regs.x10 && e.regs.x11 == s.regs.x11 && e.regs.x12 == s.regs.x12
            &&& e.teb == s.teb
        }),
{
    broadcast use group_memory;
    broadcast use group_elsewhere;

}

/// A function called on another stack is entered with its argument, 128 bytes below the
/// base of that stack rounded down to 16, with that stack's fields in the environment
/// block. The caller's `x29`, return address and environment block and the base of the
/// other stack are in the 64 bytes below the caller's stack pointer, to which `x29` points.
/// All other bytes stay.
pub proof fn law_call_enters_below_base<S: Stack>(
    s: MachineState,
    arg: u64,
    stack: S,
    f: u64,
    return_address: u64,
    symbols: Symbols,
    other: u64,
)
    requires
        64 <= s.regs.sp,
        128 <= stack.spec_base(),
    ensures
        ({
            let e = on_stack_entered(s, arg, stack, f, return_address, symbols);
            let sp = s.regs.sp as int;
            let base = stack.spec_base() - stack.spec_base() % 16;
            let fields = stack.spec_teb_fields();
            &&& e.regs.pc == f
            &&& e.regs.x0 == arg
            &&& e.regs.x1 == base
            &&& e.regs.x2 == f
            &&& e.regs.x3 == fields.StackBase
            &&& e.regs.x4 == fields.StackLimit
            &&& e.regs.x5 == fields.DeallocationStack
            &&& e.regs.x6 == fields.GuaranteedStackBytes
            &&& e.regs.x7 == 0xffff_ffff_ffff_ffff
            &&& e.regs.x8 == s.regs.x8
            &&& e.regs.x9 == s.teb.stack_base
            &&& e.regs.x10 == s.teb.stack_limit
            &&& e.regs.x11 == s.teb.deallocation_stack
            &&& e.regs.x12 == s.teb.guaranteed_stack_bytes
            &&& e.regs.x19 == s.regs.x19
            &&& e.regs.x29 == sp - 64
            &&& e.regs.x30 == symbols.stack_call_trampoline_return
            &&& e.regs.sp == base - 128
            &&& e.teb.exception_list == 0xffff_ffff_ffff_ffff
            &&& e.teb.stack_base == fields.StackBase
            &&& e.teb.stack_limit == fields.StackLimit
            &&& e.teb.deallocation_stack == fields.DeallocationStack
            &&& e.teb.guaranteed_stack_bytes == fields.GuaranteedStackBytes
            &&& word_at(e.mem, sp - 64) == s.regs.x29
            &&& word_at(e.mem, sp - 56) == return_address
            &&& word_at(e.mem, sp - 48) == s.teb.exception_list
            &&& word_at(e.mem, sp - 40) == s.teb.stack_base
            &&& word_at(e.mem, sp - 32) == s.teb.stack_limit
            &&& word_at(e.mem, sp - 24) == s.teb.deallocation_stack
            &&& word_at(e.mem, sp - 16) == s.teb.guaranteed_stack_bytes
            &&& word_at(e.mem, sp - 8) == base
            &&& !(sp - 64 <= other < sp) ==> e.mem.dom().contains(other) == s.mem.dom().contains(
                other,
            ) && byte_at(e.mem, other as int) == byte_at(s.mem, other as int)
        }),
{
    broadcast use group_memory;
    broadcast use group_elsewhere;

    law_stack_top_is_aligned_base(stack);
}

/// The code that calls a function on another stack enters the function in `x2`, 128 bytes
/// below the base in `x1`, with the fields in `x3` to `x6` in the environment block. What
/// the caller left is in the 64 bytes below its stack pointer, to which `x29` points.
pub proof fn law_call_trampoline_enters(s: MachineState, symbols: Symbols, other: u64)
    requires
        64 <= s.regs.sp,
        128 <= s.regs.x1,
    ensures
        ({
            let e = call_entered(s, symbols);
            let sp = s.regs.sp as int;
            &&& e.regs.pc == s.regs.x2
            &&& e.regs.sp == s.regs.x1 - 128
            &&& e.regs.x29 == sp - 64
            &&& e.regs.x30 == symbols.stack_call_trampoline_return
            &&& e.regs.x0 == s.regs.x0 && e.regs.x1 == s.regs.x1 && e.regs.x2 == s.regs.x2
            &&& e.regs.x3 == s.regs.x3 && e.regs.x4 == s.regs.x4 && e.regs.x5 == s.regs.x5
            &&& e.regs.x6 == s.regs.x6 && e.regs.x8 == s.regs.x8 && e.regs.x19 == s.regs.x19
            &&& e.regs.x7 == 0xffff_ffff_ffff_ffff
            &&& e.regs.x9 == s.teb.stack_base
            &&& e.regs.x10 == s.teb.stack_limit
            &&& e.regs.x11 == s.teb.deallocation_stack
            &&& e.regs.x12 == s.teb.guaranteed_stack_bytes
            &&& e.teb.exception_list == 0xffff_ffff_ffff_ffff
            &&& e.teb.stack_base == s.regs.x3
            &&& e.teb.stack_limit == s.regs.x4
            &&& e.teb.deallocation_stack == s.regs.x5
            &&& e.teb.guaranteed_stack_bytes == s.regs.x6
            &&& word_at(e.mem, sp - 64) == s.regs.x29
            &&& word_at(e.mem, sp - 56) == s.regs.x30
            &&& word_at(e.mem, sp - 48) == s.teb.exception_list
            &&& word_at(e.mem, sp - 40) == s.teb.stack_base
            &&& word_at(e.mem, sp - 32) == s.teb.stack_limit
            &&& word_at(e.mem, sp - 24) == s.teb.deallocation_stack
            &&& word_at(e.mem, sp - 16) == s.teb.guaranteed_stack_bytes
            &&& word_at(e.mem, sp - 8) == s.regs.x1
            &&& !(sp - 64 <= other < sp) ==> e.mem.dom().contains(other) == s.mem.dom().contains(
                other,
            ) && byte_at(e.mem, other as int) == byte_at(s.mem, other as int)
        }),
{
    broadcast use group_memory;
    broadcast use group_elsewhere;

}

/// A function called on another stack returns to what the frame at `x29` holds: `x29`, the
/// return address, to which control goes, and the environment block; the stack pointer is
/// above the frame. The two changeable fields as the function left them are in the 16 bytes
/// below the base that the frame holds. All other bytes stay.
pub proof fn law_call_returns_to_frame(s: MachineState, other: u64)
    requires
        s.regs.x29 + 64 <= u64::MAX,
        16 <= word_at(s.mem, s.regs.x29 + 56),
        word_at(s.mem, s.regs.x29 + 56) <= s.regs.x29 || s.regs.x29 + 64 <= word_at(
            s.mem,
            s.regs.x29 + 56,
        ) - 16,
    ensures
        ({
            let l = call_left(s);
            let frame = s.regs.x29 as int;
            let base = word_at(s.mem, frame + 56) as int;
            &&& l.regs.x29 == word_at(s.mem, frame)
            &&& l.regs.x30 == word_at(s.mem, frame + 8)
            &&& l.regs.pc == word_at(s.mem, frame + 8)
            &&& l.regs.sp == frame + 64
            &&& l.teb.exception_list == word_at(s.mem, frame + 16)
            &&& l.teb.stack_base == word_at(s.mem, frame + 24)
            &&& l.teb.stack_limit == word_at(s.mem, frame + 32)
            &&& l.teb.deallocation_stack == word_at(s.mem, frame + 40)
            &&& l.teb.guaranteed_stack_bytes == word_at(s.mem, frame + 48)
            &&& l.regs.x4 == s.teb.guaranteed_stack_bytes
            &&& l.regs.x7 == l.teb.exception_list
            &&& l.regs.x9 == l.teb.stack_base
            &&& l.regs.x10 == l.teb.stack_limit
            &&& l.regs.x11 == l.teb.deallocation_stack
            &&& l.regs.x12 == l.teb.guaranteed_stack_bytes
            &&& l.regs.x0 == s.regs.x0 && l.regs.x1 == s.regs.x1 && l.regs.x2 == s.regs.x2
            &&& l.regs.x3 == s.regs.x3 && l.regs.x5 == s.regs.x5 && l.regs.x6 == s.regs.x6
            &&& l.regs.x8 == s.regs.x8 && l.regs.x19 == s.regs.x19
            &&& word_at(l.mem, base - 8) == s.teb.stack_limit
            &&& word_at(l.mem, base - 16) == s.teb.guaranteed_stack_bytes
            &&& !(base - 16 <= other < base) ==> l.mem.dom().contains(other)
                == s.mem.dom().contains(other) && byte_at(l.mem, other as int) == byte_at(
                s.mem,
                other as int,
            )
        }),
{
    broadcast use group_memory;
    broadcast use group_elsewhere;

}

/// The code that calls a function on another stack finds its operands in registers: the
/// argument, the base, the function and the fields of the stack in `x0` to `x6`.
pub proof fn law_call_operands(
    s: MachineState,
    arg: u64,
    stack_base: u64,
    fields: StackTebFields,
    f: u64,
    return_address: u64,
    symbols: Symbols,
)
    ensures
        ({
            let e = call_prepared(s, arg, stack_base, fields, f, return_address, symbols);
            &&& e.regs.x0 == arg && e.regs.x1 == stack_base && e.regs.x2 == f
            &&& e.regs.x3 == fields.StackBase && e.regs.x4 == fields.StackLimit
            &&& e.regs.x5 == fields.DeallocationStack && e.regs.x6 == fields.GuaranteedStackBytes
            &&& e.regs.x30 == return_address && e.regs.pc == symbols.stack_call_trampoline
            &&& e.regs.x7 == s.regs.x7 && e.regs.x8 == s.regs.x8 && e.regs.x9 == s.regs.x9
            &&& e.regs.x10 == s.regs.x10 && e.regs.x11 == s.regs.x11 && e.regs.x12 == s.regs.x12
            &&& e.regs.x19 == s.regs.x19 && e.regs.x29 == s.regs.x29 && e.regs.sp == s.regs.sp
            &&& e.teb == s.teb && e.mem == s.mem
        }),
{
}

/// The changeable fields of a suspended coroutine are copied from 40 and 56 bytes above the
/// top of its stack to 8 and 16 bytes below its base; all other bytes stay.
pub proof fn law_limits_copied_from_frame(m: Map<u64, u8>, stack_base: u64, top: u64, other: u64)
    requires
        16 <= stack_base,
        top + 64 <= u64::MAX,
        top + 64 <= stack_base - 16 || stack_base <= top,
    ensures
        ({
            let after = mutable_fields_from_frame(m, stack_base as int, top as int);
            &&& word_at(after, stack_base - 8) == word_at(m, top + 40)
            &&& word_at(after, stack_base - 16) == word_at(m, top + 56)
            &&& !(stack_base - 16 <= other < stack_base) ==> after.dom().contains(other)
                == m.dom().contains(other) && byte_at(after, other as int) == byte_at(
                m,
                other as int,
            )
        }),
{
    broadcast use group_memory;
    broadcast use group_elsewhere;

}

/// A stack takes `StackLimit` from 8 and `GuaranteedStackBytes` from 16 bytes below its
/// base and keeps its other fields.
pub proof fn law_limits_taken_from_base(fields: StackTebFields, m: Map<u64, u8>, stack_base: int)
    ensures
        ({
            let updated = with_mutable_fields(fields, m, stack_base);
            &&& updated.StackLimit == word_at(m, stack_base - 8)
            &&& updated.GuaranteedStackBytes == word_at(m, stack_base - 16)
            &&& updated.StackBase == fields.StackBase
            &&& updated.DeallocationStack == fields.DeallocationStack
        }),
{
}

/// The fields of a parent stack are read from 32 to 64 bytes above its frame, and updating
/// the changeable ones writes 40 and 56 bytes above it and nothing else.
pub proof fn law_parent_fields_in_frame(
    m: Map<u64, u8>,
    frame: u64,
    stack_limit: u64,
    guaranteed_stack_bytes: u64,
    other: u64,
)
    requires
        frame + 64 <= u64::MAX,
    ensures
        ({
            let fields = parent_teb_fields(m, frame as int);
            let after = parent_fields_updated(
                m,
                frame as int,
                stack_limit,
                guaranteed_stack_bytes,
            );
            &&& fields.StackBase == word_at(m, frame + 32)
            &&& fields.StackLimit == word_at(m, frame + 40)
            &&& fields.DeallocationStack == word_at(m, frame + 48)
            &&& fields.GuaranteedStackBytes == word_at(m, frame + 56)
            &&& word_at(after, frame + 40) == stack_limit
            &&& word_at(after, frame + 56) == guaranteed_stack_bytes
            &&& !(frame + 40 <= other < frame + 48) && !(frame + 56 <= other < frame + 64)
                ==> after.dom().contains(other) == m.dom().contains(other) && byte_at(
                after,
                other as int,
            ) == byte_at(m, other as int)
        }),
{
    broadcast use group_memory;
    broadcast use group_elsewhere;

}

/// What a switch asks for: an aligned stack pointer with 64 mapped bytes below it where a
/// frame is pushed, and the mapped words that it reads and writes. Nothing else.
pub proof fn law_switch_preconditions(
    s: MachineState,
    top: u64,
    stack_base: u64,
    parent_link: u64,
    resume_address: u64,
)
    ensures
        can_push_frame(s) <==> s.regs.sp % 16 == 0 && mapped(s.mem, s.regs.sp - 64, 64),
        can_enter(s, top as int, stack_base as int) <==> s.regs.sp % 16 == 0 && mapped(
            s.mem,
            s.regs.sp - 64,
            64,
        ) && mapped(s.mem, stack_base - 32, 8) && mapped(s.mem, top as int, 64) && top + 64
            <= u64::MAX,
        can_leave(s) <==> mapped(s.mem, s.regs.x2 + 24, 40) && s.regs.x2 + 64 <= u64::MAX,
        s.regs.sp <= parent_link || parent_link + 8 <= s.regs.sp - 64 ==> (can_yield(
            s,
            parent_link,
            resume_address,
        ) <==> s.regs.sp % 16 == 0 && mapped(s.mem, s.regs.sp - 64, 64) && mapped(
            s.mem,
            parent_link as int,
            8,
        ) && mapped(s.mem, word_at(s.mem, parent_link as int) as int, 24)),
        can_reset(s, parent_link) <==> mapped(s.mem, parent_link as int, 32) && mapped(
            s.mem,
            word_at(s.mem, parent_link as int) as int,
            24,
        ),
{
    broadcast use group_memory;

}

/// What calls on another stack and copies of fields ask for, and nothing else.
pub proof fn law_call_preconditions(s: MachineState, m: Map<u64, u8>, stack_base: int, top: int)
    ensures
        can_call(s) <==> s.regs.sp % 16 == 0 && mapped(s.mem, s.regs.sp - 64, 64) && 128
            <= s.regs.x1,
        can_return(s) <==> mapped(s.mem, s.regs.x29 as int, 64) && s.regs.x29 + 64 <= u64::MAX
            && mapped(s.mem, word_at(s.mem, s.regs.x29 + 56) - 16, 16),
        mutable_fields_mapped(m, stack_base) <==> mapped(m, stack_base - 16, 16),
        can_copy_fields(m, stack_base, top) <==> mapped(m, stack_base - 16, 16) && mapped(
            m,
            top + 40,
            8,
        ) && mapped(m, top + 56, 8),
{
}

} // verus!
