//! Stacks, pointers into them, and writing to them from the base downwards.
use crate::machine::StackWord;
use crate::memory::{mapped, put_bytes, put_word, Memory};
use vstd::arithmetic::power2::is_pow2;
use vstd::prelude::*;

verus! {

/// Alignment of a stack pointer.
pub const STACK_ALIGNMENT: u64 = 16;

/// Offset from the parent link at which the parent stack pointer is found.
pub const PARENT_STACK_OFFSET: u64 = 0;

/// Distance of the parent link below the stack base.
pub const PARENT_LINK_OFFSET: u64 = 32;

/// Size of a word on the stack.
pub const WORD_SIZE: u64 = 8;

/// An address on a stack, which is never zero.
#[derive(Clone, Copy, Debug)]
pub struct StackPointer {
    addr: u64,
}

impl View for StackPointer {
    type V = u64;

    closed spec fn view(&self) -> u64 {
        self.addr
    }
}

impl StackPointer {
    #[verifier::type_invariant]
    spec fn nonzero(self) -> bool {
        self.addr != 0
    }

    /// The pointer to `addr`, unless that is zero.
    pub fn new(addr: u64) -> (r: Option<StackPointer>)
        ensures
            r is None <==> addr == 0,
            r matches Some(p) ==> p@ == addr,
    {
        if addr == 0 {
            None
        } else {
            Some(StackPointer { addr })
        }
    }

    /// The pointer to `addr`, which the caller knows not to be zero.
    pub fn new_unchecked(addr: u64) -> (r: StackPointer)
        requires
            addr != 0,
        ensures
            r@ == addr,
    {
        StackPointer { addr }
    }

    /// The address pointed to.
    pub fn get(self) -> (addr: u64)
        ensures
            addr == self@,
            addr != 0,
    {
        proof {
            use_type_invariant(&self);
        }
        self.addr
    }
}

/// The fields of the Thread Environment Block that belong to a stack.
#[allow(non_snake_case)]
#[derive(Clone, Copy, Debug, PartialEq, Eq, Structural)]
pub struct StackTebFields {
    pub StackBase: u64,
    pub StackLimit: u64,
    pub DeallocationStack: u64,
    pub GuaranteedStackBytes: u64,
}

/// A stack that code can be run on.
pub trait Stack {
    /// Where the stack starts; it grows towards lower addresses.
    spec fn spec_base(&self) -> u64;

    /// What the Thread Environment Block holds while the stack is in use.
    spec fn spec_teb_fields(&self) -> StackTebFields;

    /// The address at which the stack starts.
    fn base(&self) -> (r: StackPointer)
        ensures
            r@ == self.spec_base(),
    ;

    /// The fields to put in the Thread Environment Block when switching to the stack.
    fn teb_fields(&self) -> (r: StackTebFields)
        ensures
            r == self.spec_teb_fields(),
    ;

    /// Takes over the two fields that the system changes while the stack is in use.
    fn update_teb_fields(&mut self, stack_limit: u64, guaranteed_stack_bytes: u64)
        ensures
            final(self).spec_base() == old(self).spec_base(),
            final(self).spec_teb_fields() == (StackTebFields {
                StackLimit: stack_limit,
                GuaranteedStackBytes: guaranteed_stack_bytes,
                ..old(self).spec_teb_fields()
            }),
    ;
}

/// A stack in a region of memory that someone else owns.
#[derive(Clone, Copy, Debug)]
pub struct StackRegion {
    /// Where the stack starts.
    pub base: StackPointer,
    /// What the Thread Environment Block holds while the stack is in use.
    pub teb: StackTebFields,
}

impl Stack for StackRegion {
    open spec fn spec_base(&self) -> u64 {
        self.base@
    }

    open spec fn spec_teb_fields(&self) -> StackTebFields {
        self.teb
    }

    fn base(&self) -> (r: StackPointer) {
        self.base
    }

    fn teb_fields(&self) -> (r: StackTebFields) {
        self.teb
    }

    fn update_teb_fields(&mut self, stack_limit: u64, guaranteed_stack_bytes: u64) {
        self.teb.StackLimit = stack_limit;
        self.teb.GuaranteedStackBytes = guaranteed_stack_bytes;
    }
}

/// `addr` rounded down to a multiple of `align`.
pub open spec fn align_down(addr: int, align: int) -> int {
    addr - addr % align
}

/// The address from which a stack is filled: its base rounded down to
/// [`STACK_ALIGNMENT`].
pub open spec fn stack_top<S: Stack>(stack: S) -> int {
    align_down(stack.spec_base() as int, STACK_ALIGNMENT as int)
}

/// The base of a stack, rounded down to [`STACK_ALIGNMENT`].
pub fn adjusted_stack_base<S: Stack>(stack: &S) -> (r: StackPointer)
    requires
        stack.spec_base() >= STACK_ALIGNMENT,
    ensures
        r@ == stack_top(*stack),
        r@ % STACK_ALIGNMENT == 0,
        r@ <= stack.spec_base() < r@ + STACK_ALIGNMENT,
{
    let base = stack.base().get();
    StackPointer::new_unchecked(base - base % STACK_ALIGNMENT)
}

/// The bytes of an object together with its alignment.
pub struct StackObject {
    pub bytes: Vec<u8>,
    pub align: u64,
}

impl StackObject {
    /// Alignments are powers of two.
    pub open spec fn wf(self) -> bool {
        is_pow2(self.align as int)
    }
}

/// Where an object is placed when the stack has been filled down to `sp`: at the
/// highest address that leaves room for it and suits both its own alignment and that
/// of the stack.
pub open spec fn object_address(sp: int, size: int, align: int) -> int {
    align_down(
        sp - size,
        if align > STACK_ALIGNMENT {
            align
        } else {
            STACK_ALIGNMENT as int
        },
    )
}

/// An object is placed below `sp`, aligned, and less than one alignment lower than
/// its size demands.
pub proof fn lemma_object_address(sp: int, size: int, align: int)
    requires
        is_pow2(align),
    ensures
        object_address(sp, size, align) + size <= sp,
        object_address(sp, size, align) % STACK_ALIGNMENT as int == 0,
        object_address(sp, size, align) % align == 0,
        align <= STACK_ALIGNMENT ==> sp - size < object_address(sp, size, align) + STACK_ALIGNMENT,
        align > STACK_ALIGNMENT ==> sp - size < object_address(sp, size, align) + align,
        size <= sp ==> 0 <= object_address(sp, size, align),
{
    reveal_with_fuel(is_pow2, 6);
    let gap = sp - size;
    let at = object_address(sp, size, align);
    if align > STACK_ALIGNMENT {
        let k = align / 16;
        let q = gap / align;
        vstd::arithmetic::div_mod::lemma_fundamental_div_mod(gap, align);
        vstd::arithmetic::div_mod::lemma_mod_bound(gap, align);
        assert(align == 16 * k);
        assert(at == q * align) by (nonlinear_arith)
            requires
                at == align * q,
        ;
        vstd::arithmetic::div_mod::lemma_mod_multiples_basic(q, align);
        let whole = k * q;
        assert(at == 16 * whole) by (nonlinear_arith)
            requires
                at == q * align,
                align == 16 * k,
                whole == k * q,
        ;
        if size <= sp {
            assert(gap % align <= gap) by (nonlinear_arith)
                requires
                    0 <= gap,
                    0 < align,
            ;
        }
    } else {
        assert(at == gap - gap % 16);
        assert(at % 16 == 0);
        assert(at % 8 == 0 && at % 4 == 0 && at % 2 == 0 && at % 1 == 0);
        assert(align == 1 || align == 2 || align == 4 || align == 8 || align == 16);
    }
}

/// Moves `sp` down by one word and stores `val` there, if there is one.
pub fn push(memory: &mut Memory, sp: &mut u64, val: Option<StackWord>)
    requires
        *old(sp) >= WORD_SIZE,
        val is Some ==> mapped(old(memory)@, *old(sp) - WORD_SIZE, WORD_SIZE as int),
    ensures
        *final(sp) == *old(sp) - WORD_SIZE,
        final(memory)@ == match val {
            Some(word) => put_word(old(memory)@, *old(sp) - WORD_SIZE, word),
            None => old(memory)@,
        },
        final(memory)@.dom() == old(memory)@.dom(),
{
    *sp = *sp - WORD_SIZE;
    match val {
        Some(word) => {
            memory.store(*sp, word);
        },
        None => {},
    }
}

/// Moves `sp` down to make room for `obj` and writes it there, aligned as the object
/// needs and at least to [`STACK_ALIGNMENT`].
///
/// `sp_offset` is how far `sp` stands below a multiple of [`STACK_ALIGNMENT`]: for
/// objects that need no more than that alignment it gives the padding without
/// looking at `sp`.
pub fn allocate_obj_on_stack(memory: &mut Memory, sp: &mut u64, sp_offset: u64, obj: StackObject)
    requires
        obj.wf(),
        *old(sp) + sp_offset <= u64::MAX,
        (*old(sp) + sp_offset) % STACK_ALIGNMENT as int == 0,
        obj.bytes@.len() <= *old(sp),
        mapped(
            old(memory)@,
            object_address(*old(sp) as int, obj.bytes@.len() as int, obj.align as int),
            obj.bytes@.len() as int,
        ),
    ensures
        *final(sp) == object_address(*old(sp) as int, obj.bytes@.len() as int, obj.align as int),
        *final(sp) % STACK_ALIGNMENT == 0,
        *final(sp) % obj.align == 0,
        *final(sp) + obj.bytes@.len() <= *old(sp),
        *old(sp) < *final(sp) + obj.bytes@.len() + (if obj.align > STACK_ALIGNMENT {
            obj.align
        } else {
            STACK_ALIGNMENT
        }),
        final(memory)@ == put_bytes(old(memory)@, *final(sp) as int, obj.bytes@),
        final(memory)@.dom() == old(memory)@.dom(),
{
    let size = obj.bytes.len() as u64;
    proof {
        lemma_object_address(*sp as int, size as int, obj.align as int);
    }
    if obj.align > STACK_ALIGNMENT {
        *sp = *sp - size;
        *sp = *sp - *sp % obj.align;
    } else {
        let total_size = sp_offset + size;
        let align_offset = total_size % STACK_ALIGNMENT;
        if align_offset != 0 {
            *sp = *sp - (STACK_ALIGNMENT - align_offset);
        }
        *sp = *sp - size;
    }
    memory.write_bytes(*sp, obj.bytes.as_slice());
}

} // verus!
