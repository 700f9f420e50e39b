use corosensei::init::{init_stack, setup_trap_trampoline, TrapHandlerRegs};
use corosensei::machine::{
    Machine, Registers, Symbols, Teb, EXCEPTION_LIST_END, TEB_DEALLOCATION_STACK,
    TEB_EXCEPTION_LIST, TEB_GUARANTEED_STACK_BYTES, TEB_STACK_BASE, TEB_STACK_LIMIT,
};
use corosensei::memory::Memory;
use corosensei::on_stack::on_stack;
use corosensei::stack::{
    adjusted_stack_base, Stack, StackObject, StackPointer, StackRegion, StackTebFields,
    PARENT_LINK_OFFSET, STACK_ALIGNMENT,
};
use corosensei::switch::{
    stack_init_trampoline, switch_and_link, switch_and_link_enter, switch_and_reset,
    switch_and_throw, switch_yield, switch_yield_resume, switch_yield_suspend,
};
use corosensei::teb_fields::{
    drop_initial_obj, read_parent_stack_teb_fields, reset_teb_fields_from_suspended,
    update_parent_stack_teb_fields, update_stack_teb_fields,
};

const PARENT_BASE: u64 = 0x1_1000;
const PARENT_SP: u64 = 0x1_0f00;
const STACK_BASE: u64 = 0x2_1000;
const LINK: u64 = STACK_BASE - 32;
const RETURN: u64 = 0x9000;
const RESUME: u64 = 0x9100;
const FUNC: u64 = 0x9200;

const SYMBOLS: Symbols = Symbols {
    stack_init_trampoline: 0x8000,
    stack_init_trampoline_return: 0x8010,
    stack_call_trampoline: 0x8020,
    stack_call_trampoline_return: 0x8030,
    throw: 0x8040,
};

const PARENT_TEB: Teb = Teb {
    exception_list: 0x77,
    stack_base: PARENT_BASE,
    stack_limit: 0x1_0800,
    deallocation_stack: 0x1_0000,
    guaranteed_stack_bytes: 0x55,
};

fn pointer(addr: u64) -> StackPointer {
    StackPointer::new(addr).unwrap()
}

fn region() -> StackRegion {
    StackRegion {
        base: pointer(STACK_BASE),
        teb: StackTebFields {
            StackBase: STACK_BASE,
            StackLimit: 0x2_0800,
            DeallocationStack: 0x2_0000,
            GuaranteedStackBytes: 0x66,
        },
    }
}

fn machine() -> Machine {
    let mut memory = Memory::new();
    memory.map_bytes(0x1_0000, &[0xaa; 0x1000]);
    memory.map_bytes(0x2_0000, &[0xbb; 0x1000]);
    Machine {
        regs: Registers {
            x0: 0,
            x1: 1,
            x2: 2,
            x3: 3,
            x4: 4,
            x5: 5,
            x6: 6,
            x7: 7,
            x8: 8,
            x9: 9,
            x10: 10,
            x11: 11,
            x12: 12,
            x19: 19,
            x29: 29,
            x30: 30,
            sp: PARENT_SP,
            pc: 0x7000,
        },
        teb: PARENT_TEB,
        memory,
    }
}

fn object(size: usize, align: u64) -> StackObject {
    StackObject { bytes: (0..size).map(|i| i as u8 + 1).collect(), align }
}

fn initialized(size: usize) -> (Machine, StackPointer) {
    let mut m = machine();
    let sp = init_stack(&mut m.memory, &region(), FUNC, object(size, 8), &SYMBOLS);
    (m, sp)
}

/// Starts the coroutine and lets it yield 5 with registers of its own.
fn suspended() -> (Machine, StackPointer) {
    let (mut m, sp) = initialized(40);
    let (value, top) = switch_and_link(&mut m, 1, sp, pointer(STACK_BASE), RETURN, |m| {
        stack_init_trampoline(m, &SYMBOLS);
        m.regs.x19 = 1900;
        m.regs.x29 = 2900;
        m.regs.sp -= 0x100;
        m.teb.stack_limit = 0x2_0400;
        m.teb.guaranteed_stack_bytes = 0x67;
        switch_yield_suspend(m, 5, LINK, RESUME);
    });
    assert_eq!(value, 5);
    (m, top.unwrap())
}

#[test]
fn words_are_little_endian() {
    let mut memory = Memory::new();
    memory.map_bytes(0x10, &[1, 2, 3, 4, 5, 6, 7, 8, 9]);
    assert_eq!(memory.load(0x10), 0x0807_0605_0403_0201);
    memory.store(0x11, 0x1122_3344_5566_7788);
    assert_eq!(
        memory.read_bytes(0x10, 9),
        vec![1, 0x88, 0x77, 0x66, 0x55, 0x44, 0x33, 0x22, 0x11]
    );
}

#[test]
fn teb_fields_by_offset() {
    let mut teb = PARENT_TEB;
    assert_eq!(teb.load(TEB_EXCEPTION_LIST), 0x77);
    assert_eq!(teb.load(TEB_STACK_BASE), PARENT_BASE);
    assert_eq!(teb.load(TEB_STACK_LIMIT), 0x1_0800);
    assert_eq!(teb.load(TEB_DEALLOCATION_STACK), 0x1_0000);
    assert_eq!(teb.load(TEB_GUARANTEED_STACK_BYTES), 0x55);
    teb.store(TEB_DEALLOCATION_STACK, 1);
    assert_eq!(teb, Teb { deallocation_stack: 1, ..PARENT_TEB });
    assert_eq!(TEB_DEALLOCATION_STACK, 0x1478);
    assert_eq!(TEB_GUARANTEED_STACK_BYTES, 0x1748);
}

#[test]
fn stack_pointers_are_not_zero() {
    assert!(StackPointer::new(0).is_none());
    assert_eq!(StackPointer::new(16).unwrap().get(), 16);
}

#[test]
fn stack_base_is_rounded_down() {
    let mut stack = region();
    stack.base = pointer(0x2_0fff);
    assert_eq!(adjusted_stack_base(&stack).get(), 0x2_0ff0);
}

#[test]
fn initial_layout() {
    let (m, sp) = initialized(40);
    let at = STACK_BASE - 32 - 48;
    assert_eq!(sp.get(), at - 64);
    assert_eq!(sp.get() % STACK_ALIGNMENT, 0);
    let filler = 0xbbbb_bbbb_bbbb_bbbb;
    let words: Vec<u64> = (0..8).map(|i| m.memory.load(sp.get() + 8 * i)).collect();
    assert_eq!(
        words,
        vec![filler, filler, 0x8000, filler, STACK_BASE, 0x2_0800, 0x2_0000, 0x66]
    );
    assert_eq!(m.memory.read_bytes(at, 40), object(40, 8).bytes);
    assert_eq!(m.memory.load(STACK_BASE - 32), filler);
    assert_eq!(m.memory.load(STACK_BASE - 24), FUNC);
    assert_eq!(m.memory.load(STACK_BASE - 16), filler);
    assert_eq!(m.memory.load(STACK_BASE - 8), filler);
    assert_eq!(m.memory.read_bytes(0x1_0000, 0x1000), vec![0xaa; 0x1000]);
}

#[test]
fn initial_object_of_any_size_and_alignment() {
    for (size, align, at) in [
        (0, 1, STACK_BASE - 32),
        (1, 1, STACK_BASE - 48),
        (16, 16, STACK_BASE - 48),
        (17, 1, STACK_BASE - 64),
        (64, 64, STACK_BASE - 128),
        (32, 256, STACK_BASE - 256),
    ] {
        let mut m = machine();
        let sp = init_stack(&mut m.memory, &region(), FUNC, object(size, align), &SYMBOLS);
        assert_eq!(sp.get(), at - 64);
        assert_eq!(m.memory.read_bytes(at, size), object(size, align).bytes);
    }
}

#[test]
fn first_switch_calls_initial_func() {
    let (mut m, sp) = initialized(40);
    let at = sp.get() + 64;
    let (value, top) = switch_and_link(&mut m, 1, sp, pointer(STACK_BASE), RETURN, |m| {
        assert_eq!(m.regs.pc, SYMBOLS.stack_init_trampoline);
        stack_init_trampoline(m, &SYMBOLS);
        assert_eq!(m.regs.pc, FUNC);
        assert_eq!((m.regs.x0, m.regs.x1, m.regs.x2), (1, LINK, at));
        assert_eq!(m.regs.x30, SYMBOLS.stack_init_trampoline_return);
        assert_eq!(m.regs.sp, at);
        assert_eq!(
            m.teb,
            Teb {
                exception_list: EXCEPTION_LIST_END,
                stack_base: STACK_BASE,
                stack_limit: 0x2_0800,
                deallocation_stack: 0x2_0000,
                guaranteed_stack_bytes: 0x66,
            }
        );
        assert_eq!(m.memory.load(LINK), PARENT_SP - 64);
        let frame: Vec<u64> = (0..8).map(|i| m.memory.load(PARENT_SP - 64 + 8 * i)).collect();
        assert_eq!(frame, vec![29, RETURN, 19, 0x77, PARENT_BASE, 0x1_0800, 0x1_0000, 0x55]);
        switch_and_reset(m, 9, LINK);
        assert_eq!(m.regs.pc, RETURN);
    });
    assert_eq!(value, 9);
    assert!(top.is_none());
    assert_eq!((m.regs.sp, m.regs.x19, m.regs.x29), (PARENT_SP, 19, 29));
    assert_eq!(m.teb, PARENT_TEB);
}

#[test]
fn yield_restores_parent() {
    let (m, top) = suspended();
    assert_eq!(top.get(), STACK_BASE - 32 - 48 - 0x100 - 64);
    assert_eq!((m.regs.sp, m.regs.x19, m.regs.x29), (PARENT_SP, 19, 29));
    assert_eq!(m.teb, PARENT_TEB);
    let frame: Vec<u64> = (0..8).map(|i| m.memory.load(top.get() + 8 * i)).collect();
    assert_eq!(
        frame,
        vec![1900, 2900, RESUME, EXCEPTION_LIST_END, STACK_BASE, 0x2_0400, 0x2_0000, 0x67]
    );
}

#[test]
fn resume_restores_coroutine() {
    let (mut m, top) = suspended();
    m.regs.sp = PARENT_SP - 0x80;
    m.regs.x19 = 190;
    let (value, none) = switch_and_link(&mut m, 2, top, pointer(STACK_BASE), RETURN + 4, |m| {
        assert_eq!(m.regs.pc, RESUME);
        assert_eq!(switch_yield_resume(m), 2);
        assert_eq!((m.regs.x19, m.regs.x29), (1900, 2900));
        assert_eq!(m.regs.sp, STACK_BASE - 32 - 48 - 0x100);
        assert_eq!(
            m.teb,
            Teb {
                exception_list: EXCEPTION_LIST_END,
                stack_base: STACK_BASE,
                stack_limit: 0x2_0400,
                deallocation_stack: 0x2_0000,
                guaranteed_stack_bytes: 0x67,
            }
        );
        m.teb.stack_limit = 0x2_0300;
        switch_and_reset(m, 6, LINK);
        assert_eq!(m.regs.pc, RETURN + 4);
    });
    assert_eq!(value, 6);
    assert!(none.is_none());
    assert_eq!((m.regs.sp, m.regs.x19, m.regs.x29), (PARENT_SP - 0x80, 190, 29));
    assert_eq!(m.teb, PARENT_TEB);
    let mut stack = region();
    update_stack_teb_fields(&m.memory, &mut stack);
    assert_eq!(
        stack.teb_fields(),
        StackTebFields { StackLimit: 0x2_0300, GuaranteedStackBytes: 0x67, ..region().teb }
    );
}

#[test]
fn yield_seen_from_the_coroutine() {
    let (mut m, sp) = initialized(8);
    switch_and_link_enter(&mut m, 1, sp, pointer(STACK_BASE), RETURN);
    stack_init_trampoline(&mut m, &SYMBOLS);
    let running = m.regs;
    let value = switch_yield(&mut m, 5, LINK, RESUME, |m| {
        assert_eq!(m.regs.pc, RETURN);
        assert_eq!(m.regs.x0, 5);
        assert_eq!(m.regs.x2, PARENT_SP - 64);
        let top = pointer(m.regs.x1);
        m.regs.sp = PARENT_SP;
        switch_and_link_enter(m, 42, top, pointer(STACK_BASE), RETURN);
    });
    assert_eq!(value, 42);
    assert_eq!(m.regs.sp, running.sp);
    assert_eq!((m.regs.x19, m.regs.x29), (running.x19, running.x29));
}

#[test]
fn throw_enters_like_resume() {
    let (mut m, top) = suspended();
    let (value, none) =
        switch_and_throw(&mut m, 0xdead, top, pointer(STACK_BASE), RETURN + 8, &SYMBOLS, |m| {
            assert_eq!(m.regs.pc, SYMBOLS.throw);
            assert_eq!(m.regs.x0, 0xdead);
            assert_eq!(m.regs.x30, RESUME);
            assert_eq!((m.regs.x19, m.regs.x29), (1900, 2900));
            assert_eq!(m.regs.sp, STACK_BASE - 32 - 48 - 0x100);
            assert_eq!(m.teb.stack_limit, 0x2_0400);
            assert_eq!(m.teb.exception_list, EXCEPTION_LIST_END);
            switch_and_reset(m, 8, LINK);
            assert_eq!(m.regs.pc, RETURN + 8);
        });
    assert_eq!(value, 8);
    assert!(none.is_none());
    assert_eq!((m.regs.sp, m.regs.x19, m.regs.x29), (PARENT_SP, 19, 29));
    assert_eq!(m.teb, PARENT_TEB);
}

#[test]
fn forced_reset_updates_stack() {
    let (mut m, top) = suspended();
    reset_teb_fields_from_suspended(&mut m.memory, pointer(STACK_BASE), top);
    assert_eq!(m.memory.load(STACK_BASE - 8), 0x2_0400);
    assert_eq!(m.memory.load(STACK_BASE - 16), 0x67);
    let mut stack = region();
    update_stack_teb_fields(&m.memory, &mut stack);
    assert_eq!(stack.teb.StackLimit, 0x2_0400);
    assert_eq!(stack.teb.GuaranteedStackBytes, 0x67);
    assert_eq!(stack.teb.StackBase, STACK_BASE);
    assert_eq!(stack.teb.DeallocationStack, 0x2_0000);
}

#[test]
fn dropping_keeps_stack_fields() {
    let (mut m, sp) = initialized(24);
    let mut dropped: Vec<u64> = Vec::new();
    drop_initial_obj(&mut m.memory, pointer(STACK_BASE), sp, |memory, ptr| {
        assert_eq!(memory.read_bytes(ptr, 24), object(24, 8).bytes);
        memory.write_bytes(ptr, &[0; 24]);
        dropped.push(ptr);
    });
    assert_eq!(dropped, vec![sp.get() + 64]);
    assert_eq!(m.memory.load(STACK_BASE - 8), 0x2_0800);
    assert_eq!(m.memory.load(STACK_BASE - 16), 0x66);
    let mut stack = region();
    update_stack_teb_fields(&m.memory, &mut stack);
    assert_eq!(stack.teb, region().teb);
}

#[test]
fn reused_stack_keeps_limits() {
    let (mut m, top) = suspended();
    switch_and_link(&mut m, 2, top, pointer(STACK_BASE), RETURN, |m| {
        switch_yield_resume(m);
        switch_and_reset(m, 6, LINK);
    });
    let mut stack = region();
    update_stack_teb_fields(&m.memory, &mut stack);
    let sp = init_stack(&mut m.memory, &stack, FUNC, object(0, 1), &SYMBOLS);
    switch_and_link(&mut m, 3, sp, pointer(STACK_BASE), RETURN, |m| {
        stack_init_trampoline(m, &SYMBOLS);
        assert_eq!(m.teb.stack_limit, 0x2_0400);
        assert_eq!(m.teb.guaranteed_stack_bytes, 0x67);
        switch_and_reset(m, 0, LINK);
    });
}

#[test]
fn parent_fields_are_read_and_updated() {
    let (mut m, sp) = initialized(0);
    let (_, none) = switch_and_link(&mut m, 1, sp, pointer(STACK_BASE), RETURN, |m| {
        stack_init_trampoline(m, &SYMBOLS);
        let parent = pointer(m.memory.load(LINK));
        assert_eq!(
            read_parent_stack_teb_fields(&m.memory, parent),
            StackTebFields {
                StackBase: PARENT_BASE,
                StackLimit: 0x1_0800,
                DeallocationStack: 0x1_0000,
                GuaranteedStackBytes: 0x55,
            }
        );
        update_parent_stack_teb_fields(&mut m.memory, parent, 0x1_0700, 0x56);
        assert_eq!(read_parent_stack_teb_fields(&m.memory, parent).StackLimit, 0x1_0700);
        switch_and_reset(m, 0, LINK);
    });
    assert!(none.is_none());
    assert_eq!(
        m.teb,
        Teb { stack_limit: 0x1_0700, guaranteed_stack_bytes: 0x56, ..PARENT_TEB }
    );
}

#[test]
fn trap_handler_registers() {
    let (mut m, _) = suspended();
    let link_before = m.memory.read_bytes(LINK, PARENT_LINK_OFFSET as usize);
    let regs = setup_trap_trampoline(
        &mut m.memory,
        pointer(STACK_BASE),
        object(20, 4),
        0x9300,
        &SYMBOLS,
    );
    let TrapHandlerRegs { pc, sp, x0, x1, x29, lr } = regs;
    assert_eq!(pc, 0x9300);
    assert_eq!(sp, STACK_BASE - 64);
    assert_eq!(x0, sp);
    assert_eq!(x1, LINK);
    assert_eq!(x29, LINK);
    assert_eq!(lr, SYMBOLS.stack_init_trampoline_return);
    assert_eq!(m.memory.read_bytes(sp, 20), object(20, 4).bytes);
    assert_eq!(m.memory.read_bytes(LINK, PARENT_LINK_OFFSET as usize), link_before);
}

#[test]
fn trap_handler_can_return_to_parent() {
    let (mut m, sp) = initialized(40);
    let (value, none) = switch_and_link(&mut m, 1, sp, pointer(STACK_BASE), RETURN, |m| {
        stack_init_trampoline(m, &SYMBOLS);
        let regs = setup_trap_trampoline(
            &mut m.memory,
            pointer(STACK_BASE),
            object(3, 1),
            0x9300,
            &SYMBOLS,
        );
        m.regs.pc = regs.pc;
        m.regs.sp = regs.sp;
        m.regs.x0 = regs.x0;
        m.regs.x1 = regs.x1;
        m.regs.x29 = regs.x29;
        m.regs.x30 = regs.lr;
        switch_and_reset(m, 77, m.regs.x1);
        assert_eq!(m.regs.pc, RETURN);
    });
    assert_eq!(value, 77);
    assert!(none.is_none());
    assert_eq!((m.regs.sp, m.regs.x19, m.regs.x29), (PARENT_SP, 19, 29));
}

#[test]
fn on_stack_runs_and_restores() {
    let mut m = machine();
    let mut stack = region();
    on_stack(&mut m, 0x123, &mut stack, FUNC, RETURN, &SYMBOLS, |m| {
        assert_eq!(m.regs.pc, FUNC);
        assert_eq!(m.regs.x0, 0x123);
        assert_eq!(m.regs.sp, STACK_BASE - 128);
        assert_eq!(m.regs.x30, SYMBOLS.stack_call_trampoline_return);
        assert_eq!(
            m.teb,
            Teb {
                exception_list: EXCEPTION_LIST_END,
                stack_base: STACK_BASE,
                stack_limit: 0x2_0800,
                deallocation_stack: 0x2_0000,
                guaranteed_stack_bytes: 0x66,
            }
        );
        let frame: Vec<u64> = (0..8).map(|i| m.memory.load(m.regs.x29 + 8 * i)).collect();
        assert_eq!(
            frame,
            vec![29, RETURN, 0x77, PARENT_BASE, 0x1_0800, 0x1_0000, 0x55, STACK_BASE]
        );
        m.teb.stack_limit = 0x2_0200;
        m.teb.guaranteed_stack_bytes = 0x68;
        m.regs.sp = 0;
        m.regs.pc = m.regs.x30;
    });
    assert_eq!(m.regs.pc, RETURN);
    assert_eq!((m.regs.sp, m.regs.x29, m.regs.x19), (PARENT_SP, 29, 19));
    assert_eq!(m.teb, PARENT_TEB);
    assert_eq!(m.memory.load(STACK_BASE - 8), 0x2_0200);
    assert_eq!(m.memory.load(STACK_BASE - 16), 0x68);
    assert_eq!(
        stack.teb,
        StackTebFields { StackLimit: 0x2_0200, GuaranteedStackBytes: 0x68, ..region().teb }
    );
}

#[test]
fn switching_writes_only_frames_and_link() {
    let (mut m, sp) = initialized(40);
    let parent = m.memory.read_bytes(0x1_0000, 0x1000);
    let stack = m.memory.read_bytes(0x2_0000, 0x1000);
    let (_, top) = switch_and_link(&mut m, 1, sp, pointer(STACK_BASE), RETURN, |m| {
        stack_init_trampoline(m, &SYMBOLS);
        m.regs.sp -= 0x200;
        switch_yield_suspend(m, 5, LINK, RESUME);
    });
    let top = top.unwrap().get();
    for (i, byte) in m.memory.read_bytes(0x1_0000, 0x1000).into_iter().enumerate() {
        let addr = 0x1_0000 + i as u64;
        assert!(byte == parent[i] || (PARENT_SP - 64..PARENT_SP).contains(&addr));
    }
    for (i, byte) in m.memory.read_bytes(0x2_0000, 0x1000).into_iter().enumerate() {
        let addr = 0x2_0000 + i as u64;
        assert!(
            byte == stack[i]
                || (top..top + 64).contains(&addr)
                || (LINK..LINK + 8).contains(&addr)
        );
    }
}

#[test]
fn on_stack_leaves_headroom() {
    let mut m = machine();
    let mut stack = region();
    stack.base = pointer(STACK_BASE - 1);
    on_stack(&mut m, 0, &mut stack, FUNC, RETURN, &SYMBOLS, |m| {
        assert_eq!(m.regs.sp % STACK_ALIGNMENT, 0);
        assert_eq!(m.regs.sp, STACK_BASE - 16 - 128);
        assert!(m.regs.sp + 64 <= m.teb.stack_base);
        m.regs.pc = m.regs.x30;
    });
    assert_eq!(m.memory.load(STACK_BASE - 16 - 8), 0x2_0800);
    assert_eq!(stack.teb, region().teb);
}

#[test]
fn function_on_parent_stack_updates_parent() {
    let (mut m, sp) = initialized(40);
    switch_and_link(&mut m, 1, sp, pointer(STACK_BASE), RETURN, |m| {
        stack_init_trampoline(m, &SYMBOLS);
        let running = (m.regs.sp, m.regs.x29, m.teb);
        let frame = pointer(m.memory.load(LINK));
        let fields = read_parent_stack_teb_fields(&m.memory, frame);
        let mut parent = StackRegion { base: frame, teb: fields };
        on_stack(m, 0, &mut parent, FUNC, RETURN + 12, &SYMBOLS, |m| {
            assert_eq!(m.regs.sp, PARENT_SP - 64 - 128);
            assert_eq!(m.teb.stack_base, PARENT_BASE);
            m.teb.stack_limit = 0x1_0600;
            m.regs.pc = m.regs.x30;
        });
        assert_eq!((m.regs.sp, m.regs.x29, m.teb), running);
        update_parent_stack_teb_fields(
            &mut m.memory,
            frame,
            parent.teb.StackLimit,
            parent.teb.GuaranteedStackBytes,
        );
        switch_and_reset(m, 0, LINK);
    });
    assert_eq!((m.regs.sp, m.regs.x19, m.regs.x29), (PARENT_SP, 19, 29));
    assert_eq!(m.teb, Teb { stack_limit: 0x1_0600, ..PARENT_TEB });
}
