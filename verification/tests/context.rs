use batch_kernel::trap::context::{
    TrapContext, NUM_REGS, REG_A0, REG_SP, SPP_BIT, TRAP_CONTEXT_WORDS,
};

fn sample_context() -> TrapContext {
    let mut x = [0usize; 32];
    for (i, reg) in x.iter_mut().enumerate() {
        *reg = 0x100 + i;
    }
    TrapContext { x, sstatus: 0x22, sepc: 0x8040_0010 }
}

#[test]
fn initial_context_has_entry_stack_pointer_and_zero_registers() {
    let cx = TrapContext::app_init_context(0x8040_0000, 0x8020_3000, 0);
    assert_eq!(cx.sepc, 0x8040_0000);
    assert_eq!(cx.x[REG_SP], 0x8020_3000);
    for i in 0..NUM_REGS {
        if i != REG_SP {
            assert_eq!(cx.x[i], 0, "register {}", i);
        }
    }
    assert_eq!(cx.sstatus, 0);
}

#[test]
fn initial_context_resumes_unprivileged() {
    // Previous privilege set to supervisor in the status word read from the machine.
    let cx = TrapContext::app_init_context(0x8040_0000, 0x8020_3000, SPP_BIT | 0x22);
    assert_eq!(cx.sstatus & SPP_BIT, 0);
    assert_eq!(cx.sstatus, 0x22);
}

#[test]
fn initial_context_keeps_the_other_status_bits() {
    // SIE, SPIE, FS and SUM set, previous privilege clear already.
    let bits = (1 << 1) | (1 << 5) | (3 << 13) | (1 << 18);
    let cx = TrapContext::app_init_context(0, 0, bits);
    assert_eq!(cx.sstatus, bits);
}

#[test]
fn initial_context_drops_bits_outside_the_status_mask() {
    let cx = TrapContext::app_init_context(0, 0, usize::MAX);
    assert_eq!(cx.sstatus as u64, 0x8000_0003_000d_e662u64);
}

#[test]
fn initial_context_with_zero_entry_and_stack_pointer() {
    let cx = TrapContext::app_init_context(0, 0, SPP_BIT);
    assert_eq!(cx, TrapContext { x: [0; 32], sstatus: 0, sepc: 0 });
}

#[test]
fn set_sp_changes_only_the_stack_pointer() {
    let mut cx = sample_context();
    let before = cx;
    cx.set_sp(0xdead_beef);
    assert_eq!(cx.x[REG_SP], 0xdead_beef);
    for i in 0..NUM_REGS {
        if i != REG_SP {
            assert_eq!(cx.x[i], before.x[i]);
        }
    }
    assert_eq!(cx.sstatus, before.sstatus);
    assert_eq!(cx.sepc, before.sepc);
}

#[test]
fn frame_holds_registers_then_status_then_resume_address() {
    let cx = sample_context();
    let words = cx.to_words();
    assert_eq!(words.len(), TRAP_CONTEXT_WORDS);
    for i in 0..NUM_REGS {
        assert_eq!(words[i], 0x100 + i);
    }
    assert_eq!(words[32], 0x22);
    assert_eq!(words[33], 0x8040_0010);
}

#[test]
fn frame_round_trip() {
    let cx = sample_context();
    assert_eq!(TrapContext::from_words(&cx.to_words()), cx);

    let mut words = [0usize; 34];
    for (i, word) in words.iter_mut().enumerate() {
        *word = 7 * i + 1;
    }
    let read = TrapContext::from_words(&words);
    assert_eq!(read.x[0], 1);
    assert_eq!(read.x[31], 7 * 31 + 1);
    assert_eq!(read.sstatus, 7 * 32 + 1);
    assert_eq!(read.sepc, 7 * 33 + 1);
    assert_eq!(read.to_words(), words);
}

#[test]
fn syscall_result_goes_to_a0_only() {
    let mut cx = sample_context();
    let before = cx;
    cx.set_syscall_result(42);
    assert_eq!(cx.x[REG_A0], 42);
    for i in 0..NUM_REGS {
        if i != REG_A0 {
            assert_eq!(cx.x[i], before.x[i]);
        }
    }
    assert_eq!(cx.sstatus, before.sstatus);
    assert_eq!(cx.sepc, before.sepc);
}

#[test]
fn negative_syscall_result_keeps_its_bits() {
    let mut cx = sample_context();
    cx.set_syscall_result(-1);
    assert_eq!(cx.x[REG_A0], usize::MAX);
    cx.set_syscall_result(isize::MIN);
    assert_eq!(cx.x[REG_A0], 1usize << (usize::BITS - 1));
    cx.set_syscall_result(0);
    assert_eq!(cx.x[REG_A0], 0);
}
