use batch_kernel::batch::{AppManager, Launch, APP_BASE_ADDRESS, APP_SIZE_LIMIT};
use batch_kernel::trap::context::{REG_A0, REG_A1, REG_A2, REG_A7, REG_SP};
use batch_kernel::trap::{
    is_dispatchable, trap_handler, Fault, TrapAction, TrapContext, INSTRUCTION_WIDTH,
};

const ILLEGAL_INSTRUCTION: usize = 2;
const STORE_FAULT: usize = 7;
const USER_ENV_CALL: usize = 8;
const STORE_PAGE_FAULT: usize = 15;
const INTERRUPT: usize = 1 << (usize::BITS - 1);
const USER_SP: usize = 0x8020_5000;

struct Machine {
    manager: AppManager,
    source: Vec<u8>,
    window: Vec<u8>,
}

impl Machine {
    /// Two applications of 0x100 and 0x200 bytes at 0x1000, the first filled
    /// with 0x11 and the second with 0x22.
    fn new() -> Machine {
        let mut source = vec![0x11u8; 0x100];
        source.extend(vec![0x22u8; 0x200]);
        Machine {
            manager: AppManager::from_blob(&[2, 0x1000, 0x1100, 0x1300]).unwrap(),
            source,
            window: vec![0xAA; APP_SIZE_LIMIT],
        }
    }

    fn trap(&mut self, cx: &mut TrapContext, scause: usize, stval: usize) -> TrapAction {
        trap_handler(
            cx,
            scause,
            stval,
            &mut self.manager,
            &self.source,
            &mut self.window,
            USER_SP,
            0,
        )
    }

    fn launch(&mut self) -> Launch {
        batch_kernel::batch::run_next_app(
            &mut self.manager,
            &self.source,
            &mut self.window,
            USER_SP,
            0,
        )
    }
}

fn running_context() -> TrapContext {
    let mut x = [0usize; 32];
    for (i, reg) in x.iter_mut().enumerate() {
        *reg = 0x1000 + i;
    }
    TrapContext { x, sstatus: 0x20, sepc: 0x8040_0124 }
}

fn context_of(launch: Launch) -> TrapContext {
    match launch {
        Launch::Run { context, .. } => context,
        Launch::Shutdown => panic!("nothing was launched"),
    }
}

#[test]
fn syscall_hands_back_the_call_and_steps_over_it() {
    let mut machine = Machine::new();
    let mut cx = running_context();
    cx.x[REG_A7] = 64;
    cx.x[REG_A0] = 1;
    cx.x[REG_A1] = 0x8040_1000;
    cx.x[REG_A2] = 13;
    let before = cx;

    let action = machine.trap(&mut cx, USER_ENV_CALL, 0);
    assert_eq!(action, TrapAction::Syscall { id: 64, args: [1, 0x8040_1000, 13] });
    assert_eq!(cx.sepc, before.sepc + INSTRUCTION_WIDTH);
    assert_eq!(cx.sepc, 0x8040_0128);
    assert_eq!(cx.x, before.x);
    assert_eq!(cx.sstatus, before.sstatus);

    cx.set_syscall_result(13);
    assert_eq!(cx.sepc, 0x8040_0128);
    assert_eq!(cx.x[REG_A0], 13);
    for i in 0..32 {
        if i != REG_A0 {
            assert_eq!(cx.x[i], before.x[i]);
        }
    }
    assert_eq!(cx.sstatus, before.sstatus);

    // Neither the manager nor the window is touched by a system call.
    assert_eq!(machine.manager.get_current_app(), 0);
    assert!(machine.window.iter().all(|&b| b == 0xAA));
}

#[test]
fn syscall_at_the_highest_address_that_can_be_stepped_over() {
    let mut machine = Machine::new();
    let mut cx = running_context();
    cx.sepc = usize::MAX - INSTRUCTION_WIDTH;
    let action = machine.trap(&mut cx, USER_ENV_CALL, 0);
    assert!(matches!(action, TrapAction::Syscall { .. }));
    assert_eq!(cx.sepc, usize::MAX);
}

#[test]
fn fault_kills_the_application_and_launches_the_next() {
    let mut machine = Machine::new();
    let mut cx = context_of(machine.launch());
    assert_eq!(machine.manager.get_current_app(), 1);
    cx.sepc += 0x40;
    cx.x[REG_A0] = 0xbad;
    let faulting = cx;

    let action = machine.trap(&mut cx, STORE_FAULT, 0xdead);
    match action {
        TrapAction::Kill { fault, next: Launch::Run { app_id, context } } => {
            assert_eq!(fault, Fault::PageFault);
            assert_eq!(app_id, 1);
            assert_eq!(context.sepc, APP_BASE_ADDRESS);
            assert_eq!(context.x[REG_SP], USER_SP);
            assert_eq!(context.x[REG_A0], 0);
            assert_ne!(context, faulting);
        }
        other => panic!("unexpected action {:?}", other),
    }
    // The state of the killed application is left as it was.
    assert_eq!(cx, faulting);
    assert_eq!(machine.manager.get_current_app(), 2);
    assert!(machine.window[..0x200].iter().all(|&b| b == 0x22));
    assert!(machine.window[0x200..].iter().all(|&b| b == 0));
}

#[test]
fn faults_run_through_the_table_and_end_in_shutdown() {
    let mut machine = Machine::new();
    let mut cx = context_of(machine.launch());
    assert_eq!(machine.manager.get_current_app(), 1);
    assert!(machine.window[..0x100].iter().all(|&b| b == 0x11));
    assert!(machine.window[0x100..].iter().all(|&b| b == 0));

    let action = machine.trap(&mut cx, ILLEGAL_INSTRUCTION, 0);
    let mut cx = match action {
        TrapAction::Kill {
            fault: Fault::IllegalInstruction,
            next: Launch::Run { app_id: 1, context },
        } => context,
        other => panic!("unexpected action {:?}", other),
    };
    assert_eq!(machine.manager.get_current_app(), 2);
    assert!(machine.window[..0x200].iter().all(|&b| b == 0x22));
    assert!(machine.window[0x200..].iter().all(|&b| b == 0));

    let loaded = machine.window.clone();
    let action = machine.trap(&mut cx, STORE_PAGE_FAULT, 0x10);
    assert_eq!(action, TrapAction::Kill { fault: Fault::PageFault, next: Launch::Shutdown });
    assert_eq!(machine.manager.get_current_app(), 2);
    assert_eq!(machine.window, loaded);
}

#[test]
fn each_fault_cause_has_its_diagnosis() {
    for (scause, expected) in [
        (ILLEGAL_INSTRUCTION, Fault::IllegalInstruction),
        (STORE_FAULT, Fault::PageFault),
        (STORE_PAGE_FAULT, Fault::PageFault),
    ] {
        let mut machine = Machine::new();
        let mut cx = running_context();
        match machine.trap(&mut cx, scause, 0) {
            TrapAction::Kill { fault, next: Launch::Run { app_id, .. } } => {
                assert_eq!(fault, expected);
                assert_eq!(app_id, 0);
            }
            other => panic!("unexpected action {:?}", other),
        }
        assert_eq!(cx, running_context());
    }
}

#[test]
fn other_causes_are_unsupported() {
    let causes = [
        0usize,
        1,
        3,
        4,
        5,
        6,
        9,
        10,
        12,
        13,
        14,
        16,
        0x100 | USER_ENV_CALL,
        usize::MAX >> 1,
        // Interrupts, also where the number is that of a handled exception.
        INTERRUPT,
        INTERRUPT | 1,
        INTERRUPT | 5,
        INTERRUPT | 9,
        INTERRUPT | ILLEGAL_INSTRUCTION,
        INTERRUPT | STORE_FAULT,
        INTERRUPT | USER_ENV_CALL,
        INTERRUPT | STORE_PAGE_FAULT,
        usize::MAX,
    ];
    for scause in causes {
        let mut machine = Machine::new();
        let mut cx = running_context();
        let action = machine.trap(&mut cx, scause, 0x1234);
        assert_eq!(action, TrapAction::Unsupported { scause, stval: 0x1234 });
        assert_eq!(cx, running_context());
        assert_eq!(machine.manager.get_current_app(), 0);
        assert!(machine.window.iter().all(|&b| b == 0xAA));
    }
}

#[test]
fn every_trap_is_dispatchable_but_a_call_at_the_end_of_memory() {
    let mut cx = running_context();
    for sepc in [0, 0x8040_0000, usize::MAX - INSTRUCTION_WIDTH] {
        cx.sepc = sepc;
        assert!(is_dispatchable(&cx, USER_ENV_CALL));
    }
    for sepc in [usize::MAX - INSTRUCTION_WIDTH + 1, usize::MAX] {
        cx.sepc = sepc;
        assert!(!is_dispatchable(&cx, USER_ENV_CALL));
        // Only a call is stepped over.
        assert!(is_dispatchable(&cx, ILLEGAL_INSTRUCTION));
        assert!(is_dispatchable(&cx, STORE_FAULT));
        assert!(is_dispatchable(&cx, STORE_PAGE_FAULT));
        assert!(is_dispatchable(&cx, INTERRUPT | USER_ENV_CALL));
        assert!(is_dispatchable(&cx, 5));
    }
}

#[test]
fn fault_at_the_end_of_memory_kills_the_application() {
    let mut machine = Machine::new();
    let mut cx = running_context();
    cx.sepc = usize::MAX;
    let action = machine.trap(&mut cx, STORE_PAGE_FAULT, 0);
    assert!(matches!(
        action,
        TrapAction::Kill { fault: Fault::PageFault, next: Launch::Run { app_id: 0, .. } }
    ));
    assert_eq!(cx.sepc, usize::MAX);
}
