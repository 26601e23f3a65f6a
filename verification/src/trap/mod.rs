//! Trap handling: what the cause of a trap is, and what follows from it.
//!
//! Every trap from an application ends in one of three ways. A system call
//! is answered and the application goes on behind the call. An application
//! that faults is dropped for good and the next one takes its place. Any
//! other cause stops the machine.

pub mod context;

pub use context::TrapContext;

use crate::batch::{
    launch_spec, loaded_window, run_next_app, AppManager, Launch, ManagerView, APP_BASE_ADDRESS,
    APP_SIZE_LIMIT,
};
use context::{REG_A0, REG_A1, REG_A2, REG_A7};
use riscv::interrupt::supervisor::{Exception, Interrupt};
use riscv::interrupt::Trap;
use riscv::register::scause::Scause;
use vstd::prelude::*;

verus! {

/// Width in bytes of the instruction that makes a system call.
pub const INSTRUCTION_WIDTH: usize = 4;

/// The causes of a trap that the dispatcher tells apart.
#[derive(Clone, Copy, Debug, PartialEq, Eq)]
pub enum TrapCause {
    /// A system call from user mode.
    UserEnvCall,
    /// A store to an address that may not be accessed.
    StoreFault,
    /// A store to a page that is not mapped for it.
    StorePageFault,
    /// An instruction that is illegal in user mode.
    IllegalInstruction,
    /// Any other exception, and every interrupt.
    Unsupported,
}

/// Why an application was killed.
#[derive(Clone, Copy, Debug, PartialEq, Eq)]
pub enum Fault {
    /// It stored where it may not.
    PageFault,
    /// It ran an illegal instruction.
    IllegalInstruction,
}

/// What the caller of the dispatcher has to do next.
#[derive(Clone, Copy, Debug, PartialEq, Eq)]
pub enum TrapAction {
    /// Run system call `id` on `args`, store what it returns with
    /// [`TrapContext::set_syscall_result`] and resume the application.
    Syscall { id: usize, args: [usize; 3] },
    /// The application was killed for `fault`; go on as `next` says.
    Kill { fault: Fault, next: Launch },
    /// The cause is not one the dispatcher handles: stop for good.
    Unsupported { scause: usize, stval: usize },
}

/// The cause that the cause register `scause` stands for. An exception has
/// its number in the register, with the top bit clear; the top bit marks an
/// interrupt.
pub open spec fn trap_cause(scause: usize) -> TrapCause {
    if scause == 8 {
        TrapCause::UserEnvCall
    } else if scause == 7 {
        TrapCause::StoreFault
    } else if scause == 15 {
        TrapCause::StorePageFault
    } else if scause == 2 {
        TrapCause::IllegalInstruction
    } else {
        TrapCause::Unsupported
    }
}

/// Decodes a cause register with the `riscv` crate: `Scause::from_bits`,
/// `Scause::cause` and `Trap::try_into` for the supervisor's standard
/// interrupts and exceptions. `cause` gives an exception exactly when the top
/// bit is clear, with the other bits as its number; `try_into` names the
/// store access fault 7, the call from user mode 8, the store page fault 15
/// and the illegal instruction 2.
#[verifier::external_body]
fn decode_cause(scause: usize) -> (cause: TrapCause)
    ensures
        cause == trap_cause(scause),
{
    match Scause::from_bits(scause).cause().try_into::<Interrupt, Exception>() {
        Ok(Trap::Exception(Exception::UserEnvCall)) => TrapCause::UserEnvCall,
        Ok(Trap::Exception(Exception::StoreFault)) => TrapCause::StoreFault,
        Ok(Trap::Exception(Exception::StorePageFault)) => TrapCause::StorePageFault,
        Ok(Trap::Exception(Exception::IllegalInstruction)) => TrapCause::IllegalInstruction,
        _ => TrapCause::Unsupported,
    }
}

impl TrapContext {
    /// This state once the system call at `self.sepc` has been taken up: the
    /// resume address lies behind the call, nothing else has changed.
    pub open spec fn syscall_entered(&self) -> TrapContext {
        TrapContext { sepc: (self.sepc + INSTRUCTION_WIDTH) as usize, ..*self }
    }

    /// This state once a system call has returned `ret`: the result is in
    /// `a0`, as the machine word with the same bits, nothing else has
    /// changed.
    pub open spec fn syscall_returned(&self, ret: isize) -> TrapContext {
        TrapContext { x: vstd::array::spec_array_update(self.x, REG_A0 as int, ret as usize), ..*self }
    }

    /// The identifier of the system call that this state asks for.
    pub open spec fn syscall_id(&self) -> usize {
        self.x[REG_A7 as int]
    }

    /// The arguments of the system call that this state asks for.
    pub open spec fn syscall_args(&self) -> Seq<usize> {
        seq![self.x[REG_A0 as int], self.x[REG_A1 as int], self.x[REG_A2 as int]]
    }

    /// Stores the result of a system call in `a0`.
    pub fn set_syscall_result(&mut self, ret: isize)
        ensures
            *final(self) == old(self).syscall_returned(ret),
    {
        self.x[REG_A0] = ret as usize;
    }
}

/// What the dispatcher does with a trap, as a relation between the states
/// before and after it and the action it hands back.
pub open spec fn trap_spec(
    cx_before: TrapContext,
    scause: usize,
    stval: usize,
    manager_before: ManagerView,
    source: Seq<u8>,
    window_before: Seq<u8>,
    user_sp: usize,
    sstatus: usize,
    action: TrapAction,
    cx_after: TrapContext,
    manager_after: ManagerView,
    window_after: Seq<u8>,
) -> bool {
    match trap_cause(scause) {
        TrapCause::UserEnvCall => {
            &&& action matches TrapAction::Syscall { id, args }
            &&& id == cx_before.syscall_id()
            &&& args@ == cx_before.syscall_args()
            &&& cx_after == cx_before.syscall_entered()
            &&& manager_after == manager_before
            &&& window_after == window_before
        },
        TrapCause::StoreFault | TrapCause::StorePageFault | TrapCause::IllegalInstruction => {
            &&& action matches TrapAction::Kill { fault, next }
            &&& fault == fault_of(trap_cause(scause))
            &&& launch_spec(
                manager_before,
                source,
                window_before,
                user_sp,
                sstatus,
                next,
                manager_after,
                window_after,
            )
            &&& cx_after == cx_before
        },
        TrapCause::Unsupported => {
            &&& action == TrapAction::Unsupported { scause, stval }
            &&& cx_after == cx_before
            &&& manager_after == manager_before
            &&& window_after == window_before
        },
    }
}

/// The fault that a cause stands for, where it is one.
pub open spec fn fault_of(cause: TrapCause) -> Fault {
    if cause == TrapCause::IllegalInstruction {
        Fault::IllegalInstruction
    } else {
        Fault::PageFault
    }
}

/// Whether the dispatcher can take a trap with cause `scause` from state
/// `cx`: behind a system call there has to be an address to resume at.
pub open spec fn dispatchable(cx: TrapContext, scause: usize) -> bool {
    trap_cause(scause) == TrapCause::UserEnvCall ==> cx.sepc + INSTRUCTION_WIDTH <= usize::MAX
}

/// Tests whether [`trap_handler`] can take a trap with cause `scause` from
/// state `cx`.
pub fn is_dispatchable(cx: &TrapContext, scause: usize) -> (ok: bool)
    ensures
        ok == dispatchable(*cx, scause),
{
    match decode_cause(scause) {
        TrapCause::UserEnvCall => cx.sepc <= usize::MAX - INSTRUCTION_WIDTH,
        _ => true,
    }
}

/// Decides what follows a trap from the running application, whose saved
/// state is `cx`; `scause` and `stval` are the cause and the fault value that
/// the hardware reported.
///
/// A system call moves the resume address behind the call and hands back the
/// call to make. A store fault or an illegal instruction ends the
/// application: the next one is launched as [`run_next_app`] does, and the
/// saved state of the old one is left alone, never to be resumed. Any other
/// cause is handed back as unsupported.
pub fn trap_handler(
    cx: &mut TrapContext,
    scause: usize,
    stval: usize,
    manager: &mut AppManager,
    source: &[u8],
    window: &mut [u8],
    user_sp: usize,
    sstatus: usize,
) -> (action: TrapAction)
    requires
        dispatchable(*old(cx), scause),
        source@.len() == old(manager)@.source_len(),
        old(window)@.len() == APP_SIZE_LIMIT,
    ensures
        trap_spec(
            *old(cx),
            scause,
            stval,
            old(manager)@,
            source@,
            old(window)@,
            user_sp,
            sstatus,
            action,
            *final(cx),
            final(manager)@,
            final(window)@,
        ),
{
    match decode_cause(scause) {
        TrapCause::UserEnvCall => {
            cx.sepc += INSTRUCTION_WIDTH;
            TrapAction::Syscall {
                id: cx.x[REG_A7],
                args: [cx.x[REG_A0], cx.x[REG_A1], cx.x[REG_A2]],
            }
        },
        TrapCause::StoreFault | TrapCause::StorePageFault => TrapAction::Kill {
            fault: Fault::PageFault,
            next: run_next_app(manager, source, window, user_sp, sstatus),
        },
        TrapCause::IllegalInstruction => TrapAction::Kill {
            fault: Fault::IllegalInstruction,
            next: run_next_app(manager, source, window, user_sp, sstatus),
        },
        TrapCause::Unsupported => TrapAction::Unsupported { scause, stval },
    }
}

/// A system call moves the resume address on by exactly one instruction and
/// puts what the call returned in `a0`; every other register and the status
/// word stay as they were.
pub proof fn lemma_syscall_effect(before: TrapContext, ret: isize)
    requires
        before.sepc + INSTRUCTION_WIDTH <= usize::MAX,
    ensures
        ({
            let after = before.syscall_entered().syscall_returned(ret);
            &&& after.sepc == before.sepc + INSTRUCTION_WIDTH
            &&& after.x[REG_A0 as int] == ret as usize
            &&& forall|i: int| 0 <= i < 32 && i != REG_A0 ==> after.x[i] == before.x[i]
            &&& after.sstatus == before.sstatus
        }),
{
}

/// The result of a system call that is not negative is in `a0` as the same
/// number.
pub proof fn lemma_syscall_result_in_range(before: TrapContext, ret: isize)
    requires
        ret >= 0,
    ensures
        before.syscall_returned(ret).x[REG_A0 as int] == ret,
{
}

/// An application that faults is never resumed, and never started again.
/// Where application `running` was the last to be launched, a fault hands
/// back no state to resume: it launches application `running + 1` in its
/// initial state, or ends in shutdown when `running` was the last.
pub proof fn lemma_fault_never_resumes(
    launched_from: ManagerView,
    source: Seq<u8>,
    window_at_launch: Seq<u8>,
    launch: Launch,
    window_launched: Seq<u8>,
    cx_before: TrapContext,
    scause: usize,
    stval: usize,
    manager_before: ManagerView,
    window_before: Seq<u8>,
    user_sp: usize,
    sstatus: usize,
    action: TrapAction,
    cx_after: TrapContext,
    manager_after: ManagerView,
    window_after: Seq<u8>,
)
    requires
        launch_spec(
            launched_from,
            source,
            window_at_launch,
            user_sp,
            sstatus,
            launch,
            manager_before,
            window_launched,
        ),
        launch is Run,
        trap_cause(scause) == TrapCause::StoreFault || trap_cause(scause)
            == TrapCause::StorePageFault || trap_cause(scause) == TrapCause::IllegalInstruction,
        trap_spec(
            cx_before,
            scause,
            stval,
            manager_before,
            source,
            window_before,
            user_sp,
            sstatus,
            action,
            cx_after,
            manager_after,
            window_after,
        ),
    ensures
        action is Kill,
        match action->next {
            Launch::Run { app_id, context } => {
                &&& app_id == launch->app_id + 1
                &&& context.is_initial(APP_BASE_ADDRESS, user_sp, sstatus)
                &&& window_after == loaded_window(manager_before.image(source, app_id as int))
            },
            Launch::Shutdown => launch->app_id + 1 == manager_before.num_app,
        },
{
}

/// No trap changes the table or moves the index of the next application
/// back; only a fault moves it on.
pub proof fn lemma_trap_moves_forward(
    cx_before: TrapContext,
    scause: usize,
    stval: usize,
    manager_before: ManagerView,
    source: Seq<u8>,
    window_before: Seq<u8>,
    user_sp: usize,
    sstatus: usize,
    action: TrapAction,
    cx_after: TrapContext,
    manager_after: ManagerView,
    window_after: Seq<u8>,
)
    requires
        trap_spec(
            cx_before,
            scause,
            stval,
            manager_before,
            source,
            window_before,
            user_sp,
            sstatus,
            action,
            cx_after,
            manager_after,
            window_after,
        ),
    ensures
        manager_after.num_app == manager_before.num_app,
        manager_after.bounds == manager_before.bounds,
        manager_after.current_app >= manager_before.current_app,
        manager_after.current_app > manager_before.current_app ==> action is Kill,
{
}

} // verus!
