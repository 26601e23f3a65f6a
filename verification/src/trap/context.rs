//! The saved execution state of an application.
//!
//! A [`TrapContext`] is what crosses the privilege boundary: the general
//! registers, the supervisor status word and the address to resume at. The
//! code that saves and restores it addresses it as a frame of machine words;
//! [`TrapContext::layout`] fixes the order of those words.

use riscv::register::sstatus::{Sstatus, SPP};
use vstd::prelude::*;

verus! {

/// Number of general registers in the saved register file.
pub const NUM_REGS: usize = 32;

/// Number of machine words in the frame of a saved execution state.
pub const TRAP_CONTEXT_WORDS: usize = 34;

/// Register that holds the stack pointer (`sp`).
pub const REG_SP: usize = 2;

/// Register that holds the first system-call argument and receives the result (`a0`).
pub const REG_A0: usize = 10;

/// Register that holds the second system-call argument (`a1`).
pub const REG_A1: usize = 11;

/// Register that holds the third system-call argument (`a2`).
pub const REG_A2: usize = 12;

/// Register that holds the system-call identifier (`a7`).
pub const REG_A7: usize = 17;

/// The previous-privilege bit of the status word: clear for user mode.
pub const SPP_BIT: usize = 0x100;

/// The bits of the status word that the `riscv` crate keeps: every other bit
/// reads as zero through its `Sstatus` type. The set depends on the width of
/// a machine word.
pub open spec fn sstatus_mask() -> usize {
    if usize::BITS == 64 {
        0x8000_0003_000d_e762u64 as usize
    } else {
        0x800d_e762usize
    }
}

/// The status word `bits` with the previous privilege set to user mode.
pub open spec fn user_sstatus(bits: usize) -> usize {
    bits & sstatus_mask() & !SPP_BIT
}

/// The register file of a fresh application: all zero but the stack pointer.
pub open spec fn initial_regs(sp: usize) -> Seq<usize> {
    Seq::new(
        NUM_REGS as nat,
        |i: int|
            if i == REG_SP {
                sp
            } else {
                0usize
            },
    )
}

/// The registers, status word and resume address captured when control
/// crosses the privilege boundary.
#[derive(Clone, Copy, Debug, PartialEq, Eq)]
pub struct TrapContext {
    /// General registers `x0` to `x31`.
    pub x: [usize; 32],
    /// Supervisor status word; its previous-privilege bit selects the mode to resume in.
    pub sstatus: usize,
    /// Address of the instruction to resume at.
    pub sepc: usize,
}

/// Sets the previous-privilege field of a status word to user mode with the
/// `riscv` crate: `Sstatus::from_bits`, then `Sstatus::set_spp(SPP::User)`,
/// then `Sstatus::bits`. The first and the last keep only the bits of the
/// crate's `Sstatus::BITMASK`; `set_spp` clears bit 8 and leaves the others.
#[verifier::external_body]
fn sstatus_with_user_spp(bits: usize) -> (r: usize)
    ensures
        r == user_sstatus(bits),
{
    let mut sstatus = Sstatus::from_bits(bits);
    sstatus.set_spp(SPP::User);
    sstatus.bits()
}

impl TrapContext {
    /// The frame of machine words that holds this state: the registers in
    /// order, then the status word, then the resume address.
    pub open spec fn layout(&self) -> Seq<usize> {
        self.x@.push(self.sstatus).push(self.sepc)
    }

    /// Whether resuming this state enters user mode.
    pub open spec fn resumes_in_user_mode(&self) -> bool {
        self.sstatus & SPP_BIT == 0
    }

    /// Whether this is the state in which an application starts at `entry`
    /// with stack pointer `sp`, given the current status word `sstatus`.
    pub open spec fn is_initial(&self, entry: usize, sp: usize, sstatus: usize) -> bool {
        &&& self.x@ == initial_regs(sp)
        &&& self.sstatus == user_sstatus(sstatus)
        &&& self.sepc == entry
    }

    /// The frame of this state, as it is written to the stack.
    pub fn to_words(&self) -> (words: [usize; 34])
        ensures
            words@ == self.layout(),
    {
        let mut words: [usize; 34] = [0; 34];
        let mut i: usize = 0;
        while i < NUM_REGS
            invariant
                i <= NUM_REGS,
                forall|k: int| 0 <= k < i ==> words@[k] == self.x@[k],
            decreases NUM_REGS - i,
        {
            words[i] = self.x[i];
            i += 1;
        }
        words[32] = self.sstatus;
        words[33] = self.sepc;
        assert(words@ =~= self.layout());
        words
    }

    /// The state that a frame holds.
    pub fn from_words(words: &[usize; 34]) -> (cx: Self)
        ensures
            cx.layout() == words@,
    {
        let mut x: [usize; 32] = [0; 32];
        let mut i: usize = 0;
        while i < NUM_REGS
            invariant
                i <= NUM_REGS,
                forall|k: int| 0 <= k < i ==> x@[k] == words@[k],
            decreases NUM_REGS - i,
        {
            x[i] = words[i];
            i += 1;
        }
        let cx = Self { x, sstatus: words[32], sepc: words[33] };
        assert(cx.layout() =~= words@);
        cx
    }

    /// Stores `sp` in the stack-pointer register.
    pub fn set_sp(&mut self, sp: usize)
        ensures
            final(self).x@ == old(self).x@.update(REG_SP as int, sp),
            final(self).sstatus == old(self).sstatus,
            final(self).sepc == old(self).sepc,
    {
        self.x[REG_SP] = sp;
    }

    /// The state in which an application starts: every register zero but the
    /// stack pointer, which is `sp`; resume address `entry`; and the status
    /// word `sstatus` with the previous privilege set to user mode, so that
    /// resuming enters the application unprivileged.
    pub fn app_init_context(entry: usize, sp: usize, sstatus: usize) -> (cx: Self)
        ensures
            cx.is_initial(entry, sp, sstatus),
            cx.resumes_in_user_mode(),
    {
        let user = sstatus_with_user_spp(sstatus);
        assert(user & SPP_BIT == 0) by {
            let m = sstatus_mask();
            assert((sstatus & m & !0x100usize) & 0x100usize == 0) by (bit_vector);
        }
        let mut cx = Self { x: [0; 32], sstatus: user, sepc: entry };
        cx.set_sp(sp);
        assert(cx.x@ =~= initial_regs(sp));
        cx
    }
}

/// Two states with the same frame are the same state: the frame loses
/// nothing, so a state written with `to_words` comes back from `from_words`.
pub proof fn lemma_layout_injective(a: TrapContext, b: TrapContext)
    requires
        a.layout() == b.layout(),
    ensures
        a == b,
{
    assert(a.x@.len() == 32 && b.x@.len() == 32);
    assert(a.sstatus == a.layout()[32] && b.sstatus == b.layout()[32]);
    assert(a.sepc == a.layout()[33] && b.sepc == b.layout()[33]);
    assert forall|i: int| 0 <= i < 32 implies a.x[i] == b.x[i] by {
        assert(a.x@[i] == a.layout()[i] && b.x@[i] == b.layout()[i]);
    }
    assert(a.x =~= b.x);
}

/// The state in which an application starts has the entry as resume address,
/// the stack pointer in `sp`, zero in every other register, and resumes
/// unprivileged, whatever the status word was.
pub proof fn lemma_initial_state(cx: TrapContext, entry: usize, sp: usize, sstatus: usize)
    requires
        cx.is_initial(entry, sp, sstatus),
    ensures
        cx.sepc == entry,
        cx.x[REG_SP as int] == sp,
        forall|i: int| 0 <= i < NUM_REGS && i != REG_SP ==> cx.x[i] == 0,
        cx.resumes_in_user_mode(),
{
    let m = sstatus_mask();
    assert((sstatus & m & !0x100usize) & 0x100usize == 0) by (bit_vector);
}

} // verus!
