//! Task contexts, trap frames and the context switch.

use crate::arch::{
    after_write_root0, read_thread_pointer, write_page_table_root0, write_thread_pointer,
};
use crate::cpu::{CalleeSaved, Cpu, CpuState, FpState, Op, Reg};
use vstd::prelude::*;

verus! {

/// The registers needed to resume a suspended kernel thread.
#[derive(Clone, Copy, Debug, PartialEq, Eq)]
pub struct TaskContext {
    /// Stack pointer, callee-saved registers and return address.
    pub regs: CalleeSaved,
    /// Thread pointer.
    pub tpidr_el0: usize,
    /// Root of the thread's user-half translation table.
    pub ttbr0_el1: usize,
    /// Floating-point and vector registers, kept only in a build that has
    /// the unit.
    pub fp_state: FpState,
}

/// Full register snapshot taken on entry to a trap.
#[derive(Clone, Copy, Debug, PartialEq, Eq)]
pub struct TrapFrame {
    /// General registers 0 to 30.
    pub r: [u64; 31],
    /// Stack pointer of the interrupted user code.
    pub usp: u64,
    /// Program counter to resume at.
    pub elr: u64,
    /// Saved processor status.
    pub spsr: u64,
}

impl TaskContext {
    /// What `self` holds after the running thread was saved into it.
    pub open spec fn saved(self, s: CpuState, fp_simd: bool) -> TaskContext {
        TaskContext {
            regs: s.gpr,
            tpidr_el0: s.reg(Reg::TpidrEl0) as usize,
            ttbr0_el1: self.ttbr0_el1,
            fp_state: if fp_simd {
                s.fp
            } else {
                self.fp_state
            },
        }
    }

    /// The core after `self` was loaded, coming from a thread whose user-half
    /// table root is `prev_root`.
    pub open spec fn resumed(self, s: CpuState, prev_root: usize, fp_simd: bool) -> CpuState {
        let s1 = s.step(Op::Write(Reg::TpidrEl0, self.tpidr_el0 as u64));
        let s2 = if prev_root != self.ttbr0_el1 {
            after_write_root0(s1, self.ttbr0_el1)
        } else {
            s1
        };
        CpuState {
            gpr: self.regs,
            fp: if fp_simd {
                self.fp_state
            } else {
                s.fp
            },
            ..s2
        }
    }

    /// An empty context: every register zero.
    pub fn new() -> (ctx: TaskContext)
        ensures
            ctx.regs == CalleeSaved::zeroed(),
            ctx.tpidr_el0 == 0,
            ctx.ttbr0_el1 == 0,
            ctx.fp_state.is_zero(),
    {
        TaskContext {
            regs: CalleeSaved::zero(),
            tpidr_el0: 0,
            ttbr0_el1: 0,
            fp_state: FpState::zero(),
        }
    }

    /// Prepares a thread that never ran: it will start at `entry` on the
    /// stack that ends at `kstack_top`, with thread pointer `tls_area`.
    pub fn init(&mut self, entry: usize, kstack_top: usize, tls_area: usize)
        ensures
            *final(self) == (TaskContext {
                regs: CalleeSaved { sp: kstack_top as u64, lr: entry as u64, ..old(self).regs },
                tpidr_el0: tls_area,
                ttbr0_el1: old(self).ttbr0_el1,
                fp_state: old(self).fp_state,
            }),
    {
        self.regs.sp = kstack_top as u64;
        self.regs.lr = entry as u64;
        self.tpidr_el0 = tls_area;
    }

    /// Suspends the running thread into `self` and resumes `next`: the stack
    /// pointer, the callee-saved registers, the return address and the thread
    /// pointer are saved and loaded, the floating-point and vector registers
    /// too in a build that has the unit (`fp_simd`), and the user-half table
    /// root is switched where the two threads differ in it.
    pub fn switch_to(&mut self, cpu: &mut Cpu, next: &TaskContext, fp_simd: bool)
        requires
            old(cpu).wf(),
        ensures
            final(cpu).wf(),
            *final(self) == old(self).saved(old(cpu)@, fp_simd),
            final(cpu)@ == next.resumed(old(cpu)@, old(self).ttbr0_el1, fp_simd),
            final(cpu)@.gpr == next.regs,
    {
        self.tpidr_el0 = read_thread_pointer(cpu);
        write_thread_pointer(cpu, next.tpidr_el0);
        if self.ttbr0_el1 != next.ttbr0_el1 {
            write_page_table_root0(cpu, next.ttbr0_el1);
        }
        if fp_simd {
            self.fp_state = cpu.fp;
            cpu.fp = next.fp_state;
        }
        self.regs = cpu.gpr;
        cpu.gpr = next.regs;
    }
}

/// A context that is saved and then resumed gives the core back its stack
/// pointer, every callee-saved register and its return address unchanged, and
/// in a build with the floating-point unit its registers too, whatever the
/// core did in between.
pub proof fn law_switch_round_trip(
    ctx: TaskContext,
    at_save: CpuState,
    at_resume: CpuState,
    prev_root: usize,
    fp_simd: bool,
)
    ensures
        ctx.saved(at_save, fp_simd).resumed(at_resume, prev_root, fp_simd).gpr == at_save.gpr,
        ctx.saved(at_save, fp_simd).regs == at_save.gpr,
        fp_simd ==> ctx.saved(at_save, fp_simd).resumed(at_resume, prev_root, fp_simd).fp
            == at_save.fp,
{
}

} // verus!
