//! One core's architectural state as plain data.
//!
//! The state changes by hardware operations only. Each one that is issued is
//! appended to the core's trace, so that the trace holds them in the order in
//! which the real core must execute them.

use crate::regs::current_el_field;
use vstd::prelude::*;

verus! {

/// The system registers that the primitives read or write.
#[derive(Clone, Copy, Debug, PartialEq, Eq)]
pub enum Reg {
    Daif,
    CurrentEl,
    SpSel,
    SpEl0,
    SpEl1,
    Ttbr0El1,
    Ttbr1El1,
    TpidrEl0,
    VbarEl1,
    MairEl1,
    TcrEl1,
    SctlrEl1,
    CpacrEl1,
    ScrEl3,
    SpsrEl3,
    ElrEl3,
    CnthctlEl2,
    CntvoffEl2,
    HcrEl2,
    SpsrEl2,
    ElrEl2,
}

/// Number of modelled system registers.
pub const NUM_REGS: usize = 21;

impl Reg {
    /// Position of the register in a core's register file.
    pub open spec fn idx(self) -> int {
        match self {
            Reg::Daif => 0,
            Reg::CurrentEl => 1,
            Reg::SpSel => 2,
            Reg::SpEl0 => 3,
            Reg::SpEl1 => 4,
            Reg::Ttbr0El1 => 5,
            Reg::Ttbr1El1 => 6,
            Reg::TpidrEl0 => 7,
            Reg::VbarEl1 => 8,
            Reg::MairEl1 => 9,
            Reg::TcrEl1 => 10,
            Reg::SctlrEl1 => 11,
            Reg::CpacrEl1 => 12,
            Reg::ScrEl3 => 13,
            Reg::SpsrEl3 => 14,
            Reg::ElrEl3 => 15,
            Reg::CnthctlEl2 => 16,
            Reg::CntvoffEl2 => 17,
            Reg::HcrEl2 => 18,
            Reg::SpsrEl2 => 19,
            Reg::ElrEl2 => 20,
        }
    }

    /// Position of the register in a core's register file.
    pub fn index(self) -> (i: usize)
        ensures
            i == self.idx(),
            i < NUM_REGS,
    {
        match self {
            Reg::Daif => 0,
            Reg::CurrentEl => 1,
            Reg::SpSel => 2,
            Reg::SpEl0 => 3,
            Reg::SpEl1 => 4,
            Reg::Ttbr0El1 => 5,
            Reg::Ttbr1El1 => 6,
            Reg::TpidrEl0 => 7,
            Reg::VbarEl1 => 8,
            Reg::MairEl1 => 9,
            Reg::TcrEl1 => 10,
            Reg::SctlrEl1 => 11,
            Reg::CpacrEl1 => 12,
            Reg::ScrEl3 => 13,
            Reg::SpsrEl3 => 14,
            Reg::ElrEl3 => 15,
            Reg::CnthctlEl2 => 16,
            Reg::CntvoffEl2 => 17,
            Reg::HcrEl2 => 18,
            Reg::SpsrEl2 => 19,
            Reg::ElrEl2 => 20,
        }
    }
}

/// One hardware operation, as the code that drives the real core issues it.
#[derive(Clone, Copy, Debug, PartialEq, Eq)]
pub enum Op {
    /// Write a value to a system register.
    Write(Reg, u64),
    /// Clear the IRQ mask bit.
    UnmaskIrqs,
    /// Set the IRQ mask bit.
    MaskIrqs,
    /// Invalidate every translation, then the full barrier.
    TlbiAll,
    /// Invalidate the translation of one virtual address, then the full barrier.
    TlbiVa(usize),
    /// Invalidate the whole instruction cache, then the full barrier.
    IcIallu,
    /// Invalidate the data cache line of one virtual address, then the full barrier.
    DcIvac(usize),
    /// Instruction synchronisation barrier.
    Isb,
    /// Suspend the core until the next interrupt.
    Wfi,
    /// Privileged return to the level named by the saved status.
    Eret,
}

/// Stack pointer, callee-saved registers and return address of a core.
#[derive(Clone, Copy, Debug, PartialEq, Eq, Structural)]
pub struct CalleeSaved {
    pub sp: u64,
    pub r19: u64,
    pub r20: u64,
    pub r21: u64,
    pub r22: u64,
    pub r23: u64,
    pub r24: u64,
    pub r25: u64,
    pub r26: u64,
    pub r27: u64,
    pub r28: u64,
    pub r29: u64,
    pub lr: u64,
}

impl CalleeSaved {
    /// Every register zero.
    pub open spec fn zeroed() -> CalleeSaved {
        CalleeSaved {
            sp: 0,
            r19: 0,
            r20: 0,
            r21: 0,
            r22: 0,
            r23: 0,
            r24: 0,
            r25: 0,
            r26: 0,
            r27: 0,
            r28: 0,
            r29: 0,
            lr: 0,
        }
    }

    /// Every register zero.
    pub fn zero() -> (regs: CalleeSaved)
        ensures
            regs == CalleeSaved::zeroed(),
    {
        CalleeSaved {
            sp: 0,
            r19: 0,
            r20: 0,
            r21: 0,
            r22: 0,
            r23: 0,
            r24: 0,
            r25: 0,
            r26: 0,
            r27: 0,
            r28: 0,
            r29: 0,
            lr: 0,
        }
    }
}

/// Floating-point and vector registers of a core, as raw bits.
#[derive(Clone, Copy, Debug, PartialEq, Eq)]
pub struct FpState {
    /// The 32 vector registers.
    pub regs: [u128; 32],
    /// Control register.
    pub fpcr: u32,
    /// Status register.
    pub fpsr: u32,
}

impl FpState {
    /// Whether every register is zero.
    pub open spec fn is_zero(self) -> bool {
        self.fpcr == 0 && self.fpsr == 0 && forall|i: int| 0 <= i < 32 ==> self.regs[i] == 0
    }

    /// Every register zero.
    pub fn zero() -> (fp: FpState)
        ensures
            fp.is_zero(),
    {
        FpState { regs: [0u128; 32], fpcr: 0, fpsr: 0 }
    }
}

/// Executable model of one core.
#[derive(Debug)]
pub struct Cpu {
    /// System registers, by `Reg::index`.
    pub sys: Vec<u64>,
    /// Stack pointer, callee-saved registers and return address.
    pub gpr: CalleeSaved,
    /// Floating-point and vector registers.
    pub fp: FpState,
    /// Virtual page numbers whose translation is cached.
    pub tlb: Vec<usize>,
    /// Hardware operations issued so far, oldest first.
    pub trace: Vec<Op>,
}

/// Mathematical state of one core.
pub struct CpuState {
    pub sys: Seq<u64>,
    pub gpr: CalleeSaved,
    pub fp: FpState,
    pub tlb: Set<usize>,
    pub trace: Seq<Op>,
}

/// Whether an operation invalidates cached translations.
pub open spec fn is_flush(op: Op) -> bool {
    op is TlbiAll || op is TlbiVa
}

/// Number of translation flushes in a trace.
pub open spec fn flush_count(trace: Seq<Op>) -> nat
    decreases trace.len(),
{
    if trace.len() == 0 {
        0
    } else {
        flush_count(trace.drop_last()) + if is_flush(trace.last()) {
            1nat
        } else {
            0nat
        }
    }
}

/// Virtual page number of an address (4 KiB pages).
pub open spec fn page_of(vaddr: usize) -> usize {
    vaddr >> 12
}

impl CpuState {
    pub open spec fn wf(self) -> bool {
        self.sys.len() == NUM_REGS
    }

    /// Value of a system register.
    pub open spec fn reg(self, r: Reg) -> u64 {
        self.sys[r.idx()]
    }

    /// Whether the core takes interrupts.
    pub open spec fn irqs_enabled(self) -> bool {
        self.reg(Reg::Daif) & 0x80 != 0x80
    }

    /// Current exception level.
    pub open spec fn el(self) -> u64 {
        (self.reg(Reg::CurrentEl) & 0xc) >> 2
    }

    /// Physical address of the kernel-half translation table.
    pub open spec fn page_table_root(self) -> usize {
        self.reg(Reg::Ttbr1El1) as usize
    }

    /// The state with one register replaced; the trace is not touched.
    pub open spec fn set(self, r: Reg, v: u64) -> CpuState {
        CpuState { sys: self.sys.update(r.idx(), v), ..self }
    }

    /// The saved status that a privileged return consumes at the current level.
    pub open spec fn return_status(self) -> u64 {
        if self.el() == 3 {
            self.reg(Reg::SpsrEl3)
        } else {
            self.reg(Reg::SpsrEl2)
        }
    }

    /// Effect of one hardware operation.
    pub open spec fn step(self, op: Op) -> CpuState {
        let s = CpuState { trace: self.trace.push(op), ..self };
        match op {
            Op::Write(r, v) => s.set(r, v),
            Op::UnmaskIrqs => s.set(Reg::Daif, s.reg(Reg::Daif) & !0x80u64),
            Op::MaskIrqs => s.set(Reg::Daif, s.reg(Reg::Daif) | 0x80u64),
            Op::TlbiAll => CpuState { tlb: Set::empty(), ..s },
            Op::TlbiVa(vaddr) => CpuState { tlb: s.tlb.remove(page_of(vaddr)), ..s },
            Op::Eret => if s.el() >= 2 {
                s.set(Reg::CurrentEl, s.return_status() & 0xcu64).set(
                    Reg::Daif,
                    s.return_status() & 0x3c0u64,
                )
            } else {
                s
            },
            Op::IcIallu => s,
            Op::DcIvac(_) => s,
            Op::Isb => s,
            Op::Wfi => s,
        }
    }

    /// The state after an access through `vaddr`: its translation is cached.
    pub open spec fn touch(self, vaddr: usize) -> CpuState {
        CpuState { tlb: self.tlb.insert(page_of(vaddr)), ..self }
    }
}

impl View for Cpu {
    type V = CpuState;

    open spec fn view(&self) -> CpuState {
        CpuState {
            sys: self.sys@,
            gpr: self.gpr,
            fp: self.fp,
            tlb: Set::new(|p: usize| self.tlb@.contains(p)),
            trace: self.trace@,
        }
    }
}

/// The pages of `tlb` without `page`.
fn tlb_without(tlb: &Vec<usize>, page: usize) -> (out: Vec<usize>)
    ensures
        forall|p: usize| out@.contains(p) <==> (tlb@.contains(p) && p != page),
{
    let mut out: Vec<usize> = Vec::new();
    let mut i: usize = 0;
    while i < tlb.len()
        invariant
            i <= tlb.len(),
            forall|k: int| 0 <= k < out@.len() ==> out@[k] != page && tlb@.contains(#[trigger] out@[k]),
            forall|j: int| 0 <= j < i && tlb@[j] != page ==> out@.contains(#[trigger] tlb@[j]),
        decreases tlb.len() - i,
    {
        let p: usize = tlb[i];
        if p != page {
            let ghost before = out@;
            out.push(p);
            proof {
                assert(out@[before.len() as int] == p);
                assert forall|j: int| 0 <= j < i + 1 && tlb@[j] != page implies out@.contains(
                    #[trigger] tlb@[j],
                ) by {
                    if j < i {
                        let k = choose|k: int| 0 <= k < before.len() && before[k] == tlb@[j];
                        assert(out@[k] == tlb@[j]);
                    }
                }
            }
        }
        i += 1;
    }
    proof {
        assert forall|p: usize| out@.contains(p) <==> (tlb@.contains(p) && p != page) by {
            if tlb@.contains(p) && p != page {
                let j = choose|j: int| 0 <= j < tlb@.len() && tlb@[j] == p;
                assert(out@.contains(tlb@[j]));
            }
        }
    }
    out
}

impl Cpu {
    pub open spec fn wf(&self) -> bool {
        self.sys@.len() == NUM_REGS
    }

    /// A core as firmware hands it over: at exception level `el`, every
    /// interrupt masked, every other register zero, nothing cached, no
    /// operation issued yet.
    pub fn new(el: u8) -> (cpu: Cpu)
        requires
            el <= 3,
        ensures
            cpu.wf(),
            cpu@.el() == el,
            cpu@.reg(Reg::CurrentEl) == (el as u64) << 2,
            cpu@.reg(Reg::Daif) == 0x3c0,
            cpu@.gpr == CalleeSaved::zeroed(),
            cpu@.fp.is_zero(),
            !cpu@.irqs_enabled(),
            cpu@.trace == Seq::<Op>::empty(),
            cpu@.tlb == Set::<usize>::empty(),
            forall|r: Reg| r != Reg::Daif && r != Reg::CurrentEl ==> #[trigger] cpu@.reg(r) == 0,
    {
        let mut sys: Vec<u64> = Vec::new();
        let mut i: usize = 0;
        while i < NUM_REGS
            invariant
                i <= NUM_REGS,
                sys@.len() == i,
                forall|k: int| 0 <= k < i ==> sys@[k] == 0,
            decreases NUM_REGS - i,
        {
            sys.push(0);
            i += 1;
        }
        let level: u64 = el as u64;
        assert(level <= 3 ==> ((level << 2) & 0xc) >> 2 == level) by (bit_vector);
        assert(0x3c0u64 & 0x80 == 0x80) by (bit_vector);
        sys.set(Reg::CurrentEl.index(), level << 2);
        sys.set(Reg::Daif.index(), 0x3c0);
        let gpr = CalleeSaved::zero();
        let cpu = Cpu { sys, gpr, fp: FpState::zero(), tlb: Vec::new(), trace: Vec::new() };
        assert(cpu@.tlb =~= Set::<usize>::empty());
        cpu
    }

    /// Value of a system register.
    pub fn reg(&self, r: Reg) -> (v: u64)
        requires
            self.wf(),
        ensures
            v == self@.reg(r),
    {
        self.sys[r.index()]
    }

    /// Issues one hardware operation.
    pub fn emit(&mut self, op: Op)
        requires
            old(self).wf(),
        ensures
            final(self).wf(),
            final(self)@ == old(self)@.step(op),
    {
        match op {
            Op::Write(r, v) => {
                self.sys.set(r.index(), v);
            },
            Op::UnmaskIrqs => {
                let daif: u64 = self.sys[Reg::Daif.index()];
                self.sys.set(Reg::Daif.index(), daif & !0x80u64);
            },
            Op::MaskIrqs => {
                let daif: u64 = self.sys[Reg::Daif.index()];
                self.sys.set(Reg::Daif.index(), daif | 0x80u64);
            },
            Op::TlbiAll => {
                self.tlb = Vec::new();
            },
            Op::TlbiVa(vaddr) => {
                let kept = tlb_without(&self.tlb, vaddr >> 12);
                self.tlb = kept;
            },
            Op::Eret => {
                let el: u64 = current_el_field(self.sys[Reg::CurrentEl.index()]);
                if el >= 2 {
                    let status: u64 = if el == 3 {
                        self.sys[Reg::SpsrEl3.index()]
                    } else {
                        self.sys[Reg::SpsrEl2.index()]
                    };
                    self.sys.set(Reg::CurrentEl.index(), status & 0xcu64);
                    self.sys.set(Reg::Daif.index(), status & 0x3c0u64);
                }
            },
            Op::IcIallu => {},
            Op::DcIvac(_) => {},
            Op::Isb => {},
            Op::Wfi => {},
        }
        self.trace.push(op);
        assert(self@.tlb =~= old(self)@.step(op).tlb);
        assert(self@.sys =~= old(self)@.step(op).sys);
    }

    /// Records an access through `vaddr`: the translation of its page is cached.
    pub fn touch(&mut self, vaddr: usize)
        requires
            old(self).wf(),
        ensures
            final(self).wf(),
            final(self)@ == old(self)@.touch(vaddr),
    {
        self.tlb.push(vaddr >> 12);
        proof {
            let page = page_of(vaddr);
            let before = old(self).tlb@;
            assert(self.tlb@[before.len() as int] == page);
            assert forall|p: usize| self.tlb@.contains(p) <==> (before.contains(p) || p == page) by {
                if before.contains(p) {
                    let k = choose|k: int| 0 <= k < before.len() && before[k] == p;
                    assert(self.tlb@[k] == p);
                }
            }
            assert(self@.tlb =~= old(self)@.touch(vaddr).tlb);
        }
    }

    /// Number of translation flushes that the core has issued.
    pub fn tlb_flushes(&self) -> (n: usize)
        ensures
            n == flush_count(self@.trace),
    {
        let mut n: usize = 0;
        let mut i: usize = 0;
        while i < self.trace.len()
            invariant
                i <= self.trace.len(),
                n <= i,
                n == flush_count(self.trace@.take(i as int)),
            decreases self.trace.len() - i,
        {
            proof {
                assert(self.trace@.take(i + 1).drop_last() =~= self.trace@.take(i as int));
            }
            match self.trace[i] {
                Op::TlbiAll => {
                    n += 1;
                },
                Op::TlbiVa(_) => {
                    n += 1;
                },
                _ => {},
            }
            i += 1;
        }
        proof {
            assert(self.trace@.take(i as int) =~= self.trace@);
        }
        n
    }

    /// Whether the translation of `vaddr`'s page is cached.
    pub fn caches(&self, vaddr: usize) -> (hit: bool)
        ensures
            hit == self@.tlb.contains(page_of(vaddr)),
    {
        let page: usize = vaddr >> 12;
        let mut i: usize = 0;
        while i < self.tlb.len()
            invariant
                i <= self.tlb.len(),
                page == page_of(vaddr),
                forall|k: int| 0 <= k < i ==> self.tlb@[k] != page,
            decreases self.tlb.len() - i,
        {
            if self.tlb[i] == page {
                assert(self.tlb@[i as int] == page);
                assert(self.tlb@.contains(page));
                return true;
            }
            i += 1;
        }
        false
    }
}

} // verus!
