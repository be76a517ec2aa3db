//! The architecture primitives of one core: interrupt masking, translation
//! and cache control, the thread pointer, the drop to kernel level and the
//! switch-on of translation.

use crate::cpu::{flush_count, page_of, Cpu, CpuState, Op, Reg};
use crate::regs::{
    cnthctl_with_el1_timer, cpacr_fp_enabled, current_el_field, daif_irq_masked, hcr_el2_image,
    scr_el3_image, sctlr_with_mmu_and_caches, spsel_elx, spsr_el2_image, spsr_el3_image,
    mair_image, tcr_image, MAIR_VALUE, TCR_VALUE,
};
use vstd::prelude::*;

verus! {

/// The state after the kernel-half table root was asked to become `root`:
/// unchanged where it already is, else written and followed by a full flush.
pub open spec fn after_write_root(s: CpuState, root: usize) -> CpuState {
    if s.page_table_root() == root {
        s
    } else {
        s.step(Op::Write(Reg::Ttbr1El1, root as u64)).step(Op::TlbiAll)
    }
}

/// The state after the user-half table root was asked to become `root`:
/// unchanged where it already is, else written and followed by a full flush.
pub open spec fn after_write_root0(s: CpuState, root: usize) -> CpuState {
    if s.reg(Reg::Ttbr0El1) as usize == root {
        s
    } else {
        s.step(Op::Write(Reg::Ttbr0El1, root as u64)).step(Op::TlbiAll)
    }
}

/// The state after a flush of one address's translation, or of all.
pub open spec fn after_flush_tlb(s: CpuState, vaddr: Option<usize>) -> CpuState {
    match vaddr {
        Some(v) => s.step(Op::TlbiVa(v)),
        None => s.step(Op::TlbiAll),
    }
}

/// The part of the drop to kernel level that only a core at level 3 runs.
pub open spec fn after_el3_setup(s: CpuState) -> CpuState {
    s.step(Op::Write(Reg::ScrEl3, 0x501)).step(Op::Write(Reg::SpsrEl3, 0x3c5)).step(
        Op::Write(Reg::ElrEl3, s.gpr.lr),
    )
}

/// The part of the drop to kernel level that a core at level 2 or 3 runs,
/// ending in the privileged return.
pub open spec fn after_el2_setup(s: CpuState) -> CpuState {
    s.step(Op::Write(Reg::CnthctlEl2, s.reg(Reg::CnthctlEl2) | 0x3)).step(
        Op::Write(Reg::CntvoffEl2, 0),
    ).step(Op::Write(Reg::HcrEl2, 0x8000_0000)).step(Op::Write(Reg::SpsrEl2, 0x3c5)).step(
        Op::Write(Reg::SpEl1, s.gpr.sp),
    ).step(Op::Write(Reg::ElrEl2, s.gpr.lr)).step(Op::Eret)
}

/// The state after the drop to kernel level: unchanged where the core is at
/// kernel level or below; above it, the stack pointer is selected, the trap
/// routing and timer offset are set up, and the core returns into kernel level.
pub open spec fn after_switch_to_el1(s: CpuState) -> CpuState {
    if s.el() < 2 {
        s
    } else {
        let s1 = s.step(Op::Write(Reg::SpSel, 1)).step(Op::Write(Reg::SpEl0, 0));
        if s.el() == 3 {
            after_el2_setup(after_el3_setup(s1))
        } else {
            after_el2_setup(s1)
        }
    }
}

/// The state after translation was switched on with table root `root`:
/// attributes, translation control, both roots, flush and enable, in that
/// order, with a barrier after each step (the flush carries its own).
pub open spec fn after_enable_mmu(s: CpuState, root: usize) -> CpuState {
    s.step(Op::Write(Reg::MairEl1, MAIR_VALUE)).step(Op::Isb).step(
        Op::Write(Reg::TcrEl1, TCR_VALUE),
    ).step(Op::Isb).step(Op::Write(Reg::Ttbr0El1, root as u64)).step(
        Op::Write(Reg::Ttbr1El1, root as u64),
    ).step(Op::Isb).step(Op::TlbiAll).step(
        Op::Write(Reg::SctlrEl1, s.reg(Reg::SctlrEl1) | 0x1005),
    ).step(Op::Isb)
}

/// Points the current-task cache register at `task_ptr`.
pub fn cache_current_task_ptr(cpu: &mut Cpu, task_ptr: usize)
    requires
        old(cpu).wf(),
    ensures
        final(cpu).wf(),
        final(cpu)@ == old(cpu)@.step(Op::Write(Reg::SpEl0, task_ptr as u64)),
{
    cpu.emit(Op::Write(Reg::SpEl0, task_ptr as u64));
}

/// Lets the core take interrupts.
pub fn enable_irqs(cpu: &mut Cpu)
    requires
        old(cpu).wf(),
    ensures
        final(cpu).wf(),
        final(cpu)@ == old(cpu)@.step(Op::UnmaskIrqs),
        final(cpu)@.irqs_enabled(),
{
    let ghost d = cpu@.reg(Reg::Daif);
    assert((d & !0x80u64) & 0x80 != 0x80) by (bit_vector);
    cpu.emit(Op::UnmaskIrqs);
}

/// Makes the core ignore interrupts.
pub fn disable_irqs(cpu: &mut Cpu)
    requires
        old(cpu).wf(),
    ensures
        final(cpu).wf(),
        final(cpu)@ == old(cpu)@.step(Op::MaskIrqs),
        !final(cpu)@.irqs_enabled(),
{
    let ghost d = cpu@.reg(Reg::Daif);
    assert((d | 0x80u64) & 0x80 == 0x80) by (bit_vector);
    cpu.emit(Op::MaskIrqs);
}

/// Whether the core takes interrupts. A pure read.
pub fn irqs_enabled(cpu: &Cpu) -> (on: bool)
    requires
        cpu.wf(),
    ensures
        on == cpu@.irqs_enabled(),
{
    !daif_irq_masked(cpu.reg(Reg::Daif))
}

/// Suspends the core until the next interrupt.
pub fn wait_for_irqs(cpu: &mut Cpu)
    requires
        old(cpu).wf(),
        old(cpu)@.irqs_enabled(),
    ensures
        final(cpu).wf(),
        final(cpu)@ == old(cpu)@.step(Op::Wfi),
{
    cpu.emit(Op::Wfi);
}

/// Masks interrupts, then suspends the core for good.
pub fn halt(cpu: &mut Cpu)
    requires
        old(cpu).wf(),
    ensures
        final(cpu).wf(),
        final(cpu)@ == old(cpu)@.step(Op::MaskIrqs).step(Op::Wfi),
        !final(cpu)@.irqs_enabled(),
{
    disable_irqs(cpu);
    cpu.emit(Op::Wfi);
}

/// Physical address of the kernel-half translation table.
pub fn read_page_table_root(cpu: &Cpu) -> (root: usize)
    requires
        cpu.wf(),
    ensures
        root == cpu@.page_table_root(),
{
    cpu.reg(Reg::Ttbr1El1) as usize
}

/// Physical address of the user-half translation table.
pub fn read_page_table_root0(cpu: &Cpu) -> (root: usize)
    requires
        cpu.wf(),
    ensures
        root == cpu@.reg(Reg::Ttbr0El1) as usize,
{
    cpu.reg(Reg::Ttbr0El1) as usize
}

/// Makes `root` the kernel-half translation table. Nothing is issued where it
/// already is; a change is followed by a flush of every translation.
pub fn write_page_table_root(cpu: &mut Cpu, root: usize)
    requires
        old(cpu).wf(),
    ensures
        final(cpu).wf(),
        final(cpu)@ == after_write_root(old(cpu)@, root),
        final(cpu)@.page_table_root() == root,
{
    let old_root: usize = read_page_table_root(cpu);
    if old_root != root {
        cpu.emit(Op::Write(Reg::Ttbr1El1, root as u64));
        flush_tlb(cpu, None);
    }
}

/// Makes `root` the user-half translation table. Nothing is issued where it
/// already is; a change is followed by a flush of every translation. The
/// kernel-half root is never touched.
pub fn write_page_table_root0(cpu: &mut Cpu, root: usize)
    requires
        old(cpu).wf(),
    ensures
        final(cpu).wf(),
        final(cpu)@ == after_write_root0(old(cpu)@, root),
        final(cpu)@.reg(Reg::Ttbr0El1) as usize == root,
        final(cpu)@.reg(Reg::Ttbr1El1) == old(cpu)@.reg(Reg::Ttbr1El1),
{
    let old_root: usize = read_page_table_root0(cpu);
    if old_root != root {
        cpu.emit(Op::Write(Reg::Ttbr0El1, root as u64));
        flush_tlb(cpu, None);
    }
}

/// Invalidates the translation of `vaddr`'s page, or every translation where
/// no address is given. The barrier is part of the issued operation.
pub fn flush_tlb(cpu: &mut Cpu, vaddr: Option<usize>)
    requires
        old(cpu).wf(),
    ensures
        final(cpu).wf(),
        final(cpu)@ == after_flush_tlb(old(cpu)@, vaddr),
        final(cpu)@.sys == old(cpu)@.sys,
        match vaddr {
            Some(v) => final(cpu)@.tlb == old(cpu)@.tlb.remove(page_of(v)),
            None => final(cpu)@.tlb == Set::<usize>::empty(),
        },
{
    match vaddr {
        Some(v) => cpu.emit(Op::TlbiVa(v)),
        None => cpu.emit(Op::TlbiAll),
    }
}

/// Invalidates the whole instruction cache.
pub fn flush_icache_all(cpu: &mut Cpu)
    requires
        old(cpu).wf(),
    ensures
        final(cpu).wf(),
        final(cpu)@ == old(cpu)@.step(Op::IcIallu),
{
    cpu.emit(Op::IcIallu);
}

/// Installs the address of the trap-entry table.
pub fn set_exception_vector_base(cpu: &mut Cpu, vbar_el1: usize)
    requires
        old(cpu).wf(),
    ensures
        final(cpu).wf(),
        final(cpu)@ == old(cpu)@.step(Op::Write(Reg::VbarEl1, vbar_el1 as u64)),
        final(cpu)@.reg(Reg::VbarEl1) as usize == vbar_el1,
{
    cpu.emit(Op::Write(Reg::VbarEl1, vbar_el1 as u64));
}

/// Invalidates the data cache line that holds `vaddr`.
pub fn flush_dcache_line(cpu: &mut Cpu, vaddr: usize)
    requires
        old(cpu).wf(),
    ensures
        final(cpu).wf(),
        final(cpu)@ == old(cpu)@.step(Op::DcIvac(vaddr)),
{
    cpu.emit(Op::DcIvac(vaddr));
}

/// The core's thread pointer.
pub fn read_thread_pointer(cpu: &Cpu) -> (tp: usize)
    requires
        cpu.wf(),
    ensures
        tp == cpu@.reg(Reg::TpidrEl0) as usize,
{
    cpu.reg(Reg::TpidrEl0) as usize
}

/// Sets the core's thread pointer.
pub fn write_thread_pointer(cpu: &mut Cpu, tpidr_el0: usize)
    requires
        old(cpu).wf(),
    ensures
        final(cpu).wf(),
        final(cpu)@ == old(cpu)@.step(Op::Write(Reg::TpidrEl0, tpidr_el0 as u64)),
        final(cpu)@.reg(Reg::TpidrEl0) as usize == tpidr_el0,
{
    cpu.emit(Op::Write(Reg::TpidrEl0, tpidr_el0 as u64));
}

/// Drops the core to kernel level. A core above it selects its stack
/// pointer, gets its trap routing and timer offset set up and returns into
/// kernel level with every interrupt masked; on a core that is there already
/// nothing is issued.
pub fn switch_to_el1(cpu: &mut Cpu)
    requires
        old(cpu).wf(),
    ensures
        final(cpu).wf(),
        final(cpu)@ == after_switch_to_el1(old(cpu)@),
        old(cpu)@.el() >= 2 ==> final(cpu)@.el() == 1 && !final(cpu)@.irqs_enabled(),
        old(cpu)@.el() < 2 ==> final(cpu)@ == old(cpu)@,
        final(cpu)@.el() <= old(cpu)@.el(),
{
    let raw_el: u64 = cpu.reg(Reg::CurrentEl);
    let current_el: u64 = current_el_field(raw_el);
    assert((raw_el & 0xc) >> 2 <= 3) by (bit_vector);
    if current_el >= 2 {
        cpu.emit(Op::Write(Reg::SpSel, spsel_elx()));
        cpu.emit(Op::Write(Reg::SpEl0, 0));
        let lr: u64 = cpu.gpr.lr;
        let sp: u64 = cpu.gpr.sp;
        if current_el == 3 {
            cpu.emit(Op::Write(Reg::ScrEl3, scr_el3_image()));
            cpu.emit(Op::Write(Reg::SpsrEl3, spsr_el3_image()));
            cpu.emit(Op::Write(Reg::ElrEl3, lr));
        }
        let timer: u64 = cnthctl_with_el1_timer(cpu.reg(Reg::CnthctlEl2));
        cpu.emit(Op::Write(Reg::CnthctlEl2, timer));
        cpu.emit(Op::Write(Reg::CntvoffEl2, 0));
        cpu.emit(Op::Write(Reg::HcrEl2, hcr_el2_image()));
        cpu.emit(Op::Write(Reg::SpsrEl2, spsr_el2_image()));
        cpu.emit(Op::Write(Reg::SpEl1, sp));
        cpu.emit(Op::Write(Reg::ElrEl2, lr));
        assert(0x3c5u64 & 0xc == 4 && (4u64 & 0xc) >> 2 == 1 && (0x3c5u64 & 0x3c0) & 0x80 == 0x80)
            by (bit_vector);
        cpu.emit(Op::Eret);
    }
}

/// Switches translation on with `root` as both table roots. The order of the
/// issued operations is fixed, and a barrier stands between each two steps.
pub fn enable_mmu(cpu: &mut Cpu, root: usize)
    requires
        old(cpu).wf(),
    ensures
        final(cpu).wf(),
        final(cpu)@ == after_enable_mmu(old(cpu)@, root),
        final(cpu)@.tlb == Set::<usize>::empty(),
        final(cpu)@.reg(Reg::SctlrEl1) & 0x1005 == 0x1005,
{
    cpu.emit(Op::Write(Reg::MairEl1, mair_image()));
    cpu.emit(Op::Isb);
    cpu.emit(Op::Write(Reg::TcrEl1, tcr_image()));
    cpu.emit(Op::Isb);
    let root_paddr: u64 = root as u64;
    cpu.emit(Op::Write(Reg::Ttbr0El1, root_paddr));
    cpu.emit(Op::Write(Reg::Ttbr1El1, root_paddr));
    cpu.emit(Op::Isb);
    flush_tlb(cpu, None);
    let before: u64 = cpu.reg(Reg::SctlrEl1);
    let sctlr: u64 = sctlr_with_mmu_and_caches(before);
    assert((before | 0x1005) & 0x1005 == 0x1005) by (bit_vector);
    cpu.emit(Op::Write(Reg::SctlrEl1, sctlr));
    cpu.emit(Op::Isb);
}

/// Opens the floating-point and vector unit where the build has it
/// (`fp_simd`); otherwise nothing is issued and its instructions keep trapping.
pub fn enable_fp(cpu: &mut Cpu, fp_simd: bool)
    requires
        old(cpu).wf(),
    ensures
        final(cpu).wf(),
        final(cpu)@ == if fp_simd {
            old(cpu)@.step(Op::Write(Reg::CpacrEl1, 0x30_0000)).step(Op::Isb)
        } else {
            old(cpu)@
        },
{
    if fp_simd {
        cpu.emit(Op::Write(Reg::CpacrEl1, cpacr_fp_enabled()));
        cpu.emit(Op::Isb);
    }
}

/// Masking after unmasking leaves interrupts off, unmasking after masking
/// leaves them on, from any state; the other mask bits are never touched.
pub proof fn law_irq_toggle(s: CpuState)
    requires
        s.wf(),
    ensures
        !s.step(Op::UnmaskIrqs).step(Op::MaskIrqs).irqs_enabled(),
        s.step(Op::MaskIrqs).step(Op::UnmaskIrqs).irqs_enabled(),
        s.step(Op::UnmaskIrqs).step(Op::MaskIrqs).reg(Reg::Daif) & !0x80u64 == s.reg(Reg::Daif)
            & !0x80u64,
        s.step(Op::MaskIrqs).step(Op::UnmaskIrqs).reg(Reg::Daif) & !0x80u64 == s.reg(Reg::Daif)
            & !0x80u64,
{
    let d = s.reg(Reg::Daif);
    assert(((d & !0x80u64) | 0x80u64) & 0x80 == 0x80) by (bit_vector);
    assert(((d | 0x80u64) & !0x80u64) & 0x80 != 0x80) by (bit_vector);
    assert(((d & !0x80u64) | 0x80u64) & !0x80u64 == d & !0x80u64) by (bit_vector);
    assert(((d | 0x80u64) & !0x80u64) & !0x80u64 == d & !0x80u64) by (bit_vector);
}

/// The kernel-half table root that was written is the one that is read.
pub proof fn law_root_write_then_read(s: CpuState, root: usize)
    requires
        s.wf(),
    ensures
        after_write_root(s, root).page_table_root() == root,
{
}

/// Writing the root that is already there changes nothing: no register, no
/// cached translation, and no operation is issued, so the number of flushes
/// stays. Writing the same root twice is the same as writing it once. A root
/// that differs costs exactly one flush.
pub proof fn law_root_write_idempotent(s: CpuState, root: usize)
    requires
        s.wf(),
    ensures
        s.page_table_root() == root ==> after_write_root(s, root) == s,
        s.page_table_root() == root ==> flush_count(after_write_root(s, root).trace) == flush_count(
            s.trace,
        ),
        s.page_table_root() != root ==> flush_count(after_write_root(s, root).trace) == flush_count(
            s.trace,
        ) + 1,
        after_write_root(after_write_root(s, root), root) == after_write_root(s, root),
{
    let written = s.trace.push(Op::Write(Reg::Ttbr1El1, root as u64));
    let flushed = written.push(Op::TlbiAll);
    assert(flushed.drop_last() =~= written);
    assert(written.drop_last() =~= s.trace);
    assert(flush_count(written) == flush_count(s.trace));
    assert(flush_count(flushed) == flush_count(written) + 1);
    if s.page_table_root() != root {
        assert(after_write_root(s, root).trace =~= flushed);
    }
}

/// The user-half table root that was written is the one that is read, and
/// writing the root that is already there changes nothing and costs no
/// flush; the kernel-half root is never touched.
pub proof fn law_root0_write(s: CpuState, root: usize)
    requires
        s.wf(),
    ensures
        after_write_root0(s, root).reg(Reg::Ttbr0El1) as usize == root,
        after_write_root0(s, root).reg(Reg::Ttbr1El1) == s.reg(Reg::Ttbr1El1),
        s.reg(Reg::Ttbr0El1) as usize == root ==> after_write_root0(s, root) == s,
        after_write_root0(after_write_root0(s, root), root) == after_write_root0(s, root),
{
}

/// The drop to kernel level changes nothing on a core that is at kernel
/// level or below: no register is written and no operation is issued.
pub proof fn law_drop_is_noop_at_kernel_level(s: CpuState)
    requires
        s.wf(),
        s.el() <= 1,
    ensures
        after_switch_to_el1(s) == s,
{
}

/// A flush by address drops the translation of that address's page and leaves
/// every other page's translation as it was.
pub proof fn law_flush_one_page(s: CpuState, vaddr: usize, other: usize)
    requires
        page_of(other) != page_of(vaddr),
    ensures
        !after_flush_tlb(s, Some(vaddr)).tlb.contains(page_of(vaddr)),
        after_flush_tlb(s, Some(vaddr)).tlb.contains(page_of(other)) == s.tlb.contains(
            page_of(other),
        ),
{
}

/// The drop to kernel level never raises the exception level.
pub proof fn law_level_never_rises(s: CpuState)
    requires
        s.wf(),
    ensures
        after_switch_to_el1(s).el() <= s.el(),
{
    let raw = s.reg(Reg::CurrentEl);
    assert((raw & 0xc) >> 2 <= 3) by (bit_vector);
    assert(0x3c5u64 & 0xc == 4 && (4u64 & 0xc) >> 2 == 1) by (bit_vector);
}

} // verus!
