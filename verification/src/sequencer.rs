//! The stages of the boot protocol as operations on a machine: each checks
//! that the core may take the stage, moves the core on, and hands back the
//! device work that the stage consists of, in order.

use crate::arch::set_exception_vector_base;
use crate::boot::{
    cores_after, early_plan, entry_plan, later_plan, later_secondary_plan, off_plan, phys_to_virt,
    rank, refusal, secondary, stage_from, stage_to, start_plan, virt_of, BootFailure, CoreState,
    DeviceOp, Machine, PlatformConfig, Shutdown, Stage,
};
use crate::cpu::{Cpu, Op, Reg};
use vstd::prelude::*;

verus! {

/// The cores with core `cpu_id` halted.
pub open spec fn halted(cores: Seq<CoreState>, cpu_id: usize) -> Seq<CoreState> {
    cores.update(cpu_id as int, CoreState::Halted)
}

/// Early stage of the primary core: trap vectors, power interface, console
/// and timer, in that order.
pub fn init_early(m: &mut Machine, cpu_id: usize, boot_arg: usize, cfg: &PlatformConfig) -> (r: Result<
    Vec<DeviceOp>,
    BootFailure,
>)
    requires
        old(m).wf(),
    ensures
        final(m).wf(),
        final(m).primary == old(m).primary,
        final(m).cores@ == cores_after(old(m).cores@, old(m).primary, cpu_id, Stage::InitEarly),
        match refusal(old(m).cores@, old(m).primary, cpu_id, Stage::InitEarly) {
            Some(e) => r == Err::<Vec<DeviceOp>, BootFailure>(e),
            None => r is Ok && r->Ok_0@ == early_plan(*cfg),
        },
{
    match m.advance(cpu_id, Stage::InitEarly) {
        Err(e) => Err(e),
        Ok(()) => {
            let plan = vec![
                DeviceOp::InitTrap,
                DeviceOp::InitPsci(cfg.psci_method),
                DeviceOp::InitUartEarly,
                DeviceOp::InitTimerEarly,
            ];
            assert(plan@ =~= early_plan(*cfg));
            Ok(plan)
        },
    }
}

/// Early stage of a secondary core: its trap vectors.
pub fn init_early_secondary(m: &mut Machine, cpu_id: usize) -> (r: Result<Vec<DeviceOp>, BootFailure>)
    requires
        old(m).wf(),
    ensures
        final(m).wf(),
        final(m).primary == old(m).primary,
        final(m).cores@ == cores_after(
            old(m).cores@,
            old(m).primary,
            cpu_id,
            Stage::InitEarlySecondary,
        ),
        match refusal(old(m).cores@, old(m).primary, cpu_id, Stage::InitEarlySecondary) {
            Some(e) => r == Err::<Vec<DeviceOp>, BootFailure>(e),
            None => r is Ok && r->Ok_0@ == seq![DeviceOp::InitTrap],
        },
{
    match m.advance(cpu_id, Stage::InitEarlySecondary) {
        Err(e) => Err(e),
        Ok(()) => {
            let plan = vec![DeviceOp::InitTrap];
            assert(plan@ =~= seq![DeviceOp::InitTrap]);
            Ok(plan)
        },
    }
}

/// Whether the late stage finds its interrupt controller in the kernel's
/// address space; a build without interrupts needs none.
pub open spec fn later_addresses_ok(cfg: PlatformConfig) -> bool {
    !cfg.irq || (virt_of(cfg, cfg.gicd_paddr) is Some && virt_of(cfg, cfg.gicc_paddr) is Some)
}

/// Late stage of the primary core: the interrupt controller, the timer's
/// interrupt and the console's, where the build has interrupts. A
/// controller address outside the kernel's address space is fatal.
pub fn init_later(m: &mut Machine, cpu_id: usize, boot_arg: usize, cfg: &PlatformConfig) -> (r: Result<
    Vec<DeviceOp>,
    BootFailure,
>)
    requires
        old(m).wf(),
    ensures
        final(m).wf(),
        final(m).primary == old(m).primary,
        match refusal(old(m).cores@, old(m).primary, cpu_id, Stage::InitLater) {
            Some(e) => r == Err::<Vec<DeviceOp>, BootFailure>(e) && final(m).cores@ == cores_after(
                old(m).cores@,
                old(m).primary,
                cpu_id,
                Stage::InitLater,
            ),
            None => if later_addresses_ok(*cfg) {
                r is Ok && r->Ok_0@ == later_plan(
                    *cfg,
                    virt_of(*cfg, cfg.gicd_paddr).unwrap_or(0),
                    virt_of(*cfg, cfg.gicc_paddr).unwrap_or(0),
                ) && final(m).cores@ == old(m).cores@.update(cpu_id as int, CoreState::LateInit)
            } else {
                r == Err::<Vec<DeviceOp>, BootFailure>(BootFailure::BadAddress) && final(m).cores@
                    == halted(old(m).cores@, cpu_id)
            },
        },
{
    match m.advance(cpu_id, Stage::InitLater) {
        Err(e) => Err(e),
        Ok(()) => {
            if !cfg.irq {
                let plan: Vec<DeviceOp> = Vec::new();
                assert(plan@ =~= later_plan(*cfg, 0, 0));
                return Ok(plan);
            }
            match (phys_to_virt(cfg, cfg.gicd_paddr), phys_to_virt(cfg, cfg.gicc_paddr)) {
                (Some(gicd), Some(gicc)) => {
                    let plan = vec![
                        DeviceOp::InitGicd(gicd, gicc),
                        DeviceOp::InitGicc,
                        DeviceOp::EnableTimerIrq(cfg.timer_irq),
                        DeviceOp::InitUartIrq,
                    ];
                    assert(plan@ =~= later_plan(*cfg, gicd, gicc));
                    Ok(plan)
                },
                _ => {
                    m.cores.set(cpu_id, CoreState::Halted);
                    assert(m.cores@ =~= halted(old(m).cores@, cpu_id));
                    Err(BootFailure::BadAddress)
                },
            }
        },
    }
}

/// Late stage of a secondary core: its part of the interrupt controller and
/// the timer's interrupt, where the build has several cores and interrupts.
pub fn init_later_secondary(m: &mut Machine, cpu_id: usize, cfg: &PlatformConfig) -> (r: Result<
    Vec<DeviceOp>,
    BootFailure,
>)
    requires
        old(m).wf(),
    ensures
        final(m).wf(),
        final(m).primary == old(m).primary,
        final(m).cores@ == cores_after(
            old(m).cores@,
            old(m).primary,
            cpu_id,
            Stage::InitLaterSecondary,
        ),
        match refusal(old(m).cores@, old(m).primary, cpu_id, Stage::InitLaterSecondary) {
            Some(e) => r == Err::<Vec<DeviceOp>, BootFailure>(e),
            None => r is Ok && r->Ok_0@ == later_secondary_plan(*cfg),
        },
{
    match m.advance(cpu_id, Stage::InitLaterSecondary) {
        Err(e) => Err(e),
        Ok(()) => {
            if cfg.smp && cfg.irq {
                let plan = vec![DeviceOp::InitGicc, DeviceOp::EnableTimerIrq(cfg.timer_irq)];
                assert(plan@ =~= later_secondary_plan(*cfg));
                Ok(plan)
            } else {
                let plan: Vec<DeviceOp> = Vec::new();
                assert(plan@ =~= later_secondary_plan(*cfg));
                Ok(plan)
            }
        },
    }
}

/// Hands the primary core to the kernel's entry, after its early stage.
pub fn call_main(m: &mut Machine, cpu_id: usize, arg: usize) -> (r: Result<DeviceOp, BootFailure>)
    requires
        old(m).wf(),
    ensures
        final(m).wf(),
        final(m).primary == old(m).primary,
        final(m).cores@ == cores_after(old(m).cores@, old(m).primary, cpu_id, Stage::CallMain),
        r == match refusal(old(m).cores@, old(m).primary, cpu_id, Stage::CallMain) {
            Some(e) => Err::<DeviceOp, BootFailure>(e),
            None => Ok::<DeviceOp, BootFailure>(DeviceOp::CallMain(cpu_id, arg)),
        },
{
    match m.advance(cpu_id, Stage::CallMain) {
        Err(e) => Err(e),
        Ok(()) => Ok(DeviceOp::CallMain(cpu_id, arg)),
    }
}

/// Hands a secondary core to the kernel's secondary entry, after its late
/// stage.
pub fn call_secondary_main(m: &mut Machine, cpu_id: usize) -> (r: Result<DeviceOp, BootFailure>)
    requires
        old(m).wf(),
    ensures
        final(m).wf(),
        final(m).primary == old(m).primary,
        final(m).cores@ == cores_after(
            old(m).cores@,
            old(m).primary,
            cpu_id,
            Stage::CallSecondaryMain,
        ),
        r == match refusal(old(m).cores@, old(m).primary, cpu_id, Stage::CallSecondaryMain) {
            Some(e) => Err::<DeviceOp, BootFailure>(e),
            None => Ok::<DeviceOp, BootFailure>(DeviceOp::CallSecondaryMain(cpu_id)),
        },
{
    match m.advance(cpu_id, Stage::CallSecondaryMain) {
        Err(e) => Err(e),
        Ok(()) => Ok(DeviceOp::CallSecondaryMain(cpu_id)),
    }
}

/// Why core `cpu_id` cannot be started, if it cannot: it must exist, be
/// another core than the primary and be off, and the primary must be past the
/// kernel's generic bring-up.
pub open spec fn boot_refusal(m: Machine, cpu_id: usize) -> Option<BootFailure> {
    if cpu_id >= m.cores@.len() {
        Some(BootFailure::NoSuchCore)
    } else if cpu_id == m.primary || m.cores@[cpu_id as int] != CoreState::PoweredOff
        || !m.primary_up() {
        Some(BootFailure::OutOfOrder)
    } else {
        None
    }
}

/// Starts core `cpu_id` on the stack that ends at `stack_top_paddr`. A build
/// for one core starts nothing. A refused start changes nothing.
pub fn cpu_boot(m: &mut Machine, cpu_id: usize, stack_top_paddr: usize, cfg: &PlatformConfig) -> (r:
    Result<Option<DeviceOp>, BootFailure>)
    requires
        old(m).wf(),
    ensures
        final(m).wf(),
        final(m).primary == old(m).primary,
        if !cfg.smp {
            r == Ok::<Option<DeviceOp>, BootFailure>(None) && final(m).cores@ == old(m).cores@
        } else {
            match boot_refusal(*old(m), cpu_id) {
                Some(e) => r == Err::<Option<DeviceOp>, BootFailure>(e) && final(m).cores@ == old(
                    m,
                ).cores@,
                None => r == Ok::<Option<DeviceOp>, BootFailure>(
                    Some(DeviceOp::StartCpu(cpu_id, stack_top_paddr)),
                ) && final(m).cores@ == old(m).cores@.update(cpu_id as int, CoreState::Reset),
            }
        },
{
    if !cfg.smp {
        return Ok(None);
    }
    if cpu_id >= m.cores.len() {
        return Err(BootFailure::NoSuchCore);
    }
    let p = m.cores[m.primary];
    let up = p == CoreState::GenericInit || p == CoreState::LateInit || p == CoreState::Running;
    if cpu_id == m.primary || m.cores[cpu_id] != CoreState::PoweredOff || !up {
        return Err(BootFailure::OutOfOrder);
    }
    m.cores.set(cpu_id, CoreState::Reset);
    Ok(Some(DeviceOp::StartCpu(cpu_id, stack_top_paddr)))
}

/// Starts every core but the primary, each once and in rising order, core
/// `i` on the stack that ends at `stacks[i]`.
pub fn start_secondary_cpus(m: &mut Machine, stacks: &Vec<usize>, cfg: &PlatformConfig) -> (plan: Vec<
    DeviceOp,
>)
    requires
        old(m).wf(),
        old(m).primary_up(),
        cfg.smp,
        stacks@.len() == old(m).cores@.len(),
        forall|i: int|
            0 <= i < old(m).cores@.len() && i != old(m).primary ==> old(m).cores@[i]
                == CoreState::PoweredOff,
    ensures
        final(m).wf(),
        final(m).primary == old(m).primary,
        final(m).cores@.len() == old(m).cores@.len(),
        plan@ == start_plan(old(m).cores@.len() as int, old(m).primary, stacks@),
        plan@.len() == old(m).cores@.len() - 1,
        forall|i: int|
            0 <= i < final(m).cores@.len() ==> #[trigger] final(m).cores@[i] == if i == old(
                m,
            ).primary {
                old(m).cores@[i]
            } else {
                CoreState::Reset
            },
{
    let n: usize = m.cores.len();
    let mut plan: Vec<DeviceOp> = Vec::new();
    let mut i: usize = 0;
    while i < n
        invariant
            i <= n,
            n == m.cores@.len(),
            n == stacks@.len(),
            cfg.smp,
            m.wf(),
            m.primary == old(m).primary,
            m.primary_up(),
            m.cores@[m.primary as int] == old(m).cores@[m.primary as int],
            plan@.len() == if i <= m.primary {
                i as int
            } else {
                i - 1
            },
            forall|k: int|
                0 <= k < plan@.len() ==> #[trigger] plan@[k] == DeviceOp::StartCpu(
                    secondary(m.primary, k) as usize,
                    stacks@[secondary(m.primary, k)],
                ),
            forall|j: int|
                0 <= j < n && j != m.primary ==> #[trigger] m.cores@[j] == if j < i {
                    CoreState::Reset
                } else {
                    CoreState::PoweredOff
                },
        decreases n - i,
    {
        if i != m.primary {
            let r = cpu_boot(m, i, stacks[i], cfg);
            match r {
                Ok(Some(op)) => {
                    plan.push(op);
                },
                _ => {
                    assert(false);
                },
            }
        }
        i += 1;
    }
    assert(plan@ =~= start_plan(n as int, m.primary, stacks@));
    plan
}

/// Whether the platform's off switch is in the kernel's address space.
pub open spec fn off_address_ok(cfg: PlatformConfig) -> bool {
    match cfg.shutdown {
        Shutdown::EventDevice(paddr) => virt_of(cfg, paddr) is Some,
        _ => true,
    }
}

/// The kernel address of the platform's event device, or 0 where it has none.
pub open spec fn off_address(cfg: PlatformConfig) -> usize {
    match cfg.shutdown {
        Shutdown::EventDevice(paddr) => virt_of(cfg, paddr).unwrap_or(0),
        _ => 0,
    }
}

/// Switches the whole system off: every core ends halted, whether or not the
/// off switch could be reached.
pub fn system_off(m: &mut Machine, cfg: &PlatformConfig) -> (r: Result<Vec<DeviceOp>, BootFailure>)
    requires
        old(m).wf(),
    ensures
        final(m).wf(),
        final(m).primary == old(m).primary,
        final(m).cores@.len() == old(m).cores@.len(),
        forall|i: int| 0 <= i < final(m).cores@.len() ==> final(m).cores@[i] == CoreState::Halted,
        if off_address_ok(*cfg) {
            r is Ok && r->Ok_0@ == off_plan(*cfg, off_address(*cfg))
        } else {
            r == Err::<Vec<DeviceOp>, BootFailure>(BootFailure::BadAddress)
        },
{
    let n: usize = m.cores.len();
    let mut i: usize = 0;
    while i < n
        invariant
            i <= n,
            n == m.cores@.len(),
            n == old(m).cores@.len(),
            m.primary == old(m).primary,
            forall|k: int| 0 <= k < i ==> m.cores@[k] == CoreState::Halted,
        decreases n - i,
    {
        m.cores.set(i, CoreState::Halted);
        i += 1;
    }
    match cfg.shutdown {
        Shutdown::PowerPort => {
            let plan = vec![DeviceOp::PortWrite16(0x604, 0x2000), DeviceOp::HaltForever];
            assert(plan@ =~= off_plan(*cfg, 0));
            Ok(plan)
        },
        Shutdown::RebootPort => {
            let plan = vec![
                DeviceOp::AwaitKey,
                DeviceOp::PortWrite8(0x64, 0xfe),
                DeviceOp::HaltForever,
            ];
            assert(plan@ =~= off_plan(*cfg, 0));
            Ok(plan)
        },
        Shutdown::EventDevice(paddr) => match phys_to_virt(cfg, paddr) {
            Some(ged) => {
                let plan = vec![DeviceOp::MmioWrite8(ged, 0x34), DeviceOp::HaltForever];
                assert(plan@ =~= off_plan(*cfg, ged));
                Ok(plan)
            },
            None => Err(BootFailure::BadAddress),
        },
    }
}

/// Whether the primary entry finds its console, and its clock where the
/// build has one, in the kernel's address space.
pub open spec fn entry_addresses_ok(cfg: PlatformConfig) -> bool {
    virt_of(cfg, cfg.uart_paddr) is Some && (!cfg.rtc || virt_of(cfg, cfg.rtc_paddr) is Some)
}

/// Entry of the primary core: bss is cleared, then the trap vectors are
/// installed, then come the core's own setup, power interface, console, timer
/// and clock, and last the hand-off to the kernel. The returned plan holds
/// all of it in that order, the write of the vector base among the rest; the
/// model of the core shows that write too. The core passes its early stage
/// and ends in the kernel's generic bring-up. A device outside the kernel's
/// address space is fatal.
pub fn rust_entry(
    m: &mut Machine,
    cpu: &mut Cpu,
    cpu_id: usize,
    dtb: usize,
    cfg: &PlatformConfig,
    vector_base: usize,
) -> (r: Result<Vec<DeviceOp>, BootFailure>)
    requires
        old(m).wf(),
        old(cpu).wf(),
    ensures
        final(m).wf(),
        final(cpu).wf(),
        final(m).primary == old(m).primary,
        match refusal(old(m).cores@, old(m).primary, cpu_id, Stage::InitEarly) {
            Some(e) => r == Err::<Vec<DeviceOp>, BootFailure>(e) && final(cpu)@ == old(cpu)@
                && final(m).cores@ == cores_after(
                old(m).cores@,
                old(m).primary,
                cpu_id,
                Stage::InitEarly,
            ),
            None => if entry_addresses_ok(*cfg) {
                r is Ok && r->Ok_0@ == entry_plan(
                    *cfg,
                    cpu_id,
                    dtb,
                    vector_base,
                    virt_of(*cfg, cfg.uart_paddr).unwrap_or(0),
                    virt_of(*cfg, cfg.rtc_paddr).unwrap_or(0),
                ) && final(cpu)@ == old(cpu)@.step(Op::Write(Reg::VbarEl1, vector_base as u64))
                    && final(m).cores@ == old(m).cores@.update(
                    cpu_id as int,
                    CoreState::GenericInit,
                )
            } else {
                r == Err::<Vec<DeviceOp>, BootFailure>(BootFailure::BadAddress) && final(cpu)@
                    == old(cpu)@ && final(m).cores@ == halted(old(m).cores@, cpu_id)
            },
        },
{
    match m.advance(cpu_id, Stage::InitEarly) {
        Err(e) => {
            return Err(e);
        },
        Ok(()) => {},
    }
    let uart = phys_to_virt(cfg, cfg.uart_paddr);
    let rtc = phys_to_virt(cfg, cfg.rtc_paddr);
    if uart.is_none() || (cfg.rtc && rtc.is_none()) {
        m.cores.set(cpu_id, CoreState::Halted);
        assert(m.cores@ =~= halted(old(m).cores@, cpu_id));
        return Err(BootFailure::BadAddress);
    }
    let uart_vaddr: usize = uart.unwrap();
    set_exception_vector_base(cpu, vector_base);
    let mut plan = vec![
        DeviceOp::ClearBss,
        DeviceOp::Core(Op::Write(Reg::VbarEl1, vector_base as u64)),
        DeviceOp::InitCpuPrimary(cpu_id),
        DeviceOp::InitPsci(cfg.psci_method),
        DeviceOp::InitUartAt(uart_vaddr),
        DeviceOp::InitTimerEarly,
    ];
    if cfg.rtc {
        plan.push(DeviceOp::InitRtcAt(rtc.unwrap()));
    }
    let handoff = call_main(m, cpu_id, dtb);
    match handoff {
        Ok(op) => {
            plan.push(op);
        },
        Err(_) => {
            assert(false);
        },
    }
    assert(plan@ =~= entry_plan(
        *cfg,
        cpu_id,
        dtb,
        vector_base,
        virt_of(*cfg, cfg.uart_paddr).unwrap_or(0),
        virt_of(*cfg, cfg.rtc_paddr).unwrap_or(0),
    ));
    assert(m.cores@ =~= old(m).cores@.update(cpu_id as int, CoreState::GenericInit));
    Ok(plan)
}

/// The work of a secondary core's entry, in order: the trap vectors are
/// installed first, the hand-off comes last.
pub open spec fn secondary_entry_plan(cfg: PlatformConfig, cpu_id: usize, vector_base: usize) -> Seq<
    DeviceOp,
> {
    (seq![
        DeviceOp::Core(Op::Write(Reg::VbarEl1, vector_base as u64)),
        DeviceOp::InitCpuSecondary(cpu_id),
        DeviceOp::InitTrap,
    ] + later_secondary_plan(cfg)).push(DeviceOp::CallSecondaryMain(cpu_id))
}

/// Entry of a secondary core that the primary has started: trap vectors,
/// the core's own setup, its early stage, its late stage, then the hand-off
/// to the kernel's secondary entry. The returned plan holds all of it in that
/// order. The core ends running.
pub fn rust_entry_secondary(
    m: &mut Machine,
    cpu: &mut Cpu,
    cpu_id: usize,
    cfg: &PlatformConfig,
    vector_base: usize,
) -> (r: Result<Vec<DeviceOp>, BootFailure>)
    requires
        old(m).wf(),
        old(cpu).wf(),
    ensures
        final(m).wf(),
        final(cpu).wf(),
        final(m).primary == old(m).primary,
        match refusal(old(m).cores@, old(m).primary, cpu_id, Stage::InitEarlySecondary) {
            Some(e) => r == Err::<Vec<DeviceOp>, BootFailure>(e) && final(cpu)@ == old(cpu)@
                && final(m).cores@ == cores_after(
                old(m).cores@,
                old(m).primary,
                cpu_id,
                Stage::InitEarlySecondary,
            ),
            None => r is Ok && r->Ok_0@ == secondary_entry_plan(*cfg, cpu_id, vector_base) && final(cpu)@ == old(
                cpu,
            )@.step(Op::Write(Reg::VbarEl1, vector_base as u64)) && final(m).cores@ == old(
                m,
            ).cores@.update(cpu_id as int, CoreState::Running),
        },
{
    let early = init_early_secondary(m, cpu_id);
    let mut plan: Vec<DeviceOp> = Vec::new();
    match early {
        Err(e) => {
            return Err(e);
        },
        Ok(ops) => {
            plan.push(DeviceOp::Core(Op::Write(Reg::VbarEl1, vector_base as u64)));
            plan.push(DeviceOp::InitCpuSecondary(cpu_id));
            plan.push(DeviceOp::InitTrap);
        },
    }
    set_exception_vector_base(cpu, vector_base);
    let later = init_later_secondary(m, cpu_id, cfg);
    match later {
        Ok(ops) => {
            if cfg.smp && cfg.irq {
                plan.push(DeviceOp::InitGicc);
                plan.push(DeviceOp::EnableTimerIrq(cfg.timer_irq));
            }
        },
        Err(_) => {
            assert(false);
        },
    }
    let handoff = call_secondary_main(m, cpu_id);
    match handoff {
        Ok(op) => {
            plan.push(op);
        },
        Err(_) => {
            assert(false);
        },
    }
    assert(plan@ =~= secondary_entry_plan(*cfg, cpu_id, vector_base));
    assert(m.cores@ =~= old(m).cores@.update(cpu_id as int, CoreState::Running));
    Ok(plan)
}

/// The state of a core that took `stages` in order from `start`, or `None`
/// where one of them was not admitted.
pub open spec fn run(start: CoreState, stages: Seq<Stage>) -> Option<CoreState>
    decreases stages.len(),
{
    if stages.len() == 0 {
        Some(start)
    } else {
        match run(start, stages.drop_last()) {
            Some(s) => if s == stage_from(stages.last()) {
                Some(stage_to(stages.last()))
            } else {
                None
            },
            None => None,
        }
    }
}

/// Every stage moves a core strictly forward, but the hand-off of a running
/// secondary core, which leaves it running; no stage is admitted on a halted
/// core, and none leads back to reset or to power-off.
pub proof fn law_one_directional(stage: Stage)
    ensures
        stage != Stage::CallSecondaryMain ==> rank(stage_to(stage)) > rank(stage_from(stage)),
        stage == Stage::CallSecondaryMain ==> stage_to(stage) == CoreState::Running && stage_from(
            stage,
        ) == CoreState::Running,
        stage_from(stage) != CoreState::Halted,
        stage_to(stage) != CoreState::Reset && stage_to(stage) != CoreState::PoweredOff,
{
}

/// Every beginning of an admitted history is admitted, and the core was
/// never further along than it is at the end.
pub proof fn lemma_prefix(start: CoreState, stages: Seq<Stage>, k: int)
    requires
        run(start, stages) is Some,
        0 <= k <= stages.len(),
    ensures
        run(start, stages.take(k)) is Some,
        rank(run(start, stages.take(k))->Some_0) <= rank(run(start, stages)->Some_0),
    decreases stages.len(),
{
    if k == stages.len() {
        assert(stages.take(k) =~= stages);
    } else {
        lemma_prefix(start, stages.drop_last(), k);
        assert(stages.drop_last().take(k) =~= stages.take(k));
    }
}

/// In every admitted history of a core from reset, the early stage is
/// complete before the late stage begins: on the primary path the early
/// stage stands two steps before each late stage, with the hand-off between
/// them, and on the secondary path directly before it.
pub proof fn law_early_before_later(stages: Seq<Stage>, j: int)
    requires
        run(CoreState::Reset, stages) is Some,
        0 <= j < stages.len(),
    ensures
        stages[j] == Stage::InitLater ==> j >= 2 && stages[j - 2] == Stage::InitEarly && stages[j
            - 1] == Stage::CallMain,
        stages[j] == Stage::InitLaterSecondary ==> j >= 1 && stages[j - 1]
            == Stage::InitEarlySecondary,
{
    lemma_prefix(CoreState::Reset, stages, j + 1);
    let upto = stages.take(j + 1);
    assert(upto.drop_last() =~= stages.take(j));
    assert(upto.last() == stages[j]);
    let before = stages.take(j);
    if stages[j] == Stage::InitLater {
        assert(run(CoreState::Reset, before) == Some(CoreState::GenericInit));
        assert(before.len() > 0);
        assert(before.last() == stages[j - 1]);
        assert(before.drop_last() =~= stages.take(j - 1));
        let first = stages.take(j - 1);
        assert(run(CoreState::Reset, first) == Some(CoreState::EarlyInit));
        assert(first.len() > 0);
        assert(first.last() == stages[j - 2]);
    }
    if stages[j] == Stage::InitLaterSecondary {
        assert(run(CoreState::Reset, before) == Some(CoreState::EarlyInitSecondary));
        assert(before.len() > 0);
        assert(before.last() == stages[j - 1]);
    }
}

/// In every admitted history of a core, the early stage of either path is
/// taken at most once.
pub proof fn law_early_at_most_once(start: CoreState, stages: Seq<Stage>, i: int, j: int)
    requires
        run(start, stages) is Some,
        0 <= i < j < stages.len(),
        stages[i] == Stage::InitEarly || stages[i] == Stage::InitEarlySecondary,
    ensures
        stages[j] != Stage::InitEarly && stages[j] != Stage::InitEarlySecondary,
{
    lemma_prefix(start, stages, j + 1);
    let upto = stages.take(j + 1);
    assert(upto.drop_last() =~= stages.take(j));
    assert(upto.last() == stages[j]);
    let before = stages.take(j);
    lemma_prefix(start, before, i + 1);
    let early = before.take(i + 1);
    assert(early =~= stages.take(i + 1));
    assert(early.last() == stages[i]);
    assert(run(start, early) is Some);
    assert(rank(run(start, early)->Some_0) == 2);
}

/// Whether core `c` is among the cores that the start plan of a machine of `n`
/// cores starts.
pub open spec fn is_started(n: int, primary: usize, c: int) -> bool {
    exists|k: int| 0 <= k < n - 1 && #[trigger] secondary(primary, k) == c
}

/// The start plan of a machine of `n` cores is each core but the primary,
/// once: it holds `n - 1` starts (none on a machine of one core), each for a
/// core of the machine other than the primary, no core twice, and every core
/// but the primary is among them.
pub proof fn law_start_plan(n: int, primary: usize, stacks: Seq<usize>)
    requires
        primary < n <= usize::MAX,
    ensures
        start_plan(n, primary, stacks).len() == n - 1,
        forall|k: int|
            0 <= k < n - 1 ==> #[trigger] start_plan(n, primary, stacks)[k] == DeviceOp::StartCpu(
                secondary(primary, k) as usize,
                stacks[secondary(primary, k)],
            ) && secondary(primary, k) != primary && 0 <= secondary(primary, k) < n,
        forall|k: int, l: int|
            0 <= k < n - 1 && 0 <= l < n - 1 && k != l ==> #[trigger] start_plan(
                n,
                primary,
                stacks,
            )[k] != #[trigger] start_plan(n, primary, stacks)[l],
        forall|c: int| 0 <= c < n && c != primary ==> #[trigger] is_started(n, primary, c),
        !is_started(n, primary, primary as int),
{
    assert forall|c: int| 0 <= c < n && c != primary implies #[trigger] is_started(
        n,
        primary,
        c,
    ) by {
        let k = if c < primary {
            c
        } else {
            c - 1
        };
        assert(secondary(primary, k) == c);
    }
}

/// A halted core stays halted: every stage asked of it is refused and leaves
/// every core as it was.
pub proof fn law_halted_stays_halted(
    cores: Seq<CoreState>,
    primary: usize,
    cpu_id: usize,
    stage: Stage,
)
    requires
        cpu_id < cores.len(),
        cores[cpu_id as int] == CoreState::Halted,
    ensures
        refusal(cores, primary, cpu_id, stage) == Some(BootFailure::OutOfOrder),
        cores_after(cores, primary, cpu_id, stage) == cores,
{
    assert(cores_after(cores, primary, cpu_id, stage) =~= cores);
}

} // verus!
