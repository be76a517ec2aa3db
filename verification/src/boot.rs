//! The boot sequencer: the states a core passes through from power-on to
//! running, the stages that move it, and the device work of each stage.

use crate::cpu::{Op, Reg};
use vstd::prelude::*;

verus! {

/// Where a core stands in its boot.
#[derive(Clone, Copy, Debug, PartialEq, Eq, Structural)]
pub enum CoreState {
    PoweredOff,
    Reset,
    EarlyInit,
    GenericInit,
    LateInit,
    EarlyInitSecondary,
    Running,
    Halted,
}

/// A step of the boot protocol.
#[derive(Clone, Copy, Debug, PartialEq, Eq, Structural)]
pub enum Stage {
    InitEarly,
    CallMain,
    InitLater,
    Run,
    InitEarlySecondary,
    InitLaterSecondary,
    CallSecondaryMain,
}

/// Why a boot step failed. Every such failure is fatal for the core.
#[derive(Clone, Copy, Debug, PartialEq, Eq, Structural)]
pub enum BootFailure {
    /// The machine has no core of that number.
    NoSuchCore,
    /// The step is not the one that the core's state admits.
    OutOfOrder,
    /// A device address has no place in the kernel's address space.
    BadAddress,
    /// A device that the stage needs is absent or did not come up.
    DeviceFailed,
}

/// How the firmware's power interface is invoked.
#[derive(Clone, Copy, Debug, PartialEq, Eq)]
pub enum PsciMethod {
    Smc,
    Hvc,
}

/// How the platform is switched off.
#[derive(Clone, Copy, Debug, PartialEq, Eq)]
pub enum Shutdown {
    /// A write to the emulator's power port.
    PowerPort,
    /// Wait for a key, then reset through the keyboard controller.
    RebootPort,
    /// A write to the event device at this physical address.
    EventDevice(usize),
}

/// The constants of one platform and of one build.
#[derive(Clone, Copy, Debug, PartialEq, Eq)]
pub struct PlatformConfig {
    pub phys_virt_offset: usize,
    pub uart_paddr: usize,
    pub rtc_paddr: usize,
    pub gicd_paddr: usize,
    pub gicc_paddr: usize,
    pub timer_irq: usize,
    pub psci_method: PsciMethod,
    pub shutdown: Shutdown,
    pub irq: bool,
    pub smp: bool,
    pub rtc: bool,
}

/// One piece of device or hand-off work that a stage asks for.
#[derive(Clone, Copy, Debug, PartialEq, Eq)]
pub enum DeviceOp {
    /// An operation on the core itself, issued at this place of the plan.
    Core(Op),
    ClearBss,
    InitTrap,
    InitCpuPrimary(usize),
    InitCpuSecondary(usize),
    InitPsci(PsciMethod),
    InitUartEarly,
    InitUartAt(usize),
    InitTimerEarly,
    InitRtcAt(usize),
    InitGicd(usize, usize),
    InitGicc,
    EnableTimerIrq(usize),
    InitUartIrq,
    CallMain(usize, usize),
    CallSecondaryMain(usize),
    StartCpu(usize, usize),
    AwaitKey,
    PortWrite8(u16, u8),
    PortWrite16(u16, u16),
    MmioWrite8(usize, u8),
    HaltForever,
}

/// The state that admits a stage.
pub open spec fn stage_from(stage: Stage) -> CoreState {
    match stage {
        Stage::InitEarly => CoreState::Reset,
        Stage::CallMain => CoreState::EarlyInit,
        Stage::InitLater => CoreState::GenericInit,
        Stage::Run => CoreState::LateInit,
        Stage::InitEarlySecondary => CoreState::Reset,
        Stage::InitLaterSecondary => CoreState::EarlyInitSecondary,
        Stage::CallSecondaryMain => CoreState::Running,
    }
}

/// The state that a stage leaves the core in.
pub open spec fn stage_to(stage: Stage) -> CoreState {
    match stage {
        Stage::InitEarly => CoreState::EarlyInit,
        Stage::CallMain => CoreState::GenericInit,
        Stage::InitLater => CoreState::LateInit,
        Stage::Run => CoreState::Running,
        Stage::InitEarlySecondary => CoreState::EarlyInitSecondary,
        Stage::InitLaterSecondary => CoreState::Running,
        Stage::CallSecondaryMain => CoreState::Running,
    }
}

/// Whether a stage belongs to the primary core's path.
pub open spec fn stage_on_primary(stage: Stage) -> bool {
    match stage {
        Stage::InitEarly => true,
        Stage::CallMain => true,
        Stage::InitLater => true,
        Stage::Run => true,
        Stage::InitEarlySecondary => false,
        Stage::InitLaterSecondary => false,
        Stage::CallSecondaryMain => false,
    }
}

/// How far a state is along the boot.
pub open spec fn rank(state: CoreState) -> nat {
    match state {
        CoreState::PoweredOff => 0,
        CoreState::Reset => 1,
        CoreState::EarlyInit => 2,
        CoreState::EarlyInitSecondary => 2,
        CoreState::GenericInit => 3,
        CoreState::LateInit => 4,
        CoreState::Running => 5,
        CoreState::Halted => 6,
    }
}

/// Why a stage is refused on core `cpu_id`, if it is.
pub open spec fn refusal(cores: Seq<CoreState>, primary: usize, cpu_id: usize, stage: Stage) -> Option<
    BootFailure,
> {
    if cpu_id >= cores.len() {
        Some(BootFailure::NoSuchCore)
    } else if cores[cpu_id as int] != stage_from(stage) || (cpu_id == primary) != stage_on_primary(
        stage,
    ) {
        Some(BootFailure::OutOfOrder)
    } else {
        None
    }
}

/// The cores after a stage was asked of core `cpu_id`: the core moves on
/// where the stage is admitted and halts where it is not.
pub open spec fn cores_after(cores: Seq<CoreState>, primary: usize, cpu_id: usize, stage: Stage) -> Seq<
    CoreState,
> {
    match refusal(cores, primary, cpu_id, stage) {
        None => cores.update(cpu_id as int, stage_to(stage)),
        Some(BootFailure::NoSuchCore) => cores,
        Some(_) => cores.update(cpu_id as int, CoreState::Halted),
    }
}

/// The kernel address of a physical address, where it has one.
pub open spec fn virt_of(cfg: PlatformConfig, paddr: usize) -> Option<usize> {
    if paddr + cfg.phys_virt_offset <= usize::MAX {
        Some((paddr + cfg.phys_virt_offset) as usize)
    } else {
        None
    }
}

/// The kernel address of a physical address, where it has one.
pub fn phys_to_virt(cfg: &PlatformConfig, paddr: usize) -> (v: Option<usize>)
    ensures
        v == virt_of(*cfg, paddr),
{
    paddr.checked_add(cfg.phys_virt_offset)
}

/// The physical address behind a kernel address, where it has one.
pub open spec fn phys_of(cfg: PlatformConfig, vaddr: usize) -> Option<usize> {
    if vaddr >= cfg.phys_virt_offset {
        Some((vaddr - cfg.phys_virt_offset) as usize)
    } else {
        None
    }
}

/// The physical address behind a kernel address, where it has one.
pub fn virt_to_phys(cfg: &PlatformConfig, vaddr: usize) -> (p: Option<usize>)
    ensures
        p == phys_of(*cfg, vaddr),
{
    vaddr.checked_sub(cfg.phys_virt_offset)
}

/// The two address translations undo each other.
pub proof fn law_address_round_trip(cfg: PlatformConfig, paddr: usize, vaddr: usize)
    ensures
        virt_of(cfg, paddr) == Some(vaddr) <==> phys_of(cfg, vaddr) == Some(paddr),
{
}

/// The device work of the primary core's early stage.
pub open spec fn early_plan(cfg: PlatformConfig) -> Seq<DeviceOp> {
    seq![
        DeviceOp::InitTrap,
        DeviceOp::InitPsci(cfg.psci_method),
        DeviceOp::InitUartEarly,
        DeviceOp::InitTimerEarly,
    ]
}

/// The device work of the primary core's late stage, given the kernel
/// addresses of the interrupt controller's two parts.
pub open spec fn later_plan(cfg: PlatformConfig, gicd: usize, gicc: usize) -> Seq<DeviceOp> {
    if cfg.irq {
        seq![
            DeviceOp::InitGicd(gicd, gicc),
            DeviceOp::InitGicc,
            DeviceOp::EnableTimerIrq(cfg.timer_irq),
            DeviceOp::InitUartIrq,
        ]
    } else {
        Seq::empty()
    }
}

/// The device work of a secondary core's late stage.
pub open spec fn later_secondary_plan(cfg: PlatformConfig) -> Seq<DeviceOp> {
    if cfg.smp && cfg.irq {
        seq![DeviceOp::InitGicc, DeviceOp::EnableTimerIrq(cfg.timer_irq)]
    } else {
        Seq::empty()
    }
}

/// The work of the primary entry, in order, given the kernel addresses of the
/// console and of the clock: bss is cleared first, the trap vectors are
/// installed next, the hand-off comes last.
pub open spec fn entry_plan(
    cfg: PlatformConfig,
    cpu_id: usize,
    dtb: usize,
    vector_base: usize,
    uart: usize,
    rtc: usize,
) -> Seq<DeviceOp> {
    let head = seq![
        DeviceOp::ClearBss,
        DeviceOp::Core(Op::Write(Reg::VbarEl1, vector_base as u64)),
        DeviceOp::InitCpuPrimary(cpu_id),
        DeviceOp::InitPsci(cfg.psci_method),
        DeviceOp::InitUartAt(uart),
        DeviceOp::InitTimerEarly,
    ];
    let mid = if cfg.rtc {
        head.push(DeviceOp::InitRtcAt(rtc))
    } else {
        head
    };
    mid.push(DeviceOp::CallMain(cpu_id, dtb))
}

/// The operations that switch the platform off; the last suspends for good.
pub open spec fn off_plan(cfg: PlatformConfig, ged: usize) -> Seq<DeviceOp> {
    match cfg.shutdown {
        Shutdown::PowerPort => seq![DeviceOp::PortWrite16(0x604, 0x2000), DeviceOp::HaltForever],
        Shutdown::RebootPort => seq![
            DeviceOp::AwaitKey,
            DeviceOp::PortWrite8(0x64, 0xfe),
            DeviceOp::HaltForever,
        ],
        Shutdown::EventDevice(_) => seq![DeviceOp::MmioWrite8(ged, 0x34), DeviceOp::HaltForever],
    }
}

/// The number of the `k`-th secondary core, counted past the primary.
pub open spec fn secondary(primary: usize, k: int) -> int {
    if k < primary {
        k
    } else {
        k + 1
    }
}

/// The start operations for every core but the primary, in rising order.
pub open spec fn start_plan(n: int, primary: usize, stacks: Seq<usize>) -> Seq<DeviceOp> {
    Seq::new(
        (n - 1) as nat,
        |k: int| DeviceOp::StartCpu(secondary(primary, k) as usize, stacks[secondary(primary, k)]),
    )
}

/// The cores of one machine and the core that boots first.
#[derive(Debug)]
pub struct Machine {
    pub cores: Vec<CoreState>,
    pub primary: usize,
}

impl Machine {
    pub open spec fn wf(&self) -> bool {
        self.primary < self.cores@.len()
    }

    /// Whether the primary core is past the kernel's generic bring-up, so
    /// that secondary cores may be released.
    pub open spec fn primary_up(&self) -> bool {
        let s = self.cores@[self.primary as int];
        s == CoreState::GenericInit || s == CoreState::LateInit || s == CoreState::Running
    }

    /// A machine of `n` cores at power-on: the primary core in the hands of
    /// its entry stub, every other core off. `None` where `primary` is no
    /// core of it.
    pub fn new(n: usize, primary: usize) -> (r: Option<Machine>)
        ensures
            r is Some <==> primary < n,
            match r {
                Some(m) => m.wf() && m.primary == primary && m.cores@.len() == n
                    && forall|i: int| 0 <= i < n ==> #[trigger] m.cores@[i] == if i == primary {
                        CoreState::Reset
                    } else {
                        CoreState::PoweredOff
                    },
                None => true,
            },
    {
        if primary >= n {
            return None;
        }
        let mut cores: Vec<CoreState> = Vec::new();
        let mut i: usize = 0;
        while i < n
            invariant
                i <= n,
                cores@.len() == i,
                forall|k: int| 0 <= k < i ==> #[trigger] cores@[k] == if k == primary {
                    CoreState::Reset
                } else {
                    CoreState::PoweredOff
                },
            decreases n - i,
        {
            if i == primary {
                cores.push(CoreState::Reset);
            } else {
                cores.push(CoreState::PoweredOff);
            }
            i += 1;
        }
        Some(Machine { cores, primary })
    }

    /// The state of core `cpu_id`, if the machine has it.
    pub fn state(&self, cpu_id: usize) -> (s: Option<CoreState>)
        ensures
            s == if cpu_id < self.cores@.len() {
                Some(self.cores@[cpu_id as int])
            } else {
                None
            },
    {
        if cpu_id < self.cores.len() {
            Some(self.cores[cpu_id])
        } else {
            None
        }
    }

    /// Records that a device which core `cpu_id` needs is absent or did not
    /// come up: the core halts, whatever its state, and no other core is
    /// touched.
    pub fn device_failed(&mut self, cpu_id: usize) -> (e: BootFailure)
        requires
            old(self).wf(),
        ensures
            final(self).wf(),
            final(self).primary == old(self).primary,
            e == if cpu_id < old(self).cores@.len() {
                BootFailure::DeviceFailed
            } else {
                BootFailure::NoSuchCore
            },
            final(self).cores@ == if cpu_id < old(self).cores@.len() {
                old(self).cores@.update(cpu_id as int, CoreState::Halted)
            } else {
                old(self).cores@
            },
    {
        if cpu_id < self.cores.len() {
            self.cores.set(cpu_id, CoreState::Halted);
            BootFailure::DeviceFailed
        } else {
            BootFailure::NoSuchCore
        }
    }

    /// Asks a stage of core `cpu_id`. The core moves on where its state
    /// admits the stage; where not, the failure is fatal and the core halts.
    pub fn advance(&mut self, cpu_id: usize, stage: Stage) -> (r: Result<(), BootFailure>)
        requires
            old(self).wf(),
        ensures
            final(self).wf(),
            final(self).primary == old(self).primary,
            final(self).cores@ == cores_after(old(self).cores@, old(self).primary, cpu_id, stage),
            r == match refusal(old(self).cores@, old(self).primary, cpu_id, stage) {
                None => Ok::<(), BootFailure>(()),
                Some(e) => Err::<(), BootFailure>(e),
            },
    {
        if cpu_id >= self.cores.len() {
            return Err(BootFailure::NoSuchCore);
        }
        let from = match stage {
            Stage::InitEarly => CoreState::Reset,
            Stage::CallMain => CoreState::EarlyInit,
            Stage::InitLater => CoreState::GenericInit,
            Stage::Run => CoreState::LateInit,
            Stage::InitEarlySecondary => CoreState::Reset,
            Stage::InitLaterSecondary => CoreState::EarlyInitSecondary,
            Stage::CallSecondaryMain => CoreState::Running,
        };
        let to = match stage {
            Stage::InitEarly => CoreState::EarlyInit,
            Stage::CallMain => CoreState::GenericInit,
            Stage::InitLater => CoreState::LateInit,
            Stage::Run => CoreState::Running,
            Stage::InitEarlySecondary => CoreState::EarlyInitSecondary,
            Stage::InitLaterSecondary => CoreState::Running,
            Stage::CallSecondaryMain => CoreState::Running,
        };
        let on_primary = match stage {
            Stage::InitEarly | Stage::CallMain | Stage::InitLater | Stage::Run => true,
            _ => false,
        };
        if self.cores[cpu_id] != from || (cpu_id == self.primary) != on_primary {
            self.cores.set(cpu_id, CoreState::Halted);
            return Err(BootFailure::OutOfOrder);
        }
        self.cores.set(cpu_id, to);
        Ok(())
    }
}

} // verus!
