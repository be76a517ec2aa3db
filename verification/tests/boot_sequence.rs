use axhal_core::boot::{
    phys_to_virt, virt_to_phys, BootFailure, CoreState, DeviceOp, Machine, PlatformConfig, PsciMethod, Shutdown,
    Stage,
};
use axhal_core::cpu::{Cpu, Op, Reg};
use axhal_core::dtables::{
    init_percpu, init_primary, init_secondary, PerCpuState, SharedTables, TableError,
};
use axhal_core::registry::{
    bind, check_identity, resolve, Bindings, BuildConfigurationError, Contract, Implementation,
};
use axhal_core::sequencer::{
    call_main, call_secondary_main, cpu_boot, init_early, init_early_secondary, init_later,
    init_later_secondary, rust_entry, rust_entry_secondary, start_secondary_cpus, system_off,
};
use axhal_core::context::TrapFrame;
use axhal_core::trap::{classify, dispatch, TrapAction, TrapCause, TrapKind, TrapSource};

fn config() -> PlatformConfig {
    PlatformConfig {
        phys_virt_offset: 0xffff_0000_0000_0000,
        uart_paddr: 0x0900_0000,
        rtc_paddr: 0x0901_0000,
        gicd_paddr: 0x0800_0000,
        gicc_paddr: 0x0801_0000,
        timer_irq: 30,
        psci_method: PsciMethod::Hvc,
        shutdown: Shutdown::PowerPort,
        irq: true,
        smp: true,
        rtc: false,
    }
}

#[test]
fn machine_at_power_on() {
    let m = Machine::new(4, 0).unwrap();
    assert_eq!(m.state(0), Some(CoreState::Reset));
    assert_eq!(m.state(1), Some(CoreState::PoweredOff));
    assert_eq!(m.state(3), Some(CoreState::PoweredOff));
    assert_eq!(m.state(4), None);
    assert!(Machine::new(2, 2).is_none());
    assert!(Machine::new(0, 0).is_none());
}

#[test]
fn primary_path_in_order() {
    let cfg = config();
    let mut m = Machine::new(2, 0).unwrap();
    let early = init_early(&mut m, 0, 0x4400_0000, &cfg).unwrap();
    assert_eq!(
        early,
        vec![
            DeviceOp::InitTrap,
            DeviceOp::InitPsci(PsciMethod::Hvc),
            DeviceOp::InitUartEarly,
            DeviceOp::InitTimerEarly
        ]
    );
    assert_eq!(m.state(0), Some(CoreState::EarlyInit));
    assert_eq!(call_main(&mut m, 0, 0x4400_0000), Ok(DeviceOp::CallMain(0, 0x4400_0000)));
    assert_eq!(m.state(0), Some(CoreState::GenericInit));
    let later = init_later(&mut m, 0, 0x4400_0000, &cfg).unwrap();
    assert_eq!(
        later,
        vec![
            DeviceOp::InitGicd(0xffff_0000_0800_0000, 0xffff_0000_0801_0000),
            DeviceOp::InitGicc,
            DeviceOp::EnableTimerIrq(30),
            DeviceOp::InitUartIrq
        ]
    );
    assert_eq!(m.state(0), Some(CoreState::LateInit));
    assert_eq!(m.advance(0, Stage::Run), Ok(()));
    assert_eq!(m.state(0), Some(CoreState::Running));
    assert_eq!(m.state(1), Some(CoreState::PoweredOff));
}

#[test]
fn init_later_before_init_early_is_fatal() {
    let cfg = config();
    let mut m = Machine::new(1, 0).unwrap();
    assert_eq!(init_later(&mut m, 0, 0, &cfg), Err(BootFailure::OutOfOrder));
    assert_eq!(m.state(0), Some(CoreState::Halted));
    // no retry: the core stays halted
    assert_eq!(init_early(&mut m, 0, 0, &cfg), Err(BootFailure::OutOfOrder));
    assert_eq!(m.state(0), Some(CoreState::Halted));
}

#[test]
fn init_early_runs_once() {
    let cfg = config();
    let mut m = Machine::new(1, 0).unwrap();
    assert!(init_early(&mut m, 0, 0, &cfg).is_ok());
    assert_eq!(init_early(&mut m, 0, 0, &cfg), Err(BootFailure::OutOfOrder));
    assert_eq!(m.state(0), Some(CoreState::Halted));
}

#[test]
fn failed_device_halts_the_core_for_good() {
    let cfg = config();
    let mut m = Machine::new(3, 0).unwrap();
    init_early(&mut m, 0, 0, &cfg).unwrap();
    assert_eq!(m.device_failed(0), BootFailure::DeviceFailed);
    assert_eq!(m.state(0), Some(CoreState::Halted));
    assert_eq!(m.state(1), Some(CoreState::PoweredOff));
    assert_eq!(m.state(2), Some(CoreState::PoweredOff));
    // no retry, and no way on into the kernel's bring-up or the late stage
    assert_eq!(init_early(&mut m, 0, 0, &cfg), Err(BootFailure::OutOfOrder));
    assert_eq!(call_main(&mut m, 0, 0), Err(BootFailure::OutOfOrder));
    assert_eq!(init_later(&mut m, 0, 0, &cfg), Err(BootFailure::OutOfOrder));
    assert_eq!(m.state(0), Some(CoreState::Halted));
    assert_eq!(m.device_failed(3), BootFailure::NoSuchCore);
    assert_eq!(m.state(1), Some(CoreState::PoweredOff));
    assert_eq!(m.device_failed(2), BootFailure::DeviceFailed);
    assert_eq!(m.state(2), Some(CoreState::Halted));
}

#[test]
fn stage_on_missing_core() {
    let cfg = config();
    let mut m = Machine::new(2, 0).unwrap();
    assert_eq!(init_early(&mut m, 2, 0, &cfg), Err(BootFailure::NoSuchCore));
    assert_eq!(init_early_secondary(&mut m, 9), Err(BootFailure::NoSuchCore));
    assert_eq!(m.state(0), Some(CoreState::Reset));
    assert_eq!(m.state(1), Some(CoreState::PoweredOff));
}

#[test]
fn init_later_without_interrupts_asks_for_nothing() {
    let mut cfg = config();
    cfg.irq = false;
    cfg.gicd_paddr = usize::MAX;
    let mut m = Machine::new(1, 0).unwrap();
    init_early(&mut m, 0, 0, &cfg).unwrap();
    call_main(&mut m, 0, 0).unwrap();
    assert_eq!(init_later(&mut m, 0, 0, &cfg), Ok(vec![]));
    assert_eq!(m.state(0), Some(CoreState::LateInit));
}

#[test]
fn init_later_with_bad_controller_address_halts() {
    let mut cfg = config();
    cfg.gicc_paddr = 0x0001_0000_0000_0000;
    let mut m = Machine::new(1, 0).unwrap();
    init_early(&mut m, 0, 0, &cfg).unwrap();
    call_main(&mut m, 0, 0).unwrap();
    assert_eq!(init_later(&mut m, 0, 0, &cfg), Err(BootFailure::BadAddress));
    assert_eq!(m.state(0), Some(CoreState::Halted));
}

#[test]
fn phys_to_virt_adds_the_offset() {
    let cfg = config();
    assert_eq!(phys_to_virt(&cfg, 0x0900_0000), Some(0xffff_0000_0900_0000));
    assert_eq!(phys_to_virt(&cfg, 0xffff_ffff_ffff), Some(usize::MAX));
    assert_eq!(phys_to_virt(&cfg, 0x1_0000_0000_0000), None);
    assert_eq!(virt_to_phys(&cfg, 0xffff_0000_0900_0000), Some(0x0900_0000));
    assert_eq!(virt_to_phys(&cfg, 0xffff_0000_0000_0000), Some(0));
    assert_eq!(virt_to_phys(&cfg, 0xfffe_ffff_ffff_ffff), None);
}

#[test]
fn a_build_is_resolved_contract_by_contract() {
    let of = |contract: Contract, provider: u32| Implementation { contract, provider };
    let mut build = vec![
        of(Contract::Time, 5),
        of(Contract::Init, 1),
        of(Contract::Console, 2),
        of(Contract::Mem, 3),
        of(Contract::Power, 4),
    ];
    assert_eq!(
        resolve(&build, false),
        Ok(Bindings { init: 1, console: 2, mem: 3, power: 4, time: 5, irq: None })
    );
    assert_eq!(resolve(&build, true), Err(BuildConfigurationError::Missing));
    build.push(of(Contract::Irq, 6));
    assert_eq!(
        resolve(&build, true),
        Ok(Bindings { init: 1, console: 2, mem: 3, power: 4, time: 5, irq: Some(6) })
    );
    build.push(of(Contract::Power, 40));
    assert_eq!(resolve(&build, true), Err(BuildConfigurationError::Duplicate));
    build.remove(2);
    // the console comes before power in the order of refusal
    assert_eq!(resolve(&build, true), Err(BuildConfigurationError::Missing));
    assert_eq!(resolve(&vec![], false), Err(BuildConfigurationError::Missing));
}

#[test]
fn secondary_waits_for_cpu_boot() {
    let cfg = config();
    let mut m = Machine::new(2, 0).unwrap();
    // not started yet: its early stage is refused and the core halts
    assert_eq!(init_early_secondary(&mut m, 1), Err(BootFailure::OutOfOrder));
    assert_eq!(m.state(1), Some(CoreState::Halted));

    let mut m = Machine::new(2, 0).unwrap();
    // the primary has not reached the kernel's bring-up
    assert_eq!(cpu_boot(&mut m, 1, 0x8000, &cfg), Err(BootFailure::OutOfOrder));
    assert_eq!(m.state(1), Some(CoreState::PoweredOff));
    init_early(&mut m, 0, 0, &cfg).unwrap();
    call_main(&mut m, 0, 0).unwrap();
    assert_eq!(cpu_boot(&mut m, 0, 0x8000, &cfg), Err(BootFailure::OutOfOrder));
    assert_eq!(cpu_boot(&mut m, 2, 0x8000, &cfg), Err(BootFailure::NoSuchCore));
    assert_eq!(cpu_boot(&mut m, 1, 0x8000, &cfg), Ok(Some(DeviceOp::StartCpu(1, 0x8000))));
    assert_eq!(m.state(1), Some(CoreState::Reset));
    assert_eq!(cpu_boot(&mut m, 1, 0x8000, &cfg), Err(BootFailure::OutOfOrder));

    assert_eq!(init_early_secondary(&mut m, 1), Ok(vec![DeviceOp::InitTrap]));
    assert_eq!(m.state(1), Some(CoreState::EarlyInitSecondary));
    assert_eq!(
        init_later_secondary(&mut m, 1, &cfg),
        Ok(vec![DeviceOp::InitGicc, DeviceOp::EnableTimerIrq(30)])
    );
    assert_eq!(m.state(1), Some(CoreState::Running));
    assert_eq!(call_secondary_main(&mut m, 1), Ok(DeviceOp::CallSecondaryMain(1)));
    assert_eq!(m.state(1), Some(CoreState::Running));
    assert_eq!(init_early_secondary(&mut m, 1), Err(BootFailure::OutOfOrder));
}

#[test]
fn cpu_boot_without_smp_starts_nothing() {
    let mut cfg = config();
    cfg.smp = false;
    let mut m = Machine::new(2, 0).unwrap();
    assert_eq!(cpu_boot(&mut m, 1, 0x8000, &cfg), Ok(None));
    assert_eq!(m.state(1), Some(CoreState::PoweredOff));
}

#[test]
fn primary_starts_every_other_core_once() {
    let cfg = config();
    let mut m = Machine::new(4, 1).unwrap();
    init_early(&mut m, 1, 0, &cfg).unwrap();
    call_main(&mut m, 1, 0).unwrap();
    let stacks = vec![0x1000, 0x2000, 0x3000, 0x4000];
    let plan = start_secondary_cpus(&mut m, &stacks, &cfg);
    assert_eq!(
        plan,
        vec![
            DeviceOp::StartCpu(0, 0x1000),
            DeviceOp::StartCpu(2, 0x3000),
            DeviceOp::StartCpu(3, 0x4000)
        ]
    );
    assert_eq!(m.state(0), Some(CoreState::Reset));
    assert_eq!(m.state(1), Some(CoreState::GenericInit));
    assert_eq!(m.state(2), Some(CoreState::Reset));
    assert_eq!(m.state(3), Some(CoreState::Reset));

    let mut single = Machine::new(1, 0).unwrap();
    init_early(&mut single, 0, 0, &cfg).unwrap();
    call_main(&mut single, 0, 0).unwrap();
    assert_eq!(start_secondary_cpus(&mut single, &vec![0x1000], &cfg), vec![]);
}

#[test]
fn primary_entry() {
    let mut cfg = config();
    cfg.rtc = true;
    let mut m = Machine::new(2, 0).unwrap();
    let mut cpu = Cpu::new(1);
    let plan = rust_entry(&mut m, &mut cpu, 0, 0x4400_0000, &cfg, 0x4008_0800).unwrap();
    assert_eq!(
        plan,
        vec![
            DeviceOp::ClearBss,
            DeviceOp::Core(Op::Write(Reg::VbarEl1, 0x4008_0800)),
            DeviceOp::InitCpuPrimary(0),
            DeviceOp::InitPsci(PsciMethod::Hvc),
            DeviceOp::InitUartAt(0xffff_0000_0900_0000),
            DeviceOp::InitTimerEarly,
            DeviceOp::InitRtcAt(0xffff_0000_0901_0000),
            DeviceOp::CallMain(0, 0x4400_0000),
        ]
    );
    assert_eq!(cpu.trace, vec![Op::Write(Reg::VbarEl1, 0x4008_0800)]);
    assert_eq!(m.state(0), Some(CoreState::GenericInit));

    cfg.rtc = false;
    let mut m = Machine::new(2, 0).unwrap();
    let mut cpu = Cpu::new(1);
    let plan = rust_entry(&mut m, &mut cpu, 0, 7, &cfg, 0x800).unwrap();
    assert_eq!(plan.len(), 7);
    assert_eq!(plan[0], DeviceOp::ClearBss);
    assert_eq!(plan[1], DeviceOp::Core(Op::Write(Reg::VbarEl1, 0x800)));
    assert_eq!(plan[6], DeviceOp::CallMain(0, 7));

    cfg.uart_paddr = usize::MAX;
    let mut m = Machine::new(2, 0).unwrap();
    let mut cpu = Cpu::new(1);
    assert_eq!(rust_entry(&mut m, &mut cpu, 0, 7, &cfg, 0x800), Err(BootFailure::BadAddress));
    assert_eq!(m.state(0), Some(CoreState::Halted));
    assert!(cpu.trace.is_empty());
    assert_eq!(rust_entry(&mut m, &mut cpu, 1, 7, &cfg, 0x800), Err(BootFailure::OutOfOrder));
}

#[test]
fn secondary_entry() {
    let cfg = config();
    let mut m = Machine::new(2, 0).unwrap();
    let mut cpu0 = Cpu::new(1);
    let mut cpu1 = Cpu::new(1);
    assert_eq!(
        rust_entry_secondary(&mut m, &mut cpu1, 0, &cfg, 0x800),
        Err(BootFailure::OutOfOrder)
    );
    let mut m = Machine::new(2, 0).unwrap();
    rust_entry(&mut m, &mut cpu0, 0, 0, &cfg, 0x800).unwrap();
    cpu_boot(&mut m, 1, 0x9000, &cfg).unwrap();
    let plan = rust_entry_secondary(&mut m, &mut cpu1, 1, &cfg, 0x800).unwrap();
    assert_eq!(
        plan,
        vec![
            DeviceOp::Core(Op::Write(Reg::VbarEl1, 0x800)),
            DeviceOp::InitCpuSecondary(1),
            DeviceOp::InitTrap,
            DeviceOp::InitGicc,
            DeviceOp::EnableTimerIrq(30),
            DeviceOp::CallSecondaryMain(1),
        ]
    );
    assert_eq!(cpu1.trace, vec![Op::Write(Reg::VbarEl1, 0x800)]);
    assert_eq!(m.state(1), Some(CoreState::Running));
    assert!(rust_entry_secondary(&mut m, &mut cpu1, 1, &cfg, 0x800).is_err());
}

#[test]
fn system_off_by_each_method() {
    let mut cfg = config();
    let mut m = Machine::new(2, 0).unwrap();
    assert_eq!(
        system_off(&mut m, &cfg),
        Ok(vec![DeviceOp::PortWrite16(0x604, 0x2000), DeviceOp::HaltForever])
    );
    assert_eq!(m.state(0), Some(CoreState::Halted));
    assert_eq!(m.state(1), Some(CoreState::Halted));
    cfg.shutdown = Shutdown::RebootPort;
    assert_eq!(
        system_off(&mut m, &cfg),
        Ok(vec![DeviceOp::AwaitKey, DeviceOp::PortWrite8(0x64, 0xfe), DeviceOp::HaltForever])
    );
    cfg.shutdown = Shutdown::EventDevice(0x100e_001c);
    assert_eq!(
        system_off(&mut m, &cfg),
        Ok(vec![DeviceOp::MmioWrite8(0xffff_0000_100e_001c, 0x34), DeviceOp::HaltForever])
    );
    cfg.shutdown = Shutdown::EventDevice(usize::MAX);
    let mut m = Machine::new(1, 0).unwrap();
    assert_eq!(system_off(&mut m, &cfg), Err(BootFailure::BadAddress));
    assert_eq!(m.state(0), Some(CoreState::Halted));
}

#[test]
fn descriptor_tables_are_set_up_once() {
    let mut shared = SharedTables::new();
    let mut cpu0 = PerCpuState::new(0);
    let mut cpu1 = PerCpuState::new(1);
    assert!(!shared.is_ready());
    assert!(!cpu0.is_ready());
    assert_eq!(cpu0.gdt_owner(), None);
    // no shared table yet
    assert_eq!(init_secondary(&shared, &mut cpu1), Err(TableError::NoInterruptTable));
    assert_eq!(init_percpu(&shared, &mut cpu1), Err(TableError::NoInterruptTable));
    assert!(!cpu1.is_ready());

    assert_eq!(init_primary(&mut shared, &mut cpu0), Ok(()));
    assert!(shared.is_ready());
    assert!(cpu0.is_ready());
    assert_eq!(cpu0.gdt_owner(), Some(0));
    assert_eq!(shared.idt.get().copied(), Some(256));

    assert_eq!(init_secondary(&shared, &mut cpu1), Ok(()));
    assert_eq!(cpu1.gdt_owner(), Some(1));
    assert_eq!(cpu1.tss.get().copied(), Some(1));
    // a core never touches another core's state
    assert_eq!(cpu0.gdt_owner(), Some(0));

    assert_eq!(init_secondary(&shared, &mut cpu1), Err(TableError::AlreadySetUp));
    assert_eq!(init_percpu(&shared, &mut cpu0), Err(TableError::AlreadySetUp));
    assert_eq!(init_primary(&mut shared, &mut PerCpuState::new(2)), Err(TableError::AlreadySetUp));
    assert_eq!(cpu1.gdt_owner(), Some(1));
}

#[test]
fn binding_needs_exactly_one_implementation() {
    let console = Implementation { contract: Contract::Console, provider: 7 };
    let power = Implementation { contract: Contract::Power, provider: 9 };
    let other_console = Implementation { contract: Contract::Console, provider: 8 };
    assert_eq!(bind(&vec![], Contract::Console), Err(BuildConfigurationError::Missing));
    assert_eq!(bind(&vec![power], Contract::Console), Err(BuildConfigurationError::Missing));
    assert_eq!(bind(&vec![power, console], Contract::Console), Ok(7));
    assert_eq!(bind(&vec![power, console], Contract::Power), Ok(9));
    assert_eq!(
        bind(&vec![console, power, other_console], Contract::Console),
        Err(BuildConfigurationError::Duplicate)
    );
    assert_eq!(
        bind(&vec![console, console, console], Contract::Console),
        Err(BuildConfigurationError::Duplicate)
    );
    assert_eq!(bind(&vec![console, power, other_console], Contract::Power), Ok(9));
    assert_eq!(bind(&vec![console], Contract::Time), Err(BuildConfigurationError::Missing));
}

#[test]
fn platform_identity() {
    let name = b"axplat-aarch64-qemu-virt".to_vec();
    assert_eq!(check_identity(&name, &name.clone()), Ok(()));
    assert_eq!(
        check_identity(&name, &b"axplat-aarch64-qemu-virU".to_vec()),
        Err(BuildConfigurationError::IdentityMismatch)
    );
    assert_eq!(
        check_identity(&name, &b"axplat".to_vec()),
        Err(BuildConfigurationError::IdentityMismatch)
    );
    assert_eq!(check_identity(&vec![], &vec![]), Ok(()));
}

fn frame() -> TrapFrame {
    TrapFrame { r: [0; 31], usp: 0, elr: 0x4008_0000, spsr: 0x3c5 }
}

fn sync(ec: u64) -> TrapCause {
    TrapCause { source: TrapSource::Synchronous, esr: (ec << 26) | 0x12_3456, irq: 0 }
}

#[test]
fn traps_are_classified_by_cause() {
    let irq = TrapCause { source: TrapSource::Irq, esr: 0, irq: 33 };
    let timer = TrapCause { source: TrapSource::Irq, esr: sync(0x15).esr, irq: 30 };
    assert_eq!(classify(&irq, 30), TrapKind::Irq(33));
    assert_eq!(classify(&timer, 30), TrapKind::Timer);
    assert_eq!(classify(&sync(0x15), 30), TrapKind::Syscall);
    assert_eq!(classify(&sync(0x00), 30), TrapKind::UndefinedInstruction);
    assert_eq!(classify(&sync(0x20), 30), TrapKind::PageFault);
    assert_eq!(classify(&sync(0x21), 30), TrapKind::PageFault);
    assert_eq!(classify(&sync(0x24), 30), TrapKind::PageFault);
    assert_eq!(classify(&sync(0x25), 30), TrapKind::PageFault);
    assert_eq!(classify(&sync(0x3c), 30), TrapKind::Unhandled);
    let fiq = TrapCause { source: TrapSource::Fiq, esr: sync(0x15).esr, irq: 30 };
    let serror = TrapCause { source: TrapSource::SError, esr: 0, irq: 0 };
    assert_eq!(classify(&fiq, 30), TrapKind::Unhandled);
    assert_eq!(classify(&serror, 30), TrapKind::Unhandled);
}

#[test]
fn dispatch_forwards_known_causes() {
    let tf = frame();
    assert_eq!(dispatch(&tf, &sync(0x15), 30), TrapAction::Forward(TrapKind::Syscall, 0x4008_0000));
    assert_eq!(dispatch(&tf, &sync(0x24), 30), TrapAction::Forward(TrapKind::PageFault, 0x4008_0000));
    assert_eq!(dispatch(&tf, &sync(0x00), 30), TrapAction::Forward(TrapKind::UndefinedInstruction, 0x4008_0000));
    let irq = TrapCause { source: TrapSource::Irq, esr: 0, irq: 30 };
    assert_eq!(dispatch(&tf, &irq, 30), TrapAction::Forward(TrapKind::Timer, 0x4008_0000));
    assert_eq!(dispatch(&tf, &irq, 27), TrapAction::Forward(TrapKind::Irq(30), 0x4008_0000));
    assert_eq!(dispatch(&tf, &sync(0x2f), 30), TrapAction::Fatal);
    let mut moved = frame();
    moved.elr = 0x4008_0004;
    assert_eq!(dispatch(&moved, &sync(0x15), 30), TrapAction::Forward(TrapKind::Syscall, 0x4008_0004));
}
