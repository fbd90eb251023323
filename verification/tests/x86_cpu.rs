use helium::address::Virtual;
use helium::x86_64::cpu::{
    join_halves, split_halves, ControlFlags, Privilege, CR0_EM, CR0_MP, CR4_OSFXSR, CR4_OSXMMEXCPT,
    CR4_OSXSAVE,
};
use helium::x86_64::exception::{handler, Action, Exception};
use helium::x86_64::fpu::{self, SetupError};
use helium::x86_64::gdt::{self, Descriptor, Register, Selector, Table};
use helium::x86_64::irq::{dispatch, enabled, irq_number, IrqAction, CLOCK_VECTOR};
use helium::x86_64::lapic::{self, ipi_command, IpiDestination, IpiPriority, Register as LapicRegister};
use helium::x86_64::percpu::{per_cpu_address, PerCpu, PerCpuGuard, PerCpuGuardMut};
use helium::x86_64::pic::{self, concerned, eoi_target, EoiTarget};
use helium::x86_64::pit::{self, counter, latch_bytes, nano_offset, timer_tick};
use helium::x86_64::smp::{check_cores, core_id, cores_to_start, SmpState, StartError};
use helium::x86_64::thread::{
    exit_stack, initial_trampoline, kernel_trampoline, saved_base, user_stack_range, user_trampoline,
    KernelStack, State,
};
use helium::x86_64::tss::{self, TaskStateSegment};
use helium::x86_64::user::{cstr_length, read_cstr, UserOperation};

#[test]
fn gdt_table_entries() {
    let mut t: Table<8> = Table::empty();
    assert_eq!(t.capacity(), 8);
    assert_eq!(t.register(), Register::null());
    gdt::setup(&mut t);
    assert_eq!(t.entry(0), 0);
    assert_eq!(t.entry(1), 0x00af_9b00_0000_ffff);
    assert_eq!(t.entry(2), 0x00cf_9300_0000_ffff);
    assert_eq!(t.entry(3), 0x00cf_f300_0000_ffff);
    assert_eq!(t.entry(4), 0x00af_fb00_0000_ffff);
    t.set_descriptor(5, &Descriptor::System(0x11, 0x22));
    assert_eq!(t.entry(5), 0x11);
    assert_eq!(t.entry(6), 0x22);
    t.clear_entry(5);
    assert_eq!(t.entry(5), 0);
    t.point_register(0x1234);
    assert_eq!(t.register(), Register { limit: 63, base: 0x1234 });
}

#[test]
fn tss_descriptor_layout() {
    let address: u64 = 0xFFFF_8000_1234_5678;
    match Descriptor::tss(address) {
        Descriptor::System(low, high) => {
            assert_eq!(low & 0xFFFF, 103);
            assert_eq!((low >> 16) & 0xFF_FFFF, address & 0xFF_FFFF);
            assert_eq!((low >> 40) & 0xF, 0b1001);
            assert_eq!((low >> 47) & 1, 1);
            assert_eq!((low >> 56) & 0xFF, (address >> 24) & 0xFF);
            assert_eq!(high, address >> 32);
        }
        Descriptor::Segment(_) => panic!("a TSS descriptor takes two entries"),
    }
}

#[test]
fn selectors() {
    assert_eq!(Selector::new(5, Privilege::user()).0, 43);
    assert_eq!(Selector::new(5, Privilege::user()).index(), 5);
    assert_eq!(Selector::null().0, 0);
    assert_eq!(Selector::kernel_code().0, 8);
    assert_eq!(Selector::kernel_data().0, 16);
    assert_eq!(Selector::user_data().0, 27);
    assert_eq!(Selector::user_code().0, 35);
    assert_eq!(Privilege::Ring2.level(), 2);
}

#[test]
fn tss_install_writes_both_entries() {
    let mut t: Table<10> = Table::empty();
    let sel = tss::install(&mut t, 1, 0xABCD_0000);
    assert_eq!(sel.index(), 8);
    assert_eq!(sel, tss::selector(1));
    match Descriptor::tss(0xABCD_0000) {
        Descriptor::System(low, high) => {
            assert_eq!(t.entry(8), low);
            assert_eq!(t.entry(9), high);
        }
        Descriptor::Segment(_) => panic!(),
    }
    let mut seg = TaskStateSegment::new();
    seg.set_kernel_stack(0xFFFF_8000_0010_0000);
}

#[test]
fn control_flags() {
    let cr0 = ControlFlags::from_bits_retain(0x8000_0011 | CR0_EM);
    let enabled = cr0.enable(ControlFlags::from_bits_retain(CR0_MP));
    assert_eq!(enabled.bits(), 0x8000_0011 | CR0_EM | CR0_MP);
    let disabled = enabled.disable(ControlFlags::from_bits_retain(CR0_EM));
    assert_eq!(disabled.bits(), 0x8000_0011 | CR0_MP);
}

#[test]
fn fpu_setup_checks_the_cpu() {
    let cr = ControlFlags::from_bits_retain(0);
    assert_eq!(fpu::setup(0, 1 << 26, cr, cr, cr), Err(SetupError::NoSse));
    assert_eq!(fpu::setup(1 << 25, 0, cr, cr, cr), Err(SetupError::NoXsave));
    let (cr0, cr4, xcr0) = fpu::setup(1 << 25, 1 << 26, ControlFlags::from_bits_retain(CR0_EM), cr, cr).unwrap();
    assert_eq!(cr0.bits(), CR0_MP);
    assert_eq!(cr4.bits(), CR4_OSFXSR | CR4_OSXSAVE | CR4_OSXMMEXCPT);
    assert_eq!(xcr0.bits(), 3);
    let state = fpu::State::zeroed();
    let _ = state.clone();
}

#[test]
fn exceptions_table() {
    assert_eq!(handler(0), Exception::DivideByZero);
    assert_eq!(handler(2), Exception::NonMaskableInterrupt);
    assert_eq!(handler(14), Exception::PageFault);
    assert_eq!(handler(15), Exception::Reserved);
    assert_eq!(handler(20), Exception::Virtualization);
    assert_eq!(handler(29), Exception::Virtualization);
    assert_eq!(handler(31), Exception::Reserved);
    assert_eq!(Exception::PageFault.action(), Action::HandlePageFault);
    assert_eq!(Exception::NonMaskableInterrupt.action(), Action::Freeze);
    assert_eq!(Exception::Breakpoint.action(), Action::Panic);
    assert!(Exception::PageFault.has_error_code());
    assert!(!Exception::Debug.has_error_code());
}

#[test]
fn pic_and_irqs() {
    assert!(concerned(32));
    assert!(concerned(47));
    assert!(!concerned(48));
    assert!(!concerned(31));
    assert_eq!(eoi_target(3), EoiTarget::Master);
    assert_eq!(eoi_target(12), EoiTarget::SlaveThenMaster);
    assert_eq!(eoi_target(16), EoiTarget::NotConcerned);
    assert_eq!(pic::remap_sequence().len(), 10);
    assert_eq!(irq_number(0x1_0001), 1);
    let (eoi, action) = dispatch(0);
    assert_eq!(eoi, EoiTarget::Master);
    assert_eq!(action, IrqAction::Clock(0, CLOCK_VECTOR as u32 | (2 << 18)));
    assert_eq!(dispatch(1).1, IrqAction::Keyboard);
    assert_eq!(dispatch(9), (EoiTarget::SlaveThenMaster, IrqAction::Unhandled));
    assert!(enabled(0x202));
    assert!(!enabled(0x2));
}

#[test]
fn pit_arithmetic() {
    assert_eq!(latch_bytes(), ((pit::LATCH & 0xFF) as u8, (pit::LATCH >> 8) as u8));
    assert_eq!(counter(0x34, 0x12), 0x1234);
    assert_eq!(nano_offset(pit::LATCH), 0);
    assert_eq!(nano_offset(0), pit::LATCH * pit::PIT_TICK_NS);
    let mut ticks = 41u64;
    timer_tick(&mut ticks);
    assert_eq!(ticks, 42);
    let mut wrap = u64::MAX;
    timer_tick(&mut wrap);
    assert_eq!(wrap, 0);
}

#[test]
fn lapic_commands() {
    assert_eq!(ipi_command(IpiDestination::Core(3), IpiPriority::Nmi, 0x20), (3 << 24, 0x20 | (4 << 8)));
    assert_eq!(ipi_command(IpiDestination::Current, IpiPriority::Normal, 0x30), (0, 0x30 | (1 << 18)));
    assert_eq!(ipi_command(IpiDestination::Other, IpiPriority::Low, 0x7F), (0, 0x7F | (1 << 8) | (3 << 18)));
    assert_eq!(LapicRegister::EndOfInterrupt.offset(), 0xB0);
    assert_eq!(LapicRegister::InService(7).offset(), 0x170);
    assert_eq!(LapicRegister::InterruptCommand0.address(), lapic::LAPIC_BASE + 0x300);
    assert!(lapic::ipi_pending(1 << 12));
    assert!(!lapic::ipi_pending(0));
    assert_eq!(lapic::enabled_spurious(0xFF), 0x1FF);
}

#[test]
fn smp_start() {
    let mut s = SmpState::new();
    assert!(!s.ap_booted());
    s.ap_started();
    assert!(!s.wait_for(3));
    s.ap_started();
    assert!(s.wait_for(3));
    assert!(s.ap_booted());
    s.go();
    assert!(s.go);
    assert_eq!(check_cores(0), Err(StartError::NoCore));
    assert_eq!(check_cores(33), Err(StartError::TooManyCores));
    assert_eq!(check_cores(4), Ok(()));
    assert_eq!(core_id(None), 0);
    assert_eq!(core_id(Some(5)), 5);
    assert_eq!(cores_to_start(&[0, 1, 2, 3]), vec![1, 2, 3]);
    assert_eq!(cores_to_start(&[4, 0, 6]), vec![0, 2]);
    assert_eq!(cores_to_start(&[0]), Vec::<usize>::new());
}

#[test]
fn threads() {
    let mut k = KernelStack::new(Virtual::new(0x1000), Virtual::new(0x5000));
    assert_eq!(k.base(), Virtual::new(0x5000 - 64));
    assert!(!k.has_saved_state());
    let at = k.place_initial_state();
    assert_eq!(at, 0x5000 - 128);
    assert_eq!(k.state_addr(), at);
    assert!(k.has_saved_state());
    assert_eq!(exit_stack(0x1238), 0x1220);
    assert_eq!(user_stack_range(0x10_0800, 0x2000), (0xF_E000, 0x10_0000));
    assert_eq!(initial_trampoline(1, 2, 3, 4), [1, 3, 0x200, 2, 4]);
    assert_eq!(kernel_trampoline(0x10, 0x9000), [0x10, 8, 0x200, 0x9000, 16]);
    assert_eq!(user_trampoline(0x10, 0x7000), [0x10, 35, 0x200, 0x7000, 27]);
    assert_eq!(State::initial(0x42).rip, 0x42);
    assert_eq!(saved_base(0), None);
    assert_eq!(saved_base(7), Some(7));
}

#[test]
fn per_cpu() {
    let v = PerCpu::new(5u32);
    let x = 9u32;
    let g = PerCpuGuard::new(&x);
    assert_eq!(*g.value(), 9);
    let mut y = 3u32;
    let m = PerCpuGuardMut::new(&mut y);
    assert_eq!(*m.value(), 3);
    let _ = v;
    assert_eq!(per_cpu_address(0x1010, 0x1000, 0x2000, 0x8000), 0x8010);
}

#[test]
fn user_strings() {
    let mem = b"hello\0world";
    assert_eq!(cstr_length(mem), 5);
    assert_eq!(read_cstr(mem), b"hello".to_vec());
    assert_eq!(cstr_length(b"\0"), 0);
    let mut op = UserOperation::new();
    assert!(!op.in_operation());
    op.begin();
    assert!(op.in_operation());
    op.end();
    assert!(!op.in_operation());
}

#[test]
fn disabling_undoes_enabling() {
    let value = ControlFlags::from_bits_retain(0b1010);
    let flags = ControlFlags::from_bits_retain(0b0110);
    let round = value.enable(flags).disable(flags);
    assert_eq!(round.bits(), 0b1010 & !0b0110);
    assert_eq!(round.bits() & flags.bits(), 0);
}

#[test]
fn register_halves() {
    assert_eq!(join_halves(0x1234, 0xABCD), 0xABCD_0000_1234);
    assert_eq!(split_halves(0xABCD_0000_1234), (0x1234, 0xABCD));
    let v = 0xDEAD_BEEF_0123_4567u64;
    let (low, high) = split_halves(v);
    assert_eq!(join_halves(low, high), v);
}
