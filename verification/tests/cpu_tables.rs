use mentacore::cpu::{interrupt_flag, ist1_stack_range, ist1_stack_top, on_ist1_stack, CpuInfo, InterruptState};
use mentacore::gdt::{Gdt, GdtEntry, Tss, TssDescriptor, GDT_ENTRIES};
use mentacore::idt::{Idt, IdtEntry, InterruptHandlers, DOUBLE_FAULT_VECTOR, IDT_ENTRIES, USER_TEST_VECTOR};
use mentacore::lapic::Lapic;

#[test]
fn gdt_entries_encode_flat_segments() {
    assert_eq!(GdtEntry::code().encode(), 0x00AF_9A00_0000_FFFF);
    assert_eq!(GdtEntry::data().encode(), 0x00AF_9200_0000_FFFF);
    assert_eq!(GdtEntry::user_code().encode(), 0x00AF_FA00_0000_FFFF);
    assert_eq!(GdtEntry::user_data().encode(), 0x00AF_F200_0000_FFFF);
}

#[test]
fn tss_descriptor_splits_base() {
    let base = 0x1234_5678_9ABC_DEF0u64;
    let mut gdt = Gdt::new();
    gdt.write_tss_descriptor(3, TssDescriptor::new(base));
    let low = gdt.entry(3);
    let high = gdt.entry(4);
    assert_eq!(low, 0x9A00_89BC_DEF0_0067);
    assert_eq!(high, 0x1234_5678);
    let rebuilt = ((low >> 16) & 0xFFFF) | (((low >> 32) & 0xFF) << 16) | (((low >> 56) & 0xFF) << 24) | (high << 32);
    assert_eq!(rebuilt, base);
}

#[test]
fn kernel_gdt_passes_user_segment_check() {
    let gdt = Gdt::for_kernel(0xFFFF_8000_0012_3000);
    assert!(gdt.validate_user_segments());
    assert_eq!(gdt.entry(0), 0);
    assert_eq!(gdt.entry(1), 0x00AF_9A00_0000_FFFF);
    assert_eq!(gdt.entry(6), 0x00AF_F200_0000_FFFF);
    assert!(!Gdt::new().validate_user_segments());
    assert_eq!(Gdt::pointer(0x5000).limit, 63);
    assert_eq!(GDT_ENTRIES, 7);
}

#[test]
fn user_segment_check_ignores_accessed_bit_only() {
    let mut gdt = Gdt::for_kernel(0);
    let mut accessed = GdtEntry::code();
    accessed.access |= 1;
    gdt.write_gdt_entry(1, accessed);
    assert!(gdt.validate_user_segments());
    gdt.write_gdt_entry(5, GdtEntry::code());
    assert!(!gdt.validate_user_segments());
}

#[test]
fn tss_stack_pointers_round_trip() {
    let mut tss = Tss::new();
    assert_eq!(tss.ist1_stack_top(), 0);
    assert_eq!(tss.rsp0(), 0);
    tss.initialize_stacks(0xFFFF_8000_0001_4000, 0x0000_0001_0000_8000);
    assert_eq!(tss.rsp0(), 0xFFFF_8000_0001_4000);
    assert_eq!(tss.ist1_stack_top(), 0x0000_0001_0000_8000);
}

#[test]
fn idt_gates_encode_handlers() {
    let mut entry = IdtEntry::missing();
    entry.set_handler(0xFFFF_8000_1234_5678, 0x08, 1);
    assert_eq!(entry.offset_low, 0x5678);
    assert_eq!(entry.offset_mid, 0x1234);
    assert_eq!(entry.offset_high, 0xFFFF_8000);
    assert_eq!(entry.options, 0x8E01);
    assert_eq!(entry.selector, 0x08);
    entry.set_handler(0x1000, 0x08, 9);
    assert_eq!(entry.options, 0x8E01);
    let mut user = IdtEntry::missing();
    user.set_user_handler(0x2000, 0x08);
    assert_eq!(user.options, 0xEE00);
}

#[test]
fn kernel_idt_installs_expected_vectors() {
    let handlers = InterruptHandlers {
        divide_error: 0x1000,
        invalid_opcode: 0x1100,
        double_fault: 0x1200,
        general_protection: 0x1300,
        page_fault: 0x1400,
        timer_irq: 0x1500,
        lapic_timer: 0x1600,
        user_privilege: None,
    };
    let idt = Idt::for_kernel(&handlers, 0x08);
    assert_eq!(idt.gate(DOUBLE_FAULT_VECTOR).options, 0x8E01);
    assert_eq!(idt.gate(14).offset_low, 0x1400);
    assert_eq!(idt.gate(0x40).offset_low, 0x1600);
    assert_eq!(idt.gate(32).options, 0x8E00);
    assert!(idt.gate(USER_TEST_VECTOR) == IdtEntry::missing());
    assert!(idt.gate(IDT_ENTRIES - 1) == IdtEntry::missing());
    let with_user = Idt::for_kernel(&InterruptHandlers { user_privilege: Some(0x1700), ..handlers }, 0x08);
    assert_eq!(with_user.gate(USER_TEST_VECTOR).options, 0xEE00);
    let mut cleared = with_user;
    cleared.clear_handler(14);
    assert!(cleared.gate(14) == IdtEntry::missing());
    assert_eq!(Idt::pointer(0).limit, 4095);
}

#[test]
fn cpuid_decoding_reads_vendor_and_features() {
    let info = CpuInfo::from_cpuid((0x16, 0x756e_6547, 0x6c65_746e, 0x4965_6e69), Some((1 << 26, (1 << 9) | (1 << 4))));
    assert_eq!(&info.vendor, b"GenuineIntel");
    assert_eq!(info.max_basic_leaf, 0x16);
    assert!(info.has_apic && info.has_tsc && info.has_xsave);
    assert!(!info.has_msr && !info.has_sse && !info.has_sse2 && !info.has_x2apic);
    let bare = CpuInfo::from_cpuid((0, 0x6874_7541, 0x444d_4163, 0x6974_6e65), None);
    assert_eq!(&bare.vendor, b"AuthenticAMD");
    assert!(!bare.has_apic && !bare.has_tsc);
}

#[test]
fn cpuid_detect_runs_on_this_processor() {
    let info = CpuInfo::detect();
    if info.max_basic_leaf >= 1 {
        assert!(info.has_tsc);
    }
    assert!(info.vendor.iter().all(|b| b.is_ascii()));
}

#[test]
fn interrupt_state_reads_interrupt_flag() {
    assert!(InterruptState::saved(0x202).were_enabled());
    assert!(!InterruptState::saved(0x002).were_enabled());
    assert!(interrupt_flag(1 << 9));
    assert!(!interrupt_flag(!(1u64 << 9)));
}

#[test]
fn ist1_stack_is_sixteen_kib() {
    assert_eq!(ist1_stack_range(0x10_0000), (0x10_0000, 0x10_4000));
    assert_eq!(ist1_stack_top(0x10_0000), 0x10_4000);
    assert!(on_ist1_stack(0x10_4000, (0x10_0000, 0x10_4000)));
    assert!(on_ist1_stack(0x10_0000, (0x10_0000, 0x10_4000)));
    assert!(!on_ist1_stack(0x10_4008, (0x10_0000, 0x10_4000)));
}

#[test]
fn lapic_discovery_from_msr() {
    let lapic = Lapic::discover(0xFEE0_0900).unwrap();
    assert_eq!(lapic.base(), 0xFEE0_0000);
    assert_eq!(lapic.msr_value(), 0xFEE0_0900);
    assert!(Lapic::discover(0xFEE0_0100).is_none());
    assert!(Lapic::discover(0x0000_0800).is_none());
}

#[test]
fn selectors_index_their_slots() {
    use_selectors();
}

fn use_selectors() {
    let gdt = Gdt::for_kernel(0x1000);
    let slot = |selector: u16| gdt.entry((selector >> 3) as usize);
    assert_eq!(slot(mentacore::gdt::KERNEL_CODE_SELECTOR), GdtEntry::code().encode());
    assert_eq!(slot(mentacore::gdt::KERNEL_DATA_SELECTOR), GdtEntry::data().encode());
    assert_eq!(slot(mentacore::gdt::USER_CODE_SELECTOR), GdtEntry::user_code().encode());
    assert_eq!(slot(mentacore::gdt::USER_DATA_SELECTOR), GdtEntry::user_data().encode());
    assert_eq!(mentacore::gdt::USER_CODE_SELECTOR & 3, 3);
    assert_eq!(mentacore::gdt::TSS_SELECTOR >> 3, 3);
}
