use mentacore::interrupts::{
    calibrate_tsc, calibration_target, double_fault_action, interrupted_cs_address, lapic_timer_should_preempt,
    lapic_timer_switch, page_fault_action, DoubleFaultAction, PageFaultAction, PageFlags, TimerState, TrapFrame,
};
use mentacore::ports::{irq_mask_bit, remap_program_for, send_eoi, set_frequency, unmask, PortWrite};

fn pw(port: u16, value: u8) -> PortWrite {
    PortWrite { port, value }
}

#[test]
fn pic_remap_program_is_exact() {
    let program = remap_program_for(0xFB, 0xFF);
    let w = pw(0x80, 0);
    let expected = vec![
        pw(0x20, 0x11), w, pw(0xA0, 0x11), w, pw(0x21, 32), w, pw(0xA1, 40), w,
        pw(0x21, 4), w, pw(0xA1, 2), w, pw(0x21, 1), w, pw(0xA1, 1), w,
        pw(0x21, 0xFB), pw(0xA1, 0xFF),
    ];
    assert!(program == expected);
}

#[test]
fn pic_eoi_acknowledges_slave_for_high_irqs() {
    assert!(send_eoi(0) == vec![pw(0x20, 0x20)]);
    assert!(send_eoi(7) == vec![pw(0x20, 0x20)]);
    assert!(send_eoi(8) == vec![pw(0xA0, 0x20), pw(0x20, 0x20)]);
    assert!(send_eoi(12) == vec![pw(0xA0, 0x20), pw(0x20, 0x20)]);
}

#[test]
fn pic_enable_irq_clears_its_mask_bit() {
    assert_eq!(irq_mask_bit(0), Some((0x21, 1)));
    assert_eq!(irq_mask_bit(3), Some((0x21, 8)));
    assert_eq!(irq_mask_bit(10), Some((0xA1, 4)));
    assert_eq!(irq_mask_bit(16), None);
    assert_eq!(unmask(0xFF, 1), 0xFE);
    assert_eq!(unmask(0xF0, 8), 0xF0);
}

#[test]
fn pit_programs_divisor_low_byte_first() {
    // 1_193_182 / 100 = 11931 = 0x2E9B.
    assert!(set_frequency(100) == vec![pw(0x43, 0x34), pw(0x40, 0x9B), pw(0x40, 0x2E)]);
    assert!(set_frequency(0).is_empty());
    assert!(set_frequency(10).is_empty());
    assert!(set_frequency(2_000_000).is_empty());
    assert!(set_frequency(19).len() == 3);
}

#[test]
fn trap_frame_reads_words_in_order() {
    let mut words: Vec<u64> = (0..13).map(|k| 100 + k).collect();
    words[11] = 0x08;
    let frame = TrapFrame::from_words(&words);
    assert_eq!(frame.r11, 100);
    assert_eq!(frame.rax, 108);
    assert_eq!(frame.error_code, 109);
    assert_eq!(frame.rip, 110);
    assert_eq!(frame.cs, 0x08);
    assert_eq!(frame.rflags, 112);
    assert!(!frame.from_user_mode());
    let mut user = words.clone();
    user[11] = 0x2B;
    assert!(TrapFrame::from_words(&user).from_user_mode());
}

const HEAP_START: u64 = 0xFFFF_C000_0000_0000;
const HEAP_SIZE: u64 = 0x10_0000;

#[test]
fn page_fault_user_mode_terminates_thread() {
    assert!(page_fault_action(0x1234, 0x5, 0x2B, HEAP_START, HEAP_SIZE) == PageFaultAction::TerminateUserThread);
}

#[test]
fn page_fault_protection_violation_stops() {
    assert!(page_fault_action(HEAP_START, 0x3, 0x08, HEAP_START, HEAP_SIZE) == PageFaultAction::ProtectionViolation);
}

#[test]
fn page_fault_outside_heap_stops() {
    assert!(page_fault_action(0x1000, 0x2, 0x08, HEAP_START, HEAP_SIZE) == PageFaultAction::OutsideHeap);
    assert!(
        page_fault_action(HEAP_START + HEAP_SIZE, 0x2, 0x08, HEAP_START, HEAP_SIZE) == PageFaultAction::OutsideHeap
    );
}

#[test]
fn page_fault_in_heap_maps_aligned_page() {
    let action = page_fault_action(HEAP_START + 0x2345, 0x2, 0x08, HEAP_START, HEAP_SIZE);
    let flags = PageFlags { writable: true, cache_disable: false, user: false, executable: false };
    assert!(action == PageFaultAction::MapHeapPage { page_address: HEAP_START + 0x2000, flags });
}

#[test]
fn double_fault_outcomes() {
    let start = 0x20_0000;
    assert!(double_fault_action(0x20_3FF0, start, false, 0) == (true, DoubleFaultAction::Halt));
    assert!(double_fault_action(0x30_0000, start, true, 0x1234) == (false, DoubleFaultAction::TestStackFailed));
    assert!(double_fault_action(0x20_3FF0, start, true, 0) == (true, DoubleFaultAction::ResumeAddressMissing));
    assert!(double_fault_action(0x20_4000, start, true, 0x1234) == (true, DoubleFaultAction::Resume { rip: 0x1234 }));
}

#[test]
fn lapic_timer_preempts_only_user_frames() {
    assert!(lapic_timer_should_preempt(true, 0x2B));
    assert!(!lapic_timer_should_preempt(true, 0x08));
    assert!(!lapic_timer_should_preempt(false, 0x2B));
    assert_eq!(lapic_timer_switch(0x5000, None), None);
    assert_eq!(lapic_timer_switch(0x5000, Some((0x5000, 0x9000))), None);
    assert_eq!(lapic_timer_switch(0x5000, Some((0x6000, 0x9000))), Some((0x6000, 0x9000)));
    assert_eq!(interrupted_cs_address(0x1000), 0x1080);
}

#[test]
fn timer_state_counts_and_toggles() {
    let mut timers = TimerState::new(true);
    assert_eq!(timers.timer_ticks(), 0);
    timers.record_timer_tick();
    timers.record_timer_tick();
    timers.record_lapic_timer_tick();
    assert_eq!(timers.timer_ticks(), 2);
    assert_eq!(timers.lapic_timer_ticks(), 1);
    assert!(!timers.lapic_timer_preemption_enabled());
    timers.enable_lapic_timer_preemption();
    assert!(timers.lapic_timer_preemption_enabled());
    timers.disable_lapic_timer_preemption();
    assert!(!timers.lapic_timer_preemption_enabled());
    assert_eq!(timers.timer_ticks(), 2);
}

#[test]
fn tsc_calibration_scales_by_timer_rate() {
    assert_eq!(calibration_target(5), 105);
    // 2_000_000 cycles over 100 ticks of a 100 Hz timer: 2 MHz.
    assert_eq!(calibrate_tsc(1_000, 2_001_000, 100), 2_000_000);
    assert_eq!(calibrate_tsc(0, 3_000_000_000, 100), 3_000_000_000);
    assert_eq!(calibrate_tsc(1_000, 2_001_000, 0), 0);
    // 1_193_182 / 11931 = 100 Hz rounded down: 100.
    assert_eq!(calibrate_tsc(0, 100, 100), 100);
}
