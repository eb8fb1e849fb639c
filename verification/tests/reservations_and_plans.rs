use mentacore::cpu::{ist1_stack_range, ist1_stack_top};
use mentacore::display::{boot_screen_plan, DrawItem, FontSize, InfoRow, PaletteColor, TextStyle};
use mentacore::frames::{boot_frame_map, frame_map_from_descriptors, FrameMap, FrameMapError, MemoryDescriptor};
use mentacore::gdt::Tss;
use mentacore::interrupts::{lapic_timer_should_preempt, TimerState};

fn conventional_low_memory() -> Vec<MemoryDescriptor> {
    vec![MemoryDescriptor { ty: 7, physical_start: 0, number_of_pages: 16 }]
}

#[test]
fn boot_frame_map_reserves_userspace_image() {
    let descriptors = conventional_low_memory();
    let map = boot_frame_map(32, &descriptors, 0x8000, 2, (0x3000, 0x1800)).ok().unwrap();
    assert!(!map.is_used(2));
    assert!(map.is_used(3) && map.is_used(4));
    assert!(!map.is_used(5));
    assert!(map.is_used(8) && map.is_used(9));
    let map = boot_frame_map(32, &descriptors, 0x8000, 2, (0x3000, 0)).ok().unwrap();
    assert!(!map.is_used(3));
}

#[test]
fn boot_frame_map_fails_when_image_does_not_fit() {
    let descriptors = conventional_low_memory();
    assert!(matches!(
        boot_frame_map(32, &descriptors, 0x8000, 2, (0x1F000, 0x2000)),
        Err(FrameMapError::UserspaceReservationFailed)
    ));
    assert!(matches!(
        boot_frame_map(32, &descriptors, 0x8000, 2, (u64::MAX, 2)),
        Err(FrameMapError::UserspaceReservationFailed)
    ));
    assert!(boot_frame_map(32, &descriptors, 0x8000, 2, (0x1F000, 0x1000)).is_ok());
}

#[test]
fn reserve_range_marks_covering_frames() {
    let mut map = FrameMap::all_used(8);
    map.mark_free_range(0, 8);
    assert!(map.reserve_range(0x1000, 1).is_ok());
    assert!(!map.is_used(0) && map.is_used(1) && !map.is_used(2));
    assert!(map.reserve_range(0x2FFF, 2).is_ok());
    assert!(map.is_used(2) && map.is_used(3) && !map.is_used(4));
    assert!(map.reserve_range(0x7000, 0x1001).is_err());
    assert!(!map.is_used(7));
    assert!(map.reserve_range(u64::MAX, 1).is_err());
    assert!(map.reserve_range(0x7000, 0x1000).is_ok());
    assert!(map.is_used(7));
}

#[test]
fn normal_build_preempts_user_ticks() {
    let mut timers = TimerState::new(false);
    assert!(timers.lapic_timer_preemption_enabled());
    assert!(lapic_timer_should_preempt(timers.lapic_timer_preemption_enabled(), 0x2B));
    assert!(!lapic_timer_should_preempt(timers.lapic_timer_preemption_enabled(), 0x08));
    timers.disable_lapic_timer_preemption();
    assert!(!timers.lapic_timer_preemption_enabled());
}

#[test]
fn ticks_accumulate_over_many_interrupts() {
    let mut timers = TimerState::new(true);
    for _ in 0..1000 {
        timers.record_timer_tick();
        timers.record_lapic_timer_tick();
    }
    assert_eq!(timers.timer_ticks(), 1000);
    assert_eq!(timers.lapic_timer_ticks(), 1000);
}

#[test]
fn fresh_tss_image_is_104_bytes() {
    let bytes = Tss::new().to_bytes();
    assert_eq!(bytes.len(), 104);
    for (i, b) in bytes.iter().enumerate() {
        if i == 102 {
            assert_eq!(*b, 104);
        } else {
            assert_eq!(*b, 0);
        }
    }
}

#[test]
fn kernel_tss_image_holds_stack_tops() {
    let tss = Tss::for_kernel(0x1000, 0x10_0000);
    assert_eq!(tss.rsp0(), 0x5000);
    assert_eq!(tss.ist1_stack_top(), 0x10_4000);
    let bytes = tss.to_bytes();
    assert_eq!(bytes.len(), 104);
    assert_eq!(u64::from_le_bytes(bytes[4..12].try_into().unwrap()), 0x5000);
    assert_eq!(u64::from_le_bytes(bytes[36..44].try_into().unwrap()), 0x10_4000);
    assert_eq!(u16::from_le_bytes([bytes[102], bytes[103]]), 104);
    assert!(bytes[0..4].iter().all(|b| *b == 0));
    assert!(bytes[12..36].iter().all(|b| *b == 0));
    assert!(bytes[44..102].iter().all(|b| *b == 0));
}

#[test]
fn ist1_stack_is_aligned_when_its_start_is() {
    let (start, end) = ist1_stack_range(0x20_0010);
    assert_eq!(end - start, 16 * 1024);
    assert_eq!(start % 16, 0);
    assert_eq!(ist1_stack_top(0x20_0010) % 16, 0);
}

#[test]
fn resolution_row_draws_width_separator_height() {
    let row = InfoRow::resolution(100, 50, "Framebuffer", 1920, 1080, TextStyle::muted());
    let items = row.draw_items();
    assert_eq!(items.len(), 5);
    assert!(matches!(items[0], DrawItem::Text { x: 100, y: 50, text: "Framebuffer", style: TextStyle { font: FontSize::Body, color: PaletteColor::Text } }));
    assert!(matches!(items[1], DrawItem::Text { x: 400, y: 50, text: "", .. }));
    assert!(matches!(items[2], DrawItem::Number { x: 400, y: 50, value: 1920, .. }));
    assert!(matches!(items[3], DrawItem::Text { x: 442, y: 50, text: " X ", .. }));
    assert!(matches!(items[4], DrawItem::Number { x: 466, y: 50, value: 1080, style: TextStyle { font: FontSize::Body, color: PaletteColor::TextMuted } }));
}

#[test]
fn boot_screen_plan_for_full_hd() {
    let plan = boot_screen_plan(1920, 1080);
    assert_eq!(plan.len(), 19);
    assert!(matches!(plan[0], DrawItem::Clear { color: PaletteColor::Background }));
    assert!(matches!(plan[1], DrawItem::Text { x: 885, y: 360, text: "MENTACORE", style: TextStyle { font: FontSize::Title, .. } }));
    assert!(matches!(plan[2], DrawItem::Text { x: 878, y: 392, text: "OPERATING ENVIRONMENT", style: TextStyle { font: FontSize::Small, .. } }));
    assert!(matches!(plan[3], DrawItem::Rect { x: 680, y: 430, width: 560, height: 1, color: PaletteColor::Border }));
    assert!(matches!(plan[4], DrawItem::Circle { x: 850, y: 470, diameter: 12, color: PaletteColor::Success }));
    assert!(matches!(plan[5], DrawItem::Text { x: 875, y: 480, text: "SYSTEM READY", .. }));
    assert!(matches!(plan[6], DrawItem::Text { x: 740, y: 540, text: "Kernel", .. }));
    assert!(matches!(plan[7], DrawItem::Text { x: 1040, y: 540, text: "SYSTEM READY", style: TextStyle { color: PaletteColor::Success, .. } }));
    assert!(matches!(plan[8], DrawItem::Text { x: 740, y: 572, text: "Bootloader", .. }));
    assert!(matches!(plan[10], DrawItem::Text { x: 740, y: 604, text: "Graphics", .. }));
    assert!(matches!(plan[12], DrawItem::Text { x: 740, y: 636, text: "Framebuffer", .. }));
    assert!(matches!(plan[14], DrawItem::Number { x: 1040, y: 636, value: 1920, .. }));
    assert!(matches!(plan[16], DrawItem::Number { x: 1106, y: 636, value: 1080, .. }));
    assert!(matches!(plan[17], DrawItem::Rect { x: 740, y: 680, width: 440, height: 1, color: PaletteColor::Border }));
    assert!(matches!(plan[18], DrawItem::Text { x: 870, y: 720, text: "INITIALIZING SYSTEM", .. }));
}

fn two_conventional_regions() -> Vec<MemoryDescriptor> {
    vec![
        MemoryDescriptor { ty: 7, physical_start: 0, number_of_pages: 16 },
        MemoryDescriptor { ty: 2, physical_start: 0x10000, number_of_pages: 4 },
        MemoryDescriptor { ty: 7, physical_start: 0x14000, number_of_pages: 4 },
    ]
}

#[test]
fn frame_map_from_descriptors_sizes_and_places_the_map() {
    let map = frame_map_from_descriptors(&two_conventional_regions(), (0x3000, 0x1000)).ok().unwrap();
    assert_eq!(map.frame_count(), 24);
    assert!(map.is_used(0));
    assert!(!map.is_used(1) && !map.is_used(2));
    assert!(map.is_used(3));
    assert!(!map.is_used(4) && !map.is_used(15));
    assert!(map.is_used(16) && map.is_used(19));
    assert!(map.is_used(20));
    assert!(!map.is_used(21) && !map.is_used(23));
    assert!(map.is_used(24));
}

#[test]
fn frame_map_from_descriptors_reports_each_failure() {
    assert!(matches!(frame_map_from_descriptors(&[], (0, 0)), Err(FrameMapError::NoConventionalMemory)));
    let reserved_only = [MemoryDescriptor { ty: 2, physical_start: 0x1000, number_of_pages: 4 }];
    assert!(matches!(frame_map_from_descriptors(&reserved_only, (0, 0)), Err(FrameMapError::NoConventionalMemory)));
    let past_end = [MemoryDescriptor { ty: 7, physical_start: u64::MAX - 0x1000, number_of_pages: 2 }];
    assert!(matches!(frame_map_from_descriptors(&past_end, (0, 0)), Err(FrameMapError::NoConventionalMemory)));
    let only_at_zero = [MemoryDescriptor { ty: 7, physical_start: 0, number_of_pages: 16 }];
    assert!(matches!(frame_map_from_descriptors(&only_at_zero, (0, 0)), Err(FrameMapError::BitmapRegionNotFound)));
    let empty_region = [MemoryDescriptor { ty: 7, physical_start: 0x1000, number_of_pages: 0 }];
    assert!(matches!(frame_map_from_descriptors(&empty_region, (0, 0)), Err(FrameMapError::BitmapRegionNotFound)));
    assert!(matches!(
        frame_map_from_descriptors(&two_conventional_regions(), (0x17000, 0x2000)),
        Err(FrameMapError::UserspaceReservationFailed)
    ));
}

#[test]
fn initialize_stacks_leaves_other_bytes_alone() {
    let mut tss = Tss::new();
    let before = tss.to_bytes();
    tss.initialize_stacks(0x1122_3344_5566_7788, 0x99AA_BBCC_DDEE_FF00);
    let after = tss.to_bytes();
    for i in 0..104 {
        if !(4..12).contains(&i) && !(36..44).contains(&i) {
            assert_eq!(before[i], after[i]);
        }
    }
    assert_eq!(u64::from_le_bytes(after[4..12].try_into().unwrap()), 0x1122_3344_5566_7788);
    assert_eq!(u64::from_le_bytes(after[36..44].try_into().unwrap()), 0x99AA_BBCC_DDEE_FF00);
}
