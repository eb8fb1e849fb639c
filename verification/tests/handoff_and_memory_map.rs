use mentacore::boot_protocol::{BootInfo, BOOT_PROTOCOL_VERSION};
use mentacore::boot_state::{BootState, Status};
use mentacore::display::{FontSize, Header, InfoRow, InfoValue, PaletteColor, StatusIndicator, TextLabel, TextStyle};
use mentacore::frames::{
    bitmap_page_count, find_conventional_region, frame_count_for_address, highest_conventional_address,
    memory_descriptor, memory_descriptor_count, MemoryDescriptor,
};
use mentacore::handoff::{
    boot_info_for_framebuffer, framebuffer_format, preferred_mode, record_images, record_memory_map, PixelFormat,
};
use mentacore::kernel_init::validate_boot_info;
use mentacore::loader_memory::UserspaceImage;

#[test]
fn preferred_mode_is_first_full_hd_mode() {
    assert_eq!(preferred_mode(&[(800, 600), (1920, 1080), (1920, 1080)]), Some(1));
    assert_eq!(preferred_mode(&[(1080, 1920), (1024, 768)]), None);
    assert_eq!(preferred_mode(&[]), None);
}

#[test]
fn pixel_format_codes() {
    assert_eq!(framebuffer_format(PixelFormat::Rgb), 0);
    assert_eq!(framebuffer_format(PixelFormat::Bgr), 1);
    assert_eq!(framebuffer_format(PixelFormat::Bitmask), 2);
    assert_eq!(framebuffer_format(PixelFormat::BltOnly), 3);
}

#[test]
fn handoff_boot_info_is_accepted_by_kernel() {
    let mut info = boot_info_for_framebuffer(0x8000_0000, 0x7E_9000, 1920, 1080, 1920, PixelFormat::Bgr);
    assert_eq!(info.version, BOOT_PROTOCOL_VERSION);
    assert_eq!(info.framebuffer_format, 1);
    assert_eq!(info.kernel_image_addr, 0);
    record_images(&mut info, 0x10_0000, 0x20_0000, UserspaceImage { address: 0x50_0000, size: 0x1234 });
    record_memory_map(&mut info, 0x9000, 4800, 48, 1);
    assert_eq!(info.kernel_image_size, 0x20_0000);
    assert_eq!(info.userspace_image_addr, 0x50_0000);
    assert_eq!(info.userspace_image_size, 0x1234);
    assert_eq!(info.memory_map_size, 4800);
    assert_eq!(info.memory_map_descriptor_size, 48);
    assert_eq!(info.framebuffer_width, 1920);
    assert!(validate_boot_info(Some(&info)).is_ok());
    assert!(BootState::from_boot_info(&info) == BootState::Ready);
    let blank: BootInfo = boot_info_for_framebuffer(0, 0, 0, 0, 0, PixelFormat::BltOnly);
    assert!(BootState::from_boot_info(&blank) == BootState::Error);
}

fn descriptor_bytes(ty: u32, start: u64, pages: u64, stride: usize) -> Vec<u8> {
    let mut out = vec![0u8; stride];
    out[0..4].copy_from_slice(&ty.to_le_bytes());
    out[8..16].copy_from_slice(&start.to_le_bytes());
    out[16..24].copy_from_slice(&0xFFFF_0000u64.to_le_bytes());
    out[24..32].copy_from_slice(&pages.to_le_bytes());
    out
}

#[test]
fn memory_descriptors_parse_with_stride() {
    let mut map = descriptor_bytes(7, 0x1000, 0x9F, 48);
    map.extend(descriptor_bytes(2, 0x10_0000, 0x100, 48));
    assert_eq!(memory_descriptor_count(map.len(), 48), 2);
    assert_eq!(memory_descriptor_count(map.len(), 0), 0);
    assert!(memory_descriptor(&map, 48, 0) == Some(MemoryDescriptor { ty: 7, physical_start: 0x1000, number_of_pages: 0x9F }));
    assert!(memory_descriptor(&map, 48, 1) == Some(MemoryDescriptor { ty: 2, physical_start: 0x10_0000, number_of_pages: 0x100 }));
    assert!(memory_descriptor(&map, 48, 2).is_none());
    assert!(memory_descriptor(&map, 16, 0).is_none());
}

#[test]
fn conventional_memory_queries() {
    let descriptors = [
        MemoryDescriptor { ty: 7, physical_start: 0, number_of_pages: 0xA0 },
        MemoryDescriptor { ty: 2, physical_start: 0x10_0000, number_of_pages: 0x1000 },
        MemoryDescriptor { ty: 7, physical_start: 0x20_0000, number_of_pages: 0x10 },
        MemoryDescriptor { ty: 7, physical_start: 0x40_0000, number_of_pages: 0x400 },
    ];
    assert_eq!(highest_conventional_address(&descriptors), Some(0x80_0000));
    assert_eq!(highest_conventional_address(&descriptors[1..2]), None);
    let overflowing = [MemoryDescriptor { ty: 7, physical_start: u64::MAX - 0x1000, number_of_pages: 2 }];
    assert_eq!(highest_conventional_address(&overflowing), None);
    assert_eq!(find_conventional_region(&descriptors, 0x1000), Some(0x20_0000));
    assert_eq!(find_conventional_region(&descriptors, 0x20_000), Some(0x40_0000));
    assert_eq!(find_conventional_region(&descriptors, 0x1000_0000), None);
}

#[test]
fn frame_map_sizing() {
    assert_eq!(frame_count_for_address(0), Some(0));
    assert_eq!(frame_count_for_address(1), Some(1));
    assert_eq!(frame_count_for_address(0x80_0000), Some(0x800));
    assert_eq!(bitmap_page_count(0), 0);
    assert_eq!(bitmap_page_count(1), 1);
    assert_eq!(bitmap_page_count(8 * 4096), 1);
    assert_eq!(bitmap_page_count(8 * 4096 + 1), 2);
}

#[test]
fn info_rows_place_values() {
    let row = InfoRow::resolution(680, 540, "Framebuffer", 1920, 1080, TextStyle::muted());
    assert!(row.value == InfoValue::Resolution(1920, 1080));
    assert_eq!(row.value_x(), 980);
    assert_eq!(row.resolution_columns(), (980, 1022, 1046));
    let status = InfoRow::status(680, 572, "Kernel", Status::Warning);
    assert!(status.value == InfoValue::Text("WARNING"));
    assert!(status.value_style == TextStyle { font: FontSize::Body, color: PaletteColor::Warning });
    let text = InfoRow::new(0, 0, "Mode", "GOP", TextStyle::body());
    assert!(text.value == InfoValue::Text("GOP"));
}

#[test]
fn screen_components() {
    let header = Header::new(885, 360, "MENTACORE");
    let label = header.label();
    assert_eq!((label.x, label.y, label.text), (885, 360, "MENTACORE"));
    assert!(label.style == TextStyle::title());
    let subtitle = TextLabel::new(878, 392, "OPERATING ENVIRONMENT", TextStyle::small());
    assert!(subtitle.style.font == FontSize::Small);
    let indicator = StatusIndicator::new(850, 470, 6, Status::Ready);
    assert_eq!(indicator.diameter(), 12);
    assert!(indicator.status() == Status::Ready);
    assert!(indicator.color() == PaletteColor::Success);
}
