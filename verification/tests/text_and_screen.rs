use mentacore::boot_protocol::BootInfo;
use mentacore::boot_state::Status;
use mentacore::display::{pixel_write, BootLayout, FontSize, FramebufferLayout, PaletteColor, ScreenGeometry, TextStyle};
use mentacore::format::{decimal_digits, hex_text};
use mentacore::frames::{boot_frame_map, FrameMap, FrameMapError, MemoryDescriptor};

#[test]
fn decimal_digits_of_values() {
    assert_eq!(decimal_digits(0), b"0".to_vec());
    assert_eq!(decimal_digits(7), b"7".to_vec());
    assert_eq!(decimal_digits(1920), b"1920".to_vec());
    assert_eq!(decimal_digits(1080), b"1080".to_vec());
    assert_eq!(decimal_digits(u32::MAX), b"4294967295".to_vec());
    let printed = String::from_utf8(decimal_digits(90210)).unwrap();
    assert_eq!(printed.parse::<u32>().unwrap(), 90210);
}

#[test]
fn hex_text_of_values() {
    assert_eq!(hex_text(0xDEAD_BEEF), b"0x00000000deadbeef".to_vec());
    assert_eq!(hex_text(0), b"0x0000000000000000".to_vec());
    assert_eq!(hex_text(u64::MAX), b"0xffffffffffffffff".to_vec());
    let text = String::from_utf8(hex_text(0x0123_4567_89AB_CDEF)).unwrap();
    assert_eq!(u64::from_str_radix(&text[2..], 16).unwrap(), 0x0123_4567_89AB_CDEF);
}

#[test]
fn screen_geometry_centers() {
    let screen = ScreenGeometry::new(1920, 1080);
    assert_eq!(screen.width(), 1920);
    assert_eq!(screen.height(), 1080);
    assert_eq!(screen.center_x(), 960);
    assert_eq!(screen.center_y(), 540);
    assert_eq!(screen.centered_x(560), 680);
    assert_eq!(screen.centered_x(151), 885);
}

#[test]
fn boot_layout_rows() {
    let layout = BootLayout::new(ScreenGeometry::new(1920, 1080));
    assert_eq!(layout.header_y(), 360);
    assert_eq!(layout.subtitle_y(), 392);
    assert_eq!(layout.header_separator_y(), 430);
    assert_eq!(layout.status_y(), 470);
    assert_eq!(layout.status_text_y(), 480);
    assert_eq!(layout.info_y(0), 540);
    assert_eq!(layout.info_y(3), 636);
    assert_eq!(layout.footer_separator_y(), 680);
    assert_eq!(layout.footer_y(), 720);
    assert_eq!(layout.screen().width(), 1920);
    let small = BootLayout::new(ScreenGeometry::new(640, 100));
    assert_eq!(small.header_y(), -130);
}

#[test]
fn status_presentation() {
    assert_eq!(Status::Ready.text(), "SYSTEM READY");
    assert_eq!(Status::Initializing.text(), "INITIALIZING");
    assert_eq!(Status::Warning.text(), "WARNING");
    assert_eq!(Status::Error.text(), "ERROR");
    assert!(Status::Ready.color() == PaletteColor::Success);
    assert!(Status::Error.text_style() == TextStyle { font: FontSize::Body, color: PaletteColor::Error });
    assert!(TextStyle::title() == TextStyle { font: FontSize::Title, color: PaletteColor::Text });
    assert!(TextStyle::small().font == FontSize::Small);
}

fn layout(format: u32) -> FramebufferLayout {
    FramebufferLayout { size: 64 * 4 * 10, width: 60, height: 10, stride: 64, format }
}

#[test]
fn pixel_bytes_follow_format() {
    assert_eq!(pixel_write(&layout(0), 1, 2, 10, 20, 30), Some(((2 * 64 + 1) * 4, [10, 20, 30, 0])));
    assert_eq!(pixel_write(&layout(1), 1, 2, 10, 20, 30), Some(((2 * 64 + 1) * 4, [30, 20, 10, 0])));
    assert_eq!(pixel_write(&layout(2), 0, 0, 10, 20, 30), Some((0, [10, 20, 30, 0])));
    assert_eq!(pixel_write(&layout(3), 0, 0, 10, 20, 30), None);
    assert_eq!(pixel_write(&layout(7), 0, 0, 10, 20, 30), None);
}

#[test]
fn pixel_outside_screen_or_buffer_is_skipped() {
    assert_eq!(pixel_write(&layout(0), -1, 0, 1, 1, 1), None);
    assert_eq!(pixel_write(&layout(0), 0, -5, 1, 1, 1), None);
    assert_eq!(pixel_write(&layout(0), 60, 0, 1, 1, 1), None);
    assert_eq!(pixel_write(&layout(0), 0, 10, 1, 1, 1), None);
    let short = FramebufferLayout { size: 100, ..layout(0) };
    assert_eq!(pixel_write(&short, 24, 0, 1, 1, 1), Some((96, [1, 1, 1, 0])));
    assert_eq!(pixel_write(&short, 25, 0, 1, 1, 1), None);
}

#[test]
fn framebuffer_layout_from_boot_info() {
    let info = BootInfo {
        version: 2,
        framebuffer_addr: 0x8000_0000,
        framebuffer_size: 4096,
        framebuffer_width: 32,
        framebuffer_height: 16,
        framebuffer_stride: 40,
        framebuffer_format: 1,
        memory_map_addr: 0,
        memory_map_size: 0,
        memory_map_descriptor_size: 0,
        memory_map_descriptor_version: 0,
        kernel_image_addr: 0,
        kernel_image_size: 0,
        userspace_image_addr: 0,
        userspace_image_size: 0,
    };
    let fb = FramebufferLayout::from_boot_info(&info);
    assert!(fb == FramebufferLayout { size: 4096, width: 32, height: 16, stride: 40, format: 1 });
    assert_eq!(fb.resolution(), (32, 16));
}

#[test]
fn frame_map_marks_ranges() {
    let mut map = FrameMap::all_used(8);
    assert_eq!(map.frame_count(), 8);
    map.mark_free_range(0x2000, 3);
    assert!(map.is_used(1) && !map.is_used(2) && !map.is_used(4) && map.is_used(5));
    map.mark_free_range(0x6000, 100);
    assert!(!map.is_used(7));
    assert!(map.is_used(8));
    map.set(3);
    assert!(map.is_used(3));
    map.set(50);
    assert_eq!(map.frame_count(), 8);
}

#[test]
fn boot_frame_map_reserves_zero_and_bitmap() {
    let descriptors = [
        MemoryDescriptor { ty: 7, physical_start: 0, number_of_pages: 16 },
        MemoryDescriptor { ty: 2, physical_start: 0x4000, number_of_pages: 2 },
        MemoryDescriptor { ty: 7, physical_start: 0x14000, number_of_pages: 4 },
    ];
    let map = boot_frame_map(32, &descriptors, 0x8000, 2, (0, 0)).ok().unwrap();
    assert!(map.is_used(0));
    assert!(!map.is_used(1));
    assert!(!map.is_used(4));
    assert!(map.is_used(8) && map.is_used(9));
    assert!(!map.is_used(10));
    assert!(map.is_used(16));
    assert!(!map.is_used(20) && !map.is_used(23));
    assert!(map.is_used(24));
    assert!(matches!(boot_frame_map(0, &descriptors, 0x8000, 2, (0, 0)), Err(FrameMapError::FrameZeroNotReserved)));
    assert!(matches!(boot_frame_map(8, &descriptors, 0x8000, 2, (0, 0)), Err(FrameMapError::BitmapFirstFrameNotReserved)));
    assert!(matches!(boot_frame_map(9, &descriptors, 0x8000, 2, (0, 0)), Err(FrameMapError::BitmapLastFrameNotReserved)));
}

#[test]
fn distinct_pixels_use_distinct_slots() {
    let fb = FramebufferLayout { size: 64 * 4 * 10, width: 60, height: 10, stride: 64, format: 0 };
    let mut offsets = Vec::new();
    for y in 0..10 {
        for x in 0..60 {
            offsets.push(pixel_write(&fb, x, y, 1, 2, 3).unwrap().0);
        }
    }
    offsets.sort();
    for pair in offsets.windows(2) {
        assert!(pair[0] + 4 <= pair[1]);
    }
}
