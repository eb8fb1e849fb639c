use mentacore::boot_protocol::{BootInfo, BOOT_PROTOCOL_VERSION};
use mentacore::boot_state::{BootState, Status};
use mentacore::kernel_init::{
    userspace_image_len, validate_boot_info, BootInfoError, UserspaceImageError,
};
use mentacore::loader_memory::{check_kernel_allocation, kernel_stack_at, userspace_layout, KernelStack};

fn boot_info() -> BootInfo {
    BootInfo {
        version: BOOT_PROTOCOL_VERSION,
        framebuffer_addr: 0x8000_0000,
        framebuffer_size: 1920 * 1080 * 4,
        framebuffer_width: 1920,
        framebuffer_height: 1080,
        framebuffer_stride: 1920,
        framebuffer_format: 1,
        memory_map_addr: 0x1000,
        memory_map_size: 48 * 10,
        memory_map_descriptor_size: 48,
        memory_map_descriptor_version: 1,
        kernel_image_addr: 0x10_0000,
        kernel_image_size: 0x20_0000,
        userspace_image_addr: 0x40_0000,
        userspace_image_size: 0x3000,
    }
}

#[test]
fn boot_state_ready_for_complete_framebuffer() {
    assert!(BootState::from_boot_info(&boot_info()) == BootState::Ready);
}

#[test]
fn boot_state_error_when_framebuffer_field_is_zero() {
    let mut info = boot_info();
    info.framebuffer_stride = 0;
    assert!(BootState::from_boot_info(&info) == BootState::Error);
    let mut info = boot_info();
    info.framebuffer_addr = 0;
    info.framebuffer_format = 9;
    assert!(BootState::from_boot_info(&info) == BootState::Error);
}

#[test]
fn boot_state_warning_for_unknown_format() {
    let mut info = boot_info();
    info.framebuffer_format = 4;
    assert!(BootState::from_boot_info(&info) == BootState::Warning);
    info.framebuffer_format = 3;
    assert!(BootState::from_boot_info(&info) == BootState::Ready);
}

#[test]
fn boot_state_maps_to_status() {
    assert!(BootState::Initializing.status() == Status::Initializing);
    assert!(BootState::Ready.status() == Status::Ready);
    assert!(BootState::Warning.status() == Status::Warning);
    assert!(BootState::Error.status() == Status::Error);
}

#[test]
fn validate_boot_info_checks_presence_and_version() {
    assert!(matches!(validate_boot_info(None), Err(BootInfoError::Missing)));
    let mut info = boot_info();
    info.version = 1;
    assert!(matches!(validate_boot_info(Some(&info)), Err(BootInfoError::UnsupportedVersion)));
    let info = boot_info();
    let accepted = validate_boot_info(Some(&info)).ok().unwrap();
    assert_eq!(accepted.userspace_image_addr, 0x40_0000);
}

#[test]
fn userspace_image_len_checks_bounds() {
    let info = boot_info();
    assert!(userspace_image_len(&info, 0x1_0000_0000) == Ok(0x3000));
    assert!(userspace_image_len(&info, 0x40_3000) == Ok(0x3000));
    assert!(userspace_image_len(&info, 0x40_2FFF) == Err(UserspaceImageError::OutsideIdentityMap));
    let mut far = boot_info();
    far.userspace_image_addr = u64::MAX - 0x10;
    assert!(userspace_image_len(&far, u64::MAX) == Err(UserspaceImageError::AddressOverflow));
}

#[test]
fn userspace_layout_rounds_to_pages() {
    assert_eq!(userspace_layout(0), Err(()));
    assert_eq!(userspace_layout(1), Ok((4096, 1)));
    assert_eq!(userspace_layout(4096), Ok((4096, 1)));
    assert_eq!(userspace_layout(4097), Ok((8192, 2)));
    assert_eq!(userspace_layout(u64::MAX), Err(()));
}

#[test]
fn kernel_stack_spans_four_pages() {
    assert!(kernel_stack_at(0x7000) == Ok(KernelStack { base: 0x7000, top: 0xB000 }));
    assert!(kernel_stack_at(u64::MAX - 0x1000).is_err());
}

#[test]
fn kernel_must_be_allocated_where_linked() {
    assert_eq!(check_kernel_allocation(0x10_0000, 0x10_0000), Ok(()));
    assert_eq!(check_kernel_allocation(0x20_0000, 0x10_0000), Err(()));
}
