//! The bootloader's side of the handoff: choosing the display mode and
//! filling in the boot information passed to the kernel.
use vstd::prelude::*;
use crate::boot_protocol::{
    BootInfo, BOOT_PROTOCOL_VERSION, FRAMEBUFFER_FORMAT_BGR, FRAMEBUFFER_FORMAT_BITMASK, FRAMEBUFFER_FORMAT_BLT_ONLY,
    FRAMEBUFFER_FORMAT_RGB,
};
use crate::loader_memory::UserspaceImage;
use crate::boot_state::{boot_state_of, framebuffer_missing, BootState};

verus! {

/// Display resolution the bootloader prefers.
pub const TARGET_WIDTH: usize = 1920;
pub const TARGET_HEIGHT: usize = 1080;

/// Pixel layouts a firmware graphics mode can report.
#[derive(Clone, Copy, PartialEq, Eq, Structural)]
pub enum PixelFormat {
    Rgb,
    Bgr,
    Bitmask,
    BltOnly,
}

pub open spec fn format_code_of(format: PixelFormat) -> u32 {
    match format {
        PixelFormat::Rgb => FRAMEBUFFER_FORMAT_RGB,
        PixelFormat::Bgr => FRAMEBUFFER_FORMAT_BGR,
        PixelFormat::Bitmask => FRAMEBUFFER_FORMAT_BITMASK,
        PixelFormat::BltOnly => FRAMEBUFFER_FORMAT_BLT_ONLY,
    }
}

/// The boot protocol's code for a pixel format.
pub fn framebuffer_format(format: PixelFormat) -> (r: u32)
    ensures
        r == format_code_of(format),
        format == PixelFormat::Rgb ==> r == FRAMEBUFFER_FORMAT_RGB,
        format == PixelFormat::Bgr ==> r == FRAMEBUFFER_FORMAT_BGR,
        format == PixelFormat::Bitmask ==> r == FRAMEBUFFER_FORMAT_BITMASK,
        format == PixelFormat::BltOnly ==> r == FRAMEBUFFER_FORMAT_BLT_ONLY,
{
    match format {
        PixelFormat::Rgb => FRAMEBUFFER_FORMAT_RGB,
        PixelFormat::Bgr => FRAMEBUFFER_FORMAT_BGR,
        PixelFormat::Bitmask => FRAMEBUFFER_FORMAT_BITMASK,
        PixelFormat::BltOnly => FRAMEBUFFER_FORMAT_BLT_ONLY,
    }
}

/// The first graphics mode, in the firmware's order, with the preferred
/// resolution; `None` keeps the current mode.
pub fn preferred_mode(resolutions: &[(usize, usize)]) -> (r: Option<usize>)
    ensures
        match r {
            Some(i) => i < resolutions@.len() && resolutions@[i as int] == (TARGET_WIDTH, TARGET_HEIGHT)
                && forall|j: int| 0 <= j < i ==> resolutions@[j] != (TARGET_WIDTH, TARGET_HEIGHT),
            None => forall|j: int| 0 <= j < resolutions@.len() ==> resolutions@[j] != (TARGET_WIDTH, TARGET_HEIGHT),
        },
{
    let mut i: usize = 0;
    while i < resolutions.len()
        invariant
            i <= resolutions@.len(),
            forall|j: int| 0 <= j < i ==> resolutions@[j] != (TARGET_WIDTH, TARGET_HEIGHT),
        decreases resolutions.len() - i,
    {
        let (width, height) = resolutions[i];
        if width == TARGET_WIDTH && height == TARGET_HEIGHT {
            return Some(i);
        }
        i = i + 1;
    }
    None
}

pub open spec fn framebuffer_boot_info_of(
    framebuffer_addr: u64,
    framebuffer_size: u64,
    width: usize,
    height: usize,
    stride: usize,
    format: PixelFormat,
) -> BootInfo {
    BootInfo {
        version: BOOT_PROTOCOL_VERSION,
        framebuffer_addr,
        framebuffer_size,
        framebuffer_width: width as u32,
        framebuffer_height: height as u32,
        framebuffer_stride: stride as u32,
        framebuffer_format: format_code_of(format),
        memory_map_addr: 0,
        memory_map_size: 0,
        memory_map_descriptor_size: 0,
        memory_map_descriptor_version: 0,
        kernel_image_addr: 0,
        kernel_image_size: 0,
        userspace_image_addr: 0,
        userspace_image_size: 0,
    }
}

/// Boot information describing only the framebuffer; the memory map and
/// image fields are zero until filled in. Dimensions keep their low 32 bits.
pub fn boot_info_for_framebuffer(
    framebuffer_addr: u64,
    framebuffer_size: u64,
    width: usize,
    height: usize,
    stride: usize,
    format: PixelFormat,
) -> (r: BootInfo)
    ensures
        r == framebuffer_boot_info_of(framebuffer_addr, framebuffer_size, width, height, stride, format),
        records_mode(r, framebuffer_addr, framebuffer_size, width, height, stride, format),
{
    proof {
        lemma_boot_info_records_mode(framebuffer_addr, framebuffer_size, width, height, stride, format);
    }
    BootInfo {
        version: BOOT_PROTOCOL_VERSION,
        framebuffer_addr,
        framebuffer_size,
        framebuffer_width: width as u32,
        framebuffer_height: height as u32,
        framebuffer_stride: stride as u32,
        framebuffer_format: framebuffer_format(format),
        memory_map_addr: 0,
        memory_map_size: 0,
        memory_map_descriptor_size: 0,
        memory_map_descriptor_version: 0,
        kernel_image_addr: 0,
        kernel_image_size: 0,
        userspace_image_addr: 0,
        userspace_image_size: 0,
    }
}

/// Whether `info` hands the kernel the chosen mode as given: the protocol
/// version, the framebuffer's address and size, its width, height and
/// stride (low 32 bits of each), the protocol's code for its pixel format,
/// and nothing yet of the memory map or the images.
pub open spec fn records_mode(
    info: BootInfo,
    framebuffer_addr: u64,
    framebuffer_size: u64,
    width: usize,
    height: usize,
    stride: usize,
    format: PixelFormat,
) -> bool {
    &&& info.version == BOOT_PROTOCOL_VERSION
    &&& info.framebuffer_addr == framebuffer_addr
    &&& info.framebuffer_size == framebuffer_size
    &&& info.framebuffer_width == width as u32
    &&& info.framebuffer_height == height as u32
    &&& info.framebuffer_stride == stride as u32
    &&& (format == PixelFormat::Rgb ==> info.framebuffer_format == FRAMEBUFFER_FORMAT_RGB)
    &&& (format == PixelFormat::Bgr ==> info.framebuffer_format == FRAMEBUFFER_FORMAT_BGR)
    &&& (format == PixelFormat::Bitmask ==> info.framebuffer_format == FRAMEBUFFER_FORMAT_BITMASK)
    &&& (format == PixelFormat::BltOnly ==> info.framebuffer_format == FRAMEBUFFER_FORMAT_BLT_ONLY)
    &&& info.memory_map_addr == 0 && info.memory_map_size == 0
    &&& info.memory_map_descriptor_size == 0 && info.memory_map_descriptor_version == 0
    &&& info.kernel_image_addr == 0 && info.kernel_image_size == 0
    &&& info.userspace_image_addr == 0 && info.userspace_image_size == 0
}

/// Law: the boot information built for a mode records that mode as given,
/// and distinct pixel formats get distinct codes; so when the dimensions
/// fit in 32 bits the kernel reads back exactly the chosen width, height
/// and stride.
pub proof fn lemma_boot_info_records_mode(
    framebuffer_addr: u64,
    framebuffer_size: u64,
    width: usize,
    height: usize,
    stride: usize,
    format: PixelFormat,
)
    ensures
        records_mode(
            framebuffer_boot_info_of(framebuffer_addr, framebuffer_size, width, height, stride, format),
            framebuffer_addr,
            framebuffer_size,
            width,
            height,
            stride,
            format,
        ),
        forall|a: PixelFormat, b: PixelFormat| a != b ==> format_code_of(a) != format_code_of(b),
        width <= u32::MAX && height <= u32::MAX && stride <= u32::MAX ==> ({
            let info = framebuffer_boot_info_of(framebuffer_addr, framebuffer_size, width, height, stride, format);
            info.framebuffer_width == width && info.framebuffer_height == height
                && info.framebuffer_stride == stride
        }),
{
}

/// Records where the kernel and userspace images were loaded.
pub fn record_images(boot_info: &mut BootInfo, kernel_start: u64, kernel_size: u64, userspace: UserspaceImage)
    ensures
        *final(boot_info) == (BootInfo {
            kernel_image_addr: kernel_start,
            kernel_image_size: kernel_size,
            userspace_image_addr: userspace.address,
            userspace_image_size: userspace.size,
            ..*old(boot_info)
        }),
{
    boot_info.kernel_image_addr = kernel_start;
    boot_info.kernel_image_size = kernel_size;
    boot_info.userspace_image_addr = userspace.address;
    boot_info.userspace_image_size = userspace.size;
}

/// Records the final firmware memory map; sizes keep their low bits.
pub fn record_memory_map(
    boot_info: &mut BootInfo,
    map_addr: u64,
    map_size: usize,
    descriptor_size: usize,
    descriptor_version: u32,
)
    ensures
        *final(boot_info) == (BootInfo {
            memory_map_addr: map_addr,
            memory_map_size: map_size as u64,
            memory_map_descriptor_size: descriptor_size as u32,
            memory_map_descriptor_version: descriptor_version,
            ..*old(boot_info)
        }),
{
    boot_info.memory_map_addr = map_addr;
    boot_info.memory_map_size = map_size as u64;
    boot_info.memory_map_descriptor_size = descriptor_size as u32;
    boot_info.memory_map_descriptor_version = descriptor_version;
}

/// Law: boot information the bootloader builds from a firmware mode carries
/// the protocol version the kernel accepts, and the kernel judges it Ready
/// unless a framebuffer field is zero (Error): never the unknown-format
/// Warning. Recording the images and the memory map keeps that judgement.
pub proof fn lemma_handoff_accepted(
    framebuffer_addr: u64,
    framebuffer_size: u64,
    width: usize,
    height: usize,
    stride: usize,
    format: PixelFormat,
    kernel_start: u64,
    kernel_size: u64,
    userspace: UserspaceImage,
    map_addr: u64,
    map_size: usize,
    descriptor_size: usize,
    descriptor_version: u32,
)
    ensures
        ({
            let info = framebuffer_boot_info_of(framebuffer_addr, framebuffer_size, width, height, stride, format);
            let full = BootInfo {
                kernel_image_addr: kernel_start,
                kernel_image_size: kernel_size,
                userspace_image_addr: userspace.address,
                userspace_image_size: userspace.size,
                memory_map_addr: map_addr,
                memory_map_size: map_size as u64,
                memory_map_descriptor_size: descriptor_size as u32,
                memory_map_descriptor_version: descriptor_version,
                ..info
            };
            &&& full.version == BOOT_PROTOCOL_VERSION
            &&& boot_state_of(full) == boot_state_of(info)
            &&& boot_state_of(info) == if framebuffer_missing(info) { BootState::Error } else { BootState::Ready }
        }),
{
}

} // verus!
