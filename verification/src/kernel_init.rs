//! Checks the kernel makes on the boot information before using it.
use vstd::prelude::*;
use crate::boot_protocol::{BootInfo, BOOT_PROTOCOL_VERSION};

verus! {

/// Why the kernel refuses the boot information.
#[derive(Clone, Copy, PartialEq, Eq, Structural)]
pub enum BootInfoError {
    /// The bootloader passed no boot information.
    Missing,
    /// The boot information has another protocol version.
    UnsupportedVersion,
}

/// Accepts boot information of the current protocol version.
pub fn validate_boot_info(boot_info: Option<&BootInfo>) -> (r: Result<&BootInfo, BootInfoError>)
    ensures
        match boot_info {
            None => r == Err::<&BootInfo, BootInfoError>(BootInfoError::Missing),
            Some(info) => if info.version == BOOT_PROTOCOL_VERSION {
                r is Ok && *r->Ok_0 == *info
            } else {
                r == Err::<&BootInfo, BootInfoError>(BootInfoError::UnsupportedVersion)
            },
        },
{
    match boot_info {
        None => Err(BootInfoError::Missing),
        Some(info) => {
            if info.version != BOOT_PROTOCOL_VERSION {
                Err(BootInfoError::UnsupportedVersion)
            } else {
                Ok(info)
            }
        },
    }
}

/// Why the userspace image cannot be read in place.
#[derive(Clone, Copy, PartialEq, Eq, Structural)]
pub enum UserspaceImageError {
    /// The image size does not fit in a `usize`.
    SizeOverflow,
    /// The image end overflows the address space.
    AddressOverflow,
    /// The image ends beyond the identity-mapped region.
    OutsideIdentityMap,
}

pub open spec fn userspace_image_len_of(info: BootInfo, identity_map_size: u64) -> Result<usize, UserspaceImageError> {
    if info.userspace_image_size > usize::MAX {
        Err(UserspaceImageError::SizeOverflow)
    } else if info.userspace_image_addr + info.userspace_image_size > u64::MAX {
        Err(UserspaceImageError::AddressOverflow)
    } else if info.userspace_image_addr + info.userspace_image_size > identity_map_size {
        Err(UserspaceImageError::OutsideIdentityMap)
    } else {
        Ok(info.userspace_image_size as usize)
    }
}

/// The length of the userspace image when it can be read through the
/// identity map of `identity_map_size` bytes.
pub fn userspace_image_len(boot_info: &BootInfo, identity_map_size: u64) -> (r: Result<usize, UserspaceImageError>)
    ensures
        r == userspace_image_len_of(*boot_info, identity_map_size),
        r is Ok <==> boot_info.userspace_image_size <= usize::MAX && boot_info.userspace_image_addr
            + boot_info.userspace_image_size <= identity_map_size,
        r is Ok ==> r->Ok_0 == boot_info.userspace_image_size,
{
    if boot_info.userspace_image_size > usize::MAX as u64 {
        return Err(UserspaceImageError::SizeOverflow);
    }
    let size = boot_info.userspace_image_size as usize;
    let end = match boot_info.userspace_image_addr.checked_add(boot_info.userspace_image_size) {
        Some(end) => end,
        None => return Err(UserspaceImageError::AddressOverflow),
    };
    if end > identity_map_size {
        return Err(UserspaceImageError::OutsideIdentityMap);
    }
    Ok(size)
}

} // verus!
