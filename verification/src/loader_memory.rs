//! Sizes and addresses the bootloader computes around its firmware page
//! allocations: the userspace image, the kernel stack, the kernel image.
use vstd::prelude::*;
use crate::elf::{align_up, lemma_page_size_is_power_of_two, round_up, PAGE_SIZE};

verus! {

/// Pages of the kernel stack the bootloader allocates.
pub const KERNEL_STACK_PAGES: usize = 4;

/// Highest physical address the userspace image may be placed below.
pub const MAX_USERSPACE_PHYSICAL_ADDRESS: u64 = 0xFFFF_FFFF;

/// Where the userspace ELF image was copied, and its size in bytes.
#[derive(Clone, Copy, PartialEq, Eq, Structural)]
pub struct UserspaceImage {
    pub address: u64,
    pub size: u64,
}

/// The kernel stack: `base` is its lowest address, `top` one past its end.
#[derive(Clone, Copy, PartialEq, Eq, Structural)]
pub struct KernelStack {
    pub base: u64,
    pub top: u64,
}

/// The page-rounded byte size and page count of a userspace image, or `None`
/// when it is empty or does not fit.
pub open spec fn userspace_layout_of(size: u64) -> Option<(u64, usize)> {
    let rounded = round_up(size as int, PAGE_SIZE as int);
    if size == 0 || size + PAGE_SIZE - 1 > u64::MAX || rounded / PAGE_SIZE as int > usize::MAX {
        None
    } else {
        Some((rounded as u64, (rounded / PAGE_SIZE as int) as usize))
    }
}

/// The memory a userspace image of `userspace_size` bytes needs:
/// `(bytes rounded up to whole pages, number of pages)`. `Err` for an empty
/// image or when the rounded size or page count overflows.
pub fn userspace_layout(userspace_size: u64) -> (r: Result<(u64, usize), ()>)
    ensures
        match userspace_layout_of(userspace_size) {
            Some(t) => r == Ok::<(u64, usize), ()>(t),
            None => r is Err,
        },
        userspace_size == 0 ==> r is Err,
        r is Ok ==> ({
            let (bytes, pages) = r->Ok_0;
            &&& pages > 0
            &&& bytes == pages * PAGE_SIZE
            &&& userspace_size <= bytes < userspace_size + PAGE_SIZE
        }),
{
    proof {
        if userspace_layout_of(userspace_size) is Some {
            let t = userspace_layout_of(userspace_size)->0;
            lemma_userspace_layout_fits(userspace_size, t.0, t.1);
        }
    }
    if userspace_size == 0 {
        return Err(());
    }
    proof {
        lemma_page_size_is_power_of_two();
    }
    let userspace_pages_size = match align_up(userspace_size, PAGE_SIZE) {
        Some(size) => size,
        None => return Err(()),
    };
    let pages = userspace_pages_size / PAGE_SIZE;
    if pages > usize::MAX as u64 || pages == 0 {
        return Err(());
    }
    Ok((userspace_pages_size, pages as usize))
}

/// Law: an accepted userspace layout holds the whole image in whole pages,
/// with less than one page to spare.
pub proof fn lemma_userspace_layout_fits(size: u64, bytes: u64, pages: usize)
    requires
        userspace_layout_of(size) == Some((bytes, pages)),
    ensures
        pages > 0,
        bytes == pages * PAGE_SIZE,
        size <= bytes < size + PAGE_SIZE,
{
    let a = PAGE_SIZE as int;
    let v = size + a - 1;
    vstd::arithmetic::div_mod::lemma_fundamental_div_mod(v, a);
    vstd::arithmetic::mul::lemma_mul_is_commutative(v / a, a);
}

/// The kernel stack that starts at `stack_base`; `Err` when its top would
/// overflow the address space.
pub fn kernel_stack_at(stack_base: u64) -> (r: Result<KernelStack, ()>)
    ensures
        stack_base + KERNEL_STACK_PAGES * PAGE_SIZE <= u64::MAX ==>
            r == Ok::<KernelStack, ()>(KernelStack { base: stack_base, top: (stack_base + KERNEL_STACK_PAGES * PAGE_SIZE) as u64 }),
        stack_base + KERNEL_STACK_PAGES * PAGE_SIZE > u64::MAX ==> r is Err,
{
    let stack_size: u64 = match (KERNEL_STACK_PAGES as u64).checked_mul(PAGE_SIZE) {
        Some(size) => size,
        None => return Err(()),
    };
    match stack_base.checked_add(stack_size) {
        Some(top) => Ok(KernelStack { base: stack_base, top }),
        None => Err(()),
    }
}

/// The kernel image must be placed exactly at the address it was linked for.
pub fn check_kernel_allocation(allocated_address: u64, kernel_start: u64) -> (r: Result<(), ()>)
    ensures
        r is Ok <==> allocated_address == kernel_start,
{
    if allocated_address != kernel_start {
        Err(())
    } else {
        Ok(())
    }
}

} // verus!
