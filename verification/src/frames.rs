//! The physical frame map built at boot from the firmware memory map: which
//! 4 KiB frames are in use and which are free for allocation.
//!
//! The map covers frames `0 .. frame_count`; marking a frame outside that
//! range changes nothing, and such a frame reads as used. The map needs one
//! bit per frame, rounded up to whole pages, and is placed in the first
//! conventional region that does not start at address 0 and is large enough.
use vstd::prelude::*;

verus! {

/// Size of a physical frame, in bytes.
pub const PAGE_SIZE: u64 = 4096;

/// Firmware memory type of memory free for the operating system.
pub const CONVENTIONAL_MEMORY: u32 = 7;

/// One entry of the firmware memory map.
#[derive(Clone, Copy, PartialEq, Eq, Structural)]
pub struct MemoryDescriptor {
    pub ty: u32,
    pub physical_start: u64,
    pub number_of_pages: u64,
}

/// Whether a range of `pages` frames starting at physical address `start`
/// contains frame `frame`.
pub open spec fn range_covers(start: u64, pages: u64, frame: int) -> bool {
    start / PAGE_SIZE <= frame < start / PAGE_SIZE + pages
}

/// Whether some conventional-memory descriptor among the first `n` covers `frame`.
pub open spec fn conventional_covers(descriptors: Seq<MemoryDescriptor>, n: int, frame: int) -> bool {
    exists|i: int| 0 <= i < n && (#[trigger] descriptors[i]).ty == CONVENTIONAL_MEMORY
        && range_covers(descriptors[i].physical_start, descriptors[i].number_of_pages, frame)
}

/// Used/free state of each physical frame (`true` = used).
pub struct FrameMap {
    used: Vec<bool>,
}

impl FrameMap {
    pub closed spec fn frames(&self) -> Seq<bool> {
        self.used@
    }

    /// A map of `frame_count` frames, all in use.
    pub fn all_used(frame_count: usize) -> (r: Self)
        ensures
            r.frames() == Seq::new(frame_count as nat, |i: int| true),
    {
        let mut used: Vec<bool> = Vec::new();
        let mut i: usize = 0;
        while i < frame_count
            invariant
                i <= frame_count,
                used@ == Seq::new(i as nat, |k: int| true),
            decreases frame_count - i,
        {
            used.push(true);
            i = i + 1;
            assert(used@ =~= Seq::new(i as nat, |k: int| true));
        }
        FrameMap { used }
    }

    /// Number of frames covered.
    pub fn frame_count(&self) -> (r: usize)
        ensures
            r == self.frames().len(),
    {
        self.used.len()
    }

    /// Marks `frame` used.
    pub fn set(&mut self, frame: u64)
        ensures
            final(self).frames() == if frame < old(self).frames().len() {
                old(self).frames().update(frame as int, true)
            } else {
                old(self).frames()
            },
    {
        if frame < self.used.len() as u64 {
            self.used.set(frame as usize, true);
        }
    }

    /// Whether `frame` is used; frames beyond the map count as used.
    pub fn is_used(&self, frame: u64) -> (r: bool)
        ensures
            r == (frame >= self.frames().len() || self.frames()[frame as int]),
    {
        if frame < self.used.len() as u64 {
            self.used[frame as usize]
        } else {
            true
        }
    }

    /// Marks free the `pages` frames starting at physical address `physical_start`.
    pub fn mark_free_range(&mut self, physical_start: u64, pages: u64)
        ensures
            final(self).frames().len() == old(self).frames().len(),
            forall|f: int| 0 <= f < old(self).frames().len() ==> #[trigger] final(self).frames()[f] == (
                old(self).frames()[f] && !range_covers(physical_start, pages, f)),
    {
        let first = physical_start / PAGE_SIZE;
        let count = self.used.len();
        if first >= count as u64 {
            return;
        }
        let first = first as usize;
        let available = (count - first) as u64;
        let end: usize = if pages < available { first + pages as usize } else { count };
        let mut f = first;
        let ghost before = self.used@;
        while f < end
            invariant
                first <= f <= end <= count,
                self.used@.len() == count,
                before.len() == count,
                first == physical_start / PAGE_SIZE,
                end as int == if pages < available { first + pages } else { count as int },
                available == count - first,
                forall|g: int| 0 <= g < count ==> #[trigger] self.used@[g] == (before[g] && !(first <= g < f)),
            decreases end - f,
        {
            self.used.set(f, false);
            f = f + 1;
        }
    }
}

/// Whether frame `f` holds some byte of `[address, address + size)`.
pub open spec fn byte_range_covers(address: u64, size: u64, f: int) -> bool {
    address / PAGE_SIZE <= f && f * PAGE_SIZE < address + size
}

impl FrameMap {
    /// Marks used every frame holding a byte of `[address, address + size)`.
    /// Fails, changing nothing, when the range overflows the address space or
    /// reaches past the frames the map covers.
    pub fn reserve_range(&mut self, address: u64, size: u64) -> (r: Result<(), ()>)
        ensures
            final(self).frames().len() == old(self).frames().len(),
            r is Ok <==> (address + size <= u64::MAX && (address + size + PAGE_SIZE - 1) / PAGE_SIZE as int
                <= old(self).frames().len()),
            r is Err ==> final(self).frames() == old(self).frames(),
            r is Ok ==> forall|f: int| 0 <= f < old(self).frames().len() ==> #[trigger] final(self).frames()[f] == (
                old(self).frames()[f] || byte_range_covers(address, size, f)),
    {
        let end = match address.checked_add(size) {
            Some(end) => end,
            None => return Err(()),
        };
        let last_frame: u64 = end / PAGE_SIZE + if end % PAGE_SIZE == 0 { 0 } else { 1 };
        let count = self.used.len();
        if last_frame > count as u64 {
            return Err(());
        }
        let first = address / PAGE_SIZE;
        let mut f: u64 = first;
        let ghost before = self.used@;
        proof {
            assert(last_frame == (address + size + PAGE_SIZE - 1) / PAGE_SIZE as int);
            assert(address / 4096 <= (end + 4095) / 4096) by (nonlinear_arith)
                requires
                    address <= end,
            {
                vstd::arithmetic::div_mod::lemma_div_is_ordered(address as int, end + 4095, 4096);
            }
        }
        while f < last_frame
            invariant
                first <= f <= last_frame,
                first == address / PAGE_SIZE,
                last_frame <= count,
                end == address + size,
                last_frame == (end + PAGE_SIZE - 1) / PAGE_SIZE as int,
                self.used@.len() == count,
                before.len() == count,
                forall|g: int| 0 <= g < count ==> #[trigger] self.used@[g] == (before[g] || (first <= g < f)),
            decreases last_frame - f,
        {
            self.used.set(f as usize, true);
            f = f + 1;
        }
        proof {
            assert forall|g: int| 0 <= g < count implies (first <= g < f) == byte_range_covers(address, size, g) by {
                if first <= g {
                    vstd::arithmetic::div_mod::lemma_fundamental_div_mod(end + 4095, 4096);
                    assert((g < last_frame) == (g * PAGE_SIZE < end)) by (nonlinear_arith)
                        requires
                            last_frame == (end + 4095) / 4096,
                            end + 4095 == 4096 * ((end + 4095) / 4096) + (end + 4095) % 4096,
                            0 <= (end + 4095) % 4096 < 4096,
                            g >= 0,
                            end >= 0,
                    {
                    }
                }
            }
        }
        Ok(())
    }
}

/// Why the boot-time frame map is rejected.
#[derive(Clone, Copy, PartialEq, Eq, Structural)]
pub enum FrameMapError {
    FrameZeroNotReserved,
    BitmapFirstFrameNotReserved,
    BitmapLastFrameNotReserved,
    /// The userspace image's frames could not be reserved.
    UserspaceReservationFailed,
    /// No conventional memory, or a conventional region ends past the
    /// address space.
    NoConventionalMemory,
    /// The frame count does not fit in a `usize`.
    FrameCountOverflow,
    /// No conventional region can hold the map.
    BitmapRegionNotFound,
}

/// Whether frame `f` is free once the map is built: in conventional memory,
/// not holding the map itself, not holding the userspace image
/// `(address, size)` (no image when the size is 0), and not frame 0.
pub open spec fn boot_frame_free(
    descriptors: Seq<MemoryDescriptor>,
    bitmap_first: int,
    bitmap_pages: int,
    image: (u64, u64),
    f: int,
) -> bool {
    &&& f != 0
    &&& !(bitmap_first <= f < bitmap_first + bitmap_pages)
    &&& !(image.1 != 0 && byte_range_covers(image.0, image.1, f))
    &&& conventional_covers(descriptors, descriptors.len() as int, f)
}

/// Whether the userspace image `(address, size)` can be reserved in a map
/// of `frame_count` frames.
pub open spec fn image_reservable(image: (u64, u64), frame_count: int) -> bool {
    image.1 == 0 || (image.0 + image.1 <= u64::MAX && (image.0 + image.1 + PAGE_SIZE - 1) / PAGE_SIZE as int
        <= frame_count)
}

/// What `boot_frame_map` gives for a map of `frame_count` frames stored in
/// `bitmap_pages` pages at `bitmap_address`: the map of `boot_frame_free`,
/// or the first check that fails.
pub open spec fn boot_map_outcome(
    r: Result<FrameMap, FrameMapError>,
    frame_count: int,
    descriptors: Seq<MemoryDescriptor>,
    bitmap_address: u64,
    bitmap_pages: int,
    userspace_image: (u64, u64),
) -> bool {
    let first = bitmap_address / PAGE_SIZE;
    let last = first + bitmap_pages - 1;
    match r {
        Ok(map) => {
            &&& map.frames().len() == frame_count
            &&& forall|f: int| 0 <= f < frame_count ==> #[trigger] map.frames()[f] == !boot_frame_free(
                descriptors,
                first as int,
                bitmap_pages as int,
                userspace_image,
                f,
            )
            &&& frame_count > 0 && last < frame_count
            &&& image_reservable(userspace_image, frame_count)
        },
        Err(e) => if frame_count == 0 {
            e == FrameMapError::FrameZeroNotReserved
        } else if first >= frame_count {
            e == FrameMapError::BitmapFirstFrameNotReserved
        } else if last >= frame_count {
            e == FrameMapError::BitmapLastFrameNotReserved
        } else {
            e == FrameMapError::UserspaceReservationFailed && !image_reservable(
                userspace_image,
                frame_count,
            )
        },
    }
}

/// Builds the frame map of `frame_count` frames: every frame used, then the
/// conventional-memory ranges freed, then the frames of the map's own
/// storage (`bitmap_pages` pages at `bitmap_address`) and frame 0 reserved.
/// Fails when frame 0 or the first or last storage frame is not marked used
/// afterwards. Last, the frames of the userspace image `(address, size)`
/// are reserved when its size is not 0; failing that fails the map.
pub fn boot_frame_map(
    frame_count: usize,
    descriptors: &[MemoryDescriptor],
    bitmap_address: u64,
    bitmap_pages: u64,
    userspace_image: (u64, u64),
) -> (r: Result<FrameMap, FrameMapError>)
    requires
        bitmap_pages >= 1,
        bitmap_address / PAGE_SIZE + bitmap_pages <= u64::MAX,
    ensures
        boot_map_outcome(r, frame_count as int, descriptors@, bitmap_address, bitmap_pages as int, userspace_image),
{
    let mut map = FrameMap::all_used(frame_count);
    let mut index: usize = 0;
    while index < descriptors.len()
        invariant
            index <= descriptors.len(),
            map.frames().len() == frame_count,
            forall|f: int| 0 <= f < frame_count ==> #[trigger] map.frames()[f] == !conventional_covers(
                descriptors@,
                index as int,
                f,
            ),
        decreases descriptors.len() - index,
    {
        let descriptor = descriptors[index];
        let ghost before = map.frames();
        if descriptor.ty == CONVENTIONAL_MEMORY {
            map.mark_free_range(descriptor.physical_start, descriptor.number_of_pages);
        }
        proof {
            assert forall|f: int| 0 <= f < frame_count implies #[trigger] map.frames()[f] == !conventional_covers(
                descriptors@,
                index + 1,
                f,
            ) by {
                if conventional_covers(descriptors@, index as int, f) {
                    let i = choose|i: int| 0 <= i < index && (#[trigger] descriptors@[i]).ty == CONVENTIONAL_MEMORY
                        && range_covers(descriptors@[i].physical_start, descriptors@[i].number_of_pages, f);
                    assert(0 <= i < index + 1);
                }
                if descriptors@[index as int].ty == CONVENTIONAL_MEMORY && range_covers(
                    descriptor.physical_start,
                    descriptor.number_of_pages,
                    f,
                ) {
                    assert(descriptors@[index as int] == descriptor);
                }
                if conventional_covers(descriptors@, index + 1, f) {
                    let i = choose|i: int| 0 <= i < index + 1 && (#[trigger] descriptors@[i]).ty == CONVENTIONAL_MEMORY
                        && range_covers(descriptors@[i].physical_start, descriptors@[i].number_of_pages, f);
                    if i < index {
                        assert(conventional_covers(descriptors@, index as int, f));
                    }
                }
            }
        }
        index = index + 1;
    }
    let bitmap_frame = bitmap_address / PAGE_SIZE;
    let mut k: u64 = 0;
    while k < bitmap_pages
        invariant
            k <= bitmap_pages,
            bitmap_frame == bitmap_address / PAGE_SIZE,
            bitmap_frame + bitmap_pages <= u64::MAX,
            map.frames().len() == frame_count,
            forall|f: int| 0 <= f < frame_count ==> #[trigger] map.frames()[f] == (!conventional_covers(
                descriptors@,
                descriptors@.len() as int,
                f,
            ) || (bitmap_frame <= f < bitmap_frame + k)),
        decreases bitmap_pages - k,
    {
        map.set(bitmap_frame + k);
        k = k + 1;
    }
    map.set(0);
    if !map.is_used(0) || frame_count == 0 {
        return Err(FrameMapError::FrameZeroNotReserved);
    }
    if !map.is_used(bitmap_frame) || bitmap_frame >= frame_count as u64 {
        return Err(FrameMapError::BitmapFirstFrameNotReserved);
    }
    let bitmap_last_frame = bitmap_frame + bitmap_pages - 1;
    if !map.is_used(bitmap_last_frame) || bitmap_last_frame >= frame_count as u64 {
        return Err(FrameMapError::BitmapLastFrameNotReserved);
    }
    let (image_address, image_size) = userspace_image;
    if image_size != 0 {
        if map.reserve_range(image_address, image_size).is_err() {
            return Err(FrameMapError::UserspaceReservationFailed);
        }
    }
    Ok(map)
}


/// Law: in a boot frame map frame 0, every frame holding the map itself and
/// every frame holding a byte of the userspace image are reserved, and only
/// conventional memory is ever free.
pub proof fn lemma_boot_map_reservations(
    descriptors: Seq<MemoryDescriptor>,
    bitmap_first: int,
    bitmap_pages: int,
    image: (u64, u64),
    f: int,
)
    ensures
        !boot_frame_free(descriptors, bitmap_first, bitmap_pages, image, 0),
        bitmap_first <= f < bitmap_first + bitmap_pages ==> !boot_frame_free(descriptors, bitmap_first, bitmap_pages, image, f),
        image.1 != 0 && image.0 <= f * PAGE_SIZE + PAGE_SIZE - 1 && f * PAGE_SIZE < image.0 + image.1 ==> !boot_frame_free(
            descriptors,
            bitmap_first,
            bitmap_pages,
            image,
            f,
        ),
        boot_frame_free(descriptors, bitmap_first, bitmap_pages, image, f) ==> exists|i: int| 0 <= i < descriptors.len()
            && (#[trigger] descriptors[i]).ty == CONVENTIONAL_MEMORY
            && range_covers(descriptors[i].physical_start, descriptors[i].number_of_pages, f),
{
}

/// Size in bytes of one firmware memory descriptor as laid out in memory
/// (the stride between descriptors may be larger).
pub const MEMORY_DESCRIPTOR_BYTES: usize = 40;

/// Little-endian value of eight bytes.
pub open spec fn le_u64(b: Seq<u8>) -> u64 {
    (b[0] as u64) | ((b[1] as u64) << 8u64) | ((b[2] as u64) << 16u64) | ((b[3] as u64) << 24u64)
        | ((b[4] as u64) << 32u64) | ((b[5] as u64) << 40u64) | ((b[6] as u64) << 48u64) | ((b[7] as u64) << 56u64)
}

/// Little-endian value of four bytes.
pub open spec fn le_u32(b: Seq<u8>) -> u32 {
    (b[0] as u32) | ((b[1] as u32) << 8u32) | ((b[2] as u32) << 16u32) | ((b[3] as u32) << 24u32)
}

fn read_u64(bytes: &[u8], at: usize) -> (r: u64)
    requires
        at + 8 <= bytes@.len(),
    ensures
        r == le_u64(bytes@.subrange(at as int, at + 8)),
{
    (bytes[at] as u64) | ((bytes[at + 1] as u64) << 8u64) | ((bytes[at + 2] as u64) << 16u64)
        | ((bytes[at + 3] as u64) << 24u64) | ((bytes[at + 4] as u64) << 32u64) | ((bytes[at + 5] as u64) << 40u64)
        | ((bytes[at + 6] as u64) << 48u64) | ((bytes[at + 7] as u64) << 56u64)
}

fn read_u32(bytes: &[u8], at: usize) -> (r: u32)
    requires
        at + 4 <= bytes@.len(),
    ensures
        r == le_u32(bytes@.subrange(at as int, at + 4)),
{
    (bytes[at] as u32) | ((bytes[at + 1] as u32) << 8u32) | ((bytes[at + 2] as u32) << 16u32)
        | ((bytes[at + 3] as u32) << 24u32)
}

/// The descriptor stored at byte `offset` of a firmware memory map: type at
/// offset 0, physical start at 8, page count at 24.
pub open spec fn descriptor_at_spec(bytes: Seq<u8>, offset: int) -> MemoryDescriptor {
    MemoryDescriptor {
        ty: le_u32(bytes.subrange(offset, offset + 4)),
        physical_start: le_u64(bytes.subrange(offset + 8, offset + 16)),
        number_of_pages: le_u64(bytes.subrange(offset + 24, offset + 32)),
    }
}

/// Reads descriptor `index` of a memory map whose descriptors are
/// `descriptor_size` bytes apart; `None` when it is not wholly inside the map
/// or the stride is too small to hold a descriptor.
pub fn memory_descriptor(map: &[u8], descriptor_size: usize, index: usize) -> (r: Option<MemoryDescriptor>)
    ensures
        descriptor_size >= MEMORY_DESCRIPTOR_BYTES && index * descriptor_size + MEMORY_DESCRIPTOR_BYTES <= map@.len()
            ==> r == Some(descriptor_at_spec(map@, index * descriptor_size)),
        !(descriptor_size >= MEMORY_DESCRIPTOR_BYTES && index * descriptor_size + MEMORY_DESCRIPTOR_BYTES <= map@.len())
            ==> r is None,
{
    if descriptor_size < MEMORY_DESCRIPTOR_BYTES {
        return None;
    }
    assert(map@.len() == map.len());
    let offset = match index.checked_mul(descriptor_size) {
        Some(o) => o,
        None => return None,
    };
    if offset > map.len() || map.len() - offset < MEMORY_DESCRIPTOR_BYTES {
        return None;
    }
    Some(MemoryDescriptor {
        ty: read_u32(map, offset),
        physical_start: read_u64(map, offset + 8),
        number_of_pages: read_u64(map, offset + 24),
    })
}

/// Number of whole descriptors in a map of `map_size` bytes.
pub fn memory_descriptor_count(map_size: usize, descriptor_size: usize) -> (r: usize)
    ensures
        descriptor_size == 0 ==> r == 0,
        descriptor_size > 0 ==> r == map_size / descriptor_size,
{
    if descriptor_size == 0 {
        0
    } else {
        map_size / descriptor_size
    }
}

/// Number of frames needed to cover addresses `0 .. address`.
pub fn frame_count_for_address(address: u64) -> (r: Option<usize>)
    ensures
        (address as int + PAGE_SIZE - 1) / PAGE_SIZE as int <= usize::MAX ==> r == Some(
            ((address as int + PAGE_SIZE - 1) / PAGE_SIZE as int) as usize,
        ),
        (address as int + PAGE_SIZE - 1) / PAGE_SIZE as int > usize::MAX ==> r is None,
        r is Some ==> r->0 * PAGE_SIZE >= address && (r->0 == 0 || (r->0 - 1) * PAGE_SIZE < address),
{
    proof {
        let n = (address as int + 4095) / 4096;
        vstd::arithmetic::div_mod::lemma_fundamental_div_mod(address as int + 4095, 4096);
        assert(n * 4096 >= address && (n == 0 || (n - 1) * 4096 < address)) by (nonlinear_arith)
            requires
                address + 4095 == 4096 * n + (address + 4095) % 4096,
                0 <= (address + 4095) % 4096 < 4096,
                address >= 0,
        ;
    }
    let frames = address / PAGE_SIZE + if address % PAGE_SIZE == 0 { 0 } else { 1 };
    if frames > usize::MAX as u64 {
        None
    } else {
        Some(frames as usize)
    }
}

/// Pages needed for a map of `frame_count` frames, one bit per frame.
pub fn bitmap_page_count(frame_count: usize) -> (r: usize)
    ensures
        r as int == ((frame_count as int + 7) / 8 + PAGE_SIZE - 1) / PAGE_SIZE as int,
        r * PAGE_SIZE * 8 >= frame_count,
        r == 0 || (r - 1) * PAGE_SIZE * 8 < frame_count,
{
    proof {
        let b = (frame_count as int + 7) / 8;
        let p = (b + 4095) / 4096;
        vstd::arithmetic::div_mod::lemma_fundamental_div_mod(frame_count as int + 7, 8);
        vstd::arithmetic::div_mod::lemma_fundamental_div_mod(b + 4095, 4096);
        assert(p * 4096 * 8 >= frame_count && (p == 0 || (p - 1) * 4096 * 8 < frame_count)) by (nonlinear_arith)
            requires
                frame_count + 7 == 8 * b + (frame_count + 7) % 8,
                0 <= (frame_count + 7) % 8 < 8,
                b + 4095 == 4096 * p + (b + 4095) % 4096,
                0 <= (b + 4095) % 4096 < 4096,
                frame_count >= 0,
                b >= 0,
        ;
    }
    let bytes = frame_count / 8 + if frame_count % 8 == 0 { 0 } else { 1 };
    bytes / 4096 + if bytes % 4096 == 0 { 0 } else { 1 }
}


/// First address past a descriptor's range.
pub open spec fn region_end(d: MemoryDescriptor) -> int {
    d.physical_start + d.number_of_pages * PAGE_SIZE
}

pub open spec fn is_conventional(d: MemoryDescriptor) -> bool {
    d.ty == CONVENTIONAL_MEMORY
}

/// Highest end of the conventional regions among the descriptors (0 when
/// there is none).
pub open spec fn highest_conventional_end(descs: Seq<MemoryDescriptor>) -> int
    decreases descs.len(),
{
    if descs.len() == 0 {
        0
    } else {
        let rest = highest_conventional_end(descs.drop_last());
        let d = descs.last();
        if is_conventional(d) && region_end(d) > rest {
            region_end(d)
        } else {
            rest
        }
    }
}

pub open spec fn has_conventional(descs: Seq<MemoryDescriptor>) -> bool {
    exists|i: int| 0 <= i < descs.len() && is_conventional(#[trigger] descs[i])
}

pub open spec fn conventional_ends_fit(descs: Seq<MemoryDescriptor>) -> bool {
    forall|i: int| 0 <= i < descs.len() && is_conventional(#[trigger] descs[i]) ==> region_end(descs[i]) <= u64::MAX
}

/// The end of the highest conventional region; `None` without conventional
/// memory or when a conventional region ends past the address space.
pub fn highest_conventional_address(descriptors: &[MemoryDescriptor]) -> (r: Option<u64>)
    ensures
        has_conventional(descriptors@) && conventional_ends_fit(descriptors@) ==> r == Some(
            highest_conventional_end(descriptors@) as u64,
        ),
        !(has_conventional(descriptors@) && conventional_ends_fit(descriptors@)) ==> r is None,
{
    let mut highest: u64 = 0;
    let mut found = false;
    let mut i: usize = 0;
    proof {
        assert(descriptors@.take(0) =~= Seq::<MemoryDescriptor>::empty());
    }
    while i < descriptors.len()
        invariant
            i <= descriptors@.len(),
            highest == highest_conventional_end(descriptors@.take(i as int)),
            found == has_conventional(descriptors@.take(i as int)),
            conventional_ends_fit(descriptors@.take(i as int)),
        decreases descriptors.len() - i,
    {
        let d = descriptors[i];
        let ghost prefix = descriptors@.take(i as int);
        let ghost next = descriptors@.take(i as int + 1);
        proof {
            assert(next.drop_last() =~= prefix);
            assert(next.last() == d);
        }
        if d.ty == CONVENTIONAL_MEMORY {
            let end = match d.number_of_pages.checked_mul(PAGE_SIZE) {
                Some(bytes) => match d.physical_start.checked_add(bytes) {
                    Some(end) => end,
                    None => {
                        proof {
                            assert(descriptors@[i as int] == d);
                        }
                        return None;
                    },
                },
                None => {
                    proof {
                        assert(descriptors@[i as int] == d);
                        assert(region_end(d) > u64::MAX) by (nonlinear_arith)
                            requires
                                d.number_of_pages * PAGE_SIZE > u64::MAX,
                                d.physical_start >= 0,
                        ;
                    }
                    return None;
                },
            };
            if end > highest {
                highest = end;
            }
            found = true;
            proof {
                assert(next[i as int] == d);
            }
        }
        proof {
            assert forall|k: int| 0 <= k < next.len() && is_conventional(#[trigger] next[k]) implies region_end(next[k]) <= u64::MAX by {
                if k < i {
                    assert(next[k] == prefix[k]);
                }
            }
            if has_conventional(prefix) {
                let k = choose|k: int| 0 <= k < prefix.len() && is_conventional(#[trigger] prefix[k]);
                assert(next[k] == prefix[k]);
            }
            if has_conventional(next) && !is_conventional(d) {
                let k = choose|k: int| 0 <= k < next.len() && is_conventional(#[trigger] next[k]);
                assert(prefix[k] == next[k]);
            }
        }
        i = i + 1;
    }
    proof {
        assert(descriptors@.take(descriptors.len() as int) =~= descriptors@);
    }
    if found {
        Some(highest)
    } else {
        None
    }
}

/// Whether a descriptor can hold the frame map: conventional, not starting
/// at address 0, and at least `size` bytes long.
pub open spec fn region_fits(d: MemoryDescriptor, size: u64) -> bool {
    is_conventional(d) && d.physical_start != 0 && d.number_of_pages * PAGE_SIZE >= size
}

/// The start of the first conventional region, in map order, that does not
/// start at address 0 and holds at least `size` bytes.
pub fn find_conventional_region(descriptors: &[MemoryDescriptor], size: u64) -> (r: Option<u64>)
    ensures
        match r {
            Some(addr) => exists|i: int| 0 <= i < descriptors@.len() && region_fits(#[trigger] descriptors@[i], size)
                && descriptors@[i].physical_start == addr
                && forall|j: int| 0 <= j < i ==> !region_fits(#[trigger] descriptors@[j], size),
            None => forall|j: int| 0 <= j < descriptors@.len() ==> !region_fits(#[trigger] descriptors@[j], size),
        },
{
    let mut i: usize = 0;
    while i < descriptors.len()
        invariant
            i <= descriptors@.len(),
            forall|j: int| 0 <= j < i ==> !region_fits(#[trigger] descriptors@[j], size),
        decreases descriptors.len() - i,
    {
        let d = descriptors[i];
        let large = match d.number_of_pages.checked_mul(PAGE_SIZE) {
            Some(bytes) => bytes >= size,
            None => true,
        };
        if d.ty == CONVENTIONAL_MEMORY && d.physical_start != 0 && large {
            assert(descriptors@[i as int] == d);
            return Some(d.physical_start);
        }
        i = i + 1;
    }
    None
}


/// Whether descriptor `i` is the first, in map order, that can hold `size`
/// bytes of frame map.
pub open spec fn is_first_fit(descs: Seq<MemoryDescriptor>, size: u64, i: int) -> bool {
    0 <= i < descs.len() && region_fits(descs[i], size) && forall|j: int| 0 <= j < i ==> !region_fits(
        #[trigger] descs[j],
        size,
    )
}

/// Start of the first region that can hold `size` bytes of frame map.
pub open spec fn bitmap_region_of(descs: Seq<MemoryDescriptor>, size: u64) -> Option<u64> {
    if exists|i: int| is_first_fit(descs, size, i) {
        Some(descs[choose|i: int| is_first_fit(descs, size, i)].physical_start)
    } else {
        None
    }
}

/// Number of frames covering addresses below `address`.
pub open spec fn frames_below(address: int) -> int {
    (address + PAGE_SIZE - 1) / PAGE_SIZE as int
}

/// Pages of a frame map with one bit for each of `frame_count` frames.
pub open spec fn bitmap_pages_for(frame_count: int) -> int {
    ((frame_count + 7) / 8 + PAGE_SIZE - 1) / PAGE_SIZE as int
}

/// The sizes the boot frame map is built with, from the firmware memory
/// map: `(frame_count, bitmap_address, bitmap_pages)`, the frames up to the
/// end of the highest conventional region and a map of one bit per frame
/// placed in the first region that holds it; or the first step that fails.
/// With no frame to cover, frame 0 cannot be reserved.
pub open spec fn boot_map_layout(descs: Seq<MemoryDescriptor>) -> Result<(int, u64, int), FrameMapError> {
    if !(has_conventional(descs) && conventional_ends_fit(descs)) {
        Err(FrameMapError::NoConventionalMemory)
    } else {
        let frame_count = frames_below(highest_conventional_end(descs));
        if frame_count > usize::MAX {
            Err(FrameMapError::FrameCountOverflow)
        } else {
            let pages = bitmap_pages_for(frame_count);
            match bitmap_region_of(descs, (pages * PAGE_SIZE) as u64) {
                None => Err(FrameMapError::BitmapRegionNotFound),
                Some(address) => if frame_count == 0 {
                    Err(FrameMapError::FrameZeroNotReserved)
                } else {
                    Ok((frame_count, address, pages))
                },
            }
        }
    }
}

proof fn lemma_highest_end_fits(descs: Seq<MemoryDescriptor>)
    requires
        conventional_ends_fit(descs),
    ensures
        0 <= highest_conventional_end(descs) <= u64::MAX,
    decreases descs.len(),
{
    if descs.len() > 0 {
        let rest = descs.drop_last();
        assert forall|i: int| 0 <= i < rest.len() && is_conventional(#[trigger] rest[i]) implies region_end(rest[i])
            <= u64::MAX by {
            assert(rest[i] == descs[i]);
        }
        lemma_highest_end_fits(rest);
        assert(descs.last() == descs[descs.len() - 1]);
    }
}

proof fn lemma_first_fit_unique(descs: Seq<MemoryDescriptor>, size: u64, i: int, k: int)
    requires
        is_first_fit(descs, size, i),
        is_first_fit(descs, size, k),
    ensures
        i == k,
{
    if i < k {
        assert(!region_fits(descs[i], size));
    } else if k < i {
        assert(!region_fits(descs[k], size));
    }
}

/// The boot frame map built from the firmware memory map and the userspace
/// image `(address, size)`: sized and placed as `boot_map_layout` says,
/// then filled and checked by `boot_frame_map`.
pub fn frame_map_from_descriptors(descriptors: &[MemoryDescriptor], userspace_image: (u64, u64)) -> (r: Result<
    FrameMap,
    FrameMapError,
>)
    ensures
        match boot_map_layout(descriptors@) {
            Err(e) => r == Err::<FrameMap, FrameMapError>(e),
            Ok((frame_count, address, pages)) => boot_map_outcome(
                r,
                frame_count,
                descriptors@,
                address,
                pages,
                userspace_image,
            ),
        },
{
    let highest = match highest_conventional_address(descriptors) {
        Some(address) => address,
        None => return Err(FrameMapError::NoConventionalMemory),
    };
    proof {
        lemma_highest_end_fits(descriptors@);
    }
    let frame_count = match frame_count_for_address(highest) {
        Some(count) => count,
        None => return Err(FrameMapError::FrameCountOverflow),
    };
    let bitmap_pages = bitmap_page_count(frame_count);
    proof {
        assert(bitmap_pages * 4096 <= u64::MAX) by (nonlinear_arith)
            requires
                bitmap_pages == ((frame_count + 7) / 8 + 4095) / 4096,
                frame_count <= u64::MAX,
        ;
    }
    let bitmap_bytes = bitmap_pages as u64 * PAGE_SIZE;
    let bitmap_address = match find_conventional_region(descriptors, bitmap_bytes) {
        Some(address) => address,
        None => {
            proof {
                if exists|i: int| is_first_fit(descriptors@, bitmap_bytes, i) {
                    let i = choose|i: int| is_first_fit(descriptors@, bitmap_bytes, i);
                    assert(!region_fits(descriptors@[i], bitmap_bytes));
                }
            }
            return Err(FrameMapError::BitmapRegionNotFound);
        },
    };
    proof {
        let i = choose|i: int|
            0 <= i < descriptors@.len() && region_fits(#[trigger] descriptors@[i], bitmap_bytes)
                && descriptors@[i].physical_start == bitmap_address && forall|j: int|
                0 <= j < i ==> !region_fits(#[trigger] descriptors@[j], bitmap_bytes);
        assert(is_first_fit(descriptors@, bitmap_bytes, i));
        let k = choose|k: int| is_first_fit(descriptors@, bitmap_bytes, k);
        lemma_first_fit_unique(descriptors@, bitmap_bytes, i, k);
    }
    if frame_count == 0 {
        return Err(FrameMapError::FrameZeroNotReserved);
    }
    proof {
        assert(bitmap_pages >= 1) by (nonlinear_arith)
            requires
                bitmap_pages == ((frame_count + 7) / 8 + 4095) / 4096,
                frame_count >= 1,
        ;
        assert(bitmap_address / 4096 + bitmap_pages <= u64::MAX) by (nonlinear_arith)
            requires
                bitmap_pages == ((frame_count + 7) / 8 + 4095) / 4096,
                frame_count <= u64::MAX,
                bitmap_address <= u64::MAX,
        ;
    }
    boot_frame_map(frame_count, descriptors, bitmap_address, bitmap_pages as u64, userspace_image)
}

} // verus!

