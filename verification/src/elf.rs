//! Kernel ELF image: program headers, the page range the image occupies, and
//! the copy plan for its loadable segments.
use vstd::prelude::*;
use vstd::arithmetic::power2::pow2;

verus! {

/// Size of a page, in bytes.
pub const PAGE_SIZE: u64 = 4096;

/// Program header type of a loadable segment.
pub const PT_LOAD: u32 = 1;

/// The fields of an ELF program header that loading reads.
#[derive(Clone, Copy, PartialEq, Eq, Structural)]
pub struct ProgramSegment {
    pub p_type: u32,
    pub p_offset: u64,
    pub p_vaddr: u64,
    pub p_filesz: u64,
    pub p_memsz: u64,
}

/// `value` rounded up to a multiple of `alignment`.
pub open spec fn round_up(value: int, alignment: int) -> int {
    ((value + alignment - 1) / alignment) * alignment
}

/// `value` rounded down to a multiple of `alignment`.
pub open spec fn round_down(value: int, alignment: int) -> int {
    value - value % alignment
}

pub open spec fn is_power_of_two(a: u64) -> bool {
    exists|k: nat| k < 64 && a as nat == pow2(k)
}

proof fn lemma_mask_rounds_down(x: u64, a: u64)
    requires
        is_power_of_two(a),
    ensures
        a > 0,
        x & !((a - 1) as u64) == x - x % a,
{
    let k = choose|k: nat| k < 64 && a as nat == pow2(k);
    vstd::arithmetic::power2::lemma_pow2_pos(k);
    vstd::bits::lemma_u64_low_bits_mask_is_mod(x, k);
    let m = (a - 1) as u64;
    assert(vstd::bits::low_bits_mask(k) as u64 == m);
    assert(x & !m == x - (x & m)) by (bit_vector);
}

/// The page size is a power of two.
pub proof fn lemma_page_size_is_power_of_two()
    ensures
        is_power_of_two(PAGE_SIZE),
{
    vstd::arithmetic::power2::lemma2_to64();
    assert(PAGE_SIZE as nat == pow2(12));
}

/// Adds `alignment - 1` to `value` and clears the bits of `alignment - 1`:
/// for a power-of-two alignment, `value` rounded up to a multiple of it.
/// `None` when the sum overflows.
pub fn align_up(value: u64, alignment: u64) -> (r: Option<u64>)
    requires
        alignment > 0,
    ensures
        value + alignment - 1 <= u64::MAX ==> r == Some(
            ((value + alignment - 1) as u64) & !((alignment - 1) as u64),
        ),
        value + alignment - 1 <= u64::MAX && is_power_of_two(alignment) ==> r == Some(
            round_up(value as int, alignment as int) as u64,
        ),
        value + alignment - 1 > u64::MAX ==> r is None,
{
    let mask = alignment - 1;
    match value.checked_add(mask) {
        Some(v) => {
            proof {
                if is_power_of_two(alignment) {
                    lemma_mask_rounds_down(v, alignment);
                    vstd::arithmetic::div_mod::lemma_fundamental_div_mod(v as int, alignment as int);
                    vstd::arithmetic::mul::lemma_mul_is_commutative(v as int / alignment as int, alignment as int);
                    assert(round_up(value as int, alignment as int) == v - v % alignment);
                }
            }
            Some(v & !mask)
        },
        None => None,
    }
}

pub open spec fn is_load(s: ProgramSegment) -> bool {
    s.p_type == PT_LOAD
}

/// First byte past the segment in memory.
pub open spec fn segment_end(s: ProgramSegment) -> int {
    s.p_vaddr + s.p_memsz
}

/// Start of the first page the segment touches.
pub open spec fn page_start(s: ProgramSegment) -> int {
    round_down(s.p_vaddr as int, PAGE_SIZE as int)
}

/// End of the last page the segment touches.
pub open spec fn page_end(s: ProgramSegment) -> int {
    round_up(segment_end(s), PAGE_SIZE as int)
}

/// A loadable segment is accepted when its memory size covers its file size
/// and its page-rounded end fits in a `u64`.
pub open spec fn load_segment_valid(s: ProgramSegment) -> bool {
    &&& s.p_memsz >= s.p_filesz
    &&& segment_end(s) + PAGE_SIZE - 1 <= u64::MAX
}

pub open spec fn all_loads_valid(segs: Seq<ProgramSegment>) -> bool {
    forall|i: int| 0 <= i < segs.len() && is_load(#[trigger] segs[i]) ==> load_segment_valid(segs[i])
}

/// Lowest page start over the loadable segments (`u64::MAX` when there is none).
pub open spec fn loads_start(segs: Seq<ProgramSegment>) -> int
    decreases segs.len(),
{
    if segs.len() == 0 {
        u64::MAX as int
    } else {
        let rest = loads_start(segs.drop_last());
        let s = segs.last();
        if is_load(s) && page_start(s) < rest {
            page_start(s)
        } else {
            rest
        }
    }
}

/// Highest page end over the loadable segments (0 when there is none).
pub open spec fn loads_end(segs: Seq<ProgramSegment>) -> int
    decreases segs.len(),
{
    if segs.len() == 0 {
        0
    } else {
        let rest = loads_end(segs.drop_last());
        let s = segs.last();
        if is_load(s) && page_end(s) > rest {
            page_end(s)
        } else {
            rest
        }
    }
}

/// Number of loadable segments.
pub open spec fn load_count(segs: Seq<ProgramSegment>) -> nat
    decreases segs.len(),
{
    if segs.len() == 0 {
        0
    } else {
        load_count(segs.drop_last()) + if is_load(segs.last()) { 1nat } else { 0nat }
    }
}

/// The page range `(start, size, pages)` that the loadable segments occupy,
/// or `None` when the image is refused.
pub open spec fn memory_range_of(segs: Option<Seq<ProgramSegment>>) -> Option<(u64, u64, usize)> {
    match segs {
        None => None,
        Some(s) => {
            let start = loads_start(s);
            let end = loads_end(s);
            if !all_loads_valid(s) || load_count(s) == 0 || end <= start
                || (end - start) / PAGE_SIZE as int > usize::MAX {
                None
            } else {
                Some((start as u64, (end - start) as u64, ((end - start) / PAGE_SIZE as int) as usize))
            }
        },
    }
}

proof fn lemma_page_bounds(s: ProgramSegment)
    requires
        load_segment_valid(s),
    ensures
        0 <= page_start(s) <= s.p_vaddr,
        segment_end(s) <= page_end(s) <= u64::MAX,
        page_start(s) % PAGE_SIZE as int == 0,
        page_end(s) % PAGE_SIZE as int == 0,
{
    let a = PAGE_SIZE as int;
    let e = segment_end(s);
    vstd::arithmetic::div_mod::lemma_fundamental_div_mod(e + a - 1, a);
    vstd::arithmetic::div_mod::lemma_mod_multiples_basic((e + a - 1) / a, a);
    vstd::arithmetic::mul::lemma_mul_is_commutative((e + a - 1) / a, a);
    vstd::arithmetic::div_mod::lemma_fundamental_div_mod(s.p_vaddr as int, a);
    vstd::arithmetic::div_mod::lemma_mod_multiples_basic(s.p_vaddr as int / a, a);
    vstd::arithmetic::mul::lemma_mul_is_commutative(s.p_vaddr as int / a, a);
}

/// Every loadable segment of an accepted sequence lies between the fold's
/// start and end, and both are page aligned once a loadable segment exists.
proof fn lemma_folds_bound(segs: Seq<ProgramSegment>)
    requires
        all_loads_valid(segs),
    ensures
        forall|i: int| 0 <= i < segs.len() && is_load(#[trigger] segs[i]) ==>
            loads_start(segs) <= page_start(segs[i]) && page_end(segs[i]) <= loads_end(segs),
        load_count(segs) > 0 ==> loads_start(segs) % PAGE_SIZE as int == 0
            && loads_end(segs) % PAGE_SIZE as int == 0,
        load_count(segs) > 0 ==> exists|i: int| 0 <= i < segs.len() && is_load(#[trigger] segs[i])
            && page_start(segs[i]) == loads_start(segs),
        load_count(segs) > 0 ==> exists|j: int| 0 <= j < segs.len() && is_load(#[trigger] segs[j])
            && page_end(segs[j]) == loads_end(segs),
        0 <= loads_start(segs) <= u64::MAX,
        0 <= loads_end(segs) <= u64::MAX,
        load_count(segs) == 0 ==> loads_start(segs) == u64::MAX && loads_end(segs) == 0,
    decreases segs.len(),
{
    if segs.len() > 0 {
        let rest = segs.drop_last();
        assert forall|i: int| 0 <= i < rest.len() && is_load(#[trigger] rest[i]) implies load_segment_valid(rest[i]) by {
            assert(rest[i] == segs[i]);
        }
        lemma_folds_bound(rest);
        let s = segs.last();
        if is_load(s) {
            assert(segs[segs.len() - 1] == s);
            lemma_page_bounds(s);
        }
        assert forall|i: int| 0 <= i < segs.len() && is_load(#[trigger] segs[i]) implies
            loads_start(segs) <= page_start(segs[i]) && page_end(segs[i]) <= loads_end(segs) by {
            if i < segs.len() - 1 {
                assert(rest[i] == segs[i]);
            }
        }
        if load_count(segs) > 0 {
            if is_load(s) && page_start(s) <= loads_start(rest) {
                assert(segs[segs.len() - 1] == s);
            } else {
                if load_count(rest) == 0 {
                    assert(is_load(s));
                    assert(false);
                }
                let i = choose|i: int| 0 <= i < rest.len() && is_load(#[trigger] rest[i])
                    && page_start(rest[i]) == loads_start(rest);
                assert(rest[i] == segs[i]);
            }
            if is_load(s) && page_end(s) >= loads_end(rest) {
                assert(segs[segs.len() - 1] == s);
            } else {
                if load_count(rest) == 0 {
                    assert(is_load(s));
                    assert(false);
                }
                let j = choose|j: int| 0 <= j < rest.len() && is_load(#[trigger] rest[j])
                    && page_end(rest[j]) == loads_end(rest);
                assert(rest[j] == segs[j]);
            }
        }
    }
}

/// Law: an accepted image range is page aligned, covers every loadable
/// segment's bytes, is no larger than needed, and counts its pages exactly.
pub proof fn lemma_memory_range_covers_segments(segs: Seq<ProgramSegment>, start: u64, size: u64, pages: usize)
    requires
        memory_range_of(Some(segs)) == Some((start, size, pages)),
    ensures
        start as int % PAGE_SIZE as int == 0,
        size as int % PAGE_SIZE as int == 0,
        pages as int * PAGE_SIZE as int == size as int,
        size > 0,
        forall|i: int| 0 <= i < segs.len() && is_load(#[trigger] segs[i]) ==>
            start <= segs[i].p_vaddr && segment_end(segs[i]) <= start + size,
        exists|i: int| 0 <= i < segs.len() && is_load(#[trigger] segs[i]) && page_start(segs[i]) == start,
        exists|j: int| 0 <= j < segs.len() && is_load(#[trigger] segs[j]) && page_end(segs[j]) == start + size,
{
    lemma_folds_bound(segs);
    assert forall|i: int| 0 <= i < segs.len() && is_load(#[trigger] segs[i]) implies
        start <= segs[i].p_vaddr && segment_end(segs[i]) <= start + size by {
        lemma_page_bounds(segs[i]);
    }
    let a = PAGE_SIZE as int;
    let e = loads_end(segs);
    let b = loads_start(segs);
    vstd::arithmetic::div_mod::lemma_fundamental_div_mod(e - b, a);
    vstd::arithmetic::div_mod::lemma_sub_mod_noop(e, b, a);
    vstd::arithmetic::mul::lemma_mul_is_commutative((e - b) / a, a);
}


/// Folds the loadable segments of a program header table into the page range
/// they occupy: `(start, size, pages)`. Refuses a table with an invalid or
/// overflowing loadable segment, with no loadable segment, or with an empty
/// range.
pub fn segments_memory_range(segments: &[ProgramSegment]) -> (r: Result<(u64, u64, usize), ()>)
    ensures
        match memory_range_of(Some(segments@)) {
            Some(t) => r == Ok::<(u64, u64, usize), ()>(t),
            None => r is Err,
        },
{
    let mut kernel_start: u64 = u64::MAX;
    let mut kernel_end: u64 = 0;
    let mut load_segment_count: usize = 0;
    let mut i: usize = 0;
    proof {
        lemma_page_size_is_power_of_two();
        assert(segments@.take(0) =~= Seq::<ProgramSegment>::empty());
    }
    while i < segments.len()
        invariant
            i <= segments.len(),
            is_power_of_two(PAGE_SIZE),
            kernel_start == loads_start(segments@.take(i as int)),
            kernel_end == loads_end(segments@.take(i as int)),
            load_segment_count == load_count(segments@.take(i as int)),
            load_segment_count <= i,
            all_loads_valid(segments@.take(i as int)),
        decreases segments.len() - i,
    {
        let segment = segments[i];
        let ghost prefix = segments@.take(i as int);
        let ghost next = segments@.take(i as int + 1);
        proof {
            assert(next.drop_last() =~= prefix);
            assert(next.last() == segment);
        }
        if segment.p_type != PT_LOAD {
            proof {
                assert forall|k: int| 0 <= k < next.len() && is_load(#[trigger] next[k]) implies load_segment_valid(next[k]) by {
                    if k < i {
                        assert(next[k] == prefix[k]);
                    }
                }
            }
            i = i + 1;
            continue;
        }
        load_segment_count = load_segment_count + 1;
        if segment.p_memsz < segment.p_filesz {
            proof {
                assert(segments@[i as int] == segment);
            }
            return Err(());
        }
        let segment_end = match segment.p_vaddr.checked_add(segment.p_memsz) {
            Some(end) => end,
            None => {
                proof {
                    assert(segments@[i as int] == segment);
                }
                return Err(());
            },
        };
        proof {
            lemma_mask_rounds_down(segment.p_vaddr, PAGE_SIZE);
        }
        let page_start_addr = segment.p_vaddr & !(PAGE_SIZE - 1);
        let page_end_addr = match align_up(segment_end, PAGE_SIZE) {
            Some(end) => end,
            None => {
                proof {
                    assert(segments@[i as int] == segment);
                }
                return Err(());
            },
        };
        if page_start_addr < kernel_start {
            kernel_start = page_start_addr;
        }
        if page_end_addr > kernel_end {
            kernel_end = page_end_addr;
        }
        proof {
            assert forall|k: int| 0 <= k < next.len() && is_load(#[trigger] next[k]) implies load_segment_valid(next[k]) by {
                if k < i {
                    assert(next[k] == prefix[k]);
                }
            }
        }
        i = i + 1;
    }
    proof {
        assert(segments@.take(segments.len() as int) =~= segments@);
    }
    if load_segment_count == 0 {
        return Err(());
    }
    if kernel_end <= kernel_start {
        return Err(());
    }
    let kernel_size = kernel_end - kernel_start;
    let page_count = kernel_size / PAGE_SIZE;
    if page_count > usize::MAX as u64 {
        return Err(());
    }
    Ok((kernel_start, kernel_size, page_count as usize))
}


/// What `elf::ElfBytes::minimal_parse` followed by a read of `ehdr.e_entry`
/// and of every program header of `segments()` gives for these bytes: `None`
/// when the file header does not parse, else the entry point and the program
/// headers (`None` when the file has no program header table).
pub uninterp spec fn elf_headers(data: Seq<u8>) -> Option<(u64, Option<Seq<ProgramSegment>>)>;

pub open spec fn headers_view(r: Option<(u64, Option<Vec<ProgramSegment>>)>) -> Option<(u64, Option<Seq<ProgramSegment>>)> {
    match r {
        None => None,
        Some((entry, None)) => Some((entry, None)),
        Some((entry, Some(v))) => Some((entry, Some(v@))),
    }
}

/// Calls `elf::ElfBytes::<AnyEndian>::minimal_parse` on `data`, then reads
/// the header's entry point and copies out the fields of each program header
/// that `segments()` yields. Trusted: the result is the fixed function
/// `elf_headers` of the bytes; nothing more is claimed of the parser.
#[verifier::external_body]
fn read_elf_headers(data: &[u8]) -> (r: Option<(u64, Option<Vec<ProgramSegment>>)>)
    ensures
        headers_view(r) == elf_headers(data@),
{
    let file = elf::ElfBytes::<elf::endian::AnyEndian>::minimal_parse(data).ok()?;
    let segments = file.segments().map(|table| table.iter().map(|ph| ProgramSegment {
        p_type: ph.p_type,
        p_offset: ph.p_offset,
        p_vaddr: ph.p_vaddr,
        p_filesz: ph.p_filesz,
        p_memsz: ph.p_memsz,
    }).collect());
    Some((file.ehdr.e_entry, segments))
}

/// A parsed kernel ELF image.
pub struct KernelElf<'a> {
    data: &'a [u8],
    entry: u64,
    segments: Option<Vec<ProgramSegment>>,
}

impl<'a> KernelElf<'a> {
    /// The bytes of the file.
    pub closed spec fn bytes(&self) -> Seq<u8> {
        self.data@
    }

    /// The entry point from the file header.
    pub closed spec fn entry_point(&self) -> u64 {
        self.entry
    }

    /// The program header table, if the file has one.
    pub closed spec fn program_headers(&self) -> Option<Seq<ProgramSegment>> {
        match self.segments {
            None => None,
            Some(v) => Some(v@),
        }
    }

    /// Parses the ELF file header; `Err` when the bytes are not an ELF file.
    pub fn parse(data: &'a [u8]) -> (r: Result<Self, ()>)
        ensures
            match elf_headers(data@) {
                None => r is Err,
                Some((entry, headers)) => r is Ok && r->Ok_0.bytes() == data@
                    && r->Ok_0.entry_point() == entry && r->Ok_0.program_headers() == headers,
            },
    {
        match read_elf_headers(data) {
            Some((entry, segments)) => Ok(KernelElf { data, entry, segments }),
            None => Err(()),
        }
    }

    /// The entry point address.
    pub fn entry(&self) -> (r: u64)
        ensures
            r == self.entry_point(),
    {
        self.entry
    }

    /// The page range `(start, size, pages)` the loadable segments occupy;
    /// `Err` without a program header table or as `segments_memory_range` refuses.
    pub fn memory_range(&self) -> (r: Result<(u64, u64, usize), ()>)
        ensures
            match memory_range_of(self.program_headers()) {
                Some(t) => r == Ok::<(u64, u64, usize), ()>(t),
                None => r is Err,
            },
    {
        match &self.segments {
            Some(segments) => segments_memory_range(segments.as_slice()),
            None => Err(()),
        }
    }
}


/// The bytes of a segment as stored in the file, when they lie inside it.
pub open spec fn file_data_of(bytes: Seq<u8>, s: ProgramSegment) -> Option<Seq<u8>> {
    if s.p_offset + s.p_filesz <= bytes.len() {
        Some(bytes.subrange(s.p_offset as int, s.p_offset + s.p_filesz))
    } else {
        None
    }
}

/// Bytes to clear after the file data of a segment.
pub open spec fn zero_fill_of(s: ProgramSegment) -> u64 {
    if s.p_memsz > s.p_filesz {
        (s.p_memsz - s.p_filesz) as u64
    } else {
        0
    }
}

/// One step of loading: copy `data` to `destination`, then clear
/// `zero_fill` bytes right after it.
pub struct SegmentLoad<'a> {
    pub destination: u64,
    pub data: &'a [u8],
    pub zero_fill: u64,
}

pub open spec fn load_view(l: SegmentLoad) -> (u64, Seq<u8>, u64) {
    (l.destination, l.data@, l.zero_fill)
}

/// The copy plan for the loadable segments, in table order; `None` when one
/// of them has file data outside the file.
pub open spec fn load_plan_of(bytes: Seq<u8>, segs: Seq<ProgramSegment>) -> Option<Seq<(u64, Seq<u8>, u64)>>
    decreases segs.len(),
{
    if segs.len() == 0 {
        Some(Seq::empty())
    } else {
        match load_plan_of(bytes, segs.drop_last()) {
            None => None,
            Some(plan) => {
                let s = segs.last();
                if !is_load(s) {
                    Some(plan)
                } else {
                    match file_data_of(bytes, s) {
                        None => None,
                        Some(d) => Some(plan.push((s.p_vaddr, d, zero_fill_of(s)))),
                    }
                }
            },
        }
    }
}

/// The file data of a segment: `data[p_offset .. p_offset + p_filesz]`, or
/// `None` when that range is not inside `data`.
pub fn segment_data<'a>(data: &'a [u8], segment: &ProgramSegment) -> (r: Option<&'a [u8]>)
    ensures
        match file_data_of(data@, *segment) {
            None => r is None,
            Some(d) => r is Some && r->0@ == d,
        },
{
    if segment.p_offset > data.len() as u64 {
        return None;
    }
    let start = segment.p_offset as usize;
    if segment.p_filesz > (data.len() - start) as u64 {
        return None;
    }
    let end = start + segment.p_filesz as usize;
    Some(vstd::slice::slice_subrange(data, start, end))
}

/// The copy plan for the loadable segments of `segments`, reading file data
/// from `data`: in table order, each loadable segment's file bytes, virtual
/// address and the number of bytes to clear after them. `Err` when a
/// loadable segment's data lies outside `data`.
pub fn segments_load_plan<'a>(data: &'a [u8], segments: &[ProgramSegment]) -> (r: Result<Vec<SegmentLoad<'a>>, ()>)
    ensures
        match load_plan_of(data@, segments@) {
            None => r is Err,
            Some(plan) => r is Ok && r->Ok_0@.map_values(|l: SegmentLoad<'a>| load_view(l)) == plan,
        },
{
    let mut plan: Vec<SegmentLoad<'a>> = Vec::new();
    let mut i: usize = 0;
    proof {
        assert(segments@.take(0) =~= Seq::<ProgramSegment>::empty());
        assert(plan@.map_values(|l: SegmentLoad<'a>| load_view(l)) =~= Seq::<(u64, Seq<u8>, u64)>::empty());
    }
    while i < segments.len()
        invariant
            i <= segments.len(),
            load_plan_of(data@, segments@.take(i as int)) == Some(plan@.map_values(|l: SegmentLoad<'a>| load_view(l))),
        decreases segments.len() - i,
    {
        let segment = &segments[i];
        let ghost prefix = segments@.take(i as int);
        let ghost next = segments@.take(i as int + 1);
        let ghost before = plan@;
        proof {
            assert(next.drop_last() =~= prefix);
            assert(next.last() == *segment);
        }
        if segment.p_type == PT_LOAD {
            let file_data = match segment_data(data, segment) {
                Some(d) => d,
                None => {
                    proof {
                        if i + 1 < segments.len() {
                            lemma_plan_failure_persists(data@, segments@, i as int + 1);
                        }
                        assert(segments@.take(segments.len() as int) =~= segments@);
                    }
                    return Err(());
                },
            };
            let zero_fill = if segment.p_memsz > segment.p_filesz {
                segment.p_memsz - segment.p_filesz
            } else {
                0
            };
            plan.push(SegmentLoad { destination: segment.p_vaddr, data: file_data, zero_fill });
            proof {
                assert(plan@.map_values(|l: SegmentLoad<'a>| load_view(l))
                    =~= before.map_values(|l: SegmentLoad<'a>| load_view(l)).push((segment.p_vaddr, file_data@, zero_fill)));
            }
        }
        i = i + 1;
    }
    proof {
        assert(segments@.take(segments.len() as int) =~= segments@);
    }
    Ok(plan)
}

impl<'a> KernelElf<'a> {
    /// The copy plan that loading the kernel performs (see
    /// `segments_load_plan`); `Err` also without a program header table.
    pub fn segment_loads(&self) -> (r: Result<Vec<SegmentLoad<'a>>, ()>)
        ensures
            match self.program_headers() {
                None => r is Err,
                Some(segs) => match load_plan_of(self.bytes(), segs) {
                    None => r is Err,
                    Some(plan) => r is Ok && r->Ok_0@.map_values(|l: SegmentLoad<'a>| load_view(l)) == plan,
                },
            },
    {
        match &self.segments {
            Some(segments) => segments_load_plan(self.data, segments.as_slice()),
            None => Err(()),
        }
    }
}

/// Once a prefix of the table has no plan, no longer prefix has one.
proof fn lemma_plan_failure_persists(bytes: Seq<u8>, segs: Seq<ProgramSegment>, n: int)
    requires
        1 <= n <= segs.len(),
        load_plan_of(bytes, segs.take(n)) is None,
    ensures
        load_plan_of(bytes, segs) is None,
    decreases segs.len() - n,
{
    if n < segs.len() {
        assert(segs.take(n + 1).drop_last() =~= segs.take(n));
        lemma_plan_failure_persists(bytes, segs, n + 1);
    } else {
        assert(segs.take(n) =~= segs);
    }
}


/// Each planned copy comes from a loadable segment: same address, that
/// segment's file bytes, and its zero fill.
proof fn lemma_plan_entries_from_segments(bytes: Seq<u8>, segs: Seq<ProgramSegment>)
    requires
        load_plan_of(bytes, segs) is Some,
    ensures
        ({
            let plan = load_plan_of(bytes, segs)->0;
            &&& plan.len() == load_count(segs)
            &&& forall|k: int| #![trigger plan[k]] 0 <= k < plan.len() ==> exists|i: int| 0 <= i < segs.len() && is_load(#[trigger] segs[i])
                && plan[k].0 == segs[i].p_vaddr && plan[k].1.len() == segs[i].p_filesz
                && plan[k].2 == zero_fill_of(segs[i])
                && segs[i].p_offset + segs[i].p_filesz <= bytes.len()
                && plan[k].1 == bytes.subrange(segs[i].p_offset as int, segs[i].p_offset + segs[i].p_filesz)
        }),
    decreases segs.len(),
{
    if segs.len() > 0 {
        let rest = segs.drop_last();
        lemma_plan_entries_from_segments(bytes, rest);
        let plan = load_plan_of(bytes, segs)->0;
        let prev = load_plan_of(bytes, rest)->0;
        assert forall|k: int| #![trigger plan[k]] 0 <= k < plan.len() implies exists|i: int| 0 <= i < segs.len() && is_load(#[trigger] segs[i])
            && plan[k].0 == segs[i].p_vaddr && plan[k].1.len() == segs[i].p_filesz
            && plan[k].2 == zero_fill_of(segs[i])
            && segs[i].p_offset + segs[i].p_filesz <= bytes.len()
            && plan[k].1 == bytes.subrange(segs[i].p_offset as int, segs[i].p_offset + segs[i].p_filesz) by {
            if k < prev.len() {
                let i = choose|i: int| 0 <= i < rest.len() && is_load(#[trigger] rest[i])
                    && prev[k].0 == rest[i].p_vaddr && prev[k].1.len() == rest[i].p_filesz
                    && prev[k].2 == zero_fill_of(rest[i])
                    && rest[i].p_offset + rest[i].p_filesz <= bytes.len()
                    && prev[k].1 == bytes.subrange(rest[i].p_offset as int, rest[i].p_offset + rest[i].p_filesz);
                assert(rest[i] == segs[i]);
                assert(plan[k] == prev[k]);
            } else {
                let j = segs.len() - 1;
                assert(segs[j] == segs.last());
            }
        }
    }
}

/// Whether `plan` has one step per loadable segment of `segs`, each copying
/// that segment's file bytes from `bytes` to its virtual address and
/// clearing the rest of its memory image.
pub open spec fn plan_copies_segments(bytes: Seq<u8>, segs: Seq<ProgramSegment>, plan: Seq<(u64, Seq<u8>, u64)>) -> bool {
    &&& plan.len() == load_count(segs)
    &&& forall|k: int| 0 <= k < plan.len() ==> #[trigger] step_copies_some_segment(bytes, segs, plan[k])
}

/// Whether a copy step copies the file bytes of loadable segment `s` from
/// `bytes` to its virtual address and clears the rest of its memory image.
pub open spec fn step_copies_segment(bytes: Seq<u8>, s: ProgramSegment, step: (u64, Seq<u8>, u64)) -> bool {
    &&& is_load(s)
    &&& step.0 == s.p_vaddr
    &&& step.1 == bytes.subrange(s.p_offset as int, s.p_offset + s.p_filesz)
    &&& (s.p_memsz >= s.p_filesz ==> step.1.len() + step.2 == s.p_memsz)
}

/// Whether a copy step copies some loadable segment of `segs`.
pub open spec fn step_copies_some_segment(bytes: Seq<u8>, segs: Seq<ProgramSegment>, step: (u64, Seq<u8>, u64)) -> bool {
    exists|i: int| 0 <= i < segs.len() && #[trigger] step_copies_segment(bytes, segs[i], step)
}

/// Law: the copy plan has one step per loadable segment, and each step
/// copies exactly that segment's file bytes `bytes[p_offset .. p_offset +
/// p_filesz]` to its virtual address and clears the rest of its memory
/// image, so that the step ends where the segment ends in memory.
pub proof fn lemma_load_plan_copies_segments(bytes: Seq<u8>, segs: Seq<ProgramSegment>)
    requires
        load_plan_of(bytes, segs) is Some,
    ensures
        plan_copies_segments(bytes, segs, load_plan_of(bytes, segs)->0),
{
    lemma_plan_entries_from_segments(bytes, segs);
    let plan = load_plan_of(bytes, segs)->0;
    assert forall|k: int| 0 <= k < plan.len() implies #[trigger] step_copies_some_segment(bytes, segs, plan[k]) by {
        let i = choose|i: int| 0 <= i < segs.len() && is_load(#[trigger] segs[i])
            && plan[k].0 == segs[i].p_vaddr && plan[k].1.len() == segs[i].p_filesz
            && plan[k].2 == zero_fill_of(segs[i])
            && segs[i].p_offset + segs[i].p_filesz <= bytes.len()
            && plan[k].1 == bytes.subrange(segs[i].p_offset as int, segs[i].p_offset + segs[i].p_filesz);
        assert(step_copies_segment(bytes, segs[i], plan[k]));
    }
}

/// Law: when the image range is accepted and the copy plan exists, every
/// planned copy, file bytes and cleared tail together, lands inside the
/// image range (so loading writes only memory allocated for the kernel).
pub proof fn lemma_load_plan_inside_memory_range(bytes: Seq<u8>, segs: Seq<ProgramSegment>, start: u64, size: u64, pages: usize)
    requires
        memory_range_of(Some(segs)) == Some((start, size, pages)),
        load_plan_of(bytes, segs) is Some,
    ensures
        ({
            let plan = load_plan_of(bytes, segs)->0;
            forall|k: int| 0 <= k < plan.len() ==> start <= (#[trigger] plan[k]).0
                && plan[k].0 + plan[k].1.len() + plan[k].2 <= start + size
        }),
{
    lemma_memory_range_covers_segments(segs, start, size, pages);
    lemma_plan_entries_from_segments(bytes, segs);
    let plan = load_plan_of(bytes, segs)->0;
    assert forall|k: int| 0 <= k < plan.len() implies start <= (#[trigger] plan[k]).0
        && plan[k].0 + plan[k].1.len() + plan[k].2 <= start + size by {
        let i = choose|i: int| 0 <= i < segs.len() && is_load(#[trigger] segs[i])
            && plan[k].0 == segs[i].p_vaddr && plan[k].1.len() == segs[i].p_filesz
            && plan[k].2 == zero_fill_of(segs[i]);
        assert(load_segment_valid(segs[i]));
    }
}

} // verus!
