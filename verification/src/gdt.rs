//! Global descriptor table and task state segment contents.
use vstd::prelude::*;

verus! {

/// Number of 8-byte slots in the kernel's GDT.
pub const GDT_ENTRIES: usize = 7;

pub const KERNEL_CODE_SELECTOR: u16 = 0x08;
pub const KERNEL_DATA_SELECTOR: u16 = 0x10;
pub const TSS_SELECTOR: u16 = 0x18;
pub const USER_CODE_SELECTOR: u16 = 0x2B;
pub const USER_DATA_SELECTOR: u16 = 0x33;

/// Byte size of the 64-bit task state segment.
pub const TSS_SIZE: u32 = 104;

/// Byte size of the GDT in memory: seven slots padded to its 16-byte alignment.
pub const GDT_BYTE_SIZE: u16 = 64;

/// A code or data segment descriptor, field by field.
#[derive(Clone, Copy, PartialEq, Eq, Structural)]
pub struct GdtEntry {
    pub limit_low: u16,
    pub base_low: u16,
    pub base_middle: u8,
    pub access: u8,
    pub granularity: u8,
    pub base_high: u8,
}

pub open spec fn flat_segment(access: u8) -> GdtEntry {
    GdtEntry { limit_low: 0xFFFF, base_low: 0, base_middle: 0, access, granularity: 0xAF, base_high: 0 }
}

/// The 8-byte descriptor word of an entry.
pub open spec fn entry_word(e: GdtEntry) -> u64 {
    (e.limit_low as u64) | ((e.base_low as u64) << 16u64) | ((e.base_middle as u64) << 32u64)
        | ((e.access as u64) << 40u64) | ((e.granularity as u64) << 48u64) | ((e.base_high as u64) << 56u64)
}

/// The access byte of a descriptor word.
pub open spec fn access_byte(word: u64) -> u8 {
    ((word >> 40u64) & 0xFFu64) as u8
}

impl GdtEntry {
    /// Flat 64-bit kernel code segment.
    pub fn code() -> (r: Self)
        ensures
            r == flat_segment(0x9A),
    {
        GdtEntry { limit_low: 0xFFFF, base_low: 0, base_middle: 0, access: 0x9A, granularity: 0xAF, base_high: 0 }
    }

    /// Flat kernel data segment.
    pub fn data() -> (r: Self)
        ensures
            r == flat_segment(0x92),
    {
        GdtEntry { limit_low: 0xFFFF, base_low: 0, base_middle: 0, access: 0x92, granularity: 0xAF, base_high: 0 }
    }

    /// Flat 64-bit user (ring 3) code segment.
    pub fn user_code() -> (r: Self)
        ensures
            r == flat_segment(0xFA),
    {
        GdtEntry { limit_low: 0xFFFF, base_low: 0, base_middle: 0, access: 0xFA, granularity: 0xAF, base_high: 0 }
    }

    /// Flat user (ring 3) data segment.
    pub fn user_data() -> (r: Self)
        ensures
            r == flat_segment(0xF2),
    {
        GdtEntry { limit_low: 0xFFFF, base_low: 0, base_middle: 0, access: 0xF2, granularity: 0xAF, base_high: 0 }
    }

    /// The descriptor word stored in the GDT for this entry.
    pub fn encode(&self) -> (r: u64)
        ensures
            r == entry_word(*self),
    {
        (self.limit_low as u64) | ((self.base_low as u64) << 16u64) | ((self.base_middle as u64) << 32u64)
            | ((self.access as u64) << 40u64) | ((self.granularity as u64) << 48u64)
            | ((self.base_high as u64) << 56u64)
    }
}

/// Law: the access byte read back from an encoded descriptor is the entry's.
pub proof fn lemma_access_byte_roundtrip(e: GdtEntry)
    ensures
        access_byte(entry_word(e)) == e.access,
{
    let (l, bl, bm, a, g, bh) = (e.limit_low, e.base_low, e.base_middle, e.access, e.granularity, e.base_high);
    assert((((l as u64) | ((bl as u64) << 16u64) | ((bm as u64) << 32u64) | ((a as u64) << 40u64)
        | ((g as u64) << 48u64) | ((bh as u64) << 56u64)) >> 40u64) & 0xFFu64 == a as u64) by (bit_vector);
}

/// The 16-byte system descriptor of a task state segment.
#[derive(Clone, Copy, PartialEq, Eq, Structural)]
pub struct TssDescriptor {
    pub limit_low: u16,
    pub base_low: u16,
    pub base_middle: u8,
    pub access: u8,
    pub granularity: u8,
    pub base_high: u8,
    pub base_upper: u32,
    pub reserved: u32,
}

pub open spec fn tss_descriptor_of(base: u64) -> TssDescriptor {
    TssDescriptor {
        limit_low: (TSS_SIZE - 1) as u16,
        base_low: base as u16,
        base_middle: (base >> 16u64) as u8,
        access: 0x89,
        granularity: (((TSS_SIZE - 1) as u32 >> 16u32) & 0x0Fu32) as u8,
        base_high: (base >> 24u64) as u8,
        base_upper: (base >> 32u64) as u32,
        reserved: 0,
    }
}

/// Low word of a TSS descriptor.
pub open spec fn tss_low_word(d: TssDescriptor) -> u64 {
    (d.limit_low as u64) | ((d.base_low as u64) << 16u64) | ((d.base_middle as u64) << 32u64)
        | ((d.access as u64) << 40u64) | ((d.granularity as u64) << 48u64) | ((d.base_high as u64) << 56u64)
}

/// High word of a TSS descriptor.
pub open spec fn tss_high_word(d: TssDescriptor) -> u64 {
    (d.base_upper as u64) | ((d.reserved as u64) << 32u64)
}

/// The base address the processor reads from a TSS descriptor's two words.
pub open spec fn tss_base_of_words(low: u64, high: u64) -> u64 {
    ((low >> 16u64) & 0xFFFFu64) | (((low >> 32u64) & 0xFFu64) << 16u64) | (((low >> 56u64) & 0xFFu64) << 24u64)
        | ((high & 0xFFFF_FFFFu64) << 32u64)
}

impl TssDescriptor {
    /// An available 64-bit TSS descriptor for a TSS at `tss_base`.
    pub fn new(tss_base: u64) -> (r: Self)
        ensures
            r == tss_descriptor_of(tss_base),
    {
        let limit: u32 = TSS_SIZE - 1;
        TssDescriptor {
            limit_low: limit as u16,
            base_low: tss_base as u16,
            base_middle: (tss_base >> 16u64) as u8,
            access: 0x89,
            granularity: ((limit >> 16u32) & 0x0Fu32) as u8,
            base_high: (tss_base >> 24u64) as u8,
            base_upper: (tss_base >> 32u64) as u32,
            reserved: 0,
        }
    }
}

/// Law: the processor finds the TSS at the address the descriptor was made
/// for, with limit `TSS_SIZE - 1` and type "available 64-bit TSS".
pub proof fn lemma_tss_descriptor_base_roundtrip(base: u64)
    ensures
        tss_base_of_words(tss_low_word(tss_descriptor_of(base)), tss_high_word(tss_descriptor_of(base))) == base,
        tss_low_word(tss_descriptor_of(base)) & 0xFFFFu64 == (TSS_SIZE - 1) as u64,
        access_byte(tss_low_word(tss_descriptor_of(base))) == 0x89,
{
    let d = tss_descriptor_of(base);
    let (bl, bm, bh, bu) = (d.base_low, d.base_middle, d.base_high, d.base_upper);
    assert(bl == base as u16 && bm == (base >> 16u64) as u8 && bh == (base >> 24u64) as u8 && bu == (base >> 32u64) as u32);
    assert(((103u32 >> 16u32) & 0x0Fu32) as u8 == 0u8) by (bit_vector);
    assert(d.limit_low == 103u16 && d.access == 0x89u8 && d.granularity == 0u8 && d.reserved == 0u32);
    assert({
        let low = (103u16 as u64) | ((bl as u64) << 16u64) | ((bm as u64) << 32u64) | ((0x89u8 as u64) << 40u64)
            | ((0u8 as u64) << 48u64) | ((bh as u64) << 56u64);
        let high = (bu as u64) | ((0u32 as u64) << 32u64);
        &&& (((low >> 16u64) & 0xFFFFu64) | (((low >> 32u64) & 0xFFu64) << 16u64) | (((low >> 56u64) & 0xFFu64) << 24u64)
            | ((high & 0xFFFF_FFFFu64) << 32u64)) == base
        &&& low & 0xFFFFu64 == 103u64
        &&& (low >> 40u64) & 0xFFu64 == 0x89u64
    }) by (bit_vector)
        requires
            bl == base as u16 && bm == (base >> 16u64) as u8 && bh == (base >> 24u64) as u8 && bu == (base >> 32u64) as u32;
}


/// Whether the four flat segments carry the expected kernel and user access
/// bytes (the accessed bit ignored).
pub open spec fn user_segments_valid(words: Seq<u64>) -> bool {
    &&& (access_byte(words[1]) & 0xFEu8) == 0x9Au8
    &&& (access_byte(words[2]) & 0xFEu8) == 0x92u8
    &&& (access_byte(words[5]) & 0xFEu8) == 0xFAu8
    &&& (access_byte(words[6]) & 0xFEu8) == 0xF2u8
}

/// The global descriptor table: seven descriptor words.
pub struct Gdt {
    entries: Vec<u64>,
}

/// The pointer loaded by `lgdt`.
#[derive(Clone, Copy, PartialEq, Eq, Structural)]
pub struct GdtPointer {
    pub limit: u16,
    pub base: u64,
}

/// The kernel's GDT for a TSS at `tss_base`: null, kernel code, kernel data,
/// the two TSS words, user code, user data.
pub open spec fn kernel_gdt_words(tss_base: u64) -> Seq<u64> {
    seq![
        0u64,
        entry_word(flat_segment(0x9A)),
        entry_word(flat_segment(0x92)),
        tss_low_word(tss_descriptor_of(tss_base)),
        tss_high_word(tss_descriptor_of(tss_base)),
        entry_word(flat_segment(0xFA)),
        entry_word(flat_segment(0xF2)),
    ]
}

impl Gdt {
    /// The descriptor words.
    pub closed spec fn words(&self) -> Seq<u64> {
        self.entries@
    }

    pub closed spec fn wf(&self) -> bool {
        self.entries.len() == GDT_ENTRIES
    }

    /// An all-zero table.
    pub fn new() -> (r: Self)
        ensures
            r.wf(),
            r.words() == Seq::new(GDT_ENTRIES as nat, |i: int| 0u64),
    {
        let mut entries: Vec<u64> = Vec::new();
        let mut i: usize = 0;
        while i < GDT_ENTRIES
            invariant
                i <= GDT_ENTRIES,
                entries@ == Seq::new(i as nat, |k: int| 0u64),
            decreases GDT_ENTRIES - i,
        {
            entries.push(0);
            i = i + 1;
            assert(entries@ =~= Seq::new(i as nat, |k: int| 0u64));
        }
        Gdt { entries }
    }

    /// Stores the descriptor word of `entry` in slot `index`.
    pub fn write_gdt_entry(&mut self, index: usize, entry: GdtEntry)
        requires
            old(self).wf(),
            index < GDT_ENTRIES,
        ensures
            final(self).wf(),
            final(self).words() == old(self).words().update(index as int, entry_word(entry)),
    {
        let value = entry.encode();
        self.entries.set(index, value);
    }

    /// Stores the two words of a TSS descriptor in slots `index` and `index + 1`.
    pub fn write_tss_descriptor(&mut self, index: usize, descriptor: TssDescriptor)
        requires
            old(self).wf(),
            index + 1 < GDT_ENTRIES,
        ensures
            final(self).wf(),
            final(self).words() == old(self).words().update(index as int, tss_low_word(descriptor)).update(
                index + 1,
                tss_high_word(descriptor),
            ),
    {
        let low = (descriptor.limit_low as u64) | ((descriptor.base_low as u64) << 16u64)
            | ((descriptor.base_middle as u64) << 32u64) | ((descriptor.access as u64) << 40u64)
            | ((descriptor.granularity as u64) << 48u64) | ((descriptor.base_high as u64) << 56u64);
        self.entries.set(index, low);
        self.entries.set(index + 1, (descriptor.base_upper as u64) | ((descriptor.reserved as u64) << 32u64));
    }

    /// The descriptor word in slot `index`.
    pub fn entry(&self, index: usize) -> (r: u64)
        requires
            self.wf(),
            index < GDT_ENTRIES,
        ensures
            r == self.words()[index as int],
    {
        self.entries[index]
    }

    /// Checks the access bytes of the kernel and user code and data segments.
    pub fn validate_user_segments(&self) -> (r: bool)
        requires
            self.wf(),
        ensures
            r == user_segments_valid(self.words()),
    {
        let kernel_code_access = ((self.entries[1] >> 40u64) & 0xFFu64) as u8;
        let kernel_data_access = ((self.entries[2] >> 40u64) & 0xFFu64) as u8;
        let user_code_access = ((self.entries[5] >> 40u64) & 0xFFu64) as u8;
        let user_data_access = ((self.entries[6] >> 40u64) & 0xFFu64) as u8;
        (kernel_code_access & 0xFE) == 0x9A && (kernel_data_access & 0xFE) == 0x92
            && (user_code_access & 0xFE) == 0xFA && (user_data_access & 0xFE) == 0xF2
    }

    /// The kernel's table for a TSS at `tss_base`, filled slot by slot as
    /// processor initialization does before loading it.
    pub fn for_kernel(tss_base: u64) -> (r: Self)
        ensures
            r.wf(),
            r.words() == kernel_gdt_words(tss_base),
            kernel_gdt_layout(r.words(), tss_base),
    {
        let mut gdt = Gdt::new();
        gdt.write_gdt_entry(1, GdtEntry::code());
        gdt.write_gdt_entry(2, GdtEntry::data());
        gdt.write_tss_descriptor(3, TssDescriptor::new(tss_base));
        gdt.write_gdt_entry(5, GdtEntry::user_code());
        gdt.write_gdt_entry(6, GdtEntry::user_data());
        assert(gdt.words() =~= kernel_gdt_words(tss_base));
        proof {
            lemma_kernel_gdt_layout(tss_base);
        }
        gdt
    }

    /// The `lgdt` operand for a table at `base`.
    pub fn pointer(base: u64) -> (r: GdtPointer)
        ensures
            r == (GdtPointer { limit: (GDT_BYTE_SIZE - 1) as u16, base }),
    {
        GdtPointer { limit: GDT_BYTE_SIZE - 1, base }
    }
}

/// Whether `words` is a GDT the processor reads as the kernel's: the null
/// descriptor first; each selector indexing a segment with its access byte
/// (kernel code 0x9A, kernel data 0x92, user code 0xFA, user data 0xF2);
/// and the slot `TSS_SELECTOR` indexes, with the one after it, holding an
/// available 64-bit TSS descriptor (type 0x89, limit `TSS_SIZE - 1`) whose
/// base is `tss_base`.
pub open spec fn kernel_gdt_layout(words: Seq<u64>, tss_base: u64) -> bool {
    let tss = (TSS_SELECTOR >> 3u16) as int;
    &&& words.len() == GDT_ENTRIES
    &&& words[0] == 0
    &&& access_byte(words[(KERNEL_CODE_SELECTOR >> 3u16) as int]) == 0x9A
    &&& access_byte(words[(KERNEL_DATA_SELECTOR >> 3u16) as int]) == 0x92
    &&& access_byte(words[(USER_CODE_SELECTOR >> 3u16) as int]) == 0xFA
    &&& access_byte(words[(USER_DATA_SELECTOR >> 3u16) as int]) == 0xF2
    &&& tss_base_of_words(words[tss], words[tss + 1]) == tss_base
    &&& access_byte(words[tss]) == 0x89
    &&& words[tss] & 0xFFFFu64 == (TSS_SIZE - 1) as u64
}

/// Law: the kernel's GDT is laid out as the selectors expect, whatever the
/// TSS address: `ltr TSS_SELECTOR` finds the TSS descriptor for `tss_base`,
/// and each segment selector finds its segment.
pub proof fn lemma_kernel_gdt_layout(tss_base: u64)
    ensures
        kernel_gdt_layout(kernel_gdt_words(tss_base), tss_base),
{
    lemma_selectors_index_their_slots();
    lemma_tss_descriptor_base_roundtrip(tss_base);
    lemma_access_byte_roundtrip(flat_segment(0x9A));
    lemma_access_byte_roundtrip(flat_segment(0x92));
    lemma_access_byte_roundtrip(flat_segment(0xFA));
    lemma_access_byte_roundtrip(flat_segment(0xF2));
}

/// Law: the table processor initialization builds always passes the
/// user-segment check, whatever the TSS address.
pub proof fn lemma_kernel_gdt_valid(tss_base: u64)
    ensures
        user_segments_valid(kernel_gdt_words(tss_base)),
{
    let w = kernel_gdt_words(tss_base);
    lemma_access_byte_roundtrip(flat_segment(0x9A));
    lemma_access_byte_roundtrip(flat_segment(0x92));
    lemma_access_byte_roundtrip(flat_segment(0xFA));
    lemma_access_byte_roundtrip(flat_segment(0xF2));
    assert(w[1] == entry_word(flat_segment(0x9A)));
    assert(w[2] == entry_word(flat_segment(0x92)));
    assert(w[5] == entry_word(flat_segment(0xFA)));
    assert(w[6] == entry_word(flat_segment(0xF2)));
    assert((0x9Au8 & 0xFEu8) == 0x9Au8 && (0x92u8 & 0xFEu8) == 0x92u8 && (0xFAu8 & 0xFEu8) == 0xFAu8
        && (0xF2u8 & 0xFEu8) == 0xF2u8) by (bit_vector);
}

/// Law: each selector indexes the slot that holds its segment, with the
/// requested privilege level equal to the segment's.
pub proof fn lemma_selectors_index_their_slots()
    ensures
        KERNEL_CODE_SELECTOR >> 3u16 == 1u16 && KERNEL_CODE_SELECTOR & 3u16 == 0u16,
        KERNEL_DATA_SELECTOR >> 3u16 == 2u16 && KERNEL_DATA_SELECTOR & 3u16 == 0u16,
        TSS_SELECTOR >> 3u16 == 3u16 && TSS_SELECTOR & 3u16 == 0u16,
        USER_CODE_SELECTOR >> 3u16 == 5u16 && USER_CODE_SELECTOR & 3u16 == 3u16,
        USER_DATA_SELECTOR >> 3u16 == 6u16 && USER_DATA_SELECTOR & 3u16 == 3u16,
{
    assert(0x08u16 >> 3u16 == 1u16 && 0x08u16 & 3u16 == 0u16 && 0x10u16 >> 3u16 == 2u16 && 0x10u16 & 3u16 == 0u16
        && 0x18u16 >> 3u16 == 3u16 && 0x18u16 & 3u16 == 0u16 && 0x2Bu16 >> 3u16 == 5u16 && 0x2Bu16 & 3u16 == 3u16
        && 0x33u16 >> 3u16 == 6u16 && 0x33u16 & 3u16 == 3u16) by (bit_vector);
}


/// The 64-bit value whose halves are `low` and `high`.
pub open spec fn join_halves(low: u32, high: u32) -> u64 {
    (low as u64) | ((high as u64) << 32u64)
}

proof fn lemma_split_join(v: u64)
    ensures
        join_halves(v as u32, (v >> 32u64) as u32) == v,
{
    assert(((v as u32) as u64) | ((((v >> 32u64) as u32) as u64) << 32u64) == v) by (bit_vector);
}

/// The 64-bit task state segment. Its stack pointers are stored as 32-bit
/// halves, as in the processor's unaligned layout.
pub struct Tss {
    reserved_0: u32,
    rsp0_low: u32,
    rsp0_high: u32,
    rsp1_low: u32,
    rsp1_high: u32,
    rsp2_low: u32,
    rsp2_high: u32,
    ist1_low: u32,
    ist1_high: u32,
    ist2_low: u32,
    ist2_high: u32,
    ist3_low: u32,
    ist3_high: u32,
    ist4_low: u32,
    ist4_high: u32,
    ist5_low: u32,
    ist5_high: u32,
    ist6_low: u32,
    ist6_high: u32,
    ist7_low: u32,
    ist7_high: u32,
    reserved_1: u64,
    reserved_2: u64,
    reserved_3: u16,
    iomap_base: u16,
}

impl Tss {
    /// The ten stack pointers in layout order: RSP0 to RSP2, then IST1 to IST7.
    pub closed spec fn stack_slots(&self) -> Seq<u64> {
        seq![
            join_halves(self.rsp0_low, self.rsp0_high),
            join_halves(self.rsp1_low, self.rsp1_high),
            join_halves(self.rsp2_low, self.rsp2_high),
            join_halves(self.ist1_low, self.ist1_high),
            join_halves(self.ist2_low, self.ist2_high),
            join_halves(self.ist3_low, self.ist3_high),
            join_halves(self.ist4_low, self.ist4_high),
            join_halves(self.ist5_low, self.ist5_high),
            join_halves(self.ist6_low, self.ist6_high),
            join_halves(self.ist7_low, self.ist7_high)
        ]
    }

    /// Offset of the I/O permission bitmap.
    pub closed spec fn io_map_base(&self) -> u16 {
        self.iomap_base
    }

    /// Whether the reserved fields are zero.
    pub closed spec fn reserved_clear(&self) -> bool {
        self.reserved_0 == 0 && self.reserved_1 == 0 && self.reserved_2 == 0 && self.reserved_3 == 0
    }

    /// A TSS with every stack pointer zero and no I/O bitmap (its offset is
    /// the TSS size).
    pub fn new() -> (r: Self)
        ensures
            r.stack_slots() == Seq::new(10, |i: int| 0u64),
            r.io_map_base() == TSS_SIZE as u16,
            r.reserved_clear(),
    {
        let r = Tss {
            reserved_0: 0,
            rsp0_low: 0,
            rsp0_high: 0,
            rsp1_low: 0,
            rsp1_high: 0,
            rsp2_low: 0,
            rsp2_high: 0,
            ist1_low: 0,
            ist1_high: 0,
            ist2_low: 0,
            ist2_high: 0,
            ist3_low: 0,
            ist3_high: 0,
            ist4_low: 0,
            ist4_high: 0,
            ist5_low: 0,
            ist5_high: 0,
            ist6_low: 0,
            ist6_high: 0,
            ist7_low: 0,
            ist7_high: 0,
            reserved_1: 0,
            reserved_2: 0,
            reserved_3: 0,
            iomap_base: TSS_SIZE as u16,
        };
        assert((0u32 as u64) | ((0u32 as u64) << 32u64) == 0u64) by (bit_vector);
        assert(r.stack_slots() =~= Seq::new(10, |i: int| 0u64));
        r
    }

    /// Sets the ring-0 stack (RSP0) and the first interrupt stack (IST1).
    #[verifier::spinoff_prover]
    pub fn initialize_stacks(&mut self, kernel_stack_top: u64, ist1_stack_top: u64)
        ensures
            final(self).stack_slots() == old(self).stack_slots().update(0, kernel_stack_top).update(3, ist1_stack_top),
            final(self).stack_slots().len() == 10,
            final(self).io_map_base() == old(self).io_map_base(),
            final(self).reserved_clear() == old(self).reserved_clear(),
            final(self).image().len() == old(self).image().len(),
            forall|i: int|
                0 <= i < TSS_SIZE && !(4 <= i < 12) && !(36 <= i < 44) ==> #[trigger] final(self).image()[i]
                    == old(self).image()[i],
    {
        proof {
            lemma_tss_image_len(*old(self));
        }
        self.rsp0_low = kernel_stack_top as u32;
        self.rsp0_high = (kernel_stack_top >> 32u64) as u32;
        self.ist1_low = ist1_stack_top as u32;
        self.ist1_high = (ist1_stack_top >> 32u64) as u32;
        proof {
            lemma_split_join(kernel_stack_top);
            lemma_split_join(ist1_stack_top);
            assert(self.stack_slots() =~= old(self).stack_slots().update(0, kernel_stack_top).update(3, ist1_stack_top));
        }
    }

    /// The IST1 stack pointer as the processor reads it.
    pub fn ist1_stack_top(&self) -> (r: u64)
        ensures
            r == self.stack_slots()[3],
    {
        (self.ist1_low as u64) | ((self.ist1_high as u64) << 32u64)
    }

    /// The ring-0 stack pointer as the processor reads it.
    pub fn rsp0(&self) -> (r: u64)
        ensures
            r == self.stack_slots()[0],
    {
        (self.rsp0_low as u64) | ((self.rsp0_high as u64) << 32u64)
    }
}


/// The two bytes of `x`, least significant first.
pub open spec fn le16(x: u16) -> Seq<u8> {
    seq![x as u8, (x >> 8u16) as u8]
}

/// The four bytes of `x`, least significant first.
pub open spec fn le32(x: u32) -> Seq<u8> {
    seq![x as u8, (x >> 8u32) as u8, (x >> 16u32) as u8, (x >> 24u32) as u8]
}

/// The eight bytes of `x`, least significant first.
pub open spec fn le64(x: u64) -> Seq<u8> {
    seq![
        x as u8, (x >> 8u64) as u8, (x >> 16u64) as u8, (x >> 24u64) as u8,
        (x >> 32u64) as u8, (x >> 40u64) as u8, (x >> 48u64) as u8, (x >> 56u64) as u8,
    ]
}

/// The value of two bytes, least significant first.
pub open spec fn le_u16(b: Seq<u8>) -> u16 {
    (b[0] as u16) | ((b[1] as u16) << 8u16)
}

/// Byte offset of stack slot `k` (RSP0-RSP2, then IST1-IST7) in the TSS.
pub open spec fn stack_slot_offset(k: int) -> int {
    if k < 3 {
        4 + 8 * k
    } else {
        36 + 8 * (k - 3)
    }
}

fn push_u16(out: &mut Vec<u8>, x: u16)
    ensures
        final(out)@ == old(out)@ + le16(x),
{
    out.push(x as u8);
    out.push((x >> 8u16) as u8);
    assert(final(out)@ =~= old(out)@ + le16(x));
}

fn push_u32(out: &mut Vec<u8>, x: u32)
    ensures
        final(out)@ == old(out)@ + le32(x),
{
    out.push(x as u8);
    out.push((x >> 8u32) as u8);
    out.push((x >> 16u32) as u8);
    out.push((x >> 24u32) as u8);
    assert(final(out)@ =~= old(out)@ + le32(x));
}

fn push_u64(out: &mut Vec<u8>, x: u64)
    ensures
        final(out)@ == old(out)@ + le64(x),
{
    out.push(x as u8);
    out.push((x >> 8u64) as u8);
    out.push((x >> 16u64) as u8);
    out.push((x >> 24u64) as u8);
    out.push((x >> 32u64) as u8);
    out.push((x >> 40u64) as u8);
    out.push((x >> 48u64) as u8);
    out.push((x >> 56u64) as u8);
    assert(final(out)@ =~= old(out)@ + le64(x));
}

proof fn lemma_le_halves(low: u32, high: u32)
    ensures
        crate::frames::le_u64(le32(low) + le32(high)) == join_halves(low, high),
{
    let b = le32(low) + le32(high);
    assert(b[0] == low as u8 && b[1] == (low >> 8u32) as u8 && b[2] == (low >> 16u32) as u8 && b[3] == (low >> 24u32) as u8);
    assert(b[4] == high as u8 && b[5] == (high >> 8u32) as u8 && b[6] == (high >> 16u32) as u8 && b[7] == (high >> 24u32) as u8);
    assert(((low as u8) as u64) | ((((low >> 8u32) as u8) as u64) << 8u64) | ((((low >> 16u32) as u8) as u64) << 16u64)
        | ((((low >> 24u32) as u8) as u64) << 24u64) | (((high as u8) as u64) << 32u64)
        | ((((high >> 8u32) as u8) as u64) << 40u64) | ((((high >> 16u32) as u8) as u64) << 48u64)
        | ((((high >> 24u32) as u8) as u64) << 56u64) == (low as u64) | ((high as u64) << 32u64)) by (bit_vector);
}

impl Tss {
    /// The bytes of RSP1, RSP2 and the reserved word after them.
    pub closed spec fn middle_bytes(&self) -> Seq<u8> {
        le32(self.rsp1_low) + le32(self.rsp1_high) + le32(self.rsp2_low) + le32(self.rsp2_high) + le64(self.reserved_1)
    }

    /// The bytes of IST2 to IST7, the reserved fields after them and the
    /// I/O map base.
    pub closed spec fn tail_bytes(&self) -> Seq<u8> {
        le32(self.ist2_low)
            + le32(self.ist2_high)
            + le32(self.ist3_low)
            + le32(self.ist3_high)
            + le32(self.ist4_low)
            + le32(self.ist4_high)
            + le32(self.ist5_low)
            + le32(self.ist5_high)
            + le32(self.ist6_low)
            + le32(self.ist6_high)
            + le32(self.ist7_low)
            + le32(self.ist7_high)
            + le64(self.reserved_2)
            + le16(self.reserved_3)
            + le16(self.iomap_base)
    }

    /// The TSS as the processor reads it: 104 bytes, every field little
    /// endian, in layout order.
    pub closed spec fn image(&self) -> Seq<u8> {
        le32(self.reserved_0)
            + (le32(self.rsp0_low) + le32(self.rsp0_high))
            + self.middle_bytes()
            + (le32(self.ist1_low) + le32(self.ist1_high))
            + self.tail_bytes()
    }

    /// The bytes to store where the processor reads the TSS.
    #[verifier::spinoff_prover]
    pub fn to_bytes(&self) -> (r: Vec<u8>)
        ensures
            r@ == self.image(),
    {
        let mut out: Vec<u8> = Vec::new();
        push_u32(&mut out, self.reserved_0);
        push_u32(&mut out, self.rsp0_low);
        push_u32(&mut out, self.rsp0_high);
        push_u32(&mut out, self.rsp1_low);
        push_u32(&mut out, self.rsp1_high);
        push_u32(&mut out, self.rsp2_low);
        push_u32(&mut out, self.rsp2_high);
        push_u64(&mut out, self.reserved_1);
        push_u32(&mut out, self.ist1_low);
        push_u32(&mut out, self.ist1_high);
        push_u32(&mut out, self.ist2_low);
        push_u32(&mut out, self.ist2_high);
        push_u32(&mut out, self.ist3_low);
        push_u32(&mut out, self.ist3_high);
        push_u32(&mut out, self.ist4_low);
        push_u32(&mut out, self.ist4_high);
        push_u32(&mut out, self.ist5_low);
        push_u32(&mut out, self.ist5_high);
        push_u32(&mut out, self.ist6_low);
        push_u32(&mut out, self.ist6_high);
        push_u32(&mut out, self.ist7_low);
        push_u32(&mut out, self.ist7_high);
        push_u64(&mut out, self.reserved_2);
        push_u16(&mut out, self.reserved_3);
        push_u16(&mut out, self.iomap_base);
        assert(out@ =~= self.image());
        out
    }

    /// A TSS whose RSP0 is the top of the kernel stack starting at
    /// `kernel_stack_start` and whose IST1 is the top of the IST1 stack
    /// starting at `ist1_stack_start`; each stack is 16 KiB.
    pub fn for_kernel(kernel_stack_start: u64, ist1_stack_start: u64) -> (r: Self)
        requires
            kernel_stack_start + crate::cpu::KERNEL_STACK_SIZE <= u64::MAX,
            ist1_stack_start + crate::cpu::IST1_STACK_SIZE <= u64::MAX,
        ensures
            r.stack_slots() == Seq::new(10, |i: int| 0u64).update(0, (kernel_stack_start + crate::cpu::KERNEL_STACK_SIZE) as u64)
                .update(3, crate::cpu::ist1_range_of(ist1_stack_start).1),
            r.io_map_base() == TSS_SIZE as u16,
            r.reserved_clear(),
    {
        let mut tss = Tss::new();
        tss.initialize_stacks(
            kernel_stack_start + crate::cpu::KERNEL_STACK_SIZE,
            crate::cpu::ist1_stack_top(ist1_stack_start),
        );
        tss
    }
}

proof fn lemma_tss_image_len(t: Tss)
    ensures
        t.middle_bytes().len() == 24,
        t.tail_bytes().len() == 60,
        t.image().len() == TSS_SIZE,
{
}

/// Stack slot `k` is stored as its two 32-bit halves at its offset.
#[verifier::spinoff_prover]
proof fn lemma_tss_slot(t: Tss, k: int)
    requires
        0 <= k < 10,
    ensures
        crate::frames::le_u64(t.image().subrange(stack_slot_offset(k), stack_slot_offset(k) + 8)) == t.stack_slots()[k],
{
    lemma_tss_image_len(t);
    let (low, high) = if k == 0 {
        (t.rsp0_low, t.rsp0_high)
    } else if k == 1 {
        (t.rsp1_low, t.rsp1_high)
    } else if k == 2 {
        (t.rsp2_low, t.rsp2_high)
    } else if k == 3 {
        (t.ist1_low, t.ist1_high)
    } else if k == 4 {
        (t.ist2_low, t.ist2_high)
    } else if k == 5 {
        (t.ist3_low, t.ist3_high)
    } else if k == 6 {
        (t.ist4_low, t.ist4_high)
    } else if k == 7 {
        (t.ist5_low, t.ist5_high)
    } else if k == 8 {
        (t.ist6_low, t.ist6_high)
    } else {
        (t.ist7_low, t.ist7_high)
    };
    let off = stack_slot_offset(k);
    assert(t.image().subrange(off, off + 8) =~= le32(low) + le32(high));
    lemma_le_halves(low, high);
}

proof fn lemma_le_zero()
    ensures
        le16(0) == Seq::new(2, |i: int| 0u8),
        le32(0) == Seq::new(4, |i: int| 0u8),
        le64(0) == Seq::new(8, |i: int| 0u8),
{
    assert(((0u16 >> 8u16) as u8) == 0u8 && (0u16 as u8) == 0u8) by (bit_vector);
    assert((0u32 as u8) == 0u8 && ((0u32 >> 8u32) as u8) == 0u8 && ((0u32 >> 16u32) as u8) == 0u8
        && ((0u32 >> 24u32) as u8) == 0u8) by (bit_vector);
    assert(((0u64 >> 8u64) as u8) == 0u8 && ((0u64 >> 16u64) as u8) == 0u8 && ((0u64 >> 24u64) as u8) == 0u8
        && ((0u64 >> 32u64) as u8) == 0u8 && ((0u64 >> 40u64) as u8) == 0u8 && ((0u64 >> 48u64) as u8) == 0u8
        && ((0u64 >> 56u64) as u8) == 0u8 && (0u64 as u8) == 0u8) by (bit_vector);
    assert(le16(0) =~= Seq::new(2, |i: int| 0u8));
    assert(le32(0) =~= Seq::new(4, |i: int| 0u8));
    assert(le64(0) =~= Seq::new(8, |i: int| 0u8));
}

#[verifier::spinoff_prover]
proof fn lemma_tss_reserved_zero(t: Tss)
    requires
        t.reserved_clear(),
    ensures
        t.image().subrange(0, 4) == Seq::new(4, |i: int| 0u8),
        t.image().subrange(28, 36) == Seq::new(8, |i: int| 0u8),
        t.image().subrange(92, 102) == Seq::new(10, |i: int| 0u8),
{
    lemma_le_zero();
    lemma_tss_image_len(t);
    let img = t.image();
    let mid = t.middle_bytes();
    let tail = t.tail_bytes();
    assert(img.subrange(0, 4) =~= le32(t.reserved_0));
    assert(mid.subrange(16, 24) =~= le64(t.reserved_1));
    assert(img.subrange(28, 36) =~= mid.subrange(16, 24));
    assert(tail.subrange(48, 58) =~= le64(t.reserved_2) + le16(t.reserved_3));
    assert(img.subrange(92, 102) =~= tail.subrange(48, 58));
    assert(le64(0) + le16(0) =~= Seq::new(10, |i: int| 0u8));
}

#[verifier::spinoff_prover]
proof fn lemma_tss_io_map_base(t: Tss)
    ensures
        le_u16(t.image().subrange(102, 104)) == t.io_map_base(),
{
    lemma_tss_image_len(t);
    let tail = t.tail_bytes();
    assert(tail.subrange(58, 60) =~= le16(t.iomap_base));
    assert(t.image().subrange(102, 104) =~= tail.subrange(58, 60));
    let x = t.iomap_base;
    assert(((x as u8) as u16) | ((((x >> 8u16) as u8) as u16) << 8u16) == x) by (bit_vector);
}

/// Law: the TSS image is 104 bytes; stack slot `k` sits as a little-endian
/// word at byte `stack_slot_offset(k)` (RSP0 at 4, IST1 at 36); the I/O map
/// base sits at byte 102; and with the reserved fields clear every reserved
/// byte is 0. A fresh TSS therefore has its I/O map base at its own size, so
/// no I/O permission bitmap lies inside its limit.
pub proof fn lemma_tss_image_layout(t: Tss)
    ensures
        t.image().len() == TSS_SIZE,
        t.stack_slots().len() == 10,
        forall|k: int| 0 <= k < 10 ==> crate::frames::le_u64(
            #[trigger] t.image().subrange(stack_slot_offset(k), stack_slot_offset(k) + 8),
        ) == t.stack_slots()[k],
        le_u16(t.image().subrange(102, 104)) == t.io_map_base(),
        t.reserved_clear() ==> t.image().subrange(0, 4) == Seq::new(4, |i: int| 0u8)
            && t.image().subrange(28, 36) == Seq::new(8, |i: int| 0u8)
            && t.image().subrange(92, 102) == Seq::new(10, |i: int| 0u8),
{
    lemma_tss_image_len(t);
    assert forall|k: int| 0 <= k < 10 implies crate::frames::le_u64(
        #[trigger] t.image().subrange(stack_slot_offset(k), stack_slot_offset(k) + 8),
    ) == t.stack_slots()[k] by {
        lemma_tss_slot(t, k);
    }
    lemma_tss_io_map_base(t);
    if t.reserved_clear() {
        lemma_tss_reserved_zero(t);
    }
}

} // verus!
