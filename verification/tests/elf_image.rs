use mentacore::elf::{
    align_up, segment_data, segments_load_plan, segments_memory_range, KernelElf, ProgramSegment, PAGE_SIZE, PT_LOAD,
};

const PT_NOTE: u32 = 4;

fn push_u16(out: &mut Vec<u8>, v: u16) {
    out.extend_from_slice(&v.to_le_bytes());
}

fn push_u32(out: &mut Vec<u8>, v: u32) {
    out.extend_from_slice(&v.to_le_bytes());
}

fn push_u64(out: &mut Vec<u8>, v: u64) {
    out.extend_from_slice(&v.to_le_bytes());
}

/// A little-endian ELF64 executable with the given program headers
/// (type, offset, vaddr, filesz, memsz), followed by `payload`.
fn elf_file(entry: u64, headers: &[(u32, u64, u64, u64, u64)], payload: &[u8]) -> Vec<u8> {
    let mut out = vec![0x7F, b'E', b'L', b'F', 2, 1, 1, 0];
    out.extend_from_slice(&[0u8; 8]);
    push_u16(&mut out, 2);
    push_u16(&mut out, 0x3E);
    push_u32(&mut out, 1);
    push_u64(&mut out, entry);
    push_u64(&mut out, if headers.is_empty() { 0 } else { 64 });
    push_u64(&mut out, 0);
    push_u32(&mut out, 0);
    push_u16(&mut out, 64);
    push_u16(&mut out, 56);
    push_u16(&mut out, headers.len() as u16);
    push_u16(&mut out, 64);
    push_u16(&mut out, 0);
    push_u16(&mut out, 0);
    assert_eq!(out.len(), 64);
    for &(ty, offset, vaddr, filesz, memsz) in headers {
        push_u32(&mut out, ty);
        push_u32(&mut out, 5);
        push_u64(&mut out, offset);
        push_u64(&mut out, vaddr);
        push_u64(&mut out, vaddr);
        push_u64(&mut out, filesz);
        push_u64(&mut out, memsz);
        push_u64(&mut out, 0x1000);
    }
    out.extend_from_slice(payload);
    out
}

fn seg(p_type: u32, p_vaddr: u64, p_filesz: u64, p_memsz: u64) -> ProgramSegment {
    ProgramSegment { p_type, p_offset: 0, p_vaddr, p_filesz, p_memsz }
}

#[test]
fn parse_rejects_non_elf_bytes() {
    assert!(KernelElf::parse(b"definitely not an ELF file, just text bytes").is_err());
    assert!(KernelElf::parse(&[]).is_err());
}

#[test]
fn parse_reads_entry_point() {
    let file = elf_file(0xFFFF_8000_0010_0000, &[(PT_LOAD, 0, 0x10_0000, 0, 0x10)], &[]);
    let elf = KernelElf::parse(&file).unwrap();
    assert_eq!(elf.entry(), 0xFFFF_8000_0010_0000);
}

#[test]
fn memory_range_of_one_segment_rounds_to_pages() {
    let file = elf_file(0x10_0000, &[(PT_LOAD, 0, 0x10_0000, 0x1000, 0x1234)], &[]);
    let elf = KernelElf::parse(&file).unwrap();
    assert_eq!(elf.memory_range(), Ok((0x10_0000, 0x2000, 2)));
}

#[test]
fn memory_range_spans_all_load_segments_and_skips_others() {
    let file = elf_file(
        0x20_0000,
        &[
            (PT_NOTE, 0, 0x10_0000, 0x10, 0x10),
            (PT_LOAD, 0, 0x20_1010, 0x10, 0x10),
            (PT_LOAD, 0, 0x20_0000, 0x800, 0x800),
        ],
        &[],
    );
    let elf = KernelElf::parse(&file).unwrap();
    assert_eq!(elf.memory_range(), Ok((0x20_0000, 0x2000, 2)));
}

#[test]
fn memory_range_without_program_headers_is_refused() {
    let file = elf_file(0x1000, &[], &[]);
    let elf = KernelElf::parse(&file).unwrap();
    assert_eq!(elf.memory_range(), Err(()));
    assert!(elf.segment_loads().is_err());
}

#[test]
fn memory_range_refuses_bad_segments() {
    // No loadable segment.
    assert_eq!(segments_memory_range(&[seg(PT_NOTE, 0x1000, 0, 0x10)]), Err(()));
    // Memory size below file size.
    assert_eq!(segments_memory_range(&[seg(PT_LOAD, 0x1000, 0x20, 0x10)]), Err(()));
    // End address overflows.
    assert_eq!(segments_memory_range(&[seg(PT_LOAD, u64::MAX - 4, 0, 0x10)]), Err(()));
    // Page-rounded end overflows.
    assert_eq!(segments_memory_range(&[seg(PT_LOAD, u64::MAX - 0x20, 0, 0x10)]), Err(()));
    // Empty range: a zero-sized segment on a page boundary.
    assert_eq!(segments_memory_range(&[seg(PT_LOAD, 0x3000, 0, 0)]), Err(()));
    // An invalid segment after a valid one still refuses the image.
    assert_eq!(
        segments_memory_range(&[seg(PT_LOAD, 0x1000, 0, 0x10), seg(PT_LOAD, 0x9000, 0x30, 0x10)]),
        Err(())
    );
}

#[test]
fn memory_range_covers_every_loadable_segment() {
    let segments = [
        seg(PT_LOAD, 0x40_0123, 0x100, 0x2000),
        seg(PT_LOAD, 0x40_5000, 0, 0x1),
        seg(PT_NOTE, 0x1, 0, 0x1),
    ];
    let (start, size, pages) = segments_memory_range(&segments).unwrap();
    assert_eq!(start % PAGE_SIZE, 0);
    assert_eq!(size % PAGE_SIZE, 0);
    assert_eq!(pages as u64 * PAGE_SIZE, size);
    for s in segments.iter().filter(|s| s.p_type == PT_LOAD) {
        assert!(start <= s.p_vaddr && s.p_vaddr + s.p_memsz <= start + size);
    }
    assert_eq!((start, size, pages), (0x40_0000, 0x6000, 6));
}

#[test]
fn segment_loads_plan_copies_and_clears() {
    let payload = [1u8, 2, 3, 4, 5, 6, 7, 8];
    let data_offset = 64 + 2 * 56;
    let file = elf_file(
        0x10_0000,
        &[(PT_LOAD, data_offset, 0x10_0000, 6, 0x20), (PT_NOTE, data_offset, 0, 2, 2)],
        &payload,
    );
    let elf = KernelElf::parse(&file).unwrap();
    let plan = elf.segment_loads().unwrap();
    assert_eq!(plan.len(), 1);
    assert_eq!(plan[0].destination, 0x10_0000);
    assert_eq!(plan[0].data, &payload[..6]);
    assert_eq!(plan[0].zero_fill, 0x20 - 6);
}

#[test]
fn segment_loads_refuses_data_outside_file() {
    let file = elf_file(0x10_0000, &[(PT_LOAD, 0x10_0000, 0x10_0000, 6, 0x20)], &[]);
    let elf = KernelElf::parse(&file).unwrap();
    assert!(elf.segment_loads().is_err());
}

#[test]
fn segment_data_takes_the_file_range() {
    let data = [10u8, 11, 12, 13, 14];
    let s = ProgramSegment { p_type: PT_LOAD, p_offset: 1, p_vaddr: 0, p_filesz: 3, p_memsz: 3 };
    assert_eq!(segment_data(&data, &s), Some(&data[1..4]));
    let whole = ProgramSegment { p_offset: 0, p_filesz: 5, ..s };
    assert_eq!(segment_data(&data, &whole), Some(&data[..]));
    let past = ProgramSegment { p_offset: 3, p_filesz: 3, ..s };
    assert_eq!(segment_data(&data, &past), None);
    let huge = ProgramSegment { p_offset: u64::MAX, p_filesz: 2, ..s };
    assert_eq!(segment_data(&data, &huge), None);
}

#[test]
fn align_up_rounds_to_power_of_two() {
    assert_eq!(align_up(0, 4096), Some(0));
    assert_eq!(align_up(1, 4096), Some(4096));
    assert_eq!(align_up(4096, 4096), Some(4096));
    assert_eq!(align_up(4097, 4096), Some(8192));
    assert_eq!(align_up(17, 16), Some(32));
    assert_eq!(align_up(u64::MAX - 10, 4096), None);
    assert_eq!(align_up(u64::MAX, 1), Some(u64::MAX));
}

#[test]
fn load_plan_stays_inside_memory_range() {
    let data = vec![0xAAu8; 0x3000];
    let segments = [
        ProgramSegment { p_type: PT_LOAD, p_offset: 0x0, p_vaddr: 0x40_0100, p_filesz: 0x800, p_memsz: 0x1800 },
        ProgramSegment { p_type: 4, p_offset: 0x0, p_vaddr: 0x1, p_filesz: 0x10, p_memsz: 0x10 },
        ProgramSegment { p_type: PT_LOAD, p_offset: 0x1000, p_vaddr: 0x40_3000, p_filesz: 0x2000, p_memsz: 0x2000 },
    ];
    let (start, size, _) = segments_memory_range(&segments).unwrap();
    let plan = segments_load_plan(&data, &segments).unwrap();
    assert_eq!(plan.len(), 2);
    for load in &plan {
        assert!(start <= load.destination);
        assert!(load.destination + load.data.len() as u64 + load.zero_fill <= start + size);
    }
    assert_eq!(plan[0].zero_fill, 0x1000);
    assert_eq!(plan[1].data.len(), 0x2000);
}
