//! Processor state decoding: interrupt flag, CPUID features, interrupt stacks.
use vstd::prelude::*;

verus! {

/// Bit of RFLAGS that enables maskable interrupts (IF).
pub const RFLAGS_INTERRUPT_FLAG: u64 = 1u64 << 9u64;

/// Size of the IST1 (double fault) stack, in bytes.
pub const IST1_STACK_SIZE: u64 = 16 * 1024;

/// Size of the ring-0 kernel stack kept in the TSS, in bytes.
pub const KERNEL_STACK_SIZE: u64 = 16 * 1024;

/// Whether bit `n` of `x` is set.
pub open spec fn bit_set_u32(x: u32, n: u32) -> bool {
    x & (1u32 << n) != 0
}

pub open spec fn interrupts_on(rflags: u64) -> bool {
    rflags & RFLAGS_INTERRUPT_FLAG != 0
}

/// Whether an RFLAGS value has interrupts enabled.
pub fn interrupt_flag(rflags: u64) -> (r: bool)
    ensures
        r == interrupts_on(rflags),
{
    rflags & RFLAGS_INTERRUPT_FLAG != 0
}

/// The interrupt state saved before disabling interrupts.
#[derive(Clone, Copy)]
pub struct InterruptState {
    rflags: u64,
}

impl InterruptState {
    /// The saved RFLAGS value.
    pub closed spec fn saved_rflags(&self) -> u64 {
        self.rflags
    }

    /// The state recorded from the RFLAGS value read just before `cli`.
    pub fn saved(rflags: u64) -> (r: Self)
        ensures
            r.saved_rflags() == rflags,
    {
        InterruptState { rflags }
    }

    /// Whether interrupts were enabled when the state was saved; restoring
    /// re-enables interrupts exactly in this case.
    pub fn were_enabled(self) -> (r: bool)
        ensures
            r == interrupts_on(self.saved_rflags()),
    {
        interrupt_flag(self.rflags)
    }
}

/// The four bytes of `x`, least significant first.
pub open spec fn le_bytes(x: u32) -> Seq<u8> {
    seq![x as u8, (x >> 8u32) as u8, (x >> 16u32) as u8, (x >> 24u32) as u8]
}

/// Processor identification and feature flags from CPUID.
#[derive(Clone, Copy)]
pub struct CpuInfo {
    pub vendor: [u8; 12],
    pub max_basic_leaf: u32,
    pub has_apic: bool,
    pub has_x2apic: bool,
    pub has_tsc: bool,
    pub has_msr: bool,
    pub has_sse: bool,
    pub has_sse2: bool,
    pub has_xsave: bool,
}

/// What CPUID leaf 0 (`eax, ebx, ecx, edx`) and the ECX/EDX feature words of
/// leaf 1 (zero when leaf 1 is not available) describe.
pub open spec fn cpu_info_matches(info: CpuInfo, leaf0: (u32, u32, u32, u32), feature_ecx: u32, feature_edx: u32) -> bool {
    &&& info.vendor@ == le_bytes(leaf0.1) + le_bytes(leaf0.3) + le_bytes(leaf0.2)
    &&& info.max_basic_leaf == leaf0.0
    &&& info.has_apic == bit_set_u32(feature_edx, 9)
    &&& info.has_tsc == bit_set_u32(feature_edx, 4)
    &&& info.has_msr == bit_set_u32(feature_edx, 5)
    &&& info.has_sse == bit_set_u32(feature_edx, 25)
    &&& info.has_sse2 == bit_set_u32(feature_edx, 26)
    &&& info.has_xsave == bit_set_u32(feature_ecx, 26)
    &&& info.has_x2apic == bit_set_u32(feature_ecx, 21)
}

/// Executes CPUID for `leaf`, returning `(eax, ebx, ecx, edx)`
/// (`core::arch::x86_64::__cpuid`). Nothing is claimed of the result: it
/// describes the processor the code runs on.
#[verifier::external_body]
fn cpuid(leaf: u32) -> (u32, u32, u32, u32) {
    let result = core::arch::x86_64::__cpuid(leaf);
    (result.eax, result.ebx, result.ecx, result.edx)
}

impl CpuInfo {
    /// Decodes the vendor string and feature flags. `leaf1` holds the ECX and
    /// EDX words of CPUID leaf 1 when the processor reports that leaf.
    pub fn from_cpuid(leaf0: (u32, u32, u32, u32), leaf1: Option<(u32, u32)>) -> (r: Self)
        ensures
            cpu_info_matches(
                r,
                leaf0,
                match leaf1 { Some(l) => l.0, None => 0 },
                match leaf1 { Some(l) => l.1, None => 0 },
            ),
    {
        let (max_basic_leaf, ebx, ecx, edx) = leaf0;
        let vendor: [u8; 12] = [
            ebx as u8, (ebx >> 8u32) as u8, (ebx >> 16u32) as u8, (ebx >> 24u32) as u8,
            edx as u8, (edx >> 8u32) as u8, (edx >> 16u32) as u8, (edx >> 24u32) as u8,
            ecx as u8, (ecx >> 8u32) as u8, (ecx >> 16u32) as u8, (ecx >> 24u32) as u8,
        ];
        let (feature_ecx, feature_edx) = match leaf1 {
            Some(l) => l,
            None => (0u32, 0u32),
        };
        let r = CpuInfo {
            vendor,
            max_basic_leaf,
            has_apic: (feature_edx & (1u32 << 9u32)) != 0,
            has_x2apic: (feature_ecx & (1u32 << 21u32)) != 0,
            has_tsc: (feature_edx & (1u32 << 4u32)) != 0,
            has_msr: (feature_edx & (1u32 << 5u32)) != 0,
            has_sse: (feature_edx & (1u32 << 25u32)) != 0,
            has_sse2: (feature_edx & (1u32 << 26u32)) != 0,
            has_xsave: (feature_ecx & (1u32 << 26u32)) != 0,
        };
        assert(r.vendor@ =~= le_bytes(ebx) + le_bytes(edx) + le_bytes(ecx));
        r
    }

    /// Reads CPUID leaf 0 and, when the processor reports it, leaf 1, and
    /// decodes them. Without leaf 1 every feature flag is false.
    pub fn detect() -> (r: Self)
        ensures
            exists|leaf0: (u32, u32, u32, u32), feature_ecx: u32, feature_edx: u32|
                cpu_info_matches(r, leaf0, feature_ecx, feature_edx)
                && (leaf0.0 < 1 ==> feature_ecx == 0 && feature_edx == 0),
    {
        let leaf0 = cpuid(0);
        let leaf1 = if leaf0.0 >= 1 {
            let (_, _, ecx, edx) = cpuid(1);
            Some((ecx, edx))
        } else {
            None
        };
        let r = CpuInfo::from_cpuid(leaf0, leaf1);
        proof {
            let fe = match leaf1 { Some(l) => l.0, None => 0u32 };
            let fd = match leaf1 { Some(l) => l.1, None => 0u32 };
            assert(cpu_info_matches(r, leaf0, fe, fd));
        }
        r
    }
}

/// The IST1 stack as `(lowest address, top)` for a stack starting at `start`.
pub open spec fn ist1_range_of(start: u64) -> (u64, u64) {
    (start, (start + IST1_STACK_SIZE) as u64)
}

/// The IST1 stack range for a stack whose lowest address is `ist1_stack_start`.
pub fn ist1_stack_range(ist1_stack_start: u64) -> (r: (u64, u64))
    requires
        ist1_stack_start + IST1_STACK_SIZE <= u64::MAX,
    ensures
        r == ist1_range_of(ist1_stack_start),
        r.1 - r.0 == IST1_STACK_SIZE,
        ist1_stack_start % 16 == 0 ==> r.0 % 16 == 0 && r.1 % 16 == 0,
{
    (ist1_stack_start, ist1_stack_start + IST1_STACK_SIZE)
}

/// The top of the IST1 stack starting at `ist1_stack_start`.
pub fn ist1_stack_top(ist1_stack_start: u64) -> (r: u64)
    requires
        ist1_stack_start + IST1_STACK_SIZE <= u64::MAX,
    ensures
        r == ist1_stack_start + IST1_STACK_SIZE,
        r == ist1_range_of(ist1_stack_start).1,
        ist1_stack_start % 16 == 0 ==> r % 16 == 0,
{
    ist1_stack_start + IST1_STACK_SIZE
}

/// Whether a stack pointer lies on the IST1 stack (top included).
pub fn on_ist1_stack(rsp: u64, range: (u64, u64)) -> (r: bool)
    ensures
        r == (range.0 <= rsp && rsp <= range.1),
{
    rsp >= range.0 && rsp <= range.1
}

} // verus!
