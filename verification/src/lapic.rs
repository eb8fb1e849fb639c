//! Local APIC discovery from the IA32_APIC_BASE model-specific register.
use vstd::prelude::*;

verus! {

/// The IA32_APIC_BASE model-specific register.
pub const IA32_APIC_BASE_MSR: u32 = 0x1B;

pub const APIC_BASE_MASK: u64 = 0xFFFF_FFFF_FFFF_F000;
pub const APIC_GLOBAL_ENABLE: u64 = 1u64 << 11u64;

/// The local APIC: its physical register base and the MSR value it came from.
pub struct Lapic {
    base: u64,
    msr_value: u64,
}

/// The APIC found from an IA32_APIC_BASE value, as `(base, msr)`: none when
/// the APIC is globally disabled or its base is zero.
pub open spec fn lapic_of(msr_value: u64) -> Option<(u64, u64)> {
    if msr_value & APIC_GLOBAL_ENABLE == 0 || msr_value & APIC_BASE_MASK == 0 {
        None
    } else {
        Some((msr_value & APIC_BASE_MASK, msr_value))
    }
}

impl Lapic {
    pub closed spec fn spec_base(&self) -> u64 {
        self.base
    }

    pub closed spec fn spec_msr_value(&self) -> u64 {
        self.msr_value
    }

    /// The local APIC described by the value read from IA32_APIC_BASE.
    pub fn discover(msr_value: u64) -> (r: Option<Self>)
        ensures
            match lapic_of(msr_value) {
                None => r is None,
                Some((base, msr)) => r is Some && r->0.spec_base() == base && r->0.spec_msr_value() == msr,
            },
            r is Some <==> (msr_value & APIC_GLOBAL_ENABLE != 0 && msr_value >= 4096),
            r is Some ==> r->0.spec_base() == msr_value - msr_value % 4096 && r->0.spec_msr_value() == msr_value,
    {
        proof {
            lemma_apic_base_is_page(msr_value);
        }
        if (msr_value & APIC_GLOBAL_ENABLE) == 0 {
            return None;
        }
        let base = msr_value & APIC_BASE_MASK;
        if base == 0 {
            return None;
        }
        Some(Lapic { base, msr_value })
    }

    /// Physical base address of the APIC registers.
    pub fn base(&self) -> (r: u64)
        ensures
            r == self.spec_base(),
    {
        self.base
    }

    /// The IA32_APIC_BASE value the APIC was discovered from.
    pub fn msr_value(&self) -> (r: u64)
        ensures
            r == self.spec_msr_value(),
    {
        self.msr_value
    }
}

/// The base field of the register is the value rounded down to its page,
/// and it is zero exactly when the value is below one page.
proof fn lemma_apic_base_is_page(x: u64)
    ensures
        x & APIC_BASE_MASK == x - x % 4096,
        (x & APIC_BASE_MASK == 0) <==> x < 4096,
{
    assert(x & 0xFFFF_FFFF_FFFF_F000u64 == x - (x & 0xFFFu64)) by (bit_vector);
    assert(x & 0xFFFu64 == x % 4096) by (bit_vector);
    assert((x & 0xFFFF_FFFF_FFFF_F000u64 == 0) <==> x < 4096) by (bit_vector);
}

/// Law: a discovered APIC base is page aligned, nonzero, and the register
/// had its global enable bit set.
pub proof fn lemma_lapic_base_aligned(msr_value: u64)
    requires
        lapic_of(msr_value) is Some,
    ensures
        ({
            let found = lapic_of(msr_value)->0;
            found.0 % 4096 == 0 && found.0 != 0
        }),
        msr_value & APIC_GLOBAL_ENABLE != 0,
{
    assert((msr_value & 0xFFFF_FFFF_FFFF_F000u64) % 4096 == 0) by (bit_vector);
}

} // verus!
