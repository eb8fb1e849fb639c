//! Interrupt descriptor table contents.
use vstd::prelude::*;

verus! {

/// Number of interrupt vectors.
pub const IDT_ENTRIES: usize = 256;

/// Byte size of one gate descriptor.
pub const IDT_ENTRY_SIZE: u16 = 16;

pub const DIVIDE_ERROR_VECTOR: usize = 0;
pub const INVALID_OPCODE_VECTOR: usize = 6;
pub const DOUBLE_FAULT_VECTOR: usize = 8;
pub const GENERAL_PROTECTION_VECTOR: usize = 13;
pub const PAGE_FAULT_VECTOR: usize = 14;
pub const TIMER_IRQ_VECTOR: usize = 32;
pub const LAPIC_TIMER_VECTOR: u8 = 0x40;
/// Vector of the descriptor user code may raise with `int` (privilege test).
pub const USER_TEST_VECTOR: usize = 0x80;

/// A 64-bit interrupt gate descriptor, field by field.
#[derive(Clone, Copy, PartialEq, Eq, Structural)]
pub struct IdtEntry {
    pub offset_low: u16,
    pub selector: u16,
    pub options: u16,
    pub offset_mid: u16,
    pub offset_high: u32,
    pub reserved: u32,
}

pub open spec fn missing_gate() -> IdtEntry {
    IdtEntry { offset_low: 0, selector: 0, options: 0, offset_mid: 0, offset_high: 0, reserved: 0 }
}

/// A present interrupt gate to `address` with the given options word.
pub open spec fn gate_with_options(address: u64, selector: u16, options: u16) -> IdtEntry {
    IdtEntry {
        offset_low: address as u16,
        selector,
        options,
        offset_mid: (address >> 16u64) as u16,
        offset_high: (address >> 32u64) as u32,
        reserved: 0,
    }
}

/// A kernel interrupt gate (present, DPL 0) that switches to stack `ist`
/// (only its low three bits count; 0 keeps the current stack).
pub open spec fn kernel_gate(address: u64, selector: u16, ist: u8) -> IdtEntry {
    gate_with_options(address, selector, 0x8E00u16 | ((ist & 0x07u8) as u16))
}

/// An interrupt gate user code may invoke (present, DPL 3).
pub open spec fn user_gate(address: u64, selector: u16) -> IdtEntry {
    gate_with_options(address, selector, 0xEE00u16)
}

/// The handler address the processor reads from a gate.
pub open spec fn gate_address(e: IdtEntry) -> u64 {
    (e.offset_low as u64) | ((e.offset_mid as u64) << 16u64) | ((e.offset_high as u64) << 32u64)
}

/// Whether the processor, taking an interrupt through `e`, finds a present
/// 64-bit interrupt gate that jumps to `address` in code segment `cs`, with
/// privilege level `dpl` and interrupt stack index `ist`.
pub open spec fn gate_routes(e: IdtEntry, address: u64, cs: u16, ist: u16, dpl: u16) -> bool {
    &&& gate_address(e) == address
    &&& e.selector == cs
    &&& e.options >> 15u16 == 1u16
    &&& (e.options >> 8u16) & 0xFu16 == 0xEu16
    &&& (e.options >> 13u16) & 3u16 == dpl
    &&& e.options & 7u16 == ist
}

/// Whether the present bit of a gate is set.
pub open spec fn gate_present(e: IdtEntry) -> bool {
    e.options >> 15u16 == 1u16
}

/// Whether `v` is one of the vectors the kernel installs in every table.
pub open spec fn kernel_vector(v: int) -> bool {
    v == DIVIDE_ERROR_VECTOR || v == INVALID_OPCODE_VECTOR || v == DOUBLE_FAULT_VECTOR
        || v == GENERAL_PROTECTION_VECTOR || v == PAGE_FAULT_VECTOR || v == TIMER_IRQ_VECTOR
        || v == LAPIC_TIMER_VECTOR
}

impl IdtEntry {
    /// A not-present gate.
    pub fn missing() -> (r: Self)
        ensures
            r == missing_gate(),
    {
        IdtEntry { offset_low: 0, selector: 0, options: 0, offset_mid: 0, offset_high: 0, reserved: 0 }
    }

    /// Points the descriptor at a kernel handler, running on interrupt stack `ist`.
    pub fn set_handler(&mut self, address: u64, selector: u16, ist: u8)
        ensures
            *final(self) == kernel_gate(address, selector, ist),
    {
        self.offset_low = address as u16;
        self.selector = selector;
        self.options = 0x8E00u16 | ((ist & 0x07u8) as u16);
        self.offset_mid = (address >> 16u64) as u16;
        self.offset_high = (address >> 32u64) as u32;
        self.reserved = 0;
    }

    /// Points the descriptor at a handler that ring-3 code may invoke.
    pub fn set_user_handler(&mut self, address: u64, selector: u16)
        ensures
            *final(self) == user_gate(address, selector),
    {
        self.offset_low = address as u16;
        self.selector = selector;
        self.options = 0x8E00u16 | (3u16 << 13u16);
        self.offset_mid = (address >> 16u64) as u16;
        self.offset_high = (address >> 32u64) as u32;
        self.reserved = 0;
        assert(0x8E00u16 | (3u16 << 13u16) == 0xEE00u16) by (bit_vector);
    }
}

/// Law: a gate built for a handler leads the processor to that handler, is
/// present, is a 64-bit interrupt gate, and carries the requested stack
/// index and privilege level.
pub proof fn lemma_gate_fields(address: u64, selector: u16, ist: u8)
    ensures
        gate_address(kernel_gate(address, selector, ist)) == address,
        gate_address(user_gate(address, selector)) == address,
        kernel_gate(address, selector, ist).options >> 15u16 == 1u16,
        (kernel_gate(address, selector, ist).options >> 8u16) & 0xFu16 == 0xEu16,
        (kernel_gate(address, selector, ist).options >> 13u16) & 3u16 == 0u16,
        kernel_gate(address, selector, ist).options & 7u16 == (ist & 7u8) as u16,
        user_gate(address, selector).options >> 15u16 == 1u16,
        (user_gate(address, selector).options >> 8u16) & 0xFu16 == 0xEu16,
        (user_gate(address, selector).options >> 13u16) & 3u16 == 3u16,
        user_gate(address, selector).options & 7u16 == 0u16,
{
    assert(((address as u16) as u64) | ((((address >> 16u64) as u16) as u64) << 16u64)
        | ((((address >> 32u64) as u32) as u64) << 32u64) == address) by (bit_vector);
    let o = 0x8E00u16 | ((ist & 0x07u8) as u16);
    assert(o == 0x8E00u16 | ((ist & 0x07u8) as u16) ==> o >> 15u16 == 1u16 && (o >> 8u16) & 0xFu16 == 0xEu16
        && (o >> 13u16) & 3u16 == 0u16 && o & 7u16 == (ist & 7u8) as u16) by (bit_vector);
    assert(0xEE00u16 >> 15u16 == 1u16 && (0xEE00u16 >> 8u16) & 0xFu16 == 0xEu16 && (0xEE00u16 >> 13u16) & 3u16 == 3u16
        && 0xEE00u16 & 7u16 == 0u16) by (bit_vector);
}

/// Entry addresses of the kernel's interrupt handlers.
#[derive(Clone, Copy, PartialEq, Eq, Structural)]
pub struct InterruptHandlers {
    pub divide_error: u64,
    pub invalid_opcode: u64,
    pub double_fault: u64,
    pub general_protection: u64,
    pub page_fault: u64,
    pub timer_irq: u64,
    pub lapic_timer: u64,
    /// The ring-3 test gate, installed only when present.
    pub user_privilege: Option<u64>,
}

/// The descriptor the kernel installs at `vector`: double faults switch to IST1,
/// every other handler runs on the current stack.
pub open spec fn kernel_idt_entry(h: InterruptHandlers, cs: u16, vector: int) -> IdtEntry {
    if vector == DIVIDE_ERROR_VECTOR {
        kernel_gate(h.divide_error, cs, 0)
    } else if vector == INVALID_OPCODE_VECTOR {
        kernel_gate(h.invalid_opcode, cs, 0)
    } else if vector == DOUBLE_FAULT_VECTOR {
        kernel_gate(h.double_fault, cs, 1)
    } else if vector == GENERAL_PROTECTION_VECTOR {
        kernel_gate(h.general_protection, cs, 0)
    } else if vector == PAGE_FAULT_VECTOR {
        kernel_gate(h.page_fault, cs, 0)
    } else if vector == TIMER_IRQ_VECTOR {
        kernel_gate(h.timer_irq, cs, 0)
    } else if vector == LAPIC_TIMER_VECTOR {
        kernel_gate(h.lapic_timer, cs, 0)
    } else if vector == USER_TEST_VECTOR && h.user_privilege is Some {
        user_gate(h.user_privilege->0, cs)
    } else {
        missing_gate()
    }
}

/// The interrupt descriptor table.
pub struct Idt {
    entries: Vec<IdtEntry>,
}

/// The `lidt` operand.
#[derive(Clone, Copy, PartialEq, Eq, Structural)]
pub struct IdtPointer {
    pub limit: u16,
    pub base: u64,
}

impl Idt {
    pub closed spec fn gates(&self) -> Seq<IdtEntry> {
        self.entries@
    }

    pub closed spec fn wf(&self) -> bool {
        self.entries.len() == IDT_ENTRIES
    }

    /// A table with no gate present.
    pub fn new() -> (r: Self)
        ensures
            r.wf(),
            r.gates() == Seq::new(IDT_ENTRIES as nat, |i: int| missing_gate()),
    {
        let mut entries: Vec<IdtEntry> = Vec::new();
        let mut i: usize = 0;
        while i < IDT_ENTRIES
            invariant
                i <= IDT_ENTRIES,
                entries@ == Seq::new(i as nat, |k: int| missing_gate()),
            decreases IDT_ENTRIES - i,
        {
            entries.push(IdtEntry::missing());
            i = i + 1;
            assert(entries@ =~= Seq::new(i as nat, |k: int| missing_gate()));
        }
        Idt { entries }
    }

    /// Installs a kernel handler at `vector`.
    pub fn set_handler(&mut self, vector: usize, address: u64, selector: u16, ist: u8)
        requires
            old(self).wf(),
            vector < IDT_ENTRIES,
        ensures
            final(self).wf(),
            final(self).gates() == old(self).gates().update(vector as int, kernel_gate(address, selector, ist)),
    {
        let mut entry = IdtEntry::missing();
        entry.set_handler(address, selector, ist);
        self.entries.set(vector, entry);
    }

    /// Installs a handler user code may invoke at `vector`.
    pub fn set_user_handler(&mut self, vector: usize, address: u64, selector: u16)
        requires
            old(self).wf(),
            vector < IDT_ENTRIES,
        ensures
            final(self).wf(),
            final(self).gates() == old(self).gates().update(vector as int, user_gate(address, selector)),
    {
        let mut entry = IdtEntry::missing();
        entry.set_user_handler(address, selector);
        self.entries.set(vector, entry);
    }

    /// Marks the descriptor at `vector` not present.
    pub fn clear_handler(&mut self, vector: usize)
        requires
            old(self).wf(),
            vector < IDT_ENTRIES,
        ensures
            final(self).wf(),
            final(self).gates() == old(self).gates().update(vector as int, missing_gate()),
    {
        self.entries.set(vector, IdtEntry::missing());
    }

    /// The descriptor at `vector`.
    pub fn gate(&self, vector: usize) -> (r: IdtEntry)
        requires
            self.wf(),
            vector < IDT_ENTRIES,
        ensures
            r == self.gates()[vector as int],
    {
        self.entries[vector]
    }

    /// The kernel's table: the exception, timer and LAPIC timer gates with
    /// code segment `code_segment`, and the ring-3 test gate when given.
    pub fn for_kernel(handlers: &InterruptHandlers, code_segment: u16) -> (r: Self)
        ensures
            r.wf(),
            r.gates() == Seq::new(IDT_ENTRIES as nat, |v: int| kernel_idt_entry(*handlers, code_segment, v)),
            gate_routes(r.gates()[DIVIDE_ERROR_VECTOR as int], handlers.divide_error, code_segment, 0, 0),
            gate_routes(r.gates()[INVALID_OPCODE_VECTOR as int], handlers.invalid_opcode, code_segment, 0, 0),
            gate_routes(r.gates()[DOUBLE_FAULT_VECTOR as int], handlers.double_fault, code_segment, 1, 0),
            gate_routes(r.gates()[GENERAL_PROTECTION_VECTOR as int], handlers.general_protection, code_segment, 0, 0),
            gate_routes(r.gates()[PAGE_FAULT_VECTOR as int], handlers.page_fault, code_segment, 0, 0),
            gate_routes(r.gates()[TIMER_IRQ_VECTOR as int], handlers.timer_irq, code_segment, 0, 0),
            gate_routes(r.gates()[LAPIC_TIMER_VECTOR as int], handlers.lapic_timer, code_segment, 0, 0),
            handlers.user_privilege is Some ==> gate_routes(
                r.gates()[USER_TEST_VECTOR as int],
                handlers.user_privilege->0,
                code_segment,
                0,
                3,
            ),
            forall|v: int|
                0 <= v < IDT_ENTRIES && !kernel_vector(v) && !(v == USER_TEST_VECTOR && handlers.user_privilege is Some)
                    ==> !gate_present(#[trigger] r.gates()[v]),
    {
        let mut idt = Idt::new();
        idt.set_handler(DIVIDE_ERROR_VECTOR, handlers.divide_error, code_segment, 0);
        idt.set_handler(INVALID_OPCODE_VECTOR, handlers.invalid_opcode, code_segment, 0);
        idt.set_handler(DOUBLE_FAULT_VECTOR, handlers.double_fault, code_segment, 1);
        idt.set_handler(GENERAL_PROTECTION_VECTOR, handlers.general_protection, code_segment, 0);
        idt.set_handler(PAGE_FAULT_VECTOR, handlers.page_fault, code_segment, 0);
        idt.set_handler(TIMER_IRQ_VECTOR, handlers.timer_irq, code_segment, 0);
        idt.set_handler(LAPIC_TIMER_VECTOR as usize, handlers.lapic_timer, code_segment, 0);
        match handlers.user_privilege {
            Some(address) => idt.set_user_handler(USER_TEST_VECTOR, address, code_segment),
            None => {},
        }
        assert(idt.gates() =~= Seq::new(IDT_ENTRIES as nat, |v: int| kernel_idt_entry(*handlers, code_segment, v)));
        proof {
            lemma_kernel_idt_routes(*handlers, code_segment, DIVIDE_ERROR_VECTOR as int);
            lemma_kernel_idt_routes(*handlers, code_segment, INVALID_OPCODE_VECTOR as int);
            lemma_kernel_idt_routes(*handlers, code_segment, DOUBLE_FAULT_VECTOR as int);
            lemma_kernel_idt_routes(*handlers, code_segment, GENERAL_PROTECTION_VECTOR as int);
            lemma_kernel_idt_routes(*handlers, code_segment, PAGE_FAULT_VECTOR as int);
            lemma_kernel_idt_routes(*handlers, code_segment, TIMER_IRQ_VECTOR as int);
            lemma_kernel_idt_routes(*handlers, code_segment, LAPIC_TIMER_VECTOR as int);
            lemma_kernel_idt_routes(*handlers, code_segment, USER_TEST_VECTOR as int);
            assert forall|v: int|
                0 <= v < IDT_ENTRIES && !kernel_vector(v) && !(v == USER_TEST_VECTOR && handlers.user_privilege is Some)
                    implies !gate_present(#[trigger] idt.gates()[v]) by {
                lemma_kernel_idt_routes(*handlers, code_segment, v);
            }
        }
        idt
    }

    /// The `lidt` operand for a table at `base`: 256 gates of 16 bytes.
    pub fn pointer(base: u64) -> (r: IdtPointer)
        ensures
            r == (IdtPointer { limit: (IDT_ENTRY_SIZE * IDT_ENTRIES - 1) as u16, base }),
    {
        IdtPointer { limit: IDT_ENTRY_SIZE * (IDT_ENTRIES as u16) - 1, base }
    }
}


/// Law: in the kernel's table every installed vector leads to its own
/// handler through a present interrupt gate in code segment `cs`: divide
/// error, invalid opcode, double fault, general protection, page fault, the
/// legacy timer and the LAPIC timer. Only the double fault gate switches
/// stacks (to IST1); the ring-3 gate, when given, is the only one user code
/// may invoke; every other vector is not present.
pub proof fn lemma_kernel_idt_routes(h: InterruptHandlers, cs: u16, vector: int)
    requires
        0 <= vector < IDT_ENTRIES,
    ensures
        ({
            let e = kernel_idt_entry(h, cs, vector);
            let installed = kernel_vector(vector);
            &&& installed ==> e.selector == cs && e.options >> 15u16 == 1u16
                && (e.options >> 13u16) & 3u16 == 0u16
                && e.options & 7u16 == (if vector == DOUBLE_FAULT_VECTOR { 1u16 } else { 0u16 })
            &&& vector == DIVIDE_ERROR_VECTOR ==> gate_routes(e, h.divide_error, cs, 0, 0)
            &&& vector == INVALID_OPCODE_VECTOR ==> gate_routes(e, h.invalid_opcode, cs, 0, 0)
            &&& vector == DOUBLE_FAULT_VECTOR ==> gate_routes(e, h.double_fault, cs, 1, 0)
            &&& vector == GENERAL_PROTECTION_VECTOR ==> gate_routes(e, h.general_protection, cs, 0, 0)
            &&& vector == PAGE_FAULT_VECTOR ==> gate_routes(e, h.page_fault, cs, 0, 0)
            &&& vector == TIMER_IRQ_VECTOR ==> gate_routes(e, h.timer_irq, cs, 0, 0)
            &&& vector == LAPIC_TIMER_VECTOR ==> gate_routes(e, h.lapic_timer, cs, 0, 0)
            &&& vector == PAGE_FAULT_VECTOR ==> gate_address(e) == h.page_fault
            &&& vector == DOUBLE_FAULT_VECTOR ==> gate_address(e) == h.double_fault
            &&& vector == TIMER_IRQ_VECTOR ==> gate_address(e) == h.timer_irq
            &&& vector == LAPIC_TIMER_VECTOR ==> gate_address(e) == h.lapic_timer
            &&& vector == USER_TEST_VECTOR && h.user_privilege is Some ==> (e.options >> 13u16) & 3u16 == 3u16
                && gate_address(e) == h.user_privilege->0
                && gate_routes(e, h.user_privilege->0, cs, 0, 3)
            &&& !installed && !(vector == USER_TEST_VECTOR && h.user_privilege is Some) ==> e == missing_gate()
                && !gate_present(e)
        }),
{
    let e = kernel_idt_entry(h, cs, vector);
    if vector == DIVIDE_ERROR_VECTOR {
        lemma_gate_fields(h.divide_error, cs, 0);
    } else if vector == INVALID_OPCODE_VECTOR {
        lemma_gate_fields(h.invalid_opcode, cs, 0);
    } else if vector == DOUBLE_FAULT_VECTOR {
        lemma_gate_fields(h.double_fault, cs, 1);
    } else if vector == GENERAL_PROTECTION_VECTOR {
        lemma_gate_fields(h.general_protection, cs, 0);
    } else if vector == PAGE_FAULT_VECTOR {
        lemma_gate_fields(h.page_fault, cs, 0);
    } else if vector == TIMER_IRQ_VECTOR {
        lemma_gate_fields(h.timer_irq, cs, 0);
    } else if vector == LAPIC_TIMER_VECTOR {
        lemma_gate_fields(h.lapic_timer, cs, 0);
    } else if vector == USER_TEST_VECTOR && h.user_privilege is Some {
        lemma_gate_fields(h.user_privilege->0, cs, 0);
    }
    assert((0u8 & 7u8) as u16 == 0u16 && (1u8 & 7u8) as u16 == 1u16) by (bit_vector);
    assert(0u16 >> 15u16 == 0u16) by (bit_vector);
}

} // verus!

