//! Port I/O programs for the legacy 8259 interrupt controllers and the 8253
//! interval timer: the exact byte writes each operation performs.
use vstd::prelude::*;

verus! {

pub const PIC1_COMMAND: u16 = 0x20;
pub const PIC1_DATA: u16 = 0x21;
pub const PIC2_COMMAND: u16 = 0xA0;
pub const PIC2_DATA: u16 = 0xA1;
pub const PIC_EOI: u8 = 0x20;
pub const ICW1_INIT: u8 = 0x10;
pub const ICW1_ICW4: u8 = 0x01;
pub const ICW4_8086: u8 = 0x01;
/// Vector of IRQ 0 after remapping.
pub const MASTER_OFFSET: u8 = 32;
/// Vector of IRQ 8 after remapping.
pub const SLAVE_OFFSET: u8 = 40;
/// Unused port written to let the controllers settle.
pub const IO_WAIT_PORT: u16 = 0x80;

pub const PIT_COMMAND: u16 = 0x43;
pub const PIT_CHANNEL0: u16 = 0x40;
/// Input clock of the interval timer, in Hz.
pub const PIT_BASE_FREQUENCY: u32 = 1_193_182;
/// Channel 0, low byte then high byte, mode 2 (rate generator), binary.
pub const PIT_MODE_RATE_GENERATOR: u8 = 0x34;

/// One `out` instruction.
#[derive(Clone, Copy, PartialEq, Eq, Structural)]
pub struct PortWrite {
    pub port: u16,
    pub value: u8,
}

pub open spec fn pw(port: u16, value: u8) -> PortWrite {
    PortWrite { port, value }
}

pub open spec fn io_wait_write() -> PortWrite {
    pw(IO_WAIT_PORT, 0)
}

/// The initialization sequence that moves IRQs 0-15 to vectors 32-47 and
/// then restores the interrupt masks read beforehand.
pub open spec fn remap_program(master_mask: u8, slave_mask: u8) -> Seq<PortWrite> {
    seq![
        pw(PIC1_COMMAND, 0x11), io_wait_write(),
        pw(PIC2_COMMAND, 0x11), io_wait_write(),
        pw(PIC1_DATA, MASTER_OFFSET), io_wait_write(),
        pw(PIC2_DATA, SLAVE_OFFSET), io_wait_write(),
        pw(PIC1_DATA, 0x04), io_wait_write(),
        pw(PIC2_DATA, 0x02), io_wait_write(),
        pw(PIC1_DATA, ICW4_8086), io_wait_write(),
        pw(PIC2_DATA, ICW4_8086), io_wait_write(),
        pw(PIC1_DATA, master_mask),
        pw(PIC2_DATA, slave_mask),
    ]
}

fn push_with_wait(program: &mut Vec<PortWrite>, port: u16, value: u8)
    ensures
        final(program)@ == old(program)@.push(pw(port, value)).push(io_wait_write()),
{
    program.push(PortWrite { port, value });
    program.push(PortWrite { port: IO_WAIT_PORT, value: 0 });
}

/// The writes that remap both controllers, given the masks read from their
/// data ports before starting.
pub fn remap_program_for(master_mask: u8, slave_mask: u8) -> (r: Vec<PortWrite>)
    ensures
        r@ == remap_program(master_mask, slave_mask),
        r@.len() == 18,
        r@[0] == pw(PIC1_COMMAND, ICW1_INIT | ICW1_ICW4) && r@[2] == pw(PIC2_COMMAND, ICW1_INIT | ICW1_ICW4),
        r@[4] == pw(PIC1_DATA, MASTER_OFFSET) && r@[6] == pw(PIC2_DATA, SLAVE_OFFSET),
        r@[16] == pw(PIC1_DATA, master_mask) && r@[17] == pw(PIC2_DATA, slave_mask),
{
    let mut program: Vec<PortWrite> = Vec::new();
    push_with_wait(&mut program, PIC1_COMMAND, ICW1_INIT | ICW1_ICW4);
    push_with_wait(&mut program, PIC2_COMMAND, ICW1_INIT | ICW1_ICW4);
    push_with_wait(&mut program, PIC1_DATA, MASTER_OFFSET);
    push_with_wait(&mut program, PIC2_DATA, SLAVE_OFFSET);
    push_with_wait(&mut program, PIC1_DATA, 0x04);
    push_with_wait(&mut program, PIC2_DATA, 0x02);
    push_with_wait(&mut program, PIC1_DATA, ICW4_8086);
    push_with_wait(&mut program, PIC2_DATA, ICW4_8086);
    program.push(PortWrite { port: PIC1_DATA, value: master_mask });
    program.push(PortWrite { port: PIC2_DATA, value: slave_mask });
    assert(0x10u8 | 0x01u8 == 0x11u8) by (bit_vector);
    assert(program@ =~= remap_program(master_mask, slave_mask));
    program
}

/// End-of-interrupt writes for `irq`: the slave controller too for IRQs 8 and up.
pub open spec fn eoi_program(irq: u8) -> Seq<PortWrite> {
    if irq >= 8 {
        seq![pw(PIC2_COMMAND, PIC_EOI), pw(PIC1_COMMAND, PIC_EOI)]
    } else {
        seq![pw(PIC1_COMMAND, PIC_EOI)]
    }
}

/// The writes that acknowledge `irq`.
pub fn send_eoi(irq: u8) -> (r: Vec<PortWrite>)
    ensures
        r@ == eoi_program(irq),
        r@.len() >= 1 && r@.last() == pw(PIC1_COMMAND, PIC_EOI),
        irq >= 8 <==> r@.len() == 2,
        irq >= 8 ==> r@[0] == pw(PIC2_COMMAND, PIC_EOI),
{
    let mut program: Vec<PortWrite> = Vec::new();
    if irq >= 8 {
        program.push(PortWrite { port: PIC2_COMMAND, value: PIC_EOI });
    }
    program.push(PortWrite { port: PIC1_COMMAND, value: PIC_EOI });
    assert(program@ =~= eoi_program(irq));
    program
}

/// The data port whose mask holds `irq`, and the bit of `irq` in it; none
/// for IRQs above 15.
pub open spec fn irq_mask_location(irq: u8) -> Option<(u16, u8)> {
    if irq >= 16 {
        None
    } else {
        Some((if irq < 8 { PIC1_DATA } else { PIC2_DATA }, 1u8 << (irq % 8)))
    }
}

/// Where the mask bit of `irq` lives.
pub fn irq_mask_bit(irq: u8) -> (r: Option<(u16, u8)>)
    ensures
        r == irq_mask_location(irq),
        r is Some <==> irq < 16,
        irq < 8 ==> r == Some((PIC1_DATA, 1u8 << irq)),
        8 <= irq < 16 ==> r == Some((PIC2_DATA, 1u8 << (irq - 8) as u8)),
{
    proof {
        if 8 <= irq < 16 {
            assert(irq % 8 == (irq - 8) as u8);
        }
    }
    if irq >= 16 {
        return None;
    }
    let port = if irq < 8 { PIC1_DATA } else { PIC2_DATA };
    Some((port, 1u8 << (irq % 8)))
}

/// The mask with `bit` cleared, so that its IRQ is delivered.
pub fn unmask(mask: u8, bit: u8) -> (r: u8)
    ensures
        r == mask & !bit,
{
    mask & !bit
}

/// Law: enabling IRQ `irq` clears exactly its bit in its controller's mask.
pub proof fn lemma_unmask_clears_only_its_bit(mask: u8, irq: u8)
    requires
        irq < 16,
    ensures
        ({
            let location = irq_mask_location(irq)->0;
            let bit = location.1;
            let n = irq % 8;
            &&& (mask & !bit) & (1u8 << n) == 0
            &&& forall|k: u8| k < 8 && k != n ==> ((mask & !bit) & (1u8 << k)) == (mask & (1u8 << k))
        }),
{
    let n = irq % 8;
    let bit = 1u8 << n;
    assert(n < 8 ==> (mask & !(1u8 << n)) & (1u8 << n) == 0) by (bit_vector);
    assert forall|k: u8| k < 8 && k != n implies ((mask & !bit) & (1u8 << k)) == (mask & (1u8 << k)) by {
        assert(k < 8 && n < 8 && k != n ==> ((mask & !(1u8 << n)) & (1u8 << k)) == (mask & (1u8 << k))) by (bit_vector);
    }
}

/// The reload value for a timer frequency of `frequency` Hz; none when it
/// is zero or the divisor falls outside 1..=0xFFFF.
pub open spec fn pit_divisor_of(frequency: u32) -> Option<u32> {
    if frequency == 0 {
        None
    } else {
        let d = PIT_BASE_FREQUENCY / frequency;
        if d == 0 || d > 0xFFFF {
            None
        } else {
            Some(d)
        }
    }
}

/// The writes that program channel 0 to `frequency` Hz; no write at all when
/// the frequency cannot be reached.
pub open spec fn pit_program(frequency: u32) -> Seq<PortWrite> {
    match pit_divisor_of(frequency) {
        None => Seq::empty(),
        Some(d) => seq![
            pw(PIT_COMMAND, PIT_MODE_RATE_GENERATOR),
            pw(PIT_CHANNEL0, (d & 0xFF) as u8),
            pw(PIT_CHANNEL0, ((d >> 8u32) & 0xFF) as u8),
        ],
    }
}

/// The writes that set the timer to `frequency` Hz.
pub fn set_frequency(frequency: u32) -> (r: Vec<PortWrite>)
    ensures
        r@ == pit_program(frequency),
        r@.len() == 3 <==> (frequency != 0 && 1 <= PIT_BASE_FREQUENCY / frequency <= 0xFFFF),
        r@.len() == 0 || r@.len() == 3,
        r@.len() == 3 ==> r@[0] == pw(PIT_COMMAND, PIT_MODE_RATE_GENERATOR) && ({
            let d = (r@[1].value as u32) | ((r@[2].value as u32) << 8u32);
            d * frequency <= PIT_BASE_FREQUENCY < (d + 1) * frequency
        }),
{
    proof {
        if pit_divisor_of(frequency) is Some {
            lemma_pit_bytes_form_divisor(frequency);
            let d = PIT_BASE_FREQUENCY / frequency;
            vstd::arithmetic::div_mod::lemma_fundamental_div_mod(PIT_BASE_FREQUENCY as int, frequency as int);
            assert(d * frequency <= PIT_BASE_FREQUENCY < (d + 1) * frequency) by (nonlinear_arith)
                requires
                    PIT_BASE_FREQUENCY == frequency * (PIT_BASE_FREQUENCY / frequency) + PIT_BASE_FREQUENCY % frequency,
                    0 <= PIT_BASE_FREQUENCY % frequency < frequency,
                    d == PIT_BASE_FREQUENCY / frequency,
            ;
        }
    }
    let mut program: Vec<PortWrite> = Vec::new();
    if frequency == 0 {
        return program;
    }
    let divisor = PIT_BASE_FREQUENCY / frequency;
    if divisor == 0 || divisor > 0xFFFF {
        assert(program@ =~= pit_program(frequency));
        return program;
    }
    program.push(PortWrite { port: PIT_COMMAND, value: PIT_MODE_RATE_GENERATOR });
    program.push(PortWrite { port: PIT_CHANNEL0, value: (divisor & 0xFF) as u8 });
    program.push(PortWrite { port: PIT_CHANNEL0, value: ((divisor >> 8u32) & 0xFF) as u8 });
    assert(program@ =~= pit_program(frequency));
    program
}

/// Law: the two data bytes sent to the timer form the divisor, low byte first.
pub proof fn lemma_pit_bytes_form_divisor(frequency: u32)
    requires
        pit_divisor_of(frequency) is Some,
    ensures
        ({
            let d = pit_divisor_of(frequency)->0;
            let p = pit_program(frequency);
            (p[1].value as u32) | ((p[2].value as u32) << 8u32) == d
        }),
{
    let d = pit_divisor_of(frequency)->0;
    assert(d <= 0xFFFF ==> (((d & 0xFF) as u8) as u32) | (((((d >> 8u32) & 0xFF) as u8) as u32) << 8u32) == d) by (bit_vector);
}

} // verus!
