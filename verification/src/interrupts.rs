//! Decisions taken by the interrupt and exception handlers, the saved
//! register frame they read, and the timer counters they keep.
use vstd::prelude::*;
use crate::cpu::{ist1_range_of, on_ist1_stack};
use crate::frames::PAGE_SIZE;

verus! {

/// Number of 64-bit words in a saved trap frame.
pub const TRAP_FRAME_WORDS: usize = 13;

/// Word index of the saved instruction pointer in a trap frame.
pub const TRAP_FRAME_RIP_WORD: usize = 10;

/// Word offset, from the dispatcher's stack pointer, of the interrupted code
/// segment in a full interrupt context.
pub const INTERRUPT_CONTEXT_CS_WORD: u64 = 16;

/// Registers saved by the exception entry stubs, followed by the error code
/// and the frame the processor pushed; one 64-bit word per field, in this order.
#[derive(Clone, Copy, PartialEq, Eq, Structural)]
pub struct TrapFrame {
    pub r11: u64,
    pub r10: u64,
    pub r9: u64,
    pub r8: u64,
    pub rdi: u64,
    pub rsi: u64,
    pub rdx: u64,
    pub rcx: u64,
    pub rax: u64,
    pub error_code: u64,
    pub rip: u64,
    pub cs: u64,
    pub rflags: u64,
}

/// The frame stored in `words`, field `k` at word `k`.
pub open spec fn trap_frame_of(words: Seq<u64>) -> TrapFrame {
    TrapFrame {
        r11: words[0],
        r10: words[1],
        r9: words[2],
        r8: words[3],
        rdi: words[4],
        rsi: words[5],
        rdx: words[6],
        rcx: words[7],
        rax: words[8],
        error_code: words[9],
        rip: words[TRAP_FRAME_RIP_WORD as int],
        cs: words[11],
        rflags: words[12],
    }
}

impl TrapFrame {
    /// Reads a frame from the 13 words starting at the frame pointer.
    pub fn from_words(words: &[u64]) -> (r: Self)
        requires
            words@.len() >= TRAP_FRAME_WORDS,
        ensures
            r == trap_frame_of(words@),
            r.r11 == words@[0] && r.r10 == words@[1] && r.r9 == words@[2] && r.r8 == words@[3],
            r.rdi == words@[4] && r.rsi == words@[5] && r.rdx == words@[6] && r.rcx == words@[7],
            r.rax == words@[8],
            r.error_code == words@[9],
            r.rip == words@[10],
            r.cs == words@[11],
            r.rflags == words@[12],
    {
        TrapFrame {
            r11: words[0],
            r10: words[1],
            r9: words[2],
            r8: words[3],
            rdi: words[4],
            rsi: words[5],
            rdx: words[6],
            rcx: words[7],
            rax: words[8],
            error_code: words[9],
            rip: words[10],
            cs: words[11],
            rflags: words[12],
        }
    }

    /// Whether the exception interrupted ring-3 code.
    pub fn from_user_mode(&self) -> (r: bool)
        ensures
            r == (self.cs & 3 == 3),
    {
        self.cs & 3 == 3
    }
}

/// Attributes of a page mapping.
#[derive(Clone, Copy, PartialEq, Eq, Structural)]
pub struct PageFlags {
    pub writable: bool,
    pub cache_disable: bool,
    pub user: bool,
    pub executable: bool,
}

/// What the page fault handler does.
#[derive(Clone, Copy, PartialEq, Eq, Structural)]
pub enum PageFaultAction {
    /// The fault came from user code: the current user thread is terminated.
    TerminateUserThread,
    /// The page was present but the access was refused: the kernel stops.
    ProtectionViolation,
    /// The address is not in the kernel heap: the kernel stops.
    OutsideHeap,
    /// A fresh frame is mapped at `page_address` with `flags`.
    MapHeapPage { page_address: u64, flags: PageFlags },
}

pub open spec fn heap_page_flags() -> PageFlags {
    PageFlags { writable: true, cache_disable: false, user: false, executable: false }
}

pub open spec fn page_fault_action_of(
    fault_address: u64,
    error_code: u64,
    code_segment: u64,
    heap_start: u64,
    heap_size: u64,
) -> PageFaultAction {
    let page = fault_address - fault_address % PAGE_SIZE;
    if code_segment & 3 == 3 {
        PageFaultAction::TerminateUserThread
    } else if error_code & 1 != 0 {
        PageFaultAction::ProtectionViolation
    } else if page < heap_start || page >= heap_start + heap_size {
        PageFaultAction::OutsideHeap
    } else {
        PageFaultAction::MapHeapPage { page_address: page as u64, flags: heap_page_flags() }
    }
}

/// Decides how to handle a page fault at `fault_address` (CR2) with
/// `error_code`, raised while running in `code_segment`, given the kernel
/// heap `[heap_start, heap_start + heap_size)`.
pub fn page_fault_action(
    fault_address: u64,
    error_code: u64,
    code_segment: u64,
    heap_start: u64,
    heap_size: u64,
) -> (r: PageFaultAction)
    requires
        heap_start + heap_size <= u64::MAX,
    ensures
        r == page_fault_action_of(fault_address, error_code, code_segment, heap_start, heap_size),
        page_fault_handled_as_specified(r, fault_address, error_code, code_segment, heap_start, heap_size),
{
    proof {
        lemma_page_fault_decisions(fault_address, error_code, code_segment, heap_start, heap_size);
    }
    if code_segment & 3 == 3 {
        return PageFaultAction::TerminateUserThread;
    }
    if error_code & 1 != 0 {
        return PageFaultAction::ProtectionViolation;
    }
    let page_address = fault_address & !(PAGE_SIZE - 1);
    assert(fault_address & !4095u64 == fault_address - fault_address % 4096) by (bit_vector);
    if page_address < heap_start || page_address >= heap_start + heap_size {
        return PageFaultAction::OutsideHeap;
    }
    PageFaultAction::MapHeapPage {
        page_address,
        flags: PageFlags { writable: true, cache_disable: false, user: false, executable: false },
    }
}

/// How a page fault must be handled, stated from the fault alone: a fault
/// from ring 3 (`code_segment & 3 == 3`) terminates the user thread; a
/// kernel fault on a present page (error bit 0 set) is a protection
/// violation; a kernel fault on a missing page whose 4 KiB page `p` lies in
/// the heap maps a fresh writable, cached, kernel-only, non-executable page
/// at `p`; any other kernel fault on a missing page is outside the heap.
pub open spec fn page_fault_handled_as_specified(
    r: PageFaultAction,
    fault_address: u64,
    error_code: u64,
    code_segment: u64,
    heap_start: u64,
    heap_size: u64,
) -> bool {
    let user = code_segment & 3 == 3;
    let present = error_code & 1 == 1;
    &&& user ==> r == PageFaultAction::TerminateUserThread
    &&& !user && present ==> r == PageFaultAction::ProtectionViolation
    &&& !user && !present ==> forall|p: int|
        #![trigger p % PAGE_SIZE as int]
        0 <= p && p % PAGE_SIZE as int == 0 && p <= fault_address < p + PAGE_SIZE ==> if heap_start <= p
            < heap_start + heap_size {
            r == PageFaultAction::MapHeapPage {
                page_address: p as u64,
                flags: PageFlags { writable: true, cache_disable: false, user: false, executable: false },
            }
        } else {
            r == PageFaultAction::OutsideHeap
        }
}

/// Law: the page fault decision is the one `page_fault_handled_as_specified`
/// describes, for every fault: in particular every kernel fault on a
/// missing page of the heap (including its first and last page) is demand
/// mapped at its page, and every such fault outside the heap stops.
pub proof fn lemma_page_fault_decisions(
    fault_address: u64,
    error_code: u64,
    code_segment: u64,
    heap_start: u64,
    heap_size: u64,
)
    ensures
        page_fault_handled_as_specified(
            page_fault_action_of(fault_address, error_code, code_segment, heap_start, heap_size),
            fault_address,
            error_code,
            code_segment,
            heap_start,
            heap_size,
        ),
{
    let f = fault_address as int;
    let page = f - f % 4096;
    assert((error_code & 1 == 1) == (error_code & 1 != 0)) by (bit_vector);
    assert forall|p: int| #![trigger p % PAGE_SIZE as int]
        0 <= p && p % PAGE_SIZE as int == 0 && p <= fault_address < p + PAGE_SIZE implies p == page by {
        vstd::arithmetic::div_mod::lemma_fundamental_div_mod(f, 4096);
        vstd::arithmetic::div_mod::lemma_fundamental_div_mod(p, 4096);
        assert(p == 4096 * (f / 4096)) by (nonlinear_arith)
            requires
                p % 4096 == 0,
                p == 4096 * (p / 4096) + p % 4096,
                f == 4096 * (f / 4096) + f % 4096,
                0 <= f % 4096 < 4096,
                p <= f < p + 4096,
        ;
    }
}

/// Law: a demand-paged heap page is page aligned, holds the faulting
/// address, lies inside the heap, and is mapped writable, kernel-only and
/// non-executable.
pub proof fn lemma_heap_page_covers_fault(
    fault_address: u64,
    error_code: u64,
    code_segment: u64,
    heap_start: u64,
    heap_size: u64,
)
    requires
        page_fault_action_of(fault_address, error_code, code_segment, heap_start, heap_size) is MapHeapPage,
    ensures
        ({
            let a = page_fault_action_of(fault_address, error_code, code_segment, heap_start, heap_size);
            let p = a->page_address;
            &&& p % PAGE_SIZE == 0
            &&& p <= fault_address < p + PAGE_SIZE
            &&& heap_start <= p < heap_start + heap_size
            &&& a->flags.writable && !a->flags.user && !a->flags.executable
            &&& code_segment & 3 != 3 && error_code & 1 == 0
        }),
{
    let f = fault_address as int;
    vstd::arithmetic::div_mod::lemma_fundamental_div_mod(f, 4096);
    vstd::arithmetic::div_mod::lemma_mod_multiples_basic(f / 4096, 4096);
    vstd::arithmetic::mul::lemma_mul_is_commutative(f / 4096, 4096);
}

/// What the double fault handler does after reporting the fault.
#[derive(Clone, Copy, PartialEq, Eq, Structural)]
pub enum DoubleFaultAction {
    /// Stop: no test expected this fault.
    Halt,
    /// The expected fault did not arrive on the IST1 stack: the test failed.
    TestStackFailed,
    /// The test's resume address was never recorded.
    ResumeAddressMissing,
    /// Restore the page fault gate and resume the test at `rip`.
    Resume { rip: u64 },
}

pub open spec fn double_fault_action_of(ist1_ok: bool, test_armed: bool, resume_rip: u64) -> DoubleFaultAction {
    if !test_armed {
        DoubleFaultAction::Halt
    } else if !ist1_ok {
        DoubleFaultAction::TestStackFailed
    } else if resume_rip == 0 {
        DoubleFaultAction::ResumeAddressMissing
    } else {
        DoubleFaultAction::Resume { rip: resume_rip }
    }
}

/// Decides the double fault outcome: whether the handler ran on the IST1
/// stack `[ist1_stack_start, ist1_stack_start + IST1_STACK_SIZE]`, and what to
/// do next when the nested-exception test armed it.
pub fn double_fault_action(cpu_rsp: u64, ist1_stack_start: u64, test_armed: bool, resume_rip: u64) -> (r: (
    bool,
    DoubleFaultAction,
))
    requires
        ist1_stack_start + crate::cpu::IST1_STACK_SIZE <= u64::MAX,
    ensures
        r.0 == (ist1_range_of(ist1_stack_start).0 <= cpu_rsp && cpu_rsp <= ist1_range_of(ist1_stack_start).1),
        r.1 == double_fault_action_of(r.0, test_armed, resume_rip),
        r.0 == (ist1_stack_start <= cpu_rsp <= ist1_stack_start + crate::cpu::IST1_STACK_SIZE),
        !test_armed ==> r.1 == DoubleFaultAction::Halt,
        test_armed && !r.0 ==> r.1 == DoubleFaultAction::TestStackFailed,
        test_armed && r.0 && resume_rip == 0 ==> r.1 == DoubleFaultAction::ResumeAddressMissing,
        test_armed && r.0 && resume_rip != 0 ==> r.1 == (DoubleFaultAction::Resume { rip: resume_rip }),
{
    let range = crate::cpu::ist1_stack_range(ist1_stack_start);
    let ist1_ok = on_ist1_stack(cpu_rsp, range);
    let action = if !test_armed {
        DoubleFaultAction::Halt
    } else if !ist1_ok {
        DoubleFaultAction::TestStackFailed
    } else if resume_rip == 0 {
        DoubleFaultAction::ResumeAddressMissing
    } else {
        DoubleFaultAction::Resume { rip: resume_rip }
    };
    (ist1_ok, action)
}

/// Address of the interrupted code segment in the context saved at
/// `dispatch_rsp`.
pub fn interrupted_cs_address(dispatch_rsp: u64) -> (r: u64)
    requires
        dispatch_rsp + INTERRUPT_CONTEXT_CS_WORD * 8 <= u64::MAX,
    ensures
        r == dispatch_rsp + INTERRUPT_CONTEXT_CS_WORD * 8,
{
    dispatch_rsp + INTERRUPT_CONTEXT_CS_WORD * 8
}

/// Whether a LAPIC timer tick may preempt: preemption is allowed (always so
/// without a preemption switch, see `TimerState::new`) and the tick
/// interrupted ring-3 code (kernel frames are never preempted here).
pub fn lapic_timer_should_preempt(preemption_enabled: bool, interrupted_cs: u64) -> (r: bool)
    ensures
        r == (preemption_enabled && interrupted_cs & 3 == 3),
{
    preemption_enabled && (interrupted_cs & 0x3) == 0x3
}

/// The context switch to perform after the scheduler answered: `(next_rsp,
/// next_pml4)`, unless it chose nothing or the thread already running.
pub fn lapic_timer_switch(dispatch_rsp: u64, scheduled: Option<(u64, u64)>) -> (r: Option<(u64, u64)>)
    ensures
        r == match scheduled {
            None => None,
            Some((next_rsp, next_pml4)) => if next_rsp == dispatch_rsp { None } else { Some((next_rsp, next_pml4)) },
        },
{
    match scheduled {
        None => None,
        Some((next_rsp, next_pml4)) => {
            if next_rsp == dispatch_rsp {
                None
            } else {
                Some((next_rsp, next_pml4))
            }
        },
    }
}

/// The counter value after `n` increments from `t0`, wrapping at 2^64.
pub open spec fn ticks_after(t0: u64, n: nat) -> u64 {
    ((t0 + n) % 0x1_0000_0000_0000_0000) as u64
}

/// Law: `a` ticks and then `b` more ticks give the same counter as `a + b`
/// ticks, so the single-tick contracts of `record_timer_tick` and
/// `record_lapic_timer_tick` chain into `ticks_after(t0, n)` after `n` ticks.
pub proof fn lemma_ticks_compose(t0: u64, a: nat, b: nat)
    ensures
        ticks_after(ticks_after(t0, a), b) == ticks_after(t0, a + b),
{
    let m = 0x1_0000_0000_0000_0000int;
    vstd::arithmetic::div_mod::lemma_add_mod_noop(t0 + a, b as int, m);
    vstd::arithmetic::div_mod::lemma_small_mod(b % (m as nat), m as nat);
    vstd::arithmetic::div_mod::lemma_mod_twice(b as int, m);
    vstd::arithmetic::div_mod::lemma_add_mod_noop(((t0 + a) % m), b as int, m);
}

/// Law: counting one more tick after `n` ticks from `t0` gives the value
/// after `n + 1` ticks, so a counter read after exactly `n` recorded ticks
/// is `t0 + n` wrapping at 2^64; short of wrapping, successive reads never
/// decrease.
pub proof fn lemma_ticks_accumulate(t0: u64, n: nat)
    ensures
        (ticks_after(t0, n) + 1) % 0x1_0000_0000_0000_0000 == ticks_after(t0, n + 1),
        ticks_after(t0, 0) == t0,
        t0 + n + 1 <= u64::MAX ==> ticks_after(t0, n) < ticks_after(t0, n + 1),
        t0 + n <= u64::MAX ==> ticks_after(t0, n) == t0 + n,
{
    let m = 0x1_0000_0000_0000_0000int;
    vstd::arithmetic::div_mod::lemma_add_mod_noop(t0 + n, 1, m);
    vstd::arithmetic::div_mod::lemma_small_mod(1, m as nat);
    vstd::arithmetic::div_mod::lemma_small_mod(t0 as nat, m as nat);
    if t0 + n + 1 <= u64::MAX {
        vstd::arithmetic::div_mod::lemma_small_mod((t0 + n) as nat, m as nat);
        vstd::arithmetic::div_mod::lemma_small_mod((t0 + n + 1) as nat, m as nat);
    }
    if t0 + n <= u64::MAX {
        vstd::arithmetic::div_mod::lemma_small_mod((t0 + n) as nat, m as nat);
    }
}

/// Tick counters of the legacy timer and the LAPIC timer, and whether LAPIC
/// ticks may preempt user threads. Counters wrap like the atomics they model.
/// Without a preemption switch every user-mode LAPIC tick may preempt; with
/// one (the kernel test build) preemption starts off and is switched on and
/// off explicitly.
pub struct TimerState {
    timer_ticks: u64,
    lapic_timer_ticks: u64,
    lapic_timer_preemption: bool,
}

impl TimerState {
    pub closed spec fn ticks(&self) -> u64 {
        self.timer_ticks
    }

    pub closed spec fn lapic_ticks(&self) -> u64 {
        self.lapic_timer_ticks
    }

    pub closed spec fn preemption(&self) -> bool {
        self.lapic_timer_preemption
    }

    /// No tick seen; LAPIC preemption off when there is a preemption switch,
    /// always allowed otherwise.
    pub fn new(preemption_switch: bool) -> (r: Self)
        ensures
            r.ticks() == 0 && r.lapic_ticks() == 0 && r.preemption() == !preemption_switch,
    {
        TimerState { timer_ticks: 0, lapic_timer_ticks: 0, lapic_timer_preemption: !preemption_switch }
    }

    /// Legacy timer interrupts seen so far.
    pub fn timer_ticks(&self) -> (r: u64)
        ensures
            r == self.ticks(),
    {
        self.timer_ticks
    }

    /// LAPIC timer interrupts seen so far.
    pub fn lapic_timer_ticks(&self) -> (r: u64)
        ensures
            r == self.lapic_ticks(),
    {
        self.lapic_timer_ticks
    }

    /// Whether LAPIC ticks may preempt.
    pub fn lapic_timer_preemption_enabled(&self) -> (r: bool)
        ensures
            r == self.preemption(),
    {
        self.lapic_timer_preemption
    }

    /// Counts one legacy timer interrupt.
    pub fn record_timer_tick(&mut self)
        ensures
            final(self).ticks() == ticks_after(old(self).ticks(), 1),
            final(self).lapic_ticks() == old(self).lapic_ticks(),
            final(self).preemption() == old(self).preemption(),
    {
        self.timer_ticks = self.timer_ticks.wrapping_add(1);
    }

    /// Counts one LAPIC timer interrupt.
    pub fn record_lapic_timer_tick(&mut self)
        ensures
            final(self).lapic_ticks() == ticks_after(old(self).lapic_ticks(), 1),
            final(self).ticks() == old(self).ticks(),
            final(self).preemption() == old(self).preemption(),
    {
        self.lapic_timer_ticks = self.lapic_timer_ticks.wrapping_add(1);
    }

    /// Lets LAPIC ticks preempt user threads.
    pub fn enable_lapic_timer_preemption(&mut self)
        ensures
            final(self).preemption(),
            final(self).ticks() == old(self).ticks(),
            final(self).lapic_ticks() == old(self).lapic_ticks(),
    {
        self.lapic_timer_preemption = true;
    }

    /// Stops LAPIC ticks from preempting.
    pub fn disable_lapic_timer_preemption(&mut self)
        ensures
            !final(self).preemption(),
            final(self).ticks() == old(self).ticks(),
            final(self).lapic_ticks() == old(self).lapic_ticks(),
    {
        self.lapic_timer_preemption = false;
    }
}

/// Ticks of the legacy timer the TSC calibration waits for.
pub const CALIBRATION_TICKS: u64 = 100;

/// The tick count at which calibration stops.
pub fn calibration_target(start_ticks: u64) -> (r: u64)
    requires
        start_ticks + CALIBRATION_TICKS <= u64::MAX,
    ensures
        r == start_ticks + CALIBRATION_TICKS,
{
    start_ticks + CALIBRATION_TICKS
}

pub open spec fn tsc_frequency_of(start_tsc: u64, end_tsc: u64, pit_frequency: u32) -> u64 {
    if pit_frequency == 0 {
        0
    } else {
        ((end_tsc - start_tsc) * pit_frequency / CALIBRATION_TICKS as int) as u64
    }
}

/// The TSC frequency in Hz from the TSC readings taken
/// `CALIBRATION_TICKS` timer ticks apart at a timer rate of `pit_frequency`
/// Hz; 0 when the timer rate is unknown. The result keeps the low 64 bits.
pub fn calibrate_tsc(start_tsc: u64, end_tsc: u64, pit_frequency: u32) -> (r: u64)
    requires
        start_tsc <= end_tsc,
    ensures
        r == tsc_frequency_of(start_tsc, end_tsc, pit_frequency),
        pit_frequency == 0 ==> r == 0,
        pit_frequency != 0 && (end_tsc - start_tsc) * pit_frequency < (u64::MAX + 1) * CALIBRATION_TICKS ==> r
            * CALIBRATION_TICKS <= (end_tsc - start_tsc) * pit_frequency < (r + 1) * CALIBRATION_TICKS,
{
    let elapsed_tsc = end_tsc - start_tsc;
    if pit_frequency == 0 {
        return 0;
    }
    assert((elapsed_tsc as int) * (pit_frequency as int) <= 0xFFFF_FFFF_FFFF_FFFF * 0xFFFF_FFFF) by (nonlinear_arith)
        requires
            elapsed_tsc <= 0xFFFF_FFFF_FFFF_FFFFu64,
            pit_frequency <= 0xFFFF_FFFFu32,
    ;
    let product: u128 = (elapsed_tsc as u128) * (pit_frequency as u128);
    (product / (CALIBRATION_TICKS as u128)) as u64
}


/// A counter that goes up by one, wrapping at 2^64, at each step of `counts`
/// ends at the start value plus the number of steps.
proof fn lemma_counter_run(counts: Seq<u64>)
    requires
        counts.len() >= 1,
        forall|i: int| 0 <= i < counts.len() - 1 ==> #[trigger] counts[i + 1] == ticks_after(counts[i], 1),
    ensures
        counts.last() == ticks_after(counts[0], (counts.len() - 1) as nat),
    decreases counts.len(),
{
    if counts.len() == 1 {
        lemma_ticks_accumulate(counts[0], 0);
    } else {
        let prefix = counts.drop_last();
        assert forall|i: int| 0 <= i < prefix.len() - 1 implies #[trigger] prefix[i + 1] == ticks_after(prefix[i], 1) by {
            assert(prefix[i + 1] == counts[i + 1] && prefix[i] == counts[i]);
        }
        lemma_counter_run(prefix);
        let n = (counts.len() - 2) as nat;
        let j = counts.len() - 2;
        assert(counts[j + 1] == ticks_after(counts[j], 1));
        assert(prefix.last() == counts[j]);
        lemma_ticks_compose(counts[0], n, 1);
    }
}

/// Law: along a run of timer states where each step records exactly one
/// legacy timer tick (as `record_timer_tick` does), the count after `n`
/// steps is the first count plus `n`, wrapping at 2^64.
pub proof fn lemma_timer_ticks_over_run(states: Seq<TimerState>)
    requires
        states.len() >= 1,
        forall|i: int| 0 <= i < states.len() - 1 ==> #[trigger] states[i + 1].ticks() == ticks_after(states[i].ticks(), 1),
    ensures
        states.last().ticks() == ticks_after(states[0].ticks(), (states.len() - 1) as nat),
{
    let counts = states.map_values(|t: TimerState| t.ticks());
    assert forall|i: int| 0 <= i < counts.len() - 1 implies #[trigger] counts[i + 1] == ticks_after(counts[i], 1) by {
        assert(states[i + 1].ticks() == ticks_after(states[i].ticks(), 1));
    }
    lemma_counter_run(counts);
}

/// Law: along a run of timer states where each step records exactly one
/// LAPIC timer tick (as `record_lapic_timer_tick` does, whether or not the
/// tick preempts), the LAPIC count after `n` steps is the first count plus
/// `n`, wrapping at 2^64.
pub proof fn lemma_lapic_ticks_over_run(states: Seq<TimerState>)
    requires
        states.len() >= 1,
        forall|i: int| 0 <= i < states.len() - 1 ==> #[trigger] states[i + 1].lapic_ticks() == ticks_after(
            states[i].lapic_ticks(),
            1,
        ),
    ensures
        states.last().lapic_ticks() == ticks_after(states[0].lapic_ticks(), (states.len() - 1) as nat),
{
    let counts = states.map_values(|t: TimerState| t.lapic_ticks());
    assert forall|i: int| 0 <= i < counts.len() - 1 implies #[trigger] counts[i + 1] == ticks_after(counts[i], 1) by {
        assert(states[i + 1].lapic_ticks() == ticks_after(states[i].lapic_ticks(), 1));
    }
    lemma_counter_run(counts);
}

} // verus!
