//! Vector numbers of the device interrupts, the construction of the vector
//! table, and the handler routines.
//!
//! A handler here touches no hardware. It is given what the hardware
//! delivered and returns an [`Outcome`]: what to report, which vector to
//! acknowledge, and how execution goes on. The caller carries that out.

use vstd::prelude::*;
use crate::idt::{
    Handler, Slot, VectorTable, BREAKPOINT_VECTOR, DOUBLE_FAULT_VECTOR, FAULT_STACKS,
    PAGE_FAULT_VECTOR, VECTOR_COUNT,
};
use crate::keyboard::{keystroke, DecodedKey, KeyboardDecoder};
use crate::pic::{bases_valid, in_range, Acknowledgment, ChainedControllers};

verus! {

/// Number of vectors that the CPU keeps for its own exceptions.
pub const RESERVED_VECTORS: u8 = 32;

/// Vector of line 0 of the primary controller.
pub const PIC_1_OFFSET: u8 = 32;

/// Vector of line 0 of the secondary controller.
pub const PIC_2_OFFSET: u8 = PIC_1_OFFSET + 8;

/// The device interrupts, in the order of their lines on the primary
/// controller.
#[derive(Debug, Clone, Copy, PartialEq, Eq, Structural)]
pub enum InteruptsIndex {
    Timer,
    Keyboard,
}

impl InteruptsIndex {
    /// Line of the primary controller that the device is wired to.
    pub open spec fn position(self) -> int {
        match self {
            InteruptsIndex::Timer => 0,
            InteruptsIndex::Keyboard => 1,
        }
    }

    /// The vector of the device: the primary base plus its line.
    pub open spec fn vector(self) -> int {
        PIC_1_OFFSET + self.position()
    }

    pub fn as_u8(self) -> (v: u8)
        ensures
            v == self.vector(),
    {
        match self {
            InteruptsIndex::Timer => PIC_1_OFFSET,
            InteruptsIndex::Keyboard => PIC_1_OFFSET + 1,
        }
    }

    pub fn as_usize(self) -> (v: usize)
        ensures
            v == self.vector(),
    {
        let v: u8 = self.as_u8();
        usize::from(v)
    }
}

/// Two different devices have different vectors, and every device vector
/// lies at or above the primary base, outside the range reserved for the CPU
/// and among the lines of the primary controller.
pub proof fn lemma_device_vectors(a: InteruptsIndex, b: InteruptsIndex)
    ensures
        a != b ==> a.vector() != b.vector(),
        a.vector() >= PIC_1_OFFSET,
        a.vector() >= RESERVED_VECTORS,
        in_range(PIC_1_OFFSET as int, a.vector()),
{
}

/// The two controllers at `PIC_1_OFFSET` and `PIC_2_OFFSET`.
pub fn chained_pics() -> (controllers: ChainedControllers)
    ensures
        controllers.wf(),
        controllers.primary_base() == PIC_1_OFFSET,
        controllers.secondary_base() == PIC_2_OFFSET,
{
    let controllers = ChainedControllers::initialize(PIC_1_OFFSET, PIC_2_OFFSET);
    assert(bases_valid(PIC_1_OFFSET as int, PIC_2_OFFSET as int));
    controllers.unwrap()
}

/// With the controllers at `PIC_1_OFFSET` and `PIC_2_OFFSET`, acknowledging
/// the vector of a device notifies the primary controller and no other.
pub proof fn lemma_device_acknowledgment(controllers: ChainedControllers, device: InteruptsIndex)
    requires
        controllers.primary_base() == PIC_1_OFFSET,
        controllers.secondary_base() == PIC_2_OFFSET,
    ensures
        controllers.acknowledgment(device.vector()) == Acknowledgment::Primary,
{
}

/// The slot of `vector` in the table that the kernel runs with:
/// breakpoint, page fault and double fault at their fixed vectors, the
/// double fault on the alternate stack `double_fault_stack`, the timer and
/// the keyboard at their device vectors, and every other slot empty.
pub open spec fn kernel_slot(vector: int, double_fault_stack: u16) -> Slot {
    if vector == BREAKPOINT_VECTOR {
        Slot::Bound { handler: Handler::Breakpoint, stack: None }
    } else if vector == PAGE_FAULT_VECTOR {
        Slot::Bound { handler: Handler::PageFault, stack: None }
    } else if vector == DOUBLE_FAULT_VECTOR {
        Slot::Bound { handler: Handler::DoubleFault, stack: Some(double_fault_stack) }
    } else if vector == InteruptsIndex::Timer.vector() {
        Slot::Bound { handler: Handler::Timer, stack: None }
    } else if vector == InteruptsIndex::Keyboard.vector() {
        Slot::Bound { handler: Handler::Keyboard, stack: None }
    } else {
        Slot::Empty
    }
}

/// The table that the kernel runs with.
pub open spec fn kernel_table(double_fault_stack: u16) -> Seq<Slot> {
    Seq::new(VECTOR_COUNT as nat, |vector: int| kernel_slot(vector, double_fault_stack))
}

/// In the table that the kernel runs with, the double fault runs on the
/// alternate stack that was asked for, and nothing else runs on one.
pub proof fn lemma_double_fault_stack(vector: int, double_fault_stack: u16)
    requires
        0 <= vector < VECTOR_COUNT,
    ensures
        kernel_table(double_fault_stack)[DOUBLE_FAULT_VECTOR as int] == (Slot::Bound {
            handler: Handler::DoubleFault,
            stack: Some(double_fault_stack),
        }),
        vector != DOUBLE_FAULT_VECTOR ==> (kernel_table(double_fault_stack)[vector] matches Slot::Bound {
            stack,
            ..
        } ==> stack.is_none()),
{
}

/// Builds the table that the kernel runs with.
pub fn build_idt(double_fault_stack: u16) -> (table: VectorTable)
    requires
        double_fault_stack < FAULT_STACKS,
    ensures
        table.wf(),
        table@ == kernel_table(double_fault_stack),
{
    let mut table = VectorTable::new();
    table.set_handler(Handler::Breakpoint);
    table.set_handler(Handler::PageFault);
    table.set_handler(Handler::Timer);
    table.set_handler(Handler::Keyboard);
    table.set_handler(Handler::DoubleFault);
    table.set_stack_index(Handler::DoubleFault, double_fault_stack);
    table
}

/// The place of the one vector table: empty until the table is built, and
/// never changed after that.
#[derive(Debug, Clone, Copy)]
pub struct Idt {
    table: Option<VectorTable>,
}

impl Idt {
    /// The table, once it is built.
    pub closed spec fn built(self) -> Option<Seq<Slot>> {
        match self.table {
            Some(table) => Some(table@),
            None => None,
        }
    }

    /// The invariant of the type: a table that is there is well formed.
    pub closed spec fn wf(self) -> bool {
        self.table matches Some(table) ==> table.wf()
    }

    /// A place with no table yet.
    pub fn new() -> (idt: Self)
        ensures
            idt.wf(),
            idt.built().is_none(),
    {
        Idt { table: None }
    }

    /// The table, if it has been built.
    pub fn table(&self) -> (table: Option<VectorTable>)
        requires
            self.wf(),
        ensures
            self.built() == match table {
                Some(t) => Some(t@),
                None => None,
            },
            table matches Some(t) ==> t.wf(),
    {
        self.table
    }
}

/// Makes sure that the vector table is built, and returns it for loading.
/// The first call builds it whole; every later call finds it and leaves it
/// as it is, whatever stack index it is given.
pub fn init_idt(idt: &mut Idt, double_fault_stack: u16) -> (table: VectorTable)
    requires
        old(idt).wf(),
        double_fault_stack < FAULT_STACKS,
    ensures
        final(idt).wf(),
        table.wf(),
        final(idt).built() == Some(table@),
        old(idt).built().is_some() ==> final(idt).built() == old(idt).built(),
        old(idt).built().is_none() ==> table@ == kernel_table(double_fault_stack),
{
    match idt.table {
        Some(table) => table,
        None => {
            let table = build_idt(double_fault_stack);
            idt.table = Some(table);
            table
        },
    }
}

/// What a handler asks its caller to report.
#[derive(Debug, Clone, Copy, PartialEq, Eq)]
pub enum Diagnostic {
    /// A breakpoint was hit; reported with the captured frame.
    Breakpoint,
    /// A page fault at `address`, with the flags that the CPU pushed;
    /// reported with the captured frame.
    PageFault { address: u64, error_code: u64 },
    /// A double fault; reported with the captured frame.
    DoubleFault,
    /// The timer ticked.
    Tick,
    /// A key press that the layout maps to a character.
    Character(char),
    /// A key press that has no character.
    RawKey(pc_keyboard::KeyCode),
}

/// How execution goes on when a handler is done.
#[derive(Debug, Clone, Copy, PartialEq, Eq, Structural)]
pub enum Next {
    /// Return to the interrupted code.
    Resume,
    /// Park the CPU; nothing is resumed.
    Halt,
    /// Stop the system; the handler does not return.
    Terminate,
}

/// What a handler decided.
#[derive(Debug, Clone, Copy, PartialEq, Eq)]
pub struct Outcome {
    /// What to report, if anything.
    pub report: Option<Diagnostic>,
    /// The vector whose end of interrupt is to be signalled, if any.
    pub acknowledge: Option<u8>,
    pub next: Next,
}

/// The vector that `handler` acknowledges: its own for a device handler,
/// none for the handler of a CPU exception.
pub open spec fn acknowledged_vector(handler: Handler) -> Option<u8> {
    match handler.device() {
        Some(device) => Some(device.vector() as u8),
        None => None,
    }
}

/// How execution goes on after `handler`: a breakpoint and the device
/// interrupts resume, a page fault parks the CPU, a double fault is the end.
pub open spec fn continuation(handler: Handler) -> Next {
    match handler {
        Handler::Breakpoint => Next::Resume,
        Handler::PageFault => Next::Halt,
        Handler::DoubleFault => Next::Terminate,
        Handler::Timer => Next::Resume,
        Handler::Keyboard => Next::Resume,
    }
}

/// The report of a decoded key: the character or the raw key of a press,
/// nothing where the decoder gave nothing.
pub open spec fn key_report_spec(key: Option<DecodedKey>) -> Option<Diagnostic> {
    match key {
        Some(DecodedKey::Unicode(character)) => Some(Diagnostic::Character(character)),
        Some(DecodedKey::RawKey(code)) => Some(Diagnostic::RawKey(code)),
        None => None,
    }
}

/// The report of a decoded key.
pub fn key_report(key: Option<DecodedKey>) -> (report: Option<Diagnostic>)
    ensures
        report == key_report_spec(key),
{
    match key {
        Some(DecodedKey::Unicode(character)) => Some(Diagnostic::Character(character)),
        Some(DecodedKey::RawKey(code)) => Some(Diagnostic::RawKey(code)),
        None => None,
    }
}

/// Handles a breakpoint: reports it and resumes after the instruction.
pub fn breakpoint_handler() -> (outcome: Outcome)
    ensures
        outcome.report == Some(Diagnostic::Breakpoint),
        outcome.acknowledge == acknowledged_vector(Handler::Breakpoint),
        outcome.acknowledge.is_none(),
        outcome.next == continuation(Handler::Breakpoint),
        outcome.next == Next::Resume,
{
    Outcome { report: Some(Diagnostic::Breakpoint), acknowledge: None, next: Next::Resume }
}

/// Handles a timer tick: reports it, acknowledges the timer's vector and
/// resumes.
pub fn timer_interupt_handler() -> (outcome: Outcome)
    ensures
        outcome.report == Some(Diagnostic::Tick),
        outcome.acknowledge == acknowledged_vector(Handler::Timer),
        outcome.acknowledge == Some(PIC_1_OFFSET),
        outcome.next == continuation(Handler::Timer),
        outcome.next == Next::Resume,
{
    Outcome {
        report: Some(Diagnostic::Tick),
        acknowledge: Some(InteruptsIndex::Timer.as_u8()),
        next: Next::Resume,
    }
}

/// Handles a keyboard interrupt, given the byte that the keyboard sent:
/// feeds the byte to the decoder, reports the key if one came out,
/// acknowledges the keyboard's vector and resumes. A byte that the decoder
/// drops is acknowledged like any other.
pub fn keyboard_interupt_handler(keyboard: &mut KeyboardDecoder, scancode: u8) -> (outcome: Outcome)
    ensures
        final(keyboard)@ == keystroke(old(keyboard)@, scancode).0,
        outcome.report == key_report_spec(keystroke(old(keyboard)@, scancode).1),
        outcome.acknowledge == acknowledged_vector(Handler::Keyboard),
        outcome.acknowledge == Some((PIC_1_OFFSET + 1) as u8),
        outcome.next == continuation(Handler::Keyboard),
        outcome.next == Next::Resume,
{
    let mut report: Option<Diagnostic> = None;
    if let Some(key_event) = keyboard.feed(scancode) {
        let key = keyboard.decode(key_event);
        report = key_report(key);
    }
    Outcome { report, acknowledge: Some(InteruptsIndex::Keyboard.as_u8()), next: Next::Resume }
}

/// Handles a double fault: reports it and ends the system. The code that
/// the CPU pushed is always zero and is not looked at.
pub fn double_fault_handler(_error_code: u64) -> (outcome: Outcome)
    ensures
        outcome.report == Some(Diagnostic::DoubleFault),
        outcome.acknowledge == acknowledged_vector(Handler::DoubleFault),
        outcome.acknowledge.is_none(),
        outcome.next == continuation(Handler::DoubleFault),
        outcome.next == Next::Terminate,
{
    Outcome { report: Some(Diagnostic::DoubleFault), acknowledge: None, next: Next::Terminate }
}

/// Handles a page fault, given the address whose access faulted and the
/// flags that the CPU pushed: reports both and parks the CPU.
pub fn page_fault_handler(accessed_address: u64, error_code: u64) -> (outcome: Outcome)
    ensures
        outcome.report == Some(
            Diagnostic::PageFault { address: accessed_address, error_code },
        ),
        outcome.acknowledge == acknowledged_vector(Handler::PageFault),
        outcome.acknowledge.is_none(),
        outcome.next == continuation(Handler::PageFault),
        outcome.next == Next::Halt,
{
    Outcome {
        report: Some(Diagnostic::PageFault { address: accessed_address, error_code }),
        acknowledge: None,
        next: Next::Halt,
    }
}

/// A handler acknowledges exactly when it serves a device, and then the
/// vector at which it is bound.
pub proof fn lemma_acknowledged_vector(handler: Handler)
    ensures
        acknowledged_vector(handler).is_some() == handler.device().is_some(),
        acknowledged_vector(handler) matches Some(vector) ==> vector == handler.home(),
{
}

} // verus!
