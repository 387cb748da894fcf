//! The trap table: which handler the CPU is to run for each exception
//! vector, built once and then only looked at.

use crate::memory::Memory;
use crate::screen::Screen;
use crate::vga_buffer::Writer;
use vstd::prelude::*;
use vstd::string::StringSliceAdditionalSpecFns;
use vstd::utf8::encode_utf8;
use x86_64::registers::rflags::RFlags;
use x86_64::structures::gdt::SegmentSelector;
use x86_64::structures::idt::InterruptStackFrame;
use x86_64::VirtAddr;

verus! {

/// The vector of the breakpoint exception.
pub const BREAKPOINT_VECTOR: u8 = 3;

/// The handlers that the kernel has.
#[derive(Debug, Clone, Copy, PartialEq, Eq, Structural)]
pub enum Handler {
    /// Logs the trap frame and resumes after the breakpoint instruction.
    Breakpoint,
}

/// A table of the 256 exception vectors, each with its handler or without
/// one.
pub struct TrapTable {
    handlers: [Option<Handler>; 256],
}

impl View for TrapTable {
    type V = Seq<Option<Handler>>;

    closed spec fn view(&self) -> Seq<Option<Handler>> {
        self.handlers@
    }
}

impl TrapTable {
    /// A table in which no vector has a handler.
    pub fn new() -> (table: Self)
        ensures
            table@ == Seq::new(256, |vector: int| None::<Handler>),
    {
        let table = TrapTable { handlers: [None; 256] };
        assert(table@ =~= Seq::new(256, |vector: int| None::<Handler>));
        table
    }

    /// Gives `vector` the handler `handler`.
    pub fn set_handler(&mut self, vector: u8, handler: Handler)
        ensures
            final(self)@ == old(self)@.update(vector as int, Some(handler)),
    {
        self.handlers[vector as usize] = Some(handler);
    }

    /// The handler of `vector`, if it has one.
    pub fn handler(&self, vector: u8) -> (handler: Option<Handler>)
        ensures
            handler == self@[vector as int],
    {
        self.handlers[vector as usize]
    }
}

/// The table that the kernel installs: the breakpoint vector has its
/// handler, and no other vector has one.
pub open spec fn kernel_table() -> Seq<Option<Handler>> {
    Seq::new(
        256,
        |vector: int|
            if vector == BREAKPOINT_VECTOR {
                Some(Handler::Breakpoint)
            } else {
                None
            },
    )
}

/// What an installation makes of the kernel's table: one that is there
/// stays as it is, and one that is not is built.
pub open spec fn install(table: Option<Seq<Option<Handler>>>) -> Option<Seq<Option<Handler>>> {
    match table {
        Some(installed) => Some(installed),
        None => Some(kernel_table()),
    }
}

/// Installing a second time changes nothing.
pub proof fn lemma_install_idempotent(table: Option<Seq<Option<Handler>>>)
    ensures
        install(install(table)) == install(table),
{
}

/// The kernel's trap table in its one place: absent until the first
/// installation, the same table ever after.
pub struct Traps {
    table: Option<TrapTable>,
}

impl View for Traps {
    type V = Option<Seq<Option<Handler>>>;

    closed spec fn view(&self) -> Option<Seq<Option<Handler>>> {
        match self.table {
            Some(table) => Some(table@),
            None => None,
        }
    }
}

impl Traps {
    /// A table that is there is the kernel's.
    #[verifier::type_invariant]
    spec fn well_formed(&self) -> bool {
        self@ matches Some(table) ==> table == kernel_table()
    }

    /// The place of the table before any installation.
    pub fn new() -> (traps: Self)
        ensures
            traps@ is None,
    {
        Traps { table: None }
    }

    /// The table, once it is installed.
    pub fn table(&self) -> (table: Option<&TrapTable>)
        ensures
            table matches Some(installed) ==> self@ == Some(installed@),
            table is None <==> self@ is None,
            self@ matches Some(installed) ==> installed == kernel_table(),
    {
        proof {
            use_type_invariant(self);
        }
        self.table.as_ref()
    }

    /// The handler that the CPU finds for `vector`: none before the
    /// installation, and none for a vector that the table leaves empty.
    pub fn handler(&self, vector: u8) -> (handler: Option<Handler>)
        ensures
            handler == match self@ {
                Some(table) => table[vector as int],
                None => None,
            },
    {
        match &self.table {
            Some(table) => table.handler(vector),
            None => None,
        }
    }
}

/// Installs the trap table. The first call builds it, with the breakpoint
/// handler at its vector; every later call finds the table that is there and
/// leaves it as it is. The result says whether this call built the table.
pub fn init_idt(traps: &mut Traps) -> (built: bool)
    ensures
        final(traps)@ == install(old(traps)@),
        final(traps)@ == Some(kernel_table()),
        built <==> old(traps)@ is None,
{
    proof {
        use_type_invariant(&*traps);
    }
    if traps.table.is_none() {
        let mut idt = TrapTable::new();
        idt.set_handler(BREAKPOINT_VECTOR, Handler::Breakpoint);
        assert(idt@ =~= kernel_table());
        traps.table = Some(idt);
        true
    } else {
        false
    }
}

/// What the CPU pushes when it takes a trap: where execution resumes, and
/// the code segment, flags, stack pointer and stack segment of that moment.
#[derive(Debug, Clone, Copy, PartialEq, Eq, Structural)]
pub struct TrapFrame {
    pub instruction_pointer: u64,
    pub code_segment: u16,
    pub cpu_flags: u64,
    pub stack_pointer: u64,
    pub stack_segment: u16,
}

/// The text in which the `x86_64` crate shows an interrupt stack frame that
/// holds these values, in the long form of `Debug`.
pub uninterp spec fn frame_text(
    instruction_pointer: u64,
    code_segment: u16,
    cpu_flags: u64,
    stack_pointer: u64,
    stack_segment: u16,
) -> Seq<char>;

/// `InterruptStackFrame::new` of the `x86_64` crate, and the `Debug` of the
/// frame in its long form. The two addresses go through
/// `VirtAddr::new_truncate`, which takes any number, and the flags through
/// `RFlags::from_bits_retain`, which keeps every bit. The contract claims
/// only that the text depends on nothing but the five values.
#[verifier::external_body]
fn describe_frame(frame: &TrapFrame) -> (text: String)
    ensures
        text@ == frame_text(
            frame.instruction_pointer,
            frame.code_segment,
            frame.cpu_flags,
            frame.stack_pointer,
            frame.stack_segment,
        ),
{
    let frame = InterruptStackFrame::new(
        VirtAddr::new_truncate(frame.instruction_pointer),
        SegmentSelector(frame.code_segment),
        RFlags::from_bits_retain(frame.cpu_flags),
        VirtAddr::new_truncate(frame.stack_pointer),
        SegmentSelector(frame.stack_segment),
    );
    format!("{:#?}", frame)
}

/// What the display shows once a breakpoint with the frame text `frame` has
/// been logged on `screen`: a heading, the frame, and a line break.
pub open spec fn breakpoint_log(screen: Screen, frame: Seq<char>) -> Screen {
    screen.write_string("Exception: breakpoint\n".spec_bytes()).write_string(
        encode_utf8(frame),
    ).write_string("\n".spec_bytes())
}

/// Logs a breakpoint whose frame reads `frame`.
pub fn log_breakpoint<M: Memory>(writer: &mut Writer<M>, frame: &str)
    requires
        old(writer).wf(),
    ensures
        final(writer).wf(),
        final(writer)@ == breakpoint_log(old(writer)@, frame@),
        final(writer).keeps_surroundings(old(writer)),
{
    writer.write_string("Exception: breakpoint\n");
    writer.write_string(frame);
    writer.write_string("\n");
}

/// The handler of the breakpoint exception: it logs the trap frame on the
/// display and returns, so that execution resumes behind the breakpoint
/// instruction.
pub fn breakpoint_handler<M: Memory>(writer: &mut Writer<M>, stack_frame: &TrapFrame)
    requires
        old(writer).wf(),
    ensures
        final(writer).wf(),
        final(writer)@ == breakpoint_log(
            old(writer)@,
            frame_text(
                stack_frame.instruction_pointer,
                stack_frame.code_segment,
                stack_frame.cpu_flags,
                stack_frame.stack_pointer,
                stack_frame.stack_segment,
            ),
        ),
        final(writer).keeps_surroundings(old(writer)),
{
    let text = describe_frame(stack_frame);
    log_breakpoint(writer, text.as_str());
}

} // verus!
