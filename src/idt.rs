use vstd::prelude::*;
use crate::frame::{ExceptionStackFrame, frame_words};
use crate::handlers::{Exception, response_to, resumes};
use crate::trampoline::{
    Cpu, Exit, FrameShape, SCRATCH_COUNT, Trampoline, WORD_BYTES, enter, shape_for,
};

verus! {

/// Number of vector slots in the table.
pub const VECTOR_COUNT: usize = 256;

/// Bits 9 to 11 of a descriptor's options, which must be one.
pub const OPTIONS_MUST_BE_ONE: u16 = 0x0e00;

/// Bit 15 of a descriptor's options: the slot holds a handler.
pub const OPTIONS_PRESENT: u16 = 0x8000;

/// One slot of the vector table: the hardware descriptor's fields (the
/// handler address split in three, the code segment selector, the options)
/// and the entry routine at that address, if any.
#[derive(Clone, Copy, Debug)]
pub struct Entry {
    pub pointer_low: u16,
    pub gdt_selector: u16,
    pub options: u16,
    pub pointer_middle: u16,
    pub pointer_high: u32,
    pub reserved: u32,
    pub routine: Option<Trampoline>,
}

/// An empty, non-present slot.
pub open spec fn missing_entry() -> Entry {
    Entry {
        pointer_low: 0,
        gdt_selector: 0,
        options: OPTIONS_MUST_BE_ONE,
        pointer_middle: 0,
        pointer_high: 0,
        reserved: 0,
        routine: None,
    }
}

/// A present slot for entry routine `t`, reached through code segment
/// `selector`, with further interrupts disabled while it runs.
pub open spec fn entry_for(selector: u16, t: Trampoline) -> Entry {
    Entry {
        pointer_low: (t.address % 0x1_0000) as u16,
        gdt_selector: selector,
        options: OPTIONS_MUST_BE_ONE | OPTIONS_PRESENT,
        pointer_middle: ((t.address / 0x1_0000) % 0x1_0000) as u16,
        pointer_high: (t.address / 0x1_0000_0000) as u32,
        reserved: 0,
        routine: Some(t),
    }
}

/// The handler address a descriptor encodes.
pub open spec fn handler_address(e: Entry) -> int {
    e.pointer_low + e.pointer_middle * 0x1_0000 + e.pointer_high * 0x1_0000_0000
}

/// Whether the processor pushes an error code for exceptions on `vector`.
pub open spec fn pushes_error_code(vector: u8) -> bool {
    vector == 8 || (10 <= vector && vector <= 14) || vector == 17 || vector == 21 || vector == 29
        || vector == 30
}

/// The stack shape the processor delivers on `vector`.
pub open spec fn shape_of_vector(vector: u8) -> FrameShape {
    if pushes_error_code(vector) {
        FrameShape::WithErrorCode
    } else {
        FrameShape::Plain
    }
}

/// Whether the processor pushes an error code for exceptions on `vector`.
pub fn vector_pushes_error_code(vector: u8) -> (r: bool)
    ensures
        r == pushes_error_code(vector),
{
    vector == 8 || (10 <= vector && vector <= 14) || vector == 17 || vector == 21 || vector == 29
        || vector == 30
}

impl Entry {
    /// An empty, non-present slot.
    pub fn missing() -> (r: Entry)
        ensures
            r == missing_entry(),
    {
        Entry {
            pointer_low: 0,
            gdt_selector: 0,
            options: OPTIONS_MUST_BE_ONE,
            pointer_middle: 0,
            pointer_high: 0,
            reserved: 0,
            routine: None,
        }
    }

    /// A present slot for `t` through code segment `selector`.
    pub fn new(selector: u16, t: Trampoline) -> (r: Entry)
        ensures
            r == entry_for(selector, t),
            handler_address(r) == t.address,
    {
        let a = t.address;
        let r = Entry {
            pointer_low: (a % 0x1_0000) as u16,
            gdt_selector: selector,
            options: OPTIONS_MUST_BE_ONE | OPTIONS_PRESENT,
            pointer_middle: ((a / 0x1_0000) % 0x1_0000) as u16,
            pointer_high: (a / 0x1_0000_0000) as u32,
            reserved: 0,
            routine: Some(t),
        };
        assert(a / 0x1_0000 == (a / 0x1_0000) % 0x1_0000 + (a / 0x1_0000_0000) * 0x1_0000);
        r
    }

    /// Whether the slot holds a handler.
    pub fn is_present(&self) -> (r: bool)
        ensures
            r == (self.options & OPTIONS_PRESENT != 0),
    {
        self.options & OPTIONS_PRESENT != 0
    }

    /// The handler address the descriptor encodes.
    pub fn address(&self) -> (r: u64)
        ensures
            r == handler_address(*self),
    {
        self.pointer_low as u64 + self.pointer_middle as u64 * 0x1_0000 + self.pointer_high as u64
            * 0x1_0000_0000
    }
}

/// The vector table: one slot per vector.
pub struct Idt {
    pub entries: Vec<Entry>,
}

/// How the processor took an exception.
#[derive(Clone, Copy, Debug)]
pub enum Delivery {
    /// The slot is empty: the processor escalates, nothing here runs.
    NotPresent,
    /// The slot's entry routine ran and left this way.
    Delivered(Exit),
}

impl Idt {
    /// Every slot exists, and every populated slot's entry routine expects
    /// the stack shape the processor delivers on its vector.
    pub open spec fn wf(&self) -> bool {
        &&& self.entries@.len() == VECTOR_COUNT
        &&& forall|v: int|
            0 <= v < VECTOR_COUNT ==> ((#[trigger] self.entries@[v]).routine matches Some(t)
                ==> t.shape == shape_of_vector(v as u8))
    }

    /// A table whose slots are all empty.
    pub fn new() -> (r: Idt)
        ensures
            r.wf(),
            forall|v: int| 0 <= v < VECTOR_COUNT ==> #[trigger] r.entries@[v] == missing_entry(),
    {
        let mut entries: Vec<Entry> = Vec::new();
        let mut i: usize = 0;
        while i < VECTOR_COUNT
            invariant
                i <= VECTOR_COUNT,
                entries@.len() == i,
                forall|v: int| 0 <= v < i ==> #[trigger] entries@[v] == missing_entry(),
            decreases VECTOR_COUNT - i,
        {
            entries.push(Entry::missing());
            i = i + 1;
        }
        Idt { entries }
    }

    /// Installs entry routine `t` for `vector`, through code segment
    /// `selector`. Whatever the slot held before is overwritten.
    pub fn set_handler(&mut self, vector: u8, selector: u16, t: Trampoline)
        requires
            old(self).entries@.len() == VECTOR_COUNT,
        ensures
            final(self).entries@ == old(self).entries@.update(
                vector as int,
                entry_for(selector, t),
            ),
    {
        let e = Entry::new(selector, t);
        self.entries.set(vector as usize, e);
    }

    /// The descriptor table limit to load: the table's size in bytes less one.
    pub fn limit(&self) -> (r: u16)
        requires
            self.entries@.len() == VECTOR_COUNT,
        ensures
            r == 16 * self.entries@.len() - 1,
    {
        16 * (VECTOR_COUNT as u16) - 1
    }

    /// The processor takes an exception on `vector` with `frame` (and
    /// `error_code`, on vectors that push one): it pushes them onto the
    /// stack of `cpu` and enters the slot's routine, if the slot holds one.
    pub fn raise(
        &self,
        vector: u8,
        cpu: &mut Cpu,
        frame: ExceptionStackFrame,
        error_code: u64,
    ) -> (r: Delivery)
        requires
            self.wf(),
            old(cpu).regs@.len() == SCRATCH_COUNT,
            WORD_BYTES * (old(cpu).stack@.len() + 17) <= old(cpu).stack_base,
        ensures
            self.entries@[vector as int].routine matches Some(t) ==> (r matches Delivery::Delivered(
                exit,
            ) && exit.report_of() == response_to(
                t.target,
                frame,
                if pushes_error_code(vector) {
                    error_code
                } else {
                    0
                },
                old(cpu).fault_address,
            ).report && (exit is Resumed) == resumes(t.target) && (exit matches Exit::Resumed {
                frame: f,
                ..
            } ==> {
                &&& f == frame
                &&& final(cpu).regs@ == old(cpu).regs@
                &&& final(cpu).stack@ == old(cpu).stack@
            })),
            self.entries@[vector as int].routine is None ==> r is NotPresent && *final(cpu)
                == *old(cpu),
    {
        let slot = &self.entries[vector as usize];
        match slot.routine {
            None => Delivery::NotPresent,
            Some(t) => {
                let ghost s0 = cpu.stack@;
                let pushes = vector_pushes_error_code(vector);
                cpu.stack.push(frame.stack_segment);
                cpu.stack.push(frame.stack_pointer);
                cpu.stack.push(frame.cpu_flags);
                cpu.stack.push(frame.code_segment);
                cpu.stack.push(frame.instruction_ptr);
                if pushes {
                    cpu.stack.push(error_code);
                }
                proof {
                    assert(t.shape == shape_of_vector(vector));
                    let pushed = if pushes {
                        frame_words(frame).push(error_code)
                    } else {
                        frame_words(frame)
                    };
                    assert(cpu.stack@ =~= s0 + pushed);
                    let above = if pushes {
                        seq![error_code]
                    } else {
                        Seq::<u64>::empty()
                    };
                    assert(cpu.stack@ =~= s0 + frame_words(frame) + above);
                    crate::frame::lemma_frame_read_back(s0, frame, above);
                }
                let exit = enter(&t, cpu);
                proof {
                    if exit is Resumed {
                        assert(cpu.stack@ =~= s0);
                    }
                }
                Delivery::Delivered(exit)
            },
        }
    }
}

/// Installing twice on one vector leaves only the second routine: the last
/// write wins and every other slot keeps what it held.
pub proof fn lemma_last_write_wins(
    entries: Seq<Entry>,
    vector: u8,
    first_selector: u16,
    first: Trampoline,
    second_selector: u16,
    second: Trampoline,
)
    requires
        entries.len() == VECTOR_COUNT,
    ensures
        ({
            let twice = entries.update(vector as int, entry_for(first_selector, first)).update(
                vector as int,
                entry_for(second_selector, second),
            );
            &&& twice == entries.update(vector as int, entry_for(second_selector, second))
            &&& twice[vector as int].routine == Some(second)
            &&& forall|v: int| 0 <= v < VECTOR_COUNT && v != vector ==> #[trigger] twice[v] == entries[v]
        }),
{
    let twice = entries.update(vector as int, entry_for(first_selector, first)).update(
        vector as int,
        entry_for(second_selector, second),
    );
    assert(twice =~= entries.update(vector as int, entry_for(second_selector, second)));
}

/// Addresses of the kernel's four entry routines.
#[derive(Clone, Copy, Debug)]
pub struct EntryPoints {
    pub divide_by_zero: u64,
    pub breakpoint: u64,
    pub invalid_opcode: u64,
    pub page_fault: u64,
}

/// The routine the kernel table holds for vector `v`, if any.
pub open spec fn kernel_routine(p: EntryPoints, v: int) -> Option<Trampoline> {
    if v == 0 {
        Some(Trampoline { address: p.divide_by_zero, shape: FrameShape::Plain, target: Exception::DivideByZero })
    } else if v == 3 {
        Some(Trampoline { address: p.breakpoint, shape: FrameShape::Plain, target: Exception::Breakpoint })
    } else if v == 6 {
        Some(Trampoline { address: p.invalid_opcode, shape: FrameShape::Plain, target: Exception::InvalidOpcode })
    } else if v == 14 {
        Some(Trampoline { address: p.page_fault, shape: FrameShape::WithErrorCode, target: Exception::PageFault })
    } else {
        None
    }
}

} // verus!
