use vstd::prelude::*;
use crate::frame::{ExceptionStackFrame, frame_at, frame_words};
use crate::handlers::{Exception, Report, handle, resumes, response_to};

verus! {

/// The scratch registers: those the calling convention lets a called
/// function clobber, so an entry routine must save them itself.
#[derive(Clone, Copy, Debug, PartialEq, Eq, Structural)]
pub enum Reg {
    Rax,
    Rcx,
    Rdx,
    Rsi,
    Rdi,
    R8,
    R9,
    R10,
    R11,
}

/// Number of scratch registers.
pub const SCRATCH_COUNT: usize = 9;

/// Bytes in one stack slot.
pub const WORD_BYTES: u64 = 8;

/// Slot of a register in a register file.
pub open spec fn reg_index(r: Reg) -> int {
    match r {
        Reg::Rax => 0,
        Reg::Rcx => 1,
        Reg::Rdx => 2,
        Reg::Rsi => 3,
        Reg::Rdi => 4,
        Reg::R8 => 5,
        Reg::R9 => 6,
        Reg::R10 => 7,
        Reg::R11 => 8,
    }
}

/// The order in which an entry routine pushes the scratch registers.
pub open spec fn save_order() -> Seq<Reg> {
    seq![Reg::Rax, Reg::Rcx, Reg::Rdx, Reg::Rsi, Reg::Rdi, Reg::R8, Reg::R9, Reg::R10, Reg::R11]
}

/// The words pushed when saving register file `regs`, in push order.
pub open spec fn saved_words(regs: Seq<u64>) -> Seq<u64> {
    save_order().map_values(|r: Reg| regs[reg_index(r)])
}

impl Reg {
    pub fn index(self) -> (r: usize)
        ensures
            r == reg_index(self),
    {
        match self {
            Reg::Rax => 0,
            Reg::Rcx => 1,
            Reg::Rdx => 2,
            Reg::Rsi => 3,
            Reg::Rdi => 4,
            Reg::R8 => 5,
            Reg::R9 => 6,
            Reg::R10 => 7,
            Reg::R11 => 8,
        }
    }
}

/// The registers an entry routine pushes, in push order.
pub fn save_sequence() -> (r: Vec<Reg>)
    ensures
        r@ == save_order(),
{
    let r = vec![Reg::Rax, Reg::Rcx, Reg::Rdx, Reg::Rsi, Reg::Rdi, Reg::R8, Reg::R9, Reg::R10, Reg::R11];
    assert(r@ =~= save_order());
    r
}

/// The registers an entry routine pops, in pop order.
pub fn restore_sequence() -> (r: Vec<Reg>)
    ensures
        r@ == save_order().reverse(),
{
    let r = vec![Reg::R11, Reg::R10, Reg::R9, Reg::R8, Reg::Rdi, Reg::Rsi, Reg::Rdx, Reg::Rcx, Reg::Rax];
    assert(r@ =~= save_order().reverse());
    r
}

proof fn lemma_save_order_indices()
    ensures
        save_order().len() == SCRATCH_COUNT,
        forall|k: int| 0 <= k < 9 ==> #[trigger] reg_index(save_order()[k]) == k,
        forall|k: int| 0 <= k < 9 ==> #[trigger] reg_index(save_order().reverse()[k]) == 8 - k,
{
}

/// The two stack shapes the processor delivers: the frame alone, or the frame
/// with one error-code word pushed below it.
#[derive(Clone, Copy, Debug, PartialEq, Eq, Structural)]
pub enum FrameShape {
    Plain,
    WithErrorCode,
}

/// Words the processor pushes below the frame for shape `s`.
pub open spec fn error_words(s: FrameShape) -> int {
    match s {
        FrameShape::Plain => 0,
        FrameShape::WithErrorCode => 1,
    }
}

/// Byte offset from the stack pointer, right after the registers are saved,
/// to the frame: the saved registers, plus the error code where there is one.
pub open spec fn frame_offset_of(s: FrameShape) -> int {
    WORD_BYTES * (save_order().len() + error_words(s))
}

/// The byte offset an entry routine of shape `s` adds to the stack pointer
/// to find the frame.
pub fn frame_offset(s: FrameShape) -> (r: u64)
    ensures
        r == frame_offset_of(s),
{
    match s {
        FrameShape::Plain => 9 * 8,
        FrameShape::WithErrorCode => 10 * 8,
    }
}

/// The machine state an entry routine touches: the scratch registers, the
/// stack (top last), the address just above the stack's first word, and the
/// page-fault address register.
pub struct Cpu {
    pub regs: Vec<u64>,
    pub stack: Vec<u64>,
    pub stack_base: u64,
    pub fault_address: u64,
}

/// The stack pointer of `c`.
pub open spec fn rsp(c: Cpu) -> int {
    c.stack_base - WORD_BYTES * c.stack@.len()
}

/// Pushes the scratch registers in save order.
pub fn save_scratch_registers(cpu: &mut Cpu)
    requires
        old(cpu).regs@.len() == SCRATCH_COUNT,
    ensures
        final(cpu).stack@ == old(cpu).stack@ + saved_words(old(cpu).regs@),
        final(cpu).regs@ == old(cpu).regs@,
        final(cpu).stack_base == old(cpu).stack_base,
        final(cpu).fault_address == old(cpu).fault_address,
{
    let order = save_sequence();
    let ghost regs = cpu.regs@;
    let ghost s0 = cpu.stack@;
    let mut i: usize = 0;
    while i < order.len()
        invariant
            order@ == save_order(),
            i <= order@.len(),
            cpu.regs@ == regs,
            regs.len() == SCRATCH_COUNT,
            cpu.stack@ == s0 + save_order().subrange(0, i as int).map_values(
                |r: Reg| regs[reg_index(r)],
            ),
            cpu.stack_base == old(cpu).stack_base,
            cpu.fault_address == old(cpu).fault_address,
        decreases order@.len() - i,
    {
        let r = order[i];
        let v = cpu.regs[r.index()];
        cpu.stack.push(v);
        assert(save_order().subrange(0, i + 1).map_values(|r: Reg| regs[reg_index(r)])
            =~= save_order().subrange(0, i as int).map_values(|r: Reg| regs[reg_index(r)]).push(v));
        i = i + 1;
    }
    assert(save_order().subrange(0, 9) =~= save_order());
}

/// Pops the scratch registers in restore order: the `j`-th pop fills the
/// `j`-th register of the reversed save order.
pub fn restore_scratch_registers(cpu: &mut Cpu)
    requires
        old(cpu).regs@.len() == SCRATCH_COUNT,
        old(cpu).stack@.len() >= SCRATCH_COUNT,
    ensures
        final(cpu).stack@ == old(cpu).stack@.subrange(0, old(cpu).stack@.len() - SCRATCH_COUNT),
        final(cpu).regs@.len() == SCRATCH_COUNT,
        forall|j: int|
            0 <= j < SCRATCH_COUNT ==> final(cpu).regs@[reg_index(save_order().reverse()[j])]
                == old(cpu).stack@[old(cpu).stack@.len() - 1 - j],
        final(cpu).stack_base == old(cpu).stack_base,
        final(cpu).fault_address == old(cpu).fault_address,
{
    let order = restore_sequence();
    proof {
        lemma_save_order_indices();
    }
    let ghost s0 = cpu.stack@;
    let ghost n = s0.len();
    let mut j: usize = 0;
    while j < order.len()
        invariant
            order@ == save_order().reverse(),
            j <= order@.len(),
            order@.len() == SCRATCH_COUNT,
            n == s0.len(),
            n >= SCRATCH_COUNT,
            cpu.stack@ == s0.subrange(0, n - j),
            cpu.regs@.len() == SCRATCH_COUNT,
            forall|k: int| 0 <= k < j ==> #[trigger] cpu.regs@[8 - k] == s0[n - 1 - k],
            forall|k: int| 0 <= k < 9 ==> #[trigger] reg_index(save_order().reverse()[k]) == 8 - k,
            cpu.stack_base == old(cpu).stack_base,
            cpu.fault_address == old(cpu).fault_address,
        decreases order@.len() - j,
    {
        let r = order[j];
        let v = cpu.stack.pop().unwrap();
        cpu.regs.set(r.index(), v);
        assert(cpu.stack@ =~= s0.subrange(0, n - (j + 1)));
        j = j + 1;
    }
}

/// Restoring right after saving gives back the registers and the stack: the
/// restore order is the save order reversed, so each register is popped from
/// the slot it was pushed to.
pub proof fn lemma_restore_inverts_save(regs: Seq<u64>, s: Seq<u64>, after: Seq<u64>)
    requires
        regs.len() == SCRATCH_COUNT,
        after.len() == SCRATCH_COUNT,
        forall|j: int|
            0 <= j < SCRATCH_COUNT ==> after[reg_index(save_order().reverse()[j])] == (s
                + saved_words(regs))[s.len() + SCRATCH_COUNT - 1 - j],
    ensures
        after == regs,
        (s + saved_words(regs)).subrange(0, s.len() as int) == s,
{
    lemma_save_order_indices();
    let t = s + saved_words(regs);
    assert forall|i: int| 0 <= i < 9 implies after[i] == regs[i] by {
        let j = 8 - i;
        assert(reg_index(save_order().reverse()[j]) == 8 - j);
        assert(t[s.len() + 8 - j] == saved_words(regs)[8 - j]);
        assert(reg_index(save_order()[8 - j]) == 8 - j);
    }
    assert(after =~= regs);
    assert(t.subrange(0, s.len() as int) =~= s);
}

/// The shape of stack the processor delivers with exception `e`.
pub open spec fn shape_for(e: Exception) -> FrameShape {
    if e == Exception::PageFault {
        FrameShape::WithErrorCode
    } else {
        FrameShape::Plain
    }
}

/// An entry routine: installed at `address` in a vector slot, it adapts the
/// processor's entry convention of shape `shape` to a call of the handler of
/// `target`.
#[derive(Clone, Copy, Debug)]
pub struct Trampoline {
    pub address: u64,
    pub shape: FrameShape,
    pub target: Exception,
}

/// How control leaves an entry routine.
#[derive(Clone, Copy, Debug)]
pub enum Exit {
    /// The handler returned and `iretq` resumed the interrupted code with the
    /// frame popped from the stack.
    Resumed { report: Report, frame: ExceptionStackFrame },
    /// The handler idles forever; control never comes back.
    Halted { report: Report },
}

impl Exit {
    pub open spec fn report_of(self) -> Report {
        match self {
            Exit::Resumed { report, .. } => report,
            Exit::Halted { report } => report,
        }
    }
}

impl Trampoline {
    /// The entry routine for the handler of `target`, in the shape the
    /// processor uses for that exception.
    pub fn new(target: Exception, address: u64) -> (r: Trampoline)
        ensures
            r.address == address,
            r.target == target,
            r.shape == shape_for(target),
    {
        let shape = match target {
            Exception::PageFault => FrameShape::WithErrorCode,
            _ => FrameShape::Plain,
        };
        Trampoline { address, shape, target }
    }
}

/// The error code the processor left on stack `s` for shape `shape`: the top
/// word where there is one, else zero.
pub open spec fn error_code_on(s: Seq<u64>, shape: FrameShape) -> u64 {
    if shape == FrameShape::WithErrorCode {
        s[s.len() - 1]
    } else {
        0
    }
}

/// Pops the frame the way `iretq` does.
pub fn return_from_interrupt(cpu: &mut Cpu) -> (r: ExceptionStackFrame)
    requires
        old(cpu).stack@.len() >= 5,
    ensures
        r == frame_at(old(cpu).stack@, 0),
        final(cpu).stack@ == old(cpu).stack@.subrange(0, old(cpu).stack@.len() - 5),
        final(cpu).regs@ == old(cpu).regs@,
        final(cpu).stack_base == old(cpu).stack_base,
        final(cpu).fault_address == old(cpu).fault_address,
{
    let r = ExceptionStackFrame::read(&cpu.stack, 0);
    let ghost s0 = cpu.stack@;
    cpu.stack.pop();
    cpu.stack.pop();
    cpu.stack.pop();
    cpu.stack.pop();
    cpu.stack.pop();
    assert(cpu.stack@ =~= s0.subrange(0, s0.len() - 5));
    r
}

/// Runs entry routine `t` on `cpu`, whose stack holds on top what the
/// processor pushed on entry: the frame and, for the error-code shape, the
/// error code. The routine saves the scratch registers, points `rdi` at the
/// frame (and loads the error code into `rsi`), calls the handler, and, if the
/// handler returns, restores the registers, drops the error code and returns
/// from the interrupt.
pub fn enter(t: &Trampoline, cpu: &mut Cpu) -> (r: Exit)
    requires
        old(cpu).regs@.len() == SCRATCH_COUNT,
        old(cpu).stack@.len() >= 5 + error_words(t.shape),
        WORD_BYTES * (old(cpu).stack@.len() + 11) <= old(cpu).stack_base,
    ensures
        r.report_of() == response_to(
            t.target,
            frame_at(old(cpu).stack@, error_words(t.shape)),
            error_code_on(old(cpu).stack@, t.shape),
            old(cpu).fault_address,
        ).report,
        (r is Resumed) == resumes(t.target),
        r matches Exit::Resumed { frame, .. } ==> {
            &&& frame == frame_at(old(cpu).stack@, error_words(t.shape))
            &&& final(cpu).regs@ == old(cpu).regs@
            &&& final(cpu).stack@ == old(cpu).stack@.subrange(
                0,
                old(cpu).stack@.len() - 5 - error_words(t.shape),
            )
            &&& final(cpu).stack_base == old(cpu).stack_base
            &&& final(cpu).fault_address == old(cpu).fault_address
        },
{
    let ghost s0 = cpu.stack@;
    let ghost regs0 = cpu.regs@;
    let with_code = match t.shape {
        FrameShape::WithErrorCode => true,
        FrameShape::Plain => false,
    };
    save_scratch_registers(cpu);
    proof {
        lemma_save_order_indices();
    }
    assert(cpu.stack@.len() == s0.len() + 9);
    // mov rdi, rsp; add rdi, offset
    let sp = cpu.stack_base - WORD_BYTES * (cpu.stack.len() as u64);
    let frame_ptr = sp + frame_offset(t.shape);
    let mut error_code: u64 = 0;
    if with_code {
        // mov rsi, [rsp + 9*8]
        error_code = cpu.stack[cpu.stack.len() - 1 - SCRATCH_COUNT];
        cpu.regs.set(Reg::Rsi.index(), error_code);
    }
    cpu.regs.set(Reg::Rdi.index(), frame_ptr);
    if with_code {
        // sub rsp, 8: keeps the stack aligned for the call
        cpu.stack.push(0);
    }
    assert(cpu.stack@.len() == s0.len() + 9 + error_words(t.shape));
    // the handler reads its frame through the pointer in rdi
    let rsp_now = cpu.stack_base - WORD_BYTES * (cpu.stack.len() as u64);
    assert(frame_ptr >= rsp_now);
    let depth_words = (frame_ptr - rsp_now) / WORD_BYTES;
    assert(depth_words == 9 + 2 * error_words(t.shape));
    let depth = depth_words as usize;
    let frame = ExceptionStackFrame::read(&cpu.stack, depth);
    proof {
        let sv = s0 + saved_words(regs0);
        assert(saved_words(regs0).len() == 9);
        if with_code {
            assert(cpu.stack@ == sv.push(0));
            assert(depth == 11);
            assert(frame_at(cpu.stack@, 11) == frame_at(s0, 1));
            assert(sv[sv.len() - 1 - 9] == s0[s0.len() - 1]);
        } else {
            assert(depth == 9);
            assert(frame_at(cpu.stack@, 9) == frame_at(s0, 0));
        }
    }
    let response = handle(t.target, &frame, error_code, cpu.fault_address);
    match response.action {
        crate::handlers::Action::Halt => {
            return Exit::Halted { report: response.report };
        },
        crate::handlers::Action::Resume => {},
    }
    if with_code {
        // add rsp, 8
        cpu.stack.pop();
    }
    let ghost before_restore = cpu.stack@;
    assert(before_restore == s0 + saved_words(regs0));
    restore_scratch_registers(cpu);
    proof {
        lemma_restore_inverts_save(regs0, s0, cpu.regs@);
    }
    if with_code {
        // add rsp, 8: drops the error code
        cpu.stack.pop();
    }
    let ghost before_iret = cpu.stack@;
    assert(before_iret =~= s0.subrange(0, s0.len() - error_words(t.shape)));
    let resumed = return_from_interrupt(cpu);
    assert(cpu.stack@ =~= s0.subrange(0, s0.len() - 5 - error_words(t.shape)));
    Exit::Resumed { report: response.report, frame: resumed }
}

/// After the processor pushes a frame (and the error code, for that shape)
/// and the entry routine saves the scratch registers, the frame lies exactly
/// the entry routine's frame offset above the stack pointer, and the error
/// code right above the saved registers.
pub proof fn lemma_frame_offset_exact(
    s: Seq<u64>,
    f: ExceptionStackFrame,
    shape: FrameShape,
    code: u64,
    regs: Seq<u64>,
)
    requires
        regs.len() == SCRATCH_COUNT,
    ensures
        ({
            let pushed = if shape == FrameShape::WithErrorCode {
                frame_words(f).push(code)
            } else {
                frame_words(f)
            };
            let image = s + pushed + saved_words(regs);
            &&& frame_offset_of(shape) == WORD_BYTES * (saved_words(regs).len() + error_words(shape))
            &&& frame_at(image, frame_offset_of(shape) / WORD_BYTES as int) == f
            &&& shape == FrameShape::WithErrorCode ==> image[image.len() - 1 - SCRATCH_COUNT] == code
        }),
{
    let pushed = if shape == FrameShape::WithErrorCode {
        frame_words(f).push(code)
    } else {
        frame_words(f)
    };
    let image = s + pushed + saved_words(regs);
    let above = if shape == FrameShape::WithErrorCode {
        seq![code] + saved_words(regs)
    } else {
        saved_words(regs)
    };
    assert(image =~= s + frame_words(f) + above);
    crate::frame::lemma_frame_read_back(s, f, above);
}

} // verus!
