use vstd::prelude::*;

verus! {

/// What the processor pushes on every trap, in the order the fields lie in
/// memory from the lowest address up.
#[derive(Clone, Copy, Debug, PartialEq, Eq, Structural)]
pub struct ExceptionStackFrame {
    pub instruction_ptr: u64,
    pub code_segment: u64,
    pub cpu_flags: u64,
    pub stack_pointer: u64,
    pub stack_segment: u64,
}

/// The frame that lies `depth` words above the top of stack `s`. A stack is
/// modelled with its top (lowest address) as the last element: a push
/// appends, a pop removes the last element.
pub open spec fn frame_at(s: Seq<u64>, depth: int) -> ExceptionStackFrame {
    ExceptionStackFrame {
        instruction_ptr: s[s.len() - 1 - depth],
        code_segment: s[s.len() - 2 - depth],
        cpu_flags: s[s.len() - 3 - depth],
        stack_pointer: s[s.len() - 4 - depth],
        stack_segment: s[s.len() - 5 - depth],
    }
}

/// The words the processor pushes for `f`, in push order: the stack segment
/// first, the instruction pointer last and so on top.
pub open spec fn frame_words(f: ExceptionStackFrame) -> Seq<u64> {
    seq![f.stack_segment, f.stack_pointer, f.cpu_flags, f.code_segment, f.instruction_ptr]
}

impl ExceptionStackFrame {
    /// A read-only view of the frame that lies `depth` words above the top of
    /// `stack`. Nothing is validated: the caller knows where the frame is.
    pub fn read(stack: &Vec<u64>, depth: usize) -> (r: ExceptionStackFrame)
        requires
            depth + 5 <= stack@.len(),
        ensures
            r == frame_at(stack@, depth as int),
    {
        let top = stack.len() - 1 - depth;
        ExceptionStackFrame {
            instruction_ptr: stack[top],
            code_segment: stack[top - 1],
            cpu_flags: stack[top - 2],
            stack_pointer: stack[top - 3],
            stack_segment: stack[top - 4],
        }
    }
}

/// A frame pushed on top of any stack is read back unchanged at the depth of
/// the words pushed after it.
pub proof fn lemma_frame_read_back(s: Seq<u64>, f: ExceptionStackFrame, above: Seq<u64>)
    ensures
        frame_at(s + frame_words(f) + above, above.len() as int) == f,
{
    let t = s + frame_words(f) + above;
    let n = s.len() as int;
    assert(t[n + 4] == f.instruction_ptr);
    assert(t[n + 3] == f.code_segment);
    assert(t[n + 2] == f.cpu_flags);
    assert(t[n + 1] == f.stack_pointer);
    assert(t[n] == f.stack_segment);
}

} // verus!
