use vstd::prelude::*;
use crate::error_code::PageFaultErrorCode;
use crate::frame::ExceptionStackFrame;

verus! {

/// The processor exceptions this kernel installs a handler for.
#[derive(Clone, Copy, Debug, PartialEq, Eq, Structural)]
pub enum Exception {
    DivideByZero,
    Breakpoint,
    InvalidOpcode,
    PageFault,
}

/// What a handler does once it has reported.
#[derive(Clone, Copy, Debug, PartialEq, Eq, Structural)]
pub enum Action {
    /// Return to the trampoline, which resumes the interrupted code.
    Resume,
    /// Idle forever: there is no safe point to resume at.
    Halt,
}

/// The diagnostic a handler emits: the exception, the frame, and for a page
/// fault the faulting address and the decoded error code.
#[derive(Clone, Copy, Debug)]
pub struct Report {
    pub exception: Exception,
    pub frame: ExceptionStackFrame,
    pub fault_address: Option<u64>,
    pub error_code: Option<PageFaultErrorCode>,
}

/// A handler's report and what it does next.
#[derive(Clone, Copy, Debug)]
pub struct Response {
    pub report: Report,
    pub action: Action,
}

/// Whether execution resumes after the exception: a breakpoint is a trap that
/// resumes at the next instruction, and a page fault resumes even though
/// nothing repairs the mapping yet; division and opcode faults halt.
pub open spec fn resumes(e: Exception) -> bool {
    e == Exception::Breakpoint || e == Exception::PageFault
}

/// The response to exception `e` on `frame`; `error_code` and
/// `fault_address` are read for a page fault only.
pub open spec fn response_to(
    e: Exception,
    frame: ExceptionStackFrame,
    error_code: u64,
    fault_address: u64,
) -> Response {
    Response {
        report: Report {
            exception: e,
            frame,
            fault_address: if e == Exception::PageFault {
                Some(fault_address)
            } else {
                None
            },
            error_code: if e == Exception::PageFault {
                Some(PageFaultErrorCode { bits: error_code })
            } else {
                None
            },
        },
        action: if resumes(e) {
            Action::Resume
        } else {
            Action::Halt
        },
    }
}

impl Exception {
    /// The vector the processor raises the exception on.
    pub fn vector(self) -> (r: u8)
        ensures
            r == vector_of(self),
    {
        match self {
            Exception::DivideByZero => 0,
            Exception::Breakpoint => 3,
            Exception::InvalidOpcode => 6,
            Exception::PageFault => 14,
        }
    }
}

pub open spec fn vector_of(e: Exception) -> u8 {
    match e {
        Exception::DivideByZero => 0,
        Exception::Breakpoint => 3,
        Exception::InvalidOpcode => 6,
        Exception::PageFault => 14,
    }
}

/// Reports a division by zero, then halts.
pub fn divide_by_zero_handler(frame: &ExceptionStackFrame) -> (r: Response)
    ensures
        r == response_to(Exception::DivideByZero, *frame, 0, 0),
        r.action == Action::Halt,
{
    Response {
        report: Report {
            exception: Exception::DivideByZero,
            frame: *frame,
            fault_address: None,
            error_code: None,
        },
        action: Action::Halt,
    }
}

/// Reports a breakpoint, then resumes after it.
pub fn breakpoint_handler(frame: &ExceptionStackFrame) -> (r: Response)
    ensures
        r == response_to(Exception::Breakpoint, *frame, 0, 0),
        r.action == Action::Resume,
{
    Response {
        report: Report {
            exception: Exception::Breakpoint,
            frame: *frame,
            fault_address: None,
            error_code: None,
        },
        action: Action::Resume,
    }
}

/// Reports an invalid opcode, then halts.
pub fn invalid_opcode_handler(frame: &ExceptionStackFrame) -> (r: Response)
    ensures
        r == response_to(Exception::InvalidOpcode, *frame, 0, 0),
        r.action == Action::Halt,
{
    Response {
        report: Report {
            exception: Exception::InvalidOpcode,
            frame: *frame,
            fault_address: None,
            error_code: None,
        },
        action: Action::Halt,
    }
}

/// Reports a page fault at `fault_address` with its decoded error code, then
/// resumes; nothing repairs the mapping, so the access will usually fault
/// again.
pub fn page_fault_handler(frame: &ExceptionStackFrame, error_code: u64, fault_address: u64) -> (r:
    Response)
    ensures
        r == response_to(Exception::PageFault, *frame, error_code, fault_address),
        r.action == Action::Resume,
{
    Response {
        report: Report {
            exception: Exception::PageFault,
            frame: *frame,
            fault_address: Some(fault_address),
            error_code: Some(PageFaultErrorCode::decode(error_code)),
        },
        action: Action::Resume,
    }
}

/// Runs the handler of `e`.
pub fn handle(e: Exception, frame: &ExceptionStackFrame, error_code: u64, fault_address: u64) -> (r:
    Response)
    ensures
        r == response_to(e, *frame, error_code, fault_address),
{
    match e {
        Exception::DivideByZero => divide_by_zero_handler(frame),
        Exception::Breakpoint => breakpoint_handler(frame),
        Exception::InvalidOpcode => invalid_opcode_handler(frame),
        Exception::PageFault => page_fault_handler(frame, error_code, fault_address),
    }
}

} // verus!
