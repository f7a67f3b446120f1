//! Interrupt-handling core of a bare-metal kernel, modelled and verified:
//! exception frames, page-fault error codes, the vector table, the entry
//! trampolines that bridge the hardware calling convention, and the
//! exception handlers that report and then resume or halt.

pub mod diagnostic;
pub mod error_code;
pub mod frame;
pub mod handlers;
pub mod trampoline;
pub mod idt;

use vstd::prelude::*;
use crate::handlers::Exception;
use crate::idt::{EntryPoints, Idt, entry_for, kernel_routine, missing_entry, VECTOR_COUNT};
use crate::trampoline::Trampoline;

verus! {

/// Builds the kernel's vector table: the division, breakpoint, invalid
/// opcode and page fault vectors hold their entry routines, reached through
/// code segment `selector`; every other slot is empty. The caller loads it
/// into the processor once, before interrupts are enabled, and then starts
/// the interrupt controller.
pub fn init(entry_points: EntryPoints, selector: u16) -> (r: Idt)
    ensures
        r.wf(),
        forall|v: int|
            0 <= v < VECTOR_COUNT ==> #[trigger] r.entries@[v] == match kernel_routine(
                entry_points,
                v,
            ) {
                Some(t) => entry_for(selector, t),
                None => missing_entry(),
            },
{
    let mut idt = Idt::new();
    let dz = Exception::DivideByZero;
    idt.set_handler(dz.vector(), selector, Trampoline::new(dz, entry_points.divide_by_zero));
    let bp = Exception::Breakpoint;
    idt.set_handler(bp.vector(), selector, Trampoline::new(bp, entry_points.breakpoint));
    let ud = Exception::InvalidOpcode;
    idt.set_handler(ud.vector(), selector, Trampoline::new(ud, entry_points.invalid_opcode));
    let pf = Exception::PageFault;
    idt.set_handler(pf.vector(), selector, Trampoline::new(pf, entry_points.page_fault));
    idt
}

} // verus!
