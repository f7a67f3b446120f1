use interrupts::diagnostic::hex;
use interrupts::error_code::{PageFaultErrorCode, PageFaultFlag};
use interrupts::frame::ExceptionStackFrame;
use interrupts::handlers::{
    breakpoint_handler, divide_by_zero_handler, handle, invalid_opcode_handler,
    page_fault_handler, Action, Exception,
};
use interrupts::idt::{vector_pushes_error_code, Delivery, Entry, EntryPoints, Idt};
use interrupts::init;
use interrupts::trampoline::{
    enter, frame_offset, restore_sequence, save_scratch_registers, restore_scratch_registers,
    save_sequence, Cpu, Exit, FrameShape, Reg, Trampoline,
};

const ALL_FLAGS: [PageFaultFlag; 5] = [
    PageFaultFlag::ProtectionViolation,
    PageFaultFlag::CausedByWrite,
    PageFaultFlag::UserMode,
    PageFaultFlag::MalformedTable,
    PageFaultFlag::InstructionFetch,
];

fn sample_frame() -> ExceptionStackFrame {
    ExceptionStackFrame {
        instruction_ptr: 0xffff_8000_0010_2a3c,
        code_segment: 0x08,
        cpu_flags: 0x246,
        stack_pointer: 0x0012_7f58,
        stack_segment: 0x10,
    }
}

fn fingerprint() -> Vec<u64> {
    vec![0x1111, 0x2222, 0x3333, 0x4444, 0x5555, 0x6666, 0x7777, 0x8888, 0x9999]
}

fn cpu_with(stack: Vec<u64>) -> Cpu {
    Cpu { regs: fingerprint(), stack, stack_base: 0x20_0000, fault_address: 0xdead_b000 }
}

/// A stack with two words of the interrupted code and, on top, what the
/// processor pushes: the frame, and the error code where there is one.
fn trap_stack(frame: &ExceptionStackFrame, error_code: Option<u64>) -> Vec<u64> {
    let mut s = vec![0xaaaa, 0xbbbb];
    s.push(frame.stack_segment);
    s.push(frame.stack_pointer);
    s.push(frame.cpu_flags);
    s.push(frame.code_segment);
    s.push(frame.instruction_ptr);
    if let Some(c) = error_code {
        s.push(c);
    }
    s
}

fn points() -> EntryPoints {
    EntryPoints {
        divide_by_zero: 0xffff_8000_0000_1000,
        breakpoint: 0xffff_8000_0000_2000,
        invalid_opcode: 0xffff_8000_0000_3000,
        page_fault: 0xffff_8000_0000_4000,
    }
}

#[test]
fn decode_single_named_bits() {
    for (i, f) in ALL_FLAGS.iter().enumerate() {
        let code = PageFaultErrorCode::decode(1u64 << i);
        assert_eq!(f.bit(), 1u64 << i);
        assert_eq!(code.flags(), vec![*f]);
        for g in ALL_FLAGS.iter() {
            assert_eq!(code.contains(*g), g == f);
        }
    }
}

#[test]
fn decode_unnamed_bits_only() {
    let code = PageFaultErrorCode::decode(0xffff_ffff_ffff_ffe0);
    assert_eq!(code.bits(), 0xffff_ffff_ffff_ffe0);
    assert!(code.flags().is_empty());
    for g in ALL_FLAGS.iter() {
        assert!(!code.contains(*g));
    }
    assert!(PageFaultErrorCode::decode(0).flags().is_empty());
}

#[test]
fn decode_all_named_bits() {
    let code = PageFaultErrorCode::decode(u64::MAX);
    assert_eq!(code.flags(), ALL_FLAGS.to_vec());
}

#[test]
fn decode_protection_write_user() {
    let code = PageFaultErrorCode::decode(0b00111);
    assert!(code.protection_violation());
    assert!(code.caused_by_write());
    assert!(code.user_mode());
    assert!(!code.malformed_table());
    assert!(!code.instruction_fetch());
    assert_eq!(
        code.flags(),
        vec![
            PageFaultFlag::ProtectionViolation,
            PageFaultFlag::CausedByWrite,
            PageFaultFlag::UserMode
        ]
    );
}

#[test]
fn restore_order_reverses_save_order() {
    let save = save_sequence();
    let mut restore = restore_sequence();
    assert_eq!(save.len(), 9);
    assert_eq!(save[0], Reg::Rax);
    assert_eq!(save[8], Reg::R11);
    restore.reverse();
    assert_eq!(save, restore);
}

#[test]
fn save_then_restore_keeps_fingerprint() {
    let mut cpu = cpu_with(vec![7, 8]);
    save_scratch_registers(&mut cpu);
    assert_eq!(cpu.stack.len(), 11);
    assert_eq!(&cpu.stack[2..], &fingerprint()[..]);
    cpu.regs = vec![0; 9];
    restore_scratch_registers(&mut cpu);
    assert_eq!(cpu.regs, fingerprint());
    assert_eq!(cpu.stack, vec![7, 8]);
}

#[test]
fn frame_offsets_match_saved_bytes() {
    assert_eq!(frame_offset(FrameShape::Plain), 72);
    assert_eq!(frame_offset(FrameShape::WithErrorCode), 80);
    assert_eq!(frame_offset(FrameShape::Plain), 8 * save_sequence().len() as u64);
}

#[test]
fn frame_read_at_depth() {
    let f = sample_frame();
    let mut s = trap_stack(&f, Some(0x2));
    s.push(99);
    assert_eq!(ExceptionStackFrame::read(&s, 2), f);
}

#[test]
fn plain_trampoline_round_trip() {
    let f = sample_frame();
    let mut cpu = cpu_with(trap_stack(&f, None));
    let t = Trampoline::new(Exception::Breakpoint, 0x1000);
    assert_eq!(t.shape, FrameShape::Plain);
    match enter(&t, &mut cpu) {
        Exit::Resumed { report, frame } => {
            assert_eq!(report.frame, f);
            assert_eq!(frame, f);
        }
        Exit::Halted { .. } => panic!("a breakpoint resumes"),
    }
    assert_eq!(cpu.regs, fingerprint());
    assert_eq!(cpu.stack, vec![0xaaaa, 0xbbbb]);
}

#[test]
fn error_code_trampoline_round_trip() {
    let f = sample_frame();
    let mut cpu = cpu_with(trap_stack(&f, Some(0b10101)));
    let t = Trampoline::new(Exception::PageFault, 0x4000);
    assert_eq!(t.shape, FrameShape::WithErrorCode);
    match enter(&t, &mut cpu) {
        Exit::Resumed { report, frame } => {
            assert_eq!(report.frame, f);
            assert_eq!(frame, f);
            assert_eq!(report.fault_address, Some(0xdead_b000));
            assert_eq!(report.error_code, Some(PageFaultErrorCode::decode(0b10101)));
        }
        Exit::Halted { .. } => panic!("a page fault resumes"),
    }
    assert_eq!(cpu.regs, fingerprint());
    assert_eq!(cpu.stack, vec![0xaaaa, 0xbbbb]);
}

#[test]
fn fatal_handlers_halt() {
    let f = sample_frame();
    for e in [Exception::DivideByZero, Exception::InvalidOpcode] {
        let mut cpu = cpu_with(trap_stack(&f, None));
        match enter(&Trampoline::new(e, 0x1000), &mut cpu) {
            Exit::Halted { report } => {
                assert_eq!(report.exception, e);
                assert_eq!(report.frame, f);
            }
            Exit::Resumed { .. } => panic!("this exception halts"),
        }
    }
}

#[test]
fn handler_actions() {
    let f = sample_frame();
    assert_eq!(divide_by_zero_handler(&f).action, Action::Halt);
    assert_eq!(invalid_opcode_handler(&f).action, Action::Halt);
    assert_eq!(breakpoint_handler(&f).action, Action::Resume);
    let pf = page_fault_handler(&f, 0b110, 0x4444);
    assert_eq!(pf.action, Action::Resume);
    assert_eq!(pf.report.fault_address, Some(0x4444));
    assert_eq!(pf.report.error_code.unwrap().bits(), 0b110);
    assert!(handle(Exception::Breakpoint, &f, 5, 6).report.error_code.is_none());
}

#[test]
fn second_set_handler_wins() {
    let mut idt = Idt::new();
    let first = Trampoline::new(Exception::Breakpoint, 0x1111_2222_3333);
    let second = Trampoline::new(Exception::Breakpoint, 0x4444_5555_6666);
    idt.set_handler(3, 0x08, first);
    idt.set_handler(3, 0x18, second);
    let e = idt.entries[3];
    assert_eq!(e.address(), 0x4444_5555_6666);
    assert_eq!(e.gdt_selector, 0x18);
    assert_eq!(e.routine.unwrap().address, 0x4444_5555_6666);
    assert!(e.is_present());
    for v in 0..256 {
        if v != 3 {
            assert!(!idt.entries[v].is_present());
        }
    }
}

#[test]
fn entry_splits_address() {
    let t = Trampoline::new(Exception::DivideByZero, 0x1234_5678_9abc_def0);
    let e = Entry::new(0x08, t);
    assert_eq!(e.pointer_low, 0xdef0);
    assert_eq!(e.pointer_middle, 0x9abc);
    assert_eq!(e.pointer_high, 0x1234_5678);
    assert_eq!(e.options, 0x8e00);
    assert_eq!(e.address(), 0x1234_5678_9abc_def0);
    let m = Entry::missing();
    assert_eq!(m.options, 0x0e00);
    assert!(!m.is_present());
}

#[test]
fn breakpoint_end_to_end() {
    let mut idt = Idt::new();
    idt.set_handler(3, 0x08, Trampoline::new(Exception::Breakpoint, 0x2000));
    let f = sample_frame();
    let mut cpu = cpu_with(vec![0xaaaa, 0xbbbb]);
    match idt.raise(3, &mut cpu, f, 0) {
        Delivery::Delivered(Exit::Resumed { report, frame }) => {
            let line = report.headline();
            assert!(line.contains(&format!("{:#x}", f.instruction_ptr)));
            assert_eq!(line, "EXCEPTION: BREAKPOINT at 0xffff800000102a3c");
            assert_eq!(frame.instruction_ptr, f.instruction_ptr);
        }
        _ => panic!("the breakpoint returns"),
    }
    assert_eq!(cpu.regs, fingerprint());
    assert_eq!(cpu.stack, vec![0xaaaa, 0xbbbb]);
}

#[test]
fn empty_slot_is_not_present() {
    let mut idt = Idt::new();
    idt.set_handler(3, 0x08, Trampoline::new(Exception::Breakpoint, 0x2000));
    let mut cpu = cpu_with(vec![1]);
    assert!(matches!(idt.raise(0, &mut cpu, sample_frame(), 0), Delivery::NotPresent));
    assert_eq!(cpu.stack, vec![1]);
}

#[test]
fn page_fault_end_to_end() {
    let idt = init(points(), 0x08);
    let f = sample_frame();
    let mut cpu = cpu_with(vec![0xaaaa]);
    match idt.raise(14, &mut cpu, f, 0b00111) {
        Delivery::Delivered(Exit::Resumed { report, frame }) => {
            assert_eq!(frame, f);
            assert_eq!(report.headline(), "EXCEPTION: PAGE FAULT while accessing 0xdeadb000");
            let code = report.error_code.unwrap();
            assert!(code.protection_violation() && code.caused_by_write() && code.user_mode());
        }
        _ => panic!("the page fault returns"),
    }
    assert_eq!(cpu.stack, vec![0xaaaa]);
    assert_eq!(cpu.regs, fingerprint());
}

#[test]
fn divide_by_zero_end_to_end_halts() {
    let idt = init(points(), 0x08);
    let mut cpu = cpu_with(vec![]);
    match idt.raise(0, &mut cpu, sample_frame(), 0) {
        Delivery::Delivered(Exit::Halted { report }) => {
            assert_eq!(report.headline(), "EXCEPTION: DIVIDE BY ZERO!");
        }
        _ => panic!("division by zero halts"),
    }
    match idt.raise(6, &mut cpu_with(vec![]), sample_frame(), 0) {
        Delivery::Delivered(Exit::Halted { report }) => {
            assert_eq!(report.headline(), "EXCEPTION: INVALID OPCODE at 0xffff800000102a3c");
        }
        _ => panic!("an invalid opcode halts"),
    }
}

#[test]
fn init_installs_four_vectors() {
    let idt = init(points(), 0x08);
    assert_eq!(idt.entries.len(), 256);
    assert_eq!(idt.limit(), 4095);
    for v in 0..256usize {
        let e = &idt.entries[v];
        match v {
            0 | 3 | 6 | 14 => {
                assert!(e.is_present());
                assert_eq!(e.gdt_selector, 0x08);
                let t = e.routine.unwrap();
                assert_eq!(e.address(), t.address);
                assert_eq!(t.shape == FrameShape::WithErrorCode, v == 14);
                assert_eq!(t.target.vector() as usize, v);
            }
            _ => assert!(!e.is_present()),
        }
    }
    assert_eq!(idt.entries[14].address(), 0xffff_8000_0000_4000);
}

#[test]
fn error_code_vectors() {
    let with_code: Vec<u8> = (0..=255u8).filter(|v| vector_pushes_error_code(*v)).collect();
    assert_eq!(with_code, vec![8, 10, 11, 12, 13, 14, 17, 21, 29, 30]);
}

#[test]
fn hex_matches_alternate_format() {
    for v in [0u64, 9, 10, 15, 16, 255, 0xdead_beef, u64::MAX] {
        assert_eq!(hex(v), format!("{:#x}", v));
    }
    assert_eq!(hex(0), "0x0");
}
