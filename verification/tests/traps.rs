use copper::interrupts::{
    breakpoint_handler, init_idt, log_breakpoint, Handler, TrapFrame, TrapTable, Traps,
    BREAKPOINT_VECTOR,
};
use copper::memory::Ram;
use copper::qemu::{exit_qemu, QemuExitCode, EXIT_PORT};
use copper::unsafe_ptr::UnsafePointer;
use copper::vga_buffer::{ScreenChar, Writer};
use x86_64::registers::rflags::RFlags;
use x86_64::structures::gdt::SegmentSelector;
use x86_64::structures::idt::InterruptStackFrame;
use x86_64::VirtAddr;

fn console() -> Writer<Ram> {
    Writer::new(Ram::new(0xb8000, 4000), UnsafePointer::new(0xb8000))
}

fn grid(writer: &Writer<Ram>) -> Vec<ScreenChar> {
    let mut cells = Vec::new();
    for row in 0..25 {
        for col in 0..80 {
            cells.push(writer.read_row_col(row, col));
        }
    }
    cells
}

fn rows(writer: &Writer<Ram>) -> Vec<String> {
    (0..25)
        .map(|row| {
            (0..80)
                .map(|col| writer.read_row_col(row, col).ascii_character)
                .take_while(|byte| *byte != 0)
                .map(|byte| byte as char)
                .collect()
        })
        .collect()
}

fn sample_frame() -> TrapFrame {
    TrapFrame {
        instruction_pointer: 0x0020_1000,
        code_segment: 8,
        cpu_flags: 0x202,
        stack_pointer: 0x0000_7fff_ffff_e000,
        stack_segment: 0,
    }
}

#[test]
fn breakpoint_vector_is_three() {
    assert_eq!(BREAKPOINT_VECTOR, 3);
}

#[test]
fn new_table_has_no_handlers() {
    let table = TrapTable::new();
    for vector in 0..=255u8 {
        assert_eq!(table.handler(vector), None);
    }
}

#[test]
fn set_handler_fills_one_vector() {
    let mut table = TrapTable::new();
    table.set_handler(255, Handler::Breakpoint);
    for vector in 0..255u8 {
        assert_eq!(table.handler(vector), None);
    }
    assert_eq!(table.handler(255), Some(Handler::Breakpoint));
}

#[test]
fn no_handler_before_installation() {
    let traps = Traps::new();
    assert!(traps.table().is_none());
    for vector in 0..=255u8 {
        assert_eq!(traps.handler(vector), None);
    }
}

#[test]
fn installation_populates_the_breakpoint_vector() {
    let mut traps = Traps::new();
    assert!(init_idt(&mut traps));
    for vector in 0..=255u8 {
        let expected = if vector == 3 { Some(Handler::Breakpoint) } else { None };
        assert_eq!(traps.handler(vector), expected);
        assert_eq!(traps.table().unwrap().handler(vector), expected);
    }
}

#[test]
fn installing_twice_is_installing_once() {
    let mut once = Traps::new();
    init_idt(&mut once);
    let mut twice = Traps::new();
    assert!(init_idt(&mut twice));
    assert!(!init_idt(&mut twice));
    assert!(!init_idt(&mut twice));
    for vector in 0..=255u8 {
        assert_eq!(twice.handler(vector), once.handler(vector));
    }
}

#[test]
fn breakpoint_is_handled_and_execution_goes_on() {
    let mut writer = console();
    let mut traps = Traps::new();
    init_idt(&mut traps);
    match traps.handler(BREAKPOINT_VECTOR) {
        Some(Handler::Breakpoint) => breakpoint_handler(&mut writer, &sample_frame()),
        None => panic!("the breakpoint vector has no handler"),
    }
    writer.write_string("It didn't crash!\n");
    let shown = rows(&writer);
    assert_eq!(shown[23], "It didn't crash!");
    assert!(shown.iter().any(|row| row == "Exception: breakpoint"));
}

#[test]
fn breakpoint_handler_logs_the_frame_as_x86_64_shows_it() {
    let frame = InterruptStackFrame::new(
        VirtAddr::new(0x0020_1000),
        SegmentSelector(8),
        RFlags::from_bits_retain(0x202),
        VirtAddr::new(0x0000_7fff_ffff_e000),
        SegmentSelector(0),
    );
    let text = format!("{:#?}", frame);
    let mut expected = console();
    expected.write_string("Exception: breakpoint\n");
    expected.write_string(&text);
    expected.write_string("\n");

    let mut writer = console();
    breakpoint_handler(&mut writer, &sample_frame());
    assert_eq!(grid(&writer), grid(&expected));
    assert_eq!(writer.column_position(), 0);

    let shown = rows(&writer);
    let heading = shown.iter().position(|row| row == "Exception: breakpoint").unwrap();
    assert_eq!(shown[heading + 1], "InterruptStackFrame {");
    assert_eq!(shown[heading + 2], "    instruction_pointer: VirtAddr(");
    assert_eq!(shown[heading + 3], "        0x201000,");
    assert!(shown.iter().any(|row| row == "        0x7fffffffe000,"));
    assert_eq!(shown[23], "}");
    assert_eq!(shown[24], "");
}

#[test]
fn frames_that_differ_are_logged_differently() {
    let mut first = console();
    breakpoint_handler(&mut first, &sample_frame());
    let mut second = console();
    let mut frame = sample_frame();
    frame.instruction_pointer = 0x0020_1004;
    breakpoint_handler(&mut second, &frame);
    assert_ne!(grid(&first), grid(&second));
    assert!(rows(&second).iter().any(|row| row == "        0x201004,"));
}

#[test]
fn log_breakpoint_writes_heading_frame_and_line_break() {
    let mut writer = console();
    log_breakpoint(&mut writer, "frame");
    let shown = rows(&writer);
    assert_eq!(shown[22], "Exception: breakpoint");
    assert_eq!(shown[23], "frame");
    assert_eq!(shown[24], "");
    assert_eq!(writer.column_position(), 0);
}

#[test]
fn exit_codes_are_sixteen_and_seventeen() {
    assert_eq!(QemuExitCode::Success.code(), 0x10);
    assert_eq!(QemuExitCode::Failed.code(), 0x11);
}

#[test]
fn exit_writes_the_code_to_port_f4() {
    assert_eq!(EXIT_PORT, 0xf4);
    let success = exit_qemu(QemuExitCode::Success);
    assert_eq!((success.port, success.value), (0xf4, 0x10));
    let failed = exit_qemu(QemuExitCode::Failed);
    assert_eq!((failed.port, failed.value), (0xf4, 0x11));
}

#[test]
fn host_status_is_code_shifted_with_low_bit_set() {
    assert_eq!(QemuExitCode::Success.host_status(), 33);
    assert_eq!(QemuExitCode::Failed.host_status(), 35);
}
