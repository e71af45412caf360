use rize_one::bits::Bits;
use rize_one::cell::Byte;
use rize_one::display::DisplayMemory;
use rize_one::error::{RizeError, RizeErrorType};
use rize_one::instructions::{self, AluOp};
use rize_one::machine::{next_stage, AzmInterpreter, CpuCycleStage, RizeOne, StageOutcome};
use rize_one::memory::SystemMemory;
use rize_one::opcode::OpCode;
use rize_one::operand::{ArgType, ProgramArg};
use rize_one::program::{split_lines, trim_string, ActiveProgram};
use rize_one::registers::Registers;
use rize_one::word::DSB;

fn boot(src: &str) -> RizeOne {
    let mut m = RizeOne::new(src.to_string(), 2048);
    m.step().unwrap();
    assert_eq!(m.stage, CpuCycleStage::Fetch);
    m
}

/// Steps until the machine halts; returns the failure that halted it.
fn run(m: &mut RizeOne, max_steps: usize) -> Option<RizeError> {
    for _ in 0..max_steps {
        if m.stage == CpuCycleStage::Halt {
            break;
        }
        if let Err(e) = m.step() {
            return Some(e);
        }
    }
    None
}

fn reg(m: &RizeOne, name: &str) -> DSB {
    m.registers.read(name).unwrap()
}

fn set_up() -> Registers {
    let mut registers = Registers::new();
    AzmInterpreter {}.setup_registers(&mut registers);
    registers
}

#[test]
fn add_leaves_zero_flag_clear() {
    let mut m = boot("MOV ga 5\nADD ga 3\n");
    for _ in 0..6 {
        m.step().unwrap();
    }
    assert_eq!(reg(&m, "ga"), DSB::U16(8));
    assert_eq!(reg(&m, "fz"), DSB::Flag(false));
}

#[test]
fn sub_to_zero_sets_zero_flag() {
    let mut m = boot("MOV ga 5\nSUB ga 5\n");
    for _ in 0..6 {
        m.step().unwrap();
    }
    assert_eq!(reg(&m, "ga"), DSB::U16(0));
    assert_eq!(reg(&m, "fz"), DSB::Flag(true));
}

#[test]
fn jump_returns_to_label_line() {
    let mut m = boot(".loop\nADD ga 1\nJMP .loop\n");
    for _ in 0..6 {
        m.step().unwrap();
    }
    assert_eq!(reg(&m, "pc"), DSB::U16(1));
    assert_eq!(reg(&m, "ga"), DSB::U16(1));
    assert_eq!(m.stage, CpuCycleStage::Fetch);
    m.step().unwrap();
    assert_eq!(m.program.line, "ADD ga 1".to_string());
}

#[test]
fn divide_by_zero_halts_and_keeps_register() {
    let mut m = boot("MOV ga 10\nDIV ga 0\nMOV ga 99\n");
    let err = run(&mut m, 100).unwrap();
    assert!(matches!(err.type_, RizeErrorType::Execute(_)));
    assert_eq!(m.stage, CpuCycleStage::Halt);
    assert_eq!(reg(&m, "ga"), DSB::U16(10));
    assert!(m.step().is_ok());
    assert_eq!(m.stage, CpuCycleStage::Halt);
    assert_eq!(reg(&m, "ga"), DSB::U16(10));
}

#[test]
fn wdm_splits_channels() {
    let mut m = boot("WDM 258 772 1027\n");
    for _ in 0..3 {
        m.step().unwrap();
    }
    assert_eq!(m.display.get_pixel(4, 3).unwrap(), [1, 2, 3, 4]);
}

#[test]
fn unknown_opcode_halts() {
    let mut m = boot("MOV ga 1\nFOO ga\nMOV ga 2\n");
    let err = run(&mut m, 100).unwrap();
    assert!(matches!(err.type_, RizeErrorType::Execute(_)));
    assert_eq!(m.stage, CpuCycleStage::Halt);
    assert_eq!(reg(&m, "ga"), DSB::U16(1));
}

#[test]
fn out_of_range_memory_halts() {
    let mut m = boot("MOV ga 7\nMOV 0x900 5\nMOV ga 2\n");
    let err = run(&mut m, 100).unwrap();
    assert!(matches!(err.type_, RizeErrorType::MemoryRead(_)));
    assert_eq!(m.stage, CpuCycleStage::Halt);
    assert_eq!(reg(&m, "ga"), DSB::U16(7));
}

#[test]
fn store_out_of_range_is_a_memory_write_error() {
    let mut m = boot("MOV mar 3000
MOV mdr 1
ST
MOV ga 2
");
    let err = run(&mut m, 100).unwrap();
    assert!(matches!(err.type_, RizeErrorType::MemoryWrite(_)));
    assert_eq!(m.stage, CpuCycleStage::Halt);
    assert_eq!(reg(&m, "ga"), DSB::U16(0));
}

#[test]
fn halt_instruction_stops_the_machine() {
    let mut m = boot("MOV ga 1\nHALT\nMOV ga 2\n");
    assert!(run(&mut m, 100).is_none());
    assert_eq!(m.stage, CpuCycleStage::Halt);
    assert_eq!(reg(&m, "ga"), DSB::U16(1));
}

#[test]
fn end_of_program_is_a_fetch_error() {
    let mut m = boot("# only a comment\n\nMOV ga 1\n");
    let err = run(&mut m, 100).unwrap();
    assert!(matches!(err.type_, RizeErrorType::Fetch(_)));
    assert_eq!(reg(&m, "ga"), DSB::U16(1));
    assert_eq!(reg(&m, "pc"), DSB::U16(3));
}

#[test]
fn malformed_operand_is_a_decode_error() {
    let mut m = boot("MOV ga 0xZZ\n");
    let err = run(&mut m, 100).unwrap();
    assert!(matches!(err.type_, RizeErrorType::Decode(_)));
    assert_eq!(m.stage, CpuCycleStage::Halt);
}

#[test]
fn unknown_register_source_is_a_register_read_error() {
    let mut m = boot("MOV ga gz\n");
    let err = run(&mut m, 100).unwrap();
    assert!(matches!(err.type_, RizeErrorType::RegisterRead(_)));
}

#[test]
fn missing_label_is_an_execute_error() {
    let mut m = boot("JMP .nowhere\n");
    let err = run(&mut m, 100).unwrap();
    assert!(matches!(err.type_, RizeErrorType::Execute(_)));
}

#[test]
fn auto_step_runs_a_batch_and_stops_at_halt() {
    let mut m = boot("ADD ga 1\nADD ga 1\nADD ga 1\nHALT\n");
    m.start_auto_step(2);
    assert_eq!(m.stage, CpuCycleStage::AutoStep);
    m.step().unwrap();
    assert_eq!(m.stage, CpuCycleStage::AutoStep);
    assert_eq!(reg(&m, "ga"), DSB::U16(2));
    m.step().unwrap();
    assert_eq!(m.stage, CpuCycleStage::Halt);
    assert_eq!(reg(&m, "ga"), DSB::U16(3));
}

#[test]
fn conditional_jumps_follow_flags() {
    let mut m = boot("MOV ga 1\nSUB ga 1\nJIZ .done\nMOV gb 9\n.done\nMOV gc 4\nHALT\n");
    assert!(run(&mut m, 100).is_none());
    assert_eq!(reg(&m, "gb"), DSB::U16(0));
    assert_eq!(reg(&m, "gc"), DSB::U16(4));

    let mut m = boot("MOV ga 1\nSUB ga 2\nJIN .neg\nMOV gb 9\n.neg\nHALT\n");
    assert!(run(&mut m, 100).is_none());
    assert_eq!(reg(&m, "ga"), DSB::U16(0xffff));
    assert_eq!(reg(&m, "fn"), DSB::Flag(true));
    assert_eq!(reg(&m, "fc"), DSB::Flag(true));
    assert_eq!(reg(&m, "gb"), DSB::U16(0));
}

#[test]
fn third_operand_register_receives_result() {
    let mut m = boot("MOV ga 6\nMOV gb 7\nMUL ga gb gc\nHALT\n");
    assert!(run(&mut m, 100).is_none());
    assert_eq!(reg(&m, "ga"), DSB::U16(6));
    assert_eq!(reg(&m, "gc"), DSB::U16(42));
}

#[test]
fn reload_rewinds_program_counter() {
    let mut m = boot("MOV ga 1\n");
    m.step().unwrap();
    assert_eq!(reg(&m, "pc"), DSB::U16(1));
    m.load_program("MOV gb 2\n".to_string());
    assert_eq!(reg(&m, "pc"), DSB::U16(0));
}

#[test]
fn stage_transitions() {
    assert_eq!(next_stage(CpuCycleStage::Fetch, StageOutcome::Done), CpuCycleStage::Decode);
    assert_eq!(next_stage(CpuCycleStage::Decode, StageOutcome::Done), CpuCycleStage::Execute);
    assert_eq!(next_stage(CpuCycleStage::Execute, StageOutcome::Done), CpuCycleStage::Fetch);
    assert_eq!(next_stage(CpuCycleStage::Execute, StageOutcome::HaltRequested), CpuCycleStage::Halt);
    assert_eq!(next_stage(CpuCycleStage::Decode, StageOutcome::Failed), CpuCycleStage::Halt);
    assert_eq!(next_stage(CpuCycleStage::Halt, StageOutcome::Done), CpuCycleStage::Halt);
}

#[test]
fn flags_after_signed_overflow() {
    let mut registers = set_up();
    registers.write("ga", DSB::U16(0x7fff)).unwrap();
    let r = instructions::alu(
        AluOp::Add,
        &ProgramArg::register("ga"),
        &ProgramArg::immediate(1),
        &ProgramArg::none(),
        &mut registers,
    );
    assert!(r.is_ok());
    assert_eq!(registers.read("ga").unwrap(), DSB::U16(0x8000));
    assert_eq!(registers.read("fn").unwrap(), DSB::Flag(true));
    assert_eq!(registers.read("fo").unwrap(), DSB::Flag(true));
    assert_eq!(registers.read("fc").unwrap(), DSB::Flag(false));
    assert_eq!(registers.read("fz").unwrap(), DSB::Flag(false));
}

#[test]
fn bitwise_and_shift_instructions() {
    let mut registers = set_up();
    registers.write("ga", DSB::U16(0b1010)).unwrap();
    assert!(instructions::or(&ProgramArg::register("ga"), &ProgramArg::immediate(0b0101), &mut registers).is_ok());
    assert_eq!(registers.read("ga").unwrap(), DSB::U16(0b1111));
    assert!(instructions::xor(&ProgramArg::register("ga"), &ProgramArg::immediate(0b0011), &mut registers).is_ok());
    assert_eq!(registers.read("ga").unwrap(), DSB::U16(0b1100));
    assert!(instructions::shl(&ProgramArg::register("ga"), &ProgramArg::immediate(2), &mut registers).is_ok());
    assert_eq!(registers.read("ga").unwrap(), DSB::U16(0b110000));
    assert!(instructions::shr(&ProgramArg::register("ga"), &ProgramArg::immediate(4), &mut registers).is_ok());
    assert_eq!(registers.read("ga").unwrap(), DSB::U16(0b11));
    assert!(instructions::not(&ProgramArg::register("ga"), &mut registers).is_ok());
    assert_eq!(registers.read("ga").unwrap(), DSB::U16(0xfffc));
    assert!(instructions::shl(&ProgramArg::register("ga"), &ProgramArg::immediate(20), &mut registers).is_ok());
    assert_eq!(registers.read("ga").unwrap(), DSB::U16(0));
    assert_eq!(registers.read("fz").unwrap(), DSB::Flag(true));
}

#[test]
fn register_lookup_is_case_insensitive_with_sections() {
    let registers = set_up();
    assert!(registers.get("GAA").is_some());
    assert_eq!(registers.get("gab").unwrap().name, "ga".to_string());
    assert_eq!(registers.get("PC").unwrap().name, "pc".to_string());
    assert!(registers.get("xyz").is_none());
    assert!(registers.get("").is_none());
}

#[test]
fn register_write_to_unknown_name_fails() {
    let mut registers = set_up();
    let err = registers.write("zz", DSB::U16(1)).unwrap_err();
    assert!(matches!(err.type_, RizeErrorType::RegisterWrite(_)));
}

#[test]
fn memory_round_trip_and_bounds() {
    let mut memory = SystemMemory::new(16);
    assert_eq!(memory.capacity(), 16);
    assert_eq!(memory.read(3).unwrap(), DSB::U16(0));
    memory.write(15, DSB::U16(77)).unwrap();
    assert_eq!(memory.read(15).unwrap(), DSB::U16(77));
    let w = memory.write(16, DSB::U16(1)).unwrap_err();
    assert!(matches!(w.type_, RizeErrorType::MemoryWrite(_)));
    let r = memory.read(16).unwrap_err();
    assert!(matches!(r.type_, RizeErrorType::MemoryRead(_)));
}

#[test]
fn byte_round_trip() {
    let mut b = Byte::default();
    let prev = b.write(DSB::U8(9));
    assert_eq!(prev, DSB::U16(0));
    assert_eq!(b.read(), DSB::U8(9));
}

#[test]
fn display_bounds() {
    let mut d = DisplayMemory::init();
    assert_eq!(d.get_pixel(1, 2).unwrap(), [101, 100, 102, 255]);
    assert!(d.set_pixel(31, 31, [1, 1, 1, 1]).is_ok());
    let e = d.set_pixel(32, 0, [0, 0, 0, 0]).unwrap_err();
    assert!(matches!(e.type_, RizeErrorType::Display(_)));
    assert!(d.get_pixel(0, 32).is_err());
}

#[test]
fn wdm_out_of_bounds_is_a_display_error() {
    let mut m = boot("WDM 1 2 8192\n");
    let err = run(&mut m, 100).unwrap();
    assert!(matches!(err.type_, RizeErrorType::Display(_)));
}

#[test]
fn opcode_keywords() {
    assert_eq!(OpCode::from_str("mov").unwrap(), OpCode::MOV);
    assert_eq!(OpCode::from_str("Halt").unwrap(), OpCode::HALT);
    assert!(OpCode::from_str("foo").is_err());
    assert_eq!(OpCode::JIZ.as_string(), "JIZ".to_string());
}

#[test]
fn classifier_precedence() {
    assert_eq!(ArgType::from_string("0x2A".to_string()), ArgType::MemAddr(42));
    assert_eq!(ArgType::from_string("ga".to_string()), ArgType::Register("ga".to_string()));
    assert_eq!(ArgType::from_string("42".to_string()), ArgType::Immediate(42));
    assert_eq!(ArgType::from_string("+7".to_string()), ArgType::Immediate(7));
    assert_eq!(ArgType::from_string(".loop".to_string()), ArgType::Symbol("loop".to_string()));
    assert_eq!(ArgType::from_string("".to_string()), ArgType::Empty);
    assert_eq!(ArgType::from_string("#x".to_string()), ArgType::Empty);
    assert_eq!(ArgType::from_string("0xZZ".to_string()), ArgType::Error);
    assert_eq!(ArgType::from_string("4a".to_string()), ArgType::Error);
    assert_eq!(ArgType::from_string(".l00p".to_string()), ArgType::Error);
    assert_eq!(ArgType::from_string("99999999999999999999999".to_string()), ArgType::Error);
}

#[test]
fn lines_and_trimming() {
    assert_eq!(
        split_lines("a\r\nb\n\nc"),
        vec!["a".to_string(), "b".to_string(), "".to_string(), "c".to_string()]
    );
    assert_eq!(split_lines("x\n"), vec!["x".to_string()]);
    assert!(split_lines("").is_empty());
    assert_eq!(trim_string("  ADD ga 1\t"), "ADD ga 1".to_string());
}

#[test]
fn first_label_declaration_wins() {
    let p = ActiveProgram::load(".a\nNOP\n  .a  \n.toolonglabelnamexx\n".to_string());
    assert_eq!(p.symbol_line(&"a".to_string()), Some(1));
    assert_eq!(p.symbol_line(&"toolonglabelnamexx".to_string()), None);
    assert_eq!(p.symbol_line(&"b".to_string()), None);
}

#[test]
fn decode_of_blank_line_fails() {
    let registers = set_up();
    let memory = SystemMemory::new(4);
    let mut p = ActiveProgram::load("NOP\n".to_string());
    p.line = "   # nothing".to_string();
    let e = p.decode(&registers, &memory).unwrap_err();
    assert!(matches!(e.type_, RizeErrorType::Decode(_)));
}

#[test]
fn word_arithmetic_wraps_with_carry() {
    let (s, c) = DSB::U8(200).overflowing_add(&DSB::U8(100));
    assert_eq!(s, DSB::U8(44));
    assert!(c);
    let (d, b) = DSB::U8(5).overflowing_sub(&DSB::U8(10));
    assert_eq!(d, DSB::U8(251));
    assert!(b);
    let (d, b) = DSB::U16(10).overflowing_sub(&DSB::U16(3));
    assert_eq!(d, DSB::U16(7));
    assert!(!b);
    assert_eq!(DSB::U16(300).wrapping_mul(&DSB::U16(300)), DSB::U16(24464));
    assert_eq!(DSB::U8(7).checked_div(&DSB::U8(2)), Some(DSB::U8(3)));
    assert_eq!(DSB::U8(7).checked_div(&DSB::U8(0)), None);
    assert_eq!(DSB::U128(u128::MAX).overflowing_add(&DSB::U128(2)), (DSB::U128(1), true));
    assert_eq!(DSB::from_cpu_bittage(70000), DSB::U16(4464));
    assert_eq!(DSB::U32(0x1234).get_size(), 32);
    assert_eq!(DSB::Flag(true).not(), DSB::Flag(false));
}

#[test]
fn bits_of_a_word_and_back() {
    let b = Bits::from_dsb(DSB::U8(0b1010_0011));
    assert_eq!(b.vec, vec![1, 0, 1, 0, 0, 0, 1, 1]);
    assert_eq!(b.as_decimal(), 0b1010_0011);
    let f = Bits::from_dsb(DSB::Flag(true));
    assert_eq!(f.vec, vec![1]);
    let w = Bits::from_dsb(DSB::U16(0x8001));
    assert_eq!(w.vec.len(), 16);
    assert_eq!(w.as_decimal(), 0x8001);
}

#[test]
fn values_render_as_text() {
    assert_eq!(DSB::U16(0).as_string(), "0".to_string());
    assert_eq!(DSB::U16(4096).as_string(), "4096".to_string());
    assert_eq!(DSB::U128(u128::MAX).as_string(), u128::MAX.to_string());
    assert_eq!(DSB::Flag(true).as_string(), "true".to_string());
    assert_eq!(DSB::U8(255).as_hex(), "0xff".to_string());
    assert_eq!(DSB::U32(0x1a2b).as_hex(), "0x1a2b".to_string());
    assert_eq!(DSB::Flag(false).as_hex(), "0x0".to_string());
}

#[test]
fn conversions_into_words() {
    assert_eq!(DSB::from(7u8), DSB::U8(7));
    assert_eq!(DSB::from(7u32), DSB::U32(7));
    assert_eq!(DSB::from(70000usize), DSB::U16(4464));
    let w: DSB = 9u64.into();
    assert_eq!(w, DSB::U64(9));
}

#[test]
fn operands_render_as_text() {
    assert_eq!(ArgType::Immediate(42).as_string(), "42".to_string());
    assert_eq!(ArgType::MemAddr(255).as_string(), "255".to_string());
    assert_eq!(ArgType::Register("ga".to_string()).as_string(), "ga".to_string());
    assert_eq!(ArgType::Empty.as_string(), "".to_string());
    assert_eq!(ArgType::Error.as_string(), "Error".to_string());
}

#[test]
fn non_ascii_letters_and_spaces() {
    assert_eq!(ArgType::from_string("é".to_string()), ArgType::Register("é".to_string()));
    assert_eq!(ArgType::from_string(".café".to_string()), ArgType::Symbol("café".to_string()));
    let mut m = boot("\u{A0}\n");
    let err = run(&mut m, 10).unwrap();
    assert!(matches!(err.type_, RizeErrorType::Fetch(_)));
    let mut m = boot("MOV\u{A0}ga\u{3000}5\n");
    assert!(run(&mut m, 10).is_some());
    assert_eq!(reg(&m, "ga"), DSB::U16(5));
}

#[test]
fn empty_register_name_never_resolves() {
    let mut registers = set_up();
    registers.insert(rize_one::registers::Register::normal(""));
    assert!(registers.get("").is_none());
    assert!(registers.read("").is_none());
    assert!(registers.write("", DSB::U16(1)).is_err());
}

#[test]
fn failed_decode_records_keyword_opcode() {
    let registers = set_up();
    let memory = SystemMemory::new(4);
    let mut p = ActiveProgram::load("NOP\n".to_string());
    p.line = "ADD zz".to_string();
    let e = p.decode(&registers, &memory).unwrap_err();
    assert!(matches!(e.type_, RizeErrorType::RegisterRead(_)));
    assert_eq!(p.opcode, OpCode::ADD);
}

#[test]
fn nop_is_not_implemented() {
    let mut m = boot("NOP\n");
    let err = run(&mut m, 10).unwrap();
    assert!(matches!(err.type_, RizeErrorType::Execute(_)));
    assert_eq!(m.stage, CpuCycleStage::Halt);
}

#[test]
fn execute_uses_decoded_values() {
    let mut registers = set_up();
    let mut memory = SystemMemory::new(16);
    let src = ProgramArg { value: Some(DSB::U16(7)), arg_type: ArgType::Immediate(3) };
    assert!(instructions::mov(&ProgramArg::register("ga"), &src, &mut registers, &mut memory).is_ok());
    assert_eq!(registers.read("ga").unwrap(), DSB::U16(7));
    assert!(instructions::add(&ProgramArg::register("ga"), &src, &mut registers).is_ok());
    assert_eq!(registers.read("ga").unwrap(), DSB::U16(14));

    let mut d = DisplayMemory::init();
    let rg = ProgramArg { value: Some(DSB::U16(0x0102)), arg_type: ArgType::Immediate(0) };
    let ba = ProgramArg { value: Some(DSB::U16(0x0304)), arg_type: ArgType::Immediate(0) };
    let xy = ProgramArg { value: Some(DSB::U16(0x0102)), arg_type: ArgType::Immediate(0x2020) };
    assert!(instructions::wdm(&rg, &ba, &xy, &registers, &memory, &mut d).is_ok());
    assert_eq!(d.get_pixel(1, 2).unwrap(), [1, 2, 3, 4]);
}

#[test]
fn bitwise_sources_may_be_memory_values() {
    let mut registers = set_up();
    registers.write("ga", DSB::U16(0b1010)).unwrap();
    let src = ProgramArg { value: Some(DSB::U16(0b0101)), arg_type: ArgType::MemAddr(3) };
    assert!(instructions::or(&ProgramArg::register("ga"), &src, &mut registers).is_ok());
    assert_eq!(registers.read("ga").unwrap(), DSB::U16(0b1111));
    assert!(instructions::and(&ProgramArg::register("ga"), &src, &mut registers).is_err());
}

#[test]
fn mov_error_kinds() {
    let mut registers = set_up();
    let mut memory = SystemMemory::new(16);
    let five = ProgramArg::immediate(5);
    let e = instructions::mov(&ProgramArg::register("zz"), &five, &mut registers, &mut memory).unwrap_err();
    assert!(matches!(e.type_, RizeErrorType::RegisterRead(_)));
    let e = instructions::mov(&ProgramArg::memaddr(16), &five, &mut registers, &mut memory).unwrap_err();
    assert!(matches!(e.type_, RizeErrorType::MemoryWrite(_)));
    let e = instructions::mov(&ProgramArg::symbol("x"), &five, &mut registers, &mut memory).unwrap_err();
    assert!(matches!(e.type_, RizeErrorType::Execute(_)));
}

#[test]
fn setup_starts_everything_at_zero() {
    let registers = set_up();
    for name in ["ga", "gb", "gc", "gd", "mar", "mdr", "pc"] {
        assert_eq!(registers.read(name).unwrap(), DSB::U16(0));
    }
    for name in ["fz", "fn", "fc", "fo"] {
        assert_eq!(registers.read(name).unwrap(), DSB::Flag(false));
    }
}
