use rize_one::cell::Byte;
use rize_one::instructions;
use rize_one::machine::AzmInterpreter;
use rize_one::memory::SystemMemory;
use rize_one::operand::ProgramArg;
use rize_one::registers::Registers;
use rize_one::word::DSB;

fn create_registers() -> Registers {
    let mut registers = Registers::new();
    AzmInterpreter {}.setup_registers(&mut registers);
    registers
}

#[test]
fn test_mov_register() {
    let arg1: &ProgramArg = &ProgramArg::register("GAA");
    let arg2: &ProgramArg = &ProgramArg::immediate(42);

    let mut registers = create_registers();
    let mut memory: SystemMemory = SystemMemory::default();

    let result = instructions::mov(arg1, arg2, &mut registers, &mut memory);
    if let Err(ref e) = result {
        println!("Error: {:?}", e);
    }
    assert!(result.is_ok());
    assert_eq!(registers.get("GAA").unwrap().read(), DSB::from_cpu_bittage(42));
}

#[test]
fn test_mov_memory() {
    let arg1 = &ProgramArg::memaddr(69);
    let arg2 = &ProgramArg::immediate(42);

    let mut memory: SystemMemory = SystemMemory::default();
    let mut registers = create_registers();

    let result = instructions::mov(arg1, arg2, &mut registers, &mut memory);
    if let Err(ref e) = result {
        println!("Error: {:?}", e);
    }
    assert!(result.is_ok());
    assert_eq!(memory.read(69).unwrap(), DSB::from_cpu_bittage(42));
}

#[test]
fn test_add_immediate() {
    let mut registers = create_registers();
    let mut byte = Byte::new(registers.read("gaa").unwrap());
    let _ = byte.add(8usize.into());
    registers.write("gaa", byte.read()).unwrap();

    let arg1 = &ProgramArg::register("gab");
    let arg2 = &ProgramArg::immediate(8);

    assert!(instructions::add(arg1, arg2, &mut registers).is_ok());
    assert_eq!(registers.get("gaa").unwrap().byte.dsb, DSB::from_cpu_bittage(16));
}

#[test]
fn test_add_register() {
    let mut registers = create_registers();
    let mut byte = Byte::new(registers.read("gaa").unwrap());
    let _ = byte.add(8usize.into());
    registers.write("gaa", byte.read()).unwrap();

    let arg1 = &ProgramArg::register("gaa");
    let arg2 = &ProgramArg::register("gba");

    registers.write("gba", DSB::from_cpu_bittage(8)).unwrap();
    registers.write("gaa", DSB::from_cpu_bittage(8)).unwrap();

    assert!(instructions::add(arg1, arg2, &mut registers).is_ok());
    assert_eq!(registers.get("gaa").unwrap().byte.dsb, DSB::from_cpu_bittage(16));
}

#[test]
fn test_add_memaddr() {
    let mut registers = create_registers();
    let mut byte = Byte::new(registers.read("gaa").unwrap());
    let _ = byte.add(8usize.into());
    registers.write("gaa", byte.read()).unwrap();

    let arg1 = &ProgramArg::register("gab");
    let arg2 = &ProgramArg::memaddr(8);

    assert!(instructions::add(arg1, arg2, &mut registers).is_err());
}

#[test]
fn test_sub_immediate() {
    let mut registers = create_registers();

    let arg1 = &ProgramArg::register("gaa");
    let arg2 = &ProgramArg::immediate(3);

    registers.write("gaa", DSB::from_cpu_bittage(10)).unwrap();

    assert!(instructions::sub(arg1, arg2, &mut registers).is_ok());
    assert_eq!(registers.get("gaa").unwrap().byte.dsb, DSB::from_cpu_bittage(7));
}

#[test]
fn test_sub_register() {
    let mut registers = create_registers();

    let arg1 = &ProgramArg::register("gaa");
    let arg2 = &ProgramArg::register("gba");

    registers.write("gaa", DSB::from_cpu_bittage(15)).unwrap();
    registers.write("gba", DSB::from_cpu_bittage(5)).unwrap();

    assert!(instructions::sub(arg1, arg2, &mut registers).is_ok());
    assert_eq!(registers.get("gaa").unwrap().byte.dsb, DSB::from_cpu_bittage(10));
}

#[test]
fn test_sub_memaddr() {
    let mut registers = create_registers();

    let arg1 = &ProgramArg::register("gaa");
    let arg2 = &ProgramArg::memaddr(8);

    assert!(instructions::sub(arg1, arg2, &mut registers).is_err());
}

#[test]
fn test_mul_immediate() {
    let mut registers = create_registers();

    let arg1 = &ProgramArg::register("gaa");
    let arg2 = &ProgramArg::immediate(5);

    registers.write("gaa", DSB::from_cpu_bittage(4)).unwrap();

    assert!(instructions::mul(arg1, arg2, &mut registers).is_ok());
    assert_eq!(registers.get("gaa").unwrap().byte.dsb, DSB::from_cpu_bittage(20));
}

#[test]
fn test_mul_register() {
    let mut registers = create_registers();

    let arg1 = &ProgramArg::register("gaa");
    let arg2 = &ProgramArg::register("gba");

    registers.write("gaa", DSB::from_cpu_bittage(6)).unwrap();
    registers.write("gba", DSB::from_cpu_bittage(7)).unwrap();

    assert!(instructions::mul(arg1, arg2, &mut registers).is_ok());
    assert_eq!(registers.get("gaa").unwrap().byte.dsb, DSB::from_cpu_bittage(42));
}

#[test]
fn test_mul_memaddr() {
    let mut registers = create_registers();

    let arg1 = &ProgramArg::register("gaa");
    let arg2 = &ProgramArg::memaddr(8);

    assert!(instructions::mul(arg1, arg2, &mut registers).is_err());
}

#[test]
fn test_div_immediate() {
    let mut registers = create_registers();

    let arg1 = &ProgramArg::register("gaa");
    let arg2 = &ProgramArg::immediate(2);

    registers.write("gaa", DSB::from_cpu_bittage(10)).unwrap();

    assert!(instructions::div(arg1, arg2, &mut registers).is_ok());
    assert_eq!(registers.get("gaa").unwrap().byte.dsb, DSB::from_cpu_bittage(5));
}

#[test]
fn test_div_register() {
    let mut registers = create_registers();

    let arg1 = &ProgramArg::register("gaa");
    let arg2 = &ProgramArg::register("gba");

    registers.write("gaa", DSB::from_cpu_bittage(20)).unwrap();
    registers.write("gba", DSB::from_cpu_bittage(4)).unwrap();

    assert!(instructions::div(arg1, arg2, &mut registers).is_ok());
    assert_eq!(registers.get("gaa").unwrap().byte.dsb, DSB::from_cpu_bittage(5));
}

#[test]
fn test_div_memaddr() {
    let mut registers = create_registers();

    let arg1 = &ProgramArg::register("gaa");
    let arg2 = &ProgramArg::memaddr(8);

    assert!(instructions::div(arg1, arg2, &mut registers).is_err());
}

#[test]
fn test_div_by_zero() {
    let mut registers = create_registers();

    let arg1 = &ProgramArg::register("gaa");
    let arg2 = &ProgramArg::immediate(0);

    registers.write("gaa", DSB::from_cpu_bittage(10)).unwrap();

    assert!(instructions::div(arg1, arg2, &mut registers).is_err());
}

#[test]
fn test_st() {
    let mut registers = create_registers();
    let mut memory: SystemMemory = SystemMemory::default();

    registers.write("MAR", DSB::from_cpu_bittage(42)).unwrap();
    registers.write("MDR", DSB::from_cpu_bittage(69)).unwrap();

    assert!(instructions::st(&mut registers, &mut memory).is_ok());
    assert_eq!(memory.read(42).unwrap(), DSB::from_cpu_bittage(69));
}

#[test]
fn test_ld() {
    let mut registers = create_registers();
    let mut memory: SystemMemory = SystemMemory::default();

    let dsb = DSB::from_cpu_bittage(420);

    registers.write("MAR", DSB::from_cpu_bittage(42)).unwrap();
    registers.write("MDR", DSB::from_cpu_bittage(123)).unwrap();
    memory.write(42, dsb).unwrap();

    assert!(instructions::ld(&mut registers, &memory).is_ok());
    assert_eq!(registers.get("MDR").unwrap().read(), dsb);
}

#[test]
fn test_and() {
    let mut registers = create_registers();

    let arg1 = &ProgramArg::register("GAA");
    let arg2 = &ProgramArg::register("GBA");

    registers.write("GAA", DSB::from_cpu_bittage(0b11110011usize)).unwrap();
    registers.write("GBA", DSB::from_cpu_bittage(0b11000011usize)).unwrap();

    assert!(instructions::and(arg1, arg2, &mut registers).is_ok());
    let val = registers.get("GAA").unwrap().read();
    println!("Val: {:#b}", &val.as_usize());
    assert_eq!(val, DSB::from_cpu_bittage(0b11000011usize));
}
