use vstd::prelude::*;
use crate::cell::{Byte, ByteOpResult};
use crate::display::{DisplayMemory, DISPLAY_HEIGHT, DISPLAY_WIDTH, pixel_index};
use crate::error::RizeError;
use crate::memory::SystemMemory;
use crate::opcode::OpCode;
use crate::operand::{get_operand_value, operand_value, ArgType, ArgView, OperandView, ProgramArg};
use crate::program::{label_line, label_of, lemma_label_line_declared, ActiveProgram};
use crate::registers::{
    carry_flag_key, carry_flag_name, has_core_registers, mar_key, mar_name, mdr_key, mdr_name,
    negative_flag_key, negative_flag_name, overflow_flag_key, overflow_flag_name, pc_key,
    pc_name, register_key, zero_flag_key, zero_flag_name, Registers,
};
use crate::word::DSB;

verus! {

/// The arithmetic and bitwise operations.
#[derive(Debug, Clone, Copy, PartialEq, Eq, Structural)]
pub enum AluOp {
    Add,
    Sub,
    Mul,
    Div,
    And,
    Or,
    Xor,
    Not,
    Shl,
    Shr,
}

/// Result, carry and signed overflow of `op` on `a` and `b` (`b` unused by
/// `Not`); `None` for a division by zero.
pub open spec fn alu_value(op: AluOp, a: DSB, b: DSB) -> Option<(DSB, bool, bool)> {
    match op {
        AluOp::Add => Some(
            (a.sum(b), a.value() + b.value() >= a.modulus(), a.add_overflows(b)),
        ),
        AluOp::Sub => Some((a.difference(b), a.value() < b.value(), a.sub_overflows(b))),
        AluOp::Mul => Some((a.product(b), false, false)),
        AluOp::Div => if b.value() == 0 {
            None
        } else {
            Some((a.quotient(b), false, false))
        },
        AluOp::And => Some((a.conjunction(b), false, false)),
        AluOp::Or => Some((a.disjunction(b), false, false)),
        AluOp::Xor => Some((a.exclusion(b), false, false)),
        AluOp::Not => Some((a.complement(), false, false)),
        AluOp::Shl => Some((a.shifted_left(b), false, false)),
        AluOp::Shr => Some((a.shifted_right(b), false, false)),
    }
}

/// The value an operand without a decoded value stands for: an
/// immediate's word or a register's content.
pub open spec fn source_value(regs: Map<Seq<char>, DSB>, a: ArgView) -> Option<DSB> {
    match a {
        ArgView::Immediate(i) => Some(DSB::U16(0).with_value(i as int)),
        ArgView::Register(n) => if regs.contains_key(register_key(n)) {
            Some(regs[register_key(n)])
        } else {
            None
        },
        _ => None,
    }
}

/// The value an operand gives an instruction: the value it was decoded to;
/// an operand built without one stands for its register's content or its
/// immediate's word.
pub open spec fn given_value(regs: Map<Seq<char>, DSB>, a: OperandView) -> Option<DSB> {
    match a.value {
        Some(v) => Some(v),
        None => source_value(regs, a.class),
    }
}

/// Like `given_value`, and an undecoded memory address stands for the
/// value stored there.
pub open spec fn resolved_value(regs: Map<Seq<char>, DSB>, mem: Seq<DSB>, a: OperandView) -> Option<DSB> {
    match a.value {
        Some(v) => Some(v),
        None => match operand_value(regs, mem, a.class) {
            Some(Some(v)) => Some(v),
            _ => None,
        },
    }
}

/// The classes of source operand each operation takes: addition,
/// subtraction, multiplication, division and AND take a register or an
/// immediate; the others take any operand with a value.
pub open spec fn source_class_ok(op: AluOp, a: ArgView) -> bool {
    match op {
        AluOp::Or | AluOp::Xor | AluOp::Shl | AluOp::Shr | AluOp::Not => true,
        _ => a is Register || a is Immediate,
    }
}

/// The source value of `op`: the target's own value for `Not`, else the
/// source operand's value when its class suits the operation.
pub open spec fn alu_source(op: AluOp, a: DSB, a2: OperandView, regs: Map<Seq<char>, DSB>) -> Option<DSB> {
    if op == AluOp::Not {
        Some(a)
    } else if source_class_ok(op, a2.class) {
        given_value(regs, a2)
    } else {
        None
    }
}

/// The status flags after a result: zero, negative (top bit), carry and
/// signed overflow.
pub open spec fn with_flags(regs: Map<Seq<char>, DSB>, result: DSB, carry: bool, overflow: bool) -> Map<
    Seq<char>,
    DSB,
> {
    regs.insert(zero_flag_key(), DSB::Flag(result.value() == 0)).insert(
        negative_flag_key(),
        DSB::Flag(result.is_negative()),
    ).insert(carry_flag_key(), DSB::Flag(carry)).insert(overflow_flag_key(), DSB::Flag(overflow))
}

/// The register file after `op` with operands `a1` (target), `a2`
/// (source) and `dst`: the target register's value combined with the
/// source goes to `dst` when it is a register, else back to the target,
/// and the flags follow the result. `None` when the instruction fails.
pub open spec fn alu_outcome(
    op: AluOp,
    a1: ArgView,
    a2: OperandView,
    dst: ArgView,
    regs: Map<Seq<char>, DSB>,
) -> Option<Map<Seq<char>, DSB>> {
    match a1 {
        ArgView::Register(n1) => {
            let k1 = register_key(n1);
            if !regs.contains_key(k1) {
                None
            } else {
                let a = regs[k1];
                let b = alu_source(op, a, a2, regs);
                let dest = match dst {
                    ArgView::Register(n3) => register_key(n3),
                    _ => k1,
                };
                if b is None || !regs.contains_key(dest) {
                    None
                } else {
                    match alu_value(op, a, b.unwrap()) {
                        Some((res, c, o)) => Some(with_flags(regs.insert(dest, res), res, c, o)),
                        None => None,
                    }
                }
            }
        },
        _ => None,
    }
}

/// The kind of error an arithmetic or bitwise instruction fails with: a
/// target that is not a register, a source of the wrong class, and a
/// division by zero are execute errors.
pub open spec fn alu_error_kind(
    op: AluOp,
    a1: ArgView,
    a2: OperandView,
    dst: ArgView,
    regs: Map<Seq<char>, DSB>,
    e: RizeError,
) -> bool {
    &&& !(a1 is Register) ==> e.type_ is Execute
    &&& (a1 is Register && op != AluOp::Not && !source_class_ok(op, a2.class)) ==> e.type_ is Execute
    &&& (match a1 {
        ArgView::Register(n1) => {
            let k1 = register_key(n1);
            let dest = match dst {
                ArgView::Register(n3) => register_key(n3),
                _ => k1,
            };
            (op == AluOp::Div && regs.contains_key(k1) && regs.contains_key(dest) && alu_source(
                op,
                regs[k1],
                a2,
                regs,
            ) is Some && alu_source(op, regs[k1], a2, regs).unwrap().value() == 0) ==> e.type_ is Execute
        },
        _ => true,
    })
}

/// Registers and memory after `MOV a1, a2`: the source's value goes to the
/// destination register or memory address. `None` when it fails.
pub open spec fn mov_outcome(a1: ArgView, a2: OperandView, regs: Map<Seq<char>, DSB>, mem: Seq<DSB>) -> Option<
    (Map<Seq<char>, DSB>, Seq<DSB>),
> {
    match resolved_value(regs, mem, a2) {
        Some(v) => match a1 {
            ArgView::Register(n) => if regs.contains_key(register_key(n)) {
                Some((regs.insert(register_key(n), v), mem))
            } else {
                None
            },
            ArgView::MemAddr(addr) => if addr < mem.len() {
                Some((regs, mem.update(addr as int, v)))
            } else {
                None
            },
            _ => None,
        },
        None => None,
    }
}

/// The red and green (or blue and alpha, or x and y) channels packed in a
/// word: its high and low byte, read at 16 bits.
pub open spec fn channels(v: DSB) -> (u8, u8) {
    ((((v.value() % 0x1_0000) / 0x100) as u8), ((v.value() % 0x100) as u8))
}

/// The pixel store after `WDM a1, a2, a3`: the three operands resolve to
/// words packing red and green, blue and alpha, and x and y; the pixel at
/// (x, y) takes that colour. `None` when an operand does not resolve or the
/// pixel lies outside the display.
pub open spec fn wdm_outcome(
    a1: OperandView,
    a2: OperandView,
    a3: OperandView,
    regs: Map<Seq<char>, DSB>,
    mem: Seq<DSB>,
    disp: Seq<[u8; 4]>,
) -> Option<Seq<[u8; 4]>> {
    match (resolved_value(regs, mem, a1), resolved_value(regs, mem, a2), resolved_value(regs, mem, a3)) {
        (Some(rg), Some(ba), Some(xy)) => {
            let (x, y) = channels(xy);
            if x < DISPLAY_WIDTH && y < DISPLAY_HEIGHT {
                Some(
                    disp.update(
                        pixel_index(x as int, y as int),
                        [channels(rg).0, channels(rg).1, channels(ba).0, channels(ba).1],
                    ),
                )
            } else {
                None
            }
        },
        _ => None,
    }
}

/// The program counter after a jump to label `name`, or `None` when the
/// label is not declared.
pub open spec fn jump_target(lines: Seq<Seq<char>>, name: Seq<char>) -> Option<DSB> {
    match label_line(lines, name) {
        Some(l) => Some(DSB::U16(0).with_value(l as int)),
        None => None,
    }
}

/// The register file after a jump to `a1` taken when `taken`; `None` when
/// it fails (not a symbol, or an undeclared label where the jump is taken).
pub open spec fn jump_outcome(
    a1: ArgView,
    taken: bool,
    lines: Seq<Seq<char>>,
    regs: Map<Seq<char>, DSB>,
) -> Option<Map<Seq<char>, DSB>> {
    match a1 {
        ArgView::Symbol(name) => if !taken {
            Some(regs)
        } else {
            match jump_target(lines, name) {
                Some(t) => Some(regs.insert(pc_key(), t)),
                None => None,
            }
        },
        _ => None,
    }
}

/// Whether a one-bit register holds a set value.
pub open spec fn is_set(v: DSB) -> bool {
    v.value() == 1
}

/// Registers, memory, display and the halt request after executing the
/// decoded instruction; `None` when it fails.
pub open spec fn execute_outcome(
    op: OpCode,
    a1: OperandView,
    a2: OperandView,
    a3: OperandView,
    lines: Seq<Seq<char>>,
    regs: Map<Seq<char>, DSB>,
    mem: Seq<DSB>,
    disp: Seq<[u8; 4]>,
) -> Option<(Map<Seq<char>, DSB>, Seq<DSB>, Seq<[u8; 4]>, bool)> {
    let alu = |o: AluOp, dst: ArgView|
        match alu_outcome(o, a1.class, a2, dst, regs) {
            Some(m) => Some((m, mem, disp, false)),
            None => None,
        };
    match op {
        OpCode::MOV => match mov_outcome(a1.class, a2, regs, mem) {
            Some((m, s)) => Some((m, s, disp, false)),
            None => None,
        },
        OpCode::ADD => alu(AluOp::Add, a3.class),
        OpCode::SUB => alu(AluOp::Sub, a3.class),
        OpCode::MUL => alu(AluOp::Mul, a3.class),
        OpCode::DIV => alu(AluOp::Div, a3.class),
        OpCode::AND => alu(AluOp::And, a3.class),
        OpCode::OR => alu(AluOp::Or, a3.class),
        OpCode::XOR => alu(AluOp::Xor, a3.class),
        OpCode::NOT => alu(AluOp::Not, a2.class),
        OpCode::SHL => alu(AluOp::Shl, a3.class),
        OpCode::SHR => alu(AluOp::Shr, a3.class),
        OpCode::ST => {
            let addr = regs[mar_key()].value();
            if addr < mem.len() {
                Some((regs, mem.update(addr as int, regs[mdr_key()]), disp, false))
            } else {
                None
            }
        },
        OpCode::LD => {
            let addr = regs[mar_key()].value();
            if addr < mem.len() {
                Some((regs.insert(mdr_key(), mem[addr as int]), mem, disp, false))
            } else {
                None
            }
        },
        OpCode::WDM => match wdm_outcome(a1, a2, a3, regs, mem, disp) {
            Some(d) => Some((regs, mem, d, false)),
            None => None,
        },
        OpCode::JMP => match jump_outcome(a1.class, true, lines, regs) {
            Some(m) => Some((m, mem, disp, false)),
            None => None,
        },
        OpCode::JIZ => match jump_outcome(a1.class, is_set(regs[zero_flag_key()]), lines, regs) {
            Some(m) => Some((m, mem, disp, false)),
            None => None,
        },
        OpCode::JIN => match jump_outcome(a1.class, is_set(regs[negative_flag_key()]), lines, regs) {
            Some(m) => Some((m, mem, disp, false)),
            None => None,
        },
        OpCode::HALT => Some((regs, mem, disp, true)),
        _ => None,
    }
}

/// Writes the four status flags for `res`.
fn set_flags(registers: &mut Registers, res: &ByteOpResult)
    requires
        old(registers).wf(),
        has_core_registers(old(registers).view()),
    ensures
        final(registers).wf(),
        final(registers).view() == with_flags(
            old(registers).view(),
            res.result,
            res.carry,
            res.overflow,
        ),
{
    let _ = registers.write_key(&zero_flag_name(), DSB::Flag(res.result.to_u128() == 0));
    let _ = registers.write_key(&negative_flag_name(), DSB::Flag(res.result.negative()));
    let _ = registers.write_key(&carry_flag_name(), DSB::Flag(res.carry));
    let _ = registers.write_key(&overflow_flag_name(), DSB::Flag(res.overflow));
}

/// The value an operand gives an arithmetic or bitwise instruction (see
/// `given_value`).
fn source(registers: &Registers, arg: &ProgramArg) -> (r: Result<DSB, RizeError>)
    requires
        registers.wf(),
    ensures
        match given_value(registers.view(), arg@) {
            Some(v) => r == Ok::<DSB, RizeError>(v),
            None => r is Err,
        },
{
    match arg.value {
        Some(v) => Ok(v),
        None => match &arg.arg_type {
            ArgType::Immediate(i) => Ok(DSB::from_cpu_bittage(*i)),
            ArgType::Register(name) => match registers.read(name.as_str()) {
                Some(v) => Ok(v),
                None => Err(RizeError::register_read("no register of that name")),
            },
            _ => Err(RizeError::execute("the operand has no value")),
        },
    }
}

/// The value an operand gives `MOV` and `WDM` (see `resolved_value`).
fn operand_word(registers: &Registers, memory: &SystemMemory, arg: &ProgramArg) -> (r: Result<
    DSB,
    RizeError,
>)
    requires
        registers.wf(),
    ensures
        match resolved_value(registers.view(), memory@, arg@) {
            Some(v) => r == Ok::<DSB, RizeError>(v),
            None => r is Err,
        },
{
    match arg.value {
        Some(v) => Ok(v),
        None => match get_operand_value(registers, memory, &arg.arg_type)? {
            Some(v) => Ok(v),
            None => Err(RizeError::execute("the operand has no value")),
        },
    }
}

/// Whether `op` takes a source operand of class `arg` (see
/// `source_class_ok`).
fn takes_source(op: AluOp, arg: &ArgType) -> (r: bool)
    ensures
        r == source_class_ok(op, arg@),
{
    match op {
        AluOp::Or | AluOp::Xor | AluOp::Shl | AluOp::Shr | AluOp::Not => true,
        _ => match arg {
            ArgType::Register(_) | ArgType::Immediate(_) => true,
            _ => false,
        },
    }
}

/// Executes an arithmetic or bitwise instruction (see `alu_outcome`). On
/// failure no register changes.
pub fn alu(op: AluOp, arg1: &ProgramArg, arg2: &ProgramArg, dst: &ProgramArg, registers: &mut Registers) -> (r:
    Result<(), RizeError>)
    requires
        old(registers).wf(),
        has_core_registers(old(registers).view()),
    ensures
        final(registers).wf(),
        has_core_registers(final(registers).view()),
        match alu_outcome(op, arg1.arg_type@, arg2@, dst.arg_type@, old(registers).view()) {
            Some(m) => r is Ok && final(registers).view() == m,
            None => r is Err && final(registers).view() == old(registers).view(),
        },
        r is Err ==> alu_error_kind(op, arg1.arg_type@, arg2@, dst.arg_type@, old(registers).view(), r->Err_0),
{
    let n1 = match &arg1.arg_type {
        ArgType::Register(n) => n,
        _ => {
            return Err(RizeError::execute("the first operand must be a register"));
        },
    };
    if op != AluOp::Not && !takes_source(op, &arg2.arg_type) {
        return Err(RizeError::execute("the source must be a register or an immediate"));
    }
    let a = match registers.read(n1.as_str()) {
        Some(v) => v,
        None => {
            return Err(RizeError::register_read("no register of that name"));
        },
    };
    let b = if op == AluOp::Not {
        a
    } else {
        source(registers, arg2)?
    };
    let dest: &String = match &dst.arg_type {
        ArgType::Register(n3) => n3,
        _ => n1,
    };
    if registers.read(dest.as_str()).is_none() {
        return Err(RizeError::register_write("no register of that name"));
    }
    let mut cell = Byte::new(a);
    let res = match op {
        AluOp::Add => cell.add(b),
        AluOp::Sub => cell.sub(b),
        AluOp::Mul => cell.mul(b),
        AluOp::Div => cell.div(b)?,
        AluOp::And => cell.bitand(b),
        AluOp::Or => cell.bitor(b),
        AluOp::Xor => cell.bitxor(b),
        AluOp::Not => cell.bitnot(),
        AluOp::Shl => cell.bitshl(b),
        AluOp::Shr => cell.bitshr(b),
    };
    let _ = registers.write(dest.as_str(), res.result);
    set_flags(registers, &res);
    Ok(())
}

/// `ADD target, src`: adds a register or immediate to the target register.
pub fn add(arg1: &ProgramArg, arg2: &ProgramArg, registers: &mut Registers) -> (r: Result<(), RizeError>)
    requires
        old(registers).wf(),
        has_core_registers(old(registers).view()),
    ensures
        final(registers).wf(),
        match alu_outcome(AluOp::Add, arg1.arg_type@, arg2@, ArgView::Empty, old(registers).view()) {
            Some(m) => r is Ok && final(registers).view() == m,
            None => r is Err && final(registers).view() == old(registers).view(),
        },
        r is Err ==> alu_error_kind(AluOp::Add, arg1.arg_type@, arg2@, ArgView::Empty, old(registers).view(), r->Err_0),
{
    alu(AluOp::Add, arg1, arg2, &ProgramArg::none(), registers)
}

/// `SUB target, src`: subtracts a register or immediate from the target register.
pub fn sub(arg1: &ProgramArg, arg2: &ProgramArg, registers: &mut Registers) -> (r: Result<(), RizeError>)
    requires
        old(registers).wf(),
        has_core_registers(old(registers).view()),
    ensures
        final(registers).wf(),
        match alu_outcome(AluOp::Sub, arg1.arg_type@, arg2@, ArgView::Empty, old(registers).view()) {
            Some(m) => r is Ok && final(registers).view() == m,
            None => r is Err && final(registers).view() == old(registers).view(),
        },
        r is Err ==> alu_error_kind(AluOp::Sub, arg1.arg_type@, arg2@, ArgView::Empty, old(registers).view(), r->Err_0),
{
    alu(AluOp::Sub, arg1, arg2, &ProgramArg::none(), registers)
}

/// `MUL target, src`: multiplies the target register by a register or immediate.
pub fn mul(arg1: &ProgramArg, arg2: &ProgramArg, registers: &mut Registers) -> (r: Result<(), RizeError>)
    requires
        old(registers).wf(),
        has_core_registers(old(registers).view()),
    ensures
        final(registers).wf(),
        match alu_outcome(AluOp::Mul, arg1.arg_type@, arg2@, ArgView::Empty, old(registers).view()) {
            Some(m) => r is Ok && final(registers).view() == m,
            None => r is Err && final(registers).view() == old(registers).view(),
        },
        r is Err ==> alu_error_kind(AluOp::Mul, arg1.arg_type@, arg2@, ArgView::Empty, old(registers).view(), r->Err_0),
{
    alu(AluOp::Mul, arg1, arg2, &ProgramArg::none(), registers)
}

/// `DIV target, src`: divides the target register by a register or
/// immediate; dividing by zero is an error.
pub fn div(arg1: &ProgramArg, arg2: &ProgramArg, registers: &mut Registers) -> (r: Result<(), RizeError>)
    requires
        old(registers).wf(),
        has_core_registers(old(registers).view()),
    ensures
        final(registers).wf(),
        match alu_outcome(AluOp::Div, arg1.arg_type@, arg2@, ArgView::Empty, old(registers).view()) {
            Some(m) => r is Ok && final(registers).view() == m,
            None => r is Err && final(registers).view() == old(registers).view(),
        },
        r is Err ==> alu_error_kind(AluOp::Div, arg1.arg_type@, arg2@, ArgView::Empty, old(registers).view(), r->Err_0),
{
    alu(AluOp::Div, arg1, arg2, &ProgramArg::none(), registers)
}

/// `AND target, src`.
pub fn and(arg1: &ProgramArg, arg2: &ProgramArg, registers: &mut Registers) -> (r: Result<(), RizeError>)
    requires
        old(registers).wf(),
        has_core_registers(old(registers).view()),
    ensures
        final(registers).wf(),
        match alu_outcome(AluOp::And, arg1.arg_type@, arg2@, ArgView::Empty, old(registers).view()) {
            Some(m) => r is Ok && final(registers).view() == m,
            None => r is Err && final(registers).view() == old(registers).view(),
        },
        r is Err ==> alu_error_kind(AluOp::And, arg1.arg_type@, arg2@, ArgView::Empty, old(registers).view(), r->Err_0),
{
    alu(AluOp::And, arg1, arg2, &ProgramArg::none(), registers)
}

/// `OR target, src`.
pub fn or(arg1: &ProgramArg, arg2: &ProgramArg, registers: &mut Registers) -> (r: Result<(), RizeError>)
    requires
        old(registers).wf(),
        has_core_registers(old(registers).view()),
    ensures
        final(registers).wf(),
        match alu_outcome(AluOp::Or, arg1.arg_type@, arg2@, ArgView::Empty, old(registers).view()) {
            Some(m) => r is Ok && final(registers).view() == m,
            None => r is Err && final(registers).view() == old(registers).view(),
        },
        r is Err ==> alu_error_kind(AluOp::Or, arg1.arg_type@, arg2@, ArgView::Empty, old(registers).view(), r->Err_0),
{
    alu(AluOp::Or, arg1, arg2, &ProgramArg::none(), registers)
}

/// `XOR target, src`.
pub fn xor(arg1: &ProgramArg, arg2: &ProgramArg, registers: &mut Registers) -> (r: Result<(), RizeError>)
    requires
        old(registers).wf(),
        has_core_registers(old(registers).view()),
    ensures
        final(registers).wf(),
        match alu_outcome(AluOp::Xor, arg1.arg_type@, arg2@, ArgView::Empty, old(registers).view()) {
            Some(m) => r is Ok && final(registers).view() == m,
            None => r is Err && final(registers).view() == old(registers).view(),
        },
        r is Err ==> alu_error_kind(AluOp::Xor, arg1.arg_type@, arg2@, ArgView::Empty, old(registers).view(), r->Err_0),
{
    alu(AluOp::Xor, arg1, arg2, &ProgramArg::none(), registers)
}

/// `NOT target`: flips every bit of the target register.
pub fn not(arg1: &ProgramArg, registers: &mut Registers) -> (r: Result<(), RizeError>)
    requires
        old(registers).wf(),
        has_core_registers(old(registers).view()),
    ensures
        final(registers).wf(),
        match alu_outcome(AluOp::Not, arg1.arg_type@, OperandView { class: ArgView::Empty, value: None }, ArgView::Empty, old(registers).view()) {
            Some(m) => r is Ok && final(registers).view() == m,
            None => r is Err && final(registers).view() == old(registers).view(),
        },
{
    alu(AluOp::Not, arg1, &ProgramArg::none(), &ProgramArg::none(), registers)
}

/// `SHL target, amount`.
pub fn shl(arg1: &ProgramArg, arg2: &ProgramArg, registers: &mut Registers) -> (r: Result<(), RizeError>)
    requires
        old(registers).wf(),
        has_core_registers(old(registers).view()),
    ensures
        final(registers).wf(),
        match alu_outcome(AluOp::Shl, arg1.arg_type@, arg2@, ArgView::Empty, old(registers).view()) {
            Some(m) => r is Ok && final(registers).view() == m,
            None => r is Err && final(registers).view() == old(registers).view(),
        },
        r is Err ==> alu_error_kind(AluOp::Shl, arg1.arg_type@, arg2@, ArgView::Empty, old(registers).view(), r->Err_0),
{
    alu(AluOp::Shl, arg1, arg2, &ProgramArg::none(), registers)
}

/// `SHR target, amount`.
pub fn shr(arg1: &ProgramArg, arg2: &ProgramArg, registers: &mut Registers) -> (r: Result<(), RizeError>)
    requires
        old(registers).wf(),
        has_core_registers(old(registers).view()),
    ensures
        final(registers).wf(),
        match alu_outcome(AluOp::Shr, arg1.arg_type@, arg2@, ArgView::Empty, old(registers).view()) {
            Some(m) => r is Ok && final(registers).view() == m,
            None => r is Err && final(registers).view() == old(registers).view(),
        },
        r is Err ==> alu_error_kind(AluOp::Shr, arg1.arg_type@, arg2@, ArgView::Empty, old(registers).view(), r->Err_0),
{
    alu(AluOp::Shr, arg1, arg2, &ProgramArg::none(), registers)
}

/// `MOV dst, src` (see `mov_outcome`). On failure nothing changes.
pub fn mov(arg1: &ProgramArg, arg2: &ProgramArg, registers: &mut Registers, memory: &mut SystemMemory) -> (r:
    Result<(), RizeError>)
    requires
        old(registers).wf(),
    ensures
        final(registers).wf(),
        match mov_outcome(arg1.arg_type@, arg2@, old(registers).view(), old(memory)@) {
            Some((m, s)) => r is Ok && final(registers).view() == m && final(memory)@ == s,
            None => r is Err && final(registers).view() == old(registers).view() && final(memory)@
                == old(memory)@,
        },
        r is Err && resolved_value(old(registers).view(), old(memory)@, arg2@) is Some ==> {
            &&& arg1.arg_type is Register ==> r->Err_0.type_ is RegisterRead
            &&& arg1.arg_type is MemAddr ==> r->Err_0.type_ is MemoryWrite
            &&& !(arg1.arg_type is Register || arg1.arg_type is MemAddr) ==> r->Err_0.type_ is Execute
        },
{
    let v = operand_word(registers, memory, arg2)?;
    match &arg1.arg_type {
        ArgType::Register(name) => {
            if registers.read(name.as_str()).is_none() {
                return Err(RizeError::register_read("no register of that name"));
            }
            registers.write(name.as_str(), v)
        },
        ArgType::MemAddr(addr) => memory.write(*addr, v),
        _ => Err(RizeError::execute("MOV destination must be a register or a memory address")),
    }
}

/// `ST`: stores the memory-data register at the address in the
/// memory-address register.
pub fn st(registers: &mut Registers, memory: &mut SystemMemory) -> (r: Result<(), RizeError>)
    requires
        old(registers).wf(),
        has_core_registers(old(registers).view()),
    ensures
        final(registers).wf(),
        final(registers).view() == old(registers).view(),
        ({
            let addr = old(registers).view()[mar_key()].value();
            &&& addr < old(memory)@.len() <==> r is Ok
            &&& r is Ok ==> final(memory)@ == old(memory)@.update(
                addr as int,
                old(registers).view()[mdr_key()],
            )
            &&& r is Err ==> r->Err_0.type_ is MemoryWrite && final(memory)@ == old(memory)@
        }),
{
    let addr = match registers.read_key(&mar_name()) {
        Some(v) => v.to_u128(),
        None => 0,
    };
    let data = match registers.read_key(&mdr_name()) {
        Some(v) => v,
        None => DSB::zero(),
    };
    if addr >= memory.capacity() as u128 {
        return Err(RizeError::memory_write("address out of range"));
    }
    memory.write(addr as usize, data)
}

/// `LD`: loads the value at the address in the memory-address register
/// into the memory-data register.
pub fn ld(registers: &mut Registers, memory: &SystemMemory) -> (r: Result<(), RizeError>)
    requires
        old(registers).wf(),
        has_core_registers(old(registers).view()),
    ensures
        final(registers).wf(),
        ({
            let addr = old(registers).view()[mar_key()].value();
            &&& addr < memory@.len() <==> r is Ok
            &&& r is Ok ==> final(registers).view() == old(registers).view().insert(
                mdr_key(),
                memory@[addr as int],
            )
            &&& r is Err ==> r->Err_0.type_ is MemoryRead && final(registers).view() == old(registers).view()
        }),
{
    let addr = match registers.read_key(&mar_name()) {
        Some(v) => v.to_u128(),
        None => 0,
    };
    if addr >= memory.capacity() as u128 {
        return Err(RizeError::memory_read("address out of range"));
    }
    let v = memory.read(addr as usize)?;
    let _ = registers.write_key(&mdr_name(), v);
    Ok(())
}

/// High and low byte of a word read at 16 bits (see `channels`).
#[verifier::rlimit(40)]
fn split_word(v: DSB) -> (r: (u8, u8))
    ensures
        r == channels(v),
{
    let w = v.to_u128() % 0x1_0000;
    ((w / 0x100) as u8, (w % 0x100) as u8)
}

/// `WDM rg, ba, xy`: paints pixel (x, y) with colour (r, g, b, a), each
/// pair packed high byte first in one operand.
pub fn wdm(
    arg1: &ProgramArg,
    arg2: &ProgramArg,
    arg3: &ProgramArg,
    registers: &Registers,
    memory: &SystemMemory,
    display_memory: &mut DisplayMemory,
) -> (r: Result<(), RizeError>)
    requires
        registers.wf(),
        old(display_memory).wf(),
    ensures
        final(display_memory).wf(),
        match wdm_outcome(arg1@, arg2@, arg3@, registers.view(), memory@, old(display_memory)@) {
            Some(d) => r is Ok && final(display_memory)@ == d,
            None => r is Err && final(display_memory)@ == old(display_memory)@,
        },
{
    let rg = operand_word(registers, memory, arg1)?;
    let ba = operand_word(registers, memory, arg2)?;
    let xy = operand_word(registers, memory, arg3)?;
    let (r, g) = split_word(rg);
    let (b, a) = split_word(ba);
    let (x, y) = split_word(xy);
    display_memory.set_pixel(x, y, [r, g, b, a])
}

/// A jump to the label in `arg1`, taken when `taken` (see `jump_outcome`).
fn jump(arg1: &ProgramArg, taken: bool, registers: &mut Registers, program: &ActiveProgram) -> (r:
    Result<(), RizeError>)
    requires
        old(registers).wf(),
        has_core_registers(old(registers).view()),
        program.wf(),
    ensures
        final(registers).wf(),
        match jump_outcome(arg1.arg_type@, taken, program.source_lines(), old(registers).view()) {
            Some(m) => r is Ok && final(registers).view() == m,
            None => r is Err && r->Err_0.type_ is Execute && final(registers).view() == old(registers).view(),
        },
{
    let name = match &arg1.arg_type {
        ArgType::Symbol(s) => s,
        _ => {
            return Err(RizeError::execute("a jump needs a label"));
        },
    };
    if !taken {
        return Ok(());
    }
    match program.symbol_line(name) {
        Some(line) => {
            let _ = registers.write_key(&pc_name(), DSB::from_cpu_bittage(line));
            Ok(())
        },
        None => Err(RizeError::execute("no such label")),
    }
}

/// `JMP label`: continues at the label's line.
pub fn jmp(arg1: &ProgramArg, registers: &mut Registers, program: &ActiveProgram) -> (r: Result<(), RizeError>)
    requires
        old(registers).wf(),
        has_core_registers(old(registers).view()),
        program.wf(),
    ensures
        final(registers).wf(),
        match jump_outcome(arg1.arg_type@, true, program.source_lines(), old(registers).view()) {
            Some(m) => r is Ok && final(registers).view() == m,
            None => r is Err && r->Err_0.type_ is Execute && final(registers).view() == old(registers).view(),
        },
{
    jump(arg1, true, registers, program)
}

/// `JIZ label`: jumps when the zero flag is set.
pub fn jiz(arg1: &ProgramArg, registers: &mut Registers, program: &ActiveProgram) -> (r: Result<(), RizeError>)
    requires
        old(registers).wf(),
        has_core_registers(old(registers).view()),
        program.wf(),
    ensures
        final(registers).wf(),
        match jump_outcome(
            arg1.arg_type@,
            is_set(old(registers).view()[zero_flag_key()]),
            program.source_lines(),
            old(registers).view(),
        ) {
            Some(m) => r is Ok && final(registers).view() == m,
            None => r is Err && r->Err_0.type_ is Execute && final(registers).view() == old(registers).view(),
        },
{
    let taken = match registers.read_key(&zero_flag_name()) {
        Some(v) => v.to_u128() == 1,
        None => false,
    };
    jump(arg1, taken, registers, program)
}

/// `JIN label`: jumps when the negative flag is set.
pub fn jin(arg1: &ProgramArg, registers: &mut Registers, program: &ActiveProgram) -> (r: Result<(), RizeError>)
    requires
        old(registers).wf(),
        has_core_registers(old(registers).view()),
        program.wf(),
    ensures
        final(registers).wf(),
        match jump_outcome(
            arg1.arg_type@,
            is_set(old(registers).view()[negative_flag_key()]),
            program.source_lines(),
            old(registers).view(),
        ) {
            Some(m) => r is Ok && final(registers).view() == m,
            None => r is Err && r->Err_0.type_ is Execute && final(registers).view() == old(registers).view(),
        },
{
    let taken = match registers.read_key(&negative_flag_name()) {
        Some(v) => v.to_u128() == 1,
        None => false,
    };
    jump(arg1, taken, registers, program)
}

/// Label resolution: in a program that declares label `name`, a `JMP` to
/// it succeeds and sets the program counter to the label's 1-based line
/// number, the number of a line that declares that label; nothing else
/// changes. The next fetch therefore starts right after the label.
pub proof fn law_jump_reaches_label(
    lines: Seq<Seq<char>>,
    name: Seq<char>,
    a2: OperandView,
    a3: OperandView,
    regs: Map<Seq<char>, DSB>,
    mem: Seq<DSB>,
    disp: Seq<[u8; 4]>,
)
    requires
        label_line(lines, name) is Some,
        label_line(lines, name).unwrap() < 0x1_0000,
    ensures
        ({
            let l = label_line(lines, name).unwrap();
            &&& 1 <= l <= lines.len()
            &&& label_of(lines[l - 1]) == Some(name)
            &&& execute_outcome(
                OpCode::JMP,
                OperandView { class: ArgView::Symbol(name), value: None },
                a2,
                a3,
                lines,
                regs,
                mem,
                disp,
            )
                == Some((regs.insert(pc_key(), DSB::U16(l as u16)), mem, disp, false))
            &&& DSB::U16(l as u16).value() == l
        }),
{
    lemma_label_line_declared(lines, name);
    let l = label_line(lines, name).unwrap();
    assert(DSB::U16(0).with_value(l as int) == DSB::U16(l as u16));
}

} // verus!
