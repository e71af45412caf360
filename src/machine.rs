use vstd::prelude::*;
use crate::display::DisplayMemory;
use crate::error::RizeError;
use crate::instructions::{alu, execute_outcome, jin, jiz, jmp, ld, mov, st, wdm, AluOp};
use crate::memory::SystemMemory;
use crate::opcode::OpCode;
use crate::operand::{classify, operand_value, OperandView};
use crate::program::{decode_effect, decoded_opcode, instruction_parts, next_instruction, part, ActiveProgram};
use crate::text::trim;
use crate::registers::{
    carry_flag_key, has_core_registers, mar_key, mdr_key, negative_flag_key, overflow_flag_key,
    pc_key, pc_name, zero_flag_key, Register, Registers, N_GENERAL_PURPOSE_REGISTERS,
};
use crate::word::DSB;

verus! {

/// Instructions run per tick in auto-step mode, unless configured otherwise.
pub const AUTOSTEP_LINES_PER_FRAME: usize = 10;

/// The stage of the instruction cycle the machine is in.
#[derive(Debug, Clone, Copy, PartialEq, Eq, Structural)]
pub enum CpuCycleStage {
    Startup,
    Fetch,
    Decode,
    Execute,
    AutoStep,
    Halt,
}

/// How a stage ended.
#[derive(Debug, Clone, Copy, PartialEq, Eq, Structural)]
pub enum StageOutcome {
    /// The stage succeeded.
    Done,
    /// The stage succeeded and asked the machine to halt.
    HaltRequested,
    /// The stage failed.
    Failed,
}

/// The stage that follows `stage` when it ends with `outcome`: a failure
/// or a halt request always leads to `Halt`, and `Halt` is final.
pub open spec fn transition(stage: CpuCycleStage, outcome: StageOutcome) -> CpuCycleStage {
    match outcome {
        StageOutcome::Failed => CpuCycleStage::Halt,
        StageOutcome::HaltRequested => CpuCycleStage::Halt,
        StageOutcome::Done => match stage {
            CpuCycleStage::Startup => CpuCycleStage::Fetch,
            CpuCycleStage::Fetch => CpuCycleStage::Decode,
            CpuCycleStage::Decode => CpuCycleStage::Execute,
            CpuCycleStage::Execute => CpuCycleStage::Fetch,
            CpuCycleStage::AutoStep => CpuCycleStage::AutoStep,
            CpuCycleStage::Halt => CpuCycleStage::Halt,
        },
    }
}

/// See `transition`.
pub fn next_stage(stage: CpuCycleStage, outcome: StageOutcome) -> (r: CpuCycleStage)
    ensures
        r == transition(stage, outcome),
{
    match outcome {
        StageOutcome::Failed => CpuCycleStage::Halt,
        StageOutcome::HaltRequested => CpuCycleStage::Halt,
        StageOutcome::Done => match stage {
            CpuCycleStage::Startup => CpuCycleStage::Fetch,
            CpuCycleStage::Fetch => CpuCycleStage::Decode,
            CpuCycleStage::Decode => CpuCycleStage::Execute,
            CpuCycleStage::Execute => CpuCycleStage::Fetch,
            CpuCycleStage::AutoStep => CpuCycleStage::AutoStep,
            CpuCycleStage::Halt => CpuCycleStage::Halt,
        },
    }
}

/// How a program is run.
#[derive(Debug, Clone, Copy)]
pub struct ProgramSettings {
    pub autostep: bool,
    /// Instructions per tick in auto-step mode.
    pub autostep_lines: usize,
}

impl Default for ProgramSettings {
    fn default() -> (r: ProgramSettings)
        ensures
            !r.autostep,
            r.autostep_lines == 20,
    {
        ProgramSettings { autostep: false, autostep_lines: 20 }
    }
}

/// Names of the general-purpose registers, in order.
pub open spec fn gp_register_key(i: int) -> Seq<char> {
    seq!['g', ((('a' as u8) + i) as u8) as char]
}

/// The register file the interpreter sets up: every core register and
/// the general-purpose registers, each word holding zero and each flag clear.
pub open spec fn is_set_up(m: Map<Seq<char>, DSB>) -> bool {
    &&& has_core_registers(m)
    &&& m[pc_key()] == DSB::U16(0)
    &&& m[mar_key()] == DSB::U16(0)
    &&& m[mdr_key()] == DSB::U16(0)
    &&& m[zero_flag_key()] == DSB::Flag(false)
    &&& m[negative_flag_key()] == DSB::Flag(false)
    &&& m[carry_flag_key()] == DSB::Flag(false)
    &&& m[overflow_flag_key()] == DSB::Flag(false)
    &&& forall|i: int|
        0 <= i < N_GENERAL_PURPOSE_REGISTERS ==> #[trigger] m.contains_key(gp_register_key(i))
            && m[gp_register_key(i)] == DSB::U16(0)
}

/// What a fetch did: on success (`ok`) the fetched line is the next
/// instruction line from the program counter, trimmed, and the program
/// counter names the line after it; at the end of the program nothing
/// changed.
pub open spec fn fetch_effect(
    lines: Seq<Seq<char>>,
    regs: Map<Seq<char>, DSB>,
    ok: bool,
    line: Seq<char>,
    regs2: Map<Seq<char>, DSB>,
) -> bool {
    let pc = regs[pc_key()];
    match next_instruction(lines, pc.value() as int) {
        Some(k) => ok && line == trim(lines[k]) && regs2 == regs.insert(pc_key(), pc.with_value(k + 1)),
        None => !ok && regs2 == regs,
    }
}

/// The machine's state as the instructions see it: register values,
/// memory, pixels, program lines, the fetched line and the decoded
/// instruction.
pub struct MachineView {
    pub regs: Map<Seq<char>, DSB>,
    pub mem: Seq<DSB>,
    pub disp: Seq<[u8; 4]>,
    pub lines: Seq<Seq<char>>,
    pub line: Seq<char>,
    pub opcode: OpCode,
    pub arg1: OperandView,
    pub arg2: OperandView,
    pub arg3: OperandView,
}

/// The state after a fetch, and whether it succeeded (see `fetch_effect`).
pub open spec fn fetch_view(v: MachineView) -> (MachineView, bool) {
    let pc = v.regs[pc_key()];
    match next_instruction(v.lines, pc.value() as int) {
        Some(k) => (
            MachineView {
                line: trim(v.lines[k]),
                regs: v.regs.insert(pc_key(), pc.with_value(k + 1)),
                ..v
            },
            true,
        ),
        None => (v, false),
    }
}

/// The state after a decode, and whether it succeeded (see
/// `decode_effect`).
pub open spec fn decode_view(v: MachineView) -> (MachineView, bool) {
    let parts = instruction_parts(v.line);
    let a1 = classify(part(parts, 1));
    let a2 = classify(part(parts, 2));
    let a3 = classify(part(parts, 3));
    let v1 = operand_value(v.regs, v.mem, a1);
    let v2 = operand_value(v.regs, v.mem, a2);
    let v3 = operand_value(v.regs, v.mem, a3);
    if parts.len() == 0 {
        (v, false)
    } else if v1 is Some && v2 is Some && v3 is Some {
        (
            MachineView {
                opcode: decoded_opcode(parts[0]),
                arg1: OperandView { class: a1, value: v1.unwrap() },
                arg2: OperandView { class: a2, value: v2.unwrap() },
                arg3: OperandView { class: a3, value: v3.unwrap() },
                ..v
            },
            true,
        )
    } else {
        (MachineView { opcode: decoded_opcode(parts[0]), ..v }, false)
    }
}

/// The state after one fetch-decode-execute cycle, and how it ended.
pub open spec fn cycle_view(v: MachineView) -> (MachineView, StageOutcome) {
    let (f, fetched) = fetch_view(v);
    if !fetched {
        (f, StageOutcome::Failed)
    } else {
        let (d, decoded) = decode_view(f);
        if !decoded {
            (d, StageOutcome::Failed)
        } else {
            match execute_outcome(d.opcode, d.arg1, d.arg2, d.arg3, d.lines, d.regs, d.mem, d.disp) {
                Some((m, s, p, h)) => (
                    MachineView { regs: m, mem: s, disp: p, ..d },
                    if h {
                        StageOutcome::HaltRequested
                    } else {
                        StageOutcome::Done
                    },
                ),
                None => (d, StageOutcome::Failed),
            }
        }
    }
}

/// The state after up to `n` cycles, stopping at the first that halts or
/// fails, and how the last one ended (`Done` when all `n` ran on).
pub open spec fn auto_view(v: MachineView, n: nat) -> (MachineView, StageOutcome)
    decreases n,
{
    if n == 0 {
        (v, StageOutcome::Done)
    } else {
        let (w, o) = cycle_view(v);
        if o == StageOutcome::Done {
            auto_view(w, (n - 1) as nat)
        } else {
            (w, o)
        }
    }
}

/// How a cycle that returned `r` ended.
pub open spec fn outcome_of_cycle(r: Result<bool, RizeError>) -> StageOutcome {
    match r {
        Ok(true) => StageOutcome::HaltRequested,
        Ok(false) => StageOutcome::Done,
        Err(_) => StageOutcome::Failed,
    }
}

/// The interpreter for the machine's assembly language.
#[derive(Debug)]
pub struct AzmInterpreter {}

impl AzmInterpreter {
    /// Adds the program counter, the memory-address and memory-data
    /// registers, the four status flags and the general-purpose registers
    /// `ga`, `gb`, ..., all holding zero.
    pub fn setup_registers(&self, registers: &mut Registers)
        requires
            old(registers).wf(),
        ensures
            final(registers).wf(),
            is_set_up(final(registers).view()),
    {
        proof {
            reveal_strlit("pc");
            reveal_strlit("mar");
            reveal_strlit("mdr");
            reveal_strlit("fz");
            reveal_strlit("fc");
            reveal_strlit("fo");
            reveal_strlit("fn");
            reveal_strlit("ga");
            reveal_strlit("gb");
            reveal_strlit("gc");
            reveal_strlit("gd");
        }
        registers.insert(Register::normal("mar"));
        registers.insert(Register::normal("mdr"));
        registers.insert(Register::flag("fz"));
        registers.insert(Register::flag("fc"));
        registers.insert(Register::flag("fo"));
        registers.insert(Register::flag("fn"));
        registers.insert(Register::normal("ga"));
        registers.insert(Register::normal("gb"));
        registers.insert(Register::normal("gc"));
        registers.insert(Register::normal("gd"));
        registers.insert(Register::normal("pc"));
        proof {
            let m = registers.view();
            assert("pc"@ =~= pc_key());
            assert(m.contains_key(gp_register_key(0)) && m.contains_key(gp_register_key(1))
                && m.contains_key(gp_register_key(2)) && m.contains_key(gp_register_key(3))
                && m[gp_register_key(0)] == DSB::U16(0) && m[gp_register_key(1)] == DSB::U16(0)
                && m[gp_register_key(2)] == DSB::U16(0) && m[gp_register_key(3)] == DSB::U16(0)) by {
                assert("ga"@ =~= gp_register_key(0));
                assert("gb"@ =~= gp_register_key(1));
                assert("gc"@ =~= gp_register_key(2));
                assert("gd"@ =~= gp_register_key(3));
            }
            assert("mar"@ =~= seq!['m', 'a', 'r']);
            assert("mdr"@ =~= seq!['m', 'd', 'r']);
            assert("fz"@ =~= seq!['f', 'z']);
            assert("fn"@ =~= seq!['f', 'n']);
            assert("fc"@ =~= seq!['f', 'c']);
            assert("fo"@ =~= seq!['f', 'o']);
        }
    }

    /// The file extension of programs for this interpreter.
    pub fn file_type(&self) -> (r: String)
        ensures
            r@ == "azm"@,
    {
        String::from_str("azm")
    }

    /// Fetch stage (see `ActiveProgram::fetch`).
    pub fn fetch(&self, registers: &mut Registers, program: &mut ActiveProgram) -> (r: Result<
        (),
        RizeError,
    >)
        requires
            old(program).wf(),
            old(registers).wf(),
            old(registers).view().contains_key(pc_key()),
        ensures
            final(program).wf(),
            final(registers).wf(),
            final(program).source_lines() == old(program).source_lines(),
            final(program).opcode == old(program).opcode,
            final(program).arg1 == old(program).arg1,
            final(program).arg2 == old(program).arg2,
            final(program).arg3 == old(program).arg3,
            fetch_effect(
                old(program).source_lines(),
                old(registers).view(),
                r is Ok,
                final(program).line@,
                final(registers).view(),
            ),
            r is Err ==> r->Err_0.type_ is Fetch && final(program).line == old(program).line,
    {
        program.fetch(registers)
    }

    /// Decode stage (see `ActiveProgram::decode`).
    pub fn decode(&self, program: &mut ActiveProgram, registers: &Registers, memory: &SystemMemory) -> (r:
        Result<(), RizeError>)
        requires
            old(program).wf(),
            registers.wf(),
        ensures
            final(program).wf(),
            final(program).source_lines() == old(program).source_lines(),
            final(program).line == old(program).line,
            decode_effect(*old(program), registers.view(), memory@, r, *final(program)),
    {
        program.decode(registers, memory)
    }

    /// Execute stage: carries out the decoded instruction; `Ok(true)` asks
    /// the machine to halt. On failure nothing changes.
    pub fn execute(
        &self,
        program: &ActiveProgram,
        registers: &mut Registers,
        memory: &mut SystemMemory,
        display_memory: &mut DisplayMemory,
    ) -> (r: Result<bool, RizeError>)
        requires
            program.wf(),
            old(registers).wf(),
            has_core_registers(old(registers).view()),
            old(display_memory).wf(),
        ensures
            final(registers).wf(),
            has_core_registers(final(registers).view()),
            final(display_memory).wf(),
            match execute_outcome(
                program.opcode,
                program.arg1@,
                program.arg2@,
                program.arg3@,
                program.source_lines(),
                old(registers).view(),
                old(memory)@,
                old(display_memory)@,
            ) {
                Some((m, s, d, h)) => r == Ok::<bool, RizeError>(h) && final(registers).view() == m
                    && final(memory)@ == s && final(display_memory)@ == d,
                None => r is Err && final(registers).view() == old(registers).view() && final(memory)@ == old(memory)@ && final(display_memory)@ == old(display_memory)@,
            },
    {
        let a1 = &program.arg1;
        let a2 = &program.arg2;
        let a3 = &program.arg3;
        let r = match program.opcode {
            OpCode::MOV => mov(a1, a2, registers, memory),
            OpCode::ADD => alu(AluOp::Add, a1, a2, a3, registers),
            OpCode::SUB => alu(AluOp::Sub, a1, a2, a3, registers),
            OpCode::MUL => alu(AluOp::Mul, a1, a2, a3, registers),
            OpCode::DIV => alu(AluOp::Div, a1, a2, a3, registers),
            OpCode::AND => alu(AluOp::And, a1, a2, a3, registers),
            OpCode::OR => alu(AluOp::Or, a1, a2, a3, registers),
            OpCode::XOR => alu(AluOp::Xor, a1, a2, a3, registers),
            OpCode::NOT => alu(AluOp::Not, a1, a2, a2, registers),
            OpCode::SHL => alu(AluOp::Shl, a1, a2, a3, registers),
            OpCode::SHR => alu(AluOp::Shr, a1, a2, a3, registers),
            OpCode::ST => st(registers, memory),
            OpCode::LD => ld(registers, memory),
            OpCode::WDM => wdm(a1, a2, a3, registers, memory, display_memory),
            OpCode::JMP => jmp(a1, registers, program),
            OpCode::JIZ => jiz(a1, registers, program),
            OpCode::JIN => jin(a1, registers, program),
            OpCode::HALT => {
                return Ok(true);
            },
            _ => Err(RizeError::execute("instruction not implemented")),
        };
        match r {
            Ok(()) => Ok(false),
            Err(e) => Err(e),
        }
    }
}

/// The whole machine: register file, memory, pixel store, loaded program
/// and cycle stage.
#[derive(Debug)]
pub struct RizeOne {
    pub registers: Registers,
    pub memory: SystemMemory,
    pub display: DisplayMemory,
    pub program: ActiveProgram,
    pub stage: CpuCycleStage,
    pub settings: ProgramSettings,
    pub interpreter: AzmInterpreter,
}

impl RizeOne {
    pub open spec fn wf(&self) -> bool {
        &&& self.registers.wf()
        &&& self.program.wf()
        &&& self.display.wf()
        &&& self.stage != CpuCycleStage::Startup ==> has_core_registers(self.registers.view())
    }

    /// A machine in `Startup` with `program_text` loaded, an empty register
    /// file and `memory_size` zeroed memory cells.
    pub fn new(program_text: String, memory_size: usize) -> (r: RizeOne)
        ensures
            r.wf(),
            r.stage == CpuCycleStage::Startup,
            r.program.text() == program_text@,
            r.memory@.len() == memory_size,
    {
        RizeOne {
            registers: Registers::new(),
            memory: SystemMemory::new(memory_size),
            display: DisplayMemory::init(),
            program: ActiveProgram::load(program_text),
            stage: CpuCycleStage::Startup,
            settings: ProgramSettings::default(),
            interpreter: AzmInterpreter {},
        }
    }

    /// Switches to auto-step mode with `lines` cycles per step; a machine
    /// in `Startup` or `Halt` keeps its stage.
    pub fn start_auto_step(&mut self, lines: usize)
        requires
            old(self).wf(),
        ensures
            final(self).wf(),
            final(self).view() == old(self).view(),
            final(self).settings.autostep,
            final(self).settings.autostep_lines == lines,
            final(self).stage == (if old(self).stage == CpuCycleStage::Startup || old(self).stage
                == CpuCycleStage::Halt {
                old(self).stage
            } else {
                CpuCycleStage::AutoStep
            }),
    {
        self.settings.autostep = true;
        self.settings.autostep_lines = lines;
        if self.stage != CpuCycleStage::Startup && self.stage != CpuCycleStage::Halt {
            self.stage = CpuCycleStage::AutoStep;
        }
    }

    /// Replaces the program and rewinds the program counter to its start.
    pub fn load_program(&mut self, program_text: String)
        requires
            old(self).wf(),
        ensures
            final(self).wf(),
            final(self).program.text() == program_text@,
            final(self).stage == old(self).stage,
            final(self).memory@ == old(self).memory@,
            old(self).registers.view().contains_key(pc_key()) ==> final(self).registers.view()
                == old(self).registers.view().insert(pc_key(), DSB::U16(0)),
    {
        self.program = ActiveProgram::load(program_text);
        let _ = self.registers.write_key(&pc_name(), DSB::zero());
    }

    /// Advances the machine by one stage (by up to `autostep_lines`
    /// instructions in auto-step mode). Any failure moves the machine to
    /// `Halt` and is returned; the failing stage changes no register and
    /// no memory cell. `Halt` is final.
    pub fn step(&mut self) -> (r: Result<(), RizeError>)
        requires
            old(self).wf(),
        ensures
            final(self).wf(),
            old(self).stage == CpuCycleStage::Halt ==> r is Ok && final(self).stage
                == CpuCycleStage::Halt && final(self).registers.view() == old(self).registers.view() && final(self).memory@ == old(self).memory@ && final(self).display@
                == old(self).display@,
            r is Err ==> final(self).stage == CpuCycleStage::Halt,
            r is Err && old(self).stage != CpuCycleStage::AutoStep ==> final(self).registers.view() == old(self).registers.view() && final(self).memory@ == old(self).memory@ && final(self).display@ == old(self).display@,
            old(self).stage == CpuCycleStage::Startup ==> final(self).stage
                == CpuCycleStage::Fetch && is_set_up(final(self).registers.view()),
            old(self).stage == CpuCycleStage::Fetch ==> final(self).stage == transition(
                CpuCycleStage::Fetch,
                if r is Ok { StageOutcome::Done } else { StageOutcome::Failed },
            ) && fetch_effect(
                old(self).program.source_lines(),
                old(self).registers.view(),
                r is Ok,
                final(self).program.line@,
                final(self).registers.view(),
            ),
            old(self).stage == CpuCycleStage::Decode ==> final(self).stage == transition(
                CpuCycleStage::Decode,
                if r is Ok { StageOutcome::Done } else { StageOutcome::Failed },
            ) && decode_effect(
                old(self).program,
                old(self).registers.view(),
                old(self).memory@,
                r,
                final(self).program,
            ) && final(self).registers.view() == old(self).registers.view() && final(self).memory@
                == old(self).memory@,
            old(self).stage == CpuCycleStage::Execute ==> match execute_outcome(
                old(self).program.opcode,
                old(self).program.arg1@,
                old(self).program.arg2@,
                old(self).program.arg3@,
                old(self).program.source_lines(),
                old(self).registers.view(),
                old(self).memory@,
                old(self).display@,
            ) {
                Some((m, s, d, h)) => r is Ok && final(self).registers.view() == m && final(self).memory@ == s && final(self).display@ == d && final(self).stage == (if h {
                    CpuCycleStage::Halt
                } else {
                    CpuCycleStage::Fetch
                }),
                None => r is Err,
            },
            old(self).stage == CpuCycleStage::AutoStep ==> ({
                let (w, o) = auto_view(old(self).view(), old(self).settings.autostep_lines as nat);
                &&& final(self).view() == w
                &&& final(self).stage == transition(CpuCycleStage::AutoStep, o)
                &&& r is Err <==> o == StageOutcome::Failed
            }),
    {
        match self.stage {
            CpuCycleStage::Startup => {
                self.interpreter.setup_registers(&mut self.registers);
                self.stage = next_stage(CpuCycleStage::Startup, StageOutcome::Done);
                Ok(())
            },
            CpuCycleStage::Fetch => {
                let r = self.interpreter.fetch(&mut self.registers, &mut self.program);
                self.stage = next_stage(CpuCycleStage::Fetch, outcome_of(&r));
                r
            },
            CpuCycleStage::Decode => {
                let r = self.interpreter.decode(&mut self.program, &self.registers, &self.memory);
                self.stage = next_stage(CpuCycleStage::Decode, outcome_of(&r));
                r
            },
            CpuCycleStage::Execute => {
                let r = self.interpreter.execute(
                    &self.program,
                    &mut self.registers,
                    &mut self.memory,
                    &mut self.display,
                );
                let outcome = match &r {
                    Ok(true) => StageOutcome::HaltRequested,
                    Ok(false) => StageOutcome::Done,
                    Err(_) => StageOutcome::Failed,
                };
                self.stage = next_stage(CpuCycleStage::Execute, outcome);
                match r {
                    Ok(_) => Ok(()),
                    Err(e) => Err(e),
                }
            },
            CpuCycleStage::AutoStep => self.auto_step(),
            CpuCycleStage::Halt => Ok(()),
        }
    }

    /// The machine's state as the instructions see it.
    pub open spec fn view(&self) -> MachineView {
        MachineView {
            regs: self.registers.view(),
            mem: self.memory@,
            disp: self.display@,
            lines: self.program.source_lines(),
            line: self.program.line@,
            opcode: self.program.opcode,
            arg1: self.program.arg1@,
            arg2: self.program.arg2@,
            arg3: self.program.arg3@,
        }
    }

    /// One fetch-decode-execute cycle without stopping between stages (see
    /// `cycle_view`); `Ok(true)` when the program asked to halt. A failure
    /// in any stage ends the cycle and is returned.
    fn cycle(&mut self) -> (r: Result<bool, RizeError>)
        requires
            old(self).wf(),
            old(self).stage != CpuCycleStage::Startup,
        ensures
            final(self).wf(),
            final(self).stage == old(self).stage,
            final(self).settings == old(self).settings,
            cycle_view(old(self).view()) == (final(self).view(), outcome_of_cycle(r)),
    {
        let ghost v0 = self.view();
        let f = self.interpreter.fetch(&mut self.registers, &mut self.program);
        assert(fetch_view(v0).0 == self.view());
        if let Err(e) = f {
            return Err(e);
        }
        let ghost v1 = self.view();
        let d = self.interpreter.decode(&mut self.program, &self.registers, &self.memory);
        assert(decode_view(v1).0 == self.view());
        if let Err(e) = d {
            return Err(e);
        }
        self.interpreter.execute(&self.program, &mut self.registers, &mut self.memory, &mut self.display)
    }

    /// Auto-step mode: runs up to `autostep_lines` cycles, stopping early
    /// when the program halts or a stage fails (see `auto_view`); then the
    /// machine is in `Halt`, and a failure is returned.
    pub fn auto_step(&mut self) -> (r: Result<(), RizeError>)
        requires
            old(self).wf(),
            old(self).stage == CpuCycleStage::AutoStep,
        ensures
            final(self).wf(),
            final(self).settings == old(self).settings,
            ({
                let (w, o) = auto_view(old(self).view(), old(self).settings.autostep_lines as nat);
                &&& final(self).view() == w
                &&& final(self).stage == transition(CpuCycleStage::AutoStep, o)
                &&& r is Err <==> o == StageOutcome::Failed
            }),
    {
        let n = self.settings.autostep_lines;
        let ghost v0 = self.view();
        let mut i: usize = 0;
        while i < n
            invariant
                self.wf(),
                self.stage == CpuCycleStage::AutoStep,
                self.settings == old(self).settings,
                n == old(self).settings.autostep_lines,
                v0 == old(self).view(),
                i <= n,
                auto_view(v0, n as nat) == auto_view(self.view(), (n - i) as nat),
            decreases n - i,
        {
            let ghost before = self.view();
            let c = self.cycle();
            assert(auto_view(before, (n - i) as nat) == (if cycle_view(before).1 == StageOutcome::Done {
                auto_view(cycle_view(before).0, (n - i - 1) as nat)
            } else {
                cycle_view(before)
            }));
            match c {
                Ok(true) => {
                    self.stage = CpuCycleStage::Halt;
                    return Ok(());
                },
                Ok(false) => {},
                Err(e) => {
                    self.stage = CpuCycleStage::Halt;
                    return Err(e);
                },
            }
            i = i + 1;
        }
        Ok(())
    }
}

/// How a stage that returned `r` ended.
fn outcome_of(r: &Result<(), RizeError>) -> (o: StageOutcome)
    ensures
        r is Ok <==> o == StageOutcome::Done,
        r is Err <==> o == StageOutcome::Failed,
{
    match r {
        Ok(()) => StageOutcome::Done,
        Err(_) => StageOutcome::Failed,
    }
}

/// A failing stage always leads to `Halt`, and nothing leaves `Halt`.
pub proof fn law_halt_on_failure(stage: CpuCycleStage, outcome: StageOutcome)
    ensures
        transition(stage, StageOutcome::Failed) == CpuCycleStage::Halt,
        transition(CpuCycleStage::Halt, outcome) == CpuCycleStage::Halt,
{
}

} // verus!
