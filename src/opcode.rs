use vstd::prelude::*;
use crate::error::RizeError;
use crate::text::chars_of;

verus! {

/// The instruction set. `Invalid` stands for a keyword that names no
/// instruction.
#[derive(Debug, Clone, Copy, PartialEq, Eq, Structural)]
pub enum OpCode {
    Invalid,
    LD,
    ST,
    SWP,
    MOV,
    ADD,
    SUB,
    MUL,
    DIV,
    NOT,
    AND,
    OR,
    XOR,
    SHL,
    SHR,
    HALT,
    NOP,
    JMP,
    JIZ,
    JIN,
    WDM,
}

/// The keyword of each instruction, in upper case.
pub open spec fn opcode_name(op: OpCode) -> Seq<char> {
    match op {
        OpCode::Invalid => ""@,
        OpCode::LD => "LD"@,
        OpCode::ST => "ST"@,
        OpCode::SWP => "SWP"@,
        OpCode::MOV => "MOV"@,
        OpCode::ADD => "ADD"@,
        OpCode::SUB => "SUB"@,
        OpCode::MUL => "MUL"@,
        OpCode::DIV => "DIV"@,
        OpCode::NOT => "NOT"@,
        OpCode::AND => "AND"@,
        OpCode::OR => "OR"@,
        OpCode::XOR => "XOR"@,
        OpCode::SHL => "SHL"@,
        OpCode::SHR => "SHR"@,
        OpCode::HALT => "HALT"@,
        OpCode::NOP => "NOP"@,
        OpCode::JMP => "JMP"@,
        OpCode::JIZ => "JIZ"@,
        OpCode::JIN => "JIN"@,
        OpCode::WDM => "WDM"@,
    }
}

/// The instruction whose keyword `t` is, ignoring case.
pub open spec fn opcode_of(t: Seq<char>) -> Option<OpCode> {
    let u = uppercase_of(t);
    if u == opcode_name(OpCode::LD) {
        Some(OpCode::LD)
    } else if u == opcode_name(OpCode::ST) {
        Some(OpCode::ST)
    } else if u == opcode_name(OpCode::SWP) {
        Some(OpCode::SWP)
    } else if u == opcode_name(OpCode::MOV) {
        Some(OpCode::MOV)
    } else if u == opcode_name(OpCode::ADD) {
        Some(OpCode::ADD)
    } else if u == opcode_name(OpCode::SUB) {
        Some(OpCode::SUB)
    } else if u == opcode_name(OpCode::MUL) {
        Some(OpCode::MUL)
    } else if u == opcode_name(OpCode::DIV) {
        Some(OpCode::DIV)
    } else if u == opcode_name(OpCode::NOT) {
        Some(OpCode::NOT)
    } else if u == opcode_name(OpCode::WDM) {
        Some(OpCode::WDM)
    } else if u == opcode_name(OpCode::AND) {
        Some(OpCode::AND)
    } else if u == opcode_name(OpCode::OR) {
        Some(OpCode::OR)
    } else if u == opcode_name(OpCode::XOR) {
        Some(OpCode::XOR)
    } else if u == opcode_name(OpCode::SHL) {
        Some(OpCode::SHL)
    } else if u == opcode_name(OpCode::SHR) {
        Some(OpCode::SHR)
    } else if u == opcode_name(OpCode::HALT) {
        Some(OpCode::HALT)
    } else if u == opcode_name(OpCode::NOP) {
        Some(OpCode::NOP)
    } else if u == opcode_name(OpCode::JMP) {
        Some(OpCode::JMP)
    } else if u == opcode_name(OpCode::JIZ) {
        Some(OpCode::JIZ)
    } else if u == opcode_name(OpCode::JIN) {
        Some(OpCode::JIN)
    } else {
        None
    }
}

/// Upper case of a text as Unicode defines it.
pub uninterp spec fn uppercase_of(s: Seq<char>) -> Seq<char>;

/// Relies on `str::to_uppercase`, whose result depends on the text alone.
#[verifier::external_body]
fn to_upper(s: &str) -> (r: String)
    ensures
        r@ == uppercase_of(s@),
{
    s.to_uppercase()
}

/// Whether `tok` is exactly `kw`.
fn same_text(tok: &Vec<char>, kw: &str) -> (r: bool)
    ensures
        r == (tok@ == kw@),
{
    let n = kw.unicode_len();
    if tok.len() != n {
        return false;
    }
    let mut i: usize = 0;
    while i < n
        invariant
            n == kw@.len(),
            tok@.len() == n,
            i <= n,
            forall|j: int| 0 <= j < i ==> #[trigger] tok@[j] == kw@[j],
        decreases n - i,
    {
        if tok[i] != kw.get_char(i) {
            return false;
        }
        i = i + 1;
    }
    assert(tok@ =~= kw@);
    true
}

impl OpCode {
    /// The instruction's keyword.
    pub fn name(&self) -> (r: &'static str)
        ensures
            r@ == opcode_name(*self),
    {
        match self {
            OpCode::Invalid => "",
            OpCode::LD => "LD",
            OpCode::ST => "ST",
            OpCode::SWP => "SWP",
            OpCode::MOV => "MOV",
            OpCode::ADD => "ADD",
            OpCode::SUB => "SUB",
            OpCode::MUL => "MUL",
            OpCode::DIV => "DIV",
            OpCode::NOT => "NOT",
            OpCode::AND => "AND",
            OpCode::OR => "OR",
            OpCode::XOR => "XOR",
            OpCode::SHL => "SHL",
            OpCode::SHR => "SHR",
            OpCode::HALT => "HALT",
            OpCode::NOP => "NOP",
            OpCode::JMP => "JMP",
            OpCode::JIZ => "JIZ",
            OpCode::JIN => "JIN",
            OpCode::WDM => "WDM",
        }
    }

    /// The instruction's keyword, as an owned string.
    pub fn as_string(&self) -> (r: String)
        ensures
            r@ == opcode_name(*self),
    {
        String::from_str(self.name())
    }

    /// The instruction that the keyword `s` names, ignoring case; any
    /// other text is a decode error.
    pub fn from_str(s: &str) -> (r: Result<OpCode, RizeError>)
        ensures
            match opcode_of(s@) {
                Some(op) => r == Ok::<OpCode, RizeError>(op),
                None => r is Err && r->Err_0.type_ is Decode,
            },
    {
        let t = chars_of(to_upper(s).as_str());
        let all: [OpCode; 20] = [
            OpCode::LD,
            OpCode::ST,
            OpCode::SWP,
            OpCode::MOV,
            OpCode::ADD,
            OpCode::SUB,
            OpCode::MUL,
            OpCode::DIV,
            OpCode::NOT,
            OpCode::WDM,
            OpCode::AND,
            OpCode::OR,
            OpCode::XOR,
            OpCode::SHL,
            OpCode::SHR,
            OpCode::HALT,
            OpCode::NOP,
            OpCode::JMP,
            OpCode::JIZ,
            OpCode::JIN,
        ];
        let mut i: usize = 0;
        while i < 20
            invariant
                i <= 20,
                all@ == seq![
                    OpCode::LD,
                    OpCode::ST,
                    OpCode::SWP,
                    OpCode::MOV,
                    OpCode::ADD,
                    OpCode::SUB,
                    OpCode::MUL,
                    OpCode::DIV,
                    OpCode::NOT,
                    OpCode::WDM,
                    OpCode::AND,
                    OpCode::OR,
                    OpCode::XOR,
                    OpCode::SHL,
                    OpCode::SHR,
                    OpCode::HALT,
                    OpCode::NOP,
                    OpCode::JMP,
                    OpCode::JIZ,
                    OpCode::JIN,
                ],
                forall|j: int| 0 <= j < i ==> t@ != opcode_name(#[trigger] all@[j]),
                t@ == uppercase_of(s@),
            decreases 20 - i,
        {
            let op = all[i];
            if same_text(&t, op.name()) {
                return Ok(op);
            }
            i = i + 1;
        }
        Err(RizeError::decode("unknown instruction keyword"))
    }
}

} // verus!
