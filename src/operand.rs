use vstd::prelude::*;
use crate::error::RizeError;
use crate::memory::SystemMemory;
use crate::registers::{register_key, Registers};
use crate::render::{decimal_string, decimal_text};
use crate::text::{
    all_alpha, all_alpha_in, chars_of, parse_unsigned, parse_usize,
};
use crate::word::DSB;

verus! {

/// The class of one operand token, with what it names or writes.
#[derive(Debug, Clone, PartialEq, Eq)]
pub enum ArgType {
    Empty,
    Error,
    Register(String),
    MemAddr(usize),
    Immediate(usize),
    Symbol(String),
}

/// `ArgType` with its text as characters and its numbers as naturals.
pub enum ArgView {
    Empty,
    Error,
    Register(Seq<char>),
    MemAddr(nat),
    Immediate(nat),
    Symbol(Seq<char>),
}

impl View for ArgType {
    type V = ArgView;

    open spec fn view(&self) -> ArgView {
        match self {
            ArgType::Empty => ArgView::Empty,
            ArgType::Error => ArgView::Error,
            ArgType::Register(s) => ArgView::Register(s@),
            ArgType::MemAddr(a) => ArgView::MemAddr(*a as nat),
            ArgType::Immediate(i) => ArgView::Immediate(*i as nat),
            ArgType::Symbol(s) => ArgView::Symbol(s@),
        }
    }
}

/// How one operand token is classified; the first rule that applies wins:
/// empty or a comment: none; only letters: a register; `0x` and a
/// hexadecimal number: a memory address; a decimal number: an immediate;
/// `.` and one or more letters: a symbol; anything else: malformed.
pub open spec fn classify(s: Seq<char>) -> ArgView {
    if s.len() == 0 || s[0] == '#' {
        ArgView::Empty
    } else if all_alpha(s) {
        ArgView::Register(s)
    } else if s.len() >= 2 && s[0] == '0' && s[1] == 'x' {
        match parse_unsigned(s.skip(2), 16) {
            Some(n) => ArgView::MemAddr(n),
            None => ArgView::Error,
        }
    } else if parse_unsigned(s, 10) is Some {
        ArgView::Immediate(parse_unsigned(s, 10).unwrap())
    } else if s[0] == '.' {
        if s.len() > 1 && all_alpha(s.drop_first()) {
            ArgView::Symbol(s.drop_first())
        } else {
            ArgView::Error
        }
    } else {
        ArgView::Error
    }
}

/// Which class a token falls in, as a number, so classes can be compared.
pub open spec fn class_tag(a: ArgView) -> nat {
    match a {
        ArgView::Empty => 0,
        ArgView::Error => 1,
        ArgView::Register(_) => 2,
        ArgView::MemAddr(_) => 3,
        ArgView::Immediate(_) => 4,
        ArgView::Symbol(_) => 5,
    }
}

/// The rules of `classify` are exclusive and applied in order: a token of
/// letters is always a register; a token that starts with `0x` and is not
/// all letters is a memory address or malformed, never an immediate; a
/// number that parses is never a symbol; a symbol starts with `.`.
pub proof fn law_classifier_precedence(s: Seq<char>)
    ensures
        class_tag(classify(s)) <= 5,
        s.len() > 0 && s[0] != '#' && all_alpha(s) ==> classify(s) == ArgView::Register(s),
        s.len() >= 2 && s[0] == '0' && s[1] == 'x' && !all_alpha(s) ==> (classify(s) is MemAddr
            || classify(s) is Error),
        s.len() > 0 && s[0] != '#' && !all_alpha(s) && !(s.len() >= 2 && s[0] == '0' && s[1]
            == 'x') && parse_unsigned(s, 10) is Some ==> classify(s) == ArgView::Immediate(
            parse_unsigned(s, 10).unwrap(),
        ),
        classify(s) is Symbol ==> s[0] == '.',
{
}

impl ArgType {
    /// Classifies one operand token (see `classify`).
    pub fn from_string(arg: String) -> (r: ArgType)
        ensures
            r@ == classify(arg@),
    {
        let cs = chars_of(arg.as_str());
        let n = cs.len();
        if n == 0 || cs[0] == '#' {
            return ArgType::Empty;
        }
        if all_alpha_in(&cs, 0, n) {
            assert(cs@.subrange(0, n as int) =~= cs@);
            return ArgType::Register(arg);
        }
        assert(cs@.subrange(0, n as int) =~= cs@);
        if n >= 2 && cs[0] == '0' && cs[1] == 'x' {
            let parsed = parse_usize(&cs, 2, n, 16);
            assert(cs@.subrange(2, n as int) =~= cs@.skip(2));
            return match parsed {
                Some(a) => ArgType::MemAddr(a),
                None => ArgType::Error,
            };
        }
        match parse_usize(&cs, 0, n, 10) {
            Some(i) => {
                return ArgType::Immediate(i);
            },
            None => {},
        }
        if cs[0] == '.' {
            if n > 1 && all_alpha_in(&cs, 1, n) {
                assert(cs@.subrange(1, n as int) =~= cs@.drop_first());
                let name = String::from_str(arg.as_str().substring_char(1, n));
                return ArgType::Symbol(name);
            }
            assert(cs@.subrange(1, n as int) =~= cs@.drop_first());
            return ArgType::Error;
        }
        ArgType::Error
    }
}

impl ArgType {
    /// The operand as text: a name, a number in decimal, `Error`, or
    /// nothing for an absent operand.
    pub fn as_string(&self) -> (r: String)
        ensures
            match self@ {
                ArgView::Empty => r@ == Seq::<char>::empty(),
                ArgView::Error => r@ == "Error"@,
                ArgView::Register(n) => r@ == n,
                ArgView::Symbol(n) => r@ == n,
                ArgView::MemAddr(a) => r@ == decimal_text(a),
                ArgView::Immediate(i) => r@ == decimal_text(i),
            },
    {
        match self {
            ArgType::Empty => String::new(),
            ArgType::Error => String::from_str("Error"),
            ArgType::Register(n) => n.clone(),
            ArgType::Symbol(n) => n.clone(),
            ArgType::MemAddr(a) => decimal_string(*a as u128),
            ArgType::Immediate(i) => decimal_string(*i as u128),
        }
    }
}

/// One operand of the decoded instruction: its class, and the value it
/// resolved to when it was decoded (for registers, immediates and memory
/// addresses).
#[derive(Debug, Clone)]
pub struct ProgramArg {
    pub value: Option<DSB>,
    pub arg_type: ArgType,
}

/// An operand as the instructions see it: its class and the value it was
/// decoded to, if any.
pub struct OperandView {
    pub class: ArgView,
    pub value: Option<DSB>,
}

impl View for ProgramArg {
    type V = OperandView;

    open spec fn view(&self) -> OperandView {
        OperandView { class: self.arg_type@, value: self.value }
    }
}

impl ProgramArg {
    /// An absent operand.
    pub fn none() -> (r: ProgramArg)
        ensures
            r.arg_type@ == ArgView::Empty,
            r.value is None,
    {
        ProgramArg { value: None, arg_type: ArgType::Empty }
    }

    /// A register operand, not yet resolved.
    pub fn register(name: &str) -> (r: ProgramArg)
        ensures
            r.arg_type@ == ArgView::Register(name@),
            r.value is None,
    {
        ProgramArg { value: None, arg_type: ArgType::Register(String::from_str(name)) }
    }

    /// An immediate operand; its value is the machine word of `value`.
    pub fn immediate(value: usize) -> (r: ProgramArg)
        ensures
            r.arg_type@ == ArgView::Immediate(value as nat),
            r.value == Some(DSB::U16(0).with_value(value as int)),
    {
        ProgramArg { value: Some(DSB::from_cpu_bittage(value)), arg_type: ArgType::Immediate(value) }
    }

    /// A memory-address operand, not yet resolved.
    pub fn memaddr(addr: usize) -> (r: ProgramArg)
        ensures
            r.arg_type@ == ArgView::MemAddr(addr as nat),
            r.value is None,
    {
        ProgramArg { value: None, arg_type: ArgType::MemAddr(addr) }
    }

    /// A symbol (label) operand.
    pub fn symbol(name: &str) -> (r: ProgramArg)
        ensures
            r.arg_type@ == ArgView::Symbol(name@),
            r.value is None,
    {
        ProgramArg { value: None, arg_type: ArgType::Symbol(String::from_str(name)) }
    }
}

/// What an operand resolves to against registers `regs` and memory `mem`:
/// `None` for a failure; `Some(None)` for an operand without a value (a
/// symbol or an absent operand).
pub open spec fn operand_value(regs: Map<Seq<char>, DSB>, mem: Seq<DSB>, a: ArgView) -> Option<
    Option<DSB>,
> {
    match a {
        ArgView::Register(n) => if regs.contains_key(register_key(n)) {
            Some(Some(regs[register_key(n)]))
        } else {
            None
        },
        ArgView::Immediate(i) => Some(Some(DSB::U16(0).with_value(i as int))),
        ArgView::MemAddr(addr) => if addr < mem.len() {
            Some(Some(mem[addr as int]))
        } else {
            None
        },
        ArgView::Symbol(_) => Some(None),
        ArgView::Empty => Some(None),
        ArgView::Error => None,
    }
}

/// Resolves an operand to its value: a register's content, an immediate's
/// word, or the value stored at a memory address; symbols and absent
/// operands have none. An unknown register, an address out of range or a
/// malformed operand is an error.
pub fn get_operand_value(registers: &Registers, memory: &SystemMemory, arg: &ArgType) -> (r: Result<
    Option<DSB>,
    RizeError,
>)
    requires
        registers.wf(),
    ensures
        match operand_value(registers.view(), memory@, arg@) {
            Some(v) => r == Ok::<Option<DSB>, RizeError>(v),
            None => r is Err,
        },
        r is Err ==> (arg is Register ==> r->Err_0.type_ is RegisterRead) && (arg is MemAddr
            ==> r->Err_0.type_ is MemoryRead) && (arg is Error ==> r->Err_0.type_ is Decode),
{
    match arg {
        ArgType::Register(name) => match registers.read(name.as_str()) {
            Some(v) => Ok(Some(v)),
            None => Err(RizeError::register_read("no register of that name")),
        },
        ArgType::Immediate(i) => Ok(Some(DSB::from_cpu_bittage(*i))),
        ArgType::MemAddr(addr) => match memory.read(*addr) {
            Ok(v) => Ok(Some(v)),
            Err(e) => Err(e),
        },
        ArgType::Symbol(_) => Ok(None),
        ArgType::Empty => Ok(None),
        ArgType::Error => Err(RizeError::decode("malformed operand")),
    }
}

} // verus!
