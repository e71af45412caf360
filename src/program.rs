use vstd::prelude::*;
use crate::error::RizeError;
use crate::memory::SystemMemory;
use crate::word::DSB;
use crate::opcode::{opcode_of, OpCode};
use crate::operand::{classify, get_operand_value, operand_value, ArgType, ArgView, ProgramArg};
use crate::registers::{pc_key, pc_name, Registers};
use crate::text::{
    all_alpha, all_alpha_in, before_comment, chars_of, contains_char, contains_in, is_ws_char,
    line_at, lines_from, lines_of, next_break, skip_ws, tokens, tokens_from, token_end, trim,
    trim_end_at,
};

verus! {

/// Longest label name, in characters.
pub const MAX_LABEL_LEN: usize = 16;

pub open spec fn strings_view(v: Seq<String>) -> Seq<Seq<char>> {
    v.map_values(|s: String| s@)
}

/// The text of each span of `s`.
pub open spec fn spans_text(s: Seq<char>, spans: Seq<(usize, usize)>) -> Seq<Seq<char>> {
    spans.map_values(|p: (usize, usize)| s.subrange(p.0 as int, p.1 as int))
}

/// A line that holds no instruction: blank, a comment or a label.
pub open spec fn is_skipped(line: Seq<char>) -> bool {
    let t = trim(line);
    t.len() == 0 || t[0] == '#' || t[0] == '.'
}

/// Index of the first line at or after `k` that holds an instruction.
pub open spec fn next_instruction(lines: Seq<Seq<char>>, k: int) -> Option<int>
    decreases lines.len() - k,
{
    if k >= lines.len() || k < 0 {
        None
    } else if is_skipped(lines[k]) {
        next_instruction(lines, k + 1)
    } else {
        Some(k)
    }
}

/// The label that a line declares: `.` followed by one to
/// `MAX_LABEL_LEN` letters, white space around it ignored.
pub open spec fn label_of(line: Seq<char>) -> Option<Seq<char>> {
    let t = trim(line);
    if t.len() >= 2 && t.len() <= MAX_LABEL_LEN + 1 && t[0] == '.' && all_alpha(t.drop_first()) {
        Some(t.drop_first())
    } else {
        None
    }
}

/// The labels declared from line index `k` on, each with its 1-based line
/// number, top to bottom.
pub open spec fn labels_from(lines: Seq<Seq<char>>, k: int) -> Seq<(Seq<char>, nat)>
    decreases lines.len() - k,
{
    if k >= lines.len() || k < 0 {
        seq![]
    } else {
        (match label_of(lines[k]) {
            Some(n) => seq![(n, (k + 1) as nat)],
            None => seq![],
        }) + labels_from(lines, k + 1)
    }
}

/// The line number of the first entry for `name`.
pub open spec fn first_line_of(table: Seq<(Seq<char>, nat)>, name: Seq<char>) -> Option<nat>
    decreases table.len(),
{
    if table.len() == 0 {
        None
    } else if table[0].0 == name {
        Some(table[0].1)
    } else {
        first_line_of(table.drop_first(), name)
    }
}

/// The 1-based line number of the first declaration of label `name`.
pub open spec fn label_line(lines: Seq<Seq<char>>, name: Seq<char>) -> Option<nat> {
    first_line_of(labels_from(lines, 0), name)
}

/// The opcode and operand tokens of an instruction line: its tokens up to
/// the first one that holds a comment marker.
pub open spec fn instruction_parts(line: Seq<char>) -> Seq<Seq<char>> {
    before_comment(tokens(line))
}

/// Part `k` of an instruction, or the empty text if it has fewer parts.
pub open spec fn part(parts: Seq<Seq<char>>, k: int) -> Seq<char> {
    if k < parts.len() {
        parts[k]
    } else {
        seq![]
    }
}

/// The opcode that a keyword decodes to; a keyword that names no
/// instruction decodes to `Invalid`.
pub open spec fn decoded_opcode(keyword: Seq<char>) -> OpCode {
    match opcode_of(keyword) {
        Some(op) => op,
        None => OpCode::Invalid,
    }
}

/// The kind of error with which an operand of class `a` fails to resolve.
pub open spec fn operand_error_kind(a: ArgView, e: RizeError) -> bool {
    &&& a is Register ==> e.type_ is RegisterRead
    &&& a is MemAddr ==> e.type_ is MemoryRead
    &&& a is Error ==> e.type_ is Decode
}

/// What a decode did, given its result `r`: it succeeds exactly when the
/// line has a keyword and every operand resolves. The keyword's opcode is
/// recorded whenever there is a keyword; the three operands with their
/// values only on success. A line without a keyword is a decode error; else
/// the error is that of the first operand that does not resolve.
pub open spec fn decode_effect(
    before: ActiveProgram,
    regs: Map<Seq<char>, DSB>,
    mem: Seq<DSB>,
    r: Result<(), RizeError>,
    after: ActiveProgram,
) -> bool {
    let parts = instruction_parts(before.line@);
    let a1 = classify(part(parts, 1));
    let a2 = classify(part(parts, 2));
    let a3 = classify(part(parts, 3));
    let v1 = operand_value(regs, mem, a1);
    let v2 = operand_value(regs, mem, a2);
    let v3 = operand_value(regs, mem, a3);
    &&& (parts.len() > 0 && v1 is Some && v2 is Some && v3 is Some) == (r is Ok)
    &&& parts.len() == 0 ==> r is Err && r->Err_0.type_ is Decode && after.opcode == before.opcode
    &&& parts.len() > 0 ==> after.opcode == decoded_opcode(parts[0])
    &&& r is Ok ==> {
        &&& after.arg1.arg_type@ == a1 && after.arg1.value == v1.unwrap()
        &&& after.arg2.arg_type@ == a2 && after.arg2.value == v2.unwrap()
        &&& after.arg3.arg_type@ == a3 && after.arg3.value == v3.unwrap()
    }
    &&& r is Err ==> {
        &&& after.arg1 == before.arg1
        &&& after.arg2 == before.arg2
        &&& after.arg3 == before.arg3
    }
    &&& (r is Err && parts.len() > 0) ==> (if v1 is None {
        operand_error_kind(a1, r->Err_0)
    } else if v2 is None {
        operand_error_kind(a2, r->Err_0)
    } else {
        operand_error_kind(a3, r->Err_0)
    })
}

/// The loaded program and the instruction most recently fetched and decoded.
#[derive(Debug)]
pub struct ActiveProgram {
    /// The program text.
    pub contents: String,
    /// The program text split into lines.
    pub lines: Vec<String>,
    /// The label table: each label with the 1-based number of its line.
    pub symbols: Vec<(String, usize)>,
    /// The instruction line most recently fetched, trimmed.
    pub line: String,
    pub opcode: OpCode,
    pub arg1: ProgramArg,
    pub arg2: ProgramArg,
    pub arg3: ProgramArg,
}

pub open spec fn table_view(v: Seq<(String, usize)>) -> Seq<(Seq<char>, nat)> {
    v.map_values(|p: (String, usize)| (p.0@, p.1 as nat))
}

impl ActiveProgram {
    /// The program text.
    pub open spec fn text(&self) -> Seq<char> {
        self.contents@
    }

    /// The program's lines.
    pub open spec fn source_lines(&self) -> Seq<Seq<char>> {
        strings_view(self.lines@)
    }

    /// The label table: each declared label with its line number, in order.
    pub open spec fn label_table(&self) -> Seq<(Seq<char>, nat)> {
        table_view(self.symbols@)
    }

    pub open spec fn wf(&self) -> bool {
        &&& self.source_lines() == lines_of(self.text())
        &&& self.label_table() == labels_from(self.source_lines(), 0)
    }

    /// Loads `contents`: splits it into lines and builds the label table.
    /// Nothing is fetched yet.
    pub fn load(contents: String) -> (r: ActiveProgram)
        ensures
            r.wf(),
            r.text() == contents@,
            r.line@ == Seq::<char>::empty(),
            r.opcode == OpCode::Invalid,
            r.arg1.arg_type@ == ArgView::Empty,
            r.arg2.arg_type@ == ArgView::Empty,
            r.arg3.arg_type@ == ArgView::Empty,
    {
        let lines = split_lines(contents.as_str());
        let symbols = build_labels(&lines);
        ActiveProgram {
            contents,
            lines,
            symbols,
            line: String::new(),
            opcode: OpCode::Invalid,
            arg1: ProgramArg::none(),
            arg2: ProgramArg::none(),
            arg3: ProgramArg::none(),
        }
    }

    pub fn contents(&self) -> (r: &String)
        ensures
            r@ == self.text(),
    {
        &self.contents
    }

    pub fn line_count(&self) -> (r: usize)
        ensures
            r == self.source_lines().len(),
    {
        self.lines.len()
    }

    /// The 1-based line number of the first declaration of label `name`.
    pub fn symbol_line(&self, name: &String) -> (r: Option<usize>)
        requires
            self.wf(),
        ensures
            match r {
                Some(l) => label_line(self.source_lines(), name@) == Some(l as nat),
                None => label_line(self.source_lines(), name@) is None,
            },
    {
        let ghost table = self.label_table();
        let n = self.symbols.len();
        let mut i: usize = 0;
        assert(table.subrange(0, n as int) =~= table);
        while i < n
            invariant
                self.wf(),
                n == self.symbols@.len(),
                table == self.label_table(),
                table.len() == n,
                i <= n,
                first_line_of(table.subrange(i as int, n as int), name@) == first_line_of(
                    table,
                    name@,
                ),
            decreases n - i,
        {
            let ghost rest = table.subrange(i as int, n as int);
            assert(rest.drop_first() =~= table.subrange(i + 1, n as int));
            assert(rest[0] == table[i as int]);
            assert(table[i as int] == (self.symbols@[i as int].0@, self.symbols@[i as int].1 as nat));
            if self.symbols[i].0 == *name {
                return Some(self.symbols[i].1);
            }
            i = i + 1;
        }
        None
    }

    /// Fetch: from the line that the program counter names, skips blank,
    /// comment and label lines up to the next instruction; keeps it
    /// (trimmed) and sets the program counter to the line after it. At the
    /// end of the text it is a fetch error and nothing changes.
    pub fn fetch(&mut self, registers: &mut Registers) -> (r: Result<(), RizeError>)
        requires
            old(self).wf(),
            old(registers).wf(),
            old(registers).view().contains_key(pc_key()),
        ensures
            final(self).wf(),
            final(registers).wf(),
            final(self).text() == old(self).text(),
            final(self).source_lines() == old(self).source_lines(),
            final(self).label_table() == old(self).label_table(),
            final(self).opcode == old(self).opcode,
            final(self).arg1 == old(self).arg1,
            final(self).arg2 == old(self).arg2,
            final(self).arg3 == old(self).arg3,
            ({
                let pc = old(registers).view()[pc_key()];
                match next_instruction(old(self).source_lines(), pc.value() as int) {
                    Some(k) => r is Ok && final(self).line@ == trim(old(self).source_lines()[k])
                        && final(registers).view() == old(registers).view().insert(
                        pc_key(),
                        pc.with_value(k + 1),
                    ),
                    None => r is Err && r->Err_0.type_ is Fetch && final(self).line == old(self).line && final(registers).view() == old(registers).view(),
                }
            }),
    {
        let pc_reg = pc_name();
        let pc = match registers.read_key(&pc_reg) {
            Some(v) => v,
            None => {
                return Err(RizeError::fetch("no program counter"));
            },
        };
        let ghost lines = self.source_lines();
        let n = self.lines.len();
        let start = pc.to_u128();
        if start >= n as u128 {
            return Err(RizeError::fetch("end of program"));
        }
        let mut k = start as usize;
        while k < n && line_skipped(&self.lines[k])
            invariant
                lines == self.source_lines(),
                n == lines.len(),
                start <= k <= n,
                next_instruction(lines, k as int) == next_instruction(lines, start as int),
            decreases n - k,
        {
            k = k + 1;
        }
        if k == n {
            return Err(RizeError::fetch("end of program"));
        }
        let line = trim_string(self.lines[k].as_str());
        let next = pc.from_u128((k + 1) as u128);
        let written = registers.write_key(&pc_reg, next);
        self.line = line;
        Ok(())
    }

    /// Decode: splits the fetched line into a keyword and up to three
    /// operands, classifies the operands and resolves their values. A line
    /// without a keyword, or an operand that does not resolve, is an error
    /// and changes nothing.
    pub fn decode(&mut self, registers: &Registers, memory: &SystemMemory) -> (r: Result<
        (),
        RizeError,
    >)
        requires
            old(self).wf(),
            registers.wf(),
        ensures
            final(self).wf(),
            final(self).text() == old(self).text(),
            final(self).source_lines() == old(self).source_lines(),
            final(self).label_table() == old(self).label_table(),
            final(self).line == old(self).line,
            decode_effect(*old(self), registers.view(), memory@, r, *final(self)),
    {
        let cs = chars_of(self.line.as_str());
        let spans = token_spans(&cs);
        let ghost ts = spans_text(cs@, spans@);
        let count = parts_before_comment(&cs, &spans);
        let ghost parts = instruction_parts(self.line@);
        assert(parts == ts.take(count as int));
        if count == 0 {
            return Err(RizeError::decode("no instruction keyword"));
        }
        let keyword = self.line.as_str().substring_char(spans[0].0, spans[0].1);
        let opcode = match OpCode::from_str(keyword) {
            Ok(op) => op,
            Err(_) => OpCode::Invalid,
        };
        let t1 = self.operand_text(&cs, &spans, count, 1);
        let t2 = self.operand_text(&cs, &spans, count, 2);
        let t3 = self.operand_text(&cs, &spans, count, 3);
        let k1 = ArgType::from_string(t1);
        let k2 = ArgType::from_string(t2);
        let k3 = ArgType::from_string(t3);
        self.opcode = opcode;
        let v1 = get_operand_value(registers, memory, &k1)?;
        let v2 = get_operand_value(registers, memory, &k2)?;
        let v3 = get_operand_value(registers, memory, &k3)?;
        self.arg1 = ProgramArg { value: v1, arg_type: k1 };
        self.arg2 = ProgramArg { value: v2, arg_type: k2 };
        self.arg3 = ProgramArg { value: v3, arg_type: k3 };
        Ok(())
    }

    /// The text of part `k` of the fetched line, or the empty text.
    fn operand_text(&self, cs: &Vec<char>, spans: &Vec<(usize, usize)>, count: usize, k: usize) -> (r:
        String)
        requires
            cs@ == self.line@,
            count <= spans@.len(),
            forall|i: int|
                0 <= i < spans@.len() ==> (#[trigger] spans@[i]).0 <= spans@[i].1 <= cs@.len(),
        ensures
            r@ == part(spans_text(cs@, spans@).take(count as int), k as int),
    {
        if k < count {
            String::from_str(self.line.as_str().substring_char(spans[k].0, spans[k].1))
        } else {
            String::new()
        }
    }
}

/// Whether a line holds no instruction (see `is_skipped`).
fn line_skipped(line: &String) -> (r: bool)
    ensures
        r == is_skipped(line@),
{
    let cs = chars_of(line.as_str());
    let (a, b) = trim_bounds(&cs);
    a == b || cs[a] == '#' || cs[a] == '.'
}

/// Bounds of `cs` without leading and trailing white space.
fn trim_bounds(cs: &Vec<char>) -> (r: (usize, usize))
    ensures
        r.0 <= r.1 <= cs@.len(),
        cs@.subrange(r.0 as int, r.1 as int) == trim(cs@),
{
    let n = cs.len();
    let mut a: usize = 0;
    while a < n && is_ws_char(cs[a])
        invariant
            n == cs@.len(),
            a <= n,
            skip_ws(cs@, a as int) == skip_ws(cs@, 0),
        decreases n - a,
    {
        a = a + 1;
    }
    let mut b: usize = n;
    while b > 0 && is_ws_char(cs[b - 1])
        invariant
            n == cs@.len(),
            b <= n,
            trim_end_at(cs@, b as int) == trim_end_at(cs@, n as int),
        decreases b,
    {
        b = b - 1;
    }
    if a >= b {
        assert(cs@.subrange(0, 0) =~= Seq::<char>::empty());
        (0, 0)
    } else {
        (a, b)
    }
}

/// `s` without leading and trailing white space.
pub fn trim_string(s: &str) -> (r: String)
    ensures
        r@ == trim(s@),
{
    let cs = chars_of(s);
    let (a, b) = trim_bounds(&cs);
    String::from_str(s.substring_char(a, b))
}

/// The label that `line` declares, if any (see `label_of`).
fn label_in(line: &String) -> (r: Option<String>)
    ensures
        match r {
            Some(n) => label_of(line@) == Some(n@),
            None => label_of(line@) is None,
        },
{
    let cs = chars_of(line.as_str());
    let (a, b) = trim_bounds(&cs);
    let ghost t = trim(line@);
    assert(t.len() == b - a);
    if b - a >= 2 && b - a <= MAX_LABEL_LEN + 1 && cs[a] == '.' {
        assert(cs@.subrange(a + 1, b as int) =~= t.drop_first());
        if all_alpha_in(&cs, a + 1, b) {
            return Some(String::from_str(line.as_str().substring_char(a + 1, b)));
        }
        return None;
    }
    None
}

/// Splits `t` into its lines (see `lines_of`).
pub fn split_lines(t: &str) -> (r: Vec<String>)
    ensures
        strings_view(r@) == lines_of(t@),
{
    let cs = chars_of(t);
    let n = cs.len();
    let mut out: Vec<String> = Vec::new();
    let mut i: usize = 0;
    while i < n
        invariant
            cs@ == t@,
            n == cs@.len(),
            i <= n,
            strings_view(out@) + lines_from(cs@, i as int) == lines_of(cs@),
        decreases n - i,
    {
        let mut j = i;
        while j < n && cs[j] != '\n'
            invariant
                n == cs@.len(),
                i <= j <= n,
                next_break(cs@, j as int) == next_break(cs@, i as int),
            decreases n - j,
        {
            j = j + 1;
        }
        let end = if j < n && j > i && cs[j - 1] == '\r' {
            j - 1
        } else {
            j
        };
        assert(cs@.subrange(i as int, end as int) == line_at(cs@, i as int, j as int));
        let line = String::from_str(t.substring_char(i, end));
        let ghost before = out@;
        out.push(line);
        let next = if j < n {
            j + 1
        } else {
            n
        };
        assert(strings_view(out@) =~= strings_view(before) + seq![line_at(cs@, i as int, j as int)]);
        assert(lines_from(cs@, i as int) == seq![line_at(cs@, i as int, j as int)] + lines_from(
            cs@,
            j + 1,
        ));
        assert(lines_from(cs@, next as int) == lines_from(cs@, j + 1));
        assert(strings_view(out@) + lines_from(cs@, next as int) =~= strings_view(before)
            + lines_from(cs@, i as int));
        i = next;
    }
    assert(strings_view(out@) =~= lines_of(cs@));
    out
}

/// The label table of `lines` (see `labels_from`).
fn build_labels(lines: &Vec<String>) -> (r: Vec<(String, usize)>)
    ensures
        table_view(r@) == labels_from(strings_view(lines@), 0),
{
    let ghost ls = strings_view(lines@);
    let n = lines.len();
    let mut out: Vec<(String, usize)> = Vec::new();
    let mut k: usize = 0;
    while k < n
        invariant
            n == lines@.len(),
            ls == strings_view(lines@),
            k <= n,
            table_view(out@) + labels_from(ls, k as int) == labels_from(ls, 0),
        decreases n - k,
    {
        let ghost before = out@;
        assert(ls[k as int] == lines@[k as int]@);
        match label_in(&lines[k]) {
            Some(name) => {
                out.push((name, k + 1));
                assert(table_view(out@) =~= table_view(before) + seq![
                    (label_of(ls[k as int]).unwrap(), (k + 1) as nat),
                ]);
            },
            None => {},
        }
        assert(table_view(out@) + labels_from(ls, k + 1) =~= table_view(before) + labels_from(
            ls,
            k as int,
        ));
        k = k + 1;
    }
    assert(table_view(out@) =~= labels_from(ls, 0));
    out
}

/// The spans of the white-space separated tokens of `cs`.
fn token_spans(cs: &Vec<char>) -> (r: Vec<(usize, usize)>)
    ensures
        spans_text(cs@, r@) == tokens(cs@),
        forall|i: int| 0 <= i < r@.len() ==> (#[trigger] r@[i]).0 <= r@[i].1 <= cs@.len(),
{
    let n = cs.len();
    let mut out: Vec<(usize, usize)> = Vec::new();
    let mut i: usize = 0;
    while i < n
        invariant
            n == cs@.len(),
            i <= n,
            spans_text(cs@, out@) + tokens_from(cs@, i as int) == tokens(cs@),
            forall|k: int| 0 <= k < out@.len() ==> (#[trigger] out@[k]).0 <= out@[k].1 <= n,
        decreases n - i,
    {
        if is_ws_char(cs[i]) {
            i = i + 1;
        } else {
            let mut e = i + 1;
            while e < n && !is_ws_char(cs[e])
                invariant
                    n == cs@.len(),
                    i < e <= n,
                    token_end(cs@, e as int) == token_end(cs@, i as int),
                decreases n - e,
            {
                e = e + 1;
            }
            let ghost before = out@;
            out.push((i, e));
            assert(spans_text(cs@, out@) =~= spans_text(cs@, before) + seq![
                cs@.subrange(i as int, e as int),
            ]);
            assert(tokens_from(cs@, i as int) == seq![cs@.subrange(i as int, e as int)]
                + tokens_from(cs@, e as int));
            assert(spans_text(cs@, out@) + tokens_from(cs@, e as int) =~= spans_text(cs@, before)
                + tokens_from(cs@, i as int));
            i = e;
        }
    }
    assert(spans_text(cs@, out@) =~= tokens(cs@));
    out
}

/// Every entry of the label table from line `k` on names a line at or after
/// `k` that declares it.
pub proof fn lemma_labels_from_declared(lines: Seq<Seq<char>>, k: int, i: int)
    requires
        0 <= k,
        0 <= i < labels_from(lines, k).len(),
    ensures
        k + 1 <= labels_from(lines, k)[i].1 <= lines.len(),
        label_of(lines[labels_from(lines, k)[i].1 - 1]) == Some(labels_from(lines, k)[i].0),
    decreases lines.len() - k,
{
    if k < lines.len() {
        let head: Seq<(Seq<char>, nat)> = match label_of(lines[k]) {
            Some(n) => seq![(n, (k + 1) as nat)],
            None => seq![],
        };
        assert(labels_from(lines, k) == head + labels_from(lines, k + 1));
        if i >= head.len() {
            lemma_labels_from_declared(lines, k + 1, i - head.len());
        }
    }
}

/// The line that `first_line_of` finds belongs to an entry for that name.
pub proof fn lemma_first_line_entry(table: Seq<(Seq<char>, nat)>, name: Seq<char>) -> (i: int)
    requires
        first_line_of(table, name) is Some,
    ensures
        0 <= i < table.len(),
        table[i] == (name, first_line_of(table, name).unwrap()),
    decreases table.len(),
{
    if table[0].0 == name {
        0
    } else {
        let j = lemma_first_line_entry(table.drop_first(), name);
        j + 1
    }
}

/// A resolved label's line number is a line of the program that declares
/// that label.
pub proof fn lemma_label_line_declared(lines: Seq<Seq<char>>, name: Seq<char>)
    requires
        label_line(lines, name) is Some,
    ensures
        1 <= label_line(lines, name).unwrap() <= lines.len(),
        label_of(lines[label_line(lines, name).unwrap() - 1]) == Some(name),
{
    let i = lemma_first_line_entry(labels_from(lines, 0), name);
    lemma_labels_from_declared(lines, 0, i);
}

/// The tokens before the first one that holds a comment marker are a prefix.
proof fn lemma_before_comment(ts: Seq<Seq<char>>, c: int)
    requires
        0 <= c <= ts.len(),
        forall|k: int| 0 <= k < c ==> !contains_char(#[trigger] ts[k], '#'),
        c == ts.len() || contains_char(ts[c], '#'),
    ensures
        before_comment(ts) == ts.take(c),
    decreases c,
{
    if c == 0 {
        assert(ts.take(0) =~= Seq::<Seq<char>>::empty());
    } else {
        let rest = ts.drop_first();
        assert forall|k: int| 0 <= k < c - 1 implies !contains_char(#[trigger] rest[k], '#') by {
            assert(rest[k] == ts[k + 1]);
        }
        if c < ts.len() {
            assert(rest[c - 1] == ts[c]);
        }
        lemma_before_comment(rest, c - 1);
        assert(ts.take(c) =~= seq![ts[0]] + rest.take(c - 1));
    }
}

/// Number of leading tokens without a comment marker.
fn parts_before_comment(cs: &Vec<char>, spans: &Vec<(usize, usize)>) -> (r: usize)
    requires
        spans_text(cs@, spans@) == tokens(cs@),
        forall|i: int| 0 <= i < spans@.len() ==> (#[trigger] spans@[i]).0 <= spans@[i].1 <= cs@.len(),
    ensures
        r <= spans@.len(),
        before_comment(tokens(cs@)) == tokens(cs@).take(r as int),
{
    let ghost ts = spans_text(cs@, spans@);
    let n = spans.len();
    let mut c: usize = 0;
    while c < n
        invariant
            n == spans@.len(),
            ts == spans_text(cs@, spans@),
            ts == tokens(cs@),
            c <= n,
            forall|i: int| 0 <= i < spans@.len() ==> (#[trigger] spans@[i]).0 <= spans@[i].1 <= cs@.len(),
            forall|k: int| 0 <= k < c ==> !contains_char(#[trigger] ts[k], '#'),
        decreases n - c,
    {
        assert(ts[c as int] == cs@.subrange(spans@[c as int].0 as int, spans@[c as int].1 as int));
        if contains_in(cs, spans[c].0, spans[c].1, '#') {
            proof {
                lemma_before_comment(ts, c as int);
            }
            return c;
        }
        c = c + 1;
    }
    proof {
        lemma_before_comment(ts, c as int);
    }
    c
}

} // verus!
