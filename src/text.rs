use vstd::prelude::*;

verus! {

/// Whether `c` has the Unicode Alphabetic property: the characters of
/// register names and labels.
pub uninterp spec fn alphabetic(c: char) -> bool;

/// Whether `c` has the Unicode White_Space property: what separates tokens
/// and is trimmed from lines.
pub uninterp spec fn white_space(c: char) -> bool;

pub open spec fn all_alpha(s: Seq<char>) -> bool {
    forall|i: int| 0 <= i < s.len() ==> alphabetic(#[trigger] s[i])
}

pub open spec fn contains_char(s: Seq<char>, c: char) -> bool {
    exists|i: int| 0 <= i < s.len() && s[i] == c
}

/// ASCII lower case of one character.
pub open spec fn lower(c: char) -> char {
    if 'A' <= c && c <= 'Z' {
        ((c as u8) + 32) as char
    } else {
        c
    }
}

pub open spec fn lower_seq(s: Seq<char>) -> Seq<char> {
    s.map_values(|c: char| lower(c))
}

/// The value of one digit in `base` (10 or 16), if it is one.
pub open spec fn digit_value(c: char, base: nat) -> Option<nat> {
    if '0' <= c && c <= '9' {
        Some((c as u32 - '0' as u32) as nat)
    } else if base == 16 && 'a' <= c && c <= 'f' {
        Some((c as u32 - 'a' as u32 + 10) as nat)
    } else if base == 16 && 'A' <= c && c <= 'F' {
        Some((c as u32 - 'A' as u32 + 10) as nat)
    } else {
        None
    }
}

pub open spec fn all_digits(s: Seq<char>, base: nat) -> bool {
    forall|i: int| 0 <= i < s.len() ==> (#[trigger] digit_value(s[i], base)) is Some
}

/// The number that a string of digits writes in `base`, most significant first.
pub open spec fn digits_value(s: Seq<char>, base: nat) -> nat
    decreases s.len(),
{
    if s.len() == 0 {
        0
    } else {
        digits_value(s.drop_last(), base) * base + digit_value(s.last(), base).unwrap()
    }
}

/// An unsigned number in `base`: an optional `+` and one or more digits,
/// whose value fits in `usize`.
pub open spec fn parse_unsigned(s: Seq<char>, base: nat) -> Option<nat> {
    let body = if s.len() > 0 && s[0] == '+' { s.drop_first() } else { s };
    if body.len() == 0 || !all_digits(body, base) {
        None
    } else if digits_value(body, base) > usize::MAX {
        None
    } else {
        Some(digits_value(body, base))
    }
}

/// Index of the first line break at or after `i`, or the length.
pub open spec fn next_break(t: Seq<char>, i: int) -> int
    decreases t.len() - i,
{
    if i >= t.len() {
        t.len() as int
    } else if t[i] == '\n' {
        i
    } else {
        next_break(t, i + 1)
    }
}

/// The lines of `t` from index `i`: split at each line feed; a carriage
/// return before a line feed is dropped; a final line feed ends the last
/// line rather than starting an empty one.
pub open spec fn lines_from(t: Seq<char>, i: int) -> Seq<Seq<char>>
    decreases t.len() + 1 - i,
{
    if i >= t.len() || i < 0 {
        seq![]
    } else {
        let j = next_break(t, i);
        if j < i || j > t.len() {
            seq![]
        } else {
            seq![line_at(t, i, j)] + lines_from(t, j + 1)
        }
    }
}

/// The line between `i` and the break at `j`, without a carriage return
/// that precedes the line feed.
pub open spec fn line_at(t: Seq<char>, i: int, j: int) -> Seq<char> {
    if j < t.len() && j > i && t[j - 1] == '\r' {
        t.subrange(i, j - 1)
    } else {
        t.subrange(i, j)
    }
}

pub open spec fn lines_of(t: Seq<char>) -> Seq<Seq<char>> {
    lines_from(t, 0)
}

/// Index of the first non-white-space character at or after `i`, or the length.
pub open spec fn skip_ws(s: Seq<char>, i: int) -> int
    decreases s.len() - i,
{
    if i >= s.len() {
        s.len() as int
    } else if white_space(s[i]) {
        skip_ws(s, i + 1)
    } else {
        i
    }
}

/// End of the trailing-white-space-free prefix of `s.take(j)`.
pub open spec fn trim_end_at(s: Seq<char>, j: int) -> int
    decreases j,
{
    if j <= 0 {
        0
    } else if white_space(s[j - 1]) {
        trim_end_at(s, j - 1)
    } else {
        j
    }
}

/// `s` without leading and trailing white space.
pub open spec fn trim(s: Seq<char>) -> Seq<char> {
    let a = skip_ws(s, 0);
    let b = trim_end_at(s, s.len() as int);
    if a >= b {
        seq![]
    } else {
        s.subrange(a, b)
    }
}

/// End of the run of non-white-space characters that starts at `i`.
pub open spec fn token_end(s: Seq<char>, i: int) -> int
    decreases s.len() - i,
{
    if i < s.len() && !white_space(s[i]) {
        token_end(s, i + 1)
    } else {
        i
    }
}

/// The white-space separated tokens of `s` from index `i`.
pub open spec fn tokens_from(s: Seq<char>, i: int) -> Seq<Seq<char>>
    decreases s.len() - i,
{
    if i >= s.len() || i < 0 {
        seq![]
    } else if white_space(s[i]) {
        tokens_from(s, i + 1)
    } else {
        let e = token_end(s, i);
        if e <= i || e > s.len() {
            seq![]
        } else {
            seq![s.subrange(i, e)] + tokens_from(s, e)
        }
    }
}

pub open spec fn tokens(s: Seq<char>) -> Seq<Seq<char>> {
    tokens_from(s, 0)
}

/// The leading tokens up to the first one that holds a comment marker.
pub open spec fn before_comment(ts: Seq<Seq<char>>) -> Seq<Seq<char>>
    decreases ts.len(),
{
    if ts.len() == 0 || contains_char(ts[0], '#') {
        seq![]
    } else {
        seq![ts[0]] + before_comment(ts.drop_first())
    }
}

/// A prefix of a digit string never writes a larger number.
pub proof fn lemma_digits_prefix(s: Seq<char>, base: nat, i: int)
    requires
        0 <= i <= s.len(),
        base > 0,
    ensures
        digits_value(s.take(i), base) <= digits_value(s, base),
    decreases s.len(),
{
    if i < s.len() {
        let d = s.drop_last();
        assert(d.take(i) =~= s.take(i));
        lemma_digits_prefix(d, base, i);
        assert(digits_value(d, base) <= digits_value(d, base) * base) by (nonlinear_arith)
            requires
                base > 0,
        ;
    } else {
        assert(s.take(i) =~= s);
    }
}

/// The characters of `s`, one per element.
pub fn chars_of(s: &str) -> (r: Vec<char>)
    ensures
        r@ == s@,
{
    let n = s.unicode_len();
    let mut r: Vec<char> = Vec::new();
    let mut i: usize = 0;
    while i < n
        invariant
            n == s@.len(),
            i <= n,
            r@ == s@.take(i as int),
        decreases n - i,
    {
        r.push(s.get_char(i));
        i = i + 1;
        assert(r@ =~= s@.take(i as int));
    }
    assert(s@.take(n as int) =~= s@);
    r
}

/// Relies on `char::is_alphabetic`, which depends on the character alone.
#[verifier::external_body]
pub(crate) fn is_alpha_char(c: char) -> (r: bool)
    ensures
        r == alphabetic(c),
{
    c.is_alphabetic()
}

/// Relies on `char::is_whitespace`, which depends on the character alone.
#[verifier::external_body]
pub(crate) fn is_ws_char(c: char) -> (r: bool)
    ensures
        r == white_space(c),
{
    c.is_whitespace()
}

pub fn lower_char(c: char) -> (r: char)
    ensures
        r == lower(c),
{
    if 'A' <= c && c <= 'Z' {
        ((c as u8) + 32) as char
    } else {
        c
    }
}

/// Whether every character of `s[from..to]` is a letter.
pub fn all_alpha_in(s: &Vec<char>, from: usize, to: usize) -> (r: bool)
    requires
        from <= to <= s@.len(),
    ensures
        r == all_alpha(s@.subrange(from as int, to as int)),
{
    let mut i = from;
    while i < to
        invariant
            from <= i <= to,
            to <= s@.len(),
            forall|k: int| from <= k < i ==> alphabetic(#[trigger] s@[k]),
        decreases to - i,
    {
        if !is_alpha_char(s[i]) {
            assert(!alphabetic(s@.subrange(from as int, to as int)[i - from]));
            return false;
        }
        i = i + 1;
    }
    assert forall|k: int| 0 <= k < to - from implies alphabetic(
        #[trigger] s@.subrange(from as int, to as int)[k],
    ) by {
        assert(s@.subrange(from as int, to as int)[k] == s@[from + k]);
    }
    true
}

/// Whether `s[from..to]` holds `c`.
pub fn contains_in(s: &Vec<char>, from: usize, to: usize, c: char) -> (r: bool)
    requires
        from <= to <= s@.len(),
    ensures
        r == contains_char(s@.subrange(from as int, to as int), c),
{
    let mut i = from;
    while i < to
        invariant
            from <= i <= to,
            to <= s@.len(),
            forall|k: int| from <= k < i ==> #[trigger] s@[k] != c,
        decreases to - i,
    {
        if s[i] == c {
            assert(s@.subrange(from as int, to as int)[i - from] == c);
            return true;
        }
        i = i + 1;
    }
    assert forall|k: int| 0 <= k < to - from implies #[trigger] s@.subrange(
        from as int,
        to as int,
    )[k] != c by {
        assert(s@.subrange(from as int, to as int)[k] == s@[from + k]);
    }
    false
}

fn digit_of(c: char, base: u32) -> (r: Option<u32>)
    requires
        base == 10 || base == 16,
    ensures
        match r {
            Some(d) => digit_value(c, base as nat) == Some(d as nat) && d < base,
            None => digit_value(c, base as nat) is None,
        },
{
    if '0' <= c && c <= '9' {
        Some(c as u32 - '0' as u32)
    } else if base == 16 && 'a' <= c && c <= 'f' {
        Some(c as u32 - 'a' as u32 + 10)
    } else if base == 16 && 'A' <= c && c <= 'F' {
        Some(c as u32 - 'A' as u32 + 10)
    } else {
        None
    }
}

/// Parses `s[from..to]` as an unsigned number in `base` (10 or 16).
pub fn parse_usize(s: &Vec<char>, from: usize, to: usize, base: u32) -> (r: Option<usize>)
    requires
        from <= to <= s@.len(),
        base == 10 || base == 16,
    ensures
        match r {
            Some(v) => parse_unsigned(s@.subrange(from as int, to as int), base as nat) == Some(
                v as nat,
            ),
            None => parse_unsigned(s@.subrange(from as int, to as int), base as nat) is None,
        },
{
    let ghost whole = s@.subrange(from as int, to as int);
    let mut start = from;
    if from < to && s[from] == '+' {
        start = from + 1;
    }
    let ghost body = s@.subrange(start as int, to as int);
    assert(body =~= (if whole.len() > 0 && whole[0] == '+' { whole.drop_first() } else { whole }));
    if start == to {
        return None;
    }
    let mut acc: usize = 0;
    let mut i = start;
    while i < to
        invariant
            start <= i <= to,
            to <= s@.len(),
            base == 10 || base == 16,
            body == s@.subrange(start as int, to as int),
            whole == s@.subrange(from as int, to as int),
            body == (if whole.len() > 0 && whole[0] == '+' { whole.drop_first() } else { whole }),
            all_digits(body.take(i - start), base as nat),
            acc == digits_value(body.take(i - start), base as nat),
        decreases to - i,
    {
        let d = match digit_of(s[i], base) {
            Some(d) => d,
            None => {
                assert(body[i - start] == s@[i as int]);
                assert(digit_value(body[i - start], base as nat) is None);
                return None;
            },
        };
        let ghost prefix = body.take(i - start + 1);
        assert(prefix.drop_last() =~= body.take(i - start));
        assert(prefix.last() == s@[i as int]);
        let next = match acc.checked_mul(base as usize) {
            Some(m) => m.checked_add(d as usize),
            None => None,
        };
        match next {
            Some(v) => {
                acc = v;
            },
            None => {
                proof {
                    assert(digits_value(prefix, base as nat) == acc * base + d);
                    assert(digits_value(prefix, base as nat) > usize::MAX) by (nonlinear_arith)
                        requires
                            digits_value(prefix, base as nat) == acc * base + d,
                            acc * base > usize::MAX || acc * base + d > usize::MAX,
                            d >= 0,
                    {
                    }
                    if all_digits(body, base as nat) {
                        lemma_digits_prefix(body, base as nat, i - start + 1);
                        assert(digits_value(body, base as nat) > usize::MAX);
                    }
                }
                return None;
            },
        }
        i = i + 1;
        proof {
            assert forall|k: int| 0 <= k < prefix.len() implies (#[trigger] digit_value(
                prefix[k],
                base as nat,
            )) is Some by {
                if k < i - start - 1 {
                    assert(prefix[k] == body.take(i - start - 1)[k]);
                }
            }
        }
    }
    assert(body.take(to - start) =~= body);
    Some(acc)
}

} // verus!
