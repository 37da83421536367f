//! The tokens that an interactive user types: command names, numbers with
//! an optional `:byte`, `:word` or `:int` suffix and `0x` radix marker, and
//! quoted strings.
use crate::cqi_consts::COMMANDS;
use crate::value::{Value, ValueView};
use vstd::prelude::*;
use vstd::string::StrSliceExecFns;

verus! {

/// Whether `c` is ASCII whitespace.
pub open spec fn is_blank(c: char) -> bool {
    c == ' ' || c == '\t' || c == '\n' || c == '\x0C' || c == '\r'
}

/// The length of the leading run of `s` that holds no whitespace.
pub open spec fn word_len(s: Seq<char>) -> nat
    decreases s.len(),
{
    if s.len() == 0 || is_blank(s[0]) {
        0
    } else {
        1 + word_len(s.drop_first())
    }
}

/// The index of the first `:` in `s`, or its length when there is none.
pub open spec fn colon_pos(s: Seq<char>) -> nat
    decreases s.len(),
{
    if s.len() == 0 || s[0] == ':' {
        0
    } else {
        1 + colon_pos(s.drop_first())
    }
}

/// The whitespace-separated words of `s`, left to right.
pub open spec fn words(s: Seq<char>) -> Seq<Seq<char>>
    decreases s.len(),
{
    if s.len() == 0 {
        Seq::empty()
    } else if is_blank(s[0]) {
        words(s.drop_first())
    } else {
        proof {
            lemma_word_len_bound(s);
        }
        seq![s.take(word_len(s) as int)] + words(s.skip(word_len(s) as int))
    }
}

/// A word is no longer than the text it starts, and not empty when the
/// text starts with a character that is not whitespace.
pub proof fn lemma_word_len_bound(s: Seq<char>)
    ensures
        word_len(s) <= s.len(),
        s.len() > 0 && !is_blank(s[0]) ==> word_len(s) >= 1,
    decreases s.len(),
{
    if s.len() > 0 {
        lemma_word_len_bound(s.drop_first());
    }
}

proof fn lemma_word_len(s: Seq<char>, n: int)
    requires
        0 <= n <= s.len(),
        forall|k: int| 0 <= k < n ==> !is_blank(#[trigger] s[k]),
        n == s.len() || is_blank(s[n]),
    ensures
        word_len(s) == n,
    decreases n,
{
    if n > 0 {
        let t = s.drop_first();
        assert forall|k: int| 0 <= k < n - 1 implies !is_blank(#[trigger] t[k]) by {
            assert(t[k] == s[k + 1]);
        }
        assert(n - 1 == t.len() || t[n - 1] == s[n]);
        lemma_word_len(t, n - 1);
    }
}

proof fn lemma_colon_pos(s: Seq<char>, n: int)
    requires
        0 <= n <= s.len(),
        forall|k: int| 0 <= k < n ==> #[trigger] s[k] != ':',
        n == s.len() || s[n] == ':',
    ensures
        colon_pos(s) == n,
    decreases n,
{
    if n > 0 {
        let t = s.drop_first();
        assert forall|k: int| 0 <= k < n - 1 implies #[trigger] t[k] != ':' by {
            assert(t[k] == s[k + 1]);
        }
        assert(n - 1 == t.len() || t[n - 1] == s[n]);
        lemma_colon_pos(t, n - 1);
    }
}

/// The characters of `s`.
fn chars_of(s: &str) -> (r: Vec<char>)
    ensures
        r@ == s@,
{
    let n = s.unicode_len();
    let mut r: Vec<char> = Vec::with_capacity(n);
    let mut i: usize = 0;
    while i < n
        invariant
            i <= n,
            n == s@.len(),
            r@ == s@.take(i as int),
        decreases n - i,
    {
        r.push(s.get_char(i));
        assert(r@ =~= s@.take(i + 1));
        i += 1;
    }
    assert(s@.take(i as int) =~= s@);
    r
}

/// The value of `c` as a digit in radixes up to 36, or 36 when it is none.
pub open spec fn digit_value(c: char) -> nat {
    let u = c as u32;
    if 48 <= u <= 57 {
        (u - 48) as nat
    } else if 97 <= u <= 122 {
        (u - 97 + 10) as nat
    } else if 65 <= u <= 90 {
        (u - 65 + 10) as nat
    } else {
        36
    }
}

/// The number that the digits `s` spell in `radix`, when `s` is a non-empty
/// run of digits of that radix.
pub open spec fn digits_value(s: Seq<char>, radix: nat) -> Option<nat>
    decreases s.len(),
{
    if s.len() == 0 || digit_value(s.last()) >= radix {
        None
    } else if s.len() == 1 {
        Some(digit_value(s.last()))
    } else {
        match digits_value(s.drop_last(), radix) {
            Some(v) => Some(v * radix + digit_value(s.last())),
            None => None,
        }
    }
}

/// The integer that `s` spells in `radix`: digits after an optional `+`,
/// or for a signed target also after a `-`.
pub open spec fn integer_value(s: Seq<char>, radix: nat, signed: bool) -> Option<int> {
    if s.len() > 0 && s[0] == '+' {
        match digits_value(s.drop_first(), radix) {
            Some(v) => Some(v as int),
            None => None,
        }
    } else if signed && s.len() > 0 && s[0] == '-' {
        match digits_value(s.drop_first(), radix) {
            Some(v) => Some(-v),
            None => None,
        }
    } else {
        match digits_value(s, radix) {
            Some(v) => Some(v as int),
            None => None,
        }
    }
}

/// Whether a number starts with the hexadecimal marker `0x`.
pub open spec fn has_hex_marker(num: Seq<char>) -> bool {
    num.len() >= 2 && num[0] == '0' && num[1] == 'x'
}

/// The number of a numeric token: what stands before its first `:`.
pub open spec fn number_field(t: Seq<char>) -> Seq<char> {
    t.take(colon_pos(t) as int)
}

/// The kind of a numeric token: what stands between its first and second
/// `:`, or `byte` when it has no `:`.
pub open spec fn kind_field(t: Seq<char>) -> Seq<char> {
    if colon_pos(t) < t.len() {
        let rest = t.skip(colon_pos(t) as int + 1);
        rest.take(colon_pos(rest) as int)
    } else {
        seq!['b', 'y', 't', 'e']
    }
}

/// The value of a numeric token: its number, in radix 16 after a `0x`
/// marker and 10 otherwise, as a byte, word or int as its kind says, when
/// it is in the range of that type.
pub open spec fn number_value(t: Seq<char>) -> Option<ValueView> {
    let num = number_field(t);
    let kind = kind_field(t);
    let radix: nat = if has_hex_marker(num) {
        16
    } else {
        10
    };
    let digits = if has_hex_marker(num) {
        num.skip(2)
    } else {
        num
    };
    if kind == seq!['b', 'y', 't', 'e'] {
        match integer_value(digits, radix, false) {
            Some(v) => if v <= 0xff {
                Some(ValueView::Byte(v as u8))
            } else {
                None
            },
            None => None,
        }
    } else if kind == seq!['w', 'o', 'r', 'd'] {
        match integer_value(digits, radix, false) {
            Some(v) => if v <= 0xffff {
                Some(ValueView::Word(v as u16))
            } else {
                None
            },
            None => None,
        }
    } else if kind == seq!['i', 'n', 't'] {
        match integer_value(digits, radix, true) {
            Some(v) => if i32::MIN <= v <= i32::MAX {
                Some(ValueView::Int(v as i32))
            } else {
                None
            },
            None => None,
        }
    } else {
        None
    }
}

fn digit(c: char) -> (r: u32)
    ensures
        r == digit_value(c),
{
    let u = c as u32;
    if 48 <= u && u <= 57 {
        u - 48
    } else if 97 <= u && u <= 122 {
        u - 97 + 10
    } else if 65 <= u && u <= 90 {
        u - 65 + 10
    } else {
        36
    }
}

proof fn lemma_digits_none_extends(s: Seq<char>, radix: nat, k: int, m: int)
    requires
        1 <= k <= m <= s.len(),
        digits_value(s.take(k), radix) is None,
    ensures
        digits_value(s.take(m), radix) is None,
    decreases m - k,
{
    if m > k {
        lemma_digits_none_extends(s, radix, k, m - 1);
        assert(s.take(m).drop_last() =~= s.take(m - 1));
    }
}

/// The number that `cs[lo..hi]` spells in `radix`, when it is a run of
/// digits whose value is at most `limit`.
fn read_digits(cs: &Vec<char>, lo: usize, hi: usize, radix: u32, limit: u64) -> (r: Option<u64>)
    requires
        lo <= hi <= cs@.len(),
        radix == 10 || radix == 16,
        limit <= 0x8000_0000,
    ensures
        r == match digits_value(cs@.subrange(lo as int, hi as int), radix as nat) {
            Some(v) => if v <= limit {
                Some(v as u64)
            } else {
                None::<u64>
            },
            None => None::<u64>,
        },
{
    let ghost s = cs@.subrange(lo as int, hi as int);
    if lo == hi {
        return None;
    }
    let mut acc: u64 = 0;
    let mut i: usize = lo;
    while i < hi
        invariant
            lo <= i <= hi <= cs@.len(),
            lo < hi,
            s == cs@.subrange(lo as int, hi as int),
            radix == 10 || radix == 16,
            limit <= 0x8000_0000,
            acc <= limit + 1,
            i == lo ==> acc == 0,
            i > lo ==> (digits_value(s.take(i - lo), radix as nat) matches Some(v) && acc as int == (if v
                <= limit {
                v as int
            } else {
                limit + 1
            })),
        decreases hi - i,
    {
        let d = digit(cs[i]);
        assert(s.take(i - lo + 1).last() == cs@[i as int]);
        assert(s.take(i - lo + 1).drop_last() =~= s.take(i - lo));
        if d >= radix {
            proof {
                lemma_digits_none_extends(s, radix as nat, i - lo + 1, s.len() as int);
                assert(s.take(s.len() as int) =~= s);
            }
            return None;
        }
        assert(acc * (radix as u64) <= 0x8000_0001u64 * 16) by (nonlinear_arith)
            requires
                acc <= 0x8000_0001u64,
                radix <= 16,
        ;
        let next = acc * (radix as u64) + (d as u64);
        assert(acc * (radix as u64) + (d as u64) >= acc) by (nonlinear_arith)
            requires
                radix >= 1,
        ;
        acc = if next > limit {
            limit + 1
        } else {
            next
        };
        proof {
            if i > lo {
                let v = digits_value(s.take(i - lo), radix as nat)->Some_0;
                if v > limit {
                    assert(v * radix + d > limit) by (nonlinear_arith)
                        requires
                            v > limit,
                            radix >= 1,
                    ;
                }
            }
        }
        i += 1;
    }
    assert(s.take(i - lo) =~= s);
    if acc <= limit {
        Some(acc)
    } else {
        None
    }
}

/// The value of a quoted token: the characters between its quotes.
pub open spec fn string_value(t: Seq<char>) -> Option<ValueView> {
    if t.len() >= 2 && t[0] == '"' && t.last() == '"' {
        Some(ValueView::String(t.subrange(1, t.len() - 1)))
    } else {
        None
    }
}

/// The value of a token: a command name is the command's opcode as a word;
/// otherwise a numeric token is its number, and a quoted one its string.
pub open spec fn token_value(t: Seq<char>) -> Option<ValueView> {
    match COMMANDS::from_name_spec(t) {
        Some(c) => Some(ValueView::Word(c.code())),
        None => match number_value(t) {
            Some(v) => Some(v),
            None => string_value(t),
        },
    }
}

/// The values of the words of a line, when every word is a token.
pub open spec fn line_values(line: Seq<char>) -> Option<Seq<ValueView>> {
    let ws = words(line);
    if forall|i: int| 0 <= i < ws.len() ==> (#[trigger] token_value(ws[i])) is Some {
        Some(ws.map_values(|w: Seq<char>| token_value(w)->Some_0))
    } else {
        None
    }
}

/// The view of an optional value.
pub open spec fn option_view(r: Option<Value>) -> Option<ValueView> {
    match r {
        Some(v) => Some(v@),
        None => None,
    }
}

fn find_colon(cs: &Vec<char>, lo: usize, hi: usize) -> (r: usize)
    requires
        lo <= hi <= cs@.len(),
    ensures
        lo <= r <= hi,
        r - lo == colon_pos(cs@.subrange(lo as int, hi as int)),
{
    let mut i: usize = lo;
    while i < hi && cs[i] != ':'
        invariant
            lo <= i <= hi <= cs@.len(),
            forall|k: int| lo <= k < i ==> cs@[k] != ':',
        decreases hi - i,
    {
        i += 1;
    }
    let ghost s = cs@.subrange(lo as int, hi as int);
    assert forall|k: int| 0 <= k < i - lo implies #[trigger] s[k] != ':' by {
        assert(s[k] == cs@[lo + k]);
    }
    proof {
        lemma_colon_pos(s, i - lo);
    }
    i
}

/// The kind that `cs[lo..hi]` names: 0 for `byte`, 1 for `word`, 2 for
/// `int`, 3 for anything else.
fn kind_code(cs: &Vec<char>, lo: usize, hi: usize) -> (r: u8)
    requires
        lo <= hi <= cs@.len(),
    ensures
        r == 0 <==> cs@.subrange(lo as int, hi as int) == seq!['b', 'y', 't', 'e'],
        r == 1 <==> cs@.subrange(lo as int, hi as int) == seq!['w', 'o', 'r', 'd'],
        r == 2 <==> cs@.subrange(lo as int, hi as int) == seq!['i', 'n', 't'],
        r <= 3,
{
    let ghost s = cs@.subrange(lo as int, hi as int);
    let n = hi - lo;
    if n == 4 && cs[lo] == 'b' && cs[lo + 1] == 'y' && cs[lo + 2] == 't' && cs[lo + 3] == 'e' {
        assert(s =~= seq!['b', 'y', 't', 'e']);
        assert(seq!['w', 'o', 'r', 'd'][0] == 'w');
        assert(seq!['i', 'n', 't'].len() == 3);
        0
    } else if n == 4 && cs[lo] == 'w' && cs[lo + 1] == 'o' && cs[lo + 2] == 'r' && cs[lo + 3]
        == 'd' {
        assert(s =~= seq!['w', 'o', 'r', 'd']);
        assert(seq!['b', 'y', 't', 'e'][0] == 'b');
        assert(seq!['i', 'n', 't'].len() == 3);
        1
    } else if n == 3 && cs[lo] == 'i' && cs[lo + 1] == 'n' && cs[lo + 2] == 't' {
        assert(s =~= seq!['i', 'n', 't']);
        assert(seq!['b', 'y', 't', 'e'].len() == 4);
        assert(seq!['w', 'o', 'r', 'd'].len() == 4);
        2
    } else {
        proof {
            if s == seq!['b', 'y', 't', 'e'] {
                assert(s[0] == 'b' && s[1] == 'y' && s[2] == 't' && s[3] == 'e');
            }
            if s == seq!['w', 'o', 'r', 'd'] {
                assert(s[0] == 'w' && s[1] == 'o' && s[2] == 'r' && s[3] == 'd');
            }
            if s == seq!['i', 'n', 't'] {
                assert(s[0] == 'i' && s[1] == 'n' && s[2] == 't');
            }
        }
        3
    }
}

/// The unsigned number that `cs[lo..hi]` spells, when it is at most `limit`.
fn read_unsigned(cs: &Vec<char>, lo: usize, hi: usize, radix: u32, limit: u64) -> (r: Option<u64>)
    requires
        lo <= hi <= cs@.len(),
        radix == 10 || radix == 16,
        limit <= 0xffff,
    ensures
        r == match integer_value(cs@.subrange(lo as int, hi as int), radix as nat, false) {
            Some(v) => if v <= limit {
                Some(v as u64)
            } else {
                None::<u64>
            },
            None => None::<u64>,
        },
{
    let ghost s = cs@.subrange(lo as int, hi as int);
    if lo < hi && cs[lo] == '+' {
        assert(s.drop_first() =~= cs@.subrange(lo + 1, hi as int));
        read_digits(cs, lo + 1, hi, radix, limit)
    } else {
        read_digits(cs, lo, hi, radix, limit)
    }
}

/// The int that `cs[lo..hi]` spells, when it is in range.
fn read_signed(cs: &Vec<char>, lo: usize, hi: usize, radix: u32) -> (r: Option<i32>)
    requires
        lo <= hi <= cs@.len(),
        radix == 10 || radix == 16,
    ensures
        r == match integer_value(cs@.subrange(lo as int, hi as int), radix as nat, true) {
            Some(v) => if i32::MIN <= v <= i32::MAX {
                Some(v as i32)
            } else {
                None::<i32>
            },
            None => None::<i32>,
        },
{
    let ghost s = cs@.subrange(lo as int, hi as int);
    if lo < hi && cs[lo] == '+' {
        assert(s.drop_first() =~= cs@.subrange(lo + 1, hi as int));
        match read_digits(cs, lo + 1, hi, radix, 0x7fff_ffff) {
            Some(v) => Some(v as i32),
            None => None,
        }
    } else if lo < hi && cs[lo] == '-' {
        assert(s.drop_first() =~= cs@.subrange(lo + 1, hi as int));
        match read_digits(cs, lo + 1, hi, radix, 0x8000_0000) {
            Some(v) => Some((0i64 - v as i64) as i32),
            None => None,
        }
    } else {
        match read_digits(cs, lo, hi, radix, 0x7fff_ffff) {
            Some(v) => Some(v as i32),
            None => None,
        }
    }
}

/// Reads a numeric token: a number, in radix 16 after a `0x` marker, and
/// after a `:` the kind `byte`, `word` or `int` (a byte when there is none).
pub fn parse_num_type(token: &str) -> (r: Option<Value>)
    ensures
        option_view(r) == number_value(token@),
{
    let cs = chars_of(token);
    let n = cs.len();
    let c1 = find_colon(&cs, 0, n);
    let ghost t = token@;
    assert(cs@.subrange(0, n as int) =~= t);
    assert(number_field(t) =~= cs@.subrange(0, c1 as int));
    let hex = c1 >= 2 && cs[0] == '0' && cs[1] == 'x';
    let lo: usize = if hex {
        2
    } else {
        0
    };
    let radix: u32 = if hex {
        16
    } else {
        10
    };
    assert(has_hex_marker(number_field(t)) == hex);
    assert(hex ==> number_field(t).skip(2) =~= cs@.subrange(2, c1 as int));
    let kind: u8 = if c1 == n {
        0
    } else {
        let c2 = find_colon(&cs, c1 + 1, n);
        assert(t.skip(c1 + 1) =~= cs@.subrange(c1 + 1, n as int));
        assert(kind_field(t) =~= cs@.subrange(c1 + 1, c2 as int));
        kind_code(&cs, c1 + 1, c2)
    };
    if kind == 0 {
        match read_unsigned(&cs, lo, c1, radix, 0xff) {
            Some(v) => Some(Value::Byte(v as u8)),
            None => None,
        }
    } else if kind == 1 {
        match read_unsigned(&cs, lo, c1, radix, 0xffff) {
            Some(v) => Some(Value::Word(v as u16)),
            None => None,
        }
    } else if kind == 2 {
        match read_signed(&cs, lo, c1, radix) {
            Some(v) => Some(Value::Int(v)),
            None => None,
        }
    } else {
        None
    }
}

/// Reads a quoted token: the characters between the quotes.
pub fn parse_string(token: &str) -> (r: Option<Value>)
    ensures
        option_view(r) == string_value(token@),
{
    let n = token.unicode_len();
    if n >= 2 && token.get_char(0) == '"' && token.get_char(n - 1) == '"' {
        let inner = token.substring_char(1, n - 1);
        Some(Value::String(inner.to_owned()))
    } else {
        None
    }
}

/// Reads a command name: the command's opcode, as a word.
pub fn parse_command(token: &str) -> (r: Option<Value>)
    ensures
        option_view(r) == match COMMANDS::from_name_spec(token@) {
            Some(c) => Some(ValueView::Word(c.code())),
            None => None::<ValueView>,
        },
{
    match COMMANDS::from_name(token) {
        Some(c) => Some(Value::Word(c.code())),
        None => None,
    }
}

/// Reads a token: a command name, else a number, else a quoted string.
pub fn parse_token(token: &str) -> (r: Option<Value>)
    ensures
        option_view(r) == token_value(token@),
{
    if let Some(v) = parse_command(token) {
        return Some(v);
    }
    if let Some(v) = parse_num_type(token) {
        return Some(v);
    }
    parse_string(token)
}

proof fn lemma_words_blank(s: Seq<char>, i: int)
    requires
        0 <= i < s.len(),
        is_blank(s[i]),
    ensures
        words(s.skip(i)) == words(s.skip(i + 1)),
{
    assert(s.skip(i).drop_first() =~= s.skip(i + 1));
}

proof fn lemma_words_word(s: Seq<char>, i: int, j: int)
    requires
        0 <= i < j <= s.len(),
        forall|k: int| i <= k < j ==> !is_blank(#[trigger] s[k]),
        j == s.len() || is_blank(s[j]),
    ensures
        words(s.skip(i)) == seq![s.subrange(i, j)] + words(s.skip(j)),
{
    let t = s.skip(i);
    assert forall|k: int| 0 <= k < j - i implies !is_blank(#[trigger] t[k]) by {
        assert(t[k] == s[i + k]);
    }
    assert(j - i == t.len() || t[j - i] == s[j]);
    lemma_word_len(t, j - i);
    assert(t.take(j - i) =~= s.subrange(i, j));
    assert(t.skip(j - i) =~= s.skip(j));
}

/// Reads the whitespace-separated tokens of a line, or `None` when one of
/// them is no token.
pub fn parse_line(line: &str) -> (r: Option<Vec<Value>>)
    ensures
        match r {
            Some(vs) => line_values(line@) == Some(vs@.map_values(|v: Value| v@)),
            None => line_values(line@) is None,
        },
{
    let cs = chars_of(line);
    let n = cs.len();
    let ghost s = line@;
    let ghost mut done: Seq<Seq<char>> = Seq::empty();
    let mut out: Vec<Value> = Vec::new();
    let mut i: usize = 0;
    assert(s.skip(0) =~= s);
    while i < n
        invariant
            i <= n,
            n == s.len(),
            cs@ == s,
            s == line@,
            words(s) == done + words(s.skip(i as int)),
            out@.len() == done.len(),
            forall|k: int| 0 <= k < done.len() ==> (#[trigger] token_value(done[k])) is Some,
            forall|k: int|
                0 <= k < done.len() ==> token_value(#[trigger] done[k]) == Some(out@[k]@),
        decreases n - i,
    {
        if is_blank_char(cs[i]) {
            proof {
                lemma_words_blank(s, i as int);
            }
            i += 1;
        } else {
            let mut j: usize = i + 1;
            while j < n && !is_blank_char(cs[j])
                invariant
                    i < j <= n,
                    n == s.len(),
                    cs@ == s,
                    forall|k: int| i <= k < j ==> !is_blank(#[trigger] s[k]),
                decreases n - j,
            {
                j += 1;
            }
            proof {
                lemma_words_word(s, i as int, j as int);
            }
            let token = line.substring_char(i, j);
            match parse_token(token) {
                Some(v) => {
                    proof {
                        done = done.push(s.subrange(i as int, j as int));
                    }
                    out.push(v);
                    assert(words(s) =~= done + words(s.skip(j as int)));
                },
                None => {
                    let ghost ws = words(s);
                    assert(ws[done.len() as int] == s.subrange(i as int, j as int));
                    assert(token_value(ws[done.len() as int]) is None);
                    return None;
                },
            }
            i = j;
        }
    }
    assert(s.skip(i as int) =~= Seq::<char>::empty());
    assert(done =~= words(s));
    assert(out@.map_values(|v: Value| v@) =~= words(s).map_values(
        |w: Seq<char>| token_value(w)->Some_0,
    ));
    Some(out)
}

fn is_blank_char(c: char) -> (r: bool)
    ensures
        r == is_blank(c),
{
    c == ' ' || c == '\t' || c == '\n' || c == '\x0C' || c == '\r'
}

} // verus!
