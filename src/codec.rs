//! The wire codec: the bytes of each value, and reading a value of a known
//! shape back from bytes.
use crate::value::{
    is_rectangular, rows_view, string_fits, strings_view, IntTable, Shape, Value, ValueView,
    MAX_COUNT,
};
use crate::wire::{
    int_at, int_bytes, read_int_be, read_word_be, word_at, word_bytes, write_int_be, write_word_be,
};
use vstd::prelude::*;
use vstd::utf8::{decode_utf8, encode_utf8, valid_utf8};

verus! {

/// The byte of a flag.
pub open spec fn bool_byte(b: bool) -> u8 {
    if b {
        1
    } else {
        0
    }
}

/// The parts one after the other.
pub open spec fn concat(parts: Seq<Seq<u8>>) -> Seq<u8>
    decreases parts.len(),
{
    if parts.len() == 0 {
        Seq::empty()
    } else {
        concat(parts.drop_last()) + parts.last()
    }
}

/// The bytes of a string: its UTF-8 length as a word, then its UTF-8 bytes.
pub open spec fn string_bytes(s: Seq<char>) -> Seq<u8> {
    word_bytes(encode_utf8(s).len() as u16) + encode_utf8(s)
}

/// The bytes of each int, in order, with no count.
pub open spec fn ints_bytes(xs: Seq<i32>) -> Seq<u8> {
    concat(xs.map_values(|x: i32| int_bytes(x)))
}

/// The bytes of each string, in order, with no count.
pub open spec fn strings_bytes(xs: Seq<Seq<char>>) -> Seq<u8> {
    concat(xs.map_values(|s: Seq<char>| string_bytes(s)))
}

/// The bytes of each row, in order, with no count.
pub open spec fn rows_bytes(rows: Seq<Seq<i32>>) -> Seq<u8> {
    concat(rows.map_values(|r: Seq<i32>| ints_bytes(r)))
}

/// The four-byte count field.
pub open spec fn count_bytes(n: nat) -> Seq<u8> {
    int_bytes(n as i32)
}

/// The wire encoding of a value.
pub open spec fn encode(v: ValueView) -> Seq<u8> {
    match v {
        ValueView::Bool(b) => seq![bool_byte(b)],
        ValueView::Byte(x) => seq![x],
        ValueView::Word(x) => word_bytes(x),
        ValueView::Int(x) => int_bytes(x),
        ValueView::String(s) => string_bytes(s),
        ValueView::BoolList(xs) => count_bytes(xs.len()) + xs.map_values(|b: bool| bool_byte(b)),
        ValueView::ByteList(xs) => count_bytes(xs.len()) + xs,
        ValueView::IntList(xs) => count_bytes(xs.len()) + ints_bytes(xs),
        ValueView::StringList(xs) => count_bytes(xs.len()) + strings_bytes(xs),
        ValueView::IntPair(a, b) => int_bytes(a) + int_bytes(b),
        ValueView::IntQuad(a, b, c, d) => int_bytes(a) + int_bytes(b) + int_bytes(c) + int_bytes(d),
        ValueView::IntTable(cols, rows) => count_bytes(rows.len()) + count_bytes(cols) + rows_bytes(
            rows,
        ),
    }
}

/// The encodings of the values one after the other.
pub open spec fn encode_all(vs: Seq<ValueView>) -> Seq<u8> {
    concat(vs.map_values(|v: ValueView| encode(v)))
}

proof fn lemma_concat_push(parts: Seq<Seq<u8>>, p: Seq<u8>)
    ensures
        concat(parts.push(p)) == concat(parts) + p,
{
    assert(parts.push(p).drop_last() =~= parts);
}

pub proof fn lemma_ints_bytes_push(xs: Seq<i32>, x: i32)
    ensures
        ints_bytes(xs.push(x)) == ints_bytes(xs) + int_bytes(x),
{
    assert(xs.push(x).map_values(|y: i32| int_bytes(y)) =~= xs.map_values(|y: i32| int_bytes(y)).push(
        int_bytes(x),
    ));
    lemma_concat_push(xs.map_values(|y: i32| int_bytes(y)), int_bytes(x));
}

pub proof fn lemma_strings_bytes_push(xs: Seq<Seq<char>>, x: Seq<char>)
    ensures
        strings_bytes(xs.push(x)) == strings_bytes(xs) + string_bytes(x),
{
    assert(xs.push(x).map_values(|y: Seq<char>| string_bytes(y)) =~= xs.map_values(
        |y: Seq<char>| string_bytes(y),
    ).push(string_bytes(x)));
    lemma_concat_push(xs.map_values(|y: Seq<char>| string_bytes(y)), string_bytes(x));
}

pub proof fn lemma_rows_bytes_push(rows: Seq<Seq<i32>>, r: Seq<i32>)
    ensures
        rows_bytes(rows.push(r)) == rows_bytes(rows) + ints_bytes(r),
{
    assert(rows.push(r).map_values(|y: Seq<i32>| ints_bytes(y)) =~= rows.map_values(
        |y: Seq<i32>| ints_bytes(y),
    ).push(ints_bytes(r)));
    lemma_concat_push(rows.map_values(|y: Seq<i32>| ints_bytes(y)), ints_bytes(r));
}

fn push_word(out: &mut Vec<u8>, n: u16)
    ensures
        final(out)@ == old(out)@ + word_bytes(n),
{
    let b = write_word_be(n);
    out.push(b[0]);
    out.push(b[1]);
    assert(final(out)@ =~= old(out)@ + word_bytes(n));
}

fn push_int(out: &mut Vec<u8>, n: i32)
    ensures
        final(out)@ == old(out)@ + int_bytes(n),
{
    let b = write_int_be(n);
    out.push(b[0]);
    out.push(b[1]);
    out.push(b[2]);
    out.push(b[3]);
    assert(final(out)@ =~= old(out)@ + int_bytes(n));
}

fn push_count(out: &mut Vec<u8>, n: usize)
    requires
        n <= MAX_COUNT,
    ensures
        final(out)@ == old(out)@ + count_bytes(n as nat),
{
    push_int(out, n as i32);
}

fn push_string(out: &mut Vec<u8>, s: &String)
    requires
        string_fits(s@),
    ensures
        final(out)@ == old(out)@ + string_bytes(s@),
{
    let bytes = s.as_str().as_bytes();
    push_word(out, bytes.len() as u16);
    let ghost start = out@;
    let mut i: usize = 0;
    while i < bytes.len()
        invariant
            i <= bytes@.len(),
            bytes@ == encode_utf8(s@),
            out@ == start + bytes@.take(i as int),
        decreases bytes@.len() - i,
    {
        out.push(bytes[i]);
        assert(bytes@.take(i + 1) =~= bytes@.take(i as int).push(bytes@[i as int]));
        i += 1;
    }
    assert(bytes@.take(i as int) =~= bytes@);
}

fn push_ints(out: &mut Vec<u8>, xs: &Vec<i32>)
    ensures
        final(out)@ == old(out)@ + ints_bytes(xs@),
{
    let ghost start = out@;
    let mut i: usize = 0;
    while i < xs.len()
        invariant
            i <= xs@.len(),
            out@ == start + ints_bytes(xs@.take(i as int)),
        decreases xs@.len() - i,
    {
        push_int(out, xs[i]);
        proof {
            assert(xs@.take(i + 1) =~= xs@.take(i as int).push(xs@[i as int]));
            lemma_ints_bytes_push(xs@.take(i as int), xs@[i as int]);
        }
        assert(out@ =~= start + ints_bytes(xs@.take(i + 1)));
        i += 1;
    }
    assert(xs@.take(i as int) =~= xs@);
}

fn push_strings(out: &mut Vec<u8>, xs: &Vec<String>)
    requires
        forall|i: int| 0 <= i < xs@.len() ==> string_fits(#[trigger] strings_view(xs@)[i]),
    ensures
        final(out)@ == old(out)@ + strings_bytes(strings_view(xs@)),
{
    let ghost start = out@;
    let ghost xv = strings_view(xs@);
    let mut i: usize = 0;
    while i < xs.len()
        invariant
            i <= xs@.len(),
            xv == strings_view(xs@),
            forall|j: int| 0 <= j < xs@.len() ==> string_fits(#[trigger] xv[j]),
            out@ == start + strings_bytes(xv.take(i as int)),
        decreases xs@.len() - i,
    {
        assert(xv[i as int] == xs@[i as int]@);
        push_string(out, &xs[i]);
        proof {
            assert(xv.take(i + 1) =~= xv.take(i as int).push(xv[i as int]));
            lemma_strings_bytes_push(xv.take(i as int), xv[i as int]);
        }
        assert(out@ =~= start + strings_bytes(xv.take(i + 1)));
        i += 1;
    }
    assert(xv.take(i as int) =~= xv);
}

fn push_rows(out: &mut Vec<u8>, rows: &Vec<Vec<i32>>)
    ensures
        final(out)@ == old(out)@ + rows_bytes(rows_view(rows@)),
{
    let ghost start = out@;
    let ghost rv = rows_view(rows@);
    let mut i: usize = 0;
    while i < rows.len()
        invariant
            i <= rows@.len(),
            rv == rows_view(rows@),
            out@ == start + rows_bytes(rv.take(i as int)),
        decreases rows@.len() - i,
    {
        assert(rv[i as int] == rows@[i as int]@);
        push_ints(out, &rows[i]);
        proof {
            assert(rv.take(i + 1) =~= rv.take(i as int).push(rv[i as int]));
            lemma_rows_bytes_push(rv.take(i as int), rv[i as int]);
        }
        assert(out@ =~= start + rows_bytes(rv.take(i + 1)));
        i += 1;
    }
    assert(rv.take(i as int) =~= rv);
}

/// Appends the wire encoding of `v` to `out`.
pub fn encode_into(out: &mut Vec<u8>, v: &Value)
    requires
        v@.wf(),
    ensures
        final(out)@ == old(out)@ + encode(v@),
{
    match v {
        Value::Bool(b) => {
            out.push(if *b { 1u8 } else { 0u8 });
            assert(final(out)@ =~= old(out)@ + encode(v@));
        },
        Value::Byte(x) => {
            out.push(*x);
            assert(final(out)@ =~= old(out)@ + encode(v@));
        },
        Value::Word(x) => push_word(out, *x),
        Value::Int(x) => push_int(out, *x),
        Value::String(s) => push_string(out, s),
        Value::BoolList(xs) => {
            push_count(out, xs.len());
            let ghost start = out@;
            let mut i: usize = 0;
            while i < xs.len()
                invariant
                    i <= xs@.len(),
                    out@ == start + xs@.take(i as int).map_values(|b: bool| bool_byte(b)),
                decreases xs@.len() - i,
            {
                out.push(if xs[i] { 1u8 } else { 0u8 });
                assert(xs@.take(i + 1).map_values(|b: bool| bool_byte(b)) =~= xs@.take(
                    i as int,
                ).map_values(|b: bool| bool_byte(b)).push(bool_byte(xs@[i as int])));
                i += 1;
            }
            assert(xs@.take(i as int) =~= xs@);
            assert(final(out)@ =~= old(out)@ + encode(v@));
        },
        Value::ByteList(xs) => {
            push_count(out, xs.len());
            let ghost start = out@;
            let mut i: usize = 0;
            while i < xs.len()
                invariant
                    i <= xs@.len(),
                    out@ == start + xs@.take(i as int),
                decreases xs@.len() - i,
            {
                out.push(xs[i]);
                assert(xs@.take(i + 1) =~= xs@.take(i as int).push(xs@[i as int]));
                i += 1;
            }
            assert(xs@.take(i as int) =~= xs@);
            assert(final(out)@ =~= old(out)@ + encode(v@));
        },
        Value::IntList(xs) => {
            push_count(out, xs.len());
            push_ints(out, xs);
            assert(final(out)@ =~= old(out)@ + encode(v@));
        },
        Value::StringList(xs) => {
            push_count(out, xs.len());
            push_strings(out, xs);
            assert(final(out)@ =~= old(out)@ + encode(v@));
        },
        Value::IntPair(a, b) => {
            push_int(out, *a);
            push_int(out, *b);
            assert(final(out)@ =~= old(out)@ + encode(v@));
        },
        Value::IntQuad(a, b, c, d) => {
            push_int(out, *a);
            push_int(out, *b);
            push_int(out, *c);
            push_int(out, *d);
            assert(final(out)@ =~= old(out)@ + encode(v@));
        },
        Value::IntTable(t) => {
            let rows = t.rows();
            push_count(out, rows.len());
            push_count(out, t.cols());
            push_rows(out, rows);
            assert(final(out)@ =~= old(out)@ + encode(v@));
        },
    }
}

/// The wire encoding of `v`.
pub fn encode_value(v: &Value) -> (r: Vec<u8>)
    requires
        v@.wf(),
    ensures
        r@ == encode(v@),
{
    let mut out: Vec<u8> = Vec::new();
    encode_into(&mut out, v);
    assert(out@ =~= encode(v@));
    out
}

/// Why bytes do not hold a value of the expected shape.
#[derive(Clone, Copy, Debug, PartialEq, Eq, Structural)]
pub enum DecodeError {
    /// The bytes end before a declared length, count or dimension is met.
    Truncated,
    /// A string's bytes are not UTF-8.
    InvalidUtf8,
    /// A count or dimension field is negative.
    NegativeCount,
}

/// The count field at `pos`.
pub open spec fn count_at(b: Seq<u8>, pos: int) -> Result<nat, DecodeError> {
    if b.len() < pos + 4 {
        Err(DecodeError::Truncated)
    } else if int_at(b, pos) < 0 {
        Err(DecodeError::NegativeCount)
    } else {
        Ok(int_at(b, pos) as nat)
    }
}

/// A string at the start of `b`, and the bytes it takes.
pub open spec fn decode_string(b: Seq<u8>) -> Result<(Seq<char>, nat), DecodeError> {
    if b.len() < 2 {
        Err(DecodeError::Truncated)
    } else if b.len() < 2 + word_at(b, 0) {
        Err(DecodeError::Truncated)
    } else if !valid_utf8(b.subrange(2, 2 + word_at(b, 0))) {
        Err(DecodeError::InvalidUtf8)
    } else {
        Ok((decode_utf8(b.subrange(2, 2 + word_at(b, 0))), (2 + word_at(b, 0)) as nat))
    }
}

/// `count` strings one after the other at the start of `b`, and the bytes
/// they take.
pub open spec fn decode_strings(b: Seq<u8>, count: nat) -> Result<(Seq<Seq<char>>, nat), DecodeError>
    decreases count,
{
    if count == 0 {
        Ok((Seq::empty(), 0))
    } else {
        match decode_strings(b, (count - 1) as nat) {
            Err(e) => Err(e),
            Ok((xs, used)) => match decode_string(b.skip(used as int)) {
                Err(e) => Err(e),
                Ok((s, n)) => Ok((xs.push(s), used + n)),
            },
        }
    }
}

/// The cell of row `i` and column `j` of a table of `cols` columns whose
/// cells start at `pos`, row after row.
pub open spec fn cell_at(b: Seq<u8>, pos: int, cols: nat, i: int, j: int) -> i32 {
    int_at(b, pos + 4 * (i * cols + j))
}

/// A value of the given shape at the start of `b`, and the bytes it takes.
pub open spec fn decode(shape: Shape, b: Seq<u8>) -> Result<(ValueView, nat), DecodeError> {
    match shape {
        Shape::Bool => if b.len() < 1 {
            Err(DecodeError::Truncated)
        } else {
            Ok((ValueView::Bool(b[0] != 0), 1))
        },
        Shape::Byte => if b.len() < 1 {
            Err(DecodeError::Truncated)
        } else {
            Ok((ValueView::Byte(b[0]), 1))
        },
        Shape::Word => if b.len() < 2 {
            Err(DecodeError::Truncated)
        } else {
            Ok((ValueView::Word(word_at(b, 0)), 2))
        },
        Shape::Int => if b.len() < 4 {
            Err(DecodeError::Truncated)
        } else {
            Ok((ValueView::Int(int_at(b, 0)), 4))
        },
        Shape::String => match decode_string(b) {
            Err(e) => Err(e),
            Ok((s, n)) => Ok((ValueView::String(s), n)),
        },
        Shape::BoolList => match count_at(b, 0) {
            Err(e) => Err(e),
            Ok(c) => if b.len() < 4 + c {
                Err(DecodeError::Truncated)
            } else {
                Ok((ValueView::BoolList(Seq::new(c, |i: int| b[4 + i] != 0)), 4 + c))
            },
        },
        Shape::ByteList => match count_at(b, 0) {
            Err(e) => Err(e),
            Ok(c) => if b.len() < 4 + c {
                Err(DecodeError::Truncated)
            } else {
                Ok((ValueView::ByteList(b.subrange(4, 4 + c as int)), 4 + c))
            },
        },
        Shape::IntList => match count_at(b, 0) {
            Err(e) => Err(e),
            Ok(c) => if b.len() < 4 + 4 * c {
                Err(DecodeError::Truncated)
            } else {
                Ok((ValueView::IntList(Seq::new(c, |i: int| int_at(b, 4 + 4 * i))), 4 + 4 * c))
            },
        },
        Shape::StringList => match count_at(b, 0) {
            Err(e) => Err(e),
            Ok(c) => match decode_strings(b.skip(4), c) {
                Err(e) => Err(e),
                Ok((xs, n)) => Ok((ValueView::StringList(xs), 4 + n)),
            },
        },
        Shape::IntPair => if b.len() < 8 {
            Err(DecodeError::Truncated)
        } else {
            Ok((ValueView::IntPair(int_at(b, 0), int_at(b, 4)), 8))
        },
        Shape::IntQuad => if b.len() < 16 {
            Err(DecodeError::Truncated)
        } else {
            Ok((ValueView::IntQuad(int_at(b, 0), int_at(b, 4), int_at(b, 8), int_at(b, 12)), 16))
        },
        Shape::IntTable => match count_at(b, 0) {
            Err(e) => Err(e),
            Ok(rows) => match count_at(b, 4) {
                Err(e) => Err(e),
                Ok(cols) => if b.len() < 8 + 4 * (rows * cols) {
                    Err(DecodeError::Truncated)
                } else {
                    Ok((
                        ValueView::IntTable(
                            cols,
                            Seq::new(rows, |i: int| Seq::new(cols, |j: int| cell_at(b, 8, cols, i, j))),
                        ),
                        8 + 4 * (rows * cols),
                    ))
                },
            },
        },
    }
}

fn read_int_at(b: &[u8], pos: usize) -> (r: i32)
    requires
        pos + 4 <= b@.len(),
    ensures
        r == int_at(b@, pos as int),
{
    assert(b@.len() == b.len());
    read_int_be(&b[pos..pos + 4])
}

fn read_count(b: &[u8], pos: usize) -> (r: Result<usize, DecodeError>)
    requires
        pos + 4 <= usize::MAX,
    ensures
        match r {
            Ok(c) => count_at(b@, pos as int) == Ok::<nat, DecodeError>(c as nat),
            Err(e) => count_at(b@, pos as int) == Err::<nat, DecodeError>(e),
        },
        r matches Ok(c) ==> c <= MAX_COUNT,
{
    if b.len() < pos + 4 {
        return Err(DecodeError::Truncated);
    }
    let n = read_int_at(b, pos);
    if n < 0 {
        Err(DecodeError::NegativeCount)
    } else {
        Ok(n as usize)
    }
}

/// Relies on `String::from_utf8`: it succeeds exactly on valid UTF-8, and
/// the string then holds those bytes.
#[verifier::external_body]
fn string_from_utf8(bytes: Vec<u8>) -> (r: Option<String>)
    ensures
        match r {
            Some(s) => encode_utf8(s@) == bytes@,
            None => !valid_utf8(bytes@),
        },
{
    String::from_utf8(bytes).ok()
}

fn read_string(b: &[u8]) -> (r: Result<(String, usize), DecodeError>)
    ensures
        match r {
            Ok((s, n)) => decode_string(b@) == Ok::<(Seq<char>, nat), DecodeError>((s@, n as nat)),
            Err(e) => decode_string(b@) == Err::<(Seq<char>, nat), DecodeError>(e),
        },
        r matches Ok((_, n)) ==> n <= b@.len(),
{
    if b.len() < 2 {
        return Err(DecodeError::Truncated);
    }
    let n = read_word_be(b) as usize;
    if b.len() - 2 < n {
        return Err(DecodeError::Truncated);
    }
    let bytes = vstd::slice::slice_to_vec(&b[2..2 + n]);
    match string_from_utf8(bytes) {
        Some(s) => {
            proof {
                vstd::utf8::encode_utf8_decode_utf8(s@);
                vstd::utf8::encode_utf8_valid_utf8(s@);
            }
            Ok((s, 2 + n))
        },
        None => Err(DecodeError::InvalidUtf8),
    }
}

proof fn lemma_decode_strings_err(b: Seq<u8>, i: nat, count: nat, e: DecodeError)
    requires
        i <= count,
        decode_strings(b, i) == Err::<(Seq<Seq<char>>, nat), DecodeError>(e),
    ensures
        decode_strings(b, count) == Err::<(Seq<Seq<char>>, nat), DecodeError>(e),
    decreases count - i,
{
    if i < count {
        lemma_decode_strings_err(b, i, (count - 1) as nat, e);
    }
}

fn read_strings(b: &[u8], count: usize) -> (r: Result<(Vec<String>, usize), DecodeError>)
    ensures
        match r {
            Ok((xs, n)) => decode_strings(b@, count as nat) == Ok::<(Seq<Seq<char>>, nat), DecodeError>(
                (strings_view(xs@), n as nat),
            ),
            Err(e) => decode_strings(b@, count as nat) == Err::<(Seq<Seq<char>>, nat), DecodeError>(e),
        },
        r matches Ok((_, n)) ==> n <= b@.len(),
{
    let mut xs: Vec<String> = Vec::new();
    let mut used: usize = 0;
    let mut i: usize = 0;
    assert(strings_view(xs@) =~= Seq::<Seq<char>>::empty());
    while i < count
        invariant
            i <= count,
            used <= b@.len(),
            decode_strings(b@, i as nat) == Ok::<(Seq<Seq<char>>, nat), DecodeError>(
                (strings_view(xs@), used as nat),
            ),
        decreases count - i,
    {
        let rest = &b[used..b.len()];
        assert(rest@ =~= b@.skip(used as int));
        match read_string(rest) {
            Err(e) => {
                proof {
                    lemma_decode_strings_err(b@, (i + 1) as nat, count as nat, e);
                }
                return Err(e);
            },
            Ok((s, n)) => {
                let ghost prev = strings_view(xs@);
                let ghost sv = s@;
                xs.push(s);
                assert(strings_view(xs@) =~= prev.push(sv));
                used = used + n;
            },
        }
        i += 1;
    }
    Ok((xs, used))
}

/// Whether an exec result of decoding is the one that `decode` gives.
pub open spec fn decode_result_matches(
    r: Result<(Value, usize), DecodeError>,
    spec: Result<(ValueView, nat), DecodeError>,
) -> bool {
    match r {
        Ok((v, n)) => spec == Ok::<(ValueView, nat), DecodeError>((v@, n as nat)),
        Err(e) => spec == Err::<(ValueView, nat), DecodeError>(e),
    }
}

fn read_bool_list(b: &[u8]) -> (r: Result<(Value, usize), DecodeError>)
    ensures
        decode_result_matches(r, decode(Shape::BoolList, b@)),
        r matches Ok((_, n)) ==> n <= b@.len(),
{
    let c = match read_count(b, 0) {
        Ok(c) => c,
        Err(e) => return Err(e),
    };
    if b.len() - 4 < c {
        return Err(DecodeError::Truncated);
    }
    let mut xs: Vec<bool> = Vec::with_capacity(c);
    let mut i: usize = 0;
    while i < c
        invariant
            i <= c,
            4 + c <= b@.len(),
            b@.len() <= usize::MAX,
            xs@ == Seq::new(i as nat, |j: int| b@[4 + j] != 0),
        decreases c - i,
    {
        xs.push(b[4 + i] != 0);
        assert(xs@ =~= Seq::new((i + 1) as nat, |j: int| b@[4 + j] != 0));
        i += 1;
    }
    Ok((Value::BoolList(xs), 4 + c))
}

fn read_byte_list(b: &[u8]) -> (r: Result<(Value, usize), DecodeError>)
    ensures
        decode_result_matches(r, decode(Shape::ByteList, b@)),
        r matches Ok((_, n)) ==> n <= b@.len(),
{
    let c = match read_count(b, 0) {
        Ok(c) => c,
        Err(e) => return Err(e),
    };
    if b.len() - 4 < c {
        return Err(DecodeError::Truncated);
    }
    let xs = vstd::slice::slice_to_vec(&b[4..4 + c]);
    Ok((Value::ByteList(xs), 4 + c))
}

fn read_int_list(b: &[u8]) -> (r: Result<(Value, usize), DecodeError>)
    ensures
        decode_result_matches(r, decode(Shape::IntList, b@)),
        r matches Ok((_, n)) ==> n <= b@.len(),
{
    let c = match read_count(b, 0) {
        Ok(c) => c,
        Err(e) => return Err(e),
    };
    if (b.len() as u64) < 4 + 4 * (c as u64) {
        return Err(DecodeError::Truncated);
    }
    let mut xs: Vec<i32> = Vec::with_capacity(c);
    let mut i: usize = 0;
    while i < c
        invariant
            i <= c,
            4 + 4 * c <= b@.len(),
            b@.len() <= usize::MAX,
            xs@ == Seq::new(i as nat, |j: int| int_at(b@, 4 + 4 * j)),
        decreases c - i,
    {
        xs.push(read_int_at(b, 4 + 4 * i));
        assert(xs@ =~= Seq::new((i + 1) as nat, |j: int| int_at(b@, 4 + 4 * j)));
        i += 1;
    }
    Ok((Value::IntList(xs), 4 + 4 * c))
}

fn read_string_list(b: &[u8]) -> (r: Result<(Value, usize), DecodeError>)
    ensures
        decode_result_matches(r, decode(Shape::StringList, b@)),
        r matches Ok((_, n)) ==> n <= b@.len(),
{
    let c = match read_count(b, 0) {
        Ok(c) => c,
        Err(e) => return Err(e),
    };
    let rest = &b[4..b.len()];
    assert(rest@ =~= b@.skip(4));
    match read_strings(rest, c) {
        Ok((xs, n)) => Ok((Value::StringList(xs), 4 + n)),
        Err(e) => Err(e),
    }
}

proof fn lemma_cell_step(rows: nat, cols: nat, i: nat, j: nat)
    requires
        i < rows,
        j < cols,
    ensures
        i * cols + j < rows * cols,
        i * cols + j + 1 <= rows * cols,
{
    assert(i * cols + j < rows * cols) by (nonlinear_arith)
        requires
            i < rows,
            j < cols,
    ;
}

fn read_int_table(b: &[u8]) -> (r: Result<(Value, usize), DecodeError>)
    ensures
        decode_result_matches(r, decode(Shape::IntTable, b@)),
        r matches Ok((_, n)) ==> n <= b@.len(),
{
    let rows = match read_count(b, 0) {
        Ok(c) => c,
        Err(e) => return Err(e),
    };
    let cols = match read_count(b, 4) {
        Ok(c) => c,
        Err(e) => return Err(e),
    };
    assert((rows as u64) * (cols as u64) <= 0x3fff_ffff_0000_0001u64) by (nonlinear_arith)
        requires
            rows <= 0x7fff_ffffu64,
            cols <= 0x7fff_ffffu64,
    ;
    if (b.len() as u64) < 8 + 4 * ((rows as u64) * (cols as u64)) {
        return Err(DecodeError::Truncated);
    }
    let ghost b_view = b@;
    let ghost expect = Seq::new(
        rows as nat,
        |i: int| Seq::new(cols as nat, |j: int| cell_at(b_view, 8, cols as nat, i, j)),
    );
    let mut data: Vec<Vec<i32>> = Vec::with_capacity(rows);
    let mut pos: usize = 8;
    let mut i: usize = 0;
    while i < rows
        invariant
            i <= rows,
            b_view == b@,
            8 + 4 * (rows * cols) <= b@.len(),
            b@.len() <= usize::MAX,
            pos == 8 + 4 * (i * cols),
            expect.len() == rows,
            forall|k: int| 0 <= k < rows ==> (#[trigger] expect[k]).len() == cols,
            forall|k: int, l: int|
                0 <= k < rows && 0 <= l < cols ==> #[trigger] expect[k][l] == cell_at(
                    b_view,
                    8,
                    cols as nat,
                    k,
                    l,
                ),
            rows_view(data@) == expect.take(i as int),
            is_rectangular(cols as nat, rows_view(data@)),
        decreases rows - i,
    {
        let mut row: Vec<i32> = Vec::with_capacity(cols);
        let mut j: usize = 0;
        while j < cols
            invariant
                i < rows,
                j <= cols,
                b_view == b@,
                8 + 4 * (rows * cols) <= b@.len(),
                b@.len() <= usize::MAX,
                pos == 8 + 4 * (i * cols + j),
                row@ == Seq::new(j as nat, |k: int| cell_at(b_view, 8, cols as nat, i as int, k)),
            decreases cols - j,
        {
            proof {
                lemma_cell_step(rows as nat, cols as nat, i as nat, j as nat);
            }
            row.push(read_int_at(b, pos));
            assert(row@ =~= Seq::new(
                (j + 1) as nat,
                |k: int| cell_at(b_view, 8, cols as nat, i as int, k),
            ));
            pos = pos + 4;
            j += 1;
        }
        let ghost prev = rows_view(data@);
        let ghost rv = row@;
        data.push(row);
        assert(rows_view(data@) =~= prev.push(rv));
        assert(rv =~= expect[i as int]);
        assert(expect.take(i + 1) =~= expect.take(i as int).push(rv));
        assert((i + 1) * cols == i * cols + cols) by (nonlinear_arith);
        i += 1;
    }
    assert(expect.take(i as int) =~= expect);
    let table = match IntTable::with_cols(cols, data) {
        Some(t) => t,
        None => return Err(DecodeError::Truncated),
    };
    Ok((Value::IntTable(table), pos))
}

/// Reads a value of the given shape from the start of `b`: the value and
/// the number of bytes it took, or why `b` does not start with one.
pub fn decode_value(shape: Shape, b: &[u8]) -> (r: Result<(Value, usize), DecodeError>)
    ensures
        decode_result_matches(r, decode(shape, b@)),
        r matches Ok((_, n)) ==> n <= b@.len(),
{
    match shape {
        Shape::Bool => {
            if b.len() < 1 {
                return Err(DecodeError::Truncated);
            }
            Ok((Value::Bool(b[0] != 0), 1))
        },
        Shape::Byte => {
            if b.len() < 1 {
                return Err(DecodeError::Truncated);
            }
            Ok((Value::Byte(b[0]), 1))
        },
        Shape::Word => {
            if b.len() < 2 {
                return Err(DecodeError::Truncated);
            }
            Ok((Value::Word(read_word_be(b)), 2))
        },
        Shape::Int => {
            if b.len() < 4 {
                return Err(DecodeError::Truncated);
            }
            Ok((Value::Int(read_int_at(b, 0)), 4))
        },
        Shape::String => match read_string(b) {
            Ok((s, n)) => Ok((Value::String(s), n)),
            Err(e) => Err(e),
        },
        Shape::BoolList => read_bool_list(b),
        Shape::ByteList => read_byte_list(b),
        Shape::IntList => read_int_list(b),
        Shape::StringList => read_string_list(b),
        Shape::IntPair => {
            if b.len() < 8 {
                return Err(DecodeError::Truncated);
            }
            Ok((Value::IntPair(read_int_at(b, 0), read_int_at(b, 4)), 8))
        },
        Shape::IntQuad => {
            if b.len() < 16 {
                return Err(DecodeError::Truncated);
            }
            Ok((
                Value::IntQuad(
                    read_int_at(b, 0),
                    read_int_at(b, 4),
                    read_int_at(b, 8),
                    read_int_at(b, 12),
                ),
                16,
            ))
        },
        Shape::IntTable => read_int_table(b),
    }
}

} // verus!
