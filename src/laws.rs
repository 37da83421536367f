//! Laws of the codec and of the classifier: decoding inverts encoding, and
//! classification agrees with the codes of every category.
use crate::codec::{
    lemma_ints_bytes_push, lemma_rows_bytes_push, lemma_strings_bytes_push,
    bool_byte, concat, count_at, count_bytes, decode, decode_string, decode_strings, encode,
    ints_bytes, rows_bytes, DecodeError, string_bytes, strings_bytes, cell_at,
};
use crate::value::{is_rectangular, string_fits, Shape, ValueView, MAX_COUNT};
use crate::wire::{
    int_at, int_bytes, lemma_int_bytes_of, lemma_int_round_trip, lemma_word_bytes_of,
    lemma_word_round_trip, word_at, word_bytes,
};
use crate::response::{category_of, spec_classify, Response};
use vstd::prelude::*;
use vstd::utf8::{
    decode_utf8_encode_utf8, encode_utf8, encode_utf8_decode_utf8, encode_utf8_valid_utf8,
};

verus! {

/// Byte `k` of part `i` of parts that all have `w` bytes stands at `i * w + k`.
proof fn lemma_concat_fixed_at(parts: Seq<Seq<u8>>, w: nat, i: int, k: int)
    requires
        forall|j: int| 0 <= j < parts.len() ==> (#[trigger] parts[j]).len() == w,
        0 <= i < parts.len(),
        0 <= k < w,
    ensures
        concat(parts).len() == parts.len() * w,
        i * w + k < parts.len() * w,
        concat(parts)[i * w + k] == parts[i][k],
    decreases parts.len(),
{
    let n = parts.len() - 1;
    let dl = parts.drop_last();
    lemma_concat_len(parts, w);
    if i < n {
        lemma_concat_fixed_at(dl, w, i, k);
        assert(i * w + k < n * w);
        assert(n * w + w == parts.len() * w) by (nonlinear_arith)
            requires
                n == parts.len() - 1,
        ;
    } else {
        lemma_concat_len(dl, w);
        assert(i * w + k < n * w + w);
        assert(n * w + w == parts.len() * w) by (nonlinear_arith)
            requires
                n == parts.len() - 1,
        ;
    }
}

proof fn lemma_concat_len(parts: Seq<Seq<u8>>, w: nat)
    requires
        forall|j: int| 0 <= j < parts.len() ==> (#[trigger] parts[j]).len() == w,
    ensures
        concat(parts).len() == parts.len() * w,
    decreases parts.len(),
{
    if parts.len() > 0 {
        let dl = parts.drop_last();
        assert forall|j: int| 0 <= j < dl.len() implies (#[trigger] dl[j]).len() == w by {
            assert(dl[j] == parts[j]);
        }
        lemma_concat_len(dl, w);
        assert((parts.len() - 1) * w + w == parts.len() * w) by (nonlinear_arith);
    }
}

proof fn lemma_int_at_bytes(b: Seq<u8>, pos: int, x: i32)
    requires
        0 <= pos,
        pos + 4 <= b.len(),
        b.subrange(pos, pos + 4) == int_bytes(x),
    ensures
        int_at(b, pos) == x,
{
    assert(b[pos] == b.subrange(pos, pos + 4)[0]);
    assert(b[pos + 1] == b.subrange(pos, pos + 4)[1]);
    assert(b[pos + 2] == b.subrange(pos, pos + 4)[2]);
    assert(b[pos + 3] == b.subrange(pos, pos + 4)[3]);
    lemma_int_round_trip(x);
}

proof fn lemma_ints_len(xs: Seq<i32>)
    ensures
        ints_bytes(xs).len() == 4 * xs.len(),
{
    let parts = xs.map_values(|x: i32| int_bytes(x));
    lemma_concat_len(parts, 4);
}

/// Bytes that hold `ints_bytes(xs)` from `pos` hold `xs[i]` at `pos + 4 * i`.
proof fn lemma_ints_at(b: Seq<u8>, pos: int, xs: Seq<i32>)
    requires
        0 <= pos,
        pos + 4 * xs.len() <= b.len(),
        b.subrange(pos, pos + 4 * xs.len()) == ints_bytes(xs),
    ensures
        forall|i: int| 0 <= i < xs.len() ==> int_at(b, pos + 4 * i) == #[trigger] xs[i],
{
    let parts = xs.map_values(|x: i32| int_bytes(x));
    assert forall|i: int| 0 <= i < xs.len() implies int_at(b, pos + 4 * i) == #[trigger] xs[i] by {
        assert forall|k: int| 0 <= k < 4 implies #[trigger] b.subrange(pos + 4 * i, pos + 4 * i + 4)[k]
            == int_bytes(xs[i])[k] by {
            lemma_concat_fixed_at(parts, 4, i, k);
            assert(b.subrange(pos, pos + 4 * xs.len())[i * 4 + k] == b[pos + i * 4 + k]);
        }
        assert(b.subrange(pos + 4 * i, pos + 4 * i + 4) =~= int_bytes(xs[i]));
        lemma_int_at_bytes(b, pos + 4 * i, xs[i]);
    }
}

proof fn lemma_decode_string_encode(s: Seq<char>, rest: Seq<u8>)
    requires
        string_fits(s),
    ensures
        decode_string(string_bytes(s) + rest) == Ok::<(Seq<char>, nat), DecodeError>(
            (s, string_bytes(s).len()),
        ),
{
    let e = encode_utf8(s);
    let b = string_bytes(s) + rest;
    lemma_word_round_trip(e.len() as u16);
    assert(b[0] == word_bytes(e.len() as u16)[0]);
    assert(b[1] == word_bytes(e.len() as u16)[1]);
    assert(word_at(b, 0) == e.len());
    assert(b.subrange(2, 2 + e.len() as int) =~= e);
    encode_utf8_valid_utf8(s);
    encode_utf8_decode_utf8(s);
}

proof fn lemma_decode_strings_encode(xs: Seq<Seq<char>>, rest: Seq<u8>)
    requires
        forall|i: int| 0 <= i < xs.len() ==> string_fits(#[trigger] xs[i]),
    ensures
        decode_strings(strings_bytes(xs) + rest, xs.len()) == Ok::<
            (Seq<Seq<char>>, nat),
            DecodeError,
        >((xs, strings_bytes(xs).len())),
    decreases xs.len(),
{
    if xs.len() == 0 {
        assert(xs =~= Seq::<Seq<char>>::empty());
        assert(strings_bytes(xs) + rest =~= rest);
    } else {
        let ys = xs.drop_last();
        let y = xs.last();
        assert(xs =~= ys.push(y));
        crate::codec::lemma_strings_bytes_push(ys, y);
        let b = strings_bytes(xs) + rest;
        assert(b =~= strings_bytes(ys) + (string_bytes(y) + rest));
        assert forall|i: int| 0 <= i < ys.len() implies string_fits(#[trigger] ys[i]) by {
            assert(ys[i] == xs[i]);
        }
        lemma_decode_strings_encode(ys, string_bytes(y) + rest);
        assert(b.skip(strings_bytes(ys).len() as int) =~= string_bytes(y) + rest);
        assert(string_fits(xs[xs.len() - 1]));
        lemma_decode_string_encode(y, rest);
    }
}

proof fn lemma_count_at(b: Seq<u8>, pos: int, n: nat)
    requires
        0 <= pos,
        pos + 4 <= b.len(),
        n <= MAX_COUNT,
        b.subrange(pos, pos + 4) == count_bytes(n),
    ensures
        count_at(b, pos) == Ok::<nat, DecodeError>(n),
{
    lemma_int_at_bytes(b, pos, n as i32);
}

/// Bytes that hold `rows_bytes(rows)` from `pos` hold cell `(i, j)` where
/// `cell_at` looks for it.
proof fn lemma_rows_at(b: Seq<u8>, pos: int, cols: nat, rows: Seq<Seq<i32>>)
    requires
        0 <= pos,
        is_rectangular(cols, rows),
        pos + rows_bytes(rows).len() <= b.len(),
        b.subrange(pos, pos + rows_bytes(rows).len()) == rows_bytes(rows),
    ensures
        rows_bytes(rows).len() == 4 * (rows.len() * cols),
        forall|i: int, j: int|
            0 <= i < rows.len() && 0 <= j < cols ==> cell_at(b, pos, cols, i, j) == #[trigger] rows[i][j],
{
    let parts = rows.map_values(|r: Seq<i32>| ints_bytes(r));
    let w = 4 * cols;
    assert forall|i: int| 0 <= i < parts.len() implies (#[trigger] parts[i]).len() == w by {
        lemma_ints_len(rows[i]);
    }
    lemma_concat_len(parts, w);
    assert(rows.len() * (4 * cols) == 4 * (rows.len() * cols)) by (nonlinear_arith);
    assert forall|i: int, j: int| 0 <= i < rows.len() && 0 <= j < cols implies cell_at(
        b,
        pos,
        cols,
        i,
        j,
    ) == #[trigger] rows[i][j] by {
        let inner = rows[i].map_values(|x: i32| int_bytes(x));
        let start = pos + 4 * (i * cols + j);
        assert(4 * (i * cols + j) == i * w + 4 * j) by (nonlinear_arith)
            requires
                w == 4 * cols,
        ;
        lemma_concat_fixed_at(parts, w, i, 4 * j + 3);
        assert forall|k: int| 0 <= k < 4 implies #[trigger] b.subrange(start, start + 4)[k]
            == int_bytes(rows[i][j])[k] by {
            lemma_concat_fixed_at(inner, 4, j, k);
            lemma_concat_fixed_at(parts, w, i, 4 * j + k);
            assert(b.subrange(pos, pos + rows_bytes(rows).len())[i * w + 4 * j + k] == b[pos + i
                * w + 4 * j + k]);
        }
        assert(b.subrange(start, start + 4) =~= int_bytes(rows[i][j]));
        lemma_int_at_bytes(b, start, rows[i][j]);
    }
}

/// Decoding the encoding of a value that the wire can carry, with the shape
/// of that value, gives the value back and takes exactly its bytes, whatever
/// follows them.
pub proof fn lemma_round_trip(v: ValueView, rest: Seq<u8>)
    requires
        v.wf(),
    ensures
        decode(v.shape(), encode(v) + rest) == Ok::<(ValueView, nat), DecodeError>(
            (v, encode(v).len()),
        ),
{
    let b = encode(v) + rest;
    match v {
        ValueView::Bool(x) => {
            assert(b[0] == bool_byte(x));
        },
        ValueView::Byte(x) => {
            assert(b[0] == x);
        },
        ValueView::Word(x) => {
            lemma_word_round_trip(x);
            assert(b[0] == word_bytes(x)[0]);
            assert(b[1] == word_bytes(x)[1]);
        },
        ValueView::Int(x) => {
            assert(b.subrange(0, 4) =~= int_bytes(x));
            lemma_int_at_bytes(b, 0, x);
        },
        ValueView::String(x) => {
            lemma_decode_string_encode(x, rest);
        },
        ValueView::BoolList(xs) => {
            assert(b.subrange(0, 4) =~= count_bytes(xs.len()));
            lemma_count_at(b, 0, xs.len());
            assert(Seq::new(xs.len(), |i: int| b[4 + i] != 0) =~= xs);
        },
        ValueView::ByteList(xs) => {
            assert(b.subrange(0, 4) =~= count_bytes(xs.len()));
            lemma_count_at(b, 0, xs.len());
            assert(b.subrange(4, 4 + xs.len() as int) =~= xs);
        },
        ValueView::IntList(xs) => {
            assert(b.subrange(0, 4) =~= count_bytes(xs.len()));
            lemma_count_at(b, 0, xs.len());
            lemma_ints_len(xs);
            assert(b.subrange(4, 4 + 4 * xs.len() as int) =~= ints_bytes(xs));
            lemma_ints_at(b, 4, xs);
            assert(Seq::new(xs.len(), |i: int| int_at(b, 4 + 4 * i)) =~= xs);
        },
        ValueView::StringList(xs) => {
            assert(b.subrange(0, 4) =~= count_bytes(xs.len()));
            lemma_count_at(b, 0, xs.len());
            assert(b.skip(4) =~= strings_bytes(xs) + rest);
            lemma_decode_strings_encode(xs, rest);
        },
        ValueView::IntPair(x, y) => {
            assert(b.subrange(0, 4) =~= int_bytes(x));
            assert(b.subrange(4, 8) =~= int_bytes(y));
            lemma_int_at_bytes(b, 0, x);
            lemma_int_at_bytes(b, 4, y);
        },
        ValueView::IntQuad(x, y, z, w) => {
            assert(b.subrange(0, 4) =~= int_bytes(x));
            assert(b.subrange(4, 8) =~= int_bytes(y));
            assert(b.subrange(8, 12) =~= int_bytes(z));
            assert(b.subrange(12, 16) =~= int_bytes(w));
            lemma_int_at_bytes(b, 0, x);
            lemma_int_at_bytes(b, 4, y);
            lemma_int_at_bytes(b, 8, z);
            lemma_int_at_bytes(b, 12, w);
        },
        ValueView::IntTable(cols, rows) => {
            assert(b.subrange(0, 4) =~= count_bytes(rows.len()));
            assert(b.subrange(4, 8) =~= count_bytes(cols));
            lemma_count_at(b, 0, rows.len());
            lemma_count_at(b, 4, cols);
            assert(b.subrange(8, 8 + rows_bytes(rows).len() as int) =~= rows_bytes(rows));
            lemma_rows_at(b, 8, cols, rows);
            let got = Seq::new(rows.len(), |i: int| Seq::new(cols, |j: int| cell_at(b, 8, cols, i, j)));
            assert forall|i: int| 0 <= i < rows.len() implies #[trigger] got[i] =~= rows[i] by {
                assert(rows[i].len() == cols);
            }
            assert(got =~= rows);
        },
    }
}

/// Encoding a list of `n` ints and decoding it as an int list gives `n`
/// ints, each where it was.
pub proof fn lemma_int_list_round_trip(xs: Seq<i32>)
    requires
        xs.len() <= MAX_COUNT,
    ensures
        decode(Shape::IntList, encode(ValueView::IntList(xs))) matches Ok((ValueView::IntList(ys), _))
            && ys.len() == xs.len() && forall|i: int| 0 <= i < xs.len() ==> ys[i] == xs[i],
{
    let v = ValueView::IntList(xs);
    lemma_round_trip(v, Seq::empty());
    assert(encode(v) + Seq::empty() =~= encode(v));
}

/// A string whose declared length runs past the end of the bytes is not
/// read: decoding it fails as truncated.
pub proof fn lemma_short_string_truncated(b: Seq<u8>)
    requires
        b.len() >= 2,
        word_at(b, 0) > b.len() - 2,
    ensures
        decode(Shape::String, b) == Err::<(ValueView, nat), DecodeError>(DecodeError::Truncated),
{
}

/// A classified response is what its own word classifies as: every code
/// of every category is known to the classifier under that category.
pub proof fn lemma_classify_code(r: Response)
    requires
        !(r is Unclassified),
    ensures
        spec_classify(r.word()) == r,
{
    let w = r.word();
    assert(category_of(w) == w / 256) by (bit_vector);
}

/// Classification keeps the word: the response it gives carries `w` back.
pub proof fn lemma_classify_keeps_word(w: u16)
    ensures
        spec_classify(w).word() == w,
{
}

/// A word whose high byte names no category is unclassified.
pub proof fn lemma_unknown_category(w: u16)
    requires
        category_of(w) == 0 || category_of(w) > 5,
    ensures
        spec_classify(w) == Response::Unclassified(w),
{
}

proof fn lemma_int_at_is_bytes(b: Seq<u8>, pos: int)
    requires
        0 <= pos,
        pos + 4 <= b.len(),
    ensures
        int_bytes(int_at(b, pos)) == b.subrange(pos, pos + 4),
{
    lemma_int_bytes_of(b[pos], b[pos + 1], b[pos + 2], b[pos + 3]);
    assert(seq![b[pos], b[pos + 1], b[pos + 2], b[pos + 3]] =~= b.subrange(pos, pos + 4));
}

proof fn lemma_count_is_bytes(b: Seq<u8>, pos: int)
    requires
        0 <= pos,
        pos + 4 <= b.len(),
        int_at(b, pos) >= 0,
    ensures
        count_bytes(int_at(b, pos) as nat) == b.subrange(pos, pos + 4),
        int_at(b, pos) as nat <= MAX_COUNT,
{
    lemma_int_at_is_bytes(b, pos);
}

/// Ints read at `pos`, `pos + 4`, ... are encoded as the bytes they were read from.
proof fn lemma_ints_exact(b: Seq<u8>, pos: int, xs: Seq<i32>)
    requires
        0 <= pos,
        pos + 4 * xs.len() <= b.len(),
        forall|i: int| 0 <= i < xs.len() ==> #[trigger] xs[i] == int_at(b, pos + 4 * i),
    ensures
        ints_bytes(xs) == b.subrange(pos, pos + 4 * xs.len()),
    decreases xs.len(),
{
    if xs.len() == 0 {
        assert(ints_bytes(xs) =~= b.subrange(pos, pos));
    } else {
        let n = xs.len() - 1;
        let dl = xs.drop_last();
        assert forall|i: int| 0 <= i < dl.len() implies #[trigger] dl[i] == int_at(b, pos + 4 * i) by {
            assert(dl[i] == xs[i]);
        }
        lemma_ints_exact(b, pos, dl);
        assert(xs =~= dl.push(xs[n]));
        lemma_ints_bytes_push(dl, xs[n]);
        lemma_int_at_is_bytes(b, pos + 4 * n);
        assert(b.subrange(pos, pos + 4 * n) + b.subrange(pos + 4 * n, pos + 4 * n + 4) =~= b.subrange(
            pos,
            pos + 4 * xs.len(),
        ));
    }
}

/// Rows read cell by cell from `pos` are encoded as the bytes they were read from.
proof fn lemma_rows_exact(b: Seq<u8>, pos: int, cols: nat, rows: Seq<Seq<i32>>)
    requires
        0 <= pos,
        pos + 4 * (rows.len() * cols) <= b.len(),
        forall|i: int| 0 <= i < rows.len() ==> (#[trigger] rows[i]).len() == cols,
        forall|i: int, j: int|
            0 <= i < rows.len() && 0 <= j < cols ==> #[trigger] rows[i][j] == cell_at(b, pos, cols, i, j),
    ensures
        rows_bytes(rows) == b.subrange(pos, pos + 4 * (rows.len() * cols)),
    decreases rows.len(),
{
    if rows.len() == 0 {
        assert(rows_bytes(rows) =~= b.subrange(pos, pos));
    } else {
        let n = rows.len() - 1;
        let dl = rows.drop_last();
        let last = rows[n];
        assert forall|i: int| 0 <= i < dl.len() implies (#[trigger] dl[i]).len() == cols by {
            assert(dl[i] == rows[i]);
        }
        assert forall|i: int, j: int| 0 <= i < dl.len() && 0 <= j < cols implies #[trigger] dl[i][j]
            == cell_at(b, pos, cols, i, j) by {
            assert(dl[i] == rows[i]);
        }
        assert(n * cols <= rows.len() * cols) by (nonlinear_arith)
            requires
                n == rows.len() - 1,
        ;
        lemma_rows_exact(b, pos, cols, dl);
        assert(rows =~= dl.push(last));
        lemma_rows_bytes_push(dl, last);
        let start = pos + 4 * (n * cols);
        assert(n * cols + cols == rows.len() * cols) by (nonlinear_arith)
            requires
                n == rows.len() - 1,
        ;
        assert forall|j: int| 0 <= j < last.len() implies #[trigger] last[j] == int_at(b, start + 4 * j) by {
            assert(last[j] == cell_at(b, pos, cols, n, j));
        }
        lemma_ints_exact(b, start, last);
        assert(b.subrange(pos, start) + b.subrange(start, start + 4 * cols) =~= b.subrange(
            pos,
            pos + 4 * (rows.len() * cols),
        ));
    }
}

proof fn lemma_string_exact(b: Seq<u8>)
    ensures
        decode_string(b) matches Ok((s, n)) ==> string_fits(s) && n <= b.len() && string_bytes(s)
            == b.subrange(0, n as int),
{
    if let Ok((s, n)) = decode_string(b) {
        let len = word_at(b, 0);
        let bytes = b.subrange(2, 2 + len);
        decode_utf8_encode_utf8(bytes);
        lemma_word_bytes_of(b[0], b[1]);
        assert(encode_utf8(s) == bytes);
        assert(word_bytes(encode_utf8(s).len() as u16) =~= b.subrange(0, 2));
        assert(b.subrange(0, 2) + bytes =~= b.subrange(0, n as int));
    }
}

proof fn lemma_strings_exact(b: Seq<u8>, count: nat)
    ensures
        decode_strings(b, count) matches Ok((xs, n)) ==> xs.len() == count && n <= b.len() && (forall|
            i: int,
        | 0 <= i < xs.len() ==> string_fits(#[trigger] xs[i])) && strings_bytes(xs) == b.subrange(
            0,
            n as int,
        ),
    decreases count,
{
    if count == 0 {
        assert(strings_bytes(Seq::<Seq<char>>::empty()) =~= b.subrange(0, 0));
    } else {
        lemma_strings_exact(b, (count - 1) as nat);
        if let Ok((ys, used)) = decode_strings(b, (count - 1) as nat) {
            let rest = b.skip(used as int);
            lemma_string_exact(rest);
            if let Ok((s, k)) = decode_string(rest) {
                let xs = ys.push(s);
                assert forall|i: int| 0 <= i < xs.len() implies string_fits(#[trigger] xs[i]) by {
                    if i < ys.len() {
                        assert(xs[i] == ys[i]);
                    }
                }
                lemma_strings_bytes_push(ys, s);
                assert(b.subrange(0, used as int) + rest.subrange(0, k as int) =~= b.subrange(
                    0,
                    (used + k) as int,
                ));
            }
        }
    }
}

/// Decoding takes exactly the encoding of what it returns: a value that the
/// wire can carry, of the requested shape, whose encoding is the bytes
/// taken. So no two byte strings read as one value, and none is skipped.
/// Flags are left out: every non-zero flag byte reads as true.
pub proof fn lemma_decode_exact(shape: Shape, b: Seq<u8>)
    requires
        shape != Shape::Bool,
        shape != Shape::BoolList,
    ensures
        decode(shape, b) matches Ok((v, n)) ==> v.wf() && v.shape() == shape && n <= b.len()
            && b.subrange(0, n as int) == encode(v),
{
    if let Ok((v, n)) = decode(shape, b) {
        match shape {
            Shape::Byte => {
                assert(b.subrange(0, 1) =~= seq![b[0]]);
            },
            Shape::Word => {
                lemma_word_bytes_of(b[0], b[1]);
                assert(b.subrange(0, 2) =~= seq![b[0], b[1]]);
            },
            Shape::Int => {
                lemma_int_at_is_bytes(b, 0);
            },
            Shape::String => {
                lemma_string_exact(b);
            },
            Shape::ByteList => {
                lemma_count_is_bytes(b, 0);
                let c = int_at(b, 0) as nat;
                assert(b.subrange(0, 4) + b.subrange(4, 4 + c as int) =~= b.subrange(0, n as int));
            },
            Shape::IntList => {
                lemma_count_is_bytes(b, 0);
                let c = int_at(b, 0) as nat;
                let xs = Seq::new(c, |i: int| int_at(b, 4 + 4 * i));
                lemma_ints_exact(b, 4, xs);
                assert(b.subrange(0, 4) + b.subrange(4, 4 + 4 * c as int) =~= b.subrange(0, n as int));
            },
            Shape::StringList => {
                lemma_count_is_bytes(b, 0);
                let c = int_at(b, 0) as nat;
                let rest = b.skip(4);
                lemma_strings_exact(rest, c);
                if let Ok((xs, k)) = decode_strings(rest, c) {
                    assert(b.subrange(0, 4) + rest.subrange(0, k as int) =~= b.subrange(0, n as int));
                }
            },
            Shape::IntPair => {
                lemma_int_at_is_bytes(b, 0);
                lemma_int_at_is_bytes(b, 4);
                assert(b.subrange(0, 4) + b.subrange(4, 8) =~= b.subrange(0, 8));
            },
            Shape::IntQuad => {
                lemma_int_at_is_bytes(b, 0);
                lemma_int_at_is_bytes(b, 4);
                lemma_int_at_is_bytes(b, 8);
                lemma_int_at_is_bytes(b, 12);
                assert(b.subrange(0, 4) + b.subrange(4, 8) + b.subrange(8, 12) + b.subrange(12, 16)
                    =~= b.subrange(0, 16));
            },
            Shape::IntTable => {
                lemma_count_is_bytes(b, 0);
                lemma_count_is_bytes(b, 4);
                let r = int_at(b, 0) as nat;
                let k = int_at(b, 4) as nat;
                let rows = Seq::new(r, |i: int| Seq::new(k, |j: int| cell_at(b, 8, k, i, j)));
                lemma_rows_exact(b, 8, k, rows);
                assert(b.subrange(0, 4) + b.subrange(4, 8) + b.subrange(8, 8 + 4 * (r * k) as int) =~= b.subrange(
                    0,
                    n as int,
                ));
            },
            _ => {},
        }
    }
}

} // verus!
