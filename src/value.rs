//! The values that travel on the wire, and their shapes.
use vstd::prelude::*;
use vstd::utf8::encode_utf8;

verus! {

/// The shape of a value: what a decoder must be told before it reads one.
#[derive(Clone, Copy, Debug, PartialEq, Eq, Structural)]
pub enum Shape {
    Bool,
    Byte,
    Word,
    Int,
    String,
    BoolList,
    ByteList,
    IntList,
    StringList,
    IntPair,
    IntQuad,
    IntTable,
}

/// A rectangular matrix of ints: every row has `cols` entries.
#[derive(Debug, PartialEq, Eq)]
pub struct IntTable {
    cols: usize,
    rows: Vec<Vec<i32>>,
}

/// Whether every row of `rows` has `cols` entries.
pub open spec fn is_rectangular(cols: nat, rows: Seq<Seq<i32>>) -> bool {
    forall|i: int| 0 <= i < rows.len() ==> #[trigger] rows[i].len() == cols
}

/// The rows of a table as sequences.
pub open spec fn rows_view(rows: Seq<Vec<i32>>) -> Seq<Seq<i32>> {
    rows.map_values(|r: Vec<i32>| r@)
}

/// The column count that a table built from `rows` has: that of its first
/// row, or zero when there is none.
pub open spec fn cols_of(rows: Seq<Seq<i32>>) -> nat {
    if rows.len() == 0 {
        0
    } else {
        rows[0].len()
    }
}

impl View for IntTable {
    /// The column count and the rows.
    type V = (nat, Seq<Seq<i32>>);

    closed spec fn view(&self) -> (nat, Seq<Seq<i32>>) {
        (self.cols as nat, rows_view(self.rows@))
    }
}

impl IntTable {
    #[verifier::type_invariant]
    spec fn rectangular(&self) -> bool {
        is_rectangular(self.cols as nat, rows_view(self.rows@))
    }

    /// A table of the given rows, or `None` when they are not all of one length.
    pub fn new(rows: Vec<Vec<i32>>) -> (r: Option<IntTable>)
        ensures
            r is Some <==> is_rectangular(cols_of(rows_view(rows@)), rows_view(rows@)),
            r matches Some(t) ==> t@ == (cols_of(rows_view(rows@)), rows_view(rows@)),
    {
        let cols: usize = if rows.len() == 0 {
            0
        } else {
            rows[0].len()
        };
        Self::with_cols(cols, rows)
    }

    /// A table of `cols` columns and the given rows, or `None` when a row
    /// has another length.
    pub fn with_cols(cols: usize, rows: Vec<Vec<i32>>) -> (r: Option<IntTable>)
        ensures
            r is Some <==> is_rectangular(cols as nat, rows_view(rows@)),
            r matches Some(t) ==> t@ == (cols as nat, rows_view(rows@)),
    {
        let mut i: usize = 0;
        while i < rows.len()
            invariant
                i <= rows@.len(),
                is_rectangular(cols as nat, rows_view(rows@).take(i as int)),
            decreases rows@.len() - i,
        {
            if rows[i].len() != cols {
                assert(rows_view(rows@)[i as int].len() != cols);
                return None;
            }
            assert(rows_view(rows@).take(i + 1) =~= rows_view(rows@).take(i as int).push(
                rows_view(rows@)[i as int],
            ));
            i += 1;
        }
        assert(rows_view(rows@).take(i as int) =~= rows_view(rows@));
        Some(IntTable { cols, rows })
    }

    /// The column count.
    pub fn cols(&self) -> (r: usize)
        ensures
            r as nat == self@.0,
    {
        self.cols
    }

    /// The rows, each of `cols()` entries.
    pub fn rows(&self) -> (r: &Vec<Vec<i32>>)
        ensures
            rows_view(r@) == self@.1,
            is_rectangular(self@.0, self@.1),
    {
        proof {
            use_type_invariant(self);
        }
        &self.rows
    }
}

/// A value of the protocol.
#[derive(Debug, PartialEq, Eq)]
pub enum Value {
    Bool(bool),
    Byte(u8),
    Word(u16),
    Int(i32),
    String(String),
    BoolList(Vec<bool>),
    ByteList(Vec<u8>),
    IntList(Vec<i32>),
    StringList(Vec<String>),
    IntPair(i32, i32),
    IntQuad(i32, i32, i32, i32),
    IntTable(IntTable),
}

/// A value as mathematics sees it: strings as their characters, lists as
/// sequences, a table as its column count and rows.
pub enum ValueView {
    Bool(bool),
    Byte(u8),
    Word(u16),
    Int(i32),
    String(Seq<char>),
    BoolList(Seq<bool>),
    ByteList(Seq<u8>),
    IntList(Seq<i32>),
    StringList(Seq<Seq<char>>),
    IntPair(i32, i32),
    IntQuad(i32, i32, i32, i32),
    IntTable(nat, Seq<Seq<i32>>),
}

/// The largest count that the wire's four-byte count field holds.
pub const MAX_COUNT: u32 = 0x7fff_ffff;

/// The largest UTF-8 length that the wire's two-byte string length holds.
pub const MAX_STRING_BYTES: u32 = 0xffff;

/// Whether the UTF-8 encoding of `s` fits the two-byte length field.
pub open spec fn string_fits(s: Seq<char>) -> bool {
    encode_utf8(s).len() <= MAX_STRING_BYTES
}

impl ValueView {
    /// The shape of this value.
    pub open spec fn shape(self) -> Shape {
        match self {
            ValueView::Bool(_) => Shape::Bool,
            ValueView::Byte(_) => Shape::Byte,
            ValueView::Word(_) => Shape::Word,
            ValueView::Int(_) => Shape::Int,
            ValueView::String(_) => Shape::String,
            ValueView::BoolList(_) => Shape::BoolList,
            ValueView::ByteList(_) => Shape::ByteList,
            ValueView::IntList(_) => Shape::IntList,
            ValueView::StringList(_) => Shape::StringList,
            ValueView::IntPair(..) => Shape::IntPair,
            ValueView::IntQuad(..) => Shape::IntQuad,
            ValueView::IntTable(..) => Shape::IntTable,
        }
    }

    /// Whether the wire can carry this value: every length and count fits
    /// its field, and a table is rectangular.
    pub open spec fn wf(self) -> bool {
        match self {
            ValueView::String(s) => string_fits(s),
            ValueView::BoolList(xs) => xs.len() <= MAX_COUNT,
            ValueView::ByteList(xs) => xs.len() <= MAX_COUNT,
            ValueView::IntList(xs) => xs.len() <= MAX_COUNT,
            ValueView::StringList(xs) => xs.len() <= MAX_COUNT && forall|i: int|
                0 <= i < xs.len() ==> string_fits(#[trigger] xs[i]),
            ValueView::IntTable(cols, rows) => cols <= MAX_COUNT && rows.len() <= MAX_COUNT
                && is_rectangular(cols, rows),
            _ => true,
        }
    }
}

impl View for Value {
    type V = ValueView;

    open spec fn view(&self) -> ValueView {
        match self {
            Value::Bool(x) => ValueView::Bool(*x),
            Value::Byte(x) => ValueView::Byte(*x),
            Value::Word(x) => ValueView::Word(*x),
            Value::Int(x) => ValueView::Int(*x),
            Value::String(s) => ValueView::String(s@),
            Value::BoolList(xs) => ValueView::BoolList(xs@),
            Value::ByteList(xs) => ValueView::ByteList(xs@),
            Value::IntList(xs) => ValueView::IntList(xs@),
            Value::StringList(xs) => ValueView::StringList(strings_view(xs@)),
            Value::IntPair(a, b) => ValueView::IntPair(*a, *b),
            Value::IntQuad(a, b, c, d) => ValueView::IntQuad(*a, *b, *c, *d),
            Value::IntTable(t) => ValueView::IntTable(t@.0, t@.1),
        }
    }
}

/// The characters of each string.
pub open spec fn strings_view(xs: Seq<String>) -> Seq<Seq<char>> {
    xs.map_values(|s: String| s@)
}

impl Value {
    /// The shape of this value.
    pub fn shape(&self) -> (r: Shape)
        ensures
            r == self@.shape(),
    {
        match self {
            Value::Bool(_) => Shape::Bool,
            Value::Byte(_) => Shape::Byte,
            Value::Word(_) => Shape::Word,
            Value::Int(_) => Shape::Int,
            Value::String(_) => Shape::String,
            Value::BoolList(_) => Shape::BoolList,
            Value::ByteList(_) => Shape::ByteList,
            Value::IntList(_) => Shape::IntList,
            Value::StringList(_) => Shape::StringList,
            Value::IntPair(..) => Shape::IntPair,
            Value::IntQuad(..) => Shape::IntQuad,
            Value::IntTable(_) => Shape::IntTable,
        }
    }

    /// Whether the wire can carry this value.
    pub fn is_encodable(&self) -> (r: bool)
        ensures
            r == self@.wf(),
    {
        match self {
            Value::String(s) => s.as_str().as_bytes().len() <= MAX_STRING_BYTES as usize,
            Value::BoolList(xs) => xs.len() <= MAX_COUNT as usize,
            Value::ByteList(xs) => xs.len() <= MAX_COUNT as usize,
            Value::IntList(xs) => xs.len() <= MAX_COUNT as usize,
            Value::StringList(xs) => {
                if xs.len() > MAX_COUNT as usize {
                    return false;
                }
                let mut i: usize = 0;
                while i < xs.len()
                    invariant
                        self@ == ValueView::StringList(strings_view(xs@)),
                        i <= xs@.len(),
                        forall|j: int| 0 <= j < i ==> string_fits(#[trigger] strings_view(xs@)[j]),
                    decreases xs@.len() - i,
                {
                    if xs[i].as_str().as_bytes().len() > MAX_STRING_BYTES as usize {
                        let ghost xv = strings_view(xs@);
                        assert(!string_fits(xv[i as int]));
                        return false;
                    }
                    i += 1;
                }
                true
            },
            Value::IntTable(t) => {
                proof {
                    use_type_invariant(t);
                }
                t.cols <= MAX_COUNT as usize && t.rows.len() <= MAX_COUNT as usize
            },
            _ => true,
        }
    }
}

} // verus!
