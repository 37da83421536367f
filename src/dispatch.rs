//! Requests: a command's opcode followed by its arguments, checked against
//! the command table; and whether a reply is the one a command expects.
use crate::codec::{encode, encode_all, encode_into};
use crate::cqi_consts::{Expect, COMMANDS};
use crate::response::Reply;
use crate::value::{Shape, Value, ValueView};
use crate::wire::{word_bytes, write_word_be};
use vstd::prelude::*;

verus! {

/// Why a request is not sent.
#[derive(Clone, Copy, Debug, PartialEq, Eq, Structural)]
pub enum RequestError {
    /// The arguments are not of the number or the shapes that the command takes.
    WrongArguments,
    /// An argument has a length or count that the wire cannot carry.
    Unencodable,
}

/// The views of the values.
pub open spec fn views(vs: Seq<Value>) -> Seq<ValueView> {
    vs.map_values(|v: Value| v@)
}

/// Whether the wire can carry every value.
pub open spec fn all_wf(vs: Seq<ValueView>) -> bool {
    forall|i: int| 0 <= i < vs.len() ==> (#[trigger] vs[i]).wf()
}

/// Whether the values have the given shapes, one for one.
pub open spec fn shapes_match(vs: Seq<ValueView>, shapes: Seq<Shape>) -> bool {
    vs.len() == shapes.len() && forall|i: int| 0 <= i < vs.len() ==> (#[trigger] vs[i]).shape() == shapes[i]
}

proof fn lemma_encode_all_push(vs: Seq<ValueView>, v: ValueView)
    ensures
        encode_all(vs.push(v)) == encode_all(vs) + encode(v),
{
    assert(vs.push(v).map_values(|x: ValueView| encode(x)) =~= vs.map_values(
        |x: ValueView| encode(x),
    ).push(encode(v)));
    let parts = vs.map_values(|x: ValueView| encode(x));
    assert(parts.push(encode(v)).drop_last() =~= parts);
}

/// The encodings of the values one after the other, or `None` when the wire
/// cannot carry one of them.
pub fn encode_values(vs: &Vec<Value>) -> (r: Option<Vec<u8>>)
    ensures
        r is Some <==> all_wf(views(vs@)),
        r matches Some(b) ==> b@ == encode_all(views(vs@)),
{
    let mut out: Vec<u8> = Vec::new();
    if append_values(&mut out, vs) {
        assert(out@ =~= encode_all(views(vs@)));
        Some(out)
    } else {
        None
    }
}

fn append_values(out: &mut Vec<u8>, vs: &Vec<Value>) -> (ok: bool)
    ensures
        ok <==> all_wf(views(vs@)),
        ok ==> final(out)@ == old(out)@ + encode_all(views(vs@)),
{
    let ghost start = out@;
    let ghost vv = views(vs@);
    let mut i: usize = 0;
    assert(vv.take(0) =~= Seq::<ValueView>::empty());
    assert(start + encode_all(vv.take(0)) =~= start);
    while i < vs.len()
        invariant
            i <= vs@.len(),
            vv == views(vs@),
            all_wf(vv.take(i as int)),
            out@ == start + encode_all(vv.take(i as int)),
        decreases vs@.len() - i,
    {
        assert(vv[i as int] == vs@[i as int]@);
        if !vs[i].is_encodable() {
            assert(!all_wf(vv));
            return false;
        }
        encode_into(out, &vs[i]);
        proof {
            assert(vv.take(i + 1) =~= vv.take(i as int).push(vv[i as int]));
            lemma_encode_all_push(vv.take(i as int), vv[i as int]);
        }
        assert(out@ =~= start + encode_all(vv.take(i + 1)));
        i += 1;
    }
    assert(vv.take(i as int) =~= vv);
    true
}

/// The request that sends `cmd` with `args`: the opcode word, then each
/// argument in order; refused when the arguments do not have the shapes
/// that the command takes, or the wire cannot carry one of them.
pub fn encode_request(cmd: COMMANDS, args: &Vec<Value>) -> (r: Result<Vec<u8>, RequestError>)
    ensures
        r matches Ok(b) ==> b@ == word_bytes(cmd.code()) + encode_all(views(args@)),
        r is Ok <==> shapes_match(views(args@), cmd.spec_args()) && all_wf(views(args@)),
        r == Err::<Vec<u8>, RequestError>(RequestError::WrongArguments) <==> !shapes_match(
            views(args@),
            cmd.spec_args(),
        ),
{
    let shapes = cmd.args();
    if shapes.len() != args.len() {
        return Err(RequestError::WrongArguments);
    }
    let ghost vv = views(args@);
    let mut i: usize = 0;
    while i < args.len()
        invariant
            i <= args@.len(),
            shapes@.len() == args@.len(),
            shapes@ == cmd.spec_args(),
            vv == views(args@),
            forall|j: int| 0 <= j < i ==> (#[trigger] vv[j]).shape() == shapes@[j],
        decreases args@.len() - i,
    {
        assert(vv[i as int] == args@[i as int]@);
        if args[i].shape() != shapes[i] {
            return Err(RequestError::WrongArguments);
        }
        i += 1;
    }
    let mut out: Vec<u8> = Vec::new();
    let op = write_word_be(cmd.code());
    out.push(op[0]);
    out.push(op[1]);
    assert(out@ =~= word_bytes(cmd.code()));
    if append_values(&mut out, args) {
        Ok(out)
    } else {
        Err(RequestError::Unencodable)
    }
}

/// Whether `reply` is the one that `cmd` expects when the server reports no
/// error.
pub fn is_expected_reply(cmd: COMMANDS, reply: &Reply) -> (r: bool)
    ensures
        r == match cmd.spec_expect() {
            Expect::Status(s) => reply@ == crate::response::ReplyView::Status(s),
            Expect::Data(d) => reply@ is Data && reply@->Data_0 == d,
            Expect::Nothing => false,
        },
{
    match (cmd.expect(), reply) {
        (Expect::Status(s), Reply::Status(t)) => s == *t,
        (Expect::Data(d), Reply::Data(e, _)) => d == *e,
        _ => false,
    }
}

} // verus!
