//! The bytes a connection has received but not yet used, and taking whole
//! values and replies from their front as they become complete.
use crate::codec::{decode, decode_value, DecodeError};
use crate::response::{decode_reply, spec_decode_reply, Reply};
use crate::value::{Shape, Value};
use vstd::prelude::*;

verus! {

/// Received bytes that no value or reply has taken yet.
pub struct Inbox {
    pending: Vec<u8>,
}

impl View for Inbox {
    type V = Seq<u8>;

    closed spec fn view(&self) -> Seq<u8> {
        self.pending@
    }
}

impl Inbox {
    /// An inbox that holds nothing.
    pub fn new() -> (r: Inbox)
        ensures
            r@ == Seq::<u8>::empty(),
    {
        Inbox { pending: Vec::new() }
    }

    /// The bytes held.
    pub fn pending(&self) -> (r: &[u8])
        ensures
            r@ == self@,
    {
        self.pending.as_slice()
    }

    /// Adds bytes that arrived.
    pub fn extend(&mut self, chunk: &[u8])
        ensures
            final(self)@ == old(self)@ + chunk@,
    {
        let mut i: usize = 0;
        while i < chunk.len()
            invariant
                i <= chunk@.len(),
                self@ == old(self)@ + chunk@.take(i as int),
            decreases chunk@.len() - i,
        {
            self.pending.push(chunk[i]);
            assert(chunk@.take(i + 1) =~= chunk@.take(i as int).push(chunk@[i as int]));
            assert(self@ =~= old(self)@ + chunk@.take(i + 1));
            i += 1;
        }
        assert(chunk@.take(i as int) =~= chunk@);
    }

    /// Drops the first `n` bytes.
    fn consume(&mut self, n: usize)
        requires
            n <= old(self)@.len(),
        ensures
            final(self)@ == old(self)@.skip(n as int),
    {
        let rest = vstd::slice::slice_to_vec(&self.pending.as_slice()[n..self.pending.len()]);
        self.pending = rest;
        assert(self@ =~= old(self)@.skip(n as int));
    }

    /// Takes a value of the given shape from the front: the value once all
    /// its bytes are held, `None` while they are not, or why the bytes held
    /// cannot start such a value. Only a value that is taken leaves.
    pub fn take_value(&mut self, shape: Shape) -> (r: Result<Option<Value>, DecodeError>)
        ensures
            match decode(shape, old(self)@) {
                Ok((v, n)) => (r matches Ok(Some(x)) && x@ == v) && final(self)@ == old(self)@.skip(
                    n as int,
                ),
                Err(DecodeError::Truncated) => r matches Ok(None) && final(self)@ == old(self)@,
                Err(e) => r == Err::<Option<Value>, DecodeError>(e) && final(self)@ == old(self)@,
            },
    {
        match decode_value(shape, self.pending.as_slice()) {
            Ok((v, n)) => {
                self.consume(n);
                Ok(Some(v))
            },
            Err(DecodeError::Truncated) => Ok(None),
            Err(e) => Err(e),
        }
    }

    /// Takes a reply from the front: the reply once all its bytes are held,
    /// `None` while they are not, or why the bytes held cannot start one.
    /// Only a reply that is taken leaves.
    pub fn take_reply(&mut self) -> (r: Result<Option<Reply>, DecodeError>)
        ensures
            match spec_decode_reply(old(self)@) {
                Ok((v, n)) => (r matches Ok(Some(x)) && x@ == v) && final(self)@ == old(self)@.skip(
                    n as int,
                ),
                Err(DecodeError::Truncated) => r matches Ok(None) && final(self)@ == old(self)@,
                Err(e) => r == Err::<Option<Reply>, DecodeError>(e) && final(self)@ == old(self)@,
            },
    {
        match decode_reply(self.pending.as_slice()) {
            Ok((v, n)) => {
                self.consume(n);
                Ok(Some(v))
            },
            Err(DecodeError::Truncated) => Ok(None),
            Err(e) => Err(e),
        }
    }
}

} // verus!
