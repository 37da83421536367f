//! Classification of response words, and replies read from bytes.
use crate::codec::{decode, decode_value, DecodeError};
use crate::cqi_consts::{ResponseType, CL_ERROR, CQP_ERROR, DATA, ERROR, STATUS};
use crate::value::{Value, ValueView};
use crate::wire::{read_word_be, word_at};
use vstd::prelude::*;

verus! {

/// What a response word says: its category and code, or that it is not one
/// the protocol knows.
#[derive(Clone, Copy, Debug, PartialEq, Eq, Structural)]
pub enum Response {
    Status(STATUS),
    Error(ERROR),
    Data(DATA),
    ClError(CL_ERROR),
    CqpError(CQP_ERROR),
    /// A word whose category or code is unknown, kept for diagnostics.
    Unclassified(u16),
}

/// The category of a response word: its high byte.
pub open spec fn category_of(w: u16) -> u8 {
    (w >> 8u16) as u8
}

/// The classification of a response word: the category that its high byte
/// names, and the code of that category that the whole word is.
pub open spec fn spec_classify(w: u16) -> Response {
    match ResponseType::from_u8_spec(category_of(w)) {
        Some(ResponseType::STATUS) => match STATUS::from_u16_spec(w) {
            Some(c) => Response::Status(c),
            None => Response::Unclassified(w),
        },
        Some(ResponseType::ERROR) => match ERROR::from_u16_spec(w) {
            Some(c) => Response::Error(c),
            None => Response::Unclassified(w),
        },
        Some(ResponseType::DATA) => match DATA::from_u16_spec(w) {
            Some(c) => Response::Data(c),
            None => Response::Unclassified(w),
        },
        Some(ResponseType::CL_ERROR) => match CL_ERROR::from_u16_spec(w) {
            Some(c) => Response::ClError(c),
            None => Response::Unclassified(w),
        },
        Some(ResponseType::CQP_ERROR) => match CQP_ERROR::from_u16_spec(w) {
            Some(c) => Response::CqpError(c),
            None => Response::Unclassified(w),
        },
        None => Response::Unclassified(w),
    }
}

/// Classifies a response word.
pub fn classify(w: u16) -> (r: Response)
    ensures
        r == spec_classify(w),
{
    match ResponseType::from_u8((w >> 8u16) as u8) {
        Some(ResponseType::STATUS) => match STATUS::from_u16(w) {
            Some(c) => Response::Status(c),
            None => Response::Unclassified(w),
        },
        Some(ResponseType::ERROR) => match ERROR::from_u16(w) {
            Some(c) => Response::Error(c),
            None => Response::Unclassified(w),
        },
        Some(ResponseType::DATA) => match DATA::from_u16(w) {
            Some(c) => Response::Data(c),
            None => Response::Unclassified(w),
        },
        Some(ResponseType::CL_ERROR) => match CL_ERROR::from_u16(w) {
            Some(c) => Response::ClError(c),
            None => Response::Unclassified(w),
        },
        Some(ResponseType::CQP_ERROR) => match CQP_ERROR::from_u16(w) {
            Some(c) => Response::CqpError(c),
            None => Response::Unclassified(w),
        },
        None => Response::Unclassified(w),
    }
}

impl Response {
    /// The category, unless the word was not classified.
    pub open spec fn spec_category(self) -> Option<ResponseType> {
        match self {
            Response::Status(_) => Some(ResponseType::STATUS),
            Response::Error(_) => Some(ResponseType::ERROR),
            Response::Data(_) => Some(ResponseType::DATA),
            Response::ClError(_) => Some(ResponseType::CL_ERROR),
            Response::CqpError(_) => Some(ResponseType::CQP_ERROR),
            Response::Unclassified(_) => None,
        }
    }

    /// The category, unless the word was not classified.
    #[verifier::when_used_as_spec(spec_category)]
    pub fn category(self) -> (r: Option<ResponseType>)
        ensures
            r == self.spec_category(),
    {
        match self {
            Response::Status(_) => Some(ResponseType::STATUS),
            Response::Error(_) => Some(ResponseType::ERROR),
            Response::Data(_) => Some(ResponseType::DATA),
            Response::ClError(_) => Some(ResponseType::CL_ERROR),
            Response::CqpError(_) => Some(ResponseType::CQP_ERROR),
            Response::Unclassified(_) => None,
        }
    }

    /// The word that was classified.
    pub open spec fn spec_word(self) -> u16 {
        match self {
            Response::Status(c) => c.code(),
            Response::Error(c) => c.code(),
            Response::Data(c) => c.code(),
            Response::ClError(c) => c.code(),
            Response::CqpError(c) => c.code(),
            Response::Unclassified(w) => w,
        }
    }

    /// The word that was classified.
    #[verifier::when_used_as_spec(spec_word)]
    pub fn word(self) -> (r: u16)
        ensures
            r == self.spec_word(),
    {
        match self {
            Response::Status(c) => c.code(),
            Response::Error(c) => c.code(),
            Response::Data(c) => c.code(),
            Response::ClError(c) => c.code(),
            Response::CqpError(c) => c.code(),
            Response::Unclassified(w) => w,
        }
    }
}

/// A whole reply of the server: a classified word, and for a data word the
/// value that follows it.
#[derive(Debug, PartialEq, Eq)]
pub enum Reply {
    Status(STATUS),
    Error(ERROR),
    Data(DATA, Value),
    ClError(CL_ERROR),
    CqpError(CQP_ERROR),
    Unclassified(u16),
}

/// A reply as mathematics sees it.
pub enum ReplyView {
    Status(STATUS),
    Error(ERROR),
    Data(DATA, ValueView),
    ClError(CL_ERROR),
    CqpError(CQP_ERROR),
    Unclassified(u16),
}

impl View for Reply {
    type V = ReplyView;

    open spec fn view(&self) -> ReplyView {
        match self {
            Reply::Status(c) => ReplyView::Status(*c),
            Reply::Error(c) => ReplyView::Error(*c),
            Reply::Data(c, v) => ReplyView::Data(*c, v@),
            Reply::ClError(c) => ReplyView::ClError(*c),
            Reply::CqpError(c) => ReplyView::CqpError(*c),
            Reply::Unclassified(w) => ReplyView::Unclassified(*w),
        }
    }
}

/// The reply at the start of `b`, and the bytes it takes: the response
/// word, classified, and for a data word the value of the shape it names.
pub open spec fn spec_decode_reply(b: Seq<u8>) -> Result<(ReplyView, nat), DecodeError> {
    if b.len() < 2 {
        Err(DecodeError::Truncated)
    } else {
        match spec_classify(word_at(b, 0)) {
            Response::Data(c) => match decode(c.shape(), b.skip(2)) {
                Ok((v, n)) => Ok((ReplyView::Data(c, v), 2 + n)),
                Err(e) => Err(e),
            },
            Response::Status(c) => Ok((ReplyView::Status(c), 2)),
            Response::Error(c) => Ok((ReplyView::Error(c), 2)),
            Response::ClError(c) => Ok((ReplyView::ClError(c), 2)),
            Response::CqpError(c) => Ok((ReplyView::CqpError(c), 2)),
            Response::Unclassified(w) => Ok((ReplyView::Unclassified(w), 2)),
        }
    }
}

/// Reads a reply from the start of `b`: the reply and the number of bytes
/// it took, or why `b` does not start with one.
pub fn decode_reply(b: &[u8]) -> (r: Result<(Reply, usize), DecodeError>)
    ensures
        match r {
            Ok((reply, n)) => spec_decode_reply(b@) == Ok::<(ReplyView, nat), DecodeError>(
                (reply@, n as nat),
            ),
            Err(e) => spec_decode_reply(b@) == Err::<(ReplyView, nat), DecodeError>(e),
        },
        r matches Ok((_, n)) ==> n <= b@.len(),
{
    if b.len() < 2 {
        return Err(DecodeError::Truncated);
    }
    let w = read_word_be(b);
    match classify(w) {
        Response::Data(c) => {
            let rest = &b[2..b.len()];
            assert(rest@ =~= b@.skip(2));
            match decode_value(c.shape(), rest) {
                Ok((v, n)) => Ok((Reply::Data(c, v), 2 + n)),
                Err(e) => Err(e),
            }
        },
        Response::Status(c) => Ok((Reply::Status(c), 2)),
        Response::Error(c) => Ok((Reply::Error(c), 2)),
        Response::ClError(c) => Ok((Reply::ClError(c), 2)),
        Response::CqpError(c) => Ok((Reply::CqpError(c), 2)),
        Response::Unclassified(x) => Ok((Reply::Unclassified(x), 2)),
    }
}

} // verus!
