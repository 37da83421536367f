//! Protocol constants: the response categories and codes, and the command
//! table with each command's opcode, argument shapes and expected reply.
use crate::text::str_eq;
use crate::value::Shape;
use vstd::prelude::*;

verus! {

/// The default port of a CQi server.
pub const PORT: u16 = 4877;

/// Padding.
pub const PAD: u8 = 0x00;

pub const FALSE: u8 = 0x00;

pub const NO: u8 = 0x00;

pub const TRUE: u8 = 0x01;

pub const YES: u8 = 0x01;

// Fields that `CQP_DUMP_SUBCORPUS` and some other subcorpus commands return.
pub const FIELD_MATCH: u8 = 0x10;

pub const FIELD_MATCHEND: u8 = 0x11;

// Target fields 0 to 9 have the numerical values 0 to 9.
pub const FIELD_TARGET_0: u8 = 0x00;

pub const FIELD_TARGET_1: u8 = 0x01;

pub const FIELD_TARGET_2: u8 = 0x02;

pub const FIELD_TARGET_3: u8 = 0x03;

pub const FIELD_TARGET_4: u8 = 0x04;

pub const FIELD_TARGET_5: u8 = 0x05;

pub const FIELD_TARGET_6: u8 = 0x06;

pub const FIELD_TARGET_7: u8 = 0x07;

pub const FIELD_TARGET_8: u8 = 0x08;

pub const FIELD_TARGET_9: u8 = 0x09;

// Traditional CQP field names.
pub const FIELD_TARGET: u8 = 0x00;

pub const FIELD_KEYWORD: u8 = 0x09;

pub const CQI_MAJOR_VERSION: u8 = 0x00;

pub const CQI_MINOR_VERSION: u8 = 0x01;

/// The category of a response: the high byte of its word.
#[derive(Clone, Copy, Debug, PartialEq, Eq, Structural)]
pub enum ResponseType {
    STATUS,
    ERROR,
    DATA,
    CL_ERROR,
    CQP_ERROR,
}

impl ResponseType {
    /// The code of this category on the wire.
    pub open spec fn spec_code(self) -> u8 {
        match self {
            ResponseType::STATUS => 0x01,
            ResponseType::ERROR => 0x02,
            ResponseType::DATA => 0x03,
            ResponseType::CL_ERROR => 0x04,
            ResponseType::CQP_ERROR => 0x05,
        }
    }

    /// The code of this category on the wire.
    #[verifier::when_used_as_spec(spec_code)]
    pub fn code(self) -> (r: u8)
        ensures
            r == self.spec_code(),
    {
        match self {
            ResponseType::STATUS => 0x01,
            ResponseType::ERROR => 0x02,
            ResponseType::DATA => 0x03,
            ResponseType::CL_ERROR => 0x04,
            ResponseType::CQP_ERROR => 0x05,
        }
    }

    /// The item with code `c`, if there is one.
    pub open spec fn from_u8_spec(c: u8) -> Option<ResponseType> {
        if c == 0x01 {
            Some(ResponseType::STATUS)
        } else if c == 0x02 {
            Some(ResponseType::ERROR)
        } else if c == 0x03 {
            Some(ResponseType::DATA)
        } else if c == 0x04 {
            Some(ResponseType::CL_ERROR)
        } else if c == 0x05 {
            Some(ResponseType::CQP_ERROR)
        } else {
            None
        }
    }

    /// The item with code `c`, if there is one.
    pub fn from_u8(c: u8) -> (r: Option<ResponseType>)
        ensures
            r == Self::from_u8_spec(c),
    {
        if c == 0x01 {
            Some(ResponseType::STATUS)
        } else if c == 0x02 {
            Some(ResponseType::ERROR)
        } else if c == 0x03 {
            Some(ResponseType::DATA)
        } else if c == 0x04 {
            Some(ResponseType::CL_ERROR)
        } else if c == 0x05 {
            Some(ResponseType::CQP_ERROR)
        } else {
            None
        }
    }
}

/// Codes of the status category.
#[derive(Clone, Copy, Debug, PartialEq, Eq, Structural)]
pub enum STATUS {
    OK,
    CONNECT_OK,
    BYE_OK,
    PING_OK,
}

impl STATUS {
    /// The code of this item on the wire.
    pub open spec fn spec_code(self) -> u16 {
        match self {
            STATUS::OK => 0x0101,
            STATUS::CONNECT_OK => 0x0102,
            STATUS::BYE_OK => 0x0103,
            STATUS::PING_OK => 0x0104,
        }
    }

    /// The code of this item on the wire.
    #[verifier::when_used_as_spec(spec_code)]
    pub fn code(self) -> (r: u16)
        ensures
            r == self.spec_code(),
    {
        match self {
            STATUS::OK => 0x0101,
            STATUS::CONNECT_OK => 0x0102,
            STATUS::BYE_OK => 0x0103,
            STATUS::PING_OK => 0x0104,
        }
    }

    /// The item with code `c`, if there is one.
    pub open spec fn from_u16_spec(c: u16) -> Option<STATUS> {
        if c == 0x0101 {
            Some(STATUS::OK)
        } else if c == 0x0102 {
            Some(STATUS::CONNECT_OK)
        } else if c == 0x0103 {
            Some(STATUS::BYE_OK)
        } else if c == 0x0104 {
            Some(STATUS::PING_OK)
        } else {
            None
        }
    }

    /// The item with code `c`, if there is one.
    pub fn from_u16(c: u16) -> (r: Option<STATUS>)
        ensures
            r == Self::from_u16_spec(c),
    {
        if c == 0x0101 {
            Some(STATUS::OK)
        } else if c == 0x0102 {
            Some(STATUS::CONNECT_OK)
        } else if c == 0x0103 {
            Some(STATUS::BYE_OK)
        } else if c == 0x0104 {
            Some(STATUS::PING_OK)
        } else {
            None
        }
    }
}

/// Codes of the error category.
#[derive(Clone, Copy, Debug, PartialEq, Eq, Structural)]
pub enum ERROR {
    GENERAL_ERROR,
    CONNECT_REFUSED,
    USER_ABORT,
    SYNTAX_ERROR,
}

impl ERROR {
    /// The code of this item on the wire.
    pub open spec fn spec_code(self) -> u16 {
        match self {
            ERROR::GENERAL_ERROR => 0x0201,
            ERROR::CONNECT_REFUSED => 0x0202,
            ERROR::USER_ABORT => 0x0203,
            ERROR::SYNTAX_ERROR => 0x0204,
        }
    }

    /// The code of this item on the wire.
    #[verifier::when_used_as_spec(spec_code)]
    pub fn code(self) -> (r: u16)
        ensures
            r == self.spec_code(),
    {
        match self {
            ERROR::GENERAL_ERROR => 0x0201,
            ERROR::CONNECT_REFUSED => 0x0202,
            ERROR::USER_ABORT => 0x0203,
            ERROR::SYNTAX_ERROR => 0x0204,
        }
    }

    /// The item with code `c`, if there is one.
    pub open spec fn from_u16_spec(c: u16) -> Option<ERROR> {
        if c == 0x0201 {
            Some(ERROR::GENERAL_ERROR)
        } else if c == 0x0202 {
            Some(ERROR::CONNECT_REFUSED)
        } else if c == 0x0203 {
            Some(ERROR::USER_ABORT)
        } else if c == 0x0204 {
            Some(ERROR::SYNTAX_ERROR)
        } else {
            None
        }
    }

    /// The item with code `c`, if there is one.
    pub fn from_u16(c: u16) -> (r: Option<ERROR>)
        ensures
            r == Self::from_u16_spec(c),
    {
        if c == 0x0201 {
            Some(ERROR::GENERAL_ERROR)
        } else if c == 0x0202 {
            Some(ERROR::CONNECT_REFUSED)
        } else if c == 0x0203 {
            Some(ERROR::USER_ABORT)
        } else if c == 0x0204 {
            Some(ERROR::SYNTAX_ERROR)
        } else {
            None
        }
    }
}

/// Codes of the data category: each names the shape of the value that follows.
#[derive(Clone, Copy, Debug, PartialEq, Eq, Structural)]
pub enum DATA {
    BYTE,
    BOOL,
    INT,
    STRING,
    BYTE_LIST,
    BOOL_LIST,
    INT_LIST,
    STRING_LIST,
    INT_INT,
    INT_INT_INT_INT,
    INT_TABLE,
}

impl DATA {
    /// The code of this item on the wire.
    pub open spec fn spec_code(self) -> u16 {
        match self {
            DATA::BYTE => 0x0301,
            DATA::BOOL => 0x0302,
            DATA::INT => 0x0303,
            DATA::STRING => 0x0304,
            DATA::BYTE_LIST => 0x0305,
            DATA::BOOL_LIST => 0x0306,
            DATA::INT_LIST => 0x0307,
            DATA::STRING_LIST => 0x0308,
            DATA::INT_INT => 0x0309,
            DATA::INT_INT_INT_INT => 0x030A,
            DATA::INT_TABLE => 0x030B,
        }
    }

    /// The code of this item on the wire.
    #[verifier::when_used_as_spec(spec_code)]
    pub fn code(self) -> (r: u16)
        ensures
            r == self.spec_code(),
    {
        match self {
            DATA::BYTE => 0x0301,
            DATA::BOOL => 0x0302,
            DATA::INT => 0x0303,
            DATA::STRING => 0x0304,
            DATA::BYTE_LIST => 0x0305,
            DATA::BOOL_LIST => 0x0306,
            DATA::INT_LIST => 0x0307,
            DATA::STRING_LIST => 0x0308,
            DATA::INT_INT => 0x0309,
            DATA::INT_INT_INT_INT => 0x030A,
            DATA::INT_TABLE => 0x030B,
        }
    }

    /// The item with code `c`, if there is one.
    pub open spec fn from_u16_spec(c: u16) -> Option<DATA> {
        if c == 0x0301 {
            Some(DATA::BYTE)
        } else if c == 0x0302 {
            Some(DATA::BOOL)
        } else if c == 0x0303 {
            Some(DATA::INT)
        } else if c == 0x0304 {
            Some(DATA::STRING)
        } else if c == 0x0305 {
            Some(DATA::BYTE_LIST)
        } else if c == 0x0306 {
            Some(DATA::BOOL_LIST)
        } else if c == 0x0307 {
            Some(DATA::INT_LIST)
        } else if c == 0x0308 {
            Some(DATA::STRING_LIST)
        } else if c == 0x0309 {
            Some(DATA::INT_INT)
        } else if c == 0x030A {
            Some(DATA::INT_INT_INT_INT)
        } else if c == 0x030B {
            Some(DATA::INT_TABLE)
        } else {
            None
        }
    }

    /// The item with code `c`, if there is one.
    pub fn from_u16(c: u16) -> (r: Option<DATA>)
        ensures
            r == Self::from_u16_spec(c),
    {
        if c == 0x0301 {
            Some(DATA::BYTE)
        } else if c == 0x0302 {
            Some(DATA::BOOL)
        } else if c == 0x0303 {
            Some(DATA::INT)
        } else if c == 0x0304 {
            Some(DATA::STRING)
        } else if c == 0x0305 {
            Some(DATA::BYTE_LIST)
        } else if c == 0x0306 {
            Some(DATA::BOOL_LIST)
        } else if c == 0x0307 {
            Some(DATA::INT_LIST)
        } else if c == 0x0308 {
            Some(DATA::STRING_LIST)
        } else if c == 0x0309 {
            Some(DATA::INT_INT)
        } else if c == 0x030A {
            Some(DATA::INT_INT_INT_INT)
        } else if c == 0x030B {
            Some(DATA::INT_TABLE)
        } else {
            None
        }
    }
}

/// Codes of the corpus library error category.
#[derive(Clone, Copy, Debug, PartialEq, Eq, Structural)]
pub enum CL_ERROR {
    NO_SUCH_ATTRIBUTE,
    WRONG_ATTRIBUTE_TYPE,
    OUT_OF_RANGE,
    REGEX,
    CORPUS_ACCESS,
    OUT_OF_MEMORY,
}

impl CL_ERROR {
    /// The code of this item on the wire.
    pub open spec fn spec_code(self) -> u16 {
        match self {
            CL_ERROR::NO_SUCH_ATTRIBUTE => 0x0401,
            CL_ERROR::WRONG_ATTRIBUTE_TYPE => 0x0402,
            CL_ERROR::OUT_OF_RANGE => 0x0403,
            CL_ERROR::REGEX => 0x0404,
            CL_ERROR::CORPUS_ACCESS => 0x0405,
            CL_ERROR::OUT_OF_MEMORY => 0x0406,
        }
    }

    /// The code of this item on the wire.
    #[verifier::when_used_as_spec(spec_code)]
    pub fn code(self) -> (r: u16)
        ensures
            r == self.spec_code(),
    {
        match self {
            CL_ERROR::NO_SUCH_ATTRIBUTE => 0x0401,
            CL_ERROR::WRONG_ATTRIBUTE_TYPE => 0x0402,
            CL_ERROR::OUT_OF_RANGE => 0x0403,
            CL_ERROR::REGEX => 0x0404,
            CL_ERROR::CORPUS_ACCESS => 0x0405,
            CL_ERROR::OUT_OF_MEMORY => 0x0406,
        }
    }

    /// The item with code `c`, if there is one.
    pub open spec fn from_u16_spec(c: u16) -> Option<CL_ERROR> {
        if c == 0x0401 {
            Some(CL_ERROR::NO_SUCH_ATTRIBUTE)
        } else if c == 0x0402 {
            Some(CL_ERROR::WRONG_ATTRIBUTE_TYPE)
        } else if c == 0x0403 {
            Some(CL_ERROR::OUT_OF_RANGE)
        } else if c == 0x0404 {
            Some(CL_ERROR::REGEX)
        } else if c == 0x0405 {
            Some(CL_ERROR::CORPUS_ACCESS)
        } else if c == 0x0406 {
            Some(CL_ERROR::OUT_OF_MEMORY)
        } else {
            None
        }
    }

    /// The item with code `c`, if there is one.
    pub fn from_u16(c: u16) -> (r: Option<CL_ERROR>)
        ensures
            r == Self::from_u16_spec(c),
    {
        if c == 0x0401 {
            Some(CL_ERROR::NO_SUCH_ATTRIBUTE)
        } else if c == 0x0402 {
            Some(CL_ERROR::WRONG_ATTRIBUTE_TYPE)
        } else if c == 0x0403 {
            Some(CL_ERROR::OUT_OF_RANGE)
        } else if c == 0x0404 {
            Some(CL_ERROR::REGEX)
        } else if c == 0x0405 {
            Some(CL_ERROR::CORPUS_ACCESS)
        } else if c == 0x0406 {
            Some(CL_ERROR::OUT_OF_MEMORY)
        } else {
            None
        }
    }
}

/// Codes of the query processor error category.
#[derive(Clone, Copy, Debug, PartialEq, Eq, Structural)]
pub enum CQP_ERROR {
    GENERAL,
    NO_SUCH_CORPUS,
    INVALID_FIELD,
    OUT_OF_RANGE,
}

impl CQP_ERROR {
    /// The code of this item on the wire.
    pub open spec fn spec_code(self) -> u16 {
        match self {
            CQP_ERROR::GENERAL => 0x0501,
            CQP_ERROR::NO_SUCH_CORPUS => 0x0502,
            CQP_ERROR::INVALID_FIELD => 0x0503,
            CQP_ERROR::OUT_OF_RANGE => 0x0504,
        }
    }

    /// The code of this item on the wire.
    #[verifier::when_used_as_spec(spec_code)]
    pub fn code(self) -> (r: u16)
        ensures
            r == self.spec_code(),
    {
        match self {
            CQP_ERROR::GENERAL => 0x0501,
            CQP_ERROR::NO_SUCH_CORPUS => 0x0502,
            CQP_ERROR::INVALID_FIELD => 0x0503,
            CQP_ERROR::OUT_OF_RANGE => 0x0504,
        }
    }

    /// The item with code `c`, if there is one.
    pub open spec fn from_u16_spec(c: u16) -> Option<CQP_ERROR> {
        if c == 0x0501 {
            Some(CQP_ERROR::GENERAL)
        } else if c == 0x0502 {
            Some(CQP_ERROR::NO_SUCH_CORPUS)
        } else if c == 0x0503 {
            Some(CQP_ERROR::INVALID_FIELD)
        } else if c == 0x0504 {
            Some(CQP_ERROR::OUT_OF_RANGE)
        } else {
            None
        }
    }

    /// The item with code `c`, if there is one.
    pub fn from_u16(c: u16) -> (r: Option<CQP_ERROR>)
        ensures
            r == Self::from_u16_spec(c),
    {
        if c == 0x0501 {
            Some(CQP_ERROR::GENERAL)
        } else if c == 0x0502 {
            Some(CQP_ERROR::NO_SUCH_CORPUS)
        } else if c == 0x0503 {
            Some(CQP_ERROR::INVALID_FIELD)
        } else if c == 0x0504 {
            Some(CQP_ERROR::OUT_OF_RANGE)
        } else {
            None
        }
    }
}

impl DATA {
    /// The shape of the value that follows a data response of this code.
    pub open spec fn spec_shape(self) -> Shape {
        match self {
            DATA::BYTE => Shape::Byte,
            DATA::BOOL => Shape::Bool,
            DATA::INT => Shape::Int,
            DATA::STRING => Shape::String,
            DATA::BYTE_LIST => Shape::ByteList,
            DATA::BOOL_LIST => Shape::BoolList,
            DATA::INT_LIST => Shape::IntList,
            DATA::STRING_LIST => Shape::StringList,
            DATA::INT_INT => Shape::IntPair,
            DATA::INT_INT_INT_INT => Shape::IntQuad,
            DATA::INT_TABLE => Shape::IntTable,
        }
    }

    /// The shape of the value that follows a data response of this code.
    #[verifier::when_used_as_spec(spec_shape)]
    pub fn shape(self) -> (r: Shape)
        ensures
            r == self.spec_shape(),
    {
        match self {
            DATA::BYTE => Shape::Byte,
            DATA::BOOL => Shape::Bool,
            DATA::INT => Shape::Int,
            DATA::STRING => Shape::String,
            DATA::BYTE_LIST => Shape::ByteList,
            DATA::BOOL_LIST => Shape::BoolList,
            DATA::INT_LIST => Shape::IntList,
            DATA::STRING_LIST => Shape::StringList,
            DATA::INT_INT => Shape::IntPair,
            DATA::INT_INT_INT_INT => Shape::IntQuad,
            DATA::INT_TABLE => Shape::IntTable,
        }
    }
}

/// The reply that a command expects when the server does not report an error.
#[derive(Clone, Copy, Debug, PartialEq, Eq, Structural)]
pub enum Expect {
    /// A status word.
    Status(STATUS),
    /// A data word and a value of its shape.
    Data(DATA),
    /// No reply at all.
    Nothing,
}

/// The commands of the protocol.
#[derive(Clone, Copy, Debug, PartialEq, Eq, Structural)]
pub enum COMMANDS {
    CTRL_CONNECT,
    CTRL_BYE,
    CTRL_USER_ABORT,
    CTRL_PING,
    /// full-text error message for the last general error reported by
    /// the CQi server
    CTRL_LAST_GENERAL_ERROR,
    ASK_FEATURE_CQI_1_0,
    ASK_FEATURE_CL_2_3,
    ASK_FEATURE_CQP_2_3,
    CORPUS_LIST_CORPORA,
    CORPUS_CHARSET,
    CORPUS_PROPERTIES,
    CORPUS_POSITIONAL_ATTRIBUTES,
    CORPUS_STRUCTURAL_ATTRIBUTES,
    CORPUS_STRUCTURAL_ATTRIBUTE_HAS_VALUES,
    CORPUS_ALIGNMENT_ATTRIBUTES,
    /// the full name of <corpus> as specified in its registry entry
    CORPUS_FULL_NAME,
    /// returns the contents of the .info file of <corpus> as a list of lines
    CORPUS_INFO,
    /// try to unload a corpus and all its attributes from memory
    CORPUS_DROP_CORPUS,
    /// returns the size of <attribute>:
    /// - number of tokens        (positional)
    /// - number of regions       (structural)
    /// - number of alignments    (alignment)
    CL_ATTRIBUTE_SIZE,
    /// returns the number of entries in the lexicon of a positional attribute;
    /// valid lexicon IDs range from 0 .. (lexicon_size - 1)
    CL_LEXICON_SIZE,
    /// unload attribute from memory
    CL_DROP_ATTRIBUTE,
    /// returns -1 for every string in <strings> that is not found in the lexicon
    CL_STR2ID,
    /// returns "" for every ID in <id> that is out of range
    CL_ID2STR,
    /// returns 0 for every ID in <id> that is out of range
    CL_ID2FREQ,
    /// returns -1 for every corpus position in <cpos> that is out of range
    CL_CPOS2ID,
    /// returns "" for every corpus position in <cpos> that is out of range
    CL_CPOS2STR,
    /// returns -1 for every corpus position not inside a structure region
    CL_CPOS2STRUC,
    /// returns left boundary of s-attribute region enclosing cpos, -1 if not in region
    CL_CPOS2LBOUND,
    /// returns right boundary of s-attribute region enclosing cpos, -1 if not in region
    CL_CPOS2RBOUND,
    /// returns -1 for every corpus position not inside an alignment
    CL_CPOS2ALG,
    /// returns annotated string values of structure regions in <strucs>; "" if out of range
    /// check COMMANDS::CORPUS_STRUCTURAL_ATTRIBUTE_HAS_VALUES(<attribute>) first
    CL_STRUC2STR,
    /// returns all corpus positions where the given token occurs
    CL_ID2CPOS,
    /// returns all corpus positions where one of the tokens in <id_list>
    /// occurs; the returned list is sorted as a whole, not per token id
    CL_IDLIST2CPOS,
    /// returns lexicon IDs of all tokens that match <regex>; the returned
    /// list may be empty (size 0);
    CL_REGEX2ID,
    /// returns start and end corpus positions of structure region <struc>
    CL_STRUC2CPOS,
    /// returns (src_start, src_end, target_start, target_end)
    CL_ALG2CPOS,
    /// <query> must include the ';' character terminating the query.
    CQP_QUERY,
    CQP_LIST_SUBCORPORA,
    CQP_SUBCORPUS_SIZE,
    CQP_SUBCORPUS_HAS_FIELD,
    /// Dump the values of <field> for match ranges <first> .. <last>
    /// in <subcorpus>. <field> is one of the FIELD_* constants.
    CQP_DUMP_SUBCORPUS,
    /// delete a subcorpus from memory
    CQP_DROP_SUBCORPUS,
    /// returns <n> (id, frequency) pairs flattened into a list of size 2*<n>
    /// field is one of FIELD_MATCH, FIELD_TARGET, FIELD_KEYWORD
    /// NB: pairs are sorted by frequency desc.
    CQP_FDIST_1,
    /// returns <n> (id1, id2, frequency) pairs flattened into a list of size 3*<n>
    /// NB: triples are sorted by frequency desc.
    CQP_FDIST_2,
}

impl COMMANDS {
    /// The code of this item on the wire.
    pub open spec fn spec_code(self) -> u16 {
        match self {
            COMMANDS::CTRL_CONNECT => 0x1101,
            COMMANDS::CTRL_BYE => 0x1102,
            COMMANDS::CTRL_USER_ABORT => 0x1103,
            COMMANDS::CTRL_PING => 0x1104,
            COMMANDS::CTRL_LAST_GENERAL_ERROR => 0x1105,
            COMMANDS::ASK_FEATURE_CQI_1_0 => 0x1201,
            COMMANDS::ASK_FEATURE_CL_2_3 => 0x1202,
            COMMANDS::ASK_FEATURE_CQP_2_3 => 0x1203,
            COMMANDS::CORPUS_LIST_CORPORA => 0x1301,
            COMMANDS::CORPUS_CHARSET => 0x1303,
            COMMANDS::CORPUS_PROPERTIES => 0x1304,
            COMMANDS::CORPUS_POSITIONAL_ATTRIBUTES => 0x1305,
            COMMANDS::CORPUS_STRUCTURAL_ATTRIBUTES => 0x1306,
            COMMANDS::CORPUS_STRUCTURAL_ATTRIBUTE_HAS_VALUES => 0x1307,
            COMMANDS::CORPUS_ALIGNMENT_ATTRIBUTES => 0x1308,
            COMMANDS::CORPUS_FULL_NAME => 0x1309,
            COMMANDS::CORPUS_INFO => 0x130A,
            COMMANDS::CORPUS_DROP_CORPUS => 0x130B,
            COMMANDS::CL_ATTRIBUTE_SIZE => 0x1401,
            COMMANDS::CL_LEXICON_SIZE => 0x1402,
            COMMANDS::CL_DROP_ATTRIBUTE => 0x1403,
            COMMANDS::CL_STR2ID => 0x1404,
            COMMANDS::CL_ID2STR => 0x1405,
            COMMANDS::CL_ID2FREQ => 0x1406,
            COMMANDS::CL_CPOS2ID => 0x1407,
            COMMANDS::CL_CPOS2STR => 0x1408,
            COMMANDS::CL_CPOS2STRUC => 0x1409,
            COMMANDS::CL_CPOS2LBOUND => 0x1420,
            COMMANDS::CL_CPOS2RBOUND => 0x1421,
            COMMANDS::CL_CPOS2ALG => 0x140A,
            COMMANDS::CL_STRUC2STR => 0x140B,
            COMMANDS::CL_ID2CPOS => 0x140C,
            COMMANDS::CL_IDLIST2CPOS => 0x140D,
            COMMANDS::CL_REGEX2ID => 0x140E,
            COMMANDS::CL_STRUC2CPOS => 0x140F,
            COMMANDS::CL_ALG2CPOS => 0x1410,
            COMMANDS::CQP_QUERY => 0x1501,
            COMMANDS::CQP_LIST_SUBCORPORA => 0x1502,
            COMMANDS::CQP_SUBCORPUS_SIZE => 0x1503,
            COMMANDS::CQP_SUBCORPUS_HAS_FIELD => 0x1504,
            COMMANDS::CQP_DUMP_SUBCORPUS => 0x1505,
            COMMANDS::CQP_DROP_SUBCORPUS => 0x1509,
            COMMANDS::CQP_FDIST_1 => 0x1510,
            COMMANDS::CQP_FDIST_2 => 0x1511,
        }
    }

    /// The code of this item on the wire.
    #[verifier::when_used_as_spec(spec_code)]
    pub fn code(self) -> (r: u16)
        ensures
            r == self.spec_code(),
    {
        match self {
            COMMANDS::CTRL_CONNECT => 0x1101,
            COMMANDS::CTRL_BYE => 0x1102,
            COMMANDS::CTRL_USER_ABORT => 0x1103,
            COMMANDS::CTRL_PING => 0x1104,
            COMMANDS::CTRL_LAST_GENERAL_ERROR => 0x1105,
            COMMANDS::ASK_FEATURE_CQI_1_0 => 0x1201,
            COMMANDS::ASK_FEATURE_CL_2_3 => 0x1202,
            COMMANDS::ASK_FEATURE_CQP_2_3 => 0x1203,
            COMMANDS::CORPUS_LIST_CORPORA => 0x1301,
            COMMANDS::CORPUS_CHARSET => 0x1303,
            COMMANDS::CORPUS_PROPERTIES => 0x1304,
            COMMANDS::CORPUS_POSITIONAL_ATTRIBUTES => 0x1305,
            COMMANDS::CORPUS_STRUCTURAL_ATTRIBUTES => 0x1306,
            COMMANDS::CORPUS_STRUCTURAL_ATTRIBUTE_HAS_VALUES => 0x1307,
            COMMANDS::CORPUS_ALIGNMENT_ATTRIBUTES => 0x1308,
            COMMANDS::CORPUS_FULL_NAME => 0x1309,
            COMMANDS::CORPUS_INFO => 0x130A,
            COMMANDS::CORPUS_DROP_CORPUS => 0x130B,
            COMMANDS::CL_ATTRIBUTE_SIZE => 0x1401,
            COMMANDS::CL_LEXICON_SIZE => 0x1402,
            COMMANDS::CL_DROP_ATTRIBUTE => 0x1403,
            COMMANDS::CL_STR2ID => 0x1404,
            COMMANDS::CL_ID2STR => 0x1405,
            COMMANDS::CL_ID2FREQ => 0x1406,
            COMMANDS::CL_CPOS2ID => 0x1407,
            COMMANDS::CL_CPOS2STR => 0x1408,
            COMMANDS::CL_CPOS2STRUC => 0x1409,
            COMMANDS::CL_CPOS2LBOUND => 0x1420,
            COMMANDS::CL_CPOS2RBOUND => 0x1421,
            COMMANDS::CL_CPOS2ALG => 0x140A,
            COMMANDS::CL_STRUC2STR => 0x140B,
            COMMANDS::CL_ID2CPOS => 0x140C,
            COMMANDS::CL_IDLIST2CPOS => 0x140D,
            COMMANDS::CL_REGEX2ID => 0x140E,
            COMMANDS::CL_STRUC2CPOS => 0x140F,
            COMMANDS::CL_ALG2CPOS => 0x1410,
            COMMANDS::CQP_QUERY => 0x1501,
            COMMANDS::CQP_LIST_SUBCORPORA => 0x1502,
            COMMANDS::CQP_SUBCORPUS_SIZE => 0x1503,
            COMMANDS::CQP_SUBCORPUS_HAS_FIELD => 0x1504,
            COMMANDS::CQP_DUMP_SUBCORPUS => 0x1505,
            COMMANDS::CQP_DROP_SUBCORPUS => 0x1509,
            COMMANDS::CQP_FDIST_1 => 0x1510,
            COMMANDS::CQP_FDIST_2 => 0x1511,
        }
    }

    /// The item with code `c`, if there is one.
    pub open spec fn from_u16_spec(c: u16) -> Option<COMMANDS> {
        if c == 0x1101 {
            Some(COMMANDS::CTRL_CONNECT)
        } else if c == 0x1102 {
            Some(COMMANDS::CTRL_BYE)
        } else if c == 0x1103 {
            Some(COMMANDS::CTRL_USER_ABORT)
        } else if c == 0x1104 {
            Some(COMMANDS::CTRL_PING)
        } else if c == 0x1105 {
            Some(COMMANDS::CTRL_LAST_GENERAL_ERROR)
        } else if c == 0x1201 {
            Some(COMMANDS::ASK_FEATURE_CQI_1_0)
        } else if c == 0x1202 {
            Some(COMMANDS::ASK_FEATURE_CL_2_3)
        } else if c == 0x1203 {
            Some(COMMANDS::ASK_FEATURE_CQP_2_3)
        } else if c == 0x1301 {
            Some(COMMANDS::CORPUS_LIST_CORPORA)
        } else if c == 0x1303 {
            Some(COMMANDS::CORPUS_CHARSET)
        } else if c == 0x1304 {
            Some(COMMANDS::CORPUS_PROPERTIES)
        } else if c == 0x1305 {
            Some(COMMANDS::CORPUS_POSITIONAL_ATTRIBUTES)
        } else if c == 0x1306 {
            Some(COMMANDS::CORPUS_STRUCTURAL_ATTRIBUTES)
        } else if c == 0x1307 {
            Some(COMMANDS::CORPUS_STRUCTURAL_ATTRIBUTE_HAS_VALUES)
        } else if c == 0x1308 {
            Some(COMMANDS::CORPUS_ALIGNMENT_ATTRIBUTES)
        } else if c == 0x1309 {
            Some(COMMANDS::CORPUS_FULL_NAME)
        } else if c == 0x130A {
            Some(COMMANDS::CORPUS_INFO)
        } else if c == 0x130B {
            Some(COMMANDS::CORPUS_DROP_CORPUS)
        } else if c == 0x1401 {
            Some(COMMANDS::CL_ATTRIBUTE_SIZE)
        } else if c == 0x1402 {
            Some(COMMANDS::CL_LEXICON_SIZE)
        } else if c == 0x1403 {
            Some(COMMANDS::CL_DROP_ATTRIBUTE)
        } else if c == 0x1404 {
            Some(COMMANDS::CL_STR2ID)
        } else if c == 0x1405 {
            Some(COMMANDS::CL_ID2STR)
        } else if c == 0x1406 {
            Some(COMMANDS::CL_ID2FREQ)
        } else if c == 0x1407 {
            Some(COMMANDS::CL_CPOS2ID)
        } else if c == 0x1408 {
            Some(COMMANDS::CL_CPOS2STR)
        } else if c == 0x1409 {
            Some(COMMANDS::CL_CPOS2STRUC)
        } else if c == 0x1420 {
            Some(COMMANDS::CL_CPOS2LBOUND)
        } else if c == 0x1421 {
            Some(COMMANDS::CL_CPOS2RBOUND)
        } else if c == 0x140A {
            Some(COMMANDS::CL_CPOS2ALG)
        } else if c == 0x140B {
            Some(COMMANDS::CL_STRUC2STR)
        } else if c == 0x140C {
            Some(COMMANDS::CL_ID2CPOS)
        } else if c == 0x140D {
            Some(COMMANDS::CL_IDLIST2CPOS)
        } else if c == 0x140E {
            Some(COMMANDS::CL_REGEX2ID)
        } else if c == 0x140F {
            Some(COMMANDS::CL_STRUC2CPOS)
        } else if c == 0x1410 {
            Some(COMMANDS::CL_ALG2CPOS)
        } else if c == 0x1501 {
            Some(COMMANDS::CQP_QUERY)
        } else if c == 0x1502 {
            Some(COMMANDS::CQP_LIST_SUBCORPORA)
        } else if c == 0x1503 {
            Some(COMMANDS::CQP_SUBCORPUS_SIZE)
        } else if c == 0x1504 {
            Some(COMMANDS::CQP_SUBCORPUS_HAS_FIELD)
        } else if c == 0x1505 {
            Some(COMMANDS::CQP_DUMP_SUBCORPUS)
        } else if c == 0x1509 {
            Some(COMMANDS::CQP_DROP_SUBCORPUS)
        } else if c == 0x1510 {
            Some(COMMANDS::CQP_FDIST_1)
        } else if c == 0x1511 {
            Some(COMMANDS::CQP_FDIST_2)
        } else {
            None
        }
    }

    /// The item with code `c`, if there is one.
    pub fn from_u16(c: u16) -> (r: Option<COMMANDS>)
        ensures
            r == Self::from_u16_spec(c),
    {
        if c == 0x1101 {
            Some(COMMANDS::CTRL_CONNECT)
        } else if c == 0x1102 {
            Some(COMMANDS::CTRL_BYE)
        } else if c == 0x1103 {
            Some(COMMANDS::CTRL_USER_ABORT)
        } else if c == 0x1104 {
            Some(COMMANDS::CTRL_PING)
        } else if c == 0x1105 {
            Some(COMMANDS::CTRL_LAST_GENERAL_ERROR)
        } else if c == 0x1201 {
            Some(COMMANDS::ASK_FEATURE_CQI_1_0)
        } else if c == 0x1202 {
            Some(COMMANDS::ASK_FEATURE_CL_2_3)
        } else if c == 0x1203 {
            Some(COMMANDS::ASK_FEATURE_CQP_2_3)
        } else if c == 0x1301 {
            Some(COMMANDS::CORPUS_LIST_CORPORA)
        } else if c == 0x1303 {
            Some(COMMANDS::CORPUS_CHARSET)
        } else if c == 0x1304 {
            Some(COMMANDS::CORPUS_PROPERTIES)
        } else if c == 0x1305 {
            Some(COMMANDS::CORPUS_POSITIONAL_ATTRIBUTES)
        } else if c == 0x1306 {
            Some(COMMANDS::CORPUS_STRUCTURAL_ATTRIBUTES)
        } else if c == 0x1307 {
            Some(COMMANDS::CORPUS_STRUCTURAL_ATTRIBUTE_HAS_VALUES)
        } else if c == 0x1308 {
            Some(COMMANDS::CORPUS_ALIGNMENT_ATTRIBUTES)
        } else if c == 0x1309 {
            Some(COMMANDS::CORPUS_FULL_NAME)
        } else if c == 0x130A {
            Some(COMMANDS::CORPUS_INFO)
        } else if c == 0x130B {
            Some(COMMANDS::CORPUS_DROP_CORPUS)
        } else if c == 0x1401 {
            Some(COMMANDS::CL_ATTRIBUTE_SIZE)
        } else if c == 0x1402 {
            Some(COMMANDS::CL_LEXICON_SIZE)
        } else if c == 0x1403 {
            Some(COMMANDS::CL_DROP_ATTRIBUTE)
        } else if c == 0x1404 {
            Some(COMMANDS::CL_STR2ID)
        } else if c == 0x1405 {
            Some(COMMANDS::CL_ID2STR)
        } else if c == 0x1406 {
            Some(COMMANDS::CL_ID2FREQ)
        } else if c == 0x1407 {
            Some(COMMANDS::CL_CPOS2ID)
        } else if c == 0x1408 {
            Some(COMMANDS::CL_CPOS2STR)
        } else if c == 0x1409 {
            Some(COMMANDS::CL_CPOS2STRUC)
        } else if c == 0x1420 {
            Some(COMMANDS::CL_CPOS2LBOUND)
        } else if c == 0x1421 {
            Some(COMMANDS::CL_CPOS2RBOUND)
        } else if c == 0x140A {
            Some(COMMANDS::CL_CPOS2ALG)
        } else if c == 0x140B {
            Some(COMMANDS::CL_STRUC2STR)
        } else if c == 0x140C {
            Some(COMMANDS::CL_ID2CPOS)
        } else if c == 0x140D {
            Some(COMMANDS::CL_IDLIST2CPOS)
        } else if c == 0x140E {
            Some(COMMANDS::CL_REGEX2ID)
        } else if c == 0x140F {
            Some(COMMANDS::CL_STRUC2CPOS)
        } else if c == 0x1410 {
            Some(COMMANDS::CL_ALG2CPOS)
        } else if c == 0x1501 {
            Some(COMMANDS::CQP_QUERY)
        } else if c == 0x1502 {
            Some(COMMANDS::CQP_LIST_SUBCORPORA)
        } else if c == 0x1503 {
            Some(COMMANDS::CQP_SUBCORPUS_SIZE)
        } else if c == 0x1504 {
            Some(COMMANDS::CQP_SUBCORPUS_HAS_FIELD)
        } else if c == 0x1505 {
            Some(COMMANDS::CQP_DUMP_SUBCORPUS)
        } else if c == 0x1509 {
            Some(COMMANDS::CQP_DROP_SUBCORPUS)
        } else if c == 0x1510 {
            Some(COMMANDS::CQP_FDIST_1)
        } else if c == 0x1511 {
            Some(COMMANDS::CQP_FDIST_2)
        } else {
            None
        }
    }
}

impl COMMANDS {
    /// The name of this command.
    pub open spec fn spec_name(self) -> Seq<char> {
        match self {
            COMMANDS::CTRL_CONNECT => "CTRL_CONNECT"@,
            COMMANDS::CTRL_BYE => "CTRL_BYE"@,
            COMMANDS::CTRL_USER_ABORT => "CTRL_USER_ABORT"@,
            COMMANDS::CTRL_PING => "CTRL_PING"@,
            COMMANDS::CTRL_LAST_GENERAL_ERROR => "CTRL_LAST_GENERAL_ERROR"@,
            COMMANDS::ASK_FEATURE_CQI_1_0 => "ASK_FEATURE_CQI_1_0"@,
            COMMANDS::ASK_FEATURE_CL_2_3 => "ASK_FEATURE_CL_2_3"@,
            COMMANDS::ASK_FEATURE_CQP_2_3 => "ASK_FEATURE_CQP_2_3"@,
            COMMANDS::CORPUS_LIST_CORPORA => "CORPUS_LIST_CORPORA"@,
            COMMANDS::CORPUS_CHARSET => "CORPUS_CHARSET"@,
            COMMANDS::CORPUS_PROPERTIES => "CORPUS_PROPERTIES"@,
            COMMANDS::CORPUS_POSITIONAL_ATTRIBUTES => "CORPUS_POSITIONAL_ATTRIBUTES"@,
            COMMANDS::CORPUS_STRUCTURAL_ATTRIBUTES => "CORPUS_STRUCTURAL_ATTRIBUTES"@,
            COMMANDS::CORPUS_STRUCTURAL_ATTRIBUTE_HAS_VALUES => "CORPUS_STRUCTURAL_ATTRIBUTE_HAS_VALUES"@,
            COMMANDS::CORPUS_ALIGNMENT_ATTRIBUTES => "CORPUS_ALIGNMENT_ATTRIBUTES"@,
            COMMANDS::CORPUS_FULL_NAME => "CORPUS_FULL_NAME"@,
            COMMANDS::CORPUS_INFO => "CORPUS_INFO"@,
            COMMANDS::CORPUS_DROP_CORPUS => "CORPUS_DROP_CORPUS"@,
            COMMANDS::CL_ATTRIBUTE_SIZE => "CL_ATTRIBUTE_SIZE"@,
            COMMANDS::CL_LEXICON_SIZE => "CL_LEXICON_SIZE"@,
            COMMANDS::CL_DROP_ATTRIBUTE => "CL_DROP_ATTRIBUTE"@,
            COMMANDS::CL_STR2ID => "CL_STR2ID"@,
            COMMANDS::CL_ID2STR => "CL_ID2STR"@,
            COMMANDS::CL_ID2FREQ => "CL_ID2FREQ"@,
            COMMANDS::CL_CPOS2ID => "CL_CPOS2ID"@,
            COMMANDS::CL_CPOS2STR => "CL_CPOS2STR"@,
            COMMANDS::CL_CPOS2STRUC => "CL_CPOS2STRUC"@,
            COMMANDS::CL_CPOS2LBOUND => "CL_CPOS2LBOUND"@,
            COMMANDS::CL_CPOS2RBOUND => "CL_CPOS2RBOUND"@,
            COMMANDS::CL_CPOS2ALG => "CL_CPOS2ALG"@,
            COMMANDS::CL_STRUC2STR => "CL_STRUC2STR"@,
            COMMANDS::CL_ID2CPOS => "CL_ID2CPOS"@,
            COMMANDS::CL_IDLIST2CPOS => "CL_IDLIST2CPOS"@,
            COMMANDS::CL_REGEX2ID => "CL_REGEX2ID"@,
            COMMANDS::CL_STRUC2CPOS => "CL_STRUC2CPOS"@,
            COMMANDS::CL_ALG2CPOS => "CL_ALG2CPOS"@,
            COMMANDS::CQP_QUERY => "CQP_QUERY"@,
            COMMANDS::CQP_LIST_SUBCORPORA => "CQP_LIST_SUBCORPORA"@,
            COMMANDS::CQP_SUBCORPUS_SIZE => "CQP_SUBCORPUS_SIZE"@,
            COMMANDS::CQP_SUBCORPUS_HAS_FIELD => "CQP_SUBCORPUS_HAS_FIELD"@,
            COMMANDS::CQP_DUMP_SUBCORPUS => "CQP_DUMP_SUBCORPUS"@,
            COMMANDS::CQP_DROP_SUBCORPUS => "CQP_DROP_SUBCORPUS"@,
            COMMANDS::CQP_FDIST_1 => "CQP_FDIST_1"@,
            COMMANDS::CQP_FDIST_2 => "CQP_FDIST_2"@,
        }
    }

    /// The name of this command.
    pub fn name(self) -> (r: &'static str)
        ensures
            r@ == self.spec_name(),
    {
        match self {
            COMMANDS::CTRL_CONNECT => "CTRL_CONNECT",
            COMMANDS::CTRL_BYE => "CTRL_BYE",
            COMMANDS::CTRL_USER_ABORT => "CTRL_USER_ABORT",
            COMMANDS::CTRL_PING => "CTRL_PING",
            COMMANDS::CTRL_LAST_GENERAL_ERROR => "CTRL_LAST_GENERAL_ERROR",
            COMMANDS::ASK_FEATURE_CQI_1_0 => "ASK_FEATURE_CQI_1_0",
            COMMANDS::ASK_FEATURE_CL_2_3 => "ASK_FEATURE_CL_2_3",
            COMMANDS::ASK_FEATURE_CQP_2_3 => "ASK_FEATURE_CQP_2_3",
            COMMANDS::CORPUS_LIST_CORPORA => "CORPUS_LIST_CORPORA",
            COMMANDS::CORPUS_CHARSET => "CORPUS_CHARSET",
            COMMANDS::CORPUS_PROPERTIES => "CORPUS_PROPERTIES",
            COMMANDS::CORPUS_POSITIONAL_ATTRIBUTES => "CORPUS_POSITIONAL_ATTRIBUTES",
            COMMANDS::CORPUS_STRUCTURAL_ATTRIBUTES => "CORPUS_STRUCTURAL_ATTRIBUTES",
            COMMANDS::CORPUS_STRUCTURAL_ATTRIBUTE_HAS_VALUES => "CORPUS_STRUCTURAL_ATTRIBUTE_HAS_VALUES",
            COMMANDS::CORPUS_ALIGNMENT_ATTRIBUTES => "CORPUS_ALIGNMENT_ATTRIBUTES",
            COMMANDS::CORPUS_FULL_NAME => "CORPUS_FULL_NAME",
            COMMANDS::CORPUS_INFO => "CORPUS_INFO",
            COMMANDS::CORPUS_DROP_CORPUS => "CORPUS_DROP_CORPUS",
            COMMANDS::CL_ATTRIBUTE_SIZE => "CL_ATTRIBUTE_SIZE",
            COMMANDS::CL_LEXICON_SIZE => "CL_LEXICON_SIZE",
            COMMANDS::CL_DROP_ATTRIBUTE => "CL_DROP_ATTRIBUTE",
            COMMANDS::CL_STR2ID => "CL_STR2ID",
            COMMANDS::CL_ID2STR => "CL_ID2STR",
            COMMANDS::CL_ID2FREQ => "CL_ID2FREQ",
            COMMANDS::CL_CPOS2ID => "CL_CPOS2ID",
            COMMANDS::CL_CPOS2STR => "CL_CPOS2STR",
            COMMANDS::CL_CPOS2STRUC => "CL_CPOS2STRUC",
            COMMANDS::CL_CPOS2LBOUND => "CL_CPOS2LBOUND",
            COMMANDS::CL_CPOS2RBOUND => "CL_CPOS2RBOUND",
            COMMANDS::CL_CPOS2ALG => "CL_CPOS2ALG",
            COMMANDS::CL_STRUC2STR => "CL_STRUC2STR",
            COMMANDS::CL_ID2CPOS => "CL_ID2CPOS",
            COMMANDS::CL_IDLIST2CPOS => "CL_IDLIST2CPOS",
            COMMANDS::CL_REGEX2ID => "CL_REGEX2ID",
            COMMANDS::CL_STRUC2CPOS => "CL_STRUC2CPOS",
            COMMANDS::CL_ALG2CPOS => "CL_ALG2CPOS",
            COMMANDS::CQP_QUERY => "CQP_QUERY",
            COMMANDS::CQP_LIST_SUBCORPORA => "CQP_LIST_SUBCORPORA",
            COMMANDS::CQP_SUBCORPUS_SIZE => "CQP_SUBCORPUS_SIZE",
            COMMANDS::CQP_SUBCORPUS_HAS_FIELD => "CQP_SUBCORPUS_HAS_FIELD",
            COMMANDS::CQP_DUMP_SUBCORPUS => "CQP_DUMP_SUBCORPUS",
            COMMANDS::CQP_DROP_SUBCORPUS => "CQP_DROP_SUBCORPUS",
            COMMANDS::CQP_FDIST_1 => "CQP_FDIST_1",
            COMMANDS::CQP_FDIST_2 => "CQP_FDIST_2",
        }
    }

    /// The command of the given name, if there is one.
    pub open spec fn from_name_spec(s: Seq<char>) -> Option<COMMANDS> {
        if s == "CTRL_CONNECT"@ {
            Some(COMMANDS::CTRL_CONNECT)
        } else if s == "CTRL_BYE"@ {
            Some(COMMANDS::CTRL_BYE)
        } else if s == "CTRL_USER_ABORT"@ {
            Some(COMMANDS::CTRL_USER_ABORT)
        } else if s == "CTRL_PING"@ {
            Some(COMMANDS::CTRL_PING)
        } else if s == "CTRL_LAST_GENERAL_ERROR"@ {
            Some(COMMANDS::CTRL_LAST_GENERAL_ERROR)
        } else if s == "ASK_FEATURE_CQI_1_0"@ {
            Some(COMMANDS::ASK_FEATURE_CQI_1_0)
        } else if s == "ASK_FEATURE_CL_2_3"@ {
            Some(COMMANDS::ASK_FEATURE_CL_2_3)
        } else if s == "ASK_FEATURE_CQP_2_3"@ {
            Some(COMMANDS::ASK_FEATURE_CQP_2_3)
        } else if s == "CORPUS_LIST_CORPORA"@ {
            Some(COMMANDS::CORPUS_LIST_CORPORA)
        } else if s == "CORPUS_CHARSET"@ {
            Some(COMMANDS::CORPUS_CHARSET)
        } else if s == "CORPUS_PROPERTIES"@ {
            Some(COMMANDS::CORPUS_PROPERTIES)
        } else if s == "CORPUS_POSITIONAL_ATTRIBUTES"@ {
            Some(COMMANDS::CORPUS_POSITIONAL_ATTRIBUTES)
        } else if s == "CORPUS_STRUCTURAL_ATTRIBUTES"@ {
            Some(COMMANDS::CORPUS_STRUCTURAL_ATTRIBUTES)
        } else if s == "CORPUS_STRUCTURAL_ATTRIBUTE_HAS_VALUES"@ {
            Some(COMMANDS::CORPUS_STRUCTURAL_ATTRIBUTE_HAS_VALUES)
        } else if s == "CORPUS_ALIGNMENT_ATTRIBUTES"@ {
            Some(COMMANDS::CORPUS_ALIGNMENT_ATTRIBUTES)
        } else if s == "CORPUS_FULL_NAME"@ {
            Some(COMMANDS::CORPUS_FULL_NAME)
        } else if s == "CORPUS_INFO"@ {
            Some(COMMANDS::CORPUS_INFO)
        } else if s == "CORPUS_DROP_CORPUS"@ {
            Some(COMMANDS::CORPUS_DROP_CORPUS)
        } else if s == "CL_ATTRIBUTE_SIZE"@ {
            Some(COMMANDS::CL_ATTRIBUTE_SIZE)
        } else if s == "CL_LEXICON_SIZE"@ {
            Some(COMMANDS::CL_LEXICON_SIZE)
        } else if s == "CL_DROP_ATTRIBUTE"@ {
            Some(COMMANDS::CL_DROP_ATTRIBUTE)
        } else if s == "CL_STR2ID"@ {
            Some(COMMANDS::CL_STR2ID)
        } else if s == "CL_ID2STR"@ {
            Some(COMMANDS::CL_ID2STR)
        } else if s == "CL_ID2FREQ"@ {
            Some(COMMANDS::CL_ID2FREQ)
        } else if s == "CL_CPOS2ID"@ {
            Some(COMMANDS::CL_CPOS2ID)
        } else if s == "CL_CPOS2STR"@ {
            Some(COMMANDS::CL_CPOS2STR)
        } else if s == "CL_CPOS2STRUC"@ {
            Some(COMMANDS::CL_CPOS2STRUC)
        } else if s == "CL_CPOS2LBOUND"@ {
            Some(COMMANDS::CL_CPOS2LBOUND)
        } else if s == "CL_CPOS2RBOUND"@ {
            Some(COMMANDS::CL_CPOS2RBOUND)
        } else if s == "CL_CPOS2ALG"@ {
            Some(COMMANDS::CL_CPOS2ALG)
        } else if s == "CL_STRUC2STR"@ {
            Some(COMMANDS::CL_STRUC2STR)
        } else if s == "CL_ID2CPOS"@ {
            Some(COMMANDS::CL_ID2CPOS)
        } else if s == "CL_IDLIST2CPOS"@ {
            Some(COMMANDS::CL_IDLIST2CPOS)
        } else if s == "CL_REGEX2ID"@ {
            Some(COMMANDS::CL_REGEX2ID)
        } else if s == "CL_STRUC2CPOS"@ {
            Some(COMMANDS::CL_STRUC2CPOS)
        } else if s == "CL_ALG2CPOS"@ {
            Some(COMMANDS::CL_ALG2CPOS)
        } else if s == "CQP_QUERY"@ {
            Some(COMMANDS::CQP_QUERY)
        } else if s == "CQP_LIST_SUBCORPORA"@ {
            Some(COMMANDS::CQP_LIST_SUBCORPORA)
        } else if s == "CQP_SUBCORPUS_SIZE"@ {
            Some(COMMANDS::CQP_SUBCORPUS_SIZE)
        } else if s == "CQP_SUBCORPUS_HAS_FIELD"@ {
            Some(COMMANDS::CQP_SUBCORPUS_HAS_FIELD)
        } else if s == "CQP_DUMP_SUBCORPUS"@ {
            Some(COMMANDS::CQP_DUMP_SUBCORPUS)
        } else if s == "CQP_DROP_SUBCORPUS"@ {
            Some(COMMANDS::CQP_DROP_SUBCORPUS)
        } else if s == "CQP_FDIST_1"@ {
            Some(COMMANDS::CQP_FDIST_1)
        } else if s == "CQP_FDIST_2"@ {
            Some(COMMANDS::CQP_FDIST_2)
        } else {
            None
        }
    }

    /// The command of the given name, if there is one.
    pub fn from_name(s: &str) -> (r: Option<COMMANDS>)
        ensures
            r == Self::from_name_spec(s@),
            r matches Some(c) ==> c.spec_name() == s@,
            r is None ==> forall|c: COMMANDS| c.spec_name() != s@,
    {
        if str_eq(s, "CTRL_CONNECT") {
            Some(COMMANDS::CTRL_CONNECT)
        } else if str_eq(s, "CTRL_BYE") {
            Some(COMMANDS::CTRL_BYE)
        } else if str_eq(s, "CTRL_USER_ABORT") {
            Some(COMMANDS::CTRL_USER_ABORT)
        } else if str_eq(s, "CTRL_PING") {
            Some(COMMANDS::CTRL_PING)
        } else if str_eq(s, "CTRL_LAST_GENERAL_ERROR") {
            Some(COMMANDS::CTRL_LAST_GENERAL_ERROR)
        } else if str_eq(s, "ASK_FEATURE_CQI_1_0") {
            Some(COMMANDS::ASK_FEATURE_CQI_1_0)
        } else if str_eq(s, "ASK_FEATURE_CL_2_3") {
            Some(COMMANDS::ASK_FEATURE_CL_2_3)
        } else if str_eq(s, "ASK_FEATURE_CQP_2_3") {
            Some(COMMANDS::ASK_FEATURE_CQP_2_3)
        } else if str_eq(s, "CORPUS_LIST_CORPORA") {
            Some(COMMANDS::CORPUS_LIST_CORPORA)
        } else if str_eq(s, "CORPUS_CHARSET") {
            Some(COMMANDS::CORPUS_CHARSET)
        } else if str_eq(s, "CORPUS_PROPERTIES") {
            Some(COMMANDS::CORPUS_PROPERTIES)
        } else if str_eq(s, "CORPUS_POSITIONAL_ATTRIBUTES") {
            Some(COMMANDS::CORPUS_POSITIONAL_ATTRIBUTES)
        } else if str_eq(s, "CORPUS_STRUCTURAL_ATTRIBUTES") {
            Some(COMMANDS::CORPUS_STRUCTURAL_ATTRIBUTES)
        } else if str_eq(s, "CORPUS_STRUCTURAL_ATTRIBUTE_HAS_VALUES") {
            Some(COMMANDS::CORPUS_STRUCTURAL_ATTRIBUTE_HAS_VALUES)
        } else if str_eq(s, "CORPUS_ALIGNMENT_ATTRIBUTES") {
            Some(COMMANDS::CORPUS_ALIGNMENT_ATTRIBUTES)
        } else if str_eq(s, "CORPUS_FULL_NAME") {
            Some(COMMANDS::CORPUS_FULL_NAME)
        } else if str_eq(s, "CORPUS_INFO") {
            Some(COMMANDS::CORPUS_INFO)
        } else if str_eq(s, "CORPUS_DROP_CORPUS") {
            Some(COMMANDS::CORPUS_DROP_CORPUS)
        } else if str_eq(s, "CL_ATTRIBUTE_SIZE") {
            Some(COMMANDS::CL_ATTRIBUTE_SIZE)
        } else if str_eq(s, "CL_LEXICON_SIZE") {
            Some(COMMANDS::CL_LEXICON_SIZE)
        } else if str_eq(s, "CL_DROP_ATTRIBUTE") {
            Some(COMMANDS::CL_DROP_ATTRIBUTE)
        } else if str_eq(s, "CL_STR2ID") {
            Some(COMMANDS::CL_STR2ID)
        } else if str_eq(s, "CL_ID2STR") {
            Some(COMMANDS::CL_ID2STR)
        } else if str_eq(s, "CL_ID2FREQ") {
            Some(COMMANDS::CL_ID2FREQ)
        } else if str_eq(s, "CL_CPOS2ID") {
            Some(COMMANDS::CL_CPOS2ID)
        } else if str_eq(s, "CL_CPOS2STR") {
            Some(COMMANDS::CL_CPOS2STR)
        } else if str_eq(s, "CL_CPOS2STRUC") {
            Some(COMMANDS::CL_CPOS2STRUC)
        } else if str_eq(s, "CL_CPOS2LBOUND") {
            Some(COMMANDS::CL_CPOS2LBOUND)
        } else if str_eq(s, "CL_CPOS2RBOUND") {
            Some(COMMANDS::CL_CPOS2RBOUND)
        } else if str_eq(s, "CL_CPOS2ALG") {
            Some(COMMANDS::CL_CPOS2ALG)
        } else if str_eq(s, "CL_STRUC2STR") {
            Some(COMMANDS::CL_STRUC2STR)
        } else if str_eq(s, "CL_ID2CPOS") {
            Some(COMMANDS::CL_ID2CPOS)
        } else if str_eq(s, "CL_IDLIST2CPOS") {
            Some(COMMANDS::CL_IDLIST2CPOS)
        } else if str_eq(s, "CL_REGEX2ID") {
            Some(COMMANDS::CL_REGEX2ID)
        } else if str_eq(s, "CL_STRUC2CPOS") {
            Some(COMMANDS::CL_STRUC2CPOS)
        } else if str_eq(s, "CL_ALG2CPOS") {
            Some(COMMANDS::CL_ALG2CPOS)
        } else if str_eq(s, "CQP_QUERY") {
            Some(COMMANDS::CQP_QUERY)
        } else if str_eq(s, "CQP_LIST_SUBCORPORA") {
            Some(COMMANDS::CQP_LIST_SUBCORPORA)
        } else if str_eq(s, "CQP_SUBCORPUS_SIZE") {
            Some(COMMANDS::CQP_SUBCORPUS_SIZE)
        } else if str_eq(s, "CQP_SUBCORPUS_HAS_FIELD") {
            Some(COMMANDS::CQP_SUBCORPUS_HAS_FIELD)
        } else if str_eq(s, "CQP_DUMP_SUBCORPUS") {
            Some(COMMANDS::CQP_DUMP_SUBCORPUS)
        } else if str_eq(s, "CQP_DROP_SUBCORPUS") {
            Some(COMMANDS::CQP_DROP_SUBCORPUS)
        } else if str_eq(s, "CQP_FDIST_1") {
            Some(COMMANDS::CQP_FDIST_1)
        } else if str_eq(s, "CQP_FDIST_2") {
            Some(COMMANDS::CQP_FDIST_2)
        } else {
            None
        }
    }

    /// The shapes of the arguments, in order.
    pub open spec fn spec_args(self) -> Seq<Shape> {
        match self {
            COMMANDS::CTRL_CONNECT => seq![Shape::String, Shape::String],
            COMMANDS::CTRL_BYE => seq![],
            COMMANDS::CTRL_USER_ABORT => seq![],
            COMMANDS::CTRL_PING => seq![],
            COMMANDS::CTRL_LAST_GENERAL_ERROR => seq![],
            COMMANDS::ASK_FEATURE_CQI_1_0 => seq![],
            COMMANDS::ASK_FEATURE_CL_2_3 => seq![],
            COMMANDS::ASK_FEATURE_CQP_2_3 => seq![],
            COMMANDS::CORPUS_LIST_CORPORA => seq![],
            COMMANDS::CORPUS_CHARSET => seq![Shape::String],
            COMMANDS::CORPUS_PROPERTIES => seq![Shape::String],
            COMMANDS::CORPUS_POSITIONAL_ATTRIBUTES => seq![Shape::String],
            COMMANDS::CORPUS_STRUCTURAL_ATTRIBUTES => seq![Shape::String],
            COMMANDS::CORPUS_STRUCTURAL_ATTRIBUTE_HAS_VALUES => seq![Shape::String],
            COMMANDS::CORPUS_ALIGNMENT_ATTRIBUTES => seq![Shape::String],
            COMMANDS::CORPUS_FULL_NAME => seq![Shape::String],
            COMMANDS::CORPUS_INFO => seq![Shape::String],
            COMMANDS::CORPUS_DROP_CORPUS => seq![Shape::String],
            COMMANDS::CL_ATTRIBUTE_SIZE => seq![Shape::String],
            COMMANDS::CL_LEXICON_SIZE => seq![Shape::String],
            COMMANDS::CL_DROP_ATTRIBUTE => seq![Shape::String],
            COMMANDS::CL_STR2ID => seq![Shape::String, Shape::StringList],
            COMMANDS::CL_ID2STR => seq![Shape::String, Shape::IntList],
            COMMANDS::CL_ID2FREQ => seq![Shape::String, Shape::IntList],
            COMMANDS::CL_CPOS2ID => seq![Shape::String, Shape::IntList],
            COMMANDS::CL_CPOS2STR => seq![Shape::String, Shape::IntList],
            COMMANDS::CL_CPOS2STRUC => seq![Shape::String, Shape::IntList],
            COMMANDS::CL_CPOS2LBOUND => seq![Shape::String, Shape::IntList],
            COMMANDS::CL_CPOS2RBOUND => seq![Shape::String, Shape::IntList],
            COMMANDS::CL_CPOS2ALG => seq![Shape::String, Shape::IntList],
            COMMANDS::CL_STRUC2STR => seq![Shape::String, Shape::IntList],
            COMMANDS::CL_ID2CPOS => seq![Shape::String, Shape::Int],
            COMMANDS::CL_IDLIST2CPOS => seq![Shape::String, Shape::IntList],
            COMMANDS::CL_REGEX2ID => seq![Shape::String, Shape::String],
            COMMANDS::CL_STRUC2CPOS => seq![Shape::String, Shape::Int],
            COMMANDS::CL_ALG2CPOS => seq![Shape::String, Shape::Int],
            COMMANDS::CQP_QUERY => seq![Shape::String, Shape::String, Shape::String],
            COMMANDS::CQP_LIST_SUBCORPORA => seq![Shape::String],
            COMMANDS::CQP_SUBCORPUS_SIZE => seq![Shape::String],
            COMMANDS::CQP_SUBCORPUS_HAS_FIELD => seq![Shape::String, Shape::Byte],
            COMMANDS::CQP_DUMP_SUBCORPUS => seq![Shape::String, Shape::Byte, Shape::Int, Shape::Int],
            COMMANDS::CQP_DROP_SUBCORPUS => seq![Shape::String],
            COMMANDS::CQP_FDIST_1 => seq![Shape::String, Shape::Int, Shape::Byte, Shape::String],
            COMMANDS::CQP_FDIST_2 => seq![Shape::String, Shape::Int, Shape::Byte, Shape::String, Shape::Byte, Shape::String],
        }
    }

    /// The shapes of the arguments, in order.
    pub fn args(self) -> (r: Vec<Shape>)
        ensures
            r@ == self.spec_args(),
    {
        match self {
            COMMANDS::CTRL_CONNECT => vec![Shape::String, Shape::String],
            COMMANDS::CTRL_BYE => vec![],
            COMMANDS::CTRL_USER_ABORT => vec![],
            COMMANDS::CTRL_PING => vec![],
            COMMANDS::CTRL_LAST_GENERAL_ERROR => vec![],
            COMMANDS::ASK_FEATURE_CQI_1_0 => vec![],
            COMMANDS::ASK_FEATURE_CL_2_3 => vec![],
            COMMANDS::ASK_FEATURE_CQP_2_3 => vec![],
            COMMANDS::CORPUS_LIST_CORPORA => vec![],
            COMMANDS::CORPUS_CHARSET => vec![Shape::String],
            COMMANDS::CORPUS_PROPERTIES => vec![Shape::String],
            COMMANDS::CORPUS_POSITIONAL_ATTRIBUTES => vec![Shape::String],
            COMMANDS::CORPUS_STRUCTURAL_ATTRIBUTES => vec![Shape::String],
            COMMANDS::CORPUS_STRUCTURAL_ATTRIBUTE_HAS_VALUES => vec![Shape::String],
            COMMANDS::CORPUS_ALIGNMENT_ATTRIBUTES => vec![Shape::String],
            COMMANDS::CORPUS_FULL_NAME => vec![Shape::String],
            COMMANDS::CORPUS_INFO => vec![Shape::String],
            COMMANDS::CORPUS_DROP_CORPUS => vec![Shape::String],
            COMMANDS::CL_ATTRIBUTE_SIZE => vec![Shape::String],
            COMMANDS::CL_LEXICON_SIZE => vec![Shape::String],
            COMMANDS::CL_DROP_ATTRIBUTE => vec![Shape::String],
            COMMANDS::CL_STR2ID => vec![Shape::String, Shape::StringList],
            COMMANDS::CL_ID2STR => vec![Shape::String, Shape::IntList],
            COMMANDS::CL_ID2FREQ => vec![Shape::String, Shape::IntList],
            COMMANDS::CL_CPOS2ID => vec![Shape::String, Shape::IntList],
            COMMANDS::CL_CPOS2STR => vec![Shape::String, Shape::IntList],
            COMMANDS::CL_CPOS2STRUC => vec![Shape::String, Shape::IntList],
            COMMANDS::CL_CPOS2LBOUND => vec![Shape::String, Shape::IntList],
            COMMANDS::CL_CPOS2RBOUND => vec![Shape::String, Shape::IntList],
            COMMANDS::CL_CPOS2ALG => vec![Shape::String, Shape::IntList],
            COMMANDS::CL_STRUC2STR => vec![Shape::String, Shape::IntList],
            COMMANDS::CL_ID2CPOS => vec![Shape::String, Shape::Int],
            COMMANDS::CL_IDLIST2CPOS => vec![Shape::String, Shape::IntList],
            COMMANDS::CL_REGEX2ID => vec![Shape::String, Shape::String],
            COMMANDS::CL_STRUC2CPOS => vec![Shape::String, Shape::Int],
            COMMANDS::CL_ALG2CPOS => vec![Shape::String, Shape::Int],
            COMMANDS::CQP_QUERY => vec![Shape::String, Shape::String, Shape::String],
            COMMANDS::CQP_LIST_SUBCORPORA => vec![Shape::String],
            COMMANDS::CQP_SUBCORPUS_SIZE => vec![Shape::String],
            COMMANDS::CQP_SUBCORPUS_HAS_FIELD => vec![Shape::String, Shape::Byte],
            COMMANDS::CQP_DUMP_SUBCORPUS => vec![Shape::String, Shape::Byte, Shape::Int, Shape::Int],
            COMMANDS::CQP_DROP_SUBCORPUS => vec![Shape::String],
            COMMANDS::CQP_FDIST_1 => vec![Shape::String, Shape::Int, Shape::Byte, Shape::String],
            COMMANDS::CQP_FDIST_2 => vec![Shape::String, Shape::Int, Shape::Byte, Shape::String, Shape::Byte, Shape::String],
        }
    }

    /// The reply expected when the server reports no error.
    pub open spec fn spec_expect(self) -> Expect {
        match self {
            COMMANDS::CTRL_CONNECT => Expect::Status(STATUS::CONNECT_OK),
            COMMANDS::CTRL_BYE => Expect::Status(STATUS::BYE_OK),
            COMMANDS::CTRL_USER_ABORT => Expect::Nothing,
            COMMANDS::CTRL_PING => Expect::Status(STATUS::PING_OK),
            COMMANDS::CTRL_LAST_GENERAL_ERROR => Expect::Data(DATA::STRING),
            COMMANDS::ASK_FEATURE_CQI_1_0 => Expect::Data(DATA::BOOL),
            COMMANDS::ASK_FEATURE_CL_2_3 => Expect::Data(DATA::BOOL),
            COMMANDS::ASK_FEATURE_CQP_2_3 => Expect::Data(DATA::BOOL),
            COMMANDS::CORPUS_LIST_CORPORA => Expect::Data(DATA::STRING_LIST),
            COMMANDS::CORPUS_CHARSET => Expect::Data(DATA::STRING),
            COMMANDS::CORPUS_PROPERTIES => Expect::Data(DATA::STRING_LIST),
            COMMANDS::CORPUS_POSITIONAL_ATTRIBUTES => Expect::Data(DATA::STRING_LIST),
            COMMANDS::CORPUS_STRUCTURAL_ATTRIBUTES => Expect::Data(DATA::STRING_LIST),
            COMMANDS::CORPUS_STRUCTURAL_ATTRIBUTE_HAS_VALUES => Expect::Data(DATA::BOOL),
            COMMANDS::CORPUS_ALIGNMENT_ATTRIBUTES => Expect::Data(DATA::STRING_LIST),
            COMMANDS::CORPUS_FULL_NAME => Expect::Data(DATA::STRING),
            COMMANDS::CORPUS_INFO => Expect::Data(DATA::STRING_LIST),
            COMMANDS::CORPUS_DROP_CORPUS => Expect::Status(STATUS::OK),
            COMMANDS::CL_ATTRIBUTE_SIZE => Expect::Data(DATA::INT),
            COMMANDS::CL_LEXICON_SIZE => Expect::Data(DATA::INT),
            COMMANDS::CL_DROP_ATTRIBUTE => Expect::Status(STATUS::OK),
            COMMANDS::CL_STR2ID => Expect::Data(DATA::INT_LIST),
            COMMANDS::CL_ID2STR => Expect::Data(DATA::STRING_LIST),
            COMMANDS::CL_ID2FREQ => Expect::Data(DATA::INT_LIST),
            COMMANDS::CL_CPOS2ID => Expect::Data(DATA::INT_LIST),
            COMMANDS::CL_CPOS2STR => Expect::Data(DATA::STRING_LIST),
            COMMANDS::CL_CPOS2STRUC => Expect::Data(DATA::INT_LIST),
            COMMANDS::CL_CPOS2LBOUND => Expect::Data(DATA::INT_LIST),
            COMMANDS::CL_CPOS2RBOUND => Expect::Data(DATA::INT_LIST),
            COMMANDS::CL_CPOS2ALG => Expect::Data(DATA::INT_LIST),
            COMMANDS::CL_STRUC2STR => Expect::Data(DATA::STRING_LIST),
            COMMANDS::CL_ID2CPOS => Expect::Data(DATA::INT_LIST),
            COMMANDS::CL_IDLIST2CPOS => Expect::Data(DATA::INT_LIST),
            COMMANDS::CL_REGEX2ID => Expect::Data(DATA::INT_LIST),
            COMMANDS::CL_STRUC2CPOS => Expect::Data(DATA::INT_INT),
            COMMANDS::CL_ALG2CPOS => Expect::Data(DATA::INT_INT_INT_INT),
            COMMANDS::CQP_QUERY => Expect::Status(STATUS::OK),
            COMMANDS::CQP_LIST_SUBCORPORA => Expect::Data(DATA::STRING_LIST),
            COMMANDS::CQP_SUBCORPUS_SIZE => Expect::Data(DATA::INT),
            COMMANDS::CQP_SUBCORPUS_HAS_FIELD => Expect::Data(DATA::BOOL),
            COMMANDS::CQP_DUMP_SUBCORPUS => Expect::Data(DATA::INT_LIST),
            COMMANDS::CQP_DROP_SUBCORPUS => Expect::Status(STATUS::OK),
            COMMANDS::CQP_FDIST_1 => Expect::Data(DATA::INT_LIST),
            COMMANDS::CQP_FDIST_2 => Expect::Data(DATA::INT_LIST),
        }
    }

    /// The reply expected when the server reports no error.
    #[verifier::when_used_as_spec(spec_expect)]
    pub fn expect(self) -> (r: Expect)
        ensures
            r == self.spec_expect(),
    {
        match self {
            COMMANDS::CTRL_CONNECT => Expect::Status(STATUS::CONNECT_OK),
            COMMANDS::CTRL_BYE => Expect::Status(STATUS::BYE_OK),
            COMMANDS::CTRL_USER_ABORT => Expect::Nothing,
            COMMANDS::CTRL_PING => Expect::Status(STATUS::PING_OK),
            COMMANDS::CTRL_LAST_GENERAL_ERROR => Expect::Data(DATA::STRING),
            COMMANDS::ASK_FEATURE_CQI_1_0 => Expect::Data(DATA::BOOL),
            COMMANDS::ASK_FEATURE_CL_2_3 => Expect::Data(DATA::BOOL),
            COMMANDS::ASK_FEATURE_CQP_2_3 => Expect::Data(DATA::BOOL),
            COMMANDS::CORPUS_LIST_CORPORA => Expect::Data(DATA::STRING_LIST),
            COMMANDS::CORPUS_CHARSET => Expect::Data(DATA::STRING),
            COMMANDS::CORPUS_PROPERTIES => Expect::Data(DATA::STRING_LIST),
            COMMANDS::CORPUS_POSITIONAL_ATTRIBUTES => Expect::Data(DATA::STRING_LIST),
            COMMANDS::CORPUS_STRUCTURAL_ATTRIBUTES => Expect::Data(DATA::STRING_LIST),
            COMMANDS::CORPUS_STRUCTURAL_ATTRIBUTE_HAS_VALUES => Expect::Data(DATA::BOOL),
            COMMANDS::CORPUS_ALIGNMENT_ATTRIBUTES => Expect::Data(DATA::STRING_LIST),
            COMMANDS::CORPUS_FULL_NAME => Expect::Data(DATA::STRING),
            COMMANDS::CORPUS_INFO => Expect::Data(DATA::STRING_LIST),
            COMMANDS::CORPUS_DROP_CORPUS => Expect::Status(STATUS::OK),
            COMMANDS::CL_ATTRIBUTE_SIZE => Expect::Data(DATA::INT),
            COMMANDS::CL_LEXICON_SIZE => Expect::Data(DATA::INT),
            COMMANDS::CL_DROP_ATTRIBUTE => Expect::Status(STATUS::OK),
            COMMANDS::CL_STR2ID => Expect::Data(DATA::INT_LIST),
            COMMANDS::CL_ID2STR => Expect::Data(DATA::STRING_LIST),
            COMMANDS::CL_ID2FREQ => Expect::Data(DATA::INT_LIST),
            COMMANDS::CL_CPOS2ID => Expect::Data(DATA::INT_LIST),
            COMMANDS::CL_CPOS2STR => Expect::Data(DATA::STRING_LIST),
            COMMANDS::CL_CPOS2STRUC => Expect::Data(DATA::INT_LIST),
            COMMANDS::CL_CPOS2LBOUND => Expect::Data(DATA::INT_LIST),
            COMMANDS::CL_CPOS2RBOUND => Expect::Data(DATA::INT_LIST),
            COMMANDS::CL_CPOS2ALG => Expect::Data(DATA::INT_LIST),
            COMMANDS::CL_STRUC2STR => Expect::Data(DATA::STRING_LIST),
            COMMANDS::CL_ID2CPOS => Expect::Data(DATA::INT_LIST),
            COMMANDS::CL_IDLIST2CPOS => Expect::Data(DATA::INT_LIST),
            COMMANDS::CL_REGEX2ID => Expect::Data(DATA::INT_LIST),
            COMMANDS::CL_STRUC2CPOS => Expect::Data(DATA::INT_INT),
            COMMANDS::CL_ALG2CPOS => Expect::Data(DATA::INT_INT_INT_INT),
            COMMANDS::CQP_QUERY => Expect::Status(STATUS::OK),
            COMMANDS::CQP_LIST_SUBCORPORA => Expect::Data(DATA::STRING_LIST),
            COMMANDS::CQP_SUBCORPUS_SIZE => Expect::Data(DATA::INT),
            COMMANDS::CQP_SUBCORPUS_HAS_FIELD => Expect::Data(DATA::BOOL),
            COMMANDS::CQP_DUMP_SUBCORPUS => Expect::Data(DATA::INT_LIST),
            COMMANDS::CQP_DROP_SUBCORPUS => Expect::Status(STATUS::OK),
            COMMANDS::CQP_FDIST_1 => Expect::Data(DATA::INT_LIST),
            COMMANDS::CQP_FDIST_2 => Expect::Data(DATA::INT_LIST),
        }
    }
}

} // verus!
