//! Client side of CQi, the binary request/response protocol of a corpus
//! query server: typed values and their wire codec, the classification of
//! response words, the command table, requests and replies, and the tokens
//! of an interactive front end.
#![allow(non_camel_case_types)]

pub mod codec;
pub mod cqi_consts;
pub mod dispatch;
pub mod inbox;
pub mod laws;
pub mod response;
pub mod text;
pub mod token;
pub mod value;
pub mod wire;
