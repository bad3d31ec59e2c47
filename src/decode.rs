use vstd::prelude::*;
use crate::encode::ToJS;
use crate::envelope::MsgEnvelope;
use crate::transfer::{MsgNftTransfer, MsgTransfer};
use crate::value::{Value, Js};

verus! {

/// A decoded IBC message: a core protocol message or an application-level
/// transfer.
#[derive(Debug, Clone, PartialEq, Eq)]
pub enum IbcMessage {
    Envelope(MsgEnvelope),
    Transfer(MsgTransfer),
    NftTransfer(MsgNftTransfer),
}

impl ToJS for IbcMessage {
    open spec fn js(&self) -> Js {
        match self {
            IbcMessage::Envelope(m) => m.js(),
            IbcMessage::Transfer(m) => m.js(),
            IbcMessage::NftTransfer(m) => m.js(),
        }
    }

    fn to_js(&self) -> (r: Value) {
        match self {
            IbcMessage::Envelope(m) => m.to_js(),
            IbcMessage::Transfer(m) => m.to_js(),
            IbcMessage::NftTransfer(m) => m.to_js(),
        }
    }
}

/// Why a byte buffer could not be decoded as a message.
#[derive(Debug, Clone, PartialEq, Eq)]
pub struct DecodeError {
    pub message: String,
}

/// The message of a decode error: the decoder's own diagnostic, or a generic
/// one where the decoder gave none, so that the message is never empty.
pub open spec fn error_message(diagnostic: Seq<char>) -> Seq<char> {
    if diagnostic.len() > 0 {
        diagnostic
    } else {
        "undecodable message"@
    }
}

impl DecodeError {
    pub fn new(diagnostic: String) -> (r: DecodeError)
        ensures
            r.message@ == error_message(diagnostic@),
            r.message@.len() > 0,
    {
        proof {
            reveal_strlit("undecodable message");
        }
        if diagnostic.as_str().is_empty() {
            DecodeError { message: String::from_str("undecodable message") }
        } else {
            DecodeError { message: diagnostic }
        }
    }
}

/// Entry point of the projection.
pub struct Decode;

impl Decode {
    /// Projects the outcome of decoding a byte buffer: a decoded message
    /// becomes its value tree; a decoder diagnostic becomes a [`DecodeError`]
    /// carrying it verbatim (or a generic message where it is empty).
    pub fn ibc(decoded: Result<IbcMessage, String>) -> (r: Result<Value, DecodeError>)
        ensures
            decoded is Ok <==> r is Ok,
            decoded is Ok ==> r->Ok_0@ == decoded->Ok_0.js(),
            decoded is Err ==> r->Err_0.message@ == error_message(decoded->Err_0@),
            decoded is Err ==> r->Err_0.message@.len() > 0,
            decoded is Err && decoded->Err_0@.len() > 0 ==> r->Err_0.message@ == decoded->Err_0@,
    {
        match decoded {
            Ok(message) => Ok(message.to_js()),
            Err(diagnostic) => Err(DecodeError::new(diagnostic)),
        }
    }
}

} // verus!
