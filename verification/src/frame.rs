//! The decoded protocol message and its mathematical model.

use vstd::prelude::*;
use vstd::utf8::{decode_utf8, encode_utf8, valid_utf8};
use crate::decimal::spec_parse_decimal;
use crate::error::ProtocolError;

verus! {

/// One decoded message of the wire protocol.
///
/// A null bulk string is the `Null` frame.
#[derive(Debug, PartialEq, Eq)]
pub enum Frame {
    /// A short text without line breaks.
    Simple(String),
    /// An error message.
    Error(String),
    /// A signed 64-bit number.
    Integer(i64),
    /// A binary-safe byte string.
    Bulk(Vec<u8>),
    /// The absent value.
    Null,
    /// An ordered sequence of frames.
    Array(Vec<Frame>),
}

/// The mathematical value of a [`Frame`].
pub enum FrameView {
    Simple(Seq<char>),
    Error(Seq<char>),
    Integer(int),
    Bulk(Seq<u8>),
    Null,
    Array(Seq<FrameView>),
}

impl FrameView {
    /// The frame read as a text: a simple string as it stands, a bulk string
    /// decoded from UTF-8. A bulk string that is not well-formed UTF-8 and
    /// every other kind of frame are of the wrong type.
    pub open spec fn text(self) -> Result<Seq<char>, ProtocolError> {
        match self {
            FrameView::Simple(text) => Ok(text),
            FrameView::Bulk(bytes) => if valid_utf8(bytes) {
                Ok(decode_utf8(bytes))
            } else {
                Err(ProtocolError::InvalidFrameType)
            },
            _ => Err(ProtocolError::InvalidFrameType),
        }
    }

    /// The frame read as raw bytes: a bulk string as it stands, a simple
    /// string encoded in UTF-8. Every other kind of frame is of the wrong
    /// type.
    pub open spec fn bytes(self) -> Result<Seq<u8>, ProtocolError> {
        match self {
            FrameView::Simple(text) => Ok(encode_utf8(text)),
            FrameView::Bulk(bytes) => Ok(bytes),
            _ => Err(ProtocolError::InvalidFrameType),
        }
    }

    /// The frame read as a number: an integer frame as it stands, a simple or
    /// bulk string as the decimal numeral it writes, which must fit in 64
    /// bits. Every other kind of frame is of the wrong type.
    pub open spec fn integer(self) -> Result<int, ProtocolError> {
        match self {
            FrameView::Integer(value) => Ok(value),
            FrameView::Simple(text) => spec_parse_decimal(encode_utf8(text)),
            FrameView::Bulk(bytes) => spec_parse_decimal(bytes),
            _ => Err(ProtocolError::InvalidFrameType),
        }
    }
}

impl View for Frame {
    type V = FrameView;

    open spec fn view(&self) -> FrameView
        decreases self,
    {
        match self {
            Frame::Simple(text) => FrameView::Simple(text@),
            Frame::Error(text) => FrameView::Error(text@),
            Frame::Integer(value) => FrameView::Integer(*value as int),
            Frame::Bulk(bytes) => FrameView::Bulk(bytes@),
            Frame::Null => FrameView::Null,
            Frame::Array(items) => FrameView::Array(
                Seq::new(
                    items@.len(),
                    |i: int|
                        if 0 <= i < items@.len() {
                            items@[i].view()
                        } else {
                            FrameView::Null
                        },
                ),
            ),
        }
    }
}

} // verus!
