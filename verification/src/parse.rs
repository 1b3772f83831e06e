//! A forward-only cursor over the fields of a request.

use vstd::prelude::*;
use crate::decimal::parse_decimal;
use crate::error::ProtocolError;
use crate::frame::{Frame, FrameView};

verus! {

/// A cursor over the elements of one array frame.
pub struct Parse {
    parts: Vec<Frame>,
    pos: usize,
}

impl View for Parse {
    type V = Seq<FrameView>;

    /// The elements not yet consumed, in the order of the array.
    closed spec fn view(&self) -> Seq<FrameView> {
        Seq::new(
            (self.parts@.len() - self.pos) as nat,
            |i: int| self.parts@[self.pos + i]@,
        )
    }
}

/// What is left of `fields` once the first of them has been read. Reading
/// from an empty cursor leaves it empty.
pub open spec fn after_read(fields: Seq<FrameView>) -> Seq<FrameView> {
    if fields.len() == 0 {
        fields
    } else {
        fields.skip(1)
    }
}

/// The text that a read of `fields` gives.
pub open spec fn spec_next_string(fields: Seq<FrameView>) -> Result<Seq<char>, ProtocolError> {
    if fields.len() == 0 {
        Err(ProtocolError::EndOfStream)
    } else {
        fields[0].text()
    }
}

/// The bytes that a read of `fields` gives.
pub open spec fn spec_next_bytes(fields: Seq<FrameView>) -> Result<Seq<u8>, ProtocolError> {
    if fields.len() == 0 {
        Err(ProtocolError::EndOfStream)
    } else {
        fields[0].bytes()
    }
}

/// The number that a read of `fields` gives.
pub open spec fn spec_next_int(fields: Seq<FrameView>) -> Result<int, ProtocolError> {
    if fields.len() == 0 {
        Err(ProtocolError::EndOfStream)
    } else {
        fields[0].integer()
    }
}

impl Parse {
    #[verifier::type_invariant]
    spec fn in_bounds(&self) -> bool {
        self.pos <= self.parts@.len()
    }

    /// Starts a cursor at the first element of `frame`, which must be an array.
    pub fn new(frame: Frame) -> (result: Result<Parse, ProtocolError>)
        ensures
            match frame@ {
                FrameView::Array(items) => result matches Ok(parse) && parse@ == items,
                _ => result == Err::<Parse, ProtocolError>(ProtocolError::NotAnArray),
            },
    {
        match frame {
            Frame::Array(parts) => {
                let parse = Parse { parts, pos: 0 };
                proof {
                    assert(parse@ =~= frame@->Array_0);
                }
                Ok(parse)
            },
            _ => Err(ProtocolError::NotAnArray),
        }
    }

    /// Hands out the next element and moves past it.
    pub fn next_frame(&mut self) -> (result: Result<Frame, ProtocolError>)
        ensures
            match result {
                Ok(frame) => old(self)@.len() > 0 && frame@ == old(self)@[0]
                    && final(self)@ == old(self)@.skip(1),
                Err(e) => e == ProtocolError::EndOfStream && old(self)@.len() == 0
                    && final(self)@ == old(self)@,
            },
    {
        proof {
            use_type_invariant(&*self);
        }
        if self.pos < self.parts.len() {
            let mut taken = Frame::Null;
            core::mem::swap(&mut self.parts[self.pos], &mut taken);
            self.pos = self.pos + 1;
            proof {
                assert(final(self)@ =~= old(self)@.skip(1));
            }
            Ok(taken)
        } else {
            Err(ProtocolError::EndOfStream)
        }
    }

    /// Reads the next element as a text and moves past it.
    ///
    /// A simple string is handed out as it stands, a bulk string is decoded
    /// from UTF-8.
    pub fn next_string(&mut self) -> (result: Result<String, ProtocolError>)
        ensures
            final(self)@ == after_read(old(self)@),
            match result {
                Ok(text) => spec_next_string(old(self)@) == Ok::<Seq<char>, ProtocolError>(text@),
                Err(e) => spec_next_string(old(self)@) == Err::<Seq<char>, ProtocolError>(e),
            },
    {
        match self.next_frame()? {
            Frame::Simple(text) => Ok(text),
            Frame::Bulk(bytes) => match String::from_utf8(bytes) {
                Ok(text) => Ok(text),
                Err(_) => Err(ProtocolError::InvalidFrameType),
            },
            _ => Err(ProtocolError::InvalidFrameType),
        }
    }

    /// Reads the next element as raw bytes and moves past it.
    ///
    /// A bulk string is handed out as it stands, a simple string in its UTF-8
    /// encoding.
    pub fn next_bytes(&mut self) -> (result: Result<Vec<u8>, ProtocolError>)
        ensures
            final(self)@ == after_read(old(self)@),
            match result {
                Ok(bytes) => spec_next_bytes(old(self)@) == Ok::<Seq<u8>, ProtocolError>(bytes@),
                Err(e) => spec_next_bytes(old(self)@) == Err::<Seq<u8>, ProtocolError>(e),
            },
    {
        match self.next_frame()? {
            Frame::Simple(text) => Ok(text.as_str().as_bytes_vec()),
            Frame::Bulk(bytes) => Ok(bytes),
            _ => Err(ProtocolError::InvalidFrameType),
        }
    }

    /// Reads the next element as a signed 64-bit number and moves past it.
    ///
    /// An integer frame is handed out as it stands; a simple or bulk string
    /// must write a decimal numeral that fits.
    pub fn next_int(&mut self) -> (result: Result<i64, ProtocolError>)
        ensures
            final(self)@ == after_read(old(self)@),
            match result {
                Ok(value) => spec_next_int(old(self)@) == Ok::<int, ProtocolError>(value as int),
                Err(e) => spec_next_int(old(self)@) == Err::<int, ProtocolError>(e),
            },
    {
        match self.next_frame()? {
            Frame::Integer(value) => Ok(value),
            Frame::Simple(text) => parse_decimal(text.as_str().as_bytes()),
            Frame::Bulk(bytes) => parse_decimal(bytes.as_slice()),
            _ => Err(ProtocolError::InvalidFrameType),
        }
    }

    /// Checks that every element has been consumed.
    pub fn finish(&self) -> (result: Result<(), ProtocolError>)
        ensures
            result == if self@.len() == 0 {
                Ok::<(), ProtocolError>(())
            } else {
                Err::<(), ProtocolError>(ProtocolError::TrailingElements)
            },
    {
        proof {
            use_type_invariant(self);
        }
        if self.pos == self.parts.len() {
            Ok(())
        } else {
            Err(ProtocolError::TrailingElements)
        }
    }
}

} // verus!
