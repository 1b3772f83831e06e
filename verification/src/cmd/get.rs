//! The command that reads the value under a key.

use vstd::prelude::*;
use crate::cmd::{Reply, ReplyView};
use crate::error::{ApplyError, ProtocolError};
use crate::frame::{Frame, FrameView};
use crate::parse::{after_read, spec_next_string, Parse};
use crate::store::{Lookup, LookupView};

verus! {

/// A request for the value stored under `key`.
#[derive(Clone, Debug, PartialEq, Eq)]
pub struct Get {
    key: String,
}

impl View for Get {
    type V = Seq<char>;

    /// The key that the command asks for.
    closed spec fn view(&self) -> Seq<char> {
        self.key@
    }
}

impl Get {
    /// The reply to a `get` for which the store gave `answer`: the value as a
    /// bulk string, null for an absent key, and for a store that failed an
    /// error frame with its reason together with the failure.
    pub open spec fn spec_apply(answer: LookupView) -> ReplyView {
        match answer {
            LookupView::Found(value) => ReplyView {
                frame: FrameView::Bulk(value),
                status: Ok(()),
            },
            LookupView::Missing => ReplyView { frame: FrameView::Null, status: Ok(()) },
            LookupView::Failed(reason) => ReplyView {
                frame: FrameView::Error(reason),
                status: Err(ApplyError::Store),
            },
        }
    }

    /// A `get` for `key`.
    pub fn new(key: String) -> (get: Get)
        ensures
            get@ == key@,
    {
        Get { key }
    }

    /// The key that the command asks for.
    pub fn key(&self) -> (key: &str)
        ensures
            key@ == self@,
    {
        self.key.as_str()
    }

    /// Reads the arguments of a `get` from `parse`: one string, the key.
    ///
    /// The command name has been consumed already. Whether anything follows
    /// the key is for the caller to check.
    pub fn parse_frames(parse: &mut Parse) -> (result: Result<Get, ProtocolError>)
        ensures
            final(parse)@ == after_read(old(parse)@),
            match result {
                Ok(get) => spec_next_string(old(parse)@) == Ok::<Seq<char>, ProtocolError>(get@),
                Err(e) => spec_next_string(old(parse)@) == Err::<Seq<char>, ProtocolError>(e),
            },
    {
        let key = parse.next_string()?;
        Ok(Get { key })
    }

    /// Turns the store's answer for the key into the reply to the client.
    pub fn apply(self, answer: Lookup) -> (reply: Reply)
        ensures
            reply@ == Get::spec_apply(answer@),
    {
        match answer {
            Lookup::Found(value) => Reply { frame: Frame::Bulk(value), status: Ok(()) },
            Lookup::Missing => Reply { frame: Frame::Null, status: Ok(()) },
            Lookup::Failed(reason) => Reply {
                frame: Frame::Error(reason),
                status: Err(ApplyError::Store),
            },
        }
    }
}

} // verus!
