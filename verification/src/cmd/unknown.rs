//! The stand-in for a command that the server does not know.

use vstd::prelude::*;
use crate::cmd::{Reply, ReplyView};
use crate::frame::{Frame, FrameView};

verus! {

/// A request whose command name matches no known command.
#[derive(Clone, Debug, PartialEq, Eq)]
pub struct Unknown {
    command_name: String,
}

impl View for Unknown {
    type V = Seq<char>;

    /// The name that was received, in lowercase.
    closed spec fn view(&self) -> Seq<char> {
        self.command_name@
    }
}

impl Unknown {
    /// The message that tells a client that `command_name` is not known.
    pub open spec fn spec_message(command_name: Seq<char>) -> Seq<char> {
        "ERR unknown command '"@ + command_name + "'"@
    }

    /// The reply to an unknown command: an error frame that names it. Giving
    /// that reply is no failure.
    pub open spec fn spec_apply(command_name: Seq<char>) -> ReplyView {
        ReplyView {
            frame: FrameView::Error(Unknown::spec_message(command_name)),
            status: Ok(()),
        }
    }

    /// An unknown command called `command_name`.
    pub fn new(command_name: String) -> (unknown: Unknown)
        ensures
            unknown@ == command_name@,
    {
        Unknown { command_name }
    }

    /// The name that was received, in lowercase.
    pub fn get_name(&self) -> (name: &str)
        ensures
            name@ == self@,
    {
        self.command_name.as_str()
    }

    /// Builds the reply that tells the client the command is not known.
    pub fn apply(self) -> (reply: Reply)
        ensures
            reply@ == Unknown::spec_apply(self@),
    {
        let mut message = String::from_str("ERR unknown command '");
        message.append(self.command_name.as_str());
        message.append("'");
        Reply { frame: Frame::Error(message), status: Ok(()) }
    }
}

} // verus!
