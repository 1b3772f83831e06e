//! Commands: decoding one from a frame, and carrying it out.

pub mod get;
pub mod unknown;

pub use get::Get;
pub use unknown::Unknown;

use vstd::prelude::*;
use crate::error::{ApplyError, ProtocolError};
use crate::frame::{Frame, FrameView};
use crate::parse::{spec_next_string, Parse};
use crate::store::answer;
use crate::text::lowercase;

verus! {

/// A decoded request, ready to be carried out.
#[derive(Clone, Debug, PartialEq, Eq)]
pub enum Command {
    Get(Get),
    Unknown(Unknown),
}

/// The mathematical value of a [`Command`].
pub enum CommandView {
    Get { key: Seq<char> },
    Unknown { command_name: Seq<char> },
}

impl CommandView {
    /// The canonical, lowercase name of the command.
    pub open spec fn name(self) -> Seq<char> {
        match self {
            CommandView::Get { .. } => "get"@,
            CommandView::Unknown { command_name } => command_name,
        }
    }
}

impl View for Command {
    type V = CommandView;

    open spec fn view(&self) -> CommandView {
        match self {
            Command::Get(get) => CommandView::Get { key: get@ },
            Command::Unknown(unknown) => CommandView::Unknown { command_name: unknown@ },
        }
    }
}

/// What is to be sent to the client, and whether carrying out the command
/// succeeded.
#[derive(Debug, PartialEq, Eq)]
pub struct Reply {
    /// The response frame to write to the connection.
    pub frame: Frame,
    /// `Ok` unless the command could not be carried out.
    pub status: Result<(), ApplyError>,
}

/// The mathematical value of a [`Reply`].
pub struct ReplyView {
    pub frame: FrameView,
    pub status: Result<(), ApplyError>,
}

impl View for Reply {
    type V = ReplyView;

    open spec fn view(&self) -> ReplyView {
        ReplyView { frame: self.frame@, status: self.status }
    }
}

/// What has to happen next for a command that is being carried out.
#[derive(Debug, PartialEq, Eq)]
pub enum Step {
    /// The store is to be asked for the value under the key of this `get`;
    /// [`Get::apply`] turns its answer into the reply.
    Lookup(Get),
    /// The reply is ready.
    Respond(Reply),
}

/// The mathematical value of a [`Step`].
pub enum StepView {
    Lookup { key: Seq<char> },
    Respond(ReplyView),
}

impl View for Step {
    type V = StepView;

    open spec fn view(&self) -> StepView {
        match self {
            Step::Lookup(get) => StepView::Lookup { key: get@ },
            Step::Respond(reply) => StepView::Respond(reply@),
        }
    }
}

/// The mathematical value of the outcome of decoding a request.
pub open spec fn decoded(result: Result<Command, ProtocolError>) -> Result<
    CommandView,
    ProtocolError,
> {
    match result {
        Ok(command) => Ok(command@),
        Err(e) => Err(e),
    }
}

/// The table of known commands: the number of arguments that the command
/// with the lowercase name `name` takes, `None` where no command has that
/// name.
pub open spec fn arity(name: Seq<char>) -> Option<nat> {
    if name == "get"@ {
        Some(1)
    } else {
        None
    }
}

/// Whether `name` is the lowercase name of a command that the server knows.
pub open spec fn is_known(name: Seq<char>) -> bool {
    arity(name) is Some
}

impl Command {
    /// The command that the fields `args` give once the lowercase command
    /// name `name` has been read.
    ///
    /// A `get` takes exactly one string, its key. Any other name gives an
    /// unknown command, whatever follows it.
    pub open spec fn spec_from_name(name: Seq<char>, args: Seq<FrameView>) -> Result<
        CommandView,
        ProtocolError,
    > {
        if name == "get"@ {
            match spec_next_string(args) {
                Ok(key) => if args.len() == 1 {
                    Ok(CommandView::Get { key })
                } else {
                    Err(ProtocolError::TrailingElements)
                },
                Err(e) => Err(e),
            }
        } else {
            Ok(CommandView::Unknown { command_name: name })
        }
    }

    /// The command that `frame` encodes: an array whose first element is the
    /// command name, in any case, and whose other elements are its arguments.
    pub open spec fn spec_from_frame(frame: FrameView) -> Result<CommandView, ProtocolError> {
        match frame {
            FrameView::Array(fields) => match spec_next_string(fields) {
                Ok(name) => Command::spec_from_name(lowercase(name), fields.skip(1)),
                Err(e) => Err(e),
            },
            _ => Err(ProtocolError::NotAnArray),
        }
    }

    /// The first step in carrying out `command`: a `get` needs the store's
    /// answer for its key, an unknown command is answered at once.
    pub open spec fn spec_apply(command: CommandView) -> StepView {
        match command {
            CommandView::Get { key } => StepView::Lookup { key },
            CommandView::Unknown { command_name } => StepView::Respond(
                Unknown::spec_apply(command_name),
            ),
        }
    }

    /// Carrying out `command` to the end against a working store that holds
    /// `contents`: the reply, and what the store holds afterwards.
    ///
    /// The only thing a command asks of the store is the answer to a lookup,
    /// so the store is left as it was.
    pub open spec fn spec_execute(command: CommandView, contents: Map<Seq<char>, Seq<u8>>) -> (
        ReplyView,
        Map<Seq<char>, Seq<u8>>,
    ) {
        match Command::spec_apply(command) {
            StepView::Lookup { key } => (Get::spec_apply(answer(contents, key)), contents),
            StepView::Respond(reply) => (reply, contents),
        }
    }

    /// Decodes the command whose lowercase name `command_name` has been read
    /// from `parse`, which holds the arguments.
    pub fn from_name(command_name: String, parse: Parse) -> (result: Result<Command, ProtocolError>)
        ensures
            decoded(result) == Command::spec_from_name(command_name@, parse@),
    {
        let mut parse = parse;
        let command = if command_name == String::from_str("get") {
            Command::Get(Get::parse_frames(&mut parse)?)
        } else {
            // Nothing is known of the arguments of an unknown command, so
            // they are left unread.
            return Ok(Command::Unknown(Unknown::new(command_name)));
        };
        parse.finish()?;
        Ok(command)
    }

    /// Decodes a command from a received frame.
    pub fn from_frame(frame: Frame) -> (result: Result<Command, ProtocolError>)
        ensures
            decoded(result) == Command::spec_from_frame(frame@),
    {
        let mut parse = Parse::new(frame)?;
        let command_name = parse.next_string()?.as_str().to_lowercase();
        Command::from_name(command_name, parse)
    }

    /// Starts carrying out the command.
    ///
    /// `_shutdown` tells whether the server has been asked to stop. No
    /// command defined so far waits for anything, so none looks at it.
    pub fn apply(self, _shutdown: bool) -> (step: Step)
        ensures
            step@ == Command::spec_apply(self@),
    {
        match self {
            Command::Get(get) => Step::Lookup(get),
            Command::Unknown(unknown) => Step::Respond(unknown.apply()),
        }
    }

    /// The canonical, lowercase name of the command.
    pub fn get_name(&self) -> (name: &str)
        ensures
            name@ == self@.name(),
    {
        match self {
            Command::Get(_) => "get",
            Command::Unknown(unknown) => unknown.get_name(),
        }
    }
}

/// A frame that is not an array is refused as a request, whatever it holds.
pub proof fn lemma_non_array_is_refused(frame: FrameView)
    requires
        !(frame is Array),
    ensures
        Command::spec_from_frame(frame) == Err::<CommandView, ProtocolError>(
            ProtocolError::NotAnArray,
        ),
{
}

/// A request that names a known command, in any case, and does not bring
/// exactly the arguments that the command takes is refused: no command comes
/// of it.
pub proof fn lemma_wrong_arity_is_refused(fields: Seq<FrameView>)
    requires
        fields.len() > 0,
        fields[0].text() is Ok,
        is_known(lowercase(fields[0].text()->Ok_0)),
        arity(lowercase(fields[0].text()->Ok_0)) != Some((fields.len() - 1) as nat),
    ensures
        Command::spec_from_frame(FrameView::Array(fields)) is Err,
{
}

/// A request whose name matches no known command decodes to the unknown
/// command with that name in lowercase, however many elements follow the
/// name and whatever they hold.
pub proof fn lemma_unknown_name_is_accepted(fields: Seq<FrameView>)
    requires
        fields.len() > 0,
        fields[0].text() is Ok,
        !is_known(lowercase(fields[0].text()->Ok_0)),
    ensures
        Command::spec_from_frame(FrameView::Array(fields)) == Ok::<CommandView, ProtocolError>(
            CommandView::Unknown { command_name: lowercase(fields[0].text()->Ok_0) },
        ),
{
}

/// Command names are matched without regard to case: two requests whose
/// names have the same lowercase form and whose arguments are equal decode
/// alike.
pub proof fn lemma_name_case_is_ignored(first: Seq<FrameView>, second: Seq<FrameView>)
    requires
        first.len() > 0,
        second.len() > 0,
        first[0].text() is Ok,
        second[0].text() is Ok,
        lowercase(first[0].text()->Ok_0) == lowercase(second[0].text()->Ok_0),
        first.skip(1) == second.skip(1),
    ensures
        Command::spec_from_frame(FrameView::Array(first)) == Command::spec_from_frame(
            FrameView::Array(second),
        ),
{
}

/// Carrying out a command reads the store and never writes it, so carrying
/// the same command out again, against the store as the first run left it,
/// gives the same reply.
pub proof fn lemma_execute_is_repeatable(command: CommandView, contents: Map<Seq<char>, Seq<u8>>)
    ensures
        Command::spec_execute(command, contents).1 == contents,
        Command::spec_execute(command, Command::spec_execute(command, contents).1).0
            == Command::spec_execute(command, contents).0,
{
}

/// The reply to a `get` is settled by what the store holds under its key:
/// the value as a bulk string where the key is present, null where it is
/// not, and success either way.
pub proof fn lemma_get_reads_its_key(key: Seq<char>, contents: Map<Seq<char>, Seq<u8>>)
    ensures
        Command::spec_execute(CommandView::Get { key }, contents).0 == (ReplyView {
            frame: if contents.contains_key(key) {
                FrameView::Bulk(contents[key])
            } else {
                FrameView::Null
            },
            status: Ok(()),
        }),
{
}

} // verus!
