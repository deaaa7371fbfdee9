use vstd::prelude::*;
use crate::error::Error;
use crate::message::{
    parse_flag, parse_text, text_and_size_bytes, FileContent, FileMetadata, Message, Response,
    TrsferSetting,
};
use crate::path::{parent, path_parent, path_stripped};

verus! {

/// How far the exchange for one file has come.
#[derive(Clone, Copy, Debug, PartialEq, Eq, Structural)]
pub enum Stage {
    /// Nothing has happened yet.
    Created,
    /// The driver is looking up the file's size.
    Describing,
    /// The settings are on their way to the server.
    SendingSetting,
    /// The file's description is on its way to the server.
    SendingMetadata,
    /// Waiting for the server to say whether it has the file already.
    AwaitingVerdict,
    /// The driver is reading the file into memory.
    Loading,
    /// The file's content is on its way to the server.
    SendingContent,
    /// Waiting for the server to say where it put the file.
    AwaitingResponse,
    /// The exchange is over.
    Done,
}

/// What the driver reports back.
pub enum Event {
    /// The exchange may start.
    Begin,
    /// The file's path and size, as found on disk.
    Described(FileMetadata),
    /// The frame asked for was written and flushed.
    Sent,
    /// A whole frame arrived; this is its payload.
    Received(Vec<u8>),
    /// The file's content, whole.
    Loaded(FileContent),
    /// The operation asked for failed.
    Failed(Error),
}

/// How the exchange for one file ended.
pub enum Outcome {
    /// The server took the file and put it at this path.
    Finished(Response),
    /// The server has a file at the save path already; nothing was sent.
    Skipped,
    /// The exchange failed; other files are not affected.
    Failed(Error),
}

/// What the driver is to do next.
pub enum Action {
    /// Look up the size of the file at this path.
    Describe(String),
    /// Write one frame that carries these bytes.
    Send(Vec<u8>),
    /// Read one frame.
    Receive,
    /// Read the file at this path into memory.
    Load(String),
    /// Write the content as one frame, reporting progress.
    SendContent(FileContent),
    /// Nothing more: the exchange is over.
    Finish(Outcome),
}

impl Action {
    pub open spec fn describes(self, path: Seq<char>) -> bool {
        self matches Action::Describe(p) && p@ == path
    }

    pub open spec fn sends(self, bytes: Seq<u8>) -> bool {
        self matches Action::Send(b) && b@ == bytes
    }

    pub open spec fn loads(self, path: Seq<char>) -> bool {
        self matches Action::Load(p) && p@ == path
    }

    pub open spec fn sends_content(self, content: Seq<u8>) -> bool {
        self matches Action::SendContent(c) && c@ == content
    }

    pub open spec fn finishes_at(self, save_path: Seq<char>) -> bool {
        self matches Action::Finish(Outcome::Finished(r)) && r.save_path@ == save_path
    }

    pub open spec fn skips(self) -> bool {
        self matches Action::Finish(Outcome::Skipped)
    }

    pub open spec fn fails_with(self, error: Error) -> bool {
        self matches Action::Finish(Outcome::Failed(e)) && e == error
    }

    pub open spec fn fails_decoding(self) -> bool {
        self matches Action::Finish(Outcome::Failed(e)) && e is BincodeError
    }

    pub open spec fn fails_stripping(self) -> bool {
        self matches Action::Finish(Outcome::Failed(e)) && e is StripPrefixError
    }
}

/// The directory that the paths of a session are made relative to. For a
/// directory it is the directory itself, so that what lies in it arrives
/// directly under the server's output directory; for a single file it is the
/// file's parent, so that the file arrives under its own name. `None` where a
/// single file has no parent.
pub fn session_base(root: &str, root_is_dir: bool) -> (base: Option<String>)
    ensures
        root_is_dir ==> (base matches Some(dir) && dir@ == root@),
        !root_is_dir ==> match base {
            Some(dir) => path_parent(root@) == Some(dir@),
            None => path_parent(root@) is None,
        },
{
    if root_is_dir {
        Some(root.to_owned())
    } else {
        parent(root)
    }
}

/// The exchange for one file, from the client's side: describe the file,
/// hear whether the server has it, send it if not, hear where it went.
pub struct FileTransfer {
    setting: TrsferSetting,
    path: String,
    base: String,
    stage: Stage,
    metadata: FileMetadata,
}

impl FileTransfer {
    pub closed spec fn setting(&self) -> TrsferSetting {
        self.setting
    }

    /// The file on disk.
    pub closed spec fn path(&self) -> Seq<char> {
        self.path@
    }

    /// The session's base directory.
    pub closed spec fn base(&self) -> Seq<char> {
        self.base@
    }

    pub closed spec fn stage(&self) -> Stage {
        self.stage
    }

    /// The path as the server is told it: relative to the base. It is known
    /// from the stage `SendingSetting` on.
    pub closed spec fn relative_path(&self) -> Seq<char> {
        self.metadata.path_buf@
    }

    /// The size as the server is told it.
    pub closed spec fn file_size(&self) -> u64 {
        self.metadata.file_size
    }

    /// Whether `event` answers what the exchange asked for last.
    pub open spec fn expects(&self, event: Event) -> bool {
        match self.stage() {
            Stage::Created => event is Begin,
            Stage::Describing => event is Described || event is Failed,
            Stage::SendingSetting | Stage::SendingMetadata | Stage::SendingContent => event is Sent
                || event is Failed,
            Stage::AwaitingVerdict | Stage::AwaitingResponse => event is Received
                || event is Failed,
            Stage::Loading => event is Loaded || event is Failed,
            Stage::Done => false,
        }
    }

    /// One step of the exchange: the state before, what the driver
    /// reported, the state after, and what the driver is asked to do.
    pub open spec fn steps(pre: Self, event: Event, post: Self, action: Action) -> bool {
        &&& post.setting() == pre.setting()
        &&& post.path() == pre.path()
        &&& post.base() == pre.base()
        &&& !(event is Described) ==> post.relative_path() == pre.relative_path()
            && post.file_size() == pre.file_size()
        &&& match event {
            Event::Failed(e) => post.stage() == Stage::Done && action.fails_with(e),
            Event::Begin => post.stage() == Stage::Describing && action.describes(pre.path()),
            Event::Described(found) => match path_stripped(found.path_buf@, pre.base()) {
                Some(rest) => {
                    &&& post.stage() == Stage::SendingSetting
                    &&& post.relative_path() == rest
                    &&& post.file_size() == found.file_size
                    &&& action.sends(pre.setting().wire())
                },
                None => {
                    &&& post.stage() == Stage::Done
                    &&& post.relative_path() == pre.relative_path()
                    &&& post.file_size() == pre.file_size()
                    &&& action.fails_stripping()
                },
            },
            Event::Sent => {
                &&& match pre.stage() {
                    Stage::SendingSetting => {
                        &&& post.stage() == Stage::SendingMetadata
                        &&& action.sends(
                            text_and_size_bytes(pre.relative_path(), pre.file_size()),
                        )
                    },
                    Stage::SendingMetadata => post.stage() == Stage::AwaitingVerdict
                        && action is Receive,
                    _ => post.stage() == Stage::AwaitingResponse && action is Receive,
                }
            },
            Event::Received(bytes) => {
                &&& match pre.stage() {
                    Stage::AwaitingVerdict => match parse_flag(bytes@) {
                        Some(true) => post.stage() == Stage::Done && action.skips(),
                        Some(false) => post.stage() == Stage::Loading && action.loads(pre.path()),
                        None => post.stage() == Stage::Done && action.fails_decoding(),
                    },
                    _ => post.stage() == Stage::Done && match parse_text(bytes@) {
                        Some(save_path) => action.finishes_at(save_path),
                        None => action.fails_decoding(),
                    },
                }
            },
            Event::Loaded(content) => {
                &&& post.stage() == Stage::SendingContent
                &&& action.sends_content(content@)
            },
        }
    }

    /// An exchange for the file at `path`, in a session whose paths are
    /// relative to `base`.
    pub fn new(path: String, base: String, is_dry_run: bool) -> (task: Self)
        ensures
            task.stage() == Stage::Created,
            task.path() == path@,
            task.base() == base@,
            task.setting().is_dry_run == is_dry_run,
    {
        FileTransfer {
            setting: TrsferSetting::new(is_dry_run),
            path,
            base,
            stage: Stage::Created,
            metadata: FileMetadata::new(String::new(), 0),
        }
    }

    pub fn current_stage(&self) -> (stage: Stage)
        ensures
            stage == self.stage(),
    {
        self.stage
    }

    /// The path that names the file to the server and to the user.
    pub fn display_path(&self) -> (path: &str)
        ensures
            path@ == self.relative_path(),
    {
        self.metadata.path_buf.as_str()
    }

    /// Whether `event` answers what the exchange asked for last.
    pub fn accepts(&self, event: &Event) -> (ok: bool)
        ensures
            ok == self.expects(*event),
    {
        match self.stage {
            Stage::Created => matches!(event, Event::Begin),
            Stage::Describing => matches!(event, Event::Described(_) | Event::Failed(_)),
            Stage::SendingSetting | Stage::SendingMetadata | Stage::SendingContent => matches!(
                event,
                Event::Sent | Event::Failed(_)
            ),
            Stage::AwaitingVerdict | Stage::AwaitingResponse => matches!(
                event,
                Event::Received(_) | Event::Failed(_)
            ),
            Stage::Loading => matches!(event, Event::Loaded(_) | Event::Failed(_)),
            Stage::Done => false,
        }
    }

    fn fail(&mut self, error: Error) -> (action: Action)
        ensures
            final(self).stage() == Stage::Done,
            final(self).setting() == old(self).setting(),
            final(self).path() == old(self).path(),
            final(self).base() == old(self).base(),
            final(self).relative_path() == old(self).relative_path(),
            final(self).file_size() == old(self).file_size(),
            action.fails_with(error),
    {
        self.stage = Stage::Done;
        Action::Finish(Outcome::Failed(error))
    }

    fn send(&mut self, message: Result<Vec<u8>, Error>, next: Stage) -> (action: Action)
        requires
            message is Ok,
        ensures
            final(self).stage() == next,
            final(self).setting() == old(self).setting(),
            final(self).path() == old(self).path(),
            final(self).base() == old(self).base(),
            final(self).relative_path() == old(self).relative_path(),
            final(self).file_size() == old(self).file_size(),
            action.sends(message->Ok_0@),
    {
        match message {
            Ok(bytes) => {
                self.stage = next;
                Action::Send(bytes)
            },
            Err(e) => self.fail(e),
        }
    }

    /// Takes in what the driver reports and says what to do next.
    pub fn step(&mut self, event: Event) -> (action: Action)
        requires
            old(self).expects(event),
        ensures
            Self::steps(*old(self), event, *final(self), action),
    {
        match event {
            Event::Failed(e) => self.fail(e),
            Event::Begin => {
                self.stage = Stage::Describing;
                Action::Describe(self.path.clone())
            },
            Event::Described(found) => {
                let mut found = found;
                match found.strip_prefix(self.base.as_str()) {
                    Ok(()) => {
                        self.metadata = found;
                        let message = self.setting.serialize();
                        self.send(message, Stage::SendingSetting)
                    },
                    Err(e) => self.fail(Error::StripPrefixError(e)),
                }
            },
            Event::Sent => match self.stage {
                Stage::SendingSetting => {
                    let message = self.metadata.serialize();
                    self.send(message, Stage::SendingMetadata)
                },
                Stage::SendingMetadata => {
                    self.stage = Stage::AwaitingVerdict;
                    Action::Receive
                },
                _ => {
                    self.stage = Stage::AwaitingResponse;
                    Action::Receive
                },
            },
            Event::Received(bytes) => match self.stage {
                Stage::AwaitingVerdict => match bool::deserialize(bytes.as_slice()) {
                    Ok(true) => {
                        self.stage = Stage::Done;
                        Action::Finish(Outcome::Skipped)
                    },
                    Ok(false) => {
                        self.stage = Stage::Loading;
                        Action::Load(self.path.clone())
                    },
                    Err(e) => self.fail(e),
                },
                _ => match Response::deserialize(bytes.as_slice()) {
                    Ok(response) => {
                        self.stage = Stage::Done;
                        Action::Finish(Outcome::Finished(response))
                    },
                    Err(e) => self.fail(e),
                },
            },
            Event::Loaded(content) => {
                self.stage = Stage::SendingContent;
                Action::SendContent(content)
            },
        }
    }
}

/// The file's content is asked for only when the server has just said that
/// it does not have the file.
pub proof fn lemma_content_follows_invitation(
    pre: FileTransfer,
    event: Event,
    post: FileTransfer,
    action: Action,
)
    requires
        pre.expects(event),
        FileTransfer::steps(pre, event, post, action),
        action is Load || action is SendContent,
    ensures
        action is Load ==> pre.stage() == Stage::AwaitingVerdict && (event matches Event::Received(
            reply,
        ) && parse_flag(reply@) == Some(false)),
        action is SendContent ==> pre.stage() == Stage::Loading,
{
}

/// A file that the server has already is skipped: the exchange is over, and
/// nothing was loaded or sent for it.
pub proof fn lemma_existing_file_is_skipped(
    pre: FileTransfer,
    reply: Vec<u8>,
    post: FileTransfer,
    action: Action,
)
    requires
        pre.stage() == Stage::AwaitingVerdict,
        parse_flag(reply@) == Some(true),
        FileTransfer::steps(pre, Event::Received(reply), post, action),
    ensures
        action.skips(),
        post.stage() == Stage::Done,
        forall|event: Event| !post.expects(event),
{
}

/// Whatever fails, at whatever stage, ends the exchange of this file with
/// that very error. The step touches this exchange only.
pub proof fn lemma_failure_ends_exchange(
    pre: FileTransfer,
    error: Error,
    post: FileTransfer,
    action: Action,
)
    requires
        FileTransfer::steps(pre, Event::Failed(error), post, action),
    ensures
        action.fails_with(error),
        post.stage() == Stage::Done,
        forall|event: Event| !post.expects(event),
{
}

/// The whole exchange for a file that the server does not have: the
/// settings go first, then the description with the path relative to the
/// base, then, after the server's word, the content; the exchange finishes at
/// the save path that the server reports.
pub proof fn lemma_exchange_in_order(
    states: Seq<FileTransfer>,
    actions: Seq<Action>,
    found: FileMetadata,
    verdict: Vec<u8>,
    content: FileContent,
    response: Vec<u8>,
)
    requires
        states.len() == 9,
        actions.len() == 8,
        states[0].stage() == Stage::Created,
        path_stripped(found.path_buf@, states[0].base()) is Some,
        parse_flag(verdict@) == Some(false),
        parse_text(response@) is Some,
        FileTransfer::steps(states[0], Event::Begin, states[1], actions[0]),
        FileTransfer::steps(states[1], Event::Described(found), states[2], actions[1]),
        FileTransfer::steps(states[2], Event::Sent, states[3], actions[2]),
        FileTransfer::steps(states[3], Event::Sent, states[4], actions[3]),
        FileTransfer::steps(states[4], Event::Received(verdict), states[5], actions[4]),
        FileTransfer::steps(states[5], Event::Loaded(content), states[6], actions[5]),
        FileTransfer::steps(states[6], Event::Sent, states[7], actions[6]),
        FileTransfer::steps(states[7], Event::Received(response), states[8], actions[7]),
    ensures
        actions[0].describes(states[0].path()),
        actions[1].sends(states[0].setting().wire()),
        actions[2].sends(
            text_and_size_bytes(
                path_stripped(found.path_buf@, states[0].base())->Some_0,
                found.file_size,
            ),
        ),
        actions[3] is Receive,
        actions[4].loads(states[0].path()),
        actions[5].sends_content(content@),
        actions[6] is Receive,
        actions[7].finishes_at(parse_text(response@)->Some_0),
        states[8].stage() == Stage::Done,
{
}

} // verus!
