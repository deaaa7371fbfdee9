use vstd::prelude::*;
use crate::error::Error;
use crate::message::{
    flag_bytes, parse_text_and_size, text_bytes, FileContent, FileMetadata, Message, Response,
    TrsferSetting,
};
use crate::path::{join, path_joined};

verus! {

/// Where the handler of one connection stands within a request.
#[derive(Clone, Copy, Debug, PartialEq, Eq, Structural)]
pub enum Phase {
    /// The connection has just been accepted.
    Accepted,
    /// Waiting for the settings that open a request.
    AwaitingSetting,
    /// Waiting for the file's description.
    AwaitingMetadata,
    /// The driver is looking whether a file is at the save path.
    Probing,
    /// Telling the client that the file is there already.
    Declining,
    /// Telling the client that the file is wanted.
    Inviting,
    /// Waiting for the file's content.
    AwaitingContent,
    /// The driver is handing the content to a background task.
    Persisting,
    /// Telling the client where the file was put.
    Responding,
    /// The handler has left its loop.
    Stopped,
}

/// What the driver reports back.
pub enum Event {
    /// The handler may start.
    Begin,
    /// A whole frame arrived; this is its payload.
    Received(Vec<u8>),
    /// Whether a file is at the save path.
    Probed(bool),
    /// The frame asked for was written and flushed.
    Sent,
    /// The background task that saves the content was started.
    Detached,
    /// The operation asked for failed.
    Failed(Error),
}

/// Why the handler left its loop.
pub enum Exit {
    /// The client closed the connection: the ordinary end.
    Disconnected,
    /// Something went wrong on this connection; others are not affected.
    Failed(Error),
}

/// What the driver is to do next.
pub enum Action {
    /// Read one frame.
    Receive,
    /// Look whether a file is at this path.
    Probe(String),
    /// Write one frame that carries these bytes.
    Send(Vec<u8>),
    /// Save the content at the path on a background task and do not wait
    /// for it.
    Persist(String, FileContent),
    /// Leave the loop.
    Stop(Exit),
}

impl Action {
    pub open spec fn probes(self, path: Seq<char>) -> bool {
        self matches Action::Probe(p) && p@ == path
    }

    pub open spec fn sends(self, bytes: Seq<u8>) -> bool {
        self matches Action::Send(b) && b@ == bytes
    }

    pub open spec fn persists(self, path: Seq<char>, content: Seq<u8>) -> bool {
        self matches Action::Persist(p, c) && p@ == path && c@ == content
    }

    pub open spec fn stops_clean(self) -> bool {
        self matches Action::Stop(Exit::Disconnected)
    }

    pub open spec fn stops_with(self, error: Error) -> bool {
        self matches Action::Stop(Exit::Failed(e)) && e == error
    }

    pub open spec fn stops_decoding(self) -> bool {
        self matches Action::Stop(Exit::Failed(e)) && e is BincodeError
    }
}

/// The request loop of one connection, from the server's side: for each
/// file, hear what is offered, say whether it is wanted, take it, say where
/// it went.
pub struct StreamHandler {
    output_path: String,
    phase: Phase,
    setting: TrsferSetting,
    save_path: String,
}

impl StreamHandler {
    /// The directory that received files go under.
    pub closed spec fn output_path(&self) -> Seq<char> {
        self.output_path@
    }

    pub closed spec fn phase(&self) -> Phase {
        self.phase
    }

    /// The settings of the request in progress.
    pub closed spec fn setting(&self) -> TrsferSetting {
        self.setting
    }

    /// Where the file of the request in progress goes. It is known from the
    /// phase `Probing` on.
    pub closed spec fn save_path(&self) -> Seq<char> {
        self.save_path@
    }

    /// Whether `event` answers what the handler asked for last.
    pub open spec fn expects(&self, event: Event) -> bool {
        match self.phase() {
            Phase::Accepted => event is Begin,
            Phase::AwaitingSetting | Phase::AwaitingMetadata | Phase::AwaitingContent => event
                is Received || event is Failed,
            Phase::Probing => event is Probed || event is Failed,
            Phase::Declining | Phase::Inviting | Phase::Responding => event is Sent || event
                is Failed,
            Phase::Persisting => event is Detached || event is Failed,
            Phase::Stopped => false,
        }
    }

    /// One step of the loop: the state before, what the driver reported, the
    /// state after, and what the driver is asked to do.
    pub open spec fn steps(pre: Self, event: Event, post: Self, action: Action) -> bool {
        &&& post.output_path() == pre.output_path()
        &&& !(event is Received) ==> post.setting() == pre.setting() && post.save_path()
            == pre.save_path()
        &&& match event {
            Event::Failed(e) => {
                &&& post.phase() == Phase::Stopped
                &&& if e.is_disconnect() {
                    action.stops_clean()
                } else {
                    action.stops_with(e)
                }
            },
            Event::Begin => post.phase() == Phase::AwaitingSetting && action is Receive,
            Event::Received(bytes) => match pre.phase() {
                Phase::AwaitingSetting => post.save_path() == pre.save_path()
                    && match TrsferSetting::parse(bytes@) {
                    Some(setting) => {
                        &&& post.phase() == Phase::AwaitingMetadata
                        &&& post.setting() == setting
                        &&& action is Receive
                    },
                    None => {
                        &&& post.phase() == Phase::Stopped
                        &&& post.setting() == pre.setting()
                        &&& action.stops_decoding()
                    },
                },
                Phase::AwaitingMetadata => post.setting() == pre.setting()
                    && match parse_text_and_size(bytes@) {
                    Some(offer) => {
                        &&& post.phase() == Phase::Probing
                        &&& post.save_path() == path_joined(pre.output_path(), offer.0)
                        &&& action.probes(post.save_path())
                    },
                    None => {
                        &&& post.phase() == Phase::Stopped
                        &&& post.save_path() == pre.save_path()
                        &&& action.stops_decoding()
                    },
                },
                _ => {
                    &&& post.setting() == pre.setting()
                    &&& post.save_path() == pre.save_path()
                    &&& if pre.setting().is_dry_run {
                        &&& post.phase() == Phase::Responding
                        &&& action.sends(text_bytes(pre.save_path()))
                    } else {
                        &&& post.phase() == Phase::Persisting
                        &&& action.persists(pre.save_path(), bytes@)
                    }
                },
            },
            Event::Probed(exists) => {
                &&& post.phase() == if exists {
                    Phase::Declining
                } else {
                    Phase::Inviting
                }
                &&& action.sends(flag_bytes(exists))
            },
            Event::Sent => {
                &&& post.phase() == if pre.phase() == Phase::Inviting {
                    Phase::AwaitingContent
                } else {
                    Phase::AwaitingSetting
                }
                &&& action is Receive
            },
            Event::Detached => {
                &&& post.phase() == Phase::Responding
                &&& action.sends(text_bytes(pre.save_path()))
            },
        }
    }

    /// A handler for a connection whose files go under `output_path`.
    pub fn new(output_path: String) -> (handler: Self)
        ensures
            handler.phase() == Phase::Accepted,
            handler.output_path() == output_path@,
    {
        StreamHandler {
            output_path,
            phase: Phase::Accepted,
            setting: TrsferSetting::new(false),
            save_path: String::new(),
        }
    }

    pub fn current_phase(&self) -> (phase: Phase)
        ensures
            phase == self.phase(),
    {
        self.phase
    }

    /// Whether `event` answers what the handler asked for last.
    pub fn accepts(&self, event: &Event) -> (ok: bool)
        ensures
            ok == self.expects(*event),
    {
        match self.phase {
            Phase::Accepted => matches!(event, Event::Begin),
            Phase::AwaitingSetting | Phase::AwaitingMetadata | Phase::AwaitingContent => matches!(
                event,
                Event::Received(_) | Event::Failed(_)
            ),
            Phase::Probing => matches!(event, Event::Probed(_) | Event::Failed(_)),
            Phase::Declining | Phase::Inviting | Phase::Responding => matches!(
                event,
                Event::Sent | Event::Failed(_)
            ),
            Phase::Persisting => matches!(event, Event::Detached | Event::Failed(_)),
            Phase::Stopped => false,
        }
    }

    fn stop(&mut self, error: Error) -> (action: Action)
        ensures
            final(self).phase() == Phase::Stopped,
            final(self).output_path() == old(self).output_path(),
            final(self).setting() == old(self).setting(),
            final(self).save_path() == old(self).save_path(),
            action.stops_with(error),
    {
        self.phase = Phase::Stopped;
        Action::Stop(Exit::Failed(error))
    }

    fn send(&mut self, message: Result<Vec<u8>, Error>, next: Phase) -> (action: Action)
        requires
            message is Ok,
        ensures
            final(self).phase() == next,
            final(self).output_path() == old(self).output_path(),
            final(self).setting() == old(self).setting(),
            final(self).save_path() == old(self).save_path(),
            action.sends(message->Ok_0@),
    {
        match message {
            Ok(bytes) => {
                self.phase = next;
                Action::Send(bytes)
            },
            Err(e) => self.stop(e),
        }
    }

    fn respond(&mut self) -> (action: Action)
        ensures
            final(self).phase() == Phase::Responding,
            final(self).output_path() == old(self).output_path(),
            final(self).setting() == old(self).setting(),
            final(self).save_path() == old(self).save_path(),
            action.sends(text_bytes(old(self).save_path())),
    {
        let response = Response::new(self.save_path.clone());
        let message = response.serialize();
        self.send(message, Phase::Responding)
    }

    /// Takes in what the driver reports and says what to do next.
    pub fn step(&mut self, event: Event) -> (action: Action)
        requires
            old(self).expects(event),
        ensures
            Self::steps(*old(self), event, *final(self), action),
    {
        match event {
            Event::Failed(e) => {
                self.phase = Phase::Stopped;
                if e.disconnected() {
                    Action::Stop(Exit::Disconnected)
                } else {
                    Action::Stop(Exit::Failed(e))
                }
            },
            Event::Begin => {
                self.phase = Phase::AwaitingSetting;
                Action::Receive
            },
            Event::Received(bytes) => match self.phase {
                Phase::AwaitingSetting => match TrsferSetting::deserialize(bytes.as_slice()) {
                    Ok(setting) => {
                        self.setting = setting;
                        self.phase = Phase::AwaitingMetadata;
                        Action::Receive
                    },
                    Err(e) => self.stop(e),
                },
                Phase::AwaitingMetadata => match FileMetadata::deserialize(bytes.as_slice()) {
                    Ok(metadata) => {
                        self.save_path = join(
                            self.output_path.as_str(),
                            metadata.path_buf.as_str(),
                        );
                        self.phase = Phase::Probing;
                        Action::Probe(self.save_path.clone())
                    },
                    Err(e) => self.stop(e),
                },
                _ => {
                    if self.setting.is_dry_run {
                        self.respond()
                    } else {
                        self.phase = Phase::Persisting;
                        Action::Persist(self.save_path.clone(), FileContent::new(bytes))
                    }
                },
            },
            Event::Probed(exists) => {
                let message = exists.serialize();
                let next = if exists {
                    Phase::Declining
                } else {
                    Phase::Inviting
                };
                self.send(message, next)
            },
            Event::Sent => {
                self.phase = if self.phase == Phase::Inviting {
                    Phase::AwaitingContent
                } else {
                    Phase::AwaitingSetting
                };
                Action::Receive
            },
            Event::Detached => self.respond(),
        }
    }
}

/// A file that is at the save path already is declined, and the frame read
/// next opens the next request: no content is read for this one.
pub proof fn lemma_existing_file_is_declined(
    probing: StreamHandler,
    declining: StreamHandler,
    next: StreamHandler,
    reply: Action,
    then: Action,
)
    requires
        probing.phase() == Phase::Probing,
        StreamHandler::steps(probing, Event::Probed(true), declining, reply),
        StreamHandler::steps(declining, Event::Sent, next, then),
    ensures
        reply.sends(flag_bytes(true)),
        then is Receive,
        next.phase() == Phase::AwaitingSetting,
{
}

/// A file that is not at the save path is asked for, and the frame read
/// next is its content.
pub proof fn lemma_missing_file_is_invited(
    probing: StreamHandler,
    inviting: StreamHandler,
    next: StreamHandler,
    reply: Action,
    then: Action,
)
    requires
        probing.phase() == Phase::Probing,
        StreamHandler::steps(probing, Event::Probed(false), inviting, reply),
        StreamHandler::steps(inviting, Event::Sent, next, then),
    ensures
        reply.sends(flag_bytes(false)),
        then is Receive,
        next.phase() == Phase::AwaitingContent,
{
}

/// Nothing is saved but content that has just arrived for a request that is
/// not a dry run, and it is saved whole, at the save path of that request.
pub proof fn lemma_persist_only_on_request(
    pre: StreamHandler,
    event: Event,
    post: StreamHandler,
    action: Action,
)
    requires
        pre.expects(event),
        StreamHandler::steps(pre, event, post, action),
        action is Persist,
    ensures
        pre.phase() == Phase::AwaitingContent,
        !pre.setting().is_dry_run,
        event matches Event::Received(content) && action.persists(pre.save_path(), content@),
{
}

/// On a dry run the content is dropped, and the client is still told the
/// save path.
pub proof fn lemma_dry_run_saves_nothing(
    pre: StreamHandler,
    content: Vec<u8>,
    post: StreamHandler,
    action: Action,
)
    requires
        pre.phase() == Phase::AwaitingContent,
        pre.setting().is_dry_run,
        StreamHandler::steps(pre, Event::Received(content), post, action),
    ensures
        !(action is Persist),
        action.sends(text_bytes(pre.save_path())),
        post.phase() == Phase::Responding,
{
}

/// Off a dry run the content goes to the background task, and the client
/// is told the save path as soon as that task is started, whether or not the
/// file is on disk by then.
pub proof fn lemma_response_follows_persist(
    pre: StreamHandler,
    content: Vec<u8>,
    persisting: StreamHandler,
    post: StreamHandler,
    save: Action,
    reply: Action,
)
    requires
        pre.phase() == Phase::AwaitingContent,
        !pre.setting().is_dry_run,
        StreamHandler::steps(pre, Event::Received(content), persisting, save),
        StreamHandler::steps(persisting, Event::Detached, post, reply),
    ensures
        save.persists(pre.save_path(), content@),
        reply.sends(text_bytes(pre.save_path())),
        post.phase() == Phase::Responding,
{
}

/// When the client closes the connection, in whatever phase, the handler
/// leaves its loop and reports no error. Any other failure is reported as it
/// is. The step touches this handler only.
pub proof fn lemma_disconnect_is_clean(
    pre: StreamHandler,
    error: Error,
    post: StreamHandler,
    action: Action,
)
    requires
        StreamHandler::steps(pre, Event::Failed(error), post, action),
    ensures
        post.phase() == Phase::Stopped,
        forall|event: Event| !post.expects(event),
        error.is_disconnect() ==> action.stops_clean(),
        !error.is_disconnect() ==> action.stops_with(error),
{
}

/// The save path of a request is the output directory joined with the path
/// that the client sent, and stays so until the request is answered.
pub proof fn lemma_save_path_is_joined(
    pre: StreamHandler,
    offer: Vec<u8>,
    post: StreamHandler,
    action: Action,
)
    requires
        pre.phase() == Phase::AwaitingMetadata,
        parse_text_and_size(offer@) is Some,
        StreamHandler::steps(pre, Event::Received(offer), post, action),
    ensures
        post.save_path() == path_joined(pre.output_path(), parse_text_and_size(offer@)->Some_0.0),
        action.probes(post.save_path()),
{
}

} // verus!
