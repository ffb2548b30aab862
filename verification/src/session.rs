//! The session manager of one host: whether a connection must be made, which
//! call may use it, and what each call does with what the transport reports.

use vstd::prelude::*;
use vstd::string::*;
use crate::auth::{
    advance, auth_error_text, negotiate, AuthAction, AuthActionView, AuthEvent, AuthEventView,
    AuthState, Credentials, CredentialsView,
};
use crate::lock::{
    lemma_apply_keeps_wf, lemma_others_keep_their_place, lemma_release_forgets, Admission,
    CallLock, CallLockView, LockOp,
};
use crate::net::Endpoint;
use crate::protocol::{complete, orderly, StreamEvent, StreamEventView};
use crate::text::text_of;
use crate::whitelist::{
    allowed, command_error_text, lemma_label_is_the_command, lookup, operation_for, CommandError,
    Operation,
};

verus! {

/// The transport's event handler. It keeps every default of the transport.
#[derive(Clone, Copy, Debug, Default, PartialEq, Eq)]
pub struct ClientHandler;

/// What is needed to reach one host and log in.
#[derive(Clone, Debug, PartialEq, Eq)]
pub struct SshParams {
    pub addr: Endpoint,
    pub username: String,
    pub identity_path: Option<String>,
    /// A hint to the server on which interactive submethods to use.
    pub ki_submethods: Option<String>,
    /// Seconds between two keep-alive probes.
    pub keepalive_secs: u64,
}

pub struct SshParamsView {
    pub addr: Endpoint,
    pub username: Seq<char>,
    pub identity_path: Option<Seq<char>>,
    pub ki_submethods: Option<Seq<char>>,
    pub keepalive_secs: u64,
}

impl View for SshParams {
    type V = SshParamsView;

    open spec fn view(&self) -> SshParamsView {
        SshParamsView {
            addr: self.addr,
            username: self.username@,
            identity_path: text_of(self.identity_path),
            ki_submethods: text_of(self.ki_submethods),
            keepalive_secs: self.keepalive_secs,
        }
    }
}

impl SshParamsView {
    /// The part of the parameters that the negotiator works with.
    pub open spec fn credentials(self) -> CredentialsView {
        CredentialsView {
            username: self.username,
            identity_path: self.identity_path,
            ki_submethods: self.ki_submethods,
        }
    }
}

impl SshParams {
    /// The part of the parameters that the negotiator works with.
    pub fn credentials(&self) -> (r: Credentials)
        ensures
            r@ == self@.credentials(),
    {
        Credentials {
            username: self.username.clone(),
            identity_path: self.identity_path.clone(),
            ki_submethods: self.ki_submethods.clone(),
        }
    }
}

/// How the transport of a session is set up.
#[derive(Clone, Copy, Debug, PartialEq, Eq, Structural)]
pub struct TransportSettings {
    /// Seconds of silence after which the transport closes the connection.
    pub inactivity_timeout_secs: u64,
    /// Seconds between two keep-alive probes.
    pub keepalive_interval_secs: u64,
    /// How many messages a channel buffers.
    pub channel_buffer_size: usize,
    /// The flow-control window of a channel, in bytes.
    pub window_size: u32,
}

/// The settings every session uses, but for the keep-alive interval.
pub open spec fn settings_for(keepalive_secs: u64) -> TransportSettings {
    TransportSettings {
        inactivity_timeout_secs: 30,
        keepalive_interval_secs: keepalive_secs,
        channel_buffer_size: 64,
        window_size: 1048576,
    }
}

/// What to do about keep-alive supervisors after a connection was made.
#[derive(Clone, Copy, Debug, PartialEq, Eq, Structural)]
pub struct KeepalivePlan {
    /// The generation whose supervisor must be stopped, if one runs.
    pub stop: Option<u64>,
    /// The generation to start a supervisor for, if probes are wanted.
    pub start: Option<u64>,
    /// Seconds between two probes.
    pub interval_secs: u64,
}

/// What a keep-alive supervisor does at a tick.
#[derive(Clone, Copy, Debug, PartialEq, Eq, Structural)]
pub enum KeepaliveStep {
    /// Send a probe; whether it arrives does not matter.
    Probe,
    /// End the supervisor.
    Stop,
}

/// The generation that follows `g`. It differs from `g` always.
pub open spec fn next_generation(g: u64) -> u64 {
    if g == u64::MAX {
        0
    } else {
        (g + 1) as u64
    }
}

/// The session of one host.
#[derive(Clone, Debug, PartialEq, Eq)]
pub struct SessionManager {
    pub params: SshParams,
    pub settings: TransportSettings,
    /// The generation of the connection held, while one is held.
    pub handle: Option<u64>,
    /// The generation of the last connection made.
    pub generation: u64,
    /// The generation that the running keep-alive supervisor belongs to.
    pub keepalive: Option<u64>,
    pub lock: CallLock,
}

pub struct SessionView {
    pub params: SshParamsView,
    pub settings: TransportSettings,
    pub handle: Option<u64>,
    pub generation: u64,
    pub keepalive: Option<u64>,
    pub lock: CallLockView,
}

impl View for SessionManager {
    type V = SessionView;

    open spec fn view(&self) -> SessionView {
        SessionView {
            params: self.params@,
            settings: self.settings,
            handle: self.handle,
            generation: self.generation,
            keepalive: self.keepalive,
            lock: self.lock@,
        }
    }
}

impl SessionView {
    /// A connection held is the last one made, and so is the one that the
    /// supervisor watches.
    pub open spec fn wf(self) -> bool {
        &&& self.lock.wf()
        &&& self.handle matches Some(g) ==> g == self.generation
        &&& self.keepalive matches Some(g) ==> g == self.generation
    }

    /// The session of a host that was never connected to.
    pub open spec fn fresh(params: SshParamsView) -> SessionView {
        SessionView {
            params,
            settings: settings_for(params.keepalive_secs),
            handle: None,
            generation: 0,
            keepalive: None,
            lock: CallLockView { holder: None, waiting: Seq::empty() },
        }
    }

    /// Whether a connection must be made, given what the transport says of
    /// the handle held.
    pub open spec fn must_connect(self, closed: bool) -> bool {
        self.handle is None || closed
    }

    /// The session once it is known whether a connection must be made: a
    /// closed handle is dropped.
    pub open spec fn checked(self, closed: bool) -> SessionView {
        if self.must_connect(closed) {
            SessionView { handle: None, ..self }
        } else {
            self
        }
    }

    /// The plan for the supervisors once a connection was made.
    pub open spec fn plan(self) -> KeepalivePlan {
        KeepalivePlan {
            stop: self.keepalive,
            start: if self.settings.keepalive_interval_secs > 0 {
                Some(next_generation(self.generation))
            } else {
                None
            },
            interval_secs: self.settings.keepalive_interval_secs,
        }
    }

    /// The session once a connection was made: it holds the new handle
    /// under a new generation.
    pub open spec fn connected(self) -> SessionView {
        SessionView {
            handle: Some(next_generation(self.generation)),
            generation: next_generation(self.generation),
            keepalive: self.plan().start,
            ..self
        }
    }

    /// What the supervisor of `generation` does at a tick, given what the
    /// transport says of the handle.
    pub open spec fn tick(self, generation: u64, closed: bool) -> KeepaliveStep {
        if self.handle == Some(generation) && self.keepalive == Some(generation) && !closed {
            KeepaliveStep::Probe
        } else {
            KeepaliveStep::Stop
        }
    }

    /// The session after a tick of the supervisor of `generation`.
    pub open spec fn ticked(self, generation: u64, closed: bool) -> SessionView {
        if self.tick(generation, closed) == KeepaliveStep::Stop && self.keepalive == Some(
            generation,
        ) {
            SessionView { keepalive: None, ..self }
        } else {
            self
        }
    }
}

/// A message read from an execution channel.
#[derive(Clone, Debug, PartialEq, Eq)]
pub enum ChannelMessage {
    Data(Vec<u8>),
    ExtendedData { data: Vec<u8>, ext: u32 },
    ExitStatus(u32),
    Eof,
    Close,
    /// Any message that does not matter to a command's output.
    Other,
}

pub enum ChannelMessageView {
    Data(Seq<u8>),
    ExtendedData { data: Seq<u8>, ext: u32 },
    ExitStatus(u32),
    Eof,
    Close,
    Other,
}

impl View for ChannelMessage {
    type V = ChannelMessageView;

    open spec fn view(&self) -> ChannelMessageView {
        match self {
            ChannelMessage::Data(data) => ChannelMessageView::Data(data@),
            ChannelMessage::ExtendedData { data, ext } => ChannelMessageView::ExtendedData {
                data: data@,
                ext: *ext,
            },
            ChannelMessage::ExitStatus(status) => ChannelMessageView::ExitStatus(*status),
            ChannelMessage::Eof => ChannelMessageView::Eof,
            ChannelMessage::Close => ChannelMessageView::Close,
            ChannelMessage::Other => ChannelMessageView::Other,
        }
    }
}

/// What a call is told.
#[derive(Clone, Debug, PartialEq, Eq)]
pub enum CallEvent {
    /// The lock passed to this call.
    Granted,
    /// The transport said whether the handle held is closed.
    Probed { closed: bool },
    /// Something the negotiator waits for has happened.
    Auth(AuthEvent),
    /// The execution channel is open.
    ChannelOpened,
    /// The remote side took the command.
    Started,
    /// Opening the channel, starting the command or reading from the
    /// channel failed.
    ChannelFailed(String),
    /// A message arrived on the channel.
    Message(ChannelMessage),
    /// The channel will deliver nothing more.
    ChannelEnded,
    /// What was to be closed is closed.
    Closed,
    /// The client went away.
    Abandoned,
}

pub enum CallEventView {
    Granted,
    Probed { closed: bool },
    Auth(AuthEventView),
    ChannelOpened,
    Started,
    ChannelFailed(Seq<char>),
    Message(ChannelMessageView),
    ChannelEnded,
    Closed,
    Abandoned,
}

impl View for CallEvent {
    type V = CallEventView;

    open spec fn view(&self) -> CallEventView {
        match self {
            CallEvent::Granted => CallEventView::Granted,
            CallEvent::Probed { closed } => CallEventView::Probed { closed: *closed },
            CallEvent::Auth(event) => CallEventView::Auth(event@),
            CallEvent::ChannelOpened => CallEventView::ChannelOpened,
            CallEvent::Started => CallEventView::Started,
            CallEvent::ChannelFailed(cause) => CallEventView::ChannelFailed(cause@),
            CallEvent::Message(message) => CallEventView::Message(message@),
            CallEvent::ChannelEnded => CallEventView::ChannelEnded,
            CallEvent::Closed => CallEventView::Closed,
            CallEvent::Abandoned => CallEventView::Abandoned,
        }
    }
}

/// What a call wants done next.
#[derive(Clone, Debug, PartialEq, Eq)]
pub enum Directive {
    /// Wait until the lock passes to this call.
    Wait,
    /// Ask the transport whether the handle held is closed.
    Probe,
    /// Set up the transport to the host.
    Connect,
    /// Read the private key at this path.
    LoadKey(String),
    /// Offer the key that was read, for this user.
    OfferKey(String),
    /// Open the keyboard-interactive loop.
    StartInteractive { username: String, submethods: Option<String> },
    /// Wait for the client's next message.
    AwaitAnswer,
    /// Hand the client's answers to the server.
    Respond(Vec<String>),
    /// Open an execution channel on the connection.
    OpenChannel,
    /// Ask the remote side to run this command, as it stands.
    Exec(String),
    /// Read the next message from the channel.
    Receive,
    /// The call has said its last to the client. Send end-of-file and close
    /// the channel if one is open, and give up a transport that was set up
    /// but did not become the session's, without minding whether any of it
    /// works; then report that it is closed. The call keeps the lock till then.
    Close,
    /// The call is over and nothing is left to do.
    Leave,
    /// The call was over before; there is nothing to do.
    Ignore,
}

pub enum DirectiveView {
    Wait,
    Probe,
    Connect,
    LoadKey(Seq<char>),
    OfferKey(Seq<char>),
    StartInteractive { username: Seq<char>, submethods: Option<Seq<char>> },
    AwaitAnswer,
    Respond(Seq<Seq<char>>),
    OpenChannel,
    Exec(Seq<char>),
    Receive,
    Close,
    Leave,
    Ignore,
}

impl View for Directive {
    type V = DirectiveView;

    open spec fn view(&self) -> DirectiveView {
        match self {
            Directive::Wait => DirectiveView::Wait,
            Directive::Probe => DirectiveView::Probe,
            Directive::Connect => DirectiveView::Connect,
            Directive::LoadKey(path) => DirectiveView::LoadKey(path@),
            Directive::OfferKey(username) => DirectiveView::OfferKey(username@),
            Directive::StartInteractive { username, submethods } => DirectiveView::StartInteractive {
                username: username@,
                submethods: text_of(*submethods),
            },
            Directive::AwaitAnswer => DirectiveView::AwaitAnswer,
            Directive::Respond(responses) => DirectiveView::Respond(responses.deep_view()),
            Directive::OpenChannel => DirectiveView::OpenChannel,
            Directive::Exec(command) => DirectiveView::Exec(command@),
            Directive::Receive => DirectiveView::Receive,
            Directive::Close => DirectiveView::Close,
            Directive::Leave => DirectiveView::Leave,
            Directive::Ignore => DirectiveView::Ignore,
        }
    }
}

/// A call's answer to one event.
#[derive(Clone, Debug, PartialEq, Eq)]
pub struct Reaction {
    /// The event to send to the client, if any. Sending is best effort.
    pub emit: Option<StreamEvent>,
    /// What to do next.
    pub next: Directive,
    /// What to do about keep-alive supervisors, if a connection was made.
    pub keepalive: Option<KeepalivePlan>,
    /// The call that the lock passed to, if it passed.
    pub wake: Option<u64>,
}

pub struct ReactionView {
    pub emit: Option<StreamEventView>,
    pub next: DirectiveView,
    pub keepalive: Option<KeepalivePlan>,
    pub wake: Option<u64>,
}

impl View for Reaction {
    type V = ReactionView;

    open spec fn view(&self) -> ReactionView {
        ReactionView {
            emit: match self.emit {
                Some(event) => Some(event@),
                None => None,
            },
            next: self.next@,
            keepalive: self.keepalive,
            wake: self.wake,
        }
    }
}

/// How far a call has come.
#[derive(Clone, Copy, Debug, PartialEq, Eq, Structural)]
pub enum Phase {
    /// The call waits for the lock.
    Queued,
    /// The call holds the lock and waits to hear whether the handle held is closed.
    Probing,
    /// The call holds the lock and a connection is being made.
    Negotiating(AuthState),
    /// The call waits for its execution channel.
    Opening,
    /// The call waits for the remote side to take the command.
    Starting,
    /// The command runs and its output is relayed.
    Streaming,
    /// The call has said its last to the client and still holds the lock,
    /// until what it had open is closed.
    Closing,
    /// The call is over.
    Done,
}

/// One call that runs a whitelisted command.
#[derive(Clone, Copy, Debug, PartialEq, Eq, Structural)]
pub struct Call {
    pub id: u64,
    pub operation: Operation,
    pub phase: Phase,
}

/// The exit code reported for an exit status: the same 32 bits, read as a
/// signed number.
pub open spec fn exit_code(status: u32) -> i32 {
    if status <= 0x7fff_ffff {
        status as i32
    } else {
        (status - 0x1_0000_0000) as i32
    }
}

/// The exit code reported for an exit status.
pub fn exit_code_of(status: u32) -> (code: i32)
    ensures
        code == exit_code(status),
{
    if status <= 0x7fff_ffff {
        status as i32
    } else {
        let low: u32 = status - 0x8000_0000;
        (low as i32) + i32::MIN
    }
}

/// A reaction that only says what to do next.
pub open spec fn just(next: DirectiveView) -> ReactionView {
    ReactionView { emit: None, next, keepalive: None, wake: None }
}

/// A reaction that sends an event and says what to do next.
pub open spec fn send(event: StreamEventView, next: DirectiveView) -> ReactionView {
    ReactionView { emit: Some(event), next, keepalive: None, wake: None }
}

/// Whether a call is inside its window: from the grant of the lock until
/// what the call had open is reported closed.
pub open spec fn active(call: Call) -> bool {
    !(call.phase is Queued) && !(call.phase is Done)
}

/// A call and its session agree: the call is inside its window only while
/// it holds the lock, and a call that waits is known to the lock.
pub open spec fn in_step(session: SessionView, call: Call) -> bool {
    &&& active(call) ==> session.lock.holder == Some(call.id)
    &&& call.phase is Queued ==> session.lock.knows(call.id)
}

/// The call is over: it gives up the lock, which passes to the next in line.
pub open spec fn ended(session: SessionView, call: Call, emit: Option<StreamEventView>) -> (
    SessionView,
    Call,
    ReactionView,
) {
    (
        SessionView { lock: session.lock.release(call.id).0, ..session },
        Call { phase: Phase::Done, ..call },
        ReactionView {
            emit,
            next: DirectiveView::Leave,
            keepalive: None,
            wake: session.lock.release(call.id).1,
        },
    )
}

/// The call has said its last to the client: it asks for what it had open
/// to be closed, and keeps the lock until that is done.
pub open spec fn closing(session: SessionView, call: Call, emit: Option<StreamEventView>) -> (
    SessionView,
    Call,
    ReactionView,
) {
    (
        session,
        Call { phase: Phase::Closing, ..call },
        ReactionView { emit, next: DirectiveView::Close, keepalive: None, wake: None },
    )
}

/// How a call finishes: a call that still waited for the lock has nothing
/// open and is over at once; every other call closes first.
pub open spec fn finished(session: SessionView, call: Call, emit: Option<StreamEventView>) -> (
    SessionView,
    Call,
    ReactionView,
) {
    if call.phase is Queued {
        ended(session, call, emit)
    } else {
        closing(session, call, emit)
    }
}

/// The call finishes with an error event.
pub open spec fn failed(session: SessionView, call: Call, text: Seq<char>) -> (
    SessionView,
    Call,
    ReactionView,
) {
    finished(session, call, Some(StreamEventView::Error(text)))
}

/// Why a command could not be run to its end over a connection that stood.
#[derive(Clone, Debug, PartialEq, Eq)]
pub enum ExecutionError {
    /// No execution channel could be opened.
    Open(String),
    /// The remote side did not take the command.
    Request(String),
    /// Reading from the channel failed.
    Channel(String),
    /// The channel closed before the command's exit status came.
    NoExitStatus,
    /// Something was reported that the call was not waiting for.
    OutOfTurn,
}

pub enum ExecutionErrorView {
    Open(Seq<char>),
    Request(Seq<char>),
    Channel(Seq<char>),
    NoExitStatus,
    OutOfTurn,
}

impl View for ExecutionError {
    type V = ExecutionErrorView;

    open spec fn view(&self) -> ExecutionErrorView {
        match self {
            ExecutionError::Open(cause) => ExecutionErrorView::Open(cause@),
            ExecutionError::Request(cause) => ExecutionErrorView::Request(cause@),
            ExecutionError::Channel(cause) => ExecutionErrorView::Channel(cause@),
            ExecutionError::NoExitStatus => ExecutionErrorView::NoExitStatus,
            ExecutionError::OutOfTurn => ExecutionErrorView::OutOfTurn,
        }
    }
}

/// The text an execution error is reported with.
pub open spec fn execution_error_text(e: ExecutionErrorView) -> Seq<char> {
    match e {
        ExecutionErrorView::Open(cause) => "open session: "@ + cause,
        ExecutionErrorView::Request(cause) => "exec request: "@ + cause,
        ExecutionErrorView::Channel(cause) => "channel failed: "@ + cause,
        ExecutionErrorView::NoExitStatus => "channel closed before exit status"@,
        ExecutionErrorView::OutOfTurn => "unexpected event"@,
    }
}

impl ExecutionError {
    /// The text this error is reported with.
    pub fn describe(&self) -> (text: String)
        ensures
            text@ == execution_error_text(self@),
    {
        match self {
            ExecutionError::Open(cause) => "open session: ".to_owned().concat(cause.as_str()),
            ExecutionError::Request(cause) => "exec request: ".to_owned().concat(cause.as_str()),
            ExecutionError::Channel(cause) => "channel failed: ".to_owned().concat(cause.as_str()),
            ExecutionError::NoExitStatus => "channel closed before exit status".to_owned(),
            ExecutionError::OutOfTurn => "unexpected event".to_owned(),
        }
    }
}

/// The error that a failure of the channel stands for, by the phase it came in.
pub open spec fn channel_error(phase: Phase, cause: Seq<char>) -> ExecutionErrorView {
    match phase {
        Phase::Opening => ExecutionErrorView::Open(cause),
        Phase::Starting => ExecutionErrorView::Request(cause),
        _ => ExecutionErrorView::Channel(cause),
    }
}

/// The text of the error that ends a call told something it did not wait for.
pub open spec fn out_of_turn_text() -> Seq<char> {
    execution_error_text(ExecutionErrorView::OutOfTurn)
}

/// The text of the error that ends a call whose channel closed without an
/// exit status.
pub open spec fn no_status_text() -> Seq<char> {
    execution_error_text(ExecutionErrorView::NoExitStatus)
}

/// The text of the error that ends a call whose channel failed.
pub open spec fn channel_error_text(phase: Phase, cause: Seq<char>) -> Seq<char> {
    execution_error_text(channel_error(phase, cause))
}

/// A connection attempt begins: any handle is given up and the negotiator
/// starts.
pub open spec fn connecting(session: SessionView, call: Call) -> (SessionView, Call, ReactionView) {
    (
        SessionView { handle: None, ..session },
        Call {
            phase: Phase::Negotiating(
                negotiate(session.params.credentials(), AuthState::Start, AuthEventView::Begin).0,
            ),
            ..call
        },
        just(DirectiveView::Connect),
    )
}

/// What a call does once the lock is its own: it asks about the handle if
/// the session holds one, and starts to connect if not.
pub open spec fn entered(session: SessionView, call: Call) -> (SessionView, Call, ReactionView) {
    if session.handle is Some {
        (session, Call { phase: Phase::Probing, ..call }, just(DirectiveView::Probe))
    } else {
        connecting(session, call)
    }
}

/// What follows from a step of the negotiator.
pub open spec fn negotiated(
    session: SessionView,
    call: Call,
    state: AuthState,
    action: AuthActionView,
) -> (SessionView, Call, ReactionView) {
    let going = Call { phase: Phase::Negotiating(state), ..call };
    match action {
        AuthActionView::Connect => (session, going, just(DirectiveView::Connect)),
        AuthActionView::LoadKey(path) => (session, going, just(DirectiveView::LoadKey(path))),
        AuthActionView::OfferKey(username) => (
            session,
            going,
            just(DirectiveView::OfferKey(username)),
        ),
        AuthActionView::StartInteractive { username, submethods } => (
            session,
            going,
            just(DirectiveView::StartInteractive { username, submethods }),
        ),
        AuthActionView::Challenge(challenge) => (
            session,
            going,
            send(StreamEventView::Mfa(challenge), DirectiveView::AwaitAnswer),
        ),
        AuthActionView::Respond(responses) => (
            session,
            going,
            just(DirectiveView::Respond(responses)),
        ),
        AuthActionView::Succeed => (
            session.connected(),
            Call { phase: Phase::Opening, ..call },
            ReactionView {
                emit: None,
                next: DirectiveView::OpenChannel,
                keepalive: Some(session.plan()),
                wake: None,
            },
        ),
        AuthActionView::Fail(error) => failed(session, call, auth_error_text(error)),
        AuthActionView::Halt => failed(session, call, out_of_turn_text()),
    }
}

/// What a call makes of a message from its channel.
pub open spec fn relayed(session: SessionView, call: Call, message: ChannelMessageView) -> (
    SessionView,
    Call,
    ReactionView,
) {
    match message {
        ChannelMessageView::Data(data) => (
            session,
            call,
            send(StreamEventView::Stdout(data), DirectiveView::Receive),
        ),
        ChannelMessageView::ExtendedData { data, ext } => if ext == 1 {
            (session, call, send(StreamEventView::Stderr(data), DirectiveView::Receive))
        } else {
            (session, call, just(DirectiveView::Receive))
        },
        ChannelMessageView::ExitStatus(status) => closing(
            session,
            call,
            Some(StreamEventView::ExitCode(exit_code(status))),
        ),
        ChannelMessageView::Eof => (session, call, just(DirectiveView::Receive)),
        ChannelMessageView::Other => (session, call, just(DirectiveView::Receive)),
        ChannelMessageView::Close => failed(session, call, no_status_text()),
    }
}

/// What a call that agrees with its session makes of an event.
pub open spec fn stepped(session: SessionView, call: Call, event: CallEventView) -> (
    SessionView,
    Call,
    ReactionView,
) {
    match (call.phase, event) {
        (Phase::Done, _) => (session, call, just(DirectiveView::Ignore)),
        (Phase::Closing, CallEventView::Closed) => ended(session, call, None),
        (Phase::Closing, _) => (session, call, just(DirectiveView::Close)),
        (_, CallEventView::Abandoned) => finished(session, call, None),
        (Phase::Queued, CallEventView::Granted) => if session.lock.holder == Some(call.id) {
            entered(session, call)
        } else {
            (session, call, just(DirectiveView::Wait))
        },
        (Phase::Probing, CallEventView::Probed { closed }) => if session.must_connect(closed) {
            connecting(session, call)
        } else {
            (session, Call { phase: Phase::Opening, ..call }, just(DirectiveView::OpenChannel))
        },
        (Phase::Negotiating(state), CallEventView::Auth(auth)) => negotiated(
            session,
            call,
            negotiate(session.params.credentials(), state, auth).0,
            negotiate(session.params.credentials(), state, auth).1,
        ),
        (Phase::Opening, CallEventView::ChannelOpened) => (
            session,
            Call { phase: Phase::Starting, ..call },
            just(DirectiveView::Exec(call.operation.command_text())),
        ),
        (Phase::Opening, CallEventView::ChannelFailed(cause)) => failed(
            session,
            call,
            channel_error_text(call.phase, cause),
        ),
        (Phase::Starting, CallEventView::Started) => (
            session,
            Call { phase: Phase::Streaming, ..call },
            just(DirectiveView::Receive),
        ),
        (Phase::Starting, CallEventView::ChannelFailed(cause)) => failed(
            session,
            call,
            channel_error_text(call.phase, cause),
        ),
        (Phase::Streaming, CallEventView::Message(message)) => relayed(session, call, message),
        (Phase::Streaming, CallEventView::ChannelEnded) => failed(session, call, no_status_text()),
        (Phase::Streaming, CallEventView::ChannelFailed(cause)) => failed(
            session,
            call,
            channel_error_text(call.phase, cause),
        ),
        _ => failed(session, call, out_of_turn_text()),
    }
}

/// One step of a call: the session and the call after `event`, and the
/// call's reaction. A call that does not agree with the session, one that
/// claims a window without holding the lock or a place in a queue it is
/// not in, is not listened to.
pub open spec fn react(session: SessionView, call: Call, event: CallEventView) -> (
    SessionView,
    Call,
    ReactionView,
) {
    if in_step(session, call) {
        stepped(session, call, event)
    } else {
        (session, call, just(DirectiveView::Ignore))
    }
}

/// Why a call could not be opened.
#[derive(Clone, Debug, PartialEq, Eq)]
pub enum ExecuteError {
    /// The label names no whitelisted command.
    Command(CommandError),
    /// A call of this number is under way on the session already.
    CallInProgress(u64),
}

/// The text the refusal of a call is reported with.
pub open spec fn execute_error_text(e: ExecuteError) -> Seq<char> {
    match e {
        ExecuteError::Command(error) => command_error_text(error@),
        ExecuteError::CallInProgress(_) => "call is under way already"@,
    }
}

impl ExecuteError {
    /// The text this error is reported with.
    pub fn describe(&self) -> (text: String)
        ensures
            text@ == execute_error_text(*self),
    {
        match self {
            ExecuteError::Command(error) => error.describe(),
            ExecuteError::CallInProgress(_) => "call is under way already".to_owned(),
        }
    }

    /// The one event that a call ends with when it was refused.
    pub fn event(&self) -> (event: StreamEvent)
        ensures
            event@ == StreamEventView::Error(execute_error_text(*self)),
            event@.is_terminal(),
    {
        StreamEvent::Error(self.describe())
    }
}

/// The opening of a call for `operation` on a session that does not know
/// the call yet.
pub open spec fn opened(session: SessionView, operation: Operation, id: u64) -> (
    SessionView,
    Call,
    ReactionView,
) {
    let call = Call { id, operation, phase: Phase::Queued };
    let admitted = SessionView { lock: session.lock.acquire(id).0, ..session };
    if session.lock.acquire(id).1 == Admission::Granted {
        entered(admitted, call)
    } else {
        (admitted, call, just(DirectiveView::Wait))
    }
}

impl SessionManager {
    /// The session of a host that was never connected to.
    pub fn new(params: SshParams) -> (r: SessionManager)
        ensures
            r@ == SessionView::fresh(params@),
            r@.wf(),
    {
        let settings = TransportSettings {
            inactivity_timeout_secs: 30,
            keepalive_interval_secs: params.keepalive_secs,
            channel_buffer_size: 64,
            window_size: 1024 * 1024,
        };
        SessionManager {
            params,
            settings,
            handle: None,
            generation: 0,
            keepalive: None,
            lock: CallLock::new(),
        }
    }

    /// Whether the session is well formed. Every session made and changed
    /// by the functions of this module is.
    pub fn check(&self) -> (r: bool)
        ensures
            r == self@.wf(),
    {
        let held: bool = match self.handle {
            Some(g) => g == self.generation,
            None => true,
        };
        let watched: bool = match self.keepalive {
            Some(g) => g == self.generation,
            None => true,
        };
        self.lock.check() && held && watched
    }

    /// Decides whether a connection must be made: not if a handle is held
    /// that the transport calls open. A closed handle is dropped.
    pub fn ensure_connected(&mut self, closed: bool) -> (connect: bool)
        requires
            old(self)@.wf(),
        ensures
            connect == old(self)@.must_connect(closed),
            final(self)@ == old(self)@.checked(closed),
            final(self)@.wf(),
    {
        if self.handle.is_none() || closed {
            self.handle = None;
            true
        } else {
            false
        }
    }

    /// Records that a connection was made and authenticated: the session
    /// holds it under a new generation, and the supervisor of the old one,
    /// if it runs, is to be replaced.
    pub fn connected(&mut self) -> (plan: KeepalivePlan)
        requires
            old(self)@.wf(),
        ensures
            plan == old(self)@.plan(),
            final(self)@ == old(self)@.connected(),
            final(self)@.wf(),
            final(self).generation != old(self).generation,
            final(self).handle == Some(final(self).generation),
    {
        let next: u64 = if self.generation == u64::MAX {
            0
        } else {
            self.generation + 1
        };
        let start: Option<u64> = if self.settings.keepalive_interval_secs > 0 {
            Some(next)
        } else {
            None
        };
        let plan = KeepalivePlan {
            stop: self.keepalive,
            start,
            interval_secs: self.settings.keepalive_interval_secs,
        };
        self.handle = Some(next);
        self.generation = next;
        self.keepalive = start;
        plan
    }

    /// A tick of the keep-alive supervisor of `generation`. The supervisor
    /// probes only while its generation's handle is held and open; in every
    /// other case it ends, and the session forgets it.
    pub fn keepalive_tick(&mut self, generation: u64, closed: bool) -> (step: KeepaliveStep)
        requires
            old(self)@.wf(),
        ensures
            step == old(self)@.tick(generation, closed),
            final(self)@ == old(self)@.ticked(generation, closed),
            final(self)@.wf(),
    {
        let held: bool = match self.handle {
            Some(g) => g == generation,
            None => false,
        };
        let watched: bool = match self.keepalive {
            Some(g) => g == generation,
            None => false,
        };
        if held && watched && !closed {
            KeepaliveStep::Probe
        } else {
            if watched {
                self.keepalive = None;
            }
            KeepaliveStep::Stop
        }
    }

    /// Whether a call agrees with the session.
    pub fn agrees(&self, call: &Call) -> (r: bool)
        ensures
            r == in_step(self@, *call),
    {
        match call.phase {
            Phase::Done => true,
            Phase::Queued => self.lock.knows(call.id),
            _ => self.lock.held_by(call.id),
        }
    }

    fn end(&mut self, call: &mut Call, emit: Option<StreamEvent>) -> (r: Reaction)
        requires
            old(self)@.wf(),
        ensures
            final(self)@.wf(),
            (final(self)@, *final(call), r@) == ended(
                old(self)@,
                *old(call),
                match emit {
                    Some(event) => Some(event@),
                    None => None,
                },
            ),
    {
        let wake = self.lock.release(call.id);
        call.phase = Phase::Done;
        Reaction { emit, next: Directive::Leave, keepalive: None, wake }
    }

    fn finish(&mut self, call: &mut Call, emit: Option<StreamEvent>) -> (r: Reaction)
        requires
            old(self)@.wf(),
        ensures
            final(self)@.wf(),
            (final(self)@, *final(call), r@) == finished(
                old(self)@,
                *old(call),
                match emit {
                    Some(event) => Some(event@),
                    None => None,
                },
            ),
    {
        match call.phase {
            Phase::Queued => self.end(call, emit),
            _ => {
                call.phase = Phase::Closing;
                Reaction { emit, next: Directive::Close, keepalive: None, wake: None }
            },
        }
    }

    fn fail(&mut self, call: &mut Call, text: String) -> (r: Reaction)
        requires
            old(self)@.wf(),
        ensures
            final(self)@.wf(),
            (final(self)@, *final(call), r@) == failed(old(self)@, *old(call), text@),
    {
        self.finish(call, Some(StreamEvent::Error(text)))
    }

    fn connect(&mut self, call: &mut Call) -> (r: Reaction)
        requires
            old(self)@.wf(),
        ensures
            final(self)@.wf(),
            (final(self)@, *final(call), r@) == connecting(old(self)@, *old(call)),
    {
        self.handle = None;
        call.phase = Phase::Negotiating(AuthState::TransportConnecting);
        Reaction { emit: None, next: Directive::Connect, keepalive: None, wake: None }
    }

    fn enter(&mut self, call: &mut Call) -> (r: Reaction)
        requires
            old(self)@.wf(),
        ensures
            final(self)@.wf(),
            (final(self)@, *final(call), r@) == entered(old(self)@, *old(call)),
    {
        if self.handle.is_some() {
            call.phase = Phase::Probing;
            Reaction { emit: None, next: Directive::Probe, keepalive: None, wake: None }
        } else {
            self.connect(call)
        }
    }

    fn follow(&mut self, call: &mut Call, state: AuthState, action: AuthAction) -> (r: Reaction)
        requires
            old(self)@.wf(),
        ensures
            final(self)@.wf(),
            (final(self)@, *final(call), r@) == negotiated(
                old(self)@,
                *old(call),
                state,
                action@,
            ),
    {
        match action {
            AuthAction::Connect => {
                call.phase = Phase::Negotiating(state);
                Reaction { emit: None, next: Directive::Connect, keepalive: None, wake: None }
            },
            AuthAction::LoadKey(path) => {
                call.phase = Phase::Negotiating(state);
                Reaction { emit: None, next: Directive::LoadKey(path), keepalive: None, wake: None }
            },
            AuthAction::OfferKey(username) => {
                call.phase = Phase::Negotiating(state);
                Reaction {
                    emit: None,
                    next: Directive::OfferKey(username),
                    keepalive: None,
                    wake: None,
                }
            },
            AuthAction::StartInteractive { username, submethods } => {
                call.phase = Phase::Negotiating(state);
                Reaction {
                    emit: None,
                    next: Directive::StartInteractive { username, submethods },
                    keepalive: None,
                    wake: None,
                }
            },
            AuthAction::Challenge(challenge) => {
                call.phase = Phase::Negotiating(state);
                Reaction {
                    emit: Some(StreamEvent::Mfa(challenge)),
                    next: Directive::AwaitAnswer,
                    keepalive: None,
                    wake: None,
                }
            },
            AuthAction::Respond(responses) => {
                call.phase = Phase::Negotiating(state);
                Reaction {
                    emit: None,
                    next: Directive::Respond(responses),
                    keepalive: None,
                    wake: None,
                }
            },
            AuthAction::Succeed => {
                let plan = self.connected();
                call.phase = Phase::Opening;
                Reaction {
                    emit: None,
                    next: Directive::OpenChannel,
                    keepalive: Some(plan),
                    wake: None,
                }
            },
            AuthAction::Fail(error) => {
                let text = error.describe();
                self.fail(call, text)
            },
            AuthAction::Halt => self.fail(call, ExecutionError::OutOfTurn.describe()),
        }
    }

    fn relay(&mut self, call: &mut Call, message: ChannelMessage) -> (r: Reaction)
        requires
            old(self)@.wf(),
        ensures
            final(self)@.wf(),
            (final(self)@, *final(call), r@) == relayed(old(self)@, *old(call), message@),
    {
        match message {
            ChannelMessage::Data(data) => Reaction {
                emit: Some(StreamEvent::Stdout(data)),
                next: Directive::Receive,
                keepalive: None,
                wake: None,
            },
            ChannelMessage::ExtendedData { data, ext } => {
                if ext == 1 {
                    Reaction {
                        emit: Some(StreamEvent::Stderr(data)),
                        next: Directive::Receive,
                        keepalive: None,
                        wake: None,
                    }
                } else {
                    Reaction { emit: None, next: Directive::Receive, keepalive: None, wake: None }
                }
            },
            ChannelMessage::ExitStatus(status) => {
                let code = exit_code_of(status);
                call.phase = Phase::Closing;
                Reaction {
                    emit: Some(StreamEvent::ExitCode(code)),
                    next: Directive::Close,
                    keepalive: None,
                    wake: None,
                }
            },
            ChannelMessage::Eof => Reaction {
                emit: None,
                next: Directive::Receive,
                keepalive: None,
                wake: None,
            },
            ChannelMessage::Other => Reaction {
                emit: None,
                next: Directive::Receive,
                keepalive: None,
                wake: None,
            },
            ChannelMessage::Close => self.fail(call, ExecutionError::NoExitStatus.describe()),
        }
    }

    /// Takes one event for `call` and says what to do next.
    pub fn react(&mut self, call: &mut Call, event: CallEvent) -> (r: Reaction)
        requires
            old(self)@.wf(),
        ensures
            final(self)@.wf(),
            (final(self)@, *final(call), r@) == react(old(self)@, *old(call), event@),
    {
        if !self.agrees(call) {
            return Reaction { emit: None, next: Directive::Ignore, keepalive: None, wake: None };
        }
        match (call.phase, event) {
            (Phase::Done, _) => Reaction {
                emit: None,
                next: Directive::Ignore,
                keepalive: None,
                wake: None,
            },
            (Phase::Closing, CallEvent::Closed) => self.end(call, None),
            (Phase::Closing, _) => Reaction {
                emit: None,
                next: Directive::Close,
                keepalive: None,
                wake: None,
            },
            (_, CallEvent::Abandoned) => self.finish(call, None),
            (Phase::Queued, CallEvent::Granted) => {
                if self.lock.held_by(call.id) {
                    self.enter(call)
                } else {
                    Reaction { emit: None, next: Directive::Wait, keepalive: None, wake: None }
                }
            },
            (Phase::Probing, CallEvent::Probed { closed }) => {
                if self.ensure_connected(closed) {
                    self.connect(call)
                } else {
                    call.phase = Phase::Opening;
                    Reaction { emit: None, next: Directive::OpenChannel, keepalive: None, wake: None }
                }
            },
            (Phase::Negotiating(state), CallEvent::Auth(auth)) => {
                let creds = self.params.credentials();
                let (after, action) = advance(&creds, state, auth);
                self.follow(call, after, action)
            },
            (Phase::Opening, CallEvent::ChannelOpened) => {
                call.phase = Phase::Starting;
                Reaction {
                    emit: None,
                    next: Directive::Exec(call.operation.command().to_owned()),
                    keepalive: None,
                    wake: None,
                }
            },
            (Phase::Opening, CallEvent::ChannelFailed(cause)) => {
                let text = ExecutionError::Open(cause).describe();
                self.fail(call, text)
            },
            (Phase::Starting, CallEvent::Started) => {
                call.phase = Phase::Streaming;
                Reaction { emit: None, next: Directive::Receive, keepalive: None, wake: None }
            },
            (Phase::Starting, CallEvent::ChannelFailed(cause)) => {
                let text = ExecutionError::Request(cause).describe();
                self.fail(call, text)
            },
            (Phase::Streaming, CallEvent::Message(message)) => self.relay(call, message),
            (Phase::Streaming, CallEvent::ChannelEnded) => self.fail(
                call,
                ExecutionError::NoExitStatus.describe(),
            ),
            (Phase::Streaming, CallEvent::ChannelFailed(cause)) => {
                let text = ExecutionError::Channel(cause).describe();
                self.fail(call, text)
            },
            _ => self.fail(call, ExecutionError::OutOfTurn.describe()),
        }
    }

    /// Opens a call that runs the command `command` names. A label that is
    /// not whitelisted is refused before anything else happens: the session
    /// is left as it was and nothing is asked of the transport. An accepted
    /// call takes the lock or queues for it.
    pub fn exec_whitelisted(&mut self, command: &str, call: u64) -> (r: Result<
        (Call, Reaction),
        ExecuteError,
    >)
        requires
            old(self)@.wf(),
        ensures
            final(self)@.wf(),
            match r {
                Ok((opened_call, reaction)) => {
                    &&& operation_for(command@) == Some(opened_call.operation)
                    &&& !old(self)@.lock.knows(call)
                    &&& (final(self)@, opened_call, reaction@) == opened(
                        old(self)@,
                        opened_call.operation,
                        call,
                    )
                },
                Err(ExecuteError::Command(CommandError::NotAllowed(label))) => {
                    &&& !allowed(command@)
                    &&& label@ == command@
                    &&& *final(self) == *old(self)
                },
                Err(ExecuteError::CallInProgress(id)) => {
                    &&& allowed(command@)
                    &&& old(self)@.lock.knows(call)
                    &&& id == call
                    &&& final(self)@ == old(self)@
                },
            },
    {
        let operation = match lookup(command) {
            Ok(operation) => operation,
            Err(e) => {
                return Err(ExecuteError::Command(e));
            },
        };
        let mut opened_call = Call { id: call, operation, phase: Phase::Queued };
        match self.lock.acquire(call) {
            Admission::Refused => Err(ExecuteError::CallInProgress(call)),
            Admission::Granted => {
                let reaction = self.enter(&mut opened_call);
                Ok((opened_call, reaction))
            },
            Admission::Queued => Ok(
                (
                    opened_call,
                    Reaction { emit: None, next: Directive::Wait, keepalive: None, wake: None },
                ),
            ),
        }
    }
}

/// The session, the call and the events sent to the client after a whole
/// sequence of events for the call.
pub open spec fn call_run(session: SessionView, call: Call, events: Seq<CallEventView>) -> (
    SessionView,
    Call,
    Seq<StreamEventView>,
)
    decreases events.len(),
{
    if events.len() == 0 {
        (session, call, Seq::empty())
    } else {
        let before = call_run(session, call, events.drop_last());
        let step = react(before.0, before.1, events.last());
        (
            step.0,
            step.1,
            match step.2.emit {
                Some(event) => before.2.push(event),
                None => before.2,
            },
        )
    }
}

/// Whether a call has said its last to its client.
pub open spec fn silent(call: Call) -> bool {
    call.phase is Closing || call.phase is Done
}

/// A terminal event is sent exactly when a call falls silent, unless it
/// does so because its client went away; a silent call sends nothing.
pub proof fn lemma_terminal_event_ends_call(session: SessionView, call: Call, event: CallEventView)
    ensures
        call.phase is Done ==> react(session, call, event) == (
            session,
            call,
            just(DirectiveView::Ignore),
        ),
        silent(call) ==> react(session, call, event).2.emit is None && silent(
            react(session, call, event).1,
        ),
        react(session, call, event).2.emit matches Some(sent) && sent.is_terminal() ==> !silent(call)
            && silent(react(session, call, event).1),
        !silent(call) && silent(react(session, call, event).1) && !(event is Abandoned) ==> (react(
            session,
            call,
            event,
        ).2.emit matches Some(sent) && sent.is_terminal()),
{
}

/// Whatever a call is told, the events it sends are in order: nothing
/// follows an exit code or an error. A call that has fallen silent, and
/// not because its client went away, has sent exactly one of the two, as
/// its last event.
pub proof fn lemma_one_terminal_event_per_call(
    session: SessionView,
    call: Call,
    events: Seq<CallEventView>,
)
    requires
        !silent(call),
    ensures
        orderly(call_run(session, call, events).2),
        call_run(session, call, events).2.len() > 0 && call_run(
            session,
            call,
            events,
        ).2.last().is_terminal() ==> silent(call_run(session, call, events).1),
        silent(call_run(session, call, events).1) && (forall|i: int|
            0 <= i < events.len() ==> !(#[trigger] events[i] is Abandoned)) ==> complete(
            call_run(session, call, events).2,
        ),
    decreases events.len(),
{
    if events.len() > 0 {
        let earlier = events.drop_last();
        lemma_one_terminal_event_per_call(session, call, earlier);
        let before = call_run(session, call, earlier);
        lemma_terminal_event_ends_call(before.0, before.1, events.last());
        let step = react(before.0, before.1, events.last());
        let after = call_run(session, call, events).2;
        assert forall|i: int| 0 <= i < earlier.len() implies !(#[trigger] earlier[i] is Abandoned)
            || !(forall|j: int| 0 <= j < events.len() ==> !(#[trigger] events[j] is Abandoned)) by {
            assert(earlier[i] == events[i]);
        }
        match step.2.emit {
            Some(event) => {
                assert(after == before.2.push(event));
                assert forall|i: int| 0 <= i < after.len() && (#[trigger] after[i]).is_terminal()
                    implies i == after.len() - 1 by {
                    if i < before.2.len() {
                        assert(after[i] == before.2[i]);
                    }
                }
            },
            None => {},
        }
    }
}

/// A command's output is relayed only while the command runs: standard
/// output, standard error and the exit code come from a call that is
/// streaming, and a challenge from one that waits for the server's move.
pub proof fn lemma_output_only_while_streaming(
    session: SessionView,
    call: Call,
    event: CallEventView,
)
    ensures
        react(session, call, event).2.emit matches Some(sent) && (sent is Stdout || sent is Stderr
            || sent is ExitCode) ==> call.phase is Streaming,
        react(session, call, event).2.emit matches Some(sent) && sent is Mfa ==> call.phase
            == Phase::Negotiating(AuthState::InteractiveServer) || call.phase
            == Phase::Negotiating(AuthState::InteractiveAnswered),
{
}

/// A call comes to run its command only over a connection that is held:
/// one that the transport has just called open, or one that the server has
/// just accepted the login for.
pub proof fn lemma_channel_needs_connection(session: SessionView, call: Call, event: CallEventView)
    requires
        session.wf(),
        react(session, call, event).2.next is OpenChannel,
    ensures
        react(session, call, event).0.handle == Some(react(session, call, event).0.generation),
        (call.phase is Probing && event == (CallEventView::Probed { closed: false })
            && session.handle is Some) || (call.phase matches Phase::Negotiating(state)
            && event matches CallEventView::Auth(auth) && negotiate(
            session.params.credentials(),
            state,
            auth,
        ).1 is Succeed),
{
}

/// What is run on the remote side is the whitelisted command of the call's
/// operation, letter for letter.
pub proof fn lemma_only_whitelisted_commands_run(
    session: SessionView,
    call: Call,
    event: CallEventView,
)
    ensures
        react(session, call, event).2.next matches DirectiveView::Exec(command) ==> command
            == call.operation.command_text() && allowed(command),
{
    lemma_label_is_the_command(call.operation.command_text(), call.operation);
}

/// Whether a directive asks for anything of the transport or of the client.
pub open spec fn asks(next: DirectiveView) -> bool {
    !(next is Wait) && !(next is Leave) && !(next is Ignore)
}

/// Only the holder of the lock acts: whatever is asked of the transport,
/// from the first connect to the close, is asked by the call that holds
/// the lock when it asks, and that call holds the lock afterwards too.
pub proof fn lemma_only_the_holder_acts(session: SessionView, call: Call, event: CallEventView)
    requires
        session.wf(),
        asks(react(session, call, event).2.next),
    ensures
        session.lock.holder == Some(call.id),
        react(session, call, event).0.lock == session.lock,
        react(session, call, event).2.wake is None,
        active(react(session, call, event).1),
{
}

/// Whatever one call asks of the transport, it asks while every other
/// call on the session is outside its window, before the step and after it.
pub proof fn lemma_actions_exclude_the_other(
    session: SessionView,
    call: Call,
    other: Call,
    event: CallEventView,
)
    requires
        session.wf(),
        in_step(session, other),
        other.id != call.id,
        asks(react(session, call, event).2.next),
    ensures
        !active(other),
        in_step(react(session, call, event).0, other),
{
}

/// A call that is opened asks something of the transport only if the lock
/// was free and is now its own.
pub proof fn lemma_opening_acts_only_when_granted(
    session: SessionView,
    operation: Operation,
    id: u64,
)
    requires
        session.wf(),
        !session.lock.knows(id),
        asks(opened(session, operation, id).2.next),
    ensures
        session.lock.holder is None,
        opened(session, operation, id).0.lock.holder == Some(id),
        active(opened(session, operation, id).1),
{
}

/// The lock is kept through the close: the step that asks for the close
/// leaves the lock where it is and wakes nobody. The lock passes on only
/// when the close is reported, or when a call ends that had nothing open
/// because it never left the queue.
pub proof fn lemma_lock_kept_through_close(session: SessionView, call: Call, event: CallEventView)
    requires
        session.wf(),
    ensures
        react(session, call, event).2.next is Close ==> react(session, call, event).0.lock
            == session.lock && react(session, call, event).2.wake is None && react(
            session,
            call,
            event,
        ).1.phase is Closing,
        react(session, call, event).0.lock != session.lock ==> (call.phase is Closing && event
            is Closed) || call.phase is Queued,
        react(session, call, event).2.wake is Some ==> react(session, call, event).0.lock.holder
            == react(session, call, event).2.wake && ((call.phase is Closing && event is Closed)
            || call.phase is Queued),
        call.phase is Closing && in_step(session, call) && event is Closed ==> react(
            session,
            call,
            event,
        ) == ended(session, call, None),
{
}

/// A newly opened call agrees with its session.
pub proof fn lemma_opening_is_in_step(session: SessionView, operation: Operation, id: u64)
    requires
        session.wf(),
        !session.lock.knows(id),
    ensures
        in_step(opened(session, operation, id).0, opened(session, operation, id).1),
{
    let lock = session.lock.acquire(id).0;
    if session.lock.acquire(id).1 != Admission::Granted {
        assert(lock.waiting == session.lock.waiting.push(id));
        assert(lock.waiting[session.lock.waiting.len() as int] == id);
    }
}

/// A call that agrees with its session still does after its own step.
pub proof fn lemma_own_step_stays_in_step(session: SessionView, call: Call, event: CallEventView)
    requires
        session.wf(),
        in_step(session, call),
    ensures
        in_step(react(session, call, event).0, react(session, call, event).1),
{
}

/// A call that agrees with its session still does after another call's
/// step, and after another call was opened.
pub proof fn lemma_other_step_stays_in_step(
    session: SessionView,
    call: Call,
    other: Call,
    event: CallEventView,
)
    requires
        session.wf(),
        in_step(session, call),
        other.id != call.id,
    ensures
        in_step(react(session, other, event).0, call),
        !session.lock.knows(other.id) ==> in_step(
            opened(session, other.operation, other.id).0,
            call,
        ),
{
    if !(call.phase is Done) {
        assert(session.lock.knows(call.id));
        lemma_others_keep_their_place(session.lock, call.id, LockOp::Release(other.id));
        lemma_others_keep_their_place(session.lock, call.id, LockOp::Acquire(other.id));
    }
}

/// The windows of two calls on one session never overlap: of two calls
/// that agree with the session, at most one is inside its window.
pub proof fn lemma_one_call_at_a_time(session: SessionView, a: Call, b: Call)
    requires
        in_step(session, a),
        in_step(session, b),
        a.id != b.id,
    ensures
        !(active(a) && active(b)),
{
}

/// The lock is given up on every way out: whenever a call is over,
/// whatever ended it, the lock no longer knows the call, and if the call
/// held the lock it has passed to the call that waited longest.
pub proof fn lemma_lock_released_on_every_exit(
    session: SessionView,
    call: Call,
    event: CallEventView,
)
    requires
        session.wf(),
        !(call.phase is Done),
        react(session, call, event).1.phase is Done,
    ensures
        !react(session, call, event).0.lock.knows(call.id),
        react(session, call, event).2.next is Leave,
        session.lock.holder == Some(call.id) && session.lock.waiting.len() > 0 ==> react(
            session,
            call,
            event,
        ).2.wake == Some(session.lock.waiting[0]) && react(
            session,
            call,
            event,
        ).0.lock.holder == Some(session.lock.waiting[0]),
{
    lemma_release_forgets(session.lock, call.id);
}

/// Every way out leads to the end: a call that agrees with its session
/// and is told that the client went away, and then that all is closed, is
/// over, whatever it was doing.
pub proof fn lemma_every_call_can_end(session: SessionView, call: Call)
    requires
        session.wf(),
        in_step(session, call),
    ensures
        ({
            let left = react(session, call, CallEventView::Abandoned);
            react(left.0, left.1, CallEventView::Closed).1.phase is Done
        }),
{
    let left = react(session, call, CallEventView::Abandoned);
    lemma_own_step_stays_in_step(session, call, CallEventView::Abandoned);
}

/// A new connection never keeps the generation of the one before it, and
/// no two supervisors run side by side: when a connection is made, the
/// plan stops the supervisor that ran and the session knows the new one
/// only; the old one, should it tick again, is told to stop.
pub proof fn lemma_one_supervisor_per_session(session: SessionView, closed: bool)
    requires
        session.wf(),
    ensures
        session.connected().generation != session.generation,
        session.connected().handle == Some(session.connected().generation),
        session.plan().stop == session.keepalive,
        session.connected().keepalive == session.plan().start,
        session.connected().tick(session.generation, closed) == KeepaliveStep::Stop,
        session.connected().wf(),
{
}

/// A supervisor probes only for the connection that the session holds now.
pub proof fn lemma_probe_needs_current_generation(
    session: SessionView,
    generation: u64,
    closed: bool,
)
    requires
        session.wf(),
        session.tick(generation, closed) == KeepaliveStep::Probe,
    ensures
        generation == session.generation,
        session.handle == Some(generation),
        !closed,
        session.ticked(generation, closed) == session,
{
}

/// Every step of a call, and every opening of one, keeps the session well formed.
pub proof fn lemma_steps_keep_session_well_formed(
    session: SessionView,
    call: Call,
    event: CallEventView,
)
    requires
        session.wf(),
    ensures
        react(session, call, event).0.wf(),
        opened(session, call.operation, call.id).0.wf(),
{
    lemma_apply_keeps_wf(session.lock, LockOp::Release(call.id));
    lemma_apply_keeps_wf(session.lock, LockOp::Acquire(call.id));
}

/// An event for one of two calls on the same session.
pub enum Turn {
    First(CallEventView),
    Second(CallEventView),
}

/// The session and two calls on it after a sequence of events, each for
/// one of the two calls, in whatever order they come.
pub open spec fn pair_run(session: SessionView, a: Call, b: Call, turns: Seq<Turn>) -> (
    SessionView,
    Call,
    Call,
)
    decreases turns.len(),
{
    if turns.len() == 0 {
        (session, a, b)
    } else {
        let before = pair_run(session, a, b, turns.drop_last());
        match turns.last() {
            Turn::First(event) => {
                let step = react(before.0, before.1, event);
                (step.0, step.1, before.2)
            },
            Turn::Second(event) => {
                let step = react(before.0, before.2, event);
                (step.0, before.1, step.1)
            },
        }
    }
}

/// However the events of two calls on one session interleave, the two are
/// never inside their windows at once, where a window reaches from the
/// grant of the lock to the report that all the call had open is closed.
pub proof fn lemma_windows_never_overlap(
    session: SessionView,
    a: Call,
    b: Call,
    turns: Seq<Turn>,
)
    requires
        session.wf(),
        in_step(session, a),
        in_step(session, b),
        a.id != b.id,
    ensures
        pair_run(session, a, b, turns).0.wf(),
        in_step(pair_run(session, a, b, turns).0, pair_run(session, a, b, turns).1),
        in_step(pair_run(session, a, b, turns).0, pair_run(session, a, b, turns).2),
        pair_run(session, a, b, turns).1.id == a.id,
        pair_run(session, a, b, turns).2.id == b.id,
        !(active(pair_run(session, a, b, turns).1) && active(pair_run(session, a, b, turns).2)),
    decreases turns.len(),
{
    if turns.len() > 0 {
        lemma_windows_never_overlap(session, a, b, turns.drop_last());
        let before = pair_run(session, a, b, turns.drop_last());
        match turns.last() {
            Turn::First(event) => {
                lemma_steps_keep_session_well_formed(before.0, before.1, event);
                lemma_own_step_stays_in_step(before.0, before.1, event);
                lemma_other_step_stays_in_step(before.0, before.2, before.1, event);
            },
            Turn::Second(event) => {
                lemma_steps_keep_session_well_formed(before.0, before.2, event);
                lemma_own_step_stays_in_step(before.0, before.2, event);
                lemma_other_step_stays_in_step(before.0, before.1, before.2, event);
            },
        }
    }
}

} // verus!
