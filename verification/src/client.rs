//! The client's side of a streaming call: what to do with each item the
//! daemon sends, how to answer a challenge, and how the call ends.

use vstd::prelude::*;
use vstd::string::*;
use crate::text::{same_text, text_of};
use crate::paths::{full, tilde_outcome, names_variable, ExpandError};
use crate::protocol::{
    fits, AddClusterInit, AddClusterInitView, AddClusterRequest, AddClusterRequestView,
    Host, HostView, MfaAnswer, MfaChallenge, MfaChallengeView, StreamEvent,
    StreamEventView, SubmitInit, SubmitInitView, SubmitRequest, SubmitRequestView,
};

verus! {

/// One item read from the daemon's reply stream.
#[derive(Clone, Debug, PartialEq, Eq)]
pub enum Inbound {
    Event(StreamEvent),
    /// A frame that carries no event.
    Empty,
    /// The stream itself failed; the text is the transport's status.
    Broken(String),
}

pub enum InboundView {
    Event(StreamEventView),
    Empty,
    Broken(Seq<char>),
}

impl View for Inbound {
    type V = InboundView;

    open spec fn view(&self) -> InboundView {
        match self {
            Inbound::Event(event) => InboundView::Event(event@),
            Inbound::Empty => InboundView::Empty,
            Inbound::Broken(status) => InboundView::Broken(status@),
        }
    }
}

/// What the client does with one item.
#[derive(Clone, Debug, PartialEq, Eq)]
pub enum ClientAction {
    /// Copy the bytes to standard output; a failed write is ignored.
    WriteStdout(Vec<u8>),
    /// Copy the bytes to standard error; a failed write ends the call.
    WriteStderr(Vec<u8>),
    /// Put the challenge to the user and send the answers back.
    Ask(MfaChallenge),
    /// Note that an empty frame arrived and go on reading.
    NoteEmpty,
    /// Print the line to standard error and stop reading.
    Complain(String),
    /// Stop reading.
    Stop,
}

pub enum ClientActionView {
    WriteStdout(Seq<u8>),
    WriteStderr(Seq<u8>),
    Ask(MfaChallengeView),
    NoteEmpty,
    Complain(Seq<char>),
    Stop,
}

impl View for ClientAction {
    type V = ClientActionView;

    open spec fn view(&self) -> ClientActionView {
        match self {
            ClientAction::WriteStdout(bytes) => ClientActionView::WriteStdout(bytes@),
            ClientAction::WriteStderr(bytes) => ClientActionView::WriteStderr(bytes@),
            ClientAction::Ask(challenge) => ClientActionView::Ask(challenge@),
            ClientAction::NoteEmpty => ClientActionView::NoteEmpty,
            ClientAction::Complain(line) => ClientActionView::Complain(line@),
            ClientAction::Stop => ClientActionView::Stop,
        }
    }
}

/// Progress of one streaming call, as the client sees it.
#[derive(Clone, Copy, Debug, PartialEq, Eq, Structural)]
pub struct ClientLoop {
    /// The code the process will exit with, once one is known.
    pub exit_code: Option<i32>,
    /// Whether the client still reads from the stream.
    pub reading: bool,
}

/// The line printed for an error the daemon reported.
pub open spec fn server_error_line(text: Seq<char>) -> Seq<char> {
    "server error: "@ + text
}

/// The line printed when the stream itself failed.
pub open spec fn stream_error_line(status: Seq<char>) -> Seq<char> {
    "stream error: "@ + status
}

/// The state after an item, and what to do with the item.
pub open spec fn client_step(state: ClientLoop, item: InboundView) -> (ClientLoop, ClientActionView) {
    if !state.reading {
        (state, ClientActionView::Stop)
    } else {
        match item {
            InboundView::Event(StreamEventView::Stdout(bytes)) => (
                state,
                ClientActionView::WriteStdout(bytes),
            ),
            InboundView::Event(StreamEventView::Stderr(bytes)) => (
                state,
                ClientActionView::WriteStderr(bytes),
            ),
            InboundView::Event(StreamEventView::ExitCode(code)) => (
                ClientLoop { exit_code: Some(code), reading: false },
                ClientActionView::Stop,
            ),
            InboundView::Event(StreamEventView::Mfa(challenge)) => (
                state,
                ClientActionView::Ask(challenge),
            ),
            InboundView::Event(StreamEventView::Error(text)) => (
                ClientLoop { exit_code: Some(1), reading: false },
                ClientActionView::Complain(server_error_line(text)),
            ),
            InboundView::Empty => (state, ClientActionView::NoteEmpty),
            InboundView::Broken(status) => (
                ClientLoop { exit_code: Some(1), reading: false },
                ClientActionView::Complain(stream_error_line(status)),
            ),
        }
    }
}

/// The state after a whole sequence of items.
pub open spec fn client_run(state: ClientLoop, items: Seq<InboundView>) -> ClientLoop
    decreases items.len(),
{
    if items.len() == 0 {
        state
    } else {
        client_run(client_step(state, items[0]).0, items.drop_first())
    }
}

/// Why a call did not end well.
#[derive(Clone, Copy, Debug, PartialEq, Eq, Structural)]
pub enum CallFailure {
    /// The call ended with this nonzero exit code.
    ExitCode(i32),
}

impl ClientLoop {
    /// A call that has just been opened.
    pub fn new() -> (r: ClientLoop)
        ensures
            r == (ClientLoop { exit_code: None, reading: true }),
    {
        ClientLoop { exit_code: None, reading: true }
    }

    /// Takes one item from the stream.
    pub fn on_item(&mut self, item: Inbound) -> (action: ClientAction)
        ensures
            *final(self) == client_step(*old(self), item@).0,
            action@ == client_step(*old(self), item@).1,
    {
        if !self.reading {
            return ClientAction::Stop;
        }
        match item {
            Inbound::Event(StreamEvent::Stdout(bytes)) => ClientAction::WriteStdout(bytes),
            Inbound::Event(StreamEvent::Stderr(bytes)) => ClientAction::WriteStderr(bytes),
            Inbound::Event(StreamEvent::ExitCode(code)) => {
                self.exit_code = Some(code);
                self.reading = false;
                ClientAction::Stop
            },
            Inbound::Event(StreamEvent::Mfa(challenge)) => ClientAction::Ask(challenge),
            Inbound::Event(StreamEvent::Error(text)) => {
                self.exit_code = Some(1);
                self.reading = false;
                ClientAction::Complain("server error: ".to_owned().concat(text.as_str()))
            },
            Inbound::Empty => ClientAction::NoteEmpty,
            Inbound::Broken(status) => {
                self.exit_code = Some(1);
                self.reading = false;
                ClientAction::Complain("stream error: ".to_owned().concat(status.as_str()))
            },
        }
    }

    /// Records whether the answers to a challenge reached the daemon.
    /// If they did not, the daemon is gone and the client stops reading.
    pub fn on_answers_sent(&mut self, delivered: bool)
        ensures
            final(self).exit_code == old(self).exit_code,
            final(self).reading == (old(self).reading && delivered),
    {
        if !delivered {
            self.reading = false;
        }
    }

    /// Records that the stream has ended.
    pub fn on_stream_end(&mut self)
        ensures
            final(self).exit_code == old(self).exit_code,
            !final(self).reading,
    {
        self.reading = false;
    }

    /// The code the client process exits with: the remote exit code, 1 after
    /// an error, 0 when the stream ended without either.
    pub open spec fn spec_exit_status(&self) -> i32 {
        match self.exit_code {
            Some(code) => code,
            None => 0,
        }
    }

    #[verifier::when_used_as_spec(spec_exit_status)]
    pub fn exit_status(&self) -> (r: i32)
        ensures
            r == self.spec_exit_status(),
    {
        match self.exit_code {
            Some(code) => code,
            None => 0,
        }
    }

    /// How the call ended: well, unless a nonzero exit code was recorded.
    pub fn outcome(&self) -> (r: Result<(), CallFailure>)
        ensures
            r is Ok <==> self.exit_status() == 0,
            r is Err ==> r == Err::<(), CallFailure>(CallFailure::ExitCode(self.exit_status())),
    {
        match self.exit_code {
            Some(code) => {
                if code != 0 {
                    Err(CallFailure::ExitCode(code))
                } else {
                    Ok(())
                }
            },
            None => Ok(()),
        }
    }
}

/// Once the client has stopped reading, no item changes anything.
pub proof fn lemma_stopped_client_stays_stopped(state: ClientLoop, items: Seq<InboundView>)
    requires
        !state.reading,
    ensures
        client_run(state, items) == state,
    decreases items.len(),
{
    if items.len() > 0 {
        lemma_stopped_client_stays_stopped(state, items.drop_first());
    }
}

/// A terminal event stops the client and fixes the exit status: the remote
/// code for an exit code, 1 for an error. Whatever follows is not acted on.
pub proof fn lemma_terminal_event_decides(
    state: ClientLoop,
    event: StreamEventView,
    later: Seq<InboundView>,
)
    requires
        state.reading,
        event.is_terminal(),
    ensures
        !client_step(state, InboundView::Event(event)).0.reading,
        client_run(client_step(state, InboundView::Event(event)).0, later) == client_step(
            state,
            InboundView::Event(event),
        ).0,
        event matches StreamEventView::ExitCode(code) ==> client_step(
            state,
            InboundView::Event(event),
        ).0.spec_exit_status() == code,
        event is Error ==> client_step(state, InboundView::Event(event)).0.spec_exit_status() == 1,
{
    lemma_stopped_client_stays_stopped(client_step(state, InboundView::Event(event)).0, later);
}

/// Whether a character ends a line.
pub open spec fn is_line_end(c: char) -> bool {
    c == '\n' || c == '\r'
}

/// A line without the line ends that trail it.
pub open spec fn trimmed(line: Seq<char>) -> Seq<char>
    decreases line.len(),
{
    if line.len() > 0 && is_line_end(line.last()) {
        trimmed(line.drop_last())
    } else {
        line
    }
}

/// Removes the line ends that trail a line read from the terminal.
pub fn trim_line_ending(line: &str) -> (r: String)
    ensures
        r@ == trimmed(line@),
{
    let mut n: usize = line.unicode_len();
    assert(line@.subrange(0, n as int) == line@);
    while n > 0 && (line.get_char(n - 1) == '\n' || line.get_char(n - 1) == '\r')
        invariant
            n <= line@.len(),
            trimmed(line@) == trimmed(line@.subrange(0, n as int)),
        decreases n,
    {
        assert(line@.subrange(0, n as int).drop_last() == line@.subrange(0, n - 1));
        n = n - 1;
    }
    line.substring_char(0, n).to_owned()
}

/// The next move in putting a challenge to the user.
#[derive(Clone, Debug, PartialEq, Eq)]
pub enum PromptStep {
    /// Show this text and read one line.
    Ask(String),
    /// The next answer must not be shown while typed, which this client
    /// cannot promise: give the call up.
    Refuse,
    /// Every prompt has its answer.
    Complete,
}

pub enum PromptStepView {
    Ask(Seq<char>),
    Refuse,
    Complete,
}

impl View for PromptStep {
    type V = PromptStepView;

    open spec fn view(&self) -> PromptStepView {
        match self {
            PromptStep::Ask(text) => PromptStepView::Ask(text@),
            PromptStep::Refuse => PromptStepView::Refuse,
            PromptStep::Complete => PromptStepView::Complete,
        }
    }
}

/// The text a call is given up with when a prompt asks for a hidden answer.
pub fn refused_prompt_text() -> (r: &'static str)
    ensures
        r@ == "Method not supported"@,
{
    "Method not supported"
}

/// The next move once `answered` prompts of a challenge have their answer.
pub open spec fn next_step(challenge: MfaChallengeView, answered: int) -> PromptStepView {
    if answered < 0 || answered >= challenge.prompts.len() {
        PromptStepView::Complete
    } else if challenge.prompts[answered].echo {
        PromptStepView::Ask(challenge.prompts[answered].text)
    } else {
        PromptStepView::Refuse
    }
}

/// The lines shown before the prompts of a challenge: an empty line, the
/// name if there is one, the instructions if there are any.
pub open spec fn banner_lines(challenge: MfaChallengeView) -> Seq<Seq<char>> {
    seq![Seq::<char>::empty()] + (if challenge.name.len() > 0 {
        seq!["MFA: "@ + challenge.name]
    } else {
        Seq::<Seq<char>>::empty()
    }) + (if challenge.instructions.len() > 0 {
        seq![challenge.instructions]
    } else {
        Seq::<Seq<char>>::empty()
    })
}

/// The lines to show before the prompts of a challenge.
pub fn banner(challenge: &MfaChallenge) -> (lines: Vec<String>)
    ensures
        lines.deep_view() == banner_lines(challenge@),
{
    let mut lines: Vec<String> = Vec::new();
    lines.push(String::new());
    if !challenge.name.as_str().is_empty() {
        lines.push("MFA: ".to_owned().concat(challenge.name.as_str()));
    }
    if !challenge.instructions.as_str().is_empty() {
        lines.push(challenge.instructions.clone());
    }
    assert(lines.deep_view() =~= banner_lines(challenge@));
    lines
}

/// One challenge on its way to being answered.
#[derive(Clone, Debug, PartialEq, Eq)]
pub struct Round {
    pub challenge: MfaChallenge,
    /// The answers so far; answer `i` belongs to prompt `i`.
    pub responses: Vec<String>,
}

impl Round {
    /// Starts on a challenge with no answer given yet.
    pub fn open(challenge: MfaChallenge) -> (r: Round)
        ensures
            r.challenge == challenge,
            r.responses@.len() == 0,
    {
        Round { challenge, responses: Vec::new() }
    }

    /// The next move.
    pub fn next(&self) -> (step: PromptStep)
        ensures
            step@ == next_step(self.challenge@, self.responses@.len() as int),
    {
        let answered: usize = self.responses.len();
        if answered >= self.challenge.prompts.len() {
            PromptStep::Complete
        } else if self.challenge.prompts[answered].echo {
            PromptStep::Ask(self.challenge.prompts[answered].text.clone())
        } else {
            PromptStep::Refuse
        }
    }

    /// Records the line typed for the prompt that `next` asked for. The line
    /// is taken only where `next` says to ask; its line ends are dropped.
    pub fn supply(&mut self, line: &str) -> (taken: bool)
        ensures
            final(self).challenge == old(self).challenge,
            taken == (next_step(old(self).challenge@, old(self).responses@.len() as int) is Ask),
            taken ==> final(self).responses.deep_view() == old(self).responses.deep_view().push(
                trimmed(line@),
            ),
            !taken ==> final(self).responses == old(self).responses,
    {
        let answered: usize = self.responses.len();
        if answered < self.challenge.prompts.len() && self.challenge.prompts[answered].echo {
            let ghost before = self.responses.deep_view();
            let text = trim_line_ending(line);
            self.responses.push(text);
            assert(self.responses.deep_view() =~= before.push(trimmed(line@)));
            true
        } else {
            false
        }
    }

    /// The answer to send, once every prompt has its answer.
    pub fn close(self) -> (r: Option<MfaAnswer>)
        ensures
            r is Some <==> self.responses@.len() == self.challenge@.prompts.len(),
            r matches Some(answer) ==> answer@.responses == self.responses.deep_view() && fits(
                answer@,
                self.challenge@,
            ),
    {
        if self.responses.len() == self.challenge.prompts.len() {
            Some(MfaAnswer { responses: self.responses })
        } else {
            None
        }
    }
}

/// The message a client sends to ask whether the daemon is alive.
pub fn ping_message() -> (r: &'static str)
    ensures
        r@ == "ping"@,
{
    "ping"
}

/// The reply a liveness check is owed: `pong` for `ping`, and none for
/// any other message.
pub open spec fn reply_to(message: Seq<char>) -> Option<Seq<char>> {
    if message == "ping"@ {
        Some("pong"@)
    } else {
        None
    }
}

/// The daemon's reply to a liveness check, if the check was put as it must be.
pub fn ping_reply(message: &str) -> (r: Option<String>)
    ensures
        text_of(r) == reply_to(message@),
{
    if same_text(message, "ping") {
        Some("pong".to_owned())
    } else {
        None
    }
}

/// The status codes a client tells apart when a liveness check is refused.
#[derive(Clone, Copy, Debug, PartialEq, Eq, Structural)]
pub enum StatusCode {
    InvalidArgument,
    Cancelled,
    Other,
}

/// How a liveness check came back.
#[derive(Clone, Debug, PartialEq, Eq)]
pub enum PingResult {
    /// The daemon replied with this message.
    Reply(String),
    /// The daemon refused the call.
    Refused { code: StatusCode, message: String, status: String },
    /// No reply came in time; the text says how long the client waited.
    TimedOut(String),
}

pub enum PingResultView {
    Reply(Seq<char>),
    Refused { code: StatusCode, message: Seq<char>, status: Seq<char> },
    TimedOut(Seq<char>),
}

impl View for PingResult {
    type V = PingResultView;

    open spec fn view(&self) -> PingResultView {
        match self {
            PingResult::Reply(message) => PingResultView::Reply(message@),
            PingResult::Refused { code, message, status } => PingResultView::Refused {
                code: *code,
                message: message@,
                status: status@,
            },
            PingResult::TimedOut(waited) => PingResultView::TimedOut(waited@),
        }
    }
}

/// Why a liveness check failed.
#[derive(Clone, Debug, PartialEq, Eq)]
pub enum PingError {
    InvalidArgument(String),
    Cancelled(String),
    Failed(String),
    TimedOut(String),
    /// The daemon replied, but not with the one accepted message.
    UnexpectedReply(String),
}

pub enum PingErrorView {
    InvalidArgument(Seq<char>),
    Cancelled(Seq<char>),
    Failed(Seq<char>),
    TimedOut(Seq<char>),
    UnexpectedReply(Seq<char>),
}

impl View for PingError {
    type V = PingErrorView;

    open spec fn view(&self) -> PingErrorView {
        match self {
            PingError::InvalidArgument(message) => PingErrorView::InvalidArgument(message@),
            PingError::Cancelled(message) => PingErrorView::Cancelled(message@),
            PingError::Failed(status) => PingErrorView::Failed(status@),
            PingError::TimedOut(waited) => PingErrorView::TimedOut(waited@),
            PingError::UnexpectedReply(message) => PingErrorView::UnexpectedReply(message@),
        }
    }
}

/// The verdict on a liveness check: it passes on the reply `pong`, spelled
/// exactly so, and on nothing else.
pub open spec fn ping_verdict(result: PingResultView) -> Result<(), PingErrorView> {
    match result {
        PingResultView::Reply(message) => if message == "pong"@ {
            Ok(())
        } else {
            Err(PingErrorView::UnexpectedReply(message))
        },
        PingResultView::Refused { code: StatusCode::InvalidArgument, message, status } => Err(
            PingErrorView::InvalidArgument(message),
        ),
        PingResultView::Refused { code: StatusCode::Cancelled, message, status } => Err(
            PingErrorView::Cancelled(message),
        ),
        PingResultView::Refused { code: StatusCode::Other, message, status } => Err(
            PingErrorView::Failed(status),
        ),
        PingResultView::TimedOut(waited) => Err(PingErrorView::TimedOut(waited)),
    }
}

/// The view of a verdict.
pub open spec fn verdict_view(r: Result<(), PingError>) -> Result<(), PingErrorView> {
    match r {
        Ok(()) => Ok(()),
        Err(e) => Err(e@),
    }
}

/// Judges how a liveness check came back.
pub fn check_ping(result: PingResult) -> (r: Result<(), PingError>)
    ensures
        verdict_view(r) == ping_verdict(result@),
{
    match result {
        PingResult::Reply(message) => {
            if same_text(message.as_str(), "pong") {
                Ok(())
            } else {
                Err(PingError::UnexpectedReply(message))
            }
        },
        PingResult::Refused { code, message, status } => match code {
            StatusCode::InvalidArgument => Err(PingError::InvalidArgument(message)),
            StatusCode::Cancelled => Err(PingError::Cancelled(message)),
            StatusCode::Other => Err(PingError::Failed(status)),
        },
        PingResult::TimedOut(waited) => Err(PingError::TimedOut(waited)),
    }
}

/// A liveness check that is put as it must be, and answered as it must
/// be, passes; and it passes on no other reply.
pub proof fn lemma_ping_round_trip(reply: Seq<char>)
    ensures
        reply_to("ping"@) matches Some(pong) && ping_verdict(PingResultView::Reply(pong)) == Ok::<
            (),
            PingErrorView,
        >(()),
        ping_verdict(PingResultView::Reply(reply)) is Ok <==> reply == "pong"@,
{
}

/// What a failed liveness check is reported as.
pub open spec fn ping_error_text(e: PingErrorView) -> Seq<char> {
    match e {
        PingErrorView::InvalidArgument(message) => "invalid argument error - "@ + message,
        PingErrorView::Cancelled(message) => "operation was canceled - "@ + message,
        PingErrorView::Failed(status) => "occured: "@ + status,
        PingErrorView::TimedOut(waited) => "Cancelled request after "@ + waited + " seconds"@,
        PingErrorView::UnexpectedReply(message) => "invalid response from server: expected 'pong', got '"@
            + message + "'"@,
    }
}

impl PingError {
    /// The text this error is reported with.
    pub fn describe(&self) -> (text: String)
        ensures
            text@ == ping_error_text(self@),
    {
        match self {
            PingError::InvalidArgument(message) => "invalid argument error - ".to_owned().concat(
                message.as_str(),
            ),
            PingError::Cancelled(message) => "operation was canceled - ".to_owned().concat(
                message.as_str(),
            ),
            PingError::Failed(status) => "occured: ".to_owned().concat(status.as_str()),
            PingError::TimedOut(waited) => "Cancelled request after ".to_owned().concat(
                waited.as_str(),
            ).concat(" seconds"),
            PingError::UnexpectedReply(message) =>
                "invalid response from server: expected 'pong', got '".to_owned().concat(
                message.as_str(),
            ).concat("'"),
        }
    }
}

/// Why the arguments of a call that registers a host were refused.
#[derive(Clone, Debug, PartialEq, Eq)]
pub enum RequestError {
    /// Neither a host name nor an address was given.
    NoHost,
    /// Both a host name and an address were given.
    TwoHosts,
    /// The identity path names a variable that could not be looked up.
    Expansion(ExpandError),
}

/// The text the refusal of a registration's arguments is reported with.
pub open spec fn request_error_text(e: RequestError) -> Seq<char> {
    match e {
        RequestError::NoHost => "both hostname and ip address can't be none"@,
        RequestError::TwoHosts => "hostname and ip address can't both be given"@,
        RequestError::Expansion(error) => "error looking key '"@ + error.var_name@ + "' up: "@
            + error.cause@,
    }
}

impl RequestError {
    /// The text this error is reported with.
    pub fn describe(&self) -> (text: String)
        ensures
            text@ == request_error_text(*self),
    {
        match self {
            RequestError::NoHost => "both hostname and ip address can't be none".to_owned(),
            RequestError::TwoHosts => "hostname and ip address can't both be given".to_owned(),
            RequestError::Expansion(error) => "error looking key '".to_owned().concat(
                error.var_name.as_str(),
            ).concat("' up: ").concat(error.cause.as_str()),
        }
    }
}

/// The host that a name and an address, each given or not, stand for.
pub open spec fn chosen_host(hostname: Option<Seq<char>>, ip: Option<Seq<char>>) -> Option<
    HostView,
> {
    match (hostname, ip) {
        (Some(name), None) => Some(HostView::Hostname(name)),
        (None, Some(address)) => Some(HostView::IpAddr(address)),
        _ => None,
    }
}

/// Picks the host: exactly one of the two must be given.
pub fn choose_host(hostname: Option<String>, ip: Option<String>) -> (r: Result<
    Host,
    RequestError,
>)
    ensures
        match r {
            Ok(host) => chosen_host(text_of(hostname), text_of(ip)) == Some(host@),
            Err(RequestError::NoHost) => hostname is None && ip is None,
            Err(RequestError::TwoHosts) => hostname is Some && ip is Some,
            Err(RequestError::Expansion(_)) => false,
        },
{
    match (hostname, ip) {
        (Some(name), None) => Ok(Host::Hostname(name)),
        (None, Some(address)) => Ok(Host::IpAddr(address)),
        (None, None) => Err(RequestError::NoHost),
        (Some(_), Some(_)) => Err(RequestError::TwoHosts),
    }
}

/// The opening message of a call that registers a host, from arguments
/// that have been checked and expanded.
pub fn add_cluster_opening(
    hostid: &str,
    username: &str,
    host: Host,
    identity_path: String,
    port: u32,
) -> (r: AddClusterRequest)
    ensures
        r@ == AddClusterRequestView::Init(
            AddClusterInitView {
                hostid: hostid@,
                username: username@,
                host: host@,
                identity_path: Some(identity_path@),
                port: port,
            },
        ),
{
    AddClusterRequest::Init(
        AddClusterInit {
            hostid: hostid.to_owned(),
            username: username.to_owned(),
            host,
            identity_path: Some(identity_path),
            port,
        },
    )
}

/// The opening message of a call that registers a host. The host is picked
/// first; the identity path is then expanded against the user's home
/// directory and environment, so what it becomes is known only in part.
pub fn add_cluster_request(
    hostid: &str,
    username: &str,
    hostname: Option<String>,
    ip: Option<String>,
    identity_path: &str,
    port: u32,
) -> (r: Result<AddClusterRequest, RequestError>)
    ensures
        match r {
            Ok(request) => {
                &&& request@ matches AddClusterRequestView::Init(init)
                &&& init.hostid == hostid@
                &&& init.username == username@
                &&& Some(init.host) == chosen_host(text_of(hostname), text_of(ip))
                &&& init.port == port
                &&& init.identity_path matches Some(path)
                &&& names_variable(identity_path@) || tilde_outcome(identity_path@, path)
            },
            Err(RequestError::NoHost) => hostname is None && ip is None,
            Err(RequestError::TwoHosts) => hostname is Some && ip is Some,
            Err(RequestError::Expansion(_)) => names_variable(identity_path@) && chosen_host(
                text_of(hostname),
                text_of(ip),
            ) is Some,
        },
{
    let host = match choose_host(hostname, ip) {
        Ok(host) => host,
        Err(e) => {
            return Err(e);
        },
    };
    match full(identity_path) {
        Ok(expanded) => Ok(add_cluster_opening(hostid, username, host, expanded, port)),
        Err(e) => Err(RequestError::Expansion(e)),
    }
}

/// The opening message of a call that submits a job.
pub fn submit_request(hostid: &str, local_path: &str, remote_path: &str) -> (r: SubmitRequest)
    ensures
        r@ == SubmitRequestView::Init(
            SubmitInitView { hostid: hostid@, local_path: local_path@, remote_path: remote_path@ },
        ),
{
    SubmitRequest::Init(
        SubmitInit {
            hostid: hostid.to_owned(),
            local_path: local_path.to_owned(),
            remote_path: remote_path.to_owned(),
        },
    )
}

/// The message that carries the answers of a round on a call that submits a job.
pub fn submit_answer(answer: MfaAnswer) -> (r: SubmitRequest)
    ensures
        r@ == SubmitRequestView::Mfa(answer@),
{
    SubmitRequest::Mfa(answer)
}

/// The message that carries the answers of a round on a call that registers a host.
pub fn add_cluster_answer(answer: MfaAnswer) -> (r: AddClusterRequest)
    ensures
        r@ == AddClusterRequestView::Mfa(answer@),
{
    AddClusterRequest::Mfa(answer)
}

} // verus!
