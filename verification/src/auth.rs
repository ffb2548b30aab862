//! The authentication negotiator: public key first where a key is
//! configured, then the keyboard-interactive loop, one challenge at a time.
//!
//! The negotiator never touches the network. It is told what happened and
//! answers with what to do next.

use vstd::prelude::*;
use vstd::string::*;
use crate::text::text_of;
use crate::protocol::{
    MfaAnswer, MfaAnswerView, MfaChallenge, MfaChallengeView, Prompt, PromptView,
};

verus! {

/// An authentication method a server may name.
#[derive(Clone, Copy, Debug, PartialEq, Eq, Structural)]
pub enum Method {
    /// The method that asks for nothing.
    Anonymous,
    Password,
    PublicKey,
    HostBased,
    KeyboardInteractive,
}

/// Who logs in, and with what.
#[derive(Clone, Debug, PartialEq, Eq)]
pub struct Credentials {
    pub username: String,
    /// Where the private key lies; without one only the interactive method is tried.
    pub identity_path: Option<String>,
    /// A hint to the server on which interactive submethods to use.
    pub ki_submethods: Option<String>,
}

pub struct CredentialsView {
    pub username: Seq<char>,
    pub identity_path: Option<Seq<char>>,
    pub ki_submethods: Option<Seq<char>>,
}

impl View for Credentials {
    type V = CredentialsView;

    open spec fn view(&self) -> CredentialsView {
        CredentialsView {
            username: self.username@,
            identity_path: text_of(self.identity_path),
            ki_submethods: text_of(self.ki_submethods),
        }
    }
}

/// The server's verdict on a public-key attempt.
#[derive(Clone, Debug, PartialEq, Eq)]
pub enum AuthReply {
    Success,
    Failure { remaining_methods: Vec<Method>, partial_success: bool },
}

pub enum AuthReplyView {
    Success,
    Failure { remaining_methods: Seq<Method>, partial_success: bool },
}

impl View for AuthReply {
    type V = AuthReplyView;

    open spec fn view(&self) -> AuthReplyView {
        match self {
            AuthReply::Success => AuthReplyView::Success,
            AuthReply::Failure { remaining_methods, partial_success } => AuthReplyView::Failure {
                remaining_methods: remaining_methods@,
                partial_success: *partial_success,
            },
        }
    }
}

/// The server's move in the keyboard-interactive loop.
#[derive(Clone, Debug, PartialEq, Eq)]
pub enum InteractiveReply {
    Success,
    Failure { remaining_methods: Vec<Method>, partial_success: bool },
    InfoRequest { name: String, instructions: String, prompts: Vec<Prompt> },
}

pub enum InteractiveReplyView {
    Success,
    Failure { remaining_methods: Seq<Method>, partial_success: bool },
    InfoRequest { name: Seq<char>, instructions: Seq<char>, prompts: Seq<PromptView> },
}

impl View for InteractiveReply {
    type V = InteractiveReplyView;

    open spec fn view(&self) -> InteractiveReplyView {
        match self {
            InteractiveReply::Success => InteractiveReplyView::Success,
            InteractiveReply::Failure { remaining_methods, partial_success } =>
                InteractiveReplyView::Failure {
                    remaining_methods: remaining_methods@,
                    partial_success: *partial_success,
                },
            InteractiveReply::InfoRequest { name, instructions, prompts } =>
                InteractiveReplyView::InfoRequest {
                    name: name@,
                    instructions: instructions@,
                    prompts: prompts.deep_view(),
                },
        }
    }
}

/// What the negotiator is told.
#[derive(Clone, Debug, PartialEq, Eq)]
pub enum AuthEvent {
    /// A connection attempt is wanted.
    Begin,
    /// The transport is up.
    Connected,
    /// The transport could not be set up, or the connection broke while
    /// the server's reply was awaited.
    TransportFailed(String),
    /// The private key was read.
    KeyLoaded,
    /// The private key could not be read.
    KeyFailed(String),
    /// The server judged the public-key attempt.
    PublicKey(AuthReply),
    /// The server moved in the keyboard-interactive loop.
    Interactive(InteractiveReply),
    /// The next message from the client, which is an answer.
    Answer(MfaAnswer),
    /// The client closed its side.
    InboundClosed,
}

pub enum AuthEventView {
    Begin,
    Connected,
    TransportFailed(Seq<char>),
    KeyLoaded,
    KeyFailed(Seq<char>),
    PublicKey(AuthReplyView),
    Interactive(InteractiveReplyView),
    Answer(MfaAnswerView),
    InboundClosed,
}

impl View for AuthEvent {
    type V = AuthEventView;

    open spec fn view(&self) -> AuthEventView {
        match self {
            AuthEvent::Begin => AuthEventView::Begin,
            AuthEvent::Connected => AuthEventView::Connected,
            AuthEvent::TransportFailed(cause) => AuthEventView::TransportFailed(cause@),
            AuthEvent::KeyLoaded => AuthEventView::KeyLoaded,
            AuthEvent::KeyFailed(cause) => AuthEventView::KeyFailed(cause@),
            AuthEvent::PublicKey(reply) => AuthEventView::PublicKey(reply@),
            AuthEvent::Interactive(reply) => AuthEventView::Interactive(reply@),
            AuthEvent::Answer(answer) => AuthEventView::Answer(answer@),
            AuthEvent::InboundClosed => AuthEventView::InboundClosed,
        }
    }
}

/// Why a negotiation failed.
#[derive(Clone, Debug, PartialEq, Eq)]
pub enum AuthError {
    /// The transport could not be set up.
    Transport(String),
    /// The connection broke while the server judged the key that was offered.
    PublicKey(String),
    /// The connection broke when the keyboard-interactive loop was opened.
    InteractiveStart(String),
    /// The connection broke after answers were handed to the server.
    InteractiveRespond(String),
    /// The private key at `path` could not be read.
    Key { path: String, cause: String },
    /// The server turned the login down.
    Rejected { remaining_methods: Vec<Method>, partial_success: bool },
    /// The client left, or did not answer prompt for prompt, while a
    /// challenge was open.
    ClientDisconnectedDuringChallenge,
    /// Something was reported that the negotiator was not waiting for.
    OutOfTurn,
}

pub enum AuthErrorView {
    Transport(Seq<char>),
    PublicKey(Seq<char>),
    InteractiveStart(Seq<char>),
    InteractiveRespond(Seq<char>),
    Key { path: Seq<char>, cause: Seq<char> },
    Rejected { remaining_methods: Seq<Method>, partial_success: bool },
    ClientDisconnectedDuringChallenge,
    OutOfTurn,
}

impl View for AuthError {
    type V = AuthErrorView;

    open spec fn view(&self) -> AuthErrorView {
        match self {
            AuthError::Transport(cause) => AuthErrorView::Transport(cause@),
            AuthError::PublicKey(cause) => AuthErrorView::PublicKey(cause@),
            AuthError::InteractiveStart(cause) => AuthErrorView::InteractiveStart(cause@),
            AuthError::InteractiveRespond(cause) => AuthErrorView::InteractiveRespond(cause@),
            AuthError::Key { path, cause } => AuthErrorView::Key { path: path@, cause: cause@ },
            AuthError::Rejected { remaining_methods, partial_success } => AuthErrorView::Rejected {
                remaining_methods: remaining_methods@,
                partial_success: *partial_success,
            },
            AuthError::ClientDisconnectedDuringChallenge =>
                AuthErrorView::ClientDisconnectedDuringChallenge,
            AuthError::OutOfTurn => AuthErrorView::OutOfTurn,
        }
    }
}

/// What the negotiator wants done.
#[derive(Clone, Debug, PartialEq, Eq)]
pub enum AuthAction {
    /// Set up the transport.
    Connect,
    /// Read the private key at this path.
    LoadKey(String),
    /// Offer the key that was read, for this user.
    OfferKey(String),
    /// Open the keyboard-interactive loop.
    StartInteractive { username: String, submethods: Option<String> },
    /// Send the challenge to the client and wait for its next message.
    Challenge(MfaChallenge),
    /// Hand the client's answers to the server.
    Respond(Vec<String>),
    /// The login stands.
    Succeed,
    /// The login failed.
    Fail(AuthError),
    /// The negotiation was over before; there is nothing to do.
    Halt,
}

pub enum AuthActionView {
    Connect,
    LoadKey(Seq<char>),
    OfferKey(Seq<char>),
    StartInteractive { username: Seq<char>, submethods: Option<Seq<char>> },
    Challenge(MfaChallengeView),
    Respond(Seq<Seq<char>>),
    Succeed,
    Fail(AuthErrorView),
    Halt,
}

impl View for AuthAction {
    type V = AuthActionView;

    open spec fn view(&self) -> AuthActionView {
        match self {
            AuthAction::Connect => AuthActionView::Connect,
            AuthAction::LoadKey(path) => AuthActionView::LoadKey(path@),
            AuthAction::OfferKey(username) => AuthActionView::OfferKey(username@),
            AuthAction::StartInteractive { username, submethods } =>
                AuthActionView::StartInteractive {
                    username: username@,
                    submethods: text_of(*submethods),
                },
            AuthAction::Challenge(challenge) => AuthActionView::Challenge(challenge@),
            AuthAction::Respond(responses) => AuthActionView::Respond(responses.deep_view()),
            AuthAction::Succeed => AuthActionView::Succeed,
            AuthAction::Fail(error) => AuthActionView::Fail(error@),
            AuthAction::Halt => AuthActionView::Halt,
        }
    }
}

/// Where a negotiation stands.
#[derive(Clone, Copy, Debug, PartialEq, Eq, Structural)]
pub enum AuthState {
    Start,
    TransportConnecting,
    /// Public key: the key is being read.
    LoadingKey,
    /// Public key: the server's verdict is awaited.
    PublicKeyAttempt,
    /// Keyboard-interactive: the loop was opened and the server's first
    /// move is awaited.
    InteractiveServer,
    /// Keyboard-interactive: answers were handed on and the server's next
    /// move is awaited.
    InteractiveAnswered,
    /// Keyboard-interactive: a challenge with this many prompts is open and
    /// the client's answer is awaited.
    InteractiveClient { prompts: usize },
    Authenticated,
    Failed,
}

impl AuthState {
    /// Whether the negotiation is over.
    pub open spec fn is_final(self) -> bool {
        self is Authenticated || self is Failed
    }
}

/// The action that opens the keyboard-interactive loop.
pub open spec fn start_interactive(creds: CredentialsView) -> AuthActionView {
    AuthActionView::StartInteractive { username: creds.username, submethods: creds.ki_submethods }
}

/// The failure of a login that the server turned down.
pub open spec fn rejected(remaining_methods: Seq<Method>, partial_success: bool) -> AuthActionView {
    AuthActionView::Fail(AuthErrorView::Rejected { remaining_methods, partial_success })
}

/// One step of the negotiation: the state after `event`, and what to do.
/// An event that the state does not wait for fails the negotiation, and so
/// does a challenge with more prompts than the machine can count.
pub open spec fn negotiate(creds: CredentialsView, state: AuthState, event: AuthEventView) -> (
    AuthState,
    AuthActionView,
) {
    match (state, event) {
        (AuthState::Authenticated, _) => (state, AuthActionView::Halt),
        (AuthState::Failed, _) => (state, AuthActionView::Halt),
        (AuthState::Start, AuthEventView::Begin) => (
            AuthState::TransportConnecting,
            AuthActionView::Connect,
        ),
        (AuthState::TransportConnecting, AuthEventView::Connected) => match creds.identity_path {
            Some(path) => (AuthState::LoadingKey, AuthActionView::LoadKey(path)),
            None => (AuthState::InteractiveServer, start_interactive(creds)),
        },
        (AuthState::TransportConnecting, AuthEventView::TransportFailed(cause)) => (
            AuthState::Failed,
            AuthActionView::Fail(AuthErrorView::Transport(cause)),
        ),
        (AuthState::LoadingKey, AuthEventView::KeyLoaded) => (
            AuthState::PublicKeyAttempt,
            AuthActionView::OfferKey(creds.username),
        ),
        (AuthState::LoadingKey, AuthEventView::KeyFailed(cause)) => (
            AuthState::Failed,
            AuthActionView::Fail(
                AuthErrorView::Key {
                    path: match creds.identity_path {
                        Some(path) => path,
                        None => Seq::empty(),
                    },
                    cause,
                },
            ),
        ),
        (AuthState::PublicKeyAttempt, AuthEventView::PublicKey(AuthReplyView::Success)) => (
            AuthState::Authenticated,
            AuthActionView::Succeed,
        ),
        (
            AuthState::PublicKeyAttempt,
            AuthEventView::PublicKey(AuthReplyView::Failure { remaining_methods, partial_success }),
        ) => if partial_success && remaining_methods.contains(Method::KeyboardInteractive) {
            (AuthState::InteractiveServer, start_interactive(creds))
        } else {
            (AuthState::Failed, rejected(remaining_methods, partial_success))
        },
        (AuthState::PublicKeyAttempt, AuthEventView::TransportFailed(cause)) => (
            AuthState::Failed,
            AuthActionView::Fail(AuthErrorView::PublicKey(cause)),
        ),
        (
            AuthState::InteractiveServer | AuthState::InteractiveAnswered,
            AuthEventView::Interactive(InteractiveReplyView::Success),
        ) => (AuthState::Authenticated, AuthActionView::Succeed),
        (
            AuthState::InteractiveServer | AuthState::InteractiveAnswered,
            AuthEventView::Interactive(
                InteractiveReplyView::Failure { remaining_methods, partial_success },
            ),
        ) => (AuthState::Failed, rejected(remaining_methods, partial_success)),
        (
            AuthState::InteractiveServer | AuthState::InteractiveAnswered,
            AuthEventView::Interactive(
                InteractiveReplyView::InfoRequest { name, instructions, prompts },
            ),
        ) => if prompts.len() <= usize::MAX {
            (
                AuthState::InteractiveClient { prompts: prompts.len() as usize },
                AuthActionView::Challenge(MfaChallengeView { name, instructions, prompts }),
            )
        } else {
            (AuthState::Failed, AuthActionView::Fail(AuthErrorView::OutOfTurn))
        },
        (AuthState::InteractiveServer, AuthEventView::TransportFailed(cause)) => (
            AuthState::Failed,
            AuthActionView::Fail(AuthErrorView::InteractiveStart(cause)),
        ),
        (AuthState::InteractiveAnswered, AuthEventView::TransportFailed(cause)) => (
            AuthState::Failed,
            AuthActionView::Fail(AuthErrorView::InteractiveRespond(cause)),
        ),
        (AuthState::InteractiveClient { prompts }, AuthEventView::Answer(answer)) => if answer.responses.len()
            == prompts {
            (AuthState::InteractiveAnswered, AuthActionView::Respond(answer.responses))
        } else {
            (
                AuthState::Failed,
                AuthActionView::Fail(AuthErrorView::ClientDisconnectedDuringChallenge),
            )
        },
        (AuthState::InteractiveClient { prompts }, AuthEventView::InboundClosed) => (
            AuthState::Failed,
            AuthActionView::Fail(AuthErrorView::ClientDisconnectedDuringChallenge),
        ),
        _ => (AuthState::Failed, AuthActionView::Fail(AuthErrorView::OutOfTurn)),
    }
}

/// Whether a list of methods names the given one.
pub fn names_method(methods: &Vec<Method>, wanted: Method) -> (r: bool)
    ensures
        r == methods@.contains(wanted),
{
    let mut i: usize = 0;
    while i < methods.len()
        invariant
            i <= methods.len(),
            forall|j: int| 0 <= j < i ==> methods@[j] != wanted,
        decreases methods.len() - i,
    {
        if methods[i] == wanted {
            return true;
        }
        i += 1;
    }
    false
}

/// The action that opens the keyboard-interactive loop for these credentials.
fn interactive(creds: &Credentials) -> (action: AuthAction)
    ensures
        action@ == start_interactive(creds@),
{
    AuthAction::StartInteractive {
        username: creds.username.clone(),
        submethods: creds.ki_submethods.clone(),
    }
}

/// Takes one event in `state` and gives the next state and what to do.
pub fn advance(creds: &Credentials, state: AuthState, event: AuthEvent) -> (r: (
    AuthState,
    AuthAction,
))
    ensures
        r.0 == negotiate(creds@, state, event@).0,
        r.1@ == negotiate(creds@, state, event@).1,
{
    match (state, event) {
        (AuthState::Authenticated, _) => (state, AuthAction::Halt),
        (AuthState::Failed, _) => (state, AuthAction::Halt),
        (AuthState::Start, AuthEvent::Begin) => (AuthState::TransportConnecting, AuthAction::Connect),
        (AuthState::TransportConnecting, AuthEvent::Connected) => {
            match &creds.identity_path {
                Some(path) => (AuthState::LoadingKey, AuthAction::LoadKey(path.clone())),
                None => (AuthState::InteractiveServer, interactive(creds)),
            }
        },
        (AuthState::TransportConnecting, AuthEvent::TransportFailed(cause)) => (
            AuthState::Failed,
            AuthAction::Fail(AuthError::Transport(cause)),
        ),
        (AuthState::LoadingKey, AuthEvent::KeyLoaded) => (
            AuthState::PublicKeyAttempt,
            AuthAction::OfferKey(creds.username.clone()),
        ),
        (AuthState::LoadingKey, AuthEvent::KeyFailed(cause)) => {
            let path = match &creds.identity_path {
                Some(path) => path.clone(),
                None => String::new(),
            };
            (AuthState::Failed, AuthAction::Fail(AuthError::Key { path, cause }))
        },
        (AuthState::PublicKeyAttempt, AuthEvent::PublicKey(AuthReply::Success)) => (
            AuthState::Authenticated,
            AuthAction::Succeed,
        ),
        (
            AuthState::PublicKeyAttempt,
            AuthEvent::PublicKey(AuthReply::Failure { remaining_methods, partial_success }),
        ) => {
            if partial_success && names_method(&remaining_methods, Method::KeyboardInteractive) {
                (AuthState::InteractiveServer, interactive(creds))
            } else {
                (
                    AuthState::Failed,
                    AuthAction::Fail(AuthError::Rejected { remaining_methods, partial_success }),
                )
            }
        },
        (AuthState::PublicKeyAttempt, AuthEvent::TransportFailed(cause)) => (
            AuthState::Failed,
            AuthAction::Fail(AuthError::PublicKey(cause)),
        ),
        (
            AuthState::InteractiveServer | AuthState::InteractiveAnswered,
            AuthEvent::Interactive(InteractiveReply::Success),
        ) => (AuthState::Authenticated, AuthAction::Succeed),
        (
            AuthState::InteractiveServer | AuthState::InteractiveAnswered,
            AuthEvent::Interactive(InteractiveReply::Failure { remaining_methods, partial_success }),
        ) => (
            AuthState::Failed,
            AuthAction::Fail(AuthError::Rejected { remaining_methods, partial_success }),
        ),
        (
            AuthState::InteractiveServer | AuthState::InteractiveAnswered,
            AuthEvent::Interactive(InteractiveReply::InfoRequest { name, instructions, prompts }),
        ) => (
            AuthState::InteractiveClient { prompts: prompts.len() },
            AuthAction::Challenge(MfaChallenge { name, instructions, prompts }),
        ),
        (AuthState::InteractiveServer, AuthEvent::TransportFailed(cause)) => (
            AuthState::Failed,
            AuthAction::Fail(AuthError::InteractiveStart(cause)),
        ),
        (AuthState::InteractiveAnswered, AuthEvent::TransportFailed(cause)) => (
            AuthState::Failed,
            AuthAction::Fail(AuthError::InteractiveRespond(cause)),
        ),
        (AuthState::InteractiveClient { prompts }, AuthEvent::Answer(answer)) => {
            if answer.responses.len() == prompts {
                (AuthState::InteractiveAnswered, AuthAction::Respond(answer.responses))
            } else {
                (
                    AuthState::Failed,
                    AuthAction::Fail(AuthError::ClientDisconnectedDuringChallenge),
                )
            }
        },
        (AuthState::InteractiveClient { prompts }, AuthEvent::InboundClosed) => (
            AuthState::Failed,
            AuthAction::Fail(AuthError::ClientDisconnectedDuringChallenge),
        ),
        _ => (AuthState::Failed, AuthAction::Fail(AuthError::OutOfTurn)),
    }
}

/// A negotiation in progress.
#[derive(Clone, Debug, PartialEq, Eq)]
pub struct Negotiator {
    pub creds: Credentials,
    pub state: AuthState,
}

impl Negotiator {
    /// A negotiation that has not begun.
    pub fn new(creds: Credentials) -> (r: Negotiator)
        ensures
            r.creds == creds,
            r.state == AuthState::Start,
    {
        Negotiator { creds, state: AuthState::Start }
    }

    /// Takes one event and says what to do next.
    pub fn step(&mut self, event: AuthEvent) -> (action: AuthAction)
        ensures
            final(self).creds == old(self).creds,
            final(self).state == negotiate(old(self).creds@, old(self).state, event@).0,
            action@ == negotiate(old(self).creds@, old(self).state, event@).1,
    {
        let (state, action) = advance(&self.creds, self.state, event);
        self.state = state;
        action
    }
}

/// The name a method goes by on the wire.
pub open spec fn method_name(m: Method) -> Seq<char> {
    match m {
        Method::Anonymous => "none"@,
        Method::Password => "password"@,
        Method::PublicKey => "publickey"@,
        Method::HostBased => "hostbased"@,
        Method::KeyboardInteractive => "keyboard-interactive"@,
    }
}

/// The names of the methods, in order, with a comma between two of them.
pub open spec fn methods_text(methods: Seq<Method>) -> Seq<char>
    decreases methods.len(),
{
    if methods.len() == 0 {
        Seq::empty()
    } else if methods.len() == 1 {
        method_name(methods[0])
    } else {
        methods_text(methods.drop_last()) + ","@ + method_name(methods.last())
    }
}

/// How a truth value is written.
pub open spec fn bool_text(b: bool) -> Seq<char> {
    if b {
        "true"@
    } else {
        "false"@
    }
}

/// The text a failed negotiation is reported with.
pub open spec fn auth_error_text(e: AuthErrorView) -> Seq<char> {
    match e {
        AuthErrorView::Transport(cause) => "SSH connect failed: "@ + cause,
        AuthErrorView::PublicKey(cause) => "public key authentication failed: "@ + cause,
        AuthErrorView::InteractiveStart(cause) => "KI start failed: "@ + cause,
        AuthErrorView::InteractiveRespond(cause) => "KI respond failed: "@ + cause,
        AuthErrorView::Key { path, cause } => "failed to load secret key at "@ + path + ": "@
            + cause,
        AuthErrorView::Rejected { remaining_methods, partial_success } =>
            "authentication failed (partial_success="@ + bool_text(partial_success)
            + ", remaining="@ + methods_text(remaining_methods) + ")"@,
        AuthErrorView::ClientDisconnectedDuringChallenge => "client disconnected during MFA"@,
        AuthErrorView::OutOfTurn => "authentication events out of order"@,
    }
}

impl Method {
    /// The name this method goes by on the wire.
    pub fn name(&self) -> (r: &'static str)
        ensures
            r@ == method_name(*self),
    {
        match self {
            Method::Anonymous => "none",
            Method::Password => "password",
            Method::PublicKey => "publickey",
            Method::HostBased => "hostbased",
            Method::KeyboardInteractive => "keyboard-interactive",
        }
    }
}

/// Writes out the names of the methods, in order, separated by commas.
pub fn list_methods(methods: &Vec<Method>) -> (text: String)
    ensures
        text@ == methods_text(methods@),
{
    let mut text = String::new();
    let mut i: usize = 0;
    while i < methods.len()
        invariant
            i <= methods.len(),
            text@ == methods_text(methods@.take(i as int)),
        decreases methods.len() - i,
    {
        let ghost before = methods@.take(i as int);
        let ghost after = methods@.take(i + 1);
        assert(after.drop_last() == before);
        assert(after.last() == methods@[i as int]);
        if i > 0 {
            text.append(",");
        } else {
            assert(text@ + method_name(methods@[i as int]) == method_name(methods@[i as int]));
        }
        text.append(methods[i].name());
        i += 1;
    }
    assert(methods@.take(methods.len() as int) == methods@);
    text
}

impl AuthError {
    /// The text this failure is reported with.
    pub fn describe(&self) -> (text: String)
        ensures
            text@ == auth_error_text(self@),
    {
        match self {
            AuthError::Transport(cause) => "SSH connect failed: ".to_owned().concat(cause.as_str()),
            AuthError::PublicKey(cause) => "public key authentication failed: ".to_owned().concat(
                cause.as_str(),
            ),
            AuthError::InteractiveStart(cause) => "KI start failed: ".to_owned().concat(
                cause.as_str(),
            ),
            AuthError::InteractiveRespond(cause) => "KI respond failed: ".to_owned().concat(
                cause.as_str(),
            ),
            AuthError::Key { path, cause } => "failed to load secret key at ".to_owned().concat(
                path.as_str(),
            ).concat(": ").concat(cause.as_str()),
            AuthError::Rejected { remaining_methods, partial_success } => {
                let flag: &str = if *partial_success {
                    "true"
                } else {
                    "false"
                };
                let listed = list_methods(remaining_methods);
                "authentication failed (partial_success=".to_owned().concat(flag).concat(
                    ", remaining=",
                ).concat(listed.as_str()).concat(")")
            },
            AuthError::ClientDisconnectedDuringChallenge => "client disconnected during MFA".to_owned(),
            AuthError::OutOfTurn => "authentication events out of order".to_owned(),
        }
    }
}

/// The state a negotiation reaches from `state` over a sequence of events.
pub open spec fn state_after(creds: CredentialsView, state: AuthState, events: Seq<AuthEventView>) -> AuthState
    decreases events.len(),
{
    if events.len() == 0 {
        state
    } else {
        state_after(creds, negotiate(creds, state, events[0]).0, events.drop_first())
    }
}

/// The actions a negotiation asks for, from `state`, over a sequence of events.
pub open spec fn actions_over(creds: CredentialsView, state: AuthState, events: Seq<AuthEventView>) -> Seq<
    AuthActionView,
>
    decreases events.len(),
{
    if events.len() == 0 {
        Seq::empty()
    } else {
        seq![negotiate(creds, state, events[0]).1] + actions_over(
            creds,
            negotiate(creds, state, events[0]).0,
            events.drop_first(),
        )
    }
}

/// How many challenges were sent that no answer was yet handed on for.
pub open spec fn open_challenges(actions: Seq<AuthActionView>) -> int
    decreases actions.len(),
{
    if actions.len() == 0 {
        0
    } else {
        open_challenges(actions.drop_last()) + (if actions.last() is Challenge {
            1int
        } else if actions.last() is Respond {
            -1int
        } else {
            0int
        })
    }
}

/// While a challenge with `n` prompts is open, only an answer with exactly
/// `n` replies is handed to the server; any other answer, and the client's
/// leaving, fails the negotiation as a disconnect during the challenge.
pub proof fn lemma_answer_must_fit(creds: CredentialsView, n: usize, answer: MfaAnswerView)
    ensures
        answer.responses.len() == n ==> negotiate(
            creds,
            AuthState::InteractiveClient { prompts: n },
            AuthEventView::Answer(answer),
        ) == (AuthState::InteractiveAnswered, AuthActionView::Respond(answer.responses)),
        answer.responses.len() != n ==> negotiate(
            creds,
            AuthState::InteractiveClient { prompts: n },
            AuthEventView::Answer(answer),
        ) == (
            AuthState::Failed,
            AuthActionView::Fail(AuthErrorView::ClientDisconnectedDuringChallenge),
        ),
        negotiate(
            creds,
            AuthState::InteractiveClient { prompts: n },
            AuthEventView::InboundClosed,
        ) == (
            AuthState::Failed,
            AuthActionView::Fail(AuthErrorView::ClientDisconnectedDuringChallenge),
        ),
{
}

/// While a challenge is open, nothing but the client's next message moves
/// the negotiation on: every other event fails it, and none sends a second
/// challenge.
pub proof fn lemma_open_challenge_waits_for_client(
    creds: CredentialsView,
    n: usize,
    event: AuthEventView,
)
    ensures
        !(negotiate(creds, AuthState::InteractiveClient { prompts: n }, event).1 is Challenge),
        !(event is Answer) ==> negotiate(
            creds,
            AuthState::InteractiveClient { prompts: n },
            event,
        ).0 == AuthState::Failed,
{
}

/// A challenge is sent only on the server's request, and the negotiation
/// then waits for as many replies as the challenge has prompts.
pub proof fn lemma_challenge_opens_round(
    creds: CredentialsView,
    state: AuthState,
    event: AuthEventView,
)
    requires
        negotiate(creds, state, event).1 is Challenge,
    ensures
        state == AuthState::InteractiveServer || state == AuthState::InteractiveAnswered,
        event matches AuthEventView::Interactive(
            InteractiveReplyView::InfoRequest { name, instructions, prompts },
        ) && negotiate(creds, state, event).1 == AuthActionView::Challenge(
            MfaChallengeView { name, instructions, prompts },
        ) && negotiate(creds, state, event).0 == (AuthState::InteractiveClient {
            prompts: prompts.len() as usize,
        }),
{
}

proof fn lemma_actions_split(
    creds: CredentialsView,
    state: AuthState,
    events: Seq<AuthEventView>,
)
    requires
        events.len() > 0,
    ensures
        state_after(creds, state, events) == negotiate(
            creds,
            state_after(creds, state, events.drop_last()),
            events.last(),
        ).0,
        actions_over(creds, state, events) == actions_over(
            creds,
            state,
            events.drop_last(),
        ).push(
            negotiate(creds, state_after(creds, state, events.drop_last()), events.last()).1,
        ),
    decreases events.len(),
{
    if events.len() == 1 {
        let next = negotiate(creds, state, events[0]).0;
        assert(events.drop_last().len() == 0);
        assert(events.drop_first().len() == 0);
        assert(state_after(creds, next, events.drop_first()) == next);
        assert(actions_over(creds, next, events.drop_first()) =~= Seq::<AuthActionView>::empty());
        assert(state_after(creds, state, events.drop_last()) == state);
        assert(actions_over(creds, state, events.drop_last()) =~= Seq::<AuthActionView>::empty());
        assert(actions_over(creds, state, events) =~= seq![negotiate(creds, state, events[0]).1]);
    } else {
        let next = negotiate(creds, state, events[0]).0;
        let rest = events.drop_first();
        lemma_actions_split(creds, next, rest);
        assert(rest.drop_last() =~= events.drop_last().drop_first());
        assert(rest.last() == events.last());
        assert(events.drop_last()[0] == events[0]);
        assert(actions_over(creds, state, events) =~= actions_over(
            creds,
            state,
            events.drop_last(),
        ).push(
            negotiate(creds, state_after(creds, state, events.drop_last()), events.last()).1,
        ));
    }
}

/// Challenges go strictly one at a time: over any sequence of events from
/// the start, at most one challenge is open, and one is open exactly while
/// the negotiation waits for the client (or has failed waiting).
pub proof fn lemma_one_challenge_at_a_time(creds: CredentialsView, events: Seq<AuthEventView>)
    ensures
        0 <= open_challenges(actions_over(creds, AuthState::Start, events)) <= 1,
        state_after(creds, AuthState::Start, events) is InteractiveClient ==> open_challenges(
            actions_over(creds, AuthState::Start, events),
        ) == 1,
        !(state_after(creds, AuthState::Start, events) is InteractiveClient) && !(state_after(
            creds,
            AuthState::Start,
            events,
        ) is Failed) ==> open_challenges(actions_over(creds, AuthState::Start, events)) == 0,
    decreases events.len(),
{
    if events.len() == 0 {
    } else {
        lemma_one_challenge_at_a_time(creds, events.drop_last());
        lemma_actions_split(creds, AuthState::Start, events);
        let before = actions_over(creds, AuthState::Start, events.drop_last());
        let state = state_after(creds, AuthState::Start, events.drop_last());
        let action = negotiate(creds, state, events.last()).1;
        assert(before.push(action).drop_last() =~= before);
        assert(before.push(action).last() == action);
    }
}

/// Once a negotiation is over it stays where it is and asks for nothing.
pub proof fn lemma_final_state_is_absorbing(
    creds: CredentialsView,
    state: AuthState,
    events: Seq<AuthEventView>,
)
    requires
        state.is_final(),
    ensures
        state_after(creds, state, events) == state,
        forall|i: int|
            0 <= i < actions_over(creds, state, events).len() ==> actions_over(
                creds,
                state,
                events,
            )[i] is Halt,
        actions_over(creds, state, events).len() == events.len(),
    decreases events.len(),
{
    if events.len() > 0 {
        lemma_final_state_is_absorbing(creds, state, events.drop_first());
    }
}

/// Without a configured key the public-key method is never touched: from
/// the start, no sequence of events makes the negotiator read or offer a
/// key, and the first thing it does once the transport is up is to open
/// the keyboard-interactive loop.
pub proof fn lemma_no_key_goes_interactive(creds: CredentialsView, events: Seq<AuthEventView>)
    requires
        creds.identity_path is None,
    ensures
        !(state_after(creds, AuthState::Start, events) is LoadingKey),
        !(state_after(creds, AuthState::Start, events) is PublicKeyAttempt),
        forall|i: int|
            0 <= i < actions_over(creds, AuthState::Start, events).len() ==> {
                let action = #[trigger] actions_over(creds, AuthState::Start, events)[i];
                !(action is LoadKey) && !(action is OfferKey)
            },
        negotiate(creds, AuthState::TransportConnecting, AuthEventView::Connected) == (
            AuthState::InteractiveServer,
            start_interactive(creds),
        ),
    decreases events.len(),
{
    if events.len() > 0 {
        lemma_no_key_goes_interactive(creds, events.drop_last());
        lemma_actions_split(creds, AuthState::Start, events);
    }
}

/// The login stands only on the server's word: the negotiator reports
/// success exactly when it moves into the authenticated state, and it does
/// so only on a success reply to a key it offered or in the interactive loop.
pub proof fn lemma_success_is_the_servers(
    creds: CredentialsView,
    state: AuthState,
    event: AuthEventView,
)
    ensures
        negotiate(creds, state, event).1 is Succeed <==> (!state.is_final() && negotiate(
            creds,
            state,
            event,
        ).0 is Authenticated),
        negotiate(creds, state, event).1 is Succeed ==> (state is PublicKeyAttempt && event
            == AuthEventView::PublicKey(AuthReplyView::Success)) || ((state is InteractiveServer
            || state is InteractiveAnswered)
            && event == AuthEventView::Interactive(InteractiveReplyView::Success)),
        negotiate(creds, state, event).1 is Fail <==> (!state.is_final() && negotiate(
            creds,
            state,
            event,
        ).0 is Failed),
{
}

} // verus!
