//! Messages exchanged between the daemon and its clients during one call.

use vstd::prelude::*;
use crate::text::text_of;

verus! {

/// One question of an interactive authentication round.
#[derive(Debug, PartialEq, Eq)]
pub struct Prompt {
    pub text: String,
    /// Whether the typed answer may be shown on the terminal.
    pub echo: bool,
}

pub struct PromptView {
    pub text: Seq<char>,
    pub echo: bool,
}

impl View for Prompt {
    type V = PromptView;

    open spec fn view(&self) -> PromptView {
        PromptView { text: self.text@, echo: self.echo }
    }
}

impl DeepView for Prompt {
    type V = PromptView;

    open spec fn deep_view(&self) -> PromptView {
        self@
    }
}

impl Clone for Prompt {
    fn clone(&self) -> (r: Self)
        ensures
            r@ == self@,
    {
        Prompt { text: self.text.clone(), echo: self.echo }
    }
}

/// One interactive authentication round: the server's questions, in order.
#[derive(Clone, Debug, PartialEq, Eq)]
pub struct MfaChallenge {
    pub name: String,
    pub instructions: String,
    pub prompts: Vec<Prompt>,
}

pub struct MfaChallengeView {
    pub name: Seq<char>,
    pub instructions: Seq<char>,
    pub prompts: Seq<PromptView>,
}

impl View for MfaChallenge {
    type V = MfaChallengeView;

    open spec fn view(&self) -> MfaChallengeView {
        MfaChallengeView {
            name: self.name@,
            instructions: self.instructions@,
            prompts: self.prompts.deep_view(),
        }
    }
}

/// The client's replies to one challenge; reply `i` belongs to prompt `i`.
#[derive(Clone, Debug, PartialEq, Eq)]
pub struct MfaAnswer {
    pub responses: Vec<String>,
}

pub struct MfaAnswerView {
    pub responses: Seq<Seq<char>>,
}

impl View for MfaAnswer {
    type V = MfaAnswerView;

    open spec fn view(&self) -> MfaAnswerView {
        MfaAnswerView { responses: self.responses.deep_view() }
    }
}

/// Where a host is reached: by name or by address, never both.
#[derive(Debug, PartialEq, Eq)]
pub enum Host {
    Hostname(String),
    IpAddr(String),
}

pub enum HostView {
    Hostname(Seq<char>),
    IpAddr(Seq<char>),
}

impl View for Host {
    type V = HostView;

    open spec fn view(&self) -> HostView {
        match self {
            Host::Hostname(name) => HostView::Hostname(name@),
            Host::IpAddr(address) => HostView::IpAddr(address@),
        }
    }
}

impl Clone for Host {
    fn clone(&self) -> (r: Self)
        ensures
            r@ == self@,
    {
        match self {
            Host::Hostname(name) => Host::Hostname(name.clone()),
            Host::IpAddr(address) => Host::IpAddr(address.clone()),
        }
    }
}

/// The first message of a call that registers a host.
#[derive(Clone, Debug, PartialEq, Eq)]
pub struct AddClusterInit {
    pub hostid: String,
    pub username: String,
    pub host: Host,
    pub identity_path: Option<String>,
    pub port: u32,
}

pub struct AddClusterInitView {
    pub hostid: Seq<char>,
    pub username: Seq<char>,
    pub host: HostView,
    pub identity_path: Option<Seq<char>>,
    pub port: u32,
}

impl View for AddClusterInit {
    type V = AddClusterInitView;

    open spec fn view(&self) -> AddClusterInitView {
        AddClusterInitView {
            hostid: self.hostid@,
            username: self.username@,
            host: self.host@,
            identity_path: text_of(self.identity_path),
            port: self.port,
        }
    }
}

/// The first message of a call that submits a job.
#[derive(Clone, Debug, PartialEq, Eq)]
pub struct SubmitInit {
    pub hostid: String,
    pub local_path: String,
    pub remote_path: String,
}

pub struct SubmitInitView {
    pub hostid: Seq<char>,
    pub local_path: Seq<char>,
    pub remote_path: Seq<char>,
}

impl View for SubmitInit {
    type V = SubmitInitView;

    open spec fn view(&self) -> SubmitInitView {
        SubmitInitView {
            hostid: self.hostid@,
            local_path: self.local_path@,
            remote_path: self.remote_path@,
        }
    }
}

/// What a client sends on a call that submits a job.
#[derive(Clone, Debug, PartialEq, Eq)]
pub enum SubmitRequest {
    Init(SubmitInit),
    Mfa(MfaAnswer),
}

pub enum SubmitRequestView {
    Init(SubmitInitView),
    Mfa(MfaAnswerView),
}

impl View for SubmitRequest {
    type V = SubmitRequestView;

    open spec fn view(&self) -> SubmitRequestView {
        match self {
            SubmitRequest::Init(init) => SubmitRequestView::Init(init@),
            SubmitRequest::Mfa(answer) => SubmitRequestView::Mfa(answer@),
        }
    }
}

/// What a client sends on a call that registers a host.
#[derive(Clone, Debug, PartialEq, Eq)]
pub enum AddClusterRequest {
    Init(AddClusterInit),
    Mfa(MfaAnswer),
}

pub enum AddClusterRequestView {
    Init(AddClusterInitView),
    Mfa(MfaAnswerView),
}

impl View for AddClusterRequest {
    type V = AddClusterRequestView;

    open spec fn view(&self) -> AddClusterRequestView {
        match self {
            AddClusterRequest::Init(init) => AddClusterRequestView::Init(init@),
            AddClusterRequest::Mfa(answer) => AddClusterRequestView::Mfa(answer@),
        }
    }
}

/// What a call reports to its client.
#[derive(Clone, Debug, PartialEq, Eq)]
pub enum StreamEvent {
    Stdout(Vec<u8>),
    Stderr(Vec<u8>),
    ExitCode(i32),
    Mfa(MfaChallenge),
    Error(String),
}

pub enum StreamEventView {
    Stdout(Seq<u8>),
    Stderr(Seq<u8>),
    ExitCode(i32),
    Mfa(MfaChallengeView),
    Error(Seq<char>),
}

impl View for StreamEvent {
    type V = StreamEventView;

    open spec fn view(&self) -> StreamEventView {
        match self {
            StreamEvent::Stdout(bytes) => StreamEventView::Stdout(bytes@),
            StreamEvent::Stderr(bytes) => StreamEventView::Stderr(bytes@),
            StreamEvent::ExitCode(code) => StreamEventView::ExitCode(*code),
            StreamEvent::Mfa(challenge) => StreamEventView::Mfa(challenge@),
            StreamEvent::Error(text) => StreamEventView::Error(text@),
        }
    }
}

impl StreamEventView {
    /// An exit code or an error ends the call.
    pub open spec fn is_terminal(self) -> bool {
        self is ExitCode || self is Error
    }
}

/// A trace of events is orderly when nothing follows a terminal event.
pub open spec fn orderly(trace: Seq<StreamEventView>) -> bool {
    forall|i: int| 0 <= i < trace.len() && (#[trigger] trace[i]).is_terminal() ==> i == trace.len() - 1
}

/// A trace is complete when it is orderly and ends in a terminal event.
pub open spec fn complete(trace: Seq<StreamEventView>) -> bool {
    orderly(trace) && trace.len() > 0 && trace.last().is_terminal()
}

/// An answer fits a challenge when it holds one reply for each prompt.
pub open spec fn fits(answer: MfaAnswerView, challenge: MfaChallengeView) -> bool {
    answer.responses.len() == challenge.prompts.len()
}

impl StreamEvent {
    pub fn is_terminal(&self) -> (r: bool)
        ensures
            r == self@.is_terminal(),
    {
        match self {
            StreamEvent::ExitCode(_) => true,
            StreamEvent::Error(_) => true,
            _ => false,
        }
    }
}

impl MfaChallenge {
    /// The number of replies this challenge asks for.
    pub fn prompt_count(&self) -> (n: usize)
        ensures
            n == self@.prompts.len(),
    {
        self.prompts.len()
    }
}

impl MfaAnswer {
    pub fn fits(&self, challenge: &MfaChallenge) -> (r: bool)
        ensures
            r == fits(self@, challenge@),
    {
        self.responses.len() == challenge.prompts.len()
    }
}

/// Nothing can be appended to a complete trace without breaking its order.
pub proof fn lemma_complete_trace_is_closed(trace: Seq<StreamEventView>, event: StreamEventView)
    requires
        complete(trace),
    ensures
        !orderly(trace.push(event)),
{
    let longer = trace.push(event);
    let k = trace.len() - 1;
    assert(longer[k] == trace[k]);
    assert(longer[k].is_terminal());
}

/// An orderly trace holds at most one terminal event.
pub proof fn lemma_orderly_has_one_terminal(trace: Seq<StreamEventView>, i: int, j: int)
    requires
        orderly(trace),
        0 <= i < trace.len(),
        0 <= j < trace.len(),
        trace[i].is_terminal(),
        trace[j].is_terminal(),
    ensures
        i == j,
{
}

/// What the daemon takes a frame of a job submission's inbound stream for.
#[derive(Clone, Debug, PartialEq, Eq)]
pub enum SubmitFrame {
    /// The opening message.
    Init(SubmitInit),
    /// The answer to a challenge.
    Answer(MfaAnswer),
    /// A frame without content: it is noted and passed over.
    Skipped,
    /// An answer before the opening message, or a second opening message.
    OutOfOrder,
}

pub enum SubmitFrameView {
    Init(SubmitInitView),
    Answer(MfaAnswerView),
    Skipped,
    OutOfOrder,
}

impl View for SubmitFrame {
    type V = SubmitFrameView;

    open spec fn view(&self) -> SubmitFrameView {
        match self {
            SubmitFrame::Init(init) => SubmitFrameView::Init(init@),
            SubmitFrame::Answer(answer) => SubmitFrameView::Answer(answer@),
            SubmitFrame::Skipped => SubmitFrameView::Skipped,
            SubmitFrame::OutOfOrder => SubmitFrameView::OutOfOrder,
        }
    }
}

/// What a frame is taken for, given whether the opening message was seen.
pub open spec fn submit_frame(opened: bool, frame: Option<SubmitRequestView>) -> SubmitFrameView {
    match frame {
        None => SubmitFrameView::Skipped,
        Some(SubmitRequestView::Init(init)) => if opened {
            SubmitFrameView::OutOfOrder
        } else {
            SubmitFrameView::Init(init)
        },
        Some(SubmitRequestView::Mfa(answer)) => if opened {
            SubmitFrameView::Answer(answer)
        } else {
            SubmitFrameView::OutOfOrder
        },
    }
}

/// Sorts one frame of a job submission's inbound stream: the first message
/// with content must open the call, and every later one must be an answer.
pub fn admit_submit(opened: bool, frame: Option<SubmitRequest>) -> (r: SubmitFrame)
    ensures
        r@ == submit_frame(
            opened,
            match frame {
                Some(request) => Some(request@),
                None => None,
            },
        ),
{
    match frame {
        None => SubmitFrame::Skipped,
        Some(SubmitRequest::Init(init)) => {
            if opened {
                SubmitFrame::OutOfOrder
            } else {
                SubmitFrame::Init(init)
            }
        },
        Some(SubmitRequest::Mfa(answer)) => {
            if opened {
                SubmitFrame::Answer(answer)
            } else {
                SubmitFrame::OutOfOrder
            }
        },
    }
}

/// What the daemon takes a frame of a host registration's inbound stream for.
#[derive(Clone, Debug, PartialEq, Eq)]
pub enum AddClusterFrame {
    /// The opening message.
    Init(AddClusterInit),
    /// The answer to a challenge.
    Answer(MfaAnswer),
    /// A frame without content: it is noted and passed over.
    Skipped,
    /// An answer before the opening message, or a second opening message.
    OutOfOrder,
}

pub enum AddClusterFrameView {
    Init(AddClusterInitView),
    Answer(MfaAnswerView),
    Skipped,
    OutOfOrder,
}

impl View for AddClusterFrame {
    type V = AddClusterFrameView;

    open spec fn view(&self) -> AddClusterFrameView {
        match self {
            AddClusterFrame::Init(init) => AddClusterFrameView::Init(init@),
            AddClusterFrame::Answer(answer) => AddClusterFrameView::Answer(answer@),
            AddClusterFrame::Skipped => AddClusterFrameView::Skipped,
            AddClusterFrame::OutOfOrder => AddClusterFrameView::OutOfOrder,
        }
    }
}

/// What a frame is taken for, given whether the opening message was seen.
pub open spec fn add_cluster_frame(opened: bool, frame: Option<AddClusterRequestView>) -> AddClusterFrameView {
    match frame {
        None => AddClusterFrameView::Skipped,
        Some(AddClusterRequestView::Init(init)) => if opened {
            AddClusterFrameView::OutOfOrder
        } else {
            AddClusterFrameView::Init(init)
        },
        Some(AddClusterRequestView::Mfa(answer)) => if opened {
            AddClusterFrameView::Answer(answer)
        } else {
            AddClusterFrameView::OutOfOrder
        },
    }
}

/// Sorts one frame of a host registration's inbound stream: the first
/// message with content must open the call, and every later one must be an
/// answer.
pub fn admit_add_cluster(opened: bool, frame: Option<AddClusterRequest>) -> (r: AddClusterFrame)
    ensures
        r@ == add_cluster_frame(
            opened,
            match frame {
                Some(request) => Some(request@),
                None => None,
            },
        ),
{
    match frame {
        None => AddClusterFrame::Skipped,
        Some(AddClusterRequest::Init(init)) => {
            if opened {
                AddClusterFrame::OutOfOrder
            } else {
                AddClusterFrame::Init(init)
            }
        },
        Some(AddClusterRequest::Mfa(answer)) => {
            if opened {
                AddClusterFrame::Answer(answer)
            } else {
                AddClusterFrame::OutOfOrder
            }
        },
    }
}

} // verus!
