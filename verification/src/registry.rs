//! The registry of sessions: one session for each host identifier, made
//! when the host is first used and kept from then on.

use vstd::prelude::*;
use vstd::string::*;
use crate::net::Endpoint;
use crate::protocol::{AddClusterInit, AddClusterInitView, Host, HostView};
use crate::session::{
    opened, react, Call, CallEvent, ExecuteError, KeepaliveStep, Reaction, SessionManager,
    SessionView, SshParams, SshParamsView,
};
use crate::text::{decimal, decimal_text, result_view, same_text, text_of};
use crate::whitelist::{allowed, operation_for, CommandError};

verus! {

/// What is stored about one host.
#[derive(Clone, Debug, PartialEq, Eq)]
pub struct HostRecord {
    pub hostid: String,
    pub username: String,
    pub host: Host,
    pub port: u16,
    pub identity_path: Option<String>,
}

pub struct HostRecordView {
    pub hostid: Seq<char>,
    pub username: Seq<char>,
    pub host: HostView,
    pub port: u16,
    pub identity_path: Option<Seq<char>>,
}

impl View for HostRecord {
    type V = HostRecordView;

    open spec fn view(&self) -> HostRecordView {
        HostRecordView {
            hostid: self.hostid@,
            username: self.username@,
            host: self.host@,
            port: self.port,
            identity_path: text_of(self.identity_path),
        }
    }
}

/// Why a request to register a host was refused.
#[derive(Clone, Debug, PartialEq, Eq)]
pub enum RecordError {
    /// The port is not one a host can listen on.
    BadPort(u32),
    /// A host is stored under this identifier already. Records are never
    /// changed: a host that is registered stays as it was registered.
    HostIdTaken(String),
}

pub enum RecordErrorView {
    BadPort(u32),
    HostIdTaken(Seq<char>),
}

impl View for RecordError {
    type V = RecordErrorView;

    open spec fn view(&self) -> RecordErrorView {
        match self {
            RecordError::BadPort(port) => RecordErrorView::BadPort(*port),
            RecordError::HostIdTaken(hostid) => RecordErrorView::HostIdTaken(hostid@),
        }
    }
}

/// The text a refused registration is reported with.
pub open spec fn record_error_text(e: RecordErrorView) -> Seq<char> {
    match e {
        RecordErrorView::BadPort(port) => "bad port: "@ + decimal_text(port as nat),
        RecordErrorView::HostIdTaken(hostid) => "host "@ + hostid + " is registered already"@,
    }
}

impl RecordError {
    /// The text this error is reported with.
    pub fn describe(&self) -> (text: String)
        ensures
            text@ == record_error_text(self@),
    {
        match self {
            RecordError::BadPort(port) => {
                let number = decimal(*port);
                "bad port: ".to_owned().concat(number.as_str())
            },
            RecordError::HostIdTaken(hostid) => "host ".to_owned().concat(hostid.as_str()).concat(
                " is registered already",
            ),
        }
    }
}

/// The port that a requested port stands for: 22 where none was named.
pub open spec fn effective_port(port: u32) -> Option<u16> {
    if port == 0 {
        Some(22u16)
    } else if port <= 65535 {
        Some(port as u16)
    } else {
        None
    }
}

/// The record that a request to register a host asks for, given whether a
/// host is stored under its identifier already.
pub open spec fn record_of(init: AddClusterInitView, taken: bool) -> Result<
    HostRecordView,
    RecordErrorView,
> {
    if taken {
        Err(RecordErrorView::HostIdTaken(init.hostid))
    } else {
        match effective_port(init.port) {
            Some(port) => Ok(
                HostRecordView {
                    hostid: init.hostid,
                    username: init.username,
                    host: init.host,
                    port,
                    identity_path: init.identity_path,
                },
            ),
            None => Err(RecordErrorView::BadPort(init.port)),
        }
    }
}

/// Makes the record to store from a request to register a host. `taken`
/// says whether a host is stored under the request's identifier already.
pub fn host_record(init: AddClusterInit, taken: bool) -> (r: Result<HostRecord, RecordError>)
    ensures
        result_view(r) == record_of(init@, taken),
{
    if taken {
        return Err(RecordError::HostIdTaken(init.hostid));
    }
    let port: u16 = if init.port == 0 {
        22
    } else if init.port <= 65535 {
        init.port as u16
    } else {
        return Err(RecordError::BadPort(init.port));
    };
    Ok(
        HostRecord {
            hostid: init.hostid,
            username: init.username,
            host: init.host,
            port,
            identity_path: init.identity_path,
        },
    )
}

/// The connection parameters that a record gives, for the address it was
/// resolved to.
pub open spec fn params_of(record: HostRecordView, ip: crate::net::IpAddress, keepalive_secs: u64) -> SshParamsView {
    SshParamsView {
        addr: Endpoint { ip, port: record.port },
        username: record.username,
        identity_path: record.identity_path,
        ki_submethods: None,
        keepalive_secs,
    }
}

/// Makes the connection parameters for a stored host.
pub fn ssh_params(record: &HostRecord, ip: crate::net::IpAddress, keepalive_secs: u64) -> (r:
    SshParams)
    ensures
        r@ == params_of(record@, ip, keepalive_secs),
{
    SshParams {
        addr: Endpoint { ip, port: record.port },
        username: record.username.clone(),
        identity_path: record.identity_path.clone(),
        ki_submethods: None,
        keepalive_secs,
    }
}

/// Why no session could be had for a host.
#[derive(Clone, Debug, PartialEq, Eq)]
pub enum RegistryError {
    /// Nothing is stored under this host identifier.
    UnknownHost(String),
}

/// The text an unknown host is reported with.
pub open spec fn unknown_host_text(hostid: Seq<char>) -> Seq<char> {
    "unknown host: "@ + hostid
}

impl RegistryError {
    /// The text this error is reported with.
    pub fn describe(&self) -> (text: String)
        ensures
            match self {
                RegistryError::UnknownHost(hostid) => text@ == unknown_host_text(hostid@),
            },
    {
        match self {
            RegistryError::UnknownHost(hostid) => "unknown host: ".to_owned().concat(
                hostid.as_str(),
            ),
        }
    }
}

/// One host's place in the registry.
#[derive(Clone, Debug, PartialEq, Eq)]
pub struct Entry {
    pub hostid: String,
    pub session: SessionManager,
}

pub struct EntryView {
    pub hostid: Seq<char>,
    pub session: SessionView,
}

impl View for Entry {
    type V = EntryView;

    open spec fn view(&self) -> EntryView {
        EntryView { hostid: self.hostid@, session: self.session@ }
    }
}

impl DeepView for Entry {
    type V = EntryView;

    open spec fn deep_view(&self) -> EntryView {
        self@
    }
}

/// The sessions of all hosts that were used so far.
#[derive(Clone, Debug, PartialEq, Eq)]
pub struct SessionRegistry {
    pub entries: Vec<Entry>,
}

pub struct SessionRegistryView {
    pub entries: Seq<EntryView>,
}

impl View for SessionRegistry {
    type V = SessionRegistryView;

    open spec fn view(&self) -> SessionRegistryView {
        SessionRegistryView { entries: self.entries.deep_view() }
    }
}

impl SessionRegistryView {
    /// No host has two sessions, and every session is well formed.
    pub open spec fn wf(self) -> bool {
        &&& forall|i: int, j: int|
            0 <= i < self.entries.len() && 0 <= j < self.entries.len() && i != j
                ==> self.entries[i].hostid != self.entries[j].hostid
        &&& forall|i: int| 0 <= i < self.entries.len() ==> (#[trigger] self.entries[i]).session.wf()
    }

    /// Whether the registry has a session for the host.
    pub open spec fn holds(self, hostid: Seq<char>) -> bool {
        exists|i: int| 0 <= i < self.entries.len() && (#[trigger] self.entries[i]).hostid == hostid
    }

    /// The registry with a fresh session for a host added at its end.
    pub open spec fn with(self, hostid: Seq<char>, params: SshParamsView) -> SessionRegistryView {
        SessionRegistryView {
            entries: self.entries.push(EntryView { hostid, session: SessionView::fresh(params) }),
        }
    }
}

impl SessionRegistry {
    /// A registry without sessions.
    pub fn new() -> (r: SessionRegistry)
        ensures
            r@.entries.len() == 0,
            r@.wf(),
    {
        SessionRegistry { entries: Vec::new() }
    }

    /// Whether the registry is well formed. Every registry made and changed
    /// by the functions of this module is.
    pub fn check(&self) -> (r: bool)
        ensures
            r == self@.wf(),
    {
        let mut i: usize = 0;
        while i < self.entries.len()
            invariant
                i <= self.entries.len(),
                forall|a: int| 0 <= a < i ==> (#[trigger] self@.entries[a]).session.wf(),
                forall|a: int, b: int|
                    0 <= a < b < i ==> self@.entries[a].hostid != self@.entries[b].hostid,
            decreases self.entries.len() - i,
        {
            if !self.entries[i].session.check() {
                assert(!self@.entries[i as int].session.wf());
                return false;
            }
            let mut j: usize = 0;
            while j < i
                invariant
                    j <= i,
                    i < self.entries.len(),
                    forall|a: int|
                        0 <= a < j ==> self@.entries[a].hostid != self@.entries[i as int].hostid,
                decreases i - j,
            {
                if same_text(self.entries[j].hostid.as_str(), self.entries[i].hostid.as_str()) {
                    assert(self@.entries[j as int].hostid == self@.entries[i as int].hostid);
                    return false;
                }
                j += 1;
            }
            i += 1;
        }
        assert(self@.wf()) by {
            assert forall|a: int, b: int|
                0 <= a < self@.entries.len() && 0 <= b < self@.entries.len() && a
                    != b implies self@.entries[a].hostid != self@.entries[b].hostid by {
                if a < b {
                } else {
                    assert(self@.entries[b].hostid != self@.entries[a].hostid);
                }
            }
        }
        true
    }

    /// How many hosts have a session.
    pub fn len(&self) -> (n: usize)
        ensures
            n == self@.entries.len(),
    {
        self.entries.len()
    }

    /// Where the session of a host stands, if the host has one.
    pub fn lookup(&self, hostid: &str) -> (r: Option<usize>)
        ensures
            match r {
                Some(i) => i < self@.entries.len() && self@.entries[i as int].hostid == hostid@,
                None => !self@.holds(hostid@),
            },
    {
        let mut i: usize = 0;
        while i < self.entries.len()
            invariant
                i <= self.entries.len(),
                forall|j: int| 0 <= j < i ==> (#[trigger] self@.entries[j]).hostid != hostid@,
            decreases self.entries.len() - i,
        {
            if same_text(self.entries[i].hostid.as_str(), hostid) {
                return Some(i);
            }
            i += 1;
        }
        None
    }

    /// The session of a host: the one it has, or a fresh one made from the
    /// parameters found for it. A host without a session and without
    /// parameters is unknown.
    pub fn get_or_create(&mut self, hostid: &str, found: Option<SshParams>) -> (r: Result<
        usize,
        RegistryError,
    >)
        requires
            old(self)@.wf(),
        ensures
            final(self)@.wf(),
            match r {
                Ok(i) => {
                    &&& i < final(self)@.entries.len()
                    &&& final(self)@.entries[i as int].hostid == hostid@
                    &&& old(self)@.holds(hostid@) ==> final(self)@ == old(self)@
                    &&& !old(self)@.holds(hostid@) ==> (found matches Some(params) && i == old(
                        self,
                    )@.entries.len() && final(self)@ == old(self)@.with(hostid@, params@))
                },
                Err(RegistryError::UnknownHost(unknown)) => {
                    &&& unknown@ == hostid@
                    &&& !old(self)@.holds(hostid@)
                    &&& found is None
                    &&& final(self)@ == old(self)@
                },
            },
    {
        match self.lookup(hostid) {
            Some(i) => Ok(i),
            None => match found {
                None => Err(RegistryError::UnknownHost(hostid.to_owned())),
                Some(params) => {
                    let ghost before = self@;
                    let ghost fresh = SessionView::fresh(params@);
                    let at: usize = self.entries.len();
                    let session = SessionManager::new(params);
                    self.entries.push(Entry { hostid: hostid.to_owned(), session });
                    assert(self@.entries =~= before.entries.push(
                        EntryView { hostid: hostid@, session: fresh },
                    ));
                    assert(self@.wf()) by {
                        assert forall|i: int, j: int|
                            0 <= i < self@.entries.len() && 0 <= j < self@.entries.len() && i
                                != j implies self@.entries[i].hostid != self@.entries[j].hostid by {
                            if i < at {
                                assert(self@.entries[i] == before.entries[i]);
                            }
                            if j < at {
                                assert(self@.entries[j] == before.entries[j]);
                            }
                        }
                        assert forall|i: int| 0 <= i < self@.entries.len() implies (
                        #[trigger] self@.entries[i]).session.wf() by {
                            if i < at {
                                assert(self@.entries[i] == before.entries[i]);
                            }
                        }
                    }
                    Ok(at)
                },
            },
        }
    }

    /// Opens a call on the session at a place in the registry.
    pub fn exec_whitelisted(&mut self, index: usize, command: &str, call: u64) -> (r: Result<
        (Call, Reaction),
        ExecuteError,
    >)
        requires
            old(self)@.wf(),
            index < old(self)@.entries.len(),
        ensures
            final(self)@.wf(),
            final(self)@.entries.len() == old(self)@.entries.len(),
            forall|i: int|
                0 <= i < old(self)@.entries.len() && i != index ==> final(self)@.entries[i] == old(
                    self,
                )@.entries[i],
            final(self)@.entries[index as int].hostid == old(self)@.entries[index as int].hostid,
            match r {
                Ok((opened_call, reaction)) => {
                    &&& operation_for(command@) == Some(opened_call.operation)
                    &&& !old(self)@.entries[index as int].session.lock.knows(call)
                    &&& (final(self)@.entries[index as int].session, opened_call, reaction@)
                        == opened(
                        old(self)@.entries[index as int].session,
                        opened_call.operation,
                        call,
                    )
                },
                Err(ExecuteError::Command(CommandError::NotAllowed(label))) => {
                    &&& !allowed(command@)
                    &&& label@ == command@
                    &&& final(self)@ == old(self)@
                },
                Err(ExecuteError::CallInProgress(id)) => {
                    &&& allowed(command@)
                    &&& old(self)@.entries[index as int].session.lock.knows(call)
                    &&& id == call
                    &&& final(self)@ == old(self)@
                },
            },
    {
        let ghost before = self@;
        assert(before.entries[index as int].session.wf());
        let r = self.entries[index].session.exec_whitelisted(command, call);
        proof {
            assert forall|i: int| 0 <= i < before.entries.len() implies (#[trigger] self@.entries[i]).hostid
                == before.entries[i].hostid && self@.entries[i].session.wf() by {
                assert(before.entries[i].session.wf());
            }
            if r is Err {
                assert(self@.entries =~= before.entries);
            }
        }
        r
    }

    /// Hands one event to a call on the session at a place in the registry.
    pub fn react(&mut self, index: usize, call: &mut Call, event: CallEvent) -> (r: Reaction)
        requires
            old(self)@.wf(),
            index < old(self)@.entries.len(),
        ensures
            final(self)@.wf(),
            final(self)@.entries.len() == old(self)@.entries.len(),
            forall|i: int|
                0 <= i < old(self)@.entries.len() && i != index ==> final(self)@.entries[i] == old(
                    self,
                )@.entries[i],
            final(self)@.entries[index as int].hostid == old(self)@.entries[index as int].hostid,
            (final(self)@.entries[index as int].session, *final(call), r@) == react(
                old(self)@.entries[index as int].session,
                *old(call),
                event@,
            ),
    {
        let ghost before = self@;
        assert(before.entries[index as int].session.wf());
        let r = self.entries[index].session.react(call, event);
        proof {
            assert forall|i: int| 0 <= i < before.entries.len() implies (#[trigger] self@.entries[i]).hostid
                == before.entries[i].hostid && self@.entries[i].session.wf() by {
                assert(before.entries[i].session.wf());
            }
        }
        r
    }

    /// A tick of a keep-alive supervisor of the session at a place in the registry.
    pub fn keepalive_tick(&mut self, index: usize, generation: u64, closed: bool) -> (step:
        KeepaliveStep)
        requires
            old(self)@.wf(),
            index < old(self)@.entries.len(),
        ensures
            final(self)@.wf(),
            final(self)@.entries.len() == old(self)@.entries.len(),
            forall|i: int|
                0 <= i < old(self)@.entries.len() && i != index ==> final(self)@.entries[i] == old(
                    self,
                )@.entries[i],
            final(self)@.entries[index as int].hostid == old(self)@.entries[index as int].hostid,
            step == old(self)@.entries[index as int].session.tick(generation, closed),
            final(self)@.entries[index as int].session == old(
                self,
            )@.entries[index as int].session.ticked(generation, closed),
    {
        let ghost before = self@;
        assert(before.entries[index as int].session.wf());
        let step = self.entries[index].session.keepalive_tick(generation, closed);
        proof {
            assert forall|i: int| 0 <= i < before.entries.len() implies (#[trigger] self@.entries[i]).hostid
                == before.entries[i].hostid && self@.entries[i].session.wf() by {
                assert(before.entries[i].session.wf());
            }
        }
        step
    }

    /// The session at a place in the registry.
    pub fn session(&self, index: usize) -> (r: &SessionManager)
        requires
            index < self@.entries.len(),
        ensures
            r@ == self@.entries[index as int].session,
    {
        &self.entries[index].session
    }
}

/// A host that was registered is found again as it was registered: the
/// record made from the request keeps the user, the host, the identity
/// path and the port (22 where none was named), and once a session was made
/// from the record, looking the host up gives a session with just these
/// parameters.
pub proof fn lemma_registered_host_is_found(
    registry: SessionRegistryView,
    init: AddClusterInitView,
    ip: crate::net::IpAddress,
    keepalive_secs: u64,
)
    requires
        registry.wf(),
        !registry.holds(init.hostid),
        effective_port(init.port) is Some,
    ensures
        record_of(init, false) matches Ok(record) && ({
            let params = params_of(record, ip, keepalive_secs);
            let after = registry.with(init.hostid, params);
            &&& record.hostid == init.hostid
            &&& record.username == init.username
            &&& record.host == init.host
            &&& record.identity_path == init.identity_path
            &&& Some(record.port) == effective_port(init.port)
            &&& after.wf()
            &&& after.holds(init.hostid)
            &&& forall|i: int|
                0 <= i < after.entries.len() && (#[trigger] after.entries[i]).hostid == init.hostid
                    ==> after.entries[i].session.params.username == init.username
                    && after.entries[i].session.params.identity_path == init.identity_path
                    && after.entries[i].session.params.addr.port == record.port
                    && after.entries[i].session.handle is None
        }),
{
    let record = record_of(init, false)->Ok_0;
    let params = params_of(record, ip, keepalive_secs);
    let after = registry.with(init.hostid, params);
    let last = registry.entries.len() as int;
    assert(after.entries[last].hostid == init.hostid);
    assert forall|i: int, j: int|
        0 <= i < after.entries.len() && 0 <= j < after.entries.len() && i != j implies after.entries[i].hostid
        != after.entries[j].hostid by {
        if i < last {
            assert(after.entries[i] == registry.entries[i]);
        }
        if j < last {
            assert(after.entries[j] == registry.entries[j]);
        }
    }
    assert forall|i: int| 0 <= i < after.entries.len() implies (#[trigger] after.entries[i]).session.wf() by {
        if i < last {
            assert(after.entries[i] == registry.entries[i]);
        }
    }
    assert forall|i: int|
        0 <= i < after.entries.len() && (#[trigger] after.entries[i]).hostid
            == init.hostid implies i == last by {
        if i < last {
            assert(after.entries[i] == registry.entries[i]);
        }
    }
}

/// A host has one session: no two places of a well-formed registry belong
/// to the same host.
pub proof fn lemma_one_session_per_host(registry: SessionRegistryView, i: int, j: int)
    requires
        registry.wf(),
        0 <= i < registry.entries.len(),
        0 <= j < registry.entries.len(),
        registry.entries[i].hostid == registry.entries[j].hostid,
    ensures
        i == j,
{
}

} // verus!
