use hpcd::auth::AuthState;
use hpcd::net::{Endpoint, IpAddress};
use hpcd::protocol::{AddClusterInit, Host};
use hpcd::registry::{
    host_record, ssh_params, HostRecord, RecordError, RegistryError, SessionRegistry,
};
use hpcd::session::{CallEvent, Directive, ExecuteError, KeepaliveStep, Phase, SshParams};
use hpcd::whitelist::CommandError;

fn init(port: u32) -> AddClusterInit {
    AddClusterInit {
        hostid: "alpha".to_string(),
        username: "alice".to_string(),
        host: Host::Hostname("h".to_string()),
        identity_path: Some("/home/alice/.ssh/id_ed25519".to_string()),
        port,
    }
}

fn params(user: &str) -> SshParams {
    SshParams {
        addr: Endpoint { ip: IpAddress::V4([10, 0, 0, 7]), port: 22 },
        username: user.to_string(),
        identity_path: None,
        ki_submethods: None,
        keepalive_secs: 15,
    }
}

#[test]
fn record_keeps_what_was_registered() {
    assert_eq!(
        host_record(init(2222), false),
        Ok(HostRecord {
            hostid: "alpha".to_string(),
            username: "alice".to_string(),
            host: Host::Hostname("h".to_string()),
            port: 2222,
            identity_path: Some("/home/alice/.ssh/id_ed25519".to_string()),
        })
    );
}

#[test]
fn port_defaults_to_22() {
    assert_eq!(host_record(init(0), false).unwrap().port, 22);
    assert_eq!(host_record(init(22), false).unwrap().port, 22);
    assert_eq!(host_record(init(1), false).unwrap().port, 1);
    assert_eq!(host_record(init(65535), false).unwrap().port, 65535);
}

#[test]
fn port_beyond_the_range_is_refused() {
    assert_eq!(host_record(init(65536), false), Err(RecordError::BadPort(65536)));
    assert_eq!(host_record(init(u32::MAX), false), Err(RecordError::BadPort(u32::MAX)));
}

#[test]
fn second_registration_under_one_identifier_is_refused() {
    assert_eq!(host_record(init(22), true), Err(RecordError::HostIdTaken("alpha".to_string())));
    assert_eq!(host_record(init(70000), true), Err(RecordError::HostIdTaken("alpha".to_string())));
}

#[test]
fn add_cluster_round_trip() {
    let record = host_record(init(0), false).unwrap();
    let ip = IpAddress::V4([192, 0, 2, 10]);
    let params = ssh_params(&record, ip, 30);
    assert_eq!(
        params,
        SshParams {
            addr: Endpoint { ip, port: 22 },
            username: "alice".to_string(),
            identity_path: Some("/home/alice/.ssh/id_ed25519".to_string()),
            ki_submethods: None,
            keepalive_secs: 30,
        }
    );
    let mut registry = SessionRegistry::new();
    assert_eq!(registry.lookup("alpha"), None);
    let at = registry.get_or_create("alpha", Some(params.clone())).unwrap();
    assert_eq!(registry.lookup("alpha"), Some(at));
    let session = registry.session(at);
    assert_eq!(session.params, params);
    assert_eq!(session.params.username, "alice");
    assert_eq!(record.host, Host::Hostname("h".to_string()));
    assert_eq!(session.params.addr.port, 22);
    assert!(std::path::Path::new(session.params.identity_path.as_ref().unwrap()).is_absolute());
    assert_eq!(session.handle, None);
}

#[test]
fn unknown_host_is_refused() {
    let mut registry = SessionRegistry::new();
    assert_eq!(
        registry.get_or_create("ghost", None),
        Err(RegistryError::UnknownHost("ghost".to_string()))
    );
    assert_eq!(registry.len(), 0);
}

#[test]
fn one_session_per_host_for_good() {
    let mut registry = SessionRegistry::new();
    let a = registry.get_or_create("alpha", Some(params("alice"))).unwrap();
    let b = registry.get_or_create("beta", Some(params("bob"))).unwrap();
    assert_ne!(a, b);
    assert_eq!(registry.len(), 2);
    // later parameters do not replace the session a host has
    assert_eq!(registry.get_or_create("alpha", Some(params("mallory"))), Ok(a));
    assert_eq!(registry.get_or_create("alpha", None), Ok(a));
    assert_eq!(registry.len(), 2);
    assert_eq!(registry.session(a).params.username, "alice");
    assert_eq!(registry.session(b).params.username, "bob");
    assert_eq!(registry.lookup("beta"), Some(b));
    assert_eq!(registry.lookup("Alpha"), None);
}

#[test]
fn calls_on_different_hosts_do_not_share_a_lock() {
    let mut registry = SessionRegistry::new();
    let a = registry.get_or_create("alpha", Some(params("alice"))).unwrap();
    let b = registry.get_or_create("beta", Some(params("bob"))).unwrap();
    let (call_a, ra) = registry.exec_whitelisted(a, "ls", 1).unwrap();
    let (call_b, rb) = registry.exec_whitelisted(b, "ls", 1).unwrap();
    assert_eq!(ra.next, Directive::Connect);
    assert_eq!(rb.next, Directive::Connect);
    assert_eq!(call_a.phase, Phase::Negotiating(AuthState::TransportConnecting));
    assert_eq!(call_b.phase, Phase::Negotiating(AuthState::TransportConnecting));
    assert_eq!(registry.session(a).lock.holder, Some(1));
    assert_eq!(registry.session(b).lock.holder, Some(1));
    let (_queued, r) = registry.exec_whitelisted(a, "w", 2).unwrap();
    assert_eq!(r.next, Directive::Wait);
    assert!(registry.session(b).lock.waiting.is_empty());
}

#[test]
fn registry_forwards_events_to_the_session() {
    let mut registry = SessionRegistry::new();
    let a = registry.get_or_create("alpha", Some(params("alice"))).unwrap();
    let (mut call, _) = registry.exec_whitelisted(a, "ls", 7).unwrap();
    let r = registry.react(a, &mut call, CallEvent::Abandoned);
    assert_eq!(r.next, Directive::Close);
    assert_eq!(call.phase, Phase::Closing);
    assert_eq!(registry.session(a).lock.holder, Some(7));
    let r = registry.react(a, &mut call, CallEvent::Closed);
    assert_eq!(r.next, Directive::Leave);
    assert_eq!(call.phase, Phase::Done);
    assert_eq!(registry.session(a).lock.holder, None);
    assert_eq!(
        registry.exec_whitelisted(a, "cat /etc/shadow", 8),
        Err(ExecuteError::Command(CommandError::NotAllowed("cat /etc/shadow".to_string())))
    );
    assert_eq!(registry.session(a).lock.holder, None);
}

#[test]
fn registries_made_by_the_library_are_well_formed() {
    let mut registry = SessionRegistry::new();
    assert!(registry.check());
    registry.get_or_create("alpha", Some(params("alice"))).unwrap();
    registry.get_or_create("beta", Some(params("bob"))).unwrap();
    assert!(registry.check());
    let twin = registry.entries[0].clone();
    registry.entries.push(twin);
    assert!(!registry.check());
}

#[test]
fn registry_forwards_keepalive_ticks() {
    let mut registry = SessionRegistry::new();
    let a = registry.get_or_create("alpha", Some(params("alice"))).unwrap();
    assert_eq!(registry.keepalive_tick(a, 0, false), KeepaliveStep::Stop);
    assert_eq!(registry.session(a).keepalive, None);
}

#[test]
fn unknown_host_is_described() {
    assert_eq!(RegistryError::UnknownHost("ghost".to_string()).describe(), "unknown host: ghost");
}

#[test]
fn registry_refuses_a_call_number_that_is_under_way() {
    let mut registry = SessionRegistry::new();
    let a = registry.get_or_create("alpha", Some(params("alice"))).unwrap();
    registry.exec_whitelisted(a, "ls", 1).unwrap();
    assert_eq!(registry.exec_whitelisted(a, "w", 1), Err(ExecuteError::CallInProgress(1)));
    assert!(registry.exec_whitelisted(a, "w", 2).is_ok());
    assert_eq!(registry.exec_whitelisted(a, "w", 2), Err(ExecuteError::CallInProgress(2)));
    assert_eq!(
        registry.exec_whitelisted(a, "nope", 1),
        Err(ExecuteError::Command(CommandError::NotAllowed("nope".to_string())))
    );
}

#[test]
fn record_errors_are_described() {
    assert_eq!(RecordError::BadPort(65536).describe(), "bad port: 65536");
    assert_eq!(RecordError::BadPort(u32::MAX).describe(), "bad port: 4294967295");
    assert_eq!(
        RecordError::HostIdTaken("alpha".to_string()).describe(),
        "host alpha is registered already"
    );
}
