use hpcd::auth::{AuthEvent, AuthReply, AuthState, InteractiveReply, Method};
use hpcd::net::{Endpoint, IpAddress};
use hpcd::protocol::{MfaAnswer, MfaChallenge, Prompt, StreamEvent};
use hpcd::session::{
    exit_code_of, Call, CallEvent, ChannelMessage, ClientHandler, Directive, ExecuteError,
    ExecutionError,
    KeepalivePlan, KeepaliveStep, Phase, Reaction, SessionManager, SshParams, TransportSettings,
};
use hpcd::whitelist::{CommandError, Operation};

fn params(identity: Option<&str>, keepalive_secs: u64) -> SshParams {
    SshParams {
        addr: Endpoint { ip: IpAddress::V4([10, 0, 0, 7]), port: 22 },
        username: "alice".to_string(),
        identity_path: identity.map(|s| s.to_string()),
        ki_submethods: None,
        keepalive_secs,
    }
}

fn just(next: Directive) -> Reaction {
    Reaction { emit: None, next, keepalive: None, wake: None }
}

fn send(event: StreamEvent, next: Directive) -> Reaction {
    Reaction { emit: Some(event), next, keepalive: None, wake: None }
}

fn one_prompt() -> InteractiveReply {
    InteractiveReply::InfoRequest {
        name: "otp".to_string(),
        instructions: String::new(),
        prompts: vec![Prompt { text: "Code: ".to_string(), echo: true }],
    }
}

fn one_prompt_challenge() -> MfaChallenge {
    MfaChallenge {
        name: "otp".to_string(),
        instructions: String::new(),
        prompts: vec![Prompt { text: "Code: ".to_string(), echo: true }],
    }
}

/// Opens a call on a fresh session and drives it through a key login up to streaming.
fn streaming(session: &mut SessionManager, id: u64, label: &str) -> Call {
    let (mut call, first) = session.exec_whitelisted(label, id).unwrap();
    assert_eq!(first, just(Directive::Connect));
    session.react(&mut call, CallEvent::Auth(AuthEvent::Connected));
    session.react(&mut call, CallEvent::Auth(AuthEvent::KeyLoaded));
    let r = session.react(&mut call, CallEvent::Auth(AuthEvent::PublicKey(AuthReply::Success)));
    assert_eq!(r.next, Directive::OpenChannel);
    session.react(&mut call, CallEvent::ChannelOpened);
    let r = session.react(&mut call, CallEvent::Started);
    assert_eq!(r, just(Directive::Receive));
    assert_eq!(call.phase, Phase::Streaming);
    call
}

#[test]
fn new_session_has_the_fixed_settings() {
    let s = SessionManager::new(params(Some("/k"), 15));
    assert_eq!(
        s.settings,
        TransportSettings {
            inactivity_timeout_secs: 30,
            keepalive_interval_secs: 15,
            channel_buffer_size: 64,
            window_size: 1024 * 1024,
        }
    );
    assert_eq!(s.handle, None);
    assert_eq!(s.generation, 0);
    assert_eq!(s.keepalive, None);
    assert_eq!(s.lock.holder, None);
    assert!(s.lock.waiting.is_empty());
    assert_eq!(s.params, params(Some("/k"), 15));
    assert_eq!(ClientHandler::default(), ClientHandler);
}

#[test]
fn label_outside_the_whitelist_touches_nothing() {
    let mut s = SessionManager::new(params(Some("/k"), 15));
    let before = s.clone();
    match s.exec_whitelisted("ls; rm -rf /", 1) {
        Err(ExecuteError::Command(CommandError::NotAllowed(label))) => {
            assert_eq!(label, "ls; rm -rf /")
        }
        other => panic!("unexpected {:?}", other),
    }
    assert_eq!(s, before);
    assert_eq!(
        s.exec_whitelisted("rm", 1),
        Err(ExecuteError::Command(CommandError::NotAllowed("rm".to_string())))
    );
    assert_eq!(s, before);
}

#[test]
fn first_call_on_a_fresh_session_connects() {
    let mut s = SessionManager::new(params(Some("/k"), 15));
    let (call, r) = s.exec_whitelisted("ls", 1).unwrap();
    assert_eq!(r, just(Directive::Connect));
    assert_eq!(
        call,
        Call { id: 1, operation: Operation::Ls, phase: Phase::Negotiating(AuthState::TransportConnecting) }
    );
    assert_eq!(s.lock.holder, Some(1));
}

#[test]
fn key_login_then_command_then_exit_code() {
    let mut s = SessionManager::new(params(Some("/home/alice/.ssh/id"), 15));
    let (mut call, _) = s.exec_whitelisted("uname -a", 1).unwrap();
    assert_eq!(
        s.react(&mut call, CallEvent::Auth(AuthEvent::Connected)),
        just(Directive::LoadKey("/home/alice/.ssh/id".to_string()))
    );
    assert_eq!(
        s.react(&mut call, CallEvent::Auth(AuthEvent::KeyLoaded)),
        just(Directive::OfferKey("alice".to_string()))
    );
    let r = s.react(&mut call, CallEvent::Auth(AuthEvent::PublicKey(AuthReply::Success)));
    assert_eq!(
        r,
        Reaction {
            emit: None,
            next: Directive::OpenChannel,
            keepalive: Some(KeepalivePlan { stop: None, start: Some(1), interval_secs: 15 }),
            wake: None,
        }
    );
    assert_eq!(s.handle, Some(1));
    assert_eq!(s.generation, 1);
    assert_eq!(s.keepalive, Some(1));
    assert_eq!(call.phase, Phase::Opening);
    assert_eq!(
        s.react(&mut call, CallEvent::ChannelOpened),
        just(Directive::Exec("uname -a".to_string()))
    );
    assert_eq!(s.react(&mut call, CallEvent::Started), just(Directive::Receive));
    assert_eq!(
        s.react(&mut call, CallEvent::Message(ChannelMessage::Data(b"Linux\n".to_vec()))),
        send(StreamEvent::Stdout(b"Linux\n".to_vec()), Directive::Receive)
    );
    assert_eq!(
        s.react(
            &mut call,
            CallEvent::Message(ChannelMessage::ExtendedData { data: b"warn".to_vec(), ext: 1 })
        ),
        send(StreamEvent::Stderr(b"warn".to_vec()), Directive::Receive)
    );
    assert_eq!(
        s.react(
            &mut call,
            CallEvent::Message(ChannelMessage::ExtendedData { data: b"other".to_vec(), ext: 2 })
        ),
        just(Directive::Receive)
    );
    assert_eq!(s.react(&mut call, CallEvent::Message(ChannelMessage::Eof)), just(Directive::Receive));
    assert_eq!(s.react(&mut call, CallEvent::Message(ChannelMessage::Other)), just(Directive::Receive));
    assert_eq!(
        s.react(&mut call, CallEvent::Message(ChannelMessage::ExitStatus(0))),
        send(StreamEvent::ExitCode(0), Directive::Close)
    );
    assert_eq!(call.phase, Phase::Closing);
    assert_eq!(s.lock.holder, Some(1));
    assert_eq!(s.react(&mut call, CallEvent::Closed), just(Directive::Leave));
    assert_eq!(call.phase, Phase::Done);
    assert_eq!(s.lock.holder, None);
    assert_eq!(s.handle, Some(1));
}

#[test]
fn no_identity_means_first_event_is_a_challenge() {
    let mut s = SessionManager::new(params(None, 15));
    let (mut call, r) = s.exec_whitelisted("ls", 1).unwrap();
    let mut emitted: Vec<StreamEvent> = Vec::new();
    let mut directives = vec![r.next.clone()];
    let mut feed = |s: &mut SessionManager, call: &mut Call, e: CallEvent| {
        let r = s.react(call, e);
        if let Some(ev) = r.emit.clone() {
            emitted.push(ev);
        }
        directives.push(r.next.clone());
        r
    };
    let r = feed(&mut s, &mut call, CallEvent::Auth(AuthEvent::Connected));
    assert_eq!(
        r,
        just(Directive::StartInteractive { username: "alice".to_string(), submethods: None })
    );
    let r = feed(&mut s, &mut call, CallEvent::Auth(AuthEvent::Interactive(one_prompt())));
    assert_eq!(r, send(StreamEvent::Mfa(one_prompt_challenge()), Directive::AwaitAnswer));
    let r = feed(
        &mut s,
        &mut call,
        CallEvent::Auth(AuthEvent::Answer(MfaAnswer { responses: vec!["123456".to_string()] })),
    );
    assert_eq!(r, just(Directive::Respond(vec!["123456".to_string()])));
    feed(&mut s, &mut call, CallEvent::Auth(AuthEvent::Interactive(InteractiveReply::Success)));
    feed(&mut s, &mut call, CallEvent::ChannelOpened);
    feed(&mut s, &mut call, CallEvent::Started);
    feed(&mut s, &mut call, CallEvent::Message(ChannelMessage::Data(b"a.txt\n".to_vec())));
    feed(&mut s, &mut call, CallEvent::Message(ChannelMessage::ExitStatus(0)));
    assert_eq!(
        emitted,
        vec![
            StreamEvent::Mfa(one_prompt_challenge()),
            StreamEvent::Stdout(b"a.txt\n".to_vec()),
            StreamEvent::ExitCode(0),
        ]
    );
    for d in &directives {
        assert!(!matches!(d, Directive::LoadKey(_) | Directive::OfferKey(_)));
    }
}

#[test]
fn wrong_answer_count_ends_the_call_with_an_error() {
    let mut s = SessionManager::new(params(None, 15));
    let (mut call, _) = s.exec_whitelisted("ls", 1).unwrap();
    s.react(&mut call, CallEvent::Auth(AuthEvent::Connected));
    s.react(&mut call, CallEvent::Auth(AuthEvent::Interactive(one_prompt())));
    let r = s.react(
        &mut call,
        CallEvent::Auth(AuthEvent::Answer(MfaAnswer {
            responses: vec!["1".to_string(), "2".to_string()],
        })),
    );
    assert_eq!(
        r,
        send(StreamEvent::Error("client disconnected during MFA".to_string()), Directive::Close)
    );
    assert_eq!(call.phase, Phase::Closing);
    assert_eq!(s.lock.holder, Some(1));
    assert_eq!(s.react(&mut call, CallEvent::Closed), just(Directive::Leave));
    assert_eq!(call.phase, Phase::Done);
    assert_eq!(s.lock.holder, None);
    assert_eq!(s.handle, None);
    assert_eq!(s.generation, 0);
}

#[test]
fn client_closing_during_a_challenge_ends_the_call() {
    let mut s = SessionManager::new(params(None, 15));
    let (mut call, _) = s.exec_whitelisted("ls", 1).unwrap();
    s.react(&mut call, CallEvent::Auth(AuthEvent::Connected));
    s.react(&mut call, CallEvent::Auth(AuthEvent::Interactive(one_prompt())));
    let r = s.react(&mut call, CallEvent::Auth(AuthEvent::InboundClosed));
    assert_eq!(
        r,
        send(StreamEvent::Error("client disconnected during MFA".to_string()), Directive::Close)
    );
    assert_eq!(call.phase, Phase::Closing);
}

#[test]
fn rejected_login_is_one_error_event() {
    let mut s = SessionManager::new(params(Some("/k"), 15));
    let (mut call, _) = s.exec_whitelisted("ls", 1).unwrap();
    s.react(&mut call, CallEvent::Auth(AuthEvent::Connected));
    s.react(&mut call, CallEvent::Auth(AuthEvent::KeyLoaded));
    let r = s.react(
        &mut call,
        CallEvent::Auth(AuthEvent::PublicKey(AuthReply::Failure {
            remaining_methods: vec![Method::Password],
            partial_success: false,
        })),
    );
    assert_eq!(
        r,
        send(
            StreamEvent::Error(
                "authentication failed (partial_success=false, remaining=password)".to_string()
            ),
            Directive::Close
        )
    );
    assert_eq!(s.lock.holder, Some(1));
    assert_eq!(s.react(&mut call, CallEvent::ChannelOpened), just(Directive::Close));
    assert_eq!(s.react(&mut call, CallEvent::Closed), just(Directive::Leave));
    assert_eq!(s.lock.holder, None);
    assert_eq!(s.react(&mut call, CallEvent::ChannelOpened), just(Directive::Ignore));
}

#[test]
fn connect_failure_is_one_error_event() {
    let mut s = SessionManager::new(params(Some("/k"), 15));
    let (mut call, _) = s.exec_whitelisted("w", 1).unwrap();
    let r = s.react(
        &mut call,
        CallEvent::Auth(AuthEvent::TransportFailed("connection refused".to_string())),
    );
    assert_eq!(
        r,
        send(StreamEvent::Error("SSH connect failed: connection refused".to_string()), Directive::Close)
    );
    assert_eq!(call.phase, Phase::Closing);
}

#[test]
fn nothing_is_sent_after_the_exit_code() {
    let mut s = SessionManager::new(params(Some("/k"), 15));
    let mut call = streaming(&mut s, 1, "ls");
    s.react(&mut call, CallEvent::Message(ChannelMessage::ExitStatus(2)));
    let late = || {
        vec![
            CallEvent::Message(ChannelMessage::Data(b"late".to_vec())),
            CallEvent::Message(ChannelMessage::ExitStatus(0)),
            CallEvent::Message(ChannelMessage::Close),
            CallEvent::ChannelEnded,
            CallEvent::ChannelFailed("late".to_string()),
            CallEvent::Abandoned,
            CallEvent::Granted,
        ]
    };
    // while the close is under way the call only asks for the close again
    let closing = s.clone();
    for e in late() {
        assert_eq!(s.react(&mut call, e), just(Directive::Close));
        assert_eq!(call.phase, Phase::Closing);
        assert_eq!(s, closing);
    }
    assert_eq!(s.react(&mut call, CallEvent::Closed), just(Directive::Leave));
    let after = s.clone();
    for e in late() {
        assert_eq!(s.react(&mut call, e), just(Directive::Ignore));
        assert_eq!(call.phase, Phase::Done);
        assert_eq!(s, after);
    }
    assert_eq!(s.react(&mut call, CallEvent::Closed), just(Directive::Ignore));
}

#[test]
fn lock_is_kept_until_the_close_is_reported() {
    let mut s = SessionManager::new(params(Some("/k"), 15));
    let mut first = streaming(&mut s, 1, "ls");
    let (mut second, _) = s.exec_whitelisted("w", 2).unwrap();
    let r = s.react(&mut first, CallEvent::Message(ChannelMessage::ExitStatus(0)));
    assert_eq!(r.next, Directive::Close);
    assert_eq!(r.wake, None);
    assert_eq!(s.lock.holder, Some(1));
    assert_eq!(s.lock.waiting, vec![2]);
    // the second call cannot start while the first one closes
    assert_eq!(s.react(&mut second, CallEvent::Granted), just(Directive::Wait));
    let r = s.react(&mut first, CallEvent::Closed);
    assert_eq!(r, Reaction { emit: None, next: Directive::Leave, keepalive: None, wake: Some(2) });
    assert_eq!(s.lock.holder, Some(2));
    assert_eq!(s.react(&mut second, CallEvent::Granted), just(Directive::Probe));
}

#[test]
fn call_that_does_not_hold_the_lock_is_not_listened_to() {
    let mut s = SessionManager::new(params(Some("/k"), 15));
    let _first = streaming(&mut s, 1, "ls");
    let before = s.clone();
    // a call that claims to be streaming without holding the lock
    let mut forged = Call { id: 9, operation: Operation::Ls, phase: Phase::Streaming };
    assert!(!s.agrees(&forged));
    assert_eq!(
        s.react(&mut forged, CallEvent::Message(ChannelMessage::Data(b"x".to_vec()))),
        just(Directive::Ignore)
    );
    assert_eq!(s.react(&mut forged, CallEvent::Abandoned), just(Directive::Ignore));
    assert_eq!(forged.phase, Phase::Streaming);
    // a call that claims a place in the queue it never took
    let mut stray = Call { id: 9, operation: Operation::Ls, phase: Phase::Queued };
    assert!(!s.agrees(&stray));
    assert_eq!(s.react(&mut stray, CallEvent::Granted), just(Directive::Ignore));
    assert_eq!(s, before);
}

#[test]
fn channel_closing_without_status_is_an_error() {
    let mut s = SessionManager::new(params(Some("/k"), 15));
    let mut call = streaming(&mut s, 1, "ls");
    assert_eq!(
        s.react(&mut call, CallEvent::Message(ChannelMessage::Close)),
        send(StreamEvent::Error("channel closed before exit status".to_string()), Directive::Close)
    );
    let mut s = SessionManager::new(params(Some("/k"), 15));
    let mut call = streaming(&mut s, 1, "ls");
    assert_eq!(
        s.react(&mut call, CallEvent::ChannelEnded),
        send(StreamEvent::Error("channel closed before exit status".to_string()), Directive::Close)
    );
    assert_eq!(s.lock.holder, Some(1));
    s.react(&mut call, CallEvent::Closed);
    assert_eq!(s.lock.holder, None);
}

#[test]
fn channel_failures_name_their_stage() {
    let mut s = SessionManager::new(params(Some("/k"), 15));
    let (mut call, _) = s.exec_whitelisted("ls", 1).unwrap();
    s.react(&mut call, CallEvent::Auth(AuthEvent::Connected));
    s.react(&mut call, CallEvent::Auth(AuthEvent::KeyLoaded));
    s.react(&mut call, CallEvent::Auth(AuthEvent::PublicKey(AuthReply::Success)));
    assert_eq!(
        s.react(&mut call, CallEvent::ChannelFailed("refused".to_string())),
        send(StreamEvent::Error("open session: refused".to_string()), Directive::Close)
    );

    let mut s = SessionManager::new(params(Some("/k"), 15));
    let (mut call, _) = s.exec_whitelisted("ls", 1).unwrap();
    s.react(&mut call, CallEvent::Auth(AuthEvent::Connected));
    s.react(&mut call, CallEvent::Auth(AuthEvent::KeyLoaded));
    s.react(&mut call, CallEvent::Auth(AuthEvent::PublicKey(AuthReply::Success)));
    s.react(&mut call, CallEvent::ChannelOpened);
    assert_eq!(
        s.react(&mut call, CallEvent::ChannelFailed("denied".to_string())),
        send(StreamEvent::Error("exec request: denied".to_string()), Directive::Close)
    );

    let mut s = SessionManager::new(params(Some("/k"), 15));
    let mut call = streaming(&mut s, 1, "ls");
    assert_eq!(
        s.react(&mut call, CallEvent::ChannelFailed("reset".to_string())),
        send(StreamEvent::Error("channel failed: reset".to_string()), Directive::Close)
    );
}

#[test]
fn event_out_of_turn_ends_the_call() {
    let mut s = SessionManager::new(params(Some("/k"), 15));
    let (mut call, _) = s.exec_whitelisted("ls", 1).unwrap();
    assert_eq!(
        s.react(&mut call, CallEvent::Started),
        send(StreamEvent::Error("unexpected event".to_string()), Directive::Close)
    );
    assert_eq!(call.phase, Phase::Closing);
    assert_eq!(s.lock.holder, Some(1));

    let mut s = SessionManager::new(params(Some("/k"), 15));
    let mut call = streaming(&mut s, 1, "ls");
    assert_eq!(
        s.react(&mut call, CallEvent::ChannelOpened),
        send(StreamEvent::Error("unexpected event".to_string()), Directive::Close)
    );
}

#[test]
fn second_call_waits_for_the_first() {
    let mut s = SessionManager::new(params(Some("/k"), 15));
    let mut first = streaming(&mut s, 1, "ls");
    let (mut second, r) = s.exec_whitelisted("w", 2).unwrap();
    assert_eq!(r, just(Directive::Wait));
    assert_eq!(second.phase, Phase::Queued);
    assert_eq!(s.lock.holder, Some(1));
    assert_eq!(s.lock.waiting, vec![2]);
    // a grant that was not given changes nothing
    assert_eq!(s.react(&mut second, CallEvent::Granted), just(Directive::Wait));
    assert_eq!(second.phase, Phase::Queued);
    let r = s.react(&mut first, CallEvent::Message(ChannelMessage::ExitStatus(0)));
    assert_eq!(r, send(StreamEvent::ExitCode(0), Directive::Close));
    assert_eq!(s.lock.holder, Some(1));
    let r = s.react(&mut first, CallEvent::Closed);
    assert_eq!(r, Reaction { emit: None, next: Directive::Leave, keepalive: None, wake: Some(2) });
    assert_eq!(s.lock.holder, Some(2));
    // the connection is held: the second call asks whether it is still open
    assert_eq!(s.react(&mut second, CallEvent::Granted), just(Directive::Probe));
    assert_eq!(second.phase, Phase::Probing);
    assert_eq!(
        s.react(&mut second, CallEvent::Probed { closed: false }),
        just(Directive::OpenChannel)
    );
    assert_eq!(s.generation, 1);
    assert_eq!(
        s.react(&mut second, CallEvent::ChannelOpened),
        just(Directive::Exec("w".to_string()))
    );
}

#[test]
fn same_call_number_twice_is_refused() {
    let mut s = SessionManager::new(params(Some("/k"), 15));
    let _first = streaming(&mut s, 1, "ls");
    let before = s.clone();
    assert_eq!(s.exec_whitelisted("w", 1), Err(ExecuteError::CallInProgress(1)));
    assert_eq!(s, before);
}

#[test]
fn closed_handle_leads_to_a_new_generation() {
    let mut s = SessionManager::new(params(Some("/k"), 15));
    let mut first = streaming(&mut s, 1, "ls");
    s.react(&mut first, CallEvent::Message(ChannelMessage::ExitStatus(0)));
    s.react(&mut first, CallEvent::Closed);
    let (mut second, r) = s.exec_whitelisted("ls", 2).unwrap();
    assert_eq!(r, just(Directive::Probe));
    assert_eq!(s.react(&mut second, CallEvent::Probed { closed: true }), just(Directive::Connect));
    assert_eq!(s.handle, None);
    assert_eq!(second.phase, Phase::Negotiating(AuthState::TransportConnecting));
    s.react(&mut second, CallEvent::Auth(AuthEvent::Connected));
    s.react(&mut second, CallEvent::Auth(AuthEvent::KeyLoaded));
    let r = s.react(&mut second, CallEvent::Auth(AuthEvent::PublicKey(AuthReply::Success)));
    assert_eq!(
        r.keepalive,
        Some(KeepalivePlan { stop: Some(1), start: Some(2), interval_secs: 15 })
    );
    assert_eq!(s.generation, 2);
    assert_eq!(s.handle, Some(2));
    assert_eq!(s.keepalive, Some(2));
}

#[test]
fn abandoned_call_gives_up_the_lock_silently() {
    let mut s = SessionManager::new(params(Some("/k"), 15));
    let mut first = streaming(&mut s, 1, "ls");
    let (mut second, _) = s.exec_whitelisted("ls", 2).unwrap();
    let (_third, _) = s.exec_whitelisted("ls", 3).unwrap();
    // a waiting call leaves the queue
    assert_eq!(s.react(&mut second, CallEvent::Abandoned), just(Directive::Leave));
    assert_eq!(second.phase, Phase::Done);
    assert_eq!(s.lock.holder, Some(1));
    assert_eq!(s.lock.waiting, vec![3]);
    // the holder leaves mid-stream: its channel is closed, then the lock passes on
    assert_eq!(s.react(&mut first, CallEvent::Abandoned), just(Directive::Close));
    assert_eq!(s.lock.holder, Some(1));
    assert_eq!(
        s.react(&mut first, CallEvent::Closed),
        Reaction { emit: None, next: Directive::Leave, keepalive: None, wake: Some(3) }
    );
    assert_eq!(s.lock.holder, Some(3));
}

#[test]
fn ensure_connected_is_a_no_op_on_a_live_handle() {
    let mut s = SessionManager::new(params(Some("/k"), 15));
    assert!(s.ensure_connected(false));
    assert!(s.ensure_connected(true));
    assert_eq!(s.handle, None);
    let plan = s.connected();
    assert_eq!(plan, KeepalivePlan { stop: None, start: Some(1), interval_secs: 15 });
    let live = s.clone();
    assert!(!s.ensure_connected(false));
    assert_eq!(s, live);
    assert!(s.ensure_connected(true));
    assert_eq!(s.handle, None);
    assert_eq!(s.generation, 1);
}

#[test]
fn generation_changes_on_every_connect() {
    let mut s = SessionManager::new(params(Some("/k"), 15));
    let mut seen = vec![s.generation];
    for _ in 0..5 {
        s.connected();
        assert!(!seen.contains(&s.generation));
        assert_eq!(s.handle, Some(s.generation));
        seen.push(s.generation);
    }
    s.generation = u64::MAX;
    s.handle = Some(u64::MAX);
    s.keepalive = Some(u64::MAX);
    let plan = s.connected();
    assert_eq!(plan, KeepalivePlan { stop: Some(u64::MAX), start: Some(0), interval_secs: 15 });
    assert_eq!(s.generation, 0);
}

#[test]
fn zero_interval_starts_no_supervisor() {
    let mut s = SessionManager::new(params(Some("/k"), 0));
    let plan = s.connected();
    assert_eq!(plan, KeepalivePlan { stop: None, start: None, interval_secs: 0 });
    assert_eq!(s.keepalive, None);
    assert_eq!(s.handle, Some(1));
}

#[test]
fn only_the_current_supervisor_probes() {
    let mut s = SessionManager::new(params(Some("/k"), 15));
    s.connected();
    assert_eq!(s.keepalive_tick(1, false), KeepaliveStep::Probe);
    assert_eq!(s.keepalive, Some(1));
    s.ensure_connected(true);
    s.connected();
    assert_eq!(s.generation, 2);
    // the supervisor of the first connection is superseded
    assert_eq!(s.keepalive_tick(1, false), KeepaliveStep::Stop);
    assert_eq!(s.keepalive, Some(2));
    assert_eq!(s.keepalive_tick(2, false), KeepaliveStep::Probe);
    // a closed handle ends the supervisor, and the session forgets it
    assert_eq!(s.keepalive_tick(2, true), KeepaliveStep::Stop);
    assert_eq!(s.keepalive, None);
    assert_eq!(s.keepalive_tick(2, false), KeepaliveStep::Stop);
}

#[test]
fn exit_status_is_read_as_a_signed_number() {
    assert_eq!(exit_code_of(0), 0);
    assert_eq!(exit_code_of(1), 1);
    assert_eq!(exit_code_of(255), 255);
    assert_eq!(exit_code_of(0x7fff_ffff), i32::MAX);
    assert_eq!(exit_code_of(0x8000_0000), i32::MIN);
    assert_eq!(exit_code_of(0xffff_ffff), -1);
    assert_eq!(exit_code_of(4294967169), -127);
}

#[test]
fn credentials_come_from_the_parameters() {
    let c = params(Some("/k"), 15).credentials();
    assert_eq!(c.username, "alice");
    assert_eq!(c.identity_path, Some("/k".to_string()));
    assert_eq!(c.ki_submethods, None);
}

#[test]
fn execution_errors_are_described() {
    assert_eq!(ExecutionError::Open("refused".to_string()).describe(), "open session: refused");
    assert_eq!(ExecutionError::Request("denied".to_string()).describe(), "exec request: denied");
    assert_eq!(ExecutionError::Channel("reset".to_string()).describe(), "channel failed: reset");
    assert_eq!(ExecutionError::NoExitStatus.describe(), "channel closed before exit status");
    assert_eq!(ExecutionError::OutOfTurn.describe(), "unexpected event");
}

#[test]
fn sessions_made_by_the_library_are_well_formed() {
    let mut s = SessionManager::new(params(Some("/k"), 15));
    assert!(s.check());
    let mut call = streaming(&mut s, 1, "ls");
    s.exec_whitelisted("w", 2).unwrap();
    s.exec_whitelisted("w", 3).unwrap();
    assert!(s.check());
    s.react(&mut call, CallEvent::Message(ChannelMessage::ExitStatus(0)));
    assert!(s.check());
    s.react(&mut call, CallEvent::Closed);
    assert!(s.check());
    // a session that was tampered with is told apart
    s.lock.waiting.push(2);
    assert!(!s.check());
    s.lock.waiting.pop();
    s.lock.waiting.push(3);
    assert!(!s.check());
    s.lock.waiting.pop();
    assert!(s.check());
    s.handle = Some(s.generation.wrapping_add(1));
    assert!(!s.check());
}

#[test]
fn refused_call_ends_with_one_error_event() {
    let mut s = SessionManager::new(params(Some("/k"), 15));
    let refused = s.exec_whitelisted("cat /etc/passwd", 1).unwrap_err();
    assert_eq!(refused.describe(), "command not allowed: cat /etc/passwd");
    assert_eq!(
        refused.event(),
        StreamEvent::Error("command not allowed: cat /etc/passwd".to_string())
    );
    assert!(refused.event().is_terminal());
    assert_eq!(ExecuteError::CallInProgress(4).describe(), "call is under way already");
}
