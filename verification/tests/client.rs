use hpcd::client::{
    add_cluster_answer, add_cluster_opening, add_cluster_request, banner, check_ping, choose_host,
    ping_message, ping_reply, refused_prompt_text, submit_answer, submit_request, trim_line_ending, CallFailure, ClientAction,
    ClientLoop, Inbound, PingError, PingResult, PromptStep, RequestError, Round, StatusCode,
};
use hpcd::paths::ExpandError;
use hpcd::protocol::{
    AddClusterInit, AddClusterRequest, Host, MfaAnswer, MfaChallenge, Prompt, StreamEvent,
    SubmitInit, SubmitRequest,
};

fn two_prompts() -> MfaChallenge {
    MfaChallenge {
        name: "Duo".to_string(),
        instructions: "Enter a passcode".to_string(),
        prompts: vec![
            Prompt { text: "Username: ".to_string(), echo: true },
            Prompt { text: "Passcode: ".to_string(), echo: true },
        ],
    }
}

#[test]
fn output_is_copied_and_reading_goes_on() {
    let mut c = ClientLoop::new();
    assert_eq!(c, ClientLoop { exit_code: None, reading: true });
    let a = c.on_item(Inbound::Event(StreamEvent::Stdout(b"hello\n".to_vec())));
    assert_eq!(a, ClientAction::WriteStdout(b"hello\n".to_vec()));
    let a = c.on_item(Inbound::Event(StreamEvent::Stderr(b"warn".to_vec())));
    assert_eq!(a, ClientAction::WriteStderr(b"warn".to_vec()));
    assert_eq!(c, ClientLoop { exit_code: None, reading: true });
}

#[test]
fn exit_code_stops_the_client() {
    let mut c = ClientLoop::new();
    assert_eq!(c.on_item(Inbound::Event(StreamEvent::ExitCode(3))), ClientAction::Stop);
    assert_eq!(c, ClientLoop { exit_code: Some(3), reading: false });
    assert_eq!(c.exit_status(), 3);
    assert_eq!(c.outcome(), Err(CallFailure::ExitCode(3)));
}

#[test]
fn zero_exit_code_is_success() {
    let mut c = ClientLoop::new();
    c.on_item(Inbound::Event(StreamEvent::ExitCode(0)));
    assert_eq!(c.exit_status(), 0);
    assert_eq!(c.outcome(), Ok(()));
    assert!(!c.reading);
}

#[test]
fn negative_exit_code_is_passed_on() {
    let mut c = ClientLoop::new();
    c.on_item(Inbound::Event(StreamEvent::ExitCode(-1)));
    assert_eq!(c.exit_status(), -1);
    assert_eq!(c.outcome(), Err(CallFailure::ExitCode(-1)));
}

#[test]
fn error_event_exits_with_one() {
    let mut c = ClientLoop::new();
    let a = c.on_item(Inbound::Event(StreamEvent::Error("command not allowed: rm".to_string())));
    assert_eq!(a, ClientAction::Complain("server error: command not allowed: rm".to_string()));
    assert_eq!(c, ClientLoop { exit_code: Some(1), reading: false });
    assert_eq!(c.exit_status(), 1);
    assert_eq!(c.outcome(), Err(CallFailure::ExitCode(1)));
}

#[test]
fn broken_stream_exits_with_one() {
    let mut c = ClientLoop::new();
    let a = c.on_item(Inbound::Broken("status: Unavailable".to_string()));
    assert_eq!(a, ClientAction::Complain("stream error: status: Unavailable".to_string()));
    assert_eq!(c.exit_status(), 1);
    assert!(!c.reading);
}

#[test]
fn empty_frame_is_noted_and_skipped() {
    let mut c = ClientLoop::new();
    assert_eq!(c.on_item(Inbound::Empty), ClientAction::NoteEmpty);
    assert_eq!(c, ClientLoop::new());
}

#[test]
fn nothing_is_acted_on_after_a_terminal_event() {
    let mut c = ClientLoop::new();
    c.on_item(Inbound::Event(StreamEvent::ExitCode(5)));
    let after = c;
    for item in [
        Inbound::Event(StreamEvent::Stdout(b"late".to_vec())),
        Inbound::Event(StreamEvent::ExitCode(0)),
        Inbound::Event(StreamEvent::Error("late".to_string())),
        Inbound::Event(StreamEvent::Mfa(two_prompts())),
        Inbound::Empty,
        Inbound::Broken("late".to_string()),
    ] {
        assert_eq!(c.on_item(item), ClientAction::Stop);
        assert_eq!(c, after);
    }
    assert_eq!(c.exit_status(), 5);
}

#[test]
fn challenge_is_put_to_the_user() {
    let mut c = ClientLoop::new();
    let a = c.on_item(Inbound::Event(StreamEvent::Mfa(two_prompts())));
    assert_eq!(a, ClientAction::Ask(two_prompts()));
    assert!(c.reading);
    c.on_answers_sent(true);
    assert!(c.reading);
    c.on_answers_sent(false);
    assert!(!c.reading);
    assert_eq!(c.exit_status(), 0);
}

#[test]
fn stream_end_without_exit_code_is_success() {
    let mut c = ClientLoop::new();
    c.on_item(Inbound::Event(StreamEvent::Stdout(b"x".to_vec())));
    c.on_stream_end();
    assert_eq!(c, ClientLoop { exit_code: None, reading: false });
    assert_eq!(c.outcome(), Ok(()));
}

#[test]
fn line_endings_are_trimmed() {
    assert_eq!(trim_line_ending("secret\n"), "secret");
    assert_eq!(trim_line_ending("secret\r\n"), "secret");
    assert_eq!(trim_line_ending("secret\n\r\n\r"), "secret");
    assert_eq!(trim_line_ending("secret"), "secret");
    assert_eq!(trim_line_ending("two words \n"), "two words ");
    assert_eq!(trim_line_ending("a\nb\n"), "a\nb");
    assert_eq!(trim_line_ending("\n"), "");
    assert_eq!(trim_line_ending(""), "");
    assert_eq!(trim_line_ending("pässwörd\r\n"), "pässwörd");
}

#[test]
fn banner_shows_name_and_instructions() {
    assert_eq!(
        banner(&two_prompts()),
        vec!["".to_string(), "MFA: Duo".to_string(), "Enter a passcode".to_string()]
    );
    let bare = MfaChallenge { name: String::new(), instructions: String::new(), prompts: Vec::new() };
    assert_eq!(banner(&bare), vec!["".to_string()]);
    let named = MfaChallenge { name: "otp".to_string(), instructions: String::new(), prompts: Vec::new() };
    assert_eq!(banner(&named), vec!["".to_string(), "MFA: otp".to_string()]);
    let told = MfaChallenge { name: String::new(), instructions: "type it".to_string(), prompts: Vec::new() };
    assert_eq!(banner(&told), vec!["".to_string(), "type it".to_string()]);
}

#[test]
fn round_asks_in_order_and_answers_in_order() {
    let mut round = Round::open(two_prompts());
    assert_eq!(round.next(), PromptStep::Ask("Username: ".to_string()));
    assert_eq!(round.clone().close(), None);
    assert!(round.supply("alice\n"));
    assert_eq!(round.next(), PromptStep::Ask("Passcode: ".to_string()));
    assert!(round.supply("123456\r\n"));
    assert_eq!(round.next(), PromptStep::Complete);
    assert!(!round.supply("extra\n"));
    let answer = round.close().unwrap();
    assert_eq!(answer, MfaAnswer { responses: vec!["alice".to_string(), "123456".to_string()] });
    assert!(answer.fits(&two_prompts()));
}

#[test]
fn hidden_prompt_is_refused_not_echoed() {
    let challenge = MfaChallenge {
        name: String::new(),
        instructions: String::new(),
        prompts: vec![
            Prompt { text: "Username: ".to_string(), echo: true },
            Prompt { text: "Password: ".to_string(), echo: false },
        ],
    };
    let mut round = Round::open(challenge);
    assert_eq!(round.next(), PromptStep::Ask("Username: ".to_string()));
    assert!(round.supply("alice\n"));
    assert_eq!(round.next(), PromptStep::Refuse);
    assert!(!round.supply("hunter2\n"));
    assert_eq!(round.responses, vec!["alice".to_string()]);
    assert_eq!(round.close(), None);
}

#[test]
fn round_without_prompts_is_complete_at_once() {
    let round = Round::open(MfaChallenge {
        name: String::new(),
        instructions: String::new(),
        prompts: Vec::new(),
    });
    assert_eq!(round.next(), PromptStep::Complete);
    assert_eq!(round.close(), Some(MfaAnswer { responses: Vec::new() }));
}

#[test]
fn ping_passes_on_pong_only() {
    assert_eq!(ping_message(), "ping");
    assert_eq!(check_ping(PingResult::Reply("pong".to_string())), Ok(()));
    assert_eq!(
        check_ping(PingResult::Reply("PONG".to_string())),
        Err(PingError::UnexpectedReply("PONG".to_string()))
    );
    assert_eq!(
        check_ping(PingResult::Reply(String::new())),
        Err(PingError::UnexpectedReply(String::new()))
    );
    assert_eq!(
        check_ping(PingResult::Reply("pong ".to_string())),
        Err(PingError::UnexpectedReply("pong ".to_string()))
    );
    assert_eq!(
        check_ping(PingResult::Reply("ping".to_string())),
        Err(PingError::UnexpectedReply("ping".to_string()))
    );
}

#[test]
fn refused_ping_is_told_apart_by_code() {
    let refused = |code| PingResult::Refused {
        code,
        message: "bad".to_string(),
        status: "status: X, message: bad".to_string(),
    };
    assert_eq!(
        check_ping(refused(StatusCode::InvalidArgument)),
        Err(PingError::InvalidArgument("bad".to_string()))
    );
    assert_eq!(
        check_ping(refused(StatusCode::Cancelled)),
        Err(PingError::Cancelled("bad".to_string()))
    );
    assert_eq!(
        check_ping(refused(StatusCode::Other)),
        Err(PingError::Failed("status: X, message: bad".to_string()))
    );
    assert_eq!(
        check_ping(PingResult::TimedOut("deadline has elapsed".to_string())),
        Err(PingError::TimedOut("deadline has elapsed".to_string()))
    );
}

#[test]
fn ping_errors_are_described() {
    assert_eq!(
        PingError::InvalidArgument("m".to_string()).describe(),
        "invalid argument error - m"
    );
    assert_eq!(PingError::Cancelled("m".to_string()).describe(), "operation was canceled - m");
    assert_eq!(PingError::Failed("s".to_string()).describe(), "occured: s");
    assert_eq!(
        PingError::TimedOut("deadline has elapsed".to_string()).describe(),
        "Cancelled request after deadline has elapsed seconds"
    );
    assert_eq!(
        PingError::UnexpectedReply("PONG".to_string()).describe(),
        "invalid response from server: expected 'pong', got 'PONG'"
    );
}

#[test]
fn exactly_one_host_must_be_given() {
    assert_eq!(
        choose_host(Some("h".to_string()), None),
        Ok(Host::Hostname("h".to_string()))
    );
    assert_eq!(
        choose_host(None, Some("10.1.2.3".to_string())),
        Ok(Host::IpAddr("10.1.2.3".to_string()))
    );
    assert_eq!(choose_host(None, None), Err(RequestError::NoHost));
    assert_eq!(
        choose_host(Some("h".to_string()), Some("10.1.2.3".to_string())),
        Err(RequestError::TwoHosts)
    );
}

#[test]
fn add_cluster_opening_carries_every_field() {
    let r = add_cluster_opening(
        "alpha",
        "alice",
        Host::Hostname("h".to_string()),
        "/home/alice/.ssh/id_ed25519".to_string(),
        2222,
    );
    assert_eq!(
        r,
        AddClusterRequest::Init(AddClusterInit {
            hostid: "alpha".to_string(),
            username: "alice".to_string(),
            host: Host::Hostname("h".to_string()),
            identity_path: Some("/home/alice/.ssh/id_ed25519".to_string()),
            port: 2222,
        })
    );
}

#[test]
fn add_cluster_request_keeps_a_plain_identity_path() {
    let r = add_cluster_request("alpha", "alice", None, Some("10.0.0.7".to_string()), "/keys/id", 22);
    assert_eq!(
        r,
        Ok(AddClusterRequest::Init(AddClusterInit {
            hostid: "alpha".to_string(),
            username: "alice".to_string(),
            host: Host::IpAddr("10.0.0.7".to_string()),
            identity_path: Some("/keys/id".to_string()),
            port: 22,
        }))
    );
}

#[test]
fn add_cluster_request_expands_the_tilde() {
    let r = add_cluster_request("alpha", "alice", Some("h".to_string()), None, "~/.ssh/id_ed25519", 22);
    let expected = match dirs::home_dir() {
        Some(home) => format!("{}/.ssh/id_ed25519", home.display()),
        None => "~/.ssh/id_ed25519".to_string(),
    };
    match r {
        Ok(AddClusterRequest::Init(init)) => {
            assert_eq!(init.identity_path, Some(expected));
            assert_eq!(init.host, Host::Hostname("h".to_string()));
            assert_eq!(init.username, "alice");
            assert_eq!(init.hostid, "alpha");
            assert_eq!(init.port, 22);
        }
        other => panic!("unexpected {:?}", other),
    }
}

#[test]
fn add_cluster_request_checks_the_host_first() {
    assert_eq!(
        add_cluster_request("alpha", "alice", None, None, "$HPCD_TEST_NO_SUCH_VARIABLE/id", 22),
        Err(RequestError::NoHost)
    );
    assert_eq!(
        add_cluster_request(
            "alpha",
            "alice",
            Some("h".to_string()),
            Some("10.0.0.7".to_string()),
            "/keys/id",
            22
        ),
        Err(RequestError::TwoHosts)
    );
}

#[test]
fn add_cluster_request_fails_on_an_unknown_variable() {
    let r = add_cluster_request(
        "alpha",
        "alice",
        Some("h".to_string()),
        None,
        "$HPCD_TEST_NO_SUCH_VARIABLE/id",
        22,
    );
    match r {
        Err(RequestError::Expansion(e)) => assert_eq!(e.var_name, "HPCD_TEST_NO_SUCH_VARIABLE"),
        other => panic!("unexpected {:?}", other),
    }
}

#[test]
fn submit_messages() {
    assert_eq!(
        submit_request("alpha", "job.sh", "/scratch/job.sh"),
        SubmitRequest::Init(SubmitInit {
            hostid: "alpha".to_string(),
            local_path: "job.sh".to_string(),
            remote_path: "/scratch/job.sh".to_string(),
        })
    );
    let answer = MfaAnswer { responses: vec!["123456".to_string()] };
    assert_eq!(submit_answer(answer.clone()), SubmitRequest::Mfa(answer.clone()));
    assert_eq!(add_cluster_answer(answer.clone()), AddClusterRequest::Mfa(answer));
}

#[test]
fn daemon_answers_ping_with_pong() {
    assert_eq!(ping_reply("ping"), Some("pong".to_string()));
    assert_eq!(ping_reply("PING"), None);
    assert_eq!(ping_reply(""), None);
    assert_eq!(ping_reply("pong"), None);
    let reply = ping_reply(ping_message()).unwrap();
    assert_eq!(check_ping(PingResult::Reply(reply)), Ok(()));
}

#[test]
fn request_errors_are_described() {
    assert_eq!(RequestError::NoHost.describe(), "both hostname and ip address can't be none");
    assert_eq!(RequestError::TwoHosts.describe(), "hostname and ip address can't both be given");
    assert_eq!(
        RequestError::Expansion(ExpandError {
            var_name: "KEYS".to_string(),
            cause: "environment variable not found".to_string(),
        })
        .describe(),
        "error looking key 'KEYS' up: environment variable not found"
    );
    assert_eq!(refused_prompt_text(), "Method not supported");
}
