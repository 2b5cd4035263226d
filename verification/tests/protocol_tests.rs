use deployer::config::{Application, Config};
use deployer::message::DecodeError;
use deployer::protocol::{
    ack_line, automation_command, decode_error_line, error_line, farewell_line, handle_payload,
    spawn_error_line, stream_step, Outcome, StreamEvent, StreamPhase,
};
use deployer::resolve::ResolveError;

fn sample_config() -> Config {
    Config {
        port: 4200,
        default_target: None,
        applications: vec![(
            "web".to_string(),
            Application {
                secret: "s1".to_string(),
                playbooks: vec![("deploy".to_string(), "/pb/deploy.yml".to_string())],
                default_playbook: None,
                default_host: "10.0.0.5".to_string(),
            },
        )],
    }
}

#[test]
fn empty_payload_is_silent() {
    let cfg = sample_config();
    assert!(matches!(handle_payload(Vec::new(), &cfg), Outcome::Silent));
}

#[test]
fn non_json_payload_is_rejected() {
    let cfg = sample_config();
    match handle_payload(b"this is not json".to_vec(), &cfg) {
        Outcome::Reject(line) => assert_eq!(line, "error, could not parse message"),
        _ => panic!("expected a rejection"),
    }
}

#[test]
fn invalid_utf8_payload_is_rejected() {
    let cfg = sample_config();
    match handle_payload(vec![0xff, 0xfe, 0x80], &cfg) {
        Outcome::Reject(line) => assert_eq!(line, "error, could not parse message"),
        _ => panic!("expected a rejection"),
    }
}

#[test]
fn valid_request_launches_with_smart_connection() {
    let cfg = sample_config();
    let payload = br#"{"secret":"s1","target":"web","playbook":"deploy"}"#.to_vec();
    match handle_payload(payload, &cfg) {
        Outcome::Launch(plan) => {
            assert_eq!(plan.ack, "okay, message received\n");
            assert_eq!(
                plan.args,
                vec![
                    "--connection=smart".to_string(),
                    "-i".to_string(),
                    "10.0.0.5,".to_string(),
                    "-e".to_string(),
                    "{}".to_string(),
                    "/pb/deploy.yml".to_string(),
                ]
            );
        },
        _ => panic!("expected a launch"),
    }
}

#[test]
fn localhost_request_launches_with_local_connection() {
    let cfg = sample_config();
    let payload =
        br#"{"secret":"s1","target":"web","playbook":"deploy","host":"localhost"}"#.to_vec();
    match handle_payload(payload, &cfg) {
        Outcome::Launch(plan) => {
            assert_eq!(plan.args[0], "--connection=local");
            assert_eq!(plan.args[2], "localhost,");
        },
        _ => panic!("expected a launch"),
    }
}

#[test]
fn extra_vars_are_forwarded_to_the_tool() {
    let cfg = sample_config();
    let payload =
        br#"{"secret":"s1","target":"web","playbook":"deploy","config":{"rev":"abc"}}"#.to_vec();
    match handle_payload(payload, &cfg) {
        Outcome::Launch(plan) => assert_eq!(plan.args[4], r#"{"rev":"abc"}"#),
        _ => panic!("expected a launch"),
    }
}

#[test]
fn wrong_secret_yields_exactly_the_authentication_line() {
    let cfg = sample_config();
    let payload = br#"{"secret":"wrong","target":"web","playbook":"deploy"}"#.to_vec();
    match handle_payload(payload, &cfg) {
        Outcome::Reject(line) => assert_eq!(line, "error, secret does not match"),
        _ => panic!("expected a rejection"),
    }
}

#[test]
fn unknown_target_line_names_the_target() {
    let cfg = sample_config();
    let payload = br#"{"secret":"s1","target":"db"}"#.to_vec();
    match handle_payload(payload, &cfg) {
        Outcome::Reject(line) => {
            assert_eq!(line, "error, no application matches target 'db'")
        },
        _ => panic!("expected a rejection"),
    }
}

#[test]
fn malformed_extra_vars_line() {
    let cfg = sample_config();
    let payload = br#"{"secret":"s1","target":"web","playbook":"deploy","config":3}"#.to_vec();
    match handle_payload(payload, &cfg) {
        Outcome::Reject(line) => assert_eq!(line, "error, could not parse `config` field"),
        _ => panic!("expected a rejection"),
    }
}

#[test]
fn error_lines_match_each_failing_stage() {
    assert_eq!(error_line(&ResolveError::MissingTarget), "error, missing target");
    assert_eq!(
        error_line(&ResolveError::UnknownApplication { target: "db".to_string() }),
        "error, no application matches target 'db'"
    );
    assert_eq!(
        error_line(&ResolveError::AuthenticationFailed),
        "error, secret does not match"
    );
    assert_eq!(
        error_line(&ResolveError::MissingPlaybook),
        "error, missing playbook (no default)"
    );
    assert_eq!(
        error_line(&ResolveError::UnknownPlaybook),
        "error, no playbook by that name"
    );
    assert_eq!(
        decode_error_line(DecodeError::Malformed),
        "error, could not parse message"
    );
    assert_eq!(
        decode_error_line(DecodeError::ExtraVars),
        "error, could not parse `config` field"
    );
}

#[test]
fn protocol_lines_and_command_name() {
    assert_eq!(ack_line(), "okay, message received\n");
    assert_eq!(farewell_line(), "okay, see ya later!\n");
    assert_eq!(spawn_error_line(), "error, could not spawn ansible-playbook");
    assert_eq!(automation_command(), "ansible-playbook");
}

#[test]
fn stdout_bytes_are_forwarded_immediately() {
    let step = stream_step(StreamPhase::RelayStdout, StreamEvent::StdoutByte(b'x'));
    assert_eq!(step.next, StreamPhase::RelayStdout);
    assert_eq!(step.data, vec![b'x']);
    assert!(step.text.is_none());
}

#[test]
fn stream_runs_in_order_to_finished() {
    let step = stream_step(StreamPhase::RelayStdout, StreamEvent::StdoutEnd);
    assert_eq!(step.next, StreamPhase::DrainStderr);
    assert!(step.data.is_empty());

    let step = stream_step(StreamPhase::DrainStderr, StreamEvent::StderrAll(b"oops\n".to_vec()));
    assert_eq!(step.next, StreamPhase::AwaitExit);
    assert_eq!(step.data, b"oops\n".to_vec());

    let step = stream_step(StreamPhase::AwaitExit, StreamEvent::Exited(Some(0)));
    assert_eq!(step.next, StreamPhase::Finished);
    assert!(step.data.is_empty());
    assert_eq!(step.text, Some("exit status: 0\nokay, see ya later!\n".to_string()));
}

#[test]
fn signal_termination_is_rendered() {
    let step = stream_step(StreamPhase::AwaitExit, StreamEvent::Exited(None));
    assert_eq!(step.text, Some("terminated by signal\nokay, see ya later!\n".to_string()));
}

#[test]
fn full_stream_trace_reaches_finished() {
    let mut phase = StreamPhase::RelayStdout;
    let mut forwarded: Vec<u8> = Vec::new();
    for b in b"PLAY [all]\n" {
        let step = stream_step(phase, StreamEvent::StdoutByte(*b));
        forwarded.extend(step.data);
        assert!(step.text.is_none());
        phase = step.next;
    }
    assert_eq!(forwarded, b"PLAY [all]\n".to_vec());

    phase = stream_step(phase, StreamEvent::StdoutEnd).next;
    let step = stream_step(phase, StreamEvent::StderrAll(Vec::new()));
    assert!(step.data.is_empty());
    let step = stream_step(step.next, StreamEvent::Exited(Some(2)));
    assert_eq!(step.next, StreamPhase::Finished);
    assert_eq!(step.text, Some("exit status: 2\nokay, see ya later!\n".to_string()));
}

#[test]
fn out_of_order_stream_events_change_nothing() {
    let step = stream_step(StreamPhase::RelayStdout, StreamEvent::Exited(Some(1)));
    assert_eq!(step.next, StreamPhase::RelayStdout);
    assert!(step.data.is_empty());
    assert!(step.text.is_none());

    let step = stream_step(StreamPhase::Finished, StreamEvent::StdoutByte(7));
    assert_eq!(step.next, StreamPhase::Finished);
    assert!(step.data.is_empty());
}
