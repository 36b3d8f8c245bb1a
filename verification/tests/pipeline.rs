use rjudge::codec::DecodeError;
use rjudge::config::Settings;
use rjudge::gateway::{
    accept_submission, dispatch, install_reply, package_text, packages_reply, publication,
    refusal_status, render_listing,
    root_reply, runtimes_reply, submission_reply, HttpReply, Outgoing, Submission,
};
use rjudge::model::{ExecutionResult, Job, Package, Runtime, SourceFile};
use rjudge::trace::replay;
use rjudge::worker::{
    classify, decode_body, engine_event, start, step, transition, Action, Decoded, Event, Report, WorkerState,
};

const PYTHON_JOB: &str = "{\"language\":\"python\",\"version\":\"3.9.5\",\"files\":[{\"name\":\"main.py\",\"content\":\"print(1+1)\",\"encoding\":\"utf8\"}],\"stdin\":\"\",\"args\":[],\"compile_timeout\":10000,\"run_timeout\":3000,\"compile_memory_limit\":-1,\"run_memory_limit\":-1}";

fn python_job() -> Job {
    Job {
        language: "python".to_string(),
        version: "3.9.5".to_string(),
        files: vec![SourceFile::new(
            "main.py".to_string(),
            "print(1+1)".to_string(),
            "utf8".to_string(),
        )],
        stdin: String::new(),
        args: vec![],
        compile_timeout: 10000,
        run_timeout: 3000,
        compile_memory_limit: -1,
        run_memory_limit: -1,
    }
}

fn job_in(language: &str) -> Job {
    let mut job = python_job();
    job.language = language.to_string();
    job
}

fn two() -> ExecutionResult {
    ExecutionResult {
        stdout: "2\n".to_string(),
        stderr: String::new(),
        compile_output: None,
        exit_code: Some(0),
        signal: None,
    }
}

fn reply(status: u16, body: &str) -> HttpReply {
    HttpReply { status, body: body.to_string() }
}

/// Drives a worker through one delivery with `step`, with the given engine
/// outcome for a job that reaches the engine.
fn handle(
    state: WorkerState,
    tag: u64,
    body: &[u8],
    engine: Event,
    log: &mut Vec<Action>,
) -> WorkerState {
    let (state, action) = step(state, Event::Delivery { tag, body: Some(body.to_vec()) });
    log.push(action);
    let (state, action) = step(state, Event::Acked);
    log.push(action.clone());
    let state = match action {
        Action::Execute { .. } => {
            let (state, action) = step(state, engine);
            log.push(action);
            state
        }
        _ => state,
    };
    let (state, action) = step(state, Event::Reported);
    log.push(action);
    state
}

#[test]
fn job_is_written_field_by_field() {
    let bytes = python_job().encode().unwrap();
    assert_eq!(String::from_utf8(bytes).unwrap(), PYTHON_JOB);
}

#[test]
fn job_is_read_field_by_field() {
    assert_eq!(Job::decode(PYTHON_JOB.as_bytes()), Ok(python_job()));
}

#[test]
fn written_job_reads_back_equal() {
    let mut job = python_job();
    job.stdin = "4 2\n".to_string();
    job.args = vec!["-v".to_string(), "--fast".to_string()];
    job.files.push(SourceFile::new(
        "util.py".to_string(),
        "x = \"quoted\"\n".to_string(),
        "utf8".to_string(),
    ));
    job.run_memory_limit = 1 << 20;
    let bytes = job.encode().unwrap();
    assert_eq!(Job::decode(&bytes), Ok(job));
}

#[test]
fn body_that_is_no_json_is_malformed() {
    assert_eq!(Job::decode(b"not json"), Err(DecodeError::Syntax));
    assert_eq!(Job::decode(b"{\"language\" \"python\"}"), Err(DecodeError::Syntax));
    assert_eq!(Job::decode(b""), Err(DecodeError::Eof));
    assert_eq!(Job::decode(b"{\"language\":\"python\""), Err(DecodeError::Eof));
}

#[test]
fn json_of_another_shape_is_malformed() {
    assert_eq!(Job::decode(b"{\"language\":\"python\"}"), Err(DecodeError::Data));
    assert_eq!(Job::decode(b"[1,2,3]"), Err(DecodeError::Data));
    assert_eq!(Job::decode(b"{\"language\":1}"), Err(DecodeError::Data));
}

#[test]
fn job_finds_its_runtime() {
    let runtimes = vec![
        Runtime { language: "rust".to_string(), version: "1.68.2".to_string(), aliases: vec![] },
        Runtime {
            language: "python".to_string(),
            version: "3.9.5".to_string(),
            aliases: vec!["py".to_string()],
        },
    ];
    assert!(python_job().known_to(&runtimes));
    assert!(!job_in("nonexistent").known_to(&runtimes));
    assert!(!python_job().known_to(&vec![]));
    let mut older = python_job();
    older.version = "3.8.0".to_string();
    assert!(!older.known_to(&runtimes));
}

#[test]
fn result_with_zero_exit_succeeded() {
    assert!(two().succeeded());
    let mut failed = two();
    failed.exit_code = Some(1);
    assert!(!failed.succeeded());
    failed.exit_code = None;
    assert!(!failed.succeeded());
}

#[test]
fn local_settings_have_the_known_values() {
    let s = Settings::local();
    assert_eq!(s.broker_host, "localhost");
    assert_eq!(s.broker_port, 5672);
    assert_eq!(s.broker_user, "guest");
    assert_eq!(s.broker_password, "guest");
    assert_eq!(s.queue_name, "submission");
    assert_eq!(s.exchange_name, "amq.topic");
    assert_eq!(s.routing_key, "amqprs.example");
    assert_eq!(s.engine_base_url, "http://localhost:2000/api/v2");
    assert_eq!(s.listen_address, "0.0.0.0:3000");
}

#[test]
fn settings_agree_on_the_queue_only() {
    let gateway = Settings::local();
    let mut worker = Settings::local();
    worker.listen_address = "127.0.0.1:1".to_string();
    worker.broker_host = "broker".to_string();
    assert!(gateway.agrees_with(&worker));
    worker.routing_key = "other".to_string();
    assert!(!gateway.agrees_with(&worker));
    let mut worker = Settings::local();
    worker.queue_name = "jobs".to_string();
    assert!(!gateway.agrees_with(&worker));
    let mut worker = Settings::local();
    worker.exchange_name = "amq.direct".to_string();
    assert!(!gateway.agrees_with(&worker));
}

#[test]
fn root_greets() {
    assert_eq!(root_reply(), reply(200, "Hello, rjudge!"));
}

#[test]
fn listing_puts_commas_between_items() {
    assert_eq!(render_listing("Nothing:", &vec![]), "Nothing: []");
    assert_eq!(render_listing("One:", &vec!["a".to_string()]), "One: [a]");
    assert_eq!(
        render_listing("Three:", &vec!["a".to_string(), "".to_string(), "c".to_string()]),
        "Three: [a, , c]"
    );
}

#[test]
fn runtimes_are_listed_by_language_and_version() {
    let runtimes = vec![
        Runtime {
            language: "python".to_string(),
            version: "3.9.5".to_string(),
            aliases: vec!["py".to_string()],
        },
        Runtime { language: "rust".to_string(), version: "1.68.2".to_string(), aliases: vec![] },
    ];
    assert_eq!(
        runtimes_reply(Some(runtimes)),
        reply(200, "Available runtimes: [python: 3.9.5, rust: 1.68.2]")
    );
    assert_eq!(runtimes_reply(Some(vec![])), reply(200, "Available runtimes: []"));
}

#[test]
fn packages_are_listed_in_developer_form() {
    let packages = vec![
        Package { language: "python".to_string(), version: "3.9.5".to_string(), installed: true },
        Package { language: "go".to_string(), version: "1.16.2".to_string(), installed: false },
    ];
    let want = "Available packages: [Package {\n    language: \"python\",\n    version: \"3.9.5\",\n    installed: true,\n}, Package {\n    language: \"go\",\n    version: \"1.16.2\",\n    installed: false,\n}]";
    assert_eq!(packages_reply(Some(packages)), reply(200, want));
    assert_eq!(packages_reply(Some(vec![])), reply(200, "Available packages: []"));
}

#[test]
fn unreachable_engine_gives_500_on_packages() {
    assert_eq!(packages_reply(None), reply(500, "Failed to fetch packages"));
}

#[test]
fn install_reply_follows_the_engine() {
    assert_eq!(install_reply(true), reply(200, "Package installed"));
    assert_eq!(install_reply(false), reply(500, "Failed to install package"));
}

#[test]
fn submission_reply_follows_the_broker() {
    assert_eq!(submission_reply(true), reply(200, "Submission received"));
    assert_eq!(submission_reply(false), reply(500, "Failed to publish submission"));
}

#[test]
fn valid_submission_is_published_once_and_reads_back() {
    let settings = Settings::local();
    let plan = accept_submission(&settings, PYTHON_JOB.as_bytes());
    match plan {
        Submission::Publish { message } => {
            assert_eq!(message.exchange, "amq.topic");
            assert_eq!(message.routing_key, "amqprs.example");
            assert_eq!(Job::decode(&message.content), Ok(python_job()));
        }
        Submission::Refuse { reply } => panic!("refused: {:?}", reply),
    }
    assert_eq!(submission_reply(true).status, 200);
}

#[test]
fn submission_with_spaces_is_published_in_compact_form() {
    let spaced = PYTHON_JOB.replace(",\"", " ,\n \"");
    let plan = accept_submission(&Settings::local(), spaced.as_bytes());
    assert_eq!(
        plan,
        Submission::Publish {
            message: Outgoing {
                exchange: "amq.topic".to_string(),
                routing_key: "amqprs.example".to_string(),
                content: PYTHON_JOB.as_bytes().to_vec(),
            }
        }
    );
}

#[test]
fn submission_follows_the_settings() {
    let mut settings = Settings::local();
    settings.exchange_name = "jobs.topic".to_string();
    settings.routing_key = "jobs.new".to_string();
    let plan = publication(&settings, Some(vec![1, 2, 3]));
    assert_eq!(
        plan,
        Submission::Publish {
            message: Outgoing {
                exchange: "jobs.topic".to_string(),
                routing_key: "jobs.new".to_string(),
                content: vec![1, 2, 3],
            }
        }
    );
}

#[test]
fn malformed_submission_is_refused_before_publishing() {
    let settings = Settings::local();
    for body in [&b"{"[..], &b"hello"[..], &b"{\"language\":}"[..], &b""[..]] {
        assert_eq!(
            accept_submission(&settings, body),
            Submission::Refuse { reply: reply(400, "Malformed submission") }
        );
    }
    for body in [&b"{\"language\":1}"[..], &b"{}"[..], &b"\"python\""[..]] {
        assert_eq!(
            accept_submission(&settings, body),
            Submission::Refuse { reply: reply(422, "Malformed submission") }
        );
    }
    for error in [DecodeError::Io, DecodeError::Syntax, DecodeError::Eof] {
        assert_eq!(refusal_status(error), 400);
        assert_eq!(
            dispatch(&settings, Err(error)),
            Submission::Refuse { reply: reply(400, "Malformed submission") }
        );
    }
    assert_eq!(refusal_status(DecodeError::Data), 422);
    assert_eq!(
        dispatch(&settings, Err(DecodeError::Data)),
        Submission::Refuse { reply: reply(422, "Malformed submission") }
    );
}

#[test]
fn unwritable_job_is_a_failed_publish() {
    assert_eq!(
        publication(&Settings::local(), None),
        Submission::Refuse { reply: reply(500, "Failed to publish submission") }
    );
}

#[test]
fn unknown_language_is_published_all_the_same() {
    let body = job_in("nonexistent").encode().unwrap();
    match accept_submission(&Settings::local(), &body) {
        Submission::Publish { message } => assert_eq!(message.content, body),
        Submission::Refuse { reply } => panic!("refused: {:?}", reply),
    }
}

#[test]
fn worker_starts_by_connecting() {
    assert_eq!(start(), (WorkerState::Connecting, Action::Connect));
    assert_eq!(
        transition(WorkerState::Connecting, Event::Connected),
        (WorkerState::Consuming, Action::Subscribe)
    );
}

#[test]
fn failed_connection_is_fatal() {
    let (state, action) = transition(WorkerState::Connecting, Event::ConnectFailed);
    assert_eq!((state.clone(), action), (WorkerState::Stopped, Action::Exit));
    assert_eq!(transition(state, Event::Connected), (WorkerState::Stopped, Action::Ignore));
}

#[test]
fn closed_stream_and_failed_ack_stop_the_worker() {
    assert_eq!(
        transition(WorkerState::Consuming, Event::StreamClosed),
        (WorkerState::Stopped, Action::Exit)
    );
    assert_eq!(
        transition(WorkerState::Acknowledging { body: vec![1] }, Event::AckFailed),
        (WorkerState::Stopped, Action::Exit)
    );
}

#[test]
fn delivery_without_content_is_passed_over() {
    assert_eq!(
        transition(WorkerState::Consuming, Event::Delivery { tag: 4, body: None }),
        (WorkerState::Consuming, Action::Receive)
    );
}

#[test]
fn message_is_acknowledged_before_it_is_read() {
    let body = b"garbage".to_vec();
    let (state, action) =
        transition(WorkerState::Consuming, Event::Delivery { tag: 9, body: Some(body.clone()) });
    assert_eq!(action, Action::Ack { tag: 9 });
    assert_eq!(state, WorkerState::Acknowledging { body: body.clone() });
    assert_eq!(
        transition(state, Event::Acked),
        (WorkerState::Decoding { body }, Action::Decode)
    );
}

#[test]
fn event_out_of_turn_is_ignored() {
    assert_eq!(
        transition(WorkerState::Executing, Event::Delivery { tag: 1, body: Some(vec![]) }),
        (WorkerState::Executing, Action::Ignore)
    );
    assert_eq!(
        transition(WorkerState::Consuming, Event::EngineFailed),
        (WorkerState::Consuming, Action::Ignore)
    );
    assert_eq!(
        transition(WorkerState::Reporting, Event::Acked),
        (WorkerState::Reporting, Action::Ignore)
    );
}

#[test]
fn body_is_classified() {
    assert_eq!(decode_body(PYTHON_JOB.as_bytes()), Decoded::Accepted { job: python_job() });
    assert_eq!(decode_body(b"{}"), Decoded::Rejected { reason: DecodeError::Data });
    assert_eq!(decode_body(b"{"), Decoded::Rejected { reason: DecodeError::Eof });
    assert_eq!(classify(Ok(python_job())), Decoded::Accepted { job: python_job() });
    assert_eq!(
        classify(Err(DecodeError::Syntax)),
        Decoded::Rejected { reason: DecodeError::Syntax }
    );
}

#[test]
fn malformed_message_is_acknowledged_and_dropped() {
    let mut log = Vec::new();
    let state = handle(WorkerState::Consuming, 7, b"{broken", Event::EngineFailed, &mut log);
    assert_eq!(state, WorkerState::Consuming);
    assert_eq!(
        log,
        vec![
            Action::Ack { tag: 7 },
            Action::Log { report: Report::DecodeFailed { reason: DecodeError::Syntax } },
            Action::Receive,
        ]
    );
}

#[test]
fn malformed_message_replayed() {
    let events = vec![
        Event::Delivery { tag: 7, body: Some(b"{broken".to_vec()) },
        Event::Acked,
        Event::Decoded { outcome: Decoded::Rejected { reason: DecodeError::Syntax } },
        Event::Reported,
    ];
    assert_eq!(
        replay(WorkerState::Consuming, events),
        (
            WorkerState::Consuming,
            vec![
                Action::Ack { tag: 7 },
                Action::Decode,
                Action::Log { report: Report::DecodeFailed { reason: DecodeError::Syntax } },
                Action::Receive,
            ]
        )
    );
}

#[test]
fn jobs_run_in_receipt_order() {
    let languages = ["python", "rust", "go", "lua"];
    let mut log = Vec::new();
    let mut state = WorkerState::Consuming;
    for (i, language) in languages.iter().enumerate() {
        let body = job_in(language).encode().unwrap();
        let engine = if i % 2 == 0 {
            Event::EngineSucceeded { result: two() }
        } else {
            Event::EngineFailed
        };
        state = handle(state, i as u64, &body, engine, &mut log);
        assert_eq!(state, WorkerState::Consuming);
    }
    let started: Vec<String> = log
        .iter()
        .filter_map(|a| match a {
            Action::Execute { job } => Some(job.language.clone()),
            _ => None,
        })
        .collect();
    assert_eq!(started, vec!["python", "rust", "go", "lua"]);
    let acked: Vec<u64> = log
        .iter()
        .filter_map(|a| match a {
            Action::Ack { tag } => Some(*tag),
            _ => None,
        })
        .collect();
    assert_eq!(acked, vec![0, 1, 2, 3]);
    assert_eq!(log.len(), 16);
}

#[test]
fn duplicate_delivery_is_handled_twice() {
    let body = PYTHON_JOB.as_bytes();
    let mut log = Vec::new();
    let state =
        handle(WorkerState::Consuming, 1, body, Event::EngineSucceeded { result: two() }, &mut log);
    let state = handle(state, 2, body, Event::EngineSucceeded { result: two() }, &mut log);
    assert_eq!(state, WorkerState::Consuming);
    let once = |tag: u64| {
        vec![
            Action::Ack { tag },
            Action::Execute { job: python_job() },
            Action::Log { report: Report::Succeeded { result: two() } },
            Action::Receive,
        ]
    };
    let mut want = once(1);
    want.extend(once(2));
    assert_eq!(log, want);
}

#[test]
fn replay_of_nothing_changes_nothing() {
    assert_eq!(replay(WorkerState::Executing, vec![]), (WorkerState::Executing, vec![]));
}

#[test]
fn python_submission_runs_to_a_logged_success() {
    let plan = accept_submission(&Settings::local(), PYTHON_JOB.as_bytes());
    let content = match plan {
        Submission::Publish { message } => message.content,
        Submission::Refuse { reply } => panic!("refused: {:?}", reply),
    };
    assert_eq!(submission_reply(true), reply(200, "Submission received"));
    let (state, action) = step(start().0, Event::Connected);
    assert_eq!(action, Action::Subscribe);
    let (state, action) = step(state, Event::Delivery { tag: 1, body: Some(content) });
    assert_eq!(action, Action::Ack { tag: 1 });
    let (state, action) = step(state, Event::Acked);
    assert_eq!(action, Action::Execute { job: python_job() });
    assert_eq!(state, WorkerState::Executing);
    let result = two();
    assert!(result.succeeded());
    let (state, action) = step(state, Event::EngineSucceeded { result });
    assert_eq!(action, Action::Log { report: Report::Succeeded { result: two() } });
    assert_eq!(step(state, Event::Reported), (WorkerState::Consuming, Action::Receive));
}

#[test]
fn failed_engine_call_is_logged_and_the_worker_goes_on() {
    let first = job_in("nonexistent").encode().unwrap();
    let mut log = Vec::new();
    let state = handle(WorkerState::Consuming, 1, &first, Event::EngineFailed, &mut log);
    assert_eq!(state, WorkerState::Consuming);
    assert_eq!(
        log,
        vec![
            Action::Ack { tag: 1 },
            Action::Execute { job: job_in("nonexistent") },
            Action::Log { report: Report::ExecutionFailed },
            Action::Receive,
        ]
    );
    let mut log = Vec::new();
    let state = handle(
        state,
        2,
        PYTHON_JOB.as_bytes(),
        Event::EngineSucceeded { result: two() },
        &mut log,
    );
    assert_eq!(state, WorkerState::Consuming);
    assert_eq!(log[1], Action::Execute { job: python_job() });
    assert_eq!(log[2], Action::Log { report: Report::Succeeded { result: two() } });
}

#[test]
fn unreachable_engine_gives_500_on_runtimes_and_the_next_request_is_served() {
    assert_eq!(runtimes_reply(None), reply(500, "Failed to fetch runtimes"));
    assert_eq!(root_reply(), reply(200, "Hello, rjudge!"));
    assert_eq!(runtimes_reply(Some(vec![])), reply(200, "Available runtimes: []"));
}

#[test]
fn only_status_200_is_an_engine_success() {
    assert_eq!(engine_event(Some((200, two()))), Event::EngineSucceeded { result: two() });
    assert_eq!(engine_event(Some((400, two()))), Event::EngineFailed);
    assert_eq!(engine_event(Some((500, two()))), Event::EngineFailed);
    assert_eq!(engine_event(Some((201, two()))), Event::EngineFailed);
    assert_eq!(engine_event(None), Event::EngineFailed);
}

#[test]
fn package_text_escapes_its_strings() {
    let package = Package {
        language: "c\"\n".to_string(),
        version: "back\\slash".to_string(),
        installed: false,
    };
    assert_eq!(
        package_text(&package),
        "Package {\n    language: \"c\\\"\\n\",\n    version: \"back\\\\slash\",\n    installed: false,\n}"
    );
}
