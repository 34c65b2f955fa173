//! The driver: its command line, its applications and the order of its calls.

use ngtcp2::driver::{
    base_settings, client, client_config, failure, flush_after, invalid_server_address, new_scid,
    parse_args, random_scid, scid_with_token, server, timed_out, wait_action, ClientMode, DriverStep,
    EchoClientApp, EchoServerApp, Script, ServerOptions, StackSettings, StreamReader, WaitAction,
};

fn args(list: &[&str]) -> Vec<String> {
    list.iter().map(|s| s.to_string()).collect()
}

#[test]
fn flags_may_stand_anywhere() {
    let (positional, options) =
        parse_args(&args(&["--early-data", "a", "--migration", "b", "-c"])).expect("a value");
    assert_eq!(positional, args(&["a", "b", "-c"]));
    assert!(options.early_data && options.migration);
    let (_, options) = parse_args(&args(&["--migrate"])).expect("a value");
    assert!(options.migration && !options.early_data);
}

#[test]
fn the_first_unknown_flag_is_reported() {
    assert_eq!(
        parse_args(&args(&["a", "--x", "--y"])).expect_err("an error"),
        "unknown option: --x"
    );
    assert_eq!(parse_args(&args(&["--"])).expect_err("an error"), "unknown option: --");
}

#[test]
fn command_lines_of_clients() {
    let command = match client(&args(&["127.0.0.1:1", "ca.pem", "h\u{e9}"])) {
        Ok(command) => command,
        Err(_) => panic!("unexpected"),
    };
    assert_eq!(command.server_addr, "127.0.0.1:1");
    assert_eq!(command.ca_cert_path, "ca.pem");
    assert_eq!(command.payload, "h\u{e9}".as_bytes());
    assert_eq!(command.mode, ClientMode::Plain);
    for (flag, mode) in [("--early-data", ClientMode::EarlyData), ("--migrate", ClientMode::Migrate)] {
        match client(&args(&["a", "b", "c", flag])) {
            Ok(command) => assert_eq!(command.mode, mode),
            Err(_) => panic!("unexpected"),
        }
    }
    match client(&args(&["a", "b", "c", "--early-data", "--migrate"])) {
        Err(refusal) => {
            assert_eq!(
                refusal.message.as_deref(),
                Some("--early-data and --migrate cannot be used together")
            );
            assert!(!refusal.usage);
        }
        Ok(_) => panic!("unexpected"),
    }
    match client(&args(&["a", "b"])) {
        Err(refusal) => {
            assert_eq!(refusal.message, None);
            assert!(refusal.usage);
        }
        Ok(_) => panic!("unexpected"),
    }
    match client(&args(&["--z"])) {
        Err(refusal) => {
            assert_eq!(refusal.message.as_deref(), Some("unknown option: --z"));
            assert!(refusal.usage);
        }
        Ok(_) => panic!("unexpected"),
    }
    let refusal = invalid_server_address("nowhere");
    assert_eq!(refusal.message.as_deref(), Some("invalid server address: nowhere"));
    assert!(!refusal.usage);
}

#[test]
fn command_lines_of_servers() {
    match server(&args(&["cert", "--early-data", "key", "--migration"])) {
        Ok(command) => {
            assert_eq!((command.cert_path.as_str(), command.key_path.as_str()), ("cert", "key"));
            assert!(command.options.early_data && command.options.migration);
        }
        Err(_) => panic!("unexpected"),
    }
    assert!(server(&args(&["cert"])).is_err());
}

#[test]
fn a_client_application_sends_once_and_reads_to_the_end() {
    let mut app = EchoClientApp::new(b"ping".to_vec());
    assert!(!app.send_request(false));
    assert!(app.send_request(true));
    app.request_sent();
    assert!(!app.send_request(true));
    app.read(b"pi", false);
    assert_eq!(app.process_reads(), None);
    assert_eq!(
        app.on_conn_close(None).as_deref(),
        Some("the connection closed before the echo arrived")
    );
    assert_eq!(app.on_conn_close(Some("boom")).as_deref(), Some("the connection failed: boom"));
    app.read(b"ng", true);
    assert!(app.should_act());
    assert_eq!(app.process_reads(), Some(b"ping".to_vec()));
    assert!(!app.should_act());
    assert_eq!(app.process_reads(), None);
    assert_eq!(app.on_conn_close(Some("boom")), None);
    assert!(app.finish());
    assert!(!app.finish());
}

#[test]
fn a_server_application_reports_once() {
    let mut app = EchoServerApp::new(ServerOptions { early_data: true, migration: true });
    assert!(!app.issue_extra_scid(false));
    assert!(app.issue_extra_scid(true));
    app.extra_scid_sent();
    assert!(!app.issue_extra_scid(true));
    assert_eq!(app.report_peer_close(true, false, false), None);
    assert_eq!(
        app.stream_echoed(b"hello", true).as_deref(),
        Some("5 bytes (early data: true)")
    );
    assert_eq!(app.stream_echoed(b"again", false), None);
    assert_eq!(app.report_peer_close(false, false, false), None);
    assert_eq!(app.report_peer_close(true, true, false).as_deref(), Some("peer closed"));
    assert_eq!(app.report_peer_close(true, true, false), None);

    let mut app = EchoServerApp::new(ServerOptions { early_data: false, migration: false });
    assert!(!app.issue_extra_scid(true));
    assert_eq!(app.stream_echoed(b"", false).as_deref(), Some("0 bytes (early data: false)"));
    assert_eq!(
        app.report_peer_close(false, false, true).as_deref(),
        Some("connection ended without a peer close")
    );
}

#[test]
fn streams_are_put_together() {
    let mut reader = StreamReader::new();
    reader.push(b"a", true);
    reader.push(b"b", false);
    assert_eq!(reader.data, b"ab");
    assert!(reader.fin);
}

#[test]
fn waiting_ends_with_success_or_time() {
    assert_eq!(wait_action(true, true), WaitAction::Finished);
    assert_eq!(wait_action(false, true), WaitAction::TimedOut);
    assert_eq!(wait_action(false, false), WaitAction::Pump);
    assert_eq!(timed_out("the handshake"), "timed out while waiting for the handshake");
}

#[test]
fn scripts_run_to_the_end() {
    let run = |script: Script| {
        let mut steps = vec![DriverStep::LoadCertificate];
        while steps[steps.len() - 1] != DriverStep::Done {
            steps.push(script.next(steps[steps.len() - 1]));
        }
        steps
    };
    assert_eq!(
        run(Script::FetchSession),
        vec![
            DriverStep::LoadCertificate,
            DriverStep::Bind,
            DriverStep::Connect,
            DriverStep::SendFirst,
            DriverStep::AwaitTicket,
            DriverStep::Close,
            DriverStep::Done,
        ]
    );
    assert_eq!(run(Script::EarlyData).len(), 8);
    let migrate = run(Script::Migrate);
    let at = |step| migrate.iter().position(|s| *s == step).expect("a value");
    assert!(at(DriverStep::Probe) < at(DriverStep::AwaitValidation));
    assert!(at(DriverStep::AwaitValidation) < at(DriverStep::Migrate));
    assert!(at(DriverStep::Migrate) < at(DriverStep::SendRequest));
}

#[test]
fn failures_name_the_call() {
    assert_eq!(failure(DriverStep::LoadCertificate, "e"), "failed to load certificate: e");
    assert_eq!(failure(DriverStep::Bind, "e"), "failed to bind: e");
    assert_eq!(failure(DriverStep::Connect, "e"), "failed to create connection: e");
    assert_eq!(failure(DriverStep::SetSession, "e"), "failed to set session: e");
    assert_eq!(failure(DriverStep::IssueScid, "e"), "failed to issue a new scid: e");
    assert_eq!(failure(DriverStep::Probe, "e"), "failed to probe the new path: e");
    assert_eq!(failure(DriverStep::Migrate, "e"), "failed to migrate: e");
    assert_eq!(failure(DriverStep::SendEarlyData, "e"), "failed to send early data: e");
    assert_eq!(failure(DriverStep::SendRequest, "e"), "failed to send request: e");
    assert_eq!(failure(DriverStep::Close, "e"), "failed to close the connection: e");
    assert_eq!(failure(DriverStep::SendFirst, "e"), "failed to write packet: e");
}

#[test]
fn connection_ids_of_new_paths_are_random() {
    assert_ne!(random_scid().expect("a value"), vec![0; 20]);
    let first = new_scid().expect("a value");
    let second = new_scid().expect("a value");
    assert_eq!(first.scid.len(), 20);
    assert_ne!(first.scid, second.scid);
    assert_ne!(first.reset_token, second.reset_token);
}

#[test]
fn reset_tokens_are_big_endian_numbers() {
    let token: Vec<u8> = (1..=16).collect();
    let new = scid_with_token(vec![7], &token);
    assert_eq!(new.scid, vec![7]);
    assert_eq!(new.reset_token, 0x0102_0304_0506_0708_090a_0b0c_0d0e_0f10);
    assert_eq!(scid_with_token(vec![], &[0xff; 16]).reset_token, u128::MAX);
}

#[test]
fn settings_of_the_stack() {
    let config = client_config(true);
    assert_eq!(
        config,
        StackSettings {
            max_idle_timeout: 10_000,
            max_udp_payload_size: 1350,
            initial_max_data: 10_000_000,
            initial_max_stream_data: 1_000_000,
            initial_max_streams: 100,
            verify_peer: true,
            early_data: true,
            disable_active_migration: false,
        }
    );
    let server = base_settings(Some(ServerOptions { early_data: true, migration: false }));
    assert_eq!(
        server,
        StackSettings {
            max_idle_timeout: 2_000,
            verify_peer: false,
            disable_active_migration: true,
            ..config
        }
    );
    assert!(!base_settings(Some(ServerOptions { early_data: false, migration: true })).disable_active_migration);
    let client = base_settings(None);
    assert!(client.verify_peer && !client.early_data && client.disable_active_migration);
}

#[test]
fn pending_packets_go_out_after_some_calls() {
    assert!(flush_after(DriverStep::Close) && flush_after(DriverStep::SendEarlyData));
    assert!(flush_after(DriverStep::IssueScid) && flush_after(DriverStep::Migrate));
    assert!(!flush_after(DriverStep::SendRequest) && !flush_after(DriverStep::Probe));
}
