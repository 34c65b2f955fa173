//! TLS contexts and sessions: what is checked, and in which order calls are made.

use ngtcp2::alpn::{alpn_select_callback, encode_alpn};
use ngtcp2::crypto::{
    new_session_callback, session_to_bytes, CaStep, ContextPlan, ContextStep, Failure, NameStep,
    RestoreStep, SessionStep, SessionTicketSlot,
};
use ngtcp2::{Error, TlsContext, TlsSession};

/// Runs all steps of a plan, each with the result of a success.
fn build(plan: ContextPlan) -> (Vec<ContextStep>, TlsContext) {
    let mut steps = Vec::new();
    let mut step = ContextStep::GetMethod;
    while step != ContextStep::Done {
        steps.push(step);
        let rv = match step {
            ContextStep::Configure | ContextStep::SetAlpn => 0,
            _ => 1,
        };
        step = match plan.next(step, rv) {
            Ok(next) => next,
            Err(failure) => panic!("unexpected: {:?}", failure.error),
        };
    }
    (steps, plan.context())
}

fn client() -> TlsContext {
    build(TlsContext::new_client(&[b"hq-interop"])).1
}

fn server() -> TlsContext {
    build(TlsContext::new_server("cert.pem", "key.pem", &[b"hq-interop"])).1
}

fn failure(result: Result<ContextStep, Failure>) -> (String, bool) {
    match result {
        Err(f) => (f.error.display(), f.free),
        Ok(step) => panic!("unexpected: {step:?}"),
    }
}

#[test]
fn test_encode_alpn() {
    let alpn = encode_alpn(&[b"hq-interop", b"h3"]);
    assert_eq!(
        alpn,
        vec![10, b'h', b'q', b'-', b'i', b'n', b't', b'e', b'r', b'o', b'p', 2, b'h', b'3']
    );
}

#[test]
fn the_server_selects_its_first_protocol_that_the_client_offers() {
    let server = encode_alpn(&[b"h3", b"hq-interop"]);
    let both = encode_alpn(&[b"hq-interop", b"h3"]);
    let (start, len) = alpn_select_callback(&server, &both).expect("a value");
    assert_eq!(&both[start..start + len], b"h3");
    let one = encode_alpn(&[b"x", b"hq-interop"]);
    let (start, len) = alpn_select_callback(&server, &one).expect("a value");
    assert_eq!(&one[start..start + len], b"hq-interop");
    assert_eq!(alpn_select_callback(&server, &encode_alpn(&[b"h2"])), None);
    assert_eq!(alpn_select_callback(&server, &[]), None);
    assert_eq!(alpn_select_callback(&[], &both), None);
    // A list that is cut off offers nothing from there on.
    assert_eq!(alpn_select_callback(&server, &[9, b'h', b'3']), None);
}

#[test]
fn test_client_context_creation() {
    let (steps, context) = build(TlsContext::new_client(&[b"hq-interop"]));
    assert!(!context.is_server && context.verify_peer);
    assert!(steps.contains(&ContextStep::VerifyPeer));

    let (steps, context) = build(TlsContext::new_client_with_options(&[b"hq-interop"], false));
    assert!(!context.is_server && !context.verify_peer);
    assert!(steps.contains(&ContextStep::VerifyNone) && !steps.contains(&ContextStep::VerifyPeer));
}

#[test]
fn contexts_are_set_up_in_order() {
    let (steps, _) = build(TlsContext::new_client(&[b"h3"]));
    assert_eq!(
        steps,
        vec![
            ContextStep::GetMethod,
            ContextStep::NewContext,
            ContextStep::Configure,
            ContextStep::VerifyPeer,
            ContextStep::SetAlpn,
            ContextStep::KeepTickets,
        ]
    );
    let (steps, context) = build(TlsContext::new_server("c", "k", &[b"h3"]));
    assert_eq!(
        steps,
        vec![
            ContextStep::GetMethod,
            ContextStep::NewContext,
            ContextStep::Configure,
            ContextStep::LoadCertificate,
            ContextStep::LoadKey,
            ContextStep::SelectAlpn,
        ]
    );
    assert_eq!(context.alpn_data, Some(vec![2, b'h', b'3']));
}

#[test]
fn test_client_session_creation() {
    let context = client();
    let mut step = SessionStep::NewSession;
    let mut steps = Vec::new();
    while step != SessionStep::Done {
        steps.push(step);
        step = match context.create_session_step(step, 1) {
            Ok(next) => next,
            Err(f) => panic!("unexpected: {:?}", f.error),
        };
    }
    assert_eq!(
        steps,
        vec![SessionStep::NewSession, SessionStep::SetConnectState, SessionStep::AttachSlot]
    );
    assert!(context.create_session().ticket_slot.is_some());
}

#[test]
fn sessions_of_servers_accept_and_have_no_slot() {
    let context = server();
    assert!(matches!(
        context.create_session_step(SessionStep::NewSession, 1),
        Ok(SessionStep::SetAcceptState)
    ));
    assert!(matches!(
        context.create_session_step(SessionStep::SetAcceptState, 1),
        Ok(SessionStep::Done)
    ));
    assert!(context.create_session().ticket_slot.is_none());
}

#[test]
fn failures_of_a_session_say_what_to_free() {
    match client().create_session_step(SessionStep::NewSession, 0) {
        Err(f) => {
            assert_eq!(f.error.display(), "internal error: SSL_new failed");
            assert!(!f.free);
        }
        Ok(_) => panic!("unexpected"),
    }
    match client().create_session_step(SessionStep::AttachSlot, 0) {
        Err(f) => {
            assert_eq!(f.error.display(), "internal error: SSL_set_ex_data failed");
            assert!(f.free);
        }
        Ok(_) => panic!("unexpected"),
    }
}

#[test]
fn test_set_server_name_on_client() {
    let session = client().create_session();
    let step = session.set_server_name("localhost", false).expect("a value");
    assert_eq!(step, NameStep::SetIndication);
    let step = step.next(1).expect("a value");
    assert_eq!(step, NameStep::SetVerifiedHost);
    assert_eq!(step.next(1).expect("a value"), NameStep::Done);
    assert!(matches!(NameStep::SetIndication.next(0), Err(Error::Internal(_))));
    assert!(matches!(NameStep::SetVerifiedHost.next(0), Err(Error::Internal(_))));
}

#[test]
fn test_set_server_name_rejects_invalid_names() {
    let session = client().create_session();

    for (name, is_ip_address) in
        [("", false), ("127.0.0.1", true), ("::1", true), ("*.example.com", false)]
    {
        let err = session.set_server_name(name, is_ip_address).expect_err("an error");
        assert!(matches!(err, Error::InvalidArgument(_)));
    }

    let long_name = "a".repeat(256);
    let err = session.set_server_name(&long_name, false).expect_err("an error");
    assert!(matches!(err, Error::InvalidArgument(_)));
}

#[test]
fn names_of_servers_are_measured_in_bytes() {
    let session = client().create_session();
    assert!(session.set_server_name(&"a".repeat(255), false).is_ok());
    assert!(session.set_server_name(&"\u{e9}".repeat(127), false).is_ok());
    let err = session.set_server_name(&"\u{e9}".repeat(128), false).expect_err("an error");
    assert_eq!(err.display(), "invalid argument: server_name exceeds 255 bytes");
    let err = session.set_server_name("a\0b", false).expect_err("an error");
    assert_eq!(err.display(), "invalid argument: invalid server name");
    let err = server().create_session().set_server_name("a", false).expect_err("an error");
    assert_eq!(err.display(), "invalid argument: cannot set server name on server session");
}

#[test]
fn test_selected_alpn_protocol_is_none_before_handshake() {
    assert_eq!(TlsSession::selected_alpn_protocol(None), None);
    assert_eq!(TlsSession::selected_alpn_protocol(Some(&[])), None);
    assert_eq!(TlsSession::selected_alpn_protocol(Some(b"h3")), Some(b"h3".to_vec()));
}

#[test]
fn test_set_quic_transport_params() {
    TlsSession::set_quic_transport_params(1).expect("a value");
    assert!(matches!(TlsSession::set_quic_transport_params(0), Err(Error::Internal(_))));
}

#[test]
fn test_add_ca_cert_pem_rejects_invalid_pem() {
    let step = client().add_ca_cert_pem().expect("a value");
    assert_eq!(step, CaStep::OpenText);
    let step = match step.next(1) {
        Ok(next) => next,
        Err(_) => panic!("unexpected"),
    };
    assert_eq!(step, CaStep::Parse);
    match step.next(0) {
        Err(f) => {
            assert!(matches!(f.error, Error::InvalidArgument(_)));
            assert!(!f.free);
        }
        Ok(_) => panic!("unexpected"),
    }
}

#[test]
fn test_add_ca_cert_pem_rejects_when_verify_peer_false() {
    let (_, context) = build(TlsContext::new_client_with_options(&[b"hq-interop"], false));
    let err = context.add_ca_cert_pem().expect_err("an error");
    assert!(matches!(err, Error::InvalidArgument(_)));
}

#[test]
fn test_add_ca_cert_pem_accepts_valid_pem() {
    let mut step = client().add_ca_cert_pem().expect("a value");
    let mut steps = Vec::new();
    while step != CaStep::Done {
        steps.push(step);
        step = match step.next(1) {
            Ok(next) => next,
            Err(f) => panic!("unexpected: {:?}", f.error),
        };
    }
    assert_eq!(steps, vec![CaStep::OpenText, CaStep::Parse, CaStep::FindStore, CaStep::Add]);
}

#[test]
fn failures_of_the_trust_store_say_what_to_free() {
    for (step, rv, text, free) in [
        (CaStep::OpenText, 0, "internal error: BIO_new_mem_buf failed", false),
        (CaStep::FindStore, 0, "internal error: SSL_CTX_get_cert_store failed", true),
        (CaStep::Add, 0, "internal error: X509_STORE_add_cert failed", false),
    ] {
        match step.next(rv) {
            Err(f) => {
                assert_eq!(f.error.display(), text);
                assert_eq!(f.free, free);
            }
            Ok(_) => panic!("unexpected"),
        }
    }
}

#[test]
fn test_add_ca_cert_pem_rejects_on_server_context() {
    let err = server().add_ca_cert_pem().expect_err("an error");
    assert!(matches!(err, Error::InvalidArgument(_)));
}

#[test]
fn test_new_server_rejects_missing_cert() {
    let plan =
        TlsContext::new_server("/nonexistent/cert.pem", "/nonexistent/key.pem", &[b"hq-interop"]);
    assert!(plan.next(ContextStep::LoadCertificate, 0).is_err());
}

#[test]
fn failures_of_a_context_say_what_to_free() {
    let plan = TlsContext::new_server("c.pem", "k.pem", &[b"h3"]);
    assert_eq!(
        failure(plan.next(ContextStep::GetMethod, 0)),
        ("internal error: TLS_method failed".to_string(), false)
    );
    assert_eq!(
        failure(plan.next(ContextStep::NewContext, 0)),
        ("internal error: SSL_CTX_new failed".to_string(), false)
    );
    assert_eq!(
        failure(plan.next(ContextStep::Configure, -1)),
        (
            "internal error: ngtcp2_crypto_boringssl_configure_server_context failed".to_string(),
            true
        )
    );
    assert_eq!(
        failure(plan.next(ContextStep::LoadCertificate, 0)),
        ("internal error: SSL_CTX_use_certificate_chain_file failed: c.pem".to_string(), true)
    );
    assert_eq!(
        failure(plan.next(ContextStep::LoadKey, 0)),
        ("internal error: SSL_CTX_use_PrivateKey_file failed: k.pem".to_string(), true)
    );
    let plan = TlsContext::new_client(&[b"h3"]);
    assert_eq!(
        failure(plan.next(ContextStep::Configure, -1)),
        (
            "internal error: ngtcp2_crypto_boringssl_configure_client_context failed".to_string(),
            true
        )
    );
    assert_eq!(
        failure(plan.next(ContextStep::SetAlpn, 1)),
        ("internal error: SSL_CTX_set_alpn_protos failed".to_string(), true)
    );
}

#[test]
fn paths_with_a_nul_are_refused() {
    let plan = TlsContext::new_server("c\0", "k", &[b"h3"]);
    assert_eq!(
        failure(plan.next(ContextStep::Configure, 0)),
        ("invalid argument: invalid cert path".to_string(), true)
    );
    let plan = TlsContext::new_server("c", "\0k", &[b"h3"]);
    assert_eq!(
        failure(plan.next(ContextStep::LoadCertificate, 1)),
        ("invalid argument: invalid key path".to_string(), true)
    );
}

#[test]
fn the_last_ticket_is_kept_until_it_is_taken() {
    let mut slot = SessionTicketSlot::new();
    new_session_callback(&mut slot, None);
    assert_eq!(slot.take(), None);
    new_session_callback(&mut slot, session_to_bytes(1, Some(vec![1])));
    new_session_callback(&mut slot, session_to_bytes(1, Some(vec![2])));
    new_session_callback(&mut slot, session_to_bytes(0, Some(vec![3])));
    assert_eq!(slot.take(), Some(vec![2]));
    assert_eq!(slot.take(), None);
}

#[test]
fn test_set_session_rejects_invalid_bytes() {
    let session = client().create_session();

    for bytes in [b"not a session".as_slice(), &[0x30, 0x00]] {
        let step = session.set_session(bytes).expect("a value");
        assert_eq!(step, RestoreStep::Parse);
        let err = step.next(0).expect_err("an error");
        assert!(matches!(err, Error::InvalidArgument(_)));
    }

    let err = session.set_session(&[]).expect_err("an error");
    assert!(matches!(err, Error::InvalidArgument(_)));
}

#[test]
fn test_set_session_rejects_on_server_session() {
    let err = server().create_session().set_session(&[0x30, 0x00]).expect_err("an error");
    assert!(matches!(err, Error::InvalidArgument(_)));
}

#[test]
fn early_data_is_enabled_for_sessions_that_allow_it() {
    let ask = RestoreStep::Parse.next(1).expect("a value");
    assert_eq!(ask, RestoreStep::AskEarlyData);
    let capable = ask.next(1).expect("a value");
    let enable = capable.next(1).expect("a value");
    assert_eq!(enable, RestoreStep::EnableEarlyData);
    assert_eq!(enable.next(0).expect("a value"), RestoreStep::Done { early_data: true });
    let plain = ask.next(0).expect("a value").next(1).expect("a value");
    assert_eq!(plain, RestoreStep::Done { early_data: false });
    let err = capable.next(0).expect_err("an error");
    assert_eq!(err.display(), "invalid argument: TLS session cannot be set");
}

#[test]
fn test_set_accept_early_data_rejects_on_client_context() {
    let mut context = client();
    let err = context.set_accept_early_data(true).expect_err("an error");
    assert!(matches!(err, Error::InvalidArgument(_)));
}

#[test]
fn test_set_accept_early_data_on_server_context() {
    let mut context = server();
    assert!(!context.create_session().accepts_early_data());

    context.set_accept_early_data(true).expect("a value");
    assert!(context.create_session().accepts_early_data());

    context.set_accept_early_data(false).expect("a value");
    assert!(!context.create_session().accepts_early_data());
}

#[test]
fn test_set_quic_early_data_context_on_server_session() {
    let session = server().create_session();
    session.check_early_data_context().expect("a value");
    session.set_quic_early_data_context(1).expect("a value");
    assert!(matches!(session.set_quic_early_data_context(0), Err(Error::Internal(_))));
}

#[test]
fn test_set_quic_early_data_context_rejects_on_client_session() {
    let session = client().create_session();
    let err = session.set_quic_early_data_context(1).expect_err("an error");
    assert!(matches!(err, Error::InvalidArgument(_)));
}
