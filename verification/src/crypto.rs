//! TLS contexts and sessions: what is set up, in which order, and what a failure means.
//!
//! The TLS stack is driven step by step. Each step names one call; its result is handed back, and
//! the next step or the failure follows.

use vstd::prelude::*;
use vstd::slice::slice_to_vec;

use crate::alpn::encode_alpn;
use crate::error::Error;
use crate::text::contains_ascii;

verus! {

/// What a failure says and what is left to clean up.
#[verifier::ext_equal]
pub struct FailureView {
    /// Whether the fault lies with an argument; otherwise it is an internal one.
    pub invalid_argument: bool,
    /// The message.
    pub text: Seq<char>,
    /// Whether what was set up so far is to be freed.
    pub free: bool,
}

/// A step failed.
#[derive(Debug)]
pub struct Failure {
    /// The error that is reported.
    pub error: Error,
    /// Whether what was set up so far is to be freed.
    pub free: bool,
}

impl Failure {
    /// Whether this failure is the one that `v` describes.
    pub open spec fn shows(self, v: FailureView) -> bool {
        &&& self.free == v.free
        &&& if v.invalid_argument {
            self.error.is_invalid_argument(v.text)
        } else {
            self.error.is_internal(v.text)
        }
    }

    /// An internal failure.
    fn internal(text: &str, free: bool) -> (r: Failure)
        ensures
            r.shows((FailureView { invalid_argument: false, text: text@, free })),
    {
        Failure { error: Error::internal(text), free }
    }

    /// An internal failure whose message ends with a detail.
    fn internal_with(text: &str, detail: &str, free: bool) -> (r: Failure)
        ensures
            r.shows((FailureView { invalid_argument: false, text: text@ + detail@, free })),
    {
        let mut message: String = text.to_owned();
        message.append(detail);
        Failure { error: Error::Internal(message), free }
    }

    /// A failure that lies with an argument.
    fn invalid_argument(text: &str, free: bool) -> (r: Failure)
        ensures
            r.shows((FailureView { invalid_argument: true, text: text@, free })),
    {
        Failure { error: Error::invalid_argument(text), free }
    }
}

/// One step of setting up a TLS context.
#[derive(Debug, Clone, Copy, PartialEq, Eq, Structural)]
pub enum ContextStep {
    /// Get the TLS method; the result is 0 if there is none.
    GetMethod,
    /// Make a context; the result is 0 if there is none.
    NewContext,
    /// Let the engine configure the context for its role.
    Configure,
    /// Switch the verification of certificates off.
    VerifyNone,
    /// Switch the verification of certificates on and load the default trust store.
    ///
    /// An empty trust store is no failure here: the handshake will fail.
    VerifyPeer,
    /// Set the protocols that a client offers.
    SetAlpn,
    /// Ask for the session tickets that come after the handshake (RFC 8446 Section 4.6.1).
    KeepTickets,
    /// Load the certificate chain.
    LoadCertificate,
    /// Load the private key.
    LoadKey,
    /// Install the selection of a protocol by the server.
    SelectAlpn,
    /// The context is set up.
    Done,
}

/// What a TLS context is to be set up with.
#[derive(Debug)]
pub struct ContextPlan {
    /// Whether the context is that of a server.
    pub is_server: bool,
    /// Whether a client verifies the certificate of its server.
    pub verify_peer: bool,
    /// The path of a server's certificate chain.
    pub cert_path: String,
    /// The path of a server's private key.
    pub key_path: String,
    /// The protocols in wire form.
    pub alpn: Vec<u8>,
}

impl ContextStep {
    /// Whether the result `rv` of this step is a success.
    pub open spec fn succeeded(self, rv: i32) -> bool {
        match self {
            ContextStep::GetMethod | ContextStep::NewContext => rv != 0,
            ContextStep::Configure | ContextStep::SetAlpn => rv == 0,
            ContextStep::LoadCertificate | ContextStep::LoadKey => rv == 1,
            _ => true,
        }
    }

    /// Returns whether the result `rv` of this step is a success.
    fn is_success(self, rv: i32) -> (r: bool)
        ensures
            r == self.succeeded(rv),
    {
        match self {
            ContextStep::GetMethod | ContextStep::NewContext => rv != 0,
            ContextStep::Configure | ContextStep::SetAlpn => rv == 0,
            ContextStep::LoadCertificate | ContextStep::LoadKey => rv == 1,
            _ => true,
        }
    }
}

impl ContextPlan {
    /// The step that follows `step`.
    pub open spec fn successor(self, step: ContextStep) -> ContextStep {
        match step {
            ContextStep::GetMethod => ContextStep::NewContext,
            ContextStep::NewContext => ContextStep::Configure,
            ContextStep::Configure => if self.is_server {
                ContextStep::LoadCertificate
            } else if self.verify_peer {
                ContextStep::VerifyPeer
            } else {
                ContextStep::VerifyNone
            },
            ContextStep::VerifyNone | ContextStep::VerifyPeer => ContextStep::SetAlpn,
            ContextStep::SetAlpn => ContextStep::KeepTickets,
            ContextStep::LoadCertificate => ContextStep::LoadKey,
            ContextStep::LoadKey => ContextStep::SelectAlpn,
            ContextStep::KeepTickets | ContextStep::SelectAlpn | ContextStep::Done => ContextStep::Done,
        }
    }

    /// The message of a failure of `step`.
    pub open spec fn failure_text(self, step: ContextStep) -> Seq<char> {
        match step {
            ContextStep::GetMethod => "TLS_method failed"@,
            ContextStep::NewContext => "SSL_CTX_new failed"@,
            ContextStep::Configure => if self.is_server {
                "ngtcp2_crypto_boringssl_configure_server_context failed"@
            } else {
                "ngtcp2_crypto_boringssl_configure_client_context failed"@
            },
            ContextStep::LoadCertificate => "SSL_CTX_use_certificate_chain_file failed: "@
                + self.cert_path@,
            ContextStep::LoadKey => "SSL_CTX_use_PrivateKey_file failed: "@ + self.key_path@,
            _ => "SSL_CTX_set_alpn_protos failed"@,
        }
    }

    /// What follows once `step` has given `rv`.
    ///
    /// A failure frees the context, once there is one. A path that holds a NUL character cannot be
    /// passed on.
    pub open spec fn outcome(self, step: ContextStep, rv: i32) -> Result<ContextStep, FailureView> {
        let next = self.successor(step);
        if !step.succeeded(rv) {
            Err(
                FailureView {
                    invalid_argument: false,
                    text: self.failure_text(step),
                    free: step != ContextStep::GetMethod && step != ContextStep::NewContext,
                },
            )
        } else if next == ContextStep::LoadCertificate && self.cert_path@.contains('\0') {
            Err(FailureView { invalid_argument: true, text: "invalid cert path"@, free: true })
        } else if next == ContextStep::LoadKey && self.key_path@.contains('\0') {
            Err(FailureView { invalid_argument: true, text: "invalid key path"@, free: true })
        } else {
            Ok(next)
        }
    }

    /// Takes the result of a step and returns the next one.
    pub fn next(&self, step: ContextStep, rv: i32) -> (r: Result<ContextStep, Failure>)
        ensures
            match self.outcome(step, rv) {
                Ok(next) => r == Ok::<ContextStep, Failure>(next),
                Err(v) => r matches Err(f) && f.shows(v),
            },
    {
        if !step.is_success(rv) {
            return Err(
                match step {
                    ContextStep::GetMethod => Failure::internal("TLS_method failed", false),
                    ContextStep::NewContext => Failure::internal("SSL_CTX_new failed", false),
                    ContextStep::Configure => if self.is_server {
                        Failure::internal(
                            "ngtcp2_crypto_boringssl_configure_server_context failed",
                            true,
                        )
                    } else {
                        Failure::internal(
                            "ngtcp2_crypto_boringssl_configure_client_context failed",
                            true,
                        )
                    },
                    ContextStep::LoadCertificate => Failure::internal_with(
                        "SSL_CTX_use_certificate_chain_file failed: ",
                        self.cert_path.as_str(),
                        true,
                    ),
                    ContextStep::LoadKey => Failure::internal_with(
                        "SSL_CTX_use_PrivateKey_file failed: ",
                        self.key_path.as_str(),
                        true,
                    ),
                    _ => Failure::internal("SSL_CTX_set_alpn_protos failed", true),
                },
            );
        }
        let next: ContextStep = match step {
            ContextStep::GetMethod => ContextStep::NewContext,
            ContextStep::NewContext => ContextStep::Configure,
            ContextStep::Configure => if self.is_server {
                ContextStep::LoadCertificate
            } else if self.verify_peer {
                ContextStep::VerifyPeer
            } else {
                ContextStep::VerifyNone
            },
            ContextStep::VerifyNone | ContextStep::VerifyPeer => ContextStep::SetAlpn,
            ContextStep::SetAlpn => ContextStep::KeepTickets,
            ContextStep::LoadCertificate => ContextStep::LoadKey,
            ContextStep::LoadKey => ContextStep::SelectAlpn,
            ContextStep::KeepTickets | ContextStep::SelectAlpn | ContextStep::Done => ContextStep::Done,
        };
        if next == ContextStep::LoadCertificate && contains_ascii(self.cert_path.as_str(), 0) {
            return Err(Failure::invalid_argument("invalid cert path", true));
        }
        if next == ContextStep::LoadKey && contains_ascii(self.key_path.as_str(), 0) {
            return Err(Failure::invalid_argument("invalid key path", true));
        }
        Ok(next)
    }

    /// Returns the context that has been set up.
    pub fn context(self) -> (r: TlsContext)
        ensures
            r.is_server == self.is_server,
            r.verify_peer == (!self.is_server && self.verify_peer),
            !r.accept_early_data,
            self.is_server ==> (r.alpn_data matches Some(alpn) && alpn@ == self.alpn@),
            !self.is_server ==> r.alpn_data is None,
    {
        TlsContext {
            is_server: self.is_server,
            verify_peer: !self.is_server && self.verify_peer,
            alpn_data: if self.is_server {
                Some(self.alpn)
            } else {
                None
            },
            accept_early_data: false,
        }
    }
}

/// The steps that lead from `step` to the end if all of them succeed.
pub open spec fn path_from(plan: ContextPlan, step: ContextStep, fuel: nat) -> Seq<ContextStep>
    decreases fuel,
{
    if step == ContextStep::Done || fuel == 0 {
        seq![step]
    } else {
        seq![step] + path_from(plan, plan.successor(step), (fuel - 1) as nat)
    }
}

/// A client that verifies its peer switches verification on before it offers protocols
/// (RFC 9001 Section 4.4), and one that does not never does.
pub proof fn lemma_client_context_steps(plan: ContextPlan)
    requires
        !plan.is_server,
    ensures
        path_from(plan, ContextStep::GetMethod, 10) == seq![
            ContextStep::GetMethod,
            ContextStep::NewContext,
            ContextStep::Configure,
            if plan.verify_peer {
                ContextStep::VerifyPeer
            } else {
                ContextStep::VerifyNone
            },
            ContextStep::SetAlpn,
            ContextStep::KeepTickets,
            ContextStep::Done,
        ],
{
    reveal_with_fuel(path_from, 7);
}

/// A server loads its certificate, then its key, and then selects protocols.
pub proof fn lemma_server_context_steps(plan: ContextPlan)
    requires
        plan.is_server,
    ensures
        path_from(plan, ContextStep::GetMethod, 10) == seq![
            ContextStep::GetMethod,
            ContextStep::NewContext,
            ContextStep::Configure,
            ContextStep::LoadCertificate,
            ContextStep::LoadKey,
            ContextStep::SelectAlpn,
            ContextStep::Done,
        ],
{
    reveal_with_fuel(path_from, 7);
}

/// A pointer is a success unless it is null, a configuration is one if it gives 0, and a file is
/// loaded if that gives 1; no other call can fail. A path that holds a NUL is refused before it is
/// passed on.
pub proof fn lemma_context_results(plan: ContextPlan, step: ContextStep, rv: i32)
    ensures
        step == ContextStep::GetMethod || step == ContextStep::NewContext ==> (plan.outcome(
            step,
            rv,
        ) is Ok <==> rv != 0),
        step == ContextStep::SetAlpn ==> (plan.outcome(step, rv) is Ok <==> rv == 0),
        step == ContextStep::Configure ==> (plan.outcome(step, rv) is Ok <==> rv == 0 && (
        plan.is_server ==> forall|i: int|
            0 <= i < plan.cert_path@.len() ==> plan.cert_path@[i] != '\0')),
        step == ContextStep::LoadCertificate ==> (plan.outcome(step, rv) is Ok <==> rv == 1
            && forall|i: int| 0 <= i < plan.key_path@.len() ==> plan.key_path@[i] != '\0'),
        step == ContextStep::LoadKey ==> (plan.outcome(step, rv) is Ok <==> rv == 1),
        step == ContextStep::VerifyNone || step == ContextStep::VerifyPeer || step
            == ContextStep::KeepTickets || step == ContextStep::SelectAlpn || step
            == ContextStep::Done ==> plan.outcome(step, rv) is Ok,
        plan.outcome(step, rv) matches Ok(next) ==> next == plan.successor(step),
{
    if plan.cert_path@.contains('\0') {
        let i = choose|i: int| 0 <= i < plan.cert_path@.len() && plan.cert_path@[i] == '\0';
        assert(plan.cert_path@[i] == '\0');
    }
    if plan.key_path@.contains('\0') {
        let i = choose|i: int| 0 <= i < plan.key_path@.len() && plan.key_path@[i] == '\0';
        assert(plan.key_path@[i] == '\0');
    }
    if !plan.cert_path@.contains('\0') {
        assert forall|i: int| 0 <= i < plan.cert_path@.len() implies plan.cert_path@[i] != '\0' by {
            assert(plan.cert_path@.contains(plan.cert_path@[i]));
        }
    }
    if !plan.key_path@.contains('\0') {
        assert forall|i: int| 0 <= i < plan.key_path@.len() implies plan.key_path@[i] != '\0' by {
            assert(plan.key_path@.contains(plan.key_path@[i]));
        }
    }
}

/// Every failure frees the context at once, as soon as there is one.
pub proof fn lemma_failure_frees_context(plan: ContextPlan, step: ContextStep, rv: i32)
    ensures
        plan.outcome(step, rv) matches Err(v) ==> v.free == (step != ContextStep::GetMethod && step
            != ContextStep::NewContext),
{
}

/// The settings that all sessions of an endpoint share.
#[derive(Debug)]
pub struct TlsContext {
    /// Whether this is the context of a server.
    pub is_server: bool,
    /// Whether a client verifies the certificate of its server.
    pub verify_peer: bool,
    /// The protocols that a server selects from, in wire form.
    pub alpn_data: Option<Vec<u8>>,
    /// Whether a server accepts 0-RTT data.
    pub accept_early_data: bool,
}

/// One step of adding a CA certificate to the trust store.
#[derive(Debug, Clone, Copy, PartialEq, Eq, Structural)]
pub enum CaStep {
    /// Open the PEM text for reading; the result is 0 if that fails.
    OpenText,
    /// Parse the first certificate and close the text; the result is 0 if there is none.
    Parse,
    /// Find the trust store of the context; the result is 0 if there is none.
    FindStore,
    /// Add the certificate to the store and release it.
    Add,
    /// The certificate is in the store.
    Done,
}

/// What follows once `step` of adding a CA certificate has given `rv`.
///
/// Only where the trust store is missing is the certificate still to be freed.
pub open spec fn ca_outcome(step: CaStep, rv: i32) -> Result<CaStep, FailureView> {
    match step {
        CaStep::OpenText => if rv != 0 {
            Ok(CaStep::Parse)
        } else {
            Err(
                FailureView {
                    invalid_argument: false,
                    text: "BIO_new_mem_buf failed"@,
                    free: false,
                },
            )
        },
        CaStep::Parse => if rv != 0 {
            Ok(CaStep::FindStore)
        } else {
            Err(
                FailureView {
                    invalid_argument: true,
                    text: "invalid CA certificate PEM"@,
                    free: false,
                },
            )
        },
        CaStep::FindStore => if rv != 0 {
            Ok(CaStep::Add)
        } else {
            Err(
                FailureView {
                    invalid_argument: false,
                    text: "SSL_CTX_get_cert_store failed"@,
                    free: true,
                },
            )
        },
        CaStep::Add => if rv == 1 {
            Ok(CaStep::Done)
        } else {
            Err(
                FailureView {
                    invalid_argument: false,
                    text: "X509_STORE_add_cert failed"@,
                    free: false,
                },
            )
        },
        CaStep::Done => Ok(CaStep::Done),
    }
}

/// A certificate is added only if the text can be opened and holds one, the store is there and takes
/// it, in this order. Text that is no certificate is the caller's fault, anything else is not.
pub proof fn lemma_ca_steps(opened: i32, parsed: i32, found: i32, added: i32)
    ensures
        ca_outcome(CaStep::OpenText, opened) == Ok::<CaStep, FailureView>(CaStep::Parse) <==> opened
            != 0,
        ca_outcome(CaStep::Parse, parsed) == Ok::<CaStep, FailureView>(CaStep::FindStore) <==> parsed
            != 0,
        ca_outcome(CaStep::FindStore, found) == Ok::<CaStep, FailureView>(CaStep::Add) <==> found
            != 0,
        ca_outcome(CaStep::Add, added) == Ok::<CaStep, FailureView>(CaStep::Done) <==> added == 1,
        ca_outcome(CaStep::OpenText, opened) is Ok <==> opened != 0,
        ca_outcome(CaStep::OpenText, opened) matches Err(v) ==> !v.invalid_argument,
        ca_outcome(CaStep::Parse, parsed) is Ok <==> parsed != 0,
        ca_outcome(CaStep::Parse, parsed) matches Err(v) ==> v.invalid_argument,
        ca_outcome(CaStep::FindStore, found) is Ok <==> found != 0,
        ca_outcome(CaStep::FindStore, found) matches Err(v) ==> !v.invalid_argument && v.free,
        ca_outcome(CaStep::Add, added) is Ok <==> added == 1,
        ca_outcome(CaStep::Add, added) matches Err(v) ==> !v.invalid_argument,
{
}

impl CaStep {
    /// Takes the result of this step and returns the next one.
    pub fn next(self, rv: i32) -> (r: Result<CaStep, Failure>)
        ensures
            match ca_outcome(self, rv) {
                Ok(next) => r == Ok::<CaStep, Failure>(next),
                Err(v) => r matches Err(f) && f.shows(v),
            },
    {
        match self {
            CaStep::OpenText => if rv != 0 {
                Ok(CaStep::Parse)
            } else {
                Err(Failure::internal("BIO_new_mem_buf failed", false))
            },
            CaStep::Parse => if rv != 0 {
                Ok(CaStep::FindStore)
            } else {
                Err(Failure::invalid_argument("invalid CA certificate PEM", false))
            },
            CaStep::FindStore => if rv != 0 {
                Ok(CaStep::Add)
            } else {
                Err(Failure::internal("SSL_CTX_get_cert_store failed", true))
            },
            CaStep::Add => if rv == 1 {
                Ok(CaStep::Done)
            } else {
                Err(Failure::internal("X509_STORE_add_cert failed", false))
            },
            CaStep::Done => Ok(CaStep::Done),
        }
    }
}

/// One step of setting up a TLS session.
#[derive(Debug, Clone, Copy, PartialEq, Eq, Structural)]
pub enum SessionStep {
    /// Make a session; the result is 0 if there is none.
    NewSession,
    /// Let the session accept a handshake.
    SetAcceptState,
    /// Let the session start a handshake.
    SetConnectState,
    /// Attach the slot that receives session tickets.
    AttachSlot,
    /// The session is set up.
    Done,
}

impl TlsContext {
    /// Plans the context of a client that verifies the certificate of its server.
    pub fn new_client(alpn: &[&[u8]]) -> (r: ContextPlan)
        ensures
            !r.is_server,
            r.verify_peer,
            r.alpn@ == crate::alpn::wire(crate::alpn::contents(alpn@)),
    {
        TlsContext::new_client_with_options(alpn, true)
    }

    /// Plans the context of a client.
    pub fn new_client_with_options(alpn: &[&[u8]], verify_peer: bool) -> (r: ContextPlan)
        ensures
            !r.is_server,
            r.verify_peer == verify_peer,
            r.alpn@ == crate::alpn::wire(crate::alpn::contents(alpn@)),
    {
        ContextPlan {
            is_server: false,
            verify_peer,
            cert_path: String::new(),
            key_path: String::new(),
            alpn: encode_alpn(alpn),
        }
    }

    /// Plans the context of a server with the certificate chain and the key in these PEM files.
    pub fn new_server(cert_path: &str, key_path: &str, alpn: &[&[u8]]) -> (r: ContextPlan)
        ensures
            r.is_server,
            r.cert_path@ == cert_path@,
            r.key_path@ == key_path@,
            r.alpn@ == crate::alpn::wire(crate::alpn::contents(alpn@)),
    {
        ContextPlan {
            is_server: true,
            verify_peer: false,
            cert_path: cert_path.to_owned(),
            key_path: key_path.to_owned(),
            alpn: encode_alpn(alpn),
        }
    }

    /// Sets whether 0-RTT data is accepted (RFC 9001 Section 4.6).
    ///
    /// 0-RTT data can be replayed (RFC 9001 Section 9.2), so it is not accepted unless this says
    /// so. Only the context of a server accepts any.
    pub fn set_accept_early_data(&mut self, accept: bool) -> (r: Result<(), Error>)
        ensures
            old(self).is_server ==> r is Ok,
            !old(self).is_server ==> (r matches Err(e) && e.is_invalid_argument(
                "cannot accept early data on client context"@,
            )),
            final(self).accept_early_data == (if old(self).is_server {
                accept
            } else {
                old(self).accept_early_data
            }),
            final(self).is_server == old(self).is_server,
            final(self).verify_peer == old(self).verify_peer,
            final(self).alpn_data == old(self).alpn_data,
    {
        if !self.is_server {
            return Err(Error::invalid_argument("cannot accept early data on client context"));
        }
        self.accept_early_data = accept;
        Ok(())
    }

    /// Returns the first step of adding a CA certificate to the trust store.
    ///
    /// Only a client that verifies the certificate of its server has a use for one.
    pub fn add_ca_cert_pem(&self) -> (r: Result<CaStep, Error>)
        ensures
            self.is_server ==> (r matches Err(e) && e.is_invalid_argument(
                "cannot add CA cert on server context"@,
            )),
            !self.is_server && !self.verify_peer ==> (r matches Err(e) && e.is_invalid_argument(
                "cannot add CA cert when verify_peer is false"@,
            )),
            !self.is_server && self.verify_peer ==> r == Ok::<CaStep, Error>(CaStep::OpenText),
    {
        if self.is_server {
            return Err(Error::invalid_argument("cannot add CA cert on server context"));
        }
        if !self.verify_peer {
            return Err(Error::invalid_argument("cannot add CA cert when verify_peer is false"));
        }
        Ok(CaStep::OpenText)
    }

    /// What follows once `step` of setting up a session has given `rv`.
    ///
    /// Only a client attaches a slot: a server receives no session tickets.
    pub open spec fn session_outcome(self, step: SessionStep, rv: i32) -> Result<
        SessionStep,
        FailureView,
    > {
        match step {
            SessionStep::NewSession => if rv == 0 {
                Err(
                    FailureView {
                        invalid_argument: false,
                        text: "SSL_new failed"@,
                        free: false,
                    },
                )
            } else if self.is_server {
                Ok(SessionStep::SetAcceptState)
            } else {
                Ok(SessionStep::SetConnectState)
            },
            SessionStep::SetAcceptState => Ok(SessionStep::Done),
            SessionStep::SetConnectState => Ok(SessionStep::AttachSlot),
            SessionStep::AttachSlot => if rv == 1 {
                Ok(SessionStep::Done)
            } else {
                Err(
                    FailureView {
                        invalid_argument: false,
                        text: "SSL_set_ex_data failed"@,
                        free: true,
                    },
                )
            },
            SessionStep::Done => Ok(SessionStep::Done),
        }
    }

    /// Takes the result of a step of setting up a session and returns the next one.
    pub fn create_session_step(&self, step: SessionStep, rv: i32) -> (r: Result<
        SessionStep,
        Failure,
    >)
        ensures
            match self.session_outcome(step, rv) {
                Ok(next) => r == Ok::<SessionStep, Failure>(next),
                Err(v) => r matches Err(f) && f.shows(v),
            },
    {
        match step {
            SessionStep::NewSession => if rv == 0 {
                Err(Failure::internal("SSL_new failed", false))
            } else if self.is_server {
                Ok(SessionStep::SetAcceptState)
            } else {
                Ok(SessionStep::SetConnectState)
            },
            SessionStep::SetAcceptState => Ok(SessionStep::Done),
            SessionStep::SetConnectState => Ok(SessionStep::AttachSlot),
            SessionStep::AttachSlot => if rv == 1 {
                Ok(SessionStep::Done)
            } else {
                Err(Failure::internal("SSL_set_ex_data failed", true))
            },
            SessionStep::Done => Ok(SessionStep::Done),
        }
    }

    /// Returns the state of a session that has just been set up.
    pub fn create_session(&self) -> (r: TlsSession)
        ensures
            r.is_server == self.is_server,
            r.accept_early_data == self.accept_early_data,
            self.is_server ==> r.ticket_slot is None,
            !self.is_server ==> (r.ticket_slot matches Some(slot) && slot.ticket is None),
    {
        TlsSession {
            is_server: self.is_server,
            accept_early_data: self.accept_early_data,
            ticket_slot: if self.is_server {
                None
            } else {
                Some(SessionTicketSlot::new())
            },
        }
    }
}

/// A session of a server accepts a handshake, and one of a client starts one and has a slot for
/// tickets. It fails only if there is no session or no slot, and then frees what there is.
pub proof fn lemma_session_steps(context: TlsContext, made: i32, any: i32, attached: i32)
    ensures
        context.session_outcome(SessionStep::NewSession, made) is Ok <==> made != 0,
        made != 0 ==> context.session_outcome(SessionStep::NewSession, made) == Ok::<
            SessionStep,
            FailureView,
        >(
            if context.is_server {
                SessionStep::SetAcceptState
            } else {
                SessionStep::SetConnectState
            },
        ),
        context.session_outcome(SessionStep::SetAcceptState, any) == Ok::<SessionStep, FailureView>(
            SessionStep::Done,
        ),
        context.session_outcome(SessionStep::SetConnectState, any) == Ok::<
            SessionStep,
            FailureView,
        >(SessionStep::AttachSlot),
        context.session_outcome(SessionStep::AttachSlot, attached) is Ok <==> attached == 1,
        attached == 1 ==> context.session_outcome(SessionStep::AttachSlot, attached) == Ok::<
            SessionStep,
            FailureView,
        >(SessionStep::Done),
        context.session_outcome(SessionStep::NewSession, made) matches Err(v) ==> !v.free,
        context.session_outcome(SessionStep::AttachSlot, attached) matches Err(v) ==> v.free,
{
}

/// Holds the session ticket that came last, until it is taken.
#[derive(PartialEq, Eq)]
pub struct SessionTicketSlot {
    /// The ticket in the form in which the TLS stack writes it.
    pub ticket: Option<Vec<u8>>,
}

impl SessionTicketSlot {
    /// Makes an empty slot.
    pub fn new() -> (r: SessionTicketSlot)
        ensures
            r.ticket is None,
    {
        SessionTicketSlot { ticket: None }
    }

    /// Puts a ticket into the slot.
    ///
    /// Several tickets may come; the last one is held.
    pub fn store(&mut self, ticket: Vec<u8>)
        ensures
            final(self).ticket == Some(ticket),
    {
        self.ticket = Some(ticket);
    }

    /// Takes the ticket out of the slot.
    pub fn take(&mut self) -> (r: Option<Vec<u8>>)
        ensures
            r == old(self).ticket,
            final(self).ticket is None,
    {
        self.ticket.take()
    }
}

/// Takes the serialised form of a session, given what the TLS stack returned for it.
pub fn session_to_bytes(rv: i32, data: Option<Vec<u8>>) -> (r: Option<Vec<u8>>)
    ensures
        r == (if rv == 1 {
            data
        } else {
            None
        }),
{
    if rv != 1 {
        return None;
    }
    data
}

/// Stores a new session ticket in its serialised form, if there is one.
pub fn new_session_callback(slot: &mut SessionTicketSlot, session: Option<Vec<u8>>)
    ensures
        final(slot).ticket == (if session is Some {
            session
        } else {
            old(slot).ticket
        }),
{
    match session {
        Some(bytes) => slot.store(bytes),
        None => {},
    }
}

/// One step of setting the name of the server.
#[derive(Debug, Clone, Copy, PartialEq, Eq, Structural)]
pub enum NameStep {
    /// Set the server name indication.
    SetIndication,
    /// Set the name that the certificate must bear.
    SetVerifiedHost,
    /// The name is set.
    Done,
}

/// One step of restoring a session of an earlier connection.
#[derive(Debug, Clone, Copy, PartialEq, Eq, Structural)]
pub enum RestoreStep {
    /// Parse the session; the result is 0 if it is not one.
    Parse,
    /// Ask whether the session allows early data; the result is 0 if not.
    AskEarlyData,
    /// Set the session and release it.
    Install {
        /// Whether the session allows early data.
        early_data: bool,
    },
    /// Switch early data on.
    EnableEarlyData,
    /// The session is set.
    Done {
        /// Whether early data can be sent.
        early_data: bool,
    },
}

/// What follows once `step` of restoring a session has given `rv`; the message if it failed.
pub open spec fn restore_outcome(step: RestoreStep, rv: i32) -> Result<RestoreStep, Seq<char>> {
    match step {
        RestoreStep::Parse => if rv != 0 {
            Ok(RestoreStep::AskEarlyData)
        } else {
            Err("invalid TLS session"@)
        },
        RestoreStep::AskEarlyData => Ok(RestoreStep::Install { early_data: rv != 0 }),
        RestoreStep::Install { early_data } => if rv != 1 {
            Err("TLS session cannot be set"@)
        } else if early_data {
            Ok(RestoreStep::EnableEarlyData)
        } else {
            Ok(RestoreStep::Done { early_data: false })
        },
        RestoreStep::EnableEarlyData => Ok(RestoreStep::Done { early_data: true }),
        RestoreStep::Done { early_data } => Ok(RestoreStep::Done { early_data }),
    }
}

/// Early data is announced exactly if the session allows it and was set, and then it is switched
/// on first.
pub proof fn lemma_early_data_needs_capable_session(capable: i32, set: i32)
    ensures
        ({
            let asked = restore_outcome(RestoreStep::AskEarlyData, capable);
            let after = restore_outcome(asked->Ok_0, set);
            &&& asked is Ok
            &&& after is Ok <==> set == 1
            &&& after == Ok::<RestoreStep, Seq<char>>(RestoreStep::EnableEarlyData) <==> set == 1
                && capable != 0
            &&& after == Ok::<RestoreStep, Seq<char>>(RestoreStep::Done { early_data: false })
                <==> set == 1 && capable == 0
        }),
{
}

/// A session is restored only from bytes that are one, and early data counts as switched on once it
/// was.
pub proof fn lemma_restore_steps(parsed: i32, any: i32)
    ensures
        restore_outcome(RestoreStep::Parse, parsed) is Ok <==> parsed != 0,
        parsed != 0 ==> restore_outcome(RestoreStep::Parse, parsed) == Ok::<
            RestoreStep,
            Seq<char>,
        >(RestoreStep::AskEarlyData),
        restore_outcome(RestoreStep::EnableEarlyData, any) == Ok::<RestoreStep, Seq<char>>(
            RestoreStep::Done { early_data: true },
        ),
{
}

impl RestoreStep {
    /// Takes the result of this step and returns the next one.
    pub fn next(self, rv: i32) -> (r: Result<RestoreStep, Error>)
        ensures
            match restore_outcome(self, rv) {
                Ok(next) => r == Ok::<RestoreStep, Error>(next),
                Err(text) => r matches Err(e) && e.is_invalid_argument(text),
            },
    {
        match self {
            RestoreStep::Parse => if rv != 0 {
                Ok(RestoreStep::AskEarlyData)
            } else {
                Err(Error::invalid_argument("invalid TLS session"))
            },
            RestoreStep::AskEarlyData => Ok(RestoreStep::Install { early_data: rv != 0 }),
            RestoreStep::Install { early_data } => if rv != 1 {
                Err(Error::invalid_argument("TLS session cannot be set"))
            } else if early_data {
                Ok(RestoreStep::EnableEarlyData)
            } else {
                Ok(RestoreStep::Done { early_data: false })
            },
            RestoreStep::EnableEarlyData => Ok(RestoreStep::Done { early_data: true }),
            RestoreStep::Done { early_data } => Ok(RestoreStep::Done { early_data }),
        }
    }
}

impl NameStep {
    /// Takes the result of this step and returns the next one.
    pub fn next(self, rv: i32) -> (r: Result<NameStep, Error>)
        ensures
            match self {
                NameStep::SetIndication => if rv == 1 {
                    r == Ok::<NameStep, Error>(NameStep::SetVerifiedHost)
                } else {
                    r matches Err(e) && e.is_internal("SSL_set_tlsext_host_name failed"@)
                },
                NameStep::SetVerifiedHost => if rv == 1 {
                    r == Ok::<NameStep, Error>(NameStep::Done)
                } else {
                    r matches Err(e) && e.is_internal("SSL_set1_host failed"@)
                },
                NameStep::Done => r == Ok::<NameStep, Error>(NameStep::Done),
            },
    {
        match self {
            NameStep::SetIndication => if rv == 1 {
                Ok(NameStep::SetVerifiedHost)
            } else {
                Err(Error::internal("SSL_set_tlsext_host_name failed"))
            },
            NameStep::SetVerifiedHost => if rv == 1 {
                Ok(NameStep::Done)
            } else {
                Err(Error::internal("SSL_set1_host failed"))
            },
            NameStep::Done => Ok(NameStep::Done),
        }
    }
}

/// The TLS session of one connection.
pub struct TlsSession {
    /// Whether this is the session of a server.
    pub is_server: bool,
    /// Whether a server accepts 0-RTT data.
    pub accept_early_data: bool,
    /// Where the session tickets of a client go.
    pub ticket_slot: Option<SessionTicketSlot>,
}

/// Why `name` cannot be the name of a server, if it cannot.
///
/// The verification of host names knows DNS names only, so an IP address would never match. A DNS
/// name has at most 255 bytes (RFC 1035 Section 2.3.4).
pub open spec fn name_fault(name: Seq<char>, is_ip_address: bool) -> Option<Seq<char>> {
    if name.len() == 0 {
        Some("server_name must be a DNS name, not empty"@)
    } else if is_ip_address {
        Some("server_name must be a DNS name, not an IP address"@)
    } else if name.contains('*') {
        Some("server_name must be a DNS name, not a wildcard"@)
    } else if vstd::utf8::encode_utf8(name).len() > 255 {
        Some("server_name exceeds 255 bytes"@)
    } else if name.contains('\0') {
        Some("invalid server name"@)
    } else {
        None
    }
}

/// Every DNS name is accepted, whatever its characters are: only an empty name, an IP address, a name
/// of more than 255 bytes and one with an asterisk or a NUL in it are refused, and each of these alone
/// is enough.
pub proof fn lemma_names_that_are_accepted(name: Seq<char>, is_ip_address: bool)
    ensures
        name_fault(name, is_ip_address) is None <==> {
            &&& name.len() > 0
            &&& !is_ip_address
            &&& forall|i: int| 0 <= i < name.len() ==> name[i] != '*' && name[i] != '\0'
            &&& vstd::utf8::encode_utf8(name).len() <= 255
        },
{
    if name.contains('*') {
        let i = choose|i: int| 0 <= i < name.len() && name[i] == '*';
        assert(name[i] == '*');
    }
    if name.contains('\0') {
        let i = choose|i: int| 0 <= i < name.len() && name[i] == '\0';
        assert(name[i] == '\0');
    }
    if !name.contains('*') && !name.contains('\0') {
        assert forall|i: int| 0 <= i < name.len() implies name[i] != '*' && name[i] != '\0' by {
            assert(name.contains(name[i]));
        }
    }
}

/// The texts of different faults differ, and a fault that comes earlier hides a later one: an empty
/// name, an IP address, a wildcard, a long name, a NUL.
pub proof fn lemma_name_faults_in_order(name: Seq<char>, is_ip_address: bool)
    ensures
        name.len() == 0 ==> name_fault(name, is_ip_address) == Some(
            "server_name must be a DNS name, not empty"@,
        ),
        name.len() > 0 && is_ip_address ==> name_fault(name, is_ip_address) == Some(
            "server_name must be a DNS name, not an IP address"@,
        ),
        !is_ip_address && (exists|i: int| 0 <= i < name.len() && name[i] == '*') ==> name_fault(
            name,
            is_ip_address,
        ) == Some("server_name must be a DNS name, not a wildcard"@),
        !is_ip_address && name.len() > 0 && (forall|i: int| 0 <= i < name.len() ==> name[i] != '*')
            && vstd::utf8::encode_utf8(name).len() > 255 ==> name_fault(name, is_ip_address) == Some(
            "server_name exceeds 255 bytes"@,
        ),
        !is_ip_address && (forall|i: int| 0 <= i < name.len() ==> name[i] != '*')
            && vstd::utf8::encode_utf8(name).len() <= 255 && (exists|i: int|
            0 <= i < name.len() && name[i] == '\0') ==> name_fault(name, is_ip_address) == Some(
            "invalid server name"@,
        ),
{
}

impl TlsSession {
    /// Checks the name of the server and returns the first step of setting it.
    ///
    /// `is_ip_address` says whether `server_name` reads as an IP address.
    pub fn set_server_name(&self, server_name: &str, is_ip_address: bool) -> (r: Result<
        NameStep,
        Error,
    >)
        ensures
            self.is_server ==> (r matches Err(e) && e.is_invalid_argument(
                "cannot set server name on server session"@,
            )),
            !self.is_server ==> match name_fault(server_name@, is_ip_address) {
                Some(text) => r matches Err(e) && e.is_invalid_argument(text),
                None => r == Ok::<NameStep, Error>(NameStep::SetIndication),
            },
            !self.is_server ==> (r is Ok <==> {
                &&& server_name@.len() > 0
                &&& !is_ip_address
                &&& forall|i: int|
                    0 <= i < server_name@.len() ==> server_name@[i] != '*' && server_name@[i]
                        != '\0'
                &&& vstd::utf8::encode_utf8(server_name@).len() <= 255
            }),
    {
        proof {
            lemma_names_that_are_accepted(server_name@, is_ip_address);
        }
        if self.is_server {
            return Err(Error::invalid_argument("cannot set server name on server session"));
        }
        if server_name.is_empty() {
            return Err(Error::invalid_argument("server_name must be a DNS name, not empty"));
        }
        if is_ip_address {
            return Err(
                Error::invalid_argument("server_name must be a DNS name, not an IP address"),
            );
        }
        if contains_ascii(server_name, 42) {
            return Err(Error::invalid_argument("server_name must be a DNS name, not a wildcard"));
        }
        if server_name.as_bytes().len() > 255 {
            return Err(Error::invalid_argument("server_name exceeds 255 bytes"));
        }
        if contains_ascii(server_name, 0) {
            return Err(Error::invalid_argument("invalid server name"));
        }
        Ok(NameStep::SetIndication)
    }

    /// Turns the result of setting the transport parameters into a result.
    pub fn set_quic_transport_params(rv: i32) -> (r: Result<(), Error>)
        ensures
            rv == 1 ==> r is Ok,
            rv != 1 ==> (r matches Err(e) && e.is_internal(
                "SSL_set_quic_transport_params failed"@,
            )),
    {
        if rv != 1 {
            return Err(Error::internal("SSL_set_quic_transport_params failed"));
        }
        Ok(())
    }

    /// Returns the protocol that was negotiated (RFC 7301 Section 3), given what the TLS stack
    /// holds; an empty one stands for none.
    pub fn selected_alpn_protocol(data: Option<&[u8]>) -> (r: Option<Vec<u8>>)
        ensures
            match data {
                Some(bytes) if bytes@.len() > 0 => r matches Some(protocol) && protocol@ == bytes@,
                _ => r is None,
            },
    {
        match data {
            Some(bytes) => if bytes.len() > 0 {
                Some(slice_to_vec(bytes))
            } else {
                None
            },
            None => None,
        }
    }

    /// Checks a session of an earlier connection and returns the first step of restoring it.
    pub fn set_session(&self, session: &[u8]) -> (r: Result<RestoreStep, Error>)
        ensures
            self.is_server ==> (r matches Err(e) && e.is_invalid_argument(
                "cannot set session on server session"@,
            )),
            !self.is_server && session@.len() == 0 ==> (r matches Err(e) && e.is_invalid_argument(
                "session is empty"@,
            )),
            !self.is_server && session@.len() > 0 ==> r == Ok::<RestoreStep, Error>(
                RestoreStep::Parse,
            ),
    {
        if self.is_server {
            return Err(Error::invalid_argument("cannot set session on server session"));
        }
        if session.len() == 0 {
            return Err(Error::invalid_argument("session is empty"));
        }
        Ok(RestoreStep::Parse)
    }

    /// Takes the session ticket that came last; `None` if none has come since the last call.
    pub fn take_session_ticket(&mut self) -> (r: Option<Vec<u8>>)
        ensures
            r == (match old(self).ticket_slot {
                Some(slot) => slot.ticket,
                None => None,
            }),
            final(self).is_server == old(self).is_server,
            final(self).accept_early_data == old(self).accept_early_data,
            final(self).ticket_slot is Some <==> old(self).ticket_slot is Some,
            final(self).ticket_slot matches Some(slot) ==> slot.ticket is None,
    {
        match self.ticket_slot.take() {
            Some(mut slot) => {
                let ticket: Option<Vec<u8>> = slot.take();
                self.ticket_slot = Some(slot);
                ticket
            },
            None => None,
        }
    }

    /// Returns whether 0-RTT data is accepted.
    pub fn accepts_early_data(&self) -> (r: bool)
        ensures
            r == self.accept_early_data,
    {
        self.accept_early_data
    }

    /// Checks that the condition for accepting 0-RTT data can be set here.
    pub fn check_early_data_context(&self) -> (r: Result<(), Error>)
        ensures
            self.is_server ==> r is Ok,
            !self.is_server ==> (r matches Err(e) && e.is_invalid_argument(
                "cannot set early data context on client session"@,
            )),
    {
        if !self.is_server {
            return Err(Error::invalid_argument("cannot set early data context on client session"));
        }
        Ok(())
    }

    /// Turns the result of setting the condition for accepting 0-RTT data into a result.
    pub fn set_quic_early_data_context(&self, rv: i32) -> (r: Result<(), Error>)
        ensures
            !self.is_server ==> (r matches Err(e) && e.is_invalid_argument(
                "cannot set early data context on client session"@,
            )),
            self.is_server && rv == 1 ==> r is Ok,
            self.is_server && rv != 1 ==> (r matches Err(e) && e.is_internal(
                "SSL_set_quic_early_data_context failed"@,
            )),
    {
        match self.check_early_data_context() {
            Ok(()) => {},
            Err(e) => {
                return Err(e);
            },
        }
        if rv != 1 {
            return Err(Error::internal("SSL_set_quic_early_data_context failed"));
        }
        Ok(())
    }
}

} // verus!
