//! Making a connection.
//!
//! The engine and the TLS stack are set up step by step. Each step names one call; its result is
//! handed back, and the next step or the failure follows.

use vstd::prelude::*;
use vstd::slice::slice_to_vec;

use crate::addr::{cid_to_raw, sockaddr_to_raw, RawCid, RawSockaddr};
use crate::callbacks::{create_client_callbacks, create_server_callbacks, Callbacks};
use crate::config::{RawTransportParams, TransportParams};
use crate::conn::{Connection, ConnectionUserData, SessionTicket};
use crate::crypto::TlsSession;
use crate::error::Error;
use crate::reset::StatelessResetSecret;
use crate::settings::{low_nanos, RawSettings, Settings};
use crate::types::{ConnectionId, QuicVersion, SocketAddr};

verus! {

/// One step of making a connection.
#[derive(Debug, Clone, Copy, PartialEq, Eq, Structural)]
pub enum SetupStep {
    /// Set the server name indication.
    SetIndication,
    /// Set the name that the certificate must bear.
    SetVerifiedHost,
    /// Let the engine make the connection.
    Create,
    /// Set after how much idle time a keep-alive packet is sent.
    SetKeepAlive,
    /// Tie the TLS session and the connection together.
    BindTls,
    /// Encode the transport parameters of this side.
    EncodeParams,
    /// Hand the encoded transport parameters to the TLS stack.
    ///
    /// A server needs them there before it processes the first packet.
    SetParams,
    /// Encode the transport parameters that limit 0-RTT data.
    EncodeContext,
    /// Set them as the condition under which 0-RTT data is accepted (RFC 9001 Section 4.6.1).
    SetContext,
    /// Let the engine take the transport parameters of an earlier connection.
    DecodeEarlyParams,
    /// The connection is made.
    Done,
}

/// What went wrong while a connection was made.
pub struct SetupFailure {
    /// The error that is reported.
    pub error: Error,
    /// Whether the engine has made the connection, so that it has to be deleted.
    pub delete: bool,
}

/// What a connection is made with.
pub struct ConnectionPlan {
    /// Whether the connection is that of a server.
    pub is_server: bool,
    /// The Destination Connection ID.
    pub dcid: RawCid,
    /// The Source Connection ID.
    pub scid: RawCid,
    /// The local address.
    pub local: RawSockaddr,
    /// The remote address.
    pub remote: RawSockaddr,
    /// The version on the wire.
    pub version: u32,
    /// The name of the server that a client asks for and verifies.
    pub server_name: Option<String>,
    /// What the engine calls back.
    pub callbacks: Callbacks,
    /// The settings of the engine.
    pub settings: RawSettings,
    /// The transport parameters of this side.
    pub params: RawTransportParams,
    /// After how many idle nanoseconds a keep-alive packet is sent, if at all.
    pub keep_alive: Option<u64>,
    /// The secret that Stateless Reset tokens are derived from, if there is one.
    pub stateless_reset_secret: Option<StatelessResetSecret>,
    /// Whether the TLS session is that of a server.
    pub server_session: bool,
    /// Whether the TLS session accepts 0-RTT data.
    pub accept_early_data: bool,
    /// The transport parameters of an earlier connection that a client resumes.
    pub early_params: Option<Vec<u8>>,
}

/// How a step failed.
pub enum SetupFault {
    /// The engine reported an error.
    Engine,
    /// The TLS stack reported a failure.
    Internal(Seq<char>),
    /// An argument is not acceptable.
    InvalidArgument(Seq<char>),
    /// The transport parameters of an earlier connection cannot be read.
    EarlyParams,
}

impl ConnectionPlan {
    /// Whether a client resumes an earlier connection.
    pub open spec fn resumes(self) -> bool {
        self.early_params is Some
    }

    /// What follows the steps that every connection takes.
    pub open spec fn after_params(self) -> SetupStep {
        if self.accept_early_data {
            SetupStep::EncodeContext
        } else {
            self.after_context()
        }
    }

    /// What follows the condition for 0-RTT data.
    pub open spec fn after_context(self) -> SetupStep {
        if self.resumes() {
            SetupStep::DecodeEarlyParams
        } else {
            SetupStep::Done
        }
    }

    /// What follows once `step` has given `rv`.
    pub open spec fn outcome(self, step: SetupStep, rv: isize) -> Result<SetupStep, SetupFault> {
        match step {
            SetupStep::SetIndication => if rv == 1 {
                Ok(SetupStep::SetVerifiedHost)
            } else {
                Err(SetupFault::Internal("SSL_set_tlsext_host_name failed"@))
            },
            SetupStep::SetVerifiedHost => if rv == 1 {
                Ok(SetupStep::Create)
            } else {
                Err(SetupFault::Internal("SSL_set1_host failed"@))
            },
            SetupStep::Create => if rv < 0 {
                Err(SetupFault::Engine)
            } else if self.keep_alive is Some {
                Ok(SetupStep::SetKeepAlive)
            } else {
                Ok(SetupStep::BindTls)
            },
            SetupStep::SetKeepAlive => Ok(SetupStep::BindTls),
            SetupStep::BindTls => Ok(SetupStep::EncodeParams),
            SetupStep::EncodeParams => if rv < 0 {
                Err(SetupFault::Engine)
            } else {
                Ok(SetupStep::SetParams)
            },
            SetupStep::SetParams => if rv == 1 {
                Ok(self.after_params())
            } else {
                Err(SetupFault::Internal("SSL_set_quic_transport_params failed"@))
            },
            SetupStep::EncodeContext => if rv < 0 {
                Err(SetupFault::Engine)
            } else if !self.server_session {
                Err(
                    SetupFault::InvalidArgument("cannot set early data context on client session"@),
                )
            } else {
                Ok(SetupStep::SetContext)
            },
            SetupStep::SetContext => if rv == 1 {
                Ok(self.after_context())
            } else {
                Err(SetupFault::Internal("SSL_set_quic_early_data_context failed"@))
            },
            SetupStep::DecodeEarlyParams => if rv == 0 {
                Ok(SetupStep::Done)
            } else {
                Err(SetupFault::EarlyParams)
            },
            SetupStep::Done => Ok(SetupStep::Done),
        }
    }

    /// Whether the engine has made the connection before `step` ends.
    pub open spec fn created(step: SetupStep) -> bool {
        !(step == SetupStep::SetIndication || step == SetupStep::SetVerifiedHost || step
            == SetupStep::Create)
    }

    /// Whether `f` is the failure of `step`, in the way that `fault` says.
    pub open spec fn is_failure(
        step: SetupStep,
        fault: SetupFault,
        rv: isize,
        message: Option<String>,
        f: SetupFailure,
    ) -> bool {
        &&& f.delete == ConnectionPlan::created(step)
        &&& match fault {
            SetupFault::Engine => f.error.reports(rv as i32, message),
            SetupFault::Internal(text) => f.error.is_internal(text),
            SetupFault::InvalidArgument(text) => f.error.is_invalid_argument(text),
            SetupFault::EarlyParams => exists|cause: Error|
                cause.reports(rv as i32, message) && f.error.is_invalid_argument(
                    "invalid 0-RTT transport params: "@ + #[trigger] cause.text(),
                ),
        }
    }

    /// Takes the result of a step and returns the next one; `message` is the engine's text for an
    /// error code.
    pub fn next(&self, step: SetupStep, rv: isize, message: Option<String>) -> (r: Result<
        SetupStep,
        SetupFailure,
    >)
        ensures
            match self.outcome(step, rv) {
                Ok(next) => r == Ok::<SetupStep, SetupFailure>(next),
                Err(fault) => r matches Err(f) && ConnectionPlan::is_failure(
                    step,
                    fault,
                    rv,
                    message,
                    f,
                ),
            },
    {
        match step {
            SetupStep::SetIndication => if rv == 1 {
                Ok(SetupStep::SetVerifiedHost)
            } else {
                Err(
                    SetupFailure {
                        error: Error::internal("SSL_set_tlsext_host_name failed"),
                        delete: false,
                    },
                )
            },
            SetupStep::SetVerifiedHost => if rv == 1 {
                Ok(SetupStep::Create)
            } else {
                Err(
                    SetupFailure { error: Error::internal("SSL_set1_host failed"), delete: false },
                )
            },
            SetupStep::Create => if rv < 0 {
                Err(SetupFailure { error: Error::from_ngtcp2(rv as i32, message), delete: false })
            } else if self.keep_alive.is_some() {
                Ok(SetupStep::SetKeepAlive)
            } else {
                Ok(SetupStep::BindTls)
            },
            SetupStep::SetKeepAlive => Ok(SetupStep::BindTls),
            SetupStep::BindTls => Ok(SetupStep::EncodeParams),
            SetupStep::EncodeParams => if rv < 0 {
                Err(SetupFailure { error: Error::from_ngtcp2(rv as i32, message), delete: true })
            } else {
                Ok(SetupStep::SetParams)
            },
            SetupStep::SetParams => if rv != 1 {
                Err(
                    SetupFailure {
                        error: Error::internal("SSL_set_quic_transport_params failed"),
                        delete: true,
                    },
                )
            } else if self.accept_early_data {
                Ok(SetupStep::EncodeContext)
            } else if self.early_params.is_some() {
                Ok(SetupStep::DecodeEarlyParams)
            } else {
                Ok(SetupStep::Done)
            },
            SetupStep::EncodeContext => if rv < 0 {
                Err(SetupFailure { error: Error::from_ngtcp2(rv as i32, message), delete: true })
            } else if !self.server_session {
                Err(
                    SetupFailure {
                        error: Error::invalid_argument(
                            "cannot set early data context on client session",
                        ),
                        delete: true,
                    },
                )
            } else {
                Ok(SetupStep::SetContext)
            },
            SetupStep::SetContext => if rv != 1 {
                Err(
                    SetupFailure {
                        error: Error::internal("SSL_set_quic_early_data_context failed"),
                        delete: true,
                    },
                )
            } else if self.early_params.is_some() {
                Ok(SetupStep::DecodeEarlyParams)
            } else {
                Ok(SetupStep::Done)
            },
            SetupStep::DecodeEarlyParams => if rv == 0 {
                Ok(SetupStep::Done)
            } else {
                let cause: Error = Error::from_ngtcp2(rv as i32, message);
                let mut text: String = "invalid 0-RTT transport params: ".to_owned();
                let detail: String = cause.display();
                text.append(detail.as_str());
                Err(SetupFailure { error: Error::InvalidArgument(text), delete: true })
            },
            SetupStep::Done => Ok(SetupStep::Done),
        }
    }

    /// Whether this is the plan of a connection with these arguments.
    pub open spec fn holds(
        self,
        dcid: Seq<u8>,
        scid: Seq<u8>,
        local: SocketAddr,
        remote: SocketAddr,
        version: QuicVersion,
        server_name: Option<Seq<char>>,
        session: TlsSession,
        params: TransportParams,
        settings: Settings,
    ) -> bool {
        &&& self.dcid.bytes() == dcid && self.dcid.datalen == dcid.len()
        &&& self.scid.bytes() == scid && self.scid.datalen == scid.len()
        &&& self.local.holds(local, true)
        &&& self.remote.holds(remote, true)
        &&& self.version == version.wire()
        &&& match server_name {
            Some(name) => self.server_name matches Some(held) && held@ == name,
            None => self.server_name is None,
        }
        &&& self.callbacks.client_initial == !self.is_server
        &&& self.callbacks.recv_client_initial == self.is_server
        &&& self.callbacks.recv_retry == !self.is_server
        &&& self.callbacks.protects_packets()
        &&& self.callbacks.notifies_application()
        &&& settings.is_raw(self.settings)
        &&& params.is_raw(self.params)
        &&& self.keep_alive == (match settings.keep_alive_timeout {
            Some(timeout) => Some((timeout.nanos % 0x1_0000_0000_0000_0000) as u64),
            None => None,
        })
        &&& self.stateless_reset_secret == settings.stateless_reset_secret
        &&& self.server_session == session.is_server
        &&& self.accept_early_data == session.accept_early_data
        &&& self.early_params is None
    }

    /// Makes the plan of a connection with these arguments.
    fn make(
        is_server: bool,
        dcid: &ConnectionId,
        scid: &ConnectionId,
        local_addr: SocketAddr,
        remote_addr: SocketAddr,
        version: QuicVersion,
        server_name: Option<&str>,
        session: &TlsSession,
        params: &TransportParams,
        settings: &Settings,
    ) -> (r: ConnectionPlan)
        ensures
            r.is_server == is_server,
            r.holds(
                dcid@,
                scid@,
                local_addr,
                remote_addr,
                version,
                match server_name {
                    Some(name) => Some(name@),
                    None => None,
                },
                *session,
                *params,
                *settings,
            ),
    {
        ConnectionPlan {
            is_server,
            dcid: cid_to_raw(dcid),
            scid: cid_to_raw(scid),
            local: sockaddr_to_raw(&local_addr),
            remote: sockaddr_to_raw(&remote_addr),
            version: version.as_u32(),
            server_name: match server_name {
                Some(name) => Some(name.to_owned()),
                None => None,
            },
            callbacks: if is_server {
                create_server_callbacks()
            } else {
                create_client_callbacks()
            },
            settings: settings.to_raw(),
            params: params.to_raw(),
            keep_alive: match settings.keep_alive_timeout {
                Some(timeout) => Some(low_nanos(timeout)),
                None => None,
            },
            stateless_reset_secret: match &settings.stateless_reset_secret {
                Some(secret) => Some(secret.clone()),
                None => None,
            },
            server_session: session.is_server,
            accept_early_data: session.accept_early_data,
            early_params: None,
        }
    }

    /// Returns this plan for a client that resumes an earlier connection with these transport
    /// parameters.
    pub fn resuming(self, early_params: Vec<u8>) -> (r: ConnectionPlan)
        ensures
            r == (ConnectionPlan { early_params: Some(early_params), ..self }),
    {
        ConnectionPlan { early_params: Some(early_params), ..self }
    }

    /// Returns the connection that has been made.
    ///
    /// `early_data` says whether a session was restored that allows 0-RTT data.
    pub fn connection(self, tls_session: TlsSession, early_data: bool) -> (r: Connection)
        ensures
            r.tls_session == tls_session,
            r.user_data.stateless_reset_secret == self.stateless_reset_secret,
            r.user_data.early_data_attempted == (self.resumes() && early_data),
            r.user_data.events@ == Seq::<crate::event::ConnectionEvent>::empty(),
            r.user_data.issued_cids@ == Seq::<ConnectionId>::empty(),
            r.user_data.retired_cids@ == Seq::<ConnectionId>::empty(),
            r.user_data.qlog_data@ == Seq::<u8>::empty(),
            r.user_data.new_tokens@ == Seq::<Vec<u8>>::empty(),
            r.user_data.in_flight() == Map::<
                crate::types::StreamId,
                crate::inflight::InFlight,
            >::empty(),
    {
        let mut user_data: ConnectionUserData = ConnectionUserData::new();
        let ghost fresh = user_data;
        user_data.stateless_reset_secret = self.stateless_reset_secret;
        user_data.early_data_attempted = self.early_params.is_some() && early_data;
        assert(user_data.in_flight() == fresh.in_flight());
        Connection { user_data, tls_session }
    }
}

impl Connection {
    /// Plans the connection of a client and returns the first step.
    ///
    /// A client announces no original Destination Connection ID (RFC 9000 Section 7.3).
    /// `is_ip_address` says whether `server_name` reads as an IP address.
    pub fn client_new(
        dcid: &ConnectionId,
        scid: &ConnectionId,
        local_addr: SocketAddr,
        remote_addr: SocketAddr,
        version: QuicVersion,
        server_name: &str,
        is_ip_address: bool,
        tls_session: &TlsSession,
        params: &TransportParams,
        settings: &Settings,
    ) -> (r: Result<(ConnectionPlan, SetupStep), Error>)
        ensures
            r is Ok <==> {
                &&& params@.original_dcid is None
                &&& !tls_session.is_server
                &&& server_name@.len() > 0
                &&& !is_ip_address
                &&& forall|i: int|
                    0 <= i < server_name@.len() ==> server_name@[i] != '*' && server_name@[i]
                        != '\0'
                &&& vstd::utf8::encode_utf8(server_name@).len() <= 255
            },
            if params@.original_dcid is Some {
                r matches Err(e) && e.is_invalid_argument(
                    "original_dcid must not be set for a client connection"@,
                )
            } else if tls_session.is_server {
                r matches Err(e) && e.is_invalid_argument(
                    "cannot set server name on server session"@,
                )
            } else {
                match crate::crypto::name_fault(server_name@, is_ip_address) {
                    Some(text) => r matches Err(e) && e.is_invalid_argument(text),
                    None => {
                        r matches Ok((plan, step)) && step == SetupStep::SetIndication
                            && !plan.is_server && plan.holds(
                            dcid@,
                            scid@,
                            local_addr,
                            remote_addr,
                            version,
                            Some(server_name@),
                            *tls_session,
                            *params,
                            *settings,
                        )
                    },
                }
            },
    {
        proof {
            crate::crypto::lemma_names_that_are_accepted(server_name@, is_ip_address);
        }
        if params.has_original_dcid() {
            return Err(
                Error::invalid_argument("original_dcid must not be set for a client connection"),
            );
        }
        match tls_session.set_server_name(server_name, is_ip_address) {
            Err(e) => {
                return Err(e);
            },
            Ok(_) => {},
        }
        let plan: ConnectionPlan = ConnectionPlan::make(
            false,
            dcid,
            scid,
            local_addr,
            remote_addr,
            version,
            Some(server_name),
            tls_session,
            params,
            settings,
        );
        Ok((plan, SetupStep::SetIndication))
    }

    /// Plans the connection of a client that resumes an earlier one and may send 0-RTT data at once
    /// (RFC 9001 Section 4.6), and returns the first step.
    ///
    /// The session of the `ticket` has been restored before.
    pub fn client_new_with_0rtt(
        dcid: &ConnectionId,
        scid: &ConnectionId,
        local_addr: SocketAddr,
        remote_addr: SocketAddr,
        version: QuicVersion,
        server_name: &str,
        is_ip_address: bool,
        tls_session: &TlsSession,
        params: &TransportParams,
        settings: &Settings,
        ticket: &SessionTicket,
    ) -> (r: Result<(ConnectionPlan, SetupStep), Error>)
        ensures
            r is Ok <==> {
                &&& params@.original_dcid is None
                &&& !tls_session.is_server
                &&& server_name@.len() > 0
                &&& !is_ip_address
                &&& forall|i: int|
                    0 <= i < server_name@.len() ==> server_name@[i] != '*' && server_name@[i]
                        != '\0'
                &&& vstd::utf8::encode_utf8(server_name@).len() <= 255
            },
            if params@.original_dcid is Some {
                r matches Err(e) && e.is_invalid_argument(
                    "original_dcid must not be set for a client connection"@,
                )
            } else if tls_session.is_server {
                r matches Err(e) && e.is_invalid_argument(
                    "cannot set server name on server session"@,
                )
            } else {
                match crate::crypto::name_fault(server_name@, is_ip_address) {
                    Some(text) => r matches Err(e) && e.is_invalid_argument(text),
                    None => {
                        r matches Ok((plan, step)) && step == SetupStep::SetIndication
                            && !plan.is_server && (plan.early_params matches Some(early) && early@
                            == ticket@.1) && (ConnectionPlan { early_params: None, ..plan }).holds(
                            dcid@,
                            scid@,
                            local_addr,
                            remote_addr,
                            version,
                            Some(server_name@),
                            *tls_session,
                            *params,
                            *settings,
                        )
                    },
                }
            },
    {
        proof {
            crate::crypto::lemma_names_that_are_accepted(server_name@, is_ip_address);
        }
        match Connection::client_new(
            dcid,
            scid,
            local_addr,
            remote_addr,
            version,
            server_name,
            is_ip_address,
            tls_session,
            params,
            settings,
        ) {
            Err(e) => Err(e),
            Ok((plan, step)) => {
                let ghost before = plan;
                let resumed: ConnectionPlan = plan.resuming(
                    slice_to_vec(ticket.transport_params()),
                );
                assert((ConnectionPlan { early_params: None, ..resumed }) == before);
                Ok((resumed, step))
            },
        }
    }

    /// Plans the connection of a server and returns the first step.
    ///
    /// A server announces the original Destination Connection ID (RFC 9000 Section 7.3).
    pub fn server_new(
        dcid: &ConnectionId,
        scid: &ConnectionId,
        local_addr: SocketAddr,
        remote_addr: SocketAddr,
        version: QuicVersion,
        tls_session: &TlsSession,
        params: &TransportParams,
        settings: &Settings,
    ) -> (r: Result<(ConnectionPlan, SetupStep), Error>)
        ensures
            if params@.original_dcid is None {
                r matches Err(e) && e.is_invalid_argument(
                    "original_dcid is required for a server connection"@,
                )
            } else {
                r matches Ok((plan, step)) && step == SetupStep::Create && plan.is_server
                    && plan.holds(
                    dcid@,
                    scid@,
                    local_addr,
                    remote_addr,
                    version,
                    None,
                    *tls_session,
                    *params,
                    *settings,
                )
            },
    {
        if !params.has_original_dcid() {
            return Err(
                Error::invalid_argument("original_dcid is required for a server connection"),
            );
        }
        let plan: ConnectionPlan = ConnectionPlan::make(
            true,
            dcid,
            scid,
            local_addr,
            remote_addr,
            version,
            None,
            tls_session,
            params,
            settings,
        );
        Ok((plan, SetupStep::Create))
    }
}

/// A connection that the engine has made is deleted on every later failure, and only then.
pub proof fn lemma_failure_deletes_what_was_made(
    plan: ConnectionPlan,
    step: SetupStep,
    rv: isize,
    message: Option<String>,
    f: SetupFailure,
)
    requires
        plan.outcome(step, rv) matches Err(fault) && ConnectionPlan::is_failure(
            step,
            fault,
            rv,
            message,
            f,
        ),
    ensures
        f.delete <==> step != SetupStep::SetIndication && step != SetupStep::SetVerifiedHost && step
            != SetupStep::Create,
{
}

/// A call of the TLS stack succeeds if it gives 1, one of the engine unless it gives a negative number,
/// and the parameters of an earlier connection are read if that gives 0. Asking for keep-alive packets
/// and tying session and connection together cannot fail.
///
/// The condition for 0-RTT data can be set on the session of a server only.
pub proof fn lemma_setup_results(plan: ConnectionPlan, step: SetupStep, rv: isize)
    ensures
        plan.outcome(step, rv) is Ok <==> match step {
            SetupStep::SetIndication
            | SetupStep::SetVerifiedHost
            | SetupStep::SetParams
            | SetupStep::SetContext => rv == 1,
            SetupStep::Create | SetupStep::EncodeParams => rv >= 0,
            SetupStep::EncodeContext => rv >= 0 && plan.server_session,
            SetupStep::DecodeEarlyParams => rv == 0,
            SetupStep::SetKeepAlive | SetupStep::BindTls | SetupStep::Done => true,
        },
        plan.outcome(step, rv) matches Err(fault) ==> (fault is Engine <==> step
            == SetupStep::Create || step == SetupStep::EncodeParams || (step
            == SetupStep::EncodeContext && rv < 0)),
        plan.outcome(step, rv) matches Err(fault) ==> (fault is EarlyParams <==> step
            == SetupStep::DecodeEarlyParams),
{
}

/// The steps from `step` to the end, if every call succeeds.
pub open spec fn steps_from(plan: ConnectionPlan, step: SetupStep, fuel: nat) -> Seq<SetupStep>
    decreases fuel,
{
    let rv: isize = if step == SetupStep::DecodeEarlyParams {
        0
    } else {
        1
    };
    if step == SetupStep::Done || fuel == 0 {
        seq![step]
    } else {
        match plan.outcome(step, rv) {
            Ok(next) => seq![step] + steps_from(plan, next, (fuel - 1) as nat),
            Err(_) => seq![step],
        }
    }
}

/// How a keep-alive packet is asked for: only if the settings say so.
pub open spec fn keep_alive_steps(plan: ConnectionPlan) -> Seq<SetupStep> {
    if plan.keep_alive is Some {
        seq![SetupStep::SetKeepAlive]
    } else {
        seq![]
    }
}

/// A client names its server before the connection is made, and takes the parameters of an earlier
/// connection last, before any stream can be opened.
pub proof fn lemma_client_steps(plan: ConnectionPlan)
    requires
        !plan.accept_early_data,
    ensures
        steps_from(plan, SetupStep::SetIndication, 12) == seq![
            SetupStep::SetIndication,
            SetupStep::SetVerifiedHost,
            SetupStep::Create,
        ] + keep_alive_steps(plan) + seq![
            SetupStep::BindTls,
            SetupStep::EncodeParams,
            SetupStep::SetParams,
        ] + (if plan.resumes() {
            seq![SetupStep::DecodeEarlyParams, SetupStep::Done]
        } else {
            seq![SetupStep::Done]
        }),
{
    reveal_with_fuel(steps_from, 10);
}

/// A server that accepts 0-RTT data sets the condition for it once the transport parameters are
/// set, and one that does not never sets one.
pub proof fn lemma_server_steps(plan: ConnectionPlan)
    requires
        plan.server_session,
        !plan.resumes(),
    ensures
        steps_from(plan, SetupStep::Create, 12) == seq![SetupStep::Create] + keep_alive_steps(plan)
            + seq![SetupStep::BindTls, SetupStep::EncodeParams, SetupStep::SetParams] + (
        if plan.accept_early_data {
            seq![SetupStep::EncodeContext, SetupStep::SetContext, SetupStep::Done]
        } else {
            seq![SetupStep::Done]
        }),
{
    reveal_with_fuel(steps_from, 9);
}

} // verus!
