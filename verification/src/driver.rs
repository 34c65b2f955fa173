//! A driver that runs an echo client or an echo server from the command line.
//!
//! What the driver decides stands here: its arguments, the state of both applications and the order
//! of the calls that a client makes. Sockets and the QUIC stack are driven from outside.

use vstd::prelude::*;
use vstd::slice::slice_to_vec;

use crate::text::{push_digits, same_text};

verus! {

/// The flags of a command line.
#[derive(Debug, Clone, Copy, PartialEq, Eq, Structural)]
pub struct Options {
    /// Use 0-RTT data.
    pub early_data: bool,
    /// Migrate, or accept that the peer does.
    pub migration: bool,
}

/// What a command line says.
#[verifier::ext_equal]
pub struct Parsed {
    /// The arguments that are no flags.
    pub positional: Seq<Seq<char>>,
    /// The flags.
    pub options: Options,
}

/// Whether `arg` is written like a flag.
pub open spec fn is_flag(arg: Seq<char>) -> bool {
    arg.len() >= 2 && arg[0] == '-' && arg[1] == '-'
}

/// What the command line `args` says, or what is wrong with it. The first flag that is not known is
/// the one that is reported.
pub open spec fn parsed(args: Seq<Seq<char>>) -> Result<Parsed, Seq<char>>
    decreases args.len(),
{
    if args.len() == 0 {
        Ok(
            Parsed {
                positional: Seq::empty(),
                options: Options { early_data: false, migration: false },
            },
        )
    } else {
        match parsed(args.drop_last()) {
            Err(e) => Err(e),
            Ok(before) => {
                let arg = args.last();
                if arg == "--early-data"@ {
                    Ok(
                        Parsed {
                            options: Options { early_data: true, ..before.options },
                            ..before
                        },
                    )
                } else if arg == "--migration"@ || arg == "--migrate"@ {
                    Ok(
                        Parsed {
                            options: Options { migration: true, ..before.options },
                            ..before
                        },
                    )
                } else if is_flag(arg) {
                    Err("unknown option: "@ + arg)
                } else {
                    Ok(Parsed { positional: before.positional.push(arg), ..before })
                }
            },
        }
    }
}

/// What follows an unknown flag does not matter.
pub proof fn lemma_unknown_flag_stays(args: Seq<Seq<char>>, n: int)
    requires
        0 <= n <= args.len(),
        parsed(args.take(n)) is Err,
    ensures
        parsed(args) == parsed(args.take(n)),
    decreases args.len() - n,
{
    if n < args.len() {
        assert(args.take(n + 1).drop_last() =~= args.take(n));
        lemma_unknown_flag_stays(args, n + 1);
    } else {
        assert(args.take(n) =~= args);
    }
}

/// Whether a command line knows the flag `arg`.
pub open spec fn is_known_flag(arg: Seq<char>) -> bool {
    arg == "--early-data"@ || arg == "--migration"@ || arg == "--migrate"@
}

/// A command line is refused exactly if it has an argument that starts with two hyphens and is no known
/// flag, and the first such argument is named.
///
/// Otherwise the arguments that do not start with two hyphens stand in their order, and each flag is
/// set exactly if it is there, wherever it stands and however often.
pub proof fn lemma_command_line(args: Seq<Seq<char>>)
    ensures
        match parsed(args) {
            Err(text) => exists|i: int|
                0 <= i < args.len() && is_flag(args[i]) && !is_known_flag(args[i]) && text
                    == "unknown option: "@ + #[trigger] args[i] && forall|j: int|
                    0 <= j < i ==> !(is_flag(#[trigger] args[j]) && !is_known_flag(args[j])),
            Ok(p) => {
                &&& forall|i: int|
                    0 <= i < args.len() ==> !(is_flag(#[trigger] args[i]) && !is_known_flag(
                        args[i],
                    ))
                &&& p.positional == args.filter(
                    |arg: Seq<char>| !(arg.len() >= 2 && arg[0] == '-' && arg[1] == '-'),
                )
                &&& p.options.early_data <==> args.contains("--early-data"@)
                &&& p.options.migration <==> args.contains("--migration"@) || args.contains(
                    "--migrate"@,
                )
            },
        },
    decreases args.len(),
{
    reveal_strlit("--early-data");
    reveal_strlit("--migration");
    reveal_strlit("--migrate");
    assert("--early-data"@.len() != "--migration"@.len());
    assert("--early-data"@.len() != "--migrate"@.len());
    assert("--migration"@.len() != "--migrate"@.len());
    let plain = |arg: Seq<char>| !(arg.len() >= 2 && arg[0] == '-' && arg[1] == '-');
    reveal(Seq::filter);
    if args.len() == 0 {
        assert(args.filter(plain) =~= Seq::<Seq<char>>::empty());
    } else {
        let before = args.drop_last();
        let arg = args.last();
        lemma_command_line(before);
        assert(args =~= before.push(arg));
        assert forall|x: Seq<char>| args.contains(x) <==> before.contains(x) || x == arg by {
            if before.contains(x) {
                let i = choose|i: int| 0 <= i < before.len() && before[i] == x;
                assert(args[i] == x);
            }
            if x == arg {
                assert(args[args.len() - 1] == x);
            }
        }
        match parsed(before) {
            Err(text) => {
                let i = choose|i: int|
                    0 <= i < before.len() && is_flag(before[i]) && !is_known_flag(before[i])
                        && text == "unknown option: "@ + #[trigger] before[i] && forall|j: int|
                        0 <= j < i ==> !(is_flag(#[trigger] before[j]) && !is_known_flag(
                            before[j],
                        ));
                assert(args[i] == before[i]);
                assert forall|j: int| 0 <= j < i implies !(is_flag(#[trigger] args[j])
                    && !is_known_flag(args[j])) by {
                    assert(args[j] == before[j]);
                }
            },
            Ok(p) => {
                let last = args.len() - 1;
                assert(args[last] == arg);
                assert forall|j: int| 0 <= j < last implies !(is_flag(#[trigger] args[j])
                    && !is_known_flag(args[j])) by {
                    assert(args[j] == before[j]);
                }
            },
        }
    }
}

/// Returns whether `arg` is written like a flag.
fn looks_like_flag(arg: &str) -> (r: bool)
    ensures
        r == is_flag(arg@),
{
    arg.unicode_len() >= 2 && arg.get_char(0) == '-' && arg.get_char(1) == '-'
}

/// Splits a command line into positional arguments and flags.
///
/// It is an error if there is a flag that is not known.
pub fn parse_args(args: &[String]) -> (r: Result<(Vec<String>, Options), String>)
    ensures
        match parsed(crate::text::texts(args@)) {
            Ok(p) => r matches Ok((positional, options)) && crate::text::texts(positional@)
                == p.positional && options == p.options,
            Err(text) => r matches Err(e) && e@ == text,
        },
{
    let mut positional: Vec<String> = Vec::new();
    let mut options: Options = Options { early_data: false, migration: false };
    let ghost all = crate::text::texts(args@);
    let mut i: usize = 0;
    assert(crate::text::texts(positional@) =~= Seq::<Seq<char>>::empty());
    assert(all.take(0) =~= Seq::<Seq<char>>::empty());
    while i < args.len()
        invariant
            i <= args@.len(),
            all == crate::text::texts(args@),
            parsed(all.take(i as int)) == Ok::<Parsed, Seq<char>>(
                Parsed { positional: crate::text::texts(positional@), options },
            ),
        decreases args@.len() - i,
    {
        let arg: &String = &args[i];
        proof {
            assert(all.take(i + 1).drop_last() =~= all.take(i as int));
            assert(all.take(i + 1).last() == arg@);
        }
        let ghost before = positional@;
        if same_text(arg.as_str(), "--early-data") {
            options.early_data = true;
        } else if same_text(arg.as_str(), "--migration") || same_text(arg.as_str(), "--migrate") {
            options.migration = true;
        } else if looks_like_flag(arg.as_str()) {
            let mut text: String = "unknown option: ".to_owned();
            text.append(arg.as_str());
            proof {
                lemma_unknown_flag_stays(all, i + 1);
            }
            return Err(text);
        } else {
            positional.push(arg.as_str().to_owned());
            assert(crate::text::texts(positional@) =~= crate::text::texts(before).push(arg@));
        }
        i = i + 1;
    }
    assert(all.take(i as int) =~= all);
    Ok((positional, options))
}

/// How a client connects.
#[derive(Debug, Clone, Copy, PartialEq, Eq, Structural)]
pub enum ClientMode {
    /// With a full handshake.
    Plain,
    /// With 0-RTT data on a second connection.
    EarlyData,
    /// With a change of the local address.
    Migrate,
}

/// What a client is asked to do.
pub struct ClientCommand {
    /// The address of the server.
    pub server_addr: String,
    /// The path of the CA certificate.
    pub ca_cert_path: String,
    /// What is to be sent.
    pub payload: Vec<u8>,
    /// How to connect.
    pub mode: ClientMode,
}

/// Which connections a server accepts.
#[derive(Debug, Clone, Copy, PartialEq, Eq, Structural)]
pub struct ServerOptions {
    /// Accept 0-RTT data.
    pub early_data: bool,
    /// Accept that the peer migrates.
    pub migration: bool,
}

/// What a server is asked to do.
pub struct ServerCommand {
    /// The path of the certificate.
    pub cert_path: String,
    /// The path of the private key.
    pub key_path: String,
    /// Which connections to accept.
    pub options: ServerOptions,
}

/// Why a command line is refused.
pub struct Refusal {
    /// What to say, if anything.
    pub message: Option<String>,
    /// Whether to show how the driver is used.
    pub usage: bool,
}

impl Refusal {
    /// Whether this says `message` and shows the usage if `usage` says so.
    pub open spec fn says(self, message: Option<Seq<char>>, usage: bool) -> bool {
        &&& self.usage == usage
        &&& match message {
            Some(text) => self.message matches Some(m) && m@ == text,
            None => self.message is None,
        }
    }
}

/// Returns a copy of a text.
fn copied(s: &String) -> (r: String)
    ensures
        r@ == s@,
{
    s.as_str().to_owned()
}

/// Reads the command line of a client: the address of the server, the path of the CA certificate and
/// what is to be sent.
pub fn client(args: &[String]) -> (r: Result<ClientCommand, Refusal>)
    ensures
        match parsed(crate::text::texts(args@)) {
            Err(text) => r matches Err(f) && f.says(Some(text), true),
            Ok(p) => if p.positional.len() != 3 {
                r matches Err(f) && f.says(None, true)
            } else if p.options.early_data && p.options.migration {
                r matches Err(f) && f.says(
                    Some("--early-data and --migrate cannot be used together"@),
                    false,
                )
            } else {
                r matches Ok(c) && c.server_addr@ == p.positional[0] && c.ca_cert_path@
                    == p.positional[1] && c.payload@ == vstd::utf8::encode_utf8(p.positional[2])
                    && c.mode == (if p.options.migration {
                    ClientMode::Migrate
                } else if p.options.early_data {
                    ClientMode::EarlyData
                } else {
                    ClientMode::Plain
                })
            },
        },
{
    let (positional, options): (Vec<String>, Options) = match parse_args(args) {
        Ok(split) => split,
        Err(text) => {
            return Err(Refusal { message: Some(text), usage: true });
        },
    };
    let ghost shown = crate::text::texts(positional@);
    if positional.len() != 3 {
        return Err(Refusal { message: None, usage: true });
    }
    if options.early_data && options.migration {
        return Err(
            Refusal {
                message: Some("--early-data and --migrate cannot be used together".to_owned()),
                usage: false,
            },
        );
    }
    assert(shown[0] == positional@[0]@ && shown[1] == positional@[1]@ && shown[2]
        == positional@[2]@);
    Ok(
        ClientCommand {
            server_addr: copied(&positional[0]),
            ca_cert_path: copied(&positional[1]),
            payload: slice_to_vec(positional[2].as_str().as_bytes()),
            mode: if options.migration {
                ClientMode::Migrate
            } else if options.early_data {
                ClientMode::EarlyData
            } else {
                ClientMode::Plain
            },
        },
    )
}

/// Refuses an address that cannot be read.
pub fn invalid_server_address(text: &str) -> (r: Refusal)
    ensures
        r.says(Some("invalid server address: "@ + text@), false),
{
    let mut message: String = "invalid server address: ".to_owned();
    message.append(text);
    Refusal { message: Some(message), usage: false }
}

/// Reads the command line of a server: the paths of the certificate and of the private key.
pub fn server(args: &[String]) -> (r: Result<ServerCommand, Refusal>)
    ensures
        match parsed(crate::text::texts(args@)) {
            Err(text) => r matches Err(f) && f.says(Some(text), true),
            Ok(p) => if p.positional.len() != 2 {
                r matches Err(f) && f.says(None, true)
            } else {
                r matches Ok(c) && c.cert_path@ == p.positional[0] && c.key_path@ == p.positional[1]
                    && c.options.early_data == p.options.early_data && c.options.migration
                    == p.options.migration
            },
        },
{
    let (positional, options): (Vec<String>, Options) = match parse_args(args) {
        Ok(split) => split,
        Err(text) => {
            return Err(Refusal { message: Some(text), usage: true });
        },
    };
    let ghost shown = crate::text::texts(positional@);
    if positional.len() != 2 {
        return Err(Refusal { message: None, usage: true });
    }
    assert(shown[0] == positional@[0]@ && shown[1] == positional@[1]@);
    Ok(
        ServerCommand {
            cert_path: copied(&positional[0]),
            key_path: copied(&positional[1]),
            options: ServerOptions {
                early_data: options.early_data,
                migration: options.migration,
            },
        },
    )
}

/// The application of a client: it sends one request, reads the echo and closes the connection.
pub struct EchoClientApp {
    /// What is sent.
    pub payload: Vec<u8>,
    /// Whether it was sent.
    pub sent: bool,
    /// What was received.
    pub received: Vec<u8>,
    /// Whether the echo is complete.
    pub fin: bool,
    /// Whether the application is finished.
    pub done: bool,
    /// Whether the outcome was handed over.
    pub delivered: bool,
}

impl EchoClientApp {
    /// Makes the application.
    pub fn new(payload: Vec<u8>) -> (r: EchoClientApp)
        ensures
            r.payload == payload,
            r.received@ == Seq::<u8>::empty(),
            !r.sent && !r.fin && !r.done && !r.delivered,
    {
        EchoClientApp {
            payload,
            sent: false,
            received: Vec::new(),
            fin: false,
            done: false,
            delivered: false,
        }
    }

    /// Returns whether the request is to be sent now: once, and not before the handshake is
    /// complete.
    pub fn send_request(&self, established: bool) -> (r: bool)
        ensures
            r == (!self.sent && established),
    {
        !self.sent && established
    }

    /// Takes in that the request was sent.
    pub fn request_sent(&mut self)
        ensures
            *final(self) == (EchoClientApp { sent: true, ..*old(self) }),
    {
        self.sent = true;
    }

    /// Returns whether the application still acts.
    pub fn should_act(&self) -> (r: bool)
        ensures
            r == !self.done,
    {
        !self.done
    }

    /// Takes in data of a stream.
    pub fn read(&mut self, data: &[u8], fin: bool)
        ensures
            final(self).received@ == old(self).received@ + data@,
            *final(self) == (EchoClientApp {
                received: final(self).received,
                fin: old(self).fin || fin,
                ..*old(self)
            }),
    {
        self.received.extend_from_slice(data);
        assert(self.received@ =~= old(self).received@ + data@);
        if fin {
            self.fin = true;
        }
    }

    /// Ends a round of reading. Returns the echo if it is complete and was not returned before; the
    /// connection is then to be closed.
    pub fn process_reads(&mut self) -> (r: Option<Vec<u8>>)
        ensures
            if old(self).fin && !old(self).done {
                &&& r matches Some(echo) && echo@ == old(self).received@
                &&& final(self).received@ == Seq::<u8>::empty()
                &&& *final(self) == (EchoClientApp {
                    received: final(self).received,
                    done: true,
                    ..*old(self)
                })
            } else {
                r is None && *final(self) == *old(self)
            },
    {
        if self.fin && !self.done {
            self.done = true;
            let mut echo: Vec<u8> = Vec::new();
            std::mem::swap(&mut echo, &mut self.received);
            Some(echo)
        } else {
            None
        }
    }

    /// Returns whether the outcome may be handed over, which happens once.
    pub fn finish(&mut self) -> (r: bool)
        ensures
            r == !old(self).delivered,
            *final(self) == (EchoClientApp { delivered: true, ..*old(self) }),
    {
        let first: bool = !self.delivered;
        self.delivered = true;
        first
    }

    /// Takes in that the connection is closed, with the failure if there is one. Returns what went
    /// wrong, unless the echo is complete.
    pub fn on_conn_close(&self, failure: Option<&str>) -> (r: Option<String>)
        ensures
            if self.fin {
                r is None
            } else {
                r matches Some(text) && text@ == (match failure {
                    None => "the connection closed before the echo arrived"@,
                    Some(e) => "the connection failed: "@ + e@,
                })
            },
    {
        if self.fin {
            return None;
        }
        match failure {
            None => Some("the connection closed before the echo arrived".to_owned()),
            Some(e) => {
                let mut text: String = "the connection failed: ".to_owned();
                text.append(e);
                Some(text)
            },
        }
    }
}

/// The application of a server: it sends back what it receives on a stream and reports it.
pub struct EchoServerApp {
    /// Which connections are accepted.
    pub options: ServerOptions,
    /// What was received and not reported yet.
    pub received: Vec<u8>,
    /// Whether 0-RTT data was received.
    pub early_data_received: bool,
    /// Whether a connection ID was issued for a migration of the peer.
    pub extra_scid_issued: bool,
    /// Whether what was received has been reported.
    pub reported: bool,
    /// Whether the end of the connection has been reported.
    pub close_reported: bool,
}

/// The text of a truth value.
pub open spec fn bool_text(b: bool) -> Seq<char> {
    if b {
        "true"@
    } else {
        "false"@
    }
}

/// The report of `len` received bytes.
pub open spec fn report_text(len: nat, early_data: bool) -> Seq<char> {
    crate::text::digits(len) + " bytes (early data: "@ + bool_text(early_data) + ")"@
}

impl EchoServerApp {
    /// Makes the application.
    pub fn new(options: ServerOptions) -> (r: EchoServerApp)
        ensures
            r.options == options,
            r.received@ == Seq::<u8>::empty(),
            !r.early_data_received && !r.extra_scid_issued && !r.reported && !r.close_reported,
    {
        EchoServerApp {
            options,
            received: Vec::new(),
            early_data_received: false,
            extra_scid_issued: false,
            reported: false,
            close_reported: false,
        }
    }

    /// Returns whether a connection ID is to be issued for a migration of the peer
    /// (RFC 9000 Section 9.5): once, if migration is accepted, and not before the handshake is
    /// complete.
    pub fn issue_extra_scid(&self, established: bool) -> (r: bool)
        ensures
            r == (self.options.migration && !self.extra_scid_issued && established),
    {
        self.options.migration && !self.extra_scid_issued && established
    }

    /// Takes in that a connection ID was issued.
    pub fn extra_scid_sent(&mut self)
        ensures
            *final(self) == (EchoServerApp { extra_scid_issued: true, ..*old(self) }),
    {
        self.extra_scid_issued = true;
    }

    /// Returns the line that reports what was received, once for a connection.
    pub fn report(&mut self) -> (r: Option<String>)
        ensures
            if old(self).reported {
                r is None && *final(self) == *old(self)
            } else {
                &&& r matches Some(line) && line@ == report_text(
                    old(self).received@.len(),
                    old(self).early_data_received,
                )
                &&& final(self).received@ == Seq::<u8>::empty()
                &&& *final(self) == (EchoServerApp {
                    received: final(self).received,
                    reported: true,
                    ..*old(self)
                })
            },
    {
        if self.reported {
            return None;
        }
        self.reported = true;
        let mut line: String = String::new();
        push_digits(&mut line, self.received.len() as u64);
        line.append(" bytes (early data: ");
        if self.early_data_received {
            line.append("true");
        } else {
            line.append("false");
        }
        line.append(")");
        assert(line@ =~= report_text(old(self).received@.len(), old(self).early_data_received));
        self.received.clear();
        Some(line)
    }

    /// Takes in that a stream has ended with `data` in all, which has been sent back. Returns the
    /// line that reports it, if it is reported.
    pub fn stream_echoed(&mut self, data: &[u8], in_early_data: bool) -> (r: Option<String>)
        ensures
            if old(self).reported {
                &&& r is None
                &&& final(self).received@ == old(self).received@ + data@
                &&& *final(self) == (EchoServerApp {
                    received: final(self).received,
                    early_data_received: old(self).early_data_received || in_early_data,
                    ..*old(self)
                })
            } else {
                &&& r matches Some(line) && line@ == report_text(
                    old(self).received@.len() + data@.len(),
                    old(self).early_data_received || in_early_data,
                )
                &&& final(self).received@ == Seq::<u8>::empty()
                &&& *final(self) == (EchoServerApp {
                    received: final(self).received,
                    early_data_received: old(self).early_data_received || in_early_data,
                    reported: true,
                    ..*old(self)
                })
            },
    {
        if in_early_data {
            self.early_data_received = true;
        }
        self.received.extend_from_slice(data);
        assert(self.received@ =~= old(self).received@ + data@);
        self.report()
    }

    /// Returns the line that reports how the connection ended, once, and only for a connection that
    /// has received data.
    ///
    /// A draining connection was closed by the peer.
    pub fn report_peer_close(&mut self, draining: bool, closed: bool, timed_out: bool) -> (r: Option<
        String,
    >)
        ensures
            if old(self).close_reported || !old(self).reported || !(draining || closed
                || timed_out) {
                r is None && *final(self) == *old(self)
            } else {
                &&& r matches Some(line) && line@ == (if draining {
                    "peer closed"@
                } else {
                    "connection ended without a peer close"@
                })
                &&& *final(self) == (EchoServerApp { close_reported: true, ..*old(self) })
            },
    {
        if self.close_reported || !self.reported {
            return None;
        }
        if draining {
            self.close_reported = true;
            return Some("peer closed".to_owned());
        }
        if closed || timed_out {
            self.close_reported = true;
            return Some("connection ended without a peer close".to_owned());
        }
        None
    }
}

/// The data of one stream, put together from what is read of it.
pub struct StreamReader {
    /// What was read.
    pub data: Vec<u8>,
    /// Whether the stream has ended.
    pub fin: bool,
}

impl StreamReader {
    /// Nothing read yet.
    pub fn new() -> (r: StreamReader)
        ensures
            r.data@ == Seq::<u8>::empty(),
            !r.fin,
    {
        StreamReader { data: Vec::new(), fin: false }
    }

    /// Takes in data of the stream.
    pub fn push(&mut self, data: &[u8], fin: bool)
        ensures
            final(self).data@ == old(self).data@ + data@,
            final(self).fin == (old(self).fin || fin),
    {
        self.data.extend_from_slice(data);
        assert(self.data@ =~= old(self).data@ + data@);
        if fin {
            self.fin = true;
        }
    }
}

/// What a client does next while it waits.
#[derive(Debug, Clone, Copy, PartialEq, Eq, Structural)]
pub enum WaitAction {
    /// What it waited for is there.
    Finished,
    /// It has waited too long.
    TimedOut,
    /// It receives a packet, or moves the timers on if none comes, and sends what is pending.
    Pump,
}

/// Returns what a client does next while it waits.
pub fn wait_action(satisfied: bool, expired: bool) -> (r: WaitAction)
    ensures
        r == (if satisfied {
            WaitAction::Finished
        } else if expired {
            WaitAction::TimedOut
        } else {
            WaitAction::Pump
        }),
{
    if satisfied {
        WaitAction::Finished
    } else if expired {
        WaitAction::TimedOut
    } else {
        WaitAction::Pump
    }
}

/// Returns what is said if a client has waited too long.
pub fn timed_out(description: &str) -> (r: String)
    ensures
        r@ == "timed out while waiting for "@ + description@,
{
    let mut text: String = "timed out while waiting for ".to_owned();
    text.append(description);
    text
}

/// One call of a client that drives the QUIC stack itself.
#[derive(Debug, Clone, Copy, PartialEq, Eq, Structural)]
pub enum DriverStep {
    /// Load the CA certificate.
    LoadCertificate,
    /// Bind a socket.
    Bind,
    /// Make the connection.
    Connect,
    /// Set the session of the earlier connection.
    SetSession,
    /// Send the first packets.
    SendFirst,
    /// Wait until the handshake is complete.
    AwaitHandshake,
    /// Wait until the session ticket has arrived.
    AwaitTicket,
    /// Wait until the peer has issued a spare connection ID.
    AwaitSpareCid,
    /// Issue a connection ID for the new path.
    IssueScid,
    /// Bind a socket for the new path.
    BindNew,
    /// Probe the new path.
    Probe,
    /// Wait until the new path is validated.
    AwaitValidation,
    /// Move to the new path.
    Migrate,
    /// Send 0-RTT data.
    SendEarlyData,
    /// Send the request.
    SendRequest,
    /// Read the echo.
    ReadEcho,
    /// Check that the session was resumed.
    CheckResumed,
    /// Close the connection.
    Close,
    /// All is done.
    Done,
}

/// What a client that drives the QUIC stack itself is after.
#[derive(Debug, Clone, Copy, PartialEq, Eq, Structural)]
pub enum Script {
    /// The session ticket of a first connection.
    FetchSession,
    /// The echo of 0-RTT data on a second connection (RFC 9001 Section 4.6).
    EarlyData,
    /// The echo over a path to which it has moved (RFC 9000 Section 9).
    Migrate,
}

impl Script {
    /// All calls in order.
    pub open spec fn steps(self) -> Seq<DriverStep> {
        match self {
            Script::FetchSession => seq![
                DriverStep::LoadCertificate,
                DriverStep::Bind,
                DriverStep::Connect,
                DriverStep::SendFirst,
                DriverStep::AwaitTicket,
                DriverStep::Close,
                DriverStep::Done,
            ],
            Script::EarlyData => seq![
                DriverStep::LoadCertificate,
                DriverStep::Bind,
                DriverStep::Connect,
                DriverStep::SetSession,
                DriverStep::SendEarlyData,
                DriverStep::ReadEcho,
                DriverStep::CheckResumed,
                DriverStep::Done,
            ],
            Script::Migrate => seq![
                DriverStep::LoadCertificate,
                DriverStep::Bind,
                DriverStep::Connect,
                DriverStep::SendFirst,
                DriverStep::AwaitHandshake,
                DriverStep::AwaitSpareCid,
                DriverStep::IssueScid,
                DriverStep::BindNew,
                DriverStep::Probe,
                DriverStep::AwaitValidation,
                DriverStep::Migrate,
                DriverStep::SendRequest,
                DriverStep::ReadEcho,
                DriverStep::Close,
                DriverStep::Done,
            ],
        }
    }

    /// Returns the call that follows `step`, which is one of this script.
    pub fn next(self, step: DriverStep) -> (r: DriverStep)
        requires
            self.steps().contains(step),
        ensures
            step == DriverStep::Done ==> r == DriverStep::Done,
            forall|i: int|
                0 <= i < self.steps().len() - 1 && self.steps()[i] == step ==> r
                    == #[trigger] self.steps()[i + 1],
    {
        match step {
            DriverStep::LoadCertificate => DriverStep::Bind,
            DriverStep::Bind => DriverStep::Connect,
            DriverStep::Connect => match self {
                Script::EarlyData => DriverStep::SetSession,
                _ => DriverStep::SendFirst,
            },
            DriverStep::SetSession => DriverStep::SendEarlyData,
            DriverStep::SendFirst => match self {
                Script::FetchSession => DriverStep::AwaitTicket,
                _ => DriverStep::AwaitHandshake,
            },
            DriverStep::AwaitHandshake => DriverStep::AwaitSpareCid,
            DriverStep::AwaitTicket => DriverStep::Close,
            DriverStep::AwaitSpareCid => DriverStep::IssueScid,
            DriverStep::IssueScid => DriverStep::BindNew,
            DriverStep::BindNew => DriverStep::Probe,
            DriverStep::Probe => DriverStep::AwaitValidation,
            DriverStep::AwaitValidation => DriverStep::Migrate,
            DriverStep::Migrate => DriverStep::SendRequest,
            DriverStep::SendEarlyData => DriverStep::ReadEcho,
            DriverStep::SendRequest => DriverStep::ReadEcho,
            DriverStep::ReadEcho => match self {
                Script::EarlyData => DriverStep::CheckResumed,
                _ => DriverStep::Close,
            },
            DriverStep::CheckResumed => DriverStep::Done,
            DriverStep::Close => DriverStep::Done,
            DriverStep::Done => DriverStep::Done,
        }
    }
}

/// A client moves to a path only after it has probed that path and found it valid, and sends its
/// request only after it has moved.
pub proof fn lemma_migration_order(i: int, j: int, k: int, m: int)
    requires
        0 <= i < Script::Migrate.steps().len(),
        0 <= j < Script::Migrate.steps().len(),
        0 <= k < Script::Migrate.steps().len(),
        0 <= m < Script::Migrate.steps().len(),
        Script::Migrate.steps()[i] == DriverStep::Probe,
        Script::Migrate.steps()[j] == DriverStep::AwaitValidation,
        Script::Migrate.steps()[k] == DriverStep::Migrate,
        Script::Migrate.steps()[m] == DriverStep::SendRequest,
    ensures
        i < j < k < m,
{
}

/// The session of an earlier connection is set before anything is sent, and 0-RTT data goes out
/// without waiting for the handshake.
pub proof fn lemma_early_data_order(i: int, j: int)
    requires
        0 <= i < Script::EarlyData.steps().len(),
        0 <= j < Script::EarlyData.steps().len(),
        Script::EarlyData.steps()[i] == DriverStep::SetSession,
        Script::EarlyData.steps()[j] == DriverStep::SendEarlyData,
    ensures
        i + 1 == j,
        !Script::EarlyData.steps().contains(DriverStep::AwaitHandshake),
{
}

/// What is said of a failure of `step`.
pub open spec fn failure_prefix(step: DriverStep) -> Seq<char> {
    match step {
        DriverStep::LoadCertificate => "failed to load certificate: "@,
        DriverStep::Bind | DriverStep::BindNew => "failed to bind: "@,
        DriverStep::Connect => "failed to create connection: "@,
        DriverStep::SetSession => "failed to set session: "@,
        DriverStep::IssueScid => "failed to issue a new scid: "@,
        DriverStep::Probe => "failed to probe the new path: "@,
        DriverStep::Migrate => "failed to migrate: "@,
        DriverStep::SendEarlyData => "failed to send early data: "@,
        DriverStep::SendRequest => "failed to send request: "@,
        DriverStep::Close => "failed to close the connection: "@,
        _ => "failed to write packet: "@,
    }
}

/// Returns what is said if `step` fails with the error `detail`.
pub fn failure(step: DriverStep, detail: &str) -> (r: String)
    ensures
        r@ == failure_prefix(step) + detail@,
{
    let mut text: String = match step {
        DriverStep::LoadCertificate => "failed to load certificate: ",
        DriverStep::Bind | DriverStep::BindNew => "failed to bind: ",
        DriverStep::Connect => "failed to create connection: ",
        DriverStep::SetSession => "failed to set session: ",
        DriverStep::IssueScid => "failed to issue a new scid: ",
        DriverStep::Probe => "failed to probe the new path: ",
        DriverStep::Migrate => "failed to migrate: ",
        DriverStep::SendEarlyData => "failed to send early data: ",
        DriverStep::SendRequest => "failed to send request: ",
        DriverStep::Close => "failed to close the connection: ",
        _ => "failed to write packet: ",
    }.to_owned();
    text.append(detail);
    text
}

/// Returns whether the packets that are pending go out at once after `step`.
///
/// After a request they go out while the echo is read.
pub fn flush_after(step: DriverStep) -> (r: bool)
    ensures
        r == (step == DriverStep::SendFirst || step == DriverStep::SendEarlyData || step
            == DriverStep::IssueScid || step == DriverStep::Migrate || step == DriverStep::Close),
{
    match step {
        DriverStep::SendFirst
        | DriverStep::SendEarlyData
        | DriverStep::IssueScid
        | DriverStep::Migrate
        | DriverStep::Close => true,
        _ => false,
    }
}

/// The largest datagram that the driver sends or receives, in bytes.
pub const MAX_DATAGRAM_SIZE: usize = 1350;

/// How the driver sets the QUIC stack up. Windows are well above what a test sends, so that flow
/// control never blocks.
#[derive(Debug, Clone, Copy, PartialEq, Eq, Structural)]
pub struct StackSettings {
    /// The idle timeout in milliseconds.
    pub max_idle_timeout: u64,
    /// The largest UDP payload that is sent or received.
    pub max_udp_payload_size: usize,
    /// The window of the connection.
    pub initial_max_data: u64,
    /// The window of a stream of any kind.
    pub initial_max_stream_data: u64,
    /// How many streams of each direction the peer may open.
    pub initial_max_streams: u64,
    /// Whether the certificate of the peer is verified.
    pub verify_peer: bool,
    /// Whether 0-RTT data is sent or accepted.
    pub early_data: bool,
    /// Whether the peer is asked not to migrate.
    pub disable_active_migration: bool,
}

impl StackSettings {
    /// Whether the windows are those of the driver.
    pub open spec fn has_wide_windows(self) -> bool {
        &&& self.max_udp_payload_size == MAX_DATAGRAM_SIZE
        &&& self.initial_max_data == 10_000_000
        &&& self.initial_max_stream_data == 1_000_000
        &&& self.initial_max_streams == 100
    }
}

/// Returns the settings of a client that drives the QUIC stack itself. It verifies the certificate
/// of the server, and it may always migrate.
pub fn client_config(early_data: bool) -> (r: StackSettings)
    ensures
        r.has_wide_windows(),
        r.max_idle_timeout == 10_000,
        r.verify_peer,
        r.early_data == early_data,
        !r.disable_active_migration,
{
    StackSettings {
        max_idle_timeout: 10_000,
        max_udp_payload_size: MAX_DATAGRAM_SIZE,
        initial_max_data: 10_000_000,
        initial_max_stream_data: 1_000_000,
        initial_max_streams: 100,
        verify_peer: true,
        early_data,
        disable_active_migration: false,
    }
}

/// Returns the settings of an endpoint whose QUIC stack runs by itself: those of a server with these
/// options, or those of a client, which verifies the certificate of the server.
pub fn base_settings(server: Option<ServerOptions>) -> (r: StackSettings)
    ensures
        r.has_wide_windows(),
        r.max_idle_timeout == 2_000,
        r.verify_peer == (server is None),
        match server {
            Some(options) => {
                &&& r.early_data == options.early_data
                &&& r.disable_active_migration == !options.migration
            },
            None => !r.early_data && r.disable_active_migration,
        },
{
    StackSettings {
        max_idle_timeout: 2_000,
        max_udp_payload_size: MAX_DATAGRAM_SIZE,
        initial_max_data: 10_000_000,
        initial_max_stream_data: 1_000_000,
        initial_max_streams: 100,
        verify_peer: server.is_none(),
        early_data: match server {
            Some(options) => options.early_data,
            None => false,
        },
        disable_active_migration: match server {
            Some(options) => !options.migration,
            None => true,
        },
    }
}

/// The length of the connection IDs that a client issues, in bytes.
pub const SCID_LEN: usize = 20;

/// Calls `getrandom::fill`, which fills a buffer with random bytes of the operating system or fails.
///
/// Which bytes they are is not claimed, only how many. An error is turned into its text.
#[verifier::external_body]
fn system_random(len: usize) -> (r: Result<Vec<u8>, String>)
    ensures
        r matches Ok(bytes) ==> bytes@.len() == len,
{
    let mut bytes = vec![0u8; len];
    match getrandom::fill(&mut bytes) {
        Ok(()) => Ok(bytes),
        Err(e) => Err(e.to_string()),
    }
}

/// A connection ID for a new path and its Stateless Reset token as a big-endian number.
pub struct NewScid {
    /// The connection ID.
    pub scid: Vec<u8>,
    /// The Stateless Reset token.
    pub reset_token: u128,
}

/// Puts a connection ID and the bytes of its Stateless Reset token together.
pub fn scid_with_token(scid: Vec<u8>, token: &[u8]) -> (r: NewScid)
    requires
        token@.len() == 16,
    ensures
        r.scid == scid,
        r.reset_token == crate::bytes::be_value(token@),
{
    let mut value: u128 = 0;
    let mut i: usize = 0;
    assert(token@.take(0) =~= Seq::<u8>::empty());
    while i < token.len()
        invariant
            i <= token@.len(),
            token@.len() == 16,
            value == crate::bytes::be_value(token@.take(i as int)),
            value < crate::bytes::pow256(i as nat),
        decreases token@.len() - i,
    {
        proof {
            assert(token@.take(i + 1).drop_last() =~= token@.take(i as int));
            reveal_with_fuel(crate::bytes::pow256, 17);
        }
        value = value * 256 + token[i] as u128;
        i = i + 1;
    }
    assert(token@.take(i as int) =~= token@);
    NewScid { scid, reset_token: value }
}

/// Makes a random connection ID.
pub fn random_scid() -> (r: Result<Vec<u8>, String>)
    ensures
        match r {
            Ok(scid) => scid@.len() == SCID_LEN,
            Err(text) => "failed to generate scid: "@.is_prefix_of(text@),
        },
{
    match system_random(SCID_LEN) {
        Ok(bytes) => Ok(bytes),
        Err(e) => {
            let mut text: String = "failed to generate scid: ".to_owned();
            text.append(e.as_str());
            Err(text)
        },
    }
}

/// Makes a random connection ID and a random Stateless Reset token for a new path
/// (RFC 9000 Section 9.5).
pub fn new_scid() -> (r: Result<NewScid, String>)
    ensures
        match r {
            Ok(new) => new.scid@.len() == SCID_LEN,
            Err(text) => "failed to generate scid: "@.is_prefix_of(text@)
                || "failed to generate reset token: "@.is_prefix_of(text@),
        },
{
    let scid: Vec<u8> = match random_scid() {
        Ok(bytes) => bytes,
        Err(e) => {
            return Err(e);
        },
    };
    let token: Vec<u8> = match system_random(16) {
        Ok(bytes) => bytes,
        Err(e) => {
            let mut text: String = "failed to generate reset token: ".to_owned();
            text.append(e.as_str());
            return Err(text);
        },
    };
    Ok(scid_with_token(scid, token.as_slice()))
}

} // verus!
