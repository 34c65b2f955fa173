//! Address validation tokens (RFC 9000 Sections 8.1.2 to 8.1.4).
//!
//! A server makes sure that a client can receive at its address before it keeps any state: it
//! answers with a Retry packet that carries a token, and the client sends the token back. A token
//! that came in a NEW_TOKEN frame does the same for a later connection.

use vstd::prelude::*;
use vstd::slice::slice_subrange;
use vstd::slice::slice_to_vec;

use crate::addr::{cid_from_raw, cid_to_raw, sockaddr_to_raw, RawCid, RawSockaddr};
use crate::error::Error;
use crate::settings::low_nanos;
use crate::types::{ConnectionId, Duration, QuicVersion, SocketAddr, NGTCP2_MAX_CIDLEN};
use crate::version::{long_header_type, LongHeaderType, MIN_INITIAL_DATAGRAM_SIZE};
use crate::MIN_INITIAL_DCIDLEN;

verus! {

/// The length of the secret that tokens are made with, in bytes.
pub const RETRY_SECRET_LEN: usize = 32;

/// The length of the random part of a token, in bytes.
pub const NGTCP2_CRYPTO_TOKEN_RAND_DATALEN: usize = 16;

/// The largest length of a token of a Retry packet, in bytes: the first byte, a socket address, a
/// connection ID and its length, the time, the tag of the encryption and the random part.
pub const MAX_RETRY_TOKEN_LEN: usize = 1 + 28 + 1 + NGTCP2_MAX_CIDLEN + 8 + 16
    + NGTCP2_CRYPTO_TOKEN_RAND_DATALEN;

/// The largest length of a token of a NEW_TOKEN frame, in bytes: the first byte, the time, the tag of
/// the encryption and the random part.
pub const MAX_NEW_TOKEN_LEN: usize = 1 + 8 + 16 + NGTCP2_CRYPTO_TOKEN_RAND_DATALEN;

/// The largest length of the reason in a stateless CONNECTION_CLOSE, in bytes.
pub const MAX_CLOSE_REASON_LEN: usize = 64;

/// The transport error code INVALID_TOKEN (RFC 9000 Section 20.1).
pub const TRANSPORT_ERROR_INVALID_TOKEN: u64 = 0x0b;

/// The first byte of a token that came in a Retry packet.
pub const NGTCP2_CRYPTO_TOKEN_MAGIC_RETRY2: u8 = 0xb7;

/// The first byte of a token that came in a NEW_TOKEN frame.
pub const NGTCP2_CRYPTO_TOKEN_MAGIC_REGULAR: u8 = 0x36;

/// The engine's number for a token that came in a Retry packet.
pub const NGTCP2_TOKEN_TYPE_RETRY: u32 = 1;

/// The engine's number for a token that came in a NEW_TOKEN frame.
pub const NGTCP2_TOKEN_TYPE_NEW_TOKEN: u32 = 2;

/// How a token was handed out.
#[derive(Debug, Clone, Copy, PartialEq, Eq, Structural)]
pub enum AddressValidationTokenKind {
    /// In a Retry packet (RFC 9000 Section 8.1.3).
    Retry,
    /// In a NEW_TOKEN frame (RFC 9000 Section 8.1.4).
    NewToken,
}

impl AddressValidationTokenKind {
    /// The engine's number for this kind.
    pub open spec fn number(self) -> u32 {
        match self {
            AddressValidationTokenKind::Retry => NGTCP2_TOKEN_TYPE_RETRY,
            AddressValidationTokenKind::NewToken => NGTCP2_TOKEN_TYPE_NEW_TOKEN,
        }
    }

    /// Returns the engine's number for this kind.
    pub fn as_raw(self) -> (r: u32)
        ensures
            r == self.number(),
    {
        match self {
            AddressValidationTokenKind::Retry => NGTCP2_TOKEN_TYPE_RETRY,
            AddressValidationTokenKind::NewToken => NGTCP2_TOKEN_TYPE_NEW_TOKEN,
        }
    }
}

/// The kind of a token, told by its first byte.
pub open spec fn kind_of(token: Seq<u8>) -> Option<AddressValidationTokenKind> {
    if token.len() == 0 {
        None
    } else if token[0] == NGTCP2_CRYPTO_TOKEN_MAGIC_RETRY2 {
        Some(AddressValidationTokenKind::Retry)
    } else if token[0] == NGTCP2_CRYPTO_TOKEN_MAGIC_REGULAR {
        Some(AddressValidationTokenKind::NewToken)
    } else {
        None
    }
}

/// The first byte tells the kind of a token, and the rest does not matter: 0xb7 stands for Retry and
/// 0x36 for NEW_TOKEN. The engine's numbers for them are 1 and 2.
pub proof fn lemma_kind_by_first_byte(token: Seq<u8>)
    ensures
        kind_of(token) == Some(AddressValidationTokenKind::Retry) <==> token.len() > 0 && token[0]
            == 0xb7,
        kind_of(token) == Some(AddressValidationTokenKind::NewToken) <==> token.len() > 0
            && token[0] == 0x36,
        kind_of(token) matches Some(kind) ==> kind.number() == (if token[0] == 0xb7 {
            1int
        } else {
            2
        }),
{
}

/// Returns the kind of a token, or `None` if it is empty or its first byte is not known.
pub fn token_kind(token: &[u8]) -> (r: Option<AddressValidationTokenKind>)
    ensures
        r == kind_of(token@),
{
    if token.len() == 0 {
        return None;
    }
    let magic: u8 = token[0];
    if magic == NGTCP2_CRYPTO_TOKEN_MAGIC_RETRY2 {
        Some(AddressValidationTokenKind::Retry)
    } else if magic == NGTCP2_CRYPTO_TOKEN_MAGIC_REGULAR {
        Some(AddressValidationTokenKind::NewToken)
    } else {
        None
    }
}

/// A token that a client sends in its Initial packet (RFC 9000 Section 8.1).
#[derive(Debug, PartialEq, Eq)]
pub struct AddressValidationToken {
    bytes: Vec<u8>,
    kind: AddressValidationTokenKind,
}

impl View for AddressValidationToken {
    type V = (Seq<u8>, AddressValidationTokenKind);

    closed spec fn view(&self) -> (Seq<u8>, AddressValidationTokenKind) {
        (self.bytes@, self.kind)
    }
}

impl Clone for AddressValidationToken {
    fn clone(&self) -> (r: AddressValidationToken)
        ensures
            r@ == self@,
    {
        AddressValidationToken { bytes: slice_to_vec(self.bytes.as_slice()), kind: self.kind }
    }
}

impl AddressValidationToken {
    /// Takes the token of an Initial packet; its first byte tells its kind.
    ///
    /// Returns `None` if it is empty or its first byte is not known.
    pub fn from_packet(bytes: Vec<u8>) -> (r: Option<AddressValidationToken>)
        ensures
            match kind_of(bytes@) {
                Some(kind) => r matches Some(token) && token@ == (bytes@, kind),
                None => r is None,
            },
    {
        match token_kind(bytes.as_slice()) {
            Some(kind) => Some(AddressValidationToken { bytes, kind }),
            None => None,
        }
    }

    /// Returns the bytes of the token.
    pub fn as_bytes(&self) -> (r: &[u8])
        ensures
            r@ == self@.0,
    {
        self.bytes.as_slice()
    }

    /// Returns how the token was handed out.
    pub fn kind(&self) -> (r: AddressValidationTokenKind)
        ensures
            r == self@.1,
    {
        self.kind
    }

    /// Returns the engine's number for the kind of the token.
    pub fn as_raw_kind(&self) -> (r: u32)
        ensures
            r == self@.1.number(),
    {
        self.kind.as_raw()
    }
}

/// The secret that tokens are made with (RFC 9000 Section 8.1.3).
///
/// Whoever knows the secret can make valid tokens, so its bytes are never shown.
#[derive(PartialEq, Eq)]
pub struct RetrySecret {
    bytes: [u8; 32],
}

impl View for RetrySecret {
    type V = Seq<u8>;

    closed spec fn view(&self) -> Seq<u8> {
        self.bytes@
    }
}

impl Clone for RetrySecret {
    fn clone(&self) -> (r: RetrySecret)
        ensures
            r == *self,
    {
        RetrySecret { bytes: self.bytes }
    }
}

impl RetrySecret {
    /// Makes a secret out of random bytes, which can always be had.
    pub fn generate() -> (r: Option<RetrySecret>)
        ensures
            r matches Some(secret) && secret@.len() == RETRY_SECRET_LEN,
    {
        let mut bytes: [u8; 32] = [0; 32];
        match aws_lc_rs::rand::fill(&mut bytes) {
            Ok(()) => Some(RetrySecret { bytes }),
            Err(_) => None,
        }
    }

    /// Makes a secret out of known bytes, such as those that several servers share.
    pub fn from_bytes(bytes: [u8; 32]) -> (r: RetrySecret)
        ensures
            r@ == bytes@,
    {
        RetrySecret { bytes }
    }

    /// Returns the bytes of the secret, for making and verifying a token.
    pub fn expose(&self) -> (r: &[u8; 32])
        ensures
            r@ == self@,
    {
        &self.bytes
    }

    /// Returns a text that does not reveal the secret.
    pub fn debug(&self) -> (r: String)
        ensures
            r@ == "RetrySecret(<redacted>)"@,
    {
        "RetrySecret(<redacted>)".to_owned()
    }
}

/// An Initial packet that may open a connection.
#[derive(Debug, PartialEq, Eq)]
pub struct AcceptedInitial {
    /// The version field.
    pub version: u32,
    /// The Destination Connection ID that the client chose.
    ///
    /// Without a token it is the original one (RFC 9000 Section 7.3). With a token of a Retry
    /// packet it is the Source Connection ID of that packet.
    pub dcid: ConnectionId,
    /// The Source Connection ID of the client.
    pub scid: ConnectionId,
    /// The token; empty if there is none.
    pub token: Vec<u8>,
}

/// What an [`AcceptedInitial`] says.
#[verifier::ext_equal]
pub struct InitialView {
    /// The version field.
    pub version: u32,
    /// The Destination Connection ID.
    pub dcid: Seq<u8>,
    /// The Source Connection ID.
    pub scid: Seq<u8>,
    /// The token.
    pub token: Seq<u8>,
}

impl View for AcceptedInitial {
    type V = InitialView;

    open spec fn view(&self) -> InitialView {
        InitialView {
            version: self.version,
            dcid: self.dcid@,
            scid: self.scid@,
            token: self.token@,
        }
    }
}

impl Clone for AcceptedInitial {
    fn clone(&self) -> (r: AcceptedInitial)
        ensures
            r@ == self@,
    {
        AcceptedInitial {
            version: self.version,
            dcid: self.dcid.clone(),
            scid: self.scid.clone(),
            token: slice_to_vec(self.token.as_slice()),
        }
    }
}

/// What the datagram `s` says if it starts with an Initial packet that may open a connection.
///
/// It has to be an Initial of a known version, in a datagram of at least 1200 bytes
/// (RFC 9000 Section 14.1), whose connection IDs have at most 20 bytes and whose token and length
/// field lie within the datagram (RFC 9000 Section 17.2.2). Without a token the Destination
/// Connection ID has at least 8 bytes (RFC 9000 Section 7.2).
pub open spec fn initial_info(s: Seq<u8>) -> Option<InitialView> {
    let version = crate::packet::version_of(s) as u32;
    let cids = crate::packet::cids_end(s);
    if s.len() < MIN_INITIAL_DATAGRAM_SIZE || s[0] < 0x80 || crate::version::long_type(version, s[0]) != Some(
        LongHeaderType::Initial,
    ) || cids is None {
        None
    } else {
        let dcid_len = s[5] as int;
        let scid_len = s[6 + dcid_len] as int;
        let field = crate::varint::decoding(s.skip(cids->Some_0 as int));
        if dcid_len > NGTCP2_MAX_CIDLEN || scid_len > NGTCP2_MAX_CIDLEN || field is None {
            None
        } else {
            let (count, used) = field->Some_0;
            let start = cids->Some_0 + used;
            let end = start + count;
            if end > s.len() || crate::varint::decoding(s.skip(end as int)) is None || (start == end
                && dcid_len < MIN_INITIAL_DCIDLEN) {
                None
            } else {
                Some(
                    InitialView {
                        version,
                        dcid: s.subrange(6, 6 + dcid_len),
                        scid: s.subrange(7 + dcid_len, 7 + dcid_len + scid_len),
                        token: s.subrange(start as int, end as int),
                    },
                )
            }
        }
    }
}

/// Only an Initial of a known version in a datagram of at least 1200 bytes opens a connection, and
/// without a token its Destination Connection ID has at least 8 bytes.
pub proof fn lemma_initial_sound(s: Seq<u8>)
    ensures
        initial_info(s) matches Some(initial) ==> {
            &&& crate::types::QuicVersion::of_wire(initial.version) is Some
            &&& s.len() >= MIN_INITIAL_DATAGRAM_SIZE
            &&& initial.token.len() == 0 ==> initial.dcid.len() >= MIN_INITIAL_DCIDLEN
            &&& initial.dcid.len() <= NGTCP2_MAX_CIDLEN
            &&& initial.scid.len() <= NGTCP2_MAX_CIDLEN
        },
{
}

/// Every Initial of QUIC v1 or v2 in a datagram of at least 1200 bytes opens a connection, and is read
/// as it stands: version, connection IDs and token.
///
/// The connection IDs have at most 20 bytes, and without a token the Destination Connection ID has at
/// least 8 (RFC 9000 Section 7.2). The type bits of an Initial are 0, and 1 in QUIC v2.
pub proof fn lemma_initial_complete(
    first: u8,
    version: (u8, u8, u8, u8),
    dcid: Seq<u8>,
    scid: Seq<u8>,
    token_field: Seq<u8>,
    token: Seq<u8>,
    length_field: Seq<u8>,
    payload: Seq<u8>,
)
    requires
        first >= 0x80,
        (version == (0u8, 0u8, 0u8, 1u8) && (first / 16) % 4 == 0) || (version == (
            0x6bu8,
            0x33u8,
            0x43u8,
            0xcfu8,
        ) && (first / 16) % 4 == 1),
        dcid.len() <= 20,
        scid.len() <= 20,
        token.len() == 0 ==> dcid.len() >= 8,
        crate::varint::decoding(token_field) == Some((token.len(), token_field.len())),
        crate::varint::decoding(length_field) is Some,
        7 + dcid.len() + scid.len() + token_field.len() + token.len() + length_field.len()
            + payload.len() >= 1200,
    ensures
        ({
            let s = seq![first, version.0, version.1, version.2, version.3] + (seq![
                dcid.len() as u8,
            ] + dcid + seq![scid.len() as u8] + scid + (token_field + token + (length_field
                + payload)));
            initial_info(s) matches Some(initial) && {
                &&& initial.version == version.0 * 0x100_0000 + version.1 * 0x1_0000 + version.2
                    * 0x100 + version.3
                &&& initial.dcid == dcid
                &&& initial.scid == scid
                &&& initial.token == token
            }
        }),
{
    let last = length_field + payload;
    let rest = token_field + token + last;
    let body = seq![dcid.len() as u8] + dcid + seq![scid.len() as u8] + scid + rest;
    let s = seq![first, version.0, version.1, version.2, version.3] + body;
    assert(s.skip(5) =~= body);
    crate::packet::lemma_header_fields(s, dcid, scid, rest);
    crate::packet::lemma_version_bytes(s);
    let cids = 7 + dcid.len() + scid.len();
    let a = s.skip(cids as int);
    assert(a == rest);
    let len = crate::varint::announced_len(token_field[0]);
    assert(a[0] == token_field[0]);
    assert(a.take(len as int) =~= token_field.take(len as int));
    let start = cids + token_field.len();
    let end = start + token.len();
    let b = s.skip(end as int);
    assert(b =~= last) by {
        assert forall|i: int| 0 <= i < last.len() implies s[end + i] == last[i] by {
            assert(a[token_field.len() + token.len() + i] == last[i]);
        }
    }
    let more = crate::varint::announced_len(length_field[0]);
    assert(b[0] == length_field[0]);
    assert(b.take(more as int) =~= length_field.take(more as int));
    assert(s.subrange(start as int, end as int) =~= token) by {
        assert forall|i: int| 0 <= i < token.len() implies s[start + i] == token[i] by {
            assert(a[token_field.len() + i] == token[i]);
        }
    }
}

/// What is read of an Initial stands in the datagram, and nothing but an Initial of QUIC v1 or v2 in
/// at least 1200 bytes is read.
pub proof fn lemma_initial_stands_in_datagram(s: Seq<u8>)
    ensures
        initial_info(s) matches Some(initial) ==> {
            let d = initial.dcid.len() as int;
            let c = initial.scid.len() as int;
            &&& s.len() >= 1200
            &&& s[0] >= 0x80
            &&& s[1] * 0x100_0000 + s[2] * 0x1_0000 + s[3] * 0x100 + s[4] == initial.version
            &&& (initial.version == 1 && (s[0] / 16) % 4 == 0) || (initial.version == 0x6b3343cf
                && (s[0] / 16) % 4 == 1)
            &&& s[5] == d && d <= 20
            &&& s.subrange(6, 6 + d) == initial.dcid
            &&& s[6 + d] == c && c <= 20
            &&& s.subrange(7 + d, 7 + d + c) == initial.scid
            &&& initial.token.len() == 0 ==> d >= 8
            &&& crate::varint::decoding(s.skip(7 + d + c)) matches Some((count, used)) && {
                let start = 7 + d + c + used;
                &&& count == initial.token.len()
                &&& start + count <= s.len()
                &&& s.subrange(start, start + count) == initial.token
                &&& crate::varint::decoding(s.skip(start + count)) is Some
            }
        },
{
    if s.len() >= 5 {
        crate::packet::lemma_version_bytes(s);
    }
    if initial_info(s) is Some {
        let cids = crate::packet::cids_end(s)->Some_0;
        let field = crate::varint::decoding(s.skip(cids as int));
        let (count, used) = field->Some_0;
        assert(initial_info(s)->Some_0.token =~= s.subrange(
            (cids + used) as int,
            (cids + used + count) as int,
        ));
    }
}

/// An Initial that may open a connection is read with the same version and the same connection IDs
/// when only those are asked for, unless one of them is empty.
pub proof fn lemma_initial_has_version(s: Seq<u8>)
    ensures
        initial_info(s) matches Some(initial) ==> (initial.dcid.len() > 0 && initial.scid.len() > 0
            ==> crate::version::version_info(s) == Some(
            crate::version::PacketVersionView {
                version: initial.version,
                dcid: initial.dcid,
                scid: initial.scid,
                header_type: Some(LongHeaderType::Initial),
            },
        )),
{
    if s.len() >= 5 {
        crate::packet::lemma_version_bytes(s);
    }
}

/// Reads the Initial packet that a datagram starts with, or returns `None` if it cannot open a
/// connection.
///
/// It can if
///
/// - it is a long header packet and an Initial; 0-RTT packets are not kept;
/// - its version is known;
/// - the datagram has at least 1200 bytes (RFC 9000 Section 14.1);
/// - it has a token or a Destination Connection ID of at least 8 bytes (RFC 9000 Section 7.2).
pub fn accept_initial(data: &[u8]) -> (r: Option<AcceptedInitial>)
    ensures
        match initial_info(data@) {
            Some(initial) => r matches Some(accepted) && accepted@ == initial,
            None => r is None,
        },
{
    if data.len() < MIN_INITIAL_DATAGRAM_SIZE || data[0] < 0x80 {
        return None;
    }
    proof {
        crate::packet::lemma_version_bytes(data@);
    }
    let version: u32 = ((data[1] as u32 * 256 + data[2] as u32) * 256 + data[3] as u32) * 256
        + data[4] as u32;
    match long_header_type(version, data[0]) {
        Some(LongHeaderType::Initial) => {},
        _ => {
            return None;
        },
    }
    let dcid_len: usize = data[5] as usize;
    if dcid_len > NGTCP2_MAX_CIDLEN {
        return None;
    }
    let scid_len: usize = data[6 + dcid_len] as usize;
    if scid_len > NGTCP2_MAX_CIDLEN {
        return None;
    }
    let cids: usize = 7 + dcid_len + scid_len;
    let field: &[u8] = slice_subrange(data, cids, data.len());
    assert(field@ =~= data@.skip(cids as int));
    let (token_len, used): (u64, usize) = match crate::varint::decode(field) {
        Some((token_len, used)) => (token_len, used),
        None => {
            return None;
        },
    };
    let start: usize = cids + used;
    if token_len > (data.len() - start) as u64 {
        return None;
    }
    let end: usize = start + token_len as usize;
    let length: &[u8] = slice_subrange(data, end, data.len());
    assert(length@ =~= data@.skip(end as int));
    if crate::varint::decode(length).is_none() || (token_len == 0 && dcid_len
        < MIN_INITIAL_DCIDLEN) {
        return None;
    }
    let dcid: Option<ConnectionId> = ConnectionId::new(slice_subrange(data, 6, 6 + dcid_len));
    let scid: Option<ConnectionId> = ConnectionId::new(slice_subrange(data, 7 + dcid_len, cids));
    match (dcid, scid) {
        (Some(dcid), Some(scid)) => {
            let accepted: AcceptedInitial = AcceptedInitial {
                version,
                dcid,
                scid,
                token: slice_to_vec(slice_subrange(data, start, end)),
            };
            assert(accepted@ =~= initial_info(data@)->Some_0);
            Some(accepted)
        },
        _ => None,
    }
}

/// What a Retry token is made from (RFC 9000 Section 8.1.3), in the form that the engine takes.
pub struct RetryTokenInput {
    /// The version of the connection.
    pub version: u32,
    /// The address that the token is bound to.
    pub client_addr: RawSockaddr,
    /// The Source Connection ID of the Retry packet.
    pub retry_scid: RawCid,
    /// The Destination Connection ID of the client's first packet.
    pub original_dcid: RawCid,
    /// The time from which its validity counts, in nanoseconds.
    pub ts: u64,
}

impl RetryTokenInput {
    /// Prepares a token for the client at `client_addr`.
    pub fn new(
        version: QuicVersion,
        client_addr: SocketAddr,
        retry_scid: &ConnectionId,
        original_dcid: &ConnectionId,
        ts: u64,
    ) -> (r: RetryTokenInput)
        ensures
            r.version == version.wire(),
            r.client_addr.holds(client_addr, true),
            r.retry_scid.bytes() == retry_scid@,
            r.retry_scid.datalen == retry_scid@.len(),
            r.original_dcid.bytes() == original_dcid@,
            r.original_dcid.datalen == original_dcid@.len(),
            r.ts == ts,
    {
        RetryTokenInput {
            version: version.as_u32(),
            client_addr: sockaddr_to_raw(&client_addr),
            retry_scid: cid_to_raw(retry_scid),
            original_dcid: cid_to_raw(original_dcid),
            ts,
        }
    }
}

/// What a token is verified against, in the form that the engine takes.
pub struct TokenCheck {
    /// The version of the connection and the Destination Connection ID of the packet, for a Retry
    /// token: that ID has to be the Source Connection ID of the Retry packet.
    pub retry: Option<(u32, RawCid)>,
    /// The address that the packet came from.
    pub client_addr: RawSockaddr,
    /// How long a token is valid, in nanoseconds.
    pub timeout: u64,
    /// The time in nanoseconds.
    pub ts: u64,
}

impl TokenCheck {
    /// Prepares the verification of a Retry token in a packet from `client_addr`.
    pub fn retry_token(
        version: QuicVersion,
        client_addr: SocketAddr,
        retry_dcid: &ConnectionId,
        timeout: Duration,
        ts: u64,
    ) -> (r: TokenCheck)
        ensures
            r.retry matches Some((v, cid)) && v == version.wire() && cid.bytes() == retry_dcid@
                && cid.datalen == retry_dcid@.len(),
            r.client_addr.holds(client_addr, true),
            r.timeout == timeout.nanos % 0x1_0000_0000_0000_0000,
            r.ts == ts,
    {
        TokenCheck {
            retry: Some((version.as_u32(), cid_to_raw(retry_dcid))),
            client_addr: sockaddr_to_raw(&client_addr),
            timeout: low_nanos(timeout),
            ts,
        }
    }

    /// Prepares the verification of a token of a NEW_TOKEN frame in a packet from `client_addr`.
    ///
    /// No connection ID is bound to such a token: the next connection has new ones.
    pub fn new_token(client_addr: SocketAddr, timeout: Duration, ts: u64) -> (r: TokenCheck)
        ensures
            r.retry is None,
            r.client_addr.holds(client_addr, true),
            r.timeout == timeout.nanos % 0x1_0000_0000_0000_0000,
            r.ts == ts,
    {
        TokenCheck {
            retry: None,
            client_addr: sockaddr_to_raw(&client_addr),
            timeout: low_nanos(timeout),
            ts,
        }
    }
}

/// What a stateless CONNECTION_CLOSE packet says (RFC 9000 Section 10.2.3), in the form that the
/// engine takes.
pub struct StatelessClose {
    /// The version of the connection.
    pub version: u32,
    /// The Destination Connection ID: the Source Connection ID of the client.
    pub dcid: RawCid,
    /// The Source Connection ID.
    pub scid: RawCid,
    /// The error code.
    pub error_code: u64,
    /// The reason.
    pub reason: Vec<u8>,
}

impl StatelessClose {
    /// Prepares the packet; a long reason is cut.
    pub fn new(
        version: QuicVersion,
        client_scid: &ConnectionId,
        server_scid: &ConnectionId,
        error_code: u64,
        reason: &[u8],
    ) -> (r: StatelessClose)
        ensures
            r.version == version.wire(),
            r.dcid.bytes() == client_scid@,
            r.dcid.datalen == client_scid@.len(),
            r.scid.bytes() == server_scid@,
            r.scid.datalen == server_scid@.len(),
            r.error_code == error_code,
            r.reason@ == cut_reason(reason@),
    {
        StatelessClose {
            version: version.as_u32(),
            dcid: cid_to_raw(client_scid),
            scid: cid_to_raw(server_scid),
            error_code,
            reason: slice_to_vec(close_reason(reason)),
        }
    }
}

/// What a Retry packet says but for its token (RFC 9000 Section 17.2.5), in the form that the engine
/// takes.
pub struct RetryPacket {
    /// The version of the connection.
    pub version: u32,
    /// The Destination Connection ID: the Source Connection ID of the client.
    pub dcid: RawCid,
    /// The Source Connection ID that the server chose.
    pub scid: RawCid,
    /// The Destination Connection ID of the client's first packet, which the integrity tag covers.
    pub original_dcid: RawCid,
}

impl RetryPacket {
    /// Prepares the packet.
    pub fn new(
        version: QuicVersion,
        client_scid: &ConnectionId,
        retry_scid: &ConnectionId,
        original_dcid: &ConnectionId,
    ) -> (r: RetryPacket)
        ensures
            r.version == version.wire(),
            r.dcid.bytes() == client_scid@,
            r.dcid.datalen == client_scid@.len(),
            r.scid.bytes() == retry_scid@,
            r.scid.datalen == retry_scid@.len(),
            r.original_dcid.bytes() == original_dcid@,
            r.original_dcid.datalen == original_dcid@.len(),
    {
        RetryPacket {
            version: version.as_u32(),
            dcid: cid_to_raw(client_scid),
            scid: cid_to_raw(retry_scid),
            original_dcid: cid_to_raw(original_dcid),
        }
    }
}

/// Takes a token that the engine wrote to the start of `buf`, given its length or a negative
/// result.
fn written_token(
    rv: isize,
    buf: &[u8],
    kind: AddressValidationTokenKind,
    failure: &str,
) -> (r: Result<AddressValidationToken, Error>)
    requires
        rv <= buf@.len(),
    ensures
        rv < 0 ==> (r matches Err(e) && e.is_internal(failure@)),
        rv >= 0 ==> (r matches Ok(token) && token@ == (buf@.take(rv as int), kind)),
{
    if rv < 0 {
        return Err(Error::internal(failure));
    }
    let bytes: Vec<u8> = slice_to_vec(slice_subrange(buf, 0, rv as usize));
    assert(bytes@ =~= buf@.take(rv as int));
    Ok(AddressValidationToken { bytes, kind })
}

/// Takes a Retry token that the engine wrote to the start of `buf` (RFC 9000 Section 8.1.3).
///
/// `rv` is its length, or negative if none could be made.
pub fn generate_retry_token(rv: isize, buf: &[u8]) -> (r: Result<AddressValidationToken, Error>)
    requires
        rv <= buf@.len(),
    ensures
        rv < 0 ==> (r matches Err(e) && e.is_internal(
            "ngtcp2_crypto_generate_retry_token2 failed"@,
        )),
        rv >= 0 ==> (r matches Ok(token) && token@ == (
            buf@.take(rv as int),
            AddressValidationTokenKind::Retry,
        )),
{
    written_token(
        rv,
        buf,
        AddressValidationTokenKind::Retry,
        "ngtcp2_crypto_generate_retry_token2 failed",
    )
}

/// Takes a token for a NEW_TOKEN frame that the engine wrote to the start of `buf`
/// (RFC 9000 Section 8.1.3).
///
/// `rv` is its length, or negative if none could be made.
pub fn generate_new_token(rv: isize, buf: &[u8]) -> (r: Result<AddressValidationToken, Error>)
    requires
        rv <= buf@.len(),
    ensures
        rv < 0 ==> (r matches Err(e) && e.is_internal(
            "ngtcp2_crypto_generate_regular_token failed"@,
        )),
        rv >= 0 ==> (r matches Ok(token) && token@ == (
            buf@.take(rv as int),
            AddressValidationTokenKind::NewToken,
        )),
{
    written_token(
        rv,
        buf,
        AddressValidationTokenKind::NewToken,
        "ngtcp2_crypto_generate_regular_token failed",
    )
}

/// How the verification of a token ended.
#[derive(Debug, Clone, Copy, PartialEq, Eq, Structural)]
pub enum TokenVerdict {
    /// The token is valid.
    Valid,
    /// The token is malformed or was tampered with.
    Unreadable,
    /// The token is not for this address, or it has expired.
    NotProven,
    /// The verification itself failed.
    Failed,
}

impl TokenVerdict {
    /// Returns how the verification ended, given its result and the engine's numbers for a token that
    /// is unreadable and for one that proves nothing.
    pub fn from_result(rv: i32, unreadable: i32, not_proven: i32) -> (r: TokenVerdict)
        ensures
            r == (if rv == 0 {
                TokenVerdict::Valid
            } else if rv == unreadable {
                TokenVerdict::Unreadable
            } else if rv == not_proven {
                TokenVerdict::NotProven
            } else {
                TokenVerdict::Failed
            }),
    {
        if rv == 0 {
            TokenVerdict::Valid
        } else if rv == unreadable {
            TokenVerdict::Unreadable
        } else if rv == not_proven {
            TokenVerdict::NotProven
        } else {
            TokenVerdict::Failed
        }
    }
}

/// Takes the original Destination Connection ID out of a Retry token, given how its verification
/// ended (RFC 9000 Section 8.1.3).
pub fn verify_retry_token(verdict: TokenVerdict, odcid: &RawCid) -> (r: Result<ConnectionId, Error>)
    ensures
        match verdict {
            TokenVerdict::Valid => if odcid.datalen <= NGTCP2_MAX_CIDLEN {
                r matches Ok(cid) && cid@ == odcid.bytes()
            } else {
                r matches Err(e) && e.is_invalid_argument("retry token contains an invalid cid"@)
            },
            TokenVerdict::Unreadable => r matches Err(e) && e.is_invalid_argument(
                "retry token is badly formatted or fails integrity check"@,
            ),
            TokenVerdict::NotProven => r matches Err(e) && e.is_invalid_argument(
                "retry token does not prove the client address or has expired"@,
            ),
            TokenVerdict::Failed => r matches Err(e) && e.is_invalid_argument(
                "retry token verification failed"@,
            ),
        },
{
    match verdict {
        TokenVerdict::Valid => {
            if odcid.datalen > NGTCP2_MAX_CIDLEN {
                return Err(Error::invalid_argument("retry token contains an invalid cid"));
            }
            match cid_from_raw(odcid) {
                Some(cid) => Ok(cid),
                None => Err(Error::invalid_argument("retry token contains an invalid cid")),
            }
        },
        TokenVerdict::Unreadable => Err(
            Error::invalid_argument("retry token is badly formatted or fails integrity check"),
        ),
        TokenVerdict::NotProven => Err(
            Error::invalid_argument("retry token does not prove the client address or has expired"),
        ),
        TokenVerdict::Failed => Err(Error::invalid_argument("retry token verification failed")),
    }
}

/// Turns the result of verifying a token of a NEW_TOKEN frame into a result
/// (RFC 9000 Section 8.1.3).
pub fn verify_new_token(rv: i32) -> (r: Result<(), Error>)
    ensures
        rv == 0 ==> r is Ok,
        rv != 0 ==> (r matches Err(e) && e.is_invalid_argument(
            "new token does not prove the client address or has expired"@,
        )),
{
    if rv != 0 {
        return Err(
            Error::invalid_argument("new token does not prove the client address or has expired"),
        );
    }
    Ok(())
}

/// Turns the result of writing a Retry packet (RFC 9000 Section 17.2.5) into its length.
pub fn write_retry_packet(rv: isize) -> (r: Result<usize, Error>)
    ensures
        rv >= 0 ==> r == Ok::<usize, Error>(rv as usize),
        rv < 0 ==> (r matches Err(e) && e.is_internal("ngtcp2_crypto_write_retry failed"@)),
{
    if rv < 0 {
        return Err(Error::internal("ngtcp2_crypto_write_retry failed"));
    }
    Ok(rv as usize)
}

/// As much of `reason` as goes into a stateless CONNECTION_CLOSE.
pub open spec fn cut_reason(reason: Seq<u8>) -> Seq<u8> {
    if reason.len() <= MAX_CLOSE_REASON_LEN {
        reason
    } else {
        reason.take(MAX_CLOSE_REASON_LEN as int)
    }
}

/// A reason is cut at its end, and only if it has more than 64 bytes.
pub proof fn lemma_reason_is_cut_at_the_end(reason: Seq<u8>)
    ensures
        cut_reason(reason).is_prefix_of(reason),
        cut_reason(reason).len() == (if reason.len() <= 64 {
            reason.len() as int
        } else {
            64
        }),
{
}

/// Returns as much of `reason` as goes into a stateless CONNECTION_CLOSE
/// (RFC 9000 Section 10.2.3).
pub fn close_reason(reason: &[u8]) -> (r: &[u8])
    ensures
        r@ == cut_reason(reason@),
{
    if reason.len() <= MAX_CLOSE_REASON_LEN {
        reason
    } else {
        let r: &[u8] = slice_subrange(reason, 0, MAX_CLOSE_REASON_LEN);
        assert(r@ =~= reason@.take(MAX_CLOSE_REASON_LEN as int));
        r
    }
}

/// Turns the result of writing a stateless CONNECTION_CLOSE packet into its length.
pub fn write_stateless_connection_close(rv: isize) -> (r: Result<usize, Error>)
    ensures
        rv >= 0 ==> r == Ok::<usize, Error>(rv as usize),
        rv < 0 ==> (r matches Err(e) && e.is_internal(
            "ngtcp2_crypto_write_connection_close failed"@,
        )),
{
    if rv < 0 {
        return Err(Error::internal("ngtcp2_crypto_write_connection_close failed"));
    }
    Ok(rv as usize)
}

/// Returns `token` with `data` laid over it: the bytes that both have are combined by exclusive
/// or, and what `data` has beyond the token is appended.
pub fn corrupt(token: &[u8], data: &[u8]) -> (r: Vec<u8>)
    ensures
        r@.len() == (if data@.len() > token@.len() {
            data@.len()
        } else {
            token@.len()
        }),
        forall|i: int|
            0 <= i < r@.len() ==> r@[i] == (if i >= data@.len() {
                token@[i]
            } else if i >= token@.len() {
                data@[i]
            } else {
                token@[i] ^ data@[i]
            }),
{
    let mut out: Vec<u8> = Vec::new();
    let mut i: usize = 0;
    while i < token.len() || i < data.len()
        invariant
            i <= token@.len() || i <= data@.len(),
            out@.len() == i,
            forall|j: int|
                0 <= j < i ==> out@[j] == (if j >= data@.len() {
                    token@[j]
                } else if j >= token@.len() {
                    data@[j]
                } else {
                    token@[j] ^ data@[j]
                }),
        decreases token@.len() + data@.len() - i,
    {
        let byte: u8 = if i >= data.len() {
            token[i]
        } else if i >= token.len() {
            data[i]
        } else {
            token[i] ^ data[i]
        };
        out.push(byte);
        i = i + 1;
    }
    out
}

} // verus!
