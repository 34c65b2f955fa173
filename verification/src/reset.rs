//! Stateless Reset (RFC 9000 Section 10.3).
//!
//! An endpoint that has lost the state of a connection tells its peer so with one packet. The
//! packet carries a token that belongs to the connection ID. It is derived from a secret, so that
//! it is known even when nothing else is.

use vstd::prelude::*;

use crate::bytes::put;
use crate::error::{Error, NGTCP2_ERR_NOBUF};
use crate::rand::random_bytes;

verus! {

/// The length of a Stateless Reset token in bytes (RFC 9000 Section 10.3.1).
pub const STATELESS_RESET_TOKEN_LEN: usize = 16;

/// The length of the secret that tokens are derived from, in bytes.
pub const STATELESS_RESET_SECRET_LEN: usize = 32;

/// The smallest number of random bytes in front of the token.
pub const MIN_RANDOM_LEN: usize = 5;

/// The largest number of random bytes in front of the token: the longest connection ID and the
/// smallest extension of 22 bytes, less the token.
pub const MAX_RANDOM_LEN: usize = 20 + 22 - STATELESS_RESET_TOKEN_LEN;

/// The smallest size of a Stateless Reset packet in bytes: the first byte, the random bytes and
/// the token.
///
/// A shorter packet is not answered with a Stateless Reset (RFC 9000 Section 10.3.3).
pub const MIN_STATELESS_RESET_SIZE: usize = 1 + MIN_RANDOM_LEN + STATELESS_RESET_TOKEN_LEN;

/// A Stateless Reset token (RFC 9000 Section 10.3.1).
///
/// Whoever knows the token can forge a Stateless Reset, so its bytes are never shown.
#[derive(Clone, Copy, PartialEq, Eq)]
pub struct StatelessResetToken {
    bytes: [u8; 16],
}

impl View for StatelessResetToken {
    type V = Seq<u8>;

    closed spec fn view(&self) -> Seq<u8> {
        self.bytes@
    }
}

impl StatelessResetToken {
    /// Makes a token out of its bytes.
    pub fn from_bytes(bytes: [u8; 16]) -> (r: StatelessResetToken)
        ensures
            r@ == bytes@,
    {
        StatelessResetToken { bytes }
    }

    /// Returns the bytes of the token.
    pub fn as_bytes(&self) -> (r: &[u8; 16])
        ensures
            r@ == self@,
    {
        &self.bytes
    }

    /// Returns a text that does not reveal the token.
    pub fn debug(&self) -> (r: String)
        ensures
            r@ == "StatelessResetToken(<redacted>)"@,
    {
        "StatelessResetToken(<redacted>)".to_owned()
    }
}

/// Every token has the length that the protocol prescribes.
pub proof fn lemma_token_len(token: StatelessResetToken)
    ensures
        token@.len() == STATELESS_RESET_TOKEN_LEN,
{
}

/// The secret that Stateless Reset tokens are derived from (RFC 9000 Section 10.3.1).
///
/// Whoever knows the secret can forge any Stateless Reset, so its bytes are never shown.
#[derive(PartialEq, Eq)]
pub struct StatelessResetSecret {
    bytes: [u8; 32],
}

impl View for StatelessResetSecret {
    type V = Seq<u8>;

    closed spec fn view(&self) -> Seq<u8> {
        self.bytes@
    }
}

impl Clone for StatelessResetSecret {
    fn clone(&self) -> (r: StatelessResetSecret)
        ensures
            r == *self,
    {
        StatelessResetSecret { bytes: self.bytes }
    }
}

impl StatelessResetSecret {
    /// Makes a secret out of random bytes, which can always be had.
    pub fn generate() -> (r: Option<StatelessResetSecret>)
        ensures
            r matches Some(secret) && secret@.len() == STATELESS_RESET_SECRET_LEN,
    {
        let mut bytes: [u8; 32] = [0; 32];
        match aws_lc_rs::rand::fill(&mut bytes) {
            Ok(()) => Some(StatelessResetSecret { bytes }),
            Err(_) => None,
        }
    }

    /// Makes a secret out of known bytes.
    pub fn from_bytes(bytes: [u8; 32]) -> (r: StatelessResetSecret)
        ensures
            r@ == bytes@,
    {
        StatelessResetSecret { bytes }
    }

    /// Returns the bytes of the secret, for the derivation of a token.
    pub fn expose(&self) -> (r: &[u8; 32])
        ensures
            r@ == self@,
    {
        &self.bytes
    }

    /// Takes a token that was derived from the secret and a connection ID, given the result of the
    /// derivation.
    pub fn token(rv: i32, derived: [u8; 16]) -> (r: Option<StatelessResetToken>)
        ensures
            (r is Some) == (rv == 0),
            r matches Some(token) ==> token@ == derived@,
    {
        if rv != 0 {
            return None;
        }
        Some(StatelessResetToken { bytes: derived })
    }

    /// Returns a text that does not reveal the secret.
    pub fn debug(&self) -> (r: String)
        ensures
            r@ == "StatelessResetSecret(<redacted>)"@,
    {
        "StatelessResetSecret(<redacted>)".to_owned()
    }
}

/// How many random bytes stand in front of the token in an answer to a packet of `received_len`
/// bytes, if it is answered.
pub open spec fn reset_random_len(received_len: nat) -> Option<nat> {
    if received_len < MIN_STATELESS_RESET_SIZE {
        None
    } else if received_len >= 1 + MAX_RANDOM_LEN + STATELESS_RESET_TOKEN_LEN {
        Some(MAX_RANDOM_LEN as nat)
    } else {
        Some((received_len - 1 - STATELESS_RESET_TOKEN_LEN) as nat)
    }
}

/// An answer is never longer than the packet that caused it, so it cannot amplify an attack, and
/// it is never shorter than a Stateless Reset has to be (RFC 9000 Section 10.3.3).
pub proof fn lemma_reset_not_longer_than_trigger(received_len: nat)
    ensures
        reset_random_len(received_len) matches Some(len) ==> {
            &&& 1 + len + STATELESS_RESET_TOKEN_LEN <= received_len
            &&& 1 + len + STATELESS_RESET_TOKEN_LEN >= MIN_STATELESS_RESET_SIZE
            &&& MIN_RANDOM_LEN <= len <= MAX_RANDOM_LEN
        },
        reset_random_len(received_len) is None <==> received_len < MIN_STATELESS_RESET_SIZE,
{
}

/// An answer with its first byte is as long as the packet that caused it, up to 43 bytes, and only a
/// packet of less than 22 bytes gets none.
pub proof fn lemma_reset_len(received_len: nat)
    ensures
        match reset_random_len(received_len) {
            Some(len) => received_len >= 22 && 1 + len + 16 == (if received_len <= 43 {
                received_len as int
            } else {
                43
            }),
            None => received_len < 22,
        },
{
}

/// Returns how many random bytes go into the answer to a packet of `received_len` bytes, or `None`
/// if that packet is too short to be answered.
pub fn random_len(received_len: usize) -> (r: Option<usize>)
    ensures
        match reset_random_len(received_len as nat) {
            Some(len) => r == Some(len as usize),
            None => r is None,
        },
{
    let room: usize = received_len.saturating_sub(1 + STATELESS_RESET_TOKEN_LEN);
    let len: usize = if room < MAX_RANDOM_LEN {
        room
    } else {
        MAX_RANDOM_LEN
    };
    if len < MIN_RANDOM_LEN {
        None
    } else {
        Some(len)
    }
}

/// The Stateless Reset packet with these random bytes (RFC 9000 Section 10.3): it looks like a short
/// header packet, since the first two bits are 0 and 1, and ends with the token.
pub open spec fn reset_packet(random: Seq<u8>, token: Seq<u8>) -> Seq<u8> {
    random.update(0, (0x40 + random[0] % 0x40) as u8) + token
}

/// A Stateless Reset packet looks like a short header packet and ends with its token, which is
/// found again there.
pub proof fn lemma_reset_packet_carries_token(random: Seq<u8>, token: Seq<u8>)
    requires
        random.len() > 0,
    ensures
        ({
            let packet = reset_packet(random, token);
            &&& packet.len() == random.len() + token.len()
            &&& packet[0] / 64 == 1
            &&& packet[0] % 64 == random[0] % 64
            &&& packet.skip(random.len() as int) == token
            &&& packet.subrange(1, random.len() as int) == random.skip(1)
        }),
{
    let packet = reset_packet(random, token);
    assert(packet.skip(random.len() as int) =~= token);
    assert(packet.subrange(1, random.len() as int) =~= random.skip(1));
}

/// Returns the Stateless Reset packet with these random bytes.
pub fn stateless_reset_packet(random: Vec<u8>, token: &StatelessResetToken) -> (r: Vec<u8>)
    requires
        random@.len() > 0,
    ensures
        r@ == reset_packet(random@, token@),
        r@.len() == random@.len() + STATELESS_RESET_TOKEN_LEN,
{
    let first: u8 = 0x40 + random[0] % 0x40;
    let mut packet: Vec<u8> = random;
    packet[0] = first;
    packet.extend_from_slice(token.as_bytes().as_slice());
    assert(packet@ =~= reset_packet(random@, token@));
    packet
}

/// Writes a Stateless Reset that answers a packet of `received_len` bytes to the start of `buf`, and
/// returns its length (RFC 9000 Section 10.3.3).
///
/// Returns 0 if the packet is too short to be answered, which is no error. Where `buf` cannot take
/// all random bytes there are fewer of them. It is an error if `buf` is too small for the fewest of
/// them and the token.
pub fn write_stateless_reset(
    buf: &mut [u8],
    token: &StatelessResetToken,
    received_len: usize,
) -> (r: Result<usize, Error>)
    ensures
        final(buf)@.len() == old(buf)@.len(),
        match reset_random_len(received_len as nat) {
            None => r == Ok::<usize, Error>(0) && final(buf)@ == old(buf)@,
            Some(len) => match r {
                Ok(written) => {
                    &&& old(buf)@.len() >= MIN_RANDOM_LEN + STATELESS_RESET_TOKEN_LEN
                    &&& written == STATELESS_RESET_TOKEN_LEN + (if len + STATELESS_RESET_TOKEN_LEN
                        <= old(buf)@.len() {
                        len as int
                    } else {
                        old(buf)@.len() - STATELESS_RESET_TOKEN_LEN
                    })
                    &&& written <= received_len
                    &&& exists|random: Seq<u8>|
                        random.len() == written - STATELESS_RESET_TOKEN_LEN && final(buf)@
                            == #[trigger] reset_packet(random, token@) + old(buf)@.skip(
                            written as int,
                        )
                },
                Err(e) => {
                    &&& final(buf)@ == old(buf)@
                    &&& old(buf)@.len() < MIN_RANDOM_LEN + STATELESS_RESET_TOKEN_LEN
                    &&& e matches Error::Ngtcp2(m, code) && code == NGTCP2_ERR_NOBUF && m@
                        == "ERR_NOBUF"@
                },
            },
        },
{
    let len: usize = match random_len(received_len) {
        None => {
            return Ok(0);
        },
        Some(len) => len,
    };
    let mut random: Vec<u8> = match random_bytes(len) {
        Some(bytes) => bytes,
        None => {
            return Err(Error::internal("failed to generate random bytes"));
        },
    };
    if buf.len() < MIN_RANDOM_LEN + STATELESS_RESET_TOKEN_LEN {
        return Err(Error::Ngtcp2("ERR_NOBUF".to_owned(), NGTCP2_ERR_NOBUF));
    }
    random.truncate(buf.len() - STATELESS_RESET_TOKEN_LEN);
    let ghost used = random@;
    let packet: Vec<u8> = stateless_reset_packet(random, token);
    put(buf, packet.as_slice());
    assert(buf@ =~= reset_packet(used, token@) + old(buf)@.skip(packet@.len() as int));
    Ok(packet.len())
}

} // verus!
