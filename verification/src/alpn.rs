//! Application protocol negotiation (RFC 7301).

use vstd::prelude::*;
use vstd::slice::slice_subrange;

verus! {

/// A list of protocols on the wire: each one behind its length, `[len][proto][len][proto]...`
/// (RFC 7301 Section 3.1). The length is one byte wide.
pub open spec fn wire(protocols: Seq<Seq<u8>>) -> Seq<u8>
    decreases protocols.len(),
{
    if protocols.len() == 0 {
        Seq::empty()
    } else {
        wire(protocols.drop_last()) + seq![(protocols.last().len() % 256) as u8] + protocols.last()
    }
}

/// The protocols that the wire form `s` lists; a protocol that is cut off ends the list.
pub open spec fn protocols(s: Seq<u8>) -> Seq<Seq<u8>>
    decreases s.len(),
{
    if s.len() == 0 || 1 + s[0] > s.len() {
        Seq::empty()
    } else {
        seq![s.subrange(1, 1 + s[0])] + protocols(s.skip(1 + s[0]))
    }
}

/// Where the protocol number `i` of the wire form `s` starts.
pub open spec fn start_of(s: Seq<u8>, i: nat) -> int
    decreases i,
{
    if i == 0 {
        1
    } else {
        1 + s[0] + start_of(s.skip(1 + s[0]), (i - 1) as nat)
    }
}

/// The first place of `protocol` in `list`.
pub open spec fn first_index(list: Seq<Seq<u8>>, protocol: Seq<u8>) -> Option<nat>
    decreases list.len(),
{
    if list.len() == 0 {
        None
    } else if list[0] == protocol {
        Some(0)
    } else {
        match first_index(list.drop_first(), protocol) {
            Some(i) => Some(i + 1),
            None => None,
        }
    }
}

/// The place in the client's list of the protocol that a server selects: of the protocols that
/// the client offers, the one that the server lists first.
pub open spec fn selection(server: Seq<Seq<u8>>, client: Seq<Seq<u8>>) -> Option<nat>
    decreases server.len(),
{
    if server.len() == 0 {
        None
    } else {
        match first_index(client, server[0]) {
            Some(i) => Some(i),
            None => selection(server.drop_first(), client),
        }
    }
}

/// The first place is a place, and no place before it holds the protocol.
pub proof fn lemma_first_index(list: Seq<Seq<u8>>, protocol: Seq<u8>)
    ensures
        match first_index(list, protocol) {
            Some(i) => {
                &&& i < list.len()
                &&& list[i as int] == protocol
                &&& forall|j: int| 0 <= j < i ==> list[j] != protocol
            },
            None => !list.contains(protocol),
        },
    decreases list.len(),
{
    if list.len() > 0 && list[0] != protocol {
        let rest = list.drop_first();
        lemma_first_index(rest, protocol);
        match first_index(rest, protocol) {
            Some(i) => {
                assert forall|j: int| 0 <= j < i + 1 implies list[j] != protocol by {
                    if j > 0 {
                        assert(list[j] == rest[j - 1]);
                    }
                }
            },
            None => {
                assert forall|j: int| 0 <= j < list.len() implies list[j] != protocol by {
                    if j > 0 {
                        assert(list[j] == rest[j - 1]);
                    }
                }
            },
        }
    }
}

/// A server selects a protocol that both sides list, and none that it lists earlier is offered by
/// the client. It selects none exactly if no protocol is common to both.
pub proof fn lemma_selection_prefers_server(server: Seq<Seq<u8>>, client: Seq<Seq<u8>>)
    ensures
        match selection(server, client) {
            Some(i) => {
                &&& i < client.len()
                &&& exists|k: int|
                    0 <= k < server.len() && #[trigger] server[k] == client[i as int] && forall|
                        m: int,
                    |
                        0 <= m < k ==> !client.contains(#[trigger] server[m])
            },
            None => forall|k: int|
                0 <= k < server.len() ==> !client.contains(#[trigger] server[k]),
        },
    decreases server.len(),
{
    if server.len() > 0 {
        lemma_first_index(client, server[0]);
        if first_index(client, server[0]) is None {
            let rest = server.drop_first();
            lemma_selection_prefers_server(rest, client);
            match selection(server, client) {
                Some(i) => {
                    let k = choose|k: int|
                        0 <= k < rest.len() && #[trigger] rest[k] == client[i as int] && forall|
                            m: int,
                        |
                            0 <= m < k ==> !client.contains(#[trigger] rest[m]);
                    assert(server[k + 1] == client[i as int]);
                    assert forall|m: int| 0 <= m < k + 1 implies !client.contains(
                        #[trigger] server[m],
                    ) by {
                        if m > 0 {
                            assert(server[m] == rest[m - 1]);
                        }
                    }
                },
                None => {
                    assert forall|k: int| 0 <= k < server.len() implies !client.contains(
                        #[trigger] server[k],
                    ) by {
                        if k > 0 {
                            assert(server[k] == rest[k - 1]);
                        }
                    }
                },
            }
        } else {
            assert(server[0] == client[first_index(client, server[0])->0 as int]);
        }
    }
}

/// The wire form of a list starts with its first protocol behind the length of that one, and the wire
/// form of the rest follows.
pub proof fn lemma_wire_first(list: Seq<Seq<u8>>)
    requires
        list.len() > 0,
    ensures
        wire(list) == seq![(list[0].len() % 256) as u8] + list[0] + wire(list.drop_first()),
    decreases list.len(),
{
    if list.len() == 1 {
        assert(list.drop_last() =~= Seq::<Seq<u8>>::empty());
        assert(list.drop_first() =~= Seq::<Seq<u8>>::empty());
        assert(wire(list) =~= seq![(list[0].len() % 256) as u8] + list[0] + wire(
            list.drop_first(),
        ));
    } else {
        lemma_wire_first(list.drop_last());
        assert(list.drop_last().drop_first() =~= list.drop_first().drop_last());
        assert(wire(list) =~= seq![(list[0].len() % 256) as u8] + list[0] + wire(
            list.drop_first(),
        ));
    }
}

/// The protocol number `i` of a list stands in its wire form where it is said to start, behind its
/// length.
pub proof fn lemma_protocol_stands_at_its_start(s: Seq<u8>, i: nat)
    requires
        i < protocols(s).len(),
    ensures
        1 <= start_of(s, i),
        start_of(s, i) + protocols(s)[i as int].len() <= s.len(),
        s[start_of(s, i) - 1] == protocols(s)[i as int].len(),
        s.subrange(start_of(s, i), start_of(s, i) + protocols(s)[i as int].len())
            == protocols(s)[i as int],
    decreases i,
{
    let rest = s.skip(1 + s[0]);
    if i > 0 {
        lemma_protocol_stands_at_its_start(rest, (i - 1) as nat);
        let p = protocols(rest)[i - 1];
        let at = start_of(rest, (i - 1) as nat);
        assert(protocols(s)[i as int] == p);
        assert(s.subrange(start_of(s, i), start_of(s, i) + p.len()) =~= rest.subrange(
            at,
            at + p.len(),
        ));
    }
}

/// Each protocol of a list stands right behind the one before it, and the first one at the start.
pub proof fn lemma_protocols_follow_each_other(s: Seq<u8>, i: nat)
    requires
        i + 1 < protocols(s).len(),
    ensures
        start_of(s, 0) == 1,
        start_of(s, i + 1) == start_of(s, i) + protocols(s)[i as int].len() + 1,
    decreases i,
{
    let rest = s.skip(1 + s[0]);
    if i > 0 {
        lemma_protocols_follow_each_other(rest, (i - 1) as nat);
        assert(protocols(s)[i as int] == protocols(rest)[i - 1]);
    }
    reveal_with_fuel(start_of, 2);
}

/// A list is read back from its wire form, provided that the length of each protocol fits into
/// one byte.
pub proof fn lemma_wire_roundtrip(list: Seq<Seq<u8>>)
    requires
        forall|i: int| 0 <= i < list.len() ==> (#[trigger] list[i]).len() < 256,
    ensures
        protocols(wire(list)) == list,
    decreases list.len(),
{
    if list.len() > 0 {
        lemma_wire_first(list);
        let rest = list.drop_first();
        assert forall|i: int| 0 <= i < rest.len() implies (#[trigger] rest[i]).len() < 256 by {
            assert(rest[i] == list[i + 1]);
        }
        lemma_wire_roundtrip(rest);
        let s = wire(list);
        assert(list[0].len() < 256);
        assert(s[0] == list[0].len());
        assert(s.subrange(1, 1 + s[0]) =~= list[0]);
        assert(s.skip(1 + s[0]) =~= wire(rest));
        assert(protocols(s) =~= seq![list[0]] + rest);
        assert(list =~= seq![list[0]] + rest);
    } else {
        assert(protocols(wire(list)) =~= list);
    }
}

/// What follows a list in wire form does not change what is read of it, and is read as more protocols;
/// one that is cut off is not read.
pub proof fn lemma_wire_with_more(list: Seq<Seq<u8>>, more: Seq<u8>)
    requires
        forall|i: int| 0 <= i < list.len() ==> (#[trigger] list[i]).len() < 256,
    ensures
        protocols(wire(list) + more) == list + protocols(more),
        more.len() > 0 && more.len() <= more[0] ==> protocols(wire(list) + more) == list,
    decreases list.len(),
{
    let s = wire(list) + more;
    if list.len() > 0 {
        lemma_wire_first(list);
        let rest = list.drop_first();
        assert forall|i: int| 0 <= i < rest.len() implies (#[trigger] rest[i]).len() < 256 by {
            assert(rest[i] == list[i + 1]);
        }
        lemma_wire_with_more(rest, more);
        assert(list[0].len() < 256);
        assert(s[0] == list[0].len());
        assert(s.subrange(1, 1 + s[0]) =~= list[0]);
        assert(s.skip(1 + s[0]) =~= wire(rest) + more);
        assert(list =~= seq![list[0]] + rest);
        assert(protocols(s) =~= list + protocols(more));
    } else {
        assert(s =~= more);
        assert(protocols(s) =~= list + protocols(more));
    }
    if more.len() > 0 && more.len() <= more[0] {
        assert(protocols(more) =~= Seq::<Seq<u8>>::empty());
        assert(list + protocols(more) =~= list);
    }
}

/// What the slices in `list` hold.
pub open spec fn contents(list: Seq<&[u8]>) -> Seq<Seq<u8>> {
    list.map_values(|p: &[u8]| p@)
}

/// Returns the wire form of a list of protocols (RFC 7301 Section 3.1).
pub fn encode_alpn(alpn: &[&[u8]]) -> (r: Vec<u8>)
    ensures
        r@ == wire(contents(alpn@)),
{
    let mut out: Vec<u8> = Vec::new();
    let mut i: usize = 0;
    while i < alpn.len()
        invariant
            i <= alpn@.len(),
            out@ == wire(contents(alpn@).take(i as int)),
        decreases alpn@.len() - i,
    {
        let protocol: &[u8] = alpn[i];
        out.push((protocol.len() % 256) as u8);
        out.extend_from_slice(protocol);
        proof {
            let done = contents(alpn@).take(i + 1);
            assert(done.drop_last() =~= contents(alpn@).take(i as int));
            assert(done.last() == protocol@);
            assert(out@ =~= wire(done));
        }
        i = i + 1;
    }
    assert(contents(alpn@).take(i as int) =~= contents(alpn@));
    out
}

/// Returns whether two byte strings are equal.
fn same_bytes(a: &[u8], b: &[u8]) -> (r: bool)
    ensures
        r == (a@ == b@),
{
    if a.len() != b.len() {
        return false;
    }
    let mut i: usize = 0;
    while i < a.len()
        invariant
            i <= a@.len(),
            a@.len() == b@.len(),
            forall|j: int| 0 <= j < i ==> a@[j] == b@[j],
        decreases a@.len() - i,
    {
        if a[i] != b[i] {
            return false;
        }
        i = i + 1;
    }
    assert(a@ =~= b@);
    true
}

/// Returns the start and the length in `client` of the first protocol that equals `protocol`.
fn find_protocol(client: &[u8], protocol: &[u8]) -> (r: Option<(usize, usize)>)
    ensures
        match first_index(protocols(client@), protocol@) {
            Some(i) => (r matches Some((start, len)) && start == start_of(client@, i) && len
                == protocol@.len()) && start_of(client@, i) + protocol@.len() <= client@.len(),
            None => r is None,
        },
{
    let mut pos: usize = 0;
    let ghost mut passed: nat = 0;
    assert(client@.skip(0) =~= client@);
    while pos < client.len()
        invariant_except_break
            pos <= client@.len(),
            match first_index(protocols(client@.skip(pos as int)), protocol@) {
                Some(i) => first_index(protocols(client@), protocol@) == Some(passed + i)
                    && start_of(client@, passed + i) == pos + start_of(client@.skip(pos as int), i),
                None => first_index(protocols(client@), protocol@) is None,
            },
        ensures
            first_index(protocols(client@), protocol@) is None,
        decreases client@.len() - pos,
    {
        let ghost rest = client@.skip(pos as int);
        let len: usize = client[pos] as usize;
        if len > client.len() - pos - 1 {
            break;
        }
        let candidate: &[u8] = slice_subrange(client, pos + 1, pos + 1 + len);
        proof {
            assert(candidate@ =~= rest.subrange(1, 1 + rest[0]));
            assert(protocols(rest)[0] == candidate@);
            assert(protocols(rest).drop_first() =~= protocols(rest.skip(1 + rest[0])));
            assert(rest.skip(1 + rest[0]) =~= client@.skip(pos + 1 + len));
        }
        if same_bytes(candidate, protocol) {
            return Some((pos + 1, len));
        }
        pos = pos + 1 + len;
        proof {
            passed = passed + 1;
        }
    }
    None
}

/// Selects a protocol for a server (RFC 7301 Section 3.2).
///
/// Both lists are in wire form. Returns the start and the length of the selected protocol in the
/// client's list, or `None` if no protocol is common to both; the handshake is then refused.
pub fn alpn_select_callback(server_alpn: &[u8], client_alpn: &[u8]) -> (r: Option<(usize, usize)>)
    ensures
        match selection(protocols(server_alpn@), protocols(client_alpn@)) {
            Some(i) => (r matches Some((start, len)) && start == start_of(client_alpn@, i) && len
                == protocols(client_alpn@)[i as int].len()) && start_of(client_alpn@, i)
                + protocols(client_alpn@)[i as int].len() <= client_alpn@.len(),
            None => r is None,
        },
{
    let mut pos: usize = 0;
    assert(server_alpn@.skip(0) =~= server_alpn@);
    while pos < server_alpn.len()
        invariant_except_break
            pos <= server_alpn@.len(),
            selection(protocols(server_alpn@.skip(pos as int)), protocols(client_alpn@))
                == selection(protocols(server_alpn@), protocols(client_alpn@)),
        ensures
            selection(protocols(server_alpn@), protocols(client_alpn@)) is None,
        decreases server_alpn@.len() - pos,
    {
        let ghost rest = server_alpn@.skip(pos as int);
        let len: usize = server_alpn[pos] as usize;
        if len > server_alpn.len() - pos - 1 {
            break;
        }
        let candidate: &[u8] = slice_subrange(server_alpn, pos + 1, pos + 1 + len);
        proof {
            assert(candidate@ =~= rest.subrange(1, 1 + rest[0]));
            assert(protocols(rest)[0] == candidate@);
            assert(protocols(rest).drop_first() =~= protocols(rest.skip(1 + rest[0])));
            assert(rest.skip(1 + rest[0]) =~= server_alpn@.skip(pos + 1 + len));
            lemma_first_index(protocols(client_alpn@), candidate@);
        }
        match find_protocol(client_alpn, candidate) {
            Some(found) => {
                return Some(found);
            },
            None => {},
        }
        pos = pos + 1 + len;
    }
    None
}

} // verus!
