//! Stream data that was sent and is not acknowledged yet.
//!
//! The engine refers to the data that it was given until the peer has acknowledged it, since it
//! may have to send it again. So what one write hands over is a piece of its own, which stays where
//! it is until all of it is acknowledged. Acknowledgements come as ranges that grow without overlap,
//! so the pieces are released from the front.

use std::collections::VecDeque;
use std::ops::Range;

use vstd::prelude::*;
use vstd::slice::slice_to_vec;

verus! {

/// The sent and unacknowledged data of one stream.
pub struct InFlightStreamData {
    /// The position in the stream of the first unacknowledged byte.
    offset: u64,
    /// The data that was sent, a piece for each write.
    pieces: VecDeque<Vec<u8>>,
    /// The index in the first piece of the first unacknowledged byte.
    start: usize,
    /// The number of bytes in all pieces.
    held: usize,
}

/// What an [`InFlightStreamData`] holds.
#[verifier::ext_equal]
pub struct InFlight {
    /// The position in the stream of the first unacknowledged byte.
    pub offset: nat,
    /// The data that was sent, a piece for each write.
    pub pieces: Seq<Seq<u8>>,
    /// The index in the first piece of the first unacknowledged byte.
    pub start: nat,
}

/// What the pieces hold.
pub open spec fn contents(pieces: Seq<Vec<u8>>) -> Seq<Seq<u8>> {
    pieces.map_values(|piece: Vec<u8>| piece@)
}

impl View for InFlightStreamData {
    type V = InFlight;

    closed spec fn view(&self) -> InFlight {
        InFlight {
            offset: self.offset as nat,
            pieces: contents(self.pieces@),
            start: self.start as nat,
        }
    }
}

/// Whether no piece is empty.
pub open spec fn all_nonempty(pieces: Seq<Seq<u8>>) -> bool {
    forall|i: int| 0 <= i < pieces.len() ==> (#[trigger] pieces[i]).len() > 0
}

/// The pieces without those that lie before the index `start` as a whole, and what is left of
/// `start`.
pub open spec fn released(pieces: Seq<Seq<u8>>, start: nat) -> (Seq<Seq<u8>>, nat)
    decreases pieces.len(),
{
    if pieces.len() > 0 && start >= pieces[0].len() {
        released(pieces.drop_first(), (start - pieces[0].len()) as nat)
    } else {
        (pieces, start)
    }
}

/// The pieces with their first `len` bytes in all.
pub open spec fn first_bytes(pieces: Seq<Seq<u8>>, len: nat) -> Seq<Seq<u8>>
    decreases pieces.len(),
{
    if len >= pieces.flatten().len() {
        pieces
    } else {
        let rest = pieces.drop_last();
        if len <= rest.flatten().len() {
            first_bytes(rest, len)
        } else {
            rest.push(pieces.last().take(len - rest.flatten().len()))
        }
    }
}

impl InFlight {
    /// Nothing sent yet.
    pub open spec fn empty() -> InFlight {
        InFlight { offset: 0, pieces: Seq::empty(), start: 0 }
    }

    /// No piece is empty, and the first one holds the first unacknowledged byte.
    pub open spec fn wf(self) -> bool {
        &&& all_nonempty(self.pieces)
        &&& self.start == 0 || (self.pieces.len() > 0 && self.start < self.pieces[0].len())
    }

    /// All that is held.
    pub open spec fn data(self) -> Seq<u8> {
        self.pieces.flatten()
    }

    /// The data that is not acknowledged yet.
    pub open spec fn unacked(self) -> Seq<u8> {
        self.data().skip(self.start as int)
    }

    /// How many bytes an acknowledgement up to the stream position `upto` releases.
    pub open spec fn advance(self, upto: nat) -> nat {
        if upto <= self.offset {
            0
        } else if upto - self.offset <= self.unacked().len() {
            (upto - self.offset) as nat
        } else {
            self.unacked().len()
        }
    }

    /// After an acknowledgement of everything before the stream position `upto`.
    pub open spec fn acked(self, upto: nat) -> InFlight {
        let (pieces, start) = released(self.pieces, self.start + self.advance(upto));
        InFlight { offset: self.offset + self.advance(upto), pieces, start }
    }

    /// After `bytes` were added behind the data.
    pub open spec fn appended(self, bytes: Seq<u8>) -> InFlight {
        if bytes.len() == 0 {
            self
        } else {
            InFlight { pieces: self.pieces.push(bytes), ..self }
        }
    }

    /// The piece that stands at the end of the data from `start` to `end`; empty if there is none.
    pub open spec fn offered(self, start: nat, end: nat) -> Seq<u8> {
        if self.pieces.len() > 0 && end == self.data().len() && start + self.pieces.last().len()
            == end {
            self.pieces.last()
        } else {
            Seq::empty()
        }
    }

    /// With at most `len` unacknowledged bytes kept.
    pub open spec fn truncated(self, len: nat) -> InFlight {
        if len == 0 {
            InFlight { pieces: Seq::empty(), start: 0, ..self }
        } else {
            InFlight { pieces: first_bytes(self.pieces, self.start + len), ..self }
        }
    }

    /// How many unacknowledged bytes stand before the index `start` of the data.
    pub open spec fn before(self, start: nat) -> nat {
        if start >= self.start {
            (start - self.start) as nat
        } else {
            0
        }
    }

    /// After a write that offered `bytes` and of which `written` bytes went out.
    pub open spec fn wrote(self, bytes: Seq<u8>, written: nat) -> InFlight {
        self.appended(bytes).truncated(self.unacked().len() + written)
    }

    /// Whether all that is unacknowledged of `sent`, the bytes that the stream has carried so far,
    /// is held, and nothing else.
    pub open spec fn retains(self, sent: Seq<u8>) -> bool {
        &&& self.wf()
        &&& self.offset <= sent.len()
        &&& self.unacked() == sent.skip(self.offset as int)
    }
}

/// The start lies within the data, and where nothing is unacknowledged nothing is held.
proof fn lemma_wf_range(e: InFlight)
    requires
        e.wf(),
    ensures
        e.start <= e.data().len(),
        e.pieces.len() > 0 ==> e.unacked().len() > 0,
        e.pieces.len() == 0 ==> e.data() == Seq::<u8>::empty(),
{
}

/// Releasing pieces keeps every byte from `start` on.
proof fn lemma_released(pieces: Seq<Seq<u8>>, start: nat)
    requires
        all_nonempty(pieces),
        start <= pieces.flatten().len(),
    ensures
        ({
            let (left, index) = released(pieces, start);
            &&& left.len() <= pieces.len()
            &&& left == pieces.skip(pieces.len() - left.len())
            &&& all_nonempty(left)
            &&& index == 0 || (left.len() > 0 && index < left[0].len())
            &&& left.flatten().skip(index as int) == pieces.flatten().skip(start as int)
        }),
    decreases pieces.len(),
{
    if pieces.len() > 0 && start >= pieces[0].len() {
        let rest = pieces.drop_first();
        let (left, index) = released(pieces, start);
        lemma_released(rest, (start - pieces[0].len()) as nat);
        assert(left =~= pieces.skip(pieces.len() - left.len()));
        assert(pieces.flatten().skip(start as int) =~= rest.flatten().skip(
            start - pieces[0].len(),
        ));
    } else {
        assert(pieces.skip(0) =~= pieces);
    }
}

/// Cutting the end off keeps the bytes before it, and the pieces that they are in.
proof fn lemma_first_bytes(pieces: Seq<Seq<u8>>, len: nat)
    requires
        all_nonempty(pieces),
        len <= pieces.flatten().len(),
    ensures
        ({
            let left = first_bytes(pieces, len);
            &&& left.len() <= pieces.len()
            &&& all_nonempty(left)
            &&& left.flatten() == pieces.flatten().take(len as int)
            &&& forall|i: int| 0 <= i < left.len() - 1 ==> #[trigger] left[i] == pieces[i]
        }),
    decreases pieces.len(),
{
    if len >= pieces.flatten().len() {
        assert(pieces.flatten().take(len as int) =~= pieces.flatten());
    } else {
        let rest = pieces.drop_last();
        let last = pieces.last();
        assert(rest.push(last) =~= pieces);
        rest.lemma_flatten_push(last);
        if len <= rest.flatten().len() {
            lemma_first_bytes(rest, len);
            assert(rest.flatten().take(len as int) =~= pieces.flatten().take(len as int));
        } else {
            let cut = last.take(len - rest.flatten().len());
            rest.lemma_flatten_push(cut);
            assert(rest.flatten() + cut =~= pieces.flatten().take(len as int));
        }
    }
}

/// Before the first write a stream has carried nothing.
pub proof fn lemma_empty_retains()
    ensures
        InFlight::empty().retains(Seq::empty()),
{
    assert(InFlight::empty().unacked() =~= Seq::<u8>::empty().skip(0));
}

/// Only the data of the write itself is offered to the engine, in a piece of its own.
pub proof fn lemma_offered_is_what_was_added(e: InFlight, bytes: Seq<u8>)
    requires
        e.wf(),
    ensures
        e.appended(bytes).offered(e.data().len(), e.data().len() + bytes.len()) == bytes,
        e.appended(bytes).data() == e.data() + bytes,
{
    if bytes.len() == 0 {
        assert(bytes =~= Seq::<u8>::empty());
        assert(e.data() + bytes =~= e.data());
    } else {
        e.pieces.lemma_flatten_push(bytes);
    }
}

/// Whatever part of the offered bytes goes out, exactly that part is held from then on.
///
/// It is the last piece, and the pieces before it stay as they are.
pub proof fn lemma_write_retains(e: InFlight, sent: Seq<u8>, bytes: Seq<u8>, written: nat)
    requires
        e.retains(sent),
        written <= bytes.len(),
    ensures
        e.wrote(bytes, written).retains(sent + bytes.take(written as int)),
        e.wrote(bytes, written).offset == e.offset,
        e.wrote(bytes, written).unacked() == e.unacked() + bytes.take(written as int),
        e.wrote(bytes, written).pieces == (if written == 0 {
            e.pieces
        } else {
            e.pieces.push(bytes.take(written as int))
        }),
{
    let part = bytes.take(written as int);
    let after = e.wrote(bytes, written);
    lemma_wf_range(e);
    e.pieces.lemma_flatten_push(part);
    if bytes.len() > 0 {
        e.pieces.lemma_flatten_push(bytes);
        assert(e.pieces.push(bytes).drop_last() =~= e.pieces);
        if written == bytes.len() {
            assert(part =~= bytes);
        }
    }
    reveal_with_fuel(first_bytes, 2);
    assert(after.pieces =~= (if written == 0 {
        e.pieces
    } else {
        e.pieces.push(part)
    }));
    assert(after.unacked() =~= e.unacked() + part);
    assert((sent + part).skip(e.offset as int) =~= sent.skip(e.offset as int) + part);
}

/// An acknowledgement of sent bytes releases them and keeps all others.
///
/// The position only moves forward: one that repeats an earlier range changes nothing. A piece is
/// released as a whole, once all of it is acknowledged; the others stay as they are.
pub proof fn lemma_ack_retains(e: InFlight, sent: Seq<u8>, upto: nat)
    requires
        e.retains(sent),
        upto <= sent.len(),
    ensures
        e.acked(upto).retains(sent),
        e.acked(upto).offset == (if upto <= e.offset {
            e.offset
        } else {
            upto
        }),
        upto <= e.offset ==> e.acked(upto) == e,
        e.acked(upto).pieces.len() <= e.pieces.len(),
        e.acked(upto).pieces == e.pieces.skip(e.pieces.len() - e.acked(upto).pieces.len()),
{
    let after = e.acked(upto);
    lemma_wf_range(e);
    assert(e.unacked().len() == sent.len() - e.offset);
    lemma_released(e.pieces, e.start + e.advance(upto));
    if upto > e.offset {
        assert(e.advance(upto) == upto - e.offset);
        assert(after.unacked() =~= e.unacked().skip(upto - e.offset));
        assert(sent.skip(upto as int) =~= sent.skip(e.offset as int).skip(upto - e.offset));
    }
}

/// An acknowledgement beyond the data that is held releases all of it and moves the position to its
/// end.
pub proof fn lemma_ack_stops_at_the_end(e: InFlight, upto: nat)
    requires
        e.wf(),
        upto >= e.offset + e.unacked().len(),
    ensures
        e.acked(upto).wf(),
        e.acked(upto).pieces.len() == 0,
        e.acked(upto).offset == e.offset + e.unacked().len(),
{
    lemma_wf_range(e);
    lemma_released(e.pieces, e.start + e.advance(upto));
    let after = e.acked(upto);
    assert(e.start + e.advance(upto) == e.data().len());
    assert(after.unacked() =~= Seq::<u8>::empty());
    lemma_wf_range(after);
}

/// Acknowledging the same position again changes nothing.
pub proof fn lemma_ack_idempotent(e: InFlight, sent: Seq<u8>, upto: nat)
    requires
        e.retains(sent),
        upto <= sent.len(),
    ensures
        e.acked(upto).acked(upto) == e.acked(upto),
{
    lemma_ack_retains(e, sent, upto);
    lemma_ack_retains(e.acked(upto), sent, upto);
}

/// Once everything is acknowledged nothing is held, and the position is kept for later writes.
pub proof fn lemma_ack_all(e: InFlight, sent: Seq<u8>)
    requires
        e.retains(sent),
    ensures
        e.acked(sent.len()).unacked() == Seq::<u8>::empty(),
        e.acked(sent.len()).pieces.len() == 0,
        e.acked(sent.len()).offset == sent.len(),
{
    lemma_ack_retains(e, sent, sent.len());
    assert(e.acked(sent.len()).unacked() =~= Seq::<u8>::empty());
    lemma_wf_range(e.acked(sent.len()));
}

/// A write that goes out in two parts leaves the same as one that goes out at once.
pub proof fn lemma_write_in_parts(e: InFlight, sent: Seq<u8>, bytes: Seq<u8>, first: nat)
    requires
        e.retains(sent),
        first <= bytes.len(),
    ensures
        e.wrote(bytes, first).wrote(
            bytes.skip(first as int),
            (bytes.len() - first) as nat,
        ).unacked() == e.wrote(bytes, bytes.len()).unacked(),
{
    lemma_write_retains(e, sent, bytes, first);
    lemma_write_retains(e, sent, bytes, bytes.len());
    let rest = bytes.skip(first as int);
    lemma_write_retains(e.wrote(bytes, first), sent + bytes.take(first as int), rest, rest.len());
    assert(bytes.take(first as int) + rest.take(rest.len() as int) =~= bytes.take(
        bytes.len() as int,
    ));
    assert(e.unacked() + bytes.take(first as int) + rest.take(rest.len() as int) =~= e.unacked() + (
    bytes.take(first as int) + rest.take(rest.len() as int)));
}

/// Something that happens to a stream.
pub enum StreamOp {
    /// A write that offers `data` and of which `written` bytes go out.
    Write { data: Seq<u8>, written: nat },
    /// An acknowledgement of everything before the stream position `upto`.
    Ack { upto: nat },
}

/// The bytes that went out, in order.
pub open spec fn sent_by(ops: Seq<StreamOp>) -> Seq<u8>
    decreases ops.len(),
{
    if ops.len() == 0 {
        Seq::empty()
    } else {
        let before = sent_by(ops.drop_last());
        match ops.last() {
            StreamOp::Write { data, written } => before + data.take(written as int),
            StreamOp::Ack { upto } => before,
        }
    }
}

/// How many bytes are acknowledged in all.
pub open spec fn acked_by(ops: Seq<StreamOp>) -> nat
    decreases ops.len(),
{
    if ops.len() == 0 {
        0
    } else {
        let before = acked_by(ops.drop_last());
        match ops.last() {
            StreamOp::Ack { upto } if upto > before => upto,
            _ => before,
        }
    }
}

/// What is held of a stream after `ops`.
pub open spec fn held_after(ops: Seq<StreamOp>) -> InFlight
    decreases ops.len(),
{
    if ops.len() == 0 {
        InFlight::empty()
    } else {
        let before = held_after(ops.drop_last());
        match ops.last() {
            StreamOp::Write { data, written } => before.wrote(data, written),
            StreamOp::Ack { upto } => before.acked(upto),
        }
    }
}

/// Whether no write sends more than it offers, and no acknowledgement reaches beyond what was sent.
pub open spec fn possible(ops: Seq<StreamOp>) -> bool
    decreases ops.len(),
{
    ops.len() == 0 || {
        &&& possible(ops.drop_last())
        &&& match ops.last() {
            StreamOp::Write { data, written } => written <= data.len(),
            StreamOp::Ack { upto } => upto <= sent_by(ops.drop_last()).len(),
        }
    }
}

/// Whatever happens to a stream, exactly the bytes that were sent and are not acknowledged are held:
/// none of them is lost, and no other byte is kept.
pub proof fn lemma_history_retains(ops: Seq<StreamOp>)
    requires
        possible(ops),
    ensures
        held_after(ops).retains(sent_by(ops)),
        held_after(ops).offset == acked_by(ops),
        acked_by(ops) <= sent_by(ops).len(),
        held_after(ops).unacked() == sent_by(ops).skip(acked_by(ops) as int),
    decreases ops.len(),
{
    if ops.len() == 0 {
        lemma_empty_retains();
    } else {
        let earlier = ops.drop_last();
        lemma_history_retains(earlier);
        match ops.last() {
            StreamOp::Write { data, written } => {
                lemma_write_retains(held_after(earlier), sent_by(earlier), data, written);
            },
            StreamOp::Ack { upto } => {
                lemma_ack_retains(held_after(earlier), sent_by(earlier), upto);
            },
        }
    }
}

impl InFlightStreamData {
    #[verifier::type_invariant]
    closed spec fn inv(self) -> bool {
        &&& self@.wf()
        &&& self.held == self@.data().len()
    }

    /// Nothing sent yet.
    pub fn new() -> (r: InFlightStreamData)
        ensures
            r@ == InFlight::empty(),
    {
        let pieces: VecDeque<Vec<u8>> = VecDeque::new();
        assert(contents(pieces@) =~= Seq::<Seq<u8>>::empty());
        InFlightStreamData { offset: 0, pieces, start: 0, held: 0 }
    }

    /// Unacknowledged `data` that starts at the stream position `offset`.
    pub fn starting_at(offset: u64, data: &[u8]) -> (r: InFlightStreamData)
        ensures
            r@ == (InFlight { offset: offset as nat, ..InFlight::empty() }).appended(data@),
    {
        let mut pieces: VecDeque<Vec<u8>> = VecDeque::new();
        assert(contents(pieces@) =~= Seq::<Seq<u8>>::empty());
        if data.len() > 0 {
            pieces.push_back(slice_to_vec(data));
            proof {
                assert(contents(pieces@) =~= Seq::<Seq<u8>>::empty().push(data@));
                Seq::<Seq<u8>>::empty().lemma_flatten_push(data@);
            }
        }
        InFlightStreamData { offset, pieces, start: 0, held: data.len() }
    }

    /// Returns the position in the stream of the first unacknowledged byte.
    pub fn offset(&self) -> (r: u64)
        ensures
            r == self@.offset,
    {
        self.offset
    }

    /// Returns the number of bytes that are held.
    pub fn held(&self) -> (r: usize)
        ensures
            r == self@.data().len(),
    {
        proof {
            use_type_invariant(self);
        }
        self.held
    }

    /// Returns the data that is not acknowledged yet.
    pub fn unacked(&self) -> (r: Vec<u8>)
        ensures
            r@ == self@.unacked(),
    {
        proof {
            use_type_invariant(self);
            lemma_wf_range(self@);
        }
        let mut all: Vec<u8> = Vec::new();
        let mut i: usize = 0;
        assert(self@.pieces.take(0).flatten() =~= Seq::<u8>::empty());
        while i < self.pieces.len()
            invariant
                i <= self.pieces@.len(),
                all@ == self@.pieces.take(i as int).flatten(),
            decreases self.pieces@.len() - i,
        {
            all.extend_from_slice(self.pieces[i].as_slice());
            proof {
                let done = self@.pieces.take(i as int);
                done.lemma_flatten_push(self@.pieces[i as int]);
                assert(self@.pieces.take(i + 1) =~= done.push(self@.pieces[i as int]));
                assert(all@ =~= done.flatten() + self@.pieces[i as int]);
            }
            i = i + 1;
        }
        assert(self@.pieces.take(i as int) =~= self@.pieces);
        let r: Vec<u8> = all.split_off(self.start);
        assert(r@ =~= self@.unacked());
        r
    }

    /// Releases everything before the stream position `offset`.
    ///
    /// A position beyond the data stands for its end.
    pub fn ack_until(&mut self, offset: u64)
        ensures
            final(self)@ == old(self)@.acked(offset as nat),
    {
        proof {
            use_type_invariant(&*self);
            lemma_wf_range(self@);
        }
        if offset <= self.offset {
            return;
        }
        let ghost before = self@;
        let distance: u64 = offset - self.offset;
        let room: usize = self.held - self.start;
        let acked: usize = if distance <= room as u64 {
            distance as usize
        } else {
            room
        };
        let mut taken: InFlightStreamData = InFlightStreamData::new();
        std::mem::swap(self, &mut taken);
        let position: u64 = taken.offset;
        let mut pieces: VecDeque<Vec<u8>> = taken.pieces;
        let mut start: usize = taken.start + acked;
        let mut held: usize = taken.held;
        while pieces.len() > 0 && start >= pieces[0].len()
            invariant
                released(contents(pieces@), start as nat) == released(
                    before.pieces,
                    before.start + acked as nat,
                ),
                start <= contents(pieces@).flatten().len(),
                held == contents(pieces@).flatten().len(),
            decreases pieces@.len(),
        {
            let ghost now = contents(pieces@);
            let first: Option<Vec<u8>> = pieces.pop_front();
            assert(contents(pieces@) =~= now.drop_first());
            match first {
                Some(piece) => {
                    start = start - piece.len();
                    held = held - piece.len();
                },
                None => {},
            }
        }
        proof {
            lemma_released(before.pieces, before.start + acked as nat);
        }
        *self = InFlightStreamData { offset: position + acked as u64, pieces, start, held };
    }

    /// Adds `data` as a piece of its own and returns where it stands.
    pub fn append(&mut self, data: &[u8]) -> (r: Range<usize>)
        requires
            old(self)@.data().len() + data@.len() <= usize::MAX,
        ensures
            final(self)@ == old(self)@.appended(data@),
            r.start == old(self)@.data().len(),
            r.end == old(self)@.data().len() + data@.len(),
    {
        proof {
            use_type_invariant(&*self);
            lemma_wf_range(self@);
            self@.pieces.lemma_flatten_push(data@);
        }
        let ghost before = self@;
        let from: usize = self.held;
        if data.len() > 0 {
            let mut taken: InFlightStreamData = InFlightStreamData::new();
            std::mem::swap(self, &mut taken);
            let mut pieces: VecDeque<Vec<u8>> = taken.pieces;
            pieces.push_back(slice_to_vec(data));
            assert(contents(pieces@) =~= before.pieces.push(data@));
            *self = InFlightStreamData {
                offset: taken.offset,
                pieces,
                start: taken.start,
                held: from + data.len(),
            };
        }
        from..from + data.len()
    }

    /// Returns the piece that stands at the end of the data from `start` to `end`.
    pub fn offered(&self, start: usize, end: usize) -> (r: &[u8])
        ensures
            r@ == self@.offered(start as nat, end as nat),
    {
        proof {
            use_type_invariant(self);
        }
        if self.pieces.len() == 0 || end != self.held || start > end {
            return &[];
        }
        let last: &Vec<u8> = &self.pieces[self.pieces.len() - 1];
        if end - start != last.len() {
            return &[];
        }
        last.as_slice()
    }

    /// Drops what was not written out, keeping `len` unacknowledged bytes.
    ///
    /// The caller offers the rest again with its next write.
    pub fn truncate_unwritten(&mut self, len: usize)
        ensures
            final(self)@ == old(self)@.truncated(len as nat),
    {
        proof {
            use_type_invariant(&*self);
            lemma_wf_range(self@);
        }
        let ghost before = self@;
        if len == 0 {
            let mut empty: InFlightStreamData = InFlightStreamData::starting_at(self.offset, &[]);
            std::mem::swap(self, &mut empty);
            assert(self@ =~= before.truncated(0));
            return;
        }
        if len >= self.held - self.start {
            return;
        }
        let mut taken: InFlightStreamData = InFlightStreamData::new();
        std::mem::swap(self, &mut taken);
        let mut pieces: VecDeque<Vec<u8>> = taken.pieces;
        let keep: usize = taken.start + len;
        let mut held: usize = taken.held;
        while held > keep
            invariant
                keep <= held,
                held == contents(pieces@).flatten().len(),
                first_bytes(contents(pieces@), keep as nat) == first_bytes(
                    before.pieces,
                    keep as nat,
                ),
            decreases held, pieces@.len(),
        {
            let ghost now = contents(pieces@);
            let last: Option<Vec<u8>> = pieces.pop_back();
            match last {
                Some(mut piece) => {
                    proof {
                        assert(contents(pieces@) =~= now.drop_last());
                        assert(now =~= now.drop_last().push(piece@));
                        now.drop_last().lemma_flatten_push(piece@);
                    }
                    held = held - piece.len();
                    if held < keep {
                        piece.truncate(keep - held);
                        proof {
                            contents(pieces@).lemma_flatten_push(piece@);
                        }
                        let ghost rest = contents(pieces@);
                        let ghost cut = piece@;
                        pieces.push_back(piece);
                        assert(contents(pieces@) =~= rest.push(cut));
                        held = keep;
                    }
                },
                None => {},
            }
        }
        proof {
            lemma_first_bytes(before.pieces, keep as nat);
            let left = contents(pieces@);
            assert(left == first_bytes(before.pieces, keep as nat));
            if left.len() == 1 {
                left.lemma_flatten_one_element();
            }
        }
        *self = InFlightStreamData { offset: taken.offset, pieces, start: taken.start, held };
    }

    /// Ends a write whose data stands at the index `start`: drops what did not go out.
    pub fn end_write(&mut self, start: usize, written: usize)
        ensures
            final(self)@ == old(self)@.truncated(old(self)@.before(start as nat) + written as nat),
    {
        proof {
            use_type_invariant(&*self);
            lemma_wf_range(self@);
        }
        let before: usize = start.saturating_sub(self.start);
        self.truncate_unwritten(before.saturating_add(written));
    }
}

} // verus!
