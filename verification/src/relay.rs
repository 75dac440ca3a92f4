//! Relaying a byte stream through messages: the data read from one side is
//! cut into payloads of at most a frame's size, and each message read from the
//! other side is either data to forward, the end, or a protocol violation.
use vstd::prelude::*;

use crate::address::NetAddress;
use crate::payload::{MessagePayload, PayloadType, SpecMessagePayload};
use crate::service::ReadMessageFramedResultContent;
use crate::wire::copy_range;

verus! {

/// `data` cut into pieces of `n` bytes, the last one possibly shorter; no
/// pieces for no data.
pub open spec fn spec_chunks(data: Seq<u8>, n: nat) -> Seq<Seq<u8>>
    decreases data.len(),
{
    if data.len() == 0 || n == 0 {
        Seq::empty()
    } else if data.len() <= n {
        seq![data]
    } else {
        seq![data.take(n as int)] + spec_chunks(data.skip(n as int), n)
    }
}

/// The pieces joined again.
pub open spec fn spec_flatten(pieces: Seq<Seq<u8>>) -> Seq<u8>
    decreases pieces.len(),
{
    if pieces.len() == 0 {
        Seq::empty()
    } else {
        pieces[0] + spec_flatten(pieces.drop_first())
    }
}

/// Cutting data into pieces loses and adds nothing: joined, the pieces are the
/// data; each piece has between 1 and `n` bytes, and there are as many pieces
/// as `n`-byte blocks the data needs.
pub proof fn lemma_chunks_partition(data: Seq<u8>, n: nat)
    requires
        n > 0,
    ensures
        spec_flatten(spec_chunks(data, n)) == data,
        forall|i: int| 0 <= i < spec_chunks(data, n).len() ==> 0 < #[trigger] spec_chunks(data, n)[i].len() <= n,
        spec_chunks(data, n).len() == (data.len() + n - 1) / (n as int),
    decreases data.len(),
{
    let c = spec_chunks(data, n);
    if data.len() == 0 {
        assert(spec_flatten(c) =~= data);
        assert((data.len() + n - 1) / (n as int) == 0) by (nonlinear_arith)
            requires
                data.len() == 0,
                n > 0,
        ;
    } else if data.len() <= n {
        assert(c.drop_first() =~= Seq::<Seq<u8>>::empty());
        assert(spec_flatten(c.drop_first()) =~= Seq::<u8>::empty());
        assert(c[0] == data);
        assert(spec_flatten(c) =~= data);
        assert((data.len() + n - 1) / (n as int) == 1) by (nonlinear_arith)
            requires
                0 < data.len() <= n,
        ;
    } else {
        let rest = data.skip(n as int);
        lemma_chunks_partition(rest, n);
        assert(c.drop_first() =~= spec_chunks(rest, n));
        assert(data.take(n as int) + rest =~= data);
        assert forall|i: int| 0 <= i < c.len() implies 0 < #[trigger] c[i].len() <= n by {
            if i > 0 {
                assert(c[i] == spec_chunks(rest, n)[i - 1]);
            }
        }
        let m = rest.len();
        assert((data.len() + n - 1) / (n as int) == (m + n - 1) / (n as int) + 1) by (nonlinear_arith)
            requires
                data.len() == m + n,
                n > 0,
        ;
    }
}

proof fn lemma_chunks_step(data: Seq<u8>, i: int, n: nat)
    requires
        0 <= i < data.len(),
        n > 0,
    ensures
        data.len() - i <= n ==> spec_chunks(data.skip(i), n) == seq![data.subrange(i, data.len() as int)],
        data.len() - i > n ==> spec_chunks(data.skip(i), n) == seq![data.subrange(i, i + n)] + spec_chunks(
            data.skip(i + n),
            n,
        ),
{
    assert(data.skip(i) =~= data.subrange(i, data.len() as int));
    if data.len() - i > n {
        assert(data.skip(i).take(n as int) =~= data.subrange(i, i + n));
        assert(data.skip(i).skip(n as int) =~= data.skip(i + n));
    }
}

/// The payload of the given kind carrying `data` between `source` and `target`.
pub open spec fn spec_data_payload(
    source: NetAddress,
    target: NetAddress,
    payload_type: PayloadType,
    data: Seq<u8>,
) -> SpecMessagePayload {
    SpecMessagePayload { source_address: source@, target_address: target@, payload_type, data }
}

/// The payloads that carry `data` between `source` and `target`: one per
/// piece of at most `chunk_size` bytes (see [`spec_chunks`]), in order, all of
/// the given kind.
pub fn data_payloads(
    source: &NetAddress,
    target: &NetAddress,
    payload_type: PayloadType,
    data: &[u8],
    chunk_size: usize,
) -> (res: Vec<MessagePayload>)
    requires
        chunk_size > 0,
    ensures
        res@.len() == spec_chunks(data@, chunk_size as nat).len(),
        forall|i: int|
            0 <= i < res@.len() ==> (#[trigger] res@[i])@ == spec_data_payload(
                *source,
                *target,
                payload_type,
                spec_chunks(data@, chunk_size as nat)[i],
            ),
{
    let n = chunk_size;
    let len = data.len();
    let ghost all = spec_chunks(data@, n as nat);
    let mut res: Vec<MessagePayload> = Vec::new();
    let mut i: usize = 0;
    assert(data@.skip(0) =~= data@);
    while i < len
        invariant
            len == data@.len(),
            n == chunk_size > 0,
            i <= len,
            all == spec_chunks(data@, n as nat),
            all == all.take(res@.len() as int) + spec_chunks(data@.skip(i as int), n as nat),
            res@.len() <= all.len(),
            forall|k: int|
                0 <= k < res@.len() ==> (#[trigger] res@[k])@ == spec_data_payload(*source, *target, payload_type, all[k]),
        decreases len - i,
    {
        let end = if len - i <= n { len } else { i + n };
        let piece = copy_range(data, i, end);
        let ghost done = res@.len() as int;
        proof {
            lemma_chunks_step(data@, i as int, n as nat);
            if end < len {
                assert(spec_chunks(data@.skip(i as int), n as nat) == seq![piece@] + spec_chunks(
                    data@.skip(end as int),
                    n as nat,
                ));
            } else {
                assert(data@.skip(end as int) =~= Seq::<u8>::empty());
                assert(spec_chunks(data@.skip(end as int), n as nat) =~= Seq::<Seq<u8>>::empty());
                assert(spec_chunks(data@.skip(i as int), n as nat) == seq![piece@] + spec_chunks(
                    data@.skip(end as int),
                    n as nat,
                ));
            }
            assert(all[done] == piece@);
            assert(all.take(done + 1) =~= all.take(done) + seq![piece@]);
            assert(all =~= all.take(done + 1) + spec_chunks(data@.skip(end as int), n as nat));
        }
        let payload = MessagePayload::new(source.duplicate(), target.duplicate(), payload_type, piece);
        res.push(payload);
        i = end;
    }
    assert(data@.skip(len as int) =~= Seq::<u8>::empty());
    assert(all.take(res@.len() as int) =~= all);
    res
}

/// What a relay does with a message read from the other side.
#[derive(Debug)]
pub enum RelayStep {
    /// Write these bytes on.
    Forward(Vec<u8>),
    /// The other side has finished.
    Finish,
    /// The message is not data of the expected kind.
    Invalid,
}

/// What a relay does with what a read gave: the end of the stream finishes
/// it, a payload of the expected kind gives its data to forward, anything
/// else is invalid.
pub fn relay_step(content: Option<ReadMessageFramedResultContent>, expected: PayloadType) -> (res: RelayStep)
    ensures
        match content {
            None => res is Finish,
            Some(c) => match c.message_payload {
                Some(p) => if p.payload_type == expected {
                    res matches RelayStep::Forward(d) && d@ == p.data@
                } else {
                    res is Invalid
                },
                None => res is Invalid,
            },
        },
{
    match content {
        None => RelayStep::Finish,
        Some(c) => match c.message_payload {
            Some(p) => if p.payload_type == expected {
                RelayStep::Forward(p.data)
            } else {
                RelayStep::Invalid
            },
            None => RelayStep::Invalid,
        },
    }
}

} // verus!
