//! Chunked wire framing of outgoing requests.
//!
//! A request buffer is split into chunks of at most [`CHUNK_LENGTH`] bytes;
//! each chunk travels as one bus write, framed by a single length-prefix
//! byte. Chunks are grouped into segments of [`SEGMENT_LENGTH`] bytes, which
//! only changes the delays between writes, never the bytes on the wire.
use vstd::prelude::*;

verus! {

/// Maximum chunk payload per bus write. The protocol ceiling is 127 bytes;
/// this conservative value is known to work across bus drivers.
pub const CHUNK_LENGTH: usize = 30;

/// Segment size when transmitting: the largest multiple of the chunk length
/// not exceeding the device's 250-byte segment budget, so segments never
/// fragment a chunk.
pub const SEGMENT_LENGTH: usize = (250 / CHUNK_LENGTH) * CHUNK_LENGTH;

/// Number of chunks that make up one full segment.
pub const CHUNKS_PER_SEGMENT: usize = SEGMENT_LENGTH / CHUNK_LENGTH;

/// The payloads of the chunks that `data` splits into, in wire order: full
/// `chunk_len`-byte slices, then whatever remains.
pub open spec fn chunk_payloads(data: Seq<u8>, chunk_len: nat) -> Seq<Seq<u8>>
    decreases data.len(),
{
    if chunk_len == 0 || data.len() == 0 {
        Seq::empty()
    } else if data.len() <= chunk_len {
        seq![data]
    } else {
        seq![data.take(chunk_len as int)] + chunk_payloads(data.skip(chunk_len as int), chunk_len)
    }
}

/// One chunk as it appears on the wire: the payload length in a single
/// prefix byte, then the payload. Meaningful for payloads of at most 255
/// bytes; the driver only ever frames payloads of at most [`CHUNK_LENGTH`].
pub open spec fn frame_of(payload: Seq<u8>) -> Seq<u8> {
    seq![payload.len() as u8] + payload
}

/// Chunking loses and reorders nothing: concatenating the chunk payloads of
/// `data`, in order, yields exactly `data` again. Together with the frame
/// shape in [`build_frames`], stripping the length-prefix byte of every
/// chunk write and concatenating the rest reconstructs the request.
pub proof fn lemma_chunk_payloads_concat(data: Seq<u8>, chunk_len: nat)
    requires
        chunk_len > 0,
    ensures
        chunk_payloads(data, chunk_len).flatten() =~= data,
    decreases data.len(),
{
    if data.len() == 0 {
        assert(chunk_payloads(data, chunk_len).flatten() =~= data);
    } else if data.len() <= chunk_len {
        let cs = chunk_payloads(data, chunk_len);
        assert(cs =~= seq![data]);
        assert(cs.flatten() =~= data + cs.drop_first().flatten());
        assert(cs.drop_first() =~= Seq::<Seq<u8>>::empty());
        assert(cs.drop_first().flatten() =~= Seq::<u8>::empty());
    } else {
        let rest = data.skip(chunk_len as int);
        lemma_chunk_payloads_concat(rest, chunk_len);
        let cs = chunk_payloads(data, chunk_len);
        assert(cs.drop_first() =~= chunk_payloads(rest, chunk_len));
        assert(cs.flatten() =~= data.take(chunk_len as int) + cs.drop_first().flatten());
        assert(cs.flatten() =~= data.take(chunk_len as int) + rest);
        assert(data.take(chunk_len as int) + rest =~= data);
    }
}

/// The driver's activity while transmitting the first `i` chunk payloads
/// of a request: for each chunk, one framed write followed by the chunk
/// settle delay, with the longer segment settle delay additionally after
/// every [`CHUNKS_PER_SEGMENT`]th chunk and after the last — chunks
/// strictly in order, nothing else on the wire.
pub open spec fn send_trace(
    addr: u8,
    payloads: Seq<Seq<u8>>,
    i: nat,
    chunk_delay: u16,
    segment_delay: u16,
) -> Seq<crate::hal::TraceEvent>
    decreases i,
{
    if i == 0 {
        Seq::empty()
    } else {
        let step = send_trace(addr, payloads, (i - 1) as nat, chunk_delay, segment_delay) + seq![
            crate::hal::TraceEvent::Write { addr: addr, data: frame_of(payloads[i - 1]) },
            crate::hal::TraceEvent::Delay { ms: chunk_delay },
        ];
        if i % (CHUNKS_PER_SEGMENT as nat) == 0 || i == payloads.len() {
            step + seq![crate::hal::TraceEvent::Delay { ms: segment_delay }]
        } else {
            step
        }
    }
}

/// Build the framed chunk writes for `data`: one `Vec` per chunk, each the
/// exact bytes of one bus write transaction, in transmission order.
pub fn build_frames(data: &[u8]) -> (r: Vec<Vec<u8>>)
    ensures
        r@.len() == chunk_payloads(data@, CHUNK_LENGTH as nat).len(),
        forall|i: int|
            0 <= i < r@.len() ==> r@[i]@ =~= frame_of(
                chunk_payloads(data@, CHUNK_LENGTH as nat)[i],
            ),
{
    let ghost cp = chunk_payloads(data@, CHUNK_LENGTH as nat);
    let mut frames: Vec<Vec<u8>> = Vec::new();
    let mut pos: usize = 0;
    proof {
        assert(data@.skip(0) =~= data@);
        assert(cp.skip(0) =~= cp);
    }
    while pos < data.len()
        invariant
            pos <= data@.len(),
            cp == chunk_payloads(data@, CHUNK_LENGTH as nat),
            frames@.len() <= cp.len(),
            forall|i: int| 0 <= i < frames@.len() ==> frames@[i]@ =~= frame_of(cp[i]),
            chunk_payloads(data@.skip(pos as int), CHUNK_LENGTH as nat) =~= cp.skip(
                frames@.len() as int,
            ),
            pos == data@.len() ==> frames@.len() == cp.len(),
        decreases data@.len() - pos,
    {
        let end: usize = if data.len() - pos < CHUNK_LENGTH {
            data.len()
        } else {
            pos + CHUNK_LENGTH
        };
        proof {
            let rest = data@.skip(pos as int);
            let k = frames@.len() as int;
            assert(rest.len() == data@.len() - pos);
            assert(rest.len() > 0);
            assert(cp.skip(k).len() == cp.len() - k);
            if rest.len() <= CHUNK_LENGTH as nat {
                assert(chunk_payloads(rest, CHUNK_LENGTH as nat) =~= seq![rest]);
                assert(k + 1 == cp.len());
                assert(cp[k] == cp.skip(k)[0]);
                assert(cp[k] =~= rest);
                assert(rest =~= data@.subrange(pos as int, end as int));
                assert(data@.skip(end as int) =~= Seq::<u8>::empty());
                assert(chunk_payloads(data@.skip(end as int), CHUNK_LENGTH as nat) =~= cp.skip(
                    k + 1,
                ));
            } else {
                let tail = chunk_payloads(rest.skip(CHUNK_LENGTH as int), CHUNK_LENGTH as nat);
                assert(chunk_payloads(rest, CHUNK_LENGTH as nat) =~= seq![
                    rest.take(CHUNK_LENGTH as int)] + tail);
                assert(cp[k] == cp.skip(k)[0]);
                assert(cp[k] =~= rest.take(CHUNK_LENGTH as int));
                assert(rest.take(CHUNK_LENGTH as int) =~= data@.subrange(pos as int, end as int));
                assert(rest.skip(CHUNK_LENGTH as int) =~= data@.skip(end as int));
                assert(rest.skip(CHUNK_LENGTH as int).len() > 0);
                assert(tail.len() >= 1);
                assert(k + 1 < cp.len());
                assert forall|i: int| 0 <= i < cp.len() - (k + 1) implies cp.skip(k + 1)[i]
                    == tail[i] by {
                    assert(cp.skip(k + 1)[i] == cp[k + 1 + i]);
                    assert(cp.skip(k)[1 + i] == cp[k + 1 + i]);
                    assert(cp.skip(k)[1 + i] == tail[i]);
                }
                assert(chunk_payloads(data@.skip(end as int), CHUNK_LENGTH as nat) =~= cp.skip(
                    k + 1,
                ));
            }
        }
        let mut frame: Vec<u8> = Vec::new();
        frame.push((end - pos) as u8);
        frame.extend_from_slice(&data[pos..end]);
        proof {
            assert(frame@ =~= frame_of(data@.subrange(pos as int, end as int)));
        }
        frames.push(frame);
        pos = end;
    }
    proof {
        assert(data@.skip(pos as int) =~= Seq::<u8>::empty());
    }
    frames
}

} // verus!
