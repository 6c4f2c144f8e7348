//! The byte pump: one direction of the relay's copy loop.
//!
//! A pump reads a chunk from its source, writes exactly those bytes to its
//! destination and flushes them, and stops at the first zero-length read
//! (end of stream) or error. The reads and writes themselves happen outside
//! the library; here stand the pump's decision (`pump_step`) and its model:
//! `spec_pumped` says which bytes a pump forwards given what its reads
//! returned, and the laws below pin the byte accounting down.

use vstd::prelude::*;

verus! {

/// How many bytes a pump reads at a time: large enough to amortize the cost
/// of each read and write, small enough to bound each session's memory.
pub const PUMP_BUFFER_LEN: usize = 16384 * 3;

/// What the pump does after one read.
#[derive(Clone, Copy, Debug, PartialEq, Eq, Structural)]
pub enum PumpDecision {
    /// Forward the chunk whole, flush it, then read again.
    Forward,
    /// The source signalled end of stream; stop with success.
    Finished,
}

/// Decides the pump's next move from the length one read returned. A
/// zero-length read is the normal termination signal, not an error.
pub fn pump_step(read_len: usize) -> (r: PumpDecision)
    ensures
        r is Finished <==> read_len == 0,
{
    if read_len == 0 {
        PumpDecision::Finished
    } else {
        PumpDecision::Forward
    }
}

/// The bytes a pump forwards, given the chunks its reads returned in
/// order: the concatenation of every chunk before the first empty one.
pub open spec fn spec_pumped(chunks: Seq<Seq<u8>>) -> Seq<u8>
    decreases chunks.len(),
{
    if chunks.len() == 0 || chunks[0].len() == 0 {
        Seq::empty()
    } else {
        chunks[0] + spec_pumped(chunks.drop_first())
    }
}

/// Replays a pump against recorded reads: returns exactly the bytes the
/// pump would have written, chunk for chunk, stopping at the first empty
/// read.
pub fn pumped_bytes(chunks: &Vec<Vec<u8>>) -> (out: Vec<u8>)
    ensures
        out@ == spec_pumped(chunks.deep_view()),
{
    let mut out: Vec<u8> = Vec::new();
    let mut i: usize = 0;
    assert(chunks.deep_view().skip(0) =~= chunks.deep_view());
    assert(out@ + spec_pumped(chunks.deep_view()) =~= spec_pumped(chunks.deep_view()));
    loop
        invariant
            i <= chunks@.len(),
            spec_pumped(chunks.deep_view()) == out@ + spec_pumped(
                chunks.deep_view().skip(i as int),
            ),
        decreases chunks@.len() - i,
    {
        let ghost pre = chunks.deep_view().skip(i as int);
        if i == chunks.len() {
            assert(pre =~= Seq::<Seq<u8>>::empty());
            assert(out@ + spec_pumped(pre) =~= out@);
            return out;
        }
        assert(pre[0] == chunks.deep_view()[i as int]);
        let chunk = &chunks[i];
        assert(chunks.deep_view()[i as int] =~= chunk@);
        match pump_step(chunk.len()) {
            PumpDecision::Finished => {
                assert(out@ + spec_pumped(pre) =~= out@);
                return out;
            },
            PumpDecision::Forward => {
                let ghost out0 = out@;
                assert(out0 + chunk@.subrange(0, 0) =~= out0);
                let mut j: usize = 0;
                while j < chunk.len()
                    invariant
                        j <= chunk@.len(),
                        out@ == out0 + chunk@.subrange(0, j as int),
                    decreases chunk@.len() - j,
                {
                    out.push(chunk[j]);
                    j = j + 1;
                }
                proof {
                    assert(chunk@.subrange(0, chunk@.len() as int) =~= chunk@);
                    assert(pre[0] == chunk@);
                    assert(pre.drop_first() =~= chunks.deep_view().skip(i + 1));
                    assert(out@ + spec_pumped(chunks.deep_view().skip(i + 1)) =~= out0 + spec_pumped(
                        pre,
                    ));
                }
                i = i + 1;
            },
        }
    }
}

/// Law: a pump whose source never signalled end of stream forwarded every
/// byte every read returned, in order: the model equals the flat
/// concatenation of all chunks.
pub proof fn lemma_pump_forwards_everything(chunks: Seq<Seq<u8>>)
    requires
        forall|i: int| 0 <= i < chunks.len() ==> #[trigger] chunks[i].len() != 0,
    ensures
        spec_pumped(chunks) == chunks.flatten(),
    decreases chunks.len(),
{
    if chunks.len() != 0 {
        lemma_pump_forwards_everything(chunks.drop_first());
    }
}

/// Law: a pump stops at the first end-of-stream read: with `chunks[k]`
/// empty and everything before it non-empty, exactly the first `k` chunks
/// are forwarded and nothing after the end of stream is.
pub proof fn lemma_pump_stops_at_eof(chunks: Seq<Seq<u8>>, k: int)
    requires
        0 <= k < chunks.len(),
        chunks[k].len() == 0,
        forall|i: int| 0 <= i < k ==> #[trigger] chunks[i].len() != 0,
    ensures
        spec_pumped(chunks) == chunks.take(k).flatten(),
    decreases k,
{
    if k == 0 {
        assert(chunks.take(0) =~= Seq::<Seq<u8>>::empty());
    } else {
        lemma_pump_stops_at_eof(chunks.drop_first(), k - 1);
        assert(chunks.drop_first().take(k - 1) =~= chunks.take(k).drop_first());
    }
}

} // verus!
