//! Framing of a streamed watch response body: bytes arrive in chunks of any
//! size, and each newline-terminated run of bytes is one serialized event.

use vstd::prelude::*;

verus! {

/// The byte that ends a frame.
pub const FRAME_END: u8 = 10;

/// How a byte sequence splits when read from the start: the complete frames
/// (newline-terminated, without the newline, empty ones dropped) and the bytes
/// after the last newline, still waiting for theirs.
pub open spec fn split_frames(s: Seq<u8>) -> (Seq<Seq<u8>>, Seq<u8>)
    decreases s.len(),
{
    if s.len() == 0 {
        (Seq::empty(), Seq::empty())
    } else {
        let (frames, pending) = split_frames(s.drop_last());
        if s.last() == FRAME_END {
            if pending.len() > 0 {
                (frames.push(pending), Seq::empty())
            } else {
                (frames, Seq::empty())
            }
        } else {
            (frames, pending.push(s.last()))
        }
    }
}

/// No frame end in the sequence.
pub open spec fn no_frame_end(s: Seq<u8>) -> bool {
    forall|i: int| 0 <= i < s.len() ==> s[i] != FRAME_END
}

/// The byte views of a list of frames.
pub open spec fn frames_view(frames: Seq<Vec<u8>>) -> Seq<Seq<u8>> {
    frames.map_values(|f: Vec<u8>| f@)
}

/// Bytes without a frame end split into no frame, all of them pending.
pub proof fn lemma_unterminated(s: Seq<u8>)
    requires
        no_frame_end(s),
    ensures
        split_frames(s) == (Seq::<Seq<u8>>::empty(), s),
    decreases s.len(),
{
    if s.len() > 0 {
        lemma_unterminated(s.drop_last());
        assert(s.drop_last().push(s.last()) =~= s);
    }
}

/// The pending part of a split holds no frame end.
pub proof fn lemma_pending_unterminated(s: Seq<u8>)
    ensures
        no_frame_end(split_frames(s).1),
    decreases s.len(),
{
    if s.len() > 0 {
        lemma_pending_unterminated(s.drop_last());
    }
}

/// Splitting `a + b` is splitting `a`, then splitting what `a` left pending
/// followed by `b`.
proof fn lemma_split_concat(a: Seq<u8>, b: Seq<u8>)
    ensures
        split_frames(a + b) == (
            split_frames(a).0 + split_frames(split_frames(a).1 + b).0,
            split_frames(split_frames(a).1 + b).1,
        ),
    decreases b.len(),
{
    let p = split_frames(a).1;
    if b.len() == 0 {
        assert(a + b =~= a);
        assert(p + b =~= p);
        lemma_pending_unterminated(a);
        lemma_unterminated(p);
        assert(split_frames(a).0 + Seq::<Seq<u8>>::empty() =~= split_frames(a).0);
    } else {
        let b0 = b.drop_last();
        lemma_split_concat(a, b0);
        assert((a + b).drop_last() =~= a + b0);
        assert((p + b).drop_last() =~= p + b0);
        assert((a + b).last() == b.last());
        assert((p + b).last() == b.last());
        let f = split_frames(a).0;
        let g = split_frames(p + b0).0;
        let q = split_frames(p + b0).1;
        assert((f + g).push(q) =~= f + g.push(q));
    }
}

/// Delivering a body in two chunks yields the same frames, in the same order,
/// and leaves the same bytes pending, as delivering both chunks at once: a
/// frame split across chunks comes out whole once its end arrives.
pub proof fn lemma_chunking_invariant(pending: Seq<u8>, first: Seq<u8>, second: Seq<u8>)
    requires
        no_frame_end(pending),
    ensures
        split_frames(pending + first).0 + split_frames(split_frames(pending + first).1 + second).0
            == split_frames(pending + first + second).0,
        split_frames(split_frames(pending + first).1 + second).1 == split_frames(pending + first + second).1,
{
    lemma_split_concat(pending + first, second);
}

/// A decoder of the frames of one response body.
#[derive(Debug)]
pub struct Decoder {
    pending: Vec<u8>,
}

impl Decoder {
    /// The bytes received and not yet part of a complete frame.
    pub closed spec fn pending(&self) -> Seq<u8> {
        self.pending@
    }

    /// Well-formed: what is pending holds no frame end.
    pub open spec fn wf(&self) -> bool {
        no_frame_end(self.pending())
    }

    /// A decoder that has received nothing.
    pub fn new() -> (r: Self)
        ensures
            r.wf(),
            r.pending() == Seq::<u8>::empty(),
    {
        Decoder { pending: Vec::new() }
    }

    /// Takes the next chunk of the body and returns the frames that it
    /// completes, in order; what follows the last frame end is kept for the
    /// next chunk.
    pub fn process_next_chunk(&mut self, chunk: &[u8]) -> (frames: Vec<Vec<u8>>)
        requires
            old(self).wf(),
        ensures
            final(self).wf(),
            frames_view(frames@) == split_frames(old(self).pending() + chunk@).0,
            final(self).pending() == split_frames(old(self).pending() + chunk@).1,
    {
        let ghost start = self.pending@;
        proof {
            lemma_unterminated(start);
        }
        let mut frames: Vec<Vec<u8>> = Vec::new();
        let mut current: Vec<u8> = Vec::new();
        std::mem::swap(&mut current, &mut self.pending);
        let mut i: usize = 0;
        while i < chunk.len()
            invariant
                i <= chunk@.len(),
                (frames_view(frames@), current@) == split_frames(start + chunk@.take(i as int)),
            decreases chunk@.len() - i,
        {
            let b = chunk[i];
            proof {
                let s = start + chunk@.take(i as int);
                let t = start + chunk@.take(i as int + 1);
                assert(t.drop_last() =~= s);
                assert(t.last() == b);
            }
            if b == FRAME_END {
                if current.len() > 0 {
                    let mut done: Vec<u8> = Vec::new();
                    std::mem::swap(&mut done, &mut current);
                    proof {
                        assert(frames_view(frames@.push(done)) =~= frames_view(frames@).push(done@));
                    }
                    frames.push(done);
                } else {
                    current = Vec::new();
                }
                assert(current@ =~= Seq::<u8>::empty());
            } else {
                current.push(b);
            }
            i = i + 1;
        }
        assert(chunk@.take(chunk@.len() as int) =~= chunk@);
        proof {
            lemma_pending_unterminated(start + chunk@);
        }
        self.pending = current;
        frames
    }

    /// Ends the body: `Ok` where nothing is pending, else the bytes of the
    /// unfinished frame, which cannot be decoded.
    pub fn finish(self) -> (r: Result<(), Vec<u8>>)
        ensures
            r is Ok <==> self.pending().len() == 0,
            r matches Err(rest) ==> rest@ == self.pending(),
    {
        if self.pending.len() == 0 {
            Ok(())
        } else {
            Err(self.pending)
        }
    }
}

} // verus!
