//! Re-buffering of an inbound byte stream into multipart-upload parts.
//!
//! Chunks arrive in arbitrary sizes; parts leave once they exceed a
//! configured threshold, except the final part, which may be smaller. The
//! well-formedness invariant ties every byte accepted to exactly one place
//! — an emitted part or the pending buffer — in stream order, so the parts
//! concatenate back to the original stream.

use vstd::prelude::*;

verus! {

/// Accumulates stream chunks into fixed-minimum-size parts. Growth within
/// one part is unbounded: a single oversized chunk yields an oversized
/// part, which is accepted.
pub struct PartBuffer {
    buf: Vec<u8>,
    threshold: usize,
    fed: Ghost<Seq<u8>>,
    emitted: Ghost<Seq<u8>>,
}

impl PartBuffer {
    /// All bytes accepted so far, in arrival order.
    pub closed spec fn fed(self) -> Seq<u8> {
        self.fed@
    }

    /// The concatenation of the parts handed out so far.
    pub closed spec fn emitted(self) -> Seq<u8> {
        self.emitted@
    }

    /// Bytes accepted but not yet inside an emitted part.
    pub closed spec fn pending(self) -> Seq<u8> {
        self.buf@
    }

    /// The size a part must exceed to be emitted before the stream ends.
    pub closed spec fn threshold(self) -> nat {
        self.threshold as nat
    }

    /// Emitted parts followed by the pending bytes reproduce the stream.
    pub open spec fn wf(self) -> bool {
        self.emitted() + self.pending() == self.fed()
    }

    pub fn new(threshold: usize) -> (r: PartBuffer)
        ensures
            r.wf(),
            r.threshold() == threshold,
            r.fed() == Seq::<u8>::empty(),
            r.emitted() == Seq::<u8>::empty(),
            r.pending() == Seq::<u8>::empty(),
    {
        let r = PartBuffer {
            buf: Vec::new(),
            threshold,
            fed: Ghost(Seq::empty()),
            emitted: Ghost(Seq::empty()),
        };
        proof {
            assert(r.emitted() + r.pending() =~= r.fed());
        }
        r
    }

    /// Accepts one chunk of the stream. Returns the accumulated bytes as a
    /// part exactly when their size exceeds the threshold; otherwise they
    /// stay pending.
    pub fn push(&mut self, chunk: Vec<u8>) -> (r: Option<Vec<u8>>)
        requires
            old(self).wf(),
        ensures
            final(self).wf(),
            final(self).threshold() == old(self).threshold(),
            final(self).fed() == old(self).fed() + chunk@,
            match r {
                Some(p) => {
                    &&& p@ == old(self).pending() + chunk@
                    &&& p@.len() > old(self).threshold()
                    &&& final(self).pending() == Seq::<u8>::empty()
                    &&& final(self).emitted() == old(self).emitted() + p@
                },
                None => {
                    &&& final(self).emitted() == old(self).emitted()
                    &&& final(self).pending() == old(self).pending() + chunk@
                    &&& final(self).pending().len() <= old(self).threshold()
                },
            },
    {
        let ghost ch = chunk@;
        let mut c = chunk;
        self.buf.append(&mut c);
        self.fed = Ghost(self.fed@ + ch);
        if self.buf.len() > self.threshold {
            let mut out: Vec<u8> = Vec::new();
            core::mem::swap(&mut out, &mut self.buf);
            self.emitted = Ghost(self.emitted@ + out@);
            proof {
                assert(self.emitted() + self.pending() =~= self.fed());
            }
            Some(out)
        } else {
            proof {
                assert(self.emitted() + self.pending() =~= self.fed());
            }
            None
        }
    }

    /// Ends the stream: hands out the pending bytes as the final, possibly
    /// short, part, or nothing when the stream left nothing pending — in
    /// particular, an empty stream yields no part at all. Afterwards the
    /// emitted parts carry the whole stream.
    pub fn finish(&mut self) -> (r: Option<Vec<u8>>)
        requires
            old(self).wf(),
        ensures
            final(self).wf(),
            final(self).threshold() == old(self).threshold(),
            final(self).fed() == old(self).fed(),
            final(self).pending() == Seq::<u8>::empty(),
            final(self).emitted() == final(self).fed(),
            match r {
                Some(p) => {
                    &&& p@ == old(self).pending()
                    &&& p@.len() > 0
                    &&& final(self).emitted() == old(self).emitted() + p@
                },
                None => {
                    &&& old(self).pending() == Seq::<u8>::empty()
                    &&& final(self).emitted() == old(self).emitted()
                },
            },
    {
        if self.buf.len() == 0 {
            proof {
                assert(self.pending() =~= Seq::<u8>::empty());
                assert(self.emitted() + self.pending() =~= self.emitted());
            }
            None
        } else {
            let mut out: Vec<u8> = Vec::new();
            core::mem::swap(&mut out, &mut self.buf);
            self.emitted = Ghost(self.emitted@ + out@);
            proof {
                assert(self.pending() =~= Seq::<u8>::empty());
                assert(self.emitted() + self.pending() =~= self.emitted());
                assert(self.emitted() =~= self.fed());
            }
            Some(out)
        }
    }
}

/// The reassembly law: once a buffer is drained — the stream over, the
/// final part taken — the emitted parts, concatenated in order, are
/// exactly the bytes the stream fed in.
pub proof fn lemma_parts_reassemble_stream(b: PartBuffer)
    requires
        b.wf(),
        b.pending().len() == 0,
    ensures
        b.emitted() == b.fed(),
{
    assert(b.emitted() + b.pending() =~= b.emitted());
}

/// An empty stream yields zero parts: nothing was emitted and nothing is
/// pending.
pub proof fn lemma_empty_stream_no_parts(b: PartBuffer)
    requires
        b.wf(),
        b.fed().len() == 0,
    ensures
        b.emitted().len() == 0,
        b.pending().len() == 0,
{
}

} // verus!
