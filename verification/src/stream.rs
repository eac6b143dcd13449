use vstd::prelude::*;
use vstd::seq_lib::lemma_flatten_concat;

verus! {

/// The bytes a chunked stream carries: its chunks, concatenated in order.
/// A stream whose chunks flatten to `b` is a chunking of `b`; where the
/// boundaries fall has no effect on this value.
pub open spec fn stream_bytes(chunks: Seq<Seq<u8>>) -> Seq<u8> {
    chunks.flatten()
}

/// Law: consuming a chunked stream in two runs and concatenating what each
/// run carried yields exactly what the whole stream carries. In particular,
/// re-chunking a byte sequence at different boundaries never changes the
/// reassembled bytes.
pub proof fn lemma_stream_split(front: Seq<Seq<u8>>, back: Seq<Seq<u8>>)
    ensures
        stream_bytes(front + back) == stream_bytes(front) + stream_bytes(back),
{
    lemma_flatten_concat(front, back);
}

/// Reassembles a fully drained chunked stream into one buffer, in order and
/// without loss: the result is exactly the bytes the stream carries.
pub fn reassemble(chunks: &Vec<Vec<u8>>) -> (r: Vec<u8>)
    ensures
        r@ == stream_bytes(chunks.deep_view()),
{
    let mut out: Vec<u8> = Vec::new();
    let n = chunks.len();
    let mut i: usize = 0;
    while i < n
        invariant
            n == chunks@.len(),
            i <= n,
            out@ == stream_bytes(chunks.deep_view().take(i as int)),
        decreases n - i,
    {
        out.extend_from_slice(chunks[i].as_slice());
        proof {
            let cs = chunks.deep_view();
            assert(cs.take(i + 1) =~= cs.take(i as int).push(cs[i as int]));
            cs.take(i as int).lemma_flatten_push(cs[i as int]);
        }
        i = i + 1;
    }
    proof {
        assert(chunks.deep_view().take(n as int) =~= chunks.deep_view());
    }
    out
}

/// The proxy response body: a synthetic prefix chunk followed, chunk by
/// chunk, by an upstream body that is forwarded unchanged. The consumer
/// first takes the prefix, then hands each upstream chunk through
/// `forward_chunk`; the ghost fields record what has gone out and what has
/// come in, so that the composition law below can speak of both.
pub struct ProxyBodyStream {
    /// The prefix chunk, present until it is emitted.
    pub prefix: Option<Vec<u8>>,
    /// The bytes of the synthetic prefix chunk, fixed at construction.
    pub prefix_bytes: Ghost<Seq<u8>>,
    /// The upstream chunks forwarded so far, in order.
    pub forwarded: Ghost<Seq<Seq<u8>>>,
    /// Every chunk emitted so far, in order.
    pub emitted: Ghost<Seq<Seq<u8>>>,
}

impl ProxyBodyStream {
    /// The prefix has not been emitted yet; nothing may be forwarded
    /// before it goes out.
    pub open spec fn prefix_pending(self) -> bool {
        self.prefix is Some
    }

    pub open spec fn wf(self) -> bool {
        match self.prefix {
            Some(p) => {
                &&& p@ == self.prefix_bytes@
                &&& self.emitted@ == Seq::<Seq<u8>>::empty()
                &&& self.forwarded@ == Seq::<Seq<u8>>::empty()
            },
            None => self.emitted@ == seq![self.prefix_bytes@] + self.forwarded@,
        }
    }

    pub fn new(prefix: Vec<u8>) -> (s: Self)
        ensures
            s.wf(),
            s.prefix_pending(),
            s.prefix_bytes@ == prefix@,
    {
        ProxyBodyStream {
            prefix: Some(prefix),
            prefix_bytes: Ghost(prefix@),
            forwarded: Ghost(Seq::empty()),
            emitted: Ghost(Seq::empty()),
        }
    }

    /// Emits the synthetic prefix, exactly once, before anything else.
    pub fn take_prefix(&mut self) -> (c: Vec<u8>)
        requires
            old(self).wf(),
            old(self).prefix_pending(),
        ensures
            final(self).wf(),
            !final(self).prefix_pending(),
            final(self).prefix_bytes@ == old(self).prefix_bytes@,
            c@ == final(self).prefix_bytes@,
            final(self).forwarded@ == Seq::<Seq<u8>>::empty(),
            final(self).emitted@ == seq![c@],
    {
        let c = self.prefix.take().unwrap();
        proof {
            self.emitted@ = seq![c@];
        }
        c
    }

    /// Forwards one upstream chunk, unchanged, after the prefix is out.
    pub fn forward_chunk(&mut self, c: Vec<u8>) -> (r: Vec<u8>)
        requires
            old(self).wf(),
            !old(self).prefix_pending(),
        ensures
            final(self).wf(),
            !final(self).prefix_pending(),
            final(self).prefix_bytes@ == old(self).prefix_bytes@,
            r == c,
            final(self).forwarded@ == old(self).forwarded@.push(c@),
            final(self).emitted@ == old(self).emitted@.push(c@),
    {
        proof {
            self.forwarded@ = self.forwarded@.push(c@);
            self.emitted@ = self.emitted@.push(c@);
            assert(self.emitted@ =~= seq![self.prefix_bytes@] + self.forwarded@);
        }
        c
    }

    /// Law: once the prefix is out, the bytes emitted so far are exactly the
    /// synthetic prefix followed by the upstream bytes forwarded so far —
    /// the emitted stream begins with the prefix and ends with the upstream
    /// bytes, with no transformation applied to either.
    pub proof fn lemma_composition(self)
        requires
            self.wf(),
            !self.prefix_pending(),
        ensures
            stream_bytes(self.emitted@) == self.prefix_bytes@ + stream_bytes(self.forwarded@),
    {
        lemma_flatten_concat(seq![self.prefix_bytes@], self.forwarded@);
        seq![self.prefix_bytes@].lemma_flatten_one_element();
    }
}

} // verus!
