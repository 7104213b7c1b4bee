use vstd::prelude::*;

verus! {

/// The lengths of the chunks that a source of `n` bytes is cut into, in
/// order: each takes `c` bytes, or what is left if that is fewer.
pub open spec fn chunk_lens(n: nat, c: nat) -> Seq<nat>
    decreases n,
{
    if n == 0 || c == 0 {
        Seq::empty()
    } else {
        let m = vstd::math::min(c as int, n as int) as nat;
        seq![m] + chunk_lens((n - m) as nat, c)
    }
}

/// The pieces that the bytes `f` are cut into, `c` bytes at a time.
pub open spec fn chunk_pieces(f: Seq<u8>, c: nat) -> Seq<Seq<u8>>
    decreases f.len(),
{
    if f.len() == 0 || c == 0 {
        Seq::empty()
    } else {
        let m = vstd::math::min(c as int, f.len() as int);
        seq![f.take(m)] + chunk_pieces(f.skip(m), c)
    }
}

/// Cutting bytes into chunks of a positive size `c` loses and adds nothing:
/// the pieces, joined in order, give back the bytes. There are
/// `ceil(len / c)` of them (none for no bytes), each piece is as long as
/// the chunk length planned for it, no chunk is empty or longer than `c`,
/// and every chunk but the last is exactly `c` bytes long.
pub proof fn lemma_chunks_reassemble(f: Seq<u8>, c: nat)
    requires
        c > 0,
    ensures
        chunk_pieces(f, c).flatten() == f,
        chunk_pieces(f, c).len() == chunk_lens(f.len(), c).len(),
        chunk_lens(f.len(), c).len() == (f.len() + c - 1) / (c as int),
        forall|i: int|
            0 <= i < chunk_pieces(f, c).len() ==> #[trigger] chunk_pieces(f, c)[i].len()
                == chunk_lens(f.len(), c)[i],
        forall|i: int|
            0 <= i < chunk_lens(f.len(), c).len() ==> 0 < #[trigger] chunk_lens(f.len(), c)[i]
                <= c,
        forall|i: int|
            0 <= i < chunk_lens(f.len(), c).len() - 1 ==> #[trigger] chunk_lens(f.len(), c)[i]
                == c,
    decreases f.len(),
{
    let n = f.len();
    if n == 0 {
        assert(chunk_pieces(f, c).flatten() =~= f);
        assert((c - 1) / (c as int) == 0) by (nonlinear_arith)
            requires
                c > 0,
        ;
    } else {
        let m = vstd::math::min(c as int, n as int);
        let rest = f.skip(m);
        lemma_chunks_reassemble(rest, c);
        let pieces = chunk_pieces(f, c);
        let lens = chunk_lens(n, c);
        assert(pieces.drop_first() =~= chunk_pieces(rest, c));
        assert(f.take(m) + rest =~= f);
        assert(rest.len() == n - m);
        assert(lens.drop_first() =~= chunk_lens(rest.len(), c));
        if n <= c {
            assert((n + c - 1) / (c as int) == 1) by (nonlinear_arith)
                requires
                    0 < n <= c,
            ;
            assert(rest.len() == 0);
            assert((0 + c - 1) / (c as int) == 0) by (nonlinear_arith)
                requires
                    c > 0,
            ;
        } else {
            let r = n - c;
            assert((n + c - 1) / (c as int) == (r + c - 1) / (c as int) + 1) by (nonlinear_arith)
                requires
                    n == r + c,
                    c > 0,
            ;
        }
        assert forall|i: int| 0 <= i < pieces.len() implies #[trigger] pieces[i].len() == lens[i] by {
            if i > 0 {
                assert(pieces[i] == chunk_pieces(rest, c)[i - 1]);
                assert(lens[i] == chunk_lens(rest.len(), c)[i - 1]);
            }
        }
        assert forall|i: int| 0 <= i < lens.len() implies 0 < #[trigger] lens[i] <= c by {
            if i > 0 {
                assert(lens[i] == chunk_lens(rest.len(), c)[i - 1]);
            }
        }
        assert forall|i: int| 0 <= i < lens.len() - 1 implies #[trigger] lens[i] == c by {
            if i > 0 {
                assert(lens[i] == chunk_lens(rest.len(), c)[i - 1]);
            } else {
                assert(rest.len() > 0);
            }
        }
    }
}

/// Walks through the chunks of a source: which one comes next and how many
/// bytes it takes.
#[derive(Debug)]
pub struct Chunker {
    total: usize,
    chunk_size: usize,
    remaining: usize,
    index: usize,
}

impl Chunker {
    /// The lengths of the chunks not yet handed out.
    pub closed spec fn pending(&self) -> Seq<nat> {
        chunk_lens(self.remaining as nat, self.chunk_size as nat)
    }

    /// The index of the next chunk.
    pub closed spec fn next_index(&self) -> nat {
        self.index as nat
    }

    /// The chunk size is positive and the index counts at most one chunk
    /// per byte already handed out.
    pub closed spec fn wf(&self) -> bool {
        &&& self.chunk_size > 0
        &&& self.remaining <= self.total
        &&& self.index <= self.total - self.remaining
    }

    /// Starts on a source of `total` bytes, cut into chunks of `chunk_size`
    /// bytes. A chunk size of zero is refused.
    pub fn new(total: usize, chunk_size: usize) -> (r: Result<Chunker, super::RangeError>)
        ensures
            chunk_size == 0 <==> r is Err,
            r is Err ==> r == Err::<Chunker, _>(super::RangeError::ZeroChunkSize),
            r is Ok ==> {
                &&& r->Ok_0.wf()
                &&& r->Ok_0.pending() == chunk_lens(total as nat, chunk_size as nat)
                &&& r->Ok_0.next_index() == 0
            },
    {
        if chunk_size == 0 {
            Err(super::RangeError::ZeroChunkSize)
        } else {
            Ok(Chunker { total, chunk_size, remaining: total, index: 0 })
        }
    }

    /// Hands out the next chunk as its index and its length, or `None` once
    /// the whole source has been covered.
    pub fn next_chunk(&mut self) -> (r: Option<(usize, usize)>)
        requires
            old(self).wf(),
        ensures
            final(self).wf(),
            old(self).pending().len() == 0 ==> r is None && *final(self) == *old(self),
            old(self).pending().len() > 0 ==> {
                &&& r == Some((old(self).next_index() as usize, old(self).pending()[0] as usize))
                &&& final(self).pending() == old(self).pending().drop_first()
                &&& final(self).next_index() == old(self).next_index() + 1
            },
    {
        if self.remaining == 0 {
            return None;
        }
        let count = if self.chunk_size < self.remaining {
            self.chunk_size
        } else {
            self.remaining
        };
        let i = self.index;
        self.remaining = self.remaining - count;
        self.index = self.index + 1;
        proof {
            assert(chunk_lens(old(self).remaining as nat, self.chunk_size as nat).drop_first()
                =~= chunk_lens(self.remaining as nat, self.chunk_size as nat));
        }
        Some((i, count))
    }
}

} // verus!
