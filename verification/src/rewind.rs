//! The rewind history.
//!
//! History is chained from the newest state backwards: `cur` is held whole and every entry
//! is `lz4(state XOR previous_state)`, so a pop is one decompress and one XOR no matter how
//! deep it goes. Anchoring at the newest end is what makes eviction free: the oldest entry
//! is the only one nothing depends on, so dropping it costs history and nothing else.

use std::collections::VecDeque;

use vstd::prelude::*;
use vstd::slice::slice_to_vec;

verus! {

/// The whole rewind history's byte budget.
pub const REWIND_BYTES: usize = 20 * 1024 * 1024;

/// The LZ4 block that `lz4_flex::compress` makes of a run of bytes. The encoder is a pure
/// function of its input: no seed, no dictionary, no state carried between calls. Its hash
/// table is sized by the target's pointer width, so for inputs of 64 KiB or more a block is
/// the same on every run of one build, not across a 32-bit and a 64-bit build; nothing here
/// compares blocks across builds.
pub uninterp spec fn lz4_block(input: Seq<u8>) -> Seq<u8>;

/// The most `lz4_flex::compress` can hand back for an input of `len` bytes
/// (`get_maximum_output_size`).
pub open spec fn lz4_bound(len: nat) -> nat {
    20 + len * 110 / 100
}

/// `lz4_flex::compress`. Its output buffer is allocated at `get_maximum_output_size`, whose
/// `len * 110` has to fit the machine word, and truncated to what was written.
#[verifier::external_body]
fn lz4_compress(input: &[u8]) -> (out: Vec<u8>)
    requires
        input@.len() * 110 <= usize::MAX,
    ensures
        out@ == lz4_block(input@),
        1 <= out@.len() <= lz4_bound(input@.len()),
{
    lz4_flex::compress(input)
}

#[verifier::external_type_specification]
#[verifier::external_body]
pub struct ExDecompressError(lz4_flex::block::DecompressError);

/// What `lz4_flex::decompress_into` needs to run to its answer rather than overflow: a
/// length read from the block adds its bytes into a `u32`, at most 255 for each byte of the
/// block, and the output position plus a match length, or plus 64, is taken in the machine
/// word.
pub open spec fn decompress_fits(block_len: nat, out_len: nat) -> bool {
    &&& block_len * 255 <= u32::MAX
    &&& out_len + block_len * 255 + 64 <= usize::MAX
}

/// The longest run of bytes whose block `lz4_flex` reads back: the block format carries a
/// literal run's length in a `u32`.
pub open spec fn round_trip_len(len: nat) -> bool {
    len < 0xFFFF_FFF1
}

/// `lz4_flex::decompress_into`. It writes into a slice, so the buffer keeps its length; and
/// handed the block `compress` made of some bytes, short of 4 GiB, into a buffer exactly
/// their size, it succeeds and writes those bytes back.
#[verifier::external_body]
fn lz4_decompress_into(input: &[u8], output: &mut Vec<u8>) -> (r: Result<
    usize,
    lz4_flex::block::DecompressError,
>)
    requires
        decompress_fits(input@.len(), old(output)@.len()),
    ensures
        final(output)@.len() == old(output)@.len(),
        forall|x: Seq<u8>|
            #[trigger] lz4_block(x) == input@ && x.len() == old(output)@.len() && round_trip_len(
                x.len(),
            ) ==> r is Ok && final(output)@ == x,
{
    lz4_flex::decompress_into(input, output)
}

/// Byte for byte exclusive or, over the first sequence's length.
pub open spec fn xor_bytes(a: Seq<u8>, b: Seq<u8>) -> Seq<u8> {
    Seq::new(a.len(), |i: int| a[i] ^ b[i])
}

/// The entry that lets `newer` be walked back to `older`.
pub open spec fn delta(older: Seq<u8>, newer: Seq<u8>) -> Seq<u8> {
    lz4_block(xor_bytes(older, newer))
}

/// What a history costs: every link between neighbouring states, compressed. The newest
/// state is the cursor and is not counted.
pub open spec fn chain_bytes(h: Seq<Seq<u8>>) -> nat
    decreases h.len(),
{
    if h.len() <= 1 {
        0
    } else {
        delta(h[0], h[1]).len() + chain_bytes(h.drop_first())
    }
}

/// Oldest states dropped until the links left fit the budget.
pub open spec fn evict(h: Seq<Seq<u8>>, budget: nat) -> Seq<Seq<u8>>
    decreases h.len(),
{
    if h.len() <= 1 || chain_bytes(h) <= budget {
        h
    } else {
        evict(h.drop_first(), budget)
    }
}

/// The history a push leaves. A first state, or one whose size differs from the newest
/// (a core that re-shaped its state cannot be XORed against what it was), starts over.
pub open spec fn pushed(h: Seq<Seq<u8>>, state: Seq<u8>, budget: nat) -> Seq<Seq<u8>> {
    if h.len() == 0 || h.last().len() != state.len() {
        seq![state]
    } else {
        evict(h.push(state), budget)
    }
}

/// What a pop hands back, and the history it leaves.
pub open spec fn popped(h: Seq<Seq<u8>>) -> (Option<Seq<u8>>, Seq<Seq<u8>>) {
    if h.len() == 0 {
        (None, h)
    } else {
        (Some(h.last()), h.drop_last())
    }
}

/// History held, 0 to 100, against the byte budget.
pub open spec fn fill_percent(bytes: nat, budget: nat) -> nat {
    if budget == 0 {
        0
    } else if bytes * 100 / budget > 100 {
        100
    } else {
        bytes * 100 / budget
    }
}

/// What a push of `len` bytes needs of the machine word: the compressor's own bound, a
/// budget's worth of history plus one more entry, and an entry that the decompressor can
/// read back into a state of that size without overflowing.
pub open spec fn push_fits(budget: nat, len: nat) -> bool {
    &&& len * 110 <= usize::MAX
    &&& budget + lz4_bound(len) <= usize::MAX
    &&& decompress_fits(lz4_bound(len), len)
    &&& round_trip_len(len)
}

pub struct Rewind {
    budget: usize,
    /// The state the next `pop` returns, and what the entries behind it are relative to.
    cur: Option<Vec<u8>>,
    deltas: VecDeque<Vec<u8>>,
    bytes: usize,
    scratch: Vec<u8>,
    /// Every state `pop` can still hand back, oldest first.
    history: Ghost<Seq<Seq<u8>>>,
}

proof fn lemma_xor_cancel(a: u8, b: u8)
    ensures
        (a ^ b) ^ b == a,
{
    assert((a ^ b) ^ b == a) by (bit_vector);
}

/// A link added at the newest end costs exactly its own bytes.
proof fn lemma_chain_push(h: Seq<Seq<u8>>, s: Seq<u8>)
    requires
        h.len() >= 1,
    ensures
        chain_bytes(h.push(s)) == chain_bytes(h) + delta(h.last(), s).len(),
    decreases h.len(),
{
    let p = h.push(s);
    if h.len() == 1 {
        assert(p.drop_first() =~= seq![s]);
        assert(chain_bytes(p.drop_first()) == 0);
        assert(p[0] == h.last());
        assert(p[1] == s);
    } else {
        assert(p.drop_first() =~= h.drop_first().push(s));
        lemma_chain_push(h.drop_first(), s);
        assert(p[0] == h[0]);
        assert(p[1] == h[1]);
        assert(h.drop_first().last() == h.last());
    }
}

/// Every link is at least a byte, so a history costs at least one byte per link.
proof fn lemma_chain_counts_links(h: Seq<Seq<u8>>)
    requires
        forall|i: int| 0 <= i < h.len() - 1 ==> #[trigger] delta(h[i], h[i + 1]).len() >= 1,
    ensures
        chain_bytes(h) + 1 >= h.len(),
    decreases h.len(),
{
    if h.len() > 1 {
        let t = h.drop_first();
        assert forall|i: int| 0 <= i < t.len() - 1 implies #[trigger] delta(t[i], t[i + 1]).len()
            >= 1 by {
            assert(t[i] == h[i + 1]);
            assert(t[i + 1] == h[i + 2]);
        }
        lemma_chain_counts_links(t);
        assert(delta(h[0], h[1]).len() >= 1);
    }
}

/// Dropping the newest state gives back its link's bytes.
proof fn lemma_chain_drop_last(h: Seq<Seq<u8>>)
    requires
        h.len() >= 2,
    ensures
        chain_bytes(h) == chain_bytes(h.drop_last()) + delta(h[h.len() - 2], h.last()).len(),
{
    assert(h.drop_last().push(h.last()) =~= h);
    lemma_chain_push(h.drop_last(), h.last());
}

/// Eviction keeps a non-empty suffix that still ends with the newest state, and it fits.
proof fn lemma_evict(h: Seq<Seq<u8>>, budget: nat)
    requires
        h.len() >= 1,
    ensures
        evict(h, budget).len() >= 1,
        evict(h, budget).len() <= h.len(),
        evict(h, budget) =~= h.subrange(h.len() - evict(h, budget).len(), h.len() as int),
        chain_bytes(evict(h, budget)) <= budget,
    decreases h.len(),
{
    if h.len() <= 1 || chain_bytes(h) <= budget {
    } else {
        lemma_evict(h.drop_first(), budget);
        let e = evict(h.drop_first(), budget);
        assert(e =~= h.subrange(h.len() - e.len(), h.len() as int));
    }
}

/// The state a push hands in is the state the next pop hands back, whatever the budget
/// evicted to make room for it.
pub proof fn law_pop_returns_the_last_push(h: Seq<Seq<u8>>, state: Seq<u8>, budget: nat)
    ensures
        popped(pushed(h, state, budget)).0 == Some(state),
{
    if h.len() > 0 && h.last().len() == state.len() {
        lemma_evict(h.push(state), budget);
    }
}

/// A pop undoes a push that the budget had room for: the history is what it was before.
pub proof fn law_pop_undoes_a_push_that_fits(h: Seq<Seq<u8>>, state: Seq<u8>, budget: nat)
    requires
        h.len() > 0,
        h.last().len() == state.len(),
        chain_bytes(h.push(state)) <= budget,
    ensures
        popped(pushed(h, state, budget)).1 == h,
{
    assert(h.push(state).drop_last() =~= h);
}

/// Whatever is pushed, the history left behind fits the byte budget, and it is the newest
/// states in order: a run off the end of what was there with the new state after it.
pub proof fn law_push_keeps_the_newest_within_budget(
    h: Seq<Seq<u8>>,
    state: Seq<u8>,
    budget: nat,
)
    ensures
        chain_bytes(pushed(h, state, budget)) <= budget,
        pushed(h, state, budget).len() >= 1,
        h.len() > 0 && h.last().len() == state.len() ==> pushed(h, state, budget) =~= h.push(
            state,
        ).subrange(h.len() + 1 - pushed(h, state, budget).len(), h.len() + 1int),
{
    if h.len() > 0 && h.last().len() == state.len() {
        lemma_evict(h.push(state), budget);
    } else {
        assert(chain_bytes(seq![state]) == 0);
    }
}

/// A state of a different size from the newest cuts the history: only it is left.
pub proof fn law_a_reshaped_state_starts_over(h: Seq<Seq<u8>>, state: Seq<u8>, budget: nat)
    requires
        h.len() > 0,
        h.last().len() != state.len(),
    ensures
        pushed(h, state, budget) == seq![state],
{
}

/// The history a run of pushes leaves, from `h`.
pub open spec fn pushed_all(h: Seq<Seq<u8>>, states: Seq<Seq<u8>>, budget: nat) -> Seq<Seq<u8>>
    decreases states.len(),
{
    if states.len() == 0 {
        h
    } else {
        pushed(pushed_all(h, states.drop_last(), budget), states.last(), budget)
    }
}

/// States come back exactly, newest first, and eviction only ever drops the oldest: after
/// pushing states of one size into an empty history, what is left is the newest of them in
/// the order they were pushed, at least the last one, within the budget. Pops hand them back
/// from the end, then nothing.
pub proof fn law_pushes_come_back_newest_first(states: Seq<Seq<u8>>, budget: nat)
    requires
        states.len() >= 1,
        forall|i: int| 0 <= i < states.len() ==> #[trigger] states[i].len() == states[0].len(),
    ensures
        ({
            let r = pushed_all(Seq::empty(), states, budget);
            &&& 1 <= r.len() <= states.len()
            &&& r =~= states.subrange(states.len() - r.len(), states.len() as int)
            &&& chain_bytes(r) <= budget
            &&& popped(r).0 == Some(states.last())
        }),
    decreases states.len(),
{
    let n = states.len();
    if n == 1 {
        assert(states.drop_last() =~= Seq::<Seq<u8>>::empty());
        law_push_keeps_the_newest_within_budget(Seq::empty(), states.last(), budget);
    } else {
        let rest = states.drop_last();
        assert forall|i: int| 0 <= i < rest.len() implies #[trigger] rest[i].len() == rest[0].len() by {
            assert(rest[i] == states[i]);
        }
        law_pushes_come_back_newest_first(rest, budget);
        let h = pushed_all(Seq::empty(), rest, budget);
        assert(h.last() == rest.last());
        assert(h.last().len() == states.last().len()) by {
            assert(rest.last() == states[n - 2]);
        }
        law_push_keeps_the_newest_within_budget(h, states.last(), budget);
        let hp = h.push(states.last());
        lemma_evict(hp, budget);
        let r = pushed(h, states.last(), budget);
        assert(r == evict(hp, budget));
        assert(hp =~= states.subrange(n - 1 - h.len(), n as int));
        assert forall|i: int| 0 <= i < r.len() implies r[i] == states[n - r.len() + i] by {
            assert(r[i] == hp[hp.len() - r.len() + i]);
        }
        assert(r =~= states.subrange(n - r.len(), n as int));
    }
}

impl Rewind {
    /// Every state `pop` can still hand back, oldest first; the last is the next to come out.
    pub closed spec fn history(&self) -> Seq<Seq<u8>> {
        self.history@
    }

    /// The byte budget the compressed history is held to.
    pub closed spec fn budget(&self) -> nat {
        self.budget as nat
    }

    pub closed spec fn wf(&self) -> bool {
        let h = self.history@;
        &&& self.bytes <= self.budget
        &&& self.budget * 100 <= usize::MAX
        &&& self.bytes == chain_bytes(h)
        &&& match self.cur {
            None => h.len() == 0 && self.deltas@.len() == 0,
            Some(c) => h.len() == self.deltas@.len() + 1 && h.last() == c@,
        }
        &&& forall|i: int|
            0 <= i < self.deltas@.len() ==> #[trigger] self.deltas@[i]@ == delta(h[i], h[i + 1])
        &&& forall|i: int| 0 <= i < self.deltas@.len() ==> #[trigger] self.deltas@[i]@.len() >= 1
        &&& forall|i: int| 0 <= i < h.len() ==> #[trigger] h[i].len() == h.last().len()
        &&& h.len() > 0 ==> round_trip_len(h.last().len())
        &&& forall|i: int|
            0 <= i < self.deltas@.len() ==> decompress_fits(
                #[trigger] self.deltas@[i]@.len(),
                h.last().len(),
            )
    }

    pub fn new(budget_bytes: usize) -> (r: Self)
        requires
            budget_bytes * 100 <= usize::MAX,
        ensures
            r.wf(),
            r.history() == Seq::<Seq<u8>>::empty(),
            r.budget() == budget_bytes,
    {
        Rewind {
            budget: budget_bytes,
            cur: None,
            deltas: VecDeque::new(),
            bytes: 0,
            scratch: Vec::new(),
            history: Ghost(Seq::empty()),
        }
    }

    pub fn push(&mut self, state: &[u8])
        requires
            old(self).wf(),
            push_fits(old(self).budget(), state@.len()),
        ensures
            final(self).wf(),
            final(self).budget() == old(self).budget(),
            final(self).history() == pushed(old(self).history(), state@, old(self).budget()),
            old(self).history().len() > 0 && old(self).history().last().len() == state@.len()
                ==> 1 <= delta(old(self).history().last(), state@).len() <= lz4_bound(
                state@.len(),
            ),
    {
        let ghost h = self.history@;
        let prev = self.cur.take();
        self.cur = Some(slice_to_vec(state));
        let prev = match prev {
            None => {
                proof {
                    self.history@ = seq![state@];
                }
                return;
            },
            Some(prev) => prev,
        };
        // A core that re-shaped its state cannot be XORed against what it was before, so
        // everything behind that point is unreachable rather than merely different.
        if prev.len() != state.len() {
            self.deltas.clear();
            self.bytes = 0;
            proof {
                self.history@ = seq![state@];
            }
            return;
        }
        let mut scratch: Vec<u8> = Vec::new();
        std::mem::swap(&mut scratch, &mut self.scratch);
        scratch.clear();
        let n = state.len();
        let mut i: usize = 0;
        while i < n
            invariant
                n == state@.len(),
                n == prev@.len(),
                i <= n,
                scratch@ =~= xor_bytes(prev@, state@).subrange(0, i as int),
            decreases n - i,
        {
            scratch.push(prev[i] ^ state[i]);
            i += 1;
        }
        assert(scratch@ =~= xor_bytes(prev@, state@));
        let entry = lz4_compress(&scratch);
        std::mem::swap(&mut scratch, &mut self.scratch);
        proof {
            lemma_chain_push(h, state@);
        }
        self.bytes = self.bytes + entry.len();
        self.deltas.push_back(entry);
        proof {
            self.history@ = h.push(state@);
        }
        assert(self.deltas@.len() == self.history@.len() - 1);
        assert forall|j: int| 0 <= j < self.deltas@.len() implies #[trigger] self.deltas@[j]@
            == delta(self.history@[j], self.history@[j + 1]) by {
            if j < self.deltas@.len() - 1 {
                assert(self.history@[j] == h[j]);
                assert(self.history@[j + 1] == h[j + 1]);
            }
        }
        while self.bytes > self.budget
            invariant
                self.budget == old(self).budget,
                self.bytes == chain_bytes(self.history@),
                self.budget * 100 <= usize::MAX,
                evict(self.history@, self.budget as nat) == evict(
                    h.push(state@),
                    self.budget as nat,
                ),
                self.cur matches Some(c) && c@ == state@,
                self.history@.len() == self.deltas@.len() + 1,
                self.history@.last() == state@,
                forall|j: int|
                    0 <= j < self.deltas@.len() ==> #[trigger] self.deltas@[j]@ == delta(
                        self.history@[j],
                        self.history@[j + 1],
                    ),
                forall|j: int|
                    0 <= j < self.history@.len() ==> #[trigger] self.history@[j].len()
                        == state@.len(),
                forall|j: int| 0 <= j < self.deltas@.len() ==> #[trigger] self.deltas@[j]@.len() >= 1,
                round_trip_len(state@.len()),
                forall|j: int|
                    0 <= j < self.deltas@.len() ==> decompress_fits(
                        #[trigger] self.deltas@[j]@.len(),
                        state@.len(),
                    ),
            decreases self.deltas@.len(),
        {
            let ghost hc = self.history@;
            let ghost dc = self.deltas@;
            match self.deltas.pop_front() {
                Some(oldest) => {
                    assert(hc.len() > 1);
                    assert(oldest@ == delta(hc[0], hc[1]));
                    self.bytes = self.bytes - oldest.len();
                    proof {
                        self.history@ = hc.drop_first();
                    }
                    assert forall|j: int| 0 <= j < self.deltas@.len() implies #[trigger] self.deltas@[j]@
                        == delta(self.history@[j], self.history@[j + 1]) by {
                        assert(self.deltas@[j] == dc[j + 1]);
                    }
                    assert forall|j: int| 0 <= j < self.deltas@.len() implies #[trigger] self.deltas@[j]@.len() >= 1 by {
                        assert(self.deltas@[j] == dc[j + 1]);
                    }
                    assert forall|j: int| 0 <= j < self.deltas@.len() implies decompress_fits(
                        #[trigger] self.deltas@[j]@.len(),
                        state@.len(),
                    ) by {
                        assert(self.deltas@[j] == dc[j + 1]);
                    }
                },
                None => {},
            }
        }
    }

    pub fn pop(&mut self) -> (r: Option<Vec<u8>>)
        requires
            old(self).wf(),
        ensures
            final(self).wf(),
            final(self).budget() == old(self).budget(),
            (match r {
                Some(v) => Some(v@),
                None => None,
            }) == popped(old(self).history()).0,
            final(self).history() == popped(old(self).history()).1,
    {
        let ghost h = self.history@;
        let cur = match self.cur.take() {
            Some(cur) => cur,
            None => return None,
        };
        let ghost dc = self.deltas@;
        let entry = match self.deltas.pop_back() {
            Some(entry) => entry,
            None => {
                proof {
                    self.history@ = h.drop_last();
                }
                return Some(cur);
            },
        };
        let ghost n = h.len() as int;
        let ghost older = h[n - 2];
        proof {
            lemma_chain_drop_last(h);
            assert(entry@ == delta(h[n - 2], h[n - 1]));
        }
        self.bytes = self.bytes - entry.len();
        let mut prev = vec![0u8; cur.len()];
        let ghost x = xor_bytes(older, cur@);
        assert(older.len() == h.last().len());
        assert(x.len() == prev@.len());
        match lz4_decompress_into(&entry, &mut prev) {
            Ok(_) => {
                assert(lz4_block(x) == entry@);
                assert(prev@ == x);
                let len = cur.len();
                let mut i: usize = 0;
                while i < len
                    invariant
                        len == cur@.len(),
                        len == x.len(),
                        len == older.len(),
                        forall|j: int| 0 <= j < len ==> #[trigger] x[j] == older[j] ^ cur@[j],
                        prev@.len() == len,
                        i <= len,
                        forall|j: int| 0 <= j < i ==> #[trigger] prev@[j] == older[j],
                        forall|j: int| i <= j < len ==> #[trigger] prev@[j] == x[j],
                    decreases len - i,
                {
                    let p = prev[i] ^ cur[i];
                    proof {
                        lemma_xor_cancel(older[i as int], cur@[i as int]);
                    }
                    prev.set(i, p);
                    i += 1;
                }
                assert(prev@ =~= older);
                self.cur = Some(prev);
                proof {
                    self.history@ = h.drop_last();
                }
                assert forall|j: int| 0 <= j < self.deltas@.len() implies #[trigger] self.deltas@[j]@
                    == delta(self.history@[j], self.history@[j + 1]) by {
                    assert(self.deltas@[j] == dc[j]);
                }
                assert forall|j: int| 0 <= j < self.deltas@.len() implies #[trigger] self.deltas@[j]@.len() >= 1 by {
                    assert(self.deltas@[j] == dc[j]);
                }
                assert forall|j: int| 0 <= j < self.deltas@.len() implies decompress_fits(
                    #[trigger] self.deltas@[j]@.len(),
                    self.history@.last().len(),
                ) by {
                    assert(self.deltas@[j] == dc[j]);
                }
            },
            // A delta that will not decompress ends the history. Handing the core a frame
            // of noise would be worse than refusing to go back any further. Every stored
            // delta came out of `lz4_compress`, so this arm is never taken, as proved here.
            Err(_) => {
                assert(false);
                self.deltas.clear();
                self.bytes = 0;
                proof {
                    self.history@ = Seq::empty();
                }
            },
        }
        Some(cur)
    }

    /// Compressed history only. `cur` is the cursor, not something the ring is storing.
    pub fn bytes_used(&self) -> (r: usize)
        requires
            self.wf(),
        ensures
            r == chain_bytes(self.history()),
            r <= self.budget(),
    {
        self.bytes
    }

    /// States `pop` can still hand back.
    pub fn depth(&self) -> (r: usize)
        requires
            self.wf(),
        ensures
            r == self.history().len(),
    {
        proof {
            let h = self.history@;
            assert forall|i: int| 0 <= i < h.len() - 1 implies #[trigger] delta(h[i], h[i + 1]).len()
                >= 1 by {
                assert(self.deltas@[i]@.len() >= 1);
            }
            lemma_chain_counts_links(h);
        }
        self.deltas.len() + if self.cur.is_some() { 1 } else { 0 }
    }

    /// History held, 0 to 100. Read against the byte budget rather than against `depth`,
    /// which nothing bounds: how many states fit is whatever the deltas compressed to.
    pub fn fill(&self) -> (r: u8)
        requires
            self.wf(),
        ensures
            r == fill_percent(chain_bytes(self.history()), self.budget()),
    {
        if self.budget == 0 {
            return 0;
        }
        let p = self.bytes * 100 / self.budget;
        if p > 100 {
            100
        } else {
            p as u8
        }
    }
}

} // verus!
