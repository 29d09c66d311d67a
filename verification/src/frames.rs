//! Video handoff from the emulator thread to the renderer. Buffers are moved, never copied,
//! and the lock around this is only ever held for a pointer swap, so neither side waits on the
//! other. Three buffers are enough: one being written, one published, one being read.
//!
//! This is the handoff's bookkeeping; the binary shares one behind a mutex.

use vstd::multiset::Multiset;
use vstd::prelude::*;

verus! {

/// A buffer, by its bytes.
pub open spec fn bytes_of(buf: Option<Vec<u8>>) -> Option<Seq<u8>> {
    match buf {
        Some(b) => Some(b@),
        None => None,
    }
}

/// The handoff after a publish: the new frame waits, and any frame it displaced goes back to
/// the spares.
pub open spec fn after_publish(waiting: Option<Seq<u8>>, spares: Seq<Seq<u8>>, buf: Seq<u8>) -> (
    Option<Seq<u8>>,
    Seq<Seq<u8>>,
) {
    (
        Some(buf),
        match waiting {
            Some(dropped) => spares.push(dropped),
            None => spares,
        },
    )
}

/// Every buffer the handoff holds, waiting or spare.
pub open spec fn pool(waiting: Option<Seq<u8>>, spares: Seq<Seq<u8>>) -> Multiset<Seq<u8>> {
    match waiting {
        Some(w) => spares.to_multiset().insert(w),
        None => spares.to_multiset(),
    }
}

pub struct Frames {
    ready: Option<Vec<u8>>,
    spare: Vec<Vec<u8>>,
    allocated: usize,
    size: usize,
    /// Every successful `latest`. `latest` consumes, so anything that calls it outside the
    /// render path silently steals a frame the renderer would have drawn.
    taken: u64,
}

impl Frames {
    /// The frame waiting for the renderer, if any.
    pub closed spec fn waiting(&self) -> Option<Seq<u8>> {
        bytes_of(self.ready)
    }

    /// Buffers handed back and free for the next write, oldest first.
    pub closed spec fn spares(&self) -> Seq<Seq<u8>> {
        self.spare@.map_values(|b: Vec<u8>| b@)
    }

    pub closed spec fn spec_allocated(&self) -> nat {
        self.allocated as nat
    }

    pub closed spec fn spec_taken(&self) -> u64 {
        self.taken
    }

    pub closed spec fn spec_size(&self) -> usize {
        self.size
    }

    /// The handoff as counts, with whether the writer and the reader each hold a buffer.
    pub open spec fn counts(&self, writing: bool, reading: bool) -> Handoff {
        Handoff {
            waiting: self.waiting() is Some,
            spares: self.spares().len(),
            allocated: self.spec_allocated(),
            writing,
            reading,
        }
    }

    pub fn new(size: usize) -> (r: Frames)
        ensures
            r.waiting() is None,
            r.spares() == Seq::<Seq<u8>>::empty(),
            r.spec_allocated() == 0,
            r.spec_taken() == 0,
            r.spec_size() == size,
            r.counts(false, false) == fresh(),
    {
        let r = Frames { ready: None, spare: Vec::new(), allocated: 0, size, taken: 0 };
        assert(r.spares() =~= Seq::<Seq<u8>>::empty());
        r
    }

    /// A buffer to draw the next frame into: the newest spare, or a fresh one when none is
    /// free, which is the only time a buffer is ever allocated.
    pub fn take_write(&mut self) -> (buf: Vec<u8>)
        requires
            old(self).spec_allocated() < usize::MAX,
        ensures
            old(self).spares().len() > 0 ==> {
                &&& buf@ == old(self).spares().last()
                &&& final(self).spares() == old(self).spares().drop_last()
                &&& final(self).spec_allocated() == old(self).spec_allocated()
            },
            old(self).spares().len() == 0 ==> {
                &&& buf@ == Seq::<u8>::empty()
                &&& final(self).spares() == old(self).spares()
                &&& final(self).spec_allocated() == old(self).spec_allocated() + 1
            },
            final(self).waiting() == old(self).waiting(),
            final(self).spec_taken() == old(self).spec_taken(),
            final(self).spec_size() == old(self).spec_size(),
            forall|rd: bool| #[trigger] final(self).counts(true, rd) == step(
                old(self).counts(false, rd),
                Step::TakeWrite,
            ),
    {
        let ghost before = self.spare@;
        match self.spare.pop() {
            Some(buf) => {
                assert(self.spare@ == before.drop_last());
                assert(self.spares() =~= old(self).spares().drop_last());
                buf
            },
            None => {
                self.allocated = self.allocated + 1;
                Vec::with_capacity(self.size)
            },
        }
    }

    /// A frame the renderer never picked up is overwritten rather than queued. Presenting a
    /// stale frame late is worse than never presenting it; its buffer goes back to the spares.
    pub fn publish(&mut self, buf: Vec<u8>)
        ensures
            (final(self).waiting(), final(self).spares()) == after_publish(
                old(self).waiting(),
                old(self).spares(),
                buf@,
            ),
            final(self).spec_allocated() == old(self).spec_allocated(),
            final(self).spec_taken() == old(self).spec_taken(),
            final(self).spec_size() == old(self).spec_size(),
            forall|rd: bool| #[trigger] final(self).counts(false, rd) == step(
                old(self).counts(true, rd),
                Step::Publish,
            ),
    {
        let previous = self.ready.take();
        self.ready = Some(buf);
        if let Some(dropped) = previous {
            self.spare.push(dropped);
            assert(self.spares() =~= old(self).spares().push(dropped@));
        }
    }

    /// The waiting frame, consumed. Counted, so a frame stolen outside the render path shows.
    pub fn latest(&mut self) -> (r: Option<Vec<u8>>)
        ensures
            bytes_of(r) == old(self).waiting(),
            final(self).waiting() is None,
            final(self).spec_taken() == if old(self).waiting() is Some {
                ((old(self).spec_taken() + 1) % 0x1_0000_0000_0000_0000) as u64
            } else {
                old(self).spec_taken()
            },
            final(self).spares() == old(self).spares(),
            final(self).spec_allocated() == old(self).spec_allocated(),
            final(self).spec_size() == old(self).spec_size(),
            forall|wr: bool| #[trigger] final(self).counts(wr, old(self).waiting() is Some) == step(
                old(self).counts(wr, false),
                Step::Latest,
            ),
    {
        let buf = self.ready.take();
        if buf.is_some() {
            self.taken = self.taken.wrapping_add(1);
        }
        buf
    }

    /// Non consuming. The only safe way to ask whether a frame is waiting.
    pub fn is_ready(&self) -> (r: bool)
        ensures
            r == self.waiting() is Some,
    {
        self.ready.is_some()
    }

    pub fn taken(&self) -> (r: u64)
        ensures
            r == self.spec_taken(),
    {
        self.taken
    }

    pub fn allocated(&self) -> (r: usize)
        ensures
            r == self.spec_allocated(),
    {
        self.allocated
    }

    /// A frame the renderer has finished with, back for the writer.
    pub fn recycle(&mut self, buf: Vec<u8>)
        ensures
            final(self).spares() == old(self).spares().push(buf@),
            final(self).waiting() == old(self).waiting(),
            final(self).spec_allocated() == old(self).spec_allocated(),
            final(self).spec_taken() == old(self).spec_taken(),
            final(self).spec_size() == old(self).spec_size(),
            forall|wr: bool| #[trigger] final(self).counts(wr, false) == step(
                old(self).counts(wr, true),
                Step::Recycle,
            ),
    {
        self.spare.push(buf);
        assert(self.spares() =~= old(self).spares().push(buf@));
    }
}

/// What is published is what the renderer takes next, whatever was waiting before it.
pub proof fn law_the_renderer_takes_what_was_published(
    waiting: Option<Seq<u8>>,
    spares: Seq<Seq<u8>>,
    buf: Seq<u8>,
)
    ensures
        after_publish(waiting, spares, buf).0 == Some(buf),
{
}

/// A publish never loses a buffer: the one it displaces is kept, so the handoff holds every
/// buffer it held before and the new one.
pub proof fn law_publish_loses_no_buffer(
    waiting: Option<Seq<u8>>,
    spares: Seq<Seq<u8>>,
    buf: Seq<u8>,
)
    ensures
        ({
            let (w, s) = after_publish(waiting, spares, buf);
            pool(w, s) =~= pool(waiting, spares).insert(buf)
        }),
{
    broadcast use vstd::seq_lib::group_to_multiset_ensures;

    if let Some(dropped) = waiting {
        assert(spares.push(dropped).to_multiset() =~= spares.to_multiset().insert(dropped));
    }
}

/// The handoff as counts: whether a frame waits, how many spares there are, how many buffers
/// were ever allocated, and whether the writer and the reader each hold one.
pub struct Handoff {
    pub waiting: bool,
    pub spares: nat,
    pub allocated: nat,
    pub writing: bool,
    pub reading: bool,
}

/// The calls the two threads make on the handoff.
pub enum Step {
    TakeWrite,
    Publish,
    Latest,
    Recycle,
}

/// The handoff `Frames::new` makes.
pub open spec fn fresh() -> Handoff {
    Handoff { waiting: false, spares: 0, allocated: 0, writing: false, reading: false }
}

/// The two threads' side of the bargain: the writer holds at most one buffer, publishing it
/// before taking another, and the reader holds at most one frame, recycling it before
/// taking the next.
pub open spec fn allowed(h: Handoff, s: Step) -> bool {
    match s {
        Step::TakeWrite => !h.writing,
        Step::Publish => h.writing,
        Step::Latest => !h.reading,
        Step::Recycle => h.reading,
    }
}

/// One call, as `take_write`, `publish`, `latest` and `recycle` state it of the counts.
pub open spec fn step(h: Handoff, s: Step) -> Handoff {
    match s {
        Step::TakeWrite => if h.spares > 0 {
            Handoff { spares: (h.spares - 1) as nat, writing: true, ..h }
        } else {
            Handoff { allocated: h.allocated + 1, writing: true, ..h }
        },
        Step::Publish => Handoff {
            waiting: true,
            spares: if h.waiting {
                h.spares + 1
            } else {
                h.spares
            },
            writing: false,
            ..h
        },
        Step::Latest => if h.waiting {
            Handoff { waiting: false, reading: true, ..h }
        } else {
            h
        },
        Step::Recycle => Handoff { spares: h.spares + 1, reading: false, ..h },
    }
}

/// The handoff after a run of calls.
pub open spec fn run(h: Handoff, steps: Seq<Step>) -> Handoff
    decreases steps.len(),
{
    if steps.len() == 0 {
        h
    } else {
        step(run(h, steps.drop_last()), steps.last())
    }
}

/// Every call in the run keeps the bargain, in the state it is made in.
pub open spec fn kept(h: Handoff, steps: Seq<Step>) -> bool
    decreases steps.len(),
{
    if steps.len() == 0 {
        true
    } else {
        kept(h, steps.drop_last()) && allowed(run(h, steps.drop_last()), steps.last())
    }
}

/// Each buffer ever allocated is in exactly one place.
spec fn accounted(h: Handoff) -> bool {
    &&& h.allocated == h.spares + (if h.waiting { 1nat } else { 0nat }) + (if h.writing {
        1nat
    } else {
        0nat
    }) + (if h.reading {
        1nat
    } else {
        0nat
    })
    &&& h.allocated <= 3
}

proof fn lemma_run_accounted(steps: Seq<Step>)
    requires
        kept(fresh(), steps),
    ensures
        accounted(run(fresh(), steps)),
    decreases steps.len(),
{
    if steps.len() > 0 {
        lemma_run_accounted(steps.drop_last());
    }
}

/// Three buffers are enough: however long the two threads run, as long as each holds at
/// most one buffer at a time, no more than three are ever allocated, one being written, one
/// published and one being read. `Frames::new` starts at `fresh()`, and each of `take_write`,
/// `publish`, `latest` and `recycle` moves `Frames::counts` by the matching `step`, so this
/// holds of `Frames::allocated` after every call.
pub proof fn law_at_most_three_buffers(steps: Seq<Step>)
    requires
        kept(fresh(), steps),
    ensures
        run(fresh(), steps).allocated <= 3,
{
    lemma_run_accounted(steps);
}

} // verus!
