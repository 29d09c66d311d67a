//! Keys from a host keyboard, and a pad's buttons, as the edges the device's own would make.
//! Which key is which button is read off the keyboard by the binary; this is what the edges
//! are once it has.

use vstd::prelude::*;

use crate::input::btn::{Btn, RawEvent};

verus! {

/// `held` without `btn`.
pub open spec fn without(held: Seq<Btn>, btn: Btn) -> Seq<Btn>
    decreases held.len(),
{
    if held.len() == 0 {
        held
    } else if held.last() == btn {
        without(held.drop_last(), btn)
    } else {
        without(held.drop_last(), btn).push(held.last())
    }
}

/// The edge a button makes.
pub open spec fn edge(btn: Btn, pressed: bool) -> RawEvent {
    if pressed {
        RawEvent::Down(btn)
    } else {
        RawEvent::Up(btn)
    }
}

/// A release for each of `held`, in the order they went down.
pub open spec fn releases(held: Seq<Btn>) -> Seq<RawEvent> {
    held.map_values(|b: Btn| RawEvent::Up(b))
}

/// The edges waiting to be polled, whether the host's stand-in lid is shut, and the buttons
/// the keyboard is holding, oldest first.
pub struct HostView {
    pub pending: Seq<RawEvent>,
    pub lid_closed: bool,
    pub held: Seq<Btn>,
}

/// What a key does. Autorepeat is a stream of presses with no release, which would re-arm every
/// hold and double tap window downstream, so it does nothing. The host has no hinge, so the lid
/// key latches. Every other key is written down before it is sent, so a focus loss knows what
/// is still down.
pub open spec fn keyed(v: HostView, btn: Option<Btn>, pressed: bool, repeat: bool) -> HostView {
    if repeat || btn is None {
        v
    } else if btn->0 == Btn::Lid {
        if pressed {
            HostView {
                pending: v.pending.push(edge(Btn::Lid, !v.lid_closed)),
                lid_closed: !v.lid_closed,
                ..v
            }
        } else {
            v
        }
    } else {
        let b = btn->0;
        HostView {
            pending: v.pending.push(edge(b, pressed)),
            held: if pressed {
                if v.held.contains(b) {
                    v.held
                } else {
                    v.held.push(b)
                }
            } else {
                without(v.held, b)
            },
            ..v
        }
    }
}

pub struct HostInput {
    pending: Vec<RawEvent>,
    lid_closed: bool,
    held_keys: Vec<Btn>,
}

impl View for HostInput {
    type V = HostView;

    closed spec fn view(&self) -> HostView {
        HostView { pending: self.pending@, lid_closed: self.lid_closed, held: self.held_keys@ }
    }
}

impl HostInput {
    pub fn new() -> (r: HostInput)
        ensures
            r@ == (HostView { pending: Seq::empty(), lid_closed: false, held: Seq::empty() }),
    {
        HostInput { pending: Vec::new(), lid_closed: false, held_keys: Vec::new() }
    }

    /// The window stopped being the thing the keyboard was talking to: every key still down is
    /// let go of, once each. The list is taken rather than read, so a second focus loss with
    /// nothing pressed in between has nothing to release.
    pub fn focus_lost(&mut self)
        ensures
            final(self)@ == (HostView {
                pending: old(self)@.pending + releases(old(self)@.held),
                held: Seq::empty(),
                ..old(self)@
            }),
    {
        let n = self.held_keys.len();
        let mut i: usize = 0;
        while i < n
            invariant
                n == self.held_keys@.len(),
                i <= n,
                self.held_keys@ == old(self)@.held,
                self.lid_closed == old(self)@.lid_closed,
                self.pending@ == old(self)@.pending + releases(old(self)@.held.subrange(0, i as int)),
            decreases n - i,
        {
            let b = self.held_keys[i];
            self.pending.push(RawEvent::Up(b));
            assert(old(self)@.held.subrange(0, i + 1) =~= old(self)@.held.subrange(0, i as int).push(
                b,
            ));
            assert(releases(old(self)@.held.subrange(0, i + 1)) =~= releases(
                old(self)@.held.subrange(0, i as int),
            ).push(RawEvent::Up(b)));
            i += 1;
        }
        assert(old(self)@.held.subrange(0, n as int) =~= old(self)@.held);
        self.held_keys = Vec::new();
    }

    /// `btn` is what the key is on the device, `None` for a key that is none of its buttons.
    pub fn key(&mut self, btn: Option<Btn>, pressed: bool, repeat: bool)
        ensures
            final(self)@ == keyed(old(self)@, btn, pressed, repeat),
    {
        if repeat {
            return;
        }
        let btn = match btn {
            Some(b) => b,
            None => return,
        };
        if btn == Btn::Lid {
            if pressed {
                self.lid_closed = !self.lid_closed;
                self.pending.push(
                    if self.lid_closed {
                        RawEvent::Down(Btn::Lid)
                    } else {
                        RawEvent::Up(Btn::Lid)
                    },
                );
            }
            return;
        }
        if pressed {
            if !self.holds(btn) {
                self.held_keys.push(btn);
            }
        } else {
            self.release(btn);
        }
        self.push(btn, pressed);
    }

    /// A pad's button. The pad is read off the device rather than the window, so its releases
    /// arrive whether or not the window has focus, and nothing is written down for it.
    pub fn pad(&mut self, btn: Btn, pressed: bool)
        ensures
            final(self)@ == (HostView {
                pending: old(self)@.pending.push(edge(btn, pressed)),
                ..old(self)@
            }),
    {
        self.push(btn, pressed);
    }

    /// The edges since the last poll, in order.
    pub fn poll(&mut self) -> (r: Vec<RawEvent>)
        ensures
            r@ == old(self)@.pending,
            final(self)@ == (HostView { pending: Seq::empty(), ..old(self)@ }),
    {
        let mut out = Vec::new();
        std::mem::swap(&mut out, &mut self.pending);
        out
    }

    fn push(&mut self, btn: Btn, pressed: bool)
        ensures
            final(self)@ == (HostView {
                pending: old(self)@.pending.push(edge(btn, pressed)),
                ..old(self)@
            }),
    {
        self.pending.push(
            if pressed {
                RawEvent::Down(btn)
            } else {
                RawEvent::Up(btn)
            },
        );
    }

    fn holds(&self, btn: Btn) -> (r: bool)
        ensures
            r == self@.held.contains(btn),
    {
        let n = self.held_keys.len();
        let mut i: usize = 0;
        while i < n
            invariant
                n == self.held_keys@.len(),
                i <= n,
                forall|j: int| 0 <= j < i ==> self.held_keys@[j] != btn,
            decreases n - i,
        {
            if self.held_keys[i] == btn {
                assert(self@.held[i as int] == btn);
                return true;
            }
            i += 1;
        }
        false
    }

    fn release(&mut self, btn: Btn)
        ensures
            final(self)@ == (HostView { held: without(old(self)@.held, btn), ..old(self)@ }),
    {
        let n = self.held_keys.len();
        let mut kept: Vec<Btn> = Vec::new();
        let mut i: usize = 0;
        while i < n
            invariant
                n == self.held_keys@.len(),
                self.held_keys@ == old(self)@.held,
                i <= n,
                kept@ == without(old(self)@.held.subrange(0, i as int), btn),
            decreases n - i,
        {
            let b = self.held_keys[i];
            let ghost prefix = old(self)@.held.subrange(0, i + 1);
            assert(prefix.drop_last() =~= old(self)@.held.subrange(0, i as int));
            assert(prefix.last() == b);
            if b != btn {
                kept.push(b);
            }
            i += 1;
        }
        assert(old(self)@.held.subrange(0, n as int) =~= old(self)@.held);
        self.held_keys = kept;
    }
}

/// A focus loss releases exactly what is down, each once, and a second one releases nothing.
pub proof fn law_a_focus_loss_releases_each_held_key_once(v: HostView)
    ensures
        releases(Seq::<Btn>::empty()) == Seq::<RawEvent>::empty(),
        releases(v.held).len() == v.held.len(),
        forall|i: int| 0 <= i < v.held.len() ==> #[trigger] releases(v.held)[i] == RawEvent::Up(
            v.held[i],
        ),
{
    assert(releases(Seq::<Btn>::empty()) =~= Seq::<RawEvent>::empty());
}

/// A key released is no longer held, and pressing a held key again does not hold it twice.
pub proof fn law_a_released_key_is_not_held(held: Seq<Btn>, btn: Btn)
    ensures
        !without(held, btn).contains(btn),
        held.contains(btn) ==> keyed(
            HostView { pending: Seq::empty(), lid_closed: false, held },
            Some(btn),
            true,
            false,
        ).held == held,
    decreases held.len(),
{
    if held.len() > 0 {
        law_a_released_key_is_not_held(held.drop_last(), btn);
        let w = without(held.drop_last(), btn);
        if held.last() != btn {
            assert forall|i: int| 0 <= i < w.push(held.last()).len() implies w.push(held.last())[i]
                != btn by {
                if i < w.len() {
                    assert(w.push(held.last())[i] == w[i]);
                }
            }
        }
    }
}

/// The lid key latches: two presses shut it and open it, whatever else is down.
pub proof fn law_the_lid_key_latches(v: HostView)
    ensures
        keyed(keyed(v, Some(Btn::Lid), true, false), Some(Btn::Lid), true, false).lid_closed
            == v.lid_closed,
        keyed(keyed(v, Some(Btn::Lid), true, false), Some(Btn::Lid), true, false).held == v.held,
{
}

} // verus!
