//! The emulated cable's frame clock: whose buttons go into which frame, and when a frame may run.
//!
//! The in-core lockstep route needs *both* players' buttons before it can step either console,
//! and a frame that steps on a guess cannot be taken back. So input is delayed. A mask sampled
//! now is stamped for a frame `DELAY` ahead and sent at once, which buys the wire that many
//! frames to deliver it. Both ends seed the first `DELAY` frames as idle by convention rather
//! than sending them, so neither waits on the other to start.
//!
//! Transport-free on purpose: `Cable` never touches a socket, so the whole protocol is
//! checkable without one.

use std::collections::BTreeMap;

use vstd::prelude::*;

use crate::input::mask::ButtonMask;

verus! {

broadcast use vstd::laws_cmp::group_laws_cmp;

/// Frames between sampling a mask and running it. Two at 60 Hz is about 33 ms of wire, against a
/// link measured at about 2 ms, so it absorbs a stalled present rather than only a slow packet.
pub const DELAY: u64 = 2;

/// One player's buttons for one frame: frame index then mask, little endian.
pub const PACKET: usize = 10;

/// Stalled presents before a peer is called lost rather than slow. About a second at 60 Hz, which
/// is long enough to ride out a WiFi hiccup and short enough to notice a device that walked away.
pub const QUIET_FRAMES: u32 = 60;

/// Byte `i` of `x`, little endian.
pub open spec fn byte_of(x: u64, i: u64) -> u8 {
    ((x >> (8 * i)) & 0xff) as u8
}

/// The packet for one player's mask on one frame.
pub open spec fn packet(frame: u64, mask: ButtonMask) -> Seq<u8> {
    seq![
        byte_of(frame, 0),
        byte_of(frame, 1),
        byte_of(frame, 2),
        byte_of(frame, 3),
        byte_of(frame, 4),
        byte_of(frame, 5),
        byte_of(frame, 6),
        byte_of(frame, 7),
        (mask.0 & 0xff) as u8,
        (mask.0 >> 8) as u8,
    ]
}

/// Eight little endian bytes.
pub open spec fn le_u64(b: Seq<u8>) -> u64 {
    (b[0] as u64 | (b[1] as u64) << 8u64 | (b[2] as u64) << 16u64 | (b[3] as u64) << 24u64 | (
    b[4] as u64) << 32u64 | (b[5] as u64) << 40u64 | (b[6] as u64) << 48u64 | (b[7] as u64)
        << 56u64) as u64
}

/// What a packet off the wire says, if it is one.
pub open spec fn unpacked(b: Seq<u8>) -> Option<(u64, ButtonMask)> {
    if b.len() != PACKET {
        None
    } else {
        Some((le_u64(b), ButtonMask((b[8] as u16 | (b[9] as u16) << 8u16) as u16)))
    }
}

pub fn encode(frame: u64, mask: ButtonMask) -> (out: [u8; PACKET])
    ensures
        out@ == packet(frame, mask),
{
    let out: [u8; PACKET] = [
        (frame & 0xff) as u8,
        ((frame >> 8u64) & 0xff) as u8,
        ((frame >> 16u64) & 0xff) as u8,
        ((frame >> 24u64) & 0xff) as u8,
        ((frame >> 32u64) & 0xff) as u8,
        ((frame >> 40u64) & 0xff) as u8,
        ((frame >> 48u64) & 0xff) as u8,
        ((frame >> 56u64) & 0xff) as u8,
        (mask.0 & 0xff) as u8,
        (mask.0 >> 8u16) as u8,
    ];
    proof {
        assert(frame >> 0u64 == frame) by (bit_vector);
    }
    assert(out@ =~= packet(frame, mask));
    out
}

pub fn decode(buf: &[u8]) -> (r: Option<(u64, ButtonMask)>)
    ensures
        r == unpacked(buf@),
{
    if buf.len() != PACKET {
        return None;
    }
    let frame = (buf[0] as u64 | (buf[1] as u64) << 8u64 | (buf[2] as u64) << 16u64 | (
    buf[3] as u64) << 24u64 | (buf[4] as u64) << 32u64 | (buf[5] as u64) << 40u64 | (
    buf[6] as u64) << 48u64 | (buf[7] as u64) << 56u64) as u64;
    let mask = (buf[8] as u16 | (buf[9] as u16) << 8u16) as u16;
    Some((frame, ButtonMask(mask)))
}

proof fn lemma_u64_bytes(x: u64)
    ensures
        ((x & 0xff) as u8 as u64 | (((x >> 8u64) & 0xff) as u8 as u64) << 8u64 | (((x >> 16u64)
            & 0xff) as u8 as u64) << 16u64 | (((x >> 24u64) & 0xff) as u8 as u64) << 24u64 | (((x
            >> 32u64) & 0xff) as u8 as u64) << 32u64 | (((x >> 40u64) & 0xff) as u8 as u64)
            << 40u64 | (((x >> 48u64) & 0xff) as u8 as u64) << 48u64 | (((x >> 56u64) & 0xff) as u8
            as u64) << 56u64) == x,
{
    assert(((x & 0xff) as u8 as u64 | (((x >> 8u64) & 0xff) as u8 as u64) << 8u64 | (((x
        >> 16u64) & 0xff) as u8 as u64) << 16u64 | (((x >> 24u64) & 0xff) as u8 as u64) << 24u64
        | (((x >> 32u64) & 0xff) as u8 as u64) << 32u64 | (((x >> 40u64) & 0xff) as u8 as u64)
        << 40u64 | (((x >> 48u64) & 0xff) as u8 as u64) << 48u64 | (((x >> 56u64) & 0xff) as u8
        as u64) << 56u64) == x) by (bit_vector);
}

/// A packet read back is the frame and mask it was made from: the two ends agree on the wire.
pub proof fn law_decode_reads_back_encode(frame: u64, mask: ButtonMask)
    ensures
        unpacked(packet(frame, mask)) == Some((frame, mask)),
{
    let p = packet(frame, mask);
    lemma_u64_bytes(frame);
    assert(frame >> 0u64 == frame) by (bit_vector);
    let m = mask.0;
    assert(((m & 0xff) as u8 as u16 | (((m >> 8u16) as u8) as u16) << 8u16) as u16 == m)
        by (bit_vector);
    assert(p[8] == (m & 0xff) as u8);
    assert(p[9] == (m >> 8u16) as u8);
}

/// The mask this device plays on `frame`, deciding it now if it was not decided already.
pub open spec fn decided(local: Map<u64, ButtonMask>, frame: u64, mask: ButtonMask) -> Map<
    u64,
    ButtonMask,
> {
    if local.contains_key(frame) {
        local
    } else {
        local.insert(frame, mask)
    }
}

/// The two masks for `frame` in port order, when both are known.
pub open spec fn ported(
    player: u8,
    local: Map<u64, ButtonMask>,
    remote: Map<u64, ButtonMask>,
    frame: u64,
) -> Option<(ButtonMask, ButtonMask)> {
    if local.contains_key(frame) && remote.contains_key(frame) {
        if player == 0 {
            Some((local[frame], remote[frame]))
        } else {
            Some((remote[frame], local[frame]))
        }
    } else {
        None
    }
}

/// The idle seed both ends start from: the first `DELAY` frames, nothing held.
pub open spec fn seed() -> Map<u64, ButtonMask> {
    map![0u64 => ButtonMask(0), 1u64 => ButtonMask(0)]
}

pub struct Cable {
    /// 0 or 1, which is libretro's client id and also which port this device drives.
    player: u8,
    /// The frame `step` will run next.
    frame: u64,
    local: BTreeMap<u64, ButtonMask>,
    remote: BTreeMap<u64, ButtonMask>,
    /// Frames asked for and not run because the peer's mask had not arrived.
    stalled: u32,
}

impl Cable {
    /// This device's masks by frame.
    pub closed spec fn local(&self) -> Map<u64, ButtonMask> {
        self.local@
    }

    /// The peer's masks by frame.
    pub closed spec fn remote(&self) -> Map<u64, ButtonMask> {
        self.remote@
    }

    /// The frame about to run.
    pub closed spec fn spec_frame(&self) -> u64 {
        self.frame
    }

    pub closed spec fn spec_player(&self) -> u8 {
        self.player
    }

    pub closed spec fn spec_stalled(&self) -> u32 {
        self.stalled
    }

    pub fn new(player: u8) -> (r: Self)
        ensures
            r.spec_player() == player,
            r.spec_frame() == 0,
            r.spec_stalled() == 0,
            r.local() == seed(),
            r.remote() == seed(),
    {
        let idle = ButtonMask(0);
        let mut local: BTreeMap<u64, ButtonMask> = BTreeMap::new();
        let mut f: u64 = 0;
        while f < DELAY
            invariant
                f <= DELAY,
                idle == ButtonMask(0),
                local@ == Map::new(|k: u64| k < f, |k: u64| ButtonMask(0)),
            decreases DELAY - f,
        {
            let ghost before = local@;
            local.insert(f, idle);
            assert(local@ == before.insert(f, idle));
            f += 1;
            assert forall|k: u64| #[trigger] local@.contains_key(k) <==> k < f by {}
            assert forall|k: u64| local@.contains_key(k) implies #[trigger] local@[k] == ButtonMask(0) by {
                if k != (f - 1) as u64 {
                    assert(before.contains_key(k));
                    assert(before[k] == ButtonMask(0));
                    assert(local@[k] == before[k]);
                } else {
                    assert(local@[k] == idle);
                }
            }
            assert(local@ =~= Map::new(|k: u64| k < f, |k: u64| ButtonMask(0)));
        }
        assert(local@ =~= seed());
        let remote = local.clone();
        Cable { player, frame: 0, local, remote, stalled: 0 }
    }

    pub fn player(&self) -> (r: u8)
        ensures
            r == self.spec_player(),
    {
        self.player
    }

    /// The frame about to run. Read by tests holding the delay to a constant.
    pub fn frame(&self) -> (r: u64)
        ensures
            r == self.spec_frame(),
    {
        self.frame
    }

    pub fn stalled(&self) -> (r: u32)
        ensures
            r == self.spec_stalled(),
    {
        self.stalled
    }

    /// This device's buttons for the frame `DELAY` ahead of the one about to run.
    ///
    /// Decided once and never revised. Asking twice for the same frame, which is what a stalled
    /// present does, returns the mask already decided rather than replacing it: stamping a new
    /// frame per present would add a frame of input delay for every stall, and revising a mask
    /// the peer may already have run that frame with would desync the pair outright.
    pub fn sample(&mut self, mask: ButtonMask) -> (out: [u8; PACKET])
        requires
            old(self).spec_frame() + DELAY <= u64::MAX,
        ensures
            final(self).local() == decided(old(self).local(), (old(self).spec_frame() + DELAY) as u64, mask),
            out@ == packet(
                (old(self).spec_frame() + DELAY) as u64,
                final(self).local()[(old(self).spec_frame() + DELAY) as u64],
            ),
            final(self).remote() == old(self).remote(),
            final(self).spec_frame() == old(self).spec_frame(),
            final(self).spec_player() == old(self).spec_player(),
            final(self).spec_stalled() == old(self).spec_stalled(),
    {
        let frame = self.frame + DELAY;
        let decided = match self.local.get(&frame) {
            Some(m) => *m,
            None => {
                self.local.insert(frame, mask);
                mask
            },
        };
        encode(frame, decided)
    }

    /// A packet off the wire. Unparseable or already-known frames are dropped rather than raised:
    /// a duplicate is not an error and a short read is not worth ending a session over. A frame
    /// already run, or one whose mask has already arrived, is already known; the first mask
    /// that arrived for a frame is the one it runs with.
    pub fn accept(&mut self, buf: &[u8]) -> (r: bool)
        ensures
            r == (unpacked(buf@) matches Some((f, _)) && f >= old(self).spec_frame()
                && !old(self).remote().contains_key(f)),
            r ==> (unpacked(buf@) matches Some((f, m)) && final(self).remote() == old(
                self,
            ).remote().insert(f, m)),
            !r ==> final(self).remote() == old(self).remote(),
            final(self).local() == old(self).local(),
            final(self).spec_frame() == old(self).spec_frame(),
            final(self).spec_player() == old(self).spec_player(),
            final(self).spec_stalled() == old(self).spec_stalled(),
    {
        let (frame, mask) = match decode(buf) {
            Some(p) => p,
            None => return false,
        };
        if frame < self.frame || self.remote.contains_key(&frame) {
            return false;
        }
        self.remote.insert(frame, mask);
        true
    }

    /// The two masks for the frame about to run, in port order, or `None` while the peer's has
    /// not arrived. Port order rather than local-first: the core drives port 0 with the first,
    /// so handing them over the wrong way round swaps the two consoles.
    pub fn ready(&self) -> (r: Option<(ButtonMask, ButtonMask)>)
        ensures
            r == ported(self.spec_player(), self.local(), self.remote(), self.spec_frame()),
    {
        let mine = match self.local.get(&self.frame) {
            Some(m) => *m,
            None => return None,
        };
        let theirs = match self.remote.get(&self.frame) {
            Some(m) => *m,
            None => return None,
        };
        match self.player {
            0 => Some((mine, theirs)),
            _ => Some((theirs, mine)),
        }
    }

    /// Consumes the frame `ready` answered for, dropping what neither side needs again.
    pub fn advance(&mut self)
        requires
            old(self).spec_frame() < u64::MAX,
        ensures
            final(self).local() == old(self).local().remove(old(self).spec_frame()),
            final(self).remote() == old(self).remote().remove(old(self).spec_frame()),
            final(self).spec_frame() == old(self).spec_frame() + 1,
            final(self).spec_stalled() == 0,
            final(self).spec_player() == old(self).spec_player(),
    {
        self.local.remove(&self.frame);
        self.remote.remove(&self.frame);
        self.frame = self.frame + 1;
        self.stalled = 0;
    }

    /// The frame could not run: the peer is late. Counted so a caller can tell a hiccup from a
    /// peer that has stopped talking altogether.
    pub fn stall(&mut self)
        ensures
            final(self).spec_stalled() == if old(self).spec_stalled() == u32::MAX {
                u32::MAX
            } else {
                (old(self).spec_stalled() + 1) as u32
            },
            final(self).local() == old(self).local(),
            final(self).remote() == old(self).remote(),
            final(self).spec_frame() == old(self).spec_frame(),
            final(self).spec_player() == old(self).spec_player(),
    {
        self.stalled = self.stalled.saturating_add(1);
    }
}

/// Sampling a frame a second time never revises it: the mask the peer may already hold for
/// that frame is the one this device plays, whatever is held now, and the second packet is
/// the first one again.
pub proof fn law_a_sampled_frame_is_never_revised(
    local: Map<u64, ButtonMask>,
    frame: u64,
    first: ButtonMask,
    second: ButtonMask,
)
    ensures
        decided(decided(local, frame, first), frame, second) == decided(local, frame, first),
        !local.contains_key(frame) ==> decided(decided(local, frame, first), frame, second)[frame]
            == first,
        packet(frame, decided(decided(local, frame, first), frame, second)[frame]) == packet(
            frame,
            decided(local, frame, first)[frame],
        ),
{
}


/// Both devices hand the core the same pair for a frame: what one calls its own and the
/// other's is swapped between the two ends, so port 0 is always the host's.
pub proof fn law_both_ends_agree_on_port_order(
    host: Map<u64, ButtonMask>,
    joiner: Map<u64, ButtonMask>,
    frame: u64,
)
    ensures
        ported(0, host, joiner, frame) == ported(1, joiner, host, frame),
{
}

/// From the seed, the first `DELAY` frames run idle on both ends without waiting on the wire.
pub proof fn law_the_seed_needs_no_wire(player: u8, frame: u64)
    requires
        frame < DELAY,
    ensures
        ported(player, seed(), seed(), frame) == Some((ButtonMask(0), ButtonMask(0))),
{
}

} // verus!
