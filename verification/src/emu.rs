//! What the emulator thread decides once a present: how fast to run, whether to rewind, how
//! many core frames the present can afford and which of them draws, when to snapshot, and
//! how the measured cost of a frame is carried forward. The thread, the core and the audio
//! ring are the binary's; these are the choices it makes with them.

use std::collections::VecDeque;

use vstd::prelude::*;

verus! {

/// Present is locked to the 60 Hz panel and the core is stepped once per present, so the
/// 0.456% the GBA runs slow lands entirely on audio rate control. In nanoseconds.
pub const PRESENT_NS: u64 = 16_666_667;

/// The speed a card that never chose one gets, and what the quick menu's 4× asks for.
pub const FAST_STEPS: u32 = 4;

/// The top of the Fast Forward row, and so the most core frames one present will ever run.
/// A ceiling is not a multiplier: the budget below stops a present that cannot afford the
/// whole of it, so a game too heavy for the speed asked gives that speed back a frame at a
/// time instead of overrunning the present and dropping off 60 Hz.
pub const FAST_STEPS_MAX: u32 = 8;

/// How much of a present a fast forward may spend inside the core, in nanoseconds.
pub const FAST_BUDGET_NS: u64 = 13_500_000;

/// How much of the running per-frame estimate one present's measurement replaces: a quarter.
pub const COST_BLEND: u64 = 4;

/// Snapshot every other frame, so rewinding at one pop per present runs back at 2x.
pub const SNAPSHOT_EVERY: u32 = 2;

/// A per-present cap on how many packets move from the transport into the core's inbound
/// queue. It exists for a peer that floods, so one present's worth of a flood costs one
/// present's worth of work.
pub const MAX_LINK_PACKETS_PER_PRESENT: u32 = 256;

#[derive(Copy, Clone, PartialEq, Eq, Debug, Structural)]
pub enum Speed {
    Paused,
    Normal,
    Fast,
}

#[derive(Copy, Clone, PartialEq, Eq, Debug, Structural)]
pub enum CoreState {
    Loading,
    Ready,
    Failed,
}

/// The wire encoding of a speed, as the handle stores it for the worker.
pub open spec fn speed_code(s: Speed) -> u8 {
    match s {
        Speed::Paused => 0,
        Speed::Normal => 1,
        Speed::Fast => 2,
    }
}

/// A stored speed read back. Anything unknown reads as fast.
pub open spec fn speed_of(v: u8) -> Speed {
    if v == 0 {
        Speed::Paused
    } else if v == 1 {
        Speed::Normal
    } else {
        Speed::Fast
    }
}

impl Speed {
    /// The one place the wire encoding is read, so the worker's read of what it was told and
    /// the handle's read of what the worker saw cannot drift apart.
    pub fn from_u8(v: u8) -> (r: Speed)
        ensures
            r == speed_of(v),
    {
        match v {
            0 => Speed::Paused,
            1 => Speed::Normal,
            _ => Speed::Fast,
        }
    }

    /// The one place it is written.
    pub fn code(self) -> (r: u8)
        ensures
            r == speed_code(self),
    {
        match self {
            Speed::Paused => 0,
            Speed::Normal => 1,
            Speed::Fast => 2,
        }
    }
}

/// A stored core state read back. Anything unknown reads as failed.
pub open spec fn core_state_of(v: u8) -> CoreState {
    if v == 0 {
        CoreState::Loading
    } else if v == 1 {
        CoreState::Ready
    } else {
        CoreState::Failed
    }
}

pub open spec fn core_state_code(s: CoreState) -> u8 {
    match s {
        CoreState::Loading => 0,
        CoreState::Ready => 1,
        CoreState::Failed => 2,
    }
}

impl CoreState {
    pub fn from_u8(v: u8) -> (r: CoreState)
        ensures
            r == core_state_of(v),
    {
        match v {
            0 => CoreState::Loading,
            1 => CoreState::Ready,
            _ => CoreState::Failed,
        }
    }

    pub fn code(self) -> (r: u8)
        ensures
            r == core_state_code(self),
    {
        match self {
            CoreState::Loading => 0,
            CoreState::Ready => 1,
            CoreState::Failed => 2,
        }
    }
}

/// A speed survives the trip through its encoding, and so does a core state.
pub proof fn law_codes_read_back(s: Speed, c: CoreState)
    ensures
        speed_of(speed_code(s)) == s,
        core_state_of(core_state_code(c)) == c,
{
}

/// The most core frames a fast forward present may run: never none, which is a pause, and
/// never more than the top of the row.
pub fn clamp_fast_steps(steps: u32) -> (r: u32)
    ensures
        r == if steps < 1 {
            1
        } else if steps > FAST_STEPS_MAX {
            FAST_STEPS_MAX
        } else {
            steps
        },
{
    if steps < 1 {
        1
    } else if steps > FAST_STEPS_MAX {
        FAST_STEPS_MAX
    } else {
        steps
    }
}

/// A volume as the worker takes it, 0 to 100.
pub fn clamp_volume(level: u8) -> (r: u8)
    ensures
        r == if level > 100 {
            100
        } else {
            level
        },
{
    if level > 100 {
        100
    } else {
        level
    }
}

/// What one present does, decided before any of it runs.
#[derive(Copy, Clone, PartialEq, Eq, Debug, Structural)]
pub struct Plan {
    /// Whether the ring drops the core's audio: fast forward with its sound off.
    pub muted: bool,
    /// Whether the ring is told the core feeds it nothing: a pause.
    pub idle: bool,
    /// Whether this present walks back through the history rather than forward.
    pub rewinding: bool,
    /// The most core frames it may run.
    pub ceiling: u32,
    /// Whether what it produces is heard.
    pub audible: bool,
}

pub open spec fn spec_plan(speed: Speed, rewind: bool, fast_steps: u32, ff_sound: bool) -> Plan {
    Plan {
        muted: speed == Speed::Fast && !ff_sound,
        idle: speed == Speed::Paused,
        rewinding: speed != Speed::Paused && rewind,
        ceiling: match speed {
            Speed::Paused => 0,
            Speed::Normal => 1,
            Speed::Fast => fast_steps,
        },
        audible: speed == Speed::Normal || ff_sound,
    }
}

/// The present's plan from what the handle last said. A held core rewinds nothing and runs
/// nothing; rewinding takes precedence over running, and fast forward is heard only when its
/// sound is on.
pub fn plan(speed: Speed, rewind: bool, fast_steps: u32, ff_sound: bool) -> (r: Plan)
    ensures
        r == spec_plan(speed, rewind, fast_steps, ff_sound),
{
    Plan {
        muted: speed == Speed::Fast && !ff_sound,
        idle: speed == Speed::Paused,
        rewinding: speed != Speed::Paused && rewind,
        ceiling: match speed {
            Speed::Paused => 0,
            Speed::Normal => 1,
            Speed::Fast => fast_steps,
        },
        audible: speed == Speed::Normal || ff_sound,
    }
}

/// A paused present neither runs nor rewinds, and a normal one runs exactly one frame.
pub proof fn law_a_pause_runs_nothing(rewind: bool, fast_steps: u32, ff_sound: bool)
    ensures
        spec_plan(Speed::Paused, rewind, fast_steps, ff_sound).ceiling == 0,
        !spec_plan(Speed::Paused, rewind, fast_steps, ff_sound).rewinding,
        spec_plan(Speed::Normal, rewind, fast_steps, ff_sound).ceiling == 1,
        spec_plan(Speed::Normal, rewind, fast_steps, ff_sound).audible,
{
}

/// Whether the frame about to run is the last of this present, and so the one that draws.
/// Decided before it runs, because that is the only moment a core can still be told not to
/// draw it: there is room for another only if the present has time for both.
pub open spec fn spec_last_frame(ran: u32, ceiling: u32, elapsed_ns: u64, cost_ns: u64) -> bool {
    ran >= ceiling || elapsed_ns + 2 * cost_ns > FAST_BUDGET_NS
}

pub fn last_frame(ran: u32, ceiling: u32, elapsed_ns: u64, cost_ns: u64) -> (r: bool)
    ensures
        r == spec_last_frame(ran, ceiling, elapsed_ns, cost_ns),
{
    if ran >= ceiling {
        return true;
    }
    if cost_ns > (u64::MAX - elapsed_ns) / 2 {
        return true;
    }
    elapsed_ns + 2 * cost_ns > FAST_BUDGET_NS
}

/// A present never runs past its ceiling: the frame that reaches it is always the last.
pub proof fn law_the_ceiling_is_never_passed(ran: u32, ceiling: u32, elapsed_ns: u64, cost_ns: u64)
    requires
        ran >= ceiling,
    ensures
        spec_last_frame(ran, ceiling, elapsed_ns, cost_ns),
{
}

/// One present's measured per-frame cost folded into the running estimate, in nanoseconds:
/// the measurement replaces a quarter of it.
pub open spec fn spec_blend(estimate: u64, measured: u64) -> int {
    (estimate * (COST_BLEND - 1) + measured) / (COST_BLEND as int)
}

pub fn blend(estimate: u64, measured: u64) -> (r: u64)
    ensures
        r == spec_blend(estimate, measured),
{
    let sum: u128 = estimate as u128 * 3 + measured as u128;
    (sum / 4) as u64
}

/// The blend stays between the estimate and the measurement.
pub proof fn law_the_blend_is_between(estimate: u64, measured: u64)
    ensures
        estimate <= measured ==> estimate <= spec_blend(estimate, measured) <= measured,
        measured <= estimate ==> measured <= spec_blend(estimate, measured) <= estimate,
{
}

/// Presents since the last snapshot, counted on: whether this one snapshots, and the count
/// it leaves.
pub fn snapshot_due(since: u32) -> (r: (bool, u32))
    requires
        since < SNAPSHOT_EVERY,
    ensures
        r.0 == (since + 1 >= SNAPSHOT_EVERY),
        r.1 == if r.0 {
            0
        } else {
            since + 1
        },
        r.1 < SNAPSHOT_EVERY,
{
    let next = since + 1;
    if next >= SNAPSHOT_EVERY {
        (true, 0)
    } else {
        (false, next)
    }
}

/// How many packets a drain moves: all that wait, up to the cap.
pub open spec fn drained(waiting: nat, cap: u32) -> nat {
    if waiting < cap {
        waiting
    } else {
        cap as nat
    }
}

/// Packets off the transport into the core's inbound queue, oldest first and at most `cap`
/// of them. The rest stay queued in the transport for the next present, in order: an
/// unbounded drain would give a flooding peer unbounded work in a single present, and
/// dropping what is past the cap would lose the peer's input.
pub fn drain_transport(
    transport: &mut VecDeque<Vec<u8>>,
    inbound: &mut VecDeque<Vec<u8>>,
    cap: u32,
)
    ensures
        final(inbound)@ == old(inbound)@ + old(transport)@.take(
            drained(old(transport)@.len(), cap) as int,
        ),
        final(transport)@ == old(transport)@.skip(drained(old(transport)@.len(), cap) as int),
{
    let ghost waiting = transport@;
    let ghost first = inbound@;
    let mut moved: u32 = 0;
    while moved < cap
        invariant
            moved <= cap,
            moved <= waiting.len(),
            inbound@ == first + waiting.take(moved as int),
            transport@ == waiting.skip(moved as int),
        ensures
            moved == drained(waiting.len(), cap),
            inbound@ == first + waiting.take(moved as int),
            transport@ == waiting.skip(moved as int),
        decreases cap - moved,
    {
        let packet = match transport.pop_front() {
            Some(p) => p,
            None => break,
        };
        inbound.push_back(packet);
        proof {
            assert(waiting.take(moved as int + 1) =~= waiting.take(moved as int).push(packet));
            assert(waiting.skip(moved as int + 1) =~= waiting.skip(moved as int).drop_first());
        }
        moved = moved + 1;
        assert(inbound@ =~= first + waiting.take(moved as int));
    }
}

/// Everything the core queued for the peer, sent, oldest first, when there is a transport to
/// send it on. With none there is nowhere for it to go yet, and it stays queued.
pub fn flush_outbound(transport: &mut Option<Vec<Vec<u8>>>, outbound: &mut VecDeque<Vec<u8>>)
    ensures
        match *old(transport) {
            Some(sent) => {
                &&& *final(transport) matches Some(now) && now@ == sent@ + old(outbound)@
                &&& final(outbound)@.len() == 0
            },
            None => {
                &&& *final(transport) is None
                &&& final(outbound)@ == old(outbound)@
            },
        },
{
    let mut sent = match transport.take() {
        Some(t) => t,
        None => return,
    };
    let ghost before = sent@;
    let ghost queued = outbound@;
    while outbound.len() > 0
        invariant
            sent@ + outbound@ == before + queued,
        decreases outbound@.len(),
    {
        let ghost rest = outbound@;
        if let Some(packet) = outbound.pop_front() {
            sent.push(packet);
            assert(sent@ + outbound@ =~= before + queued) by {
                assert(rest =~= seq![packet] + outbound@);
            }
        }
    }
    assert(sent@ =~= before + queued);
    *transport = Some(sent);
}

/// How a cart's start went, as the worker records it for the frame loop and the flush paths.
#[derive(Copy, Clone, PartialEq, Eq, Debug, Structural)]
pub struct Started {
    pub state: CoreState,
    /// The save ram the core holds is the player's, so writing it back is safe.
    pub save_ram_trusted: bool,
    /// The state the core runs from is the one it was asked to resume.
    pub resume_trusted: bool,
}

/// What a start comes to, from how the core took the rom, and, where there was one to give
/// it, the save ram and the state to resume (`None` for nothing offered, `Some(taken)`).
///
/// A rom that will not load fails the start, and nothing after it is tried. A save ram or a
/// resume the core refuses does not: the core runs, but with its own idea of that region, so
/// what it would write back over the file that refusal left untouched is not trusted.
pub open spec fn spec_started(loaded: bool, sav: Option<bool>, resume: Option<bool>) -> Started {
    if !loaded {
        Started { state: CoreState::Failed, save_ram_trusted: true, resume_trusted: true }
    } else {
        Started {
            state: CoreState::Ready,
            save_ram_trusted: sav != Some(false),
            resume_trusted: resume != Some(false),
        }
    }
}

pub fn started(loaded: bool, sav: Option<bool>, resume: Option<bool>) -> (r: Started)
    ensures
        r == spec_started(loaded, sav, resume),
{
    if !loaded {
        return Started { state: CoreState::Failed, save_ram_trusted: true, resume_trusted: true };
    }
    let save_ram_trusted = match sav {
        Some(taken) => taken,
        None => true,
    };
    let resume_trusted = match resume {
        Some(taken) => taken,
        None => true,
    };
    Started { state: CoreState::Ready, save_ram_trusted, resume_trusted }
}

} // verus!
