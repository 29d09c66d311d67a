//! Starting a link session, off the UI thread.
//!
//! Two of the steps are slow enough to be felt: bringing the radio up blocks for one to five
//! seconds, and a host waiting for its peer for up to thirty. The binary runs both on a worker
//! of their own and turns them into messages the frame loop picks up in microseconds; this is
//! what those messages mean and how the frame loop reads them.

use vstd::prelude::*;

verus! {

/// Where the host lives on the device's private WiFi.
pub const DEVICE_HOST_ADDR: &'static str = "10.42.0.1";

/// There is no private WiFi on a host build, so the host address there is the loopback one:
/// two copies of slot on one machine is a real way to drive the link screen.
pub const LOOPBACK_HOST_ADDR: &'static str = "127.0.0.1";

/// The port a link session meets on. Fixed rather than negotiated: there is no discovery
/// protocol on this network and nothing to negotiate over. Chosen below the ephemeral range
/// so an outgoing connection on either device can never already be holding it.
pub const LINK_PORT: u16 = 7211;

/// Which slow step the worker is on. The screen says a different sentence for each.
#[derive(Debug, Clone, Copy, PartialEq, Eq, Structural)]
pub enum LinkStep {
    /// Bringing the private network up. One to five seconds.
    Radio,
    /// The socket step: a host waiting for a friend, a joiner connecting out.
    Waiting,
}

/// Why a link did not start.
///
/// Four sentences rather than one, deliberately: "the link failed" does not tell a player
/// whether to try again, to move closer, or to ask their friend to press something.
#[derive(Debug, Clone, Copy, PartialEq, Eq, Structural)]
pub enum LinkFail {
    /// The network never came up. Nothing to do with the other player.
    Radio,
    /// The host waited out its bound and nobody arrived.
    NobodyCame,
    /// A real fault on the wire — or a worker that died without saying how it ended.
    PeerVanished,
    /// The player backed out. Not a failure, but it ends the same way.
    Cancelled,
}

/// One message from the worker. `At` may arrive more than once; exactly one `Ready` or
/// `Failed` ever does, and it is the last thing the worker says. `L` is the transport a
/// session runs over.
pub enum LinkProgress<L> {
    At(LinkStep),
    Ready(L),
    Failed(LinkFail),
}

/// Whether a message ends the start.
pub open spec fn terminal<L>(p: LinkProgress<L>) -> bool {
    p is Ready || p is Failed
}

/// What went wrong with the socket step, as far as the start cares: the waiting host reserves
/// `Interrupted` for a cancel and `TimedOut` for its deadline, and hands anything else back
/// as itself.
#[derive(Debug, Clone, Copy, PartialEq, Eq, Structural)]
pub enum SocketError {
    Interrupted,
    TimedOut,
    Other,
}

/// The three error kinds the socket step is careful to tell apart, turned into the three
/// sentences above. Anything else is a fault on the wire.
pub open spec fn spec_classify(error: SocketError) -> LinkFail {
    match error {
        SocketError::Interrupted => LinkFail::Cancelled,
        SocketError::TimedOut => LinkFail::NobodyCame,
        SocketError::Other => LinkFail::PeerVanished,
    }
}

pub fn classify(error: SocketError) -> (r: LinkFail)
    ensures
        r == spec_classify(error),
{
    match error {
        SocketError::Interrupted => LinkFail::Cancelled,
        SocketError::TimedOut => LinkFail::NobodyCame,
        SocketError::Other => LinkFail::PeerVanished,
    }
}

/// What one look at the worker's queue found.
pub enum Received<T> {
    Message(T),
    /// Nothing yet: still working.
    Empty,
    /// The worker is gone without having said how it ended, which means it panicked.
    Disconnected,
}

/// The frame loop's side of the worker's queue: everything up to the one terminal message,
/// and nothing after it.
pub struct StartGate {
    /// Set the moment a terminal message is handed out. Without it the very next poll would
    /// see the worker's sender drop and invent a second, contradictory outcome — a failure
    /// reported over a link that had just come up.
    done: bool,
}

impl StartGate {
    pub closed spec fn is_done(&self) -> bool {
        self.done
    }

    pub fn new() -> (r: StartGate)
        ensures
            !r.is_done(),
    {
        StartGate { done: false }
    }

    /// `None` means still working. A worker that vanished without a word is reported as the
    /// fault it is, rather than left for the screen to wait on forever.
    pub fn poll<L>(&mut self, received: Received<LinkProgress<L>>) -> (r: Option<LinkProgress<L>>)
        ensures
            old(self).is_done() ==> r is None && final(self).is_done(),
            !old(self).is_done() ==> match received {
                Received::Message(p) => r == Some(p) && final(self).is_done() == terminal(p),
                Received::Empty => r is None && !final(self).is_done(),
                Received::Disconnected => r == Some(LinkProgress::<L>::Failed(LinkFail::PeerVanished))
                    && final(self).is_done(),
            },
    {
        if self.done {
            return None;
        }
        match received {
            Received::Message(progress) => {
                self.done = match progress {
                    LinkProgress::Ready(_) | LinkProgress::Failed(_) => true,
                    LinkProgress::At(_) => false,
                };
                Some(progress)
            },
            Received::Empty => None,
            Received::Disconnected => {
                self.done = true;
                Some(LinkProgress::Failed(LinkFail::PeerVanished))
            },
        }
    }
}

/// What the worker does next: say where it is, run one of the two slow steps, take the
/// network down, or end, with a failure or with the session handed over.
#[derive(Debug, Clone, Copy, PartialEq, Eq, Structural)]
pub enum StartAction {
    Say(LinkStep),
    BringRadioUp,
    OpenSocket,
    RadioDown,
    Fail(LinkFail),
    HandOver,
}

/// What the worker has just learned: that it has begun, how bringing the radio up went, or
/// how the socket step went.
#[derive(Debug, Clone, Copy, PartialEq, Eq, Structural)]
pub enum StartEvent {
    Begun,
    Radio(bool),
    Socket(Option<SocketError>),
}

/// The worker's answer to each event.
///
/// A radio that failed to come up is still taken down: `up` failing is no promise that
/// nothing came up. Down before the message, on both failing paths: the message is what
/// unblocks whoever is watching, so anything after it can be observed as not having
/// happened, and a failed link that leaves the access point running strands the device on a
/// network with nothing on the other end. A socket that opened is handed over with the
/// network still up, since the session runs over it.
pub open spec fn spec_start_step(event: StartEvent) -> Seq<StartAction> {
    match event {
        StartEvent::Begun => seq![StartAction::Say(LinkStep::Radio), StartAction::BringRadioUp],
        StartEvent::Radio(false) => seq![StartAction::RadioDown, StartAction::Fail(LinkFail::Radio)],
        StartEvent::Radio(true) => seq![StartAction::Say(LinkStep::Waiting), StartAction::OpenSocket],
        StartEvent::Socket(None) => seq![StartAction::HandOver],
        StartEvent::Socket(Some(e)) => seq![StartAction::RadioDown, StartAction::Fail(spec_classify(e))],
    }
}

pub fn start_step(event: StartEvent) -> (r: Vec<StartAction>)
    ensures
        r@ == spec_start_step(event),
{
    let mut out: Vec<StartAction> = Vec::new();
    match event {
        StartEvent::Begun => {
            out.push(StartAction::Say(LinkStep::Radio));
            out.push(StartAction::BringRadioUp);
        },
        StartEvent::Radio(false) => {
            out.push(StartAction::RadioDown);
            out.push(StartAction::Fail(LinkFail::Radio));
        },
        StartEvent::Radio(true) => {
            out.push(StartAction::Say(LinkStep::Waiting));
            out.push(StartAction::OpenSocket);
        },
        StartEvent::Socket(None) => {
            out.push(StartAction::HandOver);
        },
        StartEvent::Socket(Some(e)) => {
            out.push(StartAction::RadioDown);
            out.push(StartAction::Fail(classify(e)));
        },
    }
    assert(out@ =~= spec_start_step(event));
    out
}

/// A whole start, as the worker runs it: how the radio came up and, if it did, how the
/// socket step went.
pub open spec fn start_script(radio: bool, socket: Option<SocketError>) -> Seq<StartAction> {
    spec_start_step(StartEvent::Begun) + if radio {
        spec_start_step(StartEvent::Radio(true)) + spec_start_step(StartEvent::Socket(socket))
    } else {
        spec_start_step(StartEvent::Radio(false))
    }
}

/// How often the network is taken down in a run of actions.
pub open spec fn downs(s: Seq<StartAction>) -> nat
    decreases s.len(),
{
    if s.len() == 0 {
        0
    } else {
        downs(s.drop_last()) + if s.last() == StartAction::RadioDown {
            1nat
        } else {
            0nat
        }
    }
}

/// Every start ends exactly once, with a failure or a handed-over session, as its last
/// action. A failed start takes the network down exactly once, just before it says so; a
/// start that hands the session over never takes it down.
pub proof fn law_a_failed_start_takes_the_network_down_once(radio: bool, socket: Option<SocketError>)
    ensures
        ({
            let s = start_script(radio, socket);
            &&& s.last() is Fail || s.last() == StartAction::HandOver
            &&& forall|i: int| 0 <= i < s.len() - 1 ==> !(#[trigger] s[i] is Fail) && s[i]
                != StartAction::HandOver
            &&& s.last() is Fail ==> downs(s) == 1 && s[s.len() - 2] == StartAction::RadioDown
            &&& s.last() == StartAction::HandOver ==> downs(s) == 0
        }),
{
    let s = start_script(radio, socket);
    reveal_with_fuel(downs, 7);
    if radio {
        assert(s =~= seq![
            StartAction::Say(LinkStep::Radio),
            StartAction::BringRadioUp,
            StartAction::Say(LinkStep::Waiting),
            StartAction::OpenSocket,
        ] + spec_start_step(StartEvent::Socket(socket)));
        match socket {
            None => {
                assert(s.drop_last() =~= seq![
                    StartAction::Say(LinkStep::Radio),
                    StartAction::BringRadioUp,
                    StartAction::Say(LinkStep::Waiting),
                    StartAction::OpenSocket,
                ]);
            },
            Some(e) => {
                assert(s.drop_last().drop_last() =~= seq![
                    StartAction::Say(LinkStep::Radio),
                    StartAction::BringRadioUp,
                    StartAction::Say(LinkStep::Waiting),
                    StartAction::OpenSocket,
                ]);
            },
        }
    } else {
        assert(s =~= seq![
            StartAction::Say(LinkStep::Radio),
            StartAction::BringRadioUp,
            StartAction::RadioDown,
            StartAction::Fail(LinkFail::Radio),
        ]);
        assert(s.drop_last().drop_last() =~= seq![
            StartAction::Say(LinkStep::Radio),
            StartAction::BringRadioUp,
        ]);
    }
}

} // verus!
