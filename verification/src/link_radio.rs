//! Bringing the private link network up and down. The subcommands and the job queue's
//! contract live here; the process spawning lives with the binary.

use std::sync::atomic::AtomicBool;
use std::sync::Arc;

use vstd::prelude::*;

verus! {

/// Which end of a link session this device is. The host brings the access point up and
/// waits; the joiner associates to it and connects out.
#[derive(Debug, Clone, Copy, PartialEq, Eq)]
pub enum LinkRole {
    Host,
    Join,
}

/// The subcommand `ags-net link` expects for each role.
pub open spec fn role_arg(role: LinkRole) -> Seq<char> {
    match role {
        LinkRole::Host => seq!['h', 'o', 's', 't'],
        LinkRole::Join => seq!['j', 'o', 'i', 'n'],
    }
}

impl LinkRole {
    /// The subcommand `ags-net link` expects.
    pub fn arg(self) -> (s: &'static str)
        ensures
            s@ == role_arg(self),
    {
        match self {
            LinkRole::Host => {
                let s = "host";
                proof {
                    reveal_strlit("host");
                }
                s
            },
            LinkRole::Join => {
                let s = "join";
                proof {
                    reveal_strlit("join");
                }
                s
            },
        }
    }
}

/// Why the network did not come up.
///
/// Three, not one, because the screen says a different sentence for each and only one of them
/// is about the radio at all.
#[derive(Debug, Clone, PartialEq, Eq)]
pub enum RadioFail {
    /// `ags-net link join` exited 3: the station ran for its whole search and no host
    /// answered. The radio is fine; the other player is not there.
    NoHost,
    /// The player backed out, and the child was killed rather than waited out.
    Cancelled,
    /// Anything else — a dead access point, an interface that never appeared, no `ags-net` on
    /// this machine at all.
    Radio(String),
}

/// Work for the radio that nothing waits on, run one at a time and in the order asked.
#[derive(Debug, Clone, Copy, PartialEq, Eq, Structural)]
pub enum RadioJob {
    /// Load the driver and wait for its interfaces, without associating or hosting.
    Warm,
    /// Unload it, unless `ags-net` finds something still wants it.
    Cool,
    /// End a session: drop the access point or the association, and cool on the way out.
    Down,
}

/// The flag a player backing out sets, shared with the worker that is waiting on the radio
/// or the socket.
#[derive(Clone)]
pub struct Cancel {
    flag: Arc<AtomicBool>,
}

impl Cancel {
    pub fn new() -> Cancel {
        Cancel { flag: Arc::new(AtomicBool::new(false)) }
    }

    pub fn cancel(&self) {
        self.flag.store(true, std::sync::atomic::Ordering::SeqCst);
    }

    pub fn is_cancelled(&self) -> bool {
        self.flag.load(std::sync::atomic::Ordering::SeqCst)
    }
}

/// Where `App` sends that work. A trait rather than a function so a test can watch what was
/// asked for, in what order, without a radio or a process anywhere near it.
pub trait RadioJobs: Send {
    fn ask(&mut self, job: RadioJob);

    /// Whether the driver is loaded right now. Nothing waits on the radio, so this is the only
    /// way anything can know — and the link screen needs it, because a step whose slow part has
    /// already been paid for should not be captioned as the wait it no longer is.
    ///
    /// The worker's own report of a `Warm` that finished, never the fact that one was asked
    /// for.
    fn warmed(&self) -> (r: bool)
        ensures
            r == self.warm(),
    ;

    /// Whether the driver is loaded, as `warmed` reports it.
    spec fn warm(&self) -> bool;
}

/// The queue off the device, where there is no driver and every job is a no-op. It keeps one
/// code path in `App`: the ordering the device needs is not something a host build should
/// have to know about. The device's own queue, one worker thread shelling out to `ags-net`,
/// lives with the binary.
pub struct RadioQueue;

impl RadioJobs for RadioQueue {
    fn ask(&mut self, _job: RadioJob) {
    }

    /// There is no driver here to be loaded or unloaded, and `up` returns without doing
    /// anything, so the step that would wait for one has nothing to wait for. Warm from the
    /// first frame is the honest answer on a host build, not a stub.
    fn warmed(&self) -> (r: bool) {
        true
    }

    /// Always: off the device there is no driver to wait for.
    open spec fn warm(&self) -> bool {
        true
    }
}

/// What `App` starts with off the device.
pub fn radio_jobs() -> (r: Box<dyn RadioJobs>)
    ensures
        r.warm(),
{
    return Box::new(RadioQueue);
}

/// No radio to bring up anywhere but the device, and nothing to shell out to. A host build
/// running two copies of slot over loopback is a real way to drive the screen, so this
/// succeeds rather than refusing.
pub fn up(_role: LinkRole, _cancel: &Cancel) -> (r: Result<(), RadioFail>)
    ensures
        r is Ok,
{
    Ok(())
}

/// Best effort and infallible on purpose: this runs on the failure path of every step above
/// it, and a teardown that can fail is a teardown callers skip.
pub fn down() {
}

} // verus!
