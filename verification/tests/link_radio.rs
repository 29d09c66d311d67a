use slot::link_radio::{down, radio_jobs, up, Cancel, LinkRole, RadioFail, RadioJob, RadioJobs};

/// A device told to join that hosts instead brings up an access point nobody joins, and
/// the failure it produces is "nobody arrived", which reads as the other player's fault.
#[test]
fn each_role_asks_for_its_own_subcommand() {
    assert_eq!(LinkRole::Host.arg(), "host");
    assert_eq!(LinkRole::Join.arg(), "join");
}

/// Off the device the queue does nothing at all, which is still the one thing every caller
/// depends on: asking is never an error.
#[test]
fn asking_for_a_job_is_never_an_error() {
    let mut jobs = radio_jobs();
    jobs.ask(RadioJob::Warm);
    jobs.ask(RadioJob::Cool);
    jobs.ask(RadioJob::Down);
}

/// The radio step on a host build is instant because there is no driver to load.
#[test]
fn a_host_build_has_no_driver_left_to_load() {
    assert!(radio_jobs().warmed());
}

#[test]
fn a_host_build_brings_the_link_up_for_either_role() {
    let cancel = Cancel::new();
    assert_eq!(up(LinkRole::Host, &cancel), Ok(()));
    assert_eq!(up(LinkRole::Join, &cancel), Ok(()));
    down();
}

#[test]
fn a_cancel_is_seen_by_every_copy() {
    let cancel = Cancel::new();
    let seen = cancel.clone();
    assert!(!seen.is_cancelled());
    cancel.cancel();
    assert!(seen.is_cancelled());
}

#[test]
fn the_three_failures_are_told_apart() {
    assert_ne!(RadioFail::NoHost, RadioFail::Cancelled);
    assert_ne!(RadioFail::Radio("no ags-net".to_string()), RadioFail::NoHost);
}
