use slot::link_start::{
    classify, start_step, LinkFail, LinkProgress, LinkStep, Received, SocketError, StartAction, StartEvent, StartGate, LINK_PORT,
};

#[test]
fn the_socket_errors_become_three_sentences() {
    assert_eq!(classify(SocketError::Interrupted), LinkFail::Cancelled);
    assert_eq!(classify(SocketError::TimedOut), LinkFail::NobodyCame);
    assert_eq!(classify(SocketError::Other), LinkFail::PeerVanished);
    assert_eq!(LINK_PORT, 7211);
}

#[test]
fn nothing_comes_through_after_the_terminal_message() {
    let mut gate = StartGate::new();
    assert!(gate.poll::<u8>(Received::Empty).is_none());
    assert!(matches!(
        gate.poll::<u8>(Received::Message(LinkProgress::At(LinkStep::Radio))),
        Some(LinkProgress::At(LinkStep::Radio))
    ));
    assert!(matches!(gate.poll(Received::Message(LinkProgress::Ready(9u8))), Some(LinkProgress::Ready(9))));
    assert!(gate.poll::<u8>(Received::Disconnected).is_none());
}

#[test]
fn a_worker_that_vanished_is_a_fault() {
    let mut gate = StartGate::new();
    assert!(matches!(
        gate.poll::<u8>(Received::Disconnected),
        Some(LinkProgress::Failed(LinkFail::PeerVanished))
    ));
    assert!(gate.poll::<u8>(Received::Message(LinkProgress::Failed(LinkFail::Radio))).is_none());
}

#[test]
fn a_failed_start_takes_the_network_down_just_before_it_says_so() {
    assert_eq!(
        start_step(StartEvent::Radio(false)),
        vec![StartAction::RadioDown, StartAction::Fail(LinkFail::Radio)]
    );
    assert_eq!(
        start_step(StartEvent::Socket(Some(SocketError::TimedOut))),
        vec![StartAction::RadioDown, StartAction::Fail(LinkFail::NobodyCame)]
    );
    assert_eq!(start_step(StartEvent::Socket(None)), vec![StartAction::HandOver]);
    assert_eq!(
        start_step(StartEvent::Begun),
        vec![StartAction::Say(LinkStep::Radio), StartAction::BringRadioUp]
    );
}
