use sidebar::session::{Command, MessageKind, Phase, Session};

#[test]
fn initial_then_changes_are_forwarded() {
    let mut s = Session::new();
    assert_eq!(s.phase(), Phase::AwaitingInitial);
    assert_eq!(s.receive(MessageKind::Initial), Command::Initialize);
    assert_eq!(s.phase(), Phase::Running);
    assert_eq!(s.receive(MessageKind::TabInserted), Command::InsertTab);
    assert_eq!(s.receive(MessageKind::TabRemoved), Command::RemoveTab);
    assert_eq!(s.receive(MessageKind::TabChanged), Command::ChangeTab);
    assert_eq!(s.receive(MessageKind::TabFocused), Command::FocusTab);
    assert_eq!(s.receive(MessageKind::TabMoved), Command::MoveTab);
    assert_eq!(s.phase(), Phase::Running);
}

#[test]
fn second_initial_rebuilds_the_state() {
    let mut s = Session::new();
    s.receive(MessageKind::Initial);
    assert_eq!(s.receive(MessageKind::Initial), Command::Initialize);
    assert_eq!(s.phase(), Phase::Running);
}

#[test]
fn change_before_initial_throws_and_halts() {
    let mut s = Session::new();
    assert_eq!(s.receive(MessageKind::TabRemoved), Command::Throw);
    assert_eq!(s.phase(), Phase::Halted);
    assert_eq!(s.receive(MessageKind::Initial), Command::Ignore);
    assert_eq!(s.receive(MessageKind::TabMoved), Command::Ignore);
    assert_eq!(s.phase(), Phase::Halted);
}

#[test]
fn every_kind_before_initial_throws() {
    for kind in [
        MessageKind::TabInserted,
        MessageKind::TabRemoved,
        MessageKind::TabChanged,
        MessageKind::TabFocused,
        MessageKind::TabMoved,
    ] {
        let mut s = Session::new();
        assert_eq!(s.receive(kind), Command::Throw);
        assert_eq!(s.phase(), Phase::Halted);
    }
}
