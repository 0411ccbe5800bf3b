//! The sidebar's message session: the background page sends one `Initial`
//! message with every tab, then a stream of changes to those tabs.

use vstd::prelude::*;

verus! {

/// The kind of a message from the background page. The payload (the tabs,
/// the changes) is carried by the caller; the session only reads the kind.
#[derive(Clone, Copy, Debug, PartialEq, Eq, Structural)]
pub enum MessageKind {
    Initial,
    TabInserted,
    TabRemoved,
    TabChanged,
    TabFocused,
    TabMoved,
}

/// Where the session stands.
#[derive(Clone, Copy, Debug, PartialEq, Eq, Structural)]
pub enum Phase {
    /// No `Initial` message has arrived yet.
    AwaitingInitial,
    /// The sidebar state exists and every message is applied to it.
    Running,
    /// A message arrived before the sidebar state existed; the message loop
    /// has thrown and nothing more is processed.
    Halted,
}

/// What the caller must do with the message it just handed over.
#[derive(Clone, Copy, Debug, PartialEq, Eq, Structural)]
pub enum Command {
    /// Build a fresh sidebar state from the tabs of the message and render it.
    Initialize,
    InsertTab,
    RemoveTab,
    ChangeTab,
    FocusTab,
    MoveTab,
    /// There is no sidebar state to apply the message to: throw.
    Throw,
    /// The loop has stopped; drop the message.
    Ignore,
}

/// The command that applies a message to an existing sidebar state.
pub open spec fn forwarded(kind: MessageKind) -> Command {
    match kind {
        MessageKind::Initial => Command::Initialize,
        MessageKind::TabInserted => Command::InsertTab,
        MessageKind::TabRemoved => Command::RemoveTab,
        MessageKind::TabChanged => Command::ChangeTab,
        MessageKind::TabFocused => Command::FocusTab,
        MessageKind::TabMoved => Command::MoveTab,
    }
}

/// The phase after `kind` arrives in `phase`.
pub open spec fn next_phase(phase: Phase, kind: MessageKind) -> Phase {
    match phase {
        Phase::Halted => Phase::Halted,
        _ => if kind == MessageKind::Initial {
            Phase::Running
        } else if phase == Phase::Running {
            Phase::Running
        } else {
            Phase::Halted
        },
    }
}

/// The command issued when `kind` arrives in `phase`.
pub open spec fn command_for(phase: Phase, kind: MessageKind) -> Command {
    match phase {
        Phase::Running => forwarded(kind),
        Phase::AwaitingInitial => if kind == MessageKind::Initial {
            Command::Initialize
        } else {
            Command::Throw
        },
        Phase::Halted => Command::Ignore,
    }
}

/// The phase after a whole sequence of messages.
pub open spec fn run(phase: Phase, kinds: Seq<MessageKind>) -> Phase
    decreases kinds.len(),
{
    if kinds.len() == 0 {
        phase
    } else {
        run(next_phase(phase, kinds[0]), kinds.drop_first())
    }
}

/// The commands issued for a whole sequence of messages, in order.
pub open spec fn commands(phase: Phase, kinds: Seq<MessageKind>) -> Seq<Command>
    decreases kinds.len(),
{
    if kinds.len() == 0 {
        Seq::empty()
    } else {
        seq![command_for(phase, kinds[0])] + commands(
            next_phase(phase, kinds[0]),
            kinds.drop_first(),
        )
    }
}

/// The message session of one sidebar page.
pub struct Session {
    phase: Phase,
}

impl Session {
    pub closed spec fn spec_phase(&self) -> Phase {
        self.phase
    }

    /// A session that waits for the `Initial` message.
    pub fn new() -> (s: Session)
        ensures
            s.spec_phase() == Phase::AwaitingInitial,
    {
        Session { phase: Phase::AwaitingInitial }
    }

    /// Where the session stands.
    pub fn phase(&self) -> (p: Phase)
        ensures
            p == self.spec_phase(),
    {
        self.phase
    }

    /// Takes the next message and says what to do with it.
    pub fn receive(&mut self, kind: MessageKind) -> (c: Command)
        ensures
            c == command_for(old(self).spec_phase(), kind),
            final(self).spec_phase() == next_phase(old(self).spec_phase(), kind),
    {
        let c = match self.phase {
            Phase::Running => match kind {
                MessageKind::Initial => Command::Initialize,
                MessageKind::TabInserted => Command::InsertTab,
                MessageKind::TabRemoved => Command::RemoveTab,
                MessageKind::TabChanged => Command::ChangeTab,
                MessageKind::TabFocused => Command::FocusTab,
                MessageKind::TabMoved => Command::MoveTab,
            },
            Phase::AwaitingInitial => match kind {
                MessageKind::Initial => Command::Initialize,
                _ => Command::Throw,
            },
            Phase::Halted => Command::Ignore,
        };
        self.phase = match self.phase {
            Phase::Halted => Phase::Halted,
            Phase::Running => Phase::Running,
            Phase::AwaitingInitial => match kind {
                MessageKind::Initial => Phase::Running,
                _ => Phase::Halted,
            },
        };
        c
    }
}

/// Each message kind is applied by its own operation: an `Initial` rebuilds
/// the sidebar state, each tab message updates the tab it names, and a
/// forwarded message is never dropped nor refused.
pub proof fn forwarded_law(a: MessageKind, b: MessageKind)
    ensures
        forwarded(MessageKind::Initial) == Command::Initialize,
        forwarded(MessageKind::TabInserted) == Command::InsertTab,
        forwarded(MessageKind::TabRemoved) == Command::RemoveTab,
        forwarded(MessageKind::TabChanged) == Command::ChangeTab,
        forwarded(MessageKind::TabFocused) == Command::FocusTab,
        forwarded(MessageKind::TabMoved) == Command::MoveTab,
        forwarded(a) != Command::Throw && forwarded(a) != Command::Ignore,
        a != b ==> forwarded(a) != forwarded(b),
        command_for(Phase::AwaitingInitial, a) == (if a == MessageKind::Initial {
            Command::Initialize
        } else {
            Command::Throw
        }),
        command_for(Phase::Halted, a) == Command::Ignore,
{
}

/// Once a message has arrived before the first `Initial`, the session stays
/// halted and ignores everything that follows.
pub proof fn halted_is_final(kinds: Seq<MessageKind>)
    ensures
        run(Phase::Halted, kinds) == Phase::Halted,
        forall|i: int|
            0 <= i < kinds.len() ==> #[trigger] commands(Phase::Halted, kinds)[i]
                == Command::Ignore,
        commands(Phase::Halted, kinds).len() == kinds.len(),
    decreases kinds.len(),
{
    if kinds.len() > 0 {
        halted_is_final(kinds.drop_first());
        let rest = commands(Phase::Halted, kinds.drop_first());
        assert forall|i: int| 0 <= i < kinds.len() implies #[trigger] commands(
            Phase::Halted,
            kinds,
        )[i] == Command::Ignore by {
            if i > 0 {
                assert(commands(Phase::Halted, kinds)[i] == rest[i - 1]);
            }
        }
    }
}

/// Once the sidebar state exists, the session keeps running and every
/// message, a later `Initial` included, is applied to the sidebar state.
pub proof fn running_forwards_every_message(kinds: Seq<MessageKind>)
    ensures
        run(Phase::Running, kinds) == Phase::Running,
        commands(Phase::Running, kinds).len() == kinds.len(),
        forall|i: int|
            0 <= i < kinds.len() ==> #[trigger] commands(Phase::Running, kinds)[i]
                == forwarded(kinds[i]),
    decreases kinds.len(),
{
    if kinds.len() > 0 {
        running_forwards_every_message(kinds.drop_first());
        let rest = commands(Phase::Running, kinds.drop_first());
        assert forall|i: int| 0 <= i < kinds.len() implies #[trigger] commands(
            Phase::Running,
            kinds,
        )[i] == forwarded(kinds[i]) by {
            if i > 0 {
                assert(commands(Phase::Running, kinds)[i] == rest[i - 1]);
                assert(kinds.drop_first()[i - 1] == kinds[i]);
            }
        }
    }
}

/// The first message decides the session: an `Initial` first message starts
/// it for good and every message is applied; any other first message makes
/// the loop throw, and nothing after it is applied.
pub proof fn first_message_decides(kinds: Seq<MessageKind>)
    requires
        kinds.len() > 0,
    ensures
        kinds[0] == MessageKind::Initial ==> {
            &&& run(Phase::AwaitingInitial, kinds) == Phase::Running
            &&& forall|i: int|
                0 <= i < kinds.len() ==> #[trigger] commands(Phase::AwaitingInitial, kinds)[i]
                    == forwarded(kinds[i])
        },
        kinds[0] != MessageKind::Initial ==> {
            &&& run(Phase::AwaitingInitial, kinds) == Phase::Halted
            &&& commands(Phase::AwaitingInitial, kinds)[0] == Command::Throw
            &&& forall|i: int|
                1 <= i < kinds.len() ==> #[trigger] commands(Phase::AwaitingInitial, kinds)[i]
                    == Command::Ignore
        },
        commands(Phase::AwaitingInitial, kinds).len() == kinds.len(),
{
    let rest = kinds.drop_first();
    let all = commands(Phase::AwaitingInitial, kinds);
    if kinds[0] == MessageKind::Initial {
        running_forwards_every_message(rest);
        assert forall|i: int| 0 <= i < kinds.len() implies #[trigger] all[i] == forwarded(
            kinds[i],
        ) by {
            if i > 0 {
                assert(all[i] == commands(Phase::Running, rest)[i - 1]);
                assert(rest[i - 1] == kinds[i]);
            }
        }
    } else {
        halted_is_final(rest);
        assert forall|i: int| 1 <= i < kinds.len() implies #[trigger] all[i]
            == Command::Ignore by {
            assert(all[i] == commands(Phase::Halted, rest)[i - 1]);
        }
    }
}

} // verus!
