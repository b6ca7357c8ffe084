//! The life of one interactive session: locked until the passphrase is
//! verified, then unlocked for commands until it quits or is denied.
use vstd::prelude::*;

verus! {

/// Where a session stands.
#[derive(Debug, Clone, Copy, PartialEq, Eq, Structural)]
pub enum SessionState {
    Locked,
    Unlocked,
    Terminal,
}

/// A command of an unlocked session.
#[derive(Debug, Clone, Copy, PartialEq, Eq, Structural)]
pub enum Command {
    Add,
    View,
    Delete,
    ChangePassphrase,
    Quit,
}

/// What happens to a session.
#[derive(Debug, Clone, Copy, PartialEq, Eq, Structural)]
pub enum SessionEvent {
    /// The passphrase check finished, granting access or not.
    Verified(bool),
    /// A command was chosen.
    Chosen(Command),
}

/// The state a session moves to on `event`.
pub open spec fn next_state_spec(state: SessionState, event: SessionEvent) -> SessionState {
    match (state, event) {
        (SessionState::Locked, SessionEvent::Verified(true)) => SessionState::Unlocked,
        (SessionState::Locked, _) => SessionState::Terminal,
        (SessionState::Unlocked, SessionEvent::Chosen(Command::Quit)) => SessionState::Terminal,
        (SessionState::Unlocked, SessionEvent::Chosen(_)) => SessionState::Unlocked,
        (SessionState::Unlocked, SessionEvent::Verified(_)) => SessionState::Unlocked,
        (SessionState::Terminal, _) => SessionState::Terminal,
    }
}

/// Moves a session on `event`: a granted check unlocks it, anything else while
/// locked ends it; commands keep it unlocked until `Quit`; an ended session
/// stays ended.
pub fn next_state(state: SessionState, event: SessionEvent) -> (r: SessionState)
    ensures
        r == next_state_spec(state, event),
{
    match state {
        SessionState::Locked => match event {
            SessionEvent::Verified(true) => SessionState::Unlocked,
            _ => SessionState::Terminal,
        },
        SessionState::Unlocked => match event {
            SessionEvent::Chosen(Command::Quit) => SessionState::Terminal,
            _ => SessionState::Unlocked,
        },
        SessionState::Terminal => SessionState::Terminal,
    }
}

/// The command at position `index` of the menu, in the order Add, View,
/// Delete, ChangePassphrase, Quit.
pub open spec fn command_at_spec(index: usize) -> Option<Command> {
    if index == 0 {
        Some(Command::Add)
    } else if index == 1 {
        Some(Command::View)
    } else if index == 2 {
        Some(Command::Delete)
    } else if index == 3 {
        Some(Command::ChangePassphrase)
    } else if index == 4 {
        Some(Command::Quit)
    } else {
        None
    }
}

/// The command at position `index` of the menu; `None` past its end.
pub fn command_at(index: usize) -> (r: Option<Command>)
    ensures
        r == command_at_spec(index),
{
    if index == 0 {
        Some(Command::Add)
    } else if index == 1 {
        Some(Command::View)
    } else if index == 2 {
        Some(Command::Delete)
    } else if index == 3 {
        Some(Command::ChangePassphrase)
    } else if index == 4 {
        Some(Command::Quit)
    } else {
        None
    }
}

/// Each command returns an unlocked session to the unlocked state, but `Quit`,
/// which ends it; once ended, a session never resumes.
pub proof fn lemma_commands_reenter_unlocked(c: Command, e: SessionEvent)
    ensures
        c != Command::Quit ==> next_state_spec(SessionState::Unlocked, SessionEvent::Chosen(c))
            == SessionState::Unlocked,
        next_state_spec(SessionState::Unlocked, SessionEvent::Chosen(Command::Quit))
            == SessionState::Terminal,
        next_state_spec(SessionState::Terminal, e) == SessionState::Terminal,
{
}

} // verus!
