//! The game-session handoff protocol: the state machine that saves the
//! running game, quits its emulator, durably writes the session record for
//! the next game, and only then lets the process be replaced.
//!
//! The machine decides; the surrounding process performs. Each step hands
//! back an action (send a control request, wait a settle delay, write the
//! record), and the next event reports how it went. Control-channel
//! timeouts never stall the handoff: the user asked to switch now, so the
//! machine proceeds after logging. A failed record write, by contrast,
//! aborts the handoff before the point of no return — the process is
//! never replaced without a durable record of what to resume.

use vstd::prelude::*;

use crate::session::{GameInfo, LaunchPlan};

verus! {

/// The states of one handoff.
#[derive(Debug, Clone, Copy, PartialEq, Eq, Structural)]
pub enum HandoffState {
    /// No handoff is running.
    Idle,
    /// A save-state request went to the current emulator; waiting out the
    /// settle delay.
    SavingCurrent,
    /// A quit request went to the current emulator; waiting for it to
    /// exit.
    QuittingCurrent,
    /// The session record of the target is being written to the
    /// well-known path.
    PersistingNext,
    /// The record is durable and the process may be replaced. Terminal.
    HandoffComplete,
    /// The record could not be written; the handoff stopped before the
    /// process was touched. Terminal.
    Aborted,
}

/// What the surrounding process reports back after performing the action
/// of the current state.
#[derive(Debug, Clone, Copy, PartialEq, Eq, Structural)]
pub enum HandoffEvent {
    /// The save request was sent and the settle delay has passed.
    SaveSettled,
    /// The save request timed out; logged and tolerated.
    SaveTimedOut,
    /// The quit request was sent and the exit delay has passed.
    QuitSettled,
    /// The quit request timed out; logged and tolerated.
    QuitTimedOut,
    /// The session record was durably written.
    PersistOk,
    /// The session record could not be written.
    PersistFailed,
}

/// What the surrounding process must do next.
#[derive(Debug, PartialEq, Eq)]
pub enum HandoffAction {
    /// Send a save-state request for the given slot to the current
    /// emulator, then wait the fixed settle delay.
    RequestSave(i8),
    /// Send a quit request to the current emulator, then wait the fixed
    /// exit delay.
    RequestQuit,
    /// Write the given session record to the well-known path.
    PersistRecord(GameInfo),
    /// Replace the process image with the given launch plan (or spawn it
    /// and exit); after this, at most one emulator runs and the record on
    /// disk names it.
    Replace(LaunchPlan),
    /// Surface the failure to the user and keep the current session.
    Abort,
}

/// One game-session handoff from the current session to a target.
#[derive(Debug)]
pub struct HandoffMachine {
    pub state: HandoffState,
    /// Whether the current emulator can be asked to save and quit.
    pub current_has_menu: bool,
    /// The save-state slot used for the best-effort save.
    pub save_slot: i8,
    /// The session the device switches to.
    pub target: GameInfo,
    /// Model of the record file at the well-known path: what was last
    /// durably written there during this handoff. The file holds one
    /// record; a write replaces it whole.
    pub persisted: Option<GameInfo>,
}

impl HandoffMachine {
    /// The record on disk is the target's own.
    pub open spec fn persisted_matches_target(&self) -> bool {
        self.persisted matches Some(r) && r.agrees(self.target)
    }

    /// The machine never completes without the target's record on disk:
    /// its path, core and launch command are the target's own.
    pub open spec fn inv(&self) -> bool {
        &&& self.state is HandoffComplete ==> self.persisted_matches_target()
        &&& self.state is PersistingNext ==> self.persisted is None
        &&& self.state is Idle ==> self.persisted is None
        &&& self.state is SavingCurrent ==> self.persisted is None
        &&& self.state is QuittingCurrent ==> self.persisted is None
    }

    /// A handoff, not yet started, toward `target`.
    pub fn new(current_has_menu: bool, save_slot: i8, target: GameInfo) -> (m: HandoffMachine)
        ensures
            m.inv(),
            m.state is Idle,
            m.current_has_menu == current_has_menu,
            m.save_slot == save_slot,
            m.target == target,
            m.persisted is None,
    {
        HandoffMachine {
            state: HandoffState::Idle,
            current_has_menu,
            save_slot,
            target,
            persisted: None,
        }
    }

    /// Starts the handoff. An emulator with a menu is asked to save first;
    /// one without cannot be asked, so the save is skipped and the quit
    /// goes out at once.
    pub fn start(&mut self) -> (action: HandoffAction)
        requires
            old(self).inv(),
            old(self).state is Idle,
        ensures
            final(self).inv(),
            final(self).target == old(self).target,
            final(self).persisted is None,
            old(self).current_has_menu ==> final(self).state is SavingCurrent && action
                == HandoffAction::RequestSave(old(self).save_slot),
            !old(self).current_has_menu ==> final(self).state is QuittingCurrent && action
                == HandoffAction::RequestQuit,
    {
        if self.current_has_menu {
            self.state = HandoffState::SavingCurrent;
            HandoffAction::RequestSave(self.save_slot)
        } else {
            self.state = HandoffState::QuittingCurrent;
            HandoffAction::RequestQuit
        }
    }

    /// Whether an event is the report for the current state's action.
    pub open spec fn accepts(&self, event: HandoffEvent) -> bool {
        match self.state {
            HandoffState::SavingCurrent => event is SaveSettled || event is SaveTimedOut,
            HandoffState::QuittingCurrent => event is QuitSettled || event is QuitTimedOut,
            HandoffState::PersistingNext => event is PersistOk || event is PersistFailed,
            _ => false,
        }
    }

    /// Feeds the report of the last action and returns the next one.
    /// Save and quit outcomes are not inspected: timed out or settled, the
    /// handoff proceeds, because progress outranks the best-effort save.
    /// Only the record write decides between completing and aborting.
    pub fn step(&mut self, event: HandoffEvent) -> (action: HandoffAction)
        requires
            old(self).inv(),
            old(self).accepts(event),
        ensures
            final(self).inv(),
            final(self).target == old(self).target,
            final(self).current_has_menu == old(self).current_has_menu,
            old(self).state is SavingCurrent ==> final(self).state is QuittingCurrent && action
                == HandoffAction::RequestQuit && final(self).persisted == old(self).persisted,
            old(self).state is QuittingCurrent ==> (final(self).state is PersistingNext && (
            action matches HandoffAction::PersistRecord(r) && r.agrees(old(self).target))
                && final(self).persisted is None),
            old(self).state is PersistingNext && event is PersistOk ==> (final(self).state
                is HandoffComplete && (action matches HandoffAction::Replace(p) && p.command
                == old(self).target.command && p.args@ == old(self).target.args@)
                && final(self).persisted_matches_target()),
            old(self).state is PersistingNext && event is PersistFailed ==> (final(self).state
                is Aborted && action == HandoffAction::Abort && final(self).persisted is None),
    {
        match self.state {
            HandoffState::SavingCurrent => {
                // Settled or timed out: either way, move on. Losing the
                // save state is accepted rather than stalling the user.
                self.state = HandoffState::QuittingCurrent;
                HandoffAction::RequestQuit
            },
            HandoffState::QuittingCurrent => {
                self.state = HandoffState::PersistingNext;
                HandoffAction::PersistRecord(self.target.clone())
            },
            HandoffState::PersistingNext => {
                match event {
                    HandoffEvent::PersistOk => {
                        // The write is durable: record what the file now
                        // holds, then hand over the device.
                        self.persisted = Some(self.target.clone());
                        self.state = HandoffState::HandoffComplete;
                        HandoffAction::Replace(self.target.launch_plan())
                    },
                    _ => {
                        self.state = HandoffState::Aborted;
                        HandoffAction::Abort
                    },
                }
            },
            _ => {
                // Unreachable: `accepts` admits no event here.
                proof {
                    assert(false);
                }
                HandoffAction::Abort
            },
        }
    }
}

/// The handoff guarantee: however the control-channel calls went — saves
/// or quits timed out or settled — a completed handoff leaves on disk
/// exactly the one record whose path, core and launch command are the
/// target's.
pub proof fn lemma_handoff_complete_matches_target(m: HandoffMachine)
    requires
        m.inv(),
        m.state is HandoffComplete,
    ensures
        m.persisted matches Some(r) && r.path == m.target.path && r.core == m.target.core
            && r.command == m.target.command && r.args@ == m.target.args@,
{
}

} // verus!
