//! Punching a UDP hole to a peer: send a punch, then listen for the peer a
//! few times with a pause between, and start over a few times before giving
//! up. The sockets and the pauses are the caller's.
use vstd::prelude::*;

verus! {

/// How many punches are sent before giving up.
pub const PUNCH_ROUNDS: u32 = 5;

/// How many times the socket is read after each punch.
pub const POLLS_PER_ROUND: u32 = 5;

/// Where a hole punch stands: the punch being answered and the read after it.
pub struct HolePunch {
    round: u32,
    poll: u32,
}

/// What to do next.
#[derive(Debug, Clone, Copy, PartialEq, Eq)]
pub enum PunchAction {
    /// Send a punch to the peer.
    SendPunch,
    /// Try to read a datagram without waiting.
    TryReceive,
    /// Wait a second.
    Sleep,
    /// The peer answered: the hole is open.
    Punched,
    /// Every punch went unanswered.
    TimedOut,
}

/// What came of the last action.
#[derive(Debug, Clone, Copy)]
pub enum PunchEvent {
    /// The punch went out.
    Sent,
    /// A datagram arrived; whether it came from the peer.
    Received { from_peer: bool },
    /// Nothing had arrived.
    NothingReceived,
    /// The pause is over.
    Slept,
}

impl HolePunch {
    /// The punch being answered, counting from 0.
    pub closed spec fn spec_round(&self) -> u32 {
        self.round
    }

    /// The read after the punch, counting from 0.
    pub closed spec fn spec_poll(&self) -> u32 {
        self.poll
    }

    /// A punch in progress never counts past its limits.
    pub open spec fn wf(&self) -> bool {
        self.spec_round() < PUNCH_ROUNDS && self.spec_poll() < POLLS_PER_ROUND
    }

    /// A hole punch that starts by sending its first punch.
    pub fn start() -> (r: (HolePunch, PunchAction))
        ensures
            r.0.wf(),
            r.0.spec_round() == 0,
            r.0.spec_poll() == 0,
            r.1 == PunchAction::SendPunch,
    {
        (HolePunch { round: 0, poll: 0 }, PunchAction::SendPunch)
    }

    /// The next action after `event`. A punch that went out is followed by a
    /// read; a datagram from the peer ends it; anything else is followed by a
    /// pause; after the pause comes the next read, or after the last read of
    /// a round the next punch, or after the last round the end.
    pub fn step(&mut self, event: PunchEvent) -> (r: PunchAction)
        requires
            old(self).wf(),
        ensures
            event is Sent ==> r == PunchAction::TryReceive && *final(self) == *old(self),
            event matches PunchEvent::Received { from_peer } && from_peer ==> r == PunchAction::Punched
                && *final(self) == *old(self),
            (event matches PunchEvent::Received { from_peer } && !from_peer) || event is NothingReceived
                ==> r == PunchAction::Sleep && *final(self) == *old(self),
            event is Slept && old(self).spec_poll() + 1 < POLLS_PER_ROUND ==> r == PunchAction::TryReceive
                && final(self).spec_round() == old(self).spec_round() && final(self).spec_poll()
                == old(self).spec_poll() + 1,
            event is Slept && old(self).spec_poll() + 1 == POLLS_PER_ROUND && old(self).spec_round() + 1
                < PUNCH_ROUNDS ==> r == PunchAction::SendPunch && final(self).spec_round() == old(
                self,
            ).spec_round() + 1 && final(self).spec_poll() == 0,
            event is Slept && old(self).spec_poll() + 1 == POLLS_PER_ROUND && old(self).spec_round() + 1
                == PUNCH_ROUNDS ==> r == PunchAction::TimedOut,
            r != PunchAction::TimedOut ==> final(self).wf(),
    {
        match event {
            PunchEvent::Sent => PunchAction::TryReceive,
            PunchEvent::Received { from_peer } => if from_peer {
                PunchAction::Punched
            } else {
                PunchAction::Sleep
            },
            PunchEvent::NothingReceived => PunchAction::Sleep,
            PunchEvent::Slept => {
                if self.poll + 1 < POLLS_PER_ROUND {
                    self.poll = self.poll + 1;
                    PunchAction::TryReceive
                } else if self.round + 1 < PUNCH_ROUNDS {
                    self.round = self.round + 1;
                    self.poll = 0;
                    PunchAction::SendPunch
                } else {
                    PunchAction::TimedOut
                }
            },
        }
    }
}

} // verus!
