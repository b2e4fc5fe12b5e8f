//! Listening for connections: which are taken up, and when a relay stops.

use std::sync::Arc;

use tokio::sync::{OwnedSemaphorePermit, Semaphore};
use vstd::prelude::*;

use super::admission::{RefusalStage, SessionAdmission};
use super::policy::ListenerSecurityPolicy;
use crate::session::limits::{answered, ask_permit};

verus! {

/// A relay that listens.
#[derive(Debug)]
pub struct Listener {
    pub policy: ListenerSecurityPolicy,
    pub production: bool,
    /// The places for connections that wait to be admitted.
    pub pending: Arc<Semaphore>,
}

/// What happened to a relay that listens.
#[derive(Clone, Copy, Debug, PartialEq, Eq, Structural)]
pub enum ListenerEvent {
    /// A connection came.
    Arrived,
    /// The next connection could not be accepted.
    AcceptFailed,
    /// A connection was handled to its end, however it ended.
    Handled,
    /// A task of the relay's own ended.
    TaskEnded { failed: bool },
}

/// What a relay that listens does next.
#[derive(Debug)]
pub enum ListenerAction {
    /// Admit the connection beside the others, and listen on.
    Admit(SessionAdmission),
    /// Close the connection at once, and listen on.
    TurnAway(RefusalStage),
    /// Listen on.
    Listen,
    /// The relay is over.
    Stop,
}

impl Listener {
    /// What an event leads to, where `place` is what was answered to a
    /// connection that asked for a place.
    pub open spec fn does(
        self,
        event: ListenerEvent,
        place: Option<OwnedSemaphorePermit>,
        action: ListenerAction,
    ) -> bool {
        match event {
            ListenerEvent::Arrived => match place {
                Some(_) => {
                    &&& action matches ListenerAction::Admit(admission)
                    &&& admission.policy == self.policy
                    &&& admission.production == self.production
                    &&& admission.phase is AwaitingSetup
                    &&& admission.place == place
                },
                None => action == ListenerAction::TurnAway(RefusalStage::AdmissionCapacity),
            },
            ListenerEvent::AcceptFailed => action is Stop,
            ListenerEvent::Handled => action is Listen,
            ListenerEvent::TaskEnded { failed } => if failed {
                action is Stop
            } else {
                action is Listen
            },
        }
    }

    /// Takes what happened, where `place` is what was answered to a connection
    /// that asked for a place.
    pub fn step_with(&self, event: ListenerEvent, place: Option<OwnedSemaphorePermit>) -> (action:
        ListenerAction)
        ensures
            self.does(event, place, action),
    {
        match event {
            ListenerEvent::Arrived => match SessionAdmission::begin(
                place,
                self.policy,
                self.production,
            ) {
                Ok(admission) => ListenerAction::Admit(admission),
                Err(stage) => ListenerAction::TurnAway(stage),
            },
            ListenerEvent::AcceptFailed => ListenerAction::Stop,
            ListenerEvent::Handled => ListenerAction::Listen,
            ListenerEvent::TaskEnded { failed } => if failed {
                ListenerAction::Stop
            } else {
                ListenerAction::Listen
            },
        }
    }

    /// Takes what happened, and says what to do next. A connection that comes
    /// asks for a place among those that wait to be admitted.
    pub fn step(&self, event: ListenerEvent) -> (action: ListenerAction)
        ensures
            if event == ListenerEvent::Arrived {
                exists|place: Option<OwnedSemaphorePermit>| #[trigger]
                    answered(self.pending, place) && self.does(event, place, action)
            } else {
                self.does(event, None, action)
            },
    {
        if event == ListenerEvent::Arrived {
            let place = ask_permit(&self.pending);
            self.step_with(event, place)
        } else {
            self.step_with(event, None)
        }
    }
}

/// No connection ends the listening, whether it is admitted, turned away or
/// over.
pub proof fn connections_do_not_end_the_listening(
    listener: Listener,
    event: ListenerEvent,
    place: Option<OwnedSemaphorePermit>,
    action: ListenerAction,
)
    requires
        event == ListenerEvent::Arrived || event == ListenerEvent::Handled,
        listener.does(event, place, action),
    ensures
        !(action is Stop),
{
}

/// How a relay that stopped ends.
#[derive(Clone, Copy, Debug, PartialEq, Eq, Structural)]
pub enum RelayEnd {
    Clean,
    /// With what it stopped for.
    Stopped,
    /// With what went wrong while it shut down.
    ShutdownFailed,
}

/// How a relay ends: what it stopped for comes before what goes wrong while it
/// shuts down.
pub fn relay_end(stopped_by_error: bool, shutdown_failed: bool) -> (end: RelayEnd)
    ensures
        end == (if stopped_by_error {
            RelayEnd::Stopped
        } else if shutdown_failed {
            RelayEnd::ShutdownFailed
        } else {
            RelayEnd::Clean
        }),
{
    if stopped_by_error {
        RelayEnd::Stopped
    } else if shutdown_failed {
        RelayEnd::ShutdownFailed
    } else {
        RelayEnd::Clean
    }
}

} // verus!
