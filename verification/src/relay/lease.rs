//! The lease of a token: how long a session that was admitted by it may go on.

use vstd::prelude::*;

use super::policy::{AdmissionDecision, AdmissionError};

verus! {

/// How many nanoseconds a second has.
pub const NANOS_PER_SECOND: u128 = 1_000_000_000;

/// What a policy said when it was asked again: `None` is no answer in time.
pub open spec fn revalidation(answer: Option<Result<(), AdmissionError>>) -> Result<
    (),
    AdmissionError,
> {
    match answer {
        Some(Ok(())) => Ok(()),
        Some(Err(error)) => Err(error),
        None => Err(AdmissionError::PolicyDenied),
    }
}

/// What a policy that was asked again comes to.
pub fn revalidated(answer: Option<Result<(), AdmissionError>>) -> (result: Result<
    (),
    AdmissionError,
>)
    ensures
        result == revalidation(answer),
{
    match answer {
        Some(Ok(())) => Ok(()),
        Some(Err(error)) => Err(error),
        None => Err(AdmissionError::PolicyDenied),
    }
}

/// Where the watch over a lease stands.
#[derive(Clone, Copy, Debug, PartialEq, Eq, Structural)]
pub enum LeasePhase {
    /// The clock is read before a pause.
    Starting,
    /// The clock is read after a pause.
    Pausing,
    /// The policy is asked again.
    Asking,
    Lost,
}

/// What happened to the watch over a lease.
#[derive(Clone, Copy, Debug, PartialEq, Eq)]
pub enum LeaseEvent {
    /// The clock was read.
    Clock(u64),
    /// The policy answered, or did not in time.
    Answer(Option<Result<(), AdmissionError>>),
}

/// What is done next to watch a lease.
#[derive(Clone, Copy, Debug, PartialEq, Eq, Structural)]
pub enum LeaseAction {
    ReadClock,
    /// Pause for so many nanoseconds, and read the clock.
    Pause(u128),
    /// Ask the policy again.
    Revalidate,
    /// The lease is lost.
    End(AdmissionError),
}

/// The watch over the lease of a token.
#[derive(Clone, Copy, Debug, PartialEq, Eq, Structural)]
pub struct LeaseMonitor {
    pub expiry: Option<u64>,
    /// How long to pause between two questions, in nanoseconds.
    pub interval: u128,
    pub phase: LeasePhase,
}

impl LeaseMonitor {
    /// How long to pause: the interval, but never past the expiry.
    pub open spec fn pause(self, now: u64) -> u128 {
        let until_expiry = ((self.expiry->0 - now) * NANOS_PER_SECOND) as u128;
        if self.interval <= until_expiry {
            self.interval
        } else {
            until_expiry
        }
    }

    pub open spec fn lost(self, error: AdmissionError) -> (LeaseMonitor, LeaseAction) {
        (LeaseMonitor { phase: LeasePhase::Lost, ..self }, LeaseAction::End(error))
    }

    /// Whether the term has run out.
    pub open spec fn over(self, now: u64) -> bool {
        self.expiry is None || self.expiry->0 <= now
    }

    /// What an event leads to. The expiry is a hard deadline: it is looked at
    /// again after each pause, before the policy is asked.
    pub open spec fn after(self, event: LeaseEvent) -> (LeaseMonitor, LeaseAction) {
        match (self.phase, event) {
            (LeasePhase::Starting, LeaseEvent::Clock(now)) => if self.over(now) {
                self.lost(AdmissionError::PolicyDenied)
            } else {
                (
                    LeaseMonitor { phase: LeasePhase::Pausing, ..self },
                    LeaseAction::Pause(self.pause(now)),
                )
            },
            (LeasePhase::Pausing, LeaseEvent::Clock(now)) => if self.over(now) {
                self.lost(AdmissionError::PolicyDenied)
            } else {
                (LeaseMonitor { phase: LeasePhase::Asking, ..self }, LeaseAction::Revalidate)
            },
            (LeasePhase::Asking, LeaseEvent::Answer(answer)) => match revalidation(answer) {
                Ok(()) => (
                    LeaseMonitor { phase: LeasePhase::Starting, ..self },
                    LeaseAction::ReadClock,
                ),
                Err(error) => self.lost(error),
            },
            _ => self.lost(AdmissionError::PolicyDenied),
        }
    }

    /// A watch over the lease of a decision.
    pub fn new(decision: &AdmissionDecision, interval: u128) -> (monitor: Self)
        ensures
            monitor == (LeaseMonitor {
                expiry: decision@.claims.expires_at_unix_seconds,
                interval,
                phase: LeasePhase::Starting,
            }),
    {
        LeaseMonitor {
            expiry: decision.claims.expires_at_unix_seconds,
            interval,
            phase: LeasePhase::Starting,
        }
    }

    fn is_over(&self, now: u64) -> (over: bool)
        ensures
            over == self.over(now),
    {
        match self.expiry {
            Some(expiry) => expiry <= now,
            None => true,
        }
    }

    fn lose(&mut self, error: AdmissionError) -> (action: LeaseAction)
        ensures
            (*final(self), action) == old(self).lost(error),
    {
        self.phase = LeasePhase::Lost;
        LeaseAction::End(error)
    }

    /// Takes what happened, and says what to do next.
    pub fn step(&mut self, event: LeaseEvent) -> (action: LeaseAction)
        ensures
            (*final(self), action) == old(self).after(event),
    {
        match (self.phase, event) {
            (LeasePhase::Starting, LeaseEvent::Clock(now)) => {
                if self.is_over(now) {
                    return self.lose(AdmissionError::PolicyDenied);
                }
                let expiry: u64 = match self.expiry {
                    Some(expiry) => expiry,
                    None => now,
                };
                assert((expiry - now) * NANOS_PER_SECOND <= u128::MAX) by (nonlinear_arith)
                    requires
                        0 <= expiry - now <= u64::MAX,
                        NANOS_PER_SECOND == 1_000_000_000,
                ;
                let until_expiry: u128 = (expiry - now) as u128 * NANOS_PER_SECOND;
                let pause: u128 = if self.interval <= until_expiry {
                    self.interval
                } else {
                    until_expiry
                };
                self.phase = LeasePhase::Pausing;
                LeaseAction::Pause(pause)
            },
            (LeasePhase::Pausing, LeaseEvent::Clock(now)) => {
                if self.is_over(now) {
                    return self.lose(AdmissionError::PolicyDenied);
                }
                self.phase = LeasePhase::Asking;
                LeaseAction::Revalidate
            },
            (LeasePhase::Asking, LeaseEvent::Answer(answer)) => match revalidated(answer) {
                Ok(()) => {
                    self.phase = LeasePhase::Starting;
                    LeaseAction::ReadClock
                },
                Err(error) => self.lose(error),
            },
            _ => self.lose(AdmissionError::PolicyDenied),
        }
    }
}

/// A pause never lasts past the expiry.
pub proof fn pause_ends_by_the_expiry(monitor: LeaseMonitor, now: u64)
    ensures
        monitor.after(LeaseEvent::Clock(now)).1 matches LeaseAction::Pause(nanos) ==> {
            &&& monitor.expiry is Some
            &&& now * NANOS_PER_SECOND + nanos <= monitor.expiry->0 * NANOS_PER_SECOND
            &&& nanos <= monitor.interval
        },
{
    if !monitor.over(now) {
        let expiry = monitor.expiry->0;
        assert(0 <= (expiry - now) * NANOS_PER_SECOND <= u128::MAX) by (nonlinear_arith)
            requires
                0 <= expiry - now <= u64::MAX,
                NANOS_PER_SECOND == 1_000_000_000,
        ;
        assert(now * NANOS_PER_SECOND + (expiry - now) * NANOS_PER_SECOND == expiry
            * NANOS_PER_SECOND) by (nonlinear_arith);
    }
}

/// A policy is asked only while the term runs; at the very second of the
/// expiry the lease is lost without asking.
pub proof fn expired_lease_is_not_asked_for(monitor: LeaseMonitor, now: u64)
    ensures
        monitor.after(LeaseEvent::Clock(now)).1 == LeaseAction::Revalidate ==> !monitor.over(now),
        monitor.over(now) ==> monitor.after(LeaseEvent::Clock(now)).1 is End,
{
}

/// A lease that is lost stays lost.
pub proof fn lost_lease_stays_lost(monitor: LeaseMonitor, event: LeaseEvent)
    requires
        monitor.phase == LeasePhase::Lost,
    ensures
        monitor.after(event).0.phase == LeasePhase::Lost,
        monitor.after(event).1 is End,
{
}

/// Whether the claims of a token are still current, so that the policy is to
/// be asked before the session starts.
pub fn token_is_current(decision: &AdmissionDecision, now: u64) -> (result: Result<
    (),
    AdmissionError,
>)
    ensures
        match result {
            Ok(()) => !decision@.claims.expired(now),
            Err(error) => decision@.claims.expired(now) && error == AdmissionError::PolicyDenied,
        },
{
    match decision.claims.expires_at_unix_seconds {
        Some(expiry) => if expiry <= now {
            Err(AdmissionError::PolicyDenied)
        } else {
            Ok(())
        },
        None => Err(AdmissionError::PolicyDenied),
    }
}

} // verus!
