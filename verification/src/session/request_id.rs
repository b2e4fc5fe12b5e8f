//! Request IDs.

use std::collections::HashSet;

use vstd::prelude::*;

use super::error::{SessionError, SessionFault};

verus! {

/// The request IDs of a session. The side that opened the connection uses the
/// even numbers and the other side the odd ones, so the two never use the
/// same.
#[derive(Debug)]
pub struct RequestId {
    next: Option<u64>,
    first_incoming: u64,
    used: HashSet<u64>,
}

impl RequestId {
    /// The ID that this endpoint uses next, if any is left.
    pub closed spec fn upcoming(self) -> Option<u64> {
        self.next
    }

    /// The first ID that the peer may use.
    pub closed spec fn peer_first(self) -> u64 {
        self.first_incoming
    }

    /// The IDs that the peer has used.
    pub closed spec fn peer_used(self) -> Set<u64> {
        self.used@
    }

    /// Whether the peer may use an ID: it is one of its own, and new.
    pub open spec fn admits(self, id: u64) -> bool {
        id >= self.peer_first() && id % 2 == self.peer_first() % 2 && !self.peer_used().contains(id)
    }

    /// Whether the peer may use the ID of a message, where it has one.
    pub open spec fn admits_any(self, id: Option<u64>) -> bool {
        match id {
            Some(id) => self.admits(id),
            None => true,
        }
    }

    /// Whether the peer used the ID of a message, where it has one that is in
    /// order.
    pub open spec fn consumed(before: RequestId, after: RequestId, id: Option<u64>) -> bool {
        &&& after.upcoming() == before.upcoming()
        &&& after.peer_first() == before.peer_first()
        &&& after.peer_used() == (match id {
            Some(id) => if before.admits(id) {
                before.peer_used().insert(id)
            } else {
                before.peer_used()
            },
            None => before.peer_used(),
        })
    }

    /// The IDs of a client before any was used: it uses the even ones.
    pub open spec fn starts_as_client(self) -> bool {
        &&& self.upcoming() == Some(0u64)
        &&& self.peer_first() == 1
        &&& self.peer_used() == Set::<u64>::empty()
    }

    /// The IDs of a server before any was used: it uses the odd ones.
    pub open spec fn starts_as_server(self) -> bool {
        &&& self.upcoming() == Some(1u64)
        &&& self.peer_first() == 0
        &&& self.peer_used() == Set::<u64>::empty()
    }

    pub fn new(first_outgoing: u64, first_incoming: u64) -> (ids: Self)
        ensures
            ids.upcoming() == Some(first_outgoing),
            ids.peer_first() == first_incoming,
            ids.peer_used() == Set::<u64>::empty(),
    {
        broadcast use vstd::std_specs::hash::group_hash_axioms;

        RequestId { next: Some(first_outgoing), first_incoming, used: HashSet::new() }
    }

    /// The IDs of a client, whose peer is a server.
    pub fn client() -> (ids: Self)
        ensures
            ids.starts_as_client(),
    {
        RequestId::new(0, 1)
    }

    /// The IDs of a server, whose peer is a client.
    pub fn server() -> (ids: Self)
        ensures
            ids.starts_as_server(),
    {
        RequestId::new(1, 0)
    }

    /// Whether two sets of IDs are those of the two ends of one session: what
    /// either gives out next is one that the other admits.
    pub open spec fn agrees_with(self, other: RequestId) -> bool {
        self.upcoming() matches Some(id) ==> other.admits(id) && forall|used: u64| #[trigger]
            other.peer_used().contains(used) ==> used < id
    }

    /// Whether an ID was given out, as long as one was left.
    pub open spec fn gave_out(before: RequestId, after: RequestId) -> bool {
        &&& after.peer_first() == before.peer_first()
        &&& after.peer_used() == before.peer_used()
        &&& after.upcoming() == (match before.upcoming() {
            Some(id) => following(id),
            None => None,
        })
    }

    /// Gives out an ID.
    pub fn allocate(&mut self) -> (result: Result<u64, SessionError>)
        ensures
            RequestId::gave_out(*old(self), *final(self)),
            match old(self).upcoming() {
                Some(id) => result == Ok::<u64, SessionError>(id),
                None => result matches Err(error) && error@ == SessionFault::InvalidRequestId,
            },
    {
        match self.next {
            Some(id) => {
                self.next = id.checked_add(2);
                Ok(id)
            },
            None => Err(SessionError::InvalidRequestId),
        }
    }

    /// Takes an ID that the peer uses.
    pub fn validate_incoming(&mut self, id: u64) -> (result: Result<(), SessionError>)
        ensures
            final(self).upcoming() == old(self).upcoming(),
            final(self).peer_first() == old(self).peer_first(),
            match result {
                Ok(()) => {
                    &&& old(self).admits(id)
                    &&& final(self).peer_used() == old(self).peer_used().insert(id)
                },
                Err(error) => {
                    &&& !old(self).admits(id)
                    &&& error@ == SessionFault::InvalidRequestId
                    &&& final(self).peer_used() == old(self).peer_used()
                },
            },
    {
        broadcast use vstd::std_specs::hash::group_hash_axioms;

        if id < self.first_incoming || id % 2 != self.first_incoming % 2 || self.used.contains(
            &id,
        ) {
            return Err(SessionError::InvalidRequestId);
        }
        self.used.insert(id);
        Ok(())
    }

    /// Takes the ID of a message, where it has one.
    pub fn consume(&mut self, id: Option<u64>) -> (result: Result<(), SessionError>)
        ensures
            RequestId::consumed(*old(self), *final(self), id),
            match result {
                Ok(()) => old(self).admits_any(id),
                Err(error) => {
                    &&& !old(self).admits_any(id)
                    &&& error@ == SessionFault::InvalidRequestId
                },
            },
    {
        match id {
            Some(id) => self.validate_incoming(id),
            None => Ok(()),
        }
    }
}

/// The ID behind an ID of the same endpoint.
pub open spec fn following(id: u64) -> Option<u64> {
    if id + 2 <= u64::MAX {
        Some((id + 2) as u64)
    } else {
        None
    }
}

/// The IDs of one endpoint keep their parity and grow.
pub proof fn ids_keep_parity(id: u64)
    ensures
        following(id) matches Some(next) ==> next > id && next % 2 == id % 2,
{
}

/// A client and a server that have just met agree.
pub proof fn fresh_ends_agree(client: RequestId, server: RequestId)
    requires
        client.starts_as_client(),
        server.starts_as_server(),
    ensures
        client.agrees_with(server),
        server.agrees_with(client),
{
}

/// As long as an endpoint takes the IDs that its peer gives out, in any number,
/// it admits the next one too.
pub proof fn own_ids_are_admitted(
    own: RequestId,
    own_after: RequestId,
    peer: RequestId,
    peer_after: RequestId,
)
    requires
        own.agrees_with(peer),
        own.upcoming() is Some,
        RequestId::gave_out(own, own_after),
        RequestId::consumed(peer, peer_after, own.upcoming()),
    ensures
        own_after.agrees_with(peer_after),
{
}

/// Two endpoints that start with different parity never use the same ID.
pub proof fn endpoints_never_collide(ids: RequestId, own: u64, peer: u64)
    requires
        own % 2 != ids.peer_first() % 2,
        ids.admits(peer),
    ensures
        own != peer,
{
}

} // verus!
