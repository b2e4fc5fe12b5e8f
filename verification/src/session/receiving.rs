//! Receiving a subgroup, object by object. The caller reads the stream; which
//! object comes next, and how much of it is left, is decided here.

use bytes::Bytes;
use vstd::prelude::*;

use super::error::{SessionError, SessionFault};
use super::subscriber::{Subscriber, SubscriberView};
use crate::coding::buffer::bytes_contents;
use crate::coding::kvp::Pair;
use crate::data::{ExtensionHeaders, ObjectStatus, SubgroupHeader, SubgroupObject};
use crate::serve::{Subgroup, SubgroupWriter};

verus! {

/// A subgroup that is being received.
#[derive(Clone, Copy, Debug, PartialEq, Eq, Structural)]
pub struct SubgroupReceiver {
    pub subscribe_id: u64,
    pub header: SubgroupHeader,
    /// The object that came last.
    pub previous_object_id: Option<u64>,
    /// The subgroup of the track, once it is open.
    pub writer: Option<SubgroupWriter>,
    /// How much of the current object's payload is still to come.
    pub remaining: usize,
}

/// An object whose payload comes next.
#[derive(Debug)]
pub struct IncomingObject {
    pub object_id: u64,
    pub subgroup: Subgroup,
    pub size: usize,
    pub extension_headers: Option<ExtensionHeaders>,
    /// What of the payload has come, piece by piece.
    pub chunks: Vec<Bytes>,
}

/// The bytes of pieces, one behind the other.
pub open spec fn pieced_together(chunks: Seq<Bytes>) -> Seq<u8>
    decreases chunks.len(),
{
    if chunks.len() == 0 {
        Seq::empty()
    } else {
        pieced_together(chunks.drop_last()) + bytes_contents(chunks.last())
    }
}

/// The model of an [`IncomingObject`].
pub struct IncomingView {
    pub object_id: u64,
    pub subgroup: Subgroup,
    pub size: usize,
    pub extension_headers: Option<Seq<Pair>>,
    pub payload: Seq<u8>,
}

/// The model of an object's extension headers.
pub open spec fn headers_view(headers: Option<ExtensionHeaders>) -> Option<Seq<Pair>> {
    match headers {
        Some(headers) => Some(headers@),
        None => None,
    }
}

impl View for IncomingObject {
    type V = IncomingView;

    open spec fn view(&self) -> IncomingView {
        IncomingView {
            object_id: self.object_id,
            subgroup: self.subgroup,
            size: self.size,
            extension_headers: headers_view(self.extension_headers),
            payload: pieced_together(self.chunks@),
        }
    }
}

/// The model of what an object came to.
pub open spec fn incoming_outcome(result: Result<IncomingObject, SessionError>) -> Result<
    IncomingView,
    SessionFault,
> {
    match result {
        Ok(object) => Ok(object@),
        Err(error) => Err(error@),
    }
}

/// What a step leads to.
pub struct ReceiveStep {
    pub receiver: SubgroupReceiver,
    pub subscriber: SubscriberView,
    pub outcome: Result<IncomingView, SessionFault>,
}

impl SubgroupReceiver {
    /// The ID of the next object: the first is told as it is, each further one
    /// by the gap to the one before. There is none past the largest ID.
    pub open spec fn next_object_id(self, delta: u64) -> Option<u64> {
        match self.previous_object_id {
            None => Some(delta),
            Some(previous) => if previous + delta + 1 <= u64::MAX {
                Some((previous + delta + 1) as u64)
            } else {
                None
            },
        }
    }

    /// The header under which the subgroup is opened. Where the first object
    /// names the subgroup, its ID is filled in.
    pub open spec fn opening_header(self, object_id: u64) -> SubgroupHeader {
        if self.header.header_type.named_by_first_object() {
            SubgroupHeader { subgroup_id: Some(object_id), ..self.header }
        } else {
            self.header
        }
    }

    /// What the header of an object leads to.
    pub open spec fn arrived(self, object: SubgroupObject, subscriber: SubscriberView) -> ReceiveStep {
        match self.next_object_id(object.object_id_delta) {
            None => ReceiveStep {
                receiver: self,
                subscriber,
                outcome: Err(SessionFault::ProtocolViolation("subgroup object id overflow"@)),
            },
            Some(object_id) => {
                let counted = SubgroupReceiver { previous_object_id: Some(object_id), ..self };
                let marked = object.status is Some && object.status->0
                    != ObjectStatus::NormalObject;
                let extended = object.extension_headers is Some
                    && object.extension_headers->0@.len() > 0;
                if marked && extended {
                    ReceiveStep {
                        receiver: counted,
                        subscriber,
                        outcome: Err(
                            SessionFault::ProtocolViolation(
                                "non-normal object status with extension headers"@,
                            ),
                        ),
                    }
                } else {
                    let opening = self.opening_header(object_id);
                    let (after, opened) = match self.writer {
                        Some(writer) => (subscriber, Ok(writer.info)),
                        None => subscriber.opening(self.subscribe_id, opening),
                    };
                    let receiver = if self.writer is Some {
                        counted
                    } else {
                        SubgroupReceiver { header: opening, ..counted }
                    };
                    match opened {
                        Ok(subgroup) => ReceiveStep {
                            receiver: SubgroupReceiver {
                                writer: Some(SubgroupWriter { info: subgroup }),
                                remaining: object.payload_length,
                                ..receiver
                            },
                            subscriber: after,
                            outcome: Ok(
                                IncomingView {
                                    object_id,
                                    subgroup,
                                    size: object.payload_length,
                                    extension_headers: headers_view(object.extension_headers),
                                    payload: Seq::empty(),
                                },
                            ),
                        },
                        Err(fault) => ReceiveStep {
                            receiver,
                            subscriber: after,
                            outcome: Err(fault),
                        },
                    }
                }
            },
        }
    }

    pub fn new(subscribe_id: u64, header: SubgroupHeader) -> (receiver: Self)
        ensures
            receiver == (SubgroupReceiver {
                subscribe_id,
                header,
                previous_object_id: None,
                writer: None,
                remaining: 0,
            }),
    {
        SubgroupReceiver {
            subscribe_id,
            header,
            previous_object_id: None,
            writer: None,
            remaining: 0,
        }
    }

    /// Takes the header of the next object. The first one opens the subgroup.
    pub fn begin_object(&mut self, object: SubgroupObject, subscriber: &mut Subscriber) -> (result:
        Result<IncomingObject, SessionError>)
        ensures
            ({
                let step = old(self).arrived(object, old(subscriber)@);
                &&& *final(self) == step.receiver
                &&& final(subscriber)@ == step.subscriber
                &&& incoming_outcome(result) == step.outcome
            }),
            final(subscriber).sent() == old(subscriber).sent(),
    {
        let object_id: u64 = match self.previous_object_id {
            None => object.object_id_delta,
            Some(previous) => {
                let next = match previous.checked_add(object.object_id_delta) {
                    Some(sum) => sum.checked_add(1),
                    None => None,
                };
                match next {
                    Some(id) => id,
                    None => {
                        return Err(SessionError::violation("subgroup object id overflow"));
                    },
                }
            },
        };
        self.previous_object_id = Some(object_id);

        let marked = match object.status {
            Some(status) => status != ObjectStatus::NormalObject,
            None => false,
        };
        let extended = match &object.extension_headers {
            Some(headers) => !headers.is_empty(),
            None => false,
        };
        if marked && extended {
            return Err(
                SessionError::violation("non-normal object status with extension headers"),
            );
        }

        let writer = match self.writer {
            Some(writer) => writer,
            None => {
                if self.header.header_type.uses_first_object_id_as_subgroup_id() {
                    self.header.subgroup_id = Some(object_id);
                }
                let writer = subscriber.open_subgroup(self.subscribe_id, self.header)?;
                self.writer = Some(writer);
                writer
            },
        };
        self.remaining = object.payload_length;
        Ok(
            IncomingObject {
                object_id,
                subgroup: writer.info,
                size: object.payload_length,
                extension_headers: object.extension_headers,
                chunks: Vec::new(),
            },
        )
    }

    /// Whether an object is the one that is being received: what it lacks is
    /// what is still to come.
    pub open spec fn receives(self, object: IncomingView) -> bool {
        object.payload.len() + self.remaining == object.size
    }

    /// Takes a piece of an object's payload, and tells whether the object is
    /// complete.
    pub fn take_chunk(&mut self, object: &mut IncomingObject, chunk: Bytes) -> (complete: bool)
        requires
            bytes_contents(chunk).len() <= old(self).remaining,
        ensures
            *final(self) == (SubgroupReceiver {
                remaining: (old(self).remaining - bytes_contents(chunk).len()) as usize,
                ..*old(self)
            }),
            final(object)@ == (IncomingView {
                payload: old(object)@.payload + bytes_contents(chunk),
                ..old(object)@
            }),
            complete == (final(self).remaining == 0),
            old(self).receives(old(object)@) ==> final(self).receives(final(object)@),
    {
        self.remaining = self.remaining - chunk.len();
        let ghost earlier = object.chunks@;
        object.chunks.push(chunk);
        assert(object.chunks@.drop_last() =~= earlier);
        self.remaining == 0
    }

    /// The stream ended. It may do so between objects only.
    pub fn stream_ended(&self) -> (result: Result<(), SessionError>)
        ensures
            match result {
                Ok(()) => self.remaining == 0,
                Err(error) => self.remaining > 0 && error@ == SessionFault::WrongSize,
            },
    {
        if self.remaining == 0 {
            Ok(())
        } else {
            Err(SessionError::WrongSize)
        }
    }
}

/// An object that begins is the one that is received, and one that is complete
/// has as much payload as its header told.
pub proof fn object_gets_its_payload(
    receiver: SubgroupReceiver,
    object: SubgroupObject,
    subscriber: SubscriberView,
    incoming: IncomingView,
)
    ensures
        ({
            let step = receiver.arrived(object, subscriber);
            step.outcome matches Ok(begun) ==> step.receiver.receives(begun)
        }),
        receiver.receives(incoming) && receiver.remaining == 0 ==> incoming.payload.len()
            == incoming.size,
{
}

/// The objects of a subgroup stream come by ascending ID.
pub proof fn object_ids_ascend(
    receiver: SubgroupReceiver,
    object: SubgroupObject,
    subscriber: SubscriberView,
)
    ensures
        ({
            let step = receiver.arrived(object, subscriber);
            step.outcome matches Ok(incoming) ==> {
                &&& step.receiver.previous_object_id == Some(incoming.object_id)
                &&& receiver.previous_object_id matches Some(previous) ==> previous
                    < incoming.object_id
            }
        }),
{
}

/// A stream opens its subgroup once, with its first object, and every object
/// on it belongs to that subgroup.
pub proof fn subgroup_is_opened_once(
    receiver: SubgroupReceiver,
    object: SubgroupObject,
    subscriber: SubscriberView,
)
    ensures
        ({
            let step = receiver.arrived(object, subscriber);
            &&& step.outcome matches Ok(incoming) ==> step.receiver.writer == Some(
                SubgroupWriter { info: incoming.subgroup },
            )
            &&& receiver.writer matches Some(writer) ==> {
                &&& step.receiver.writer == Some(writer)
                &&& step.subscriber == subscriber
                &&& step.outcome matches Ok(incoming) ==> incoming.subgroup == writer.info
            }
        }),
{
}

/// Where a stream leaves its subgroup to be named by its first object, the
/// subgroup has that object's ID.
pub proof fn first_object_names_the_subgroup(
    receiver: SubgroupReceiver,
    object: SubgroupObject,
    subscriber: SubscriberView,
)
    requires
        receiver.writer is None,
        receiver.header.header_type.named_by_first_object(),
    ensures
        receiver.arrived(object, subscriber).outcome matches Ok(incoming)
            ==> incoming.subgroup.subgroup_id == incoming.object_id,
{
}

} // verus!
