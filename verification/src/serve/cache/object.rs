//! Complete objects, as they are retained.

use bytes::{Bytes, BytesMut};
use vstd::prelude::*;

use super::model::{ObjectView, RetentionError, RetentionLimit, RetentionRangeError};
use crate::coding::buffer::{bytes_contents, same_bytes};
use crate::coding::Location;
use crate::data::extension::{headers_encoding, ExtensionHeaders};

verus! {

/// Immutable metadata retained with an object.
#[derive(Debug, PartialEq, Eq)]
pub struct RetainedObjectMetadata {
    pub location: Location,
    /// `None` identifies a datagram object; `Some` identifies its subgroup.
    pub subgroup_id: Option<u64>,
    pub publisher_priority: u8,
    pub properties: ExtensionHeaders,
}

impl Clone for RetainedObjectMetadata {
    fn clone(&self) -> (copy: Self)
        ensures
            copy.describes(Seq::empty()) == self.describes(Seq::empty()),
    {
        RetainedObjectMetadata {
            location: self.location,
            subgroup_id: self.subgroup_id,
            publisher_priority: self.publisher_priority,
            properties: self.properties.clone(),
        }
    }
}

impl RetainedObjectMetadata {
    /// The object that this metadata describes, with a payload.
    pub open spec fn describes(&self, payload: Seq<u8>) -> ObjectView {
        ObjectView {
            location: self.location,
            subgroup_id: self.subgroup_id,
            publisher_priority: self.publisher_priority,
            properties: self.properties@,
            payload,
        }
    }
}

/// A complete immutable object whose payload remains reference-counted.
#[derive(Debug, PartialEq, Eq)]
pub struct RetainedObject {
    metadata: RetainedObjectMetadata,
    payload: Bytes,
    retained_bytes: usize,
}

/// Whether an object can be retained at all, and why not.
pub open spec fn object_outcome(object: ObjectView) -> Result<(), RetentionError> {
    if headers_encoding(object.properties) is Err || headers_encoding(object.properties)->Ok_0.len()
        > isize::MAX {
        Err(RetentionError::InvalidRange(RetentionRangeError::InvalidObjectProperties))
    } else if object.size() > usize::MAX {
        Err(RetentionError::ExcessiveLoad(RetentionLimit::ObjectBytes))
    } else {
        Ok(())
    }
}

impl View for RetainedObject {
    type V = ObjectView;

    closed spec fn view(&self) -> ObjectView {
        self.metadata.describes(bytes_contents(self.payload))
    }
}

impl Clone for RetainedObject {
    fn clone(&self) -> (copy: Self)
        ensures
            copy@ == self@,
    {
        proof {
            use_type_invariant(&*self);
        }
        let metadata = self.metadata.clone();
        let payload = self.payload.clone();
        assert(metadata.describes(bytes_contents(payload)) == self@) by {
            assert(metadata.describes(Seq::empty()) == self.metadata.describes(Seq::empty()));
        }
        RetainedObject { metadata, payload, retained_bytes: self.retained_bytes }
    }
}

impl RetainedObject {
    #[verifier::type_invariant]
    pub closed spec fn measured(self) -> bool {
        &&& headers_encoding(self@.properties) is Ok
        &&& self.retained_bytes == self@.size()
    }

    pub fn new(metadata: RetainedObjectMetadata, payload: Bytes) -> (result: Result<
        Self,
        RetentionError,
    >)
        ensures
            match result {
                Ok(object) => {
                    &&& object_outcome(metadata.describes(bytes_contents(payload))) is Ok
                    &&& object@ == metadata.describes(bytes_contents(payload))
                },
                Err(error) => object_outcome(metadata.describes(bytes_contents(payload))) == Err::<
                    (),
                    RetentionError,
                >(error),
            },
    {
        let mut encoded_properties = BytesMut::new();
        match metadata.properties.encode(&mut encoded_properties) {
            Ok(()) => {},
            Err(_) => {
                return Err(
                    RetentionError::InvalidRange(RetentionRangeError::InvalidObjectProperties),
                );
            },
        }
        let retained_bytes: usize = match payload.len().checked_add(encoded_properties.len()) {
            Some(total) => total,
            None => {
                return Err(RetentionError::ExcessiveLoad(RetentionLimit::ObjectBytes));
            },
        };
        Ok(RetainedObject { metadata, payload, retained_bytes })
    }

    pub fn metadata(&self) -> (metadata: &RetainedObjectMetadata)
        ensures
            metadata.describes(self@.payload) == self@,
    {
        &self.metadata
    }

    pub fn location(&self) -> (location: Location)
        ensures
            location == self@.location,
    {
        self.metadata.location
    }

    pub fn group_id(&self) -> (id: u64)
        ensures
            id == self@.location.group_id,
    {
        self.metadata.location.group_id
    }

    pub fn object_id(&self) -> (id: u64)
        ensures
            id == self@.location.object_id,
    {
        self.metadata.location.object_id
    }

    pub fn subgroup_id(&self) -> (id: Option<u64>)
        ensures
            id == self@.subgroup_id,
    {
        self.metadata.subgroup_id
    }

    pub fn publisher_priority(&self) -> (priority: u8)
        ensures
            priority == self@.publisher_priority,
    {
        self.metadata.publisher_priority
    }

    pub fn properties(&self) -> (properties: &ExtensionHeaders)
        ensures
            properties@ == self@.properties,
    {
        &self.metadata.properties
    }

    pub fn payload(&self) -> (payload: &Bytes)
        ensures
            bytes_contents(*payload) == self@.payload,
    {
        &self.payload
    }

    /// The bytes that the object counts for.
    pub fn retained_bytes(&self) -> (bytes: usize)
        ensures
            bytes == self@.size(),
            headers_encoding(self@.properties) is Ok,
    {
        proof {
            use_type_invariant(&*self);
        }
        self.retained_bytes
    }

    /// Whether two objects are the same in every respect.
    pub fn same(&self, other: &RetainedObject) -> (same: bool)
        ensures
            same == (self@ == other@),
    {
        self.metadata.location == other.metadata.location && same_id(
            self.metadata.subgroup_id,
            other.metadata.subgroup_id,
        ) && self.metadata.publisher_priority == other.metadata.publisher_priority
            && self.metadata.properties.same(&other.metadata.properties) && same_bytes(
            &self.payload,
            &other.payload,
        )
    }
}

fn same_id(left: Option<u64>, right: Option<u64>) -> (same: bool)
    ensures
        same == (left == right),
{
    match (left, right) {
        (Some(left), Some(right)) => left == right,
        (None, None) => true,
        _ => false,
    }
}

/// Builder that keeps an incomplete object outside the retained track.
#[derive(Debug, PartialEq, Eq)]
pub struct RetainedObjectBuilder {
    metadata: RetainedObjectMetadata,
    expected_payload_length: usize,
}

impl Clone for RetainedObjectBuilder {
    fn clone(&self) -> (copy: Self)
        ensures
            copy.builds(Seq::empty()) == self.builds(Seq::empty()),
            copy.expects() == self.expects(),
    {
        RetainedObjectBuilder {
            metadata: self.metadata.clone(),
            expected_payload_length: self.expected_payload_length,
        }
    }
}

impl RetainedObjectBuilder {
    /// The payload length that completes the object.
    pub closed spec fn expects(&self) -> nat {
        self.expected_payload_length as nat
    }

    /// The object that a payload completes.
    pub closed spec fn builds(&self, payload: Seq<u8>) -> ObjectView {
        self.metadata.describes(payload)
    }

    pub fn new(metadata: RetainedObjectMetadata, expected_payload_length: usize) -> (builder: Self)
        ensures
            builder.expects() == expected_payload_length,
            forall|payload: Seq<u8>| #[trigger]
                builder.builds(payload) == metadata.describes(payload),
    {
        RetainedObjectBuilder { metadata, expected_payload_length }
    }

    /// Completes the object with its whole payload.
    pub fn finish(self, payload: Bytes) -> (result: Result<RetainedObject, RetentionError>)
        ensures
            match result {
                Ok(object) => {
                    &&& bytes_contents(payload).len() == self.expects()
                    &&& object_outcome(self.builds(bytes_contents(payload))) is Ok
                    &&& object@ == self.builds(bytes_contents(payload))
                },
                Err(error) => if bytes_contents(payload).len() != self.expects() {
                    error == RetentionError::InvalidRange(RetentionRangeError::IncompleteObject)
                } else {
                    object_outcome(self.builds(bytes_contents(payload))) == Err::<
                        (),
                        RetentionError,
                    >(error)
                },
            },
    {
        if payload.len() != self.expected_payload_length {
            return Err(RetentionError::InvalidRange(RetentionRangeError::IncompleteObject));
        }
        RetainedObject::new(self.metadata, payload)
    }
}

} // verus!
