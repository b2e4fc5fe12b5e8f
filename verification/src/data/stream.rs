//! The headers of data streams and of the objects on them.

use vstd::prelude::*;

use super::extension::ExtensionHeaders;
use crate::coding::DecodeError;

verus! {

/// How a subgroup stream tells its subgroup ID.
#[derive(Clone, Copy, Debug, PartialEq, Eq, Structural)]
pub enum SubgroupIdMode {
    /// The subgroup ID is zero.
    Zero,
    /// The subgroup ID is the ID of the first object on the stream.
    FirstObject,
    /// The subgroup ID is a field of the header.
    Explicit,
}

/// What a data stream carries, and which fields its header has.
#[derive(Clone, Copy, Debug, PartialEq, Eq, Structural)]
pub enum StreamHeaderType {
    Subgroup {
        extension_headers: bool,
        subgroup_id: SubgroupIdMode,
        end_of_group: bool,
        default_priority: bool,
        first_object: bool,
    },
    Fetch,
}

impl StreamHeaderType {
    pub fn subgroup(
        extension_headers: bool,
        subgroup_id: SubgroupIdMode,
        end_of_group: bool,
        default_priority: bool,
        first_object: bool,
    ) -> (header_type: Self)
        ensures
            header_type == (StreamHeaderType::Subgroup {
                extension_headers,
                subgroup_id,
                end_of_group,
                default_priority,
                first_object,
            }),
    {
        StreamHeaderType::Subgroup {
            extension_headers,
            subgroup_id,
            end_of_group,
            default_priority,
            first_object,
        }
    }

    /// Whether the stream carries a subgroup.
    pub fn is_subgroup(&self) -> (result: bool)
        ensures
            result == (self is Subgroup),
    {
        match self {
            StreamHeaderType::Subgroup { .. } => true,
            StreamHeaderType::Fetch => false,
        }
    }

    pub open spec fn starts_group(self) -> bool {
        self is Subgroup && self->first_object
    }

    /// Whether the stream starts with the first object of its group.
    pub fn is_first_object(&self) -> (result: bool)
        ensures
            result == self.starts_group(),
    {
        match self {
            StreamHeaderType::Subgroup { first_object, .. } => *first_object,
            StreamHeaderType::Fetch => false,
        }
    }

    pub open spec fn extended(self) -> bool {
        self is Subgroup && self->extension_headers
    }

    /// Whether the objects on the stream carry extension headers.
    pub fn has_extension_headers(&self) -> (result: bool)
        ensures
            result == self.extended(),
    {
        match self {
            StreamHeaderType::Subgroup { extension_headers, .. } => *extension_headers,
            StreamHeaderType::Fetch => false,
        }
    }

    pub open spec fn named_by_first_object(self) -> bool {
        self is Subgroup && self->subgroup_id == SubgroupIdMode::FirstObject
    }

    /// Whether the first object on the stream names its subgroup.
    pub fn uses_first_object_id_as_subgroup_id(&self) -> (result: bool)
        ensures
            result == self.named_by_first_object(),
    {
        match self {
            StreamHeaderType::Subgroup { subgroup_id, .. } => *subgroup_id
                == SubgroupIdMode::FirstObject,
            StreamHeaderType::Fetch => false,
        }
    }
}

/// The header of a subgroup stream.
#[derive(Clone, Copy, Debug, PartialEq, Eq, Structural)]
pub struct SubgroupHeader {
    pub header_type: StreamHeaderType,
    pub track_alias: u64,
    pub group_id: u64,
    pub subgroup_id: Option<u64>,
    pub publisher_priority: u8,
}

impl SubgroupHeader {
    /// The subgroup ID, as far as it is known yet.
    pub open spec fn resolved(self) -> Result<Option<u64>, DecodeError> {
        match self.header_type {
            StreamHeaderType::Subgroup { subgroup_id, .. } => match subgroup_id {
                SubgroupIdMode::Zero => Ok(Some(0)),
                SubgroupIdMode::FirstObject => Ok(self.subgroup_id),
                SubgroupIdMode::Explicit => match self.subgroup_id {
                    Some(id) => Ok(Some(id)),
                    None => Err(DecodeError::InvalidValue),
                },
            },
            StreamHeaderType::Fetch => Err(DecodeError::InvalidValue),
        }
    }

    pub fn resolved_subgroup_id(&self) -> (result: Result<Option<u64>, DecodeError>)
        ensures
            result == self.resolved(),
    {
        match self.header_type {
            StreamHeaderType::Subgroup { subgroup_id, .. } => match subgroup_id {
                SubgroupIdMode::Zero => Ok(Some(0)),
                SubgroupIdMode::FirstObject => Ok(self.subgroup_id),
                SubgroupIdMode::Explicit => match self.subgroup_id {
                    Some(id) => Ok(Some(id)),
                    None => Err(DecodeError::InvalidValue),
                },
            },
            StreamHeaderType::Fetch => Err(DecodeError::InvalidValue),
        }
    }
}

/// What an object without a payload stands for.
#[derive(Clone, Copy, Debug, PartialEq, Eq, Structural)]
pub enum ObjectStatus {
    NormalObject,
    DoesNotExist,
    EndOfGroup,
    EndOfTrack,
}

/// The header of an object on a subgroup stream. A stream whose type has no
/// extension headers gives `None` for them.
#[derive(Debug, PartialEq, Eq)]
pub struct SubgroupObject {
    pub object_id_delta: u64,
    pub extension_headers: Option<ExtensionHeaders>,
    pub payload_length: usize,
    pub status: Option<ObjectStatus>,
}

} // verus!
