//! Small types that messages share.

use bytes::BytesMut;
use vstd::prelude::*;

use crate::coding::buffer::{appended, buffer_contents, join_step, joined, Cursor, Stop};
use crate::coding::field::{field_encoding, field_round_trip, read_field};
use crate::coding::kvp::{
    pairs_encoding, pairs_round_trip, read_all_pairs, sorted_pairs, sorted_pairs_ascending,
    values_fit, with_value, KeyValuePairs, Pair, ValueView,
};
use crate::coding::name::{
    namespace_encoding, namespace_fits, namespace_round_trip, read_namespace, read_text,
    text_encoding, text_round_trip, MAX_NAME_LENGTH, MAX_URI_LENGTH,
};
use crate::coding::{DecodeError, EncodeError, SessionUri, TrackName, TrackNamespace};

verus! {

/// The order in which a subscriber wants groups.
#[derive(Clone, Copy, Debug, PartialEq, Eq, Structural)]
pub enum GroupOrder {
    /// The publisher's own order; it is what an omitted parameter means.
    Publisher,
    Ascending,
    Descending,
}

/// How a FETCH names what it wants.
#[derive(Clone, Copy, Debug, PartialEq, Eq, Structural)]
pub enum FetchType {
    Standalone,
    RelativeJoining,
    AbsoluteJoining,
}

/// Why a request was refused.
#[derive(Clone, Copy, Debug, PartialEq, Eq, Structural)]
pub enum RequestErrorCode {
    InternalError,
    NotSupported,
    DoesNotExist,
    DuplicateSubscription,
    Uninterested,
    Redirect,
}

/// Why a publisher is done with a subscription.
#[derive(Clone, Copy, Debug, PartialEq, Eq, Structural)]
pub enum PublishDoneCode {
    InternalError,
    TrackEnded,
    UpdateFailed,
}

impl RequestErrorCode {
    pub open spec fn spec_code(self) -> u64 {
        match self {
            RequestErrorCode::InternalError => 0x0,
            RequestErrorCode::NotSupported => 0x3,
            RequestErrorCode::DoesNotExist => 0x10,
            RequestErrorCode::DuplicateSubscription => 0x19,
            RequestErrorCode::Uninterested => 0x20,
            RequestErrorCode::Redirect => 0x33,
        }
    }

    /// The code on the wire.
    pub fn code(&self) -> (code: u64)
        ensures
            code == self.spec_code(),
    {
        match self {
            RequestErrorCode::InternalError => 0x0,
            RequestErrorCode::NotSupported => 0x3,
            RequestErrorCode::DoesNotExist => 0x10,
            RequestErrorCode::DuplicateSubscription => 0x19,
            RequestErrorCode::Uninterested => 0x20,
            RequestErrorCode::Redirect => 0x33,
        }
    }
}

impl PublishDoneCode {
    pub open spec fn spec_code(self) -> u64 {
        match self {
            PublishDoneCode::InternalError => 0x0,
            PublishDoneCode::TrackEnded => 0x2,
            PublishDoneCode::UpdateFailed => 0x8,
        }
    }

    /// The code on the wire.
    pub fn code(&self) -> (code: u64)
        ensures
            code == self.spec_code(),
    {
        match self {
            PublishDoneCode::InternalError => 0x0,
            PublishDoneCode::TrackEnded => 0x2,
            PublishDoneCode::UpdateFailed => 0x8,
        }
    }
}

/// The properties of a track. They fill a message to its end.
#[derive(Debug, PartialEq, Eq)]
pub struct TrackProperties(pub KeyValuePairs);

/// Track properties under the name they have in an acceptance.
pub type TrackExtensions = TrackProperties;

/// What writing track properties yields.
pub open spec fn properties_encoding(properties: Seq<Pair>) -> Result<Seq<u8>, Stop> {
    pairs_encoding(0, sorted_pairs(properties))
}

/// Track properties are read back by ascending key.
pub proof fn properties_round_trip(properties: Seq<Pair>)
    requires
        properties_encoding(properties) is Ok,
        values_fit(sorted_pairs(properties)),
    ensures
        read_all_pairs(0, properties_encoding(properties)->Ok_0) == Ok::<_, DecodeError>(
            sorted_pairs(properties),
        ),
{
    sorted_pairs_ascending(properties);
    pairs_round_trip(0, sorted_pairs(properties), Seq::empty());
}

impl View for TrackProperties {
    type V = Seq<Pair>;

    open spec fn view(&self) -> Seq<Pair> {
        self.0@
    }
}

impl Default for TrackProperties {
    fn default() -> (properties: Self)
        ensures
            properties@ == Seq::<Pair>::empty(),
    {
        TrackProperties(KeyValuePairs::default())
    }
}

impl Clone for TrackProperties {
    fn clone(&self) -> (copy: Self)
        ensures
            copy@ == self@,
    {
        TrackProperties(self.0.clone())
    }
}

impl TrackProperties {
    pub fn is_empty(&self) -> (empty: bool)
        ensures
            empty == (self@.len() == 0),
    {
        self.0.is_empty()
    }

    pub fn set_int_extension(&mut self, key: u64, value: u64)
        ensures
            final(self)@ == with_value(old(self)@, key, ValueView::Int(value)),
    {
        self.0.set_intvalue(key, value);
    }

    pub fn encode(&self, buffer: &mut BytesMut) -> (result: Result<(), EncodeError>)
        ensures
            appended(
                buffer_contents(*old(buffer)),
                buffer_contents(*final(buffer)),
                properties_encoding(self@),
                result,
            ),
    {
        self.0.encode_pairs(buffer)
    }

    pub fn decode(cursor: &mut Cursor) -> (result: Result<TrackProperties, DecodeError>)
        ensures
            match read_all_pairs(0, old(cursor)@) {
                Ok(pairs) => {
                    &&& result is Ok
                    &&& result->Ok_0@ == pairs
                    &&& final(cursor)@.len() == 0
                },
                Err(error) => result == Err::<TrackProperties, DecodeError>(error),
            },
    {
        let pairs = KeyValuePairs::decode_all(cursor)?;
        Ok(TrackProperties(pairs))
    }
}

/// Where a refused request should go instead.
#[derive(Debug, PartialEq, Eq)]
pub struct Redirect {
    pub connect_uri: SessionUri,
    pub track_namespace: TrackNamespace,
    pub track_name: TrackName,
}

/// The model of a [`Redirect`].
pub struct RedirectView {
    pub connect_uri: Seq<char>,
    pub track_namespace: Seq<Seq<u8>>,
    pub track_name: Seq<u8>,
}

impl View for Redirect {
    type V = RedirectView;

    open spec fn view(&self) -> RedirectView {
        RedirectView {
            connect_uri: self.connect_uri.0@,
            track_namespace: self.track_namespace@,
            track_name: self.track_name@,
        }
    }
}

impl RedirectView {
    /// What writing a redirect yields: the URI, the namespace and the name.
    pub open spec fn encoding(self) -> Result<Seq<u8>, Stop> {
        joined(
            text_encoding(self.connect_uri, MAX_URI_LENGTH as u64),
            joined(namespace_encoding(self.track_namespace), field_encoding(self.track_name)),
        )
    }

    /// Whether a redirect is small enough to be read back.
    pub open spec fn fits(self) -> bool {
        namespace_fits(self.track_namespace) && self.track_name.len() <= MAX_NAME_LENGTH
    }

    /// Reads a redirect off the front of `bytes`.
    pub open spec fn read(bytes: Seq<u8>) -> Result<(RedirectView, Seq<u8>), DecodeError> {
        match read_text(bytes, MAX_URI_LENGTH as u64) {
            Ok((connect_uri, rest)) => match read_namespace(rest) {
                Ok((track_namespace, rest)) => match read_field(rest, MAX_NAME_LENGTH as u64) {
                    Ok((track_name, rest)) => Ok(
                        (RedirectView { connect_uri, track_namespace, track_name }, rest),
                    ),
                    Err(error) => Err(error),
                },
                Err(error) => Err(error),
            },
            Err(error) => Err(error),
        }
    }

    /// Reading gives back a redirect that was written.
    pub proof fn round_trip(self, rest: Seq<u8>)
        requires
            self.encoding() is Ok,
            self.fits(),
        ensures
            RedirectView::read(self.encoding()->Ok_0 + rest) == Ok::<_, DecodeError>((self, rest)),
    {
        let uri = text_encoding(self.connect_uri, MAX_URI_LENGTH as u64)->Ok_0;
        let namespace = namespace_encoding(self.track_namespace)->Ok_0;
        let name = field_encoding(self.track_name)->Ok_0;
        assert(self.encoding()->Ok_0 + rest =~= uri + (namespace + (name + rest)));
        text_round_trip(
            self.connect_uri,
            MAX_URI_LENGTH as u64,
            namespace + (name + rest),
        );
        namespace_round_trip(self.track_namespace, name + rest);
        field_round_trip(self.track_name, MAX_NAME_LENGTH as u64, rest);
    }
}

impl Clone for Redirect {
    fn clone(&self) -> (copy: Self)
        ensures
            copy@ == self@,
    {
        Redirect {
            connect_uri: self.connect_uri.clone(),
            track_namespace: self.track_namespace.clone(),
            track_name: self.track_name.clone(),
        }
    }
}

impl Redirect {
    pub fn encode(&self, buffer: &mut BytesMut) -> (result: Result<(), EncodeError>)
        ensures
            appended(
                buffer_contents(*old(buffer)),
                buffer_contents(*final(buffer)),
                self@.encoding(),
                result,
            ),
    {
        let ghost view = self@;
        let uri = self.connect_uri.encode(buffer);
        let ghost middle = buffer_contents(*buffer);
        proof {
            join_step(
                buffer_contents(*old(buffer)),
                middle,
                text_encoding(view.connect_uri, MAX_URI_LENGTH as u64),
                joined(namespace_encoding(view.track_namespace), field_encoding(view.track_name)),
                uri,
            );
        }
        uri?;
        let namespace = self.track_namespace.encode(buffer);
        proof {
            join_step(
                middle,
                buffer_contents(*buffer),
                namespace_encoding(view.track_namespace),
                field_encoding(view.track_name),
                namespace,
            );
        }
        namespace?;
        self.track_name.encode(buffer)
    }

    pub fn decode(cursor: &mut Cursor) -> (result: Result<Redirect, DecodeError>)
        ensures
            match RedirectView::read(old(cursor)@) {
                Ok((redirect, rest)) => {
                    &&& result is Ok
                    &&& result->Ok_0@ == redirect
                    &&& final(cursor)@ == rest
                },
                Err(error) => result == Err::<Redirect, DecodeError>(error),
            },
    {
        let connect_uri = SessionUri::decode(cursor)?;
        let track_namespace = TrackNamespace::decode(cursor)?;
        let track_name = TrackName::decode(cursor)?;
        Ok(Redirect { connect_uri, track_namespace, track_name })
    }
}

} // verus!
