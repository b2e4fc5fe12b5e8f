//! Responses on request streams. They carry no request ID: the stream they
//! come on tells which request they answer.

use bytes::BytesMut;
use vstd::prelude::*;

use super::error::{same_outcome, SessionError, SessionFault};
use super::kind::RequestKind;
use super::Session;
use crate::coding::buffer::{
    appended, buffer_as_slice, buffer_contents, join_step, joined, put, Cursor, Stop,
};
use crate::coding::field::{
    decode_flag, encode_flag, encode_length, flag_encoding, flag_round_trip, length_encoding,
    read_flag,
};
use crate::coding::kvp::{
    list_encoding, list_round_trip, read_all_pairs, read_list, short_pairs_fit, sorted_pairs,
    sorted_pairs_ascending, Pair,
};
use crate::coding::name::{read_text, text_encoding, text_round_trip, MAX_REASON_LENGTH};
use crate::coding::varint::{
    decode_varint, encode_varint, read_varint, varint, varint_encoding, varint_round_trip,
};
use crate::coding::{DecodeError, EncodeError, KeyValuePairs, Location, ReasonPhrase};
use crate::message::filter::location_round_trip;
use crate::message::types::{properties_encoding, properties_round_trip, RedirectView};
use crate::message::wire_id;
use crate::message::{
    FetchOk, Message, PublishDone, Redirect, RequestError, RequestErrorCode, RequestOk,
    RequestUpdate, SubscribeOk, TrackProperties,
};
use crate::text::{concat2, concat3, decimal, digits, hexadecimal};

verus! {

/// A response without its request ID.
pub enum ResponseView {
    RequestOk { params: Seq<Pair>, properties: Seq<Pair> },
    RequestError {
        error_code: u64,
        retry_interval: u64,
        reason: Seq<char>,
        redirect: Option<RedirectView>,
    },
    SubscribeOk { track_alias: u64, params: Seq<Pair>, extensions: Seq<Pair> },
    PublishDone { status_code: u64, stream_count: u64, reason: Seq<char> },
    FetchOk {
        end_of_track: bool,
        end_location: Location,
        params: Seq<Pair>,
        extensions: Seq<Pair>,
    },
}

/// What a message says as a response.
pub open spec fn response_of(msg: &Message) -> Option<ResponseView> {
    match msg {
        Message::RequestOk(m) => Some(
            ResponseView::RequestOk { params: m.params@, properties: m.track_properties@ },
        ),
        Message::RequestError(m) => Some(
            ResponseView::RequestError {
                error_code: m.error_code,
                retry_interval: m.retry_interval,
                reason: m.reason.0@,
                redirect: match m.redirect {
                    Some(redirect) => Some(redirect@),
                    None => None,
                },
            },
        ),
        Message::SubscribeOk(m) => Some(
            ResponseView::SubscribeOk {
                track_alias: m.track_alias,
                params: m.params@,
                extensions: m.track_extensions@,
            },
        ),
        Message::PublishDone(m) => Some(
            ResponseView::PublishDone {
                status_code: m.status_code,
                stream_count: m.stream_count,
                reason: m.reason.0@,
            },
        ),
        Message::FetchOk(m) => Some(
            ResponseView::FetchOk {
                end_of_track: m.end_of_track,
                end_location: m.end_location,
                params: m.params@,
                extensions: m.track_extensions@,
            },
        ),
        _ => None,
    }
}

/// Why something cannot be written to a buffer of its own, and whether the
/// buffer is full before that comes out.
pub struct Halt {
    pub fault: SessionFault,
    pub overrun: bool,
}

impl Halt {
    /// Whether an error is the one that comes out.
    pub open spec fn comes_out_as(self, error: SessionFault) -> bool {
        if self.overrun {
            error matches SessionFault::Encode(EncodeError::More(_))
        } else {
            error == self.fault
        }
    }
}

/// An encoding as an outcome of the session.
pub open spec fn coded(encoding: Result<Seq<u8>, Stop>) -> Result<Seq<u8>, Halt> {
    match encoding {
        Ok(bytes) => Ok(bytes),
        Err(stop) => Err(
            Halt { fault: SessionFault::Encode(stop.error), overrun: stop.overruns(0) },
        ),
    }
}

impl ResponseView {
    /// The type of the response on the wire.
    pub open spec fn wire_type(self) -> u64 {
        match self {
            ResponseView::RequestOk { .. } => wire_id::RequestOk,
            ResponseView::RequestError { .. } => wire_id::RequestError,
            ResponseView::SubscribeOk { .. } => wire_id::SubscribeOk,
            ResponseView::PublishDone { .. } => wire_id::PublishDone,
            ResponseView::FetchOk { .. } => wire_id::FetchOk,
        }
    }

    /// The body of the response: every field but the request ID.
    #[verifier::opaque]
    pub open spec fn payload(self) -> Result<Seq<u8>, Halt> {
        match self {
            ResponseView::RequestOk { params, properties } => coded(
                joined(list_encoding(params), properties_encoding(properties)),
            ),
            ResponseView::RequestError { error_code, retry_interval, reason, redirect } => {
                let head = joined(
                    varint_encoding(error_code),
                    joined(
                        varint_encoding(retry_interval),
                        text_encoding(reason, MAX_REASON_LENGTH as u64),
                    ),
                );
                if head is Err {
                    coded(head)
                } else if error_code == RequestErrorCode::Redirect.spec_code() {
                    match redirect {
                        Some(redirect) => coded(joined(head, redirect.encoding())),
                        None => Err(
                            Halt {
                                fault: SessionFault::ProtocolViolation(
                                    "REDIRECT REQUEST_ERROR omitted Redirect"@,
                                ),
                                overrun: head->Ok_0.len() > isize::MAX,
                            },
                        ),
                    }
                } else {
                    match redirect {
                        Some(_) => Err(
                            Halt {
                                fault: SessionFault::ProtocolViolation(
                                    "non-REDIRECT REQUEST_ERROR contained Redirect"@,
                                ),
                                overrun: head->Ok_0.len() > isize::MAX,
                            },
                        ),
                        None => coded(head),
                    }
                }
            },
            ResponseView::SubscribeOk { track_alias, params, extensions } => coded(
                joined(
                    varint_encoding(track_alias),
                    joined(list_encoding(params), properties_encoding(extensions)),
                ),
            ),
            ResponseView::PublishDone { status_code, stream_count, reason } => coded(
                joined(
                    varint_encoding(status_code),
                    joined(
                        varint_encoding(stream_count),
                        text_encoding(reason, MAX_REASON_LENGTH as u64),
                    ),
                ),
            ),
            ResponseView::FetchOk { end_of_track, end_location, params, extensions } => coded(
                joined(
                    flag_encoding(end_of_track),
                    joined(
                        end_location.encoding(),
                        joined(list_encoding(params), properties_encoding(extensions)),
                    ),
                ),
            ),
        }
    }

    /// The frame of the response: its type, the length of its body and the
    /// body.
    pub open spec fn frame(self) -> Result<Seq<u8>, Halt> {
        match self.payload() {
            Ok(payload) => if payload.len() > u16::MAX {
                Err(
                    Halt {
                        fault: SessionFault::Encode(EncodeError::MsgBoundsExceeded),
                        overrun: payload.len() > isize::MAX,
                    },
                )
            } else {
                Ok(varint(self.wire_type()) + (length_encoding(payload.len() as u16) + payload))
            },
            Err(halt) => Err(halt),
        }
    }

    /// The response with its parameters and properties by ascending key.
    pub open spec fn sorted(self) -> ResponseView {
        match self {
            ResponseView::RequestOk { params, properties } => ResponseView::RequestOk {
                params: sorted_pairs(params),
                properties: sorted_pairs(properties),
            },
            ResponseView::SubscribeOk { track_alias, params, extensions } =>
            ResponseView::SubscribeOk {
                track_alias,
                params: sorted_pairs(params),
                extensions: sorted_pairs(extensions),
            },
            ResponseView::FetchOk { end_of_track, end_location, params, extensions } =>
            ResponseView::FetchOk {
                end_of_track,
                end_location,
                params: sorted_pairs(params),
                extensions: sorted_pairs(extensions),
            },
            other => other,
        }
    }

    /// Whether a redirect in the response is small enough to be read back.
    pub open spec fn redirect_fits(self) -> bool {
        self matches ResponseView::RequestError { redirect: Some(redirect), .. } ==> redirect.fits()
    }

    /// Whether the response is one that the request allows, and why not.
    pub open spec fn allowed(self, kind: RequestKind, is_update_response: bool) -> Result<
        (),
        SessionFault,
    > {
        match self {
            ResponseView::RequestOk { properties, .. } => if (is_update_response || kind
                != RequestKind::TrackStatus) && properties.len() > 0 {
                Err(
                    SessionFault::ProtocolViolation(
                        "Track Properties are only valid in TRACK_STATUS_OK"@,
                    ),
                )
            } else {
                Ok(())
            },
            ResponseView::RequestError { redirect: Some(redirect), .. } => if kind.namespace_scoped()
                && redirect.track_name.len() > 0 {
                Err(
                    SessionFault::ProtocolViolation(
                        "namespace-scoped redirect contained a Track Name"@,
                    ),
                )
            } else {
                Ok(())
            },
            _ => Ok(()),
        }
    }
}

/// Reads a list of parameters and, to the end, properties.
pub open spec fn read_pairs_to_end(bytes: Seq<u8>) -> Result<(Seq<Pair>, Seq<Pair>), DecodeError> {
    match read_list(bytes) {
        Ok((params, rest)) => match read_all_pairs(0, rest) {
            Ok(properties) => Ok((params, properties)),
            Err(error) => Err(error),
        },
        Err(error) => Err(error),
    }
}

/// Reads two integers and a reason.
pub open spec fn read_ending(bytes: Seq<u8>) -> Result<
    (u64, u64, Seq<char>, Seq<u8>),
    DecodeError,
> {
    match read_varint(bytes) {
        Ok((first, rest)) => match read_varint(rest) {
            Ok((second, rest)) => match read_text(rest, MAX_REASON_LENGTH as u64) {
                Ok((reason, rest)) => Ok((first, second, reason, rest)),
                Err(error) => Err(error),
            },
            Err(error) => Err(error),
        },
        Err(error) => Err(error),
    }
}

/// Reads the body of a response, with what is left behind it.
pub open spec fn read_response(msg_type: u64, bytes: Seq<u8>) -> Result<
    (ResponseView, Seq<u8>),
    SessionFault,
> {
    if msg_type == wire_id::RequestError {
        match read_ending(bytes) {
            Ok((error_code, retry_interval, reason, rest)) => if error_code
                == RequestErrorCode::Redirect.spec_code() {
                match RedirectView::read(rest) {
                    Ok((redirect, rest)) => Ok(
                        (
                            ResponseView::RequestError {
                                error_code,
                                retry_interval,
                                reason,
                                redirect: Some(redirect),
                            },
                            rest,
                        ),
                    ),
                    Err(error) => Err(SessionFault::Decode(error)),
                }
            } else {
                Ok(
                    (
                        ResponseView::RequestError {
                            error_code,
                            retry_interval,
                            reason,
                            redirect: None,
                        },
                        rest,
                    ),
                )
            },
            Err(error) => Err(SessionFault::Decode(error)),
        }
    } else if msg_type == wire_id::RequestOk {
        match read_pairs_to_end(bytes) {
            Ok((params, properties)) => Ok(
                (ResponseView::RequestOk { params, properties }, Seq::empty()),
            ),
            Err(error) => Err(SessionFault::Decode(error)),
        }
    } else if msg_type == wire_id::SubscribeOk {
        match read_varint(bytes) {
            Ok((track_alias, rest)) => match read_pairs_to_end(rest) {
                Ok((params, extensions)) => Ok(
                    (ResponseView::SubscribeOk { track_alias, params, extensions }, Seq::empty()),
                ),
                Err(error) => Err(SessionFault::Decode(error)),
            },
            Err(error) => Err(SessionFault::Decode(error)),
        }
    } else if msg_type == wire_id::PublishDone {
        match read_ending(bytes) {
            Ok((status_code, stream_count, reason, rest)) => Ok(
                (ResponseView::PublishDone { status_code, stream_count, reason }, rest),
            ),
            Err(error) => Err(SessionFault::Decode(error)),
        }
    } else if msg_type == wire_id::FetchOk {
        match read_flag(bytes) {
            Ok((end_of_track, rest)) => match Location::read(rest) {
                Ok((end_location, rest)) => match read_pairs_to_end(rest) {
                    Ok((params, extensions)) => Ok(
                        (
                            ResponseView::FetchOk { end_of_track, end_location, params, extensions },
                            Seq::empty(),
                        ),
                    ),
                    Err(error) => Err(SessionFault::Decode(error)),
                },
                Err(error) => Err(SessionFault::Decode(error)),
            },
            Err(error) => Err(SessionFault::Decode(error)),
        }
    } else {
        Err(SessionFault::Unimplemented("bidi response type 0x"@ + digits(msg_type as nat, 16)))
    }
}

/// What a response body is read as: a response that fills the body and that
/// the request allows.
pub open spec fn decoded_response(msg_type: u64, bytes: Seq<u8>, kind: RequestKind) -> Result<
    ResponseView,
    SessionFault,
> {
    match read_response(msg_type, bytes) {
        Ok((response, rest)) => if rest.len() > 0 {
            Err(
                SessionFault::ProtocolViolation(
                    "response type 0x"@ + digits(msg_type as nat, 16) + " left "@ + digits(
                        rest.len(),
                        10,
                    ) + " unparsed body bytes"@,
                ),
            )
        } else {
            match response.allowed(kind, false) {
                Ok(()) => Ok(response),
                Err(fault) => Err(fault),
            }
        },
        Err(fault) => Err(fault),
    }
}

proof fn pairs_to_end_round_trip(params: Seq<Pair>, properties: Seq<Pair>)
    requires
        joined(list_encoding(params), properties_encoding(properties)) is Ok,
        joined(list_encoding(params), properties_encoding(properties))->Ok_0.len() <= u16::MAX,
        params.len() <= u64::MAX,
    ensures
        read_pairs_to_end(joined(list_encoding(params), properties_encoding(properties))->Ok_0)
            == Ok::<_, DecodeError>((sorted_pairs(params), sorted_pairs(properties))),
{
    let tail = properties_encoding(properties)->Ok_0;
    short_pairs_fit(0, sorted_pairs(params));
    short_pairs_fit(0, sorted_pairs(properties));
    sorted_pairs_ascending(params);
    list_round_trip(params, tail);
    properties_round_trip(properties);
}

proof fn ending_round_trip(first: u64, second: u64, reason: Seq<char>, rest: Seq<u8>)
    requires
        varint_encoding(first) is Ok,
        varint_encoding(second) is Ok,
        text_encoding(reason, MAX_REASON_LENGTH as u64) is Ok,
    ensures
        read_ending(
            varint(first) + (varint(second) + text_encoding(
                reason,
                MAX_REASON_LENGTH as u64,
            )->Ok_0) + rest,
        ) == Ok::<_, DecodeError>((first, second, reason, rest)),
{
    let text = text_encoding(reason, MAX_REASON_LENGTH as u64)->Ok_0;
    let all = varint(first) + (varint(second) + text) + rest;
    assert(all =~= varint(first) + (varint(second) + (text + rest)));
    varint_round_trip(first, varint(second) + (text + rest));
    varint_round_trip(second, text + rest);
    text_round_trip(reason, MAX_REASON_LENGTH as u64, rest);
}

/// The body of a response that fits a frame is read back as the same
/// response, with its parameters by ascending key and nothing left over.
pub proof fn response_round_trip(response: ResponseView)
    requires
        response.payload() is Ok,
        response.payload()->Ok_0.len() <= u16::MAX,
        response.redirect_fits(),
        response matches ResponseView::RequestOk { params, .. } ==> params.len() <= u64::MAX,
        response matches ResponseView::SubscribeOk { params, .. } ==> params.len() <= u64::MAX,
        response matches ResponseView::FetchOk { params, .. } ==> params.len() <= u64::MAX,
    ensures
        read_response(response.wire_type(), response.payload()->Ok_0) == Ok::<_, SessionFault>(
            (response.sorted(), Seq::<u8>::empty()),
        ),
{
    reveal(ResponseView::payload);
    let bytes = response.payload()->Ok_0;
    match response {
        ResponseView::RequestOk { params, properties } => {
            pairs_to_end_round_trip(params, properties);
        },
        ResponseView::RequestError { error_code, retry_interval, reason, redirect } => {
            let text = text_encoding(reason, MAX_REASON_LENGTH as u64)->Ok_0;
            let head = varint(error_code) + (varint(retry_interval) + text);
            match redirect {
                Some(redirect) => {
                    let tail = redirect.encoding()->Ok_0;
                    ending_round_trip(error_code, retry_interval, reason, tail);
                    redirect.round_trip(Seq::empty());
                    assert(tail + Seq::<u8>::empty() =~= tail);
                },
                None => {
                    ending_round_trip(error_code, retry_interval, reason, Seq::empty());
                    assert(head + Seq::<u8>::empty() =~= head);
                },
            }
        },
        ResponseView::SubscribeOk { track_alias, params, extensions } => {
            let body = joined(list_encoding(params), properties_encoding(extensions))->Ok_0;
            varint_round_trip(track_alias, body);
            pairs_to_end_round_trip(params, extensions);
        },
        ResponseView::PublishDone { status_code, stream_count, reason } => {
            ending_round_trip(status_code, stream_count, reason, Seq::empty());
            assert(bytes + Seq::<u8>::empty() =~= bytes);
        },
        ResponseView::FetchOk { end_of_track, end_location, params, extensions } => {
            let body = joined(list_encoding(params), properties_encoding(extensions))->Ok_0;
            let flag = flag_encoding(end_of_track)->Ok_0;
            let location = end_location.encoding()->Ok_0;
            flag_round_trip(end_of_track, location + body);
            location_round_trip(end_location, body);
            pairs_to_end_round_trip(params, extensions);
        },
    }
}

fn encode_pairs_to_end(params: &KeyValuePairs, properties: &TrackProperties, buffer: &mut BytesMut) -> (
result: Result<(), EncodeError>)
    ensures
        appended(
            buffer_contents(*old(buffer)),
            buffer_contents(*final(buffer)),
            joined(list_encoding(params@), properties_encoding(properties@)),
            result,
        ),
{
    let listed = params.encode(buffer);
    proof {
        join_step(
            buffer_contents(*old(buffer)),
            buffer_contents(*buffer),
            list_encoding(params@),
            properties_encoding(properties@),
            listed,
        );
    }
    listed?;
    properties.encode(buffer)
}

fn encode_ending(first: u64, second: u64, reason: &ReasonPhrase, buffer: &mut BytesMut) -> (result:
    Result<(), EncodeError>)
    ensures
        appended(
            buffer_contents(*old(buffer)),
            buffer_contents(*final(buffer)),
            joined(
                varint_encoding(first),
                joined(
                    varint_encoding(second),
                    text_encoding(reason.0@, MAX_REASON_LENGTH as u64),
                ),
            ),
            result,
        ),
{
    let ghost text = text_encoding(reason.0@, MAX_REASON_LENGTH as u64);
    let one = encode_varint(first, buffer);
    let ghost middle = buffer_contents(*buffer);
    proof {
        join_step(
            buffer_contents(*old(buffer)),
            middle,
            varint_encoding(first),
            joined(varint_encoding(second), text),
            one,
        );
    }
    one?;
    let two = encode_varint(second, buffer);
    proof {
        join_step(middle, buffer_contents(*buffer), varint_encoding(second), text, two);
    }
    two?;
    reason.encode(buffer)
}

fn encode_fetch_ok(msg: &FetchOk, buffer: &mut BytesMut) -> (result: Result<(), EncodeError>)
    ensures
        appended(
            buffer_contents(*old(buffer)),
            buffer_contents(*final(buffer)),
            joined(
                flag_encoding(msg.end_of_track),
                joined(
                    msg.end_location.encoding(),
                    joined(list_encoding(msg.params@), properties_encoding(msg.track_extensions@)),
                ),
            ),
            result,
        ),
{
    let ghost tail = joined(
        list_encoding(msg.params@),
        properties_encoding(msg.track_extensions@),
    );
    let flag = encode_flag(msg.end_of_track, buffer);
    let ghost middle = buffer_contents(*buffer);
    proof {
        join_step(
            buffer_contents(*old(buffer)),
            middle,
            flag_encoding(msg.end_of_track),
            joined(msg.end_location.encoding(), tail),
            flag,
        );
    }
    flag?;
    let location = msg.end_location.encode(buffer);
    proof {
        join_step(middle, buffer_contents(*buffer), msg.end_location.encoding(), tail, location);
    }
    location?;
    encode_pairs_to_end(&msg.params, &msg.track_extensions, buffer)
}

/// Whether bytes are what an encoding calls for. Where they cannot be had, the
/// fault is the encoding's own, unless the buffer is full first.
pub open spec fn encoded_as(
    result: Result<BytesMut, SessionError>,
    expected: Result<Seq<u8>, Halt>,
) -> bool {
    match expected {
        Ok(bytes) => if bytes.len() <= isize::MAX {
            result is Ok && buffer_contents(result->Ok_0) == bytes
        } else {
            result matches Err(error) && error@ matches SessionFault::Encode(EncodeError::More(_))
        },
        Err(halt) => {
            result matches Err(error) && halt.comes_out_as(error@)
        },
    }
}

/// What writing to an empty buffer leaves in it.
pub proof fn coded_from_empty(
    empty: Seq<u8>,
    after: Seq<u8>,
    encoding: Result<Seq<u8>, Stop>,
    result: Result<(), EncodeError>,
)
    requires
        empty.len() == 0,
        appended(empty, after, encoding, result),
    ensures
        result is Ok ==> encoding is Ok && after == encoding->Ok_0 && after.len() <= isize::MAX,
        result is Err ==> match encoding {
            Ok(bytes) => result->Err_0 is More && bytes.len() > isize::MAX,
            Err(stop) => if stop.overruns(0) {
                result->Err_0 is More
            } else {
                result->Err_0 == stop.error
            },
        },
        encoding is Ok && encoding->Ok_0.len() <= isize::MAX ==> result is Ok,
{
    if encoding is Ok {
        assert(empty + encoding->Ok_0 =~= encoding->Ok_0);
    }
}

/// The body of a response: every field but the request ID.
fn encode_response_payload(msg: &Message) -> (result: Result<BytesMut, SessionError>)
    ensures
        match response_of(msg) {
            Some(response) => encoded_as(result, response.payload()),
            None => result matches Err(error) && error@ == SessionFault::Internal,
        },
{
    proof {
        reveal(ResponseView::payload);
    }
    let mut payload = BytesMut::new();
    let ghost empty = buffer_contents(payload);
    match msg {
        Message::RequestOk(m) => {
            let written = encode_pairs_to_end(&m.params, &m.track_properties, &mut payload);
            proof {
                coded_from_empty(
                    empty,
                    buffer_contents(payload),
                    joined(list_encoding(m.params@), properties_encoding(m.track_properties@)),
                    written,
                );
            }
            match written {
                Ok(()) => Ok(payload),
                Err(error) => Err(SessionError::Encode(error)),
            }
        },
        Message::RequestError(m) => {
            let written = encode_ending(m.error_code, m.retry_interval, &m.reason, &mut payload);
            let ghost head = joined(
                varint_encoding(m.error_code),
                joined(
                    varint_encoding(m.retry_interval),
                    text_encoding(m.reason.0@, MAX_REASON_LENGTH as u64),
                ),
            );
            proof {
                coded_from_empty(empty, buffer_contents(payload), head, written);
            }
            match written {
                Ok(()) => {},
                Err(error) => {
                    return Err(SessionError::Encode(error));
                },
            }
            if m.error_code == RequestErrorCode::Redirect.code() {
                match &m.redirect {
                    Some(redirect) => {
                        let added = redirect.encode(&mut payload);
                        match added {
                            Ok(()) => Ok(payload),
                            Err(error) => Err(SessionError::Encode(error)),
                        }
                    },
                    None => Err(SessionError::violation("REDIRECT REQUEST_ERROR omitted Redirect")),
                }
            } else {
                match &m.redirect {
                    Some(_) => Err(
                        SessionError::violation("non-REDIRECT REQUEST_ERROR contained Redirect"),
                    ),
                    None => Ok(payload),
                }
            }
        },
        Message::SubscribeOk(m) => {
            let ghost tail = joined(
                list_encoding(m.params@),
                properties_encoding(m.track_extensions@),
            );
            let alias = encode_varint(m.track_alias, &mut payload);
            let ghost middle = buffer_contents(payload);
            proof {
                join_step(empty, middle, varint_encoding(m.track_alias), tail, alias);
            }
            match alias {
                Ok(()) => {},
                Err(error) => {
                    proof {
                        coded_from_empty(
                            empty,
                            middle,
                            joined(varint_encoding(m.track_alias), tail),
                            alias,
                        );
                    }
                    return Err(SessionError::Encode(error));
                },
            }
            let written = encode_pairs_to_end(&m.params, &m.track_extensions, &mut payload);
            proof {
                coded_from_empty(
                    empty,
                    buffer_contents(payload),
                    joined(varint_encoding(m.track_alias), tail),
                    written,
                );
            }
            match written {
                Ok(()) => Ok(payload),
                Err(error) => Err(SessionError::Encode(error)),
            }
        },
        Message::PublishDone(m) => {
            let written = encode_ending(m.status_code, m.stream_count, &m.reason, &mut payload);
            proof {
                coded_from_empty(
                    empty,
                    buffer_contents(payload),
                    joined(
                        varint_encoding(m.status_code),
                        joined(
                            varint_encoding(m.stream_count),
                            text_encoding(m.reason.0@, MAX_REASON_LENGTH as u64),
                        ),
                    ),
                    written,
                );
            }
            match written {
                Ok(()) => Ok(payload),
                Err(error) => Err(SessionError::Encode(error)),
            }
        },
        Message::FetchOk(m) => {
            let written = encode_fetch_ok(m, &mut payload);
            proof {
                coded_from_empty(
                    empty,
                    buffer_contents(payload),
                    joined(
                        flag_encoding(m.end_of_track),
                        joined(
                            m.end_location.encoding(),
                            joined(
                                list_encoding(m.params@),
                                properties_encoding(m.track_extensions@),
                            ),
                        ),
                    ),
                    written,
                );
            }
            match written {
                Ok(()) => Ok(payload),
                Err(error) => Err(SessionError::Encode(error)),
            }
        },
        _ => Err(SessionError::Internal),
    }
}

/// A frame: its type, the length of its body and the body.
fn encode_frame(msg_type: u64, body: &[u8]) -> (frame: BytesMut)
    requires
        msg_type < 0x40,
        body@.len() <= u16::MAX,
    ensures
        buffer_contents(frame) == varint(msg_type) + (length_encoding(body@.len() as u16) + body@),
{
    let length: u16 = body.len() as u16;
    let mut frame = BytesMut::new();
    let ghost empty = buffer_contents(frame);
    let _typed = encode_varint(msg_type, &mut frame);
    let _measured = encode_length(length, &mut frame);
    let _filled = put(&mut frame, body);
    assert(empty + varint(msg_type) + length_encoding(length) + body@ =~= varint(msg_type) + (
    length_encoding(length) + body@));
    frame
}

/// A response with another request ID.
pub open spec fn with_request_id(msg: Message, id: u64) -> Message {
    match msg {
        Message::RequestOk(m) => Message::RequestOk(RequestOk { id, ..m }),
        Message::RequestError(m) => Message::RequestError(RequestError { id, ..m }),
        Message::SubscribeOk(m) => Message::SubscribeOk(SubscribeOk { id, ..m }),
        Message::PublishDone(m) => Message::PublishDone(PublishDone { id, ..m }),
        Message::FetchOk(m) => Message::FetchOk(FetchOk { id, ..m }),
        other => other,
    }
}

/// Whether a result is the frame that a message calls for. A message that is no
/// response is an internal error.
pub open spec fn framed_as(result: Result<BytesMut, SessionError>, msg: Message) -> bool {
    match response_of(&msg) {
        Some(response) => encoded_as(result, response.frame()),
        None => result matches Err(error) && error@ == SessionFault::Internal,
    }
}

/// Whether two results are the same: the same bytes or the same error. How much
/// a full buffer could not take is left open.
pub open spec fn same_frames(
    first: Result<BytesMut, SessionError>,
    second: Result<BytesMut, SessionError>,
) -> bool {
    match (first, second) {
        (Ok(first), Ok(second)) => buffer_contents(first) == buffer_contents(second),
        (Err(first), Err(second)) => first@ == second@ || (first@ matches SessionFault::Encode(
            EncodeError::More(_),
        ) && second@ matches SessionFault::Encode(EncodeError::More(_))),
        _ => false,
    }
}

/// The request ID never reaches the wire: responses that differ in nothing else
/// have the same frame, or fail alike.
pub proof fn request_id_stays_off_the_wire(
    msg: Message,
    id: u64,
    first: Result<BytesMut, SessionError>,
    second: Result<BytesMut, SessionError>,
)
    requires
        framed_as(first, msg),
        framed_as(second, with_request_id(msg, id)),
    ensures
        same_frames(first, second),
{
    assert(response_of(&with_request_id(msg, id)) == response_of(&msg));
}

/// A frame is the type of its response, the length of the body in two bytes and
/// as many bytes of body.
pub proof fn frame_measures_its_body(msg: Message, frame: Result<BytesMut, SessionError>)
    requires
        framed_as(frame, msg),
        frame is Ok,
    ensures
        ({
            let response = response_of(&msg)->0;
            let body = response.payload()->Ok_0;
            let bytes = buffer_contents(frame->Ok_0);
            &&& response_of(&msg) is Some
            &&& response.payload() is Ok
            &&& bytes == varint(response.wire_type()) + (length_encoding(body.len() as u16) + body)
            &&& bytes.len() == varint(response.wire_type()).len() + 2 + body.len()
            &&& body.len() <= u16::MAX
            &&& length_encoding(body.len() as u16)[0] as int * 0x100 + length_encoding(
                body.len() as u16,
            )[1] == body.len()
        }),
{
}

impl Session {
    /// Builds the frame of a response: its type, the length of its body and
    /// the body without the request ID. A message that is no response is an
    /// internal error.
    pub fn encode_bidi_response_frame(msg: &Message) -> (result: Result<BytesMut, SessionError>)
        ensures
            framed_as(result, *msg),
    {
        let payload = encode_response_payload(msg)?;
        let msg_type: u64 = match msg {
            Message::RequestOk(_) => wire_id::RequestOk,
            Message::RequestError(_) => wire_id::RequestError,
            Message::SubscribeOk(_) => wire_id::SubscribeOk,
            Message::PublishDone(_) => wire_id::PublishDone,
            _ => wire_id::FetchOk,
        };
        if payload.len() > u16::MAX as usize {
            return Err(SessionError::Encode(EncodeError::MsgBoundsExceeded));
        }
        Ok(encode_frame(msg_type, buffer_as_slice(&payload)))
    }
}

fn decode_pairs_to_end(cursor: &mut Cursor) -> (result: Result<
    (KeyValuePairs, TrackProperties),
    DecodeError,
>)
    ensures
        match read_pairs_to_end(old(cursor)@) {
            Ok((params, properties)) => {
                &&& result is Ok
                &&& result->Ok_0.0@ == params
                &&& result->Ok_0.1@ == properties
                &&& final(cursor)@.len() == 0
            },
            Err(error) => result == Err::<(KeyValuePairs, TrackProperties), DecodeError>(error),
        },
{
    let params = KeyValuePairs::decode(cursor)?;
    let properties = TrackProperties::decode(cursor)?;
    Ok((params, properties))
}

fn decode_ending(cursor: &mut Cursor) -> (result: Result<(u64, u64, ReasonPhrase), DecodeError>)
    ensures
        match read_ending(old(cursor)@) {
            Ok((first, second, reason, rest)) => {
                &&& result is Ok
                &&& result->Ok_0.0 == first
                &&& result->Ok_0.1 == second
                &&& result->Ok_0.2.0@ == reason
                &&& final(cursor)@ == rest
            },
            Err(error) => result == Err::<(u64, u64, ReasonPhrase), DecodeError>(error),
        },
{
    let first: u64 = decode_varint(cursor)?;
    let second: u64 = decode_varint(cursor)?;
    let reason = ReasonPhrase::decode(cursor)?;
    Ok((first, second, reason))
}

/// Whether a message is the response that was read, with its request ID.
pub open spec fn is_response(msg: Message, response: ResponseView, request_id: u64) -> bool {
    response_of(&msg) == Some(response) && msg.answers() == Some(request_id)
}

fn decode_response(msg_type: u64, request_id: u64, cursor: &mut Cursor) -> (result: Result<
    Message,
    SessionError,
>)
    ensures
        match read_response(msg_type, old(cursor)@) {
            Ok((response, rest)) => {
                &&& result is Ok
                &&& is_response(result->Ok_0, response, request_id)
                &&& final(cursor)@.len() == rest.len()
            },
            Err(fault) => result matches Err(error) && error@ == fault,
        },
{
    match msg_type {
        wire_id::RequestError => {
            let (error_code, retry_interval, reason) = match decode_ending(cursor) {
                Ok(ending) => ending,
                Err(error) => {
                    return Err(SessionError::Decode(error));
                },
            };
            let redirect = if error_code == RequestErrorCode::Redirect.code() {
                match Redirect::decode(cursor) {
                    Ok(redirect) => Some(redirect),
                    Err(error) => {
                        return Err(SessionError::Decode(error));
                    },
                }
            } else {
                None
            };
            Ok(
                Message::RequestError(
                    RequestError { id: request_id, error_code, retry_interval, reason, redirect },
                ),
            )
        },
        wire_id::RequestOk => match decode_pairs_to_end(cursor) {
            Ok((params, track_properties)) => Ok(
                Message::RequestOk(RequestOk { id: request_id, params, track_properties }),
            ),
            Err(error) => Err(SessionError::Decode(error)),
        },
        wire_id::SubscribeOk => {
            let track_alias: u64 = match decode_varint(cursor) {
                Ok(alias) => alias,
                Err(error) => {
                    return Err(SessionError::Decode(error));
                },
            };
            match decode_pairs_to_end(cursor) {
                Ok((params, track_extensions)) => Ok(
                    Message::SubscribeOk(
                        SubscribeOk { id: request_id, track_alias, params, track_extensions },
                    ),
                ),
                Err(error) => Err(SessionError::Decode(error)),
            }
        },
        wire_id::PublishDone => match decode_ending(cursor) {
            Ok((status_code, stream_count, reason)) => Ok(
                Message::PublishDone(
                    PublishDone { id: request_id, status_code, stream_count, reason },
                ),
            ),
            Err(error) => Err(SessionError::Decode(error)),
        },
        wire_id::FetchOk => {
            let end_of_track = match decode_flag(cursor) {
                Ok(flag) => flag,
                Err(error) => {
                    return Err(SessionError::Decode(error));
                },
            };
            let end_location = match Location::decode(cursor) {
                Ok(location) => location,
                Err(error) => {
                    return Err(SessionError::Decode(error));
                },
            };
            match decode_pairs_to_end(cursor) {
                Ok((params, track_extensions)) => Ok(
                    Message::FetchOk(
                        FetchOk {
                            id: request_id,
                            end_of_track,
                            end_location,
                            params,
                            track_extensions,
                        },
                    ),
                ),
                Err(error) => Err(SessionError::Decode(error)),
            }
        },
        other => {
            let text = concat2("bidi response type 0x", &hexadecimal(other));
            Err(SessionError::Unimplemented(text))
        },
    }
}

impl Session {
    /// Whether a response is one that a request allows: only the state of a
    /// track comes with track properties, and a redirect of a request about a
    /// namespace names no track.
    pub fn validate_response_for_request(
        request_kind: RequestKind,
        is_update_response: bool,
        response: &Message,
    ) -> (result: Result<(), SessionError>)
        ensures
            same_outcome(
                result,
                match response_of(response) {
                    Some(view) => view.allowed(request_kind, is_update_response),
                    None => Ok(()),
                },
            ),
    {
        match response {
            Message::RequestOk(ok) => {
                let properties_allowed = !is_update_response && request_kind
                    == RequestKind::TrackStatus;
                if !properties_allowed && !ok.track_properties.is_empty() {
                    return Err(
                        SessionError::violation("Track Properties are only valid in TRACK_STATUS_OK"),
                    );
                }
            },
            Message::RequestError(error) => {
                if let Some(redirect) = &error.redirect {
                    if request_kind.is_namespace_scoped() && redirect.track_name.as_bytes().len()
                        > 0 {
                        return Err(
                            SessionError::violation(
                                "namespace-scoped redirect contained a Track Name",
                            ),
                        );
                    }
                }
            },
            _ => {},
        }
        Ok(())
    }

    /// Reads the body of a response. The caller supplies the request ID, which
    /// is not on the wire.
    pub fn decode_bidi_response_payload(
        msg_type: u64,
        payload: BytesMut,
        request_id: u64,
        request_kind: RequestKind,
    ) -> (result: Result<Message, SessionError>)
        ensures
            match decoded_response(msg_type, buffer_contents(payload), request_kind) {
                Ok(response) => result is Ok && is_response(result->Ok_0, response, request_id),
                Err(fault) => result matches Err(error) && error@ == fault,
            },
    {
        let mut cursor = Cursor::new(buffer_as_slice(&payload));
        let message = decode_response(msg_type, request_id, &mut cursor)?;
        let left: usize = cursor.remaining();
        if left > 0 {
            let text = concat3("response type 0x", &hexadecimal(msg_type), " left ");
            let text = concat3(&text, &decimal(left as u64), " unparsed body bytes");
            return Err(SessionError::ProtocolViolation(text));
        }
        Session::validate_response_for_request(request_kind, false, &message)?;
        Ok(message)
    }

    /// Reads what the peer of a PUBLISH sends: a response, or an update that
    /// carries an ID of its own.
    pub fn decode_publish_response_payload(
        msg_type: u64,
        payload: BytesMut,
        request_id: u64,
    ) -> (result: Result<Message, SessionError>)
        ensures
            if msg_type != wire_id::RequestUpdate {
                match decoded_response(msg_type, buffer_contents(payload), RequestKind::Publish) {
                    Ok(response) => result is Ok && is_response(result->Ok_0, response, request_id),
                    Err(fault) => result matches Err(error) && error@ == fault,
                }
            } else {
                match read_update(buffer_contents(payload)) {
                    Ok((id, params)) => {
                        &&& result matches Ok(Message::RequestUpdate(update))
                        &&& update.id == id
                        &&& update.params@ == params
                    },
                    Err(fault) => result matches Err(error) && error@ == fault,
                }
            },
    {
        if msg_type != wire_id::RequestUpdate {
            return Session::decode_bidi_response_payload(
                msg_type,
                payload,
                request_id,
                RequestKind::Publish,
            );
        }
        let mut cursor = Cursor::new(buffer_as_slice(&payload));
        let update = match RequestUpdate::decode(&mut cursor) {
            Ok(update) => update,
            Err(error) => {
                return Err(SessionError::Decode(error));
            },
        };
        let left: usize = cursor.remaining();
        if left > 0 {
            let text = concat3("REQUEST_UPDATE left ", &decimal(left as u64), " unparsed body bytes");
            return Err(SessionError::ProtocolViolation(text));
        }
        Ok(Message::RequestUpdate(update))
    }

    /// The request that a follow-up on a PUBLISH stream belongs to: an answer
    /// belongs to the oldest update that waits for one, anything else to the
    /// publication.
    pub fn publish_followup_request_id(
        msg_type: u64,
        initial_id: u64,
        pending_reverse_update: Option<u64>,
    ) -> (result: Result<u64, SessionError>)
        ensures
            same_outcome(
                result,
                if msg_type == wire_id::RequestOk || msg_type == wire_id::RequestError {
                    match pending_reverse_update {
                        Some(id) => Ok(id),
                        None => Err(
                            SessionFault::ProtocolViolation(
                                "PUBLISH response arrived without a pending reverse update"@,
                            ),
                        ),
                    }
                } else {
                    Ok(initial_id)
                },
            ),
    {
        match msg_type {
            wire_id::PublishDone => Ok(initial_id),
            wire_id::RequestOk | wire_id::RequestError => match pending_reverse_update {
                Some(id) => Ok(id),
                None => Err(
                    SessionError::violation(
                        "PUBLISH response arrived without a pending reverse update",
                    ),
                ),
            },
            _ => Ok(initial_id),
        }
    }
}

/// Reads an update that fills its body.
pub open spec fn read_update(bytes: Seq<u8>) -> Result<(u64, Seq<Pair>), SessionFault> {
    match read_varint(bytes) {
        Ok((id, rest)) => match read_list(rest) {
            Ok((params, rest)) => if rest.len() > 0 {
                Err(
                    SessionFault::ProtocolViolation(
                        "REQUEST_UPDATE left "@ + digits(rest.len(), 10) + " unparsed body bytes"@,
                    ),
                )
            } else {
                Ok((id, params))
            },
            Err(error) => Err(SessionFault::Decode(error)),
        },
        Err(error) => Err(SessionFault::Decode(error)),
    }
}

/// What writing an update yields: its ID and its parameters.
pub open spec fn update_encoding(id: u64, params: Seq<Pair>) -> Result<Seq<u8>, Stop> {
    joined(varint_encoding(id), list_encoding(params))
}

/// An update is read back with its own ID and its parameters by ascending key.
pub proof fn update_round_trip(id: u64, params: Seq<Pair>)
    requires
        update_encoding(id, params) is Ok,
        update_encoding(id, params)->Ok_0.len() <= u16::MAX,
        params.len() <= u64::MAX,
    ensures
        read_update(update_encoding(id, params)->Ok_0) == Ok::<_, SessionFault>(
            (id, sorted_pairs(params)),
        ),
{
    let body = list_encoding(params)->Ok_0;
    short_pairs_fit(0, sorted_pairs(params));
    sorted_pairs_ascending(params);
    varint_round_trip(id, body);
    list_round_trip(params, Seq::empty());
    assert(body + Seq::<u8>::empty() =~= body);
}

impl RequestUpdate {
    pub fn encode(&self, buffer: &mut BytesMut) -> (result: Result<(), EncodeError>)
        ensures
            appended(
                buffer_contents(*old(buffer)),
                buffer_contents(*final(buffer)),
                update_encoding(self.id, self.params@),
                result,
            ),
    {
        let id = encode_varint(self.id, buffer);
        proof {
            join_step(
                buffer_contents(*old(buffer)),
                buffer_contents(*buffer),
                varint_encoding(self.id),
                list_encoding(self.params@),
                id,
            );
        }
        id?;
        self.params.encode(buffer)
    }

    pub fn decode(cursor: &mut Cursor) -> (result: Result<RequestUpdate, DecodeError>)
        ensures
            match read_varint(old(cursor)@) {
                Ok((id, rest)) => match read_list(rest) {
                    Ok((params, rest)) => {
                        &&& result is Ok
                        &&& result->Ok_0.id == id
                        &&& result->Ok_0.params@ == params
                        &&& final(cursor)@ == rest
                    },
                    Err(error) => result == Err::<RequestUpdate, DecodeError>(error),
                },
                Err(error) => result == Err::<RequestUpdate, DecodeError>(error),
            },
    {
        let id: u64 = decode_varint(cursor)?;
        let params = KeyValuePairs::decode(cursor)?;
        Ok(RequestUpdate { id, params })
    }
}

} // verus!
