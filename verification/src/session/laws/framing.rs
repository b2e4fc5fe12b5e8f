//! Responses on the wire: every proper one is framed, and nothing is left over.

use bytes::BytesMut;
use vstd::prelude::*;
use vstd::utf8::encode_utf8;

use crate::coding::buffer::{buffer_contents, joined};
use crate::coding::field::field_round_trip;
use crate::coding::kvp::{value_of, Pair};
use crate::coding::laws::{formed_list_is_written, has_form, sorting_changes_no_value};
use crate::coding::name::{
    namespace_fits, namespace_round_trip, text_encoding, MAX_NAME_LENGTH,
};
use crate::coding::varint::varint_encoding;
use crate::coding::Location;
use crate::message::types::RedirectView;
use crate::message::{Message, Redirect, RequestUpdate};
use crate::session::error::{SessionError, SessionFault};
use crate::session::kind::RequestKind;
use crate::session::response::{
    read_response, response_of, update_encoding, update_round_trip, ResponseView,
};
use crate::session::Session;

verus! {

/// Whether parameters have a form on the wire, all of them.
pub open spec fn have_form(pairs: Seq<Pair>) -> bool {
    &&& pairs.len() < u32::MAX
    &&& forall|i: int| 0 <= i < pairs.len() ==> has_form(#[trigger] pairs[i])
}

/// Whether a redirect is small enough for the wire.
pub open spec fn is_small(redirect: Redirect) -> bool {
    &&& encode_utf8(redirect.connect_uri.0@).len() <= 8192
    &&& redirect.track_namespace@.len() <= 32
    &&& forall|i: int|
        0 <= i < redirect.track_namespace@.len() ==> (
        #[trigger] redirect.track_namespace@[i]).len() <= MAX_NAME_LENGTH
    &&& redirect.track_name@.len() <= MAX_NAME_LENGTH
}

/// Whether a response is in order: its numbers and parameters have a form, its
/// reason is not too long, and it has a redirect exactly if its code says so.
pub open spec fn is_proper(msg: Message) -> bool {
    match msg {
        Message::RequestOk(m) => have_form(m.params@) && have_form(m.track_properties@),
        Message::SubscribeOk(m) => m.track_alias < 0x4000_0000_0000_0000 && have_form(m.params@)
            && have_form(m.track_extensions@),
        Message::FetchOk(m) => m.end_location.group_id < 0x4000_0000_0000_0000
            && m.end_location.object_id < 0x4000_0000_0000_0000 && have_form(m.params@)
            && have_form(m.track_extensions@),
        Message::PublishDone(m) => m.status_code < 0x4000_0000_0000_0000 && m.stream_count
            < 0x4000_0000_0000_0000 && encode_utf8(m.reason.0@).len() <= 1024,
        Message::RequestError(m) => {
            &&& m.error_code < 0x4000_0000_0000_0000
            &&& m.retry_interval < 0x4000_0000_0000_0000
            &&& encode_utf8(m.reason.0@).len() <= 1024
            &&& m.redirect is Some <==> m.error_code == 0x33
            &&& m.redirect matches Some(redirect) ==> is_small(redirect)
        },
        _ => false,
    }
}

proof fn small_redirect_is_written(redirect: Redirect)
    requires
        is_small(redirect),
    ensures
        redirect@.encoding() is Ok,
{
    let view: RedirectView = redirect@;
    field_round_trip(encode_utf8(view.connect_uri), 8192, Seq::empty());
    assert(namespace_fits(view.track_namespace));
    namespace_round_trip(view.track_namespace, Seq::empty());
    field_round_trip(view.track_name, MAX_NAME_LENGTH as u64, Seq::empty());
}

proof fn formed_parameters_have_a_body(
    alias: u64,
    end_of_track: bool,
    end: Location,
    params: Seq<Pair>,
    properties: Seq<Pair>,
)
    requires
        have_form(params),
        have_form(properties),
        alias < 0x4000_0000_0000_0000,
        end.group_id < 0x4000_0000_0000_0000,
        end.object_id < 0x4000_0000_0000_0000,
    ensures
        (ResponseView::RequestOk { params, properties }).payload() is Ok,
        (ResponseView::SubscribeOk {
            track_alias: alias,
            params,
            extensions: properties,
        }).payload() is Ok,
        (ResponseView::FetchOk {
            end_of_track,
            end_location: end,
            params,
            extensions: properties,
        }).payload() is Ok,
{
    reveal(ResponseView::payload);
    formed_list_is_written(params);
    formed_list_is_written(properties);
}

proof fn head_is_written(first: u64, second: u64, reason: Seq<char>)
    requires
        first < 0x4000_0000_0000_0000,
        second < 0x4000_0000_0000_0000,
        encode_utf8(reason).len() <= 1024,
    ensures
        ({
            let head = joined(
                varint_encoding(first),
                joined(varint_encoding(second), text_encoding(reason, 1024)),
            );
            head is Ok && head->Ok_0.len() <= 2000
        }),
{
    field_round_trip(encode_utf8(reason), 1024, Seq::empty());
}

proof fn end_has_a_body(status_code: u64, stream_count: u64, reason: Seq<char>)
    requires
        status_code < 0x4000_0000_0000_0000,
        stream_count < 0x4000_0000_0000_0000,
        encode_utf8(reason).len() <= 1024,
    ensures
        ({
            let done = ResponseView::PublishDone { status_code, stream_count, reason };
            done.payload() is Ok && done.payload()->Ok_0.len() <= u16::MAX
        }),
{
    head_is_written(status_code, stream_count, reason);
    reveal(ResponseView::payload);
}

#[verifier::rlimit(50)]
proof fn refusal_has_a_body(
    error_code: u64,
    retry_interval: u64,
    reason: Seq<char>,
    redirect: Option<RedirectView>,
)
    requires
        error_code < 0x4000_0000_0000_0000,
        retry_interval < 0x4000_0000_0000_0000,
        encode_utf8(reason).len() <= 1024,
        redirect is Some <==> error_code == 0x33,
        redirect matches Some(redirect) ==> redirect.encoding() is Ok,
    ensures
        ({
            let refusal = ResponseView::RequestError {
                error_code,
                retry_interval,
                reason,
                redirect,
            };
            refusal.payload() is Ok && (redirect is None ==> refusal.payload()->Ok_0.len()
                <= u16::MAX)
        }),
{
    head_is_written(error_code, retry_interval, reason);
    reveal(ResponseView::payload);
    if let Some(redirect) = redirect {
        let tail = redirect.encoding();
        let head = joined(
            varint_encoding(error_code),
            joined(varint_encoding(retry_interval), text_encoding(reason, 1024)),
        );
        assert(joined(head, tail) is Ok);
    }
}

/// Every proper response is framed, as long as its body fits a frame.
pub proof fn proper_response_is_framed(msg: &Message, result: Result<BytesMut, SessionError>)
    requires
        call_ensures(Session::encode_bidi_response_frame, (msg,), result),
        is_proper(*msg),
    ensures
        response_of(msg) is Some,
        response_of(msg)->0.payload() is Ok,
        response_of(msg)->0.payload()->Ok_0.len() <= u16::MAX ==> result is Ok,
        response_of(msg)->0.payload()->Ok_0.len() > u16::MAX ==> result is Err,
        msg is PublishDone ==> result is Ok,
        msg matches Message::RequestError(m) ==> (m.redirect is None ==> result is Ok),
{
    let start = Location { group_id: 0, object_id: 0 };
    match *msg {
        Message::RequestOk(m) => {
            formed_parameters_have_a_body(0, false, start, m.params@, m.track_properties@);
        },
        Message::SubscribeOk(m) => {
            formed_parameters_have_a_body(
                m.track_alias,
                false,
                start,
                m.params@,
                m.track_extensions@,
            );
        },
        Message::FetchOk(m) => {
            formed_parameters_have_a_body(
                0,
                m.end_of_track,
                m.end_location,
                m.params@,
                m.track_extensions@,
            );
        },
        Message::PublishDone(m) => {
            end_has_a_body(m.status_code, m.stream_count, m.reason.0@);
        },
        Message::RequestError(m) => {
            match m.redirect {
                Some(redirect) => {
                    small_redirect_is_written(redirect);
                    refusal_has_a_body(
                        m.error_code,
                        m.retry_interval,
                        m.reason.0@,
                        Some(redirect@),
                    );
                },
                None => {
                    refusal_has_a_body(m.error_code, m.retry_interval, m.reason.0@, None);
                },
            }
        },
        _ => {},
    }
}

/// A refusal that redirects without saying where, or that says where without
/// redirecting, is not framed; nor is a message that is no response.
pub proof fn contradictory_refusal_is_not_framed(
    msg: &Message,
    result: Result<BytesMut, SessionError>,
)
    requires
        call_ensures(Session::encode_bidi_response_frame, (msg,), result),
    ensures
        msg matches Message::RequestError(m) ==> (m.redirect is Some) != (m.error_code == 0x33)
            ==> result is Err,
        msg.answers() is None ==> result is Err && result->Err_0@ == SessionFault::Internal,
{
    reveal(ResponseView::payload);
}

/// A response that is read fills its body, and one with bytes left over is
/// refused.
pub proof fn nothing_is_left_over(
    msg_type: u64,
    payload: BytesMut,
    request_id: u64,
    kind: RequestKind,
    result: Result<Message, SessionError>,
)
    requires
        call_ensures(
            Session::decode_bidi_response_payload,
            (msg_type, payload, request_id, kind),
            result,
        ),
    ensures
        read_response(msg_type, buffer_contents(payload)) matches Ok((response, rest)) ==> {
            &&& rest.len() > 0 ==> result is Err && result->Err_0@ is ProtocolViolation
            &&& rest.len() == 0 && response.allowed(kind, false) is Ok ==> result is Ok
                && response_of(&result->Ok_0) == Some(response) && result->Ok_0.answers() == Some(
                request_id,
            )
        },
        read_response(msg_type, buffer_contents(payload)) matches Err(fault) ==> result is Err
            && result->Err_0@ == fault,
        msg_type != 0x04 && msg_type != 0x05 && msg_type != 0x07 && msg_type != 0x0b && msg_type
            != 0x18 ==> result is Err && result->Err_0@ is Unimplemented,
{
}

/// What the peer of a publication sends is read by its type: an update with
/// its own ID, which fills its body, and anything else as a response.
pub proof fn publication_messages_are_read_by_type(
    msg_type: u64,
    payload: BytesMut,
    request_id: u64,
    result: Result<Message, SessionError>,
)
    requires
        call_ensures(
            Session::decode_publish_response_payload,
            (msg_type, payload, request_id),
            result,
        ),
        result is Ok,
    ensures
        msg_type == 0x02 <==> result->Ok_0 is RequestUpdate,
        msg_type == 0x05 <==> result->Ok_0 is RequestError,
        msg_type == 0x07 <==> result->Ok_0 is RequestOk,
        msg_type == 0x0b <==> result->Ok_0 is PublishDone,
        msg_type != 0x02 ==> result->Ok_0.answers() == Some(request_id),
{
}

/// An update that was written is read back on the stream of its publication,
/// with its own ID and the same value under every key.
pub proof fn update_is_written_and_read(
    update: &RequestUpdate,
    buffer: &mut BytesMut,
    payload: BytesMut,
    request_id: u64,
    result: Result<Message, SessionError>,
    key: u64,
)
    requires
        call_ensures(RequestUpdate::encode, (update, buffer), Ok(())),
        buffer_contents(*old(buffer)).len() == 0,
        buffer_contents(payload) == buffer_contents(*final(buffer)),
        buffer_contents(payload).len() <= u16::MAX,
        update.params@.len() <= u64::MAX,
        call_ensures(
            Session::decode_publish_response_payload,
            (0x02, payload, request_id),
            result,
        ),
    ensures
        result is Ok,
        result->Ok_0 is RequestUpdate,
        result->Ok_0->RequestUpdate_0.id == update.id,
        value_of(result->Ok_0->RequestUpdate_0.params@, key) == value_of(update.params@, key),
        result->Ok_0->RequestUpdate_0.params@.len() == update.params@.len(),
{
    let bytes = update_encoding(update.id, update.params@)->Ok_0;
    assert(buffer_contents(*old(buffer)) + bytes =~= bytes);
    update_round_trip(update.id, update.params@);
    sorting_changes_no_value(update.params@, key);
}

} // verus!
