//! How a connection starts: its path, and what the two ends tell each other.

use vstd::prelude::*;
use vstd::utf8::encode_utf8;

use crate::coding::kvp::{set_then_get, value_of, KeyValuePairs, Pair, ValueView};
use crate::serve::error::ServeFault;
use crate::serve::ServeError;
use crate::session::error::{SessionError, SessionFault};
use crate::session::path::{first_fault, first_slash, segment_fault, segments, trimmed};
use crate::session::request_id::RequestId;
use crate::session::setup::{
    client_path_reaches_the_server, common_params, text_view, update_limit_is_told, with_authority,
    ConnectPlan, UrlParts, AUTHORITY, DEFAULT_MAX_REQUEST_UPDATES, MAX_REQUEST_UPDATES, PATH,
};
use crate::session::{Session, Transport};

verus! {

/// Whether a text, up to its first slash, is nothing, one dot or two.
pub open spec fn starts_badly(text: Seq<char>) -> bool {
    ||| text.len() == 0
    ||| text[0] == '/'
    ||| text[0] == '.' && (text.len() == 1 || text[1] == '/')
    ||| text.len() >= 2 && text[0] == '.' && text[1] == '.' && (text.len() == 2 || text[2] == '/')
}

/// Whether a text, read behind a slash, has an ordinary name between any two
/// slashes, and no encoded character.
pub open spec fn is_clean(text: Seq<char>) -> bool {
    &&& !starts_badly(text)
    &&& forall|i: int| 0 <= i < text.len() ==> #[trigger] text[i] != '%'
    &&& forall|i: int|
        0 <= i < text.len() && #[trigger] text[i] == '/' ==> !starts_badly(text.skip(i + 1))
}

proof fn slash_is_first(text: Seq<char>)
    ensures
        0 <= first_slash(text) <= text.len(),
        first_slash(text) < text.len() ==> text[first_slash(text)] == '/',
        forall|i: int| 0 <= i < first_slash(text) ==> #[trigger] text[i] != '/',
    decreases text.len(),
{
    if text.len() > 0 && text[0] != '/' {
        let tail = text.drop_first();
        slash_is_first(tail);
        let at = first_slash(tail);
        assert(at < tail.len() ==> tail[at] == text[at + 1]);
        assert forall|i: int| 0 <= i < at + 1 implies #[trigger] text[i] != '/' by {
            if i > 0 {
                assert(tail[i - 1] == text[i]);
            }
        }
    }
}

proof fn name_is_ordinary(text: Seq<char>)
    ensures
        ({
            let name = text.take(first_slash(text));
            segment_fault(name) is None <==> !starts_badly(text) && forall|i: int|
                0 <= i < first_slash(text) ==> #[trigger] text[i] != '%'
        }),
{
    slash_is_first(text);
    let end = first_slash(text);
    let name = text.take(end);
    assert(name.contains('%') <==> exists|i: int| 0 <= i < end && #[trigger] text[i] == '%') by {
        if name.contains('%') {
            let k = choose|k: int| 0 <= k < name.len() && name[k] == '%';
            assert(text[k] == '%');
        }
        if exists|i: int| 0 <= i < end && #[trigger] text[i] == '%' {
            let k = choose|k: int| 0 <= k < end && #[trigger] text[k] == '%';
            assert(name[k] == '%');
        }
    }
    if end == 0 {
        assert(starts_badly(text));
    } else {
        assert(name[0] == text[0]);
        if name == seq!['.'] {
            assert(name[0] == '.' && name.len() == 1);
        }
        if name == seq!['.', '.'] {
            assert(name[0] == '.' && name[1] == '.' && name.len() == 2);
            assert(text[1] == name[1]);
        }
        if end == 1 && text[0] == '.' {
            assert(name =~= seq!['.']);
        }
        if end == 2 && text[0] == '.' && text[1] == '.' {
            assert(name[1] == text[1]);
            assert(name =~= seq!['.', '.']);
        }
    }
}

proof fn clean_text_has_no_fault(text: Seq<char>)
    ensures
        first_fault(segments(text)) is None <==> is_clean(text),
    decreases text.len(),
{
    slash_is_first(text);
    name_is_ordinary(text);
    let end = first_slash(text);
    let name = text.take(end);
    if end == text.len() {
        assert(name =~= text);
        let parts = segments(text);
        assert(parts =~= seq![text]);
        assert(parts.drop_first().len() == 0);
        assert(first_fault(parts.drop_first()) is None);
    } else {
        let rest = text.skip(end + 1);
        clean_text_has_no_fault(rest);
        let parts = segments(text);
        assert(parts =~= seq![name] + segments(rest));
        assert(parts[0] == name);
        assert(parts.drop_first() =~= segments(rest));
        assert forall|i: int| 0 <= i < rest.len() implies #[trigger] rest[i] == text[i + end
            + 1] by {}
        if is_clean(text) {
            assert(text[end] == '/');
            assert(!starts_badly(rest));
            assert forall|i: int| 0 <= i < rest.len() && #[trigger] rest[i] == '/' implies !starts_badly(
                rest.skip(i + 1),
            ) by {
                assert(text[i + end + 1] == '/');
                assert(rest.skip(i + 1) =~= text.skip(i + end + 2));
            }
            assert(is_clean(rest));
        }
        if segment_fault(name) is None && is_clean(rest) {
            assert forall|i: int| 0 <= i < text.len() implies #[trigger] text[i] != '%' by {
                if i > end {
                    assert(rest[i - end - 1] == text[i]);
                }
            }
            assert forall|i: int| 0 <= i < text.len() && #[trigger] text[i] == '/' implies !starts_badly(
                text.skip(i + 1),
            ) by {
                if i == end {
                } else {
                    assert(rest[i - end - 1] == '/');
                    assert(rest.skip(i - end) =~= text.skip(i + 1));
                }
            }
            assert(is_clean(text));
        }
    }
}

proof fn slashes_are_trimmed(path: Seq<char>, tail: Seq<char>)
    requires
        path.len() == 0 || path.last() != '/',
        forall|i: int| 0 <= i < tail.len() ==> #[trigger] tail[i] == '/',
    ensures
        trimmed(path + tail) == path,
    decreases tail.len(),
{
    if tail.len() > 0 {
        let shorter = tail.drop_last();
        assert forall|i: int| 0 <= i < shorter.len() implies #[trigger] shorter[i] == '/' by {
            assert(shorter[i] == tail[i]);
        }
        slashes_are_trimmed(path, shorter);
        assert((path + tail).drop_last() =~= path + shorter);
        assert((path + tail).last() == tail.last());
    } else {
        assert(path + tail =~= path);
    }
}

/// A path of ordinary names is accepted as it is, without the slashes at its
/// end, however many; a path that holds anything else between its slashes, or
/// an encoded character, is refused.
pub proof fn clean_paths_are_accepted(
    raw: &str,
    path: Seq<char>,
    tail: Seq<char>,
    result: Result<Option<String>, SessionError>,
)
    requires
        call_ensures(Session::normalize_connection_path, (raw,), result),
        raw@ == path + tail,
        path.len() > 0,
        path[0] == '/',
        path.last() != '/',
        forall|i: int| 0 <= i < tail.len() ==> #[trigger] tail[i] == '/',
        encode_utf8(raw@).len() <= 1024,
    ensures
        is_clean(path.skip(1)) ==> result is Ok && result->Ok_0 is Some && result->Ok_0->0@ == path,
        !is_clean(path.skip(1)) ==> result is Err && result->Err_0@ is InvalidPath,
{
    slashes_are_trimmed(path, tail);
    clean_text_has_no_fault(path.skip(1));
    assert(path.drop_first() =~= path.skip(1));
    assert(raw@[0] == path[0]);
    assert(path.len() > 1);
    if raw@ == seq!['/'] {
        assert(raw@.len() == 1);
    }
}

/// Nothing, and slashes alone, are the root.
pub proof fn slashes_alone_are_the_root(raw: &str, result: Result<Option<String>, SessionError>)
    requires
        call_ensures(Session::normalize_connection_path, (raw,), result),
        forall|i: int| 0 <= i < raw@.len() ==> #[trigger] raw@[i] == '/',
        encode_utf8(raw@).len() <= 1024,
    ensures
        result is Ok,
        result->Ok_0 is None,
{
    slashes_are_trimmed(Seq::empty(), raw@);
    assert(Seq::empty() + raw@ =~= raw@);
}

/// A path that is too long, or that does not start with a slash, is refused.
pub proof fn other_paths_are_refused(raw: &str, result: Result<Option<String>, SessionError>)
    requires
        call_ensures(Session::normalize_connection_path, (raw,), result),
        raw@.len() > 1,
        encode_utf8(raw@).len() > 1024 || raw@[0] != '/',
    ensures
        result is Err,
        result->Err_0@ is InvalidPath,
{
    if raw@ == seq!['/'] {
        assert(raw@.len() == 1);
    }
}

/// A client over raw QUIC and the server that it connects to agree: both have
/// the path of the URL, each keeps to the limit that the other told, and the
/// requests of either are numbered as the other expects.
pub proof fn both_ends_start_alike(
    url: &UrlParts,
    plan: ConnectPlan,
    url_path: &str,
    server: Session,
    told: KeyValuePairs,
    server_ids: RequestId,
    accepted: Result<(Session, KeyValuePairs, RequestId), SessionError>,
    connected: Result<(Session, RequestId), SessionError>,
)
    requires
        call_ensures(Session::plan_connect_to, (url, Transport::RawQuic), Ok(plan)),
        url.query is None,
        url_path@.len() == 0,
        call_ensures(Session::accept, (Transport::RawQuic, url_path, &plan.params), accepted),
        accepted == Ok::<_, SessionError>((server, told, server_ids)) || accepted is Err,
        call_ensures(Session::connected, (plan, Transport::RawQuic, &told), connected),
    ensures
        accepted is Ok,
        connected is Ok,
        server.spec_path() == text_view(plan.connection_path),
        (connected->Ok_0).0.spec_path() == server.spec_path(),
        (connected->Ok_0).0.incoming_limit() == server.outgoing_limit(),
        (connected->Ok_0).0.outgoing_limit() == server.incoming_limit(),
        server.incoming_limit() == 16,
        (connected->Ok_0).0.incoming_limit() == 16,
        (connected->Ok_0).1.agrees_with(server_ids),
        server_ids.agrees_with((connected->Ok_0).1),
{
    update_limit_is_told(url@, Transport::RawQuic);
    client_path_reaches_the_server(url@);
}

/// Over WebTransport, which carries them itself, a client tells neither path
/// nor authority; over raw QUIC it tells both, the authority with its port
/// where it has one.
pub proof fn raw_quic_tells_authority_and_path(
    url: &UrlParts,
    transport: Transport,
    params: KeyValuePairs,
)
    requires
        call_ensures(Session::client_parameters, (url, transport), params),
    ensures
        value_of(params@, MAX_REQUEST_UPDATES) == Some(ValueView::Int(16)),
        transport == Transport::WebTransport ==> {
            &&& value_of(params@, AUTHORITY) is None
            &&& value_of(params@, PATH) is None
        },
        transport == Transport::RawQuic ==> {
            &&& url.host is None <==> value_of(params@, AUTHORITY) is None
            &&& url.host is Some && url.port is None ==> value_of(params@, AUTHORITY) == Some(
                ValueView::Bytes(encode_utf8(url.host->0@)),
            )
            &&& url.host is Some && url.port is Some ==> value_of(params@, AUTHORITY) == Some(
                ValueView::Bytes(
                    encode_utf8(
                        url.host->0@ + ":"@ + crate::text::digits(url.port->0 as nat, 10),
                    ),
                ),
            )
            &&& url.query is None && url.path@.len() > 1 ==> value_of(params@, PATH) == Some(
                ValueView::Bytes(encode_utf8(url.path@)),
            )
            &&& url.query matches Some(query) ==> value_of(params@, PATH) == Some(
                ValueView::Bytes(encode_utf8(url.path@ + "?"@ + query@)),
            )
            &&& url.query is None && url.path@.len() == 0 ==> value_of(params@, PATH) is None
            &&& url.query is None && url.path@ == seq!['/'] ==> value_of(params@, PATH) is None
        },
{
    reveal_strlit("?");
    let limit = ValueView::Int(DEFAULT_MAX_REQUEST_UPDATES);
    let none = Seq::<Pair>::empty();
    set_then_get(none, MAX_REQUEST_UPDATES, limit, AUTHORITY);
    set_then_get(none, MAX_REQUEST_UPDATES, limit, PATH);
    assert(value_of(none, AUTHORITY) is None);
    assert(value_of(none, PATH) is None);
    let parts = url@;
    let named = with_authority(common_params(), parts);
    if let Some(authority) = parts.authority() {
        let value = ValueView::Bytes(encode_utf8(authority));
        set_then_get(common_params(), AUTHORITY, value, PATH);
        set_then_get(common_params(), AUTHORITY, value, MAX_REQUEST_UPDATES);
    }
    if parts.tells_path() {
        let value = ValueView::Bytes(encode_utf8(parts.path_and_query()));
        set_then_get(named, PATH, value, AUTHORITY);
        set_then_get(named, PATH, value, MAX_REQUEST_UPDATES);
    }
    if parts.query is None && url.path@.len() > 1 {
        if parts.path_and_query() == seq!['/'] {
            assert(parts.path_and_query().len() == 1);
        }
    }
    if let Some(query) = url.query {
        let whole = url.path@ + "?"@ + query@;
        assert(whole[url.path@.len() as int] == '?');
        if whole == seq!['/'] {
            assert(url.path@.len() == 0);
            assert(whole[0] == '?');
        }
    }
}

/// The URL of a connection comes first: the path in SETUP is looked at only
/// where the URL names none.
pub proof fn setup_path_stands_in(
    url_path: &str,
    params: &KeyValuePairs,
    by_url: Result<Option<String>, SessionError>,
    by_setup: Result<Option<String>, SessionError>,
    result: Result<Option<String>, SessionError>,
)
    requires
        call_ensures(Session::normalize_connection_path, (url_path,), by_url),
        call_ensures(Session::decode_client_setup_path, (params,), by_setup),
        call_ensures(Session::resolve_connection_path, (url_path, params), result),
    ensures
        by_url is Err ==> result is Err && result->Err_0@ == by_url->Err_0@,
        by_url is Ok && by_url->Ok_0 is Some ==> result is Ok && result->Ok_0 is Some
            && result->Ok_0->0@ == by_url->Ok_0->0@,
        by_url is Ok && by_url->Ok_0 is None ==> {
            &&& result is Ok <==> by_setup is Ok
            &&& result is Ok ==> text_view(result->Ok_0) == text_view(by_setup->Ok_0)
            &&& result is Err ==> result->Err_0@ == by_setup->Err_0@
        },
        value_of(params@, PATH) is None ==> by_setup is Ok && by_setup->Ok_0 is None,
{
}

/// The peer's limit is the one that it told, and none where it told none.
pub proof fn peer_limit_is_the_one_it_told(
    params: &KeyValuePairs,
    result: Result<u64, SessionError>,
)
    requires
        call_ensures(Session::peer_max_request_updates, (params,), result),
    ensures
        value_of(params@, MAX_REQUEST_UPDATES) is None ==> result == Ok::<u64, SessionError>(0),
        value_of(params@, MAX_REQUEST_UPDATES) matches Some(ValueView::Int(limit)) ==> result == Ok::<
            u64,
            SessionError,
        >(limit),
        result is Err <==> value_of(params@, MAX_REQUEST_UPDATES) matches Some(ValueView::Bytes(_)),
{
}

/// A request that the peer cancelled is over; any other failure of a request
/// stream ends the session, with its cause.
pub proof fn only_cancelled_streams_are_forgiven(
    result: Result<(), SessionError>,
    outcome: Result<(), SessionError>,
)
    requires
        call_ensures(Session::request_stream_ended, (result,), outcome),
    ensures
        outcome is Ok <==> result is Ok || result->Err_0@ == SessionFault::StreamReset(
            crate::session::error::REQUEST_STREAM_CANCELLED,
        ),
        outcome is Err ==> outcome == result,
{
}

/// To a track, a failure that has a cause of its own is that cause, and any
/// other is an internal error with its words.
pub proof fn failures_keep_their_cause(error: SessionError, cause: ServeError)
    requires
        call_ensures(SessionError::into_serve, (error,), cause),
    ensures
        error@ matches SessionFault::Serve(fault) ==> cause@ == fault,
        !(error@ is Serve) ==> cause@ == ServeFault::InternalWithId(0, error@.message()),
{
}

/// Each end keeps to the limit that the other told it, whatever it is, and has
/// the transport, the path and the numbers that go with its side. SETUP is
/// refused only for a limit or a path that is not in order.
pub proof fn told_limits_are_kept(
    transport: Transport,
    plan: ConnectPlan,
    params: &KeyValuePairs,
    limit: Result<u64, SessionError>,
    url_path: &str,
    path: Result<Option<String>, SessionError>,
    connected: Result<(Session, RequestId), SessionError>,
    accepted: Result<(Session, KeyValuePairs, RequestId), SessionError>,
)
    requires
        call_ensures(Session::peer_max_request_updates, (params,), limit),
        call_ensures(Session::resolve_connection_path, (url_path, params), path),
        call_ensures(Session::connected, (plan, transport, params), connected),
        call_ensures(Session::accept, (transport, url_path, params), accepted),
    ensures
        connected is Ok <==> limit is Ok,
        connected matches Ok((session, ids)) ==> {
            &&& session.outgoing_limit() == limit->Ok_0
            &&& session.incoming_limit() == 16
            &&& session.spec_transport() == transport
            &&& session.spec_path() == text_view(plan.connection_path)
            &&& ids.upcoming() == Some(0u64)
            &&& ids.peer_first() == 1
        },
        accepted is Ok <==> limit is Ok && path is Ok,
        accepted matches Ok((session, told, ids)) ==> {
            &&& session.outgoing_limit() == limit->Ok_0
            &&& session.incoming_limit() == 16
            &&& session.spec_transport() == transport
            &&& session.spec_path() == text_view(path->Ok_0)
            &&& value_of(told@, MAX_REQUEST_UPDATES) == Some(ValueView::Int(16))
            &&& ids.upcoming() == Some(1u64)
            &&& ids.peer_first() == 0
        },
        limit is Err ==> connected->Err_0@ == limit->Err_0@ && accepted->Err_0@ == limit->Err_0@,
        limit is Ok && path is Err ==> accepted->Err_0@ == path->Err_0@,
{
    let none = Seq::<Pair>::empty();
    let value = ValueView::Int(DEFAULT_MAX_REQUEST_UPDATES);
    set_then_get(none, MAX_REQUEST_UPDATES, value, MAX_REQUEST_UPDATES);
}

/// A session says of itself what it was started with.
pub proof fn session_says_what_it_started_with(
    transport: Transport,
    path: Option<String>,
    limit: u64,
    session: Session,
    said: Transport,
    limits: (u64, u64),
    told: Option<&str>,
)
    requires
        call_ensures(Session::new, (transport, path, limit), session),
        call_ensures(Session::transport, (&session,), said),
        call_ensures(Session::request_update_limits, (&session,), limits),
        call_ensures(Session::connection_path, (&session,), told),
    ensures
        said == transport,
        limits.0 == 16,
        limits.1 == limit,
        told is Some <==> path is Some,
        path matches Some(path) ==> told->0@ == path@,
{
}

/// A connection to the parts of a URL starts with the path of the URL and with
/// the parameters of a client; it fails only for a path that is not in order.
pub proof fn connection_starts_from_its_url(
    url: &UrlParts,
    raw: &str,
    transport: Transport,
    path: Result<Option<String>, SessionError>,
    params: KeyValuePairs,
    result: Result<ConnectPlan, SessionError>,
)
    requires
        raw@ == url.path@,
        call_ensures(Session::normalize_connection_path, (raw,), path),
        call_ensures(Session::client_parameters, (url, transport), params),
        call_ensures(Session::plan_connect_to, (url, transport), result),
    ensures
        result is Ok <==> path is Ok,
        result matches Ok(plan) ==> {
            &&& text_view(plan.connection_path) == text_view(path->Ok_0)
            &&& plan.params@ == params@
        },
        result is Err ==> result->Err_0@ == path->Err_0@,
{
}

} // verus!
