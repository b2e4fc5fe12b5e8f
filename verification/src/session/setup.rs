//! SETUP: what both endpoints tell each other before anything else.

use vstd::prelude::*;
use vstd::string::*;
use vstd::utf8::encode_utf8;

use super::error::{SessionError, SessionFault};
use super::path::{normalized, resolved_path, setup_path};
use super::request_id::RequestId;
use super::state::{Session, Transport};
use crate::coding::kvp::{
    copy_bytes, set_then_get, value_of, with_value, KeyValuePairs, Pair, Value, ValueView,
};
use crate::coding::DecodeError;
use crate::text::{concat3, decimal, digits};

verus! {

/// The path that a connection is for.
pub const PATH: u64 = 0x01;

/// The authority that a connection is for.
pub const AUTHORITY: u64 = 0x05;

/// How many updates of one request may wait for their answer.
pub const MAX_REQUEST_UPDATES: u64 = 0x08;

/// How many updates of one request this endpoint lets wait.
pub const DEFAULT_MAX_REQUEST_UPDATES: u64 = 16;

/// The parts of a URL that a connection is made from.
#[derive(Debug)]
pub struct UrlParts {
    pub host: Option<String>,
    pub port: Option<u16>,
    pub path: String,
    pub query: Option<String>,
}

/// The model of [`UrlParts`].
pub struct UrlView {
    pub host: Option<Seq<char>>,
    pub port: Option<u16>,
    pub path: Seq<char>,
    pub query: Option<Seq<char>>,
}

/// The model of a text that may be absent.
pub open spec fn text_view(text: Option<String>) -> Option<Seq<char>> {
    match text {
        Some(text) => Some(text@),
        None => None,
    }
}

impl View for UrlParts {
    type V = UrlView;

    open spec fn view(&self) -> UrlView {
        UrlView {
            host: text_view(self.host),
            port: self.port,
            path: self.path@,
            query: text_view(self.query),
        }
    }
}

/// What `url::Url::parse` makes of a text: the host, port, path and query of
/// the URL, or nothing where the text is no URL.
pub uninterp spec fn parsed_url(text: Seq<char>) -> Option<UrlView>;

/// `url::Url::parse`, and the accessors `host_str`, `port`, `path` and `query`
/// that hand out the parts of the result. The parts depend on the text alone.
#[verifier::external_body]
fn parse_url(text: &str) -> (parts: Option<UrlParts>)
    ensures
        match parts {
            Some(parts) => parsed_url(text@) == Some(parts@),
            None => parsed_url(text@) is None,
        },
{
    let url = url::Url::parse(text).ok()?;
    Some(UrlParts {
        host: url.host_str().map(str::to_string),
        port: url.port(),
        path: url.path().to_string(),
        query: url.query().map(str::to_string),
    })
}

impl UrlView {
    /// The authority: the host, with its port where it has one.
    pub open spec fn authority(self) -> Option<Seq<char>> {
        match (self.host, self.port) {
            (None, _) => None,
            (Some(host), None) => Some(host),
            (Some(host), Some(port)) => Some(host + ":"@ + digits(port as nat, 10)),
        }
    }

    /// The path, with its query where it has one.
    pub open spec fn path_and_query(self) -> Seq<char> {
        match self.query {
            Some(query) => self.path + "?"@ + query,
            None => self.path,
        }
    }

    /// Whether the path is told at all: the root is not.
    pub open spec fn tells_path(self) -> bool {
        self.path_and_query().len() > 0 && self.path_and_query() != seq!['/']
    }
}

/// What each endpoint tells the other.
pub open spec fn common_params() -> Seq<Pair> {
    with_value(Seq::empty(), MAX_REQUEST_UPDATES, ValueView::Int(DEFAULT_MAX_REQUEST_UPDATES))
}

/// The parameters with the authority, where there is one.
pub open spec fn with_authority(params: Seq<Pair>, url: UrlView) -> Seq<Pair> {
    match url.authority() {
        Some(authority) => with_value(params, AUTHORITY, ValueView::Bytes(encode_utf8(authority))),
        None => params,
    }
}

/// What a client tells the server. Raw QUIC has no other place for the
/// authority and the path.
pub open spec fn client_params(url: UrlView, transport: Transport) -> Seq<Pair> {
    match transport {
        Transport::WebTransport => common_params(),
        Transport::RawQuic => {
            let params = with_authority(common_params(), url);
            if url.tells_path() {
                with_value(params, PATH, ValueView::Bytes(encode_utf8(url.path_and_query())))
            } else {
                params
            }
        },
    }
}

/// How many updates of one request the peer lets wait; zero is no limit.
pub open spec fn told_max_updates(params: Seq<Pair>) -> Result<u64, SessionFault> {
    match value_of(params, MAX_REQUEST_UPDATES) {
        None => Ok(0),
        Some(ValueView::Int(value)) => Ok(value),
        Some(ValueView::Bytes(_)) => Err(SessionFault::Decode(DecodeError::InvalidValue)),
    }
}

/// The path that a raw QUIC client connects to, where it has no query, is the
/// path that the server finds in SETUP.
pub proof fn client_path_reaches_the_server(url: UrlView)
    requires
        url.query is None,
        normalized(url.path) is Ok,
    ensures
        setup_path(client_params(url, Transport::RawQuic)) == normalized(url.path),
{
    let params = with_authority(common_params(), url);
    set_then_get(
        Seq::empty(),
        MAX_REQUEST_UPDATES,
        ValueView::Int(DEFAULT_MAX_REQUEST_UPDATES),
        PATH,
    );
    if let Some(authority) = url.authority() {
        set_then_get(common_params(), AUTHORITY, ValueView::Bytes(encode_utf8(authority)), PATH);
    }
    assert(value_of(Seq::<Pair>::empty(), PATH) is None);
    assert(value_of(params, PATH) is None);
    if url.tells_path() {
        let bytes = encode_utf8(url.path);
        set_then_get(params, PATH, ValueView::Bytes(bytes), PATH);
        vstd::utf8::encode_utf8_valid_utf8(url.path);
        vstd::utf8::encode_utf8_decode_utf8(url.path);
    }
}

/// What each side tells of its limit is what the other side keeps to.
pub proof fn update_limit_is_told(url: UrlView, transport: Transport)
    ensures
        told_max_updates(client_params(url, transport)) == Ok::<u64, SessionFault>(
            DEFAULT_MAX_REQUEST_UPDATES,
        ),
        told_max_updates(common_params()) == Ok::<u64, SessionFault>(DEFAULT_MAX_REQUEST_UPDATES),
{
    let limit = ValueView::Int(DEFAULT_MAX_REQUEST_UPDATES);
    set_then_get(Seq::empty(), MAX_REQUEST_UPDATES, limit, MAX_REQUEST_UPDATES);
    let params = with_authority(common_params(), url);
    if let Some(authority) = url.authority() {
        set_then_get(
            common_params(),
            AUTHORITY,
            ValueView::Bytes(encode_utf8(authority)),
            MAX_REQUEST_UPDATES,
        );
    }
    if url.tells_path() {
        set_then_get(
            params,
            PATH,
            ValueView::Bytes(encode_utf8(url.path_and_query())),
            MAX_REQUEST_UPDATES,
        );
    }
}

/// What an outgoing connection starts with.
#[derive(Debug)]
pub struct ConnectPlan {
    pub connection_path: Option<String>,
    pub params: KeyValuePairs,
}

impl Session {
    /// The parameters that a server tells, and that a client tells where the
    /// transport carries the rest.
    pub fn common_parameters() -> (params: KeyValuePairs)
        ensures
            params@ == common_params(),
    {
        let mut params = KeyValuePairs::default();
        params.set_intvalue(MAX_REQUEST_UPDATES, DEFAULT_MAX_REQUEST_UPDATES);
        params
    }

    /// The parameters that a client tells the server.
    pub fn client_parameters(url: &UrlParts, transport: Transport) -> (params: KeyValuePairs)
        ensures
            params@ == client_params(url@, transport),
    {
        let mut params = Session::common_parameters();
        if transport == Transport::RawQuic {
            if let Some(host) = &url.host {
                let authority = match url.port {
                    Some(port) => concat3(host, ":", &decimal(port as u64)),
                    None => host.clone(),
                };
                params.set_bytesvalue(AUTHORITY, copy_bytes(authority.as_str().as_bytes()));
            }
            let path_and_query = match &url.query {
                Some(query) => concat3(&url.path, "?", query),
                None => url.path.clone(),
            };
            let length: usize = path_and_query.as_str().unicode_len();
            let root = length == 1 && path_and_query.as_str().get_char(0) == '/';
            proof {
                if root {
                    assert(path_and_query@ =~= seq!['/']);
                } else if path_and_query@ == seq!['/'] {
                    assert(path_and_query@[0] == '/');
                }
            }
            if length > 0 && !root {
                params.set_bytesvalue(PATH, copy_bytes(path_and_query.as_str().as_bytes()));
            }
        }
        params
    }

    /// What a connection to the parts of a URL starts with.
    pub fn plan_connect_to(url: &UrlParts, transport: Transport) -> (result: Result<
        ConnectPlan,
        SessionError,
    >)
        ensures
            match normalized(url@.path) {
                Ok(path) => {
                    &&& result is Ok
                    &&& text_view(result->Ok_0.connection_path) == path
                    &&& result->Ok_0.params@ == client_params(url@, transport)
                },
                Err(fault) => result matches Err(error) && error@ == fault,
            },
    {
        let connection_path = Session::normalize_connection_path(&url.path)?;
        let params = Session::client_parameters(url, transport);
        Ok(ConnectPlan { connection_path, params })
    }

    /// What a connection to a URL starts with. A text that is no URL has no
    /// path to connect to.
    pub fn plan_connect(url: &str, transport: Transport) -> (result: Result<
        ConnectPlan,
        SessionError,
    >)
        ensures
            match parsed_url(url@) {
                None => result matches Err(error) && error@ == SessionFault::InvalidPath(
                    "not a URL"@,
                ),
                Some(parts) => match normalized(parts.path) {
                    Ok(path) => {
                        &&& result is Ok
                        &&& text_view(result->Ok_0.connection_path) == path
                        &&& result->Ok_0.params@ == client_params(parts, transport)
                    },
                    Err(fault) => result matches Err(error) && error@ == fault,
                },
            },
    {
        match parse_url(url) {
            Some(parts) => Session::plan_connect_to(&parts, transport),
            None => Err(SessionError::InvalidPath("not a URL".to_string())),
        }
    }

    /// How many updates of one request the peer lets wait.
    pub fn peer_max_request_updates(params: &KeyValuePairs) -> (result: Result<u64, SessionError>)
        ensures
            match told_max_updates(params@) {
                Ok(limit) => result == Ok::<u64, SessionError>(limit),
                Err(fault) => result matches Err(error) && error@ == fault,
            },
    {
        match params.get(MAX_REQUEST_UPDATES) {
            None => Ok(0),
            Some(pair) => match &pair.value {
                Value::IntValue(value) => Ok(*value),
                Value::BytesValue(_) => Err(SessionError::Decode(DecodeError::InvalidValue)),
            },
        }
    }

    /// A session whose SETUP messages were exchanged.
    pub fn new(
        transport: Transport,
        connection_path: Option<String>,
        peer_max_request_updates: u64,
    ) -> (session: Self)
        ensures
            session.spec_transport() == transport,
            session.spec_path() == text_view(connection_path),
            session.incoming_limit() == DEFAULT_MAX_REQUEST_UPDATES,
            session.outgoing_limit() == peer_max_request_updates,
    {
        Session {
            transport,
            connection_path,
            max_request_updates: DEFAULT_MAX_REQUEST_UPDATES,
            peer_max_request_updates,
        }
    }

    /// The session of a client, once the server's SETUP came.
    pub fn connected(plan: ConnectPlan, transport: Transport, server: &KeyValuePairs) -> (result:
        Result<(Session, RequestId), SessionError>)
        ensures
            match told_max_updates(server@) {
                Err(fault) => result matches Err(error) && error@ == fault,
                Ok(limit) => {
                    &&& result matches Ok((session, ids))
                    &&& session.spec_transport() == transport
                    &&& session.spec_path() == text_view(plan.connection_path)
                    &&& session.incoming_limit() == DEFAULT_MAX_REQUEST_UPDATES
                    &&& session.outgoing_limit() == limit
                    &&& ids.starts_as_client()
                },
            },
    {
        let limit: u64 = Session::peer_max_request_updates(server)?;
        let session = Session::new(transport, plan.connection_path, limit);
        Ok((session, RequestId::client()))
    }

    /// The session of a server, once the client's SETUP came, and what the
    /// client is told in return. The limit in SETUP is looked at before the
    /// path.
    pub fn accept(transport: Transport, url_path: &str, client: &KeyValuePairs) -> (result: Result<
        (Session, KeyValuePairs, RequestId),
        SessionError,
    >)
        ensures
            match (told_max_updates(client@), resolved_path(url_path@, client@)) {
                (Err(fault), _) => result matches Err(error) && error@ == fault,
                (_, Err(fault)) => result matches Err(error) && error@ == fault,
                (Ok(limit), Ok(path)) => {
                    &&& result matches Ok((session, params, ids))
                    &&& session.spec_transport() == transport
                    &&& session.spec_path() == path
                    &&& session.incoming_limit() == DEFAULT_MAX_REQUEST_UPDATES
                    &&& session.outgoing_limit() == limit
                    &&& params@ == common_params()
                    &&& ids.starts_as_server()
                },
            },
    {
        let limit: u64 = Session::peer_max_request_updates(client)?;
        let path = Session::resolve_connection_path(url_path, client)?;
        let session = Session::new(transport, path, limit);
        Ok((session, Session::common_parameters(), RequestId::server()))
    }

    pub closed spec fn spec_transport(&self) -> Transport {
        self.transport
    }

    pub closed spec fn spec_path(&self) -> Option<Seq<char>> {
        text_view(self.connection_path)
    }

    /// How many updates of one request the peer may have waiting.
    pub closed spec fn incoming_limit(&self) -> u64 {
        self.max_request_updates
    }

    /// How many updates of one request this endpoint may have waiting.
    pub closed spec fn outgoing_limit(&self) -> u64 {
        self.peer_max_request_updates
    }

    /// The transport that was negotiated for the connection.
    pub fn transport(&self) -> (transport: Transport)
        ensures
            transport == self.spec_transport(),
    {
        self.transport
    }

    /// The path of the connection; `None` is the root.
    pub fn connection_path(&self) -> (path: Option<&str>)
        ensures
            match path {
                Some(path) => self.spec_path() == Some(path@),
                None => self.spec_path() is None,
            },
    {
        match &self.connection_path {
            Some(path) => Some(path.as_str()),
            None => None,
        }
    }

    /// How many updates of one request may wait, from the peer and to it.
    pub fn request_update_limits(&self) -> (limits: (u64, u64))
        ensures
            limits == (self.incoming_limit(), self.outgoing_limit()),
    {
        (self.max_request_updates, self.peer_max_request_updates)
    }
}

} // verus!
