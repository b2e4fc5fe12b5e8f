//! The path of a connection, which names the scope that it is for.

use vstd::prelude::*;
use vstd::string::*;
use vstd::utf8::{decode_utf8, encode_utf8, valid_utf8};

use super::error::{SessionError, SessionFault};
use super::setup;
use super::Session;
use crate::coding::kvp::{copy_bytes, value_of, KeyValuePairs, Pair, Value, ValueView};
use crate::text::string_from_utf8;

verus! {

/// The most bytes that a path may take.
pub const MAX_CONNECTION_PATH_LEN: usize = 1024;

/// A path without the slashes at its end.
pub open spec fn trimmed(path: Seq<char>) -> Seq<char>
    decreases path.len(),
{
    if path.len() > 0 && path.last() == '/' {
        trimmed(path.drop_last())
    } else {
        path
    }
}

/// Where the first slash stands, or the length where there is none.
pub open spec fn first_slash(text: Seq<char>) -> int
    decreases text.len(),
{
    if text.len() == 0 || text[0] == '/' {
        0
    } else {
        1 + first_slash(text.drop_first())
    }
}

/// The parts of a text between its slashes.
pub open spec fn segments(text: Seq<char>) -> Seq<Seq<char>>
    decreases text.len(),
{
    let end = first_slash(text);
    if 0 <= end < text.len() {
        seq![text.take(end)] + segments(text.skip(end + 1))
    } else {
        seq![text]
    }
}

/// What is wrong with a segment. Encoded characters are refused rather than
/// decoded: one scope must not have two names, and no dot segment may hide.
pub open spec fn segment_fault(segment: Seq<char>) -> Option<Seq<char>> {
    if segment.len() == 0 {
        Some("path contains empty segment"@)
    } else if segment.contains('%') {
        Some("path must not contain percent-encoded characters"@)
    } else if segment == seq!['.'] || segment == seq!['.', '.'] {
        Some("path contains invalid segment"@)
    } else {
        None
    }
}

/// What is wrong with the first segment that is not in order.
pub open spec fn first_fault(parts: Seq<Seq<char>>) -> Option<Seq<char>>
    decreases parts.len(),
{
    if parts.len() == 0 {
        None
    } else if segment_fault(parts[0]) is Some {
        segment_fault(parts[0])
    } else {
        first_fault(parts.drop_first())
    }
}

/// The path of a connection, without slashes at its end; `None` is the root.
pub open spec fn normalized(raw: Seq<char>) -> Result<Option<Seq<char>>, SessionFault> {
    let path = trimmed(raw);
    if raw.len() == 0 || raw == seq!['/'] {
        Ok(None)
    } else if encode_utf8(raw).len() > MAX_CONNECTION_PATH_LEN {
        Err(SessionFault::InvalidPath("path too long"@))
    } else if raw[0] != '/' {
        Err(SessionFault::InvalidPath("path must start with '/'"@))
    } else if path.len() == 0 {
        Ok(None)
    } else {
        match first_fault(segments(path.drop_first())) {
            Some(text) => Err(SessionFault::InvalidPath(text)),
            None => Ok(Some(path)),
        }
    }
}

/// The path that a client names in its SETUP.
pub open spec fn setup_path(params: Seq<Pair>) -> Result<Option<Seq<char>>, SessionFault> {
    match value_of(params, setup::PATH) {
        None => Ok(None),
        Some(ValueView::Int(_)) => Err(
            SessionFault::InvalidPath("PATH parameter must be bytes-encoded"@),
        ),
        Some(ValueView::Bytes(bytes)) => if bytes.len() > MAX_CONNECTION_PATH_LEN {
            Err(SessionFault::InvalidPath("path too long"@))
        } else if !valid_utf8(bytes) {
            Err(SessionFault::InvalidPath("path must be UTF-8"@))
        } else {
            normalized(decode_utf8(bytes))
        },
    }
}

/// The path of an incoming connection: that of its URL, or else the one in
/// SETUP, which is looked at only where the URL names none.
pub open spec fn resolved_path(url_path: Seq<char>, params: Seq<Pair>) -> Result<
    Option<Seq<char>>,
    SessionFault,
> {
    match normalized(url_path) {
        Ok(None) => setup_path(params),
        other => other,
    }
}

/// The model of a path.
pub open spec fn path_outcome(result: Result<Option<String>, SessionError>) -> Result<
    Option<Seq<char>>,
    SessionFault,
> {
    match result {
        Ok(Some(path)) => Ok(Some(path@)),
        Ok(None) => Ok(None),
        Err(error) => Err(error@),
    }
}

proof fn trimmed_is_prefix(path: Seq<char>)
    ensures
        trimmed(path).len() <= path.len(),
        trimmed(path) == path.take(trimmed(path).len() as int),
        trimmed(path).len() > 0 ==> trimmed(path).last() != '/',
        trimmed(trimmed(path)) == trimmed(path),
        forall|i: int| trimmed(path).len() <= i < path.len() ==> path[i] == '/',
    decreases path.len(),
{
    if path.len() > 0 && path.last() == '/' {
        let front = path.drop_last();
        trimmed_is_prefix(front);
        assert forall|i: int| trimmed(path).len() <= i < path.len() implies path[i] == '/' by {
            if i < front.len() {
                assert(front[i] == path[i]);
            }
        }
        let kept = trimmed(front);
        assert(path.take(kept.len() as int) =~= front.take(kept.len() as int));
    } else {
        assert(path.take(path.len() as int) =~= path);
    }
}

proof fn prefix_is_shorter(text: Seq<char>, end: int)
    requires
        0 <= end <= text.len(),
    ensures
        encode_utf8(text.take(end)).len() <= encode_utf8(text).len(),
    decreases text.len(),
{
    if end > 0 {
        let rest = text.drop_first();
        prefix_is_shorter(rest, end - 1);
        assert(text.take(end).drop_first() =~= rest.take(end - 1));
        assert(text.take(end)[0] == text[0]);
    }
}

proof fn first_slash_found(text: Seq<char>, end: int)
    requires
        0 <= end <= text.len(),
        end < text.len() ==> text[end] == '/',
        forall|i: int| 0 <= i < end ==> text[i] != '/',
    ensures
        first_slash(text) == end,
    decreases text.len(),
{
    if end > 0 {
        let rest = text.drop_first();
        assert(text[0] != '/');
        assert forall|i: int| 0 <= i < end - 1 implies rest[i] != '/' by {
            assert(rest[i] == text[i + 1]);
        }
        first_slash_found(rest, end - 1);
    }
}

proof fn no_fault_no_faults(parts: Seq<Seq<char>>, i: int)
    requires
        first_fault(parts) is None,
        0 <= i < parts.len(),
    ensures
        segment_fault(parts[i]) is None,
    decreases parts.len(),
{
    if i > 0 {
        no_fault_no_faults(parts.drop_first(), i - 1);
    }
}

/// A path that was normalised is normal: doing it again changes nothing.
pub proof fn normalization_is_idempotent(raw: Seq<char>)
    ensures
        normalized(raw) matches Ok(Some(path)) ==> normalized(path) == Ok::<
            Option<Seq<char>>,
            SessionFault,
        >(Some(path)),
{
    if let Ok(Some(path)) = normalized(raw) {
        trimmed_is_prefix(raw);
        prefix_is_shorter(raw, path.len() as int);
        assert(path[0] == raw[0]);
        assert(path.last() != '/');
        if path == seq!['/'] {
            assert(path.last() == '/');
        }
    }
}

/// Nothing of a path goes but the slashes at its end, and nothing is changed:
/// capitals stay capitals.
pub proof fn only_trailing_slashes_go(raw: Seq<char>)
    ensures
        normalized(raw) matches Ok(Some(path)) ==> {
            &&& path.is_prefix_of(raw)
            &&& forall|i: int| path.len() <= i < raw.len() ==> raw[i] == '/'
        },
{
    trimmed_is_prefix(raw);
}

/// A path that was accepted names one scope: it starts with a slash, does not
/// end with one, and none of its segments is empty, encoded or made of dots.
pub proof fn accepted_path_is_clean(raw: Seq<char>)
    ensures
        normalized(raw) matches Ok(Some(path)) ==> {
            &&& path.len() > 1
            &&& path[0] == '/'
            &&& path.last() != '/'
            &&& encode_utf8(path).len() <= MAX_CONNECTION_PATH_LEN
            &&& forall|i: int|
                0 <= i < segments(path.drop_first()).len() ==> segment_fault(
                    #[trigger] segments(path.drop_first())[i],
                ) is None
        },
{
    if let Ok(Some(path)) = normalized(raw) {
        trimmed_is_prefix(raw);
        prefix_is_shorter(raw, path.len() as int);
        assert(path[0] == raw[0]);
        assert forall|i: int| 0 <= i < segments(path.drop_first()).len() implies segment_fault(
            #[trigger] segments(path.drop_first())[i],
        ) is None by {
            no_fault_no_faults(segments(path.drop_first()), i);
        }
    }
}

/// What is wrong with a path's segments, of which there is at least one.
fn check_segments(path: &str, length: usize) -> (result: Result<(), SessionError>)
    requires
        0 < length <= path@.len(),
    ensures
        match first_fault(segments(path@.take(length as int).drop_first())) {
            Some(text) => result matches Err(error) && error@ == SessionFault::InvalidPath(text),
            None => result is Ok,
        },
{
    let ghost text = path@.take(length as int);
    let ghost goal = first_fault(segments(text.drop_first()));
    let mut start: usize = 1;
    assert(text.drop_first() =~= text.skip(1));
    loop
        invariant
            1 <= start <= length,
            0 < length <= path@.len(),
            text == path@.take(length as int),
            goal == first_fault(segments(text.skip(start as int))),
            goal == first_fault(segments(path@.take(length as int).drop_first())),
        decreases length - start,
    {
        let ghost rest = text.skip(start as int);
        let mut end: usize = start;
        let mut encoded = false;
        while end < length && path.get_char(end) != '/'
            invariant
                start <= end <= length,
                length <= path@.len(),
                text == path@.take(length as int),
                rest == text.skip(start as int),
                encoded == exists|i: int| start <= i < end && path@[i] == '%',
                forall|i: int| start <= i < end ==> path@[i] != '/',
            decreases length - end,
        {
            if path.get_char(end) == '%' {
                encoded = true;
            }
            end = end + 1;
        }
        let ghost segment = rest.take(end - start);
        proof {
            first_slash_found(rest, end - start);
            assert(segment.len() == end - start);
            assert(encoded == segment.contains('%')) by {
                if encoded {
                    let i = choose|i: int| start <= i < end && path@[i] == '%';
                    assert(segment[i - start] == '%');
                }
                if segment.contains('%') {
                    let i = choose|i: int| 0 <= i < segment.len() && segment[i] == '%';
                    assert(path@[i + start] == '%');
                }
            }
            if end < length {
                assert(segments(rest)[0] == segment);
                assert(segments(rest).drop_first() =~= segments(rest.skip(end - start + 1)));
            } else {
                assert(rest =~= segment);
                assert(segments(rest)[0] == segment);
                assert(segments(rest).drop_first() =~= Seq::<Seq<char>>::empty());
            }
        }
        if start == end {
            return Err(SessionError::InvalidPath("path contains empty segment".to_string()));
        }
        if encoded {
            return Err(
                SessionError::InvalidPath(
                    "path must not contain percent-encoded characters".to_string(),
                ),
            );
        }
        let dots = if end - start == 1 {
            path.get_char(start) == '.'
        } else if end - start == 2 {
            path.get_char(start) == '.' && path.get_char(start + 1) == '.'
        } else {
            false
        };
        proof {
            if dots && end - start == 1 {
                assert(segment =~= seq!['.']);
            }
            if dots && end - start == 2 {
                assert(segment =~= seq!['.', '.']);
            }
            if !dots {
                assert(segment != seq!['.'] && segment != seq!['.', '.']) by {
                    if segment == seq!['.'] {
                        assert(segment[0] == '.');
                    }
                    if segment == seq!['.', '.'] {
                        assert(segment[0] == '.' && segment[1] == '.');
                    }
                }
            }
        }
        if dots {
            return Err(SessionError::InvalidPath("path contains invalid segment".to_string()));
        }
        if end == length {
            assert(first_fault(segments(rest).drop_first()) is None);
            return Ok(());
        }
        assert(rest.skip(end - start + 1) =~= text.skip(end + 1));
        start = end + 1;
    }
}

impl Session {
    /// Normalises the path of a connection. The root is `None`. Paths that are
    /// too long, that do not start with a slash, and that hold a segment which
    /// is empty, made of dots or percent-encoded, are refused.
    pub fn normalize_connection_path(raw: &str) -> (result: Result<Option<String>, SessionError>)
        ensures
            path_outcome(result) == normalized(raw@),
    {
        let length: usize = raw.unicode_len();
        if length == 0 {
            return Ok(None);
        }
        if length == 1 && raw.get_char(0) == '/' {
            assert(raw@ =~= seq!['/']);
            return Ok(None);
        }
        assert(raw@ != seq!['/']) by {
            if raw@ == seq!['/'] {
                assert(raw@[0] == '/');
            }
        }
        if raw.as_bytes().len() > MAX_CONNECTION_PATH_LEN {
            return Err(SessionError::InvalidPath("path too long".to_string()));
        }
        if raw.get_char(0) != '/' {
            return Err(SessionError::InvalidPath("path must start with '/'".to_string()));
        }
        let mut end: usize = length;
        assert(raw@.take(length as int) =~= raw@);
        while end > 0 && raw.get_char(end - 1) == '/'
            invariant
                end <= length == raw@.len(),
                trimmed(raw@.take(end as int)) == trimmed(raw@),
            decreases end,
        {
            assert(raw@.take(end as int).drop_last() =~= raw@.take(end - 1));
            end = end - 1;
        }
        assert(trimmed(raw@.take(end as int)) == raw@.take(end as int));
        if end == 0 {
            return Ok(None);
        }
        check_segments(raw, end)?;
        let path = raw.substring_char(0, end);
        assert(raw@.subrange(0, end as int) =~= raw@.take(end as int));
        Ok(Some(path.to_string()))
    }

    /// The path that a client names in its SETUP.
    pub fn decode_client_setup_path(params: &KeyValuePairs) -> (result: Result<
        Option<String>,
        SessionError,
    >)
        ensures
            path_outcome(result) == setup_path(params@),
    {
        let pair = match params.get(setup::PATH) {
            Some(pair) => pair,
            None => {
                return Ok(None);
            },
        };
        let bytes = match &pair.value {
            Value::BytesValue(bytes) => bytes,
            Value::IntValue(_) => {
                return Err(
                    SessionError::InvalidPath("PATH parameter must be bytes-encoded".to_string()),
                );
            },
        };
        if bytes.len() > MAX_CONNECTION_PATH_LEN {
            return Err(SessionError::InvalidPath("path too long".to_string()));
        }
        match string_from_utf8(copy_bytes(bytes)) {
            Some(path) => Session::normalize_connection_path(&path),
            None => Err(SessionError::InvalidPath("path must be UTF-8".to_string())),
        }
    }

    /// The path of an incoming connection: that of its URL, or else the one in
    /// SETUP.
    pub fn resolve_connection_path(url_path: &str, params: &KeyValuePairs) -> (result: Result<
        Option<String>,
        SessionError,
    >)
        ensures
            path_outcome(result) == resolved_path(url_path@, params@),
    {
        match Session::normalize_connection_path(url_path)? {
            Some(path) => Ok(Some(path)),
            None => Session::decode_client_setup_path(params),
        }
    }
}

/// The path in SETUP does not override that of the URL.
pub proof fn url_path_takes_precedence(url_path: Seq<char>, params: Seq<Pair>)
    ensures
        normalized(url_path) matches Ok(Some(path)) ==> resolved_path(url_path, params) == Ok::<
            Option<Seq<char>>,
            SessionFault,
        >(Some(path)),
        normalized(url_path) == Ok::<Option<Seq<char>>, SessionFault>(None) ==> resolved_path(
            url_path,
            params,
        ) == setup_path(params),
{
}

} // verus!
