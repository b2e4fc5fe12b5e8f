//! Scenarios that test a relay from outside.

use vstd::prelude::*;
use vstd::string::*;

verus! {

/// How long a scenario may take, in seconds.
pub const TEST_TIMEOUT_SECONDS: u64 = 10;

/// The connections that a scenario made, by which a relay's logs are found.
#[derive(Debug)]
pub struct TestConnectionIds {
    pub cids: Vec<String>,
}

impl Default for TestConnectionIds {
    fn default() -> (ids: Self)
        ensures
            ids.cids@.len() == 0,
    {
        TestConnectionIds { cids: Vec::new() }
    }
}

impl TestConnectionIds {
    pub fn add(&mut self, cid: String)
        ensures
            final(self).cids@ == old(self).cids@.push(cid),
    {
        self.cids.push(cid);
    }
}

/// What `str::to_lowercase` makes of a text.
pub uninterp spec fn lowercase(text: Seq<char>) -> Seq<char>;

/// `str::to_lowercase` maps a text to lower case. The result depends on the
/// text alone.
#[verifier::external_body]
fn to_lowercase(text: &str) -> (lower: String)
    ensures
        lower@ == lowercase(text@),
{
    text.to_lowercase()
}

/// Whether a part stands somewhere in a text.
pub open spec fn holds(text: Seq<char>, part: Seq<char>) -> bool {
    exists|i: int| 0 <= i <= text.len() - part.len() && #[trigger] text.skip(i).take(
        part.len() as int,
    ) == part
}

fn contains(text: &str, part: &str) -> (found: bool)
    ensures
        found == holds(text@, part@),
{
    let text_length: usize = text.unicode_len();
    let part_length: usize = part.unicode_len();
    if part_length > text_length {
        return false;
    }
    let mut i: usize = 0;
    while i <= text_length - part_length
        invariant
            part_length <= text_length,
            text_length == text@.len(),
            part_length == part@.len(),
            i <= text_length - part_length + 1,
            forall|k: int|
                0 <= k < i ==> #[trigger] text@.skip(k).take(part_length as int) != part@,
        decreases text_length - part_length + 1 - i,
    {
        let mut j: usize = 0;
        while j < part_length && text.get_char(i + j) == part.get_char(j)
            invariant
                i + part_length <= text_length,
                text_length == text@.len(),
                part_length == part@.len(),
                j <= part_length,
                forall|k: int| 0 <= k < j ==> text@[i + k] == part@[k],
            decreases part_length - j,
        {
            j = j + 1;
        }
        let ghost there = text@.skip(i as int).take(part_length as int);
        if j == part_length {
            assert(there =~= part@);
            return true;
        }
        assert(there[j as int] == text@[i + j]);
        i = i + 1;
    }
    false
}

/// Whether a text that is in lower case says that a track was not found.
pub open spec fn says_not_found(lower: Seq<char>) -> bool {
    ||| holds(lower, "not found"@)
    ||| holds(lower, "notfound"@)
    ||| holds(lower, "no such"@)
    ||| holds(lower, "doesn't exist"@)
    ||| holds(lower, "does not exist"@)
    ||| holds(lower, "unknown"@)
}

/// Whether a text that is in lower case says that a track was not found.
/// Relays word it differently.
pub fn lowered_error_is_expected(lower: &str) -> (expected: bool)
    ensures
        expected == says_not_found(lower@),
{
    contains(lower, "not found") || contains(lower, "notfound") || contains(lower, "no such")
        || contains(lower, "doesn't exist") || contains(lower, "does not exist") || contains(
        lower,
        "unknown",
    )
}

/// Whether the error of a subscription says that the track was not found,
/// however it is capitalised.
pub fn subscribe_error_is_expected(text: &str) -> (expected: bool)
    ensures
        expected == says_not_found(lowercase(text@)),
{
    let lower = to_lowercase(text);
    lowered_error_is_expected(&lower)
}

proof fn phrase_is_held(before: Seq<char>, phrase: Seq<char>, after: Seq<char>)
    ensures
        holds(before + phrase + after, phrase),
{
    let text = before + phrase + after;
    assert(text.skip(before.len() as int).take(phrase.len() as int) =~= phrase);
}

/// However it is wrapped in other words, a text that says that a track was not
/// found says so.
pub proof fn other_words_make_no_difference(
    inner: &str,
    inner_expected: bool,
    before: Seq<char>,
    after: Seq<char>,
    text: &str,
    expected: bool,
)
    requires
        call_ensures(lowered_error_is_expected, (inner,), inner_expected),
        text@ == before + inner@ + after,
        call_ensures(lowered_error_is_expected, (text,), expected),
    ensures
        inner_expected ==> expected,
        inner@ == "not found"@ || inner@ == "notfound"@ || inner@ == "no such"@ || inner@
            == "doesn't exist"@ || inner@ == "does not exist"@ || inner@ == "unknown"@ ==> expected,
{
    phrase_is_held(before, inner@, after);
    phrase_stays_held(before, inner@, after, "not found"@);
    phrase_stays_held(before, inner@, after, "notfound"@);
    phrase_stays_held(before, inner@, after, "no such"@);
    phrase_stays_held(before, inner@, after, "doesn't exist"@);
    phrase_stays_held(before, inner@, after, "does not exist"@);
    phrase_stays_held(before, inner@, after, "unknown"@);
}

proof fn phrase_stays_held(
    before: Seq<char>,
    inner: Seq<char>,
    after: Seq<char>,
    phrase: Seq<char>,
)
    ensures
        holds(inner, phrase) ==> holds(before + inner + after, phrase),
{
    let text = before + inner + after;
    if holds(inner, phrase) {
        let i = choose|i: int|
            0 <= i <= inner.len() - phrase.len() && #[trigger] inner.skip(i).take(
                phrase.len() as int,
            ) == phrase;
        assert(text.skip(before.len() + i).take(phrase.len() as int) =~= inner.skip(i).take(
            phrase.len() as int,
        ));
    }
}

} // verus!
