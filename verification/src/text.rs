//! What happens to the text of a completion before it is shown: it is cut to
//! the length that the channel displays, and a reply that carries the marker
//! for "no reply" is recognised.

use vstd::prelude::*;
use vstd::std_specs::iter::IteratorSpec;
use vstd::string::StringSliceAdditionalSpecFns;
use vstd::utf8::*;

verus! {

/// The largest number of characters that the channel displays in one message.
pub const MAX_REPLY_CHARS: usize = 2000;

/// The longest prefix of `text` that has at most `limit` characters.
pub open spec fn truncated(text: Seq<char>, limit: nat) -> Seq<char> {
    if text.len() <= limit {
        text
    } else {
        text.take(limit as int)
    }
}

/// The marker by which the model says that it chooses not to reply.
pub open spec fn sentinel() -> Seq<char> {
    seq!['<', 'e', 'm', 'p', 't', 'y', '/', '>']
}

/// Whether `needle` stands somewhere in `text` as an unbroken run of characters.
pub open spec fn occurs_in(needle: Seq<char>, text: Seq<char>) -> bool {
    exists|at: int|
        0 <= at && at + needle.len() <= text.len() && #[trigger] text.subrange(
            at,
            at + needle.len(),
        ) == needle
}

/// `char::len_utf8`: the number of bytes that the character takes in UTF-8.
#[verifier::external_body]
fn utf8_width(c: char) -> (width: usize)
    ensures
        width == encode_scalar(c as u32).len(),
{
    c.len_utf8()
}

/// `String::truncate`: keeps the first `new_len` bytes of the string. The
/// standard library panics when `new_len` lies inside a character, so callers
/// must name a character boundary.
#[verifier::external_body]
fn cut_string(text: &mut String, new_len: usize)
    requires
        is_char_boundary(encode_utf8(old(text)@), new_len as int),
    ensures
        encode_utf8(final(text)@) == encode_utf8(old(text)@).take(new_len as int),
{
    text.truncate(new_len)
}

/// `str::contains` with a string pattern: whether the pattern matches a part
/// of the text.
#[verifier::external_body]
fn contains_text(text: &str, needle: &str) -> (found: bool)
    ensures
        found == occurs_in(needle@, text@),
{
    text.contains(needle)
}

/// Encoding a concatenation gives the concatenation of the encodings.
pub proof fn lemma_encode_utf8_concat(head: Seq<char>, tail: Seq<char>)
    ensures
        encode_utf8(head + tail) == encode_utf8(head) + encode_utf8(tail),
    decreases head.len(),
{
    if head.len() > 0 {
        assert((head + tail).drop_first() == head.drop_first() + tail);
        lemma_encode_utf8_concat(head.drop_first(), tail);
    }
}

/// A text of one character is encoded as that character is.
pub proof fn lemma_encode_utf8_single(c: char)
    ensures
        encode_utf8(seq![c]) == encode_scalar(c as u32),
{
    let one = seq![c];
    char_is_scalar(c);
    assert(encode_utf8(one) == encode_scalar(one[0] as u32) + encode_utf8(one.drop_first()));
}

/// The encoding of a prefix ends where a character of the whole text begins,
/// or at the end of the text.
pub proof fn lemma_encoded_prefix_boundary(head: Seq<char>, tail: Seq<char>)
    ensures
        is_char_boundary(encode_utf8(head + tail), encode_utf8(head).len() as int),
    decreases head.len(),
{
    broadcast use encode_utf8_valid_utf8;

    let whole = head + tail;
    if head.len() > 0 {
        encode_utf8_first_scalar(whole);
        lemma_encode_utf8_concat(head, tail);
        assert(whole.drop_first() == head.drop_first() + tail);
        assert(pop_first_scalar(encode_utf8(whole)) == encode_utf8(whole.drop_first()));
        lemma_encoded_prefix_boundary(head.drop_first(), tail);
    }
}

/// Cutting a text to a number of characters never cuts through the bytes of a
/// character: the bytes of the result are the first bytes of the text, up to a
/// character boundary, and the result has at most `limit` characters.
pub proof fn law_truncation_keeps_whole_characters(text: Seq<char>, limit: nat)
    ensures
        truncated(text, limit).len() <= limit,
        truncated(text, limit) == text.take(truncated(text, limit).len() as int),
        encode_utf8(truncated(text, limit)) == encode_utf8(text).take(
            encode_utf8(truncated(text, limit)).len() as int,
        ),
        is_char_boundary(encode_utf8(text), encode_utf8(truncated(text, limit)).len() as int),
{
    let head = truncated(text, limit);
    let tail = text.skip(head.len() as int);
    assert(text == head + tail);
    lemma_encode_utf8_concat(head, tail);
    lemma_encoded_prefix_boundary(head, tail);
}

/// Keeps the first `limit` characters of `text`, or all of it where it has no
/// more than that.
pub fn truncate_chars(text: String, limit: usize) -> (kept: String)
    ensures
        kept@ == truncated(text@, limit as nat),
{
    let mut text = text;
    let ghost whole = text@;
    let total: usize = text.as_str().as_bytes().len();
    let mut cut: usize = 0;
    let mut count: usize = 0;
    let mut chars = text.as_str().chars();
    while count < limit
        invariant
            text@ == whole,
            total == encode_utf8(whole).len(),
            count <= limit,
            count <= whole.len(),
            chars.remaining() == whole.skip(count as int),
            cut == encode_utf8(whole.take(count as int)).len(),
            cut <= total,
        ensures
            count <= limit,
            count <= whole.len(),
            cut == encode_utf8(whole.take(count as int)).len(),
            count == limit || count == whole.len(),
        decreases limit - count,
    {
        match chars.next() {
            Some(c) => {
                proof {
                    let head = whole.take(count as int);
                    let next = whole.take(count + 1);
                    assert(next == head + seq![c]);
                    assert(whole == next + whole.skip(count + 1));
                    lemma_encode_utf8_concat(head, seq![c]);
                    lemma_encode_utf8_concat(next, whole.skip(count + 1));
                    lemma_encode_utf8_single(c);
                }
                let width = utf8_width(c);
                cut = cut + width;
                count = count + 1;
            },
            None => {
                break ;
            },
        }
    }
    proof {
        let head = whole.take(count as int);
        let tail = whole.skip(count as int);
        assert(whole == head + tail);
        lemma_encoded_prefix_boundary(head, tail);
        lemma_encode_utf8_concat(head, tail);
        assert(encode_utf8(whole).take(cut as int) == encode_utf8(head));
    }
    cut_string(&mut text, cut);
    proof {
        encode_utf8_decode_utf8(text@);
        encode_utf8_decode_utf8(whole.take(count as int));
    }
    text
}

/// Cuts the text of a completion to what the channel displays.
pub fn truncate_reply(text: String) -> (kept: String)
    ensures
        kept@ == truncated(text@, MAX_REPLY_CHARS as nat),
{
    truncate_chars(text, MAX_REPLY_CHARS)
}

/// Whether `text` carries the marker for "no reply".
pub fn declines_reply(text: &str) -> (declined: bool)
    ensures
        declined == occurs_in(sentinel(), text@),
{
    proof {
        reveal_strlit("<empty/>");
        assert("<empty/>"@ == sentinel());
    }
    contains_text(text, "<empty/>")
}

} // verus!
