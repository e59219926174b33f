//! Text as the ledger stores it: lengths in bytes of UTF-8, and the
//! characters that count as alphanumeric.

use vstd::prelude::*;
use vstd::utf8::encode_scalar;
use vstd::utf8::encode_utf8;
use vstd::utf8::is_ascii_chars;
use vstd::utf8::is_ascii_chars_encode_utf8;

verus! {

/// The number of bytes of `text` in UTF-8.
pub open spec fn text_len(text: Seq<char>) -> nat {
    encode_utf8(text).len()
}

/// The number of bytes of `text` in UTF-8.
pub fn byte_len(text: &str) -> (len: usize)
    ensures
        len == text_len(text@),
{
    text.as_bytes().len()
}

/// A text has at least as many bytes as characters.
pub proof fn lemma_text_len_at_least_chars(text: Seq<char>)
    ensures
        text.len() <= text_len(text),
    decreases text.len(),
{
    if text.len() > 0 {
        assert(encode_scalar(text[0] as u32).len() >= 1);
        lemma_text_len_at_least_chars(text.drop_first());
    }
}

/// A text of ASCII characters has as many bytes as characters.
pub proof fn lemma_text_len_ascii(text: Seq<char>)
    requires
        is_ascii_chars(text),
    ensures
        text_len(text) == text.len(),
{
    is_ascii_chars_encode_utf8(text);
}

/// Whether `c` is one of the ASCII letters and digits.
pub open spec fn is_ascii_alphanumeric(c: char) -> bool {
    ||| 'a' <= c <= 'z'
    ||| 'A' <= c <= 'Z'
    ||| '0' <= c <= '9'
}

/// Whether Unicode counts the character `c`, which lies beyond ASCII, as a
/// letter or a number: the answer of `char::is_alphanumeric` there.
pub uninterp spec fn unicode_alphanumeric(c: char) -> bool;

/// Whether `c` is a letter or a number: within ASCII the 26 letters in
/// either case and the ten digits, beyond it what Unicode's tables say.
pub open spec fn alphanumeric(c: char) -> bool {
    if c <= '\u{7f}' {
        is_ascii_alphanumeric(c)
    } else {
        unicode_alphanumeric(c)
    }
}

/// Calls `char::is_alphanumeric` of the standard library, which is true of
/// the characters that Unicode classes as alphabetic and of those in its
/// number categories. The contract claims that within ASCII these are
/// exactly `a`-`z`, `A`-`Z` and `0`-`9`, and gives the answer for any other
/// character a name without saying what it is.
#[verifier::external_body]
pub(crate) fn is_alphanumeric(c: char) -> (yes: bool)
    ensures
        yes == if c <= '\u{7f}' {
            is_ascii_alphanumeric(c)
        } else {
            unicode_alphanumeric(c)
        },
{
    c.is_alphanumeric()
}

} // verus!
