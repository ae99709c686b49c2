//! Queries in the `application/x-www-form-urlencoded` format.
//!
//! The text is produced by `serde_urlencoded`. This module states what
//! that text is, so that what an endpoint sends can be reasoned about.
use vstd::prelude::*;
use vstd::utf8::encode_utf8;
use vstd::utf8::is_ascii_chars;
use vstd::utf8::is_ascii_chars_encode_utf8;

verus! {

/// The bytes that the format leaves as they are: ASCII letters and
/// digits, `*`, `-`, `.` and `_`.
pub open spec fn is_unchanged(byte: u8) -> bool {
    ||| byte == 0x2a
    ||| byte == 0x2d
    ||| byte == 0x2e
    ||| 0x30 <= byte <= 0x39
    ||| 0x41 <= byte <= 0x5a
    ||| byte == 0x5f
    ||| 0x61 <= byte <= 0x7a
}

/// The upper-case hexadecimal digit for a number below sixteen.
pub open spec fn hex_digit(nibble: u8) -> char {
    if nibble < 10 {
        (0x30 + nibble) as char
    } else {
        (0x41 + nibble - 10) as char
    }
}

/// The text that stands for one byte: the byte itself where it is left
/// unchanged, `+` for a space, and `%` with two hexadecimal digits for
/// every other byte.
pub open spec fn escaped_byte(byte: u8) -> Seq<char> {
    if is_unchanged(byte) {
        seq![byte as char]
    } else if byte == 0x20 {
        seq!['+']
    } else {
        seq!['%', hex_digit(byte / 16), hex_digit(byte % 16)]
    }
}

/// The text that stands for a sequence of bytes, byte by byte.
pub open spec fn escaped(bytes: Seq<u8>) -> Seq<char>
    decreases bytes.len(),
{
    if bytes.len() == 0 {
        Seq::empty()
    } else {
        escaped(bytes.drop_last()) + escaped_byte(bytes.last())
    }
}

/// The text of one pair: the escaped UTF-8 encoding of the key, `=`,
/// and the escaped UTF-8 encoding of the value.
pub open spec fn pair_text(pair: (Seq<char>, Seq<char>)) -> Seq<char> {
    escaped(encode_utf8(pair.0)) + seq!['='] + escaped(encode_utf8(pair.1))
}

/// The text of a list of pairs: the texts of the pairs in order, with
/// `&` between one and the next.
pub open spec fn form_text(pairs: Seq<(Seq<char>, Seq<char>)>) -> Seq<char>
    decreases pairs.len(),
{
    if pairs.len() == 0 {
        Seq::empty()
    } else if pairs.len() == 1 {
        pair_text(pairs[0])
    } else {
        form_text(pairs.drop_last()) + seq!['&'] + pair_text(pairs.last())
    }
}

/// Escaping yields neither `&` nor `=`: in the text of a list of pairs
/// these two stand between pairs and between key and value, and
/// nowhere else.
pub proof fn lemma_escaped_no_separator(bytes: Seq<u8>)
    ensures
        forall|i: int|
            0 <= i < escaped(bytes).len() ==> escaped(bytes)[i] != '&' && escaped(bytes)[i] != '=',
    decreases bytes.len(),
{
    if bytes.len() > 0 {
        lemma_escaped_no_separator(bytes.drop_last());
        let head = escaped(bytes.drop_last());
        let tail = escaped_byte(bytes.last());
        assert forall|i: int| 0 <= i < tail.len() implies tail[i] != '&' && tail[i] != '=' by {}
        assert forall|i: int| 0 <= i < escaped(bytes).len() implies escaped(bytes)[i] != '&'
            && escaped(bytes)[i] != '=' by {
            if i < head.len() {
                assert(escaped(bytes)[i] == head[i]);
            } else {
                assert(escaped(bytes)[i] == tail[i - head.len()]);
            }
        }
    }
}

/// Text made of ASCII letters, digits, `*`, `-`, `.` and `_` alone.
pub open spec fn is_plain(text: Seq<char>) -> bool {
    is_ascii_chars(text) && forall|i: int|
        0 <= i < text.len() ==> is_unchanged((#[trigger] text[i]) as u8)
}

/// Bytes that are all left unchanged are escaped as themselves.
pub proof fn lemma_escaped_unchanged(bytes: Seq<u8>)
    requires
        forall|i: int| 0 <= i < bytes.len() ==> is_unchanged(#[trigger] bytes[i]),
    ensures
        escaped(bytes).len() == bytes.len(),
        forall|i: int| 0 <= i < bytes.len() ==> #[trigger] escaped(bytes)[i] == bytes[i] as char,
    decreases bytes.len(),
{
    if bytes.len() > 0 {
        let front = bytes.drop_last();
        assert forall|i: int| 0 <= i < front.len() implies is_unchanged(#[trigger] front[i]) by {
            assert(front[i] == bytes[i]);
        }
        lemma_escaped_unchanged(front);
        assert(is_unchanged(bytes[bytes.len() - 1]));
    }
}

/// Plain text stands for itself in a query.
pub proof fn lemma_plain_text(text: Seq<char>)
    requires
        is_plain(text),
    ensures
        escaped(encode_utf8(text)) == text,
{
    is_ascii_chars_encode_utf8(text);
    let bytes = encode_utf8(text);
    assert forall|i: int| 0 <= i < bytes.len() implies is_unchanged(#[trigger] bytes[i]) by {
        assert(text[i] as u8 == bytes[i]);
    }
    lemma_escaped_unchanged(bytes);
    assert forall|i: int| 0 <= i < text.len() implies escaped(bytes)[i] == text[i] by {
        assert(text[i] as u8 == bytes[i]);
    }
    assert(escaped(bytes) =~= text);
}

#[verifier::external_type_specification]
#[verifier::external_body]
pub struct ExError(serde_urlencoded::ser::Error);

/// Calls `serde_urlencoded::to_string` on a list of pairs of strings.
///
/// The serializer takes the list as a sequence and each pair as a
/// tuple of two strings; no step of that refuses a string as key or as
/// value, so the call succeeds. It appends the pairs in order, each as
/// escaped key, `=` and escaped value, and puts `&` before every pair
/// but the first; escaping is that of `form_urlencoded::byte_serialize`.
#[verifier::external_body]
pub(crate) fn to_string(pairs: &Vec<(String, String)>) -> (r: Result<
    String,
    serde_urlencoded::ser::Error,
>)
    ensures
        r is Ok,
        r matches Ok(text) ==> text@ == form_text(pairs.deep_view()),
{
    serde_urlencoded::to_string(pairs)
}

} // verus!
