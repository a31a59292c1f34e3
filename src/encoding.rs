//! Percent-encoding of the names in download addresses and form encoding of
//! upload names and of the token request, through the `url` crate.
use url::form_urlencoded::byte_serialize;
use url::percent_encoding::{percent_encode, PATH_SEGMENT_ENCODE_SET};
use vstd::prelude::*;

verus! {

/// The upper-case hexadecimal digit for `n`, for `0 <= n < 16`.
pub open spec fn hex_digit(n: int) -> char {
    if n < 10 {
        ((n + 0x30) as u8) as char
    } else {
        ((n + 0x37) as u8) as char
    }
}

/// `%` and the two upper-case hexadecimal digits of `b`.
pub open spec fn escape(b: u8) -> Seq<char> {
    seq!['%', hex_digit(b as int / 16), hex_digit(b as int % 16)]
}

/// The bytes that may not stand bare in a path segment: controls, non-ASCII
/// bytes, space, `"`, `#`, `<`, `>`, `` ` ``, `?`, `{`, `}`, `%` and `/`.
pub open spec fn in_path_segment_set(b: u8) -> bool {
    b < 0x20 || b > 0x7e || b == 0x20 || b == 0x22 || b == 0x23 || b == 0x3c || b == 0x3e || b
        == 0x60 || b == 0x3f || b == 0x7b || b == 0x7d || b == 0x25 || b == 0x2f
}

/// Each byte of `bytes` escaped if it may not stand bare in a path segment,
/// else as its ASCII character.
pub open spec fn path_segment_encoded(bytes: Seq<u8>) -> Seq<char>
    decreases bytes.len(),
{
    if bytes.len() == 0 {
        Seq::empty()
    } else {
        (if in_path_segment_set(bytes[0]) {
            escape(bytes[0])
        } else {
            seq![bytes[0] as char]
        }) + path_segment_encoded(bytes.drop_first())
    }
}

/// Bytes that `application/x-www-form-urlencoded` leaves as they are.
pub open spec fn form_unreserved(b: u8) -> bool {
    (0x30 <= b <= 0x39) || (0x41 <= b <= 0x5a) || (0x61 <= b <= 0x7a) || b == 0x2a || b == 0x2d
        || b == 0x2e || b == 0x5f
}

/// The `application/x-www-form-urlencoded` form of `bytes`: unreserved bytes
/// kept, a space as `+`, every other byte escaped.
pub open spec fn form_encoded(bytes: Seq<u8>) -> Seq<char>
    decreases bytes.len(),
{
    if bytes.len() == 0 {
        Seq::empty()
    } else {
        (if form_unreserved(bytes[0]) {
            seq![bytes[0] as char]
        } else if bytes[0] == 0x20 {
            seq!['+']
        } else {
            escape(bytes[0])
        }) + form_encoded(bytes.drop_first())
    }
}

/// A hexadecimal digit, in either case.
pub open spec fn is_hex(c: char) -> bool {
    ('0' <= c <= '9') || ('A' <= c <= 'F') || ('a' <= c <= 'f')
}

/// The value of the hexadecimal digit `c`.
pub open spec fn hex_value(c: char) -> int {
    if '0' <= c <= '9' {
        c as int - 0x30
    } else if 'A' <= c <= 'F' {
        c as int - 0x37
    } else {
        c as int - 0x57
    }
}

/// How a server reads a percent-encoded component back into bytes: `%XX`
/// with two hexadecimal digits is the byte `XX`, `+` is a space where
/// `plus_is_space` (in a query), every other character is its own byte.
pub open spec fn percent_decoded(s: Seq<char>, plus_is_space: bool) -> Seq<u8>
    decreases s.len(),
{
    if s.len() == 0 {
        Seq::empty()
    } else if s[0] == '%' && s.len() >= 3 && is_hex(s[1]) && is_hex(s[2]) {
        seq![(hex_value(s[1]) * 16 + hex_value(s[2])) as u8] + percent_decoded(
            s.subrange(3, s.len() as int),
            plus_is_space,
        )
    } else if s[0] == '+' && plus_is_space {
        seq![0x20u8] + percent_decoded(s.drop_first(), plus_is_space)
    } else {
        seq![s[0] as u8] + percent_decoded(s.drop_first(), plus_is_space)
    }
}

/// The characters that end a path segment.
pub open spec fn ends_path_segment(c: char) -> bool {
    c == '/' || c == '?' || c == '#'
}

/// The characters that end a query value.
pub open spec fn ends_query_value(c: char) -> bool {
    c == '&' || c == '#'
}

proof fn lemma_hex_digit(n: int)
    requires
        0 <= n < 16,
    ensures
        is_hex(hex_digit(n)),
        hex_value(hex_digit(n)) == n,
        hex_digit(n) != '%' && hex_digit(n) != '+',
        !ends_path_segment(hex_digit(n)) && !ends_query_value(hex_digit(n)),
{
}

/// An escaped byte reads back as itself, in front of anything.
proof fn lemma_escape_decoded(b: u8, tail: Seq<char>, plus_is_space: bool)
    ensures
        percent_decoded(escape(b) + tail, plus_is_space) == seq![b] + percent_decoded(
            tail,
            plus_is_space,
        ),
        forall|i: int|
            0 <= i < 3 ==> !ends_path_segment(#[trigger] escape(b)[i]) && !ends_query_value(
                escape(b)[i],
            ),
{
    lemma_hex_digit(b as int / 16);
    lemma_hex_digit(b as int % 16);
    let whole = escape(b) + tail;
    assert(whole.subrange(3, whole.len() as int) =~= tail);
}

/// A path-segment encoding reads back as the bytes that were encoded, and
/// holds nothing that ends a segment, so it stays one whole segment.
pub proof fn lemma_path_segment_round_trip(bytes: Seq<u8>)
    ensures
        percent_decoded(path_segment_encoded(bytes), false) == bytes,
        forall|i: int|
            0 <= i < path_segment_encoded(bytes).len() ==> !ends_path_segment(
                #[trigger] path_segment_encoded(bytes)[i],
            ),
    decreases bytes.len(),
{
    if bytes.len() > 0 {
        let b = bytes[0];
        let rest = bytes.drop_first();
        lemma_path_segment_round_trip(rest);
        let tail = path_segment_encoded(rest);
        let whole = path_segment_encoded(bytes);
        let head = if in_path_segment_set(b) {
            escape(b)
        } else {
            seq![b as char]
        };
        assert(whole == head + tail);
        lemma_escape_decoded(b, tail, false);
        if !in_path_segment_set(b) {
            assert(whole.drop_first() =~= tail);
        }
        assert(seq![b] + rest =~= bytes);
        assert forall|i: int| 0 <= i < whole.len() implies !ends_path_segment(#[trigger] whole[i]) by {
            if i >= head.len() {
                assert(whole[i] == tail[i - head.len()]);
            }
        }
    }
}

/// A form encoding reads back, as a query value, as the bytes that were
/// encoded, and holds nothing that ends a value, so it stays one whole value.
pub proof fn lemma_form_round_trip(bytes: Seq<u8>)
    ensures
        percent_decoded(form_encoded(bytes), true) == bytes,
        forall|i: int|
            0 <= i < form_encoded(bytes).len() ==> !ends_query_value(#[trigger] form_encoded(bytes)[i]),
    decreases bytes.len(),
{
    if bytes.len() > 0 {
        let b = bytes[0];
        let rest = bytes.drop_first();
        lemma_form_round_trip(rest);
        let tail = form_encoded(rest);
        let whole = form_encoded(bytes);
        let head = if form_unreserved(b) {
            seq![b as char]
        } else if b == 0x20 {
            seq!['+']
        } else {
            escape(b)
        };
        assert(whole == head + tail);
        lemma_escape_decoded(b, tail, true);
        if form_unreserved(b) || b == 0x20 {
            assert(whole.drop_first() =~= tail);
        }
        assert(seq![b] + rest =~= bytes);
        assert forall|i: int| 0 <= i < whole.len() implies !ends_query_value(#[trigger] whole[i]) by {
            if i >= head.len() {
                assert(whole[i] == tail[i - head.len()]);
            }
        }
    }
}

/// Downloads and uploads of one key address one object: the object segment
/// of the download address and the `name` value of the upload address both
/// read back as exactly the key's bytes, and neither holds a character that
/// would cut it short. This holds for every key.
pub proof fn lemma_download_upload_same_object(key: Seq<u8>)
    ensures
        percent_decoded(path_segment_encoded(key), false) == key,
        percent_decoded(form_encoded(key), true) == key,
        forall|i: int|
            0 <= i < path_segment_encoded(key).len() ==> !ends_path_segment(
                #[trigger] path_segment_encoded(key)[i],
            ),
        forall|i: int|
            0 <= i < form_encoded(key).len() ==> !ends_query_value(#[trigger] form_encoded(key)[i]),
{
    lemma_path_segment_round_trip(key);
    lemma_form_round_trip(key);
}

/// Relies on `url::percent_encoding::percent_encode` with
/// `PATH_SEGMENT_ENCODE_SET`: each byte of the set becomes `%XX` in upper-case
/// hexadecimal, each other byte stays as its character.
#[verifier::external_body]
pub(crate) fn encode_path_segment(bytes: &[u8]) -> (r: String)
    ensures
        r@ == path_segment_encoded(bytes@),
{
    percent_encode(bytes, PATH_SEGMENT_ENCODE_SET).to_string()
}

/// Relies on `url::form_urlencoded::byte_serialize`: the form encoding of the
/// bytes, as the concatenation of the pieces it yields.
#[verifier::external_body]
pub(crate) fn encode_form_value(bytes: &[u8]) -> (r: String)
    ensures
        r@ == form_encoded(bytes@),
{
    byte_serialize(bytes).collect::<String>()
}

} // verus!
