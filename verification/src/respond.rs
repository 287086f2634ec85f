//! Content responder: from the bytes of a cached icon to the answer for the
//! client.
//!
//! Served content carries a fingerprint, the MD5 digest of the bytes in
//! lower-case hexadecimal. A client that already holds the content sends the
//! fingerprint along and is spared the transfer.

use crate::protocol::{bare, IconResponse, ResponseView};
use crate::status::IconStatus;
use crate::text::push_char;
use vstd::prelude::*;
use vstd::string::StringSliceAdditionalSpecFns;
use vstd::utf8::{encode_utf8, is_ascii_chars, is_ascii_chars_encode_utf8};

verus! {

/// The MD5 digest of a byte string.
pub uninterp spec fn md5_of(data: Seq<u8>) -> [u8; 16];

/// Computes the MD5 digest of `data` with `md5::compute`. The digest depends on
/// the bytes alone; the contract gives it its name and claims nothing else.
#[verifier::external_body]
fn md5_digest(data: &[u8]) -> (digest: [u8; 16])
    ensures
        digest == md5_of(data@),
{
    md5::compute(data).0
}

/// The lower-case hexadecimal digit for a value below sixteen.
pub open spec fn hex_lower(n: int) -> char {
    if n < 10 {
        (0x30 + n) as char
    } else {
        (0x57 + n) as char
    }
}

/// The digit at position `i` of the hexadecimal form of `bytes`: the high
/// half of a byte comes first.
pub open spec fn hex_digit_at(bytes: Seq<u8>, i: int) -> char {
    if i % 2 == 0 {
        hex_lower(bytes[i / 2] as int / 16)
    } else {
        hex_lower(bytes[i / 2] as int % 16)
    }
}

/// A byte string in lower-case hexadecimal, two digits per byte.
pub open spec fn lower_hex(bytes: Seq<u8>) -> Seq<char> {
    Seq::new(2 * bytes.len(), |i: int| hex_digit_at(bytes, i))
}

/// The fingerprint of an icon's content.
pub open spec fn fingerprint(content: Seq<u8>) -> Seq<char> {
    lower_hex(md5_of(content)@)
}

/// A byte with an ASCII upper-case letter turned into its lower-case form.
pub open spec fn ascii_lower(b: u8) -> u8 {
    if 0x41 <= b <= 0x5a {
        (b + 0x20) as u8
    } else {
        b
    }
}

/// Whether two byte strings are equal up to the case of ASCII letters.
pub open spec fn same_ignoring_case(a: Seq<u8>, b: Seq<u8>) -> bool {
    &&& a.len() == b.len()
    &&& forall|i: int| 0 <= i < a.len() ==> ascii_lower(#[trigger] a[i]) == ascii_lower(b[i])
}

/// Whether the fingerprint a client sent stands for the given fingerprint.
pub open spec fn token_matches(token: Seq<char>, fingerprint: Seq<char>) -> bool {
    same_ignoring_case(encode_utf8(token), encode_utf8(fingerprint))
}

/// The answer for content that was read, given its fingerprint. Empty content
/// is a negative-cache marker and is never served.
pub open spec fn answer(
    content: Seq<u8>,
    fingerprint: Seq<char>,
    token: Option<Seq<char>>,
) -> ResponseView {
    if content.len() == 0 {
        bare(IconStatus::NotFound)
    } else if token is Some && token_matches(token->0, fingerprint) {
        ResponseView { status: IconStatus::NotModified, fingerprint: Some(fingerprint), body: None }
    } else {
        ResponseView {
            status: IconStatus::Found,
            fingerprint: Some(fingerprint),
            body: Some(content),
        }
    }
}

/// The answer for the outcome of reading a cache file that was found to hold
/// an icon. `None` stands for a read that failed.
pub open spec fn content_response(
    content: Option<Seq<u8>>,
    token: Option<Seq<char>>,
) -> ResponseView {
    match content {
        None => bare(IconStatus::InternalError),
        Some(c) => answer(c, fingerprint(c), token),
    }
}

fn hex_lower_digit(n: u8) -> (c: char)
    requires
        n < 16,
    ensures
        c == hex_lower(n as int),
{
    if n < 10 {
        (0x30 + n) as char
    } else {
        (0x57 + n) as char
    }
}

/// Writes a byte string in lower-case hexadecimal.
pub fn to_lower_hex(bytes: &[u8]) -> (hex: String)
    ensures
        hex@ == lower_hex(bytes@),
{
    let mut hex = String::new();
    let mut i: usize = 0;
    while i < bytes.len()
        invariant
            i <= bytes.len(),
            hex@.len() == 2 * i,
            forall|j: int| 0 <= j < 2 * i ==> #[trigger] hex@[j] == hex_digit_at(bytes@, j),
        decreases bytes.len() - i,
    {
        let b = bytes[i];
        push_char(&mut hex, hex_lower_digit(b / 16));
        push_char(&mut hex, hex_lower_digit(b % 16));
        i += 1;
    }
    hex
}

/// Computes the fingerprint of an icon's content.
pub fn fingerprint_of(content: &[u8]) -> (print: String)
    ensures
        print@ == fingerprint(content@),
{
    let digest = md5_digest(content);
    to_lower_hex(digest.as_slice())
}

fn lower_byte(b: u8) -> (l: u8)
    ensures
        l == ascii_lower(b),
{
    if 0x41 <= b && b <= 0x5a {
        b + 0x20
    } else {
        b
    }
}

/// Compares two strings up to the case of ASCII letters.
pub fn eq_ignoring_case(a: &str, b: &str) -> (same: bool)
    ensures
        same == token_matches(a@, b@),
{
    let x = a.as_bytes();
    let y = b.as_bytes();
    if x.len() != y.len() {
        return false;
    }
    let mut i: usize = 0;
    while i < x.len()
        invariant
            i <= x.len(),
            x.len() == y.len(),
            x@ == encode_utf8(a@),
            y@ == encode_utf8(b@),
            forall|j: int| 0 <= j < i ==> ascii_lower(#[trigger] x@[j]) == ascii_lower(y@[j]),
        decreases x.len() - i,
    {
        if lower_byte(x[i]) != lower_byte(y[i]) {
            return false;
        }
        i += 1;
    }
    true
}

/// Answers for content that was read and whose fingerprint is known.
pub fn answer_with(content: Vec<u8>, fingerprint: String, token: &Option<String>) -> (response:
    IconResponse)
    ensures
        response@ == answer(
            content@,
            fingerprint@,
            match *token {
                Some(t) => Some(t@),
                None => None,
            },
        ),
{
    if content.len() == 0 {
        return IconResponse::bare(IconStatus::NotFound);
    }
    let unchanged = match token {
        Some(t) => eq_ignoring_case(t.as_str(), fingerprint.as_str()),
        None => false,
    };
    if unchanged {
        IconResponse { status: IconStatus::NotModified, fingerprint: Some(fingerprint), body: None }
    } else {
        IconResponse { status: IconStatus::Found, fingerprint: Some(fingerprint), body: Some(content) }
    }
}

/// Answers for the outcome of reading a cache file: the content in full, a
/// note that the client's copy is current, or an error where reading failed.
pub fn respond(content: Option<Vec<u8>>, token: &Option<String>) -> (response: IconResponse)
    ensures
        response@ == content_response(
            match content {
                Some(c) => Some(c@),
                None => None,
            },
            match *token {
                Some(t) => Some(t@),
                None => None,
            },
        ),
{
    match content {
        None => IconResponse::bare(IconStatus::InternalError),
        Some(bytes) => {
            let print = fingerprint_of(bytes.as_slice());
            answer_with(bytes, print, token)
        },
    }
}

/// A fingerprint is thirty-two lower-case hexadecimal digits, and as many
/// bytes.
pub proof fn lemma_fingerprint_shape(content: Seq<u8>)
    ensures
        fingerprint(content).len() == 32,
        forall|i: int|
            0 <= i < 32 ==> {
                let c = #[trigger] fingerprint(content)[i];
                ('0' <= c <= '9') || ('a' <= c <= 'f')
            },
        encode_utf8(fingerprint(content)).len() == 32,
{
    let digest = md5_of(content)@;
    let print = fingerprint(content);
    assert forall|i: int| 0 <= i < 32 implies {
        let c = #[trigger] print[i];
        ('0' <= c <= '9') || ('a' <= c <= 'f')
    } by {
        let b = digest[i / 2] as int;
        assert(0 <= b / 16 < 16 && 0 <= b % 16 < 16);
    }
    assert(is_ascii_chars(print));
    is_ascii_chars_encode_utf8(print);
}

/// A fingerprint matches itself, and nothing that is not thirty-two bytes
/// long matches a fingerprint.
pub proof fn lemma_token_match(content: Seq<u8>, token: Seq<char>)
    ensures
        token_matches(fingerprint(content), fingerprint(content)),
        encode_utf8(token).len() != 32 ==> !token_matches(token, fingerprint(content)),
{
    lemma_fingerprint_shape(content);
}

} // verus!
