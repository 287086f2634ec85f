//! Path resolver: from an asset id to the name of its cache file.
//!
//! A cache file is named after an *icon key*, either the asset id itself or the
//! id of the collection that owns the asset. The key is percent-encoded byte by
//! byte and followed by a fixed size-variant suffix, so that every key gets a
//! file name of its own inside one flat directory.

use crate::protocol::Lookup;
use crate::text::push_char;
use vstd::prelude::*;
use vstd::string::StringExecFns;
use vstd::utf8::*;

verus! {

/// Bytes that are written to a file name as they are: ASCII letters and digits
/// and the four marks `-`, `.`, `_` and `~`.
pub open spec fn is_unreserved(b: u8) -> bool {
    ||| 0x30 <= b <= 0x39
    ||| 0x41 <= b <= 0x5a
    ||| 0x61 <= b <= 0x7a
    ||| b == 0x2d
    ||| b == 0x2e
    ||| b == 0x5f
    ||| b == 0x7e
}

/// The upper-case hexadecimal digit for a value below sixteen.
pub open spec fn hex_upper(n: int) -> char {
    if n < 10 {
        (0x30 + n) as char
    } else {
        (0x37 + n) as char
    }
}

/// What one byte of a key contributes to the file name: itself, or `%` and its
/// two hexadecimal digits.
pub open spec fn escape_byte(b: u8) -> Seq<char> {
    if is_unreserved(b) {
        seq![b as char]
    } else {
        seq!['%', hex_upper(b as int / 16), hex_upper(b as int % 16)]
    }
}

/// The percent-encoding of a byte string.
pub open spec fn escape_bytes(bytes: Seq<u8>) -> Seq<char>
    decreases bytes.len(),
{
    if bytes.len() == 0 {
        Seq::empty()
    } else {
        escape_byte(bytes[0]) + escape_bytes(bytes.drop_first())
    }
}

/// The suffix that names the size variant kept in the cache.
pub open spec fn size_suffix() -> Seq<char> {
    "_small.png"@
}

/// The cache file name of an icon key: its UTF-8 bytes percent-encoded, then
/// the size suffix.
pub open spec fn cache_file_name(key: Seq<char>) -> Seq<char> {
    escape_bytes(encode_utf8(key)) + size_suffix()
}

/// The key under which an asset's icon is stored. In collection mode it is the
/// id of the owning collection where one is known, in every other case the
/// asset id.
pub open spec fn icon_key(
    asset_id: Seq<char>,
    use_collection: bool,
    collection: Option<Seq<char>>,
) -> Seq<char> {
    if use_collection && collection is Some {
        collection->0
    } else {
        asset_id
    }
}

/// The cache file name consulted for an asset in the given mode.
pub open spec fn icon_path(
    asset_id: Seq<char>,
    use_collection: bool,
    collection: Option<Seq<char>>,
) -> Seq<char> {
    cache_file_name(icon_key(asset_id, use_collection, collection))
}

fn is_unreserved_byte(b: u8) -> (r: bool)
    ensures
        r == is_unreserved(b),
{
    (0x30 <= b && b <= 0x39) || (0x41 <= b && b <= 0x5a) || (0x61 <= b && b <= 0x7a) || b == 0x2d
        || b == 0x2e || b == 0x5f || b == 0x7e
}

fn hex_upper_digit(n: u8) -> (c: char)
    requires
        n < 16,
    ensures
        c == hex_upper(n as int),
{
    if n < 10 {
        (0x30 + n) as char
    } else {
        (0x37 + n) as char
    }
}

proof fn lemma_escape_bytes_push(bytes: Seq<u8>, b: u8)
    ensures
        escape_bytes(bytes.push(b)) == escape_bytes(bytes) + escape_byte(b),
    decreases bytes.len(),
{
    if bytes.len() == 0 {
        assert(bytes.push(b).drop_first() =~= bytes);
    } else {
        assert(bytes.push(b).drop_first() =~= bytes.drop_first().push(b));
        lemma_escape_bytes_push(bytes.drop_first(), b);
    }
}

/// The name of the cache file that holds the icon stored under `key`.
pub fn icon_file_name(key: &str) -> (name: String)
    ensures
        name@ == cache_file_name(key@),
{
    let bytes = key.as_bytes();
    let mut name = String::new();
    let mut i: usize = 0;
    while i < bytes.len()
        invariant
            i <= bytes.len(),
            bytes@ == encode_utf8(key@),
            name@ == escape_bytes(bytes@.take(i as int)),
        decreases bytes.len() - i,
    {
        let b = bytes[i];
        proof {
            lemma_escape_bytes_push(bytes@.take(i as int), b);
            assert(bytes@.take(i as int + 1) =~= bytes@.take(i as int).push(b));
        }
        if is_unreserved_byte(b) {
            push_char(&mut name, b as char);
        } else {
            push_char(&mut name, '%');
            push_char(&mut name, hex_upper_digit(b / 16));
            push_char(&mut name, hex_upper_digit(b % 16));
        }
        i += 1;
    }
    assert(bytes@.take(i as int) =~= bytes@);
    name.append("_small.png");
    name
}

/// The cache file consulted for `asset_id`: its own, or in collection mode that
/// of the collection `collection` names. Where no collection is known, the
/// collection path is the asset's own path.
pub fn resolve_icon_path(asset_id: &str, use_collection: bool, collection: &Lookup) -> (path:
    String)
    ensures
        path@ == icon_path(asset_id@, use_collection, collection.relation()),
{
    if use_collection {
        match collection {
            Lookup::Known(id) => icon_file_name(id.as_str()),
            _ => icon_file_name(asset_id),
        }
    } else {
        icon_file_name(asset_id)
    }
}

/// A hexadecimal digit names one value only.
proof fn lemma_hex_upper_injective(m: int, n: int)
    requires
        0 <= m < 16,
        0 <= n < 16,
        hex_upper(m) == hex_upper(n),
    ensures
        m == n,
{
}

/// The byte behind the first piece of an encoding is determined by the
/// encoding, and so is the rest.
proof fn lemma_escape_first_byte(b1: u8, r1: Seq<char>, b2: u8, r2: Seq<char>)
    requires
        escape_byte(b1) + r1 == escape_byte(b2) + r2,
    ensures
        b1 == b2,
        r1 == r2,
{
    let e1 = escape_byte(b1) + r1;
    let e2 = escape_byte(b2) + r2;
    // The first character tells an escaped byte from one that stands for
    // itself.
    assert(e1[0] == '%' <==> !is_unreserved(b1));
    assert(e2[0] == '%' <==> !is_unreserved(b2));
    if !is_unreserved(b1) {
        assert(e1[1] == e2[1] && e1[2] == e2[2]);
        lemma_hex_upper_injective(b1 as int / 16, b2 as int / 16);
        lemma_hex_upper_injective(b1 as int % 16, b2 as int % 16);
    }
    let n = escape_byte(b1).len() as int;
    assert(r1 =~= e1.skip(n));
    assert(r2 =~= e2.skip(n));
}

/// Percent-encoding loses nothing: byte strings with the same encoding are
/// the same.
pub proof fn lemma_escape_bytes_injective(a: Seq<u8>, b: Seq<u8>)
    requires
        escape_bytes(a) == escape_bytes(b),
    ensures
        a == b,
    decreases a.len(),
{
    if a.len() == 0 {
        if b.len() > 0 {
            assert(escape_bytes(b).len() >= escape_byte(b[0]).len());
        }
    } else if b.len() == 0 {
        assert(escape_bytes(a).len() >= escape_byte(a[0]).len());
    } else {
        lemma_escape_first_byte(
            a[0],
            escape_bytes(a.drop_first()),
            b[0],
            escape_bytes(b.drop_first()),
        );
        lemma_escape_bytes_injective(a.drop_first(), b.drop_first());
        assert(a =~= seq![a[0]] + a.drop_first());
        assert(b =~= seq![b[0]] + b.drop_first());
    }
}

/// Distinct keys never collide: two keys with the same cache file name are
/// the same key.
pub proof fn lemma_cache_file_name_injective(k1: Seq<char>, k2: Seq<char>)
    requires
        cache_file_name(k1) == cache_file_name(k2),
    ensures
        k1 == k2,
{
    let e1 = escape_bytes(encode_utf8(k1));
    let e2 = escape_bytes(encode_utf8(k2));
    let n = size_suffix().len();
    assert(e1 =~= cache_file_name(k1).take(cache_file_name(k1).len() - n));
    assert(e2 =~= cache_file_name(k2).take(cache_file_name(k2).len() - n));
    lemma_escape_bytes_injective(encode_utf8(k1), encode_utf8(k2));
    encode_utf8_decode_utf8(k1);
    encode_utf8_decode_utf8(k2);
}

/// The own path of an asset depends on its id alone: whatever the metadata
/// store holds or answers, the same id gives the same path.
pub proof fn lemma_own_path_is_stable(
    asset_id: Seq<char>,
    collection_then: Option<Seq<char>>,
    collection_now: Option<Seq<char>>,
)
    ensures
        icon_path(asset_id, false, collection_then) == icon_path(asset_id, false, collection_now),
        icon_path(asset_id, false, collection_now) == cache_file_name(asset_id),
{
}

/// The collection path differs from the own path exactly where the store
/// names a collection other than the asset itself.
pub proof fn lemma_collection_path_differs(asset_id: Seq<char>, collection: Option<Seq<char>>)
    ensures
        icon_path(asset_id, true, collection) != icon_path(asset_id, false, collection) <==> (
        collection is Some && collection->0 != asset_id),
{
    if collection is Some && icon_path(asset_id, true, collection) == icon_path(
        asset_id,
        false,
        collection,
    ) {
        lemma_cache_file_name_injective(collection->0, asset_id);
    }
}

} // verus!
