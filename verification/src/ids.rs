//! Object identifiers: timestamp ids (posts, files) and hash ids
//! (bookmarks, tags), both written in Crockford's Base32.

use vstd::prelude::*;
use vstd::utf8::encode_utf8;

use crate::text::text_equals;

verus! {

/// What `blake3::hash` returns for `data`, as bytes.
pub uninterp spec fn blake3_digest(data: Seq<u8>) -> Seq<u8>;

/// The `v`-th character of Crockford's alphabet
/// `0123456789ABCDEFGHJKMNPQRSTVWXYZ` (digits, then the capital letters
/// without `I`, `L`, `O` and `U`), for `v` below 32.
pub open spec fn crockford_char(v: int) -> char {
    if v < 10 {
        (48 + v) as char
    } else if v < 18 {
        (55 + v) as char
    } else if v < 20 {
        (56 + v) as char
    } else if v < 22 {
        (57 + v) as char
    } else if v < 27 {
        (58 + v) as char
    } else {
        (59 + v) as char
    }
}

/// A character of the alphabet that Crockford's Base32 writes:
/// `0123456789ABCDEFGHJKMNPQRSTVWXYZ`.
pub open spec fn is_crockford_digit(c: char) -> bool {
    ('0' <= c && c <= '9') || ('A' <= c && c <= 'Z' && c != 'I' && c != 'L' && c != 'O'
        && c != 'U')
}

/// A character that Crockford's Base32 reads: digits and letters of either
/// case but `U` (`I`, `L` and `O` are read as `1`, `1` and `0`).
pub open spec fn is_crockford_readable(c: char) -> bool {
    ('0' <= c && c <= '9') || ('A' <= c && c <= 'Z' && c != 'U') || ('a' <= c && c <= 'z'
        && c != 'u')
}

/// The value of a readable character: digits stand for themselves, a
/// letter of either case for its place in the alphabet, `I` and `L` for 1
/// and `O` for 0.
pub open spec fn crockford_value(c: char) -> u64 {
    let x = c as int;
    let up = if 97 <= x { x - 32 } else { x };
    if x <= 57 {
        (x - 48) as u64
    } else if up == 73 || up == 76 {
        1
    } else if up == 79 {
        0
    } else if up <= 72 {
        (up - 55) as u64
    } else if up <= 75 {
        (up - 56) as u64
    } else if up <= 78 {
        (up - 57) as u64
    } else if up <= 84 {
        (up - 58) as u64
    } else {
        (up - 59) as u64
    }
}

/// Byte `j` of `data`, zero past its end.
pub open spec fn byte_or_zero(data: Seq<u8>, j: int) -> u64 {
    if 0 <= j < data.len() {
        data[j] as u64
    } else {
        0
    }
}

/// Group `i` of five bits of `data`, read from the most significant bit
/// of the first byte on, with zero bits past the end.
pub open spec fn encode_group(data: Seq<u8>, i: int) -> u64 {
    let k = 5 * i;
    let window: u64 = (byte_or_zero(data, k / 8) << 8u64) | byte_or_zero(data, k / 8 + 1);
    (window >> ((11 - k % 8) as u64)) & 31u64
}

/// Crockford's Base32 of `data` without padding: one character for every
/// group of five bits, `ceil(8n / 5)` characters for `n` bytes.
#[verifier::opaque]
pub open spec fn base32_crockford_encode(data: Seq<u8>) -> Seq<char> {
    Seq::new(
        ((data.len() * 8 + 4) / 5) as nat,
        |i: int| crockford_char(encode_group(data, i) as int),
    )
}

/// The value of character `d` of `text`, zero past its end.
pub open spec fn value_or_zero(text: Seq<char>, d: int) -> u64 {
    if 0 <= d < text.len() {
        crockford_value(text[d])
    } else {
        0
    }
}

/// Byte `j` decoded from `text`: bits `8j` to `8j + 7` of the values of its
/// characters, five bits each.
pub open spec fn decode_byte(text: Seq<char>, j: int) -> u8 {
    let k = 8 * j;
    let d = k / 5;
    let window: u64 = (value_or_zero(text, d) << 10u64) | (value_or_zero(text, d + 1) << 5u64)
        | value_or_zero(text, d + 2);
    ((window >> ((7 - k % 5) as u64)) & 255u64) as u8
}

/// What Crockford's Base32 reads from `text`: nothing when a character
/// cannot be read, else `floor(5n / 8)` bytes for `n` characters.
#[verifier::opaque]
pub open spec fn base32_crockford_decode(text: Seq<char>) -> Option<Seq<u8>> {
    if forall|i: int| 0 <= i < text.len() ==> is_crockford_readable(#[trigger] text[i]) {
        Some(Seq::new((text.len() * 5 / 8) as nat, |j: int| decode_byte(text, j)))
    } else {
        None
    }
}

/// The text Crockford's Base32 writes has `ceil(8n / 5)` characters of its
/// alphabet, all of which it reads.
pub proof fn lemma_encode_characters(data: Seq<u8>)
    ensures
        base32_crockford_encode(data).len() == (data.len() * 8 + 4) / 5,
        forall|i: int|
            0 <= i < base32_crockford_encode(data).len() ==> {
                &&& #[trigger] base32_crockford_encode(data)[i] == crockford_char(
                    encode_group(data, i) as int,
                )
                &&& encode_group(data, i) < 32
                &&& is_crockford_digit(base32_crockford_encode(data)[i])
                &&& is_crockford_readable(base32_crockford_encode(data)[i])
            },
{
    reveal(base32_crockford_encode);
    assert forall|i: int| 0 <= i < base32_crockford_encode(data).len() implies {
        &&& #[trigger] base32_crockford_encode(data)[i] == crockford_char(
            encode_group(data, i) as int,
        )
        &&& encode_group(data, i) < 32
        &&& is_crockford_digit(base32_crockford_encode(data)[i])
        &&& is_crockford_readable(base32_crockford_encode(data)[i])
    } by {
        let k = 5 * i;
        let window: u64 = (byte_or_zero(data, k / 8) << 8u64) | byte_or_zero(data, k / 8 + 1);
        let sh = (11 - k % 8) as u64;
        assert((window >> sh) & 31u64 <= 31u64) by (bit_vector);
        lemma_crockford_char(encode_group(data, i) as int, 0);
    }
}

/// Whether a text is read as some bytes: exactly when every character is
/// readable.
pub proof fn lemma_decode_defined(text: Seq<char>)
    ensures
        base32_crockford_decode(text) is Some <==> forall|i: int|
            0 <= i < text.len() ==> is_crockford_readable(#[trigger] text[i]),
{
    reveal(base32_crockford_decode);
}

/// Encodes `data` in Crockford's Base32 with `base32::encode`.
///
/// Claims, from the crate's source: the result is `data` written in
/// Crockford's Base32, five bits to a character, without padding; and
/// `base32::decode` gives the bytes back (the crate's own property test
/// `invertible_crockford` checks this).
#[verifier::external_body]
fn encode_crockford(data: &[u8]) -> (res: String)
    ensures
        res@ == base32_crockford_encode(data@),
        base32_crockford_decode(res@) == Some(data@),
{
    base32::encode(base32::Alphabet::Crockford, data)
}

/// Decodes `text` from Crockford's Base32 with `base32::decode`.
///
/// Claims, from the crate's source: `None` when a character cannot be read
/// (`=` and anything outside ASCII included), else the bytes that the
/// characters' values spell, five bits each, `floor(5n / 8)` of them.
#[verifier::external_body]
fn decode_crockford(text: &str) -> (res: Option<Vec<u8>>)
    ensures
        match res {
            Some(bytes) => base32_crockford_decode(text@) == Some(bytes@),
            None => base32_crockford_decode(text@) is None,
        },
{
    base32::decode(base32::Alphabet::Crockford, text)
}

/// The characters of Crockford's alphabet are in increasing order and are
/// the characters it writes.
pub proof fn lemma_crockford_char(v: int, w: int)
    requires
        0 <= v < 32,
        0 <= w < 32,
    ensures
        is_crockford_digit(crockford_char(v)),
        v < w ==> (crockford_char(v) as int) < (crockford_char(w) as int),
{
    assert(crockford_char(v) as int == if v < 10 {
        48 + v
    } else if v < 18 {
        55 + v
    } else if v < 20 {
        56 + v
    } else if v < 22 {
        57 + v
    } else if v < 27 {
        58 + v
    } else {
        59 + v
    });
    assert(crockford_char(w) as int == if w < 10 {
        48 + w
    } else if w < 18 {
        55 + w
    } else if w < 20 {
        56 + w
    } else if w < 22 {
        57 + w
    } else if w < 27 {
        58 + w
    } else {
        59 + w
    });
}

/// Hashes `data` with `blake3::hash`.
///
/// Claims: the result is the name applied to the bytes, and has 32 bytes
/// (`blake3::Hash` holds a `[u8; 32]`).
#[verifier::external_body]
fn blake3_hash(data: &[u8]) -> (res: Vec<u8>)
    ensures
        res@ == blake3_digest(data@),
        res@.len() == 32,
{
    blake3::hash(data).as_bytes().to_vec()
}

/// The eight bytes of a timestamp, most significant first.
pub open spec fn timestamp_bytes(timestamp: i64) -> Seq<u8> {
    let u = timestamp as u64;
    seq![
        (u >> 56u64) as u8,
        (u >> 48u64) as u8,
        (u >> 40u64) as u8,
        (u >> 32u64) as u8,
        (u >> 24u64) as u8,
        (u >> 16u64) as u8,
        (u >> 8u64) as u8,
        u as u8,
    ]
}

/// The id made of a timestamp: its big-endian bytes in Crockford's Base32.
pub open spec fn timestamp_id_spec(timestamp: i64) -> Seq<char> {
    base32_crockford_encode(timestamp_bytes(timestamp))
}

/// An id of the timestamp form: thirteen characters that Crockford's
/// Base32 reads.
pub open spec fn is_timestamp_id(id: Seq<char>) -> bool {
    &&& id.len() == 13
    &&& forall|i: int| 0 <= i < id.len() ==> is_crockford_readable(#[trigger] id[i])
}

/// The id made of some text: the first half of the BLAKE3 hash of its
/// UTF-8 bytes, in Crockford's Base32.
pub open spec fn hash_id_spec(data: Seq<char>) -> Seq<char> {
    base32_crockford_encode(blake3_digest(encode_utf8(data)).take(16))
}

/// The top bits of a timestamp, down to those of character `i` of its id.
pub open spec fn timestamp_prefix(u: u64, i: int) -> u64 {
    if i < 12 {
        u >> ((59 - 5 * i) as u64)
    } else {
        u
    }
}

/// The value of character `i` of the id of a timestamp with bits `u`: five
/// bits each, the last one made of the four lowest bits and a zero.
pub open spec fn timestamp_digit(u: u64, i: int) -> u64 {
    if i < 12 {
        timestamp_prefix(u, i) & 31u64
    } else {
        (u & 15u64) << 1u64
    }
}

/// Text `a` comes before text `b`: they agree up to some place, where `a`
/// has the smaller character.
pub open spec fn text_before(a: Seq<char>, b: Seq<char>) -> bool {
    exists|k: int|
        0 <= k < a.len() && k < b.len() && #[trigger] a.take(k) == b.take(k) && (a[k] as int) < (
        b[k] as int)
}

proof fn lemma_timestamp_groups(t: i64)
    ensures
        forall|i: int| 0 <= i < 13 ==> #[trigger] encode_group(timestamp_bytes(t), i) == timestamp_digit(t as u64, i),
{
    let u = t as u64;
    let bytes = timestamp_bytes(t);
    assert(encode_group(bytes, 0) == timestamp_digit(u, 0)) by {
        assert(byte_or_zero(bytes, 0) == (((u >> 56u64) as u8) as u64));
        assert(byte_or_zero(bytes, 1) == (((u >> 48u64) as u8) as u64));
        assert((((((u >> 56u64) as u8) as u64) << 8u64) | (((u >> 48u64) as u8) as u64)) >> 11u64 & 31u64 == (u >> 59u64) & 31u64)
            by (bit_vector);
    }
    assert(encode_group(bytes, 1) == timestamp_digit(u, 1)) by {
        assert(byte_or_zero(bytes, 0) == (((u >> 56u64) as u8) as u64));
        assert(byte_or_zero(bytes, 1) == (((u >> 48u64) as u8) as u64));
        assert((((((u >> 56u64) as u8) as u64) << 8u64) | (((u >> 48u64) as u8) as u64)) >> 6u64 & 31u64 == (u >> 54u64) & 31u64)
            by (bit_vector);
    }
    assert(encode_group(bytes, 2) == timestamp_digit(u, 2)) by {
        assert(byte_or_zero(bytes, 1) == (((u >> 48u64) as u8) as u64));
        assert(byte_or_zero(bytes, 2) == (((u >> 40u64) as u8) as u64));
        assert((((((u >> 48u64) as u8) as u64) << 8u64) | (((u >> 40u64) as u8) as u64)) >> 9u64 & 31u64 == (u >> 49u64) & 31u64)
            by (bit_vector);
    }
    assert(encode_group(bytes, 3) == timestamp_digit(u, 3)) by {
        assert(byte_or_zero(bytes, 1) == (((u >> 48u64) as u8) as u64));
        assert(byte_or_zero(bytes, 2) == (((u >> 40u64) as u8) as u64));
        assert((((((u >> 48u64) as u8) as u64) << 8u64) | (((u >> 40u64) as u8) as u64)) >> 4u64 & 31u64 == (u >> 44u64) & 31u64)
            by (bit_vector);
    }
    assert(encode_group(bytes, 4) == timestamp_digit(u, 4)) by {
        assert(byte_or_zero(bytes, 2) == (((u >> 40u64) as u8) as u64));
        assert(byte_or_zero(bytes, 3) == (((u >> 32u64) as u8) as u64));
        assert((((((u >> 40u64) as u8) as u64) << 8u64) | (((u >> 32u64) as u8) as u64)) >> 7u64 & 31u64 == (u >> 39u64) & 31u64)
            by (bit_vector);
    }
    assert(encode_group(bytes, 5) == timestamp_digit(u, 5)) by {
        assert(byte_or_zero(bytes, 3) == (((u >> 32u64) as u8) as u64));
        assert(byte_or_zero(bytes, 4) == (((u >> 24u64) as u8) as u64));
        assert((((((u >> 32u64) as u8) as u64) << 8u64) | (((u >> 24u64) as u8) as u64)) >> 10u64 & 31u64 == (u >> 34u64) & 31u64)
            by (bit_vector);
    }
    assert(encode_group(bytes, 6) == timestamp_digit(u, 6)) by {
        assert(byte_or_zero(bytes, 3) == (((u >> 32u64) as u8) as u64));
        assert(byte_or_zero(bytes, 4) == (((u >> 24u64) as u8) as u64));
        assert((((((u >> 32u64) as u8) as u64) << 8u64) | (((u >> 24u64) as u8) as u64)) >> 5u64 & 31u64 == (u >> 29u64) & 31u64)
            by (bit_vector);
    }
    assert(encode_group(bytes, 7) == timestamp_digit(u, 7)) by {
        assert(byte_or_zero(bytes, 4) == (((u >> 24u64) as u8) as u64));
        assert(byte_or_zero(bytes, 5) == (((u >> 16u64) as u8) as u64));
        assert((((((u >> 24u64) as u8) as u64) << 8u64) | (((u >> 16u64) as u8) as u64)) >> 8u64 & 31u64 == (u >> 24u64) & 31u64)
            by (bit_vector);
    }
    assert(encode_group(bytes, 8) == timestamp_digit(u, 8)) by {
        assert(byte_or_zero(bytes, 5) == (((u >> 16u64) as u8) as u64));
        assert(byte_or_zero(bytes, 6) == (((u >> 8u64) as u8) as u64));
        assert((((((u >> 16u64) as u8) as u64) << 8u64) | (((u >> 8u64) as u8) as u64)) >> 11u64 & 31u64 == (u >> 19u64) & 31u64)
            by (bit_vector);
    }
    assert(encode_group(bytes, 9) == timestamp_digit(u, 9)) by {
        assert(byte_or_zero(bytes, 5) == (((u >> 16u64) as u8) as u64));
        assert(byte_or_zero(bytes, 6) == (((u >> 8u64) as u8) as u64));
        assert((((((u >> 16u64) as u8) as u64) << 8u64) | (((u >> 8u64) as u8) as u64)) >> 6u64 & 31u64 == (u >> 14u64) & 31u64)
            by (bit_vector);
    }
    assert(encode_group(bytes, 10) == timestamp_digit(u, 10)) by {
        assert(byte_or_zero(bytes, 6) == (((u >> 8u64) as u8) as u64));
        assert(byte_or_zero(bytes, 7) == ((u as u8) as u64));
        assert((((((u >> 8u64) as u8) as u64) << 8u64) | ((u as u8) as u64)) >> 9u64 & 31u64 == (u >> 9u64) & 31u64)
            by (bit_vector);
    }
    assert(encode_group(bytes, 11) == timestamp_digit(u, 11)) by {
        assert(byte_or_zero(bytes, 6) == (((u >> 8u64) as u8) as u64));
        assert(byte_or_zero(bytes, 7) == ((u as u8) as u64));
        assert((((((u >> 8u64) as u8) as u64) << 8u64) | ((u as u8) as u64)) >> 4u64 & 31u64 == (u >> 4u64) & 31u64)
            by (bit_vector);
    }
    assert(encode_group(bytes, 12) == timestamp_digit(u, 12)) by {
        assert(byte_or_zero(bytes, 7) == ((u as u8) as u64));
        assert(byte_or_zero(bytes, 8) == 0u64);
        assert(((((u as u8) as u64) << 8u64) | 0u64) >> 7u64 & 31u64 == (u & 15u64) << 1u64)
            by (bit_vector);
    }
}

proof fn lemma_first_difference(u1: u64, u2: u64, i: int) -> (k: int)
    requires
        u1 < u2,
        0 <= i <= 12,
        forall|j: int| 0 <= j < i ==> timestamp_prefix(u1, j) == timestamp_prefix(u2, j),
    ensures
        i <= k <= 12,
        forall|j: int| 0 <= j < k ==> timestamp_prefix(u1, j) == timestamp_prefix(u2, j),
        timestamp_prefix(u1, k) != timestamp_prefix(u2, k),
    decreases 12 - i,
{
    if timestamp_prefix(u1, i) != timestamp_prefix(u2, i) {
        i
    } else {
        lemma_first_difference(u1, u2, i + 1)
    }
}

/// Where the prefixes of two timestamps first differ, the smaller one has
/// the smaller digit, and the digits before agree.
proof fn lemma_digit_order(u1: u64, u2: u64, k: int)
    requires
        u1 < u2,
        0 <= k <= 12,
        forall|j: int| 0 <= j < k ==> timestamp_prefix(u1, j) == timestamp_prefix(u2, j),
        timestamp_prefix(u1, k) != timestamp_prefix(u2, k),
    ensures
        forall|j: int| 0 <= j < k ==> timestamp_digit(u1, j) == timestamp_digit(u2, j),
        timestamp_digit(u1, k) < timestamp_digit(u2, k),
{
    if k < 12 {
        let sh = (59 - 5 * k) as u64;
        let a1 = u1 >> sh;
        let a2 = u2 >> sh;
        assert(u1 < u2 ==> (u1 >> sh) <= (u2 >> sh)) by (bit_vector);
        if k == 0 {
            assert((u1 >> 59u64) >> 5u64 == 0u64) by (bit_vector);
            assert((u2 >> 59u64) >> 5u64 == 0u64) by (bit_vector);
        } else {
            let up = (64 - 5 * k) as u64;
            assert(sh + 5 < 64 ==> (u1 >> sh) >> 5u64 == u1 >> ((sh + 5) as u64)) by (bit_vector);
            assert(sh + 5 < 64 ==> (u2 >> sh) >> 5u64 == u2 >> ((sh + 5) as u64)) by (bit_vector);
            assert(timestamp_prefix(u1, k - 1) == timestamp_prefix(u2, k - 1));
        }
        assert(a1 >> 5u64 == a2 >> 5u64);
        assert(a1 < a2);
        assert(a1 >> 5u64 == a2 >> 5u64 && a1 < a2 ==> (a1 & 31u64) < (a2 & 31u64)) by (bit_vector);
    } else {
        assert(timestamp_prefix(u1, 11) == timestamp_prefix(u2, 11));
        assert(u1 >> 4u64 == u2 >> 4u64 && u1 < u2 ==> ((u1 & 15u64) << 1u64) < ((u2 & 15u64)
            << 1u64)) by (bit_vector);
    }
}

/// Law: ids sort in the order of their timestamps; a later timestamp gives
/// a later id, so two different timestamps never give the same id.
pub proof fn lemma_timestamp_ids_sort_by_time(t1: i64, t2: i64)
    requires
        0 <= t1 < t2,
    ensures
        text_before(timestamp_id_spec(t1), timestamp_id_spec(t2)),
        timestamp_id_spec(t1) != timestamp_id_spec(t2),
{
    let u1 = t1 as u64;
    let u2 = t2 as u64;
    assert(0 <= t1 && t1 < t2 ==> (t1 as u64) < (t2 as u64)) by (bit_vector);
    let a = timestamp_id_spec(t1);
    let b = timestamp_id_spec(t2);
    lemma_timestamp_groups(t1);
    lemma_timestamp_groups(t2);
    lemma_encode_characters(timestamp_bytes(t1));
    lemma_encode_characters(timestamp_bytes(t2));
    assert(a.len() == 13 && b.len() == 13);
    let k = lemma_first_difference(u1, u2, 0);
    lemma_digit_order(u1, u2, k);
    assert forall|j: int| 0 <= j < k implies a[j] == b[j] by {
        assert(encode_group(timestamp_bytes(t1), j) == timestamp_digit(u1, j));
        assert(encode_group(timestamp_bytes(t2), j) == timestamp_digit(u2, j));
    }
    assert(a.take(k) =~= b.take(k));
    let d1 = encode_group(timestamp_bytes(t1), k);
    let d2 = encode_group(timestamp_bytes(t2), k);
    assert(d1 == timestamp_digit(u1, k));
    assert(d2 == timestamp_digit(u2, k));
    assert(a[k] == crockford_char(d1 as int));
    assert(b[k] == crockford_char(d2 as int));
    lemma_crockford_char(d1 as int, d2 as int);
    assert((a[k] as int) < (b[k] as int));
    assert(text_before(a, b));
    assert(a[k] != b[k]);
}

/// The timestamp id of `timestamp` (microseconds since the Unix epoch).
///
/// Such an id has thirteen characters, passes `validate_timestamp_id`, and
/// decodes back to the timestamp's bytes.
pub fn timestamp_id(timestamp: i64) -> (res: String)
    ensures
        res@ == timestamp_id_spec(timestamp),
        res@.len() == 13,
        forall|i: int| 0 <= i < res@.len() ==> is_crockford_digit(#[trigger] res@[i]),
        is_timestamp_id(res@),
        base32_crockford_decode(res@) == Some(timestamp_bytes(timestamp)),
{
    let u = timestamp as u64;
    let bytes: Vec<u8> = vec![
        (u >> 56u64) as u8,
        (u >> 48u64) as u8,
        (u >> 40u64) as u8,
        (u >> 32u64) as u8,
        (u >> 24u64) as u8,
        (u >> 16u64) as u8,
        (u >> 8u64) as u8,
        u as u8,
    ];
    assert(bytes@ =~= timestamp_bytes(timestamp));
    let res = encode_crockford(bytes.as_slice());
    proof {
        lemma_encode_characters(bytes@);
    }
    res
}

/// The hash id of `data`: 26 characters of Crockford's Base32.
pub fn hash_id(data: &str) -> (res: String)
    ensures
        res@ == hash_id_spec(data@),
        res@.len() == 26,
        forall|i: int| 0 <= i < res@.len() ==> is_crockford_digit(#[trigger] res@[i]),
{
    let digest = blake3_hash(data.as_bytes());
    let mut half: Vec<u8> = Vec::new();
    let mut i: usize = 0;
    while i < 16
        invariant
            i <= 16,
            digest@.len() == 32,
            half@ == digest@.take(i as int),
        decreases 16 - i,
    {
        half.push(digest[i]);
        assert(half@ =~= digest@.take(i + 1));
        i = i + 1;
    }
    let res = encode_crockford(half.as_slice());
    proof {
        lemma_encode_characters(half@);
    }
    res
}

/// Checks that `id` has the timestamp form.
///
/// Fails with `Invalid ID length: must be 13 characters` when it has another
/// length, and with `Invalid ID: not a Crockford Base32 string` when a
/// character cannot be read.
pub fn validate_timestamp_id(id: &str) -> (res: Result<(), String>)
    ensures
        res is Ok <==> is_timestamp_id(id@),
        res matches Err(e) ==> e@ == timestamp_id_error(id@),
{
    if id.unicode_len() != 13 {
        proof {
            reveal_strlit("Invalid ID length: must be 13 characters");
            assert("Invalid ID length: must be 13 characters"@ =~= id_length_error());
        }
        return Err(String::from_str("Invalid ID length: must be 13 characters"));
    }
    proof {
        lemma_decode_defined(id@);
    }
    match decode_crockford(id) {
        Some(_) => Ok(()),
        None => {
            proof {
                reveal_strlit("Invalid ID: not a Crockford Base32 string");
                assert("Invalid ID: not a Crockford Base32 string"@ =~= id_alphabet_error());
            }
            Err(String::from_str("Invalid ID: not a Crockford Base32 string"))
        },
    }
}

/// Why `id` is not a timestamp id.
pub open spec fn timestamp_id_error(id: Seq<char>) -> Seq<char> {
    if id.len() != 13 {
        id_length_error()
    } else {
        id_alphabet_error()
    }
}

/// `Invalid ID length: must be 13 characters`
pub open spec fn id_length_error() -> Seq<char> {
    seq![
        'I', 'n', 'v', 'a', 'l', 'i', 'd', ' ', 'I', 'D', ' ', 'l', 'e', 'n', 'g', 't', 'h', ':',
        ' ', 'm', 'u', 's', 't', ' ', 'b', 'e', ' ', '1', '3', ' ', 'c', 'h', 'a', 'r', 'a', 'c',
        't', 'e', 'r', 's',
    ]
}

/// `Invalid ID: not a Crockford Base32 string`
pub open spec fn id_alphabet_error() -> Seq<char> {
    seq![
        'I', 'n', 'v', 'a', 'l', 'i', 'd', ' ', 'I', 'D', ':', ' ', 'n', 'o', 't', ' ', 'a', ' ',
        'C', 'r', 'o', 'c', 'k', 'f', 'o', 'r', 'd', ' ', 'B', 'a', 's', 'e', '3', '2', ' ', 's',
        't', 'r', 'i', 'n', 'g',
    ]
}

/// `Invalid ID: expected <expected>, found <found>`
pub open spec fn hash_id_mismatch_error(expected: Seq<char>, found: Seq<char>) -> Seq<char> {
    seq!['I', 'n', 'v', 'a', 'l', 'i', 'd', ' ', 'I', 'D', ':', ' ', 'e', 'x', 'p', 'e', 'c', 't', 'e', 'd', ' ']
        + expected + seq![',', ' ', 'f', 'o', 'u', 'n', 'd', ' '] + found
}

/// Checks that `id` is the hash id `expected`; fails with
/// `Invalid ID: expected <expected>, found <id>` otherwise.
pub fn validate_hash_id(id: &str, expected: &str) -> (res: Result<(), String>)
    ensures
        res is Ok <==> id@ == expected@,
        res matches Err(e) ==> e@ == hash_id_mismatch_error(expected@, id@),
{
    if text_equals(id, expected) {
        Ok(())
    } else {
        let mut e = String::from_str("Invalid ID: expected ");
        e.append(expected);
        e.append(", found ");
        e.append(id);
        proof {
            reveal_strlit("Invalid ID: expected ");
            reveal_strlit(", found ");
            assert(e@ =~= hash_id_mismatch_error(expected@, id@));
        }
        Err(e)
    }
}

/// Law: the alphabet of Crockford's Base32 is
/// `0123456789ABCDEFGHJKMNPQRSTVWXYZ`.
pub proof fn lemma_crockford_alphabet_literal(v: int)
    requires
        0 <= v < 32,
    ensures
        crockford_char(v) == seq!['0', '1', '2', '3', '4', '5', '6', '7', '8', '9', 'A', 'B', 'C', 'D', 'E', 'F', 'G', 'H', 'J', 'K', 'M', 'N', 'P', 'Q', 'R', 'S', 'T', 'V', 'W', 'X', 'Y', 'Z'][v],
{
    assert(crockford_char(0) == seq!['0', '1', '2', '3', '4', '5', '6', '7', '8', '9', 'A', 'B', 'C', 'D', 'E', 'F', 'G', 'H', 'J', 'K', 'M', 'N', 'P', 'Q', 'R', 'S', 'T', 'V', 'W', 'X', 'Y', 'Z'][0]);
    assert(crockford_char(1) == seq!['0', '1', '2', '3', '4', '5', '6', '7', '8', '9', 'A', 'B', 'C', 'D', 'E', 'F', 'G', 'H', 'J', 'K', 'M', 'N', 'P', 'Q', 'R', 'S', 'T', 'V', 'W', 'X', 'Y', 'Z'][1]);
    assert(crockford_char(2) == seq!['0', '1', '2', '3', '4', '5', '6', '7', '8', '9', 'A', 'B', 'C', 'D', 'E', 'F', 'G', 'H', 'J', 'K', 'M', 'N', 'P', 'Q', 'R', 'S', 'T', 'V', 'W', 'X', 'Y', 'Z'][2]);
    assert(crockford_char(3) == seq!['0', '1', '2', '3', '4', '5', '6', '7', '8', '9', 'A', 'B', 'C', 'D', 'E', 'F', 'G', 'H', 'J', 'K', 'M', 'N', 'P', 'Q', 'R', 'S', 'T', 'V', 'W', 'X', 'Y', 'Z'][3]);
    assert(crockford_char(4) == seq!['0', '1', '2', '3', '4', '5', '6', '7', '8', '9', 'A', 'B', 'C', 'D', 'E', 'F', 'G', 'H', 'J', 'K', 'M', 'N', 'P', 'Q', 'R', 'S', 'T', 'V', 'W', 'X', 'Y', 'Z'][4]);
    assert(crockford_char(5) == seq!['0', '1', '2', '3', '4', '5', '6', '7', '8', '9', 'A', 'B', 'C', 'D', 'E', 'F', 'G', 'H', 'J', 'K', 'M', 'N', 'P', 'Q', 'R', 'S', 'T', 'V', 'W', 'X', 'Y', 'Z'][5]);
    assert(crockford_char(6) == seq!['0', '1', '2', '3', '4', '5', '6', '7', '8', '9', 'A', 'B', 'C', 'D', 'E', 'F', 'G', 'H', 'J', 'K', 'M', 'N', 'P', 'Q', 'R', 'S', 'T', 'V', 'W', 'X', 'Y', 'Z'][6]);
    assert(crockford_char(7) == seq!['0', '1', '2', '3', '4', '5', '6', '7', '8', '9', 'A', 'B', 'C', 'D', 'E', 'F', 'G', 'H', 'J', 'K', 'M', 'N', 'P', 'Q', 'R', 'S', 'T', 'V', 'W', 'X', 'Y', 'Z'][7]);
    assert(crockford_char(8) == seq!['0', '1', '2', '3', '4', '5', '6', '7', '8', '9', 'A', 'B', 'C', 'D', 'E', 'F', 'G', 'H', 'J', 'K', 'M', 'N', 'P', 'Q', 'R', 'S', 'T', 'V', 'W', 'X', 'Y', 'Z'][8]);
    assert(crockford_char(9) == seq!['0', '1', '2', '3', '4', '5', '6', '7', '8', '9', 'A', 'B', 'C', 'D', 'E', 'F', 'G', 'H', 'J', 'K', 'M', 'N', 'P', 'Q', 'R', 'S', 'T', 'V', 'W', 'X', 'Y', 'Z'][9]);
    assert(crockford_char(10) == seq!['0', '1', '2', '3', '4', '5', '6', '7', '8', '9', 'A', 'B', 'C', 'D', 'E', 'F', 'G', 'H', 'J', 'K', 'M', 'N', 'P', 'Q', 'R', 'S', 'T', 'V', 'W', 'X', 'Y', 'Z'][10]);
    assert(crockford_char(11) == seq!['0', '1', '2', '3', '4', '5', '6', '7', '8', '9', 'A', 'B', 'C', 'D', 'E', 'F', 'G', 'H', 'J', 'K', 'M', 'N', 'P', 'Q', 'R', 'S', 'T', 'V', 'W', 'X', 'Y', 'Z'][11]);
    assert(crockford_char(12) == seq!['0', '1', '2', '3', '4', '5', '6', '7', '8', '9', 'A', 'B', 'C', 'D', 'E', 'F', 'G', 'H', 'J', 'K', 'M', 'N', 'P', 'Q', 'R', 'S', 'T', 'V', 'W', 'X', 'Y', 'Z'][12]);
    assert(crockford_char(13) == seq!['0', '1', '2', '3', '4', '5', '6', '7', '8', '9', 'A', 'B', 'C', 'D', 'E', 'F', 'G', 'H', 'J', 'K', 'M', 'N', 'P', 'Q', 'R', 'S', 'T', 'V', 'W', 'X', 'Y', 'Z'][13]);
    assert(crockford_char(14) == seq!['0', '1', '2', '3', '4', '5', '6', '7', '8', '9', 'A', 'B', 'C', 'D', 'E', 'F', 'G', 'H', 'J', 'K', 'M', 'N', 'P', 'Q', 'R', 'S', 'T', 'V', 'W', 'X', 'Y', 'Z'][14]);
    assert(crockford_char(15) == seq!['0', '1', '2', '3', '4', '5', '6', '7', '8', '9', 'A', 'B', 'C', 'D', 'E', 'F', 'G', 'H', 'J', 'K', 'M', 'N', 'P', 'Q', 'R', 'S', 'T', 'V', 'W', 'X', 'Y', 'Z'][15]);
    assert(crockford_char(16) == seq!['0', '1', '2', '3', '4', '5', '6', '7', '8', '9', 'A', 'B', 'C', 'D', 'E', 'F', 'G', 'H', 'J', 'K', 'M', 'N', 'P', 'Q', 'R', 'S', 'T', 'V', 'W', 'X', 'Y', 'Z'][16]);
    assert(crockford_char(17) == seq!['0', '1', '2', '3', '4', '5', '6', '7', '8', '9', 'A', 'B', 'C', 'D', 'E', 'F', 'G', 'H', 'J', 'K', 'M', 'N', 'P', 'Q', 'R', 'S', 'T', 'V', 'W', 'X', 'Y', 'Z'][17]);
    assert(crockford_char(18) == seq!['0', '1', '2', '3', '4', '5', '6', '7', '8', '9', 'A', 'B', 'C', 'D', 'E', 'F', 'G', 'H', 'J', 'K', 'M', 'N', 'P', 'Q', 'R', 'S', 'T', 'V', 'W', 'X', 'Y', 'Z'][18]);
    assert(crockford_char(19) == seq!['0', '1', '2', '3', '4', '5', '6', '7', '8', '9', 'A', 'B', 'C', 'D', 'E', 'F', 'G', 'H', 'J', 'K', 'M', 'N', 'P', 'Q', 'R', 'S', 'T', 'V', 'W', 'X', 'Y', 'Z'][19]);
    assert(crockford_char(20) == seq!['0', '1', '2', '3', '4', '5', '6', '7', '8', '9', 'A', 'B', 'C', 'D', 'E', 'F', 'G', 'H', 'J', 'K', 'M', 'N', 'P', 'Q', 'R', 'S', 'T', 'V', 'W', 'X', 'Y', 'Z'][20]);
    assert(crockford_char(21) == seq!['0', '1', '2', '3', '4', '5', '6', '7', '8', '9', 'A', 'B', 'C', 'D', 'E', 'F', 'G', 'H', 'J', 'K', 'M', 'N', 'P', 'Q', 'R', 'S', 'T', 'V', 'W', 'X', 'Y', 'Z'][21]);
    assert(crockford_char(22) == seq!['0', '1', '2', '3', '4', '5', '6', '7', '8', '9', 'A', 'B', 'C', 'D', 'E', 'F', 'G', 'H', 'J', 'K', 'M', 'N', 'P', 'Q', 'R', 'S', 'T', 'V', 'W', 'X', 'Y', 'Z'][22]);
    assert(crockford_char(23) == seq!['0', '1', '2', '3', '4', '5', '6', '7', '8', '9', 'A', 'B', 'C', 'D', 'E', 'F', 'G', 'H', 'J', 'K', 'M', 'N', 'P', 'Q', 'R', 'S', 'T', 'V', 'W', 'X', 'Y', 'Z'][23]);
    assert(crockford_char(24) == seq!['0', '1', '2', '3', '4', '5', '6', '7', '8', '9', 'A', 'B', 'C', 'D', 'E', 'F', 'G', 'H', 'J', 'K', 'M', 'N', 'P', 'Q', 'R', 'S', 'T', 'V', 'W', 'X', 'Y', 'Z'][24]);
    assert(crockford_char(25) == seq!['0', '1', '2', '3', '4', '5', '6', '7', '8', '9', 'A', 'B', 'C', 'D', 'E', 'F', 'G', 'H', 'J', 'K', 'M', 'N', 'P', 'Q', 'R', 'S', 'T', 'V', 'W', 'X', 'Y', 'Z'][25]);
    assert(crockford_char(26) == seq!['0', '1', '2', '3', '4', '5', '6', '7', '8', '9', 'A', 'B', 'C', 'D', 'E', 'F', 'G', 'H', 'J', 'K', 'M', 'N', 'P', 'Q', 'R', 'S', 'T', 'V', 'W', 'X', 'Y', 'Z'][26]);
    assert(crockford_char(27) == seq!['0', '1', '2', '3', '4', '5', '6', '7', '8', '9', 'A', 'B', 'C', 'D', 'E', 'F', 'G', 'H', 'J', 'K', 'M', 'N', 'P', 'Q', 'R', 'S', 'T', 'V', 'W', 'X', 'Y', 'Z'][27]);
    assert(crockford_char(28) == seq!['0', '1', '2', '3', '4', '5', '6', '7', '8', '9', 'A', 'B', 'C', 'D', 'E', 'F', 'G', 'H', 'J', 'K', 'M', 'N', 'P', 'Q', 'R', 'S', 'T', 'V', 'W', 'X', 'Y', 'Z'][28]);
    assert(crockford_char(29) == seq!['0', '1', '2', '3', '4', '5', '6', '7', '8', '9', 'A', 'B', 'C', 'D', 'E', 'F', 'G', 'H', 'J', 'K', 'M', 'N', 'P', 'Q', 'R', 'S', 'T', 'V', 'W', 'X', 'Y', 'Z'][29]);
    assert(crockford_char(30) == seq!['0', '1', '2', '3', '4', '5', '6', '7', '8', '9', 'A', 'B', 'C', 'D', 'E', 'F', 'G', 'H', 'J', 'K', 'M', 'N', 'P', 'Q', 'R', 'S', 'T', 'V', 'W', 'X', 'Y', 'Z'][30]);
    assert(crockford_char(31) == seq!['0', '1', '2', '3', '4', '5', '6', '7', '8', '9', 'A', 'B', 'C', 'D', 'E', 'F', 'G', 'H', 'J', 'K', 'M', 'N', 'P', 'Q', 'R', 'S', 'T', 'V', 'W', 'X', 'Y', 'Z'][31]);
}

/// Law: the eight bytes of a timestamp, most significant first, put back
/// together give the timestamp's bits.
pub proof fn lemma_timestamp_bytes_compose(timestamp: i64)
    ensures
        timestamp_bytes(timestamp).len() == 8,
        ({
            let b = timestamp_bytes(timestamp);
            ((b[0] as u64) << 56u64) | ((b[1] as u64) << 48u64) | ((b[2] as u64) << 40u64) | ((
            b[3] as u64) << 32u64) | ((b[4] as u64) << 24u64) | ((b[5] as u64) << 16u64) | ((
            b[6] as u64) << 8u64) | (b[7] as u64) == timestamp as u64
        }),
{
    let u = timestamp as u64;
    assert(((((u >> 56u64) as u8) as u64) << 56u64) | ((((u >> 48u64) as u8) as u64) << 48u64)
        | ((((u >> 40u64) as u8) as u64) << 40u64) | ((((u >> 32u64) as u8) as u64) << 32u64) | ((
    ((u >> 24u64) as u8) as u64) << 24u64) | ((((u >> 16u64) as u8) as u64) << 16u64) | ((((u
        >> 8u64) as u8) as u64) << 8u64) | ((u as u8) as u64) == u) by (bit_vector);
}

/// Law: a hash id is the first sixteen of the 32 bytes of the BLAKE3 hash
/// of the text's UTF-8 bytes, in Crockford's Base32.
pub proof fn lemma_hash_id_first_half(data: Seq<char>)
    ensures
        hash_id_spec(data) == base32_crockford_encode(
            blake3_digest(encode_utf8(data)).subrange(0, 16),
        ),
{
    assert(blake3_digest(encode_utf8(data)).take(16) =~= blake3_digest(encode_utf8(data)).subrange(0, 16));
}

} // verus!
