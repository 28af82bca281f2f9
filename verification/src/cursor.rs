//! The opaque pagination token handed out by `list_time_spans`: the page
//! position as compact JSON, encoded with URL-safe base64 without padding.
use vstd::prelude::*;

use crate::error::{validation_error, AppError};
use crate::text::{
    ascii_bytes, lemma_ascii_bytes_concat, push_signed_decimal_bytes, signed_decimal,
};

verus! {

/// Opaque pagination token round-tripped between `list_time_spans` calls.
///
/// The encoded form hides Traggo's raw cursor (offset, start id, page size)
/// from callers, who pass it back verbatim to fetch the next page.
#[derive(Clone, Copy, Debug, PartialEq, Eq, Structural)]
pub struct PageCursor {
    pub offset: i64,
    pub start_id: i64,
    pub page_size: i64,
}

/// One member `"key":value` of a JSON object whose values are integers.
pub open spec fn json_member(key: Seq<char>, value: i64) -> Seq<char> {
    seq!['"'] + key + seq!['"', ':'] + signed_decimal(value as int)
}

/// The members of a JSON object, separated by commas.
pub open spec fn json_members(members: Seq<(Seq<char>, i64)>) -> Seq<char>
    decreases members.len(),
{
    if members.len() == 0 {
        Seq::empty()
    } else if members.len() == 1 {
        json_member(members[0].0, members[0].1)
    } else {
        json_members(members.drop_last()) + seq![','] + json_member(
            members.last().0,
            members.last().1,
        )
    }
}

/// Compact JSON text of an object whose members are integers, in order.
pub open spec fn json_int_object(members: Seq<(Seq<char>, i64)>) -> Seq<char> {
    seq!['{'] + json_members(members) + seq!['}']
}

/// A key made of lower-case ASCII letters and underscores, which JSON
/// writes without escapes.
pub open spec fn plain_json_key(key: Seq<char>) -> bool {
    key.len() > 0 && forall|i: int|
        0 <= i < key.len() ==> ('a' <= #[trigger] key[i] <= 'z' || key[i] == '_')
}

/// Keys that are all plain and pairwise different.
pub open spec fn plain_distinct_keys(members: Seq<(Seq<char>, i64)>) -> bool {
    &&& forall|i: int| 0 <= i < members.len() ==> plain_json_key(#[trigger] members[i].0)
    &&& forall|i: int, j: int|
        0 <= i < members.len() && 0 <= j < members.len() && i != j ==> members[i].0
            != members[j].0
}

/// The integer member `key` of the JSON object in `text`, as
/// `serde_json` reads it; `None` when the text is no JSON, the member is
/// missing, or its value is not an `i64`.
pub uninterp spec fn json_int_member_of(text: Seq<u8>, key: Seq<char>) -> Option<i64>;

/// URL-safe base64 of `bytes`, without padding.
pub uninterp spec fn base64url_encoded(bytes: Seq<u8>) -> Seq<char>;

/// The bytes that URL-safe unpadded base64 `text` stands for, or `None`
/// when it is not such base64.
pub uninterp spec fn base64url_decoded(text: Seq<char>) -> Option<Seq<u8>>;

/// `serde_json::from_slice::<serde_json::Value>`, then `Value::get(key)`
/// and `Value::as_i64`. Beyond the name, it claims only that a compact
/// JSON object of integer members with plain, distinct keys yields the
/// value of the member asked for.
#[verifier::external_body]
fn json_int_member(bytes: &[u8], key: &str) -> (r: Option<i64>)
    ensures
        r == json_int_member_of(bytes@, key@),
        forall|members: Seq<(Seq<char>, i64)>, i: int|
            #![trigger ascii_bytes(json_int_object(members)), members[i]]
            bytes@ == ascii_bytes(json_int_object(members)) && plain_distinct_keys(members) && 0
                <= i < members.len() && members[i].0 == key@ ==> r == Some(members[i].1),
{
    match serde_json::from_slice::<serde_json::Value>(bytes) {
        Ok(value) => match value.get(key) {
            Some(member) => member.as_i64(),
            None => None,
        },
        Err(_) => None,
    }
}

/// Whether `c` belongs to the URL-safe base64 alphabet: `A`-`Z`, `a`-`z`,
/// `0`-`9`, `-` and `_`.
pub open spec fn url_safe_char(c: char) -> bool {
    ||| 'A' <= c <= 'Z'
    ||| 'a' <= c <= 'z'
    ||| '0' <= c <= '9'
    ||| c == '-'
    ||| c == '_'
}

/// The length of unpadded base64 for `n` bytes: four characters for every
/// three bytes, and one more than the leftover bytes for a partial group.
pub open spec fn unpadded_base64_len(n: nat) -> nat {
    4 * (n / 3) + if n % 3 == 0 {
        0
    } else {
        n % 3 + 1
    }
}

/// The integers of the JSON array in `text`, as `serde_json` reads a
/// `Vec<i64>`; `None` when the text is not such an array.
pub uninterp spec fn json_int_array_of(text: Seq<u8>) -> Option<Seq<i64>>;

/// `base64::engine::general_purpose::URL_SAFE_NO_PAD.encode`. Beyond the
/// name, it claims that decoding the result gives the bytes back, that the
/// result has the unpadded length, and that it uses only the URL-safe
/// alphabet.
#[verifier::external_body]
fn base64_encode(bytes: &[u8]) -> (r: String)
    ensures
        r@ == base64url_encoded(bytes@),
        base64url_decoded(r@) == Some(bytes@),
        r@.len() == unpadded_base64_len(bytes@.len()),
        forall|i: int| 0 <= i < r@.len() ==> url_safe_char(#[trigger] r@[i]),
{
    base64::Engine::encode(&base64::engine::general_purpose::URL_SAFE_NO_PAD, bytes)
}

/// `serde_json::from_slice::<Vec<i64>>`, named by `json_int_array_of`.
#[verifier::external_body]
fn json_int_array(bytes: &[u8]) -> (r: Option<Vec<i64>>)
    ensures
        match json_int_array_of(bytes@) {
            Some(a) => r matches Some(v) && v@ == a,
            None => r is None,
        },
{
    match serde_json::from_slice::<Vec<i64>>(bytes) {
        Ok(items) => Some(items),
        Err(_) => None,
    }
}

/// `base64::engine::general_purpose::URL_SAFE_NO_PAD.decode`, named by
/// `base64url_decoded`. Beyond the name, it claims that text holding a
/// character outside the URL-safe alphabet (padding `=` included) does
/// not decode.
#[verifier::external_body]
fn base64_decode(text: &str) -> (r: Option<Vec<u8>>)
    ensures
        match base64url_decoded(text@) {
            Some(b) => r matches Some(v) && v@ == b,
            None => r is None,
        },
        (exists|i: int| 0 <= i < text@.len() && !url_safe_char(#[trigger] text@[i])) ==> r is None,
{
    match base64::Engine::decode(&base64::engine::general_purpose::URL_SAFE_NO_PAD, text) {
        Ok(bytes) => Some(bytes),
        Err(_) => None,
    }
}

/// The members a cursor is written with, in the order of its fields.
pub open spec fn cursor_members(c: PageCursor) -> Seq<(Seq<char>, i64)> {
    seq![("offset"@, c.offset), ("start_id"@, c.start_id), ("page_size"@, c.page_size)]
}

/// The JSON bytes of a cursor: `{"offset":..,"start_id":..,"page_size":..}`.
pub open spec fn cursor_json(c: PageCursor) -> Seq<u8> {
    ascii_bytes(json_int_object(cursor_members(c)))
}

/// Whether `token` is the base64 of the JSON bytes of `c`.
pub open spec fn token_of(token: Seq<char>, c: PageCursor) -> bool {
    base64url_decoded(token) == Some(cursor_json(c))
}

/// The cursor written in JSON `bytes`: an object with the integer members
/// `offset`, `start_id` and `page_size`, or an array of exactly three
/// integers in that order.
pub open spec fn cursor_of_json(bytes: Seq<u8>) -> Option<PageCursor> {
    match (
        json_int_member_of(bytes, "offset"@),
        json_int_member_of(bytes, "start_id"@),
        json_int_member_of(bytes, "page_size"@),
    ) {
        (Some(offset), Some(start_id), Some(page_size)) => Some(
            PageCursor { offset, start_id, page_size },
        ),
        _ => match json_int_array_of(bytes) {
            Some(a) if a.len() == 3 => Some(
                PageCursor { offset: a[0], start_id: a[1], page_size: a[2] },
            ),
            _ => None,
        },
    }
}

/// The cursor that a token stands for, as `decode` reads it.
pub open spec fn decoded_cursor(token: Seq<char>) -> Option<PageCursor> {
    match base64url_decoded(token) {
        Some(bytes) => cursor_of_json(bytes),
        None => None,
    }
}

proof fn lemma_cursor_keys_plain(c: PageCursor)
    ensures
        plain_distinct_keys(cursor_members(c)),
{
    reveal_strlit("offset");
    reveal_strlit("start_id");
    reveal_strlit("page_size");
    let ms = cursor_members(c);
    assert(plain_json_key("offset"@));
    assert(plain_json_key("start_id"@));
    assert(plain_json_key("page_size"@));
    assert forall|i: int| 0 <= i < ms.len() implies plain_json_key(#[trigger] ms[i].0) by {}
    assert forall|i: int, j: int|
        0 <= i < ms.len() && 0 <= j < ms.len() && i != j implies ms[i].0 != ms[j].0 by {
        assert(ms[i].0.len() != ms[j].0.len());
    }
}

/// Appends the bytes of an ASCII string.
fn push_ascii(out: &mut Vec<u8>, s: &str)
    requires
        s.is_ascii(),
    ensures
        final(out)@ == old(out)@ + ascii_bytes(s@),
{
    proof {
        vstd::string::is_ascii_spec_bytes(s);
    }
    let bytes = s.as_bytes();
    let n = bytes.len();
    let ghost start = out@;
    let mut i: usize = 0;
    while i < n
        invariant
            n == bytes@.len() == s@.len(),
            bytes@ == ascii_bytes(s@),
            i <= n,
            out@ == start + bytes@.take(i as int),
        decreases n - i,
    {
        out.push(bytes[i]);
        i = i + 1;
        assert(out@ =~= start + bytes@.take(i as int));
    }
    assert(bytes@.take(n as int) =~= bytes@);
}

impl PageCursor {
    /// The JSON bytes of this cursor.
    pub fn to_json(&self) -> (r: Vec<u8>)
        ensures
            r@ == cursor_json(*self),
    {
        let mut out: Vec<u8> = Vec::new();
        proof {
            reveal_strlit("{\"offset\":");
            reveal_strlit(",\"start_id\":");
            reveal_strlit(",\"page_size\":");
            reveal_strlit("}");
        }
        push_ascii(&mut out, "{\"offset\":");
        push_signed_decimal_bytes(&mut out, self.offset);
        push_ascii(&mut out, ",\"start_id\":");
        push_signed_decimal_bytes(&mut out, self.start_id);
        push_ascii(&mut out, ",\"page_size\":");
        push_signed_decimal_bytes(&mut out, self.page_size);
        push_ascii(&mut out, "}");
        proof {
            reveal_strlit("offset");
            reveal_strlit("start_id");
            reveal_strlit("page_size");
            let ms = cursor_members(*self);
            let m0 = json_member(ms[0].0, ms[0].1);
            let m1 = json_member(ms[1].0, ms[1].1);
            let m2 = json_member(ms[2].0, ms[2].1);
            let m01 = ms.drop_last();
            assert(m01.drop_last() =~= seq![ms[0]]);
            assert(json_members(m01.drop_last()) == m0);
            assert(m01.last() == ms[1]);
            assert(json_members(m01) == m0 + seq![','] + m1);
            assert(json_members(ms) == m0 + seq![','] + m1 + seq![','] + m2);
            let text = json_int_object(ms);
            let d0 = signed_decimal(self.offset as int);
            let d1 = signed_decimal(self.start_id as int);
            let d2 = signed_decimal(self.page_size as int);
            assert(text =~= "{\"offset\":"@ + d0 + ",\"start_id\":"@ + d1 + ",\"page_size\":"@ + d2
                + "}"@);
            lemma_ascii_bytes_concat("{\"offset\":"@, d0);
            lemma_ascii_bytes_concat("{\"offset\":"@ + d0, ",\"start_id\":"@);
            lemma_ascii_bytes_concat("{\"offset\":"@ + d0 + ",\"start_id\":"@, d1);
            lemma_ascii_bytes_concat("{\"offset\":"@ + d0 + ",\"start_id\":"@ + d1, ",\"page_size\":"@);
            lemma_ascii_bytes_concat(
                "{\"offset\":"@ + d0 + ",\"start_id\":"@ + d1 + ",\"page_size\":"@,
                d2,
            );
            lemma_ascii_bytes_concat(
                "{\"offset\":"@ + d0 + ",\"start_id\":"@ + d1 + ",\"page_size\":"@ + d2,
                "}"@,
            );
            assert(out@ =~= ascii_bytes(text));
        }
        out
    }

    /// The token for this cursor: its JSON bytes in URL-safe base64 without
    /// padding. The token decodes back to this cursor.
    pub fn encode(&self) -> (r: Result<String, AppError>)
        ensures
            r matches Ok(token) && token@ == base64url_encoded(cursor_json(*self)) && token_of(
                token@,
                *self,
            ),
            r matches Ok(token) && token@.len() > 0 && forall|i: int|
                0 <= i < token@.len() ==> url_safe_char(#[trigger] token@[i]),
    {
        let json = self.to_json();
        assert(json@.len() >= 2);
        Ok(base64_encode(json.as_slice()))
    }

    /// The cursor a token stands for. Any token that is not URL-safe base64
    /// of a JSON object with the three integer members, or of an array of
    /// three integers, fails with a validation error. A token made by [`PageCursor::encode`] gives back
    /// the cursor it was made from.
    pub fn decode(token: &str) -> (r: Result<PageCursor, AppError>)
        ensures
            match decoded_cursor(token@) {
                Some(c) => r == Ok::<PageCursor, AppError>(c),
                None => r matches Err(e) && e@ == validation_error(
                    "cursor is not a valid pagination token"@,
                ),
            },
            forall|c: PageCursor| token_of(token@, c) ==> r == Ok::<PageCursor, AppError>(c),
            forall|c: PageCursor| token_of(token@, c) ==> decoded_cursor(token@) == Some(c),
            (exists|i: int| 0 <= i < token@.len() && !url_safe_char(#[trigger] token@[i])) ==> (r matches Err(
                e,
            ) && e@ == validation_error("cursor is not a valid pagination token"@)),
    {
        let bytes = match base64_decode(token) {
            Some(b) => b,
            None => {
                return Err(
                    AppError::Validation(String::from_str("cursor is not a valid pagination token")),
                );
            },
        };
        let offset = json_int_member(bytes.as_slice(), "offset");
        let start_id = json_int_member(bytes.as_slice(), "start_id");
        let page_size = json_int_member(bytes.as_slice(), "page_size");
        proof {
            assert forall|c: PageCursor| token_of(token@, c) implies offset == Some(c.offset)
                && start_id == Some(c.start_id) && page_size == Some(c.page_size) by {
                reveal_strlit("offset");
                reveal_strlit("start_id");
                reveal_strlit("page_size");
                let ms = cursor_members(c);
                assert(bytes@ == ascii_bytes(json_int_object(ms)));
                lemma_cursor_keys_plain(c);
                assert(ms[0].0 == "offset"@);
                assert(ms[1].0 == "start_id"@);
                assert(ms[2].0 == "page_size"@);
            }
        }
        if let (Some(offset), Some(start_id), Some(page_size)) = (offset, start_id, page_size) {
            return Ok(PageCursor { offset, start_id, page_size });
        }
        match json_int_array(bytes.as_slice()) {
            Some(items) if items.len() == 3 => Ok(
                PageCursor { offset: items[0], start_id: items[1], page_size: items[2] },
            ),
            _ => Err(
                AppError::Validation(String::from_str("cursor is not a valid pagination token")),
            ),
        }
    }
}

} // verus!
