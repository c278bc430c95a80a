//! Reading the bearer token out of an `Authorization` header.

use vstd::prelude::*;
use vstd::utf8::*;

verus! {

/// A byte that a header value may hold and still be read as text: the
/// visible ASCII characters, the space and the tab.
pub open spec fn is_visible_ascii(b: u8) -> bool {
    (32 <= b && b < 127) || b == 9
}

/// Every byte of the header value is visible ASCII.
pub open spec fn all_visible_ascii(bytes: Seq<u8>) -> bool {
    forall|i: int| 0 <= i < bytes.len() ==> #[trigger] is_visible_ascii(bytes[i])
}

/// The bytes of `"Bearer "`.
pub open spec fn bearer_prefix() -> Seq<u8> {
    seq![66u8, 101u8, 97u8, 114u8, 101u8, 114u8, 32u8]
}

pub open spec fn starts_with_bearer(s: Seq<u8>) -> bool {
    s.len() >= 7 && s.subrange(0, 7) == bearer_prefix()
}

/// The text with every leading `"Bearer "` removed, however often it repeats.
pub open spec fn strip_bearer(s: Seq<u8>) -> Seq<u8>
    decreases s.len(),
{
    if starts_with_bearer(s) {
        strip_bearer(s.subrange(7, s.len() as int))
    } else {
        s
    }
}

/// Whether the header value can be read as text.
pub fn is_visible_header_text(bytes: &[u8]) -> (r: bool)
    ensures
        r == all_visible_ascii(bytes@),
{
    let mut i: usize = 0;
    while i < bytes.len()
        invariant
            i <= bytes.len(),
            forall|j: int| 0 <= j < i ==> #[trigger] is_visible_ascii(bytes@[j]),
        decreases bytes.len() - i,
    {
        let b = bytes[i];
        if !((32 <= b && b < 127) || b == 9) {
            assert(!is_visible_ascii(bytes@[i as int]));
            return false;
        }
        i += 1;
    }
    true
}

fn has_bearer_at(bytes: &[u8], start: usize) -> (r: bool)
    requires
        start <= bytes.len(),
    ensures
        r == starts_with_bearer(bytes@.subrange(start as int, bytes@.len() as int)),
{
    let rest = Ghost(bytes@.subrange(start as int, bytes@.len() as int));
    if bytes.len() - start < 7 {
        return false;
    }
    let matched = bytes[start] == 66 && bytes[start + 1] == 101 && bytes[start + 2] == 97
        && bytes[start + 3] == 114 && bytes[start + 4] == 101 && bytes[start + 5] == 114
        && bytes[start + 6] == 32;
    if matched {
        assert(rest@.subrange(0, 7) =~= bearer_prefix());
    } else {
        assert(rest@.subrange(0, 7) != bearer_prefix()) by {
            if rest@.subrange(0, 7) == bearer_prefix() {
                assert(rest@.subrange(0, 7)[0] == bearer_prefix()[0]);
                assert(rest@.subrange(0, 7)[1] == bearer_prefix()[1]);
                assert(rest@.subrange(0, 7)[2] == bearer_prefix()[2]);
                assert(rest@.subrange(0, 7)[3] == bearer_prefix()[3]);
                assert(rest@.subrange(0, 7)[4] == bearer_prefix()[4]);
                assert(rest@.subrange(0, 7)[5] == bearer_prefix()[5]);
                assert(rest@.subrange(0, 7)[6] == bearer_prefix()[6]);
            }
        }
    }
    matched
}

/// The bytes with every leading `"Bearer "` removed.
pub fn strip_bearer_prefixes(bytes: &[u8]) -> (r: Vec<u8>)
    ensures
        r@ == strip_bearer(bytes@),
{
    let mut start: usize = 0;
    assert(bytes@.subrange(0, bytes@.len() as int) =~= bytes@);
    while has_bearer_at(bytes, start)
        invariant
            start <= bytes.len(),
            strip_bearer(bytes@.subrange(start as int, bytes@.len() as int)) == strip_bearer(bytes@),
        decreases bytes.len() - start,
    {
        let ghost rest = bytes@.subrange(start as int, bytes@.len() as int);
        assert(rest.subrange(7, rest.len() as int) =~= bytes@.subrange(start + 7, bytes@.len() as int));
        start = start + 7;
    }
    let ghost rest = bytes@.subrange(start as int, bytes@.len() as int);
    let mut out: Vec<u8> = Vec::new();
    let mut i: usize = start;
    while i < bytes.len()
        invariant
            start <= i <= bytes.len(),
            out@ == bytes@.subrange(start as int, i as int),
        decreases bytes.len() - i,
    {
        out.push(bytes[i]);
        i += 1;
        assert(out@ =~= bytes@.subrange(start as int, i as int));
    }
    assert(out@ =~= rest);
    out
}

/// `String::from_utf8`: the bytes as text when they are valid UTF-8, which
/// std documents as the only case in which it succeeds.
#[verifier::external_body]
fn string_from_utf8(bytes: Vec<u8>) -> (r: Option<String>)
    ensures
        r is Some <==> valid_utf8(bytes@),
        r matches Some(s) ==> s@ == decode_utf8(bytes@),
{
    String::from_utf8(bytes).ok()
}

proof fn lemma_ascii_valid_utf8(bytes: Seq<u8>)
    requires
        forall|i: int| 0 <= i < bytes.len() ==> #[trigger] bytes[i] < 128,
    ensures
        valid_utf8(bytes),
    decreases bytes.len(),
{
    if bytes.len() > 0 {
        let b = bytes[0];
        assert(b < 128);
        assert(b & 0x7F == b) by (bit_vector)
            requires
                b < 128,
        ;
        let rest = bytes.subrange(1, bytes.len() as int);
        assert(pop_first_scalar(bytes) =~= rest);
        assert forall|i: int| 0 <= i < rest.len() implies #[trigger] rest[i] < 128 by {
            assert(rest[i] == bytes[i + 1]);
        }
        lemma_ascii_valid_utf8(rest);
    }
}

proof fn lemma_strip_keeps_visible(s: Seq<u8>)
    requires
        all_visible_ascii(s),
    ensures
        all_visible_ascii(strip_bearer(s)),
    decreases s.len(),
{
    if starts_with_bearer(s) {
        let rest = s.subrange(7, s.len() as int);
        assert forall|i: int| 0 <= i < rest.len() implies #[trigger] is_visible_ascii(rest[i]) by {
            assert(rest[i] == s[i + 7]);
        }
        lemma_strip_keeps_visible(rest);
    }
}

/// The token that an `Authorization` header value carries: `None` when the
/// value cannot be read as text, else the text with every leading
/// `"Bearer "` removed.
pub fn bearer_token(header: &[u8]) -> (r: Option<String>)
    ensures
        r is Some <==> all_visible_ascii(header@),
        r matches Some(token) ==> valid_utf8(strip_bearer(header@)) && token@ == decode_utf8(
            strip_bearer(header@),
        ),
{
    if !is_visible_header_text(header) {
        return None;
    }
    let stripped = strip_bearer_prefixes(header);
    proof {
        lemma_strip_keeps_visible(header@);
        assert forall|i: int| 0 <= i < stripped@.len() implies #[trigger] stripped@[i] < 128 by {
            assert(is_visible_ascii(stripped@[i]));
        }
        lemma_ascii_valid_utf8(stripped@);
    }
    string_from_utf8(stripped)
}

/// Removing the leading `"Bearer "` prefixes a second time changes nothing.
pub proof fn lemma_strip_bearer_idempotent(s: Seq<u8>)
    ensures
        strip_bearer(strip_bearer(s)) == strip_bearer(s),
    decreases s.len(),
{
    if starts_with_bearer(s) {
        lemma_strip_bearer_idempotent(s.subrange(7, s.len() as int));
    }
}

/// A header with one more `"Bearer "` in front carries the same token.
pub proof fn lemma_strip_bearer_extra_prefix(s: Seq<u8>)
    ensures
        strip_bearer(bearer_prefix() + s) == strip_bearer(s),
{
    let t = bearer_prefix() + s;
    assert(t.subrange(0, 7) =~= bearer_prefix());
    assert(t.subrange(7, t.len() as int) =~= s);
}

/// A header `"Bearer <token>"`, where the token is visible ASCII and does not
/// itself start with `"Bearer "`, yields that token.
pub proof fn lemma_bearer_header_yields_token(token: Seq<u8>)
    requires
        all_visible_ascii(token),
        !starts_with_bearer(token),
    ensures
        all_visible_ascii(bearer_prefix() + token),
        strip_bearer(bearer_prefix() + token) == token,
{
    let h = bearer_prefix() + token;
    assert forall|i: int| 0 <= i < h.len() implies #[trigger] is_visible_ascii(h[i]) by {
        if i >= 7 {
            assert(h[i] == token[i - 7]);
        }
    }
    lemma_strip_bearer_extra_prefix(token);
}

} // verus!
