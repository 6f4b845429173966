//! The request gate: from an `Authorization` header to verified claims.
use vstd::prelude::*;
use vstd::utf8::{encode_utf8, is_ascii_chars, is_ascii_chars_encode_utf8};
use crate::clock::{now_timestamp, MAX_CLOCK_SECS};
use crate::error::AuthError;
use crate::token::{
    claims_result_view, lemma_token_claims_signed, signed_token, verify_result, Claims, ClaimsView,
    TokenService,
};

verus! {

/// The scheme prefix of a bearer credential, `Bearer ` with its space.
pub open spec fn bearer_prefix() -> Seq<u8> {
    seq![66u8, 101u8, 97u8, 114u8, 101u8, 114u8, 32u8]
}

/// The token bytes of a bearer credential, if the header holds one.
pub open spec fn bearer_token(header: Seq<u8>) -> Option<Seq<u8>> {
    if header.len() >= 7 && header.subrange(0, 7) == bearer_prefix() {
        Some(header.subrange(7, header.len() as int))
    } else {
        None
    }
}

/// The view of an optional header value.
pub open spec fn header_view(h: Option<&str>) -> Option<Seq<char>> {
    match h {
        Some(s) => Some(s@),
        None => None,
    }
}

/// The result of authenticating a header value at instant `now`: an absent
/// header, or a scheme other than bearer, is `MissingCredentials`; a bearer
/// token goes to verification.
pub open spec fn extract_result(key: Seq<u8>, header: Option<Seq<char>>, now: i64) -> Result<
    ClaimsView,
    AuthError,
> {
    match header {
        None => Err(AuthError::MissingCredentials),
        Some(h) => match bearer_token(encode_utf8(h)) {
            None => Err(AuthError::MissingCredentials),
            Some(t) => verify_result(key, t, now),
        },
    }
}

/// The `Authorization` value that presents `token` as a bearer credential.
pub open spec fn bearer_header(token: Seq<char>) -> Seq<char> {
    seq!['B', 'e', 'a', 'r', 'e', 'r', ' '] + token
}

/// UTF-8 encoding distributes over concatenation.
pub proof fn lemma_encode_utf8_concat(a: Seq<char>, b: Seq<char>)
    ensures
        encode_utf8(a + b) == encode_utf8(a) + encode_utf8(b),
    decreases a.len(),
{
    if a.len() == 0 {
        assert(a + b =~= b);
    } else {
        assert((a + b).drop_first() =~= a.drop_first() + b);
        lemma_encode_utf8_concat(a.drop_first(), b);
    }
}

/// A request bearing a token signed for `c` is authenticated with exactly `c`
/// at any instant before `c` expires.
pub proof fn lemma_bearer_round_trip(key: Seq<u8>, token: Seq<char>, c: ClaimsView, now: i64)
    requires
        encode_utf8(token) == signed_token(key, c),
        now < c.exp,
    ensures
        extract_result(key, Some(bearer_header(token)), now) == Ok::<ClaimsView, AuthError>(c),
{
    let p = seq!['B', 'e', 'a', 'r', 'e', 'r', ' '];
    assert(is_ascii_chars(p));
    is_ascii_chars_encode_utf8(p);
    assert(encode_utf8(p) =~= bearer_prefix());
    lemma_encode_utf8_concat(p, token);
    let h = encode_utf8(bearer_header(token));
    assert(h.subrange(0, 7) =~= bearer_prefix());
    assert(h.subrange(7, h.len() as int) =~= encode_utf8(token));
    lemma_token_claims_signed(key, c);
}

/// Authenticates a request from its `Authorization` header at instant `now`.
/// `Ok` is the authenticated state with its claims; it never consults the store.
pub fn extract_claims(tokens: &TokenService, authorization: Option<&str>, now: i64) -> (r: Result<
    Claims,
    AuthError,
>)
    ensures
        claims_result_view(r) == extract_result(tokens.key(), header_view(authorization), now),
{
    match authorization {
        None => Err(AuthError::MissingCredentials),
        Some(h) => {
            let b = h.as_bytes();
            let len = b.len();
            if len < 7 || b[0] != 66 || b[1] != 101 || b[2] != 97 || b[3] != 114 || b[4] != 101
                || b[5] != 114 || b[6] != 32 {
                proof {
                    if len >= 7 {
                        assert(b@.subrange(0, 7)[0] == b@[0]);
                        assert(b@.subrange(0, 7) != bearer_prefix() || b@[0] == 66);
                    }
                    if len >= 7 && b@.subrange(0, 7) == bearer_prefix() {
                        assert(b@[0] == b@.subrange(0, 7)[0]);
                        assert(b@[1] == b@.subrange(0, 7)[1]);
                        assert(b@[2] == b@.subrange(0, 7)[2]);
                        assert(b@[3] == b@.subrange(0, 7)[3]);
                        assert(b@[4] == b@.subrange(0, 7)[4]);
                        assert(b@[5] == b@.subrange(0, 7)[5]);
                        assert(b@[6] == b@.subrange(0, 7)[6]);
                    }
                }
                return Err(AuthError::MissingCredentials);
            }
            assert(b@.subrange(0, 7) =~= bearer_prefix());
            tokens.verify_bytes(&b[7..len], now)
        },
    }
}

/// Authenticates a request at the current instant.
pub fn extract_claims_now(tokens: &TokenService, authorization: Option<&str>) -> (r: Result<
    Claims,
    AuthError,
>)
    ensures
        exists|now: i64|
            0 <= now <= MAX_CLOCK_SECS && claims_result_view(r) == extract_result(
                tokens.key(),
                header_view(authorization),
                now,
            ),
{
    let now = now_timestamp();
    extract_claims(tokens, authorization, now)
}

} // verus!
