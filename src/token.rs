//! Signed session tokens.
//!
//! A token is ASCII text `P.S`: `P` is the lowercase hex of the claims bytes
//! (the expiry as eight big-endian bytes, the role as one byte, then the
//! account in UTF-8) and `S` is the lowercase hex of their HMAC-SHA256 under
//! the service's secret.
use hmac::Mac;
use vstd::prelude::*;
use vstd::utf8::{
    encode_utf8, encode_utf8_decode_utf8, encode_utf8_valid_utf8, is_leading_byte_width_1,
    partial_valid_utf8, partial_valid_utf8_extend_ascii_block, valid_utf8,
};
use crate::codec::{
    be_bytes, decode_hex, from_be, hex_of, lemma_be_round_trip, lemma_from_be_round_trip,
    lemma_hex_has_no_dot, lemma_hex_injective, push_be_u64, push_hex, read_be_u64,
};
use crate::error::AuthError;

verus! {

/// The byte `.` that separates the two halves of a token.
pub const DOT: u8 = 46;

/// The HMAC-SHA256 tag of `msg` under `key`.
pub uninterp spec fn hmac_sha256_of(key: Seq<u8>, msg: Seq<u8>) -> Seq<u8>;

/// Relies on hmac's `Hmac<Sha256>` (digest from sha2): `new_from_slice` accepts a
/// key of any length, and `finalize` gives the 32-byte tag of what was fed in.
#[verifier::external_body]
fn hmac_sha256(key: &[u8], msg: &[u8]) -> (r: Vec<u8>)
    ensures
        r@ == hmac_sha256_of(key@, msg@),
        r@.len() == 32,
{
    let mut mac = hmac::Hmac::<sha2::Sha256>::new_from_slice(key).expect("any key length");
    mac.update(msg);
    mac.finalize().into_bytes().to_vec()
}

/// Relies on `String::from_utf8`: it succeeds exactly on valid UTF-8, and the
/// string then holds those bytes.
#[verifier::external_body]
fn string_from_utf8(bytes: Vec<u8>) -> (r: Option<String>)
    ensures
        r is Some <==> valid_utf8(bytes@),
        r matches Some(s) ==> encode_utf8(s@) == bytes@,
{
    match String::from_utf8(bytes) {
        Ok(s) => Some(s),
        Err(_) => None,
    }
}

/// What a token asserts: whose it is, with which role, and until when
/// (seconds since the epoch, exclusive).
pub struct Claims {
    pub account: String,
    pub role: i8,
    pub exp: i64,
}

/// The mathematical value of [`Claims`].
pub struct ClaimsView {
    pub account: Seq<char>,
    pub role: i8,
    pub exp: i64,
}

impl View for Claims {
    type V = ClaimsView;

    open spec fn view(&self) -> ClaimsView {
        ClaimsView { account: self.account@, role: self.role, exp: self.exp }
    }
}

/// The bytes that are signed for a set of claims.
pub open spec fn claims_bytes(c: ClaimsView) -> Seq<u8> {
    be_bytes(c.exp as u64) + seq![c.role as u8] + encode_utf8(c.account)
}

/// The token, as bytes, that signs `c` under `key`.
pub open spec fn signed_token(key: Seq<u8>, c: ClaimsView) -> Seq<u8> {
    hex_of(claims_bytes(c)) + seq![DOT] + hex_of(hmac_sha256_of(key, claims_bytes(c)))
}

/// The claims that token bytes `t` carry under `key`, if it is a token signed with it.
pub open spec fn token_claims(key: Seq<u8>, t: Seq<u8>) -> Option<ClaimsView> {
    if exists|c: ClaimsView| signed_token(key, c) == t {
        Some(choose|c: ClaimsView| signed_token(key, c) == t)
    } else {
        None
    }
}

/// The outcome of verifying token bytes `t` under `key` at instant `now`.
pub open spec fn verify_result(key: Seq<u8>, t: Seq<u8>, now: i64) -> Result<ClaimsView, AuthError> {
    match token_claims(key, t) {
        Some(c) => if now < c.exp {
            Ok(c)
        } else {
            Err(AuthError::InvalidToken)
        },
        None => Err(AuthError::InvalidToken),
    }
}

/// The view of a verification outcome.
pub open spec fn claims_result_view(r: Result<Claims, AuthError>) -> Result<ClaimsView, AuthError> {
    match r {
        Ok(c) => Ok(c@),
        Err(e) => Err(e),
    }
}

/// Whether an account is short enough for its token to be built in memory.
pub open spec fn token_fits(account: Seq<char>) -> bool {
    2 * encode_utf8(account).len() + 83 <= usize::MAX
}

/// In a signed token the first `.` comes right after the hex of the claims.
pub proof fn lemma_signed_token_layout(key: Seq<u8>, c: ClaimsView)
    ensures
        ({
            let t = signed_token(key, c);
            let h = hex_of(claims_bytes(c));
            &&& h.len() < t.len()
            &&& t[h.len() as int] == DOT
            &&& forall|i: int| 0 <= i < h.len() ==> t[i] != DOT
            &&& t.subrange(0, h.len() as int) == h
            &&& t.subrange(h.len() as int + 1, t.len() as int) == hex_of(
                hmac_sha256_of(key, claims_bytes(c)),
            )
        }),
{
    let t = signed_token(key, c);
    let h = hex_of(claims_bytes(c));
    assert forall|i: int| 0 <= i < h.len() implies t[i] != DOT by {
        assert(t[i] == h[i]);
        lemma_hex_has_no_dot(claims_bytes(c), i);
    }
    assert(t.subrange(0, h.len() as int) =~= h);
    assert(t.subrange(h.len() as int + 1, t.len() as int) =~= hex_of(
        hmac_sha256_of(key, claims_bytes(c)),
    ));
}

/// Distinct claims have distinct bytes.
pub proof fn lemma_claims_bytes_injective(c1: ClaimsView, c2: ClaimsView)
    requires
        claims_bytes(c1) == claims_bytes(c2),
    ensures
        c1 == c2,
{
    let b1 = claims_bytes(c1);
    let b2 = claims_bytes(c2);
    assert(b1.subrange(0, 8) =~= be_bytes(c1.exp as u64));
    assert(b2.subrange(0, 8) =~= be_bytes(c2.exp as u64));
    lemma_be_round_trip(c1.exp as u64);
    lemma_be_round_trip(c2.exp as u64);
    let (e1, e2) = (c1.exp, c2.exp);
    assert(e1 as u64 == e2 as u64 ==> e1 == e2) by (bit_vector);
    assert(b1[8] == c1.role as u8 && b2[8] == c2.role as u8);
    let (r1, r2) = (c1.role, c2.role);
    assert(r1 as u8 == r2 as u8 ==> r1 == r2) by (bit_vector);
    assert(b1.subrange(9, b1.len() as int) =~= encode_utf8(c1.account));
    assert(b2.subrange(9, b2.len() as int) =~= encode_utf8(c2.account));
    encode_utf8_decode_utf8(c1.account);
    encode_utf8_decode_utf8(c2.account);
}

/// Distinct claims give distinct tokens under one key.
pub proof fn lemma_signed_token_injective(key: Seq<u8>, c1: ClaimsView, c2: ClaimsView)
    requires
        signed_token(key, c1) == signed_token(key, c2),
    ensures
        c1 == c2,
{
    lemma_signed_token_layout(key, c1);
    lemma_signed_token_layout(key, c2);
    let t = signed_token(key, c1);
    let n1 = hex_of(claims_bytes(c1)).len() as int;
    let n2 = hex_of(claims_bytes(c2)).len() as int;
    if n1 < n2 {
        assert(t[n1] == DOT);
    } else if n2 < n1 {
        assert(t[n2] == DOT);
    }
    assert(n1 == n2);
    lemma_hex_injective(claims_bytes(c1), claims_bytes(c2));
    lemma_claims_bytes_injective(c1, c2);
}

/// The claims that a signed token carries are the ones it was signed for.
pub proof fn lemma_token_claims_signed(key: Seq<u8>, c: ClaimsView)
    ensures
        token_claims(key, signed_token(key, c)) == Some(c),
{
    let t = signed_token(key, c);
    assert(exists|d: ClaimsView| signed_token(key, d) == t);
    let d = choose|d: ClaimsView| signed_token(key, d) == t;
    lemma_signed_token_injective(key, c, d);
}

/// A token issued for `account` and `role` with lifetime `ttl` at instant
/// `issued_at` verifies, at any instant `now` before its expiry, to exactly
/// those claims.
pub proof fn lemma_issue_then_verify(
    key: Seq<u8>,
    account: Seq<char>,
    role: i8,
    ttl: i64,
    issued_at: i64,
    now: i64,
)
    requires
        i64::MIN <= issued_at + ttl <= i64::MAX,
        now < issued_at + ttl,
    ensures
        verify_result(
            key,
            signed_token(key, ClaimsView { account, role, exp: (issued_at + ttl) as i64 }),
            now,
        ) == Ok::<ClaimsView, AuthError>(ClaimsView { account, role, exp: (issued_at + ttl) as i64 }),
{
    lemma_token_claims_signed(key, ClaimsView { account, role, exp: (issued_at + ttl) as i64 });
}

/// A signed token verified at or after its expiry fails with `InvalidToken`.
pub proof fn lemma_expired_token_rejected(key: Seq<u8>, c: ClaimsView, now: i64)
    requires
        c.exp <= now,
    ensures
        verify_result(key, signed_token(key, c), now) == Err::<ClaimsView, AuthError>(
            AuthError::InvalidToken,
        ),
{
    lemma_token_claims_signed(key, c);
}

/// Issues and verifies tokens with one secret, fixed when the service is made.
pub struct TokenService {
    secret: Vec<u8>,
}

impl TokenService {
    /// The secret that signs this service's tokens.
    pub closed spec fn key(&self) -> Seq<u8> {
        self.secret@
    }

    pub fn new(secret: Vec<u8>) -> (r: TokenService)
        ensures
            r.key() == secret@,
    {
        TokenService { secret }
    }

    /// The token for `account` and `role` that expires at `exp`.
    pub fn issue_at(&self, account: &str, role: i8, exp: i64) -> (r: String)
        requires
            token_fits(account@),
        ensures
            encode_utf8(r@) == signed_token(
                self.key(),
                ClaimsView { account: account@, role, exp },
            ),
    {
        let ghost c = ClaimsView { account: account@, role, exp };
        let mut payload: Vec<u8> = Vec::new();
        push_be_u64(&mut payload, exp as u64);
        payload.push(role as u8);
        let mut name = account.as_bytes_vec();
        payload.append(&mut name);
        assert(payload@ =~= claims_bytes(c));
        let mac = hmac_sha256(self.secret.as_slice(), payload.as_slice());
        let mut out: Vec<u8> = Vec::new();
        push_hex(&mut out, payload.as_slice());
        out.push(DOT);
        push_hex(&mut out, mac.as_slice());
        assert(out@ =~= signed_token(self.key(), c));
        proof {
            assert forall|i: int| 0 <= i < out@.len() implies #[trigger] is_leading_byte_width_1(
                out@[i],
            ) by {
                let h = hex_of(claims_bytes(c));
                lemma_signed_token_layout(self.key(), c);
                if i < h.len() {
                    lemma_hex_has_no_dot(claims_bytes(c), i);
                } else if i > h.len() {
                    assert(out@[i] == hex_of(hmac_sha256_of(self.key(), claims_bytes(c)))[i
                        - h.len() - 1]);
                    lemma_hex_has_no_dot(hmac_sha256_of(self.key(), claims_bytes(c)), i - h.len() - 1);
                }
            }
            assert(out@.subrange(0, 0) =~= Seq::<u8>::empty());
            assert(partial_valid_utf8(out@, 0));
            partial_valid_utf8_extend_ascii_block(out@, 0, out@.len() as int);
            assert(out@.subrange(0, out@.len() as int) =~= out@);
        }
        match string_from_utf8(out) {
            Some(s) => s,
            None => {
                assert(false);
                String::new()
            },
        }
    }

    /// The token for `account` and `role` valid for `ttl` seconds from `now`;
    /// fails with `TokenCreation` when the expiry is not representable.
    pub fn issue(&self, account: &str, role: i8, ttl: i64, now: i64) -> (r: Result<String, AuthError>)
        requires
            token_fits(account@),
        ensures
            match r {
                Ok(t) => now + ttl <= i64::MAX && now + ttl >= i64::MIN && encode_utf8(t@)
                    == signed_token(
                    self.key(),
                    ClaimsView { account: account@, role, exp: (now + ttl) as i64 },
                ),
                Err(e) => e == AuthError::TokenCreation && (now + ttl > i64::MAX || now + ttl
                    < i64::MIN),
            },
    {
        match now.checked_add(ttl) {
            Some(exp) => Ok(self.issue_at(account, role, exp)),
            None => Err(AuthError::TokenCreation),
        }
    }

    /// Verifies token bytes at instant `now`.
    pub fn verify_bytes(&self, t: &[u8], now: i64) -> (r: Result<Claims, AuthError>)
        ensures
            claims_result_view(r) == verify_result(self.key(), t@, now),
    {
        let ghost key = self.key();
        let len = t.len();
        let mut k: usize = 0;
        while k < len && t[k] != DOT
            invariant
                len == t@.len(),
                k <= len,
                forall|i: int| 0 <= i < k ==> t@[i] != DOT,
            decreases len - k,
        {
            k = k + 1;
        }
        // Where a signed token equal to `t` would put its parts.
        assert forall|c: ClaimsView| signed_token(key, c) == t@ implies {
            &&& k == hex_of(claims_bytes(c)).len()
            &&& t@.subrange(0, k as int) == hex_of(claims_bytes(c))
            &&& t@.subrange(k + 1, len as int) == hex_of(hmac_sha256_of(key, claims_bytes(c)))
        } by {
            lemma_signed_token_layout(key, c);
            let n = hex_of(claims_bytes(c)).len() as int;
            if k < n {
                assert(t@[k as int] == DOT);
            } else if n < k {
                assert(t@[n] == DOT);
            }
        }
        if k == len {
            assert(token_claims(key, t@) is None);
            return Err(AuthError::InvalidToken);
        }
        let head = &t[0..k];
        let payload = match decode_hex(head) {
            Some(p) => p,
            None => {
                assert(token_claims(key, t@) is None);
                return Err(AuthError::InvalidToken);
            },
        };
        let mac = hmac_sha256(self.secret.as_slice(), payload.as_slice());
        let mut expected: Vec<u8> = Vec::new();
        push_hex(&mut expected, mac.as_slice());
        let tail = &t[k + 1..len];
        let same = bytes_equal(tail, expected.as_slice());
        assert forall|c: ClaimsView| signed_token(key, c) == t@ implies claims_bytes(c)
            == payload@ && same by {
            lemma_hex_injective(claims_bytes(c), payload@);
        }
        if !same {
            assert(token_claims(key, t@) is None);
            return Err(AuthError::InvalidToken);
        }
        let plen = payload.len();
        if plen < 9 {
            assert(token_claims(key, t@) is None);
            return Err(AuthError::InvalidToken);
        }
        let bits = read_be_u64(payload.as_slice());
        let exp = bits as i64;
        let role = payload[8] as i8;
        let mut rest = payload.clone();
        let name = rest.split_off(9);
        assert(rest@ =~= payload@.subrange(0, 9));
        let account = match string_from_utf8(name) {
            Some(s) => s,
            None => {
                assert forall|c: ClaimsView| signed_token(key, c) != t@ by {
                    if signed_token(key, c) == t@ {
                        assert(payload@.subrange(9, plen as int) =~= encode_utf8(c.account));
                        encode_utf8_valid_utf8(c.account);
                    }
                }
                assert(token_claims(key, t@) is None);
                return Err(AuthError::InvalidToken);
            },
        };
        let claims = Claims { account, role, exp };
        proof {
            let p = payload@;
            lemma_from_be_round_trip(p.subrange(0, 8));
            assert(from_be(p.subrange(0, 8)) == from_be(p));
            assert((bits as i64) as u64 == bits) by (bit_vector);
            let b8 = p[8];
            assert((b8 as i8) as u8 == b8) by (bit_vector);
            assert(claims_bytes(claims@) =~= p);
            assert(t@ =~= head@ + seq![DOT] + tail@);
            assert(signed_token(key, claims@) =~= t@);
            lemma_token_claims_signed(key, claims@);
        }
        if now < exp {
            Ok(claims)
        } else {
            Err(AuthError::InvalidToken)
        }
    }

    /// Verifies a token at instant `now`: its claims when it is signed with this
    /// service's secret and has not expired, else `InvalidToken`.
    pub fn verify(&self, token: &str, now: i64) -> (r: Result<Claims, AuthError>)
        ensures
            claims_result_view(r) == verify_result(self.key(), encode_utf8(token@), now),
    {
        self.verify_bytes(token.as_bytes(), now)
    }
}

/// Whether two byte strings are equal, looking at every byte.
fn bytes_equal(a: &[u8], b: &[u8]) -> (r: bool)
    ensures
        r == (a@ == b@),
{
    if a.len() != b.len() {
        return false;
    }
    let mut diff: bool = false;
    let mut i: usize = 0;
    while i < a.len()
        invariant
            a@.len() == b@.len(),
            i <= a@.len(),
            diff == exists|j: int| 0 <= j < i && a@[j] != b@[j],
        decreases a@.len() - i,
    {
        if a[i] != b[i] {
            diff = true;
        }
        i = i + 1;
    }
    if !diff {
        assert(a@ =~= b@);
    }
    !diff
}

} // verus!
