use vstd::prelude::*;
use vstd::string::StrSliceExecFns;
use crate::errors::Error;
use crate::types::account::{AccountId, Session};
use crate::wire::{
    hex_seq_ok, hex_seq_value, hex_val, lemma_u64_hex_value, parse_u64_hex, push_u64_hex, u64_hex,
};

verus! {

/// How long an issued token stays valid, in seconds: a fixed day, not
/// configurable per call.
pub const TOKEN_LIFETIME_SECS: i64 = 86400;

/// The claims carried inside a token: the account it identifies and the
/// window in which it is valid.
#[derive(Debug, Clone, Copy, PartialEq, Eq, Structural)]
pub struct Claims {
    pub account_id: AccountId,
    pub nbf: i64,
    pub exp: i64,
}

/// The plaintext a token carries before encryption: the three claims, each
/// rendered as sixteen hexadecimal characters (the account identifier
/// widened through its unsigned form, the timestamps reinterpreted as
/// unsigned), in a fixed order.
pub open spec fn claims_payload(c: Claims) -> Seq<char> {
    u64_hex((c.account_id.0 as u32) as u64) + u64_hex(c.nbf as u64) + u64_hex(c.exp as u64)
}

/// The claims a payload decodes to, or nothing when the payload is not
/// exactly forty-eight hexadecimal characters or names an account value
/// outside the identifier's range.
pub open spec fn parse_claims_seq(p: Seq<char>) -> Option<Claims> {
    if p.len() == 48 && hex_seq_ok(p) {
        let a = hex_seq_value(p.subrange(0, 16));
        let n = hex_seq_value(p.subrange(16, 32));
        let e = hex_seq_value(p.subrange(32, 48));
        if a <= 0xffff_ffff {
            Some(
                Claims {
                    account_id: AccountId((a as u32) as i32),
                    nbf: (n as u64) as i64,
                    exp: (e as u64) as i64,
                },
            )
        } else {
            None
        }
    } else {
        None
    }
}

/// Renders the claims as the payload string that goes into the token.
pub fn encode_claims(c: &Claims) -> (r: String)
    ensures
        r@ == claims_payload(*c),
{
    let mut out = String::new();
    push_u64_hex(&mut out, ((c.account_id.0 as u32) as u64));
    push_u64_hex(&mut out, #[verifier::truncate] (c.nbf as u64));
    push_u64_hex(&mut out, #[verifier::truncate] (c.exp as u64));
    proof {
        assert(out@ =~= claims_payload(*c));
    }
    out
}

/// Reads claims back out of a payload string.
pub fn parse_claims(p: &str) -> (r: Option<Claims>)
    ensures
        r == parse_claims_seq(p@),
{
    let n = p.unicode_len();
    if n != 48 {
        return None;
    }
    let v0 = match parse_u64_hex(p, 0) {
        Some(v) => v,
        None => {
            proof {
                lemma_subrange_not_ok(p@, 0);
            }
            return None;
        },
    };
    let v1 = match parse_u64_hex(p, 16) {
        Some(v) => v,
        None => {
            proof {
                lemma_subrange_not_ok(p@, 16);
            }
            return None;
        },
    };
    let v2 = match parse_u64_hex(p, 32) {
        Some(v) => v,
        None => {
            proof {
                lemma_subrange_not_ok(p@, 32);
            }
            return None;
        },
    };
    if v0 > 0xffff_ffff {
        proof {
            lemma_whole_ok(p@);
        }
        return None;
    }
    proof {
        lemma_whole_ok(p@);
    }
    Some(
        Claims {
            account_id: AccountId(#[verifier::truncate] ((v0 as u32) as i32)),
            nbf: #[verifier::truncate] (v1 as i64),
            exp: #[verifier::truncate] (v2 as i64),
        },
    )
}

/// A payload of length forty-eight whose sixteen characters at `from` are
/// not all hexadecimal digits is not hexadecimal as a whole.
proof fn lemma_subrange_not_ok(p: Seq<char>, from: int)
    requires
        p.len() == 48,
        0 <= from,
        from + 16 <= 48,
        !hex_seq_ok(p.subrange(from, from + 16)),
    ensures
        !hex_seq_ok(p),
{
    if hex_seq_ok(p) {
        assert forall|i: int| 0 <= i < 16 implies #[trigger] hex_val(p.subrange(from, from + 16)[i])
            >= 0 by {
            assert(p.subrange(from, from + 16)[i] == p[from + i]);
        }
    }
}

/// A payload of length forty-eight whose three sixteen-character thirds are
/// all hexadecimal is hexadecimal as a whole.
proof fn lemma_whole_ok(p: Seq<char>)
    requires
        p.len() == 48,
        hex_seq_ok(p.subrange(0, 16)),
        hex_seq_ok(p.subrange(16, 32)),
        hex_seq_ok(p.subrange(32, 48)),
    ensures
        hex_seq_ok(p),
{
    assert forall|i: int| 0 <= i < 48 implies hex_val(p[i]) >= 0 by {
        if i < 16 {
            assert(p[i] == p.subrange(0, 16)[i]);
        } else if i < 32 {
            assert(p[i] == p.subrange(16, 32)[i - 16]);
        } else {
            assert(p[i] == p.subrange(32, 48)[i - 32]);
        }
    }
}

/// Rendering claims and reading them back yields the same claims: the
/// payload codec is its own inverse.
pub proof fn lemma_claims_roundtrip(c: Claims)
    ensures
        parse_claims_seq(claims_payload(c)) == Some(c),
{
    let p = claims_payload(c);
    let a: u64 = (c.account_id.0 as u32) as u64;
    let n: u64 = c.nbf as u64;
    let e: u64 = c.exp as u64;
    lemma_u64_hex_value(a);
    lemma_u64_hex_value(n);
    lemma_u64_hex_value(e);
    assert(p.subrange(0, 16) =~= u64_hex(a));
    assert(p.subrange(16, 32) =~= u64_hex(n));
    assert(p.subrange(32, 48) =~= u64_hex(e));
    lemma_whole_ok(p);
    let x = c.account_id.0;
    assert((((x as u32) as u64) as u32) as i32 == x) by (bit_vector);
    let nb = c.nbf;
    assert(((nb as u64) as i64) == nb) by (bit_vector);
    let ex = c.exp;
    assert(((ex as u64) as i64) == ex) by (bit_vector);
}

/// What a token decrypts to under a key, if anything: the result of
/// `paseto::v2::decrypt_paseto`, a deterministic function of token and key.
pub uninterp spec fn decrypt_of(token: Seq<char>, key: Seq<u8>) -> Option<Seq<char>>;

/// Whether a character belongs to the unpadded base64url alphabet the
/// envelope's body is written in.
pub open spec fn base64url_char(c: char) -> bool {
    ||| 'A' <= c <= 'Z'
    ||| 'a' <= c <= 'z'
    ||| '0' <= c <= '9'
    ||| c == '-'
    ||| c == '_'
}

/// Whether a token has the shape this library issues: the `v2.local.`
/// header, then at least thirty-two body characters, all from the unpadded
/// base64url alphabet — enough that a body that decodes at all decodes to
/// at least the envelope's nonce — and no footer separator or padding.
/// Anything else is rejected before decryption is attempted.
pub open spec fn wire_shaped(token: Seq<char>) -> bool {
    &&& token.len() >= 41
    &&& token[0] == 'v'
    &&& token[1] == '2'
    &&& token[2] == '.'
    &&& token[3] == 'l'
    &&& token[4] == 'o'
    &&& token[5] == 'c'
    &&& token[6] == 'a'
    &&& token[7] == 'l'
    &&& token[8] == '.'
    &&& forall|i: int| 9 <= i < token.len() ==> base64url_char(token[i])
}

/// What verification recovers from a token under a key: the decrypted
/// message of a well-shaped token, and nothing from any other.
pub open spec fn token_payload(token: Seq<char>, key: Seq<u8>) -> Option<Seq<char>> {
    if wire_shaped(token) {
        decrypt_of(token, key)
    } else {
        None
    }
}

/// Decides whether a character belongs to the unpadded base64url alphabet.
fn is_base64url_char(c: char) -> (r: bool)
    ensures
        r == base64url_char(c),
{
    ('A' <= c && c <= 'Z') || ('a' <= c && c <= 'z') || ('0' <= c && c <= '9') || c == '-' || c
        == '_'
}

/// Decides whether a token has the shape this library issues.
fn token_wire_shaped(token: &str) -> (r: bool)
    ensures
        r == wire_shaped(token@),
{
    let n = token.unicode_len();
    if n < 41 {
        return false;
    }
    if token.get_char(0) != 'v' {
        return false;
    }
    if token.get_char(1) != '2' {
        return false;
    }
    if token.get_char(2) != '.' {
        return false;
    }
    if token.get_char(3) != 'l' {
        return false;
    }
    if token.get_char(4) != 'o' {
        return false;
    }
    if token.get_char(5) != 'c' {
        return false;
    }
    if token.get_char(6) != 'a' {
        return false;
    }
    if token.get_char(7) != 'l' {
        return false;
    }
    if token.get_char(8) != '.' {
        return false;
    }
    let mut i: usize = 9;
    while i < n
        invariant
            n as nat == token@.len(),
            9 <= i <= n,
            forall|j: int| 9 <= j < i ==> base64url_char(token@[j]),
        decreases n - i,
    {
        if !is_base64url_char(token.get_char(i)) {
            return false;
        }
        i += 1;
    }
    true
}

/// Relies on `paseto::v2::local_paseto`: it wraps the message in a
/// `v2.local` authenticated-encryption envelope under the key, which
/// `paseto::v2::decrypt_paseto` reverses to the message under the same key.
/// The envelope is the header and a footerless body — the encoded nonce
/// and ciphertext, well over thirty-two characters, all from the unpadded
/// base64url alphabet — so the token it returns is well shaped. It needs a
/// thirty-two byte key; a failure to draw the envelope's random nonce is
/// reported as a transport-class failure.
#[verifier::external_body]
fn paseto_encrypt(message: &str, key: &[u8]) -> (r: Result<String, Error>)
    requires
        key@.len() == 32,
    ensures
        r matches Ok(t) ==> wire_shaped(t@) && decrypt_of(t@, key@) == Some(message@),
        r matches Err(e) ==> e is TransportError,
{
    match paseto::v2::local_paseto(message, None, key) {
        Ok(t) => Ok(t),
        Err(_) => Err(Error::TransportError),
    }
}

/// Relies on `paseto::v2::decrypt_paseto`: decryption either recovers the
/// message a `v2.local` token was built over or fails, deterministically in
/// token and key. It must only see well-shaped tokens: the function splits
/// the envelope's nonce off the decoded body without checking its length,
/// and its base64 decoder accepts `=` padding even in the no-padding
/// configuration, so only a body of at least thirty-two characters drawn
/// from the unpadded alphabet is sure to decode to enough bytes or to fail
/// cleanly.
#[verifier::external_body]
fn paseto_decrypt(token: &str, key: &[u8]) -> (r: Option<String>)
    requires
        key@.len() == 32,
        wire_shaped(token@),
    ensures
        r matches Some(p) ==> decrypt_of(token@, key@) == Some(p@),
        r is None ==> decrypt_of(token@, key@) is None,
{
    match paseto::v2::decrypt_paseto(token, None, key) {
        Ok(p) => Some(p),
        Err(_) => None,
    }
}

/// Relies on `chrono::Utc::now` for the current time in seconds since the
/// Unix epoch. Nothing can be promised of the clock's value, and the call
/// itself panics on a system clock set before the epoch — an environment
/// condition no precondition can exclude.
#[verifier::external_body]
fn current_time() -> (r: i64) {
    chrono::Utc::now().timestamp()
}

/// The claims a token issued for `account_id` at time `now` carries.
pub open spec fn issued_claims(account_id: AccountId, now: i64) -> Claims {
    Claims { account_id, nbf: now, exp: (now + TOKEN_LIFETIME_SECS) as i64 }
}

/// The session a token yields when verified at time `now`: the claims it
/// decrypts to, provided `now` lies inside their validity window.
pub open spec fn token_session(token: Seq<char>, key: Seq<u8>, now: i64) -> Option<Session> {
    match token_payload(token, key) {
        Some(p) => match parse_claims_seq(p) {
            Some(c) => if c.nbf <= now && now <= c.exp {
                Some(Session { exp: c.exp, account_id: c.account_id, nbf: c.nbf })
            } else {
                None
            },
            None => None,
        },
        None => None,
    }
}

/// Issues a token for `account_id` whose validity window starts at `now`
/// and closes a fixed lifetime later, encrypted under `key`. The taxonomy
/// has no kind for a failed issuance, so the one failure — the envelope's
/// nonce could not be drawn — is reported as the transport-class kind,
/// which renders as the same generic server-side failure.
pub fn issue_token_at(account_id: AccountId, key: &[u8], now: i64) -> (r: Result<String, Error>)
    requires
        key@.len() == 32,
        now + TOKEN_LIFETIME_SECS <= i64::MAX,
    ensures
        r matches Ok(t) ==> token_payload(t@, key@) == Some(
            claims_payload(issued_claims(account_id, now)),
        ),
        r matches Err(e) ==> e is TransportError,
{
    let claims = Claims { account_id, nbf: now, exp: now + TOKEN_LIFETIME_SECS };
    let payload = encode_claims(&claims);
    paseto_encrypt(payload.as_str(), key)
}

/// Issues a token for `account_id` starting now, by the process clock.
pub fn issue_token(account_id: AccountId, key: &[u8]) -> (r: Result<String, Error>)
    requires
        key@.len() == 32,
    ensures
        r matches Ok(t) ==> exists|now: i64|
            token_payload(t@, key@) == Some(claims_payload(issued_claims(account_id, now))),
        r matches Err(e) ==> e is TransportError,
{
    let now = current_time();
    let now = if now > i64::MAX - TOKEN_LIFETIME_SECS {
        i64::MAX - TOKEN_LIFETIME_SECS
    } else {
        now
    };
    let r = issue_token_at(account_id, key, now);
    proof {
        if r is Ok {
            assert(token_payload(r->Ok_0@, key@) == Some(
                claims_payload(issued_claims(account_id, now)),
            ));
        }
    }
    r
}

/// Verifies a token at time `now` under `key`. It yields the session the
/// token carries exactly when the token decrypts, its claims parse, and
/// `now` lies inside their window; every failure — forged, garbled, or out
/// of window — is the one undifferentiated decrypt-failure kind, so a
/// caller cannot tell the causes apart.
pub fn verify_token_at(token: &str, key: &[u8], now: i64) -> (r: Result<Session, Error>)
    requires
        key@.len() == 32,
    ensures
        r matches Ok(s) ==> token_session(token@, key@, now) == Some(s) && s.nbf <= now <= s.exp,
        r matches Err(e) ==> e is CannotDecryptToken && token_session(token@, key@, now) is None,
{
    if !token_wire_shaped(token) {
        return Err(Error::CannotDecryptToken);
    }
    let p = match paseto_decrypt(token, key) {
        Some(p) => p,
        None => {
            return Err(Error::CannotDecryptToken);
        },
    };
    let c = match parse_claims(p.as_str()) {
        Some(c) => c,
        None => {
            return Err(Error::CannotDecryptToken);
        },
    };
    if c.nbf <= now && now <= c.exp {
        Ok(Session { exp: c.exp, account_id: c.account_id, nbf: c.nbf })
    } else {
        Err(Error::CannotDecryptToken)
    }
}

/// Verifies a token against the process clock.
pub fn verify_token(token: &str, key: &[u8]) -> (r: Result<Session, Error>)
    requires
        key@.len() == 32,
    ensures
        r matches Ok(s) ==> exists|now: i64| token_session(token@, key@, now) == Some(s),
        r matches Err(e) ==> e is CannotDecryptToken,
{
    let now = current_time();
    verify_token_at(token, key, now)
}

/// A token issued for an account, verified at any time inside its validity
/// window — in particular immediately — yields the session it was issued
/// for: the same account, with a window that contains that time.
pub proof fn lemma_issue_then_verify(
    account_id: AccountId,
    issued_at: i64,
    at: i64,
    token: Seq<char>,
    key: Seq<u8>,
)
    requires
        issued_at + TOKEN_LIFETIME_SECS <= i64::MAX,
        token_payload(token, key) == Some(claims_payload(issued_claims(account_id, issued_at))),
        issued_at <= at <= issued_at + TOKEN_LIFETIME_SECS,
    ensures
        token_session(token, key, at) == Some(
            Session {
                exp: (issued_at + TOKEN_LIFETIME_SECS) as i64,
                account_id,
                nbf: issued_at,
            },
        ),
{
    lemma_claims_roundtrip(issued_claims(account_id, issued_at));
}

/// A token whose claims place `now` outside the validity window — expired,
/// or not yet valid — yields no session, so verification reports it with
/// the same undifferentiated failure kind as a token that does not decrypt
/// at all.
pub proof fn lemma_out_of_window_rejected(token: Seq<char>, key: Seq<u8>, now: i64, c: Claims)
    requires
        token_payload(token, key) matches Some(p) && parse_claims_seq(p) == Some(c),
        now > c.exp || now < c.nbf,
    ensures
        token_session(token, key, now) is None,
{
}

/// A tampered token fails exactly like an expired one. That a token with a
/// flipped byte yields no session is the authenticated cipher's own
/// guarantee, which no contract here can derive, and stands as the first
/// premise; an expired token yields no session by the claims it carries.
/// Both then fall under the same clause of verification's contract — the
/// one undifferentiated decrypt-failure kind — so the two causes cannot be
/// told apart by error shape.
pub proof fn lemma_tampered_fails_like_expired(
    tampered: Seq<char>,
    token: Seq<char>,
    key: Seq<u8>,
    now: i64,
    c: Claims,
)
    requires
        token_session(tampered, key, now) is None,
        token_payload(token, key) matches Some(p) && parse_claims_seq(p) == Some(c),
        now > c.exp,
    ensures
        token_session(token, key, now) is None,
        token_session(tampered, key, now) == token_session(token, key, now),
{
}

} // verus!
