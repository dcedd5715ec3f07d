use vstd::prelude::*;

use crate::configuration::{Claims, Configuration};

verus! {

/// Why the authentication gate turned a request away: the header was
/// absent, or the credential it carried did not check out (a decode,
/// signature or expiry failure — which one is not revealed).
#[derive(Debug, Clone, Copy, PartialEq, Eq, Structural)]
pub enum AuthError {
    AuthMissing,
    AuthInvalid,
}

/// Why issuing a credential failed.
#[derive(Debug, Clone, Copy, PartialEq, Eq, Structural)]
pub enum IssueError {
    EncodeJwt,
}

/// jsonwebtoken's error type, carried through unread.
#[verifier::external_type_specification]
#[verifier::external_body]
pub struct ExJwtError(jsonwebtoken::errors::Error);

/// The signed token that jsonwebtoken::encode produces for these claims
/// under this secret with the default (HS256) header.
pub uninterp spec fn jwt_of(
    sub: Seq<char>,
    iss: Seq<char>,
    iat: i64,
    exp: i64,
    secret: Seq<char>,
) -> Seq<char>;

/// The SHA-256 digest of the given bytes.
pub uninterp spec fn sha256_of(data: Seq<u8>) -> Seq<u8>;

/// Relies on rand::random: 32 bytes drawn from the thread-local generator;
/// nothing is promised of their values.
#[verifier::external_body]
fn random_bytes_32() -> (r: Vec<u8>)
    ensures
        r@.len() == 32,
{
    rand::random::<[u8; 32]>().to_vec()
}

/// Relies on ring::digest::digest with SHA-256: the digest is a function
/// of the input bytes alone, and is 32 bytes long.
#[verifier::external_body]
fn sha256(data: &[u8]) -> (r: Vec<u8>)
    ensures
        r@ == sha256_of(data@),
        r@.len() == 32,
{
    ring::digest::digest(&ring::digest::SHA256, data).as_ref().to_vec()
}

/// Relies on chrono::Utc::now: the current time in seconds since the
/// epoch; nothing is promised of its value.
#[verifier::external_body]
fn now_timestamp() -> i64 {
    chrono::Utc::now().timestamp()
}

/// Relies on jsonwebtoken::encode with the default (HS256) header: the
/// token is a function of the claims and the secret alone. Success is
/// promised because every error path is unreachable here: the key family
/// matches the header's, an HMAC key accepts any secret length, HMAC
/// signing is infallible, and this payload always serializes.
#[verifier::external_body]
fn jwt_encode(claims: &Claims, secret: &str) -> (r: Result<String, jsonwebtoken::errors::Error>)
    ensures
        r is Ok,
        r matches Ok(s) ==> s@ == jwt_of(claims.sub@, claims.iss@, claims.iat, claims.exp, secret@),
{
    let mut payload = serde_json::Map::new();
    payload.insert("sub".to_string(), serde_json::Value::String(claims.sub.clone()));
    payload.insert("iss".to_string(), serde_json::Value::String(claims.iss.clone()));
    payload.insert("iat".to_string(), serde_json::Value::from(claims.iat));
    payload.insert("exp".to_string(), serde_json::Value::from(claims.exp));
    jsonwebtoken::encode(
        &jsonwebtoken::Header::default(),
        &serde_json::Value::Object(payload),
        &jsonwebtoken::EncodingKey::from_secret(secret.as_ref()),
    )
}

/// Relies on jsonwebtoken::decode with the default validation (HS256
/// signature over the secret, expiry required and checked against the
/// clock): whether a token is accepted depends on the current time, so
/// nothing is promised of the outcome.
#[verifier::external_body]
fn jwt_decode_ok(token: &str, secret: &str) -> bool {
    jsonwebtoken::decode::<serde_json::Value>(
        token,
        &jsonwebtoken::DecodingKey::from_secret(secret.as_ref()),
        &jsonwebtoken::Validation::default(),
    ).is_ok()
}

/// The hexadecimal digit for a value below sixteen.
pub open spec fn spec_hex_digit(n: u8) -> char
    recommends
        n < 16,
{
    if n == 0 {
        '0'
    } else if n == 1 {
        '1'
    } else if n == 2 {
        '2'
    } else if n == 3 {
        '3'
    } else if n == 4 {
        '4'
    } else if n == 5 {
        '5'
    } else if n == 6 {
        '6'
    } else if n == 7 {
        '7'
    } else if n == 8 {
        '8'
    } else if n == 9 {
        '9'
    } else if n == 10 {
        'a'
    } else if n == 11 {
        'b'
    } else if n == 12 {
        'c'
    } else if n == 13 {
        'd'
    } else if n == 14 {
        'e'
    } else {
        'f'
    }
}

/// The lowercase hexadecimal rendering of a byte sequence, two digits per
/// byte, high nibble first.
pub open spec fn spec_hex_of(bytes: Seq<u8>) -> Seq<char>
    decreases bytes.len(),
{
    if bytes.len() == 0 {
        Seq::empty()
    } else {
        spec_hex_of(bytes.drop_last()) + seq![
            spec_hex_digit(bytes.last() / 16),
            spec_hex_digit(bytes.last() % 16),
        ]
    }
}

/// The hexadecimal rendering is twice as long as its input.
pub proof fn lemma_hex_len(bytes: Seq<u8>)
    ensures
        spec_hex_of(bytes).len() == 2 * bytes.len(),
    decreases bytes.len(),
{
    if bytes.len() > 0 {
        lemma_hex_len(bytes.drop_last());
    }
}

fn hex_digit_str(n: u8) -> (s: &'static str)
    requires
        n < 16,
    ensures
        s@ == seq![spec_hex_digit(n)],
{
    let s: &'static str = if n == 0 {
        "0"
    } else if n == 1 {
        "1"
    } else if n == 2 {
        "2"
    } else if n == 3 {
        "3"
    } else if n == 4 {
        "4"
    } else if n == 5 {
        "5"
    } else if n == 6 {
        "6"
    } else if n == 7 {
        "7"
    } else if n == 8 {
        "8"
    } else if n == 9 {
        "9"
    } else if n == 10 {
        "a"
    } else if n == 11 {
        "b"
    } else if n == 12 {
        "c"
    } else if n == 13 {
        "d"
    } else if n == 14 {
        "e"
    } else {
        "f"
    };
    proof {
        reveal_strlit("0");
        reveal_strlit("1");
        reveal_strlit("2");
        reveal_strlit("3");
        reveal_strlit("4");
        reveal_strlit("5");
        reveal_strlit("6");
        reveal_strlit("7");
        reveal_strlit("8");
        reveal_strlit("9");
        reveal_strlit("a");
        reveal_strlit("b");
        reveal_strlit("c");
        reveal_strlit("d");
        reveal_strlit("e");
        reveal_strlit("f");
        assert(s@ =~= seq![spec_hex_digit(n)]);
    }
    s
}

/// Renders bytes as lowercase hexadecimal, two digits per byte.
pub fn hex_encode(bytes: &Vec<u8>) -> (r: String)
    ensures
        r@ == spec_hex_of(bytes@),
{
    let mut r = String::new();
    let mut i: usize = 0;
    while i < bytes.len()
        invariant
            i <= bytes.len(),
            r@ == spec_hex_of(bytes@.take(i as int)),
        decreases bytes.len() - i,
    {
        let b = bytes[i];
        r.append(hex_digit_str(b / 16));
        r.append(hex_digit_str(b % 16));
        proof {
            assert(bytes@.take(i + 1 as int).drop_last() =~= bytes@.take(i as int));
            assert(bytes@.take(i + 1 as int).last() == bytes@[i as int]);
            assert(r@ =~= spec_hex_of(bytes@.take(i + 1 as int)));
        }
        i += 1;
    }
    proof {
        assert(bytes@.take(bytes.len() as int) =~= bytes@);
    }
    r
}

/// A fresh secret: the hex rendering of the SHA-256 digest of 32 random
/// bytes — 64 hexadecimal characters.
pub fn generate_secret_key() -> (r: String)
    ensures
        r@.len() == 64,
        exists|b: Seq<u8>| b.len() == 32 && r@ == spec_hex_of(#[trigger] sha256_of(b)),
{
    let seed = random_bytes_32();
    let digest = sha256(seed.as_slice());
    let r = hex_encode(&digest);
    proof {
        lemma_hex_len(sha256_of(seed@));
        assert(seed@.len() == 32 && r@ == spec_hex_of(sha256_of(seed@)));
    }
    r
}

/// Seconds in the three years a root credential lives by default.
pub const THREE_YEARS_SECONDS: i64 = 52 * 3 * 7 * 86400;

/// The expiry a credential gets: the requested timestamp, or three years
/// from now, clamped at the largest representable timestamp.
pub open spec fn spec_expiry(now: i64, expiration: Option<i64>) -> i64 {
    match expiration {
        Some(e) => e,
        None => if now + THREE_YEARS_SECONDS > i64::MAX {
            i64::MAX
        } else {
            (now + THREE_YEARS_SECONDS) as i64
        },
    }
}

/// Builds the claims a credential carries: subject "user", issuer
/// "issuer", issued at the given time, expiring as requested or three
/// years later.
pub fn make_claims(now: i64, expiration: Option<i64>) -> (c: Claims)
    ensures
        c.sub@ == "user"@,
        c.iss@ == "issuer"@,
        c.iat == now,
        c.exp == spec_expiry(now, expiration),
        expiration is None && now <= i64::MAX - THREE_YEARS_SECONDS ==> c.exp > c.iat,
{
    let exp: i64 = match expiration {
        Some(e) => e,
        None => if now > i64::MAX - THREE_YEARS_SECONDS {
            i64::MAX
        } else {
            now + THREE_YEARS_SECONDS
        },
    };
    Claims { sub: String::from_str("user"), iss: String::from_str("issuer"), iat: now, exp }
}

/// Mints a credential signed with the secret: claims built by
/// `make_claims` for the current time, encoded and signed. It always
/// succeeds, and the credential is the signed token of exactly those
/// claims.
pub fn issue_jwt(secret_key: &str, expiration: Option<i64>) -> (r: Result<String, IssueError>)
    ensures
        r is Ok,
        r matches Ok(s) ==> exists|iat: i64|
            s@ == jwt_of("user"@, "issuer"@, iat, spec_expiry(iat, expiration), secret_key@),
{
    let now = now_timestamp();
    let claims = make_claims(now, expiration);
    match jwt_encode(&claims, secret_key) {
        Ok(s) => {
            proof {
                assert(s@ == jwt_of(
                    "user"@,
                    "issuer"@,
                    now,
                    spec_expiry(now, expiration),
                    secret_key@,
                ));
            }
            Ok(s)
        },
        Err(_) => Err(IssueError::EncodeJwt),
    }
}

/// A header value with every leading "Bearer " prefix taken off.
pub open spec fn spec_strip_bearer(s: Seq<char>) -> Seq<char>
    decreases s.len(),
{
    if s.len() >= 7 && s.subrange(0, 7) == "Bearer "@ {
        spec_strip_bearer(s.skip(7))
    } else {
        s
    }
}

/// A header may carry the credential either as "Bearer <credential>" or
/// raw: prefixing a value with "Bearer " never changes what is left once
/// the prefixes are taken off.
pub proof fn lemma_bearer_prefix_ignored(t: Seq<char>)
    ensures
        spec_strip_bearer("Bearer "@ + t) == spec_strip_bearer(t),
{
    reveal_strlit("Bearer ");
    let s = "Bearer "@ + t;
    assert(s.subrange(0, 7) =~= "Bearer "@);
    assert(s.skip(7) =~= t);
}

fn str_eq(a: &str, b: &str) -> (r: bool)
    ensures
        r == (a@ == b@),
{
    String::from_str(a) == String::from_str(b)
}

/// Takes every leading "Bearer " prefix off a header value, leaving the
/// raw credential.
pub fn bearer_stripped<'a>(h: &'a str) -> (r: &'a str)
    ensures
        r@ == spec_strip_bearer(h@),
{
    let mut s: &str = h;
    loop
        invariant
            spec_strip_bearer(h@) == spec_strip_bearer(s@),
        ensures
            spec_strip_bearer(s@) == s@,
        decreases s@.len(),
    {
        let n = s.unicode_len();
        if n < 7 {
            break;
        }
        let prefix = s.substring_char(0, 7);
        if !str_eq(prefix, "Bearer ") {
            break;
        }
        let rest = s.substring_char(7, n);
        proof {
            assert(rest@ =~= s@.skip(7));
        }
        s = rest;
    }
    s
}

/// Maps the outcome of examining a credential to what the caller is
/// told: an accepted credential passes, a rejected one reads as invalid.
pub fn auth_decision(credential_ok: bool) -> (r: Result<(), AuthError>)
    ensures
        credential_ok ==> r is Ok,
        !credential_ok ==> r == Err::<(), AuthError>(AuthError::AuthInvalid),
{
    if credential_ok {
        Ok(())
    } else {
        Err(AuthError::AuthInvalid)
    }
}

/// The authentication gate. With authentication disabled every request
/// passes, whatever the header holds. With it enabled, a missing header is
/// turned away as `AuthMissing`; a present header has any "Bearer " prefix
/// stripped and the rest checked as a credential against the configured
/// secret, passing when the check accepts and turned away as
/// `AuthInvalid` otherwise.
pub fn verify_auth(auth_header: Option<String>, config: &Configuration) -> (r: Result<
    (),
    AuthError,
>)
    ensures
        !config.authentication.enabled ==> r is Ok,
        config.authentication.enabled && auth_header is None ==> r == Err::<(), AuthError>(
            AuthError::AuthMissing,
        ),
        config.authentication.enabled && auth_header is Some ==> (r is Ok || r == Err::<
            (),
            AuthError,
        >(AuthError::AuthInvalid)),
{
    if config.authentication.enabled {
        match auth_header {
            Some(h) => {
                let token = bearer_stripped(h.as_str());
                let ok = jwt_decode_ok(token, config.authentication.secret_key.as_str());
                auth_decision(ok)
            },
            None => Err(AuthError::AuthMissing),
        }
    } else {
        Ok(())
    }
}

} // verus!
