use vstd::prelude::*;

use crate::errors::AppError;

verus! {

/// The claim set carried by an identity token: the subject (an account id)
/// and the issuance and expiry instants as unix timestamps in seconds.
#[derive(Debug)]
pub struct TokenClaims {
    pub sub: String,
    pub iat: u64,
    pub exp: u64,
}

/// The compact signed token that encoding produces for these claims under
/// this secret: a deterministic function of the claims and the secret alone.
pub uninterp spec fn jwt_of(sub: Seq<char>, iat: u64, exp: u64, secret: Seq<u8>) -> Seq<char>;

/// The (subject, issued-at, expiry) claim triple that HS256 decoding under
/// this secret yields for this token, expiry set aside: `None` when the
/// token is structurally malformed, its signature does not verify, or its
/// claims do not carry a textual subject and numeric instants.  A function
/// of the token text and the secret alone.
pub uninterp spec fn hs256_claims_of(token: Seq<char>, secret: Seq<u8>) -> Option<
    (Seq<char>, u64, u64),
>;

/// Whether `t` is accepted under `secret` at instant `now` with subject
/// `sub`: its HS256 signature checks out, its subject claim is `sub`, and
/// its expiry lies strictly after `now`.
pub open spec fn token_valid_at(t: Seq<char>, secret: Seq<u8>, sub: Seq<char>, now: u64) -> bool {
    match hs256_claims_of(t, secret) {
        Option::Some(c) => c.0 == sub && now < c.2,
        Option::None => false,
    }
}

/// A token that is the encoding of these claims under `secret` and whose
/// expiry instant lies strictly after `now`.
pub open spec fn token_accepted(
    t: Seq<char>,
    sub: Seq<char>,
    iat: u64,
    exp: u64,
    secret: Seq<u8>,
    now: u64,
) -> bool {
    t == jwt_of(sub, iat, exp, secret) && now < exp
}

#[verifier::external_type_specification]
#[verifier::external_body]
pub struct ExJwtError(jsonwebtoken::errors::Error);

/// Relies on jsonwebtoken::encode with the default header, whose algorithm
/// is HS256: the returned token is a deterministic function of the claim
/// values and the secret alone.  Under the crate's HMAC provider a secret
/// key of any length is accepted and signing cannot fail, so encoding
/// always succeeds.
#[verifier::external_body]
fn encode_claims(sub: &str, iat: u64, exp: u64, secret: &[u8]) -> (r: Result<String, jsonwebtoken::errors::Error>)
    ensures
        r is Ok,
        r matches Ok(t) ==> t@ == jwt_of(sub@, iat, exp, secret@),
{
    let mut claims = serde_json::Map::new();
    claims.insert("sub".to_string(), serde_json::Value::from(sub));
    claims.insert("iat".to_string(), serde_json::Value::from(iat));
    claims.insert("exp".to_string(), serde_json::Value::from(exp));
    jsonwebtoken::encode(
        &jsonwebtoken::Header::default(),
        &serde_json::Value::Object(claims),
        &jsonwebtoken::EncodingKey::from_secret(secret),
    )
}

/// Relies on jsonwebtoken::decode with HS256 signature checking and with
/// expiry checking disabled, since the caller checks expiry itself: the
/// outcome, claim reading included, is exactly the triple named by
/// `hs256_claims_of`, and a token that encoding produced for given claims
/// under this secret decodes to exactly those claims.
#[verifier::external_body]
fn decode_claims(token: &str, secret: &[u8]) -> (r: Result<TokenClaims, jsonwebtoken::errors::Error>)
    ensures
        r matches Ok(c) ==> hs256_claims_of(token@, secret@) == Option::Some(
            (c.sub@, c.iat, c.exp),
        ),
        r is Err ==> hs256_claims_of(token@, secret@) is None,
        r matches Ok(c) ==> forall|s: Seq<char>, i: u64, e: u64|
            token@ == #[trigger] jwt_of(s, i, e, secret@) ==> c.sub@ == s && c.iat == i && c.exp
                == e,
        r is Err ==> forall|s: Seq<char>, i: u64, e: u64|
            token@ != #[trigger] jwt_of(s, i, e, secret@),
{
    let mut validation = jsonwebtoken::Validation::new(jsonwebtoken::Algorithm::HS256);
    validation.validate_exp = false;
    let key = jsonwebtoken::DecodingKey::from_secret(secret);
    let data = jsonwebtoken::decode::<serde_json::Value>(token, &key, &validation)?;
    let sub = data.claims.get("sub").and_then(|v| v.as_str());
    let iat = data.claims.get("iat").and_then(|v| v.as_u64());
    let exp = data.claims.get("exp").and_then(|v| v.as_u64());
    match (sub, iat, exp) {
        (Some(s), Some(i), Some(e)) => Ok(TokenClaims { sub: s.to_string(), iat: i, exp: e }),
        _ => Err(jsonwebtoken::errors::ErrorKind::InvalidToken.into()),
    }
}

/// Issues a signed identity token for `user_id`, valid from `now` for
/// `ttl_minutes` minutes.  An empty subject is rejected as a validation
/// error; every nonempty subject is issued a token.
pub fn create_token(user_id: &str, ttl_minutes: u64, now: u64, secret: &[u8]) -> (r: Result<
    String,
    AppError,
>)
    requires
        now + ttl_minutes * 60 <= u64::MAX,
    ensures
        user_id@.len() == 0 <==> r matches Err(AppError::ValidationError),
        r is Ok <==> user_id@.len() > 0,
        r matches Ok(t) ==> t@ == jwt_of(
            user_id@,
            now,
            (now + ttl_minutes * 60) as u64,
            secret@,
        ),
{
    if user_id.is_empty() {
        return Err(AppError::ValidationError);
    }
    let exp = now + ttl_minutes * 60;
    match encode_claims(user_id, now, exp, secret) {
        Ok(t) => Ok(t),
        Err(e) => {
            proof {
                assert(false);
            }
            Err(AppError::InternalError)
        },
    }
}

/// Verifies a token against the process secret at instant `now` and returns
/// its subject.  A token this service issued is accepted exactly while its
/// expiry lies in the future; a subject comes back only for a token whose
/// HS256 signature checks out under the secret and whose expiry lies in the
/// future.  A signature mismatch, malformed structure or expiry all
/// collapse deliberately into the one `Unauthorized` outcome, so a caller
/// cannot distinguish a forged token from an expired one.
pub fn decode_token(token: &str, now: u64, secret: &[u8]) -> (r: Result<String, AppError>)
    ensures
        forall|s: Seq<char>, i: u64, e: u64|
            token@ == #[trigger] jwt_of(s, i, e, secret@) && now < e ==> (r matches Ok(u) && u@
                == s),
        forall|s: Seq<char>, i: u64, e: u64|
            token@ == #[trigger] jwt_of(s, i, e, secret@) && e <= now ==> r matches Err(
                AppError::Unauthorized,
            ),
        hs256_claims_of(token@, secret@) is None ==> r matches Err(AppError::Unauthorized),
        (match hs256_claims_of(token@, secret@) {
            Option::Some(c) => c.2 <= now,
            Option::None => false,
        }) ==> r matches Err(AppError::Unauthorized),
        (match hs256_claims_of(token@, secret@) {
            Option::Some(c) => now < c.2,
            Option::None => false,
        }) ==> r is Ok,
        r matches Ok(u) ==> token_valid_at(token@, secret@, u@, now),
        r is Err ==> r matches Err(AppError::Unauthorized),
{
    match decode_claims(token, secret) {
        Ok(c) => {
            if c.exp > now {
                proof {
                    assert(hs256_claims_of(token@, secret@) == Option::Some(
                        (c.sub@, c.iat, c.exp),
                    ));
                }
                Ok(c.sub)
            } else {
                Err(AppError::Unauthorized)
            }
        },
        Err(_) => Err(AppError::Unauthorized),
    }
}

/// Freshness law: a token issued for a nonempty subject with a positive ttl
/// is accepted at its issuance instant and carries exactly that subject.
/// With the contract of `decode_token`, verifying a token immediately after
/// `create_token` produced it returns the subject it was issued for.
pub proof fn lemma_fresh_token_accepted(sub: Seq<char>, now: u64, ttl_minutes: u64, secret: Seq<u8>)
    requires
        sub.len() > 0,
        ttl_minutes > 0,
        now + ttl_minutes * 60 <= u64::MAX,
    ensures
        token_accepted(
            jwt_of(sub, now, (now + ttl_minutes * 60) as u64, secret),
            sub,
            now,
            (now + ttl_minutes * 60) as u64,
            secret,
            now,
        ),
{
}

/// Expiry law: once the clock reaches a token's expiry instant, the token is
/// no longer accepted; by the contract of `decode_token`, verification of it
/// then fails with `Unauthorized`.
pub proof fn lemma_expired_token_rejected(
    sub: Seq<char>,
    iat: u64,
    exp: u64,
    secret: Seq<u8>,
    now: u64,
)
    requires
        exp <= now,
    ensures
        !token_accepted(jwt_of(sub, iat, exp, secret), sub, iat, exp, secret, now),
{
}

} // verus!
