//! Authentication: signed, time-bounded credentials for a single operator.
//!
//! A credential names its subject and the instant at which it expires, and is
//! signed with the process-wide secret. Nothing is kept between requests: each
//! request presents its credential and has it validated anew. The clock is
//! the caller's: every function takes the current time as seconds since the
//! epoch.

use vstd::prelude::*;
use vstd::string::StrSliceExecFns;
use crate::error::{spec_unauthorized, ApiError, Misconfiguration};
use crate::text::{same_text, strip_prefix};

verus! {

/// The name of the single operator.
pub const OPERATOR_NAME: &'static str = "admin";

/// The password of the single operator.
pub const OPERATOR_PASSWORD: &'static str = "password";

/// How long a credential stays valid, in seconds: 24 hours.
pub const TOKEN_LIFETIME_SECS: u64 = 86400;

/// What precedes the credential in an authorization header.
pub const BEARER_PREFIX: &'static str = "Bearer ";

/// The description of a refused login.
pub const INVALID_CREDENTIALS: &'static str = "Invalid credentials";

/// The description given where a request carries no authorization header.
pub const NO_HEADER: &'static str = "No authorization header";

/// The description given where the header does not use the bearer scheme.
pub const INVALID_HEADER: &'static str = "Invalid authorization header";

/// The description given where the credential itself is refused.
pub const INVALID_TOKEN: &'static str = "Invalid token";

/// The secret that credentials are signed with.
pub struct SigningSecret {
    pub key: Vec<u8>,
}

impl View for SigningSecret {
    type V = Seq<u8>;

    open spec fn view(&self) -> Seq<u8> {
        self.key@
    }
}

impl SigningSecret {
    /// The secret that the configuration supplies. Its absence is a fatal
    /// misconfiguration; an empty secret is accepted as it stands.
    pub fn from_config(configured: Option<String>) -> (r: Result<SigningSecret, Misconfiguration>)
        ensures
            match r {
                Ok(secret) => configured matches Some(text) && secret@ == vstd::utf8::encode_utf8(
                    text@,
                ),
                Err(e) => configured is None && e == Misconfiguration::MissingSecret,
            },
    {
        match configured {
            Some(text) => Ok(SigningSecret { key: text.as_str().as_bytes_vec() }),
            None => Err(Misconfiguration::MissingSecret),
        }
    }
}

/// What a credential states.
#[derive(Clone, Debug)]
pub struct Claims {
    /// The authenticated user.
    pub sub: String,
    /// The instant from which the credential is no longer valid.
    pub exp: u64,
}

/// What a credential states, as plain values.
pub struct ClaimsView {
    pub sub: Seq<char>,
    pub exp: u64,
}

impl View for Claims {
    type V = ClaimsView;

    open spec fn view(&self) -> ClaimsView {
        ClaimsView { sub: self.sub@, exp: self.exp }
    }
}

/// The subject and expiry found in a credential whose signature was verified,
/// each absent where the credential does not hold one of the expected type.
pub struct DecodedClaims {
    pub subject: Option<String>,
    pub expires_at: Option<u64>,
}

impl View for DecodedClaims {
    type V = (Option<Seq<char>>, Option<u64>);

    open spec fn view(&self) -> (Option<Seq<char>>, Option<u64>) {
        (
            match self.subject {
                Some(s) => Some(s@),
                None => None,
            },
            self.expires_at,
        )
    }
}

/// `jsonwebtoken::errors::Error`, carried through and never looked into.
#[verifier::external_type_specification]
#[verifier::external_body]
pub struct ExTokenError(jsonwebtoken::errors::Error);

/// What `jsonwebtoken::encode` gives for a subject and an expiry under a
/// secret: the credential, or `None` where it fails.
pub uninterp spec fn signed_token(subject: Seq<char>, expires_at: u64, secret: Seq<u8>) -> Option<
    Seq<char>,
>;

/// What `jsonwebtoken::decode` gives for a token under a secret, with expiry
/// left unchecked: the subject and expiry that the token holds, each absent
/// where the member is missing or of another type, or `None` where it fails.
pub uninterp spec fn verified_claims(token: Seq<char>, secret: Seq<u8>) -> Option<
    (Option<Seq<char>>, Option<u64>),
>;

/// The credential in the outcome of signing, if it succeeded.
pub open spec fn spec_token_of(signed: Result<String, jsonwebtoken::errors::Error>) -> Option<
    Seq<char>,
> {
    match signed {
        Ok(token) => Some(token@),
        Err(_) => None,
    }
}

/// The claims in the outcome of reading a token, if it succeeded.
pub open spec fn spec_claims_of(decoded: Result<DecodedClaims, jsonwebtoken::errors::Error>)
    -> Option<(Option<Seq<char>>, Option<u64>)> {
    match decoded {
        Ok(claims) => Some(claims@),
        Err(_) => None,
    }
}

/// `jsonwebtoken::encode` with the default header (HS256) on the claims
/// object `{"sub": subject, "exp": expires_at}` and the secret as HMAC key.
/// Believed: the outcome is a function of the three arguments alone.
#[verifier::external_body]
fn sign_claims(subject: &str, expires_at: u64, secret: &[u8]) -> (signed: Result<
    String,
    jsonwebtoken::errors::Error,
>)
    ensures
        spec_token_of(signed) == signed_token(subject@, expires_at, secret@),
{
    let mut claims = serde_json::Map::new();
    claims.insert("sub".to_owned(), serde_json::Value::from(subject));
    claims.insert("exp".to_owned(), serde_json::Value::from(expires_at));
    let key = jsonwebtoken::EncodingKey::from_secret(secret);
    jsonwebtoken::encode(&jsonwebtoken::Header::default(), &claims, &key)
}

/// `jsonwebtoken::decode` for HS256 with the secret as HMAC key and expiry
/// validation switched off, so that the clock plays no part; the members
/// `sub` (a string) and `exp` (an unsigned integer) are picked from the
/// decoded object with `serde_json::Value::get`, `as_str` and `as_u64`.
/// Believed: the outcome is a function of token and secret alone, and a token
/// that `jsonwebtoken::encode` made under the same secret decodes to the
/// subject and expiry it was made for.
#[verifier::external_body]
fn read_claims(token: &str, secret: &[u8]) -> (decoded: Result<
    DecodedClaims,
    jsonwebtoken::errors::Error,
>)
    ensures
        spec_claims_of(decoded) == verified_claims(token@, secret@),
        (forall|subject: Seq<char>, expires_at: u64|
            #[trigger] signed_token(subject, expires_at, secret@) == Some(token@)
                ==> spec_claims_of(decoded) == Some((Some(subject), Some(expires_at)))),
{
    let mut validation = jsonwebtoken::Validation::new(jsonwebtoken::Algorithm::HS256);
    validation.validate_exp = false;
    let key = jsonwebtoken::DecodingKey::from_secret(secret);
    let data = jsonwebtoken::decode::<serde_json::Value>(token, &key, &validation)?;
    Ok(
        DecodedClaims {
            subject: data.claims.get("sub").and_then(serde_json::Value::as_str).map(str::to_owned),
            expires_at: data.claims.get("exp").and_then(serde_json::Value::as_u64),
        },
    )
}

/// Why a login did not yield a credential.
#[derive(Clone, Debug)]
pub enum IssueError {
    /// The submitted pair is not the operator's.
    Unauthorized(ApiError),
    /// The secret could not be used to sign.
    Misconfigured(Misconfiguration),
}

/// Whether a submitted pair is the operator's.
pub open spec fn spec_is_operator(username: Seq<char>, password: Seq<char>) -> bool {
    username == OPERATOR_NAME@ && password == OPERATOR_PASSWORD@
}

/// Whether a submitted pair is the operator's.
pub fn is_operator(username: &str, password: &str) -> (yes: bool)
    ensures
        yes == spec_is_operator(username@, password@),
{
    same_text(username, OPERATOR_NAME) && same_text(password, OPERATOR_PASSWORD)
}

/// The instant at which a credential issued at `now` expires.
pub open spec fn spec_expiry(now: u64) -> int {
    now + TOKEN_LIFETIME_SECS
}

/// Issues a credential to the operator: subject the submitted name, expiry
/// 24 hours after `now`. Any other pair is refused as unauthorized.
pub fn issue(username: &str, password: &str, secret: &SigningSecret, now: u64) -> (r: Result<
    String,
    IssueError,
>)
    requires
        spec_expiry(now) <= u64::MAX,
    ensures
        match r {
            Ok(token) => spec_is_operator(username@, password@) && signed_token(
                username@,
                spec_expiry(now) as u64,
                secret@,
            ) == Some(token@),
            Err(IssueError::Unauthorized(e)) => !spec_is_operator(username@, password@) && e@
                == spec_unauthorized(INVALID_CREDENTIALS@),
            Err(IssueError::Misconfigured(m)) => spec_is_operator(username@, password@)
                && signed_token(username@, spec_expiry(now) as u64, secret@) is None && m
                == Misconfiguration::UnusableSecret,
        },
{
    if !is_operator(username, password) {
        return Err(IssueError::Unauthorized(ApiError::unauthorized(INVALID_CREDENTIALS)));
    }
    let expires_at: u64 = now + TOKEN_LIFETIME_SECS;
    match sign_claims(username, expires_at, secret.key.as_slice()) {
        Ok(token) => Ok(token),
        Err(_) => Err(IssueError::Misconfigured(Misconfiguration::UnusableSecret)),
    }
}

/// The message that goes with a new credential.
pub const LOGIN_MESSAGE: &'static str = "Login successful";

/// The response to a login that succeeded.
#[derive(Clone, Debug)]
pub struct LoginResponse {
    pub token: String,
    pub message: String,
}

/// Answers a login: the operator gets a new credential, valid for 24 hours
/// from `now`; any other pair is refused as unauthorized.
pub fn login(username: &str, password: &str, secret: &SigningSecret, now: u64) -> (r: Result<
    LoginResponse,
    IssueError,
>)
    requires
        spec_expiry(now) <= u64::MAX,
    ensures
        match r {
            Ok(response) => spec_is_operator(username@, password@) && signed_token(
                username@,
                spec_expiry(now) as u64,
                secret@,
            ) == Some(response.token@) && response.message@ == LOGIN_MESSAGE@,
            Err(IssueError::Unauthorized(e)) => !spec_is_operator(username@, password@) && e@
                == spec_unauthorized(INVALID_CREDENTIALS@),
            Err(IssueError::Misconfigured(m)) => spec_is_operator(username@, password@)
                && signed_token(username@, spec_expiry(now) as u64, secret@) is None && m
                == Misconfiguration::UnusableSecret,
        },
{
    match issue(username, password, secret, now) {
        Ok(token) => Ok(LoginResponse { token, message: LOGIN_MESSAGE.to_owned() }),
        Err(e) => Err(e),
    }
}

/// Why a presented credential is refused. All three are rendered as the same
/// unauthorized outcome; they differ in the description only.
#[derive(Clone, Copy, Debug, PartialEq, Eq, Structural)]
pub enum Refusal {
    /// The request carries no authorization header.
    MissingHeader,
    /// The header does not begin with the bearer scheme.
    WrongScheme,
    /// The credential is empty, malformed, forged, incomplete or expired.
    InvalidToken,
}

/// The description that a refusal is rendered with.
pub open spec fn spec_refusal_message(why: Refusal) -> Seq<char> {
    match why {
        Refusal::MissingHeader => NO_HEADER@,
        Refusal::WrongScheme => INVALID_HEADER@,
        Refusal::InvalidToken => INVALID_TOKEN@,
    }
}

/// The error that a refusal is rendered as.
pub fn refuse(why: Refusal) -> (e: ApiError)
    ensures
        e@ == spec_unauthorized(spec_refusal_message(why)),
        e.wf(),
{
    match why {
        Refusal::MissingHeader => ApiError::unauthorized(NO_HEADER),
        Refusal::WrongScheme => ApiError::unauthorized(INVALID_HEADER),
        Refusal::InvalidToken => ApiError::unauthorized(INVALID_TOKEN),
    }
}

/// The text of an optional header.
pub open spec fn spec_header(header: Option<&str>) -> Option<Seq<char>> {
    match header {
        Some(text) => Some(text@),
        None => None,
    }
}

/// The credential that an authorization header presents: what follows the
/// bearer scheme, where the header is there, begins with the scheme and
/// something follows it.
pub open spec fn spec_bearer_token(header: Option<Seq<char>>) -> Result<Seq<char>, Refusal> {
    match header {
        None => Err(Refusal::MissingHeader),
        Some(text) => if !BEARER_PREFIX@.is_prefix_of(text) {
            Err(Refusal::WrongScheme)
        } else if text.len() == BEARER_PREFIX@.len() {
            Err(Refusal::InvalidToken)
        } else {
            Ok(text.subrange(BEARER_PREFIX@.len() as int, text.len() as int))
        },
    }
}

/// The credential that an authorization header presents.
pub fn bearer_token<'a>(header: Option<&'a str>) -> (r: Result<&'a str, Refusal>)
    ensures
        match r {
            Ok(token) => spec_bearer_token(spec_header(header)) == Ok::<Seq<char>, Refusal>(token@),
            Err(why) => spec_bearer_token(spec_header(header)) == Err::<Seq<char>, Refusal>(why),
        },
{
    match header {
        None => Err(Refusal::MissingHeader),
        Some(text) => match strip_prefix(text, BEARER_PREFIX) {
            None => Err(Refusal::WrongScheme),
            Some(token) => {
                if token.unicode_len() == 0 {
                    Err(Refusal::InvalidToken)
                } else {
                    Ok(token)
                }
            },
        },
    }
}

/// What a verified credential is worth at `now`: its claims where it names a
/// subject and an expiry and `now` is before that expiry.
pub open spec fn spec_accept(decoded: (Option<Seq<char>>, Option<u64>), now: u64) -> Result<
    ClaimsView,
    Refusal,
> {
    match decoded {
        (Some(sub), Some(exp)) => if now < exp {
            Ok(ClaimsView { sub, exp })
        } else {
            Err(Refusal::InvalidToken)
        },
        _ => Err(Refusal::InvalidToken),
    }
}

/// Decides on a credential whose signature was verified: it is accepted
/// where it names a subject and an expiry and `now` is before that expiry,
/// and refused at the expiry instant and from then on.
pub fn accept_claims(decoded: DecodedClaims, now: u64) -> (r: Result<Claims, Refusal>)
    ensures
        match r {
            Ok(claims) => spec_accept(decoded@, now) == Ok::<ClaimsView, Refusal>(claims@),
            Err(why) => spec_accept(decoded@, now) == Err::<ClaimsView, Refusal>(why),
        },
{
    match decoded.subject {
        Some(sub) => match decoded.expires_at {
            Some(exp) => {
                if now < exp {
                    Ok(Claims { sub, exp })
                } else {
                    Err(Refusal::InvalidToken)
                }
            },
            None => Err(Refusal::InvalidToken),
        },
        None => Err(Refusal::InvalidToken),
    }
}

/// The outcome of validating a header at `now` under a secret.
pub open spec fn spec_validate(header: Option<Seq<char>>, secret: Seq<u8>, now: u64) -> Result<
    ClaimsView,
    Refusal,
> {
    match spec_bearer_token(header) {
        Err(why) => Err(why),
        Ok(token) => match verified_claims(token, secret) {
            None => Err(Refusal::InvalidToken),
            Some(decoded) => spec_accept(decoded, now),
        },
    }
}

/// Whether a header presents, in the bearer scheme, the credential that
/// signing gave.
pub open spec fn spec_issued(header: Option<Seq<char>>, signed: Option<Seq<char>>) -> bool {
    signed matches Some(token) && spec_bearer_token(header) == Ok::<Seq<char>, Refusal>(token)
}

/// Validates the credential that a request presents. The header must use the
/// bearer scheme; the credential's signature is verified under the secret, and
/// it must name a subject and an expiry that `now` has not reached. Every
/// failure is the same unauthorized outcome.
///
/// A credential that was issued for a subject and an expiry under the same
/// secret is accepted exactly while `now` is before that expiry, and yields
/// the claims it was issued for.
pub fn validate(header: Option<&str>, secret: &SigningSecret, now: u64) -> (r: Result<
    Claims,
    ApiError,
>)
    ensures
        match r {
            Ok(claims) => spec_validate(spec_header(header), secret@, now) == Ok::<
                ClaimsView,
                Refusal,
            >(claims@),
            Err(e) => spec_validate(spec_header(header), secret@, now) matches Err(why) && e@
                == spec_unauthorized(spec_refusal_message(why)) && e.wf(),
        },
        spec_bearer_token(spec_header(header)) is Err ==> r is Err,
        (forall|subject: Seq<char>, expires_at: u64|
            spec_issued(spec_header(header), #[trigger] signed_token(subject, expires_at, secret@))
                ==> (r is Ok <==> now < expires_at) && (r matches Ok(claims) ==> claims@
                == (ClaimsView { sub: subject, exp: expires_at }))),
{
    match bearer_token(header) {
        Err(why) => Err(refuse(why)),
        Ok(token) => match read_claims(token, secret.key.as_slice()) {
            Err(_) => Err(refuse(Refusal::InvalidToken)),
            Ok(decoded) => match accept_claims(decoded, now) {
                Ok(claims) => Ok(claims),
                Err(why) => Err(refuse(why)),
            },
        },
    }
}

/// A request with no header, with a header of another scheme, or with the
/// bare scheme and no credential after it is refused, whatever the secret and
/// the instant.
pub proof fn lemma_malformed_header_refused(header: Option<Seq<char>>, secret: Seq<u8>, now: u64)
    requires
        header is None || !BEARER_PREFIX@.is_prefix_of(header->0) || header->0 == BEARER_PREFIX@,
    ensures
        spec_validate(header, secret, now) is Err,
        header is None ==> spec_validate(header, secret, now) == Err::<ClaimsView, Refusal>(
            Refusal::MissingHeader,
        ),
        header is Some && !BEARER_PREFIX@.is_prefix_of(header->0) ==> spec_validate(
            header,
            secret,
            now,
        ) == Err::<ClaimsView, Refusal>(Refusal::WrongScheme),
        header == Some(BEARER_PREFIX@) ==> spec_validate(header, secret, now) == Err::<
            ClaimsView,
            Refusal,
        >(Refusal::InvalidToken),
{
    if header == Some(BEARER_PREFIX@) {
        assert(BEARER_PREFIX@.subrange(0, BEARER_PREFIX@.len() as int) =~= BEARER_PREFIX@);
    }
}

/// A verified credential that names a subject and an expiry is accepted at
/// every instant before the expiry, and at none from the expiry on.
pub proof fn lemma_accepted_until_expiry(subject: Seq<char>, expires_at: u64, now: u64)
    ensures
        spec_accept((Some(subject), Some(expires_at)), now) is Ok <==> now < expires_at,
        now < expires_at ==> spec_accept((Some(subject), Some(expires_at)), now) == Ok::<
            ClaimsView,
            Refusal,
        >(ClaimsView { sub: subject, exp: expires_at }),
{
}

} // verus!
