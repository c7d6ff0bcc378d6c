//! Credential codec and token codec.
//!
//! Passwords are hashed and checked by `bcrypt`. Identity tokens are signed
//! and read by `jsonwebtoken` with HS256 under a shared secret; the expiry
//! rule is applied here, against a clock reading that the caller can supply.

use crate::ids::{uuid_from_text, uuid_parsed, uuid_text, uuid_to_text};
use crate::text::{digit_char, opt_str_view, parse_i64, parsed_i64};
use vstd::prelude::*;

verus! {

/// Cost factor handed to the password hash.
pub const HASH_COST: u32 = 12;

/// Failures of the two codecs.
#[derive(Clone, Copy, Debug, PartialEq, Eq, Structural)]
pub enum AuthError {
    /// The password codec failed, or the stored hash is not a hash string.
    CodecError,
    /// The token is intact but the clock has reached its expiry.
    ExpiredToken,
    /// The token's structure, signature or claims are not valid.
    MalformedToken,
    /// Any other failure while issuing or reading a token.
    UnknownError,
    /// The subject claim is not the text of an identifier.
    InvalidSubject,
}

impl AuthError {
    /// A short description of the failure.
    pub fn message(&self) -> (r: &'static str)
        ensures
            r@ == match self {
                AuthError::CodecError => "Password codec failure"@,
                AuthError::ExpiredToken => "Token has expired"@,
                AuthError::MalformedToken => "Invalid token"@,
                AuthError::UnknownError => "Token error"@,
                AuthError::InvalidSubject => "Invalid user ID in token"@,
            },
    {
        match self {
            AuthError::CodecError => "Password codec failure",
            AuthError::ExpiredToken => "Token has expired",
            AuthError::MalformedToken => "Invalid token",
            AuthError::UnknownError => "Token error",
            AuthError::InvalidSubject => "Invalid user ID in token",
        }
    }
}

/// Payload of an identity token.
#[derive(Debug, Clone)]
pub struct Claims {
    /// Subject: the user's identifier in text form.
    pub sub: String,
    /// Display name.
    pub username: String,
    /// Expiry, in seconds since the epoch.
    pub exp: usize,
    /// Time of issue, in seconds since the epoch.
    pub iat: usize,
}

/// What claims hold, as plain values.
pub struct ClaimsView {
    pub sub: Seq<char>,
    pub username: Seq<char>,
    pub exp: usize,
    pub iat: usize,
}

impl View for Claims {
    type V = ClaimsView;

    open spec fn view(&self) -> ClaimsView {
        ClaimsView { sub: self.sub@, username: self.username@, exp: self.exp, iat: self.iat }
    }
}

/// The four claim fields as found in a verified token payload. A field is
/// `None` where the payload lacks it or holds a value of another JSON type.
pub struct ClaimFields {
    pub sub: Option<String>,
    pub username: Option<String>,
    pub exp: Option<u64>,
    pub iat: Option<u64>,
}

/// What payload fields hold, as plain values.
pub struct ClaimFieldsView {
    pub sub: Option<Seq<char>>,
    pub username: Option<Seq<char>>,
    pub exp: Option<u64>,
    pub iat: Option<u64>,
}

impl View for ClaimFields {
    type V = ClaimFieldsView;

    open spec fn view(&self) -> ClaimFieldsView {
        ClaimFieldsView {
            sub: match self.sub {
                Some(s) => Some(s@),
                None => None,
            },
            username: match self.username {
                Some(s) => Some(s@),
                None => None,
            },
            exp: self.exp,
            iat: self.iat,
        }
    }
}

/// Why the token library refused to encode or decode.
#[derive(Clone, Copy, Debug, PartialEq, Eq, Structural)]
pub enum TokenFault {
    InvalidToken,
    InvalidSignature,
    InvalidAlgorithm,
    MissingRequiredClaim,
    ExpiredSignature,
    Base64,
    Json,
    Utf8,
    Other,
}

/// Trusted: the error type of `bcrypt`, carried through as an opaque value.
#[verifier::external_type_specification]
#[verifier::external_body]
pub struct ExBcryptError(bcrypt::BcryptError);

/// Trusted: the error type of `jsonwebtoken`, carried through as an opaque
/// value; `fault_kind` names its kind.
#[verifier::external_type_specification]
#[verifier::external_body]
pub struct ExTokenError(jsonwebtoken::errors::Error);

/// Whether `bcrypt::verify` accepts a password for a hash string; `None`
/// where it reports an error.
pub uninterp spec fn bcrypt_verified(password: Seq<char>, hash: Seq<char>) -> Option<bool>;

/// The HS256 token that `jsonwebtoken::encode` gives for the four claims
/// under a secret.
pub uninterp spec fn jwt_encoded(
    sub: Seq<char>,
    username: Seq<char>,
    exp: usize,
    iat: usize,
    secret: Seq<char>,
) -> Result<Seq<char>, TokenFault>;

/// What `jsonwebtoken::decode` finds in a token under a secret, with HS256
/// and with the library's own expiry check switched off.
pub uninterp spec fn jwt_decoded(token: Seq<char>, secret: Seq<char>) -> Result<
    ClaimFieldsView,
    TokenFault,
>;

/// The kind of a token library error.
pub uninterp spec fn fault_kind(e: jsonwebtoken::errors::Error) -> TokenFault;

/// Trusted: `bcrypt::hash`. The salt is random, so the hash string has no
/// name. Whichever string comes back has the form `$2b$`, the cost in two
/// digits, `$`, 53 more characters, and `bcrypt::verify` accepts the same
/// password for it: it recomputes the digest from the salt and cost in it.
#[verifier::external_body]
fn bcrypt_hash(password: &str, cost: u32) -> (r: Result<String, bcrypt::BcryptError>)
    ensures
        r matches Ok(h) ==> bcrypt_verified(password@, h@) == Some(true) && is_hash_text(h@, cost),
{
    bcrypt::hash(password, cost)
}

/// Trusted: `bcrypt::verify`. The outcome depends on the two strings alone.
#[verifier::external_body]
fn bcrypt_verify(password: &str, hash: &str) -> (r: Result<bool, bcrypt::BcryptError>)
    ensures
        match r {
            Ok(b) => bcrypt_verified(password@, hash@) == Some(b),
            Err(_) => bcrypt_verified(password@, hash@) is None,
        },
{
    bcrypt::verify(password, hash)
}

/// Trusted: `jsonwebtoken::encode` with the default header (HS256) and a key
/// made from the secret's bytes, on a JSON object of the four claims. The
/// token depends on the arguments alone, and decoding it under the same
/// secret gives the four claims back.
#[verifier::external_body]
fn jwt_encode(claims: &Claims, secret: &str) -> (r: Result<String, jsonwebtoken::errors::Error>)
    ensures
        match r {
            Ok(t) => {
                &&& jwt_encoded(claims.sub@, claims.username@, claims.exp, claims.iat, secret@)
                    == Ok::<Seq<char>, TokenFault>(t@)
                &&& jwt_decoded(t@, secret@) == Ok::<ClaimFieldsView, TokenFault>(
                    fields_of(claims@),
                )
            },
            Err(e) => jwt_encoded(claims.sub@, claims.username@, claims.exp, claims.iat, secret@)
                == Err::<Seq<char>, TokenFault>(fault_kind(e)),
        },
{
    let mut body = serde_json::Map::new();
    body.insert("sub".to_string(), serde_json::Value::from(claims.sub.as_str()));
    body.insert("username".to_string(), serde_json::Value::from(claims.username.as_str()));
    body.insert("exp".to_string(), serde_json::Value::from(claims.exp));
    body.insert("iat".to_string(), serde_json::Value::from(claims.iat));
    let key = jsonwebtoken::EncodingKey::from_secret(secret.as_bytes());
    jsonwebtoken::encode(&jsonwebtoken::Header::default(), &body, &key)
}

/// Trusted: `jsonwebtoken::decode` with HS256, a key made from the secret's
/// bytes and expiry validation switched off, so that the outcome depends on
/// the token and the secret alone. Each of the four claims is handed out as
/// found: a string for `sub` and `username`, an unsigned integer for `exp`
/// and `iat`.
#[verifier::external_body]
fn jwt_decode(token: &str, secret: &str) -> (r: Result<ClaimFields, jsonwebtoken::errors::Error>)
    ensures
        match r {
            Ok(f) => jwt_decoded(token@, secret@) == Ok::<ClaimFieldsView, TokenFault>(f@),
            Err(e) => jwt_decoded(token@, secret@) == Err::<ClaimFieldsView, TokenFault>(
                fault_kind(e),
            ),
        },
{
    let mut validation = jsonwebtoken::Validation::default();
    validation.validate_exp = false;
    let key = jsonwebtoken::DecodingKey::from_secret(secret.as_bytes());
    let data = jsonwebtoken::decode::<serde_json::Value>(token, &key, &validation)?;
    Ok(ClaimFields {
        sub: data.claims["sub"].as_str().map(String::from),
        username: data.claims["username"].as_str().map(String::from),
        exp: data.claims["exp"].as_u64(),
        iat: data.claims["iat"].as_u64(),
    })
}

/// Trusted: `jsonwebtoken::errors::Error::kind`, one variant for one.
#[verifier::external_body]
fn fault_of(e: &jsonwebtoken::errors::Error) -> (r: TokenFault)
    ensures
        r == fault_kind(*e),
{
    match e.kind() {
        jsonwebtoken::errors::ErrorKind::InvalidToken => TokenFault::InvalidToken,
        jsonwebtoken::errors::ErrorKind::InvalidSignature => TokenFault::InvalidSignature,
        jsonwebtoken::errors::ErrorKind::InvalidAlgorithm => TokenFault::InvalidAlgorithm,
        jsonwebtoken::errors::ErrorKind::MissingRequiredClaim(_) => TokenFault::MissingRequiredClaim,
        jsonwebtoken::errors::ErrorKind::ExpiredSignature => TokenFault::ExpiredSignature,
        jsonwebtoken::errors::ErrorKind::Base64(_) => TokenFault::Base64,
        jsonwebtoken::errors::ErrorKind::Json(_) => TokenFault::Json,
        jsonwebtoken::errors::ErrorKind::Utf8(_) => TokenFault::Utf8,
        _ => TokenFault::Other,
    }
}

/// Trusted: `chrono::Utc::now`, as seconds since the epoch. Nothing is
/// promised of a clock reading.
#[verifier::external_body]
pub(crate) fn unix_now() -> i64 {
    chrono::Utc::now().timestamp()
}

/// Outcome of checking a password against a stored hash.
pub open spec fn password_check(password: Seq<char>, hash: Seq<char>) -> Result<bool, AuthError> {
    match bcrypt_verified(password, hash) {
        Some(b) => Ok(b),
        None => Err(AuthError::CodecError),
    }
}

/// Hashes a password with a fresh random salt at cost `HASH_COST`. A hash that
/// comes back names that cost, and checking the same password against it
/// succeeds; the only failure is `CodecError`.
pub fn hash_password(password: &str) -> (r: Result<String, AuthError>)
    ensures
        r matches Ok(h) ==> password_check(password@, h@) == Ok::<bool, AuthError>(true),
        r matches Ok(h) ==> is_hash_text(h@, HASH_COST),
        r matches Err(e) ==> e == AuthError::CodecError,
{
    hash_result(bcrypt_hash(password, HASH_COST))
}

/// The form of a hash string made at `cost`: the version mark `$2b$`, the
/// cost in two digits, `$`, then salt and digest in 53 characters. Only costs
/// from 4 to 31 give a hash.
pub open spec fn is_hash_text(hash: Seq<char>, cost: u32) -> bool {
    &&& 4 <= cost <= 31
    &&& hash.len() == 60
    &&& hash.subrange(0, 4) == "$2b$"@
    &&& hash[4] == digit_char((cost / 10) as nat)
    &&& hash[5] == digit_char((cost % 10) as nat)
    &&& hash[6] == '$'
}

/// Reports what the password hash gave: the hash string as it is, any
/// failure as `CodecError`.
pub fn hash_result(outcome: Result<String, bcrypt::BcryptError>) -> (r: Result<String, AuthError>)
    ensures
        match outcome {
            Ok(h) => r matches Ok(s) && s@ == h@,
            Err(_) => r == Err::<String, AuthError>(AuthError::CodecError),
        },
{
    match outcome {
        Ok(h) => Ok(h),
        Err(_) => Err(AuthError::CodecError),
    }
}

/// Checks a password against a stored hash. A mismatch is `Ok(false)`; only a
/// string that is not a hash gives an error.
pub fn verify_password(password: &str, hash: &str) -> (r: Result<bool, AuthError>)
    ensures
        r == password_check(password@, hash@),
{
    match bcrypt_verify(password, hash) {
        Ok(b) => Ok(b),
        Err(_) => Err(AuthError::CodecError),
    }
}

/// The payload fields that a set of claims is encoded as.
pub open spec fn fields_of(c: ClaimsView) -> ClaimFieldsView {
    ClaimFieldsView {
        sub: Some(c.sub),
        username: Some(c.username),
        exp: Some(c.exp as u64),
        iat: Some(c.iat as u64),
    }
}

/// The claims that payload fields amount to: all four present, both times
/// within the range of `usize`.
pub open spec fn claims_of_fields(f: ClaimFieldsView) -> Option<ClaimsView> {
    if f.sub is Some && f.username is Some && f.exp is Some && f.iat is Some && f.exp->0
        <= usize::MAX && f.iat->0 <= usize::MAX {
        Some(
            ClaimsView {
                sub: f.sub->0,
                username: f.username->0,
                exp: f.exp->0 as usize,
                iat: f.iat->0 as usize,
            },
        )
    } else {
        None
    }
}

/// The error that a fault of the token library is reported as.
pub open spec fn fault_error(fault: TokenFault) -> AuthError {
    match fault {
        TokenFault::ExpiredSignature => AuthError::ExpiredToken,
        TokenFault::Other => AuthError::UnknownError,
        _ => AuthError::MalformedToken,
    }
}

/// Outcome of validation at time `now`, given what decoding found.
pub open spec fn validation_outcome(
    decoded: Result<ClaimFieldsView, TokenFault>,
    now: int,
) -> Result<ClaimsView, AuthError> {
    match decoded {
        Err(fault) => Err(fault_error(fault)),
        Ok(fields) => match claims_of_fields(fields) {
            None => Err(AuthError::MalformedToken),
            Some(claims) => if now >= claims.exp {
                Err(AuthError::ExpiredToken)
            } else {
                Ok(claims)
            },
        },
    }
}

/// Outcome of validating `token` under `secret` at time `now`.
pub open spec fn token_outcome(token: Seq<char>, secret: Seq<char>, now: int) -> Result<
    ClaimsView,
    AuthError,
> {
    validation_outcome(jwt_decoded(token, secret), now)
}

/// Whether an executable result is the given outcome.
pub open spec fn is_outcome(r: Result<Claims, AuthError>, expected: Result<ClaimsView, AuthError>) -> bool {
    match r {
        Ok(c) => expected == Ok::<ClaimsView, AuthError>(c@),
        Err(e) => expected == Err::<ClaimsView, AuthError>(e),
    }
}

/// What a decoding result holds, as plain values.
pub open spec fn decoded_view(d: Result<ClaimFields, TokenFault>) -> Result<
    ClaimFieldsView,
    TokenFault,
> {
    match d {
        Ok(f) => Ok(f@),
        Err(e) => Err(e),
    }
}

/// Reports a fault of the token library as an error of this one.
pub fn classify_fault(fault: TokenFault) -> (r: AuthError)
    ensures
        r == fault_error(fault),
{
    match fault {
        TokenFault::ExpiredSignature => AuthError::ExpiredToken,
        TokenFault::Other => AuthError::UnknownError,
        _ => AuthError::MalformedToken,
    }
}

/// Assembles claims from payload fields.
pub fn claims_from_fields(fields: ClaimFields) -> (r: Option<Claims>)
    ensures
        match r {
            Some(c) => claims_of_fields(fields@) == Some(c@),
            None => claims_of_fields(fields@) is None,
        },
{
    let ClaimFields { sub, username, exp, iat } = fields;
    match (sub, username, exp, iat) {
        (Some(sub), Some(username), Some(exp), Some(iat)) => {
            if exp <= usize::MAX as u64 && iat <= usize::MAX as u64 {
                Some(Claims { sub, username, exp: exp as usize, iat: iat as usize })
            } else {
                None
            }
        },
        _ => None,
    }
}

/// Whether the clock has reached the expiry of the claims.
pub fn is_expired(claims: &Claims, now: i64) -> (r: bool)
    ensures
        r == (now >= claims.exp),
{
    now >= 0 && now as u64 >= claims.exp as u64
}

/// Applies the validation rules to what decoding found: a fault is reported
/// as its error, incomplete claims are malformed, and complete claims are
/// accepted while `now` is before their expiry.
pub fn check_decoded(decoded: Result<ClaimFields, TokenFault>, now: i64) -> (r: Result<
    Claims,
    AuthError,
>)
    ensures
        is_outcome(r, validation_outcome(decoded_view(decoded), now as int)),
{
    match decoded {
        Err(fault) => Err(classify_fault(fault)),
        Ok(fields) => match claims_from_fields(fields) {
            None => Err(AuthError::MalformedToken),
            Some(claims) => if is_expired(&claims, now) {
                Err(AuthError::ExpiredToken)
            } else {
                Ok(claims)
            },
        },
    }
}

/// Validates a token under a secret at the given time.
pub fn validate_token_at(token: &str, secret: &str, now: i64) -> (r: Result<Claims, AuthError>)
    ensures
        is_outcome(r, token_outcome(token@, secret@, now as int)),
{
    let decoded = match jwt_decode(token, secret) {
        Ok(fields) => Ok(fields),
        Err(e) => Err(fault_of(&e)),
    };
    check_decoded(decoded, now)
}

/// Validates a token under a secret at the current time.
pub fn validate_token(token: &str, secret: &str) -> (r: Result<Claims, AuthError>)
    ensures
        exists|now: i64| is_outcome(r, #[trigger] token_outcome(token@, secret@, now as int)),
{
    let now = unix_now();
    validate_token_at(token, secret, now)
}

/// Reads the subject claim as an identifier.
pub fn subject_as_id(claims: &Claims) -> (r: Result<u128, AuthError>)
    ensures
        r == subject_id(claims.sub@),
{
    match uuid_from_text(claims.sub.as_str()) {
        Some(id) => Ok(id),
        None => Err(AuthError::InvalidSubject),
    }
}

/// The identifier that a subject claim denotes.
pub open spec fn subject_id(sub: Seq<char>) -> Result<u128, AuthError> {
    match uuid_parsed(sub) {
        Some(id) => Ok(id),
        None => Err(AuthError::InvalidSubject),
    }
}

/// The identifier that validation of a token leads to.
pub open spec fn user_id_outcome(outcome: Result<ClaimsView, AuthError>) -> Result<u128, AuthError> {
    match outcome {
        Ok(c) => subject_id(c.sub),
        Err(e) => Err(e),
    }
}

/// Validates a token at the given time and reads its subject.
pub fn get_user_id_from_token_at(token: &str, secret: &str, now: i64) -> (r: Result<
    u128,
    AuthError,
>)
    ensures
        r == user_id_outcome(token_outcome(token@, secret@, now as int)),
{
    match validate_token_at(token, secret, now) {
        Ok(claims) => subject_as_id(&claims),
        Err(e) => Err(e),
    }
}

/// Validates a token at the current time and reads its subject.
pub fn get_user_id_from_token(token: &str, secret: &str) -> (r: Result<u128, AuthError>)
    ensures
        exists|now: i64|
            r == user_id_outcome(#[trigger] token_outcome(token@, secret@, now as int)),
{
    let now = unix_now();
    get_user_id_from_token_at(token, secret, now)
}

/// Lifetime of a token in hours where none is configured.
pub const DEFAULT_EXPIRATION_HOURS: i64 = 24;

/// The configured lifetime of a token in hours: the setting where it is a
/// number, 24 where it is absent or is none.
pub open spec fn configured_hours(setting: Option<Seq<char>>) -> i64 {
    match setting {
        Some(s) => match parsed_i64(s) {
            Some(h) => h,
            None => 24,
        },
        None => 24,
    }
}

/// Reads the lifetime of a token in hours from its setting.
pub fn expiration_hours(setting: Option<&str>) -> (r: i64)
    ensures
        r == configured_hours(opt_str_view(setting)),
{
    match setting {
        Some(s) => match parse_i64(s) {
            Some(h) => h,
            None => DEFAULT_EXPIRATION_HOURS,
        },
        None => DEFAULT_EXPIRATION_HOURS,
    }
}

/// Whether a token can be issued at `now` for `hours`: both the time of issue
/// and the expiry are seconds since the epoch that fit a `usize`.
pub open spec fn issuable(now: int, hours: int) -> bool {
    0 <= now <= usize::MAX && 0 <= now + hours * 3600 <= usize::MAX
}

/// The claims of a token issued at `now` for `hours`.
pub open spec fn issued_claims(user_id: u128, username: Seq<char>, now: int, hours: int) -> ClaimsView {
    ClaimsView {
        sub: uuid_text(user_id),
        username,
        exp: (now + hours * 3600) as usize,
        iat: now as usize,
    }
}

/// Builds the claims for a user: issued at `now`, expiring `hours` later.
pub fn issue_claims(user_id: u128, username: &str, hours: i64, now: i64) -> (r: Option<Claims>)
    ensures
        match r {
            Some(c) => issuable(now as int, hours as int) && c@ == issued_claims(
                user_id,
                username@,
                now as int,
                hours as int,
            ),
            None => !issuable(now as int, hours as int),
        },
        r matches Some(c) ==> uuid_parsed(c.sub@) == Some(user_id),
        r matches Some(c) ==> (hours > 0 ==> c.iat < c.exp),
{
    let expiry: i128 = now as i128 + hours as i128 * 3600;
    if now < 0 || now as u64 > usize::MAX as u64 || expiry < 0 || expiry > usize::MAX as i128 {
        return None;
    }
    Some(
        Claims {
            sub: uuid_to_text(user_id),
            username: username.to_string(),
            exp: expiry as usize,
            iat: now as usize,
        },
    )
}

/// Outcome of issuing a token at `now`.
pub open spec fn issue_outcome(
    user_id: u128,
    username: Seq<char>,
    secret: Seq<char>,
    hours: int,
    now: int,
) -> Result<Seq<char>, AuthError> {
    if !issuable(now, hours) {
        Err(AuthError::UnknownError)
    } else {
        let c = issued_claims(user_id, username, now, hours);
        match jwt_encoded(c.sub, c.username, c.exp, c.iat, secret) {
            Ok(t) => Ok(t),
            Err(fault) => Err(fault_error(fault)),
        }
    }
}

/// Whether an executable result of issuing is the given outcome.
pub open spec fn is_issue_outcome(r: Result<String, AuthError>, expected: Result<Seq<char>, AuthError>) -> bool {
    match r {
        Ok(t) => expected == Ok::<Seq<char>, AuthError>(t@),
        Err(e) => expected == Err::<Seq<char>, AuthError>(e),
    }
}

/// What holds of a token issued for `claims` under `secret`: validation
/// gives the claims back at any time before the expiry, and reports the token
/// as expired from the expiry on.
pub open spec fn validates_as(token: Seq<char>, secret: Seq<char>, claims: ClaimsView) -> bool {
    forall|later: int| #[trigger]
        token_outcome(token, secret, later) == if later >= claims.exp {
            Err::<ClaimsView, AuthError>(AuthError::ExpiredToken)
        } else {
            Ok::<ClaimsView, AuthError>(claims)
        }
}

/// Issues a token for a user at time `now`, valid for `hours`.
///
/// A token that comes back validates under the same secret to the claims it
/// was issued for, until its expiry; with a positive lifetime the time of
/// issue lies before the expiry, so the token is valid when issued.
pub fn generate_token_at(
    user_id: u128,
    username: &str,
    secret: &str,
    hours: i64,
    now: i64,
) -> (r: Result<String, AuthError>)
    ensures
        is_issue_outcome(r, issue_outcome(user_id, username@, secret@, hours as int, now as int)),
        r matches Ok(t) ==> validates_as(
            t@,
            secret@,
            issued_claims(user_id, username@, now as int, hours as int),
        ),
        r matches Ok(t) ==> (hours > 0 ==> {
            let c = issued_claims(user_id, username@, now as int, hours as int);
            &&& token_outcome(t@, secret@, now as int) == Ok::<ClaimsView, AuthError>(c)
            &&& c.iat < c.exp
        }),
        r is Ok ==> subject_id(uuid_text(user_id)) == Ok::<u128, AuthError>(user_id),
        r matches Ok(t) ==> (hours <= 0 ==> token_outcome(t@, secret@, now as int) == Err::<
            ClaimsView,
            AuthError,
        >(AuthError::ExpiredToken)),
{
    match issue_claims(user_id, username, hours, now) {
        None => Err(AuthError::UnknownError),
        Some(claims) => match jwt_encode(&claims, secret) {
            Ok(token) => Ok(token),
            Err(e) => Err(classify_fault(fault_of(&e))),
        },
    }
}

/// Issues a token for a user at the current time, valid for `hours`.
pub fn generate_token(user_id: u128, username: &str, secret: &str, hours: i64) -> (r: Result<
    String,
    AuthError,
>)
    ensures
        exists|now: i64|
            {
                &&& is_issue_outcome(
                    r,
                    #[trigger] issue_outcome(user_id, username@, secret@, hours as int, now as int),
                )
                &&& r matches Ok(t) ==> validates_as(
                    t@,
                    secret@,
                    issued_claims(user_id, username@, now as int, hours as int),
                )
            },
{
    let now = unix_now();
    generate_token_at(user_id, username, secret, hours, now)
}

} // verus!
