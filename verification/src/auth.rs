//! Login sessions and bearer tokens.
//!
//! A wallet that logs in is given random data to sign and a token. The token
//! is a JSON web token, signed with HMAC-SHA384 under the configured secret;
//! its claims are the wallet's address and an expiration.

use crate::args::Args;
use crate::decimal::{parse_i64_or_zero, spec_parse_i64_or_zero};
use crate::models::{Authorization, AuthorizationView, FIELD_SEPARATOR};
use crate::text::{split, split_text};
use crate::utils::{
    generate_rnd, get_jwt_secret_key, is_hex_text, unix_time, ApplicationErrors,
};
use hmac::{Hmac, Mac};
use jwt::{AlgorithmType, Header, SignWithKey, Token, VerifyWithKey};
use sha2::Sha384;
use std::collections::BTreeMap;
use vstd::prelude::*;
use vstd::string::*;

verus! {

/// A bearer token that was checked and found good.
#[derive(Debug)]
pub struct BearerToken(String);

impl View for BearerToken {
    type V = Seq<char>;

    closed spec fn view(&self) -> Seq<char> {
        self.0@
    }
}

impl BearerToken {
    /// The token as text.
    pub fn into_string(self) -> (r: String)
        ensures
            r@ == self@,
    {
        self.0
    }
}

/// Why a request carries no good token.
#[derive(Debug, Clone, Copy, PartialEq, Eq, Structural)]
pub enum BearerTokenError {
    /// The token is good but past its expiration.
    Expired,
    /// The request carries no token.
    Missing,
    /// The token is not signed under the secret, or was issued to another
    /// address.
    Invalid,
}

/// The two claims that a token carries, each as far as it is there.
#[derive(Debug)]
pub struct Claims {
    pub address: Option<String>,
    pub expiration: Option<String>,
}

/// [`Claims`] as plain values.
pub struct ClaimsView {
    pub address: Option<Seq<char>>,
    pub expiration: Option<Seq<char>>,
}

/// An optional text as plain value.
pub open spec fn text_of(s: Option<String>) -> Option<Seq<char>> {
    match s {
        Some(s) => Some(s@),
        None => None,
    }
}

impl View for Claims {
    type V = ClaimsView;

    open spec fn view(&self) -> ClaimsView {
        ClaimsView { address: text_of(self.address), expiration: text_of(self.expiration) }
    }
}

/// Optional claims as plain values.
pub open spec fn claims_of(c: Option<Claims>) -> Option<ClaimsView> {
    match c {
        Some(c) => Some(c@),
        None => None,
    }
}

/// The token that signing yields for a secret, an address and an expiration,
/// or `None` where signing fails.
pub uninterp spec fn jwt_hs384_token(key: Seq<u8>, address: Seq<char>, expiration: i64) -> Option<
    Seq<char>,
>;

/// The claims that verifying a token under a secret yields, or `None` where
/// the token does not verify.
pub uninterp spec fn jwt_hs384_claims(key: Seq<u8>, token: Seq<char>) -> Option<ClaimsView>;

/// Signs a token with the `jwt` crate: `Token::new` on a header with
/// algorithm `Hs384` and a map of the two claims `address` and `expiration`
/// (the number in decimal), then `sign_with_key` under an `Hmac<Sha384>` made
/// from the secret by `Hmac::new_from_slice`. The result is a function of
/// the three arguments; any error of the crate becomes `None`.
#[verifier::external_body]
fn sign_claims(key: &[u8], address: &str, expiration: i64) -> (r: Option<String>)
    ensures
        text_of(r) == jwt_hs384_token(key@, address@, expiration),
{
    let key: Hmac<Sha384> = Hmac::new_from_slice(key).ok()?;
    let header = Header { algorithm: AlgorithmType::Hs384, ..Default::default() };
    let mut claims = BTreeMap::new();
    claims.insert("address", address.to_string());
    claims.insert("expiration", expiration.to_string());
    let token = Token::new(header, claims).sign_with_key(&key).ok()?;
    Some(String::from(token.as_str()))
}

/// Verifies a token with the `jwt` crate: `verify_with_key` under an
/// `Hmac<Sha384>` made from the secret by `Hmac::new_from_slice`, reading
/// the claims as a map from text to text. The result is a function of the
/// two arguments: the claims `address` and `expiration` of a token that
/// verifies, each as far as the map holds it; `None` on any error of the
/// crate.
#[verifier::external_body]
fn verify_claims(key: &[u8], token: &str) -> (r: Option<Claims>)
    ensures
        claims_of(r) == jwt_hs384_claims(key@, token@),
{
    let key: Hmac<Sha384> = Hmac::new_from_slice(key).ok()?;
    let verified: Result<Token<Header, BTreeMap<String, String>, _>, jwt::Error> =
        token.verify_with_key(&key);
    let verified = verified.ok()?;
    let claims = verified.claims();
    Some(
        Claims {
            address: claims.get("address").cloned(),
            expiration: claims.get("expiration").cloned(),
        },
    )
}

/// True when the configured token lifetime, in seconds, is a 64-bit number.
pub open spec fn timeout_fits(token_timeout: i64) -> bool {
    i64::MIN <= token_timeout * 60 <= i64::MAX
}

/// Tells whether the configured token lifetime can be used.
pub fn check_timeout(args: &Args) -> (r: bool)
    ensures
        r == timeout_fits(args.token_timeout),
{
    args.token_timeout.checked_mul(60).is_some()
}

/// The configured token lifetime in seconds.
pub fn get_auth_expiration(args: &Args) -> (r: i64)
    requires
        timeout_fits(args.token_timeout),
    ensures
        r == args.token_timeout * 60,
{
    args.token_timeout * 60
}

/// The expiration claim of a token: the product of the lifetime in seconds
/// and the time of creation, where that is a 64-bit number.
pub open spec fn expiration_claim(lifetime: i64, created: i64) -> Option<i64> {
    if i64::MIN <= lifetime * created <= i64::MAX {
        Some((lifetime * created) as i64)
    } else {
        None
    }
}

/// The token issued to an address at a time: signed over the address and the
/// expiration claim. There is none where the claim is no 64-bit number, or
/// where signing fails.
pub open spec fn spec_create_token(
    key: Seq<u8>,
    address: Seq<char>,
    created: i64,
    lifetime: i64,
) -> Option<Seq<char>> {
    match expiration_claim(lifetime, created) {
        Some(expiration) => jwt_hs384_token(key, address, expiration),
        None => None,
    }
}

/// Issues the token for an address and a time of creation.
pub fn create_token(address: &String, created: i64, args: &Args) -> (r: Option<String>)
    requires
        timeout_fits(args.token_timeout),
    ensures
        text_of(r) == spec_create_token(
            vstd::utf8::encode_utf8(args.jwt_secret_key@),
            address@,
            created,
            (args.token_timeout * 60) as i64,
        ),
{
    let key: Vec<u8> = get_jwt_secret_key(args);
    let lifetime: i64 = get_auth_expiration(args);
    match lifetime.checked_mul(created) {
        Some(expiration) => sign_claims(key.as_slice(), address.as_str(), expiration),
        None => None,
    }
}

/// True for the identifier of a session: `auth` followed by 64 hexadecimal
/// digits.
pub open spec fn is_auth_id(aid: Seq<char>) -> bool {
    aid.len() == 68 && aid.subrange(0, 4) == "auth"@ && is_hex_text(aid.skip(4))
}

/// True for data to sign: 64 hexadecimal digits.
pub open spec fn is_signing_data(rnd: Seq<char>) -> bool {
    rnd.len() == 64 && is_hex_text(rnd)
}

/// An optional session as plain value.
pub open spec fn session_of(r: Option<Authorization>) -> Option<AuthorizationView> {
    match r {
        Some(a) => Some(a@),
        None => None,
    }
}

/// The session that is opened for an address from random text for the
/// identifier, random data to sign, the time and the token issued for that
/// time: the identifier is `auth` followed by the random text, and the
/// session has no owner. Without a token there is no session.
pub open spec fn spec_opened(
    address: Seq<char>,
    id: Seq<char>,
    rnd: Seq<char>,
    created: i64,
    token: Option<Seq<char>>,
) -> Option<AuthorizationView> {
    match token {
        Some(token) => Some(
            AuthorizationView {
                aid: "auth"@ + id,
                created,
                cvid: Seq::empty(),
                rnd,
                token,
                xmr_address: address,
            },
        ),
        None => None,
    }
}

/// Puts a new session together from what was drawn, read from the clock and
/// signed for it.
pub fn opened(address: &String, id: String, rnd: String, created: i64, token: Option<String>) -> (r:
    Option<Authorization>)
    ensures
        session_of(r) == spec_opened(address@, id@, rnd@, created, text_of(token)),
{
    match token {
        Some(token) => {
            let aid: String = "auth".to_owned().concat(id.as_str());
            Some(
                Authorization {
                    aid,
                    created,
                    cvid: String::new(),
                    rnd,
                    token,
                    xmr_address: address.clone(),
                },
            )
        },
        None => None,
    }
}

/// The session that a renewal gives from new data to sign, the time and the
/// token issued for that time: identifier, owner and address stay. Without a
/// token there is no renewed session.
pub open spec fn spec_renewed(
    f_auth: AuthorizationView,
    created: i64,
    rnd: Seq<char>,
    token: Option<Seq<char>>,
) -> Option<AuthorizationView> {
    match token {
        Some(token) => Some(f_auth.update_expiration(created, rnd, token)),
        None => None,
    }
}

/// Puts a renewed session together from what was drawn, read from the clock
/// and signed for it.
pub fn renewed(f_auth: Authorization, created: i64, rnd: String, token: Option<String>) -> (r:
    Option<Authorization>)
    ensures
        session_of(r) == spec_renewed(f_auth@, created, rnd@, text_of(token)),
{
    match token {
        Some(token) => Some(Authorization::update_expiration(f_auth, created, rnd, token)),
        None => None,
    }
}

/// Opens a session for an address: a random identifier, random data to sign,
/// the current time and the token issued for it. The session has no owner
/// yet. There is a session exactly where a token can be issued for the time
/// that the clock gave. The caller stores the session.
pub fn create(address: &String, args: &Args) -> (r: Option<Authorization>)
    requires
        timeout_fits(args.token_timeout),
    ensures
        exists|id: Seq<char>, rnd: Seq<char>, created: i64|
            is_signing_data(id) && is_signing_data(rnd) && session_of(r) == #[trigger] spec_opened(
                address@,
                id,
                rnd,
                created,
                spec_create_token(
                    vstd::utf8::encode_utf8(args.jwt_secret_key@),
                    address@,
                    created,
                    (args.token_timeout * 60) as i64,
                ),
            ),
        r matches Some(a) ==> {
            &&& is_auth_id(a@.aid)
            &&& is_signing_data(a@.rnd)
            &&& a@.cvid.len() == 0
            &&& a@.xmr_address == address@
            &&& Some(a@.token) == spec_create_token(
                vstd::utf8::encode_utf8(args.jwt_secret_key@),
                address@,
                a@.created,
                (args.token_timeout * 60) as i64,
            )
        },
{
    let id: String = generate_rnd();
    let rnd: String = generate_rnd();
    let created: i64 = unix_time();
    let token: Option<String> = create_token(address, created, args);
    let ghost drawn = (id@, rnd@);
    let r = opened(address, id, rnd, created, token);
    proof {
        reveal_strlit("auth");
        let aid = "auth"@ + drawn.0;
        assert(aid.skip(4) =~= drawn.0);
        assert(aid.subrange(0, 4) =~= "auth"@);
        assert(session_of(r) == spec_opened(
            address@,
            drawn.0,
            drawn.1,
            created,
            spec_create_token(
                vstd::utf8::encode_utf8(args.jwt_secret_key@),
                address@,
                created,
                (args.token_timeout * 60) as i64,
            ),
        ));
    }
    r
}

/// What a lookup comes to: the session read from the stored record, or the
/// empty session where there is no record.
pub fn find(aid: &String, stored: String) -> (r: Authorization)
    requires
        stored@.len() > 0 ==> split(stored@, FIELD_SEPARATOR).len() >= 5,
    ensures
        r@ == if stored@.len() == 0 {
            AuthorizationView::empty()
        } else {
            AuthorizationView::from_db(aid@, stored@)
        },
{
    if stored.as_str().is_empty() {
        Authorization::default()
    } else {
        Authorization::from_db(aid.clone(), stored)
    }
}

/// Tells whether a stored record can be read as a session: it is empty, or
/// has the five fields of one.
pub fn is_record(stored: &String) -> (r: bool)
    ensures
        r == (stored@.len() > 0 ==> split(stored@, FIELD_SEPARATOR).len() >= 5),
{
    if stored.as_str().is_empty() {
        true
    } else {
        split_text(stored.as_str(), FIELD_SEPARATOR).len() >= 5
    }
}

/// Renews a session: new data to sign, the current time, and the token
/// issued for it. Identifier, owner and address stay. There is a renewed
/// session exactly where a token can be issued for the time that the clock
/// gave. The caller stores the session in place of the old one.
pub fn update_expiration(f_auth: Authorization, address: &String, args: &Args) -> (r: Option<
    Authorization,
>)
    requires
        timeout_fits(args.token_timeout),
    ensures
        exists|rnd: Seq<char>, created: i64|
            is_signing_data(rnd) && session_of(r) == #[trigger] spec_renewed(
                f_auth@,
                created,
                rnd,
                spec_create_token(
                    vstd::utf8::encode_utf8(args.jwt_secret_key@),
                    address@,
                    created,
                    (args.token_timeout * 60) as i64,
                ),
            ),
        r matches Some(a) ==> {
            &&& is_signing_data(a@.rnd)
            &&& a@ == f_auth@.update_expiration(a@.created, a@.rnd, a@.token)
            &&& Some(a@.token) == spec_create_token(
                vstd::utf8::encode_utf8(args.jwt_secret_key@),
                address@,
                a@.created,
                (args.token_timeout * 60) as i64,
            )
        },
{
    let data: String = generate_rnd();
    let time: i64 = unix_time();
    let token: Option<String> = create_token(address, time, args);
    let ghost drawn = data@;
    let r = renewed(f_auth, time, data, token);
    proof {
        assert(session_of(r) == spec_renewed(
            f_auth@,
            time,
            drawn,
            spec_create_token(
                vstd::utf8::encode_utf8(args.jwt_secret_key@),
                address@,
                time,
                (args.token_timeout * 60) as i64,
            ),
        ));
    }
    r
}

/// A session is expired when it exists and the time is past its creation by
/// more than the lifetime.
pub open spec fn spec_expired(auth: AuthorizationView, now: i64, lifetime: i64) -> bool {
    auth.xmr_address.len() > 0 && now > auth.created + lifetime
}

/// Tells whether a session is expired.
pub fn is_expired(f_auth: &Authorization, now: i64, lifetime: i64) -> (r: bool)
    ensures
        r == spec_expired(f_auth@, now, lifetime),
{
    let exists: bool = !f_auth.xmr_address.as_str().is_empty();
    let end: i128 = f_auth.created as i128 + lifetime as i128;
    exists && (now as i128) > end
}

/// What is to be done about a request for access.
#[derive(Debug)]
pub enum Access {
    /// The session was expired and has been renewed. Access is denied; the
    /// renewed session is to be stored, and its data signed, before the next
    /// attempt.
    Renewed(Authorization),
    /// The session was expired and could not be renewed. Access is denied.
    Denied,
    /// The session stands. Access depends on the signature of its data,
    /// which the wallet service is to check.
    CheckSignature { data: String },
}

/// Decides on a request for access from the session found for the address:
/// an expired session is renewed, and any other has its signature checked.
pub fn verify_access(f_auth: Authorization, address: &String, args: &Args) -> (r: Access)
    requires
        timeout_fits(args.token_timeout),
    ensures
        match r {
            Access::Renewed(a) => {
                &&& exists|now: i64| #[trigger]
                    spec_expired(f_auth@, now, (args.token_timeout * 60) as i64)
                &&& is_signing_data(a@.rnd)
                &&& a@ == f_auth@.update_expiration(a@.created, a@.rnd, a@.token)
                &&& Some(a@.token) == spec_create_token(
                    vstd::utf8::encode_utf8(args.jwt_secret_key@),
                    address@,
                    a@.created,
                    (args.token_timeout * 60) as i64,
                )
            },
            Access::Denied => exists|now: i64| #[trigger]
                spec_expired(f_auth@, now, (args.token_timeout * 60) as i64),
            Access::CheckSignature { data } => {
                &&& data@ == f_auth@.rnd
                &&& exists|now: i64|
                    !#[trigger] spec_expired(f_auth@, now, (args.token_timeout * 60) as i64)
            },
        },
        f_auth@.xmr_address.len() == 0 ==> r is CheckSignature,
{
    let now: i64 = unix_time();
    let lifetime: i64 = get_auth_expiration(args);
    if is_expired(&f_auth, now, lifetime) {
        match update_expiration(f_auth, address, args) {
            Some(a) => Access::Renewed(a),
            None => Access::Denied,
        }
    } else {
        Access::CheckSignature { data: f_auth.rnd }
    }
}

/// Access is granted when the signature check named an address, and denied
/// when it came back with the login error marker.
pub fn access_granted(sig_address: &String) -> (r: bool)
    ensures
        r == (sig_address@ != ApplicationErrors::LoginError.spec_value()),
{
    *sig_address != ApplicationErrors::LoginError.value()
}

/// The address that a request path names: its third segment, counting the
/// empty one before the leading `/`.
pub open spec fn path_address(path: Seq<char>) -> Seq<char> {
    split(path, '/')[2]
}

/// What the check of a bearer token comes to. Without a token it is
/// `Missing`. A token that does not verify, that carries no address or no
/// expiration, or whose address is not the one the request is for, is
/// `Invalid`. A good token is `Expired` when the time is past its
/// expiration, an expiration that is no number counting as zero.
pub open spec fn spec_check_token(
    token: Option<Seq<char>>,
    claims: Option<ClaimsView>,
    address: Seq<char>,
    now: i64,
) -> Result<Seq<char>, BearerTokenError> {
    match token {
        None => Err(BearerTokenError::Missing),
        Some(token) => match claims {
            Some(ClaimsView { address: Some(claimed), expiration: Some(expiration) }) => {
                if claimed != address {
                    Err(BearerTokenError::Invalid)
                } else if now > spec_parse_i64_or_zero(expiration) {
                    Err(BearerTokenError::Expired)
                } else {
                    Ok(token)
                }
            },
            _ => Err(BearerTokenError::Invalid),
        },
    }
}

/// The claims of the token of a request, verified under a secret; none for
/// a request without a token.
pub open spec fn claims_under(key: Seq<u8>, token: Option<Seq<char>>) -> Option<ClaimsView> {
    match token {
        Some(token) => jwt_hs384_claims(key, token),
        None => None,
    }
}

/// A checked token as plain value.
pub open spec fn checked_of(r: Result<BearerToken, BearerTokenError>) -> Result<
    Seq<char>,
    BearerTokenError,
> {
    match r {
        Ok(token) => Ok(token@),
        Err(e) => Err(e),
    }
}

impl BearerToken {
    /// Checks a token whose claims have been read: `claims` is what
    /// verifying the token gave, `address` the address that the request is
    /// for, `now` the time.
    pub fn check(token: Option<String>, claims: Option<Claims>, address: &String, now: i64) -> (r:
        Result<BearerToken, BearerTokenError>)
        ensures
            checked_of(r) == spec_check_token(text_of(token), claims_of(claims), address@, now),
    {
        let token: String = match token {
            Some(token) => token,
            None => {
                return Err(BearerTokenError::Missing);
            },
        };
        let claims: Claims = match claims {
            Some(claims) => claims,
            None => {
                return Err(BearerTokenError::Invalid);
            },
        };
        let claimed: String = match claims.address {
            Some(claimed) => claimed,
            None => {
                return Err(BearerTokenError::Invalid);
            },
        };
        let expiration: String = match claims.expiration {
            Some(expiration) => expiration,
            None => {
                return Err(BearerTokenError::Invalid);
            },
        };
        if claimed != *address {
            return Err(BearerTokenError::Invalid);
        }
        let expire: i64 = parse_i64_or_zero(expiration.as_str());
        if now > expire {
            return Err(BearerTokenError::Expired);
        }
        Ok(BearerToken(token))
    }

    /// Checks the bearer token of a request: verifies it under the
    /// configured secret, and holds its claims against the address in the
    /// request path and the current time.
    pub fn from_request(token: Option<String>, path: &String, args: &Args) -> (r: Result<
        BearerToken,
        BearerTokenError,
    >)
        requires
            split(path@, '/').len() >= 3,
        ensures
            exists|now: i64|
                checked_of(r) == #[trigger] spec_check_token(
                    text_of(token),
                    claims_under(vstd::utf8::encode_utf8(args.jwt_secret_key@), text_of(token)),
                    path_address(path@),
                    now,
                ),
    {
        let segments: Vec<String> = split_text(path.as_str(), '/');
        let address: String = segments[2].clone();
        let key: Vec<u8> = get_jwt_secret_key(args);
        let claims: Option<Claims> = match &token {
            Some(t) => verify_claims(key.as_slice(), t.as_str()),
            None => None,
        };
        let now: i64 = unix_time();
        let ghost given = text_of(token);
        let r = BearerToken::check(token, claims, &address, now);
        proof {
            assert(segments.deep_view()[2] == segments@[2]@);
            assert(address@ == path_address(path@));
            assert(claims_of(claims) == claims_under(
                vstd::utf8::encode_utf8(args.jwt_secret_key@),
                given,
            ));
            assert(checked_of(r) == spec_check_token(
                given,
                claims_under(vstd::utf8::encode_utf8(args.jwt_secret_key@), given),
                path_address(path@),
                now,
            ));
        }
        r
    }
}

} // verus!
