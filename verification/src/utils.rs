//! Small shared values: environment and login kinds, error markers.

use crate::args::Args;
use rand_core::RngCore;
use vstd::prelude::*;
use vstd::string::*;

verus! {

/// Where the process runs.
#[derive(Debug, Clone, Copy, PartialEq, Eq, Structural)]
pub enum ReleaseEnvironment {
    Development,
    Production,
}

impl ReleaseEnvironment {
    /// The name of the environment.
    pub open spec fn spec_value(self) -> Seq<char> {
        match self {
            ReleaseEnvironment::Development => "development"@,
            ReleaseEnvironment::Production => "production"@,
        }
    }

    pub fn value(&self) -> (r: String)
        ensures
            r@ == self.spec_value(),
    {
        match *self {
            ReleaseEnvironment::Development => "development".to_owned(),
            ReleaseEnvironment::Production => "production".to_owned(),
        }
    }
}

/// Which side of a purchase logs in.
#[derive(Debug, Clone, Copy, PartialEq, Eq, Structural)]
pub enum LoginType {
    Customer,
    Vendor,
}

impl LoginType {
    /// The name of the login kind.
    pub open spec fn spec_value(self) -> Seq<char> {
        match self {
            LoginType::Customer => "customer"@,
            LoginType::Vendor => "vendor"@,
        }
    }

    pub fn value(&self) -> (r: String)
        ensures
            r@ == self.spec_value(),
    {
        match *self {
            LoginType::Customer => "customer".to_owned(),
            LoginType::Vendor => "vendor".to_owned(),
        }
    }
}

/// Markers returned in place of a value when an operation failed.
#[derive(Debug, Clone, Copy, PartialEq, Eq, Structural)]
pub enum ApplicationErrors {
    LoginError,
    UnknownError,
}

impl ApplicationErrors {
    /// The marker as text.
    pub open spec fn spec_value(self) -> Seq<char> {
        match self {
            ApplicationErrors::LoginError => "LoginError"@,
            ApplicationErrors::UnknownError => "UnknownError"@,
        }
    }

    pub fn value(&self) -> (r: String)
        ensures
            r@ == self.spec_value(),
    {
        match *self {
            ApplicationErrors::LoginError => "LoginError".to_owned(),
            ApplicationErrors::UnknownError => "UnknownError".to_owned(),
        }
    }
}

/// The environment that a configuration selects: production for `prod`,
/// development for anything else.
pub open spec fn spec_release_env(release_env: Seq<char>) -> ReleaseEnvironment {
    if release_env == "prod"@ {
        ReleaseEnvironment::Production
    } else {
        ReleaseEnvironment::Development
    }
}

/// Helper for separation of development and production concerns.
pub fn get_release_env(args: &Args) -> (r: ReleaseEnvironment)
    ensures
        r == spec_release_env(args.release_env@),
{
    let prod: String = "prod".to_owned();
    if args.release_env == prod {
        ReleaseEnvironment::Production
    } else {
        ReleaseEnvironment::Development
    }
}

/// The token signing secret as bytes.
pub fn get_jwt_secret_key(args: &Args) -> (r: Vec<u8>)
    ensures
        r@ == vstd::utf8::encode_utf8(args.jwt_secret_key@),
{
    args.jwt_secret_key.as_str().as_bytes_vec()
}

/// The anonymizing tunnel is brought up everywhere but in development.
pub fn needs_tunnel(env: ReleaseEnvironment) -> (r: bool)
    ensures
        r == (env != ReleaseEnvironment::Development),
{
    env != ReleaseEnvironment::Development
}

pub fn empty_string() -> (r: String)
    ensures
        r@ == Seq::<char>::empty(),
{
    String::new()
}

/// The sixteen digits of lowercase hexadecimal, in order of their value.
pub open spec fn hex_digits() -> Seq<char> {
    "0123456789abcdef"@
}

/// True for the sixteen digits of lowercase hexadecimal.
pub open spec fn is_hex_digit(c: char) -> bool {
    ('0' <= c <= '9') || ('a' <= c <= 'f')
}

/// Bytes in lowercase hexadecimal: two digits for each byte, the high half
/// first.
pub open spec fn hex_lower(data: Seq<u8>) -> Seq<char> {
    Seq::new(
        2 * data.len(),
        |i: int|
            if i % 2 == 0 {
                hex_digits()[data[i / 2] as int / 16]
            } else {
                hex_digits()[data[i / 2] as int % 16]
            },
    )
}

/// True for a text of lowercase hexadecimal digits.
pub open spec fn is_hex_text(s: Seq<char>) -> bool {
    forall|i: int| 0 <= i < s.len() ==> is_hex_digit(#[trigger] s[i])
}

/// Bytes in hexadecimal are twice as many hexadecimal digits.
pub proof fn lemma_hex_lower(data: Seq<u8>)
    ensures
        hex_lower(data).len() == 2 * data.len(),
        is_hex_text(hex_lower(data)),
{
    reveal_strlit("0123456789abcdef");
    assert forall|i: int| 0 <= i < hex_lower(data).len() implies is_hex_digit(
        #[trigger] hex_lower(data)[i],
    ) by {
        let b = data[i / 2] as int;
        let v = if i % 2 == 0 {
            b / 16
        } else {
            b % 16
        };
        assert(0 <= v < 16);
        assert(hex_lower(data)[i] == hex_digits()[v]);
    }
}

/// Calls `hex::encode`, which writes each byte as two characters taken from
/// the table `0123456789abcdef`: the one at the byte's high four bits, then
/// the one at its low four bits.
#[verifier::external_body]
fn hex_encode(data: &[u8]) -> (r: String)
    ensures
        r@ == hex_lower(data@),
{
    hex::encode(data)
}

/// Calls `rand::thread_rng` and fills a buffer of 32 bytes from it with
/// `RngCore::fill_bytes`. Nothing is claimed of the bytes but their number.
#[verifier::external_body]
fn random_bytes() -> (data: Vec<u8>)
    ensures
        data@.len() == 32,
{
    let mut data = [0u8; 32];
    rand::thread_rng().fill_bytes(&mut data);
    data.to_vec()
}

/// Calls `chrono::Utc::now` and `DateTime::timestamp`: the current time in
/// seconds since the epoch, as the system clock has it. Nothing is claimed of
/// the value.
#[verifier::external_body]
pub(crate) fn unix_time() -> (seconds: i64) {
    chrono::offset::Utc::now().timestamp()
}

/// Writes bytes in lowercase hexadecimal.
pub fn to_hex(data: &[u8]) -> (r: String)
    ensures
        r@ == hex_lower(data@),
        r@.len() == 2 * data@.len(),
        is_hex_text(r@),
{
    proof {
        lemma_hex_lower(data@);
    }
    hex_encode(data)
}

/// Random data for identifiers and for signing: 32 random bytes in
/// hexadecimal, so 64 hexadecimal digits.
pub fn generate_rnd() -> (r: String)
    ensures
        r@.len() == 64,
        is_hex_text(r@),
{
    let data: Vec<u8> = random_bytes();
    to_hex(data.as_slice())
}

} // verus!
