//! Buyers: lookup, and the steps of a buyer's login.
//!
//! A login runs in up to three steps, between which the caller talks to the
//! store and to the wallet service: [`verify_login`] on the session found,
//! [`signature_checked`] on what the wallet service made of the signature,
//! and [`customer_found`] on the buyer found.

use crate::args::Args;
use crate::auth;
use crate::models::{
    Authorization, AuthorizationView, Customer, CustomerView, FIELD_SEPARATOR,
};
use crate::text::{split, split_text};
use crate::utils::{generate_rnd, is_hex_text, ApplicationErrors};
use vstd::prelude::*;
use vstd::string::*;

verus! {

/// True for the identifier of a buyer: `cust` followed by 64 hexadecimal
/// digits.
pub open spec fn is_customer_id(cid: Seq<char>) -> bool {
    cid.len() == 68 && cid.subrange(0, 4) == "cust"@ && is_hex_text(cid.skip(4))
}

/// A fresh buyer for a wallet address: a random identifier, no name and no
/// key yet. The caller stores the buyer.
pub fn create(address: &String) -> (r: Customer)
    ensures
        is_customer_id(r@.cid),
        r@ == (CustomerView { cid: r@.cid, xmr_address: address@, ..CustomerView::empty() }),
{
    let id: String = generate_rnd();
    let cid: String = "cust".to_owned().concat(id.as_str());
    proof {
        reveal_strlit("cust");
        assert(cid@.skip(4) =~= id@);
        assert(cid@.subrange(0, 4) =~= "cust"@);
    }
    Customer { cid, xmr_address: address.clone(), name: String::new(), pgp: String::new() }
}

/// What a lookup comes to: the buyer read from the stored record, or the
/// empty buyer where there is no record.
pub fn find(cid: &String, stored: String) -> (r: Customer)
    requires
        stored@.len() > 0 ==> split(stored@, FIELD_SEPARATOR).len() >= 3,
    ensures
        r@ == if stored@.len() == 0 {
            CustomerView::empty()
        } else {
            CustomerView::from_db(cid@, stored@)
        },
{
    if stored.as_str().is_empty() {
        Customer::default()
    } else {
        Customer::from_db(cid.clone(), stored)
    }
}

/// Tells whether a stored record can be read as a buyer: it is empty, or has
/// the three fields of one.
pub fn is_record(stored: &String) -> (r: bool)
    ensures
        r == (stored@.len() > 0 ==> split(stored@, FIELD_SEPARATOR).len() >= 3),
{
    if stored.as_str().is_empty() {
        true
    } else {
        split_text(stored.as_str(), FIELD_SEPARATOR).len() >= 3
    }
}

/// Where a login stands, and what the caller is to do next.
#[derive(Debug)]
pub enum Login {
    /// There was no session. This new one is to be stored and returned; its
    /// data is to be signed before the next attempt.
    Opened(Authorization),
    /// There was no session, and none could be opened.
    Failed,
    /// The wallet service is to check the signature over the data of this
    /// session.
    CheckSignature(Authorization),
    /// The buyer that the request names is to be looked up.
    FindCustomer(Authorization),
    /// A buyer was created for the address and owns the session now. Both
    /// are to be stored, the session in place of the old one, and the
    /// session returned.
    Attached { customer: Customer, auth: Authorization },
    /// The login is over, and this session is returned.
    Finished(Authorization),
}

/// First step of a login, on the session found under the identifier that
/// the request names: where there is none, one is opened for the address;
/// where there is one, its signature is to be checked.
pub fn verify_login(f_auth: Authorization, address: &String, args: &Args) -> (r: Login)
    requires
        auth::timeout_fits(args.token_timeout),
    ensures
        f_auth@.xmr_address.len() > 0 ==> r == Login::CheckSignature(f_auth),
        f_auth@.xmr_address.len() == 0 ==> match r {
            Login::Opened(a) => {
                &&& auth::is_auth_id(a@.aid)
                &&& auth::is_signing_data(a@.rnd)
                &&& a@.cvid.len() == 0
                &&& a@.xmr_address == address@
                &&& Some(a@.token) == auth::spec_create_token(
                    vstd::utf8::encode_utf8(args.jwt_secret_key@),
                    address@,
                    a@.created,
                    (args.token_timeout * 60) as i64,
                )
            },
            Login::Failed => true,
            _ => false,
        },
{
    if f_auth.xmr_address.as_str().is_empty() {
        match auth::create(address, args) {
            Some(a) => Login::Opened(a),
            None => Login::Failed,
        }
    } else {
        Login::CheckSignature(f_auth)
    }
}

/// Second step of a login, on what the wallet service made of the
/// signature: where it came back with the login error marker, the login is
/// over and the session returned as it is; otherwise the buyer is to be
/// looked up.
pub fn signature_checked(f_auth: Authorization, sig_address: &String) -> (r: Login)
    ensures
        r == if sig_address@ == ApplicationErrors::LoginError.spec_value() {
            Login::Finished(f_auth)
        } else {
            Login::FindCustomer(f_auth)
        },
{
    if *sig_address == ApplicationErrors::LoginError.value() {
        Login::Finished(f_auth)
    } else {
        Login::FindCustomer(f_auth)
    }
}

/// Third step of a login, on the buyer found: where there is none, a buyer
/// is created for the address and made the owner of the session; where
/// there is one, the login ends with the empty session.
pub fn customer_found(f_auth: Authorization, f_cust: &Customer, address: &String) -> (r: Login)
    ensures
        f_cust@.xmr_address.len() > 0 ==> (r matches Login::Finished(a) && a@
            == AuthorizationView::empty()),
        f_cust@.xmr_address.len() == 0 ==> (r matches Login::Attached { customer, auth } && {
            &&& is_customer_id(customer@.cid)
            &&& customer@ == (CustomerView {
                cid: customer@.cid,
                xmr_address: address@,
                ..CustomerView::empty()
            })
            &&& auth@ == f_auth@.update_cvid(customer@.cid)
        }),
{
    if f_cust.xmr_address.as_str().is_empty() {
        let customer: Customer = create(address);
        let auth: Authorization = Authorization::update_cvid(f_auth, customer.cid.clone());
        Login::Attached { customer, auth }
    } else {
        Login::Finished(Authorization::default())
    }
}

} // verus!
