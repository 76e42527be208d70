//! Sellers: lookup, and the updates that a seller makes to their record.

use crate::args::Args;
use crate::auth;
use crate::customer;
use crate::models::{Authorization, Vendor, VendorView};
use crate::utils::{generate_rnd, is_hex_text};
use vstd::prelude::*;
use vstd::string::*;

verus! {

/// The fields of a seller that a request can write.
#[derive(Debug, Clone, Copy, PartialEq, Eq, Structural)]
pub enum UpdateType {
    Active,
    Description,
    Name,
    Pgp,
}

impl UpdateType {
    /// The number that selects the field in a request.
    pub open spec fn spec_value(self) -> i32 {
        match self {
            UpdateType::Active => 0,
            UpdateType::Description => 1,
            UpdateType::Name => 2,
            UpdateType::Pgp => 3,
        }
    }

    pub fn value(&self) -> (r: i32)
        ensures
            r == self.spec_value(),
    {
        match *self {
            UpdateType::Active => 0,
            UpdateType::Description => 1,
            UpdateType::Name => 2,
            UpdateType::Pgp => 3,
        }
    }
}

/// True for the identifier of a seller: a `V` followed by 64 hexadecimal
/// digits.
pub open spec fn is_vendor_id(vid: Seq<char>) -> bool {
    vid.len() == 65 && vid[0] == 'V' && is_hex_text(vid.skip(1))
}

/// A fresh seller with a random identifier and the fields given.
pub fn create(
    v_xmr_address: String,
    v_name: String,
    v_pgp: String,
    v_description: String,
    active: bool,
) -> (r: Vendor)
    ensures
        is_vendor_id(r@.vid),
        r@ == (VendorView {
            vid: r@.vid,
            v_xmr_address: v_xmr_address@,
            v_name: v_name@,
            v_description: v_description@,
            v_pgp: v_pgp@,
            active,
        }),
{
    let rnd: String = generate_rnd();
    proof {
        reveal_strlit("V");
    }
    let vid: String = "V".to_owned().concat(rnd.as_str());
    assert(vid@.skip(1) =~= rnd@);
    Vendor { vid, v_xmr_address, v_name, v_description, v_pgp, active }
}

/// What a lookup comes to: the first seller found, or the empty seller where
/// none was found.
pub fn find(found: &Vec<Vendor>) -> (r: Vendor)
    ensures
        r@ == if found@.len() > 0 {
            found@[0]@
        } else {
            VendorView::empty()
        },
{
    if found.len() > 0 {
        found[0].clone()
    } else {
        Vendor::default()
    }
}

/// The seller after an update. Activating a seller needs no value.
/// Description, name and key are stored as given. A selector that names no
/// field gives the empty seller.
pub open spec fn spec_modify(old: VendorView, data: Seq<char>, update_type: i32) -> VendorView {
    if update_type == UpdateType::Active.spec_value() {
        VendorView { active: true, ..old }
    } else if update_type == UpdateType::Description.spec_value() {
        VendorView { v_description: data, ..old }
    } else if update_type == UpdateType::Name.spec_value() {
        VendorView { v_name: data, ..old }
    } else if update_type == UpdateType::Pgp.spec_value() {
        VendorView { v_pgp: data, ..old }
    } else {
        VendorView::empty()
    }
}

/// Applies one update to a seller.
pub fn modify(old: Vendor, data: String, update_type: i32) -> (r: Vendor)
    ensures
        r@ == spec_modify(old@, data@, update_type),
{
    let mut vendor: Vendor = old;
    if update_type == UpdateType::Active.value() {
        vendor.active = true;
        vendor
    } else if update_type == UpdateType::Description.value() {
        vendor.v_description = data;
        vendor
    } else if update_type == UpdateType::Name.value() {
        vendor.v_name = data;
        vendor
    } else if update_type == UpdateType::Pgp.value() {
        vendor.v_pgp = data;
        vendor
    } else {
        Vendor::default()
    }
}

/// First step of a seller's login, on the session found for the address:
/// the same as for a buyer. Where there is no session, one is opened; where
/// there is one, its signature is to be checked.
pub fn verify_login(f_auth: Authorization, address: &String, args: &Args) -> (r: customer::Login)
    requires
        auth::timeout_fits(args.token_timeout),
    ensures
        f_auth@.xmr_address.len() > 0 ==> r == customer::Login::CheckSignature(f_auth),
        f_auth@.xmr_address.len() == 0 ==> match r {
            customer::Login::Opened(a) => {
                &&& auth::is_auth_id(a@.aid)
                &&& auth::is_signing_data(a@.rnd)
                &&& a@.cvid.len() == 0
                &&& a@.xmr_address == address@
                &&& Some(a@.token) == auth::spec_create_token(
                    vstd::utf8::encode_utf8(args.jwt_secret_key@),
                    address@,
                    a@.created,
                    (args.token_timeout * 60) as i64,
                )
            },
            customer::Login::Failed => true,
            _ => false,
        },
{
    customer::verify_login(f_auth, address, args)
}

/// How a seller's login ends, once the signature was found good.
#[derive(Debug)]
pub enum Login {
    /// The address has no seller yet. This new one is to be stored; the
    /// session is returned as it is.
    Registered { vendor: Vendor, auth: Authorization },
    /// The address has a seller. The session is returned as it is.
    Finished(Authorization),
}

/// Last step of a seller's login, on the sellers found for the address that
/// signed: where there is none, an inactive seller without name, key or
/// description is created for the address.
pub fn vendor_found(f_auth: Authorization, found: &Vec<Vendor>, sig_address: String) -> (r: Login)
    ensures
        found@.len() > 0 ==> r == Login::Finished(f_auth),
        found@.len() == 0 ==> (r matches Login::Registered { vendor, auth } && {
            &&& auth == f_auth
            &&& is_vendor_id(vendor@.vid)
            &&& vendor@ == (VendorView {
                vid: vendor@.vid,
                v_xmr_address: sig_address@,
                ..VendorView::empty()
            })
        }),
{
    if found.len() > 0 {
        Login::Finished(f_auth)
    } else {
        let vendor: Vendor = create(
            sig_address,
            String::new(),
            String::new(),
            String::new(),
            false,
        );
        Login::Registered { vendor, auth: f_auth }
    }
}

} // verus!
