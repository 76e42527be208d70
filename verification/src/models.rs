//! The records that the engine works on. Each has a view that holds the same
//! fields as plain values; contracts speak of the views.

use crate::decimal::{
    i64_to_text, lemma_render_chars, lemma_render_parses, parse_i64_or_zero,
    spec_parse_i64_or_zero, spec_render,
};
use crate::text::{free_of, join, lemma_split_join, split, split_text};
use crate::utils;
use vstd::prelude::*;
use vstd::string::*;

verus! {

/// A buyer.
#[derive(Debug)]
pub struct Customer {
    /// Identifier.
    pub cid: String,
    /// Wallet address the buyer logs in with.
    pub xmr_address: String,
    /// Display name.
    pub name: String,
    /// Public key for encrypted messages.
    pub pgp: String,
}

/// What a `Customer` holds, as plain values.
pub struct CustomerView {
    pub cid: Seq<char>,
    pub xmr_address: Seq<char>,
    pub name: Seq<char>,
    pub pgp: Seq<char>,
}

impl View for Customer {
    type V = CustomerView;

    open spec fn view(&self) -> CustomerView {
        CustomerView {
            cid: self.cid@,
            xmr_address: self.xmr_address@,
            name: self.name@,
            pgp: self.pgp@,
        }
    }
}

impl CustomerView {
    /// The empty record: every text empty, every number zero, every flag off.
    pub open spec fn empty() -> CustomerView {
        CustomerView {
            cid: Seq::empty(),
            xmr_address: Seq::empty(),
            name: Seq::empty(),
            pgp: Seq::empty(),
        }
    }
}

impl Default for Customer {
    /// The empty record, which also stands for a record that was not found.
    fn default() -> (r: Self)
        ensures
            r@ == CustomerView::empty(),
    {
        Customer {
            cid: utils::empty_string(),
            xmr_address: utils::empty_string(),
            name: utils::empty_string(),
            pgp: utils::empty_string(),
        }
    }
}

impl Clone for Customer {
    fn clone(&self) -> (r: Self)
        ensures
            r == *self,
    {
        Customer {
            cid: self.cid.clone(),
            xmr_address: self.xmr_address.clone(),
            name: self.name.clone(),
            pgp: self.pgp.clone(),
        }
    }
}

/// A seller.
#[derive(Debug)]
pub struct Vendor {
    /// Identifier.
    pub vid: String,
    /// Wallet address the seller logs in with.
    pub v_xmr_address: String,
    /// Display name.
    pub v_name: String,
    /// Free text about the seller.
    pub v_description: String,
    /// Public key for encrypted messages.
    pub v_pgp: String,
    /// Whether the seller takes orders.
    pub active: bool,
}

/// What a `Vendor` holds, as plain values.
pub struct VendorView {
    pub vid: Seq<char>,
    pub v_xmr_address: Seq<char>,
    pub v_name: Seq<char>,
    pub v_description: Seq<char>,
    pub v_pgp: Seq<char>,
    pub active: bool,
}

impl View for Vendor {
    type V = VendorView;

    open spec fn view(&self) -> VendorView {
        VendorView {
            vid: self.vid@,
            v_xmr_address: self.v_xmr_address@,
            v_name: self.v_name@,
            v_description: self.v_description@,
            v_pgp: self.v_pgp@,
            active: self.active,
        }
    }
}

impl VendorView {
    /// The empty record: every text empty, every number zero, every flag off.
    pub open spec fn empty() -> VendorView {
        VendorView {
            vid: Seq::empty(),
            v_xmr_address: Seq::empty(),
            v_name: Seq::empty(),
            v_description: Seq::empty(),
            v_pgp: Seq::empty(),
            active: false,
        }
    }
}

impl Default for Vendor {
    /// The empty record, which also stands for a record that was not found.
    fn default() -> (r: Self)
        ensures
            r@ == VendorView::empty(),
    {
        Vendor {
            vid: utils::empty_string(),
            v_xmr_address: utils::empty_string(),
            v_name: utils::empty_string(),
            v_description: utils::empty_string(),
            v_pgp: utils::empty_string(),
            active: false,
        }
    }
}

impl Clone for Vendor {
    fn clone(&self) -> (r: Self)
        ensures
            r == *self,
    {
        Vendor {
            vid: self.vid.clone(),
            v_xmr_address: self.v_xmr_address.clone(),
            v_name: self.v_name.clone(),
            v_description: self.v_description.clone(),
            v_pgp: self.v_pgp.clone(),
            active: self.active,
        }
    }
}

/// An item for sale, with the stock facts that orders are checked against.
#[derive(Debug)]
pub struct Product {
    /// Identifier.
    pub pid: String,
    /// The seller who offers it.
    pub v_id: String,
    /// Whether it can be ordered at all.
    pub in_stock: bool,
    /// Free text about the item.
    pub p_description: String,
    /// Display name.
    pub p_name: String,
    /// Price of one unit.
    pub p_price: i64,
    /// Units available.
    pub qty: i64,
}

/// What a `Product` holds, as plain values.
pub struct ProductView {
    pub pid: Seq<char>,
    pub v_id: Seq<char>,
    pub in_stock: bool,
    pub p_description: Seq<char>,
    pub p_name: Seq<char>,
    pub p_price: i64,
    pub qty: i64,
}

impl View for Product {
    type V = ProductView;

    open spec fn view(&self) -> ProductView {
        ProductView {
            pid: self.pid@,
            v_id: self.v_id@,
            in_stock: self.in_stock,
            p_description: self.p_description@,
            p_name: self.p_name@,
            p_price: self.p_price,
            qty: self.qty,
        }
    }
}

impl ProductView {
    /// The empty record: every text empty, every number zero, every flag off.
    pub open spec fn empty() -> ProductView {
        ProductView {
            pid: Seq::empty(),
            v_id: Seq::empty(),
            in_stock: false,
            p_description: Seq::empty(),
            p_name: Seq::empty(),
            p_price: 0,
            qty: 0,
        }
    }
}

impl Default for Product {
    /// The empty record, which also stands for a record that was not found.
    fn default() -> (r: Self)
        ensures
            r@ == ProductView::empty(),
    {
        Product {
            pid: utils::empty_string(),
            v_id: utils::empty_string(),
            in_stock: false,
            p_description: utils::empty_string(),
            p_name: utils::empty_string(),
            p_price: 0,
            qty: 0,
        }
    }
}

impl Clone for Product {
    fn clone(&self) -> (r: Self)
        ensures
            r == *self,
    {
        Product {
            pid: self.pid.clone(),
            v_id: self.v_id.clone(),
            in_stock: self.in_stock,
            p_description: self.p_description.clone(),
            p_name: self.p_name.clone(),
            p_price: self.p_price,
            qty: self.qty,
        }
    }
}

/// An escrow order: a purchase whose funds are held in a multisignature wallet until delivery.
#[derive(Debug)]
pub struct Order {
    /// Identifier, fixed at creation; also the name of the order's wallet.
    pub orid: String,
    /// The buyer.
    pub c_id: String,
    /// The product.
    pub p_id: String,
    /// The seller, taken from the product at creation.
    pub v_id: String,
    /// Funding address of the joint wallet; set once, by the second round.
    pub o_xmr_address: String,
    /// Buyer's handshake seed (first round).
    pub o_cust_msig_info: String,
    /// Buyer's transaction set.
    pub o_cust_msig_txset: String,
    /// Buyer's key exchange material (second round).
    pub o_cust_kex_1: String,
    /// Buyer's key image material (third round).
    pub o_cust_kex_2: String,
    /// Buyer's spare material; stored, never consumed.
    pub o_cust_kex_3: String,
    /// Creation time, seconds since the epoch.
    pub o_date: i64,
    /// Delivery time; zero until set.
    pub o_deliver_date: i64,
    /// Shipping time; zero until set.
    pub o_ship_date: i64,
    /// Identifier of the funding transaction; set once by the buyer.
    pub o_hash: String,
    /// Marketplace's handshake seed, produced by the first round.
    pub o_msig_prepare: String,
    /// Reserved.
    pub o_msig_make: String,
    /// Marketplace's key exchange material, produced by the first round.
    pub o_msig_kex_1: String,
    /// Marketplace's key image material, produced by the third round.
    pub o_msig_kex_2: String,
    /// Reserved.
    pub o_msig_kex_3: String,
    /// Reserved.
    pub o_subaddress: String,
    /// Lifecycle status, one of the names of `StatusType`.
    pub o_status: String,
    /// Units ordered.
    pub o_quantity: i64,
    /// Seller's key exchange material (second round).
    pub o_vend_kex_1: String,
    /// Seller's key image material (third round).
    pub o_vend_kex_2: String,
    /// Seller's spare material; stored, never consumed.
    pub o_vend_kex_3: String,
    /// Seller's handshake seed (first round).
    pub o_vend_msig_info: String,
    /// Seller's transaction set.
    pub o_vend_msig_txset: String,
}

/// What a `Order` holds, as plain values.
pub struct OrderView {
    pub orid: Seq<char>,
    pub c_id: Seq<char>,
    pub p_id: Seq<char>,
    pub v_id: Seq<char>,
    pub o_xmr_address: Seq<char>,
    pub o_cust_msig_info: Seq<char>,
    pub o_cust_msig_txset: Seq<char>,
    pub o_cust_kex_1: Seq<char>,
    pub o_cust_kex_2: Seq<char>,
    pub o_cust_kex_3: Seq<char>,
    pub o_date: i64,
    pub o_deliver_date: i64,
    pub o_ship_date: i64,
    pub o_hash: Seq<char>,
    pub o_msig_prepare: Seq<char>,
    pub o_msig_make: Seq<char>,
    pub o_msig_kex_1: Seq<char>,
    pub o_msig_kex_2: Seq<char>,
    pub o_msig_kex_3: Seq<char>,
    pub o_subaddress: Seq<char>,
    pub o_status: Seq<char>,
    pub o_quantity: i64,
    pub o_vend_kex_1: Seq<char>,
    pub o_vend_kex_2: Seq<char>,
    pub o_vend_kex_3: Seq<char>,
    pub o_vend_msig_info: Seq<char>,
    pub o_vend_msig_txset: Seq<char>,
}

impl View for Order {
    type V = OrderView;

    open spec fn view(&self) -> OrderView {
        OrderView {
            orid: self.orid@,
            c_id: self.c_id@,
            p_id: self.p_id@,
            v_id: self.v_id@,
            o_xmr_address: self.o_xmr_address@,
            o_cust_msig_info: self.o_cust_msig_info@,
            o_cust_msig_txset: self.o_cust_msig_txset@,
            o_cust_kex_1: self.o_cust_kex_1@,
            o_cust_kex_2: self.o_cust_kex_2@,
            o_cust_kex_3: self.o_cust_kex_3@,
            o_date: self.o_date,
            o_deliver_date: self.o_deliver_date,
            o_ship_date: self.o_ship_date,
            o_hash: self.o_hash@,
            o_msig_prepare: self.o_msig_prepare@,
            o_msig_make: self.o_msig_make@,
            o_msig_kex_1: self.o_msig_kex_1@,
            o_msig_kex_2: self.o_msig_kex_2@,
            o_msig_kex_3: self.o_msig_kex_3@,
            o_subaddress: self.o_subaddress@,
            o_status: self.o_status@,
            o_quantity: self.o_quantity,
            o_vend_kex_1: self.o_vend_kex_1@,
            o_vend_kex_2: self.o_vend_kex_2@,
            o_vend_kex_3: self.o_vend_kex_3@,
            o_vend_msig_info: self.o_vend_msig_info@,
            o_vend_msig_txset: self.o_vend_msig_txset@,
        }
    }
}

impl OrderView {
    /// The empty record: every text empty, every number zero, every flag off.
    pub open spec fn empty() -> OrderView {
        OrderView {
            orid: Seq::empty(),
            c_id: Seq::empty(),
            p_id: Seq::empty(),
            v_id: Seq::empty(),
            o_xmr_address: Seq::empty(),
            o_cust_msig_info: Seq::empty(),
            o_cust_msig_txset: Seq::empty(),
            o_cust_kex_1: Seq::empty(),
            o_cust_kex_2: Seq::empty(),
            o_cust_kex_3: Seq::empty(),
            o_date: 0,
            o_deliver_date: 0,
            o_ship_date: 0,
            o_hash: Seq::empty(),
            o_msig_prepare: Seq::empty(),
            o_msig_make: Seq::empty(),
            o_msig_kex_1: Seq::empty(),
            o_msig_kex_2: Seq::empty(),
            o_msig_kex_3: Seq::empty(),
            o_subaddress: Seq::empty(),
            o_status: Seq::empty(),
            o_quantity: 0,
            o_vend_kex_1: Seq::empty(),
            o_vend_kex_2: Seq::empty(),
            o_vend_kex_3: Seq::empty(),
            o_vend_msig_info: Seq::empty(),
            o_vend_msig_txset: Seq::empty(),
        }
    }
}

impl Default for Order {
    /// The empty record, which also stands for a record that was not found.
    fn default() -> (r: Self)
        ensures
            r@ == OrderView::empty(),
    {
        Order {
            orid: utils::empty_string(),
            c_id: utils::empty_string(),
            p_id: utils::empty_string(),
            v_id: utils::empty_string(),
            o_xmr_address: utils::empty_string(),
            o_cust_msig_info: utils::empty_string(),
            o_cust_msig_txset: utils::empty_string(),
            o_cust_kex_1: utils::empty_string(),
            o_cust_kex_2: utils::empty_string(),
            o_cust_kex_3: utils::empty_string(),
            o_date: 0,
            o_deliver_date: 0,
            o_ship_date: 0,
            o_hash: utils::empty_string(),
            o_msig_prepare: utils::empty_string(),
            o_msig_make: utils::empty_string(),
            o_msig_kex_1: utils::empty_string(),
            o_msig_kex_2: utils::empty_string(),
            o_msig_kex_3: utils::empty_string(),
            o_subaddress: utils::empty_string(),
            o_status: utils::empty_string(),
            o_quantity: 0,
            o_vend_kex_1: utils::empty_string(),
            o_vend_kex_2: utils::empty_string(),
            o_vend_kex_3: utils::empty_string(),
            o_vend_msig_info: utils::empty_string(),
            o_vend_msig_txset: utils::empty_string(),
        }
    }
}

impl Clone for Order {
    fn clone(&self) -> (r: Self)
        ensures
            r == *self,
    {
        Order {
            orid: self.orid.clone(),
            c_id: self.c_id.clone(),
            p_id: self.p_id.clone(),
            v_id: self.v_id.clone(),
            o_xmr_address: self.o_xmr_address.clone(),
            o_cust_msig_info: self.o_cust_msig_info.clone(),
            o_cust_msig_txset: self.o_cust_msig_txset.clone(),
            o_cust_kex_1: self.o_cust_kex_1.clone(),
            o_cust_kex_2: self.o_cust_kex_2.clone(),
            o_cust_kex_3: self.o_cust_kex_3.clone(),
            o_date: self.o_date,
            o_deliver_date: self.o_deliver_date,
            o_ship_date: self.o_ship_date,
            o_hash: self.o_hash.clone(),
            o_msig_prepare: self.o_msig_prepare.clone(),
            o_msig_make: self.o_msig_make.clone(),
            o_msig_kex_1: self.o_msig_kex_1.clone(),
            o_msig_kex_2: self.o_msig_kex_2.clone(),
            o_msig_kex_3: self.o_msig_kex_3.clone(),
            o_subaddress: self.o_subaddress.clone(),
            o_status: self.o_status.clone(),
            o_quantity: self.o_quantity,
            o_vend_kex_1: self.o_vend_kex_1.clone(),
            o_vend_kex_2: self.o_vend_kex_2.clone(),
            o_vend_kex_3: self.o_vend_kex_3.clone(),
            o_vend_msig_info: self.o_vend_msig_info.clone(),
            o_vend_msig_txset: self.o_vend_msig_txset.clone(),
        }
    }
}

/// A login session: the data a wallet has to sign, and the token issued for it.
#[derive(Debug)]
pub struct Authorization {
    /// Identifier.
    pub aid: String,
    /// Creation time, seconds since the epoch.
    pub created: i64,
    /// The buyer or seller the session belongs to.
    pub cvid: String,
    /// Random data to sign.
    pub rnd: String,
    /// Bearer token.
    pub token: String,
    /// Wallet address that logs in.
    pub xmr_address: String,
}

/// What a `Authorization` holds, as plain values.
pub struct AuthorizationView {
    pub aid: Seq<char>,
    pub created: i64,
    pub cvid: Seq<char>,
    pub rnd: Seq<char>,
    pub token: Seq<char>,
    pub xmr_address: Seq<char>,
}

impl View for Authorization {
    type V = AuthorizationView;

    open spec fn view(&self) -> AuthorizationView {
        AuthorizationView {
            aid: self.aid@,
            created: self.created,
            cvid: self.cvid@,
            rnd: self.rnd@,
            token: self.token@,
            xmr_address: self.xmr_address@,
        }
    }
}

impl AuthorizationView {
    /// The empty record: every text empty, every number zero, every flag off.
    pub open spec fn empty() -> AuthorizationView {
        AuthorizationView {
            aid: Seq::empty(),
            created: 0,
            cvid: Seq::empty(),
            rnd: Seq::empty(),
            token: Seq::empty(),
            xmr_address: Seq::empty(),
        }
    }
}

impl Default for Authorization {
    /// The empty record, which also stands for a record that was not found.
    fn default() -> (r: Self)
        ensures
            r@ == AuthorizationView::empty(),
    {
        Authorization {
            aid: utils::empty_string(),
            created: 0,
            cvid: utils::empty_string(),
            rnd: utils::empty_string(),
            token: utils::empty_string(),
            xmr_address: utils::empty_string(),
        }
    }
}

impl Clone for Authorization {
    fn clone(&self) -> (r: Self)
        ensures
            r == *self,
    {
        Authorization {
            aid: self.aid.clone(),
            created: self.created,
            cvid: self.cvid.clone(),
            rnd: self.rnd.clone(),
            token: self.token.clone(),
            xmr_address: self.xmr_address.clone(),
        }
    }
}

/// A dispute over an order.
#[derive(Debug)]
pub struct Dispute {
    /// Identifier.
    pub did: String,
    /// Creation time, seconds since the epoch.
    pub created: i64,
    /// The disputed order.
    pub orid: String,
    /// Signed transaction set handed in with the dispute.
    pub tx_set: String,
}

/// What a `Dispute` holds, as plain values.
pub struct DisputeView {
    pub did: Seq<char>,
    pub created: i64,
    pub orid: Seq<char>,
    pub tx_set: Seq<char>,
}

impl View for Dispute {
    type V = DisputeView;

    open spec fn view(&self) -> DisputeView {
        DisputeView {
            did: self.did@,
            created: self.created,
            orid: self.orid@,
            tx_set: self.tx_set@,
        }
    }
}

impl DisputeView {
    /// The empty record: every text empty, every number zero, every flag off.
    pub open spec fn empty() -> DisputeView {
        DisputeView {
            did: Seq::empty(),
            created: 0,
            orid: Seq::empty(),
            tx_set: Seq::empty(),
        }
    }
}

impl Default for Dispute {
    /// The empty record, which also stands for a record that was not found.
    fn default() -> (r: Self)
        ensures
            r@ == DisputeView::empty(),
    {
        Dispute {
            did: utils::empty_string(),
            created: 0,
            orid: utils::empty_string(),
            tx_set: utils::empty_string(),
        }
    }
}

impl Clone for Dispute {
    fn clone(&self) -> (r: Self)
        ensures
            r == *self,
    {
        Dispute {
            did: self.did.clone(),
            created: self.created,
            orid: self.orid.clone(),
            tx_set: self.tx_set.clone(),
        }
    }
}


/// Separator between the fields of a stored record.
pub const FIELD_SEPARATOR: char = ':';

impl CustomerView {
    /// The stored form of a buyer: name, key and address, joined by `:`. The
    /// identifier is the key under which the record is stored.
    pub open spec fn to_db(self) -> Seq<char> {
        join(seq![self.name, self.pgp, self.xmr_address], FIELD_SEPARATOR)
    }

    /// The buyer that a stored record holds: its first three fields are name,
    /// key and address.
    pub open spec fn from_db(k: Seq<char>, v: Seq<char>) -> CustomerView {
        let fields = split(v, FIELD_SEPARATOR);
        CustomerView { cid: k, name: fields[0], pgp: fields[1], xmr_address: fields[2] }
    }

    /// A buyer whose fields hold no `:` is read back from the stored form as
    /// it was written.
    pub proof fn lemma_round_trip(self)
        requires
            free_of(self.name, FIELD_SEPARATOR),
            free_of(self.pgp, FIELD_SEPARATOR),
            free_of(self.xmr_address, FIELD_SEPARATOR),
        ensures
            CustomerView::from_db(self.cid, self.to_db()) == self,
    {
        lemma_split_join(seq![self.name, self.pgp, self.xmr_address], FIELD_SEPARATOR);
    }
}

impl Customer {
    /// Writes a buyer in its stored form.
    pub fn to_db(c: &Customer) -> (r: String)
        ensures
            r@ == c@.to_db(),
    {
        let mut r: String = c.name.clone();
        proof {
            reveal_strlit(":");
            reveal_with_fuel(join, 3);
        }
        r.append(":");
        r.append(c.pgp.as_str());
        r.append(":");
        r.append(c.xmr_address.as_str());
        assert(r@ =~= c@.to_db()) by {
            let fields = seq![c.name@, c.pgp@, c.xmr_address@];
            assert(fields.drop_last() =~= seq![c.name@, c.pgp@]);
            assert(fields.drop_last().drop_last() =~= seq![c.name@]);
        }
        r
    }

    /// Reads a buyer from its stored form, found under the key `k`. Fields
    /// past the third are ignored.
    pub fn from_db(k: String, v: String) -> (r: Customer)
        requires
            split(v@, FIELD_SEPARATOR).len() >= 3,
        ensures
            r@ == CustomerView::from_db(k@, v@),
    {
        let fields: Vec<String> = split_text(v.as_str(), FIELD_SEPARATOR);
        let name: String = fields[0].clone();
        let pgp: String = fields[1].clone();
        let xmr_address: String = fields[2].clone();
        Customer { cid: k, name, pgp, xmr_address }
    }
}

impl AuthorizationView {
    /// The stored form of a session: creation time, owner, data to sign,
    /// token and address, joined by `:`. The identifier is the key under
    /// which the record is stored.
    pub open spec fn to_db(self) -> Seq<char> {
        join(
            seq![spec_render(self.created as int), self.cvid, self.rnd, self.token, self.xmr_address],
            FIELD_SEPARATOR,
        )
    }

    /// The session that a stored record holds: its first five fields are
    /// creation time, owner, data to sign, token and address. A creation
    /// time that is not a number reads as zero.
    pub open spec fn from_db(k: Seq<char>, v: Seq<char>) -> AuthorizationView {
        let fields = split(v, FIELD_SEPARATOR);
        AuthorizationView {
            aid: k,
            created: spec_parse_i64_or_zero(fields[0]),
            cvid: fields[1],
            rnd: fields[2],
            token: fields[3],
            xmr_address: fields[4],
        }
    }

    /// The session with another owner.
    pub open spec fn update_cvid(self, cvid: Seq<char>) -> AuthorizationView {
        AuthorizationView { cvid, ..self }
    }

    /// The session with a new creation time, new data to sign and a new
    /// token.
    pub open spec fn update_expiration(
        self,
        created: i64,
        rnd: Seq<char>,
        token: Seq<char>,
    ) -> AuthorizationView {
        AuthorizationView { created, rnd, token, ..self }
    }

    /// A session whose texts hold no `:` is read back from the stored form as
    /// it was written.
    pub proof fn lemma_round_trip(self)
        requires
            free_of(self.cvid, FIELD_SEPARATOR),
            free_of(self.rnd, FIELD_SEPARATOR),
            free_of(self.token, FIELD_SEPARATOR),
            free_of(self.xmr_address, FIELD_SEPARATOR),
        ensures
            AuthorizationView::from_db(self.aid, self.to_db()) == self,
    {
        let created = spec_render(self.created as int);
        lemma_render_parses(self.created);
        assert(free_of(created, FIELD_SEPARATOR)) by {
            lemma_render_chars(self.created);
        }
        lemma_split_join(
            seq![created, self.cvid, self.rnd, self.token, self.xmr_address],
            FIELD_SEPARATOR,
        );
    }
}

impl Authorization {
    /// Writes a session in its stored form.
    pub fn to_db(a: &Authorization) -> (r: String)
        ensures
            r@ == a@.to_db(),
    {
        let mut r: String = i64_to_text(a.created);
        proof {
            reveal_strlit(":");
            reveal_with_fuel(join, 5);
        }
        r.append(":");
        r.append(a.cvid.as_str());
        r.append(":");
        r.append(a.rnd.as_str());
        r.append(":");
        r.append(a.token.as_str());
        r.append(":");
        r.append(a.xmr_address.as_str());
        assert(r@ =~= a@.to_db()) by {
            let created = spec_render(a.created as int);
            let f5 = seq![created, a.cvid@, a.rnd@, a.token@, a.xmr_address@];
            let f4 = seq![created, a.cvid@, a.rnd@, a.token@];
            let f3 = seq![created, a.cvid@, a.rnd@];
            let f2 = seq![created, a.cvid@];
            assert(f5.drop_last() =~= f4);
            assert(f4.drop_last() =~= f3);
            assert(f3.drop_last() =~= f2);
            assert(f2.drop_last() =~= seq![created]);
        }
        r
    }

    /// Reads a session from its stored form, found under the key `k`. Fields
    /// past the fifth are ignored.
    pub fn from_db(k: String, v: String) -> (r: Authorization)
        requires
            split(v@, FIELD_SEPARATOR).len() >= 5,
        ensures
            r@ == AuthorizationView::from_db(k@, v@),
    {
        let fields: Vec<String> = split_text(v.as_str(), FIELD_SEPARATOR);
        let created: i64 = parse_i64_or_zero(fields[0].as_str());
        let cvid: String = fields[1].clone();
        let rnd: String = fields[2].clone();
        let token: String = fields[3].clone();
        let xmr_address: String = fields[4].clone();
        Authorization { aid: k, created, cvid, rnd, token, xmr_address }
    }

    /// Hands the session to another owner.
    pub fn update_cvid(a: Authorization, cvid: String) -> (r: Authorization)
        ensures
            r@ == a@.update_cvid(cvid@),
    {
        Authorization {
            aid: a.aid,
            created: a.created,
            cvid,
            rnd: a.rnd,
            token: a.token,
            xmr_address: a.xmr_address,
        }
    }

    /// Renews the session: a new creation time, new data to sign and a new
    /// token.
    pub fn update_expiration(a: Authorization, created: i64, rnd: String, token: String) -> (r:
        Authorization)
        ensures
            r@ == a@.update_expiration(created, rnd@, token@),
    {
        Authorization {
            aid: a.aid,
            created,
            cvid: a.cvid,
            rnd,
            token,
            xmr_address: a.xmr_address,
        }
    }
}

} // verus!
