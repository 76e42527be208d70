use mpi2p::models::{Authorization, Customer, Dispute, Order, Product, Vendor};

fn auth() -> Authorization {
    Authorization {
        aid: String::from("auth1"),
        created: 1700000000,
        cvid: String::from("cust1"),
        rnd: String::from("abcdef"),
        token: String::from("h.c.s"),
        xmr_address: String::from("5addr"),
    }
}

#[test]
fn defaults_are_empty() {
    let c = Customer::default();
    assert_eq!((c.cid.as_str(), c.xmr_address.as_str(), c.name.as_str(), c.pgp.as_str()), ("", "", "", ""));
    let v = Vendor::default();
    assert_eq!(v.vid, "");
    assert_eq!(v.v_xmr_address, "");
    assert!(!v.active);
    let p = Product::default();
    assert_eq!(p.pid, "");
    assert!(!p.in_stock);
    assert_eq!(p.p_price, 0);
    assert_eq!(p.qty, 0);
    let o = Order::default();
    assert_eq!(o.orid, "");
    assert_eq!(o.o_status, "");
    assert_eq!(o.o_date, 0);
    assert_eq!(o.o_quantity, 0);
    let a = Authorization::default();
    assert_eq!(a.aid, "");
    assert_eq!(a.created, 0);
    let d = Dispute::default();
    assert_eq!(d.did, "");
    assert_eq!(d.created, 0);
    assert_eq!(d.orid, "");
    assert_eq!(d.tx_set, "");
}

#[test]
fn clone_keeps_every_field() {
    let mut o = Order::default();
    o.orid = String::from("O1");
    o.o_quantity = 4;
    o.o_vend_msig_txset = String::from("last");
    assert_eq!(format!("{:?}", o.clone()), format!("{:?}", o));
    assert_eq!(format!("{:?}", auth().clone()), format!("{:?}", auth()));
}

#[test]
fn customer_to_db_joins_name_key_address() {
    let c = Customer {
        cid: String::from("cust1"),
        xmr_address: String::from("5addr"),
        name: String::from("alice"),
        pgp: String::from("KEY"),
    };
    assert_eq!(Customer::to_db(&c), "alice:KEY:5addr");
    assert_eq!(Customer::to_db(&Customer::default()), "::");
}

#[test]
fn customer_from_db_reads_three_fields() {
    let c = Customer::from_db(String::from("cust1"), String::from("alice:KEY:5addr"));
    assert_eq!(c.cid, "cust1");
    assert_eq!(c.name, "alice");
    assert_eq!(c.pgp, "KEY");
    assert_eq!(c.xmr_address, "5addr");
    let c = Customer::from_db(String::from("k"), String::from("::5addr:more"));
    assert_eq!(c.name, "");
    assert_eq!(c.pgp, "");
    assert_eq!(c.xmr_address, "5addr");
}

#[test]
fn customer_round_trip() {
    let c = Customer {
        cid: String::from("cust1"),
        xmr_address: String::from("5addr"),
        name: String::from("alice"),
        pgp: String::new(),
    };
    let back = Customer::from_db(String::from("cust1"), Customer::to_db(&c));
    assert_eq!(format!("{:?}", back), format!("{:?}", c));
}

#[test]
fn authorization_to_db_joins_five_fields() {
    assert_eq!(Authorization::to_db(&auth()), "1700000000:cust1:abcdef:h.c.s:5addr");
    let mut a = auth();
    a.created = -5;
    assert_eq!(Authorization::to_db(&a), "-5:cust1:abcdef:h.c.s:5addr");
}

#[test]
fn authorization_from_db_reads_five_fields() {
    let a = Authorization::from_db(
        String::from("auth1"),
        String::from("1700000000:cust1:abcdef:h.c.s:5addr"),
    );
    assert_eq!(format!("{:?}", a), format!("{:?}", auth()));
    let a = Authorization::from_db(String::from("auth1"), String::from("soon:c:r:t:x"));
    assert_eq!(a.created, 0);
    assert_eq!(a.cvid, "c");
    assert_eq!(a.xmr_address, "x");
}

#[test]
fn authorization_round_trip() {
    for created in [0, 1, -1, 1700000000, i64::MAX, i64::MIN] {
        let mut a = auth();
        a.created = created;
        let back = Authorization::from_db(String::from("auth1"), Authorization::to_db(&a));
        assert_eq!(format!("{:?}", back), format!("{:?}", a));
    }
}

#[test]
fn update_cvid_changes_the_owner_only() {
    let a = Authorization::update_cvid(auth(), String::from("cust2"));
    assert_eq!(a.cvid, "cust2");
    assert_eq!(a.aid, "auth1");
    assert_eq!(a.created, 1700000000);
    assert_eq!(a.rnd, "abcdef");
    assert_eq!(a.token, "h.c.s");
    assert_eq!(a.xmr_address, "5addr");
}

#[test]
fn update_expiration_changes_time_data_and_token() {
    let a = Authorization::update_expiration(auth(), 5, String::from("r2"), String::from("t2"));
    assert_eq!(a.created, 5);
    assert_eq!(a.rnd, "r2");
    assert_eq!(a.token, "t2");
    assert_eq!(a.aid, "auth1");
    assert_eq!(a.cvid, "cust1");
    assert_eq!(a.xmr_address, "5addr");
}
