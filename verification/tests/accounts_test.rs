use mpi2p::args::Args;
use mpi2p::customer;
use mpi2p::logger::{Log, LogLevel};
use mpi2p::models::{Authorization, Customer, Product, Vendor};
use mpi2p::product;
use mpi2p::vendor;

fn session() -> Authorization {
    Authorization {
        aid: String::from("auth1"),
        created: 7,
        cvid: String::new(),
        rnd: String::from("data"),
        token: String::from("tok"),
        xmr_address: String::from("5addr"),
    }
}

#[test]
fn customer_create_gives_a_random_identifier() {
    let c = customer::create(&String::from("5addr"));
    assert_eq!(c.cid.len(), 68);
    assert!(c.cid.starts_with("cust"));
    assert!(c.cid[4..].chars().all(|c| c.is_ascii_hexdigit() && !c.is_ascii_uppercase()));
    assert_eq!(c.xmr_address, "5addr");
    assert_eq!(c.name, "");
    assert_eq!(c.pgp, "");
    assert_ne!(c.cid, customer::create(&String::from("5addr")).cid);
}

#[test]
fn customer_find_reads_the_record_or_gives_the_empty_customer() {
    let c = customer::find(&String::from("cust1"), String::new());
    assert_eq!(format!("{:?}", c), format!("{:?}", Customer::default()));
    let c = customer::find(&String::from("cust1"), String::from("alice:KEY:5addr"));
    assert_eq!(c.cid, "cust1");
    assert_eq!(c.name, "alice");
    assert_eq!(c.pgp, "KEY");
    assert_eq!(c.xmr_address, "5addr");
    assert!(customer::is_record(&String::new()));
    assert!(customer::is_record(&String::from("a:b:c")));
    assert!(!customer::is_record(&String::from("a:b")));
}

#[test]
fn login_without_session_opens_one() {
    let args = Args::default();
    match customer::verify_login(Authorization::default(), &String::from("5addr"), &args) {
        customer::Login::Opened(a) => {
            assert!(a.aid.starts_with("auth"));
            assert_eq!(a.xmr_address, "5addr");
            assert_eq!(a.cvid, "");
            assert_eq!(a.rnd.len(), 64);
        }
        other => panic!("{:?}", other),
    }
    match vendor::verify_login(Authorization::default(), &String::from("5addr"), &args) {
        customer::Login::Opened(a) => assert_eq!(a.xmr_address, "5addr"),
        other => panic!("{:?}", other),
    }
}

#[test]
fn login_with_session_checks_the_signature() {
    let args = Args::default();
    match customer::verify_login(session(), &String::from("5addr"), &args) {
        customer::Login::CheckSignature(a) => {
            assert_eq!(format!("{:?}", a), format!("{:?}", session()))
        }
        other => panic!("{:?}", other),
    }
    match vendor::verify_login(session(), &String::from("5addr"), &args) {
        customer::Login::CheckSignature(a) => assert_eq!(a.aid, "auth1"),
        other => panic!("{:?}", other),
    }
}

#[test]
fn bad_signature_ends_the_login_with_the_session_as_it_is() {
    match customer::signature_checked(session(), &String::from("LoginError")) {
        customer::Login::Finished(a) => assert_eq!(format!("{:?}", a), format!("{:?}", session())),
        other => panic!("{:?}", other),
    }
    match customer::signature_checked(session(), &String::from("5addr")) {
        customer::Login::FindCustomer(a) => assert_eq!(a.aid, "auth1"),
        other => panic!("{:?}", other),
    }
}

#[test]
fn first_login_creates_the_customer_and_attaches_the_session() {
    let address = String::from("5addr");
    match customer::customer_found(session(), &Customer::default(), &address) {
        customer::Login::Attached { customer, auth } => {
            assert!(customer.cid.starts_with("cust"));
            assert_eq!(customer.xmr_address, "5addr");
            assert_eq!(auth.cvid, customer.cid);
            assert_eq!(auth.aid, "auth1");
            assert_eq!(auth.rnd, "data");
            assert_eq!(auth.token, "tok");
            assert_eq!(auth.created, 7);
        }
        other => panic!("{:?}", other),
    }
    let known = Customer {
        cid: String::from("cust1"),
        xmr_address: String::from("5addr"),
        name: String::new(),
        pgp: String::new(),
    };
    match customer::customer_found(session(), &known, &address) {
        customer::Login::Finished(a) => {
            assert_eq!(format!("{:?}", a), format!("{:?}", Authorization::default()))
        }
        other => panic!("{:?}", other),
    }
}

#[test]
fn vendor_login_registers_an_unknown_address() {
    match vendor::vendor_found(session(), &Vec::new(), String::from("5addr")) {
        vendor::Login::Registered { vendor, auth } => {
            assert_eq!(vendor.vid.len(), 65);
            assert!(vendor.vid.starts_with('V'));
            assert_eq!(vendor.v_xmr_address, "5addr");
            assert_eq!(vendor.v_name, "");
            assert_eq!(vendor.v_pgp, "");
            assert_eq!(vendor.v_description, "");
            assert!(!vendor.active);
            assert_eq!(format!("{:?}", auth), format!("{:?}", session()));
        }
        other => panic!("{:?}", other),
    }
    let known = vec![Vendor::default()];
    match vendor::vendor_found(session(), &known, String::from("5addr")) {
        vendor::Login::Finished(a) => assert_eq!(format!("{:?}", a), format!("{:?}", session())),
        other => panic!("{:?}", other),
    }
}

fn a_vendor() -> Vendor {
    Vendor {
        vid: String::from("V1"),
        v_xmr_address: String::from("5addr"),
        v_name: String::from("bob"),
        v_description: String::from("sells"),
        v_pgp: String::from("KEY"),
        active: false,
    }
}

#[test]
fn vendor_updates() {
    assert_eq!(vendor::UpdateType::Active.value(), 0);
    assert_eq!(vendor::UpdateType::Description.value(), 1);
    assert_eq!(vendor::UpdateType::Name.value(), 2);
    assert_eq!(vendor::UpdateType::Pgp.value(), 3);
    let v = vendor::modify(a_vendor(), String::from("ignored"), 0);
    assert!(v.active);
    assert_eq!(v.v_name, "bob");
    let v = vendor::modify(a_vendor(), String::from("new"), 1);
    assert_eq!(v.v_description, "new");
    assert!(!v.active);
    let v = vendor::modify(a_vendor(), String::from("new"), 2);
    assert_eq!(v.v_name, "new");
    let v = vendor::modify(a_vendor(), String::from("new"), 3);
    assert_eq!(v.v_pgp, "new");
    assert_eq!(v.vid, "V1");
    let v = vendor::modify(a_vendor(), String::from("new"), 4);
    assert_eq!(format!("{:?}", v), format!("{:?}", Vendor::default()));
}

#[test]
fn vendor_find_takes_the_first() {
    assert_eq!(vendor::find(&Vec::new()).vid, "");
    let mut second = a_vendor();
    second.vid = String::from("V2");
    assert_eq!(vendor::find(&vec![a_vendor(), second]).vid, "V1");
}

fn a_product(pid: &str, v_id: &str) -> Product {
    Product {
        pid: String::from(pid),
        v_id: String::from(v_id),
        in_stock: false,
        p_description: String::from("desc"),
        p_name: String::from("name"),
        p_price: 12,
        qty: 5,
    }
}

#[test]
fn product_create_is_out_of_stock() {
    let p = product::create(String::from("V1"));
    assert_eq!(p.pid.len(), 64);
    assert!(p.pid.chars().all(|c| c.is_ascii_hexdigit() && !c.is_ascii_uppercase()));
    assert_eq!(p.v_id, "V1");
    assert!(!p.in_stock);
    assert_eq!(p.p_price, 0);
    assert_eq!(p.qty, 0);
    assert_eq!(p.p_name, "");
    assert_eq!(p.p_description, "");
}

#[test]
fn product_updates() {
    assert_eq!(product::UpdateType::InStock.value(), 0);
    assert_eq!(product::UpdateType::Description.value(), 1);
    assert_eq!(product::UpdateType::Name.value(), 2);
    assert_eq!(product::UpdateType::Price.value(), 3);
    assert_eq!(product::UpdateType::Quantity.value(), 4);
    let p = product::modify(a_product("prod-a", "V1"), String::from("x"), 0);
    assert!(p.in_stock);
    let p = product::modify(a_product("prod-a", "V1"), String::from("x"), 1);
    assert_eq!(p.p_description, "x");
    let p = product::modify(a_product("prod-a", "V1"), String::from("x"), 2);
    assert_eq!(p.p_name, "x");
    let p = product::modify(a_product("prod-a", "V1"), String::from("250"), 3);
    assert_eq!(p.p_price, 250);
    assert_eq!(p.qty, 5);
    let p = product::modify(a_product("prod-a", "V1"), String::from("cheap"), 3);
    assert_eq!(p.p_price, 0);
    let p = product::modify(a_product("prod-a", "V1"), String::from("9"), 4);
    assert_eq!(p.qty, 9);
    assert_eq!(p.p_price, 12);
    let p = product::modify(a_product("prod-a", "V1"), String::from("9"), 5);
    assert_eq!(format!("{:?}", p), format!("{:?}", Product::default()));
}

#[test]
fn product_lookups() {
    let all = vec![a_product("prod-a", "V1"), a_product("prod-b", "V2"), a_product("prod-c", "V1")];
    assert_eq!(product::find(&all).pid, "prod-a");
    assert_eq!(product::find(&Vec::new()).pid, "");
    let pids = |v: Vec<Product>| v.into_iter().map(|p| p.pid).collect::<Vec<String>>();
    assert_eq!(pids(product::find_all(&all, &String::from("V1"))), vec!["prod-a", "prod-c"]);
    assert_eq!(pids(product::find_all(&all, &String::from("V2"))), vec!["prod-b"]);
    assert!(product::find_all(&all, &String::from("V3")).is_empty());
}

#[test]
fn log_level_names() {
    assert_eq!(LogLevel::DEBUG.value(), "DEBUG");
    assert_eq!(LogLevel::ERROR.value(), "ERROR");
    assert_eq!(LogLevel::INFO.value(), "INFO");
    assert_eq!(LogLevel::WARN.value(), "DEBUG");
}

#[test]
fn messages_are_shown_for_configured_levels() {
    assert!(Log::enabled("DEBUG,INFO", LogLevel::INFO));
    assert!(Log::enabled("DEBUG,INFO", LogLevel::DEBUG));
    assert!(Log::enabled("DEBUG,INFO", LogLevel::WARN));
    assert!(!Log::enabled("DEBUG,INFO", LogLevel::ERROR));
    assert!(Log::enabled("ERROR", LogLevel::ERROR));
    assert!(!Log::enabled("ERROR", LogLevel::WARN));
    assert!(!Log::enabled("", LogLevel::INFO));
    assert!(!Log::enabled("INFO ,ERROR", LogLevel::INFO));
    assert!(!Log::enabled("info", LogLevel::INFO));
}
