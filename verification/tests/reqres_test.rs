use mpi2p::models::{Authorization, Customer, Dispute, Order, Product, Vendor};
use mpi2p::reqres::{
    GetAuthResponse, GetCustomerResponse, GetDisputeResponse, GetOrderResponse,
    GetOrdersResponse, GetProductResponse, GetVendorProductsResponse, GetVendorResponse,
    XmrRpcBalanceResponse, XmrRpcExportResponse, XmrRpcFinalizeResponse, XmrRpcImportResponse,
    XmrRpcMakeResponse, XmrRpcPrepareResponse, XmrRpcSignMultisigResponse,
    XmrRpcVersionResponse,
};

fn order(orid: &str, pid: &str) -> Order {
    let mut o = Order::default();
    o.orid = String::from(orid);
    o.p_id = String::from(pid);
    o.c_id = String::from("C1");
    o.v_id = String::from("V1");
    o.o_xmr_address = String::from("5addr");
    o.o_cust_msig_info = String::from("ci");
    o.o_cust_kex_1 = String::from("c1");
    o.o_cust_kex_2 = String::from("c2");
    o.o_cust_kex_3 = String::from("c3");
    o.o_date = 1;
    o.o_deliver_date = 3;
    o.o_ship_date = 2;
    o.o_hash = String::from("tx");
    o.o_msig_prepare = String::from("mp");
    o.o_msig_make = String::from("mm");
    o.o_msig_kex_1 = String::from("m1");
    o.o_msig_kex_2 = String::from("m2");
    o.o_msig_kex_3 = String::from("m3");
    o.o_subaddress = String::from("sub");
    o.o_status = String::from("Shipped");
    o.o_quantity = 4;
    o.o_vend_kex_1 = String::from("v1");
    o.o_vend_kex_2 = String::from("v2");
    o.o_vend_kex_3 = String::from("v3");
    o.o_vend_msig_info = String::from("vi");
    o
}

fn check_order(r: &GetOrderResponse, orid: &str, pid: &str) {
    assert_eq!(r.orid, orid);
    assert_eq!(r.pid, pid);
    assert_eq!(r.xmr_address, "5addr");
    assert_eq!(r.cust_msig_info, "ci");
    assert_eq!(r.cust_kex_1, "c1");
    assert_eq!(r.cust_kex_2, "c2");
    assert_eq!(r.cust_kex_3, "c3");
    assert_eq!(r.date, 1);
    assert_eq!(r.deliver_date, 3);
    assert_eq!(r.ship_date, 2);
    assert_eq!(r.hash, "tx");
    assert_eq!(r.msig_prepare, "mp");
    assert_eq!(r.msig_make, "mm");
    assert_eq!(r.msig_kex_1, "m1");
    assert_eq!(r.msig_kex_2, "m2");
    assert_eq!(r.msig_kex_3, "m3");
    assert_eq!(r.subaddress, "sub");
    assert_eq!(r.status, "Shipped");
    assert_eq!(r.quantity, 4);
    assert_eq!(r.vend_kex_1, "v1");
    assert_eq!(r.vend_kex_2, "v2");
    assert_eq!(r.vend_kex_3, "v3");
    assert_eq!(r.vend_msig_info, "vi");
}

#[test]
fn failed_calls_answer_with_empty_values() {
    assert_eq!(XmrRpcVersionResponse::default().result.version, 0);
    assert_eq!(XmrRpcPrepareResponse::default().result.multisig_info, "");
    let make = XmrRpcMakeResponse::default();
    assert_eq!(make.result.address, "");
    assert_eq!(make.result.multisig_info, "");
    assert_eq!(XmrRpcFinalizeResponse::default().result.address, "");
    assert_eq!(XmrRpcExportResponse::default().result.info, "");
    assert_eq!(XmrRpcImportResponse::default().result.n_outputs, 0);
    assert!(XmrRpcSignMultisigResponse::default().result.tx_hash_list.is_empty());
    let balance = XmrRpcBalanceResponse::default();
    assert_eq!(balance.result.balance, 0);
    assert_eq!(balance.result.unlocked_balance, 0);
    assert!(!balance.result.multisig_import_needed);
    assert_eq!(balance.result.time_to_unlock, 0);
    assert_eq!(balance.result.blocks_to_unlock, 0);
    assert!(balance.result.per_subaddress.is_empty());
}

#[test]
fn default_answers_are_empty() {
    let c = GetCustomerResponse::default();
    assert_eq!((c.address.as_str(), c.name.as_str(), c.pgp.as_str()), ("", "", ""));
    let v = GetVendorResponse::default();
    assert!(!v.active);
    assert_eq!(v.address, "");
    let p = GetProductResponse::default();
    assert_eq!(p.pid, "");
    assert_eq!(p.price, 0);
    let a = GetAuthResponse::default();
    assert_eq!(a.aid, "");
    assert_eq!(a.created, 0);
    let d = GetDisputeResponse::default();
    assert_eq!(d.orid, "");
    let o = GetOrderResponse::default();
    assert_eq!(o.orid, "");
    assert_eq!(o.status, "");
    assert_eq!(o.quantity, 0);
    assert!(GetVendorProductsResponse::default().products.is_empty());
    assert!(GetOrdersResponse::default().orders.is_empty());
}

#[test]
fn customer_answer_shows_address_name_key() {
    let r = GetCustomerResponse::build(Customer {
        cid: String::from("cust1"),
        xmr_address: String::from("5addr"),
        name: String::from("alice"),
        pgp: String::from("KEY"),
    });
    assert_eq!(r.address, "5addr");
    assert_eq!(r.name, "alice");
    assert_eq!(r.pgp, "KEY");
}

#[test]
fn vendor_answer_shows_the_vendor() {
    let r = GetVendorResponse::build(Vendor {
        vid: String::from("V1"),
        v_xmr_address: String::from("5addr"),
        v_name: String::from("bob"),
        v_description: String::from("sells"),
        v_pgp: String::from("KEY"),
        active: true,
    });
    assert!(r.active);
    assert_eq!(r.address, "5addr");
    assert_eq!(r.description, "sells");
    assert_eq!(r.name, "bob");
    assert_eq!(r.pgp, "KEY");
}

#[test]
fn auth_answer_shows_the_session() {
    let r = GetAuthResponse::build(Authorization {
        aid: String::from("auth1"),
        created: 7,
        cvid: String::from("cust1"),
        rnd: String::from("data"),
        token: String::from("tok"),
        xmr_address: String::from("5addr"),
    });
    assert_eq!(r.address, "5addr");
    assert_eq!(r.aid, "auth1");
    assert_eq!(r.created, 7);
    assert_eq!(r.cvid, "cust1");
    assert_eq!(r.data, "data");
    assert_eq!(r.token, "tok");
}

#[test]
fn dispute_answer_shows_the_dispute() {
    let r = GetDisputeResponse::build(Dispute {
        did: String::from("D1"),
        created: 9,
        orid: String::from("O1"),
        tx_set: String::from("set"),
    });
    assert_eq!(r.orid, "O1");
    assert_eq!(r.created, 9);
    assert_eq!(r.tx_set, "set");
}

fn product(pid: &str) -> Product {
    Product {
        pid: String::from(pid),
        v_id: String::from("V1"),
        in_stock: true,
        p_description: String::from("desc"),
        p_name: String::from("name"),
        p_price: 12,
        qty: 5,
    }
}

#[test]
fn product_answers_show_the_products_in_order() {
    let r = GetProductResponse::build(product("prod-a"));
    assert_eq!(r.pid, "prod-a");
    assert!(r.in_stock);
    assert_eq!(r.description, "desc");
    assert_eq!(r.name, "name");
    assert_eq!(r.price, 12);
    assert_eq!(r.qty, 5);
    let all = GetVendorProductsResponse::build(vec![product("prod-a"), product("prod-b"), product("prod-c")]);
    let pids: Vec<&str> = all.products.iter().map(|p| p.pid.as_str()).collect();
    assert_eq!(pids, vec!["prod-a", "prod-b", "prod-c"]);
    assert_eq!(all.products[2].price, 12);
    assert!(GetVendorProductsResponse::build(Vec::new()).products.is_empty());
}

#[test]
fn order_answer_shows_the_order_under_the_given_product() {
    let r = GetOrderResponse::build(String::from("prod-x"), order("O1", "prod-a"));
    check_order(&r, "O1", "prod-x");
}

#[test]
fn orders_answer_shows_each_order_under_its_own_product() {
    let r = GetOrdersResponse::build(vec![order("O1", "prod-a"), order("O2", "prod-b")]);
    assert_eq!(r.orders.len(), 2);
    check_order(&r.orders[0], "O1", "prod-a");
    check_order(&r.orders[1], "O2", "prod-b");
    assert!(GetOrdersResponse::build(Vec::new()).orders.is_empty());
}
