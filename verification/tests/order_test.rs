use mpi2p::models::{Order, Product};
use mpi2p::order::{
    advance_status, create, find, find_all, is_customer, modify, new_order, rank_of, Rejection,
    Role, Round, StatusType, UpdateType, Verdict,
};

fn product(qty: i64, in_stock: bool) -> Product {
    let mut p = Product::default();
    p.pid = String::from("P");
    p.v_id = String::from("V1");
    p.qty = qty;
    p.in_stock = in_stock;
    p
}

fn fresh_order() -> Order {
    new_order(
        String::from("O1"),
        String::from("C1"),
        String::from("P"),
        String::from("V1"),
        1700000000,
    )
}

fn write(order: Order, data: &str, field: UpdateType, role: Role) -> (Order, Verdict) {
    let m = modify(order, &product(5, true), String::from(data), field.value(), role);
    (m.order, m.verdict)
}

#[test]
fn status_values_and_ranks() {
    assert_eq!(StatusType::MultisigMissing.value(), "MultisigMissing");
    assert_eq!(StatusType::MultisigComplete.value(), "MultisigComplete");
    assert_eq!(StatusType::Shipped.value(), "Shipped");
    assert_eq!(StatusType::Delivered.value(), "Delivered");
    assert_eq!(StatusType::MultisigMissing.rank(), 0);
    assert_eq!(StatusType::MultisigComplete.rank(), 1);
    assert_eq!(StatusType::Shipped.rank(), 2);
    assert_eq!(StatusType::Delivered.rank(), 3);
    assert_eq!(rank_of(&String::from("Delivered")), 3);
    assert_eq!(rank_of(&String::from("Shipped")), 2);
    assert_eq!(rank_of(&String::from("MultisigComplete")), 1);
    assert_eq!(rank_of(&String::from("MultisigMissing")), 0);
    assert_eq!(rank_of(&String::from("")), 0);
    assert_eq!(rank_of(&String::from("delivered")), 0);
}

#[test]
fn status_only_moves_forward() {
    assert_eq!(advance_status(String::from("MultisigMissing"), StatusType::Shipped), "Shipped");
    assert_eq!(advance_status(String::from("Delivered"), StatusType::Shipped), "Delivered");
    assert_eq!(
        advance_status(String::from("Shipped"), StatusType::MultisigComplete),
        "Shipped"
    );
    assert_eq!(advance_status(String::from("Shipped"), StatusType::Shipped), "Shipped");
    assert_eq!(advance_status(String::new(), StatusType::MultisigComplete), "MultisigComplete");
    assert_eq!(advance_status(String::new(), StatusType::MultisigMissing), "");
}

#[test]
fn update_type_values() {
    let all = [
        (UpdateType::CustomerKex1, 0),
        (UpdateType::CustomerKex2, 1),
        (UpdateType::CustomerKex3, 2),
        (UpdateType::CustomerMultisigInfo, 3),
        (UpdateType::Deliver, 4),
        (UpdateType::Hash, 5),
        (UpdateType::Ship, 6),
        (UpdateType::VendorKex1, 7),
        (UpdateType::VendorKex2, 8),
        (UpdateType::VendorKex3, 9),
        (UpdateType::VendorMultisigInfo, 10),
        (UpdateType::Quantity, 11),
    ];
    for (field, value) in all {
        assert_eq!(field.value(), value);
        assert_eq!(UpdateType::from_value(value), Some(field));
    }
    assert_eq!(UpdateType::from_value(12), None);
    assert_eq!(UpdateType::from_value(-1), None);
    assert_eq!(UpdateType::from_value(i32::MAX), None);
}

#[test]
fn permission_table() {
    let buyer = [
        UpdateType::CustomerKex1,
        UpdateType::CustomerKex2,
        UpdateType::CustomerKex3,
        UpdateType::CustomerMultisigInfo,
        UpdateType::Hash,
        UpdateType::Quantity,
    ];
    let seller = [
        UpdateType::VendorKex1,
        UpdateType::VendorKex2,
        UpdateType::VendorKex3,
        UpdateType::VendorMultisigInfo,
        UpdateType::Ship,
        UpdateType::Deliver,
    ];
    for f in buyer {
        assert_eq!(f.writer(), Role::Buyer);
    }
    for f in seller {
        assert_eq!(f.writer(), Role::Seller);
    }
}

#[test]
fn wrong_role_is_rejected_and_order_unchanged() {
    let fields = [
        UpdateType::CustomerKex1,
        UpdateType::CustomerKex2,
        UpdateType::CustomerKex3,
        UpdateType::CustomerMultisigInfo,
        UpdateType::Deliver,
        UpdateType::Hash,
        UpdateType::Ship,
        UpdateType::VendorKex1,
        UpdateType::VendorKex2,
        UpdateType::VendorKex3,
        UpdateType::VendorMultisigInfo,
        UpdateType::Quantity,
    ];
    for f in fields {
        let other = if f.writer() == Role::Buyer { Role::Seller } else { Role::Buyer };
        let (order, verdict) = write(fresh_order(), "3", f, other);
        assert_eq!(verdict, Verdict::Rejected(Rejection::NotPermitted));
        assert_eq!(format!("{:?}", order), format!("{:?}", fresh_order()));
    }
}

#[test]
fn unknown_selector_is_rejected() {
    let m = modify(fresh_order(), &product(5, true), String::from("x"), 12, Role::Buyer);
    assert_eq!(m.verdict, Verdict::Rejected(Rejection::UnknownField));
    assert_eq!(format!("{:?}", m.order), format!("{:?}", fresh_order()));
    let m = modify(fresh_order(), &product(5, true), String::from("x"), -3, Role::Seller);
    assert_eq!(m.verdict, Verdict::Rejected(Rejection::UnknownField));
}

#[test]
fn quantity_scenario_three_then_ten() {
    let p = product(5, true);
    let m = modify(fresh_order(), &p, String::from("3"), UpdateType::Quantity.value(), Role::Buyer);
    assert_eq!(m.verdict, Verdict::Updated);
    assert_eq!(m.order.o_quantity, 3);
    let m = modify(m.order, &p, String::from("10"), UpdateType::Quantity.value(), Role::Buyer);
    assert_eq!(m.verdict, Verdict::Rejected(Rejection::InvalidQuantity));
    assert_eq!(m.order.o_quantity, 3);
}

#[test]
fn quantity_is_accepted_within_stock_only() {
    let cases: [(&str, i64, bool, bool); 10] = [
        ("1", 5, true, true),
        ("5", 5, true, true),
        ("6", 5, true, false),
        ("0", 5, true, false),
        ("-1", 5, true, false),
        ("3", 5, false, false),
        ("3", 0, true, false),
        ("abc", 5, true, false),
        ("", 5, true, false),
        ("9223372036854775808", i64::MAX, true, false),
    ];
    for (data, qty, in_stock, accepted) in cases {
        let m = modify(
            fresh_order(),
            &product(qty, in_stock),
            String::from(data),
            UpdateType::Quantity.value(),
            Role::Buyer,
        );
        if accepted {
            assert_eq!(m.verdict, Verdict::Updated, "{}", data);
            assert_eq!(m.order.o_quantity, data.parse::<i64>().unwrap());
        } else {
            assert_eq!(m.verdict, Verdict::Rejected(Rejection::InvalidQuantity), "{}", data);
            assert_eq!(format!("{:?}", m.order), format!("{:?}", fresh_order()));
        }
    }
}

#[test]
fn round_is_due_on_the_second_write_vendor_first() {
    let (order, verdict) =
        write(fresh_order(), "vinfo1", UpdateType::VendorMultisigInfo, Role::Seller);
    assert_eq!(verdict, Verdict::Updated);
    assert_eq!(order.o_vend_msig_info, "vinfo1");
    let (order, verdict) = write(order, "cinfo1", UpdateType::CustomerMultisigInfo, Role::Buyer);
    assert_eq!(verdict, Verdict::UpdatedAndDue(Round::PrepareAndMake));
    assert_eq!(order.o_vend_msig_info, "vinfo1");
    assert_eq!(order.o_cust_msig_info, "cinfo1");
    assert!(Round::PrepareAndMake.is_stalled(&order));
}

#[test]
fn round_is_due_on_the_second_write_customer_first() {
    let (order, verdict) =
        write(fresh_order(), "cinfo1", UpdateType::CustomerMultisigInfo, Role::Buyer);
    assert_eq!(verdict, Verdict::Updated);
    let (order, verdict) = write(order, "vinfo1", UpdateType::VendorMultisigInfo, Role::Seller);
    assert_eq!(verdict, Verdict::UpdatedAndDue(Round::PrepareAndMake));
    assert_eq!(order.o_vend_msig_info, "vinfo1");
    assert_eq!(order.o_cust_msig_info, "cinfo1");
}

#[test]
fn each_round_is_due_by_its_own_fields() {
    let rounds = [
        (UpdateType::VendorKex1, UpdateType::CustomerKex1, Round::Finalize),
        (UpdateType::VendorKex2, UpdateType::CustomerKex2, Round::SyncKeyImages),
        (UpdateType::VendorMultisigInfo, UpdateType::CustomerMultisigInfo, Round::PrepareAndMake),
    ];
    for (vendor, customer, round) in rounds {
        let (order, verdict) = write(fresh_order(), "v", vendor, Role::Seller);
        assert_eq!(verdict, Verdict::Updated);
        let (_, verdict) = write(order, "c", customer, Role::Buyer);
        assert_eq!(verdict, Verdict::UpdatedAndDue(round));
        let (order, verdict) = write(fresh_order(), "c", customer, Role::Buyer);
        assert_eq!(verdict, Verdict::Updated);
        let (_, verdict) = write(order, "v", vendor, Role::Seller);
        assert_eq!(verdict, Verdict::UpdatedAndDue(round));
    }
}

#[test]
fn spare_material_makes_no_round_due() {
    let (order, verdict) = write(fresh_order(), "v3", UpdateType::VendorKex3, Role::Seller);
    assert_eq!(verdict, Verdict::Updated);
    let (order, verdict) = write(order, "c3", UpdateType::CustomerKex3, Role::Buyer);
    assert_eq!(verdict, Verdict::Updated);
    assert_eq!(order.o_vend_kex_3, "v3");
    assert_eq!(order.o_cust_kex_3, "c3");
}

#[test]
fn complete_round_is_never_due_again() {
    let mut order = fresh_order();
    order.o_vend_msig_info = String::from("vinfo1");
    order.o_cust_msig_info = String::from("cinfo1");
    order.o_msig_prepare = String::from("prep");
    order.o_msig_kex_1 = String::from("kex");
    let (order, verdict) = write(order, "cinfo2", UpdateType::CustomerMultisigInfo, Role::Buyer);
    assert_eq!(verdict, Verdict::Updated);
    assert_eq!(order.o_msig_kex_1, "kex");
    assert_eq!(order.o_msig_prepare, "prep");
    let (_, verdict) = write(order, "vinfo2", UpdateType::VendorMultisigInfo, Role::Seller);
    assert_eq!(verdict, Verdict::Updated);
}

#[test]
fn stalled_round_is_due_again_on_the_next_write() {
    let mut order = fresh_order();
    order.o_vend_kex_2 = String::from("v2");
    order.o_cust_kex_2 = String::from("c2");
    assert!(Round::SyncKeyImages.is_stalled(&order));
    let (_, verdict) = write(order, "c2", UpdateType::CustomerKex2, Role::Buyer);
    assert_eq!(verdict, Verdict::UpdatedAndDue(Round::SyncKeyImages));
}

#[test]
fn empty_material_makes_no_round_due() {
    let (order, _) = write(fresh_order(), "v", UpdateType::VendorKex1, Role::Seller);
    let (order, verdict) = write(order, "", UpdateType::CustomerKex1, Role::Buyer);
    assert_eq!(verdict, Verdict::Updated);
    assert!(!Round::Finalize.is_ready(&order));
}

#[test]
fn ship_and_deliver_set_date_and_status() {
    let (order, verdict) = write(fresh_order(), "1700000100", UpdateType::Ship, Role::Seller);
    assert_eq!(verdict, Verdict::Updated);
    assert_eq!(order.o_ship_date, 1700000100);
    assert_eq!(order.o_status, "Shipped");
    let (order, verdict) = write(order, "1700000200", UpdateType::Deliver, Role::Seller);
    assert_eq!(verdict, Verdict::Updated);
    assert_eq!(order.o_deliver_date, 1700000200);
    assert_eq!(order.o_status, "Delivered");
}

#[test]
fn shipping_after_delivery_keeps_delivered() {
    let (order, _) = write(fresh_order(), "1700000200", UpdateType::Deliver, Role::Seller);
    assert_eq!(order.o_status, "Delivered");
    let (order, verdict) = write(order, "1700000100", UpdateType::Ship, Role::Seller);
    assert_eq!(verdict, Verdict::Updated);
    assert_eq!(order.o_ship_date, 1700000100);
    assert_eq!(order.o_status, "Delivered");
}

#[test]
fn dates_and_hash_are_written_once() {
    let (order, _) = write(fresh_order(), "1700000100", UpdateType::Ship, Role::Seller);
    let (order, verdict) = write(order, "1700000999", UpdateType::Ship, Role::Seller);
    assert_eq!(verdict, Verdict::Rejected(Rejection::AlreadySet));
    assert_eq!(order.o_ship_date, 1700000100);
    let (order, _) = write(order, "1700000200", UpdateType::Deliver, Role::Seller);
    let (order, verdict) = write(order, "1", UpdateType::Deliver, Role::Seller);
    assert_eq!(verdict, Verdict::Rejected(Rejection::AlreadySet));
    assert_eq!(order.o_deliver_date, 1700000200);
    let (order, verdict) = write(order, "txid", UpdateType::Hash, Role::Buyer);
    assert_eq!(verdict, Verdict::Updated);
    assert_eq!(order.o_hash, "txid");
    let (order, verdict) = write(order, "other", UpdateType::Hash, Role::Buyer);
    assert_eq!(verdict, Verdict::Rejected(Rejection::AlreadySet));
    assert_eq!(order.o_hash, "txid");
}

#[test]
fn date_that_is_no_number_is_stored_as_zero() {
    let (order, verdict) = write(fresh_order(), "soon", UpdateType::Ship, Role::Seller);
    assert_eq!(verdict, Verdict::Updated);
    assert_eq!(order.o_ship_date, 0);
    assert_eq!(order.o_status, "Shipped");
}

#[test]
fn new_order_is_a_skeleton() {
    let o = fresh_order();
    assert_eq!(o.orid, "O1");
    assert_eq!(o.c_id, "C1");
    assert_eq!(o.p_id, "P");
    assert_eq!(o.v_id, "V1");
    assert_eq!(o.o_date, 1700000000);
    assert_eq!(o.o_status, "MultisigMissing");
    assert_eq!(o.o_quantity, 0);
    assert_eq!(o.o_ship_date, 0);
    assert_eq!(o.o_deliver_date, 0);
    assert_eq!(o.o_xmr_address, "");
    assert_eq!(o.o_hash, "");
    assert_eq!(o.o_msig_kex_1, "");
}

#[test]
fn create_gives_a_random_identifier() {
    let a = create(String::from("C1"), String::from("P"), &product(5, true));
    let b = create(String::from("C1"), String::from("P"), &product(5, true));
    assert_eq!(a.orid.len(), 65);
    assert!(a.orid.starts_with('O'));
    assert!(a.orid[1..].chars().all(|c| c.is_ascii_hexdigit() && !c.is_ascii_uppercase()));
    assert_ne!(a.orid, b.orid);
    assert_eq!(a.c_id, "C1");
    assert_eq!(a.p_id, "P");
    assert_eq!(a.v_id, "V1");
    assert_eq!(a.o_status, "MultisigMissing");
    assert!(a.o_date > 1_600_000_000);
}

#[test]
fn find_gives_the_empty_order_on_a_miss() {
    let o = find(None);
    assert_eq!(format!("{:?}", o), format!("{:?}", Order::default()));
    assert_eq!(o.orid, "");
    let o = find(Some(fresh_order()));
    assert_eq!(o.orid, "O1");
}

#[test]
fn find_all_picks_by_buyer_or_seller() {
    let mut a = fresh_order();
    a.orid = String::from("A");
    let mut b = fresh_order();
    b.orid = String::from("B");
    b.c_id = String::from("C2");
    let mut c = fresh_order();
    c.orid = String::from("C");
    c.v_id = String::from("V2");
    let all = vec![a, b, c];
    let ids = |v: Vec<Order>| v.into_iter().map(|o| o.orid).collect::<Vec<String>>();
    let customer = String::from("customer");
    let vendor = String::from("vendor");
    assert_eq!(ids(find_all(&all, &String::from("C1"), &customer)), vec!["A", "C"]);
    assert_eq!(ids(find_all(&all, &String::from("C2"), &customer)), vec!["B"]);
    assert_eq!(ids(find_all(&all, &String::from("V1"), &vendor)), vec!["A", "B"]);
    assert_eq!(ids(find_all(&all, &String::from("V2"), &vendor)), vec!["C"]);
    assert_eq!(ids(find_all(&all, &String::from("C1"), &vendor)), Vec::<String>::new());
    assert_eq!(ids(find_all(&Vec::new(), &String::from("C1"), &customer)), Vec::<String>::new());
}

#[test]
fn customer_identifiers_start_with_c() {
    assert!(is_customer("C123"));
    assert!(!is_customer("O123"));
    assert!(!is_customer("c123"));
}
