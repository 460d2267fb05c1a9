use invoice_store::customers::Customer;
use invoice_store::store::Database;

fn fresh_db() -> Database {
    let mut db = Database::open_in_memory().expect("open in-memory store");
    db.initialize_schema().expect("apply schema");
    db
}

fn customer(name: &str) -> Customer {
    Customer {
        id: None,
        customer_name: String::from(name),
        gstin: Some(String::from("29ABCDE1234F1Z5")),
        pan: None,
        customer_type: String::from("B2B"),
        address_line1: String::from("1 Main Road"),
        address_line2: None,
        city: String::from("Bengaluru"),
        state: String::from("Karnataka"),
        pincode: String::from("560001"),
        phone: Some(String::from("+91-9000000000")),
        email: Some(String::from("billing@example.in")),
        credit_limit: 250000,
        credit_period_days: 30,
        is_active: true,
    }
}

#[test]
fn save_without_identity_assigns_fresh_id_and_round_trips() {
    let mut db = fresh_db();
    let id = db.save_customer(&customer("Acme Industries")).expect("insert");
    assert!(id >= 1);
    let got = db.get_customer_by_id(id).expect("lookup").expect("present");
    assert_eq!(got.id, Some(id));
    assert_eq!(got.customer_name, "Acme Industries");
    assert_eq!(got.gstin.as_deref(), Some("29ABCDE1234F1Z5"));
    assert_eq!(got.credit_limit, 250000);
    assert_eq!(got.credit_period_days, 30);
    assert!(got.is_active);
}

#[test]
fn save_with_identity_updates_the_same_row() {
    let mut db = fresh_db();
    let id = db.save_customer(&customer("Acme Industries")).expect("insert");
    let mut updated = customer("Acme Industries Ltd");
    updated.id = Some(id);
    updated.credit_limit = 999;
    let id2 = db.save_customer(&updated).expect("update");
    assert_eq!(id2, id);
    let got = db.get_customer_by_id(id).expect("lookup").expect("present");
    assert_eq!(got.customer_name, "Acme Industries Ltd");
    assert_eq!(got.credit_limit, 999);
    let all = db.get_customers(None, None).expect("list");
    assert_eq!(all.len(), 1);
}

#[test]
fn two_inserts_get_distinct_ids() {
    let mut db = fresh_db();
    let a = db.save_customer(&customer("A")).expect("insert");
    let b = db.save_customer(&customer("B")).expect("insert");
    assert_ne!(a, b);
}

#[test]
fn delete_removes_the_row() {
    let mut db = fresh_db();
    let id = db.save_customer(&customer("Acme Industries")).expect("insert");
    assert_eq!(db.delete_customer(id).expect("delete"), true);
    assert!(db.get_customer_by_id(id).expect("lookup").is_none());
    assert_eq!(db.delete_customer(id).expect("second delete"), false);
}

#[test]
fn listing_is_name_ordered_and_paged() {
    let mut db = fresh_db();
    db.save_customer(&customer("Gamma Traders")).expect("insert");
    db.save_customer(&customer("Alpha Mills")).expect("insert");
    db.save_customer(&customer("Beta Works")).expect("insert");
    let all = db.get_customers(None, None).expect("list");
    let names: Vec<&str> = all.iter().map(|c| c.customer_name.as_str()).collect();
    assert_eq!(names, vec!["Alpha Mills", "Beta Works", "Gamma Traders"]);
    let page = db.get_customers(Some(2), Some(1)).expect("page");
    let names: Vec<&str> = page.iter().map(|c| c.customer_name.as_str()).collect();
    assert_eq!(names, vec!["Beta Works", "Gamma Traders"]);
}

#[test]
fn search_is_case_insensitive_substring_match() {
    let mut db = fresh_db();
    db.save_customer(&customer("Acme Industries")).expect("insert");
    db.save_customer(&customer("Zenith Traders")).expect("insert");
    let hits = db.search_customers("acme").expect("search");
    assert_eq!(hits.len(), 1);
    assert_eq!(hits[0].customer_name, "Acme Industries");
    let hits = db.search_customers("NDUSTR").expect("search");
    assert_eq!(hits.len(), 1);
    let hits = db.search_customers("nothing-like-this").expect("search");
    assert!(hits.is_empty());
}

#[test]
fn search_also_matches_gstin_phone_and_email() {
    let mut db = fresh_db();
    db.save_customer(&customer("Acme Industries")).expect("insert");
    assert_eq!(db.search_customers("29abcde").expect("search").len(), 1);
    assert_eq!(db.search_customers("9000000000").expect("search").len(), 1);
    assert_eq!(db.search_customers("billing@").expect("search").len(), 1);
}
