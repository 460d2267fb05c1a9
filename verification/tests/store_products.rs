use invoice_store::products::Product;
use invoice_store::store::Database;

fn fresh_db() -> Database {
    let mut db = Database::open_in_memory().expect("open in-memory store");
    db.initialize_schema().expect("apply schema");
    db
}

fn product(code: &str, name: &str) -> Product {
    Product {
        id: None,
        product_code: String::from(code),
        product_name: String::from(name),
        description: Some(String::from("as per catalogue")),
        hsn_sac_code: String::from("1006"),
        product_type: String::from("GOODS"),
        unit_of_measurement: String::from("NOS"),
        rate: 12500,
        gst_rate: 1800,
        cess_rate: 0,
        is_active: true,
    }
}

#[test]
fn product_save_without_identity_assigns_fresh_id_and_round_trips() {
    let mut db = fresh_db();
    let id = db.save_product(&product("P-001", "Basmati Rice")).expect("insert");
    assert!(id >= 1);
    let got = db.get_product_by_id(id).expect("lookup").expect("present");
    assert_eq!(got.id, Some(id));
    assert_eq!(got.product_code, "P-001");
    assert_eq!(got.rate, 12500);
    assert!(got.is_active);
}

#[test]
fn product_save_with_identity_updates_the_same_row() {
    let mut db = fresh_db();
    let id = db.save_product(&product("P-001", "Basmati Rice")).expect("insert");
    let mut updated = product("P-001", "Basmati Rice Premium");
    updated.id = Some(id);
    updated.rate = 15000;
    assert_eq!(db.save_product(&updated).expect("update"), id);
    let got = db.get_product_by_id(id).expect("lookup").expect("present");
    assert_eq!(got.product_name, "Basmati Rice Premium");
    assert_eq!(got.rate, 15000);
}

#[test]
fn delete_is_soft_row_kept_inactive_and_excluded_from_listing() {
    let mut db = fresh_db();
    let id = db.save_product(&product("P-001", "Basmati Rice")).expect("insert");
    assert_eq!(db.delete_product(id).expect("delete"), true);
    let got = db.get_product_by_id(id).expect("lookup").expect("row still present");
    assert_eq!(got.id, Some(id));
    assert!(!got.is_active);
    let listed = db.get_products(None, None).expect("list");
    assert!(listed.is_empty());
    assert_eq!(db.delete_product(9999).expect("absent delete"), false);
}

#[test]
fn listing_is_active_only_and_name_ordered() {
    let mut db = fresh_db();
    db.save_product(&product("P-002", "Wheat Flour")).expect("insert");
    let rice = db.save_product(&product("P-001", "Basmati Rice")).expect("insert");
    db.save_product(&product("P-003", "Cane Sugar")).expect("insert");
    db.delete_product(rice).expect("soft delete");
    let listed = db.get_products(None, None).expect("list");
    let names: Vec<&str> = listed.iter().map(|p| p.product_name.as_str()).collect();
    assert_eq!(names, vec!["Cane Sugar", "Wheat Flour"]);
}

#[test]
fn search_matches_name_code_and_hsn_on_active_rows_only() {
    let mut db = fresh_db();
    let rice = db.save_product(&product("P-001", "Basmati Rice")).expect("insert");
    db.save_product(&product("Q-777", "Cane Sugar")).expect("insert");
    assert_eq!(db.search_products("rice").expect("search").len(), 1);
    assert_eq!(db.search_products("q-77").expect("search").len(), 1);
    assert_eq!(db.search_products("1006").expect("search").len(), 2);
    db.delete_product(rice).expect("soft delete");
    assert!(db.search_products("rice").expect("search").is_empty());
}
