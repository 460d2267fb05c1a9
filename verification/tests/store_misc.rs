use invoice_store::appstate::AppState;
use invoice_store::invoices::invoice_from_cells;
use invoice_store::cells::Cell;
use invoice_store::states::state_from_cells;
use invoice_store::settings::CompanySettings;
use invoice_store::store::Database;

fn fresh_db() -> Database {
    let mut db = Database::open_in_memory().expect("open in-memory store");
    db.initialize_schema().expect("apply schema");
    db
}

fn settings(name: &str) -> CompanySettings {
    CompanySettings {
        id: None,
        company_name: String::from(name),
        gstin: String::from("29ABCDE1234F1Z5"),
        pan: String::from("ABCDE1234F"),
        address_line1: String::from("1 Main Road"),
        address_line2: None,
        city: String::from("Bengaluru"),
        state: String::from("Karnataka"),
        pincode: String::from("560001"),
        phone: None,
        email: Some(String::from("office@example.in")),
        website: None,
        bank_name: Some(String::from("State Bank")),
        account_number: Some(String::from("000111222333")),
        ifsc_code: Some(String::from("SBIN0000001")),
        logo_path: None,
    }
}

#[test]
fn company_settings_read_returns_most_recently_created_row() {
    let mut db = fresh_db();
    assert!(db.get_company_settings().expect("read").is_none());
    let first = db.save_company_settings(&settings("Old Name Pvt Ltd")).expect("insert");
    let second = db.save_company_settings(&settings("New Name Pvt Ltd")).expect("insert");
    assert_ne!(first, second);
    let got = db.get_company_settings().expect("read").expect("present");
    assert_eq!(got.id, Some(second));
    assert_eq!(got.company_name, "New Name Pvt Ltd");
}

#[test]
fn company_settings_update_in_place_keeps_identity() {
    let mut db = fresh_db();
    let id = db.save_company_settings(&settings("Acme Pvt Ltd")).expect("insert");
    let mut s = settings("Acme Private Limited");
    s.id = Some(id);
    assert_eq!(db.save_company_settings(&s).expect("update"), id);
    let got = db.get_company_settings().expect("read").expect("present");
    assert_eq!(got.company_name, "Acme Private Limited");
    assert_eq!(got.bank_name.as_deref(), Some("State Bank"));
}

#[test]
fn state_list_is_seeded_named_ordered_and_looked_up_by_code() {
    let db = fresh_db();
    let states = db.get_indian_states().expect("list");
    assert_eq!(states.len(), 36);
    for w in states.windows(2) {
        assert!(w[0].state_name <= w[1].state_name);
    }
    let karnataka = db.get_state_by_code("29").expect("lookup").expect("present");
    assert_eq!(karnataka.state_name, "Karnataka");
    assert!(!karnataka.is_union_territory);
    let delhi = db.get_state_by_code("07").expect("lookup").expect("present");
    assert!(delhi.is_union_territory);
    assert!(db.get_state_by_code("99").expect("lookup").is_none());
}

#[test]
fn count_records_counts_allow_listed_tables_only() {
    let mut db = fresh_db();
    assert_eq!(db.count_records("customers").expect("count"), 0);
    assert_eq!(db.count_records("indian_states").expect("count"), 36);
    let err = db.count_records("customers; DROP TABLE customers").unwrap_err();
    assert_eq!(err.error, "DatabaseError");
    assert_eq!(err.message, "unrecognized table name");
    let c = invoice_store::customers::Customer {
        id: None,
        customer_name: String::from("Acme Industries"),
        gstin: None,
        pan: None,
        customer_type: String::from("B2C"),
        address_line1: String::from("2 Side Road"),
        address_line2: None,
        city: String::from("Mysuru"),
        state: String::from("Karnataka"),
        pincode: String::from("570001"),
        phone: None,
        email: None,
        credit_limit: 0,
        credit_period_days: 0,
        is_active: true,
    };
    db.save_customer(&c).expect("insert");
    assert_eq!(db.count_records("customers").expect("count"), 1);
    let counts = db.get_record_counts().expect("counts");
    assert_eq!(counts.customers, 1);
    assert_eq!(counts.products, 0);
    assert_eq!(counts.invoices, 0);
}

#[test]
fn next_invoice_number_on_empty_table_uses_current_period() {
    let db = fresh_db();
    let n = db.get_next_invoice_number("INV-{YYYY}-{MM}-{####}").expect("number");
    let now = chrono::Utc::now();
    let expected = format!(
        "INV-{}-{:02}-0001",
        chrono::Datelike::year(&now),
        chrono::Datelike::month(&now)
    );
    assert_eq!(n, expected);
}

#[test]
fn uninitialized_state_reports_not_initialized() {
    let state = AppState::new();
    assert_eq!(state.check_database_health().expect("health"), false);
    let err = state.get_customers(None, None).unwrap_err();
    assert_eq!(err.error, "DatabaseNotInitialized");
    assert_eq!(err.message, "Database not initialized");
    let err = state.get_next_invoice_number(None).unwrap_err();
    assert_eq!(err.error, "DatabaseNotInitialized");
}

#[test]
fn attached_state_serves_commands() {
    let mut state = AppState::new();
    state.attach(fresh_db());
    assert_eq!(state.check_database_health().expect("health"), true);
    assert!(state.get_customers(None, None).expect("list").is_empty());
    let n = state.get_next_invoice_number(None).expect("number");
    assert!(n.starts_with("INV-"));
    assert!(n.ends_with("-0001"));
    let states = state.get_indian_states().expect("states");
    assert_eq!(states.len(), 36);
}

#[test]
fn decoders_accept_encoded_rows_and_reject_malformed_ones() {
    let cells = vec![
        Cell::Int(3),
        Cell::Text(String::from("29")),
        Cell::Text(String::from("Karnataka")),
        Cell::Int(0),
        Cell::Int(1),
    ];
    let s = state_from_cells(&cells).expect("decodes");
    assert_eq!(s.id, Some(3));
    assert_eq!(s.state_code, "29");
    assert!(!s.is_union_territory);
    assert!(s.is_active);
    let bad = vec![
        Cell::Int(3),
        Cell::Null,
        Cell::Text(String::from("Karnataka")),
        Cell::Int(0),
        Cell::Int(1),
    ];
    assert!(state_from_cells(&bad).is_none());
    assert!(state_from_cells(&vec![Cell::Int(1)]).is_none());
}

#[test]
fn invoice_decoder_reads_a_full_header_row() {
    let t = |s: &str| Cell::Text(String::from(s));
    let cells = vec![
        Cell::Int(7),
        t("INV-2025-07-0001"),
        t("2025-07-15"),
        Cell::Int(4),
        t("REGULAR"),
        t("29"),
        Cell::Int(0),
        Cell::Int(100000),
        Cell::Int(5000),
        Cell::Int(95000),
        Cell::Int(8550),
        Cell::Int(8550),
        Cell::Int(0),
        Cell::Int(0),
        Cell::Int(17100),
        Cell::Int(112100),
        Cell::Int(0),
        Cell::Int(112100),
        Cell::Null,
        t("2025-08-14"),
        t("DRAFT"),
        Cell::Null,
        Cell::Null,
        Cell::Null,
    ];
    let inv = invoice_from_cells(&cells).expect("decodes");
    assert_eq!(inv.id, Some(7));
    assert_eq!(inv.invoice_number, "INV-2025-07-0001");
    assert_eq!(inv.customer_id, 4);
    assert!(!inv.reverse_charge);
    assert_eq!(inv.final_amount, 112100);
    assert_eq!(inv.payment_terms, None);
    assert_eq!(inv.due_date.as_deref(), Some("2025-08-14"));
    assert_eq!(inv.status, "DRAFT");
    let mut bad = cells.clone();
    bad[6] = Cell::Int(7);
    assert!(invoice_from_cells(&bad).is_none());
}

#[test]
fn mutating_one_table_leaves_the_others_alone() {
    let mut db = fresh_db();
    let pid = db
        .save_product(&invoice_store::products::Product {
            id: None,
            product_code: String::from("P-100"),
            product_name: String::from("Basmati Rice"),
            description: None,
            hsn_sac_code: String::from("1006"),
            product_type: String::from("GOODS"),
            unit_of_measurement: String::from("NOS"),
            rate: 100,
            gst_rate: 1800,
            cess_rate: 0,
            is_active: true,
        })
        .expect("insert product");
    let sid = db.save_company_settings(&settings("Acme Pvt Ltd")).expect("insert profile");
    let cid = db
        .save_customer(&invoice_store::customers::Customer {
            id: None,
            customer_name: String::from("Acme Industries"),
            gstin: None,
            pan: None,
            customer_type: String::from("B2B"),
            address_line1: String::from("1 Main Road"),
            address_line2: None,
            city: String::from("Bengaluru"),
            state: String::from("Karnataka"),
            pincode: String::from("560001"),
            phone: None,
            email: None,
            credit_limit: 0,
            credit_period_days: 0,
            is_active: true,
        })
        .expect("insert customer");
    assert!(db.delete_customer(cid).expect("delete customer"));
    let p = db.get_product_by_id(pid).expect("lookup").expect("product untouched");
    assert_eq!(p.product_name, "Basmati Rice");
    let s = db.get_company_settings().expect("read").expect("profile untouched");
    assert_eq!(s.id, Some(sid));
    assert_eq!(db.get_indian_states().expect("states").len(), 36);
}
