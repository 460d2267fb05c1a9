use invoice_store::validation::{validate_gstin, validate_hsn_sac};

#[test]
fn gstin_well_formed_is_split_into_fields() {
    let r = validate_gstin("29ABCDE1234F1Z5");
    assert!(r.is_valid);
    assert_eq!(r.state_code.as_deref(), Some("29"));
    assert_eq!(r.pan_number.as_deref(), Some("ABCDE1234F"));
    assert_eq!(r.entity_number.as_deref(), Some("1"));
    assert_eq!(r.check_digit.as_deref(), Some("Z5"));
    assert!(r.error.is_none());
}

#[test]
fn gstin_wrong_length_reports_length_error() {
    let r = validate_gstin("123");
    assert!(!r.is_valid);
    assert_eq!(r.error.as_deref(), Some("GSTIN must be exactly 15 characters"));
    assert!(r.state_code.is_none());
    assert!(r.pan_number.is_none());
}

#[test]
fn gstin_is_upper_cased_before_splitting() {
    let r = validate_gstin("29abcde1234f1z5");
    assert!(r.is_valid);
    assert_eq!(r.pan_number.as_deref(), Some("ABCDE1234F"));
    assert_eq!(r.check_digit.as_deref(), Some("Z5"));
}

#[test]
fn gstin_non_digit_state_code_is_rejected() {
    let r = validate_gstin("A9ABCDE1234F1Z5");
    assert!(!r.is_valid);
    assert_eq!(r.error.as_deref(), Some("Invalid state code format"));
}

#[test]
fn sac_code_is_classified_with_flat_rate() {
    let r = validate_hsn_sac("996511");
    assert!(r.is_valid);
    assert_eq!(r.validation_type.as_deref(), Some("SAC"));
    assert_eq!(r.description.as_deref(), Some("SAC code for services"));
    assert_eq!(r.suggested_gst_rate, Some(18));
    assert_eq!(r.suggested_gst_rate.unwrap() as f64, 18.0);
    assert!(r.error.is_none());
}

#[test]
fn hsn_code_is_classified_with_flat_rate() {
    let r = validate_hsn_sac("1006");
    assert!(r.is_valid);
    assert_eq!(r.validation_type.as_deref(), Some("HSN"));
    assert_eq!(r.description.as_deref(), Some("HSN code for goods"));
    assert_eq!(r.suggested_gst_rate, Some(18));
    assert_eq!(r.suggested_gst_rate.unwrap() as f64, 18.0);
}

#[test]
fn empty_code_is_required_error() {
    let r = validate_hsn_sac("");
    assert!(!r.is_valid);
    assert_eq!(r.error.as_deref(), Some("HSN/SAC code is required"));
    assert!(r.validation_type.is_none());
    assert!(r.suggested_gst_rate.is_none());
}

#[test]
fn code_is_trimmed_before_classification() {
    let r = validate_hsn_sac("  1006  ");
    assert!(r.is_valid);
    assert_eq!(r.validation_type.as_deref(), Some("HSN"));
}

#[test]
fn whitespace_only_code_is_missing_like_empty_input() {
    let r = validate_hsn_sac("   ");
    assert!(!r.is_valid);
    assert_eq!(r.error.as_deref(), Some("HSN/SAC code is required"));
    assert!(r.validation_type.is_none());
}

#[test]
fn non_digit_and_out_of_range_codes_are_rejected() {
    assert!(!validate_hsn_sac("12a4").is_valid);
    assert!(!validate_hsn_sac("1").is_valid);
    assert!(!validate_hsn_sac("123456789").is_valid);
}

#[test]
fn five_digit_code_starting_99_is_goods_not_services() {
    let r = validate_hsn_sac("99001");
    assert!(r.is_valid);
    assert_eq!(r.validation_type.as_deref(), Some("HSN"));
}
