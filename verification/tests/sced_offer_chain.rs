use grid_kernel::canonical_core::canonicalize::{build_hash_chain, expected_headers, parse_csv};
use grid_kernel::sced_offer_chain::{
    compute_canonical_truth, verify_records, verify_truth_package, ParseError, ScedResourceOfferRecord,
    VerifyCode,
};

fn normalize(raw: &str) -> Option<String> {
    raw.parse::<f64>().ok().map(|v| format!("{v:.6}"))
}

fn mk_record(ts: &str, repeat: bool, resource: &str, offer: &str, first: &str) -> ScedResourceOfferRecord {
    let mut fields = std::array::from_fn::<_, 48, _>(|_| "0.000000".to_string());
    fields[0] = first.to_string();
    ScedResourceOfferRecord {
        scd_timestamp: ts.to_string(),
        repeat_hour_flag: repeat,
        resource_name: resource.to_string(),
        offer_type: offer.to_string(),
        prices_and_quantities: fields,
    }
}

fn one_row_csv(values: &str) -> String {
    format!(
        "{}\n{}\n",
        expected_headers().join(","),
        ["2026-01-21T23:55:18", "false", "RES", "OFFNS", values].join(",")
    )
}

#[test]
fn canonical_order_is_fixed() {
    let r = mk_record("2026-01-21T23:55:18", false, "7RNCHSLR_UNIT1", "OFFNS", "186.140000");
    let serialized = r.canonical_record_string();
    assert!(serialized.starts_with("2026-01-21T23:55:18|false|7RNCHSLR_UNIT1|186.140000|"));
    assert!(serialized.ends_with("|OFFNS"));
}

#[test]
fn schema_order_mismatch_fails() {
    let csv = "repeat_hour_flag,scd_timestamp,resource_name,offer_type\nfalse,2026-01-21T23:55:18,RES,OFFNS\n";
    let err = parse_csv(csv.as_bytes(), normalize).expect_err("must fail schema mismatch");
    assert_eq!(err, ParseError::CsvSchemaMismatch);
}

#[test]
fn bool_is_strict_lowercase_only() {
    let csv = format!(
        "{}\n{}\n",
        expected_headers().join(","),
        ["2026-01-21T23:55:18", "TRUE", "RES", "OFFNS", &vec!["0"; 48].join(",")].join(",")
    );
    let err = parse_csv(csv.as_bytes(), normalize).expect_err("must reject TRUE");
    assert_eq!(err, ParseError::InvalidBoolean("TRUE".to_string()));
}

#[test]
fn repeat_hour_flag_accepts_only_true_and_false() {
    for (flag, expected) in [(" true ", Ok(true)), ("false", Ok(false))] {
        let csv = format!(
            "{}\n{}\n",
            expected_headers().join(","),
            ["2026-01-21T23:55:18", flag, "RES", "OFFNS", &vec!["0"; 48].join(",")].join(",")
        );
        let records = parse_csv(csv.as_bytes(), normalize);
        assert_eq!(records.map(|r| r[0].repeat_hour_flag), expected);
    }
    for flag in ["Y", "y", "N", "n", "True"] {
        let csv = format!(
            "{}\n{}\n",
            expected_headers().join(","),
            ["2026-01-21T23:55:18", flag, "RES", "OFFNS", &vec!["0"; 48].join(",")].join(",")
        );
        let err = parse_csv(csv.as_bytes(), normalize).expect_err("must reject");
        assert_eq!(err, ParseError::InvalidBoolean(flag.to_string()));
    }
}

#[test]
fn numeric_normalization_is_canonical_fixed_6() {
    let header = expected_headers().join(",");
    let mut vals = vec![
        "2026-01-21T23:55:18".to_string(),
        "false".to_string(),
        "RES".to_string(),
        "OFFNS".to_string(),
    ];
    vals.push("1".to_string());
    vals.push("1.0".to_string());
    vals.extend(vec!["0".to_string(); 46]);
    let csv = format!("{}\n{}\n", header, vals.join(","));

    let parsed = parse_csv(csv.as_bytes(), normalize).expect("parse ok");
    assert_eq!(parsed[0].prices_and_quantities[0], "1.000000");
    assert_eq!(parsed[0].prices_and_quantities[1], "1.000000");
}

#[test]
fn dst_fallback_uniqueness_uses_repeat_hour_flag() {
    let a = mk_record("2026-11-01T01:30:00", false, "RES_A", "OFFNS", "10.000000");
    let b = mk_record("2026-11-01T01:30:00", true, "RES_A", "OFFNS", "10.000000");
    let chain = build_hash_chain(vec![b, a]).expect("chain should build");
    assert_eq!(chain.len(), 2);
    assert_eq!(chain[0].key.1, false);
    assert_eq!(chain[1].key.1, true);
}

#[test]
fn empty_file_behavior_passes_with_genesis_hash() {
    let report = verify_records(vec![], Some("0"), Some(0));
    assert_eq!(report.status, "PASS");
    assert_eq!(report.final_chain_hash, "0");
    assert_eq!(report.records_verified, 0);
    assert!(report.errors.is_empty());
}

#[test]
fn record_count_binding_enforced() {
    let r = mk_record("2026-01-21T23:55:18", false, "RES", "OFFNS", "1.000000");
    let report = verify_records(vec![r], None, Some(2));
    assert_eq!(report.status, "FAIL");
    assert_eq!(report.errors[0].code, VerifyCode::RecordCountMismatch);
}

#[test]
fn mismatch_index_is_zero_based_after_sort() {
    let r = mk_record("2026-01-21T23:55:18", false, "RES", "OFFNS", "1.000000");
    let report = verify_records(vec![r], Some("not-a-real-hash"), Some(1));
    assert_eq!(report.status, "FAIL");
    assert_eq!(report.mismatch_index, Some(0));
    assert_eq!(report.errors[0].code, VerifyCode::HashMismatch);
}

#[test]
fn verifier_uses_serialized_bytes_not_struct_fields() {
    let r = mk_record("2026-01-21T23:55:18", false, "RES", "OFFNS", "1.000000");
    let mut truth = compute_canonical_truth(one_row_csv(&vec!["1"; 48].join(",")).as_bytes(), normalize)
        .expect("truth package should build");
    assert_eq!(truth.records.len(), 1);
    let _ = r;

    truth.canonical_payload_bytes[4] ^= 0x01;
    let report = verify_truth_package(&truth, None);
    assert_eq!(report.status, "FAIL");
    assert_eq!(report.errors[0].code, VerifyCode::HashMismatch);
}

#[test]
fn struct_tamper_after_serialization_does_not_break_verification() {
    let mut truth = compute_canonical_truth(one_row_csv(&vec!["1"; 48].join(",")).as_bytes(), normalize)
        .expect("truth package should build");
    truth.records[0].resource_name = "TAMPERED_STRUCT_ONLY".to_string();
    let expected = truth.final_chain_hash.clone();
    let report = verify_truth_package(&truth, Some(&expected));
    assert_eq!(report.status, "PASS");
}

#[test]
fn computed_package_verifies_with_its_own_final_hash() {
    let csv = format!(
        "{}\n{}\n{}\n",
        expected_headers().join(","),
        ["2026-01-21T23:55:18", "true", "RES_B", "OFFNS", &vec!["2"; 48].join(",")].join(","),
        ["2026-01-21T23:55:18", "false", "RES_A", "OFFNS", &vec!["1"; 48].join(",")].join(",")
    );
    let truth = compute_canonical_truth(csv.as_bytes(), normalize).expect("truth package should build");
    assert_eq!(truth.records.len(), 2);
    assert_eq!(truth.metadata.records_total, 2);
    assert_eq!(truth.metadata.schema_version, "sced.v1");
    assert_eq!(truth.metadata.hash_spec_version, "sha256.chain.v1");
    assert_eq!(truth.records[0].repeat_hour_flag, false);
    assert_eq!(truth.chain.last().unwrap().chain_hash, truth.final_chain_hash);
    let report = verify_truth_package(&truth, Some(&truth.final_chain_hash.clone()));
    assert_eq!(report.status, "PASS");
    assert_eq!(report.records_verified, 2);
    assert!(report.errors.is_empty());
}

#[test]
fn duplicate_primary_key_is_refused() {
    let a = mk_record("2026-01-21T23:55:18", false, "RES", "OFFNS", "1.000000");
    let b = mk_record("2026-01-21T23:55:18", false, "RES", "OFFNS", "2.000000");
    let err = build_hash_chain(vec![a, b]).expect_err("duplicate key");
    assert_eq!(
        err,
        ParseError::DuplicatePrimaryKey(
            "2026-01-21T23:55:18".to_string(),
            false,
            "RES".to_string(),
            "OFFNS".to_string()
        )
    );
}

#[test]
fn blank_and_null_numeric_fields_become_zero() {
    let mut vals = vec!["".to_string(), "NuLl".to_string()];
    vals.extend(vec!["3.5".to_string(); 46]);
    let parsed = parse_csv(one_row_csv(&vals.join(",")).as_bytes(), normalize).expect("parse ok");
    assert_eq!(parsed[0].prices_and_quantities[0], "0.000000");
    assert_eq!(parsed[0].prices_and_quantities[1], "0.000000");
    assert_eq!(parsed[0].prices_and_quantities[2], "3.500000");
}

#[test]
fn unparsable_numeric_field_is_refused_with_its_name() {
    let mut vals = vec!["abc".to_string()];
    vals.extend(vec!["0".to_string(); 47]);
    let err = parse_csv(one_row_csv(&vals.join(",")).as_bytes(), normalize).expect_err("bad number");
    assert_eq!(err, ParseError::InvalidNumeric("price1_urs".to_string(), "abc".to_string()));
}

#[test]
fn missing_key_field_is_refused() {
    let csv = format!(
        "{}\n{}\n",
        expected_headers().join(","),
        ["2026-01-21T23:55:18", "false", "  ", "OFFNS", &vec!["0"; 48].join(",")].join(",")
    );
    let err = parse_csv(csv.as_bytes(), normalize).expect_err("blank resource");
    assert_eq!(err, ParseError::MissingValue("resource_name".to_string()));
}

#[test]
fn short_row_is_malformed() {
    let csv = format!("{}\n{}\n", expected_headers().join(","), "a,b,c");
    let err = parse_csv(csv.as_bytes(), normalize).expect_err("short row");
    assert!(matches!(err, ParseError::MalformedCsv(_)));
}

#[test]
fn record_hash_is_sha256_of_canonical_text() {
    let r = mk_record("2026-01-21T23:55:18", false, "RES", "OFFNS", "1.000000");
    let h = r.record_hash();
    assert_eq!(h.len(), 64);
    assert_ne!(h, r.canonical_record_string());
    assert_eq!(r.primary_key(), ("2026-01-21T23:55:18", false, "RES", "OFFNS"));
}

#[test]
fn expected_header_has_fifty_two_fields_in_order() {
    let h = expected_headers();
    assert_eq!(h.len(), 52);
    assert_eq!(h[4], "price1_urs");
    assert_eq!(h[11], "quantity_mw1");
    assert_eq!(h[51], "quantity_mw6");
}
