use edgars::filings::{is_valid_filing_type, FilingCategory, FilingFrequency, FormType, SecFormType};

#[test]
fn mod_display_and_from_str_roundtrip() {
    for &s in &[
        "10-K",
        "10-K/A",
        "8-K",
        "8-K/A",
        "DEF 14A",
        "S-3/A",
        "144/A",
        "SC 13D/A",
        "DEFM14A/A",
        "40-F/A",
        "25/A",
        "RW/Wd",
    ] {
        let f = FormType::from_str(s).expect(&format!("from_str failed for {}", s));
        let out = f.to_string();
        assert_eq!(out, s);
    }
}

#[test]
fn metadata_test_is_amendment() {
    assert!(FormType::TenKA.is_amendment());
    assert!(!FormType::TenK.is_amendment());
    assert!(FormType::EightKA.is_amendment());
}

#[test]
fn metadata_test_base_type() {
    assert_eq!(FormType::TenKA.base_type(), FormType::TenK);
    assert_eq!(FormType::TenK.base_type(), FormType::TenK);
    assert_eq!(FormType::S1A.base_type(), FormType::S1);
}

#[test]
fn metadata_test_category() {
    assert_eq!(FormType::TenK.category(), FilingCategory::PeriodicReport);
    assert_eq!(FormType::EightK.category(), FilingCategory::CurrentReport);
    assert_eq!(FormType::Form4.category(), FilingCategory::InsiderTrading);
}

#[test]
fn metadata_test_frequency() {
    assert_eq!(FormType::TenK.frequency(), FilingFrequency::Annual);
    assert_eq!(FormType::TenQ.frequency(), FilingFrequency::Quarterly);
    assert_eq!(FormType::EightK.frequency(), FilingFrequency::EventDriven);
}

#[test]
fn form_type_aliases_and_case() {
    assert_eq!(FormType::from_str(" 10k ").unwrap(), FormType::TenK);
    assert_eq!(FormType::from_str("sc13d/a").unwrap(), FormType::Sc13DA);
    assert_eq!(FormType::from_str("NT15D2").unwrap(), FormType::NT15D2);
    assert_eq!(FormType::from_canonical("RW/WD"), Some(FormType::RwWd));
    assert_eq!(FormType::from_canonical("10-k"), None);
    assert_eq!(SecFormType::from_str("d").unwrap(), SecFormType::FormD);
}

#[test]
fn unknown_form_type_is_a_validation_error() {
    match FormType::from_str("INVALID") {
        Err(edgars::errors::EdgarError::Validation(m)) => {
            assert_eq!(m, "unknown form type: INVALID")
        }
        other => panic!("unexpected result: {:?}", other),
    }
    assert!(is_valid_filing_type("10-K"));
    assert!(is_valid_filing_type("8-K"));
    assert!(!is_valid_filing_type("INVALID"));
    assert!(!is_valid_filing_type(""));
}

#[test]
fn amendments_share_the_metadata_of_their_base() {
    assert_eq!(FormType::TenKA.category(), FilingCategory::PeriodicReport);
    assert_eq!(FormType::TenKA.frequency(), FilingFrequency::Annual);
    assert_eq!(FormType::ThirteenFHrA.frequency(), FilingFrequency::Quarterly);
    assert_eq!(FormType::SixK.frequency(), FilingFrequency::SemiAnnual);
    assert_eq!(FormType::Rw.category(), FilingCategory::Other);
    assert_eq!(FormType::Rw.frequency(), FilingFrequency::AsNeeded);
    assert_eq!(FormType::NT10KA.category(), FilingCategory::Notification);
    assert_eq!(FormType::FormD.category(), FilingCategory::Offering);
    assert_eq!(FormType::F1A.category(), FilingCategory::Registration);
    assert_eq!(FormType::TenKA.as_str(), "10-K/A");
}

#[test]
fn display_and_from_str_roundtrip() {
    for &s in &[
        "10-K",
        "10-K/A",
        "8-K",
        "8-K/A",
        "DEF 14A",
        "S-3/A",
        "144/A",
        "SC 13D/A",
        "DEFM14A/A",
        "40-F/A",
        "25/A",
        "RW/Wd",
    ] {
        let f = SecFormType::from_str(s).expect(&format!("from_str failed for {}", s));
        let out = f.to_string();
        assert_eq!(out, s);
    }
}

#[test]
fn labels_read_back_but_for_one() {
    // Every form reads back from its own label, but for the one whose label
    // is written with a space that the reader does not expect.
    let forms = [
        SecFormType::TenK,
        SecFormType::TenQA,
        SecFormType::Def14C,
        SecFormType::DefC14CA,
        SecFormType::S11A,
        SecFormType::SB2A,
        SecFormType::FortyFR12GA,
        SecFormType::F6EF,
        SecFormType::ThirteenFNTA,
        SecFormType::Form5A,
        SecFormType::Pos462C,
        SecFormType::FormD,
        SecFormType::NT11K,
        SecFormType::RwWd,
    ];
    for f in forms {
        assert_eq!(SecFormType::from_str(&f.to_string()).unwrap(), f);
    }
    assert_eq!(SecFormType::NT15D2.to_string(), "NT 15D2");
    assert!(SecFormType::from_str("NT 15D2").is_err());
}

#[test]
fn roundtrip_serialization_preserves_data() {
    for &s in &["10-Q", "20-F/A", "13F-HR", "SC 13G/A", "424B5", "POS ASR", "NT 10-Q/A", "3", "D"] {
        let f = FormType::from_str(s).unwrap();
        assert_eq!(f.as_str(), s);
        assert_eq!(FormType::from_canonical(f.as_str()), Some(f));
    }
}

#[test]
fn test_is_amendment() {
    assert!(SecFormType::TenKA.is_amendment());
    assert!(!SecFormType::TenK.is_amendment());
    assert!(SecFormType::EightKA.is_amendment());
}

#[test]
fn test_base_type() {
    assert_eq!(SecFormType::TenKA.base_type(), SecFormType::TenK);
    assert_eq!(SecFormType::TenK.base_type(), SecFormType::TenK);
    assert_eq!(SecFormType::S1A.base_type(), SecFormType::S1);
}

#[test]
fn test_category() {
    assert_eq!(SecFormType::TenK.category(), FilingCategory::PeriodicReport);
    assert_eq!(SecFormType::EightK.category(), FilingCategory::CurrentReport);
    assert_eq!(SecFormType::Form4.category(), FilingCategory::InsiderTrading);
}

#[test]
fn test_frequency() {
    assert_eq!(SecFormType::TenK.frequency(), FilingFrequency::Annual);
    assert_eq!(SecFormType::TenQ.frequency(), FilingFrequency::Quarterly);
    assert_eq!(SecFormType::EightK.frequency(), FilingFrequency::EventDriven);
}
