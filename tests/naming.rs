use ble_midi_bridge::naming::{name_matches, NameRule};

const SUBSTRING: NameRule = NameRule { exact: false, ignore_ascii_case: false };
const EXACT: NameRule = NameRule { exact: true, ignore_ascii_case: false };
const SUBSTRING_ANY_CASE: NameRule = NameRule { exact: false, ignore_ascii_case: true };
const EXACT_ANY_CASE: NameRule = NameRule { exact: true, ignore_ascii_case: true };

#[test]
fn substring_anywhere_in_name() {
    assert!(name_matches("Roland CH-8 BLE", "CH-8", SUBSTRING));
    assert!(name_matches("CH-8", "CH-8", SUBSTRING));
    assert!(name_matches("xCH-8", "CH-8", SUBSTRING));
    assert!(!name_matches("CH-", "CH-8", SUBSTRING));
    assert!(!name_matches("ch-8", "CH-8", SUBSTRING));
    assert!(name_matches("anything", "", SUBSTRING));
}

#[test]
fn exact_needs_whole_name() {
    assert!(name_matches("CH-8", "CH-8", EXACT));
    assert!(!name_matches("CH-8 BLE", "CH-8", EXACT));
    assert!(!name_matches("CH-", "CH-8", EXACT));
}

#[test]
fn ascii_case_can_be_ignored() {
    assert!(name_matches("roland ch-8", "CH-8", SUBSTRING_ANY_CASE));
    assert!(name_matches("Ch-8", "cH-8", EXACT_ANY_CASE));
    assert!(!name_matches("Ch-9", "cH-8", EXACT_ANY_CASE));
}

#[test]
fn non_ascii_names() {
    assert!(name_matches("Klavier Größe", "öß", SUBSTRING));
    assert!(!name_matches("Klavier Größe", "ÖSS", SUBSTRING_ANY_CASE));
}
