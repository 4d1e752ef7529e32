use classgate::entry::{
    class_name_of_entry, classify, decrypt_payload, has_magic, normalize_class_name, plan_entry,
    EntryInfo, EntryKind, EntryPlan, ENCRYPT_MAGIC_NUMBER,
};
use classgate::strategy::{DecryptionStrategy, Identity, XorCipher};

fn info(name: &str, enclosed: bool, is_file: bool) -> EntryInfo {
    EntryInfo { name: name.to_string(), enclosed, is_file }
}

#[test]
fn marker_is_the_number_lowest_byte_first() {
    assert!(has_magic(&ENCRYPT_MAGIC_NUMBER.to_le_bytes()));
    assert!(has_magic(&[0xDE, 0xC0, 0xAD, 0xDE]));
    assert!(!has_magic(&[0xDE, 0xAD, 0xC0, 0xDE]));
}

#[test]
fn marker_needs_four_bytes() {
    assert!(!has_magic(&[]));
    assert!(!has_magic(&[0xDE, 0xC0, 0xAD]));
    assert!(has_magic(&[0xDE, 0xC0, 0xAD, 0xDE, 0x00, 0x01]));
}

#[test]
fn marker_is_checked_byte_by_byte() {
    assert!(!has_magic(&[0xDF, 0xC0, 0xAD, 0xDE]));
    assert!(!has_magic(&[0xDE, 0xC1, 0xAD, 0xDE]));
    assert!(!has_magic(&[0xDE, 0xC0, 0xAC, 0xDE]));
    assert!(!has_magic(&[0xDE, 0xC0, 0xAD, 0xDF]));
    assert!(!has_magic(&[0xCA, 0xFE, 0xBA, 0xBE]));
}

#[test]
fn runtime_names_get_dots() {
    assert_eq!(normalize_class_name("pkg/sub/Foo"), "pkg.sub.Foo");
    assert_eq!(normalize_class_name("Foo"), "Foo");
    assert_eq!(normalize_class_name(""), "");
    assert_eq!(normalize_class_name("a//b/"), "a..b.");
}

#[test]
fn reserved_entry_yields_dotted_key() {
    assert_eq!(
        class_name_of_entry("META-INF/.classes/pkg/sub/Foo"),
        Some("pkg.sub.Foo".to_string())
    );
    assert_eq!(class_name_of_entry("META-INF/.classes/Foo"), Some("Foo".to_string()));
    assert_eq!(class_name_of_entry("META-INF/.classes/"), Some(String::new()));
}

#[test]
fn reserved_entry_keeps_its_extension() {
    assert_eq!(
        class_name_of_entry("META-INF/.classes/pkg/sub/Foo.class"),
        Some("pkg.sub.Foo.class".to_string())
    );
}

#[test]
fn entry_key_equals_runtime_key() {
    let path = "com/example/app/Main$Inner";
    let entry = format!("META-INF/.classes/{}", path);
    assert_eq!(class_name_of_entry(&entry), Some(normalize_class_name(path)));
}

#[test]
fn names_outside_the_reserved_directory_have_no_class() {
    assert_eq!(class_name_of_entry("pkg/sub/Foo.class"), None);
    assert_eq!(class_name_of_entry("META-INF/.classes"), None);
    assert_eq!(class_name_of_entry("meta-inf/.classes/Foo"), None);
    assert_eq!(class_name_of_entry(""), None);
}

#[test]
fn classifies_by_flags_first() {
    assert_eq!(classify(&info("META-INF/.classes/Foo", false, true)), EntryKind::Unenclosed);
    assert_eq!(classify(&info("lib/inner.jar", false, true)), EntryKind::Unenclosed);
    assert_eq!(classify(&info("META-INF/.classes/", true, false)), EntryKind::NotAFile);
    assert_eq!(classify(&info("dir.jar", true, false)), EntryKind::NotAFile);
}

#[test]
fn classifies_nested_before_reserved() {
    assert_eq!(classify(&info("lib/inner.jar", true, true)), EntryKind::Nested);
    assert_eq!(classify(&info("META-INF/.classes/inner.jar", true, true)), EntryKind::Nested);
    assert_eq!(classify(&info(".jar", true, true)), EntryKind::Nested);
}

#[test]
fn classifies_ordinary_and_protected() {
    assert_eq!(classify(&info("com/example/Foo.class", true, true)), EntryKind::Ordinary);
    assert_eq!(classify(&info("META-INF/MANIFEST.MF", true, true)), EntryKind::Ordinary);
    assert_eq!(classify(&info("meta-inf/.classes/Foo", true, true)), EntryKind::Ordinary);
    assert_eq!(classify(&info("x/META-INF/.classes/Foo", true, true)), EntryKind::Ordinary);
    assert_eq!(classify(&info("lib/inner.jar.bak", true, true)), EntryKind::Ordinary);
    assert_eq!(classify(&info("", true, true)), EntryKind::Ordinary);
    assert_eq!(classify(&info("META-INF/.classes/pkg/Foo", true, true)), EntryKind::Protected);
    assert_eq!(classify(&info("META-INF/.classes/", true, true)), EntryKind::Protected);
}

#[test]
fn payload_is_what_follows_the_marker() {
    let data = [0xDE, 0xC0, 0xAD, 0xDE, 1, 2, 3];
    assert_eq!(decrypt_payload(&Identity, &data), Some(vec![1, 2, 3]));
    assert_eq!(decrypt_payload(&Identity, &[0xDE, 0xC0, 0xAD, 0xDE]), Some(vec![]));
}

#[test]
fn payload_without_marker_is_refused() {
    assert_eq!(decrypt_payload(&Identity, &[0xCA, 0xFE, 0xBA, 0xBE, 1, 2]), None);
    assert_eq!(decrypt_payload(&Identity, &[0xDE, 0xC0]), None);
    assert_eq!(decrypt_payload(&Identity, &[]), None);
}

#[test]
fn identity_hands_bytes_back() {
    assert_eq!(Identity.transform(&[9, 8, 7]), vec![9, 8, 7]);
    assert_eq!(Identity.transform(&[]), Vec::<u8>::new());
}

#[test]
fn xor_cipher_flips_the_key_bits() {
    let cipher = XorCipher { key: 0xFF };
    assert_eq!(cipher.transform(&[0x00, 0x0F, 0xFF]), vec![0xFF, 0xF0, 0x00]);
    let cipher = XorCipher { key: 0x5A };
    assert_eq!(cipher.transform(&cipher.transform(&[1, 2, 3])), vec![1, 2, 3]);
    assert_eq!(decrypt_payload(&cipher, &[0xDE, 0xC0, 0xAD, 0xDE, 0x5A, 0x00]), Some(vec![0, 0x5A]));
}

#[test]
fn plan_follows_nesting_while_depth_lasts() {
    let nested = info("lib/inner.jar", true, true);
    assert!(matches!(plan_entry(Some(&nested), 1), EntryPlan::Follow));
    assert!(matches!(plan_entry(Some(&nested), 16), EntryPlan::Follow));
    assert!(matches!(plan_entry(Some(&nested), 0), EntryPlan::Skip));
}

#[test]
fn plan_stores_protected_copies_at_any_depth() {
    let copy = info("META-INF/.classes/pkg/sub/Foo", true, true);
    match plan_entry(Some(&copy), 0) {
        EntryPlan::Store(name) => assert_eq!(name, "pkg.sub.Foo"),
        other => panic!("unexpected plan {:?}", other),
    }
    match plan_entry(Some(&copy), 3) {
        EntryPlan::Store(name) => assert_eq!(name, "pkg.sub.Foo"),
        other => panic!("unexpected plan {:?}", other),
    }
}

#[test]
fn plan_skips_everything_else() {
    assert!(matches!(plan_entry(None, 4), EntryPlan::Skip));
    assert!(matches!(plan_entry(Some(&info("pkg/Foo.class", true, true)), 4), EntryPlan::Skip));
    assert!(matches!(plan_entry(Some(&info("META-INF/.classes/", true, false)), 4), EntryPlan::Skip));
    assert!(matches!(plan_entry(Some(&info("lib/inner.jar", false, true)), 4), EntryPlan::Skip));
    assert!(matches!(
        plan_entry(Some(&info("META-INF/.classes/Foo", false, true)), 4),
        EntryPlan::Skip
    ));
}
