use konjingjing::verify_id;

#[test]
fn test_verify_id_valid() {
    assert!(verify_id("1112034563562"));
}

#[test]
fn test_verify_id_invalid_checksum() {
    assert!(!verify_id("1101700230705"));
}

#[test]
fn test_verify_id_too_short() {
    assert!(!verify_id("110170023073"));
}

#[test]
fn test_verify_id_too_long() {
    assert!(!verify_id("11120345635620"));
}

#[test]
fn test_verify_id_contains_letters() {
    assert!(!verify_id("11017002070d3"));
    assert!(!verify_id("rytege54fsfsf"));
}

#[test]
fn test_verify_id_single_char() {
    assert!(!verify_id("0"));
    assert!(!verify_id("-"));
}

#[test]
fn test_verify_id_empty() {
    assert!(!verify_id(""));
}

#[test]
fn test_verify_id_garbage() {
    assert!(!verify_id("blablabla"));
}

#[test]
fn test_verify_id_rejects_non_ascii_digits() {
    // Thai digits spell the same number but are not ASCII digits.
    assert!(!verify_id("๑๑๑๒๐๓๔๕๖๓๕๖๒"));
}

#[test]
fn test_verify_id_rejects_whitespace() {
    assert!(!verify_id(" 1112034563562"));
    assert!(!verify_id("1112034563562 "));
    assert!(!verify_id("111203456356 2"));
}

#[test]
fn test_verify_id_check_digit_unique() {
    // Exactly one trailing digit completes each 12-digit prefix.
    let mut hits = 0;
    for d in 0..10 {
        let id = format!("111203456356{}", d);
        if verify_id(&id) {
            assert_eq!(d, 2);
            hits += 1;
        }
    }
    assert_eq!(hits, 1);

    let mut hits = 0;
    for d in 0..10 {
        let id = format!("110170023070{}", d);
        if verify_id(&id) {
            assert_eq!(d, 8);
            hits += 1;
        }
    }
    assert_eq!(hits, 1);
}

#[test]
fn test_verify_id_ignores_person_type() {
    // A checksum-correct number verifies even when its leading digit
    // names no registration category.
    assert!(verify_id("0101700230700"));
}

#[test]
fn test_verify_id_repeated_calls_agree() {
    for id in ["1112034563562", "1101700230705", "", "blablabla"] {
        assert_eq!(verify_id(id), verify_id(id));
    }
}
