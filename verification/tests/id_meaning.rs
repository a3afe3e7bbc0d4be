use konjingjing::get_id_meaning;

#[test]
fn test_get_id_meaning_valid() {
    let meaning = get_id_meaning("1112034563562").unwrap();
    assert_eq!(meaning.person_type.code, 1);
    let province = meaning.province.unwrap();
    assert_eq!(province.code, 11);
    assert_eq!(province.name_en, "Samut Prakan");
    assert!(meaning.is_valid);
}

#[test]
fn test_get_id_meaning_bangkok() {
    let meaning = get_id_meaning("1101700230703").unwrap();
    let province = meaning.province.unwrap();
    assert_eq!(province.code, 10);
    assert_eq!(province.name_en, "Bangkok");
    assert_eq!(province.name_th, "กรุงเทพมหานคร");
    let amphoe = meaning.amphoe.unwrap();
    assert_eq!(amphoe.code, 1017);
    assert_eq!(amphoe.name_th, "ห้วยขวาง");
    // The check digit owed to this prefix is 8, not 3.
    assert!(!meaning.is_valid);
}

#[test]
fn test_get_id_meaning_invalid_format() {
    assert!(get_id_meaning("").is_none());
    assert!(get_id_meaning("123").is_none());
    assert!(get_id_meaning("abcdefghijklm").is_none());
}

#[test]
fn test_get_id_meaning_invalid_person_type() {
    assert!(get_id_meaning("0101700230704").is_none());
    assert!(get_id_meaning("9101700230701").is_none());
    // Even a checksum-correct number is refused on its leading digit.
    assert!(get_id_meaning("0101700230700").is_none());
}

#[test]
fn test_get_id_meaning_every_person_type() {
    for code in 1..=8u8 {
        let id = format!("{}101700230700", code);
        let meaning = get_id_meaning(&id).unwrap();
        assert_eq!(meaning.person_type.code, code);
        assert!(!meaning.person_type.description_th.is_empty());
        assert!(!meaning.person_type.description_en.is_empty());
    }
    for code in [0u8, 9] {
        let id = format!("{}101700230700", code);
        assert!(get_id_meaning(&id).is_none());
    }
}

#[test]
fn test_get_id_meaning_unknown_province() {
    // No province carries code 28, and no district carries 2801;
    // the identifier still decodes.
    let meaning = get_id_meaning("1280100230701").unwrap();
    assert!(meaning.province.is_none());
    assert!(meaning.amphoe.is_none());
    assert_eq!(meaning.person_type.code, 1);
}

#[test]
fn test_get_id_meaning_known_province_unknown_amphoe() {
    // District 1051 has no entry, but its province prefix 10 does;
    // the lookups are independent.
    let meaning = get_id_meaning("1105100000001").unwrap();
    let province = meaning.province.unwrap();
    assert_eq!(province.code, 10);
    assert_eq!(province.name_en, "Bangkok");
    assert!(meaning.amphoe.is_none());
}

#[test]
fn test_get_id_meaning_checksum_mismatch_still_decodes() {
    let meaning = get_id_meaning("1101700230705").unwrap();
    assert!(!meaning.is_valid);
    assert_eq!(meaning.province.unwrap().code, 10);
    assert_eq!(meaning.amphoe.unwrap().code, 1017);
}

#[test]
fn test_get_id_meaning_checksum_match_sets_valid() {
    let meaning = get_id_meaning("1101700230708").unwrap();
    assert!(meaning.is_valid);
}

#[test]
fn test_get_id_meaning_repeated_calls_agree() {
    let first = get_id_meaning("1101700230703").unwrap();
    let second = get_id_meaning("1101700230703").unwrap();
    assert_eq!(first.person_type.code, second.person_type.code);
    assert_eq!(first.person_type.description_th, second.person_type.description_th);
    assert_eq!(first.person_type.description_en, second.person_type.description_en);
    assert_eq!(first.province.as_ref().unwrap().code, second.province.as_ref().unwrap().code);
    assert_eq!(
        first.province.as_ref().unwrap().name_th,
        second.province.as_ref().unwrap().name_th
    );
    assert_eq!(first.amphoe.as_ref().unwrap().code, second.amphoe.as_ref().unwrap().code);
    assert_eq!(
        first.amphoe.as_ref().unwrap().name_th,
        second.amphoe.as_ref().unwrap().name_th
    );
    assert_eq!(first.is_valid, second.is_valid);
}
