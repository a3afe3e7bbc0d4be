use konjingjing::tables::{amphoe_for, person_type_for, province_for};

#[test]
fn test_person_type_table_bounds() {
    assert!(person_type_for(0).is_none());
    assert!(person_type_for(9).is_none());
    assert!(person_type_for(10).is_none());
    assert!(person_type_for(255).is_none());
    for code in 1..=8u8 {
        let entry = person_type_for(code).unwrap();
        assert_eq!(entry.code, code);
        assert!(!entry.description_th.is_empty());
        assert!(!entry.description_en.is_empty());
    }
}

#[test]
fn test_province_table_entries() {
    let bangkok = province_for(10).unwrap();
    assert_eq!(bangkok.code, 10);
    assert_eq!(bangkok.name_th, "กรุงเทพมหานคร");
    assert_eq!(bangkok.name_en, "Bangkok");

    let narathiwat = province_for(96).unwrap();
    assert_eq!(narathiwat.name_en, "Narathiwat");
}

#[test]
fn test_province_table_gaps() {
    for code in [0u8, 1, 9, 28, 29, 59, 68, 69, 78, 79, 87, 88, 89, 97, 100, 255] {
        assert!(province_for(code).is_none(), "code {} should miss", code);
    }
}

#[test]
fn test_province_table_count() {
    let mut count = 0;
    for code in 0..=255u8 {
        if province_for(code).is_some() {
            count += 1;
        }
    }
    assert_eq!(count, 77);
}

#[test]
fn test_amphoe_table_entries() {
    let huai_khwang = amphoe_for(1017).unwrap();
    assert_eq!(huai_khwang.code, 1017);
    assert_eq!(huai_khwang.name_th, "ห้วยขวาง");

    let phra_nakhon = amphoe_for(1001).unwrap();
    assert_eq!(phra_nakhon.name_th, "พระนคร");
}

#[test]
fn test_amphoe_table_misses() {
    assert!(amphoe_for(0).is_none());
    assert!(amphoe_for(1000).is_none());
    assert!(amphoe_for(1051).is_none());
    assert!(amphoe_for(1120).is_none());
    assert!(amphoe_for(9999).is_none());
}

#[test]
fn test_amphoe_codes_carry_province_prefix() {
    for code in 1000..=1200u16 {
        if let Some(amphoe) = amphoe_for(code) {
            let prefix = (amphoe.code / 100) as u8;
            assert!(province_for(prefix).is_some());
        }
    }
}
