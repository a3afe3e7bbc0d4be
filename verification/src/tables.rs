//! Immutable reference tables: registration categories ("person
//! types"), provinces, and districts ("amphoe").
//!
//! Each table exists once, as a total function from code to entry; a
//! lookup allocates nothing and mutates nothing, so any number of
//! callers may resolve codes concurrently.  The district table is a
//! sparse registry: a syntactically fine code may have no entry, which
//! is not an error.

use vstd::prelude::*;

verus! {

/// A registration category, keyed by the identifier's leading digit.
pub struct PersonType {
    pub code: u8,
    pub description_th: &'static str,
    pub description_en: &'static str,
}

/// A province, keyed by its 2-digit administrative code.
pub struct Province {
    pub code: u8,
    pub name_th: &'static str,
    pub name_en: &'static str,
}

/// A district, keyed by its 4-digit code: the 2-digit province code
/// followed by a 2-digit district suffix.  Only a Thai name is on
/// record; the registry carries no English district names.
pub struct Amphoe {
    pub code: u16,
    pub name_th: &'static str,
}

/// The person-type table: Thai and English descriptions for the
/// registration categories 1 through 8.  Codes 0 and 9 lie in the code
/// space but denote no valid category and have no entry.
pub open spec fn person_type_entry(code: u8) -> Option<(Seq<char>, Seq<char>)> {
    match code {
        1u8 => Some(("คนที่เกิดและมีสัญชาติไทย และได้แจ้งเกิดภายในกำหนดเวลา"@, "Thai citizen, birth registered within the legal time limit"@)),
        2u8 => Some(("คนที่เกิดและมีสัญชาติไทย แต่แจ้งเกิดเกินกำหนดเวลา"@, "Thai citizen, birth registered after the legal time limit"@)),
        3u8 => Some(("คนไทยหรือคนต่างด้าวที่มีชื่ออยู่ในทะเบียนบ้านก่อนวันที่ 31 พฤษภาคม 2527"@, "Thai or foreign national listed in a house register before 31 May 1984"@)),
        4u8 => Some(("คนไทยหรือคนต่างด้าวที่ย้ายเข้าทะเบียนบ้านโดยยังไม่มีเลขประจำตัวประชาชน"@, "Thai or foreign national who moved into a house register without an identification number"@)),
        5u8 => Some(("คนไทยที่ได้รับการเพิ่มชื่อเข้าทะเบียนบ้านภายหลัง เช่น กรณีตกสำรวจ"@, "Thai citizen added to a house register later, for example missed by the census"@)),
        6u8 => Some(("คนต่างด้าวที่เข้าเมืองโดยชอบด้วยกฎหมายแบบชั่วคราว หรือเข้าเมืองโดยไม่ชอบด้วยกฎหมาย"@, "Foreign national residing temporarily, or having entered without legal permission"@)),
        7u8 => Some(("บุตรของบุคคลประเภทที่ 6 ที่เกิดในประเทศไทย"@, "Child born in Thailand of a temporarily resident foreign national"@)),
        8u8 => Some(("คนต่างด้าวที่ได้รับอนุญาตให้มีถิ่นที่อยู่ถาวร หรือได้รับสัญชาติไทยโดยการแปลงสัญชาติ"@, "Foreign national granted permanent residence, or Thai citizenship by naturalisation"@)),
        _ => None,
    }
}

/// Resolve a registration-category code against the person-type table.
pub fn person_type_for(code: u8) -> (r: Option<PersonType>)
    ensures
        r.is_some() == person_type_entry(code).is_some(),
        (r matches Some(t) ==> t.code == code && Some((t.description_th@, t.description_en@))
            == person_type_entry(code)),
{
    match code {
        1 => Some(PersonType { code: 1, description_th: "คนที่เกิดและมีสัญชาติไทย และได้แจ้งเกิดภายในกำหนดเวลา", description_en: "Thai citizen, birth registered within the legal time limit" }),
        2 => Some(PersonType { code: 2, description_th: "คนที่เกิดและมีสัญชาติไทย แต่แจ้งเกิดเกินกำหนดเวลา", description_en: "Thai citizen, birth registered after the legal time limit" }),
        3 => Some(PersonType { code: 3, description_th: "คนไทยหรือคนต่างด้าวที่มีชื่ออยู่ในทะเบียนบ้านก่อนวันที่ 31 พฤษภาคม 2527", description_en: "Thai or foreign national listed in a house register before 31 May 1984" }),
        4 => Some(PersonType { code: 4, description_th: "คนไทยหรือคนต่างด้าวที่ย้ายเข้าทะเบียนบ้านโดยยังไม่มีเลขประจำตัวประชาชน", description_en: "Thai or foreign national who moved into a house register without an identification number" }),
        5 => Some(PersonType { code: 5, description_th: "คนไทยที่ได้รับการเพิ่มชื่อเข้าทะเบียนบ้านภายหลัง เช่น กรณีตกสำรวจ", description_en: "Thai citizen added to a house register later, for example missed by the census" }),
        6 => Some(PersonType { code: 6, description_th: "คนต่างด้าวที่เข้าเมืองโดยชอบด้วยกฎหมายแบบชั่วคราว หรือเข้าเมืองโดยไม่ชอบด้วยกฎหมาย", description_en: "Foreign national residing temporarily, or having entered without legal permission" }),
        7 => Some(PersonType { code: 7, description_th: "บุตรของบุคคลประเภทที่ 6 ที่เกิดในประเทศไทย", description_en: "Child born in Thailand of a temporarily resident foreign national" }),
        8 => Some(PersonType { code: 8, description_th: "คนต่างด้าวที่ได้รับอนุญาตให้มีถิ่นที่อยู่ถาวร หรือได้รับสัญชาติไทยโดยการแปลงสัญชาติ", description_en: "Foreign national granted permanent residence, or Thai citizenship by naturalisation" }),
        _ => None,
    }
}

/// The province table: Thai and English names for every province,
/// keyed by 2-digit code.
pub open spec fn province_entry(code: u8) -> Option<(Seq<char>, Seq<char>)> {
    match code {
        10u8 => Some(("กรุงเทพมหานคร"@, "Bangkok"@)),
        11u8 => Some(("สมุทรปราการ"@, "Samut Prakan"@)),
        12u8 => Some(("นนทบุรี"@, "Nonthaburi"@)),
        13u8 => Some(("ปทุมธานี"@, "Pathum Thani"@)),
        14u8 => Some(("พระนครศรีอยุธยา"@, "Phra Nakhon Si Ayutthaya"@)),
        15u8 => Some(("อ่างทอง"@, "Ang Thong"@)),
        16u8 => Some(("ลพบุรี"@, "Lopburi"@)),
        17u8 => Some(("สิงห์บุรี"@, "Sing Buri"@)),
        18u8 => Some(("ชัยนาท"@, "Chai Nat"@)),
        19u8 => Some(("สระบุรี"@, "Saraburi"@)),
        20u8 => Some(("ชลบุรี"@, "Chonburi"@)),
        21u8 => Some(("ระยอง"@, "Rayong"@)),
        22u8 => Some(("จันทบุรี"@, "Chanthaburi"@)),
        23u8 => Some(("ตราด"@, "Trat"@)),
        24u8 => Some(("ฉะเชิงเทรา"@, "Chachoengsao"@)),
        25u8 => Some(("ปราจีนบุรี"@, "Prachinburi"@)),
        26u8 => Some(("นครนายก"@, "Nakhon Nayok"@)),
        27u8 => Some(("สระแก้ว"@, "Sa Kaeo"@)),
        30u8 => Some(("นครราชสีมา"@, "Nakhon Ratchasima"@)),
        31u8 => Some(("บุรีรัมย์"@, "Buri Ram"@)),
        32u8 => Some(("สุรินทร์"@, "Surin"@)),
        33u8 => Some(("ศรีสะเกษ"@, "Si Sa Ket"@)),
        34u8 => Some(("อุบลราชธานี"@, "Ubon Ratchathani"@)),
        35u8 => Some(("ยโสธร"@, "Yasothon"@)),
        36u8 => Some(("ชัยภูมิ"@, "Chaiyaphum"@)),
        37u8 => Some(("อำนาจเจริญ"@, "Amnat Charoen"@)),
        38u8 => Some(("บึงกาฬ"@, "Bueng Kan"@)),
        39u8 => Some(("หนองบัวลำภู"@, "Nong Bua Lam Phu"@)),
        40u8 => Some(("ขอนแก่น"@, "Khon Kaen"@)),
        41u8 => Some(("อุดรธานี"@, "Udon Thani"@)),
        42u8 => Some(("เลย"@, "Loei"@)),
        43u8 => Some(("หนองคาย"@, "Nong Khai"@)),
        44u8 => Some(("มหาสารคาม"@, "Maha Sarakham"@)),
        45u8 => Some(("ร้อยเอ็ด"@, "Roi Et"@)),
        46u8 => Some(("กาฬสินธุ์"@, "Kalasin"@)),
        47u8 => Some(("สกลนคร"@, "Sakon Nakhon"@)),
        48u8 => Some(("นครพนม"@, "Nakhon Phanom"@)),
        49u8 => Some(("มุกดาหาร"@, "Mukdahan"@)),
        50u8 => Some(("เชียงใหม่"@, "Chiang Mai"@)),
        51u8 => Some(("ลำพูน"@, "Lamphun"@)),
        52u8 => Some(("ลำปาง"@, "Lampang"@)),
        53u8 => Some(("อุตรดิตถ์"@, "Uttaradit"@)),
        54u8 => Some(("แพร่"@, "Phrae"@)),
        55u8 => Some(("น่าน"@, "Nan"@)),
        56u8 => Some(("พะเยา"@, "Phayao"@)),
        57u8 => Some(("เชียงราย"@, "Chiang Rai"@)),
        58u8 => Some(("แม่ฮ่องสอน"@, "Mae Hong Son"@)),
        60u8 => Some(("นครสวรรค์"@, "Nakhon Sawan"@)),
        61u8 => Some(("อุทัยธานี"@, "Uthai Thani"@)),
        62u8 => Some(("กำแพงเพชร"@, "Kamphaeng Phet"@)),
        63u8 => Some(("ตาก"@, "Tak"@)),
        64u8 => Some(("สุโขทัย"@, "Sukhothai"@)),
        65u8 => Some(("พิษณุโลก"@, "Phitsanulok"@)),
        66u8 => Some(("พิจิตร"@, "Phichit"@)),
        67u8 => Some(("เพชรบูรณ์"@, "Phetchabun"@)),
        70u8 => Some(("ราชบุรี"@, "Ratchaburi"@)),
        71u8 => Some(("กาญจนบุรี"@, "Kanchanaburi"@)),
        72u8 => Some(("สุพรรณบุรี"@, "Suphan Buri"@)),
        73u8 => Some(("นครปฐม"@, "Nakhon Pathom"@)),
        74u8 => Some(("สมุทรสาคร"@, "Samut Sakhon"@)),
        75u8 => Some(("สมุทรสงคราม"@, "Samut Songkhram"@)),
        76u8 => Some(("เพชรบุรี"@, "Phetchaburi"@)),
        77u8 => Some(("ประจวบคีรีขันธ์"@, "Prachuap Khiri Khan"@)),
        80u8 => Some(("นครศรีธรรมราช"@, "Nakhon Si Thammarat"@)),
        81u8 => Some(("กระบี่"@, "Krabi"@)),
        82u8 => Some(("พังงา"@, "Phang Nga"@)),
        83u8 => Some(("ภูเก็ต"@, "Phuket"@)),
        84u8 => Some(("สุราษฎร์ธานี"@, "Surat Thani"@)),
        85u8 => Some(("ระนอง"@, "Ranong"@)),
        86u8 => Some(("ชุมพร"@, "Chumphon"@)),
        90u8 => Some(("สงขลา"@, "Songkhla"@)),
        91u8 => Some(("สตูล"@, "Satun"@)),
        92u8 => Some(("ตรัง"@, "Trang"@)),
        93u8 => Some(("พัทลุง"@, "Phatthalung"@)),
        94u8 => Some(("ปัตตานี"@, "Pattani"@)),
        95u8 => Some(("ยะลา"@, "Yala"@)),
        96u8 => Some(("นราธิวาส"@, "Narathiwat"@)),
        _ => None,
    }
}

/// Resolve a 2-digit code against the province table.
pub fn province_for(code: u8) -> (r: Option<Province>)
    ensures
        r.is_some() == province_entry(code).is_some(),
        (r matches Some(p) ==> p.code == code && Some((p.name_th@, p.name_en@))
            == province_entry(code)),
{
    match code {
        10 => Some(Province { code: 10, name_th: "กรุงเทพมหานคร", name_en: "Bangkok" }),
        11 => Some(Province { code: 11, name_th: "สมุทรปราการ", name_en: "Samut Prakan" }),
        12 => Some(Province { code: 12, name_th: "นนทบุรี", name_en: "Nonthaburi" }),
        13 => Some(Province { code: 13, name_th: "ปทุมธานี", name_en: "Pathum Thani" }),
        14 => Some(Province { code: 14, name_th: "พระนครศรีอยุธยา", name_en: "Phra Nakhon Si Ayutthaya" }),
        15 => Some(Province { code: 15, name_th: "อ่างทอง", name_en: "Ang Thong" }),
        16 => Some(Province { code: 16, name_th: "ลพบุรี", name_en: "Lopburi" }),
        17 => Some(Province { code: 17, name_th: "สิงห์บุรี", name_en: "Sing Buri" }),
        18 => Some(Province { code: 18, name_th: "ชัยนาท", name_en: "Chai Nat" }),
        19 => Some(Province { code: 19, name_th: "สระบุรี", name_en: "Saraburi" }),
        20 => Some(Province { code: 20, name_th: "ชลบุรี", name_en: "Chonburi" }),
        21 => Some(Province { code: 21, name_th: "ระยอง", name_en: "Rayong" }),
        22 => Some(Province { code: 22, name_th: "จันทบุรี", name_en: "Chanthaburi" }),
        23 => Some(Province { code: 23, name_th: "ตราด", name_en: "Trat" }),
        24 => Some(Province { code: 24, name_th: "ฉะเชิงเทรา", name_en: "Chachoengsao" }),
        25 => Some(Province { code: 25, name_th: "ปราจีนบุรี", name_en: "Prachinburi" }),
        26 => Some(Province { code: 26, name_th: "นครนายก", name_en: "Nakhon Nayok" }),
        27 => Some(Province { code: 27, name_th: "สระแก้ว", name_en: "Sa Kaeo" }),
        30 => Some(Province { code: 30, name_th: "นครราชสีมา", name_en: "Nakhon Ratchasima" }),
        31 => Some(Province { code: 31, name_th: "บุรีรัมย์", name_en: "Buri Ram" }),
        32 => Some(Province { code: 32, name_th: "สุรินทร์", name_en: "Surin" }),
        33 => Some(Province { code: 33, name_th: "ศรีสะเกษ", name_en: "Si Sa Ket" }),
        34 => Some(Province { code: 34, name_th: "อุบลราชธานี", name_en: "Ubon Ratchathani" }),
        35 => Some(Province { code: 35, name_th: "ยโสธร", name_en: "Yasothon" }),
        36 => Some(Province { code: 36, name_th: "ชัยภูมิ", name_en: "Chaiyaphum" }),
        37 => Some(Province { code: 37, name_th: "อำนาจเจริญ", name_en: "Amnat Charoen" }),
        38 => Some(Province { code: 38, name_th: "บึงกาฬ", name_en: "Bueng Kan" }),
        39 => Some(Province { code: 39, name_th: "หนองบัวลำภู", name_en: "Nong Bua Lam Phu" }),
        40 => Some(Province { code: 40, name_th: "ขอนแก่น", name_en: "Khon Kaen" }),
        41 => Some(Province { code: 41, name_th: "อุดรธานี", name_en: "Udon Thani" }),
        42 => Some(Province { code: 42, name_th: "เลย", name_en: "Loei" }),
        43 => Some(Province { code: 43, name_th: "หนองคาย", name_en: "Nong Khai" }),
        44 => Some(Province { code: 44, name_th: "มหาสารคาม", name_en: "Maha Sarakham" }),
        45 => Some(Province { code: 45, name_th: "ร้อยเอ็ด", name_en: "Roi Et" }),
        46 => Some(Province { code: 46, name_th: "กาฬสินธุ์", name_en: "Kalasin" }),
        47 => Some(Province { code: 47, name_th: "สกลนคร", name_en: "Sakon Nakhon" }),
        48 => Some(Province { code: 48, name_th: "นครพนม", name_en: "Nakhon Phanom" }),
        49 => Some(Province { code: 49, name_th: "มุกดาหาร", name_en: "Mukdahan" }),
        50 => Some(Province { code: 50, name_th: "เชียงใหม่", name_en: "Chiang Mai" }),
        51 => Some(Province { code: 51, name_th: "ลำพูน", name_en: "Lamphun" }),
        52 => Some(Province { code: 52, name_th: "ลำปาง", name_en: "Lampang" }),
        53 => Some(Province { code: 53, name_th: "อุตรดิตถ์", name_en: "Uttaradit" }),
        54 => Some(Province { code: 54, name_th: "แพร่", name_en: "Phrae" }),
        55 => Some(Province { code: 55, name_th: "น่าน", name_en: "Nan" }),
        56 => Some(Province { code: 56, name_th: "พะเยา", name_en: "Phayao" }),
        57 => Some(Province { code: 57, name_th: "เชียงราย", name_en: "Chiang Rai" }),
        58 => Some(Province { code: 58, name_th: "แม่ฮ่องสอน", name_en: "Mae Hong Son" }),
        60 => Some(Province { code: 60, name_th: "นครสวรรค์", name_en: "Nakhon Sawan" }),
        61 => Some(Province { code: 61, name_th: "อุทัยธานี", name_en: "Uthai Thani" }),
        62 => Some(Province { code: 62, name_th: "กำแพงเพชร", name_en: "Kamphaeng Phet" }),
        63 => Some(Province { code: 63, name_th: "ตาก", name_en: "Tak" }),
        64 => Some(Province { code: 64, name_th: "สุโขทัย", name_en: "Sukhothai" }),
        65 => Some(Province { code: 65, name_th: "พิษณุโลก", name_en: "Phitsanulok" }),
        66 => Some(Province { code: 66, name_th: "พิจิตร", name_en: "Phichit" }),
        67 => Some(Province { code: 67, name_th: "เพชรบูรณ์", name_en: "Phetchabun" }),
        70 => Some(Province { code: 70, name_th: "ราชบุรี", name_en: "Ratchaburi" }),
        71 => Some(Province { code: 71, name_th: "กาญจนบุรี", name_en: "Kanchanaburi" }),
        72 => Some(Province { code: 72, name_th: "สุพรรณบุรี", name_en: "Suphan Buri" }),
        73 => Some(Province { code: 73, name_th: "นครปฐม", name_en: "Nakhon Pathom" }),
        74 => Some(Province { code: 74, name_th: "สมุทรสาคร", name_en: "Samut Sakhon" }),
        75 => Some(Province { code: 75, name_th: "สมุทรสงคราม", name_en: "Samut Songkhram" }),
        76 => Some(Province { code: 76, name_th: "เพชรบุรี", name_en: "Phetchaburi" }),
        77 => Some(Province { code: 77, name_th: "ประจวบคีรีขันธ์", name_en: "Prachuap Khiri Khan" }),
        80 => Some(Province { code: 80, name_th: "นครศรีธรรมราช", name_en: "Nakhon Si Thammarat" }),
        81 => Some(Province { code: 81, name_th: "กระบี่", name_en: "Krabi" }),
        82 => Some(Province { code: 82, name_th: "พังงา", name_en: "Phang Nga" }),
        83 => Some(Province { code: 83, name_th: "ภูเก็ต", name_en: "Phuket" }),
        84 => Some(Province { code: 84, name_th: "สุราษฎร์ธานี", name_en: "Surat Thani" }),
        85 => Some(Province { code: 85, name_th: "ระนอง", name_en: "Ranong" }),
        86 => Some(Province { code: 86, name_th: "ชุมพร", name_en: "Chumphon" }),
        90 => Some(Province { code: 90, name_th: "สงขลา", name_en: "Songkhla" }),
        91 => Some(Province { code: 91, name_th: "สตูล", name_en: "Satun" }),
        92 => Some(Province { code: 92, name_th: "ตรัง", name_en: "Trang" }),
        93 => Some(Province { code: 93, name_th: "พัทลุง", name_en: "Phatthalung" }),
        94 => Some(Province { code: 94, name_th: "ปัตตานี", name_en: "Pattani" }),
        95 => Some(Province { code: 95, name_th: "ยะลา", name_en: "Yala" }),
        96 => Some(Province { code: 96, name_th: "นราธิวาส", name_en: "Narathiwat" }),
        _ => None,
    }
}

/// The district table: Thai names keyed by 4-digit code.  The registry
/// is sparse; a code without an entry simply resolves to nothing.
pub open spec fn amphoe_entry(code: u16) -> Option<Seq<char>> {
    match code {
        1001u16 => Some("พระนคร"@),
        1002u16 => Some("ดุสิต"@),
        1003u16 => Some("หนองจอก"@),
        1004u16 => Some("บางรัก"@),
        1005u16 => Some("บางเขน"@),
        1006u16 => Some("บางกะปิ"@),
        1007u16 => Some("ปทุมวัน"@),
        1008u16 => Some("ป้อมปราบศัตรูพ่าย"@),
        1009u16 => Some("พระโขนง"@),
        1010u16 => Some("มีนบุรี"@),
        1011u16 => Some("ลาดกระบัง"@),
        1012u16 => Some("ยานนาวา"@),
        1013u16 => Some("สัมพันธวงศ์"@),
        1014u16 => Some("พญาไท"@),
        1015u16 => Some("ธนบุรี"@),
        1016u16 => Some("บางกอกใหญ่"@),
        1017u16 => Some("ห้วยขวาง"@),
        1018u16 => Some("คลองสาน"@),
        1019u16 => Some("ตลิ่งชัน"@),
        1020u16 => Some("บางกอกน้อย"@),
        1021u16 => Some("บางขุนเทียน"@),
        1022u16 => Some("ภาษีเจริญ"@),
        1023u16 => Some("หนองแขม"@),
        1024u16 => Some("ราษฎร์บูรณะ"@),
        1025u16 => Some("บางพลัด"@),
        1026u16 => Some("ดินแดง"@),
        1027u16 => Some("บึงกุ่ม"@),
        1028u16 => Some("สาทร"@),
        1029u16 => Some("บางซื่อ"@),
        1030u16 => Some("จตุจักร"@),
        1031u16 => Some("บางคอแหลม"@),
        1032u16 => Some("ประเวศ"@),
        1033u16 => Some("คลองเตย"@),
        1034u16 => Some("สวนหลวง"@),
        1035u16 => Some("จอมทอง"@),
        1036u16 => Some("ดอนเมือง"@),
        1037u16 => Some("ราชเทวี"@),
        1038u16 => Some("ลาดพร้าว"@),
        1039u16 => Some("วัฒนา"@),
        1040u16 => Some("บางแค"@),
        1041u16 => Some("หลักสี่"@),
        1042u16 => Some("สายไหม"@),
        1043u16 => Some("คันนายาว"@),
        1044u16 => Some("สะพานสูง"@),
        1045u16 => Some("วังทองหลาง"@),
        1046u16 => Some("คลองสามวา"@),
        1047u16 => Some("บางนา"@),
        1048u16 => Some("ทวีวัฒนา"@),
        1049u16 => Some("ทุ่งครุ"@),
        1050u16 => Some("บางบอน"@),
        1101u16 => Some("เมืองสมุทรปราการ"@),
        1102u16 => Some("บางบ่อ"@),
        1103u16 => Some("บางพลี"@),
        1104u16 => Some("พระประแดง"@),
        1105u16 => Some("พระสมุทรเจดีย์"@),
        1106u16 => Some("บางเสาธง"@),
        _ => None,
    }
}

/// Resolve a 4-digit district code against the district table.
pub fn amphoe_for(code: u16) -> (r: Option<Amphoe>)
    ensures
        r.is_some() == amphoe_entry(code).is_some(),
        (r matches Some(a) ==> a.code == code && Some(a.name_th@) == amphoe_entry(code)),
{
    match code {
        1001 => Some(Amphoe { code: 1001, name_th: "พระนคร" }),
        1002 => Some(Amphoe { code: 1002, name_th: "ดุสิต" }),
        1003 => Some(Amphoe { code: 1003, name_th: "หนองจอก" }),
        1004 => Some(Amphoe { code: 1004, name_th: "บางรัก" }),
        1005 => Some(Amphoe { code: 1005, name_th: "บางเขน" }),
        1006 => Some(Amphoe { code: 1006, name_th: "บางกะปิ" }),
        1007 => Some(Amphoe { code: 1007, name_th: "ปทุมวัน" }),
        1008 => Some(Amphoe { code: 1008, name_th: "ป้อมปราบศัตรูพ่าย" }),
        1009 => Some(Amphoe { code: 1009, name_th: "พระโขนง" }),
        1010 => Some(Amphoe { code: 1010, name_th: "มีนบุรี" }),
        1011 => Some(Amphoe { code: 1011, name_th: "ลาดกระบัง" }),
        1012 => Some(Amphoe { code: 1012, name_th: "ยานนาวา" }),
        1013 => Some(Amphoe { code: 1013, name_th: "สัมพันธวงศ์" }),
        1014 => Some(Amphoe { code: 1014, name_th: "พญาไท" }),
        1015 => Some(Amphoe { code: 1015, name_th: "ธนบุรี" }),
        1016 => Some(Amphoe { code: 1016, name_th: "บางกอกใหญ่" }),
        1017 => Some(Amphoe { code: 1017, name_th: "ห้วยขวาง" }),
        1018 => Some(Amphoe { code: 1018, name_th: "คลองสาน" }),
        1019 => Some(Amphoe { code: 1019, name_th: "ตลิ่งชัน" }),
        1020 => Some(Amphoe { code: 1020, name_th: "บางกอกน้อย" }),
        1021 => Some(Amphoe { code: 1021, name_th: "บางขุนเทียน" }),
        1022 => Some(Amphoe { code: 1022, name_th: "ภาษีเจริญ" }),
        1023 => Some(Amphoe { code: 1023, name_th: "หนองแขม" }),
        1024 => Some(Amphoe { code: 1024, name_th: "ราษฎร์บูรณะ" }),
        1025 => Some(Amphoe { code: 1025, name_th: "บางพลัด" }),
        1026 => Some(Amphoe { code: 1026, name_th: "ดินแดง" }),
        1027 => Some(Amphoe { code: 1027, name_th: "บึงกุ่ม" }),
        1028 => Some(Amphoe { code: 1028, name_th: "สาทร" }),
        1029 => Some(Amphoe { code: 1029, name_th: "บางซื่อ" }),
        1030 => Some(Amphoe { code: 1030, name_th: "จตุจักร" }),
        1031 => Some(Amphoe { code: 1031, name_th: "บางคอแหลม" }),
        1032 => Some(Amphoe { code: 1032, name_th: "ประเวศ" }),
        1033 => Some(Amphoe { code: 1033, name_th: "คลองเตย" }),
        1034 => Some(Amphoe { code: 1034, name_th: "สวนหลวง" }),
        1035 => Some(Amphoe { code: 1035, name_th: "จอมทอง" }),
        1036 => Some(Amphoe { code: 1036, name_th: "ดอนเมือง" }),
        1037 => Some(Amphoe { code: 1037, name_th: "ราชเทวี" }),
        1038 => Some(Amphoe { code: 1038, name_th: "ลาดพร้าว" }),
        1039 => Some(Amphoe { code: 1039, name_th: "วัฒนา" }),
        1040 => Some(Amphoe { code: 1040, name_th: "บางแค" }),
        1041 => Some(Amphoe { code: 1041, name_th: "หลักสี่" }),
        1042 => Some(Amphoe { code: 1042, name_th: "สายไหม" }),
        1043 => Some(Amphoe { code: 1043, name_th: "คันนายาว" }),
        1044 => Some(Amphoe { code: 1044, name_th: "สะพานสูง" }),
        1045 => Some(Amphoe { code: 1045, name_th: "วังทองหลาง" }),
        1046 => Some(Amphoe { code: 1046, name_th: "คลองสามวา" }),
        1047 => Some(Amphoe { code: 1047, name_th: "บางนา" }),
        1048 => Some(Amphoe { code: 1048, name_th: "ทวีวัฒนา" }),
        1049 => Some(Amphoe { code: 1049, name_th: "ทุ่งครุ" }),
        1050 => Some(Amphoe { code: 1050, name_th: "บางบอน" }),
        1101 => Some(Amphoe { code: 1101, name_th: "เมืองสมุทรปราการ" }),
        1102 => Some(Amphoe { code: 1102, name_th: "บางบ่อ" }),
        1103 => Some(Amphoe { code: 1103, name_th: "บางพลี" }),
        1104 => Some(Amphoe { code: 1104, name_th: "พระประแดง" }),
        1105 => Some(Amphoe { code: 1105, name_th: "พระสมุทรเจดีย์" }),
        1106 => Some(Amphoe { code: 1106, name_th: "บางเสาธง" }),
        _ => None,
    }
}

} // verus!
