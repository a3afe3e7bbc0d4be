//! Decoding an identifier into its semantic fields: registration
//! category, province and district, and checksum validity.

use vstd::prelude::*;
use crate::format::{valid_format, digit_values, as_ints, wf_digits};
use crate::checksum::checksum_ok;
use crate::tables::{
    PersonType, Province, Amphoe, person_type_entry, province_entry, amphoe_entry, province_for,
    amphoe_for,
};

verus! {

/// The decoded meaning of a well-formed identifier.  `is_valid`
/// reflects checksum correctness alone: an identifier whose district
/// code has no table entry still decodes, with `amphoe` absent.
pub struct IdMeaning {
    pub person_type: PersonType,
    pub province: Option<Province>,
    pub amphoe: Option<Amphoe>,
    pub is_valid: bool,
}

/// The mathematical shape of a decoded identifier: every field as a
/// plain value, text as character sequences.
pub ghost struct MeaningModel {
    pub person_type_code: int,
    pub person_type_th: Seq<char>,
    pub person_type_en: Seq<char>,
    pub province: Option<(int, Seq<char>, Seq<char>)>,
    pub amphoe: Option<(int, Seq<char>)>,
    pub is_valid: bool,
}

/// The 4-digit district code encoded in digit positions 1 through 4,
/// read as a base-10 number.
pub open spec fn amphoe_code_of(ds: Seq<int>) -> int {
    ds[1] * 1000 + ds[2] * 100 + ds[3] * 10 + ds[4]
}

/// The 2-digit province code: the district code's leading two digits.
pub open spec fn province_code_of(ds: Seq<int>) -> int {
    amphoe_code_of(ds) / 100
}

/// What the geography resolver owes a digit sequence: the province and
/// district entries for the encoded codes, looked up independently of
/// one another, either free to miss.
pub open spec fn geography_model(ds: Seq<int>) -> (Option<(int, Seq<char>, Seq<char>)>, Option<
    (int, Seq<char>),
>) {
    (
        match province_entry(province_code_of(ds) as u8) {
            Some(p) => Some((province_code_of(ds), p.0, p.1)),
            None => None,
        },
        match amphoe_entry(amphoe_code_of(ds) as u16) {
            Some(a) => Some((amphoe_code_of(ds), a)),
            None => None,
        },
    )
}

/// The model carried by a resolved province value.
pub open spec fn province_model(p: Option<Province>) -> Option<(int, Seq<char>, Seq<char>)> {
    match p {
        Some(p) => Some((p.code as int, p.name_th@, p.name_en@)),
        None => None,
    }
}

/// The model carried by a resolved district value.
pub open spec fn amphoe_model(a: Option<Amphoe>) -> Option<(int, Seq<char>)> {
    match a {
        Some(a) => Some((a.code as int, a.name_th@)),
        None => None,
    }
}

/// The model carried by a decoded meaning value.
pub open spec fn meaning_model(m: IdMeaning) -> MeaningModel {
    MeaningModel {
        person_type_code: m.person_type.code as int,
        person_type_th: m.person_type.description_th@,
        person_type_en: m.person_type.description_en@,
        province: province_model(m.province),
        amphoe: amphoe_model(m.amphoe),
        is_valid: m.is_valid,
    }
}

/// What decoding owes every input: nothing for a string that is not 13
/// decimal digits or whose leading digit names no registration
/// category; otherwise the category entry, the two independent
/// geography lookups, and the checksum verdict.
pub open spec fn spec_meaning(s: Seq<char>) -> Option<MeaningModel> {
    if !valid_format(s) {
        None
    } else {
        let ds = digit_values(s);
        match person_type_entry(ds[0] as u8) {
            None => None,
            Some(pt) => Some(
                MeaningModel {
                    person_type_code: ds[0],
                    person_type_th: pt.0,
                    person_type_en: pt.1,
                    province: geography_model(ds).0,
                    amphoe: geography_model(ds).1,
                    is_valid: checksum_ok(ds),
                },
            ),
        }
    }
}

/// Resolve the province and district encoded in a digit sequence.  The
/// two lookups are independent: a miss on either leaves the other
/// untouched, and the province is never derived from the district
/// entry.
pub fn resolve_geography(ds: &Vec<u8>) -> (r: (Option<Province>, Option<Amphoe>))
    requires
        wf_digits(ds@),
    ensures
        (province_model(r.0), amphoe_model(r.1)) == geography_model(as_ints(ds@)),
{
    let amphoe_code: u16 = (ds[1] as u16) * 1000 + (ds[2] as u16) * 100 + (ds[3] as u16) * 10 + (
    ds[4] as u16);
    let province_code: u8 = (amphoe_code / 100) as u8;
    (province_for(province_code), amphoe_for(amphoe_code))
}

/// Decoding is pure: the contract of `get_id_meaning` pins every field
/// of the result to a function of the input's characters alone, so any
/// two results decoded from the same input carry the same model.
pub proof fn lemma_meaning_deterministic(s: Seq<char>, m1: IdMeaning, m2: IdMeaning)
    requires
        Some(meaning_model(m1)) == spec_meaning(s),
        Some(meaning_model(m2)) == spec_meaning(s),
    ensures
        meaning_model(m1) == meaning_model(m2),
{
}

} // verus!
