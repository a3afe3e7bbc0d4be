use vstd::prelude::*;

pub mod format;
pub mod checksum;
pub mod tables;
pub mod meaning;

pub use crate::meaning::IdMeaning;
pub use crate::tables::{Amphoe, PersonType, Province};

verus! {

/// Verify a Thai citizen identification number: true exactly when the
/// input is 13 ASCII decimal digits ending in the correct check digit.
/// The leading digit's registration category plays no part here.
pub fn verify_id(id: &str) -> (r: bool)
    ensures
        r == crate::checksum::id_valid(id@),
        !crate::format::valid_format(id@) ==> r == false,
{
    match crate::format::parse_digits(id) {
        None => false,
        Some(ds) => crate::checksum::checksum_matches(&ds),
    }
}

/// Decode a Thai citizen identification number into its meaning, or
/// nothing when the input is not 13 decimal digits or its leading
/// digit names no registration category.  A checksum mismatch does not
/// block decoding: it is reported in the result's `is_valid`.
pub fn get_id_meaning(id: &str) -> (r: Option<IdMeaning>)
    ensures
        r.is_some() == crate::meaning::spec_meaning(id@).is_some(),
        (r matches Some(m) ==> Some(crate::meaning::meaning_model(m))
            == crate::meaning::spec_meaning(id@)),
        !crate::format::valid_format(id@) ==> r.is_none(),
        crate::format::valid_format(id@) && (crate::format::digit_values(id@)[0] == 0
            || crate::format::digit_values(id@)[0] == 9) ==> r.is_none(),
{
    let ds = match crate::format::parse_digits(id) {
        None => { return None; },
        Some(ds) => ds,
    };
    let person_type = match crate::tables::person_type_for(ds[0]) {
        None => { return None; },
        Some(t) => t,
    };
    let geography = crate::meaning::resolve_geography(&ds);
    let is_valid = crate::checksum::checksum_matches(&ds);
    Some(
        IdMeaning {
            person_type,
            province: geography.0,
            amphoe: geography.1,
            is_valid,
        },
    )
}

} // verus!
