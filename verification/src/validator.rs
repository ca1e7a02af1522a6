//! Validators for raw command-line text, each reporting a human-readable
//! message; checks that need the file system stay with the host.

use vstd::prelude::*;
use crate::date::{parse_date, valid_date_text};
use crate::sex::{spec_parse_sex, PatientSex};
use crate::utils::{is_dcm_path, spec_is_dcm_path};

verus! {

pub type ValidatorType = Result<(), String>;

/// Accepts text that names a `.dcm` file.
pub fn validator_is_dcm_path(path: &str) -> (r: ValidatorType)
    ensures
        r is Ok <==> spec_is_dcm_path(path@),
        r matches Err(m) ==> m@ == "Must be a valid dicom file path"@,
{
    if is_dcm_path(path) {
        return Ok(());
    }
    Err(String::from_str("Must be a valid dicom file path"))
}

/// Accepts text that parses as a `yyyy-mm-dd` calendar date.
pub fn validator_is_date(value: &str) -> (r: ValidatorType)
    ensures
        r is Ok <==> valid_date_text(value@),
        r matches Err(m) ==> m@ == "Must be in yyyy-mm-dd or yyyy-m-d format"@,
{
    match parse_date(value) {
        Ok(_) => Ok(()),
        Err(_) => Err(String::from_str("Must be in yyyy-mm-dd or yyyy-m-d format")),
    }
}

/// Accepts text that names one of the supported sex codes.
pub fn validator_is_sex(value: &str) -> (r: ValidatorType)
    ensures
        r is Ok <==> spec_parse_sex(value@) is Some,
        r matches Err(m) ==> m@ == "Only one of the values M,F,O are allowed (not case sensitive)"@,
{
    match PatientSex::from_str(value) {
        Ok(_) => Ok(()),
        Err(_) => Err(
            String::from_str("Only one of the values M,F,O are allowed (not case sensitive)"),
        ),
    }
}

} // verus!
