//! The enumerated patient sex code, with its case-insensitive text form.

use vstd::prelude::*;
use crate::errors::ValueParseError;

verus! {

/// One of the three supported sex codes.
#[derive(Debug, Clone, Copy, PartialEq, Eq, Structural)]
pub enum PatientSex {
    M,
    F,
    O,
}

/// The canonical one-letter code of a sex value.
pub open spec fn spec_sex_code(s: PatientSex) -> Seq<char> {
    match s {
        PatientSex::M => seq!['M'],
        PatientSex::F => seq!['F'],
        PatientSex::O => seq!['O'],
    }
}

/// The sex value that a piece of text denotes: a single letter, either case.
pub open spec fn spec_parse_sex(s: Seq<char>) -> Option<PatientSex> {
    if s.len() != 1 {
        Option::None
    } else if s[0] == 'm' || s[0] == 'M' {
        Option::Some(PatientSex::M)
    } else if s[0] == 'f' || s[0] == 'F' {
        Option::Some(PatientSex::F)
    } else if s[0] == 'o' || s[0] == 'O' {
        Option::Some(PatientSex::O)
    } else {
        Option::None
    }
}

impl PatientSex {
    /// The number of supported sex codes.
    pub const COUNT: usize = 3;

    /// The canonical uppercase code stored in the record for this value.
    pub fn value(&self) -> (r: &str)
        ensures
            r@ == spec_sex_code(*self),
    {
        proof {
            reveal_strlit("M");
            reveal_strlit("F");
            reveal_strlit("O");
            assert("M"@ =~= seq!['M']);
            assert("F"@ =~= seq!['F']);
            assert("O"@ =~= seq!['O']);
        }
        match self {
            PatientSex::M => "M",
            PatientSex::F => "F",
            PatientSex::O => "O",
        }
    }

    /// Reads a sex code from text, accepting exactly the letters M, F and O
    /// in either case.
    pub fn from_str(s: &str) -> (r: Result<PatientSex, ValueParseError>)
        ensures
            r matches Ok(p) ==> spec_parse_sex(s@) == Some(p),
            r is Err <==> spec_parse_sex(s@) is None,
            r matches Err(e) ==> (e matches ValueParseError::InvalidSex { text } && text@ == s@),
    {
        if s.unicode_len() != 1 {
            return Err(ValueParseError::InvalidSex { text: String::from_str(s) });
        }
        let c = s.get_char(0);
        match c {
            'm' | 'M' => Ok(PatientSex::M),
            'f' | 'F' => Ok(PatientSex::F),
            'o' | 'O' => Ok(PatientSex::O),
            _ => Err(ValueParseError::InvalidSex { text: String::from_str(s) }),
        }
    }
}

impl Default for PatientSex {
    /// The default sex code is M, as the record format's most common value.
    fn default() -> (r: Self)
        ensures
            r == PatientSex::M,
    {
        PatientSex::M
    }
}

} // verus!
