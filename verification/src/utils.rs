//! Checks on path text and on the lead-in bytes of a record file.

use vstd::prelude::*;

verus! {

/// The text names a `.dcm` file: it ends in the `.dcm` extension and the
/// dot does not start the file name, `/` being the path separator.
pub open spec fn spec_is_dcm_path(s: Seq<char>) -> bool {
    &&& s.len() >= 5
    &&& s.subrange(s.len() - 4, s.len() as int) == seq!['.', 'd', 'c', 'm']
    &&& s[s.len() - 5] != '/'
}

/// Whether path text names a `.dcm` file.
pub fn is_dcm_path(path: &str) -> (r: bool)
    ensures
        r == spec_is_dcm_path(path@),
{
    let n = path.unicode_len();
    if n < 5 {
        return false;
    }
    let r = path.get_char(n - 4) == '.' && path.get_char(n - 3) == 'd' && path.get_char(n - 2)
        == 'c' && path.get_char(n - 1) == 'm' && path.get_char(n - 5) != '/';
    proof {
        if r {
            assert(path@.subrange(n - 4, n as int) =~= seq!['.', 'd', 'c', 'm']);
        } else {
            if path@.subrange(n - 4, n as int) == seq!['.', 'd', 'c', 'm'] {
                assert(path@[n - 4] == '.' && path@[n - 3] == 'd' && path@[n - 2] == 'c'
                    && path@[n - 1] == 'm');
            }
        }
    }
    r
}

/// The 132 lead-in bytes of the DICOM file format: a 128-byte zero preamble
/// followed by the magic code `DICM`.
pub open spec fn spec_is_dcm_signature(bytes: Seq<u8>) -> bool {
    &&& bytes.len() >= 132
    &&& forall|i: int| 0 <= i < 128 ==> bytes[i] == 0
    &&& bytes[128] == 0x44
    &&& bytes[129] == 0x49
    &&& bytes[130] == 0x43
    &&& bytes[131] == 0x4D
}

/// Whether the lead-in bytes of a file carry the DICOM signature: 128 zero
/// bytes, then `DICM`.
pub fn is_dcm_file(bytes: &Vec<u8>) -> (r: bool)
    ensures
        r == spec_is_dcm_signature(bytes@),
{
    if bytes.len() < 132 {
        return false;
    }
    let mut i: usize = 0;
    while i < 128
        invariant
            i <= 128,
            bytes@.len() >= 132,
            forall|j: int| 0 <= j < i ==> bytes@[j] == 0,
        decreases 128 - i,
    {
        if bytes[i] != 0 {
            return false;
        }
        i = i + 1;
    }
    bytes[128] == 0x44 && bytes[129] == 0x49 && bytes[130] == 0x43 && bytes[131] == 0x4D
}

} // verus!
