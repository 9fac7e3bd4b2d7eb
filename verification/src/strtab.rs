//! String tables: a region of bytes interpreted as NUL-terminated strings
//! packed back to back, looked up by byte offset.

use vstd::prelude::*;
use crate::bytes::copy_range;
use crate::bytes::find_nul;
use crate::error::FormatError;

verus! {

/// What a lookup at byte offset `index` of the string table `s` returns:
/// the bytes from `index` up to (excluding) the first NUL terminator, or
/// the error describing why there is no such string.
pub open spec fn spec_get_str(s: Seq<u8>, index: int) -> Result<Seq<u8>, FormatError> {
    if index < 0 || index > s.len() {
        Err(FormatError::StrIndexOutOfRange)
    } else {
        match find_nul(s, index, s.len() as int) {
            Option::None => Err(FormatError::UnterminatedString),
            Option::Some(end) => Ok(s.subrange(index, end)),
        }
    }
}

/// Looks up the string at byte offset `index` of the string table stored at
/// `b[tab_off .. tab_off + tab_len]`.
pub fn table_get_str(b: &Vec<u8>, tab_off: usize, tab_len: usize, index: usize) -> (r: Result<
    Vec<u8>,
    FormatError,
>)
    requires
        tab_off + tab_len <= b.len(),
    ensures
        (match r {
            Ok(s) => spec_get_str(b@.subrange(tab_off as int, tab_off + tab_len), index as int)
                == Ok::<Seq<u8>, FormatError>(s@),
            Err(e) => spec_get_str(b@.subrange(tab_off as int, tab_off + tab_len), index as int)
                == Err::<Seq<u8>, FormatError>(e),
        }),
{
    let ghost tab = b@.subrange(tab_off as int, tab_off + tab_len);
    if index > tab_len {
        return Err(FormatError::StrIndexOutOfRange);
    }
    let mut j: usize = index;
    while j < tab_len
        invariant
            index <= j <= tab_len,
            tab_off + tab_len <= b.len(),
            tab == b@.subrange(tab_off as int, tab_off + tab_len),
            find_nul(tab, index as int, tab_len as int) == find_nul(
                tab,
                j as int,
                tab_len as int,
            ),
        decreases tab_len - j,
    {
        if b[tab_off + j] == 0 {
            let s = copy_range(b, tab_off + index, tab_off + j);
            assert(s@ =~= tab.subrange(index as int, j as int));
            return Ok(s);
        }
        j = j + 1;
    }
    Err(FormatError::UnterminatedString)
}

/// A string table that owns its bytes, for use apart from a decoded file.
pub struct StrTable {
    pub strs: Vec<u8>,
}

impl StrTable {
    /// Looks up the NUL-terminated string starting at byte offset `index`.
    pub fn get_str(&self, index: usize) -> (r: Result<Vec<u8>, FormatError>)
        ensures
            (match r {
                Ok(s) => spec_get_str(self.strs@, index as int) == Ok::<Seq<u8>, FormatError>(s@),
                Err(e) => spec_get_str(self.strs@, index as int) == Err::<Seq<u8>, FormatError>(e),
            }),
    {
        let n = self.strs.len();
        let r = table_get_str(&self.strs, 0, n, index);
        proof {
            assert(self.strs@.subrange(0, n as int) =~= self.strs@);
        }
        r
    }
}

} // verus!
