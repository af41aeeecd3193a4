//! The shape of the start-date argument: the CLI accepts a window start
//! only in the form `YYYY-MM-DD` and rejects anything else before parsing.

use vstd::prelude::*;

verus! {

/// `b` is exactly ten bytes: four ASCII digits, a dash, two digits, a
/// dash, two digits.
pub open spec fn spec_date_format(b: Seq<u8>) -> bool {
    &&& b.len() == 10
    &&& forall|i: int| 0 <= i < 10 && i != 4 && i != 7 ==> 48 <= #[trigger] b[i] <= 57
    &&& b[4] == 45
    &&& b[7] == 45
}

/// Whether the start-date argument has the accepted `YYYY-MM-DD` shape.
pub fn start_arg_match(b: &[u8]) -> (r: bool)
    ensures
        r == spec_date_format(b@),
{
    if b.len() != 10 {
        return false;
    }
    if b[4] != 45 || b[7] != 45 {
        return false;
    }
    let mut i: usize = 0;
    while i < 10
        invariant
            b@.len() == 10,
            i <= 10,
            forall|j: int| 0 <= j < i && j != 4 && j != 7 ==> 48 <= #[trigger] b@[j] <= 57,
        decreases 10 - i,
    {
        if i != 4 && i != 7 {
            let c = b[i];
            if c < 48 || c > 57 {
                return false;
            }
        }
        i = i + 1;
    }
    true
}

} // verus!
