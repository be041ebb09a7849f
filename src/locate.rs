use vstd::prelude::*;

use crate::model::Escrow;

verus! {

/// The first record of `values` that decoded as an escrow, if any.
/// Each entry is the outcome of decoding one of the application's records.
pub open spec fn first_escrow(values: Seq<Option<Escrow>>) -> Option<Escrow>
    decreases values.len(),
{
    if values.len() == 0 {
        None
    } else if values[0] is Some {
        values[0]
    } else {
        first_escrow(values.drop_first())
    }
}

/// Scans the decoded records in order and returns the first escrow found.
/// Later escrows, if any, are ignored.
pub fn find_escrow(values: &Vec<Option<Escrow>>) -> (r: Option<&Escrow>)
    ensures
        match r {
            Some(e) => first_escrow(values@) == Some(*e),
            None => first_escrow(values@) is None,
        },
{
    let n = values.len();
    let mut i: usize = 0;
    assert(values@.subrange(0, n as int) =~= values@);
    while i < n
        invariant
            n == values.len(),
            i <= n,
            first_escrow(values@) == first_escrow(values@.subrange(i as int, n as int)),
        decreases n - i,
    {
        let rest = Ghost(values@.subrange(i as int, n as int));
        assert(rest@.drop_first() =~= values@.subrange(i + 1, n as int));
        match &values[i] {
            Some(e) => {
                return Some(e);
            },
            None => {},
        }
        i = i + 1;
    }
    None
}

} // verus!
