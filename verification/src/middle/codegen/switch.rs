//! Switch lowering decisions: when a switch over integer cases can use an
//! O(1) jump table.
use vstd::prelude::*;

verus! {

/// The smallest value of a non-empty sequence.
pub open spec fn seq_min(s: Seq<i32>) -> i32
    decreases s.len(),
{
    if s.len() <= 1 {
        s[0]
    } else {
        let m = seq_min(s.drop_last());
        if s.last() < m {
            s.last()
        } else {
            m
        }
    }
}

/// The largest value of a non-empty sequence.
pub open spec fn seq_max(s: Seq<i32>) -> i32
    decreases s.len(),
{
    if s.len() <= 1 {
        s[0]
    } else {
        let m = seq_max(s.drop_last());
        if s.last() > m {
            s.last()
        } else {
            m
        }
    }
}

/// The smallest and largest of the values, or `None` when there are none.
pub fn get_min_max(values: &[i32]) -> (r: Option<(i32, i32)>)
    ensures
        values@.len() == 0 <==> r is None,
        r matches Some((lo, hi)) ==> lo == seq_min(values@) && hi == seq_max(values@),
{
    if values.len() == 0 {
        return None;
    }
    let mut min = values[0];
    let mut max = values[0];
    let mut i: usize = 1;
    while i < values.len()
        invariant
            1 <= i <= values@.len(),
            min == seq_min(values@.take(i as int)),
            max == seq_max(values@.take(i as int)),
        decreases values@.len() - i,
    {
        let item = values[i];
        assert(values@.take(i + 1).drop_last() =~= values@.take(i as int));
        if item < min {
            min = item;
        }
        if item > max {
            max = item;
        }
        i = i + 1;
    }
    assert(values@.take(i as int) =~= values@);
    Some((min, max))
}

/// Every case value is an integer literal.
pub open spec fn all_int_cases(cases: Seq<Option<i128>>) -> bool {
    forall|i: int| 0 <= i < cases.len() ==> #[trigger] cases[i] is Some
}

/// The jump-table keys of integer cases: each value truncated to 32 bits.
pub open spec fn case_keys(cases: Seq<Option<i128>>) -> Seq<i32> {
    cases.map_values(|c: Option<i128>| c.unwrap() as i32)
}

/// The keys are dense enough for a jump table: their spread is at most
/// twice the number of cases.
pub open spec fn dense_keys(keys: Seq<i32>) -> bool {
    keys.len() == 0 || seq_max(keys) - seq_min(keys) <= 2 * (keys.len() as i32)
}

/// The jump table for the keys: each key with its case index.
pub open spec fn table_for(keys: Seq<i32>) -> Seq<(i32, usize)> {
    Seq::new(keys.len(), |i: int| (keys[i], i as usize))
}

/// Builds the jump table of a switch, given each case value as an integer
/// literal (`Some`) or anything else (`None`). A table is built when every
/// case is an integer literal and the keys are dense; otherwise the switch
/// falls back to a chain of comparisons.
pub fn try_build_jump_table(cases: &[Option<i128>]) -> (r: Option<Vec<(i32, usize)>>)
    requires
        all_int_cases(cases@) ==> -0x4000_0000 <= (cases@.len() as i32) <= 0x3fff_ffff,
        all_int_cases(cases@) && cases@.len() > 0 ==> seq_max(case_keys(cases@)) - seq_min(
            case_keys(cases@),
        ) <= i32::MAX,
    ensures
        match r {
            Some(table) => all_int_cases(cases@) && dense_keys(case_keys(cases@)) && table@
                == table_for(case_keys(cases@)),
            None => !all_int_cases(cases@) || !dense_keys(case_keys(cases@)),
        },
{
    let mut table: Vec<(i32, usize)> = Vec::new();
    let mut keys: Vec<i32> = Vec::new();
    let mut idx: usize = 0;
    while idx < cases.len()
        invariant
            idx <= cases@.len(),
            forall|i: int| 0 <= i < idx ==> #[trigger] cases@[i] is Some,
            keys@ == case_keys(cases@.take(idx as int)),
            table@ == table_for(keys@),
        decreases cases@.len() - idx,
    {
        match cases[idx] {
            Some(n) => {
                let key = n as i32;
                table.push((key, idx));
                keys.push(key);
            },
            None => {
                return None;
            },
        }
        idx = idx + 1;
        assert(keys@ =~= case_keys(cases@.take(idx as int)));
        assert(table@ =~= table_for(keys@));
    }
    assert(cases@.take(idx as int) =~= cases@);
    assert(all_int_cases(cases@));
    match get_min_max(keys.as_slice()) {
        Some((min, max)) => {
            let range = max - min;
            let count = table.len() as i32;
            if range > count * 2 {
                return None;
            }
        },
        None => {},
    }
    Some(table)
}

} // verus!
