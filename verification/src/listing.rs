//! What the listings of all three actors share: how many entries a page may
//! hold, and which entries a search picks.

use vstd::prelude::*;

verus! {

/// The number of entries that a page holds: the number asked for, or
/// `default` where none is, but at least one and at most `max`.
pub open spec fn limit_of(limit: Option<i32>, default: i32, max: i32) -> int {
    let asked = match limit {
        Some(n) => n as int,
        None => default as int,
    };
    let at_least_one = if asked < 1 {
        1
    } else {
        asked
    };
    if at_least_one > max {
        max as int
    } else {
        at_least_one
    }
}

/// The place at which a page starts: the place asked for, or the first
/// where none or a negative one is asked for.
pub open spec fn offset_of(offset: Option<i32>) -> int {
    match offset {
        Some(n) => if n < 0 {
            0
        } else {
            n as int
        },
        None => 0,
    }
}

/// The number of entries that a page holds where the number is asked for
/// without a sign: the number asked for, or `default` where none is, but at
/// most `max`.
pub open spec fn capped_limit_of(limit: Option<u64>, default: u64, max: u64) -> int {
    let asked = match limit {
        Some(n) => n as int,
        None => default as int,
    };
    if asked > max {
        max as int
    } else {
        asked
    }
}

/// The first `cap` items of `items` that satisfy `pick`, in their order.
pub open spec fn first_matches<T>(items: Seq<T>, pick: spec_fn(T) -> bool, cap: nat) -> Seq<T>
    decreases items.len(),
{
    if items.len() == 0 {
        Seq::empty()
    } else {
        let earlier = first_matches(items.drop_last(), pick, cap);
        if pick(items.last()) && earlier.len() < cap {
            earlier.push(items.last())
        } else {
            earlier
        }
    }
}

/// `first_matches` takes at most `cap` items, each of which satisfies `pick`
/// and comes from `items`.
pub proof fn lemma_first_matches<T>(items: Seq<T>, pick: spec_fn(T) -> bool, cap: nat)
    ensures
        first_matches(items, pick, cap).len() <= cap,
        first_matches(items, pick, cap).len() <= items.len(),
        forall|i: int|
            0 <= i < first_matches(items, pick, cap).len() ==> pick(
                #[trigger] first_matches(items, pick, cap)[i],
            ) && items.contains(first_matches(items, pick, cap)[i]),
    decreases items.len(),
{
    if items.len() > 0 {
        lemma_first_matches(items.drop_last(), pick, cap);
        let earlier = first_matches(items.drop_last(), pick, cap);
        assert forall|i: int| 0 <= i < first_matches(items, pick, cap).len() implies pick(
            #[trigger] first_matches(items, pick, cap)[i],
        ) && items.contains(first_matches(items, pick, cap)[i]) by {
            if i < earlier.len() {
                let j = choose|j: int|
                    0 <= j < items.drop_last().len() && items.drop_last()[j] == earlier[i];
                assert(items[j] == earlier[i]);
            } else {
                assert(items[items.len() - 1] == items.last());
            }
        }
    }
}

/// The number of entries of a page, from what is asked for.
pub fn page_limit(limit: Option<i32>, default: i32, max: i32) -> (r: usize)
    requires
        max >= 1,
    ensures
        r == limit_of(limit, default, max),
{
    let asked = match limit {
        Some(n) => n,
        None => default,
    };
    let at_least_one = if asked < 1 {
        1
    } else {
        asked
    };
    let capped = if at_least_one > max {
        max
    } else {
        at_least_one
    };
    capped as usize
}

/// The place at which a page starts, from what is asked for.
pub fn page_offset(offset: Option<i32>) -> (r: usize)
    ensures
        r == offset_of(offset),
{
    match offset {
        Some(n) => if n < 0 {
            0
        } else {
            n as usize
        },
        None => 0,
    }
}

/// The number of entries of a page, from what is asked for without a sign.
pub fn capped_limit(limit: Option<u64>, default: u64, max: u64) -> (r: u64)
    ensures
        r == capped_limit_of(limit, default, max),
{
    let asked = match limit {
        Some(n) => n,
        None => default,
    };
    if asked > max {
        max
    } else {
        asked
    }
}

} // verus!
