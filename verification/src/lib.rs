//! Non-negativity checks for orderable types with a canonical baseline.
//!
//! The crate exposes one operation, [`is_positive`]: it compares a value
//! against the baseline that its type's `Default` impl produces, and reports
//! whether the value sits at or above that baseline in the type's partial
//! order. A comparison that yields no ordering (incomparable values) counts
//! as a negative answer.

use vstd::prelude::*;

verus! {

use core::cmp::Ordering;
use vstd::std_specs::cmp::PartialOrdSpec;

/// Whether `value` sits at or above `baseline` in `T`'s partial order:
/// their comparison yields `Greater` or `Equal`, never `Less` and never
/// "no ordering at all".
pub open spec fn at_or_above<T: PartialOrd>(value: T, baseline: T) -> bool {
    value.partial_cmp_spec(&baseline) matches Some(Ordering::Greater | Ordering::Equal)
}

/// Reports whether `value` is greater than or equal to its type's baseline,
/// the value that `T::default()` produces. Incomparable pairs (for orders
/// that are only partial) answer `false`.
pub fn is_positive<T: PartialOrd + Default>(value: T) -> (r: bool)
    ensures
        exists|baseline: T|
            #[trigger] call_ensures(T::default, (), baseline)
                && (T::obeys_partial_cmp_spec() ==> r == at_or_above(value, baseline)),
{
    let baseline = T::default();
    value.ge(&baseline)
}

/// Law: on `i64`, the check answers `true` on every value at or above zero
/// and `false` on every value below it. `i64`'s comparison obeys the total
/// order on the integers, and its baseline is `0`.
pub proof fn lemma_is_positive_i64(n: i64, r: bool)
    requires
        call_ensures(is_positive::<i64>, (n,), r),
    ensures
        r <==> n >= 0,
{
    let baseline = choose|baseline: i64|
        #[trigger] call_ensures(<i64 as Default>::default, (), baseline)
            && (<i64 as PartialOrdSpec>::obeys_partial_cmp_spec() ==> r == at_or_above(
            n,
            baseline,
        ));
    assert(baseline == 0i64);
}

/// Law: on `u64`, the check answers `true` on every value: each one sits at
/// or above the baseline `0`, the least value of the type.
pub proof fn lemma_is_positive_u64(n: u64, r: bool)
    requires
        call_ensures(is_positive::<u64>, (n,), r),
    ensures
        r,
{
    let baseline = choose|baseline: u64|
        #[trigger] call_ensures(<u64 as Default>::default, (), baseline)
            && (<u64 as PartialOrdSpec>::obeys_partial_cmp_spec() ==> r == at_or_above(
            n,
            baseline,
        ));
    assert(baseline == 0u64);
}

/// Law: the baseline itself passes the check, since every partial order is
/// reflexive where it is defined and `i64`'s is defined everywhere: on `i64`
/// the check answers `true` on `0`, the value its `Default` impl produces.
pub proof fn lemma_baseline_is_positive_i64(r: bool)
    requires
        call_ensures(is_positive::<i64>, (0i64,), r),
    ensures
        r,
{
    lemma_is_positive_i64(0i64, r);
}

} // verus!
