use vstd::prelude::*;

verus! {

/// Relies on std::hint::black_box: an identity function that the optimizer
/// must treat as possibly reading its argument.
pub assume_specification<T>[ std::hint::black_box::<T> ](dummy: T) -> (r: T)
    ensures
        r == dummy,
;

/// Marks `value` as used so that the computation that produced it is not
/// removed as dead code; nothing else is observable.
pub fn bench_used<T: Sized>(value: T) {
    let _ = std::hint::black_box(value);
}

} // verus!
