use vstd::prelude::*;
use vstd::std_specs::cmp::PartialEqSpec;

verus! {

/// Why a value did not survive the trip into the dynamic representation and back.
pub enum RoundtripFailure<T, E> {
    /// Converting the dynamic representation back failed with this error.
    Conversion(E),
    /// The value that came back; it differs from the original.
    Mismatch(T),
}

/// The verdict on a round trip of `value`, given what converting its dynamic
/// representation back produced: it passes only if that succeeded with an equal value.
pub open spec fn roundtrip_verdict<T: PartialEq, E>(value: T, back: Result<T, E>) -> Result<
    (),
    RoundtripFailure<T, E>,
> {
    match back {
        Ok(b) => if value.eq_spec(&b) {
            Ok(())
        } else {
            Err(RoundtripFailure::Mismatch(b))
        },
        Err(e) => Err(RoundtripFailure::Conversion(e)),
    }
}

/// Judges a round trip of `value`: `back` is what converting the dynamic
/// representation of `value` back to its type produced.
///
/// A failed conversion is always reported with its error. Otherwise the result is
/// `Ok` exactly when the reconstructed value equals `value`, and a mismatch carries
/// the reconstructed value so that both can be reported.
pub fn check_roundtrip<T: PartialEq, E>(value: &T, back: Result<T, E>) -> (r: Result<
    (),
    RoundtripFailure<T, E>,
>)
    ensures
        T::obeys_eq_spec() ==> r == roundtrip_verdict(*value, back),
        match back {
            Ok(b) => r is Ok || r == Err::<(), RoundtripFailure<T, E>>(RoundtripFailure::Mismatch(b)),
            Err(e) => r == Err::<(), RoundtripFailure<T, E>>(RoundtripFailure::Conversion(e)),
        },
{
    match back {
        Ok(b) => if *value == b {
            Ok(())
        } else {
            Err(RoundtripFailure::Mismatch(b))
        },
        Err(e) => Err(RoundtripFailure::Conversion(e)),
    }
}

} // verus!
