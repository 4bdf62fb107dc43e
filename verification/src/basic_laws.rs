//! Validation of a fully-specified quantity triple.
//!
//! The arithmetic of Ohm's law itself is not fixed here: the laws and the
//! scalar comparisons come in as function arguments, and the contract of
//! [`is_data_valid`] states its verdict in terms of their contracts.

use vstd::prelude::*;

verus! {

/// Decides whether a fully-specified triple (voltage `v`, current `i`,
/// resistance `r`) is internally consistent.
///
/// The verdict is `false` whenever `r` is negative (per `is_negative`);
/// otherwise each quantity is recomputed from the other two — voltage as
/// `voltage_from(r, i)`, current as `current_from(r, v)`, resistance as
/// `resistance_from(v, i)` — and the verdict is `true` exactly when all
/// three recomputed values compare equal (per `eq`) to the given ones.
pub fn is_data_valid<T, FV, FC, FR, FN, FQ>(
    v: T,
    i: T,
    r: T,
    voltage_from: FV,
    current_from: FC,
    resistance_from: FR,
    is_negative: FN,
    eq: FQ,
) -> (valid: bool) where
    T: Copy,
    FV: Fn(T, T) -> T,
    FC: Fn(T, T) -> T,
    FR: Fn(T, T) -> T,
    FN: Fn(T) -> bool,
    FQ: Fn(T, T) -> bool,

    requires
        call_requires(is_negative, (r,)),
        call_requires(voltage_from, (r, i)),
        call_requires(current_from, (r, v)),
        call_requires(resistance_from, (v, i)),
        forall|a: T, b: T| call_requires(eq, (a, b)),
    ensures
        valid ==> call_ensures(is_negative, (r,), false),
        (forall|neg: bool| call_ensures(is_negative, (r,), neg) ==> neg) ==> !valid,
        valid ==> (exists|cv: T, ci: T, cr: T|
            {
                &&& call_ensures(voltage_from, (r, i), cv)
                &&& call_ensures(current_from, (r, v), ci)
                &&& call_ensures(resistance_from, (v, i), cr)
                &&& call_ensures(eq, (cv, v), true)
                &&& call_ensures(eq, (ci, i), true)
                &&& call_ensures(eq, (cr, r), true)
            }),
        !valid ==> call_ensures(is_negative, (r,), true) || (exists|cv: T, ci: T, cr: T|
            {
                &&& call_ensures(voltage_from, (r, i), cv)
                &&& call_ensures(current_from, (r, v), ci)
                &&& call_ensures(resistance_from, (v, i), cr)
                &&& (call_ensures(eq, (cv, v), false) || call_ensures(eq, (ci, i), false)
                    || call_ensures(eq, (cr, r), false))
            }),
{
    // A negative resistance doesn't make sense
    if is_negative(r) {
        return false;
    }

    let calculated_v = voltage_from(r, i);
    let calculated_i = current_from(r, v);
    let calculated_r = resistance_from(v, i);

    let v_matches = eq(calculated_v, v);
    let i_matches = eq(calculated_i, i);
    let r_matches = eq(calculated_r, r);

    v_matches && i_matches && r_matches
}

} // verus!
