//! Ohm's-law circuit elements.
//!
//! A circuit element relates three quantities — voltage, current, resistance —
//! by Ohm's law, `voltage = current * resistance`. This crate provides a
//! builder that accumulates any subset of the three quantities plus an
//! optional label, and resolves it into a finished [`Element`]: a missing
//! quantity is derived from the other two, a complete triple is validated,
//! and fewer than two quantities is an error.
//!
//! The builder and its resolution logic are generic in the scalar type and
//! verified; the arithmetic of the laws themselves (multiplication, division,
//! absolute value, equality of scalars) is supplied by the caller as
//! functions, and the contracts here state the outcome in terms of those
//! functions' own contracts.

pub mod basic_laws;

use vstd::prelude::*;

verus! {

/// Errors encountered when building an [`Element`] from an [`ElementBuilder`].
#[derive(Debug, PartialEq, Eq, Structural)]
pub enum ElementBuildError {
    /// There must be at least two of voltage, current, or resistance filled.
    NotEnoughData,
    /// This occurs when all three of the data fields are filled, but the
    /// values are incompatible with the equations.
    InvalidData,
}

/// A resolved circuit element: an optional label and the three quantities,
/// all present. It is never mutated once produced.
pub struct Element<T> {
    pub name: Option<String>,
    pub voltage: T,
    pub current: T,
    pub resistance: T,
}

/// A free-form accumulator for an optional label and the three optional
/// quantities of a circuit element. No invariant is enforced until
/// [`ElementBuilder::build`] is asked to resolve it.
pub struct ElementBuilder<T> {
    pub name: Option<String>,
    pub voltage: Option<T>,
    pub current: Option<T>,
    pub resistance: Option<T>,
}

impl<T> ElementBuilder<T> {
    /// The state after a write of the label; both label setters are
    /// specified by this one transformer.
    pub open spec fn with_name(self, name: String) -> ElementBuilder<T> {
        ElementBuilder {
            name: Some(name),
            voltage: self.voltage,
            current: self.current,
            resistance: self.resistance,
        }
    }

    /// The state after a write of the voltage; both voltage setters are
    /// specified by this one transformer.
    pub open spec fn with_voltage(self, voltage: T) -> ElementBuilder<T> {
        ElementBuilder {
            name: self.name,
            voltage: Some(voltage),
            current: self.current,
            resistance: self.resistance,
        }
    }

    /// The state after a write of the current; both current setters are
    /// specified by this one transformer.
    pub open spec fn with_current(self, current: T) -> ElementBuilder<T> {
        ElementBuilder {
            name: self.name,
            voltage: self.voltage,
            current: Some(current),
            resistance: self.resistance,
        }
    }

    /// The state after a write of the resistance; both resistance setters
    /// are specified by this one transformer.
    pub open spec fn with_resistance(self, resistance: T) -> ElementBuilder<T> {
        ElementBuilder {
            name: self.name,
            voltage: self.voltage,
            current: self.current,
            resistance: Some(resistance),
        }
    }

    /// How many of the three quantities have been supplied.
    pub open spec fn supplied_count(self) -> int {
        (if self.voltage is Some { 1int } else { 0int })
            + (if self.current is Some { 1int } else { 0int })
            + (if self.resistance is Some { 1int } else { 0int })
    }

    /// An empty configuration: no label, no quantities.
    pub fn new() -> (r: ElementBuilder<T>)
        ensures
            r.name is None,
            r.voltage is None,
            r.current is None,
            r.resistance is None,
    {
        ElementBuilder { name: None, voltage: None, current: None, resistance: None }
    }

    /// Fluent label setter: returns the configuration with the label set.
    pub fn name(self, name: String) -> (r: ElementBuilder<T>)
        ensures
            r == self.with_name(name),
    {
        ElementBuilder {
            name: Some(name),
            voltage: self.voltage,
            current: self.current,
            resistance: self.resistance,
        }
    }

    /// Mutating label setter: sets the label in place.
    pub fn set_name(&mut self, name: String)
        ensures
            *final(self) == old(self).with_name(name),
    {
        self.name = Some(name);
    }

    /// Fluent voltage setter: returns the configuration with the voltage set.
    pub fn voltage(self, voltage: T) -> (r: ElementBuilder<T>)
        ensures
            r == self.with_voltage(voltage),
    {
        ElementBuilder {
            name: self.name,
            voltage: Some(voltage),
            current: self.current,
            resistance: self.resistance,
        }
    }

    /// Mutating voltage setter: sets the voltage in place.
    pub fn set_voltage(&mut self, voltage: T)
        ensures
            *final(self) == old(self).with_voltage(voltage),
    {
        self.voltage = Some(voltage);
    }

    /// Fluent current setter: returns the configuration with the current set.
    pub fn current(self, current: T) -> (r: ElementBuilder<T>)
        ensures
            r == self.with_current(current),
    {
        ElementBuilder {
            name: self.name,
            voltage: self.voltage,
            current: Some(current),
            resistance: self.resistance,
        }
    }

    /// Mutating current setter: sets the current in place.
    pub fn set_current(&mut self, current: T)
        ensures
            *final(self) == old(self).with_current(current),
    {
        self.current = Some(current);
    }

    /// Fluent resistance setter: returns the configuration with the
    /// resistance set.
    pub fn resistance(self, resistance: T) -> (r: ElementBuilder<T>)
        ensures
            r == self.with_resistance(resistance),
    {
        ElementBuilder {
            name: self.name,
            voltage: self.voltage,
            current: self.current,
            resistance: Some(resistance),
        }
    }

    /// Mutating resistance setter: sets the resistance in place.
    pub fn set_resistance(&mut self, resistance: T)
        ensures
            *final(self) == old(self).with_resistance(resistance),
    {
        self.resistance = Some(resistance);
    }

    /// Resolves the configuration into an [`Element`], deriving a missing
    /// quantity with the given laws — voltage as `voltage_from(resistance,
    /// current)`, current as `current_from(resistance, voltage)`, resistance
    /// as `resistance_from(voltage, current)` — and validating a complete
    /// triple with `is_consistent`.
    ///
    /// Succeeds whenever exactly two quantities are supplied, whatever their
    /// values; with all three supplied, succeeds exactly when `is_consistent`
    /// accepts them, and fails with `InvalidData` when it rejects them; with
    /// fewer than two, fails with `NotEnoughData`.
    pub fn build<FV, FC, FR, FK>(
        self,
        voltage_from: FV,
        current_from: FC,
        resistance_from: FR,
        is_consistent: FK,
    ) -> (res: Result<Element<T>, ElementBuildError>) where
        T: Copy,
        FV: Fn(T, T) -> T,
        FC: Fn(T, T) -> T,
        FR: Fn(T, T) -> T,
        FK: Fn(T, T, T) -> bool,

        requires
            self.voltage is Some && self.current is Some && self.resistance is Some
                ==> call_requires(
                is_consistent,
                (self.voltage->Some_0, self.current->Some_0, self.resistance->Some_0),
            ),
            self.voltage is Some && self.current is Some && self.resistance is None
                ==> call_requires(resistance_from, (self.voltage->Some_0, self.current->Some_0)),
            self.voltage is Some && self.current is None && self.resistance is Some
                ==> call_requires(current_from, (self.resistance->Some_0, self.voltage->Some_0)),
            self.voltage is None && self.current is Some && self.resistance is Some
                ==> call_requires(voltage_from, (self.resistance->Some_0, self.current->Some_0)),
        ensures
            res matches Ok(el) ==> el.name == self.name,
            (res matches Err(e) && e == ElementBuildError::NotEnoughData) <==> self.supplied_count()
                < 2,
            self.voltage is Some && self.current is Some && self.resistance is Some ==> (match res {
                Ok(el) => el.voltage == self.voltage->Some_0 && el.current == self.current->Some_0
                    && el.resistance == self.resistance->Some_0 && call_ensures(
                    is_consistent,
                    (self.voltage->Some_0, self.current->Some_0, self.resistance->Some_0),
                    true,
                ),
                Err(e) => e == ElementBuildError::InvalidData && call_ensures(
                    is_consistent,
                    (self.voltage->Some_0, self.current->Some_0, self.resistance->Some_0),
                    false,
                ),
            }),
            self.voltage is Some && self.current is Some && self.resistance is None ==> (res matches
                Ok(el) && el.voltage == self.voltage->Some_0 && el.current == self.current->Some_0
                && call_ensures(
                resistance_from,
                (self.voltage->Some_0, self.current->Some_0),
                el.resistance,
            )),
            self.voltage is Some && self.current is None && self.resistance is Some ==> (res matches
                Ok(el) && el.voltage == self.voltage->Some_0 && el.resistance
                == self.resistance->Some_0 && call_ensures(
                current_from,
                (self.resistance->Some_0, self.voltage->Some_0),
                el.current,
            )),
            self.voltage is None && self.current is Some && self.resistance is Some ==> (res matches
                Ok(el) && el.current == self.current->Some_0 && el.resistance
                == self.resistance->Some_0 && call_ensures(
                voltage_from,
                (self.resistance->Some_0, self.current->Some_0),
                el.voltage,
            )),
    {
        let (v, i, r) = match self.calculate_values(
            voltage_from,
            current_from,
            resistance_from,
            is_consistent,
        ) {
            Ok(values) => values,
            Err(e) => {
                return Err(e);
            },
        };

        Ok(Element { name: self.name, voltage: v, current: i, resistance: r })
    }

    /// Picks the resolution policy from which quantities are present: with
    /// all three, `is_consistent` arbitrates; with exactly two, the third is
    /// derived from them; otherwise there is not enough data.
    fn calculate_values<FV, FC, FR, FK>(
        &self,
        voltage_from: FV,
        current_from: FC,
        resistance_from: FR,
        is_consistent: FK,
    ) -> (res: Result<(T, T, T), ElementBuildError>) where
        T: Copy,
        FV: Fn(T, T) -> T,
        FC: Fn(T, T) -> T,
        FR: Fn(T, T) -> T,
        FK: Fn(T, T, T) -> bool,

        requires
            self.voltage is Some && self.current is Some && self.resistance is Some
                ==> call_requires(
                is_consistent,
                (self.voltage->Some_0, self.current->Some_0, self.resistance->Some_0),
            ),
            self.voltage is Some && self.current is Some && self.resistance is None
                ==> call_requires(resistance_from, (self.voltage->Some_0, self.current->Some_0)),
            self.voltage is Some && self.current is None && self.resistance is Some
                ==> call_requires(current_from, (self.resistance->Some_0, self.voltage->Some_0)),
            self.voltage is None && self.current is Some && self.resistance is Some
                ==> call_requires(voltage_from, (self.resistance->Some_0, self.current->Some_0)),
        ensures
            (res matches Err(e) && e == ElementBuildError::NotEnoughData) <==> self.supplied_count()
                < 2,
            self.voltage is Some && self.current is Some && self.resistance is Some ==> (match res {
                Ok(values) => values == (
                    self.voltage->Some_0,
                    self.current->Some_0,
                    self.resistance->Some_0,
                ) && call_ensures(
                    is_consistent,
                    (self.voltage->Some_0, self.current->Some_0, self.resistance->Some_0),
                    true,
                ),
                Err(e) => e == ElementBuildError::InvalidData && call_ensures(
                    is_consistent,
                    (self.voltage->Some_0, self.current->Some_0, self.resistance->Some_0),
                    false,
                ),
            }),
            self.voltage is Some && self.current is Some && self.resistance is None ==> (res matches
                Ok(values) && values.0 == self.voltage->Some_0 && values.1 == self.current->Some_0
                && call_ensures(
                resistance_from,
                (self.voltage->Some_0, self.current->Some_0),
                values.2,
            )),
            self.voltage is Some && self.current is None && self.resistance is Some ==> (res matches
                Ok(values) && values.0 == self.voltage->Some_0 && values.2
                == self.resistance->Some_0 && call_ensures(
                current_from,
                (self.resistance->Some_0, self.voltage->Some_0),
                values.1,
            )),
            self.voltage is None && self.current is Some && self.resistance is Some ==> (res matches
                Ok(values) && values.1 == self.current->Some_0 && values.2
                == self.resistance->Some_0 && call_ensures(
                voltage_from,
                (self.resistance->Some_0, self.current->Some_0),
                values.0,
            )),
    {
        match (self.voltage, self.current, self.resistance) {
            (Some(v), Some(i), Some(r)) => {
                if is_consistent(v, i, r) {
                    Ok((v, i, r))
                } else {
                    Err(ElementBuildError::InvalidData)
                }
            },
            (Some(v), Some(i), None) => Ok((v, i, resistance_from(v, i))),
            (Some(v), None, Some(r)) => Ok((v, current_from(r, v), r)),
            (None, Some(i), Some(r)) => Ok((voltage_from(r, i), i, r)),
            _ => Err(ElementBuildError::NotEnoughData),
        }
    }
}

/// Law: writes to distinct builder fields commute — setters applied in any
/// order leave the configuration, and so the outcome of resolving it, the
/// same once each field holds the same final value.
pub proof fn lemma_distinct_writes_commute<T>(
    b: ElementBuilder<T>,
    label: String,
    v: T,
    i: T,
    r: T,
)
    ensures
        b.with_voltage(v).with_current(i) == b.with_current(i).with_voltage(v),
        b.with_voltage(v).with_resistance(r) == b.with_resistance(r).with_voltage(v),
        b.with_current(i).with_resistance(r) == b.with_resistance(r).with_current(i),
        b.with_name(label).with_voltage(v) == b.with_voltage(v).with_name(label),
        b.with_name(label).with_current(i) == b.with_current(i).with_name(label),
        b.with_name(label).with_resistance(r) == b.with_resistance(r).with_name(label),
{
}

/// Law: a later write to the same builder field wins — the field keeps only
/// its last value, whichever setter style wrote it.
pub proof fn lemma_last_write_wins<T>(
    b: ElementBuilder<T>,
    label1: String,
    label2: String,
    v1: T,
    v2: T,
    i1: T,
    i2: T,
    r1: T,
    r2: T,
)
    ensures
        b.with_name(label1).with_name(label2) == b.with_name(label2),
        b.with_voltage(v1).with_voltage(v2) == b.with_voltage(v2),
        b.with_current(i1).with_current(i2) == b.with_current(i2),
        b.with_resistance(r1).with_resistance(r2) == b.with_resistance(r2),
{
}

} // verus!
