use ohms_law::ElementBuildError;
use ohms_law::ElementBuilder;
use ohms_law::Element;

fn voltage_from(resistance: f64, current: f64) -> f64 {
    resistance * current
}

fn current_from(resistance: f64, voltage: f64) -> f64 {
    voltage / resistance
}

fn resistance_from(voltage: f64, current: f64) -> f64 {
    (voltage / current).abs()
}

fn is_consistent(v: f64, i: f64, r: f64) -> bool {
    ohms_law::basic_laws::is_data_valid(
        v,
        i,
        r,
        voltage_from,
        current_from,
        resistance_from,
        |x: f64| x < 0.0,
        |a: f64, b: f64| a == b,
    )
}

fn build(builder: ElementBuilder<f64>) -> Result<Element<f64>, ElementBuildError> {
    builder.build(voltage_from, current_from, resistance_from, is_consistent)
}

#[test]
fn test_element_builder_with_all_valid_data() -> Result<(), ElementBuildError> {
    let element = build(
        ElementBuilder::new()
            .name("Test".to_string())
            .voltage(1.5)
            .current(1.0)
            .resistance(1.5),
    )?;

    assert_eq!(element.name, Some("Test".to_string()));
    assert_eq!(element.voltage, 1.5);
    assert_eq!(element.current, 1.0);
    assert_eq!(element.resistance, 1.5);

    Ok(())
}

#[test]
fn test_element_builder_with_valid_data_no_name() -> Result<(), ElementBuildError> {
    let element = build(ElementBuilder::new().voltage(1.5).current(1.0).resistance(1.5))?;

    assert_eq!(element.name, None);
    assert_eq!(element.voltage, 1.5);
    assert_eq!(element.current, 1.0);
    assert_eq!(element.resistance, 1.5);

    Ok(())
}

#[test]
fn test_element_builder_resistance_calculation() -> Result<(), ElementBuildError> {
    let element = build(ElementBuilder::new().voltage(1.5).current(1.0))?;

    assert_eq!(element.resistance, 1.5);

    Ok(())
}

#[test]
fn test_element_builder_resistance_calculation_with_negative_current() -> Result<(), ElementBuildError>
{
    let element = build(ElementBuilder::new().voltage(1.5).current(-1.0))?;

    assert_eq!(element.resistance, 1.5);

    Ok(())
}

#[test]
fn test_element_builder_current_calculation() -> Result<(), ElementBuildError> {
    let element = build(ElementBuilder::new().voltage(6.0).resistance(3.0))?;

    assert_eq!(element.voltage, 6.0);
    assert_eq!(element.current, 2.0);
    assert_eq!(element.resistance, 3.0);

    Ok(())
}

#[test]
fn test_element_builder_voltage_calculation() -> Result<(), ElementBuildError> {
    let element = build(ElementBuilder::new().current(2.0).resistance(3.0))?;

    assert_eq!(element.voltage, 6.0);
    assert_eq!(element.current, 2.0);
    assert_eq!(element.resistance, 3.0);

    Ok(())
}

#[test]
fn test_element_builder_with_no_data() {
    let result = build(ElementBuilder::new());

    assert!(matches!(result, Err(ElementBuildError::NotEnoughData)));
}

#[test]
fn test_element_builder_with_only_voltage() {
    let result = build(ElementBuilder::new().voltage(1.5));

    assert!(matches!(result, Err(ElementBuildError::NotEnoughData)));
}

#[test]
fn test_element_builder_with_only_current() {
    let result = build(ElementBuilder::new().current(1.0));

    assert!(matches!(result, Err(ElementBuildError::NotEnoughData)));
}

#[test]
fn test_element_builder_with_only_resistance() {
    let result = build(ElementBuilder::new().resistance(1.5));

    assert!(matches!(result, Err(ElementBuildError::NotEnoughData)));
}

#[test]
fn test_element_builder_with_only_name() {
    let result = build(ElementBuilder::new().name("Test".to_string()));

    assert!(matches!(result, Err(ElementBuildError::NotEnoughData)));
}

#[test]
fn test_element_builder_with_inconsistent_data() {
    let result = build(ElementBuilder::new().voltage(1.5).current(1.0).resistance(2.0));

    assert!(matches!(result, Err(ElementBuildError::InvalidData)));
}

#[test]
fn test_element_builder_with_negative_resistance() {
    let result = build(ElementBuilder::new().voltage(1.5).current(-1.0).resistance(-1.5));

    assert!(matches!(result, Err(ElementBuildError::InvalidData)));
}

#[test]
fn test_element_builder_resistance_with_zero_current() -> Result<(), ElementBuildError> {
    let element = build(ElementBuilder::new().voltage(1.5).current(0.0))?;

    assert_eq!(element.resistance, f64::INFINITY);

    Ok(())
}

#[test]
fn test_element_builder_resistance_from_zeroes_is_nan() -> Result<(), ElementBuildError> {
    let element = build(ElementBuilder::new().voltage(0.0).current(0.0))?;

    assert!(element.resistance.is_nan());

    Ok(())
}

#[test]
fn test_mutating_setters_match_fluent_setters() -> Result<(), ElementBuildError> {
    let fluent = build(
        ElementBuilder::new()
            .name("Test".to_string())
            .voltage(1.5)
            .current(1.0)
            .resistance(1.5),
    )?;

    // The same final values, written in place and in another order.
    let mut builder = ElementBuilder::new();
    builder.set_resistance(1.5);
    builder.set_current(1.0);
    builder.set_voltage(1.5);
    builder.set_name("Test".to_string());
    let mutated = build(builder)?;

    assert_eq!(fluent.name, mutated.name);
    assert_eq!(fluent.voltage, mutated.voltage);
    assert_eq!(fluent.current, mutated.current);
    assert_eq!(fluent.resistance, mutated.resistance);

    Ok(())
}

#[test]
fn test_last_write_wins() -> Result<(), ElementBuildError> {
    let mut builder = ElementBuilder::new().voltage(100.0).name("First".to_string());
    builder.set_voltage(1.5);
    builder.set_name("Last".to_string());
    let element = build(builder.current(1.0))?;

    assert_eq!(element.name, Some("Last".to_string()));
    assert_eq!(element.voltage, 1.5);
    assert_eq!(element.resistance, 1.5);

    Ok(())
}
