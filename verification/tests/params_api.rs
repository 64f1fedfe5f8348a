use vibe_machine::params::EffectParameters;

#[test]
fn defaults_match_the_fixed_control_values() {
    let p = EffectParameters::default();
    assert_eq!(p.get_parameter(0), 250_000);
    assert_eq!(p.get_parameter(1), 0);
    assert_eq!(p.get_parameter(2), 0);
    assert_eq!(p.get_parameter(3), 800_000);
    assert_eq!(p.get_parameter(4), 500_000);
    assert_eq!(p.get_parameter(5), 0);
    assert_eq!(p.get_parameter(6), 0);
    assert_eq!(p.get_parameter(7), 500_000);
}

#[test]
fn set_then_get_round_trips() {
    let mut p = EffectParameters::default();
    p.set_parameter(3, 123_456);
    assert_eq!(p.get_parameter(3), 123_456);
    // the others are untouched
    assert_eq!(p.get_parameter(0), 250_000);
    assert_eq!(p.get_parameter(4), 500_000);
}

#[test]
fn stray_indices_read_zero_and_write_nothing() {
    let mut p = EffectParameters::default();
    assert_eq!(p.get_parameter(8), 0);
    assert_eq!(p.get_parameter(-1), 0);
    p.set_parameter(8, 777);
    p.set_parameter(-3, 777);
    for i in 0..8 {
        assert_eq!(p.get_parameter(i), EffectParameters::default().get_parameter(i));
    }
}

#[test]
fn parameter_names() {
    let p = EffectParameters::default();
    assert_eq!(p.get_parameter_name(0), "time");
    assert_eq!(p.get_parameter_name(1), "vibe");
    assert_eq!(p.get_parameter_name(2), "age");
    assert_eq!(p.get_parameter_name(3), "tone");
    assert_eq!(p.get_parameter_name(4), "pitch mode");
    assert_eq!(p.get_parameter_name(5), "feedback");
    assert_eq!(p.get_parameter_name(6), "sat");
    assert_eq!(p.get_parameter_name(7), "dry / wet");
    assert_eq!(p.get_parameter_name(42), "");
}
