use sensor_dashboard::actuator::scale_level;
use sensor_dashboard::bus::{BusStep, DISPLAY_ADDR_WRITE};
use sensor_dashboard::control::{step, LoopState};

fn data(bytes: &[u8]) -> Vec<BusStep> {
    let mut steps = vec![
        BusStep::StartCond,
        BusStep::WriteByte(DISPLAY_ADDR_WRITE),
        BusStep::WriteByte(0x40),
    ];
    for &b in bytes {
        steps.push(BusStep::WriteByte(b));
    }
    steps.push(BusStep::StopCond);
    steps
}

fn position(col: u8, page: u8) -> Vec<BusStep> {
    vec![
        BusStep::StartCond,
        BusStep::WriteByte(DISPLAY_ADDR_WRITE),
        BusStep::WriteByte(0x00),
        BusStep::WriteByte(0x21),
        BusStep::WriteByte(col),
        BusStep::WriteByte(127),
        BusStep::WriteByte(0x00),
        BusStep::WriteByte(0x22),
        BusStep::WriteByte(page),
        BusStep::WriteByte(7),
        BusStep::StopCond,
    ]
}

fn sample_lines(sample_text: &[u8], volts_text: &[&[u8]]) -> Vec<BusStep> {
    let mut expected = position(0, 2);
    expected.extend(data(b"ADC: "));
    expected.extend(data(sample_text));
    expected.extend(position(0, 3));
    expected.extend(data(b"V: "));
    for part in volts_text {
        expected.extend(data(part));
    }
    expected
}

fn counter_lines(timer_text: &[u8], external_text: &[u8]) -> Vec<BusStep> {
    let mut expected = position(0, 0);
    expected.extend(data(b"Timer: "));
    expected.extend(data(timer_text));
    expected.extend(position(0, 1));
    expected.extend(data(b"Ext Int: "));
    expected.extend(data(external_text));
    expected
}

#[test]
fn scaling_hits_the_endpoints() {
    assert_eq!(scale_level(0), 0);
    assert_eq!(scale_level(512), 127);
    assert_eq!(scale_level(1023), 255);
}

#[test]
fn scaling_is_monotonic_across_the_sensor_range() {
    let mut last = 0u8;
    for sample in 0..=1023u16 {
        let level = scale_level(sample);
        assert!(level >= last);
        last = level;
    }
}

#[test]
fn small_delta_issues_no_bus_traffic() {
    let mut state = LoopState::new();
    state.last_sample = 500;
    for sample in [498u16, 499, 500, 501, 502] {
        let out = step(&mut state, sample, 0, 0);
        assert_eq!(out.actuator_level, None);
        assert!(out.bus_steps.is_empty());
        assert_eq!(state.last_sample, 500);
    }
}

#[test]
fn accepted_sample_reprograms_actuator_and_rewrites_sample_lines() {
    let mut state = LoopState::new();
    let out = step(&mut state, 1023, 0, 0);
    assert_eq!(out.actuator_level, Some(255));
    assert_eq!(state.last_sample, 1023);
    // 1023 * 5000 / 1023 = 5000 thousandths: the line reads "5.000".
    let expected = sample_lines(b"1023", &[b"5", b".", b"0", b"0", b"0"]);
    assert_eq!(out.bus_steps, expected);
}

#[test]
fn full_scale_drop_renders_zero_units() {
    let mut state = LoopState::new();
    state.last_sample = 5;
    let out = step(&mut state, 0, 0, 0);
    assert_eq!(out.actuator_level, Some(0));
    // 0 thousandths: the line reads "0.000".
    let expected = sample_lines(b"0", &[b"0", b".", b"0", b"0", b"0"]);
    assert_eq!(out.bus_steps, expected);
}

#[test]
fn mid_scale_sample_renders_floor_of_the_derived_value() {
    let mut state = LoopState::new();
    let out = step(&mut state, 512, 0, 0);
    assert_eq!(out.actuator_level, Some(127));
    // 512 * 5000 / 1023 = 2502 thousandths: the line reads "2.502".
    let expected = sample_lines(b"512", &[b"2", b".", b"502"]);
    assert_eq!(out.bus_steps, expected);
}

#[test]
fn fractional_part_is_padded_to_three_digits() {
    let mut state = LoopState::new();
    // 16 * 5000 / 1023 = 78 thousandths: the line reads "0.078".
    let out = step(&mut state, 16, 0, 0);
    let expected = sample_lines(b"16", &[b"0", b".", b"0", b"78"]);
    assert_eq!(out.bus_steps, expected);
    // 1 * 5000 / 1023 = 4 thousandths: two pads, the line reads "0.004".
    let out = step(&mut state, 1, 0, 0);
    assert_eq!(out.bus_steps, sample_lines(b"1", &[b"0", b".", b"0", b"0", b"4"]));
}

#[test]
fn counter_change_rewrites_only_counter_lines() {
    let mut state = LoopState::new();
    let out = step(&mut state, 0, 3, 1);
    assert_eq!(out.actuator_level, None);
    assert_eq!(state.last_sample, 0);
    assert_eq!(state.last_timer_count, 3);
    assert_eq!(state.last_external_count, 1);
    assert_eq!(out.bus_steps, counter_lines(b"3", b"1"));
}

#[test]
fn unchanged_counters_issue_no_counter_traffic() {
    let mut state = LoopState::new();
    let out = step(&mut state, 0, 5, 2);
    assert_eq!(out.bus_steps, counter_lines(b"5", b"2"));
    let out = step(&mut state, 0, 5, 2);
    assert!(out.bus_steps.is_empty());
}

#[test]
fn sample_and_counter_refreshes_are_independent() {
    let mut state = LoopState::new();
    let out = step(&mut state, 1023, 7, 0);
    let mut expected = sample_lines(b"1023", &[b"5", b".", b"0", b"0", b"0"]);
    expected.extend(counter_lines(b"7", b"0"));
    assert_eq!(out.bus_steps, expected);
}
