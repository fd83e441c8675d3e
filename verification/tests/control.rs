use libasi::{decode_control, decode_controls, RawControl};

fn report(name: &str, supported: i32, writable: i32, value: i64, auto: i32) -> RawControl {
    let mut field = name.as_bytes().to_vec();
    field.resize(64, 0);
    RawControl { name: field, is_auto_supported: supported, is_writable: writable, value, auto }
}

#[test]
fn decode_control_reads_every_field() {
    let control = decode_control(4, &report("Exposure", 1, 1, 32_000, 0));
    assert_eq!(control.name, "Exposure");
    assert_eq!(control.control_index, 4);
    assert_eq!(control.value, 32_000);
    assert!(control.can_auto_adjust);
    assert!(!control.is_auto_adjusted);
    assert!(control.is_writable);
}

#[test]
fn decode_control_reads_a_fixed_control() {
    let control = decode_control(0, &report("Temperature", 0, 0, -125, 0));
    assert_eq!(control.name, "Temperature");
    assert_eq!(control.control_index, 0);
    assert_eq!(control.value, -125);
    assert!(!control.can_auto_adjust);
    assert!(!control.is_auto_adjusted);
    assert!(!control.is_writable);
}

#[test]
fn decode_control_sets_a_flag_on_any_positive_number() {
    let control = decode_control(1, &report("Gain", 2, i32::MAX, 0, 255));
    assert!(control.can_auto_adjust);
    assert!(control.is_auto_adjusted);
    assert!(control.is_writable);
}

#[test]
fn decode_control_clears_a_flag_on_a_negative_number() {
    let control = decode_control(1, &report("Gain", -1, i32::MIN, 0, -2));
    assert!(!control.can_auto_adjust);
    assert!(!control.is_auto_adjusted);
    assert!(!control.is_writable);
}

#[test]
fn decode_control_keeps_the_flags_apart() {
    let control = decode_control(1, &report("Gain", 1, 0, 0, 0));
    assert!(control.can_auto_adjust && !control.is_auto_adjusted && !control.is_writable);
    let control = decode_control(1, &report("Gain", 0, 1, 0, 0));
    assert!(!control.can_auto_adjust && !control.is_auto_adjusted && control.is_writable);
    let control = decode_control(1, &report("Gain", 0, 0, 0, 1));
    assert!(!control.can_auto_adjust && control.is_auto_adjusted && !control.is_writable);
}

#[test]
fn decode_control_takes_the_extreme_values() {
    assert_eq!(decode_control(i32::MAX, &report("Gain", 0, 0, i64::MAX, 0)).value, i64::MAX);
    assert_eq!(decode_control(-1, &report("Gain", 0, 0, i64::MIN, 0)).value, i64::MIN);
    assert_eq!(decode_control(i32::MAX, &report("Gain", 0, 0, 0, 0)).control_index, i32::MAX);
    assert_eq!(decode_control(-1, &report("Gain", 0, 0, 0, 0)).control_index, -1);
}

#[test]
fn decode_control_names_an_unreadable_name() {
    let raw = RawControl {
        name: vec![b'G', 0xff],
        is_auto_supported: 0,
        is_writable: 0,
        value: 0,
        auto: 0,
    };
    assert_eq!(decode_control(0, &raw).name, "Invalid name");
}

#[test]
fn decode_control_of_an_untouched_record() {
    let raw = RawControl {
        name: vec![0; 64],
        is_auto_supported: 0,
        is_writable: 0,
        value: 0,
        auto: 0,
    };
    let control = decode_control(2, &raw);
    assert_eq!(control.name, "");
    assert_eq!(control.control_index, 2);
    assert_eq!(control.value, 0);
    assert!(!control.can_auto_adjust && !control.is_auto_adjusted && !control.is_writable);
}

#[test]
fn decode_controls_of_none_is_none() {
    assert!(decode_controls(&Vec::new()).is_empty());
}

#[test]
fn decode_controls_numbers_the_controls_by_their_place() {
    let reports = vec![
        report("Gain", 1, 1, 50, 0),
        report("Exposure", 1, 1, 10_000, 1),
        report("Temperature", 0, 0, 213, 0),
    ];
    let controls = decode_controls(&reports);
    assert_eq!(controls.len(), 3);
    assert_eq!(controls[0].control_index, 0);
    assert_eq!(controls[1].control_index, 1);
    assert_eq!(controls[2].control_index, 2);
}

#[test]
fn decode_controls_keeps_the_order_of_the_reports() {
    let reports = vec![
        report("Gain", 1, 1, 50, 0),
        report("Exposure", 1, 1, 10_000, 1),
        report("Temperature", 0, 0, 213, 0),
    ];
    let controls = decode_controls(&reports);
    assert_eq!(controls[0].name, "Gain");
    assert_eq!(controls[0].value, 50);
    assert!(!controls[0].is_auto_adjusted);
    assert_eq!(controls[1].name, "Exposure");
    assert_eq!(controls[1].value, 10_000);
    assert!(controls[1].is_auto_adjusted);
    assert_eq!(controls[2].name, "Temperature");
    assert_eq!(controls[2].value, 213);
    assert!(!controls[2].is_writable);
}

#[test]
fn decode_controls_decodes_each_as_decode_control_does() {
    let reports = vec![report("Gain", 3, -3, -9, 0), report("Flip", 0, 1, 2, 5)];
    let controls = decode_controls(&reports);
    for (place, raw) in reports.iter().enumerate() {
        let alone = decode_control(place as i32, raw);
        assert_eq!(controls[place].name, alone.name);
        assert_eq!(controls[place].control_index, alone.control_index);
        assert_eq!(controls[place].value, alone.value);
        assert_eq!(controls[place].can_auto_adjust, alone.can_auto_adjust);
        assert_eq!(controls[place].is_auto_adjusted, alone.is_auto_adjusted);
        assert_eq!(controls[place].is_writable, alone.is_writable);
    }
}
