use sysfs_gpio::blink_my_led;

#[test]
fn blink_schedule_alternates_low_high() {
    let plan = blink_my_led(66, 5000, 200);
    assert_eq!(66, plan.pin.get_pin_num());
    // 5000 / 200 = 25 held levels, 12 whole low-high rounds
    assert_eq!(24, plan.steps.len());
    for (i, step) in plan.steps.iter().enumerate() {
        assert_eq!(step.hold_ms, 200);
        assert_eq!(step.value, if i % 2 == 0 { 0 } else { 1 });
    }
}

#[test]
fn blink_schedule_drops_partial_rounds() {
    // 1000 / 300 = 3 held levels: one whole round fits
    let plan = blink_my_led(1, 1000, 300);
    assert_eq!(2, plan.steps.len());
    assert_eq!(0, plan.steps[0].value);
    assert_eq!(1, plan.steps[1].value);
}

#[test]
fn blink_schedule_can_be_empty() {
    assert_eq!(0, blink_my_led(1, 100, 200).steps.len());
    assert_eq!(0, blink_my_led(1, 0, 200).steps.len());
    assert_eq!(0, blink_my_led(1, -100, 200).steps.len());
    assert_eq!(0, blink_my_led(1, 100, -200).steps.len());
}

#[test]
fn blink_schedule_of_negative_pairs() {
    // both negative: the quotient is positive again, two whole rounds
    let plan = blink_my_led(1, -1000, -200);
    assert_eq!(4, plan.steps.len());
    assert_eq!(plan.steps[0].hold_ms, -200);
}
