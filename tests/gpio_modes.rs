use bl602_hal::gpio::{Event, GlbExt, InterruptPin, UartPin};
use bl602_hal::registers::{Glb, PinConfig, PIN_COUNT};

fn config(function: u32, pull_up: bool, pull_down: bool, input_enable: bool) -> PinConfig {
    PinConfig { function, input_enable, pull_up, pull_down, drive: 0, schmitt: false }
}

fn snapshot(glb: &Glb) -> Vec<(PinConfig, bool)> {
    (0..PIN_COUNT).map(|p| (glb.pin_config(p), glb.output_enabled(p))).collect()
}

/// Checks pin `pin` against `expected` and every other pin against `before`.
fn check_only_pin_changed(glb: &Glb, before: &[(PinConfig, bool)], pin: u8, expected: PinConfig) {
    for p in 0..PIN_COUNT {
        if p == pin {
            assert_eq!(glb.pin_config(p), expected);
            assert_eq!(glb.output_enabled(p), !expected.input_enable);
        } else {
            assert_eq!((glb.pin_config(p), glb.output_enabled(p)), before[p as usize]);
        }
    }
}

#[test]
fn pin3_pull_up_output_set_high_then_toggle() {
    let parts = Glb::reset().split();
    let mut glb = parts.glb;
    let mut pin3 = parts.pin3.into_pull_up_output(&mut glb);
    pin3.set_high(&mut glb);
    assert!(pin3.is_set_high(&glb));
    assert!(!pin3.is_set_low(&glb));
    pin3.toggle(&mut glb);
    assert!(!pin3.is_set_high(&glb));
    assert!(pin3.is_set_low(&glb));
}

#[test]
fn every_transition_writes_its_table_row() {
    let parts = Glb::reset().split();
    let mut glb = parts.glb;
    let before = snapshot(&glb);
    let pin = parts.pin5.into_floating_output(&mut glb);
    check_only_pin_changed(&glb, &before, 5, config(11, false, false, false));
    let before = snapshot(&glb);
    let pin = pin.into_pull_up_output(&mut glb);
    check_only_pin_changed(&glb, &before, 5, config(11, true, false, false));
    let before = snapshot(&glb);
    let pin = pin.into_pull_down_output(&mut glb);
    check_only_pin_changed(&glb, &before, 5, config(11, false, true, false));
    let before = snapshot(&glb);
    let pin = pin.into_floating_input(&mut glb);
    check_only_pin_changed(&glb, &before, 5, config(11, false, false, true));
    let before = snapshot(&glb);
    let pin = pin.into_pull_up_input(&mut glb);
    check_only_pin_changed(&glb, &before, 5, config(11, true, false, true));
    let before = snapshot(&glb);
    let pin = pin.into_pull_down_input(&mut glb);
    check_only_pin_changed(&glb, &before, 5, config(11, false, true, true));
    let before = snapshot(&glb);
    let pin = pin.into_pull_down_pwm(&mut glb);
    check_only_pin_changed(&glb, &before, 5, config(8, false, true, true));
    let before = snapshot(&glb);
    let pin = pin.into_pull_up_pwm(&mut glb);
    check_only_pin_changed(&glb, &before, 5, config(8, true, false, true));
    let before = snapshot(&glb);
    let pin = pin.into_floating_pwm(&mut glb);
    check_only_pin_changed(&glb, &before, 5, config(8, false, false, true));
    let before = snapshot(&glb);
    let pin = pin.into_uart(&mut glb);
    check_only_pin_changed(&glb, &before, 5, config(7, true, false, true));
    let before = snapshot(&glb);
    let pin = pin.into_spi(&mut glb);
    check_only_pin_changed(&glb, &before, 5, config(4, true, false, true));
    let before = snapshot(&glb);
    let pin = pin.into_i2c(&mut glb);
    check_only_pin_changed(&glb, &before, 5, config(6, true, false, true));
    assert_eq!(pin.index(), 5);
}

#[test]
fn transitions_on_last_pin_and_neighbour_in_same_word() {
    let parts = Glb::reset().split();
    let mut glb = parts.glb;
    let before = snapshot(&glb);
    let _p22 = parts.pin22.into_pull_down_output(&mut glb);
    check_only_pin_changed(&glb, &before, 22, config(11, false, true, false));
    let before = snapshot(&glb);
    let _p20 = parts.pin20.into_i2c(&mut glb);
    check_only_pin_changed(&glb, &before, 20, config(6, true, false, true));
    let before = snapshot(&glb);
    let _p21 = parts.pin21.into_spi(&mut glb);
    check_only_pin_changed(&glb, &before, 21, config(4, true, false, true));
}

#[test]
fn same_transition_twice_equals_once() {
    let parts = Glb::reset().split();
    let mut glb = parts.glb;
    let pin = parts.pin7.into_pull_up_input(&mut glb);
    let once = snapshot(&glb);
    let _pin = pin.into_pull_up_input(&mut glb);
    assert_eq!(snapshot(&glb), once);

    let pwm = parts.pin8.into_pull_down_pwm(&mut glb);
    let once = snapshot(&glb);
    let _pwm = pwm.into_pull_down_pwm(&mut glb);
    assert_eq!(snapshot(&glb), once);
}

#[test]
fn toggle_twice_restores_latch_from_both_levels() {
    let parts = Glb::reset().split();
    let mut glb = parts.glb;
    let mut pin = parts.pin0.into_floating_output(&mut glb);
    pin.set_low(&mut glb);
    pin.toggle(&mut glb);
    assert!(pin.is_set_high(&glb));
    pin.toggle(&mut glb);
    assert!(pin.is_set_low(&glb));
    pin.set_high(&mut glb);
    pin.toggle(&mut glb);
    assert!(pin.is_set_low(&glb));
    pin.toggle(&mut glb);
    assert!(pin.is_set_high(&glb));
}

#[test]
fn output_latches_of_other_pins_are_kept() {
    let parts = Glb::reset().split();
    let mut glb = parts.glb;
    let mut a = parts.pin1.into_pull_up_output(&mut glb);
    let mut b = parts.pin2.into_pull_up_output(&mut glb);
    a.set_high(&mut glb);
    b.set_high(&mut glb);
    a.set_low(&mut glb);
    assert!(b.is_set_high(&glb));
    assert!(!glb.output_level(1));
    b.toggle(&mut glb);
    assert!(a.is_set_low(&glb));
    assert!(b.is_set_low(&glb));
}

#[test]
fn split_after_reset_gives_floating_inputs() {
    let parts = Glb::reset().split();
    let glb = &parts.glb;
    for p in 0..PIN_COUNT {
        assert_eq!(glb.pin_config(p), config(11, false, false, true));
        assert!(!glb.output_enabled(p));
    }
    let indices = [
        parts.pin0.index(), parts.pin1.index(), parts.pin2.index(), parts.pin3.index(),
        parts.pin4.index(), parts.pin5.index(), parts.pin6.index(), parts.pin7.index(),
        parts.pin8.index(), parts.pin9.index(), parts.pin10.index(), parts.pin11.index(),
        parts.pin12.index(), parts.pin13.index(), parts.pin14.index(), parts.pin15.index(),
        parts.pin16.index(), parts.pin17.index(), parts.pin18.index(), parts.pin19.index(),
        parts.pin20.index(), parts.pin21.index(), parts.pin22.index(),
    ];
    assert_eq!(indices.to_vec(), (0..23u8).collect::<Vec<u8>>());
    let muxes = [
        parts.uart_mux0.index(), parts.uart_mux1.index(), parts.uart_mux2.index(),
        parts.uart_mux3.index(), parts.uart_mux4.index(), parts.uart_mux5.index(),
        parts.uart_mux6.index(), parts.uart_mux7.index(),
    ];
    assert_eq!(muxes.to_vec(), (0..8u8).collect::<Vec<u8>>());
    for s in 0..8u8 {
        assert_eq!(glb.uart_signal_code(s), 1);
    }
}

#[test]
fn input_pin_reads_sampled_level() {
    let parts = Glb::reset().split();
    let mut glb = parts.glb;
    let pin = parts.pin9.into_pull_down_input(&mut glb);
    assert!(pin.is_low(&glb));
    assert!(!pin.is_high(&glb));
    glb.latch_input_levels(1 << 9);
    assert!(pin.is_high(&glb));
    assert!(!pin.is_low(&glb));
    glb.latch_input_levels(!(1u32 << 9));
    assert!(pin.is_low(&glb));
}

#[test]
fn schmitt_filter_enable_and_disable() {
    let parts = Glb::reset().split();
    let mut glb = parts.glb;
    let mut pin = parts.pin4.into_floating_input(&mut glb);
    pin.enable_smitter(&mut glb);
    assert!(glb.pin_config(4).schmitt);
    assert!(!glb.pin_config(5).schmitt);
    assert_eq!(glb.pin_config(4).function, 11);
    pin.disable_smitter(&mut glb);
    assert_eq!(glb.pin_config(4), config(11, false, false, true));
}

#[test]
fn interrupt_configuration_fields() {
    let parts = Glb::reset().split();
    let mut glb = parts.glb;
    let mut pin = parts.pin13;
    let events = [
        (Event::NegativePulse, 0),
        (Event::PositivePulse, 1),
        (Event::NegativeLevel, 2),
        (Event::HighLevel, 3),
    ];
    for (event, code) in events {
        assert_eq!(event.code(), code);
        pin.trigger_on_event(&mut glb, event);
        assert_eq!(glb.trigger_code(13), code);
        assert_eq!(glb.trigger_code(12), 0);
        assert_eq!(glb.trigger_code(14), 0);
    }
    pin.control_asynchronous(&mut glb);
    assert!(glb.is_asynchronous(13));
    assert_eq!(glb.trigger_code(13), 3);
    pin.control_synchronous(&mut glb);
    assert!(!glb.is_asynchronous(13));

    let mut other = parts.pin2;
    other.disable_interrupt(&mut glb);
    pin.disable_interrupt(&mut glb);
    assert!(glb.interrupt_masked(13));
    pin.enable_interrupt(&mut glb);
    assert!(!glb.interrupt_masked(13));
    assert!(glb.interrupt_masked(2));

    assert!(!pin.check_interrupt(&glb));
    glb.latch_interrupt_status(1 << 13);
    assert!(pin.check_interrupt(&glb));
    assert!(!other.check_interrupt(&glb));
    pin.clear_interrupt_pending_bit(&mut glb);
    assert!(!glb.interrupt_clear_bit(13));
}

#[test]
fn interrupt_fields_of_pins_in_later_mode_words() {
    let parts = Glb::reset().split();
    let mut glb = parts.glb;
    let mut p19 = parts.pin19;
    let mut p20 = parts.pin20;
    let mut p22 = parts.pin22;
    p19.trigger_on_event(&mut glb, Event::NegativeLevel);
    p20.trigger_on_event(&mut glb, Event::PositivePulse);
    p22.trigger_on_event(&mut glb, Event::HighLevel);
    p22.control_asynchronous(&mut glb);
    assert_eq!(glb.trigger_code(19), 2);
    assert_eq!(glb.trigger_code(20), 1);
    assert_eq!(glb.trigger_code(21), 0);
    assert_eq!(glb.trigger_code(22), 3);
    assert!(glb.is_asynchronous(22));
    assert!(!glb.is_asynchronous(19));
}

#[test]
fn uart_pins_carry_signal_of_pin_number_mod_eight() {
    let parts = Glb::reset().split();
    let mut glb = parts.glb;
    let p11 = parts.pin11.into_uart(&mut glb);
    let p16 = parts.pin16.into_uart(&mut glb);
    let p3 = parts.pin3.into_uart(&mut glb);
    assert_eq!(p11.uart_signal(), 3);
    assert_eq!(p16.uart_signal(), 0);
    assert_eq!(p3.uart_signal(), 3);
}
