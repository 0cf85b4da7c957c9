use tunepulse_algo::driver::duty_ratio;
use tunepulse_algo::{MotorDriver, MotorStatus, MotorType, PhasePattern};

fn ready_driver(motor: MotorType) -> MotorDriver {
    let mut d = MotorDriver::new(motor, PhasePattern::Abcd, 10, 24000);
    while !d.is_ready() {
        d.tick(0, 0, 32768);
    }
    d
}

#[test]
fn new_driver_starts_calibrating() {
    let d = MotorDriver::new(MotorType::Bldc, PhasePattern::Abcd, 1000, 24000);
    assert_eq!(d.status(), MotorStatus::Calibrating);
    assert!(!d.is_ready());
    assert_eq!(d.amplitude(), 0);
    assert_eq!(d.electrical_angle(), 0);
    assert_eq!(d.tick_count(), 0);
}

#[test]
fn new_driver_has_zero_output() {
    let mut d = MotorDriver::new(MotorType::Stepper, PhasePattern::Acbd, 0, 0);
    assert_eq!(d.get_pwm(), [0, 0, 0, 0]);
}

#[test]
fn calibration_sweep_at_half_supply() {
    let mut d = MotorDriver::new(MotorType::Undefined, PhasePattern::Abcd, 1000, 24000);
    for k in 1..1000u32 {
        d.tick(12000, 0, 32768);
        assert_eq!(d.amplitude(), 32765);
        assert_eq!(d.electrical_angle() as u32, 65 * k);
        assert_eq!(d.status(), MotorStatus::Calibrating);
    }
    d.tick(12000, 0, 32768);
    assert_eq!(d.electrical_angle(), 65000);
    assert!(d.is_ready());
    assert_eq!(d.tick_count(), 0);
}

#[test]
fn ready_stays_ready_and_counts_ticks() {
    let mut d = ready_driver(MotorType::Bldc);
    for k in 1..=5 {
        d.tick(1000, 100, 32768);
        assert!(d.is_ready());
        assert_eq!(d.tick_count(), k);
    }
}

#[test]
fn ready_angle_follows_sensor_with_offset() {
    let mut d = MotorDriver::new(MotorType::Bldc, PhasePattern::Abcd, 1, 24000);
    d.tick(0, 1000, 32768);
    assert!(d.is_ready());
    let offset = 65535u16.wrapping_sub(1000);
    d.tick(0, 5000, 32768);
    assert_eq!(d.electrical_angle(), 5000u16.wrapping_add(offset));
}

#[test]
fn fault_gives_zero_drive_at_held_angle() {
    let mut d = MotorDriver::new(MotorType::Bldc, PhasePattern::Abcd, 1000, 24000);
    d.tick(12000, 0, 32768);
    d.tick(12000, 0, 32768);
    let held = d.electrical_angle();
    d.assert_fault();
    assert_eq!(d.status(), MotorStatus::Error);
    let out = d.tick(20000, 1234, 40000);
    assert_eq!(out, [0, 0, 0, 0]);
    assert_eq!(d.amplitude(), 0);
    assert_eq!(d.electrical_angle(), held);
    assert_eq!(d.tick(-20000, 999, 1).to_vec(), vec![0, 0, 0, 0]);
    assert_eq!(d.status(), MotorStatus::Error);
}

#[test]
fn clearing_fault_resumes_previous_phase() {
    let mut d = MotorDriver::new(MotorType::Bldc, PhasePattern::Abcd, 1000, 24000);
    d.assert_fault();
    d.clear_fault();
    assert_eq!(d.status(), MotorStatus::Calibrating);
    let mut r = ready_driver(MotorType::Bldc);
    r.assert_fault();
    r.clear_fault();
    assert_eq!(r.status(), MotorStatus::Ready);
    r.clear_fault();
    assert_eq!(r.status(), MotorStatus::Ready);
}

#[test]
fn ready_ticks_are_reproducible() {
    let mut a = ready_driver(MotorType::Bldc);
    let mut b = ready_driver(MotorType::Bldc);
    for i in 0..20u16 {
        let x = a.tick(3000, i * 300, 30000);
        let y = b.tick(3000, i * 300, 30000);
        assert_eq!(x, y);
    }
}

#[test]
fn get_pwm_repeats_last_output() {
    let mut d = MotorDriver::new(MotorType::Bldc, PhasePattern::Abcd, 1000, 24000);
    let out = d.tick(12000, 0, 32768);
    assert_ne!(out, [0, 0, 0, 0]);
    assert_eq!(d.get_pwm(), out);
    assert_eq!(d.get_pwm(), out);
    assert_eq!(d.is_ready(), d.is_ready());
}

#[test]
fn mode_change_waits_for_next_tick() {
    let mut d = MotorDriver::new(MotorType::Bldc, PhasePattern::Abcd, 1000, 24000);
    let out = d.tick(12000, 0, 32768);
    d.change_motor_mode(MotorType::Undefined);
    assert_eq!(d.get_pwm(), out);
    assert_eq!(d.tick(12000, 0, 32768), [0, 0, 0, 0]);
    d.change_motor_mode(MotorType::Dc);
    d.change_phase_mode(PhasePattern::Acbd);
    assert_eq!(d.get_pwm(), [0, 0, 0, 0]);
    assert_eq!(d.tick(12000, 0, 32768), [32764, 0, -32764, 0]);
}

#[test]
fn duty_ratio_exact_values() {
    assert_eq!(duty_ratio(12000, 12000), 32765);
    assert_eq!(duty_ratio(1000, 24000), 1365);
    assert_eq!(duty_ratio(0, 5), 0);
    assert_eq!(duty_ratio(0, 0), 0);
}

#[test]
fn duty_ratio_rounds_toward_zero_when_negative() {
    assert_eq!(duty_ratio(-1000, 24000), -1365);
    assert_eq!(duty_ratio(-1, 0), -32768);
}

#[test]
fn duty_ratio_saturates_above() {
    assert_eq!(duty_ratio(100000, 1000), 32767);
    assert_eq!(duty_ratio(i32::MAX, 0), 32767);
}

#[test]
fn duty_ratio_keeps_low_bits_below() {
    assert_eq!(duty_ratio(-3, 1), 16384);
}
