use tunepulse_algo::calibrator::AngleCalibrator;
use tunepulse_algo::filter::FilterLPF;
use tunepulse_algo::position::Position;
use tunepulse_algo::pwm::MotorPWM;
use tunepulse_algo::supply::SupplyVoltage;
use tunepulse_algo::{MotorType, PhasePattern};

#[test]
fn position_unwraps_across_zero() {
    let mut p = Position::new();
    p.tick(65000);
    assert_eq!(p.angle(), 65000);
    assert_eq!(p.position(), -536);
    p.tick(100);
    assert_eq!(p.position(), 100);
    p.tick(30000);
    assert_eq!(p.position(), 30000);
}

#[test]
fn supply_scales_and_floors() {
    let mut s = SupplyVoltage::new(200, 24000);
    assert_eq!(s.voltage_mv(), 200);
    s.tick(32768);
    assert_eq!(s.voltage_mv(), 12000);
    s.tick(65535);
    assert_eq!(s.voltage_mv(), 24000);
    s.tick(1000);
    assert_eq!(s.voltage_mv(), 366);
    s.tick(0);
    assert_eq!(s.voltage_mv(), 200);
}

#[test]
fn supply_with_negative_scale_reads_floor() {
    let mut s = SupplyVoltage::new(200, -5000);
    s.tick(65535);
    assert_eq!(s.voltage_mv(), 200);
}

#[test]
fn filter_without_smoothing_passes_through() {
    let mut f = FilterLPF::new(0, 0);
    assert_eq!(f.tick(1234), 1234);
    assert_eq!(f.tick(65000), 65000);
}

#[test]
fn filter_halves_the_gap_the_short_way() {
    let mut f = FilterLPF::new(0, 1);
    assert_eq!(f.tick(100), 50);
    let mut g = FilterLPF::new(0, 1);
    assert_eq!(g.tick(65436), 65486);
}

#[test]
fn calibrator_sweeps_then_reports_offset() {
    let mut c = AngleCalibrator::new(3);
    assert!(!c.is_ready());
    assert_eq!(c.tick(0), 21845);
    assert_eq!(c.tick(0), 43690);
    assert!(!c.is_ready());
    assert_eq!(c.tick(1000), 65535);
    assert!(c.is_ready());
    assert_eq!(c.get_correction(1000), (64535, 65535));
    assert_eq!(c.get_correction(2000), (64535, 999));
    assert_eq!(c.tick(7), 65535);
}

#[test]
fn bldc_phases_at_zero_angle() {
    let m = MotorPWM::new(MotorType::Bldc, PhasePattern::Abcd);
    assert_eq!(m.tick_angle((0, 32767)), [0, 21845, -21843, 0]);
    assert_eq!(m.tick_angle((8192, -20000)), [-10000, -3333, 16667, 0]);
}

#[test]
fn dc_drives_a_against_b() {
    let m = MotorPWM::new(MotorType::Dc, PhasePattern::Abcd);
    assert_eq!(m.tick_angle((1234, 32767)), [32766, -32766, 0, 0]);
    assert_eq!(m.tick_angle((0, -32768)), [-32767, 32767, 0, 0]);
}

#[test]
fn stepper_wiring_patterns() {
    let mut m = MotorPWM::new(MotorType::Stepper, PhasePattern::Abcd);
    assert_eq!(m.tick_angle((0, 16384)), [0, 0, 16383, -16383]);
    m.change_phase_mode(PhasePattern::Acbd);
    assert_eq!(m.tick_angle((0, 16384)), [0, 16383, 0, -16383]);
    m.change_phase_mode(PhasePattern::Adbc);
    assert_eq!(m.tick_angle((0, 16384)), [0, -16383, 0, 16383]);
}

#[test]
fn undefined_motor_is_idle() {
    let mut m = MotorPWM::new(MotorType::Bldc, PhasePattern::Abcd);
    m.change_motor_mode(MotorType::Undefined);
    assert_eq!(m.tick_angle((100, 32767)), [0, 0, 0, 0]);
}
